use bevy_ta::profile::{
    CharacterRenderProfile, ModelBinding, RenderPartBinding, RenderPartResources,
    SharedRenderProfile, PROFILE_VERSION,
};

fn part(key: &str, shader: &str) -> RenderPartBinding {
    RenderPartBinding {
        binding_key: key.to_string(),
        shader_key: shader.to_string(),
        resources: RenderPartResources::default(),
        params: ron::Value::Unit,
    }
}

fn profile(parts: Vec<RenderPartBinding>) -> CharacterRenderProfile {
    CharacterRenderProfile {
        version: PROFILE_VERSION,
        model_binding: ModelBinding { scene_asset_path: Some("hero.glb".to_string()) },
        shared: SharedRenderProfile { scalar_override_bits: vec![("rim".to_string(), 1.5f32.to_bits())] },
        parts,
    }
}

fn keys(profile: &CharacterRenderProfile) -> Vec<(String, String)> {
    profile.parts.iter().map(|p| (p.binding_key.clone(), p.shader_key.clone())).collect()
}

#[test]
fn upsert_into_empty_profile_adds_the_part() {
    let mut p = CharacterRenderProfile::default();
    p.upsert_part(part("Body", "character_surface"));
    assert_eq!(keys(&p), vec![("Body".to_string(), "character_surface".to_string())]);
    assert_eq!(p.version, 0);
}

#[test]
fn upsert_replaces_existing_binding_in_place() {
    let mut p = profile(vec![part("Zeta", "a"), part("Alpha", "b")]);
    p.upsert_part(part("Zeta", "c"));
    assert_eq!(
        keys(&p),
        vec![("Zeta".to_string(), "c".to_string()), ("Alpha".to_string(), "b".to_string())]
    );
    assert_eq!(p.model_binding.scene_asset_path.as_deref(), Some("hero.glb"));
    assert_eq!(p.shared.scalar_override_bits.len(), 1);
}

#[test]
fn upsert_new_binding_sorts_all_parts_stably() {
    let mut p = profile(vec![part("Hair", "first"), part("Body", "x"), part("Hair", "second")]);
    p.upsert_part(part("Face", "f"));
    assert_eq!(
        keys(&p),
        vec![
            ("Body".to_string(), "x".to_string()),
            ("Face".to_string(), "f".to_string()),
            ("Hair".to_string(), "first".to_string()),
            ("Hair".to_string(), "second".to_string()),
        ]
    );
}

#[test]
fn upsert_sorts_non_ascii_keys_like_std() {
    let mut p = profile(vec![part("节点 2", "a"), part("Ärmel", "b")]);
    p.upsert_part(part("arm", "c"));
    let mut expected: Vec<String> = vec!["节点 2".into(), "Ärmel".into(), "arm".into()];
    expected.sort();
    let got: Vec<String> = p.parts.iter().map(|p| p.binding_key.clone()).collect();
    assert_eq!(got, expected);
}

#[test]
fn find_part_returns_first_binding_with_key() {
    let p = profile(vec![part("Hair", "first"), part("Hair", "second")]);
    assert_eq!(p.find_part("Hair").map(|b| b.shader_key.as_str()), Some("first"));
    assert!(p.find_part("Body").is_none());
}

#[test]
fn upsert_then_find_yields_the_upserted_part() {
    let mut p = profile(vec![part("B", "b"), part("A", "a")]);
    p.upsert_part(part("C", "c"));
    assert_eq!(p.find_part("C").map(|b| b.shader_key.as_str()), Some("c"));
    assert_eq!(p.find_part("A").map(|b| b.shader_key.as_str()), Some("a"));
    p.upsert_part(part("A", "a2"));
    assert_eq!(p.find_part("A").map(|b| b.shader_key.as_str()), Some("a2"));
    assert_eq!(p.find_part("B").map(|b| b.shader_key.as_str()), Some("b"));
}

#[test]
fn resources_clone_keeps_paths() {
    let r = RenderPartResources {
        base_color_texture: Some("tex/body.png".to_string()),
        face_shadow_texture: None,
    };
    let c = r.clone();
    assert_eq!(c.base_color_texture.as_deref(), Some("tex/body.png"));
    assert!(c.face_shadow_texture.is_none());
}

#[test]
fn upserting_the_same_part_twice_changes_nothing() {
    let mut p = profile(vec![part("B", "b"), part("A", "a")]);
    p.upsert_part(part("C", "c"));
    let once = keys(&p);
    p.upsert_part(part("C", "c"));
    assert_eq!(keys(&p), once);
    p.upsert_part(part("A", "a"));
    p.upsert_part(part("A", "a"));
    assert_eq!(keys(&p), once);
}

#[test]
fn upsert_keeps_sorted_distinct_keys_and_grows_only_for_new_keys() {
    let mut p = profile(vec![part("A", "a"), part("C", "c"), part("E", "e")]);
    p.upsert_part(part("D", "d"));
    let got: Vec<String> = p.parts.iter().map(|b| b.binding_key.clone()).collect();
    assert_eq!(got, vec!["A", "C", "D", "E"]);
    assert_eq!(p.parts.len(), 4);
    p.upsert_part(part("C", "c2"));
    assert_eq!(p.parts.len(), 4);
    let got: Vec<String> = p.parts.iter().map(|b| b.binding_key.clone()).collect();
    assert_eq!(got, vec!["A", "C", "D", "E"]);
    assert_eq!(p.find_part("E").map(|b| b.shader_key.as_str()), Some("e"));
    assert_eq!(p.version, PROFILE_VERSION);
}
