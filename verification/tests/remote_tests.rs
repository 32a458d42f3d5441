use bevy_ta::profile::{
    CharacterRenderProfile, ModelBinding, RenderPartBinding, RenderPartResources,
    SharedRenderProfile, PROFILE_VERSION,
};
use bevy_ta::remote::{
    absolute_request_path, camera_matches, internal_error, invalid_params,
    material_source_matches, merge_captured_part, method_name, normalized_shader_key,
    parse_entity_bits, parse_target_entity, single_event_value, toon_profile_save_path,
    unregistered_shader_key_message, EventValue, INTERNAL_ERROR, INVALID_PARAMS,
};
use bevy_ta::toon::ToonMaterialBindingSource;

fn source(scene: Option<&str>, node: &str, key: &str) -> ToonMaterialBindingSource {
    ToonMaterialBindingSource {
        scene_asset_path: scene.map(|s| s.to_string()),
        node_name: node.to_string(),
        shader_key: key.to_string(),
    }
}

#[test]
fn method_names_carry_the_prefix() {
    assert_eq!(method_name("material/set_param"), "bevy_ta/material/set_param");
}

#[test]
fn error_constructors_set_codes() {
    let e = invalid_params("bad".to_string());
    assert_eq!((e.code, e.message.as_str()), (-32602, "bad"));
    let e = internal_error("boom".to_string());
    assert_eq!((e.code, e.message.as_str()), (-32603, "boom"));
}

#[test]
fn entity_bits_with_zero_index_are_rejected() {
    for bits in [0u64, 1u64 << 32, 7u64 << 32] {
        match parse_entity_bits(bits) {
            Ok(_) => panic!("bits {bits} accepted"),
            Err(e) => {
                assert_eq!(e.code, INVALID_PARAMS);
                assert_eq!(e.message, format!("Invalid entity bits: {bits}"));
            }
        }
    }
}

#[test]
fn entity_bits_round_trip_through_bevy() {
    let entity = bevy::ecs::entity::Entity::from_raw_u32(5).unwrap();
    let bits = entity.to_bits();
    assert_eq!(parse_entity_bits(bits).ok(), Some(bits));
    assert_eq!(parse_entity_bits((3u64 << 32) | 9).ok(), Some((3u64 << 32) | 9));
}

#[test]
fn target_entity_is_optional() {
    assert_eq!(parse_target_entity(None).ok(), Some(None));
    assert_eq!(parse_target_entity(Some(12)).ok(), Some(Some(12)));
    let err = parse_target_entity(Some(0)).err().unwrap();
    assert_eq!(err.code, INVALID_PARAMS);
    assert_eq!(err.message, "Invalid entity bits: 0");
}

#[test]
fn camera_matching_checks_entity_and_name() {
    assert!(camera_matches(4, Some("cam"), None, None));
    assert!(camera_matches(4, Some("cam"), Some(4), Some("cam")));
    assert!(!camera_matches(4, Some("cam"), Some(5), None));
    assert!(!camera_matches(4, Some("cam"), None, Some("other")));
    assert!(!camera_matches(4, None, None, Some("cam")));
}

#[test]
fn shader_key_defaults_to_character_surface() {
    assert_eq!(normalized_shader_key(None), "character_surface");
    let s = source(None, "Body", "");
    assert_eq!(normalized_shader_key(Some(&s)), "character_surface");
    let s = source(None, "Hair", "character_hair");
    assert_eq!(normalized_shader_key(Some(&s)), "character_hair");
}

#[test]
fn material_matching_needs_a_target_or_apply_all() {
    let s = source(Some("a.glb"), "Body", "");
    assert!(!material_source_matches(1, Some(&s), None, None, None, false));
    assert!(material_source_matches(1, Some(&s), None, None, None, true));
    assert!(material_source_matches(1, Some(&s), Some(1), None, None, false));
    assert!(!material_source_matches(1, Some(&s), Some(2), None, None, true));
    assert!(material_source_matches(1, Some(&s), None, Some("Body"), None, false));
    assert!(!material_source_matches(1, Some(&s), None, Some("Hair"), None, false));
    assert!(material_source_matches(1, Some(&s), None, None, Some("character_surface"), false));
    assert!(!material_source_matches(1, None, None, Some("Body"), None, false));
    assert!(material_source_matches(1, None, None, None, Some("character_surface"), false));
    assert!(!material_source_matches(1, Some(&s), None, None, Some("character_hair"), false));
}

#[test]
fn single_event_value_needs_exactly_one() {
    let none: (Option<f32>, Option<bool>, Option<[f32; 4]>) = (None, None, None);
    assert!(single_event_value(none.0, none.1, none.2).is_none());
    assert!(matches!(
        single_event_value(Some(0.5f32), None::<bool>, None::<[f32; 4]>),
        Some(EventValue::Number(n)) if n == 0.5
    ));
    assert!(matches!(
        single_event_value(None::<f32>, Some(true), None::<[f32; 4]>),
        Some(EventValue::Boolean(true))
    ));
    assert!(matches!(
        single_event_value(None::<f32>, None::<bool>, Some([1.0f32, 0.0, 0.0, 1.0])),
        Some(EventValue::Vec4(v)) if v == [1.0, 0.0, 0.0, 1.0]
    ));
    assert!(single_event_value(Some(1.0f32), Some(false), None::<[f32; 4]>).is_none());
    assert!(single_event_value(None::<f32>, Some(false), Some([0.0f32; 4])).is_none());
}

#[test]
fn request_path_errors_are_internal() {
    let cwd: Result<String, String> = Err("gone".to_string());
    let e = absolute_request_path("x.ron", &cwd).err().unwrap();
    assert_eq!(e.code, INTERNAL_ERROR);
    assert_eq!(e.message, "Failed to get current directory: gone");
    let cwd: Result<String, String> = Ok("/w".to_string());
    assert_eq!(absolute_request_path("x.ron", &cwd).ok(), Some("/w/x.ron".to_string()));
}

#[test]
fn save_path_prefers_trimmed_explicit_path() {
    let cwd: Result<String, String> = Ok("/w".to_string());
    let s = source(Some("private/hero/hero.glb#Scene0"), "Body", "");
    assert_eq!(toon_profile_save_path(Some("  out/p.ron "), &s, &cwd), Ok("/w/out/p.ron".to_string()));
    assert_eq!(
        toon_profile_save_path(Some("   "), &s, &cwd),
        Ok("/w/assets/private/hero/hero.toon-model.ron".to_string())
    );
    assert_eq!(
        toon_profile_save_path(None, &s, &cwd),
        Ok("/w/assets/private/hero/hero.toon-model.ron".to_string())
    );
    assert_eq!(toon_profile_save_path(Some("/abs/p.ron"), &s, &Err("x".to_string())), Ok("/abs/p.ron".to_string()));
}

#[test]
fn save_path_needs_a_scene_without_explicit_path() {
    let cwd: Result<String, String> = Ok("/w".to_string());
    let s = source(None, "Body", "");
    assert_eq!(
        toon_profile_save_path(None, &s, &cwd),
        Err("missing scene_asset_path; pass `path` or use a material loaded from a scene".to_string())
    );
}

#[test]
fn unregistered_key_message() {
    assert_eq!(unregistered_shader_key_message("foo"), "未注册的 shader_key: foo");
}

fn binding(key: &str, shader: &str, texture: Option<&str>) -> RenderPartBinding {
    RenderPartBinding {
        binding_key: key.to_string(),
        shader_key: shader.to_string(),
        resources: RenderPartResources {
            base_color_texture: texture.map(|t| t.to_string()),
            face_shadow_texture: None,
        },
        params: ron::Value::Unit,
    }
}

#[test]
fn merge_into_fresh_profile() {
    let s = source(Some("a.glb"), "Body", "");
    let merged = merge_captured_part(None, &s, ron::Value::Bool(true));
    assert_eq!(merged.version, PROFILE_VERSION);
    assert_eq!(merged.model_binding.scene_asset_path.as_deref(), Some("a.glb"));
    assert_eq!(merged.parts.len(), 1);
    assert!(merged.shared.scalar_override_bits.is_empty());
    let part = &merged.parts[0];
    assert_eq!(part.binding_key, "Body");
    assert_eq!(part.shader_key, "character_surface");
    assert_eq!(part.params, ron::Value::Bool(true));
    assert!(part.resources.base_color_texture.is_none());
}

#[test]
fn merge_keeps_earlier_textures_and_other_parts() {
    let loaded = CharacterRenderProfile {
        version: 0,
        model_binding: ModelBinding { scene_asset_path: Some("old.glb".to_string()) },
        shared: SharedRenderProfile { scalar_override_bits: vec![("rim".to_string(), 2.0f32.to_bits())] },
        parts: vec![binding("Hair", "character_hair", Some("h.png")), binding("Body", "x", Some("b.png"))],
    };
    let s = source(None, "Body", "character_face_sdf");
    let merged = merge_captured_part(Some(loaded), &s, ron::Value::Unit);
    assert_eq!(merged.version, PROFILE_VERSION);
    assert_eq!(merged.model_binding.scene_asset_path.as_deref(), Some("old.glb"));
    assert_eq!(merged.shared.scalar_override_bits, vec![("rim".to_string(), 2.0f32.to_bits())]);
    assert_eq!(merged.parts.len(), 2);
    let body = merged.find_part("Body").unwrap();
    assert_eq!(body.shader_key, "character_face_sdf");
    assert_eq!(body.resources.base_color_texture.as_deref(), Some("b.png"));
    let hair = merged.find_part("Hair").unwrap();
    assert_eq!(hair.resources.base_color_texture.as_deref(), Some("h.png"));
}
