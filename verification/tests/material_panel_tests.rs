use bevy_ta::material_panel::{
    add_ramp_stop, bind_source_nodes, binding_file_path, clamp_stop_index,
    effective_selected_primitive, ensure_panel_selection, find_part_for_nodes, hidden_nodes_note,
    listed_nodes, material_entry_label, new_preview_candidates, normalize_optional_string,
    normalize_render_part_resources, preview_node_name, preview_shader_key, primitive_heading,
    shown_source_index, sort_panel_entries, DevWindowState, PanelEntry, PanelEntryKey,
    PreviewCandidate,
};
use bevy_ta::material_panel::{profile_to_bind, remove_ramp_stop};
use bevy_ta::profile::{
    CharacterRenderProfile, ModelBinding, RenderPartBinding, RenderPartResources,
    SharedRenderProfile,
};
use bevy_ta::selection::{MaterialPanelSelectionEntry, MaterialSelectionState};
use bevy_ta::toon::ToonMaterialBindingSource;

fn names(list: &[&str]) -> Vec<String> {
    list.iter().map(|n| n.to_string()).collect()
}

fn part(key: &str, shader: &str) -> RenderPartBinding {
    RenderPartBinding {
        binding_key: key.to_string(),
        shader_key: shader.to_string(),
        resources: RenderPartResources::default(),
        params: ron::Value::Unit,
    }
}

fn profile(parts: Vec<RenderPartBinding>) -> CharacterRenderProfile {
    CharacterRenderProfile {
        version: 1,
        model_binding: ModelBinding { scene_asset_path: None },
        shared: SharedRenderProfile { scalar_override_bits: vec![] },
        parts,
    }
}

#[test]
fn windows_start_open() {
    let w = DevWindowState::default();
    assert!(w.light_control_open && w.gizmos_open && w.material_library_open && w.material_property_open);
}

#[test]
fn effective_primitive_keeps_member_or_takes_first() {
    assert_eq!(effective_selected_primitive(Some(5), &vec![4, 5]), Some(5));
    assert_eq!(effective_selected_primitive(Some(9), &vec![4, 5]), Some(4));
    assert_eq!(effective_selected_primitive(None, &vec![4, 5]), Some(4));
    assert_eq!(effective_selected_primitive(Some(9), &vec![]), None);
}

#[test]
fn entry_labels() {
    assert_eq!(material_entry_label(&names(&["Body", "Arm", "Leg"])), "Body 等 3 个节点");
    assert_eq!(material_entry_label(&names(&["Body"])), "Body");
    assert_eq!(material_entry_label(&names(&[])), "未命名节点");
}

#[test]
fn headings_and_notes() {
    assert_eq!(primitive_heading(Some("Body"), 3), "Body 等 3 个 primitive");
    assert_eq!(primitive_heading(Some("Body"), 1), "Body");
    assert_eq!(primitive_heading(None, 3), "未命名 primitive");
    assert_eq!(hidden_nodes_note(4), None);
    assert_eq!(hidden_nodes_note(7), Some("还有 3 个 primitive...".to_string()));
}

#[test]
fn blank_texture_paths_are_dropped() {
    let mut v = Some("  \t".to_string());
    normalize_optional_string(&mut v);
    assert_eq!(v, None);
    let mut v = Some(" a.png ".to_string());
    normalize_optional_string(&mut v);
    assert_eq!(v.as_deref(), Some(" a.png "));
    let r = normalize_render_part_resources(RenderPartResources {
        base_color_texture: Some("".to_string()),
        face_shadow_texture: Some("f.png".to_string()),
    });
    assert_eq!(r.base_color_texture, None);
    assert_eq!(r.face_shadow_texture.as_deref(), Some("f.png"));
}

#[test]
fn ramp_stop_selection() {
    assert_eq!(clamp_stop_index(5, 3), 2);
    assert_eq!(clamp_stop_index(1, 3), 1);
    assert_eq!(clamp_stop_index(1, 0), 0);
    let mut stops = vec![0.0f32, 1.0];
    let mut selected = 0usize;
    add_ramp_stop(&mut stops, 0.5, &mut selected);
    assert_eq!((stops.clone(), selected), (vec![0.0, 1.0, 0.5], 2));
    assert!(remove_ramp_stop(&mut stops, &mut selected));
    assert_eq!((stops.clone(), selected), (vec![0.0, 1.0], 1));
    assert!(!remove_ramp_stop(&mut stops, &mut selected));
    assert_eq!((stops, selected), (vec![0.0, 1.0], 1));
    let mut stops = vec![1, 2, 3, 4];
    let mut selected = 1usize;
    assert!(remove_ramp_stop(&mut stops, &mut selected));
    assert_eq!((stops, selected), (vec![1, 3, 4], 1));
}

#[test]
fn find_part_for_first_bound_node() {
    let p = profile(vec![part("Hair", "h"), part("Body", "b")]);
    assert_eq!(find_part_for_nodes(&p, &names(&["Arm", "Body", "Hair"])).map(|b| b.shader_key.as_str()), Some("b"));
    assert!(find_part_for_nodes(&p, &names(&["Arm"])).is_none());
    assert!(find_part_for_nodes(&p, &names(&[])).is_none());
}

#[test]
fn binding_nodes_upserts_each() {
    let mut p = profile(vec![part("Body", "old"), part("Zed", "z")]);
    let resources = RenderPartResources { base_color_texture: Some("t.png".to_string()), face_shadow_texture: None };
    bind_source_nodes(&mut p, &names(&["Body", "Arm"]), "character_hair", &resources, &ron::Value::Bool(false));
    let keys: Vec<(&str, &str)> = p.parts.iter().map(|b| (b.binding_key.as_str(), b.shader_key.as_str())).collect();
    assert_eq!(keys, vec![("Arm", "character_hair"), ("Body", "character_hair"), ("Zed", "z")]);
    let arm = p.find_part("Arm").unwrap();
    assert_eq!(arm.resources.base_color_texture.as_deref(), Some("t.png"));
    assert_eq!(arm.params, ron::Value::Bool(false));
    assert_eq!(p.version, 1);
}

#[test]
fn shown_source_index_prefers_selected() {
    assert_eq!(shown_source_index(&vec![3, 4, 4], Some(4)), Some(1));
    assert_eq!(shown_source_index(&vec![3, 4], Some(9)), Some(0));
    assert_eq!(shown_source_index(&vec![3, 4], None), Some(0));
    assert_eq!(shown_source_index(&vec![], Some(1)), None);
}

#[test]
fn listed_nodes_show_at_most_four() {
    assert_eq!(listed_nodes(&vec![1, 2, 3], 1), vec![1, 0, 2]);
    assert_eq!(listed_nodes(&vec![1, 2, 3, 4, 5, 6], 0), vec![0, 1, 2, 3]);
    assert_eq!(listed_nodes(&vec![7, 7, 8], 0), vec![0, 2]);
}

fn key(position: usize, first: Option<(&str, u32)>) -> PanelEntryKey {
    PanelEntryKey { position, first_node: first.map(|(n, i)| (n.to_string(), i)) }
}

#[test]
fn panel_entries_sort_by_first_node_then_index() {
    let mut entries = vec![
        key(0, None),
        key(1, Some(("Hair", 2))),
        key(2, Some(("Body", 9))),
        key(3, Some(("Hair", 1))),
        key(4, None),
        key(5, Some(("Body", 9))),
    ];
    sort_panel_entries(&mut entries);
    let order: Vec<usize> = entries.iter().map(|e| e.position).collect();
    assert_eq!(order, vec![2, 5, 3, 1, 0, 4]);
}

fn panel(entity: u64, primitives: &[u64]) -> PanelEntry {
    PanelEntry { entity, primitives: MaterialPanelSelectionEntry { primitive_entities: primitives.to_vec() } }
}

#[test]
fn panel_selection_falls_back_to_first_entry() {
    let entries = vec![panel(10, &[1, 2]), panel(20, &[3])];
    let mut s = MaterialSelectionState { selected_panel_entity: Some(99), selected_primitive_entity: Some(2) };
    ensure_panel_selection(&mut s, &entries);
    assert_eq!((s.selected_panel_entity, s.selected_primitive_entity), (Some(10), Some(2)));
    let mut s = MaterialSelectionState { selected_panel_entity: Some(20), selected_primitive_entity: Some(7) };
    ensure_panel_selection(&mut s, &entries);
    assert_eq!((s.selected_panel_entity, s.selected_primitive_entity), (Some(20), Some(7)));
    let mut s = MaterialSelectionState::default();
    ensure_panel_selection(&mut s, &vec![]);
    assert_eq!((s.selected_panel_entity, s.selected_primitive_entity), (None, None));
    ensure_panel_selection(&mut s, &entries);
    assert_eq!((s.selected_panel_entity, s.selected_primitive_entity), (Some(10), Some(1)));
}

fn cand(primitive_entity: u64, material: u64) -> PreviewCandidate {
    PreviewCandidate { primitive_entity, material }
}

#[test]
fn preview_candidates_one_per_new_material() {
    let candidates = vec![cand(1, 100), cand(2, 200), cand(3, 100), cand(4, 300)];
    assert_eq!(new_preview_candidates(&candidates, &vec![300]), vec![0, 1]);
    assert_eq!(new_preview_candidates(&candidates, &vec![]), vec![0, 1, 3]);
    assert_eq!(new_preview_candidates(&vec![], &vec![]), Vec::<usize>::new());
}

#[test]
fn preview_names_and_keys() {
    assert_eq!(preview_node_name(Some("Bound"), Some("Entity"), 3), "Bound");
    assert_eq!(preview_node_name(None, Some("Entity"), 3), "Entity");
    assert_eq!(preview_node_name(None, None, 3), "primitive 3");
    let s = ToonMaterialBindingSource {
        scene_asset_path: None,
        node_name: "n".to_string(),
        shader_key: "character_hair".to_string(),
    };
    assert_eq!(preview_shader_key(Some(&s)), "character_hair");
    assert_eq!(preview_shader_key(None), "character_surface");
}

#[test]
fn binding_file_of_scene() {
    assert_eq!(binding_file_path(Some("a/b.glb#Scene0")), Some("assets/a/b.toon-model.ron".to_string()));
    assert_eq!(binding_file_path(None), None);
}

#[test]
fn profile_to_bind_prefers_scene_then_file_then_fresh() {
    let mut scene = profile(vec![part("A", "a")]);
    scene.version = 7;
    let file = profile(vec![part("B", "b"), part("C", "c")]);
    let p = profile_to_bind(Some(scene), Some(file), Some("x.glb".to_string()));
    assert_eq!((p.version, p.parts.len()), (7, 1));
    assert_eq!(p.model_binding.scene_asset_path.as_deref(), Some("x.glb"));
    let file = profile(vec![part("B", "b"), part("C", "c")]);
    let p = profile_to_bind(None, Some(file), None);
    assert_eq!((p.version, p.parts.len()), (1, 2));
    assert!(p.model_binding.scene_asset_path.is_none());
    let p = profile_to_bind(None, None, Some("y.glb".to_string()));
    assert_eq!((p.version, p.parts.len(), p.shared.scalar_override_bits.len()), (1, 0, 0));
    assert_eq!(p.model_binding.scene_asset_path.as_deref(), Some("y.glb"));
}
