use bevy_ta::picking::{confirm_click, left_button_orbit_is_blocked, PendingPrimitiveClick};
use bevy_ta::selection::{
    contains_entity, DebugSceneSelection, MaterialPanelEntryRef, MaterialPanelSelectionEntry,
    MaterialSelectionState,
};

fn entry(primitives: &[u64]) -> MaterialPanelSelectionEntry {
    MaterialPanelSelectionEntry { primitive_entities: primitives.to_vec() }
}

#[test]
fn default_selection_is_empty() {
    let s = MaterialSelectionState::default();
    assert_eq!((s.selected_panel_entity, s.selected_primitive_entity), (None, None));
}

#[test]
fn selecting_an_entry_falls_back_to_its_first_primitive() {
    let mut s = MaterialSelectionState::default();
    s.select_panel_entry(10, &entry(&[3, 4]));
    assert_eq!((s.selected_panel_entity, s.selected_primitive_entity), (Some(10), Some(3)));
    s.select_panel_entry(11, &entry(&[]));
    assert_eq!((s.selected_panel_entity, s.selected_primitive_entity), (Some(11), None));
}

#[test]
fn selecting_an_entry_keeps_a_primitive_it_contains() {
    let mut s = MaterialSelectionState::default();
    s.select_primitive(10, 4);
    s.select_panel_entry(10, &entry(&[3, 4]));
    assert_eq!(s.selected_primitive_entity, Some(4));
    s.select_panel_entry(10, &entry(&[3, 4]));
    assert_eq!(s.selected_primitive_entity, Some(4));
    s.select_panel_entry(12, &entry(&[7]));
    assert_eq!(s.selected_primitive_entity, Some(7));
}

#[test]
fn clearing_the_primitive_keeps_the_entry() {
    let mut s = MaterialSelectionState::default();
    s.select_primitive(1, 2);
    s.clear_selected_primitive();
    assert_eq!((s.selected_panel_entity, s.selected_primitive_entity), (Some(1), None));
}

#[test]
fn primary_primitive_and_membership() {
    assert_eq!(entry(&[5, 6]).primary_primitive(), Some(5));
    assert_eq!(entry(&[]).primary_primitive(), None);
    assert!(contains_entity(&vec![1, 2, 3], 2));
    assert!(!contains_entity(&vec![1, 2, 3], 9));
    assert_eq!(MaterialPanelEntryRef(8).0, 8);
}

#[test]
fn debug_scene_selection_set_and_clear() {
    let mut s = DebugSceneSelection::default();
    assert!(s.selected_material_entity.is_none() && s.selected_material_primitives.is_empty());
    s.set_selected_material(5, vec![1, 2]);
    assert_eq!(s.selected_material_entity, Some(5));
    assert_eq!(s.selected_material_primitives, vec![1, 2]);
    s.clear_selected_material();
    assert!(s.selected_material_entity.is_none() && s.selected_material_primitives.is_empty());
}

#[test]
fn press_then_release_is_a_click() {
    let mut click: PendingPrimitiveClick<(f32, f32)> = PendingPrimitiveClick::new();
    assert!(!click.blocks_orbit());
    click.press(Some(((1.0, 2.0), 7, 9)));
    assert!(click.blocks_orbit());
    assert!(left_button_orbit_is_blocked(Some(&click)));
    assert_eq!(click.release(), Some((7, 9)));
    assert!(click.primitive_entity.is_none() && click.press_position.is_none());
}

#[test]
fn dragging_cancels_the_click() {
    let mut click: PendingPrimitiveClick<(f32, f32)> = PendingPrimitiveClick::new();
    click.begin(7, 9, (0.0, 0.0));
    click.mark_dragged();
    assert!(!click.blocks_orbit());
    assert_eq!(click.primitive_entity, Some(7));
    assert_eq!(click.release(), None);
    assert!(!click.drag_started);
}

#[test]
fn press_on_nothing_clears() {
    let mut click: PendingPrimitiveClick<(f32, f32)> = PendingPrimitiveClick::new();
    click.begin(1, 2, (0.0, 0.0));
    click.press(None);
    assert!(click.primitive_entity.is_none() && click.panel_entity.is_none());
    assert_eq!(click.release(), None);
    assert!(!left_button_orbit_is_blocked::<(f32, f32)>(None));
}

#[test]
fn confirm_click_needs_the_same_primitive() {
    assert_eq!(confirm_click(7, 9, Some(7)), Some((9, 7)));
    assert_eq!(confirm_click(7, 9, Some(8)), None);
    assert_eq!(confirm_click(7, 9, None), None);
}
