use bevy_ta::brp_tools::{effective_brp_port, CaptureCounter};
use bevy_ta::gizmos::{
    active_circle, selected_wireframe_plan, toggle_outline_flags, DebugGizmoSettings,
    HighlightedPrimitive, OrbitingLightGizmoState, OrbitingLightRotationCircle,
};

fn hl(entity: u64, has_wireframe: bool, has_color: bool) -> HighlightedPrimitive {
    HighlightedPrimitive { entity, has_wireframe, has_color }
}

fn sorted(mut v: Vec<u64>) -> Vec<u64> {
    v.sort();
    v.dedup();
    v
}

#[test]
fn gizmo_defaults_and_toggle() {
    let mut s = DebugGizmoSettings::default();
    assert!(!s.enabled);
    assert!(s.show_character_bounds && !s.show_character_bounds_axes);
    assert!(s.show_selected_primitives && s.show_debug_cameras && s.show_orbiting_light);
    assert!(!s.shows_selected_primitives());
    s.toggle_enabled();
    assert!(s.enabled);
    assert!(s.shows_selected_primitives());
    s.show_selected_primitives = false;
    assert!(!s.shows_selected_primitives());
    s.toggle_enabled();
    assert!(!s.enabled && s.show_character_bounds);
}

#[test]
fn wireframe_plan_removes_unselected_and_completes_selected() {
    let highlighted = vec![hl(1, true, true), hl(2, true, false), hl(3, true, true)];
    let plan = selected_wireframe_plan(true, &vec![2, 3, 4], &highlighted);
    assert_eq!(sorted(plan.remove), vec![1]);
    assert_eq!(sorted(plan.insert), vec![2, 4]);
}

#[test]
fn wireframe_plan_removes_everything_when_hidden() {
    let highlighted = vec![hl(1, true, true), hl(2, false, false)];
    let plan = selected_wireframe_plan(false, &vec![1, 2], &highlighted);
    assert_eq!(sorted(plan.remove), vec![1, 2]);
    assert!(plan.insert.is_empty());
}

#[test]
fn wireframe_plan_is_empty_when_in_sync() {
    let highlighted = vec![hl(5, true, true)];
    let plan = selected_wireframe_plan(true, &vec![5], &highlighted);
    assert!(plan.remove.is_empty() && plan.insert.is_empty());
}

#[test]
fn outline_toggle_follows_the_first_material() {
    let mut flags = vec![1, 0, 1];
    toggle_outline_flags(&mut flags);
    assert_eq!(flags, vec![0, 0, 0]);
    toggle_outline_flags(&mut flags);
    assert_eq!(flags, vec![1, 1, 1]);
    let mut flags = vec![0, 1];
    toggle_outline_flags(&mut flags);
    assert_eq!(flags, vec![1, 1]);
    let mut none: Vec<u32> = vec![];
    toggle_outline_flags(&mut none);
    assert!(none.is_empty());
}

#[test]
fn active_circle_prefers_yaw() {
    assert_eq!(active_circle(true, true), Some(OrbitingLightRotationCircle::Yaw));
    assert_eq!(active_circle(false, true), Some(OrbitingLightRotationCircle::Pitch));
    assert_eq!(active_circle(false, false), None);
    assert!(OrbitingLightGizmoState::default().active_circle.is_none());
}

#[test]
fn brp_port_from_configuration() {
    assert_eq!(effective_brp_port(None, 15702), 15702);
    assert_eq!(effective_brp_port(Some("8080"), 15702), 8080);
    assert_eq!(effective_brp_port(Some("0"), 15702), 15702);
    assert_eq!(effective_brp_port(Some("abc"), 15702), 15702);
    assert_eq!(effective_brp_port(Some("70000"), 15702), 15702);
    assert_eq!(effective_brp_port(Some("+81"), 15702), 81);
}

#[test]
fn capture_counter_counts_up() {
    let mut c = CaptureCounter::new();
    assert_eq!(c.advance(), 0);
    assert_eq!(c.advance(), 1);
    assert_eq!(c.0, 2);
}

#[test]
fn applying_the_plan_highlights_exactly_the_selection() {
    let highlighted = vec![hl(1, true, true), hl(2, true, false), hl(3, true, true)];
    let selected = vec![2, 3, 4];
    let plan = selected_wireframe_plan(true, &selected, &highlighted);
    let mut after: Vec<u64> = highlighted
        .iter()
        .map(|h| h.entity)
        .filter(|e| !plan.remove.contains(e))
        .collect();
    after.extend(plan.insert.iter().copied());
    assert_eq!(sorted(after), vec![2, 3, 4]);
    let plan = selected_wireframe_plan(false, &selected, &highlighted);
    let after: Vec<u64> = highlighted
        .iter()
        .map(|h| h.entity)
        .filter(|e| !plan.remove.contains(e))
        .chain(plan.insert.iter().copied())
        .collect();
    assert!(after.is_empty());
}
