use bevy_ta::debug_camera::{
    capture_path, cameras_to_delete, debug_camera_entity_name, debug_camera_matches,
    debug_camera_size, dimension_or_default, first_matching_camera, names_include,
    new_debug_camera_name, next_debug_camera_name, parse_entity_bits, DebugCameraEntry,
    PendingDebugCameraDelete, DEFAULT_DEBUG_CAMERA_HEIGHT, DEFAULT_DEBUG_CAMERA_ORDER,
    DEFAULT_DEBUG_CAMERA_WIDTH, DELETE_DELAY_FRAMES, GENERATED_NAME_LIMIT,
};

fn cams(list: &[(u64, &str)]) -> Vec<DebugCameraEntry> {
    list.iter().map(|(e, n)| DebugCameraEntry { entity: *e, name: n.to_string() }).collect()
}

fn names(list: &[&str]) -> Vec<String> {
    list.iter().map(|n| n.to_string()).collect()
}

#[test]
fn defaults() {
    assert_eq!((DEFAULT_DEBUG_CAMERA_WIDTH, DEFAULT_DEBUG_CAMERA_HEIGHT), (1024, 1024));
    assert_eq!(DEFAULT_DEBUG_CAMERA_ORDER, -100);
    assert_eq!(DELETE_DELAY_FRAMES, 3);
}

#[test]
fn dimensions_fall_back_on_missing_or_zero() {
    assert_eq!(dimension_or_default(Some(640), 1024), 640);
    assert_eq!(dimension_or_default(Some(0), 1024), 1024);
    assert_eq!(dimension_or_default(None, 800), 800);
    assert_eq!(debug_camera_size(Some(320), None, 1024, 768), (320, 768));
    assert_eq!(debug_camera_size(Some(0), Some(200), 1024, 768), (1024, 200));
}

#[test]
fn camera_match_by_entity_and_name() {
    assert!(debug_camera_matches(3, "a", None, None));
    assert!(debug_camera_matches(3, "a", Some(3), Some("a")));
    assert!(!debug_camera_matches(3, "a", Some(4), Some("a")));
    assert!(!debug_camera_matches(3, "a", None, Some("b")));
}

#[test]
fn entity_bits_are_checked() {
    assert_eq!(parse_entity_bits(0), Err("invalid entity bits: 0".to_string()));
    assert_eq!(parse_entity_bits(4294967296), Err("invalid entity bits: 4294967296".to_string()));
    assert_eq!(parse_entity_bits(17), Ok(17));
}

#[test]
fn first_matching_camera_picks_the_first() {
    let list = cams(&[(1, "a"), (2, "b"), (3, "b")]);
    assert_eq!(first_matching_camera(&list, None, Some("b")), Some(1));
    assert_eq!(first_matching_camera(&list, Some(3), None), Some(2));
    assert_eq!(first_matching_camera(&list, None, None), Some(0));
    assert_eq!(first_matching_camera(&list, Some(9), None), None);
    assert_eq!(first_matching_camera(&cams(&[]), None, None), None);
}

#[test]
fn cameras_to_delete_all_or_first_match() {
    let list = cams(&[(1, "a"), (2, "b"), (3, "b")]);
    assert_eq!(cameras_to_delete(&list, None, None, true), vec![0, 1, 2]);
    assert_eq!(cameras_to_delete(&list, Some(9), None, true), vec![0, 1, 2]);
    assert_eq!(cameras_to_delete(&list, None, Some("b"), false), vec![1]);
    assert_eq!(cameras_to_delete(&list, None, Some("z"), false), Vec::<usize>::new());
}

#[test]
fn names_include_checks_membership() {
    let existing = names(&["x", "debug_camera_0"]);
    assert!(names_include(&existing, "x"));
    assert!(!names_include(&existing, "y"));
}

#[test]
fn generated_names_take_the_first_free_index() {
    assert_eq!(next_debug_camera_name(&names(&[])), "debug_camera_0");
    assert_eq!(next_debug_camera_name(&names(&["debug_camera_0", "debug_camera_2"])), "debug_camera_1");
}

#[test]
fn generated_name_falls_back_when_all_taken() {
    let all: Vec<String> = (0..GENERATED_NAME_LIMIT).map(|i| format!("debug_camera_{i}")).collect();
    assert_eq!(next_debug_camera_name(&all), "debug_camera");
}

#[test]
fn requested_names_are_trimmed_and_must_be_new() {
    let existing = names(&["front"]);
    assert_eq!(new_debug_camera_name("  side ", &existing), Ok("side".to_string()));
    assert_eq!(new_debug_camera_name("front", &existing), Err("front".to_string()));
    assert_eq!(new_debug_camera_name("   ", &existing), Ok("debug_camera_0".to_string()));
}

#[test]
fn entity_name_has_prefix() {
    assert_eq!(debug_camera_entity_name("front"), "mcp_debug_camera:front");
}

#[test]
fn capture_paths() {
    let cwd: Result<String, String> = Ok("/w".to_string());
    assert_eq!(capture_path("", "front", &cwd), "assets/private/captures/front.png");
    assert_eq!(capture_path("  /tmp/a.png ", "front", &cwd), "/tmp/a.png");
    assert_eq!(capture_path("shots/a.png", "front", &cwd), "/w/shots/a.png");
    assert_eq!(capture_path("shots/a.png", "front", &Err("no".to_string())), "shots/a.png");
}

#[test]
fn pending_delete_counts_down_frames() {
    let mut pending = PendingDebugCameraDelete::new();
    assert_eq!(pending.frames_remaining, 3);
    assert!(!pending.tick());
    assert!(!pending.tick());
    assert!(!pending.tick());
    assert_eq!(pending.frames_remaining, 0);
    assert!(pending.tick());
    assert!(pending.tick());
}
