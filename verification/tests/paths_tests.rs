use bevy_ta::paths::{
    absolute_path, capture_directory, capture_file_name, character_render_profile_path,
    next_capture_path, profile_file_name_for_stem, source_path_of, DEFAULT_CAPTURE_DIR,
};

#[test]
fn profile_path_sits_next_to_the_model_under_assets() {
    assert_eq!(
        character_render_profile_path("private/hero/hero.glb#Scene0"),
        "assets/private/hero/hero.toon-model.ron"
    );
    assert_eq!(
        character_render_profile_path("models/girl.gltf"),
        "assets/models/girl.toon-model.ron"
    );
}

#[test]
fn profile_path_falls_back_to_character_without_a_stem() {
    assert_eq!(character_render_profile_path(""), "assets/character.toon-model.ron");
    assert_eq!(character_render_profile_path("#Scene0"), "assets/character.toon-model.ron");
}

#[test]
fn label_does_not_change_the_profile_path() {
    let with_label = character_render_profile_path("chars/a.glb#Scene1");
    let without = character_render_profile_path("chars/a.glb");
    assert_eq!(with_label, without);
    assert_eq!(source_path_of("chars/a.glb#Scene1#x"), "chars/a.glb");
    assert_eq!(source_path_of(source_path_of("chars/a.glb#Scene1").as_str()), "chars/a.glb");
}

#[test]
fn source_path_keeps_text_without_a_label() {
    assert_eq!(source_path_of("角色/模型.glb"), "角色/模型.glb");
    assert_eq!(source_path_of(""), "");
}

#[test]
fn profile_file_name_uses_stem_or_character() {
    assert_eq!(profile_file_name_for_stem(Some("hero".to_string())), "hero.toon-model.ron");
    assert_eq!(profile_file_name_for_stem(Some(String::new())), "character.toon-model.ron");
    assert_eq!(profile_file_name_for_stem(None), "character.toon-model.ron");
}

#[test]
fn capture_directory_defaults_when_unset_or_empty() {
    assert_eq!(capture_directory(None), DEFAULT_CAPTURE_DIR);
    assert_eq!(capture_directory(Some(String::new())), "assets/private/captures");
    assert_eq!(capture_directory(Some("/tmp/shots".to_string())), "/tmp/shots");
}

#[test]
fn capture_file_name_has_timestamp_and_counter() {
    assert_eq!(capture_file_name(1_700_000_000, 3), "capture-1700000000-3.png");
    assert_eq!(capture_file_name(0, 0), "capture-0-0.png");
    assert_eq!(
        capture_file_name(u64::MAX, u32::MAX),
        format!("capture-{}-{}.png", u64::MAX, u32::MAX)
    );
}

#[test]
fn next_capture_path_joins_directory_and_name() {
    assert_eq!(
        next_capture_path("assets/private/captures", Some(42), 7),
        "assets/private/captures/capture-42-7.png"
    );
    assert_eq!(next_capture_path("shots", None, 1), "shots/capture-0-1.png");
}

#[test]
fn absolute_path_keeps_absolute_and_joins_relative() {
    let cwd: Result<String, String> = Ok("/work".to_string());
    assert_eq!(absolute_path("/etc/x.ron", &cwd), Ok("/etc/x.ron".to_string()));
    assert_eq!(absolute_path("a/b.ron", &cwd), Ok("/work/a/b.ron".to_string()));
}

#[test]
fn absolute_path_reports_missing_working_directory() {
    let cwd: Result<String, String> = Err("denied".to_string());
    assert_eq!(
        absolute_path("a/b.ron", &cwd),
        Err("Failed to get current directory: denied".to_string())
    );
    assert_eq!(absolute_path("/abs", &cwd), Ok("/abs".to_string()));
}
