use bevy_ta::profile::{
    CharacterRenderProfile, ModelBinding, RenderPartBinding, RenderPartResources,
    SharedRenderProfile,
};
use bevy_ta::toon::{
    base_color_texture_request, deserialize_ramp_interpolation, node_binding,
    scene_node_name, serialize_ramp_interpolation, texture_flag, RampInterpolation,
    ToonModelBindingAssetPath,
};

#[test]
fn ramp_interpolation_names_round_trip() {
    for value in [RampInterpolation::Constant, RampInterpolation::Linear] {
        assert_eq!(deserialize_ramp_interpolation(serialize_ramp_interpolation(value)), Ok(value));
    }
    assert_eq!(serialize_ramp_interpolation(RampInterpolation::Linear), "linear");
    assert_eq!(serialize_ramp_interpolation(RampInterpolation::Constant), "constant");
}

#[test]
fn unknown_ramp_interpolation_is_refused() {
    assert_eq!(
        deserialize_ramp_interpolation("smooth"),
        Err("unknown ramp interpolation: smooth".to_string())
    );
    assert!(deserialize_ramp_interpolation("Linear").is_err());
}

#[test]
fn texture_requests_are_trimmed() {
    assert_eq!(base_color_texture_request(Some("  tex/a.png ")), Some("tex/a.png".to_string()));
    assert_eq!(base_color_texture_request(Some("   ")), None);
    assert_eq!(base_color_texture_request(None), None);
    assert_eq!(texture_flag(true), 1);
    assert_eq!(texture_flag(false), 0);
}

#[test]
fn scene_node_names() {
    assert_eq!(scene_node_name(Some("Body".to_string()), 4), "Body");
    assert_eq!(scene_node_name(None, 4), "节点 4");
    assert_eq!(ToonModelBindingAssetPath("a.glb".to_string()).0, "a.glb");
}

#[test]
fn node_binding_reads_the_profile() {
    let profile = CharacterRenderProfile {
        version: 1,
        model_binding: ModelBinding { scene_asset_path: None },
        shared: SharedRenderProfile { scalar_override_bits: vec![] },
        parts: vec![RenderPartBinding {
            binding_key: "Hair".to_string(),
            shader_key: "character_hair".to_string(),
            resources: RenderPartResources::default(),
            params: ron::Value::Unit,
        }],
    };
    let (key, binding) = node_binding(Some(&profile), "Hair");
    assert_eq!(key, "character_hair");
    assert!(binding.is_some());
    let (key, binding) = node_binding(Some(&profile), "Body");
    assert_eq!(key, "character_surface");
    assert!(binding.is_none());
    let (key, binding) = node_binding(None, "Hair");
    assert_eq!(key, "character_surface");
    assert!(binding.is_none());
}
