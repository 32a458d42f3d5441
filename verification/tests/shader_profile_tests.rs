use bevy_ta::shader_profile::{
    bool_u32_from, common_material_field, face_sdf_field, value_bool_u32,
    CharacterMaterialProfileHandler, CommonMaterialField, FaceSdfField, FieldValueKind,
    MaterialFieldTarget, ShaderProfileRegistry,
};

fn handler(key: &str, face: bool) -> CharacterMaterialProfileHandler {
    CharacterMaterialProfileHandler { shader_key: key.to_string(), use_face_sdf: face }
}

#[test]
fn empty_registry_has_no_handlers() {
    let registry = ShaderProfileRegistry::new();
    assert!(registry.get("character_surface").is_none());
}

#[test]
fn register_then_get_returns_the_handler() {
    let mut registry = ShaderProfileRegistry::new();
    registry.register(handler("a", false));
    registry.register(handler("b", true));
    assert_eq!(registry.get("a").map(|h| h.use_face_sdf), Some(false));
    assert_eq!(registry.get("b").map(|h| h.use_face_sdf), Some(true));
    assert!(registry.get("c").is_none());
}

#[test]
fn register_replaces_same_key_and_keeps_others() {
    let mut registry = ShaderProfileRegistry::new();
    registry.register(handler("a", false));
    registry.register(handler("b", false));
    registry.register(handler("a", true));
    assert_eq!(registry.get("a").map(|h| h.use_face_sdf), Some(true));
    assert_eq!(registry.get("b").map(|h| h.shader_key()), Some("b"));
}

#[test]
fn character_handlers_are_registered() {
    let mut registry = ShaderProfileRegistry::new();
    registry.register_character_handlers();
    assert_eq!(registry.get("character_surface").map(|h| h.use_face_sdf), Some(false));
    assert_eq!(registry.get("character_hair").map(|h| h.use_face_sdf), Some(false));
    assert_eq!(registry.get("character_face_sdf").map(|h| h.use_face_sdf), Some(true));
}

#[test]
fn common_field_paths_are_recognised() {
    assert_eq!(common_material_field("toon.base_color"), Some(CommonMaterialField::ToonBaseColor));
    assert_eq!(common_material_field("toon.rim_color"), Some(CommonMaterialField::ToonRimColor));
    assert_eq!(
        common_material_field("character_material.shading_secondary"),
        Some(CommonMaterialField::ShadingSecondary)
    );
    assert_eq!(common_material_field("toon.unknown"), None);
    assert_eq!(common_material_field("face_sdf.enabled"), None);
}

#[test]
fn field_value_kinds() {
    assert_eq!(CommonMaterialField::ToonBaseColor.value_kind(), FieldValueKind::Vec4);
    assert_eq!(CommonMaterialField::ToonShadeThreshold.value_kind(), FieldValueKind::F32);
    assert_eq!(CommonMaterialField::ToonRimEnabled.value_kind(), FieldValueKind::BoolU32);
    assert_eq!(FaceSdfField::Enabled.value_kind(), FieldValueKind::BoolU32);
    assert_eq!(FaceSdfField::DebugMode.value_kind(), FieldValueKind::U32);
    assert_eq!(FaceSdfField::Softness.value_kind(), FieldValueKind::F32);
}

#[test]
fn face_sdf_field_paths() {
    assert_eq!(face_sdf_field("face_sdf.enabled"), Some(FaceSdfField::Enabled));
    assert_eq!(face_sdf_field("face_sdf.debug_mode"), Some(FaceSdfField::DebugMode));
    assert_eq!(face_sdf_field("toon.base_color"), None);
    assert_eq!(handler("x", false).shader_field("face_sdf.enabled"), None);
    assert_eq!(handler("x", true).shader_field("face_sdf.enabled"), Some(FaceSdfField::Enabled));
}

#[test]
fn material_param_target_prefers_common_fields() {
    let mut registry = ShaderProfileRegistry::new();
    registry.register_character_handlers();
    assert_eq!(
        registry.material_param_target("character_hair", "toon.rim_strength"),
        Ok(MaterialFieldTarget::Common(CommonMaterialField::ToonRimStrength))
    );
    assert_eq!(
        registry.material_param_target("unknown_shader", "toon.rim_strength"),
        Ok(MaterialFieldTarget::Common(CommonMaterialField::ToonRimStrength))
    );
    assert_eq!(
        registry.material_param_target("character_face_sdf", "face_sdf.softness"),
        Ok(MaterialFieldTarget::FaceSdf(FaceSdfField::Softness))
    );
}

#[test]
fn material_param_target_refuses_unknown_fields() {
    let mut registry = ShaderProfileRegistry::new();
    registry.register_character_handlers();
    assert_eq!(
        registry.material_param_target("character_surface", "face_sdf.enabled"),
        Err("不支持的材质字段 `face_sdf.enabled`，shader_key=`character_surface`。请先调用 list_material_params 查看可用参数。".to_string())
    );
    assert_eq!(
        registry.material_param_target("nope", "x"),
        Err("不支持的材质字段 `x`，shader_key=`nope`。请先调用 list_material_params 查看可用参数。".to_string())
    );
}

#[test]
fn bool_u32_from_reads_switch_values() {
    assert_eq!(bool_u32_from(Some(true), None), Ok(1));
    assert_eq!(bool_u32_from(Some(false), Some(7)), Ok(0));
    assert_eq!(bool_u32_from(None, Some(1)), Ok(1));
    assert_eq!(bool_u32_from(None, Some(0)), Ok(0));
    assert_eq!(bool_u32_from(None, Some(2)), Err("期望布尔值、0 或 1".to_string()));
    assert_eq!(bool_u32_from(None, None), Err("期望布尔值、0 或 1".to_string()));
}

#[test]
fn value_bool_u32_reads_json() {
    assert_eq!(value_bool_u32(&serde_json::Value::Bool(true)), Ok(1));
    assert_eq!(value_bool_u32(&serde_json::Value::Bool(false)), Ok(0));
    assert_eq!(value_bool_u32(&serde_json::Value::from(1u64)), Ok(1));
    assert_eq!(value_bool_u32(&serde_json::Value::from(0u64)), Ok(0));
    assert_eq!(value_bool_u32(&serde_json::Value::from(2u64)), Err("期望布尔值、0 或 1".to_string()));
    assert_eq!(value_bool_u32(&serde_json::Value::from(1.0f64)), Err("期望布尔值、0 或 1".to_string()));
    assert_eq!(value_bool_u32(&serde_json::Value::from("true")), Err("期望布尔值、0 或 1".to_string()));
}

#[test]
fn bare_toon_names_address_the_same_fields() {
    assert_eq!(common_material_field("rim_strength"), Some(CommonMaterialField::ToonRimStrength));
    assert_eq!(common_material_field("base_color"), Some(CommonMaterialField::ToonBaseColor));
    assert_eq!(common_material_field("outline_color"), common_material_field("toon.outline_color"));
    assert_eq!(common_material_field("scene_primary"), None);
    assert_eq!(common_material_field("toon."), None);
    assert_eq!(common_material_field("toon.toon.rim_strength"), None);
    let registry = ShaderProfileRegistry::new();
    assert_eq!(
        registry.material_param_target("character_surface", "rim_strength"),
        Ok(MaterialFieldTarget::Common(CommonMaterialField::ToonRimStrength))
    );
}
