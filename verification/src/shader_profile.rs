//! Shader profile handlers by shader key, and which runtime field a material
//! parameter path addresses.
use vstd::prelude::*;
use crate::profile::{
    CHARACTER_FACE_SDF_SHADER_KEY, CHARACTER_HAIR_SHADER_KEY, CHARACTER_SURFACE_SHADER_KEY,
};
use crate::text::str_eq;

verus! {

/// The kind of value a material field takes.
#[derive(Clone, Copy, Debug, PartialEq, Eq, Structural)]
pub enum FieldValueKind {
    /// A finite number.
    F32,
    /// Four finite numbers.
    Vec4,
    /// A boolean, or the number 0 or 1, stored as 0 or 1.
    BoolU32,
    /// A non-negative integer.
    U32,
}

/// A material field that every toon material has, by its field path.
#[derive(Clone, Copy, Debug, PartialEq, Eq, Structural)]
pub enum CommonMaterialField {
    ToonBaseColor,
    ToonShadeThreshold,
    ToonShadeSoftness,
    ToonLitBoost,
    ToonShadowStrength,
    ToonAmbientStrength,
    ToonSpecularEnabled,
    ToonSpecularStrength,
    ToonSpecularThreshold,
    ToonSpecularSoftness,
    ToonRimEnabled,
    ToonRimStrength,
    ToonRimThreshold,
    ToonRimSoftness,
    ToonOutlineEnabled,
    ToonOutlineWidth,
    ToonAlphaCutoff,
    ToonSpecularColor,
    ToonRimColor,
    ToonOutlineColor,
    ScenePrimary,
    ShadingPrimary,
    ShadingSecondary,
}

/// A face-SDF field, which only face-SDF shaders have.
#[derive(Clone, Copy, Debug, PartialEq, Eq, Structural)]
pub enum FaceSdfField {
    Enabled,
    UseTexture,
    UvMirrorEnabled,
    DebugMode,
    ShadowStrength,
    BlendWeight,
    ThresholdBias,
    Softness,
    HorizontalScale,
    HorizontalBias,
    VerticalInfluence,
    BacklightClamp,
    ProceduralTerminatorSoftness,
    ProceduralVerticalCurve,
}

/// The toon field that a bare toon parameter name, such as `rim_strength`,
/// names.
pub open spec fn toon_field_of(name: Seq<char>) -> Option<CommonMaterialField> {
    if name == "base_color"@ {
        Some(CommonMaterialField::ToonBaseColor)
    } else if name == "shade_threshold"@ {
        Some(CommonMaterialField::ToonShadeThreshold)
    } else if name == "shade_softness"@ {
        Some(CommonMaterialField::ToonShadeSoftness)
    } else if name == "lit_boost"@ {
        Some(CommonMaterialField::ToonLitBoost)
    } else if name == "shadow_strength"@ {
        Some(CommonMaterialField::ToonShadowStrength)
    } else if name == "ambient_strength"@ {
        Some(CommonMaterialField::ToonAmbientStrength)
    } else if name == "specular_enabled"@ {
        Some(CommonMaterialField::ToonSpecularEnabled)
    } else if name == "specular_strength"@ {
        Some(CommonMaterialField::ToonSpecularStrength)
    } else if name == "specular_threshold"@ {
        Some(CommonMaterialField::ToonSpecularThreshold)
    } else if name == "specular_softness"@ {
        Some(CommonMaterialField::ToonSpecularSoftness)
    } else if name == "rim_enabled"@ {
        Some(CommonMaterialField::ToonRimEnabled)
    } else if name == "rim_strength"@ {
        Some(CommonMaterialField::ToonRimStrength)
    } else if name == "rim_threshold"@ {
        Some(CommonMaterialField::ToonRimThreshold)
    } else if name == "rim_softness"@ {
        Some(CommonMaterialField::ToonRimSoftness)
    } else if name == "outline_enabled"@ {
        Some(CommonMaterialField::ToonOutlineEnabled)
    } else if name == "outline_width"@ {
        Some(CommonMaterialField::ToonOutlineWidth)
    } else if name == "alpha_cutoff"@ {
        Some(CommonMaterialField::ToonAlphaCutoff)
    } else if name == "specular_color"@ {
        Some(CommonMaterialField::ToonSpecularColor)
    } else if name == "rim_color"@ {
        Some(CommonMaterialField::ToonRimColor)
    } else if name == "outline_color"@ {
        Some(CommonMaterialField::ToonOutlineColor)
    } else {
        None
    }
}

/// The common field that a field path names: a toon field by its path
/// `toon.<name>` or by its bare name `<name>` alike, or a character-material
/// field by its path.
pub open spec fn common_field_of(field: Seq<char>) -> Option<CommonMaterialField> {
    if field.len() >= 5 && field.take(5) == "toon."@ {
        toon_field_of(field.skip(5))
    } else if field == "character_material.scene_primary"@ {
        Some(CommonMaterialField::ScenePrimary)
    } else if field == "character_material.shading_primary"@ {
        Some(CommonMaterialField::ShadingPrimary)
    } else if field == "character_material.shading_secondary"@ {
        Some(CommonMaterialField::ShadingSecondary)
    } else {
        toon_field_of(field)
    }
}

/// The face-SDF field that a field path names.
pub open spec fn face_sdf_field_of(field: Seq<char>) -> Option<FaceSdfField> {
    if field == "face_sdf.enabled"@ {
        Some(FaceSdfField::Enabled)
    } else if field == "face_sdf.use_texture"@ {
        Some(FaceSdfField::UseTexture)
    } else if field == "face_sdf.uv_mirror_enabled"@ {
        Some(FaceSdfField::UvMirrorEnabled)
    } else if field == "face_sdf.debug_mode"@ {
        Some(FaceSdfField::DebugMode)
    } else if field == "face_sdf.shadow_strength"@ {
        Some(FaceSdfField::ShadowStrength)
    } else if field == "face_sdf.blend_weight"@ {
        Some(FaceSdfField::BlendWeight)
    } else if field == "face_sdf.threshold_bias"@ {
        Some(FaceSdfField::ThresholdBias)
    } else if field == "face_sdf.softness"@ {
        Some(FaceSdfField::Softness)
    } else if field == "face_sdf.horizontal_scale"@ {
        Some(FaceSdfField::HorizontalScale)
    } else if field == "face_sdf.horizontal_bias"@ {
        Some(FaceSdfField::HorizontalBias)
    } else if field == "face_sdf.vertical_influence"@ {
        Some(FaceSdfField::VerticalInfluence)
    } else if field == "face_sdf.backlight_clamp"@ {
        Some(FaceSdfField::BacklightClamp)
    } else if field == "face_sdf.procedural_terminator_softness"@ {
        Some(FaceSdfField::ProceduralTerminatorSoftness)
    } else if field == "face_sdf.procedural_vertical_curve"@ {
        Some(FaceSdfField::ProceduralVerticalCurve)
    } else {
        None
    }
}

/// Looks up a toon field by its bare name, such as `rim_strength`.
pub fn toon_field(name: &str) -> (r: Option<CommonMaterialField>)
    ensures
        r == toon_field_of(name@),
{
    if str_eq(name, "base_color") {
        Some(CommonMaterialField::ToonBaseColor)
    } else if str_eq(name, "shade_threshold") {
        Some(CommonMaterialField::ToonShadeThreshold)
    } else if str_eq(name, "shade_softness") {
        Some(CommonMaterialField::ToonShadeSoftness)
    } else if str_eq(name, "lit_boost") {
        Some(CommonMaterialField::ToonLitBoost)
    } else if str_eq(name, "shadow_strength") {
        Some(CommonMaterialField::ToonShadowStrength)
    } else if str_eq(name, "ambient_strength") {
        Some(CommonMaterialField::ToonAmbientStrength)
    } else if str_eq(name, "specular_enabled") {
        Some(CommonMaterialField::ToonSpecularEnabled)
    } else if str_eq(name, "specular_strength") {
        Some(CommonMaterialField::ToonSpecularStrength)
    } else if str_eq(name, "specular_threshold") {
        Some(CommonMaterialField::ToonSpecularThreshold)
    } else if str_eq(name, "specular_softness") {
        Some(CommonMaterialField::ToonSpecularSoftness)
    } else if str_eq(name, "rim_enabled") {
        Some(CommonMaterialField::ToonRimEnabled)
    } else if str_eq(name, "rim_strength") {
        Some(CommonMaterialField::ToonRimStrength)
    } else if str_eq(name, "rim_threshold") {
        Some(CommonMaterialField::ToonRimThreshold)
    } else if str_eq(name, "rim_softness") {
        Some(CommonMaterialField::ToonRimSoftness)
    } else if str_eq(name, "outline_enabled") {
        Some(CommonMaterialField::ToonOutlineEnabled)
    } else if str_eq(name, "outline_width") {
        Some(CommonMaterialField::ToonOutlineWidth)
    } else if str_eq(name, "alpha_cutoff") {
        Some(CommonMaterialField::ToonAlphaCutoff)
    } else if str_eq(name, "specular_color") {
        Some(CommonMaterialField::ToonSpecularColor)
    } else if str_eq(name, "rim_color") {
        Some(CommonMaterialField::ToonRimColor)
    } else if str_eq(name, "outline_color") {
        Some(CommonMaterialField::ToonOutlineColor)
    } else {
        None
    }
}

/// Looks up a common material field by its path, such as `toon.rim_strength`;
/// a toon field may also be named without its `toon.` prefix.
pub fn common_material_field(field: &str) -> (r: Option<CommonMaterialField>)
    ensures
        r == common_field_of(field@),
{
    let n = field.unicode_len();
    if n >= 5 && str_eq(field.substring_char(0, 5), "toon.") {
        proof {
            assert(field@.subrange(0, 5) =~= field@.take(5));
            assert(field@.subrange(5, n as int) =~= field@.skip(5));
        }
        return toon_field(field.substring_char(5, n));
    }
    proof {
        if field@.len() >= 5 {
            assert(field@.subrange(0, 5) =~= field@.take(5));
        }
    }
    if str_eq(field, "character_material.scene_primary") {
        Some(CommonMaterialField::ScenePrimary)
    } else if str_eq(field, "character_material.shading_primary") {
        Some(CommonMaterialField::ShadingPrimary)
    } else if str_eq(field, "character_material.shading_secondary") {
        Some(CommonMaterialField::ShadingSecondary)
    } else {
        toon_field(field)
    }
}

/// Looks up a face-SDF field by its path, such as `face_sdf.softness`.
pub fn face_sdf_field(field: &str) -> (r: Option<FaceSdfField>)
    ensures
        r == face_sdf_field_of(field@),
{
    if str_eq(field, "face_sdf.enabled") {
        Some(FaceSdfField::Enabled)
    } else if str_eq(field, "face_sdf.use_texture") {
        Some(FaceSdfField::UseTexture)
    } else if str_eq(field, "face_sdf.uv_mirror_enabled") {
        Some(FaceSdfField::UvMirrorEnabled)
    } else if str_eq(field, "face_sdf.debug_mode") {
        Some(FaceSdfField::DebugMode)
    } else if str_eq(field, "face_sdf.shadow_strength") {
        Some(FaceSdfField::ShadowStrength)
    } else if str_eq(field, "face_sdf.blend_weight") {
        Some(FaceSdfField::BlendWeight)
    } else if str_eq(field, "face_sdf.threshold_bias") {
        Some(FaceSdfField::ThresholdBias)
    } else if str_eq(field, "face_sdf.softness") {
        Some(FaceSdfField::Softness)
    } else if str_eq(field, "face_sdf.horizontal_scale") {
        Some(FaceSdfField::HorizontalScale)
    } else if str_eq(field, "face_sdf.horizontal_bias") {
        Some(FaceSdfField::HorizontalBias)
    } else if str_eq(field, "face_sdf.vertical_influence") {
        Some(FaceSdfField::VerticalInfluence)
    } else if str_eq(field, "face_sdf.backlight_clamp") {
        Some(FaceSdfField::BacklightClamp)
    } else if str_eq(field, "face_sdf.procedural_terminator_softness") {
        Some(FaceSdfField::ProceduralTerminatorSoftness)
    } else if str_eq(field, "face_sdf.procedural_vertical_curve") {
        Some(FaceSdfField::ProceduralVerticalCurve)
    } else {
        None
    }
}

impl CommonMaterialField {
    /// The name of the runtime parameter that the field writes.
    pub open spec fn param_name(self) -> Seq<char> {
        match self {
            CommonMaterialField::ToonBaseColor => "base_color"@,
            CommonMaterialField::ToonShadeThreshold => "shade_threshold"@,
            CommonMaterialField::ToonShadeSoftness => "shade_softness"@,
            CommonMaterialField::ToonLitBoost => "lit_boost"@,
            CommonMaterialField::ToonShadowStrength => "shadow_strength"@,
            CommonMaterialField::ToonAmbientStrength => "ambient_strength"@,
            CommonMaterialField::ToonSpecularEnabled => "specular_enabled"@,
            CommonMaterialField::ToonSpecularStrength => "specular_strength"@,
            CommonMaterialField::ToonSpecularThreshold => "specular_threshold"@,
            CommonMaterialField::ToonSpecularSoftness => "specular_softness"@,
            CommonMaterialField::ToonRimEnabled => "rim_enabled"@,
            CommonMaterialField::ToonRimStrength => "rim_strength"@,
            CommonMaterialField::ToonRimThreshold => "rim_threshold"@,
            CommonMaterialField::ToonRimSoftness => "rim_softness"@,
            CommonMaterialField::ToonOutlineEnabled => "outline_enabled"@,
            CommonMaterialField::ToonOutlineWidth => "outline_width"@,
            CommonMaterialField::ToonAlphaCutoff => "alpha_cutoff"@,
            CommonMaterialField::ToonSpecularColor => "specular_color"@,
            CommonMaterialField::ToonRimColor => "rim_color"@,
            CommonMaterialField::ToonOutlineColor => "outline_color"@,
            CommonMaterialField::ScenePrimary => "scene_primary"@,
            CommonMaterialField::ShadingPrimary => "shading_primary"@,
            CommonMaterialField::ShadingSecondary => "shading_secondary"@,
        }
    }

    /// The field writes a toon parameter (else a character-material one).
    pub open spec fn is_toon_param(self) -> bool {
        !(self is ScenePrimary || self is ShadingPrimary || self is ShadingSecondary)
    }

    /// The field's path: `toon.<name>` or `character_material.<name>`.
    pub open spec fn path(self) -> Seq<char> {
        if self.is_toon_param() {
            "toon."@ + self.param_name()
        } else {
            "character_material."@ + self.param_name()
        }
    }
    /// The kind of value the field takes.
    pub open spec fn kind_spec(self) -> FieldValueKind {
        match self {
            CommonMaterialField::ToonBaseColor => FieldValueKind::Vec4,
            CommonMaterialField::ToonShadeThreshold => FieldValueKind::F32,
            CommonMaterialField::ToonShadeSoftness => FieldValueKind::F32,
            CommonMaterialField::ToonLitBoost => FieldValueKind::F32,
            CommonMaterialField::ToonShadowStrength => FieldValueKind::F32,
            CommonMaterialField::ToonAmbientStrength => FieldValueKind::F32,
            CommonMaterialField::ToonSpecularEnabled => FieldValueKind::BoolU32,
            CommonMaterialField::ToonSpecularStrength => FieldValueKind::F32,
            CommonMaterialField::ToonSpecularThreshold => FieldValueKind::F32,
            CommonMaterialField::ToonSpecularSoftness => FieldValueKind::F32,
            CommonMaterialField::ToonRimEnabled => FieldValueKind::BoolU32,
            CommonMaterialField::ToonRimStrength => FieldValueKind::F32,
            CommonMaterialField::ToonRimThreshold => FieldValueKind::F32,
            CommonMaterialField::ToonRimSoftness => FieldValueKind::F32,
            CommonMaterialField::ToonOutlineEnabled => FieldValueKind::BoolU32,
            CommonMaterialField::ToonOutlineWidth => FieldValueKind::F32,
            CommonMaterialField::ToonAlphaCutoff => FieldValueKind::F32,
            CommonMaterialField::ToonSpecularColor => FieldValueKind::Vec4,
            CommonMaterialField::ToonRimColor => FieldValueKind::Vec4,
            CommonMaterialField::ToonOutlineColor => FieldValueKind::Vec4,
            CommonMaterialField::ScenePrimary => FieldValueKind::Vec4,
            CommonMaterialField::ShadingPrimary => FieldValueKind::Vec4,
            CommonMaterialField::ShadingSecondary => FieldValueKind::Vec4,
        }
    }

    pub fn value_kind(&self) -> (k: FieldValueKind)
        ensures
            k == self.kind_spec(),
    {
        match self {
            CommonMaterialField::ToonBaseColor => FieldValueKind::Vec4,
            CommonMaterialField::ToonShadeThreshold => FieldValueKind::F32,
            CommonMaterialField::ToonShadeSoftness => FieldValueKind::F32,
            CommonMaterialField::ToonLitBoost => FieldValueKind::F32,
            CommonMaterialField::ToonShadowStrength => FieldValueKind::F32,
            CommonMaterialField::ToonAmbientStrength => FieldValueKind::F32,
            CommonMaterialField::ToonSpecularEnabled => FieldValueKind::BoolU32,
            CommonMaterialField::ToonSpecularStrength => FieldValueKind::F32,
            CommonMaterialField::ToonSpecularThreshold => FieldValueKind::F32,
            CommonMaterialField::ToonSpecularSoftness => FieldValueKind::F32,
            CommonMaterialField::ToonRimEnabled => FieldValueKind::BoolU32,
            CommonMaterialField::ToonRimStrength => FieldValueKind::F32,
            CommonMaterialField::ToonRimThreshold => FieldValueKind::F32,
            CommonMaterialField::ToonRimSoftness => FieldValueKind::F32,
            CommonMaterialField::ToonOutlineEnabled => FieldValueKind::BoolU32,
            CommonMaterialField::ToonOutlineWidth => FieldValueKind::F32,
            CommonMaterialField::ToonAlphaCutoff => FieldValueKind::F32,
            CommonMaterialField::ToonSpecularColor => FieldValueKind::Vec4,
            CommonMaterialField::ToonRimColor => FieldValueKind::Vec4,
            CommonMaterialField::ToonOutlineColor => FieldValueKind::Vec4,
            CommonMaterialField::ScenePrimary => FieldValueKind::Vec4,
            CommonMaterialField::ShadingPrimary => FieldValueKind::Vec4,
            CommonMaterialField::ShadingSecondary => FieldValueKind::Vec4,
        }
    }
}

impl FaceSdfField {
    /// The name of the face-SDF parameter that the field writes.
    pub open spec fn param_name(self) -> Seq<char> {
        match self {
            FaceSdfField::Enabled => "enabled"@,
            FaceSdfField::UseTexture => "use_texture"@,
            FaceSdfField::UvMirrorEnabled => "uv_mirror_enabled"@,
            FaceSdfField::DebugMode => "debug_mode"@,
            FaceSdfField::ShadowStrength => "shadow_strength"@,
            FaceSdfField::BlendWeight => "blend_weight"@,
            FaceSdfField::ThresholdBias => "threshold_bias"@,
            FaceSdfField::Softness => "softness"@,
            FaceSdfField::HorizontalScale => "horizontal_scale"@,
            FaceSdfField::HorizontalBias => "horizontal_bias"@,
            FaceSdfField::VerticalInfluence => "vertical_influence"@,
            FaceSdfField::BacklightClamp => "backlight_clamp"@,
            FaceSdfField::ProceduralTerminatorSoftness => "procedural_terminator_softness"@,
            FaceSdfField::ProceduralVerticalCurve => "procedural_vertical_curve"@,
        }
    }

    /// The field's path: `face_sdf.<name>`.
    pub open spec fn path(self) -> Seq<char> {
        "face_sdf."@ + self.param_name()
    }
    /// The kind of value the field takes.
    pub open spec fn kind_spec(self) -> FieldValueKind {
        match self {
            FaceSdfField::Enabled => FieldValueKind::BoolU32,
            FaceSdfField::UseTexture => FieldValueKind::BoolU32,
            FaceSdfField::UvMirrorEnabled => FieldValueKind::BoolU32,
            FaceSdfField::DebugMode => FieldValueKind::U32,
            FaceSdfField::ShadowStrength => FieldValueKind::F32,
            FaceSdfField::BlendWeight => FieldValueKind::F32,
            FaceSdfField::ThresholdBias => FieldValueKind::F32,
            FaceSdfField::Softness => FieldValueKind::F32,
            FaceSdfField::HorizontalScale => FieldValueKind::F32,
            FaceSdfField::HorizontalBias => FieldValueKind::F32,
            FaceSdfField::VerticalInfluence => FieldValueKind::F32,
            FaceSdfField::BacklightClamp => FieldValueKind::F32,
            FaceSdfField::ProceduralTerminatorSoftness => FieldValueKind::F32,
            FaceSdfField::ProceduralVerticalCurve => FieldValueKind::F32,
        }
    }

    pub fn value_kind(&self) -> (k: FieldValueKind)
        ensures
            k == self.kind_spec(),
    {
        match self {
            FaceSdfField::Enabled => FieldValueKind::BoolU32,
            FaceSdfField::UseTexture => FieldValueKind::BoolU32,
            FaceSdfField::UvMirrorEnabled => FieldValueKind::BoolU32,
            FaceSdfField::DebugMode => FieldValueKind::U32,
            FaceSdfField::ShadowStrength => FieldValueKind::F32,
            FaceSdfField::BlendWeight => FieldValueKind::F32,
            FaceSdfField::ThresholdBias => FieldValueKind::F32,
            FaceSdfField::Softness => FieldValueKind::F32,
            FaceSdfField::HorizontalScale => FieldValueKind::F32,
            FaceSdfField::HorizontalBias => FieldValueKind::F32,
            FaceSdfField::VerticalInfluence => FieldValueKind::F32,
            FaceSdfField::BacklightClamp => FieldValueKind::F32,
            FaceSdfField::ProceduralTerminatorSoftness => FieldValueKind::F32,
            FaceSdfField::ProceduralVerticalCurve => FieldValueKind::F32,
        }
    }
}

/// The profile handler of the character materials: which shader key it
/// serves and whether that shader has face-SDF parameters.
pub struct CharacterMaterialProfileHandler {
    pub shader_key: String,
    pub use_face_sdf: bool,
}

impl CharacterMaterialProfileHandler {
    /// The shader-specific field that a field path names for this handler.
    pub open spec fn shader_field_of(&self, field: Seq<char>) -> Option<FaceSdfField> {
        if self.use_face_sdf {
            face_sdf_field_of(field)
        } else {
            None
        }
    }

    /// The shader key this handler serves.
    pub fn shader_key(&self) -> (r: &str)
        ensures
            r@ == self.shader_key@,
    {
        self.shader_key.as_str()
    }

    /// The shader-specific field that `field` names, if this handler has it.
    pub fn shader_field(&self, field: &str) -> (r: Option<FaceSdfField>)
        ensures
            r == self.shader_field_of(field@),
    {
        if self.use_face_sdf {
            face_sdf_field(field)
        } else {
            None
        }
    }
}

/// The registered profile handlers, at most one per shader key.
pub struct ShaderProfileRegistry {
    handlers: Vec<CharacterMaterialProfileHandler>,
}

/// Some handler in `handlers` serves `key`.
pub open spec fn serves(handlers: Seq<CharacterMaterialProfileHandler>, key: Seq<char>) -> bool {
    exists|i: int| 0 <= i < handlers.len() && (#[trigger] handlers[i]).shader_key@ == key
}

/// The handlers by shader key.
pub open spec fn handler_map(handlers: Seq<CharacterMaterialProfileHandler>) -> Map<
    Seq<char>,
    CharacterMaterialProfileHandler,
> {
    Map::new(
        |key: Seq<char>| serves(handlers, key),
        |key: Seq<char>|
            handlers[choose|i: int| 0 <= i < handlers.len() && (#[trigger] handlers[i]).shader_key@ == key],
    )
}

pub open spec fn keys_distinct(handlers: Seq<CharacterMaterialProfileHandler>) -> bool {
    forall|i: int, j: int|
        0 <= i < j < handlers.len() ==> handlers[i].shader_key@ != handlers[j].shader_key@
}

proof fn lemma_handler_map_at(handlers: Seq<CharacterMaterialProfileHandler>, i: int)
    requires
        keys_distinct(handlers),
        0 <= i < handlers.len(),
    ensures
        handler_map(handlers).dom().contains(handlers[i].shader_key@),
        handler_map(handlers)[handlers[i].shader_key@] == handlers[i],
{
    let key = handlers[i].shader_key@;
    assert(serves(handlers, key));
    let c = choose|c: int| 0 <= c < handlers.len() && (#[trigger] handlers[c]).shader_key@ == key;
    if c < i {
        assert(handlers[c].shader_key@ != handlers[i].shader_key@);
    } else if c > i {
        assert(handlers[i].shader_key@ != handlers[c].shader_key@);
    }
}

impl View for ShaderProfileRegistry {
    type V = Map<Seq<char>, CharacterMaterialProfileHandler>;

    closed spec fn view(&self) -> Map<Seq<char>, CharacterMaterialProfileHandler> {
        handler_map(self.handlers@)
    }
}

impl ShaderProfileRegistry {
    #[verifier::type_invariant]
    spec fn well_formed(self) -> bool {
        keys_distinct(self.handlers@)
    }

    /// A registry with no handlers.
    pub fn new() -> (r: Self)
        ensures
            r@ == Map::<Seq<char>, CharacterMaterialProfileHandler>::empty(),
    {
        let r = ShaderProfileRegistry { handlers: Vec::new() };
        assert(r@ =~= Map::<Seq<char>, CharacterMaterialProfileHandler>::empty());
        r
    }

    /// Registers `handler` under its shader key, replacing a handler that
    /// served the same key.
    pub fn register(&mut self, handler: CharacterMaterialProfileHandler)
        ensures
            final(self)@ == old(self)@.insert(handler.shader_key@, handler),
    {
        proof {
            use_type_invariant(&*self);
        }
        let mut handlers: Vec<CharacterMaterialProfileHandler> = Vec::new();
        std::mem::swap(&mut handlers, &mut self.handlers);
        let ghost before = handlers@;
        let n = handlers.len();
        let mut i: usize = 0;
        let mut replaced = false;
        while i < n
            invariant
                n == handlers.len(),
                i <= n,
                handlers@ == before,
                keys_distinct(before),
                forall|j: int| 0 <= j < i ==> (#[trigger] before[j]).shader_key@ != handler.shader_key@,
            ensures
                i <= n,
                handlers@ == before,
                forall|j: int| 0 <= j < i ==> (#[trigger] before[j]).shader_key@ != handler.shader_key@,
                i < n ==> before[i as int].shader_key@ == handler.shader_key@,
            decreases n - i,
        {
            if str_eq(handlers[i].shader_key.as_str(), handler.shader_key.as_str()) {
                break;
            }
            i += 1;
        }
        let ghost key = handler.shader_key@;
        if i < n {
            handlers.set(i, handler);
            proof {
                let after = handlers@;
                assert(keys_distinct(after)) by {
                    assert forall|a: int, b: int| 0 <= a < b < after.len() implies after[a].shader_key@
                        != after[b].shader_key@ by {
                        if a == i {
                            assert(before[i as int].shader_key@ == key);
                        } else if b == i {
                            assert(before[i as int].shader_key@ == key);
                        }
                    }
                }
                assert forall|k: Seq<char>| #[trigger] handler_map(after).dom().contains(k) <==> handler_map(
                    before,
                ).insert(key, handler).dom().contains(k) by {
                    if serves(before, k) {
                        let j = choose|j: int| 0 <= j < before.len() && (#[trigger] before[j]).shader_key@ == k;
                        if j != i {
                            assert(after[j] == before[j]);
                        }
                    }
                    if serves(after, k) {
                        let j = choose|j: int| 0 <= j < after.len() && (#[trigger] after[j]).shader_key@ == k;
                        if j != i {
                            assert(after[j] == before[j]);
                        }
                    }
                    if k == key {
                        assert(after[i as int].shader_key@ == key);
                    }
                }
                assert forall|k: Seq<char>| #[trigger] handler_map(after).dom().contains(k) implies handler_map(
                    after,
                )[k] == handler_map(before).insert(key, handler)[k] by {
                    let j = choose|j: int| 0 <= j < after.len() && (#[trigger] after[j]).shader_key@ == k;
                    lemma_handler_map_at(after, j);
                    if j != i {
                        assert(after[j] == before[j]);
                        lemma_handler_map_at(before, j);
                    }
                }
                assert(handler_map(after) =~= handler_map(before).insert(key, handler));
            }
        } else {
            handlers.push(handler);
            proof {
                let after = handlers@;
                assert(keys_distinct(after)) by {
                    assert forall|a: int, b: int| 0 <= a < b < after.len() implies after[a].shader_key@
                        != after[b].shader_key@ by {
                        if b == n {
                            assert(before[a].shader_key@ != key);
                        }
                    }
                }
                assert forall|k: Seq<char>| #[trigger] handler_map(after).dom().contains(k) <==> handler_map(
                    before,
                ).insert(key, handler).dom().contains(k) by {
                    if serves(before, k) {
                        let j = choose|j: int| 0 <= j < before.len() && (#[trigger] before[j]).shader_key@ == k;
                        assert(after[j] == before[j]);
                    }
                    if serves(after, k) {
                        let j = choose|j: int| 0 <= j < after.len() && (#[trigger] after[j]).shader_key@ == k;
                        if j < n {
                            assert(after[j] == before[j]);
                        }
                    }
                    if k == key {
                        assert(after[n as int] == handler);
                    }
                }
                assert forall|k: Seq<char>| #[trigger] handler_map(after).dom().contains(k) implies handler_map(
                    after,
                )[k] == handler_map(before).insert(key, handler)[k] by {
                    let j = choose|j: int| 0 <= j < after.len() && (#[trigger] after[j]).shader_key@ == k;
                    lemma_handler_map_at(after, j);
                    if j < n {
                        assert(after[j] == before[j]);
                        lemma_handler_map_at(before, j);
                    }
                }
                assert(handler_map(after) =~= handler_map(before).insert(key, handler));
            }
        }
        self.handlers = handlers;
    }

    /// Registers the character material handlers: `character_surface` and
    /// `character_hair` without face-SDF parameters, `character_face_sdf` with them.
    pub fn register_character_handlers(&mut self)
        ensures
            final(self)@.dom() == old(self)@.dom().insert(CHARACTER_SURFACE_SHADER_KEY@).insert(
                CHARACTER_HAIR_SHADER_KEY@,
            ).insert(CHARACTER_FACE_SDF_SHADER_KEY@),
            forall|k: Seq<char>|
                k != CHARACTER_SURFACE_SHADER_KEY@ && k != CHARACTER_HAIR_SHADER_KEY@ && k
                    != CHARACTER_FACE_SDF_SHADER_KEY@ && old(self)@.dom().contains(k) ==> final(self)@[k]
                    == old(self)@[k],
            final(self)@[CHARACTER_SURFACE_SHADER_KEY@].shader_key@ == CHARACTER_SURFACE_SHADER_KEY@,
            !final(self)@[CHARACTER_SURFACE_SHADER_KEY@].use_face_sdf,
            final(self)@[CHARACTER_HAIR_SHADER_KEY@].shader_key@ == CHARACTER_HAIR_SHADER_KEY@,
            !final(self)@[CHARACTER_HAIR_SHADER_KEY@].use_face_sdf,
            final(self)@[CHARACTER_FACE_SDF_SHADER_KEY@].shader_key@ == CHARACTER_FACE_SDF_SHADER_KEY@,
            final(self)@[CHARACTER_FACE_SDF_SHADER_KEY@].use_face_sdf,
    {
        proof {
            reveal_strlit("character_surface");
            reveal_strlit("character_hair");
            reveal_strlit("character_face_sdf");
            assert(CHARACTER_SURFACE_SHADER_KEY@ == "character_surface"@);
            assert(CHARACTER_HAIR_SHADER_KEY@ == "character_hair"@);
            assert(CHARACTER_FACE_SDF_SHADER_KEY@ == "character_face_sdf"@);
            assert(CHARACTER_SURFACE_SHADER_KEY@ != CHARACTER_HAIR_SHADER_KEY@);
            assert(CHARACTER_SURFACE_SHADER_KEY@ != CHARACTER_FACE_SDF_SHADER_KEY@);
            assert(CHARACTER_HAIR_SHADER_KEY@[10] != CHARACTER_FACE_SDF_SHADER_KEY@[10]);
        }
        self.register(
            CharacterMaterialProfileHandler {
                shader_key: CHARACTER_SURFACE_SHADER_KEY.to_owned(),
                use_face_sdf: false,
            },
        );
        self.register(
            CharacterMaterialProfileHandler {
                shader_key: CHARACTER_HAIR_SHADER_KEY.to_owned(),
                use_face_sdf: false,
            },
        );
        self.register(
            CharacterMaterialProfileHandler {
                shader_key: CHARACTER_FACE_SDF_SHADER_KEY.to_owned(),
                use_face_sdf: true,
            },
        );
    }

    /// The handler registered for `shader_key`, if any.
    pub fn get(&self, shader_key: &str) -> (r: Option<&CharacterMaterialProfileHandler>)
        ensures
            match r {
                Some(h) => self@.dom().contains(shader_key@) && *h == self@[shader_key@],
                None => !self@.dom().contains(shader_key@),
            },
    {
        proof {
            use_type_invariant(&*self);
        }
        let n = self.handlers.len();
        let mut i: usize = 0;
        while i < n
            invariant
                n == self.handlers.len(),
                i <= n,
                keys_distinct(self.handlers@),
                forall|j: int| 0 <= j < i ==> (#[trigger] self.handlers@[j]).shader_key@ != shader_key@,
            decreases n - i,
        {
            if str_eq(self.handlers[i].shader_key.as_str(), shader_key) {
                proof {
                    lemma_handler_map_at(self.handlers@, i as int);
                }
                return Some(&self.handlers[i]);
            }
            i += 1;
        }
        None
    }

    /// Which runtime field `field` addresses on a material whose shader key is
    /// `shader_key`: a common field first, then a field of the handler for
    /// that key; any other field is refused with a message.
    pub fn material_param_target(&self, shader_key: &str, field: &str) -> (r: Result<
        MaterialFieldTarget,
        String,
    >)
        ensures
            match field_target(self@, shader_key@, field@) {
                Some(t) => r == Ok::<MaterialFieldTarget, String>(t),
                None => r is Err && r->Err_0@ == unsupported_field_message(field@, shader_key@),
            },
    {
        if let Some(common) = common_material_field(field) {
            return Ok(MaterialFieldTarget::Common(common));
        }
        if let Some(handler) = self.get(shader_key) {
            if let Some(shader_field) = handler.shader_field(field) {
                return Ok(MaterialFieldTarget::FaceSdf(shader_field));
            }
        }
        let mut message = "不支持的材质字段 `".to_owned();
        message.append(field);
        message.append("`，shader_key=`");
        message.append(shader_key);
        message.append("`。请先调用 list_material_params 查看可用参数。");
        Err(message)
    }
}

/// The runtime field that a material parameter path addresses.
#[derive(Clone, Copy, Debug, PartialEq, Eq, Structural)]
pub enum MaterialFieldTarget {
    Common(CommonMaterialField),
    FaceSdf(FaceSdfField),
}

/// The field that `field` addresses under `shader_key` with the handlers in
/// `registry`: common fields take precedence over shader-specific ones.
pub open spec fn field_target(
    registry: Map<Seq<char>, CharacterMaterialProfileHandler>,
    shader_key: Seq<char>,
    field: Seq<char>,
) -> Option<MaterialFieldTarget> {
    match common_field_of(field) {
        Some(f) => Some(MaterialFieldTarget::Common(f)),
        None => if registry.dom().contains(shader_key) {
            match registry[shader_key].shader_field_of(field) {
                Some(g) => Some(MaterialFieldTarget::FaceSdf(g)),
                None => None,
            }
        } else {
            None
        },
    }
}

/// The message for a field that neither the common fields nor the shader's
/// handler has.
pub open spec fn unsupported_field_message(field: Seq<char>, shader_key: Seq<char>) -> Seq<char> {
    "不支持的材质字段 `"@ + field + "`，shader_key=`"@ + shader_key
        + "`。请先调用 list_material_params 查看可用参数。"@
}

/// A JSON parameter value as the remote interface receives it.
#[verifier::external_type_specification]
#[verifier::external_body]
pub struct ExJsonValue(serde_json::Value);

/// What `serde_json::Value::as_bool` gives for `value`: the boolean when the
/// value is one.
pub uninterp spec fn json_bool_of(value: serde_json::Value) -> Option<bool>;

/// What `serde_json::Value::as_u64` gives for `value`: the number when the
/// value is a non-negative integer that fits in `u64`.
pub uninterp spec fn json_u64_of(value: serde_json::Value) -> Option<u64>;

/// Calls `serde_json::Value::as_bool`, whose result depends on the value
/// alone; it is named, not spelled out, since the JSON value is opaque here.
#[verifier::external_body]
fn json_as_bool(value: &serde_json::Value) -> (r: Option<bool>)
    ensures
        r == json_bool_of(*value),
{
    value.as_bool()
}

/// Calls `serde_json::Value::as_u64`, whose result depends on the value
/// alone; it is named, not spelled out, since the JSON value is opaque here.
#[verifier::external_body]
fn json_as_u64(value: &serde_json::Value) -> (r: Option<u64>)
    ensures
        r == json_u64_of(*value),
{
    value.as_u64()
}

/// The message for a value that is neither a boolean nor 0 or 1.
pub open spec fn bool_u32_message() -> Seq<char> {
    "期望布尔值、0 或 1"@
}

/// A switch value from what a JSON value reads as: a boolean gives 1 or 0;
/// otherwise an unsigned integer that is 0 or 1 gives itself.
pub open spec fn bool_u32_spec(as_bool: Option<bool>, as_u64: Option<u64>) -> Option<u32> {
    match as_bool {
        Some(b) => Some(if b {
            1u32
        } else {
            0u32
        }),
        None => match as_u64 {
            Some(n) => if n <= 1 {
                Some(n as u32)
            } else {
                None
            },
            None => None,
        },
    }
}

/// The switch value for what a JSON value reads as boolean and as unsigned
/// integer, or the message for anything else.
pub fn bool_u32_from(as_bool: Option<bool>, as_u64: Option<u64>) -> (r: Result<u32, String>)
    ensures
        match bool_u32_spec(as_bool, as_u64) {
            Some(v) => r == Ok::<u32, String>(v),
            None => r is Err && r->Err_0@ == bool_u32_message(),
        },
{
    match as_bool {
        Some(b) => Ok(if b {
            1
        } else {
            0
        }),
        None => match as_u64 {
            Some(n) => if n <= 1 {
                Ok(n as u32)
            } else {
                Err("期望布尔值、0 或 1".to_owned())
            },
            None => Err("期望布尔值、0 或 1".to_owned()),
        },
    }
}

/// Reads a switch field's value: `true`/`false`, 0 or 1.
pub fn value_bool_u32(value: &serde_json::Value) -> (r: Result<u32, String>)
    ensures
        match bool_u32_spec(json_bool_of(*value), json_u64_of(*value)) {
            Some(v) => r == Ok::<u32, String>(v),
            None => r is Err && r->Err_0@ == bool_u32_message(),
        },
{
    let as_bool = json_as_bool(value);
    let as_u64 = if as_bool.is_some() {
        None
    } else {
        json_as_u64(value)
    };
    bool_u32_from(as_bool, as_u64)
}

/// A bare toon name names exactly the toon field whose parameter has that
/// name.
pub proof fn lemma_toon_names_name_their_field(name: Seq<char>, field: CommonMaterialField)
    ensures
        toon_field_of(name) == Some(field) <==> field.is_toon_param() && name == field.param_name(),
{
    if field.is_toon_param() && name == field.param_name() {
        lemma_toon_name_reaches_field(field);
    }
}

/// Each toon field is reached by the name of its parameter.
proof fn lemma_toon_name_reaches_field(field: CommonMaterialField)
    requires
        field.is_toon_param(),
    ensures
        toon_field_of(field.param_name()) == Some(field),
{
    match field {
        CommonMaterialField::ToonBaseColor => {
            reveal_strlit("base_color");
        },
        CommonMaterialField::ToonShadeThreshold => {
            reveal_strlit("shade_threshold");
            reveal_strlit("base_color");
            assert("shade_threshold"@.len() != "base_color"@.len());
        },
        CommonMaterialField::ToonShadeSoftness => {
            reveal_strlit("shade_softness");
            reveal_strlit("base_color");
            assert("shade_softness"@.len() != "base_color"@.len());
            reveal_strlit("shade_threshold");
            assert("shade_softness"@.len() != "shade_threshold"@.len());
        },
        CommonMaterialField::ToonLitBoost => {
            reveal_strlit("lit_boost");
            reveal_strlit("base_color");
            assert("lit_boost"@.len() != "base_color"@.len());
            reveal_strlit("shade_threshold");
            assert("lit_boost"@.len() != "shade_threshold"@.len());
            reveal_strlit("shade_softness");
            assert("lit_boost"@.len() != "shade_softness"@.len());
        },
        CommonMaterialField::ToonShadowStrength => {
            reveal_strlit("shadow_strength");
            reveal_strlit("base_color");
            assert("shadow_strength"@.len() != "base_color"@.len());
            reveal_strlit("shade_threshold");
            assert("shadow_strength"@[4] != "shade_threshold"@[4]);
            reveal_strlit("shade_softness");
            assert("shadow_strength"@.len() != "shade_softness"@.len());
            reveal_strlit("lit_boost");
            assert("shadow_strength"@.len() != "lit_boost"@.len());
        },
        CommonMaterialField::ToonAmbientStrength => {
            reveal_strlit("ambient_strength");
            reveal_strlit("base_color");
            assert("ambient_strength"@.len() != "base_color"@.len());
            reveal_strlit("shade_threshold");
            assert("ambient_strength"@.len() != "shade_threshold"@.len());
            reveal_strlit("shade_softness");
            assert("ambient_strength"@.len() != "shade_softness"@.len());
            reveal_strlit("lit_boost");
            assert("ambient_strength"@.len() != "lit_boost"@.len());
            reveal_strlit("shadow_strength");
            assert("ambient_strength"@.len() != "shadow_strength"@.len());
        },
        CommonMaterialField::ToonSpecularEnabled => {
            reveal_strlit("specular_enabled");
            reveal_strlit("base_color");
            assert("specular_enabled"@.len() != "base_color"@.len());
            reveal_strlit("shade_threshold");
            assert("specular_enabled"@.len() != "shade_threshold"@.len());
            reveal_strlit("shade_softness");
            assert("specular_enabled"@.len() != "shade_softness"@.len());
            reveal_strlit("lit_boost");
            assert("specular_enabled"@.len() != "lit_boost"@.len());
            reveal_strlit("shadow_strength");
            assert("specular_enabled"@.len() != "shadow_strength"@.len());
            reveal_strlit("ambient_strength");
            assert("specular_enabled"@[0] != "ambient_strength"@[0]);
        },
        CommonMaterialField::ToonSpecularStrength => {
            reveal_strlit("specular_strength");
            reveal_strlit("base_color");
            assert("specular_strength"@.len() != "base_color"@.len());
            reveal_strlit("shade_threshold");
            assert("specular_strength"@.len() != "shade_threshold"@.len());
            reveal_strlit("shade_softness");
            assert("specular_strength"@.len() != "shade_softness"@.len());
            reveal_strlit("lit_boost");
            assert("specular_strength"@.len() != "lit_boost"@.len());
            reveal_strlit("shadow_strength");
            assert("specular_strength"@.len() != "shadow_strength"@.len());
            reveal_strlit("ambient_strength");
            assert("specular_strength"@.len() != "ambient_strength"@.len());
            reveal_strlit("specular_enabled");
            assert("specular_strength"@.len() != "specular_enabled"@.len());
        },
        CommonMaterialField::ToonSpecularThreshold => {
            reveal_strlit("specular_threshold");
            reveal_strlit("base_color");
            assert("specular_threshold"@.len() != "base_color"@.len());
            reveal_strlit("shade_threshold");
            assert("specular_threshold"@.len() != "shade_threshold"@.len());
            reveal_strlit("shade_softness");
            assert("specular_threshold"@.len() != "shade_softness"@.len());
            reveal_strlit("lit_boost");
            assert("specular_threshold"@.len() != "lit_boost"@.len());
            reveal_strlit("shadow_strength");
            assert("specular_threshold"@.len() != "shadow_strength"@.len());
            reveal_strlit("ambient_strength");
            assert("specular_threshold"@.len() != "ambient_strength"@.len());
            reveal_strlit("specular_enabled");
            assert("specular_threshold"@.len() != "specular_enabled"@.len());
            reveal_strlit("specular_strength");
            assert("specular_threshold"@.len() != "specular_strength"@.len());
        },
        CommonMaterialField::ToonSpecularSoftness => {
            reveal_strlit("specular_softness");
            reveal_strlit("base_color");
            assert("specular_softness"@.len() != "base_color"@.len());
            reveal_strlit("shade_threshold");
            assert("specular_softness"@.len() != "shade_threshold"@.len());
            reveal_strlit("shade_softness");
            assert("specular_softness"@.len() != "shade_softness"@.len());
            reveal_strlit("lit_boost");
            assert("specular_softness"@.len() != "lit_boost"@.len());
            reveal_strlit("shadow_strength");
            assert("specular_softness"@.len() != "shadow_strength"@.len());
            reveal_strlit("ambient_strength");
            assert("specular_softness"@.len() != "ambient_strength"@.len());
            reveal_strlit("specular_enabled");
            assert("specular_softness"@.len() != "specular_enabled"@.len());
            reveal_strlit("specular_strength");
            assert("specular_softness"@[10] != "specular_strength"@[10]);
            reveal_strlit("specular_threshold");
            assert("specular_softness"@.len() != "specular_threshold"@.len());
        },
        CommonMaterialField::ToonRimEnabled => {
            reveal_strlit("rim_enabled");
            reveal_strlit("base_color");
            assert("rim_enabled"@.len() != "base_color"@.len());
            reveal_strlit("shade_threshold");
            assert("rim_enabled"@.len() != "shade_threshold"@.len());
            reveal_strlit("shade_softness");
            assert("rim_enabled"@.len() != "shade_softness"@.len());
            reveal_strlit("lit_boost");
            assert("rim_enabled"@.len() != "lit_boost"@.len());
            reveal_strlit("shadow_strength");
            assert("rim_enabled"@.len() != "shadow_strength"@.len());
            reveal_strlit("ambient_strength");
            assert("rim_enabled"@.len() != "ambient_strength"@.len());
            reveal_strlit("specular_enabled");
            assert("rim_enabled"@.len() != "specular_enabled"@.len());
            reveal_strlit("specular_strength");
            assert("rim_enabled"@.len() != "specular_strength"@.len());
            reveal_strlit("specular_threshold");
            assert("rim_enabled"@.len() != "specular_threshold"@.len());
            reveal_strlit("specular_softness");
            assert("rim_enabled"@.len() != "specular_softness"@.len());
        },
        CommonMaterialField::ToonRimStrength => {
            reveal_strlit("rim_strength");
            reveal_strlit("base_color");
            assert("rim_strength"@.len() != "base_color"@.len());
            reveal_strlit("shade_threshold");
            assert("rim_strength"@.len() != "shade_threshold"@.len());
            reveal_strlit("shade_softness");
            assert("rim_strength"@.len() != "shade_softness"@.len());
            reveal_strlit("lit_boost");
            assert("rim_strength"@.len() != "lit_boost"@.len());
            reveal_strlit("shadow_strength");
            assert("rim_strength"@.len() != "shadow_strength"@.len());
            reveal_strlit("ambient_strength");
            assert("rim_strength"@.len() != "ambient_strength"@.len());
            reveal_strlit("specular_enabled");
            assert("rim_strength"@.len() != "specular_enabled"@.len());
            reveal_strlit("specular_strength");
            assert("rim_strength"@.len() != "specular_strength"@.len());
            reveal_strlit("specular_threshold");
            assert("rim_strength"@.len() != "specular_threshold"@.len());
            reveal_strlit("specular_softness");
            assert("rim_strength"@.len() != "specular_softness"@.len());
            reveal_strlit("rim_enabled");
            assert("rim_strength"@.len() != "rim_enabled"@.len());
        },
        CommonMaterialField::ToonRimThreshold => {
            reveal_strlit("rim_threshold");
            reveal_strlit("base_color");
            assert("rim_threshold"@.len() != "base_color"@.len());
            reveal_strlit("shade_threshold");
            assert("rim_threshold"@.len() != "shade_threshold"@.len());
            reveal_strlit("shade_softness");
            assert("rim_threshold"@.len() != "shade_softness"@.len());
            reveal_strlit("lit_boost");
            assert("rim_threshold"@.len() != "lit_boost"@.len());
            reveal_strlit("shadow_strength");
            assert("rim_threshold"@.len() != "shadow_strength"@.len());
            reveal_strlit("ambient_strength");
            assert("rim_threshold"@.len() != "ambient_strength"@.len());
            reveal_strlit("specular_enabled");
            assert("rim_threshold"@.len() != "specular_enabled"@.len());
            reveal_strlit("specular_strength");
            assert("rim_threshold"@.len() != "specular_strength"@.len());
            reveal_strlit("specular_threshold");
            assert("rim_threshold"@.len() != "specular_threshold"@.len());
            reveal_strlit("specular_softness");
            assert("rim_threshold"@.len() != "specular_softness"@.len());
            reveal_strlit("rim_enabled");
            assert("rim_threshold"@.len() != "rim_enabled"@.len());
            reveal_strlit("rim_strength");
            assert("rim_threshold"@.len() != "rim_strength"@.len());
        },
        CommonMaterialField::ToonRimSoftness => {
            reveal_strlit("rim_softness");
            reveal_strlit("base_color");
            assert("rim_softness"@.len() != "base_color"@.len());
            reveal_strlit("shade_threshold");
            assert("rim_softness"@.len() != "shade_threshold"@.len());
            reveal_strlit("shade_softness");
            assert("rim_softness"@.len() != "shade_softness"@.len());
            reveal_strlit("lit_boost");
            assert("rim_softness"@.len() != "lit_boost"@.len());
            reveal_strlit("shadow_strength");
            assert("rim_softness"@.len() != "shadow_strength"@.len());
            reveal_strlit("ambient_strength");
            assert("rim_softness"@.len() != "ambient_strength"@.len());
            reveal_strlit("specular_enabled");
            assert("rim_softness"@.len() != "specular_enabled"@.len());
            reveal_strlit("specular_strength");
            assert("rim_softness"@.len() != "specular_strength"@.len());
            reveal_strlit("specular_threshold");
            assert("rim_softness"@.len() != "specular_threshold"@.len());
            reveal_strlit("specular_softness");
            assert("rim_softness"@.len() != "specular_softness"@.len());
            reveal_strlit("rim_enabled");
            assert("rim_softness"@.len() != "rim_enabled"@.len());
            reveal_strlit("rim_strength");
            assert("rim_softness"@[5] != "rim_strength"@[5]);
            reveal_strlit("rim_threshold");
            assert("rim_softness"@.len() != "rim_threshold"@.len());
        },
        CommonMaterialField::ToonOutlineEnabled => {
            reveal_strlit("outline_enabled");
            reveal_strlit("base_color");
            assert("outline_enabled"@.len() != "base_color"@.len());
            reveal_strlit("shade_threshold");
            assert("outline_enabled"@[0] != "shade_threshold"@[0]);
            reveal_strlit("shade_softness");
            assert("outline_enabled"@.len() != "shade_softness"@.len());
            reveal_strlit("lit_boost");
            assert("outline_enabled"@.len() != "lit_boost"@.len());
            reveal_strlit("shadow_strength");
            assert("outline_enabled"@[0] != "shadow_strength"@[0]);
            reveal_strlit("ambient_strength");
            assert("outline_enabled"@.len() != "ambient_strength"@.len());
            reveal_strlit("specular_enabled");
            assert("outline_enabled"@.len() != "specular_enabled"@.len());
            reveal_strlit("specular_strength");
            assert("outline_enabled"@.len() != "specular_strength"@.len());
            reveal_strlit("specular_threshold");
            assert("outline_enabled"@.len() != "specular_threshold"@.len());
            reveal_strlit("specular_softness");
            assert("outline_enabled"@.len() != "specular_softness"@.len());
            reveal_strlit("rim_enabled");
            assert("outline_enabled"@.len() != "rim_enabled"@.len());
            reveal_strlit("rim_strength");
            assert("outline_enabled"@.len() != "rim_strength"@.len());
            reveal_strlit("rim_threshold");
            assert("outline_enabled"@.len() != "rim_threshold"@.len());
            reveal_strlit("rim_softness");
            assert("outline_enabled"@.len() != "rim_softness"@.len());
        },
        CommonMaterialField::ToonOutlineWidth => {
            reveal_strlit("outline_width");
            reveal_strlit("base_color");
            assert("outline_width"@.len() != "base_color"@.len());
            reveal_strlit("shade_threshold");
            assert("outline_width"@.len() != "shade_threshold"@.len());
            reveal_strlit("shade_softness");
            assert("outline_width"@.len() != "shade_softness"@.len());
            reveal_strlit("lit_boost");
            assert("outline_width"@.len() != "lit_boost"@.len());
            reveal_strlit("shadow_strength");
            assert("outline_width"@.len() != "shadow_strength"@.len());
            reveal_strlit("ambient_strength");
            assert("outline_width"@.len() != "ambient_strength"@.len());
            reveal_strlit("specular_enabled");
            assert("outline_width"@.len() != "specular_enabled"@.len());
            reveal_strlit("specular_strength");
            assert("outline_width"@.len() != "specular_strength"@.len());
            reveal_strlit("specular_threshold");
            assert("outline_width"@.len() != "specular_threshold"@.len());
            reveal_strlit("specular_softness");
            assert("outline_width"@.len() != "specular_softness"@.len());
            reveal_strlit("rim_enabled");
            assert("outline_width"@.len() != "rim_enabled"@.len());
            reveal_strlit("rim_strength");
            assert("outline_width"@.len() != "rim_strength"@.len());
            reveal_strlit("rim_threshold");
            assert("outline_width"@[0] != "rim_threshold"@[0]);
            reveal_strlit("rim_softness");
            assert("outline_width"@.len() != "rim_softness"@.len());
            reveal_strlit("outline_enabled");
            assert("outline_width"@.len() != "outline_enabled"@.len());
        },
        CommonMaterialField::ToonAlphaCutoff => {
            reveal_strlit("alpha_cutoff");
            reveal_strlit("base_color");
            assert("alpha_cutoff"@.len() != "base_color"@.len());
            reveal_strlit("shade_threshold");
            assert("alpha_cutoff"@.len() != "shade_threshold"@.len());
            reveal_strlit("shade_softness");
            assert("alpha_cutoff"@.len() != "shade_softness"@.len());
            reveal_strlit("lit_boost");
            assert("alpha_cutoff"@.len() != "lit_boost"@.len());
            reveal_strlit("shadow_strength");
            assert("alpha_cutoff"@.len() != "shadow_strength"@.len());
            reveal_strlit("ambient_strength");
            assert("alpha_cutoff"@.len() != "ambient_strength"@.len());
            reveal_strlit("specular_enabled");
            assert("alpha_cutoff"@.len() != "specular_enabled"@.len());
            reveal_strlit("specular_strength");
            assert("alpha_cutoff"@.len() != "specular_strength"@.len());
            reveal_strlit("specular_threshold");
            assert("alpha_cutoff"@.len() != "specular_threshold"@.len());
            reveal_strlit("specular_softness");
            assert("alpha_cutoff"@.len() != "specular_softness"@.len());
            reveal_strlit("rim_enabled");
            assert("alpha_cutoff"@.len() != "rim_enabled"@.len());
            reveal_strlit("rim_strength");
            assert("alpha_cutoff"@[0] != "rim_strength"@[0]);
            reveal_strlit("rim_threshold");
            assert("alpha_cutoff"@.len() != "rim_threshold"@.len());
            reveal_strlit("rim_softness");
            assert("alpha_cutoff"@[0] != "rim_softness"@[0]);
            reveal_strlit("outline_enabled");
            assert("alpha_cutoff"@.len() != "outline_enabled"@.len());
            reveal_strlit("outline_width");
            assert("alpha_cutoff"@.len() != "outline_width"@.len());
        },
        CommonMaterialField::ToonSpecularColor => {
            reveal_strlit("specular_color");
            reveal_strlit("base_color");
            assert("specular_color"@.len() != "base_color"@.len());
            reveal_strlit("shade_threshold");
            assert("specular_color"@.len() != "shade_threshold"@.len());
            reveal_strlit("shade_softness");
            assert("specular_color"@[1] != "shade_softness"@[1]);
            reveal_strlit("lit_boost");
            assert("specular_color"@.len() != "lit_boost"@.len());
            reveal_strlit("shadow_strength");
            assert("specular_color"@.len() != "shadow_strength"@.len());
            reveal_strlit("ambient_strength");
            assert("specular_color"@.len() != "ambient_strength"@.len());
            reveal_strlit("specular_enabled");
            assert("specular_color"@.len() != "specular_enabled"@.len());
            reveal_strlit("specular_strength");
            assert("specular_color"@.len() != "specular_strength"@.len());
            reveal_strlit("specular_threshold");
            assert("specular_color"@.len() != "specular_threshold"@.len());
            reveal_strlit("specular_softness");
            assert("specular_color"@.len() != "specular_softness"@.len());
            reveal_strlit("rim_enabled");
            assert("specular_color"@.len() != "rim_enabled"@.len());
            reveal_strlit("rim_strength");
            assert("specular_color"@.len() != "rim_strength"@.len());
            reveal_strlit("rim_threshold");
            assert("specular_color"@.len() != "rim_threshold"@.len());
            reveal_strlit("rim_softness");
            assert("specular_color"@.len() != "rim_softness"@.len());
            reveal_strlit("outline_enabled");
            assert("specular_color"@.len() != "outline_enabled"@.len());
            reveal_strlit("outline_width");
            assert("specular_color"@.len() != "outline_width"@.len());
            reveal_strlit("alpha_cutoff");
            assert("specular_color"@.len() != "alpha_cutoff"@.len());
        },
        CommonMaterialField::ToonRimColor => {
            reveal_strlit("rim_color");
            reveal_strlit("base_color");
            assert("rim_color"@.len() != "base_color"@.len());
            reveal_strlit("shade_threshold");
            assert("rim_color"@.len() != "shade_threshold"@.len());
            reveal_strlit("shade_softness");
            assert("rim_color"@.len() != "shade_softness"@.len());
            reveal_strlit("lit_boost");
            assert("rim_color"@[0] != "lit_boost"@[0]);
            reveal_strlit("shadow_strength");
            assert("rim_color"@.len() != "shadow_strength"@.len());
            reveal_strlit("ambient_strength");
            assert("rim_color"@.len() != "ambient_strength"@.len());
            reveal_strlit("specular_enabled");
            assert("rim_color"@.len() != "specular_enabled"@.len());
            reveal_strlit("specular_strength");
            assert("rim_color"@.len() != "specular_strength"@.len());
            reveal_strlit("specular_threshold");
            assert("rim_color"@.len() != "specular_threshold"@.len());
            reveal_strlit("specular_softness");
            assert("rim_color"@.len() != "specular_softness"@.len());
            reveal_strlit("rim_enabled");
            assert("rim_color"@.len() != "rim_enabled"@.len());
            reveal_strlit("rim_strength");
            assert("rim_color"@.len() != "rim_strength"@.len());
            reveal_strlit("rim_threshold");
            assert("rim_color"@.len() != "rim_threshold"@.len());
            reveal_strlit("rim_softness");
            assert("rim_color"@.len() != "rim_softness"@.len());
            reveal_strlit("outline_enabled");
            assert("rim_color"@.len() != "outline_enabled"@.len());
            reveal_strlit("outline_width");
            assert("rim_color"@.len() != "outline_width"@.len());
            reveal_strlit("alpha_cutoff");
            assert("rim_color"@.len() != "alpha_cutoff"@.len());
            reveal_strlit("specular_color");
            assert("rim_color"@.len() != "specular_color"@.len());
        },
        CommonMaterialField::ToonOutlineColor => {
            reveal_strlit("outline_color");
            reveal_strlit("base_color");
            assert("outline_color"@.len() != "base_color"@.len());
            reveal_strlit("shade_threshold");
            assert("outline_color"@.len() != "shade_threshold"@.len());
            reveal_strlit("shade_softness");
            assert("outline_color"@.len() != "shade_softness"@.len());
            reveal_strlit("lit_boost");
            assert("outline_color"@.len() != "lit_boost"@.len());
            reveal_strlit("shadow_strength");
            assert("outline_color"@.len() != "shadow_strength"@.len());
            reveal_strlit("ambient_strength");
            assert("outline_color"@.len() != "ambient_strength"@.len());
            reveal_strlit("specular_enabled");
            assert("outline_color"@.len() != "specular_enabled"@.len());
            reveal_strlit("specular_strength");
            assert("outline_color"@.len() != "specular_strength"@.len());
            reveal_strlit("specular_threshold");
            assert("outline_color"@.len() != "specular_threshold"@.len());
            reveal_strlit("specular_softness");
            assert("outline_color"@.len() != "specular_softness"@.len());
            reveal_strlit("rim_enabled");
            assert("outline_color"@.len() != "rim_enabled"@.len());
            reveal_strlit("rim_strength");
            assert("outline_color"@.len() != "rim_strength"@.len());
            reveal_strlit("rim_threshold");
            assert("outline_color"@[0] != "rim_threshold"@[0]);
            reveal_strlit("rim_softness");
            assert("outline_color"@.len() != "rim_softness"@.len());
            reveal_strlit("outline_enabled");
            assert("outline_color"@.len() != "outline_enabled"@.len());
            reveal_strlit("outline_width");
            assert("outline_color"@[8] != "outline_width"@[8]);
            reveal_strlit("alpha_cutoff");
            assert("outline_color"@.len() != "alpha_cutoff"@.len());
            reveal_strlit("specular_color");
            assert("outline_color"@.len() != "specular_color"@.len());
            reveal_strlit("rim_color");
            assert("outline_color"@.len() != "rim_color"@.len());
        },
        _ => {},
    }
}

/// Each character-material field is reached by its path.
proof fn lemma_character_path_reaches_field(field: CommonMaterialField)
    requires
        !field.is_toon_param(),
    ensures
        common_field_of(field.path()) == Some(field),
{
    reveal_strlit("toon.");
    reveal_strlit("character_material.");
    let path = field.path();
    assert(path.take(5)[0] == path[0]);
    match field {
        CommonMaterialField::ScenePrimary => {
            reveal_strlit("character_material.scene_primary");
            reveal_strlit("scene_primary");
            assert(path =~= "character_material.scene_primary"@);
        },
        CommonMaterialField::ShadingPrimary => {
            reveal_strlit("character_material.shading_primary");
            reveal_strlit("shading_primary");
            assert(path =~= "character_material.shading_primary"@);
            reveal_strlit("character_material.scene_primary");
            assert("character_material.shading_primary"@.len() != "character_material.scene_primary"@.len());
        },
        CommonMaterialField::ShadingSecondary => {
            reveal_strlit("character_material.shading_secondary");
            reveal_strlit("shading_secondary");
            assert(path =~= "character_material.shading_secondary"@);
            reveal_strlit("character_material.scene_primary");
            assert("character_material.shading_secondary"@.len() != "character_material.scene_primary"@.len());
            reveal_strlit("character_material.shading_primary");
            assert("character_material.shading_secondary"@.len() != "character_material.shading_primary"@.len());
        },
        _ => {},
    }
}

/// A field path names exactly one field: `toon.<name>` or the bare `<name>`
/// names the toon field of parameter `<name>`, and `character_material.<name>`
/// the character-material field of parameter `<name>`. So each field is
/// reached by its own path and by nothing else but, for a toon field, its
/// bare name.
pub proof fn lemma_field_paths_name_their_field(path: Seq<char>, field: CommonMaterialField)
    ensures
        common_field_of(path) == Some(field) <==> (path == field.path() || (field.is_toon_param()
            && path == field.param_name())),
{
    if path == field.path() {
        if field.is_toon_param() {
            lemma_bare_toon_names(field.param_name());
            lemma_toon_name_reaches_field(field);
        } else {
            lemma_character_path_reaches_field(field);
        }
    }
    if field.is_toon_param() && path == field.param_name() {
        lemma_toon_name_reaches_field(field);
        lemma_bare_toon_names(path);
    }
    if common_field_of(path) == Some(field) {
        if path.len() >= 5 && path.take(5) == "toon."@ {
            lemma_toon_names_name_their_field(path.skip(5), field);
            assert(path =~= "toon."@ + path.skip(5));
        } else if path == "character_material.scene_primary"@ {
            reveal_strlit("character_material.");
            reveal_strlit("scene_primary");
            reveal_strlit("character_material.scene_primary");
            assert(field.path() =~= path);
        } else if path == "character_material.shading_primary"@ {
            reveal_strlit("character_material.");
            reveal_strlit("shading_primary");
            reveal_strlit("character_material.shading_primary");
            assert(field.path() =~= path);
        } else if path == "character_material.shading_secondary"@ {
            reveal_strlit("character_material.");
            reveal_strlit("shading_secondary");
            reveal_strlit("character_material.shading_secondary");
            assert(field.path() =~= path);
        } else {
            lemma_toon_names_name_their_field(path, field);
        }
    }
}

/// Two field paths that name the same field are the same path, or the path
/// and the bare name of one toon field.
pub proof fn lemma_field_paths_injective(a: Seq<char>, b: Seq<char>)
    requires
        common_field_of(a) is Some,
        common_field_of(a) == common_field_of(b),
    ensures
        a == b || (common_field_of(a)->0.is_toon_param() && (a == "toon."@ + b || b == "toon."@ + a)),
{
    let f = common_field_of(a)->0;
    lemma_field_paths_name_their_field(a, f);
    lemma_field_paths_name_their_field(b, f);
}

/// A face-SDF path names exactly the face-SDF field whose parameter has the
/// name after `face_sdf.`; so the lookup is one-to-one.
pub proof fn lemma_face_sdf_paths_name_their_field(path: Seq<char>, field: FaceSdfField)
    ensures
        face_sdf_field_of(path) == Some(field) <==> path == field.path(),
{
    if path == field.path() {
        lemma_face_sdf_path_reaches_field(field);
    }
    if face_sdf_field_of(path) == Some(field) {
        reveal_strlit("face_sdf.");
        match field {
            FaceSdfField::Enabled => {
                reveal_strlit("enabled");
                reveal_strlit("face_sdf.enabled");
                assert(field.path() =~= "face_sdf.enabled"@);
            },
            FaceSdfField::UseTexture => {
                reveal_strlit("use_texture");
                reveal_strlit("face_sdf.use_texture");
                assert(field.path() =~= "face_sdf.use_texture"@);
            },
            FaceSdfField::UvMirrorEnabled => {
                reveal_strlit("uv_mirror_enabled");
                reveal_strlit("face_sdf.uv_mirror_enabled");
                assert(field.path() =~= "face_sdf.uv_mirror_enabled"@);
            },
            FaceSdfField::DebugMode => {
                reveal_strlit("debug_mode");
                reveal_strlit("face_sdf.debug_mode");
                assert(field.path() =~= "face_sdf.debug_mode"@);
            },
            FaceSdfField::ShadowStrength => {
                reveal_strlit("shadow_strength");
                reveal_strlit("face_sdf.shadow_strength");
                assert(field.path() =~= "face_sdf.shadow_strength"@);
            },
            FaceSdfField::BlendWeight => {
                reveal_strlit("blend_weight");
                reveal_strlit("face_sdf.blend_weight");
                assert(field.path() =~= "face_sdf.blend_weight"@);
            },
            FaceSdfField::ThresholdBias => {
                reveal_strlit("threshold_bias");
                reveal_strlit("face_sdf.threshold_bias");
                assert(field.path() =~= "face_sdf.threshold_bias"@);
            },
            FaceSdfField::Softness => {
                reveal_strlit("softness");
                reveal_strlit("face_sdf.softness");
                assert(field.path() =~= "face_sdf.softness"@);
            },
            FaceSdfField::HorizontalScale => {
                reveal_strlit("horizontal_scale");
                reveal_strlit("face_sdf.horizontal_scale");
                assert(field.path() =~= "face_sdf.horizontal_scale"@);
            },
            FaceSdfField::HorizontalBias => {
                reveal_strlit("horizontal_bias");
                reveal_strlit("face_sdf.horizontal_bias");
                assert(field.path() =~= "face_sdf.horizontal_bias"@);
            },
            FaceSdfField::VerticalInfluence => {
                reveal_strlit("vertical_influence");
                reveal_strlit("face_sdf.vertical_influence");
                assert(field.path() =~= "face_sdf.vertical_influence"@);
            },
            FaceSdfField::BacklightClamp => {
                reveal_strlit("backlight_clamp");
                reveal_strlit("face_sdf.backlight_clamp");
                assert(field.path() =~= "face_sdf.backlight_clamp"@);
            },
            FaceSdfField::ProceduralTerminatorSoftness => {
                reveal_strlit("procedural_terminator_softness");
                reveal_strlit("face_sdf.procedural_terminator_softness");
                assert(field.path() =~= "face_sdf.procedural_terminator_softness"@);
            },
            FaceSdfField::ProceduralVerticalCurve => {
                reveal_strlit("procedural_vertical_curve");
                reveal_strlit("face_sdf.procedural_vertical_curve");
                assert(field.path() =~= "face_sdf.procedural_vertical_curve"@);
            },
        }
    }
}

/// Each face-SDF field is reached by its path.
proof fn lemma_face_sdf_path_reaches_field(field: FaceSdfField)
    ensures
        face_sdf_field_of(field.path()) == Some(field),
{
    reveal_strlit("face_sdf.");
    match field {
        FaceSdfField::Enabled => {
            reveal_strlit("face_sdf.enabled");
            reveal_strlit("enabled");
            assert(field.path() =~= "face_sdf.enabled"@);
        },
        FaceSdfField::UseTexture => {
            reveal_strlit("face_sdf.use_texture");
            reveal_strlit("use_texture");
            assert(field.path() =~= "face_sdf.use_texture"@);
            reveal_strlit("face_sdf.enabled");
            assert("face_sdf.use_texture"@.len() != "face_sdf.enabled"@.len());
        },
        FaceSdfField::UvMirrorEnabled => {
            reveal_strlit("face_sdf.uv_mirror_enabled");
            reveal_strlit("uv_mirror_enabled");
            assert(field.path() =~= "face_sdf.uv_mirror_enabled"@);
            reveal_strlit("face_sdf.enabled");
            assert("face_sdf.uv_mirror_enabled"@.len() != "face_sdf.enabled"@.len());
            reveal_strlit("face_sdf.use_texture");
            assert("face_sdf.uv_mirror_enabled"@.len() != "face_sdf.use_texture"@.len());
        },
        FaceSdfField::DebugMode => {
            reveal_strlit("face_sdf.debug_mode");
            reveal_strlit("debug_mode");
            assert(field.path() =~= "face_sdf.debug_mode"@);
            reveal_strlit("face_sdf.enabled");
            assert("face_sdf.debug_mode"@.len() != "face_sdf.enabled"@.len());
            reveal_strlit("face_sdf.use_texture");
            assert("face_sdf.debug_mode"@.len() != "face_sdf.use_texture"@.len());
            reveal_strlit("face_sdf.uv_mirror_enabled");
            assert("face_sdf.debug_mode"@.len() != "face_sdf.uv_mirror_enabled"@.len());
        },
        FaceSdfField::ShadowStrength => {
            reveal_strlit("face_sdf.shadow_strength");
            reveal_strlit("shadow_strength");
            assert(field.path() =~= "face_sdf.shadow_strength"@);
            reveal_strlit("face_sdf.enabled");
            assert("face_sdf.shadow_strength"@.len() != "face_sdf.enabled"@.len());
            reveal_strlit("face_sdf.use_texture");
            assert("face_sdf.shadow_strength"@.len() != "face_sdf.use_texture"@.len());
            reveal_strlit("face_sdf.uv_mirror_enabled");
            assert("face_sdf.shadow_strength"@.len() != "face_sdf.uv_mirror_enabled"@.len());
            reveal_strlit("face_sdf.debug_mode");
            assert("face_sdf.shadow_strength"@.len() != "face_sdf.debug_mode"@.len());
        },
        FaceSdfField::BlendWeight => {
            reveal_strlit("face_sdf.blend_weight");
            reveal_strlit("blend_weight");
            assert(field.path() =~= "face_sdf.blend_weight"@);
            reveal_strlit("face_sdf.enabled");
            assert("face_sdf.blend_weight"@.len() != "face_sdf.enabled"@.len());
            reveal_strlit("face_sdf.use_texture");
            assert("face_sdf.blend_weight"@.len() != "face_sdf.use_texture"@.len());
            reveal_strlit("face_sdf.uv_mirror_enabled");
            assert("face_sdf.blend_weight"@.len() != "face_sdf.uv_mirror_enabled"@.len());
            reveal_strlit("face_sdf.debug_mode");
            assert("face_sdf.blend_weight"@.len() != "face_sdf.debug_mode"@.len());
            reveal_strlit("face_sdf.shadow_strength");
            assert("face_sdf.blend_weight"@.len() != "face_sdf.shadow_strength"@.len());
        },
        FaceSdfField::ThresholdBias => {
            reveal_strlit("face_sdf.threshold_bias");
            reveal_strlit("threshold_bias");
            assert(field.path() =~= "face_sdf.threshold_bias"@);
            reveal_strlit("face_sdf.enabled");
            assert("face_sdf.threshold_bias"@.len() != "face_sdf.enabled"@.len());
            reveal_strlit("face_sdf.use_texture");
            assert("face_sdf.threshold_bias"@.len() != "face_sdf.use_texture"@.len());
            reveal_strlit("face_sdf.uv_mirror_enabled");
            assert("face_sdf.threshold_bias"@.len() != "face_sdf.uv_mirror_enabled"@.len());
            reveal_strlit("face_sdf.debug_mode");
            assert("face_sdf.threshold_bias"@.len() != "face_sdf.debug_mode"@.len());
            reveal_strlit("face_sdf.shadow_strength");
            assert("face_sdf.threshold_bias"@.len() != "face_sdf.shadow_strength"@.len());
            reveal_strlit("face_sdf.blend_weight");
            assert("face_sdf.threshold_bias"@.len() != "face_sdf.blend_weight"@.len());
        },
        FaceSdfField::Softness => {
            reveal_strlit("face_sdf.softness");
            reveal_strlit("softness");
            assert(field.path() =~= "face_sdf.softness"@);
            reveal_strlit("face_sdf.enabled");
            assert("face_sdf.softness"@.len() != "face_sdf.enabled"@.len());
            reveal_strlit("face_sdf.use_texture");
            assert("face_sdf.softness"@.len() != "face_sdf.use_texture"@.len());
            reveal_strlit("face_sdf.uv_mirror_enabled");
            assert("face_sdf.softness"@.len() != "face_sdf.uv_mirror_enabled"@.len());
            reveal_strlit("face_sdf.debug_mode");
            assert("face_sdf.softness"@.len() != "face_sdf.debug_mode"@.len());
            reveal_strlit("face_sdf.shadow_strength");
            assert("face_sdf.softness"@.len() != "face_sdf.shadow_strength"@.len());
            reveal_strlit("face_sdf.blend_weight");
            assert("face_sdf.softness"@.len() != "face_sdf.blend_weight"@.len());
            reveal_strlit("face_sdf.threshold_bias");
            assert("face_sdf.softness"@.len() != "face_sdf.threshold_bias"@.len());
        },
        FaceSdfField::HorizontalScale => {
            reveal_strlit("face_sdf.horizontal_scale");
            reveal_strlit("horizontal_scale");
            assert(field.path() =~= "face_sdf.horizontal_scale"@);
            reveal_strlit("face_sdf.enabled");
            assert("face_sdf.horizontal_scale"@.len() != "face_sdf.enabled"@.len());
            reveal_strlit("face_sdf.use_texture");
            assert("face_sdf.horizontal_scale"@.len() != "face_sdf.use_texture"@.len());
            reveal_strlit("face_sdf.uv_mirror_enabled");
            assert("face_sdf.horizontal_scale"@.len() != "face_sdf.uv_mirror_enabled"@.len());
            reveal_strlit("face_sdf.debug_mode");
            assert("face_sdf.horizontal_scale"@.len() != "face_sdf.debug_mode"@.len());
            reveal_strlit("face_sdf.shadow_strength");
            assert("face_sdf.horizontal_scale"@.len() != "face_sdf.shadow_strength"@.len());
            reveal_strlit("face_sdf.blend_weight");
            assert("face_sdf.horizontal_scale"@.len() != "face_sdf.blend_weight"@.len());
            reveal_strlit("face_sdf.threshold_bias");
            assert("face_sdf.horizontal_scale"@.len() != "face_sdf.threshold_bias"@.len());
            reveal_strlit("face_sdf.softness");
            assert("face_sdf.horizontal_scale"@.len() != "face_sdf.softness"@.len());
        },
        FaceSdfField::HorizontalBias => {
            reveal_strlit("face_sdf.horizontal_bias");
            reveal_strlit("horizontal_bias");
            assert(field.path() =~= "face_sdf.horizontal_bias"@);
            reveal_strlit("face_sdf.enabled");
            assert("face_sdf.horizontal_bias"@.len() != "face_sdf.enabled"@.len());
            reveal_strlit("face_sdf.use_texture");
            assert("face_sdf.horizontal_bias"@.len() != "face_sdf.use_texture"@.len());
            reveal_strlit("face_sdf.uv_mirror_enabled");
            assert("face_sdf.horizontal_bias"@.len() != "face_sdf.uv_mirror_enabled"@.len());
            reveal_strlit("face_sdf.debug_mode");
            assert("face_sdf.horizontal_bias"@.len() != "face_sdf.debug_mode"@.len());
            reveal_strlit("face_sdf.shadow_strength");
            assert("face_sdf.horizontal_bias"@[9] != "face_sdf.shadow_strength"@[9]);
            reveal_strlit("face_sdf.blend_weight");
            assert("face_sdf.horizontal_bias"@.len() != "face_sdf.blend_weight"@.len());
            reveal_strlit("face_sdf.threshold_bias");
            assert("face_sdf.horizontal_bias"@.len() != "face_sdf.threshold_bias"@.len());
            reveal_strlit("face_sdf.softness");
            assert("face_sdf.horizontal_bias"@.len() != "face_sdf.softness"@.len());
            reveal_strlit("face_sdf.horizontal_scale");
            assert("face_sdf.horizontal_bias"@.len() != "face_sdf.horizontal_scale"@.len());
        },
        FaceSdfField::VerticalInfluence => {
            reveal_strlit("face_sdf.vertical_influence");
            reveal_strlit("vertical_influence");
            assert(field.path() =~= "face_sdf.vertical_influence"@);
            reveal_strlit("face_sdf.enabled");
            assert("face_sdf.vertical_influence"@.len() != "face_sdf.enabled"@.len());
            reveal_strlit("face_sdf.use_texture");
            assert("face_sdf.vertical_influence"@.len() != "face_sdf.use_texture"@.len());
            reveal_strlit("face_sdf.uv_mirror_enabled");
            assert("face_sdf.vertical_influence"@.len() != "face_sdf.uv_mirror_enabled"@.len());
            reveal_strlit("face_sdf.debug_mode");
            assert("face_sdf.vertical_influence"@.len() != "face_sdf.debug_mode"@.len());
            reveal_strlit("face_sdf.shadow_strength");
            assert("face_sdf.vertical_influence"@.len() != "face_sdf.shadow_strength"@.len());
            reveal_strlit("face_sdf.blend_weight");
            assert("face_sdf.vertical_influence"@.len() != "face_sdf.blend_weight"@.len());
            reveal_strlit("face_sdf.threshold_bias");
            assert("face_sdf.vertical_influence"@.len() != "face_sdf.threshold_bias"@.len());
            reveal_strlit("face_sdf.softness");
            assert("face_sdf.vertical_influence"@.len() != "face_sdf.softness"@.len());
            reveal_strlit("face_sdf.horizontal_scale");
            assert("face_sdf.vertical_influence"@.len() != "face_sdf.horizontal_scale"@.len());
            reveal_strlit("face_sdf.horizontal_bias");
            assert("face_sdf.vertical_influence"@.len() != "face_sdf.horizontal_bias"@.len());
        },
        FaceSdfField::BacklightClamp => {
            reveal_strlit("face_sdf.backlight_clamp");
            reveal_strlit("backlight_clamp");
            assert(field.path() =~= "face_sdf.backlight_clamp"@);
            reveal_strlit("face_sdf.enabled");
            assert("face_sdf.backlight_clamp"@.len() != "face_sdf.enabled"@.len());
            reveal_strlit("face_sdf.use_texture");
            assert("face_sdf.backlight_clamp"@.len() != "face_sdf.use_texture"@.len());
            reveal_strlit("face_sdf.uv_mirror_enabled");
            assert("face_sdf.backlight_clamp"@.len() != "face_sdf.uv_mirror_enabled"@.len());
            reveal_strlit("face_sdf.debug_mode");
            assert("face_sdf.backlight_clamp"@.len() != "face_sdf.debug_mode"@.len());
            reveal_strlit("face_sdf.shadow_strength");
            assert("face_sdf.backlight_clamp"@[9] != "face_sdf.shadow_strength"@[9]);
            reveal_strlit("face_sdf.blend_weight");
            assert("face_sdf.backlight_clamp"@.len() != "face_sdf.blend_weight"@.len());
            reveal_strlit("face_sdf.threshold_bias");
            assert("face_sdf.backlight_clamp"@.len() != "face_sdf.threshold_bias"@.len());
            reveal_strlit("face_sdf.softness");
            assert("face_sdf.backlight_clamp"@.len() != "face_sdf.softness"@.len());
            reveal_strlit("face_sdf.horizontal_scale");
            assert("face_sdf.backlight_clamp"@.len() != "face_sdf.horizontal_scale"@.len());
            reveal_strlit("face_sdf.horizontal_bias");
            assert("face_sdf.backlight_clamp"@[9] != "face_sdf.horizontal_bias"@[9]);
            reveal_strlit("face_sdf.vertical_influence");
            assert("face_sdf.backlight_clamp"@.len() != "face_sdf.vertical_influence"@.len());
        },
        FaceSdfField::ProceduralTerminatorSoftness => {
            reveal_strlit("face_sdf.procedural_terminator_softness");
            reveal_strlit("procedural_terminator_softness");
            assert(field.path() =~= "face_sdf.procedural_terminator_softness"@);
            reveal_strlit("face_sdf.enabled");
            assert("face_sdf.procedural_terminator_softness"@.len() != "face_sdf.enabled"@.len());
            reveal_strlit("face_sdf.use_texture");
            assert("face_sdf.procedural_terminator_softness"@.len() != "face_sdf.use_texture"@.len());
            reveal_strlit("face_sdf.uv_mirror_enabled");
            assert("face_sdf.procedural_terminator_softness"@.len() != "face_sdf.uv_mirror_enabled"@.len());
            reveal_strlit("face_sdf.debug_mode");
            assert("face_sdf.procedural_terminator_softness"@.len() != "face_sdf.debug_mode"@.len());
            reveal_strlit("face_sdf.shadow_strength");
            assert("face_sdf.procedural_terminator_softness"@.len() != "face_sdf.shadow_strength"@.len());
            reveal_strlit("face_sdf.blend_weight");
            assert("face_sdf.procedural_terminator_softness"@.len() != "face_sdf.blend_weight"@.len());
            reveal_strlit("face_sdf.threshold_bias");
            assert("face_sdf.procedural_terminator_softness"@.len() != "face_sdf.threshold_bias"@.len());
            reveal_strlit("face_sdf.softness");
            assert("face_sdf.procedural_terminator_softness"@.len() != "face_sdf.softness"@.len());
            reveal_strlit("face_sdf.horizontal_scale");
            assert("face_sdf.procedural_terminator_softness"@.len() != "face_sdf.horizontal_scale"@.len());
            reveal_strlit("face_sdf.horizontal_bias");
            assert("face_sdf.procedural_terminator_softness"@.len() != "face_sdf.horizontal_bias"@.len());
            reveal_strlit("face_sdf.vertical_influence");
            assert("face_sdf.procedural_terminator_softness"@.len() != "face_sdf.vertical_influence"@.len());
            reveal_strlit("face_sdf.backlight_clamp");
            assert("face_sdf.procedural_terminator_softness"@.len() != "face_sdf.backlight_clamp"@.len());
        },
        FaceSdfField::ProceduralVerticalCurve => {
            reveal_strlit("face_sdf.procedural_vertical_curve");
            reveal_strlit("procedural_vertical_curve");
            assert(field.path() =~= "face_sdf.procedural_vertical_curve"@);
            reveal_strlit("face_sdf.enabled");
            assert("face_sdf.procedural_vertical_curve"@.len() != "face_sdf.enabled"@.len());
            reveal_strlit("face_sdf.use_texture");
            assert("face_sdf.procedural_vertical_curve"@.len() != "face_sdf.use_texture"@.len());
            reveal_strlit("face_sdf.uv_mirror_enabled");
            assert("face_sdf.procedural_vertical_curve"@.len() != "face_sdf.uv_mirror_enabled"@.len());
            reveal_strlit("face_sdf.debug_mode");
            assert("face_sdf.procedural_vertical_curve"@.len() != "face_sdf.debug_mode"@.len());
            reveal_strlit("face_sdf.shadow_strength");
            assert("face_sdf.procedural_vertical_curve"@.len() != "face_sdf.shadow_strength"@.len());
            reveal_strlit("face_sdf.blend_weight");
            assert("face_sdf.procedural_vertical_curve"@.len() != "face_sdf.blend_weight"@.len());
            reveal_strlit("face_sdf.threshold_bias");
            assert("face_sdf.procedural_vertical_curve"@.len() != "face_sdf.threshold_bias"@.len());
            reveal_strlit("face_sdf.softness");
            assert("face_sdf.procedural_vertical_curve"@.len() != "face_sdf.softness"@.len());
            reveal_strlit("face_sdf.horizontal_scale");
            assert("face_sdf.procedural_vertical_curve"@.len() != "face_sdf.horizontal_scale"@.len());
            reveal_strlit("face_sdf.horizontal_bias");
            assert("face_sdf.procedural_vertical_curve"@.len() != "face_sdf.horizontal_bias"@.len());
            reveal_strlit("face_sdf.vertical_influence");
            assert("face_sdf.procedural_vertical_curve"@.len() != "face_sdf.vertical_influence"@.len());
            reveal_strlit("face_sdf.backlight_clamp");
            assert("face_sdf.procedural_vertical_curve"@.len() != "face_sdf.backlight_clamp"@.len());
            reveal_strlit("face_sdf.procedural_terminator_softness");
            assert("face_sdf.procedural_vertical_curve"@.len() != "face_sdf.procedural_terminator_softness"@.len());
        },
    }
}

/// A toon field is named alike by its path `toon.<name>` and by its bare
/// `<name>`.
pub proof fn lemma_bare_toon_names(name: Seq<char>)
    ensures
        common_field_of("toon."@ + name) == toon_field_of(name),
        toon_field_of(name) is Some ==> common_field_of(name) == toon_field_of(name),
{
    reveal_strlit("toon.");
    let path = "toon."@ + name;
    assert(path.take(5) =~= "toon."@);
    assert(path.skip(5) =~= name);
    if toon_field_of(name) is Some {
        reveal_strlit("base_color");
        reveal_strlit("shade_threshold");
        reveal_strlit("shade_softness");
        reveal_strlit("lit_boost");
        reveal_strlit("shadow_strength");
        reveal_strlit("ambient_strength");
        reveal_strlit("specular_enabled");
        reveal_strlit("specular_strength");
        reveal_strlit("specular_threshold");
        reveal_strlit("specular_softness");
        reveal_strlit("rim_enabled");
        reveal_strlit("rim_strength");
        reveal_strlit("rim_threshold");
        reveal_strlit("rim_softness");
        reveal_strlit("outline_enabled");
        reveal_strlit("outline_width");
        reveal_strlit("alpha_cutoff");
        reveal_strlit("specular_color");
        reveal_strlit("rim_color");
        reveal_strlit("outline_color");
        reveal_strlit("character_material.scene_primary");
        reveal_strlit("character_material.shading_primary");
        reveal_strlit("character_material.shading_secondary");
        assert(name.len() >= 5 ==> name.take(5)[0] == name[0]);
        assert(name[0] != 't');
        assert(name[0] != 'c');
    }
}

/// After a handler is registered, the registry yields it for its shader key.
pub proof fn lemma_register_then_get(
    before: Map<Seq<char>, CharacterMaterialProfileHandler>,
    handler: CharacterMaterialProfileHandler,
)
    ensures
        before.insert(handler.shader_key@, handler).dom().contains(handler.shader_key@),
        before.insert(handler.shader_key@, handler)[handler.shader_key@] == handler,
{
}

/// Registering a handler leaves every other shader key as it was.
pub proof fn lemma_register_keeps_other_keys(
    before: Map<Seq<char>, CharacterMaterialProfileHandler>,
    handler: CharacterMaterialProfileHandler,
    key: Seq<char>,
)
    requires
        key != handler.shader_key@,
    ensures
        before.insert(handler.shader_key@, handler).dom().contains(key) == before.dom().contains(key),
        before.dom().contains(key) ==> before.insert(handler.shader_key@, handler)[key] == before[key],
{
}

/// Common field paths are recognised whatever the shader key, and a face-SDF
/// field path is refused for a shader whose handler has no face-SDF parameters.
pub proof fn lemma_common_fields_take_precedence(
    registry: Map<Seq<char>, CharacterMaterialProfileHandler>,
    shader_key: Seq<char>,
    field: Seq<char>,
)
    ensures
        common_field_of(field) is Some ==> field_target(registry, shader_key, field) == Some(
            MaterialFieldTarget::Common(common_field_of(field)->0),
        ),
        (common_field_of(field) is None && registry.dom().contains(shader_key)
            && !registry[shader_key].use_face_sdf) ==> field_target(registry, shader_key, field) is None,
{
}

} // verus!
