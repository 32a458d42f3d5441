//! The parts of the toon material that are not numbers: where a material was
//! bound from, how its ramp interpolates, and which base-color texture it loads.
use vstd::prelude::*;
use crate::profile::{CHARACTER_SURFACE_SHADER_KEY, RenderPartBinding, CharacterRenderProfile, found_part};
use crate::text::{decimal, decimal_string, str_eq, trim, trimmed};

verus! {

/// Where a toon material on a scene node came from.
pub struct ToonMaterialBindingSource {
    pub scene_asset_path: Option<String>,
    pub node_name: String,
    pub shader_key: String,
}

/// The scene asset whose render profile a toon model binds to.
pub struct ToonModelBindingAssetPath(pub String);

/// How a color ramp blends between its stops.
#[derive(Clone, Copy, Debug, PartialEq, Eq, Structural)]
pub enum RampInterpolation {
    Constant,
    Linear,
}

/// The name a ramp interpolation is stored under in profile files.
pub open spec fn interpolation_name(value: RampInterpolation) -> Seq<char> {
    match value {
        RampInterpolation::Constant => "constant"@,
        RampInterpolation::Linear => "linear"@,
    }
}

/// The stored name of a ramp interpolation.
pub fn serialize_ramp_interpolation(value: RampInterpolation) -> (r: &'static str)
    ensures
        r@ == interpolation_name(value),
{
    match value {
        RampInterpolation::Constant => "constant",
        RampInterpolation::Linear => "linear",
    }
}

/// The ramp interpolation stored under `name`, if the name is known.
pub open spec fn parsed_interpolation(name: Seq<char>) -> Option<RampInterpolation> {
    if name == "constant"@ {
        Some(RampInterpolation::Constant)
    } else if name == "linear"@ {
        Some(RampInterpolation::Linear)
    } else {
        None
    }
}

/// The ramp interpolation stored under `name`, or the message for an unknown name.
pub fn deserialize_ramp_interpolation(name: &str) -> (r: Result<RampInterpolation, String>)
    ensures
        match parsed_interpolation(name@) {
            Some(v) => r == Ok::<RampInterpolation, String>(v),
            None => r is Err && r->Err_0@ == "unknown ramp interpolation: "@ + name@,
        },
{
    if str_eq(name, "constant") {
        Ok(RampInterpolation::Constant)
    } else if str_eq(name, "linear") {
        Ok(RampInterpolation::Linear)
    } else {
        let mut message = "unknown ramp interpolation: ".to_owned();
        message.append(name);
        Err(message)
    }
}

/// Reading back the stored name of an interpolation gives that interpolation.
pub proof fn lemma_ramp_interpolation_round_trip(value: RampInterpolation)
    ensures
        parsed_interpolation(interpolation_name(value)) == Some(value),
{
    reveal_strlit("constant");
    reveal_strlit("linear");
    assert("constant"@[0] != "linear"@[0]);
}

/// The texture a base-color path asks for: the path without surrounding
/// whitespace, unless nothing is left of it.
pub open spec fn texture_request(path: Option<Seq<char>>) -> Option<Seq<char>> {
    match path {
        Some(p) => if trimmed(p).len() > 0 {
            Some(trimmed(p))
        } else {
            None
        },
        None => None,
    }
}

/// The asset path to load as base-color texture for `path`, if any.
pub fn base_color_texture_request(path: Option<&str>) -> (r: Option<String>)
    ensures
        match r {
            Some(t) => texture_request(
                match path {
                    Some(p) => Some(p@),
                    None => None,
                },
            ) == Some(t@),
            None => texture_request(
                match path {
                    Some(p) => Some(p@),
                    None => None,
                },
            ) is None,
        },
{
    match path {
        Some(p) => {
            let t = trim(p);
            if t.as_str().unicode_len() > 0 {
                Some(t)
            } else {
                None
            }
        },
        None => None,
    }
}

/// The `use_base_color_texture` flag for a material: 1 when it has a texture.
pub fn texture_flag(has_texture: bool) -> (r: u32)
    ensures
        r == (if has_texture {
            1u32
        } else {
            0u32
        }),
{
    if has_texture {
        1
    } else {
        0
    }
}

/// The name a scene node is known by: its own name, else `节点 {index}`.
pub fn scene_node_name(name: Option<String>, index: u32) -> (r: String)
    ensures
        match name {
            Some(n) => r@ == n@,
            None => r@ == "节点 "@ + decimal(index as nat),
        },
{
    match name {
        Some(n) => n,
        None => {
            let mut label = "节点 ".to_owned();
            label.append(decimal_string(index as u64).as_str());
            label
        },
    }
}

/// The shader key a scene node gets when its toon material is created: the
/// key of its binding in the model's profile, else `character_surface`.
pub open spec fn bound_shader_key(binding: Option<RenderPartBinding>) -> Seq<char> {
    match binding {
        Some(b) => b.shader_key@,
        None => CHARACTER_SURFACE_SHADER_KEY@,
    }
}

/// The binding of `node_name` in the model's profile, if the model has a
/// profile, and the shader key the node's material gets.
pub fn node_binding<'a>(profile: Option<&'a CharacterRenderProfile>, node_name: &str) -> (r: (
    String,
    Option<&'a RenderPartBinding>,
))
    ensures
        match profile {
            Some(p) => found_part(
                p.parts@,
                node_name@,
                match r.1 {
                    Some(b) => Some(*b),
                    None => None,
                },
            ),
            None => r.1 is None,
        },
        r.0@ == bound_shader_key(
            match r.1 {
                Some(b) => Some(*b),
                None => None,
            },
        ),
{
    let binding = match profile {
        Some(p) => p.find_part(node_name),
        None => None,
    };
    let shader_key = match binding {
        Some(b) => b.shader_key.clone(),
        None => CHARACTER_SURFACE_SHADER_KEY.to_owned(),
    };
    (shader_key, binding)
}

} // verus!
