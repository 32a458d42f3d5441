//! Decisions of the remote-debug (MCP/BRP) interface: entity ids from their
//! bits, which camera or material a request targets, where a toon profile is
//! saved and how a captured part is merged into it.
use vstd::prelude::*;
use crate::paths::{absolute_against, absolute_path, is_absolute_path, render_profile_path, character_render_profile_path};
use crate::profile::{
    CHARACTER_SURFACE_SHADER_KEY, CharacterRenderProfile, ModelBinding, PROFILE_VERSION,
    RenderPartBinding, RenderPartResources, SharedRenderProfile, clone_optional_text, upserted,
    found_part, lemma_upsert_then_find, lemma_upsert_keeps_other_keys,
};
use crate::text::{decimal, decimal_string, str_eq, trim, trimmed};
use crate::toon::ToonMaterialBindingSource;

verus! {

/// JSON-RPC error code for invalid method parameters.
pub const INVALID_PARAMS: i16 = -32602;

/// JSON-RPC error code for an internal error.
pub const INTERNAL_ERROR: i16 = -32603;

/// The method names of the remote interface start with this prefix.
pub const METHOD_PREFIX: &'static str = "bevy_ta/";

/// An error answered to a remote request.
pub struct RemoteError {
    pub code: i16,
    pub message: String,
}

/// An invalid-parameters error with `message`.
pub fn invalid_params(message: String) -> (e: RemoteError)
    ensures
        e.code == INVALID_PARAMS,
        e.message == message,
{
    RemoteError { code: INVALID_PARAMS, message }
}

/// An internal error with `message`.
pub fn internal_error(message: String) -> (e: RemoteError)
    ensures
        e.code == INTERNAL_ERROR,
        e.message == message,
{
    RemoteError { code: INTERNAL_ERROR, message }
}

/// The full name of a remote method of this application.
pub fn method_name(name: &str) -> (r: String)
    ensures
        r@ == METHOD_PREFIX@ + name@,
{
    let mut full = METHOD_PREFIX.to_owned();
    full.append(name);
    full
}

/// Entity bits name an entity when their low 32 bits (the entity index) are
/// not all zero.
pub open spec fn valid_entity_bits(bits: u64) -> bool {
    bits % 0x1_0000_0000 != 0
}

/// Calls `bevy::ecs::entity::Entity::try_from_bits` and gives the entity back
/// as its bits (`Entity::to_bits`). Bevy accepts exactly the bits whose low
/// 32 bits are not zero, and `to_bits` returns the bits it was made from.
#[verifier::external_body]
pub(crate) fn entity_from_bits(bits: u64) -> (r: Option<u64>)
    ensures
        r == (if valid_entity_bits(bits) {
            Some(bits)
        } else {
            None
        }),
{
    match bevy::ecs::entity::Entity::try_from_bits(bits) {
        Some(entity) => Some(entity.to_bits()),
        None => None,
    }
}

/// The entity whose bits a request passes, or an invalid-parameters error.
pub fn parse_entity_bits(bits: u64) -> (r: Result<u64, RemoteError>)
    ensures
        valid_entity_bits(bits) ==> r == Ok::<u64, RemoteError>(bits),
        !valid_entity_bits(bits) ==> r is Err && r->Err_0.code == INVALID_PARAMS
            && r->Err_0.message@ == "Invalid entity bits: "@ + decimal(bits as nat),
{
    match entity_from_bits(bits) {
        Some(entity) => Ok(entity),
        None => {
            let mut message = "Invalid entity bits: ".to_owned();
            message.append(decimal_string(bits).as_str());
            Err(invalid_params(message))
        },
    }
}

/// The optional target entity of a request.
pub fn parse_target_entity(bits: Option<u64>) -> (r: Result<Option<u64>, RemoteError>)
    ensures
        match bits {
            None => r == Ok::<Option<u64>, RemoteError>(None),
            Some(b) => if valid_entity_bits(b) {
                r == Ok::<Option<u64>, RemoteError>(Some(b))
            } else {
                r is Err && r->Err_0.code == INVALID_PARAMS && r->Err_0.message@
                    == "Invalid entity bits: "@ + decimal(b as nat)
            },
        },
{
    match bits {
        None => Ok(None),
        Some(b) => match parse_entity_bits(b) {
            Ok(entity) => Ok(Some(entity)),
            Err(e) => Err(e),
        },
    }
}

pub open spec fn opt_view(s: Option<&str>) -> Option<Seq<char>> {
    match s {
        Some(t) => Some(t@),
        None => None,
    }
}

/// A camera matches a request when it is the requested entity (if one is
/// given) and carries the requested name (if one is given).
pub open spec fn camera_matches_spec(
    entity: u64,
    name: Option<Seq<char>>,
    target_entity: Option<u64>,
    target_name: Option<Seq<char>>,
) -> bool {
    &&& match target_entity {
        Some(t) => t == entity,
        None => true,
    }
    &&& match target_name {
        Some(t) => name == Some(t),
        None => true,
    }
}

/// Whether the camera `entity` named `name` is the one a request targets.
pub fn camera_matches(
    entity: u64,
    name: Option<&str>,
    target_entity: Option<u64>,
    target_name: Option<&str>,
) -> (r: bool)
    ensures
        r == camera_matches_spec(entity, opt_view(name), target_entity, opt_view(target_name)),
{
    let entity_ok = match target_entity {
        Some(t) => t == entity,
        None => true,
    };
    let name_ok = match target_name {
        Some(t) => match name {
            Some(n) => str_eq(n, t),
            None => false,
        },
        None => true,
    };
    entity_ok && name_ok
}

/// The shader key of a material's source; `character_surface` when there is
/// no source or its key is empty.
pub open spec fn normalized_key(source: Option<ToonMaterialBindingSource>) -> Seq<char> {
    match source {
        Some(s) => if s.shader_key@.len() > 0 {
            s.shader_key@
        } else {
            CHARACTER_SURFACE_SHADER_KEY@
        },
        None => CHARACTER_SURFACE_SHADER_KEY@,
    }
}

pub open spec fn opt_source(source: Option<&ToonMaterialBindingSource>) -> Option<
    ToonMaterialBindingSource,
> {
    match source {
        Some(s) => Some(*s),
        None => None,
    }
}

/// The shader key that a material's source gives it.
pub fn normalized_shader_key(source: Option<&ToonMaterialBindingSource>) -> (r: &str)
    ensures
        r@ == normalized_key(opt_source(source)),
{
    match source {
        Some(s) => if s.shader_key.as_str().unicode_len() > 0 {
            s.shader_key.as_str()
        } else {
            CHARACTER_SURFACE_SHADER_KEY
        },
        None => CHARACTER_SURFACE_SHADER_KEY,
    }
}

/// A material matches a request when the request targets something (or asks
/// for all materials) and every target it gives fits the material.
pub open spec fn material_matches_spec(
    entity: u64,
    source: Option<ToonMaterialBindingSource>,
    target_entity: Option<u64>,
    target_node_name: Option<Seq<char>>,
    target_shader_key: Option<Seq<char>>,
    apply_all: bool,
) -> bool {
    let has_target = target_entity is Some || target_node_name is Some || target_shader_key is Some;
    &&& apply_all || has_target
    &&& match target_entity {
        Some(t) => t == entity,
        None => true,
    }
    &&& match target_node_name {
        Some(t) => match source {
            Some(s) => s.node_name@ == t,
            None => false,
        },
        None => true,
    }
    &&& match target_shader_key {
        Some(t) => normalized_key(source) == t,
        None => true,
    }
}

/// Whether the material on `entity`, bound from `source`, is one a request targets.
pub fn material_source_matches(
    entity: u64,
    source: Option<&ToonMaterialBindingSource>,
    target_entity: Option<u64>,
    target_node_name: Option<&str>,
    target_shader_key: Option<&str>,
    apply_all: bool,
) -> (r: bool)
    ensures
        r == material_matches_spec(
            entity,
            opt_source(source),
            target_entity,
            opt_view(target_node_name),
            opt_view(target_shader_key),
            apply_all,
        ),
{
    let has_target = target_entity.is_some() || target_node_name.is_some()
        || target_shader_key.is_some();
    if !(apply_all || has_target) {
        return false;
    }
    let entity_ok = match target_entity {
        Some(t) => t == entity,
        None => true,
    };
    let node_ok = match target_node_name {
        Some(t) => match source {
            Some(s) => str_eq(s.node_name.as_str(), t),
            None => false,
        },
        None => true,
    };
    let key_ok = match target_shader_key {
        Some(t) => str_eq(normalized_shader_key(source), t),
        None => true,
    };
    entity_ok && node_ok && key_ok
}

/// The one value a set-material-parameter event carries.
pub enum EventValue<N, B, V> {
    Number(N),
    Boolean(B),
    Vec4(V),
}

/// The value of an event that passes exactly one of a number, a boolean and a
/// vector; `None` when it passes none or more than one.
pub fn single_event_value<N, B, V>(number: Option<N>, boolean: Option<B>, vec4: Option<V>) -> (r:
    Option<EventValue<N, B, V>>)
    ensures
        match (number, boolean, vec4) {
            (Some(n), None, None) => r == Some(EventValue::<N, B, V>::Number(n)),
            (None, Some(b), None) => r == Some(EventValue::<N, B, V>::Boolean(b)),
            (None, None, Some(v)) => r == Some(EventValue::<N, B, V>::Vec4(v)),
            _ => r is None,
        },
{
    match number {
        Some(n) => match boolean {
            Some(_) => None,
            None => match vec4 {
                Some(_) => None,
                None => Some(EventValue::Number(n)),
            },
        },
        None => match boolean {
            Some(b) => match vec4 {
                Some(_) => None,
                None => Some(EventValue::Boolean(b)),
            },
            None => match vec4 {
                Some(v) => Some(EventValue::Vec4(v)),
                None => None,
            },
        },
    }
}

/// `path` made absolute against the working directory; failing to read the
/// working directory is an internal error.
pub fn absolute_request_path(path: &str, current_dir: &Result<String, String>) -> (r: Result<
    String,
    RemoteError,
>)
    ensures
        is_absolute_path(path@) ==> r is Ok && r->Ok_0@ == path@,
        !is_absolute_path(path@) ==> match current_dir {
            Ok(cwd) => r is Ok && r->Ok_0@ == absolute_against(path@, cwd@),
            Err(e) => r is Err && r->Err_0.code == INTERNAL_ERROR && r->Err_0.message@
                == "Failed to get current directory: "@ + e@,
        },
{
    match absolute_path(path, current_dir) {
        Ok(p) => Ok(p),
        Err(message) => Err(internal_error(message)),
    }
}

pub open spec fn missing_scene_path_message() -> Seq<char> {
    "missing scene_asset_path; pass `path` or use a material loaded from a scene"@
}

/// Where a toon profile is saved: the explicit path (trimmed) when one is
/// given, else the render profile of the material's scene asset; either is
/// made absolute against the working directory.
pub fn toon_profile_save_path(
    explicit_path: Option<&str>,
    source: &ToonMaterialBindingSource,
    current_dir: &Result<String, String>,
) -> (r: Result<String, String>)
    ensures
        ({
            let target = match explicit_path {
                Some(p) => if trimmed(p@).len() > 0 {
                    Some(trimmed(p@))
                } else {
                    None
                },
                None => None,
            };
            let target = match target {
                Some(t) => Some(t),
                None => match source.scene_asset_path {
                    Some(scene) => Some(render_profile_path(scene@)),
                    None => None,
                },
            };
            match target {
                None => r is Err && r->Err_0@ == missing_scene_path_message(),
                Some(t) => if is_absolute_path(t) {
                    r is Ok && r->Ok_0@ == t
                } else {
                    match current_dir {
                        Ok(cwd) => r is Ok && r->Ok_0@ == absolute_against(t, cwd@),
                        Err(e) => r is Err && r->Err_0@ == "Failed to get current directory: "@
                            + e@,
                    }
                },
            }
        }),
{
    if let Some(p) = explicit_path {
        let t = trim(p);
        if t.as_str().unicode_len() > 0 {
            return absolute_path(t.as_str(), current_dir);
        }
    }
    match &source.scene_asset_path {
        None => Err(
            "missing scene_asset_path; pass `path` or use a material loaded from a scene".to_owned(),
        ),
        Some(scene) => {
            let profile_path = character_render_profile_path(scene.as_str());
            absolute_path(profile_path.as_str(), current_dir)
        },
    }
}

/// The message for a shader key that no handler serves.
pub fn unregistered_shader_key_message(shader_key: &str) -> (r: String)
    ensures
        r@ == "未注册的 shader_key: "@ + shader_key@,
{
    let mut message = "未注册的 shader_key: ".to_owned();
    message.append(shader_key);
    message
}

/// The parts of a loaded profile; none without one.
pub open spec fn loaded_parts(loaded: Option<CharacterRenderProfile>) -> Seq<RenderPartBinding> {
    match loaded {
        Some(p) => p.parts@,
        None => Seq::empty(),
    }
}

/// `after` is `base` with the captured part for the source's node upserted:
/// bound to the node, with the source's shader key, the captured parameters
/// and the textures of the node's earlier binding (none without one).
pub open spec fn captured_part(
    base: Seq<RenderPartBinding>,
    source: ToonMaterialBindingSource,
    params: ron::Value,
    part: RenderPartBinding,
    after: Seq<RenderPartBinding>,
) -> bool {
    &&& upserted(base, part, after)
    &&& part.binding_key@ == source.node_name@
    &&& part.shader_key@ == normalized_key(Some(source))
    &&& part.params == params
    &&& exists|earlier: Option<RenderPartBinding>|
        #[trigger] found_part(base, source.node_name@, earlier) && part.resources == match earlier {
            Some(e) => e.resources,
            None => RenderPartResources { base_color_texture: None, face_shadow_texture: None },
        }
}

/// The profile a captured material part is saved into: the loaded profile,
/// or a fresh one for the material's scene asset, at the current version and
/// bound to the material's scene asset when it has one, with the part for
/// the material's node upserted. The part keeps the textures of the node's
/// earlier binding.
pub fn merge_captured_part(
    loaded: Option<CharacterRenderProfile>,
    source: &ToonMaterialBindingSource,
    params: ron::Value,
) -> (r: CharacterRenderProfile)
    ensures
        r.version == PROFILE_VERSION,
        r.model_binding.scene_asset_path == (if source.scene_asset_path is Some {
            source.scene_asset_path
        } else {
            match loaded {
                Some(p) => p.model_binding.scene_asset_path,
                None => None,
            }
        }),
        r.shared.scalar_override_bits@ == (match loaded {
            Some(p) => p.shared.scalar_override_bits@,
            None => Seq::<(String, u32)>::empty(),
        }),
        (match loaded {
            Some(p) => p.shared.well_formed(),
            None => true,
        }) ==> r.shared.well_formed(),
        exists|part: RenderPartBinding|
            #[trigger] captured_part(loaded_parts(loaded), *source, params, part, r.parts@),
{
    let mut profile = match loaded {
        Some(p) => p,
        None => CharacterRenderProfile {
            version: PROFILE_VERSION,
            model_binding: ModelBinding {
                scene_asset_path: clone_optional_text(&source.scene_asset_path),
            },
            shared: SharedRenderProfile { scalar_override_bits: Vec::new() },
            parts: Vec::new(),
        },
    };
    proof {
        assert(profile.parts@ == match loaded {
            Some(p) => p.parts@,
            None => Seq::<RenderPartBinding>::empty(),
        });
    }
    let ghost base = profile.parts@;
    let ghost g_params = params;
    assert(base == loaded_parts(loaded));
    profile.version = PROFILE_VERSION;
    if source.scene_asset_path.is_some() {
        profile.model_binding.scene_asset_path = clone_optional_text(&source.scene_asset_path);
    }
    let earlier = profile.find_part(source.node_name.as_str());
    let ghost earlier_part = match earlier {
        Some(e) => Some(*e),
        None => None,
    };
    let resources = match earlier {
        Some(e) => e.resources.clone(),
        None => RenderPartResources::default(),
    };
    let part = RenderPartBinding {
        binding_key: source.node_name.clone(),
        shader_key: normalized_shader_key(Some(source)).to_owned(),
        resources,
        params,
    };
    let ghost g_part = part;
    profile.upsert_part(part);
    proof {
        assert(found_part(base, source.node_name@, earlier_part));
        assert(upserted(base, g_part, profile.parts@));
        assert(g_part.resources == match earlier_part {
            Some(e) => e.resources,
            None => RenderPartResources { base_color_texture: None, face_shadow_texture: None },
        });
        assert(captured_part(loaded_parts(loaded), *source, g_params, g_part, profile.parts@));
    }
    profile
}

/// After a captured part is merged, looking up the material's node yields
/// the captured part.
pub proof fn lemma_captured_part_found(
    base: Seq<RenderPartBinding>,
    source: ToonMaterialBindingSource,
    params: ron::Value,
    part: RenderPartBinding,
    after: Seq<RenderPartBinding>,
)
    requires
        captured_part(base, source, params, part, after),
    ensures
        found_part(after, source.node_name@, Some(part)),
        part.params == params,
{
    lemma_upsert_then_find(base, part, after);
}

/// Merging a captured part leaves the lookup of every other node's binding
/// as it was.
pub proof fn lemma_captured_part_keeps_other_nodes(
    base: Seq<RenderPartBinding>,
    source: ToonMaterialBindingSource,
    params: ron::Value,
    part: RenderPartBinding,
    after: Seq<RenderPartBinding>,
    key: Seq<char>,
    found: Option<RenderPartBinding>,
)
    requires
        captured_part(base, source, params, part, after),
        key != source.node_name@,
        found_part(base, key, found),
    ensures
        found_part(after, key, found),
{
    lemma_upsert_keeps_other_keys(base, part, after, key, found);
}

/// What a material match means: the request targets something (or asks for
/// all materials), and each target it gives is met exactly: the entity is the
/// requested one, the material's source node has exactly the requested name,
/// and its shader key is the requested one.
pub proof fn lemma_material_match_meaning(
    entity: u64,
    source: Option<ToonMaterialBindingSource>,
    target_entity: Option<u64>,
    target_node_name: Option<Seq<char>>,
    target_shader_key: Option<Seq<char>>,
    apply_all: bool,
)
    ensures
        material_matches_spec(
            entity,
            source,
            target_entity,
            target_node_name,
            target_shader_key,
            apply_all,
        ) <==> {
            &&& apply_all || target_entity is Some || target_node_name is Some
                || target_shader_key is Some
            &&& target_entity is Some ==> target_entity->0 == entity
            &&& target_node_name is Some ==> source is Some && source->0.node_name@
                == target_node_name->0
            &&& target_shader_key is Some ==> normalized_key(source) == target_shader_key->0
        },
{
}

/// A request for node `t` never reaches a material whose node has another
/// name, however the two names share a beginning.
pub proof fn lemma_node_target_is_exact(
    entity: u64,
    source: ToonMaterialBindingSource,
    target_entity: Option<u64>,
    t: Seq<char>,
    target_shader_key: Option<Seq<char>>,
    apply_all: bool,
)
    requires
        source.node_name@ != t,
    ensures
        !material_matches_spec(entity, Some(source), target_entity, Some(t), target_shader_key, apply_all),
{
}

} // verus!
