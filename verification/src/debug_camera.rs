//! Bookkeeping of the debug cameras that remote requests create, resize,
//! capture from and delete.
use vstd::prelude::*;
use crate::paths::{DEFAULT_CAPTURE_DIR, is_absolute, is_absolute_path, join, joined_path};
use crate::remote::{entity_from_bits, valid_entity_bits};
use crate::text::{decimal, decimal_string, str_eq, trim, trimmed};

verus! {

pub const DEFAULT_DEBUG_CAMERA_WIDTH: u32 = 1024;

pub const DEFAULT_DEBUG_CAMERA_HEIGHT: u32 = 1024;

pub const DEFAULT_DEBUG_CAMERA_ORDER: isize = -100;

/// Frames a deleted debug camera stays inactive before it is removed.
pub const DELETE_DELAY_FRAMES: u8 = 3;

/// How many generated names `debug_camera_{index}` are tried.
pub const GENERATED_NAME_LIMIT: u32 = 1024;

/// A requested dimension, where zero or nothing keeps `fallback`.
pub open spec fn dimension_spec(value: Option<u32>, fallback: u32) -> u32 {
    match value {
        Some(v) => if v > 0 {
            v
        } else {
            fallback
        },
        None => fallback,
    }
}

/// The requested dimension when it is positive, else `fallback`.
pub fn dimension_or_default(value: Option<u32>, fallback: u32) -> (r: u32)
    ensures
        r == dimension_spec(value, fallback),
{
    match value {
        Some(v) => if v > 0 {
            v
        } else {
            fallback
        },
        None => fallback,
    }
}

/// The size a debug camera renders at after a request: each requested
/// positive dimension replaces the current one.
pub fn debug_camera_size(
    requested_width: Option<u32>,
    requested_height: Option<u32>,
    current_width: u32,
    current_height: u32,
) -> (r: (u32, u32))
    ensures
        r.0 == dimension_spec(requested_width, current_width),
        r.1 == dimension_spec(requested_height, current_height),
{
    (
        dimension_or_default(requested_width, current_width),
        dimension_or_default(requested_height, current_height),
    )
}

/// A debug camera as the bookkeeping sees it: its entity and its name.
pub struct DebugCameraEntry {
    pub entity: u64,
    pub name: String,
}

/// A debug camera matches a request when it is the requested entity (if one
/// is given) and has the requested name (if one is given).
pub open spec fn debug_camera_matches_spec(
    entity: u64,
    name: Seq<char>,
    target_entity: Option<u64>,
    target_name: Option<Seq<char>>,
) -> bool {
    &&& match target_entity {
        Some(t) => t == entity,
        None => true,
    }
    &&& match target_name {
        Some(t) => name == t,
        None => true,
    }
}

pub open spec fn opt_view(s: Option<&str>) -> Option<Seq<char>> {
    match s {
        Some(t) => Some(t@),
        None => None,
    }
}

/// Whether the debug camera `entity` named `name` is the one a request targets.
pub fn debug_camera_matches(
    entity: u64,
    name: &str,
    target_entity: Option<u64>,
    target_name: Option<&str>,
) -> (r: bool)
    ensures
        r == debug_camera_matches_spec(entity, name@, target_entity, opt_view(target_name)),
{
    let entity_ok = match target_entity {
        Some(t) => t == entity,
        None => true,
    };
    let name_ok = match target_name {
        Some(t) => str_eq(name, t),
        None => true,
    };
    entity_ok && name_ok
}

/// The entity whose bits a debug-camera request passes, or the message for bits
/// that name no entity.
pub fn parse_entity_bits(bits: u64) -> (r: Result<u64, String>)
    ensures
        valid_entity_bits(bits) ==> r == Ok::<u64, String>(bits),
        !valid_entity_bits(bits) ==> r is Err && r->Err_0@ == "invalid entity bits: "@ + decimal(
            bits as nat,
        ),
{
    match entity_from_bits(bits) {
        Some(entity) => Ok(entity),
        None => {
            let mut message = "invalid entity bits: ".to_owned();
            message.append(decimal_string(bits).as_str());
            Err(message)
        },
    }
}

/// Camera `i` matches the request.
pub open spec fn entry_matches(
    cameras: Seq<DebugCameraEntry>,
    i: int,
    target_entity: Option<u64>,
    target_name: Option<Seq<char>>,
) -> bool {
    debug_camera_matches_spec(cameras[i].entity, cameras[i].name@, target_entity, target_name)
}

/// The first debug camera that a request targets, if any.
pub fn first_matching_camera(
    cameras: &Vec<DebugCameraEntry>,
    target_entity: Option<u64>,
    target_name: Option<&str>,
) -> (r: Option<usize>)
    ensures
        match r {
            Some(i) => i < cameras@.len() && entry_matches(
                cameras@,
                i as int,
                target_entity,
                opt_view(target_name),
            ) && forall|j: int|
                0 <= j < i ==> !entry_matches(cameras@, j, target_entity, opt_view(target_name)),
            None => forall|j: int|
                0 <= j < cameras@.len() ==> !entry_matches(
                    cameras@,
                    j,
                    target_entity,
                    opt_view(target_name),
                ),
        },
{
    let n = cameras.len();
    let mut i: usize = 0;
    while i < n
        invariant
            n == cameras.len(),
            i <= n,
            forall|j: int|
                0 <= j < i ==> !entry_matches(cameras@, j, target_entity, opt_view(target_name)),
        decreases n - i,
    {
        if debug_camera_matches(cameras[i].entity, cameras[i].name.as_str(), target_entity, target_name) {
            return Some(i);
        }
        i += 1;
    }
    None
}

/// The positions `0..n`.
pub open spec fn all_positions(n: nat) -> Seq<usize> {
    Seq::new(n, |i: int| i as usize)
}

/// The debug cameras a delete request removes: all of them with `delete_all`,
/// else the first one it targets.
pub fn cameras_to_delete(
    cameras: &Vec<DebugCameraEntry>,
    target_entity: Option<u64>,
    target_name: Option<&str>,
    delete_all: bool,
) -> (r: Vec<usize>)
    ensures
        delete_all ==> r@ == all_positions(cameras@.len()),
        !delete_all ==> match first_match_of(cameras@, target_entity, opt_view(target_name)) {
            Some(i) => r@ == seq![i as usize],
            None => r@.len() == 0,
        },
{
    let mut chosen: Vec<usize> = Vec::new();
    if delete_all {
        let n = cameras.len();
        let mut i: usize = 0;
        while i < n
            invariant
                n == cameras.len(),
                i <= n,
                chosen@ == all_positions(i as nat),
            decreases n - i,
        {
            chosen.push(i);
            i += 1;
            assert(chosen@ =~= all_positions(i as nat));
        }
    } else {
        match first_matching_camera(cameras, target_entity, target_name) {
            Some(i) => {
                chosen.push(i);
                proof {
                    lemma_first_match_of(cameras@, target_entity, opt_view(target_name), i as int);
                }
            },
            None => {
                proof {
                    lemma_no_match_of(cameras@, target_entity, opt_view(target_name));
                }
            },
        }
    }
    chosen
}

/// The position of the first camera a request targets.
pub open spec fn first_match_of(
    cameras: Seq<DebugCameraEntry>,
    target_entity: Option<u64>,
    target_name: Option<Seq<char>>,
) -> Option<int> {
    if exists|i: int| 0 <= i < cameras.len() && entry_matches(cameras, i, target_entity, target_name) {
        Some(
            choose|i: int|
                0 <= i < cameras.len() && entry_matches(cameras, i, target_entity, target_name)
                    && forall|j: int| 0 <= j < i ==> !entry_matches(cameras, j, target_entity, target_name),
        )
    } else {
        None
    }
}

proof fn lemma_first_match_of(
    cameras: Seq<DebugCameraEntry>,
    target_entity: Option<u64>,
    target_name: Option<Seq<char>>,
    i: int,
)
    requires
        0 <= i < cameras.len(),
        entry_matches(cameras, i, target_entity, target_name),
        forall|j: int| 0 <= j < i ==> !entry_matches(cameras, j, target_entity, target_name),
    ensures
        first_match_of(cameras, target_entity, target_name) == Some(i),
{
    let k = choose|k: int|
        0 <= k < cameras.len() && entry_matches(cameras, k, target_entity, target_name) && forall|
            j: int,
        | 0 <= j < k ==> !entry_matches(cameras, j, target_entity, target_name);
    if k < i {
        assert(!entry_matches(cameras, k, target_entity, target_name));
    } else if k > i {
        assert(!entry_matches(cameras, i, target_entity, target_name));
    }
}

proof fn lemma_no_match_of(
    cameras: Seq<DebugCameraEntry>,
    target_entity: Option<u64>,
    target_name: Option<Seq<char>>,
)
    requires
        forall|j: int| 0 <= j < cameras.len() ==> !entry_matches(cameras, j, target_entity, target_name),
    ensures
        first_match_of(cameras, target_entity, target_name) is None,
{
}

/// Some name in `names` is `name`.
pub open spec fn names_contain(names: Seq<String>, name: Seq<char>) -> bool {
    exists|i: int| 0 <= i < names.len() && (#[trigger] names[i])@ == name
}

/// The generated debug camera name `debug_camera_{index}`.
pub open spec fn generated_name(index: nat) -> Seq<char> {
    "debug_camera_"@ + decimal(index)
}

/// Whether `names` holds `name`.
pub fn names_include(names: &Vec<String>, name: &str) -> (r: bool)
    ensures
        r == names_contain(names@, name@),
{
    let n = names.len();
    let mut i: usize = 0;
    while i < n
        invariant
            n == names.len(),
            i <= n,
            forall|j: int| 0 <= j < i ==> (#[trigger] names@[j])@ != name@,
        decreases n - i,
    {
        if str_eq(names[i].as_str(), name) {
            return true;
        }
        i += 1;
    }
    false
}

/// `name` is the generated name for a new debug camera among `existing`:
/// the first `debug_camera_{index}` with `index < 1024` that no camera has,
/// else `debug_camera`.
pub open spec fn is_generated_name_for(existing: Seq<String>, name: Seq<char>) -> bool {
    ||| exists|k: nat|
        k < GENERATED_NAME_LIMIT && name == generated_name(k) && !names_contain(existing, generated_name(k))
            && forall|j: nat| j < k ==> names_contain(existing, #[trigger] generated_name(j))
    ||| name == "debug_camera"@ && forall|j: nat|
        j < GENERATED_NAME_LIMIT ==> names_contain(existing, #[trigger] generated_name(j))
}

/// A name for a new debug camera: the first `debug_camera_{index}` with
/// `index < 1024` that no camera has, else `debug_camera`.
pub fn next_debug_camera_name(existing: &Vec<String>) -> (r: String)
    ensures
        is_generated_name_for(existing@, r@),
{
    let mut index: u32 = 0;
    while index < GENERATED_NAME_LIMIT
        invariant
            index <= GENERATED_NAME_LIMIT,
            forall|j: nat| j < index ==> names_contain(existing@, #[trigger] generated_name(j)),
        decreases GENERATED_NAME_LIMIT - index,
    {
        let mut name = "debug_camera_".to_owned();
        name.append(decimal_string(index as u64).as_str());
        if !names_include(existing, name.as_str()) {
            assert(name@ == generated_name(index as nat));
            return name;
        }
        assert(names_contain(existing@, generated_name(index as nat)));
        index += 1;
    }
    "debug_camera".to_owned()
}

/// The name a create request gives its new debug camera (its requested name
/// without surrounding whitespace, else a generated one), or that name again
/// as the error when a camera already has it.
pub fn new_debug_camera_name(requested: &str, existing: &Vec<String>) -> (r: Result<String, String>)
    ensures
        ({
            let name = match r {
                Ok(n) => n@,
                Err(n) => n@,
            };
            &&& trimmed(requested@).len() > 0 ==> name == trimmed(requested@)
            &&& trimmed(requested@).len() == 0 ==> is_generated_name_for(existing@, name)
            &&& r is Err <==> names_contain(existing@, name)
        }),
{
    let t = trim(requested);
    let name = if t.as_str().unicode_len() == 0 {
        next_debug_camera_name(existing)
    } else {
        t
    };
    if names_include(existing, name.as_str()) {
        Err(name)
    } else {
        Ok(name)
    }
}

/// The entity name of a debug camera: `mcp_debug_camera:{name}`.
pub fn debug_camera_entity_name(name: &str) -> (r: String)
    ensures
        r@ == "mcp_debug_camera:"@ + name@,
{
    let mut label = "mcp_debug_camera:".to_owned();
    label.append(name);
    label
}

/// Where a debug camera capture is written: the requested path without
/// surrounding whitespace made absolute against the working directory (kept
/// relative when the working directory is unknown); without a requested
/// path, `{camera_name}.png` in the default capture directory.
pub open spec fn capture_path_spec(path: Seq<char>, camera_name: Seq<char>, cwd: Option<Seq<char>>) -> Seq<
    char,
> {
    let p = trimmed(path);
    if p.len() == 0 {
        joined_path(DEFAULT_CAPTURE_DIR@, camera_name + ".png"@)
    } else if is_absolute_path(p) {
        p
    } else {
        match cwd {
            Some(c) => joined_path(c, p),
            None => p,
        }
    }
}

/// The file a capture request writes for the camera named `camera_name`.
pub fn capture_path(path: &str, camera_name: &str, current_dir: &Result<String, String>) -> (r:
    String)
    ensures
        r@ == capture_path_spec(
            path@,
            camera_name@,
            match current_dir {
                Ok(c) => Some(c@),
                Err(_) => None,
            },
        ),
{
    let p = trim(path);
    if p.as_str().unicode_len() == 0 {
        let mut file_name = camera_name.to_owned();
        file_name.append(".png");
        return join(DEFAULT_CAPTURE_DIR, file_name.as_str());
    }
    if is_absolute(p.as_str()) {
        p
    } else {
        match current_dir {
            Ok(cwd) => join(cwd.as_str(), p.as_str()),
            Err(_) => p,
        }
    }
}

/// The frames left to wait after `ticks` frames, starting from `frames`.
pub open spec fn frames_after_ticks(frames: nat, ticks: nat) -> nat
    decreases ticks,
{
    if ticks == 0 {
        frames
    } else {
        frames_after_ticks(
            if frames == 0 {
                0
            } else {
                (frames - 1) as nat
            },
            (ticks - 1) as nat,
        )
    }
}

/// Counting down from `frames`, the tick numbered `ticks + 1` is the first
/// one that finds the camera due: the frames left are `frames - ticks`, and
/// zero once `ticks` reaches `frames`.
pub proof fn lemma_delete_due_after_delay(frames: nat, ticks: nat)
    ensures
        frames_after_ticks(frames, ticks) == (if ticks >= frames {
            0
        } else {
            (frames - ticks) as nat
        }),
    decreases ticks,
{
    if ticks > 0 {
        let next: nat = if frames == 0 {
            0
        } else {
            (frames - 1) as nat
        };
        lemma_delete_due_after_delay(next, (ticks - 1) as nat);
    }
}

/// A debug camera waiting to be removed once its last frames are rendered.
pub struct PendingDebugCameraDelete {
    pub frames_remaining: u8,
}

impl PendingDebugCameraDelete {
    /// A camera scheduled for removal after the delete delay.
    pub fn new() -> (r: Self)
        ensures
            r.frames_remaining == DELETE_DELAY_FRAMES,
    {
        PendingDebugCameraDelete { frames_remaining: DELETE_DELAY_FRAMES }
    }

    /// Counts one frame down; `true` when the camera is due for removal.
    pub fn tick(&mut self) -> (due: bool)
        ensures
            due == (old(self).frames_remaining == 0),
            final(self).frames_remaining == frames_after_ticks(old(self).frames_remaining as nat, 1),
    {
        proof {
            reveal_with_fuel(frames_after_ticks, 2);
        }
        if self.frames_remaining > 0 {
            self.frames_remaining -= 1;
            false
        } else {
            true
        }
    }
}

} // verus!
