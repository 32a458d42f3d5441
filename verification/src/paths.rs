//! Where profiles and captures are written: the `.toon-model.ron` file of a
//! scene asset, screenshot file names, and relative paths made absolute.
//!
//! Path syntax is the standard library's (`std::path`); its results are named
//! here and fixed by the target platform the crate is built for.
use vstd::prelude::*;
use crate::text::{decimal, decimal_string};

verus! {

/// What `Path::file_stem` gives for `path`, as text.
pub uninterp spec fn file_stem_of(path: Seq<char>) -> Option<Seq<char>>;

/// What `Path::with_file_name` gives for `path` and `file_name`, as text.
pub uninterp spec fn with_file_name_of(path: Seq<char>, file_name: Seq<char>) -> Seq<char>;

/// What `Path::join` gives for `base` and `path`, as text.
pub uninterp spec fn joined_path(base: Seq<char>, path: Seq<char>) -> Seq<char>;

/// What `Path::is_absolute` says of `path`.
pub uninterp spec fn is_absolute_path(path: Seq<char>) -> bool;

pub open spec fn opt_text(s: Option<String>) -> Option<Seq<char>> {
    match s {
        Some(t) => Some(t@),
        None => None,
    }
}

/// Calls `std::path::Path::file_stem`; the stem of a path given as UTF-8 text is
/// UTF-8 text again.
#[verifier::external_body]
fn file_stem(path: &str) -> (r: Option<String>)
    ensures
        opt_text(r) == file_stem_of(path@),
{
    match std::path::Path::new(path).file_stem() {
        Some(stem) => Some(stem.to_string_lossy().into_owned()),
        None => None,
    }
}

/// Calls `std::path::Path::with_file_name`.
#[verifier::external_body]
fn with_file_name(path: &str, file_name: &str) -> (r: String)
    ensures
        r@ == with_file_name_of(path@, file_name@),
{
    std::path::Path::new(path).with_file_name(file_name).to_string_lossy().into_owned()
}

/// Calls `std::path::Path::join`.
#[verifier::external_body]
pub(crate) fn join(base: &str, path: &str) -> (r: String)
    ensures
        r@ == joined_path(base@, path@),
{
    std::path::Path::new(base).join(path).to_string_lossy().into_owned()
}

/// Calls `std::path::Path::is_absolute`.
#[verifier::external_body]
pub(crate) fn is_absolute(path: &str) -> (r: bool)
    ensures
        r == is_absolute_path(path@),
{
    std::path::Path::new(path).is_absolute()
}

/// Position of the first `#` in `s`, or its length.
pub open spec fn hash_index(s: Seq<char>) -> nat
    decreases s.len(),
{
    if s.len() == 0 || s[0] == '#' {
        0
    } else {
        1 + hash_index(s.drop_first())
    }
}

/// The asset path without its `#label` suffix.
pub open spec fn source_asset_path(s: Seq<char>) -> Seq<char> {
    s.take(hash_index(s) as int)
}

proof fn lemma_hash_index(s: Seq<char>, i: int)
    requires
        0 <= i <= s.len(),
        forall|k: int| 0 <= k < i ==> #[trigger] s[k] != '#',
        i == s.len() || s[i] == '#',
    ensures
        hash_index(s) == i,
    decreases i,
{
    if i > 0 {
        let t = s.drop_first();
        assert forall|k: int| 0 <= k < i - 1 implies #[trigger] t[k] != '#' by {
            assert(t[k] == s[k + 1]);
        }
        if i < s.len() {
            assert(t[i - 1] == s[i]);
        }
        lemma_hash_index(t, i - 1);
    }
}

proof fn lemma_hash_index_bounds(s: Seq<char>)
    ensures
        hash_index(s) <= s.len(),
        forall|k: int| 0 <= k < hash_index(s) ==> #[trigger] s[k] != '#',
    decreases s.len(),
{
    if s.len() > 0 && s[0] != '#' {
        let t = s.drop_first();
        lemma_hash_index_bounds(t);
        assert forall|k: int| 0 <= k < hash_index(s) implies #[trigger] s[k] != '#' by {
            if k > 0 {
                assert(s[k] == t[k - 1]);
            }
        }
    }
}

/// A scene asset path and the same path without its `#label` belong to the
/// same render profile.
pub proof fn lemma_label_does_not_change_profile_path(scene_asset_path: Seq<char>)
    ensures
        source_asset_path(source_asset_path(scene_asset_path)) == source_asset_path(scene_asset_path),
        render_profile_path(source_asset_path(scene_asset_path)) == render_profile_path(scene_asset_path),
{
    let s = scene_asset_path;
    let h = hash_index(s) as int;
    lemma_hash_index_bounds(s);
    let t = s.take(h);
    assert forall|k: int| 0 <= k < h implies #[trigger] t[k] != '#' by {
        assert(t[k] == s[k]);
    }
    lemma_hash_index(t, h);
    assert(t.take(h) =~= t);
}

/// The part of a scene asset path before its first `#`.
pub fn source_path_of(scene_asset_path: &str) -> (r: String)
    ensures
        r@ == source_asset_path(scene_asset_path@),
{
    let n = scene_asset_path.unicode_len();
    let mut i: usize = 0;
    while i < n && scene_asset_path.get_char(i) != '#'
        invariant
            i <= n,
            n == scene_asset_path@.len(),
            forall|k: int| 0 <= k < i ==> #[trigger] scene_asset_path@[k] != '#',
        decreases n - i,
    {
        i += 1;
    }
    proof {
        lemma_hash_index(scene_asset_path@, i as int);
        assert(scene_asset_path@.subrange(0, i as int) =~= scene_asset_path@.take(i as int));
    }
    scene_asset_path.substring_char(0, i).to_owned()
}

/// The profile file name for a model file stem: `{stem}.toon-model.ron`, with
/// `character` standing in for a missing or empty stem.
pub open spec fn profile_file_name(stem: Option<Seq<char>>) -> Seq<char> {
    let base = match stem {
        Some(s) => if s.len() > 0 {
            s
        } else {
            "character"@
        },
        None => "character"@,
    };
    base + ".toon-model.ron"@
}

/// The profile file name for the file stem that a model path has.
pub fn profile_file_name_for_stem(stem: Option<String>) -> (r: String)
    ensures
        r@ == profile_file_name(opt_text(stem)),
{
    let base = match stem {
        Some(s) => if s.as_str().unicode_len() > 0 {
            s
        } else {
            "character".to_owned()
        },
        None => "character".to_owned(),
    };
    base.concat(".toon-model.ron")
}

/// The render profile of a scene asset: next to the model file under
/// `assets`, named after the model's file stem.
pub open spec fn render_profile_path(scene_asset_path: Seq<char>) -> Seq<char> {
    let source = source_asset_path(scene_asset_path);
    joined_path("assets"@, with_file_name_of(source, profile_file_name(file_stem_of(source))))
}

/// Path of the `.toon-model.ron` file that belongs to a scene asset path such
/// as `private/hero/hero.glb#Scene0`.
pub fn character_render_profile_path(scene_asset_path: &str) -> (r: String)
    ensures
        r@ == render_profile_path(scene_asset_path@),
{
    let source = source_path_of(scene_asset_path);
    let stem = file_stem(source.as_str());
    let file_name = profile_file_name_for_stem(stem);
    let relative = with_file_name(source.as_str(), file_name.as_str());
    join("assets", relative.as_str())
}

pub const DEFAULT_CAPTURE_DIR: &'static str = "assets/private/captures";

/// The capture directory: the configured one when it is set and not empty,
/// else `assets/private/captures`.
pub open spec fn capture_directory_spec(configured: Option<Seq<char>>) -> Seq<char> {
    match configured {
        Some(dir) => if dir.len() > 0 {
            dir
        } else {
            DEFAULT_CAPTURE_DIR@
        },
        None => DEFAULT_CAPTURE_DIR@,
    }
}

/// Chooses the screenshot directory from the configured value, if any.
pub fn capture_directory(configured: Option<String>) -> (r: String)
    ensures
        r@ == capture_directory_spec(opt_text(configured)),
{
    match configured {
        Some(dir) => if dir.as_str().unicode_len() > 0 {
            dir
        } else {
            DEFAULT_CAPTURE_DIR.to_owned()
        },
        None => DEFAULT_CAPTURE_DIR.to_owned(),
    }
}

/// `capture-{timestamp}-{counter}.png`.
pub open spec fn capture_file_name_spec(timestamp: nat, counter: nat) -> Seq<char> {
    "capture-"@ + decimal(timestamp) + "-"@ + decimal(counter) + ".png"@
}

/// The file name of the `counter`-th hotkey screenshot taken at `timestamp`.
pub fn capture_file_name(timestamp: u64, counter: u32) -> (r: String)
    ensures
        r@ == capture_file_name_spec(timestamp as nat, counter as nat),
{
    let mut s = "capture-".to_owned();
    s.append(decimal_string(timestamp).as_str());
    s.append("-");
    s.append(decimal_string(counter as u64).as_str());
    s.append(".png");
    s
}

/// Path of the next hotkey screenshot: in `directory`, stamped with the
/// seconds since the Unix epoch (0 when the clock reads before the epoch).
pub fn next_capture_path(directory: &str, timestamp_secs: Option<u64>, counter: u32) -> (r: String)
    ensures
        r@ == joined_path(
            directory@,
            capture_file_name_spec(
                match timestamp_secs {
                    Some(t) => t as nat,
                    None => 0,
                },
                counter as nat,
            ),
        ),
{
    let timestamp = match timestamp_secs {
        Some(t) => t,
        None => 0,
    };
    let file_name = capture_file_name(timestamp, counter);
    join(directory, file_name.as_str())
}

/// `path` made absolute against the working directory `cwd` (already
/// absolute paths are kept as they are).
pub open spec fn absolute_against(path: Seq<char>, cwd: Seq<char>) -> Seq<char> {
    if is_absolute_path(path) {
        path
    } else {
        joined_path(cwd, path)
    }
}

/// Makes `path` absolute. `current_dir` is the working directory, or the
/// reason it could not be read; it matters only for a relative path.
pub fn absolute_path(path: &str, current_dir: &Result<String, String>) -> (r: Result<String, String>)
    ensures
        is_absolute_path(path@) ==> r is Ok && r->Ok_0@ == path@,
        !is_absolute_path(path@) ==> match current_dir {
            Ok(cwd) => r is Ok && r->Ok_0@ == joined_path(cwd@, path@),
            Err(e) => r is Err && r->Err_0@ == "Failed to get current directory: "@ + e@,
        },
{
    if is_absolute(path) {
        Ok(path.to_owned())
    } else {
        match current_dir {
            Ok(cwd) => Ok(join(cwd.as_str(), path)),
            Err(e) => {
                let mut message = "Failed to get current directory: ".to_owned();
                message.append(e.as_str());
                Err(message)
            },
        }
    }
}

} // verus!
