//! The character render profile stored next to a model as `.toon-model.ron`:
//! one binding per scene node, kept sorted by binding key.
use vstd::prelude::*;
use crate::sorting::{
    SortKey, is_stable_sort_of, lemma_permutation_onto, lemma_stable_sort_keeps_first, same_key,
    stable_sort, stable_sorting,
};
use crate::text::{
    lemma_seq_less_asymmetric, lemma_seq_less_irreflexive, lemma_seq_less_total,
    lemma_seq_less_transitive, seq_less, str_eq, str_less,
};

verus! {

/// The RON value that holds a part's shader parameters; the library carries
/// it without looking inside.
#[verifier::external_type_specification]
#[verifier::external_body]
pub struct ExRonValue(ron::Value);

pub const CHARACTER_SURFACE_SHADER_KEY: &'static str = "character_surface";

pub const CHARACTER_HAIR_SHADER_KEY: &'static str = "character_hair";

pub const CHARACTER_FACE_SDF_SHADER_KEY: &'static str = "character_face_sdf";

pub const PROFILE_VERSION: u32 = 1;

/// Textures that a render part binds, by asset path.
pub struct RenderPartResources {
    pub base_color_texture: Option<String>,
    pub face_shadow_texture: Option<String>,
}

impl Default for RenderPartResources {
    fn default() -> (r: Self)
        ensures
            r.base_color_texture is None,
            r.face_shadow_texture is None,
    {
        RenderPartResources { base_color_texture: None, face_shadow_texture: None }
    }
}

pub fn clone_optional_text(value: &Option<String>) -> (r: Option<String>)
    ensures
        r == *value,
{
    match value {
        Some(text) => Some(text.clone()),
        None => None,
    }
}

impl Clone for RenderPartResources {
    fn clone(&self) -> (r: Self)
        ensures
            r == *self,
    {
        RenderPartResources {
            base_color_texture: clone_optional_text(&self.base_color_texture),
            face_shadow_texture: clone_optional_text(&self.face_shadow_texture),
        }
    }
}

/// Calls `<ron::Value as Clone>::clone`; the copy is the same value.
#[verifier::external_body]
pub(crate) fn clone_params(params: &ron::Value) -> (r: ron::Value)
    ensures
        r == *params,
{
    params.clone()
}

/// The binding of one scene node: which shader drives it, its textures and its
/// shader parameters.
pub struct RenderPartBinding {
    pub binding_key: String,
    pub shader_key: String,
    pub resources: RenderPartResources,
    pub params: ron::Value,
}

/// Which scene asset the profile belongs to.
pub struct ModelBinding {
    pub scene_asset_path: Option<String>,
}

/// Scalar overrides shared by every part, by name; each value is the bit
/// pattern of an `f32`.
pub struct SharedRenderProfile {
    pub scalar_override_bits: Vec<(String, u32)>,
}

impl SharedRenderProfile {
    /// The overrides are in ascending order of their names, as a map keyed by
    /// name keeps them.
    pub open spec fn well_formed(&self) -> bool {
        forall|i: int, j: int|
            0 <= i < j < self.scalar_override_bits@.len() ==> seq_less(
                self.scalar_override_bits@[i].0@,
                self.scalar_override_bits@[j].0@,
            )
    }
}

/// In well-formed shared overrides each name occurs once.
pub proof fn lemma_override_names_distinct(shared: SharedRenderProfile)
    requires
        shared.well_formed(),
    ensures
        forall|i: int, j: int|
            0 <= i < j < shared.scalar_override_bits@.len() ==> shared.scalar_override_bits@[i].0@
                != shared.scalar_override_bits@[j].0@,
{
    assert forall|i: int, j: int|
        0 <= i < j < shared.scalar_override_bits@.len() implies shared.scalar_override_bits@[i].0@
        != shared.scalar_override_bits@[j].0@ by {
        lemma_seq_less_irreflexive(shared.scalar_override_bits@[i].0@);
    }
}

/// The whole render profile of a character model.
pub struct CharacterRenderProfile {
    pub version: u32,
    pub model_binding: ModelBinding,
    pub shared: SharedRenderProfile,
    pub parts: Vec<RenderPartBinding>,
}

impl Default for CharacterRenderProfile {
    fn default() -> (r: Self)
        ensures
            r.version == 0,
            r.model_binding.scene_asset_path is None,
            r.shared.scalar_override_bits@.len() == 0,
            r.shared.well_formed(),
            r.parts@.len() == 0,
    {
        CharacterRenderProfile {
            version: 0,
            model_binding: ModelBinding { scene_asset_path: None },
            shared: SharedRenderProfile { scalar_override_bits: Vec::new() },
            parts: Vec::new(),
        }
    }
}

impl SortKey for RenderPartBinding {
    open spec fn precedes(&self, other: &Self) -> bool {
        seq_less(self.binding_key@, other.binding_key@)
    }

    proof fn lemma_asymmetric(a: &Self, b: &Self) {
        lemma_seq_less_asymmetric(a.binding_key@, b.binding_key@);
    }

    proof fn lemma_bridge(a: &Self, b: &Self, c: &Self) {
        lemma_seq_less_total(c.binding_key@, b.binding_key@);
        if c.binding_key@ != b.binding_key@ {
            lemma_seq_less_transitive(a.binding_key@, b.binding_key@, c.binding_key@);
        }
    }

    fn goes_before(&self, other: &Self) -> (r: bool) {
        str_less(self.binding_key.as_str(), other.binding_key.as_str())
    }
}

/// `i` is the position of the first part bound to `key`.
pub open spec fn is_first_with_key(parts: Seq<RenderPartBinding>, key: Seq<char>, i: int) -> bool {
    &&& 0 <= i < parts.len()
    &&& parts[i].binding_key@ == key
    &&& forall|j: int| 0 <= j < i ==> (#[trigger] parts[j]).binding_key@ != key
}

/// No part is bound to `key`.
pub open spec fn has_no_key(parts: Seq<RenderPartBinding>, key: Seq<char>) -> bool {
    forall|j: int| 0 <= j < parts.len() ==> (#[trigger] parts[j]).binding_key@ != key
}

/// The part that a lookup of `key` yields: the first one bound to it.
pub open spec fn found_part(parts: Seq<RenderPartBinding>, key: Seq<char>, found: Option<
    RenderPartBinding,
>) -> bool {
    match found {
        Some(p) => exists|i: int| is_first_with_key(parts, key, i) && p == parts[i],
        None => has_no_key(parts, key),
    }
}

/// `after` is `before` with `part` upserted: the first part with the same
/// binding key is replaced in place; without one, `part` is appended and the
/// parts are stably sorted by binding key.
pub open spec fn upserted(
    before: Seq<RenderPartBinding>,
    part: RenderPartBinding,
    after: Seq<RenderPartBinding>,
) -> bool {
    &&& forall|i: int|
        is_first_with_key(before, part.binding_key@, i) ==> after == before.update(i, part)
    &&& has_no_key(before, part.binding_key@) ==> is_stable_sort_of(before.push(part), after)
}

proof fn lemma_same_key_is_equal_key(a: RenderPartBinding, b: RenderPartBinding)
    ensures
        same_key(&a, &b) <==> a.binding_key@ == b.binding_key@,
{
    lemma_seq_less_total(a.binding_key@, b.binding_key@);
    lemma_seq_less_irreflexive(a.binding_key@);
}

impl CharacterRenderProfile {
    /// Replaces the binding with the same key, or adds `part` and keeps the
    /// parts sorted by binding key.
    pub fn upsert_part(&mut self, part: RenderPartBinding)
        ensures
            upserted(old(self).parts@, part, final(self).parts@),
            keys_sorted_distinct(old(self).parts@) ==> keys_sorted_distinct(final(self).parts@),
            final(self).parts@.len() == old(self).parts@.len() + (if has_no_key(
                old(self).parts@,
                part.binding_key@,
            ) {
                1int
            } else {
                0int
            }),
            final(self).version == old(self).version,
            final(self).model_binding == old(self).model_binding,
            final(self).shared == old(self).shared,
    {
        let n = self.parts.len();
        let mut i: usize = 0;
        while i < n
            invariant
                n == self.parts.len(),
                i <= n,
                self.parts@ == old(self).parts@,
                self.version == old(self).version,
                self.model_binding == old(self).model_binding,
                self.shared == old(self).shared,
                forall|j: int| 0 <= j < i ==> (#[trigger] self.parts@[j]).binding_key@ != part.binding_key@,
            decreases n - i,
        {
            if str_eq(self.parts[i].binding_key.as_str(), part.binding_key.as_str()) {
                let ghost before = self.parts@;
                self.parts.set(i, part);
                proof {
                    assert forall|k: int| is_first_with_key(before, part.binding_key@, k) implies
                        self.parts@ == before.update(k, part) by {
                        if k < i {
                            assert(before[k].binding_key@ != part.binding_key@);
                        } else if k > i {
                            assert(before[i as int].binding_key@ == part.binding_key@);
                        }
                    }
                    assert(is_first_with_key(before, part.binding_key@, i as int));
                    if keys_sorted_distinct(before) {
                        lemma_upsert_keeps_keys_sorted(before, part, self.parts@);
                    }
                }
                return;
            }
            i += 1;
        }
        let ghost before = self.parts@;
        self.parts.push(part);
        stable_sort(&mut self.parts);
        proof {
            assert(has_no_key(before, part.binding_key@));
            assert(self.parts@.len() == before.len() + 1) by {
                let perm = choose|perm: Seq<int>| stable_sorting(before.push(part), self.parts@, perm);
            }
            if keys_sorted_distinct(before) {
                lemma_upsert_keeps_keys_sorted(before, part, self.parts@);
            }
        }
    }

    /// The first binding whose key is `binding_key`, if any.
    pub fn find_part(&self, binding_key: &str) -> (r: Option<&RenderPartBinding>)
        ensures
            found_part(self.parts@, binding_key@, match r {
                Some(p) => Some(*p),
                None => None,
            }),
    {
        let n = self.parts.len();
        let mut i: usize = 0;
        while i < n
            invariant
                n == self.parts.len(),
                i <= n,
                forall|j: int| 0 <= j < i ==> (#[trigger] self.parts@[j]).binding_key@ != binding_key@,
            decreases n - i,
        {
            if str_eq(self.parts[i].binding_key.as_str(), binding_key) {
                assert(is_first_with_key(self.parts@, binding_key@, i as int));
                return Some(&self.parts[i]);
            }
            i += 1;
        }
        None
    }
}

/// After a part is upserted, looking up its binding key yields that part.
pub proof fn lemma_upsert_then_find(
    before: Seq<RenderPartBinding>,
    part: RenderPartBinding,
    after: Seq<RenderPartBinding>,
)
    requires
        upserted(before, part, after),
    ensures
        found_part(after, part.binding_key@, Some(part)),
{
    let key = part.binding_key@;
    if has_no_key(before, key) {
        let input = before.push(part);
        let perm = choose|perm: Seq<int>| stable_sorting(input, after, perm);
        let q = before.len() as int;
        assert forall|r: int| 0 <= r < q implies !same_key(&input[r], &input[q]) by {
            lemma_same_key_is_equal_key(input[r], input[q]);
            assert(input[r] == before[r]);
        }
        lemma_stable_sort_keeps_first(input, after, perm, q);
        let p = choose|p: int|
            0 <= p < after.len() && after[p] == input[q] && (forall|r: int|
                0 <= r < p ==> !same_key(&#[trigger] after[r], &input[q]));
        assert forall|r: int| 0 <= r < p implies (#[trigger] after[r]).binding_key@ != key by {
            lemma_same_key_is_equal_key(after[r], input[q]);
        }
        assert(is_first_with_key(after, key, p));
    } else {
        let i = choose|i: int| 0 <= i < before.len() && before[i].binding_key@ == key;
        let first = first_index_with_key(before, key, i);
        assert(after == before.update(first, part));
        assert forall|j: int| 0 <= j < first implies (#[trigger] after[j]).binding_key@ != key by {
            assert(after[j] == before[j]);
        }
        assert(is_first_with_key(after, key, first));
    }
}

/// Upserting a part leaves the lookup of every other binding key as it was.
pub proof fn lemma_upsert_keeps_other_keys(
    before: Seq<RenderPartBinding>,
    part: RenderPartBinding,
    after: Seq<RenderPartBinding>,
    key: Seq<char>,
    found: Option<RenderPartBinding>,
)
    requires
        upserted(before, part, after),
        key != part.binding_key@,
        found_part(before, key, found),
    ensures
        found_part(after, key, found),
{
    if has_no_key(before, part.binding_key@) {
        let input = before.push(part);
        let perm = choose|perm: Seq<int>| stable_sorting(input, after, perm);
        match found {
            Some(fp) => {
                let q = choose|q: int| is_first_with_key(before, key, q) && fp == before[q];
                assert forall|r: int| 0 <= r < q implies !same_key(&input[r], &input[q]) by {
                    lemma_same_key_is_equal_key(input[r], input[q]);
                    assert(input[r] == before[r]);
                    assert(before[r].binding_key@ != key);
                }
                lemma_stable_sort_keeps_first(input, after, perm, q);
                let p = choose|p: int|
                    0 <= p < after.len() && after[p] == input[q] && (forall|r: int|
                        0 <= r < p ==> !same_key(&#[trigger] after[r], &input[q]));
                assert forall|r: int| 0 <= r < p implies (#[trigger] after[r]).binding_key@
                    != key by {
                    lemma_same_key_is_equal_key(after[r], input[q]);
                }
                assert(is_first_with_key(after, key, p));
            },
            None => {
                assert forall|j: int| 0 <= j < after.len() implies (
                #[trigger] after[j]).binding_key@ != key by {
                    assert(after[j] == input[perm[j]]);
                    assert(0 <= perm[j] < input.len());
                    if perm[j] < before.len() {
                        assert(input[perm[j]] == before[perm[j]]);
                    }
                }
            },
        }
    } else {
        let i = choose|i: int| 0 <= i < before.len() && before[i].binding_key@ == part.binding_key@;
        let first = first_index_with_key(before, part.binding_key@, i);
        assert(after == before.update(first, part));
        match found {
            Some(fp) => {
                let q = choose|q: int| is_first_with_key(before, key, q) && fp == before[q];
                assert(q != first);
                assert forall|j: int| 0 <= j < q implies (#[trigger] after[j]).binding_key@ != key by {
                    if j != first {
                        assert(after[j] == before[j]);
                    }
                }
                assert(is_first_with_key(after, key, q));
            },
            None => {
                assert forall|j: int| 0 <= j < after.len() implies (
                #[trigger] after[j]).binding_key@ != key by {
                    if j != first {
                        assert(after[j] == before[j]);
                    }
                }
            },
        }
    }
}

/// Upserting the same part a second time changes nothing.
pub proof fn lemma_upsert_idempotent(
    before: Seq<RenderPartBinding>,
    part: RenderPartBinding,
    once: Seq<RenderPartBinding>,
    twice: Seq<RenderPartBinding>,
)
    requires
        upserted(before, part, once),
        upserted(once, part, twice),
    ensures
        twice == once,
{
    lemma_upsert_then_find(before, part, once);
    let i = choose|i: int| is_first_with_key(once, part.binding_key@, i) && part == once[i];
    assert(twice == once.update(i, part));
    assert(twice =~= once);
}

/// The parts are in ascending order of their binding keys, each key once.
pub open spec fn keys_sorted_distinct(parts: Seq<RenderPartBinding>) -> bool {
    forall|i: int, j: int|
        0 <= i < j < parts.len() ==> seq_less(parts[i].binding_key@, parts[j].binding_key@)
}

/// Upserting into parts sorted by distinct binding keys keeps them so; the
/// parts grow by one exactly when the key is new; the upserted part and
/// every part with another key are there afterwards.
pub proof fn lemma_upsert_keeps_keys_sorted(
    before: Seq<RenderPartBinding>,
    part: RenderPartBinding,
    after: Seq<RenderPartBinding>,
)
    requires
        upserted(before, part, after),
        keys_sorted_distinct(before),
    ensures
        keys_sorted_distinct(after),
        after.len() == before.len() + (if has_no_key(before, part.binding_key@) {
            1int
        } else {
            0int
        }),
        after.contains(part),
        forall|k: int|
            0 <= k < before.len() && before[k].binding_key@ != part.binding_key@ ==> after.contains(
                #[trigger] before[k],
            ),
{
    let key = part.binding_key@;
    if has_no_key(before, key) {
        let input = before.push(part);
        let n = input.len() as int;
        let perm = choose|perm: Seq<int>| stable_sorting(input, after, perm);
        assert forall|i: int, j: int| 0 <= i < n && 0 <= j < n && i != j implies input[i].binding_key@
            != input[j].binding_key@ by {
            if i < before.len() && j < before.len() {
                if i < j {
                    lemma_seq_less_irreflexive(before[i].binding_key@);
                } else {
                    lemma_seq_less_irreflexive(before[j].binding_key@);
                }
                assert(input[i] == before[i]);
                assert(input[j] == before[j]);
            } else if i < before.len() {
                assert(input[i] == before[i]);
                assert(before[i].binding_key@ != key);
            } else {
                assert(input[j] == before[j]);
                assert(before[j].binding_key@ != key);
            }
        }
        assert forall|i: int, j: int| 0 <= i < j < after.len() implies seq_less(
            after[i].binding_key@,
            after[j].binding_key@,
        ) by {
            assert(after[i] == input[perm[i]]);
            assert(after[j] == input[perm[j]]);
            assert(perm[i] != perm[j]);
            assert(0 <= perm[i] < n && 0 <= perm[j] < n);
            assert(!after[j].precedes(&after[i]));
            lemma_seq_less_total(after[i].binding_key@, after[j].binding_key@);
        }
        lemma_permutation_onto(perm, n, n - 1);
        let p = choose|p: int| 0 <= p < n && perm[p] == n - 1;
        assert(after[p] == input[n - 1]);
        assert forall|k: int|
            0 <= k < before.len() && before[k].binding_key@ != key implies after.contains(
            #[trigger] before[k],
        ) by {
            lemma_permutation_onto(perm, n, k);
            let q = choose|q: int| 0 <= q < n && perm[q] == k;
            assert(after[q] == input[k]);
            assert(input[k] == before[k]);
        }
    } else {
        let i = choose|i: int| 0 <= i < before.len() && before[i].binding_key@ == key;
        let first = first_index_with_key(before, key, i);
        assert(after == before.update(first, part));
        assert(after[first] == part);
        assert forall|a: int, b: int| 0 <= a < b < after.len() implies seq_less(
            after[a].binding_key@,
            after[b].binding_key@,
        ) by {
            assert(after[a].binding_key@ == before[a].binding_key@);
            assert(after[b].binding_key@ == before[b].binding_key@);
        }
        assert forall|k: int|
            0 <= k < before.len() && before[k].binding_key@ != key implies after.contains(
            #[trigger] before[k],
        ) by {
            assert(after[k] == before[k]);
        }
    }
}

/// The first position at or before `i` whose part is bound to `key`.
proof fn first_index_with_key(parts: Seq<RenderPartBinding>, key: Seq<char>, i: int) -> (r: int)
    requires
        0 <= i < parts.len(),
        parts[i].binding_key@ == key,
    ensures
        is_first_with_key(parts, key, r),
    decreases i,
{
    if exists|j: int| 0 <= j < i && parts[j].binding_key@ == key {
        let j = choose|j: int| 0 <= j < i && parts[j].binding_key@ == key;
        first_index_with_key(parts, key, j)
    } else {
        i
    }
}

} // verus!
