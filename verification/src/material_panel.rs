//! The material editor panels: which windows are open, which primitive the
//! property panel shows, how entries are labelled and ordered, and how the
//! edited material is bound into the model's render profile.
use vstd::prelude::*;
use crate::paths::{character_render_profile_path, opt_text, render_profile_path};
use crate::profile::{
    lemma_upsert_keeps_other_keys, lemma_upsert_then_find,
    CHARACTER_SURFACE_SHADER_KEY, CharacterRenderProfile, ModelBinding, PROFILE_VERSION,
    RenderPartBinding, RenderPartResources, SharedRenderProfile,
    clone_params, found_part, has_no_key, is_first_with_key, upserted,
};
use crate::selection::{
    MaterialPanelSelectionEntry, MaterialSelectionState, contains_entity, first_primitive,
    primitive_after_panel_selection,
};
use crate::sorting::{SortKey, is_stable_sort_of, stable_sort};
use crate::text::{
    decimal, decimal_string, lemma_seq_less_asymmetric, lemma_seq_less_irreflexive,
    lemma_seq_less_total, lemma_seq_less_transitive, seq_less, str_less, str_eq, trim, trimmed,
};
use crate::toon::ToonMaterialBindingSource;

verus! {

/// Which editor windows are open.
pub struct DevWindowState {
    pub light_control_open: bool,
    pub gizmos_open: bool,
    pub material_library_open: bool,
    pub material_property_open: bool,
}

impl Default for DevWindowState {
    fn default() -> (r: Self)
        ensures
            r.light_control_open,
            r.gizmos_open,
            r.material_library_open,
            r.material_property_open,
    {
        DevWindowState {
            light_control_open: true,
            gizmos_open: true,
            material_library_open: true,
            material_property_open: true,
        }
    }
}

/// The primitive the property panel shows for a material: the selected
/// primitive when it uses the material, else the material's first primitive.
pub fn effective_selected_primitive(selected: Option<u64>, primitives: &Vec<u64>) -> (r: Option<u64>)
    ensures
        r == primitive_after_panel_selection(selected, primitives@),
{
    let keep = match selected {
        Some(p) => contains_entity(primitives, p),
        None => false,
    };
    if keep {
        selected
    } else if primitives.len() > 0 {
        Some(primitives[0])
    } else {
        None
    }
}

/// The label of a material in the library: its first node, with the node
/// count when several nodes share it.
pub open spec fn entry_label_spec(names: Seq<String>) -> Seq<char> {
    if names.len() > 1 {
        names[0]@ + " 等 "@ + decimal(names.len()) + " 个节点"@
    } else if names.len() == 1 {
        names[0]@
    } else {
        "未命名节点"@
    }
}

/// The label of a library entry: for two or more nodes, the first node's
/// name followed by " 等 ", the number of nodes and " 个节点", so it is longer
/// than the first name alone; a single node is shown by its name; without
/// nodes the entry is "未命名节点".
pub proof fn lemma_entry_label(names: Seq<String>)
    ensures
        names.len() >= 2 ==> entry_label_spec(names) == names[0]@ + " 等 "@ + decimal(names.len())
            + " 个节点"@,
        names.len() >= 2 ==> entry_label_spec(names).len() > names[0]@.len(),
        names.len() >= 2 ==> entry_label_spec(names).take(names[0]@.len() as int) == names[0]@,
        names.len() == 1 ==> entry_label_spec(names) == names[0]@,
        names.len() == 0 ==> entry_label_spec(names) == "未命名节点"@,
{
    reveal_strlit(" 等 ");
    if names.len() >= 2 {
        let label = names[0]@ + " 等 "@ + decimal(names.len()) + " 个节点"@;
        assert(label.take(names[0]@.len() as int) =~= names[0]@);
    }
}

/// Labels a material library entry by its source node names.
pub fn material_entry_label(names: &Vec<String>) -> (r: String)
    ensures
        r@ == entry_label_spec(names@),
{
    let n = names.len();
    if n > 1 {
        let mut label = names[0].clone();
        label.append(" 等 ");
        label.append(decimal_string(n as u64).as_str());
        label.append(" 个节点");
        label
    } else if n == 1 {
        names[0].clone()
    } else {
        "未命名节点".to_owned()
    }
}

/// The heading of the property panel: the shown node's name, with the node
/// count when the material has several nodes.
pub open spec fn primitive_heading_spec(shown: Option<Seq<char>>, count: nat) -> Seq<char> {
    match shown {
        Some(name) => if count > 1 {
            name + " 等 "@ + decimal(count) + " 个 primitive"@
        } else {
            name
        },
        None => "未命名 primitive"@,
    }
}

/// The heading for the node shown in the property panel.
pub fn primitive_heading(shown: Option<&str>, count: usize) -> (r: String)
    ensures
        r@ == primitive_heading_spec(
            match shown {
                Some(s) => Some(s@),
                None => None,
            },
            count as nat,
        ),
{
    match shown {
        Some(name) => if count > 1 {
            let mut label = name.to_owned();
            label.append(" 等 ");
            label.append(decimal_string(count as u64).as_str());
            label.append(" 个 primitive");
            label
        } else {
            name.to_owned()
        },
        None => "未命名 primitive".to_owned(),
    }
}

/// The note under the first four listed nodes: how many more there are.
pub fn hidden_nodes_note(count: usize) -> (r: Option<String>)
    ensures
        count > 4 ==> r is Some && r->0@ == "还有 "@ + decimal((count - 4) as nat)
            + " 个 primitive..."@,
        count <= 4 ==> r is None,
{
    if count > 4 {
        let mut note = "还有 ".to_owned();
        note.append(decimal_string((count - 4) as u64).as_str());
        note.append(" 个 primitive...");
        Some(note)
    } else {
        None
    }
}

/// A texture path that holds only whitespace counts as no texture.
pub open spec fn normalized_text(value: Option<String>) -> Option<String> {
    match value {
        Some(text) => if trimmed(text@).len() == 0 {
            None
        } else {
            Some(text)
        },
        None => None,
    }
}

/// Drops a text that holds only whitespace.
pub fn normalize_optional_string(value: &mut Option<String>)
    ensures
        *final(value) == normalized_text(*old(value)),
{
    let blank = match value {
        Some(text) => trim(text.as_str()).as_str().unicode_len() == 0,
        None => false,
    };
    if blank {
        *value = None;
    }
}

/// The resources with blank texture paths dropped.
pub fn normalize_render_part_resources(resources: RenderPartResources) -> (r: RenderPartResources)
    ensures
        r.base_color_texture == normalized_text(resources.base_color_texture),
        r.face_shadow_texture == normalized_text(resources.face_shadow_texture),
{
    let mut resources = resources;
    normalize_optional_string(&mut resources.base_color_texture);
    normalize_optional_string(&mut resources.face_shadow_texture);
    resources
}

/// The selected ramp stop, kept inside the stops (0 when there are none).
pub fn clamp_stop_index(index: usize, len: usize) -> (r: usize)
    ensures
        r == (if len == 0 {
            0
        } else if index < len {
            index
        } else {
            (len - 1) as usize
        }),
{
    let last = if len == 0 {
        0
    } else {
        len - 1
    };
    if index < last {
        index
    } else {
        last
    }
}

/// Adds a ramp stop at the end and selects it.
pub fn add_ramp_stop<T>(stops: &mut Vec<T>, stop: T, selected: &mut usize)
    requires
        old(stops)@.len() < usize::MAX,
    ensures
        final(stops)@ == old(stops)@.push(stop),
        *final(selected) == old(stops)@.len(),
        *final(selected) < final(stops)@.len(),
{
    stops.push(stop);
    *selected = stops.len() - 1;
}

/// Removes the selected ramp stop, keeping at least two; the selection
/// moves to a stop that still exists. Returns whether a stop was removed.
pub fn remove_ramp_stop<T>(stops: &mut Vec<T>, selected: &mut usize) -> (removed: bool)
    requires
        *old(selected) < old(stops)@.len(),
    ensures
        removed == (old(stops)@.len() > 2),
        *final(selected) < final(stops)@.len(),
        old(stops)@.len() >= 2 ==> final(stops)@.len() >= 2,
        removed ==> final(stops)@ == old(stops)@.remove(*old(selected) as int),
        !removed ==> final(stops)@ == old(stops)@ && *final(selected) == *old(selected),
        removed ==> *final(selected) == (if *old(selected) < final(stops)@.len() {
            *old(selected)
        } else {
            (final(stops)@.len() - 1) as usize
        }),
{
    if stops.len() > 2 {
        stops.remove(*selected);
        *selected = clamp_stop_index(*selected, stops.len());
        true
    } else {
        false
    }
}

/// The first of the nodes, in order, that the profile binds; `None` when
/// it binds none of them.
pub open spec fn first_bound_node(
    parts: Seq<RenderPartBinding>,
    names: Seq<String>,
    found: Option<RenderPartBinding>,
) -> bool {
    match found {
        Some(p) => exists|i: int|
            0 <= i < names.len() && found_part(parts, names[i]@, Some(p)) && forall|j: int|
                0 <= j < i ==> has_no_key(parts, #[trigger] names[j]@),
        None => forall|j: int| 0 <= j < names.len() ==> has_no_key(parts, #[trigger] names[j]@),
    }
}

/// The binding of the first of `node_names` that the profile has.
pub fn find_part_for_nodes<'a>(profile: &'a CharacterRenderProfile, node_names: &Vec<String>) -> (r:
    Option<&'a RenderPartBinding>)
    ensures
        first_bound_node(
            profile.parts@,
            node_names@,
            match r {
                Some(p) => Some(*p),
                None => None,
            },
        ),
{
    let n = node_names.len();
    let mut i: usize = 0;
    while i < n
        invariant
            n == node_names.len(),
            i <= n,
            forall|j: int| 0 <= j < i ==> has_no_key(profile.parts@, #[trigger] node_names@[j]@),
        decreases n - i,
    {
        match profile.find_part(node_names[i].as_str()) {
            Some(part) => {
                return Some(part);
            },
            None => {},
        }
        i += 1;
    }
    None
}

/// `after` is `before` with `parts` upserted one after the other.
pub open spec fn upsert_chain(
    before: Seq<RenderPartBinding>,
    parts: Seq<RenderPartBinding>,
    after: Seq<RenderPartBinding>,
) -> bool
    decreases parts.len(),
{
    if parts.len() == 0 {
        after == before
    } else {
        exists|mid: Seq<RenderPartBinding>|
            upsert_chain(before, parts.drop_last(), mid) && #[trigger] upserted(
                mid,
                parts.last(),
                after,
            )
    }
}

/// The part that binds `node_name` with the given shader, textures and parameters.
pub open spec fn node_part(
    part: RenderPartBinding,
    node_name: Seq<char>,
    shader_key: Seq<char>,
    resources: RenderPartResources,
    params: ron::Value,
) -> bool {
    &&& part.binding_key@ == node_name
    &&& part.shader_key@ == shader_key
    &&& part.resources == resources
    &&& part.params == params
}

/// Binds every node of a material to the same shader, textures and
/// parameters, one upsert per node in order.
pub fn bind_source_nodes(
    profile: &mut CharacterRenderProfile,
    node_names: &Vec<String>,
    shader_key: &str,
    resources: &RenderPartResources,
    params: &ron::Value,
)
    ensures
        exists|parts: Seq<RenderPartBinding>|
            {
                &&& parts.len() == node_names@.len()
                &&& forall|i: int|
                    0 <= i < parts.len() ==> node_part(
                        #[trigger] parts[i],
                        node_names@[i]@,
                        shader_key@,
                        *resources,
                        *params,
                    )
                &&& upsert_chain(old(profile).parts@, parts, final(profile).parts@)
            },
        final(profile).version == old(profile).version,
        final(profile).model_binding == old(profile).model_binding,
        final(profile).shared == old(profile).shared,
{
    let n = node_names.len();
    let mut i: usize = 0;
    let ghost mut parts: Seq<RenderPartBinding> = Seq::empty();
    while i < n
        invariant
            n == node_names.len(),
            i <= n,
            parts.len() == i,
            forall|k: int|
                0 <= k < parts.len() ==> node_part(
                    #[trigger] parts[k],
                    node_names@[k]@,
                    shader_key@,
                    *resources,
                    *params,
                ),
            upsert_chain(old(profile).parts@, parts, profile.parts@),
            profile.version == old(profile).version,
            profile.model_binding == old(profile).model_binding,
            profile.shared == old(profile).shared,
        decreases n - i,
    {
        let part = RenderPartBinding {
            binding_key: node_names[i].clone(),
            shader_key: shader_key.to_owned(),
            resources: resources.clone(),
            params: clone_params(params),
        };
        let ghost mid = profile.parts@;
        let ghost g_part = part;
        profile.upsert_part(part);
        proof {
            let next = parts.push(g_part);
            assert(next.drop_last() =~= parts);
            assert(upserted(mid, next.last(), profile.parts@));
            assert(upsert_chain(old(profile).parts@, next, profile.parts@));
            parts = next;
        }
        i += 1;
    }
}

/// Looking up `name` in `parts` yields a part that binds it with the given
/// shader, textures and parameters.
pub open spec fn bound_as(
    parts: Seq<RenderPartBinding>,
    name: Seq<char>,
    shader_key: Seq<char>,
    resources: RenderPartResources,
    params: ron::Value,
) -> bool {
    exists|p: RenderPartBinding|
        found_part(parts, name, Some(p)) && node_part(p, name, shader_key, resources, params)
}

/// After the nodes of a material are bound, looking up any of them yields a
/// part with the bound shader, textures and parameters.
pub proof fn lemma_bound_nodes_found(
    before: Seq<RenderPartBinding>,
    parts: Seq<RenderPartBinding>,
    after: Seq<RenderPartBinding>,
    names: Seq<String>,
    shader_key: Seq<char>,
    resources: RenderPartResources,
    params: ron::Value,
)
    requires
        upsert_chain(before, parts, after),
        parts.len() == names.len(),
        forall|i: int|
            0 <= i < parts.len() ==> node_part(
                #[trigger] parts[i],
                names[i]@,
                shader_key,
                resources,
                params,
            ),
    ensures
        forall|i: int|
            0 <= i < names.len() ==> bound_as(after, #[trigger] names[i]@, shader_key, resources, params),
    decreases parts.len(),
{
    if parts.len() > 0 {
        let last = parts.last();
        let k = parts.len() - 1;
        let mid = choose|mid: Seq<RenderPartBinding>|
            upsert_chain(before, parts.drop_last(), mid) && #[trigger] upserted(mid, last, after);
        let names_before = names.drop_last();
        assert forall|i: int| 0 <= i < parts.drop_last().len() implies node_part(
            #[trigger] parts.drop_last()[i],
            names_before[i]@,
            shader_key,
            resources,
            params,
        ) by {
            assert(parts.drop_last()[i] == parts[i]);
            assert(names_before[i] == names[i]);
        }
        lemma_bound_nodes_found(before, parts.drop_last(), mid, names_before, shader_key, resources, params);
        lemma_upsert_then_find(mid, last, after);
        assert(node_part(parts[k], names[k]@, shader_key, resources, params));
        assert forall|i: int| 0 <= i < names.len() implies bound_as(
            after,
            #[trigger] names[i]@,
            shader_key,
            resources,
            params,
        ) by {
            if names[i]@ == last.binding_key@ {
                assert(found_part(after, names[i]@, Some(last)));
                assert(node_part(last, names[i]@, shader_key, resources, params));
            } else {
                assert(names_before[i] == names[i]);
                assert(bound_as(mid, names_before[i]@, shader_key, resources, params));
                let p = choose|p: RenderPartBinding|
                    found_part(mid, names[i]@, Some(p)) && node_part(
                        p,
                        names[i]@,
                        shader_key,
                        resources,
                        params,
                    );
                lemma_upsert_keeps_other_keys(mid, last, after, names[i]@, Some(p));
            }
        }
    }
}

/// Binding the nodes of a material leaves the lookup of every other binding
/// key as it was.
pub proof fn lemma_bound_nodes_keep_others(
    before: Seq<RenderPartBinding>,
    parts: Seq<RenderPartBinding>,
    after: Seq<RenderPartBinding>,
    key: Seq<char>,
    found: Option<RenderPartBinding>,
)
    requires
        upsert_chain(before, parts, after),
        forall|i: int| 0 <= i < parts.len() ==> (#[trigger] parts[i]).binding_key@ != key,
        found_part(before, key, found),
    ensures
        found_part(after, key, found),
    decreases parts.len(),
{
    if parts.len() > 0 {
        let last = parts.last();
        let mid = choose|mid: Seq<RenderPartBinding>|
            upsert_chain(before, parts.drop_last(), mid) && #[trigger] upserted(mid, last, after);
        assert forall|i: int| 0 <= i < parts.drop_last().len() implies (
        #[trigger] parts.drop_last()[i]).binding_key@ != key by {
            assert(parts.drop_last()[i] == parts[i]);
        }
        lemma_bound_nodes_keep_others(before, parts.drop_last(), mid, key, found);
        assert(parts[parts.len() - 1].binding_key@ != key);
        lemma_upsert_keeps_other_keys(mid, last, after, key, found);
    }
}

/// The positions `0..n`.
pub open spec fn positions(n: nat) -> Seq<usize> {
    Seq::new(n, |i: int| i as usize)
}

/// The node shown in the property panel: the selected primitive's first node
/// when the material has it, else the material's first node.
pub fn shown_source_index(entities: &Vec<u64>, selected: Option<u64>) -> (r: Option<usize>)
    ensures
        (selected is Some && entities@.contains(selected->0)) ==> r is Some && r->0 < entities@.len()
            && entities@[r->0 as int] == selected->0 && forall|j: int|
            0 <= j < r->0 ==> entities@[j] != selected->0,
        !(selected is Some && entities@.contains(selected->0)) ==> r == (if entities@.len() > 0 {
            Some(0usize)
        } else {
            None
        }),
{
    let n = entities.len();
    if let Some(p) = selected {
        let mut i: usize = 0;
        while i < n
            invariant
                n == entities.len(),
                i <= n,
                selected == Some(p),
                forall|j: int| 0 <= j < i ==> entities@[j] != p,
            decreases n - i,
        {
            if entities[i] == p {
                return Some(i);
            }
            i += 1;
        }
    }
    if n > 0 {
        Some(0)
    } else {
        None
    }
}

/// Positions whose primitive is not the shown one.
pub open spec fn other_than(entities: Seq<u64>, shown: int) -> spec_fn(usize) -> bool {
    |k: usize| entities[k as int] != entities[shown]
}

/// The nodes listed under the preview: the shown node, then the nodes of the
/// other primitives in order, at most four in all.
pub open spec fn listed_nodes_spec(entities: Seq<u64>, shown: int) -> Seq<usize> {
    let all = seq![shown as usize] + positions(entities.len()).filter(other_than(entities, shown));
    all.take(if all.len() < 4 {
        all.len() as int
    } else {
        4
    })
}

/// Lists the nodes shown under the preview of a material, by position.
pub fn listed_nodes(entities: &Vec<u64>, shown: usize) -> (r: Vec<usize>)
    requires
        shown < entities@.len(),
    ensures
        r@ == listed_nodes_spec(entities@, shown as int),
{
    let n = entities.len();
    let mut out: Vec<usize> = Vec::new();
    out.push(shown);
    let ghost pred = other_than(entities@, shown as int);
    let mut i: usize = 0;
    proof {
        reveal(Seq::filter);
        assert(positions(0).filter(pred) =~= Seq::<usize>::empty());
        assert(out@ =~= seq![shown] + positions(0).filter(pred));
    }
    while i < n
        invariant
            n == entities.len(),
            i <= n,
            shown < n,
            pred == other_than(entities@, shown as int),
            out@ == seq![shown] + positions(i as nat).filter(pred),
        decreases n - i,
    {
        let keep = entities[i] != entities[shown];
        if keep {
            out.push(i);
        }
        proof {
            reveal(Seq::filter);
            let next = positions((i + 1) as nat);
            assert(next.drop_last() =~= positions(i as nat));
            assert(next.last() == i);
            if keep {
                assert(out@ =~= seq![shown] + next.filter(pred));
            } else {
                assert(out@ =~= seq![shown] + next.filter(pred));
            }
        }
        i += 1;
    }
    let ghost all = out@;
    out.truncate(4);
    proof {
        if all.len() < 4 {
            assert(out@ =~= all.take(all.len() as int));
        } else {
            assert(out@ =~= all.take(4));
        }
    }
    out
}

/// A material library entry by its position, ordered by its first node's
/// name and entity index; entries without nodes come last.
pub struct PanelEntryKey {
    pub position: usize,
    pub first_node: Option<(String, u32)>,
}

impl SortKey for PanelEntryKey {
    open spec fn precedes(&self, other: &Self) -> bool {
        match (self.first_node, other.first_node) {
            (Some(a), Some(b)) => seq_less(a.0@, b.0@) || (a.0@ == b.0@ && a.1 < b.1),
            (Some(_), None) => true,
            _ => false,
        }
    }

    proof fn lemma_asymmetric(a: &Self, b: &Self) {
        match (a.first_node, b.first_node) {
            (Some(x), Some(y)) => {
                if seq_less(x.0@, y.0@) {
                    lemma_seq_less_asymmetric(x.0@, y.0@);
                } else {
                    lemma_seq_less_irreflexive(x.0@);
                }
            },
            _ => {},
        }
    }

    proof fn lemma_bridge(a: &Self, b: &Self, c: &Self) {
        match (a.first_node, b.first_node, c.first_node) {
            (Some(x), Some(y), Some(z)) => {
                lemma_seq_less_total(z.0@, y.0@);
                if seq_less(x.0@, y.0@) && z.0@ != y.0@ {
                    lemma_seq_less_transitive(x.0@, y.0@, z.0@);
                }
            },
            _ => {},
        }
    }

    fn goes_before(&self, other: &Self) -> (r: bool) {
        match (&self.first_node, &other.first_node) {
            (Some(a), Some(b)) => str_less(a.0.as_str(), b.0.as_str()) || (str_eq(
                a.0.as_str(),
                b.0.as_str(),
            ) && a.1 < b.1),
            (Some(_), None) => true,
            _ => false,
        }
    }
}

/// Orders the material library entries, keeping the order of equal ones.
pub fn sort_panel_entries(entries: &mut Vec<PanelEntryKey>)
    ensures
        is_stable_sort_of(old(entries)@, final(entries)@),
{
    stable_sort(entries);
}

/// A material library entry: its entity and the primitives it groups.
pub struct PanelEntry {
    pub entity: u64,
    pub primitives: MaterialPanelSelectionEntry,
}

/// The selected entry is one of the listed entries.
pub open spec fn selection_listed(selected: Option<u64>, entries: Seq<PanelEntry>) -> bool {
    match selected {
        Some(s) => exists|i: int| 0 <= i < entries.len() && (#[trigger] entries[i]).entity == s,
        None => false,
    }
}

/// Selects the first listed entry when the selected entry is not listed.
pub fn ensure_panel_selection(selection: &mut MaterialSelectionState, entries: &Vec<PanelEntry>)
    ensures
        (selection_listed(old(selection).selected_panel_entity, entries@) || entries@.len() == 0)
            ==> *final(selection) == *old(selection),
        !(selection_listed(old(selection).selected_panel_entity, entries@) || entries@.len() == 0)
            ==> final(selection).selected_panel_entity == Some(entries@[0].entity)
            && final(selection).selected_primitive_entity == primitive_after_panel_selection(
            old(selection).selected_primitive_entity,
            entries@[0].primitives.primitive_entities@,
        ),
        entries@.len() > 0 ==> selection_listed(final(selection).selected_panel_entity, entries@),
{
    let n = entries.len();
    let mut listed = false;
    if let Some(s) = selection.selected_panel_entity {
        let mut i: usize = 0;
        while i < n && !listed
            invariant
                n == entries.len(),
                i <= n,
                listed ==> exists|j: int| 0 <= j < n && (#[trigger] entries@[j]).entity == s,
                !listed ==> forall|j: int| 0 <= j < i ==> (#[trigger] entries@[j]).entity != s,
            decreases n - i,
        {
            if entries[i].entity == s {
                listed = true;
            }
            i += 1;
        }
        proof {
            if listed {
                assert(selection_listed(selection.selected_panel_entity, entries@));
            }
        }
    }
    if !listed && n > 0 {
        selection.select_panel_entry(entries[0].entity, &entries[0].primitives);
    }
}

/// A toon mesh that may get a material library entry: its primitive entity
/// and (a key of) its material.
pub struct PreviewCandidate {
    pub primitive_entity: u64,
    pub material: u64,
}

/// Candidate `i` is the first of its material in this batch, and its
/// material has no entry yet.
pub open spec fn starts_entry(candidates: Seq<PreviewCandidate>, existing: Seq<u64>, i: int) -> bool {
    &&& !existing.contains(candidates[i].material)
    &&& forall|j: int| 0 <= j < i ==> (#[trigger] candidates[j]).material != candidates[i].material
}

pub open spec fn starts_entry_at(candidates: Seq<PreviewCandidate>, existing: Seq<u64>) -> spec_fn(
    usize,
) -> bool {
    |k: usize| starts_entry(candidates, existing, k as int)
}

/// The candidates that get a new library entry, in order: one per material
/// that has none yet, its first mesh in this batch.
pub fn new_preview_candidates(candidates: &Vec<PreviewCandidate>, existing: &Vec<u64>) -> (r: Vec<
    usize,
>)
    ensures
        r@ == positions(candidates@.len()).filter(starts_entry_at(candidates@, existing@)),
{
    let n = candidates.len();
    let mut seen: Vec<u64> = Vec::new();
    let mut out: Vec<usize> = Vec::new();
    let ghost pred = starts_entry_at(candidates@, existing@);
    let mut i: usize = 0;
    proof {
        reveal(Seq::filter);
        assert(positions(0).filter(pred) =~= Seq::<usize>::empty());
    }
    while i < n
        invariant
            n == candidates.len(),
            i <= n,
            pred == starts_entry_at(candidates@, existing@),
            out@ == positions(i as nat).filter(pred),
            forall|m: u64|
                seen@.contains(m) <==> (exists|j: int|
                    0 <= j < i && (#[trigger] candidates@[j]).material == m),
        decreases n - i,
    {
        let material = candidates[i].material;
        let fresh = !contains_entity(existing, material) && !contains_entity(&seen, material);
        proof {
            if !seen@.contains(material) {
                assert forall|j: int| 0 <= j < i implies (
                #[trigger] candidates@[j]).material != candidates@[i as int].material by {}
            }
            assert(fresh == starts_entry(candidates@, existing@, i as int));
        }
        if fresh {
            out.push(i);
        }
        let ghost before_seen = seen@;
        seen.push(material);
        proof {
            reveal(Seq::filter);
            let next = positions((i + 1) as nat);
            assert(next.drop_last() =~= positions(i as nat));
            assert(next.last() == i);
            assert(out@ =~= next.filter(pred));
            assert forall|m: u64| seen@.contains(m) <==> (exists|j: int|
                0 <= j < i + 1 && (#[trigger] candidates@[j]).material == m) by {
                if seen@.contains(m) && m != material {
                    let w = choose|w: int| 0 <= w < seen@.len() && seen@[w] == m;
                    assert(before_seen[w] == m);
                }
                if before_seen.contains(m) {
                    let w = choose|w: int| 0 <= w < before_seen.len() && before_seen[w] == m;
                    assert(seen@[w] == m);
                }
                if m == material {
                    assert(seen@[seen@.len() - 1] == m);
                }
            }
        }
        i += 1;
    }
    out
}

/// Filtering the positions `0..n` keeps them increasing and below `n`.
proof fn lemma_filtered_positions_increase(n: nat, pred: spec_fn(usize) -> bool)
    requires
        n <= usize::MAX,
    ensures
        forall|a: int|
            0 <= a < positions(n).filter(pred).len() ==> #[trigger] positions(n).filter(pred)[a] < n,
        forall|a: int, b: int|
            0 <= a < b < positions(n).filter(pred).len() ==> positions(n).filter(pred)[a]
                < positions(n).filter(pred)[b],
    decreases n,
{
    if n > 0 {
        let m = (n - 1) as nat;
        lemma_filtered_positions_increase(m, pred);
        assert(positions(n) =~= positions(m).push(m as usize));
        positions(m).lemma_filter_push(m as usize, pred);
        let before = positions(m).filter(pred);
        let after = positions(n).filter(pred);
        if pred(m as usize) {
            assert(after == before.push(m as usize));
            assert forall|a: int| 0 <= a < after.len() implies #[trigger] after[a] < n by {
                if a < before.len() {
                    assert(after[a] == before[a]);
                }
            }
            assert forall|a: int, b: int| 0 <= a < b < after.len() implies after[a] < after[b] by {
                assert(after[a] == before[a]);
                if b < before.len() {
                    assert(after[b] == before[b]);
                }
            }
        } else {
            assert(after == before);
        }
    } else {
        reveal(Seq::filter);
        assert(positions(0).filter(pred) =~= Seq::<usize>::empty());
    }
}

/// The first candidate at or before `k` with the material of candidate `k`.
proof fn first_with_material(candidates: Seq<PreviewCandidate>, k: int) -> (f: int)
    requires
        0 <= k < candidates.len(),
    ensures
        0 <= f <= k,
        candidates[f].material == candidates[k].material,
        forall|j: int| 0 <= j < f ==> (#[trigger] candidates[j]).material != candidates[k].material,
    decreases k,
{
    if exists|j: int| 0 <= j < k && candidates[j].material == candidates[k].material {
        let j = choose|j: int| 0 <= j < k && candidates[j].material == candidates[k].material;
        first_with_material(candidates, j)
    } else {
        k
    }
}

/// One new library entry per material: the listed candidates are in order,
/// their materials differ from each other and have no entry yet, and every
/// candidate whose material has no entry yet shares its material with one
/// listed candidate.
pub proof fn lemma_one_preview_per_material(
    candidates: Seq<PreviewCandidate>,
    existing: Seq<u64>,
    listed: Seq<usize>,
)
    requires
        candidates.len() <= usize::MAX,
        listed == positions(candidates.len()).filter(starts_entry_at(candidates, existing)),
    ensures
        forall|a: int|
            0 <= a < listed.len() ==> #[trigger] listed[a] < candidates.len() && !existing.contains(
                candidates[listed[a] as int].material,
            ),
        forall|a: int, b: int|
            0 <= a < b < listed.len() ==> listed[a] < listed[b] && candidates[listed[a] as int].material
                != candidates[listed[b] as int].material,
        forall|k: int|
            0 <= k < candidates.len() && !existing.contains(#[trigger] candidates[k].material)
                ==> exists|a: int|
                0 <= a < listed.len() && candidates[listed[a] as int].material == candidates[k].material,
{
    let n = candidates.len();
    let pred = starts_entry_at(candidates, existing);
    lemma_filtered_positions_increase(n, pred);
    broadcast use vstd::seq_lib::group_filter_ensures;

    assert forall|a: int| 0 <= a < listed.len() implies #[trigger] listed[a] < candidates.len()
        && !existing.contains(candidates[listed[a] as int].material) by {
        assert(pred(listed[a]));
    }
    assert forall|a: int, b: int| 0 <= a < b < listed.len() implies listed[a] < listed[b]
        && candidates[listed[a] as int].material != candidates[listed[b] as int].material by {
        assert(pred(listed[b]));
        assert(starts_entry(candidates, existing, listed[b] as int));
    }
    assert forall|k: int|
        0 <= k < candidates.len() && !existing.contains(#[trigger] candidates[k].material) implies exists|a: int|
        0 <= a < listed.len() && candidates[listed[a] as int].material == candidates[k].material by {
        let f = first_with_material(candidates, k);
        assert(starts_entry(candidates, existing, f));
        assert(positions(n)[f] == f as usize);
        assert(pred(positions(n)[f]));
        assert(listed.contains(positions(n)[f]));
        let a = choose|a: int| 0 <= a < listed.len() && listed[a] == f as usize;
        assert(candidates[listed[a] as int].material == candidates[k].material);
    }
}

/// The node name a library entry shows for a primitive: the name it was
/// bound under, else its entity name, else `primitive {index}`.
pub fn preview_node_name(bound_name: Option<&str>, entity_name: Option<&str>, index: u32) -> (r:
    String)
    ensures
        match bound_name {
            Some(b) => r@ == b@,
            None => match entity_name {
                Some(e) => r@ == e@,
                None => r@ == "primitive "@ + decimal(index as nat),
            },
        },
{
    match bound_name {
        Some(b) => b.to_owned(),
        None => match entity_name {
            Some(e) => e.to_owned(),
            None => {
                let mut label = "primitive ".to_owned();
                label.append(decimal_string(index as u64).as_str());
                label
            },
        },
    }
}

/// The shader key a library entry starts with: the key the primitive was
/// bound with, else `character_surface`.
pub fn preview_shader_key(source: Option<&ToonMaterialBindingSource>) -> (r: String)
    ensures
        match source {
            Some(s) => r@ == s.shader_key@,
            None => r@ == CHARACTER_SURFACE_SHADER_KEY@,
        },
{
    match source {
        Some(s) => s.shader_key.clone(),
        None => CHARACTER_SURFACE_SHADER_KEY.to_owned(),
    }
}

/// The render profile file of a library entry, when its material comes from
/// a scene asset.
pub fn binding_file_path(scene_asset_path: Option<&str>) -> (r: Option<String>)
    ensures
        match scene_asset_path {
            Some(scene) => r is Some && r->0@ == render_profile_path(scene@),
            None => r is None,
        },
{
    match scene_asset_path {
        Some(scene) => Some(character_render_profile_path(scene)),
        None => None,
    }
}

/// The profile that the edited material is bound into: the profile of its
/// scene asset, else the one read from the binding file, else a fresh one at
/// the current version; in each case bound to the material's scene asset.
pub fn profile_to_bind(
    from_scene: Option<CharacterRenderProfile>,
    from_file: Option<CharacterRenderProfile>,
    scene_asset_path: Option<String>,
) -> (r: CharacterRenderProfile)
    ensures
        r.model_binding.scene_asset_path == scene_asset_path,
        match from_scene {
            Some(p) => r.version == p.version && r.shared == p.shared && r.parts == p.parts,
            None => match from_file {
                Some(p) => r.version == p.version && r.shared == p.shared && r.parts == p.parts,
                None => r.version == PROFILE_VERSION && r.shared.scalar_override_bits@.len() == 0
                    && r.parts@.len() == 0,
            },
        },
        (match from_scene {
            Some(p) => p.shared.well_formed(),
            None => match from_file {
                Some(p) => p.shared.well_formed(),
                None => true,
            },
        }) ==> r.shared.well_formed(),
{
    let mut profile = match from_scene {
        Some(p) => p,
        None => match from_file {
            Some(p) => p,
            None => CharacterRenderProfile {
                version: PROFILE_VERSION,
                model_binding: ModelBinding { scene_asset_path: None },
                shared: SharedRenderProfile { scalar_override_bits: Vec::new() },
                parts: Vec::new(),
            },
        },
    };
    profile.model_binding = ModelBinding { scene_asset_path };
    profile
}

} // verus!
