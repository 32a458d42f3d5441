//! Debug gizmo switches, the wireframe highlight of the selected primitives,
//! the global outline toggle and the light-editing circle.
use vstd::prelude::*;
use crate::selection::contains_entity;

verus! {

/// Which debug gizmos are drawn.
pub struct DebugGizmoSettings {
    pub enabled: bool,
    pub show_character_bounds: bool,
    pub show_character_bounds_axes: bool,
    pub show_selected_primitives: bool,
    pub show_debug_cameras: bool,
    pub show_orbiting_light: bool,
}

impl Default for DebugGizmoSettings {
    fn default() -> (r: Self)
        ensures
            !r.enabled,
            r.show_character_bounds,
            !r.show_character_bounds_axes,
            r.show_selected_primitives,
            r.show_debug_cameras,
            r.show_orbiting_light,
    {
        DebugGizmoSettings {
            enabled: false,
            show_character_bounds: true,
            show_character_bounds_axes: false,
            show_selected_primitives: true,
            show_debug_cameras: true,
            show_orbiting_light: true,
        }
    }
}

impl DebugGizmoSettings {
    /// The hotkey flips the global switch and nothing else.
    pub fn toggle_enabled(&mut self)
        ensures
            final(self).enabled == !old(self).enabled,
            final(self).show_character_bounds == old(self).show_character_bounds,
            final(self).show_character_bounds_axes == old(self).show_character_bounds_axes,
            final(self).show_selected_primitives == old(self).show_selected_primitives,
            final(self).show_debug_cameras == old(self).show_debug_cameras,
            final(self).show_orbiting_light == old(self).show_orbiting_light,
    {
        self.enabled = !self.enabled;
    }

    /// Whether the selected primitives are highlighted.
    pub fn shows_selected_primitives(&self) -> (r: bool)
        ensures
            r == (self.enabled && self.show_selected_primitives),
    {
        self.enabled && self.show_selected_primitives
    }
}

/// A primitive that carries the selection highlight, with the wireframe
/// parts it still has.
pub struct HighlightedPrimitive {
    pub entity: u64,
    pub has_wireframe: bool,
    pub has_color: bool,
}

/// What to change so that exactly the shown selected primitives carry the
/// highlight: the entities to strip and the entities to (re)highlight.
pub struct WireframePlan {
    pub remove: Vec<u64>,
    pub insert: Vec<u64>,
}

pub open spec fn is_highlighted(highlighted: Seq<HighlightedPrimitive>, e: u64) -> bool {
    exists|i: int| 0 <= i < highlighted.len() && (#[trigger] highlighted[i]).entity == e
}

pub open spec fn is_incomplete(highlighted: Seq<HighlightedPrimitive>, e: u64) -> bool {
    exists|i: int|
        0 <= i < highlighted.len() && (#[trigger] highlighted[i]).entity == e && (
        !highlighted[i].has_wireframe || !highlighted[i].has_color)
}

/// A primitive should carry the highlight.
pub open spec fn wanted(show: bool, selected: Seq<u64>, e: u64) -> bool {
    show && selected.contains(e)
}

/// Plans the highlight update. `show` says whether selected primitives are
/// highlighted at all. Highlighted primitives that are no longer wanted lose
/// the highlight; wanted ones get it when they lack it or part of it.
pub fn selected_wireframe_plan(
    show: bool,
    selected: &Vec<u64>,
    highlighted: &Vec<HighlightedPrimitive>,
) -> (r: WireframePlan)
    ensures
        forall|e: u64|
            r.remove@.contains(e) <==> is_highlighted(highlighted@, e) && !wanted(
                show,
                selected@,
                e,
            ),
        forall|e: u64|
            r.insert@.contains(e) <==> wanted(show, selected@, e) && (!is_highlighted(
                highlighted@,
                e,
            ) || is_incomplete(highlighted@, e)),
{
    let mut remove: Vec<u64> = Vec::new();
    let mut insert: Vec<u64> = Vec::new();
    let n = highlighted.len();
    let mut i: usize = 0;
    while i < n
        invariant
            n == highlighted.len(),
            i <= n,
            forall|e: u64|
                remove@.contains(e) <==> (exists|k: int|
                    0 <= k < i && (#[trigger] highlighted@[k]).entity == e) && !wanted(show, selected@, e),
            forall|e: u64|
                insert@.contains(e) <==> wanted(show, selected@, e) && (exists|k: int|
                    0 <= k < i && (#[trigger] highlighted@[k]).entity == e && (
                    !highlighted@[k].has_wireframe || !highlighted@[k].has_color)),
        decreases n - i,
    {
        let h = &highlighted[i];
        let keep = show && contains_entity(selected, h.entity);
        let ghost before_remove = remove@;
        let ghost before_insert = insert@;
        if !keep {
            remove.push(h.entity);
        } else if !h.has_wireframe || !h.has_color {
            insert.push(h.entity);
        }
        proof {
            assert forall|e: u64| remove@.contains(e) <==> (exists|k: int|
                0 <= k < i + 1 && (#[trigger] highlighted@[k]).entity == e) && !wanted(show, selected@, e) by {
                if remove@.contains(e) && !before_remove.contains(e) {
                    assert(highlighted@[i as int].entity == e);
                }
                if (exists|k: int| 0 <= k < i + 1 && (#[trigger] highlighted@[k]).entity == e) && !wanted(
                    show,
                    selected@,
                    e,
                ) {
                    let k = choose|k: int| 0 <= k < i + 1 && (#[trigger] highlighted@[k]).entity == e;
                    if k == i {
                        assert(remove@.last() == e);
                        assert(remove@.contains(e));
                    } else {
                        assert(before_remove.contains(e));
                        let w = choose|w: int| 0 <= w < before_remove.len() && before_remove[w] == e;
                        assert(remove@[w] == e);
                    }
                }
                if before_remove.contains(e) {
                    let w = choose|w: int| 0 <= w < before_remove.len() && before_remove[w] == e;
                    assert(remove@[w] == e);
                }
            }
            assert forall|e: u64| insert@.contains(e) <==> wanted(show, selected@, e) && (exists|k: int|
                0 <= k < i + 1 && (#[trigger] highlighted@[k]).entity == e && (
                !highlighted@[k].has_wireframe || !highlighted@[k].has_color)) by {
                if insert@.contains(e) && !before_insert.contains(e) {
                    assert(highlighted@[i as int].entity == e);
                }
                if wanted(show, selected@, e) && (exists|k: int|
                    0 <= k < i + 1 && (#[trigger] highlighted@[k]).entity == e && (
                    !highlighted@[k].has_wireframe || !highlighted@[k].has_color)) {
                    let k = choose|k: int|
                        0 <= k < i + 1 && (#[trigger] highlighted@[k]).entity == e && (
                        !highlighted@[k].has_wireframe || !highlighted@[k].has_color);
                    if k == i {
                        assert(insert@.last() == e);
                        assert(insert@.contains(e));
                    } else {
                        assert(before_insert.contains(e));
                        let w = choose|w: int| 0 <= w < before_insert.len() && before_insert[w] == e;
                        assert(insert@[w] == e);
                    }
                }
                if before_insert.contains(e) {
                    let w = choose|w: int| 0 <= w < before_insert.len() && before_insert[w] == e;
                    assert(insert@[w] == e);
                }
            }
        }
        i += 1;
    }
    let ghost after_highlight = insert@;
    if show {
        let m = selected.len();
        let mut j: usize = 0;
        while j < m
            invariant
                m == selected.len(),
                n == highlighted.len(),
                j <= m,
                show,
                forall|e: u64|
                    #![trigger insert@.contains(e)]
                    insert@.contains(e) <==> after_highlight.contains(e) || ((exists|w: int|
                        0 <= w < j && #[trigger] selected@[w] == e) && !is_highlighted(highlighted@, e)),
            decreases m - j,
        {
            let e = selected[j];
            let mut seen = false;
            let mut k: usize = 0;
            while k < n
                invariant
                    n == highlighted.len(),
                    k <= n,
                    seen == (exists|t: int| 0 <= t < k && (#[trigger] highlighted@[t]).entity == e),
                decreases n - k,
            {
                if highlighted[k].entity == e {
                    seen = true;
                }
                k += 1;
            }
            let ghost before_insert = insert@;
            if !seen && !contains_entity(&insert, e) {
                insert.push(e);
            }
            proof {
                assert(selected@[j as int] == e);
                assert(seen == is_highlighted(highlighted@, e));
                assert(insert@ == before_insert || insert@ == before_insert.push(e));
                assert forall|x: u64|
                    #![trigger insert@.contains(x)]
                    insert@.contains(x) <==> after_highlight.contains(x) || ((exists|w: int|
                        0 <= w < j + 1 && #[trigger] selected@[w] == x) && !is_highlighted(highlighted@, x)) by {
                    if x == e {
                        assert(selected@[j as int] == x);
                    }
                    if before_insert.contains(x) {
                        let w = choose|w: int| 0 <= w < before_insert.len() && before_insert[w] == x;
                        assert(insert@[w] == x);
                        if !after_highlight.contains(x) {
                            let v = choose|v: int| 0 <= v < j && #[trigger] selected@[v] == x;
                            assert(selected@[v] == x);
                        }
                    }
                    if (exists|w: int| 0 <= w < j + 1 && #[trigger] selected@[w] == x) && !is_highlighted(
                        highlighted@,
                        x,
                    ) && x != e {
                        let v = choose|v: int| 0 <= v < j + 1 && #[trigger] selected@[v] == x;
                        assert(v < j);
                        assert(before_insert.contains(x));
                    }
                    if insert@.contains(x) && !before_insert.contains(x) {
                        let w = choose|w: int| 0 <= w < insert@.len() && insert@[w] == x;
                        if w < before_insert.len() {
                            assert(before_insert[w] == x);
                        }
                        assert(x == e);
                    }
                    if x == e && !seen && !before_insert.contains(x) {
                        assert(insert@[insert@.len() - 1] == x);
                    }
                }
            }
            j += 1;
        }
        proof {
            assert forall|e: u64| wanted(show, selected@, e) implies (exists|w: int|
                0 <= w < m && #[trigger] selected@[w] == e) by {
                let w = choose|w: int| 0 <= w < selected@.len() && selected@[w] == e;
                assert(selected@[w] == e);
            }
        }
    }
    proof {
        assert forall|e: u64| wanted(show, selected@, e) && is_incomplete(highlighted@, e) implies is_highlighted(highlighted@, e) by {
            let k = choose|k: int|
                0 <= k < highlighted@.len() && (#[trigger] highlighted@[k]).entity == e && (
                !highlighted@[k].has_wireframe || !highlighted@[k].has_color);
            assert(highlighted@[k].entity == e);
        }
    }
    proof {
        assert forall|e: u64|
            insert@.contains(e) <==> wanted(show, selected@, e) && (!is_highlighted(highlighted@, e)
                || is_incomplete(highlighted@, e)) by {
            if wanted(show, selected@, e) {
                let w = choose|w: int| 0 <= w < selected@.len() && selected@[w] == e;
                assert(selected@[w] == e);
            }
            if insert@.contains(e) && !after_highlight.contains(e) {
                let w = choose|w: int| 0 <= w < selected@.len() && #[trigger] selected@[w] == e;
                assert(selected@.contains(e));
            }
        }
    }
    WireframePlan { remove, insert }
}

/// After the plan is applied (its removals, then its insertions), the
/// primitives with a selection wireframe are exactly the wanted ones: the
/// selected primitives while they are shown, none otherwise.
pub proof fn lemma_plan_highlights_selection(
    show: bool,
    selected: Seq<u64>,
    highlighted: Seq<HighlightedPrimitive>,
    remove: Seq<u64>,
    insert: Seq<u64>,
)
    requires
        forall|e: u64| remove.contains(e) <==> is_highlighted(highlighted, e) && !wanted(show, selected, e),
        forall|e: u64|
            insert.contains(e) <==> wanted(show, selected, e) && (!is_highlighted(highlighted, e)
                || is_incomplete(highlighted, e)),
    ensures
        forall|e: u64|
            #![trigger wanted(show, selected, e)]
            (is_highlighted(highlighted, e) && !remove.contains(e)) || insert.contains(e)
                <==> wanted(show, selected, e),
{
}

/// The outline switch after the hotkey: every toon material gets the
/// opposite of the first material's switch (on when there is none).
pub open spec fn toggled_outline(flags: Seq<u32>) -> u32 {
    if flags.len() == 0 || flags[0] == 0 {
        1
    } else {
        0
    }
}

/// Flips the outline switch of every toon material together.
pub fn toggle_outline_flags(flags: &mut Vec<u32>)
    ensures
        final(flags)@.len() == old(flags)@.len(),
        forall|i: int| 0 <= i < final(flags)@.len() ==> final(flags)@[i] == toggled_outline(old(flags)@),
{
    let enable: u32 = if flags.len() == 0 || flags[0] == 0 {
        1
    } else {
        0
    };
    let ghost before = flags@;
    let n = flags.len();
    let mut i: usize = 0;
    while i < n
        invariant
            n == flags.len(),
            i <= n,
            enable == toggled_outline(before),
            forall|k: int| 0 <= k < i ==> flags@[k] == enable,
        decreases n - i,
    {
        flags.set(i, enable);
        i += 1;
    }
}

/// After the outline toggle every material agrees, and a second toggle gives
/// every material the switch the first material had before.
pub proof fn lemma_outline_toggle_twice(flags: Seq<u32>, once: Seq<u32>)
    requires
        once.len() == flags.len(),
        forall|i: int| 0 <= i < once.len() ==> once[i] == toggled_outline(flags),
    ensures
        flags.len() > 0 ==> toggled_outline(once) == (if flags[0] == 0 {
            0u32
        } else {
            1u32
        }),
{
}

/// The circle drawn while the light is being rotated.
#[derive(Clone, Copy, Debug, PartialEq, Eq, Structural)]
pub enum OrbitingLightRotationCircle {
    Yaw,
    Pitch,
}

/// Which rotation circle the light gizmo shows.
pub struct OrbitingLightGizmoState {
    pub active_circle: Option<OrbitingLightRotationCircle>,
}

impl Default for OrbitingLightGizmoState {
    fn default() -> (r: Self)
        ensures
            r.active_circle is None,
    {
        OrbitingLightGizmoState { active_circle: None }
    }
}

/// The circle to show while a slider is dragged: yaw before pitch.
pub fn active_circle(yaw_dragged: bool, pitch_dragged: bool) -> (r: Option<
    OrbitingLightRotationCircle,
>)
    ensures
        r == (if yaw_dragged {
            Some(OrbitingLightRotationCircle::Yaw)
        } else if pitch_dragged {
            Some(OrbitingLightRotationCircle::Pitch)
        } else {
            None
        }),
{
    if yaw_dragged {
        Some(OrbitingLightRotationCircle::Yaw)
    } else if pitch_dragged {
        Some(OrbitingLightRotationCircle::Pitch)
    } else {
        None
    }
}

} // verus!
