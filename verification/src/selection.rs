//! Which material panel entry and which scene primitive the editor has
//! selected. Entities are identified by their bits (`Entity::to_bits`).
use vstd::prelude::*;

verus! {

/// The selected material panel entry and primitive.
pub struct MaterialSelectionState {
    pub selected_panel_entity: Option<u64>,
    pub selected_primitive_entity: Option<u64>,
}

impl Default for MaterialSelectionState {
    fn default() -> (r: Self)
        ensures
            r.selected_panel_entity is None,
            r.selected_primitive_entity is None,
    {
        MaterialSelectionState { selected_panel_entity: None, selected_primitive_entity: None }
    }
}

/// The scene primitives that share one material panel entry, in display order.
pub struct MaterialPanelSelectionEntry {
    pub primitive_entities: Vec<u64>,
}

/// The material panel entry that a scene primitive belongs to.
pub struct MaterialPanelEntryRef(pub u64);

/// The first primitive of an entry, if it has any.
pub open spec fn first_primitive(primitives: Seq<u64>) -> Option<u64> {
    if primitives.len() > 0 {
        Some(primitives[0])
    } else {
        None
    }
}

/// The primitive that stays selected when the entry with `primitives` is
/// selected: the current one when it belongs to the entry, else the entry's
/// first primitive.
pub open spec fn primitive_after_panel_selection(current: Option<u64>, primitives: Seq<u64>) -> Option<
    u64,
> {
    match current {
        Some(p) => if primitives.contains(p) {
            Some(p)
        } else {
            first_primitive(primitives)
        },
        None => first_primitive(primitives),
    }
}

/// Whether `entities` holds `entity`.
pub fn contains_entity(entities: &Vec<u64>, entity: u64) -> (r: bool)
    ensures
        r == entities@.contains(entity),
{
    let n = entities.len();
    let mut i: usize = 0;
    while i < n
        invariant
            n == entities.len(),
            i <= n,
            forall|j: int| 0 <= j < i ==> entities@[j] != entity,
        decreases n - i,
    {
        if entities[i] == entity {
            return true;
        }
        i += 1;
    }
    false
}

impl MaterialPanelSelectionEntry {
    /// The primitive shown first for this entry.
    pub fn primary_primitive(&self) -> (r: Option<u64>)
        ensures
            r == first_primitive(self.primitive_entities@),
    {
        if self.primitive_entities.len() > 0 {
            Some(self.primitive_entities[0])
        } else {
            None
        }
    }
}

impl MaterialSelectionState {
    /// Selects a material panel entry, keeping the selected primitive when it
    /// belongs to the entry and falling back to the entry's first primitive.
    pub fn select_panel_entry(&mut self, panel_entity: u64, panel_entry: &MaterialPanelSelectionEntry)
        ensures
            final(self).selected_panel_entity == Some(panel_entity),
            final(self).selected_primitive_entity == primitive_after_panel_selection(
                old(self).selected_primitive_entity,
                panel_entry.primitive_entities@,
            ),
    {
        self.selected_panel_entity = Some(panel_entity);
        let keep = match self.selected_primitive_entity {
            Some(entity) => contains_entity(&panel_entry.primitive_entities, entity),
            None => false,
        };
        if !keep {
            self.selected_primitive_entity = panel_entry.primary_primitive();
        }
    }

    /// Selects a primitive together with the panel entry it belongs to.
    pub fn select_primitive(&mut self, panel_entity: u64, primitive_entity: u64)
        ensures
            final(self).selected_panel_entity == Some(panel_entity),
            final(self).selected_primitive_entity == Some(primitive_entity),
    {
        self.selected_panel_entity = Some(panel_entity);
        self.selected_primitive_entity = Some(primitive_entity);
    }

    /// Forgets the selected primitive; the selected entry stays.
    pub fn clear_selected_primitive(&mut self)
        ensures
            final(self).selected_primitive_entity is None,
            final(self).selected_panel_entity == old(self).selected_panel_entity,
    {
        self.selected_primitive_entity = None;
    }
}

/// After an entry is selected, the selected primitive is one of the entry's
/// primitives, and there is one whenever the entry has primitives.
pub proof fn lemma_panel_selection_stays_in_entry(current: Option<u64>, primitives: Seq<u64>)
    ensures
        match primitive_after_panel_selection(current, primitives) {
            Some(p) => primitives.contains(p),
            None => primitives.len() == 0,
        },
{
    if primitives.len() > 0 {
        assert(primitives[0] == primitives[0]);
        assert(primitives.contains(primitives[0]));
    }
}

/// Selecting the same entry twice selects what selecting it once does.
pub proof fn lemma_panel_selection_idempotent(current: Option<u64>, primitives: Seq<u64>)
    ensures
        primitive_after_panel_selection(primitive_after_panel_selection(current, primitives), primitives)
            == primitive_after_panel_selection(current, primitives),
{
    lemma_panel_selection_stays_in_entry(current, primitives);
}

/// A primitive picked in the scene stays selected when its own entry is
/// selected in the panel afterwards.
pub proof fn lemma_picked_primitive_survives_panel_selection(primitive: u64, primitives: Seq<u64>)
    requires
        primitives.contains(primitive),
    ensures
        primitive_after_panel_selection(Some(primitive), primitives) == Some(primitive),
{
}

/// The material whose primitives the debug gizmos highlight.
pub struct DebugSceneSelection {
    pub selected_material_entity: Option<u64>,
    pub selected_material_primitives: Vec<u64>,
}

impl Default for DebugSceneSelection {
    fn default() -> (r: Self)
        ensures
            r.selected_material_entity is None,
            r.selected_material_primitives@.len() == 0,
    {
        DebugSceneSelection { selected_material_entity: None, selected_material_primitives: Vec::new() }
    }
}

impl DebugSceneSelection {
    /// Highlights nothing.
    pub fn clear_selected_material(&mut self)
        ensures
            final(self).selected_material_entity is None,
            final(self).selected_material_primitives@.len() == 0,
    {
        self.selected_material_entity = None;
        self.selected_material_primitives.clear();
    }

    /// Highlights the primitives of a material.
    pub fn set_selected_material(
        &mut self,
        selected_material_entity: u64,
        selected_material_primitives: Vec<u64>,
    )
        ensures
            final(self).selected_material_entity == Some(selected_material_entity),
            final(self).selected_material_primitives@ == selected_material_primitives@,
    {
        self.selected_material_entity = Some(selected_material_entity);
        self.selected_material_primitives = selected_material_primitives;
    }
}

} // verus!
