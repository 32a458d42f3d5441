//! Picking a primitive in the scene with the left mouse button: a press on a
//! primitive arms a click, dragging too far cancels it, and releasing over the
//! same primitive selects it. The position type `P` is the cursor position,
//! which only the caller measures.
use vstd::prelude::*;

verus! {

/// A click that started on a scene primitive and has not been released yet.
pub struct PendingPrimitiveClick<P> {
    pub primitive_entity: Option<u64>,
    pub panel_entity: Option<u64>,
    pub press_position: Option<P>,
    pub drag_started: bool,
}

/// The state with no click pending.
pub open spec fn is_idle<P>(click: PendingPrimitiveClick<P>) -> bool {
    &&& click.primitive_entity is None
    &&& click.panel_entity is None
    &&& click.press_position is None
    &&& !click.drag_started
}

/// The click that a release completes: the primitive pressed and its panel
/// entry, when a press was recorded and no drag followed it.
pub open spec fn release_candidate<P>(click: PendingPrimitiveClick<P>) -> Option<(u64, u64)> {
    match (click.primitive_entity, click.panel_entity, click.press_position) {
        (Some(primitive), Some(panel), Some(_)) => if !click.drag_started {
            Some((primitive, panel))
        } else {
            None
        },
        _ => None,
    }
}

impl<P> PendingPrimitiveClick<P> {
    /// No click pending.
    pub fn new() -> (r: Self)
        ensures
            is_idle(r),
    {
        PendingPrimitiveClick {
            primitive_entity: None,
            panel_entity: None,
            press_position: None,
            drag_started: false,
        }
    }

    /// Records a press on `primitive_entity`, which belongs to the panel
    /// entry `panel_entity`, at `press_position`.
    pub fn begin(&mut self, primitive_entity: u64, panel_entity: u64, press_position: P)
        ensures
            final(self).primitive_entity == Some(primitive_entity),
            final(self).panel_entity == Some(panel_entity),
            final(self).press_position == Some(press_position),
            !final(self).drag_started,
    {
        self.primitive_entity = Some(primitive_entity);
        self.panel_entity = Some(panel_entity);
        self.press_position = Some(press_position);
        self.drag_started = false;
    }

    /// Forgets the pending click.
    pub fn clear(&mut self)
        ensures
            is_idle(*final(self)),
    {
        self.primitive_entity = None;
        self.panel_entity = None;
        self.press_position = None;
        self.drag_started = false;
    }

    /// A pending click on a primitive holds the camera still until it turns
    /// into a drag.
    pub fn blocks_orbit(&self) -> (r: bool)
        ensures
            r == (self.primitive_entity is Some && !self.drag_started),
    {
        self.primitive_entity.is_some() && !self.drag_started
    }

    /// The left button went down: `pick` is the cursor position with the
    /// primitive under it and that primitive's panel entry, if the cursor is
    /// in the window and over a pickable primitive.
    pub fn press(&mut self, pick: Option<(P, u64, u64)>)
        ensures
            match pick {
                Some((position, primitive, panel)) => {
                    &&& final(self).primitive_entity == Some(primitive)
                    &&& final(self).panel_entity == Some(panel)
                    &&& final(self).press_position == Some(position)
                    &&& !final(self).drag_started
                },
                None => is_idle(*final(self)),
            },
    {
        match pick {
            Some((position, primitive, panel)) => self.begin(primitive, panel, position),
            None => self.clear(),
        }
    }

    /// The cursor moved further from the press than a click allows.
    pub fn mark_dragged(&mut self)
        ensures
            final(self).drag_started,
            final(self).primitive_entity == old(self).primitive_entity,
            final(self).panel_entity == old(self).panel_entity,
            final(self).press_position == old(self).press_position,
    {
        self.drag_started = true;
    }

    /// The left button went up: forgets the click and gives the primitive and
    /// panel entry it may select.
    pub fn release(&mut self) -> (r: Option<(u64, u64)>)
        ensures
            r == release_candidate(*old(self)),
            is_idle(*final(self)),
    {
        let candidate = match (self.primitive_entity, self.panel_entity, &self.press_position) {
            (Some(primitive), Some(panel), Some(_)) => if !self.drag_started {
                Some((primitive, panel))
            } else {
                None
            },
            _ => None,
        };
        self.clear();
        candidate
    }
}

/// Whether a pending click holds the left button back from orbiting the camera.
pub fn left_button_orbit_is_blocked<P>(state: Option<&PendingPrimitiveClick<P>>) -> (r: bool)
    ensures
        r == match state {
            Some(s) => s.primitive_entity is Some && !s.drag_started,
            None => false,
        },
{
    match state {
        Some(s) => s.blocks_orbit(),
        None => false,
    }
}

/// The selection a release confirms: the pressed primitive with its panel
/// entry, when the primitive under the cursor at release is the pressed one.
pub open spec fn confirmed_click(
    expected_primitive: u64,
    panel_entity: u64,
    picked_primitive: Option<u64>,
) -> Option<(u64, u64)> {
    if picked_primitive == Some(expected_primitive) {
        Some((panel_entity, expected_primitive))
    } else {
        None
    }
}

/// The selection a completed click makes: the released-over primitive, when
/// it is the one that was pressed, with its panel entry.
pub fn confirm_click(expected_primitive: u64, panel_entity: u64, picked_primitive: Option<u64>) -> (r:
    Option<(u64, u64)>)
    ensures
        r == confirmed_click(expected_primitive, panel_entity, picked_primitive),
{
    match picked_primitive {
        Some(p) => if p == expected_primitive {
            Some((panel_entity, p))
        } else {
            None
        },
        None => None,
    }
}

/// A press on a primitive followed by a release without a drag completes a
/// click on that primitive and its panel entry.
pub proof fn lemma_press_release_clicks<P>(position: P, primitive: u64, panel: u64)
    ensures
        release_candidate(
            PendingPrimitiveClick {
                primitive_entity: Some(primitive),
                panel_entity: Some(panel),
                press_position: Some(position),
                drag_started: false,
            },
        ) == Some((primitive, panel)),
{
}

/// A drag after the press cancels the click.
pub proof fn lemma_drag_cancels_click<P>(click: PendingPrimitiveClick<P>)
    requires
        click.drag_started,
    ensures
        release_candidate(click) is None,
{
}

/// A release selects a primitive exactly when the pending press picked that
/// primitive and its panel entry, no drag followed, and the primitive under
/// the cursor at release is the same one.
pub proof fn lemma_click_selects_only_what_was_pressed<P>(
    click: PendingPrimitiveClick<P>,
    picked_primitive: Option<u64>,
    panel_entity: u64,
    primitive_entity: u64,
)
    ensures
        (match release_candidate(click) {
            Some((expected, panel)) => confirmed_click(expected, panel, picked_primitive),
            None => None,
        }) == Some((panel_entity, primitive_entity)) <==> {
            &&& click.primitive_entity == Some(primitive_entity)
            &&& click.panel_entity == Some(panel_entity)
            &&& click.press_position is Some
            &&& !click.drag_started
            &&& picked_primitive == Some(primitive_entity)
        },
{
}

} // verus!
