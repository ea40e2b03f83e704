//! The screen of the first demonstration: one canvas that fills the window.

use vstd::prelude::*;
use crate::id::{consecutive, WidgetId};
use crate::frame::{placements_of, Event, Frame, Placement};
use crate::toolkit::{reserve_slot, root_slot, slots, window_size};
use crate::{Component, Env, Info};

verus! {

/// The name and the window size of this screen.
pub fn info() -> (info: Info)
    ensures
        info.name@ == "Old Demo"@,
        info.size == (1100u32, 560u32),
{
    Info::new("Old Demo", (1100, 560))
}

pub struct Ids {
    pub canvas: WidgetId,
}

impl Ids {
    /// The identifiers in the order in which they are made.
    pub open spec fn all(self) -> Seq<WidgetId> {
        seq![self.canvas]
    }

    /// Reserves the next slots of `ui`, one for each widget.
    pub fn new(ui: &mut conrod_core::Ui) -> (ids: Ids)
        requires
            slots(*old(ui)) + 1 <= u32::MAX,
        ensures
            ids.all() == consecutive(slots(*old(ui)), 1),
            slots(*final(ui)) == slots(*old(ui)) + 1,
            root_slot(*final(ui)) == root_slot(*old(ui)),
            window_size(*final(ui)) == window_size(*old(ui)),
    {
        let canvas = reserve_slot(ui);
        let ids = Ids { canvas };
        assert(ids.all() =~= consecutive(slots(*old(ui)), 1));
        ids
    }
}

pub struct Gui {
    pub ids: Ids,
}

impl Gui {
    pub fn new(ui: &mut conrod_core::Ui) -> (gui: Gui)
        requires
            slots(*old(ui)) + 1 <= u32::MAX,
        ensures
            gui.ids.all() == consecutive(slots(*old(ui)), 1),
            slots(*final(ui)) == slots(*old(ui)) + 1,
            root_slot(*final(ui)) == root_slot(*old(ui)),
            window_size(*final(ui)) == window_size(*old(ui)),
    {
        Gui { ids: Ids::new(ui) }
    }
}

impl Component for Gui {
    open spec fn placements(&self, window: WidgetId, env: Env) -> Seq<Placement> {
        placements_of(self.ids.all(), env)
    }

    open spec fn bottom(&self) -> Option<WidgetId> {
        Some(self.ids.canvas)
    }

    open spec fn widgets(&self) -> Seq<WidgetId> {
        self.ids.all()
    }

    open spec fn follows(&self, prev: &Self, events: Seq<Event>) -> bool {
        *self == *prev
    }

    proof fn quiet(&self, prev: &Self) {
    }

    proof fn deaf(&self, prev: &Self, events: Seq<Event>) {
    }

    fn update(&self, frame: &mut Frame, env: &Env) {
        frame.set(self.ids.canvas, env);
        assert(frame@.placed =~= old(frame)@.adding(
            self.placements(old(frame)@.window, *env),
        ).placed);
    }

    fn take(&mut self, events: &Vec<Event>) {
    }

    fn get_bottom(&self) -> (bottom: Option<WidgetId>) {
        Some(self.ids.canvas)
    }
}

} // verus!
