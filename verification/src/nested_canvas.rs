//! A scrolling canvas inside the scrolling screen, with a button and a text box in it.

use vstd::prelude::*;
use crate::id::{consecutive, WidgetId};
use crate::frame::{placements_of, Event, Frame, Placement};
use crate::toolkit::{reserve_slot, root_slot, slots, window_size};
use crate::{Component, Env};

verus! {

pub struct Ids {
    pub section_canvas: WidgetId,
    pub section_button: WidgetId,
    pub section_text: WidgetId,
}

impl Ids {
    /// The identifiers in the order in which they are made.
    pub open spec fn all(self) -> Seq<WidgetId> {
        seq![self.section_canvas, self.section_button, self.section_text]
    }

    /// Reserves the next slots of `ui`, one for each widget.
    pub fn new(ui: &mut conrod_core::Ui) -> (ids: Ids)
        requires
            slots(*old(ui)) + 3 <= u32::MAX,
        ensures
            ids.all() == consecutive(slots(*old(ui)), 3),
            slots(*final(ui)) == slots(*old(ui)) + 3,
            root_slot(*final(ui)) == root_slot(*old(ui)),
            window_size(*final(ui)) == window_size(*old(ui)),
    {
        let section_canvas = reserve_slot(ui);
        let section_button = reserve_slot(ui);
        let section_text = reserve_slot(ui);
        let ids = Ids { section_canvas, section_button, section_text };
        assert(ids.all() =~= consecutive(slots(*old(ui)), 3));
        ids
    }
}

pub struct Gui {
    pub ids: Ids,
}

impl Gui {
    pub fn new(ui: &mut conrod_core::Ui) -> (gui: Gui)
        requires
            slots(*old(ui)) + 3 <= u32::MAX,
        ensures
            gui.ids.all() == consecutive(slots(*old(ui)), 3),
            slots(*final(ui)) == slots(*old(ui)) + 3,
            root_slot(*final(ui)) == root_slot(*old(ui)),
            window_size(*final(ui)) == window_size(*old(ui)),
    {
        Gui { ids: Ids::new(ui) }
    }
}

impl Component for Gui {
    open spec fn placements(&self, window: WidgetId, env: Env) -> Seq<Placement> {
        placements_of(self.ids.all(), env)
    }

    open spec fn bottom(&self) -> Option<WidgetId> {
        None
    }

    open spec fn widgets(&self) -> Seq<WidgetId> {
        self.ids.all()
    }

    open spec fn follows(&self, prev: &Self, events: Seq<Event>) -> bool {
        *self == *prev
    }

    proof fn quiet(&self, prev: &Self) {
    }

    proof fn deaf(&self, prev: &Self, events: Seq<Event>) {
    }

    fn update(&self, frame: &mut Frame, env: &Env) {
        frame.set(self.ids.section_canvas, env);
        frame.set(self.ids.section_button, env);
        frame.set(self.ids.section_text, env);
        assert(frame@.placed =~= old(frame)@.adding(
            self.placements(old(frame)@.window, *env),
        ).placed);
    }

    fn take(&mut self, events: &Vec<Event>) {
    }

    fn get_bottom(&self) -> (bottom: Option<WidgetId>) {
        None
    }
}

} // verus!
