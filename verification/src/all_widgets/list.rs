//! A list of sixteen switches that keeps its own state.

use vstd::prelude::*;
use crate::id::{consecutive, WidgetId};
use crate::frame::{placements_of, Event, Frame, Placement};
use crate::list::{apply_toggles, lemma_toggled_foreign, toggled};
use crate::toolkit::{reserve_slot, root_slot, slots, window_size};
use crate::{Component, Env};

verus! {

pub struct Ids {
    pub list: WidgetId,
}

impl Ids {
    /// The identifiers in the order in which they are made.
    pub open spec fn all(self) -> Seq<WidgetId> {
        seq![self.list]
    }

    /// Reserves the next slot of `ui` for the list.
    pub fn new(ui: &mut conrod_core::Ui) -> (ids: Ids)
        requires
            slots(*old(ui)) + 1 <= u32::MAX,
        ensures
            ids.all() == consecutive(slots(*old(ui)), 1),
            slots(*final(ui)) == slots(*old(ui)) + 1,
            root_slot(*final(ui)) == root_slot(*old(ui)),
            window_size(*final(ui)) == window_size(*old(ui)),
    {
        let list = reserve_slot(ui);
        let ids = Ids { list };
        assert(ids.all() =~= consecutive(slots(*old(ui)), 1));
        ids
    }
}

/// The switches of the list, by position.
pub struct GuiState {
    pub list: Vec<bool>,
}

pub struct Gui {
    pub ids: Ids,
    pub state: GuiState,
}

impl Gui {
    /// A list of sixteen switches, all of them on.
    pub fn new(ui: &mut conrod_core::Ui) -> (gui: Gui)
        requires
            slots(*old(ui)) + 1 <= u32::MAX,
        ensures
            gui.ids.all() == consecutive(slots(*old(ui)), 1),
            gui.state.list@ == Seq::new(16, |i: int| true),
            slots(*final(ui)) == slots(*old(ui)) + 1,
            root_slot(*final(ui)) == root_slot(*old(ui)),
            window_size(*final(ui)) == window_size(*old(ui)),
    {
        let gui = Gui { ids: Ids::new(ui), state: GuiState { list: vec![true; 16] } };
        assert(gui.state.list@ =~= Seq::new(16, |i: int| true));
        gui
    }
}

impl Component for Gui {
    open spec fn placements(&self, window: WidgetId, env: Env) -> Seq<Placement> {
        placements_of(self.ids.all(), env)
    }

    open spec fn bottom(&self) -> Option<WidgetId> {
        None
    }

    open spec fn follows(&self, prev: &Self, events: Seq<Event>) -> bool {
        &&& self.ids == prev.ids
        &&& self.state.list@ == toggled(prev.state.list@, prev.ids.list, events)
    }

    open spec fn widgets(&self) -> Seq<WidgetId> {
        self.ids.all()
    }

    proof fn quiet(&self, prev: &Self) {
    }

    proof fn deaf(&self, prev: &Self, events: Seq<Event>) {
        assert(prev.widgets()[0] == prev.ids.list);
        lemma_toggled_foreign(prev.state.list@, prev.ids.list, events);
    }

    fn update(&self, frame: &mut Frame, env: &Env) {
        frame.set(self.ids.list, env);
        assert(frame@.placed =~= old(frame)@.adding(
            self.placements(old(frame)@.window, *env),
        ).placed);
    }

    fn take(&mut self, events: &Vec<Event>) {
        apply_toggles(&mut self.state.list, self.ids.list, events);
    }

    fn get_bottom(&self) -> (bottom: Option<WidgetId>) {
        None
    }
}

} // verus!
