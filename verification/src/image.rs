//! A titled image.

use vstd::prelude::*;
use crate::id::{consecutive, WidgetId};
use crate::frame::{placements_of, Event, Frame, Placement};
use crate::toolkit::{reserve_slot, root_slot, slots, window_size};
use crate::{Component, Env};

verus! {

pub struct Ids {
    pub image_title: WidgetId,
    pub rust_logo: WidgetId,
}

impl Ids {
    /// The identifiers in the order in which they are made.
    pub open spec fn all(self) -> Seq<WidgetId> {
        seq![self.image_title, self.rust_logo]
    }

    /// Reserves the next slots of `ui`, one for each widget.
    pub fn new(ui: &mut conrod_core::Ui) -> (ids: Ids)
        requires
            slots(*old(ui)) + 2 <= u32::MAX,
        ensures
            ids.all() == consecutive(slots(*old(ui)), 2),
            slots(*final(ui)) == slots(*old(ui)) + 2,
            root_slot(*final(ui)) == root_slot(*old(ui)),
            window_size(*final(ui)) == window_size(*old(ui)),
    {
        let image_title = reserve_slot(ui);
        let rust_logo = reserve_slot(ui);
        let ids = Ids { image_title, rust_logo };
        assert(ids.all() =~= consecutive(slots(*old(ui)), 2));
        ids
    }
}

/// The image that is shown.
pub struct GuiState {
    pub rust_logo: conrod_core::image::Id,
}

pub struct Gui {
    pub ids: Ids,
    pub state: GuiState,
}

impl Gui {
    pub fn new(ui: &mut conrod_core::Ui, rust_logo: conrod_core::image::Id) -> (gui: Gui)
        requires
            slots(*old(ui)) + 2 <= u32::MAX,
        ensures
            gui.ids.all() == consecutive(slots(*old(ui)), 2),
            gui.state.rust_logo == rust_logo,
            slots(*final(ui)) == slots(*old(ui)) + 2,
            root_slot(*final(ui)) == root_slot(*old(ui)),
            window_size(*final(ui)) == window_size(*old(ui)),
    {
        Gui { ids: Ids::new(ui), state: GuiState { rust_logo } }
    }
}

impl Component for Gui {
    open spec fn placements(&self, window: WidgetId, env: Env) -> Seq<Placement> {
        placements_of(self.ids.all(), env)
    }

    open spec fn bottom(&self) -> Option<WidgetId> {
        Some(self.ids.rust_logo)
    }

    open spec fn widgets(&self) -> Seq<WidgetId> {
        self.ids.all()
    }

    open spec fn follows(&self, prev: &Self, events: Seq<Event>) -> bool {
        *self == *prev
    }

    proof fn quiet(&self, prev: &Self) {
    }

    proof fn deaf(&self, prev: &Self, events: Seq<Event>) {
    }

    fn update(&self, frame: &mut Frame, env: &Env) {
        frame.set(self.ids.image_title, env);
        frame.set(self.ids.rust_logo, env);
        assert(frame@.placed =~= old(frame)@.adding(
            self.placements(old(frame)@.window, *env),
        ).placed);
    }

    fn take(&mut self, events: &Vec<Event>) {
    }

    fn get_bottom(&self) -> (bottom: Option<WidgetId>) {
        Some(self.ids.rust_logo)
    }
}

} // verus!
