//! A dial for a frequency, and the plot of a sine wave of that frequency.

use vstd::prelude::*;
use crate::id::{consecutive, WidgetId};
use crate::frame::{placements_of, Event, Frame, Interaction, Placement};
use crate::toolkit::{reserve_slot, root_slot, slots, window_size};
use crate::{Component, Env};

verus! {

pub struct Ids {
    pub dialer_title: WidgetId,
    pub number_dialer: WidgetId,
    pub plot_path: WidgetId,
}

impl Ids {
    /// The identifiers in the order in which they are made.
    pub open spec fn all(self) -> Seq<WidgetId> {
        seq![self.dialer_title, self.number_dialer, self.plot_path]
    }

    /// Reserves the next slots of `ui`, one for each widget.
    pub fn new(ui: &mut conrod_core::Ui) -> (ids: Ids)
        requires
            slots(*old(ui)) + 3 <= u32::MAX,
        ensures
            ids.all() == consecutive(slots(*old(ui)), 3),
            slots(*final(ui)) == slots(*old(ui)) + 3,
            root_slot(*final(ui)) == root_slot(*old(ui)),
            window_size(*final(ui)) == window_size(*old(ui)),
    {
        let dialer_title = reserve_slot(ui);
        let number_dialer = reserve_slot(ui);
        let plot_path = reserve_slot(ui);
        let ids = Ids { dialer_title, number_dialer, plot_path };
        assert(ids.all() =~= consecutive(slots(*old(ui)), 3));
        ids
    }
}

/// The frequency of the sine wave, in tenths of a cycle: the dial moves in
/// steps of one tenth.
pub struct GuiState {
    pub sine_frequency: u32,
}

impl GuiState {
    /// One cycle.
    pub fn new() -> (state: GuiState)
        ensures
            state.sine_frequency == 10,
    {
        GuiState { sine_frequency: 10 }
    }
}

/// The frequency `frequency` after `event`, where `dial` is the dial that
/// sets it: a turn of that dial gives the new frequency, and nothing else
/// changes it.
pub open spec fn dial(frequency: u32, dial: WidgetId, event: Event) -> u32 {
    match event.action {
        Interaction::Dial(value) => if event.widget == dial {
            value
        } else {
            frequency
        },
        _ => frequency,
    }
}

/// The frequency `frequency` after all of `events`, in order.
pub open spec fn dialed(frequency: u32, widget: WidgetId, events: Seq<Event>) -> u32
    decreases events.len(),
{
    if events.len() == 0 {
        frequency
    } else {
        dial(dialed(frequency, widget, events.drop_last()), widget, events.last())
    }
}

/// Events on other widgets than the dial leave the frequency as it was.
pub proof fn lemma_dialed_foreign(frequency: u32, widget: WidgetId, events: Seq<Event>)
    requires
        forall|k: int| 0 <= k < events.len() ==> (#[trigger] events[k]).widget != widget,
    ensures
        dialed(frequency, widget, events) == frequency,
    decreases events.len(),
{
    if events.len() > 0 {
        let front = events.drop_last();
        assert forall|k: int| 0 <= k < front.len() implies (#[trigger] front[k]).widget
            != widget by {
            assert(front[k] == events[k]);
        }
        lemma_dialed_foreign(frequency, widget, front);
        assert(events.last() == events[events.len() - 1]);
    }
}

pub struct Gui {
    pub ids: Ids,
    pub state: GuiState,
}

impl Gui {
    pub fn new(ui: &mut conrod_core::Ui) -> (gui: Gui)
        requires
            slots(*old(ui)) + 3 <= u32::MAX,
        ensures
            gui.ids.all() == consecutive(slots(*old(ui)), 3),
            gui.state.sine_frequency == 10,
            slots(*final(ui)) == slots(*old(ui)) + 3,
            root_slot(*final(ui)) == root_slot(*old(ui)),
            window_size(*final(ui)) == window_size(*old(ui)),
    {
        Gui { ids: Ids::new(ui), state: GuiState::new() }
    }
}

impl Component for Gui {
    open spec fn placements(&self, window: WidgetId, env: Env) -> Seq<Placement> {
        placements_of(self.ids.all(), env)
    }

    open spec fn bottom(&self) -> Option<WidgetId> {
        Some(self.ids.plot_path)
    }

    open spec fn follows(&self, prev: &Self, events: Seq<Event>) -> bool {
        &&& self.ids == prev.ids
        &&& self.state.sine_frequency == dialed(
            prev.state.sine_frequency,
            prev.ids.number_dialer,
            events,
        )
    }

    open spec fn widgets(&self) -> Seq<WidgetId> {
        self.ids.all()
    }

    proof fn quiet(&self, prev: &Self) {
    }

    proof fn deaf(&self, prev: &Self, events: Seq<Event>) {
        assert(prev.widgets()[1] == prev.ids.number_dialer);
        lemma_dialed_foreign(prev.state.sine_frequency, prev.ids.number_dialer, events);
    }

    fn update(&self, frame: &mut Frame, env: &Env) {
        frame.set(self.ids.dialer_title, env);
        frame.set(self.ids.number_dialer, env);
        frame.set(self.ids.plot_path, env);
        assert(frame@.placed =~= old(frame)@.adding(
            self.placements(old(frame)@.window, *env),
        ).placed);
    }

    fn take(&mut self, events: &Vec<Event>) {
        let mut k: usize = 0;
        while k < events.len()
            invariant
                k <= events.len(),
                self.ids == old(self).ids,
                self.state.sine_frequency == dialed(
                    old(self).state.sine_frequency,
                    self.ids.number_dialer,
                    events@.take(k as int),
                ),
            decreases events.len() - k,
        {
            proof {
                assert(events@.take(k + 1).drop_last() =~= events@.take(k as int));
                assert(events@.take(k + 1).last() == events@[k as int]);
            }
            let event = &events[k];
            match &event.action {
                Interaction::Dial(value) => {
                    if event.widget == self.ids.number_dialer {
                        self.state.sine_frequency = *value;
                    }
                },
                _ => {},
            }
            k += 1;
        }
        assert(events@.take(k as int) =~= events@);
    }

    fn get_bottom(&self) -> (bottom: Option<WidgetId>) {
        Some(self.ids.plot_path)
    }
}

} // verus!
