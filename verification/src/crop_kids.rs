//! A canvas that crops what is in it: a button that closes it, and a text
//! box.

use vstd::prelude::*;
use crate::id::{consecutive, WidgetId};
use crate::frame::{placements_of, Event, Frame, Interaction, Placement};
use crate::toolkit::{reserve_slot, root_slot, slots, window_size};
use crate::{Component, Env};

verus! {

pub struct Ids {
    pub canvas: WidgetId,
    pub button: WidgetId,
    pub text: WidgetId,
}

impl Ids {
    /// The identifiers in the order in which they are made.
    pub open spec fn all(self) -> Seq<WidgetId> {
        seq![self.canvas, self.button, self.text]
    }

    /// Reserves the next slots of `ui`, one for each widget.
    pub fn new(ui: &mut conrod_core::Ui) -> (ids: Ids)
        requires
            slots(*old(ui)) + 3 <= u32::MAX,
        ensures
            ids.all() == consecutive(slots(*old(ui)), 3),
            slots(*final(ui)) == slots(*old(ui)) + 3,
            root_slot(*final(ui)) == root_slot(*old(ui)),
            window_size(*final(ui)) == window_size(*old(ui)),
    {
        let canvas = reserve_slot(ui);
        let button = reserve_slot(ui);
        let text = reserve_slot(ui);
        let ids = Ids { canvas, button, text };
        assert(ids.all() =~= consecutive(slots(*old(ui)), 3));
        ids
    }
}

/// Whether the canvas is still shown, and what the text box holds.
pub struct GuiState {
    pub running: bool,
    pub message: String,
}

/// The state as a mathematical value.
pub ghost struct State {
    pub running: bool,
    pub message: Seq<char>,
}

impl View for GuiState {
    type V = State;

    open spec fn view(&self) -> State {
        State { running: self.running, message: self.message@ }
    }
}

impl State {
    /// The state after `event`, where `ids` are the widgets of the
    /// component: a click on its button closes the canvas, an edit of its
    /// text box replaces the message, and nothing else changes anything.
    pub open spec fn step(self, ids: Ids, event: Event) -> State {
        match event.action {
            Interaction::Click => if event.widget == ids.button {
                State { running: false, ..self }
            } else {
                self
            },
            Interaction::Edit(text) => if event.widget == ids.text {
                State { message: text@, ..self }
            } else {
                self
            },
            _ => self,
        }
    }

    /// The state after all of `events`, in order.
    pub open spec fn after(self, ids: Ids, events: Seq<Event>) -> State
        decreases events.len(),
    {
        if events.len() == 0 {
            self
        } else {
            self.after(ids, events.drop_last()).step(ids, events.last())
        }
    }
}

/// Events on widgets that are not the component's own leave its state as it
/// was.
pub proof fn lemma_foreign_events(state: State, ids: Ids, events: Seq<Event>)
    requires
        forall|k: int|
            0 <= k < events.len() ==> (#[trigger] events[k]).widget != ids.button && events[k].widget
                != ids.text,
    ensures
        state.after(ids, events) == state,
    decreases events.len(),
{
    if events.len() > 0 {
        let front = events.drop_last();
        assert forall|k: int| 0 <= k < front.len() implies (#[trigger] front[k]).widget
            != ids.button && front[k].widget != ids.text by {
            assert(front[k] == events[k]);
        }
        lemma_foreign_events(state, ids, front);
        assert(events.last() == events[events.len() - 1]);
    }
}

pub struct Gui {
    pub ids: Ids,
    pub state: GuiState,
}

impl Gui {
    /// An open canvas whose text box asks to be edited.
    pub fn new(ui: &mut conrod_core::Ui) -> (gui: Gui)
        requires
            slots(*old(ui)) + 3 <= u32::MAX,
        ensures
            gui.ids.all() == consecutive(slots(*old(ui)), 3),
            gui.state@ == (State { running: true, message: "Edit this Text Area..."@ }),
            slots(*final(ui)) == slots(*old(ui)) + 3,
            root_slot(*final(ui)) == root_slot(*old(ui)),
            window_size(*final(ui)) == window_size(*old(ui)),
    {
        Gui {
            ids: Ids::new(ui),
            state: GuiState { running: true, message: "Edit this Text Area...".to_owned() },
        }
    }
}

impl Component for Gui {
    /// A closed canvas places nothing.
    open spec fn placements(&self, window: WidgetId, env: Env) -> Seq<Placement> {
        if self.state.running {
            placements_of(self.ids.all(), env)
        } else {
            Seq::empty()
        }
    }

    open spec fn bottom(&self) -> Option<WidgetId> {
        None
    }

    /// A closed canvas takes no interactions either.
    open spec fn follows(&self, prev: &Self, events: Seq<Event>) -> bool {
        &&& self.ids == prev.ids
        &&& self.state@ == if prev.state.running {
            prev.state@.after(prev.ids, events)
        } else {
            prev.state@
        }
    }

    open spec fn widgets(&self) -> Seq<WidgetId> {
        self.ids.all()
    }

    proof fn quiet(&self, prev: &Self) {
    }

    proof fn deaf(&self, prev: &Self, events: Seq<Event>) {
        assert(prev.widgets()[1] == prev.ids.button);
        assert(prev.widgets()[2] == prev.ids.text);
        lemma_foreign_events(prev.state@, prev.ids, events);
    }

    fn update(&self, frame: &mut Frame, env: &Env) {
        if self.state.running {
            frame.set(self.ids.canvas, env);
            frame.set(self.ids.button, env);
            frame.set(self.ids.text, env);
        }
        assert(frame@.placed =~= old(frame)@.adding(
            self.placements(old(frame)@.window, *env),
        ).placed);
    }

    fn take(&mut self, events: &Vec<Event>) {
        if !self.state.running {
            return ;
        }
        let mut k: usize = 0;
        while k < events.len()
            invariant
                k <= events.len(),
                self.ids == old(self).ids,
                self.state@ == old(self).state@.after(self.ids, events@.take(k as int)),
            decreases events.len() - k,
        {
            proof {
                assert(events@.take(k + 1).drop_last() =~= events@.take(k as int));
                assert(events@.take(k + 1).last() == events@[k as int]);
            }
            let event = &events[k];
            match &event.action {
                Interaction::Click => {
                    if event.widget == self.ids.button {
                        self.state.running = false;
                    }
                },
                Interaction::Edit(text) => {
                    if event.widget == self.ids.text {
                        self.state.message = text.clone();
                    }
                },
                _ => {},
            }
            k += 1;
        }
        assert(events@.take(k as int) =~= events@);
    }

    fn get_bottom(&self) -> (bottom: Option<WidgetId>) {
        None
    }
}

} // verus!
