//! A ball, and three ways to change it: a button that throws it to a place
//! drawn at random, a pad that moves it, and a switch that makes it white or
//! black.

use vstd::prelude::*;
use crate::id::{consecutive, WidgetId};
use crate::frame::{placements_of, Event, Frame, Interaction, Placement};
use crate::toolkit::{random_offset, reserve_slot, root_slot, slots, window_size};
use crate::{Component, Env};

verus! {

pub struct Ids {
    pub button_title: WidgetId,
    pub button: WidgetId,
    pub xy_pad: WidgetId,
    pub toggle: WidgetId,
    pub ball: WidgetId,
}

impl Ids {
    /// The identifiers in the order in which they are made.
    pub open spec fn all(self) -> Seq<WidgetId> {
        seq![self.button_title, self.button, self.xy_pad, self.toggle, self.ball]
    }

    /// Reserves the next slots of `ui`, one for each widget.
    pub fn new(ui: &mut conrod_core::Ui) -> (ids: Ids)
        requires
            slots(*old(ui)) + 5 <= u32::MAX,
        ensures
            ids.all() == consecutive(slots(*old(ui)), 5),
            slots(*final(ui)) == slots(*old(ui)) + 5,
            root_slot(*final(ui)) == root_slot(*old(ui)),
            window_size(*final(ui)) == window_size(*old(ui)),
    {
        let button_title = reserve_slot(ui);
        let button = reserve_slot(ui);
        let xy_pad = reserve_slot(ui);
        let toggle = reserve_slot(ui);
        let ball = reserve_slot(ui);
        let ids = Ids { button_title, button, xy_pad, toggle, ball };
        assert(ids.all() =~= consecutive(slots(*old(ui)), 5));
        ids
    }
}

/// A colour by its red, green and blue parts.
#[derive(Clone, Copy, PartialEq, Eq, Structural, Debug)]
pub struct Rgb {
    pub red: u8,
    pub green: u8,
    pub blue: u8,
}

/// White.
pub open spec fn spec_white() -> Rgb {
    Rgb { red: 255, green: 255, blue: 255 }
}

/// Black.
pub open spec fn spec_black() -> Rgb {
    Rgb { red: 0, green: 0, blue: 0 }
}

/// A point of the pad, in pixels from its middle.
#[derive(Clone, Copy, PartialEq, Eq, Structural, Debug)]
pub struct Point {
    pub x: i32,
    pub y: i32,
}

/// Where the ball is, and its colour.
#[derive(Clone, Copy, PartialEq, Eq, Structural, Debug)]
pub struct GuiState {
    pub ball_xy: Point,
    pub ball_color: Rgb,
}

impl GuiState {
    /// A white ball in the middle of the pad.
    pub fn new() -> (state: GuiState)
        ensures
            state == (GuiState { ball_xy: (Point { x: 0, y: 0 }), ball_color: spec_white() }),
    {
        GuiState { ball_xy: Point { x: 0, y: 0 }, ball_color: Rgb { red: 255, green: 255, blue: 255 } }
    }
}

/// What is known of the ball's place after `event`, where `known` is what
/// was known before: a touch of the pad moves the ball to the point touched;
/// a click on the button throws it to a point drawn at random, of which
/// nothing is known; and nothing else moves it.
pub open spec fn moved(known: Option<Point>, ids: Ids, event: Event) -> Option<Point> {
    match event.action {
        Interaction::Pad { x, y } => if event.widget == ids.xy_pad {
            Some(Point { x, y })
        } else {
            known
        },
        Interaction::Click => if event.widget == ids.button {
            None
        } else {
            known
        },
        _ => known,
    }
}

/// What is known of the ball's place after all of `events`, in order.
pub open spec fn moved_by(known: Option<Point>, ids: Ids, events: Seq<Event>) -> Option<Point>
    decreases events.len(),
{
    if events.len() == 0 {
        known
    } else {
        moved(moved_by(known, ids, events.drop_last()), ids, events.last())
    }
}

/// The ball's colour after `event`: the switch `toggle` makes it white where
/// it is set and black where it is not, and nothing else changes it.
pub open spec fn tinted(color: Rgb, toggle: WidgetId, event: Event) -> Rgb {
    match event.action {
        Interaction::Switch(white) => if event.widget == toggle {
            if white {
                spec_white()
            } else {
                spec_black()
            }
        } else {
            color
        },
        _ => color,
    }
}

/// The ball's colour after all of `events`, in order.
pub open spec fn tinted_by(color: Rgb, toggle: WidgetId, events: Seq<Event>) -> Rgb
    decreases events.len(),
{
    if events.len() == 0 {
        color
    } else {
        tinted(tinted_by(color, toggle, events.drop_last()), toggle, events.last())
    }
}

/// Events on widgets that are not the component's own change neither the
/// place nor the colour of the ball.
pub proof fn lemma_ball_foreign(state: GuiState, ids: Ids, events: Seq<Event>)
    requires
        forall|k: int|
            0 <= k < events.len() ==> (#[trigger] events[k]).widget != ids.button
                && events[k].widget != ids.xy_pad && events[k].widget != ids.toggle,
    ensures
        moved_by(Some(state.ball_xy), ids, events) == Some(state.ball_xy),
        tinted_by(state.ball_color, ids.toggle, events) == state.ball_color,
    decreases events.len(),
{
    if events.len() > 0 {
        let front = events.drop_last();
        assert forall|k: int| 0 <= k < front.len() implies (#[trigger] front[k]).widget
            != ids.button && front[k].widget != ids.xy_pad && front[k].widget != ids.toggle by {
            assert(front[k] == events[k]);
        }
        lemma_ball_foreign(state, ids, front);
        assert(events.last() == events[events.len() - 1]);
    }
}

pub struct Gui {
    pub ids: Ids,
    pub state: GuiState,
}

impl Gui {
    pub fn new(ui: &mut conrod_core::Ui) -> (gui: Gui)
        requires
            slots(*old(ui)) + 5 <= u32::MAX,
        ensures
            gui.ids.all() == consecutive(slots(*old(ui)), 5),
            gui.state == (GuiState { ball_xy: (Point { x: 0, y: 0 }), ball_color: spec_white() }),
            slots(*final(ui)) == slots(*old(ui)) + 5,
            root_slot(*final(ui)) == root_slot(*old(ui)),
            window_size(*final(ui)) == window_size(*old(ui)),
    {
        Gui { ids: Ids::new(ui), state: GuiState::new() }
    }
}

impl Component for Gui {
    open spec fn placements(&self, window: WidgetId, env: Env) -> Seq<Placement> {
        placements_of(self.ids.all(), env)
    }

    open spec fn bottom(&self) -> Option<WidgetId> {
        Some(self.ids.button)
    }

    open spec fn widgets(&self) -> Seq<WidgetId> {
        self.ids.all()
    }

    /// The colour of the ball is fixed by the interactions. Its place is
    /// fixed by them unless the button was clicked after the pad was last
    /// touched: then it is wherever the ball was thrown.
    open spec fn follows(&self, prev: &Self, events: Seq<Event>) -> bool {
        &&& self.ids == prev.ids
        &&& self.state.ball_color == tinted_by(prev.state.ball_color, prev.ids.toggle, events)
        &&& moved_by(Some(prev.state.ball_xy), prev.ids, events) matches Some(point)
            ==> self.state.ball_xy == point
    }

    proof fn quiet(&self, prev: &Self) {
    }

    proof fn deaf(&self, prev: &Self, events: Seq<Event>) {
        assert(prev.widgets()[1] == prev.ids.button);
        assert(prev.widgets()[2] == prev.ids.xy_pad);
        assert(prev.widgets()[3] == prev.ids.toggle);
        lemma_ball_foreign(prev.state, prev.ids, events);
    }

    fn update(&self, frame: &mut Frame, env: &Env) {
        frame.set(self.ids.button_title, env);
        frame.set(self.ids.button, env);
        frame.set(self.ids.xy_pad, env);
        frame.set(self.ids.toggle, env);
        frame.set(self.ids.ball, env);
        assert(frame@.placed =~= old(frame)@.adding(
            self.placements(old(frame)@.window, *env),
        ).placed);
    }

    fn take(&mut self, events: &Vec<Event>) {
        let mut k: usize = 0;
        while k < events.len()
            invariant
                k <= events.len(),
                self.ids == old(self).ids,
                self.state.ball_color == tinted_by(
                    old(self).state.ball_color,
                    self.ids.toggle,
                    events@.take(k as int),
                ),
                moved_by(Some(old(self).state.ball_xy), self.ids, events@.take(k as int))
                    matches Some(point) ==> self.state.ball_xy == point,
            decreases events.len() - k,
        {
            proof {
                assert(events@.take(k + 1).drop_last() =~= events@.take(k as int));
                assert(events@.take(k + 1).last() == events@[k as int]);
            }
            let event = &events[k];
            match &event.action {
                Interaction::Pad { x, y } => {
                    if event.widget == self.ids.xy_pad {
                        self.state.ball_xy = Point { x: *x, y: *y };
                    }
                },
                Interaction::Switch(white) => {
                    if event.widget == self.ids.toggle {
                        self.state.ball_color = if *white {
                            Rgb { red: 255, green: 255, blue: 255 }
                        } else {
                            Rgb { red: 0, green: 0, blue: 0 }
                        };
                    }
                },
                Interaction::Click => {
                    if event.widget == self.ids.button {
                        let x = random_offset();
                        let y = random_offset();
                        self.state.ball_xy = Point { x, y };
                    }
                },
                _ => {},
            }
            k += 1;
        }
        assert(events@.take(k as int) =~= events@);
    }

    fn get_bottom(&self) -> (bottom: Option<WidgetId>) {
        Some(self.ids.button)
    }
}

} // verus!
