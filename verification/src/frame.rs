//! One frame of composition: what is placed, and what the toolkit reports.

use vstd::prelude::*;
use crate::id::WidgetId;
use crate::Env;

verus! {

/// What a user did to one widget in a frame.
#[derive(Debug, PartialEq, Eq)]
pub enum Interaction {
    /// A button was clicked.
    Click,
    /// A switch was set to the given value.
    Switch(bool),
    /// Item `item` of a list was switched to `value`.
    Toggle { item: usize, value: bool },
    /// The button in row `row` and column `col` of a matrix was clicked.
    Cell { row: usize, col: usize },
    /// A pad was touched at the given point, in pixels.
    Pad { x: i32, y: i32 },
    /// The content of a text box was replaced by the given text.
    Edit(String),
    /// The enter key was pressed in a text box.
    Enter,
    /// A number dialer was turned to the given value, in tenths.
    Dial(u32),
}

/// An interaction together with the widget that it happened to.
#[derive(Debug, PartialEq, Eq)]
pub struct Event {
    pub widget: WidgetId,
    pub action: Interaction,
}

/// A widget that is placed, with the cursor that it is placed under.
#[derive(Clone, Copy, PartialEq, Eq, Structural, Debug)]
pub struct Placement {
    pub widget: WidgetId,
    pub canvas: WidgetId,
    pub last: WidgetId,
}

/// A frame as a mathematical value.
pub ghost struct FrameView {
    pub window: WidgetId,
    pub placed: Seq<Placement>,
}

impl FrameView {
    /// The frame after `placements` were added to it.
    pub open spec fn adding(self, placements: Seq<Placement>) -> FrameView {
        FrameView { placed: self.placed + placements, ..self }
    }
}

/// The placements of `widgets`, in order, all under the cursor `env`.
pub open spec fn placements_of(widgets: Seq<WidgetId>, env: Env) -> Seq<Placement> {
    Seq::new(
        widgets.len(),
        |i: int| Placement { widget: widgets[i], canvas: env.canvas, last: env.last },
    )
}

/// The widgets of the frame that is being composed, in the order in which
/// the toolkit is to place them.
pub struct Frame {
    window: WidgetId,
    placed: Vec<Placement>,
}

impl View for Frame {
    type V = FrameView;

    closed spec fn view(&self) -> FrameView {
        FrameView { window: self.window, placed: self.placed@ }
    }
}

impl Frame {
    /// An empty frame for the window `window`.
    pub fn new(window: WidgetId) -> (frame: Frame)
        ensures
            frame@ == (FrameView { window, placed: Seq::empty() }),
    {
        Frame { window, placed: Vec::new() }
    }

    /// The widget that stands for the whole window.
    pub fn window(&self) -> (window: WidgetId)
        ensures
            window == self@.window,
    {
        self.window
    }

    /// The widgets placed so far, in the order in which they were placed.
    pub fn placed(&self) -> (placed: &Vec<Placement>)
        ensures
            placed@ == self@.placed,
    {
        &self.placed
    }

    /// Places `widget` under the cursor `env`.
    pub fn set(&mut self, widget: WidgetId, env: &Env)
        ensures
            final(self)@ == old(self)@.adding(placements_of(seq![widget], *env)),
    {
        self.placed.push(Placement { widget, canvas: env.canvas, last: env.last });
        assert(self@.placed =~= old(self)@.adding(placements_of(seq![widget], *env)).placed);
    }
}

} // verus!
