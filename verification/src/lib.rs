//! Shared state and per-frame composition for a set of widget demo screens.
//!
//! A screen is a chain of components. Each frame the chain is replayed in
//! order: a component places its widgets below the widget that the one
//! before it ended on. Then each takes the interactions that the toolkit
//! reported for its widgets into its own state. The [`Manager`] owns the
//! toolkit instance and the screens, and moves to the next screen on a key
//! release.

use vstd::prelude::*;

pub mod id;
pub mod toolkit;
pub mod frame;
pub mod all_widgets;
pub mod button_xy_pad_toggle;
pub mod canvas;
pub mod crop_kids;
pub mod image;
pub mod list;
pub mod manager;
pub mod nested_canvas;
pub mod number_dialer_plotpath;
pub mod old_demo;
pub mod shapes;
pub mod template;
pub mod text;
pub mod numeral;

pub use crate::id::WidgetId;
pub use crate::manager::{Example, Manager, Screen};
pub use crate::frame::{Event, Frame, FrameView, Interaction, Placement};

verus! {

/// What a window needs to know of a screen: its name and its size in pixels.
pub struct Info {
    pub name: String,
    pub size: (u32, u32),
}

impl Clone for Info {
    fn clone(&self) -> (copy: Info)
        ensures
            copy == *self,
    {
        Info { name: self.name.clone(), size: self.size }
    }
}

impl Info {
    pub fn new(name: &str, size: (u32, u32)) -> (info: Info)
        ensures
            info.name@ == name@,
            info.size == size,
    {
        Info { name: name.to_owned(), size }
    }
}

/// Builds window titles that all start with the same prefix.
pub struct Namer {
    pub prefix: String,
}

impl Namer {
    /// The title of the window that shows the screen called `example_name`
    /// under a namer with this prefix.
    pub open spec fn spec_title(prefix: Seq<char>, example_name: Seq<char>) -> Seq<char> {
        prefix + " - "@ + example_name + ", [Tab] Changes Example"@
    }

    pub fn new(prefix: &str) -> (namer: Namer)
        ensures
            namer.prefix@ == prefix@,
    {
        Namer { prefix: prefix.to_owned() }
    }

    pub fn title(&self, example_name: &str) -> (title: String)
        ensures
            title@ == Self::spec_title(self.prefix@, example_name@),
    {
        let mut title = self.prefix.clone();
        title.append(" - ");
        title.append(example_name);
        title.append(", [Tab] Changes Example");
        title
    }
}

/// The cursor of a composition: the canvas that widgets are laid out in, and
/// the widget that was placed last, below which the next one goes.
#[derive(Clone, Copy, PartialEq, Eq, Structural, Debug)]
pub struct Env {
    pub canvas: WidgetId,
    pub last: WidgetId,
}

impl Env {
    /// The cursor after a component whose lowest widget is `bottom` was
    /// composed under this one. A component without such a widget leaves the
    /// cursor where it was.
    pub open spec fn below(self, bottom: Option<WidgetId>) -> Env {
        match bottom {
            Some(last) => Env { canvas: self.canvas, last },
            None => self,
        }
    }

    /// The cursor at the start of a frame: both at the window.
    pub fn new(frame: &Frame) -> (env: Env)
        ensures
            env == (Env { canvas: frame@.window, last: frame@.window }),
    {
        Env { canvas: frame.window(), last: frame.window() }
    }

    pub fn set_canvas(&mut self, canvas: WidgetId)
        ensures
            *final(self) == (Env { canvas, last: old(self).last }),
    {
        self.canvas = canvas;
    }

    pub fn set_last(&mut self, last: WidgetId)
        ensures
            *final(self) == (Env { canvas: old(self).canvas, last }),
    {
        self.last = last;
    }

    pub fn get(&self) -> (pair: (WidgetId, WidgetId))
        ensures
            pair == (self.canvas, self.last),
    {
        (self.canvas, self.last)
    }
}

/// A part of a screen that places its own widgets and keeps its own state.
///
/// A frame has two steps. First the component is composed: it says which
/// widgets are placed, and the toolkit places them. Then it takes the
/// interactions that the toolkit reported for the widgets of that frame.
pub trait Component {
    /// The widgets that an update under the cursor `env` places in a frame
    /// for the window `window`, in order, each with the cursor that it is
    /// placed under.
    spec fn placements(&self, window: WidgetId, env: Env) -> Seq<Placement>;

    /// The widget below which the next component goes, if this component
    /// takes part in the flow.
    spec fn bottom(&self) -> Option<WidgetId>;

    /// The widgets that are this component's own, in the order in which
    /// they were made.
    spec fn widgets(&self) -> Seq<WidgetId>;

    /// Whether this component is what `prev` becomes by taking the
    /// interactions `events`.
    spec fn follows(&self, prev: &Self, events: Seq<Event>) -> bool;

    /// A frame without interactions changes nothing that shows: the
    /// component places the same widgets again, and ends on the same one.
    proof fn quiet(&self, prev: &Self)
        requires
            self.follows(prev, Seq::empty()),
        ensures
            self.bottom() == prev.bottom(),
            forall|window: WidgetId, env: Env|
                self.placements(window, env) == prev.placements(window, env),
    ;

    /// A component hears only of its own widgets: interactions with other
    /// widgets leave it as a frame without interactions would.
    proof fn deaf(&self, prev: &Self, events: Seq<Event>)
        requires
            self.follows(prev, events),
            forall|k: int| 0 <= k < events.len() ==> !prev.widgets().contains(events[k].widget),
        ensures
            self.follows(prev, Seq::empty()),
    ;

    /// Composes this component into `frame` under the cursor `env`: adds
    /// the widgets that it places.
    fn update(&self, frame: &mut Frame, env: &Env)
        ensures
            final(frame)@ == old(frame)@.adding(self.placements(old(frame)@.window, *env)),
    ;

    /// Takes the interactions that the toolkit reported for the widgets of
    /// a frame into the component's state.
    fn take(&mut self, events: &Vec<Event>)
        ensures
            final(self).follows(old(self), events@),
            final(self).bottom() == old(self).bottom(),
    ;

    /// The widget that the next component is placed below.
    fn get_bottom(&self) -> (bottom: Option<WidgetId>)
        ensures
            bottom == self.bottom(),
    ;

    /// Composes this component into `frame` as a whole screen, under the
    /// cursor of the window.
    fn set_widgets(&self, frame: &mut Frame)
        ensures
            final(frame)@ == old(frame)@.adding(
                self.placements(
                    old(frame)@.window,
                    Env { canvas: old(frame)@.window, last: old(frame)@.window },
                ),
            ),
    {
        let env = Env::new(frame);
        self.update(frame, &env);
    }
}

/// Composes `component` into `frame` under the cursor `env`, and moves the
/// cursor below it.
pub fn compose<C: Component>(component: &C, frame: &mut Frame, env: &mut Env)
    ensures
        final(frame)@ == old(frame)@.adding(component.placements(old(frame)@.window, *old(env))),
        *final(env) == old(env).below(component.bottom()),
{
    component.update(frame, env);
    if let Some(last) = component.get_bottom() {
        env.set_last(last);
    }
}

} // verus!
