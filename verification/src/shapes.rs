//! A gallery of shapes: lines, rectangles, a trapezoid, ovals and a circle,
//! in two rows on a canvas of their own.

use vstd::prelude::*;
use crate::id::{consecutive, WidgetId};
use crate::frame::{placements_of, Event, Frame, Placement};
use crate::toolkit::{reserve_slot, root_slot, slots, window_size};
use crate::{Component, Env};

verus! {

pub struct Ids {
    pub shapes_canvas: WidgetId,
    pub rounded_rectangle: WidgetId,
    pub shapes_left_col: WidgetId,
    pub shapes_right_col: WidgetId,
    pub shapes_title: WidgetId,
    pub line: WidgetId,
    pub point_path: WidgetId,
    pub rectangle_fill: WidgetId,
    pub rectangle_outline: WidgetId,
    pub trapezoid: WidgetId,
    pub oval_fill: WidgetId,
    pub oval_outline: WidgetId,
    pub circle: WidgetId,
}

impl Ids {
    /// The identifiers in the order in which they are made.
    pub open spec fn all(self) -> Seq<WidgetId> {
        seq![
            self.shapes_canvas, self.rounded_rectangle, self.shapes_left_col,
            self.shapes_right_col, self.shapes_title, self.line, self.point_path,
            self.rectangle_fill, self.rectangle_outline, self.trapezoid, self.oval_fill,
            self.oval_outline, self.circle,
        ]
    }

    /// The widgets that the gallery places itself, in the order in which it
    /// places them. The two rows are placed by the toolkit, together with
    /// the canvas that they split.
    pub open spec fn set(self) -> Seq<WidgetId> {
        seq![
            self.shapes_title, self.shapes_canvas, self.rounded_rectangle, self.line,
            self.point_path, self.rectangle_fill, self.rectangle_outline, self.trapezoid,
            self.oval_fill, self.oval_outline, self.circle,
        ]
    }

    /// Reserves the next slots of `ui`, one for each widget.
    pub fn new(ui: &mut conrod_core::Ui) -> (ids: Ids)
        requires
            slots(*old(ui)) + 13 <= u32::MAX,
        ensures
            ids.all() == consecutive(slots(*old(ui)), 13),
            slots(*final(ui)) == slots(*old(ui)) + 13,
            root_slot(*final(ui)) == root_slot(*old(ui)),
            window_size(*final(ui)) == window_size(*old(ui)),
    {
        let shapes_canvas = reserve_slot(ui);
        let rounded_rectangle = reserve_slot(ui);
        let shapes_left_col = reserve_slot(ui);
        let shapes_right_col = reserve_slot(ui);
        let shapes_title = reserve_slot(ui);
        let line = reserve_slot(ui);
        let point_path = reserve_slot(ui);
        let rectangle_fill = reserve_slot(ui);
        let rectangle_outline = reserve_slot(ui);
        let trapezoid = reserve_slot(ui);
        let oval_fill = reserve_slot(ui);
        let oval_outline = reserve_slot(ui);
        let circle = reserve_slot(ui);
        let ids = Ids {
            shapes_canvas, rounded_rectangle, shapes_left_col, shapes_right_col, shapes_title,
            line, point_path, rectangle_fill, rectangle_outline, trapezoid, oval_fill,
            oval_outline, circle,
        };
        assert(ids.all() =~= consecutive(slots(*old(ui)), 13));
        ids
    }
}

pub struct Gui {
    pub ids: Ids,
}

impl Gui {
    pub fn new(ui: &mut conrod_core::Ui) -> (gui: Gui)
        requires
            slots(*old(ui)) + 13 <= u32::MAX,
        ensures
            gui.ids.all() == consecutive(slots(*old(ui)), 13),
            slots(*final(ui)) == slots(*old(ui)) + 13,
            root_slot(*final(ui)) == root_slot(*old(ui)),
            window_size(*final(ui)) == window_size(*old(ui)),
    {
        Gui { ids: Ids::new(ui) }
    }
}

impl Component for Gui {
    open spec fn placements(&self, window: WidgetId, env: Env) -> Seq<Placement> {
        placements_of(self.ids.set(), env)
    }

    open spec fn bottom(&self) -> Option<WidgetId> {
        Some(self.ids.shapes_canvas)
    }

    open spec fn widgets(&self) -> Seq<WidgetId> {
        self.ids.all()
    }

    open spec fn follows(&self, prev: &Self, events: Seq<Event>) -> bool {
        *self == *prev
    }

    proof fn quiet(&self, prev: &Self) {
    }

    proof fn deaf(&self, prev: &Self, events: Seq<Event>) {
    }

    fn update(&self, frame: &mut Frame, env: &Env) {
        frame.set(self.ids.shapes_title, env);
        frame.set(self.ids.shapes_canvas, env);
        frame.set(self.ids.rounded_rectangle, env);
        frame.set(self.ids.line, env);
        frame.set(self.ids.point_path, env);
        frame.set(self.ids.rectangle_fill, env);
        frame.set(self.ids.rectangle_outline, env);
        frame.set(self.ids.trapezoid, env);
        frame.set(self.ids.oval_fill, env);
        frame.set(self.ids.oval_outline, env);
        frame.set(self.ids.circle, env);
        assert(frame@.placed =~= old(frame)@.adding(
            self.placements(old(frame)@.window, *env),
        ).placed);
    }

    fn take(&mut self, events: &Vec<Event>) {
    }

    fn get_bottom(&self) -> (bottom: Option<WidgetId>) {
        Some(self.ids.shapes_canvas)
    }
}

} // verus!
