//! A screen that splits the window into canvases: a header, three columns
//! with tabs in the middle one, and a footer that holds a matrix of buttons.

use vstd::prelude::*;
use crate::id::{consecutive, WidgetId};
use crate::frame::{placements_of, Event, Frame, Placement};
use crate::toolkit::{reserve_slot, root_slot, slots, window_size};
use crate::{Component, Env, Info};

verus! {

/// The name and the window size of this screen.
pub fn info() -> (info: Info)
    ensures
        info.name@ == "Canvas"@,
        info.size == (800u32, 600u32),
{
    Info::new("Canvas", (800, 600))
}

/// The number of rows of the button matrix.
pub const ROWS: usize = 10;

/// The number of columns of the button matrix.
pub const COLS: usize = 24;

/// How light the button in row `row` and column `col` of a matrix is, as a
/// number of steps.
pub open spec fn spec_shade(row: nat, col: nat) -> nat {
    col + row * col
}

/// How light the button in row `row` and column `col` of a matrix is, as a
/// number of steps. In the button matrix of this screen the steps stay below
/// `ROWS * COLS`.
pub fn shade(row: usize, col: usize) -> (steps: usize)
    requires
        spec_shade(row as nat, col as nat) <= usize::MAX,
    ensures
        steps == spec_shade(row as nat, col as nat),
        row < ROWS && col < COLS ==> steps < ROWS * COLS,
{
    if row < ROWS && col < COLS {
        assert(row * col <= 9 * 23) by (nonlinear_arith)
            requires
                row <= 9,
                col <= 23,
        ;
    }
    assert(0 <= row * col) by (nonlinear_arith)
        requires
            0 <= row,
            0 <= col,
    ;
    col + row * col
}

pub struct Ids {
    pub master: WidgetId,
    pub header: WidgetId,
    pub body: WidgetId,
    pub left_column: WidgetId,
    pub middle_column: WidgetId,
    pub right_column: WidgetId,
    pub footer: WidgetId,
    pub footer_scrollbar: WidgetId,
    pub floating_a: WidgetId,
    pub floating_b: WidgetId,
    pub tabs: WidgetId,
    pub tab_foo: WidgetId,
    pub tab_bar: WidgetId,
    pub tab_baz: WidgetId,
    pub title: WidgetId,
    pub subtitle: WidgetId,
    pub top_left: WidgetId,
    pub bottom_right: WidgetId,
    pub foo_label: WidgetId,
    pub bar_label: WidgetId,
    pub baz_label: WidgetId,
    pub button_matrix: WidgetId,
    pub bing: WidgetId,
    pub bong: WidgetId,
}

impl Ids {
    /// The identifiers in the order in which they are made.
    pub open spec fn all(self) -> Seq<WidgetId> {
        seq![
            self.master, self.header, self.body, self.left_column, self.middle_column,
            self.right_column, self.footer, self.footer_scrollbar, self.floating_a,
            self.floating_b, self.tabs, self.tab_foo, self.tab_bar, self.tab_baz, self.title,
            self.subtitle, self.top_left, self.bottom_right, self.foo_label, self.bar_label,
            self.baz_label, self.button_matrix, self.bing, self.bong,
        ]
    }

    /// The widgets that the screen places itself, in the order in which it
    /// places them. The canvases inside `master` and the tabs inside `tabs`
    /// are placed by the toolkit, together with those two.
    pub open spec fn set(self) -> Seq<WidgetId> {
        seq![
            self.master, self.footer_scrollbar, self.floating_a, self.floating_b, self.tabs,
            self.title, self.subtitle, self.top_left, self.bottom_right, self.foo_label,
            self.bar_label, self.baz_label, self.button_matrix, self.bing, self.bong,
        ]
    }

    /// Reserves the next slots of `ui`, one for each widget.
    pub fn new(ui: &mut conrod_core::Ui) -> (ids: Ids)
        requires
            slots(*old(ui)) + 24 <= u32::MAX,
        ensures
            ids.all() == consecutive(slots(*old(ui)), 24),
            slots(*final(ui)) == slots(*old(ui)) + 24,
            root_slot(*final(ui)) == root_slot(*old(ui)),
            window_size(*final(ui)) == window_size(*old(ui)),
    {
        let master = reserve_slot(ui);
        let header = reserve_slot(ui);
        let body = reserve_slot(ui);
        let left_column = reserve_slot(ui);
        let middle_column = reserve_slot(ui);
        let right_column = reserve_slot(ui);
        let footer = reserve_slot(ui);
        let footer_scrollbar = reserve_slot(ui);
        let floating_a = reserve_slot(ui);
        let floating_b = reserve_slot(ui);
        let tabs = reserve_slot(ui);
        let tab_foo = reserve_slot(ui);
        let tab_bar = reserve_slot(ui);
        let tab_baz = reserve_slot(ui);
        let title = reserve_slot(ui);
        let subtitle = reserve_slot(ui);
        let top_left = reserve_slot(ui);
        let bottom_right = reserve_slot(ui);
        let foo_label = reserve_slot(ui);
        let bar_label = reserve_slot(ui);
        let baz_label = reserve_slot(ui);
        let button_matrix = reserve_slot(ui);
        let bing = reserve_slot(ui);
        let bong = reserve_slot(ui);
        let ids = Ids {
            master, header, body, left_column, middle_column, right_column, footer,
            footer_scrollbar, floating_a, floating_b, tabs, tab_foo, tab_bar, tab_baz, title,
            subtitle, top_left, bottom_right, foo_label, bar_label, baz_label, button_matrix,
            bing, bong,
        };
        assert(ids.all() =~= consecutive(slots(*old(ui)), 24));
        ids
    }
}

pub struct Gui {
    pub ids: Ids,
}

impl Gui {
    pub fn new(ui: &mut conrod_core::Ui) -> (gui: Gui)
        requires
            slots(*old(ui)) + 24 <= u32::MAX,
        ensures
            gui.ids.all() == consecutive(slots(*old(ui)), 24),
            slots(*final(ui)) == slots(*old(ui)) + 24,
            root_slot(*final(ui)) == root_slot(*old(ui)),
            window_size(*final(ui)) == window_size(*old(ui)),
    {
        Gui { ids: Ids::new(ui) }
    }

    /// Composes the screen into `frame`, under the cursor of the window.
    pub fn set_widgets(&self, frame: &mut Frame)
        ensures
            final(frame)@ == old(frame)@.adding(
                self.placements(
                    old(frame)@.window,
                    Env { canvas: old(frame)@.window, last: old(frame)@.window },
                ),
            ),
    {
        let env = Env::new(frame);
        self.update(frame, &env);
    }
}

impl Component for Gui {
    open spec fn placements(&self, window: WidgetId, env: Env) -> Seq<Placement> {
        placements_of(self.ids.set(), env)
    }

    open spec fn bottom(&self) -> Option<WidgetId> {
        None
    }

    open spec fn widgets(&self) -> Seq<WidgetId> {
        self.ids.all()
    }

    open spec fn follows(&self, prev: &Self, events: Seq<Event>) -> bool {
        *self == *prev
    }

    proof fn quiet(&self, prev: &Self) {
    }

    proof fn deaf(&self, prev: &Self, events: Seq<Event>) {
    }

    fn update(&self, frame: &mut Frame, env: &Env) {
        frame.set(self.ids.master, env);
        frame.set(self.ids.footer_scrollbar, env);
        frame.set(self.ids.floating_a, env);
        frame.set(self.ids.floating_b, env);
        frame.set(self.ids.tabs, env);
        frame.set(self.ids.title, env);
        frame.set(self.ids.subtitle, env);
        frame.set(self.ids.top_left, env);
        frame.set(self.ids.bottom_right, env);
        frame.set(self.ids.foo_label, env);
        frame.set(self.ids.bar_label, env);
        frame.set(self.ids.baz_label, env);
        frame.set(self.ids.button_matrix, env);
        frame.set(self.ids.bing, env);
        frame.set(self.ids.bong, env);
        assert(frame@.placed =~= old(frame)@.adding(
            self.placements(old(frame)@.window, *env),
        ).placed);
    }

    fn take(&mut self, events: &Vec<Event>) {
    }

    fn get_bottom(&self) -> (bottom: Option<WidgetId>) {
        None
    }
}

} // verus!
