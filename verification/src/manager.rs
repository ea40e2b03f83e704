//! The screens, and the manager that shows one of them at a time.

use vstd::prelude::*;
use vstd::arithmetic::div_mod::lemma_add_mod_noop_right;
use vstd::arithmetic::div_mod::lemma_small_mod;
use vstd::arithmetic::div_mod::lemma_mod_self_0;
use crate::id::{consecutive, WidgetId};
use crate::frame::{Event, Frame, Placement};
use crate::toolkit::{build_ui, default_theme, forward, install_theme, key_released, window_of};
use crate::toolkit::{default_made, released_key, root_slot, slots, taken, theme_of};
use crate::toolkit::window_size;
use crate::{Component, Env, Info};

verus! {

/// One of the screens that the manager can show.
pub enum Screen {
    AllWidgets(crate::all_widgets::Gui),
    Canvas(crate::canvas::Gui),
    OldDemo(crate::old_demo::Gui),
}

impl Component for Screen {
    open spec fn placements(&self, window: WidgetId, env: Env) -> Seq<Placement> {
        match self {
            Screen::AllWidgets(gui) => gui.placements(window, env),
            Screen::Canvas(gui) => gui.placements(window, env),
            Screen::OldDemo(gui) => gui.placements(window, env),
        }
    }

    open spec fn bottom(&self) -> Option<WidgetId> {
        match self {
            Screen::AllWidgets(gui) => gui.bottom(),
            Screen::Canvas(gui) => gui.bottom(),
            Screen::OldDemo(gui) => gui.bottom(),
        }
    }

    open spec fn widgets(&self) -> Seq<WidgetId> {
        match self {
            Screen::AllWidgets(gui) => gui.widgets(),
            Screen::Canvas(gui) => gui.widgets(),
            Screen::OldDemo(gui) => gui.widgets(),
        }
    }

    open spec fn follows(&self, prev: &Self, events: Seq<Event>) -> bool {
        match (self, prev) {
            (Screen::AllWidgets(gui), Screen::AllWidgets(before)) => gui.follows(before, events),
            (Screen::Canvas(gui), Screen::Canvas(before)) => gui.follows(before, events),
            (Screen::OldDemo(gui), Screen::OldDemo(before)) => gui.follows(before, events),
            _ => false,
        }
    }

    proof fn quiet(&self, prev: &Self) {
        match (self, prev) {
            (Screen::AllWidgets(gui), Screen::AllWidgets(before)) => gui.quiet(before),
            (Screen::Canvas(gui), Screen::Canvas(before)) => gui.quiet(before),
            (Screen::OldDemo(gui), Screen::OldDemo(before)) => gui.quiet(before),
            _ => {},
        }
    }

    proof fn deaf(&self, prev: &Self, events: Seq<Event>) {
        match (self, prev) {
            (Screen::AllWidgets(gui), Screen::AllWidgets(before)) => gui.deaf(before, events),
            (Screen::Canvas(gui), Screen::Canvas(before)) => gui.deaf(before, events),
            (Screen::OldDemo(gui), Screen::OldDemo(before)) => gui.deaf(before, events),
            _ => {},
        }
    }

    fn update(&self, frame: &mut Frame, env: &Env) {
        match self {
            Screen::AllWidgets(gui) => gui.update(frame, env),
            Screen::Canvas(gui) => gui.update(frame, env),
            Screen::OldDemo(gui) => gui.update(frame, env),
        }
    }

    fn take(&mut self, events: &Vec<Event>) {
        match self {
            Screen::AllWidgets(gui) => gui.take(events),
            Screen::Canvas(gui) => gui.take(events),
            Screen::OldDemo(gui) => gui.take(events),
        }
    }

    fn get_bottom(&self) -> (bottom: Option<WidgetId>) {
        match self {
            Screen::AllWidgets(gui) => gui.get_bottom(),
            Screen::Canvas(gui) => gui.get_bottom(),
            Screen::OldDemo(gui) => gui.get_bottom(),
        }
    }
}

/// Which theme a screen is shown in.
#[derive(Clone, Copy, PartialEq, Eq, Structural, Debug)]
pub enum Style {
    /// The theme that the toolkit makes by default.
    Default,
    /// The theme of the demonstration, which the manager is given a maker
    /// for.
    Demo,
}

/// Whether `theme` is a theme for a screen shown in `style`, where `demo`
/// makes the theme of the demonstration.
pub open spec fn suits<F: Fn() -> conrod_core::Theme>(
    style: Style,
    demo: F,
    theme: conrod_core::Theme,
) -> bool {
    match style {
        Style::Default => default_made(theme),
        Style::Demo => call_ensures(demo, (), theme),
    }
}

/// A screen together with what its window needs to know of it, and the theme
/// that it is shown in.
pub struct Example {
    pub info: Info,
    pub component: Screen,
    pub theme: Style,
}

impl Example {
    /// An example in the toolkit's default theme.
    pub fn new(info: Info, component: Screen) -> (example: Example)
        ensures
            example.info == info,
            example.component == component,
            example.theme == Style::Default,
    {
        Example { info, component, theme: Style::Default }
    }

    /// The same example, shown in `theme`.
    pub fn with_theme(self, theme: Style) -> (example: Example)
        ensures
            example.info == self.info,
            example.component == self.component,
            example.theme == theme,
    {
        Example { info: self.info, component: self.component, theme }
    }

    /// Makes the theme of this example, where `demo` makes the theme of the
    /// demonstration.
    pub fn theme<F: Fn() -> conrod_core::Theme>(&self, demo: &F) -> (theme: conrod_core::Theme)
        requires
            call_requires(*demo, ()),
        ensures
            suits(self.theme, *demo, theme),
    {
        match self.theme {
            Style::Default => default_theme(),
            Style::Demo => demo(),
        }
    }

    pub fn info(&self) -> (info: &Info)
        ensures
            *info == self.info,
    {
        &self.info
    }

    /// Composes the screen into `frame`, under the cursor of the window.
    pub fn set_widgets(&self, frame: &mut Frame)
        ensures
            final(frame)@ == old(frame)@.adding(
                self.component.placements(
                    old(frame)@.window,
                    Env { canvas: old(frame)@.window, last: old(frame)@.window },
                ),
            ),
    {
        self.component.set_widgets(frame);
    }
}

/// The code of the Tab key, whose release moves on to the next example.
pub const TAB: i32 = 9;

/// The example that follows example `id` when there are `count` of them:
/// the next one, and the first one after the last.
pub open spec fn next_example(id: int, count: int) -> int {
    (id + 1) % count
}

/// The example that is shown after `steps` moves to the next example,
/// starting at example `id`.
pub open spec fn example_after(id: int, count: int, steps: nat) -> int
    decreases steps,
{
    if steps == 0 {
        id
    } else {
        next_example(example_after(id, count, (steps - 1) as nat), count)
    }
}

/// Every example has one successor, which is an example again, and no two
/// examples share theirs.
pub proof fn lemma_one_successor(a: int, b: int, count: int)
    requires
        0 <= a < count,
        0 <= b < count,
    ensures
        0 <= next_example(a, count) < count,
        next_example(a, count) == next_example(b, count) ==> a == b,
{
    lemma_mod_self_0(count);
    if a + 1 < count {
        lemma_small_mod((a + 1) as nat, count as nat);
    }
    if b + 1 < count {
        lemma_small_mod((b + 1) as nat, count as nat);
    }
}

/// Moving on `steps` times from example `id` leads to the example that lies
/// `steps` further on, counted round the cycle.
pub proof fn lemma_example_after(id: int, count: int, steps: nat)
    requires
        0 <= id < count,
    ensures
        example_after(id, count, steps) == (id + steps) % count,
    decreases steps,
{
    if steps == 0 {
        lemma_small_mod(id as nat, count as nat);
    } else {
        lemma_example_after(id, count, (steps - 1) as nat);
        lemma_add_mod_noop_right(1, id + steps - 1, count);
    }
}

/// Moving on as many times as there are examples leads back to the example
/// that one started from.
pub proof fn lemma_full_cycle(id: int, count: int)
    requires
        0 <= id < count,
    ensures
        example_after(id, count, count as nat) == id,
{
    lemma_example_after(id, count, count as nat);
    assert((id + count) % count == id) by (nonlinear_arith)
        requires
            0 <= id < count,
    ;
}

/// The toolkit instance, the screens, and which of them is shown. `demo`
/// makes the theme of the demonstration.
pub struct Manager<F: Fn() -> conrod_core::Theme> {
    examples: Vec<Example>,
    example_id: usize,
    ui: conrod_core::Ui,
    demo: F,
}

impl<F: Fn() -> conrod_core::Theme> Manager<F> {
    /// The screens, in the order in which they are shown.
    pub closed spec fn examples(&self) -> Seq<Example> {
        self.examples@
    }

    /// The index of the screen that is shown.
    pub closed spec fn example_id(&self) -> int {
        self.example_id as int
    }

    /// The toolkit instance.
    pub closed spec fn toolkit(&self) -> conrod_core::Ui {
        self.ui
    }

    /// What makes the theme of the demonstration.
    pub closed spec fn demo(&self) -> F {
        self.demo
    }

    /// There is a screen to show, and the theme of the demonstration can be
    /// made.
    pub closed spec fn wf(&self) -> bool {
        &&& self.example_id < self.examples@.len()
        &&& call_requires(self.demo, ())
    }

    /// The screen that is shown is one of the screens.
    pub proof fn lemma_shown_exists(&self)
        requires
            self.wf(),
        ensures
            0 <= self.example_id() < self.examples().len(),
    {
    }

    /// What the first window needs to know: the name and the size of the
    /// first screen.
    pub fn info() -> (info: Info)
        ensures
            info.name@ == "All Widgets"@,
            info.size == (600u32, 420u32),
    {
        crate::all_widgets::info()
    }

    /// A manager that shows the first of its three screens, with a toolkit
    /// instance for a window of that screen's size. Only the first screen is
    /// shown in the theme of the demonstration, which `demo` makes.
    pub fn new(rust_logo: conrod_core::image::Id, demo: F) -> (manager: Manager<F>)
        requires
            call_requires(demo, ()),
        ensures
            manager.wf(),
            manager.demo() == demo,
            manager.example_id() == 0,
            manager.examples().len() == 3,
            manager.examples()[0].info.name@ == "All Widgets"@,
            manager.examples()[0].info.size == (600u32, 420u32),
            manager.examples()[0].theme == Style::Demo,
            manager.examples()[0].component matches Screen::AllWidgets(gui) && gui.is_new(
                1,
                rust_logo,
            ),
            manager.examples()[1].info.name@ == "Canvas"@,
            manager.examples()[1].info.size == (800u32, 600u32),
            manager.examples()[1].theme == Style::Default,
            manager.examples()[1].component matches Screen::Canvas(gui) && gui.ids.all()
                == consecutive(36, 24),
            manager.examples()[2].info.name@ == "Old Demo"@,
            manager.examples()[2].info.size == (1100u32, 560u32),
            manager.examples()[2].theme == Style::Default,
            manager.examples()[2].component matches Screen::OldDemo(gui) && gui.ids.all()
                == consecutive(60, 1),
            slots(manager.toolkit()) == 61,
            root_slot(manager.toolkit()) == 0,
            window_size(manager.toolkit()) == (600nat, 420nat),
    {
        let size = Self::info().size;
        let mut ui = build_ui(size);
        let mut examples: Vec<Example> = Vec::new();
        examples.push(
            Example::new(
                crate::all_widgets::info(),
                Screen::AllWidgets(crate::all_widgets::Gui::new(&mut ui, rust_logo)),
            ).with_theme(Style::Demo),
        );
        examples.push(
            Example::new(crate::canvas::info(), Screen::Canvas(crate::canvas::Gui::new(&mut ui))),
        );
        examples.push(
            Example::new(
                crate::old_demo::info(),
                Screen::OldDemo(crate::old_demo::Gui::new(&mut ui)),
            ),
        );
        Manager { examples, example_id: 0, ui, demo }
    }

    /// The toolkit instance, to draw it and to load fonts into it.
    pub fn ui(&mut self) -> (ui: &mut conrod_core::Ui)
        ensures
            *ui == old(self).toolkit(),
            final(self).toolkit() == *final(ui),
            final(self).examples() == old(self).examples(),
            final(self).example_id() == old(self).example_id(),
            final(self).demo() == old(self).demo(),
            final(self).wf() == old(self).wf(),
    {
        &mut self.ui
    }

    /// The toolkit instance together with the screen that is shown, to place
    /// the widgets of a frame.
    pub fn stage(&mut self) -> (stage: (&mut conrod_core::Ui, &Example))
        requires
            old(self).wf(),
        ensures
            *stage.0 == old(self).toolkit(),
            *stage.1 == old(self).examples()[old(self).example_id()],
            final(self).toolkit() == *final(stage.0),
            final(self).examples() == old(self).examples(),
            final(self).example_id() == old(self).example_id(),
            final(self).demo() == old(self).demo(),
            final(self).wf(),
    {
        (&mut self.ui, &self.examples[self.example_id])
    }

    /// The screen that is shown.
    pub fn example(&self) -> (example: &Example)
        requires
            self.wf(),
        ensures
            *example == self.examples()[self.example_id()],
    {
        &self.examples[self.example_id]
    }

    fn update_theme(&mut self)
        requires
            old(self).wf(),
        ensures
            final(self).wf(),
            final(self).examples() == old(self).examples(),
            final(self).example_id() == old(self).example_id(),
            final(self).demo() == old(self).demo(),
            suits(
                old(self).examples()[old(self).example_id()].theme,
                old(self).demo(),
                theme_of(final(self).toolkit()),
            ),
            taken(final(self).toolkit()) == taken(old(self).toolkit()),
            slots(final(self).toolkit()) == slots(old(self).toolkit()),
            root_slot(final(self).toolkit()) == root_slot(old(self).toolkit()),
            window_size(final(self).toolkit()) == window_size(old(self).toolkit()),
    {
        let theme = self.examples[self.example_id].theme(&self.demo);
        install_theme(&mut self.ui, theme);
    }

    /// Takes one input event. The release of the Tab key moves on to the
    /// next screen, installs the theme of that screen, and returns its
    /// index: the caller then gives the window that screen's title and size.
    /// The toolkit is not handed that event. Every other event is handed to
    /// the toolkit as it is.
    pub fn handle_event(&mut self, event: conrod_core::event::Input) -> (changed: Option<usize>)
        requires
            old(self).wf(),
        ensures
            final(self).wf(),
            final(self).examples() == old(self).examples(),
            final(self).demo() == old(self).demo(),
            slots(final(self).toolkit()) == slots(old(self).toolkit()),
            root_slot(final(self).toolkit()) == root_slot(old(self).toolkit()),
            changed matches Some(id) ==> id == final(self).example_id(),
            released_key(event) == Some(TAB) ==> {
                let next = next_example(old(self).example_id(), old(self).examples().len() as int);
                &&& changed == Some(next as usize)
                &&& final(self).example_id() == next
                &&& suits(
                    old(self).examples()[next].theme,
                    old(self).demo(),
                    theme_of(final(self).toolkit()),
                )
                &&& taken(final(self).toolkit()) == taken(old(self).toolkit())
                &&& window_size(final(self).toolkit()) == window_size(old(self).toolkit())
            },
            released_key(event) != Some(TAB) ==> {
                &&& changed is None
                &&& final(self).example_id() == old(self).example_id()
                &&& theme_of(final(self).toolkit()) == theme_of(old(self).toolkit())
                &&& taken(final(self).toolkit()) == taken(old(self).toolkit()).push(event)
            },
    {
        let released = key_released(&event);
        let tab = match released {
            Some(code) => code == TAB,
            None => false,
        };
        if tab {
            let count: usize = self.examples.len();
            self.example_id = (self.example_id + 1) % count;
            self.update_theme();
            return Some(self.example_id);
        }
        forward(&mut self.ui, event);
        None
    }

    /// Composes one frame of the screen that is shown: the frame that comes
    /// back holds the widgets to place, in order. Nothing changes by it.
    pub fn update(&mut self) -> (frame: Frame)
        requires
            old(self).wf(),
        ensures
            final(self).wf(),
            final(self).toolkit() == old(self).toolkit(),
            final(self).demo() == old(self).demo(),
            final(self).example_id() == old(self).example_id(),
            final(self).examples() == old(self).examples(),
            ({
                let shown = old(self).examples()[old(self).example_id()];
                let cursor = Env { canvas: frame@.window, last: frame@.window };
                &&& frame@.window.index == root_slot(old(self).toolkit())
                &&& frame@.placed == shown.component.placements(frame@.window, cursor)
            }),
    {
        let mut frame = Frame::new(window_of(&self.ui));
        self.examples[self.example_id].set_widgets(&mut frame);
        assert(frame@.placed =~= old(self).examples()[old(self).example_id()].component.placements(
            frame@.window,
            Env { canvas: frame@.window, last: frame@.window },
        ));
        frame
    }

    /// Takes the interactions that the toolkit reported for the widgets of
    /// the last frame into the screen that is shown.
    pub fn take(&mut self, events: &Vec<Event>)
        requires
            old(self).wf(),
        ensures
            final(self).wf(),
            final(self).toolkit() == old(self).toolkit(),
            final(self).demo() == old(self).demo(),
            final(self).example_id() == old(self).example_id(),
            final(self).examples().len() == old(self).examples().len(),
            ({
                let shown = old(self).example_id();
                let before = old(self).examples();
                let after = final(self).examples();
                &&& forall|i: int| 0 <= i < before.len() && i != shown ==> after[i] == before[i]
                &&& after[shown].info == before[shown].info
                &&& after[shown].theme == before[shown].theme
                &&& after[shown].component.follows(&before[shown].component, events@)
            }),
    {
        self.examples[self.example_id].component.take(events);
    }
}

} // verus!
