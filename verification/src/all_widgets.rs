//! The screen that shows every widget, in one long scrolling column.

use vstd::prelude::*;
use crate::id::{consecutive, lemma_consecutive_distinct, WidgetId};
use crate::frame::{placements_of, Event, Frame, Placement};
use crate::toolkit::{reserve_slot, root_slot, slots, window_size};
use crate::{compose, Component, Env, Info};

pub mod list;

verus! {

/// The name and the window size of this screen.
pub fn info() -> (info: Info)
    ensures
        info.name@ == "All Widgets"@,
        info.size == (600u32, 420u32),
{
    Info::new("All Widgets", (600, 420))
}

pub struct Ids {
    /// The scrollable canvas.
    pub canvas: WidgetId,
    /// Its scrollbar.
    pub canvas_scrollbar: WidgetId,
    /// A canvas over the whole window that does not scroll. It has a slot,
    /// and is not placed.
    pub overlay: WidgetId,
}

impl Ids {
    /// The identifiers in the order in which they are made.
    pub open spec fn all(self) -> Seq<WidgetId> {
        seq![self.canvas, self.canvas_scrollbar, self.overlay]
    }

    /// Reserves the next slots of `ui`, one for each widget.
    pub fn new(ui: &mut conrod_core::Ui) -> (ids: Ids)
        requires
            slots(*old(ui)) + 3 <= u32::MAX,
        ensures
            ids.all() == consecutive(slots(*old(ui)), 3),
            slots(*final(ui)) == slots(*old(ui)) + 3,
            root_slot(*final(ui)) == root_slot(*old(ui)),
            window_size(*final(ui)) == window_size(*old(ui)),
    {
        let canvas = reserve_slot(ui);
        let canvas_scrollbar = reserve_slot(ui);
        let overlay = reserve_slot(ui);
        let ids = Ids { canvas, canvas_scrollbar, overlay };
        assert(ids.all() =~= consecutive(slots(*old(ui)), 3));
        ids
    }
}

/// One of the components that the column is made of.
pub enum Demo {
    Text(crate::text::Gui),
    Shapes(crate::shapes::Gui),
    Image(crate::image::Gui),
    Buttons(crate::button_xy_pad_toggle::Gui),
    Dialer(crate::number_dialer_plotpath::Gui),
    List(list::Gui),
    Nested(crate::nested_canvas::Gui),
}

impl Component for Demo {
    open spec fn placements(&self, window: WidgetId, env: Env) -> Seq<Placement> {
        match self {
            Demo::Text(gui) => gui.placements(window, env),
            Demo::Shapes(gui) => gui.placements(window, env),
            Demo::Image(gui) => gui.placements(window, env),
            Demo::Buttons(gui) => gui.placements(window, env),
            Demo::Dialer(gui) => gui.placements(window, env),
            Demo::List(gui) => gui.placements(window, env),
            Demo::Nested(gui) => gui.placements(window, env),
        }
    }

    open spec fn bottom(&self) -> Option<WidgetId> {
        match self {
            Demo::Text(gui) => gui.bottom(),
            Demo::Shapes(gui) => gui.bottom(),
            Demo::Image(gui) => gui.bottom(),
            Demo::Buttons(gui) => gui.bottom(),
            Demo::Dialer(gui) => gui.bottom(),
            Demo::List(gui) => gui.bottom(),
            Demo::Nested(gui) => gui.bottom(),
        }
    }

    open spec fn widgets(&self) -> Seq<WidgetId> {
        match self {
            Demo::Text(gui) => gui.widgets(),
            Demo::Shapes(gui) => gui.widgets(),
            Demo::Image(gui) => gui.widgets(),
            Demo::Buttons(gui) => gui.widgets(),
            Demo::Dialer(gui) => gui.widgets(),
            Demo::List(gui) => gui.widgets(),
            Demo::Nested(gui) => gui.widgets(),
        }
    }

    open spec fn follows(&self, prev: &Self, events: Seq<Event>) -> bool {
        match (self, prev) {
            (Demo::Text(gui), Demo::Text(before)) => gui.follows(before, events),
            (Demo::Shapes(gui), Demo::Shapes(before)) => gui.follows(before, events),
            (Demo::Image(gui), Demo::Image(before)) => gui.follows(before, events),
            (Demo::Buttons(gui), Demo::Buttons(before)) => gui.follows(before, events),
            (Demo::Dialer(gui), Demo::Dialer(before)) => gui.follows(before, events),
            (Demo::List(gui), Demo::List(before)) => gui.follows(before, events),
            (Demo::Nested(gui), Demo::Nested(before)) => gui.follows(before, events),
            _ => false,
        }
    }

    proof fn quiet(&self, prev: &Self) {
        match (self, prev) {
            (Demo::Text(gui), Demo::Text(before)) => gui.quiet(before),
            (Demo::Shapes(gui), Demo::Shapes(before)) => gui.quiet(before),
            (Demo::Image(gui), Demo::Image(before)) => gui.quiet(before),
            (Demo::Buttons(gui), Demo::Buttons(before)) => gui.quiet(before),
            (Demo::Dialer(gui), Demo::Dialer(before)) => gui.quiet(before),
            (Demo::List(gui), Demo::List(before)) => gui.quiet(before),
            (Demo::Nested(gui), Demo::Nested(before)) => gui.quiet(before),
            _ => {},
        }
    }

    proof fn deaf(&self, prev: &Self, events: Seq<Event>) {
        match (self, prev) {
            (Demo::Text(gui), Demo::Text(before)) => gui.deaf(before, events),
            (Demo::Shapes(gui), Demo::Shapes(before)) => gui.deaf(before, events),
            (Demo::Image(gui), Demo::Image(before)) => gui.deaf(before, events),
            (Demo::Buttons(gui), Demo::Buttons(before)) => gui.deaf(before, events),
            (Demo::Dialer(gui), Demo::Dialer(before)) => gui.deaf(before, events),
            (Demo::List(gui), Demo::List(before)) => gui.deaf(before, events),
            (Demo::Nested(gui), Demo::Nested(before)) => gui.deaf(before, events),
            _ => {},
        }
    }

    fn update(&self, frame: &mut Frame, env: &Env) {
        match self {
            Demo::Text(gui) => gui.update(frame, env),
            Demo::Shapes(gui) => gui.update(frame, env),
            Demo::Image(gui) => gui.update(frame, env),
            Demo::Buttons(gui) => gui.update(frame, env),
            Demo::Dialer(gui) => gui.update(frame, env),
            Demo::List(gui) => gui.update(frame, env),
            Demo::Nested(gui) => gui.update(frame, env),
        }
    }

    fn take(&mut self, events: &Vec<Event>) {
        match self {
            Demo::Text(gui) => gui.take(events),
            Demo::Shapes(gui) => gui.take(events),
            Demo::Image(gui) => gui.take(events),
            Demo::Buttons(gui) => gui.take(events),
            Demo::Dialer(gui) => gui.take(events),
            Demo::List(gui) => gui.take(events),
            Demo::Nested(gui) => gui.take(events),
        }
    }

    fn get_bottom(&self) -> (bottom: Option<WidgetId>) {
        match self {
            Demo::Text(gui) => gui.get_bottom(),
            Demo::Shapes(gui) => gui.get_bottom(),
            Demo::Image(gui) => gui.get_bottom(),
            Demo::Buttons(gui) => gui.get_bottom(),
            Demo::Dialer(gui) => gui.get_bottom(),
            Demo::List(gui) => gui.get_bottom(),
            Demo::Nested(gui) => gui.get_bottom(),
        }
    }
}

/// The identifiers of the widgets of `components`, in order.
pub open spec fn ids_of(components: Seq<Demo>) -> Seq<WidgetId>
    decreases components.len(),
{
    if components.len() == 0 {
        Seq::empty()
    } else {
        ids_of(components.drop_last()) + components.last().widgets()
    }
}

/// What is a widget of one of `components` is among the widgets of them all.
pub proof fn lemma_ids_of_contains(components: Seq<Demo>, i: int, id: WidgetId)
    requires
        0 <= i < components.len(),
        components[i].widgets().contains(id),
    ensures
        ids_of(components).contains(id),
    decreases components.len(),
{
    let front = components.drop_last();
    if i == components.len() - 1 {
        let k = choose|k: int| 0 <= k < components[i].widgets().len() && components[i].widgets()[k] == id;
        assert(ids_of(components)[ids_of(front).len() + k] == id);
    } else {
        assert(front[i] == components[i]);
        lemma_ids_of_contains(front, i, id);
        let k = choose|k: int| 0 <= k < ids_of(front).len() && ids_of(front)[k] == id;
        assert(ids_of(components)[k] == id);
    }
}

/// Where the widgets of component `i` start among the widgets of all of
/// `components`.
pub open spec fn offset(components: Seq<Demo>, i: int) -> int {
    ids_of(components.take(i)).len() as int
}

/// The widgets of the first `i` components come first among the widgets of
/// them all.
pub proof fn lemma_ids_of_prefix(components: Seq<Demo>, i: int)
    requires
        0 <= i <= components.len(),
    ensures
        offset(components, i) <= ids_of(components).len(),
        ids_of(components).subrange(0, offset(components, i)) == ids_of(components.take(i)),
    decreases components.len(),
{
    if i == components.len() {
        assert(components.take(i) =~= components);
        assert(ids_of(components).subrange(0, offset(components, i)) =~= ids_of(components));
    } else {
        let front = components.drop_last();
        assert(front.take(i) =~= components.take(i));
        lemma_ids_of_prefix(front, i);
        assert(ids_of(components).subrange(0, offset(components, i)) =~= ids_of(front).subrange(
            0,
            offset(front, i),
        ));
    }
}

/// The widgets of component `i` stand together among the widgets of all of
/// `components`, from its offset up to the offset of the next component.
pub proof fn lemma_ids_of_at(components: Seq<Demo>, i: int, m: int)
    requires
        0 <= i < components.len(),
        0 <= m < components[i].widgets().len(),
    ensures
        offset(components, i + 1) == offset(components, i) + components[i].widgets().len(),
        offset(components, i + 1) <= ids_of(components).len(),
        ids_of(components)[offset(components, i) + m] == components[i].widgets()[m],
{
    let upto = components.take(i + 1);
    assert(upto.drop_last() =~= components.take(i));
    assert(upto.last() == components[i]);
    assert(ids_of(upto) == ids_of(components.take(i)) + components[i].widgets());
    lemma_ids_of_prefix(components, i + 1);
    let p = offset(components, i) + m;
    assert(ids_of(components).subrange(0, offset(components, i + 1))[p] == ids_of(upto)[p]);
}

/// Later components start further on.
pub proof fn lemma_offset_grows(components: Seq<Demo>, i: int, j: int)
    requires
        0 <= i <= j <= components.len(),
    ensures
        offset(components, i) <= offset(components, j),
{
    let upto = components.take(j);
    assert(upto.take(i) =~= components.take(i));
    lemma_ids_of_prefix(upto, i);
}

/// The cursor after `components` were composed in order, starting under the
/// cursor `start`.
pub open spec fn cursor(start: Env, components: Seq<Demo>) -> Env
    decreases components.len(),
{
    if components.len() == 0 {
        start
    } else {
        cursor(start, components.drop_last()).below(components.last().bottom())
    }
}

/// What `components` place when they are composed in order, starting under
/// the cursor `start`: each one is placed under the cursor that those before
/// it left.
pub open spec fn flow(window: WidgetId, start: Env, components: Seq<Demo>) -> Seq<Placement>
    decreases components.len(),
{
    if components.len() == 0 {
        Seq::empty()
    } else {
        flow(window, start, components.drop_last()) + components.last().placements(
            window,
            cursor(start, components.drop_last()),
        )
    }
}

/// The cursor moves down the chain one component at a time: after component
/// `i` it is at that component's lowest widget if it has one, and else where
/// it was after the component before. Its canvas never changes.
pub proof fn lemma_cursor_chain(start: Env, components: Seq<Demo>, i: int)
    requires
        0 <= i < components.len(),
    ensures
        cursor(start, components.take(i + 1)).canvas == start.canvas,
        cursor(start, components.take(i + 1)).last == match components[i].bottom() {
            Some(bottom) => bottom,
            None => cursor(start, components.take(i)).last,
        },
    decreases i,
{
    assert(components.take(i + 1).drop_last() =~= components.take(i));
    assert(components.take(i + 1).last() == components[i]);
    if i > 0 {
        lemma_cursor_chain(start, components, i - 1);
    } else {
        assert(cursor(start, components.take(0)) == start);
    }
}

/// Two chains whose components agree, one by one, on what they place and on
/// where they end, move the cursor alike and place the same widgets.
pub proof fn lemma_flow_alike(window: WidgetId, start: Env, a: Seq<Demo>, b: Seq<Demo>)
    requires
        a.len() == b.len(),
        forall|i: int| 0 <= i < a.len() ==> (#[trigger] a[i]).bottom() == b[i].bottom(),
        forall|i: int, env: Env|
            0 <= i < a.len() ==> (#[trigger] a[i].placements(window, env)) == b[i].placements(
                window,
                env,
            ),
    ensures
        cursor(start, a) == cursor(start, b),
        flow(window, start, a) == flow(window, start, b),
    decreases a.len(),
{
    if a.len() > 0 {
        let front_a = a.drop_last();
        let front_b = b.drop_last();
        assert forall|i: int| 0 <= i < front_a.len() implies (#[trigger] front_a[i]).bottom()
            == front_b[i].bottom() by {
            assert(front_a[i] == a[i] && front_b[i] == b[i]);
        }
        assert forall|i: int, env: Env| 0 <= i < front_a.len() implies (#[trigger] front_a[i].placements(
            window,
            env,
        )) == front_b[i].placements(window, env) by {
            assert(front_a[i] == a[i] && front_b[i] == b[i]);
            assert(a[i].placements(window, env) == b[i].placements(window, env));
        }
        lemma_flow_alike(window, start, front_a, front_b);
        let last = a.len() - 1;
        assert(a.last() == a[last] && b.last() == b[last]);
        assert(a[last].bottom() == b[last].bottom());
        assert(a[last].placements(window, cursor(start, front_a)) == b[last].placements(
            window,
            cursor(start, front_a),
        ));
    }
}

pub struct Gui {
    pub ids: Ids,
    pub components: Vec<Demo>,
    pub crop_kids: crate::crop_kids::Gui,
}

impl Gui {
    /// The number of slots that a new screen reserves.
    pub open spec fn spec_slots() -> nat {
        35
    }

    /// Whether this is the screen as it is made when `first` is the next
    /// free slot. Its widgets have the slots from `first` on, in the order
    /// in which they are made. The column holds, from the top: the text, the
    /// shapes, the image, the ball with its button, pad and switch, the dial
    /// with its plot, the list of switches, and the nested canvas. The ball
    /// is white and in the middle, the dial stands at one cycle, the sixteen
    /// switches are on, and the canvas that crops is open.
    pub open spec fn is_new(self, first: nat, rust_logo: conrod_core::image::Id) -> bool {
        &&& self.widgets() == consecutive(first, Self::spec_slots())
        &&& self.components@.len() == 7
        &&& self.components@[0] is Text
        &&& self.components@[1] is Shapes
        &&& self.components@[2] matches Demo::Image(picture) && picture.state.rust_logo
            == rust_logo
        &&& self.components@[3] matches Demo::Buttons(ball) && ball.state == (
        crate::button_xy_pad_toggle::GuiState {
            ball_xy: (crate::button_xy_pad_toggle::Point { x: 0, y: 0 }),
            ball_color: crate::button_xy_pad_toggle::spec_white(),
        })
        &&& self.components@[4] matches Demo::Dialer(dialer) && dialer.state.sine_frequency == 10
        &&& self.components@[5] matches Demo::List(switches) && switches.state.list@ == Seq::new(
            16,
            |i: int| true,
        )
        &&& self.components@[6] is Nested
        &&& self.crop_kids.state@ == (crate::crop_kids::State {
            running: true,
            message: "Edit this Text Area..."@,
        })
    }

    /// The cursor that the first component is placed under, in a frame for
    /// the window `window`: in the scrollable canvas, below the window.
    pub open spec fn start(self, window: WidgetId) -> Env {
        Env { canvas: self.ids.canvas, last: window }
    }

    /// The screen with its seven components in order, and the canvas that
    /// crops, which stands outside the column.
    pub fn new(ui: &mut conrod_core::Ui, rust_logo: conrod_core::image::Id) -> (gui: Gui)
        requires
            slots(*old(ui)) + Self::spec_slots() <= u32::MAX,
        ensures
            gui.is_new(slots(*old(ui)), rust_logo),
            slots(*final(ui)) == slots(*old(ui)) + Self::spec_slots(),
            root_slot(*final(ui)) == root_slot(*old(ui)),
            window_size(*final(ui)) == window_size(*old(ui)),
    {
        let ids = Ids::new(ui);
        let mut components: Vec<Demo> = Vec::new();
        components.push(Demo::Text(crate::text::Gui::new(ui)));
        components.push(Demo::Shapes(crate::shapes::Gui::new(ui)));
        components.push(Demo::Image(crate::image::Gui::new(ui, rust_logo)));
        components.push(Demo::Buttons(crate::button_xy_pad_toggle::Gui::new(ui)));
        components.push(Demo::Dialer(crate::number_dialer_plotpath::Gui::new(ui)));
        components.push(Demo::List(list::Gui::new(ui)));
        components.push(Demo::Nested(crate::nested_canvas::Gui::new(ui)));
        let crop_kids = crate::crop_kids::Gui::new(ui);
        let gui = Gui { ids, components, crop_kids };
        proof {
            let all = gui.components@;
            let none = all.drop_last().drop_last().drop_last().drop_last().drop_last().drop_last()
                .drop_last();
            assert(none =~= Seq::<Demo>::empty());
            reveal_with_fuel(ids_of, 8);
            assert(ids_of(all) =~= all[0].widgets() + all[1].widgets() + all[2].widgets()
                + all[3].widgets() + all[4].widgets() + all[5].widgets() + all[6].widgets());
            assert(gui.widgets() =~= consecutive(slots(*old(ui)), Self::spec_slots()));
            assert(gui.is_new(slots(*old(ui)), rust_logo));
        }
        gui
    }
}

/// In a screen whose widgets are all different, no widget belongs to two
/// components of the column.
pub proof fn lemma_one_owner(gui: &Gui, i: int, j: int, id: WidgetId)
    requires
        gui.widgets().no_duplicates(),
        0 <= i < gui.components@.len(),
        0 <= j < gui.components@.len(),
        i != j,
        gui.components@[i].widgets().contains(id),
    ensures
        !gui.components@[j].widgets().contains(id),
{
    let all = gui.components@;
    if all[j].widgets().contains(id) {
        let m = choose|m: int| 0 <= m < all[i].widgets().len() && all[i].widgets()[m] == id;
        let n = choose|n: int| 0 <= n < all[j].widgets().len() && all[j].widgets()[n] == id;
        lemma_ids_of_at(all, i, m);
        lemma_ids_of_at(all, j, n);
        if i < j {
            lemma_offset_grows(all, i + 1, j);
        } else {
            lemma_offset_grows(all, j + 1, i);
        }
        let p = offset(all, i) + m;
        let q = offset(all, j) + n;
        assert(gui.widgets()[3 + p] == id);
        assert(gui.widgets()[3 + q] == id);
    }
}

/// In a screen whose widgets are all different, no widget of the canvas that
/// crops belongs to a component of the column.
pub proof fn lemma_crop_apart(gui: &Gui, i: int, id: WidgetId)
    requires
        gui.widgets().no_duplicates(),
        0 <= i < gui.components@.len(),
        gui.crop_kids.widgets().contains(id),
    ensures
        !gui.components@[i].widgets().contains(id),
{
    let all = gui.components@;
    if all[i].widgets().contains(id) {
        let m = choose|m: int| 0 <= m < all[i].widgets().len() && all[i].widgets()[m] == id;
        let n = choose|n: int|
            0 <= n < gui.crop_kids.widgets().len() && gui.crop_kids.widgets()[n] == id;
        lemma_ids_of_at(all, i, m);
        let p = offset(all, i) + m;
        assert(gui.widgets()[3 + p] == id);
        assert(gui.widgets()[3 + ids_of(all).len() + n] == id);
    }
}

/// Interactions with the widgets of one component leave all the others as
/// they were: in a screen whose widgets are all different, where every
/// event of a frame is on a widget of component `i`, each other component
/// of the column, and the canvas that crops, is after the frame what a
/// frame without interactions would have made it.
pub proof fn lemma_others_untouched(after: &Gui, before: &Gui, events: Seq<Event>, i: int)
    requires
        before.widgets().no_duplicates(),
        after.follows(before, events),
        0 <= i < before.components@.len(),
        forall|k: int|
            0 <= k < events.len() ==> before.components@[i].widgets().contains(
                (#[trigger] events[k]).widget,
            ),
    ensures
        forall|j: int|
            0 <= j < before.components@.len() && j != i ==> (#[trigger] after.components@[j]).follows(
                &before.components@[j],
                Seq::empty(),
            ),
        after.crop_kids.follows(&before.crop_kids, Seq::empty()),
{
    let a = after.components@;
    let b = before.components@;
    assert forall|j: int| 0 <= j < b.len() && j != i implies (#[trigger] a[j]).follows(
        &b[j],
        Seq::empty(),
    ) by {
        assert forall|k: int| 0 <= k < events.len() implies !b[j].widgets().contains(
            events[k].widget,
        ) by {
            lemma_one_owner(before, i, j, events[k].widget);
        }
        a[j].deaf(&b[j], events);
    }
    assert forall|k: int| 0 <= k < events.len() implies !before.crop_kids.widgets().contains(
        events[k].widget,
    ) by {
        if before.crop_kids.widgets().contains(events[k].widget) {
            lemma_crop_apart(before, i, events[k].widget);
        }
    }
    after.crop_kids.deaf(&before.crop_kids, events);
}

/// Interactions with the canvas that crops leave the column as it was: in a
/// screen whose widgets are all different, where every event of a frame is
/// on a widget of that canvas, each component of the column is after the
/// frame what a frame without interactions would have made it.
pub proof fn lemma_column_untouched(after: &Gui, before: &Gui, events: Seq<Event>)
    requires
        before.widgets().no_duplicates(),
        after.follows(before, events),
        forall|k: int|
            0 <= k < events.len() ==> before.crop_kids.widgets().contains(
                (#[trigger] events[k]).widget,
            ),
    ensures
        forall|j: int|
            0 <= j < before.components@.len() ==> (#[trigger] after.components@[j]).follows(
                &before.components@[j],
                Seq::empty(),
            ),
{
    let a = after.components@;
    let b = before.components@;
    assert forall|j: int| 0 <= j < b.len() implies (#[trigger] a[j]).follows(
        &b[j],
        Seq::empty(),
    ) by {
        assert forall|k: int| 0 <= k < events.len() implies !b[j].widgets().contains(
            events[k].widget,
        ) by {
            lemma_crop_apart(before, j, events[k].widget);
        }
        a[j].deaf(&b[j], events);
    }
}

/// A screen as it is made has no widget twice.
pub proof fn lemma_new_is_distinct(gui: &Gui, first: nat, rust_logo: conrod_core::image::Id)
    requires
        gui.is_new(first, rust_logo),
        first + Gui::spec_slots() <= usize::MAX + 1,
    ensures
        gui.widgets().no_duplicates(),
{
    lemma_consecutive_distinct(first, Gui::spec_slots());
}

impl Component for Gui {
    /// The canvas, the column, the scrollbar behind them, and last, back
    /// under the canvas itself, the canvas that crops: were it in the
    /// column, dragging it would scroll the column.
    open spec fn placements(&self, window: WidgetId, env: Env) -> Seq<Placement> {
        placements_of(seq![self.ids.canvas], self.start(window)) + flow(
            window,
            self.start(window),
            self.components@,
        ) + placements_of(
            seq![self.ids.canvas_scrollbar],
            cursor(self.start(window), self.components@),
        ) + self.crop_kids.placements(
            window,
            Env { canvas: self.ids.canvas, last: self.ids.canvas },
        )
    }

    open spec fn bottom(&self) -> Option<WidgetId> {
        Some(self.ids.canvas)
    }

    open spec fn widgets(&self) -> Seq<WidgetId> {
        self.ids.all() + ids_of(self.components@) + self.crop_kids.ids.all()
    }

    open spec fn follows(&self, prev: &Self, events: Seq<Event>) -> bool {
        &&& self.ids == prev.ids
        &&& self.components@.len() == prev.components@.len()
        &&& forall|i: int|
            0 <= i < self.components@.len() ==> (#[trigger] self.components@[i]).follows(
                &prev.components@[i],
                events,
            )
        &&& self.crop_kids.follows(&prev.crop_kids, events)
    }

    proof fn quiet(&self, prev: &Self) {
        let a = self.components@;
        let b = prev.components@;
        assert forall|i: int| 0 <= i < a.len() implies (#[trigger] a[i]).bottom()
            == b[i].bottom() by {
            a[i].quiet(&b[i]);
        }
        assert forall|i: int, env: Env, window: WidgetId| 0 <= i < a.len() implies (
        #[trigger] a[i].placements(window, env)) == b[i].placements(window, env) by {
            a[i].quiet(&b[i]);
        }
        self.crop_kids.quiet(&prev.crop_kids);
        assert forall|window: WidgetId, env: Env|
            self.placements(window, env) == prev.placements(window, env) by {
            lemma_flow_alike(window, self.start(window), a, b);
        }
    }

    proof fn deaf(&self, prev: &Self, events: Seq<Event>) {
        let a = self.components@;
        let b = prev.components@;
        assert forall|i: int| 0 <= i < a.len() implies (#[trigger] a[i]).follows(
            &b[i],
            Seq::empty(),
        ) by {
            assert forall|k: int| 0 <= k < events.len() implies !b[i].widgets().contains(
                events[k].widget,
            ) by {
                let id = events[k].widget;
                if b[i].widgets().contains(id) {
                    lemma_ids_of_contains(b, i, id);
                    let j = choose|j: int| 0 <= j < ids_of(b).len() && ids_of(b)[j] == id;
                    assert(prev.widgets()[3 + j] == id);
                }
            }
            a[i].deaf(&b[i], events);
        }
        assert forall|k: int| 0 <= k < events.len() implies !prev.crop_kids.widgets().contains(
            events[k].widget,
        ) by {
            let id = events[k].widget;
            let own = prev.crop_kids.widgets();
            if own.contains(id) {
                let j = choose|j: int| 0 <= j < own.len() && own[j] == id;
                assert(prev.widgets()[3 + ids_of(b).len() + j] == id);
            }
        }
        self.crop_kids.deaf(&prev.crop_kids, events);
    }

    fn update(&self, frame: &mut Frame, _env: &Env) {
        let ghost window = frame@.window;
        let ghost start = self.start(window);
        let canvas = self.ids.canvas;
        let mut env = Env::new(frame);
        env.set_canvas(canvas);
        frame.set(canvas, &env);
        let mut i: usize = 0;
        while i < self.components.len()
            invariant
                i <= self.components@.len(),
                env == cursor(start, self.components@.take(i as int)),
                env.canvas == canvas,
                frame@ == old(frame)@.adding(
                    placements_of(seq![canvas], start) + flow(
                        window,
                        start,
                        self.components@.take(i as int),
                    ),
                ),
                window == old(frame)@.window,
                start == self.start(window),
                canvas == self.ids.canvas,
            decreases self.components@.len() - i,
        {
            compose(&self.components[i], frame, &mut env);
            proof {
                let chain = self.components@;
                assert(chain.take(i + 1).drop_last() =~= chain.take(i as int));
                assert(chain.take(i + 1).last() == chain[i as int]);
                assert(frame@.placed =~= old(frame)@.adding(
                    placements_of(seq![canvas], start) + flow(window, start, chain.take(i + 1)),
                ).placed);
            }
            i += 1;
        }
        assert(self.components@.take(i as int) =~= self.components@);
        frame.set(self.ids.canvas_scrollbar, &env);
        env.set_last(canvas);
        assert(env == (Env { canvas, last: canvas }));
        self.crop_kids.update(frame, &env);
        assert(frame@.placed =~= old(frame)@.adding(self.placements(window, *_env)).placed);
    }

    fn take(&mut self, events: &Vec<Event>) {
        let mut i: usize = 0;
        while i < self.components.len()
            invariant
                i <= self.components@.len(),
                self.ids == old(self).ids,
                self.crop_kids == old(self).crop_kids,
                self.components@.len() == old(self).components@.len(),
                forall|j: int|
                    0 <= j < i ==> (#[trigger] self.components@[j]).follows(
                        &old(self).components@[j],
                        events@,
                    ),
                forall|j: int|
                    i <= j < self.components@.len() ==> self.components@[j] == old(
                        self,
                    ).components@[j],
            decreases self.components@.len() - i,
        {
            self.components[i].take(events);
            i += 1;
        }
        self.crop_kids.take(events);
    }

    fn get_bottom(&self) -> (bottom: Option<WidgetId>) {
        Some(self.ids.canvas)
    }
}

} // verus!
