//! A list of switches whose state is kept by the caller.

use vstd::prelude::*;
use crate::id::{consecutive, WidgetId};
use crate::frame::{placements_of, Event, Frame, Interaction};
use crate::toolkit::{reserve_slot, root_slot, slots, window_size};
use crate::numeral::{decimal, spec_decimal, spec_truth, truth};
use crate::Env;

verus! {

pub struct Ids {
    pub list: WidgetId,
}

impl Ids {
    /// The identifiers in the order in which they are made.
    pub open spec fn all(self) -> Seq<WidgetId> {
        seq![self.list]
    }

    /// Reserves the next slot of `ui` for the list.
    pub fn new(ui: &mut conrod_core::Ui) -> (ids: Ids)
        requires
            slots(*old(ui)) + 1 <= u32::MAX,
        ensures
            ids.all() == consecutive(slots(*old(ui)), 1),
            slots(*final(ui)) == slots(*old(ui)) + 1,
            root_slot(*final(ui)) == root_slot(*old(ui)),
            window_size(*final(ui)) == window_size(*old(ui)),
    {
        let list = reserve_slot(ui);
        let ids = Ids { list };
        assert(ids.all() =~= consecutive(slots(*old(ui)), 1));
        ids
    }
}

/// The switches of a list, by position.
pub struct GuiState {
    pub list: Vec<bool>,
}

/// The label of the switch at position `i`: where it stands and whether it
/// is on.
pub open spec fn spec_label(i: nat, on: bool) -> Seq<char> {
    "item "@ + spec_decimal(i) + ": "@ + spec_truth(on)
}

/// The label of the switch at position `i`.
pub fn label(i: usize, on: bool) -> (text: String)
    ensures
        text@ == spec_label(i as nat, on),
{
    let mut text = "item ".to_owned();
    let number = decimal(i);
    text.append(number.as_str());
    text.append(": ");
    text.append(truth(on));
    text
}

/// Whether `event` is a toggle of item `i` of the list `widget`.
pub open spec fn toggles_item(event: Event, widget: WidgetId, i: int) -> bool {
    event.widget == widget && match event.action {
        Interaction::Toggle { item, .. } => item == i,
        _ => false,
    }
}

/// The switches `list` after `event`, where `widget` is the list that they
/// are shown in: a toggle of one of its items sets that item and no other;
/// anything else, a toggle of an item that the list does not have included,
/// changes nothing.
pub open spec fn toggle(list: Seq<bool>, widget: WidgetId, event: Event) -> Seq<bool> {
    match event.action {
        Interaction::Toggle { item, value } => if event.widget == widget && item < list.len() {
            list.update(item as int, value)
        } else {
            list
        },
        _ => list,
    }
}

/// The switches `list` after all of `events`, in order.
pub open spec fn toggled(list: Seq<bool>, widget: WidgetId, events: Seq<Event>) -> Seq<bool>
    decreases events.len(),
{
    if events.len() == 0 {
        list
    } else {
        toggle(toggled(list, widget, events.drop_last()), widget, events.last())
    }
}

/// Toggling never changes how many switches there are.
pub proof fn lemma_toggled_len(list: Seq<bool>, widget: WidgetId, events: Seq<Event>)
    ensures
        toggled(list, widget, events).len() == list.len(),
    decreases events.len(),
{
    if events.len() > 0 {
        lemma_toggled_len(list, widget, events.drop_last());
    }
}

/// A switch changes only through a toggle of its own item in its own list:
/// where no event of `events` is such a toggle of item `i`, switch `i` is
/// after them what it was before.
pub proof fn lemma_toggled_keeps(list: Seq<bool>, widget: WidgetId, events: Seq<Event>, i: int)
    requires
        0 <= i < list.len(),
        forall|k: int| 0 <= k < events.len() ==> !toggles_item(#[trigger] events[k], widget, i),
    ensures
        toggled(list, widget, events).len() == list.len(),
        toggled(list, widget, events)[i] == list[i],
    decreases events.len(),
{
    lemma_toggled_len(list, widget, events);
    if events.len() > 0 {
        let front = events.drop_last();
        assert forall|k: int| 0 <= k < front.len() implies !toggles_item(
            #[trigger] front[k],
            widget,
            i,
        ) by {
            assert(front[k] == events[k]);
        }
        lemma_toggled_keeps(list, widget, front, i);
        lemma_toggled_len(list, widget, front);
        assert(events.last() == events[events.len() - 1]);
    }
}

/// Events on other widgets than the list leave its switches as they were.
pub proof fn lemma_toggled_foreign(list: Seq<bool>, widget: WidgetId, events: Seq<Event>)
    requires
        forall|k: int| 0 <= k < events.len() ==> (#[trigger] events[k]).widget != widget,
    ensures
        toggled(list, widget, events) == list,
    decreases events.len(),
{
    if events.len() > 0 {
        let front = events.drop_last();
        assert forall|k: int| 0 <= k < front.len() implies (#[trigger] front[k]).widget
            != widget by {
            assert(front[k] == events[k]);
        }
        lemma_toggled_foreign(list, widget, front);
        assert(events.last() == events[events.len() - 1]);
    }
}

/// Takes the toggles that `events` hold for the list `widget` into `list`.
pub fn apply_toggles(list: &mut Vec<bool>, widget: WidgetId, events: &Vec<Event>)
    ensures
        final(list)@ == toggled(old(list)@, widget, events@),
{
    let mut k: usize = 0;
    while k < events.len()
        invariant
            k <= events.len(),
            list@ == toggled(old(list)@, widget, events@.take(k as int)),
        decreases events.len() - k,
    {
        proof {
            assert(events@.take(k + 1).drop_last() =~= events@.take(k as int));
            assert(events@.take(k + 1).last() == events@[k as int]);
        }
        let event = &events[k];
        match &event.action {
            Interaction::Toggle { item, value } => {
                if event.widget == widget && *item < list.len() {
                    list.set(*item, *value);
                }
            },
            _ => {},
        }
        k += 1;
    }
    assert(events@.take(k as int) =~= events@);
}

pub struct Gui {
    pub ids: Ids,
}

impl Gui {
    pub fn new(ui: &mut conrod_core::Ui) -> (gui: Gui)
        requires
            slots(*old(ui)) + 1 <= u32::MAX,
        ensures
            gui.ids.all() == consecutive(slots(*old(ui)), 1),
            slots(*final(ui)) == slots(*old(ui)) + 1,
            root_slot(*final(ui)) == root_slot(*old(ui)),
            window_size(*final(ui)) == window_size(*old(ui)),
    {
        Gui { ids: Ids::new(ui) }
    }

    /// Places the list in `frame`, under the cursor of the window.
    pub fn update(&self, frame: &mut Frame)
        ensures
            final(frame)@ == old(frame)@.adding(
                placements_of(
                    self.ids.all(),
                    Env { canvas: old(frame)@.window, last: old(frame)@.window },
                ),
            ),
    {
        let env = Env::new(frame);
        frame.set(self.ids.list, &env);
        assert(frame@.placed =~= old(frame)@.adding(placements_of(self.ids.all(), env)).placed);
    }

    /// Takes the toggles that the toolkit reported for the list into the
    /// switches of `app`.
    pub fn take(&self, app: &mut GuiState, events: &Vec<Event>)
        ensures
            final(app).list@ == toggled(old(app).list@, self.ids.list, events@),
    {
        apply_toggles(&mut app.list, self.ids.list, events);
    }
}

} // verus!
