//! The widget toolkit, and chance, as this library sees them.
//!
//! Apart from [`has_room`], nothing here is proved. Each of the other
//! functions makes one call outside the library and states what the source
//! of the called crate shows of that call; the verified code relies on these
//! statements and on nothing else about what lies outside.

use vstd::prelude::*;
use crate::id::WidgetId;

verus! {

/// `conrod_core::Ui`, the toolkit instance: opaque here.
#[verifier::external_type_specification]
#[verifier::external_body]
pub struct ExUi(conrod_core::Ui);

/// `conrod_core::event::Input`, a raw input event: opaque here.
#[verifier::external_type_specification]
#[verifier::external_body]
pub struct ExInput(conrod_core::event::Input);

/// `conrod_core::Theme`, the styling defaults of a screen: opaque here.
#[verifier::external_type_specification]
#[verifier::external_body]
pub struct ExTheme(conrod_core::Theme);

/// `conrod_core::image::Id`, the handle of a loaded image: opaque here.
#[verifier::external_type_specification]
#[verifier::external_body]
pub struct ExImageId(conrod_core::image::Id);

/// The number of slots in the widget table of `ui`, used or reserved.
pub uninterp spec fn slots(ui: conrod_core::Ui) -> nat;

/// The slot of the widget that stands for the whole window of `ui`.
pub uninterp spec fn root_slot(ui: conrod_core::Ui) -> nat;

/// The width and the height of the window that `ui` lays its widgets out
/// in, where both are whole numbers of pixels.
pub uninterp spec fn window_size(ui: conrod_core::Ui) -> (nat, nat);

/// The theme that `ui` styles its widgets with.
pub uninterp spec fn theme_of(ui: conrod_core::Ui) -> conrod_core::Theme;

/// The raw input events that `ui` was handed since its last frame, in the
/// order in which it was handed them.
pub uninterp spec fn taken(ui: conrod_core::Ui) -> Seq<conrod_core::event::Input>;

/// The code of the key whose release `event` is, if it is the release of a
/// key.
pub uninterp spec fn released_key(event: conrod_core::event::Input) -> Option<i32>;

/// Whether `theme` is a theme as the toolkit makes it by default.
pub uninterp spec fn default_made(theme: conrod_core::Theme) -> bool;

/// `conrod_core::UiBuilder::new(..).build()`: a toolkit instance for a window
/// of the given size. Its widget table holds one slot, the first, which is
/// that of the window.
#[verifier::external_body]
pub(crate) fn build_ui(size: (u32, u32)) -> (ui: conrod_core::Ui)
    ensures
        slots(ui) == 1,
        root_slot(ui) == 0,
        window_size(ui) == (size.0 as nat, size.1 as nat),
{
    conrod_core::UiBuilder::new([size.0.into(), size.1.into()]).build()
}

/// `conrod_core::widget::id::Generator::next`, on the generator of `ui`:
/// reserves the next slot of the widget table and returns its identifier.
/// Slots are numbered in the order in which they are reserved; the window
/// keeps its slot and its size. The toolkit panics when the table is full,
/// which the precondition excludes.
#[verifier::external_body]
pub(crate) fn reserve_slot(ui: &mut conrod_core::Ui) -> (id: WidgetId)
    requires
        slots(*old(ui)) < u32::MAX,
    ensures
        id.index == slots(*old(ui)),
        slots(*final(ui)) == slots(*old(ui)) + 1,
        root_slot(*final(ui)) == root_slot(*old(ui)),
        window_size(*final(ui)) == window_size(*old(ui)),
{
    WidgetId { index: ui.widget_id_generator().next().index() }
}

/// `conrod_core::graph::Graph::node_count`, on the widget table of `ui`.
#[verifier::external_body]
pub(crate) fn slot_count(ui: &conrod_core::Ui) -> (count: usize)
    ensures
        count == slots(*ui),
{
    ui.widget_graph().node_count()
}

/// Whether the widget table of `ui` has room for `count` more slots.
pub fn has_room(ui: &conrod_core::Ui, count: usize) -> (room: bool)
    ensures
        room == (slots(*ui) + count <= u32::MAX),
{
    let used: usize = slot_count(ui);
    used <= 0xffff_ffff && count <= 0xffff_ffff - used
}

/// The field `window` of `conrod_core::Ui`: the widget that stands for the
/// whole window.
#[verifier::external_body]
pub(crate) fn window_of(ui: &conrod_core::Ui) -> (id: WidgetId)
    ensures
        id.index == root_slot(*ui),
{
    WidgetId { index: ui.window.index() }
}

/// `input::Key::code`, on the key of a `conrod_core::event::Input` that is
/// the release of a key.
#[verifier::external_body]
pub(crate) fn key_released(event: &conrod_core::event::Input) -> (key: Option<i32>)
    ensures
        key == released_key(*event),
{
    match event {
        conrod_core::event::Input::Release(input::Button::Keyboard(key)) => Some(key.code()),
        _ => None,
    }
}

/// `conrod_core::Ui::handle_event`: hands `event` to the toolkit, which
/// keeps it as it is, behind those that it was handed before. What else the
/// toolkit makes of it depends on the clock. It reads its theme and its
/// widget table while it does so, and changes neither.
#[verifier::external_body]
pub(crate) fn forward(ui: &mut conrod_core::Ui, event: conrod_core::event::Input)
    ensures
        taken(*final(ui)) == taken(*old(ui)).push(event),
        theme_of(*final(ui)) == theme_of(*old(ui)),
        slots(*final(ui)) == slots(*old(ui)),
        root_slot(*final(ui)) == root_slot(*old(ui)),
{
    ui.handle_event(event)
}

/// Assigns the field `theme` of `conrod_core::Ui`, and so changes nothing
/// else of it.
#[verifier::external_body]
pub(crate) fn install_theme(ui: &mut conrod_core::Ui, theme: conrod_core::Theme)
    ensures
        theme_of(*final(ui)) == theme,
        taken(*final(ui)) == taken(*old(ui)),
        slots(*final(ui)) == slots(*old(ui)),
        root_slot(*final(ui)) == root_slot(*old(ui)),
        window_size(*final(ui)) == window_size(*old(ui)),
{
    ui.theme = theme;
}

/// `conrod_core::Theme::default`.
#[verifier::external_body]
pub(crate) fn default_theme() -> (theme: conrod_core::Theme)
    ensures
        default_made(theme),
{
    conrod_core::Theme::default()
}

/// `rand::random`: a number drawn at random. Nothing holds of it but its
/// type.
#[verifier::external_body]
pub(crate) fn random_offset() -> (offset: i32)
{
    rand::random()
}

} // verus!
