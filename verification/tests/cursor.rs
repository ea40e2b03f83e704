use conrod_example_shared::all_widgets;
use conrod_example_shared::image;
use conrod_example_shared::template;
use conrod_example_shared::toolkit::has_room;
use conrod_example_shared::{compose, Component, Env, Frame, Placement, WidgetId};

fn new_ui() -> conrod_core::Ui {
    conrod_core::UiBuilder::new([600.0, 420.0]).build()
}

fn logo() -> conrod_core::image::Id {
    conrod_core::image::Map::<()>::new().insert(())
}

fn at(widget: usize, canvas: usize, last: usize) -> Placement {
    Placement {
        widget: WidgetId::new(widget),
        canvas: WidgetId::new(canvas),
        last: WidgetId::new(last),
    }
}

fn column_placements() -> Vec<Placement> {
    let mut expected = vec![at(1, 1, 0), at(4, 1, 0), at(5, 1, 0)];
    for widget in [10, 6, 7, 11, 12, 13, 14, 15, 16, 17, 18] {
        expected.push(at(widget, 1, 5));
    }
    expected.push(at(19, 1, 6));
    expected.push(at(20, 1, 6));
    for widget in 21..26 {
        expected.push(at(widget, 1, 20));
    }
    for widget in 26..29 {
        expected.push(at(widget, 1, 22));
    }
    expected.push(at(29, 1, 28));
    for widget in 30..33 {
        expected.push(at(widget, 1, 28));
    }
    expected.push(at(2, 1, 28));
    for widget in 33..36 {
        expected.push(at(widget, 1, 1));
    }
    expected
}

#[test]
fn widget_id_keeps_its_index() {
    assert_eq!(WidgetId::new(7).index(), 7);
    assert_eq!(WidgetId::new(7), WidgetId::new(7));
    assert_ne!(WidgetId::new(7), WidgetId::new(8));
}

#[test]
fn cursor_starts_at_the_window() {
    let frame = Frame::new(WidgetId::new(0));
    let env = Env::new(&frame);
    assert_eq!(env.get(), (WidgetId::new(0), WidgetId::new(0)));
}

#[test]
fn cursor_setters_change_one_side_each() {
    let frame = Frame::new(WidgetId::new(0));
    let mut env = Env::new(&frame);
    env.set_canvas(WidgetId::new(4));
    assert_eq!(env.get(), (WidgetId::new(4), WidgetId::new(0)));
    env.set_last(WidgetId::new(9));
    assert_eq!(env.get(), (WidgetId::new(4), WidgetId::new(9)));
}

#[test]
fn frame_records_placements_in_order() {
    let mut frame = Frame::new(WidgetId::new(0));
    assert_eq!(frame.window(), WidgetId::new(0));
    assert!(frame.placed().is_empty());
    let env = Env { canvas: WidgetId::new(1), last: WidgetId::new(2) };
    frame.set(WidgetId::new(5), &env);
    frame.set(WidgetId::new(3), &env);
    assert_eq!(frame.placed(), &vec![at(5, 1, 2), at(3, 1, 2)]);
}

#[test]
fn slots_are_reserved_in_order() {
    let mut ui = new_ui();
    assert_eq!(ui.window.index(), 0);
    let first = template::Gui::new(&mut ui);
    let second = image::Gui::new(&mut ui, logo());
    let third = template::Gui::new(&mut ui);
    assert_eq!(first.ids.canvas, WidgetId::new(1));
    assert_eq!(second.ids.image_title, WidgetId::new(2));
    assert_eq!(second.ids.rust_logo, WidgetId::new(3));
    assert_eq!(third.ids.canvas, WidgetId::new(4));
    assert_eq!(ui.widget_graph().node_count(), 5);
}

#[test]
fn a_new_table_has_room() {
    let mut ui = new_ui();
    assert!(has_room(&ui, 24));
    assert!(has_room(&ui, 0xffff_ffff - 1));
    assert!(!has_room(&ui, 0xffff_ffff));
    let _ = template::Gui::new(&mut ui);
    assert!(!has_room(&ui, 0xffff_ffff - 1));
    assert!(has_room(&ui, 0xffff_ffff - 2));
}

#[test]
fn composing_moves_the_cursor_below_a_component_with_a_bottom() {
    let mut ui = new_ui();
    let picture = image::Gui::new(&mut ui, logo());
    let mut frame = Frame::new(WidgetId::new(0));
    let mut env = Env { canvas: WidgetId::new(0), last: WidgetId::new(0) };
    compose(&picture, &mut frame, &mut env);
    assert_eq!(picture.get_bottom(), Some(WidgetId::new(2)));
    assert_eq!(env, Env { canvas: WidgetId::new(0), last: WidgetId::new(2) });
    assert_eq!(frame.placed(), &vec![at(1, 0, 0), at(2, 0, 0)]);
}

#[test]
fn composing_leaves_the_cursor_after_a_component_without_a_bottom() {
    let mut ui = new_ui();
    let switches = all_widgets::list::Gui::new(&mut ui);
    let mut frame = Frame::new(WidgetId::new(0));
    let mut env = Env { canvas: WidgetId::new(0), last: WidgetId::new(77) };
    compose(&switches, &mut frame, &mut env);
    assert_eq!(switches.get_bottom(), None);
    assert_eq!(env, Env { canvas: WidgetId::new(0), last: WidgetId::new(77) });
    assert_eq!(frame.placed(), &vec![at(1, 0, 77)]);
}

#[test]
fn the_column_has_seven_components_in_order() {
    let mut ui = new_ui();
    let gui = all_widgets::Gui::new(&mut ui, logo());
    assert_eq!(gui.components.len(), 7);
    assert!(matches!(gui.components[0], all_widgets::Demo::Text(_)));
    assert!(matches!(gui.components[1], all_widgets::Demo::Shapes(_)));
    assert!(matches!(gui.components[2], all_widgets::Demo::Image(_)));
    assert!(matches!(gui.components[3], all_widgets::Demo::Buttons(_)));
    assert!(matches!(gui.components[4], all_widgets::Demo::Dialer(_)));
    assert!(matches!(gui.components[5], all_widgets::Demo::List(_)));
    assert!(matches!(gui.components[6], all_widgets::Demo::Nested(_)));
    assert_eq!(gui.crop_kids.ids.canvas, WidgetId::new(33));
    assert_eq!(ui.widget_graph().node_count(), 36);
}

#[test]
fn the_column_threads_the_cursor_through_its_components() {
    let mut ui = new_ui();
    let gui = all_widgets::Gui::new(&mut ui, logo());
    let mut frame = Frame::new(WidgetId::new(0));
    gui.set_widgets(&mut frame);
    assert_eq!(frame.placed(), &column_placements());
    assert_eq!(frame.placed().len(), 32);
    assert_eq!(gui.get_bottom(), Some(WidgetId::new(1)));
}

#[test]
fn the_column_anchors_itself_whatever_cursor_it_is_given() {
    let mut ui = new_ui();
    let gui = all_widgets::Gui::new(&mut ui, logo());
    let mut frame = Frame::new(WidgetId::new(0));
    let env = Env { canvas: WidgetId::new(40), last: WidgetId::new(41) };
    gui.update(&mut frame, &env);
    assert_eq!(frame.placed(), &column_placements());
}

#[test]
fn replaying_a_quiet_frame_places_the_same_widgets() {
    let mut ui = new_ui();
    let mut gui = all_widgets::Gui::new(&mut ui, logo());
    let mut first = Frame::new(WidgetId::new(0));
    gui.set_widgets(&mut first);
    gui.take(&Vec::new());
    let mut second = Frame::new(WidgetId::new(0));
    gui.set_widgets(&mut second);
    assert_eq!(first.placed(), second.placed());
    assert_eq!(ui.widget_graph().node_count(), 36);
}
