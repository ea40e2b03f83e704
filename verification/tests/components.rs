use conrod_example_shared::all_widgets;
use conrod_example_shared::all_widgets::Demo;
use conrod_example_shared::button_xy_pad_toggle;
use conrod_example_shared::button_xy_pad_toggle::{Point, Rgb};
use conrod_example_shared::canvas;
use conrod_example_shared::crop_kids;
use conrod_example_shared::list;
use conrod_example_shared::nested_canvas;
use conrod_example_shared::number_dialer_plotpath;
use conrod_example_shared::numeral;
use conrod_example_shared::old_demo;
use conrod_example_shared::shapes;
use conrod_example_shared::text;
use conrod_example_shared::{Component, Env, Event, Frame, Interaction, Placement, WidgetId};

fn new_ui() -> conrod_core::Ui {
    conrod_core::UiBuilder::new([600.0, 420.0]).build()
}

fn logo() -> conrod_core::image::Id {
    conrod_core::image::Map::<()>::new().insert(())
}

fn at(widget: usize, canvas: usize, last: usize) -> Placement {
    Placement {
        widget: WidgetId::new(widget),
        canvas: WidgetId::new(canvas),
        last: WidgetId::new(last),
    }
}

fn on(widget: WidgetId, action: Interaction) -> Event {
    Event { widget, action }
}

fn cursor() -> Env {
    Env { canvas: WidgetId::new(0), last: WidgetId::new(0) }
}

fn placed<C: Component>(component: &C) -> Vec<Placement> {
    let mut frame = Frame::new(WidgetId::new(0));
    component.update(&mut frame, &cursor());
    frame.placed().clone()
}

const WHITE: Rgb = Rgb { red: 255, green: 255, blue: 255 };
const BLACK: Rgb = Rgb { red: 0, green: 0, blue: 0 };

#[test]
fn a_new_list_has_sixteen_switches_on() {
    let mut ui = new_ui();
    let gui = all_widgets::list::Gui::new(&mut ui);
    assert_eq!(gui.state.list, vec![true; 16]);
    assert_eq!(gui.ids.list, WidgetId::new(1));
    assert_eq!(placed(&gui), vec![at(1, 0, 0)]);
}

#[test]
fn toggling_item_three_flips_only_item_three() {
    let mut ui = new_ui();
    let mut gui = all_widgets::list::Gui::new(&mut ui);
    gui.take(&vec![on(gui.ids.list, Interaction::Toggle { item: 3, value: false })]);
    let mut expected = vec![true; 16];
    expected[3] = false;
    assert_eq!(gui.state.list, expected);
    for i in 0..16 {
        assert_eq!(gui.state.list[i], i != 3);
    }
}

#[test]
fn toggles_are_taken_in_order() {
    let mut ui = new_ui();
    let mut gui = all_widgets::list::Gui::new(&mut ui);
    gui.take(&vec![
        on(gui.ids.list, Interaction::Toggle { item: 3, value: false }),
        on(gui.ids.list, Interaction::Toggle { item: 0, value: false }),
        on(gui.ids.list, Interaction::Toggle { item: 3, value: true }),
    ]);
    let mut expected = vec![true; 16];
    expected[0] = false;
    assert_eq!(gui.state.list, expected);
}

#[test]
fn a_list_ignores_what_is_not_its_own() {
    let mut ui = new_ui();
    let mut gui = all_widgets::list::Gui::new(&mut ui);
    gui.take(&vec![
        on(WidgetId::new(99), Interaction::Toggle { item: 3, value: false }),
        on(gui.ids.list, Interaction::Toggle { item: 16, value: false }),
        on(gui.ids.list, Interaction::Click),
        on(gui.ids.list, Interaction::Switch(false)),
        on(gui.ids.list, Interaction::Edit(String::from("x"))),
    ]);
    assert_eq!(gui.state.list, vec![true; 16]);
}

#[test]
fn a_list_with_outside_state_updates_that_state() {
    let mut ui = new_ui();
    let gui = list::Gui::new(&mut ui);
    let mut app = list::GuiState { list: vec![false, false, true] };
    let mut frame = Frame::new(WidgetId::new(0));
    gui.update(&mut frame);
    assert_eq!(frame.placed(), &vec![at(1, 0, 0)]);
    assert_eq!(app.list, vec![false, false, true]);
    gui.take(
        &mut app,
        &vec![
            on(gui.ids.list, Interaction::Toggle { item: 1, value: true }),
            on(gui.ids.list, Interaction::Toggle { item: 2, value: false }),
        ],
    );
    assert_eq!(app.list, vec![false, true, false]);
}

#[test]
fn apply_toggles_on_an_empty_list_changes_nothing() {
    let mut switches: Vec<bool> = Vec::new();
    let events = vec![on(WidgetId::new(1), Interaction::Toggle { item: 0, value: true })];
    list::apply_toggles(&mut switches, WidgetId::new(1), &events);
    assert!(switches.is_empty());
}

#[test]
fn labels_name_the_item_and_its_state() {
    assert_eq!(list::label(0, true), "item 0: true");
    assert_eq!(list::label(3, false), "item 3: false");
    assert_eq!(list::label(15, true), "item 15: true");
    assert_eq!(list::label(15, true), format!("item {}: {}", 15, true));
}

#[test]
fn decimal_numerals() {
    assert_eq!(numeral::decimal(0), "0");
    assert_eq!(numeral::decimal(9), "9");
    assert_eq!(numeral::decimal(10), "10");
    assert_eq!(numeral::decimal(4096), "4096");
    assert_eq!(numeral::decimal(1234567890), "1234567890");
    assert_eq!(numeral::decimal(usize::MAX), format!("{}", usize::MAX));
    assert_eq!(numeral::truth(true), "true");
    assert_eq!(numeral::truth(false), "false");
}

#[test]
fn a_new_crop_canvas_is_open() {
    let mut ui = new_ui();
    let gui = crop_kids::Gui::new(&mut ui);
    assert!(gui.state.running);
    assert_eq!(gui.state.message, "Edit this Text Area...");
    assert_eq!(gui.ids.canvas, WidgetId::new(1));
    assert_eq!(gui.ids.button, WidgetId::new(2));
    assert_eq!(gui.ids.text, WidgetId::new(3));
    assert_eq!(gui.get_bottom(), None);
    assert_eq!(placed(&gui), vec![at(1, 0, 0), at(2, 0, 0), at(3, 0, 0)]);
}

#[test]
fn an_edit_replaces_the_message() {
    let mut ui = new_ui();
    let mut gui = crop_kids::Gui::new(&mut ui);
    gui.take(&vec![on(gui.ids.text, Interaction::Edit(String::from("hello")))]);
    assert_eq!(gui.state.message, "hello");
    assert!(gui.state.running);
}

#[test]
fn the_last_edit_wins_and_enter_changes_nothing() {
    let mut ui = new_ui();
    let mut gui = crop_kids::Gui::new(&mut ui);
    gui.take(&vec![
        on(gui.ids.text, Interaction::Edit(String::from("a"))),
        on(gui.ids.text, Interaction::Enter),
        on(gui.ids.text, Interaction::Edit(String::from("ab"))),
        on(gui.ids.button, Interaction::Edit(String::from("no"))),
        on(gui.ids.text, Interaction::Click),
    ]);
    assert_eq!(gui.state.message, "ab");
    assert!(gui.state.running);
}

#[test]
fn a_click_closes_the_canvas_from_the_next_frame_on() {
    let mut ui = new_ui();
    let mut gui = crop_kids::Gui::new(&mut ui);
    assert_eq!(placed(&gui).len(), 3);
    gui.take(&vec![
        on(gui.ids.button, Interaction::Click),
        on(gui.ids.text, Interaction::Edit(String::from("late"))),
    ]);
    assert!(!gui.state.running);
    assert_eq!(gui.state.message, "late");
    assert!(placed(&gui).is_empty());
    gui.take(&vec![on(gui.ids.text, Interaction::Edit(String::from("ignored")))]);
    assert!(!gui.state.running);
    assert_eq!(gui.state.message, "late");
}

#[test]
fn the_dial_sets_the_frequency() {
    let mut ui = new_ui();
    let mut gui = number_dialer_plotpath::Gui::new(&mut ui);
    assert_eq!(gui.state.sine_frequency, 10);
    assert_eq!(number_dialer_plotpath::GuiState::new().sine_frequency, 10);
    gui.take(&vec![
        on(gui.ids.number_dialer, Interaction::Dial(25)),
        on(gui.ids.plot_path, Interaction::Dial(99)),
        on(gui.ids.number_dialer, Interaction::Dial(2000)),
        on(gui.ids.number_dialer, Interaction::Click),
    ]);
    assert_eq!(gui.state.sine_frequency, 2000);
    assert_eq!(gui.get_bottom(), Some(gui.ids.plot_path));
    assert_eq!(placed(&gui), vec![at(1, 0, 0), at(2, 0, 0), at(3, 0, 0)]);
}

#[test]
fn a_new_ball_is_white_and_in_the_middle() {
    let mut ui = new_ui();
    let gui = button_xy_pad_toggle::Gui::new(&mut ui);
    assert_eq!(gui.state.ball_xy, Point { x: 0, y: 0 });
    assert_eq!(gui.state.ball_color, WHITE);
    assert_eq!(button_xy_pad_toggle::GuiState::new(), gui.state);
    assert_eq!(gui.get_bottom(), Some(gui.ids.button));
    assert_eq!(gui.ids.button, WidgetId::new(2));
    assert_eq!(placed(&gui).len(), 5);
    assert_eq!(placed(&gui)[4], at(5, 0, 0));
}

#[test]
fn the_pad_moves_the_ball_and_the_switch_colours_it() {
    let mut ui = new_ui();
    let mut gui = button_xy_pad_toggle::Gui::new(&mut ui);
    gui.take(&vec![
        on(gui.ids.xy_pad, Interaction::Pad { x: 12, y: -7 }),
        on(gui.ids.toggle, Interaction::Switch(false)),
        on(gui.ids.ball, Interaction::Pad { x: 1, y: 1 }),
        on(gui.ids.button_title, Interaction::Click),
    ]);
    assert_eq!(gui.state.ball_xy, Point { x: 12, y: -7 });
    assert_eq!(gui.state.ball_color, BLACK);
    gui.take(&vec![on(gui.ids.toggle, Interaction::Switch(true))]);
    assert_eq!(gui.state.ball_color, WHITE);
    assert_eq!(gui.state.ball_xy, Point { x: 12, y: -7 });
}

#[test]
fn the_pad_after_the_button_decides_the_place() {
    let mut ui = new_ui();
    let mut gui = button_xy_pad_toggle::Gui::new(&mut ui);
    gui.take(&vec![
        on(gui.ids.button, Interaction::Click),
        on(gui.ids.xy_pad, Interaction::Pad { x: 3, y: 4 }),
    ]);
    assert_eq!(gui.state.ball_xy, Point { x: 3, y: 4 });
    assert_eq!(gui.state.ball_color, WHITE);
}

#[test]
fn the_button_throws_the_ball_at_random() {
    let mut ui = new_ui();
    let mut gui = button_xy_pad_toggle::Gui::new(&mut ui);
    let mut seen = Vec::new();
    for _ in 0..64 {
        gui.take(&vec![on(gui.ids.button, Interaction::Click)]);
        if !seen.contains(&gui.state.ball_xy) {
            seen.push(gui.state.ball_xy);
        }
        assert_eq!(gui.state.ball_color, WHITE);
    }
    assert!(seen.len() > 1);
}

#[test]
fn text_and_shapes_stand_in_the_flow() {
    let mut ui = new_ui();
    let block = text::Gui::new(&mut ui);
    let gallery = shapes::Gui::new(&mut ui);
    assert_eq!(block.ids.title, WidgetId::new(1));
    assert_eq!(block.get_bottom(), Some(WidgetId::new(2)));
    assert_eq!(placed(&block), vec![at(1, 0, 0), at(2, 0, 0)]);
    assert_eq!(gallery.ids.shapes_canvas, WidgetId::new(3));
    assert_eq!(gallery.ids.circle, WidgetId::new(15));
    assert_eq!(gallery.get_bottom(), Some(WidgetId::new(3)));
    let order = [7, 3, 4, 8, 9, 10, 11, 12, 13, 14, 15];
    let expected: Vec<Placement> = order.iter().map(|&w| at(w, 0, 0)).collect();
    assert_eq!(placed(&gallery), expected);
}

#[test]
fn a_nested_canvas_stands_outside_the_flow() {
    let mut ui = new_ui();
    let gui = nested_canvas::Gui::new(&mut ui);
    let mut frame = Frame::new(WidgetId::new(0));
    gui.update(&mut frame, &Env { canvas: WidgetId::new(7), last: WidgetId::new(8) });
    assert_eq!(gui.get_bottom(), None);
    assert_eq!(frame.placed(), &vec![at(1, 7, 8), at(2, 7, 8), at(3, 7, 8)]);
}

#[test]
fn the_old_demo_is_one_canvas() {
    let mut ui = new_ui();
    let gui = old_demo::Gui::new(&mut ui);
    let mut frame = Frame::new(WidgetId::new(0));
    gui.set_widgets(&mut frame);
    assert_eq!(frame.placed(), &vec![at(1, 0, 0)]);
    assert_eq!(gui.get_bottom(), Some(WidgetId::new(1)));
    let info = old_demo::info();
    assert_eq!(info.name, "Old Demo");
    assert_eq!(info.size, (1100, 560));
}

#[test]
fn the_canvas_screen_places_what_the_toolkit_does_not() {
    let mut ui = new_ui();
    let gui = canvas::Gui::new(&mut ui);
    assert_eq!(ui.widget_graph().node_count(), 25);
    assert_eq!(gui.ids.master, WidgetId::new(1));
    assert_eq!(gui.ids.header, WidgetId::new(2));
    assert_eq!(gui.ids.button_matrix, WidgetId::new(22));
    assert_eq!(gui.ids.bong, WidgetId::new(24));
    let mut frame = Frame::new(WidgetId::new(0));
    gui.set_widgets(&mut frame);
    let order = [1, 8, 9, 10, 11, 15, 16, 17, 18, 19, 20, 21, 22, 23, 24];
    let expected: Vec<Placement> = order.iter().map(|&w| at(w, 0, 0)).collect();
    assert_eq!(frame.placed(), &expected);
    let info = canvas::info();
    assert_eq!(info.name, "Canvas");
    assert_eq!(info.size, (800, 600));
}

#[test]
fn matrix_buttons_get_lighter_along_rows_and_columns() {
    assert_eq!(canvas::shade(0, 0), 0);
    assert_eq!(canvas::shade(0, 5), 5);
    assert_eq!(canvas::shade(2, 3), 9);
    assert_eq!(canvas::shade(9, 23), 230);
    assert_eq!(canvas::shade(100, 1000), 101000);
    assert_eq!(canvas::ROWS * canvas::COLS, 240);
}

#[test]
fn an_edit_leaves_the_other_components_as_they_were() {
    let mut ui = new_ui();
    let mut gui = all_widgets::Gui::new(&mut ui, logo());
    gui.take(&vec![on(gui.crop_kids.ids.text, Interaction::Edit(String::from("typed")))]);
    assert_eq!(gui.crop_kids.state.message, "typed");
    assert!(gui.crop_kids.state.running);
    assert_eq!(gui.components.len(), 7);
    match &gui.components[3] {
        Demo::Buttons(ball) => assert_eq!(ball.state, button_xy_pad_toggle::GuiState::new()),
        _ => panic!("the fourth component is the ball"),
    }
    match &gui.components[4] {
        Demo::Dialer(dialer) => assert_eq!(dialer.state.sine_frequency, 10),
        _ => panic!("the fifth component is the dial"),
    }
    match &gui.components[5] {
        Demo::List(switches) => assert_eq!(switches.state.list, vec![true; 16]),
        _ => panic!("the sixth component is the list"),
    }
}

#[test]
fn a_toggle_in_the_column_reaches_the_list_and_nothing_else() {
    let mut ui = new_ui();
    let mut gui = all_widgets::Gui::new(&mut ui, logo());
    let list_id = match &gui.components[5] {
        Demo::List(switches) => switches.ids.list,
        _ => panic!("the sixth component is the list"),
    };
    assert_eq!(list_id, WidgetId::new(29));
    gui.take(&vec![on(list_id, Interaction::Toggle { item: 3, value: false })]);
    match &gui.components[5] {
        Demo::List(switches) => {
            for i in 0..16 {
                assert_eq!(switches.state.list[i], i != 3);
            }
        }
        _ => panic!("the sixth component is the list"),
    }
    match &gui.components[4] {
        Demo::Dialer(dialer) => assert_eq!(dialer.state.sine_frequency, 10),
        _ => panic!("the fifth component is the dial"),
    }
    match &gui.components[3] {
        Demo::Buttons(ball) => assert_eq!(ball.state, button_xy_pad_toggle::GuiState::new()),
        _ => panic!("the fourth component is the ball"),
    }
    assert_eq!(gui.crop_kids.state.message, "Edit this Text Area...");
    assert!(gui.crop_kids.state.running);
}

#[test]
fn a_closed_crop_canvas_is_not_placed_again() {
    let mut ui = new_ui();
    let mut gui = all_widgets::Gui::new(&mut ui, logo());
    let mut frame = Frame::new(WidgetId::new(0));
    gui.set_widgets(&mut frame);
    assert_eq!(frame.placed().len(), 32);
    gui.take(&vec![on(gui.crop_kids.ids.button, Interaction::Click)]);
    let mut next = Frame::new(WidgetId::new(0));
    gui.set_widgets(&mut next);
    assert_eq!(next.placed().len(), 29);
    assert_eq!(next.placed()[28], at(2, 1, 28));
}
