use conrod_core::event::Input;
use conrod_example_shared::all_widgets;
use conrod_example_shared::all_widgets::Demo;
use conrod_example_shared::manager::{Style, TAB};
use conrod_example_shared::{Component, Event, Example, Interaction, Manager, Screen, WidgetId};
use input::{Button, Key, MouseButton};

fn logo() -> conrod_core::image::Id {
    conrod_core::image::Map::<()>::new().insert(())
}

fn demo_theme() -> conrod_core::Theme {
    let mut theme = conrod_core::Theme::default();
    theme.name = String::from("the demonstration");
    theme
}

fn manager() -> Manager<fn() -> conrod_core::Theme> {
    Manager::new(logo(), demo_theme as fn() -> conrod_core::Theme)
}

fn tab() -> Input {
    Input::Release(Button::Keyboard(Key::Tab))
}

#[test]
fn the_first_window_is_that_of_the_first_screen() {
    let info = Manager::<fn() -> conrod_core::Theme>::info();
    assert_eq!(info.name, "All Widgets");
    assert_eq!(info.size, (600, 420));
    let info = all_widgets::info();
    assert_eq!(info.name, "All Widgets");
    assert_eq!(info.size, (600, 420));
    let copy = info.clone();
    assert_eq!(copy.name, "All Widgets");
    assert_eq!(copy.size, (600, 420));
}

#[test]
fn the_tab_key_has_the_code_that_the_manager_waits_for() {
    assert_eq!(Key::Tab.code(), TAB);
    assert_ne!(Key::Backquote.code(), TAB);
}

#[test]
fn a_new_manager_shows_the_first_screen() {
    let mut manager = manager();
    assert_eq!(manager.example().info().name, "All Widgets");
    assert_eq!(manager.example().info().size, (600, 420));
    assert!(matches!(manager.example().component, Screen::AllWidgets(_)));
    assert_eq!(manager.example().theme, Style::Demo);
    assert_eq!(manager.ui().win_w, 600.0);
    assert_eq!(manager.ui().win_h, 420.0);
    assert_eq!(manager.ui().window.index(), 0);
    assert_eq!(manager.ui().widget_graph().node_count(), 1 + 35 + 24 + 1);
    assert_eq!(manager.ui().theme.name, "Demo Theme");
}

#[test]
fn an_example_takes_the_default_theme_unless_told_otherwise() {
    let mut ui = conrod_core::UiBuilder::new([600.0, 420.0]).build();
    let screen = Screen::OldDemo(conrod_example_shared::old_demo::Gui::new(&mut ui));
    let example = Example::new(conrod_example_shared::old_demo::info(), screen);
    assert_eq!(example.theme, Style::Default);
    assert_eq!(example.info().name, "Old Demo");
    let made = example.theme(&(demo_theme as fn() -> conrod_core::Theme));
    assert_eq!(made.name, conrod_core::Theme::default().name);
    assert_eq!(made.border_width, conrod_core::Theme::default().border_width);
    let example = example.with_theme(Style::Demo);
    assert_eq!(example.theme, Style::Demo);
    assert_eq!(example.info().name, "Old Demo");
    let made = example.theme(&(demo_theme as fn() -> conrod_core::Theme));
    assert_eq!(made.name, "the demonstration");
}

#[test]
fn tab_cycles_through_the_three_screens() {
    let mut manager = manager();
    assert_eq!(manager.handle_event(tab()), Some(1));
    assert_eq!(manager.example().info().name, "Canvas");
    assert_eq!(manager.example().info().size, (800, 600));
    assert!(matches!(manager.example().component, Screen::Canvas(_)));
    assert_eq!(manager.example().theme, Style::Default);
    assert_eq!(manager.handle_event(tab()), Some(2));
    assert_eq!(manager.example().info().name, "Old Demo");
    assert_eq!(manager.example().info().size, (1100, 560));
    assert!(matches!(manager.example().component, Screen::OldDemo(_)));
    assert_eq!(manager.example().theme, Style::Default);
    assert_eq!(manager.handle_event(tab()), Some(0));
    assert_eq!(manager.example().info().name, "All Widgets");
    assert_eq!(manager.example().info().size, (600, 420));
}

#[test]
fn as_many_tabs_as_screens_lead_back() {
    let mut manager = manager();
    assert_eq!(manager.handle_event(tab()), Some(1));
    let mut seen = Vec::new();
    for _ in 0..3 {
        seen.push(manager.handle_event(tab()));
    }
    assert_eq!(seen, vec![Some(2), Some(0), Some(1)]);
    assert_eq!(manager.example().info().name, "Canvas");
}

#[test]
fn tab_installs_the_theme_of_the_next_screen() {
    let mut manager = manager();
    manager.ui().theme.name = String::from("scratch");
    manager.handle_event(tab());
    assert_eq!(manager.ui().theme.name, "Demo Theme");
    manager.ui().theme.name = String::from("scratch");
    manager.handle_event(tab());
    assert_eq!(manager.ui().theme.name, "Demo Theme");
    manager.handle_event(tab());
    assert_eq!(manager.ui().theme.name, "the demonstration");
}

#[test]
fn other_events_change_neither_screen_nor_theme() {
    let mut manager = manager();
    manager.handle_event(tab());
    manager.ui().theme.name = String::from("kept");
    let others = vec![
        Input::Focus(true),
        Input::Focus(false),
        Input::Press(Button::Keyboard(Key::Tab)),
        Input::Release(Button::Keyboard(Key::Backquote)),
        Input::Release(Button::Keyboard(Key::A)),
        Input::Release(Button::Keyboard(Key::NumPadTab)),
        Input::Release(Button::Mouse(MouseButton::Left)),
        Input::Text(String::from("\t")),
        Input::Redraw,
    ];
    for event in others {
        assert_eq!(manager.handle_event(event), None);
        assert_eq!(manager.example().info().name, "Canvas");
        assert_eq!(manager.ui().theme.name, "kept");
    }
}

#[test]
fn other_events_reach_the_toolkit_as_they_are() {
    let mut manager = manager();
    assert_eq!(manager.handle_event(Input::Resize(320.0, 240.0)), None);
    assert_eq!(manager.ui().win_w, 320.0);
    assert_eq!(manager.ui().win_h, 240.0);
    let raw: Vec<Input> = manager
        .ui()
        .global_input()
        .events()
        .filter_map(|event| match event {
            conrod_core::event::Event::Raw(input) => Some(input.clone()),
            _ => None,
        })
        .collect();
    assert_eq!(raw, vec![Input::Resize(320.0, 240.0)]);
}

#[test]
fn tab_does_not_reach_the_toolkit() {
    let mut manager = manager();
    manager.handle_event(Input::Press(Button::Keyboard(Key::LCtrl)));
    assert!(!manager.ui().global_input().current.modifiers.is_empty());
    let before = manager.ui().global_input().events().count();
    manager.handle_event(tab());
    assert_eq!(manager.ui().global_input().events().count(), before);
    assert!(!manager.ui().global_input().current.modifiers.is_empty());
    manager.handle_event(Input::Release(Button::Keyboard(Key::LCtrl)));
    assert!(manager.ui().global_input().current.modifiers.is_empty());
}

#[test]
fn update_composes_the_screen_that_is_shown() {
    let mut manager = manager();
    let frame = manager.update();
    assert_eq!(frame.window(), WidgetId::new(0));
    assert_eq!(frame.placed().len(), 32);
    assert_eq!(frame.placed()[0].widget, WidgetId::new(1));
    manager.handle_event(tab());
    let frame = manager.update();
    assert_eq!(frame.placed().len(), 15);
    assert_eq!(frame.placed()[0].widget, WidgetId::new(36));
    manager.handle_event(tab());
    let frame = manager.update();
    assert_eq!(frame.placed().len(), 1);
    assert_eq!(frame.placed()[0].widget, WidgetId::new(60));
}

#[test]
fn take_hands_the_interactions_to_the_screen() {
    let mut manager = manager();
    let text = match &manager.example().component {
        Screen::AllWidgets(gui) => gui.crop_kids.ids.text,
        _ => panic!("the first screen shows all widgets"),
    };
    manager.take(&vec![Event { widget: text, action: Interaction::Edit(String::from("typed")) }]);
    match &manager.example().component {
        Screen::AllWidgets(gui) => {
            assert_eq!(gui.crop_kids.state.message, "typed");
            match &gui.components[5] {
                Demo::List(switches) => assert_eq!(switches.state.list, vec![true; 16]),
                _ => panic!("the sixth component is the list"),
            }
        }
        _ => panic!("the first screen shows all widgets"),
    }
}

#[test]
fn a_screen_that_is_not_shown_takes_no_interactions() {
    let mut manager = manager();
    let text = match &manager.example().component {
        Screen::AllWidgets(gui) => gui.crop_kids.ids.text,
        _ => panic!("the first screen shows all widgets"),
    };
    manager.handle_event(tab());
    manager.take(&vec![Event { widget: text, action: Interaction::Edit(String::from("typed")) }]);
    manager.handle_event(tab());
    manager.handle_event(tab());
    match &manager.example().component {
        Screen::AllWidgets(gui) => {
            assert_eq!(gui.crop_kids.state.message, "Edit this Text Area...")
        }
        _ => panic!("the first screen shows all widgets"),
    }
}

#[test]
fn a_change_shows_in_the_very_next_frame() {
    let mut manager = manager();
    let button = match &manager.example().component {
        Screen::AllWidgets(gui) => gui.crop_kids.ids.button,
        _ => panic!("the first screen shows all widgets"),
    };
    let frame = manager.update();
    assert_eq!(frame.placed().len(), 32);
    manager.take(&vec![Event { widget: button, action: Interaction::Click }]);
    let frame = manager.update();
    assert_eq!(frame.placed().len(), 29);
}

#[test]
fn two_quiet_updates_place_the_same_widgets() {
    let mut manager = manager();
    let first = manager.update();
    manager.take(&Vec::new());
    let second = manager.update();
    assert_eq!(first.placed(), second.placed());
    assert_eq!(manager.example().component.get_bottom(), Some(WidgetId::new(1)));
}

#[test]
fn the_stage_is_the_toolkit_and_the_screen_that_is_shown() {
    let mut manager = manager();
    manager.handle_event(tab());
    let (ui, example) = manager.stage();
    assert_eq!(example.info().name, "Canvas");
    ui.theme.name = String::from("changed");
    assert_eq!(manager.ui().theme.name, "changed");
}
