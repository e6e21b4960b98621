use pza_power_supply::tui::input::{InputAction, InputHandler, Key};
use pza_power_supply::tui::layout::{plan_frame, warning_text, FramePlan, LayoutManager, Rect};
use pza_power_supply::tui::App;

#[test]
fn test_tui_app_new() {
    let _app = App::new(None);
    // Creation should succeed without panic
}

#[test]
fn test_tui_app_default() {
    let _app1 = App::new(None);
    let _app2 = App::default();
    // Both should create successfully
}

#[test]
fn test_input_handler_exit_keys() {
    let mut handler = InputHandler::new();

    assert_eq!(handler.handle_key(Key::Char('q')), Some(InputAction::Exit));
    assert_eq!(handler.handle_key(Key::Esc), Some(InputAction::Exit));
}

#[test]
fn test_input_handler_toggle_power() {
    let mut handler = InputHandler::new();

    assert_eq!(handler.handle_key(Key::Char(' ')), Some(InputAction::TogglePower));
}

#[test]
fn test_input_handler_help_toggle() {
    let mut handler = InputHandler::new();

    assert!(!handler.is_help_visible());
    assert_eq!(handler.handle_key(Key::Char('?')), Some(InputAction::ToggleHelp));
    assert!(handler.is_help_visible());
    assert_eq!(handler.handle_key(Key::Char('?')), Some(InputAction::ToggleHelp));
    assert!(!handler.is_help_visible());
}

#[test]
fn test_input_handler_unknown_key() {
    let mut handler = InputHandler::new();

    assert_eq!(handler.handle_key(Key::Char('x')), None);
    assert_eq!(handler.handle_key(Key::Enter), None);
}

#[test]
fn input_handler_default_hides_help_and_other_keys_keep_it() {
    let mut handler = InputHandler::default();
    assert!(!handler.is_help_visible());
    handler.handle_key(Key::Char('?'));
    handler.handle_key(Key::Char(' '));
    handler.handle_key(Key::Up);
    assert!(handler.is_help_visible());
}

#[test]
fn app_quits_on_q_and_esc_only() {
    let mut app = App::new(Some("emulator".to_string()));
    app.handle_input(Key::Char('x'));
    app.handle_input(Key::Enter);
    assert!(!app.should_quit());
    app.handle_input(Key::Esc);
    assert!(app.should_quit());
    app.handle_input(Key::Char('a'));
    assert!(app.should_quit());
    let mut other = App::default();
    other.handle_input(Key::Char('q'));
    assert!(other.should_quit());
}

#[test]
fn app_title_names_instance() {
    let app = App::new(Some("emulator".to_string()));
    assert_eq!(app.title(), "Power Supply TUI - Instance: emulator");
    assert_eq!(App::default().title(), "Power Supply TUI - No Instance Selected");
}

#[test]
fn terminal_size_validation_and_frame_plan() {
    let small = Rect { x: 0, y: 0, width: 79, height: 30 };
    let ok = Rect { x: 0, y: 0, width: 80, height: 24 };
    assert!(!LayoutManager::validate_terminal_size(small));
    assert!(LayoutManager::validate_terminal_size(ok));
    assert_eq!(plan_frame(small, true), FramePlan::Warning);
    assert_eq!(plan_frame(ok, true), FramePlan::ControlBox { help: true });
    assert_eq!(plan_frame(ok, false), FramePlan::ControlBox { help: false });
    assert_eq!(warning_text(small), "Terminal too small! Need 80x24, got 79x30");
}

#[test]
fn layouts_come_from_the_solver() {
    let area = Rect { x: 0, y: 0, width: 120, height: 40 };
    let boxes = LayoutManager::control_box_layout(area);
    assert_eq!(boxes.len(), 4);
    assert_eq!(boxes[0].height, 3);
    assert_eq!(boxes[1].height, 3);
    assert_eq!(boxes[2].height, 3);
    assert_eq!(boxes[0].x, 2);
    assert!(boxes.iter().all(|b| b.x == 2 && b.width == 116));
    let warning = LayoutManager::warning_layout(area);
    assert_eq!(warning.width, 50);
    assert_eq!(warning.height, 3);
    let help = LayoutManager::help_overlay_layout(area);
    assert_eq!(help.width, 40);
    assert_eq!(help.height, 8);
}
