use pza_power_supply::server::cli::Commands;
use pza_power_supply::server::config::{
    config_file_name, json_or_empty_array, McpConfig, RunnerEntry, ServerConfig, ServicesOverrides, TuiConfig,
};
use pza_power_supply::server::drivers::{DriverKind, Factory, FactoryError};
use pza_power_supply::server::gui::{
    control_box_view, initial_selection, mcp_page_url, power_status, power_toggle_button,
    mcp_page_view, power_toggle_click, set_enabled, setter_input_value, setter_new, setter_step,
    ControlBoxView, McpPageView, SetterEvent, SetterState,
};
use pza_power_supply::server::services::tui::loading::{LoadingBorder, LoadingWidget};
use pza_power_supply::server::services::{plan_runners, plan_services};
use pza_power_supply::server::tui::{connection_error_message, App, PowerAction};
use pza_power_supply::tui::input::Key;

fn entry(name: &str, model: &str) -> RunnerEntry {
    RunnerEntry { name: name.to_string(), model: model.to_string() }
}

#[test]
fn default_config() {
    let c = ServerConfig::default();
    assert_eq!(c.tui.enable, Some(true));
    assert_eq!(c.tui.power_toggle_key.as_deref(), Some("p"));
    assert!(!c.mcp.enable);
    assert_eq!(c.mcp.host, "127.0.0.1");
    assert_eq!(c.mcp.port, 3000);
    assert_eq!(c.runner_names(), vec!["emulator".to_string()]);
    assert_eq!(
        c.list_mcp_servers_urls(),
        vec!["http://127.0.0.1:3000/power-supply/emulator".to_string()]
    );
    assert!(!c.should_enable_tracing());
    assert_eq!(config_file_name(), "pza-power-supply-server.json5");
}

#[test]
fn mcp_urls() {
    let mut c = ServerConfig::default();
    c.runners = Some(vec![entry("a", "emulator"), entry("b", "kd3005p")]);
    assert_eq!(
        c.list_mcp_servers_urls(),
        vec![
            "http://127.0.0.1:3000/power-supply/a".to_string(),
            "http://127.0.0.1:3000/power-supply/b".to_string()
        ]
    );
    assert_eq!(
        c.list_mcp_servers_urls_as_json_string(),
        "[\n  \"http://127.0.0.1:3000/power-supply/a\",\n  \"http://127.0.0.1:3000/power-supply/b\"\n]"
    );
    c.runners = None;
    assert!(c.list_mcp_servers_urls().is_empty());
    assert_eq!(c.list_mcp_servers_urls_as_json_string(), "[]");
    assert_eq!(json_or_empty_array(None), "[]");
    assert_eq!(json_or_empty_array(Some("[1]".to_string())), "[1]");
}

#[test]
fn overrides() {
    let c = ServerConfig {
        tui: TuiConfig { enable: None, power_toggle_key: None },
        mcp: McpConfig { enable: true, host: "h".to_string(), port: 1 },
        runners: Some(vec![entry("a", "emulator")]),
    };
    let none = ServicesOverrides { no_tui: false, no_mcp: false, no_runners: false };
    let d = c.clone().apply_overrides(&none);
    assert_eq!(d.tui.enable, Some(true));
    assert!(d.mcp.enable);
    assert!(!d.should_enable_tracing());
    let all = ServicesOverrides { no_tui: true, no_mcp: true, no_runners: true };
    let e = c.clone().apply_overrides(&all);
    assert_eq!(e.tui.enable, Some(false));
    assert!(!e.mcp.enable);
    assert!(e.runners.is_none());
    assert!(e.should_enable_tracing());
    let again = e.clone().apply_overrides(&all);
    assert_eq!(again.tui.enable, e.tui.enable);
    assert_eq!(again.mcp.enable, e.mcp.enable);
    assert!(again.runners.is_none());
}

#[test]
fn cli_overrides() {
    let run = Commands::Run { no_tui: true, no_broker: false, no_mcp: false, no_runners: true, no_traces: true };
    let o = run.services_overrides().unwrap();
    assert!(o.no_tui && !o.no_mcp && o.no_runners);
    let list = Commands::List { mcps: true, drivers: false, devices: false };
    assert!(list.services_overrides().is_none());
}

#[test]
fn factory_lookup() {
    let f = Factory::initialize();
    assert_eq!(f.instanciate_driver("emulator").unwrap(), DriverKind::Emulator);
    assert_eq!(f.instanciate_driver("kd3005p").unwrap(), DriverKind::Kd3005p);
    let err = f.instanciate_driver("ka3005").unwrap_err();
    assert!(matches!(&err, FactoryError::NoDriver(m) if m == "ka3005"));
    assert_eq!(err.message(), "No driver found for model: ka3005");
    let mut g = Factory::empty();
    assert!(g.instanciate_driver("emulator").is_err());
    g.register_driver("emulator".to_string(), DriverKind::Kd3005p);
    g.register_driver("emulator".to_string(), DriverKind::Emulator);
    assert_eq!(g.instanciate_driver("emulator").unwrap(), DriverKind::Emulator);
}

#[test]
fn runners_plan() {
    let f = Factory::initialize();
    let plan = plan_runners(&f, &vec![entry("a", "emulator"), entry("b", "kd3005p")]);
    assert!(plan.error.is_none());
    assert_eq!(plan.launches.len(), 2);
    assert_eq!(plan.launches[1].name, "b");
    assert_eq!(plan.launches[1].driver, DriverKind::Kd3005p);
    let plan = plan_runners(&f, &vec![entry("a", "emulator"), entry("x", "nope"), entry("b", "kd3005p")]);
    assert_eq!(plan.launches.len(), 1);
    assert!(matches!(plan.error, Some(FactoryError::NoDriver(ref m)) if m == "nope"));

    let c = ServerConfig::default();
    let p = plan_services(&c, Some(true));
    assert!(p.start_broker && p.start_runners);
    let p = plan_services(&c, None);
    assert!(!p.start_broker);
}

#[test]
fn server_tui_navigation_and_toggle() {
    let mut app = App::new(vec!["a".to_string(), "b".to_string()]);
    assert_eq!(app.status_message(), "Initializing...");
    assert_eq!(app.selected_widget(), 0);
    app.handle_input(Key::Up);
    assert_eq!(app.selected_widget(), 0);
    app.handle_input(Key::Down);
    app.handle_input(Key::Down);
    assert_eq!(app.selected_widget(), 1);
    app.handle_input(Key::Enter);
    assert_eq!(app.status_message(), "Toggling power...");
    assert!(matches!(app.power_toggle_request(), Some(Err(ref e)) if e == "Power supply client is not set"));
    app.client_connected(1);
    assert_eq!(app.widgets()[1].status_message, "Connected");
    assert_eq!(app.power_toggle_request(), Some(Ok(PowerAction::Enable)));
    app.update_widget(1, true, "5.00".to_string(), "1.000".to_string());
    assert_eq!(app.widgets()[1].voltage, "5.00");
    assert_eq!(app.power_toggle_request(), Some(Ok(PowerAction::Disable)));
    app.finish_power_toggle(Ok(()));
    assert_eq!(app.status_message(), "Toggled power for b");
    assert_eq!(app.widgets()[1].status_message, "Power disabled");
    app.finish_power_toggle(Err("timeout".to_string()));
    assert_eq!(app.status_message(), "Error toggling power: timeout");
    app.update_widget(0, true, "9".to_string(), "9".to_string());
    assert_eq!(app.widgets()[0].voltage, "0.00V");
    app.all_connected();
    assert_eq!(app.status_message(), "Connected to all power supplies");
    assert!(!app.should_quit());
    app.handle_input(Key::Char('q'));
    assert!(app.should_quit());
    assert_eq!(
        connection_error_message("a", "refused"),
        "Failed to connect to power supply instance 'a': refused"
    );
    let mut empty = App::new(vec![]);
    empty.handle_input(Key::Down);
    empty.handle_input(Key::Char(' '));
    assert_eq!(empty.selected_widget(), 0);
    assert_eq!(empty.status_message(), "Initializing...");
}

#[test]
fn loading_widget() {
    let w = LoadingWidget::default();
    assert_eq!(w.message_text(), "Please wait, backend is starting...");
    assert_eq!(w.title(), "Loading");
    assert_eq!(w.border(), LoadingBorder::Plain);
    let w = LoadingWidget::with_message("wait".to_string()).frame(37);
    assert_eq!(w.title(), "Loading...");
    assert_eq!(w.border(), LoadingBorder::Thick);
    let w = w.message("hi".to_string());
    assert_eq!(w.message_text(), "hi");
    assert_eq!(w.animation_frame(), 37);
    let w = LoadingWidget::new("m".to_string(), 12);
    assert_eq!(w.title(), "Loading.");
    assert_eq!(w.border(), LoadingBorder::Double);
    assert_eq!(LoadingWidget::new("m".to_string(), 52).title(), LoadingWidget::new("m".to_string(), 12).title());
}

#[test]
fn gui_view_model() {
    let names = Some(vec!["a".to_string()]);
    assert_eq!(control_box_view(true, &Some("a".to_string()), &names), ControlBoxView::Controls);
    assert_eq!(control_box_view(false, &Some("a".to_string()), &names), ControlBoxView::NotInitialized);
    assert_eq!(control_box_view(true, &None, &names), ControlBoxView::NotInitialized);
    assert_eq!(control_box_view(true, &None, &Some(vec![])), ControlBoxView::NoInstance);
    assert_eq!(control_box_view(true, &None, &None), ControlBoxView::NoInstance);
    assert_eq!(power_status(Some(true)), ("power-button-status on", "ON"));
    assert_eq!(power_status(Some(false)), ("power-button-status off", "OFF"));
    assert_eq!(power_status(None), ("power-button-status unknown", "UPDATING..."));
    assert_eq!(power_toggle_button(None), ("power-button-toggle disabled", true));
    assert_eq!(power_toggle_button(Some(false)), ("power-button-toggle enabled", false));
    let click = power_toggle_click(Some(true));
    assert_eq!(click.action, PowerAction::Disable);
    assert_eq!(click.state_on_error, Some(true));
    assert_eq!(power_toggle_click(None).action, PowerAction::Enable);
    let both = SetterState { reading: Some("2".to_string()), request: Some("1.5".to_string()) };
    assert_eq!(setter_input_value(&both), "1.5");
    let read = SetterState { reading: Some("2".to_string()), request: None };
    assert_eq!(setter_input_value(&read), "2");
    assert_eq!(setter_input_value(&setter_new()), "");
    assert_eq!(mcp_page_url("emulator"), "http://127.0.0.1:3000/power-supply/emulator");
    assert_eq!(initial_selection(None, &vec!["x".to_string(), "y".to_string()]), Some("x".to_string()));
    assert_eq!(initial_selection(Some("y".to_string()), &vec!["x".to_string()]), Some("y".to_string()));
    assert_eq!(initial_selection(None, &vec![]), None);
}

#[test]
fn setter_state_machine() {
    let s = setter_new();
    assert!(!set_enabled(&s));
    let (s, send) = setter_step(s, SetterEvent::Loaded("5.00".to_string()));
    assert_eq!(send, None);
    assert_eq!(setter_input_value(&s), "5.00");
    assert!(!set_enabled(&s));
    let (s, send) = setter_step(s, SetterEvent::Typed("12".to_string()));
    assert_eq!(send, None);
    assert!(set_enabled(&s));
    assert_eq!(setter_input_value(&s), "12");
    assert_eq!(s.reading.as_deref(), Some("5.00"));
    let (s, send) = setter_step(s, SetterEvent::SetClicked);
    assert_eq!(send.as_deref(), Some("12"));
    assert_eq!(s.request.as_deref(), Some("12"));
    let (s, send) = setter_step(s, SetterEvent::Notified("12.00".to_string()));
    assert_eq!(send, None);
    assert!(!set_enabled(&s));
    assert_eq!(s.request, None);
    assert_eq!(setter_input_value(&s), "12.00");
    let (_, send) = setter_step(s, SetterEvent::SetClicked);
    assert_eq!(send, None);
}

#[test]
fn mcp_page_views() {
    assert!(matches!(mcp_page_view(&None, &None), McpPageView::Loading));
    assert!(matches!(mcp_page_view(&Some(vec![]), &None), McpPageView::NoInstances));
    let names = Some(vec!["emulator".to_string(), "lab".to_string()]);
    let selected = initial_selection(None, names.as_ref().unwrap());
    match mcp_page_view(&names, &selected) {
        McpPageView::Selector { display_url } => assert_eq!(
            display_url.as_deref(),
            Some("http://127.0.0.1:3000/power-supply/emulator")
        ),
        other => panic!("unexpected view {:?}", other),
    }
    assert!(matches!(
        mcp_page_view(&names, &None),
        McpPageView::Selector { display_url: None }
    ));
}

#[test]
fn server_tui_texts() {
    let app = App::new(vec!["a".to_string(), "b".to_string(), "c".to_string()]);
    assert_eq!(app.title_text(), "All Power Supply Instances");
    assert_eq!(app.help_text(), "q/Esc: Quit | \u{2191}/\u{2193}: Navigate | Space/Enter: Toggle Power");
    assert_eq!(app.widget_percentage(), 33);
    assert_eq!(app.widgets()[2].voltage, "0.00V");
    assert_eq!(app.widgets()[2].current, "0.00A");
    assert_eq!(app.widgets()[2].status_message, "Initializing...");
    let empty = App::new(vec![]);
    assert_eq!(empty.title_text(), "No Power Supply Instances Available");
    assert_eq!(empty.help_text(), "q/Esc: Quit");
    assert_eq!(empty.widget_percentage(), 100);
    assert_eq!(empty.power_toggle_request(), None);
}

#[test]
fn server_tui_toggle_without_client() {
    let mut app = App::new(vec!["psu1".to_string()]);
    let request = app.power_toggle_request();
    match request {
        Some(Err(e)) => app.finish_power_toggle(Err(e)),
        other => panic!("unexpected request {:?}", other),
    }
    assert_eq!(app.status_message(), "Error toggling power: Power supply client is not set");
    assert_eq!(app.widgets()[0].status_message, "Initializing...");
    app.client_connected(0);
    app.update_widget(0, false, "1.00".to_string(), "0.100".to_string());
    app.finish_power_toggle(Ok(()));
    assert_eq!(app.widgets()[0].status_message, "Power enabled");
    assert_eq!(app.widgets()[0].voltage, "1.00");
    assert!(!app.widgets()[0].power_state);
}

#[test]
fn overrides_keep_distinct_names() {
    let c = ServerConfig::default();
    let o = ServicesOverrides { no_tui: false, no_mcp: false, no_runners: false };
    let r = c.apply_overrides(&o);
    assert_eq!(r.runner_names(), vec!["emulator".to_string()]);
    let o = ServicesOverrides { no_tui: false, no_mcp: false, no_runners: true };
    let r = ServerConfig::default().apply_overrides(&o);
    assert!(r.runner_names().is_empty());
    assert_eq!(r.list_mcp_servers_urls_as_json_string(), "[]");
}

#[test]
fn mcp_urls_json_escapes_names() {
    let mut c = ServerConfig::default();
    c.runners = Some(vec![entry("a\"b\u{1}\\", "emulator")]);
    assert_eq!(
        c.list_mcp_servers_urls_as_json_string(),
        "[\n  \"http://127.0.0.1:3000/power-supply/a\\\"b\\u0001\\\\\"\n]"
    );
}
