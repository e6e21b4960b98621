use pza_power_supply::server::instance::{classify_instance_message, InstanceMessage};
use pza_power_supply::server::mqtt::dispatch::{
    command_for_topic, command_type_name, error_message, error_pza_id, pza_id_or_unknown, reply_topic,
    RunnerCommand,
};
use pza_power_supply::server::mqtt::runner::{
    booting_report, handling_result, invalid_output_reply, output_state_payload, parse_output_command,
    resolve_message, step, task_for, MessageResolution, OutputCommand, RunnerEvent, RunnerStatus,
    RunnerTask, RunnerTopics,
};
use pza_power_supply::server::mqtt::CommandHandler;
use pza_power_supply::topics::Topics;

#[test]
fn command_handler_from_suffix() {
    assert!(matches!(CommandHandler::from_str("control/oe/cmd"), Some(CommandHandler::OutputSet)));
    assert!(matches!(
        CommandHandler::from_str("control/voltage/cmd"),
        Some(CommandHandler::VoltageSet)
    ));
    assert!(matches!(
        CommandHandler::from_str("control/current/cmd"),
        Some(CommandHandler::CurrentSet)
    ));
    assert!(CommandHandler::from_str("control/oe").is_none());
    assert!(CommandHandler::from_str("").is_none());
}

#[test]
fn runner_topics_and_routing() {
    let t = RunnerTopics::new("emulator");
    assert_eq!(t.base, "power-supply/emulator/");
    assert_eq!(t.control_oe_cmd, "power-supply/emulator/control/oe/cmd");
    assert_eq!(
        t.measure_current_refresh_freq,
        "power-supply/emulator/measure/current/refresh_freq"
    );
    assert_eq!(t.subscription_topics().len(), 5);
    assert_eq!(t.route("power-supply/emulator/control/oe/cmd"), Ok(Some(CommandHandler::OutputSet)));
    assert_eq!(
        t.route("power-supply/emulator/control/current/cmd"),
        Ok(Some(CommandHandler::CurrentSet))
    );
    assert_eq!(t.route("power-supply/emulator/status"), Ok(None));
    assert_eq!(
        t.route("power-supply/other/control/oe/cmd"),
        Err("Failed to extract suffix from topic: power-supply/other/control/oe/cmd".to_string())
    );
    assert_eq!(t.reply_topic(CommandHandler::VoltageSet), "power-supply/emulator/control/voltage");
}

#[test]
fn runner_status_machine() {
    assert_eq!(task_for(RunnerStatus::Booting), RunnerTask::Initialize);
    assert_eq!(task_for(RunnerStatus::Running), RunnerTask::ProcessMessages);
    assert_eq!(task_for(RunnerStatus::Panicking), RunnerTask::Wait);

    let boot = booting_report();
    assert_eq!(boot.code, RunnerStatus::Booting);
    assert_eq!(boot.message, "Power supply is booting");

    let (s, rep) = step(RunnerStatus::Booting, &RunnerEvent::Initialized(Ok(())));
    assert_eq!(s, RunnerStatus::Running);
    assert_eq!(rep.unwrap().message, "Power supply is running");

    let (s, rep) = step(RunnerStatus::Booting, &RunnerEvent::Initialized(Err("no port".to_string())));
    assert_eq!(s, RunnerStatus::Panicking);
    assert_eq!(rep.unwrap().message, "Initialization failed: no port");

    let ok = RunnerEvent::MessageHandled { topic: "t".to_string(), result: Ok(()) };
    let (s, rep) = step(RunnerStatus::Running, &ok);
    assert_eq!(s, RunnerStatus::Running);
    assert!(rep.is_none());

    let bad = RunnerEvent::MessageHandled { topic: "t".to_string(), result: Err("boom".to_string()) };
    let (s, rep) = step(RunnerStatus::Running, &bad);
    assert_eq!(s, RunnerStatus::Panicking);
    let rep = rep.unwrap();
    assert_eq!(rep.code, RunnerStatus::Panicking);
    assert_eq!(rep.message, "Error handling message on topic t: boom");

    let (s, rep) = step(RunnerStatus::Panicking, &RunnerEvent::Initialized(Ok(())));
    assert_eq!(s, RunnerStatus::Panicking);
    assert!(rep.is_none());
}

#[test]
fn output_enable_payloads() {
    assert_eq!(parse_output_command("ON"), OutputCommand::Enable);
    assert_eq!(parse_output_command("OFF"), OutputCommand::Disable);
    assert_eq!(parse_output_command("on"), OutputCommand::Invalid);
    assert_eq!(parse_output_command(""), OutputCommand::Invalid);
    assert_eq!(output_state_payload(true), "ON");
    assert_eq!(output_state_payload(false), "OFF");
    assert_eq!(parse_output_command(output_state_payload(true)), OutputCommand::Enable);
    assert_eq!(invalid_output_reply(), "ERROR");
}

#[test]
fn instance_runner_classification() {
    let t = RunnerTopics::new("kd");
    assert_eq!(classify_instance_message(&t, &t.control_oe_cmd), InstanceMessage::OutputEnable);
    assert_eq!(classify_instance_message(&t, &t.control_voltage_cmd), InstanceMessage::Voltage);
    assert_eq!(classify_instance_message(&t, &t.control_current_cmd), InstanceMessage::Current);
    assert_eq!(
        classify_instance_message(&t, &t.measure_voltage_refresh_freq),
        InstanceMessage::VoltageRefreshFreq
    );
    assert_eq!(
        classify_instance_message(&t, &t.measure_current_refresh_freq),
        InstanceMessage::CurrentRefreshFreq
    );
    assert_eq!(classify_instance_message(&t, &t.status), InstanceMessage::Unhandled);
}

#[test]
fn dispatch_of_command_topics() {
    let t = Topics::new("emulator");
    assert_eq!(command_for_topic(&t, &t.state_cmd), Some(RunnerCommand::State));
    assert_eq!(command_for_topic(&t, &t.voltage_cmd), Some(RunnerCommand::Voltage));
    assert_eq!(command_for_topic(&t, &t.current_cmd), Some(RunnerCommand::Current));
    assert_eq!(command_for_topic(&t, &t.state), None);
    assert_eq!(command_for_topic(&t, "elsewhere"), None);
    assert_eq!(command_type_name(RunnerCommand::Voltage), "voltage");
    assert_eq!(reply_topic(&t, RunnerCommand::Current), "power-supply/emulator/current");
}

#[test]
fn error_replies() {
    assert_eq!(error_pza_id(br#"{"pza_id":"abc-1","voltage":"x"}"#), "abc-1");
    assert_eq!(error_pza_id(br#"{"pza_id":12}"#), "????");
    assert_eq!(error_pza_id(b"not json"), "????");
    assert_eq!(error_pza_id(br#"{"other":"v"}"#), "????");
    assert_eq!(pza_id_or_unknown(Some("x".to_string())), "x");
    assert_eq!(pza_id_or_unknown(None), "????");
    assert_eq!(
        error_message("state", "missing field"),
        "Invalid state command payload: missing field"
    );
}

#[test]
fn readme_mqtt_control_examples() {
    let t = RunnerTopics::new("emulator");
    // Enable output
    let h = t.route("power-supply/emulator/control/oe/cmd").unwrap().unwrap();
    assert_eq!(h, CommandHandler::OutputSet);
    assert_eq!(parse_output_command("ON"), OutputCommand::Enable);
    // Set voltage to 5V
    let h = t.route("power-supply/emulator/control/voltage/cmd").unwrap().unwrap();
    assert_eq!(h, CommandHandler::VoltageSet);
    // Set current limit to 1A
    let h = t.route("power-supply/emulator/control/current/cmd").unwrap().unwrap();
    assert_eq!(h, CommandHandler::CurrentSet);
    assert_eq!(t.reply_topic(h), "power-supply/emulator/control/current");
}

#[test]
fn runner_ignores_messages_outside_running() {
    let bad = RunnerEvent::MessageHandled { topic: "t".to_string(), result: Err("boom".to_string()) };
    let (s, rep) = step(RunnerStatus::Booting, &bad);
    assert_eq!(s, RunnerStatus::Booting);
    assert!(rep.is_none());
    let (s, rep) = step(RunnerStatus::Panicking, &bad);
    assert_eq!(s, RunnerStatus::Panicking);
    assert!(rep.is_none());
    let (s, rep) = step(RunnerStatus::Running, &RunnerEvent::Initialized(Err("late".to_string())));
    assert_eq!(s, RunnerStatus::Running);
    assert!(rep.is_none());
}

#[test]
fn failing_command_is_reported_and_handled() {
    let t = RunnerTopics::new("emulator");
    let routed = t.route("power-supply/emulator/control/voltage/cmd");
    let r = resolve_message(&routed, &Err("Voltage out of range".to_string()));
    assert!(matches!(r, MessageResolution::ReportError(ref e) if e == "Voltage out of range"));
    assert_eq!(handling_result(&r), Ok(()));
    let event = RunnerEvent::MessageHandled {
        topic: "power-supply/emulator/control/voltage/cmd".to_string(),
        result: handling_result(&r),
    };
    assert_eq!(step(RunnerStatus::Running, &event).0, RunnerStatus::Running);

    let r = resolve_message(&routed, &Ok(()));
    assert!(matches!(r, MessageResolution::Handled));
    let r = resolve_message(&t.route("power-supply/emulator/status"), &Err("unused".to_string()));
    assert!(matches!(r, MessageResolution::Handled));

    let routed = t.route("elsewhere/x");
    let r = resolve_message(&routed, &Ok(()));
    assert!(matches!(r, MessageResolution::Critical(ref m) if m == "Failed to extract suffix from topic: elsewhere/x"));
    let result = handling_result(&r);
    assert_eq!(result, Err("Failed to extract suffix from topic: elsewhere/x".to_string()));
    let event = RunnerEvent::MessageHandled { topic: "elsewhere/x".to_string(), result };
    assert_eq!(step(RunnerStatus::Running, &event).0, RunnerStatus::Panicking);
}
