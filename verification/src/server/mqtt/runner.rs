//! Decisions of the MQTT runner of one power supply: its topics, the routing
//! of incoming messages, the status it reports and the output enable payloads.
use super::command_handler::{lemma_parse_suffix, CommandHandler};
use super::topic_suffix;
use crate::constants::SERVER_TYPE_NAME;
use crate::text::{str_eq, strip_prefix};
use vstd::prelude::*;

verus! {

/// Prefix of every topic of the runner `name`.
pub open spec fn runner_prefix(name: Seq<char>) -> Seq<char> {
    SERVER_TYPE_NAME@ + "/"@ + name
}

/// Topic `suffix` of the runner `name`.
pub open spec fn runner_topic(name: Seq<char>, suffix: Seq<char>) -> Seq<char> {
    runner_prefix(name) + "/"@ + suffix
}

/// `s` starts with `p`.
pub open spec fn starts_with(s: Seq<char>, p: Seq<char>) -> bool {
    s.len() >= p.len() && s.take(p.len() as int) == p
}

/// Topics of one runner.
#[derive(Debug, Clone)]
pub struct RunnerTopics {
    /// Base of all topics, `power-supply/{name}/`
    pub base: String,
    /// `.../status`
    pub status: String,
    /// `.../error`
    pub error: String,
    /// `.../control/oe`
    pub control_oe: String,
    /// `.../control/oe/cmd`
    pub control_oe_cmd: String,
    /// `.../control/voltage`
    pub control_voltage: String,
    /// `.../control/voltage/cmd`
    pub control_voltage_cmd: String,
    /// `.../control/current`
    pub control_current: String,
    /// `.../control/current/cmd`
    pub control_current_cmd: String,
    /// `.../measure/voltage/refresh_freq`
    pub measure_voltage_refresh_freq: String,
    /// `.../measure/current/refresh_freq`
    pub measure_current_refresh_freq: String,
}

fn topic_with_prefix(prefix: &String, suffix: &str) -> (r: String)
    ensures
        r@ == prefix@ + "/"@ + suffix@,
{
    let mut t = prefix.clone();
    t.append("/");
    t.append(suffix);
    t
}

impl RunnerTopics {
    /// All topics are those of the runner `name`.
    pub open spec fn named(&self, name: Seq<char>) -> bool {
        &&& self.base@ == runner_topic(name, ""@)
        &&& self.status@ == runner_topic(name, topic_suffix::STATUS@)
        &&& self.error@ == runner_topic(name, topic_suffix::ERROR@)
        &&& self.control_oe@ == runner_topic(name, topic_suffix::CONTROL_OE@)
        &&& self.control_oe_cmd@ == runner_topic(name, topic_suffix::CONTROL_OE_CMD@)
        &&& self.control_voltage@ == runner_topic(name, topic_suffix::CONTROL_VOLTAGE@)
        &&& self.control_voltage_cmd@ == runner_topic(name, topic_suffix::CONTROL_VOLTAGE_CMD@)
        &&& self.control_current@ == runner_topic(name, topic_suffix::CONTROL_CURRENT@)
        &&& self.control_current_cmd@ == runner_topic(name, topic_suffix::CONTROL_CURRENT_CMD@)
        &&& self.measure_voltage_refresh_freq@ == runner_topic(
            name,
            topic_suffix::MEASURE_VOLTAGE_REFRESH_FREQ@,
        )
        &&& self.measure_current_refresh_freq@ == runner_topic(
            name,
            topic_suffix::MEASURE_CURRENT_REFRESH_FREQ@,
        )
    }

    /// Topics of the runner `name`
    pub fn new(name: &str) -> (t: Self)
        ensures
            t.named(name@),
    {
        let mut prefix = String::from_str(SERVER_TYPE_NAME);
        prefix.append("/");
        prefix.append(name);
        let t = RunnerTopics {
            base: topic_with_prefix(&prefix, ""),
            status: topic_with_prefix(&prefix, topic_suffix::STATUS),
            error: topic_with_prefix(&prefix, topic_suffix::ERROR),
            control_oe: topic_with_prefix(&prefix, topic_suffix::CONTROL_OE),
            control_oe_cmd: topic_with_prefix(&prefix, topic_suffix::CONTROL_OE_CMD),
            control_voltage: topic_with_prefix(&prefix, topic_suffix::CONTROL_VOLTAGE),
            control_voltage_cmd: topic_with_prefix(&prefix, topic_suffix::CONTROL_VOLTAGE_CMD),
            control_current: topic_with_prefix(&prefix, topic_suffix::CONTROL_CURRENT),
            control_current_cmd: topic_with_prefix(&prefix, topic_suffix::CONTROL_CURRENT_CMD),
            measure_voltage_refresh_freq: topic_with_prefix(
                &prefix,
                topic_suffix::MEASURE_VOLTAGE_REFRESH_FREQ,
            ),
            measure_current_refresh_freq: topic_with_prefix(
                &prefix,
                topic_suffix::MEASURE_CURRENT_REFRESH_FREQ,
            ),
        };
        t
    }

    /// Topics the runner subscribes to, in order.
    pub open spec fn subscriptions(&self) -> Seq<Seq<char>> {
        seq![
            self.control_oe_cmd@,
            self.control_voltage_cmd@,
            self.control_current_cmd@,
            self.measure_voltage_refresh_freq@,
            self.measure_current_refresh_freq@,
        ]
    }

    /// Topics to subscribe to when the runner starts
    pub fn subscription_topics(&self) -> (r: Vec<String>)
        ensures
            r.len() == self.subscriptions().len(),
            forall|i: int| 0 <= i < r.len() ==> #[trigger] r[i]@ == self.subscriptions()[i],
    {
        vec![
            self.control_oe_cmd.clone(),
            self.control_voltage_cmd.clone(),
            self.control_current_cmd.clone(),
            self.measure_voltage_refresh_freq.clone(),
            self.measure_current_refresh_freq.clone(),
        ]
    }

    /// The handler of a message on `topic`: `None` when the topic does not
    /// start with the base, `Some(None)` for an unknown suffix.
    pub open spec fn route_spec(&self, topic: Seq<char>) -> Option<Option<CommandHandler>> {
        if starts_with(topic, self.base@) {
            Some(CommandHandler::parse(topic.skip(self.base@.len() as int)))
        } else {
            None
        }
    }

    /// Find the handler of an incoming message from its topic suffix
    pub fn route(&self, topic: &str) -> (r: Result<Option<CommandHandler>, String>)
        ensures
            r matches Ok(h) ==> self.route_spec(topic@) == Some(h),
            r matches Err(msg) ==> self.route_spec(topic@) is None
                && msg@ == "Failed to extract suffix from topic: "@ + topic@,
            r is Err <==> self.route_spec(topic@) is None,
    {
        match strip_prefix(topic, self.base.as_str()) {
            Some(suffix) => Ok(CommandHandler::from_str(suffix.as_str())),
            None => {
                let msg = String::from_str("Failed to extract suffix from topic: ").concat(topic);
                Err(msg)
            },
        }
    }

    /// Topic on which the outcome of a command is confirmed.
    pub open spec fn reply_topic_spec(&self, h: CommandHandler) -> Seq<char> {
        match h {
            CommandHandler::OutputSet => self.control_oe@,
            CommandHandler::VoltageSet => self.control_voltage@,
            CommandHandler::CurrentSet => self.control_current@,
        }
    }

    /// Topic on which the outcome of a command is confirmed
    pub fn reply_topic(&self, h: CommandHandler) -> (r: &str)
        ensures
            r@ == self.reply_topic_spec(h),
    {
        match h {
            CommandHandler::OutputSet => self.control_oe.as_str(),
            CommandHandler::VoltageSet => self.control_voltage.as_str(),
            CommandHandler::CurrentSet => self.control_current.as_str(),
        }
    }
}

/// Each command topic of a runner is routed to its own handler.
pub proof fn lemma_route_command_topics(t: RunnerTopics, name: Seq<char>, h: CommandHandler)
    requires
        t.named(name),
    ensures
        t.route_spec(runner_topic(name, h.suffix())) == Some(Some(h)),
{
    let topic = runner_topic(name, h.suffix());
    reveal_strlit("");
    assert(t.base@ =~= runner_prefix(name) + "/"@);
    assert(topic.take(t.base@.len() as int) =~= t.base@);
    assert(topic.skip(t.base@.len() as int) =~= h.suffix());
    lemma_parse_suffix(h);
}

/// A runner subscribes to exactly its three command topics and its two
/// measurement refresh-frequency topics, in that order; so every command
/// topic is among its subscriptions.
pub proof fn lemma_subscriptions_of_runner(t: RunnerTopics, name: Seq<char>, h: CommandHandler)
    requires
        t.named(name),
    ensures
        t.subscriptions() == seq![
            runner_topic(name, "control/oe/cmd"@),
            runner_topic(name, "control/voltage/cmd"@),
            runner_topic(name, "control/current/cmd"@),
            runner_topic(name, "measure/voltage/refresh_freq"@),
            runner_topic(name, "measure/current/refresh_freq"@),
        ],
        exists|i: int| 0 <= i < 3 && #[trigger] t.subscriptions()[i] == runner_topic(name, h.suffix()),
{
    reveal_strlit("control/oe/cmd");
    reveal_strlit("control/voltage/cmd");
    reveal_strlit("control/current/cmd");
    assert(t.subscriptions() =~= seq![
        runner_topic(name, "control/oe/cmd"@),
        runner_topic(name, "control/voltage/cmd"@),
        runner_topic(name, "control/current/cmd"@),
        runner_topic(name, "measure/voltage/refresh_freq"@),
        runner_topic(name, "measure/current/refresh_freq"@),
    ]);
    match h {
        CommandHandler::OutputSet => assert(t.subscriptions()[0] == runner_topic(name, h.suffix())),
        CommandHandler::VoltageSet => assert(t.subscriptions()[1] == runner_topic(name, h.suffix())),
        CommandHandler::CurrentSet => assert(t.subscriptions()[2] == runner_topic(name, h.suffix())),
    }
}

/// The state topic of a command: its suffix without the trailing `/cmd`.
pub open spec fn state_suffix(h: CommandHandler) -> Seq<char> {
    h.suffix().take(h.suffix().len() - 4)
}

/// The outcome of a command is confirmed on its state topic (`control/oe`,
/// `control/voltage` or `control/current`: the command's suffix without
/// `/cmd`), never on a topic the runner itself subscribes to.
pub proof fn lemma_reply_on_state_topic(t: RunnerTopics, name: Seq<char>, h: CommandHandler, i: int)
    requires
        t.named(name),
        0 <= i < 5,
    ensures
        t.reply_topic_spec(h) == runner_topic(
            name,
            match h {
                CommandHandler::OutputSet => "control/oe"@,
                CommandHandler::VoltageSet => "control/voltage"@,
                CommandHandler::CurrentSet => "control/current"@,
            },
        ),
        t.reply_topic_spec(h) == runner_topic(name, state_suffix(h)),
        t.subscriptions()[i] != t.reply_topic_spec(h),
{
    reveal_strlit("control/oe");
    reveal_strlit("control/voltage");
    reveal_strlit("control/current");
    reveal_strlit("control/oe/cmd");
    reveal_strlit("control/voltage/cmd");
    reveal_strlit("control/current/cmd");
    reveal_strlit("measure/voltage/refresh_freq");
    reveal_strlit("measure/current/refresh_freq");
    let state = match h {
        CommandHandler::OutputSet => "control/oe"@,
        CommandHandler::VoltageSet => "control/voltage"@,
        CommandHandler::CurrentSet => "control/current"@,
    };
    assert(state_suffix(h) =~= state);
    lemma_subscriptions_of_runner(t, name, h);
    let subs = seq![
        "control/oe/cmd"@,
        "control/voltage/cmd"@,
        "control/current/cmd"@,
        "measure/voltage/refresh_freq"@,
        "measure/current/refresh_freq"@,
    ];
    assert(t.subscriptions()[i] == runner_topic(name, subs[i]));
    if t.subscriptions()[i] == t.reply_topic_spec(h) {
        lemma_runner_topic_injective(name, subs[i], state);
        assert(subs[i].len() != state.len());
    }
}

/// The measurement refresh-frequency topics a runner subscribes to are routed
/// to no command handler: they are only reported as unknown.
pub proof fn lemma_refresh_topics_are_no_command(t: RunnerTopics, name: Seq<char>)
    requires
        t.named(name),
    ensures
        t.route_spec(t.measure_voltage_refresh_freq@) == Some(None::<CommandHandler>),
        t.route_spec(t.measure_current_refresh_freq@) == Some(None::<CommandHandler>),
{
    reveal_strlit("");
    assert(t.base@ =~= runner_prefix(name) + "/"@);
    let n = t.base@.len() as int;
    let v = t.measure_voltage_refresh_freq@;
    let c = t.measure_current_refresh_freq@;
    assert(v.take(n) =~= t.base@);
    assert(v.skip(n) =~= "measure/voltage/refresh_freq"@);
    assert(c.take(n) =~= t.base@);
    assert(c.skip(n) =~= "measure/current/refresh_freq"@);
    crate::server::mqtt::command_handler::lemma_only_command_suffixes(v.skip(n), CommandHandler::OutputSet);
    crate::server::mqtt::command_handler::lemma_only_command_suffixes(c.skip(n), CommandHandler::OutputSet);
}

/// Different suffixes give different topics of the same runner.
pub proof fn lemma_runner_topic_injective(name: Seq<char>, s1: Seq<char>, s2: Seq<char>)
    requires
        runner_topic(name, s1) == runner_topic(name, s2),
    ensures
        s1 == s2,
{
    let n = (runner_prefix(name) + "/"@).len() as int;
    assert(runner_topic(name, s1).skip(n) =~= s1);
    assert(runner_topic(name, s2).skip(n) =~= s2);
}

// ---------------------------------------------------------------------------
// Status

/// Status of a runner.
#[derive(Clone, Copy, Debug, PartialEq, Eq, Structural)]
pub enum RunnerStatus {
    Booting,
    Running,
    Panicking,
}

/// What the runner loop does in a status.
#[derive(Clone, Copy, Debug, PartialEq, Eq, Structural)]
pub enum RunnerTask {
    /// Initialize the driver and publish the first readings
    Initialize,
    /// Process incoming messages until the connection fails
    ProcessMessages,
    /// Wait one second and look again
    Wait,
}

/// Outcome reported back to the runner loop.
#[derive(Debug)]
pub enum RunnerEvent {
    /// Initialization finished, with its error message on failure
    Initialized(Result<(), String>),
    /// A message on `topic` was handled, with its error message on failure
    MessageHandled { topic: String, result: Result<(), String> },
}

/// Status published on the status topic.
#[derive(Clone, Debug)]
pub struct StatusReport {
    pub code: RunnerStatus,
    pub message: String,
}

/// The task of the runner loop in a status.
pub open spec fn task_spec(status: RunnerStatus) -> RunnerTask {
    match status {
        RunnerStatus::Booting => RunnerTask::Initialize,
        RunnerStatus::Running => RunnerTask::ProcessMessages,
        RunnerStatus::Panicking => RunnerTask::Wait,
    }
}

/// The task of the runner loop in a status
pub fn task_for(status: RunnerStatus) -> (r: RunnerTask)
    ensures
        r == task_spec(status),
{
    match status {
        RunnerStatus::Booting => RunnerTask::Initialize,
        RunnerStatus::Running => RunnerTask::ProcessMessages,
        RunnerStatus::Panicking => RunnerTask::Wait,
    }
}

/// Status after an event, with the report to publish (code and message).
pub open spec fn step_spec(status: RunnerStatus, event: RunnerEvent) -> (
    RunnerStatus,
    Option<(RunnerStatus, Seq<char>)>,
) {
    match event {
        RunnerEvent::Initialized(result) => {
            if status == RunnerStatus::Booting {
                match result {
                    Ok(_) => (
                        RunnerStatus::Running,
                        Some((RunnerStatus::Running, "Power supply is running"@)),
                    ),
                    Err(e) => (
                        RunnerStatus::Panicking,
                        Some((RunnerStatus::Panicking, "Initialization failed: "@ + e@)),
                    ),
                }
            } else {
                (status, None)
            }
        },
        RunnerEvent::MessageHandled { topic, result } => {
            if status == RunnerStatus::Running {
                match result {
                    Ok(_) => (status, None),
                    Err(e) => (
                        RunnerStatus::Panicking,
                        Some(
                            (
                                RunnerStatus::Panicking,
                                "Error handling message on topic "@ + topic@ + ": "@ + e@,
                            ),
                        ),
                    ),
                }
            } else {
                (status, None)
            }
        },
    }
}

/// The report published when the runner starts
pub fn booting_report() -> (r: StatusReport)
    ensures
        r.code == RunnerStatus::Booting,
        r.message@ == "Power supply is booting"@,
{
    StatusReport { code: RunnerStatus::Booting, message: String::from_str("Power supply is booting") }
}

/// Status after an event, with the status report to publish if any
pub fn step(status: RunnerStatus, event: &RunnerEvent) -> (r: (RunnerStatus, Option<StatusReport>))
    ensures
        r.0 == step_spec(status, *event).0,
        r.1 is Some <==> step_spec(status, *event).1 is Some,
        r.1 matches Some(rep) ==> step_spec(status, *event).1 == Some((rep.code, rep.message@)),
{
    match event {
        RunnerEvent::Initialized(result) => {
            if status == RunnerStatus::Booting {
                match result {
                    Ok(_) => (
                        RunnerStatus::Running,
                        Some(
                            StatusReport {
                                code: RunnerStatus::Running,
                                message: String::from_str("Power supply is running"),
                            },
                        ),
                    ),
                    Err(e) => {
                        let message = String::from_str("Initialization failed: ").concat(e.as_str());
                        (
                            RunnerStatus::Panicking,
                            Some(StatusReport { code: RunnerStatus::Panicking, message }),
                        )
                    },
                }
            } else {
                (status, None)
            }
        },
        RunnerEvent::MessageHandled { topic, result } => {
            if status != RunnerStatus::Running {
                return (status, None);
            }
            match result {
                Ok(_) => (status, None),
                Err(e) => {
                    let message = String::from_str("Error handling message on topic ").concat(
                        topic.as_str(),
                    ).concat(": ").concat(e.as_str());
                    (
                        RunnerStatus::Panicking,
                        Some(StatusReport { code: RunnerStatus::Panicking, message }),
                    )
                },
            }
        },
    }
}

/// A panicking runner stays panicking, whatever happens.
pub proof fn lemma_panicking_is_final(event: RunnerEvent)
    ensures
        step_spec(RunnerStatus::Panicking, event).0 == RunnerStatus::Panicking,
{
}

/// A runner starts running only when its initialization, started while
/// booting, succeeds.
pub proof fn lemma_running_after_init(status: RunnerStatus, event: RunnerEvent)
    requires
        status != RunnerStatus::Running,
        step_spec(status, event).0 == RunnerStatus::Running,
    ensures
        status == RunnerStatus::Booting,
        event matches RunnerEvent::Initialized(result) && result is Ok,
{
}

/// Every change of status is published, with the new status as code.
pub proof fn lemma_status_change_reported(status: RunnerStatus, event: RunnerEvent)
    requires
        step_spec(status, event).0 != status,
    ensures
        step_spec(status, event).1 matches Some(rep) && rep.0 == step_spec(status, event).0,
{
}

/// Messages count only while running: a message event in another status
/// changes nothing and publishes nothing, and only the running status
/// processes messages.
pub proof fn lemma_messages_only_while_running(status: RunnerStatus, event: RunnerEvent)
    requires
        event is MessageHandled,
        status != RunnerStatus::Running,
    ensures
        step_spec(status, event) == (status, None::<(RunnerStatus, Seq<char>)>),
        task_spec(status) != RunnerTask::ProcessMessages,
{
}

// ---------------------------------------------------------------------------
// Outcome of a message

/// How the handling of one incoming message ends.
#[derive(Clone, Debug)]
pub enum MessageResolution {
    /// The command ran, or the suffix names no command
    Handled,
    /// The command failed: the error is published on the error topic and the
    /// message counts as handled
    ReportError(String),
    /// The topic is not one of this runner's: a critical failure
    Critical(String),
}

/// Outcome of a message from its routing and, when routed to a command, the
/// command's result.
pub open spec fn resolution_spec(
    routed: Result<Option<CommandHandler>, String>,
    command: Result<(), String>,
) -> MessageResolution {
    match routed {
        Err(m) => MessageResolution::Critical(m),
        Ok(None) => MessageResolution::Handled,
        Ok(Some(_)) => match command {
            Ok(_) => MessageResolution::Handled,
            Err(e) => MessageResolution::ReportError(e),
        },
    }
}

/// The result given to the status step for an outcome.
pub open spec fn handling_result_spec(resolution: MessageResolution) -> Result<(), String> {
    match resolution {
        MessageResolution::Critical(m) => Err(m),
        _ => Ok(()),
    }
}

/// Outcome of a message from its routing and, when routed to a command,
/// the command's result
pub fn resolve_message(
    routed: &Result<Option<CommandHandler>, String>,
    command: &Result<(), String>,
) -> (r: MessageResolution)
    ensures
        r == resolution_spec(*routed, *command),
{
    match routed {
        Err(m) => MessageResolution::Critical(m.clone()),
        Ok(None) => MessageResolution::Handled,
        Ok(Some(_)) => match command {
            Ok(_) => MessageResolution::Handled,
            Err(e) => MessageResolution::ReportError(e.clone()),
        },
    }
}

/// The result given to the status step: an error only for a critical failure
pub fn handling_result(resolution: &MessageResolution) -> (r: Result<(), String>)
    ensures
        r == handling_result_spec(*resolution),
{
    match resolution {
        MessageResolution::Critical(m) => Err(m.clone()),
        _ => Ok(()),
    }
}

/// A message on one of the runner's own topics never makes a running runner
/// panic, whether its command succeeds or fails: a failing command is
/// reported on the error topic instead. A message on a topic outside the
/// runner's base does make it panic.
pub proof fn lemma_command_failure_is_handled(
    t: RunnerTopics,
    topic: String,
    routed: Result<Option<CommandHandler>, String>,
    command: Result<(), String>,
)
    requires
        routed is Err <==> t.route_spec(topic@) is None,
    ensures
        step_spec(
            RunnerStatus::Running,
            RunnerEvent::MessageHandled {
                topic,
                result: handling_result_spec(resolution_spec(routed, command)),
            },
        ).0 == if starts_with(topic@, t.base@) {
            RunnerStatus::Running
        } else {
            RunnerStatus::Panicking
        },
        (routed is Ok && routed->Ok_0 is Some && command is Err) ==> resolution_spec(routed, command)
            == MessageResolution::ReportError(command->Err_0),
{
}

// ---------------------------------------------------------------------------
// Output enable payloads

/// What an output enable command asks for.
#[derive(Clone, Copy, Debug, PartialEq, Eq, Structural)]
pub enum OutputCommand {
    Enable,
    Disable,
    /// Neither `ON` nor `OFF`: answered with `ERROR`
    Invalid,
}

/// Meaning of an output enable payload.
pub open spec fn output_command_spec(cmd: Seq<char>) -> OutputCommand {
    if cmd == "ON"@ {
        OutputCommand::Enable
    } else if cmd == "OFF"@ {
        OutputCommand::Disable
    } else {
        OutputCommand::Invalid
    }
}

/// Payload that reports an output enable state.
pub open spec fn output_state_spec(enabled: bool) -> Seq<char> {
    if enabled { "ON"@ } else { "OFF"@ }
}

/// Reads an output enable command payload
pub fn parse_output_command(cmd: &str) -> (r: OutputCommand)
    ensures
        r == output_command_spec(cmd@),
{
    if str_eq(cmd, "ON") {
        OutputCommand::Enable
    } else if str_eq(cmd, "OFF") {
        OutputCommand::Disable
    } else {
        OutputCommand::Invalid
    }
}

/// Payload that reports an output enable state
pub fn output_state_payload(enabled: bool) -> (r: &'static str)
    ensures
        r@ == output_state_spec(enabled),
{
    if enabled { "ON" } else { "OFF" }
}

/// Payload published when an output enable command is invalid
pub fn invalid_output_reply() -> (r: &'static str)
    ensures
        r@ == "ERROR"@,
{
    "ERROR"
}

/// A published output state, sent back as a command, asks for that state.
pub proof fn lemma_output_payload_round_trip(enabled: bool)
    ensures
        output_command_spec(output_state_spec(enabled)) == (if enabled {
            OutputCommand::Enable
        } else {
            OutputCommand::Disable
        }),
{
    reveal_strlit("ON");
    reveal_strlit("OFF");
    assert("ON"@.len() != "OFF"@.len());
}

} // verus!
