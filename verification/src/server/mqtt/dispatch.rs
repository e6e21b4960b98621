//! Routing of the command topics of an instance, and the error replies sent
//! when a command payload cannot be handled.
use crate::topics::{lemma_lookup_of_topic, lemma_named_topics_distinct, TopicId, Topics};
use vstd::prelude::*;

verus! {

/// Commands a runner accepts.
#[derive(Clone, Copy, Debug, PartialEq, Eq, Structural)]
pub enum RunnerCommand {
    /// Output enable state
    State,
    /// Voltage setting
    Voltage,
    /// Current limit setting
    Current,
}

impl RunnerCommand {
    /// Topic identifier on which the command arrives.
    pub open spec fn command_topic(self) -> TopicId {
        match self {
            RunnerCommand::State => TopicId::StateCmd,
            RunnerCommand::Voltage => TopicId::VoltageCmd,
            RunnerCommand::Current => TopicId::CurrentCmd,
        }
    }

    /// Topic identifier on which the outcome is confirmed.
    pub open spec fn reply_topic(self) -> TopicId {
        match self {
            RunnerCommand::State => TopicId::State,
            RunnerCommand::Voltage => TopicId::Voltage,
            RunnerCommand::Current => TopicId::Current,
        }
    }

    /// Name of the command in error messages.
    pub open spec fn label(self) -> Seq<char> {
        match self {
            RunnerCommand::State => "state"@,
            RunnerCommand::Voltage => "voltage"@,
            RunnerCommand::Current => "current"@,
        }
    }
}

/// The command carried by a topic identifier, if any.
pub open spec fn command_of(id: TopicId) -> Option<RunnerCommand> {
    match id {
        TopicId::StateCmd => Some(RunnerCommand::State),
        TopicId::VoltageCmd => Some(RunnerCommand::Voltage),
        TopicId::CurrentCmd => Some(RunnerCommand::Current),
        _ => None,
    }
}

/// The command carried by `topic`, `None` for an unhandled topic.
pub open spec fn command_for_topic_spec(topics: Topics, topic: Seq<char>) -> Option<RunnerCommand> {
    match topics.lookup(topic) {
        Some(id) => command_of(id),
        None => None,
    }
}

/// The command carried by an incoming topic
pub fn command_for_topic(topics: &Topics, topic: &str) -> (r: Option<RunnerCommand>)
    ensures
        r == command_for_topic_spec(*topics, topic@),
{
    match topics.topic_to_id(topic) {
        Some(TopicId::StateCmd) => Some(RunnerCommand::State),
        Some(TopicId::VoltageCmd) => Some(RunnerCommand::Voltage),
        Some(TopicId::CurrentCmd) => Some(RunnerCommand::Current),
        _ => None,
    }
}

/// Name of a command in error messages
pub fn command_type_name(cmd: RunnerCommand) -> (r: &'static str)
    ensures
        r@ == cmd.label(),
{
    match cmd {
        RunnerCommand::State => "state",
        RunnerCommand::Voltage => "voltage",
        RunnerCommand::Current => "current",
    }
}

/// Topic on which the outcome of a command is confirmed
pub fn reply_topic(topics: &Topics, cmd: RunnerCommand) -> (r: &str)
    ensures
        r@ == topics.topic(cmd.reply_topic()),
{
    match cmd {
        RunnerCommand::State => topics.state.as_str(),
        RunnerCommand::Voltage => topics.voltage.as_str(),
        RunnerCommand::Current => topics.current.as_str(),
    }
}

/// In the topics of an instance, each command topic carries its own command,
/// and no other topic carries one.
pub proof fn lemma_command_topics(topics: Topics, name: Seq<char>, id: TopicId)
    requires
        topics.named(name),
    ensures
        command_for_topic_spec(topics, topics.topic(id)) == command_of(id),
        command_of(id) matches Some(cmd) ==> cmd.command_topic() == id,
{
    lemma_named_topics_distinct(topics, name);
    lemma_lookup_of_topic(topics, id);
}

// ---------------------------------------------------------------------------
// Error replies

/// The string field `key` of the JSON object in `payload`; `None` when the
/// payload is not JSON, not an object, or has no string under `key`.
pub uninterp spec fn json_string_field(payload: Seq<u8>, key: Seq<char>) -> Option<Seq<char>>;

/// Parses `payload` with `serde_json::from_slice` into a `serde_json::Value`,
/// then takes `Value::get(key)` and `Value::as_str`. The result is named by
/// `json_string_field`; nothing more is claimed of it.
#[verifier::external_body]
fn json_str_field(payload: &[u8], key: &str) -> (r: Option<String>)
    ensures
        r is Some <==> json_string_field(payload@, key@) is Some,
        r matches Some(s) ==> json_string_field(payload@, key@) == Some(s@),
{
    let value = serde_json::from_slice::<serde_json::Value>(payload).ok()?;
    let field = value.get(key)?;
    field.as_str().map(String::from)
}

/// Identifier echoed in an error reply: the `pza_id` of the payload, or
/// `????` when it has none.
pub open spec fn error_pza_id_spec(payload: Seq<u8>) -> Seq<char> {
    match json_string_field(payload, "pza_id"@) {
        Some(id) => id,
        None => "????"@,
    }
}

/// Identifier to put in an error reply, from the `pza_id` found in the
/// payload if any
pub fn pza_id_or_unknown(found: Option<String>) -> (r: String)
    ensures
        r@ == match found {
            Some(id) => id@,
            None => "????"@,
        },
{
    match found {
        Some(id) => id,
        None => String::from_str("????"),
    }
}

/// Identifier to put in the error reply to a command payload
pub fn error_pza_id(payload: &[u8]) -> (r: String)
    ensures
        r@ == error_pza_id_spec(payload@),
{
    pza_id_or_unknown(json_str_field(payload, "pza_id"))
}

/// Message of the error reply to a command of type `command_type`
pub fn error_message(command_type: &str, error: &str) -> (r: String)
    ensures
        r@ == "Invalid "@ + command_type@ + " command payload: "@ + error@,
{
    String::from_str("Invalid ").concat(command_type).concat(" command payload: ").concat(error)
}

} // verus!
