use super::topic_suffix;
use crate::text::str_eq;
use vstd::prelude::*;

verus! {

/// Identifies the handler of a command topic.
#[derive(Debug, Clone, Copy, PartialEq, Eq, Structural)]
pub enum CommandHandler {
    OutputSet,
    VoltageSet,
    CurrentSet,
}

impl CommandHandler {
    /// Topic suffix on which this command arrives.
    pub open spec fn suffix(self) -> Seq<char> {
        match self {
            CommandHandler::OutputSet => topic_suffix::CONTROL_OE_CMD@,
            CommandHandler::VoltageSet => topic_suffix::CONTROL_VOLTAGE_CMD@,
            CommandHandler::CurrentSet => topic_suffix::CONTROL_CURRENT_CMD@,
        }
    }

    /// The handler whose suffix is `s`, if any.
    pub open spec fn parse(s: Seq<char>) -> Option<Self> {
        if s == topic_suffix::CONTROL_OE_CMD@ {
            Some(CommandHandler::OutputSet)
        } else if s == topic_suffix::CONTROL_VOLTAGE_CMD@ {
            Some(CommandHandler::VoltageSet)
        } else if s == topic_suffix::CONTROL_CURRENT_CMD@ {
            Some(CommandHandler::CurrentSet)
        } else {
            None
        }
    }

    /// Converts a topic suffix into a CommandHandler
    pub fn from_str(handler_str: &str) -> (r: Option<Self>)
        ensures
            r == Self::parse(handler_str@),
    {
        if str_eq(handler_str, topic_suffix::CONTROL_OE_CMD) {
            Some(CommandHandler::OutputSet)
        } else if str_eq(handler_str, topic_suffix::CONTROL_VOLTAGE_CMD) {
            Some(CommandHandler::VoltageSet)
        } else if str_eq(handler_str, topic_suffix::CONTROL_CURRENT_CMD) {
            Some(CommandHandler::CurrentSet)
        } else {
            None
        }
    }
}

/// Each handler is found again from its own suffix.
pub proof fn lemma_parse_suffix(h: CommandHandler)
    ensures
        CommandHandler::parse(h.suffix()) == Some(h),
{
    reveal_strlit("control/oe/cmd");
    reveal_strlit("control/voltage/cmd");
    reveal_strlit("control/current/cmd");
    assert(topic_suffix::CONTROL_OE_CMD@.len() == 14);
    assert(topic_suffix::CONTROL_VOLTAGE_CMD@.len() == 19);
    assert(topic_suffix::CONTROL_CURRENT_CMD@.len() == 19);
    assert(topic_suffix::CONTROL_VOLTAGE_CMD@[8] == 'v');
    assert(topic_suffix::CONTROL_CURRENT_CMD@[8] == 'c');
}

/// The three command suffixes, and only they, name a handler, and each
/// handler is named by its own suffix alone: every other suffix (the
/// measurement refresh frequencies among them) is no command.
pub proof fn lemma_only_command_suffixes(s: Seq<char>, h: CommandHandler)
    ensures
        CommandHandler::parse(s) is Some <==> (s == "control/oe/cmd"@ || s == "control/voltage/cmd"@
            || s == "control/current/cmd"@),
        CommandHandler::parse(s) == Some(h) <==> s == h.suffix(),
        CommandHandler::OutputSet.suffix() == "control/oe/cmd"@,
        CommandHandler::VoltageSet.suffix() == "control/voltage/cmd"@,
        CommandHandler::CurrentSet.suffix() == "control/current/cmd"@,
        CommandHandler::parse("measure/voltage/refresh_freq"@) is None,
        CommandHandler::parse("measure/current/refresh_freq"@) is None,
{
    reveal_strlit("control/oe/cmd");
    reveal_strlit("control/voltage/cmd");
    reveal_strlit("control/current/cmd");
    reveal_strlit("measure/voltage/refresh_freq");
    reveal_strlit("measure/current/refresh_freq");
    lemma_parse_suffix(h);
    assert("control/voltage/cmd"@[8] != "control/current/cmd"@[8]);
    assert("measure/voltage/refresh_freq"@.len() == 28);
    assert("measure/current/refresh_freq"@.len() == 28);
}

} // verus!
