//! Routing of the messages received by an instance runner, which matches
//! incoming topics against its own topics one by one.
use crate::server::mqtt::runner::{lemma_runner_topic_injective, RunnerTopics};
use crate::server::mqtt::topic_suffix;
use crate::text::str_eq;
use vstd::prelude::*;

verus! {

/// Kind of a message received by an instance runner.
#[derive(Clone, Copy, Debug, PartialEq, Eq, Structural)]
pub enum InstanceMessage {
    /// `ON` / `OFF` output enable command
    OutputEnable,
    /// Voltage setting command
    Voltage,
    /// Current limit setting command
    Current,
    /// Voltage measurement refresh frequency
    VoltageRefreshFreq,
    /// Current measurement refresh frequency
    CurrentRefreshFreq,
    /// Any other topic
    Unhandled,
}

/// Kind of the message received on `topic`: the first matching topic, in
/// the order output enable, voltage, current, then the refresh frequencies.
pub open spec fn instance_message_spec(topics: RunnerTopics, topic: Seq<char>) -> InstanceMessage {
    if topic == topics.control_oe_cmd@ {
        InstanceMessage::OutputEnable
    } else if topic == topics.control_voltage_cmd@ {
        InstanceMessage::Voltage
    } else if topic == topics.control_current_cmd@ {
        InstanceMessage::Current
    } else if topic == topics.measure_voltage_refresh_freq@ {
        InstanceMessage::VoltageRefreshFreq
    } else if topic == topics.measure_current_refresh_freq@ {
        InstanceMessage::CurrentRefreshFreq
    } else {
        InstanceMessage::Unhandled
    }
}

/// Kind of an incoming message, from its topic
pub fn classify_instance_message(topics: &RunnerTopics, topic: &str) -> (r: InstanceMessage)
    ensures
        r == instance_message_spec(*topics, topic@),
{
    if str_eq(topic, topics.control_oe_cmd.as_str()) {
        InstanceMessage::OutputEnable
    } else if str_eq(topic, topics.control_voltage_cmd.as_str()) {
        InstanceMessage::Voltage
    } else if str_eq(topic, topics.control_current_cmd.as_str()) {
        InstanceMessage::Current
    } else if str_eq(topic, topics.measure_voltage_refresh_freq.as_str()) {
        InstanceMessage::VoltageRefreshFreq
    } else if str_eq(topic, topics.measure_current_refresh_freq.as_str()) {
        InstanceMessage::CurrentRefreshFreq
    } else {
        InstanceMessage::Unhandled
    }
}

/// The topics of a runner are told apart: each command and refresh
/// frequency topic is classified as its own kind.
pub proof fn lemma_instance_topics_classified(topics: RunnerTopics, name: Seq<char>)
    requires
        topics.named(name),
    ensures
        instance_message_spec(topics, topics.control_oe_cmd@) == InstanceMessage::OutputEnable,
        instance_message_spec(topics, topics.control_voltage_cmd@) == InstanceMessage::Voltage,
        instance_message_spec(topics, topics.control_current_cmd@) == InstanceMessage::Current,
        instance_message_spec(topics, topics.measure_voltage_refresh_freq@)
            == InstanceMessage::VoltageRefreshFreq,
        instance_message_spec(topics, topics.measure_current_refresh_freq@)
            == InstanceMessage::CurrentRefreshFreq,
{
    reveal_strlit("control/oe/cmd");
    reveal_strlit("control/voltage/cmd");
    reveal_strlit("control/current/cmd");
    reveal_strlit("measure/voltage/refresh_freq");
    reveal_strlit("measure/current/refresh_freq");
    let oe = topic_suffix::CONTROL_OE_CMD@;
    let v = topic_suffix::CONTROL_VOLTAGE_CMD@;
    let c = topic_suffix::CONTROL_CURRENT_CMD@;
    let mv = topic_suffix::MEASURE_VOLTAGE_REFRESH_FREQ@;
    let mc = topic_suffix::MEASURE_CURRENT_REFRESH_FREQ@;
    assert(oe.len() == 14 && v.len() == 19 && c.len() == 19 && mv.len() == 28 && mc.len() == 28);
    assert(v[8] == 'v' && c[8] == 'c' && mv[8] == 'v' && mc[8] == 'c');
    if topics.control_voltage_cmd@ == topics.control_oe_cmd@ {
        lemma_runner_topic_injective(name, v, oe);
    }
    if topics.control_current_cmd@ == topics.control_oe_cmd@ {
        lemma_runner_topic_injective(name, c, oe);
    }
    if topics.control_current_cmd@ == topics.control_voltage_cmd@ {
        lemma_runner_topic_injective(name, c, v);
    }
    if topics.measure_voltage_refresh_freq@ == topics.control_oe_cmd@ {
        lemma_runner_topic_injective(name, mv, oe);
    }
    if topics.measure_voltage_refresh_freq@ == topics.control_voltage_cmd@ {
        lemma_runner_topic_injective(name, mv, v);
    }
    if topics.measure_voltage_refresh_freq@ == topics.control_current_cmd@ {
        lemma_runner_topic_injective(name, mv, c);
    }
    if topics.measure_current_refresh_freq@ == topics.control_oe_cmd@ {
        lemma_runner_topic_injective(name, mc, oe);
    }
    if topics.measure_current_refresh_freq@ == topics.control_voltage_cmd@ {
        lemma_runner_topic_injective(name, mc, v);
    }
    if topics.measure_current_refresh_freq@ == topics.control_current_cmd@ {
        lemma_runner_topic_injective(name, mc, c);
    }
    if topics.measure_current_refresh_freq@ == topics.measure_voltage_refresh_freq@ {
        lemma_runner_topic_injective(name, mc, mv);
    }
}

} // verus!
