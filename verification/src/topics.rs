//! MQTT topics of one power supply instance.
use crate::constants::SERVER_TYPE_NAME;
use crate::text::str_eq;
use vstd::prelude::*;

verus! {

/// Identifies one of the topics of a power supply instance.
#[derive(Clone, Copy, Debug, PartialEq, Eq, Structural)]
pub enum TopicId {
    Status,
    Error,
    StateCmd,
    State,
    VoltageCmd,
    Voltage,
    CurrentCmd,
    Current,
}

impl TopicId {
    /// The part of the topic that follows the instance prefix.
    pub open spec fn suffix(self) -> Seq<char> {
        match self {
            TopicId::Status => "/status"@,
            TopicId::Error => "/error"@,
            TopicId::StateCmd => "/state/cmd"@,
            TopicId::State => "/state"@,
            TopicId::VoltageCmd => "/voltage/cmd"@,
            TopicId::Voltage => "/voltage"@,
            TopicId::CurrentCmd => "/current/cmd"@,
            TopicId::Current => "/current"@,
        }
    }

    /// Topics on which clients send commands to the server.
    pub open spec fn is_command(self) -> bool {
        match self {
            TopicId::StateCmd | TopicId::VoltageCmd | TopicId::CurrentCmd => true,
            _ => false,
        }
    }
}

/// Prefix shared by every topic of the instance `name`.
pub open spec fn topic_prefix(name: Seq<char>) -> Seq<char> {
    SERVER_TYPE_NAME@ + "/"@ + name
}

/// Full topic `id` of the instance `name`.
pub open spec fn topic_of(name: Seq<char>, id: TopicId) -> Seq<char> {
    topic_prefix(name) + id.suffix()
}

/// Topics a client subscribes to, in order.
pub open spec fn client_subscriptions() -> Seq<TopicId> {
    seq![TopicId::Status, TopicId::Error, TopicId::State, TopicId::Voltage, TopicId::Current]
}

/// Topics the server subscribes to, in order.
pub open spec fn server_subscriptions() -> Seq<TopicId> {
    seq![TopicId::StateCmd, TopicId::VoltageCmd, TopicId::CurrentCmd]
}

/// Topics used for MQTT communication with the power supply
#[derive(Debug, Clone)]
pub struct Topics {
    /// Topic for status updates
    pub status: String,
    /// Topic for error messages
    pub error: String,
    /// Topic to send state change commands
    pub state_cmd: String,
    /// Topic to receive state updates, acknowledgments from server
    pub state: String,
    /// Topic to send voltage commands
    pub voltage_cmd: String,
    /// Topic to receive voltage updates
    pub voltage: String,
    /// Topic to send current commands
    pub current_cmd: String,
    /// Topic to receive current updates
    pub current: String,
}

impl Topics {
    /// The topic held for `id`.
    pub open spec fn topic(&self, id: TopicId) -> Seq<char> {
        match id {
            TopicId::Status => self.status@,
            TopicId::Error => self.error@,
            TopicId::StateCmd => self.state_cmd@,
            TopicId::State => self.state@,
            TopicId::VoltageCmd => self.voltage_cmd@,
            TopicId::Voltage => self.voltage@,
            TopicId::CurrentCmd => self.current_cmd@,
            TopicId::Current => self.current@,
        }
    }

    /// Every topic is the one of instance `name`.
    pub open spec fn named(&self, name: Seq<char>) -> bool {
        forall|id: TopicId| #[trigger] self.topic(id) == topic_of(name, id)
    }

    /// No two identifiers share a topic.
    pub open spec fn distinct(&self) -> bool {
        forall|a: TopicId, b: TopicId| a != b ==> #[trigger] self.topic(a) != #[trigger] self.topic(b)
    }

    /// The identifier of `topic`: the first field, in declaration order, equal to it.
    pub open spec fn lookup(&self, topic: Seq<char>) -> Option<TopicId> {
        if topic == self.status@ {
            Some(TopicId::Status)
        } else if topic == self.error@ {
            Some(TopicId::Error)
        } else if topic == self.state_cmd@ {
            Some(TopicId::StateCmd)
        } else if topic == self.state@ {
            Some(TopicId::State)
        } else if topic == self.voltage_cmd@ {
            Some(TopicId::VoltageCmd)
        } else if topic == self.voltage@ {
            Some(TopicId::Voltage)
        } else if topic == self.current_cmd@ {
            Some(TopicId::CurrentCmd)
        } else if topic == self.current@ {
            Some(TopicId::Current)
        } else {
            None
        }
    }

    /// Create a new Topics instance for the instance `name`
    pub fn new(name: &str) -> (t: Self)
        ensures
            t.named(name@),
    {
        let mut prefix = String::from_str(SERVER_TYPE_NAME);
        prefix.append("/");
        prefix.append(name);
        let t = Topics {
            status: prefix.clone().concat("/status"),
            error: prefix.clone().concat("/error"),
            state_cmd: prefix.clone().concat("/state/cmd"),
            state: prefix.clone().concat("/state"),
            voltage_cmd: prefix.clone().concat("/voltage/cmd"),
            voltage: prefix.clone().concat("/voltage"),
            current_cmd: prefix.clone().concat("/current/cmd"),
            current: prefix.concat("/current"),
        };
        assert forall|id: TopicId| #[trigger] t.topic(id) == topic_of(name@, id) by {
            match id {
                TopicId::Status => {},
                TopicId::Error => {},
                TopicId::StateCmd => {},
                TopicId::State => {},
                TopicId::VoltageCmd => {},
                TopicId::Voltage => {},
                TopicId::CurrentCmd => {},
                TopicId::Current => {},
            }
        }
        t
    }

    /// Get a vector of all client subscription topics
    pub fn vec_sub_client(&self) -> (r: Vec<String>)
        ensures
            r.len() == client_subscriptions().len(),
            forall|i: int| 0 <= i < r.len() ==> #[trigger] r[i]@ == self.topic(client_subscriptions()[i]),
    {
        let r = vec![
            self.status.clone(),
            self.error.clone(),
            self.state.clone(),
            self.voltage.clone(),
            self.current.clone(),
        ];
        r
    }

    /// Get a vector of all server subscription topics
    pub fn vec_sub_server(&self) -> (r: Vec<String>)
        ensures
            r.len() == server_subscriptions().len(),
            forall|i: int| 0 <= i < r.len() ==> #[trigger] r[i]@ == self.topic(server_subscriptions()[i]),
    {
        let r = vec![self.state_cmd.clone(), self.voltage_cmd.clone(), self.current_cmd.clone()];
        r
    }

    /// Find the identifier of a topic
    pub fn topic_to_id(&self, topic: &str) -> (r: Option<TopicId>)
        ensures
            r == self.lookup(topic@),
    {
        if str_eq(topic, self.status.as_str()) {
            Some(TopicId::Status)
        } else if str_eq(topic, self.error.as_str()) {
            Some(TopicId::Error)
        } else if str_eq(topic, self.state_cmd.as_str()) {
            Some(TopicId::StateCmd)
        } else if str_eq(topic, self.state.as_str()) {
            Some(TopicId::State)
        } else if str_eq(topic, self.voltage_cmd.as_str()) {
            Some(TopicId::VoltageCmd)
        } else if str_eq(topic, self.voltage.as_str()) {
            Some(TopicId::Voltage)
        } else if str_eq(topic, self.current_cmd.as_str()) {
            Some(TopicId::CurrentCmd)
        } else if str_eq(topic, self.current.as_str()) {
            Some(TopicId::Current)
        } else {
            None
        }
    }

    /// The topic of an identifier
    pub fn id_to_topic(&self, id: &TopicId) -> (r: &str)
        ensures
            r@ == self.topic(*id),
    {
        match id {
            TopicId::Status => self.status.as_str(),
            TopicId::Error => self.error.as_str(),
            TopicId::StateCmd => self.state_cmd.as_str(),
            TopicId::State => self.state.as_str(),
            TopicId::VoltageCmd => self.voltage_cmd.as_str(),
            TopicId::Voltage => self.voltage.as_str(),
            TopicId::CurrentCmd => self.current_cmd.as_str(),
            TopicId::Current => self.current.as_str(),
        }
    }
}

proof fn lemma_suffix_shape(id: TopicId)
    ensures
        id.suffix().len() == (match id {
            TopicId::Status => 7int,
            TopicId::Error => 6,
            TopicId::StateCmd => 10,
            TopicId::State => 6,
            TopicId::VoltageCmd => 12,
            TopicId::Voltage => 8,
            TopicId::CurrentCmd => 12,
            TopicId::Current => 8,
        }),
        id.suffix()[1] == (match id {
            TopicId::Status => 's',
            TopicId::Error => 'e',
            TopicId::StateCmd => 's',
            TopicId::State => 's',
            TopicId::VoltageCmd => 'v',
            TopicId::Voltage => 'v',
            TopicId::CurrentCmd => 'c',
            TopicId::Current => 'c',
        }),
{
    reveal_strlit("/status");
    reveal_strlit("/error");
    reveal_strlit("/state/cmd");
    reveal_strlit("/state");
    reveal_strlit("/voltage/cmd");
    reveal_strlit("/voltage");
    reveal_strlit("/current/cmd");
    reveal_strlit("/current");
}

/// Different identifiers have different suffixes.
proof fn lemma_suffixes_distinct(a: TopicId, b: TopicId)
    requires
        a != b,
    ensures
        a.suffix() != b.suffix(),
{
    lemma_suffix_shape(a);
    lemma_suffix_shape(b);
}

/// The topics of one instance are pairwise different.
pub proof fn lemma_named_topics_distinct(t: Topics, name: Seq<char>)
    requires
        t.named(name),
    ensures
        t.distinct(),
{
    assert forall|a: TopicId, b: TopicId| a != b implies #[trigger] t.topic(a) != #[trigger] t.topic(b) by {
        lemma_suffixes_distinct(a, b);
        let p = topic_prefix(name);
        if t.topic(a) == t.topic(b) {
            assert(topic_of(name, a).skip(p.len() as int) =~= a.suffix());
            assert(topic_of(name, b).skip(p.len() as int) =~= b.suffix());
        }
    }
}

/// The last characters of each suffix, counted from its end.
proof fn lemma_suffix_tail(id: TopicId)
    ensures
        ({
            let s = id.suffix();
            let n = s.len() as int;
            &&& n >= 6
            &&& s[n - 1] == (match id {
                TopicId::Status => 's',
                TopicId::Error => 'r',
                TopicId::StateCmd => 'd',
                TopicId::State => 'e',
                TopicId::VoltageCmd => 'd',
                TopicId::Voltage => 'e',
                TopicId::CurrentCmd => 'd',
                TopicId::Current => 't',
            })
            &&& s[n - 5] == (match id {
                TopicId::Status => 't',
                TopicId::Error => 'e',
                TopicId::StateCmd => 'e',
                TopicId::State => 's',
                TopicId::VoltageCmd => 'e',
                TopicId::Voltage => 'l',
                TopicId::CurrentCmd => 't',
                TopicId::Current => 'r',
            })
            &&& s[n - 6] == (match id {
                TopicId::Status => 's',
                TopicId::Error => '/',
                TopicId::StateCmd => 't',
                TopicId::State => '/',
                TopicId::VoltageCmd => 'g',
                TopicId::Voltage => 'o',
                TopicId::CurrentCmd => 'n',
                TopicId::Current => 'u',
            })
        }),
{
    reveal_strlit("/status");
    reveal_strlit("/error");
    reveal_strlit("/state/cmd");
    reveal_strlit("/state");
    reveal_strlit("/voltage/cmd");
    reveal_strlit("/voltage");
    reveal_strlit("/current/cmd");
    reveal_strlit("/current");
}

/// No suffix ends with another one.
proof fn lemma_suffix_not_tail(a: TopicId, b: TopicId)
    requires
        a != b,
    ensures
        !(a.suffix().len() <= b.suffix().len() && b.suffix().skip(
            b.suffix().len() - a.suffix().len(),
        ) == a.suffix()),
{
    let sa = a.suffix();
    let sb = b.suffix();
    lemma_suffix_tail(a);
    lemma_suffix_tail(b);
    lemma_suffix_shape(a);
    lemma_suffix_shape(b);
    if sa.len() <= sb.len() && sb.skip(sb.len() - sa.len()) == sa {
        let d = sb.len() - sa.len();
        let na = sa.len() as int;
        assert(sa[na - 1] == sb.skip(d)[na - 1]);
        assert(sa[na - 5] == sb.skip(d)[na - 5]);
        assert(sa[na - 6] == sb.skip(d)[na - 6]);
        if sa.len() == sb.len() {
            assert(sa[1] == sb.skip(d)[1]);
        }
    }
}

/// A topic determines its instance and its identifier.
pub proof fn lemma_topic_of_injective(n1: Seq<char>, n2: Seq<char>, a: TopicId, b: TopicId)
    requires
        topic_of(n1, a) == topic_of(n2, b),
    ensures
        n1 == n2,
        a == b,
{
    let x = topic_of(n1, a);
    let sa = a.suffix();
    let sb = b.suffix();
    let n = x.len() as int;
    assert(x.skip(n - sa.len()) =~= sa);
    assert(x.skip(n - sb.len()) =~= sb);
    if a != b {
        if sa.len() <= sb.len() {
            assert(sb.skip(sb.len() - sa.len()) =~= x.skip(n - sa.len()));
            lemma_suffix_not_tail(a, b);
        } else {
            assert(sa.skip(sa.len() - sb.len()) =~= x.skip(n - sb.len()));
            lemma_suffix_not_tail(b, a);
        }
    }
    assert(x.take(n - sa.len()) =~= topic_prefix(n1));
    assert(topic_of(n2, b).take(n - sb.len()) =~= topic_prefix(n2));
    let k = (SERVER_TYPE_NAME@ + "/"@).len() as int;
    assert(topic_prefix(n1).skip(k) =~= n1);
    assert(topic_prefix(n2).skip(k) =~= n2);
}

/// A topic of one instance is never taken for a topic of another instance.
pub proof fn lemma_topics_of_other_instance(t: Topics, n1: Seq<char>, n2: Seq<char>, id: TopicId)
    requires
        t.named(n1),
        n1 != n2,
    ensures
        t.lookup(topic_of(n2, id)) is None,
{
    let topic = topic_of(n2, id);
    lemma_topic_of_lookup(t, topic);
    if let Some(found) = t.lookup(topic) {
        assert(t.topic(found) == topic_of(n1, found));
        lemma_topic_of_injective(n1, n2, found, id);
    }
}

/// Looking up the topic of an identifier gives that identifier back, when
/// topics are pairwise different.
pub proof fn lemma_lookup_of_topic(t: Topics, id: TopicId)
    requires
        t.distinct(),
    ensures
        t.lookup(t.topic(id)) == Some(id),
{
    assert(t.topic(TopicId::Status) == t.status@);
    assert(t.topic(TopicId::Error) == t.error@);
    assert(t.topic(TopicId::StateCmd) == t.state_cmd@);
    assert(t.topic(TopicId::State) == t.state@);
    assert(t.topic(TopicId::VoltageCmd) == t.voltage_cmd@);
    assert(t.topic(TopicId::Voltage) == t.voltage@);
    assert(t.topic(TopicId::CurrentCmd) == t.current_cmd@);
    assert(t.topic(TopicId::Current) == t.current@);
}

/// A topic found by lookup is the topic of the identifier found.
pub proof fn lemma_topic_of_lookup(t: Topics, topic: Seq<char>)
    ensures
        t.lookup(topic) matches Some(id) ==> t.topic(id) == topic,
{
}

/// The server subscribes to command topics only, a client to the other
/// topics only, for the topics of any instance.
pub proof fn lemma_subscriptions_split_commands(t: Topics, name: Seq<char>)
    requires
        t.named(name),
    ensures
        forall|i: int| 0 <= i < server_subscriptions().len() ==>
            (#[trigger] t.lookup(t.topic(server_subscriptions()[i])) matches Some(id) && id.is_command()),
        forall|i: int| 0 <= i < client_subscriptions().len() ==>
            (#[trigger] t.lookup(t.topic(client_subscriptions()[i])) matches Some(id) && !id.is_command()),
{
    lemma_named_topics_distinct(t, name);
    assert forall|i: int| 0 <= i < server_subscriptions().len() implies
        (#[trigger] t.lookup(t.topic(server_subscriptions()[i])) matches Some(id) && id.is_command()) by {
        lemma_lookup_of_topic(t, server_subscriptions()[i]);
    }
    assert forall|i: int| 0 <= i < client_subscriptions().len() implies
        (#[trigger] t.lookup(t.topic(client_subscriptions()[i])) matches Some(id) && !id.is_command()) by {
        lemma_lookup_of_topic(t, client_subscriptions()[i]);
    }
}

} // verus!
