use pza_power_supply::text::{decimal_string, str_eq, strip_prefix};
use pza_power_supply::topics::{TopicId, Topics};

const ALL: [TopicId; 8] = [
    TopicId::Status,
    TopicId::Error,
    TopicId::StateCmd,
    TopicId::State,
    TopicId::VoltageCmd,
    TopicId::Voltage,
    TopicId::CurrentCmd,
    TopicId::Current,
];

#[test]
fn topics_of_an_instance() {
    let t = Topics::new("emulator");
    assert_eq!(t.status, "power-supply/emulator/status");
    assert_eq!(t.error, "power-supply/emulator/error");
    assert_eq!(t.state_cmd, "power-supply/emulator/state/cmd");
    assert_eq!(t.state, "power-supply/emulator/state");
    assert_eq!(t.voltage_cmd, "power-supply/emulator/voltage/cmd");
    assert_eq!(t.voltage, "power-supply/emulator/voltage");
    assert_eq!(t.current_cmd, "power-supply/emulator/current/cmd");
    assert_eq!(t.current, "power-supply/emulator/current");
}

#[test]
fn subscriptions() {
    let t = Topics::new("psu");
    assert_eq!(
        t.vec_sub_client(),
        vec![
            "power-supply/psu/status".to_string(),
            "power-supply/psu/error".to_string(),
            "power-supply/psu/state".to_string(),
            "power-supply/psu/voltage".to_string(),
            "power-supply/psu/current".to_string(),
        ]
    );
    assert_eq!(
        t.vec_sub_server(),
        vec![
            "power-supply/psu/state/cmd".to_string(),
            "power-supply/psu/voltage/cmd".to_string(),
            "power-supply/psu/current/cmd".to_string(),
        ]
    );
}

#[test]
fn topic_id_round_trip() {
    let t = Topics::new("emulator");
    for id in ALL {
        let topic = t.id_to_topic(&id).to_string();
        assert_eq!(t.topic_to_id(&topic), Some(id));
    }
    assert_eq!(t.topic_to_id("power-supply/emulator/other"), None);
    assert_eq!(t.topic_to_id("power-supply/other/status"), None);
}

#[test]
fn text_helpers() {
    assert!(str_eq("abc", "abc"));
    assert!(!str_eq("abc", "abd"));
    assert!(!str_eq("abc", "ab"));
    assert_eq!(strip_prefix("a/b/c", "a/"), Some("b/c".to_string()));
    assert_eq!(strip_prefix("a/b/c", "b/"), None);
    assert_eq!(strip_prefix("a", "ab"), None);
    assert_eq!(decimal_string(0), "0");
    assert_eq!(decimal_string(50051), "50051");
    assert_eq!(decimal_string(u64::MAX), u64::MAX.to_string());
}

#[test]
fn topics_of_another_instance_are_not_found() {
    let mine = Topics::new("emulator");
    let other = Topics::new("lab");
    for id in ALL {
        let topic = other.id_to_topic(&id).to_string();
        assert_eq!(mine.topic_to_id(&topic), None);
        assert_eq!(other.topic_to_id(&topic), Some(id));
    }
}
