use pi_touchscreen_control::config::MqttConfig;
use pi_touchscreen_control::mqtt::{
    auth_credentials, bool_to_mqtt_payload, device_config_publications, duration_to_mqtt_payload,
    handle_message, mqtt_payload_to_bool, mqtt_payload_to_duration, mqtt_payload_to_u8,
    state_publications, subscriptions, Entity, MessageOutcome, MqttData, Qos,
};
use pi_touchscreen_control::state::State;

fn mqtt_config() -> MqttConfig {
    MqttConfig {
        use_mqtt: true,
        server_address: "127.0.0.1".to_string(),
        server_port: 1883,
        connection_attempts: 10,
        auth_username: String::new(),
        auth_password: "pw".to_string(),
        discovery_topic_prefix: "homeassistant".to_string(),
        app_topic_prefix: "pi_ts_control".to_string(),
        device_id: "pi_ts_control".to_string(),
        device_name: "Pi Touchscreen".to_string(),
    }
}

fn state() -> State {
    State {
        backlight_active_current: true,
        backlight_active_dimmed: false,
        brightness_current: 128,
        brightness_dimmed: 30,
        brightness_full: 255,
        use_dimmer: true,
        timeout: 60,
    }
}

const ALL: [Entity; 7] = [
    Entity::PowerState,
    Entity::Brightness,
    Entity::UseDimmer,
    Entity::PowerDimmed,
    Entity::BrightnessDimmed,
    Entity::BrightnessFull,
    Entity::TimeoutSec,
];

#[test]
fn topics_follow_the_configuration() {
    let d = MqttData::new(&mqtt_config());
    assert_eq!(d.device_config_topic(), "homeassistant/device/pi_ts_control/config");
    assert_eq!(d.home_assistant_status_topic(), "homeassistant/status");
    assert_eq!(d.state_topic(Entity::PowerState), "pi_ts_control/power_state/state");
    assert_eq!(d.command_topic(Entity::TimeoutSec), "pi_ts_control/timeout_sec/set");
    assert_eq!(d.availability_topic(Entity::BrightnessFull), "pi_ts_control/brightness_full/available");
    assert_eq!(d.unique_id(Entity::PowerState), "pi_ts_control_power");
    assert_eq!(d.unique_id(Entity::UseDimmer), "pi_ts_control_use_dimmer");
}

#[test]
fn entity_descriptions() {
    assert_eq!(Entity::PowerDimmed.display_name(), "Backlight enabled when inactive");
    assert_eq!(Entity::PowerState.device_class(), Some("switch"));
    assert_eq!(Entity::UseDimmer.device_class(), None);
    assert!(Entity::UseDimmer.is_switch());
    assert!(!Entity::Brightness.is_switch());
    let n = Entity::TimeoutSec.number_settings().unwrap();
    assert_eq!((n.min, n.max, n.step, n.mode, n.unit_of_measurement), (1, 86400, 1, "box", Some("seconds")));
    let n = Entity::BrightnessDimmed.number_settings().unwrap();
    assert_eq!((n.min, n.max, n.step, n.mode, n.unit_of_measurement), (1, 255, 1, "slider", None));
    assert!(Entity::PowerState.number_settings().is_none());
}

#[test]
fn payload_conversions() {
    assert_eq!(bool_to_mqtt_payload(true), "on");
    assert_eq!(bool_to_mqtt_payload(false), "off");
    assert!(mqtt_payload_to_bool(&b"on".to_vec()));
    assert!(!mqtt_payload_to_bool(&b"off".to_vec()));
    assert!(!mqtt_payload_to_bool(&b"ON".to_vec()));
    assert_eq!(duration_to_mqtt_payload(86400), "86400");
    assert_eq!(duration_to_mqtt_payload(0), "0");
    assert_eq!(mqtt_payload_to_duration(&b"18446744073709551615".to_vec()), u64::MAX);
    assert_eq!(mqtt_payload_to_duration(&b"0".to_vec()), 0);
    assert_eq!(mqtt_payload_to_u8(&b"255".to_vec()), 255);
    assert_eq!(mqtt_payload_to_u8(&b"+08".to_vec()), 8);
    for n in 0..=255u8 {
        assert_eq!(mqtt_payload_to_u8(&n.to_string().into_bytes()), n);
    }
}

#[test]
fn payloads_that_are_not_numbers_are_refused() {
    let d = MqttData::new(&mqtt_config());
    for payload in [b"256".to_vec(), b" 5".to_vec(), b"+".to_vec(), b"".to_vec(), b"-1".to_vec(), vec![0xff, b'5']] {
        let mut s = state();
        let out = handle_message(&d, &mut s, &"pi_ts_control/brightness_full/set".to_string(), &payload);
        assert_eq!(out, MessageOutcome::InvalidPayload(Entity::BrightnessFull));
        assert_eq!(s, state());
    }
    for payload in [b"18446744073709551616".to_vec(), b"1.5".to_vec(), b"abc".to_vec()] {
        let mut s = state();
        let out = handle_message(&d, &mut s, &"pi_ts_control/timeout_sec/set".to_string(), &payload);
        assert_eq!(out, MessageOutcome::InvalidPayload(Entity::TimeoutSec));
        assert_eq!(s, state());
    }
}

#[test]
fn first_publication_publishes_everything() {
    let d = MqttData::new(&mqtt_config());
    let p = state_publications(&d, None, &state());
    let got: Vec<(String, Vec<u8>)> = p.iter().map(|p| (p.topic.clone(), p.payload.clone())).collect();
    assert_eq!(
        got,
        vec![
            ("pi_ts_control/power_state/state".to_string(), b"on".to_vec()),
            ("pi_ts_control/power_dimmed/state".to_string(), b"off".to_vec()),
            ("pi_ts_control/brightness/state".to_string(), b"128".to_vec()),
            ("pi_ts_control/brightness_dimmed/state".to_string(), b"30".to_vec()),
            ("pi_ts_control/brightness_full/state".to_string(), b"255".to_vec()),
            ("pi_ts_control/use_dimmer/state".to_string(), b"on".to_vec()),
            ("pi_ts_control/timeout_sec/state".to_string(), b"60".to_vec()),
        ]
    );
    assert!(p.iter().all(|p| p.qos == Qos::ExactlyOnce && !p.retain));
}

#[test]
fn unchanged_state_publishes_nothing() {
    let d = MqttData::new(&mqtt_config());
    assert!(state_publications(&d, Some(&state()), &state()).is_empty());
}

#[test]
fn changed_fields_are_published() {
    let d = MqttData::new(&mqtt_config());
    let new = State { brightness_current: 5, timeout: 10, ..state() };
    let p = state_publications(&d, Some(&state()), &new);
    assert_eq!(p.len(), 2);
    assert_eq!(p[0].topic, "pi_ts_control/brightness/state");
    assert_eq!(p[0].payload, b"5".to_vec());
    assert_eq!(p[1].topic, "pi_ts_control/timeout_sec/state");
    assert_eq!(p[1].payload, b"10".to_vec());
}

#[test]
fn device_config_announces_availability() {
    let d = MqttData::new(&mqtt_config());
    let p = device_config_publications(&d);
    assert_eq!(p.len(), 8);
    assert_eq!(p[0].topic, "homeassistant/device/pi_ts_control/config");
    let doc: serde_json::Value = serde_json::from_slice(&p[0].payload).unwrap();
    assert_eq!(doc["dev"]["ids"], "pi_ts_control");
    assert_eq!(p[1].topic, "pi_ts_control/brightness/available");
    assert_eq!(p[7].topic, "pi_ts_control/use_dimmer/available");
    assert!(p[1..].iter().all(|p| p.payload == b"online".to_vec()));
    assert!(p.iter().all(|p| p.qos == Qos::ExactlyOnce && p.retain));
}

#[test]
fn subscriptions_listen_at_most_once() {
    let d = MqttData::new(&mqtt_config());
    let subs = subscriptions(&d);
    let t: Vec<String> = subs.iter().map(|s| s.topic.clone()).collect();
    assert_eq!(
        t,
        vec![
            "homeassistant/status",
            "pi_ts_control/brightness/set",
            "pi_ts_control/brightness_dimmed/set",
            "pi_ts_control/brightness_full/set",
            "pi_ts_control/power_dimmed/set",
            "pi_ts_control/power_state/set",
            "pi_ts_control/timeout_sec/set",
            "pi_ts_control/use_dimmer/set",
        ]
    );
    assert!(subs.iter().all(|s| s.qos == Qos::AtMostOnce));
}

#[test]
fn credentials_are_left_out_when_empty() {
    let (user, pass) = auth_credentials(&mqtt_config());
    assert_eq!(user, None);
    assert_eq!(pass, Some("pw".to_string()));
}

#[test]
fn home_assistant_online_asks_for_the_state() {
    let d = MqttData::new(&mqtt_config());
    let mut s = state();
    let out = handle_message(&d, &mut s, &"homeassistant/status".to_string(), &b"online".to_vec());
    assert_eq!(out, MessageOutcome::RepublishState);
    assert_eq!(s, state());
    let out = handle_message(&d, &mut s, &"homeassistant/status".to_string(), &b"offline".to_vec());
    assert_eq!(out, MessageOutcome::Ignored);
}

#[test]
fn commands_set_their_field() {
    let d = MqttData::new(&mqtt_config());
    let mut s = state();
    let out = handle_message(&d, &mut s, &"pi_ts_control/brightness_dimmed/set".to_string(), &b"12".to_vec());
    assert_eq!(out, MessageOutcome::Updated(Entity::BrightnessDimmed));
    assert_eq!(s, State { brightness_dimmed: 12, ..state() });
    let out = handle_message(&d, &mut s, &"pi_ts_control/power_state/set".to_string(), &b"off".to_vec());
    assert_eq!(out, MessageOutcome::Updated(Entity::PowerState));
    assert!(!s.backlight_active_current);
    let out = handle_message(&d, &mut s, &"pi_ts_control/timeout_sec/set".to_string(), &b"300".to_vec());
    assert_eq!(out, MessageOutcome::Updated(Entity::TimeoutSec));
    assert_eq!(s.timeout, 300);
}

#[test]
fn invalid_command_payload_leaves_state() {
    let d = MqttData::new(&mqtt_config());
    let mut s = state();
    let out = handle_message(&d, &mut s, &"pi_ts_control/brightness/set".to_string(), &b"bright".to_vec());
    assert_eq!(out, MessageOutcome::InvalidPayload(Entity::Brightness));
    assert_eq!(s, state());
}

#[test]
fn unknown_topic_is_ignored() {
    let d = MqttData::new(&mqtt_config());
    let mut s = state();
    let out = handle_message(&d, &mut s, &"pi_ts_control/brightness/state".to_string(), &b"1".to_vec());
    assert_eq!(out, MessageOutcome::Ignored);
    assert_eq!(s, state());
}

#[test]
fn published_values_sent_back_as_commands_set_the_same_values() {
    let d = MqttData::new(&mqtt_config());
    let published = State { backlight_active_current: false, brightness_full: 77, timeout: 1234, ..state() };
    for e in ALL {
        let mut s = state();
        let before = s;
        let payload = e.state_text(&published).into_bytes();
        let out = handle_message(&d, &mut s, &d.command_topic(e), &payload);
        assert_eq!(out, MessageOutcome::Updated(e));
        assert!(!e.differs(&s, &published));
        for f in ALL {
            if f != e {
                assert!(!f.differs(&s, &before));
            }
        }
    }
}

#[test]
fn command_topics_are_distinct() {
    let d = MqttData::new(&mqtt_config());
    for a in ALL {
        for b in ALL {
            if a != b {
                assert_ne!(d.command_topic(a), d.command_topic(b));
            }
        }
    }
}
