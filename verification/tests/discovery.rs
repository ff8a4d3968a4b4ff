use pi_touchscreen_control::config::MqttConfig;
use pi_touchscreen_control::mqtt::{device_config_publications, MqttData};
use serde_json::Value;

fn object(pairs: &[(&str, Value)]) -> Value {
    let mut m = serde_json::Map::new();
    for (k, v) in pairs {
        m.insert(k.to_string(), v.clone());
    }
    Value::Object(m)
}

fn t(s: &str) -> Value {
    Value::from(s)
}

fn n(v: u32) -> Value {
    Value::from(v)
}

fn config() -> MqttConfig {
    MqttConfig {
        use_mqtt: true,
        server_address: "127.0.0.1".to_string(),
        server_port: 1883,
        connection_attempts: 10,
        auth_username: String::new(),
        auth_password: String::new(),
        discovery_topic_prefix: "ha".to_string(),
        app_topic_prefix: "app".to_string(),
        device_id: "dev1".to_string(),
        device_name: "Screen".to_string(),
    }
}

fn document() -> Value {
    let d = MqttData::new(&config());
    let p = device_config_publications(&d);
    assert_eq!(p[0].topic, "ha/device/dev1/config");
    assert!(p[0].retain);
    serde_json::from_slice(&p[0].payload).unwrap()
}

const KEYS: [&str; 7] = [
    "power_state",
    "brightness",
    "use_dimmer",
    "power_dimmed",
    "brightness_dimmed",
    "brightness_full",
    "timeout_sec",
];

#[test]
fn discovery_names_the_device_and_the_software() {
    let doc = document();
    assert_eq!(doc["dev"], object(&[("ids", t("dev1")), ("name", t("Screen")), ("sw", t("0.1"))]));
    assert_eq!(
        doc["o"],
        object(&[("name", t("pi_touchscreen_control")), ("sw", t("0.1")), ("url", t("https://github.com/jatofg/pi-touchscreen-control"))])
    );
}

#[test]
fn discovery_has_the_seven_components_with_their_topics() {
    let doc = document();
    let cmps = doc["cmps"].as_object().unwrap();
    assert_eq!(cmps.len(), 7);
    for k in KEYS {
        let c = &cmps[k];
        assert_eq!(c["state_topic"], format!("app/{k}/state"));
        assert_eq!(c["command_topic"], format!("app/{k}/set"));
        assert_eq!(c["availability_topic"], format!("app/{k}/available"));
    }
}

#[test]
fn discovery_unique_ids_are_distinct() {
    let doc = document();
    let mut ids: Vec<String> = KEYS.iter().map(|k| doc["cmps"][k]["unique_id"].as_str().unwrap().to_string()).collect();
    assert_eq!(doc["cmps"]["power_state"]["unique_id"], "dev1_power");
    assert_eq!(doc["cmps"]["timeout_sec"]["unique_id"], "dev1_timeout_sec");
    ids.sort();
    ids.dedup();
    assert_eq!(ids.len(), 7);
}

#[test]
fn discovery_components_hold_every_member() {
    let doc = document();
    assert_eq!(
        doc["cmps"]["power_state"],
        object(&[("p", t("switch")), ("device_class", t("switch")), ("unique_id", t("dev1_power")), ("name", t("Backlight enabled")), ("state_topic", t("app/power_state/state")), ("payload_on", t("on")), ("payload_off", t("off")), ("command_topic", t("app/power_state/set")), ("availability_topic", t("app/power_state/available")), ("payload_available", t("online")), ("payload_not_available", t("offline"))])
    );
    assert_eq!(
        doc["cmps"]["use_dimmer"],
        object(&[("p", t("switch")), ("unique_id", t("dev1_use_dimmer")), ("name", t("Automatic dimming")), ("state_topic", t("app/use_dimmer/state")), ("payload_on", t("on")), ("payload_off", t("off")), ("command_topic", t("app/use_dimmer/set")), ("availability_topic", t("app/use_dimmer/available")), ("payload_available", t("online")), ("payload_not_available", t("offline"))])
    );
    assert_eq!(
        doc["cmps"]["brightness_full"],
        object(&[("p", t("number")), ("unique_id", t("dev1_brightness_full")), ("name", t("Brightness when active")), ("state_topic", t("app/brightness_full/state")), ("command_topic", t("app/brightness_full/set")), ("availability_topic", t("app/brightness_full/available")), ("min", n(1)), ("max", n(255)), ("mode", t("slider")), ("step", n(1))])
    );
    assert_eq!(
        doc["cmps"]["timeout_sec"],
        object(&[("p", t("number")), ("unique_id", t("dev1_timeout_sec")), ("name", t("Activity timeout for dimming")), ("state_topic", t("app/timeout_sec/state")), ("command_topic", t("app/timeout_sec/set")), ("availability_topic", t("app/timeout_sec/available")), ("min", n(1)), ("max", n(86400)), ("mode", t("box")), ("step", n(1)), ("unit_of_measurement", t("seconds"))])
    );
}

#[test]
fn discovery_text_is_compact_json() {
    let d = MqttData::new(&config());
    let p = device_config_publications(&d);
    let text = String::from_utf8(p[0].payload.clone()).unwrap();
    let reparsed: Value = serde_json::from_str(&text).unwrap();
    assert_eq!(text, reparsed.to_string());
}
