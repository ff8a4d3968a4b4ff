use pi_touchscreen_control::config::{Config, ConfigEntries, ConfigError};
use pi_touchscreen_control::state::State;
use pi_touchscreen_control::yaml::YamlEntry;

const FULL_CONFIG: &str = "
dimmer:
  use_dimmer: false
  timeout_sec: 45
  backlight: /sys/class/backlight/10-0045
  input_devices:
    - /dev/input/event0
    - /dev/input/event1
  turn_backlight_off: true
  dimmed_brightness: 12
  full_brightness: 200
mqtt:
  use_mqtt: true
  server_address: 192.168.1.2
  server_port: 8883
  connection_attempts: 3
  auth_username: user
  auth_password: SECRET-REDACTED
  discovery_topic_prefix: ha
  app_topic_prefix: screen
  device_id: kitchen_screen
  device_name: Kitchen Screen
";

#[test]
fn config_reads_every_setting() {
    let c = Config::new(FULL_CONFIG).unwrap();
    assert!(!c.dimmer.use_dimmer);
    assert_eq!(c.dimmer.timeout, 45);
    assert_eq!(c.dimmer.backlight, "/sys/class/backlight/10-0045");
    assert_eq!(c.dimmer.input_devices, vec!["/dev/input/event0".to_string(), "/dev/input/event1".to_string()]);
    assert!(c.dimmer.turn_backlight_off);
    assert_eq!(c.dimmer.dimmed_brightness, 12);
    assert_eq!(c.dimmer.full_brightness, 200);
    assert!(c.mqtt.use_mqtt);
    assert_eq!(c.mqtt.server_address, "192.168.1.2");
    assert_eq!(c.mqtt.server_port, 8883);
    assert_eq!(c.mqtt.connection_attempts, 3);
    assert_eq!(c.mqtt.auth_username, "user");
    assert_eq!(c.mqtt.auth_password, "SECRET-REDACTED");
    assert_eq!(c.mqtt.discovery_topic_prefix, "ha");
    assert_eq!(c.mqtt.app_topic_prefix, "screen");
    assert_eq!(c.mqtt.device_id, "kitchen_screen");
    assert_eq!(c.mqtt.device_name, "Kitchen Screen");
}

#[test]
fn config_defaults_for_missing_sections() {
    let c = Config::new("other: 1\n").unwrap();
    assert!(c.dimmer.use_dimmer);
    assert_eq!(c.dimmer.timeout, 30);
    assert_eq!(c.dimmer.backlight, "/sys/class/backlight/rpi-backlight");
    assert!(c.dimmer.input_devices.is_empty());
    assert!(!c.dimmer.turn_backlight_off);
    assert_eq!(c.dimmer.dimmed_brightness, 30);
    assert_eq!(c.dimmer.full_brightness, 255);
    assert!(!c.mqtt.use_mqtt);
    assert_eq!(c.mqtt.server_address, "127.0.0.1");
    assert_eq!(c.mqtt.server_port, 1883);
    assert_eq!(c.mqtt.connection_attempts, 10);
    assert_eq!(c.mqtt.auth_username, "");
    assert_eq!(c.mqtt.auth_password, "");
    assert_eq!(c.mqtt.discovery_topic_prefix, "homeassistant");
    assert_eq!(c.mqtt.app_topic_prefix, "pi_ts_control");
    assert_eq!(c.mqtt.device_id, "pi_ts_control");
    assert_eq!(c.mqtt.device_name, "Pi Touchscreen");
}

#[test]
fn config_values_of_the_wrong_type_give_defaults() {
    let c = Config::new("dimmer:\n  use_dimmer: maybe\n  timeout_sec: 2.5\n  backlight: 7\nmqtt:\n  server_port: x\n").unwrap();
    assert!(c.dimmer.use_dimmer);
    assert_eq!(c.dimmer.timeout, 30);
    assert_eq!(c.dimmer.backlight, "/sys/class/backlight/rpi-backlight");
    assert_eq!(c.mqtt.server_port, 1883);
}

#[test]
fn config_integers_are_cast_like_as() {
    let c = Config::new("dimmer:\n  dimmed_brightness: 300\n  timeout_sec: -1\nmqtt:\n  server_port: 65537\n").unwrap();
    assert_eq!(c.dimmer.dimmed_brightness, 44);
    assert_eq!(c.dimmer.timeout, u64::MAX);
    assert_eq!(c.mqtt.server_port, 1);
}

#[test]
fn config_without_document_is_refused() {
    assert!(matches!(Config::new(""), Err(ConfigError::NoDocument)));
}

#[test]
fn config_that_is_not_yaml_is_refused() {
    assert!(matches!(Config::new("dimmer: [1, 2"), Err(ConfigError::InvalidYaml(_))));
}

#[test]
fn config_with_a_device_that_is_not_text_is_refused() {
    let r = Config::new("dimmer:\n  input_devices:\n    - /dev/input/event0\n    - 5\n");
    assert!(matches!(r, Err(ConfigError::UnsupportedInputDevice)));
}

#[test]
fn config_input_devices_that_are_not_a_list_give_none() {
    let c = Config::new("dimmer:\n  input_devices: /dev/input/event0\n").unwrap();
    assert!(c.dimmer.input_devices.is_empty());
}

fn other_entries() -> ConfigEntries {
    ConfigEntries {
        use_dimmer: YamlEntry::Other,
        timeout_sec: YamlEntry::Other,
        backlight: YamlEntry::Other,
        input_devices: YamlEntry::Other,
        turn_backlight_off: YamlEntry::Other,
        dimmed_brightness: YamlEntry::Other,
        full_brightness: YamlEntry::Other,
        use_mqtt: YamlEntry::Other,
        server_address: YamlEntry::Other,
        server_port: YamlEntry::Other,
        connection_attempts: YamlEntry::Other,
        auth_username: YamlEntry::Other,
        auth_password: YamlEntry::Other,
        discovery_topic_prefix: YamlEntry::Other,
        app_topic_prefix: YamlEntry::Other,
        device_id: YamlEntry::Other,
        device_name: YamlEntry::Other,
    }
}

#[test]
fn config_from_entries_uses_given_values() {
    let mut e = other_entries();
    e.use_dimmer = YamlEntry::Boolean(false);
    e.timeout_sec = YamlEntry::Integer(90);
    e.full_brightness = YamlEntry::Integer(256 + 17);
    e.input_devices = YamlEntry::List(vec![Some("/dev/input/event3".to_string())]);
    e.device_name = YamlEntry::Text("Hall".to_string());
    let c = Config::from_entries(&e).unwrap();
    assert!(!c.dimmer.use_dimmer);
    assert_eq!(c.dimmer.timeout, 90);
    assert_eq!(c.dimmer.full_brightness, 17);
    assert_eq!(c.dimmer.input_devices, vec!["/dev/input/event3".to_string()]);
    assert_eq!(c.mqtt.device_name, "Hall");
    assert_eq!(c.mqtt.device_id, "pi_ts_control");
}

#[test]
fn config_from_entries_refuses_non_text_device() {
    let mut e = other_entries();
    e.input_devices = YamlEntry::List(vec![Some("a".to_string()), None]);
    assert!(matches!(Config::from_entries(&e), Err(ConfigError::UnsupportedInputDevice)));
}

#[test]
fn state_new_takes_settings_from_config() {
    let c = Config::new(FULL_CONFIG).unwrap();
    let s = State::new(&c.dimmer, true, 99);
    assert!(s.backlight_active_current);
    assert!(!s.backlight_active_dimmed);
    assert_eq!(s.brightness_current, 99);
    assert_eq!(s.brightness_dimmed, 12);
    assert_eq!(s.brightness_full, 200);
    assert!(!s.use_dimmer);
    assert_eq!(s.timeout, 45);
}
