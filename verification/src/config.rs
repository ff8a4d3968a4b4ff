//! The configuration file: its settings, their defaults, and how they are read.
use vstd::prelude::*;
use crate::yaml::{
    document_entry, entry_bool_or, entry_i64_or, entry_text_list, entry_text_or,
    load_first_document, yaml_document_count, yaml_entry, YamlEntry, YamlEntryView,
};
use yaml_rust2::ScanError;

verus! {

/// Settings of the automatic dimmer.
#[derive(Clone)]
pub struct DimmerConfig {
    pub use_dimmer: bool,
    /// Inactivity period before dimming, in whole seconds.
    pub timeout: u64,
    /// Directory of the backlight device in sysfs.
    pub backlight: String,
    /// Input event devices whose activity counts as a touch.
    pub input_devices: Vec<String>,
    pub turn_backlight_off: bool,
    pub dimmed_brightness: u8,
    pub full_brightness: u8,
}

/// Settings of the connection to Home Assistant over MQTT.
#[derive(Clone)]
pub struct MqttConfig {
    pub use_mqtt: bool,
    pub server_address: String,
    pub server_port: u16,
    pub connection_attempts: u64,
    pub auth_username: String,
    pub auth_password: String,
    pub discovery_topic_prefix: String,
    pub app_topic_prefix: String,
    pub device_id: String,
    pub device_name: String,
}

/// The whole configuration.
#[derive(Clone)]
pub struct Config {
    pub dimmer: DimmerConfig,
    pub mqtt: MqttConfig,
}

/// Why a configuration text was refused.
#[derive(Debug)]
pub enum ConfigError {
    /// The text is not YAML.
    InvalidYaml(ScanError),
    /// The text holds no YAML document.
    NoDocument,
    /// An item of `dimmer.input_devices` is not a string.
    UnsupportedInputDevice,
}

/// The entries of the configuration document that the settings are read from.
pub struct ConfigEntries {
    pub use_dimmer: YamlEntry,
    pub timeout_sec: YamlEntry,
    pub backlight: YamlEntry,
    pub input_devices: YamlEntry,
    pub turn_backlight_off: YamlEntry,
    pub dimmed_brightness: YamlEntry,
    pub full_brightness: YamlEntry,
    pub use_mqtt: YamlEntry,
    pub server_address: YamlEntry,
    pub server_port: YamlEntry,
    pub connection_attempts: YamlEntry,
    pub auth_username: YamlEntry,
    pub auth_password: YamlEntry,
    pub discovery_topic_prefix: YamlEntry,
    pub app_topic_prefix: YamlEntry,
    pub device_id: YamlEntry,
    pub device_name: YamlEntry,
}

/// Model of [`ConfigEntries`].
pub struct ConfigEntriesView {
    pub use_dimmer: YamlEntryView,
    pub timeout_sec: YamlEntryView,
    pub backlight: YamlEntryView,
    pub input_devices: YamlEntryView,
    pub turn_backlight_off: YamlEntryView,
    pub dimmed_brightness: YamlEntryView,
    pub full_brightness: YamlEntryView,
    pub use_mqtt: YamlEntryView,
    pub server_address: YamlEntryView,
    pub server_port: YamlEntryView,
    pub connection_attempts: YamlEntryView,
    pub auth_username: YamlEntryView,
    pub auth_password: YamlEntryView,
    pub discovery_topic_prefix: YamlEntryView,
    pub app_topic_prefix: YamlEntryView,
    pub device_id: YamlEntryView,
    pub device_name: YamlEntryView,
}

impl View for ConfigEntries {
    type V = ConfigEntriesView;

    open spec fn view(&self) -> ConfigEntriesView {
        ConfigEntriesView {
            use_dimmer: self.use_dimmer@,
            timeout_sec: self.timeout_sec@,
            backlight: self.backlight@,
            input_devices: self.input_devices@,
            turn_backlight_off: self.turn_backlight_off@,
            dimmed_brightness: self.dimmed_brightness@,
            full_brightness: self.full_brightness@,
            use_mqtt: self.use_mqtt@,
            server_address: self.server_address@,
            server_port: self.server_port@,
            connection_attempts: self.connection_attempts@,
            auth_username: self.auth_username@,
            auth_password: self.auth_password@,
            discovery_topic_prefix: self.discovery_topic_prefix@,
            app_topic_prefix: self.app_topic_prefix@,
            device_id: self.device_id@,
            device_name: self.device_name@,
        }
    }
}

/// The entries of the first document of `source`, each under its section and key.
pub open spec fn yaml_config_entries(source: Seq<char>) -> ConfigEntriesView {
    ConfigEntriesView {
        use_dimmer: yaml_entry(source, "dimmer"@, "use_dimmer"@),
        timeout_sec: yaml_entry(source, "dimmer"@, "timeout_sec"@),
        backlight: yaml_entry(source, "dimmer"@, "backlight"@),
        input_devices: yaml_entry(source, "dimmer"@, "input_devices"@),
        turn_backlight_off: yaml_entry(source, "dimmer"@, "turn_backlight_off"@),
        dimmed_brightness: yaml_entry(source, "dimmer"@, "dimmed_brightness"@),
        full_brightness: yaml_entry(source, "dimmer"@, "full_brightness"@),
        use_mqtt: yaml_entry(source, "mqtt"@, "use_mqtt"@),
        server_address: yaml_entry(source, "mqtt"@, "server_address"@),
        server_port: yaml_entry(source, "mqtt"@, "server_port"@),
        connection_attempts: yaml_entry(source, "mqtt"@, "connection_attempts"@),
        auth_username: yaml_entry(source, "mqtt"@, "auth_username"@),
        auth_password: yaml_entry(source, "mqtt"@, "auth_password"@),
        discovery_topic_prefix: yaml_entry(source, "mqtt"@, "discovery_topic_prefix"@),
        app_topic_prefix: yaml_entry(source, "mqtt"@, "app_topic_prefix"@),
        device_id: yaml_entry(source, "mqtt"@, "device_id"@),
        device_name: yaml_entry(source, "mqtt"@, "device_name"@),
    }
}

/// The settings that `e` describes: each value where the entry holds one of the
/// setting's type, else the setting's default; integers are cast to the
/// setting's width as `as` does.
pub open spec fn config_matches_entries(c: Config, e: ConfigEntriesView) -> bool {
    &&& c.dimmer.use_dimmer == entry_bool_or(e.use_dimmer, true)
    &&& c.dimmer.timeout == entry_i64_or(e.timeout_sec, 30) as u64
    &&& c.dimmer.backlight@ == entry_text_or(e.backlight, "/sys/class/backlight/rpi-backlight"@)
    &&& entry_text_list(e.input_devices) is Some
    &&& c.dimmer.input_devices@.map_values(|s: String| s@) == entry_text_list(e.input_devices)->0
    &&& c.dimmer.turn_backlight_off == entry_bool_or(e.turn_backlight_off, false)
    &&& c.dimmer.dimmed_brightness == entry_i64_or(e.dimmed_brightness, 30) as u8
    &&& c.dimmer.full_brightness == entry_i64_or(e.full_brightness, 255) as u8
    &&& c.mqtt.use_mqtt == entry_bool_or(e.use_mqtt, false)
    &&& c.mqtt.server_address@ == entry_text_or(e.server_address, "127.0.0.1"@)
    &&& c.mqtt.server_port == entry_i64_or(e.server_port, 1883) as u16
    &&& c.mqtt.connection_attempts == entry_i64_or(e.connection_attempts, 10) as u64
    &&& c.mqtt.auth_username@ == entry_text_or(e.auth_username, ""@)
    &&& c.mqtt.auth_password@ == entry_text_or(e.auth_password, ""@)
    &&& c.mqtt.discovery_topic_prefix@ == entry_text_or(e.discovery_topic_prefix, "homeassistant"@)
    &&& c.mqtt.app_topic_prefix@ == entry_text_or(e.app_topic_prefix, "pi_ts_control"@)
    &&& c.mqtt.device_id@ == entry_text_or(e.device_id, "pi_ts_control"@)
    &&& c.mqtt.device_name@ == entry_text_or(e.device_name, "Pi Touchscreen"@)
}

impl Config {
    /// Builds the settings from the entries of a configuration document.
    pub fn from_entries(entries: &ConfigEntries) -> (r: Result<Config, ConfigError>)
        ensures
            r is Ok <==> entry_text_list(entries@.input_devices) is Some,
            r matches Err(err) ==> err is UnsupportedInputDevice,
            r matches Ok(c) ==> config_matches_entries(c, entries@),
    {
        let input_devices = match entries.input_devices.text_list() {
            Some(v) => v,
            None => {
                return Err(ConfigError::UnsupportedInputDevice);
            },
        };
        let dimmer = DimmerConfig {
            use_dimmer: entries.use_dimmer.bool_or(true),
            timeout: entries.timeout_sec.i64_or(30) as u64,
            backlight: entries.backlight.text_or("/sys/class/backlight/rpi-backlight"),
            input_devices,
            turn_backlight_off: entries.turn_backlight_off.bool_or(false),
            dimmed_brightness: entries.dimmed_brightness.i64_or(30) as u8,
            full_brightness: entries.full_brightness.i64_or(255) as u8,
        };
        let mqtt = MqttConfig {
            use_mqtt: entries.use_mqtt.bool_or(false),
            server_address: entries.server_address.text_or("127.0.0.1"),
            server_port: entries.server_port.i64_or(1883) as u16,
            connection_attempts: entries.connection_attempts.i64_or(10) as u64,
            auth_username: entries.auth_username.text_or(""),
            auth_password: entries.auth_password.text_or(""),
            discovery_topic_prefix: entries.discovery_topic_prefix.text_or("homeassistant"),
            app_topic_prefix: entries.app_topic_prefix.text_or("pi_ts_control"),
            device_id: entries.device_id.text_or("pi_ts_control"),
            device_name: entries.device_name.text_or("Pi Touchscreen"),
        };
        Ok(Config { dimmer, mqtt })
    }

    /// Reads the settings from the text of a configuration file: the first YAML
    /// document, with a `dimmer` and an `mqtt` section.
    pub fn new(file_content: &str) -> (r: Result<Config, ConfigError>)
        ensures
            yaml_document_count(file_content@) is None <==> r matches Err(ConfigError::InvalidYaml(_)),
            yaml_document_count(file_content@) == Some(0nat) <==> r matches Err(ConfigError::NoDocument),
            yaml_document_count(file_content@) matches Some(n) && n > 0 ==> {
                &&& r is Ok <==> entry_text_list(yaml_config_entries(file_content@).input_devices) is Some
                &&& r matches Ok(c) ==> config_matches_entries(c, yaml_config_entries(file_content@))
            },
    {
        let doc = match load_first_document(file_content) {
            Ok(Some(doc)) => doc,
            Ok(None) => {
                return Err(ConfigError::NoDocument);
            },
            Err(e) => {
                return Err(ConfigError::InvalidYaml(e));
            },
        };
        let entries = ConfigEntries {
            use_dimmer: document_entry(&doc, "dimmer", "use_dimmer"),
            timeout_sec: document_entry(&doc, "dimmer", "timeout_sec"),
            backlight: document_entry(&doc, "dimmer", "backlight"),
            input_devices: document_entry(&doc, "dimmer", "input_devices"),
            turn_backlight_off: document_entry(&doc, "dimmer", "turn_backlight_off"),
            dimmed_brightness: document_entry(&doc, "dimmer", "dimmed_brightness"),
            full_brightness: document_entry(&doc, "dimmer", "full_brightness"),
            use_mqtt: document_entry(&doc, "mqtt", "use_mqtt"),
            server_address: document_entry(&doc, "mqtt", "server_address"),
            server_port: document_entry(&doc, "mqtt", "server_port"),
            connection_attempts: document_entry(&doc, "mqtt", "connection_attempts"),
            auth_username: document_entry(&doc, "mqtt", "auth_username"),
            auth_password: document_entry(&doc, "mqtt", "auth_password"),
            discovery_topic_prefix: document_entry(&doc, "mqtt", "discovery_topic_prefix"),
            app_topic_prefix: document_entry(&doc, "mqtt", "app_topic_prefix"),
            device_id: document_entry(&doc, "mqtt", "device_id"),
            device_name: document_entry(&doc, "mqtt", "device_name"),
        };
        proof {
            assert(entries@ == yaml_config_entries(file_content@));
        }
        Config::from_entries(&entries)
    }
}

/// Every setting whose entry holds a value of the setting's type takes that
/// value (integers cast to the setting's width as `as` does), zero and `false`
/// and the empty text included; the default stands only for other entries.
pub proof fn lemma_settings_take_given_values(c: Config, e: ConfigEntriesView)
    requires
        config_matches_entries(c, e),
    ensures
        e.use_dimmer matches YamlEntryView::Boolean(b) ==> c.dimmer.use_dimmer == b,
        e.timeout_sec matches YamlEntryView::Integer(i) ==> c.dimmer.timeout == i as u64,
        e.backlight matches YamlEntryView::Text(t) ==> c.dimmer.backlight@ == t,
        e.turn_backlight_off matches YamlEntryView::Boolean(b) ==> c.dimmer.turn_backlight_off == b,
        e.dimmed_brightness matches YamlEntryView::Integer(i) ==> c.dimmer.dimmed_brightness == i as u8,
        e.full_brightness matches YamlEntryView::Integer(i) ==> c.dimmer.full_brightness == i as u8,
        e.use_mqtt matches YamlEntryView::Boolean(b) ==> c.mqtt.use_mqtt == b,
        e.server_address matches YamlEntryView::Text(t) ==> c.mqtt.server_address@ == t,
        e.server_port matches YamlEntryView::Integer(i) ==> c.mqtt.server_port == i as u16,
        e.connection_attempts matches YamlEntryView::Integer(i) ==> c.mqtt.connection_attempts == i as u64,
        e.auth_username matches YamlEntryView::Text(t) ==> c.mqtt.auth_username@ == t,
        e.auth_password matches YamlEntryView::Text(t) ==> c.mqtt.auth_password@ == t,
        e.discovery_topic_prefix matches YamlEntryView::Text(t) ==> c.mqtt.discovery_topic_prefix@ == t,
        e.app_topic_prefix matches YamlEntryView::Text(t) ==> c.mqtt.app_topic_prefix@ == t,
        e.device_id matches YamlEntryView::Text(t) ==> c.mqtt.device_id@ == t,
        e.device_name matches YamlEntryView::Text(t) ==> c.mqtt.device_name@ == t,
        e.input_devices matches YamlEntryView::List(items) ==> ((forall|j: int| 0 <= j < items.len() ==> (#[trigger] items[j]) is Some)
            ==> c.dimmer.input_devices@.len() == items.len() && forall|j: int| 0 <= j < items.len() ==> items[j] == Some(
            #[trigger] c.dimmer.input_devices@[j]@)),
        !(e.input_devices is List) ==> c.dimmer.input_devices@.len() == 0,
{
    let names = c.dimmer.input_devices@.map_values(|s: String| s@);
    assert(names.len() == c.dimmer.input_devices@.len());
    if !(e.input_devices is List) {
        assert(names =~= Seq::<Seq<char>>::empty());
    }
    if e.input_devices is List {
        let items = e.input_devices->List_0;
        if forall|j: int| 0 <= j < items.len() ==> (#[trigger] items[j]) is Some {
            assert forall|j: int| 0 <= j < items.len() implies items[j] == Some(
                #[trigger] c.dimmer.input_devices@[j]@,
            ) by {
                assert(names == items.map_values(|o: Option<Seq<char>>| o->0));
                assert(names.len() == items.len());
                assert(names[j] == c.dimmer.input_devices@[j]@);
                assert(names[j] == items[j]->0);
            }
        }
    }
}

/// A setting whose entry is missing or of another type takes its default.
pub proof fn lemma_settings_defaults(c: Config, e: ConfigEntriesView)
    requires
        config_matches_entries(c, e),
    ensures
        !(e.use_dimmer is Boolean) ==> c.dimmer.use_dimmer,
        !(e.timeout_sec is Integer) ==> c.dimmer.timeout == 30,
        !(e.backlight is Text) ==> c.dimmer.backlight@ == "/sys/class/backlight/rpi-backlight"@,
        !(e.turn_backlight_off is Boolean) ==> !c.dimmer.turn_backlight_off,
        !(e.dimmed_brightness is Integer) ==> c.dimmer.dimmed_brightness == 30,
        !(e.full_brightness is Integer) ==> c.dimmer.full_brightness == 255,
        !(e.use_mqtt is Boolean) ==> !c.mqtt.use_mqtt,
        !(e.server_address is Text) ==> c.mqtt.server_address@ == "127.0.0.1"@,
        !(e.server_port is Integer) ==> c.mqtt.server_port == 1883,
        !(e.connection_attempts is Integer) ==> c.mqtt.connection_attempts == 10,
        !(e.auth_username is Text) ==> c.mqtt.auth_username@.len() == 0,
        !(e.auth_password is Text) ==> c.mqtt.auth_password@.len() == 0,
        !(e.discovery_topic_prefix is Text) ==> c.mqtt.discovery_topic_prefix@ == "homeassistant"@,
        !(e.app_topic_prefix is Text) ==> c.mqtt.app_topic_prefix@ == "pi_ts_control"@,
        !(e.device_id is Text) ==> c.mqtt.device_id@ == "pi_ts_control"@,
        !(e.device_name is Text) ==> c.mqtt.device_name@ == "Pi Touchscreen"@,
{
    reveal_strlit("");
}

} // verus!
