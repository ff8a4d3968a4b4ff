//! Home Assistant over MQTT: the entities the device offers, their topics, the
//! messages the device publishes, and how it answers the messages it receives.
use vstd::prelude::*;
use vstd::utf8::{decode_utf8, encode_utf8, encode_utf8_decode_utf8, encode_utf8_valid_utf8, valid_utf8};
use crate::config::MqttConfig;
use crate::discovery::{discovery_document, discovery_spec, json_document_bytes, json_document_text, JsonDocument, JsonDocumentView};
use crate::number::{decimal, format_decimal, is_decimal_digit, lemma_decimal_digits, lemma_parse_decimal, parse_unsigned, parse_unsigned_text};
use crate::state::State;

verus! {

/// Software version that the device reports in its discovery document.
pub const SOFTWARE_VERSION: &'static str = "0.1";

/// Name of the software that the discovery document gives as its origin.
pub const ORIGIN_NAME: &'static str = "pi_touchscreen_control";

/// Home page of the software that the discovery document gives as its origin.
pub const ORIGIN_URL: &'static str = "https://github.com/jatofg/pi-touchscreen-control";

/// Payload of an availability topic while the device is online.
pub const PAYLOAD_AVAILABLE: &'static str = "online";

/// Payload of an availability topic while the device is offline.
pub const PAYLOAD_NOT_AVAILABLE: &'static str = "offline";

/// The settings that the device offers to Home Assistant, one entity each.
#[derive(Clone, Copy, PartialEq, Eq, Debug, Structural)]
pub enum Entity {
    PowerState,
    Brightness,
    UseDimmer,
    PowerDimmed,
    BrightnessDimmed,
    BrightnessFull,
    TimeoutSec,
}

/// The key of an entity in the discovery document, and its part of each topic.
pub open spec fn entity_key(e: Entity) -> Seq<char> {
    match e {
        Entity::PowerState => "power_state"@,
        Entity::Brightness => "brightness"@,
        Entity::UseDimmer => "use_dimmer"@,
        Entity::PowerDimmed => "power_dimmed"@,
        Entity::BrightnessDimmed => "brightness_dimmed"@,
        Entity::BrightnessFull => "brightness_full"@,
        Entity::TimeoutSec => "timeout_sec"@,
    }
}

/// What follows the device id in an entity's unique id.
pub open spec fn entity_unique_id_suffix(e: Entity) -> Seq<char> {
    match e {
        Entity::PowerState => "_power"@,
        Entity::Brightness => "_brightness"@,
        Entity::UseDimmer => "_use_dimmer"@,
        Entity::PowerDimmed => "_power_dimmed"@,
        Entity::BrightnessDimmed => "_brightness_dimmed"@,
        Entity::BrightnessFull => "_brightness_full"@,
        Entity::TimeoutSec => "_timeout_sec"@,
    }
}

/// The name that Home Assistant shows for an entity.
pub open spec fn entity_display_name(e: Entity) -> Seq<char> {
    match e {
        Entity::PowerState => "Backlight enabled"@,
        Entity::Brightness => "Current brightness"@,
        Entity::UseDimmer => "Automatic dimming"@,
        Entity::PowerDimmed => "Backlight enabled when inactive"@,
        Entity::BrightnessDimmed => "Brightness when inactive"@,
        Entity::BrightnessFull => "Brightness when active"@,
        Entity::TimeoutSec => "Activity timeout for dimming"@,
    }
}

/// Whether an entity is an on/off switch; the others are numbers.
pub open spec fn entity_is_switch(e: Entity) -> bool {
    e == Entity::PowerState || e == Entity::UseDimmer || e == Entity::PowerDimmed
}

/// How Home Assistant shows a number entity.
pub struct NumberSettings {
    pub min: u32,
    pub max: u32,
    pub step: u32,
    pub mode: &'static str,
    pub unit_of_measurement: Option<&'static str>,
}

/// The settings of the number entities: brightnesses on a slider from 1 to 255,
/// the timeout in a box from 1 to 86400 seconds.
pub open spec fn number_settings_match(e: Entity, n: Option<NumberSettings>) -> bool {
    match e {
        Entity::Brightness | Entity::BrightnessDimmed | Entity::BrightnessFull => n matches Some(s) && {
            &&& s.min == 1 && s.max == 255 && s.step == 1
            &&& s.mode@ == "slider"@
            &&& s.unit_of_measurement is None
        },
        Entity::TimeoutSec => n matches Some(s) && {
            &&& s.min == 1 && s.max == 86400 && s.step == 1
            &&& s.mode@ == "box"@
            &&& s.unit_of_measurement matches Some(u) && u@ == "seconds"@
        },
        _ => n is None,
    }
}

/// The entities in the order of their keys, the order in which the discovery
/// document lists them.
pub open spec fn discovery_order() -> Seq<Entity> {
    seq![
        Entity::Brightness,
        Entity::BrightnessDimmed,
        Entity::BrightnessFull,
        Entity::PowerDimmed,
        Entity::PowerState,
        Entity::TimeoutSec,
        Entity::UseDimmer,
    ]
}

impl Entity {
    /// The key of the entity in the discovery document.
    pub fn key(&self) -> (r: &'static str)
        ensures
            r@ == entity_key(*self),
    {
        match self {
            Entity::PowerState => "power_state",
            Entity::Brightness => "brightness",
            Entity::UseDimmer => "use_dimmer",
            Entity::PowerDimmed => "power_dimmed",
            Entity::BrightnessDimmed => "brightness_dimmed",
            Entity::BrightnessFull => "brightness_full",
            Entity::TimeoutSec => "timeout_sec",
        }
    }

    /// What follows the device id in the entity's unique id.
    pub fn unique_id_suffix(&self) -> (r: &'static str)
        ensures
            r@ == entity_unique_id_suffix(*self),
    {
        match self {
            Entity::PowerState => "_power",
            Entity::Brightness => "_brightness",
            Entity::UseDimmer => "_use_dimmer",
            Entity::PowerDimmed => "_power_dimmed",
            Entity::BrightnessDimmed => "_brightness_dimmed",
            Entity::BrightnessFull => "_brightness_full",
            Entity::TimeoutSec => "_timeout_sec",
        }
    }

    /// The name that Home Assistant shows for the entity.
    pub fn display_name(&self) -> (r: &'static str)
        ensures
            r@ == entity_display_name(*self),
    {
        match self {
            Entity::PowerState => "Backlight enabled",
            Entity::Brightness => "Current brightness",
            Entity::UseDimmer => "Automatic dimming",
            Entity::PowerDimmed => "Backlight enabled when inactive",
            Entity::BrightnessDimmed => "Brightness when inactive",
            Entity::BrightnessFull => "Brightness when active",
            Entity::TimeoutSec => "Activity timeout for dimming",
        }
    }

    /// Whether the entity is an on/off switch rather than a number.
    pub fn is_switch(&self) -> (r: bool)
        ensures
            r == entity_is_switch(*self),
    {
        match self {
            Entity::PowerState | Entity::UseDimmer | Entity::PowerDimmed => true,
            _ => false,
        }
    }

    /// The device class of the entity, which only the backlight switch has.
    pub fn device_class(&self) -> (r: Option<&'static str>)
        ensures
            *self == Entity::PowerState ==> (r matches Some(c) && c@ == "switch"@),
            *self != Entity::PowerState ==> r is None,
    {
        match self {
            Entity::PowerState => Some("switch"),
            _ => None,
        }
    }

    /// How Home Assistant shows the entity where it is a number.
    pub fn number_settings(&self) -> (r: Option<NumberSettings>)
        ensures
            number_settings_match(*self, r),
    {
        match self {
            Entity::Brightness | Entity::BrightnessDimmed | Entity::BrightnessFull => Some(
                NumberSettings { min: 1, max: 255, step: 1, mode: "slider", unit_of_measurement: None },
            ),
            Entity::TimeoutSec => Some(
                NumberSettings { min: 1, max: 86400, step: 1, mode: "box", unit_of_measurement: Some("seconds") },
            ),
            _ => None,
        }
    }

    /// The entities in the order in which the discovery document lists them.
    pub fn discovery_order() -> (r: Vec<Entity>)
        ensures
            r@ == discovery_order(),
    {
        let mut r: Vec<Entity> = Vec::new();
        r.push(Entity::Brightness);
        r.push(Entity::BrightnessDimmed);
        r.push(Entity::BrightnessFull);
        r.push(Entity::PowerDimmed);
        r.push(Entity::PowerState);
        r.push(Entity::TimeoutSec);
        r.push(Entity::UseDimmer);
        proof {
            assert(r@ =~= discovery_order());
        }
        r
    }
}

/// The topic of an entity under the application's prefix: the prefix, `/`, the
/// entity's key, then the suffix (`/state`, `/set` or `/available`).
pub open spec fn entity_topic(prefix: Seq<char>, e: Entity, suffix: Seq<char>) -> Seq<char> {
    prefix + "/"@ + entity_key(e) + suffix
}

/// The topic of an entity under `prefix`.
pub fn topic_string(prefix: &String, e: Entity, suffix: &str) -> (r: String)
    ensures
        r@ == entity_topic(prefix@, e, suffix@),
{
    let mut t = prefix.clone();
    t.append("/");
    t.append(e.key());
    t.append(suffix);
    t
}

/// The topics and names under which the device talks to Home Assistant, and
/// the discovery document that announces them.
pub struct MqttData {
    device_config_topic: String,
    home_assistant_status_topic: String,
    app_topic_prefix: String,
    device_id: String,
    device_name: String,
    discovery: JsonDocument,
}

/// Model of [`MqttData`].
pub struct MqttDataView {
    /// Where the discovery document is published.
    pub device_config_topic: Seq<char>,
    /// Where Home Assistant announces that it is (back) online.
    pub home_assistant_status_topic: Seq<char>,
    pub app_topic_prefix: Seq<char>,
    pub device_id: Seq<char>,
    pub device_name: Seq<char>,
    /// The discovery document.
    pub discovery: JsonDocumentView,
}

impl View for MqttData {
    type V = MqttDataView;

    closed spec fn view(&self) -> MqttDataView {
        MqttDataView {
            device_config_topic: self.device_config_topic@,
            home_assistant_status_topic: self.home_assistant_status_topic@,
            app_topic_prefix: self.app_topic_prefix@,
            device_id: self.device_id@,
            device_name: self.device_name@,
            discovery: self.discovery@,
        }
    }
}

impl MqttData {
    /// The discovery document announces exactly the topics and ids the device uses.
    #[verifier::type_invariant]
    spec fn discovery_matches_topics(self) -> bool {
        self.discovery@ == discovery_spec(self.app_topic_prefix@, self.device_id@, self.device_name@)
    }

    /// Where the discovery document is published.
    pub fn device_config_topic(&self) -> (r: &String)
        ensures
            r@ == self@.device_config_topic,
    {
        &self.device_config_topic
    }

    /// Where Home Assistant announces that it is (back) online.
    pub fn home_assistant_status_topic(&self) -> (r: &String)
        ensures
            r@ == self@.home_assistant_status_topic,
    {
        &self.home_assistant_status_topic
    }

    /// The topics and names for the settings of `config`.
    pub fn new(config: &MqttConfig) -> (d: MqttData)
        ensures
            d@.device_config_topic == config.discovery_topic_prefix@ + "/device/"@ + config.device_id@ + "/config"@,
            d@.home_assistant_status_topic == config.discovery_topic_prefix@ + "/status"@,
            d@.app_topic_prefix == config.app_topic_prefix@,
            d@.device_id == config.device_id@,
            d@.device_name == config.device_name@,
            d@.discovery == discovery_spec(config.app_topic_prefix@, config.device_id@, config.device_name@),
    {
        let mut device_config_topic = config.discovery_topic_prefix.clone();
        device_config_topic.append("/device/");
        device_config_topic.append(config.device_id.as_str());
        device_config_topic.append("/config");
        let mut home_assistant_status_topic = config.discovery_topic_prefix.clone();
        home_assistant_status_topic.append("/status");
        MqttData {
            device_config_topic,
            home_assistant_status_topic,
            app_topic_prefix: config.app_topic_prefix.clone(),
            device_id: config.device_id.clone(),
            device_name: config.device_name.clone(),
            discovery: discovery_document(&config.app_topic_prefix, &config.device_id, &config.device_name),
        }
    }

    fn entity_topic(&self, e: Entity, suffix: &str) -> (r: String)
        ensures
            r@ == entity_topic(self@.app_topic_prefix, e, suffix@),
    {
        topic_string(&self.app_topic_prefix, e, suffix)
    }

    /// Where the device publishes the value of an entity.
    pub fn state_topic(&self, e: Entity) -> (r: String)
        ensures
            r@ == entity_topic(self@.app_topic_prefix, e, "/state"@),
    {
        self.entity_topic(e, "/state")
    }

    /// Where Home Assistant sends commands for an entity.
    pub fn command_topic(&self, e: Entity) -> (r: String)
        ensures
            r@ == entity_topic(self@.app_topic_prefix, e, "/set"@),
    {
        self.entity_topic(e, "/set")
    }

    /// Where the device announces whether an entity is available.
    pub fn availability_topic(&self, e: Entity) -> (r: String)
        ensures
            r@ == entity_topic(self@.app_topic_prefix, e, "/available"@),
    {
        self.entity_topic(e, "/available")
    }

    /// The unique id of an entity: the device id followed by the entity's suffix.
    pub fn unique_id(&self, e: Entity) -> (r: String)
        ensures
            r@ == self@.device_id + entity_unique_id_suffix(e),
    {
        let mut id = self.device_id.clone();
        id.append(e.unique_id_suffix());
        id
    }
}

/// How often the broker is to deliver a message.
#[derive(Clone, Copy, PartialEq, Eq, Debug, Structural)]
pub enum Qos {
    AtMostOnce,
    AtLeastOnce,
    ExactlyOnce,
}

/// A message for the broker.
pub struct Publication {
    pub topic: String,
    pub payload: Vec<u8>,
    pub qos: Qos,
    pub retain: bool,
}

/// Model of a [`Publication`].
pub struct PublicationView {
    pub topic: Seq<char>,
    pub payload: Seq<u8>,
    pub qos: Qos,
    pub retain: bool,
}

impl View for Publication {
    type V = PublicationView;

    open spec fn view(&self) -> PublicationView {
        PublicationView { topic: self.topic@, payload: self.payload@, qos: self.qos, retain: self.retain }
    }
}

/// The models of a sequence of publications.
pub open spec fn publication_views(v: Seq<Publication>) -> Seq<PublicationView> {
    v.map_values(|p: Publication| p@)
}

/// The payload text of a switch: `on` or `off`.
pub open spec fn bool_text(b: bool) -> Seq<char> {
    if b {
        "on"@
    } else {
        "off"@
    }
}

/// The payload of a switch.
pub fn bool_to_mqtt_payload(value: bool) -> (r: &'static str)
    ensures
        r@ == bool_text(value),
{
    if value {
        "on"
    } else {
        "off"
    }
}

/// Whether a switch command says `on`; anything else means off.
pub open spec fn payload_bool(payload: Seq<u8>) -> bool {
    payload == encode_utf8("on"@)
}

/// The number that a command payload gives: its UTF-8 text read as an
/// unsigned integer no greater than `max`; `None` where that fails.
pub open spec fn payload_number(payload: Seq<u8>, max: nat) -> Option<nat> {
    if valid_utf8(payload) {
        parse_unsigned(decode_utf8(payload), max)
    } else {
        None
    }
}

fn bytes_equal(a: &[u8], b: &[u8]) -> (r: bool)
    ensures
        r == (a@ == b@),
{
    if a.len() != b.len() {
        return false;
    }
    let mut i: usize = 0;
    while i < a.len()
        invariant
            i <= a@.len(),
            a@.len() == b@.len(),
            forall|j: int| 0 <= j < i ==> a@[j] == b@[j],
        decreases a.len() - i,
    {
        if a[i] != b[i] {
            return false;
        }
        i = i + 1;
    }
    proof {
        assert(a@ =~= b@);
    }
    true
}

/// Calls `std::str::from_utf8`, which, as std documents, gives the bytes as a
/// string slice exactly where they are valid UTF-8.
#[verifier::external_body]
fn utf8_text(bytes: &[u8]) -> (r: Option<&str>)
    ensures
        r is Some <==> valid_utf8(bytes@),
        r matches Some(s) ==> encode_utf8(s@) == bytes@,
{
    std::str::from_utf8(bytes).ok()
}

/// Reads a switch command: `on` is true, anything else false.
pub fn mqtt_payload_to_bool(value: &Vec<u8>) -> (r: bool)
    ensures
        r == payload_bool(value@),
{
    bytes_equal(value.as_slice(), "on".as_bytes())
}

fn payload_to_number(value: &Vec<u8>, max: u64) -> (r: Option<u64>)
    ensures
        r is Some <==> payload_number(value@, max as nat) is Some,
        r matches Some(v) ==> v as nat == payload_number(value@, max as nat)->0,
{
    match utf8_text(value.as_slice()) {
        Some(text) => {
            proof {
                encode_utf8_decode_utf8(text@);
            }
            parse_unsigned_text(text, max)
        },
        None => None,
    }
}

/// Reads a brightness command whose payload is the text of a `u8`.
pub fn mqtt_payload_to_u8(value: &Vec<u8>) -> (r: u8)
    requires
        payload_number(value@, 255) is Some,
    ensures
        r as nat == payload_number(value@, 255)->0,
{
    match payload_to_number(value, 255) {
        Some(v) => v as u8,
        None => {
            proof {
                assert(false);
            }
            0
        },
    }
}

/// Reads a timeout command, in whole seconds, whose payload is the text of a `u64`.
pub fn mqtt_payload_to_duration(value: &Vec<u8>) -> (r: u64)
    requires
        payload_number(value@, u64::MAX as nat) is Some,
    ensures
        r as nat == payload_number(value@, u64::MAX as nat)->0,
{
    match payload_to_number(value, u64::MAX) {
        Some(v) => v,
        None => {
            proof {
                assert(false);
            }
            0
        },
    }
}

/// The payload of a timeout of `secs` seconds: the number of seconds in decimal.
pub fn duration_to_mqtt_payload(secs: u64) -> (r: String)
    ensures
        r@ == decimal(secs as nat),
{
    format_decimal(secs)
}

/// The text that an entity's state topic shows for `s`.
pub open spec fn entity_state_text(e: Entity, s: State) -> Seq<char> {
    match e {
        Entity::PowerState => bool_text(s.backlight_active_current),
        Entity::PowerDimmed => bool_text(s.backlight_active_dimmed),
        Entity::Brightness => decimal(s.brightness_current as nat),
        Entity::BrightnessDimmed => decimal(s.brightness_dimmed as nat),
        Entity::BrightnessFull => decimal(s.brightness_full as nat),
        Entity::UseDimmer => bool_text(s.use_dimmer),
        Entity::TimeoutSec => decimal(s.timeout as nat),
    }
}

/// Whether `a` and `b` differ in the field of an entity.
pub open spec fn entity_differs(e: Entity, a: State, b: State) -> bool {
    match e {
        Entity::PowerState => a.backlight_active_current != b.backlight_active_current,
        Entity::PowerDimmed => a.backlight_active_dimmed != b.backlight_active_dimmed,
        Entity::Brightness => a.brightness_current != b.brightness_current,
        Entity::BrightnessDimmed => a.brightness_dimmed != b.brightness_dimmed,
        Entity::BrightnessFull => a.brightness_full != b.brightness_full,
        Entity::UseDimmer => a.use_dimmer != b.use_dimmer,
        Entity::TimeoutSec => a.timeout != b.timeout,
    }
}

impl Entity {
    /// The text that the entity's state topic shows for `s`.
    pub fn state_text(&self, s: &State) -> (r: String)
        ensures
            r@ == entity_state_text(*self, *s),
    {
        match self {
            Entity::PowerState => String::from_str(bool_to_mqtt_payload(s.backlight_active_current)),
            Entity::PowerDimmed => String::from_str(bool_to_mqtt_payload(s.backlight_active_dimmed)),
            Entity::Brightness => format_decimal(s.brightness_current as u64),
            Entity::BrightnessDimmed => format_decimal(s.brightness_dimmed as u64),
            Entity::BrightnessFull => format_decimal(s.brightness_full as u64),
            Entity::UseDimmer => String::from_str(bool_to_mqtt_payload(s.use_dimmer)),
            Entity::TimeoutSec => duration_to_mqtt_payload(s.timeout),
        }
    }

    /// Whether `a` and `b` differ in the entity's field.
    pub fn differs(&self, a: &State, b: &State) -> (r: bool)
        ensures
            r == entity_differs(*self, *a, *b),
    {
        match self {
            Entity::PowerState => a.backlight_active_current != b.backlight_active_current,
            Entity::PowerDimmed => a.backlight_active_dimmed != b.backlight_active_dimmed,
            Entity::Brightness => a.brightness_current != b.brightness_current,
            Entity::BrightnessDimmed => a.brightness_dimmed != b.brightness_dimmed,
            Entity::BrightnessFull => a.brightness_full != b.brightness_full,
            Entity::UseDimmer => a.use_dimmer != b.use_dimmer,
            Entity::TimeoutSec => a.timeout != b.timeout,
        }
    }
}

/// The state the device last published, where it published one.
pub open spec fn published_before(previous: Option<&State>) -> Option<State> {
    match previous {
        Some(p) => Some(*p),
        None => None,
    }
}

/// The message that publishes an entity's value in `s`: to its state topic, not retained.
pub open spec fn state_message(prefix: Seq<char>, e: Entity, s: State) -> PublicationView {
    PublicationView {
        topic: entity_topic(prefix, e, "/state"@),
        payload: encode_utf8(entity_state_text(e, s)),
        qos: Qos::ExactlyOnce,
        retain: false,
    }
}

/// The order in which the entities' values are published.
pub open spec fn state_publish_order() -> Seq<Entity> {
    seq![
        Entity::PowerState,
        Entity::PowerDimmed,
        Entity::Brightness,
        Entity::BrightnessDimmed,
        Entity::BrightnessFull,
        Entity::UseDimmer,
        Entity::TimeoutSec,
    ]
}

/// The publication of an entity's value in `current`, where nothing was
/// published before or the value changed: to its state topic, not retained.
pub open spec fn state_update(prefix: Seq<char>, e: Entity, previous: Option<State>, current: State) -> Seq<PublicationView> {
    if previous is None || entity_differs(e, previous->0, current) {
        seq![state_message(prefix, e, current)]
    } else {
        Seq::empty()
    }
}

/// The publications of the state `current` after `previous`, entity by entity.
pub open spec fn state_updates(prefix: Seq<char>, previous: Option<State>, current: State) -> Seq<PublicationView> {
    state_update(prefix, Entity::PowerState, previous, current)
        + state_update(prefix, Entity::PowerDimmed, previous, current)
        + state_update(prefix, Entity::Brightness, previous, current)
        + state_update(prefix, Entity::BrightnessDimmed, previous, current)
        + state_update(prefix, Entity::BrightnessFull, previous, current)
        + state_update(prefix, Entity::UseDimmer, previous, current)
        + state_update(prefix, Entity::TimeoutSec, previous, current)
}

fn text_payload(text: &String) -> (r: Vec<u8>)
    ensures
        r@ == encode_utf8(text@),
{
    vstd::slice::slice_to_vec(text.as_str().as_bytes())
}

fn push_state_update(data: &MqttData, out: &mut Vec<Publication>, e: Entity, previous: Option<&State>, current: &State)
    ensures
        publication_views(final(out)@) == publication_views(old(out)@)
            + state_update(data@.app_topic_prefix, e, published_before(previous), *current),
{
    let ghost before = out@;
    let changed = match previous {
        Some(p) => e.differs(p, current),
        None => true,
    };
    if changed {
        let text = e.state_text(current);
        out.push(Publication { topic: data.state_topic(e), payload: text_payload(&text), qos: Qos::ExactlyOnce, retain: false });
    }
    proof {
        assert(publication_views(out@) =~= publication_views(before)
            + state_update(data@.app_topic_prefix, e, published_before(previous), *current));
    }
}

/// The messages that publish `current_state`: every entity where nothing was
/// published before, else the entities whose value changed since `previous_state`.
pub fn state_publications(data: &MqttData, previous_state: Option<&State>, current_state: &State) -> (r: Vec<Publication>)
    ensures
        publication_views(r@) == state_updates(data@.app_topic_prefix, published_before(previous_state), *current_state),
{
    let mut out: Vec<Publication> = Vec::new();
    push_state_update(data, &mut out, Entity::PowerState, previous_state, current_state);
    push_state_update(data, &mut out, Entity::PowerDimmed, previous_state, current_state);
    push_state_update(data, &mut out, Entity::Brightness, previous_state, current_state);
    push_state_update(data, &mut out, Entity::BrightnessDimmed, previous_state, current_state);
    push_state_update(data, &mut out, Entity::BrightnessFull, previous_state, current_state);
    push_state_update(data, &mut out, Entity::UseDimmer, previous_state, current_state);
    push_state_update(data, &mut out, Entity::TimeoutSec, previous_state, current_state);
    proof {
        assert(publication_views(Seq::<Publication>::empty()) =~= Seq::<PublicationView>::empty());
        assert(state_updates(data@.app_topic_prefix, published_before(previous_state), *current_state)
            =~= Seq::<PublicationView>::empty()
            + state_update(data@.app_topic_prefix, Entity::PowerState, published_before(previous_state), *current_state)
            + state_update(data@.app_topic_prefix, Entity::PowerDimmed, published_before(previous_state), *current_state)
            + state_update(data@.app_topic_prefix, Entity::Brightness, published_before(previous_state), *current_state)
            + state_update(data@.app_topic_prefix, Entity::BrightnessDimmed, published_before(previous_state), *current_state)
            + state_update(data@.app_topic_prefix, Entity::BrightnessFull, published_before(previous_state), *current_state)
            + state_update(data@.app_topic_prefix, Entity::UseDimmer, published_before(previous_state), *current_state)
            + state_update(data@.app_topic_prefix, Entity::TimeoutSec, published_before(previous_state), *current_state));
    }
    out
}

/// The retained messages that announce the device: the text of the discovery
/// document at its topic, then `online` at the availability topic of each
/// entity, in the order of the document.
pub open spec fn device_config_updates(data: MqttData, discovery: Seq<u8>) -> Seq<PublicationView> {
    seq![
        PublicationView {
            topic: data@.device_config_topic,
            payload: discovery,
            qos: Qos::ExactlyOnce,
            retain: true,
        },
    ] + discovery_order().map_values(|e: Entity| availability_update(data@.app_topic_prefix, e))
}

/// The retained message that marks an entity as available.
pub open spec fn availability_update(prefix: Seq<char>, e: Entity) -> PublicationView {
    PublicationView {
        topic: entity_topic(prefix, e, "/available"@),
        payload: encode_utf8(PAYLOAD_AVAILABLE@),
        qos: Qos::ExactlyOnce,
        retain: true,
    }
}

/// The messages that announce the device: its discovery document as JSON text,
/// then the availability of each entity.
pub fn device_config_publications(data: &MqttData) -> (r: Vec<Publication>)
    ensures
        publication_views(r@) == device_config_updates(*data, json_document_text(data@.discovery)),
        data@.discovery == discovery_spec(data@.app_topic_prefix, data@.device_id, data@.device_name),
{
    proof {
        use_type_invariant(data);
    }
    let discovery = json_document_bytes(&data.discovery);
    let mut out: Vec<Publication> = Vec::new();
    let ghost discovery_bytes = discovery@;
    out.push(Publication {
        topic: data.device_config_topic.clone(),
        payload: discovery,
        qos: Qos::ExactlyOnce,
        retain: true,
    });
    let order = Entity::discovery_order();
    let ghost first = publication_views(out@);
    let mut i: usize = 0;
    while i < order.len()
        invariant
            i <= order@.len(),
            order@ == discovery_order(),
            first.len() == 1,
            publication_views(out@) == first + order@.take(i as int).map_values(
                |e: Entity| availability_update(data@.app_topic_prefix, e),
            ),
        decreases order.len() - i,
    {
        let e = order[i];
        let payload = vstd::slice::slice_to_vec(PAYLOAD_AVAILABLE.as_bytes());
        let p = Publication { topic: data.availability_topic(e), payload, qos: Qos::ExactlyOnce, retain: true };
        assert(p@ == availability_update(data@.app_topic_prefix, e));
        let ghost prev = out@;
        out.push(p);
        proof {
            assert(publication_views(out@) =~= publication_views(prev).push(p@));
            assert(order@.take(i + 1) =~= order@.take(i as int).push(e));
            assert(order@.take(i + 1).map_values(|e: Entity| availability_update(data@.app_topic_prefix, e))
                =~= order@.take(i as int).map_values(|e: Entity| availability_update(data@.app_topic_prefix, e)).push(
                availability_update(data@.app_topic_prefix, e)));
            assert(publication_views(out@) =~= first + order@.take(i + 1).map_values(
                |e: Entity| availability_update(data@.app_topic_prefix, e),
            ));
        }
        i = i + 1;
    }
    proof {
        assert(order@.take(order@.len() as int) =~= order@);
        assert(publication_views(out@) =~= device_config_updates(*data, discovery_bytes));
    }
    out
}

/// The topics the device listens to: Home Assistant's status topic, then the
/// command topic of each entity, in the order of the discovery document.
pub open spec fn subscribed_topics(data: MqttData) -> Seq<Seq<char>> {
    seq![data@.home_assistant_status_topic] + discovery_order().map_values(
        |e: Entity| entity_topic(data@.app_topic_prefix, e, "/set"@),
    )
}

/// A subscription to a topic.
pub struct Subscription {
    pub topic: String,
    pub qos: Qos,
}

/// The subscriptions of the device: each topic it listens to, at most once.
pub fn subscriptions(data: &MqttData) -> (r: Vec<Subscription>)
    ensures
        r@.map_values(|s: Subscription| s.topic@) == subscribed_topics(*data),
        forall|i: int| 0 <= i < r@.len() ==> (#[trigger] r@[i]).qos == Qos::AtMostOnce,
{
    let mut out: Vec<Subscription> = Vec::new();
    out.push(Subscription { topic: data.home_assistant_status_topic.clone(), qos: Qos::AtMostOnce });
    let order = Entity::discovery_order();
    let mut i: usize = 0;
    while i < order.len()
        invariant
            i <= order@.len(),
            order@ == discovery_order(),
            out@.map_values(|s: Subscription| s.topic@) == seq![data@.home_assistant_status_topic]
                + order@.take(i as int).map_values(|e: Entity| entity_topic(data@.app_topic_prefix, e, "/set"@)),
            forall|j: int| 0 <= j < out@.len() ==> (#[trigger] out@[j]).qos == Qos::AtMostOnce,
        decreases order.len() - i,
    {
        let e = order[i];
        let sub = Subscription { topic: data.command_topic(e), qos: Qos::AtMostOnce };
        let ghost prev = out@;
        out.push(sub);
        proof {
            assert(out@.map_values(|s: Subscription| s.topic@) =~= prev.map_values(|s: Subscription| s.topic@).push(sub.topic@));
            assert(order@.take(i + 1) =~= order@.take(i as int).push(e));
            assert(order@.take(i + 1).map_values(|e: Entity| entity_topic(data@.app_topic_prefix, e, "/set"@))
                =~= order@.take(i as int).map_values(|e: Entity| entity_topic(data@.app_topic_prefix, e, "/set"@)).push(
                entity_topic(data@.app_topic_prefix, e, "/set"@)));
            assert(out@.map_values(|s: Subscription| s.topic@) =~= seq![data@.home_assistant_status_topic]
                + order@.take(i + 1).map_values(|e: Entity| entity_topic(data@.app_topic_prefix, e, "/set"@)));
        }
        i = i + 1;
    }
    proof {
        assert(order@.take(order@.len() as int) =~= order@);
    }
    out
}

/// A credential for the broker: `None` where the configured text is empty.
pub fn optional_credential(value: &String) -> (r: Option<String>)
    ensures
        r is None <==> value@.len() == 0,
        r matches Some(v) ==> v@ == value@,
{
    if value.as_str().is_empty() {
        None
    } else {
        Some(value.clone())
    }
}

/// The user name and password to log in to the broker with.
pub fn auth_credentials(config: &MqttConfig) -> (r: (Option<String>, Option<String>))
    ensures
        r.0 is None <==> config.auth_username@.len() == 0,
        r.0 matches Some(u) ==> u@ == config.auth_username@,
        r.1 is None <==> config.auth_password@.len() == 0,
        r.1 matches Some(p) ==> p@ == config.auth_password@,
{
    (optional_credential(&config.auth_username), optional_credential(&config.auth_password))
}

/// What the device does with a message it received.
#[derive(Clone, Copy, PartialEq, Eq, Debug, Structural)]
pub enum MessageOutcome {
    /// Home Assistant is back: publish the whole state again.
    RepublishState,
    /// A command set the field of an entity.
    Updated(Entity),
    /// A command for an entity whose payload is not a value of its type.
    InvalidPayload(Entity),
    /// A message on no topic of the device.
    Ignored,
}

/// The state after a command for an entity; `None` where the payload is not a
/// value of the entity's type.
pub open spec fn commanded_state(e: Entity, s: State, payload: Seq<u8>) -> Option<State> {
    match e {
        Entity::PowerState => Some(State { backlight_active_current: payload_bool(payload), ..s }),
        Entity::PowerDimmed => Some(State { backlight_active_dimmed: payload_bool(payload), ..s }),
        Entity::UseDimmer => Some(State { use_dimmer: payload_bool(payload), ..s }),
        Entity::Brightness => match payload_number(payload, 255) {
            Some(v) => Some(State { brightness_current: v as u8, ..s }),
            None => None,
        },
        Entity::BrightnessDimmed => match payload_number(payload, 255) {
            Some(v) => Some(State { brightness_dimmed: v as u8, ..s }),
            None => None,
        },
        Entity::BrightnessFull => match payload_number(payload, 255) {
            Some(v) => Some(State { brightness_full: v as u8, ..s }),
            None => None,
        },
        Entity::TimeoutSec => match payload_number(payload, u64::MAX as nat) {
            Some(v) => Some(State { timeout: v as u64, ..s }),
            None => None,
        },
    }
}

/// The first entity, in the order power, power when dimmed, brightness,
/// dimmed brightness, full brightness, dimming, timeout, whose command topic is `topic`.
pub open spec fn commanded_entity(prefix: Seq<char>, topic: Seq<char>) -> Option<Entity> {
    if topic == entity_topic(prefix, Entity::PowerState, "/set"@) {
        Some(Entity::PowerState)
    } else if topic == entity_topic(prefix, Entity::PowerDimmed, "/set"@) {
        Some(Entity::PowerDimmed)
    } else if topic == entity_topic(prefix, Entity::Brightness, "/set"@) {
        Some(Entity::Brightness)
    } else if topic == entity_topic(prefix, Entity::BrightnessDimmed, "/set"@) {
        Some(Entity::BrightnessDimmed)
    } else if topic == entity_topic(prefix, Entity::BrightnessFull, "/set"@) {
        Some(Entity::BrightnessFull)
    } else if topic == entity_topic(prefix, Entity::UseDimmer, "/set"@) {
        Some(Entity::UseDimmer)
    } else if topic == entity_topic(prefix, Entity::TimeoutSec, "/set"@) {
        Some(Entity::TimeoutSec)
    } else {
        None
    }
}

/// Whether a message is Home Assistant's announcement that it is online.
pub open spec fn is_home_assistant_online(data: MqttData, topic: Seq<char>, payload: Seq<u8>) -> bool {
    topic == data@.home_assistant_status_topic && payload == encode_utf8(PAYLOAD_AVAILABLE@)
}

/// The state and outcome after a message on `topic` with `payload`.
pub open spec fn message_result(data: MqttData, s: State, topic: Seq<char>, payload: Seq<u8>) -> (State, MessageOutcome) {
    if is_home_assistant_online(data, topic, payload) {
        (s, MessageOutcome::RepublishState)
    } else {
        match commanded_entity(data@.app_topic_prefix, topic) {
            None => (s, MessageOutcome::Ignored),
            Some(e) => match commanded_state(e, s, payload) {
                Some(t) => (t, MessageOutcome::Updated(e)),
                None => (s, MessageOutcome::InvalidPayload(e)),
            },
        }
    }
}

/// Applies a command for `entity` to the state.
pub fn apply_command(entity: Entity, state: &mut State, payload: &Vec<u8>) -> (outcome: MessageOutcome)
    ensures
        commanded_state(entity, *old(state), payload@) matches Some(t) ==> *final(state) == t
            && outcome == MessageOutcome::Updated(entity),
        commanded_state(entity, *old(state), payload@) is None ==> *final(state) == *old(state)
            && outcome == MessageOutcome::InvalidPayload(entity),
{
    match entity {
        Entity::PowerState => {
            state.backlight_active_current = mqtt_payload_to_bool(payload);
        },
        Entity::PowerDimmed => {
            state.backlight_active_dimmed = mqtt_payload_to_bool(payload);
        },
        Entity::UseDimmer => {
            state.use_dimmer = mqtt_payload_to_bool(payload);
        },
        Entity::Brightness => match payload_to_number(payload, 255) {
            Some(v) => {
                state.brightness_current = v as u8;
            },
            None => {
                return MessageOutcome::InvalidPayload(entity);
            },
        },
        Entity::BrightnessDimmed => match payload_to_number(payload, 255) {
            Some(v) => {
                state.brightness_dimmed = v as u8;
            },
            None => {
                return MessageOutcome::InvalidPayload(entity);
            },
        },
        Entity::BrightnessFull => match payload_to_number(payload, 255) {
            Some(v) => {
                state.brightness_full = v as u8;
            },
            None => {
                return MessageOutcome::InvalidPayload(entity);
            },
        },
        Entity::TimeoutSec => match payload_to_number(payload, u64::MAX) {
            Some(v) => {
                state.timeout = v;
            },
            None => {
                return MessageOutcome::InvalidPayload(entity);
            },
        },
    }
    MessageOutcome::Updated(entity)
}

/// Handles a message received on `topic`: Home Assistant's `online` on its status
/// topic asks for the whole state again; a command on an entity's command topic
/// sets that entity's field; anything else is ignored.
pub fn handle_message(data: &MqttData, state: &mut State, topic: &String, payload: &Vec<u8>) -> (outcome: MessageOutcome)
    ensures
        (*final(state), outcome) == message_result(*data, *old(state), topic@, payload@),
{
    if *topic == data.home_assistant_status_topic && bytes_equal(payload.as_slice(), PAYLOAD_AVAILABLE.as_bytes()) {
        return MessageOutcome::RepublishState;
    }
    if *topic == data.command_topic(Entity::PowerState) {
        apply_command(Entity::PowerState, state, payload)
    } else if *topic == data.command_topic(Entity::PowerDimmed) {
        apply_command(Entity::PowerDimmed, state, payload)
    } else if *topic == data.command_topic(Entity::Brightness) {
        apply_command(Entity::Brightness, state, payload)
    } else if *topic == data.command_topic(Entity::BrightnessDimmed) {
        apply_command(Entity::BrightnessDimmed, state, payload)
    } else if *topic == data.command_topic(Entity::BrightnessFull) {
        apply_command(Entity::BrightnessFull, state, payload)
    } else if *topic == data.command_topic(Entity::UseDimmer) {
        apply_command(Entity::UseDimmer, state, payload)
    } else if *topic == data.command_topic(Entity::TimeoutSec) {
        apply_command(Entity::TimeoutSec, state, payload)
    } else {
        MessageOutcome::Ignored
    }
}

/// Two different entities have different keys.
pub proof fn lemma_entity_keys_distinct(a: Entity, b: Entity)
    requires
        a != b,
    ensures
        entity_key(a) != entity_key(b),
{
    reveal_strlit("power_state");
    reveal_strlit("brightness");
    reveal_strlit("use_dimmer");
    reveal_strlit("power_dimmed");
    reveal_strlit("brightness_dimmed");
    reveal_strlit("brightness_full");
    reveal_strlit("timeout_sec");
    if entity_key(a) == entity_key(b) {
        assert(entity_key(a).len() == entity_key(b).len());
        assert(entity_key(a)[0] == entity_key(b)[0]);
        assert(entity_key(a)[11] == entity_key(b)[11]);
    }
}

/// Two topics of the same kind name the same entity only where they are equal.
pub proof fn lemma_entity_topic_injective(prefix: Seq<char>, a: Entity, b: Entity, suffix: Seq<char>)
    requires
        entity_topic(prefix, a, suffix) == entity_topic(prefix, b, suffix),
    ensures
        a == b,
{
    reveal_strlit("/");
    let ta = entity_topic(prefix, a, suffix);
    let start: int = prefix.len() as int + 1;
    assert(ta.subrange(start, ta.len() - suffix.len()) =~= entity_key(a));
    assert(entity_topic(prefix, b, suffix).subrange(start, ta.len() - suffix.len()) =~= entity_key(b));
    if a != b {
        lemma_entity_keys_distinct(a, b);
    }
}

/// Different entities have different command topics, so that a command reaches
/// exactly one entity.
pub proof fn lemma_command_topics_distinct(prefix: Seq<char>, a: Entity, b: Entity)
    requires
        a != b,
    ensures
        entity_topic(prefix, a, "/set"@) != entity_topic(prefix, b, "/set"@),
{
    if entity_topic(prefix, a, "/set"@) == entity_topic(prefix, b, "/set"@) {
        lemma_entity_topic_injective(prefix, a, b, "/set"@);
    }
}

/// The command topic of an entity leads to that entity.
pub proof fn lemma_commanded_entity(prefix: Seq<char>, e: Entity)
    ensures
        commanded_entity(prefix, entity_topic(prefix, e, "/set"@)) == Some(e),
{
    let t = entity_topic(prefix, e, "/set"@);
    if e != Entity::PowerState {
        lemma_command_topics_distinct(prefix, e, Entity::PowerState);
    }
    if e != Entity::PowerDimmed {
        lemma_command_topics_distinct(prefix, e, Entity::PowerDimmed);
    }
    if e != Entity::Brightness {
        lemma_command_topics_distinct(prefix, e, Entity::Brightness);
    }
    if e != Entity::BrightnessDimmed {
        lemma_command_topics_distinct(prefix, e, Entity::BrightnessDimmed);
    }
    if e != Entity::BrightnessFull {
        lemma_command_topics_distinct(prefix, e, Entity::BrightnessFull);
    }
    if e != Entity::UseDimmer {
        lemma_command_topics_distinct(prefix, e, Entity::UseDimmer);
    }
}

/// A switch payload reads back as the value it was written for.
pub proof fn lemma_bool_payload_round_trip(b: bool)
    ensures
        payload_bool(encode_utf8(bool_text(b))) == b,
{
    if !b {
        reveal_strlit("on");
        reveal_strlit("off");
        encode_utf8_decode_utf8("on"@);
        encode_utf8_decode_utf8("off"@);
        assert("on"@ != "off"@) by {
            assert("on"@.len() != "off"@.len());
        }
    }
}

/// A number payload reads back as the number it was written for.
pub proof fn lemma_number_payload_round_trip(n: nat, max: nat)
    requires
        n <= max,
    ensures
        payload_number(encode_utf8(decimal(n)), max) == Some(n),
{
    encode_utf8_valid_utf8(decimal(n));
    encode_utf8_decode_utf8(decimal(n));
    lemma_parse_decimal(n, max);
}

/// No state payload is Home Assistant's `online`.
proof fn lemma_state_text_not_online(e: Entity, s: State)
    ensures
        encode_utf8(entity_state_text(e, s)) != encode_utf8(PAYLOAD_AVAILABLE@),
{
    reveal_strlit("online");
    reveal_strlit("on");
    reveal_strlit("off");
    let text = entity_state_text(e, s);
    encode_utf8_decode_utf8(text);
    encode_utf8_decode_utf8(PAYLOAD_AVAILABLE@);
    if text == PAYLOAD_AVAILABLE@ {
        match e {
            Entity::PowerState | Entity::PowerDimmed | Entity::UseDimmer => {
                assert(text.len() != PAYLOAD_AVAILABLE@.len());
            },
            Entity::Brightness => {
                lemma_decimal_digits(s.brightness_current as nat);
                assert(is_decimal_digit(text[0]));
            },
            Entity::BrightnessDimmed => {
                lemma_decimal_digits(s.brightness_dimmed as nat);
                assert(is_decimal_digit(text[0]));
            },
            Entity::BrightnessFull => {
                lemma_decimal_digits(s.brightness_full as nat);
                assert(is_decimal_digit(text[0]));
            },
            Entity::TimeoutSec => {
                lemma_decimal_digits(s.timeout as nat);
                assert(is_decimal_digit(text[0]));
            },
        }
    }
}

/// What the device publishes for an entity, sent back as a command for that
/// entity, sets the entity to the published value and leaves every other
/// entity as it was.
pub proof fn lemma_published_value_as_command(data: MqttData, e: Entity, published: State, s: State)
    ensures
        ({
            let (t, outcome) = message_result(
                data,
                s,
                entity_topic(data@.app_topic_prefix, e, "/set"@),
                encode_utf8(entity_state_text(e, published)),
            );
            &&& outcome == MessageOutcome::Updated(e)
            &&& !entity_differs(e, t, published)
            &&& forall|f: Entity| f != e ==> !entity_differs(f, t, s)
        }),
{
    lemma_state_text_not_online(e, published);
    lemma_commanded_entity(data@.app_topic_prefix, e);
    match e {
        Entity::PowerState => lemma_bool_payload_round_trip(published.backlight_active_current),
        Entity::PowerDimmed => lemma_bool_payload_round_trip(published.backlight_active_dimmed),
        Entity::UseDimmer => lemma_bool_payload_round_trip(published.use_dimmer),
        Entity::Brightness => lemma_number_payload_round_trip(published.brightness_current as nat, 255),
        Entity::BrightnessDimmed => lemma_number_payload_round_trip(published.brightness_dimmed as nat, 255),
        Entity::BrightnessFull => lemma_number_payload_round_trip(published.brightness_full as nat, 255),
        Entity::TimeoutSec => lemma_number_payload_round_trip(published.timeout as nat, u64::MAX as nat),
    }
}

/// Where nothing was published before, every entity's value is published,
/// in the publishing order.
pub proof fn lemma_first_publication_covers_all(prefix: Seq<char>, s: State)
    ensures
        state_updates(prefix, None, s) == state_publish_order().map_values(|e: Entity| state_message(prefix, e, s)),
{
    assert(state_updates(prefix, None, s) =~= state_publish_order().map_values(|e: Entity| state_message(prefix, e, s)));
}

/// A state that was published already is not published again.
pub proof fn lemma_unchanged_state_publishes_nothing(prefix: Seq<char>, s: State)
    ensures
        state_updates(prefix, Some(s), s) == Seq::<PublicationView>::empty(),
{
    assert(state_updates(prefix, Some(s), s) =~= Seq::<PublicationView>::empty());
}

proof fn lemma_concat_contains<A>(a: Seq<A>, b: Seq<A>, x: A)
    ensures
        (a + b).contains(x) <==> a.contains(x) || b.contains(x),
{
    if a.contains(x) {
        let i = choose|i: int| 0 <= i < a.len() && a[i] == x;
        assert((a + b)[i] == x);
    }
    if b.contains(x) {
        let j = choose|j: int| 0 <= j < b.len() && b[j] == x;
        assert((a + b)[a.len() + j] == x);
    }
    if (a + b).contains(x) {
        let k = choose|k: int| 0 <= k < (a + b).len() && (a + b)[k] == x;
        if k < a.len() {
            assert(a[k] == x);
        } else {
            assert(b[k - a.len()] == x);
        }
    }
}

/// The decimal texts of different numbers differ.
pub proof fn lemma_decimal_injective(a: nat, b: nat)
    ensures
        decimal(a) == decimal(b) ==> a == b,
{
    lemma_decimal_digits(a);
    lemma_decimal_digits(b);
}

/// Two states show different text for an entity exactly where they differ in its field.
proof fn lemma_state_text_differs(e: Entity, a: State, b: State)
    ensures
        entity_differs(e, a, b) <==> entity_state_text(e, a) != entity_state_text(e, b),
{
    reveal_strlit("on");
    reveal_strlit("off");
    assert("on"@.len() != "off"@.len());
    match e {
        Entity::Brightness => lemma_decimal_injective(a.brightness_current as nat, b.brightness_current as nat),
        Entity::BrightnessDimmed => lemma_decimal_injective(a.brightness_dimmed as nat, b.brightness_dimmed as nat),
        Entity::BrightnessFull => lemma_decimal_injective(a.brightness_full as nat, b.brightness_full as nat),
        Entity::TimeoutSec => lemma_decimal_injective(a.timeout as nat, b.timeout as nat),
        _ => {},
    }
}

proof fn lemma_update_contains(prefix: Seq<char>, f: Entity, e: Entity, previous: State, current: State)
    ensures
        state_update(prefix, f, Some(previous), current).contains(state_message(prefix, e, current)) <==> (f == e
            && entity_differs(e, previous, current)),
{
    let m = state_message(prefix, e, current);
    if entity_differs(f, previous, current) {
        let piece = state_update(prefix, f, Some(previous), current);
        assert(piece[0] == state_message(prefix, f, current));
        if piece.contains(m) {
            let k = choose|k: int| 0 <= k < piece.len() && piece[k] == m;
            assert(k == 0);
            lemma_entity_topic_injective(prefix, f, e, "/state"@);
        }
    }
}

/// After an earlier publication, the value of an entity is published again
/// exactly where the text it shows has changed.
pub proof fn lemma_state_updates_publish_changes(prefix: Seq<char>, previous: State, current: State, e: Entity)
    ensures
        state_updates(prefix, Some(previous), current).contains(state_message(prefix, e, current))
            <==> entity_state_text(e, previous) != entity_state_text(e, current),
{
    let p = Some(previous);
    let u1 = state_update(prefix, Entity::PowerState, p, current);
    let u2 = state_update(prefix, Entity::PowerDimmed, p, current);
    let u3 = state_update(prefix, Entity::Brightness, p, current);
    let u4 = state_update(prefix, Entity::BrightnessDimmed, p, current);
    let u5 = state_update(prefix, Entity::BrightnessFull, p, current);
    let u6 = state_update(prefix, Entity::UseDimmer, p, current);
    let u7 = state_update(prefix, Entity::TimeoutSec, p, current);
    let m = state_message(prefix, e, current);
    lemma_concat_contains(u1, u2, m);
    lemma_concat_contains(u1 + u2, u3, m);
    lemma_concat_contains(u1 + u2 + u3, u4, m);
    lemma_concat_contains(u1 + u2 + u3 + u4, u5, m);
    lemma_concat_contains(u1 + u2 + u3 + u4 + u5, u6, m);
    lemma_concat_contains(u1 + u2 + u3 + u4 + u5 + u6, u7, m);
    lemma_update_contains(prefix, Entity::PowerState, e, previous, current);
    lemma_update_contains(prefix, Entity::PowerDimmed, e, previous, current);
    lemma_update_contains(prefix, Entity::Brightness, e, previous, current);
    lemma_update_contains(prefix, Entity::BrightnessDimmed, e, previous, current);
    lemma_update_contains(prefix, Entity::BrightnessFull, e, previous, current);
    lemma_update_contains(prefix, Entity::UseDimmer, e, previous, current);
    lemma_update_contains(prefix, Entity::TimeoutSec, e, previous, current);
    lemma_state_text_differs(e, previous, current);
}

/// Every entity of the device gets a retained `online` on its availability
/// topic when the device announces itself.
pub proof fn lemma_every_entity_announced_available(data: MqttData, discovery: Seq<u8>, e: Entity)
    ensures
        device_config_updates(data, discovery).contains(
            PublicationView {
                topic: data@.app_topic_prefix + "/"@ + entity_key(e) + "/available"@,
                payload: encode_utf8("online"@),
                qos: Qos::ExactlyOnce,
                retain: true,
            },
        ),
{
    let updates = device_config_updates(data, discovery);
    let i: int = match e {
        Entity::Brightness => 0,
        Entity::BrightnessDimmed => 1,
        Entity::BrightnessFull => 2,
        Entity::PowerDimmed => 3,
        Entity::PowerState => 4,
        Entity::TimeoutSec => 5,
        Entity::UseDimmer => 6,
    };
    assert(discovery_order()[i] == e);
    assert(updates[i + 1] == availability_update(data@.app_topic_prefix, e));
}

/// A brightness entity is shown as a slider from 1 to 255, the whole range of
/// its `u8` field; the timeout as a box from 1 to 86400 seconds.
pub proof fn lemma_number_settings_ranges(e: Entity, n: Option<NumberSettings>)
    requires
        number_settings_match(e, n),
    ensures
        e == Entity::Brightness || e == Entity::BrightnessDimmed || e == Entity::BrightnessFull ==> (n matches Some(
            s,
        ) && s.min == 1 && s.max == 255 && s.max as nat == u8::MAX as nat),
        e == Entity::TimeoutSec ==> (n matches Some(s) && s.min == 1 && s.max == 86400),
        entity_is_switch(e) ==> n is None,
{
}

/// Home Assistant's `online` on its status topic asks for the whole state and
/// changes nothing; any other payload there changes nothing either, where the
/// status topic is no command topic.
pub proof fn lemma_home_assistant_status(data: MqttData, s: State, payload: Seq<u8>)
    ensures
        message_result(data, s, data@.home_assistant_status_topic, encode_utf8("online"@)) == (
        s,
        MessageOutcome::RepublishState,
        ),
        (forall|e: Entity| data@.home_assistant_status_topic != #[trigger] entity_topic(data@.app_topic_prefix, e, "/set"@))
            ==> message_result(data, s, data@.home_assistant_status_topic, payload).0 == s,
{
    let t = data@.home_assistant_status_topic;
    if forall|e: Entity| t != #[trigger] entity_topic(data@.app_topic_prefix, e, "/set"@) {
        assert(t != entity_topic(data@.app_topic_prefix, Entity::PowerState, "/set"@));
        assert(t != entity_topic(data@.app_topic_prefix, Entity::PowerDimmed, "/set"@));
        assert(t != entity_topic(data@.app_topic_prefix, Entity::Brightness, "/set"@));
        assert(t != entity_topic(data@.app_topic_prefix, Entity::BrightnessDimmed, "/set"@));
        assert(t != entity_topic(data@.app_topic_prefix, Entity::BrightnessFull, "/set"@));
        assert(t != entity_topic(data@.app_topic_prefix, Entity::UseDimmer, "/set"@));
        assert(t != entity_topic(data@.app_topic_prefix, Entity::TimeoutSec, "/set"@));
    }
}

/// A command on an entity's command topic changes that entity's field alone:
/// a switch takes `on` as on and anything else as off, a number takes the
/// value its payload reads as, and an unreadable number changes nothing.
pub proof fn lemma_command_effect(data: MqttData, s: State, e: Entity, payload: Seq<u8>)
    requires
        payload != encode_utf8("online"@) || data@.home_assistant_status_topic != data@.app_topic_prefix + "/"@
            + entity_key(e) + "/set"@,
    ensures
        ({
            let (t, outcome) = message_result(data, s, data@.app_topic_prefix + "/"@ + entity_key(e) + "/set"@, payload);
            &&& e == Entity::PowerState ==> t == State { backlight_active_current: payload == seq![111u8, 110u8], ..s }
                && outcome == MessageOutcome::Updated(e)
            &&& e == Entity::PowerDimmed ==> t == State { backlight_active_dimmed: payload == seq![111u8, 110u8], ..s }
                && outcome == MessageOutcome::Updated(e)
            &&& e == Entity::UseDimmer ==> t == State { use_dimmer: payload == seq![111u8, 110u8], ..s }
                && outcome == MessageOutcome::Updated(e)
            &&& e == Entity::Brightness ==> (payload_number(payload, 255) matches Some(v) ==> t == State {
                brightness_current: v as u8,
                ..s
            } && v <= 255 && outcome == MessageOutcome::Updated(e))
            &&& e == Entity::BrightnessDimmed ==> (payload_number(payload, 255) matches Some(v) ==> t == State {
                brightness_dimmed: v as u8,
                ..s
            } && v <= 255 && outcome == MessageOutcome::Updated(e))
            &&& e == Entity::BrightnessFull ==> (payload_number(payload, 255) matches Some(v) ==> t == State {
                brightness_full: v as u8,
                ..s
            } && v <= 255 && outcome == MessageOutcome::Updated(e))
            &&& e == Entity::TimeoutSec ==> (payload_number(payload, u64::MAX as nat) matches Some(v) ==> t == State {
                timeout: v as u64,
                ..s
            } && outcome == MessageOutcome::Updated(e))
            &&& payload_number(payload, 255) is None && !entity_is_switch(e) && e != Entity::TimeoutSec ==> t == s
                && outcome == MessageOutcome::InvalidPayload(e)
            &&& payload_number(payload, u64::MAX as nat) is None && e == Entity::TimeoutSec ==> t == s
                && outcome == MessageOutcome::InvalidPayload(e)
        }),
{
    lemma_commanded_entity(data@.app_topic_prefix, e);
    reveal_strlit("on");
    assert("on"@ =~= seq!['o', 'n']);
    lemma_on_bytes();
}

proof fn lemma_on_bytes()
    ensures
        encode_utf8("on"@) == seq![111u8, 110u8],
{
    reveal_strlit("on");
    let on = "on"@;
    assert(on =~= seq!['o', 'n']);
    vstd::utf8::is_ascii_chars_encode_utf8(on);
    assert(encode_utf8(on) =~= seq![111u8, 110u8]);
}

/// A switch's state shows `on` exactly when it is on, and a number's state
/// shows its value in decimal.
pub proof fn lemma_state_text_values(s: State)
    ensures
        encode_utf8(entity_state_text(Entity::PowerState, s)) == seq![111u8, 110u8] <==> s.backlight_active_current,
        encode_utf8(entity_state_text(Entity::PowerDimmed, s)) == seq![111u8, 110u8] <==> s.backlight_active_dimmed,
        encode_utf8(entity_state_text(Entity::UseDimmer, s)) == seq![111u8, 110u8] <==> s.use_dimmer,
        entity_state_text(Entity::Brightness, s) == decimal(s.brightness_current as nat),
        entity_state_text(Entity::BrightnessDimmed, s) == decimal(s.brightness_dimmed as nat),
        entity_state_text(Entity::BrightnessFull, s) == decimal(s.brightness_full as nat),
        entity_state_text(Entity::TimeoutSec, s) == decimal(s.timeout as nat),
{
    lemma_on_bytes();
    lemma_bool_payload_round_trip(s.backlight_active_current);
    lemma_bool_payload_round_trip(s.backlight_active_dimmed);
    lemma_bool_payload_round_trip(s.use_dimmer);
}

/// The device listens on Home Assistant's status topic and on the command
/// topic of every entity.
pub proof fn lemma_subscribed_to_every_command(data: MqttData, e: Entity)
    ensures
        subscribed_topics(data).contains(data@.home_assistant_status_topic),
        subscribed_topics(data).contains(data@.app_topic_prefix + "/"@ + entity_key(e) + "/set"@),
{
    let topics = subscribed_topics(data);
    assert(topics[0] == data@.home_assistant_status_topic);
    let i: int = match e {
        Entity::Brightness => 0,
        Entity::BrightnessDimmed => 1,
        Entity::BrightnessFull => 2,
        Entity::PowerDimmed => 3,
        Entity::PowerState => 4,
        Entity::TimeoutSec => 5,
        Entity::UseDimmer => 6,
    };
    assert(discovery_order()[i] == e);
    assert(topics[i + 1] == entity_topic(data@.app_topic_prefix, e, "/set"@));
}

} // verus!
