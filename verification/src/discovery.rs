//! The discovery document that announces the device to Home Assistant: its
//! content as plain values, and its JSON text through `serde_json`.
use vstd::prelude::*;
use crate::mqtt::{
    bool_to_mqtt_payload, discovery_order, entity_display_name, entity_is_switch, entity_key, entity_topic,
    entity_unique_id_suffix, topic_string, Entity, ORIGIN_NAME, ORIGIN_URL, PAYLOAD_AVAILABLE,
    PAYLOAD_NOT_AVAILABLE, SOFTWARE_VERSION,
};
use crate::mqtt::{commanded_entity, commanded_state, lemma_commanded_entity, lemma_number_payload_round_trip};
use crate::number::{decimal, lemma_decimal_digits};
use crate::state::State;
use vstd::utf8::{encode_utf8, encode_utf8_decode_utf8, encode_utf8_valid_utf8};
use serde_json::Value;

verus! {

/// A scalar of the document.
#[derive(Clone)]
pub enum JsonLeaf {
    Text(String),
    Number(u32),
}

/// Model of a [`JsonLeaf`].
pub enum JsonLeafView {
    Text(Seq<char>),
    Number(u32),
}

impl View for JsonLeaf {
    type V = JsonLeafView;

    open spec fn view(&self) -> JsonLeafView {
        match self {
            JsonLeaf::Text(s) => JsonLeafView::Text(s@),
            JsonLeaf::Number(n) => JsonLeafView::Number(*n),
        }
    }
}

/// The models of the members of an object, in order.
pub open spec fn members_view(v: Seq<(String, JsonLeaf)>) -> Seq<(Seq<char>, JsonLeafView)> {
    v.map_values(|m: (String, JsonLeaf)| (m.0@, m.1@))
}

/// An object whose members are scalars, in the order they were added.
#[derive(Clone)]
pub struct JsonObject {
    pub members: Vec<(String, JsonLeaf)>,
}

/// Model of a [`JsonObject`].
pub struct JsonObjectView {
    pub members: Seq<(Seq<char>, JsonLeafView)>,
}

impl View for JsonObject {
    type V = JsonObjectView;

    open spec fn view(&self) -> JsonObjectView {
        JsonObjectView { members: members_view(self.members@) }
    }
}

/// The models of the members of an object of objects, in order.
pub open spec fn objects_view(v: Seq<(String, JsonObject)>) -> Seq<(Seq<char>, JsonObjectView)> {
    v.map_values(|m: (String, JsonObject)| (m.0@, m.1@))
}

/// A member of the document: an object of scalars, or an object of such objects.
#[derive(Clone)]
pub enum JsonMember {
    Object(JsonObject),
    Objects(Vec<(String, JsonObject)>),
}

/// Model of a [`JsonMember`].
pub enum JsonMemberView {
    Object(JsonObjectView),
    Objects(Seq<(Seq<char>, JsonObjectView)>),
}

impl View for JsonMember {
    type V = JsonMemberView;

    open spec fn view(&self) -> JsonMemberView {
        match self {
            JsonMember::Object(o) => JsonMemberView::Object(o@),
            JsonMember::Objects(v) => JsonMemberView::Objects(objects_view(v@)),
        }
    }
}

/// A JSON document of three levels: members, objects, scalars.
#[derive(Clone)]
pub struct JsonDocument {
    pub members: Vec<(String, JsonMember)>,
}

/// Model of a [`JsonDocument`].
pub struct JsonDocumentView {
    pub members: Seq<(Seq<char>, JsonMemberView)>,
}

impl View for JsonDocument {
    type V = JsonDocumentView;

    open spec fn view(&self) -> JsonDocumentView {
        JsonDocumentView { members: self.members@.map_values(|m: (String, JsonMember)| (m.0@, m.1@)) }
    }
}

/// The UTF-8 bytes of the JSON text that `serde_json`'s `Value::to_string` writes
/// for the document, each object made a `serde_json::Map` member by member.
pub uninterp spec fn json_document_text(doc: JsonDocumentView) -> Seq<u8>;

/// Converts the document member for member into a `serde_json::Value` and
/// writes it with `serde_json`'s `Value::to_string`.
///
/// Trusted: the bytes are what `json_document_text` names for the document.
/// Nothing is stated of that text here; `serde_json` decides it.
#[verifier::external_body]
pub(crate) fn json_document_bytes(doc: &JsonDocument) -> (r: Vec<u8>)
    ensures
        r@ == json_document_text(doc@),
{
    let object = |o: &JsonObject| Value::Object(o.members.iter().map(|(k, v)| (k.clone(), match v {
        JsonLeaf::Text(s) => Value::from(s.as_str()),
        JsonLeaf::Number(n) => Value::from(*n),
    })).collect());
    Value::Object(doc.members.iter().map(|(k, m)| (k.clone(), match m {
        JsonMember::Object(o) => object(o),
        JsonMember::Objects(os) => Value::Object(os.iter().map(|(k, o)| (k.clone(), object(o))).collect()),
    })).collect()).to_string().into_bytes()
}

/// A member that holds text.
pub open spec fn text_member(key: Seq<char>, value: Seq<char>) -> (Seq<char>, JsonLeafView) {
    (key, JsonLeafView::Text(value))
}

/// A member that holds a number.
pub open spec fn number_member(key: Seq<char>, value: u32) -> (Seq<char>, JsonLeafView) {
    (key, JsonLeafView::Number(value))
}

/// The members that follow the topics in an entity's component: the range and
/// control of a number, or the payloads of a switch.
pub open spec fn entity_extra_members(e: Entity) -> Seq<(Seq<char>, JsonLeafView)> {
    match e {
        Entity::Brightness | Entity::BrightnessDimmed | Entity::BrightnessFull => seq![
            number_member("min"@, 1),
            number_member("max"@, 255),
            text_member("mode"@, "slider"@),
            number_member("step"@, 1),
        ],
        Entity::TimeoutSec => seq![
            number_member("min"@, 1),
            number_member("max"@, 86400),
            text_member("mode"@, "box"@),
            number_member("step"@, 1),
            text_member("unit_of_measurement"@, "seconds"@),
        ],
        _ => seq![
            text_member("payload_on"@, "on"@),
            text_member("payload_off"@, "off"@),
            text_member("payload_available"@, PAYLOAD_AVAILABLE@),
            text_member("payload_not_available"@, PAYLOAD_NOT_AVAILABLE@),
        ],
    }
}

/// The component of an entity in the discovery document: its platform, the
/// device class of the backlight switch, its unique id and name, its state,
/// command and availability topics, then its extra members.
pub open spec fn component_spec(prefix: Seq<char>, device_id: Seq<char>, e: Entity) -> JsonObjectView {
    JsonObjectView {
        members: seq![text_member("p"@, if entity_is_switch(e) { "switch"@ } else { "number"@ })]
            + (if e == Entity::PowerState {
            seq![text_member("device_class"@, "switch"@)]
        } else {
            Seq::empty()
        }) + seq![
            text_member("unique_id"@, device_id + entity_unique_id_suffix(e)),
            text_member("name"@, entity_display_name(e)),
            text_member("state_topic"@, entity_topic(prefix, e, "/state"@)),
            text_member("command_topic"@, entity_topic(prefix, e, "/set"@)),
            text_member("availability_topic"@, entity_topic(prefix, e, "/available"@)),
        ] + entity_extra_members(e),
    }
}

/// The components of all entities, under their keys, in the order of the keys.
pub open spec fn components_spec(prefix: Seq<char>, device_id: Seq<char>) -> Seq<(Seq<char>, JsonObjectView)> {
    discovery_order().map_values(|e: Entity| (entity_key(e), component_spec(prefix, device_id, e)))
}

/// The discovery document: the device (`dev`), the software it runs (`o`) and
/// the components of its entities (`cmps`).
pub open spec fn discovery_spec(prefix: Seq<char>, device_id: Seq<char>, device_name: Seq<char>) -> JsonDocumentView {
    JsonDocumentView {
        members: seq![
            (
                "dev"@,
                JsonMemberView::Object(
                    JsonObjectView {
                        members: seq![
                            text_member("ids"@, device_id),
                            text_member("name"@, device_name),
                            text_member("sw"@, SOFTWARE_VERSION@),
                        ],
                    },
                ),
            ),
            (
                "o"@,
                JsonMemberView::Object(
                    JsonObjectView {
                        members: seq![
                            text_member("name"@, ORIGIN_NAME@),
                            text_member("sw"@, SOFTWARE_VERSION@),
                            text_member("url"@, ORIGIN_URL@),
                        ],
                    },
                ),
            ),
            ("cmps"@, JsonMemberView::Objects(components_spec(prefix, device_id))),
        ],
    }
}

fn push_text(members: &mut Vec<(String, JsonLeaf)>, key: &str, value: String)
    ensures
        members_view(final(members)@) == members_view(old(members)@).push(text_member(key@, value@)),
{
    let ghost before = members@;
    members.push((String::from_str(key), JsonLeaf::Text(value)));
    proof {
        assert(members_view(members@) =~= members_view(before).push(text_member(key@, value@)));
    }
}

fn push_number(members: &mut Vec<(String, JsonLeaf)>, key: &str, value: u32)
    ensures
        members_view(final(members)@) == members_view(old(members)@).push(number_member(key@, value)),
{
    let ghost before = members@;
    members.push((String::from_str(key), JsonLeaf::Number(value)));
    proof {
        assert(members_view(members@) =~= members_view(before).push(number_member(key@, value)));
    }
}

fn push_extra_members(members: &mut Vec<(String, JsonLeaf)>, e: Entity)
    ensures
        members_view(final(members)@) == members_view(old(members)@) + entity_extra_members(e),
{
    let ghost before = members_view(members@);
    match e.number_settings() {
        Some(n) => {
            push_number(members, "min", n.min);
            push_number(members, "max", n.max);
            push_text(members, "mode", String::from_str(n.mode));
            push_number(members, "step", n.step);
            match n.unit_of_measurement {
                Some(unit) => push_text(members, "unit_of_measurement", String::from_str(unit)),
                None => {},
            }
        },
        None => {
            push_text(members, "payload_on", String::from_str(bool_to_mqtt_payload(true)));
            push_text(members, "payload_off", String::from_str(bool_to_mqtt_payload(false)));
            push_text(members, "payload_available", String::from_str(PAYLOAD_AVAILABLE));
            push_text(members, "payload_not_available", String::from_str(PAYLOAD_NOT_AVAILABLE));
        },
    }
    proof {
        assert(members_view(members@) =~= before + entity_extra_members(e));
    }
}

/// The component of an entity in the discovery document.
pub fn component_object(prefix: &String, device_id: &String, e: Entity) -> (o: JsonObject)
    ensures
        o@ == component_spec(prefix@, device_id@, e),
{
    let mut m: Vec<(String, JsonLeaf)> = Vec::new();
    push_text(&mut m, "p", String::from_str(if e.is_switch() { "switch" } else { "number" }));
    match e.device_class() {
        Some(class) => push_text(&mut m, "device_class", String::from_str(class)),
        None => {},
    }
    let ghost head = members_view(m@);
    let mut unique_id = device_id.clone();
    unique_id.append(e.unique_id_suffix());
    push_text(&mut m, "unique_id", unique_id);
    push_text(&mut m, "name", String::from_str(e.display_name()));
    push_text(&mut m, "state_topic", topic_string(prefix, e, "/state"));
    push_text(&mut m, "command_topic", topic_string(prefix, e, "/set"));
    push_text(&mut m, "availability_topic", topic_string(prefix, e, "/available"));
    let ghost middle = members_view(m@);
    push_extra_members(&mut m, e);
    proof {
        let spec = component_spec(prefix@, device_id@, e).members;
        assert(head =~= seq![text_member("p"@, if entity_is_switch(e) { "switch"@ } else { "number"@ })]
            + (if e == Entity::PowerState {
            seq![text_member("device_class"@, "switch"@)]
        } else {
            Seq::empty()
        }));
        assert(middle =~= head + seq![
            text_member("unique_id"@, device_id@ + entity_unique_id_suffix(e)),
            text_member("name"@, entity_display_name(e)),
            text_member("state_topic"@, entity_topic(prefix@, e, "/state"@)),
            text_member("command_topic"@, entity_topic(prefix@, e, "/set"@)),
            text_member("availability_topic"@, entity_topic(prefix@, e, "/available"@)),
        ]);
        assert(members_view(m@) =~= spec);
    }
    JsonObject { members: m }
}

fn text_object(k1: &str, v1: String, k2: &str, v2: String, k3: &str, v3: String) -> (o: JsonObject)
    ensures
        o@.members == seq![text_member(k1@, v1@), text_member(k2@, v2@), text_member(k3@, v3@)],
{
    let mut m: Vec<(String, JsonLeaf)> = Vec::new();
    push_text(&mut m, k1, v1);
    push_text(&mut m, k2, v2);
    push_text(&mut m, k3, v3);
    proof {
        assert(members_view(m@) =~= seq![text_member(k1@, v1@), text_member(k2@, v2@), text_member(k3@, v3@)]);
    }
    JsonObject { members: m }
}

/// The discovery document of a device with the given topic prefix, id and name.
pub fn discovery_document(prefix: &String, device_id: &String, device_name: &String) -> (d: JsonDocument)
    ensures
        d@ == discovery_spec(prefix@, device_id@, device_name@),
{
    let order = Entity::discovery_order();
    let mut components: Vec<(String, JsonObject)> = Vec::new();
    let mut i: usize = 0;
    while i < order.len()
        invariant
            i <= order@.len(),
            order@ == discovery_order(),
            objects_view(components@) == order@.take(i as int).map_values(
                |e: Entity| (entity_key(e), component_spec(prefix@, device_id@, e)),
            ),
        decreases order.len() - i,
    {
        let e = order[i];
        let component = (String::from_str(e.key()), component_object(prefix, device_id, e));
        let ghost prev = components@;
        components.push(component);
        proof {
            assert(objects_view(components@) =~= objects_view(prev).push((component.0@, component.1@)));
            assert(order@.take(i + 1) =~= order@.take(i as int).push(e));
            assert(order@.take(i + 1).map_values(|e: Entity| (entity_key(e), component_spec(prefix@, device_id@, e)))
                =~= order@.take(i as int).map_values(
                |e: Entity| (entity_key(e), component_spec(prefix@, device_id@, e)),
            ).push((entity_key(e), component_spec(prefix@, device_id@, e))));
        }
        i = i + 1;
    }
    proof {
        assert(order@.take(order@.len() as int) =~= order@);
    }
    let device = text_object("ids", device_id.clone(), "name", device_name.clone(), "sw", String::from_str(SOFTWARE_VERSION));
    let origin = text_object(
        "name",
        String::from_str(ORIGIN_NAME),
        "sw",
        String::from_str(SOFTWARE_VERSION),
        "url",
        String::from_str(ORIGIN_URL),
    );
    let mut members: Vec<(String, JsonMember)> = Vec::new();
    members.push((String::from_str("dev"), JsonMember::Object(device)));
    members.push((String::from_str("o"), JsonMember::Object(origin)));
    members.push((String::from_str("cmps"), JsonMember::Objects(components)));
    let d = JsonDocument { members };
    proof {
        assert(d@.members =~= discovery_spec(prefix@, device_id@, device_name@).members);
    }
    d
}

/// Different entities have different unique ids.
pub proof fn lemma_unique_ids_distinct(device_id: Seq<char>, a: Entity, b: Entity)
    requires
        a != b,
    ensures
        device_id + entity_unique_id_suffix(a) != device_id + entity_unique_id_suffix(b),
{
    reveal_strlit("_power");
    reveal_strlit("_brightness");
    reveal_strlit("_use_dimmer");
    reveal_strlit("_power_dimmed");
    reveal_strlit("_brightness_dimmed");
    reveal_strlit("_brightness_full");
    reveal_strlit("_timeout_sec");
    let ia = device_id + entity_unique_id_suffix(a);
    let ib = device_id + entity_unique_id_suffix(b);
    if ia == ib {
        let n = device_id.len() as int;
        assert(ia.subrange(n, ia.len() as int) =~= entity_unique_id_suffix(a));
        assert(ib.subrange(n, ib.len() as int) =~= entity_unique_id_suffix(b));
        let sa = entity_unique_id_suffix(a);
        let sb = entity_unique_id_suffix(b);
        assert(sa.len() == sb.len());
        assert(sa[1] == sb[1]);
        assert(sa[7] == sb[7]);
    }
}

/// The discovery document lists every entity once, under its own key, with
/// the topics on which the device publishes and listens for it.
pub proof fn lemma_discovery_components(prefix: Seq<char>, device_id: Seq<char>, device_name: Seq<char>, i: int)
    requires
        0 <= i < 7,
    ensures
        ({
            let doc = discovery_spec(prefix, device_id, device_name);
            let cmps = doc.members[2].1;
            let e = discovery_order()[i];
            &&& doc.members.len() == 3
            &&& cmps matches JsonMemberView::Objects(components) && components.len() == 7 && components[i].0
                == entity_key(e) && components[i].1 == component_spec(prefix, device_id, e)
        }),
{
}

/// Each brightness entity is announced with the range 1 to 255, and 255 is
/// its only announced maximum: the whole range that its commands accept, as a
/// command of 255 is taken and one of 256 refused.
pub proof fn lemma_brightness_range_announced(prefix: Seq<char>, device_id: Seq<char>, e: Entity, s: State, m: u32)
    requires
        e == Entity::Brightness || e == Entity::BrightnessDimmed || e == Entity::BrightnessFull,
    ensures
        component_spec(prefix, device_id, e).members.contains(("min"@, JsonLeafView::Number(1))),
        component_spec(prefix, device_id, e).members.contains(("max"@, JsonLeafView::Number(255))),
        component_spec(prefix, device_id, e).members.contains(("max"@, JsonLeafView::Number(m))) ==> m == 255,
        commanded_state(e, s, encode_utf8(decimal(255))) is Some,
        commanded_state(e, s, encode_utf8(decimal(256))) is None,
{
    reveal_strlit("min");
    reveal_strlit("max");
    reveal_strlit("step");
    let members = component_spec(prefix, device_id, e).members;
    assert(members.len() == 10);
    assert(members[6] == ("min"@, JsonLeafView::Number(1)));
    assert(members[7] == ("max"@, JsonLeafView::Number(255)));
    if members.contains(("max"@, JsonLeafView::Number(m))) {
        let k = choose|k: int| 0 <= k < members.len() && members[k] == ("max"@, JsonLeafView::Number(m));
        assert("min"@ != "max"@) by {
            assert("min"@[1] != "max"@[1]);
        }
        assert("step"@.len() != "max"@.len());
        assert(k == 7);
    }
    lemma_number_payload_round_trip(255, 255);
    lemma_decimal_digits(256);
    encode_utf8_valid_utf8(decimal(256));
    encode_utf8_decode_utf8(decimal(256));
}

/// The component of each entity announces the topics on which the device
/// publishes its value, takes its commands and tells its availability, and
/// the device id followed by the entity's suffix as its unique id; the command
/// topic it announces leads to that entity when a command arrives.
pub proof fn lemma_component_topics(prefix: Seq<char>, device_id: Seq<char>, e: Entity)
    ensures
        component_spec(prefix, device_id, e).members.contains(
            ("state_topic"@, JsonLeafView::Text(prefix + "/"@ + entity_key(e) + "/state"@)),
        ),
        component_spec(prefix, device_id, e).members.contains(
            ("command_topic"@, JsonLeafView::Text(prefix + "/"@ + entity_key(e) + "/set"@)),
        ),
        component_spec(prefix, device_id, e).members.contains(
            ("availability_topic"@, JsonLeafView::Text(prefix + "/"@ + entity_key(e) + "/available"@)),
        ),
        component_spec(prefix, device_id, e).members.contains(
            ("unique_id"@, JsonLeafView::Text(device_id + entity_unique_id_suffix(e))),
        ),
        commanded_entity(prefix, prefix + "/"@ + entity_key(e) + "/set"@) == Some(e),
{
    let members = component_spec(prefix, device_id, e).members;
    let k: int = if e == Entity::PowerState { 2 } else { 1 };
    assert(members[k] == ("unique_id"@, JsonLeafView::Text(device_id + entity_unique_id_suffix(e))));
    assert(members[k + 2] == ("state_topic"@, JsonLeafView::Text(prefix + "/"@ + entity_key(e) + "/state"@)));
    assert(members[k + 3] == ("command_topic"@, JsonLeafView::Text(prefix + "/"@ + entity_key(e) + "/set"@)));
    assert(members[k + 4] == ("availability_topic"@, JsonLeafView::Text(prefix + "/"@ + entity_key(e) + "/available"@)));
    lemma_commanded_entity(prefix, e);
}

} // verus!
