//! What the daemon publishes: its decision as Home Assistant entities through
//! MQTT discovery, its availability, and a heartbeat for staleness alerts.
//!
//! Every publication is retained and delivered at least once.
use crate::decide::{Desired, FanMode};
use crate::json::{
    content, decimal_value, fields, flag_value, is_one_place, json_text, list_value,
    new_object, no_fields, object_value, render, set_field, text_value, JsonData,
};
use crate::state::{EnergyPeriod, HvacMode, Inputs, Occupancy};
use crate::text::{
    decimal, decimal_text, law_text_spells_one_setpoint, law_written_setpoint_spells_itself,
    lemma_tenths_parts, one_place, one_place_text, spells_tenths, tenths, tenths_text,
};
use serde_json::Value;
use vstd::prelude::*;

verus! {

pub const CLIENT_ID: &'static str = "homeostat";

pub const TOPIC_STATUS: &'static str = "homeostat/status";

pub const TOPIC_STATE: &'static str = "homeostat/desired/state";

pub const TOPIC_ATTRS: &'static str = "homeostat/desired/attributes";

pub const TOPIC_HEARTBEAT: &'static str = "homeostat/heartbeat";

pub const KEEP_ALIVE_SECS: u64 = 30;

pub const RETRY_SECS: u64 = 5;

pub const QUEUE_LENGTH: usize = 16;

/// How hard the broker tries to deliver a message.
#[derive(Clone, Copy, Debug, PartialEq, Eq, Structural)]
pub enum Delivery {
    AtMostOnce,
    AtLeastOnce,
    ExactlyOnce,
}

/// A message for the broker.
#[derive(Debug)]
pub struct Publication {
    pub topic: String,
    pub payload: String,
    /// The broker keeps the message for those who subscribe later.
    pub retain: bool,
    pub delivery: Delivery,
}

impl Publication {
    /// The message says `payload` on `topic`, to be retained and delivered at
    /// least once.
    pub open spec fn says(self, topic: Seq<char>, payload: Seq<char>) -> bool {
        &&& self.topic@ == topic
        &&& self.payload@ == payload
        &&& self.retain
        &&& self.delivery == Delivery::AtLeastOnce
    }

    fn retained(topic: String, payload: String) -> (message: Publication)
        ensures
            message.says(topic@, payload@),
    {
        Publication { topic, payload, retain: true, delivery: Delivery::AtLeastOnce }
    }
}

/// What the broker says on the daemon's behalf when it dies.
pub fn last_will() -> (message: Publication)
    ensures
        message.says(TOPIC_STATUS@, "offline"@),
{
    Publication::retained(TOPIC_STATUS.to_owned(), "offline".to_owned())
}

/// What the daemon says once it is up.
pub fn online() -> (message: Publication)
    ensures
        message.says(TOPIC_STATUS@, "online"@),
{
    Publication::retained(TOPIC_STATUS.to_owned(), "online".to_owned())
}

/// The heartbeat: the time, in seconds since the epoch.
pub fn heartbeat(now: u64) -> (message: Publication)
    ensures
        message.says(TOPIC_HEARTBEAT@, decimal(now as nat)),
{
    Publication::retained(TOPIC_HEARTBEAT.to_owned(), decimal_text(now))
}

/// The device that all entities belong to.
pub open spec fn device() -> JsonData {
    JsonData::Object(
        no_fields().insert("identifiers"@, JsonData::List(seq![JsonData::Text(CLIENT_ID@)])).insert(
            "name"@,
            JsonData::Text("Homeostat"@),
        ),
    )
}

fn device_value() -> (value: Value)
    ensures
        content(value) == device(),
{
    let mut identifiers: Vec<Value> = Vec::new();
    identifiers.push(text_value(CLIENT_ID));
    let ghost listed = identifiers@.map_values(|item: Value| content(item));
    assert(listed =~= seq![JsonData::Text(CLIENT_ID@)]);
    let mut object = new_object();
    set_field(&mut object, "identifiers", list_value(identifiers));
    set_field(&mut object, "name", text_value("Homeostat"));
    object_value(object)
}

/// The part of a discovery configuration that every entity has.
pub open spec fn common_config(object_id: Seq<char>, state_topic: Seq<char>) -> Map<
    Seq<char>,
    JsonData,
> {
    no_fields().insert("name"@, JsonData::Text(object_id)).insert(
        "unique_id"@,
        JsonData::Text(object_id),
    ).insert("object_id"@, JsonData::Text(object_id)).insert(
        "state_topic"@,
        JsonData::Text(state_topic),
    ).insert("availability_topic"@, JsonData::Text(TOPIC_STATUS@)).insert("device"@, device())
}

fn common_fields(object_id: &str, state_topic: &str) -> (object: serde_json::Map<String, Value>)
    ensures
        fields(object) == common_config(object_id@, state_topic@),
{
    let mut object = new_object();
    set_field(&mut object, "name", text_value(object_id));
    set_field(&mut object, "unique_id", text_value(object_id));
    set_field(&mut object, "object_id", text_value(object_id));
    set_field(&mut object, "state_topic", text_value(state_topic));
    set_field(&mut object, "availability_topic", text_value(TOPIC_STATUS));
    set_field(&mut object, "device", device_value());
    object
}

/// Where an entity's discovery configuration goes.
pub open spec fn config_topic(component: Seq<char>, object_id: Seq<char>) -> Seq<char> {
    "homeassistant/"@ + component + "/"@ + object_id + "/config"@
}

fn config_topic_text(component: &str, object_id: &str) -> (topic: String)
    ensures
        topic@ == config_topic(component@, object_id@),
{
    let mut topic = "homeassistant/".to_owned();
    topic.append(component);
    topic.append("/");
    topic.append(object_id);
    topic.append("/config");
    topic
}

/// The configuration of the decision itself: one state that carries mode,
/// setpoint and fan together, with the rest as attributes.
pub open spec fn decision_config() -> JsonData {
    JsonData::Object(
        common_config("homeostat_desired"@, TOPIC_STATE@).insert(
            "json_attributes_topic"@,
            JsonData::Text(TOPIC_ATTRS@),
        ).insert("icon"@, JsonData::Text("mdi:robot"@)),
    )
}

/// The configuration of an entity that shows one value out of the attributes.
pub open spec fn view_config(
    object_id: Seq<char>,
    template: Seq<char>,
    unit: Option<Seq<char>>,
) -> JsonData {
    let config = common_config(object_id, TOPIC_ATTRS@).insert(
        "value_template"@,
        JsonData::Text(template),
    );
    match unit {
        Some(unit) => JsonData::Object(
            config.insert("unit_of_measurement"@, JsonData::Text(unit)),
        ),
        None => JsonData::Object(config),
    }
}

fn decision_announcement() -> (message: Publication)
    ensures
        message.says(
            config_topic("sensor"@, "homeostat_desired"@),
            json_text(decision_config()),
        ),
{
    let mut object = common_fields("homeostat_desired", TOPIC_STATE);
    set_field(&mut object, "json_attributes_topic", text_value(TOPIC_ATTRS));
    set_field(&mut object, "icon", text_value("mdi:robot"));
    Publication::retained(
        config_topic_text("sensor", "homeostat_desired"),
        render(&object_value(object)),
    )
}

fn plain_view_announcement(component: &str, object_id: &str, template: &str) -> (message:
    Publication)
    ensures
        message.says(
            config_topic(component@, object_id@),
            json_text(view_config(object_id@, template@, None)),
        ),
{
    let mut object = common_fields(object_id, TOPIC_ATTRS);
    set_field(&mut object, "value_template", text_value(template));
    Publication::retained(
        config_topic_text(component, object_id),
        render(&object_value(object)),
    )
}

fn measured_view_announcement(object_id: &str, template: &str, unit: &str) -> (message: Publication)
    ensures
        message.says(
            config_topic("sensor"@, object_id@),
            json_text(view_config(object_id@, template@, Some(unit@))),
        ),
{
    let mut object = common_fields(object_id, TOPIC_ATTRS);
    set_field(&mut object, "value_template", text_value(template));
    set_field(&mut object, "unit_of_measurement", text_value(unit));
    Publication::retained(
        config_topic_text("sensor", object_id),
        render(&object_value(object)),
    )
}

/// The discovery configurations: the decision, and one view per value of it.
pub open spec fn is_discovery(messages: Seq<Publication>) -> bool {
    &&& messages.len() == 6
    &&& messages[0].says(
        config_topic("sensor"@, "homeostat_desired"@),
        json_text(decision_config()),
    )
    &&& messages[1].says(
        config_topic("sensor"@, "homeostat_desired_main_setpoint"@),
        json_text(
            view_config(
                "homeostat_desired_main_setpoint"@,
                "{{ value_json.main_setpoint }}"@,
                Some("°C"@),
            ),
        ),
    )
    &&& messages[2].says(
        config_topic("sensor"@, "homeostat_desired_main_mode"@),
        json_text(
            view_config(
                "homeostat_desired_main_mode"@,
                "{{ value_json.main_mode }}"@,
                None,
            ),
        ),
    )
    &&& messages[3].says(
        config_topic("sensor"@, "homeostat_desired_fan_mode"@),
        json_text(
            view_config("homeostat_desired_fan_mode"@, "{{ value_json.fan_mode }}"@, None),
        ),
    )
    &&& messages[4].says(
        config_topic("sensor"@, "homeostat_desired_aux_zone_setpoint"@),
        json_text(
            view_config(
                "homeostat_desired_aux_zone_setpoint"@,
                "{{ value_json.aux_zone_setpoint }}"@,
                Some("°C"@),
            ),
        ),
    )
    &&& messages[5].says(
        config_topic("binary_sensor"@, "homeostat_desired_load_shed"@),
        json_text(
            view_config(
                "homeostat_desired_load_shed"@,
                "{{ 'ON' if value_json.shed_loads else 'OFF' }}"@,
                None,
            ),
        ),
    )
}

/// Announces the decision, and one view per value of it.
pub fn discovery() -> (messages: Vec<Publication>)
    ensures
        is_discovery(messages@),
{
    let mut messages: Vec<Publication> = Vec::new();
    messages.push(decision_announcement());
    messages.push(
        measured_view_announcement(
            "homeostat_desired_main_setpoint",
            "{{ value_json.main_setpoint }}",
            "°C",
        ),
    );
    messages.push(
        plain_view_announcement(
            "sensor",
            "homeostat_desired_main_mode",
            "{{ value_json.main_mode }}",
        ),
    );
    messages.push(
        plain_view_announcement(
            "sensor",
            "homeostat_desired_fan_mode",
            "{{ value_json.fan_mode }}",
        ),
    );
    messages.push(
        measured_view_announcement(
            "homeostat_desired_aux_zone_setpoint",
            "{{ value_json.aux_zone_setpoint }}",
            "°C",
        ),
    );
    messages.push(
        plain_view_announcement(
            "binary_sensor",
            "homeostat_desired_load_shed",
            "{{ 'ON' if value_json.shed_loads else 'OFF' }}",
        ),
    );
    messages
}

/// The state of the decision entity: mode, setpoint and fan as one string.
pub open spec fn state_text(desired: Desired) -> Seq<char> {
    desired.main_mode.word() + "/"@ + tenths(desired.main_setpoint as nat) + "/"@
        + desired.fan_mode.word()
}

/// The attributes of the decision entity.
pub open spec fn attributes(desired: Desired, inputs: Seq<char>) -> JsonData {
    JsonData::Object(
        no_fields().insert("main_mode"@, JsonData::Text(desired.main_mode.word())).insert(
            "main_setpoint"@,
            JsonData::Decimal(one_place(desired.main_setpoint as nat)),
        ).insert("fan_mode"@, JsonData::Text(desired.fan_mode.word())).insert(
            "aux_zone_setpoint"@,
            JsonData::Decimal(one_place(desired.aux_zone_setpoint as nat)),
        ).insert("shed_loads"@, JsonData::Flag(desired.shed_loads)).insert(
            "inputs"@,
            JsonData::Text(inputs),
        ),
    )
}

/// The messages that publish a decision: its state, then its attributes.
/// `inputs` describes what the decision was made from.
pub fn publish_desired(desired: &Desired, inputs: &str) -> (messages: Vec<Publication>)
    ensures
        messages@.len() == 2,
        messages@[0].says(TOPIC_STATE@, state_text(*desired)),
        messages@[1].says(TOPIC_ATTRS@, json_text(attributes(*desired, inputs@))),
{
    let mut state = desired.main_mode.as_str().to_owned();
    state.append("/");
    state.append(tenths_text(desired.main_setpoint).as_str());
    state.append("/");
    state.append(desired.fan_mode.as_str());

    let main_setpoint = one_place_text(desired.main_setpoint);
    let aux_zone_setpoint = one_place_text(desired.aux_zone_setpoint);
    assert(is_one_place(main_setpoint@));
    assert(is_one_place(aux_zone_setpoint@));
    let mut object = new_object();
    set_field(&mut object, "main_mode", text_value(desired.main_mode.as_str()));
    set_field(&mut object, "main_setpoint", decimal_value(main_setpoint.as_str()));
    set_field(&mut object, "fan_mode", text_value(desired.fan_mode.as_str()));
    set_field(&mut object, "aux_zone_setpoint", decimal_value(aux_zone_setpoint.as_str()));
    set_field(&mut object, "shed_loads", flag_value(desired.shed_loads));
    set_field(&mut object, "inputs", text_value(inputs));

    let mut messages: Vec<Publication> = Vec::new();
    messages.push(Publication::retained(TOPIC_STATE.to_owned(), state));
    messages.push(Publication::retained(TOPIC_ATTRS.to_owned(), render(&object_value(object))));
    messages
}

pub open spec fn occupancy_name(occupancy: Occupancy) -> Seq<char> {
    match occupancy {
        Occupancy::Home => "Home"@,
        Occupancy::HomeAsleep => "HomeAsleep"@,
        Occupancy::AwayReturning => "AwayReturning"@,
        Occupancy::Away => "Away"@,
        Occupancy::AwayFar => "AwayFar"@,
    }
}

pub open spec fn period_name(period: EnergyPeriod) -> Seq<char> {
    match period {
        EnergyPeriod::Normal => "Normal"@,
        EnergyPeriod::Preheat => "Preheat"@,
        EnergyPeriod::Peak => "Peak"@,
    }
}

pub open spec fn mode_name(mode: HvacMode) -> Seq<char> {
    match mode {
        HvacMode::Heat => "Heat"@,
        HvacMode::Cool => "Cool"@,
        HvacMode::Circulate => "Circulate"@,
        HvacMode::Off => "Off"@,
    }
}

pub open spec fn flag_name(flag: bool) -> Seq<char> {
    if flag {
        "true"@
    } else {
        "false"@
    }
}

/// A picture of the house in words, with the hold as `hold` spells it.
pub open spec fn description(inputs: Inputs, hold: Seq<char>) -> Seq<char> {
    "Inputs { occupancy: "@ + occupancy_name(inputs.occupancy) + ", energy_period: "@ + period_name(
        inputs.energy_period,
    ) + ", main_mode: "@ + mode_name(inputs.main_mode) + ", aux_zone_occupied: "@ + flag_name(
        inputs.aux_zone_occupied,
    ) + ", comfort_setpoint: "@ + hold + ", back_during_recovery: "@ + flag_name(
        inputs.back_during_recovery,
    ) + " }"@
}

fn flag_word(flag: bool) -> (word: &'static str)
    ensures
        word@ == flag_name(flag),
{
    if flag {
        "true"
    } else {
        "false"
    }
}

/// Describes what a decision was made from. `hold` is the manual hold as text.
pub fn describe(inputs: &Inputs, hold: &str) -> (text: String)
    ensures
        text@ == description(*inputs, hold@),
{
    let mut text = "Inputs { occupancy: ".to_owned();
    text.append(
        match inputs.occupancy {
            Occupancy::Home => "Home",
            Occupancy::HomeAsleep => "HomeAsleep",
            Occupancy::AwayReturning => "AwayReturning",
            Occupancy::Away => "Away",
            Occupancy::AwayFar => "AwayFar",
        },
    );
    text.append(", energy_period: ");
    text.append(
        match inputs.energy_period {
            EnergyPeriod::Normal => "Normal",
            EnergyPeriod::Preheat => "Preheat",
            EnergyPeriod::Peak => "Peak",
        },
    );
    text.append(", main_mode: ");
    text.append(
        match inputs.main_mode {
            HvacMode::Heat => "Heat",
            HvacMode::Cool => "Cool",
            HvacMode::Circulate => "Circulate",
            HvacMode::Off => "Off",
        },
    );
    text.append(", aux_zone_occupied: ");
    text.append(flag_word(inputs.aux_zone_occupied));
    text.append(", comfort_setpoint: ");
    text.append(hold);
    text.append(", back_during_recovery: ");
    text.append(flag_word(inputs.back_during_recovery));
    text.append(" }");
    text
}

/// The messages that publish a decision together with the picture that it was
/// made from. `hold` is the manual hold as text.
pub fn publish_decision(desired: &Desired, inputs: &Inputs, hold: &str) -> (messages: Vec<
    Publication,
>)
    ensures
        messages@.len() == 2,
        messages@[0].says(TOPIC_STATE@, state_text(*desired)),
        messages@[1].says(
            TOPIC_ATTRS@,
            json_text(attributes(*desired, description(*inputs, hold@))),
        ),
{
    publish_desired(desired, describe(inputs, hold).as_str())
}

/// Everything that the daemon says on its way up, in order: the discovery
/// configurations first, so that the entities exist when they turn available.
pub fn startup() -> (messages: Vec<Publication>)
    ensures
        messages@.len() > 0,
        is_discovery(messages@.drop_last()),
        messages@.last().says(TOPIC_STATUS@, "online"@),
{
    let mut messages = discovery();
    let ghost announced = messages@;
    messages.push(online());
    assert(messages@.drop_last() =~= announced);
    messages
}

/// The decision entity changes its state whenever the mode, the setpoint or the
/// fan changes: two decisions share a state only where they share all three.
pub proof fn law_state_carries_mode_setpoint_and_fan(a: Desired, b: Desired)
    requires
        state_text(a) == state_text(b),
    ensures
        a.main_mode == b.main_mode,
        a.main_setpoint == b.main_setpoint,
        a.fan_mode == b.fan_mode,
{
    reveal_strlit("/");
    lemma_words(a);
    lemma_words(b);
    lemma_tenths_parts(a.main_setpoint as nat);
    lemma_tenths_parts(b.main_setpoint as nat);
    let (sa, sb) = (tenths(a.main_setpoint as nat), tenths(b.main_setpoint as nat));
    let (ta, tb) = (sa + "/"@ + a.fan_mode.word(), sb + "/"@ + b.fan_mode.word());
    assert(state_text(a) =~= a.main_mode.word() + seq!['/'] + ta);
    assert(state_text(b) =~= b.main_mode.word() + seq!['/'] + tb);
    lemma_first_part(a.main_mode.word(), ta, b.main_mode.word(), tb);
    assert(ta =~= sa + seq!['/'] + a.fan_mode.word());
    assert(tb =~= sb + seq!['/'] + b.fan_mode.word());
    lemma_first_part(sa, a.fan_mode.word(), sb, b.fan_mode.word());
    crate::text::law_tenths_text_is_faithful(a.main_setpoint as nat, b.main_setpoint as nat);
}

/// No part holds the separator.
spec fn slash_free(s: Seq<char>) -> bool {
    forall|i: int| 0 <= i < s.len() ==> #[trigger] s[i] != '/'
}

/// Two joined texts agree in both parts where no first part holds the separator.
proof fn lemma_first_part(a: Seq<char>, x: Seq<char>, b: Seq<char>, y: Seq<char>)
    requires
        slash_free(a),
        slash_free(b),
        a + seq!['/'] + x == b + seq!['/'] + y,
    ensures
        a == b,
        x == y,
{
    let s = a + seq!['/'] + x;
    assert(s[a.len() as int] == '/');
    assert(s[b.len() as int] == '/');
    if a.len() < b.len() {
        assert(s[a.len() as int] == b[a.len() as int]);
    }
    if b.len() < a.len() {
        assert(s[b.len() as int] == a[b.len() as int]);
    }
    assert(a =~= s.take(a.len() as int));
    assert(b =~= s.take(a.len() as int));
    assert(x =~= s.skip(a.len() as int + 1));
    assert(y =~= s.skip(a.len() as int + 1));
}

/// The words of a decision's modes hold no separator, and tell the modes apart.
proof fn lemma_words(d: Desired)
    ensures
        slash_free(d.main_mode.word()),
        forall|m: HvacMode| #[trigger] m.word() == d.main_mode.word() ==> m == d.main_mode,
        forall|m: FanMode| #[trigger] m.word() == d.fan_mode.word() ==> m == d.fan_mode,
{
    reveal_strlit("heat");
    reveal_strlit("cool");
    reveal_strlit("circulate");
    reveal_strlit("off");
    reveal_strlit("on");
    reveal_strlit("auto");
    assert("heat"@[0] != "cool"@[0]);
    assert("circulate"@.len() == 9);
    assert("off"@.len() == 3);
    assert("on"@.len() == 2);
    assert("auto"@.len() == 4);
}

/// What a message says is retained by the broker and delivered at least once.
pub proof fn law_what_is_said_is_kept(message: Publication, topic: Seq<char>, payload: Seq<char>)
    ensures
        message.says(topic, payload) <==> message.topic@ == topic && message.payload@ == payload
            && message.retain && message.delivery == Delivery::AtLeastOnce,
{
}

/// The attributes carry the decision part by part, setpoints as the numbers they
/// are, together with the description of what it was made from, and nothing else.
pub proof fn law_attributes_carry_the_decision(desired: Desired, inputs: Seq<char>)
    ensures
        attributes(desired, inputs) matches JsonData::Object(carried) && {
            &&& forall|key: Seq<char>| #[trigger]
                carried.contains_key(key) <==> key == "main_mode"@ || key == "main_setpoint"@ || key
                    == "fan_mode"@ || key == "aux_zone_setpoint"@ || key == "shed_loads"@ || key
                    == "inputs"@
            &&& carried["main_mode"@] == JsonData::Text(desired.main_mode.word())
            &&& carried["main_setpoint"@] matches JsonData::Decimal(text) && spells_tenths(
                text,
                desired.main_setpoint as nat,
            )
            &&& carried["fan_mode"@] == JsonData::Text(desired.fan_mode.word())
            &&& carried["aux_zone_setpoint"@] matches JsonData::Decimal(text) && spells_tenths(
                text,
                desired.aux_zone_setpoint as nat,
            )
            &&& carried["shed_loads"@] == JsonData::Flag(desired.shed_loads)
            &&& carried["inputs"@] == JsonData::Text(inputs)
        },
{
    lemma_attribute_keys_differ();
    law_written_setpoint_spells_itself(desired.main_setpoint as nat);
    law_written_setpoint_spells_itself(desired.aux_zone_setpoint as nat);
}

/// The attributes determine the decision and what it was made from: two decisions
/// share their attributes only where they are the same in every part.
pub proof fn law_attributes_determine_the_decision(
    a: Desired,
    b: Desired,
    inputs_a: Seq<char>,
    inputs_b: Seq<char>,
)
    requires
        attributes(a, inputs_a) == attributes(b, inputs_b),
    ensures
        a.main_mode == b.main_mode,
        a.main_setpoint == b.main_setpoint,
        a.fan_mode == b.fan_mode,
        a.aux_zone_setpoint == b.aux_zone_setpoint,
        a.shed_loads == b.shed_loads,
        inputs_a == inputs_b,
{
    law_attributes_carry_the_decision(a, inputs_a);
    law_attributes_carry_the_decision(b, inputs_b);
    let carried = attributes(a, inputs_a)->Object_0;
    lemma_words(a);
    lemma_words(b);
    law_text_spells_one_setpoint(
        carried["main_setpoint"@]->Decimal_0,
        a.main_setpoint as nat,
        b.main_setpoint as nat,
    );
    law_text_spells_one_setpoint(
        carried["aux_zone_setpoint"@]->Decimal_0,
        a.aux_zone_setpoint as nat,
        b.aux_zone_setpoint as nat,
    );
}

/// The state is the mode's word, the setpoint as the number it is and the fan's
/// word, in that order, between slashes.
pub proof fn law_state_reads_mode_setpoint_fan(desired: Desired) -> (setpoint: Seq<char>)
    ensures
        state_text(desired) == desired.main_mode.word() + "/"@ + setpoint + "/"@
            + desired.fan_mode.word(),
        spells_tenths(setpoint, desired.main_setpoint as nat),
        setpoint.contains('.') <==> desired.main_setpoint % 10 != 0,
{
    law_written_setpoint_spells_itself(desired.main_setpoint as nat);
    tenths(desired.main_setpoint as nat)
}

/// Every entity is announced under its own name on the daemon's availability and
/// device, and nothing but its own part is added.
pub proof fn law_every_entity_shares_availability_and_device(
    object_id: Seq<char>,
    state_topic: Seq<char>,
)
    ensures
        ({
            let config = common_config(object_id, state_topic);
            &&& forall|key: Seq<char>| #[trigger]
                config.contains_key(key) <==> key == "name"@ || key == "unique_id"@ || key
                    == "object_id"@ || key == "state_topic"@ || key == "availability_topic"@ || key
                    == "device"@
            &&& config["name"@] == JsonData::Text(object_id)
            &&& config["unique_id"@] == JsonData::Text(object_id)
            &&& config["object_id"@] == JsonData::Text(object_id)
            &&& config["state_topic"@] == JsonData::Text(state_topic)
            &&& config["availability_topic"@] == JsonData::Text("homeostat/status"@)
            &&& config["device"@] matches JsonData::Object(device) && {
                &&& forall|key: Seq<char>| #[trigger]
                    device.contains_key(key) <==> key == "identifiers"@ || key == "name"@
                &&& device["identifiers"@] == JsonData::List(seq![JsonData::Text("homeostat"@)])
                &&& device["name"@] == JsonData::Text("Homeostat"@)
            }
        }),
{
    lemma_config_keys_differ();
}

/// The decision's entity takes its state and its attributes from the topics that
/// decisions are published on.
pub proof fn law_decision_entity_reads_what_is_published()
    ensures
        decision_config() matches JsonData::Object(config) && {
            &&& config["state_topic"@] == JsonData::Text("homeostat/desired/state"@)
            &&& config["json_attributes_topic"@] == JsonData::Text("homeostat/desired/attributes"@)
            &&& config["icon"@] == JsonData::Text("mdi:robot"@)
            &&& config.remove("json_attributes_topic"@).remove("icon"@) == common_config(
                "homeostat_desired"@,
                "homeostat/desired/state"@,
            )
        },
{
    lemma_config_keys_differ();
    let common = common_config("homeostat_desired"@, "homeostat/desired/state"@);
    law_every_entity_shares_availability_and_device(
        "homeostat_desired"@,
        "homeostat/desired/state"@,
    );
    assert(decision_config()->Object_0.remove("json_attributes_topic"@).remove("icon"@) =~= common);
}

/// A view takes its value from the published attributes by its template, and has
/// a unit exactly where it is a measurement.
pub proof fn law_view_reads_the_attributes(
    object_id: Seq<char>,
    template: Seq<char>,
    unit: Option<Seq<char>>,
)
    ensures
        view_config(object_id, template, unit) matches JsonData::Object(config) && {
            &&& config["state_topic"@] == JsonData::Text("homeostat/desired/attributes"@)
            &&& config["value_template"@] == JsonData::Text(template)
            &&& unit is Some <==> config.contains_key("unit_of_measurement"@)
            &&& unit is Some ==> config["unit_of_measurement"@] == JsonData::Text(unit->0)
            &&& config.remove("value_template"@).remove("unit_of_measurement"@) == common_config(
                object_id,
                "homeostat/desired/attributes"@,
            )
        },
{
    lemma_config_keys_differ();
    let common = common_config(object_id, "homeostat/desired/attributes"@);
    law_every_entity_shares_availability_and_device(object_id, "homeostat/desired/attributes"@);
    assert(view_config(object_id, template, unit)->Object_0.remove("value_template"@).remove(
        "unit_of_measurement"@,
    ) =~= common);
}

/// Discovery announces the decision first, and then one view for each part of it:
/// a view is named after the attribute that it shows, and its template reads that
/// attribute. Setpoints are measured in degrees.
pub proof fn law_each_view_shows_the_attribute_it_is_named_after(messages: Seq<Publication>)
    requires
        is_discovery(messages),
    ensures
        messages.len() == 6,
        messages[0].says(
            "homeassistant/"@ + "sensor"@ + "/"@ + "homeostat_desired"@ + "/config"@,
            json_text(decision_config()),
        ),
        messages[1].says(
            "homeassistant/"@ + "sensor"@ + "/"@ + ("homeostat_desired_"@ + "main_setpoint"@) + "/config"@,
            json_text(
                view_config(
                    "homeostat_desired_"@ + "main_setpoint"@,
                    "{{ value_json."@ + "main_setpoint"@ + " }}"@,
                    Some("°C"@),
                ),
            ),
        ),
        messages[2].says(
            "homeassistant/"@ + "sensor"@ + "/"@ + ("homeostat_desired_"@ + "main_mode"@) + "/config"@,
            json_text(
                view_config(
                    "homeostat_desired_"@ + "main_mode"@,
                    "{{ value_json."@ + "main_mode"@ + " }}"@,
                    None,
                ),
            ),
        ),
        messages[3].says(
            "homeassistant/"@ + "sensor"@ + "/"@ + ("homeostat_desired_"@ + "fan_mode"@) + "/config"@,
            json_text(
                view_config(
                    "homeostat_desired_"@ + "fan_mode"@,
                    "{{ value_json."@ + "fan_mode"@ + " }}"@,
                    None,
                ),
            ),
        ),
        messages[4].says(
            "homeassistant/"@ + "sensor"@ + "/"@ + ("homeostat_desired_"@ + "aux_zone_setpoint"@) + "/config"@,
            json_text(
                view_config(
                    "homeostat_desired_"@ + "aux_zone_setpoint"@,
                    "{{ value_json."@ + "aux_zone_setpoint"@ + " }}"@,
                    Some("°C"@),
                ),
            ),
        ),
        messages[5].says(
            "homeassistant/"@ + "binary_sensor"@ + "/"@ + ("homeostat_desired_"@ + "load_shed"@)
                + "/config"@,
            json_text(
                view_config(
                    "homeostat_desired_"@ + "load_shed"@,
                    "{{ 'ON' if value_json."@ + "shed_loads"@ + " else 'OFF' }}"@,
                    None,
                ),
            ),
        ),
{
    reveal_strlit("homeostat_desired_");
    reveal_strlit("{{ value_json.");
    reveal_strlit(" }}");
    reveal_strlit("main_setpoint");
    reveal_strlit("homeostat_desired_main_setpoint");
    reveal_strlit("{{ value_json.main_setpoint }}");
    assert("homeostat_desired_main_setpoint"@ =~= "homeostat_desired_"@ + "main_setpoint"@);
    assert("{{ value_json.main_setpoint }}"@ =~= "{{ value_json."@ + "main_setpoint"@ + " }}"@);
    reveal_strlit("main_mode");
    reveal_strlit("homeostat_desired_main_mode");
    reveal_strlit("{{ value_json.main_mode }}");
    assert("homeostat_desired_main_mode"@ =~= "homeostat_desired_"@ + "main_mode"@);
    assert("{{ value_json.main_mode }}"@ =~= "{{ value_json."@ + "main_mode"@ + " }}"@);
    reveal_strlit("fan_mode");
    reveal_strlit("homeostat_desired_fan_mode");
    reveal_strlit("{{ value_json.fan_mode }}");
    assert("homeostat_desired_fan_mode"@ =~= "homeostat_desired_"@ + "fan_mode"@);
    assert("{{ value_json.fan_mode }}"@ =~= "{{ value_json."@ + "fan_mode"@ + " }}"@);
    reveal_strlit("aux_zone_setpoint");
    reveal_strlit("homeostat_desired_aux_zone_setpoint");
    reveal_strlit("{{ value_json.aux_zone_setpoint }}");
    assert("homeostat_desired_aux_zone_setpoint"@ =~= "homeostat_desired_"@ + "aux_zone_setpoint"@);
    assert("{{ value_json.aux_zone_setpoint }}"@ =~= "{{ value_json."@ + "aux_zone_setpoint"@ + " }}"@);
    reveal_strlit("load_shed");
    reveal_strlit("homeostat_desired_load_shed");
    reveal_strlit("{{ 'ON' if value_json.");
    reveal_strlit("shed_loads");
    reveal_strlit(" else 'OFF' }}");
    reveal_strlit("{{ 'ON' if value_json.shed_loads else 'OFF' }}");
    assert("homeostat_desired_load_shed"@ =~= "homeostat_desired_"@ + "load_shed"@);
    assert("{{ 'ON' if value_json.shed_loads else 'OFF' }}"@ =~= "{{ 'ON' if value_json."@
        + "shed_loads"@ + " else 'OFF' }}"@);
}

/// The names that a picture is described with, each for one value.
pub proof fn law_names_tell_values_apart(
    occupancy: Occupancy,
    period: EnergyPeriod,
    mode: HvacMode,
    flag: bool,
)
    ensures
        occupancy_name(occupancy) == "Home"@ <==> occupancy == Occupancy::Home,
        occupancy_name(occupancy) == "HomeAsleep"@ <==> occupancy == Occupancy::HomeAsleep,
        occupancy_name(occupancy) == "AwayReturning"@ <==> occupancy == Occupancy::AwayReturning,
        occupancy_name(occupancy) == "Away"@ <==> occupancy == Occupancy::Away,
        occupancy_name(occupancy) == "AwayFar"@ <==> occupancy == Occupancy::AwayFar,
        period_name(period) == "Normal"@ <==> period == EnergyPeriod::Normal,
        period_name(period) == "Preheat"@ <==> period == EnergyPeriod::Preheat,
        period_name(period) == "Peak"@ <==> period == EnergyPeriod::Peak,
        mode_name(mode) == "Heat"@ <==> mode == HvacMode::Heat,
        mode_name(mode) == "Cool"@ <==> mode == HvacMode::Cool,
        mode_name(mode) == "Circulate"@ <==> mode == HvacMode::Circulate,
        mode_name(mode) == "Off"@ <==> mode == HvacMode::Off,
        flag_name(flag) == "true"@ <==> flag,
        flag_name(flag) == "false"@ <==> !flag,
{
    reveal_strlit("Home");
    reveal_strlit("HomeAsleep");
    reveal_strlit("AwayReturning");
    reveal_strlit("Away");
    reveal_strlit("AwayFar");
    reveal_strlit("Normal");
    reveal_strlit("Preheat");
    reveal_strlit("Peak");
    reveal_strlit("Heat");
    reveal_strlit("Cool");
    reveal_strlit("Circulate");
    reveal_strlit("Off");
    reveal_strlit("true");
    reveal_strlit("false");
    assert("Home"@.len() == 4 && "HomeAsleep"@.len() == 10 && "AwayReturning"@.len() == 13);
    assert("Away"@.len() == 4 && "AwayFar"@.len() == 7 && "Home"@[0] != "Away"@[0]);
    assert("Normal"@.len() == 6 && "Preheat"@.len() == 7 && "Peak"@.len() == 4);
    assert("Heat"@.len() == 4 && "Cool"@.len() == 4 && "Heat"@[0] != "Cool"@[0]);
    assert("Circulate"@.len() == 9 && "Off"@.len() == 3);
    assert("true"@.len() == 4 && "false"@.len() == 5);
}

/// The fields of the attributes have names of their own.
proof fn lemma_attribute_keys_differ()
    ensures
        "main_mode"@ != "main_setpoint"@,
        "main_mode"@ != "fan_mode"@,
        "main_mode"@ != "aux_zone_setpoint"@,
        "main_mode"@ != "shed_loads"@,
        "main_mode"@ != "inputs"@,
        "main_setpoint"@ != "fan_mode"@,
        "main_setpoint"@ != "aux_zone_setpoint"@,
        "main_setpoint"@ != "shed_loads"@,
        "main_setpoint"@ != "inputs"@,
        "fan_mode"@ != "aux_zone_setpoint"@,
        "fan_mode"@ != "shed_loads"@,
        "fan_mode"@ != "inputs"@,
        "aux_zone_setpoint"@ != "shed_loads"@,
        "aux_zone_setpoint"@ != "inputs"@,
        "shed_loads"@ != "inputs"@,
{
    reveal_strlit("main_mode");
    reveal_strlit("main_setpoint");
    reveal_strlit("fan_mode");
    reveal_strlit("aux_zone_setpoint");
    reveal_strlit("shed_loads");
    reveal_strlit("inputs");
    assert("main_mode"@.len() == 9);
    assert("main_setpoint"@.len() == 13);
    assert("fan_mode"@.len() == 8);
    assert("aux_zone_setpoint"@.len() == 17);
    assert("shed_loads"@.len() == 10);
    assert("inputs"@.len() == 6);
}

/// The fields of a discovery configuration have names of their own.
proof fn lemma_config_keys_differ()
    ensures
        "name"@ != "unique_id"@,
        "name"@ != "object_id"@,
        "name"@ != "state_topic"@,
        "name"@ != "availability_topic"@,
        "name"@ != "device"@,
        "name"@ != "json_attributes_topic"@,
        "name"@ != "icon"@,
        "name"@ != "value_template"@,
        "name"@ != "unit_of_measurement"@,
        "name"@ != "identifiers"@,
        "unique_id"@ != "object_id"@,
        "unique_id"@ != "state_topic"@,
        "unique_id"@ != "availability_topic"@,
        "unique_id"@ != "device"@,
        "unique_id"@ != "json_attributes_topic"@,
        "unique_id"@ != "icon"@,
        "unique_id"@ != "value_template"@,
        "unique_id"@ != "unit_of_measurement"@,
        "unique_id"@ != "identifiers"@,
        "object_id"@ != "state_topic"@,
        "object_id"@ != "availability_topic"@,
        "object_id"@ != "device"@,
        "object_id"@ != "json_attributes_topic"@,
        "object_id"@ != "icon"@,
        "object_id"@ != "value_template"@,
        "object_id"@ != "unit_of_measurement"@,
        "object_id"@ != "identifiers"@,
        "state_topic"@ != "availability_topic"@,
        "state_topic"@ != "device"@,
        "state_topic"@ != "json_attributes_topic"@,
        "state_topic"@ != "icon"@,
        "state_topic"@ != "value_template"@,
        "state_topic"@ != "unit_of_measurement"@,
        "state_topic"@ != "identifiers"@,
        "availability_topic"@ != "device"@,
        "availability_topic"@ != "json_attributes_topic"@,
        "availability_topic"@ != "icon"@,
        "availability_topic"@ != "value_template"@,
        "availability_topic"@ != "unit_of_measurement"@,
        "availability_topic"@ != "identifiers"@,
        "device"@ != "json_attributes_topic"@,
        "device"@ != "icon"@,
        "device"@ != "value_template"@,
        "device"@ != "unit_of_measurement"@,
        "device"@ != "identifiers"@,
        "json_attributes_topic"@ != "icon"@,
        "json_attributes_topic"@ != "value_template"@,
        "json_attributes_topic"@ != "unit_of_measurement"@,
        "json_attributes_topic"@ != "identifiers"@,
        "icon"@ != "value_template"@,
        "icon"@ != "unit_of_measurement"@,
        "icon"@ != "identifiers"@,
        "value_template"@ != "unit_of_measurement"@,
        "value_template"@ != "identifiers"@,
        "unit_of_measurement"@ != "identifiers"@,
{
    reveal_strlit("name");
    reveal_strlit("unique_id");
    reveal_strlit("object_id");
    reveal_strlit("state_topic");
    reveal_strlit("availability_topic");
    reveal_strlit("device");
    reveal_strlit("json_attributes_topic");
    reveal_strlit("icon");
    reveal_strlit("value_template");
    reveal_strlit("unit_of_measurement");
    reveal_strlit("identifiers");
    assert("name"@.len() == 4);
    assert("unique_id"@.len() == 9);
    assert("object_id"@.len() == 9);
    assert("state_topic"@.len() == 11);
    assert("availability_topic"@.len() == 18);
    assert("device"@.len() == 6);
    assert("json_attributes_topic"@.len() == 21);
    assert("icon"@.len() == 4);
    assert("value_template"@.len() == 14);
    assert("unit_of_measurement"@.len() == 19);
    assert("identifiers"@.len() == 11);
    assert("name"@[0] != "icon"@[0]);
    assert("unique_id"@[0] != "object_id"@[0]);
    assert("state_topic"@[0] != "identifiers"@[0]);
}

/// The description tells pictures apart: two pictures with the same hold are
/// described alike only where they agree in everything else.
pub proof fn law_description_tells_pictures_apart(a: Inputs, b: Inputs, hold: Seq<char>)
    requires
        description(a, hold) == description(b, hold),
    ensures
        a.occupancy == b.occupancy,
        a.energy_period == b.energy_period,
        a.main_mode == b.main_mode,
        a.aux_zone_occupied == b.aux_zone_occupied,
        a.back_during_recovery == b.back_during_recovery,
{
    lemma_description_parts(a, hold);
    lemma_description_parts(b, hold);
    lemma_commas_end_names(a);
    lemma_commas_end_names(b);
    lemma_same_ends("Inputs { occupancy: "@, from_occupancy(a, hold), from_occupancy(b, hold));
    lemma_same_heads(
        occupancy_name(a.occupancy),
        ", energy_period: "@ + from_period(a, hold),
        occupancy_name(b.occupancy),
        ", energy_period: "@ + from_period(b, hold),
    );
    lemma_same_ends(", energy_period: "@, from_period(a, hold), from_period(b, hold));
    lemma_same_heads(
        period_name(a.energy_period),
        ", main_mode: "@ + from_mode(a, hold),
        period_name(b.energy_period),
        ", main_mode: "@ + from_mode(b, hold),
    );
    lemma_same_ends(", main_mode: "@, from_mode(a, hold), from_mode(b, hold));
    lemma_same_heads(
        mode_name(a.main_mode),
        ", aux_zone_occupied: "@ + from_aux(a, hold),
        mode_name(b.main_mode),
        ", aux_zone_occupied: "@ + from_aux(b, hold),
    );
    lemma_same_ends(", aux_zone_occupied: "@, from_aux(a, hold), from_aux(b, hold));
    let (ha, hb) = (hold + from_back(a), hold + from_back(b));
    lemma_same_heads(
        flag_name(a.aux_zone_occupied),
        ", comfort_setpoint: "@ + ha,
        flag_name(b.aux_zone_occupied),
        ", comfort_setpoint: "@ + hb,
    );
    lemma_same_ends(", comfort_setpoint: "@, ha, hb);
    lemma_same_ends(hold, from_back(a), from_back(b));
    let (fa, fb) = (flag_name(a.back_during_recovery), flag_name(b.back_during_recovery));
    lemma_same_ends(", back_during_recovery: "@, fa + " }"@, fb + " }"@);
    assert(fa =~= (fa + " }"@).take((fa + " }"@).len() - " }"@.len()));
    assert(fb =~= (fb + " }"@).take((fb + " }"@).len() - " }"@.len()));
    law_names_tell_values_apart(a.occupancy, a.energy_period, a.main_mode, a.aux_zone_occupied);
    law_names_tell_values_apart(b.occupancy, b.energy_period, b.main_mode, b.aux_zone_occupied);
    law_names_tell_values_apart(a.occupancy, a.energy_period, a.main_mode, a.back_during_recovery);
    law_names_tell_values_apart(b.occupancy, b.energy_period, b.main_mode, b.back_during_recovery);
}

// A description from each of its values on.
spec fn from_back(i: Inputs) -> Seq<char> {
    ", back_during_recovery: "@ + (flag_name(i.back_during_recovery) + " }"@)
}

spec fn from_aux(i: Inputs, hold: Seq<char>) -> Seq<char> {
    flag_name(i.aux_zone_occupied) + (", comfort_setpoint: "@ + (hold + from_back(i)))
}

spec fn from_mode(i: Inputs, hold: Seq<char>) -> Seq<char> {
    mode_name(i.main_mode) + (", aux_zone_occupied: "@ + from_aux(i, hold))
}

spec fn from_period(i: Inputs, hold: Seq<char>) -> Seq<char> {
    period_name(i.energy_period) + (", main_mode: "@ + from_mode(i, hold))
}

spec fn from_occupancy(i: Inputs, hold: Seq<char>) -> Seq<char> {
    occupancy_name(i.occupancy) + (", energy_period: "@ + from_period(i, hold))
}

/// A description is made of its parts, one after the other.
proof fn lemma_description_parts(i: Inputs, hold: Seq<char>)
    ensures
        description(i, hold) == "Inputs { occupancy: "@ + from_occupancy(i, hold),
{
    let occupancy = "Inputs { occupancy: "@ + occupancy_name(i.occupancy);
    let period = occupancy + ", energy_period: "@ + period_name(i.energy_period);
    let mode = period + ", main_mode: "@ + mode_name(i.main_mode);
    let aux = mode + ", aux_zone_occupied: "@ + flag_name(i.aux_zone_occupied);
    let held = aux + ", comfort_setpoint: "@ + hold;
    let back = flag_name(i.back_during_recovery);
    lemma_regroup(held, ", back_during_recovery: "@, back, " }"@);
    lemma_regroup(aux, ", comfort_setpoint: "@, hold, from_back(i));
    let tail = ", comfort_setpoint: "@ + (hold + from_back(i));
    lemma_regroup(mode, ", aux_zone_occupied: "@, flag_name(i.aux_zone_occupied), tail);
    let tail = ", aux_zone_occupied: "@ + from_aux(i, hold);
    lemma_regroup(period, ", main_mode: "@, mode_name(i.main_mode), tail);
    let tail = ", main_mode: "@ + from_mode(i, hold);
    lemma_regroup(occupancy, ", energy_period: "@, period_name(i.energy_period), tail);
    let tail = ", energy_period: "@ + from_period(i, hold);
    assert(occupancy + tail =~= "Inputs { occupancy: "@ + (occupancy_name(i.occupancy) + tail));
}

proof fn lemma_regroup(front: Seq<char>, label: Seq<char>, value: Seq<char>, rest: Seq<char>)
    ensures
        (front + label + value) + rest == front + (label + (value + rest)),
{
    assert((front + label + value) + rest =~= front + (label + (value + rest)));
}

/// The names of values hold no comma, and each of them ends where one follows.
proof fn lemma_commas_end_names(i: Inputs)
    ensures
        comma_free(occupancy_name(i.occupancy)),
        comma_free(period_name(i.energy_period)),
        comma_free(mode_name(i.main_mode)),
        comma_free(flag_name(i.aux_zone_occupied)),
        begins_with_comma(", energy_period: "@),
        begins_with_comma(", main_mode: "@),
        begins_with_comma(", aux_zone_occupied: "@),
        begins_with_comma(", comfort_setpoint: "@),
{
    reveal_strlit("Home");
    reveal_strlit("HomeAsleep");
    reveal_strlit("AwayReturning");
    reveal_strlit("Away");
    reveal_strlit("AwayFar");
    reveal_strlit("Normal");
    reveal_strlit("Preheat");
    reveal_strlit("Peak");
    reveal_strlit("Heat");
    reveal_strlit("Cool");
    reveal_strlit("Circulate");
    reveal_strlit("Off");
    reveal_strlit("true");
    reveal_strlit("false");
    reveal_strlit(", energy_period: ");
    reveal_strlit(", main_mode: ");
    reveal_strlit(", aux_zone_occupied: ");
    reveal_strlit(", comfort_setpoint: ");
}

spec fn comma_free(s: Seq<char>) -> bool {
    forall|i: int| 0 <= i < s.len() ==> #[trigger] s[i] != ','
}

spec fn begins_with_comma(s: Seq<char>) -> bool {
    s.len() > 0 && s[0] == ','
}

/// What follows a common beginning is common too.
proof fn lemma_same_ends(head: Seq<char>, x: Seq<char>, y: Seq<char>)
    requires
        head + x == head + y,
    ensures
        x == y,
{
    assert(x =~= (head + x).skip(head.len() as int));
    assert(y =~= (head + y).skip(head.len() as int));
}

/// Texts that agree agree up to their first comma, and from it on.
proof fn lemma_same_heads(a: Seq<char>, x: Seq<char>, b: Seq<char>, y: Seq<char>)
    requires
        comma_free(a),
        comma_free(b),
        begins_with_comma(x),
        begins_with_comma(y),
        a + x == b + y,
    ensures
        a == b,
        x == y,
{
    let s = a + x;
    assert(s[a.len() as int] == ',');
    assert(s[b.len() as int] == ',');
    if a.len() < b.len() {
        assert(s[a.len() as int] == b[a.len() as int]);
    }
    if b.len() < a.len() {
        assert(s[b.len() as int] == a[b.len() as int]);
    }
    assert(a =~= s.take(a.len() as int));
    assert(b =~= s.take(a.len() as int));
    lemma_same_ends(a, x, y);
}

/// The queue to the broker holds everything that is said on the way up, and a
/// decision besides, before anything has been delivered. The broker hears from the
/// daemon twice a minute, and a lost broker is tried again after five seconds.
pub proof fn law_queue_holds_the_startup(announced: Seq<Publication>)
    requires
        is_discovery(announced),
    ensures
        announced.len() + 1 + 2 <= QUEUE_LENGTH,
        2 * KEEP_ALIVE_SECS == 60,
        RETRY_SECS == 5,
{
}

} // verus!
