//! Reading the battery's telemetry out of broker messages.
//!
//! A payload arrives as text. It may be a bare number, `{"value": 75.5}`,
//! or the battery's own report `{"value": [{"soc": 75.5, ..}]}`. The loop
//! hands over the payload as a JSON document, where it is one, and as a
//! bare number, where it is one; which reading counts on which topic is
//! decided here. Numbers come in millionths.

use vstd::prelude::*;
use crate::config::MqttConfig;
use crate::mqtt::BatteryState;

verus! {

/// A JSON document. Numbers are held in millionths.
#[derive(Debug, PartialEq)]
pub enum Json {
    Null,
    Bool(bool),
    Number(i64),
    Text(String),
    Array(Vec<Json>),
    Object(Vec<Member>),
}

/// A named member of a JSON object.
#[derive(Debug, PartialEq)]
pub struct Member {
    pub name: String,
    pub value: Json,
}

/// What a topic carries.
#[derive(Clone, Copy, Debug, PartialEq, Eq, Structural)]
pub enum Channel {
    /// The battery's state of charge in percent.
    StateOfCharge,
    /// The grid setpoint in force, in watts.
    GridSetpoint,
}

/// The value of the first member at or after `from` that is called `name`.
pub open spec fn member_named(members: Seq<Member>, name: Seq<char>, from: int) -> Option<Json>
    decreases members.len() - from,
{
    if from < 0 || from >= members.len() {
        None
    } else if members[from].name@ == name {
        Some(members[from].value)
    } else {
        member_named(members, name, from + 1)
    }
}

impl Json {
    /// The member called `name`, if this is an object that has one.
    pub open spec fn member(self, name: Seq<char>) -> Option<Json> {
        match self {
            Json::Object(members) => member_named(members@, name, 0),
            _ => None,
        }
    }

    /// The first item, if this is an array that has one.
    pub open spec fn first(self) -> Option<Json> {
        match self {
            Json::Array(items) => if items@.len() > 0 {
                Some(items@[0])
            } else {
                None
            },
            _ => None,
        }
    }

    /// The number in millionths, if this is a number.
    pub open spec fn number(self) -> Option<i64> {
        match self {
            Json::Number(micros) => Some(micros),
            _ => None,
        }
    }

    /// Executable `member`.
    pub fn get(&self, name: &str) -> (found: Option<&Json>)
        ensures
            found matches Some(value) ==> self.member(name@) == Some(*value),
            found is None ==> self.member(name@) is None,
    {
        match self {
            Json::Object(members) => {
                let wanted: String = String::from_str(name);
                let mut i: usize = 0;
                while i < members.len()
                    invariant
                        i <= members@.len(),
                        wanted@ == name@,
                        self.member(name@) == member_named(members@, name@, 0),
                        member_named(members@, name@, 0) == member_named(
                            members@,
                            name@,
                            i as int,
                        ),
                    decreases members.len() - i,
                {
                    if members[i].name == wanted {
                        assert(member_named(members@, name@, i as int) == Some(
                            members@[i as int].value,
                        ));
                        return Some(&members[i].value);
                    }
                    i = i + 1;
                }
                None
            },
            _ => None,
        }
    }

    /// Executable `first`.
    pub fn first_item(&self) -> (found: Option<&Json>)
        ensures
            found matches Some(value) ==> self.first() == Some(*value),
            found is None ==> self.first() is None,
    {
        match self {
            Json::Array(items) => if items.len() > 0 {
                Some(&items[0])
            } else {
                None
            },
            _ => None,
        }
    }

    /// Executable `number`.
    pub fn as_number(&self) -> (micros: Option<i64>)
        ensures
            micros == self.number(),
    {
        match self {
            Json::Number(micros) => Some(*micros),
            _ => None,
        }
    }
}

/// The number at `value[0].soc`: the state of charge in the battery's own
/// report.
pub open spec fn reported_soc(json: Json) -> Option<i64> {
    match json.member("value"@) {
        Some(value) => match value.first() {
            Some(report) => match report.member("soc"@) {
                Some(soc) => soc.number(),
                None => None,
            },
            None => None,
        },
        None => None,
    }
}

/// The number at `value`.
pub open spec fn plain_value(json: Json) -> Option<i64> {
    match json.member("value"@) {
        Some(value) => value.number(),
        None => None,
    }
}

/// The state of charge a payload holds, in millionths of a percent: the
/// battery's own report where the payload is one, else the number at
/// `value`, else the payload as a bare number.
pub open spec fn soc_reading(json: Option<Json>, bare: Option<i64>) -> Option<i64> {
    match json {
        Some(document) => match reported_soc(document) {
            Some(micros) => Some(micros),
            None => match plain_value(document) {
                Some(micros) => Some(micros),
                None => bare,
            },
        },
        None => bare,
    }
}

/// The value a payload holds, in millionths: the payload as a bare number
/// where it is one, else the number at `value`.
pub open spec fn value_reading(json: Option<Json>, bare: Option<i64>) -> Option<i64> {
    match bare {
        Some(micros) => Some(micros),
        None => match json {
            Some(document) => plain_value(document),
            None => None,
        },
    }
}

/// `n / d` rounded to the nearest whole number, halves away from zero, for
/// a positive even divisor.
pub open spec fn rounded(n: int, d: int) -> int {
    if n >= 0 {
        (n + d / 2) / d
    } else {
        -((-n + d / 2) / d)
    }
}

/// A state of charge in thousandths of a percent from one in millionths:
/// rounded, and nothing where it is negative.
pub open spec fn soc_mpct_of(micros: i64) -> int {
    let mpct = rounded(micros as int, 1_000);
    if mpct < 0 {
        0
    } else if mpct > u32::MAX {
        u32::MAX as int
    } else {
        mpct
    }
}

/// Whole watts from millionths of a watt, rounded.
pub open spec fn watts_of(micros: i64) -> int {
    rounded(micros as int, 1_000_000)
}

/// The document with the borrow taken off.
pub open spec fn owned(json: Option<&Json>) -> Option<Json> {
    match json {
        Some(document) => Some(*document),
        None => None,
    }
}

/// Executable `reported_soc`.
pub fn read_reported_soc(json: &Json) -> (micros: Option<i64>)
    ensures
        micros == reported_soc(*json),
{
    match json.get("value") {
        Some(value) => match value.first_item() {
            Some(report) => match report.get("soc") {
                Some(soc) => soc.as_number(),
                None => None,
            },
            None => None,
        },
        None => None,
    }
}

/// Executable `plain_value`.
pub fn read_plain_value(json: &Json) -> (micros: Option<i64>)
    ensures
        micros == plain_value(*json),
{
    match json.get("value") {
        Some(value) => value.as_number(),
        None => None,
    }
}

/// Executable `soc_reading`.
pub fn parse_victron_soc(json: Option<&Json>, bare: Option<i64>) -> (micros: Option<i64>)
    ensures
        micros == soc_reading(owned(json), bare),
{
    match json {
        Some(document) => match read_reported_soc(document) {
            Some(micros) => Some(micros),
            None => match read_plain_value(document) {
                Some(micros) => Some(micros),
                None => bare,
            },
        },
        None => bare,
    }
}

/// Executable `value_reading`.
pub fn parse_mqtt_value(json: Option<&Json>, bare: Option<i64>) -> (micros: Option<i64>)
    ensures
        micros == value_reading(owned(json), bare),
{
    match bare {
        Some(micros) => Some(micros),
        None => match json {
            Some(document) => read_plain_value(document),
            None => None,
        },
    }
}

/// `n / d` rounded to the nearest whole number, for the two scales in use.
fn rounded_exec(n: i64, d: i64) -> (q: i64)
    requires
        d == 1_000 || d == 1_000_000,
    ensures
        q == rounded(n as int, d as int),
{
    let half: i128 = (d / 2) as i128;
    if n >= 0 {
        ((n as i128 + half) / (d as i128)) as i64
    } else {
        (-((-(n as i128) + half) / (d as i128))) as i64
    }
}

/// Executable `soc_mpct_of`.
pub fn soc_from_micros(micros: i64) -> (mpct: u32)
    ensures
        mpct == soc_mpct_of(micros),
{
    let rounded: i64 = rounded_exec(micros, 1_000);
    if rounded < 0 {
        0
    } else if rounded > u32::MAX as i64 {
        u32::MAX
    } else {
        rounded as u32
    }
}

/// Executable `watts_of`.
pub fn watts_from_micros(micros: i64) -> (watts: i64)
    ensures
        watts == watts_of(micros),
{
    rounded_exec(micros, 1_000_000)
}

impl MqttConfig {
    /// What the topic carries, if it is one the optimizer listens on. A
    /// topic configured for both carries the state of charge.
    pub open spec fn channel_of(self, topic: Seq<char>) -> Option<Channel> {
        if topic == self.soc_topic@ {
            Some(Channel::StateOfCharge)
        } else if topic == self.grid_setpoint_read_topic@ {
            Some(Channel::GridSetpoint)
        } else {
            None
        }
    }

    /// Executable `channel_of`.
    pub fn channel(&self, topic: &str) -> (channel: Option<Channel>)
        ensures
            channel == self.channel_of(topic@),
    {
        let topic: String = String::from_str(topic);
        if topic == self.soc_topic {
            Some(Channel::StateOfCharge)
        } else if topic == self.grid_setpoint_read_topic {
            Some(Channel::GridSetpoint)
        } else {
            None
        }
    }
}

impl BatteryState {
    /// The telemetry after a message that arrived at the second `at`: a
    /// state of charge or a setpoint is taken in where the topic carries one
    /// and the payload holds a reading; anything else changes nothing.
    pub open spec fn after_message(
        self,
        config: MqttConfig,
        topic: Seq<char>,
        json: Option<Json>,
        bare: Option<i64>,
        at: i64,
    ) -> BatteryState {
        match config.channel_of(topic) {
            Some(Channel::StateOfCharge) => match soc_reading(json, bare) {
                Some(micros) => BatteryState {
                    soc_mpct: soc_mpct_of(micros) as u32,
                    last_soc_update: Some(at),
                    ..self
                },
                None => self,
            },
            Some(Channel::GridSetpoint) => match value_reading(json, bare) {
                Some(micros) => BatteryState {
                    current_setpoint_w: Some(watts_of(micros) as i64),
                    last_setpoint_update: Some(at),
                    ..self
                },
                None => self,
            },
            None => self,
        }
    }

    /// Takes in a message. Returns whether it brought a reading.
    pub fn apply_message(
        &mut self,
        config: &MqttConfig,
        topic: &str,
        json: Option<&Json>,
        bare: Option<i64>,
        at: i64,
    ) -> (taken: bool)
        ensures
            *final(self) == old(self).after_message(*config, topic@, owned(json), bare, at),
            taken == match config.channel_of(topic@) {
                Some(Channel::StateOfCharge) => soc_reading(owned(json), bare) is Some,
                Some(Channel::GridSetpoint) => value_reading(owned(json), bare) is Some,
                None => false,
            },
    {
        match config.channel(topic) {
            Some(Channel::StateOfCharge) => match parse_victron_soc(json, bare) {
                Some(micros) => {
                    self.record_soc(soc_from_micros(micros), at);
                    true
                },
                None => false,
            },
            Some(Channel::GridSetpoint) => match parse_mqtt_value(json, bare) {
                Some(micros) => {
                    self.record_setpoint(watts_from_micros(micros), at);
                    true
                },
                None => false,
            },
            None => false,
        }
    }
}

} // verus!
