//! Decoding of raw protocol messages into typed data point sets.
//!
//! A device answers a query with a batch of raw messages.  Each message
//! may carry a string payload: a JSON envelope whose `dps` object holds
//! the numbered datapoints.  Decoding scans the batch in arrival order and
//! returns the first message that yields a complete data point set.

use vstd::prelude::*;
use vstd::string::StringExecFns;

use crate::json::{obj_get, obj_get_spec, json_parse, parse_json, JsonVal};

verus! {

/// The payload of a raw protocol message: either a string (candidate JSON
/// envelope) or some other shape the decoder ignores.
#[derive(Debug, Clone, PartialEq)]
pub enum MsgPayload {
    Text(String),
    Opaque,
}

/// A raw protocol message as yielded by the device channel, reduced to
/// what decoding reads: its payload.
#[derive(Debug, Clone, PartialEq)]
pub struct Msg {
    pub payload: MsgPayload,
}

/// A decoded snapshot of a device's reported status, keyed by the
/// numbered datapoints of the device firmware.
///
/// `enable` (datapoint 1) and `dp17` (datapoint 17) may be absent from a
/// telemetry-only response; every other field must be present for a
/// decode to succeed.  Raw telemetry values carry a fixed-point scale:
/// `current` is in units of 1/1000 A, `power`, `voltage` and `frequency`
/// in units of 1/100 W, V and Hz.
#[derive(Debug, Clone, PartialEq)]
pub struct Dps {
    pub enable: Option<bool>,
    pub dp17: Option<u16>,
    pub current: u16,
    pub power: u16,
    pub voltage: u16,
    pub total_ele: u16,
    pub ovp: u16,
    pub ocp: u16,
    pub opp: u16,
    pub device_language: String,
    pub display_brightness: u16,
    pub standby_brightness: u16,
    pub enter_standby_time: u16,
    pub bill: u16,
    pub frequency: u16,
}

/// A required numeric datapoint: present and an unsigned integer within
/// `u16` range, else the decode of the whole object fails.
pub open spec fn u16_field(pairs: Seq<(String, JsonVal)>, key: Seq<char>) -> Option<u16> {
    match obj_get_spec(pairs, key) {
        Some(v) => match v {
            JsonVal::UInt(u) => if u <= 65535 {
                Some(u as u16)
            } else {
                None
            },
            _ => None,
        },
        None => None,
    }
}

/// An optional boolean datapoint: `Some(None)` when absent, `None` when
/// present but not a boolean (the decode fails).
pub open spec fn opt_bool_field(pairs: Seq<(String, JsonVal)>, key: Seq<char>) -> Option<
    Option<bool>,
> {
    match obj_get_spec(pairs, key) {
        Some(v) => match v {
            JsonVal::Bool(b) => Some(Some(b)),
            _ => None,
        },
        None => Some(None),
    }
}

/// An optional numeric datapoint: `Some(None)` when absent, `None` when
/// present but not an unsigned integer in `u16` range.
pub open spec fn opt_u16_field(pairs: Seq<(String, JsonVal)>, key: Seq<char>) -> Option<
    Option<u16>,
> {
    match obj_get_spec(pairs, key) {
        Some(v) => match v {
            JsonVal::UInt(u) => if u <= 65535 {
                Some(Some(u as u16))
            } else {
                None
            },
            _ => None,
        },
        None => Some(None),
    }
}

/// A required string datapoint.
pub open spec fn text_field(pairs: Seq<(String, JsonVal)>, key: Seq<char>) -> Option<String> {
    match obj_get_spec(pairs, key) {
        Some(v) => match v {
            JsonVal::Text(s) => Some(s),
            _ => None,
        },
        None => None,
    }
}

/// Whether a `dps` object carries every datapoint a complete data point
/// set needs, each of the right shape.
pub open spec fn dps_obj_complete(pairs: Seq<(String, JsonVal)>) -> bool {
    &&& opt_bool_field(pairs, "1"@) is Some
    &&& opt_u16_field(pairs, "17"@) is Some
    &&& u16_field(pairs, "18"@) is Some
    &&& u16_field(pairs, "19"@) is Some
    &&& u16_field(pairs, "20"@) is Some
    &&& u16_field(pairs, "102"@) is Some
    &&& u16_field(pairs, "104"@) is Some
    &&& u16_field(pairs, "105"@) is Some
    &&& u16_field(pairs, "106"@) is Some
    &&& text_field(pairs, "107"@) is Some
    &&& u16_field(pairs, "108"@) is Some
    &&& u16_field(pairs, "109"@) is Some
    &&& u16_field(pairs, "110"@) is Some
    &&& u16_field(pairs, "123"@) is Some
    &&& u16_field(pairs, "133"@) is Some
}

/// The data point set a `dps` object decodes to, if it is complete.
pub open spec fn dps_of_obj(pairs: Seq<(String, JsonVal)>) -> Option<Dps> {
    if dps_obj_complete(pairs) {
        Some(
            Dps {
                enable: opt_bool_field(pairs, "1"@)->0,
                dp17: opt_u16_field(pairs, "17"@)->0,
                current: u16_field(pairs, "18"@)->0,
                power: u16_field(pairs, "19"@)->0,
                voltage: u16_field(pairs, "20"@)->0,
                total_ele: u16_field(pairs, "102"@)->0,
                ovp: u16_field(pairs, "104"@)->0,
                ocp: u16_field(pairs, "105"@)->0,
                opp: u16_field(pairs, "106"@)->0,
                device_language: text_field(pairs, "107"@)->0,
                display_brightness: u16_field(pairs, "108"@)->0,
                standby_brightness: u16_field(pairs, "109"@)->0,
                enter_standby_time: u16_field(pairs, "110"@)->0,
                bill: u16_field(pairs, "123"@)->0,
                frequency: u16_field(pairs, "133"@)->0,
            },
        )
    } else {
        None
    }
}

/// The data point set a JSON value decodes to: it must be an object that
/// is complete in the sense of [`dps_obj_complete`].
pub open spec fn dps_of_json(v: JsonVal) -> Option<Dps> {
    match v {
        JsonVal::Obj(pairs) => dps_of_obj(pairs@),
        _ => None,
    }
}

/// The data point set a message payload text decodes to: the text must be
/// valid JSON, its top level an object with a `dps` field, and that field
/// a complete data point set.
pub open spec fn payload_dps(s: Seq<char>) -> Option<Dps> {
    match json_parse(s) {
        Some(v) => match v {
            JsonVal::Obj(pairs) => match obj_get_spec(pairs@, "dps"@) {
                Some(d) => dps_of_json(d),
                None => None,
            },
            _ => None,
        },
        None => None,
    }
}

/// The data point set a single raw message decodes to; a message without
/// a string payload decodes to nothing.
pub open spec fn message_dps(m: Msg) -> Option<Dps> {
    match m.payload {
        MsgPayload::Text(s) => payload_dps(s@),
        MsgPayload::Opaque => None,
    }
}

/// The result of decoding a batch: the first message that yields a data
/// point set wins; an empty batch or a batch of failures yields nothing.
pub open spec fn decode_spec(msgs: Seq<Msg>) -> Option<Dps>
    decreases msgs.len(),
{
    if msgs.len() == 0 {
        None
    } else {
        match message_dps(msgs[0]) {
            Some(d) => Some(d),
            None => decode_spec(msgs.drop_first()),
        }
    }
}

/// First success wins: when every message before position `i` fails to
/// decode and the message at `i` decodes, the whole batch decodes to that
/// message's data point set.
pub proof fn lemma_decode_first_success(msgs: Seq<Msg>, i: int)
    requires
        0 <= i < msgs.len(),
        forall|j: int| 0 <= j < i ==> message_dps(#[trigger] msgs[j]) is None,
        message_dps(msgs[i]) is Some,
    ensures
        decode_spec(msgs) == message_dps(msgs[i]),
    decreases i,
{
    if i > 0 {
        assert forall|j: int| 0 <= j < i - 1 implies message_dps(
            #[trigger] msgs.drop_first()[j],
        ) is None by {
            assert(msgs.drop_first()[j] == msgs[j + 1]);
        }
        assert(msgs.drop_first()[i - 1] == msgs[i]);
        lemma_decode_first_success(msgs.drop_first(), i - 1);
    }
}

fn u16_at(pairs: &Vec<(String, JsonVal)>, key: &String) -> (r: Option<u16>)
    ensures
        r == u16_field(pairs@, key@),
{
    match obj_get(pairs, key) {
        Some(v) => match v {
            JsonVal::UInt(u) => if *u <= 65535 {
                Some(*u as u16)
            } else {
                None
            },
            _ => None,
        },
        None => None,
    }
}

fn opt_bool_at(pairs: &Vec<(String, JsonVal)>, key: &String) -> (r: Option<Option<bool>>)
    ensures
        r == opt_bool_field(pairs@, key@),
{
    match obj_get(pairs, key) {
        Some(v) => match v {
            JsonVal::Bool(b) => Some(Some(*b)),
            _ => None,
        },
        None => Some(None),
    }
}

fn opt_u16_at(pairs: &Vec<(String, JsonVal)>, key: &String) -> (r: Option<Option<u16>>)
    ensures
        r == opt_u16_field(pairs@, key@),
{
    match obj_get(pairs, key) {
        Some(v) => match v {
            JsonVal::UInt(u) => if *u <= 65535 {
                Some(Some(*u as u16))
            } else {
                None
            },
            _ => None,
        },
        None => Some(None),
    }
}

fn text_at(pairs: &Vec<(String, JsonVal)>, key: &String) -> (r: Option<String>)
    ensures
        r == text_field(pairs@, key@),
{
    match obj_get(pairs, key) {
        Some(v) => match v {
            JsonVal::Text(s) => Some(s.clone()),
            _ => None,
        },
        None => None,
    }
}

fn dps_from_obj(pairs: &Vec<(String, JsonVal)>) -> (r: Option<Dps>)
    ensures
        r == dps_of_obj(pairs@),
{
    let enable = opt_bool_at(pairs, &String::from_str("1"));
    let dp17 = opt_u16_at(pairs, &String::from_str("17"));
    let current = u16_at(pairs, &String::from_str("18"));
    let power = u16_at(pairs, &String::from_str("19"));
    let voltage = u16_at(pairs, &String::from_str("20"));
    let total_ele = u16_at(pairs, &String::from_str("102"));
    let ovp = u16_at(pairs, &String::from_str("104"));
    let ocp = u16_at(pairs, &String::from_str("105"));
    let opp = u16_at(pairs, &String::from_str("106"));
    let device_language = text_at(pairs, &String::from_str("107"));
    let display_brightness = u16_at(pairs, &String::from_str("108"));
    let standby_brightness = u16_at(pairs, &String::from_str("109"));
    let enter_standby_time = u16_at(pairs, &String::from_str("110"));
    let bill = u16_at(pairs, &String::from_str("123"));
    let frequency = u16_at(pairs, &String::from_str("133"));
    if enable.is_some() && dp17.is_some() && current.is_some() && power.is_some()
        && voltage.is_some() && total_ele.is_some() && ovp.is_some() && ocp.is_some()
        && opp.is_some() && device_language.is_some() && display_brightness.is_some()
        && standby_brightness.is_some() && enter_standby_time.is_some() && bill.is_some()
        && frequency.is_some() {
        Some(
            Dps {
                enable: enable.unwrap(),
                dp17: dp17.unwrap(),
                current: current.unwrap(),
                power: power.unwrap(),
                voltage: voltage.unwrap(),
                total_ele: total_ele.unwrap(),
                ovp: ovp.unwrap(),
                ocp: ocp.unwrap(),
                opp: opp.unwrap(),
                device_language: device_language.unwrap(),
                display_brightness: display_brightness.unwrap(),
                standby_brightness: standby_brightness.unwrap(),
                enter_standby_time: enter_standby_time.unwrap(),
                bill: bill.unwrap(),
                frequency: frequency.unwrap(),
            },
        )
    } else {
        None
    }
}

/// Decodes one JSON value as a data point set.
pub fn dps_from_json(v: &JsonVal) -> (r: Option<Dps>)
    ensures
        r == dps_of_json(*v),
{
    match v {
        JsonVal::Obj(pairs) => dps_from_obj(pairs),
        _ => None,
    }
}

/// Decodes one raw message: its payload must be a string holding a JSON
/// object whose `dps` field is a complete data point set.
pub fn decode_message(m: &Msg) -> (r: Option<Dps>)
    ensures
        r == message_dps(*m),
{
    match &m.payload {
        MsgPayload::Text(s) => match parse_json(s.as_str()) {
            Some(v) => match v {
                JsonVal::Obj(pairs) => match obj_get(&pairs, &String::from_str("dps")) {
                    Some(d) => dps_from_json(d),
                    None => None,
                },
                _ => None,
            },
            None => None,
        },
        MsgPayload::Opaque => None,
    }
}

/// Decodes a batch of raw messages in arrival order, returning the first
/// successful data point set; a failed message does not abort the scan.
pub fn decode(msgs: &Vec<Msg>) -> (r: Option<Dps>)
    ensures
        r == decode_spec(msgs@),
{
    let n = msgs.len();
    proof {
        assert(msgs@.skip(0) =~= msgs@);
    }
    for i in 0..n
        invariant
            n == msgs@.len(),
            decode_spec(msgs@) == decode_spec(msgs@.skip(i as int)),
    {
        proof {
            assert(msgs@.skip(i as int)[0] == msgs@[i as int]);
        }
        let d = decode_message(&msgs[i]);
        if d.is_some() {
            return d;
        }
        proof {
            assert(msgs@.skip(i as int).drop_first() =~= msgs@.skip(i + 1));
        }
    }
    proof {
        assert(msgs@.skip(n as int) =~= Seq::<Msg>::empty());
    }
    None
}

} // verus!
