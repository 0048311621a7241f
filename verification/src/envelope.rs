//! Building the outbound query envelopes.
//!
//! A query envelope carries the device identity, a decimal timestamp and a
//! `dps` payload whose shape depends on the operation.  The two probe
//! shapes are mandated by the device firmware: the full status probe must
//! cover the fixed set of datapoint groups exactly, and the telemetry
//! probe requests only datapoint group 18 (indices 18, 19 and 20).

use vstd::prelude::*;
use vstd::string::StringExecFns;

use crate::json::JsonVal;

verus! {

/// An outbound query envelope.
///
/// `dp_id` is part of the protocol's envelope shape but no operation of
/// this library fills it.
#[derive(Debug, PartialEq)]
pub struct Envelope {
    pub dev_id: String,
    pub gw_id: Option<String>,
    pub uid: Option<String>,
    pub t: Option<String>,
    pub dp_id: Option<Vec<u32>>,
    pub dps: Option<JsonVal>,
}

/// The character for one decimal digit.
pub open spec fn digit_char(d: nat) -> char
    recommends
        d < 10,
{
    if d == 0 {
        '0'
    } else if d == 1 {
        '1'
    } else if d == 2 {
        '2'
    } else if d == 3 {
        '3'
    } else if d == 4 {
        '4'
    } else if d == 5 {
        '5'
    } else if d == 6 {
        '6'
    } else if d == 7 {
        '7'
    } else if d == 8 {
        '8'
    } else {
        '9'
    }
}

/// The decimal rendering of a number, most significant digit first and
/// without leading zeroes (a single `'0'` for zero).
pub open spec fn dec_digits(n: nat) -> Seq<char>
    decreases n,
{
    if n < 10 {
        seq![digit_char(n)]
    } else {
        dec_digits(n / 10).push(digit_char(n % 10))
    }
}

/// Relies on `String::push`: appends one character to the string.
#[verifier::external_body]
fn push_char(s: &mut String, c: char)
    ensures
        final(s)@ == old(s)@.push(c),
{
    s.push(c);
}

fn digit_char_of(d: u64) -> (c: char)
    requires
        d < 10,
    ensures
        c == digit_char(d as nat),
{
    if d == 0 {
        '0'
    } else if d == 1 {
        '1'
    } else if d == 2 {
        '2'
    } else if d == 3 {
        '3'
    } else if d == 4 {
        '4'
    } else if d == 5 {
        '5'
    } else if d == 6 {
        '6'
    } else if d == 7 {
        '7'
    } else if d == 8 {
        '8'
    } else {
        '9'
    }
}

/// Renders a number in decimal, as the envelope's timestamp field wants
/// it.
pub fn u64_to_decimal(n: u64) -> (r: String)
    ensures
        r@ == dec_digits(n as nat),
    decreases n,
{
    if n < 10 {
        let mut s = String::new();
        push_char(&mut s, digit_char_of(n));
        proof {
            assert(s@ =~= seq![digit_char(n as nat)]);
        }
        s
    } else {
        let mut s = u64_to_decimal(n / 10);
        push_char(&mut s, digit_char_of(n % 10));
        s
    }
}

/// An empty JSON string.
pub open spec fn is_empty_text(v: JsonVal) -> bool {
    v matches JsonVal::Text(s) && s@ == Seq::<char>::empty()
}

/// The inner object of a probe group: the group must be an object with
/// the single key `command`, and this is what that key holds.
pub open spec fn cmd_inner(v: JsonVal) -> Option<JsonVal> {
    match v {
        JsonVal::Obj(ps) => if ps@.len() == 1 && ps@[0].0@ == "command"@ {
            Some(ps@[0].1)
        } else {
            None
        },
        _ => None,
    }
}

/// A command object of the shape `{"gwId": "", "devId": "", "uid": "", "t": ""}`.
pub open spec fn is_gdut_cmd(v: JsonVal) -> bool {
    &&& v matches JsonVal::Obj(ps)
    &&& ps@.len() == 4
    &&& ps@[0].0@ == "gwId"@ && is_empty_text(ps@[0].1)
    &&& ps@[1].0@ == "devId"@ && is_empty_text(ps@[1].1)
    &&& ps@[2].0@ == "uid"@ && is_empty_text(ps@[2].1)
    &&& ps@[3].0@ == "t"@ && is_empty_text(ps@[3].1)
}

/// A command object of the shape `{"devId": "", "uid": "", "t": ""}`.
pub open spec fn is_dut_cmd(v: JsonVal) -> bool {
    &&& v matches JsonVal::Obj(ps)
    &&& ps@.len() == 3
    &&& ps@[0].0@ == "devId"@ && is_empty_text(ps@[0].1)
    &&& ps@[1].0@ == "uid"@ && is_empty_text(ps@[1].1)
    &&& ps@[2].0@ == "t"@ && is_empty_text(ps@[2].1)
}

/// A command object of the shape `{"gwId": "", "devId": ""}`.
pub open spec fn is_gd_cmd(v: JsonVal) -> bool {
    &&& v matches JsonVal::Obj(ps)
    &&& ps@.len() == 2
    &&& ps@[0].0@ == "gwId"@ && is_empty_text(ps@[0].1)
    &&& ps@[1].0@ == "devId"@ && is_empty_text(ps@[1].1)
}

/// A command object of the shape `{"dpId": [18, 19, 20]}`.
pub open spec fn is_dp_id_18_cmd(v: JsonVal) -> bool {
    &&& v matches JsonVal::Obj(ps)
    &&& ps@.len() == 1
    &&& ps@[0].0@ == "dpId"@
    &&& ps@[0].1 matches JsonVal::Arr(a) && a@.len() == 3 && a@[0] == JsonVal::UInt(18)
        && a@[1] == JsonVal::UInt(19) && a@[2] == JsonVal::UInt(20)
}

/// A command object of the shape `{"reqType": "", "data": {}}`.
pub open spec fn is_req_data_cmd(v: JsonVal) -> bool {
    &&& v matches JsonVal::Obj(ps)
    &&& ps@.len() == 2
    &&& ps@[0].0@ == "reqType"@ && is_empty_text(ps@[0].1)
    &&& ps@[1].0@ == "data"@ && (ps@[1].1 matches JsonVal::Obj(e) && e@.len() == 0)
}

/// The full status probe the firmware demands for a complete status
/// payload: datapoint groups 1, 7, 8, 9, 10, 13, 16, 18 and 64, each with
/// its mandated command object, and group 18 enumerating indices 18, 19
/// and 20.
pub open spec fn is_status_probe(v: JsonVal) -> bool {
    &&& v matches JsonVal::Obj(gs)
    &&& gs@.len() == 9
    &&& gs@[0].0@ == "1"@ && (cmd_inner(gs@[0].1) matches Some(c) && is_gdut_cmd(c))
    &&& gs@[1].0@ == "7"@ && (cmd_inner(gs@[1].1) matches Some(c) && is_dut_cmd(c))
    &&& gs@[2].0@ == "8"@ && (cmd_inner(gs@[2].1) matches Some(c) && is_gd_cmd(c))
    &&& gs@[3].0@ == "9"@ && (cmd_inner(gs@[3].1) matches Some(c) && is_gd_cmd(c))
    &&& gs@[4].0@ == "10"@ && (cmd_inner(gs@[4].1) matches Some(c) && is_gdut_cmd(c))
    &&& gs@[5].0@ == "13"@ && (cmd_inner(gs@[5].1) matches Some(c) && is_dut_cmd(c))
    &&& gs@[6].0@ == "16"@ && (cmd_inner(gs@[6].1) matches Some(c) && is_dut_cmd(c))
    &&& gs@[7].0@ == "18"@ && (cmd_inner(gs@[7].1) matches Some(c) && is_dp_id_18_cmd(c))
    &&& gs@[8].0@ == "64"@ && (cmd_inner(gs@[8].1) matches Some(c) && is_req_data_cmd(c))
}

/// The minimal telemetry probe: datapoint group 18 alone.
pub open spec fn is_metrics_probe(v: JsonVal) -> bool {
    &&& v matches JsonVal::Obj(gs)
    &&& gs@.len() == 1
    &&& gs@[0].0@ == "18"@ && (cmd_inner(gs@[0].1) matches Some(c) && is_dp_id_18_cmd(c))
}

/// The `dps` payload of a single-datapoint write: `{"1": enable}`.
pub open spec fn is_write_dps(v: JsonVal, enable: bool) -> bool {
    &&& v matches JsonVal::Obj(ps)
    &&& ps@.len() == 1
    &&& ps@[0].0@ == "1"@
    &&& ps@[0].1 == JsonVal::Bool(enable)
}

fn empty_text() -> (v: JsonVal)
    ensures
        is_empty_text(v),
{
    JsonVal::Text(String::new())
}

fn blank_pair(key: &str) -> (p: (String, JsonVal))
    ensures
        p.0@ == key@ && is_empty_text(p.1),
{
    (String::from_str(key), empty_text())
}

fn cmd_of(inner: JsonVal) -> (v: JsonVal)
    ensures
        cmd_inner(v) matches Some(c) && c == inner,
{
    JsonVal::Obj(vec![(String::from_str("command"), inner)])
}

fn gdut_cmd() -> (v: JsonVal)
    ensures
        is_gdut_cmd(v),
{
    JsonVal::Obj(
        vec![blank_pair("gwId"), blank_pair("devId"), blank_pair("uid"), blank_pair("t")],
    )
}

fn dut_cmd() -> (v: JsonVal)
    ensures
        is_dut_cmd(v),
{
    JsonVal::Obj(vec![blank_pair("devId"), blank_pair("uid"), blank_pair("t")])
}

fn gd_cmd() -> (v: JsonVal)
    ensures
        is_gd_cmd(v),
{
    JsonVal::Obj(vec![blank_pair("gwId"), blank_pair("devId")])
}

fn dp_id_18_cmd() -> (v: JsonVal)
    ensures
        is_dp_id_18_cmd(v),
{
    JsonVal::Obj(
        vec![
            (
                String::from_str("dpId"),
                JsonVal::Arr(vec![JsonVal::UInt(18), JsonVal::UInt(19), JsonVal::UInt(20)]),
            ),
        ],
    )
}

fn req_data_cmd() -> (v: JsonVal)
    ensures
        is_req_data_cmd(v),
{
    JsonVal::Obj(
        vec![
            (String::from_str("reqType"), empty_text()),
            (String::from_str("data"), JsonVal::Obj(Vec::new())),
        ],
    )
}

/// Builds the envelope for a full status query: the firmware-mandated
/// multi-group probe, addressed to `dev_id` and stamped with the decimal
/// rendering of `t` (seconds since the epoch).
pub fn encode_status_query(dev_id: &String, t: u64) -> (r: Envelope)
    ensures
        r.dev_id == *dev_id,
        r.gw_id is None,
        r.uid is None,
        r.t matches Some(ts) && ts@ == dec_digits(t as nat),
        r.dp_id is None,
        r.dps matches Some(d) && is_status_probe(d),
{
    let probe = JsonVal::Obj(
        vec![
            (String::from_str("1"), cmd_of(gdut_cmd())),
            (String::from_str("7"), cmd_of(dut_cmd())),
            (String::from_str("8"), cmd_of(gd_cmd())),
            (String::from_str("9"), cmd_of(gd_cmd())),
            (String::from_str("10"), cmd_of(gdut_cmd())),
            (String::from_str("13"), cmd_of(dut_cmd())),
            (String::from_str("16"), cmd_of(dut_cmd())),
            (String::from_str("18"), cmd_of(dp_id_18_cmd())),
            (String::from_str("64"), cmd_of(req_data_cmd())),
        ],
    );
    Envelope {
        dev_id: dev_id.clone(),
        gw_id: None,
        uid: None,
        t: Some(u64_to_decimal(t)),
        dp_id: None,
        dps: Some(probe),
    }
}

/// Builds the envelope for a minimal telemetry query: datapoint group 18
/// alone.
pub fn encode_metrics_query(dev_id: &String, t: u64) -> (r: Envelope)
    ensures
        r.dev_id == *dev_id,
        r.gw_id is None,
        r.uid is None,
        r.t matches Some(ts) && ts@ == dec_digits(t as nat),
        r.dp_id is None,
        r.dps matches Some(d) && is_metrics_probe(d),
{
    let probe = JsonVal::Obj(vec![(String::from_str("18"), cmd_of(dp_id_18_cmd()))]);
    Envelope {
        dev_id: dev_id.clone(),
        gw_id: None,
        uid: None,
        t: Some(u64_to_decimal(t)),
        dp_id: None,
        dps: Some(probe),
    }
}

/// Builds the envelope for a single-datapoint write: its payload is
/// `{"1": enable}`, and the gateway id is set equal to the device id, as
/// the firmware wants for write acknowledgment routing.
pub fn encode_write(dev_id: &String, t: u64, enable: bool) -> (r: Envelope)
    ensures
        r.dev_id == *dev_id,
        r.gw_id matches Some(g) && g == *dev_id,
        r.uid is None,
        r.t matches Some(ts) && ts@ == dec_digits(t as nat),
        r.dp_id is None,
        r.dps matches Some(d) && is_write_dps(d, enable),
{
    let payload = JsonVal::Obj(vec![(String::from_str("1"), JsonVal::Bool(enable))]);
    Envelope {
        dev_id: dev_id.clone(),
        gw_id: Some(dev_id.clone()),
        uid: None,
        t: Some(u64_to_decimal(t)),
        dp_id: None,
        dps: Some(payload),
    }
}

} // verus!
