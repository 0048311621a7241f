use tuya_outlets::codec::{decode, decode_message, Dps, Msg, MsgPayload};
use tuya_outlets::envelope::{
    encode_metrics_query, encode_status_query, encode_write, u64_to_decimal,
};
use tuya_outlets::JsonVal;

fn text_msg(s: &str) -> Msg {
    Msg { payload: MsgPayload::Text(String::from(s)) }
}

const FULL_DPS: &str = "{\"dps\": {\"1\": true, \"17\": 7, \"18\": 1500, \"19\": 250, \"20\": 23000, \"102\": 12, \"104\": 2750, \"105\": 30, \"106\": 3000, \"107\": \"en\", \"108\": 80, \"109\": 20, \"110\": 60, \"123\": 5, \"133\": 5000}}";

fn full_dps() -> Dps {
    Dps {
        enable: Some(true),
        dp17: Some(7),
        current: 1500,
        power: 250,
        voltage: 23000,
        total_ele: 12,
        ovp: 2750,
        ocp: 30,
        opp: 3000,
        device_language: String::from("en"),
        display_brightness: 80,
        standby_brightness: 20,
        enter_standby_time: 60,
        bill: 5,
        frequency: 5000,
    }
}

#[test]
fn decode_empty_batch_yields_nothing() {
    let msgs: Vec<Msg> = Vec::new();
    assert_eq!(decode(&msgs), None);
}

#[test]
fn decode_non_string_payload_yields_nothing() {
    let msgs = vec![Msg { payload: MsgPayload::Opaque }];
    assert_eq!(decode(&msgs), None);
}

#[test]
fn decode_first_success_wins_over_prior_failures() {
    let msgs = vec![text_msg("this is not json {"), text_msg(FULL_DPS)];
    assert_eq!(decode(&msgs), Some(full_dps()));
}

#[test]
fn decode_full_payload() {
    let msgs = vec![text_msg(FULL_DPS)];
    assert_eq!(decode(&msgs), Some(full_dps()));
}

#[test]
fn decode_message_without_dps_field_fails() {
    assert_eq!(decode_message(&text_msg("{\"data\": {}}")), None);
}

#[test]
fn decode_message_missing_required_field_fails() {
    // No "133" (frequency): the decode must fail as a whole.
    let partial = "{\"dps\": {\"1\": true, \"17\": 7, \"18\": 1500, \"19\": 250, \"20\": 23000, \"102\": 12, \"104\": 2750, \"105\": 30, \"106\": 3000, \"107\": \"en\", \"108\": 80, \"109\": 20, \"110\": 60, \"123\": 5}}";
    assert_eq!(decode_message(&text_msg(partial)), None);
}

#[test]
fn decode_message_ill_typed_field_fails() {
    let bad = "{\"dps\": {\"1\": \"yes\", \"17\": 7, \"18\": 1500, \"19\": 250, \"20\": 23000, \"102\": 12, \"104\": 2750, \"105\": 30, \"106\": 3000, \"107\": \"en\", \"108\": 80, \"109\": 20, \"110\": 60, \"123\": 5, \"133\": 5000}}";
    assert_eq!(decode_message(&text_msg(bad)), None);
}

#[test]
fn decode_message_out_of_range_number_fails() {
    let bad = "{\"dps\": {\"1\": true, \"17\": 7, \"18\": 65536, \"19\": 250, \"20\": 23000, \"102\": 12, \"104\": 2750, \"105\": 30, \"106\": 3000, \"107\": \"en\", \"108\": 80, \"109\": 20, \"110\": 60, \"123\": 5, \"133\": 5000}}";
    assert_eq!(decode_message(&text_msg(bad)), None);
}

#[test]
fn decode_optional_fields_may_be_absent() {
    let telemetry = "{\"dps\": {\"18\": 1500, \"19\": 250, \"20\": 23000, \"102\": 12, \"104\": 2750, \"105\": 30, \"106\": 3000, \"107\": \"en\", \"108\": 80, \"109\": 20, \"110\": 60, \"123\": 5, \"133\": 5000}}";
    let d = decode_message(&text_msg(telemetry)).expect("telemetry payload must decode");
    assert_eq!(d.enable, None);
    assert_eq!(d.dp17, None);
    assert_eq!(d.current, 1500);
}

#[test]
fn decimal_rendering() {
    assert_eq!(u64_to_decimal(0), "0");
    assert_eq!(u64_to_decimal(7), "7");
    assert_eq!(u64_to_decimal(1700000000), "1700000000");
    assert_eq!(u64_to_decimal(90210), "90210");
}

fn obj(pairs: Vec<(&str, JsonVal)>) -> JsonVal {
    JsonVal::Obj(pairs.into_iter().map(|(k, v)| (String::from(k), v)).collect())
}

fn empty_str() -> JsonVal {
    JsonVal::Text(String::new())
}

fn cmd(inner: JsonVal) -> JsonVal {
    obj(vec![("command", inner)])
}

fn gdut() -> JsonVal {
    obj(vec![
        ("gwId", empty_str()),
        ("devId", empty_str()),
        ("uid", empty_str()),
        ("t", empty_str()),
    ])
}

fn dut() -> JsonVal {
    obj(vec![("devId", empty_str()), ("uid", empty_str()), ("t", empty_str())])
}

fn gd() -> JsonVal {
    obj(vec![("gwId", empty_str()), ("devId", empty_str())])
}

fn dp_id_18() -> JsonVal {
    obj(vec![(
        "dpId",
        JsonVal::Arr(vec![JsonVal::UInt(18), JsonVal::UInt(19), JsonVal::UInt(20)]),
    )])
}

#[test]
fn write_envelope_shape() {
    let id = String::from("device-a");
    let env = encode_write(&id, 1700000000, true);
    assert_eq!(env.dev_id, "device-a");
    assert_eq!(env.gw_id, Some(String::from("device-a")));
    assert_eq!(env.uid, None);
    assert_eq!(env.dp_id, None);
    assert_eq!(env.t, Some(String::from("1700000000")));
    assert_eq!(env.dps, Some(obj(vec![("1", JsonVal::Bool(true))])));

    let env_off = encode_write(&id, 5, false);
    assert_eq!(env_off.dps, Some(obj(vec![("1", JsonVal::Bool(false))])));
    assert_eq!(env_off.gw_id, Some(String::from("device-a")));
}

#[test]
fn status_query_shape() {
    let id = String::from("device-a");
    let env = encode_status_query(&id, 42);
    assert_eq!(env.dev_id, "device-a");
    assert_eq!(env.gw_id, None);
    assert_eq!(env.uid, None);
    assert_eq!(env.dp_id, None);
    assert_eq!(env.t, Some(String::from("42")));
    let expected = obj(vec![
        ("1", cmd(gdut())),
        ("7", cmd(dut())),
        ("8", cmd(gd())),
        ("9", cmd(gd())),
        ("10", cmd(gdut())),
        ("13", cmd(dut())),
        ("16", cmd(dut())),
        ("18", cmd(dp_id_18())),
        ("64", cmd(obj(vec![("reqType", empty_str()), ("data", obj(vec![]))]))),
    ]);
    assert_eq!(env.dps, Some(expected));
}

#[test]
fn metrics_query_shape() {
    let id = String::from("device-b");
    let env = encode_metrics_query(&id, 9);
    assert_eq!(env.dev_id, "device-b");
    assert_eq!(env.gw_id, None);
    assert_eq!(env.t, Some(String::from("9")));
    assert_eq!(env.dps, Some(obj(vec![("18", cmd(dp_id_18()))])));
}
