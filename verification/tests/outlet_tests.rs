use tuya_outlets::codec::{Msg, MsgPayload};
use tuya_outlets::outlet::{get_outcome, metrics_outcome, toggle_step};
use tuya_outlets::{Error, JsonVal};

const FULL_DPS_OFF: &str = "{\"dps\": {\"1\": false, \"17\": 7, \"18\": 1500, \"19\": 250, \"20\": 23000, \"102\": 12, \"104\": 2750, \"105\": 30, \"106\": 3000, \"107\": \"en\", \"108\": 80, \"109\": 20, \"110\": 60, \"123\": 5, \"133\": 5000}}";

fn batch_off() -> Option<Result<Vec<Msg>, Error>> {
    Some(Ok(vec![Msg { payload: MsgPayload::Text(String::from(FULL_DPS_OFF)) }]))
}

#[test]
fn get_reads_enable_flag() {
    assert_eq!(get_outcome(batch_off()), Ok(false));
}

#[test]
fn get_is_deterministic_for_equal_batches() {
    // The same response batch, presented twice, reads the same both times.
    let first = get_outcome(batch_off());
    let second = get_outcome(batch_off());
    assert_eq!(first, second);
    assert_eq!(first, Ok(false));
}

#[test]
fn get_fails_when_channel_closes() {
    assert_eq!(get_outcome(None), Err(Error::TransportClosed));
}

#[test]
fn get_passes_transport_error_through() {
    let e = Error::Transport(String::from("connection refused"));
    assert_eq!(get_outcome(Some(Err(e.clone()))), Err(e));
}

#[test]
fn get_fails_on_undecodable_batch() {
    let batch = Some(Ok(vec![Msg { payload: MsgPayload::Opaque }]));
    assert_eq!(get_outcome(batch), Err(Error::DecodeIncomplete));
}

#[test]
fn get_fails_when_enable_absent() {
    let telemetry = "{\"dps\": {\"18\": 1500, \"19\": 250, \"20\": 23000, \"102\": 12, \"104\": 2750, \"105\": 30, \"106\": 3000, \"107\": \"en\", \"108\": 80, \"109\": 20, \"110\": 60, \"123\": 5, \"133\": 5000}}";
    let batch = Some(Ok(vec![Msg { payload: MsgPayload::Text(String::from(telemetry)) }]));
    assert_eq!(get_outcome(batch), Err(Error::DecodeIncomplete));
}

#[test]
fn metrics_returns_full_data_point_set() {
    let d = metrics_outcome(batch_off()).expect("batch must decode");
    assert_eq!(d.enable, Some(false));
    assert_eq!(d.current, 1500);
    assert_eq!(d.frequency, 5000);
}

#[test]
fn metrics_fails_when_channel_closes() {
    assert_eq!(metrics_outcome(None), Err(Error::TransportClosed));
}

#[test]
fn toggle_writes_inverse_of_read_state() {
    // The channel reads back enable = false, so toggle must write {"1": true}.
    let id = String::from("device-a");
    let env = toggle_step(&id, 42, batch_off()).expect("toggle must build a write");
    assert_eq!(env.dev_id, "device-a");
    assert_eq!(env.gw_id, Some(String::from("device-a")));
    assert_eq!(
        env.dps,
        Some(JsonVal::Obj(vec![(String::from("1"), JsonVal::Bool(true))])),
    );
}

#[test]
fn toggle_surfaces_query_error_unchanged() {
    let id = String::from("device-a");
    let e = Error::Transport(String::from("reset by peer"));
    assert_eq!(toggle_step(&id, 42, Some(Err(e.clone()))), Err(e));
}
