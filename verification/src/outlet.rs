//! One outlet's identity and the semantics of its operations.
//!
//! The device channel itself (connect, send, receive) is an outside
//! collaborator; what this module owns is the meaning of an exchange:
//! which envelope each operation sends and what each possible channel
//! outcome means for the caller.  A channel outcome is `None` when the
//! channel ended without yielding a batch, `Some(Err(_))` when the
//! transport failed, and `Some(Ok(batch))` when a batch of raw messages
//! arrived.

use vstd::prelude::*;

use crate::codec::{decode, decode_spec, Dps, Msg};
use crate::envelope::{dec_digits, encode_write, is_write_dps, Envelope};
use crate::errors::Error;

verus! {

/// The immutable identity of one physical outlet: display name, device
/// id, shared secret, network address and protocol version.
#[derive(Debug, Clone, PartialEq)]
pub struct Outlet {
    pub name: String,
    pub dev_id: String,
    pub key: String,
    pub address: String,
    pub protocol_version: String,
}

/// What a status query returns for a given channel outcome: the decoded
/// `enable` flag, `DecodeIncomplete` when no message yields a complete
/// data point set or the flag is absent, `TransportClosed` when the
/// channel ended silently, and the transport's own error otherwise.
pub open spec fn get_outcome_spec(recv: Option<Result<Vec<Msg>, Error>>) -> Result<bool, Error> {
    match recv {
        Some(res) => match res {
            Ok(msgs) => match decode_spec(msgs@) {
                Some(d) => match d.enable {
                    Some(b) => Ok(b),
                    None => Err(Error::DecodeIncomplete),
                },
                None => Err(Error::DecodeIncomplete),
            },
            Err(e) => Err(e),
        },
        None => Err(Error::TransportClosed),
    }
}

/// What a telemetry query returns for a given channel outcome: the full
/// decoded data point set, or the corresponding error.
pub open spec fn metrics_outcome_spec(recv: Option<Result<Vec<Msg>, Error>>) -> Result<
    Dps,
    Error,
> {
    match recv {
        Some(res) => match res {
            Ok(msgs) => match decode_spec(msgs@) {
                Some(d) => Ok(d),
                None => Err(Error::DecodeIncomplete),
            },
            Err(e) => Err(e),
        },
        None => Err(Error::TransportClosed),
    }
}

/// Turns the channel outcome of a status query into the operation's
/// result.
pub fn get_outcome(recv: Option<Result<Vec<Msg>, Error>>) -> (r: Result<bool, Error>)
    ensures
        r == get_outcome_spec(recv),
{
    match recv {
        Some(res) => match res {
            Ok(msgs) => match decode(&msgs) {
                Some(d) => match d.enable {
                    Some(b) => Ok(b),
                    None => Err(Error::DecodeIncomplete),
                },
                None => Err(Error::DecodeIncomplete),
            },
            Err(e) => Err(e),
        },
        None => Err(Error::TransportClosed),
    }
}

/// Turns the channel outcome of a telemetry query into the operation's
/// result.
pub fn metrics_outcome(recv: Option<Result<Vec<Msg>, Error>>) -> (r: Result<Dps, Error>)
    ensures
        r == metrics_outcome_spec(recv),
{
    match recv {
        Some(res) => match res {
            Ok(msgs) => match decode(&msgs) {
                Some(d) => Ok(d),
                None => Err(Error::DecodeIncomplete),
            },
            Err(e) => Err(e),
        },
        None => Err(Error::TransportClosed),
    }
}

/// The second half of a toggle: given the channel outcome of the status
/// query, either the write envelope that inverts the observed state, or
/// the query's error, surfaced unchanged.
pub fn toggle_step(dev_id: &String, t: u64, recv: Option<Result<Vec<Msg>, Error>>) -> (r: Result<
    Envelope,
    Error,
>)
    ensures
        match get_outcome_spec(recv) {
            Ok(b) => {
                &&& r matches Ok(env)
                &&& env.dev_id == *dev_id
                &&& env.gw_id matches Some(g) && g == *dev_id
                &&& env.uid is None
                &&& env.t matches Some(ts) && ts@ == dec_digits(t as nat)
                &&& env.dp_id is None
                &&& env.dps matches Some(d) && is_write_dps(d, !b)
            },
            Err(e) => r matches Err(e2) && e2 == e,
        },
{
    match get_outcome(recv) {
        Ok(b) => Ok(encode_write(dev_id, t, !b)),
        Err(e) => Err(e),
    }
}

/// A status read is a function of the response batch alone: a channel
/// that deterministically yields the same batch twice yields the same
/// decoded state both times.
pub proof fn lemma_get_deterministic(
    recv1: Option<Result<Vec<Msg>, Error>>,
    recv2: Option<Result<Vec<Msg>, Error>>,
)
    requires
        recv1 == recv2,
    ensures
        get_outcome_spec(recv1) == get_outcome_spec(recv2),
{
}

} // verus!
