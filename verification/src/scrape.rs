//! Planning one metrics scrape over the registry.
//!
//! A scrape visits every configured outlet, records gauges for the ones
//! whose telemetry arrived, and flags — without failing the scrape — that
//! some outlet could not be read.  Gauge values carry a fixed-point
//! scale; to keep the arithmetic exact they are planned here in units of
//! one thousandth of the exported value (`current` is reported by the
//! device in 1/1000 A already, the other three in 1/100 of their unit).

use vstd::prelude::*;

use crate::codec::Dps;
use crate::errors::Error;

verus! {

/// The gauges one successfully-read outlet contributes, in thousandths
/// of the exported unit, labeled by the outlet's display name.
#[derive(Debug, Clone, PartialEq)]
pub struct GaugeSample {
    pub device: String,
    pub current_milli: u32,
    pub power_milli: u32,
    pub voltage_milli: u32,
    pub frequency_milli: u32,
}

/// The outcome of one scrape: the configured outlet count, one gauge
/// sample per readable outlet in registry order, and whether any outlet
/// failed.
#[derive(Debug, Clone, PartialEq)]
pub struct ScrapeReport {
    pub device_count: usize,
    pub samples: Vec<GaugeSample>,
    pub scrape_error: bool,
}

/// The gauge sample a data point set yields: raw `current` is already in
/// thousandths (scale 1000), the other three are in hundredths (scale
/// 100), so they are multiplied by ten.
pub open spec fn sample_of(device: String, d: Dps) -> GaugeSample {
    GaugeSample {
        device: device,
        current_milli: d.current as u32,
        power_milli: (d.power * 10) as u32,
        voltage_milli: (d.voltage * 10) as u32,
        frequency_milli: (d.frequency * 10) as u32,
    }
}

/// The samples a list of per-outlet results yields: one per success, in
/// order; failures contribute nothing.
pub open spec fn scrape_samples(results: Seq<(String, Result<Dps, Error>)>) -> Seq<GaugeSample>
    decreases results.len(),
{
    if results.len() == 0 {
        Seq::empty()
    } else {
        let rest = scrape_samples(results.drop_last());
        match results.last().1 {
            Ok(d) => rest.push(sample_of(results.last().0, d)),
            Err(_) => rest,
        }
    }
}

/// Whether any per-outlet result failed.
pub open spec fn any_scrape_err(results: Seq<(String, Result<Dps, Error>)>) -> bool
    decreases results.len(),
{
    if results.len() == 0 {
        false
    } else {
        any_scrape_err(results.drop_last()) || results.last().1 is Err
    }
}

/// The error flag is set exactly when some outlet's read failed.
pub proof fn lemma_scrape_error_iff(results: Seq<(String, Result<Dps, Error>)>)
    ensures
        any_scrape_err(results) <==> exists|i: int|
            0 <= i < results.len() && (#[trigger] results[i]).1 is Err,
    decreases results.len(),
{
    if results.len() > 0 {
        lemma_scrape_error_iff(results.drop_last());
        if results.last().1 is Err {
            assert(results[results.len() - 1].1 is Err);
        } else if any_scrape_err(results.drop_last()) {
            let j = choose|j: int|
                0 <= j < results.drop_last().len() && (#[trigger] results.drop_last()[j]).1 is Err;
            assert(results[j].1 is Err);
        } else {
            assert forall|i: int|
                0 <= i < results.len() implies !((#[trigger] results[i]).1 is Err) by {
                if i < results.len() - 1 {
                    assert(results.drop_last()[i] == results[i]);
                }
            }
        }
    }
}

/// How many per-outlet results succeeded.
pub open spec fn ok_count(results: Seq<(String, Result<Dps, Error>)>) -> nat
    decreases results.len(),
{
    if results.len() == 0 {
        0
    } else {
        ok_count(results.drop_last()) + (if results.last().1 is Ok {
            1nat
        } else {
            0nat
        })
    }
}

/// A failed outlet never hides the others' telemetry: the scrape carries
/// exactly one gauge sample for every successful read.
pub proof fn lemma_scrape_keeps_successes(results: Seq<(String, Result<Dps, Error>)>)
    ensures
        scrape_samples(results).len() == ok_count(results),
    decreases results.len(),
{
    if results.len() > 0 {
        lemma_scrape_keeps_successes(results.drop_last());
    }
}

/// Plans one scrape from the per-outlet telemetry results, in registry
/// order: the outlet-count gauge, one sample per success, and the error
/// flag — a failed outlet never hides the others' telemetry.
pub fn plan_scrape(results: &Vec<(String, Result<Dps, Error>)>) -> (r: ScrapeReport)
    ensures
        r.device_count == results@.len(),
        r.samples@ == scrape_samples(results@),
        r.scrape_error == any_scrape_err(results@),
{
    let n = results.len();
    let mut samples: Vec<GaugeSample> = Vec::new();
    let mut scrape_error = false;
    proof {
        assert(results@.take(0) =~= Seq::<(String, Result<Dps, Error>)>::empty());
    }
    for i in 0..n
        invariant
            n == results@.len(),
            samples@ == scrape_samples(results@.take(i as int)),
            scrape_error == any_scrape_err(results@.take(i as int)),
    {
        proof {
            assert(results@.take(i + 1).drop_last() =~= results@.take(i as int));
            assert(results@.take(i + 1).last() == results@[i as int]);
        }
        match &results[i].1 {
            Ok(d) => {
                samples.push(
                    GaugeSample {
                        device: results[i].0.clone(),
                        current_milli: d.current as u32,
                        power_milli: (d.power as u32) * 10,
                        voltage_milli: (d.voltage as u32) * 10,
                        frequency_milli: (d.frequency as u32) * 10,
                    },
                );
            },
            Err(_) => {
                scrape_error = true;
            },
        }
    }
    proof {
        assert(results@.take(n as int) =~= results@);
    }
    ScrapeReport { device_count: n, samples, scrape_error }
}

} // verus!
