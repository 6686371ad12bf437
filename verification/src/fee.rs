//! Fee estimates: the cache snapshot and the answers built from it.

use vstd::prelude::*;
use crate::message::{Currency, FeeBtc, FeeResp};

verus! {

/// Fee rates for bitcoin as the refresh job last saw them.
#[derive(Clone, Copy, Debug, PartialEq, Eq, Structural)]
pub struct FeesBtc {
    pub fastest_fee: u32,
    pub half_hour_fee: u32,
    pub hour_fee: u32,
}

/// A snapshot of the fee cache. The engine only reads it.
#[derive(Clone, Copy, Debug, PartialEq, Eq, Structural)]
pub struct FeesCache {
    pub btc: FeesBtc,
}

/// Only bitcoin is served.
pub open spec fn supported(currency: Currency) -> bool {
    currency == Currency::Btc
}

pub fn is_supported_currency(currency: &Currency) -> (yes: bool)
    ensures
        yes == supported(*currency),
{
    *currency == Currency::Btc
}

/// The fee answer for one currency: bitcoin gets its three tiers, each
/// tier's cautious and thrifty rate being the same cached value; no other
/// currency has an answer.
pub open spec fn fee_resp_spec(fees: FeesCache, currency: Currency) -> Option<FeeResp> {
    if currency == Currency::Btc {
        Some(
            FeeResp::Btc(
                Currency::Btc,
                FeeBtc {
                    fast_conserv: fees.btc.fastest_fee as u64,
                    fast_econom: fees.btc.fastest_fee as u64,
                    moderate_conserv: fees.btc.half_hour_fee as u64,
                    moderate_econom: fees.btc.half_hour_fee as u64,
                    cheap_conserv: fees.btc.hour_fee as u64,
                    cheap_econom: fees.btc.hour_fee as u64,
                },
            ),
        )
    } else {
        None
    }
}

pub fn make_fee_resp(fees: &FeesCache, currency: &Currency) -> (resp: Option<FeeResp>)
    ensures
        resp == fee_resp_spec(*fees, *currency),
{
    match currency {
        Currency::Btc => {
            let f = &fees.btc;
            Some(
                FeeResp::Btc(
                    Currency::Btc,
                    FeeBtc {
                        fast_conserv: f.fastest_fee as u64,
                        fast_econom: f.fastest_fee as u64,
                        moderate_conserv: f.half_hour_fee as u64,
                        moderate_econom: f.half_hour_fee as u64,
                        cheap_conserv: f.hour_fee as u64,
                        cheap_econom: f.hour_fee as u64,
                    },
                ),
            )
        },
        _ => None,
    }
}

/// The answers to a batch of fee requests: one per requested currency that
/// is supported and has an answer, in the order of the request. Currencies
/// that are not served are passed over.
pub open spec fn fee_answers(currencies: Seq<Currency>, fees: FeesCache) -> Seq<FeeResp>
    decreases currencies.len(),
{
    if currencies.len() == 0 {
        Seq::empty()
    } else {
        let before = fee_answers(currencies.drop_last(), fees);
        let last = currencies.last();
        match fee_resp_spec(fees, last) {
            Some(resp) if supported(last) => before.push(resp),
            _ => before,
        }
    }
}

pub fn fee_responses(currencies: &Vec<Currency>, fees: &FeesCache) -> (resp: Vec<FeeResp>)
    ensures
        resp@ == fee_answers(currencies@, *fees),
{
    let mut resp: Vec<FeeResp> = Vec::new();
    let mut i: usize = 0;
    while i < currencies.len()
        invariant
            i <= currencies.len(),
            resp@ == fee_answers(currencies@.take(i as int), *fees),
        decreases currencies.len() - i,
    {
        let cur = &currencies[i];
        proof {
            assert(currencies@.take(i + 1).drop_last() =~= currencies@.take(i as int));
        }
        if is_supported_currency(cur) {
            if let Some(f) = make_fee_resp(fees, cur) {
                resp.push(f);
            }
        }
        i += 1;
    }
    proof {
        assert(currencies@.take(i as int) =~= currencies@);
    }
    resp
}

/// A batch of fee answers never speaks of a currency that is not served,
/// and never holds more answers than currencies were asked for.
pub proof fn fee_answers_only_supported(currencies: Seq<Currency>, fees: FeesCache)
    ensures
        fee_answers(currencies, fees).len() <= currencies.len(),
        forall|i: int|
            0 <= i < fee_answers(currencies, fees).len() ==> supported(
                #[trigger] fee_answers(currencies, fees)[i].currency(),
            ),
    decreases currencies.len(),
{
    if currencies.len() > 0 {
        fee_answers_only_supported(currencies.drop_last(), fees);
    }
}

} // verus!
