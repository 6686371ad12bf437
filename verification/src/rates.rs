//! Exchange rates: the cache snapshot and the answers built from it.

use vstd::prelude::*;
use crate::fee::{is_supported_currency, supported};
use crate::message::{rate_req_views, rate_resp_views};
use crate::message::{Currency, Fiat, FiatRate, RateReq, RateReqView, RateResp, RateRespView};

verus! {

/// The rates known for one currency.
#[derive(Clone, Debug, PartialEq, Eq)]
pub struct CurrencyRates {
    pub currency: Currency,
    pub rates: Vec<FiatRate>,
}

/// A snapshot of the rate cache. Where a currency or a fiat occurs twice,
/// the first entry counts.
#[derive(Clone, Debug, PartialEq, Eq)]
pub struct RatesCache {
    pub entries: Vec<CurrencyRates>,
}

impl View for RatesCache {
    type V = Seq<RateRespView>;

    open spec fn view(&self) -> Seq<RateRespView> {
        self.entries@.map_values(
            |e: CurrencyRates| RateRespView { currency: e.currency, rates: e.rates@ },
        )
    }
}

/// The table of the first entry for `currency`, if there is one.
pub open spec fn table_of(cache: Seq<RateRespView>, currency: Currency) -> Option<Seq<FiatRate>>
    decreases cache.len(),
{
    if cache.len() == 0 {
        None
    } else if cache[0].currency == currency {
        Some(cache[0].rates)
    } else {
        table_of(cache.drop_first(), currency)
    }
}

/// The rate of the first entry for `fiat`, if there is one.
pub open spec fn rate_of(table: Seq<FiatRate>, fiat: Fiat) -> Option<u64>
    decreases table.len(),
{
    if table.len() == 0 {
        None
    } else if table[0].fiat == fiat {
        Some(table[0].rate)
    } else {
        rate_of(table.drop_first(), fiat)
    }
}

/// The requested fiats that the table knows, each with its rate, in the
/// order of the request.
pub open spec fn quotes(fiats: Seq<Fiat>, table: Seq<FiatRate>) -> Seq<FiatRate>
    decreases fiats.len(),
{
    if fiats.len() == 0 {
        Seq::empty()
    } else {
        let before = quotes(fiats.drop_last(), table);
        match rate_of(table, fiats.last()) {
            Some(rate) => before.push(FiatRate { fiat: fiats.last(), rate }),
            None => before,
        }
    }
}

/// The answers to a batch of rate requests: one per request whose currency
/// is supported and has a table in the cache, in the order of the requests.
pub open spec fn rate_answers(reqs: Seq<RateReqView>, cache: Seq<RateRespView>) -> Seq<
    RateRespView,
>
    decreases reqs.len(),
{
    if reqs.len() == 0 {
        Seq::empty()
    } else {
        let before = rate_answers(reqs.drop_last(), cache);
        let last = reqs.last();
        match table_of(cache, last.currency) {
            Some(table) if supported(last.currency) => before.push(
                RateRespView { currency: last.currency, rates: quotes(last.fiats, table) },
            ),
            _ => before,
        }
    }
}

impl RatesCache {
    /// Point lookup of a currency's table.
    pub fn get(&self, currency: &Currency) -> (found: Option<&Vec<FiatRate>>)
        ensures
            match found {
                Some(table) => table_of(self@, *currency) == Some(table@),
                None => table_of(self@, *currency).is_none(),
            },
    {
        let mut i: usize = 0;
        proof {
            assert(self@.skip(0) =~= self@);
        }
        while i < self.entries.len()
            invariant
                i <= self.entries.len(),
                table_of(self@, *currency) == table_of(self@.skip(i as int), *currency),
            decreases self.entries.len() - i,
        {
            proof {
                assert(self@.skip(i as int).drop_first() =~= self@.skip(i + 1));
                assert(self@.skip(i as int)[0] == self@[i as int]);
            }
            if self.entries[i].currency == *currency {
                return Some(&self.entries[i].rates);
            }
            i += 1;
        }
        None
    }
}

/// Point lookup of a fiat's rate in one currency's table.
pub fn find_rate(table: &Vec<FiatRate>, fiat: &Fiat) -> (found: Option<u64>)
    ensures
        found == rate_of(table@, *fiat),
{
    let mut i: usize = 0;
    proof {
        assert(table@.skip(0) =~= table@);
    }
    while i < table.len()
        invariant
            i <= table.len(),
            rate_of(table@, *fiat) == rate_of(table@.skip(i as int), *fiat),
        decreases table.len() - i,
    {
        proof {
            assert(table@.skip(i as int).drop_first() =~= table@.skip(i + 1));
            assert(table@.skip(i as int)[0] == table@[i as int]);
        }
        if table[i].fiat == *fiat {
            return Some(table[i].rate);
        }
        i += 1;
    }
    None
}

/// Collects the rates of the requested fiats that the table knows.
pub fn quote_fiats(fiats: &Vec<Fiat>, table: &Vec<FiatRate>) -> (out: Vec<FiatRate>)
    ensures
        out@ == quotes(fiats@, table@),
{
    let mut out: Vec<FiatRate> = Vec::new();
    let mut i: usize = 0;
    while i < fiats.len()
        invariant
            i <= fiats.len(),
            out@ == quotes(fiats@.take(i as int), table@),
        decreases fiats.len() - i,
    {
        proof {
            assert(fiats@.take(i + 1).drop_last() =~= fiats@.take(i as int));
        }
        let fiat = fiats[i];
        if let Some(rate) = find_rate(table, &fiat) {
            out.push(FiatRate { fiat, rate });
        }
        i += 1;
    }
    proof {
        assert(fiats@.take(i as int) =~= fiats@);
    }
    out
}

/// Answers a batch of rate requests from the cache.
pub fn rate_responses(reqs: &Vec<RateReq>, cache: &RatesCache) -> (resp: Vec<RateResp>)
    ensures
        rate_resp_views(resp@) == rate_answers(rate_req_views(reqs@), cache@),
{
    let mut resp: Vec<RateResp> = Vec::new();
    let mut i: usize = 0;
    let ghost all = rate_req_views(reqs@);
    proof {
        assert(rate_resp_views(resp@) =~= Seq::empty());
    }
    while i < reqs.len()
        invariant
            i <= reqs.len(),
            all == rate_req_views(reqs@),
            rate_resp_views(resp@) == rate_answers(all.take(i as int), cache@),
        decreases reqs.len() - i,
    {
        let req = &reqs[i];
        proof {
            assert(all.take(i + 1).drop_last() =~= all.take(i as int));
            assert(all.take(i + 1).last() == req@);
        }
        if is_supported_currency(&req.currency) {
            if let Some(table) = cache.get(&req.currency) {
                let rates = quote_fiats(&req.fiats, table);
                let ghost before = resp@;
                let item = RateResp { currency: req.currency, rates };
                resp.push(item);
                proof {
                    assert(rate_resp_views(resp@) =~= rate_resp_views(before).push(item@));
                }
            }
        }
        i += 1;
    }
    proof {
        assert(all.take(i as int) =~= all);
    }
    resp
}

/// A batch of rate answers never speaks of a currency that is not served,
/// and never holds more answers than requests were made.
pub proof fn rate_answers_only_supported(reqs: Seq<RateReqView>, cache: Seq<RateRespView>)
    ensures
        rate_answers(reqs, cache).len() <= reqs.len(),
        forall|i: int|
            0 <= i < rate_answers(reqs, cache).len() ==> supported(
                (#[trigger] rate_answers(reqs, cache)[i]).currency,
            ),
    decreases reqs.len(),
{
    if reqs.len() > 0 {
        rate_answers_only_supported(reqs.drop_last(), cache);
    }
}

} // verus!
