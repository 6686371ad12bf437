//! Filters kept in memory by height, and filter requests answered from them.
//!
//! Storage is a run of filters in ascending height that is read by a first
//! height and a count. `FilterStore` is that run held in a vector: the filter
//! of height `h` stands at index `h`.

use vstd::prelude::*;
use crate::fee::{supported, FeesCache};
use crate::error::IndexerError;
use crate::message::{filter_views, message_views, Filter, FilterView, Message, MessageView};
use crate::rates::RatesCache;
use crate::serve::{filters_message, filters_reply, serve_request, serve_spec};
use crate::serve::{ServeStep, ServeStepView, MAX_FILTERS_REQ};

verus! {

/// The filters of heights `0 .. len`, each at the index of its height.
#[derive(Clone, Debug, PartialEq, Eq)]
pub struct FilterStore {
    pub filters: Vec<Filter>,
}

impl View for FilterStore {
    type V = Seq<FilterView>;

    open spec fn view(&self) -> Seq<FilterView> {
        filter_views(self.filters@)
    }
}

/// The smaller of two numbers.
pub open spec fn least(a: int, b: int) -> int {
    if a <= b {
        a
    } else {
        b
    }
}

/// The height of the newest stored filter, as far as a `u32` can tell it;
/// 0 where nothing is stored.
pub open spec fn top_height(stored: Seq<FilterView>) -> int {
    if stored.len() == 0 {
        0
    } else if stored.len() - 1 > u32::MAX {
        u32::MAX as int
    } else {
        stored.len() - 1
    }
}

/// The stored filters of heights `start .. start + count`, in ascending
/// height. Heights above the newest filter contribute nothing.
pub open spec fn page(stored: Seq<FilterView>, start: int, count: int) -> Seq<FilterView>
    recommends
        0 <= start,
        0 <= count,
{
    stored.subrange(least(start, stored.len() as int), least(start + count, stored.len() as int))
}

fn copy_bytes(bytes: &Vec<u8>) -> (copy: Vec<u8>)
    ensures
        copy@ == bytes@,
{
    let mut copy: Vec<u8> = Vec::new();
    let mut i: usize = 0;
    while i < bytes.len()
        invariant
            i <= bytes.len(),
            copy@ == bytes@.take(i as int),
        decreases bytes.len() - i,
    {
        copy.push(bytes[i]);
        proof {
            assert(bytes@.take(i + 1) =~= bytes@.take(i as int).push(bytes@[i as int]));
        }
        i += 1;
    }
    proof {
        assert(bytes@.take(i as int) =~= bytes@);
    }
    copy
}

impl FilterStore {
    /// The height of the newest stored filter; 0 where nothing is stored.
    pub fn height(&self) -> (h: u32)
        ensures
            h == top_height(self@),
    {
        let len: usize = self.filters.len();
        if len == 0 {
            0
        } else if len - 1 > u32::MAX as usize {
            u32::MAX
        } else {
            (len - 1) as u32
        }
    }

    /// Reads the stored filters of heights `start .. start + count`.
    pub fn read(&self, start: u32, count: u32) -> (out: Vec<Filter>)
        ensures
            filter_views(out@) == page(self@, start as int, count as int),
    {
        let len: usize = self.filters.len();
        let lo: usize = if (start as usize) < len {
            start as usize
        } else {
            len
        };
        let room: usize = len - lo;
        let hi: usize = if (count as usize) < room {
            lo + count as usize
        } else {
            len
        };
        let mut out: Vec<Filter> = Vec::new();
        let mut i: usize = lo;
        proof {
            assert(filter_views(out@) =~= self@.subrange(lo as int, lo as int));
        }
        while i < hi
            invariant
                lo <= i <= hi <= self.filters.len(),
                filter_views(out@) == self@.subrange(lo as int, i as int),
            decreases hi - i,
        {
            let item = Filter {
                block_id: copy_bytes(&self.filters[i].block_id),
                filter: copy_bytes(&self.filters[i].filter),
            };
            let ghost before = out@;
            out.push(item);
            proof {
                assert(item@ == self@[i as int]);
                assert(filter_views(out@) =~= filter_views(before).push(item@));
                assert(self@.subrange(lo as int, i + 1) =~= self@.subrange(lo as int, i as int).push(
                    self@[i as int],
                ));
            }
            i += 1;
        }
        out
    }
}

/// What a message is answered with when the filters come from `stored`:
/// as `serve_spec` says, with the filters that it asks to read put into the
/// answer.
pub open spec fn serve_stored_spec(
    msg: MessageView,
    stored: Seq<FilterView>,
    fees: FeesCache,
    rates: Seq<crate::message::RateRespView>,
) -> ServeStepView {
    match serve_spec(msg, top_height(stored) as u32, fees, rates) {
        ServeStepView::Fetch { currency, start, count } => ServeStepView::Reply(
            filters_message(currency, page(stored, start as int, count as int)),
        ),
        other => other,
    }
}

/// Dispatches one message of the serving phase against filters held in
/// memory. The second part is the number of filters served in answer to a
/// filter request, 0 for every other message.
pub fn serve_stored(msg: &Message, store: &FilterStore, fees: &FeesCache, rates: &RatesCache) -> (out:
    (ServeStep, u64))
    ensures
        out.0@ == serve_stored_spec(msg@, store@, *fees, rates@),
        out.1 == (match serve_spec(msg@, top_height(store@) as u32, *fees, rates@) {
            ServeStepView::Fetch { currency, start, count } => page(
                store@,
                start as int,
                count as int,
            ).len(),
            _ => 0,
        }),
{
    match serve_request(msg, store.height(), fees, rates) {
        ServeStep::Fetch { currency, start, count } => {
            let (reply, served) = filters_reply(currency, store.read(start, count));
            (ServeStep::Reply(reply), served)
        },
        other => (other, 0),
    }
}

/// What the request loop enqueues for a run of received messages, in order,
/// and the error with which it ends, if it does. Each message is answered
/// before the next one is looked at; nothing after a rejection is.
pub open spec fn serve_run(
    msgs: Seq<MessageView>,
    stored: Seq<FilterView>,
    fees: FeesCache,
    rates: Seq<crate::message::RateRespView>,
) -> (Seq<MessageView>, Option<IndexerError>)
    decreases msgs.len(),
{
    if msgs.len() == 0 {
        (Seq::empty(), None)
    } else {
        match serve_stored_spec(msgs[0], stored, fees, rates) {
            ServeStepView::Reply(reply) => {
                let rest = serve_run(msgs.drop_first(), stored, fees, rates);
                (seq![reply] + rest.0, rest.1)
            },
            ServeStepView::Close { reject, error } => (seq![reject], Some(error)),
            _ => serve_run(msgs.drop_first(), stored, fees, rates),
        }
    }
}

/// Runs the request loop over messages held in memory, against filters
/// held in memory. Returns what was enqueued, and the error that ended the
/// loop if one did.
pub fn serve_inbox(msgs: &Vec<Message>, store: &FilterStore, fees: &FeesCache, rates: &RatesCache) -> (out:
    (Vec<Message>, Option<IndexerError>))
    ensures
        (message_views(out.0@), out.1) == serve_run(message_views(msgs@), store@, *fees, rates@),
{
    let ghost all = message_views(msgs@);
    let mut sent: Vec<Message> = Vec::new();
    let mut i: usize = 0;
    proof {
        assert(all.skip(0) =~= all);
        assert(message_views(sent@) =~= Seq::empty());
        assert(Seq::<MessageView>::empty() + serve_run(all, store@, *fees, rates@).0 =~= serve_run(
            all,
            store@,
            *fees,
            rates@,
        ).0);
    }
    while i < msgs.len()
        invariant
            i <= msgs.len(),
            all == message_views(msgs@),
            serve_run(all, store@, *fees, rates@).0 == message_views(sent@) + serve_run(
                all.skip(i as int),
                store@,
                *fees,
                rates@,
            ).0,
            serve_run(all, store@, *fees, rates@).1 == serve_run(
                all.skip(i as int),
                store@,
                *fees,
                rates@,
            ).1,
        decreases msgs.len() - i,
    {
        proof {
            assert(all.skip(i as int).drop_first() =~= all.skip(i + 1));
            assert(all.skip(i as int)[0] == msgs@[i as int]@);
        }
        let ghost before = sent@;
        let ghost rest = serve_run(all.skip(i + 1), store@, *fees, rates@).0;
        let (step, _) = serve_stored(&msgs[i], store, fees, rates);
        match step {
            ServeStep::Reply(reply) => {
                sent.push(reply);
                proof {
                    assert(message_views(sent@) =~= message_views(before).push(reply@));
                    assert(message_views(before) + (seq![reply@] + rest) =~= message_views(sent@)
                        + rest);
                }
            },
            ServeStep::Close { reject, error } => {
                sent.push(reject);
                proof {
                    assert(message_views(sent@) =~= message_views(before) + seq![reject@]);
                }
                return (sent, Some(error));
            },
            _ => {},
        }
        i += 1;
    }
    proof {
        assert(message_views(sent@) + Seq::<MessageView>::empty() =~= message_views(sent@));
    }
    (sent, None)
}

/// Filter paging. A request of `amount` filters from height `start`, for a
/// supported currency, against stored heights `0 ..= top`:
/// above `top` it is answered with no filters; otherwise with
/// `min(amount, MAX_FILTERS_REQ, top - start + 1)` filters, the `i`-th of
/// which is the stored filter of height `start + i`.
pub proof fn filter_paging(
    req: crate::message::FilterReq,
    stored: Seq<FilterView>,
    fees: FeesCache,
    rates: Seq<crate::message::RateRespView>,
)
    requires
        supported(req.currency),
        0 < stored.len() <= u32::MAX,
    ensures
        serve_stored_spec(MessageView::GetFilters(req), stored, fees, rates) is Reply,
        serve_stored_spec(MessageView::GetFilters(req), stored, fees, rates)->Reply_0 is Filters,
        ({
            let answer = serve_stored_spec(
                MessageView::GetFilters(req),
                stored,
                fees,
                rates,
            )->Reply_0->Filters_0;
            let top = stored.len() - 1;
            &&& answer.currency == req.currency
            &&& req.start > top ==> answer.filters.len() == 0
            &&& req.start <= top ==> answer.filters.len() == least(
                least(req.amount as int, MAX_FILTERS_REQ as int),
                top - req.start + 1,
            )
            &&& forall|i: int|
                0 <= i < answer.filters.len() ==> #[trigger] answer.filters[i] == stored[req.start
                    + i]
            &&& answer.filters.len() <= MAX_FILTERS_REQ
        }),
{
}

} // verus!
