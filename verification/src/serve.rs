//! The request/response loop of the serving phase, one request at a time.
//!
//! `serve_request` decides what a received message calls for. Reading filters
//! from storage is the caller's work: the decision names the heights to read,
//! and `filters_reply` wraps what was read.

use vstd::prelude::*;
use crate::error::IndexerError;
use crate::fee::{fee_answers, fee_answers_only_supported, fee_responses};
use crate::fee::{is_supported_currency, supported, FeesCache};
use crate::message::{filter_views, Currency, Filter, FilterView, FiltersResp, FiltersRespView};
use crate::message::{Message, MessageKind, MessageView, RejectData, RejectMessage};
use crate::message::{RateRespView, RejectMessageView};
use crate::rates::{rate_answers, rate_answers_only_supported, rate_responses, RatesCache};

verus! {

/// Most filters that one request is answered with.
pub const MAX_FILTERS_REQ: u32 = 2000;

/// What the engine does about one received message.
#[derive(Clone, Debug, PartialEq, Eq)]
pub enum ServeStep {
    /// Enqueue the message and go on.
    Reply(Message),
    /// Read the filters of heights `start .. start + count` that storage
    /// holds, in ascending height, and answer with them.
    Fetch { currency: Currency, start: u32, count: u32 },
    /// Enqueue the rejection, then end the session with the error.
    Close { reject: Message, error: IndexerError },
    /// Nothing to send, nothing wrong.
    Ignore,
}

pub enum ServeStepView {
    Reply(MessageView),
    Fetch { currency: Currency, start: u32, count: u32 },
    Close { reject: MessageView, error: IndexerError },
    Ignore,
}

impl View for ServeStep {
    type V = ServeStepView;

    open spec fn view(&self) -> ServeStepView {
        match *self {
            ServeStep::Reply(m) => ServeStepView::Reply(m@),
            ServeStep::Fetch { currency, start, count } => ServeStepView::Fetch {
                currency,
                start,
                count,
            },
            ServeStep::Close { reject, error } => ServeStepView::Close { reject: reject@, error },
            ServeStep::Ignore => ServeStepView::Ignore,
        }
    }
}

/// The number of filters asked for, cut down to the most one answer holds.
pub open spec fn clamped(amount: u32) -> u32 {
    if amount < MAX_FILTERS_REQ {
        amount
    } else {
        MAX_FILTERS_REQ
    }
}

pub fn clamp_amount(amount: u32) -> (count: u32)
    ensures
        count == clamped(amount),
        count <= amount,
        count <= MAX_FILTERS_REQ,
{
    if amount < MAX_FILTERS_REQ {
        amount
    } else {
        MAX_FILTERS_REQ
    }
}

/// The text of the rejection sent when filters of `currency` are asked for
/// and not served.
pub open spec fn unsupported_text(currency: Currency) -> Seq<char> {
    match currency {
        Currency::Btc => "Not supported currency Btc"@,
        Currency::TBtc => "Not supported currency TBtc"@,
        Currency::Ergo => "Not supported currency Ergo"@,
        Currency::TErgo => "Not supported currency TErgo"@,
        Currency::UsdtOmni => "Not supported currency UsdtOmni"@,
        Currency::TUsdtOmni => "Not supported currency TUsdtOmni"@,
        Currency::Ltc => "Not supported currency Ltc"@,
        Currency::TLtc => "Not supported currency TLtc"@,
        Currency::Zec => "Not supported currency Zec"@,
        Currency::TZec => "Not supported currency TZec"@,
        Currency::Cpr => "Not supported currency Cpr"@,
        Currency::TCpr => "Not supported currency TCpr"@,
        Currency::Dash => "Not supported currency Dash"@,
        Currency::TDash => "Not supported currency TDash"@,
        Currency::Unknown(_) => "Not supported currency Unknown"@,
    }
}

/// The rejection that answers a filter request for a currency not served.
pub open spec fn unsupported_reject(currency: Currency) -> MessageView {
    MessageView::Reject(
        RejectMessageView {
            id: MessageKind::GetFilters,
            data: RejectData::InternalError,
            message: unsupported_text(currency),
        },
    )
}

fn reject_unsupported(currency: Currency) -> (reject: Message)
    ensures
        reject@ == unsupported_reject(currency),
{
    let text: &'static str = match currency {
        Currency::Btc => "Not supported currency Btc",
        Currency::TBtc => "Not supported currency TBtc",
        Currency::Ergo => "Not supported currency Ergo",
        Currency::TErgo => "Not supported currency TErgo",
        Currency::UsdtOmni => "Not supported currency UsdtOmni",
        Currency::TUsdtOmni => "Not supported currency TUsdtOmni",
        Currency::Ltc => "Not supported currency Ltc",
        Currency::TLtc => "Not supported currency TLtc",
        Currency::Zec => "Not supported currency Zec",
        Currency::TZec => "Not supported currency TZec",
        Currency::Cpr => "Not supported currency Cpr",
        Currency::TCpr => "Not supported currency TCpr",
        Currency::Dash => "Not supported currency Dash",
        Currency::TDash => "Not supported currency TDash",
        Currency::Unknown(_) => "Not supported currency Unknown",
    };
    Message::Reject(
        RejectMessage {
            id: MessageKind::GetFilters,
            data: RejectData::InternalError,
            message: text.to_owned(),
        },
    )
}

/// A `Filters` message for `currency` with the given filters.
pub open spec fn filters_message(currency: Currency, filters: Seq<FilterView>) -> MessageView {
    MessageView::Filters(FiltersRespView { currency, filters })
}

/// What one received message calls for, given the height up to which
/// filters are stored and the two cache snapshots.
///
/// A filter request for a currency not served is rejected and ends the
/// session. One that starts above the stored height is answered with no
/// filters. Any other asks for the heights from `start`, as many as were
/// asked for and at most `MAX_FILTERS_REQ`. A ping is echoed. Fee and rate
/// batches are answered from the snapshots. Every other message is ignored.
pub open spec fn serve_spec(
    msg: MessageView,
    filters_height: u32,
    fees: FeesCache,
    rates: Seq<RateRespView>,
) -> ServeStepView {
    match msg {
        MessageView::GetFilters(req) => {
            if !supported(req.currency) {
                ServeStepView::Close {
                    reject: unsupported_reject(req.currency),
                    error: IndexerError::NotSupportedCurrency(req.currency),
                }
            } else if req.start > filters_height {
                ServeStepView::Reply(filters_message(req.currency, Seq::empty()))
            } else {
                ServeStepView::Fetch {
                    currency: req.currency,
                    start: req.start as u32,
                    count: clamped(req.amount),
                }
            }
        },
        MessageView::Ping(nonce) => ServeStepView::Reply(MessageView::Pong(nonce)),
        MessageView::GetFee(currencies) => ServeStepView::Reply(
            MessageView::Fee(fee_answers(currencies, fees)),
        ),
        MessageView::GetRates(reqs) => ServeStepView::Reply(
            MessageView::Rates(rate_answers(reqs, rates)),
        ),
        _ => ServeStepView::Ignore,
    }
}

/// Dispatches one message of the serving phase.
pub fn serve_request(
    msg: &Message,
    filters_height: u32,
    fees: &FeesCache,
    rates: &RatesCache,
) -> (step: ServeStep)
    ensures
        step@ == serve_spec(msg@, filters_height, *fees, rates@),
{
    match msg {
        Message::GetFilters(req) => {
            if !is_supported_currency(&req.currency) {
                ServeStep::Close {
                    reject: reject_unsupported(req.currency),
                    error: IndexerError::NotSupportedCurrency(req.currency),
                }
            } else if req.start > filters_height as u64 {
                let none: Vec<Filter> = Vec::new();
                proof {
                    assert(filter_views(none@) =~= Seq::empty());
                }
                let (resp, _) = filters_reply(req.currency, none);
                ServeStep::Reply(resp)
            } else {
                ServeStep::Fetch {
                    currency: req.currency,
                    start: req.start as u32,
                    count: clamp_amount(req.amount),
                }
            }
        },
        Message::Ping(nonce) => ServeStep::Reply(Message::Pong(*nonce)),
        Message::GetFee(currencies) => ServeStep::Reply(
            Message::Fee(fee_responses(currencies, fees)),
        ),
        Message::GetRates(reqs) => ServeStep::Reply(Message::Rates(rate_responses(reqs, rates))),
        _ => ServeStep::Ignore,
    }
}

/// Wraps filters read from storage into the answer to a filter request.
/// The second part is the number of filters served, by which the caller
/// advances its counter.
pub fn filters_reply(currency: Currency, filters: Vec<Filter>) -> (out: (Message, u64))
    ensures
        out.0@ == filters_message(currency, filter_views(filters@)),
        out.1 == filters@.len(),
{
    let served: u64 = filters.len() as u64;
    (Message::Filters(FiltersResp { currency, filters }), served)
}

/// What a change of the stored filter height calls for: reading the one
/// filter at the new height, to be announced with `announce_reply`.
pub fn announce_request(new_height: u32) -> (step: ServeStep)
    ensures
        step@ == (ServeStepView::Fetch { currency: Currency::Btc, start: new_height, count: 1 }),
{
    ServeStep::Fetch { currency: Currency::Btc, start: new_height, count: 1 }
}

/// The unsolicited message that announces newly stored filters.
pub fn announce_reply(filters: Vec<Filter>) -> (msg: Message)
    ensures
        msg@ == filters_message(Currency::Btc, filter_views(filters@)),
{
    Message::Filters(FiltersResp { currency: Currency::Btc, filters })
}

/// A filter request for a currency that is not served is answered with one
/// rejection and ends the session. A fee or rate batch never ends it: it is
/// answered with one message, in which no currency appears that is not
/// served.
pub proof fn unsupported_currency_handling(
    msg: MessageView,
    filters_height: u32,
    fees: FeesCache,
    rates: Seq<RateRespView>,
)
    ensures
        msg is GetFilters && !supported(msg->GetFilters_0.currency) ==> serve_spec(
            msg,
            filters_height,
            fees,
            rates,
        ) == (ServeStepView::Close {
            reject: unsupported_reject(msg->GetFilters_0.currency),
            error: IndexerError::NotSupportedCurrency(msg->GetFilters_0.currency),
        }),
        msg matches MessageView::GetFee(currencies) ==> {
            &&& serve_spec(msg, filters_height, fees, rates) matches ServeStepView::Reply(
                MessageView::Fee(answers),
            )
            &&& forall|i: int| 0 <= i < answers.len() ==> supported(#[trigger] answers[i].currency())
        },
        msg matches MessageView::GetRates(reqs) ==> {
            &&& serve_spec(msg, filters_height, fees, rates) matches ServeStepView::Reply(
                MessageView::Rates(answers),
            )
            &&& forall|i: int| 0 <= i < answers.len() ==> supported((#[trigger] answers[i]).currency)
        },
{
    match msg {
        MessageView::GetFee(currencies) => fee_answers_only_supported(currencies, fees),
        MessageView::GetRates(reqs) => rate_answers_only_supported(reqs, rates),
        _ => {},
    }
}

/// The fee snapshot is read for fee requests only, and the rate snapshot
/// for rate requests only: to every other message they make no difference.
pub proof fn snapshots_read_by_their_requests(
    msg: MessageView,
    filters_height: u32,
    fees: FeesCache,
    other_fees: FeesCache,
    rates: Seq<RateRespView>,
    other_rates: Seq<RateRespView>,
)
    ensures
        !(msg is GetFee) ==> serve_spec(msg, filters_height, fees, rates) == serve_spec(
            msg,
            filters_height,
            other_fees,
            rates,
        ),
        !(msg is GetRates) ==> serve_spec(msg, filters_height, fees, rates) == serve_spec(
            msg,
            filters_height,
            fees,
            other_rates,
        ),
{
}

/// A ping is answered with exactly one pong that carries the same bytes,
/// whatever the stored height and the caches hold.
pub proof fn ping_is_echoed(
    nonce: [u8; 8],
    filters_height: u32,
    fees: FeesCache,
    rates: Seq<RateRespView>,
)
    ensures
        serve_spec(MessageView::Ping(nonce), filters_height, fees, rates) == ServeStepView::Reply(
            MessageView::Pong(nonce),
        ),
{
}

} // verus!
