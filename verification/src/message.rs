//! Protocol messages as plain data, with their mathematical views.

use vstd::prelude::*;

verus! {

/// Eight bytes that identify a node instance or a ping.
pub type Nonce = [u8; 8];

#[derive(Clone, Copy, Debug, PartialEq, Eq, Structural)]
pub enum Currency {
    Btc,
    TBtc,
    Ergo,
    TErgo,
    UsdtOmni,
    TUsdtOmni,
    Ltc,
    TLtc,
    Zec,
    TZec,
    Cpr,
    TCpr,
    Dash,
    TDash,
    Unknown(u32),
}

#[derive(Clone, Copy, Debug, PartialEq, Eq, Structural)]
pub enum Fiat {
    Usd,
    Eur,
    Rub,
    Unknown(u32),
}

#[derive(Clone, Copy, Debug, PartialEq, Eq, Structural)]
pub struct Version {
    pub major: u16,
    pub minor: u16,
    pub patch: u16,
}

/// What a node knows about one currency when it introduces itself.
#[derive(Clone, Copy, Debug, PartialEq, Eq, Structural)]
pub struct ScanBlock {
    pub currency: Currency,
    pub version: Version,
    pub scan_height: u64,
    pub height: u64,
}

#[derive(Clone, Debug, PartialEq, Eq)]
pub struct VersionMessage {
    pub version: Version,
    pub time: u64,
    pub nonce: Nonce,
    pub scan_blocks: Vec<ScanBlock>,
}

pub struct VersionMessageView {
    pub version: Version,
    pub time: u64,
    pub nonce: Nonce,
    pub scan_blocks: Seq<ScanBlock>,
}

impl View for VersionMessage {
    type V = VersionMessageView;

    open spec fn view(&self) -> VersionMessageView {
        VersionMessageView {
            version: self.version,
            time: self.time,
            nonce: self.nonce,
            scan_blocks: self.scan_blocks@,
        }
    }
}

#[derive(Clone, Copy, Debug, PartialEq, Eq, Structural)]
pub struct FilterReq {
    pub currency: Currency,
    pub start: u64,
    pub amount: u32,
}

/// One compact filter with the id of the block it was built from.
#[derive(Clone, Debug, PartialEq, Eq)]
pub struct Filter {
    pub block_id: Vec<u8>,
    pub filter: Vec<u8>,
}

pub struct FilterView {
    pub block_id: Seq<u8>,
    pub filter: Seq<u8>,
}

impl View for Filter {
    type V = FilterView;

    open spec fn view(&self) -> FilterView {
        FilterView { block_id: self.block_id@, filter: self.filter@ }
    }
}

/// The views of a run of filters, in the same order.
pub open spec fn filter_views(filters: Seq<Filter>) -> Seq<FilterView> {
    filters.map_values(|f: Filter| f@)
}

#[derive(Clone, Debug, PartialEq, Eq)]
pub struct FiltersResp {
    pub currency: Currency,
    pub filters: Vec<Filter>,
}

pub struct FiltersRespView {
    pub currency: Currency,
    pub filters: Seq<FilterView>,
}

impl View for FiltersResp {
    type V = FiltersRespView;

    open spec fn view(&self) -> FiltersRespView {
        FiltersRespView { currency: self.currency, filters: filter_views(self.filters@) }
    }
}

/// Fee rates for bitcoin: three tiers, each in a cautious and a thrifty flavour.
#[derive(Clone, Copy, Debug, PartialEq, Eq, Structural)]
pub struct FeeBtc {
    pub fast_conserv: u64,
    pub fast_econom: u64,
    pub moderate_conserv: u64,
    pub moderate_econom: u64,
    pub cheap_conserv: u64,
    pub cheap_econom: u64,
}

#[derive(Clone, Copy, Debug, PartialEq, Eq, Structural)]
pub struct FeeOther {
    pub fast: u64,
    pub moderate: u64,
    pub cheap: u64,
}

#[derive(Clone, Copy, Debug, PartialEq, Eq, Structural)]
pub enum FeeResp {
    Btc(Currency, FeeBtc),
    Other(Currency, FeeOther),
}

impl FeeResp {
    /// The currency the answer is about.
    pub open spec fn currency(self) -> Currency {
        match self {
            FeeResp::Btc(c, _) => c,
            FeeResp::Other(c, _) => c,
        }
    }
}

#[derive(Clone, Debug, PartialEq, Eq)]
pub struct RateReq {
    pub currency: Currency,
    pub fiats: Vec<Fiat>,
}

pub struct RateReqView {
    pub currency: Currency,
    pub fiats: Seq<Fiat>,
}

impl View for RateReq {
    type V = RateReqView;

    open spec fn view(&self) -> RateReqView {
        RateReqView { currency: self.currency, fiats: self.fiats@ }
    }
}

/// The views of a run of rate requests, in the same order.
pub open spec fn rate_req_views(reqs: Seq<RateReq>) -> Seq<RateReqView> {
    reqs.map_values(|q: RateReq| q@)
}

/// An exchange rate. `rate` is the 64-bit pattern of the decimal value: it is
/// carried through unchanged and never computed with.
#[derive(Clone, Copy, Debug, PartialEq, Eq, Structural)]
pub struct FiatRate {
    pub fiat: Fiat,
    pub rate: u64,
}

#[derive(Clone, Debug, PartialEq, Eq)]
pub struct RateResp {
    pub currency: Currency,
    pub rates: Vec<FiatRate>,
}

pub struct RateRespView {
    pub currency: Currency,
    pub rates: Seq<FiatRate>,
}

impl View for RateResp {
    type V = RateRespView;

    open spec fn view(&self) -> RateRespView {
        RateRespView { currency: self.currency, rates: self.rates@ }
    }
}

/// The views of a run of rate answers, in the same order.
pub open spec fn rate_resp_views(resps: Seq<RateResp>) -> Seq<RateRespView> {
    resps.map_values(|q: RateResp| q@)
}

/// The kind of a message, without its payload.
#[derive(Clone, Copy, Debug, PartialEq, Eq, Structural)]
pub enum MessageKind {
    Version,
    VersionAck,
    GetFilters,
    Filters,
    Ping,
    Pong,
    GetFee,
    Fee,
    GetRates,
    Rates,
    Reject,
}

#[derive(Clone, Copy, Debug, PartialEq, Eq, Structural)]
pub enum RejectData {
    HeaderParsing,
    PayloadParsing,
    InternalError,
    ZeroBytesReceived,
    VersionNotSupported,
}

#[derive(Clone, Debug, PartialEq, Eq)]
pub struct RejectMessage {
    pub id: MessageKind,
    pub data: RejectData,
    pub message: String,
}

pub struct RejectMessageView {
    pub id: MessageKind,
    pub data: RejectData,
    pub message: Seq<char>,
}

impl View for RejectMessage {
    type V = RejectMessageView;

    open spec fn view(&self) -> RejectMessageView {
        RejectMessageView { id: self.id, data: self.data, message: self.message@ }
    }
}

#[derive(Clone, Debug, PartialEq, Eq)]
pub enum Message {
    Version(VersionMessage),
    VersionAck,
    GetFilters(FilterReq),
    Filters(FiltersResp),
    Ping(Nonce),
    Pong(Nonce),
    GetFee(Vec<Currency>),
    Fee(Vec<FeeResp>),
    GetRates(Vec<RateReq>),
    Rates(Vec<RateResp>),
    Reject(RejectMessage),
}

pub enum MessageView {
    Version(VersionMessageView),
    VersionAck,
    GetFilters(FilterReq),
    Filters(FiltersRespView),
    Ping(Nonce),
    Pong(Nonce),
    GetFee(Seq<Currency>),
    Fee(Seq<FeeResp>),
    GetRates(Seq<RateReqView>),
    Rates(Seq<RateRespView>),
    Reject(RejectMessageView),
}

impl View for Message {
    type V = MessageView;

    open spec fn view(&self) -> MessageView {
        match *self {
            Message::Version(m) => MessageView::Version(m@),
            Message::VersionAck => MessageView::VersionAck,
            Message::GetFilters(r) => MessageView::GetFilters(r),
            Message::Filters(r) => MessageView::Filters(r@),
            Message::Ping(n) => MessageView::Ping(n),
            Message::Pong(n) => MessageView::Pong(n),
            Message::GetFee(c) => MessageView::GetFee(c@),
            Message::Fee(f) => MessageView::Fee(f@),
            Message::GetRates(r) => MessageView::GetRates(rate_req_views(r@)),
            Message::Rates(r) => MessageView::Rates(rate_resp_views(r@)),
            Message::Reject(r) => MessageView::Reject(r@),
        }
    }
}

/// The views of a run of messages, in the same order.
pub open spec fn message_views(msgs: Seq<Message>) -> Seq<MessageView> {
    msgs.map_values(|m: Message| m@)
}

impl MessageView {
    /// The kind of the message.
    pub open spec fn kind(self) -> MessageKind {
        match self {
            MessageView::Version(_) => MessageKind::Version,
            MessageView::VersionAck => MessageKind::VersionAck,
            MessageView::GetFilters(_) => MessageKind::GetFilters,
            MessageView::Filters(_) => MessageKind::Filters,
            MessageView::Ping(_) => MessageKind::Ping,
            MessageView::Pong(_) => MessageKind::Pong,
            MessageView::GetFee(_) => MessageKind::GetFee,
            MessageView::Fee(_) => MessageKind::Fee,
            MessageView::GetRates(_) => MessageKind::GetRates,
            MessageView::Rates(_) => MessageKind::Rates,
            MessageView::Reject(_) => MessageKind::Reject,
        }
    }
}

impl Message {
    /// The kind of the message, as a `Reject` names the message it answers.
    pub fn id(&self) -> (kind: MessageKind)
        ensures
            kind == self@.kind(),
    {
        match self {
            Message::Version(_) => MessageKind::Version,
            Message::VersionAck => MessageKind::VersionAck,
            Message::GetFilters(_) => MessageKind::GetFilters,
            Message::Filters(_) => MessageKind::Filters,
            Message::Ping(_) => MessageKind::Ping,
            Message::Pong(_) => MessageKind::Pong,
            Message::GetFee(_) => MessageKind::GetFee,
            Message::Fee(_) => MessageKind::Fee,
            Message::GetRates(_) => MessageKind::GetRates,
            Message::Rates(_) => MessageKind::Rates,
            Message::Reject(_) => MessageKind::Reject,
        }
    }
}

/// Whether two nonces hold the same bytes.
pub fn nonce_eq(a: &Nonce, b: &Nonce) -> (same: bool)
    ensures
        same == (*a == *b),
{
    let mut i: usize = 0;
    while i < 8
        invariant
            i <= 8,
            forall|j: int| 0 <= j < i ==> a[j] == b[j],
        decreases 8 - i,
    {
        if a[i] != b[i] {
            return false;
        }
        i += 1;
    }
    assert(a@ =~= b@);
    assert(*a =~= *b);
    true
}

} // verus!
