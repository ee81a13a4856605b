//! The records that the indicators exchange and emit.
//!
//! Prices and quantities are fixed-point integers: `AMOUNT_SCALE` units make
//! one whole. Exchange times are microseconds where a field says so and
//! milliseconds elsewhere.

use vstd::prelude::*;
use vstd::string::StringExecFns;

verus! {

/// Number of fixed-point units in one whole price or quantity.
pub const AMOUNT_SCALE: i64 = 100_000_000;

/// Largest magnitude of a price or quantity that an indicator accepts from
/// the feed.
pub const AMOUNT_LIMIT: i64 = 0x1000_0000_0000_0000;

/// Data-quality classification of an emitted record.
#[derive(Debug)]
pub enum DataStatus {
    /// Both sides quoted, book not crossed.
    BasicValid,
    /// Nothing was received yet.
    Empty,
    Incomplete,
    /// The period closed without usable data.
    Invalid,
    /// The sample is older than the one before it.
    NonMono,
    /// Only one side of the book carries a quantity.
    OnewayQuote,
    /// The ask is not above the bid.
    CrossPrice,
    /// Neither side carries a quantity.
    InvalidQty,
    Error(String),
}

impl DataStatus {
    /// The label under which the status is reported.
    pub open spec fn text(self) -> Seq<char> {
        match self {
            DataStatus::BasicValid => "BASIC_VALID"@,
            DataStatus::Empty => "EMPTY"@,
            DataStatus::Incomplete => "INCOMPLETE"@,
            DataStatus::Invalid => "INVALID"@,
            DataStatus::Error(e) => "ERROR: "@ + e@,
            DataStatus::NonMono => "NON_MONO"@,
            DataStatus::OnewayQuote => "ONEWAY_QUOTE"@,
            DataStatus::CrossPrice => "CROSS_PRICE"@,
            DataStatus::InvalidQty => "INVALID_QTY"@,
        }
    }

    /// The label under which the status is reported.
    pub fn to_string(&self) -> (s: String)
        ensures
            s@ == self.text(),
    {
        match self {
            DataStatus::BasicValid => String::from_str("BASIC_VALID"),
            DataStatus::Empty => String::from_str("EMPTY"),
            DataStatus::Incomplete => String::from_str("INCOMPLETE"),
            DataStatus::Invalid => String::from_str("INVALID"),
            DataStatus::Error(e) => String::from_str("ERROR: ").concat(e.as_str()),
            DataStatus::NonMono => String::from_str("NON_MONO"),
            DataStatus::OnewayQuote => String::from_str("ONEWAY_QUOTE"),
            DataStatus::CrossPrice => String::from_str("CROSS_PRICE"),
            DataStatus::InvalidQty => String::from_str("INVALID_QTY"),
        }
    }
}

impl Clone for DataStatus {
    fn clone(&self) -> (r: Self)
        ensures
            r == *self,
    {
        match self {
            DataStatus::BasicValid => DataStatus::BasicValid,
            DataStatus::Empty => DataStatus::Empty,
            DataStatus::Incomplete => DataStatus::Incomplete,
            DataStatus::Invalid => DataStatus::Invalid,
            DataStatus::Error(e) => DataStatus::Error(e.clone()),
            DataStatus::NonMono => DataStatus::NonMono,
            DataStatus::OnewayQuote => DataStatus::OnewayQuote,
            DataStatus::CrossPrice => DataStatus::CrossPrice,
            DataStatus::InvalidQty => DataStatus::InvalidQty,
        }
    }
}

/// What a node reports for one period: the record, if there is one, its
/// quality, and the clock reading at which it was produced.
#[derive(Debug)]
pub struct NodeResponse<T> {
    pub data: Option<T>,
    pub status: DataStatus,
    pub timestamp: i64,
}

/// What a node did with one input.
#[derive(Debug, Clone, Copy, PartialEq, Eq, Structural)]
pub enum Intake {
    /// The input was taken into the open period.
    Accepted,
    /// The input is older than one that was taken before it.
    OutOfOrder,
    /// The input is stamped ahead of the clock.
    Future,
    /// A price or quantity is too large to be held.
    OutOfRange,
    /// The input names an instrument that the node does not serve.
    UnknownInstrument,
    /// The message is of a kind that the node does not consume.
    Ignored,
    /// The message is no JSON, or lacks a field that its kind requires.
    Malformed,
}

/// A finalized period: the index under which the emission gate let it through, and
/// what the node reports for it.
#[derive(Debug)]
pub struct Emission<T> {
    pub period_id: i64,
    pub response: NodeResponse<T>,
}

/// The period of an emission, if there is one.
pub open spec fn emitted_period<T>(emission: Option<Emission<T>>) -> Option<int> {
    match emission {
        Some(e) => Some(e.period_id as int),
        None => None,
    }
}

/// The report of a node that has nothing to say at clock reading `now`.
pub open spec fn no_data<T>(now: i64) -> NodeResponse<T> {
    NodeResponse { data: None, status: DataStatus::Invalid, timestamp: now }
}

/// Trade volume of one period.
#[derive(Debug, Clone, Copy, PartialEq, Eq, Structural)]
pub struct TotalVolumeData {
    /// Milliseconds; 0 while the period holds no trade.
    pub exchange_time: i64,
    pub total_volume: i64,
    pub taker_buy_base_asset_volume: i64,
    pub number_of_trades: i64,
    pub period_id: i64,
}

/// The most recent mid price of one period.
#[derive(Debug, Clone, Copy, PartialEq, Eq, Structural)]
pub struct MidPriceData {
    /// Milliseconds; 0 while the period holds no sample.
    pub exchange_time: i64,
    pub mid_prc: i64,
}

/// Open, high, low and close of one period.
#[derive(Debug, Clone, Copy, PartialEq, Eq, Structural)]
pub struct SimpleKlineData {
    /// First millisecond of the period; 0 while no candle is open.
    pub open_time: i64,
    pub open: i64,
    pub high: i64,
    pub low: i64,
    pub close: i64,
    /// Last millisecond of the period.
    pub close_time: i64,
    pub interval_ms: i64,
    pub period_id: i64,
}

/// Kinds of event that the feed offers for subscription.
#[derive(Debug, Clone, Copy, PartialEq, Eq, Structural)]
pub enum DmsEventType {
    KLINE,
    PRICE,
    LOB,
    BBO,
    TRADE,
    LIQUIDATION,
}

impl DmsEventType {
    /// The name of the event kind as it stands in a topic.
    pub open spec fn text(self) -> Seq<char> {
        match self {
            DmsEventType::KLINE => "kline"@,
            DmsEventType::PRICE => "price"@,
            DmsEventType::LOB => "lob"@,
            DmsEventType::BBO => "bbo"@,
            DmsEventType::TRADE => "trade"@,
            DmsEventType::LIQUIDATION => "liquidation"@,
        }
    }

    /// The name of the event kind as it stands in a topic.
    pub fn to_string(&self) -> (s: String)
        ensures
            s@ == self.text(),
    {
        match self {
            DmsEventType::KLINE => String::from_str("kline"),
            DmsEventType::PRICE => String::from_str("price"),
            DmsEventType::LOB => String::from_str("lob"),
            DmsEventType::BBO => String::from_str("bbo"),
            DmsEventType::TRADE => String::from_str("trade"),
            DmsEventType::LIQUIDATION => String::from_str("liquidation"),
        }
    }
}

impl TotalVolumeData {
    /// The aggregate of a period without trades.
    pub open spec fn zero() -> Self {
        TotalVolumeData {
            exchange_time: 0,
            total_volume: 0,
            taker_buy_base_asset_volume: 0,
            number_of_trades: 0,
            period_id: 0,
        }
    }

    /// The aggregate of a period without trades.
    pub fn empty() -> (r: Self)
        ensures
            r == Self::zero(),
    {
        TotalVolumeData {
            exchange_time: 0,
            total_volume: 0,
            taker_buy_base_asset_volume: 0,
            number_of_trades: 0,
            period_id: 0,
        }
    }
}

} // verus!
