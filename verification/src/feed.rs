//! The inbound messages of the feed, decoded once into typed events.
//!
//! A trade has the shape
//! `{"topic":"trade.<id>","tt":<time>,"body":{"q":<quantity>,"d":"buy"|"sell"}}`,
//! a best-bid/offer sample the shape
//! `{"topic":"bbo.<id>","tt":<time>,"body":[[ask price, ask quantity, ..],[bid price, bid quantity, ..]]}`.
//! Times are integers in microseconds; prices and quantities are decimal
//! numbers, given as JSON numbers or as strings.

use vstd::prelude::*;
use crate::error::MarketDataError;
use crate::json::{parsed_contents, place, scalar_view, Document, Scalar, ScalarView};
use crate::nodes::mid_price::BboSample;
use crate::nodes::total_volume::Trade;
use crate::text::{chars_of, has_prefix, same_chars, starts_with, string_from};

verus! {

/// One decoded message.
#[derive(Debug)]
pub enum FeedMessage {
    Trade { instrument_id: String, trade: Trade },
    Bbo { instrument_id: String, sample: BboSample },
    /// A message on a topic that no indicator consumes.
    Other,
    /// No JSON, or a trade or sample that lacks a field or holds one that
    /// cannot be read.
    Malformed,
}

/// What a `FeedMessage` holds, with the instrument as its characters.
pub enum FeedView {
    Trade { instrument_id: Seq<char>, trade: Trade },
    Bbo { instrument_id: Seq<char>, sample: BboSample },
    Other,
    Malformed,
}

impl View for FeedMessage {
    type V = FeedView;

    open spec fn view(&self) -> FeedView {
        match self {
            FeedMessage::Trade { instrument_id, trade } => FeedView::Trade {
                instrument_id: instrument_id@,
                trade: *trade,
            },
            FeedMessage::Bbo { instrument_id, sample } => FeedView::Bbo {
                instrument_id: instrument_id@,
                sample: *sample,
            },
            FeedMessage::Other => FeedView::Other,
            FeedMessage::Malformed => FeedView::Malformed,
        }
    }
}

/// The fields of a trade, as they were found in the document.
#[derive(Debug)]
pub struct RawTrade {
    /// At `/tt`.
    pub time: Option<Scalar>,
    /// At `/body/q`.
    pub quantity: Option<Scalar>,
    /// At `/body/d`.
    pub side: Option<Scalar>,
}

/// The fields of a best-bid/offer sample, as they were found in the
/// document.
#[derive(Debug)]
pub struct RawBbo {
    /// At `/tt`.
    pub time: Option<Scalar>,
    /// At `/body`.
    pub body: Option<Scalar>,
    /// At `/body/0`.
    pub ask: Option<Scalar>,
    /// At `/body/1`.
    pub bid: Option<Scalar>,
    /// At `/body/0/0`.
    pub ask_price: Option<Scalar>,
    /// At `/body/0/1`.
    pub ask_qty: Option<Scalar>,
    /// At `/body/1/0`.
    pub bid_price: Option<Scalar>,
    /// At `/body/1/1`.
    pub bid_qty: Option<Scalar>,
}

/// The integer that the field holds.
pub open spec fn integer_in(field: Option<ScalarView>) -> Option<int> {
    match field {
        Some(s) => s.integer(),
        None => None,
    }
}

/// The amount that the field holds.
pub open spec fn amount_in(field: Option<ScalarView>) -> Option<int> {
    match field {
        Some(s) => s.amount(),
        None => None,
    }
}

/// The characters of the string that the field holds.
pub open spec fn text_in(field: Option<ScalarView>) -> Option<Seq<char>> {
    match field {
        Some(s) => s.text(),
        None => None,
    }
}

/// The field is an array.
pub open spec fn is_array(field: Option<ScalarView>) -> bool {
    field == Some(ScalarView::Array)
}

/// The trade for `instrument_id` with the given fields: its time an
/// integer, its quantity an amount, its side a string, which makes it a buy
/// if it is `buy`. Malformed if a field is missing or cannot be read.
pub open spec fn trade_from(
    instrument_id: Seq<char>,
    time: Option<ScalarView>,
    quantity: Option<ScalarView>,
    side: Option<ScalarView>,
) -> FeedView {
    match (integer_in(time), amount_in(quantity), text_in(side)) {
        (Some(t), Some(q), Some(d)) => FeedView::Trade {
            instrument_id,
            trade: Trade { exchange_time: t as i64, quantity: q as i64, is_buy: d == "buy"@ },
        },
        _ => FeedView::Malformed,
    }
}

/// The numbers of a sample.
pub open spec fn sample_from(
    time: Option<ScalarView>,
    ask_price: Option<ScalarView>,
    ask_qty: Option<ScalarView>,
    bid_price: Option<ScalarView>,
    bid_qty: Option<ScalarView>,
) -> Option<BboSample> {
    match (
        integer_in(time),
        amount_in(ask_price),
        amount_in(ask_qty),
        amount_in(bid_price),
        amount_in(bid_qty),
    ) {
        (Some(t), Some(ap), Some(aq), Some(bp), Some(bq)) => Some(
            BboSample {
                ask_price: ap as i64,
                ask_qty: aq as i64,
                bid_price: bp as i64,
                bid_qty: bq as i64,
                exchange_time: t as i64,
            },
        ),
        _ => None,
    }
}

impl RawTrade {
    /// The trade for `instrument_id` that the fields give.
    pub open spec fn decoded(self, instrument_id: Seq<char>) -> FeedView {
        trade_from(
            instrument_id,
            scalar_view(self.time),
            scalar_view(self.quantity),
            scalar_view(self.side),
        )
    }

    /// Reads the fields as a trade for `instrument_id`.
    pub fn interpret(&self, instrument_id: String) -> (m: FeedMessage)
        ensures
            m@ == self.decoded(instrument_id@),
    {
        let time = match &self.time {
            Some(s) => s.as_i64(),
            None => None,
        };
        let quantity = match &self.quantity {
            Some(s) => s.as_amount(),
            None => None,
        };
        let side = match &self.side {
            Some(s) => s.as_chars(),
            None => None,
        };
        match (time, quantity, side) {
            (Some(exchange_time), Some(quantity), Some(side)) => {
                let is_buy = same_chars(&side, &chars_of("buy"));
                FeedMessage::Trade {
                    instrument_id,
                    trade: Trade { exchange_time, quantity, is_buy },
                }
            },
            _ => FeedMessage::Malformed,
        }
    }
}

impl RawBbo {
    /// The sample for `instrument_id` that the fields give: the body an
    /// array whose first two elements are arrays, the ask first; of each,
    /// the first element the price and the second the quantity. Malformed
    /// if a field is missing or cannot be read.
    pub open spec fn decoded(self, instrument_id: Seq<char>) -> FeedView {
        if is_array(scalar_view(self.body)) && is_array(scalar_view(self.ask)) && is_array(
            scalar_view(self.bid),
        ) {
            match sample_from(
                scalar_view(self.time),
                scalar_view(self.ask_price),
                scalar_view(self.ask_qty),
                scalar_view(self.bid_price),
                scalar_view(self.bid_qty),
            ) {
                Some(sample) => FeedView::Bbo { instrument_id, sample },
                None => FeedView::Malformed,
            }
        } else {
            FeedView::Malformed
        }
    }

    /// Reads the fields as a sample for `instrument_id`.
    pub fn interpret(&self, instrument_id: String) -> (m: FeedMessage)
        ensures
            m@ == self.decoded(instrument_id@),
    {
        let arrays = match (&self.body, &self.ask, &self.bid) {
            (Some(Scalar::Array), Some(Scalar::Array), Some(Scalar::Array)) => true,
            _ => false,
        };
        if !arrays {
            return FeedMessage::Malformed;
        }
        let time = match &self.time {
            Some(s) => s.as_i64(),
            None => None,
        };
        let ask_price = match &self.ask_price {
            Some(s) => s.as_amount(),
            None => None,
        };
        let ask_qty = match &self.ask_qty {
            Some(s) => s.as_amount(),
            None => None,
        };
        let bid_price = match &self.bid_price {
            Some(s) => s.as_amount(),
            None => None,
        };
        let bid_qty = match &self.bid_qty {
            Some(s) => s.as_amount(),
            None => None,
        };
        match (time, ask_price, ask_qty, bid_price, bid_qty) {
            (
                Some(exchange_time),
                Some(ask_price),
                Some(ask_qty),
                Some(bid_price),
                Some(bid_qty),
            ) => FeedMessage::Bbo {
                instrument_id,
                sample: BboSample { ask_price, ask_qty, bid_price, bid_qty, exchange_time },
            },
            _ => FeedMessage::Malformed,
        }
    }
}

/// The trade that a document with the contents `held` holds for
/// `instrument_id`.
pub open spec fn decoded_trade(held: Map<Seq<char>, ScalarView>, instrument_id: Seq<char>) -> FeedView {
    trade_from(instrument_id, place(held, "/tt"@), place(held, "/body/q"@), place(held, "/body/d"@))
}

/// The sample that a document with the contents `held` holds for
/// `instrument_id`.
pub open spec fn decoded_bbo(held: Map<Seq<char>, ScalarView>, instrument_id: Seq<char>) -> FeedView {
    if is_array(place(held, "/body"@)) && is_array(place(held, "/body/0"@)) && is_array(
        place(held, "/body/1"@),
    ) {
        match sample_from(
            place(held, "/tt"@),
            place(held, "/body/0/0"@),
            place(held, "/body/0/1"@),
            place(held, "/body/1/0"@),
            place(held, "/body/1/1"@),
        ) {
            Some(sample) => FeedView::Bbo { instrument_id, sample },
            None => FeedView::Malformed,
        }
    } else {
        FeedView::Malformed
    }
}

/// The event that a document with the contents `held` holds, by its topic:
/// a trade under `trade.<id>`, a sample under `bbo.<id>`, nothing for the
/// indicators under another topic. Malformed without a topic.
pub open spec fn decoded(held: Map<Seq<char>, ScalarView>) -> FeedView {
    match text_in(place(held, "/topic"@)) {
        Some(topic) => if has_prefix(topic, "trade."@) {
            decoded_trade(held, topic.skip("trade."@.len() as int))
        } else if has_prefix(topic, "bbo."@) {
            decoded_bbo(held, topic.skip("bbo."@.len() as int))
        } else {
            FeedView::Other
        },
        None => FeedView::Malformed,
    }
}

/// The event that the text `text` holds. Text that is no JSON is malformed.
pub open spec fn decoded_text(text: Seq<char>) -> FeedView {
    match parsed_contents(text) {
        Some(held) => decoded(held),
        None => FeedView::Malformed,
    }
}

/// Decodes a document.
pub fn decode(document: &Document) -> (m: FeedMessage)
    ensures
        m@ == decoded(document.held()),
{
    let topic = match document.at("/topic") {
        Some(scalar) => match scalar.as_chars() {
            Some(topic) => topic,
            None => { return FeedMessage::Malformed; },
        },
        None => { return FeedMessage::Malformed; },
    };
    let trade_prefix = chars_of("trade.");
    let bbo_prefix = chars_of("bbo.");
    if starts_with(&topic, &trade_prefix) {
        let raw = RawTrade {
            time: document.at("/tt"),
            quantity: document.at("/body/q"),
            side: document.at("/body/d"),
        };
        raw.interpret(string_from(&topic, trade_prefix.len()))
    } else if starts_with(&topic, &bbo_prefix) {
        let raw = RawBbo {
            time: document.at("/tt"),
            body: document.at("/body"),
            ask: document.at("/body/0"),
            bid: document.at("/body/1"),
            ask_price: document.at("/body/0/0"),
            ask_qty: document.at("/body/0/1"),
            bid_price: document.at("/body/1/0"),
            bid_qty: document.at("/body/1/1"),
        };
        raw.interpret(string_from(&topic, bbo_prefix.len()))
    } else {
        FeedMessage::Other
    }
}

/// Decodes the text of an inbound message.
pub fn decode_message(text: &str) -> (m: FeedMessage)
    ensures
        m@ == decoded_text(text@),
{
    match Document::parse(text) {
        Some(document) => decode(&document),
        None => FeedMessage::Malformed,
    }
}

/// Decodes the text of an inbound message, with a malformed message as an
/// error of its own, for the caller to drop.
pub fn try_decode(text: &str) -> (r: Result<FeedMessage, MarketDataError>)
    ensures
        match r {
            Ok(message) => !(message@ is Malformed) && message@ == decoded_text(text@),
            Err(e) => e == MarketDataError::MalformedMessage && decoded_text(text@) is Malformed,
        },
{
    match decode_message(text) {
        FeedMessage::Malformed => Err(MarketDataError::MalformedMessage),
        message => Ok(message),
    }
}

} // verus!
