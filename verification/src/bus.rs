//! The rules of the internal bus: a bounded broadcast on which a slow
//! consumer is told that it lagged, and never holds the producer back.

use vstd::prelude::*;
use crate::error::MarketDataError;

verus! {

/// Messages that the bus buffers for each consumer.
pub const BUS_CAPACITY: usize = 10_000;

/// What a consumer got when it asked the bus for the next message.
#[derive(Debug)]
pub enum Receipt {
    /// The next message.
    Message(String),
    /// The consumer fell behind; this many messages were dropped for it.
    Lagged(u64),
    /// The bus is closed.
    Closed,
}

/// What the consumer does next.
#[derive(Debug)]
pub enum ConsumerStep {
    /// Process the message.
    Process(String),
    /// Pass over what is buffered, up to the latest message, and go on from
    /// there. The error is for the log.
    SkipAhead(MarketDataError),
    /// End the task.
    Stop,
}

/// The step that follows a receipt: a message is processed, a lag is
/// recovered by skipping ahead and is never fatal, and only a closed bus
/// ends the consumer.
pub fn on_receipt(receipt: Receipt) -> (step: ConsumerStep)
    ensures
        step == match receipt {
            Receipt::Message(text) => ConsumerStep::Process(text),
            Receipt::Lagged(_) => ConsumerStep::SkipAhead(MarketDataError::Lagged),
            Receipt::Closed => ConsumerStep::Stop,
        },
{
    match receipt {
        Receipt::Message(text) => ConsumerStep::Process(text),
        Receipt::Lagged(_) => ConsumerStep::SkipAhead(MarketDataError::Lagged),
        Receipt::Closed => ConsumerStep::Stop,
    }
}

} // verus!
