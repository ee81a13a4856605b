//! The errors that the engine reports to its caller.

use vstd::prelude::*;
use vstd::string::StringExecFns;

verus! {

/// What can go wrong between the feed and the indicators.
#[derive(Debug)]
pub enum MarketDataError {
    /// The initial connection failed on every attempt.
    ConnectFailed,
    /// A message was to be sent while the transport was disconnected.
    NotConnected,
    /// The bucket duration cannot be read.
    InvalidFrequency,
    /// An inbound message is no JSON or lacks an expected field.
    MalformedMessage,
    /// A consumer fell behind the bus.
    Lagged,
    /// The connection reported an error of its own.
    WebSocketError(String),
}

impl MarketDataError {
    /// The message of the error.
    pub open spec fn text(self) -> Seq<char> {
        match self {
            MarketDataError::ConnectFailed => "Failed to connect after max retries"@,
            MarketDataError::NotConnected => "Not connected"@,
            MarketDataError::InvalidFrequency => "Invalid frequency"@,
            MarketDataError::MalformedMessage => "Malformed message"@,
            MarketDataError::Lagged => "Consumer lagged"@,
            MarketDataError::WebSocketError(msg) => "WebSocket error: "@ + msg@,
        }
    }

    /// The message of the error.
    pub fn to_string(&self) -> (s: String)
        ensures
            s@ == self.text(),
    {
        match self {
            MarketDataError::ConnectFailed => String::from_str(
                "Failed to connect after max retries",
            ),
            MarketDataError::NotConnected => String::from_str("Not connected"),
            MarketDataError::InvalidFrequency => String::from_str("Invalid frequency"),
            MarketDataError::MalformedMessage => String::from_str("Malformed message"),
            MarketDataError::Lagged => String::from_str("Consumer lagged"),
            MarketDataError::WebSocketError(msg) => String::from_str("WebSocket error: ").concat(
                msg.as_str(),
            ),
        }
    }
}

} // verus!
