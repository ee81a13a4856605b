//! Windowed aggregation of a market-data feed.
//!
//! The library holds the rules of the engine, each with a proved contract:
//! how clock readings map to periods (`utils`), how a period is
//! finalized exactly once (`gate`), how the feed's messages are decoded
//! (`json`, `amount`, `feed`), what each indicator does with a sample, a
//! trade or a tick of the timer (`nodes`), how the indicators are wired
//! (`engine`), how the transport connects, reconnects and resubscribes
//! (`ws_client`), and how a replay clock runs (`replay`).
//!
//! The library performs no input or output and reads no clock. Its caller
//! reads the socket and the clock, hands over what it read, and carries out
//! what the library answers.

pub mod amount;
pub mod bus;
pub mod cache;
pub mod data_node;
pub mod engine;
pub mod error;
pub mod feed;
pub mod gate;
pub mod json;
pub mod nodes;
pub mod replay;
pub mod schema;
pub mod text;
pub mod timestamp;
pub mod types;
pub mod utils;
pub mod ws_client;
