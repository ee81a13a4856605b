//! The interface of a node that serves one instrument from the raw feed.

use vstd::prelude::*;
use crate::types::NodeResponse;

verus! {

/// A node that takes the feed's messages for one instrument and reports
/// records of type `T`.
pub trait DataNode<T> {
    /// The node's state is well formed.
    spec fn ready(&self) -> bool;

    /// The bucket duration that the node was made with.
    spec fn frequency(&self) -> Seq<char>;

    /// The instrument that the node serves.
    spec fn instrument(&self) -> Seq<char>;

    /// Takes one message of the feed at clock reading `now` and reports the
    /// period that the message finalized or, if it finalized none, what the
    /// open period holds.
    fn process_data(&mut self, data: &str, now: i64) -> (response: NodeResponse<T>)
        requires
            old(self).ready(),
        ensures
            final(self).ready(),
            final(self).frequency() == old(self).frequency(),
            final(self).instrument() == old(self).instrument(),
            response.timestamp == now,
    ;

    fn get_freq(&self) -> (freq: &str)
        ensures
            freq@ == self.frequency(),
    ;

    fn get_instrument_id(&self) -> (id: &str)
        ensures
            id@ == self.instrument(),
    ;
}

} // verus!
