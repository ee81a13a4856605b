//! The mid-price indicator: each best-bid/offer sample is classified and
//! turned into a mid price; the last one of a period is reported when the
//! period is finalized.

use vstd::prelude::*;
use crate::data_node::DataNode;
use crate::error::MarketDataError;
use crate::gate::{lawful, GateStep};
use crate::feed::{decode_message, decoded_text, FeedMessage, FeedView};
use crate::nodes::{distinct, find_id, id_views, unique, unique_ids};
use crate::text::str_equal;
use crate::types::{
    emitted_period,
    no_data,
    AMOUNT_LIMIT,
    DataStatus,
    DmsEventType,
    Emission,
    Intake,
    MidPriceData,
    NodeResponse,
};
use crate::utils::{
    duration_millis,
    floor_div,
    millis_of,
    period_of,
    to_millis,
    IntervalManager,
    PeriodTracker,
};

verus! {

/// Best bid and offer at one exchange time (microseconds).
#[derive(Debug, Clone, Copy, PartialEq, Eq, Structural)]
pub struct BboSample {
    pub ask_price: i64,
    pub ask_qty: i64,
    pub bid_price: i64,
    pub bid_qty: i64,
    pub exchange_time: i64,
}

/// A mid price for the candle indicator, with the exchange time
/// (microseconds) of the sample it was derived from.
#[derive(Debug, Clone, Copy, PartialEq, Eq, Structural)]
pub struct PriceTick {
    pub mid_price: i64,
    pub exchange_time: i64,
}

/// Half of `x`, rounded down.
pub open spec fn half(x: int) -> int {
    x / 2
}

impl BboSample {
    /// Both prices are small enough for the arithmetic of the indicator.
    pub open spec fn in_range(self) -> bool {
        &&& -AMOUNT_LIMIT <= self.ask_price <= AMOUNT_LIMIT
        &&& -AMOUNT_LIMIT <= self.bid_price <= AMOUNT_LIMIT
    }

    /// The quality of the sample, by the first rule that applies: older than
    /// the sample before it; ask not above bid; no quantity on either side;
    /// quantity on one side only; otherwise valid.
    pub open spec fn quality(self, last_exchange_time: i64) -> DataStatus {
        if self.exchange_time < last_exchange_time {
            DataStatus::NonMono
        } else if self.ask_price <= self.bid_price {
            DataStatus::CrossPrice
        } else if self.ask_qty == 0 && self.bid_qty == 0 {
            DataStatus::InvalidQty
        } else if self.ask_qty == 0 || self.bid_qty == 0 {
            DataStatus::OnewayQuote
        } else {
            DataStatus::BasicValid
        }
    }

    /// The mid price of the sample, given the ask and bid of the last valid
    /// sample. A valid sample gives the mean of its ask and bid. A bid-only
    /// sample gives its bid plus half the last valid spread, an ask-only
    /// sample half its ask. Any other sample gives the mean of the last
    /// valid ask and bid. Halves are rounded down.
    pub open spec fn mid(self, last_exchange_time: i64, last_ask: i64, last_bid: i64) -> int {
        match self.quality(last_exchange_time) {
            DataStatus::BasicValid => half(self.ask_price + self.bid_price),
            DataStatus::OnewayQuote => if self.ask_qty == 0 {
                self.bid_price + half(last_ask - last_bid)
            } else {
                half(self.ask_price as int)
            },
            _ => half(last_ask + last_bid),
        }
    }
}

/// What one step of the mid-price indicator did: how the sample was taken,
/// the price handed to the candle indicator, and the report of the period
/// that the step finalized, if it finalized one.
#[derive(Debug)]
pub struct BboOutcome {
    pub intake: Intake,
    pub price: Option<PriceTick>,
    pub emission: Option<Emission<MidPriceData>>,
}

/// The mid-price state of one instrument.
pub struct MidPriceInstrument {
    pub instrument_id: String,
    pub freq: String,
    /// Exchange time of the last accepted sample, in microseconds.
    pub last_exchange_time: i64,
    /// Quality of the last accepted sample.
    pub status: DataStatus,
    pub current: MidPriceData,
    pub tracker: PeriodTracker,
    /// Ask of the last valid sample.
    pub last_ask_price: i64,
    /// Bid of the last valid sample.
    pub last_bid_price: i64,
}

/// What the node reports when a period is finalized at clock reading `now`
/// with `current` as its last record: the record with the quality `status`
/// if it holds a sample, and an invalid period without data otherwise.
pub open spec fn report(
    current: MidPriceData,
    status: DataStatus,
    now: i64,
) -> NodeResponse<MidPriceData> {
    if current.exchange_time > 0 {
        NodeResponse { data: Some(current), status, timestamp: now }
    } else {
        NodeResponse { data: None, status: DataStatus::Invalid, timestamp: now }
    }
}

/// The record with which the next period starts after `current` was
/// reported.
pub open spec fn cleared(current: MidPriceData) -> MidPriceData {
    if current.exchange_time > 0 {
        MidPriceData { exchange_time: 0, mid_prc: 0 }
    } else {
        current
    }
}

impl MidPriceInstrument {
    pub open spec fn wf(&self) -> bool {
        &&& self.tracker.wf()
        &&& -AMOUNT_LIMIT <= self.last_bid_price <= self.last_ask_price <= AMOUNT_LIMIT
    }

    /// The state in which an instrument starts.
    pub open spec fn initial(&self, freq: Seq<char>, current_time: int) -> bool {
        &&& self.wf()
        &&& self.freq@ == freq
        &&& duration_millis(freq) == Some(self.tracker.manager.duration())
        &&& self.tracker.manager.index() == period_of(current_time, self.tracker.manager.duration())
        &&& self.tracker.gate.last() == 0
        &&& self.last_exchange_time == 0
        &&& self.status == DataStatus::Empty
        &&& self.current == MidPriceData { exchange_time: 0, mid_prc: 0 }
        &&& self.last_ask_price == 0
        &&& self.last_bid_price == 0
    }

    /// The sample is taken: it is not stamped more than a second ahead of
    /// the clock, and its prices are in range.
    pub open spec fn takes(sample: BboSample, now: i64) -> bool {
        millis_of(sample.exchange_time as int) - 1000 <= now && sample.in_range()
    }

    /// The emission of the check at `t`, made at clock reading `now`.
    pub open spec fn emission_at(self, t: int, now: i64) -> Option<Emission<MidPriceData>> {
        if self.tracker.closes(t) {
            Some(
                Emission {
                    period_id: self.tracker.manager.current_index,
                    response: report(self.current, self.status, now),
                },
            )
        } else {
            None
        }
    }

    /// The state after the check at `t`: if the open period is over and not
    /// finalized yet, it is closed and the record cleared.
    pub open spec fn after_check(self, t: int) -> Self {
        if self.tracker.closes(t) {
            MidPriceInstrument {
                current: cleared(self.current),
                tracker: self.tracker.closed(),
                ..self
            }
        } else {
            self
        }
    }

    /// The state after `sample` was classified and made the current record,
    /// before the period is checked.
    pub open spec fn recorded(self, sample: BboSample) -> Self {
        let quality = sample.quality(self.last_exchange_time);
        let mid = sample.mid(self.last_exchange_time, self.last_ask_price, self.last_bid_price);
        MidPriceInstrument {
            last_exchange_time: sample.exchange_time,
            status: quality,
            current: MidPriceData {
                exchange_time: millis_of(sample.exchange_time as int) as i64,
                mid_prc: mid as i64,
            },
            last_ask_price: if quality == DataStatus::BasicValid {
                sample.ask_price
            } else {
                self.last_ask_price
            },
            last_bid_price: if quality == DataStatus::BasicValid {
                sample.bid_price
            } else {
                self.last_bid_price
            },
            ..self
        }
    }

    /// The state after `sample` arrived at clock reading `now`.
    ///
    /// A sample stamped more than a second ahead of the clock changes
    /// nothing, and neither does one whose prices are out of range. Any
    /// other sample is classified and becomes the current record; then the
    /// open period is checked at the sample's time.
    pub open spec fn after_bbo(self, sample: BboSample, now: i64) -> Self {
        if Self::takes(sample, now) {
            self.recorded(sample).after_check(millis_of(sample.exchange_time as int))
        } else {
            self
        }
    }

    /// How `sample` is taken at clock reading `now`.
    pub open spec fn bbo_intake(sample: BboSample, now: i64) -> Intake {
        if !sample.in_range() {
            Intake::OutOfRange
        } else if millis_of(sample.exchange_time as int) - 1000 > now {
            Intake::Future
        } else {
            Intake::Accepted
        }
    }

    /// The price that `sample` hands to the candle indicator: its mid price,
    /// if it is taken and its exchange time is positive.
    pub open spec fn bbo_price(self, sample: BboSample, now: i64) -> Option<PriceTick> {
        if Self::takes(sample, now) && sample.exchange_time > 0 {
            Some(
                PriceTick {
                    mid_price: sample.mid(
                        self.last_exchange_time,
                        self.last_ask_price,
                        self.last_bid_price,
                    ) as i64,
                    exchange_time: sample.exchange_time,
                },
            )
        } else {
            None
        }
    }

    /// The emission that `sample` causes at clock reading `now`: that of the
    /// period which the sample's time closes, with the sample as its record.
    pub open spec fn bbo_emission(self, sample: BboSample, now: i64) -> Option<
        Emission<MidPriceData>,
    > {
        if Self::takes(sample, now) {
            self.recorded(sample).emission_at(millis_of(sample.exchange_time as int), now)
        } else {
            None
        }
    }

    /// An instrument that has seen no sample, for periods given by `freq`, at
    /// clock reading `current_time`. `None` when `freq` is no bucket
    /// specification or the period of `current_time` cannot be represented.
    pub fn new(freq: &str, instrument_id: String, current_time: i64) -> (r: Option<Self>)
        ensures
            match r {
                Some(m) => m.initial(freq@, current_time as int) && m.instrument_id
                    == instrument_id,
                None => duration_millis(freq@) is None || !IntervalManager::fits(
                    duration_millis(freq@).unwrap(),
                    current_time as int,
                ),
            },
    {
        match PeriodTracker::new(freq, current_time) {
            Some(tracker) => Some(
                MidPriceInstrument {
                    instrument_id,
                    freq: freq.to_owned(),
                    last_exchange_time: 0,
                    status: DataStatus::Empty,
                    current: MidPriceData { exchange_time: 0, mid_prc: 0 },
                    tracker,
                    last_ask_price: 0,
                    last_bid_price: 0,
                },
            ),
            None => None,
        }
    }

    /// Classifies `sample` against the last accepted exchange time and the
    /// last valid ask and bid, and computes its mid price.
    pub fn classify(
        sample: &BboSample,
        last_exchange_time: i64,
        last_ask: i64,
        last_bid: i64,
    ) -> (r: (DataStatus, i64))
        requires
            sample.in_range(),
            -AMOUNT_LIMIT <= last_bid <= last_ask <= AMOUNT_LIMIT,
        ensures
            r.0 == sample.quality(last_exchange_time),
            r.1 == sample.mid(last_exchange_time, last_ask, last_bid),
    {
        if sample.exchange_time < last_exchange_time {
            (DataStatus::NonMono, floor_div(last_ask + last_bid, 2))
        } else if sample.ask_price <= sample.bid_price {
            (DataStatus::CrossPrice, floor_div(last_ask + last_bid, 2))
        } else if sample.ask_qty == 0 && sample.bid_qty == 0 {
            (DataStatus::InvalidQty, floor_div(last_ask + last_bid, 2))
        } else if sample.ask_qty == 0 {
            (DataStatus::OnewayQuote, sample.bid_price + floor_div(last_ask - last_bid, 2))
        } else if sample.bid_qty == 0 {
            (DataStatus::OnewayQuote, floor_div(sample.ask_price, 2))
        } else {
            (DataStatus::BasicValid, floor_div(sample.ask_price + sample.bid_price, 2))
        }
    }

    /// Checks the open period at `t`: if it is over, it is finalized through
    /// its emission gate, the current record is reported and cleared.
    pub fn send_data(&mut self, t: i64, now: i64) -> (r: Option<Emission<MidPriceData>>)
        requires
            old(self).wf(),
        ensures
            final(self).wf(),
            *final(self) == old(self).after_check(t as int),
            r == old(self).emission_at(t as int, now),
    {
        match self.tracker.close_period(t) {
            Some(period_id) => {
                let response = if self.current.exchange_time > 0 {
                    let data = self.current;
                    self.current = MidPriceData { exchange_time: 0, mid_prc: 0 };
                    NodeResponse { data: Some(data), status: self.status.clone(), timestamp: now }
                } else {
                    NodeResponse { data: None, status: DataStatus::Invalid, timestamp: now }
                };
                Some(Emission { period_id, response })
            },
            None => None,
        }
    }

    /// A best-bid/offer sample arrives at clock reading `now`.
    pub fn on_bbo(&mut self, sample: &BboSample, now: i64) -> (out: BboOutcome)
        requires
            old(self).wf(),
        ensures
            final(self).wf(),
            *final(self) == old(self).after_bbo(*sample, now),
            out.intake == Self::bbo_intake(*sample, now),
            out.price == old(self).bbo_price(*sample, now),
            out.emission == old(self).bbo_emission(*sample, now),
    {
        let in_range = -AMOUNT_LIMIT <= sample.ask_price && sample.ask_price <= AMOUNT_LIMIT
            && -AMOUNT_LIMIT <= sample.bid_price && sample.bid_price <= AMOUNT_LIMIT;
        if !in_range {
            return BboOutcome { intake: Intake::OutOfRange, price: None, emission: None };
        }
        let ms = to_millis(sample.exchange_time);
        if ms - 1000 > now {
            return BboOutcome { intake: Intake::Future, price: None, emission: None };
        }
        let (quality, mid) = Self::classify(
            sample,
            self.last_exchange_time,
            self.last_ask_price,
            self.last_bid_price,
        );
        if let DataStatus::BasicValid = quality {
            self.last_ask_price = sample.ask_price;
            self.last_bid_price = sample.bid_price;
        }
        self.current = MidPriceData { exchange_time: ms, mid_prc: mid };
        self.last_exchange_time = sample.exchange_time;
        self.status = quality;
        assert(*self == old(self).recorded(*sample));
        let price = if sample.exchange_time > 0 {
            Some(PriceTick { mid_price: mid, exchange_time: sample.exchange_time })
        } else {
            None
        };
        let emission = self.send_data(ms, now);
        BboOutcome { intake: Intake::Accepted, price, emission }
    }

    /// The periodic check at clock reading `now`.
    pub fn on_timer(&mut self, now: i64) -> (r: Option<Emission<MidPriceData>>)
        requires
            old(self).wf(),
        ensures
            final(self).wf(),
            *final(self) == old(self).after_check(now as int),
            r == old(self).emission_at(now as int, now),
    {
        self.send_data(now, now)
    }

    /// The report for a sample: that of the period which the sample
    /// finalized, or else the sample's record with its quality.
    pub open spec fn response_to(self, sample: BboSample, now: i64) -> NodeResponse<MidPriceData> {
        if !Self::takes(sample, now) {
            no_data(now)
        } else {
            match self.bbo_emission(sample, now) {
                Some(e) => e.response,
                None => NodeResponse {
                    data: Some(self.recorded(sample).current),
                    status: self.recorded(sample).status,
                    timestamp: now,
                },
            }
        }
    }
}

impl DataNode<MidPriceData> for MidPriceInstrument {
    open spec fn ready(&self) -> bool {
        self.wf()
    }

    open spec fn frequency(&self) -> Seq<char> {
        self.freq@
    }

    open spec fn instrument(&self) -> Seq<char> {
        self.instrument_id@
    }

    fn process_data(&mut self, data: &str, now: i64) -> (response: NodeResponse<MidPriceData>)
        ensures
            match decoded_text(data@) {
                FeedView::Bbo { instrument_id, sample } => if instrument_id == old(
                    self,
                ).instrument_id@ {
                    &&& *final(self) == old(self).after_bbo(sample, now)
                    &&& response == old(self).response_to(sample, now)
                } else {
                    *final(self) == *old(self) && response == no_data::<MidPriceData>(now)
                },
                _ => *final(self) == *old(self) && response == no_data::<MidPriceData>(now),
            },
    {
        match decode_message(data) {
            FeedMessage::Bbo { instrument_id, sample } => {
                if str_equal(instrument_id.as_str(), self.instrument_id.as_str()) {
                    let out = self.on_bbo(&sample, now);
                    match out.emission {
                        Some(e) => e.response,
                        None => if let Intake::Accepted = out.intake {
                            NodeResponse {
                                data: Some(self.current),
                                status: self.status.clone(),
                                timestamp: now,
                            }
                        } else {
                            NodeResponse { data: None, status: DataStatus::Invalid, timestamp: now }
                        },
                    }
                } else {
                    NodeResponse { data: None, status: DataStatus::Invalid, timestamp: now }
                }
            },
            _ => NodeResponse { data: None, status: DataStatus::Invalid, timestamp: now },
        }
    }

    fn get_freq(&self) -> (freq: &str) {
        self.freq.as_str()
    }

    fn get_instrument_id(&self) -> (id: &str) {
        self.instrument_id.as_str()
    }
}

/// A sample obeys the emission gate of its instrument.
pub proof fn lemma_bbo_step_lawful(pre: MidPriceInstrument, sample: BboSample, now: i64)
    requires
        pre.wf(),
    ensures
        lawful(
            GateStep {
                before: pre.tracker.gate.last(),
                after: pre.after_bbo(sample, now).tracker.gate.last(),
                emitted: emitted_period(pre.bbo_emission(sample, now)),
            },
        ),
{
}

/// The periodic check obeys the emission gate of its instrument.
pub proof fn lemma_mid_price_timer_lawful(pre: MidPriceInstrument, now: i64)
    requires
        pre.wf(),
    ensures
        lawful(
            GateStep {
                before: pre.tracker.gate.last(),
                after: pre.after_check(now as int).tracker.gate.last(),
                emitted: emitted_period(pre.emission_at(now as int, now)),
            },
        ),
{
}

/// The mid-price indicator of a set of instruments.
pub struct MidPriceNode {
    /// The identifiers of the instruments, each once.
    pub ids: Vec<String>,
    /// The state of each instrument, in the order of `ids`.
    pub instruments: Vec<MidPriceInstrument>,
}

impl MidPriceNode {
    pub open spec fn wf(&self) -> bool {
        &&& self.ids@.len() == self.instruments@.len()
        &&& distinct(id_views(self.ids@))
        &&& forall|i: int|
            0 <= i < self.instruments@.len() ==> (#[trigger] self.instruments@[i]).wf()
                && self.instruments@[i].instrument_id@ == self.ids@[i]@
    }

    /// The node serves the instrument `id`.
    pub open spec fn serves(&self, id: Seq<char>) -> bool {
        id_views(self.ids@).contains(id)
    }

    /// `post` is `self` after the instrument `id` took `sample` at clock
    /// reading `now`: that instrument made its step, every other is as it
    /// was.
    pub open spec fn bbo_applied(
        self,
        post: Self,
        id: Seq<char>,
        sample: BboSample,
        now: i64,
    ) -> bool {
        &&& post.ids == self.ids
        &&& post.instruments@.len() == self.instruments@.len()
        &&& forall|i: int|
            0 <= i < self.instruments@.len() ==> #[trigger] post.instruments@[i] == if self.ids@[i]@
                == id {
                self.instruments@[i].after_bbo(sample, now)
            } else {
                self.instruments@[i]
            }
    }

    /// `out` is what the instrument `id` reports for `sample` at clock
    /// reading `now`, or the report of an unknown instrument if the node
    /// does not serve `id`.
    pub open spec fn bbo_reported(
        self,
        out: BboOutcome,
        id: Seq<char>,
        sample: BboSample,
        now: i64,
    ) -> bool {
        &&& forall|i: int|
            0 <= i < self.instruments@.len() && self.ids@[i]@ == id ==> {
                &&& out.intake == MidPriceInstrument::bbo_intake(sample, now)
                &&& out.price == (#[trigger] self.instruments@[i]).bbo_price(sample, now)
                &&& out.emission == self.instruments@[i].bbo_emission(sample, now)
            }
        &&& !self.serves(id) ==> out.intake == Intake::UnknownInstrument && out.price is None
            && out.emission is None
    }

    /// A node for the instruments `instrument_ids`, repetitions left out,
    /// with periods given by `freq`, at clock reading `current_time`.
    pub fn new(freq: String, instrument_ids: Vec<String>, current_time: i64) -> (r: Result<
        Self,
        MarketDataError,
    >)
        ensures
            match r {
                Ok(node) => {
                    &&& node.wf()
                    &&& id_views(node.ids@) == unique(id_views(instrument_ids@))
                    &&& duration_millis(freq@) is Some
                    &&& IntervalManager::fits(duration_millis(freq@).unwrap(), current_time as int)
                    &&& forall|i: int|
                        0 <= i < node.instruments@.len() ==> (#[trigger] node.instruments@[i]).initial(
                            freq@,
                            current_time as int,
                        )
                },
                Err(e) => {
                    &&& e == MarketDataError::InvalidFrequency
                    &&& duration_millis(freq@) is None || !IntervalManager::fits(
                        duration_millis(freq@).unwrap(),
                        current_time as int,
                    )
                },
            },
    {
        if PeriodTracker::new(freq.as_str(), current_time).is_none() {
            return Err(MarketDataError::InvalidFrequency);
        }
        let ids = unique_ids(instrument_ids);
        let mut instruments: Vec<MidPriceInstrument> = Vec::new();
        let mut i: usize = 0;
        while i < ids.len()
            invariant
                i <= ids.len(),
                instruments@.len() == i,
                duration_millis(freq@) is Some,
                IntervalManager::fits(duration_millis(freq@).unwrap(), current_time as int),
                forall|k: int|
                    0 <= k < i ==> (#[trigger] instruments@[k]).initial(freq@, current_time as int)
                        && instruments@[k].instrument_id@ == ids@[k]@,
            decreases ids.len() - i,
        {
            match MidPriceInstrument::new(freq.as_str(), ids[i].clone(), current_time) {
                Some(instrument) => {
                    instruments.push(instrument);
                },
                None => {
                    return Err(MarketDataError::InvalidFrequency);
                },
            }
            i += 1;
        }
        Ok(MidPriceNode { ids, instruments })
    }

    /// The subscriptions that the node needs: the best bid and offer of each
    /// of its instruments.
    pub fn start(&self) -> (subscriptions: Vec<(DmsEventType, String)>)
        requires
            self.wf(),
        ensures
            subscriptions@.len() == self.ids@.len(),
            forall|i: int|
                0 <= i < subscriptions@.len() ==> (#[trigger] subscriptions@[i]).0
                    == DmsEventType::BBO && subscriptions@[i].1@ == self.ids@[i]@,
    {
        let mut subscriptions: Vec<(DmsEventType, String)> = Vec::new();
        let mut i: usize = 0;
        while i < self.ids.len()
            invariant
                i <= self.ids.len(),
                subscriptions@.len() == i,
                forall|k: int|
                    0 <= k < i ==> (#[trigger] subscriptions@[k]).0 == DmsEventType::BBO
                        && subscriptions@[k].1@ == self.ids@[k]@,
            decreases self.ids.len() - i,
        {
            subscriptions.push((DmsEventType::BBO, self.ids[i].clone()));
            i += 1;
        }
        subscriptions
    }

    /// A sample for `instrument_id` arrives at clock reading `now`: the
    /// instrument of that name takes it, every other instrument stays as it
    /// is. A sample for an instrument that the node does not serve changes
    /// nothing.
    pub fn on_bbo(&mut self, instrument_id: &str, sample: &BboSample, now: i64) -> (out: BboOutcome)
        requires
            old(self).wf(),
        ensures
            final(self).wf(),
            old(self).bbo_applied(*final(self), instrument_id@, *sample, now),
            old(self).bbo_reported(out, instrument_id@, *sample, now),
    {
        match find_id(&self.ids, instrument_id) {
            Some(i) => {
                assert(id_views(self.ids@)[i as int] == instrument_id@);
                assert forall|k: int|
                    0 <= k < self.ids@.len() && self.ids@[k]@ == instrument_id@ implies k == i by {
                    assert(id_views(self.ids@)[k] == id_views(self.ids@)[i as int]);
                }
                self.instruments[i].on_bbo(sample, now)
            },
            None => {
                assert forall|k: int| 0 <= k < self.ids@.len() implies self.ids@[k]@
                    != instrument_id@ by {
                    assert(id_views(self.ids@)[k] == self.ids@[k]@);
                }
                BboOutcome { intake: Intake::UnknownInstrument, price: None, emission: None }
            },
        }
    }

    /// The periodic check of the instrument at position `index`, at clock
    /// reading `now`.
    pub fn on_timer(&mut self, index: usize, now: i64) -> (r: Option<Emission<MidPriceData>>)
        requires
            old(self).wf(),
            index < old(self).instruments@.len(),
        ensures
            final(self).wf(),
            final(self).ids == old(self).ids,
            final(self).instruments@ == old(self).instruments@.update(
                index as int,
                old(self).instruments@[index as int].after_check(now as int),
            ),
            r == old(self).instruments@[index as int].emission_at(now as int, now),
    {
        let r = self.instruments[index].on_timer(now);
        assert(self.instruments@ =~= old(self).instruments@.update(
            index as int,
            old(self).instruments@[index as int].after_check(now as int),
        ));
        r
    }

    /// A decoded message arrives at clock reading `now`. A sample goes to
    /// its instrument; a malformed message is reported as such; anything
    /// else is ignored.
    pub fn on_message(&mut self, message: &FeedMessage, now: i64) -> (out: BboOutcome)
        requires
            old(self).wf(),
        ensures
            final(self).wf(),
            match message@ {
                FeedView::Bbo { instrument_id, sample } => {
                    &&& old(self).bbo_applied(*final(self), instrument_id, sample, now)
                    &&& old(self).bbo_reported(out, instrument_id, sample, now)
                },
                FeedView::Malformed => *final(self) == *old(self) && out.intake
                    == Intake::Malformed && out.price is None && out.emission is None,
                _ => *final(self) == *old(self) && out.intake == Intake::Ignored && out.price
                    is None && out.emission is None,
            },
    {
        match message {
            FeedMessage::Bbo { instrument_id, sample } => self.on_bbo(
                instrument_id.as_str(),
                sample,
                now,
            ),
            FeedMessage::Malformed => BboOutcome {
                intake: Intake::Malformed,
                price: None,
                emission: None,
            },
            _ => BboOutcome { intake: Intake::Ignored, price: None, emission: None },
        }
    }
}

} // verus!
