//! The volume indicator: quantity, taker-buy quantity and count of the
//! trades of one period.

use vstd::prelude::*;
use crate::data_node::DataNode;
use crate::error::MarketDataError;
use crate::gate::{lawful, GateStep};
use crate::feed::{decode_message, decoded_text, FeedMessage, FeedView};
use crate::nodes::{distinct, find_id, id_views, unique, unique_ids};
use crate::text::str_equal;
use crate::types::{
    emitted_period,
    no_data,
    DataStatus,
    DmsEventType,
    Emission,
    Intake,
    NodeResponse,
    TotalVolumeData,
};
use crate::utils::{
    duration_millis,
    millis_of,
    period_of,
    to_millis,
    IntervalManager,
    PeriodTracker,
};

verus! {

/// One trade: exchange time in microseconds, quantity, and whether the
/// taker bought.
#[derive(Debug, Clone, Copy, PartialEq, Eq, Structural)]
pub struct Trade {
    pub exchange_time: i64,
    pub quantity: i64,
    pub is_buy: bool,
}

/// What one step of the volume indicator did: how the trade was taken, and
/// the report of the period that the step finalized, if it finalized one.
#[derive(Debug)]
pub struct TradeOutcome {
    pub intake: Intake,
    pub emission: Option<Emission<TotalVolumeData>>,
}

/// The running volume of one instrument.
pub struct VolumeInstrument {
    pub instrument_id: String,
    pub freq: String,
    /// Exchange time of the last accepted trade, in microseconds.
    pub last_exchange_time: i64,
    pub current: TotalVolumeData,
    pub tracker: PeriodTracker,
}

impl TotalVolumeData {
    /// The sums that adding `trade` asks for are representable.
    pub open spec fn trade_fits(self, trade: Trade) -> bool {
        &&& i64::MIN <= self.total_volume + trade.quantity <= i64::MAX
        &&& trade.is_buy ==> i64::MIN <= self.taker_buy_base_asset_volume + trade.quantity
            <= i64::MAX
        &&& self.number_of_trades < i64::MAX
    }

    /// The aggregate after `trade` was added: its quantity joins the total,
    /// and the taker-buy total if the taker bought; the count grows by one;
    /// the aggregate carries the trade's time in milliseconds and the period
    /// `period_id`.
    pub open spec fn with_trade(self, trade: Trade, period_id: int) -> Self {
        TotalVolumeData {
            exchange_time: millis_of(trade.exchange_time as int) as i64,
            total_volume: (self.total_volume + trade.quantity) as i64,
            taker_buy_base_asset_volume: if trade.is_buy {
                (self.taker_buy_base_asset_volume + trade.quantity) as i64
            } else {
                self.taker_buy_base_asset_volume
            },
            number_of_trades: (self.number_of_trades + 1) as i64,
            period_id: period_id as i64,
        }
    }

    /// What the node reports when the period of this aggregate is finalized
    /// under `period_id` at clock reading `now`: the aggregate if it holds a
    /// trade, and an invalid period without data otherwise.
    pub open spec fn report(self, period_id: i64, now: i64) -> NodeResponse<TotalVolumeData> {
        if self.exchange_time > 0 {
            NodeResponse {
                data: Some(TotalVolumeData { period_id, ..self }),
                status: DataStatus::BasicValid,
                timestamp: now,
            }
        } else {
            NodeResponse { data: None, status: DataStatus::Invalid, timestamp: now }
        }
    }

    /// The aggregate with which the next period starts after this one was
    /// reported.
    pub open spec fn cleared(self) -> Self {
        if self.exchange_time > 0 {
            Self::zero()
        } else {
            self
        }
    }
}

impl VolumeInstrument {
    pub open spec fn wf(&self) -> bool {
        self.tracker.wf()
    }

    /// The state in which an instrument starts.
    pub open spec fn initial(&self, freq: Seq<char>, current_time: int) -> bool {
        &&& self.wf()
        &&& self.freq@ == freq
        &&& duration_millis(freq) == Some(self.tracker.manager.duration())
        &&& self.tracker.manager.index() == period_of(current_time, self.tracker.manager.duration())
        &&& self.tracker.gate.last() == 0
        &&& self.last_exchange_time == 0
        &&& self.current == TotalVolumeData::zero()
    }

    /// The trade is neither older than the last accepted one nor stamped
    /// ahead of the clock.
    pub open spec fn takes(self, trade: Trade, now: i64) -> bool {
        trade.exchange_time >= self.last_exchange_time && millis_of(trade.exchange_time as int)
            <= now
    }

    /// The emission of the check at `t`, made at clock reading `now`.
    pub open spec fn emission_at(self, t: int, now: i64) -> Option<Emission<TotalVolumeData>> {
        if self.tracker.closes(t) {
            Some(
                Emission {
                    period_id: self.tracker.manager.current_index,
                    response: self.current.report(self.tracker.manager.current_index, now),
                },
            )
        } else {
            None
        }
    }

    /// The state after the check at `t`: if the open period is over and not
    /// finalized yet, it is closed and the aggregate cleared.
    pub open spec fn after_check(self, t: int) -> Self {
        if self.tracker.closes(t) {
            VolumeInstrument {
                current: self.current.cleared(),
                tracker: self.tracker.closed(),
                ..self
            }
        } else {
            self
        }
    }

    /// The state after `trade` arrived at clock reading `now`.
    ///
    /// A trade older than the last accepted one, or stamped ahead of the
    /// clock, changes nothing. Otherwise the open period is checked at the
    /// trade's time, then the trade is added and the aggregate tagged with
    /// the period of the trade's time; a trade whose sums cannot be held is
    /// left out.
    pub open spec fn after_trade(self, trade: Trade, now: i64) -> Self {
        if !self.takes(trade, now) {
            self
        } else {
            let ms = millis_of(trade.exchange_time as int);
            let checked = self.after_check(ms);
            if checked.current.trade_fits(trade) {
                VolumeInstrument {
                    current: checked.current.with_trade(
                        trade,
                        period_of(ms, self.tracker.manager.duration()),
                    ),
                    last_exchange_time: trade.exchange_time,
                    ..checked
                }
            } else {
                checked
            }
        }
    }

    /// How `trade` is taken at clock reading `now`.
    pub open spec fn trade_intake(self, trade: Trade, now: i64) -> Intake {
        if trade.exchange_time < self.last_exchange_time {
            Intake::OutOfOrder
        } else if millis_of(trade.exchange_time as int) > now {
            Intake::Future
        } else if self.after_check(millis_of(trade.exchange_time as int)).current.trade_fits(
            trade,
        ) {
            Intake::Accepted
        } else {
            Intake::OutOfRange
        }
    }

    /// The emission that `trade` causes at clock reading `now`.
    pub open spec fn trade_emission(self, trade: Trade, now: i64) -> Option<
        Emission<TotalVolumeData>,
    > {
        if self.takes(trade, now) {
            self.emission_at(millis_of(trade.exchange_time as int), now)
        } else {
            None
        }
    }

    /// An instrument without trades, for periods given by `freq`, at clock
    /// reading `current_time`. `None` when `freq` is no bucket duration
    /// or the period of `current_time` cannot be represented.
    pub fn new(freq: &str, instrument_id: String, current_time: i64) -> (r: Option<Self>)
        ensures
            match r {
                Some(v) => v.initial(freq@, current_time as int) && v.instrument_id
                    == instrument_id,
                None => duration_millis(freq@) is None || !IntervalManager::fits(
                    duration_millis(freq@).unwrap(),
                    current_time as int,
                ),
            },
    {
        match PeriodTracker::new(freq, current_time) {
            Some(tracker) => Some(
                VolumeInstrument {
                    instrument_id,
                    freq: freq.to_owned(),
                    last_exchange_time: 0,
                    current: TotalVolumeData::empty(),
                    tracker,
                },
            ),
            None => None,
        }
    }

    /// Checks the open period at `t`: if it is over, it is finalized through
    /// its emission gate, reported under its index, and the aggregate is
    /// reset to zero.
    pub fn send_data(&mut self, t: i64, now: i64) -> (r: Option<Emission<TotalVolumeData>>)
        requires
            old(self).wf(),
        ensures
            final(self).wf(),
            *final(self) == old(self).after_check(t as int),
            r == old(self).emission_at(t as int, now),
    {
        match self.tracker.close_period(t) {
            Some(period_id) => {
                let response = if self.current.exchange_time > 0 {
                    let mut data = self.current;
                    data.period_id = period_id;
                    self.current = TotalVolumeData::empty();
                    NodeResponse {
                        data: Some(data),
                        status: DataStatus::BasicValid,
                        timestamp: now,
                    }
                } else {
                    NodeResponse { data: None, status: DataStatus::Invalid, timestamp: now }
                };
                Some(Emission { period_id, response })
            },
            None => None,
        }
    }

    /// A trade arrives at clock reading `now`.
    pub fn on_trade(&mut self, trade: &Trade, now: i64) -> (out: TradeOutcome)
        requires
            old(self).wf(),
        ensures
            final(self).wf(),
            *final(self) == old(self).after_trade(*trade, now),
            out.intake == old(self).trade_intake(*trade, now),
            out.emission == old(self).trade_emission(*trade, now),
    {
        if trade.exchange_time < self.last_exchange_time {
            return TradeOutcome { intake: Intake::OutOfOrder, emission: None };
        }
        let ms = to_millis(trade.exchange_time);
        if ms > now {
            return TradeOutcome { intake: Intake::Future, emission: None };
        }
        let emission = self.send_data(ms, now);
        let total = self.current.total_volume.checked_add(trade.quantity);
        let taker = if trade.is_buy {
            self.current.taker_buy_base_asset_volume.checked_add(trade.quantity)
        } else {
            Some(self.current.taker_buy_base_asset_volume)
        };
        let count = self.current.number_of_trades.checked_add(1);
        match (total, taker, count) {
            (Some(total), Some(taker), Some(count)) => {
                self.current.total_volume = total;
                self.current.taker_buy_base_asset_volume = taker;
                self.current.number_of_trades = count;
                self.current.exchange_time = ms;
                self.current.period_id = self.tracker.manager.get_period_id(ms);
                self.last_exchange_time = trade.exchange_time;
                TradeOutcome { intake: Intake::Accepted, emission }
            },
            _ => TradeOutcome { intake: Intake::OutOfRange, emission },
        }
    }

    /// The periodic check at clock reading `now`.
    pub fn on_timer(&mut self, now: i64) -> (r: Option<Emission<TotalVolumeData>>)
        requires
            old(self).wf(),
        ensures
            final(self).wf(),
            *final(self) == old(self).after_check(now as int),
            r == old(self).emission_at(now as int, now),
    {
        self.send_data(now, now)
    }

    /// The report for a message: that of the period which the message
    /// finalized, or else the open period's aggregate if the trade was
    /// added, or else none.
    pub open spec fn response_to(
        out: TradeOutcome,
        current: TotalVolumeData,
        now: i64,
    ) -> NodeResponse<TotalVolumeData> {
        match out.emission {
            Some(e) => e.response,
            None => if out.intake == Intake::Accepted {
                NodeResponse { data: Some(current), status: DataStatus::BasicValid, timestamp: now }
            } else {
                no_data(now)
            },
        }
    }

    /// Whether `view` is a trade for this instrument.
    pub open spec fn addressed(self, view: FeedView) -> bool {
        view matches FeedView::Trade { instrument_id, .. } && instrument_id
            == self.instrument_id@
    }
}

impl DataNode<TotalVolumeData> for VolumeInstrument {
    open spec fn ready(&self) -> bool {
        self.wf()
    }

    open spec fn frequency(&self) -> Seq<char> {
        self.freq@
    }

    open spec fn instrument(&self) -> Seq<char> {
        self.instrument_id@
    }

    fn process_data(&mut self, data: &str, now: i64) -> (response: NodeResponse<TotalVolumeData>)
        ensures
            match decoded_text(data@) {
                FeedView::Trade { instrument_id, trade } => if instrument_id == old(
                    self,
                ).instrument_id@ {
                    &&& *final(self) == old(self).after_trade(trade, now)
                    &&& response == Self::response_to(
                        TradeOutcome {
                            intake: old(self).trade_intake(trade, now),
                            emission: old(self).trade_emission(trade, now),
                        },
                        final(self).current,
                        now,
                    )
                } else {
                    *final(self) == *old(self) && response == no_data::<TotalVolumeData>(now)
                },
                _ => *final(self) == *old(self) && response == no_data::<TotalVolumeData>(now),
            },
    {
        match decode_message(data) {
            FeedMessage::Trade { instrument_id, trade } => {
                if str_equal(instrument_id.as_str(), self.instrument_id.as_str()) {
                    let out = self.on_trade(&trade, now);
                    match out.emission {
                        Some(e) => e.response,
                        None => if let Intake::Accepted = out.intake {
                            NodeResponse {
                                data: Some(self.current),
                                status: DataStatus::BasicValid,
                                timestamp: now,
                            }
                        } else {
                            NodeResponse { data: None, status: DataStatus::Invalid, timestamp: now }
                        },
                    }
                } else {
                    NodeResponse { data: None, status: DataStatus::Invalid, timestamp: now }
                }
            },
            _ => NodeResponse { data: None, status: DataStatus::Invalid, timestamp: now },
        }
    }

    fn get_freq(&self) -> (freq: &str) {
        self.freq.as_str()
    }

    fn get_instrument_id(&self) -> (id: &str) {
        self.instrument_id.as_str()
    }
}

/// The sum of the quantities of `trades`.
pub open spec fn total_quantity(trades: Seq<Trade>) -> int
    decreases trades.len(),
{
    if trades.len() == 0 {
        0
    } else {
        total_quantity(trades.drop_last()) + trades.last().quantity
    }
}

/// The sum of the quantities of those of `trades` in which the taker
/// bought.
pub open spec fn buy_quantity(trades: Seq<Trade>) -> int
    decreases trades.len(),
{
    if trades.len() == 0 {
        0
    } else if trades.last().is_buy {
        buy_quantity(trades.drop_last()) + trades.last().quantity
    } else {
        buy_quantity(trades.drop_last())
    }
}

/// The aggregate after `trades` were added to `start`, one after another,
/// all in the period `period_id`.
pub open spec fn accumulated(start: TotalVolumeData, trades: Seq<Trade>, period_id: int) -> TotalVolumeData
    decreases trades.len(),
{
    if trades.len() == 0 {
        start
    } else {
        accumulated(start, trades.drop_last(), period_id).with_trade(trades.last(), period_id)
    }
}

/// Each of `trades` can be added when its turn comes.
pub open spec fn all_fit(start: TotalVolumeData, trades: Seq<Trade>, period_id: int) -> bool {
    forall|k: int|
        0 <= k < trades.len() ==> accumulated(start, #[trigger] trades.take(k), period_id).trade_fits(
            trades[k],
        )
}

/// The aggregate of a period is the sum of its trades: the total volume is
/// the sum of all quantities, the taker-buy volume the sum of the bought
/// ones, and the count the number of trades.
pub proof fn lemma_volume_accumulates(start: TotalVolumeData, trades: Seq<Trade>, period_id: int)
    requires
        all_fit(start, trades, period_id),
    ensures
        accumulated(start, trades, period_id).total_volume == start.total_volume + total_quantity(
            trades,
        ),
        accumulated(start, trades, period_id).taker_buy_base_asset_volume
            == start.taker_buy_base_asset_volume + buy_quantity(trades),
        accumulated(start, trades, period_id).number_of_trades == start.number_of_trades
            + trades.len(),
    decreases trades.len(),
{
    if trades.len() > 0 {
        let head = trades.drop_last();
        assert(all_fit(start, head, period_id)) by {
            assert forall|k: int| 0 <= k < head.len() implies accumulated(
                start,
                #[trigger] head.take(k),
                period_id,
            ).trade_fits(head[k]) by {
                assert(head.take(k) =~= trades.take(k));
                assert(head[k] == trades[k]);
            }
        }
        lemma_volume_accumulates(start, head, period_id);
        assert(trades.take(trades.len() - 1) =~= head);
        assert(accumulated(start, head, period_id).trade_fits(trades[trades.len() - 1]));
    }
}

/// A trade obeys the emission gate of its instrument.
pub proof fn lemma_trade_step_lawful(pre: VolumeInstrument, trade: Trade, now: i64)
    requires
        pre.wf(),
    ensures
        lawful(
            GateStep {
                before: pre.tracker.gate.last(),
                after: pre.after_trade(trade, now).tracker.gate.last(),
                emitted: emitted_period(pre.trade_emission(trade, now)),
            },
        ),
{
}

/// The periodic check obeys the emission gate of its instrument.
pub proof fn lemma_volume_timer_lawful(pre: VolumeInstrument, now: i64)
    requires
        pre.wf(),
    ensures
        lawful(
            GateStep {
                before: pre.tracker.gate.last(),
                after: pre.after_check(now as int).tracker.gate.last(),
                emitted: emitted_period(pre.emission_at(now as int, now)),
            },
        ),
{
}

/// The volume indicator of a set of instruments.
pub struct TotalVolumeNode {
    /// The identifiers of the instruments, each once.
    pub ids: Vec<String>,
    /// The state of each instrument, in the order of `ids`.
    pub instruments: Vec<VolumeInstrument>,
}

impl TotalVolumeNode {
    pub open spec fn wf(&self) -> bool {
        &&& self.ids@.len() == self.instruments@.len()
        &&& distinct(id_views(self.ids@))
        &&& forall|i: int|
            0 <= i < self.instruments@.len() ==> (#[trigger] self.instruments@[i]).wf()
                && self.instruments@[i].instrument_id@ == self.ids@[i]@
    }

    /// The node serves the instrument `id`.
    pub open spec fn serves(&self, id: Seq<char>) -> bool {
        id_views(self.ids@).contains(id)
    }

    /// `post` is `self` after the instrument `id` took `trade` at clock
    /// reading `now`: that instrument made its step, every other is as it
    /// was.
    pub open spec fn trade_applied(self, post: Self, id: Seq<char>, trade: Trade, now: i64) -> bool {
        &&& post.ids == self.ids
        &&& post.instruments@.len() == self.instruments@.len()
        &&& forall|i: int|
            0 <= i < self.instruments@.len() ==> #[trigger] post.instruments@[i] == if self.ids@[i]@
                == id {
                self.instruments@[i].after_trade(trade, now)
            } else {
                self.instruments@[i]
            }
    }

    /// `out` is what the instrument `id` reports for `trade` at clock
    /// reading `now`, or the report of an unknown instrument if the node
    /// does not serve `id`.
    pub open spec fn trade_reported(
        self,
        out: TradeOutcome,
        id: Seq<char>,
        trade: Trade,
        now: i64,
    ) -> bool {
        &&& forall|i: int|
            0 <= i < self.instruments@.len() && self.ids@[i]@ == id ==> out.intake == (
            #[trigger] self.instruments@[i]).trade_intake(trade, now) && out.emission
                == self.instruments@[i].trade_emission(trade, now)
        &&& !self.serves(id) ==> out.intake == Intake::UnknownInstrument && out.emission is None
    }

    /// A node for the instruments `instrument_ids`, repetitions left out,
    /// with periods given by `freq`, at clock reading `current_time`.
    pub fn new(freq: String, instrument_ids: Vec<String>, current_time: i64) -> (r: Result<
        Self,
        MarketDataError,
    >)
        ensures
            match r {
                Ok(node) => {
                    &&& node.wf()
                    &&& id_views(node.ids@) == unique(id_views(instrument_ids@))
                    &&& duration_millis(freq@) is Some
                    &&& IntervalManager::fits(duration_millis(freq@).unwrap(), current_time as int)
                    &&& forall|i: int|
                        0 <= i < node.instruments@.len() ==> (#[trigger] node.instruments@[i]).initial(
                            freq@,
                            current_time as int,
                        )
                },
                Err(e) => {
                    &&& e == MarketDataError::InvalidFrequency
                    &&& duration_millis(freq@) is None || !IntervalManager::fits(
                        duration_millis(freq@).unwrap(),
                        current_time as int,
                    )
                },
            },
    {
        if PeriodTracker::new(freq.as_str(), current_time).is_none() {
            return Err(MarketDataError::InvalidFrequency);
        }
        let ids = unique_ids(instrument_ids);
        let mut instruments: Vec<VolumeInstrument> = Vec::new();
        let mut i: usize = 0;
        while i < ids.len()
            invariant
                i <= ids.len(),
                instruments@.len() == i,
                duration_millis(freq@) is Some,
                IntervalManager::fits(duration_millis(freq@).unwrap(), current_time as int),
                forall|k: int|
                    0 <= k < i ==> (#[trigger] instruments@[k]).initial(freq@, current_time as int)
                        && instruments@[k].instrument_id@ == ids@[k]@,
            decreases ids.len() - i,
        {
            match VolumeInstrument::new(freq.as_str(), ids[i].clone(), current_time) {
                Some(instrument) => {
                    instruments.push(instrument);
                },
                None => {
                    return Err(MarketDataError::InvalidFrequency);
                },
            }
            i += 1;
        }
        Ok(TotalVolumeNode { ids, instruments })
    }

    /// The subscriptions that the node needs: the trades of each of its
    /// instruments.
    pub fn start(&self) -> (subscriptions: Vec<(DmsEventType, String)>)
        requires
            self.wf(),
        ensures
            subscriptions@.len() == self.ids@.len(),
            forall|i: int|
                0 <= i < subscriptions@.len() ==> (#[trigger] subscriptions@[i]).0
                    == DmsEventType::TRADE && subscriptions@[i].1@ == self.ids@[i]@,
    {
        let mut subscriptions: Vec<(DmsEventType, String)> = Vec::new();
        let mut i: usize = 0;
        while i < self.ids.len()
            invariant
                i <= self.ids.len(),
                subscriptions@.len() == i,
                forall|k: int|
                    0 <= k < i ==> (#[trigger] subscriptions@[k]).0 == DmsEventType::TRADE
                        && subscriptions@[k].1@ == self.ids@[k]@,
            decreases self.ids.len() - i,
        {
            subscriptions.push((DmsEventType::TRADE, self.ids[i].clone()));
            i += 1;
        }
        subscriptions
    }

    /// A trade for `instrument_id` arrives at clock reading `now`: the
    /// instrument of that name takes it, every other instrument stays as it
    /// is. A trade for an instrument that the node does not serve changes
    /// nothing.
    pub fn on_trade(&mut self, instrument_id: &str, trade: &Trade, now: i64) -> (out: TradeOutcome)
        requires
            old(self).wf(),
        ensures
            final(self).wf(),
            old(self).trade_applied(*final(self), instrument_id@, *trade, now),
            old(self).trade_reported(out, instrument_id@, *trade, now),
    {
        match find_id(&self.ids, instrument_id) {
            Some(i) => {
                assert(id_views(self.ids@)[i as int] == instrument_id@);
                assert forall|k: int|
                    0 <= k < self.ids@.len() && self.ids@[k]@ == instrument_id@ implies k == i by {
                    assert(id_views(self.ids@)[k] == id_views(self.ids@)[i as int]);
                }
                self.instruments[i].on_trade(trade, now)
            },
            None => {
                assert forall|k: int| 0 <= k < self.ids@.len() implies self.ids@[k]@
                    != instrument_id@ by {
                    assert(id_views(self.ids@)[k] == self.ids@[k]@);
                }
                TradeOutcome { intake: Intake::UnknownInstrument, emission: None }
            },
        }
    }

    /// The periodic check of the instrument at position `index`, at clock
    /// reading `now`.
    pub fn on_timer(&mut self, index: usize, now: i64) -> (r: Option<Emission<TotalVolumeData>>)
        requires
            old(self).wf(),
            index < old(self).instruments@.len(),
        ensures
            final(self).wf(),
            final(self).ids == old(self).ids,
            final(self).instruments@ == old(self).instruments@.update(
                index as int,
                old(self).instruments@[index as int].after_check(now as int),
            ),
            r == old(self).instruments@[index as int].emission_at(now as int, now),
    {
        let r = self.instruments[index].on_timer(now);
        assert(self.instruments@ =~= old(self).instruments@.update(
            index as int,
            old(self).instruments@[index as int].after_check(now as int),
        ));
        r
    }

    /// A decoded message arrives at clock reading `now`. A trade goes to its
    /// instrument; a malformed message is reported as such; anything else
    /// is ignored.
    pub fn on_message(&mut self, message: &FeedMessage, now: i64) -> (out: TradeOutcome)
        requires
            old(self).wf(),
        ensures
            final(self).wf(),
            final(self).ids == old(self).ids,
            final(self).instruments@.len() == old(self).instruments@.len(),
            match message@ {
                FeedView::Trade { instrument_id, trade } => {
                    &&& old(self).trade_applied(*final(self), instrument_id, trade, now)
                    &&& old(self).trade_reported(out, instrument_id, trade, now)
                },
                FeedView::Malformed => *final(self) == *old(self) && out.intake
                    == Intake::Malformed && out.emission is None,
                _ => *final(self) == *old(self) && out.intake == Intake::Ignored
                    && out.emission is None,
            },
    {
        match message {
            FeedMessage::Trade { instrument_id, trade } => self.on_trade(
                instrument_id.as_str(),
                trade,
                now,
            ),
            FeedMessage::Malformed => TradeOutcome { intake: Intake::Malformed, emission: None },
            _ => TradeOutcome { intake: Intake::Ignored, emission: None },
        }
    }
}

} // verus!
