//! The candle indicator: open, high, low and close of the mid-price stream,
//! one candle per period.

use vstd::prelude::*;
use crate::error::MarketDataError;
use crate::gate::{lawful, GateStep};
use crate::nodes::{distinct, find_id, id_views, unique, unique_ids};
use crate::types::{
    emitted_period,
    DataStatus,
    DmsEventType,
    Emission,
    Intake,
    NodeResponse,
    SimpleKlineData,
};
use crate::utils::{
    duration_millis,
    max_of,
    millis_of,
    min_of,
    period_of,
    to_millis,
    IntervalManager,
    PeriodTracker,
};

verus! {

impl SimpleKlineData {
    /// The record of a period in which no candle is open.
    pub open spec fn blank(interval_ms: i64) -> Self {
        SimpleKlineData {
            open_time: 0,
            open: 0,
            high: 0,
            low: 0,
            close: 0,
            close_time: 0,
            interval_ms,
            period_id: 0,
        }
    }

    /// The candle that the first price of a period opens, for the period
    /// that `manager` holds open.
    pub open spec fn opened(self, price: i64, manager: IntervalManager) -> Self {
        SimpleKlineData {
            open_time: manager.window_start() as i64,
            open: price,
            high: price,
            low: price,
            close: price,
            close_time: (manager.window_end() - 1) as i64,
            interval_ms: self.interval_ms,
            period_id: manager.current_index,
        }
    }

    /// The candle after a further price of its period.
    pub open spec fn extended(self, price: i64) -> Self {
        SimpleKlineData {
            high: max_of(self.high as int, price as int) as i64,
            low: min_of(self.low as int, price as int) as i64,
            close: price,
            ..self
        }
    }

    /// The candle after `price` was taken into the period that `manager`
    /// holds open: the first price of a period opens the candle, every
    /// further one extends it.
    pub open spec fn absorb(self, price: i64, manager: IntervalManager) -> Self {
        if self.open_time == 0 {
            self.opened(price, manager)
        } else {
            self.extended(price)
        }
    }

    /// What the node reports when the period of this candle is finalized at
    /// clock reading `now`: the candle if it has a positive close, and an
    /// invalid period without data otherwise.
    pub open spec fn report(self, now: i64) -> NodeResponse<SimpleKlineData> {
        if self.close > 0 {
            NodeResponse { data: Some(self), status: DataStatus::BasicValid, timestamp: now }
        } else {
            NodeResponse { data: None, status: DataStatus::Invalid, timestamp: now }
        }
    }

    /// The record of a period in which no candle is open.
    pub fn empty(interval_ms: i64) -> (r: Self)
        ensures
            r == Self::blank(interval_ms),
    {
        SimpleKlineData {
            open_time: 0,
            open: 0,
            high: 0,
            low: 0,
            close: 0,
            close_time: 0,
            interval_ms,
            period_id: 0,
        }
    }
}

/// What one step of the candle indicator did: how the price was taken, and
/// the report of the period that the step finalized, if it finalized one.
#[derive(Debug)]
pub struct KlineOutcome {
    pub intake: Intake,
    pub emission: Option<Emission<SimpleKlineData>>,
}

/// The candle of one instrument.
pub struct KlineInstrument {
    pub instrument_id: String,
    /// Exchange time of the last accepted price, in microseconds.
    pub last_exchange_time: i64,
    pub current: SimpleKlineData,
    pub tracker: PeriodTracker,
}

impl KlineInstrument {
    pub open spec fn wf(&self) -> bool {
        self.tracker.wf() && self.current.interval_ms == self.tracker.manager.duration()
    }

    /// The state in which an instrument starts.
    pub open spec fn initial(&self, freq: Seq<char>, current_time: int) -> bool {
        &&& self.wf()
        &&& duration_millis(freq) == Some(self.tracker.manager.duration())
        &&& self.tracker.manager.index() == period_of(current_time, self.tracker.manager.duration())
        &&& self.tracker.gate.last() == 0
        &&& self.last_exchange_time == 0
        &&& self.current == SimpleKlineData::blank(self.tracker.manager.duration_ms)
    }

    /// The price is taken: it is neither older than the last accepted one
    /// nor stamped ahead of the clock.
    pub open spec fn takes(self, exchange_time: i64, now: i64) -> bool {
        exchange_time >= self.last_exchange_time && millis_of(exchange_time as int) <= now
    }

    /// The emission of the check at `t`, made at clock reading `now`.
    pub open spec fn emission_at(self, t: int, now: i64) -> Option<Emission<SimpleKlineData>> {
        if self.tracker.closes(t) {
            Some(
                Emission {
                    period_id: self.tracker.manager.current_index,
                    response: self.current.report(now),
                },
            )
        } else {
            None
        }
    }

    /// The state after the check at `t`: if the open period is over and not
    /// finalized yet, it is closed and the candle cleared.
    pub open spec fn after_check(self, t: int) -> Self {
        if self.tracker.closes(t) {
            KlineInstrument {
                current: SimpleKlineData::blank(self.current.interval_ms),
                tracker: self.tracker.closed(),
                ..self
            }
        } else {
            self
        }
    }

    /// The state after the period was brought up to the time `t` of a
    /// price: with a candle open, the period is checked; with none, a period
    /// that is over is left without report.
    pub open spec fn caught_up(self, t: int) -> Self {
        if self.current.open_time > 0 {
            self.after_check(t)
        } else if self.tracker.due(t) {
            KlineInstrument { tracker: self.tracker.skipped(), ..self }
        } else {
            self
        }
    }

    /// The state after `price` with the exchange time `exchange_time`
    /// (microseconds) arrived at clock reading `now`.
    ///
    /// A price older than the last accepted one, or stamped ahead of the
    /// clock, changes nothing. Otherwise the period is brought up to the
    /// price's time, and the price opens the candle of the open period or
    /// extends it.
    pub open spec fn after_price(self, price: i64, exchange_time: i64, now: i64) -> Self {
        if self.takes(exchange_time, now) {
            let ready = self.caught_up(millis_of(exchange_time as int));
            KlineInstrument {
                current: ready.current.absorb(price, ready.tracker.manager),
                last_exchange_time: exchange_time,
                ..ready
            }
        } else {
            self
        }
    }

    /// How a price with the exchange time `exchange_time` is taken at clock
    /// reading `now`.
    pub open spec fn price_intake(self, exchange_time: i64, now: i64) -> Intake {
        if exchange_time < self.last_exchange_time {
            Intake::OutOfOrder
        } else if millis_of(exchange_time as int) > now {
            Intake::Future
        } else {
            Intake::Accepted
        }
    }

    /// The emission that a price with the exchange time `exchange_time`
    /// causes at clock reading `now`.
    pub open spec fn price_emission(self, exchange_time: i64, now: i64) -> Option<
        Emission<SimpleKlineData>,
    > {
        if self.takes(exchange_time, now) && self.current.open_time > 0 {
            self.emission_at(millis_of(exchange_time as int), now)
        } else {
            None
        }
    }

    /// An instrument without a candle, for periods given by `freq`, at clock
    /// reading `current_time`. `None` when `freq` is no bucket duration
    /// or the period of `current_time` cannot be represented.
    pub fn new(freq: &str, instrument_id: String, current_time: i64) -> (r: Option<Self>)
        ensures
            match r {
                Some(k) => k.initial(freq@, current_time as int) && k.instrument_id
                    == instrument_id,
                None => duration_millis(freq@) is None || !IntervalManager::fits(
                    duration_millis(freq@).unwrap(),
                    current_time as int,
                ),
            },
    {
        match PeriodTracker::new(freq, current_time) {
            Some(tracker) => {
                let interval_ms = tracker.manager.get_duration();
                Some(
                    KlineInstrument {
                        instrument_id,
                        last_exchange_time: 0,
                        current: SimpleKlineData::empty(interval_ms),
                        tracker,
                    },
                )
            },
            None => None,
        }
    }

    /// Checks the open period at `t`: if it is over, it is finalized through
    /// its emission gate, the candle is reported and cleared.
    pub fn send_data(&mut self, t: i64, now: i64) -> (r: Option<Emission<SimpleKlineData>>)
        requires
            old(self).wf(),
        ensures
            final(self).wf(),
            *final(self) == old(self).after_check(t as int),
            r == old(self).emission_at(t as int, now),
    {
        match self.tracker.close_period(t) {
            Some(period_id) => {
                let response = if self.current.close > 0 {
                    NodeResponse {
                        data: Some(self.current),
                        status: DataStatus::BasicValid,
                        timestamp: now,
                    }
                } else {
                    NodeResponse { data: None, status: DataStatus::Invalid, timestamp: now }
                };
                self.current = SimpleKlineData::empty(self.current.interval_ms);
                Some(Emission { period_id, response })
            },
            None => None,
        }
    }

    /// A mid price with its exchange time (microseconds) arrives at clock
    /// reading `now`.
    pub fn on_price(&mut self, price: i64, exchange_time: i64, now: i64) -> (out: KlineOutcome)
        requires
            old(self).wf(),
        ensures
            final(self).wf(),
            *final(self) == old(self).after_price(price, exchange_time, now),
            out.intake == old(self).price_intake(exchange_time, now),
            out.emission == old(self).price_emission(exchange_time, now),
    {
        if exchange_time < self.last_exchange_time {
            return KlineOutcome { intake: Intake::OutOfOrder, emission: None };
        }
        let ms = to_millis(exchange_time);
        if ms > now {
            return KlineOutcome { intake: Intake::Future, emission: None };
        }
        let mut emission: Option<Emission<SimpleKlineData>> = None;
        if self.current.open_time > 0 {
            emission = self.send_data(ms, now);
        } else {
            self.tracker.skip_period(ms);
        }
        assert(*self == old(self).caught_up(ms as int));
        if self.current.open_time == 0 {
            let (start, end) = self.tracker.manager.get_current_interval();
            self.current.open_time = start;
            self.current.open = price;
            self.current.high = price;
            self.current.low = price;
            self.current.close = price;
            self.current.close_time = end - 1;
            self.current.period_id = self.tracker.manager.get_current_period();
        } else {
            if price > self.current.high {
                self.current.high = price;
            }
            if price < self.current.low {
                self.current.low = price;
            }
            self.current.close = price;
        }
        self.last_exchange_time = exchange_time;
        KlineOutcome { intake: Intake::Accepted, emission }
    }

    /// The periodic check at clock reading `now`.
    pub fn on_timer(&mut self, now: i64) -> (r: Option<Emission<SimpleKlineData>>)
        requires
            old(self).wf(),
        ensures
            final(self).wf(),
            *final(self) == old(self).after_check(now as int),
            r == old(self).emission_at(now as int, now),
    {
        self.send_data(now, now)
    }
}

/// The candle after `prices` were taken, one after another, into the period
/// that `manager` holds open, starting from `start`.
pub open spec fn absorbed(start: SimpleKlineData, prices: Seq<i64>, manager: IntervalManager) -> SimpleKlineData
    decreases prices.len(),
{
    if prices.len() == 0 {
        start
    } else {
        absorbed(start, prices.drop_last(), manager).absorb(prices.last(), manager)
    }
}

/// The candle of a period sums up its prices: it opens at the first and
/// closes at the last, its high is a price that none exceeds and its low a
/// price that exceeds none. The period must not start at time 0, where a
/// candle counts as not open.
pub proof fn lemma_candle_summarizes(interval_ms: i64, prices: Seq<i64>, manager: IntervalManager)
    requires
        prices.len() > 0,
        manager.wf(),
        manager.window_start() != 0,
    ensures
        ({
            let candle = absorbed(SimpleKlineData::blank(interval_ms), prices, manager);
            &&& candle.open == prices[0]
            &&& candle.close == prices.last()
            &&& candle.open_time == manager.window_start()
            &&& candle.close_time == manager.window_end() - 1
            &&& candle.period_id == manager.index()
            &&& forall|i: int| 0 <= i < prices.len() ==> candle.low <= #[trigger] prices[i] <= candle.high
            &&& exists|i: int| 0 <= i < prices.len() && #[trigger] prices[i] == candle.high
            &&& exists|i: int| 0 <= i < prices.len() && #[trigger] prices[i] == candle.low
        }),
    decreases prices.len(),
{
    let blank = SimpleKlineData::blank(interval_ms);
    let candle = absorbed(blank, prices, manager);
    let head = prices.drop_last();
    if prices.len() == 1 {
        assert(absorbed(blank, head, manager) == blank);
        assert(candle == blank.opened(prices[0], manager));
        assert(prices[0] == candle.high && prices[0] == candle.low);
    } else {
        lemma_candle_summarizes(interval_ms, head, manager);
        let before = absorbed(blank, head, manager);
        assert(before.open_time != 0);
        assert(candle == before.extended(prices.last()));
        assert(head[0] == prices[0]);
        assert forall|i: int| 0 <= i < prices.len() implies candle.low <= #[trigger] prices[i]
            <= candle.high by {
            if i < head.len() {
                assert(head[i] == prices[i]);
            }
        }
        let h = choose|i: int| 0 <= i < head.len() && #[trigger] head[i] == before.high;
        let l = choose|i: int| 0 <= i < head.len() && #[trigger] head[i] == before.low;
        assert(prices[h] == before.high);
        assert(prices[l] == before.low);
        if prices.last() > before.high {
            assert(prices[prices.len() - 1] == candle.high);
        } else {
            assert(prices[h] == candle.high);
        }
        if prices.last() < before.low {
            assert(prices[prices.len() - 1] == candle.low);
        } else {
            assert(prices[l] == candle.low);
        }
    }
}

/// A price obeys the emission gate of its instrument.
pub proof fn lemma_price_step_lawful(pre: KlineInstrument, price: i64, exchange_time: i64, now: i64)
    requires
        pre.wf(),
    ensures
        lawful(
            GateStep {
                before: pre.tracker.gate.last(),
                after: pre.after_price(price, exchange_time, now).tracker.gate.last(),
                emitted: emitted_period(pre.price_emission(exchange_time, now)),
            },
        ),
{
}

/// The periodic check obeys the emission gate of its instrument.
pub proof fn lemma_kline_timer_lawful(pre: KlineInstrument, now: i64)
    requires
        pre.wf(),
    ensures
        lawful(
            GateStep {
                before: pre.tracker.gate.last(),
                after: pre.after_check(now as int).tracker.gate.last(),
                emitted: emitted_period(pre.emission_at(now as int, now)),
            },
        ),
{
}

/// The candle indicator of a set of instruments.
pub struct SimpleKlineNode {
    /// The identifiers of the instruments, each once.
    pub ids: Vec<String>,
    /// The state of each instrument, in the order of `ids`.
    pub instruments: Vec<KlineInstrument>,
}

impl SimpleKlineNode {
    pub open spec fn wf(&self) -> bool {
        &&& self.ids@.len() == self.instruments@.len()
        &&& distinct(id_views(self.ids@))
        &&& forall|i: int|
            0 <= i < self.instruments@.len() ==> (#[trigger] self.instruments@[i]).wf()
                && self.instruments@[i].instrument_id@ == self.ids@[i]@
    }

    /// The node serves the instrument `id`.
    pub open spec fn serves(&self, id: Seq<char>) -> bool {
        id_views(self.ids@).contains(id)
    }

    /// `post` is `self` after the instrument `id` took a price at clock
    /// reading `now`: that instrument made its step, every other is as it
    /// was.
    pub open spec fn price_applied(
        self,
        post: Self,
        id: Seq<char>,
        price: i64,
        exchange_time: i64,
        now: i64,
    ) -> bool {
        &&& post.ids == self.ids
        &&& post.instruments@.len() == self.instruments@.len()
        &&& forall|i: int|
            0 <= i < self.instruments@.len() ==> #[trigger] post.instruments@[i] == if self.ids@[i]@
                == id {
                self.instruments@[i].after_price(price, exchange_time, now)
            } else {
                self.instruments@[i]
            }
    }

    /// `out` is what the instrument `id` reports for a price at clock
    /// reading `now`, or the report of an unknown instrument if the node
    /// does not serve `id`.
    pub open spec fn price_reported(
        self,
        out: KlineOutcome,
        id: Seq<char>,
        exchange_time: i64,
        now: i64,
    ) -> bool {
        &&& forall|i: int|
            0 <= i < self.instruments@.len() && self.ids@[i]@ == id ==> out.intake == (
            #[trigger] self.instruments@[i]).price_intake(exchange_time, now) && out.emission
                == self.instruments@[i].price_emission(exchange_time, now)
        &&& !self.serves(id) ==> out.intake == Intake::UnknownInstrument && out.emission is None
    }

    /// A node for the instruments `instrument_ids`, repetitions left out,
    /// with periods given by `freq`, at clock reading `current_time`.
    pub fn new(freq: String, instrument_ids: Vec<String>, current_time: i64) -> (r: Result<
        Self,
        MarketDataError,
    >)
        ensures
            match r {
                Ok(node) => {
                    &&& node.wf()
                    &&& id_views(node.ids@) == unique(id_views(instrument_ids@))
                    &&& duration_millis(freq@) is Some
                    &&& IntervalManager::fits(duration_millis(freq@).unwrap(), current_time as int)
                    &&& forall|i: int|
                        0 <= i < node.instruments@.len() ==> (#[trigger] node.instruments@[i]).initial(
                            freq@,
                            current_time as int,
                        )
                },
                Err(e) => {
                    &&& e == MarketDataError::InvalidFrequency
                    &&& duration_millis(freq@) is None || !IntervalManager::fits(
                        duration_millis(freq@).unwrap(),
                        current_time as int,
                    )
                },
            },
    {
        if PeriodTracker::new(freq.as_str(), current_time).is_none() {
            return Err(MarketDataError::InvalidFrequency);
        }
        let ids = unique_ids(instrument_ids);
        let mut instruments: Vec<KlineInstrument> = Vec::new();
        let mut i: usize = 0;
        while i < ids.len()
            invariant
                i <= ids.len(),
                instruments@.len() == i,
                duration_millis(freq@) is Some,
                IntervalManager::fits(duration_millis(freq@).unwrap(), current_time as int),
                forall|k: int|
                    0 <= k < i ==> (#[trigger] instruments@[k]).initial(freq@, current_time as int)
                        && instruments@[k].instrument_id@ == ids@[k]@,
            decreases ids.len() - i,
        {
            match KlineInstrument::new(freq.as_str(), ids[i].clone(), current_time) {
                Some(instrument) => {
                    instruments.push(instrument);
                },
                None => {
                    return Err(MarketDataError::InvalidFrequency);
                },
            }
            i += 1;
        }
        Ok(SimpleKlineNode { ids, instruments })
    }

    /// The subscriptions that the node needs: none, since it consumes the prices of the mid-price indicator.
    pub fn start(&self) -> (subscriptions: Vec<(DmsEventType, String)>)
        ensures
            subscriptions@.len() == 0,
    {
        Vec::new()
    }

    /// A mid price for `instrument_id` arrives at clock reading `now`: the
    /// instrument of that name takes it, every other instrument stays as it
    /// is. A price for an instrument that the node does not serve changes
    /// nothing.
    pub fn on_price(
        &mut self,
        instrument_id: &str,
        price: i64,
        exchange_time: i64,
        now: i64,
    ) -> (out: KlineOutcome)
        requires
            old(self).wf(),
        ensures
            final(self).wf(),
            old(self).price_applied(*final(self), instrument_id@, price, exchange_time, now),
            old(self).price_reported(out, instrument_id@, exchange_time, now),
    {
        match find_id(&self.ids, instrument_id) {
            Some(i) => {
                assert(id_views(self.ids@)[i as int] == instrument_id@);
                assert forall|k: int|
                    0 <= k < self.ids@.len() && self.ids@[k]@ == instrument_id@ implies k == i by {
                    assert(id_views(self.ids@)[k] == id_views(self.ids@)[i as int]);
                }
                self.instruments[i].on_price(price, exchange_time, now)
            },
            None => {
                assert forall|k: int| 0 <= k < self.ids@.len() implies self.ids@[k]@
                    != instrument_id@ by {
                    assert(id_views(self.ids@)[k] == self.ids@[k]@);
                }
                KlineOutcome { intake: Intake::UnknownInstrument, emission: None }
            },
        }
    }

    /// The periodic check of the instrument at position `index`, at clock
    /// reading `now`.
    pub fn on_timer(&mut self, index: usize, now: i64) -> (r: Option<Emission<SimpleKlineData>>)
        requires
            old(self).wf(),
            index < old(self).instruments@.len(),
        ensures
            final(self).wf(),
            final(self).ids == old(self).ids,
            final(self).instruments@ == old(self).instruments@.update(
                index as int,
                old(self).instruments@[index as int].after_check(now as int),
            ),
            r == old(self).instruments@[index as int].emission_at(now as int, now),
    {
        let r = self.instruments[index].on_timer(now);
        assert(self.instruments@ =~= old(self).instruments@.update(
            index as int,
            old(self).instruments@[index as int].after_check(now as int),
        ));
        r
    }
}

} // verus!
