//! The composite candle: price fields from the candle stream and volume
//! fields from the volume stream, merged into one record per period.

use vstd::prelude::*;
use crate::error::MarketDataError;
use crate::gate::{lawful, EmissionGate, GateStep};
use crate::nodes::{distinct, find_id, id_views, unique, unique_ids};
use crate::types::{
    emitted_period,
    DataStatus,
    DmsEventType,
    Emission,
    Intake,
    NodeResponse,
    SimpleKlineData,
    TotalVolumeData,
};
use crate::utils::{duration_millis, floor_div, max_of, min_of, parse_duration, period_of};

verus! {

/// One period's candle together with its volume.
#[derive(Debug)]
pub struct ResampleKlineData {
    pub instrument_id: String,
    /// 0 while no candle was merged.
    pub open_time: i64,
    pub open: i64,
    pub high: i64,
    pub low: i64,
    pub close: i64,
    pub volume: i64,
    pub close_time: i64,
    pub number_of_trades: i64,
    pub taker_buy_base_asset_volume: i64,
    /// The latest period that an input was merged for.
    pub period_id: i64,
}

impl Clone for ResampleKlineData {
    fn clone(&self) -> (r: Self)
        ensures
            r == *self,
    {
        ResampleKlineData {
            instrument_id: self.instrument_id.clone(),
            open_time: self.open_time,
            open: self.open,
            high: self.high,
            low: self.low,
            close: self.close,
            volume: self.volume,
            close_time: self.close_time,
            number_of_trades: self.number_of_trades,
            taker_buy_base_asset_volume: self.taker_buy_base_asset_volume,
            period_id: self.period_id,
        }
    }
}

impl ResampleKlineData {
    /// The composite that holds neither candle nor volume.
    pub open spec fn blank(instrument_id: String) -> Self {
        ResampleKlineData {
            instrument_id,
            open_time: 0,
            open: 0,
            high: 0,
            low: i64::MAX,
            close: 0,
            volume: 0,
            close_time: 0,
            number_of_trades: 0,
            taker_buy_base_asset_volume: 0,
            period_id: 0,
        }
    }

    /// Something was merged that a forced finalization would report.
    pub open spec fn has_data(self) -> bool {
        self.close > 0 || self.volume > 0
    }

    /// The composite after a candle was merged: the first candle gives the
    /// opening fields, every candle widens the range, the last gives the
    /// closing fields.
    pub open spec fn with_candle(self, k: SimpleKlineData) -> Self {
        if self.open_time == 0 {
            ResampleKlineData {
                open_time: k.open_time,
                open: k.open,
                high: k.high,
                low: k.low,
                close: k.close,
                close_time: k.close_time,
                period_id: max_of(self.period_id as int, k.period_id as int) as i64,
                ..self
            }
        } else {
            ResampleKlineData {
                high: max_of(self.high as int, k.high as int) as i64,
                low: min_of(self.low as int, k.low as int) as i64,
                close: k.close,
                close_time: k.close_time,
                period_id: max_of(self.period_id as int, k.period_id as int) as i64,
                ..self
            }
        }
    }

    /// The three sums that merging `v` asks for are representable.
    pub open spec fn volume_fits(self, v: TotalVolumeData) -> bool {
        &&& i64::MIN <= self.volume + v.total_volume <= i64::MAX
        &&& i64::MIN <= self.number_of_trades + v.number_of_trades <= i64::MAX
        &&& i64::MIN <= self.taker_buy_base_asset_volume + v.taker_buy_base_asset_volume
            <= i64::MAX
    }

    /// The composite after a volume aggregate was added.
    pub open spec fn with_volume(self, v: TotalVolumeData) -> Self {
        ResampleKlineData {
            volume: (self.volume + v.total_volume) as i64,
            number_of_trades: (self.number_of_trades + v.number_of_trades) as i64,
            taker_buy_base_asset_volume: (self.taker_buy_base_asset_volume
                + v.taker_buy_base_asset_volume) as i64,
            period_id: max_of(self.period_id as int, v.period_id as int) as i64,
            ..self
        }
    }

    /// The composite that holds neither candle nor volume.
    pub fn empty(instrument_id: String) -> (r: Self)
        ensures
            r == Self::blank(instrument_id),
    {
        ResampleKlineData {
            instrument_id,
            open_time: 0,
            open: 0,
            high: 0,
            low: i64::MAX,
            close: 0,
            volume: 0,
            close_time: 0,
            number_of_trades: 0,
            taker_buy_base_asset_volume: 0,
            period_id: 0,
        }
    }
}

/// What one step of the composite did: how the input was taken, and the
/// record of the period that the step finalized, if it finalized one.
#[derive(Debug)]
pub struct ResampleOutcome {
    pub intake: Intake,
    pub emission: Option<Emission<ResampleKlineData>>,
}

/// The composite of one instrument.
pub struct ResampleInstrument {
    pub current: ResampleKlineData,
    pub gate: EmissionGate,
    /// Period of the last candle that was merged; 0 after a finalization by
    /// the data path.
    pub last_kline_period: i64,
    /// Period of the last volume aggregate that was merged; 0 after a
    /// finalization by the data path.
    pub last_volume_period: i64,
    /// Length of a period in milliseconds.
    pub duration_ms: i64,
}

/// The report of a finalized composite.
pub open spec fn finalized(
    record: ResampleKlineData,
    period_id: i64,
    now: i64,
) -> Emission<ResampleKlineData> {
    Emission {
        period_id,
        response: NodeResponse { data: Some(record), status: DataStatus::BasicValid, timestamp: now },
    }
}

impl ResampleInstrument {
    pub open spec fn wf(&self) -> bool {
        self.duration_ms > 0
    }

    /// The state in which an instrument starts.
    pub open spec fn initial(&self, duration_ms: int) -> bool {
        &&& self.current == ResampleKlineData::blank(self.current.instrument_id)
        &&& self.gate.last() == 0
        &&& self.last_kline_period == 0
        &&& self.last_volume_period == 0
        &&& self.duration_ms == duration_ms
    }

    /// The emission of an attempt to finalize `period_id` at clock reading
    /// `now`: the composite, if the emission gate lets the period through.
    pub open spec fn emission_of(self, period_id: i64, now: i64) -> Option<
        Emission<ResampleKlineData>,
    > {
        if self.gate.last() < period_id {
            Some(finalized(self.current, period_id, now))
        } else {
            None
        }
    }

    /// The state after an attempt to finalize `period_id`: if the emission
    /// gate lets the period through, it stands at that period and the
    /// composite is empty.
    pub open spec fn after_send(self, period_id: i64) -> Self {
        if self.gate.last() < period_id {
            ResampleInstrument {
                current: ResampleKlineData::blank(self.current.instrument_id),
                gate: EmissionGate { last_emitted_period: period_id },
                ..self
            }
        } else {
            self
        }
    }

    /// The state after a finalization by the data path: the watermarks are
    /// back at 0.
    pub open spec fn restarted(self) -> Self {
        ResampleInstrument { last_kline_period: 0, last_volume_period: 0, ..self }
    }

    /// The state after the candle `k` was merged.
    pub open spec fn merged_candle(self, k: SimpleKlineData) -> Self {
        ResampleInstrument {
            current: self.current.with_candle(k),
            last_kline_period: k.period_id,
            ..self
        }
    }

    /// The state after the volume aggregate `v` was added.
    pub open spec fn merged_volume(self, v: TotalVolumeData) -> Self {
        ResampleInstrument {
            current: self.current.with_volume(v),
            last_volume_period: v.period_id,
            ..self
        }
    }

    /// Candle and volume of `period_id` are both there, the volume not
    /// zero.
    pub open spec fn candle_completes(self, period_id: i64) -> bool {
        self.last_volume_period == period_id && self.current.volume > 0
    }

    /// Volume and candle of `period_id` are both there, the close positive.
    pub open spec fn volume_completes(self, period_id: i64) -> bool {
        self.current.close > 0 && self.last_kline_period == period_id
    }

    /// The state after the candle `k` arrived.
    ///
    /// A candle for a period before the last merged candle's changes
    /// nothing. Otherwise it is merged; when the volume of the same period
    /// is there and not zero, the period is put to the emission gate, and
    /// if it passes, the composite starts anew.
    pub open spec fn after_kline(self, k: SimpleKlineData) -> Self {
        if k.period_id < self.last_kline_period {
            self
        } else {
            let merged = self.merged_candle(k);
            if merged.candle_completes(k.period_id) && merged.gate.last() < k.period_id {
                merged.after_send(k.period_id).restarted()
            } else {
                merged
            }
        }
    }

    /// The emission that the candle `k` causes at clock reading `now`.
    pub open spec fn kline_emission(self, k: SimpleKlineData, now: i64) -> Option<
        Emission<ResampleKlineData>,
    > {
        if k.period_id >= self.last_kline_period && self.merged_candle(k).candle_completes(
            k.period_id,
        ) {
            self.merged_candle(k).emission_of(k.period_id, now)
        } else {
            None
        }
    }

    /// How the candle `k` is taken.
    pub open spec fn kline_intake(self, k: SimpleKlineData) -> Intake {
        if k.period_id < self.last_kline_period {
            Intake::OutOfOrder
        } else {
            Intake::Accepted
        }
    }

    /// The volume aggregate `v` is taken: it is not for a period before the
    /// last merged aggregate's, and its sums can be held.
    pub open spec fn takes_volume(self, v: TotalVolumeData) -> bool {
        v.period_id >= self.last_volume_period && self.current.volume_fits(v)
    }

    /// The state after the volume aggregate `v` arrived.
    ///
    /// An aggregate that is not taken changes nothing. Otherwise it is
    /// added; when the candle of the same period is there with a positive
    /// close, the period is put to the emission gate, and if it passes, the
    /// composite starts anew.
    pub open spec fn after_volume(self, v: TotalVolumeData) -> Self {
        if !self.takes_volume(v) {
            self
        } else {
            let merged = self.merged_volume(v);
            if merged.volume_completes(v.period_id) && merged.gate.last() < v.period_id {
                merged.after_send(v.period_id).restarted()
            } else {
                merged
            }
        }
    }

    /// The emission that the volume aggregate `v` causes at clock reading
    /// `now`.
    pub open spec fn volume_emission(self, v: TotalVolumeData, now: i64) -> Option<
        Emission<ResampleKlineData>,
    > {
        if self.takes_volume(v) && self.merged_volume(v).volume_completes(v.period_id) {
            self.merged_volume(v).emission_of(v.period_id, now)
        } else {
            None
        }
    }

    /// How the volume aggregate `v` is taken.
    pub open spec fn volume_intake(self, v: TotalVolumeData) -> Intake {
        if v.period_id < self.last_volume_period {
            Intake::OutOfOrder
        } else if !self.current.volume_fits(v) {
            Intake::OutOfRange
        } else {
            Intake::Accepted
        }
    }

    /// The composite holds a candle or a volume, and the clock reading
    /// `now` lies in a later period than what it holds.
    pub open spec fn stale(self, now: int) -> bool {
        self.current.has_data() && period_of(now, self.duration_ms as int)
            > self.current.period_id
    }

    /// The state after the periodic check at clock reading `now`: a stale
    /// composite is put to the emission gate under its own period.
    pub open spec fn after_timer(self, now: int) -> Self {
        if self.stale(now) {
            self.after_send(self.current.period_id)
        } else {
            self
        }
    }

    /// The emission of the periodic check at clock reading `now`: a stale
    /// composite is reported with whatever it holds.
    pub open spec fn timer_emission(self, now: i64) -> Option<Emission<ResampleKlineData>> {
        if self.stale(now as int) {
            self.emission_of(self.current.period_id, now)
        } else {
            None
        }
    }

    /// An empty composite for `instrument_id` with periods of `duration_ms`
    /// milliseconds.
    pub fn new(instrument_id: String, duration_ms: i64) -> (r: Self)
        requires
            duration_ms > 0,
        ensures
            r.wf(),
            r.initial(duration_ms as int),
            r.current.instrument_id == instrument_id,
    {
        ResampleInstrument {
            current: ResampleKlineData::empty(instrument_id),
            gate: EmissionGate::new(),
            last_kline_period: 0,
            last_volume_period: 0,
            duration_ms,
        }
    }

    /// Merges the price fields of `kline_data` into `current`.
    pub fn process_kline_data(kline_data: &SimpleKlineData, current: &mut ResampleKlineData)
        ensures
            *final(current) == old(current).with_candle(*kline_data),
    {
        if current.open_time == 0 {
            current.open_time = kline_data.open_time;
            current.open = kline_data.open;
            current.high = kline_data.high;
            current.low = kline_data.low;
        } else {
            if kline_data.high > current.high {
                current.high = kline_data.high;
            }
            if kline_data.low < current.low {
                current.low = kline_data.low;
            }
        }
        current.close = kline_data.close;
        current.close_time = kline_data.close_time;
        if kline_data.period_id > current.period_id {
            current.period_id = kline_data.period_id;
        }
    }

    /// Adds the volume fields of `volume_data` to `current`, or leaves it as
    /// it is and returns `false` when a sum would not be representable.
    pub fn process_volume_data(
        volume_data: &TotalVolumeData,
        current: &mut ResampleKlineData,
    ) -> (added: bool)
        ensures
            added == old(current).volume_fits(*volume_data),
            added ==> *final(current) == old(current).with_volume(*volume_data),
            !added ==> *final(current) == *old(current),
    {
        let volume = current.volume.checked_add(volume_data.total_volume);
        let trades = current.number_of_trades.checked_add(volume_data.number_of_trades);
        let taker = current.taker_buy_base_asset_volume.checked_add(
            volume_data.taker_buy_base_asset_volume,
        );
        match (volume, trades, taker) {
            (Some(v), Some(n), Some(t)) => {
                current.volume = v;
                current.number_of_trades = n;
                current.taker_buy_base_asset_volume = t;
                if volume_data.period_id > current.period_id {
                    current.period_id = volume_data.period_id;
                }
                true
            },
            _ => false,
        }
    }

    /// Puts `period_id` to the emission gate; if it passes, hands out the
    /// composite as that period's record and starts an empty one.
    pub fn send_data(&mut self, now: i64, period_id: i64) -> (r: Option<
        Emission<ResampleKlineData>,
    >)
        ensures
            *final(self) == old(self).after_send(period_id),
            r == old(self).emission_of(period_id, now),
    {
        if !self.gate.try_emit(period_id) {
            return None;
        }
        let mut record = ResampleKlineData::empty(self.current.instrument_id.clone());
        std::mem::swap(&mut self.current, &mut record);
        Some(
            Emission {
                period_id,
                response: NodeResponse {
                    data: Some(record),
                    status: DataStatus::BasicValid,
                    timestamp: now,
                },
            },
        )
    }

    /// A candle of the upstream candle node arrives at clock reading `now`.
    pub fn on_kline(&mut self, kline_data: &SimpleKlineData, now: i64) -> (out: ResampleOutcome)
        requires
            old(self).wf(),
        ensures
            final(self).wf(),
            *final(self) == old(self).after_kline(*kline_data),
            out.intake == old(self).kline_intake(*kline_data),
            out.emission == old(self).kline_emission(*kline_data, now),
    {
        let period_id = kline_data.period_id;
        if period_id < self.last_kline_period {
            return ResampleOutcome { intake: Intake::OutOfOrder, emission: None };
        }
        Self::process_kline_data(kline_data, &mut self.current);
        self.last_kline_period = period_id;
        let mut emission: Option<Emission<ResampleKlineData>> = None;
        if self.last_volume_period == period_id && self.current.volume > 0 {
            emission = self.send_data(now, period_id);
            if emission.is_some() {
                self.last_kline_period = 0;
                self.last_volume_period = 0;
            }
        }
        ResampleOutcome { intake: Intake::Accepted, emission }
    }

    /// A volume aggregate of the upstream volume node arrives at clock
    /// reading `now`.
    pub fn on_volume(&mut self, volume_data: &TotalVolumeData, now: i64) -> (out: ResampleOutcome)
        requires
            old(self).wf(),
        ensures
            final(self).wf(),
            *final(self) == old(self).after_volume(*volume_data),
            out.intake == old(self).volume_intake(*volume_data),
            out.emission == old(self).volume_emission(*volume_data, now),
    {
        let period_id = volume_data.period_id;
        if period_id < self.last_volume_period {
            return ResampleOutcome { intake: Intake::OutOfOrder, emission: None };
        }
        if !Self::process_volume_data(volume_data, &mut self.current) {
            return ResampleOutcome { intake: Intake::OutOfRange, emission: None };
        }
        self.last_volume_period = period_id;
        let mut emission: Option<Emission<ResampleKlineData>> = None;
        if self.current.close > 0 && self.last_kline_period == period_id {
            emission = self.send_data(now, period_id);
            if emission.is_some() {
                self.last_kline_period = 0;
                self.last_volume_period = 0;
            }
        }
        ResampleOutcome { intake: Intake::Accepted, emission }
    }

    /// The periodic check at clock reading `now`: a composite that holds a
    /// candle or a volume whose period the clock has left is finalized
    /// through its emission gate under that period, with whatever it holds.
    pub fn on_timer(&mut self, now: i64) -> (r: Option<Emission<ResampleKlineData>>)
        requires
            old(self).wf(),
        ensures
            final(self).wf(),
            *final(self) == old(self).after_timer(now as int),
            r == old(self).timer_emission(now),
    {
        let clock_period = floor_div(now, self.duration_ms);
        let held = self.current.close > 0 || self.current.volume > 0;
        if held && clock_period > self.current.period_id {
            let period_id = self.current.period_id;
            self.send_data(now, period_id)
        } else {
            None
        }
    }
}

/// A candle obeys the emission gate of its instrument.
pub proof fn lemma_kline_step_lawful(pre: ResampleInstrument, k: SimpleKlineData, now: i64)
    ensures
        lawful(
            GateStep {
                before: pre.gate.last(),
                after: pre.after_kline(k).gate.last(),
                emitted: emitted_period(pre.kline_emission(k, now)),
            },
        ),
{
}

/// A volume aggregate obeys the emission gate of its instrument.
pub proof fn lemma_volume_step_lawful(pre: ResampleInstrument, v: TotalVolumeData, now: i64)
    ensures
        lawful(
            GateStep {
                before: pre.gate.last(),
                after: pre.after_volume(v).gate.last(),
                emitted: emitted_period(pre.volume_emission(v, now)),
            },
        ),
{
}

/// The periodic check obeys the emission gate of its instrument.
pub proof fn lemma_resample_timer_lawful(pre: ResampleInstrument, now: i64)
    ensures
        lawful(
            GateStep {
                before: pre.gate.last(),
                after: pre.after_timer(now as int).gate.last(),
                emitted: emitted_period(pre.timer_emission(now)),
            },
        ),
{
}

/// While the volume of a period is missing, no candle of that period
/// finalizes it: a candle for a period other than the one of the last
/// volume aggregate, or one that meets no volume, is merged and nothing is
/// emitted.
pub proof fn lemma_candle_waits_for_volume(pre: ResampleInstrument, k: SimpleKlineData, now: i64)
    requires
        pre.last_volume_period != k.period_id || pre.current.volume <= 0,
    ensures
        pre.kline_emission(k, now) is None,
        k.period_id >= pre.last_kline_period ==> pre.after_kline(k) == pre.merged_candle(k),
{
}

/// Once the clock has left the period of a composite that holds a candle
/// and no volume, the periodic check emits that period with the candle's
/// fields and zero volume, provided the period lies above the watermark.
pub proof fn lemma_forced_candle(pre: ResampleInstrument, now: i64)
    requires
        pre.wf(),
        pre.current.close > 0,
        pre.current.volume == 0,
        period_of(now as int, pre.duration_ms as int) > pre.current.period_id,
        pre.gate.last() < pre.current.period_id,
    ensures
        pre.timer_emission(now) == Some(finalized(pre.current, pre.current.period_id, now)),
        pre.after_timer(now as int).current == ResampleKlineData::blank(
            pre.current.instrument_id,
        ),
        pre.after_timer(now as int).gate.last() == pre.current.period_id,
{
}

/// The composite candle of a set of instruments.
pub struct ResampleKlineNode {
    /// The identifiers of the instruments, each once.
    pub ids: Vec<String>,
    /// The state of each instrument, in the order of `ids`.
    pub instruments: Vec<ResampleInstrument>,
}

impl ResampleKlineNode {
    pub open spec fn wf(&self) -> bool {
        &&& self.ids@.len() == self.instruments@.len()
        &&& distinct(id_views(self.ids@))
        &&& forall|i: int|
            0 <= i < self.instruments@.len() ==> (#[trigger] self.instruments@[i]).wf()
                && self.instruments@[i].current.instrument_id@ == self.ids@[i]@
    }

    /// The node serves the instrument `id`.
    pub open spec fn serves(&self, id: Seq<char>) -> bool {
        id_views(self.ids@).contains(id)
    }

    /// `post` is `self` after the instrument `id` took the candle `k`: that
    /// instrument made its step, every other is as it was.
    pub open spec fn kline_applied(self, post: Self, id: Seq<char>, k: SimpleKlineData) -> bool {
        &&& post.ids == self.ids
        &&& post.instruments@.len() == self.instruments@.len()
        &&& forall|i: int|
            0 <= i < self.instruments@.len() ==> #[trigger] post.instruments@[i] == if self.ids@[i]@
                == id {
                self.instruments@[i].after_kline(k)
            } else {
                self.instruments@[i]
            }
    }

    /// `out` is what the instrument `id` reports for the candle `k` at
    /// clock reading `now`, or the report of an unknown instrument if the
    /// node does not serve `id`.
    pub open spec fn kline_reported(
        self,
        out: ResampleOutcome,
        id: Seq<char>,
        k: SimpleKlineData,
        now: i64,
    ) -> bool {
        &&& forall|i: int|
            0 <= i < self.instruments@.len() && self.ids@[i]@ == id ==> out.intake == (
            #[trigger] self.instruments@[i]).kline_intake(k) && out.emission
                == self.instruments@[i].kline_emission(k, now)
        &&& !self.serves(id) ==> out.intake == Intake::UnknownInstrument && out.emission is None
    }

    /// `post` is `self` after the instrument `id` took the volume aggregate
    /// `v`: that instrument made its step, every other is as it was.
    pub open spec fn volume_applied(self, post: Self, id: Seq<char>, v: TotalVolumeData) -> bool {
        &&& post.ids == self.ids
        &&& post.instruments@.len() == self.instruments@.len()
        &&& forall|i: int|
            0 <= i < self.instruments@.len() ==> #[trigger] post.instruments@[i] == if self.ids@[i]@
                == id {
                self.instruments@[i].after_volume(v)
            } else {
                self.instruments@[i]
            }
    }

    /// `out` is what the instrument `id` reports for the volume aggregate
    /// `v` at clock reading `now`, or the report of an unknown instrument if
    /// the node does not serve `id`.
    pub open spec fn volume_reported(
        self,
        out: ResampleOutcome,
        id: Seq<char>,
        v: TotalVolumeData,
        now: i64,
    ) -> bool {
        &&& forall|i: int|
            0 <= i < self.instruments@.len() && self.ids@[i]@ == id ==> out.intake == (
            #[trigger] self.instruments@[i]).volume_intake(v) && out.emission
                == self.instruments@[i].volume_emission(v, now)
        &&& !self.serves(id) ==> out.intake == Intake::UnknownInstrument && out.emission is None
    }

    /// A node for the instruments `instrument_ids`, repetitions left out,
    /// with periods given by `freq`. The error is that of a `freq` that is
    /// no bucket duration or gives no positive length.
    pub fn new(freq: String, instrument_ids: Vec<String>) -> (r: Result<Self, MarketDataError>)
        ensures
            match r {
                Ok(node) => {
                    &&& node.wf()
                    &&& id_views(node.ids@) == unique(id_views(instrument_ids@))
                    &&& duration_millis(freq@) is Some
                    &&& duration_millis(freq@).unwrap() > 0
                    &&& forall|i: int|
                        0 <= i < node.instruments@.len() ==> (#[trigger] node.instruments@[i]).initial(
                            duration_millis(freq@).unwrap(),
                        )
                },
                Err(e) => {
                    &&& e == MarketDataError::InvalidFrequency
                    &&& duration_millis(freq@) is None || duration_millis(freq@).unwrap() <= 0
                },
            },
    {
        let duration_ms = match parse_duration(freq.as_str()) {
            Some(d) => d,
            None => { return Err(MarketDataError::InvalidFrequency); },
        };
        if duration_ms <= 0 {
            return Err(MarketDataError::InvalidFrequency);
        }
        let ids = unique_ids(instrument_ids);
        let mut instruments: Vec<ResampleInstrument> = Vec::new();
        let mut i: usize = 0;
        while i < ids.len()
            invariant
                i <= ids.len(),
                instruments@.len() == i,
                duration_ms > 0,
                forall|k: int|
                    0 <= k < i ==> (#[trigger] instruments@[k]).initial(duration_ms as int)
                        && instruments@[k].wf() && instruments@[k].current.instrument_id@
                        == ids@[k]@,
            decreases ids.len() - i,
        {
            instruments.push(ResampleInstrument::new(ids[i].clone(), duration_ms));
            i += 1;
        }
        Ok(ResampleKlineNode { ids, instruments })
    }

    /// The subscriptions that the node needs: none, since it consumes what the candle and volume indicators finalize.
    pub fn start(&self) -> (subscriptions: Vec<(DmsEventType, String)>)
        ensures
            subscriptions@.len() == 0,
    {
        Vec::new()
    }

    /// A candle for `instrument_id` arrives at clock reading `now`.
    pub fn on_kline(
        &mut self,
        instrument_id: &str,
        kline_data: &SimpleKlineData,
        now: i64,
    ) -> (out: ResampleOutcome)
        requires
            old(self).wf(),
        ensures
            final(self).wf(),
            old(self).kline_applied(*final(self), instrument_id@, *kline_data),
            old(self).kline_reported(out, instrument_id@, *kline_data, now),
    {
        match find_id(&self.ids, instrument_id) {
            Some(i) => {
                assert(id_views(self.ids@)[i as int] == instrument_id@);
                assert forall|k: int|
                    0 <= k < self.ids@.len() && self.ids@[k]@ == instrument_id@ implies k == i by {
                    assert(id_views(self.ids@)[k] == id_views(self.ids@)[i as int]);
                }
                self.instruments[i].on_kline(kline_data, now)
            },
            None => {
                assert forall|k: int| 0 <= k < self.ids@.len() implies self.ids@[k]@
                    != instrument_id@ by {
                    assert(id_views(self.ids@)[k] == self.ids@[k]@);
                }
                ResampleOutcome { intake: Intake::UnknownInstrument, emission: None }
            },
        }
    }

    /// A volume aggregate for `instrument_id` arrives at clock reading
    /// `now`.
    pub fn on_volume(
        &mut self,
        instrument_id: &str,
        volume_data: &TotalVolumeData,
        now: i64,
    ) -> (out: ResampleOutcome)
        requires
            old(self).wf(),
        ensures
            final(self).wf(),
            old(self).volume_applied(*final(self), instrument_id@, *volume_data),
            old(self).volume_reported(out, instrument_id@, *volume_data, now),
    {
        match find_id(&self.ids, instrument_id) {
            Some(i) => {
                assert(id_views(self.ids@)[i as int] == instrument_id@);
                assert forall|k: int|
                    0 <= k < self.ids@.len() && self.ids@[k]@ == instrument_id@ implies k == i by {
                    assert(id_views(self.ids@)[k] == id_views(self.ids@)[i as int]);
                }
                self.instruments[i].on_volume(volume_data, now)
            },
            None => {
                assert forall|k: int| 0 <= k < self.ids@.len() implies self.ids@[k]@
                    != instrument_id@ by {
                    assert(id_views(self.ids@)[k] == self.ids@[k]@);
                }
                ResampleOutcome { intake: Intake::UnknownInstrument, emission: None }
            },
        }
    }

    /// The periodic check of the instrument at position `index`, at clock
    /// reading `now`.
    pub fn on_timer(&mut self, index: usize, now: i64) -> (r: Option<Emission<ResampleKlineData>>)
        requires
            old(self).wf(),
            index < old(self).instruments@.len(),
        ensures
            final(self).wf(),
            final(self).ids == old(self).ids,
            final(self).instruments@ == old(self).instruments@.update(
                index as int,
                old(self).instruments@[index as int].after_timer(now as int),
            ),
            r == old(self).instruments@[index as int].timer_emission(now),
    {
        let r = self.instruments[index].on_timer(now);
        assert(self.instruments@ =~= old(self).instruments@.update(
            index as int,
            old(self).instruments@[index as int].after_timer(now as int),
        ));
        r
    }
}

} // verus!
