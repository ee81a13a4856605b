//! The engine: the four indicators of a set of instruments, wired in their
//! order of dependency.
//!
//! A best-bid/offer sample goes to the mid-price indicator; the price that
//! comes out goes to the candle indicator; a candle that this finalizes goes
//! to the composite. A trade goes to the volume indicator; an aggregate
//! that this finalizes goes to the composite.

use vstd::prelude::*;
use crate::error::MarketDataError;
use crate::feed::{decode_message, decoded_text, FeedMessage, FeedView};
use crate::nodes::mid_price::{BboOutcome, BboSample, MidPriceNode};
use crate::nodes::resample_kline::{ResampleKlineData, ResampleKlineNode, ResampleOutcome};
use crate::nodes::simple_kline::{KlineOutcome, SimpleKlineNode};
use crate::nodes::total_volume::{TotalVolumeNode, Trade, TradeOutcome};
use crate::nodes::{id_views, unique};
use crate::types::{Emission, Intake, MidPriceData, SimpleKlineData, TotalVolumeData};
use crate::utils::{duration_millis, IntervalManager};

verus! {

/// The four indicators, each for the same instruments in the same order.
pub struct Engine {
    pub mid_price: MidPriceNode,
    pub kline: SimpleKlineNode,
    pub volume: TotalVolumeNode,
    pub resample: ResampleKlineNode,
}

/// What the indicators did with one message: the outcome of each indicator
/// that the message reached.
#[derive(Debug)]
pub struct EngineOutput {
    /// How the message was taken by the indicator that it is for.
    pub intake: Intake,
    pub bbo: Option<BboOutcome>,
    pub kline: Option<KlineOutcome>,
    pub trade: Option<TradeOutcome>,
    pub resample: Option<ResampleOutcome>,
}

/// The candle that an emission of the candle indicator carries.
pub open spec fn candle_of(emission: Option<Emission<SimpleKlineData>>) -> Option<SimpleKlineData> {
    match emission {
        Some(e) => e.response.data,
        None => None,
    }
}

/// The aggregate that an emission of the volume indicator carries.
pub open spec fn aggregate_of(emission: Option<Emission<TotalVolumeData>>) -> Option<
    TotalVolumeData,
> {
    match emission {
        Some(e) => e.response.data,
        None => None,
    }
}

impl Engine {
    pub open spec fn wf(&self) -> bool {
        &&& self.mid_price.wf()
        &&& self.kline.wf()
        &&& self.volume.wf()
        &&& self.resample.wf()
        &&& id_views(self.kline.ids@) == id_views(self.mid_price.ids@)
        &&& id_views(self.volume.ids@) == id_views(self.mid_price.ids@)
        &&& id_views(self.resample.ids@) == id_views(self.mid_price.ids@)
    }

    /// Every instrument of every indicator is in the state in which it
    /// starts, for periods given by `freq` at clock reading `current_time`.
    pub open spec fn fresh(&self, freq: Seq<char>, current_time: int) -> bool {
        &&& forall|i: int|
            0 <= i < self.mid_price.instruments@.len() ==> (
            #[trigger] self.mid_price.instruments@[i]).initial(freq, current_time)
        &&& forall|i: int|
            0 <= i < self.kline.instruments@.len() ==> (#[trigger] self.kline.instruments@[i]).initial(
                freq,
                current_time,
            )
        &&& forall|i: int|
            0 <= i < self.volume.instruments@.len() ==> (
            #[trigger] self.volume.instruments@[i]).initial(freq, current_time)
        &&& duration_millis(freq) is Some && forall|i: int|
            0 <= i < self.resample.instruments@.len() ==> (
            #[trigger] self.resample.instruments@[i]).initial(duration_millis(freq).unwrap())
    }

    /// `post` is `self` after the sample `sample` for `id` went through
    /// mid price, candle and composite, with the outcomes in `out`.
    pub open spec fn sample_routed(
        self,
        post: Self,
        out: EngineOutput,
        id: Seq<char>,
        sample: BboSample,
        now: i64,
    ) -> bool {
        &&& post.volume == self.volume
        &&& out.trade is None
        &&& out.bbo matches Some(bbo) && out.intake == bbo.intake && self.mid_price.bbo_applied(
            post.mid_price,
            id,
            sample,
            now,
        ) && self.mid_price.bbo_reported(bbo, id, sample, now) && match bbo.price {
            Some(tick) => out.kline matches Some(kline) && self.kline.price_applied(
                post.kline,
                id,
                tick.mid_price,
                tick.exchange_time,
                now,
            ) && self.kline.price_reported(kline, id, tick.exchange_time, now) && match candle_of(
                kline.emission,
            ) {
                Some(candle) => out.resample matches Some(resample)
                    && self.resample.kline_applied(post.resample, id, candle)
                    && self.resample.kline_reported(resample, id, candle, now),
                None => out.resample is None && post.resample == self.resample,
            },
            None => out.kline is None && out.resample is None && post.kline == self.kline
                && post.resample == self.resample,
        }
    }

    /// `post` is `self` after the trade `trade` for `id` went through volume
    /// and composite, with the outcomes in `out`.
    pub open spec fn trade_routed(
        self,
        post: Self,
        out: EngineOutput,
        id: Seq<char>,
        trade: Trade,
        now: i64,
    ) -> bool {
        &&& post.mid_price == self.mid_price
        &&& post.kline == self.kline
        &&& out.bbo is None
        &&& out.kline is None
        &&& out.trade matches Some(outcome) && out.intake == outcome.intake
            && self.volume.trade_applied(post.volume, id, trade, now) && self.volume.trade_reported(
            outcome,
            id,
            trade,
            now,
        ) && match aggregate_of(outcome.emission) {
            Some(aggregate) => out.resample matches Some(resample)
                && self.resample.volume_applied(post.resample, id, aggregate)
                && self.resample.volume_reported(resample, id, aggregate, now),
            None => out.resample is None && post.resample == self.resample,
        }
    }

    /// `post` and `out` are what the message `view` leaves at clock reading
    /// `now`: a sample and a trade are routed; anything else changes nothing
    /// and is reported as malformed or ignored.
    pub open spec fn routed(self, post: Self, out: EngineOutput, view: FeedView, now: i64) -> bool {
        match view {
            FeedView::Bbo { instrument_id, sample } => self.sample_routed(
                post,
                out,
                instrument_id,
                sample,
                now,
            ),
            FeedView::Trade { instrument_id, trade } => self.trade_routed(
                post,
                out,
                instrument_id,
                trade,
                now,
            ),
            FeedView::Malformed => post == self && out.intake == Intake::Malformed && out.bbo
                is None && out.kline is None && out.trade is None && out.resample is None,
            FeedView::Other => post == self && out.intake == Intake::Ignored && out.bbo is None
                && out.kline is None && out.trade is None && out.resample is None,
        }
    }

    /// The indicators for the instruments `instrument_ids`, repetitions left
    /// out, with periods given by `freq`, at clock reading `current_time`.
    /// An invalid `freq` fails the construction.
    pub fn new(freq: &str, instrument_ids: Vec<String>, current_time: i64) -> (r: Result<
        Self,
        MarketDataError,
    >)
        ensures
            match r {
                Ok(engine) => {
                    &&& engine.wf()
                    &&& id_views(engine.mid_price.ids@) == unique(id_views(instrument_ids@))
                    &&& duration_millis(freq@) is Some
                    &&& IntervalManager::fits(duration_millis(freq@).unwrap(), current_time as int)
                    &&& engine.fresh(freq@, current_time as int)
                },
                Err(e) => {
                    &&& e == MarketDataError::InvalidFrequency
                    &&& duration_millis(freq@) is None || !IntervalManager::fits(
                        duration_millis(freq@).unwrap(),
                        current_time as int,
                    )
                },
            },
    {
        let mid_price = match MidPriceNode::new(freq.to_owned(), instrument_ids, current_time) {
            Ok(node) => node,
            Err(e) => { return Err(e); },
        };
        let ids = Self::copy_ids(&mid_price.ids);
        let kline = match SimpleKlineNode::new(freq.to_owned(), ids, current_time) {
            Ok(node) => node,
            Err(e) => { return Err(e); },
        };
        let ids = Self::copy_ids(&mid_price.ids);
        let volume = match TotalVolumeNode::new(freq.to_owned(), ids, current_time) {
            Ok(node) => node,
            Err(e) => { return Err(e); },
        };
        let ids = Self::copy_ids(&mid_price.ids);
        let resample = match ResampleKlineNode::new(freq.to_owned(), ids) {
            Ok(node) => node,
            Err(e) => { return Err(e); },
        };
        proof {
            crate::nodes::lemma_unique_of_distinct(id_views(mid_price.ids@));
        }
        Ok(Engine { mid_price, kline, volume, resample })
    }

    /// A copy of `ids`.
    fn copy_ids(ids: &Vec<String>) -> (r: Vec<String>)
        ensures
            id_views(r@) == id_views(ids@),
    {
        let mut out: Vec<String> = Vec::new();
        let mut i: usize = 0;
        while i < ids.len()
            invariant
                i <= ids.len(),
                out@.len() == i,
                forall|k: int| 0 <= k < i ==> (#[trigger] out@[k])@ == ids@[k]@,
            decreases ids.len() - i,
        {
            out.push(ids[i].clone());
            i += 1;
        }
        assert(id_views(out@) =~= id_views(ids@));
        out
    }

    /// A decoded message arrives at clock reading `now`.
    pub fn on_message(&mut self, message: &FeedMessage, now: i64) -> (out: EngineOutput)
        requires
            old(self).wf(),
        ensures
            final(self).wf(),
            old(self).routed(*final(self), out, message@, now),
    {
        match message {
            FeedMessage::Bbo { instrument_id, sample } => {
                let bbo = self.mid_price.on_bbo(instrument_id.as_str(), sample, now);
                let mut kline: Option<KlineOutcome> = None;
                let mut resample: Option<ResampleOutcome> = None;
                if let Some(tick) = bbo.price {
                    let outcome = self.kline.on_price(
                        instrument_id.as_str(),
                        tick.mid_price,
                        tick.exchange_time,
                        now,
                    );
                    if let Some(emission) = &outcome.emission {
                        if let Some(candle) = emission.response.data {
                            resample = Some(
                                self.resample.on_kline(instrument_id.as_str(), &candle, now),
                            );
                        }
                    }
                    kline = Some(outcome);
                }
                EngineOutput { intake: bbo.intake, bbo: Some(bbo), kline, trade: None, resample }
            },
            FeedMessage::Trade { instrument_id, trade } => {
                let outcome = self.volume.on_trade(instrument_id.as_str(), trade, now);
                let mut resample: Option<ResampleOutcome> = None;
                if let Some(emission) = &outcome.emission {
                    if let Some(aggregate) = emission.response.data {
                        resample = Some(
                            self.resample.on_volume(instrument_id.as_str(), &aggregate, now),
                        );
                    }
                }
                EngineOutput {
                    intake: outcome.intake,
                    bbo: None,
                    kline: None,
                    trade: Some(outcome),
                    resample,
                }
            },
            FeedMessage::Malformed => EngineOutput {
                intake: Intake::Malformed,
                bbo: None,
                kline: None,
                trade: None,
                resample: None,
            },
            FeedMessage::Other => EngineOutput {
                intake: Intake::Ignored,
                bbo: None,
                kline: None,
                trade: None,
                resample: None,
            },
        }
    }

    /// The text of an inbound message arrives at clock reading `now`: it is
    /// decoded once and routed.
    pub fn on_text(&mut self, text: &str, now: i64) -> (out: EngineOutput)
        requires
            old(self).wf(),
        ensures
            final(self).wf(),
            old(self).routed(*final(self), out, decoded_text(text@), now),
    {
        let message = decode_message(text);
        self.on_message(&message, now)
    }

    /// Every indicator holds as many instruments as there are identifiers.
    pub proof fn lemma_same_lengths(&self)
        requires
            self.wf(),
        ensures
            self.mid_price.instruments@.len() == self.mid_price.ids@.len(),
            self.kline.instruments@.len() == self.mid_price.ids@.len(),
            self.volume.instruments@.len() == self.mid_price.ids@.len(),
            self.resample.instruments@.len() == self.mid_price.ids@.len(),
    {
        assert(id_views(self.kline.ids@).len() == id_views(self.mid_price.ids@).len());
        assert(id_views(self.volume.ids@).len() == id_views(self.mid_price.ids@).len());
        assert(id_views(self.resample.ids@).len() == id_views(self.mid_price.ids@).len());
    }

    /// Number of instruments.
    pub fn len(&self) -> (n: usize)
        requires
            self.wf(),
        ensures
            n == self.mid_price.ids@.len(),
            n == self.mid_price.instruments@.len(),
            n == self.kline.instruments@.len(),
            n == self.volume.instruments@.len(),
            n == self.resample.instruments@.len(),
    {
        proof {
            assert(id_views(self.kline.ids@).len() == id_views(self.mid_price.ids@).len());
            assert(id_views(self.volume.ids@).len() == id_views(self.mid_price.ids@).len());
            assert(id_views(self.resample.ids@).len() == id_views(self.mid_price.ids@).len());
        }
        self.mid_price.ids.len()
    }

    /// The periodic check of the mid price of the instrument at position
    /// `index`, at clock reading `now`.
    pub fn on_price_timer(&mut self, index: usize, now: i64) -> (r: Option<Emission<MidPriceData>>)
        requires
            old(self).wf(),
            index < old(self).mid_price.ids@.len(),
        ensures
            final(self).wf(),
            final(self).kline == old(self).kline,
            final(self).volume == old(self).volume,
            final(self).resample == old(self).resample,
            final(self).mid_price.ids == old(self).mid_price.ids,
            final(self).mid_price.instruments@ == old(self).mid_price.instruments@.update(
                index as int,
                old(self).mid_price.instruments@[index as int].after_check(now as int),
            ),
            r == old(self).mid_price.instruments@[index as int].emission_at(now as int, now),
    {
        self.mid_price.on_timer(index, now)
    }

    /// The periodic check of the candle of the instrument at position
    /// `index`, at clock reading `now`. A candle that the check finalizes
    /// goes to the composite.
    pub fn on_candle_timer(&mut self, index: usize, now: i64) -> (r: (
        Option<Emission<SimpleKlineData>>,
        Option<ResampleOutcome>,
    ))
        requires
            old(self).wf(),
            index < old(self).mid_price.ids@.len(),
        ensures
            final(self).wf(),
            final(self).mid_price == old(self).mid_price,
            final(self).volume == old(self).volume,
            final(self).kline.ids == old(self).kline.ids,
            final(self).kline.instruments@ == old(self).kline.instruments@.update(
                index as int,
                old(self).kline.instruments@[index as int].after_check(now as int),
            ),
            r.0 == old(self).kline.instruments@[index as int].emission_at(now as int, now),
            match candle_of(r.0) {
                Some(candle) => (r.1 matches Some(out) && old(self).resample.kline_applied(
                    final(self).resample,
                    old(self).mid_price.ids@[index as int]@,
                    candle,
                ) && old(self).resample.kline_reported(
                    out,
                    old(self).mid_price.ids@[index as int]@,
                    candle,
                    now,
                )),
                None => r.1 is None && final(self).resample == old(self).resample,
            },
    {
        proof {
            self.lemma_same_lengths();
        }
        let emission = self.kline.on_timer(index, now);
        let mut resample: Option<ResampleOutcome> = None;
        if let Some(e) = &emission {
            if let Some(candle) = e.response.data {
                resample = Some(
                    self.resample.on_kline(self.mid_price.ids[index].as_str(), &candle, now),
                );
            }
        }
        (emission, resample)
    }

    /// The periodic check of the volume of the instrument at position
    /// `index`, at clock reading `now`. An aggregate that the check
    /// finalizes goes to the composite.
    pub fn on_volume_timer(&mut self, index: usize, now: i64) -> (r: (
        Option<Emission<TotalVolumeData>>,
        Option<ResampleOutcome>,
    ))
        requires
            old(self).wf(),
            index < old(self).mid_price.ids@.len(),
        ensures
            final(self).wf(),
            final(self).mid_price == old(self).mid_price,
            final(self).kline == old(self).kline,
            final(self).volume.ids == old(self).volume.ids,
            final(self).volume.instruments@ == old(self).volume.instruments@.update(
                index as int,
                old(self).volume.instruments@[index as int].after_check(now as int),
            ),
            r.0 == old(self).volume.instruments@[index as int].emission_at(now as int, now),
            match aggregate_of(r.0) {
                Some(aggregate) => (r.1 matches Some(out) && old(self).resample.volume_applied(
                    final(self).resample,
                    old(self).mid_price.ids@[index as int]@,
                    aggregate,
                ) && old(self).resample.volume_reported(
                    out,
                    old(self).mid_price.ids@[index as int]@,
                    aggregate,
                    now,
                )),
                None => r.1 is None && final(self).resample == old(self).resample,
            },
    {
        proof {
            self.lemma_same_lengths();
        }
        let emission = self.volume.on_timer(index, now);
        let mut resample: Option<ResampleOutcome> = None;
        if let Some(e) = &emission {
            if let Some(aggregate) = e.response.data {
                resample = Some(
                    self.resample.on_volume(self.mid_price.ids[index].as_str(), &aggregate, now),
                );
            }
        }
        (emission, resample)
    }

    /// The periodic check of the composite of the instrument at position
    /// `index`, at clock reading `now`.
    pub fn on_composite_timer(&mut self, index: usize, now: i64) -> (r: Option<
        Emission<ResampleKlineData>,
    >)
        requires
            old(self).wf(),
            index < old(self).mid_price.ids@.len(),
        ensures
            final(self).wf(),
            final(self).mid_price == old(self).mid_price,
            final(self).kline == old(self).kline,
            final(self).volume == old(self).volume,
            final(self).resample.ids == old(self).resample.ids,
            final(self).resample.instruments@ == old(self).resample.instruments@.update(
                index as int,
                old(self).resample.instruments@[index as int].after_timer(now as int),
            ),
            r == old(self).resample.instruments@[index as int].timer_emission(now),
    {
        proof {
            self.lemma_same_lengths();
        }
        self.resample.on_timer(index, now)
    }
}

} // verus!
