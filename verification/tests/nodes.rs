use rnode::data_node::DataNode;
use rnode::error::MarketDataError;
use rnode::feed::decode_message;
use rnode::nodes::mid_price::{BboSample, MidPriceInstrument, MidPriceNode};
use rnode::nodes::resample_kline::{ResampleInstrument, ResampleKlineData, ResampleKlineNode};
use rnode::nodes::simple_kline::{KlineInstrument, SimpleKlineNode};
use rnode::utils::to_millis;
use rnode::nodes::total_volume::{TotalVolumeNode, Trade, VolumeInstrument};
use rnode::types::{
    DataStatus, DmsEventType, Intake, SimpleKlineData, TotalVolumeData, AMOUNT_LIMIT, AMOUNT_SCALE,
};

const S: i64 = AMOUNT_SCALE;

fn amount(x: f64) -> i64 {
    (x * S as f64).round() as i64
}

fn units(x: i64) -> f64 {
    x as f64 / S as f64
}

fn sample(ask: f64, ask_qty: f64, bid: f64, bid_qty: f64, time: i64) -> BboSample {
    BboSample {
        ask_price: amount(ask),
        ask_qty: amount(ask_qty),
        bid_price: amount(bid),
        bid_qty: amount(bid_qty),
        exchange_time: time,
    }
}

fn candle(period_id: i64, open: f64, high: f64, low: f64, close: f64) -> SimpleKlineData {
    SimpleKlineData {
        open_time: period_id * 1_000,
        open: amount(open),
        high: amount(high),
        low: amount(low),
        close: amount(close),
        close_time: period_id * 1_000 + 999,
        interval_ms: 1_000,
        period_id,
    }
}

fn volume(period_id: i64, total: f64, buy: f64, trades: i64) -> TotalVolumeData {
    TotalVolumeData {
        exchange_time: period_id * 1_000 + 500,
        total_volume: amount(total),
        taker_buy_base_asset_volume: amount(buy),
        number_of_trades: trades,
        period_id,
    }
}

#[test]
fn test_total_volume_node() {
    let now: i64 = 1_635_000_000_500;
    let mut node = VolumeInstrument::new("1s", "BTCUSDT".to_string(), now).unwrap();

    let test_data = r#"{
                "topic": "trade.BTCUSDT",
                "tt": 1635000000000000,
                "body": {
                    "t": 123,
                    "p": "50000.0",
                    "q": "1.5",
                    "d": "buy"
                }
            }"#;

    let response = node.process_data(test_data, now);
    assert!(response.data.is_some());

    if let Some(data) = response.data {
        assert_eq!(units(data.total_volume), 1.5);
        assert_eq!(units(data.taker_buy_base_asset_volume), 1.5);
        assert_eq!(data.number_of_trades, 1);
    }
}

#[test]
fn test_mid_price_node() {
    let now: i64 = 1_635_000_000_500;
    let mut node = MidPriceInstrument::new("1s", "BTCUSDT".to_string(), now).unwrap();

    let test_data = r#"{
                "topic": "bbo.BTCUSDT",
                "tt": 1635000000000000,
                "body": [
                    ["50100.0", "1.0", "1.0"],
                    ["50000.0", "1.0", "1.0"]
                ]
            }"#;

    let response = node.process_data(test_data, now);
    assert!(response.data.is_some());

    if let Some(data) = response.data {
        assert_eq!(units(data.mid_prc), 50050.0);
    }
}

#[test]
fn data_node_reports_frequency_and_instrument() {
    let node = VolumeInstrument::new("5m", "ETHUSDT".to_string(), 0).unwrap();
    assert_eq!(node.get_freq(), "5m");
    assert_eq!(node.get_instrument_id(), "ETHUSDT");
    let node = MidPriceInstrument::new("1h", "BTCUSDT".to_string(), 0).unwrap();
    assert_eq!(node.get_freq(), "1h");
    assert_eq!(node.get_instrument_id(), "BTCUSDT");
}

#[test]
fn data_node_passes_over_other_messages() {
    let now: i64 = 1_635_000_000_500;
    let mut node = VolumeInstrument::new("1s", "BTCUSDT".to_string(), now).unwrap();
    let other = r#"{"topic":"trade.ETHUSDT","tt":1635000000000000,"body":{"q":"1.5","d":"buy"}}"#;
    let response = node.process_data(other, now);
    assert!(response.data.is_none());
    assert!(matches!(response.status, DataStatus::Invalid));
    assert_eq!(response.timestamp, now);
    assert_eq!(node.current.number_of_trades, 0);
    let response = node.process_data("not json", now);
    assert!(response.data.is_none());
    assert_eq!(node.current.number_of_trades, 0);
}

#[test]
fn crossed_book_holds_the_last_valid_mean() {
    let s = sample(100.0, 1.0, 105.0, 1.0, 10);
    let (quality, mid) = MidPriceInstrument::classify(&s, 0, amount(101.0), amount(99.0));
    assert!(matches!(quality, DataStatus::CrossPrice));
    assert_eq!(units(mid), 100.0);
}

#[test]
fn no_quotes_holds_the_last_valid_mean() {
    let s = sample(100.0, 0.0, 99.0, 0.0, 10);
    let (quality, mid) = MidPriceInstrument::classify(&s, 0, amount(101.0), amount(99.0));
    assert!(matches!(quality, DataStatus::InvalidQty));
    assert_eq!(units(mid), 100.0);
}

#[test]
fn bid_only_adds_half_the_last_spread() {
    let s = sample(100.0, 0.0, 99.0, 5.0, 10);
    let (quality, mid) = MidPriceInstrument::classify(&s, 0, amount(101.0), amount(99.0));
    assert!(matches!(quality, DataStatus::OnewayQuote));
    assert_eq!(units(mid), 100.0);
}

#[test]
fn ask_only_gives_half_the_ask() {
    let s = sample(100.0, 5.0, 99.0, 0.0, 10);
    let (quality, mid) = MidPriceInstrument::classify(&s, 0, amount(101.0), amount(99.0));
    assert!(matches!(quality, DataStatus::OnewayQuote));
    assert_eq!(units(mid), 50.0);
}

#[test]
fn valid_sample_gives_the_mean() {
    let s = sample(102.0, 5.0, 100.0, 5.0, 10);
    let (quality, mid) = MidPriceInstrument::classify(&s, 0, amount(101.0), amount(99.0));
    assert!(matches!(quality, DataStatus::BasicValid));
    assert_eq!(units(mid), 101.0);
}

#[test]
fn older_sample_is_non_monotonic_before_anything_else() {
    let s = sample(100.0, 0.0, 105.0, 0.0, 10);
    let (quality, mid) = MidPriceInstrument::classify(&s, 11, amount(101.0), amount(99.0));
    assert!(matches!(quality, DataStatus::NonMono));
    assert_eq!(units(mid), 100.0);
}

#[test]
fn halves_round_down() {
    let s = BboSample { ask_price: 4, ask_qty: 1, bid_price: 3, bid_qty: 1, exchange_time: 1 };
    let (_, mid) = MidPriceInstrument::classify(&s, 0, 0, 0);
    assert_eq!(mid, 3);
    let s = BboSample { ask_price: -3, ask_qty: 1, bid_price: -4, bid_qty: 1, exchange_time: 1 };
    let (_, mid) = MidPriceInstrument::classify(&s, 0, 0, 0);
    assert_eq!(mid, -4);
    let s = BboSample { ask_price: 7, ask_qty: 1, bid_price: 3, bid_qty: 0, exchange_time: 1 };
    let (_, mid) = MidPriceInstrument::classify(&s, 0, 0, 0);
    assert_eq!(mid, 3);
    let s = BboSample { ask_price: 7, ask_qty: 0, bid_price: 3, bid_qty: 1, exchange_time: 1 };
    let (_, mid) = MidPriceInstrument::classify(&s, 0, 9, 4);
    assert_eq!(mid, 5);
}

#[test]
fn mid_price_keeps_the_last_valid_quotes() {
    let mut m = MidPriceInstrument::new("1s", "X".to_string(), 10_500).unwrap();
    let out = m.on_bbo(&sample(101.0, 1.0, 99.0, 1.0, 10_100_000), 10_500);
    assert_eq!(out.intake, Intake::Accepted);
    assert!(matches!(m.status, DataStatus::BasicValid));
    assert_eq!(units(m.current.mid_prc), 100.0);
    assert_eq!(m.current.exchange_time, 10_100);
    assert_eq!(m.last_exchange_time, 10_100_000);
    let tick = out.price.unwrap();
    assert_eq!(units(tick.mid_price), 100.0);
    assert_eq!(tick.exchange_time, 10_100_000);
    assert!(out.emission.is_none());

    let out = m.on_bbo(&sample(100.0, 1.0, 105.0, 1.0, 10_200_000), 10_500);
    assert!(matches!(m.status, DataStatus::CrossPrice));
    assert_eq!(units(out.price.unwrap().mid_price), 100.0);
    assert_eq!(units(m.last_ask_price), 101.0);
    assert_eq!(units(m.last_bid_price), 99.0);

    let out = m.on_bbo(&sample(100.0, 0.0, 99.5, 5.0, 10_300_000), 10_500);
    assert!(matches!(m.status, DataStatus::OnewayQuote));
    assert_eq!(units(out.price.unwrap().mid_price), 100.5);

    let out = m.on_bbo(&sample(102.0, 5.0, 100.0, 5.0, 10_250_000), 10_500);
    assert!(matches!(m.status, DataStatus::NonMono));
    assert_eq!(units(out.price.unwrap().mid_price), 100.0);
    assert_eq!(m.last_exchange_time, 10_250_000);
}

#[test]
fn mid_price_drops_samples_from_the_future() {
    let mut m = MidPriceInstrument::new("1s", "X".to_string(), 10_500).unwrap();
    let out = m.on_bbo(&sample(101.0, 1.0, 99.0, 1.0, 11_501_000), 10_500);
    assert_eq!(out.intake, Intake::Future);
    assert!(out.price.is_none());
    assert!(out.emission.is_none());
    assert_eq!(m.last_exchange_time, 0);
    assert!(matches!(m.status, DataStatus::Empty));
    let out = m.on_bbo(&sample(101.0, 1.0, 99.0, 1.0, 11_500_000), 10_500);
    assert_eq!(out.intake, Intake::Accepted);
}

#[test]
fn mid_price_drops_prices_out_of_range() {
    let mut m = MidPriceInstrument::new("1s", "X".to_string(), 10_500).unwrap();
    let mut s = sample(101.0, 1.0, 99.0, 1.0, 10_100_000);
    s.ask_price = AMOUNT_LIMIT + 1;
    let out = m.on_bbo(&s, 10_500);
    assert_eq!(out.intake, Intake::OutOfRange);
    assert_eq!(m.last_exchange_time, 0);
    s.ask_price = AMOUNT_LIMIT;
    s.bid_price = -AMOUNT_LIMIT;
    let out = m.on_bbo(&s, 10_500);
    assert_eq!(out.intake, Intake::Accepted);
    assert_eq!(m.current.mid_prc, 0);
}

#[test]
fn mid_price_emits_the_sample_that_crosses_the_boundary() {
    let mut m = MidPriceInstrument::new("1s", "X".to_string(), 10_500).unwrap();
    m.on_bbo(&sample(101.0, 1.0, 99.0, 1.0, 10_100_000), 10_500);
    let out = m.on_bbo(&sample(103.0, 1.0, 101.0, 1.0, 11_000_000), 11_000);
    let emission = out.emission.unwrap();
    assert_eq!(emission.period_id, 10);
    assert_eq!(emission.response.timestamp, 11_000);
    assert!(matches!(emission.response.status, DataStatus::BasicValid));
    let data = emission.response.data.unwrap();
    assert_eq!(units(data.mid_prc), 102.0);
    assert_eq!(data.exchange_time, 11_000);
    assert_eq!(m.current.exchange_time, 0);
    assert_eq!(m.current.mid_prc, 0);
    assert_eq!(m.tracker.manager.get_current_period(), 11);
    assert_eq!(m.tracker.gate.last_emitted(), 10);
}

#[test]
fn mid_price_timer_emits_once_per_period() {
    let mut m = MidPriceInstrument::new("1s", "X".to_string(), 10_500).unwrap();
    m.on_bbo(&sample(101.0, 1.0, 99.0, 1.0, 10_100_000), 10_500);
    assert!(m.on_timer(10_999).is_none());
    let emission = m.on_timer(11_000).unwrap();
    assert_eq!(emission.period_id, 10);
    assert_eq!(units(emission.response.data.unwrap().mid_prc), 100.0);
    assert!(m.on_timer(11_000).is_none());
    let emission = m.on_timer(12_000).unwrap();
    assert_eq!(emission.period_id, 11);
    assert!(emission.response.data.is_none());
    assert!(matches!(emission.response.status, DataStatus::Invalid));
}

#[test]
fn volume_accumulates_the_trades_of_a_period() {
    let mut v = VolumeInstrument::new("1s", "X".to_string(), 10_500).unwrap();
    let trades = [
        Trade { exchange_time: 10_100_000, quantity: amount(1.5), is_buy: true },
        Trade { exchange_time: 10_200_000, quantity: amount(2.0), is_buy: true },
        Trade { exchange_time: 10_300_000, quantity: amount(0.5), is_buy: false },
    ];
    for trade in trades.iter() {
        let out = v.on_trade(trade, 10_500);
        assert_eq!(out.intake, Intake::Accepted);
        assert!(out.emission.is_none());
    }
    assert_eq!(units(v.current.total_volume), 4.0);
    assert_eq!(units(v.current.taker_buy_base_asset_volume), 3.5);
    assert_eq!(v.current.number_of_trades, 3);
    assert_eq!(v.current.period_id, 10);
    assert_eq!(v.current.exchange_time, 10_300);
}

#[test]
fn volume_drops_old_and_future_trades() {
    let mut v = VolumeInstrument::new("1s", "X".to_string(), 10_500).unwrap();
    v.on_trade(&Trade { exchange_time: 10_200_000, quantity: amount(1.0), is_buy: true }, 10_500);
    let out =
        v.on_trade(&Trade { exchange_time: 10_199_999, quantity: amount(1.0), is_buy: true }, 10_500);
    assert_eq!(out.intake, Intake::OutOfOrder);
    let out =
        v.on_trade(&Trade { exchange_time: 10_501_000, quantity: amount(1.0), is_buy: true }, 10_500);
    assert_eq!(out.intake, Intake::Future);
    let out =
        v.on_trade(&Trade { exchange_time: 10_200_000, quantity: amount(1.0), is_buy: false }, 10_500);
    assert_eq!(out.intake, Intake::Accepted);
    assert_eq!(v.current.number_of_trades, 2);
    assert_eq!(units(v.current.total_volume), 2.0);
    assert_eq!(units(v.current.taker_buy_base_asset_volume), 1.0);
}

#[test]
fn volume_emits_and_resets_at_the_boundary() {
    let mut v = VolumeInstrument::new("1s", "X".to_string(), 10_500).unwrap();
    v.on_trade(&Trade { exchange_time: 10_100_000, quantity: amount(1.5), is_buy: true }, 10_500);
    let out =
        v.on_trade(&Trade { exchange_time: 11_250_000, quantity: amount(0.25), is_buy: false }, 11_300);
    let emission = out.emission.unwrap();
    assert_eq!(emission.period_id, 10);
    let data = emission.response.data.unwrap();
    assert_eq!(units(data.total_volume), 1.5);
    assert_eq!(units(data.taker_buy_base_asset_volume), 1.5);
    assert_eq!(data.number_of_trades, 1);
    assert_eq!(data.period_id, 10);
    assert_eq!(units(v.current.total_volume), 0.25);
    assert_eq!(v.current.taker_buy_base_asset_volume, 0);
    assert_eq!(v.current.number_of_trades, 1);
    assert_eq!(v.current.period_id, 11);
}

#[test]
fn volume_timer_reports_empty_periods_as_invalid() {
    let mut v = VolumeInstrument::new("1s", "X".to_string(), 10_500).unwrap();
    assert!(v.on_timer(10_999).is_none());
    let emission = v.on_timer(11_000).unwrap();
    assert_eq!(emission.period_id, 10);
    assert!(emission.response.data.is_none());
    assert!(matches!(emission.response.status, DataStatus::Invalid));
    assert!(v.on_timer(11_000).is_none());
}

#[test]
fn volume_leaves_out_what_it_cannot_hold() {
    let mut v = VolumeInstrument::new("1s", "X".to_string(), 10_500).unwrap();
    v.on_trade(&Trade { exchange_time: 10_100_000, quantity: i64::MAX, is_buy: false }, 10_500);
    let out = v.on_trade(&Trade { exchange_time: 10_200_000, quantity: 1, is_buy: false }, 10_500);
    assert_eq!(out.intake, Intake::OutOfRange);
    assert_eq!(v.current.total_volume, i64::MAX);
    assert_eq!(v.current.number_of_trades, 1);
    assert_eq!(v.last_exchange_time, 10_100_000);
    let out = v.on_trade(&Trade { exchange_time: 10_200_000, quantity: -1, is_buy: true }, 10_500);
    assert_eq!(out.intake, Intake::Accepted);
    assert_eq!(v.current.total_volume, i64::MAX - 1);
    assert_eq!(v.current.taker_buy_base_asset_volume, -1);
}

#[test]
fn candle_tracks_open_high_low_close() {
    let mut k = KlineInstrument::new("1s", "X".to_string(), 10_500).unwrap();
    for (price, time) in [(100.0, 10_100_000), (103.0, 10_200_000), (98.0, 10_300_000), (101.0, 10_400_000)]
    {
        let out = k.on_price(amount(price), time, 10_500);
        assert_eq!(out.intake, Intake::Accepted);
        assert!(out.emission.is_none());
    }
    assert_eq!(units(k.current.open), 100.0);
    assert_eq!(units(k.current.high), 103.0);
    assert_eq!(units(k.current.low), 98.0);
    assert_eq!(units(k.current.close), 101.0);
    assert_eq!(k.current.open_time, 10_000);
    assert_eq!(k.current.close_time, 10_999);
    assert_eq!(k.current.period_id, 10);
    assert_eq!(k.current.interval_ms, 1_000);
}

#[test]
fn candle_emits_at_the_boundary_and_opens_the_next() {
    let mut k = KlineInstrument::new("1s", "X".to_string(), 10_500).unwrap();
    k.on_price(amount(100.0), 10_100_000, 10_500);
    k.on_price(amount(103.0), 10_200_000, 10_500);
    let out = k.on_price(amount(99.0), 11_050_000, 11_100);
    let emission = out.emission.unwrap();
    assert_eq!(emission.period_id, 10);
    let data = emission.response.data.unwrap();
    assert_eq!(units(data.open), 100.0);
    assert_eq!(units(data.high), 103.0);
    assert_eq!(units(data.low), 100.0);
    assert_eq!(units(data.close), 103.0);
    assert_eq!(data.period_id, 10);
    assert_eq!(units(k.current.open), 99.0);
    assert_eq!(units(k.current.high), 99.0);
    assert_eq!(units(k.current.low), 99.0);
    assert_eq!(k.current.open_time, 11_000);
    assert_eq!(k.current.close_time, 11_999);
    assert_eq!(k.current.period_id, 11);
}

#[test]
fn candle_skips_a_period_without_prices() {
    let mut k = KlineInstrument::new("1s", "X".to_string(), 10_500).unwrap();
    let out = k.on_price(amount(100.0), 11_100_000, 11_200);
    assert!(out.emission.is_none());
    assert_eq!(k.tracker.manager.get_current_period(), 11);
    assert_eq!(k.tracker.gate.last_emitted(), 0);
    assert_eq!(k.current.period_id, 11);
    assert_eq!(k.current.open_time, 11_000);
}

#[test]
fn candle_drops_old_and_future_prices() {
    let mut k = KlineInstrument::new("1s", "X".to_string(), 10_500).unwrap();
    k.on_price(amount(100.0), 10_200_000, 10_500);
    assert_eq!(k.on_price(amount(1.0), 10_100_000, 10_500).intake, Intake::OutOfOrder);
    assert_eq!(k.on_price(amount(1.0), 10_501_000, 10_500).intake, Intake::Future);
    assert_eq!(units(k.current.close), 100.0);
}

#[test]
fn candle_timer_emits_once() {
    let mut k = KlineInstrument::new("1s", "X".to_string(), 10_500).unwrap();
    k.on_price(amount(100.0), 10_100_000, 10_500);
    assert!(k.on_timer(10_999).is_none());
    let emission = k.on_timer(11_000).unwrap();
    assert_eq!(emission.period_id, 10);
    assert_eq!(units(emission.response.data.unwrap().close), 100.0);
    assert!(k.on_timer(11_000).is_none());
    assert_eq!(k.current.open_time, 0);
    let emission = k.on_timer(12_000).unwrap();
    assert_eq!(emission.period_id, 11);
    assert!(emission.response.data.is_none());
}

#[test]
fn microseconds_become_milliseconds() {
    assert_eq!(to_millis(1_635_000_000_000_000), 1_635_000_000_000);
    assert_eq!(to_millis(1_999), 1);
    assert_eq!(to_millis(-1), -1);
}

#[test]
fn composite_waits_for_the_volume() {
    let mut r = ResampleInstrument::new("X".to_string(), 1_000);
    let out = r.on_kline(&candle(7, 10.0, 12.0, 9.0, 11.0), 7_500);
    assert_eq!(out.intake, Intake::Accepted);
    assert!(out.emission.is_none());
    assert!(r.on_timer(7_999).is_none());
    assert_eq!(r.gate.last_emitted(), 0);

    let emission = r.on_timer(8_000).unwrap();
    assert_eq!(emission.period_id, 7);
    let data = emission.response.data.unwrap();
    assert_eq!(data.instrument_id, "X");
    assert_eq!(data.open_time, 7_000);
    assert_eq!(units(data.open), 10.0);
    assert_eq!(units(data.high), 12.0);
    assert_eq!(units(data.low), 9.0);
    assert_eq!(units(data.close), 11.0);
    assert_eq!(data.close_time, 7_999);
    assert_eq!(data.volume, 0);
    assert_eq!(data.number_of_trades, 0);
    assert_eq!(data.taker_buy_base_asset_volume, 0);
    assert_eq!(r.gate.last_emitted(), 7);
    assert!(r.on_timer(8_000).is_none());
}

#[test]
fn composite_finalizes_when_both_have_arrived() {
    let mut r = ResampleInstrument::new("X".to_string(), 1_000);
    assert!(r.on_kline(&candle(7, 10.0, 12.0, 9.0, 11.0), 8_010).emission.is_none());
    let out = r.on_volume(&volume(7, 4.0, 3.5, 3), 8_020);
    let emission = out.emission.unwrap();
    assert_eq!(emission.period_id, 7);
    assert_eq!(emission.response.timestamp, 8_020);
    let data = emission.response.data.unwrap();
    assert_eq!(units(data.open), 10.0);
    assert_eq!(units(data.close), 11.0);
    assert_eq!(units(data.volume), 4.0);
    assert_eq!(units(data.taker_buy_base_asset_volume), 3.5);
    assert_eq!(data.number_of_trades, 3);
    assert_eq!(r.current.open_time, 0);
    assert_eq!(r.current.volume, 0);
    assert_eq!(r.last_kline_period, 0);
    assert_eq!(r.last_volume_period, 0);
}

#[test]
fn composite_finalizes_in_either_order() {
    let mut r = ResampleInstrument::new("X".to_string(), 1_000);
    assert!(r.on_volume(&volume(7, 4.0, 3.5, 3), 8_010).emission.is_none());
    let out = r.on_kline(&candle(7, 10.0, 12.0, 9.0, 11.0), 8_020);
    let data = out.emission.unwrap().response.data.unwrap();
    assert_eq!(units(data.volume), 4.0);
    assert_eq!(units(data.high), 12.0);
}

#[test]
fn composite_merges_candles_of_a_period() {
    let mut r = ResampleInstrument::new("X".to_string(), 1_000);
    r.on_kline(&candle(7, 10.0, 12.0, 9.0, 11.0), 7_500);
    let mut second = candle(7, 11.0, 15.0, 8.0, 14.0);
    second.open_time = 7_400;
    second.close_time = 7_900;
    r.on_kline(&second, 7_600);
    assert_eq!(r.current.open_time, 7_000);
    assert_eq!(units(r.current.open), 10.0);
    assert_eq!(units(r.current.high), 15.0);
    assert_eq!(units(r.current.low), 8.0);
    assert_eq!(units(r.current.close), 14.0);
    assert_eq!(r.current.close_time, 7_900);
}

#[test]
fn composite_ignores_inputs_behind_its_watermarks() {
    let mut r = ResampleInstrument::new("X".to_string(), 1_000);
    r.on_kline(&candle(7, 10.0, 12.0, 9.0, 11.0), 7_500);
    let out = r.on_kline(&candle(6, 1.0, 1.0, 1.0, 1.0), 7_600);
    assert_eq!(out.intake, Intake::OutOfOrder);
    assert_eq!(units(r.current.close), 11.0);
    r.on_volume(&volume(8, 1.0, 1.0, 1), 8_500);
    let out = r.on_volume(&volume(7, 1.0, 1.0, 1), 8_600);
    assert_eq!(out.intake, Intake::OutOfOrder);
    assert_eq!(units(r.current.volume), 1.0);
}

#[test]
fn composite_does_not_finalize_a_period_twice() {
    let mut r = ResampleInstrument::new("X".to_string(), 1_000);
    r.on_kline(&candle(7, 10.0, 12.0, 9.0, 11.0), 8_010);
    assert!(r.on_volume(&volume(7, 4.0, 3.5, 3), 8_020).emission.is_some());
    r.on_kline(&candle(7, 10.0, 12.0, 9.0, 11.0), 8_030);
    assert!(r.on_volume(&volume(7, 4.0, 3.5, 3), 8_040).emission.is_none());
    assert!(r.on_timer(9_000).is_none());
    assert_eq!(r.gate.last_emitted(), 7);
}

#[test]
fn composite_forces_out_a_volume_without_candle() {
    let mut r = ResampleInstrument::new("X".to_string(), 1_000);
    r.on_volume(&volume(7, 4.0, 3.5, 3), 7_500);
    let data = r.on_timer(8_000).unwrap().response.data.unwrap();
    assert_eq!(data.close, 0);
    assert_eq!(units(data.volume), 4.0);
    assert_eq!(data.number_of_trades, 3);
}

#[test]
fn composite_leaves_out_a_volume_it_cannot_hold() {
    let mut r = ResampleInstrument::new("X".to_string(), 1_000);
    let mut big = volume(7, 0.0, 0.0, 1);
    big.total_volume = i64::MAX;
    r.on_volume(&big, 7_500);
    let out = r.on_volume(&volume(7, 1.0, 0.0, 1), 7_600);
    assert_eq!(out.intake, Intake::OutOfRange);
    assert_eq!(r.current.volume, i64::MAX);
    assert_eq!(r.current.number_of_trades, 1);
}

#[test]
fn nodes_reject_an_invalid_frequency() {
    let ids = vec!["X".to_string()];
    assert!(matches!(
        TotalVolumeNode::new("1x".to_string(), ids.clone(), 0),
        Err(MarketDataError::InvalidFrequency)
    ));
    assert!(matches!(
        MidPriceNode::new("".to_string(), ids.clone(), 0),
        Err(MarketDataError::InvalidFrequency)
    ));
    assert!(matches!(
        SimpleKlineNode::new("0s".to_string(), ids.clone(), 0),
        Err(MarketDataError::InvalidFrequency)
    ));
    assert!(matches!(
        ResampleKlineNode::new("-1m".to_string(), ids),
        Err(MarketDataError::InvalidFrequency)
    ));
}

#[test]
fn nodes_keep_each_instrument_once() {
    let ids = vec!["A".to_string(), "B".to_string(), "A".to_string(), "C".to_string(), "B".to_string()];
    let node = TotalVolumeNode::new("1s".to_string(), ids, 10_500).unwrap();
    assert_eq!(node.ids, vec!["A".to_string(), "B".to_string(), "C".to_string()]);
    assert_eq!(node.instruments.len(), 3);
    assert_eq!(node.instruments[1].instrument_id, "B");
    assert_eq!(node.instruments[1].tracker.manager.get_current_period(), 10);
}

#[test]
fn nodes_name_their_subscriptions() {
    let ids = vec!["A".to_string(), "B".to_string()];
    let volume_node = TotalVolumeNode::new("1s".to_string(), ids.clone(), 0).unwrap();
    assert_eq!(
        volume_node.start(),
        vec![(DmsEventType::TRADE, "A".to_string()), (DmsEventType::TRADE, "B".to_string())]
    );
    let price_node = MidPriceNode::new("1s".to_string(), ids, 0).unwrap();
    assert_eq!(
        price_node.start(),
        vec![(DmsEventType::BBO, "A".to_string()), (DmsEventType::BBO, "B".to_string())]
    );
}

#[test]
fn node_routes_a_message_to_its_instrument() {
    let ids = vec!["A".to_string(), "B".to_string()];
    let mut node = TotalVolumeNode::new("1s".to_string(), ids, 10_500).unwrap();
    let message =
        decode_message(r#"{"topic":"trade.B","tt":10100000,"body":{"q":2.5,"d":"sell"}}"#);
    let out = node.on_message(&message, 10_500);
    assert_eq!(out.intake, Intake::Accepted);
    assert_eq!(node.instruments[0].current.number_of_trades, 0);
    assert_eq!(node.instruments[1].current.number_of_trades, 1);
    assert_eq!(units(node.instruments[1].current.total_volume), 2.5);
    assert_eq!(node.instruments[1].current.taker_buy_base_asset_volume, 0);

    let message = decode_message(r#"{"topic":"trade.C","tt":10100000,"body":{"q":1,"d":"buy"}}"#);
    assert_eq!(node.on_message(&message, 10_500).intake, Intake::UnknownInstrument);
    let message = decode_message(r#"{"topic":"bbo.A","tt":1,"body":[[2,1],[1,1]]}"#);
    assert_eq!(node.on_message(&message, 10_500).intake, Intake::Ignored);
    let message = decode_message("{");
    assert_eq!(node.on_message(&message, 10_500).intake, Intake::Malformed);
    assert_eq!(node.instruments[1].current.number_of_trades, 1);
}

#[test]
fn price_node_feeds_the_candle_node() {
    let ids = vec!["A".to_string()];
    let mut prices = MidPriceNode::new("1s".to_string(), ids.clone(), 10_500).unwrap();
    let mut candles = SimpleKlineNode::new("1s".to_string(), ids.clone(), 10_500).unwrap();
    let mut volumes = TotalVolumeNode::new("1s".to_string(), ids.clone(), 10_500).unwrap();
    let mut composite = ResampleKlineNode::new("1s".to_string(), ids).unwrap();

    let feed = [
        r#"{"topic":"bbo.A","tt":10100000,"body":[["101","1","1"],["99","1","1"]]}"#,
        r#"{"topic":"trade.A","tt":10150000,"body":{"q":"1.5","d":"buy"}}"#,
        r#"{"topic":"bbo.A","tt":10200000,"body":[["105","1","1"],["101","1","1"]]}"#,
        r#"{"topic":"trade.A","tt":10250000,"body":{"q":"0.5","d":"sell"}}"#,
        r#"{"topic":"bbo.A","tt":11100000,"body":[["103","1","1"],["101","1","1"]]}"#,
        r#"{"topic":"trade.A","tt":11150000,"body":{"q":"1","d":"buy"}}"#,
    ];
    let mut finalized: Vec<ResampleKlineData> = Vec::new();
    for text in feed {
        let message = decode_message(text);
        let now = 11_200;
        let from_prices = prices.on_message(&message, now);
        if let Some(tick) = from_prices.price {
            let from_candles = candles.on_price("A", tick.mid_price, tick.exchange_time, now);
            if let Some(data) = from_candles.emission.and_then(|e| e.response.data) {
                if let Some(e) = composite.on_kline("A", &data, now).emission {
                    finalized.push(e.response.data.unwrap());
                }
            }
        }
        let from_volumes = volumes.on_message(&message, now);
        if let Some(data) = from_volumes.emission.and_then(|e| e.response.data) {
            if let Some(e) = composite.on_volume("A", &data, now).emission {
                finalized.push(e.response.data.unwrap());
            }
        }
    }
    assert_eq!(finalized.len(), 1);
    let record = &finalized[0];
    assert_eq!(record.instrument_id, "A");
    assert_eq!(record.period_id, 10);
    assert_eq!(units(record.open), 100.0);
    assert_eq!(units(record.high), 103.0);
    assert_eq!(units(record.low), 100.0);
    assert_eq!(units(record.close), 103.0);
    assert_eq!(units(record.volume), 2.0);
    assert_eq!(units(record.taker_buy_base_asset_volume), 1.5);
    assert_eq!(record.number_of_trades, 2);
}

#[test]
fn node_timer_checks_one_instrument() {
    let ids = vec!["A".to_string(), "B".to_string()];
    let mut node = SimpleKlineNode::new("1s".to_string(), ids, 10_500).unwrap();
    node.on_price("B", amount(5.0), 10_100_000, 10_500);
    assert!(node.on_timer(1, 10_999).is_none());
    let emission = node.on_timer(1, 11_000).unwrap();
    assert_eq!(emission.period_id, 10);
    assert_eq!(units(emission.response.data.unwrap().close), 5.0);
    assert_eq!(node.instruments[0].tracker.manager.get_current_period(), 10);
    assert_eq!(node.instruments[1].tracker.manager.get_current_period(), 11);
    assert_eq!(node.on_price("Z", amount(5.0), 10_100_000, 10_500).intake, Intake::UnknownInstrument);
}

#[test]
fn every_node_emits_each_period_once_and_in_order() {
    let mut v = VolumeInstrument::new("1s", "X".to_string(), 10_500).unwrap();
    let mut emitted: Vec<i64> = Vec::new();
    let times: [i64; 8] = [10_100, 11_000, 11_000, 11_500, 12_100, 12_050, 14_000, 13_000];
    for (n, t) in times.iter().enumerate() {
        let emission = if n % 2 == 0 {
            v.on_trade(&Trade { exchange_time: t * 1_000, quantity: 1, is_buy: true }, 20_000).emission
        } else {
            v.on_timer(*t)
        };
        if let Some(e) = emission {
            emitted.push(e.period_id);
        }
    }
    assert_eq!(emitted, vec![10, 11, 12]);
    for pair in emitted.windows(2) {
        assert!(pair[0] < pair[1]);
    }
}

#[test]
fn derived_nodes_need_no_subscription() {
    let ids = vec!["A".to_string()];
    assert!(SimpleKlineNode::new("1s".to_string(), ids.clone(), 0).unwrap().start().is_empty());
    assert!(ResampleKlineNode::new("1s".to_string(), ids).unwrap().start().is_empty());
}
