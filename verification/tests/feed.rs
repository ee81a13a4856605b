use rnode::amount::{parse_amount, push_amount};
use rnode::error::MarketDataError;
use rnode::feed::{decode_message, try_decode, FeedMessage, RawBbo, RawTrade};
use rnode::json::{Document, Scalar};
use rnode::text::{chars_of, parse_i64, push_i64, str_equal};
use rnode::types::AMOUNT_SCALE;

fn amount_of(text: &str) -> Option<i64> {
    parse_amount(&text.chars().collect::<Vec<char>>())
}

fn integer_of(text: &str) -> Option<i64> {
    parse_i64(&text.chars().collect::<Vec<char>>())
}

#[test]
fn amounts_are_scaled_decimals() {
    assert_eq!(amount_of("1.5"), Some(150_000_000));
    assert_eq!(amount_of("50000.0"), Some(5_000_000_000_000));
    assert_eq!(amount_of("0"), Some(0));
    assert_eq!(amount_of("7"), Some(7 * AMOUNT_SCALE));
    assert_eq!(amount_of("0.00000001"), Some(1));
    assert_eq!(amount_of("-0.5"), Some(-50_000_000));
    assert_eq!(amount_of("+2.25"), Some(225_000_000));
    assert_eq!(amount_of("007.10"), Some(710_000_000));
}

#[test]
fn amounts_round_toward_zero() {
    assert_eq!(amount_of("1.123456789"), Some(112_345_678));
    assert_eq!(amount_of("-1.123456789"), Some(-112_345_678));
    assert_eq!(amount_of("0.000000009"), Some(0));
    assert_eq!(amount_of("-0.000000009"), Some(0));
}

#[test]
fn amounts_take_exponents() {
    assert_eq!(amount_of("1e-5"), Some(1_000));
    assert_eq!(amount_of("1E2"), Some(100 * AMOUNT_SCALE));
    assert_eq!(amount_of("2.5e+1"), Some(25 * AMOUNT_SCALE));
    assert_eq!(amount_of("1.5e-8"), Some(1));
    assert_eq!(amount_of("15e-9"), Some(1));
    assert_eq!(amount_of("1e-9"), Some(0));
    assert_eq!(amount_of("0e999"), Some(0));
    assert_eq!(amount_of("1e-1000"), Some(0));
    assert_eq!(amount_of("12345678901234567890e-15"), Some(1_234_567_890_123));
}

#[test]
fn amounts_reject_other_text() {
    assert_eq!(amount_of(""), None);
    assert_eq!(amount_of("abc"), None);
    assert_eq!(amount_of("."), None);
    assert_eq!(amount_of(".5"), None);
    assert_eq!(amount_of("5."), None);
    assert_eq!(amount_of("1e"), None);
    assert_eq!(amount_of("1e+"), None);
    assert_eq!(amount_of("1.5.2"), None);
    assert_eq!(amount_of("1,5"), None);
    assert_eq!(amount_of(" 1"), None);
    assert_eq!(amount_of("--1"), None);
    assert_eq!(amount_of("NaN"), None);
    assert_eq!(amount_of("inf"), None);
}

#[test]
fn amounts_reject_what_does_not_fit() {
    assert_eq!(amount_of("92233720368.54775807"), Some(i64::MAX));
    assert_eq!(amount_of("92233720368.54775808"), None);
    assert_eq!(amount_of("-92233720368.54775808"), Some(i64::MIN));
    assert_eq!(amount_of("-92233720368.54775809"), None);
    assert_eq!(amount_of("1e11"), None);
    assert_eq!(amount_of("1e1000"), None);
    assert_eq!(amount_of("1e1001"), None);
    assert_eq!(amount_of("1e-1001"), None);
    assert_eq!(amount_of("1000000000000000000000000000000e-30"), Some(AMOUNT_SCALE));
    assert_eq!(amount_of("10000000000000000000000000000000e-31"), None);
}

#[test]
fn amounts_are_written_with_all_places() {
    let mut out = String::from("x=");
    push_amount(&mut out, 250_000_000);
    assert_eq!(out, "x=2.50000000");
    let mut out = String::new();
    push_amount(&mut out, -1);
    assert_eq!(out, "-0.00000001");
    let mut out = String::new();
    push_amount(&mut out, 0);
    assert_eq!(out, "0.00000000");
    let mut out = String::new();
    push_amount(&mut out, i64::MIN);
    assert_eq!(out, "-92233720368.54775808");
    let mut out = String::new();
    push_amount(&mut out, i64::MAX);
    assert_eq!(out, "92233720368.54775807");
}

#[test]
fn written_amounts_read_back() {
    for v in [0, 1, -1, 99_999_999, 100_000_000, -123_456_789_012, i64::MAX, i64::MIN] {
        let mut out = String::new();
        push_amount(&mut out, v);
        assert_eq!(amount_of(&out), Some(v));
    }
}

#[test]
fn integers_are_read_and_written() {
    assert_eq!(integer_of("0"), Some(0));
    assert_eq!(integer_of("-0"), Some(0));
    assert_eq!(integer_of("+17"), Some(17));
    assert_eq!(integer_of("9223372036854775807"), Some(i64::MAX));
    assert_eq!(integer_of("9223372036854775808"), None);
    assert_eq!(integer_of("-9223372036854775808"), Some(i64::MIN));
    assert_eq!(integer_of("-9223372036854775809"), None);
    assert_eq!(integer_of(""), None);
    assert_eq!(integer_of("-"), None);
    assert_eq!(integer_of("1.0"), None);
    assert_eq!(integer_of("12a"), None);
    for v in [0, 7, -7, 1_635_000_000_000_000, i64::MAX, i64::MIN] {
        let mut out = String::new();
        push_i64(&mut out, v);
        assert_eq!(out, format!("{}", v));
        assert_eq!(integer_of(&out), Some(v));
    }
}

#[test]
fn strings_compare_by_their_characters() {
    assert!(str_equal("μs", "μs"));
    assert!(!str_equal("us", "μs"));
    assert!(str_equal("", ""));
    assert!(!str_equal("a", "ab"));
    assert_eq!(chars_of("aμb"), vec!['a', 'μ', 'b']);
}

#[test]
fn decodes_a_trade() {
    let text = r#"{
                "topic": "trade.BTCUSDT",
                "tt": 1635000000000000,
                "body": {
                    "t": 123,
                    "p": "50000.0",
                    "q": "1.5",
                    "d": "buy"
                }
            }"#;
    match decode_message(text) {
        FeedMessage::Trade { instrument_id, trade } => {
            assert_eq!(instrument_id, "BTCUSDT");
            assert_eq!(trade.exchange_time, 1_635_000_000_000_000);
            assert_eq!(trade.quantity, 150_000_000);
            assert!(trade.is_buy);
        },
        other => panic!("not a trade: {:?}", other),
    }
}

#[test]
fn decodes_a_sell_with_a_numeric_quantity() {
    let text = r#"{"topic":"trade.ETH.PERP","tt":5,"body":{"q":0.00001,"d":"sell"}}"#;
    match decode_message(text) {
        FeedMessage::Trade { instrument_id, trade } => {
            assert_eq!(instrument_id, "ETH.PERP");
            assert_eq!(trade.exchange_time, 5);
            assert_eq!(trade.quantity, 1_000);
            assert!(!trade.is_buy);
        },
        other => panic!("not a trade: {:?}", other),
    }
}

#[test]
fn decodes_a_sample() {
    let text = r#"{
                "topic": "bbo.BTCUSDT",
                "tt": 1635000000000000,
                "body": [
                    ["50100.0", "1.0", "1.0"],
                    ["50000.0", "2.0", "1.0"]
                ]
            }"#;
    match decode_message(text) {
        FeedMessage::Bbo { instrument_id, sample } => {
            assert_eq!(instrument_id, "BTCUSDT");
            assert_eq!(sample.exchange_time, 1_635_000_000_000_000);
            assert_eq!(sample.ask_price, 5_010_000_000_000);
            assert_eq!(sample.ask_qty, 100_000_000);
            assert_eq!(sample.bid_price, 5_000_000_000_000);
            assert_eq!(sample.bid_qty, 200_000_000);
        },
        other => panic!("not a sample: {:?}", other),
    }
}

#[test]
fn decodes_a_sample_with_numbers() {
    let text = r#"{"topic":"bbo.X","tt":7,"body":[[101,0],[99.5,3]]}"#;
    match decode_message(text) {
        FeedMessage::Bbo { sample, .. } => {
            assert_eq!(sample.ask_price, 101 * AMOUNT_SCALE);
            assert_eq!(sample.ask_qty, 0);
            assert_eq!(sample.bid_price, 9_950_000_000);
            assert_eq!(sample.bid_qty, 3 * AMOUNT_SCALE);
        },
        other => panic!("not a sample: {:?}", other),
    }
}

#[test]
fn other_topics_are_passed_over() {
    assert!(matches!(
        decode_message(r#"{"topic":"kline.BTCUSDT","tt":1,"body":{}}"#),
        FeedMessage::Other
    ));
    assert!(matches!(decode_message(r#"{"topic":"trade","tt":1}"#), FeedMessage::Other));
    assert!(matches!(decode_message(r#"{"topic":""}"#), FeedMessage::Other));
}

#[test]
fn text_that_is_no_json_is_malformed() {
    assert!(matches!(decode_message(""), FeedMessage::Malformed));
    assert!(matches!(decode_message("{"), FeedMessage::Malformed));
    assert!(matches!(decode_message("trade.BTCUSDT"), FeedMessage::Malformed));
    assert!(matches!(decode_message(r#"{"topic":"trade.X",}"#), FeedMessage::Malformed));
}

#[test]
fn messages_without_their_fields_are_malformed() {
    for text in [
        r#"[]"#,
        r#"{"tt":1,"body":{"q":"1","d":"buy"}}"#,
        r#"{"topic":7,"tt":1,"body":{"q":"1","d":"buy"}}"#,
        r#"{"topic":"trade.X","body":{"q":"1","d":"buy"}}"#,
        r#"{"topic":"trade.X","tt":"1","body":{"q":"1","d":"buy"}}"#,
        r#"{"topic":"trade.X","tt":1.5,"body":{"q":"1","d":"buy"}}"#,
        r#"{"topic":"trade.X","tt":1}"#,
        r#"{"topic":"trade.X","tt":1,"body":[]}"#,
        r#"{"topic":"trade.X","tt":1,"body":{"d":"buy"}}"#,
        r#"{"topic":"trade.X","tt":1,"body":{"q":"x","d":"buy"}}"#,
        r#"{"topic":"trade.X","tt":1,"body":{"q":"1"}}"#,
        r#"{"topic":"trade.X","tt":1,"body":{"q":"1","d":1}}"#,
        r#"{"topic":"bbo.X","tt":1,"body":[["1","1"]]}"#,
        r#"{"topic":"bbo.X","tt":1,"body":[["1"],["1","1"]]}"#,
        r#"{"topic":"bbo.X","tt":1,"body":[["1","1"],["1",null]]}"#,
        r#"{"topic":"bbo.X","tt":1,"body":{"q":"1","d":"buy"}}"#,
        r#"{"topic":"bbo.X","body":[["1","1"],["1","1"]]}"#,
    ] {
        assert!(matches!(decode_message(text), FeedMessage::Malformed), "{}", text);
    }
}

#[test]
fn any_side_but_buy_is_no_buy() {
    match decode_message(r#"{"topic":"trade.X","tt":1,"body":{"q":"1","d":"BUY"}}"#) {
        FeedMessage::Trade { trade, .. } => assert!(!trade.is_buy),
        other => panic!("not a trade: {:?}", other),
    }
}

#[test]
fn escaped_topics_are_read() {
    match decode_message(r#"{"topic":"trade.A\"Bé","tt":1,"body":{"q":"1","d":"buy"}}"#) {
        FeedMessage::Trade { instrument_id, .. } => assert_eq!(instrument_id, "A\"Bé"),
        other => panic!("not a trade: {:?}", other),
    }
}

#[test]
fn malformed_messages_are_an_error_to_drop() {
    assert!(matches!(try_decode("{"), Err(MarketDataError::MalformedMessage)));
    assert!(matches!(
        try_decode(r#"{"topic":"trade.X","tt":1}"#),
        Err(MarketDataError::MalformedMessage)
    ));
    assert!(matches!(try_decode(r#"{"topic":"kline.X"}"#), Ok(FeedMessage::Other)));
    assert!(matches!(
        try_decode(r#"{"topic":"trade.X","tt":1,"body":{"q":"1","d":"buy"}}"#),
        Ok(FeedMessage::Trade { .. })
    ));
}

#[test]
fn document_is_looked_into_by_pointer() {
    let document =
        Document::parse(r#"{"a":{"b":[10,"x",true,null,{"c":1.5}]},"n":-7,"big":1e300}"#).unwrap();
    assert!(matches!(document.at(""), Some(Scalar::Object)));
    assert!(matches!(document.at("/a"), Some(Scalar::Object)));
    assert!(matches!(document.at("/a/b"), Some(Scalar::Array)));
    match document.at("/a/b/0") {
        Some(Scalar::Number(text)) => assert_eq!(text, "10"),
        other => panic!("unexpected {:?}", other),
    }
    match document.at("/a/b/1") {
        Some(Scalar::Text(text)) => assert_eq!(text, "x"),
        other => panic!("unexpected {:?}", other),
    }
    assert!(matches!(document.at("/a/b/2"), Some(Scalar::Bool(true))));
    assert!(matches!(document.at("/a/b/3"), Some(Scalar::Null)));
    match document.at("/a/b/4/c") {
        Some(Scalar::Number(text)) => assert_eq!(text, "1.5"),
        other => panic!("unexpected {:?}", other),
    }
    assert_eq!(document.at("/n").unwrap().as_i64(), Some(-7));
    assert_eq!(document.at("/n").unwrap().as_amount(), Some(-700_000_000));
    assert_eq!(document.at("/big").unwrap().as_amount(), None);
    assert_eq!(document.at("/big").unwrap().as_i64(), None);
    assert!(document.at("/a/b/5").is_none());
    assert!(document.at("/a/x").is_none());
    assert!(document.at("a").is_none());
    assert!(Document::parse("{\"a\":").is_none());
    assert!(Document::parse("").is_none());
}

#[test]
fn raw_fields_make_a_trade() {
    let raw = RawTrade {
        time: Some(Scalar::Number("42".to_string())),
        quantity: Some(Scalar::Text("0.25".to_string())),
        side: Some(Scalar::Text("buy".to_string())),
    };
    match raw.interpret("X".to_string()) {
        FeedMessage::Trade { instrument_id, trade } => {
            assert_eq!(instrument_id, "X");
            assert_eq!(trade.exchange_time, 42);
            assert_eq!(trade.quantity, 25_000_000);
            assert!(trade.is_buy);
        },
        other => panic!("not a trade: {:?}", other),
    }
    let raw = RawTrade {
        time: Some(Scalar::Text("42".to_string())),
        quantity: Some(Scalar::Text("0.25".to_string())),
        side: Some(Scalar::Text("buy".to_string())),
    };
    assert!(matches!(raw.interpret("X".to_string()), FeedMessage::Malformed));
    let raw = RawTrade { time: None, quantity: None, side: None };
    assert!(matches!(raw.interpret("X".to_string()), FeedMessage::Malformed));
}

#[test]
fn raw_fields_make_a_sample() {
    let number = |text: &str| Some(Scalar::Number(text.to_string()));
    let raw = RawBbo {
        time: number("7"),
        body: Some(Scalar::Array),
        ask: Some(Scalar::Array),
        bid: Some(Scalar::Array),
        ask_price: number("101"),
        ask_qty: number("0"),
        bid_price: Some(Scalar::Text("99.5".to_string())),
        bid_qty: number("3"),
    };
    match raw.interpret("X".to_string()) {
        FeedMessage::Bbo { sample, .. } => {
            assert_eq!(sample.exchange_time, 7);
            assert_eq!(sample.ask_price, 101 * AMOUNT_SCALE);
            assert_eq!(sample.ask_qty, 0);
            assert_eq!(sample.bid_price, 9_950_000_000);
            assert_eq!(sample.bid_qty, 3 * AMOUNT_SCALE);
        },
        other => panic!("not a sample: {:?}", other),
    }
    let raw = RawBbo {
        time: number("7"),
        body: Some(Scalar::Object),
        ask: Some(Scalar::Array),
        bid: Some(Scalar::Array),
        ask_price: number("101"),
        ask_qty: number("0"),
        bid_price: number("99"),
        bid_qty: number("3"),
    };
    assert!(matches!(raw.interpret("X".to_string()), FeedMessage::Malformed));
}

#[test]
fn objects_with_numbered_members_are_no_sample() {
    let text = r#"{"topic":"bbo.X","tt":1,"body":{"0":["1","1"],"1":["1","1"]}}"#;
    assert!(matches!(decode_message(text), FeedMessage::Malformed));
    let text = r#"{"topic":"bbo.X","tt":1,"body":[{"0":"1","1":"1"},["1","1"]]}"#;
    assert!(matches!(decode_message(text), FeedMessage::Malformed));
}
