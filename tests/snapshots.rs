use orderbook_snapshots::decode::{
    decode_depth_response, decode_price_response, order_book_from_document,
    ticker_price_from_document,
};
use orderbook_snapshots::endpoint::{depth_url, ticker_url};
use orderbook_snapshots::iteration::{reconcile, snapshot_file, snapshot_file_at, Reconciled};
use orderbook_snapshots::model::{FetchError, Level, OrderBook, PriceSample, SnapshotRecord};
use orderbook_snapshots::pacer::{PaceAction, Pacer};
use orderbook_snapshots::record::{
    build_record, parse_record, record_document, record_from_document, render_record,
};
use orderbook_snapshots::stamp::{snapshot_path, LocalStamp};

const DEPTH_BODY: &str = r#"{"lastUpdateId":100,"bids":[["8.50","120.0"]],"asks":[["8.55","80.0"]]}"#;
const TICKER_BODY: &str = r#"{"symbol":"SUIUSDT","price":"8.52"}"#;

fn fixed_stamp() -> LocalStamp {
    LocalStamp::from_parts(2024, 5, 1, 12, 34, 56).unwrap()
}

fn level(p: &str, q: &str) -> Level {
    Level { price: p.to_string(), quantity: q.to_string() }
}

fn sample_record() -> SnapshotRecord {
    SnapshotRecord {
        last_update_id: 42,
        bids: vec![level("1.10", "5"), level("1.09", "7.5")],
        asks: vec![level("1.11", "3"), level("1.12", "0.25"), level("1.13", "9")],
        current_price: PriceSample { price: "1.105".to_string(), captured_at_millis: 1714566896123 },
        local_epoch_seconds: 1714566896,
        local_datetime: "2024-05-01 12:34:56".to_string(),
    }
}

#[test]
fn scenario_depth_and_ticker_make_one_record() {
    let book = decode_depth_response(200, DEPTH_BODY).ok().unwrap();
    assert_eq!(book.last_update_id, 100);
    assert_eq!(book.bids.len(), 1);
    assert_eq!(book.asks.len(), 1);
    assert_eq!(book.bids[0].price, "8.50");
    assert_eq!(book.bids[0].quantity, "120.0");
    assert_eq!(book.asks[0].price, "8.55");
    assert_eq!(book.asks[0].quantity, "80.0");
    let price = decode_price_response(200, TICKER_BODY, 1714566896000).ok().unwrap();
    assert_eq!(price.price, "8.52");
    assert_eq!(price.captured_at_millis, 1714566896000);

    let (book, price) = match reconcile(Ok(book), Ok(price)) {
        Reconciled::Ready(b, p) => (b, p),
        Reconciled::Failed { .. } => panic!("both legs succeeded"),
    };
    let file = snapshot_file(book, price, "SUIUSDT", "./orderbook_snapshots", &fixed_stamp(), 1714566896);
    assert_eq!(file.path, "./orderbook_snapshots/orderbook_SUIUSDT_20240501_123456.json");
    let back = parse_record(&file.contents).unwrap();
    assert_eq!(back.last_update_id, 100);
    assert_eq!(back.bids.len(), 1);
    assert_eq!(back.asks.len(), 1);
    assert_eq!(back.current_price.price, "8.52");
    assert_eq!(back.current_price.captured_at_millis, 1714566896000);
    assert_eq!(back.local_epoch_seconds, 1714566896);
    assert_eq!(back.local_datetime, "2024-05-01 12:34:56");
    assert!(file.contents.contains("\"current_price\""));
    assert!(file.contents.contains("\"local_datetime\": \"2024-05-01 12:34:56\""));
}

#[test]
fn scenario_depth_http_500_writes_nothing() {
    let depth = decode_depth_response(500, "Internal Server Error");
    assert!(matches!(depth, Err(FetchError::HttpStatus(500))));
    let price = decode_price_response(200, TICKER_BODY, 7);
    assert!(price.is_ok());
    match reconcile(depth, price) {
        Reconciled::Ready(..) => panic!("a failed leg must not give a record"),
        Reconciled::Failed { depth, price } => {
            assert!(matches!(depth, Some(FetchError::HttpStatus(500))));
            assert!(price.is_none());
        }
    }
    // The next iteration tries both legs again and can succeed.
    let depth = decode_depth_response(200, DEPTH_BODY);
    let price = decode_price_response(200, TICKER_BODY, 8);
    assert!(matches!(reconcile(depth, price), Reconciled::Ready(..)));
}

#[test]
fn scenario_fast_iteration_is_delayed_by_the_deficit() {
    let mut pacer = Pacer::new(100, 100, 1000);
    assert_eq!(pacer.spacing_delay(1050), 50);
    pacer.begin_snapshot(1100);
    assert_eq!(pacer.last_start_ms, 1100);
    assert_eq!(pacer.spacing_delay(1100), 100);
    assert_eq!(pacer.spacing_delay(1250), 0);
    assert_eq!(pacer.spacing_delay(1200), 0);
}

#[test]
fn spacing_delay_never_lets_starts_come_closer_than_the_minimum() {
    let pacer = Pacer::new(100, 100, 5000);
    for now in 5000u64..5300 {
        let start = now + pacer.spacing_delay(now);
        assert!(start - pacer.last_start_ms >= 100);
    }
}

#[test]
fn clock_going_backwards_waits_the_full_spacing() {
    let pacer = Pacer::new(100, 100, 5000);
    assert_eq!(pacer.spacing_delay(4000), 100);
}

#[test]
fn finish_iteration_sleeps_or_reports_overrun() {
    let pacer = Pacer::new(100, 100, 0);
    assert!(matches!(pacer.finish_iteration(0, 30), PaceAction::Sleep(70)));
    assert!(matches!(pacer.finish_iteration(0, 100), PaceAction::Overrun(100)));
    assert!(matches!(pacer.finish_iteration(10, 250), PaceAction::Overrun(240)));
}

#[test]
fn record_round_trips_through_text() {
    let r = sample_record();
    let text = render_record(&r);
    let back = parse_record(&text).unwrap();
    assert_eq!(back.last_update_id, 42);
    assert_eq!(back.bids.len(), 2);
    assert_eq!(back.asks.len(), 3);
    for (a, b) in back.bids.iter().zip(r.bids.iter()) {
        assert_eq!(a.price, b.price);
        assert_eq!(a.quantity, b.quantity);
    }
    for (a, b) in back.asks.iter().zip(r.asks.iter()) {
        assert_eq!(a.price, b.price);
        assert_eq!(a.quantity, b.quantity);
    }
    assert_eq!(back.current_price.price, "1.105");
    assert_eq!(back.current_price.captured_at_millis, 1714566896123);
    assert_eq!(back.local_epoch_seconds, 1714566896);
    assert_eq!(back.local_datetime, "2024-05-01 12:34:56");
}

#[test]
fn record_round_trips_through_document() {
    let r = sample_record();
    let back = record_from_document(&record_document(&r)).unwrap();
    assert_eq!(back.last_update_id, r.last_update_id);
    assert_eq!(back.asks[1].quantity, "0.25");
    assert_eq!(back.local_datetime, r.local_datetime);
}

#[test]
fn rendered_record_is_pretty_and_in_field_order() {
    let text = render_record(&sample_record());
    assert!(text.contains('\n'));
    let order = ["lastUpdateId", "bids", "asks", "current_price", "local_timestamp", "local_datetime"];
    let mut at = 0;
    for key in order {
        let found = text[at..].find(&format!("\"{}\"", key)).unwrap();
        at += found;
    }
    assert!(text.contains("\"timestamp\": 1714566896123"));
}

#[test]
fn empty_book_sides_round_trip() {
    let mut r = sample_record();
    r.bids = vec![];
    r.asks = vec![];
    let back = parse_record(&render_record(&r)).unwrap();
    assert!(back.bids.is_empty());
    assert!(back.asks.is_empty());
}

#[test]
fn file_name_is_reproducible() {
    let a = snapshot_path("./orderbook_snapshots", "SUIUSDT", &fixed_stamp());
    let b = snapshot_path("./orderbook_snapshots", "SUIUSDT", &fixed_stamp());
    assert_eq!(a, b);
    assert_eq!(a, "./orderbook_snapshots/orderbook_SUIUSDT_20240501_123456.json");
}

#[test]
fn file_names_one_second_apart_differ() {
    let a = snapshot_path("d", "SUIUSDT", &fixed_stamp());
    let next = LocalStamp::from_parts(2024, 5, 1, 12, 34, 57).unwrap();
    let b = snapshot_path("d", "SUIUSDT", &next);
    assert_ne!(a, b);
    assert!(a < b);
}

#[test]
fn stamp_texts_are_zero_padded() {
    let s = LocalStamp::from_parts(7, 1, 2, 3, 4, 5).unwrap();
    assert_eq!(s.compact(), "00070102_030405");
    assert_eq!(s.display(), "0007-01-02 03:04:05");
}

#[test]
fn stamp_parts_out_of_range_are_refused() {
    assert!(LocalStamp::from_parts(10000, 1, 1, 0, 0, 0).is_none());
    assert!(LocalStamp::from_parts(-1, 1, 1, 0, 0, 0).is_none());
    assert!(LocalStamp::from_parts(2024, 13, 1, 0, 0, 0).is_none());
    assert!(LocalStamp::from_parts(2024, 0, 1, 0, 0, 0).is_none());
    assert!(LocalStamp::from_parts(2024, 1, 32, 0, 0, 0).is_none());
    assert!(LocalStamp::from_parts(2024, 1, 1, 24, 0, 0).is_none());
    assert!(LocalStamp::from_parts(2024, 1, 1, 0, 60, 0).is_none());
    assert!(LocalStamp::from_parts(2024, 1, 1, 0, 0, 60).is_none());
    assert!(LocalStamp::from_parts(9999, 12, 31, 23, 59, 59).is_some());
}

#[test]
fn endpoint_urls() {
    assert_eq!(depth_url("SUIUSDT", 100), "https://api.binance.us/api/v3/depth?symbol=SUIUSDT&limit=100");
    assert_eq!(depth_url("BTCUSDT", 5), "https://api.binance.us/api/v3/depth?symbol=BTCUSDT&limit=5");
    assert_eq!(depth_url("X", 0), "https://api.binance.us/api/v3/depth?symbol=X&limit=0");
    assert_eq!(
        depth_url("X", 4294967295),
        "https://api.binance.us/api/v3/depth?symbol=X&limit=4294967295"
    );
    assert_eq!(ticker_url("SUIUSDT"), "https://api.binance.us/api/v3/ticker/price?symbol=SUIUSDT");
}

#[test]
fn malformed_depth_body_is_a_parse_error() {
    assert!(matches!(decode_depth_response(200, "not json"), Err(FetchError::Parse(_))));
    assert!(matches!(decode_depth_response(200, "[]"), Err(FetchError::Parse(_))));
    let missing_asks = r#"{"lastUpdateId":1,"bids":[]}"#;
    assert!(matches!(decode_depth_response(200, missing_asks), Err(FetchError::Parse(_))));
    let negative_id = r#"{"lastUpdateId":-1,"bids":[],"asks":[]}"#;
    assert!(matches!(decode_depth_response(200, negative_id), Err(FetchError::Parse(_))));
    let short_level = r#"{"lastUpdateId":1,"bids":[["1.0"]],"asks":[]}"#;
    assert!(matches!(decode_depth_response(200, short_level), Err(FetchError::Parse(_))));
    let numeric_level = r#"{"lastUpdateId":1,"bids":[[1.0, 2.0]],"asks":[]}"#;
    assert!(matches!(decode_depth_response(200, numeric_level), Err(FetchError::Parse(_))));
}

#[test]
fn depth_body_keeps_level_order_and_ignores_other_members() {
    let body = r#"{"extra":true,"asks":[["2","1"],["3","1"]],"bids":[["1.5","4"],["1.4","2"]],"lastUpdateId":18446744073709551615}"#;
    let book = decode_depth_response(204, body).ok().unwrap();
    assert_eq!(book.last_update_id, u64::MAX);
    assert_eq!(book.bids[0].price, "1.5");
    assert_eq!(book.bids[1].price, "1.4");
    assert_eq!(book.asks[0].price, "2");
    assert_eq!(book.asks[1].price, "3");
}

#[test]
fn ticker_errors() {
    assert!(matches!(decode_price_response(404, TICKER_BODY, 0), Err(FetchError::HttpStatus(404))));
    assert!(matches!(decode_price_response(199, TICKER_BODY, 0), Err(FetchError::HttpStatus(199))));
    assert!(matches!(decode_price_response(300, TICKER_BODY, 0), Err(FetchError::HttpStatus(300))));
    assert!(matches!(decode_price_response(200, "{", 0), Err(FetchError::Parse(_))));
    assert!(matches!(decode_price_response(200, r#"{"price":8.52}"#, 0), Err(FetchError::Parse(_))));
    assert!(matches!(decode_price_response(200, r#"{"symbol":"SUIUSDT"}"#, 0), Err(FetchError::Parse(_))));
}

#[test]
fn price_failure_leaves_depth_leg_intact() {
    let depth = decode_depth_response(200, DEPTH_BODY);
    let price = Err(FetchError::Transport("connection refused".to_string()));
    match reconcile(depth, price) {
        Reconciled::Ready(..) => panic!("a failed leg must not give a record"),
        Reconciled::Failed { depth, price } => {
            assert!(depth.is_none());
            assert!(matches!(price, Some(FetchError::Transport(ref m)) if m == "connection refused"));
        }
    }
    let both = reconcile(Err(FetchError::Parse("x".to_string())), Err(FetchError::HttpStatus(503)));
    assert!(matches!(
        both,
        Reconciled::Failed { depth: Some(FetchError::Parse(_)), price: Some(FetchError::HttpStatus(503)) }
    ));
}

#[test]
fn build_record_takes_every_field() {
    let book = OrderBook { last_update_id: 9, bids: vec![level("1", "2")], asks: vec![] };
    let price = PriceSample { price: "1.5".to_string(), captured_at_millis: 77 };
    let r = build_record(book, price, &fixed_stamp(), 1714566896);
    assert_eq!(r.last_update_id, 9);
    assert_eq!(r.bids.len(), 1);
    assert!(r.asks.is_empty());
    assert_eq!(r.current_price.price, "1.5");
    assert_eq!(r.current_price.captured_at_millis, 77);
    assert_eq!(r.local_epoch_seconds, 1714566896);
    assert_eq!(r.local_datetime, "2024-05-01 12:34:56");
}

#[test]
fn documents_read_directly() {
    let r = sample_record();
    let doc = record_document(&r);
    assert!(order_book_from_document(&doc).is_some());
    assert!(ticker_price_from_document(&doc).is_none());
}

fn scenario_book() -> OrderBook {
    decode_depth_response(200, DEPTH_BODY).ok().unwrap()
}

fn scenario_price() -> PriceSample {
    decode_price_response(200, TICKER_BODY, 1736944496000).ok().unwrap()
}

#[test]
fn snapshot_from_clock_reading() {
    let file = snapshot_file_at(
        scenario_book(), scenario_price(), "SUIUSDT", "./orderbook_snapshots",
        2025, 1, 15, 12, 34, 56, 1736944496,
    )
    .ok()
    .unwrap();
    assert_eq!(file.path, "./orderbook_snapshots/orderbook_SUIUSDT_20250115_123456.json");
    let back = parse_record(&file.contents).unwrap();
    assert_eq!(back.local_datetime, "2025-01-15 12:34:56");
    assert_eq!(back.local_epoch_seconds, 1736944496);
    assert_eq!(back.current_price.captured_at_millis, 1736944496000);
    assert_eq!(back.bids[0].quantity, "120.0");
    assert_eq!(back.asks[0].quantity, "80.0");
}

#[test]
fn snapshot_from_bad_clock_reading_is_a_persistence_error() {
    let r = snapshot_file_at(scenario_book(), scenario_price(), "S", "d", 10000, 1, 1, 0, 0, 0, 5);
    assert!(matches!(r, Err(FetchError::Persistence(_))));
    let r = snapshot_file_at(scenario_book(), scenario_price(), "S", "d", 2025, 1, 1, 0, 0, 0, -1);
    assert!(matches!(r, Err(FetchError::Persistence(_))));
    let r = snapshot_file_at(scenario_book(), scenario_price(), "S", "d", 2025, 2, 1, 0, 0, 60, 5);
    assert!(matches!(r, Err(FetchError::Persistence(_))));
}

#[test]
fn file_names_sort_by_time_across_a_year_boundary() {
    let late = LocalStamp::from_parts(2024, 12, 31, 23, 59, 59).unwrap();
    let early_next = LocalStamp::from_parts(2025, 1, 1, 0, 0, 0).unwrap();
    let a = snapshot_path("d", "SUIUSDT", &late);
    let b = snapshot_path("d", "SUIUSDT", &early_next);
    assert!(a < b);
}
