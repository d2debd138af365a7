use market_data_stream::codec::{decode, encode, DecodeError, JsonValue};
use market_data_stream::distributor::{Distributor, Received};
use market_data_stream::session::{
    transition, FrameOutcome, MarketDataClient, SessionAction, SessionEvent, SessionState,
};
use market_data_stream::stats::{MarketStats, StatsBook};
use market_data_stream::types::{
    MarketDataMessage, OrderBookSnapshot, PriceLevel, Quote, Trade, TradeSide, SCALE,
};

const T0: i64 = 1_700_000_000_123_456_789;

fn trade(symbol: &str, price: i64, quantity: i64, id: &str) -> Trade {
    Trade {
        symbol: symbol.to_string(),
        price,
        quantity,
        side: TradeSide::Buy,
        timestamp: T0,
        trade_id: id.to_string(),
    }
}

fn quote(bid: i64, ask: i64) -> Quote {
    Quote {
        symbol: "BTCUSD".to_string(),
        bid_price: bid,
        bid_size: 3 * SCALE / 2,
        ask_price: ask,
        ask_size: 2 * SCALE,
        timestamp: T0,
    }
}

fn level(price: i64, size: i64, num_orders: u32) -> PriceLevel {
    PriceLevel { price, size, num_orders }
}

fn book() -> OrderBookSnapshot {
    OrderBookSnapshot {
        symbol: "ETHUSD".to_string(),
        bids: vec![level(3000 * SCALE, 2 * SCALE, 4), level(2999 * SCALE, 5 * SCALE, 1)],
        asks: vec![level(3001 * SCALE, SCALE, 2)],
        timestamp: T0,
    }
}

fn obj(fields: Vec<(&str, JsonValue)>) -> JsonValue {
    JsonValue::Object(fields.into_iter().map(|(k, v)| (k.to_string(), v)).collect())
}

fn s(t: &str) -> JsonValue {
    JsonValue::Str(t.to_string())
}

fn heartbeat_doc() -> JsonValue {
    obj(vec![("type", s("Heartbeat"))])
}

fn trade_doc(price: JsonValue) -> JsonValue {
    obj(vec![
        ("type", s("Trade")),
        ("symbol", s("BTCUSD")),
        ("price", price),
        ("quantity", JsonValue::Decimal(SCALE / 2)),
        ("side", s("Sell")),
        ("timestamp", s("2024-01-02T03:04:05Z")),
        ("trade_id", s("t-1")),
    ])
}

fn expect_trade(m: MarketDataMessage) -> Trade {
    match m {
        MarketDataMessage::Trade(t) => t,
        _ => panic!("not a trade"),
    }
}

#[test]
fn test_quote_calculations() {
    let quote = quote(50000 * SCALE, 50100 * SCALE);
    assert_eq!(quote.spread(), 100 * SCALE as i128);
    assert_eq!(quote.mid_price(), 50050 * SCALE);
}

#[test]
fn test_market_stats() {
    let mut stats = MarketStats::new("BTCUSD".to_string());
    let trade1 = trade("BTCUSD", 50000 * SCALE, SCALE, "1");
    stats.update_with_trade(&trade1);
    assert_eq!(stats.trade_count, 1);
    assert_eq!(stats.last_price, 50000 * SCALE);
    assert_eq!(stats.high, Some(50000 * SCALE));
    assert_eq!(stats.low, Some(50000 * SCALE));
}

#[test]
fn test_client_creation() {
    let client = MarketDataClient::new("ws://localhost:8080".to_string(), 1000);
    assert!(!client.is_running());
}

#[test]
fn test_subscription() {
    let mut client = MarketDataClient::new("ws://localhost:8080".to_string(), 1000);
    let receiver = client.subscribe();
    assert!(matches!(client.receive(receiver), Received::Empty));
}

#[test]
fn two_trades_scenario() {
    let mut stats = MarketStats::new("BTCUSD".to_string());
    stats.update_with_trade(&trade("BTCUSD", 50000 * SCALE, SCALE, "1"));
    stats.update_with_trade(&trade("BTCUSD", 50100 * SCALE, SCALE / 2, "2"));
    assert_eq!(stats.trade_count, 2);
    assert_eq!(stats.total_volume, 150_000_000);
    assert_eq!(stats.high, Some(50100 * SCALE));
    assert_eq!(stats.low, Some(50000 * SCALE));
    // (50000 * 1 + 50100 * 0.5) / 1.5 = 50033.33333333...
    assert_eq!(stats.vwap, 5_003_333_333_333);
    assert_eq!(stats.last_price, 50100 * SCALE);
    assert_eq!(stats.last_update, Some(T0));
}

#[test]
fn empty_stats_have_no_extremes() {
    let stats = MarketStats::new("BTCUSD".to_string());
    assert_eq!(stats.trade_count, 0);
    assert_eq!(stats.total_volume, 0);
    assert_eq!(stats.high, None);
    assert_eq!(stats.low, None);
    assert_eq!(stats.last_update, None);
}

#[test]
fn totals_match_sums_over_trades() {
    let trades = vec![
        trade("X", 10 * SCALE, 2 * SCALE, "a"),
        trade("X", 7 * SCALE, SCALE, "b"),
        trade("X", 12 * SCALE, 3 * SCALE, "c"),
        trade("X", 9 * SCALE, SCALE / 4, "d"),
    ];
    let mut stats = MarketStats::new("X".to_string());
    for t in &trades {
        stats.update_with_trade(t);
    }
    let volume: u128 = trades.iter().map(|t| t.quantity as u128).sum();
    let notional: u128 = trades.iter().map(|t| t.price as u128 * t.quantity as u128).sum();
    assert_eq!(stats.total_volume, volume);
    assert_eq!(stats.notional, notional);
    assert_eq!(stats.high, Some(12 * SCALE));
    assert_eq!(stats.low, Some(7 * SCALE));
    assert_eq!(stats.vwap as u128, notional / volume);
}

#[test]
fn vwap_same_in_any_order() {
    let a = vec![
        trade("X", 101 * SCALE, 3 * SCALE, "a"),
        trade("X", 99 * SCALE, SCALE / 3, "b"),
        trade("X", 100 * SCALE + 7, 5, "c"),
    ];
    let mut first = MarketStats::new("X".to_string());
    for t in &a {
        first.update_with_trade(t);
    }
    let mut second = MarketStats::new("X".to_string());
    for t in a.iter().rev() {
        second.update_with_trade(t);
    }
    assert_eq!(first.vwap, second.vwap);
    assert_eq!(first.total_volume, second.total_volume);
}

#[test]
fn book_aggregates_per_symbol() {
    let mut book = StatsBook::new();
    assert!(book.record(&trade("BTCUSD", 50000 * SCALE, SCALE, "1")));
    assert!(book.record(&trade("ETHUSD", 3000 * SCALE, 2 * SCALE, "2")));
    assert!(book.record(&trade("BTCUSD", 50100 * SCALE, SCALE / 2, "3")));
    let btc = book.get_statistics(&"BTCUSD".to_string());
    assert_eq!(btc.trade_count, 2);
    assert_eq!(btc.vwap, 5_003_333_333_333);
    let eth = book.get_statistics(&"ETHUSD".to_string());
    assert_eq!(eth.trade_count, 1);
    let none = book.get_statistics(&"SOLUSD".to_string());
    assert_eq!(none.symbol, "SOLUSD");
    assert_eq!(none.trade_count, 0);
    assert_eq!(none.high, None);
}

#[test]
fn book_leaves_out_non_positive_trades() {
    let mut book = StatsBook::new();
    assert!(!book.record(&trade("BTCUSD", -5, SCALE, "1")));
    assert!(!book.record(&trade("BTCUSD", 5, 0, "2")));
    assert_eq!(book.get_statistics(&"BTCUSD".to_string()).trade_count, 0);
}

#[test]
fn quote_spread_may_be_negative() {
    let q = quote(101, 100);
    assert_eq!(q.spread(), -1);
    assert_eq!(q.mid_price(), 100);
    let q = quote(-3, 0);
    assert_eq!(q.mid_price(), -2);
}

#[test]
fn order_book_queries() {
    let b = book();
    assert_eq!(b.best_bid(), Some(&level(3000 * SCALE, 2 * SCALE, 4)));
    assert_eq!(b.best_ask(), Some(&level(3001 * SCALE, SCALE, 2)));
    assert_eq!(b.spread(), Some(SCALE as i128));
    assert_eq!(b.mid_price(), Some(3000 * SCALE + SCALE / 2));
    assert_eq!(b.total_bid_volume(), 7 * SCALE as i128);
    assert_eq!(b.total_ask_volume(), SCALE as i128);
    let empty = OrderBookSnapshot { symbol: "X".to_string(), bids: vec![], asks: vec![], timestamp: 0 };
    assert_eq!(empty.best_bid(), None);
    assert_eq!(empty.spread(), None);
    assert_eq!(empty.mid_price(), None);
    assert_eq!(empty.total_bid_volume(), 0);
}

#[test]
fn subscriber_sees_only_later_messages() {
    let mut d = Distributor::new(4);
    d.publish(MarketDataMessage::Heartbeat);
    let id = d.subscribe();
    assert!(matches!(d.receive(id), Received::Empty));
    d.publish(MarketDataMessage::Trade(trade("X", 1, 1, "a")));
    assert_eq!(expect_trade(match d.receive(id) {
        Received::Message(m) => m,
        _ => panic!("expected a message"),
    }).trade_id, "a");
    assert!(matches!(d.receive(id), Received::Empty));
}

#[test]
fn fast_and_stalled_subscribers() {
    let mut d = Distributor::new(3);
    let fast = d.subscribe();
    let slow = d.subscribe();
    let mut got = Vec::new();
    for k in 0..10 {
        d.publish(MarketDataMessage::Trade(trade("X", 1, 1, &format!("{}", k))));
        match d.receive(fast) {
            Received::Message(m) => got.push(expect_trade(m).trade_id),
            _ => panic!("fast subscriber missed a message"),
        }
    }
    let want: Vec<String> = (0..10).map(|k| format!("{}", k)).collect();
    assert_eq!(got, want);
    assert!(matches!(d.receive(slow), Received::Lagged(7)));
    let mut rest = Vec::new();
    while let Received::Message(m) = d.receive(slow) {
        rest.push(expect_trade(m).trade_id);
    }
    assert_eq!(rest, vec!["7".to_string(), "8".to_string(), "9".to_string()]);
}

#[test]
fn unsubscribed_handle_is_closed() {
    let mut d = Distributor::new(2);
    let a = d.subscribe();
    let b = d.subscribe();
    d.unsubscribe(a);
    d.publish(MarketDataMessage::Heartbeat);
    assert!(matches!(d.receive(a), Received::Closed));
    assert!(matches!(d.receive(b), Received::Message(MarketDataMessage::Heartbeat)));
    assert!(matches!(d.receive(99), Received::Closed));
}

#[test]
fn round_trip_each_kind() {
    let messages = vec![
        MarketDataMessage::Trade(trade("BTCUSD", 50000 * SCALE, SCALE, "abc")),
        MarketDataMessage::Quote(quote(50000 * SCALE, 50100 * SCALE)),
        MarketDataMessage::OrderBook(book()),
        MarketDataMessage::Heartbeat,
    ];
    for m in messages {
        let back = decode(&encode(&m)).ok().expect("decodes");
        match (&m, &back) {
            (MarketDataMessage::Trade(a), MarketDataMessage::Trade(b)) => {
                assert_eq!((&a.symbol, a.price, a.quantity, a.side, a.timestamp, &a.trade_id),
                    (&b.symbol, b.price, b.quantity, b.side, b.timestamp, &b.trade_id));
            }
            (MarketDataMessage::Quote(a), MarketDataMessage::Quote(b)) => {
                assert_eq!((a.bid_price, a.bid_size, a.ask_price, a.ask_size, a.timestamp, &a.symbol),
                    (b.bid_price, b.bid_size, b.ask_price, b.ask_size, b.timestamp, &b.symbol));
            }
            (MarketDataMessage::OrderBook(a), MarketDataMessage::OrderBook(b)) => {
                assert_eq!((&a.symbol, &a.bids, &a.asks, a.timestamp), (&b.symbol, &b.bids, &b.asks, b.timestamp));
            }
            (MarketDataMessage::Heartbeat, MarketDataMessage::Heartbeat) => {}
            _ => panic!("kind changed"),
        }
    }
}

#[test]
fn encoded_timestamp_is_rfc3339_text() {
    let doc = encode(&MarketDataMessage::Trade(trade("X", 1, 1, "a")));
    let fields = match doc {
        JsonValue::Object(f) => f,
        _ => panic!("not an object"),
    };
    let ts = fields.iter().find(|(k, _)| k == "timestamp").map(|(_, v)| v);
    match ts {
        Some(JsonValue::Str(t)) => assert_eq!(t, "2023-11-14T22:13:20.123456789Z"),
        _ => panic!("no timestamp text"),
    }
}

#[test]
fn decodes_integer_and_decimal_numbers() {
    let t = expect_trade(decode(&trade_doc(JsonValue::Int(50000))).ok().unwrap());
    assert_eq!(t.price, 50000 * SCALE);
    assert_eq!(t.quantity, SCALE / 2);
    assert_eq!(t.side, TradeSide::Sell);
    assert_eq!(t.timestamp, 1_704_164_645_000_000_000);
    let t = expect_trade(decode(&trade_doc(JsonValue::Decimal(-7))).ok().unwrap());
    assert_eq!(t.price, -7);
}

#[test]
fn decode_errors() {
    assert!(matches!(decode(&JsonValue::Null), Err(DecodeError::NotAnObject)));
    assert!(matches!(decode(&obj(vec![("kind", s("Trade"))])), Err(DecodeError::MissingType)));
    match decode(&obj(vec![("type", s("unknown"))])) {
        Err(DecodeError::UnknownType(t)) => assert_eq!(t, "unknown"),
        _ => panic!("expected an unknown type"),
    }
    assert!(matches!(decode(&trade_doc(s("cheap"))), Err(DecodeError::BadField)));
    assert!(matches!(decode(&trade_doc(JsonValue::Int(i64::MAX))), Err(DecodeError::BadField)));
    let bad_time = obj(vec![
        ("type", s("Quote")),
        ("symbol", s("X")),
        ("bid_price", JsonValue::Int(1)),
        ("bid_size", JsonValue::Int(1)),
        ("ask_price", JsonValue::Int(1)),
        ("ask_size", JsonValue::Int(1)),
        ("timestamp", s("yesterday")),
    ]);
    assert!(matches!(decode(&bad_time), Err(DecodeError::BadField)));
}

#[test]
fn malformed_then_valid_payload() {
    let mut client = MarketDataClient::new("ws://localhost:8080".to_string(), 8);
    let id = client.subscribe();
    assert!(matches!(client.on_data(&obj(vec![("type", s("unknown"))])), FrameOutcome::Rejected(DecodeError::UnknownType(_))));
    assert!(matches!(client.on_data(&heartbeat_doc()), FrameOutcome::Published(false)));
    assert!(matches!(client.receive(id), Received::Message(MarketDataMessage::Heartbeat)));
    assert!(matches!(client.receive(id), Received::Empty));
}

#[test]
fn trades_reach_statistics() {
    let mut client = MarketDataClient::new("ws://localhost:8080".to_string(), 8);
    assert!(matches!(client.on_data(&trade_doc(JsonValue::Int(50000))), FrameOutcome::Published(true)));
    let st = client.get_statistics(&"BTCUSD".to_string());
    assert_eq!(st.trade_count, 1);
    assert_eq!(st.high, Some(50000 * SCALE));
}

#[test]
fn lifecycle() {
    let mut client = MarketDataClient::new("ws://localhost:8080".to_string(), 8);
    client.stop();
    assert_eq!(client.state(), SessionState::Idle);
    assert_eq!(client.start(), SessionAction::Connect);
    assert!(client.is_running());
    assert_eq!(client.start(), SessionAction::WarnAlreadyRunning);
    assert_eq!(client.handle(SessionEvent::Connected), SessionAction::SpawnReader);
    assert_eq!(client.handle(SessionEvent::LoopBoundary), SessionAction::ReadFrame);
    assert_eq!(client.start(), SessionAction::WarnAlreadyRunning);
    client.stop();
    assert!(!client.is_running());
    assert_eq!(client.handle(SessionEvent::LoopBoundary), SessionAction::ExitLoop);
    assert_eq!(client.state(), SessionState::Idle);
}

#[test]
fn failed_connect_returns_to_idle() {
    assert_eq!(
        transition(SessionState::Starting, SessionEvent::ConnectFailed),
        (SessionState::Idle, SessionAction::ReportConnectError)
    );
    assert_eq!(
        transition(SessionState::Running, SessionEvent::StreamEnded),
        (SessionState::Idle, SessionAction::ExitLoop)
    );
}

#[test]
fn negative_price_trade_is_delivered_but_not_counted() {
    let mut client = MarketDataClient::new("ws://localhost:8080".to_string(), 8);
    let id = client.subscribe();
    assert!(matches!(client.on_data(&trade_doc(JsonValue::Int(-3))), FrameOutcome::Published(false)));
    match client.receive(id) {
        Received::Message(m) => assert_eq!(expect_trade(m).price, -3 * SCALE),
        _ => panic!("expected the trade"),
    }
    assert_eq!(client.get_statistics(&"BTCUSD".to_string()).trade_count, 0);
}

#[test]
fn start_while_stopping_warns() {
    let mut client = MarketDataClient::new("ws://localhost:8080".to_string(), 8);
    assert_eq!(client.start(), SessionAction::Connect);
    assert_eq!(client.handle(SessionEvent::Connected), SessionAction::SpawnReader);
    client.stop();
    assert_eq!(client.start(), SessionAction::WarnStillStopping);
    assert_eq!(client.handle(SessionEvent::LoopBoundary), SessionAction::ExitLoop);
    assert_eq!(client.start(), SessionAction::Connect);
}

#[test]
fn relaxed_timestamp_text_decodes() {
    let doc = obj(vec![
        ("type", s("Quote")),
        ("symbol", s("X")),
        ("bid_price", JsonValue::Int(1)),
        ("bid_size", JsonValue::Int(1)),
        ("ask_price", JsonValue::Int(2)),
        ("ask_size", JsonValue::Int(1)),
        ("timestamp", s("2024-01-02 03:04:05Z")),
    ]);
    match decode(&doc) {
        Ok(MarketDataMessage::Quote(q)) => assert_eq!(q.timestamp, 1_704_164_645_000_000_000),
        _ => panic!("expected a quote"),
    }
}
