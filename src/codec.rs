use vstd::prelude::*;
use crate::types::{
    BookView, MarketDataMessage, MessageView, OrderBookSnapshot, PriceLevel, Quote, Trade, TradeSide, SCALE,
};

verus! {

/// A JSON document as the codec reads it. Numbers with a fraction are held
/// in fixed-point units of `10^-8` (`Decimal`); integers as they are (`Int`).
pub enum JsonValue {
    Null,
    Bool(bool),
    Int(i64),
    Decimal(i64),
    Str(String),
    Array(Vec<JsonValue>),
    Object(Vec<(String, JsonValue)>),
}

/// Why a payload is not a message.
pub enum DecodeError {
    /// The payload is not a JSON object.
    NotAnObject,
    /// The object has no string field `type`.
    MissingType,
    /// The `type` field names no known message kind.
    UnknownType(String),
    /// A field of the named kind is missing or has the wrong shape.
    BadField,
}

/// The instant that a date-and-time text names, in nanoseconds since the
/// Unix epoch, if it is RFC 3339 in chrono's relaxed reading (which also
/// takes a space for `T` and a `UTC` suffix) and fits an `i64`.
pub uninterp spec fn rfc3339_nanos(text: Seq<char>) -> Option<i64>;

/// The RFC 3339 text (UTC, `Z` suffix) of an instant given in nanoseconds
/// since the Unix epoch.
pub uninterp spec fn rfc3339_text(nanos: i64) -> Seq<char>;

/// Relies on chrono's `FromStr for DateTime<FixedOffset>` (the parser that
/// chrono's serde support uses for timestamps), then
/// `DateTime::timestamp_nanos_opt`: parses the text and gives its instant in
/// nanoseconds, or `None`; the result depends on the text alone.
#[verifier::external_body]
fn parse_timestamp(text: &str) -> (r: Option<i64>)
    ensures
        r == rfc3339_nanos(text@),
{
    <chrono::DateTime<chrono::FixedOffset> as std::str::FromStr>::from_str(text).ok().and_then(
        |d| d.timestamp_nanos_opt(),
    )
}

/// Relies on chrono's `DateTime::<Utc>::to_rfc3339_opts`, on the instant
/// that `DateTime::from_timestamp_nanos` builds (defined for every `i64`):
/// the RFC 3339 text of the instant; depends on the argument alone.
#[verifier::external_body]
fn format_timestamp(nanos: i64) -> (r: String)
    ensures
        r@ == rfc3339_text(nanos),
{
    chrono::DateTime::from_timestamp_nanos(nanos).to_rfc3339_opts(chrono::SecondsFormat::AutoSi, true)
}

/// The value of the first field named `key`.
pub open spec fn lookup(fs: Seq<(String, JsonValue)>, key: Seq<char>) -> Option<JsonValue>
    decreases fs.len(),
{
    if fs.len() == 0 {
        None
    } else if fs[0].0@ == key {
        Some(fs[0].1)
    } else {
        lookup(fs.drop_first(), key)
    }
}

pub open spec fn text_of(v: Option<JsonValue>) -> Option<String> {
    match v {
        Some(JsonValue::Str(s)) => Some(s),
        _ => None,
    }
}

/// A number in fixed-point units: a decimal as it is, an integer scaled.
pub open spec fn fixed_of(v: Option<JsonValue>) -> Option<i64> {
    match v {
        Some(JsonValue::Decimal(x)) => Some(x),
        Some(JsonValue::Int(i)) => if i64::MIN <= i * SCALE <= i64::MAX {
            Some((i * SCALE) as i64)
        } else {
            None
        },
        _ => None,
    }
}

pub open spec fn count_of(v: Option<JsonValue>) -> Option<u32> {
    match v {
        Some(JsonValue::Int(i)) => if 0 <= i <= u32::MAX {
            Some(i as u32)
        } else {
            None
        },
        _ => None,
    }
}

pub open spec fn side_of(v: Option<JsonValue>) -> Option<TradeSide> {
    match text_of(v) {
        Some(s) => if s@ == "Buy"@ {
            Some(TradeSide::Buy)
        } else if s@ == "Sell"@ {
            Some(TradeSide::Sell)
        } else {
            None
        },
        None => None,
    }
}

pub open spec fn time_of(v: Option<JsonValue>) -> Option<i64> {
    match text_of(v) {
        Some(s) => rfc3339_nanos(s@),
        None => None,
    }
}

pub open spec fn trade_of(fs: Seq<(String, JsonValue)>) -> Option<Trade> {
    match (
        text_of(lookup(fs, "symbol"@)),
        fixed_of(lookup(fs, "price"@)),
        fixed_of(lookup(fs, "quantity"@)),
        side_of(lookup(fs, "side"@)),
        time_of(lookup(fs, "timestamp"@)),
        text_of(lookup(fs, "trade_id"@)),
    ) {
        (Some(symbol), Some(price), Some(quantity), Some(side), Some(timestamp), Some(trade_id)) => Some(
            Trade { symbol, price, quantity, side, timestamp, trade_id },
        ),
        _ => None,
    }
}

pub open spec fn quote_of(fs: Seq<(String, JsonValue)>) -> Option<Quote> {
    match (
        text_of(lookup(fs, "symbol"@)),
        fixed_of(lookup(fs, "bid_price"@)),
        fixed_of(lookup(fs, "bid_size"@)),
        fixed_of(lookup(fs, "ask_price"@)),
        fixed_of(lookup(fs, "ask_size"@)),
        time_of(lookup(fs, "timestamp"@)),
    ) {
        (Some(symbol), Some(bid_price), Some(bid_size), Some(ask_price), Some(ask_size), Some(timestamp)) => Some(
            Quote { symbol, bid_price, bid_size, ask_price, ask_size, timestamp },
        ),
        _ => None,
    }
}

pub open spec fn level_of(v: JsonValue) -> Option<PriceLevel> {
    match v {
        JsonValue::Object(fs) => match (
            fixed_of(lookup(fs@, "price"@)),
            fixed_of(lookup(fs@, "size"@)),
            count_of(lookup(fs@, "num_orders"@)),
        ) {
            (Some(price), Some(size), Some(num_orders)) => Some(PriceLevel { price, size, num_orders }),
            _ => None,
        },
        _ => None,
    }
}

/// The levels of a list, if every item is a level.
pub open spec fn levels_seq(items: Seq<JsonValue>) -> Option<Seq<PriceLevel>>
    decreases items.len(),
{
    if items.len() == 0 {
        Some(Seq::empty())
    } else {
        match (levels_seq(items.drop_last()), level_of(items.last())) {
            (Some(ls), Some(l)) => Some(ls.push(l)),
            _ => None,
        }
    }
}

pub open spec fn levels_of(v: Option<JsonValue>) -> Option<Seq<PriceLevel>> {
    match v {
        Some(JsonValue::Array(items)) => levels_seq(items@),
        _ => None,
    }
}

pub open spec fn book_of(fs: Seq<(String, JsonValue)>) -> Option<BookView> {
    match (
        text_of(lookup(fs, "symbol"@)),
        levels_of(lookup(fs, "bids"@)),
        levels_of(lookup(fs, "asks"@)),
        time_of(lookup(fs, "timestamp"@)),
    ) {
        (Some(symbol), Some(bids), Some(asks), Some(timestamp)) => Some(
            BookView { symbol: symbol@, bids, asks, timestamp },
        ),
        _ => None,
    }
}

/// The message a JSON document stands for: the field `type` selects the
/// kind, and that kind's fields must be present with the right shape.
/// Other fields are ignored; no range is checked.
pub open spec fn decoded(j: JsonValue) -> Result<MessageView, DecodeError> {
    match j {
        JsonValue::Object(fs) => match lookup(fs@, "type"@) {
            Some(JsonValue::Str(t)) => if t@ == "Trade"@ {
                match trade_of(fs@) {
                    Some(x) => Ok(MessageView::Trade(x)),
                    None => Err(DecodeError::BadField),
                }
            } else if t@ == "Quote"@ {
                match quote_of(fs@) {
                    Some(x) => Ok(MessageView::Quote(x)),
                    None => Err(DecodeError::BadField),
                }
            } else if t@ == "OrderBook"@ {
                match book_of(fs@) {
                    Some(x) => Ok(MessageView::OrderBook(x)),
                    None => Err(DecodeError::BadField),
                }
            } else if t@ == "Heartbeat"@ {
                Ok(MessageView::Heartbeat)
            } else {
                Err(DecodeError::UnknownType(t))
            },
            _ => Err(DecodeError::MissingType),
        },
        _ => Err(DecodeError::NotAnObject),
    }
}

fn field<'a>(fs: &'a Vec<(String, JsonValue)>, key: &str) -> (r: Option<&'a JsonValue>)
    ensures
        match r {
            Some(v) => lookup(fs@, key@) == Some(*v),
            None => lookup(fs@, key@) is None,
        },
{
    let k = key.to_owned();
    let mut i: usize = 0;
    assert(fs@.subrange(0, fs@.len() as int) =~= fs@);
    while i < fs.len()
        invariant
            i <= fs@.len(),
            k@ == key@,
            lookup(fs@, key@) == lookup(fs@.subrange(i as int, fs@.len() as int), key@),
        decreases fs.len() - i,
    {
        assert(fs@.subrange(i as int, fs@.len() as int).drop_first() =~= fs@.subrange(
            i as int + 1,
            fs@.len() as int,
        ));
        if fs[i].0 == k {
            return Some(&fs[i].1);
        }
        i = i + 1;
    }
    None
}

fn text_field(fs: &Vec<(String, JsonValue)>, key: &str) -> (r: Option<String>)
    ensures
        r == text_of(lookup(fs@, key@)),
{
    match field(fs, key) {
        Some(JsonValue::Str(s)) => Some(s.clone()),
        _ => None,
    }
}

fn fixed_field(fs: &Vec<(String, JsonValue)>, key: &str) -> (r: Option<i64>)
    ensures
        r == fixed_of(lookup(fs@, key@)),
{
    match field(fs, key) {
        Some(JsonValue::Decimal(x)) => Some(*x),
        Some(JsonValue::Int(i)) => {
            let x: i128 = *i as i128 * SCALE as i128;
            if i64::MIN as i128 <= x && x <= i64::MAX as i128 {
                Some(x as i64)
            } else {
                None
            }
        },
        _ => None,
    }
}

fn count_field(fs: &Vec<(String, JsonValue)>, key: &str) -> (r: Option<u32>)
    ensures
        r == count_of(lookup(fs@, key@)),
{
    match field(fs, key) {
        Some(JsonValue::Int(i)) => if 0 <= *i && *i <= u32::MAX as i64 {
            Some(*i as u32)
        } else {
            None
        },
        _ => None,
    }
}

fn side_field(fs: &Vec<(String, JsonValue)>, key: &str) -> (r: Option<TradeSide>)
    ensures
        r == side_of(lookup(fs@, key@)),
{
    match text_field(fs, key) {
        Some(s) => if s == "Buy".to_owned() {
            Some(TradeSide::Buy)
        } else if s == "Sell".to_owned() {
            Some(TradeSide::Sell)
        } else {
            None
        },
        None => None,
    }
}

fn time_field(fs: &Vec<(String, JsonValue)>, key: &str) -> (r: Option<i64>)
    ensures
        r == time_of(lookup(fs@, key@)),
{
    match text_field(fs, key) {
        Some(s) => parse_timestamp(s.as_str()),
        None => None,
    }
}

fn decode_level(v: &JsonValue) -> (r: Option<PriceLevel>)
    ensures
        r == level_of(*v),
{
    match v {
        JsonValue::Object(fs) => {
            let price = fixed_field(fs, "price");
            let size = fixed_field(fs, "size");
            let num_orders = count_field(fs, "num_orders");
            match (price, size, num_orders) {
                (Some(price), Some(size), Some(num_orders)) => Some(PriceLevel { price, size, num_orders }),
                _ => None,
            }
        },
        _ => None,
    }
}

fn levels_field(fs: &Vec<(String, JsonValue)>, key: &str) -> (r: Option<Vec<PriceLevel>>)
    ensures
        match r {
            Some(ls) => levels_of(lookup(fs@, key@)) == Some(ls@),
            None => levels_of(lookup(fs@, key@)) is None,
        },
{
    match field(fs, key) {
        Some(JsonValue::Array(items)) => {
            let mut out: Vec<PriceLevel> = Vec::new();
            let mut i: usize = 0;
            while i < items.len()
                invariant
                    i <= items@.len(),
                    levels_seq(items@.subrange(0, i as int)) == Some(out@),
                    levels_of(lookup(fs@, key@)) == levels_seq(items@),
                decreases items.len() - i,
            {
                assert(items@.subrange(0, i as int + 1).drop_last() =~= items@.subrange(0, i as int));
                assert(items@.subrange(0, i as int + 1).last() == items@[i as int]);
                match decode_level(&items[i]) {
                    Some(l) => out.push(l),
                    None => {
                        proof {
                            lemma_levels_prefix_fails(items@, i as int + 1);
                            assert(levels_of(lookup(fs@, key@)) is None);
                        }
                        return None;
                    },
                }
                i = i + 1;
            }
            assert(items@.subrange(0, i as int) =~= items@);
            Some(out)
        },
        _ => None,
    }
}

/// A list with a bad item among its first `n` is not a list of levels.
proof fn lemma_levels_prefix_fails(items: Seq<JsonValue>, n: int)
    requires
        0 < n <= items.len(),
        levels_seq(items.subrange(0, n)) is None,
    ensures
        levels_seq(items) is None,
    decreases items.len() - n,
{
    if n < items.len() {
        assert(items.subrange(0, n + 1).drop_last() =~= items.subrange(0, n));
        lemma_levels_prefix_fails(items, n + 1);
    } else {
        assert(items.subrange(0, n) =~= items);
    }
}

/// Decodes one message from a JSON document.
pub fn decode(j: &JsonValue) -> (r: Result<MarketDataMessage, DecodeError>)
    ensures
        match r {
            Ok(m) => decoded(*j) == Ok::<MessageView, DecodeError>(m@),
            Err(e) => decoded(*j) == Err::<MessageView, DecodeError>(e),
        },
{
    let fs = match j {
        JsonValue::Object(fs) => fs,
        _ => return Err(DecodeError::NotAnObject),
    };
    let tag = match field(fs, "type") {
        Some(JsonValue::Str(t)) => t,
        _ => return Err(DecodeError::MissingType),
    };
    if *tag == "Trade".to_owned() {
        let symbol = text_field(fs, "symbol");
        let price = fixed_field(fs, "price");
        let quantity = fixed_field(fs, "quantity");
        let side = side_field(fs, "side");
        let timestamp = time_field(fs, "timestamp");
        let trade_id = text_field(fs, "trade_id");
        match (symbol, price, quantity, side, timestamp, trade_id) {
            (Some(symbol), Some(price), Some(quantity), Some(side), Some(timestamp), Some(trade_id)) => Ok(
                MarketDataMessage::Trade(Trade { symbol, price, quantity, side, timestamp, trade_id }),
            ),
            _ => Err(DecodeError::BadField),
        }
    } else if *tag == "Quote".to_owned() {
        let symbol = text_field(fs, "symbol");
        let bid_price = fixed_field(fs, "bid_price");
        let bid_size = fixed_field(fs, "bid_size");
        let ask_price = fixed_field(fs, "ask_price");
        let ask_size = fixed_field(fs, "ask_size");
        let timestamp = time_field(fs, "timestamp");
        match (symbol, bid_price, bid_size, ask_price, ask_size, timestamp) {
            (Some(symbol), Some(bid_price), Some(bid_size), Some(ask_price), Some(ask_size), Some(timestamp)) => Ok(
                MarketDataMessage::Quote(Quote { symbol, bid_price, bid_size, ask_price, ask_size, timestamp }),
            ),
            _ => Err(DecodeError::BadField),
        }
    } else if *tag == "OrderBook".to_owned() {
        let symbol = text_field(fs, "symbol");
        let bids = levels_field(fs, "bids");
        let asks = levels_field(fs, "asks");
        let timestamp = time_field(fs, "timestamp");
        match (symbol, bids, asks, timestamp) {
            (Some(symbol), Some(bids), Some(asks), Some(timestamp)) => Ok(
                MarketDataMessage::OrderBook(OrderBookSnapshot { symbol, bids, asks, timestamp }),
            ),
            _ => Err(DecodeError::BadField),
        }
    } else if *tag == "Heartbeat".to_owned() {
        Ok(MarketDataMessage::Heartbeat)
    } else {
        Err(DecodeError::UnknownType(tag.clone()))
    }
}

} // verus!

verus! {

/// The instant a message carries, if any.
pub open spec fn timestamp_of(m: MessageView) -> Option<i64> {
    match m {
        MessageView::Trade(t) => Some(t.timestamp),
        MessageView::Quote(q) => Some(q.timestamp),
        MessageView::OrderBook(b) => Some(b.timestamp),
        MessageView::Heartbeat => None,
    }
}

/// Whether the message's instant reads back from its RFC 3339 text as the
/// same instant.
pub open spec fn time_round_trips(m: MessageView) -> bool {
    match timestamp_of(m) {
        Some(t) => rfc3339_nanos(rfc3339_text(t)) == Some(t),
        None => true,
    }
}

/// The wire name of a message's kind.
pub open spec fn kind_name(m: MessageView) -> Seq<char> {
    match m {
        MessageView::Trade(_) => "Trade"@,
        MessageView::Quote(_) => "Quote"@,
        MessageView::OrderBook(_) => "OrderBook"@,
        MessageView::Heartbeat => "Heartbeat"@,
    }
}

/// The first field named `key` is the one at `i`.
proof fn lemma_lookup_at(fs: Seq<(String, JsonValue)>, key: Seq<char>, i: int)
    requires
        0 <= i < fs.len(),
        fs[i].0@ == key,
        forall|j: int| 0 <= j < i ==> (#[trigger] fs[j]).0@ != key,
    ensures
        lookup(fs, key) == Some(fs[i].1),
    decreases i,
{
    if i > 0 {
        assert(fs[0].0@ != key);
        let rest = fs.drop_first();
        assert forall|j: int| 0 <= j < i - 1 implies (#[trigger] rest[j]).0@ != key by {
            assert(rest[j] == fs[j + 1]);
        }
        lemma_lookup_at(rest, key, i - 1);
    }
}

/// The field names, kind names and side names of the wire format differ
/// from one another.
proof fn lemma_wire_names_differ()
    ensures
        "type"@ != "symbol"@,
        "type"@ != "price"@,
        "type"@ != "quantity"@,
        "type"@ != "side"@,
        "type"@ != "timestamp"@,
        "type"@ != "trade_id"@,
        "type"@ != "bid_price"@,
        "type"@ != "bid_size"@,
        "type"@ != "ask_price"@,
        "type"@ != "ask_size"@,
        "type"@ != "bids"@,
        "type"@ != "asks"@,
        "type"@ != "size"@,
        "type"@ != "num_orders"@,
        "symbol"@ != "price"@,
        "symbol"@ != "quantity"@,
        "symbol"@ != "side"@,
        "symbol"@ != "timestamp"@,
        "symbol"@ != "trade_id"@,
        "symbol"@ != "bid_price"@,
        "symbol"@ != "bid_size"@,
        "symbol"@ != "ask_price"@,
        "symbol"@ != "ask_size"@,
        "symbol"@ != "bids"@,
        "symbol"@ != "asks"@,
        "symbol"@ != "size"@,
        "symbol"@ != "num_orders"@,
        "price"@ != "quantity"@,
        "price"@ != "side"@,
        "price"@ != "timestamp"@,
        "price"@ != "trade_id"@,
        "price"@ != "bid_price"@,
        "price"@ != "bid_size"@,
        "price"@ != "ask_price"@,
        "price"@ != "ask_size"@,
        "price"@ != "bids"@,
        "price"@ != "asks"@,
        "price"@ != "size"@,
        "price"@ != "num_orders"@,
        "quantity"@ != "side"@,
        "quantity"@ != "timestamp"@,
        "quantity"@ != "trade_id"@,
        "quantity"@ != "bid_price"@,
        "quantity"@ != "bid_size"@,
        "quantity"@ != "ask_price"@,
        "quantity"@ != "ask_size"@,
        "quantity"@ != "bids"@,
        "quantity"@ != "asks"@,
        "quantity"@ != "size"@,
        "quantity"@ != "num_orders"@,
        "side"@ != "timestamp"@,
        "side"@ != "trade_id"@,
        "side"@ != "bid_price"@,
        "side"@ != "bid_size"@,
        "side"@ != "ask_price"@,
        "side"@ != "ask_size"@,
        "side"@ != "bids"@,
        "side"@ != "asks"@,
        "side"@ != "size"@,
        "side"@ != "num_orders"@,
        "timestamp"@ != "trade_id"@,
        "timestamp"@ != "bid_price"@,
        "timestamp"@ != "bid_size"@,
        "timestamp"@ != "ask_price"@,
        "timestamp"@ != "ask_size"@,
        "timestamp"@ != "bids"@,
        "timestamp"@ != "asks"@,
        "timestamp"@ != "size"@,
        "timestamp"@ != "num_orders"@,
        "trade_id"@ != "bid_price"@,
        "trade_id"@ != "bid_size"@,
        "trade_id"@ != "ask_price"@,
        "trade_id"@ != "ask_size"@,
        "trade_id"@ != "bids"@,
        "trade_id"@ != "asks"@,
        "trade_id"@ != "size"@,
        "trade_id"@ != "num_orders"@,
        "bid_price"@ != "bid_size"@,
        "bid_price"@ != "ask_price"@,
        "bid_price"@ != "ask_size"@,
        "bid_price"@ != "bids"@,
        "bid_price"@ != "asks"@,
        "bid_price"@ != "size"@,
        "bid_price"@ != "num_orders"@,
        "bid_size"@ != "ask_price"@,
        "bid_size"@ != "ask_size"@,
        "bid_size"@ != "bids"@,
        "bid_size"@ != "asks"@,
        "bid_size"@ != "size"@,
        "bid_size"@ != "num_orders"@,
        "ask_price"@ != "ask_size"@,
        "ask_price"@ != "bids"@,
        "ask_price"@ != "asks"@,
        "ask_price"@ != "size"@,
        "ask_price"@ != "num_orders"@,
        "ask_size"@ != "bids"@,
        "ask_size"@ != "asks"@,
        "ask_size"@ != "size"@,
        "ask_size"@ != "num_orders"@,
        "bids"@ != "asks"@,
        "bids"@ != "size"@,
        "bids"@ != "num_orders"@,
        "asks"@ != "size"@,
        "asks"@ != "num_orders"@,
        "size"@ != "num_orders"@,
        "Trade"@ != "Quote"@,
        "Trade"@ != "OrderBook"@,
        "Trade"@ != "Heartbeat"@,
        "Quote"@ != "OrderBook"@,
        "Quote"@ != "Heartbeat"@,
        "OrderBook"@ != "Heartbeat"@,
        "Buy"@ != "Sell"@,
{
    reveal_strlit("type");
    reveal_strlit("symbol");
    reveal_strlit("price");
    reveal_strlit("quantity");
    reveal_strlit("side");
    reveal_strlit("timestamp");
    reveal_strlit("trade_id");
    reveal_strlit("bid_price");
    reveal_strlit("bid_size");
    reveal_strlit("ask_price");
    reveal_strlit("ask_size");
    reveal_strlit("bids");
    reveal_strlit("asks");
    reveal_strlit("size");
    reveal_strlit("num_orders");
    reveal_strlit("Trade");
    reveal_strlit("Quote");
    reveal_strlit("OrderBook");
    reveal_strlit("Heartbeat");
    reveal_strlit("Buy");
    reveal_strlit("Sell");
    assert("type"@.len() != "symbol"@.len());
    assert("type"@.len() != "price"@.len());
    assert("type"@.len() != "quantity"@.len());
    assert("type"@[0] != "side"@[0]);
    assert("type"@.len() != "timestamp"@.len());
    assert("type"@.len() != "trade_id"@.len());
    assert("type"@.len() != "bid_price"@.len());
    assert("type"@.len() != "bid_size"@.len());
    assert("type"@.len() != "ask_price"@.len());
    assert("type"@.len() != "ask_size"@.len());
    assert("type"@[0] != "bids"@[0]);
    assert("type"@[0] != "asks"@[0]);
    assert("type"@[0] != "size"@[0]);
    assert("type"@.len() != "num_orders"@.len());
    assert("symbol"@.len() != "price"@.len());
    assert("symbol"@.len() != "quantity"@.len());
    assert("symbol"@.len() != "side"@.len());
    assert("symbol"@.len() != "timestamp"@.len());
    assert("symbol"@.len() != "trade_id"@.len());
    assert("symbol"@.len() != "bid_price"@.len());
    assert("symbol"@.len() != "bid_size"@.len());
    assert("symbol"@.len() != "ask_price"@.len());
    assert("symbol"@.len() != "ask_size"@.len());
    assert("symbol"@.len() != "bids"@.len());
    assert("symbol"@.len() != "asks"@.len());
    assert("symbol"@.len() != "size"@.len());
    assert("symbol"@.len() != "num_orders"@.len());
    assert("price"@.len() != "quantity"@.len());
    assert("price"@.len() != "side"@.len());
    assert("price"@.len() != "timestamp"@.len());
    assert("price"@.len() != "trade_id"@.len());
    assert("price"@.len() != "bid_price"@.len());
    assert("price"@.len() != "bid_size"@.len());
    assert("price"@.len() != "ask_price"@.len());
    assert("price"@.len() != "ask_size"@.len());
    assert("price"@.len() != "bids"@.len());
    assert("price"@.len() != "asks"@.len());
    assert("price"@.len() != "size"@.len());
    assert("price"@.len() != "num_orders"@.len());
    assert("quantity"@.len() != "side"@.len());
    assert("quantity"@.len() != "timestamp"@.len());
    assert("quantity"@[0] != "trade_id"@[0]);
    assert("quantity"@.len() != "bid_price"@.len());
    assert("quantity"@[0] != "bid_size"@[0]);
    assert("quantity"@.len() != "ask_price"@.len());
    assert("quantity"@[0] != "ask_size"@[0]);
    assert("quantity"@.len() != "bids"@.len());
    assert("quantity"@.len() != "asks"@.len());
    assert("quantity"@.len() != "size"@.len());
    assert("quantity"@.len() != "num_orders"@.len());
    assert("side"@.len() != "timestamp"@.len());
    assert("side"@.len() != "trade_id"@.len());
    assert("side"@.len() != "bid_price"@.len());
    assert("side"@.len() != "bid_size"@.len());
    assert("side"@.len() != "ask_price"@.len());
    assert("side"@.len() != "ask_size"@.len());
    assert("side"@[0] != "bids"@[0]);
    assert("side"@[0] != "asks"@[0]);
    assert("side"@[2] != "size"@[2]);
    assert("side"@.len() != "num_orders"@.len());
    assert("timestamp"@.len() != "trade_id"@.len());
    assert("timestamp"@[0] != "bid_price"@[0]);
    assert("timestamp"@.len() != "bid_size"@.len());
    assert("timestamp"@[0] != "ask_price"@[0]);
    assert("timestamp"@.len() != "ask_size"@.len());
    assert("timestamp"@.len() != "bids"@.len());
    assert("timestamp"@.len() != "asks"@.len());
    assert("timestamp"@.len() != "size"@.len());
    assert("timestamp"@.len() != "num_orders"@.len());
    assert("trade_id"@.len() != "bid_price"@.len());
    assert("trade_id"@[0] != "bid_size"@[0]);
    assert("trade_id"@.len() != "ask_price"@.len());
    assert("trade_id"@[0] != "ask_size"@[0]);
    assert("trade_id"@.len() != "bids"@.len());
    assert("trade_id"@.len() != "asks"@.len());
    assert("trade_id"@.len() != "size"@.len());
    assert("trade_id"@.len() != "num_orders"@.len());
    assert("bid_price"@.len() != "bid_size"@.len());
    assert("bid_price"@[0] != "ask_price"@[0]);
    assert("bid_price"@.len() != "ask_size"@.len());
    assert("bid_price"@.len() != "bids"@.len());
    assert("bid_price"@.len() != "asks"@.len());
    assert("bid_price"@.len() != "size"@.len());
    assert("bid_price"@.len() != "num_orders"@.len());
    assert("bid_size"@.len() != "ask_price"@.len());
    assert("bid_size"@[0] != "ask_size"@[0]);
    assert("bid_size"@.len() != "bids"@.len());
    assert("bid_size"@.len() != "asks"@.len());
    assert("bid_size"@.len() != "size"@.len());
    assert("bid_size"@.len() != "num_orders"@.len());
    assert("ask_price"@.len() != "ask_size"@.len());
    assert("ask_price"@.len() != "bids"@.len());
    assert("ask_price"@.len() != "asks"@.len());
    assert("ask_price"@.len() != "size"@.len());
    assert("ask_price"@.len() != "num_orders"@.len());
    assert("ask_size"@.len() != "bids"@.len());
    assert("ask_size"@.len() != "asks"@.len());
    assert("ask_size"@.len() != "size"@.len());
    assert("ask_size"@.len() != "num_orders"@.len());
    assert("bids"@[0] != "asks"@[0]);
    assert("bids"@[0] != "size"@[0]);
    assert("bids"@.len() != "num_orders"@.len());
    assert("asks"@[0] != "size"@[0]);
    assert("asks"@.len() != "num_orders"@.len());
    assert("size"@.len() != "num_orders"@.len());
    assert("Trade"@[0] != "Quote"@[0]);
    assert("Trade"@.len() != "OrderBook"@.len());
    assert("Trade"@.len() != "Heartbeat"@.len());
    assert("Quote"@.len() != "OrderBook"@.len());
    assert("Quote"@.len() != "Heartbeat"@.len());
    assert("OrderBook"@[0] != "Heartbeat"@[0]);
    assert("Buy"@.len() != "Sell"@.len());
}

fn entry(key: &str, v: JsonValue) -> (r: (String, JsonValue))
    ensures
        r.0@ == key@,
        r.1 == v,
{
    (key.to_owned(), v)
}

fn text(s: &str) -> (r: JsonValue)
    ensures
        r matches JsonValue::Str(t) && t@ == s@,
{
    JsonValue::Str(s.to_owned())
}

fn encode_level(l: &PriceLevel) -> (r: JsonValue)
    ensures
        level_of(r) == Some(*l),
{
    let mut fs: Vec<(String, JsonValue)> = Vec::new();
    fs.push(entry("price", JsonValue::Decimal(l.price)));
    fs.push(entry("size", JsonValue::Decimal(l.size)));
    fs.push(entry("num_orders", JsonValue::Int(l.num_orders as i64)));
    proof {
        reveal_strlit("price");
        reveal_strlit("size");
        reveal_strlit("num_orders");
        lemma_wire_names_differ();
        lemma_lookup_at(fs@, "price"@, 0);
        lemma_lookup_at(fs@, "size"@, 1);
        lemma_lookup_at(fs@, "num_orders"@, 2);
    }
    JsonValue::Object(fs)
}

fn encode_levels(levels: &Vec<PriceLevel>) -> (r: JsonValue)
    ensures
        levels_of(Some(r)) == Some(levels@),
{
    let mut items: Vec<JsonValue> = Vec::new();
    let mut i: usize = 0;
    while i < levels.len()
        invariant
            i <= levels@.len(),
            levels_seq(items@) == Some(levels@.subrange(0, i as int)),
        decreases levels.len() - i,
    {
        let item = encode_level(&levels[i]);
        let ghost before = items@;
        items.push(item);
        assert(items@.drop_last() =~= before);
        assert(levels@.subrange(0, i as int + 1) =~= levels@.subrange(0, i as int).push(levels@[i as int]));
        i = i + 1;
    }
    assert(levels@.subrange(0, i as int) =~= levels@);
    JsonValue::Array(items)
}

/// The fields that the encoding of `m` carries: each field of the message
/// under its own name, the instant as its RFC 3339 text.
pub open spec fn carries(m: MessageView, fs: Seq<(String, JsonValue)>) -> bool {
    match m {
        MessageView::Trade(t) => {
            &&& text_of(lookup(fs, "symbol"@)) == Some(t.symbol)
            &&& lookup(fs, "price"@) == Some(JsonValue::Decimal(t.price))
            &&& lookup(fs, "quantity"@) == Some(JsonValue::Decimal(t.quantity))
            &&& side_of(lookup(fs, "side"@)) == Some(t.side)
            &&& text_of(lookup(fs, "timestamp"@)) matches Some(x) && x@ == rfc3339_text(t.timestamp)
            &&& text_of(lookup(fs, "trade_id"@)) == Some(t.trade_id)
        },
        MessageView::Quote(q) => {
            &&& text_of(lookup(fs, "symbol"@)) == Some(q.symbol)
            &&& lookup(fs, "bid_price"@) == Some(JsonValue::Decimal(q.bid_price))
            &&& lookup(fs, "bid_size"@) == Some(JsonValue::Decimal(q.bid_size))
            &&& lookup(fs, "ask_price"@) == Some(JsonValue::Decimal(q.ask_price))
            &&& lookup(fs, "ask_size"@) == Some(JsonValue::Decimal(q.ask_size))
            &&& text_of(lookup(fs, "timestamp"@)) matches Some(x) && x@ == rfc3339_text(q.timestamp)
        },
        MessageView::OrderBook(b) => {
            &&& text_of(lookup(fs, "symbol"@)) matches Some(x) && x@ == b.symbol
            &&& levels_of(lookup(fs, "bids"@)) == Some(b.bids)
            &&& levels_of(lookup(fs, "asks"@)) == Some(b.asks)
            &&& text_of(lookup(fs, "timestamp"@)) matches Some(x) && x@ == rfc3339_text(b.timestamp)
        },
        MessageView::Heartbeat => true,
    }
}

/// Encodes a message as a JSON document: an object whose `type` field names
/// the kind, followed by the kind's fields. Decoding the document gives the
/// message back whenever its instant survives the RFC 3339 text.
pub fn encode(m: &MarketDataMessage) -> (r: JsonValue)
    ensures
        r matches JsonValue::Object(fs) && text_of(lookup(fs@, "type"@)) matches Some(t) && t@ == kind_name(
            m@,
        ),
        r matches JsonValue::Object(fs) && carries(m@, fs@),
        time_round_trips(m@) ==> decoded(r) == Ok::<MessageView, DecodeError>(m@),
{
    let mut fs: Vec<(String, JsonValue)> = Vec::new();
    match m {
        MarketDataMessage::Trade(t) => {
            fs.push(entry("type", text("Trade")));
            fs.push(entry("symbol", JsonValue::Str(t.symbol.clone())));
            fs.push(entry("price", JsonValue::Decimal(t.price)));
            fs.push(entry("quantity", JsonValue::Decimal(t.quantity)));
            let side = match t.side {
                TradeSide::Buy => text("Buy"),
                TradeSide::Sell => text("Sell"),
            };
            fs.push(entry("side", side));
            fs.push(entry("timestamp", JsonValue::Str(format_timestamp(t.timestamp))));
            fs.push(entry("trade_id", JsonValue::Str(t.trade_id.clone())));

            proof {
                lemma_wire_names_differ();
                lemma_lookup_at(fs@, "type"@, 0);
                lemma_lookup_at(fs@, "symbol"@, 1);
                lemma_lookup_at(fs@, "price"@, 2);
                lemma_lookup_at(fs@, "quantity"@, 3);
                lemma_lookup_at(fs@, "side"@, 4);
                lemma_lookup_at(fs@, "timestamp"@, 5);
                lemma_lookup_at(fs@, "trade_id"@, 6);
            }
        },
        MarketDataMessage::Quote(q) => {
            fs.push(entry("type", text("Quote")));
            fs.push(entry("symbol", JsonValue::Str(q.symbol.clone())));
            fs.push(entry("bid_price", JsonValue::Decimal(q.bid_price)));
            fs.push(entry("bid_size", JsonValue::Decimal(q.bid_size)));
            fs.push(entry("ask_price", JsonValue::Decimal(q.ask_price)));
            fs.push(entry("ask_size", JsonValue::Decimal(q.ask_size)));
            fs.push(entry("timestamp", JsonValue::Str(format_timestamp(q.timestamp))));

            proof {
                lemma_wire_names_differ();
                lemma_lookup_at(fs@, "type"@, 0);
                lemma_lookup_at(fs@, "symbol"@, 1);
                lemma_lookup_at(fs@, "bid_price"@, 2);
                lemma_lookup_at(fs@, "bid_size"@, 3);
                lemma_lookup_at(fs@, "ask_price"@, 4);
                lemma_lookup_at(fs@, "ask_size"@, 5);
                lemma_lookup_at(fs@, "timestamp"@, 6);
            }
        },
        MarketDataMessage::OrderBook(b) => {
            fs.push(entry("type", text("OrderBook")));
            fs.push(entry("symbol", JsonValue::Str(b.symbol.clone())));
            fs.push(entry("bids", encode_levels(&b.bids)));
            fs.push(entry("asks", encode_levels(&b.asks)));
            fs.push(entry("timestamp", JsonValue::Str(format_timestamp(b.timestamp))));

            proof {
                lemma_wire_names_differ();
                lemma_lookup_at(fs@, "type"@, 0);
                lemma_lookup_at(fs@, "symbol"@, 1);
                lemma_lookup_at(fs@, "bids"@, 2);
                lemma_lookup_at(fs@, "asks"@, 3);
                lemma_lookup_at(fs@, "timestamp"@, 4);
            }
        },
        MarketDataMessage::Heartbeat => {
            fs.push(entry("type", text("Heartbeat")));

            proof {
                lemma_wire_names_differ();
                lemma_lookup_at(fs@, "type"@, 0);
            }
        },
    }
    JsonValue::Object(fs)
}

} // verus!
