use vstd::prelude::*;

verus! {

/// Number of fixed-point units in one whole unit of price, size or quantity.
pub const SCALE: i64 = 100_000_000;

/// One decoded market event.
pub enum MarketDataMessage {
    Trade(Trade),
    Quote(Quote),
    OrderBook(OrderBookSnapshot),
    Heartbeat,
}

/// A trade tick. `timestamp` is in nanoseconds since the Unix epoch (UTC).
pub struct Trade {
    pub symbol: String,
    pub price: i64,
    pub quantity: i64,
    pub side: TradeSide,
    pub timestamp: i64,
    pub trade_id: String,
}

#[derive(Clone, Copy, Debug, PartialEq, Eq, Structural)]
pub enum TradeSide {
    Buy,
    Sell,
}

/// Best bid and offer. Nothing forces `ask_price >= bid_price`.
pub struct Quote {
    pub symbol: String,
    pub bid_price: i64,
    pub bid_size: i64,
    pub ask_price: i64,
    pub ask_size: i64,
    pub timestamp: i64,
}

/// The value halfway between two prices, rounded down.
pub open spec fn midpoint(a: int, b: int) -> int {
    (a + b) / 2
}

/// `(a + b) / 2` rounded towards negative infinity, without overflow.
fn floor_half_sum(a: i64, b: i64) -> (r: i64)
    ensures
        r == midpoint(a as int, b as int),
{
    let s: i128 = a as i128 + b as i128;
    if s >= 0 {
        (s / 2) as i64
    } else {
        let n: i128 = -s;
        (-((n + 1) / 2)) as i64
    }
}

impl Quote {
    pub fn spread(&self) -> (r: i128)
        ensures
            r == self.ask_price - self.bid_price,
    {
        self.ask_price as i128 - self.bid_price as i128
    }

    pub fn mid_price(&self) -> (r: i64)
        ensures
            r == midpoint(self.bid_price as int, self.ask_price as int),
    {
        floor_half_sum(self.bid_price, self.ask_price)
    }
}

/// One level of an order book.
#[derive(Clone, Copy, Debug, PartialEq, Eq, Structural)]
pub struct PriceLevel {
    pub price: i64,
    pub size: i64,
    pub num_orders: u32,
}

/// Full order book. The best level of each side comes first; the producer
/// keeps that order and nothing here sorts.
pub struct OrderBookSnapshot {
    pub symbol: String,
    pub bids: Vec<PriceLevel>,
    pub asks: Vec<PriceLevel>,
    pub timestamp: i64,
}

/// Sum of the sizes of `levels`.
pub open spec fn size_sum(levels: Seq<PriceLevel>) -> int
    decreases levels.len(),
{
    if levels.len() == 0 {
        0
    } else {
        size_sum(levels.drop_last()) + levels.last().size
    }
}

proof fn lemma_size_sum_bounds(levels: Seq<PriceLevel>)
    ensures
        levels.len() * i64::MIN <= size_sum(levels) <= levels.len() * i64::MAX,
    decreases levels.len(),
{
    if levels.len() > 0 {
        lemma_size_sum_bounds(levels.drop_last());
    }
}

fn total_size(levels: &Vec<PriceLevel>) -> (r: i128)
    ensures
        r == size_sum(levels@),
{
    let mut total: i128 = 0;
    let mut i: usize = 0;
    while i < levels.len()
        invariant
            i <= levels@.len(),
            total == size_sum(levels@.subrange(0, i as int)),
        decreases levels.len() - i,
    {
        proof {
            lemma_size_sum_bounds(levels@.subrange(0, i as int));
            assert(levels@.subrange(0, i as int + 1).drop_last() =~= levels@.subrange(0, i as int));
        }
        total = total + levels[i].size as i128;
        i = i + 1;
    }
    assert(levels@.subrange(0, i as int) =~= levels@);
    total
}

impl OrderBookSnapshot {
    pub fn best_bid(&self) -> (r: Option<&PriceLevel>)
        ensures
            r == (if self.bids@.len() > 0 { Some(&self.bids@[0]) } else { None }),
    {
        self.bids.first()
    }

    pub fn best_ask(&self) -> (r: Option<&PriceLevel>)
        ensures
            r == (if self.asks@.len() > 0 { Some(&self.asks@[0]) } else { None }),
    {
        self.asks.first()
    }

    pub fn spread(&self) -> (r: Option<i128>)
        ensures
            r == (if self.bids@.len() > 0 && self.asks@.len() > 0 {
                Some((self.asks@[0].price - self.bids@[0].price) as i128)
            } else {
                None
            }),
    {
        match (self.best_bid(), self.best_ask()) {
            (Some(bid), Some(ask)) => Some(ask.price as i128 - bid.price as i128),
            _ => None,
        }
    }

    pub fn mid_price(&self) -> (r: Option<i64>)
        ensures
            r == (if self.bids@.len() > 0 && self.asks@.len() > 0 {
                Some(midpoint(self.bids@[0].price as int, self.asks@[0].price as int) as i64)
            } else {
                None
            }),
    {
        match (self.best_bid(), self.best_ask()) {
            (Some(bid), Some(ask)) => Some(floor_half_sum(bid.price, ask.price)),
            _ => None,
        }
    }

    pub fn total_bid_volume(&self) -> (r: i128)
        ensures
            r == size_sum(self.bids@),
    {
        total_size(&self.bids)
    }

    pub fn total_ask_volume(&self) -> (r: i128)
        ensures
            r == size_sum(self.asks@),
    {
        total_size(&self.asks)
    }
}

} // verus!

verus! {

fn copy_levels(levels: &Vec<PriceLevel>) -> (r: Vec<PriceLevel>)
    ensures
        r@ == levels@,
{
    let mut out: Vec<PriceLevel> = Vec::new();
    let mut i: usize = 0;
    while i < levels.len()
        invariant
            i <= levels@.len(),
            out@ == levels@.subrange(0, i as int),
        decreases levels.len() - i,
    {
        out.push(levels[i]);
        i = i + 1;
    }
    assert(levels@.subrange(0, i as int) =~= levels@);
    out
}

impl Trade {
    /// A copy with the same fields.
    pub fn duplicate(&self) -> (r: Self)
        ensures
            r == *self,
    {
        Trade {
            symbol: self.symbol.clone(),
            price: self.price,
            quantity: self.quantity,
            side: self.side,
            timestamp: self.timestamp,
            trade_id: self.trade_id.clone(),
        }
    }
}

impl Quote {
    /// A copy with the same fields.
    pub fn duplicate(&self) -> (r: Self)
        ensures
            r == *self,
    {
        Quote {
            symbol: self.symbol.clone(),
            bid_price: self.bid_price,
            bid_size: self.bid_size,
            ask_price: self.ask_price,
            ask_size: self.ask_size,
            timestamp: self.timestamp,
        }
    }
}

impl OrderBookSnapshot {
    /// A copy with the same contents.
    pub fn duplicate(&self) -> (r: Self)
        ensures
            r@ == self@,
    {
        let bids = copy_levels(&self.bids);
        let asks = copy_levels(&self.asks);
        let r = OrderBookSnapshot {
            symbol: self.symbol.clone(),
            bids,
            asks,
            timestamp: self.timestamp,
        };
        r
    }
}

/// What an order book holds, with its level lists as sequences.
pub struct BookView {
    pub symbol: Seq<char>,
    pub bids: Seq<PriceLevel>,
    pub asks: Seq<PriceLevel>,
    pub timestamp: i64,
}

/// What a message holds.
pub enum MessageView {
    Trade(Trade),
    Quote(Quote),
    OrderBook(BookView),
    Heartbeat,
}

impl View for OrderBookSnapshot {
    type V = BookView;

    open spec fn view(&self) -> BookView {
        BookView { symbol: self.symbol@, bids: self.bids@, asks: self.asks@, timestamp: self.timestamp }
    }
}

impl View for MarketDataMessage {
    type V = MessageView;

    open spec fn view(&self) -> MessageView {
        match self {
            MarketDataMessage::Trade(t) => MessageView::Trade(*t),
            MarketDataMessage::Quote(q) => MessageView::Quote(*q),
            MarketDataMessage::OrderBook(b) => MessageView::OrderBook(b@),
            MarketDataMessage::Heartbeat => MessageView::Heartbeat,
        }
    }
}

impl MarketDataMessage {
    /// A copy with the same contents.
    pub fn duplicate(&self) -> (r: Self)
        ensures
            r@ == self@,
    {
        match self {
            MarketDataMessage::Trade(t) => MarketDataMessage::Trade(t.duplicate()),
            MarketDataMessage::Quote(q) => MarketDataMessage::Quote(q.duplicate()),
            MarketDataMessage::OrderBook(b) => MarketDataMessage::OrderBook(b.duplicate()),
            MarketDataMessage::Heartbeat => MarketDataMessage::Heartbeat,
        }
    }
}

} // verus!
