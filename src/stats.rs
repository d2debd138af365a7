use vstd::prelude::*;
use crate::types::Trade;
use vstd::seq_lib::*;

verus! {

/// Cumulative statistics of one symbol over a session.
///
/// `total_volume` is in fixed-point units; `notional` is the sum of
/// `price * quantity`, in units of `10^-16`. `high` and `low` stay `None`
/// until the first trade.
pub struct MarketStats {
    pub symbol: String,
    pub trade_count: u64,
    pub total_volume: u128,
    pub notional: u128,
    pub vwap: i64,
    pub high: Option<i64>,
    pub low: Option<i64>,
    pub last_price: i64,
    pub last_update: Option<i64>,
}

pub open spec fn max_with(cur: Option<i64>, p: i64) -> i64 {
    match cur {
        Some(h) => if p > h { p } else { h },
        None => p,
    }
}

pub open spec fn min_with(cur: Option<i64>, p: i64) -> i64 {
    match cur {
        Some(l) => if p < l { p } else { l },
        None => p,
    }
}

/// Whether `t` lies in the data model's range: a positive price and quantity.
pub open spec fn in_range(t: Trade) -> bool {
    t.price > 0 && t.quantity > 0
}

/// The statistics after one more trade.
pub open spec fn applied(s: MarketStats, t: Trade) -> MarketStats {
    let volume = s.total_volume + t.quantity;
    let notional = s.notional + t.price * t.quantity;
    MarketStats {
        symbol: s.symbol,
        trade_count: (s.trade_count + 1) as u64,
        total_volume: volume as u128,
        notional: notional as u128,
        vwap: (notional / volume) as i64,
        high: Some(max_with(s.high, t.price)),
        low: Some(min_with(s.low, t.price)),
        last_price: t.price,
        last_update: Some(t.timestamp),
    }
}

/// The empty record of a symbol that has had no trade.
pub open spec fn empty_stats(symbol: String) -> MarketStats {
    MarketStats {
        symbol,
        trade_count: 0,
        total_volume: 0,
        notional: 0,
        vwap: 0,
        high: None,
        low: None,
        last_price: 0,
        last_update: None,
    }
}

/// The statistics of `symbol` after `trades`, applied in order.
pub open spec fn replay(symbol: String, trades: Seq<Trade>) -> MarketStats
    decreases trades.len(),
{
    if trades.len() == 0 {
        empty_stats(symbol)
    } else {
        applied(replay(symbol, trades.drop_last()), trades.last())
    }
}

/// One trade keeps the record well formed.
proof fn lemma_applied_wf(s: MarketStats, t: Trade)
    requires
        s.wf(),
        s.absorbs(t),
    ensures
        applied(s, t).wf(),
{
    let v0 = s.total_volume as int;
    let n0 = s.notional as int;
    let pi = t.price as int;
    let qi = t.quantity as int;
    let h = max_with(s.high, t.price) as int;
    let l = min_with(s.low, t.price) as int;
    if s.high is Some {
        assert(s.high->0 * v0 <= h * v0) by (nonlinear_arith)
            requires s.high->0 <= h, v0 >= 0;
        assert(l * v0 <= s.low->0 * v0) by (nonlinear_arith)
            requires l <= s.low->0, v0 >= 0;
    }
    assert(pi * qi <= h * qi) by (nonlinear_arith)
        requires pi <= h, qi >= 0;
    assert(l * qi <= pi * qi) by (nonlinear_arith)
        requires l <= pi, qi >= 0;
    assert(n0 + pi * qi <= h * (v0 + qi)) by (nonlinear_arith)
        requires n0 <= h * v0, pi * qi <= h * qi;
    assert(n0 + pi * qi >= l * (v0 + qi)) by (nonlinear_arith)
        requires n0 >= l * v0, l * qi <= pi * qi;
    let v = v0 + qi;
    let n = n0 + pi * qi;
    assert(n / v <= h) by (nonlinear_arith)
        requires n <= h * v, v > 0;
    assert(n / v >= 0) by (nonlinear_arith)
        requires n >= 0, v > 0;
    assert(pi * qi > 0) by (nonlinear_arith)
        requires pi > 0, qi > 0;
}

impl MarketStats {
    /// Whether the record can take `t` in without any counter overflowing.
    pub open spec fn absorbs(&self, t: Trade) -> bool {
        &&& in_range(t)
        &&& self.trade_count < u64::MAX
        &&& self.total_volume + t.quantity <= u128::MAX
        &&& self.notional + t.price * t.quantity <= u128::MAX
    }

    /// The weighted price never leaves the range of observed prices.
    pub open spec fn wf(&self) -> bool {
        &&& self.high is None <==> self.total_volume == 0
        &&& self.low is None <==> self.total_volume == 0
        &&& self.total_volume == 0 ==> self.notional == 0 && self.vwap == 0
        &&& self.high is Some ==> self.notional <= self.high->0 * self.total_volume
        &&& self.low is Some ==> self.low->0 > 0
        &&& self.low is Some ==> self.notional >= self.low->0 * self.total_volume
        &&& self.total_volume > 0 ==> self.vwap == self.notional / self.total_volume
    }

    pub fn new(symbol: String) -> (r: Self)
        ensures
            r == empty_stats(symbol),
            r.wf(),
    {
        MarketStats {
            symbol,
            trade_count: 0,
            total_volume: 0,
            notional: 0,
            vwap: 0,
            high: None,
            low: None,
            last_price: 0,
            last_update: None,
        }
    }

    /// Whether `t` can be taken in (see [`MarketStats::absorbs`]).
    pub fn can_absorb(&self, t: &Trade) -> (r: bool)
        ensures
            r == self.absorbs(*t),
    {
        if t.price <= 0 || t.quantity <= 0 || self.trade_count == u64::MAX {
            return false;
        }
        let q: u128 = t.quantity as u128;
        let p: u128 = t.price as u128;
        assert(p * q <= 0x7fff_ffff_ffff_ffff * 0x7fff_ffff_ffff_ffff) by (nonlinear_arith)
            requires p <= 0x7fff_ffff_ffff_ffff, q <= 0x7fff_ffff_ffff_ffff;
        let pq: u128 = p * q;
        q <= u128::MAX - self.total_volume && pq <= u128::MAX - self.notional
    }

    pub fn update_with_trade(&mut self, trade: &Trade)
        requires
            old(self).wf(),
            old(self).absorbs(*trade),
        ensures
            *final(self) == applied(*old(self), *trade),
            final(self).wf(),
    {
        let ghost s0 = *self;
        let q: u128 = trade.quantity as u128;
        let p: u128 = trade.price as u128;
        self.trade_count = self.trade_count + 1;
        self.total_volume = self.total_volume + q;
        self.notional = self.notional + p * q;
        let new_high: i64 = match self.high {
            Some(h) => if trade.price > h { trade.price } else { h },
            None => trade.price,
        };
        let new_low: i64 = match self.low {
            Some(l) => if trade.price < l { trade.price } else { l },
            None => trade.price,
        };
        proof {
            lemma_applied_wf(s0, *trade);
        }
        self.vwap = (self.notional / self.total_volume) as i64;
        self.high = Some(new_high);
        self.low = Some(new_low);
        self.last_price = trade.price;
        self.last_update = Some(trade.timestamp);
    }
}

} // verus!

verus! {

/// The (price, quantity) pairs of a run of trades.
pub open spec fn price_qty(trades: Seq<Trade>) -> Seq<(i64, i64)> {
    trades.map_values(|t: Trade| (t.price, t.quantity))
}

/// Sum of the quantities.
pub open spec fn volume_of(ps: Seq<(i64, i64)>) -> int
    decreases ps.len(),
{
    if ps.len() == 0 {
        0
    } else {
        volume_of(ps.drop_last()) + ps.last().1
    }
}

/// Sum of `price * quantity`.
pub open spec fn notional_of(ps: Seq<(i64, i64)>) -> int
    decreases ps.len(),
{
    if ps.len() == 0 {
        0
    } else {
        notional_of(ps.drop_last()) + ps.last().0 * ps.last().1
    }
}

/// A run of trades that a fresh record can take in, one after the other,
/// without a counter overflowing.
pub open spec fn replayable(trades: Seq<Trade>) -> bool {
    &&& forall|i: int| 0 <= i < trades.len() ==> in_range(#[trigger] trades[i])
    &&& trades.len() < u64::MAX
    &&& volume_of(price_qty(trades)) <= u128::MAX
    &&& notional_of(price_qty(trades)) <= u128::MAX
}

proof fn lemma_sums_positive(ps: Seq<(i64, i64)>)
    requires
        forall|i: int| 0 <= i < ps.len() ==> (#[trigger] ps[i]).0 > 0 && ps[i].1 > 0,
    ensures
        volume_of(ps) >= 0,
        notional_of(ps) >= 0,
        ps.len() > 0 ==> volume_of(ps) > 0,
    decreases ps.len(),
{
    if ps.len() > 0 {
        lemma_sums_positive(ps.drop_last());
        let x = ps.last();
        assert(x == ps[ps.len() - 1]);
        assert(x.0 * x.1 > 0) by (nonlinear_arith)
            requires x.0 > 0, x.1 > 0;
    }
}

/// After a run of trades, starting from an empty record: the count is the
/// number of trades, the volume the sum of the quantities, the notional the
/// sum of price times quantity, the VWAP their quotient, and high and low
/// the largest and the smallest price seen.
pub proof fn lemma_replay_totals(symbol: String, trades: Seq<Trade>)
    requires
        replayable(trades),
    ensures
        replay(symbol, trades).wf(),
        replay(symbol, trades).symbol == symbol,
        replay(symbol, trades).trade_count == trades.len(),
        replay(symbol, trades).total_volume == volume_of(price_qty(trades)),
        replay(symbol, trades).notional == notional_of(price_qty(trades)),
        trades.len() > 0 ==> replay(symbol, trades).vwap == notional_of(price_qty(trades))
            / volume_of(price_qty(trades)),
        trades.len() == 0 ==> replay(symbol, trades) == empty_stats(symbol),
        trades.len() > 0 ==> replay(symbol, trades).high is Some && replay(symbol, trades).low is Some,
        forall|i: int|
            0 <= i < trades.len() ==> replay(symbol, trades).low->0 <= (#[trigger] trades[i]).price
                <= replay(symbol, trades).high->0,
        trades.len() > 0 ==> exists|i: int|
            0 <= i < trades.len() && (#[trigger] trades[i]).price == replay(symbol, trades).high->0,
        trades.len() > 0 ==> exists|i: int|
            0 <= i < trades.len() && (#[trigger] trades[i]).price == replay(symbol, trades).low->0,
    decreases trades.len(),
{
    if trades.len() > 0 {
        let rest = trades.drop_last();
        let t = trades.last();
        let n = trades.len() - 1;
        assert(price_qty(rest) =~= price_qty(trades).drop_last());
        assert(price_qty(trades).last() == (t.price, t.quantity));
        assert(in_range(trades[n]));
        lemma_sums_positive(price_qty(rest));
        assert(t.price * t.quantity > 0) by (nonlinear_arith)
            requires t.price > 0, t.quantity > 0;
        assert(replayable(rest)) by {
            assert forall|i: int| 0 <= i < rest.len() implies in_range(#[trigger] rest[i]) by {
                assert(rest[i] == trades[i]);
            }
        }
        lemma_replay_totals(symbol, rest);
        let s = replay(symbol, rest);
        assert(s.absorbs(t));
        lemma_applied_wf(s, t);
        assert(forall|i: int| 0 <= i < rest.len() ==> rest[i] == trades[i]);
        assert(trades[n] == t);
        if rest.len() > 0 {
            let hi = choose|i: int| 0 <= i < rest.len() && (#[trigger] rest[i]).price == s.high->0;
            let lo = choose|i: int| 0 <= i < rest.len() && (#[trigger] rest[i]).price == s.low->0;
            if t.price > s.high->0 {
                assert(trades[n].price == replay(symbol, trades).high->0);
            } else {
                assert(trades[hi].price == replay(symbol, trades).high->0);
            }
            if t.price < s.low->0 {
                assert(trades[n].price == replay(symbol, trades).low->0);
            } else {
                assert(trades[lo].price == replay(symbol, trades).low->0);
            }
        } else {
            assert(trades[n].price == replay(symbol, trades).high->0);
            assert(trades[n].price == replay(symbol, trades).low->0);
        }
    }
}

proof fn lemma_sums_remove(ps: Seq<(i64, i64)>, j: int)
    requires
        0 <= j < ps.len(),
    ensures
        volume_of(ps) == volume_of(ps.remove(j)) + ps[j].1,
        notional_of(ps) == notional_of(ps.remove(j)) + ps[j].0 * ps[j].1,
    decreases ps.len(),
{
    if j == ps.len() - 1 {
        assert(ps.remove(j) =~= ps.drop_last());
    } else {
        let r = ps.remove(j);
        assert(r.drop_last() =~= ps.drop_last().remove(j));
        assert(r.last() == ps.last());
        lemma_sums_remove(ps.drop_last(), j);
    }
}

proof fn lemma_sums_permuted(a: Seq<(i64, i64)>, b: Seq<(i64, i64)>)
    requires
        a.to_multiset() == b.to_multiset(),
    ensures
        volume_of(a) == volume_of(b),
        notional_of(a) == notional_of(b),
    decreases a.len(),
{
    broadcast use vstd::multiset::group_multiset_axioms;

    to_multiset_len(a);
    to_multiset_len(b);
    if a.len() > 0 {
        let x = a.last();
        let rest = a.drop_last();
        assert(a =~= rest.push(x));
        to_multiset_build(rest, x);
        assert(a.contains(x)) by {
            assert(a[a.len() - 1] == x);
        }
        to_multiset_contains(a, x);
        to_multiset_contains(b, x);
        let j = choose|j: int| 0 <= j < b.len() && b[j] == x;
        to_multiset_remove(b, j);
        assert(rest.to_multiset() =~= a.to_multiset().remove(x));
        lemma_sums_permuted(rest, b.remove(j));
        lemma_sums_remove(b, j);
    }
}

/// The VWAP, volume and notional do not depend on the order of the trades:
/// two runs with the same multiset of (price, quantity) pairs end with the
/// same values.
pub proof fn lemma_vwap_order_free(symbol: String, a: Seq<Trade>, b: Seq<Trade>)
    requires
        replayable(a),
        replayable(b),
        price_qty(a).to_multiset() == price_qty(b).to_multiset(),
    ensures
        replay(symbol, a).vwap == replay(symbol, b).vwap,
        replay(symbol, a).total_volume == replay(symbol, b).total_volume,
        replay(symbol, a).notional == replay(symbol, b).notional,
{
    lemma_sums_permuted(price_qty(a), price_qty(b));
    lemma_replay_totals(symbol, a);
    lemma_replay_totals(symbol, b);
    to_multiset_len(price_qty(a));
    to_multiset_len(price_qty(b));
}

} // verus!

verus! {

impl MarketStats {
    /// A copy with the same fields.
    pub fn duplicate(&self) -> (r: Self)
        ensures
            r == *self,
    {
        MarketStats {
            symbol: self.symbol.clone(),
            trade_count: self.trade_count,
            total_volume: self.total_volume,
            notional: self.notional,
            vwap: self.vwap,
            high: self.high,
            low: self.low,
            last_price: self.last_price,
            last_update: self.last_update,
        }
    }
}

/// The statistics aggregator: one record per symbol, each created at the
/// symbol's first trade and kept for the whole session.
pub struct StatsBook {
    entries: Vec<MarketStats>,
}

impl View for StatsBook {
    type V = Seq<MarketStats>;

    closed spec fn view(&self) -> Seq<MarketStats> {
        self.entries@
    }
}

/// `after` is `before` with `t` taken in (when `taken`) or unchanged (when
/// not): `t`'s symbol gets its record, created empty at its first trade,
/// updated by `t`; every other symbol keeps its record.
pub open spec fn recorded(before: StatsBook, after: StatsBook, t: Trade, taken: bool) -> bool {
    &&& !taken ==> after@ == before@
    &&& taken ==> after.has(t.symbol@)
    &&& taken && before.has(t.symbol@) ==> after.record_of(t.symbol@) == applied(before.record_of(t.symbol@), t)
    &&& taken && !before.has(t.symbol@) ==> after.record_of(t.symbol@).symbol@ == t.symbol@
        && after.record_of(t.symbol@) == applied(empty_stats(after.record_of(t.symbol@).symbol), t)
    &&& forall|s: Seq<char>|
        s != t.symbol@ ==> (#[trigger] after.has(s) == before.has(s)) && (before.has(s)
            ==> after.record_of(s) == before.record_of(s))
}

impl StatsBook {
    /// Records are well formed and no two share a symbol.
    pub open spec fn wf(&self) -> bool {
        &&& forall|i: int| 0 <= i < self@.len() ==> (#[trigger] self@[i]).wf()
        &&& forall|i: int, j: int|
            0 <= i < j < self@.len() ==> (#[trigger] self@[i]).symbol@ != (#[trigger] self@[j]).symbol@
    }

    /// Whether `symbol` has had a trade.
    pub open spec fn has(&self, symbol: Seq<char>) -> bool {
        exists|i: int| 0 <= i < self@.len() && (#[trigger] self@[i]).symbol@ == symbol
    }

    /// The record of a symbol that has had a trade.
    pub open spec fn record_of(&self, symbol: Seq<char>) -> MarketStats {
        self@[choose|i: int| 0 <= i < self@.len() && (#[trigger] self@[i]).symbol@ == symbol]
    }

    /// Whether `record` takes `t` in: its symbol's record can absorb it, or
    /// the symbol is new and `t` is in the data model's range.
    pub open spec fn takes(&self, t: Trade) -> bool {
        if self.has(t.symbol@) {
            self.record_of(t.symbol@).absorbs(t)
        } else {
            in_range(t)
        }
    }

    pub fn new() -> (r: Self)
        ensures
            r.wf(),
            r@.len() == 0,
    {
        StatsBook { entries: Vec::new() }
    }

    fn find(&self, symbol: &String) -> (r: Option<usize>)
        requires
            self.wf(),
        ensures
            r matches Some(i) ==> i < self@.len() && self@[i as int].symbol@ == symbol@
                && self.record_of(symbol@) == self@[i as int],
            r is Some <==> self.has(symbol@),
    {
        let mut i: usize = 0;
        while i < self.entries.len()
            invariant
                i <= self@.len(),
                self.wf(),
                self@ == self.entries@,
                forall|k: int| 0 <= k < i ==> (#[trigger] self@[k]).symbol@ != symbol@,
            decreases self.entries.len() - i,
        {
            if self.entries[i].symbol == *symbol {
                assert(self.has(symbol@));
                let ghost c = choose|k: int| 0 <= k < self@.len() && (#[trigger] self@[k]).symbol@ == symbol@;
                assert(c == i as int) by {
                    if c < i {
                    } else if c > i {
                        assert(self@[i as int].symbol@ != self@[c].symbol@);
                    }
                }
                return Some(i);
            }
            i = i + 1;
        }
        None
    }

    /// The statistics of `symbol`: its record, or the empty record if it has
    /// had no trade.
    pub fn get_statistics(&self, symbol: &String) -> (r: MarketStats)
        requires
            self.wf(),
        ensures
            self.has(symbol@) ==> r == self.record_of(symbol@),
            !self.has(symbol@) ==> r.symbol@ == symbol@ && r == empty_stats(r.symbol),
    {
        match self.find(symbol) {
            Some(i) => self.entries[i].duplicate(),
            None => MarketStats::new(symbol.clone()),
        }
    }

    /// Takes a trade into its symbol's record, creating the record at the
    /// symbol's first trade. A trade outside the data model's range (a price
    /// or quantity that is not positive), or one that would overflow a
    /// counter, is left out and `false` returned.
    pub fn record(&mut self, trade: &Trade) -> (r: bool)
        requires
            old(self).wf(),
        ensures
            final(self).wf(),
            r == old(self).takes(*trade),
            recorded(*old(self), *final(self), *trade, r),
    {
        match self.find(&trade.symbol) {
            Some(i) => {
                if !self.entries[i].can_absorb(trade) {
                    return false;
                }
                let mut e = self.entries.remove(i);
                e.update_with_trade(trade);
                self.entries.insert(i, e);
                proof {
                    assert(self@[i as int].symbol@ == trade.symbol@);
                    self.lemma_lookup_all(old(self), i as int);
                }
                true
            },
            None => {
                let mut e = MarketStats::new(trade.symbol.clone());
                proof {
                    let p = trade.price as int;
                    let q = trade.quantity as int;
                    if p > 0 && q > 0 {
                        assert(p * q <= 0x7fff_ffff_ffff_ffff * 0x7fff_ffff_ffff_ffff) by (nonlinear_arith)
                            requires p <= 0x7fff_ffff_ffff_ffff, q <= 0x7fff_ffff_ffff_ffff, p > 0, q > 0;
                    }
                }
                if !e.can_absorb(trade) {
                    return false;
                }
                e.update_with_trade(trade);
                self.entries.push(e);
                proof {
                    assert(self@[old(self)@.len() as int].symbol@ == trade.symbol@);
                    self.lemma_lookup_all(old(self), old(self)@.len() as int);
                }
                true
            },
        }
    }

    /// Lookups in `self` agree with those in `prev` but at index `i`, which
    /// holds the one changed or added record.
    proof fn lemma_lookup_all(&self, prev: &StatsBook, i: int)
        requires
            prev.wf(),
            0 <= i <= prev@.len(),
            self@.len() == if i == prev@.len() { prev@.len() + 1 } else { prev@.len() + 0 },
            i == prev@.len() ==> forall|k: int| 0 <= k < prev@.len() ==> prev@[k].symbol@ != self@[i].symbol@,
            i < prev@.len() ==> self@[i].symbol@ == prev@[i].symbol@,
            self@[i].wf(),
            forall|k: int| 0 <= k < self@.len() && k != i ==> self@[k] == prev@[k],
        ensures
            self.wf(),
            self.has(self@[i].symbol@),
            self.record_of(self@[i].symbol@) == self@[i],
            forall|s: Seq<char>|
                s != self@[i].symbol@ ==> (#[trigger] self.has(s) == prev.has(s)) && (prev.has(s)
                    ==> self.record_of(s) == prev.record_of(s)),
    {
        assert forall|a: int, b: int| 0 <= a < b < self@.len() implies (#[trigger] self@[a]).symbol@
            != (#[trigger] self@[b]).symbol@ by {
            if a != i && b != i {
                assert(prev@[a].symbol@ != prev@[b].symbol@);
            } else if a == i {
                assert(prev@[a].symbol@ != prev@[b].symbol@);
            } else {
                if i < prev@.len() {
                    assert(prev@[a].symbol@ != prev@[b].symbol@);
                }
            }
        }
        assert(self.has(self@[i].symbol@));
        assert forall|s: Seq<char>| s != self@[i].symbol@ implies (#[trigger] self.has(s) == prev.has(s))
            && (prev.has(s) ==> self.record_of(s) == prev.record_of(s)) by {
            if self.has(s) {
                let k = choose|k: int| 0 <= k < self@.len() && (#[trigger] self@[k]).symbol@ == s;
                assert(k != i);
                assert(prev@[k].symbol@ == s);
            }
            if prev.has(s) {
                let k = choose|k: int| 0 <= k < prev@.len() && (#[trigger] prev@[k]).symbol@ == s;
                if i < prev@.len() {
                    assert(k != i);
                }
                assert(self@[k].symbol@ == s);
                let c = choose|k: int| 0 <= k < self@.len() && (#[trigger] self@[k]).symbol@ == s;
                assert(c == k) by {
                    if c < k {
                        assert(self@[c].symbol@ != self@[k].symbol@);
                    } else if c > k {
                        assert(self@[k].symbol@ != self@[c].symbol@);
                    }
                }
            }
        }
        let s = self@[i].symbol@;
        let c = choose|k: int| 0 <= k < self@.len() && (#[trigger] self@[k]).symbol@ == s;
        assert(c == i) by {
            if c < i {
                assert(self@[c].symbol@ != self@[i].symbol@);
            } else if c > i {
                assert(self@[i].symbol@ != self@[c].symbol@);
            }
        }
    }
}

} // verus!
