//! The matching engine ("crank"): an externally invoked, bounded-work
//! operation that crosses the best bid against the best ask.
//!
//! Each iteration selects, among the active orders of each side, the one
//! with the best price — ties broken by earliest timestamp, then earliest
//! id — and matches them at the resting (maker) order's price when the
//! best bid is at or above the best ask. A matched order's filled
//! quantity grows by the matched amount; an order filled in full becomes
//! inactive. A crossing between two orders of the same trader is rejected
//! rather than silently matched, and any rejection leaves the book
//! exactly as it was.

use vstd::prelude::*;
use vstd::arithmetic::div_mod::{lemma_div_is_ordered, lemma_fundamental_div_mod, lemma_mod_bound};
use vstd::arithmetic::mul::lemma_mul_inequality;
use crate::book::OrderBook;
use crate::exchange::{
    Exchange, ExchangeError, BPS_DENOMINATOR, MAX_CRANK_ITERATIONS, MAX_FEE_BPS,
};
use crate::order::{
    ask_prior, ask_takes_priority, bid_prior, bid_takes_priority, lemma_count_active_nonneg,
    lemma_count_active_update, Order,
};
use crate::trade::Trade;

verus! {

/// No active bid stands at or above any active ask: nothing is left to
/// match.
pub open spec fn no_cross(s: Seq<Order>) -> bool {
    forall|i: int, j: int|
        0 <= i < s.len() && 0 <= j < s.len() && (#[trigger] s[i]).active_bid() && (
        #[trigger] s[j]).active_ask() ==> s[i].price < s[j].price
}

/// The sum of all orders' filled quantities.
pub open spec fn sum_filled(s: Seq<Order>) -> int
    decreases s.len(),
{
    if s.len() == 0 {
        0
    } else {
        sum_filled(s.drop_last()) + s.last().filled_quantity
    }
}

/// The sum of all trades' matched quantities.
pub open spec fn sum_traded(ts: Seq<Trade>) -> int
    decreases ts.len(),
{
    if ts.len() == 0 {
        0
    } else {
        sum_traded(ts.drop_last()) + ts.last().quantity
    }
}

/// Replacing one order changes the filled sum by the difference of the
/// two orders' filled quantities.
pub proof fn lemma_sum_filled_update(s: Seq<Order>, i: int, o: Order)
    requires
        0 <= i < s.len(),
    ensures
        sum_filled(s.update(i, o)) == sum_filled(s) - s[i].filled_quantity + o.filled_quantity,
    decreases s.len(),
{
    let t = s.update(i, o);
    if i == s.len() - 1 {
        assert(t.drop_last() =~= s.drop_last());
    } else {
        assert(t.drop_last() =~= s.drop_last().update(i, o));
        assert(t.last() == s.last());
        lemma_sum_filled_update(s.drop_last(), i, o);
    }
}

/// Appending a trade adds its quantity to the traded sum.
pub proof fn lemma_sum_traded_push(ts: Seq<Trade>, t: Trade)
    ensures
        sum_traded(ts.push(t)) == sum_traded(ts) + t.quantity,
{
    assert(ts.push(t).drop_last() =~= ts);
}

/// The fee on a notional at a rate in basis points, rounded down.
pub open spec fn fee_of(notional: int, bps: int) -> int {
    notional * bps / (BPS_DENOMINATOR as int)
}

/// Computes [`fee_of`] exactly; a fee at a capped rate never exceeds half
/// the notional, so maker and taker fee together fit within it.
pub fn compute_fee(notional: u64, bps: u16) -> (r: u64)
    requires
        bps <= MAX_FEE_BPS,
    ensures
        r == fee_of(notional as int, bps as int),
        2 * r <= notional,
{
    proof {
        lemma_mul_inequality(bps as int, MAX_FEE_BPS as int, notional as int);
        assert(notional as int * bps as int == bps as int * notional as int) by (nonlinear_arith);
        assert(notional as int * MAX_FEE_BPS as int == MAX_FEE_BPS as int * notional as int)
            by (nonlinear_arith);
        // The scaled product at the capped rate, divided back down, stays
        // at or below a tenth of the notional.
        let n = notional as int;
        let q = n * 1000 / 10000;
        lemma_fundamental_div_mod(n * 1000, 10000);
        lemma_mod_bound(n * 1000, 10000);
        lemma_div_is_ordered(n * (bps as int), n * 1000, 10000);
        assert(n * 1000 >= 0) by (nonlinear_arith)
            requires n >= 0;
        assert(2 * (n * (bps as int) / 10000) <= n);
    }
    let wide = (notional as u128) * (bps as u128) / (BPS_DENOMINATOR as u128);
    proof {
        assert(notional as int * bps as int <= u64::MAX as int * 1000) by (nonlinear_arith)
            requires notional <= u64::MAX, bps <= 1000;
    }
    wide as u64
}

impl OrderBook {
    /// Finds the best active bid: the highest price, ties broken by the
    /// earliest timestamp and then the smallest id.
    pub fn find_best_bid(&self) -> (r: Option<usize>)
        requires
            self.wf(),
        ensures
            r is None ==> forall|j: int|
                0 <= j < self.orders@.len() ==> !(#[trigger] self.orders@[j]).active_bid(),
            r matches Some(i) ==> {
                &&& 0 <= i < self.orders@.len()
                &&& self.orders@[i as int].active_bid()
                &&& forall|j: int|
                    0 <= j < self.orders@.len() && j != i && (#[trigger] self.orders@[
                    j]).active_bid() ==> bid_prior(self.orders@[i as int], self.orders@[j])
            },
    {
        let n = self.orders.len();
        let mut best: Option<usize> = None;
        let mut k: usize = 0;
        while k < n
            invariant
                self.wf(),
                n == self.orders@.len(),
                0 <= k <= n,
                best is None ==> forall|j: int|
                    0 <= j < k ==> !(#[trigger] self.orders@[j]).active_bid(),
                best matches Some(b) ==> {
                    &&& 0 <= b < k
                    &&& self.orders@[b as int].active_bid()
                    &&& forall|j: int|
                        0 <= j < k && j != b && (#[trigger] self.orders@[j]).active_bid()
                            ==> bid_prior(self.orders@[b as int], self.orders@[j])
                },
            decreases n - k,
        {
            let cand = self.orders[k];
            if cand.is_active && matches!(cand.side, crate::order::OrderSide::Bid) {
                match best {
                    None => {
                        best = Some(k);
                    }
                    Some(b) => {
                        let cur = self.orders[b];
                        if bid_takes_priority(&cand, &cur) {
                            best = Some(k);
                        } else {
                            proof {
                                // Ids differ, so priority is a strict
                                // total order on the two.
                                assert(self.orders@[b as int].order_id != self.orders@[
                                k as int].order_id);
                                assert(bid_prior(self.orders@[b as int], self.orders@[k as int]));
                            }
                        }
                    }
                }
            }
            k = k + 1;
        }
        best
    }

    /// Finds the best active ask: the lowest price, ties broken by the
    /// earliest timestamp and then the smallest id.
    pub fn find_best_ask(&self) -> (r: Option<usize>)
        requires
            self.wf(),
        ensures
            r is None ==> forall|j: int|
                0 <= j < self.orders@.len() ==> !(#[trigger] self.orders@[j]).active_ask(),
            r matches Some(i) ==> {
                &&& 0 <= i < self.orders@.len()
                &&& self.orders@[i as int].active_ask()
                &&& forall|j: int|
                    0 <= j < self.orders@.len() && j != i && (#[trigger] self.orders@[
                    j]).active_ask() ==> ask_prior(self.orders@[i as int], self.orders@[j])
            },
    {
        let n = self.orders.len();
        let mut best: Option<usize> = None;
        let mut k: usize = 0;
        while k < n
            invariant
                self.wf(),
                n == self.orders@.len(),
                0 <= k <= n,
                best is None ==> forall|j: int|
                    0 <= j < k ==> !(#[trigger] self.orders@[j]).active_ask(),
                best matches Some(b) ==> {
                    &&& 0 <= b < k
                    &&& self.orders@[b as int].active_ask()
                    &&& forall|j: int|
                        0 <= j < k && j != b && (#[trigger] self.orders@[j]).active_ask()
                            ==> ask_prior(self.orders@[b as int], self.orders@[j])
                },
            decreases n - k,
        {
            let cand = self.orders[k];
            if cand.is_active && matches!(cand.side, crate::order::OrderSide::Ask) {
                match best {
                    None => {
                        best = Some(k);
                    }
                    Some(b) => {
                        let cur = self.orders[b];
                        if ask_takes_priority(&cand, &cur) {
                            best = Some(k);
                        } else {
                            proof {
                                assert(self.orders@[b as int].order_id != self.orders@[
                                k as int].order_id);
                                assert(ask_prior(self.orders@[b as int], self.orders@[k as int]));
                            }
                        }
                    }
                }
            }
            k = k + 1;
        }
        best
    }
}

/// `i` indexes the best active bid of `s`: active, on the bid side, and
/// of strictly higher priority than every other active bid.
pub open spec fn is_best_bid(s: Seq<Order>, i: int) -> bool {
    &&& 0 <= i < s.len()
    &&& s[i].active_bid()
    &&& forall|j: int|
        0 <= j < s.len() && j != i && (#[trigger] s[j]).active_bid() ==> bid_prior(s[i], s[j])
}

/// `i` indexes the best active ask of `s`.
pub open spec fn is_best_ask(s: Seq<Order>, i: int) -> bool {
    &&& 0 <= i < s.len()
    &&& s[i].active_ask()
    &&& forall|j: int|
        0 <= j < s.len() && j != i && (#[trigger] s[j]).active_ask() ==> ask_prior(s[i], s[j])
}

/// The index of the best active bid. Priority is a strict order, so at
/// most one index qualifies; when none does, the value is arbitrary and
/// [`crossed`] is false.
pub open spec fn best_bid(s: Seq<Order>) -> int {
    choose|i: int| is_best_bid(s, i)
}

/// The index of the best active ask.
pub open spec fn best_ask(s: Seq<Order>) -> int {
    choose|i: int| is_best_ask(s, i)
}

/// Best bid against best ask, so only one index can be best on a side.
pub proof fn lemma_best_bid_unique(s: Seq<Order>, i: int)
    requires
        is_best_bid(s, i),
    ensures
        best_bid(s) == i,
{
    assert(is_best_bid(s, best_bid(s)));
    let c = best_bid(s);
    if c != i {
        assert(bid_prior(s[i], s[c]));
        assert(bid_prior(s[c], s[i]));
    }
}

/// The mirror of [`lemma_best_bid_unique`] for asks.
pub proof fn lemma_best_ask_unique(s: Seq<Order>, i: int)
    requires
        is_best_ask(s, i),
    ensures
        best_ask(s) == i,
{
    assert(is_best_ask(s, best_ask(s)));
    let c = best_ask(s);
    if c != i {
        assert(ask_prior(s[i], s[c]));
        assert(ask_prior(s[c], s[i]));
    }
}

/// A match is available: both sides have a best active order and the
/// best bid's price meets the best ask's.
pub open spec fn crossed(s: Seq<Order>) -> bool {
    &&& is_best_bid(s, best_bid(s))
    &&& is_best_ask(s, best_ask(s))
    &&& s[best_bid(s)].price >= s[best_ask(s)].price
}

/// The crossing best pair belongs to one trader and must be rejected
/// rather than matched.
pub open spec fn self_crossed(s: Seq<Order>) -> bool {
    crossed(s) && s[best_bid(s)].trader == s[best_ask(s)].trader
}

/// An order after a fill of `qty`: the filled quantity grows, and the
/// order stays active only while an unfilled remainder is left.
pub open spec fn filled_order(o: Order, qty: int) -> Order {
    Order {
        filled_quantity: (o.filled_quantity + qty) as u64,
        is_active: o.filled_quantity + qty < o.quantity,
        ..o
    }
}

/// The quantity one matching step fills: the smaller of the two best
/// orders' unfilled remainders.
pub open spec fn step_qty(s: Seq<Order>) -> int {
    let b = s[best_bid(s)];
    let a = s[best_ask(s)];
    if b.unfilled() < a.unfilled() {
        b.unfilled()
    } else {
        a.unfilled()
    }
}

/// The price one matching step executes at: the resting (maker) order's
/// price, the maker being the side with the earlier-assigned id.
pub open spec fn step_price(s: Seq<Order>) -> u64 {
    let b = s[best_bid(s)];
    let a = s[best_ask(s)];
    if b.order_id < a.order_id {
        b.price
    } else {
        a.price
    }
}

/// The order sequence after one matching step: both best orders' filled
/// quantities grow by [`step_qty`], each deactivated on a full fill.
pub open spec fn step_orders(s: Seq<Order>) -> Seq<Order> {
    s.update(best_bid(s), filled_order(s[best_bid(s)], step_qty(s))).update(
        best_ask(s),
        filled_order(s[best_ask(s)], step_qty(s)),
    )
}

/// The trade record one matching step emits.
pub open spec fn step_trade(
    s: Seq<Order>,
    trade_id: int,
    maker_bps: u16,
    taker_bps: u16,
    now: i64,
) -> Trade {
    let b = s[best_bid(s)];
    let a = s[best_ask(s)];
    let maker_is_bid = b.order_id < a.order_id;
    let notional = step_price(s) * step_qty(s);
    Trade {
        trade_id: trade_id as u64,
        maker_order_id: if maker_is_bid {
            b.order_id
        } else {
            a.order_id
        },
        taker_order_id: if maker_is_bid {
            a.order_id
        } else {
            b.order_id
        },
        maker: if maker_is_bid {
            b.trader
        } else {
            a.trader
        },
        taker: if maker_is_bid {
            a.trader
        } else {
            b.trader
        },
        price: step_price(s),
        quantity: step_qty(s) as u64,
        maker_fee: fee_of(notional, maker_bps as int) as u64,
        taker_fee: fee_of(notional, taker_bps as int) as u64,
        timestamp: now,
        settled: false,
    }
}

/// One step's amounts exceed the machine word: the notional of the
/// match, or the next trade id.
pub open spec fn step_overflow(s: Seq<Order>, trade_id: int) -> bool {
    step_price(s) * step_qty(s) > u64::MAX || trade_id >= u64::MAX
}

/// How a matching pass of at most `k` steps ends: cleanly (no match left
/// or the cap reached), on a self-crossing best pair, or on an amount
/// that exceeds the machine word.
pub enum CrankEnd {
    Done,
    SelfCross,
    AmountOverflow,
}

/// The end of a matching pass of at most `k` steps from `s`, with `tid`
/// the next trade id.
pub open spec fn crank_end(s: Seq<Order>, tid: int, k: nat) -> CrankEnd
    decreases k,
{
    if k == 0 || !crossed(s) {
        CrankEnd::Done
    } else if self_crossed(s) {
        CrankEnd::SelfCross
    } else if step_overflow(s, tid) {
        CrankEnd::AmountOverflow
    } else {
        crank_end(step_orders(s), tid + 1, (k - 1) as nat)
    }
}

/// The order sequence a matching pass of at most `k` steps leaves.
pub open spec fn crank_orders(s: Seq<Order>, tid: int, k: nat) -> Seq<Order>
    decreases k,
{
    if k == 0 || !crossed(s) || self_crossed(s) || step_overflow(s, tid) {
        s
    } else {
        crank_orders(step_orders(s), tid + 1, (k - 1) as nat)
    }
}

/// The trades a matching pass of at most `k` steps emits, in order.
pub open spec fn crank_trades(
    s: Seq<Order>,
    tid: int,
    maker_bps: u16,
    taker_bps: u16,
    now: i64,
    k: nat,
) -> Seq<Trade>
    decreases k,
{
    if k == 0 || !crossed(s) || self_crossed(s) || step_overflow(s, tid) {
        Seq::empty()
    } else {
        seq![step_trade(s, tid, maker_bps, taker_bps, now)] + crank_trades(
            step_orders(s),
            tid + 1,
            maker_bps,
            taker_bps,
            now,
            (k - 1) as nat,
        )
    }
}

/// A crossing pair found mid-crank witnesses that the starting book was
/// itself crossed: either nothing has been matched yet and the pair
/// stands in the starting book, or an earlier match already required a
/// cross.
proof fn lemma_cross_found(
    orig: Seq<Order>,
    cur: Seq<Order>,
    trades: Seq<Trade>,
    it: int,
    bi: int,
    ai: int,
)
    requires
        it == trades.len(),
        it == 0 ==> cur == orig,
        trades.len() > 0 ==> !no_cross(orig),
        0 <= bi < cur.len(),
        0 <= ai < cur.len(),
        cur[bi].active_bid(),
        cur[ai].active_ask(),
        cur[bi].price >= cur[ai].price,
    ensures
        !no_cross(orig),
{
    if trades.len() == 0 {
        assert(orig[bi].active_bid() && orig[ai].active_ask() && !(orig[bi].price
            < orig[ai].price));
    }
}

/// Two books that agree on every field; a rejected crank leaves the book
/// in this relation to its starting state.
pub open spec fn book_unchanged(a: OrderBook, b: OrderBook) -> bool {
    &&& a.orders@ == b.orders@
    &&& a.exchange == b.exchange
    &&& a.base_mint == b.base_mint
    &&& a.quote_mint == b.quote_mint
    &&& a.base_vault == b.base_vault
    &&& a.quote_vault == b.quote_vault
    &&& a.tick_size == b.tick_size
    &&& a.min_order_size == b.min_order_size
    &&& a.next_order_id == b.next_order_id
    &&& a.next_trade_id == b.next_trade_id
    &&& a.total_orders == b.total_orders
    &&& a.total_volume == b.total_volume
    &&& a.last_price == b.last_price
    &&& a.is_active == b.is_active
}

/// How matching may evolve one order: everything fixed except the filled
/// quantity, which only grows, and the activity flag, which only falls —
/// and falls exactly on a full fill.
pub open spec fn order_fill_frame(before: Order, after: Order) -> bool {
    &&& after.order_id == before.order_id
    &&& after.trader == before.trader
    &&& after.side == before.side
    &&& after.order_type == before.order_type
    &&& after.price == before.price
    &&& after.quantity == before.quantity
    &&& after.timestamp == before.timestamp
    &&& after.filled_quantity >= before.filled_quantity
    &&& after.is_active ==> before.is_active
    &&& before.is_active && !after.is_active ==> after.filled_quantity == after.quantity
}

/// Matching only fills: order for order, [`order_fill_frame`] holds.
pub open spec fn fills_only(before: Seq<Order>, after: Seq<Order>) -> bool {
    &&& after.len() == before.len()
    &&& forall|j: int|
        0 <= j < before.len() ==> order_fill_frame(#[trigger] before[j], #[trigger] after[j])
}

/// What the crank promises of each trade it emits: a well-formed,
/// unsettled record stamped with the crank's time, a tick-aligned price,
/// distinct parties, and the `k`-th fresh trade id.
pub open spec fn crank_trade_ok(t: Trade, book: OrderBook, now: i64, k: int) -> bool {
    &&& t.wf()
    &&& !t.settled
    &&& t.timestamp == now
    &&& t.maker != t.taker
    &&& t.price % book.tick_size == 0
    &&& t.trade_id == book.next_trade_id + k
}

impl OrderBook {
    /// Runs up to `max_iterations` matching steps and returns the trades
    /// produced, in matching order.
    ///
    /// Each step crosses the best bid with the best ask when the bid's
    /// price is at or above the ask's, at the maker's (earlier order's)
    /// price, for the smaller of the two unfilled quantities; fees come
    /// from the exchange's configured rates on the notional. A crossing
    /// pair belonging to one trader rejects the whole invocation, and any
    /// rejection leaves the book unchanged. If the pass ends below the
    /// iteration bound, no match remains in the book.
    ///
    /// The outcome is pinned exactly: the pass ends as [`crank_end`]
    /// says, and on success the remaining orders and the emitted trades
    /// are [`crank_orders`] and [`crank_trades`] of the starting state.
    pub fn crank_match_orders(
        &mut self,
        exchange: &Exchange,
        max_iterations: u8,
        now: i64,
    ) -> (r: Result<Vec<Trade>, ExchangeError>)
        requires
            old(self).wf(),
            exchange.wf(),
        ensures
            final(self).wf(),
            max_iterations > MAX_CRANK_ITERATIONS ==> r == Err::<Vec<Trade>, ExchangeError>(
                ExchangeError::Overflow,
            ),
            r == Err::<Vec<Trade>, ExchangeError>(ExchangeError::OrderBookInactive)
                <==> max_iterations <= MAX_CRANK_ITERATIONS && !old(self).is_active,
            max_iterations <= MAX_CRANK_ITERATIONS && old(self).is_active && no_cross(
                old(self).orders@,
            ) ==> (r matches Ok(trades) && trades@.len() == 0),
            max_iterations <= MAX_CRANK_ITERATIONS && old(self).is_active ==> {
                let end = crank_end(
                    old(self).orders@,
                    old(self).next_trade_id as int,
                    max_iterations as nat,
                );
                &&& (r == Err::<Vec<Trade>, ExchangeError>(ExchangeError::SelfTradeNotAllowed)
                    <==> end == CrankEnd::SelfCross)
                &&& (r == Err::<Vec<Trade>, ExchangeError>(ExchangeError::Overflow)
                    <==> end == CrankEnd::AmountOverflow)
                &&& (r is Ok <==> end == CrankEnd::Done)
                &&& r is Ok ==> final(self).orders@ == crank_orders(
                    old(self).orders@,
                    old(self).next_trade_id as int,
                    max_iterations as nat,
                )
                &&& (r matches Ok(trades) ==> trades@ == crank_trades(
                    old(self).orders@,
                    old(self).next_trade_id as int,
                    exchange.maker_fee_bps,
                    exchange.taker_fee_bps,
                    now,
                    max_iterations as nat,
                ))
            },
            r is Err ==> book_unchanged(*final(self), *old(self)),
            r matches Ok(trades) ==> {
                &&& trades@.len() <= max_iterations
                &&& fills_only(old(self).orders@, final(self).orders@)
                &&& forall|k: int|
                    0 <= k < trades@.len() ==> crank_trade_ok(
                        #[trigger] trades@[k],
                        *old(self),
                        now,
                        k,
                    )
                &&& sum_filled(final(self).orders@) == sum_filled(old(self).orders@) + 2
                    * sum_traded(trades@)
                &&& final(self).next_trade_id == old(self).next_trade_id + trades@.len()
                &&& final(self).next_order_id == old(self).next_order_id
                &&& final(self).total_volume == old(self).total_volume
                &&& final(self).last_price == old(self).last_price
                &&& final(self).base_vault == old(self).base_vault
                &&& final(self).quote_vault == old(self).quote_vault
                &&& final(self).same_config(*old(self))
                &&& trades@.len() < max_iterations ==> no_cross(final(self).orders@)
            },
    {
        if max_iterations > MAX_CRANK_ITERATIONS {
            return Err(ExchangeError::Overflow);
        }
        if !self.is_active {
            return Err(ExchangeError::OrderBookInactive);
        }
        let ghost orig = *self;
        let saved_orders = copy_orders(&self.orders);
        let saved_total_orders = self.total_orders;
        let saved_next_trade_id = self.next_trade_id;
        let mut trades: Vec<Trade> = Vec::new();
        let mut it: u8 = 0;
        let mut done = false;
        proof {
            assert(Seq::<Trade>::empty() + crank_trades(
                orig.orders@,
                orig.next_trade_id as int,
                exchange.maker_fee_bps,
                exchange.taker_fee_bps,
                now,
                max_iterations as nat,
            ) =~= crank_trades(
                orig.orders@,
                orig.next_trade_id as int,
                exchange.maker_fee_bps,
                exchange.taker_fee_bps,
                now,
                max_iterations as nat,
            ));
        }
        while it < max_iterations && !done
            invariant
                exchange.wf(),
                self.wf(),
                orig == *old(self),
                orig.wf(),
                orig.is_active,
                max_iterations <= MAX_CRANK_ITERATIONS,
                0 <= it <= max_iterations,
                trades@.len() == it as int,
                saved_orders@ == orig.orders@,
                saved_total_orders == orig.total_orders,
                saved_next_trade_id == orig.next_trade_id,
                self.exchange == orig.exchange,
                self.base_mint == orig.base_mint,
                self.quote_mint == orig.quote_mint,
                self.base_vault == orig.base_vault,
                self.quote_vault == orig.quote_vault,
                self.tick_size == orig.tick_size,
                self.min_order_size == orig.min_order_size,
                self.next_order_id == orig.next_order_id,
                self.total_volume == orig.total_volume,
                self.last_price == orig.last_price,
                self.is_active == orig.is_active,
                self.next_trade_id as int == orig.next_trade_id + it as int,
                it == 0 ==> self.orders@ == orig.orders@,
                trades@.len() > 0 ==> !no_cross(orig.orders@),
                fills_only(orig.orders@, self.orders@),
                sum_filled(self.orders@) == sum_filled(orig.orders@) + 2 * sum_traded(trades@),
                forall|k: int|
                    0 <= k < trades@.len() ==> crank_trade_ok(#[trigger] trades@[k], orig, now, k),
                done ==> no_cross(self.orders@),
                crank_end(orig.orders@, orig.next_trade_id as int, max_iterations as nat)
                    == crank_end(
                    self.orders@,
                    self.next_trade_id as int,
                    (max_iterations - it) as nat,
                ),
                crank_orders(orig.orders@, orig.next_trade_id as int, max_iterations as nat)
                    == crank_orders(
                    self.orders@,
                    self.next_trade_id as int,
                    (max_iterations - it) as nat,
                ),
                crank_trades(
                    orig.orders@,
                    orig.next_trade_id as int,
                    exchange.maker_fee_bps,
                    exchange.taker_fee_bps,
                    now,
                    max_iterations as nat,
                ) == trades@ + crank_trades(
                    self.orders@,
                    self.next_trade_id as int,
                    exchange.maker_fee_bps,
                    exchange.taker_fee_bps,
                    now,
                    (max_iterations - it) as nat,
                ),
            decreases max_iterations - it, (if done {
                0int
            } else {
                1int
            }),
        {
            let ghost s0 = self.orders@;
            let ghost tid0 = self.next_trade_id as int;
            let ghost k_left = (max_iterations - it) as nat;
            let bid_idx = self.find_best_bid();
            let ask_idx = self.find_best_ask();
            match (bid_idx, ask_idx) {
                (Some(bi), Some(ai)) => {
                    proof {
                        assert(is_best_bid(s0, bi as int));
                        assert(is_best_ask(s0, ai as int));
                        lemma_best_bid_unique(s0, bi as int);
                        lemma_best_ask_unique(s0, ai as int);
                    }
                    let b = self.orders[bi];
                    let a = self.orders[ai];
                    if b.price < a.price {
                        proof {
                            assert forall|i: int, j: int|
                                0 <= i < self.orders@.len() && 0 <= j < self.orders@.len() && (
                                #[trigger] self.orders@[i]).active_bid() && (
                                #[trigger] self.orders@[j]).active_ask() implies self.orders@[
                            i].price < self.orders@[j].price by {
                                if i != bi as int {
                                    assert(bid_prior(self.orders@[bi as int], self.orders@[i]));
                                }
                                if j != ai as int {
                                    assert(ask_prior(self.orders@[ai as int], self.orders@[j]));
                                }
                            }
                        }
                        done = true;
                    } else if b.trader == a.trader {
                        proof {
                            lemma_cross_found(orig.orders@, self.orders@, trades@, it as int, bi as int, ai as int);
                            assert(crossed(s0));
                            assert(self_crossed(s0));
                            assert(crank_end(s0, tid0, k_left) == CrankEnd::SelfCross);
                        }
                        self.orders = saved_orders;
                        self.total_orders = saved_total_orders;
                        self.next_trade_id = saved_next_trade_id;
                        return Err(ExchangeError::SelfTradeNotAllowed);
                    } else {
                        proof {
                            assert(bi != ai);
                        }
                        let bid_unfilled = b.quantity - b.filled_quantity;
                        let ask_unfilled = a.quantity - a.filled_quantity;
                        let qty = if bid_unfilled < ask_unfilled {
                            bid_unfilled
                        } else {
                            ask_unfilled
                        };
                        // The maker is the order that was resting first:
                        // ids are assigned in arrival order.
                        let maker_is_bid = b.order_id < a.order_id;
                        let price = if maker_is_bid {
                            b.price
                        } else {
                            a.price
                        };
                        proof {
                            lemma_cross_found(orig.orders@, self.orders@, trades@, it as int, bi as int, ai as int);
                        }
                        proof {
                            assert(crossed(s0));
                            assert(!self_crossed(s0));
                            assert(step_qty(s0) == qty);
                            assert(step_price(s0) == price);
                        }
                        let notional = match price.checked_mul(qty) {
                            Some(n) => n,
                            None => {
                                proof {
                                    assert(step_overflow(s0, tid0));
                                    assert(crank_end(s0, tid0, k_left)
                                        == CrankEnd::AmountOverflow);
                                }
                                self.orders = saved_orders;
                                self.total_orders = saved_total_orders;
                                self.next_trade_id = saved_next_trade_id;
                                return Err(ExchangeError::Overflow);
                            }
                        };
                        let maker_fee = compute_fee(notional, exchange.maker_fee_bps);
                        let taker_fee = compute_fee(notional, exchange.taker_fee_bps);
                        let trade_id = self.next_trade_id;
                        let next_tid = match self.next_trade_id.checked_add(1) {
                            Some(n) => n,
                            None => {
                                proof {
                                    assert(step_overflow(s0, tid0));
                                    assert(crank_end(s0, tid0, k_left)
                                        == CrankEnd::AmountOverflow);
                                }
                                self.orders = saved_orders;
                                self.total_orders = saved_total_orders;
                                self.next_trade_id = saved_next_trade_id;
                                return Err(ExchangeError::Overflow);
                            }
                        };
                        let trade = Trade {
                            trade_id,
                            maker_order_id: if maker_is_bid {
                                b.order_id
                            } else {
                                a.order_id
                            },
                            taker_order_id: if maker_is_bid {
                                a.order_id
                            } else {
                                b.order_id
                            },
                            maker: if maker_is_bid {
                                b.trader
                            } else {
                                a.trader
                            },
                            taker: if maker_is_bid {
                                a.trader
                            } else {
                                b.trader
                            },
                            price,
                            quantity: qty,
                            maker_fee,
                            taker_fee,
                            timestamp: now,
                            settled: false,
                        };
                        let new_b = Order {
                            filled_quantity: b.filled_quantity + qty,
                            is_active: b.filled_quantity + qty < b.quantity,
                            ..b
                        };
                        let new_a = Order {
                            filled_quantity: a.filled_quantity + qty,
                            is_active: a.filled_quantity + qty < a.quantity,
                            ..a
                        };
                        proof {
                            lemma_count_active_update(self.orders@, bi as int, new_b);
                            lemma_sum_filled_update(self.orders@, bi as int, new_b);
                        }
                        self.orders.set(bi, new_b);
                        proof {
                            lemma_count_active_update(self.orders@, ai as int, new_a);
                            lemma_sum_filled_update(self.orders@, ai as int, new_a);
                            lemma_count_active_nonneg(self.orders@.update(ai as int, new_a));
                        }
                        self.orders.set(ai, new_a);
                        let mut deactivated: u64 = 0;
                        if !new_b.is_active {
                            deactivated = deactivated + 1;
                        }
                        if !new_a.is_active {
                            deactivated = deactivated + 1;
                        }
                        self.total_orders = self.total_orders - deactivated;
                        proof {
                            lemma_sum_traded_push(trades@, trade);
                            assert(!step_overflow(s0, tid0));
                            assert(new_b == filled_order(s0[bi as int], step_qty(s0)));
                            assert(new_a == filled_order(s0[ai as int], step_qty(s0)));
                            assert(self.orders@ == step_orders(s0));
                            assert(trade == step_trade(
                                s0,
                                tid0,
                                exchange.maker_fee_bps,
                                exchange.taker_fee_bps,
                                now,
                            ));
                            assert(crank_end(s0, tid0, k_left) == crank_end(
                                step_orders(s0),
                                tid0 + 1,
                                (k_left - 1) as nat,
                            ));
                            assert(crank_orders(s0, tid0, k_left) == crank_orders(
                                step_orders(s0),
                                tid0 + 1,
                                (k_left - 1) as nat,
                            ));
                            assert(crank_trades(
                                s0,
                                tid0,
                                exchange.maker_fee_bps,
                                exchange.taker_fee_bps,
                                now,
                                k_left,
                            ) == seq![
                                step_trade(
                                    s0,
                                    tid0,
                                    exchange.maker_fee_bps,
                                    exchange.taker_fee_bps,
                                    now,
                                ),
                            ] + crank_trades(
                                step_orders(s0),
                                tid0 + 1,
                                exchange.maker_fee_bps,
                                exchange.taker_fee_bps,
                                now,
                                (k_left - 1) as nat,
                            ));
                            assert(trades@ + (seq![trade] + crank_trades(
                                step_orders(s0),
                                tid0 + 1,
                                exchange.maker_fee_bps,
                                exchange.taker_fee_bps,
                                now,
                                (k_left - 1) as nat,
                            )) =~= trades@.push(trade) + crank_trades(
                                step_orders(s0),
                                tid0 + 1,
                                exchange.maker_fee_bps,
                                exchange.taker_fee_bps,
                                now,
                                (k_left - 1) as nat,
                            ));
                        }
                        trades.push(trade);
                        self.next_trade_id = next_tid;
                        it = it + 1;
                    }
                }
                _ => {
                    proof {
                        assert forall|i: int, j: int|
                            0 <= i < self.orders@.len() && 0 <= j < self.orders@.len() && (
                            #[trigger] self.orders@[i]).active_bid() && (
                            #[trigger] self.orders@[j]).active_ask() implies self.orders@[i].price
                            < self.orders@[j].price by {
                            assert(!self.orders@[i].active_bid() || !self.orders@[j].active_ask());
                        }
                    }
                    done = true;
                }
            }
        }
        proof {
            let s_end = self.orders@;
            let kl = (max_iterations - it) as nat;
            if done && crossed(s_end) {
                let bb = best_bid(s_end);
                let ba = best_ask(s_end);
                assert(s_end[bb].active_bid());
                assert(s_end[ba].active_ask());
                assert(s_end[bb].price < s_end[ba].price);
            }
            assert(kl == 0 || !crossed(s_end));
            assert(crank_end(s_end, self.next_trade_id as int, kl) == CrankEnd::Done);
            assert(crank_orders(s_end, self.next_trade_id as int, kl) == s_end);
            assert(crank_trades(
                s_end,
                self.next_trade_id as int,
                exchange.maker_fee_bps,
                exchange.taker_fee_bps,
                now,
                kl,
            ) == Seq::<Trade>::empty());
            assert(trades@ + Seq::<Trade>::empty() =~= trades@);
        }
        Ok(trades)
    }
}

/// Copies an order sequence element for element, for restoring the book
/// when a matching pass must be rejected as a whole.
fn copy_orders(v: &Vec<Order>) -> (r: Vec<Order>)
    ensures
        r@ == v@,
{
    let n = v.len();
    let mut r: Vec<Order> = Vec::new();
    let mut i: usize = 0;
    while i < n
        invariant
            n == v@.len(),
            0 <= i <= n,
            r@ =~= v@.subrange(0, i as int),
        decreases n - i,
    {
        r.push(v[i]);
        proof {
            assert(r@ =~= v@.subrange(0, i + 1 as int));
        }
        i = i + 1;
    }
    proof {
        assert(v@.subrange(0, n as int) =~= v@);
    }
    r
}

} // verus!
