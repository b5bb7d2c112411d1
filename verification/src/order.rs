//! Resting orders and their price-time priority.

use vstd::prelude::*;

verus! {

#[derive(Clone, Copy, PartialEq, Eq, Structural, Debug)]
pub enum OrderSide {
    /// Buy the base asset for the quote asset.
    Bid,
    /// Sell the base asset for the quote asset.
    Ask,
}

#[derive(Clone, Copy, PartialEq, Eq, Structural, Debug)]
pub enum OrderType {
    Limit,
    Market,
    PostOnly,
    ImmediateOrCancel,
}

/// A single order in an order book's priority index.
#[derive(Clone, Copy, PartialEq, Eq, Structural, Debug)]
pub struct Order {
    pub trader: u64,
    pub order_id: u64,
    pub side: OrderSide,
    pub order_type: OrderType,
    pub price: u64,
    pub quantity: u64,
    pub filled_quantity: u64,
    pub timestamp: i64,
    pub is_active: bool,
}

impl Order {
    /// The quantity still open for matching or refund.
    pub open spec fn unfilled(self) -> int {
        self.quantity - self.filled_quantity
    }

    /// Well-formedness of an order under its book's price and size rules:
    /// a positive, tick-aligned price, a quantity at or above the book's
    /// minimum, a filled quantity never beyond the quantity, and — while
    /// the order is active — a strictly positive unfilled remainder.
    pub open spec fn wf(self, tick_size: u64, min_order_size: u64) -> bool {
        &&& self.price > 0
        &&& self.price % tick_size == 0
        &&& self.quantity >= min_order_size
        &&& self.filled_quantity <= self.quantity
        &&& self.is_active ==> self.filled_quantity < self.quantity
    }

    /// An order competing for the best bid.
    pub open spec fn active_bid(self) -> bool {
        self.is_active && self.side == OrderSide::Bid
    }

    /// An order competing for the best ask.
    pub open spec fn active_ask(self) -> bool {
        self.is_active && self.side == OrderSide::Ask
    }
}

/// Strict price-time priority among bids: a higher price wins, ties go to
/// the earlier timestamp and then to the smaller (earlier-assigned) id.
pub open spec fn bid_prior(a: Order, b: Order) -> bool {
    ||| a.price > b.price
    ||| (a.price == b.price && a.timestamp < b.timestamp)
    ||| (a.price == b.price && a.timestamp == b.timestamp && a.order_id < b.order_id)
}

/// Strict price-time priority among asks: a lower price wins, ties go to
/// the earlier timestamp and then to the smaller id.
pub open spec fn ask_prior(a: Order, b: Order) -> bool {
    ||| a.price < b.price
    ||| (a.price == b.price && a.timestamp < b.timestamp)
    ||| (a.price == b.price && a.timestamp == b.timestamp && a.order_id < b.order_id)
}

/// Decides [`bid_prior`] between two orders.
pub fn bid_takes_priority(a: &Order, b: &Order) -> (r: bool)
    ensures
        r == bid_prior(*a, *b),
{
    a.price > b.price || (a.price == b.price && a.timestamp < b.timestamp) || (a.price == b.price
        && a.timestamp == b.timestamp && a.order_id < b.order_id)
}

/// Decides [`ask_prior`] between two orders.
pub fn ask_takes_priority(a: &Order, b: &Order) -> (r: bool)
    ensures
        r == ask_prior(*a, *b),
{
    a.price < b.price || (a.price == b.price && a.timestamp < b.timestamp) || (a.price == b.price
        && a.timestamp == b.timestamp && a.order_id < b.order_id)
}

/// The number of active orders in a sequence.
pub open spec fn count_active(s: Seq<Order>) -> int
    decreases s.len(),
{
    if s.len() == 0 {
        0
    } else {
        count_active(s.drop_last()) + if s.last().is_active {
            1int
        } else {
            0int
        }
    }
}

/// The count of active orders is never negative.
pub proof fn lemma_count_active_nonneg(s: Seq<Order>)
    ensures
        count_active(s) >= 0,
    decreases s.len(),
{
    if s.len() > 0 {
        lemma_count_active_nonneg(s.drop_last());
    }
}

/// Appending an order adds one to the active count exactly when the new
/// order is active.
pub proof fn lemma_count_active_push(s: Seq<Order>, o: Order)
    ensures
        count_active(s.push(o)) == count_active(s) + if o.is_active {
            1int
        } else {
            0int
        },
{
    assert(s.push(o).drop_last() =~= s);
}

/// Replacing one order changes the active count by the difference of the
/// two orders' activity.
pub proof fn lemma_count_active_update(s: Seq<Order>, i: int, o: Order)
    requires
        0 <= i < s.len(),
    ensures
        count_active(s.update(i, o)) == count_active(s) - (if s[i].is_active {
            1int
        } else {
            0int
        }) + (if o.is_active {
            1int
        } else {
            0int
        }),
    decreases s.len(),
{
    let t = s.update(i, o);
    if i == s.len() - 1 {
        assert(t.drop_last() =~= s.drop_last());
    } else {
        assert(t.drop_last() =~= s.drop_last().update(i, o));
        assert(t.last() == s.last());
        lemma_count_active_update(s.drop_last(), i, o);
    }
}

} // verus!
