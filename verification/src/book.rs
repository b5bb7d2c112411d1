//! The order book: per-trading-pair custody, price and size rules, and the
//! order lifecycle (placement, cancellation, modification, closure).
//!
//! The book owns one custody vault per leg and an explicit priority index
//! of orders; matching (see [`crate::matching`]) always selects the best
//! price, with ties broken by arrival. An order's lifecycle is
//! placement (locks the required asset), zero or more partial fills
//! (`filled_quantity` only grows), and a single transition to inactive on
//! full fill, cancellation, or book closure — never back.

use vstd::prelude::*;
use crate::exchange::{Exchange, ExchangeError, TradingAccount, MIN_ORDER_SIZE, MIN_TICK_SIZE};
use crate::order::{
    count_active, lemma_count_active_nonneg, lemma_count_active_push, lemma_count_active_update,
    Order, OrderSide, OrderType,
};
use crate::vault::{AssetKind, Vault};

verus! {

/// Whether some order in `s` carries the id.
pub open spec fn has_order(s: Seq<Order>, order_id: u64) -> bool {
    exists|i: int| 0 <= i < s.len() && s[i].order_id == order_id
}

/// The index of the order carrying the id (unique in a well-formed book).
pub open spec fn idx_of(s: Seq<Order>, order_id: u64) -> int {
    choose|i: int| 0 <= i < s.len() && s[i].order_id == order_id
}

/// The order carrying the id (unique in a well-formed book).
pub open spec fn order_by_id(s: Seq<Order>, order_id: u64) -> Order {
    s[idx_of(s, order_id)]
}

/// Order book for one trading pair: a fungible base asset against the
/// native quote currency.
#[derive(PartialEq, Eq, Debug)]
pub struct OrderBook {
    pub exchange: u64,
    pub base_mint: u64,
    pub quote_mint: u64,
    pub base_vault: Vault,
    pub quote_vault: Vault,
    pub tick_size: u64,
    pub min_order_size: u64,
    pub next_order_id: u64,
    pub next_trade_id: u64,
    pub total_orders: u64,
    pub total_volume: u64,
    pub last_price: u64,
    pub is_active: bool,
    pub orders: Vec<Order>,
}

impl OrderBook {
    /// Well-formedness: positive tick and minimum size, every order obeys
    /// the book's price and size rules, ids are unique and below the
    /// allocator's next id, and `total_orders` counts exactly the active
    /// orders.
    pub open spec fn wf(self) -> bool {
        &&& self.tick_size >= 1
        &&& self.min_order_size >= 1
        &&& self.base_vault.kind == AssetKind::Token
        &&& self.quote_vault.kind == AssetKind::Native
        &&& forall|i: int|
            0 <= i < self.orders@.len() ==> (#[trigger] self.orders@[i]).wf(
                self.tick_size,
                self.min_order_size,
            )
        &&& forall|i: int|
            0 <= i < self.orders@.len() ==> (#[trigger] self.orders@[i]).order_id
                < self.next_order_id
        &&& forall|i: int, j: int|
            0 <= i < self.orders@.len() && 0 <= j < self.orders@.len() && i != j
                ==> #[trigger] self.orders@[i].order_id != #[trigger] self.orders@[j].order_id
        &&& self.total_orders == count_active(self.orders@)
    }

    /// Everything but the custody balances and the order index, unchanged.
    pub open spec fn same_config(self, other: OrderBook) -> bool {
        &&& self.exchange == other.exchange
        &&& self.base_mint == other.base_mint
        &&& self.quote_mint == other.quote_mint
        &&& self.tick_size == other.tick_size
        &&& self.min_order_size == other.min_order_size
        &&& self.is_active == other.is_active
        &&& self.base_vault.kind == other.base_vault.kind
        &&& self.quote_vault.kind == other.quote_vault.kind
    }

    /// Creates an active, empty order book with empty vaults.
    ///
    /// Only the exchange authority may create one; rejects a tick size
    /// below [`MIN_TICK_SIZE`], a minimum order size below
    /// [`MIN_ORDER_SIZE`], and a paused exchange. On success the
    /// exchange's market count grows by one.
    pub fn initialize_order_book(
        exchange: &mut Exchange,
        caller: u64,
        exchange_id: u64,
        base_mint: u64,
        quote_mint: u64,
        tick_size: u64,
        min_order_size: u64,
    ) -> (r: Result<OrderBook, ExchangeError>)
        ensures
            r == Err::<OrderBook, ExchangeError>(ExchangeError::Unauthorized)
                <==> caller != old(exchange).authority,
            caller == old(exchange).authority ==> {
                &&& (r == Err::<OrderBook, ExchangeError>(ExchangeError::InvalidPrice)
                    <==> tick_size < MIN_TICK_SIZE)
                &&& (r == Err::<OrderBook, ExchangeError>(ExchangeError::InvalidQuantity)
                    <==> tick_size >= MIN_TICK_SIZE && min_order_size < MIN_ORDER_SIZE)
                &&& (r == Err::<OrderBook, ExchangeError>(ExchangeError::ExchangePaused)
                    <==> tick_size >= MIN_TICK_SIZE && min_order_size >= MIN_ORDER_SIZE
                        && old(exchange).paused)
                &&& (r == Err::<OrderBook, ExchangeError>(ExchangeError::Overflow)
                    <==> tick_size >= MIN_TICK_SIZE && min_order_size >= MIN_ORDER_SIZE
                        && !old(exchange).paused && old(exchange).total_markets == u64::MAX)
            },
            r is Ok <==> caller == old(exchange).authority && tick_size >= MIN_TICK_SIZE
                && min_order_size >= MIN_ORDER_SIZE && !old(exchange).paused && old(
            exchange,
            ).total_markets < u64::MAX,
            r is Err ==> *final(exchange) == *old(exchange),
            r matches Ok(b) ==> {
                &&& b.wf()
                &&& *final(exchange) == (Exchange {
                    total_markets: (old(exchange).total_markets + 1) as u64,
                    ..*old(exchange)
                })
                &&& b.exchange == exchange_id
                &&& b.base_mint == base_mint
                &&& b.quote_mint == quote_mint
                &&& b.base_vault.balance == 0
                &&& b.quote_vault.balance == 0
                &&& b.tick_size == tick_size
                &&& b.min_order_size == min_order_size
                &&& b.next_order_id == 1
                &&& b.next_trade_id == 1
                &&& b.total_orders == 0
                &&& b.total_volume == 0
                &&& b.last_price == 0
                &&& b.is_active
                &&& b.orders@.len() == 0
            },
    {
        if caller != exchange.authority {
            return Err(ExchangeError::Unauthorized);
        }
        if tick_size < MIN_TICK_SIZE {
            return Err(ExchangeError::InvalidPrice);
        }
        if min_order_size < MIN_ORDER_SIZE {
            return Err(ExchangeError::InvalidQuantity);
        }
        if exchange.paused {
            return Err(ExchangeError::ExchangePaused);
        }
        let new_markets = match exchange.total_markets.checked_add(1) {
            Some(n) => n,
            None => {
                return Err(ExchangeError::Overflow);
            }
        };
        exchange.total_markets = new_markets;
        Ok(OrderBook {
            exchange: exchange_id,
            base_mint,
            quote_mint,
            base_vault: Vault::new(AssetKind::Token),
            quote_vault: Vault::new(AssetKind::Native),
            tick_size,
            min_order_size,
            next_order_id: 1,
            next_trade_id: 1,
            total_orders: 0,
            total_volume: 0,
            last_price: 0,
            is_active: true,
            orders: Vec::new(),
        })
    }

    /// Finds the index of the order carrying `order_id`.
    pub fn find_order(&self, order_id: u64) -> (r: Option<usize>)
        requires
            self.wf(),
        ensures
            r is None <==> !has_order(self.orders@, order_id),
            r matches Some(i) ==> 0 <= i < self.orders@.len()
                && self.orders@[i as int].order_id == order_id
                && i == idx_of(self.orders@, order_id),
    {
        let n = self.orders.len();
        let mut i: usize = 0;
        while i < n
            invariant
                self.wf(),
                n == self.orders@.len(),
                0 <= i <= n,
                forall|j: int| 0 <= j < i ==> self.orders@[j].order_id != order_id,
            decreases n - i,
        {
            if self.orders[i].order_id == order_id {
                proof {
                    let k = idx_of(self.orders@, order_id);
                    assert(0 <= k < self.orders@.len() && self.orders@[k].order_id == order_id);
                    if k != i as int {
                        assert(self.orders@[k].order_id != self.orders@[i as int].order_id);
                    }
                }
                return Some(i);
            }
            i = i + 1;
        }
        None
    }

    /// Places a limit order: validates the price and size rules, locks the
    /// required asset in the matching vault (the full quantity of the base
    /// asset for an ask, `price * quantity` of the quote currency for a
    /// bid), and appends the order to the book under a fresh id.
    pub fn place_limit_order(
        &mut self,
        exchange: &Exchange,
        trader: u64,
        side: OrderSide,
        price: u64,
        quantity: u64,
        now: i64,
        trader_base: &mut u64,
        trader_quote: &mut u64,
    ) -> (r: Result<u64, ExchangeError>)
        requires
            old(self).wf(),
        ensures
            final(self).wf(),
            r == Err::<u64, ExchangeError>(ExchangeError::OrderBookInactive)
                <==> !old(self).is_active,
            old(self).is_active ==> {
                &&& (r == Err::<u64, ExchangeError>(ExchangeError::ExchangePaused)
                    <==> exchange.paused)
                &&& (r == Err::<u64, ExchangeError>(ExchangeError::QuantityBelowMinimum)
                    <==> !exchange.paused && quantity < old(self).min_order_size)
                &&& (r == Err::<u64, ExchangeError>(ExchangeError::InvalidPrice)
                    <==> !exchange.paused && quantity >= old(self).min_order_size && price == 0)
                &&& (r == Err::<u64, ExchangeError>(ExchangeError::PriceNotAlignedToTickSize)
                    <==> !exchange.paused && quantity >= old(self).min_order_size && price > 0
                        && price % old(self).tick_size != 0)
                &&& !exchange.paused && quantity >= old(self).min_order_size && price > 0
                    && price % old(self).tick_size == 0 ==> {
                    let amount = if side == OrderSide::Ask {
                        quantity as int
                    } else {
                        price * quantity
                    };
                    let source = if side == OrderSide::Ask {
                        *old(trader_base) as int
                    } else {
                        *old(trader_quote) as int
                    };
                    let vault = if side == OrderSide::Ask {
                        old(self).base_vault.balance as int
                    } else {
                        old(self).quote_vault.balance as int
                    };
                    &&& (r == Err::<u64, ExchangeError>(ExchangeError::Overflow)
                        <==> old(self).next_order_id == u64::MAX || old(self).total_orders
                            == u64::MAX || amount > u64::MAX || (amount <= u64::MAX && source
                            >= amount && vault + amount > u64::MAX))
                    &&& (r == Err::<u64, ExchangeError>(ExchangeError::InsufficientFunds)
                        <==> old(self).next_order_id < u64::MAX && old(self).total_orders
                            < u64::MAX && amount <= u64::MAX && source < amount)
                    &&& (r is Ok <==> old(self).next_order_id < u64::MAX && old(self).total_orders
                        < u64::MAX && amount <= u64::MAX && source >= amount && vault + amount
                        <= u64::MAX)
                }
            },
            r is Err ==> *final(self) == *old(self) && *final(trader_base) == *old(trader_base)
                && *final(trader_quote) == *old(trader_quote),
            r matches Ok(id) ==> {
                &&& id == old(self).next_order_id
                &&& final(self).orders@ == old(self).orders@.push(
                    (Order {
                        trader,
                        order_id: old(self).next_order_id,
                        side,
                        order_type: OrderType::Limit,
                        price,
                        quantity,
                        filled_quantity: 0,
                        timestamp: now,
                        is_active: true,
                    }),
                )
                &&& final(self).next_order_id == old(self).next_order_id + 1
                &&& final(self).total_orders == old(self).total_orders + 1
                &&& final(self).same_config(*old(self))
                &&& final(self).next_trade_id == old(self).next_trade_id
                &&& final(self).total_volume == old(self).total_volume
                &&& final(self).last_price == old(self).last_price
                &&& side == OrderSide::Ask ==> {
                    &&& final(self).base_vault.balance == old(self).base_vault.balance + quantity
                    &&& *final(trader_base) == *old(trader_base) - quantity
                    &&& final(self).quote_vault == old(self).quote_vault
                    &&& *final(trader_quote) == *old(trader_quote)
                }
                &&& side == OrderSide::Bid ==> {
                    &&& final(self).quote_vault.balance == old(self).quote_vault.balance + price
                        * quantity
                    &&& *final(trader_quote) == *old(trader_quote) - price * quantity
                    &&& final(self).base_vault == old(self).base_vault
                    &&& *final(trader_base) == *old(trader_base)
                }
            },
    {
        if !self.is_active {
            return Err(ExchangeError::OrderBookInactive);
        }
        if exchange.paused {
            return Err(ExchangeError::ExchangePaused);
        }
        if quantity < self.min_order_size {
            return Err(ExchangeError::QuantityBelowMinimum);
        }
        if price == 0 {
            return Err(ExchangeError::InvalidPrice);
        }
        if price % self.tick_size != 0 {
            return Err(ExchangeError::PriceNotAlignedToTickSize);
        }
        // Reserve the fresh id and the counter increment before locking,
        // so that a failure leaves no partial state behind.
        let order_id = self.next_order_id;
        let new_next_id = match self.next_order_id.checked_add(1) {
            Some(n) => n,
            None => {
                return Err(ExchangeError::Overflow);
            }
        };
        let new_total = match self.total_orders.checked_add(1) {
            Some(n) => n,
            None => {
                return Err(ExchangeError::Overflow);
            }
        };
        match side {
            OrderSide::Ask => {
                match self.base_vault.lock(trader_base, quantity) {
                    Ok(()) => {}
                    Err(e) => {
                        return Err(map_vault_error(e));
                    }
                }
            }
            OrderSide::Bid => {
                let notional = match price.checked_mul(quantity) {
                    Some(n) => n,
                    None => {
                        return Err(ExchangeError::Overflow);
                    }
                };
                match self.quote_vault.lock(trader_quote, notional) {
                    Ok(()) => {}
                    Err(e) => {
                        return Err(map_vault_error(e));
                    }
                }
            }
        }
        let order = Order {
            trader,
            order_id,
            side,
            order_type: OrderType::Limit,
            price,
            quantity,
            filled_quantity: 0,
            timestamp: now,
            is_active: true,
        };
        proof {
            lemma_count_active_push(self.orders@, order);
        }
        self.orders.push(order);
        self.next_order_id = new_next_id;
        self.total_orders = new_total;
        Ok(order_id)
    }
    /// Cancels an order: only its own trader may cancel, and only while it
    /// is active. The unfilled remainder is refunded exactly — the
    /// remaining quantity of the base asset for an ask, `price` times the
    /// remaining quantity of the quote currency for a bid — and the order
    /// becomes inactive.
    pub fn cancel_order(
        &mut self,
        caller: u64,
        order_id: u64,
        trader_base: &mut u64,
        trader_quote: &mut u64,
    ) -> (r: Result<(), ExchangeError>)
        requires
            old(self).wf(),
        ensures
            final(self).wf(),
            r == Err::<(), ExchangeError>(ExchangeError::OrderBookInactive)
                <==> !old(self).is_active,
            old(self).is_active ==> {
                &&& (r == Err::<(), ExchangeError>(ExchangeError::OrderNotFound)
                    <==> !has_order(old(self).orders@, order_id))
                &&& (r == Err::<(), ExchangeError>(ExchangeError::UnauthorizedOrderModification)
                    <==> has_order(old(self).orders@, order_id)
                        && order_by_id(old(self).orders@, order_id).trader != caller)
                &&& (r == Err::<(), ExchangeError>(ExchangeError::CannotCancelInactiveOrder)
                    <==> has_order(old(self).orders@, order_id)
                        && order_by_id(old(self).orders@, order_id).trader == caller
                        && !order_by_id(old(self).orders@, order_id).is_active)
                &&& has_order(old(self).orders@, order_id)
                    && order_by_id(old(self).orders@, order_id).trader == caller
                    && order_by_id(old(self).orders@, order_id).is_active ==> {
                    let o = order_by_id(old(self).orders@, order_id);
                    let refund = if o.side == OrderSide::Ask {
                        o.unfilled()
                    } else {
                        o.price * o.unfilled()
                    };
                    let vault = if o.side == OrderSide::Ask {
                        old(self).base_vault.balance as int
                    } else {
                        old(self).quote_vault.balance as int
                    };
                    let destination = if o.side == OrderSide::Ask {
                        *old(trader_base) as int
                    } else {
                        *old(trader_quote) as int
                    };
                    &&& (r == Err::<(), ExchangeError>(ExchangeError::Overflow)
                        <==> refund > u64::MAX || (refund <= u64::MAX && vault >= refund
                            && destination + refund > u64::MAX))
                    &&& (r == Err::<(), ExchangeError>(ExchangeError::InsufficientFunds)
                        <==> refund <= u64::MAX && vault < refund)
                    &&& (r is Ok <==> refund <= u64::MAX && vault >= refund && destination + refund
                        <= u64::MAX)
                }
            },
            r is Err ==> *final(self) == *old(self) && *final(trader_base) == *old(trader_base)
                && *final(trader_quote) == *old(trader_quote),
            r is Ok ==> {
                let o = order_by_id(old(self).orders@, order_id);
                &&& final(self).orders@ == old(self).orders@.update(
                    idx_of(old(self).orders@, order_id),
                    (Order { is_active: false, ..o }),
                )
                &&& final(self).total_orders == old(self).total_orders - 1
                &&& final(self).same_config(*old(self))
                &&& final(self).next_order_id == old(self).next_order_id
                &&& final(self).next_trade_id == old(self).next_trade_id
                &&& final(self).total_volume == old(self).total_volume
                &&& final(self).last_price == old(self).last_price
                &&& o.side == OrderSide::Ask ==> {
                    &&& *final(trader_base) == *old(trader_base) + o.unfilled()
                    &&& final(self).base_vault.balance == old(self).base_vault.balance
                        - o.unfilled()
                    &&& final(self).quote_vault == old(self).quote_vault
                    &&& *final(trader_quote) == *old(trader_quote)
                }
                &&& o.side == OrderSide::Bid ==> {
                    &&& *final(trader_quote) == *old(trader_quote) + o.price * o.unfilled()
                    &&& final(self).quote_vault.balance == old(self).quote_vault.balance - o.price
                        * o.unfilled()
                    &&& final(self).base_vault == old(self).base_vault
                    &&& *final(trader_base) == *old(trader_base)
                }
            },
    {
        if !self.is_active {
            return Err(ExchangeError::OrderBookInactive);
        }
        let i = match self.find_order(order_id) {
            Some(i) => i,
            None => {
                return Err(ExchangeError::OrderNotFound);
            }
        };
        let o = self.orders[i];
        if o.trader != caller {
            return Err(ExchangeError::UnauthorizedOrderModification);
        }
        if !o.is_active {
            return Err(ExchangeError::CannotCancelInactiveOrder);
        }
        let unfilled = o.quantity - o.filled_quantity;
        match o.side {
            OrderSide::Ask => {
                match self.base_vault.release(trader_base, unfilled) {
                    Ok(()) => {}
                    Err(e) => {
                        return Err(map_vault_error(e));
                    }
                }
            }
            OrderSide::Bid => {
                let refund = match o.price.checked_mul(unfilled) {
                    Some(n) => n,
                    None => {
                        return Err(ExchangeError::Overflow);
                    }
                };
                match self.quote_vault.release(trader_quote, refund) {
                    Ok(()) => {}
                    Err(e) => {
                        return Err(map_vault_error(e));
                    }
                }
            }
        }
        proof {
            lemma_count_active_update(self.orders@, i as int, Order { is_active: false, ..o });
            lemma_count_active_nonneg(self.orders@.update(
                i as int,
                Order { is_active: false, ..o },
            ));
        }
        self.orders.set(i, Order { is_active: false, ..o });
        self.total_orders = self.total_orders - 1;
        Ok(())
    }

    /// Modifies an order's price and/or quantity, only while nothing has
    /// been filled; a partially filled order is rejected as already
    /// filled. The new values obey the same rules as at placement, and
    /// the order's timestamp moves to `now`, sending it to the back of
    /// the time-priority queue at its price level.
    pub fn modify_order(
        &mut self,
        caller: u64,
        order_id: u64,
        new_price: Option<u64>,
        new_quantity: Option<u64>,
        now: i64,
    ) -> (r: Result<(), ExchangeError>)
        requires
            old(self).wf(),
        ensures
            final(self).wf(),
            r == Err::<(), ExchangeError>(ExchangeError::OrderBookInactive)
                <==> !old(self).is_active,
            old(self).is_active ==> {
                let found = has_order(old(self).orders@, order_id);
                let o = order_by_id(old(self).orders@, order_id);
                &&& (r == Err::<(), ExchangeError>(ExchangeError::OrderNotFound) <==> !found)
                &&& (r == Err::<(), ExchangeError>(ExchangeError::UnauthorizedOrderModification)
                    <==> found && o.trader != caller)
                &&& (r == Err::<(), ExchangeError>(ExchangeError::CannotCancelInactiveOrder)
                    <==> found && o.trader == caller && !o.is_active)
                &&& (r == Err::<(), ExchangeError>(ExchangeError::OrderAlreadyFilled)
                    <==> found && o.trader == caller && o.is_active && o.filled_quantity > 0)
                &&& found && o.trader == caller && o.is_active && o.filled_quantity == 0 ==> {
                    &&& (r == Err::<(), ExchangeError>(ExchangeError::InvalidPrice)
                        <==> (new_price matches Some(p) && p == 0))
                    &&& (r == Err::<(), ExchangeError>(ExchangeError::PriceNotAlignedToTickSize)
                        <==> (new_price matches Some(p) && p > 0 && p % old(self).tick_size != 0))
                    &&& (r == Err::<(), ExchangeError>(ExchangeError::QuantityBelowMinimum)
                        <==> ((new_price is None || (new_price matches Some(p) && p > 0 && p % old(
                            self,
                        ).tick_size == 0)) && (new_quantity matches Some(q) && q < old(
                            self,
                        ).min_order_size)))
                }
            },
            r is Ok <==> old(self).is_active && has_order(old(self).orders@, order_id)
                && order_by_id(old(self).orders@, order_id).trader == caller
                && order_by_id(old(self).orders@, order_id).is_active
                && order_by_id(old(self).orders@, order_id).filled_quantity == 0
                && (new_price matches Some(p) ==> p > 0 && p % old(self).tick_size == 0)
                && (new_quantity matches Some(q) ==> q >= old(self).min_order_size),
            r is Err ==> *final(self) == *old(self),
            r is Ok ==> {
                let o = order_by_id(old(self).orders@, order_id);
                &&& final(self).orders@ == old(self).orders@.update(
                    idx_of(old(self).orders@, order_id),
                    (Order {
                        price: if new_price is Some {
                            new_price->0
                        } else {
                            o.price
                        },
                        quantity: if new_quantity is Some {
                            new_quantity->0
                        } else {
                            o.quantity
                        },
                        timestamp: now,
                        ..o
                    }),
                )
                &&& *final(self) == (OrderBook {
                    orders: final(self).orders,
                    ..*old(self)
                })
            },
    {
        if !self.is_active {
            return Err(ExchangeError::OrderBookInactive);
        }
        let i = match self.find_order(order_id) {
            Some(i) => i,
            None => {
                return Err(ExchangeError::OrderNotFound);
            }
        };
        let o = self.orders[i];
        if o.trader != caller {
            return Err(ExchangeError::UnauthorizedOrderModification);
        }
        if !o.is_active {
            return Err(ExchangeError::CannotCancelInactiveOrder);
        }
        if o.filled_quantity > 0 {
            return Err(ExchangeError::OrderAlreadyFilled);
        }
        // Validate both updates before applying either, so that a
        // rejection leaves the order untouched.
        let price = match new_price {
            Some(p) => {
                if p == 0 {
                    return Err(ExchangeError::InvalidPrice);
                }
                if p % self.tick_size != 0 {
                    return Err(ExchangeError::PriceNotAlignedToTickSize);
                }
                p
            }
            None => o.price,
        };
        let quantity = match new_quantity {
            Some(q) => {
                if q < self.min_order_size {
                    return Err(ExchangeError::QuantityBelowMinimum);
                }
                q
            }
            None => o.quantity,
        };
        let updated = Order { price, quantity, timestamp: now, ..o };
        proof {
            lemma_count_active_update(self.orders@, i as int, updated);
        }
        self.orders.set(i, updated);
        Ok(())
    }

    /// Executes a market order as an immediate two-leg transfer at the
    /// book's last traded price, without creating a resting order: the
    /// buyer pays `last_price * quantity` of the quote currency into the
    /// quote vault and receives the quantity of the base asset from the
    /// base vault; a seller moves the opposite way. Requires a known
    /// reference price and rejects a notional above the caller's cap.
    pub fn place_market_order(
        &mut self,
        exchange: &Exchange,
        trading_account: &mut TradingAccount,
        side: OrderSide,
        quantity: u64,
        max_quote_amount: u64,
        trader_base: &mut u64,
        trader_quote: &mut u64,
    ) -> (r: Result<(), ExchangeError>)
        requires
            old(self).wf(),
        ensures
            final(self).wf(),
            r == Err::<(), ExchangeError>(ExchangeError::OrderBookInactive)
                <==> !old(self).is_active,
            old(self).is_active ==> {
                &&& (r == Err::<(), ExchangeError>(ExchangeError::ExchangePaused)
                    <==> exchange.paused)
                &&& (r == Err::<(), ExchangeError>(ExchangeError::InvalidQuantity)
                    <==> !exchange.paused && quantity == 0)
                &&& (r == Err::<(), ExchangeError>(ExchangeError::MarketOrderCannotBeFilled)
                    <==> !exchange.paused && quantity > 0 && old(self).last_price == 0)
                &&& !exchange.paused && quantity > 0 && old(self).last_price > 0 ==> {
                    let notional = old(self).last_price * quantity;
                    &&& notional > u64::MAX ==> r == Err::<(), ExchangeError>(
                        ExchangeError::Overflow,
                    )
                    &&& (r == Err::<(), ExchangeError>(ExchangeError::MaxQuoteAmountExceeded)
                        <==> notional <= u64::MAX && notional > max_quote_amount)
                    &&& notional <= max_quote_amount ==> {
                        let pay_short = if side == OrderSide::Bid {
                            *old(trader_quote) < notional
                        } else {
                            *old(trader_base) < quantity
                        };
                        let vault_credit_over = if side == OrderSide::Bid {
                            old(self).quote_vault.balance + notional > u64::MAX
                        } else {
                            old(self).base_vault.balance + quantity > u64::MAX
                        };
                        let vault_short = if side == OrderSide::Bid {
                            old(self).base_vault.balance < quantity
                        } else {
                            old(self).quote_vault.balance < notional
                        };
                        let receive_over = if side == OrderSide::Bid {
                            *old(trader_base) + quantity > u64::MAX
                        } else {
                            *old(trader_quote) + notional > u64::MAX
                        };
                        let counters_over = old(trading_account).total_trades == u64::MAX || old(
                            trading_account,
                        ).total_volume + quantity > u64::MAX;
                        &&& (r == Err::<(), ExchangeError>(ExchangeError::InsufficientFunds)
                            <==> pay_short || (!vault_credit_over && vault_short))
                        &&& (r == Err::<(), ExchangeError>(ExchangeError::Overflow)
                            <==> !pay_short && (vault_credit_over || (!vault_short && (
                            receive_over || counters_over))))
                        &&& (r is Ok <==> !pay_short && !vault_credit_over && !vault_short
                            && !receive_over && !counters_over)
                    }
                }
            },
            r is Err ==> *final(self) == *old(self) && *final(trader_base) == *old(trader_base)
                && *final(trader_quote) == *old(trader_quote) && *final(trading_account) == *old(
                trading_account,
            ),
            r is Ok ==> {
                let notional = old(self).last_price * quantity;
                &&& notional <= max_quote_amount
                &&& *final(trading_account) == (TradingAccount {
                    total_trades: (old(trading_account).total_trades + 1) as u64,
                    total_volume: (old(trading_account).total_volume + quantity) as u64,
                    ..*old(trading_account)
                })
                &&& final(self).orders@ == old(self).orders@
                &&& final(self).same_config(*old(self))
                &&& final(self).next_order_id == old(self).next_order_id
                &&& final(self).next_trade_id == old(self).next_trade_id
                &&& final(self).total_orders == old(self).total_orders
                &&& final(self).total_volume == old(self).total_volume
                &&& final(self).last_price == old(self).last_price
                &&& side == OrderSide::Bid ==> {
                    &&& *final(trader_quote) == *old(trader_quote) - notional
                    &&& final(self).quote_vault.balance == old(self).quote_vault.balance + notional
                    &&& final(self).base_vault.balance == old(self).base_vault.balance - quantity
                    &&& *final(trader_base) == *old(trader_base) + quantity
                }
                &&& side == OrderSide::Ask ==> {
                    &&& *final(trader_base) == *old(trader_base) - quantity
                    &&& final(self).base_vault.balance == old(self).base_vault.balance + quantity
                    &&& final(self).quote_vault.balance == old(self).quote_vault.balance - notional
                    &&& *final(trader_quote) == *old(trader_quote) + notional
                }
            },
    {
        if !self.is_active {
            return Err(ExchangeError::OrderBookInactive);
        }
        if exchange.paused {
            return Err(ExchangeError::ExchangePaused);
        }
        if quantity == 0 {
            return Err(ExchangeError::InvalidQuantity);
        }
        if self.last_price == 0 {
            return Err(ExchangeError::MarketOrderCannotBeFilled);
        }
        let price = self.last_price;
        let notional = match price.checked_mul(quantity) {
            Some(n) => n,
            None => {
                return Err(ExchangeError::Overflow);
            }
        };
        if notional > max_quote_amount {
            return Err(ExchangeError::MaxQuoteAmountExceeded);
        }
        // Check every leg and counter before moving anything, so that a
        // failure on a later leg cannot leave an earlier leg applied.
        match side {
            OrderSide::Bid => {
                if *trader_quote < notional {
                    return Err(ExchangeError::InsufficientFunds);
                }
                if u64::MAX - notional < self.quote_vault.balance {
                    return Err(ExchangeError::Overflow);
                }
                if self.base_vault.balance < quantity {
                    return Err(ExchangeError::InsufficientFunds);
                }
                if u64::MAX - quantity < *trader_base {
                    return Err(ExchangeError::Overflow);
                }
            }
            OrderSide::Ask => {
                if *trader_base < quantity {
                    return Err(ExchangeError::InsufficientFunds);
                }
                if u64::MAX - quantity < self.base_vault.balance {
                    return Err(ExchangeError::Overflow);
                }
                if self.quote_vault.balance < notional {
                    return Err(ExchangeError::InsufficientFunds);
                }
                if u64::MAX - notional < *trader_quote {
                    return Err(ExchangeError::Overflow);
                }
            }
        }
        let new_trades = match trading_account.total_trades.checked_add(1) {
            Some(n) => n,
            None => {
                return Err(ExchangeError::Overflow);
            }
        };
        let new_volume = match trading_account.total_volume.checked_add(quantity) {
            Some(n) => n,
            None => {
                return Err(ExchangeError::Overflow);
            }
        };
        match side {
            OrderSide::Bid => {
                let pay = self.quote_vault.lock(trader_quote, notional);
                assert(pay is Ok);
                let receive = self.base_vault.release(trader_base, quantity);
                assert(receive is Ok);
            }
            OrderSide::Ask => {
                let pay = self.base_vault.lock(trader_base, quantity);
                assert(pay is Ok);
                let receive = self.quote_vault.release(trader_quote, notional);
                assert(receive is Ok);
            }
        }
        trading_account.total_trades = new_trades;
        trading_account.total_volume = new_volume;
        Ok(())
    }

    /// Deactivates the book: only the exchange authority may close it, and
    /// only once no active orders remain.
    pub fn close_order_book(&mut self, caller: u64, exchange: &Exchange) -> (r: Result<(), ExchangeError>)
        requires
            old(self).wf(),
        ensures
            final(self).wf(),
            r == Err::<(), ExchangeError>(ExchangeError::Unauthorized)
                <==> caller != exchange.authority,
            r == Err::<(), ExchangeError>(ExchangeError::OrderBookInactive)
                <==> caller == exchange.authority && old(self).total_orders != 0,
            r is Ok <==> caller == exchange.authority && old(self).total_orders == 0,
            r is Err ==> *final(self) == *old(self),
            r is Ok ==> *final(self) == (OrderBook { is_active: false, ..*old(self) }),
    {
        if caller != exchange.authority {
            return Err(ExchangeError::Unauthorized);
        }
        if self.total_orders != 0 {
            return Err(ExchangeError::OrderBookInactive);
        }
        self.is_active = false;
        Ok(())
    }
}

/// Maps a custody-layer failure onto the exchange error taxonomy.
pub fn map_vault_error(e: crate::vault::VaultError) -> (r: ExchangeError)
    ensures
        e == crate::vault::VaultError::InsufficientFunds ==> r
            == ExchangeError::InsufficientFunds,
        e == crate::vault::VaultError::Overflow ==> r == ExchangeError::Overflow,
{
    match e {
        crate::vault::VaultError::InsufficientFunds => ExchangeError::InsufficientFunds,
        crate::vault::VaultError::Overflow => ExchangeError::Overflow,
    }
}

} // verus!
