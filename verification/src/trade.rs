//! Trade records and settlement.
//!
//! A trade is the immutable record of one match. Settlement happens
//! exactly once per trade: it marks the record settled, performs the
//! custody transfers implied by the match — the base quantity to the
//! buyer, the notional net of fees to the seller, the fees to the fee
//! collector — and updates the book's aggregate statistics, all as one
//! indivisible unit.

use vstd::prelude::*;
use crate::book::OrderBook;
use crate::exchange::ExchangeError;

verus! {

/// An immutable record of one match between a resting (maker) order and a
/// crossing (taker) order. `settled` moves from `false` to `true` once and
/// never reverts.
#[derive(Clone, Copy, PartialEq, Eq, Structural, Debug)]
pub struct Trade {
    pub trade_id: u64,
    pub maker_order_id: u64,
    pub taker_order_id: u64,
    pub maker: u64,
    pub taker: u64,
    pub price: u64,
    pub quantity: u64,
    pub maker_fee: u64,
    pub taker_fee: u64,
    pub timestamp: i64,
    pub settled: bool,
}

impl Trade {
    /// The quote-side value of the match.
    pub open spec fn notional(self) -> int {
        self.price * self.quantity
    }

    /// Well-formedness of a trade produced by the matching engine: a
    /// positive price and quantity, a notional that fits the machine
    /// word, and fees that never exceed the notional.
    pub open spec fn wf(self) -> bool {
        &&& self.price > 0
        &&& self.quantity > 0
        &&& self.notional() <= u64::MAX
        &&& self.maker_fee + self.taker_fee <= self.notional()
    }

    /// The record after a successful settlement.
    pub open spec fn settled_record(self) -> Trade {
        Trade { settled: true, ..self }
    }

    /// Settles the trade: marks it settled, releases the base quantity
    /// from the book's base vault to the buyer, the notional net of both
    /// fees from the quote vault to the seller, and the fees to the fee
    /// collector, then adds the quantity to the book's cumulative volume
    /// and publishes the trade price as the book's last price.
    ///
    /// A second settlement of the same record fails with
    /// `TradeAlreadySettled` and moves nothing; any custody failure aborts
    /// the whole operation with no partial transfer retained.
    pub fn settle_trade(
        &mut self,
        book: &mut OrderBook,
        buyer_base: &mut u64,
        seller_quote: &mut u64,
        fee_collector: &mut u64,
    ) -> (r: Result<(), ExchangeError>)
        requires
            old(self).wf(),
            old(book).wf(),
        ensures
            final(self).wf(),
            final(book).wf(),
            r == Err::<(), ExchangeError>(ExchangeError::TradeAlreadySettled)
                <==> old(self).settled,
            !old(self).settled ==> {
                let notional = old(self).notional();
                let fees = old(self).maker_fee + old(self).taker_fee;
                &&& (r is Ok <==> old(book).base_vault.balance >= old(self).quantity && *old(
                    buyer_base,
                ) + old(self).quantity <= u64::MAX && old(book).quote_vault.balance >= notional
                    && *old(seller_quote) + (notional - fees) <= u64::MAX && *old(fee_collector)
                    + fees <= u64::MAX && old(book).total_volume + old(self).quantity <= u64::MAX)
                &&& (r == Err::<(), ExchangeError>(ExchangeError::InsufficientFunds)
                    <==> old(book).base_vault.balance < old(self).quantity
                        || (*old(buyer_base) + old(self).quantity <= u64::MAX
                            && old(book).quote_vault.balance < notional))
                &&& (r == Err::<(), ExchangeError>(ExchangeError::Overflow)
                    <==> old(book).base_vault.balance >= old(self).quantity
                        && (*old(buyer_base) + old(self).quantity > u64::MAX
                            || (old(book).quote_vault.balance >= notional
                                && (*old(seller_quote) + (notional - fees) > u64::MAX
                                    || (*old(seller_quote) + (notional - fees) <= u64::MAX
                                        && (*old(fee_collector) + fees > u64::MAX
                                            || (*old(fee_collector) + fees <= u64::MAX
                                                && old(book).total_volume + old(self).quantity
                                                    > u64::MAX)))))))
            },
            r is Err ==> *final(self) == *old(self) && final(book).orders@ == old(book).orders@
                && final(book).total_orders == old(book).total_orders
                && final(book).base_vault == old(book).base_vault
                && final(book).quote_vault == old(book).quote_vault
                && final(book).total_volume == old(book).total_volume
                && final(book).last_price == old(book).last_price
                && final(book).next_order_id == old(book).next_order_id
                && final(book).next_trade_id == old(book).next_trade_id
                && final(book).same_config(*old(book))
                && *final(buyer_base) == *old(buyer_base)
                && *final(seller_quote) == *old(seller_quote)
                && *final(fee_collector) == *old(fee_collector),
            r is Ok ==> {
                let notional = old(self).notional();
                let fees = old(self).maker_fee + old(self).taker_fee;
                &&& *final(self) == old(self).settled_record()
                &&& *final(buyer_base) == *old(buyer_base) + old(self).quantity
                &&& *final(seller_quote) == *old(seller_quote) + (notional - fees)
                &&& *final(fee_collector) == *old(fee_collector) + fees
                &&& final(book).base_vault.balance == old(book).base_vault.balance - old(
                    self,
                ).quantity
                &&& final(book).quote_vault.balance == old(book).quote_vault.balance - notional
                &&& final(book).total_volume == old(book).total_volume + old(self).quantity
                &&& final(book).last_price == old(self).price
                &&& final(book).orders@ == old(book).orders@
                &&& final(book).total_orders == old(book).total_orders
                &&& final(book).next_order_id == old(book).next_order_id
                &&& final(book).next_trade_id == old(book).next_trade_id
                &&& final(book).same_config(*old(book))
            },
    {
        if self.settled {
            return Err(ExchangeError::TradeAlreadySettled);
        }
        let notional = match self.price.checked_mul(self.quantity) {
            Some(n) => n,
            None => {
                // Unreachable for a well-formed trade; the match keeps the
                // checked form of every amount computation.
                return Err(ExchangeError::Overflow);
            }
        };
        let fees = self.maker_fee + self.taker_fee;
        let seller_amount = notional - fees;
        // Check every transfer before performing any, so that no leg is
        // retained when a later leg would fail.
        if book.base_vault.balance < self.quantity {
            return Err(ExchangeError::InsufficientFunds);
        }
        if u64::MAX - self.quantity < *buyer_base {
            return Err(ExchangeError::Overflow);
        }
        if book.quote_vault.balance < notional {
            return Err(ExchangeError::InsufficientFunds);
        }
        if u64::MAX - seller_amount < *seller_quote {
            return Err(ExchangeError::Overflow);
        }
        if u64::MAX - fees < *fee_collector {
            return Err(ExchangeError::Overflow);
        }
        let new_volume = match book.total_volume.checked_add(self.quantity) {
            Some(n) => n,
            None => {
                return Err(ExchangeError::Overflow);
            }
        };
        let base_leg = book.base_vault.release(buyer_base, self.quantity);
        assert(base_leg is Ok);
        let seller_leg = book.quote_vault.release(seller_quote, seller_amount);
        assert(seller_leg is Ok);
        let fee_leg = book.quote_vault.release(fee_collector, fees);
        assert(fee_leg is Ok);
        self.settled = true;
        book.total_volume = new_volume;
        book.last_price = self.price;
        Ok(())
    }
}

/// Settlement is idempotent in effect: a successful settlement yields the
/// settled record, and settling that record again is rejected as already
/// settled with no further transfer — custody moves exactly once per
/// trade. The rejected and unchanged second call is stated by
/// [`Trade::settle_trade`]'s contract for a record whose `settled` flag
/// holds; this lemma pins the record a first success leaves behind.
pub proof fn lemma_settle_exactly_once(t: Trade)
    requires
        !t.settled,
    ensures
        t.settled_record().settled,
        t.settled_record().settled_record() == t.settled_record(),
        t.settled_record() == (Trade { settled: true, ..t }),
{
}

} // verus!
