//! Exchange-wide configuration and per-user trading accounts.

use vstd::prelude::*;

verus! {

/// Hard cap on maker and taker fees, in basis points (10%).
pub const MAX_FEE_BPS: u16 = 1000;

/// Basis points in a whole: fees are `notional * bps / BPS_DENOMINATOR`.
pub const BPS_DENOMINATOR: u64 = 10000;

/// Smallest allowed price increment of an order book.
pub const MIN_TICK_SIZE: u64 = 1;

/// Smallest allowed minimum order size of an order book.
pub const MIN_ORDER_SIZE: u64 = 1;

/// Upper bound on matching iterations per crank invocation.
pub const MAX_CRANK_ITERATIONS: u8 = 10;

/// Fee tier assigned to a fresh trading account.
pub const FEE_TIER_RETAIL: u8 = 0;

#[derive(Clone, Copy, PartialEq, Eq, Structural, Debug)]
pub enum ExchangeError {
    ExchangePaused,
    OrderBookInactive,
    InvalidPrice,
    InvalidQuantity,
    QuantityBelowMinimum,
    PriceNotAlignedToTickSize,
    OrderNotFound,
    UnauthorizedOrderModification,
    InsufficientFunds,
    OrderAlreadyFilled,
    CannotCancelInactiveOrder,
    SelfTradeNotAllowed,
    PostOnlyWouldMatch,
    MarketOrderCannotBeFilled,
    MaxQuoteAmountExceeded,
    Overflow,
    TradeAlreadySettled,
    InvalidFeePercentage,
    Unauthorized,
}

/// Exchange configuration: one per deployment.
#[derive(Clone, Copy, PartialEq, Eq, Structural, Debug)]
pub struct Exchange {
    pub authority: u64,
    pub fee_collector: u64,
    pub maker_fee_bps: u16,
    pub taker_fee_bps: u16,
    pub total_markets: u64,
    pub paused: bool,
}

impl Exchange {
    /// Both configured fee rates respect the hard cap.
    pub open spec fn wf(self) -> bool {
        self.maker_fee_bps <= MAX_FEE_BPS && self.taker_fee_bps <= MAX_FEE_BPS
    }

    /// Creates the exchange configuration; rejects a maker or taker fee
    /// above [`MAX_FEE_BPS`].
    pub fn initialize_exchange(
        authority: u64,
        fee_collector: u64,
        maker_fee_bps: u16,
        taker_fee_bps: u16,
    ) -> (r: Result<Exchange, ExchangeError>)
        ensures
            r is Ok <==> maker_fee_bps <= MAX_FEE_BPS && taker_fee_bps <= MAX_FEE_BPS,
            r is Err ==> r == Err::<Exchange, ExchangeError>(ExchangeError::InvalidFeePercentage),
            r matches Ok(e) ==> e == (Exchange {
                authority,
                fee_collector,
                maker_fee_bps,
                taker_fee_bps,
                total_markets: 0,
                paused: false,
            }),
            r matches Ok(e) ==> e.wf(),
    {
        if !(maker_fee_bps <= MAX_FEE_BPS && taker_fee_bps <= MAX_FEE_BPS) {
            return Err(ExchangeError::InvalidFeePercentage);
        }
        Ok(Exchange {
            authority,
            fee_collector,
            maker_fee_bps,
            taker_fee_bps,
            total_markets: 0,
            paused: false,
        })
    }
}

/// Per-user account tracking cumulative trading activity.
#[derive(Clone, Copy, PartialEq, Eq, Structural, Debug)]
pub struct TradingAccount {
    pub owner: u64,
    pub exchange: u64,
    pub total_trades: u64,
    pub total_volume: u64,
    pub fee_tier: u8,
    pub referrer: Option<u64>,
}

impl TradingAccount {
    /// A fresh trading account at the retail fee tier with no referrer.
    pub fn initialize_trading_account(owner: u64, exchange: u64) -> (r: TradingAccount)
        ensures
            r == (TradingAccount {
                owner,
                exchange,
                total_trades: 0,
                total_volume: 0,
                fee_tier: FEE_TIER_RETAIL,
                referrer: None,
            }),
    {
        TradingAccount {
            owner,
            exchange,
            total_trades: 0,
            total_volume: 0,
            fee_tier: FEE_TIER_RETAIL,
            referrer: None,
        }
    }
}

} // verus!
