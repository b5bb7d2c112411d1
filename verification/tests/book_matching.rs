use exchange_core::book::OrderBook;
use exchange_core::exchange::{Exchange, ExchangeError, TradingAccount};
use exchange_core::order::OrderSide;

fn setup(maker_bps: u16, taker_bps: u16) -> (Exchange, OrderBook) {
    let mut exchange = Exchange::initialize_exchange(1, 2, maker_bps, taker_bps).unwrap();
    let book = OrderBook::initialize_order_book(&mut exchange, 1, 10, 100, 200, 100, 1).unwrap();
    (exchange, book)
}

#[test]
fn exchange_initialize_rejects_high_fee() {
    assert_eq!(Exchange::initialize_exchange(1, 2, 1001, 0), Err(ExchangeError::InvalidFeePercentage));
    assert_eq!(Exchange::initialize_exchange(1, 2, 0, 1001), Err(ExchangeError::InvalidFeePercentage));
}

#[test]
fn order_book_initialize_validation() {
    let mut exchange = Exchange::initialize_exchange(1, 2, 30, 50).unwrap();
    assert_eq!(
        OrderBook::initialize_order_book(&mut exchange, 1, 10, 100, 200, 0, 1),
        Err(ExchangeError::InvalidPrice)
    );
    assert_eq!(
        OrderBook::initialize_order_book(&mut exchange, 1, 10, 100, 200, 100, 0),
        Err(ExchangeError::InvalidQuantity)
    );
    assert_eq!(exchange.total_markets, 0);
    let book = OrderBook::initialize_order_book(&mut exchange, 1, 10, 100, 200, 100, 1).unwrap();
    assert_eq!(exchange.total_markets, 1);
    assert_eq!(book.tick_size, 100);
    assert_eq!(book.next_order_id, 1);
    assert!(book.is_active);
}

#[test]
fn order_book_initialize_requires_authority() {
    let mut exchange = Exchange::initialize_exchange(1, 2, 30, 50).unwrap();
    assert_eq!(
        OrderBook::initialize_order_book(&mut exchange, 9, 10, 100, 200, 100, 1),
        Err(ExchangeError::Unauthorized)
    );
    assert_eq!(exchange.total_markets, 0);
}

#[test]
fn order_book_initialize_rejected_when_paused() {
    let mut exchange = Exchange::initialize_exchange(1, 2, 30, 50).unwrap();
    exchange.paused = true;
    assert_eq!(
        OrderBook::initialize_order_book(&mut exchange, 1, 10, 100, 200, 100, 1),
        Err(ExchangeError::ExchangePaused)
    );
}

#[test]
fn ask_then_bid_match_at_one_crank() {
    // Ask price=1000 qty=5 locks 5 base units; a matching bid locks the
    // notional; one crank produces one trade at price 1000 for the full
    // quantity and deactivates both orders.
    let (exchange, mut book) = setup(0, 0);
    let mut seller_base: u64 = 100;
    let mut seller_quote: u64 = 0;
    let ask_id = book
        .place_limit_order(&exchange, 21, OrderSide::Ask, 1000, 5, 10, &mut seller_base, &mut seller_quote)
        .unwrap();
    assert_eq!(ask_id, 1);
    assert_eq!(seller_base, 95);
    assert_eq!(book.base_vault.balance, 5);

    let mut buyer_base: u64 = 0;
    let mut buyer_quote: u64 = 10_000;
    let bid_id = book
        .place_limit_order(&exchange, 31, OrderSide::Bid, 1000, 5, 11, &mut buyer_base, &mut buyer_quote)
        .unwrap();
    assert_eq!(bid_id, 2);
    assert_eq!(buyer_quote, 5_000);
    assert_eq!(book.quote_vault.balance, 5_000);
    assert_eq!(book.total_orders, 2);

    let trades = book.crank_match_orders(&exchange, 1, 12).unwrap();
    assert_eq!(trades.len(), 1);
    assert_eq!(trades[0].price, 1000);
    assert_eq!(trades[0].quantity, 5);
    assert_eq!(trades[0].maker, 21);
    assert_eq!(trades[0].taker, 31);
    assert!(!trades[0].settled);
    assert_eq!(book.total_orders, 0);
    assert!(!book.orders[0].is_active);
    assert!(!book.orders[1].is_active);
    assert_eq!(book.orders[0].filled_quantity, 5);
    assert_eq!(book.orders[1].filled_quantity, 5);
}

#[test]
fn misaligned_price_rejected_without_lock() {
    let (exchange, mut book) = setup(0, 0);
    let mut base: u64 = 100;
    let mut quote: u64 = 100_000;
    let r = book.place_limit_order(&exchange, 21, OrderSide::Bid, 99, 5, 10, &mut base, &mut quote);
    assert_eq!(r, Err(ExchangeError::PriceNotAlignedToTickSize));
    assert_eq!(base, 100);
    assert_eq!(quote, 100_000);
    assert_eq!(book.orders.len(), 0);
    assert_eq!(book.quote_vault.balance, 0);
    assert_eq!(book.next_order_id, 1);
}

#[test]
fn place_limit_order_validation_errors() {
    let (mut exchange, mut book) = setup(0, 0);
    let mut base: u64 = 100;
    let mut quote: u64 = 100_000;
    assert_eq!(
        book.place_limit_order(&exchange, 21, OrderSide::Bid, 100, 0, 10, &mut base, &mut quote),
        Err(ExchangeError::QuantityBelowMinimum)
    );
    assert_eq!(
        book.place_limit_order(&exchange, 21, OrderSide::Bid, 0, 5, 10, &mut base, &mut quote),
        Err(ExchangeError::InvalidPrice)
    );
    let mut short: u64 = 3;
    assert_eq!(
        book.place_limit_order(&exchange, 21, OrderSide::Ask, 100, 5, 10, &mut short, &mut quote),
        Err(ExchangeError::InsufficientFunds)
    );
    exchange.paused = true;
    assert_eq!(
        book.place_limit_order(&exchange, 21, OrderSide::Bid, 100, 5, 10, &mut base, &mut quote),
        Err(ExchangeError::ExchangePaused)
    );
    exchange.paused = false;
    book.is_active = false;
    assert_eq!(
        book.place_limit_order(&exchange, 21, OrderSide::Bid, 100, 5, 10, &mut base, &mut quote),
        Err(ExchangeError::OrderBookInactive)
    );
}

#[test]
fn modify_partially_filled_order_rejected() {
    let (exchange, mut book) = setup(0, 0);
    let mut seller_base: u64 = 100;
    let mut seller_quote: u64 = 0;
    let ask_id = book
        .place_limit_order(&exchange, 21, OrderSide::Ask, 1000, 5, 10, &mut seller_base, &mut seller_quote)
        .unwrap();
    let mut buyer_base: u64 = 0;
    let mut buyer_quote: u64 = 10_000;
    book.place_limit_order(&exchange, 31, OrderSide::Bid, 1000, 2, 11, &mut buyer_base, &mut buyer_quote)
        .unwrap();
    book.crank_match_orders(&exchange, 1, 12).unwrap();
    assert_eq!(book.orders[0].filled_quantity, 2);
    assert!(book.orders[0].is_active);

    let before = book.orders[0];
    let r = book.modify_order(21, ask_id, Some(1100), Some(4), 13);
    assert_eq!(r, Err(ExchangeError::OrderAlreadyFilled));
    assert_eq!(book.orders[0], before);
}

#[test]
fn modify_order_updates_price_quantity_timestamp() {
    let (exchange, mut book) = setup(0, 0);
    let mut base: u64 = 100;
    let mut quote: u64 = 0;
    let id = book
        .place_limit_order(&exchange, 21, OrderSide::Ask, 1000, 5, 10, &mut base, &mut quote)
        .unwrap();
    book.modify_order(21, id, Some(1100), Some(7), 55).unwrap();
    assert_eq!(book.orders[0].price, 1100);
    assert_eq!(book.orders[0].quantity, 7);
    assert_eq!(book.orders[0].timestamp, 55);
    assert_eq!(
        book.modify_order(21, id, Some(150), None, 56),
        Err(ExchangeError::PriceNotAlignedToTickSize)
    );
    assert_eq!(book.modify_order(21, id, Some(0), None, 56), Err(ExchangeError::InvalidPrice));
    assert_eq!(
        book.modify_order(31, id, Some(1100), None, 56),
        Err(ExchangeError::UnauthorizedOrderModification)
    );
    assert_eq!(book.modify_order(21, 99, None, None, 56), Err(ExchangeError::OrderNotFound));
}

#[test]
fn cancel_bid_refunds_price_times_unfilled() {
    let (exchange, mut book) = setup(0, 0);
    let mut seller_base: u64 = 100;
    let mut seller_quote: u64 = 0;
    book.place_limit_order(&exchange, 21, OrderSide::Ask, 1000, 2, 10, &mut seller_base, &mut seller_quote)
        .unwrap();
    let mut buyer_base: u64 = 0;
    let mut buyer_quote: u64 = 10_000;
    let bid_id = book
        .place_limit_order(&exchange, 31, OrderSide::Bid, 1000, 5, 11, &mut buyer_base, &mut buyer_quote)
        .unwrap();
    assert_eq!(buyer_quote, 5_000);
    // The crank fills 2 of the bid's 5.
    book.crank_match_orders(&exchange, 1, 12).unwrap();
    book.cancel_order(31, bid_id, &mut buyer_base, &mut buyer_quote).unwrap();
    // Refund is exactly price * (quantity - filled) = 1000 * 3.
    assert_eq!(buyer_quote, 8_000);
    assert_eq!(book.total_orders, 0);
}

#[test]
fn cancel_ask_refunds_unfilled_quantity() {
    let (exchange, mut book) = setup(0, 0);
    let mut seller_base: u64 = 100;
    let mut seller_quote: u64 = 0;
    let ask_id = book
        .place_limit_order(&exchange, 21, OrderSide::Ask, 1000, 5, 10, &mut seller_base, &mut seller_quote)
        .unwrap();
    assert_eq!(seller_base, 95);
    book.cancel_order(21, ask_id, &mut seller_base, &mut seller_quote).unwrap();
    assert_eq!(seller_base, 100);
    assert!(!book.orders[0].is_active);
    assert_eq!(book.total_orders, 0);
}

#[test]
fn cancel_order_authorization_and_state_errors() {
    let (exchange, mut book) = setup(0, 0);
    let mut base: u64 = 100;
    let mut quote: u64 = 0;
    let id = book
        .place_limit_order(&exchange, 21, OrderSide::Ask, 1000, 5, 10, &mut base, &mut quote)
        .unwrap();
    assert_eq!(
        book.cancel_order(99, id, &mut base, &mut quote),
        Err(ExchangeError::UnauthorizedOrderModification)
    );
    assert_eq!(book.cancel_order(21, 77, &mut base, &mut quote), Err(ExchangeError::OrderNotFound));
    book.cancel_order(21, id, &mut base, &mut quote).unwrap();
    assert_eq!(
        book.cancel_order(21, id, &mut base, &mut quote),
        Err(ExchangeError::CannotCancelInactiveOrder)
    );
}

#[test]
fn best_price_wins_over_arrival() {
    // Two asks: the later one quotes a better (lower) price and must be
    // matched first despite arriving second.
    let (exchange, mut book) = setup(0, 0);
    let mut s1_base: u64 = 100;
    let mut s1_quote: u64 = 0;
    book.place_limit_order(&exchange, 21, OrderSide::Ask, 1200, 5, 10, &mut s1_base, &mut s1_quote)
        .unwrap();
    let mut s2_base: u64 = 100;
    let mut s2_quote: u64 = 0;
    book.place_limit_order(&exchange, 22, OrderSide::Ask, 1100, 5, 11, &mut s2_base, &mut s2_quote)
        .unwrap();
    let mut b_base: u64 = 0;
    let mut b_quote: u64 = 100_000;
    book.place_limit_order(&exchange, 31, OrderSide::Bid, 1200, 5, 12, &mut b_base, &mut b_quote)
        .unwrap();
    let trades = book.crank_match_orders(&exchange, 1, 13).unwrap();
    assert_eq!(trades.len(), 1);
    // The better-priced ask is the resting maker: the match happens at
    // its price, for its full quantity.
    assert_eq!(trades[0].maker, 22);
    assert_eq!(trades[0].price, 1100);
    assert_eq!(trades[0].quantity, 5);
}

#[test]
fn equal_price_earlier_timestamp_wins() {
    let (exchange, mut book) = setup(0, 0);
    let mut s1_base: u64 = 100;
    let mut s1_quote: u64 = 0;
    book.place_limit_order(&exchange, 21, OrderSide::Ask, 1000, 5, 10, &mut s1_base, &mut s1_quote)
        .unwrap();
    let mut s2_base: u64 = 100;
    let mut s2_quote: u64 = 0;
    book.place_limit_order(&exchange, 22, OrderSide::Ask, 1000, 5, 11, &mut s2_base, &mut s2_quote)
        .unwrap();
    let mut b_base: u64 = 0;
    let mut b_quote: u64 = 100_000;
    book.place_limit_order(&exchange, 31, OrderSide::Bid, 1000, 5, 12, &mut b_base, &mut b_quote)
        .unwrap();
    let trades = book.crank_match_orders(&exchange, 1, 13).unwrap();
    assert_eq!(trades[0].maker, 21);
}

#[test]
fn self_trade_rejected_and_book_unchanged() {
    let (exchange, mut book) = setup(0, 0);
    let mut base: u64 = 100;
    let mut quote: u64 = 100_000;
    book.place_limit_order(&exchange, 21, OrderSide::Ask, 1000, 5, 10, &mut base, &mut quote)
        .unwrap();
    book.place_limit_order(&exchange, 21, OrderSide::Bid, 1000, 5, 11, &mut base, &mut quote)
        .unwrap();
    let before_orders: Vec<_> = book.orders.clone();
    let before_total = book.total_orders;
    let r = book.crank_match_orders(&exchange, 5, 12);
    assert_eq!(r, Err(ExchangeError::SelfTradeNotAllowed));
    assert_eq!(book.orders, before_orders);
    assert_eq!(book.total_orders, before_total);
}

#[test]
fn crank_iteration_cap_enforced() {
    let (exchange, mut book) = setup(0, 0);
    assert_eq!(book.crank_match_orders(&exchange, 11, 10), Err(ExchangeError::Overflow));
    let trades = book.crank_match_orders(&exchange, 10, 10).unwrap();
    assert_eq!(trades.len(), 0);
}

#[test]
fn crank_fee_formula_exact() {
    // maker 30 bps, taker 50 bps on a notional of 5000:
    // maker fee = 5000 * 30 / 10000 = 15, taker fee = 25.
    let (exchange, mut book) = setup(30, 50);
    let mut s_base: u64 = 100;
    let mut s_quote: u64 = 0;
    book.place_limit_order(&exchange, 21, OrderSide::Ask, 1000, 5, 10, &mut s_base, &mut s_quote)
        .unwrap();
    let mut b_base: u64 = 0;
    let mut b_quote: u64 = 10_000;
    book.place_limit_order(&exchange, 31, OrderSide::Bid, 1000, 5, 11, &mut b_base, &mut b_quote)
        .unwrap();
    let trades = book.crank_match_orders(&exchange, 1, 12).unwrap();
    assert_eq!(trades[0].maker_fee, 15);
    assert_eq!(trades[0].taker_fee, 25);
}

#[test]
fn settle_trade_once_and_only_once() {
    let (exchange, mut book) = setup(30, 50);
    let mut s_base: u64 = 100;
    let mut s_quote: u64 = 0;
    book.place_limit_order(&exchange, 21, OrderSide::Ask, 1000, 5, 10, &mut s_base, &mut s_quote)
        .unwrap();
    let mut b_base: u64 = 0;
    let mut b_quote: u64 = 10_000;
    book.place_limit_order(&exchange, 31, OrderSide::Bid, 1000, 5, 11, &mut b_base, &mut b_quote)
        .unwrap();
    let trades = book.crank_match_orders(&exchange, 1, 12).unwrap();
    let mut trade = trades[0];

    let mut fee_collector: u64 = 0;
    trade.settle_trade(&mut book, &mut b_base, &mut s_quote, &mut fee_collector).unwrap();
    assert!(trade.settled);
    assert_eq!(b_base, 5);
    // The seller receives the notional net of both fees.
    assert_eq!(s_quote, 5000 - 15 - 25);
    assert_eq!(fee_collector, 40);
    assert_eq!(book.total_volume, 5);
    assert_eq!(book.last_price, 1000);
    assert_eq!(book.base_vault.balance, 0);
    assert_eq!(book.quote_vault.balance, 0);

    // The second settlement fails and moves nothing.
    let r = trade.settle_trade(&mut book, &mut b_base, &mut s_quote, &mut fee_collector);
    assert_eq!(r, Err(ExchangeError::TradeAlreadySettled));
    assert_eq!(b_base, 5);
    assert_eq!(s_quote, 4960);
    assert_eq!(fee_collector, 40);
    assert_eq!(book.total_volume, 5);
}

#[test]
fn market_order_executes_at_last_price() {
    let (exchange, mut book) = setup(0, 0);
    book.last_price = 1000;
    // Give the book some base liquidity to sell from.
    let mut lp_base: u64 = 100;
    let mut lp_quote: u64 = 0;
    book.place_limit_order(&exchange, 21, OrderSide::Ask, 1000, 10, 10, &mut lp_base, &mut lp_quote)
        .unwrap();
    let mut account = TradingAccount::initialize_trading_account(31, 10);
    let mut b_base: u64 = 0;
    let mut b_quote: u64 = 10_000;
    book.place_market_order(&exchange, &mut account, OrderSide::Bid, 3, 3_000, &mut b_base, &mut b_quote)
        .unwrap();
    assert_eq!(b_base, 3);
    assert_eq!(b_quote, 7_000);
    assert_eq!(account.total_trades, 1);
    assert_eq!(account.total_volume, 3);
    assert_eq!(book.quote_vault.balance, 3_000);
    assert_eq!(book.base_vault.balance, 7);
}

#[test]
fn market_order_validation() {
    let (exchange, mut book) = setup(0, 0);
    let mut account = TradingAccount::initialize_trading_account(31, 10);
    let mut b_base: u64 = 0;
    let mut b_quote: u64 = 10_000;
    assert_eq!(
        book.place_market_order(&exchange, &mut account, OrderSide::Bid, 3, 3_000, &mut b_base, &mut b_quote),
        Err(ExchangeError::MarketOrderCannotBeFilled)
    );
    book.last_price = 1000;
    assert_eq!(
        book.place_market_order(&exchange, &mut account, OrderSide::Bid, 0, 3_000, &mut b_base, &mut b_quote),
        Err(ExchangeError::InvalidQuantity)
    );
    assert_eq!(
        book.place_market_order(&exchange, &mut account, OrderSide::Bid, 3, 2_999, &mut b_base, &mut b_quote),
        Err(ExchangeError::MaxQuoteAmountExceeded)
    );
    assert_eq!(account.total_trades, 0);
}

#[test]
fn close_book_requires_authority_and_empty_book() {
    let (exchange, mut book) = setup(0, 0);
    assert_eq!(book.close_order_book(99, &exchange), Err(ExchangeError::Unauthorized));
    let mut base: u64 = 100;
    let mut quote: u64 = 0;
    let id = book
        .place_limit_order(&exchange, 21, OrderSide::Ask, 1000, 5, 10, &mut base, &mut quote)
        .unwrap();
    assert_eq!(book.close_order_book(1, &exchange), Err(ExchangeError::OrderBookInactive));
    book.cancel_order(21, id, &mut base, &mut quote).unwrap();
    assert_eq!(book.close_order_book(1, &exchange), Ok(()));
    assert!(!book.is_active);
}

#[test]
fn trading_account_initial_state() {
    let account = TradingAccount::initialize_trading_account(31, 10);
    assert_eq!(account.owner, 31);
    assert_eq!(account.exchange, 10);
    assert_eq!(account.total_trades, 0);
    assert_eq!(account.total_volume, 0);
    assert_eq!(account.fee_tier, 0);
    assert_eq!(account.referrer, None);
}

#[test]
fn crank_drains_crossed_book_within_cap() {
    let (exchange, mut book) = setup(0, 0);
    let mut s_base: u64 = 100;
    let mut s_quote: u64 = 0;
    book.place_limit_order(&exchange, 21, OrderSide::Ask, 1000, 4, 10, &mut s_base, &mut s_quote)
        .unwrap();
    book.place_limit_order(&exchange, 22, OrderSide::Ask, 1000, 3, 11, &mut s_base, &mut s_quote)
        .unwrap();
    let mut b_base: u64 = 0;
    let mut b_quote: u64 = 100_000;
    book.place_limit_order(&exchange, 31, OrderSide::Bid, 1000, 7, 12, &mut b_base, &mut b_quote)
        .unwrap();
    let trades = book.crank_match_orders(&exchange, 10, 13).unwrap();
    assert_eq!(trades.len(), 2);
    assert_eq!(trades[0].quantity, 4);
    assert_eq!(trades[1].quantity, 3);
    assert_eq!(book.total_orders, 0);
    // Filled quantities grew by twice the traded quantity in total.
    let filled: u64 = book.orders.iter().map(|o| o.filled_quantity).sum();
    assert_eq!(filled, 14);
}

#[test]
fn bid_notional_overflow_rejected() {
    let mut exchange = Exchange::initialize_exchange(1, 2, 0, 0).unwrap();
    let mut book = OrderBook::initialize_order_book(&mut exchange, 1, 10, 100, 200, 1, 1).unwrap();
    let mut base: u64 = 0;
    let mut quote: u64 = u64::MAX;
    let r = book.place_limit_order(
        &exchange,
        21,
        OrderSide::Bid,
        u64::MAX,
        2,
        10,
        &mut base,
        &mut quote,
    );
    assert_eq!(r, Err(ExchangeError::Overflow));
    assert_eq!(quote, u64::MAX);
    assert_eq!(book.orders.len(), 0);
}

#[test]
fn crank_stops_at_iteration_cap_and_reports_leftover_cross() {
    let (exchange, mut book) = setup(0, 0);
    let mut s_base: u64 = 100;
    let mut s_quote: u64 = 0;
    for (trader, ts) in [(21u64, 10i64), (22, 11), (23, 12)] {
        book.place_limit_order(&exchange, trader, OrderSide::Ask, 1000, 1, ts, &mut s_base, &mut s_quote)
            .unwrap();
    }
    let mut b_base: u64 = 0;
    let mut b_quote: u64 = 100_000;
    book.place_limit_order(&exchange, 31, OrderSide::Bid, 1000, 3, 13, &mut b_base, &mut b_quote)
        .unwrap();
    let trades = book.crank_match_orders(&exchange, 2, 14).unwrap();
    assert_eq!(trades.len(), 2);
    // One ask still crosses the remaining bid quantity.
    assert_eq!(book.total_orders, 2);
    let more = book.crank_match_orders(&exchange, 10, 15).unwrap();
    assert_eq!(more.len(), 1);
    assert_eq!(book.total_orders, 0);
    // Every order respects the fill bound.
    for order in book.orders.iter() {
        assert!(order.filled_quantity <= order.quantity);
    }
}

#[test]
fn market_order_ask_side() {
    let (exchange, mut book) = setup(0, 0);
    book.last_price = 500;
    // Fill the quote vault so the book can pay a seller.
    let mut b_base: u64 = 0;
    let mut b_quote: u64 = 10_000;
    book.place_limit_order(&exchange, 31, OrderSide::Bid, 500, 4, 10, &mut b_base, &mut b_quote)
        .unwrap();
    let mut account = TradingAccount::initialize_trading_account(21, 10);
    let mut s_base: u64 = 10;
    let mut s_quote: u64 = 0;
    book.place_market_order(&exchange, &mut account, OrderSide::Ask, 4, 2_000, &mut s_base, &mut s_quote)
        .unwrap();
    assert_eq!(s_base, 6);
    assert_eq!(s_quote, 2_000);
    assert_eq!(book.base_vault.balance, 4);
    assert_eq!(book.quote_vault.balance, 0);
}
