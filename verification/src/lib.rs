//! A verified trading core: custody vaults, a price-time order book with a
//! bounded matching engine, trade settlement, a bilateral escrow state
//! machine, and the fee and governance policy layers around them.
//!
//! Every amount is a plain `u64` of indivisible units; every party is a
//! plain `u64` account identifier; timestamps are `i64` seconds. All
//! arithmetic on amounts is checked: no operation wraps silently, and every
//! failure path returns a distinguishable error with the state unchanged.

pub mod book;
pub mod codec;
pub mod escrow;
pub mod exchange;
pub mod fees;
pub mod governance;
pub mod matching;
pub mod order;
pub mod trade;
pub mod vault;
