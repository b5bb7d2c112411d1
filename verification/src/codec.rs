//! Fixed-width record layout for the persisted entities.
//!
//! Numeric fields are little-endian fixed-size integers, enums are
//! single-byte tags, booleans a single byte, and signed timestamps are
//! stored with an excess bias so that byte order follows numeric order.
//! Serializing a record and deserializing the bytes yields the identical
//! value; the round trip is proved below.

use vstd::prelude::*;
use vstd::arithmetic::div_mod::{
    lemma_div_denominator, lemma_div_is_ordered, lemma_fundamental_div_mod, lemma_small_mod,
};
use crate::escrow::{EscrowAccount, EscrowStatus};
use crate::order::{Order, OrderSide, OrderType};
use crate::trade::Trade;
use crate::vault::{AssetKind, Vault};

verus! {

/// Serialized width of an [`Order`].
pub const ORDER_BYTES: usize = 51;

/// Serialized width of a [`Trade`].
pub const TRADE_BYTES: usize = 81;

/// Serialized width of an [`EscrowAccount`].
pub const ESCROW_BYTES: usize = 99;

/// The `k`-th little-endian byte of a 64-bit word.
pub open spec fn le_byte(v: u64, k: int) -> u8 {
    if k == 0 {
        (v % 256) as u8
    } else if k == 1 {
        ((v / 256) % 256) as u8
    } else if k == 2 {
        ((v / 65536) % 256) as u8
    } else if k == 3 {
        ((v / 16777216) % 256) as u8
    } else if k == 4 {
        ((v / 4294967296) % 256) as u8
    } else if k == 5 {
        ((v / 1099511627776) % 256) as u8
    } else if k == 6 {
        ((v / 281474976710656) % 256) as u8
    } else {
        ((v / 72057594037927936) % 256) as u8
    }
}

/// The little-endian bytes of a 64-bit word.
pub open spec fn u64_le_bytes(v: u64) -> Seq<u8> {
    Seq::new(8, |k: int| le_byte(v, k))
}

/// The word encoded little-endian at `off` in `s`.
pub open spec fn u64_of_le_at(s: Seq<u8>, off: int) -> int {
    s[off] + 256 * s[off + 1] + 65536 * s[off + 2] + 16777216 * s[off + 3] + 4294967296 * s[off
        + 4] + 1099511627776 * s[off + 5] + 281474976710656 * s[off + 6] + 72057594037927936 * s[off
        + 7]
}

/// A signed timestamp, stored with an excess bias of `2^63`.
pub open spec fn i64_biased(v: i64) -> u64 {
    (v + 9223372036854775808) as u64
}

/// Recombining the little-endian digits of a word gives the word back.
pub proof fn lemma_u64_digits(v: u64)
    ensures
        (v % 256) + 256 * ((v / 256) % 256) + 65536 * ((v / 65536) % 256) + 16777216 * ((v
            / 16777216) % 256) + 4294967296 * ((v / 4294967296) % 256) + 1099511627776 * ((v
            / 1099511627776) % 256) + 281474976710656 * ((v / 281474976710656) % 256)
            + 72057594037927936 * ((v / 72057594037927936) % 256) == v,
{
    let x = v as int;
    lemma_div_denominator(x, 256, 256);
    lemma_div_denominator(x, 65536, 256);
    lemma_div_denominator(x, 16777216, 256);
    lemma_div_denominator(x, 4294967296, 256);
    lemma_div_denominator(x, 1099511627776, 256);
    lemma_div_denominator(x, 281474976710656, 256);
    lemma_fundamental_div_mod(x, 256);
    lemma_fundamental_div_mod(x / 256, 256);
    lemma_fundamental_div_mod(x / 65536, 256);
    lemma_fundamental_div_mod(x / 16777216, 256);
    lemma_fundamental_div_mod(x / 4294967296, 256);
    lemma_fundamental_div_mod(x / 1099511627776, 256);
    lemma_fundamental_div_mod(x / 281474976710656, 256);
    lemma_div_is_ordered(x, u64::MAX as int, 72057594037927936);
    lemma_small_mod((x / 72057594037927936) as nat, 256);
}

/// The word at `off` of a sequence that carries the little-endian bytes
/// of `v` there is `v` itself.
pub proof fn lemma_u64_of_le_at(s: Seq<u8>, off: int, v: u64)
    requires
        0 <= off,
        off + 8 <= s.len(),
        s[off] == u64_le_bytes(v)[0],
        s[off + 1] == u64_le_bytes(v)[1],
        s[off + 2] == u64_le_bytes(v)[2],
        s[off + 3] == u64_le_bytes(v)[3],
        s[off + 4] == u64_le_bytes(v)[4],
        s[off + 5] == u64_le_bytes(v)[5],
        s[off + 6] == u64_le_bytes(v)[6],
        s[off + 7] == u64_le_bytes(v)[7],
    ensures
        u64_of_le_at(s, off) == v,
{
    lemma_u64_digits(v);
}

/// Appends the little-endian bytes of `v`.
pub fn push_u64(out: &mut Vec<u8>, v: u64)
    ensures
        final(out)@ == old(out)@ + u64_le_bytes(v),
{
    out.push((v % 256) as u8);
    out.push(((v / 256) % 256) as u8);
    out.push(((v / 65536) % 256) as u8);
    out.push(((v / 16777216) % 256) as u8);
    out.push(((v / 4294967296) % 256) as u8);
    out.push(((v / 1099511627776) % 256) as u8);
    out.push(((v / 281474976710656) % 256) as u8);
    out.push(((v / 72057594037927936) % 256) as u8);
    proof {
        assert(final(out)@ =~= old(out)@ + u64_le_bytes(v));
    }
}

/// Appends the biased little-endian bytes of a timestamp.
pub fn push_i64(out: &mut Vec<u8>, v: i64)
    ensures
        final(out)@ == old(out)@ + u64_le_bytes(i64_biased(v)),
{
    let biased = ((v as i128) + 9223372036854775808i128) as u64;
    push_u64(out, biased);
}

/// Reads the word encoded little-endian at `offset`.
pub fn parse_u64(data: &Vec<u8>, offset: usize) -> (r: u64)
    requires
        offset + 8 <= data@.len(),
    ensures
        r == u64_of_le_at(data@, offset as int),
{
    let n = data.len();
    let b0 = data[offset] as u64;
    let b1 = data[offset + 1] as u64;
    let b2 = data[offset + 2] as u64;
    let b3 = data[offset + 3] as u64;
    let b4 = data[offset + 4] as u64;
    let b5 = data[offset + 5] as u64;
    let b6 = data[offset + 6] as u64;
    let b7 = data[offset + 7] as u64;
    b0 + 256 * b1 + 65536 * b2 + 16777216 * b3 + 4294967296 * b4 + 1099511627776 * b5
        + 281474976710656 * b6 + 72057594037927936 * b7
}

/// Reads the biased timestamp encoded at `offset`.
pub fn parse_i64(data: &Vec<u8>, offset: usize) -> (r: i64)
    requires
        offset + 8 <= data@.len(),
    ensures
        i64_biased(r) == u64_of_le_at(data@, offset as int),
{
    let biased = parse_u64(data, offset);
    ((biased as i128) - 9223372036854775808i128) as i64
}

/// The tag byte of an order side.
pub open spec fn side_tag(side: OrderSide) -> u8 {
    match side {
        OrderSide::Bid => 0,
        OrderSide::Ask => 1,
    }
}

/// The tag byte of an order type.
pub open spec fn type_tag(t: OrderType) -> u8 {
    match t {
        OrderType::Limit => 0,
        OrderType::Market => 1,
        OrderType::PostOnly => 2,
        OrderType::ImmediateOrCancel => 3,
    }
}

/// The tag byte of an escrow status.
pub open spec fn status_tag(s: EscrowStatus) -> u8 {
    match s {
        EscrowStatus::Pending => 0,
        EscrowStatus::Funded => 1,
        EscrowStatus::Executed => 2,
        EscrowStatus::Cancelled => 3,
        EscrowStatus::Expired => 4,
    }
}

/// The tag byte of an asset kind.
pub open spec fn kind_tag(k: AssetKind) -> u8 {
    match k {
        AssetKind::Token => 0,
        AssetKind::Native => 1,
    }
}

/// The byte of a flag.
pub open spec fn bool_byte(b: bool) -> u8 {
    if b {
        1
    } else {
        0
    }
}

fn emit_side(out: &mut Vec<u8>, side: OrderSide)
    ensures
        final(out)@ == old(out)@ + seq![side_tag(side)],
{
    match side {
        OrderSide::Bid => out.push(0u8),
        OrderSide::Ask => out.push(1u8),
    }
}

fn emit_bool(out: &mut Vec<u8>, b: bool)
    ensures
        final(out)@ == old(out)@ + seq![bool_byte(b)],
{
    if b {
        out.push(1u8);
    } else {
        out.push(0u8);
    }
}

/// The fixed-width serialization of an order.
pub open spec fn order_bytes(o: Order) -> Seq<u8> {
    u64_le_bytes(o.trader) + u64_le_bytes(o.order_id) + seq![side_tag(o.side)] + seq![
        type_tag(o.order_type),
    ] + u64_le_bytes(o.price) + u64_le_bytes(o.quantity) + u64_le_bytes(o.filled_quantity)
        + u64_le_bytes(i64_biased(o.timestamp)) + seq![bool_byte(o.is_active)]
}

/// Serializes an order onto `out`.
pub fn encode_order(o: &Order, out: &mut Vec<u8>)
    ensures
        final(out)@ == old(out)@ + order_bytes(*o),
{
    push_u64(out, o.trader);
    push_u64(out, o.order_id);
    emit_side(out, o.side);
    match o.order_type {
        OrderType::Limit => out.push(0u8),
        OrderType::Market => out.push(1u8),
        OrderType::PostOnly => out.push(2u8),
        OrderType::ImmediateOrCancel => out.push(3u8),
    }
    push_u64(out, o.price);
    push_u64(out, o.quantity);
    push_u64(out, o.filled_quantity);
    push_i64(out, o.timestamp);
    emit_bool(out, o.is_active);
    proof {
        assert(final(out)@ =~= old(out)@ + order_bytes(*o));
    }
}

/// Whether the bytes at `off` carry a well-formed order record: the two
/// tag bytes and the flag byte lie in their ranges.
pub open spec fn order_bytes_valid(s: Seq<u8>, off: int) -> bool {
    &&& off + ORDER_BYTES <= s.len()
    &&& s[off + 16] <= 1
    &&& s[off + 17] <= 3
    &&& s[off + 50] <= 1
}

/// The order whose record stands at `off` (meaningful when
/// [`order_bytes_valid`] holds).
pub open spec fn order_of_bytes(s: Seq<u8>, off: int) -> Order {
    Order {
        trader: u64_of_le_at(s, off) as u64,
        order_id: u64_of_le_at(s, off + 8) as u64,
        side: if s[off + 16] == 0 {
            OrderSide::Bid
        } else {
            OrderSide::Ask
        },
        order_type: if s[off + 17] == 0 {
            OrderType::Limit
        } else if s[off + 17] == 1 {
            OrderType::Market
        } else if s[off + 17] == 2 {
            OrderType::PostOnly
        } else {
            OrderType::ImmediateOrCancel
        },
        price: u64_of_le_at(s, off + 18) as u64,
        quantity: u64_of_le_at(s, off + 26) as u64,
        filled_quantity: u64_of_le_at(s, off + 34) as u64,
        timestamp: (u64_of_le_at(s, off + 42) - 9223372036854775808) as i64,
        is_active: s[off + 50] == 1,
    }
}

/// Deserializes the order record at `offset`; `None` exactly when the
/// record does not fit or a tag byte is out of range.
pub fn decode_order(data: &Vec<u8>, offset: usize) -> (r: Option<(Order, usize)>)
    requires
        offset + ORDER_BYTES <= usize::MAX,
    ensures
        r is Some <==> order_bytes_valid(data@, offset as int),
        r matches Some((o, next)) ==> o == order_of_bytes(data@, offset as int) && next == offset
            + ORDER_BYTES,
    {
        if data.len() < ORDER_BYTES || offset > data.len() - ORDER_BYTES {
            return None;
        }
        let side_byte = data[offset + 16];
        if side_byte > 1 {
            return None;
        }
        let type_byte = data[offset + 17];
        if type_byte > 3 {
            return None;
        }
        let flag_byte = data[offset + 50];
        if flag_byte > 1 {
            return None;
        }
        let o = Order {
            trader: parse_u64(data, offset),
            order_id: parse_u64(data, offset + 8),
            side: if side_byte == 0 {
                OrderSide::Bid
            } else {
                OrderSide::Ask
            },
            order_type: if type_byte == 0 {
                OrderType::Limit
            } else if type_byte == 1 {
                OrderType::Market
            } else if type_byte == 2 {
                OrderType::PostOnly
            } else {
                OrderType::ImmediateOrCancel
            },
            price: parse_u64(data, offset + 18),
            quantity: parse_u64(data, offset + 26),
            filled_quantity: parse_u64(data, offset + 34),
            timestamp: parse_i64(data, offset + 42),
            is_active: flag_byte == 1,
        };
        Some((o, offset + ORDER_BYTES))
    }

/// Round trip: the serialization of any order is a valid record that
/// deserializes to the identical value.
#[verifier::rlimit(100)]
pub proof fn lemma_order_round_trip(o: Order)
    ensures
        order_bytes(o).len() == ORDER_BYTES,
        order_bytes_valid(order_bytes(o), 0),
        order_of_bytes(order_bytes(o), 0) == o,
{
    let s = order_bytes(o);
    lemma_u64_of_le_at(s, 0, o.trader);
    lemma_u64_of_le_at(s, 8, o.order_id);
    lemma_u64_of_le_at(s, 18, o.price);
    lemma_u64_of_le_at(s, 26, o.quantity);
    lemma_u64_of_le_at(s, 34, o.filled_quantity);
    lemma_u64_of_le_at(s, 42, i64_biased(o.timestamp));
}

/// The fixed-width serialization of a trade.
pub open spec fn trade_bytes(t: Trade) -> Seq<u8> {
    u64_le_bytes(t.trade_id) + u64_le_bytes(t.maker_order_id) + u64_le_bytes(t.taker_order_id)
        + u64_le_bytes(t.maker) + u64_le_bytes(t.taker) + u64_le_bytes(t.price) + u64_le_bytes(
        t.quantity,
    ) + u64_le_bytes(t.maker_fee) + u64_le_bytes(t.taker_fee) + u64_le_bytes(i64_biased(t.timestamp))
        + seq![bool_byte(t.settled)]
}

/// Serializes a trade onto `out`.
pub fn encode_trade(t: &Trade, out: &mut Vec<u8>)
    ensures
        final(out)@ == old(out)@ + trade_bytes(*t),
{
    push_u64(out, t.trade_id);
    push_u64(out, t.maker_order_id);
    push_u64(out, t.taker_order_id);
    push_u64(out, t.maker);
    push_u64(out, t.taker);
    push_u64(out, t.price);
    push_u64(out, t.quantity);
    push_u64(out, t.maker_fee);
    push_u64(out, t.taker_fee);
    push_i64(out, t.timestamp);
    emit_bool(out, t.settled);
    proof {
        assert(final(out)@ =~= old(out)@ + trade_bytes(*t));
    }
}

/// Whether the bytes at `off` carry a well-formed trade record.
pub open spec fn trade_bytes_valid(s: Seq<u8>, off: int) -> bool {
    &&& off + TRADE_BYTES <= s.len()
    &&& s[off + 80] <= 1
}

/// The trade whose record stands at `off` (meaningful when
/// [`trade_bytes_valid`] holds).
pub open spec fn trade_of_bytes(s: Seq<u8>, off: int) -> Trade {
    Trade {
        trade_id: u64_of_le_at(s, off) as u64,
        maker_order_id: u64_of_le_at(s, off + 8) as u64,
        taker_order_id: u64_of_le_at(s, off + 16) as u64,
        maker: u64_of_le_at(s, off + 24) as u64,
        taker: u64_of_le_at(s, off + 32) as u64,
        price: u64_of_le_at(s, off + 40) as u64,
        quantity: u64_of_le_at(s, off + 48) as u64,
        maker_fee: u64_of_le_at(s, off + 56) as u64,
        taker_fee: u64_of_le_at(s, off + 64) as u64,
        timestamp: (u64_of_le_at(s, off + 72) - 9223372036854775808) as i64,
        settled: s[off + 80] == 1,
    }
}

/// Deserializes the trade record at `offset`; `None` exactly when the
/// record does not fit or the flag byte is out of range.
pub fn decode_trade(data: &Vec<u8>, offset: usize) -> (r: Option<(Trade, usize)>)
    requires
        offset + TRADE_BYTES <= usize::MAX,
    ensures
        r is Some <==> trade_bytes_valid(data@, offset as int),
        r matches Some((t, next)) ==> t == trade_of_bytes(data@, offset as int) && next == offset
            + TRADE_BYTES,
{
    if data.len() < TRADE_BYTES || offset > data.len() - TRADE_BYTES {
        return None;
    }
    let flag_byte = data[offset + 80];
    if flag_byte > 1 {
        return None;
    }
    let t = Trade {
        trade_id: parse_u64(data, offset),
        maker_order_id: parse_u64(data, offset + 8),
        taker_order_id: parse_u64(data, offset + 16),
        maker: parse_u64(data, offset + 24),
        taker: parse_u64(data, offset + 32),
        price: parse_u64(data, offset + 40),
        quantity: parse_u64(data, offset + 48),
        maker_fee: parse_u64(data, offset + 56),
        taker_fee: parse_u64(data, offset + 64),
        timestamp: parse_i64(data, offset + 72),
        settled: flag_byte == 1,
    };
    Some((t, offset + TRADE_BYTES))
}

/// Round trip: the serialization of any trade is a valid record that
/// deserializes to the identical value.
#[verifier::rlimit(100)]
pub proof fn lemma_trade_round_trip(t: Trade)
    ensures
        trade_bytes(t).len() == TRADE_BYTES,
        trade_bytes_valid(trade_bytes(t), 0),
        trade_of_bytes(trade_bytes(t), 0) == t,
{
    let s = trade_bytes(t);
    lemma_u64_of_le_at(s, 0, t.trade_id);
    lemma_u64_of_le_at(s, 8, t.maker_order_id);
    lemma_u64_of_le_at(s, 16, t.taker_order_id);
    lemma_u64_of_le_at(s, 24, t.maker);
    lemma_u64_of_le_at(s, 32, t.taker);
    lemma_u64_of_le_at(s, 40, t.price);
    lemma_u64_of_le_at(s, 48, t.quantity);
    lemma_u64_of_le_at(s, 56, t.maker_fee);
    lemma_u64_of_le_at(s, 64, t.taker_fee);
    lemma_u64_of_le_at(s, 72, i64_biased(t.timestamp));
}

fn emit_kind(out: &mut Vec<u8>, k: AssetKind)
    ensures
        final(out)@ == old(out)@ + seq![kind_tag(k)],
{
    match k {
        AssetKind::Token => out.push(0u8),
        AssetKind::Native => out.push(1u8),
    }
}

fn emit_status(out: &mut Vec<u8>, st: EscrowStatus)
    ensures
        final(out)@ == old(out)@ + seq![status_tag(st)],
{
    match st {
        EscrowStatus::Pending => out.push(0u8),
        EscrowStatus::Funded => out.push(1u8),
        EscrowStatus::Executed => out.push(2u8),
        EscrowStatus::Cancelled => out.push(3u8),
        EscrowStatus::Expired => out.push(4u8),
    }
}

/// The fixed-width serialization of an escrow record, vaults included.
pub open spec fn escrow_bytes(e: EscrowAccount) -> Seq<u8> {
    u64_le_bytes(e.trade_id) + u64_le_bytes(e.buyer) + u64_le_bytes(e.seller) + u64_le_bytes(
        e.base_mint,
    ) + u64_le_bytes(e.base_amount) + u64_le_bytes(e.sol_amount) + u64_le_bytes(e.base_deposited)
        + u64_le_bytes(e.sol_deposited) + seq![kind_tag(e.base_vault.kind)] + u64_le_bytes(
        e.base_vault.balance,
    ) + seq![kind_tag(e.sol_vault.kind)] + u64_le_bytes(e.sol_vault.balance) + seq![
        status_tag(e.status),
    ] + u64_le_bytes(i64_biased(e.created_at)) + u64_le_bytes(i64_biased(e.expiry))
}

/// Serializes an escrow record onto `out`.
pub fn encode_escrow(e: &EscrowAccount, out: &mut Vec<u8>)
    ensures
        final(out)@ == old(out)@ + escrow_bytes(*e),
{
    push_u64(out, e.trade_id);
    push_u64(out, e.buyer);
    push_u64(out, e.seller);
    push_u64(out, e.base_mint);
    push_u64(out, e.base_amount);
    push_u64(out, e.sol_amount);
    push_u64(out, e.base_deposited);
    push_u64(out, e.sol_deposited);
    emit_kind(out, e.base_vault.kind);
    push_u64(out, e.base_vault.balance);
    emit_kind(out, e.sol_vault.kind);
    push_u64(out, e.sol_vault.balance);
    emit_status(out, e.status);
    push_i64(out, e.created_at);
    push_i64(out, e.expiry);
    proof {
        assert(final(out)@ =~= old(out)@ + escrow_bytes(*e));
    }
}

/// Whether the bytes at `off` carry a well-formed escrow record.
pub open spec fn escrow_bytes_valid(s: Seq<u8>, off: int) -> bool {
    &&& off + ESCROW_BYTES <= s.len()
    &&& s[off + 64] <= 1
    &&& s[off + 73] <= 1
    &&& s[off + 82] <= 4
}

/// The escrow record standing at `off` (meaningful when
/// [`escrow_bytes_valid`] holds).
pub open spec fn escrow_of_bytes(s: Seq<u8>, off: int) -> EscrowAccount {
    EscrowAccount {
        trade_id: u64_of_le_at(s, off) as u64,
        buyer: u64_of_le_at(s, off + 8) as u64,
        seller: u64_of_le_at(s, off + 16) as u64,
        base_mint: u64_of_le_at(s, off + 24) as u64,
        base_amount: u64_of_le_at(s, off + 32) as u64,
        sol_amount: u64_of_le_at(s, off + 40) as u64,
        base_deposited: u64_of_le_at(s, off + 48) as u64,
        sol_deposited: u64_of_le_at(s, off + 56) as u64,
        base_vault: Vault {
            kind: if s[off + 64] == 0 {
                AssetKind::Token
            } else {
                AssetKind::Native
            },
            balance: u64_of_le_at(s, off + 65) as u64,
        },
        sol_vault: Vault {
            kind: if s[off + 73] == 0 {
                AssetKind::Token
            } else {
                AssetKind::Native
            },
            balance: u64_of_le_at(s, off + 74) as u64,
        },
        status: if s[off + 82] == 0 {
            EscrowStatus::Pending
        } else if s[off + 82] == 1 {
            EscrowStatus::Funded
        } else if s[off + 82] == 2 {
            EscrowStatus::Executed
        } else if s[off + 82] == 3 {
            EscrowStatus::Cancelled
        } else {
            EscrowStatus::Expired
        },
        created_at: (u64_of_le_at(s, off + 83) - 9223372036854775808) as i64,
        expiry: (u64_of_le_at(s, off + 91) - 9223372036854775808) as i64,
    }
}

/// Deserializes the escrow record at `offset`; `None` exactly when the
/// record does not fit or a tag byte is out of range.
pub fn decode_escrow(data: &Vec<u8>, offset: usize) -> (r: Option<(EscrowAccount, usize)>)
    requires
        offset + ESCROW_BYTES <= usize::MAX,
    ensures
        r is Some <==> escrow_bytes_valid(data@, offset as int),
        r matches Some((e, next)) ==> e == escrow_of_bytes(data@, offset as int) && next == offset
            + ESCROW_BYTES,
{
    if data.len() < ESCROW_BYTES || offset > data.len() - ESCROW_BYTES {
        return None;
    }
    let base_kind_byte = data[offset + 64];
    if base_kind_byte > 1 {
        return None;
    }
    let sol_kind_byte = data[offset + 73];
    if sol_kind_byte > 1 {
        return None;
    }
    let status_byte = data[offset + 82];
    if status_byte > 4 {
        return None;
    }
    let e = EscrowAccount {
        trade_id: parse_u64(data, offset),
        buyer: parse_u64(data, offset + 8),
        seller: parse_u64(data, offset + 16),
        base_mint: parse_u64(data, offset + 24),
        base_amount: parse_u64(data, offset + 32),
        sol_amount: parse_u64(data, offset + 40),
        base_deposited: parse_u64(data, offset + 48),
        sol_deposited: parse_u64(data, offset + 56),
        base_vault: Vault {
            kind: if base_kind_byte == 0 {
                AssetKind::Token
            } else {
                AssetKind::Native
            },
            balance: parse_u64(data, offset + 65),
        },
        sol_vault: Vault {
            kind: if sol_kind_byte == 0 {
                AssetKind::Token
            } else {
                AssetKind::Native
            },
            balance: parse_u64(data, offset + 74),
        },
        status: if status_byte == 0 {
            EscrowStatus::Pending
        } else if status_byte == 1 {
            EscrowStatus::Funded
        } else if status_byte == 2 {
            EscrowStatus::Executed
        } else if status_byte == 3 {
            EscrowStatus::Cancelled
        } else {
            EscrowStatus::Expired
        },
        created_at: parse_i64(data, offset + 83),
        expiry: parse_i64(data, offset + 91),
    };
    Some((e, offset + ESCROW_BYTES))
}

/// Round trip: the serialization of any escrow record is a valid record
/// that deserializes to the identical value.
#[verifier::rlimit(100)]
pub proof fn lemma_escrow_round_trip(e: EscrowAccount)
    ensures
        escrow_bytes(e).len() == ESCROW_BYTES,
        escrow_bytes_valid(escrow_bytes(e), 0),
        escrow_of_bytes(escrow_bytes(e), 0) == e,
{
    let s = escrow_bytes(e);
    lemma_u64_of_le_at(s, 0, e.trade_id);
    lemma_u64_of_le_at(s, 8, e.buyer);
    lemma_u64_of_le_at(s, 16, e.seller);
    lemma_u64_of_le_at(s, 24, e.base_mint);
    lemma_u64_of_le_at(s, 32, e.base_amount);
    lemma_u64_of_le_at(s, 40, e.sol_amount);
    lemma_u64_of_le_at(s, 48, e.base_deposited);
    lemma_u64_of_le_at(s, 56, e.sol_deposited);
    lemma_u64_of_le_at(s, 65, e.base_vault.balance);
    lemma_u64_of_le_at(s, 74, e.sol_vault.balance);
    lemma_u64_of_le_at(s, 83, i64_biased(e.created_at));
    lemma_u64_of_le_at(s, 91, i64_biased(e.expiry));
}

} // verus!
