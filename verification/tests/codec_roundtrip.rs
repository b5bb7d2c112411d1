use exchange_core::codec::{
    decode_escrow, decode_order, decode_trade, encode_escrow, encode_order, encode_trade,
    ESCROW_BYTES, ORDER_BYTES, TRADE_BYTES,
};
use exchange_core::escrow::{EscrowAccount, EscrowStatus};
use exchange_core::order::{Order, OrderSide, OrderType};
use exchange_core::trade::Trade;
use exchange_core::vault::{AssetKind, Vault};

fn sample_order() -> Order {
    Order {
        trader: 0xDEAD_BEEF_1234_5678,
        order_id: 42,
        side: OrderSide::Ask,
        order_type: OrderType::Limit,
        price: 1000,
        quantity: u64::MAX,
        filled_quantity: 3,
        timestamp: -1_234_567_890,
        is_active: true,
    }
}

#[test]
fn order_round_trip_identical() {
    let o = sample_order();
    let mut bytes = Vec::new();
    encode_order(&o, &mut bytes);
    assert_eq!(bytes.len(), ORDER_BYTES);
    let (decoded, next) = decode_order(&bytes, 0).unwrap();
    assert_eq!(decoded, o);
    assert_eq!(next, ORDER_BYTES);
}

#[test]
fn order_round_trip_at_offset() {
    let o = Order { side: OrderSide::Bid, order_type: OrderType::PostOnly, ..sample_order() };
    let mut bytes = vec![0xAA; 7];
    encode_order(&o, &mut bytes);
    let (decoded, next) = decode_order(&bytes, 7).unwrap();
    assert_eq!(decoded, o);
    assert_eq!(next, 7 + ORDER_BYTES);
}

#[test]
fn order_decode_rejects_bad_tag_and_short_input() {
    let o = sample_order();
    let mut bytes = Vec::new();
    encode_order(&o, &mut bytes);
    bytes[16] = 2;
    assert_eq!(decode_order(&bytes, 0), None);
    bytes[16] = 1;
    bytes[17] = 4;
    assert_eq!(decode_order(&bytes, 0), None);
    bytes[17] = 0;
    bytes[50] = 9;
    assert_eq!(decode_order(&bytes, 0), None);
    bytes[50] = 0;
    assert!(decode_order(&bytes, 0).is_some());
    bytes.pop();
    assert_eq!(decode_order(&bytes, 0), None);
}

#[test]
fn trade_round_trip_identical() {
    let t = Trade {
        trade_id: 9,
        maker_order_id: 1,
        taker_order_id: 2,
        maker: 21,
        taker: 31,
        price: 1000,
        quantity: 5,
        maker_fee: 15,
        taker_fee: 25,
        timestamp: i64::MIN,
        settled: false,
    };
    let mut bytes = Vec::new();
    encode_trade(&t, &mut bytes);
    assert_eq!(bytes.len(), TRADE_BYTES);
    let (decoded, next) = decode_trade(&bytes, 0).unwrap();
    assert_eq!(decoded, t);
    assert_eq!(next, TRADE_BYTES);
}

#[test]
fn trade_decode_rejects_bad_flag() {
    let t = Trade {
        trade_id: 9,
        maker_order_id: 1,
        taker_order_id: 2,
        maker: 21,
        taker: 31,
        price: 1000,
        quantity: 5,
        maker_fee: 15,
        taker_fee: 25,
        timestamp: 0,
        settled: true,
    };
    let mut bytes = Vec::new();
    encode_trade(&t, &mut bytes);
    bytes[80] = 2;
    assert_eq!(decode_trade(&bytes, 0), None);
}

#[test]
fn escrow_round_trip_identical() {
    let e = EscrowAccount {
        trade_id: 7,
        buyer: 11,
        seller: 22,
        base_mint: 5,
        base_amount: 100,
        sol_amount: 50,
        base_deposited: 60,
        sol_deposited: 0,
        base_vault: Vault { kind: AssetKind::Token, balance: 60 },
        sol_vault: Vault { kind: AssetKind::Native, balance: 0 },
        status: EscrowStatus::Pending,
        created_at: 1000,
        expiry: 4600,
    };
    let mut bytes = Vec::new();
    encode_escrow(&e, &mut bytes);
    assert_eq!(bytes.len(), ESCROW_BYTES);
    let (decoded, next) = decode_escrow(&bytes, 0).unwrap();
    assert_eq!(decoded, e);
    assert_eq!(next, ESCROW_BYTES);
}

#[test]
fn escrow_round_trip_every_status() {
    let statuses = [
        EscrowStatus::Pending,
        EscrowStatus::Funded,
        EscrowStatus::Executed,
        EscrowStatus::Cancelled,
        EscrowStatus::Expired,
    ];
    for status in statuses {
        let e = EscrowAccount {
            trade_id: 7,
            buyer: 11,
            seller: 22,
            base_mint: 5,
            base_amount: 100,
            sol_amount: 100,
            base_deposited: 100,
            sol_deposited: 100,
            base_vault: Vault { kind: AssetKind::Token, balance: 100 },
            sol_vault: Vault { kind: AssetKind::Native, balance: 100 },
            status,
            created_at: -5,
            expiry: 4600,
        };
        let mut bytes = Vec::new();
        encode_escrow(&e, &mut bytes);
        let (decoded, _) = decode_escrow(&bytes, 0).unwrap();
        assert_eq!(decoded, e);
    }
}

#[test]
fn escrow_decode_rejects_bad_status() {
    let e = EscrowAccount {
        trade_id: 7,
        buyer: 11,
        seller: 22,
        base_mint: 5,
        base_amount: 100,
        sol_amount: 50,
        base_deposited: 0,
        sol_deposited: 0,
        base_vault: Vault { kind: AssetKind::Token, balance: 0 },
        sol_vault: Vault { kind: AssetKind::Native, balance: 0 },
        status: EscrowStatus::Pending,
        created_at: 1000,
        expiry: 4600,
    };
    let mut bytes = Vec::new();
    encode_escrow(&e, &mut bytes);
    bytes[82] = 5;
    assert_eq!(decode_escrow(&bytes, 0), None);
    bytes[82] = 0;
    bytes[64] = 2;
    assert_eq!(decode_escrow(&bytes, 0), None);
}

#[test]
fn records_concatenate_and_parse_in_sequence() {
    let o = sample_order();
    let t = Trade {
        trade_id: 9,
        maker_order_id: 1,
        taker_order_id: 2,
        maker: 21,
        taker: 31,
        price: 1000,
        quantity: 5,
        maker_fee: 0,
        taker_fee: 0,
        timestamp: 77,
        settled: false,
    };
    let mut bytes = Vec::new();
    encode_order(&o, &mut bytes);
    encode_trade(&t, &mut bytes);
    let (o2, mid) = decode_order(&bytes, 0).unwrap();
    let (t2, end) = decode_trade(&bytes, mid).unwrap();
    assert_eq!(o2, o);
    assert_eq!(t2, t);
    assert_eq!(end, bytes.len());
}
