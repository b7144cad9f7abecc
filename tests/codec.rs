use permissioned::{
    assert_owner, AccountInfo, CancelOrderInstructionV2, MarketInstruction,
    NewOrderInstructionV3, OrderType, OwnerCheckError, SelfTradeBehavior, Side,
};
use serum_dex::instruction as dex;
use std::num::NonZeroU64;

fn samples() -> Vec<(MarketInstruction, dex::MarketInstruction)> {
    let ours = NewOrderInstructionV3 {
        side: Side::Ask,
        limit_price: 12,
        max_coin_qty: 3,
        max_native_pc_qty_including_fees: 0x0102_0304_0506_0708,
        self_trade_behavior: SelfTradeBehavior::CancelProvide,
        order_type: OrderType::PostOnly,
        client_order_id: 42,
        limit: 65535,
    };
    let theirs = dex::NewOrderInstructionV3 {
        side: serum_dex::matching::Side::Ask,
        limit_price: NonZeroU64::new(12).unwrap(),
        max_coin_qty: NonZeroU64::new(3).unwrap(),
        max_native_pc_qty_including_fees: NonZeroU64::new(0x0102_0304_0506_0708).unwrap(),
        self_trade_behavior: dex::SelfTradeBehavior::CancelProvide,
        order_type: serum_dex::matching::OrderType::PostOnly,
        client_order_id: 42,
        limit: 65535,
    };
    vec![
        (MarketInstruction::InitOpenOrders, dex::MarketInstruction::InitOpenOrders),
        (MarketInstruction::NewOrderV3(ours), dex::MarketInstruction::NewOrderV3(theirs)),
        (
            MarketInstruction::CancelOrderV2(CancelOrderInstructionV2 {
                side: Side::Bid,
                order_id: u128::MAX - 5,
            }),
            dex::MarketInstruction::CancelOrderV2(dex::CancelOrderInstructionV2 {
                side: serum_dex::matching::Side::Bid,
                order_id: u128::MAX - 5,
            }),
        ),
        (
            MarketInstruction::CancelOrderByClientIdV2(123456789),
            dex::MarketInstruction::CancelOrderByClientIdV2(123456789),
        ),
        (MarketInstruction::SettleFunds, dex::MarketInstruction::SettleFunds),
        (MarketInstruction::CloseOpenOrders, dex::MarketInstruction::CloseOpenOrders),
        (MarketInstruction::ConsumeEvents(300), dex::MarketInstruction::ConsumeEvents(300)),
        (
            MarketInstruction::ConsumeEventsPermissioned(7),
            dex::MarketInstruction::ConsumeEventsPermissioned(7),
        ),
        (MarketInstruction::Prune(9), dex::MarketInstruction::Prune(9)),
    ]
}

#[test]
fn pack_matches_the_order_book_encoding() {
    for (ours, theirs) in samples() {
        assert_eq!(ours.pack(), theirs.pack());
    }
}

#[test]
fn decode_then_encode_is_byte_identical() {
    for (_, theirs) in samples() {
        let wire = theirs.pack();
        let decoded = MarketInstruction::unpack(&wire).unwrap();
        assert_eq!(decoded.pack(), wire);
        assert_eq!(MarketInstruction::unpack(&decoded.pack()), Some(decoded));
    }
}

#[test]
fn unrecognized_buffers_decode_to_none() {
    assert_eq!(MarketInstruction::unpack(&[]), None);
    assert_eq!(MarketInstruction::unpack(&[0, 15, 0, 0]), None);
    // Wrong version byte.
    assert_eq!(MarketInstruction::unpack(&[1, 15, 0, 0, 0]), None);
    // Trailing byte.
    assert_eq!(MarketInstruction::unpack(&[0, 15, 0, 0, 0, 0]), None);
    // Match orders is an operation the proxy does not relay.
    assert_eq!(MarketInstruction::unpack(&dex::MarketInstruction::MatchOrders(3).pack()), None);
    // A zero quantity is not a valid order.
    let mut wire = samples()[1].1.pack();
    for b in &mut wire[17..25] {
        *b = 0;
    }
    assert_eq!(MarketInstruction::unpack(&wire), None);
    assert_eq!(dex::MarketInstruction::unpack(&wire), None);
}

#[test]
fn decode_reads_little_endian_fields() {
    let wire = [0u8, 16, 0, 0, 0, 0x34, 0x12];
    assert_eq!(MarketInstruction::unpack(&wire), Some(MarketInstruction::Prune(0x1234)));
    assert_eq!(MarketInstruction::SettleFunds.pack(), vec![0, 5, 0, 0, 0]);
}

fn owned_by(owner: [u8; 32]) -> AccountInfo {
    AccountInfo { key: [1u8; 32], is_signer: false, is_writable: false, owner, data: vec![] }
}

#[test]
fn owner_check() {
    assert_eq!(assert_owner(&vec![owned_by([7u8; 32])], &[7u8; 32]), Ok(()));
    assert_eq!(
        assert_owner(&vec![owned_by([7u8; 32])], &[8u8; 32]),
        Err(OwnerCheckError::OwnerMismatch)
    );
    assert_eq!(
        assert_owner(&vec![owned_by([7u8; 32])], &[7u8; 31]),
        Err(OwnerCheckError::InvalidInstructionData)
    );
    assert_eq!(assert_owner(&vec![], &[7u8; 32]), Err(OwnerCheckError::NotEnoughAccountKeys));
    assert_eq!(OwnerCheckError::OWNER_MISMATCH_CODE, 256);
}
