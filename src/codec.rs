//! Wire format of the order-book program's instructions: a version byte (0),
//! a little-endian `u32` tag, then a fixed-layout payload per operation.
use vstd::bytes::*;
use vstd::prelude::*;
use vstd::slice::slice_subrange;

verus! {

#[derive(Clone, Copy, Debug, PartialEq, Eq, Structural)]
pub enum Side {
    Bid,
    Ask,
}

#[derive(Clone, Copy, Debug, PartialEq, Eq, Structural)]
pub enum SelfTradeBehavior {
    DecrementTake,
    CancelProvide,
    AbortTransaction,
}

#[derive(Clone, Copy, Debug, PartialEq, Eq, Structural)]
pub enum OrderType {
    Limit,
    ImmediateOrCancel,
    PostOnly,
}

/// Payload of a place-order request. `limit_price`, `max_coin_qty` and
/// `max_native_pc_qty_including_fees` are never zero on the wire.
#[derive(Clone, Copy, Debug, PartialEq, Eq, Structural)]
pub struct NewOrderInstructionV3 {
    pub side: Side,
    pub limit_price: u64,
    pub max_coin_qty: u64,
    pub max_native_pc_qty_including_fees: u64,
    pub self_trade_behavior: SelfTradeBehavior,
    pub order_type: OrderType,
    pub client_order_id: u64,
    pub limit: u16,
}

#[derive(Clone, Copy, Debug, PartialEq, Eq, Structural)]
pub struct CancelOrderInstructionV2 {
    pub side: Side,
    pub order_id: u128,
}

/// The operations that the proxy recognizes and relays.
#[derive(Clone, Copy, Debug, PartialEq, Eq, Structural)]
pub enum MarketInstruction {
    ConsumeEvents(u16),
    SettleFunds,
    NewOrderV3(NewOrderInstructionV3),
    CancelOrderV2(CancelOrderInstructionV2),
    CancelOrderByClientIdV2(u64),
    CloseOpenOrders,
    InitOpenOrders,
    Prune(u16),
    ConsumeEventsPermissioned(u16),
}

pub open spec fn u16_at(s: Seq<u8>, i: int) -> u16 {
    spec_u16_from_le_bytes(s.subrange(i, i + 2))
}

pub open spec fn u32_at(s: Seq<u8>, i: int) -> u32 {
    spec_u32_from_le_bytes(s.subrange(i, i + 4))
}

pub open spec fn u64_at(s: Seq<u8>, i: int) -> u64 {
    spec_u64_from_le_bytes(s.subrange(i, i + 8))
}

pub open spec fn u128_at(s: Seq<u8>, i: int) -> u128 {
    spec_u128_from_le_bytes(s.subrange(i, i + 16))
}

pub open spec fn side_of(v: u32) -> Option<Side> {
    if v == 0 {
        Some(Side::Bid)
    } else if v == 1 {
        Some(Side::Ask)
    } else {
        None
    }
}

pub open spec fn side_code(s: Side) -> u32 {
    match s {
        Side::Bid => 0,
        Side::Ask => 1,
    }
}

pub open spec fn self_trade_of(v: u32) -> Option<SelfTradeBehavior> {
    if v == 0 {
        Some(SelfTradeBehavior::DecrementTake)
    } else if v == 1 {
        Some(SelfTradeBehavior::CancelProvide)
    } else if v == 2 {
        Some(SelfTradeBehavior::AbortTransaction)
    } else {
        None
    }
}

pub open spec fn self_trade_code(b: SelfTradeBehavior) -> u32 {
    match b {
        SelfTradeBehavior::DecrementTake => 0,
        SelfTradeBehavior::CancelProvide => 1,
        SelfTradeBehavior::AbortTransaction => 2,
    }
}

pub open spec fn order_type_of(v: u32) -> Option<OrderType> {
    if v == 0 {
        Some(OrderType::Limit)
    } else if v == 1 {
        Some(OrderType::ImmediateOrCancel)
    } else if v == 2 {
        Some(OrderType::PostOnly)
    } else {
        None
    }
}

pub open spec fn order_type_code(t: OrderType) -> u32 {
    match t {
        OrderType::Limit => 0,
        OrderType::ImmediateOrCancel => 1,
        OrderType::PostOnly => 2,
    }
}

/// The tag that the wire format gives each operation.
pub open spec fn tag_of(ix: MarketInstruction) -> u32 {
    match ix {
        MarketInstruction::ConsumeEvents(_) => 3,
        MarketInstruction::SettleFunds => 5,
        MarketInstruction::NewOrderV3(_) => 10,
        MarketInstruction::CancelOrderV2(_) => 11,
        MarketInstruction::CancelOrderByClientIdV2(_) => 12,
        MarketInstruction::CloseOpenOrders => 14,
        MarketInstruction::InitOpenOrders => 15,
        MarketInstruction::Prune(_) => 16,
        MarketInstruction::ConsumeEventsPermissioned(_) => 17,
    }
}

/// A value that the wire format can carry: the non-zero fields are non-zero.
pub open spec fn well_formed(ix: MarketInstruction) -> bool {
    match ix {
        MarketInstruction::NewOrderV3(o) => o.limit_price != 0 && o.max_coin_qty != 0
            && o.max_native_pc_qty_including_fees != 0,
        _ => true,
    }
}

pub open spec fn decode_new_order_v3(p: Seq<u8>) -> Option<NewOrderInstructionV3> {
    let side = side_of(u32_at(p, 0));
    let stb = self_trade_of(u32_at(p, 28));
    let ot = order_type_of(u32_at(p, 32));
    if side is Some && u64_at(p, 4) != 0 && u64_at(p, 12) != 0 && u64_at(p, 20) != 0
        && stb is Some && ot is Some {
        Some(
            NewOrderInstructionV3 {
                side: side->0,
                limit_price: u64_at(p, 4),
                max_coin_qty: u64_at(p, 12),
                max_native_pc_qty_including_fees: u64_at(p, 20),
                self_trade_behavior: stb->0,
                order_type: ot->0,
                client_order_id: u64_at(p, 36),
                limit: u16_at(p, 44),
            },
        )
    } else {
        None
    }
}

pub open spec fn decode_cancel_order_v2(p: Seq<u8>) -> Option<CancelOrderInstructionV2> {
    match side_of(u32_at(p, 0)) {
        Some(side) => Some(CancelOrderInstructionV2 { side, order_id: u128_at(p, 4) }),
        None => None,
    }
}

/// What a raw buffer decodes to; `None` is "unrecognized".
pub open spec fn decode(d: Seq<u8>) -> Option<MarketInstruction> {
    if d.len() < 5 || d[0] != 0 {
        None
    } else {
        let tag = u32_at(d, 1);
        let p = d.subrange(5, d.len() as int);
        if tag == 3 && p.len() == 2 {
            Some(MarketInstruction::ConsumeEvents(u16_at(p, 0)))
        } else if tag == 5 && p.len() == 0 {
            Some(MarketInstruction::SettleFunds)
        } else if tag == 10 && p.len() == 46 {
            match decode_new_order_v3(p) {
                Some(o) => Some(MarketInstruction::NewOrderV3(o)),
                None => None,
            }
        } else if tag == 11 && p.len() == 20 {
            match decode_cancel_order_v2(p) {
                Some(c) => Some(MarketInstruction::CancelOrderV2(c)),
                None => None,
            }
        } else if tag == 12 && p.len() == 8 {
            Some(MarketInstruction::CancelOrderByClientIdV2(u64_at(p, 0)))
        } else if tag == 14 && p.len() == 0 {
            Some(MarketInstruction::CloseOpenOrders)
        } else if tag == 15 && p.len() == 0 {
            Some(MarketInstruction::InitOpenOrders)
        } else if tag == 16 && p.len() == 2 {
            Some(MarketInstruction::Prune(u16_at(p, 0)))
        } else if tag == 17 && p.len() == 2 {
            Some(MarketInstruction::ConsumeEventsPermissioned(u16_at(p, 0)))
        } else {
            None
        }
    }
}

pub open spec fn encode_new_order_v3(o: NewOrderInstructionV3) -> Seq<u8> {
    spec_u32_to_le_bytes(side_code(o.side)) + spec_u64_to_le_bytes(o.limit_price)
        + spec_u64_to_le_bytes(o.max_coin_qty) + spec_u64_to_le_bytes(
        o.max_native_pc_qty_including_fees,
    ) + spec_u32_to_le_bytes(self_trade_code(o.self_trade_behavior)) + spec_u32_to_le_bytes(
        order_type_code(o.order_type),
    ) + spec_u64_to_le_bytes(o.client_order_id) + spec_u16_to_le_bytes(o.limit)
}

pub open spec fn encode_payload(ix: MarketInstruction) -> Seq<u8> {
    match ix {
        MarketInstruction::ConsumeEvents(l) => spec_u16_to_le_bytes(l),
        MarketInstruction::NewOrderV3(o) => encode_new_order_v3(o),
        MarketInstruction::CancelOrderV2(c) => spec_u32_to_le_bytes(side_code(c.side))
            + spec_u128_to_le_bytes(c.order_id),
        MarketInstruction::CancelOrderByClientIdV2(id) => spec_u64_to_le_bytes(id),
        MarketInstruction::Prune(l) => spec_u16_to_le_bytes(l),
        MarketInstruction::ConsumeEventsPermissioned(l) => spec_u16_to_le_bytes(l),
        _ => Seq::empty(),
    }
}

/// The wire form of an instruction.
pub open spec fn encode(ix: MarketInstruction) -> Seq<u8> {
    seq![0u8] + spec_u32_to_le_bytes(tag_of(ix)) + encode_payload(ix)
}

#[verifier::spinoff_prover]
proof fn lemma_le_bytes()
    ensures
        forall|x: u16| #![trigger spec_u16_to_le_bytes(x)]
            spec_u16_to_le_bytes(x).len() == 2 && spec_u16_from_le_bytes(spec_u16_to_le_bytes(x)) == x,
        forall|x: u32| #![trigger spec_u32_to_le_bytes(x)]
            spec_u32_to_le_bytes(x).len() == 4 && spec_u32_from_le_bytes(spec_u32_to_le_bytes(x)) == x,
        forall|x: u64| #![trigger spec_u64_to_le_bytes(x)]
            spec_u64_to_le_bytes(x).len() == 8 && spec_u64_from_le_bytes(spec_u64_to_le_bytes(x)) == x,
        forall|x: u128| #![trigger spec_u128_to_le_bytes(x)]
            spec_u128_to_le_bytes(x).len() == 16 && spec_u128_from_le_bytes(spec_u128_to_le_bytes(x)) == x,
{
    lemma_auto_spec_u16_to_from_le_bytes();
    lemma_auto_spec_u32_to_from_le_bytes();
    lemma_auto_spec_u64_to_from_le_bytes();
    lemma_auto_spec_u128_to_from_le_bytes();
}

proof fn lemma_u16_at(s: Seq<u8>, i: int)
    requires
        0 <= i && i + 2 <= s.len(),
    ensures
        spec_u16_to_le_bytes(u16_at(s, i)) == s.subrange(i, i + 2),
{
    lemma_auto_spec_u16_to_from_le_bytes();
    assert(spec_u16_to_le_bytes(spec_u16_from_le_bytes(s.subrange(i, i + 2))) == s.subrange(i, i + 2));
}

proof fn lemma_u32_at(s: Seq<u8>, i: int)
    requires
        0 <= i && i + 4 <= s.len(),
    ensures
        spec_u32_to_le_bytes(u32_at(s, i)) == s.subrange(i, i + 4),
{
    lemma_auto_spec_u32_to_from_le_bytes();
    assert(spec_u32_to_le_bytes(spec_u32_from_le_bytes(s.subrange(i, i + 4))) == s.subrange(i, i + 4));
}

proof fn lemma_u64_at(s: Seq<u8>, i: int)
    requires
        0 <= i && i + 8 <= s.len(),
    ensures
        spec_u64_to_le_bytes(u64_at(s, i)) == s.subrange(i, i + 8),
{
    lemma_auto_spec_u64_to_from_le_bytes();
    assert(spec_u64_to_le_bytes(spec_u64_from_le_bytes(s.subrange(i, i + 8))) == s.subrange(i, i + 8));
}

proof fn lemma_u128_at(s: Seq<u8>, i: int)
    requires
        0 <= i && i + 16 <= s.len(),
    ensures
        spec_u128_to_le_bytes(u128_at(s, i)) == s.subrange(i, i + 16),
{
    lemma_auto_spec_u128_to_from_le_bytes();
    assert(spec_u128_to_le_bytes(spec_u128_from_le_bytes(s.subrange(i, i + 16))) == s.subrange(i, i + 16));
}

/// Re-encoding what a buffer decodes to gives back that very buffer, and
/// every decoded value is one the wire format can carry.
pub proof fn lemma_decode_then_encode(d: Seq<u8>)
    requires
        decode(d) is Some,
    ensures
        encode(decode(d)->0) == d,
        well_formed(decode(d)->0),
{
    let ix = decode(d)->0;
    let p = d.subrange(5, d.len() as int);
    lemma_u32_at(d, 1);
    assert(d =~= seq![0u8] + d.subrange(1, 5) + p);
    match ix {
        MarketInstruction::NewOrderV3(o) => {
            lemma_u32_at(p, 0);
            lemma_u64_at(p, 4);
            lemma_u64_at(p, 12);
            lemma_u64_at(p, 20);
            lemma_u32_at(p, 28);
            lemma_u32_at(p, 32);
            lemma_u64_at(p, 36);
            lemma_u16_at(p, 44);
            assert(p =~= p.subrange(0, 4) + p.subrange(4, 12) + p.subrange(12, 20) + p.subrange(
                20,
                28,
            ) + p.subrange(28, 32) + p.subrange(32, 36) + p.subrange(36, 44) + p.subrange(44, 46));
        },
        MarketInstruction::CancelOrderV2(c) => {
            lemma_u32_at(p, 0);
            lemma_u128_at(p, 4);
            assert(p =~= p.subrange(0, 4) + p.subrange(4, 20));
        },
        MarketInstruction::CancelOrderByClientIdV2(id) => {
            lemma_u64_at(p, 0);
            assert(p =~= p.subrange(0, 8));
        },
        MarketInstruction::ConsumeEvents(l) => {
            lemma_u16_at(p, 0);
            assert(p =~= p.subrange(0, 2));
        },
        MarketInstruction::Prune(l) => {
            lemma_u16_at(p, 0);
            assert(p =~= p.subrange(0, 2));
        },
        MarketInstruction::ConsumeEventsPermissioned(l) => {
            lemma_u16_at(p, 0);
            assert(p =~= p.subrange(0, 2));
        },
        _ => {
            assert(p =~= Seq::<u8>::empty());
        },
    }
}

proof fn lemma_new_order_v3_round_trip(o: NewOrderInstructionV3)
    requires
        o.limit_price != 0 && o.max_coin_qty != 0 && o.max_native_pc_qty_including_fees != 0,
    ensures
        decode_new_order_v3(encode_new_order_v3(o)) == Some(o),
{
    lemma_le_bytes();
    let p = encode_new_order_v3(o);
    let a = spec_u32_to_le_bytes(side_code(o.side));
    let b = spec_u64_to_le_bytes(o.limit_price);
    let c = spec_u64_to_le_bytes(o.max_coin_qty);
    let e = spec_u64_to_le_bytes(o.max_native_pc_qty_including_fees);
    let f = spec_u32_to_le_bytes(self_trade_code(o.self_trade_behavior));
    let g = spec_u32_to_le_bytes(order_type_code(o.order_type));
    let h = spec_u64_to_le_bytes(o.client_order_id);
    let k = spec_u16_to_le_bytes(o.limit);
    assert(p.subrange(0, 4) =~= a);
    assert(p.subrange(4, 12) =~= b);
    assert(p.subrange(12, 20) =~= c);
    assert(p.subrange(20, 28) =~= e);
    assert(p.subrange(28, 32) =~= f);
    assert(p.subrange(32, 36) =~= g);
    assert(p.subrange(36, 44) =~= h);
    assert(p.subrange(44, 46) =~= k);
}

/// Decoding the wire form of a well-formed instruction gives it back.
#[verifier::spinoff_prover]
pub proof fn lemma_encode_then_decode(ix: MarketInstruction)
    requires
        well_formed(ix),
    ensures
        decode(encode(ix)) == Some(ix),
{
    lemma_le_bytes();
    let d = encode(ix);
    let p = encode_payload(ix);
    assert(d.subrange(1, 5) =~= spec_u32_to_le_bytes(tag_of(ix)));
    assert(d.subrange(5, d.len() as int) =~= p);
    match ix {
        MarketInstruction::NewOrderV3(o) => {
            lemma_new_order_v3_round_trip(o);
        },
        MarketInstruction::CancelOrderV2(c) => {
            assert(p.subrange(0, 4) =~= spec_u32_to_le_bytes(side_code(c.side)));
            assert(p.subrange(4, 20) =~= spec_u128_to_le_bytes(c.order_id));
        },
        MarketInstruction::CancelOrderByClientIdV2(id) => {
            assert(p.subrange(0, 8) =~= p);
        },
        MarketInstruction::ConsumeEvents(l) => {
            assert(p.subrange(0, 2) =~= p);
        },
        MarketInstruction::Prune(l) => {
            assert(p.subrange(0, 2) =~= p);
        },
        MarketInstruction::ConsumeEventsPermissioned(l) => {
            assert(p.subrange(0, 2) =~= p);
        },
        _ => {},
    }
}

fn read_u16(s: &[u8], i: usize) -> (r: u16)
    requires
        i + 2 <= s@.len(),
    ensures
        r == u16_at(s@, i as int),
{
    let n = s.len();
    assert(i + 2 <= n);
    u16_from_le_bytes(slice_subrange(s, i, i + 2))
}

fn read_u32(s: &[u8], i: usize) -> (r: u32)
    requires
        i + 4 <= s@.len(),
    ensures
        r == u32_at(s@, i as int),
{
    let n = s.len();
    assert(i + 4 <= n);
    u32_from_le_bytes(slice_subrange(s, i, i + 4))
}

fn read_u64(s: &[u8], i: usize) -> (r: u64)
    requires
        i + 8 <= s@.len(),
    ensures
        r == u64_at(s@, i as int),
{
    let n = s.len();
    assert(i + 8 <= n);
    u64_from_le_bytes(slice_subrange(s, i, i + 8))
}

fn read_u128(s: &[u8], i: usize) -> (r: u128)
    requires
        i + 16 <= s@.len(),
    ensures
        r == u128_at(s@, i as int),
{
    let n = s.len();
    assert(i + 16 <= n);
    u128_from_le_bytes(slice_subrange(s, i, i + 16))
}

fn side_from_code(v: u32) -> (r: Option<Side>)
    ensures
        r == side_of(v),
{
    if v == 0 {
        Some(Side::Bid)
    } else if v == 1 {
        Some(Side::Ask)
    } else {
        None
    }
}

fn self_trade_from_code(v: u32) -> (r: Option<SelfTradeBehavior>)
    ensures
        r == self_trade_of(v),
{
    if v == 0 {
        Some(SelfTradeBehavior::DecrementTake)
    } else if v == 1 {
        Some(SelfTradeBehavior::CancelProvide)
    } else if v == 2 {
        Some(SelfTradeBehavior::AbortTransaction)
    } else {
        None
    }
}

fn order_type_from_code(v: u32) -> (r: Option<OrderType>)
    ensures
        r == order_type_of(v),
{
    if v == 0 {
        Some(OrderType::Limit)
    } else if v == 1 {
        Some(OrderType::ImmediateOrCancel)
    } else if v == 2 {
        Some(OrderType::PostOnly)
    } else {
        None
    }
}

fn side_to_code(s: Side) -> (r: u32)
    ensures
        r == side_code(s),
{
    match s {
        Side::Bid => 0,
        Side::Ask => 1,
    }
}

fn self_trade_to_code(b: SelfTradeBehavior) -> (r: u32)
    ensures
        r == self_trade_code(b),
{
    match b {
        SelfTradeBehavior::DecrementTake => 0,
        SelfTradeBehavior::CancelProvide => 1,
        SelfTradeBehavior::AbortTransaction => 2,
    }
}

fn order_type_to_code(t: OrderType) -> (r: u32)
    ensures
        r == order_type_code(t),
{
    match t {
        OrderType::Limit => 0,
        OrderType::ImmediateOrCancel => 1,
        OrderType::PostOnly => 2,
    }
}

fn unpack_new_order_v3(p: &[u8]) -> (r: Option<NewOrderInstructionV3>)
    requires
        p@.len() == 46,
    ensures
        r == decode_new_order_v3(p@),
{
    let side = side_from_code(read_u32(p, 0));
    let limit_price = read_u64(p, 4);
    let max_coin_qty = read_u64(p, 12);
    let max_pc = read_u64(p, 20);
    let stb = self_trade_from_code(read_u32(p, 28));
    let order_type = order_type_from_code(read_u32(p, 32));
    match (side, stb, order_type) {
        (Some(side), Some(self_trade_behavior), Some(order_type)) => {
            if limit_price == 0 || max_coin_qty == 0 || max_pc == 0 {
                None
            } else {
                Some(
                    NewOrderInstructionV3 {
                        side,
                        limit_price,
                        max_coin_qty,
                        max_native_pc_qty_including_fees: max_pc,
                        self_trade_behavior,
                        order_type,
                        client_order_id: read_u64(p, 36),
                        limit: read_u16(p, 44),
                    },
                )
            }
        },
        _ => None,
    }
}

fn append_bytes(out: &mut Vec<u8>, bytes: Vec<u8>)
    ensures
        final(out)@ == old(out)@ + bytes@,
{
    let mut bytes = bytes;
    out.append(&mut bytes);
}

fn pack_new_order_v3(o: &NewOrderInstructionV3) -> (r: Vec<u8>)
    ensures
        r@ == encode_new_order_v3(*o),
{
    let mut out = u32_to_le_bytes(side_to_code(o.side));
    append_bytes(&mut out, u64_to_le_bytes(o.limit_price));
    append_bytes(&mut out, u64_to_le_bytes(o.max_coin_qty));
    append_bytes(&mut out, u64_to_le_bytes(o.max_native_pc_qty_including_fees));
    append_bytes(&mut out, u32_to_le_bytes(self_trade_to_code(o.self_trade_behavior)));
    append_bytes(&mut out, u32_to_le_bytes(order_type_to_code(o.order_type)));
    append_bytes(&mut out, u64_to_le_bytes(o.client_order_id));
    append_bytes(&mut out, u16_to_le_bytes(o.limit));
    out
}

impl MarketInstruction {
    /// Decodes a raw buffer; `None` for anything that is not one of the
    /// recognized operations in its exact wire form.
    pub fn unpack(data: &[u8]) -> (r: Option<MarketInstruction>)
        ensures
            r == decode(data@),
    {
        if data.len() < 5 || data[0] != 0 {
            return None;
        }
        let tag = read_u32(data, 1);
        let p = slice_subrange(data, 5, data.len());
        let n = p.len();
        if tag == 3 && n == 2 {
            Some(MarketInstruction::ConsumeEvents(read_u16(p, 0)))
        } else if tag == 5 && n == 0 {
            Some(MarketInstruction::SettleFunds)
        } else if tag == 10 && n == 46 {
            match unpack_new_order_v3(p) {
                Some(o) => Some(MarketInstruction::NewOrderV3(o)),
                None => None,
            }
        } else if tag == 11 && n == 20 {
            match side_from_code(read_u32(p, 0)) {
                Some(side) => Some(
                    MarketInstruction::CancelOrderV2(
                        CancelOrderInstructionV2 { side, order_id: read_u128(p, 4) },
                    ),
                ),
                None => None,
            }
        } else if tag == 12 && n == 8 {
            Some(MarketInstruction::CancelOrderByClientIdV2(read_u64(p, 0)))
        } else if tag == 14 && n == 0 {
            Some(MarketInstruction::CloseOpenOrders)
        } else if tag == 15 && n == 0 {
            Some(MarketInstruction::InitOpenOrders)
        } else if tag == 16 && n == 2 {
            Some(MarketInstruction::Prune(read_u16(p, 0)))
        } else if tag == 17 && n == 2 {
            Some(MarketInstruction::ConsumeEventsPermissioned(read_u16(p, 0)))
        } else {
            None
        }
    }

    /// The wire form of the instruction.
    pub fn pack(&self) -> (r: Vec<u8>)
        ensures
            r@ == encode(*self),
    {
        let (tag, payload): (u32, Vec<u8>) = match self {
            MarketInstruction::ConsumeEvents(l) => (3, u16_to_le_bytes(*l)),
            MarketInstruction::SettleFunds => (5, Vec::new()),
            MarketInstruction::NewOrderV3(o) => (10, pack_new_order_v3(o)),
            MarketInstruction::CancelOrderV2(c) => {
                let mut v = u32_to_le_bytes(side_to_code(c.side));
                append_bytes(&mut v, u128_to_le_bytes(c.order_id));
                (11, v)
            },
            MarketInstruction::CancelOrderByClientIdV2(id) => (12, u64_to_le_bytes(*id)),
            MarketInstruction::CloseOpenOrders => (14, Vec::new()),
            MarketInstruction::InitOpenOrders => (15, Vec::new()),
            MarketInstruction::Prune(l) => (16, u16_to_le_bytes(*l)),
            MarketInstruction::ConsumeEventsPermissioned(l) => (17, u16_to_le_bytes(*l)),
        };
        let mut out: Vec<u8> = Vec::new();
        out.push(0u8);
        append_bytes(&mut out, u32_to_le_bytes(tag));
        append_bytes(&mut out, payload);
        proof {
            assert(seq![0u8] =~= Seq::<u8>::empty().push(0u8));
        }
        out
    }
}

} // verus!
