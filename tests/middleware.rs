use permissioned::middleware::order_amount;
use permissioned::{
    AccountInfo, Context, ErrorCode, Logger, MarketInstruction, NewOrderInstructionV3,
    OpenOrdersPda, OrderType, ProxyError, ReferralFees, SelfTradeBehavior, Side, COIN_LOT_OFFSET,
    TOKEN_PROGRAM_ID,
};

fn key(n: u8) -> [u8; 32] {
    let mut k = [0u8; 32];
    k[0] = n;
    k[31] = 0xAB;
    k
}

fn dummy_account(n: u8, is_signer: bool) -> AccountInfo {
    AccountInfo { key: key(n), is_signer, is_writable: false, owner: [0u8; 32], data: vec![] }
}

fn accounts(n: usize, signer: Option<usize>) -> Vec<AccountInfo> {
    (0..n).map(|i| dummy_account(i as u8 + 1, signer == Some(i))).collect()
}

fn order(side: Side, max_coin_qty: u64, max_pc: u64) -> NewOrderInstructionV3 {
    NewOrderInstructionV3 {
        side,
        limit_price: 1,
        max_coin_qty,
        max_native_pc_qty_including_fees: max_pc,
        self_trade_behavior: SelfTradeBehavior::AbortTransaction,
        order_type: OrderType::Limit,
        client_order_id: 0,
        limit: 1,
    }
}

fn market_data(lot: u64) -> Vec<u8> {
    let mut d = vec![0u8; COIN_LOT_OFFSET + 8 + 16];
    d[COIN_LOT_OFFSET..COIN_LOT_OFFSET + 8].copy_from_slice(&lot.to_le_bytes());
    d
}

#[test]
fn test_instruction_parsing() {
    let mut pda = OpenOrdersPda::new();
    let data: &[u8] = &[0, 42, 99, 1, 2, 3];
    let rest = pda.instruction(data).unwrap();
    assert_eq!(pda.bump, 42);
    assert_eq!(pda.bump_init, 99);
    assert_eq!(rest, &[1, 2, 3]);
}

#[test]
fn test_init_open_orders_valid() {
    let pda = OpenOrdersPda { bump: 1, bump_init: 2 };
    // After skipping 2, 5 remain; the second of those must sign.
    let mut ctx = Context::new(key(200), key(201), accounts(7, Some(3)));
    assert!(pda.init_open_orders(&mut ctx).is_ok());
    assert_eq!(ctx.seeds.len(), 2);
}

#[test]
fn test_init_open_orders_missing_signer() {
    let pda = OpenOrdersPda { bump: 1, bump_init: 2 };
    let mut ctx = Context::new(key(200), key(201), accounts(6, None));
    assert!(pda.init_open_orders(&mut ctx).is_err());
}

#[test]
fn test_logger_hooks() {
    let logger = Logger;
    let mut ctx = Context::new(key(200), key(201), accounts(6, Some(1)));
    assert!(logger.handle(&mut ctx, &MarketInstruction::InitOpenOrders).is_ok());
    let ix = MarketInstruction::NewOrderV3(order(Side::Bid, 1, 1));
    assert!(logger.handle(&mut ctx, &ix).is_ok());
    assert_eq!(ctx.logs, vec!["proxying open orders", "proxying new order v3"]);
}

fn open_orders_label() -> Vec<u8> {
    b"open-orders".to_vec()
}

#[test]
fn init_open_orders_drops_infrastructure_accounts_and_appends_two_paths() {
    let pda = OpenOrdersPda { bump: 7, bump_init: 9 };
    let dex = key(201);
    let mut ctx = Context::new(key(200), dex, accounts(5, Some(3)));
    assert_eq!(pda.init_open_orders(&mut ctx), Ok(()));
    assert_eq!(ctx.accounts.len(), 3);
    // The user's slot holds a signer copy of the open orders account.
    assert_eq!(ctx.accounts[0].key, key(3));
    assert_eq!(ctx.accounts[1].key, key(3));
    assert!(ctx.accounts[1].is_signer);
    assert_eq!(ctx.accounts[2].key, key(5));
    assert_eq!(
        ctx.seeds[0],
        vec![open_orders_label(), dex.to_vec(), key(5).to_vec(), key(4).to_vec(), vec![7]]
    );
    assert_eq!(
        ctx.seeds[1],
        vec![b"open-orders-init".to_vec(), dex.to_vec(), key(5).to_vec(), vec![9]]
    );
}

#[test]
fn init_open_orders_marks_market_authority_signer() {
    let pda = OpenOrdersPda { bump: 1, bump_init: 2 };
    let mut ctx = Context::new(key(200), key(201), accounts(7, Some(3)));
    pda.init_open_orders(&mut ctx).unwrap();
    assert_eq!(ctx.accounts.len(), 5);
    assert!(ctx.accounts[4].is_signer);
    assert_eq!(ctx.accounts[4].key, key(7));
    assert!(!ctx.accounts[2].is_signer);
}

#[test]
fn init_open_orders_errors() {
    let pda = OpenOrdersPda { bump: 1, bump_init: 2 };
    let mut ctx = Context::new(key(200), key(201), accounts(4, Some(3)));
    assert_eq!(pda.init_open_orders(&mut ctx), Err(ProxyError::NotEnoughAccountKeys));
    assert_eq!(ctx.accounts.len(), 4);
    let mut ctx = Context::new(key(200), key(201), accounts(5, Some(2)));
    assert_eq!(pda.init_open_orders(&mut ctx), Err(ProxyError::MissingRequiredSignature));
    assert_eq!(ctx.accounts.len(), 5);
    assert!(ctx.seeds.is_empty());
}

#[test]
fn preparse_errors_on_short_data() {
    let mut pda = OpenOrdersPda::new();
    assert_eq!(pda.instruction(&[]), Err(ProxyError::InvalidInstructionData));
    assert_eq!(pda.instruction(&[0, 1]), Err(ProxyError::InvalidInstructionData));
    assert_eq!(pda.bump, 0);
    let rest = pda.instruction(&[3, 4, 5]).unwrap();
    assert_eq!(rest, &[4, 5]);
    assert_eq!(pda.bump, 0);
}

fn new_order_ctx(signer: bool, lot: u64) -> Context {
    let mut accs = accounts(12, if signer { Some(7) } else { None });
    accs[0].data = market_data(lot);
    Context::new(key(200), key(201), accs)
}

#[test]
fn new_order_bid_approves_quote_ceiling() {
    let pda = OpenOrdersPda { bump: 3, bump_init: 0 };
    let mut ctx = new_order_ctx(true, 10);
    let mut o = order(Side::Bid, 5, 777);
    assert_eq!(pda.new_order_v3(&mut ctx, &mut o), Ok(()));
    assert_eq!(ctx.pre_instructions.len(), 1);
    let approve = &ctx.pre_instructions[0].instruction;
    let mut expected = vec![4u8];
    expected.extend_from_slice(&777u64.to_le_bytes());
    assert_eq!(approve.data, expected);
    assert_eq!(approve.program_id, TOKEN_PROGRAM_ID);
    assert_eq!(approve.accounts[0].pubkey, key(7));
    assert_eq!(approve.accounts[1].pubkey, key(2));
    assert_eq!(approve.accounts[2].pubkey, key(8));
    assert!(approve.accounts[2].is_signer);
    assert_eq!(ctx.post_instructions.len(), 1);
    assert_eq!(ctx.post_instructions[0].instruction.data, vec![5u8]);
    // The owner's slot now holds a signer copy of the open orders account.
    assert_eq!(ctx.accounts[7].key, key(2));
    assert!(ctx.accounts[7].is_signer);
    assert_eq!(ctx.seeds.len(), 1);
    assert_eq!(ctx.seeds[0][3], key(8).to_vec());
    assert_eq!(ctx.seeds[0][4], vec![3]);
}

#[test]
fn new_order_ask_approves_quantity_times_lot_size() {
    let pda = OpenOrdersPda::new();
    let mut ctx = new_order_ctx(true, 100);
    let mut o = order(Side::Ask, 6, 1);
    pda.new_order_v3(&mut ctx, &mut o).unwrap();
    assert_eq!(&ctx.pre_instructions[0].instruction.data[1..], &600u64.to_le_bytes());
    let mut ctx = new_order_ctx(true, 300);
    pda.new_order_v3(&mut ctx, &mut o).unwrap();
    assert_eq!(&ctx.pre_instructions[0].instruction.data[1..], &1800u64.to_le_bytes());
}

#[test]
fn approve_and_revoke_data_match_token_program() {
    let pda = OpenOrdersPda::new();
    let mut ctx = new_order_ctx(true, 100);
    let mut o = order(Side::Ask, 6, 1);
    pda.new_order_v3(&mut ctx, &mut o).unwrap();
    let k = |n: u8| solana_program::pubkey::Pubkey::new_from_array(key(n));
    let approve = spl_token::instruction::approve(&spl_token::ID, &k(7), &k(2), &k(8), &[], 600)
        .unwrap();
    assert_eq!(ctx.pre_instructions[0].instruction.data, approve.data);
    let revoke = spl_token::instruction::revoke(&spl_token::ID, &k(7), &k(8), &[]).unwrap();
    assert_eq!(ctx.post_instructions[0].instruction.data, revoke.data);
    assert_eq!(TOKEN_PROGRAM_ID, spl_token::ID.to_bytes());
    let metas: Vec<_> = ctx.pre_instructions[0]
        .instruction
        .accounts
        .iter()
        .map(|m| (m.pubkey, m.is_signer, m.is_writable))
        .collect();
    let expected: Vec<_> = approve
        .accounts
        .iter()
        .map(|m| (m.pubkey.to_bytes(), m.is_signer, m.is_writable))
        .collect();
    assert_eq!(metas, expected);
}

#[test]
fn order_amount_errors() {
    let o = order(Side::Ask, u64::MAX, 1);
    assert_eq!(order_amount(&o, &market_data(2)), Err(ProxyError::ArithmeticOverflow));
    assert_eq!(order_amount(&o, &vec![0u8; 10]), Err(ProxyError::AccountDataTooSmall));
    assert_eq!(order_amount(&order(Side::Bid, 1, 9), &vec![]), Ok(9));
    assert_eq!(order_amount(&order(Side::Ask, 4, 9), &market_data(25)), Ok(100));
}

#[test]
fn new_order_requires_owner_signature() {
    let pda = OpenOrdersPda::new();
    let mut ctx = new_order_ctx(false, 1);
    let mut o = order(Side::Bid, 1, 1);
    assert_eq!(
        pda.new_order_v3(&mut ctx, &mut o),
        Err(ProxyError::Dex(ErrorCode::UnauthorizedUser))
    );
    assert!(ctx.pre_instructions.is_empty());
    assert!(ctx.seeds.is_empty());
}

#[test]
fn cancel_settle_close_substitute_owner() {
    let pda = OpenOrdersPda { bump: 4, bump_init: 0 };
    let mut ctx = Context::new(key(200), key(201), accounts(6, Some(4)));
    let mut c = permissioned::CancelOrderInstructionV2 { side: Side::Ask, order_id: 5 };
    pda.cancel_order_v2(&mut ctx, &mut c).unwrap();
    assert_eq!(ctx.accounts[4].key, key(4));
    assert!(ctx.accounts[4].is_signer);
    assert_eq!(ctx.seeds[0][2], key(1).to_vec());
    assert_eq!(ctx.seeds[0][3], key(5).to_vec());

    let mut ctx = Context::new(key(200), key(201), accounts(6, Some(4)));
    let mut id = 77u64;
    pda.cancel_order_by_client_id_v2(&mut ctx, &mut id).unwrap();
    assert_eq!(ctx.accounts[4].key, key(4));

    let mut ctx = Context::new(key(200), key(201), accounts(10, Some(2)));
    pda.settle_funds(&mut ctx).unwrap();
    assert_eq!(ctx.accounts[2].key, key(2));
    assert!(ctx.accounts[2].is_signer);

    let mut ctx = Context::new(key(200), key(201), accounts(4, Some(1)));
    pda.close_open_orders(&mut ctx).unwrap();
    assert_eq!(ctx.accounts[1].key, key(1));
    assert_eq!(ctx.seeds[0][2], key(4).to_vec());
    assert_eq!(ctx.seeds[0][3], key(2).to_vec());

    let mut ctx = Context::new(key(200), key(201), accounts(10, None));
    assert_eq!(pda.settle_funds(&mut ctx), Err(ProxyError::Dex(ErrorCode::UnauthorizedUser)));
}

#[test]
fn prune_makes_open_orders_its_own_owner() {
    let pda = OpenOrdersPda::new();
    let mut ctx = Context::new(key(200), key(201), accounts(7, None));
    let mut limit = 3u16;
    pda.prune(&mut ctx, &mut limit).unwrap();
    assert_eq!(ctx.accounts[5].key, key(5));
    assert_eq!(ctx.accounts[4].key, key(5));
    assert!(ctx.seeds.is_empty());
}

fn referral_ctx(authority: [u8; 32]) -> Context {
    let mut accs = accounts(10, None);
    let mut data = vec![0u8; 165];
    data[32..64].copy_from_slice(&authority);
    accs[9].data = data;
    Context::new(key(200), key(201), accs)
}

#[test]
fn referral_accepts_configured_address() {
    let fees = ReferralFees::new(key(99));
    assert_eq!(fees.settle_funds(&referral_ctx(key(99))), Ok(()));
}

#[test]
fn referral_rejects_other_address() {
    let fees = ReferralFees::new(key(99));
    assert_eq!(
        fees.settle_funds(&referral_ctx(key(98))),
        Err(ProxyError::Dex(ErrorCode::InvalidReferral))
    );
    let mut ctx = referral_ctx(key(99));
    ctx.accounts[9].data.truncate(40);
    assert_eq!(fees.settle_funds(&ctx), Err(ProxyError::AccountDataTooSmall));
    let ctx = Context::new(key(200), key(201), accounts(9, None));
    assert_eq!(fees.settle_funds(&ctx), Err(ProxyError::NotEnoughAccountKeys));
}

#[test]
fn error_codes_are_numbered_from_500() {
    assert_eq!(ErrorCode::InvalidDexPid.code(), 500);
    assert_eq!(ErrorCode::InvalidReferral.code(), 503);
    assert_eq!(ErrorCode::UnauthorizedUser.code(), 504);
    assert_eq!(ErrorCode::InvalidTargetProgram.code(), 506);
}
