//! The middlewares that a proxy can run: the open orders authority
//! delegation, a logger and a referral check.
use crate::codec::{u64_at, CancelOrderInstructionV2, MarketInstruction, NewOrderInstructionV3, Side};
use crate::context::{
    path_view, same_account, seeds_extend, seeds_view, signer_copy_of, AccountInfo, AccountMeta,
    AuxInstruction, Context, ErrorCode, Instruction, ProxyError,
};
use crate::seeds::{authority_path, init_authority_path, open_orders_authority, open_orders_init_authority};
use vstd::bytes::{spec_u64_to_le_bytes, u64_from_le_bytes};
use vstd::prelude::*;
use vstd::slice::slice_subrange;

verus! {

/// The token program's id.
pub const TOKEN_PROGRAM_ID: [u8; 32] = [
    6, 221, 246, 225, 215, 101, 161, 147, 217, 203, 225, 70, 206, 235, 121, 172, 28, 180, 133, 237,
    95, 91, 55, 145, 58, 140, 245, 133, 126, 255, 0, 169,
];

/// Offset of the coin lot size, a little-endian `u64`, in a market
/// account's data: 5 bytes of padding, then 43 words.
pub const COIN_LOT_OFFSET: usize = 349;

/// A token program instruction that the proxy issues.
pub enum TokenOp {
    Approve(u64),
    Revoke,
}

/// The data of a token program instruction.
pub open spec fn token_op_data(op: TokenOp) -> Seq<u8> {
    match op {
        TokenOp::Approve(amount) => seq![4u8] + spec_u64_to_le_bytes(amount),
        TokenOp::Revoke => seq![5u8],
    }
}

/// Relies on spl_token's `TokenInstruction::pack`: `Approve` packs as the
/// byte 4 and then the amount in little-endian order; `Revoke` as the byte 5.
#[verifier::external_body]
fn pack_token_instruction(op: TokenOp) -> (r: Vec<u8>)
    ensures
        r@ == token_op_data(op),
{
    match op {
        TokenOp::Approve(amount) => spl_token::instruction::TokenInstruction::Approve { amount }.pack(),
        TokenOp::Revoke => spl_token::instruction::TokenInstruction::Revoke.pack(),
    }
}

/// The coin lot size that a market account's data records.
pub open spec fn coin_lot_size(data: Seq<u8>) -> u64 {
    u64_at(data, COIN_LOT_OFFSET as int)
}

/// The amount that a place-order request must be allowed to move.
pub open spec fn approval_amount(o: NewOrderInstructionV3, market_data: Seq<u8>) -> Result<
    u64,
    ProxyError,
> {
    match o.side {
        Side::Bid => Ok(o.max_native_pc_qty_including_fees),
        Side::Ask => if market_data.len() < COIN_LOT_OFFSET + 8 {
            Err(ProxyError::AccountDataTooSmall)
        } else if o.max_coin_qty * coin_lot_size(market_data) > u64::MAX {
            Err(ProxyError::ArithmeticOverflow)
        } else {
            Ok((o.max_coin_qty * coin_lot_size(market_data)) as u64)
        },
    }
}

/// The amount that a place-order request must be allowed to move: the
/// quote ceiling for a bid; for an ask, the base quantity times the market's
/// coin lot size.
pub fn order_amount(o: &NewOrderInstructionV3, market_data: &Vec<u8>) -> (r: Result<
    u64,
    ProxyError,
>)
    ensures
        r == approval_amount(*o, market_data@),
{
    match o.side {
        Side::Bid => Ok(o.max_native_pc_qty_including_fees),
        Side::Ask => {
            if market_data.len() < COIN_LOT_OFFSET + 8 {
                return Err(ProxyError::AccountDataTooSmall);
            }
            let lot = u64_from_le_bytes(
                slice_subrange(market_data.as_slice(), COIN_LOT_OFFSET, COIN_LOT_OFFSET + 8),
            );
            match o.max_coin_qty.checked_mul(lot) {
                Some(amount) => Ok(amount),
                None => Err(ProxyError::ArithmeticOverflow),
            }
        },
    }
}

/// `aux` asks the token program to let `delegate` move `amount` out of
/// `source`, on the authority of `owner`.
pub open spec fn is_approve(
    aux: AuxInstruction,
    source: AccountInfo,
    delegate: AccountInfo,
    owner: AccountInfo,
    amount: u64,
) -> bool {
    &&& aux.instruction.program_id == TOKEN_PROGRAM_ID
    &&& aux.instruction.data@ == token_op_data(TokenOp::Approve(amount))
    &&& aux.instruction.accounts@ == seq![
        AccountMeta { pubkey: source.key, is_signer: false, is_writable: true },
        AccountMeta { pubkey: delegate.key, is_signer: false, is_writable: false },
        AccountMeta { pubkey: owner.key, is_signer: true, is_writable: false },
    ]
    &&& aux.accounts@.len() == 3
    &&& same_account(aux.accounts@[0], source)
    &&& same_account(aux.accounts@[1], delegate)
    &&& same_account(aux.accounts@[2], owner)
    &&& aux.seeds@.len() == 0
}

/// `aux` asks the token program to withdraw any approval on `source`, on
/// the authority of `owner`.
pub open spec fn is_revoke(aux: AuxInstruction, source: AccountInfo, owner: AccountInfo) -> bool {
    &&& aux.instruction.program_id == TOKEN_PROGRAM_ID
    &&& aux.instruction.data@ == token_op_data(TokenOp::Revoke)
    &&& aux.instruction.accounts@ == seq![
        AccountMeta { pubkey: source.key, is_signer: false, is_writable: true },
        AccountMeta { pubkey: owner.key, is_signer: true, is_writable: false },
    ]
    &&& aux.accounts@.len() == 2
    &&& same_account(aux.accounts@[0], source)
    &&& same_account(aux.accounts@[1], owner)
    &&& aux.seeds@.len() == 0
}

/// Only the working accounts of `new` differ from `old`, if anything.
pub open spec fn same_queues(new: Context, old: Context) -> bool {
    &&& new.program_id == old.program_id
    &&& new.dex_program_id == old.dex_program_id
    &&& new.pre_instructions@ == old.pre_instructions@
    &&& new.post_instructions@ == old.post_instructions@
    &&& new.post_callbacks@ == old.post_callbacks@
    &&& new.logs@ == old.logs@
}

/// The effect of a successful delegation: the seed path of the user's
/// authority is appended, and the account at `slot` becomes a signer copy
/// of the account at `src`; nothing else changes.
pub open spec fn delegated(
    new: Context,
    old: Context,
    market: int,
    user: int,
    src: int,
    slot: int,
    bump: u8,
) -> bool {
    &&& same_queues(new, old)
    &&& new.accounts@ == old.accounts@.update(slot, new.accounts@[slot])
    &&& signer_copy_of(new.accounts@[slot], old.accounts@[src])
    &&& seeds_extend(old.seeds@, new.seeds@)
    &&& seeds_view(new.seeds@) == seeds_view(old.seeds@).push(
        authority_path(old.dex_program_id, old.accounts@[market].key, old.accounts@[user].key, bump),
    )
}

/// Checks that the given open orders owner signs the transaction and then
/// replaces it with the open orders account, which must be a PDA.
#[derive(Clone, Copy, Debug, PartialEq, Eq, Structural)]
pub struct OpenOrdersPda {
    pub bump: u8,
    pub bump_init: u8,
}

/// What the pre-parse hook of [`OpenOrdersPda`] does: it strips the
/// discriminant, and after a zero discriminant the two bumps that follow.
pub open spec fn pda_preparse(p: OpenOrdersPda, d: Seq<u8>) -> Result<
    (OpenOrdersPda, Seq<u8>),
    ProxyError,
> {
    if d.len() == 0 {
        Err(ProxyError::InvalidInstructionData)
    } else if d[0] == 0 {
        if d.len() < 3 {
            Err(ProxyError::InvalidInstructionData)
        } else {
            Ok((OpenOrdersPda { bump: d[1], bump_init: d[2] }, d.subrange(3, d.len() as int)))
        }
    } else {
        Ok((p, d.subrange(1, d.len() as int)))
    }
}

/// The hook failed with `e` and left the context as it was.
pub open spec fn failed_with(r: Result<(), ProxyError>, e: ProxyError, new: Context, old: Context) -> bool {
    r == Err::<(), ProxyError>(e) && new == old
}

/// What the init hook of `p` does: see [`OpenOrdersPda::init_open_orders`].
pub open spec fn init_effect(p: OpenOrdersPda, old: Context, new: Context, r: Result<(), ProxyError>) -> bool {
    let o = old.accounts@;
    let n = new.accounts@;
    if o.len() < 5 {
        failed_with(r, ProxyError::NotEnoughAccountKeys, new, old)
    } else if !o[3].is_signer {
        failed_with(r, ProxyError::MissingRequiredSignature, new, old)
    } else {
        &&& r is Ok
        &&& same_queues(new, old)
        &&& seeds_extend(old.seeds@, new.seeds@)
        &&& seeds_view(new.seeds@) == seeds_view(old.seeds@).push(
            authority_path(old.dex_program_id, o[4].key, o[3].key, p.bump),
        ).push(init_authority_path(old.dex_program_id, o[4].key, p.bump_init))
        &&& n.len() == o.len() - 2
        &&& signer_copy_of(n[1], o[2])
        &&& n.len() > 4 ==> signer_copy_of(n[4], o[6])
        &&& forall|i: int|
            0 <= i < n.len() && i != 1 && i != 4 ==> same_account(#[trigger] n[i], o[i + 2])
    }
}

/// What a delegating hook does: the account at `user` must have signed;
/// then the seed path of its authority is appended and a signer copy of the
/// account at `src` takes its slot.
pub open spec fn delegate_effect(
    bump: u8,
    old: Context,
    new: Context,
    r: Result<(), ProxyError>,
    market: int,
    user: int,
    src: int,
) -> bool {
    let o = old.accounts@;
    if o.len() <= market || o.len() <= user || o.len() <= src {
        failed_with(r, ProxyError::NotEnoughAccountKeys, new, old)
    } else if !o[user].is_signer {
        failed_with(r, ProxyError::Dex(ErrorCode::UnauthorizedUser), new, old)
    } else {
        r is Ok && delegated(new, old, market, user, src, user, bump)
    }
}

/// What the place-order hook of `p` does: see [`OpenOrdersPda::new_order_v3`].
pub open spec fn new_order_effect(
    p: OpenOrdersPda,
    ord: NewOrderInstructionV3,
    old: Context,
    new: Context,
    r: Result<(), ProxyError>,
) -> bool {
    let o = old.accounts@;
    if o.len() < 8 {
        failed_with(r, ProxyError::NotEnoughAccountKeys, new, old)
    } else if !o[7].is_signer {
        failed_with(r, ProxyError::Dex(ErrorCode::UnauthorizedUser), new, old)
    } else {
        match approval_amount(ord, o[0].data@) {
            Err(e) => failed_with(r, e, new, old),
            Ok(amount) => {
                let pre = new.pre_instructions@;
                let post = new.post_instructions@;
                &&& r is Ok
                &&& pre.len() == old.pre_instructions@.len() + 1
                &&& pre.drop_last() == old.pre_instructions@
                &&& is_approve(pre.last(), o[6], o[1], o[7], amount)
                &&& post.len() == old.post_instructions@.len() + 1
                &&& post.drop_last() == old.post_instructions@
                &&& is_revoke(post.last(), o[6], o[7])
                &&& new.program_id == old.program_id
                &&& new.dex_program_id == old.dex_program_id
                &&& new.post_callbacks@ == old.post_callbacks@
                &&& new.logs@ == old.logs@
                &&& new.accounts@ == o.update(7, new.accounts@[7])
                &&& signer_copy_of(new.accounts@[7], o[1])
                &&& seeds_extend(old.seeds@, new.seeds@)
                &&& seeds_view(new.seeds@) == seeds_view(old.seeds@).push(
                    authority_path(old.dex_program_id, o[0].key, o[7].key, p.bump),
                )
            },
        }
    }
}

/// What the prune hook does: the account at position 4 is copied into the
/// owner's slot at position 5.
pub open spec fn prune_effect(old: Context, new: Context, r: Result<(), ProxyError>) -> bool {
    if old.accounts@.len() < 6 {
        failed_with(r, ProxyError::NotEnoughAccountKeys, new, old)
    } else {
        &&& r is Ok
        &&& same_queues(new, old)
        &&& new.seeds@ == old.seeds@
        &&& new.accounts@ == old.accounts@.update(5, new.accounts@[5])
        &&& same_account(new.accounts@[5], old.accounts@[4])
    }
}

/// The diagnostic record of an operation, if it has one.
pub open spec fn log_message(ix: MarketInstruction) -> Option<&'static str> {
    match ix {
        MarketInstruction::InitOpenOrders => Some("proxying open orders"),
        MarketInstruction::NewOrderV3(_) => Some("proxying new order v3"),
        MarketInstruction::CancelOrderV2(_) => Some("proxying cancel order v2"),
        MarketInstruction::CancelOrderByClientIdV2(_) => Some(
            "proxying cancel order by client id v2",
        ),
        MarketInstruction::SettleFunds => Some("proxying settle funds"),
        MarketInstruction::CloseOpenOrders => Some("proxying close open orders"),
        MarketInstruction::Prune(_) => Some("proxying prune"),
        _ => None,
    }
}

/// What the logger does: one record for a logged operation, nothing else.
pub open spec fn logger_effect(ix: MarketInstruction, old: Context, new: Context, r: Result<(), ProxyError>) -> bool {
    &&& r is Ok
    &&& new.logs@ == match log_message(ix) {
        Some(m) => old.logs@.push(m),
        None => old.logs@,
    }
    &&& new.accounts@ == old.accounts@
    &&& new.seeds@ == old.seeds@
    &&& new.program_id == old.program_id
    &&& new.dex_program_id == old.dex_program_id
    &&& new.pre_instructions@ == old.pre_instructions@
    &&& new.post_instructions@ == old.post_instructions@
    &&& new.post_callbacks@ == old.post_callbacks@
}

/// What the referral check returns on a settle request.
pub open spec fn referral_effect(f: ReferralFees, ctx: Context, r: Result<(), ProxyError>) -> bool {
    let a = ctx.accounts@;
    if a.len() < 10 {
        r == Err::<(), ProxyError>(ProxyError::NotEnoughAccountKeys)
    } else if a[9].data@.len() < 64 {
        r == Err::<(), ProxyError>(ProxyError::AccountDataTooSmall)
    } else if token_account_authority(a[9].data@) == f.referral@ {
        r is Ok
    } else {
        r == Err::<(), ProxyError>(ProxyError::Dex(ErrorCode::InvalidReferral))
    }
}

fn push_authority_seeds(ctx: &mut Context, market: usize, user: usize, bump: u8)
    requires
        market < old(ctx).accounts@.len(),
        user < old(ctx).accounts@.len(),
    ensures
        final(ctx).accounts@ == old(ctx).accounts@,
        same_queues(*final(ctx), *old(ctx)),
        seeds_extend(old(ctx).seeds@, final(ctx).seeds@),
        seeds_view(final(ctx).seeds@) == seeds_view(old(ctx).seeds@).push(
            authority_path(
                old(ctx).dex_program_id,
                old(ctx).accounts@[market as int].key,
                old(ctx).accounts@[user as int].key,
                bump,
            ),
        ),
{
    let path = open_orders_authority(
        &ctx.dex_program_id,
        &ctx.accounts[market].key,
        &ctx.accounts[user].key,
        bump,
    );
    ctx.seeds.push(path);
    proof {
        assert(ctx.seeds@.subrange(0, old(ctx).seeds@.len() as int) =~= old(ctx).seeds@);
        assert(seeds_view(final(ctx).seeds@) =~= seeds_view(old(ctx).seeds@).push(
            path_view(path),
        ));
    }
}

impl OpenOrdersPda {
    pub fn new() -> (r: OpenOrdersPda)
        ensures
            r.bump == 0 && r.bump_init == 0,
    {
        OpenOrdersPda { bump: 0, bump_init: 0 }
    }

    /// Called before decoding, with the raw instruction data: strips the
    /// discriminant, and for the init instruction reads the two bumps.
    /// Returns the rest of the data.
    pub fn instruction<'d>(&mut self, data: &'d [u8]) -> (r: Result<&'d [u8], ProxyError>)
        ensures
            match pda_preparse(*old(self), data@) {
                Ok((p, rest)) => r is Ok && r->Ok_0@ == rest && *final(self) == p,
                Err(e) => r == Err::<&[u8], ProxyError>(e) && *final(self) == *old(self),
            },
    {
        if data.len() == 0 {
            return Err(ProxyError::InvalidInstructionData);
        }
        let n = data.len();
        if data[0] == 0 {
            if n < 3 {
                return Err(ProxyError::InvalidInstructionData);
            }
            self.bump = data[1];
            self.bump_init = data[2];
            Ok(slice_subrange(data, 3, n))
        } else {
            Ok(slice_subrange(data, 1, n))
        }
    }

    /// Checks that the user, the second account after the dex and system
    /// programs, signed; appends the seed paths of the user's authority
    /// and of the init authority; drops the two leading accounts; puts a
    /// signer copy of the open orders account in the user's slot; and marks
    /// the market authority, if present, as a signer.
    pub fn init_open_orders(&self, ctx: &mut Context) -> (r: Result<(), ProxyError>)
        ensures
            init_effect(*self, *old(ctx), *final(ctx), r),
    {
        if ctx.accounts.len() < 5 {
            return Err(ProxyError::NotEnoughAccountKeys);
        }
        if !ctx.accounts[3].is_signer {
            return Err(ProxyError::MissingRequiredSignature);
        }
        push_authority_seeds(ctx, 4, 3, self.bump);
        let init_path = open_orders_init_authority(
            &ctx.dex_program_id,
            &ctx.accounts[4].key,
            self.bump_init,
        );
        let ghost mid_seeds = ctx.seeds@;
        ctx.seeds.push(init_path);
        proof {
            assert(ctx.seeds@.subrange(0, old(ctx).seeds@.len() as int) =~= mid_seeds.subrange(
                0,
                old(ctx).seeds@.len() as int,
            ));
            assert(seeds_view(ctx.seeds@) =~= seeds_view(mid_seeds).push(path_view(init_path)));
        }
        let ghost o = ctx.accounts@;
        // The dex and system programs are not passed on.
        let _dex_program = ctx.accounts.remove(0);
        let _system_program = ctx.accounts.remove(0);
        proof {
            assert(ctx.accounts@ =~= o.subrange(2, o.len() as int));
        }
        let pda = ctx.accounts[0].prepare_pda();
        ctx.accounts[1] = pda;
        if ctx.accounts.len() > 4 {
            ctx.accounts[4].is_signer = true;
        }
        Ok(())
    }

    /// Checks that the account at `user` signed, appends the seed path of
    /// the user's authority, and puts a signer copy of the account at `src`
    /// in its place.
    fn delegate(&self, ctx: &mut Context, market: usize, user: usize, src: usize) -> (r: Result<
        (),
        ProxyError,
    >)
        ensures
            delegate_effect(self.bump, *old(ctx), *final(ctx), r, market as int, user as int, src as int),
    {
        let n = ctx.accounts.len();
        if n <= market || n <= user || n <= src {
            return Err(ProxyError::NotEnoughAccountKeys);
        }
        if !ctx.accounts[user].is_signer {
            return Err(ProxyError::Dex(ErrorCode::UnauthorizedUser));
        }
        push_authority_seeds(ctx, market, user, self.bump);
        let pda = ctx.accounts[src].prepare_pda();
        ctx.accounts[user] = pda;
        Ok(())
    }

    /// Place order: the owner at position 7 must sign. Before the relay the
    /// paying token account at position 6 approves the open orders account at
    /// position 1 for the order's amount, and after it the approval is
    /// revoked; the owner's slot takes a signer copy of the open orders
    /// account.
    pub fn new_order_v3(&self, ctx: &mut Context, ix: &mut NewOrderInstructionV3) -> (r: Result<
        (),
        ProxyError,
    >)
        ensures
            *final(ix) == *old(ix),
            new_order_effect(*self, *old(ix), *old(ctx), *final(ctx), r),
    {
        if ctx.accounts.len() < 8 {
            return Err(ProxyError::NotEnoughAccountKeys);
        }
        if !ctx.accounts[7].is_signer {
            return Err(ProxyError::Dex(ErrorCode::UnauthorizedUser));
        }
        let amount = match order_amount(ix, &ctx.accounts[0].data) {
            Ok(a) => a,
            Err(e) => return Err(e),
        };
        let ghost o = ctx.accounts@;
        let payer = ctx.accounts[6].duplicate();
        let open_orders = ctx.accounts[1].duplicate();
        let user = ctx.accounts[7].duplicate();
        let approve = AuxInstruction {
            instruction: Instruction {
                program_id: TOKEN_PROGRAM_ID,
                accounts: vec![
                    AccountMeta { pubkey: payer.key, is_signer: false, is_writable: true },
                    AccountMeta { pubkey: open_orders.key, is_signer: false, is_writable: false },
                    AccountMeta { pubkey: user.key, is_signer: true, is_writable: false },
                ],
                data: pack_token_instruction(TokenOp::Approve(amount)),
            },
            accounts: vec![payer.duplicate(), open_orders.duplicate(), user.duplicate()],
            seeds: Vec::new(),
        };
        let revoke = AuxInstruction {
            instruction: Instruction {
                program_id: TOKEN_PROGRAM_ID,
                accounts: vec![
                    AccountMeta { pubkey: payer.key, is_signer: false, is_writable: true },
                    AccountMeta { pubkey: user.key, is_signer: true, is_writable: false },
                ],
                data: pack_token_instruction(TokenOp::Revoke),
            },
            accounts: vec![payer, user],
            seeds: Vec::new(),
        };
        let ghost old_pre = ctx.pre_instructions@;
        let ghost old_post = ctx.post_instructions@;
        ctx.pre_instructions.push(approve);
        ctx.post_instructions.push(revoke);
        proof {
            assert(ctx.pre_instructions@.drop_last() =~= old_pre);
            assert(ctx.post_instructions@.drop_last() =~= old_post);
        }
        push_authority_seeds(ctx, 0, 7, self.bump);
        ctx.accounts[7] = open_orders.prepare_pda();
        Ok(())
    }

    /// Cancel: the owner at position 4 must sign; it is replaced by the open
    /// orders account at position 3.
    pub fn cancel_order_v2(&self, ctx: &mut Context, ix: &mut CancelOrderInstructionV2) -> (r:
        Result<(), ProxyError>)
        ensures
            *final(ix) == *old(ix),
            delegate_effect(self.bump, *old(ctx), *final(ctx), r, 0, 4, 3),
    {
        self.delegate(ctx, 0, 4, 3)
    }

    /// Cancel by client id: the same account shape as [`Self::cancel_order_v2`].
    pub fn cancel_order_by_client_id_v2(&self, ctx: &mut Context, client_id: &mut u64) -> (r:
        Result<(), ProxyError>)
        ensures
            *final(client_id) == *old(client_id),
            delegate_effect(self.bump, *old(ctx), *final(ctx), r, 0, 4, 3),
    {
        self.delegate(ctx, 0, 4, 3)
    }

    /// Settle: the owner at position 2 must sign; it is replaced by the open
    /// orders account at position 1.
    pub fn settle_funds(&self, ctx: &mut Context) -> (r: Result<(), ProxyError>)
        ensures
            delegate_effect(self.bump, *old(ctx), *final(ctx), r, 0, 2, 1),
    {
        self.delegate(ctx, 0, 2, 1)
    }

    /// Close: the owner at position 1 must sign; it is replaced by the open
    /// orders account at position 0. The market is at position 3.
    pub fn close_open_orders(&self, ctx: &mut Context) -> (r: Result<(), ProxyError>)
        ensures
            delegate_effect(self.bump, *old(ctx), *final(ctx), r, 3, 1, 0),
    {
        self.delegate(ctx, 3, 1, 0)
    }

    /// Prune: the open orders account at position 4 is made its own owner,
    /// in the owner's slot at position 5.
    pub fn prune(&self, ctx: &mut Context, limit: &mut u16) -> (r: Result<(), ProxyError>)
        ensures
            *final(limit) == *old(limit),
            prune_effect(*old(ctx), *final(ctx), r),
    {
        if ctx.accounts.len() < 6 {
            return Err(ProxyError::NotEnoughAccountKeys);
        }
        let copy = ctx.accounts[4].duplicate();
        ctx.accounts[5] = copy;
        Ok(())
    }
}

fn log(ctx: &mut Context, msg: &'static str)
    ensures
        final(ctx).logs@ == old(ctx).logs@.push(msg),
        final(ctx).accounts@ == old(ctx).accounts@,
        final(ctx).seeds@ == old(ctx).seeds@,
        final(ctx).program_id == old(ctx).program_id,
        final(ctx).dex_program_id == old(ctx).dex_program_id,
        final(ctx).pre_instructions@ == old(ctx).pre_instructions@,
        final(ctx).post_instructions@ == old(ctx).post_instructions@,
        final(ctx).post_callbacks@ == old(ctx).post_callbacks@,
{
    ctx.logs.push(msg);
}

/// Logs each request.
#[derive(Clone, Copy, Debug, PartialEq, Eq, Structural)]
pub struct Logger;

impl Logger {
    /// The diagnostic record of an operation, or `None` for one that is not
    /// logged.
    pub fn message(ix: &MarketInstruction) -> (r: Option<&'static str>)
        ensures
            r == log_message(*ix),
    {
        match ix {
            MarketInstruction::InitOpenOrders => Some("proxying open orders"),
            MarketInstruction::NewOrderV3(_) => Some("proxying new order v3"),
            MarketInstruction::CancelOrderV2(_) => Some("proxying cancel order v2"),
            MarketInstruction::CancelOrderByClientIdV2(_) => Some(
                "proxying cancel order by client id v2",
            ),
            MarketInstruction::SettleFunds => Some("proxying settle funds"),
            MarketInstruction::CloseOpenOrders => Some("proxying close open orders"),
            MarketInstruction::Prune(_) => Some("proxying prune"),
            _ => None,
        }
    }

    /// Emits the diagnostic record of the operation, if it has one. Never
    /// fails and changes nothing else.
    pub fn handle(&self, ctx: &mut Context, ix: &MarketInstruction) -> (r: Result<(), ProxyError>)
        ensures
            logger_effect(*ix, *old(ctx), *final(ctx), r),
    {
        match Logger::message(ix) {
            Some(msg) => log(ctx, msg),
            None => {},
        }
        Ok(())
    }
}

/// The authority recorded in a token account's data: bytes 32 to 64.
pub open spec fn token_account_authority(data: Seq<u8>) -> Seq<u8> {
    data.subrange(32, 64)
}

/// Whether the authority recorded in a token account's data is `key`.
fn authority_is(data: &Vec<u8>, key: &[u8; 32]) -> (r: bool)
    requires
        data@.len() >= 64,
    ensures
        r == (token_account_authority(data@) == key@),
{
    let mut i: usize = 0;
    while i < 32
        invariant
            0 <= i <= 32,
            data@.len() >= 64,
            key@.len() == 32,
            forall|j: int| 0 <= j < i ==> data@[32 + j] == key@[j],
        decreases 32 - i,
    {
        if data[32 + i] != key[i] {
            assert(token_account_authority(data@)[i as int] != key@[i as int]);
            return false;
        }
        i = i + 1;
    }
    assert(token_account_authority(data@) =~= key@);
    true
}

/// Enforces referral fees being sent to the configured address.
#[derive(Clone, Copy, Debug, PartialEq, Eq)]
pub struct ReferralFees {
    pub referral: [u8; 32],
}

impl ReferralFees {
    pub fn new(referral: [u8; 32]) -> (r: ReferralFees)
        ensures
            r.referral == referral,
    {
        ReferralFees { referral }
    }

    /// Settle: the referrer's token account at position 9 must belong to the
    /// configured referral address. Changes nothing.
    pub fn settle_funds(&self, ctx: &Context) -> (r: Result<(), ProxyError>)
        ensures
            referral_effect(*self, *ctx, r),
    {
        if ctx.accounts.len() < 10 {
            return Err(ProxyError::NotEnoughAccountKeys);
        }
        let data = &ctx.accounts[9].data;
        if data.len() < 64 {
            return Err(ProxyError::AccountDataTooSmall);
        }
        if authority_is(data, &self.referral) {
            Ok(())
        } else {
            Err(ProxyError::Dex(ErrorCode::InvalidReferral))
        }
    }
}

/// For an ask, the approved amount is proportional to the market's coin lot
/// size: a lot size `k` times as large gives an amount `k` times as large.
pub proof fn lemma_ask_amount_scales(o: NewOrderInstructionV3, d1: Seq<u8>, d2: Seq<u8>, k: nat)
    requires
        o.side == Side::Ask,
        coin_lot_size(d2) == k * coin_lot_size(d1),
        approval_amount(o, d1) is Ok,
        approval_amount(o, d2) is Ok,
    ensures
        approval_amount(o, d2)->Ok_0 == k * approval_amount(o, d1)->Ok_0,
{
    assert(o.max_coin_qty * (k * coin_lot_size(d1)) == k * (o.max_coin_qty * coin_lot_size(d1)))
        by (nonlinear_arith);
}

} // verus!
