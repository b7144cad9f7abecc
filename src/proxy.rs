//! The middleware chain and the relay that a proxy builds for each request.
use crate::codec::{decode, encode, lemma_decode_then_encode, MarketInstruction};
use crate::context::{
    keys_equal, lemma_seeds_accumulate, seeds_extend, AccountInfo, AccountMeta, AuxInstruction, Context, ErrorCode, Instruction,
    PostCallback, ProxyError,
};
use crate::middleware::{
    delegate_effect, init_effect, logger_effect, new_order_effect, pda_preparse, prune_effect,
    referral_effect, Logger, OpenOrdersPda, ReferralFees,
};
use vstd::prelude::*;

verus! {

/// The order-book program that requests are relayed to.
pub const SERUM_DEX_PROGRAM_ID: [u8; 32] = [
    57, 197, 30, 22, 184, 218, 211, 222, 151, 184, 186, 13, 222, 222, 222, 222, 151, 184, 186, 13,
    222, 222, 222, 222, 151, 184, 186, 13, 222, 222, 222, 222,
];

/// A policy unit of the chain: one hook per operation, a pre-parse hook on
/// the raw bytes, and a fallback for unrecognized instructions.
#[derive(Clone, Copy, Debug)]
pub enum MarketMiddleware {
    OpenOrdersPda(OpenOrdersPda),
    Logger(Logger),
    ReferralFees(ReferralFees),
}

/// What one middleware's pre-parse hook does to the raw bytes.
pub open spec fn preparse_step(mw: MarketMiddleware, d: Seq<u8>) -> Result<
    (MarketMiddleware, Seq<u8>),
    ProxyError,
> {
    match mw {
        MarketMiddleware::OpenOrdersPda(p) => match pda_preparse(p, d) {
            Ok((q, rest)) => Ok((MarketMiddleware::OpenOrdersPda(q), rest)),
            Err(e) => Err(e),
        },
        _ => Ok((mw, d)),
    }
}

/// The pre-parse hooks of `mws`, each run once, in order, each on what the
/// ones before it left.
pub open spec fn preparse_all(mws: Seq<MarketMiddleware>, d: Seq<u8>) -> Result<
    (Seq<MarketMiddleware>, Seq<u8>),
    ProxyError,
>
    decreases mws.len(),
{
    if mws.len() == 0 {
        Ok((Seq::empty(), d))
    } else {
        match preparse_all(mws.drop_last(), d) {
            Ok((done, rest)) => match preparse_step(mws.last(), rest) {
                Ok((m, rest2)) => Ok((done.push(m), rest2)),
                Err(e) => Err(e),
            },
            Err(e) => Err(e),
        }
    }
}

/// The number of working accounts that each operation needs at least.
pub open spec fn min_accounts(ix: MarketInstruction) -> nat {
    match ix {
        MarketInstruction::InitOpenOrders => 4,
        MarketInstruction::NewOrderV3(_) => 12,
        MarketInstruction::CancelOrderV2(_) => 6,
        MarketInstruction::CancelOrderByClientIdV2(_) => 6,
        MarketInstruction::SettleFunds => 10,
        MarketInstruction::CloseOpenOrders => 4,
        MarketInstruction::ConsumeEvents(_) => 4,
        MarketInstruction::ConsumeEventsPermissioned(_) => 3,
        MarketInstruction::Prune(_) => 7,
    }
}

/// The number of working accounts that each operation needs at least.
pub fn required_accounts(ix: &MarketInstruction) -> (r: usize)
    ensures
        r == min_accounts(*ix),
{
    match ix {
        MarketInstruction::InitOpenOrders => 4,
        MarketInstruction::NewOrderV3(_) => 12,
        MarketInstruction::CancelOrderV2(_) => 6,
        MarketInstruction::CancelOrderByClientIdV2(_) => 6,
        MarketInstruction::SettleFunds => 10,
        MarketInstruction::CloseOpenOrders => 4,
        MarketInstruction::ConsumeEvents(_) => 4,
        MarketInstruction::ConsumeEventsPermissioned(_) => 3,
        MarketInstruction::Prune(_) => 7,
    }
}

/// What the hook of operation `ix` of middleware `mw` does, taking the
/// context from `old` to `new` with result `r`.
pub open spec fn hook_effect(
    mw: MarketMiddleware,
    ix: MarketInstruction,
    old: Context,
    new: Context,
    r: Result<(), ProxyError>,
) -> bool {
    match mw {
        MarketMiddleware::OpenOrdersPda(p) => match ix {
            MarketInstruction::InitOpenOrders => init_effect(p, old, new, r),
            MarketInstruction::NewOrderV3(o) => new_order_effect(p, o, old, new, r),
            MarketInstruction::CancelOrderV2(_) => delegate_effect(p.bump, old, new, r, 0, 4, 3),
            MarketInstruction::CancelOrderByClientIdV2(_) => delegate_effect(
                p.bump,
                old,
                new,
                r,
                0,
                4,
                3,
            ),
            MarketInstruction::SettleFunds => delegate_effect(p.bump, old, new, r, 0, 2, 1),
            MarketInstruction::CloseOpenOrders => delegate_effect(p.bump, old, new, r, 3, 1, 0),
            MarketInstruction::Prune(_) => prune_effect(old, new, r),
            _ => r is Ok && new == old,
        },
        MarketMiddleware::Logger(_) => logger_effect(ix, old, new, r),
        MarketMiddleware::ReferralFees(f) => new == old && match ix {
            MarketInstruction::SettleFunds => referral_effect(f, old, r),
            _ => r is Ok,
        },
    }
}

/// `trace` is the run of the hooks of `mws` for `ix`, in order, from
/// `trace[0]`: each hook before the last takes its context to the next one
/// and succeeds. With `r` ok every hook ran; with an error the last hook
/// that ran failed with it.
pub open spec fn hook_chain(
    mws: Seq<MarketMiddleware>,
    ix: MarketInstruction,
    trace: Seq<Context>,
    r: Result<(), ProxyError>,
) -> bool {
    &&& 1 <= trace.len() <= mws.len() + 1
    &&& forall|i: int|
        0 <= i < trace.len() - 1 ==> hook_effect(
            mws[i],
            ix,
            #[trigger] trace[i],
            trace[i + 1],
            if i == trace.len() - 2 {
                r
            } else {
                Ok(())
            },
        )
    &&& r is Ok ==> trace.len() == mws.len() + 1
    &&& r is Err ==> trace.len() >= 2
}

impl MarketMiddleware {
    /// The pre-parse hook: may strip a prefix of the raw bytes. Returns the
    /// rest.
    pub fn instruction<'d>(&mut self, data: &'d [u8]) -> (r: Result<&'d [u8], ProxyError>)
        ensures
            match preparse_step(*old(self), data@) {
                Ok((m, rest)) => r is Ok && r->Ok_0@ == rest && *final(self) == m,
                Err(e) => r == Err::<&[u8], ProxyError>(e),
            },
    {
        match self {
            MarketMiddleware::OpenOrdersPda(p) => p.instruction(data),
            _ => Ok(data),
        }
    }

    /// The hook of the decoded operation. A failed hook leaves the context
    /// as it was; a successful one only appends seed paths.
    pub fn handle(&self, ctx: &mut Context, ix: &mut MarketInstruction) -> (r: Result<
        (),
        ProxyError,
    >)
        ensures
            *final(ix) == *old(ix),
            hook_effect(*self, *old(ix), *old(ctx), *final(ctx), r),
            seeds_extend(old(ctx).seeds@, final(ctx).seeds@),
    {
        let ghost s0 = ctx.seeds@;
        let ghost c0 = *ctx;
        let r = match self {
            MarketMiddleware::OpenOrdersPda(p) => match ix {
                MarketInstruction::InitOpenOrders => p.init_open_orders(ctx),
                MarketInstruction::NewOrderV3(o) => p.new_order_v3(ctx, o),
                MarketInstruction::CancelOrderV2(c) => p.cancel_order_v2(ctx, c),
                MarketInstruction::CancelOrderByClientIdV2(id) => p.cancel_order_by_client_id_v2(
                    ctx,
                    id,
                ),
                MarketInstruction::SettleFunds => p.settle_funds(ctx),
                MarketInstruction::CloseOpenOrders => p.close_open_orders(ctx),
                MarketInstruction::Prune(l) => p.prune(ctx, l),
                _ => Ok(()),
            },
            MarketMiddleware::Logger(l) => l.handle(ctx, ix),
            MarketMiddleware::ReferralFees(f) => match ix {
                MarketInstruction::SettleFunds => f.settle_funds(ctx),
                _ => Ok(()),
            },
        };
        proof {
            assert(s0.subrange(0, s0.len() as int) =~= s0);
            if *self is ReferralFees || (*self is OpenOrdersPda && (*ix is ConsumeEvents
                || *ix is ConsumeEventsPermissioned)) {
                assert(*ctx == c0);
            }
        }
        r
    }

    /// Called when the instruction data does not match any operation.
    pub fn fallback(&self, ctx: &mut Context) -> (r: Result<(), ProxyError>)
        ensures
            r is Ok,
            *final(ctx) == *old(ctx),
    {
        Ok(())
    }
}

/// How an instruction lists an account that it passes on.
pub open spec fn meta_of(a: AccountInfo) -> AccountMeta {
    AccountMeta { pubkey: a.key, is_signer: a.is_signer, is_writable: a.is_writable }
}

/// Everything the host executes for one request, in this order: the pre
/// instructions, the relay itself signed by all the seed paths, the post
/// instructions, then the post callbacks.
#[derive(Debug)]
pub struct Relay {
    pub pre_instructions: Vec<AuxInstruction>,
    /// The instruction for the order-book program.
    pub instruction: Instruction,
    /// The accounts passed with it, in the order of its account list.
    pub accounts: Vec<AccountInfo>,
    pub seeds: Vec<Vec<Vec<u8>>>,
    pub post_instructions: Vec<AuxInstruction>,
    pub post_callbacks: Vec<PostCallback>,
    /// Diagnostic records for the host to emit.
    pub logs: Vec<&'static str>,
}

/// The relay forwards `data` to the order-book program with an account
/// list that mirrors `relay.accounts`.
pub open spec fn relays(relay: Relay, data: Seq<u8>) -> bool {
    &&& relay.instruction.program_id == SERUM_DEX_PROGRAM_ID
    &&& relay.instruction.data@ == data
    &&& relay.instruction.accounts@.len() == relay.accounts@.len()
    &&& forall|i: int|
        0 <= i < relay.accounts@.len() ==> #[trigger] relay.instruction.accounts@[i] == meta_of(
            relay.accounts@[i],
        )
}

/// `c` is the fresh context of a request: the proxy's id, the order-book
/// program, the accounts after the first, and nothing accumulated yet.
pub open spec fn starts(c: Context, program_id: [u8; 32], accounts: Seq<AccountInfo>) -> bool {
    &&& c.program_id == program_id
    &&& c.dex_program_id@ == SERUM_DEX_PROGRAM_ID@
    &&& c.accounts@ == accounts.drop_first()
    &&& c.seeds@.len() == 0
    &&& c.pre_instructions@.len() == 0
    &&& c.post_instructions@.len() == 0
    &&& c.post_callbacks@.len() == 0
    &&& c.logs@.len() == 0
}

/// The relay carries what the hooks left in context `c`.
pub open spec fn taken_from(relay: Relay, c: Context) -> bool {
    &&& relay.accounts@ == c.accounts@
    &&& relay.seeds@ == c.seeds@
    &&& relay.pre_instructions@ == c.pre_instructions@
    &&& relay.post_instructions@ == c.post_instructions@
    &&& relay.post_callbacks@ == c.post_callbacks@
    &&& relay.logs@ == c.logs@
}

/// Whether every middleware of the chain is a logger.
pub open spec fn only_loggers(mws: Seq<MarketMiddleware>) -> bool {
    forall|i: int| 0 <= i < mws.len() ==> #[trigger] mws[i] is Logger
}

fn metas_of(accounts: &Vec<AccountInfo>) -> (r: Vec<AccountMeta>)
    ensures
        r@.len() == accounts@.len(),
        forall|i: int| 0 <= i < accounts@.len() ==> #[trigger] r@[i] == meta_of(accounts@[i]),
{
    let mut r: Vec<AccountMeta> = Vec::new();
    let mut i: usize = 0;
    while i < accounts.len()
        invariant
            i <= accounts@.len(),
            r@.len() == i,
            forall|j: int| 0 <= j < i ==> #[trigger] r@[j] == meta_of(accounts@[j]),
        decreases accounts@.len() - i,
    {
        let a = &accounts[i];
        r.push(AccountMeta { pubkey: a.key, is_signer: a.is_signer, is_writable: a.is_writable });
        i = i + 1;
    }
    r
}

/// Runs the fallback hook of every middleware, in order.
fn run_fallbacks(mws: &Vec<MarketMiddleware>, ctx: &mut Context)
    ensures
        *final(ctx) == *old(ctx),
{
    let mut i: usize = 0;
    while i < mws.len()
        invariant
            *ctx == *old(ctx),
        decreases mws@.len() - i,
    {
        let _ = mws[i].fallback(ctx);
        i = i + 1;
    }
}

/// Runs the hook of the operation of every middleware, in order, and stops
/// at the first that fails. Seed paths are only ever appended.
pub fn dispatch(mws: &Vec<MarketMiddleware>, ctx: &mut Context, ix: &mut MarketInstruction) -> (r:
    Result<(), ProxyError>)
    ensures
        *final(ix) == *old(ix),
        exists|trace: Seq<Context>|
            #![trigger hook_chain(mws@, *old(ix), trace, r)]
            hook_chain(mws@, *old(ix), trace, r) && trace[0] == *old(ctx) && trace.last()
                == *final(ctx),
        seeds_extend(old(ctx).seeds@, final(ctx).seeds@),
        final(ctx).program_id == old(ctx).program_id,
        final(ctx).dex_program_id == old(ctx).dex_program_id,
        only_loggers(mws@) ==> r is Ok,
{
    let mut i: usize = 0;
    let ghost mut trace: Seq<Context> = seq![*ctx];
    proof {
        assert(ctx.seeds@.subrange(0, ctx.seeds@.len() as int) =~= ctx.seeds@);
    }
    while i < mws.len()
        invariant
            i <= mws@.len(),
            *ix == *old(ix),
            trace.len() == i + 1,
            trace[0] == *old(ctx),
            trace.last() == *ctx,
            forall|j: int|
                0 <= j < i ==> hook_effect(mws@[j], *ix, #[trigger] trace[j], trace[j + 1], Ok(())),
            seeds_extend(old(ctx).seeds@, ctx.seeds@),
            ctx.program_id == old(ctx).program_id,
            ctx.dex_program_id == old(ctx).dex_program_id,
        decreases mws@.len() - i,
    {
        let ghost before = ctx.seeds@;
        let res = mws[i].handle(ctx, ix);
        proof {
            trace = trace.push(*ctx);
        }
        match res {
            Ok(()) => {},
            Err(e) => {
                proof {
                    assert(hook_chain(mws@, *old(ix), trace, res));
                }
                return Err(e);
            },
        }
        proof {
            lemma_seeds_accumulate(old(ctx).seeds@, before, ctx.seeds@);
        }
        i = i + 1;
    }
    proof {
        assert(hook_chain(mws@, *old(ix), trace, Ok(())));
    }
    Ok(())
}

/// Provides an abstraction for implementing proxy programs to the order
/// book, allowing one to implement a middleware for the purposes of
/// intercepting and modifying requests before they are relayed.
///
/// The only requirement for a middleware is that, when all are done
/// processing, a valid instruction -- accounts and instruction data -- is
/// left to forward to the order book.
pub struct MarketProxy {
    pub middlewares: Vec<MarketMiddleware>,
}

impl MarketProxy {
    /// Constructs a proxy with no middleware.
    pub fn new() -> (r: MarketProxy)
        ensures
            r.middlewares@ == Seq::<MarketMiddleware>::empty(),
    {
        MarketProxy { middlewares: Vec::new() }
    }

    /// Builder method for adding a middleware to the proxy: it runs after
    /// those added before it.
    pub fn middleware(self, mw: MarketMiddleware) -> (r: MarketProxy)
        ensures
            r.middlewares@ == self.middlewares@.push(mw),
    {
        let mut s = self;
        s.middlewares.push(mw);
        s
    }

    /// Runs every pre-parse hook, in order; returns what is left of the data.
    fn preparse<'d>(&mut self, data: &'d [u8]) -> (r: Result<&'d [u8], ProxyError>)
        ensures
            match preparse_all(old(self).middlewares@, data@) {
                Ok((mws, rest)) => r is Ok && r->Ok_0@ == rest && final(self).middlewares@ == mws,
                Err(e) => r == Err::<&[u8], ProxyError>(e),
            },
    {
        let ghost orig = self.middlewares@;
        let mut cur: &[u8] = data;
        let mut i: usize = 0;
        proof {
            assert(orig.subrange(0, 0) =~= Seq::<MarketMiddleware>::empty());
            assert(self.middlewares@.subrange(0, 0) =~= Seq::<MarketMiddleware>::empty());
        }
        while i < self.middlewares.len()
            invariant
                i <= self.middlewares@.len(),
                orig == old(self).middlewares@,
                self.middlewares@.len() == orig.len(),
                preparse_all(orig.subrange(0, i as int), data@) == Ok::<
                    (Seq<MarketMiddleware>, Seq<u8>),
                    ProxyError,
                >((self.middlewares@.subrange(0, i as int), cur@)),
                forall|j: int| i <= j < orig.len() ==> self.middlewares@[j] == orig[j],
            decreases orig.len() - i,
        {
            let mut mw = self.middlewares[i];
            let res = mw.instruction(cur);
            proof {
                assert(orig.subrange(0, i + 1).drop_last() =~= orig.subrange(0, i as int));
                assert(orig.subrange(0, i + 1).last() == orig[i as int]);
            }
            match res {
                Ok(rest) => {
                    let ghost before = self.middlewares@;
                    self.middlewares[i] = mw;
                    cur = rest;
                    proof {
                        assert(self.middlewares@.subrange(0, i + 1) =~= before.subrange(
                            0,
                            i as int,
                        ).push(mw));
                    }
                },
                Err(e) => {
                    proof {
                        assert(preparse_all(orig.subrange(0, i + 1), data@) == Err::<
                            (Seq<MarketMiddleware>, Seq<u8>),
                            ProxyError,
                        >(e));
                        lemma_preparse_err_sticks(orig, data@, i as int + 1);
                    }
                    return Err(e);
                },
            }
            i = i + 1;
        }
        proof {
            assert(orig.subrange(0, i as int) =~= orig);
            assert(self.middlewares@.subrange(0, i as int) =~= self.middlewares@);
        }
        Ok(cur)
    }

    /// Entrypoint of the proxy. The first account must be the order-book
    /// program; the others are the working accounts. Returns `None` when the
    /// data is not a recognized operation (every fallback hook has run and
    /// nothing is relayed), else the relay to execute.
    pub fn run(self, program_id: [u8; 32], accounts: Vec<AccountInfo>, data: &[u8]) -> (r: Result<
        Option<Relay>,
        ProxyError,
    >)
        ensures
            accounts@.len() == 0 || accounts@[0].key@ != SERUM_DEX_PROGRAM_ID@ ==> r == Err::<
                Option<Relay>,
                ProxyError,
            >(ProxyError::Dex(ErrorCode::InvalidTargetProgram)),
            accounts@.len() > 0 && accounts@[0].key@ == SERUM_DEX_PROGRAM_ID@ ==> match preparse_all(
                self.middlewares@,
                data@,
            ) {
                Err(e) => r == Err::<Option<Relay>, ProxyError>(e),
                Ok((_, rest)) => match decode(rest) {
                    None => r == Ok::<Option<Relay>, ProxyError>(None),
                    Some(ix) => if accounts@.len() - 1 < min_accounts(ix) {
                        r == Err::<Option<Relay>, ProxyError>(
                            ProxyError::Dex(ErrorCode::NotEnoughAccounts),
                        )
                    } else {
                        let mws = preparse_all(self.middlewares@, data@)->Ok_0.0;
                        &&& only_loggers(self.middlewares@) ==> r is Ok
                        &&& match r {
                            Ok(Some(relay)) => {
                                &&& relays(relay, rest)
                                &&& relay.instruction.data@ == encode(ix)
                                &&& exists|t: Seq<Context>|
                                    #![trigger hook_chain(mws, ix, t, Ok(()))]
                                    hook_chain(mws, ix, t, Ok(())) && starts(
                                        t[0],
                                        program_id,
                                        accounts@,
                                    ) && taken_from(relay, t.last())
                            },
                            Ok(None) => false,
                            Err(e) => exists|t: Seq<Context>|
                                #![trigger hook_chain(mws, ix, t, Err(e))]
                                hook_chain(mws, ix, t, Err(e)) && starts(t[0], program_id, accounts@),
                        }
                    },
                },
            },
    {
        if accounts.len() == 0 {
            return Err(ProxyError::Dex(ErrorCode::InvalidTargetProgram));
        }
        if !keys_equal(&accounts[0].key, &SERUM_DEX_PROGRAM_ID) {
            return Err(ProxyError::Dex(ErrorCode::InvalidTargetProgram));
        }
        let ghost old_accounts = accounts@;
        let mut accounts = accounts;
        let dex = accounts.remove(0);
        let mut proxy = self;
        let rest = match proxy.preparse(data) {
            Ok(rest) => rest,
            Err(e) => return Err(e),
        };
        proof {
            if only_loggers(self.middlewares@) {
                lemma_loggers_preparse(self.middlewares@, data@);
            }
        }
        let mut ctx = Context::new(program_id, dex.key, accounts);
        proof {
            assert(ctx.accounts@ =~= old_accounts.drop_first());
        }
        let decoded = MarketInstruction::unpack(rest);
        let mut ix = match decoded {
            None => {
                run_fallbacks(&proxy.middlewares, &mut ctx);
                return Ok(None);
            },
            Some(ix) => ix,
        };
        if ctx.accounts.len() < required_accounts(&ix) {
            return Err(ProxyError::Dex(ErrorCode::NotEnoughAccounts));
        }
        let ghost start = ctx;
        let ghost ix0 = ix;
        let res = dispatch(&proxy.middlewares, &mut ctx, &mut ix);
        let ghost t = choose|t: Seq<Context>|
            hook_chain(proxy.middlewares@, ix0, t, res) && t[0] == start && t.last() == ctx;
        proof {
            assert(starts(t[0], program_id, old_accounts));
        }
        match res {
            Ok(()) => {},
            Err(e) => return Err(e),
        }
        proof {
            lemma_decode_then_encode(rest@);
        }
        let packed = ix.pack();
        let metas = metas_of(&ctx.accounts);
        let Context {
            program_id: _,
            dex_program_id,
            accounts,
            seeds,
            pre_instructions,
            post_instructions,
            post_callbacks,
            logs,
        } = ctx;
        let relay = Relay {
            pre_instructions,
            instruction: Instruction { program_id: SERUM_DEX_PROGRAM_ID, accounts: metas, data: packed },
            accounts,
            seeds,
            post_instructions,
            post_callbacks,
            logs,
        };
        proof {
            assert(relays(relay, rest@));
            assert(taken_from(relay, t.last()));
            assert(hook_chain(proxy.middlewares@, ix0, t, Ok(())));
        }
        Ok(Some(relay))
    }
}

proof fn lemma_preparse_err_sticks(mws: Seq<MarketMiddleware>, d: Seq<u8>, k: int)
    requires
        0 <= k <= mws.len(),
        preparse_all(mws.subrange(0, k), d) is Err,
    ensures
        preparse_all(mws, d) == preparse_all(mws.subrange(0, k), d),
    decreases mws.len() - k,
{
    if k < mws.len() {
        assert(mws.subrange(0, k + 1).drop_last() =~= mws.subrange(0, k));
        lemma_preparse_err_sticks(mws, d, k + 1);
    } else {
        assert(mws.subrange(0, k) =~= mws);
    }
}

proof fn lemma_loggers_preparse(mws: Seq<MarketMiddleware>, d: Seq<u8>)
    requires
        only_loggers(mws),
    ensures
        preparse_all(mws, d) == Ok::<(Seq<MarketMiddleware>, Seq<u8>), ProxyError>((mws, d)),
    decreases mws.len(),
{
    if mws.len() > 0 {
        assert(mws[mws.len() - 1] is Logger);
        assert forall|i: int| 0 <= i < mws.drop_last().len() implies #[trigger] mws.drop_last()[i] is Logger by {
            assert(mws[i] is Logger);
        }
        lemma_loggers_preparse(mws.drop_last(), d);
        assert(mws.drop_last().push(mws.last()) =~= mws);
        let (done, rest) = preparse_all(mws.drop_last(), d)->Ok_0;
        assert(done == mws.drop_last() && rest == d);
        assert(preparse_step(mws.last(), d) == Ok::<(MarketMiddleware, Seq<u8>), ProxyError>((mws.last(), d)));
    } else {
        assert(mws =~= Seq::<MarketMiddleware>::empty());
    }
}

/// The pre-parse hooks only ever strip a prefix of the raw bytes: what the
/// decoder sees is a suffix of the data, and none of the stripped bytes.
pub proof fn lemma_preparse_strips_prefix(mws: Seq<MarketMiddleware>, d: Seq<u8>)
    requires
        preparse_all(mws, d) is Ok,
    ensures
        ({
            let rest = preparse_all(mws, d)->Ok_0.1;
            rest.len() <= d.len() && rest == d.subrange(d.len() - rest.len(), d.len() as int)
        }),
    decreases mws.len(),
{
    if mws.len() == 0 {
        assert(d.subrange(0, d.len() as int) =~= d);
    } else {
        lemma_preparse_strips_prefix(mws.drop_last(), d);
        let mid = preparse_all(mws.drop_last(), d)->Ok_0.1;
        let rest = preparse_all(mws, d)->Ok_0.1;
        if mws.last() is OpenOrdersPda {
            assert(rest =~= d.subrange(d.len() - rest.len(), d.len() as int));
        } else {
            assert(rest == mid);
        }
    }
}

} // verus!
