//! The per-request context that middlewares share, and the values it holds.
use vstd::prelude::*;

verus! {

/// Error codes of the proxy itself.
#[derive(Clone, Copy, Debug, PartialEq, Eq, Structural)]
pub enum ErrorCode {
    InvalidDexPid,
    InvalidInstruction,
    CannotUnpack,
    InvalidReferral,
    UnauthorizedUser,
    NotEnoughAccounts,
    InvalidTargetProgram,
}

/// The numeric code of an error: the variants are numbered from 500 in
/// order.
pub open spec fn error_code_value(e: ErrorCode) -> u32 {
    match e {
        ErrorCode::InvalidDexPid => 500,
        ErrorCode::InvalidInstruction => 501,
        ErrorCode::CannotUnpack => 502,
        ErrorCode::InvalidReferral => 503,
        ErrorCode::UnauthorizedUser => 504,
        ErrorCode::NotEnoughAccounts => 505,
        ErrorCode::InvalidTargetProgram => 506,
    }
}

impl ErrorCode {
    /// The numeric code: the variants are numbered from 500 in order.
    pub fn code(&self) -> (r: u32)
        ensures
            r == error_code_value(*self),
    {
        match self {
            ErrorCode::InvalidDexPid => 500,
            ErrorCode::InvalidInstruction => 501,
            ErrorCode::CannotUnpack => 502,
            ErrorCode::InvalidReferral => 503,
            ErrorCode::UnauthorizedUser => 504,
            ErrorCode::NotEnoughAccounts => 505,
            ErrorCode::InvalidTargetProgram => 506,
        }
    }
}

/// Why a request was refused.
#[derive(Clone, Copy, Debug, PartialEq, Eq, Structural)]
pub enum ProxyError {
    /// One of the proxy's own errors.
    Dex(ErrorCode),
    /// An account that the operation reads by position is missing.
    NotEnoughAccountKeys,
    /// The account that must authorize account creation did not sign.
    MissingRequiredSignature,
    /// The raw instruction bytes are too short for what a middleware reads.
    InvalidInstructionData,
    /// An account's data is too short for a field read at a fixed offset.
    AccountDataTooSmall,
    /// A computed token amount does not fit in 64 bits.
    ArithmeticOverflow,
}

/// A caller-supplied account as the proxy sees it. Only this local copy is
/// ever changed; the signature state of the account itself is not.
#[derive(Debug)]
pub struct AccountInfo {
    pub key: [u8; 32],
    pub is_signer: bool,
    pub is_writable: bool,
    pub owner: [u8; 32],
    pub data: Vec<u8>,
}

/// `b` is a copy of `a`, except that it is marked as a signer.
pub open spec fn signer_copy_of(b: AccountInfo, a: AccountInfo) -> bool {
    &&& b.key == a.key
    &&& b.is_signer
    &&& b.is_writable == a.is_writable
    &&& b.owner == a.owner
    &&& b.data@ == a.data@
}

/// `b` holds the same values as `a`.
pub open spec fn same_account(b: AccountInfo, a: AccountInfo) -> bool {
    &&& b.key == a.key
    &&& b.is_signer == a.is_signer
    &&& b.is_writable == a.is_writable
    &&& b.owner == a.owner
    &&& b.data@ == a.data@
}

impl AccountInfo {
    /// A copy of the account that holds the same values.
    pub fn duplicate(&self) -> (r: AccountInfo)
        ensures
            same_account(r, *self),
    {
        AccountInfo {
            key: self.key,
            is_signer: self.is_signer,
            is_writable: self.is_writable,
            owner: self.owner,
            data: self.data.clone(),
        }
    }

    /// A copy of the account marked as a signer. The mark is backed by a
    /// seed path that the downstream runtime checks.
    pub fn prepare_pda(&self) -> (r: AccountInfo)
        ensures
            signer_copy_of(r, *self),
    {
        let mut r = self.duplicate();
        r.is_signer = true;
        r
    }
}

/// One account of an instruction: its key and how the instruction uses it.
#[derive(Clone, Copy, Debug)]
pub struct AccountMeta {
    pub pubkey: [u8; 32],
    pub is_signer: bool,
    pub is_writable: bool,
}

/// An instruction for another program, as plain values.
#[derive(Debug)]
pub struct Instruction {
    pub program_id: [u8; 32],
    pub accounts: Vec<AccountMeta>,
    pub data: Vec<u8>,
}

/// An instruction run just before or just after the relay, with its own
/// accounts and its own seed paths.
#[derive(Debug)]
pub struct AuxInstruction {
    pub instruction: Instruction,
    pub accounts: Vec<AccountInfo>,
    pub seeds: Vec<Vec<Vec<u8>>>,
}

/// A callback run after the relay. `handler` names the function, which the
/// host resolves; `args` are the bytes bound to it.
#[derive(Debug)]
pub struct PostCallback {
    pub handler: u32,
    pub accounts: Vec<AccountInfo>,
    pub args: Vec<u8>,
}

/// Per request context. Can be used to share data between middleware
/// handlers.
#[derive(Debug)]
pub struct Context {
    pub program_id: [u8; 32],
    pub dex_program_id: [u8; 32],
    pub accounts: Vec<AccountInfo>,
    pub seeds: Vec<Vec<Vec<u8>>>,
    /// Instructions to execute before the relay.
    pub pre_instructions: Vec<AuxInstruction>,
    /// Instructions to execute after the relay.
    pub post_instructions: Vec<AuxInstruction>,
    pub post_callbacks: Vec<PostCallback>,
    /// Diagnostic records, in the order the middlewares emitted them.
    pub logs: Vec<&'static str>,
}

/// The byte view of one seed path.
pub open spec fn path_view(p: Vec<Vec<u8>>) -> Seq<Seq<u8>> {
    p@.map_values(|s: Vec<u8>| s@)
}

/// The byte view of a list of seed paths.
pub open spec fn seeds_view(s: Seq<Vec<Vec<u8>>>) -> Seq<Seq<Seq<u8>>> {
    s.map_values(|p: Vec<Vec<u8>>| path_view(p))
}

/// The old seed paths stay, in their order, at the front of the new ones.
pub open spec fn seeds_extend(old: Seq<Vec<Vec<u8>>>, new: Seq<Vec<Vec<u8>>>) -> bool {
    old.len() <= new.len() && new.subrange(0, old.len() as int) == old
}

/// Seed paths appended by one hook and then by a later one: both keep the
/// paths that came before them, and the first hook's paths stay in place,
/// ahead of the later hook's, none dropped or merged.
pub proof fn lemma_seeds_accumulate(
    a: Seq<Vec<Vec<u8>>>,
    b: Seq<Vec<Vec<u8>>>,
    c: Seq<Vec<Vec<u8>>>,
)
    requires
        seeds_extend(a, b),
        seeds_extend(b, c),
    ensures
        seeds_extend(a, c),
        c.subrange(a.len() as int, b.len() as int) == b.subrange(a.len() as int, b.len() as int),
        c.len() - a.len() == (b.len() - a.len()) + (c.len() - b.len()),
{
    assert(c.subrange(0, a.len() as int) =~= b.subrange(0, a.len() as int));
    assert(c.subrange(a.len() as int, b.len() as int) =~= b.subrange(a.len() as int, b.len() as int));
}

impl Context {
    pub fn new(program_id: [u8; 32], dex_program_id: [u8; 32], accounts: Vec<AccountInfo>) -> (r:
        Context)
        ensures
            r.program_id == program_id,
            r.dex_program_id == dex_program_id,
            r.accounts@ == accounts@,
            r.seeds@.len() == 0,
            r.pre_instructions@.len() == 0,
            r.post_instructions@.len() == 0,
            r.post_callbacks@.len() == 0,
            r.logs@.len() == 0,
    {
        Context {
            program_id,
            dex_program_id,
            accounts,
            seeds: Vec::new(),
            pre_instructions: Vec::new(),
            post_instructions: Vec::new(),
            post_callbacks: Vec::new(),
            logs: Vec::new(),
        }
    }
}

/// Whether two keys are equal.
pub fn keys_equal(a: &[u8; 32], b: &[u8; 32]) -> (r: bool)
    ensures
        r == (a@ == b@),
{
    let mut i: usize = 0;
    while i < 32
        invariant
            0 <= i <= 32,
            a@.len() == 32,
            b@.len() == 32,
            forall|j: int| 0 <= j < i ==> a@[j] == b@[j],
        decreases 32 - i,
    {
        if a[i] != b[i] {
            return false;
        }
        i = i + 1;
    }
    proof {
        assert(a@ =~= b@);
    }
    true
}

} // verus!
