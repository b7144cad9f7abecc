//! A relay in front of an order-book program: it decodes each request, runs
//! it through an ordered chain of middlewares that may check or rewrite it,
//! and produces the relay that the host then executes.
use vstd::prelude::*;

pub mod codec;
pub mod context;
pub mod middleware;
pub mod owner;
pub mod proxy;
pub mod seeds;

pub use codec::{
    CancelOrderInstructionV2, MarketInstruction, NewOrderInstructionV3, OrderType,
    SelfTradeBehavior, Side,
};
pub use context::{
    AccountInfo, AccountMeta, AuxInstruction, Context, ErrorCode, Instruction, PostCallback,
    ProxyError,
};
pub use middleware::{Logger, OpenOrdersPda, ReferralFees, COIN_LOT_OFFSET, TOKEN_PROGRAM_ID};
pub use owner::{assert_owner, OwnerCheckError};
pub use proxy::{MarketMiddleware, MarketProxy, Relay, SERUM_DEX_PROGRAM_ID};
pub use seeds::{open_orders_authority, open_orders_init_authority};
