//! Verified core of three ledger contracts: a price oracle, a token swap priced
//! by that oracle, and a staking swap with a multi-step withdrawal workflow.
//!
//! Every entry point is a pure function from the persisted state, the caller,
//! and the values that the host has already queried, to a `Response` (the
//! instructions to queue and the attributes to report) or a `ContractError`.
mod common;

pub mod oracle;
pub mod payment;
pub mod swap;
pub mod swap2;

pub use common::{
    base_denom_string, Attribute, Coin, Continuation, ContractError, Instruction, PaymentError,
    Response,
};
