//! A proposal lifecycle engine for on-chain governance: proposals carrying
//! ordered remote calls move through validation, voting and execution under a
//! strict state machine, with dependency gating between proposals.

pub mod access;
pub mod arith;
pub mod codec;
pub mod dispatch;
pub mod execution;
pub mod governance;
pub mod idmap;
pub mod laws;
pub mod multisig;
pub mod proposal;
pub mod types;
pub mod validator;
