//! Metered chat-completion pipeline: entitlement checks, product matching,
//! knowledge assembly, cost accounting and the usage ledger.

pub mod address;
pub mod auth;
pub mod billing;
pub mod catalog;
pub mod entities;
pub mod entitlement;
pub mod error;
pub mod guarantees;
pub mod knowledge;
pub mod matching;
pub mod pipeline;
pub mod request;
pub mod rpc;
pub mod text;
