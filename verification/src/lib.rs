//! Protocol layer of an x402 payment facilitator.
//!
//! A facilitator sits between a payer and a resource server. It checks signed,
//! off-chain payment authorizations (`verify`) and executes them on chain
//! (`settle`). This crate holds the request and response model of that
//! protocol, the closed taxonomy of failures, and the rule that turns every
//! failure into exactly one externally visible outcome.

pub mod chain;
pub mod facilitator;
pub mod handlers;
pub mod response;
pub mod types;
