//! Decision logic of a trading backend that turns approved strategies into
//! Drift perpetual orders and closes them again on a stop-loss.
pub mod markets;
pub mod symbols;
pub mod orders;
pub mod engine;
pub mod mock;
pub mod llm;
pub mod rpc;
pub mod strategy;
