//! Core logic of a blockchain node frontend: chain-specification assembly,
//! a minimal transaction-pool facade, and the integration-benchmark
//! bookkeeping that drives it.

pub mod bench;
pub mod benchmarking;
pub mod chain_spec;
pub mod commands;
pub mod construct;
pub mod crypto;
pub mod hexcode;
pub mod import;
pub mod primitives;
pub mod rpc;
pub mod runtime;
pub mod service;
pub mod strutil;
pub mod txpool;
