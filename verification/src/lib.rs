//! Decisions, checks and encodings behind OP-ZisK proof generation.
//!
//! The library never performs input or output. A caller runs the RPC calls, reads the environment
//! and the file system, and hands the answers over as plain values; every decision taken on them,
//! and every byte string handed to the zkVM, is computed here.

pub mod artifacts;
pub mod bindings;
pub mod chain_config;
pub mod config;
pub mod deployment;
pub mod encoding;
pub mod errors;
pub mod fetcher;
pub mod headers;
pub mod host;
pub mod l1_head;
pub mod outside;
pub mod proving;
pub mod readiness;
pub mod requests;
pub mod rpc;
pub mod search;
pub mod stats;
pub mod text;
pub mod types;
