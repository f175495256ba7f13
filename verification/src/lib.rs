//! Orchestration of a proof benchmark for a SHA-256 style circuit: the
//! catalog of input shapes, the cache of setup parameters, and the state
//! machine that sequences setup, key generation, proving and verification.

pub mod catalog;
pub mod config;
pub mod error;
pub mod model;
pub mod naming;
pub mod params;
pub mod pipeline;
mod power;
pub mod shape;
pub mod text;
pub mod verdict;
