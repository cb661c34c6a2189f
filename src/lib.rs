//! Replay of captured UDP traffic: frame decoding, port discovery, the
//! per-port socket pool and the paced replay engine's decisions.

pub mod frame;
pub mod discovery;
pub mod pool;
pub mod replay;
pub mod laws;
