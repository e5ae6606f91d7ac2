//! Core of a proof-of-capacity mining benchmarker: the Shabal-256 hashing
//! pipeline that plots and scans nonces, the round scheduler that hands out
//! nonce ranges, and the submission queue that keeps the best deadline of a
//! round on its way to the pool.

pub mod com;
pub mod config;
pub mod cpu_hasher;
pub mod gpu_hasher;
pub mod miner;
pub mod ocl;
pub mod poc_hashing;
pub mod request;
pub mod scheduler;
pub mod shabal256;
