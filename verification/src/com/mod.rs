//! Talking to the pool, proxy or wallet: what is sent, and in which order
//! candidates are sent.

pub mod api;
pub mod client;
pub mod encode;
