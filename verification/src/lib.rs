//! Host utilisation snapshots and the rules by which they are sampled,
//! published to subscribers and relayed to live-view connections.

pub mod ascii;
pub mod config;
pub mod hub;
pub mod number;
pub mod relay;
pub mod sampler;
pub mod snapshot;
pub mod wire;
