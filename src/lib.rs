//! Cross-chain root propagation: the verified synchronization engine.
//!
//! The library decides; the surrounding service performs the network and
//! database work and hands the results back as plain values.

pub mod types;
pub mod scanner;
pub mod config;
pub mod ethereum;
pub mod contracts;
pub mod database;
pub mod task_monitor;
pub mod processor;
pub mod events;
