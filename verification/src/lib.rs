//! Metrics derived from the blocks of a Bitcoin chain: the time that passed
//! between a block and its predecessor, and the number of transactions that a
//! block holds.
//!
//! The library performs no input or output. A caller resolves blocks by height
//! with a node of its choice and hands each outcome over; the library decides
//! which heights are asked for, in which order, when to give up, and what the
//! metric is.

pub mod block;
pub mod config;
pub mod duration;
pub mod metrics;
