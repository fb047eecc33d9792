//! Event publishing pipeline: fixed-size binary event frames, composable
//! event sources, and the per-tick logic that forwards polled events onto a
//! publish channel.

pub mod endian;
pub mod error;
pub mod event;
pub mod msg;
pub mod signal;
pub mod channel;
pub mod input;
