//! Verified building blocks of small concurrent programs: bounded id
//! allocation over an atomic counter, the decisions of progress-reporting
//! loops, a FIFO message channel and a one-shot channel.

pub mod ids;
pub mod channel;
pub mod oneshot;
pub mod progress;
pub mod lazy;
pub mod commands;
