//! Process management: saved contexts and the round-robin scheduler.

pub mod context;
pub mod scheduler;
