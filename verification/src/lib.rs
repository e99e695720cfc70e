//! The decisions of a Precision Time Protocol node, apart from the sockets,
//! timers and tasks that carry them out.
//!
//! A node is one task that runs the best master clock algorithm (BMCA) and one
//! task that runs a port. The library says what each of them does next; the
//! program around it performs that and reports what came of it.

pub mod action;
pub mod bmca;
pub mod channel;
pub mod config;
pub mod node;
pub mod port_task;
pub mod socket;
pub mod timer;
pub mod timers;
