//! A stub filesystem whose callbacks are timed against a page-fault
//! notification channel, so that a blocked callback and a pending fault can
//! interleave. This crate holds the decisions: the inode table and the reply
//! of every callback, the order in which the fault channel is set up, and the
//! steps of the monitor that answers fault events. Performing the system
//! calls, sleeping and logging is left to the caller.

pub mod attr;
pub mod ioctl;
pub mod setup;
pub mod monitor;
pub mod fs;
pub mod theorems;
