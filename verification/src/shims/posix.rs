//! The POSIX interfaces.

pub mod sync;
pub mod thread;
pub mod foreign_items;
