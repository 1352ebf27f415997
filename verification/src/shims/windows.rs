//! The Windows interfaces.

pub mod sync;
pub mod foreign_items;
