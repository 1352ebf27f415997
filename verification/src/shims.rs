//! The emulated platform interfaces: the panic runtime, thread-local
//! storage, and the catalogues of foreign functions per platform.

pub mod tls;
pub mod dlsym;
pub mod panic;
pub mod foreign_items;
pub mod posix;
pub mod windows;
pub mod consistency;
