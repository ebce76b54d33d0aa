//! A page-granularity bump allocator over one fixed buffer, and a cell that
//! hands out exclusive mutable access to the value it holds.

pub mod bump;
pub mod exclusive;
pub mod lock;
