//! A single-threaded lazy value cell.
//!
//! A cell starts out holding a producer, runs it on the first access, and
//! keeps the produced value for every later access.

pub mod cell;
pub mod laws;
pub mod state;

pub use cell::UnsyncLazy;
pub use state::LazyInner;
