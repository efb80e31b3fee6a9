//! A handle that shares one value among several owners, written once over
//! the ownership strategy that does the sharing.
//!
//! [`Shared`] is what a strategy has to offer: make a pointer from a value,
//! read it, hand out another owner, and give exclusive access while there is
//! only one owner. `Rc` and `Arc` are the two strategies at hand.
//! [`SharedPtr`] is the handle built on a strategy.

pub mod handle;
pub mod strategy;

pub use handle::ArcPtr;
pub use handle::RcPtr;
pub use handle::SharedPtr;
pub use strategy::Shared;
