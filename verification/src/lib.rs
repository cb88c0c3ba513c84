//! Decision logic of a double-buffered Vulkan presentation loop.
//!
//! The crate holds no Vulkan handle and makes no driver call.  The host hands
//! it plain values (raw flag words, enum codes, sizes) and receives the next
//! thing to do; every function states what it returns in its contract.

pub mod lifecycle;
pub mod presenter;
pub mod setup;
pub mod trusted;
