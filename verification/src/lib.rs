//! A bounded, thread-safe stack: a fixed-capacity LIFO container
//! (`Stack`) together with a synchronization wrapper (`BlockingStack`)
//! that guards it behind a verified reader-writer lock whose invariant
//! keeps the element count within the capacity under every
//! interleaving of concurrent callers.

pub mod blocking;
pub mod laws;
pub mod stack;

pub use blocking::BlockingStack;
pub use stack::Stack;
pub use stack::StackError;
