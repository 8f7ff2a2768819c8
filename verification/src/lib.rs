//! State machines of futures that submit linked chains of operations.
//!
//! A linked chain is a group of operations that the kernel runs one after the
//! other: each starts only after the one before it has succeeded. The machines
//! here decide what such a future does next. They perform no I/O: every call
//! of `poll` takes what the runtime has just reported and returns the next
//! call to make into the runtime, or what the future's own `poll` returns.

pub mod operation;
pub mod pair;
pub mod pair_laws;
pub mod triple;
pub mod triple_laws;
