//! A bounded pool of expensive, exclusively-owned execution contexts.
//!
//! Each context is costly to create, must never be used by two callers at
//! once, and is reused when possible. The pool hands out [`guard::ContextGuard`]s
//! through [`pool::Pool`], bounds the number of concurrently outstanding
//! contexts with a counting [`gate::Gate`], and keeps idle contexts in a
//! bounded [`store::Store`] for warm reuse.
//!
//! A gate unit is held for the whole checkout, from acquisition until
//! release: what is bounded is the number of contexts concurrently
//! outstanding, not merely the number of simultaneous acquisition attempts.

pub mod gate;
pub mod guard;
pub mod pool;
pub mod store;
