//! A scope bounds the lifetime of a group of concurrently running tasks: every
//! task registered with it is joined, in registration order, before the scope
//! lets its caller go on.
//!
//! The crate holds the bookkeeping of such a scope: the ordered collection of
//! task handles, the join barrier that hands them out again, and the rule that
//! decides what the caller is told at the end. How a task is started and how
//! it is joined is the embedding program's business: it registers handles and
//! reports what each join gave.

pub mod status;
pub mod scope;
pub mod barrier;
pub mod laws;

pub use crate::barrier::{BarrierView, JoinBarrier};
pub use crate::scope::{scope, Scope};
pub use crate::status::{Action, BodyExit, Failure, Phase, TaskStatus};
