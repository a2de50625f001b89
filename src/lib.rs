//! A small deferred-computation engine: deferred values built from steps,
//! combinators that sequence, transform and observe them, an executor that
//! drives them next to background tasks, and closure helpers for partial
//! application.
use vstd::prelude::*;

pub mod chains;
pub mod deferred;
pub mod executor;
pub mod function_value;
pub mod laws;
pub mod task;
