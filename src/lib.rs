//! A client for the Moco time-tracking service, centred on the engine that
//! reconciles the remote activity timer with two local status files: the
//! timer marker and the report snapshot.
//!
//! - `hours`: hours held exactly as micro-hours, and their decimal text.
//! - `stamp`: local date-times and the text of the timer marker.
//! - `engine`: the reconciliation engine, a state machine from the result of
//!   each action to the next action.
//! - `laws`: what every run of the engine does, proved over its transitions.
//! - `model`: the records exchanged with the remote service.
use vstd::prelude::*;

pub mod engine;
pub mod hours;
pub mod laws;
pub mod model;
pub mod stamp;

verus! {

} // verus!
