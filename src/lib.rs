//! Download an image from a URL and save it where the user chooses.
//!
//! The flow (save dialog, HTTP fetch, body read, file write) is a verified
//! state machine: the host runs each step's action and feeds back its outcome.
use vstd::prelude::*;

pub mod dialog;
pub mod flow;
pub mod laws;
pub mod status;

verus! {

} // verus!
