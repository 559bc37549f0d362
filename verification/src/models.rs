//! The response records the backend returns: one per request, fully
//! populated at construction, never mutated afterwards.

use vstd::prelude::*;
use vstd::string::*;
use crate::timestamp::{now_rfc3339, rfc3339_shaped};

verus! {

/// The successful outcome of the multiplication operation.
#[derive(Debug)]
pub struct MultiplyResponse {
    pub result: i32,
    pub message: String,
    pub operation: String,
}

/// An error report, stamped with the instant it was made.
#[derive(Debug)]
pub struct ErrorResponse {
    pub error: String,
    pub message: String,
    pub timestamp: String,
}

/// The outcome of the health check.
#[derive(Debug)]
pub struct HealthResponse {
    pub status: String,
    pub message: String,
    pub timestamp: String,
    pub version: String,
}

impl ErrorResponse {
    /// An error report carrying the given short name and description,
    /// stamped with the current instant.
    pub fn new(error: &str, message: &str) -> (r: Self)
        ensures
            r.error@ == error@,
            r.message@ == message@,
            rfc3339_shaped(r.timestamp@),
    {
        Self {
            error: String::from_str(error),
            message: String::from_str(message),
            timestamp: now_rfc3339(),
        }
    }
}

} // verus!
