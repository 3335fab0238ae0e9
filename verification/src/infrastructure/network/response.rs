//! Responses.

use vstd::prelude::*;

verus! {

/// What came back from a request: the status code and the body as text.
#[derive(Debug, Clone, PartialEq, Eq)]
pub struct ApiResponse {
    pub status_code: u16,
    pub body: String,
}

impl ApiResponse {
    /// Whether the status code is one of success, from 200 to 299.
    pub fn is_success(&self) -> (success: bool)
        ensures
            success == (200 <= self.status_code < 300),
    {
        self.status_code >= 200 && self.status_code < 300
    }
}

} // verus!
