//! Outcomes reported to the pages that call the backend.

use vstd::prelude::*;

verus! {

/// The status a request ends with.
#[derive(Clone, Copy, Debug, PartialEq, Eq, Structural)]
pub enum ApiStatus {
    Success,
    Created,
    BadRequest,
    Unauthorized,
    NotFound,
    InternalError,
}

impl ApiStatus {
    /// The HTTP status code.
    pub fn code(&self) -> (r: u16)
        ensures
            r == match *self {
                ApiStatus::Success => 200u16,
                ApiStatus::Created => 201,
                ApiStatus::BadRequest => 400,
                ApiStatus::Unauthorized => 401,
                ApiStatus::NotFound => 404,
                ApiStatus::InternalError => 500,
            },
    {
        match self {
            ApiStatus::Success => 200,
            ApiStatus::Created => 201,
            ApiStatus::BadRequest => 400,
            ApiStatus::Unauthorized => 401,
            ApiStatus::NotFound => 404,
            ApiStatus::InternalError => 500,
        }
    }
}

/// The body of a staff page's answer.
#[derive(Clone, Debug)]
pub struct ApiResponse {
    pub message: String,
}

} // verus!
