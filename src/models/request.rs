//! Errors of the version token parser, and the request types.
use vstd::prelude::*;

pub use crate::http::{HttpMethod, HttpRequest};

verus! {

/// Why a version token was refused.
#[derive(Debug)]
pub enum ParseRequestErr {
    /// The token is not `HTTP/` followed by a version number, the whole of it.
    InvalidVersion(String),
    /// A version number is empty or too large.
    ParseIntError(std::num::ParseIntError),
}

} // verus!
