//! A request to the server, described by plain values.

use crate::params::Parameters;
use vstd::prelude::*;

verus! {

/// The HTTP method of a request.
#[derive(Clone, Copy, Debug, PartialEq, Eq, Structural)]
pub enum Method {
    Get,
    Post,
}

/// Everything that a request carries: where it goes, how, and with what.
#[derive(Debug)]
pub struct Request {
    pub method: Method,
    /// The full URL, without the query string.
    pub url: String,
    /// The parameters of the query string.
    pub parameters: Parameters,
    /// The body, if there is one.
    pub body: Option<String>,
    /// The value of the `Authorization` header, if there is one.
    pub authorization: Option<String>,
}

} // verus!
