//! The ways in which a call to the server can fail.

use vstd::prelude::*;

verus! {

/// Why a request could not be made or its answer could not be used.
#[derive(Debug, Clone, PartialEq, Eq)]
pub enum Error {
    /// The query could not be rendered to text.
    InvalidQueryError { error: String },
    /// The request could not be assembled from its parts.
    UrlConstructionError { error: String },
    /// The server could not be reached while pinging it.
    ProtocolError { error: String },
    /// The server could not be reached while querying it.
    ConnectionError { error: String },
    /// The server answered with a body that is not text.
    DeserializationError { error: String },
    /// The server reported an error in the body of its answer.
    DatabaseError { error: String },
    /// The server answered 401 Unauthorized.
    AuthorizationError,
    /// The server answered 403 Forbidden.
    AuthenticationError,
    /// The token cannot be sent in an `Authorization` header.
    InvalidTokenError,
}

} // verus!
