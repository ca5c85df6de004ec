//! The client: its configuration, the requests it sends and how it reads the
//! answers.

use crate::error::Error;
use crate::header::valid_header_bytes;
use crate::params::Parameters;
use crate::request::{Method, Request};
use crate::text::{has_subslice, text_contains};
use reqwest::header::HeaderValue;
use std::sync::Arc;
use vstd::prelude::*;
use vstd::string::*;
use vstd::utf8::encode_utf8;

verus! {

/// The text of the `Authorization` header for `token`.
pub open spec fn authorization_for(token: Seq<char>) -> Seq<char> {
    "Token "@ + token
}

/// The parameters that every request of a client for `org` and `bucket` carries.
pub open spec fn base_parameters(org: Seq<char>, bucket: Seq<char>) -> Map<Seq<char>, Seq<char>> {
    Map::empty().insert("org"@, org).insert("bucket"@, bucket)
}

/// The UTF-8 encoding of `pat` is a contiguous part of that of `text`.
pub open spec fn text_has(text: Seq<char>, pat: Seq<char>) -> bool {
    has_subslice(encode_utf8(text), encode_utf8(pat))
}

/// The method of a read query with rendered text `text`: GET where the text
/// holds `SELECT` or `SHOW`, POST otherwise.
pub open spec fn read_method(text: Seq<char>) -> Method {
    if text_has(text, "SELECT"@) || text_has(text, "SHOW"@) {
        Method::Get
    } else {
        Method::Post
    }
}

/// The body of an answer holds the marker by which the server reports an error.
pub open spec fn has_error_marker(body: Seq<char>) -> bool {
    text_has(body, "\"error\""@)
}

/// The message of the error that the server reported with `body`.
pub open spec fn database_message(body: Seq<char>) -> Seq<char> {
    "influxdb error: \""@ + body + "\""@
}

/// The message given when the body of an answer is not text.
pub open spec fn undecodable_message() -> Seq<char> {
    "response could not be converted to UTF-8"@
}

/// A new client carries two parameters and no more: `org`, whose value is the
/// organization, and `bucket`, whose value is the bucket.
pub proof fn lemma_base_parameters(org: Seq<char>, bucket: Seq<char>)
    ensures
        base_parameters(org, bucket).dom() == set!["org"@, "bucket"@],
        base_parameters(org, bucket).len() == 2,
        base_parameters(org, bucket)["org"@] == org,
        base_parameters(org, bucket)["bucket"@] == bucket,
{
    reveal_strlit("org");
    reveal_strlit("bucket");
    assert("org"@.len() != "bucket"@.len());
    assert(base_parameters(org, bucket).dom() =~= set!["org"@, "bucket"@]);
    assert(set!["org"@, "bucket"@].len() == 2);
}

/// What a client is configured with.
pub struct ClientV2View {
    /// The URL of the server.
    pub url: Seq<char>,
    /// The value of the `Authorization` header.
    pub authorization: Seq<char>,
    /// The parameters that every request carries.
    pub parameters: Map<Seq<char>, Seq<char>>,
}

/// A read query, or a write query with the precision of its timestamps.
#[derive(Clone, Debug, PartialEq, Eq)]
pub enum QueryKind {
    Read,
    Write { precision: String },
}

/// A client of one InfluxDB server, for one organization and bucket. Clones
/// share the configuration, which never changes.
#[derive(Clone, Debug)]
pub struct ClientV2 {
    url: Arc<String>,
    authorization: Arc<String>,
    parameters: Arc<Parameters>,
}

impl View for ClientV2 {
    type V = ClientV2View;

    closed spec fn view(&self) -> ClientV2View {
        ClientV2View {
            url: self.url@,
            authorization: self.authorization@,
            parameters: self.parameters@,
        }
    }
}

impl ClientV2 {
    /// A client of the server at `url` that authenticates with `token` and
    /// works in `org` and `bucket`. Fails where the token cannot be sent in an
    /// HTTP header.
    pub fn new(url: &str, token: &str, org: &str, bucket: &str) -> (r: Result<ClientV2, Error>)
        ensures
            r is Ok <==> valid_header_bytes(encode_utf8(authorization_for(token@))),
            r matches Ok(c) ==> c@ == (ClientV2View {
                url: url@,
                authorization: authorization_for(token@),
                parameters: base_parameters(org@, bucket@),
            }),
            r matches Err(e) ==> e == Error::InvalidTokenError,
    {
        let mut authorization = "Token ".to_owned();
        authorization.append(token);
        if HeaderValue::from_str(authorization.as_str()).is_err() {
            return Err(Error::InvalidTokenError);
        }
        let mut parameters = Parameters::new();
        parameters.insert("org".to_owned(), org.to_owned());
        parameters.insert("bucket".to_owned(), bucket.to_owned());
        Ok(
            ClientV2 {
                url: Arc::new(url.to_owned()),
                authorization: Arc::new(authorization),
                parameters: Arc::new(parameters),
            },
        )
    }

    /// The value of the `Authorization` header: `Token ` and the token.
    pub fn token(&self) -> (r: &str)
        ensures
            r@ == self@.authorization,
    {
        self.authorization.as_str()
    }

    /// The URL of the server, as it was given.
    pub fn database_url(&self) -> (r: &str)
        ensures
            r@ == self@.url,
    {
        self.url.as_str()
    }

    /// The parameters that every request of this client carries.
    pub fn parameters(&self) -> (r: &Parameters)
        ensures
            r@ == self@.parameters,
    {
        &self.parameters
    }

    /// The request that pings the server: a GET of `/ping` that carries no
    /// parameters, no body and no credentials.
    pub fn ping_request(&self) -> (r: Request)
        ensures
            r.method == Method::Get,
            r.url@ == self@.url + "/ping"@,
            r.parameters@ == Map::<Seq<char>, Seq<char>>::empty(),
            r.body is None,
            r.authorization is None,
    {
        let mut url = self.url.as_str().to_owned();
        url.append("/ping");
        Request {
            method: Method::Get,
            url,
            parameters: Parameters::new(),
            body: None,
            authorization: None,
        }
    }

    /// The request that sends a query of kind `kind` whose rendering gave
    /// `rendered`. A read query goes to `/query` without a body, by GET where
    /// its text holds `SELECT` or `SHOW` and by POST otherwise. A write query
    /// is POSTed to `/api/v2/write` with its text as the body and its precision
    /// among the parameters. Fails, before anything is sent, where the query
    /// could not be rendered.
    pub fn query_request(&self, kind: &QueryKind, rendered: Result<String, String>) -> (r: Result<
        Request,
        Error,
    >)
        ensures
            rendered matches Err(e) ==> r == Err::<Request, Error>(
                Error::InvalidQueryError { error: e },
            ),
            rendered matches Ok(text) ==> r matches Ok(req) && {
                &&& (req.authorization matches Some(a) && a@ == self@.authorization)
                &&& match kind {
                    QueryKind::Read => {
                        &&& req.method == read_method(text@)
                        &&& req.url@ == self@.url + "/query"@
                        &&& req.parameters@ == self@.parameters
                        &&& req.body is None
                    },
                    QueryKind::Write { precision } => {
                        &&& req.method == Method::Post
                        &&& req.url@ == self@.url + "/api/v2/write"@
                        &&& req.parameters@ == self@.parameters.insert("precision"@, precision@)
                        &&& req.body == Some(text)
                    },
                }
            },
    {
        let text = match rendered {
            Ok(text) => text,
            Err(e) => {
                return Err(Error::InvalidQueryError { error: e });
            },
        };
        let mut url = self.url.as_str().to_owned();
        let authorization = Some(self.authorization.as_str().to_owned());
        match kind {
            QueryKind::Read => {
                url.append("/query");
                let method = if text_contains(text.as_str(), "SELECT") || text_contains(
                    text.as_str(),
                    "SHOW",
                ) {
                    Method::Get
                } else {
                    Method::Post
                };
                let parameters = self.parameters.copy();
                Ok(Request { method, url, parameters, body: None, authorization })
            },
            QueryKind::Write { precision } => {
                url.append("/api/v2/write");
                let mut parameters = self.parameters.copy();
                parameters.insert("precision".to_owned(), precision.as_str().to_owned());
                Ok(Request { method: Method::Post, url, parameters, body: Some(text), authorization })
            },
        }
    }
}

/// How the status of an answer decides the outcome before its body is read:
/// 401 is an authorization error, 403 an authentication error, and anything
/// else lets the body decide.
pub fn check_status(status: u16) -> (r: Result<(), Error>)
    ensures
        status == 401 ==> r == Err::<(), Error>(Error::AuthorizationError),
        status == 403 ==> r == Err::<(), Error>(Error::AuthenticationError),
        status != 401 && status != 403 ==> r is Ok,
{
    if status == 401 {
        Err(Error::AuthorizationError)
    } else if status == 403 {
        Err(Error::AuthenticationError)
    } else {
        Ok(())
    }
}

/// How the body of an answer decides the outcome: `None` stands for a body
/// that is not text. A body that holds `"error"` (with the quotes) is an
/// error reported by the server; any other body is the result, unchanged.
pub fn body_outcome(body: Option<String>) -> (r: Result<String, Error>)
    ensures
        body is None ==> (r matches Err(Error::DeserializationError { error }) && error@
            == undecodable_message()),
        body matches Some(b) ==> {
            &&& has_error_marker(b@) ==> (r matches Err(Error::DatabaseError { error }) && error@
                == database_message(b@))
            &&& !has_error_marker(b@) ==> r == Ok::<String, Error>(b)
        },
{
    match body {
        None => Err(Error::DeserializationError { error: "response could not be converted to UTF-8".to_owned() }),
        Some(b) => {
            if text_contains(b.as_str(), "\"error\"") {
                let mut error = "influxdb error: \"".to_owned();
                error.append(b.as_str());
                error.append("\"");
                Err(Error::DatabaseError { error })
            } else {
                Ok(b)
            }
        },
    }
}

} // verus!
