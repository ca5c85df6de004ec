use influxdb::{body_outcome, check_status, ClientV2, Error, Method, QueryKind};

fn client() -> ClientV2 {
    ClientV2::new("http://localhost:8068", "YOURAUTHTOKEN", "org", "bucket").unwrap()
}

fn pairs(parameters: &influxdb::Parameters) -> Vec<(String, String)> {
    parameters.as_slice().to_vec()
}

#[test]
fn test_fn_database() {
    let client = ClientV2::new("http://localhost:8068", "YOURAUTHTOKEN", "org", "bucket").unwrap();
    assert_eq!(client.token(), "Token YOURAUTHTOKEN");
    let parameters = client.parameters();
    assert_eq!(parameters.len(), 2);
    assert_eq!(parameters.get("org").unwrap(), "org");
    assert_eq!(parameters.get("bucket").unwrap(), "bucket");
}

#[test]
fn parameters_hold_org_and_bucket_only() {
    let client = ClientV2::new("http://h", "t", "my-org", "my-bucket").unwrap();
    let parameters = client.parameters();
    assert_eq!(parameters.len(), 2);
    assert_eq!(parameters.get("org"), Some("my-org"));
    assert_eq!(parameters.get("bucket"), Some("my-bucket"));
    assert_eq!(parameters.get("precision"), None);
}

#[test]
fn database_url_is_unchanged() {
    let client = ClientV2::new("http://localhost:8086/", "t", "o", "b").unwrap();
    assert_eq!(client.database_url(), "http://localhost:8086/");
    let client = ClientV2::new("", "t", "o", "b").unwrap();
    assert_eq!(client.database_url(), "");
}

#[test]
fn token_with_control_character_is_refused() {
    let r = ClientV2::new("http://h", "bad\ntoken", "o", "b");
    assert!(matches!(r, Err(Error::InvalidTokenError)));
    let r = ClientV2::new("http://h", "bad\u{7f}", "o", "b");
    assert!(matches!(r, Err(Error::InvalidTokenError)));
}

#[test]
fn token_with_tab_or_high_bytes_is_accepted() {
    let c = ClientV2::new("http://h", "a\tb", "o", "b").unwrap();
    assert_eq!(c.token(), "Token a\tb");
    let c = ClientV2::new("http://h", "caf\u{e9}", "o", "b").unwrap();
    assert_eq!(c.token(), "Token caf\u{e9}");
    let c = ClientV2::new("http://h", "", "o", "b").unwrap();
    assert_eq!(c.token(), "Token ");
}

#[test]
fn select_query_is_a_get() {
    let r = client().query_request(&QueryKind::Read, Ok("SELECT * FROM m".to_string())).unwrap();
    assert_eq!(r.method, Method::Get);
    assert_eq!(r.url, "http://localhost:8068/query");
    assert_eq!(r.body, None);
    assert_eq!(r.authorization, Some("Token YOURAUTHTOKEN".to_string()));
    assert_eq!(
        pairs(&r.parameters),
        vec![("org".to_string(), "org".to_string()), ("bucket".to_string(), "bucket".to_string())]
    );
}

#[test]
fn show_query_is_a_get() {
    let r = client().query_request(&QueryKind::Read, Ok("SHOW MEASUREMENTS".to_string())).unwrap();
    assert_eq!(r.method, Method::Get);
    assert_eq!(r.url, "http://localhost:8068/query");
}

#[test]
fn other_read_query_is_a_post() {
    let r = client().query_request(&QueryKind::Read, Ok("CREATE DATABASE d".to_string())).unwrap();
    assert_eq!(r.method, Method::Post);
    assert_eq!(r.url, "http://localhost:8068/query");
    assert_eq!(r.body, None);
    assert_eq!(r.parameters.len(), 2);
}

#[test]
fn read_dispatch_is_case_sensitive() {
    let r = client().query_request(&QueryKind::Read, Ok("select * from m".to_string())).unwrap();
    assert_eq!(r.method, Method::Post);
    let r = client().query_request(&QueryKind::Read, Ok("xxSHOWyy".to_string())).unwrap();
    assert_eq!(r.method, Method::Get);
}

#[test]
fn write_query_is_a_post_with_body_and_precision() {
    let c = client();
    let kind = QueryKind::Write { precision: "ms".to_string() };
    let r = c.query_request(&kind, Ok("weather temperature=82 1".to_string())).unwrap();
    assert_eq!(r.method, Method::Post);
    assert_eq!(r.url, "http://localhost:8068/api/v2/write");
    assert_eq!(r.body, Some("weather temperature=82 1".to_string()));
    assert_eq!(r.authorization, Some("Token YOURAUTHTOKEN".to_string()));
    assert_eq!(r.parameters.len(), 3);
    assert_eq!(r.parameters.get("precision"), Some("ms"));
    assert_eq!(r.parameters.get("org"), Some("org"));
    assert_eq!(r.parameters.get("bucket"), Some("bucket"));
    // the client's own parameters are left as they were
    assert_eq!(c.parameters().len(), 2);
    assert_eq!(c.parameters().get("precision"), None);
}

#[test]
fn write_query_with_select_in_its_text_is_still_a_post() {
    let kind = QueryKind::Write { precision: "s".to_string() };
    let r = client().query_request(&kind, Ok("SELECT v=1".to_string())).unwrap();
    assert_eq!(r.method, Method::Post);
}

#[test]
fn unrendered_query_is_an_invalid_query_error() {
    let r = client().query_request(&QueryKind::Read, Err("no fields".to_string()));
    assert_eq!(r.unwrap_err(), Error::InvalidQueryError { error: "no fields".to_string() });
    let kind = QueryKind::Write { precision: "ns".to_string() };
    let r = client().query_request(&kind, Err("bad".to_string()));
    assert_eq!(r.unwrap_err(), Error::InvalidQueryError { error: "bad".to_string() });
}

#[test]
fn ping_request_is_a_bare_get() {
    let r = client().ping_request();
    assert_eq!(r.method, Method::Get);
    assert_eq!(r.url, "http://localhost:8068/ping");
    assert_eq!(r.parameters.len(), 0);
    assert_eq!(r.body, None);
    assert_eq!(r.authorization, None);
}

#[test]
fn status_401_and_403_are_distinct_errors() {
    assert_eq!(check_status(401), Err(Error::AuthorizationError));
    assert_eq!(check_status(403), Err(Error::AuthenticationError));
    assert_ne!(check_status(401), check_status(403));
    assert_eq!(check_status(200), Ok(()));
    assert_eq!(check_status(500), Ok(()));
    assert_eq!(check_status(404), Ok(()));
}

#[test]
fn body_with_error_marker_is_a_database_error() {
    let body = "{\"error\":\"database not found\"}".to_string();
    assert_eq!(
        body_outcome(Some(body)),
        Err(Error::DatabaseError {
            error: "influxdb error: \"{\"error\":\"database not found\"}\"".to_string()
        })
    );
}

#[test]
fn body_without_error_marker_is_returned_unchanged() {
    let body = "{\"results\":[{\"statement_id\":0}]}".to_string();
    assert_eq!(body_outcome(Some(body.clone())), Ok(body));
    assert_eq!(body_outcome(Some(String::new())), Ok(String::new()));
    // the bare word without its quotes is no marker
    let body = "an error happened".to_string();
    assert_eq!(body_outcome(Some(body.clone())), Ok(body));
}

#[test]
fn undecodable_body_is_a_deserialization_error() {
    assert_eq!(
        body_outcome(None),
        Err(Error::DeserializationError {
            error: "response could not be converted to UTF-8".to_string()
        })
    );
}
