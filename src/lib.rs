//! Client for the InfluxDB v2 HTTP API: builds the requests that reach the
//! server and classifies its answers.

pub mod client;
pub mod error;
pub mod header;
pub mod params;
pub mod request;
pub mod text;

pub use client::{body_outcome, check_status, ClientV2, ClientV2View, QueryKind};
pub use error::Error;
pub use params::Parameters;
pub use request::{Method, Request};
pub use text::{contains_bytes, text_contains};
