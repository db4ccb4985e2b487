//! A plain-data description of one HTTP request. The verified clients build
//! these values; the surrounding process performs them on the wire.

use vstd::prelude::*;

verus! {

/// The HTTP methods the registry and runtime protocols use.
#[derive(Debug, Clone, Copy, PartialEq, Eq, Structural)]
pub enum HttpMethod {
    Get,
    Head,
    Post,
    Delete,
}

/// A username/password pair for HTTP Basic authentication.
#[derive(Debug, Clone, PartialEq)]
pub struct BasicCredentials {
    pub username: String,
    pub password: String,
}

/// One request to perform: method, URL and the headers this layer sets.
#[derive(Debug, Clone, PartialEq)]
pub struct HttpRequest {
    pub method: HttpMethod,
    pub url: String,
    /// An explicit `Accept` header, where content negotiation matters.
    pub accept: Option<String>,
    /// A bearer token for the `Authorization` header.
    pub bearer_token: Option<String>,
    /// Basic credentials for the `Authorization` header.
    pub basic_auth: Option<BasicCredentials>,
}

} // verus!
