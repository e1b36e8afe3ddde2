//! The transport capability: the one operation a concrete HTTP backend
//! must supply, and the plain request and response shapes it exchanges.
use vstd::prelude::*;

verus! {

/// The HTTP methods the API uses.
#[derive(Clone, Copy, Debug, PartialEq, Eq, Structural)]
pub enum HttpMethod {
    Get,
    Post,
}

impl HttpMethod {
    /// The method's name as it appears on the wire and in the canonical
    /// signing string.
    pub open spec fn spec_name(&self) -> Seq<char> {
        match self {
            HttpMethod::Get => "GET"@,
            HttpMethod::Post => "POST"@,
        }
    }

    /// The method's name as it appears on the wire and in the canonical
    /// signing string.
    pub fn name(&self) -> (r: &'static str)
        ensures
            r@ == self.spec_name(),
    {
        match self {
            HttpMethod::Get => "GET",
            HttpMethod::Post => "POST",
        }
    }
}

/// One request header.
#[derive(Clone, Debug, PartialEq, Eq)]
pub struct Header {
    pub name: String,
    pub value: String,
}

/// A fully built outbound request, ready for any HTTP backend.
#[derive(Debug)]
pub struct ApiRequest {
    pub method: HttpMethod,
    pub url: String,
    pub headers: Vec<Header>,
    pub body: String,
}

/// What a transport hands back: the response status and its raw bytes.
#[derive(Debug)]
pub struct HttpResponse {
    pub status: u16,
    pub bytes: Vec<u8>,
}

/// A transport failure, described by a message.
#[derive(Clone, Debug, PartialEq, Eq)]
pub struct TransportError {
    pub message: String,
}

/// The transport capability: send a request, get status and bytes back.
/// The library never implements this; a backend outside it does.
pub trait HttpClient {
    /// Performs one HTTP exchange.
    fn request(&self, request: &ApiRequest) -> (r: Result<HttpResponse, TransportError>);
}

} // verus!
