//! HTTP requests, described as plain values for the caller to send.

use crate::text::text_of;
use vstd::prelude::*;

verus! {

/// The method of an HTTP request.
#[derive(Debug, Clone, Copy, PartialEq, Eq, Structural)]
pub enum HttpMethod {
    Get,
    Post,
    Delete,
}

/// An HTTP request that the caller is asked to send.
#[derive(Debug, PartialEq, Eq)]
pub struct HttpRequest {
    pub method: HttpMethod,
    /// The absolute URL.
    pub url: String,
    /// The JSON body, where the request has one.
    pub body: Option<String>,
}

/// The mathematical value of an [`HttpRequest`].
pub struct RequestView {
    pub method: HttpMethod,
    pub url: Seq<char>,
    pub body: Option<Seq<char>>,
}

impl View for HttpRequest {
    type V = RequestView;

    open spec fn view(&self) -> RequestView {
        RequestView { method: self.method, url: self.url@, body: text_of(self.body) }
    }
}

/// Whether an HTTP status code reports success: the codes from 200 to 299.
pub open spec fn is_success_status(status: u16) -> bool {
    200 <= status < 300
}

/// Tells whether an HTTP status code reports success.
pub fn is_success(status: u16) -> (r: bool)
    ensures
        r == is_success_status(status),
{
    200 <= status && status < 300
}

} // verus!
