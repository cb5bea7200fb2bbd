//! The response translator: the deterministic mapping from the closed
//! result and error vocabulary to wire-level status, headers and bodies.

use vstd::prelude::*;
use crate::content_types;
use crate::html::escape_spec;
use crate::server::{HttpOkay, HttpError};
use crate::urls::{resolve_url, join_of};

verus! {

/// The body of a wire response.
pub enum Body<F> {
    /// A file resource, streamed by the serving loop.
    Stream(F),
    /// Character data.
    Text(String),
    /// Binary data.
    Data(Vec<u8>),
}

/// A wire-level response: what the serving loop writes back.
pub struct WireResponse<F> {
    /// The HTTP status code.
    pub status: u16,
    /// The response headers, as (name, value) pairs.
    pub headers: Vec<(String, String)>,
    /// The response body.
    pub body: Body<F>,
    /// A message to be logged server-side, never sent to the client.
    pub log: Option<String>,
}

/// Whether `headers` consists of the single header `name: value`.
pub open spec fn single_header(headers: Seq<(String, String)>, name: Seq<char>, value: Seq<char>) -> bool {
    headers.len() == 1 && headers[0].0@ == name && headers[0].1@ == value
}

/// A degraded response: status 500, a fixed body, the underlying failure
/// kept for the server-side log.
pub open spec fn internal_error<F>(w: WireResponse<F>) -> bool {
    &&& w.status == 500
    &&& w.headers@.len() == 0
    &&& (w.body matches Body::Text(s) && s@ == "Server error"@)
    &&& w.log is Some
}

/// Translate a handler's outcome into a wire response.
///
/// Every value of the vocabulary maps to a fixed status and body shape: a
/// file streams under 200, HTML is escaped and served as `text/html`,
/// character and binary data carry their stated content type, a redirect
/// resolves against `base_url` under 307, and the three errors map to
/// 400, 404 and 500. A failure while escaping or while resolving the
/// redirect degrades to a 500 rather than a crash, and underlying
/// messages go to the log only: never to the client.
pub fn respond<F>(outcome: Result<HttpOkay<F>, HttpError>, base_url: &str) -> (w: WireResponse<F>)
    ensures
        match outcome {
            Ok(ok) => match ok {
                HttpOkay::File(f) => {
                    &&& w.status == 200
                    &&& w.headers@.len() == 0
                    &&& (w.body matches Body::Stream(g) && g == f)
                    &&& w.log is None
                },
                HttpOkay::Html(e) => match escape_spec(e) {
                    Ok(t) => {
                        &&& w.status == 200
                        &&& single_header(w.headers@, "Content-Type"@, content_types::HTML@)
                        &&& (w.body matches Body::Text(s) && s@ == t)
                        &&& w.log is None
                    },
                    Err(_) => internal_error(w),
                },
                HttpOkay::Chars { data, content_type } => {
                    &&& w.status == 200
                    &&& single_header(w.headers@, "Content-Type"@, content_type@)
                    &&& (w.body matches Body::Text(s) && s@ == data@)
                    &&& w.log is None
                },
                HttpOkay::Bytes { data, content_type } => {
                    &&& w.status == 200
                    &&& single_header(w.headers@, "Content-Type"@, content_type@)
                    &&& (w.body matches Body::Data(d) && d@ == data@)
                    &&& w.log is None
                },
                HttpOkay::Redirect(rel) => match join_of(base_url@, rel@) {
                    Some(abs) => {
                        &&& w.status == 307
                        &&& single_header(w.headers@, "Location"@, abs)
                        &&& (w.body matches Body::Text(s) && s@ == "Temporary Redirect"@)
                        &&& w.log is None
                    },
                    None => internal_error(w),
                },
            },
            Err(e) => match e {
                HttpError::Invalid => {
                    &&& w.status == 400
                    &&& w.headers@.len() == 0
                    &&& (w.body matches Body::Text(s) && s@ == "Invalid request"@)
                    &&& w.log is None
                },
                HttpError::NotFound => {
                    &&& w.status == 404
                    &&& w.headers@.len() == 0
                    &&& (w.body matches Body::Text(s) && s@ == "Not found"@)
                    &&& w.log is None
                },
                HttpError::Error(m) => {
                    &&& w.status == 500
                    &&& w.headers@.len() == 0
                    &&& (w.body matches Body::Text(s) && s@ == "Server error"@)
                    &&& w.log == Some(m)
                },
            },
        },
{
    match outcome {
        Ok(ok) => match ok {
            HttpOkay::File(f) => WireResponse {
                status: 200,
                headers: Vec::new(),
                body: Body::Stream(f),
                log: None,
            },
            HttpOkay::Html(e) => match e.escape() {
                Ok(text) => {
                    let mut headers: Vec<(String, String)> = Vec::new();
                    headers.push(("Content-Type".to_owned(), content_types::HTML.to_owned()));
                    WireResponse { status: 200, headers, body: Body::Text(text), log: None }
                },
                Err(te) => WireResponse {
                    status: 500,
                    headers: Vec::new(),
                    body: Body::Text("Server error".to_owned()),
                    log: Some(te.message()),
                },
            },
            HttpOkay::Chars { data, content_type } => {
                let mut headers: Vec<(String, String)> = Vec::new();
                headers.push(("Content-Type".to_owned(), content_type.to_owned()));
                WireResponse { status: 200, headers, body: Body::Text(data), log: None }
            },
            HttpOkay::Bytes { data, content_type } => {
                let mut headers: Vec<(String, String)> = Vec::new();
                headers.push(("Content-Type".to_owned(), content_type.to_owned()));
                WireResponse { status: 200, headers, body: Body::Data(data), log: None }
            },
            HttpOkay::Redirect(rel) => match resolve_url(base_url, rel.as_str()) {
                Ok(abs) => {
                    let mut headers: Vec<(String, String)> = Vec::new();
                    headers.push(("Location".to_owned(), abs));
                    WireResponse {
                        status: 307,
                        headers,
                        body: Body::Text("Temporary Redirect".to_owned()),
                        log: None,
                    }
                },
                Err(m) => WireResponse {
                    status: 500,
                    headers: Vec::new(),
                    body: Body::Text("Server error".to_owned()),
                    log: Some(m),
                },
            },
        },
        Err(e) => match e {
            HttpError::Invalid => WireResponse {
                status: 400,
                headers: Vec::new(),
                body: Body::Text("Invalid request".to_owned()),
                log: None,
            },
            HttpError::NotFound => WireResponse {
                status: 404,
                headers: Vec::new(),
                body: Body::Text("Not found".to_owned()),
                log: None,
            },
            HttpError::Error(m) => WireResponse {
                status: 500,
                headers: Vec::new(),
                body: Body::Text("Server error".to_owned()),
                log: Some(m),
            },
        },
    }
}

} // verus!
