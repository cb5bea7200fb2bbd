//! The request-routing protocol and its closed result and error
//! vocabulary.
//!
//! Routing is two-phase: the path alone decides which handler, if any, a
//! request needs, and only when a handler is actually dispatched is the
//! query string parsed — and only for a GET request.

use vstd::prelude::*;
use crate::html::Escape;
use crate::urls::{
    resolve_url, url_path_segments, url_query_pairs, percent_decode, join_of, path_segments_of,
    percent_decoded, query_pairs_of,
};

verus! {

/// An HTTP request method.
#[derive(Clone, Copy, Debug, PartialEq, Eq, Structural)]
pub enum Method {
    Get,
    Head,
    Post,
    Put,
    Delete,
    Connect,
    Options,
    Trace,
    Patch,
    /// Any method this vocabulary does not name.
    Other,
}

/// A normal HTTP response.
///
/// `F` is the type of a file resource, supplied by the serving loop and
/// opaque to this layer.
pub enum HttpOkay<F> {
    /// A static file, streamed by the serving loop.
    File(F),
    /// Dynamic HTML, escaped by the response translator.
    Html(Escape),
    /// Dynamic character data with its content type.
    Chars { data: String, content_type: &'static str },
    /// Dynamic binary data with its content type.
    Bytes { data: Vec<u8>, content_type: &'static str },
    /// Temporary redirect. The client should immediately request the
    /// given URL, which is relative to the base URL of the server.
    Redirect(String),
}

/// An erroneous HTTP response.
pub enum HttpError {
    /// A malformed or unsupported request.
    Invalid,
    /// A well-formed request for an absent resource.
    NotFound,
    /// An underlying failure, carried as a message that is logged
    /// server-side and never sent to the client.
    Error(String),
}

impl HttpError {
    /// Wrap an underlying error's message.
    pub fn new(message: String) -> (r: Self)
        ensures
            r == HttpError::Error(message),
    {
        HttpError::Error(message)
    }
}

/// Implement this to write your web application.
pub trait Handle {
    /// The file-resource type of responses, opaque to the routing layer.
    type File;

    /// Represents the URL request parameters that are recognised by this
    /// handler.
    type Params;

    /// Build the parameter record from the decoded `(key, value)` pairs
    /// of the query string, in order: the handler's own accumulation
    /// strategy.
    fn params_from_pairs(pairs: Vec<(String, String)>) -> Self::Params;

    /// Called for each GET request.
    ///
    /// - `path` - the part of the requested URL relative to the base URL,
    ///   as percent-decoded segments.
    /// - `params` - the parsed URL request parameters.
    ///
    /// Note that the strings in `path` and `params` may contain special
    /// characters such as `/` and `?`, and non-ASCII characters. Be
    /// careful if you construct filesystem paths from them.
    fn handle_get(&mut self, path: &Vec<String>, params: Self::Params) -> Result<
        HttpOkay<Self::File>,
        HttpError,
    >;
}

/// The deferred second phase of routing: query parsing and dispatch.
///
/// A router that selects a handler hands this callback to it; only then
/// is the query string parsed, and only for a GET request.
pub struct Callback {
    /// The request's HTTP method.
    pub method: Method,
    /// The full resolved request URL.
    pub url: String,
}

/// Whether `pairs` holds exactly the decoded query pairs of the URL
/// `url`, in order.
pub open spec fn pairs_of_url(pairs: Seq<(String, String)>, url: Seq<char>) -> bool {
    &&& pairs.len() == query_pairs_of(url).len()
    &&& forall|i: int| 0 <= i < pairs.len() ==> pairs[i].0@ == query_pairs_of(url)[i].0
        && pairs[i].1@ == query_pairs_of(url)[i].1
}

impl Callback {
    /// Parse the query parameters and dispatch to `handler`, exactly
    /// once.
    ///
    /// Law: any method but GET fails with `Invalid` before the query
    /// string is even looked at. For a GET request the outcome is the
    /// handler's own `handle_get`, handed the path and a parameter record
    /// that the handler's `params_from_pairs` built from the URL's
    /// decoded query pairs, in order.
    pub fn handle_with<H: Handle>(self, path: &Vec<String>, handler: &mut H) -> (r: Result<
        HttpOkay<H::File>,
        HttpError,
    >)
        ensures
            self.method != Method::Get ==> r == Err::<HttpOkay<H::File>, HttpError>(
                HttpError::Invalid,
            ),
            self.method == Method::Get ==> exists|
                pairs: Vec<(String, String)>,
                params: H::Params,
                m: &mut H,
            |
                #![trigger call_ensures(H::params_from_pairs, (pairs,), params),
                    call_ensures(H::handle_get, (m, path, params), r)]
                {
                    &&& pairs_of_url(pairs@, self.url@)
                    &&& call_ensures(H::params_from_pairs, (pairs,), params)
                    &&& call_ensures(H::handle_get, (m, path, params), r)
                },
    {
        match self.method {
            Method::Get => {
                let pairs = url_query_pairs(self.url.as_str());
                let ghost gpairs = pairs;
                let params = H::params_from_pairs(pairs);
                let ghost gparams = params;
                let r = handler.handle_get(path, params);
                proof {
                    assert(pairs_of_url(gpairs@, self.url@));
                }
                r
            },
            _ => Err(HttpError::Invalid),
        }
    }
}

/// Examine the URL path and select a handler.
pub trait Route {
    /// The file-resource type of responses, opaque to the routing layer.
    type File;

    /// If the path alone suffices to generate a response, just return it.
    /// If, say, the URL query parameters are needed, dispatch through
    /// `callback` to an implementation of [`Handle`].
    fn route(&mut self, path: &Vec<String>, callback: Callback) -> Result<
        HttpOkay<Self::File>,
        HttpError,
    >;
}

/// A handler used as its own router defers every path to the callback,
/// so the dispatch laws of [`Callback::handle_with`] hold of it: any
/// method but GET fails with `Invalid`, and a GET outcome is the
/// handler's own `handle_get` on the path and the accumulated query
/// pairs.
impl<H: Handle> Route for H {
    type File = H::File;

    fn route(&mut self, path: &Vec<String>, callback: Callback) -> (r: Result<
        HttpOkay<H::File>,
        HttpError,
    >)
        ensures
            callback.method != Method::Get ==> r == Err::<HttpOkay<H::File>, HttpError>(
                HttpError::Invalid,
            ),
            callback.method == Method::Get ==> exists|
                pairs: Vec<(String, String)>,
                params: H::Params,
                m: &mut H,
            |
                #![trigger call_ensures(H::params_from_pairs, (pairs,), params),
                    call_ensures(H::handle_get, (m, path, params), r)]
                {
                    &&& pairs_of_url(pairs@, callback.url@)
                    &&& call_ensures(H::params_from_pairs, (pairs,), params)
                    &&& call_ensures(H::handle_get, (m, path, params), r)
                },
    {
        callback.handle_with(path, self)
    }
}

/// The views of a sequence of strings.
pub open spec fn views_of(v: Seq<String>) -> Seq<Seq<char>> {
    v.map_values(|s: String| s@)
}

/// The decoded path: each raw segment percent-decoded, then a sole
/// trailing empty segment dropped.
pub open spec fn decoded_path_of(raw: Seq<Seq<char>>) -> Seq<Seq<char>> {
    let decoded = raw.map_values(|s: Seq<char>| percent_decoded(s));
    if decoded.len() > 0 && decoded[decoded.len() - 1] == Seq::<char>::empty() {
        decoded.take(decoded.len() - 1)
    } else {
        decoded
    }
}

/// Percent-decode the raw path segments and drop a sole trailing empty
/// segment, keeping order and content of the rest exactly as decoded.
pub fn decode_path(raw: &Vec<String>) -> (path: Vec<String>)
    ensures
        views_of(path@) == decoded_path_of(views_of(raw@)),
{
    let ghost decoded = views_of(raw@).map_values(|s: Seq<char>| percent_decoded(s));
    let mut path: Vec<String> = Vec::new();
    let mut i: usize = 0;
    while i < raw.len()
        invariant
            i <= raw@.len(),
            path@.len() == i,
            decoded == views_of(raw@).map_values(|s: Seq<char>| percent_decoded(s)),
            forall|j: int| 0 <= j < i ==> path@[j]@ == percent_decoded(raw@[j]@),
        decreases raw@.len() - i,
    {
        path.push(percent_decode(raw[i].as_str()));
        i = i + 1;
    }
    proof {
        assert(views_of(path@) =~= decoded);
    }
    let mut drop_last = false;
    if path.len() > 0 {
        if path[path.len() - 1].as_str().is_empty() {
            drop_last = true;
        }
    }
    if drop_last {
        let ghost before = path@;
        path.pop();
        proof {
            assert(views_of(before) == decoded);
            assert(decoded[decoded.len() - 1] =~= Seq::<char>::empty());
            assert(views_of(path@) =~= views_of(before).take(before.len() - 1));
            assert(views_of(path@) =~= decoded_path_of(views_of(raw@)));
        }
    } else {
        proof {
            assert(views_of(path@) =~= decoded_path_of(views_of(raw@)));
        }
    }
    path
}

/// Resolve the raw request target against the server URL and decode the
/// resulting path.
///
/// Returns the resolved URL and its decoded path segments. Fails with
/// `Error` exactly where the target does not resolve against
/// `server_url`, and with `Invalid` exactly where the resolved URL has no
/// path segments; succeeds on every other input.
pub fn request_path(server_url: &str, target: &str) -> (r: Result<(String, Vec<String>), HttpError>)
    ensures
        match r {
            Ok(p) => {
                &&& join_of(server_url@, target@) == Some(p.0@)
                &&& path_segments_of(p.0@) matches Some(raw)
                &&& views_of(p.1@) == decoded_path_of(raw)
            },
            Err(e) => match e {
                HttpError::Error(_) => join_of(server_url@, target@) is None,
                HttpError::Invalid => join_of(server_url@, target@) matches Some(u)
                    && path_segments_of(u) is None,
                HttpError::NotFound => false,
            },
        },
{
    match resolve_url(server_url, target) {
        Err(m) => Err(HttpError::Error(m)),
        Ok(full) => match url_path_segments(full.as_str()) {
            None => Err(HttpError::Invalid),
            Some(raw) => {
                proof {
                    let segs = path_segments_of(full@)->0;
                    assert(views_of(raw@) =~= segs);
                }
                let path = decode_path(&raw);
                Ok((full, path))
            },
        },
    }
}

/// Handle one decoded request: resolve the target, decode the path, and
/// hand the routing decision to `router`. The query string is parsed only
/// if the router dispatches a handler, and only for a GET request.
///
/// The outcome is the router's own — the last clause pins it to a
/// possible outcome of `route` on the decoded path and a callback
/// carrying this request's method and resolved URL — except that a
/// target that does not resolve fails with `Error`, and a resolved URL
/// without path segments with `Invalid`, before the router is consulted.
pub fn handle_request<R: Route>(router: &mut R, server_url: &str, target: &str, method: Method) -> (
    r: Result<HttpOkay<R::File>, HttpError>
)
    ensures
        join_of(server_url@, target@) is None ==> (r matches Err(e) && e matches HttpError::Error(
            _,
        )),
        (join_of(server_url@, target@) matches Some(u) && path_segments_of(u) is None) ==> r
            == Err::<HttpOkay<R::File>, HttpError>(HttpError::Invalid),
        join_of(server_url@, target@) matches Some(u) ==> (path_segments_of(u) matches Some(raw)
            ==> exists|m: &mut R, path: &Vec<String>, cb: Callback|
            #![trigger call_ensures(R::route, (m, path, cb), r)]
            {
                &&& views_of(path@) == decoded_path_of(raw)
                &&& cb.method == method
                &&& cb.url@ == u
                &&& call_ensures(R::route, (m, path, cb), r)
            }),
{
    match request_path(server_url, target) {
        Err(e) => Err(e),
        Ok((full, path)) => {
            let cb = Callback { method, url: full };
            let ghost gcb = cb;
            let r = router.route(&path, cb);
            proof {
                assert(gcb.method == method);
            }
            r
        },
    }
}

/// The server's local URL, `http://{address}/`, and the publicly visible
/// base URL, which is the given one where given — it must end in `/` —
/// and the local URL otherwise.
pub fn server_urls(server_address: &str, base_url: Option<&str>) -> (r: Option<(String, String)>)
    ensures
        match r {
            Some(p) => {
                &&& p.0@ == "http://"@ + server_address@ + "/"@
                &&& match base_url {
                    Some(b) => p.1@ == b@ && b@.len() > 0 && b@[b@.len() - 1] == '/',
                    None => p.1@ == p.0@,
                }
            },
            None => base_url matches Some(b) && !(b@.len() > 0 && b@[b@.len() - 1] == '/'),
        },
{
    let mut server: String = "http://".to_owned();
    server.append(server_address);
    server.append("/");
    match base_url {
        None => {
            let base = server.clone();
            Some((server, base))
        },
        Some(b) => {
            let n = b.unicode_len();
            if n == 0 {
                return None;
            }
            if b.get_char(n - 1) != '/' {
                return None;
            }
            Some((server, b.to_owned()))
        },
    }
}

} // verus!
