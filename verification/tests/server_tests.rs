use std::collections::HashMap;

use petite_http::content_types;
use petite_http::html::{Escape, Template};
use petite_http::respond::{respond, Body, WireResponse};
use petite_http::server::{
    decode_path, handle_request, server_urls, Callback, Handle, HttpError, HttpOkay, Method,
};

/// The parameters recognised by the demo handler.
#[derive(Default)]
struct Params {
    name: String,
    greeting: String,
}

/// A small guest-book application: `/thank` registers a visitor with a
/// greeting, `/visitor/{name}` shows it back.
#[derive(Default)]
struct Demo {
    visitors: HashMap<String, String>,
}

impl Handle for Demo {
    type File = ();
    type Params = Params;

    fn params_from_pairs(pairs: Vec<(String, String)>) -> Params {
        let mut ret = Params::default();
        for (key, value) in pairs {
            if key == "name" {
                ret.name = value;
            } else if key == "greeting" {
                ret.greeting = value;
            }
        }
        ret
    }

    fn handle_get(
        &mut self,
        path: &Vec<String>,
        params: Params,
    ) -> Result<HttpOkay<()>, HttpError> {
        match path.first().map(|s| s.as_str()) {
            None => Ok(HttpOkay::Redirect("start".to_string())),
            Some("start") => Ok(HttpOkay::Html(Escape::Literal("<h1>Welcome</h1>".to_string()))),
            Some("stylesheet.css") => Ok(HttpOkay::Chars {
                data: "body { margin: 0 }".to_string(),
                content_type: content_types::CSS,
            }),
            Some("thank") => {
                if !params.name.is_empty() && !params.greeting.is_empty() {
                    self.visitors.insert(params.name, params.greeting);
                    Ok(HttpOkay::Html(Escape::Literal("<p>Thank you!</p>".to_string())))
                } else {
                    Err(HttpError::Invalid)
                }
            }
            Some("visitor") => match path.get(1) {
                Some(name) => match self.visitors.get(name) {
                    Some(greeting) => Ok(HttpOkay::Html(Escape::Template(Box::new(Template {
                        pattern: "<p>{name} says: {greeting}</p>".to_string(),
                        bindings: vec![
                            ("name".to_string(), Escape::Scalar(name.clone())),
                            ("greeting".to_string(), Escape::Scalar(greeting.clone())),
                        ],
                    })))),
                    None => Err(HttpError::NotFound),
                },
                None => Err(HttpError::Invalid),
            },
            Some(_) => Err(HttpError::Invalid),
        }
    }
}

const SERVER: &str = "http://localhost:8080/";

fn get(demo: &mut Demo, target: &str) -> WireResponse<()> {
    let outcome = handle_request(demo, SERVER, target, Method::Get);
    respond(outcome, SERVER)
}

fn body_text(w: &WireResponse<()>) -> &str {
    match &w.body {
        Body::Text(s) => s.as_str(),
        _ => panic!("expected a text body"),
    }
}

#[test]
fn registering_then_visiting_then_missing() {
    let mut demo = Demo::default();

    let w = get(&mut demo, "/thank?name=Ann&greeting=Hi");
    assert_eq!(w.status, 200);
    assert_eq!(demo.visitors.get("Ann").map(|s| s.as_str()), Some("Hi"));

    let w = get(&mut demo, "/visitor/Ann");
    assert_eq!(w.status, 200);
    assert!(body_text(&w).contains("Hi"));

    let w = get(&mut demo, "/visitor/Bob");
    assert_eq!(w.status, 404);
    assert_eq!(body_text(&w), "Not found");
}

#[test]
fn unrecognized_path_is_invalid() {
    let mut demo = Demo::default();
    let w = get(&mut demo, "/nosuch");
    assert_eq!(w.status, 400);
    assert_eq!(body_text(&w), "Invalid request");
}

#[test]
fn non_get_methods_are_invalid_and_not_dispatched() {
    let mut demo = Demo::default();
    for method in [
        Method::Head,
        Method::Post,
        Method::Put,
        Method::Delete,
        Method::Connect,
        Method::Options,
        Method::Trace,
        Method::Patch,
        Method::Other,
    ] {
        let outcome = handle_request(&mut demo, SERVER, "/thank?name=X&greeting=Y", method);
        assert!(matches!(outcome, Err(HttpError::Invalid)));
        let w = respond(outcome, SERVER);
        assert_eq!(w.status, 400);
    }
    // No dispatch happened, so nothing was stored.
    assert!(demo.visitors.is_empty());
}

#[test]
fn non_get_fails_through_the_callback_itself() {
    let mut demo = Demo::default();
    let callback = Callback {
        method: Method::Post,
        url: format!("{}thank?name=X&greeting=Y", SERVER),
    };
    let path = vec!["thank".to_string()];
    let outcome = callback.handle_with(&path, &mut demo);
    assert!(matches!(outcome, Err(HttpError::Invalid)));
    assert!(demo.visitors.is_empty());
}

#[test]
fn path_segments_are_percent_decoded() {
    let mut demo = Demo::default();
    let w = get(&mut demo, "/thank?name=Ann%20B&greeting=Hello%20there");
    assert_eq!(w.status, 200);
    assert_eq!(demo.visitors.get("Ann B").map(|s| s.as_str()), Some("Hello there"));

    let w = get(&mut demo, "/visitor/Ann%20B");
    assert_eq!(w.status, 200);
    assert!(body_text(&w).contains("Hello there"));
}

#[test]
fn a_trailing_slash_is_dropped() {
    let mut demo = Demo::default();
    let w = get(&mut demo, "/nosuch/");
    assert_eq!(w.status, 400);
    let w = get(&mut demo, "/");
    // The empty path redirects to the start page.
    assert_eq!(w.status, 307);
}

#[test]
fn decode_path_decodes_and_drops_a_sole_trailing_empty_segment() {
    let raw = vec!["a%20b".to_string(), "c".to_string(), "".to_string()];
    let path = decode_path(&raw);
    assert_eq!(path, vec!["a b".to_string(), "c".to_string()]);

    let raw = vec!["a".to_string(), "".to_string(), "".to_string()];
    let path = decode_path(&raw);
    assert_eq!(path, vec!["a".to_string(), "".to_string()]);
}

#[test]
fn redirect_resolves_against_the_base_url() {
    let outcome: Result<HttpOkay<()>, HttpError> = Ok(HttpOkay::Redirect("start".to_string()));
    let w = respond(outcome, "http://host/");
    assert_eq!(w.status, 307);
    assert_eq!(w.headers, vec![("Location".to_string(), "http://host/start".to_string())]);
    assert_eq!(body_text(&w), "Temporary Redirect");
}

#[test]
fn redirect_against_a_bad_base_degrades_to_500() {
    let outcome: Result<HttpOkay<()>, HttpError> = Ok(HttpOkay::Redirect("start".to_string()));
    let w = respond(outcome, "not a url");
    assert_eq!(w.status, 500);
    assert_eq!(body_text(&w), "Server error");
    assert!(w.log.is_some());
}

#[test]
fn html_is_escaped_and_served_as_text_html() {
    let outcome: Result<HttpOkay<()>, HttpError> =
        Ok(HttpOkay::Html(Escape::Scalar("<i>".to_string())));
    let w = respond(outcome, SERVER);
    assert_eq!(w.status, 200);
    assert_eq!(
        w.headers,
        vec![("Content-Type".to_string(), "text/html".to_string())]
    );
    assert_eq!(body_text(&w), "&lt;i&gt;");
}

#[test]
fn a_failing_template_degrades_to_500_with_a_log() {
    let outcome: Result<HttpOkay<()>, HttpError> =
        Ok(HttpOkay::Html(Escape::Template(Box::new(Template {
            pattern: "{missing}".to_string(),
            bindings: Vec::new(),
        }))));
    let w = respond(outcome, SERVER);
    assert_eq!(w.status, 500);
    assert_eq!(body_text(&w), "Server error");
    assert_eq!(w.log.as_deref(), Some("undefined variable"));
}

#[test]
fn chars_and_bytes_carry_their_content_type() {
    let outcome: Result<HttpOkay<()>, HttpError> = Ok(HttpOkay::Chars {
        data: "x: 1".to_string(),
        content_type: content_types::JSON,
    });
    let w = respond(outcome, SERVER);
    assert_eq!(w.status, 200);
    assert_eq!(
        w.headers,
        vec![("Content-Type".to_string(), "application/json".to_string())]
    );

    let outcome: Result<HttpOkay<()>, HttpError> = Ok(HttpOkay::Bytes {
        data: vec![1, 2, 3],
        content_type: content_types::BIN,
    });
    let w = respond(outcome, SERVER);
    assert_eq!(w.status, 200);
    match &w.body {
        Body::Data(d) => assert_eq!(d, &vec![1, 2, 3]),
        _ => panic!("expected a binary body"),
    }
}

#[test]
fn wrapped_errors_are_logged_but_never_echoed() {
    let outcome: Result<HttpOkay<()>, HttpError> =
        Err(HttpError::new("disk on fire".to_string()));
    let w = respond(outcome, SERVER);
    assert_eq!(w.status, 500);
    assert_eq!(body_text(&w), "Server error");
    assert_eq!(w.log.as_deref(), Some("disk on fire"));
}

#[test]
fn an_unresolvable_target_is_a_wrapped_error() {
    let mut demo = Demo::default();
    let outcome = handle_request(&mut demo, "not a url", "/x", Method::Get);
    assert!(matches!(outcome, Err(HttpError::Error(_))));
}

#[test]
fn server_urls_default_and_validate() {
    let (server, base) = server_urls("localhost:8080", None).unwrap();
    assert_eq!(server, "http://localhost:8080/");
    assert_eq!(base, "http://localhost:8080/");

    let (server, base) = server_urls("127.0.0.1:80", Some("http://example.com/")).unwrap();
    assert_eq!(server, "http://127.0.0.1:80/");
    assert_eq!(base, "http://example.com/");

    assert!(server_urls("localhost:8080", Some("http://example.com")).is_none());
    assert!(server_urls("localhost:8080", Some("")).is_none());
}
