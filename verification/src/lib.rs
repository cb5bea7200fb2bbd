//! A small verified web-application kernel.
//!
//! The crate has four parts: an HTML escaping model built around a closed
//! family of escapable values, a template engine that interpolates named
//! values into a pattern, a two-phase request-routing protocol that defers
//! query-string parsing until a handler is actually selected, and a
//! response translator that maps the closed result and error vocabulary
//! onto wire-level status codes, headers and bodies.

use vstd::prelude::*;
use vstd::string::StrSliceExecFns;

pub mod content_types;
pub mod html;
pub mod respond;
pub mod server;
pub mod urls;
mod text;

pub use server::{Callback, Handle, HttpError, HttpOkay, Method, Route};

verus! {

/// Case-insensitive equality of two characters, folding ASCII letters only.
pub open spec fn ascii_eq_ignore_case(a: char, b: char) -> bool {
    a == b
    || ('A' <= a && a <= 'Z' && b as int == a as int + 32)
    || ('a' <= a && a <= 'z' && a as int == b as int + 32)
}

/// Case-insensitive equality of two character sequences, folding ASCII
/// letters only.
pub open spec fn seq_eq_ignore_ascii_case(a: Seq<char>, b: Seq<char>) -> bool {
    a.len() == b.len() && forall|i: int| 0 <= i < a.len() ==> ascii_eq_ignore_case(a[i], b[i])
}

/// Whether `filename` ends in a dot followed by `extension`, compared
/// without regard to ASCII case.
pub open spec fn has_extension(filename: Seq<char>, extension: Seq<char>) -> bool {
    &&& filename.len() >= extension.len() + 1
    &&& filename[filename.len() - extension.len() - 1] == '.'
    &&& seq_eq_ignore_ascii_case(
        filename.skip(filename.len() - extension.len()),
        extension,
    )
}

/// Case-insensitive comparison of two characters, folding ASCII letters only.
fn chars_eq_ignore_case(a: char, b: char) -> (r: bool)
    ensures
        r == ascii_eq_ignore_case(a, b),
{
    let x = a as u32;
    let y = b as u32;
    x == y || (x >= 65 && x <= 90 && y == x + 32) || (y >= 65 && y <= 90 && x == y + 32)
}

/// Given `"foo.BAR"` and `"bar"` returns `Some("foo")`.
///
/// Strips a final `.extension` from `filename`, comparing the extension
/// without regard to ASCII case, and returns the stem. Returns `None` when
/// `filename` does not end in a dot followed by `extension`.
pub fn remove_extension<'a>(filename: &'a str, extension: &str) -> (r: Option<&'a str>)
    ensures
        match r {
            Some(stem) => {
                &&& has_extension(filename@, extension@)
                &&& stem@ == filename@.take(filename@.len() - extension@.len() - 1)
            },
            None => !has_extension(filename@, extension@),
        },
{
    let n = filename.unicode_len();
    let m = extension.unicode_len();
    if m >= n {
        return None;
    }
    let dot = n - m - 1;
    if filename.get_char(dot) != '.' {
        return None;
    }
    let mut j: usize = 0;
    while j < m
        invariant
            j <= m,
            m == extension@.len(),
            n == filename@.len(),
            m < n,
            dot == n - m - 1,
            filename@[dot as int] == '.',
            forall|k: int| 0 <= k < j
                ==> ascii_eq_ignore_case(filename@[dot + 1 + k], extension@[k]),
        decreases m - j,
    {
        if !chars_eq_ignore_case(filename.get_char(dot + 1 + j), extension.get_char(j)) {
            proof {
                let tail = filename@.skip(filename@.len() - extension@.len());
                assert(tail[j as int] == filename@[dot + 1 + j]);
            }
            return None;
        }
        j = j + 1;
    }
    proof {
        let tail = filename@.skip(filename@.len() - extension@.len());
        assert(forall|k: int| 0 <= k < extension@.len()
            ==> tail[k] == filename@[dot + 1 + k]);
    }
    Some(filename.substring_char(0, dot))
}

/// A character acceptable in a portable filename: ASCII letters, digits
/// and `_`, `.`, `-`.
pub open spec fn is_filename_char(c: char) -> bool {
    ('0' <= c && c <= '9') || ('A' <= c && c <= 'Z') || ('a' <= c && c <= 'z') || c == '_' || c
        == '.' || c == '-'
}

/// Error returned by [`validate_name`] if it doesn't like the filename.
#[derive(Debug)]
pub struct DubiousFilename(pub String);

impl DubiousFilename {
    /// The complaint, for logging or display.
    pub fn message(&self) -> (r: String)
        ensures
            r@ == "Filename \""@ + self.0@
                + "\" contains unusual characters; only letters, digits and \"_-.\" are allowed"@,
    {
        let mut m: String = "Filename \"".to_owned();
        m.append(self.0.as_str());
        m.append("\" contains unusual characters; only letters, digits and \"_-.\" are allowed");
        m
    }
}

/// If `s` only contains alphanumeric characters and characters in `_-.`,
/// returns it unchanged.
///
/// There are perfectly good filenames that do not satisfy this criterion,
/// but those that do are unlikely to need to be escaped in any context.
/// This criterion is satisfied by many common filenames, including
/// auto-generated filenames that are based on dates, hashes or sequence
/// numbers.
pub fn validate_name(s: &str) -> (r: Result<&str, DubiousFilename>)
    ensures
        r is Ok <==> (forall|i: int| 0 <= i < s@.len() ==> is_filename_char(s@[i])),
        r matches Ok(t) ==> t@ == s@,
        r matches Err(d) ==> d.0@ == s@,
{
    let n = s.unicode_len();
    let mut i: usize = 0;
    while i < n
        invariant
            i <= n,
            n == s@.len(),
            forall|k: int| 0 <= k < i ==> is_filename_char(s@[k]),
        decreases n - i,
    {
        let c = s.get_char(i);
        let x = c as u32;
        let ok = (x >= 48 && x <= 57) || (x >= 65 && x <= 90) || (x >= 97 && x <= 122) || x == 95
            || x == 46 || x == 45;
        if !ok {
            proof {
                assert(!is_filename_char(s@[i as int]));
            }
            return Err(DubiousFilename(s.to_owned()));
        }
        i = i + 1;
    }
    Ok(s)
}

} // verus!
