//! Safely construct HTML from templates and user data.
//!
//! The only path to text output is [`Escape::escape`], which entity-encodes
//! everything except values explicitly marked as already escaped, so an
//! unescaped interpolation is a visible, auditable choice rather than an
//! accident.

use vstd::prelude::*;
use crate::text::{str_to_chars, chars_to_string};

verus! {

/// A failure while rendering a template.
///
/// These indicate a defect in a (normally static) template rather than bad
/// client input, and are surfaced as recoverable errors.
#[derive(Clone, Copy, Debug, PartialEq, Eq, Structural)]
pub enum TemplateError {
    /// A `{...}` interpolation point whose name strays outside the
    /// identifier grammar (ASCII letters, digits and `_.-`), or is empty.
    MalformedVariableName,
    /// A variable name with no binding of that name.
    UndefinedVariable,
    /// A `{` opened with no matching `}` before the pattern ends.
    UnterminatedVariable,
}

impl TemplateError {
    /// A short description of the failure, for server-side logging.
    pub fn message(&self) -> (r: String)
        ensures
            r@ == match *self {
                TemplateError::MalformedVariableName => "malformed variable name"@,
                TemplateError::UndefinedVariable => "undefined variable"@,
                TemplateError::UnterminatedVariable => "unterminated variable"@,
            },
    {
        match self {
            TemplateError::MalformedVariableName => "malformed variable name".to_owned(),
            TemplateError::UndefinedVariable => "undefined variable".to_owned(),
            TemplateError::UnterminatedVariable => "unterminated variable".to_owned(),
        }
    }
}

/// A value that renders itself into HTML-safe text: the closed set of
/// escapable variants.
pub enum Escape {
    /// Text asserted to be already correctly escaped; rendered verbatim.
    /// This is the sole trapdoor past the entity encoder, and its
    /// correctness is entirely the caller's responsibility: never wrap
    /// user input as `Literal`.
    Literal(String),
    /// Plain text; `& < > " '` are entity-encoded when rendered.
    Scalar(String),
    /// An ordered list of escapable values, rendered in order with no
    /// separator.
    Concat(Vec<Escape>),
    /// An HTML fragment constructed by interpolating variables into a
    /// pattern; see [`Template`].
    Template(Box<Template>),
}

/// An HTML fragment constructed by interpolating variables into a template.
pub struct Template {
    /// The template string: the invariant part of the HTML. This should
    /// already be correctly escaped.
    ///
    /// `{variable}` is replaced by the escaped version of `variable`;
    /// `{{` stands for a literal `{` and `}}` for a literal `}`.
    pub pattern: String,
    /// Variables to be escaped and interpolated into the template. Names
    /// are looked up by first exact match: a later duplicate of a name is
    /// silently unreachable.
    pub bindings: Vec<(String, Escape)>,
}

/// The entity encoding of one character: `&`, `<`, `>`, `"` and `'` become
/// HTML entities, every other character stands for itself.
pub open spec fn entity_of(c: char) -> Seq<char> {
    if c == '&' {
        seq!['&', 'a', 'm', 'p', ';']
    } else if c == '<' {
        seq!['&', 'l', 't', ';']
    } else if c == '>' {
        seq!['&', 'g', 't', ';']
    } else if c == '"' {
        seq!['&', 'q', 'u', 'o', 't', ';']
    } else if c == '\'' {
        seq!['&', '#', '3', '9', ';']
    } else {
        seq![c]
    }
}

/// The entity encoding of a text: each character replaced by its entity.
pub open spec fn encode_text_spec(s: Seq<char>) -> Seq<char>
    decreases s.len(),
{
    if s.len() == 0 {
        Seq::empty()
    } else {
        entity_of(s[0]) + encode_text_spec(s.skip(1))
    }
}

/// Entity encoding distributes over concatenation.
pub proof fn lemma_encode_concat(a: Seq<char>, b: Seq<char>)
    ensures
        encode_text_spec(a + b) == encode_text_spec(a) + encode_text_spec(b),
    decreases a.len(),
{
    if a.len() == 0 {
        assert(a + b =~= b);
        assert(encode_text_spec(a) + encode_text_spec(b) =~= encode_text_spec(b));
    } else {
        lemma_encode_concat(a.skip(1), b);
        assert((a + b).skip(1) =~= a.skip(1) + b);
        assert((a + b)[0] == a[0]);
        assert((a + b).len() != 0);
        assert(entity_of(a[0]) + (encode_text_spec(a.skip(1)) + encode_text_spec(b)) =~= (
        entity_of(a[0]) + encode_text_spec(a.skip(1))) + encode_text_spec(b));
    }
}

/// Encoding one more character appends that character's entity.
proof fn lemma_encode_snoc(s: Seq<char>, i: int)
    requires
        0 <= i < s.len(),
    ensures
        encode_text_spec(s.take(i + 1)) == encode_text_spec(s.take(i)) + entity_of(s[i]),
{
    let unit = seq![s[i]];
    assert(s.take(i + 1) =~= s.take(i) + unit);
    lemma_encode_concat(s.take(i), unit);
    assert(unit.skip(1) =~= Seq::<char>::empty());
    assert(encode_text_spec(Seq::<char>::empty()) =~= Seq::<char>::empty());
    assert(encode_text_spec(unit) =~= entity_of(s[i]) + encode_text_spec(unit.skip(1)));
    assert(encode_text_spec(unit) =~= entity_of(s[i]));
}

/// Replace the special characters `& < > " '` by HTML entities, `&` first,
/// so that nothing is double-encoded.
pub fn encode_text(s: &str) -> (r: String)
    ensures
        r@ == encode_text_spec(s@),
{
    let chars = str_to_chars(s);
    let mut out: Vec<char> = Vec::new();
    let mut i: usize = 0;
    while i < chars.len()
        invariant
            i <= chars@.len(),
            chars@ == s@,
            out@ == encode_text_spec(s@.take(i as int)),
        decreases chars@.len() - i,
    {
        let ghost prev = out@;
        let c = chars[i];
        if c == '&' {
            out.push('&');
            out.push('a');
            out.push('m');
            out.push('p');
            out.push(';');
        } else if c == '<' {
            out.push('&');
            out.push('l');
            out.push('t');
            out.push(';');
        } else if c == '>' {
            out.push('&');
            out.push('g');
            out.push('t');
            out.push(';');
        } else if c == '"' {
            out.push('&');
            out.push('q');
            out.push('u');
            out.push('o');
            out.push('t');
            out.push(';');
        } else if c == '\'' {
            out.push('&');
            out.push('#');
            out.push('3');
            out.push('9');
            out.push(';');
        } else {
            out.push(c);
        }
        proof {
            assert(out@ =~= prev + entity_of(s@[i as int]));
            lemma_encode_snoc(s@, i as int);
        }
        i = i + 1;
    }
    proof {
        assert(s@.take(chars@.len() as int) =~= s@);
    }
    chars_to_string(&out)
}

/// The index of the first occurrence of `c` in `p` at or after `from`.
pub open spec fn find_char(p: Seq<char>, c: char, from: int) -> Option<int>
    decreases p.len() - from,
{
    if from < 0 || from >= p.len() {
        None
    } else if p[from] == c {
        Some(from)
    } else {
        find_char(p, c, from + 1)
    }
}

/// Where `find_char` finds an index, it lies in range and holds `c`.
pub proof fn lemma_find_char_bounds(p: Seq<char>, c: char, from: int)
    ensures
        find_char(p, c, from) matches Some(k) ==> from <= k < p.len() && p[k] == c,
    decreases p.len() - from,
{
    if 0 <= from < p.len() && p[from] != c {
        lemma_find_char_bounds(p, c, from + 1);
    }
}

/// `find_char` returns exactly the first occurrence.
proof fn lemma_find_char_exact(p: Seq<char>, c: char, from: int, j: int)
    requires
        0 <= from <= j < p.len(),
        p[j] == c,
        forall|t: int| from <= t < j ==> p[t] != c,
    ensures
        find_char(p, c, from) == Some(j),
    decreases j - from,
{
    if from < j {
        lemma_find_char_exact(p, c, from + 1, j);
    }
}

/// Where `c` does not occur at or after `from`, `find_char` finds nothing.
proof fn lemma_find_char_none(p: Seq<char>, c: char, from: int)
    requires
        0 <= from,
        forall|t: int| from <= t < p.len() ==> p[t] != c,
    ensures
        find_char(p, c, from) is None,
    decreases p.len() - from,
{
    if from < p.len() {
        lemma_find_char_none(p, c, from + 1);
    }
}

/// A character of the variable-name grammar: ASCII letters, digits and
/// `_`, `.`, `-`.
pub open spec fn is_name_char(c: char) -> bool {
    ('0' <= c && c <= '9') || ('A' <= c && c <= 'Z') || ('a' <= c && c <= 'z') || c == '_' || c
        == '.' || c == '-'
}

/// A well-formed variable name: nonempty, every character in the grammar.
pub open spec fn valid_var_name(name: Seq<char>) -> bool {
    name.len() > 0 && forall|i: int| 0 <= i < name.len() ==> is_name_char(name[i])
}

/// The escaped text of `e`, or the first rendering failure inside it.
pub open spec fn escape_spec(e: Escape) -> Result<Seq<char>, TemplateError>
    decreases e, 0int, 0int,
{
    match e {
        Escape::Literal(s) => Ok(s@),
        Escape::Scalar(s) => Ok(encode_text_spec(s@)),
        Escape::Concat(items) => concat_spec(items@, 0),
        Escape::Template(t) => render_from(t.pattern@, 0, t.bindings@),
    }
}

/// The concatenation of the escaped texts of `items[i..]`, or the first
/// failure among them.
pub open spec fn concat_spec(items: Seq<Escape>, i: int) -> Result<Seq<char>, TemplateError>
    decreases items, 0int, items.len() - i,
{
    if i < 0 || i >= items.len() {
        Ok(Seq::empty())
    } else {
        match escape_spec(items[i]) {
            Err(e) => Err(e),
            Ok(head) => match concat_spec(items, i + 1) {
                Err(e) => Err(e),
                Ok(tail) => Ok(head + tail),
            },
        }
    }
}

/// The escaped text of the first binding in `bs[i..]` named `name`, or
/// `None` when no binding has that name.
pub open spec fn escape_lookup(bs: Seq<(String, Escape)>, i: int, name: Seq<char>) -> Option<
    Result<Seq<char>, TemplateError>,
>
    decreases bs, 0int, bs.len() - i,
{
    if i < 0 || i >= bs.len() {
        None
    } else if bs[i].0@ == name {
        Some(escape_spec(bs[i].1))
    } else {
        escape_lookup(bs, i + 1, name)
    }
}

/// The value of the first binding in `bs[i..]` named `name`.
pub open spec fn lookup_binding(bs: Seq<(String, Escape)>, i: int, name: Seq<char>) -> Option<
    Escape,
>
    decreases bs.len() - i,
{
    if i < 0 || i >= bs.len() {
        None
    } else if bs[i].0@ == name {
        Some(bs[i].1)
    } else {
        lookup_binding(bs, i + 1, name)
    }
}

/// `escape_lookup` escapes exactly the binding that `lookup_binding` finds.
pub proof fn lemma_escape_lookup_is_lookup(bs: Seq<(String, Escape)>, i: int, name: Seq<char>)
    ensures
        escape_lookup(bs, i, name) == match lookup_binding(bs, i, name) {
            None => None,
            Some(v) => Some(escape_spec(v)),
        },
    decreases bs.len() - i,
{
    if 0 <= i < bs.len() && bs[i].0@ != name {
        lemma_escape_lookup_is_lookup(bs, i + 1, name);
    }
}

/// The rendering of the pattern `p` from position `pos` on, against the
/// bindings `bs`: literal text is copied, `{{` and `}}` collapse to one
/// brace, and `{name}` becomes the escaped value of the first binding
/// named `name`.
pub open spec fn render_from(p: Seq<char>, pos: int, bs: Seq<(String, Escape)>) -> Result<
    Seq<char>,
    TemplateError,
>
    decreases bs, 1int, p.len() - pos,
    via render_from_decreases
{
    if pos < 0 || pos >= p.len() {
        Ok(Seq::empty())
    } else if p[pos] == '{' {
        if pos + 1 < p.len() && p[pos + 1] == '{' {
            match render_from(p, pos + 2, bs) {
                Err(e) => Err(e),
                Ok(rest) => Ok(seq!['{'] + rest),
            }
        } else {
            match find_char(p, '}', pos + 1) {
                None => Err(TemplateError::UnterminatedVariable),
                Some(close) => {
                    let name = p.subrange(pos + 1, close);
                    if !valid_var_name(name) {
                        Err(TemplateError::MalformedVariableName)
                    } else {
                        match escape_lookup(bs, 0, name) {
                            None => Err(TemplateError::UndefinedVariable),
                            Some(Err(e)) => Err(e),
                            Some(Ok(text)) => match render_from(p, close + 1, bs) {
                                Err(e) => Err(e),
                                Ok(rest) => Ok(text + rest),
                            },
                        }
                    }
                },
            }
        }
    } else if p[pos] == '}' && pos + 1 < p.len() && p[pos + 1] == '}' {
        match render_from(p, pos + 2, bs) {
            Err(e) => Err(e),
            Ok(rest) => Ok(seq!['}'] + rest),
        }
    } else {
        match render_from(p, pos + 1, bs) {
            Err(e) => Err(e),
            Ok(rest) => Ok(seq![p[pos]] + rest),
        }
    }
}

#[via_fn]
proof fn render_from_decreases(p: Seq<char>, pos: int, bs: Seq<(String, Escape)>) {
    lemma_find_char_bounds(p, '}', pos + 1);
}

/// The sequence of characters behind a rendering result.
pub open spec fn res_view(r: Result<String, TemplateError>) -> Result<Seq<char>, TemplateError> {
    match r {
        Ok(s) => Ok(s@),
        Err(e) => Err(e),
    }
}

/// The first occurrence of `c` in `p` at or after `from`.
fn find_char_exec(p: &Vec<char>, c: char, from: usize) -> (r: Option<usize>)
    requires
        from <= p@.len(),
    ensures
        match r {
            Some(k) => from <= k < p@.len() && find_char(p@, c, from as int) == Some(k as int),
            None => find_char(p@, c, from as int) is None,
        },
{
    let mut j = from;
    while j < p.len()
        invariant
            from <= j <= p@.len(),
            forall|t: int| from <= t < j ==> p@[t] != c,
        decreases p@.len() - j,
    {
        if p[j] == c {
            proof {
                lemma_find_char_exact(p@, c, from as int, j as int);
            }
            return Some(j);
        }
        j = j + 1;
    }
    proof {
        lemma_find_char_none(p@, c, from as int);
    }
    None
}

/// Whether `c` belongs to the variable-name grammar.
fn is_name_char_exec(c: char) -> (r: bool)
    ensures
        r == is_name_char(c),
{
    let x = c as u32;
    (x >= 48 && x <= 57) || (x >= 65 && x <= 90) || (x >= 97 && x <= 122) || x == 95 || x == 46
        || x == 45
}

/// Whether every character of `p[from..to]` belongs to the name grammar.
fn all_name_chars(p: &Vec<char>, from: usize, to: usize) -> (r: bool)
    requires
        from <= to <= p@.len(),
    ensures
        r == forall|i: int| from <= i < to ==> is_name_char(p@[i]),
{
    let mut j = from;
    while j < to
        invariant
            from <= j <= to <= p@.len(),
            forall|t: int| from <= t < j ==> is_name_char(p@[t]),
        decreases to - j,
    {
        if !is_name_char_exec(p[j]) {
            return false;
        }
        j = j + 1;
    }
    true
}

/// The index of the first binding whose name is `p[from..to]`.
fn lookup_exec(bs: &Vec<(String, Escape)>, p: &Vec<char>, from: usize, to: usize) -> (r: Option<
    usize,
>)
    requires
        from <= to <= p@.len(),
    ensures
        match r {
            Some(j) => j < bs@.len() && lookup_binding(bs@, 0, p@.subrange(from as int, to as int))
                == Some(bs@[j as int].1),
            None => lookup_binding(bs@, 0, p@.subrange(from as int, to as int)) is None,
        },
{
    let ghost name = p@.subrange(from as int, to as int);
    let mut j: usize = 0;
    while j < bs.len()
        invariant
            j <= bs@.len(),
            from <= to <= p@.len(),
            name == p@.subrange(from as int, to as int),
            forall|t: int| 0 <= t < j ==> bs@[t].0@ != name,
        decreases bs@.len() - j,
    {
        if crate::text::str_eq_chars(bs[j].0.as_str(), p, from, to) {
            proof {
                lemma_lookup_exact(bs@, 0, name, j as int);
            }
            return Some(j);
        }
        j = j + 1;
    }
    proof {
        lemma_lookup_none(bs@, 0, name);
    }
    None
}

/// `lookup_binding` returns exactly the first binding with the name.
proof fn lemma_lookup_exact(bs: Seq<(String, Escape)>, i: int, name: Seq<char>, j: int)
    requires
        0 <= i <= j < bs.len(),
        bs[j].0@ == name,
        forall|t: int| i <= t < j ==> bs[t].0@ != name,
    ensures
        lookup_binding(bs, i, name) == Some(bs[j].1),
    decreases j - i,
{
    if i < j {
        lemma_lookup_exact(bs, i + 1, name, j);
    }
}

/// Where no binding bears the name, `lookup_binding` finds nothing.
proof fn lemma_lookup_none(bs: Seq<(String, Escape)>, i: int, name: Seq<char>)
    requires
        0 <= i,
        forall|t: int| i <= t < bs.len() ==> bs[t].0@ != name,
    ensures
        lookup_binding(bs, i, name) is None,
    decreases bs.len() - i,
{
    if i < bs.len() {
        lemma_lookup_none(bs, i + 1, name);
    }
}

impl Escape {
    /// Render this value into HTML-safe text, or report the first
    /// rendering failure inside it.
    pub fn escape(&self) -> (r: Result<String, TemplateError>)
        ensures
            res_view(r) == escape_spec(*self),
        decreases *self, 0int, 0int,
    {
        match self {
            Escape::Literal(s) => Ok(s.clone()),
            Escape::Scalar(s) => Ok(encode_text(s.as_str())),
            Escape::Concat(items) => escape_concat(items, 0),
            Escape::Template(t) => {
                let chars = str_to_chars(t.pattern.as_str());
                render_chars(&chars, 0, &t.bindings)
            },
        }
    }
}

/// The concatenation of the escaped texts of `items[i..]`.
fn escape_concat(items: &Vec<Escape>, i: usize) -> (r: Result<String, TemplateError>)
    requires
        i <= items@.len(),
    ensures
        res_view(r) == concat_spec(items@, i as int),
    decreases items@, 0int, items@.len() - i,
{
    if i == items.len() {
        return Ok(String::new());
    }
    match items[i].escape() {
        Err(e) => Err(e),
        Ok(head) => match escape_concat(items, i + 1) {
            Err(e) => Err(e),
            Ok(tail) => {
                let mut s = head;
                s.append(tail.as_str());
                Ok(s)
            },
        },
    }
}

/// Render the pattern `p` from position `pos` on against the bindings `bs`.
fn render_chars(p: &Vec<char>, pos: usize, bs: &Vec<(String, Escape)>) -> (r: Result<
    String,
    TemplateError,
>)
    requires
        pos <= p@.len(),
    ensures
        res_view(r) == render_from(p@, pos as int, bs@),
    decreases bs@, 1int, p@.len() - pos,
{
    if pos == p.len() {
        return Ok(String::new());
    }
    let c = p[pos];
    if c == '{' {
        if pos + 1 < p.len() && p[pos + 1] == '{' {
            match render_chars(p, pos + 2, bs) {
                Err(e) => Err(e),
                Ok(rest) => {
                    let brace = vec!['{'];
                    let mut s = chars_to_string(&brace);
                    s.append(rest.as_str());
                    proof {
                        assert(brace@ =~= seq!['{']);
                        assert(s@ == seq!['{'] + rest@);
                    }
                    Ok(s)
                },
            }
        } else {
            match find_char_exec(p, '}', pos + 1) {
                None => Err(TemplateError::UnterminatedVariable),
                Some(close) => {
                    let ghost name = p@.subrange(pos + 1, close as int);
                    let name_ok = if close == pos + 1 {
                        proof {
                            assert(name.len() == 0);
                        }
                        false
                    } else {
                        all_name_chars(p, pos + 1, close)
                    };
                    if !name_ok {
                        proof {
                            if close > pos + 1 {
                                let t = choose|t: int|
                                    pos + 1 <= t < close && !is_name_char(p@[t]);
                                assert(name[t - (pos + 1)] == p@[t]);
                                assert(!valid_var_name(name));
                            }
                        }
                        Err(TemplateError::MalformedVariableName)
                    } else {
                        proof {
                            assert(forall|i: int| 0 <= i < name.len()
                                ==> name[i] == p@[pos + 1 + i] && is_name_char(name[i]));
                            assert(valid_var_name(name));
                            lemma_escape_lookup_is_lookup(bs@, 0, name);
                        }
                        match lookup_exec(bs, p, pos + 1, close) {
                            None => Err(TemplateError::UndefinedVariable),
                            Some(j) => match bs[j].1.escape() {
                                Err(e) => Err(e),
                                Ok(text) => match render_chars(p, close + 1, bs) {
                                    Err(e) => Err(e),
                                    Ok(rest) => {
                                        let ghost text_view = text@;
                                        let mut s = text;
                                        s.append(rest.as_str());
                                        proof {
                                            assert(s@ == text_view + rest@);
                                        }
                                        Ok(s)
                                    },
                                },
                            },
                        }
                    }
                },
            }
        }
    } else if c == '}' && pos + 1 < p.len() && p[pos + 1] == '}' {
        match render_chars(p, pos + 2, bs) {
            Err(e) => Err(e),
            Ok(rest) => {
                let brace = vec!['}'];
                let mut s = chars_to_string(&brace);
                s.append(rest.as_str());
                proof {
                    assert(brace@ =~= seq!['}']);
                    assert(s@ == seq!['}'] + rest@);
                }
                Ok(s)
            },
        }
    } else {
        match render_chars(p, pos + 1, bs) {
            Err(e) => Err(e),
            Ok(rest) => {
                let unit = vec![c];
                let mut s = chars_to_string(&unit);
                s.append(rest.as_str());
                proof {
                    assert(unit@ =~= seq![c]);
                    assert(s@ == seq![c] + rest@);
                }
                Ok(s)
            },
        }
    }
}

/// Interpolate `bindings` into `pattern`: `render(pattern, bindings)`.
///
/// Text before the next `{` is copied unchanged, `{{` collapses to `{`,
/// `}}` to `}`, and `{name}` becomes the escaped value of the first
/// binding named `name`; see [`TemplateError`] for the failure cases.
pub fn render(pattern: &str, bindings: &Vec<(String, Escape)>) -> (r: Result<
    String,
    TemplateError,
>)
    ensures
        res_view(r) == render_from(pattern@, 0, bindings@),
{
    let chars = str_to_chars(pattern);
    render_chars(&chars, 0, bindings)
}

impl Template {
    /// Render this template: interpolate its bindings into its pattern.
    pub fn render(&self) -> (r: Result<String, TemplateError>)
        ensures
            res_view(r) == render_from(self.pattern@, 0, self.bindings@),
    {
        render(self.pattern.as_str(), &self.bindings)
    }
}

/// Whether `s` begins with `prefix`.
pub open spec fn starts_with(s: Seq<char>, prefix: Seq<char>) -> bool {
    prefix.len() <= s.len() && s.take(prefix.len() as int) == prefix
}

/// The reverse of the entity encoding: each of the five entities becomes
/// its character, every other character is copied.
pub open spec fn decode_text_spec(s: Seq<char>) -> Seq<char>
    decreases s.len(),
{
    if s.len() == 0 {
        Seq::empty()
    } else if starts_with(s, seq!['&', 'a', 'm', 'p', ';']) {
        seq!['&'] + decode_text_spec(s.skip(5))
    } else if starts_with(s, seq!['&', 'l', 't', ';']) {
        seq!['<'] + decode_text_spec(s.skip(4))
    } else if starts_with(s, seq!['&', 'g', 't', ';']) {
        seq!['>'] + decode_text_spec(s.skip(4))
    } else if starts_with(s, seq!['&', 'q', 'u', 'o', 't', ';']) {
        seq!['"'] + decode_text_spec(s.skip(6))
    } else if starts_with(s, seq!['&', '#', '3', '9', ';']) {
        seq!['\''] + decode_text_spec(s.skip(5))
    } else {
        seq![s[0]] + decode_text_spec(s.skip(1))
    }
}

/// Law: entity-encoding a text and then reversing the encoding yields the
/// original text exactly, whatever special characters it holds.
pub proof fn lemma_encode_decode_round_trip(s: Seq<char>)
    ensures
        decode_text_spec(encode_text_spec(s)) == s,
    decreases s.len(),
{
    if s.len() == 0 {
        assert(decode_text_spec(encode_text_spec(s)) =~= s);
    } else {
        let c = s[0];
        let e = encode_text_spec(s);
        let tail = encode_text_spec(s.skip(1));
        lemma_encode_decode_round_trip(s.skip(1));
        assert(e == entity_of(c) + tail);
        if c == '&' {
            let ent = seq!['&', 'a', 'm', 'p', ';'];
            assert(e.take(5) =~= ent);
            assert(starts_with(e, ent));
            assert(e.skip(5) =~= tail);
            assert(decode_text_spec(e) == seq!['&'] + s.skip(1));
            assert(seq!['&'] + s.skip(1) =~= s);
        } else if c == '<' {
            let ent = seq!['&', 'l', 't', ';'];
            assert(e.take(4) =~= ent);
            assert(e[1] == 'l');
            assert(!starts_with(e, seq!['&', 'a', 'm', 'p', ';'])) by {
                if starts_with(e, seq!['&', 'a', 'm', 'p', ';']) {
                    assert(e.take(5)[1] == 'a');
                }
            }
            assert(starts_with(e, ent));
            assert(e.skip(4) =~= tail);
            assert(decode_text_spec(e) == seq!['<'] + s.skip(1));
            assert(seq!['<'] + s.skip(1) =~= s);
        } else if c == '>' {
            let ent = seq!['&', 'g', 't', ';'];
            assert(e.take(4) =~= ent);
            assert(e[1] == 'g');
            assert(!starts_with(e, seq!['&', 'a', 'm', 'p', ';'])) by {
                if starts_with(e, seq!['&', 'a', 'm', 'p', ';']) {
                    assert(e.take(5)[1] == 'a');
                }
            }
            assert(!starts_with(e, seq!['&', 'l', 't', ';'])) by {
                if starts_with(e, seq!['&', 'l', 't', ';']) {
                    assert(e.take(4)[1] == 'l');
                }
            }
            assert(starts_with(e, ent));
            assert(e.skip(4) =~= tail);
            assert(decode_text_spec(e) == seq!['>'] + s.skip(1));
            assert(seq!['>'] + s.skip(1) =~= s);
        } else if c == '"' {
            let ent = seq!['&', 'q', 'u', 'o', 't', ';'];
            assert(e.take(6) =~= ent);
            assert(e[1] == 'q');
            assert(!starts_with(e, seq!['&', 'a', 'm', 'p', ';'])) by {
                if starts_with(e, seq!['&', 'a', 'm', 'p', ';']) {
                    assert(e.take(5)[1] == 'a');
                }
            }
            assert(!starts_with(e, seq!['&', 'l', 't', ';'])) by {
                if starts_with(e, seq!['&', 'l', 't', ';']) {
                    assert(e.take(4)[1] == 'l');
                }
            }
            assert(!starts_with(e, seq!['&', 'g', 't', ';'])) by {
                if starts_with(e, seq!['&', 'g', 't', ';']) {
                    assert(e.take(4)[1] == 'g');
                }
            }
            assert(starts_with(e, ent));
            assert(e.skip(6) =~= tail);
            assert(decode_text_spec(e) == seq!['"'] + s.skip(1));
            assert(seq!['"'] + s.skip(1) =~= s);
        } else if c == '\'' {
            let ent = seq!['&', '#', '3', '9', ';'];
            assert(e.take(5) =~= ent);
            assert(e[1] == '#');
            assert(!starts_with(e, seq!['&', 'a', 'm', 'p', ';'])) by {
                if starts_with(e, seq!['&', 'a', 'm', 'p', ';']) {
                    assert(e.take(5)[1] == 'a');
                }
            }
            assert(!starts_with(e, seq!['&', 'l', 't', ';'])) by {
                if starts_with(e, seq!['&', 'l', 't', ';']) {
                    assert(e.take(4)[1] == 'l');
                }
            }
            assert(!starts_with(e, seq!['&', 'g', 't', ';'])) by {
                if starts_with(e, seq!['&', 'g', 't', ';']) {
                    assert(e.take(4)[1] == 'g');
                }
            }
            assert(!starts_with(e, seq!['&', 'q', 'u', 'o', 't', ';'])) by {
                if starts_with(e, seq!['&', 'q', 'u', 'o', 't', ';']) {
                    assert(e.take(6)[1] == 'q');
                }
            }
            assert(starts_with(e, ent));
            assert(e.skip(5) =~= tail);
            assert(decode_text_spec(e) == seq!['\''] + s.skip(1));
            assert(seq!['\''] + s.skip(1) =~= s);
        } else {
            assert(entity_of(c) =~= seq![c]);
            assert(e[0] == c);
            assert(e.len() >= 1);
            assert(!starts_with(e, seq!['&', 'a', 'm', 'p', ';'])) by {
                if starts_with(e, seq!['&', 'a', 'm', 'p', ';']) {
                    assert(e.take(5)[0] == '&');
                }
            }
            assert(!starts_with(e, seq!['&', 'l', 't', ';'])) by {
                if starts_with(e, seq!['&', 'l', 't', ';']) {
                    assert(e.take(4)[0] == '&');
                }
            }
            assert(!starts_with(e, seq!['&', 'g', 't', ';'])) by {
                if starts_with(e, seq!['&', 'g', 't', ';']) {
                    assert(e.take(4)[0] == '&');
                }
            }
            assert(!starts_with(e, seq!['&', 'q', 'u', 'o', 't', ';'])) by {
                if starts_with(e, seq!['&', 'q', 'u', 'o', 't', ';']) {
                    assert(e.take(6)[0] == '&');
                }
            }
            assert(!starts_with(e, seq!['&', '#', '3', '9', ';'])) by {
                if starts_with(e, seq!['&', '#', '3', '9', ';']) {
                    assert(e.take(5)[0] == '&');
                }
            }
            assert(e.skip(1) =~= tail);
            assert(decode_text_spec(e) == seq![c] + s.skip(1));
            assert(seq![c] + s.skip(1) =~= s);
        }
    }
}

/// Law: escaping a `Scalar` and then reversing the entity encoding yields
/// the scalar's text exactly.
pub proof fn lemma_scalar_round_trip(x: String)
    ensures
        escape_spec(Escape::Scalar(x)) matches Ok(t) && decode_text_spec(t) == x@,
{
    lemma_encode_decode_round_trip(x@);
}

/// Law: a `Literal` escapes to exactly its own text, bypassing the entity
/// encoder.
pub proof fn lemma_literal_bypass(x: String)
    ensures
        escape_spec(Escape::Literal(x)) == Ok::<Seq<char>, TemplateError>(x@),
{
}

/// Law: the escape of a two-element concatenation is the concatenation of
/// the two escapes.
pub proof fn lemma_escape_concat_pair(c: Escape, a: Escape, b: Escape)
    requires
        c matches Escape::Concat(v) && v@ == seq![a, b],
        escape_spec(a) is Ok,
        escape_spec(b) is Ok,
    ensures
        escape_spec(c) == Ok::<Seq<char>, TemplateError>(
            escape_spec(a)->Ok_0 + escape_spec(b)->Ok_0,
        ),
{
    let v = c->Concat_0;
    assert(v@[0] == a && v@[1] == b);
    assert(concat_spec(v@, 2) == Ok::<Seq<char>, TemplateError>(Seq::empty()));
    assert(concat_spec(v@, 1) == Ok::<Seq<char>, TemplateError>(
        escape_spec(b)->Ok_0 + Seq::empty(),
    ));
    assert(escape_spec(b)->Ok_0 + Seq::<char>::empty() =~= escape_spec(b)->Ok_0);
    assert(concat_spec(v@, 0) == Ok::<Seq<char>, TemplateError>(
        escape_spec(a)->Ok_0 + escape_spec(b)->Ok_0,
    ));
}

/// Reverse the entity encoding: replace each of the five entities by the
/// character it stands for.
pub fn decode_text(s: &str) -> (r: String)
    ensures
        r@ == decode_text_spec(s@),
{
    let chars = str_to_chars(s);
    let mut out: Vec<char> = Vec::new();
    let mut pos: usize = 0;
    proof {
        assert(s@.skip(0) =~= s@);
        assert(out@ + decode_text_spec(s@) =~= decode_text_spec(s@));
    }
    while pos < chars.len()
        invariant
            pos <= chars@.len(),
            chars@ == s@,
            decode_text_spec(s@) == out@ + decode_text_spec(s@.skip(pos as int)),
        decreases chars@.len() - pos,
    {
        let ghost rem = s@.skip(pos as int);
        let ghost prev = out@;
        let n = chars.len();
        proof {
            assert(rem.len() == n - pos);
            assert(forall|k: int| 0 <= k < rem.len() ==> rem[k] == s@[pos + k]);
        }
        if n - pos >= 5 && chars[pos] == '&' && chars[pos + 1] == 'a' && chars[pos + 2] == 'm'
            && chars[pos + 3] == 'p' && chars[pos + 4] == ';' {
            proof {
                assert(rem.take(5) =~= seq!['&', 'a', 'm', 'p', ';']);
                assert(starts_with(rem, seq!['&', 'a', 'm', 'p', ';']));
                assert(rem.skip(5) =~= s@.skip(pos + 5));
                assert(decode_text_spec(rem) == seq!['&'] + decode_text_spec(s@.skip(pos + 5)));
            }
            out.push('&');
            pos = pos + 5;
        } else if n - pos >= 4 && chars[pos] == '&' && chars[pos + 1] == 'l' && chars[pos + 2]
            == 't' && chars[pos + 3] == ';' {
            proof {
                assert(rem.take(4) =~= seq!['&', 'l', 't', ';']);
                assert(starts_with(rem, seq!['&', 'l', 't', ';']));
                assert(!starts_with(rem, seq!['&', 'a', 'm', 'p', ';'])) by {
                    if starts_with(rem, seq!['&', 'a', 'm', 'p', ';']) {
                        assert(rem.take(5)[1] == 'a');
                    }
                }
                assert(rem.skip(4) =~= s@.skip(pos + 4));
                assert(decode_text_spec(rem) == seq!['<'] + decode_text_spec(s@.skip(pos + 4)));
            }
            out.push('<');
            pos = pos + 4;
        } else if n - pos >= 4 && chars[pos] == '&' && chars[pos + 1] == 'g' && chars[pos + 2]
            == 't' && chars[pos + 3] == ';' {
            proof {
                assert(rem.take(4) =~= seq!['&', 'g', 't', ';']);
                assert(starts_with(rem, seq!['&', 'g', 't', ';']));
                assert(!starts_with(rem, seq!['&', 'a', 'm', 'p', ';'])) by {
                    if starts_with(rem, seq!['&', 'a', 'm', 'p', ';']) {
                        assert(rem.take(5)[1] == 'a');
                    }
                }
                assert(!starts_with(rem, seq!['&', 'l', 't', ';'])) by {
                    if starts_with(rem, seq!['&', 'l', 't', ';']) {
                        assert(rem.take(4)[1] == 'l');
                    }
                }
                assert(rem.skip(4) =~= s@.skip(pos + 4));
                assert(decode_text_spec(rem) == seq!['>'] + decode_text_spec(s@.skip(pos + 4)));
            }
            out.push('>');
            pos = pos + 4;
        } else if n - pos >= 6 && chars[pos] == '&' && chars[pos + 1] == 'q' && chars[pos + 2]
            == 'u' && chars[pos + 3] == 'o' && chars[pos + 4] == 't' && chars[pos + 5] == ';' {
            proof {
                assert(rem.take(6) =~= seq!['&', 'q', 'u', 'o', 't', ';']);
                assert(starts_with(rem, seq!['&', 'q', 'u', 'o', 't', ';']));
                assert(!starts_with(rem, seq!['&', 'a', 'm', 'p', ';'])) by {
                    if starts_with(rem, seq!['&', 'a', 'm', 'p', ';']) {
                        assert(rem.take(5)[1] == 'a');
                    }
                }
                assert(!starts_with(rem, seq!['&', 'l', 't', ';'])) by {
                    if starts_with(rem, seq!['&', 'l', 't', ';']) {
                        assert(rem.take(4)[1] == 'l');
                    }
                }
                assert(!starts_with(rem, seq!['&', 'g', 't', ';'])) by {
                    if starts_with(rem, seq!['&', 'g', 't', ';']) {
                        assert(rem.take(4)[1] == 'g');
                    }
                }
                assert(rem.skip(6) =~= s@.skip(pos + 6));
                assert(decode_text_spec(rem) == seq!['"'] + decode_text_spec(s@.skip(pos + 6)));
            }
            out.push('"');
            pos = pos + 6;
        } else if n - pos >= 5 && chars[pos] == '&' && chars[pos + 1] == '#' && chars[pos + 2]
            == '3' && chars[pos + 3] == '9' && chars[pos + 4] == ';' {
            proof {
                assert(rem.take(5) =~= seq!['&', '#', '3', '9', ';']);
                assert(starts_with(rem, seq!['&', '#', '3', '9', ';']));
                assert(!starts_with(rem, seq!['&', 'a', 'm', 'p', ';'])) by {
                    if starts_with(rem, seq!['&', 'a', 'm', 'p', ';']) {
                        assert(rem.take(5)[1] == 'a');
                    }
                }
                assert(!starts_with(rem, seq!['&', 'l', 't', ';'])) by {
                    if starts_with(rem, seq!['&', 'l', 't', ';']) {
                        assert(rem.take(4)[1] == 'l');
                    }
                }
                assert(!starts_with(rem, seq!['&', 'g', 't', ';'])) by {
                    if starts_with(rem, seq!['&', 'g', 't', ';']) {
                        assert(rem.take(4)[1] == 'g');
                    }
                }
                assert(!starts_with(rem, seq!['&', 'q', 'u', 'o', 't', ';'])) by {
                    if starts_with(rem, seq!['&', 'q', 'u', 'o', 't', ';']) {
                        assert(rem.take(6)[1] == 'q');
                    }
                }
                assert(rem.skip(5) =~= s@.skip(pos + 5));
                assert(decode_text_spec(rem) == seq!['\''] + decode_text_spec(s@.skip(pos + 5)));
            }
            out.push('\'');
            pos = pos + 5;
        } else {
            let c = chars[pos];
            proof {
                assert(rem[0] == c);
                assert(!starts_with(rem, seq!['&', 'a', 'm', 'p', ';'])) by {
                    if starts_with(rem, seq!['&', 'a', 'm', 'p', ';']) {
                        assert(rem.take(5)[0] == '&' && rem.take(5)[1] == 'a' && rem.take(5)[2]
                            == 'm' && rem.take(5)[3] == 'p' && rem.take(5)[4] == ';');
                    }
                }
                assert(!starts_with(rem, seq!['&', 'l', 't', ';'])) by {
                    if starts_with(rem, seq!['&', 'l', 't', ';']) {
                        assert(rem.take(4)[0] == '&' && rem.take(4)[1] == 'l' && rem.take(4)[2]
                            == 't' && rem.take(4)[3] == ';');
                    }
                }
                assert(!starts_with(rem, seq!['&', 'g', 't', ';'])) by {
                    if starts_with(rem, seq!['&', 'g', 't', ';']) {
                        assert(rem.take(4)[0] == '&' && rem.take(4)[1] == 'g' && rem.take(4)[2]
                            == 't' && rem.take(4)[3] == ';');
                    }
                }
                assert(!starts_with(rem, seq!['&', 'q', 'u', 'o', 't', ';'])) by {
                    if starts_with(rem, seq!['&', 'q', 'u', 'o', 't', ';']) {
                        assert(rem.take(6)[0] == '&' && rem.take(6)[1] == 'q' && rem.take(6)[2]
                            == 'u' && rem.take(6)[3] == 'o' && rem.take(6)[4] == 't' && rem.take(
                            6,
                        )[5] == ';');
                    }
                }
                assert(!starts_with(rem, seq!['&', '#', '3', '9', ';'])) by {
                    if starts_with(rem, seq!['&', '#', '3', '9', ';']) {
                        assert(rem.take(5)[0] == '&' && rem.take(5)[1] == '#' && rem.take(5)[2]
                            == '3' && rem.take(5)[3] == '9' && rem.take(5)[4] == ';');
                    }
                }
                assert(rem.skip(1) =~= s@.skip(pos + 1));
                assert(decode_text_spec(rem) == seq![c] + decode_text_spec(s@.skip(pos + 1)));
            }
            out.push(c);
            pos = pos + 1;
        }
        proof {
            assert(decode_text_spec(s@) == prev + decode_text_spec(rem));
            assert(out@ + decode_text_spec(s@.skip(pos as int)) =~= prev + decode_text_spec(rem));
        }
    }
    proof {
        assert(s@.skip(chars@.len() as int) =~= Seq::<char>::empty());
        assert(decode_text_spec(s@) =~= out@);
    }
    chars_to_string(&out)
}

} // verus!
