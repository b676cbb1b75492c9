//! Absolute URLs, parsed and resolved by the `url` crate.

use crate::error::{Error, UrlError};
use vstd::prelude::*;

verus! {

/// The serialisation of the URL that `url::Url::parse` makes of `input`, or
/// `None` where it refuses `input`.
pub uninterp spec fn parsed(input: Seq<char>) -> Option<Seq<char>>;

/// The serialisation of the URL that `url::Url::join` makes of `reference`
/// against the URL that `base` parses to, or `None` where `base` does not
/// parse or `reference` cannot be resolved against it.
pub uninterp spec fn joined(base: Seq<char>, reference: Seq<char>) -> Option<Seq<char>>;

/// A character that the URL parser drops wherever it stands: tab, line feed
/// or carriage return.
pub open spec fn is_tab_or_newline(c: char) -> bool {
    c == '\t' || c == '\n' || c == '\r'
}

/// A character that may follow the first letter of a scheme.
pub open spec fn is_scheme_char(c: char) -> bool {
    ('a' <= c && c <= 'z') || ('A' <= c && c <= 'Z') || ('0' <= c && c <= '9') || c == '+'
        || c == '-' || c == '.'
}

/// Whether `text`, read after the first letter of a scheme, goes on with
/// scheme characters up to a `:`.
pub open spec fn scheme_continues(text: Seq<char>) -> bool
    decreases text.len(),
{
    if text.len() == 0 {
        false
    } else if is_tab_or_newline(text[0]) {
        scheme_continues(text.drop_first())
    } else if text[0] == ':' {
        true
    } else if is_scheme_char(text[0]) {
        scheme_continues(text.drop_first())
    } else {
        false
    }
}

/// Whether `text` begins with a scheme: after any leading spaces and
/// control characters, an ASCII letter, then letters, digits, `+`, `-` or
/// `.`, then a `:`.
pub open spec fn has_scheme(text: Seq<char>) -> bool
    decreases text.len(),
{
    if text.len() == 0 {
        false
    } else if text[0] <= ' ' {
        has_scheme(text.drop_first())
    } else if ('a' <= text[0] && text[0] <= 'z') || ('A' <= text[0] && text[0] <= 'Z') {
        scheme_continues(text.drop_first())
    } else {
        false
    }
}

proof fn lemma_scheme_continues_from(text: Seq<char>, from: int)
    requires
        0 <= from < text.len(),
        forall|i: int| 0 <= i < from ==> is_tab_or_newline(text[i]) || is_scheme_char(text[i]),
    ensures
        scheme_continues(text) == if is_tab_or_newline(text[from]) || is_scheme_char(text[from]) {
            scheme_continues(text.skip(from + 1))
        } else {
            text[from] == ':'
        },
    decreases from,
{
    if from == 0 {
        assert(text.skip(1) =~= text.drop_first());
    } else {
        let rest = text.drop_first();
        assert(is_tab_or_newline(text[0]) || is_scheme_char(text[0]));
        assert(text[0] != ':');
        assert forall|i: int| 0 <= i < from - 1 implies is_tab_or_newline(rest[i])
            || is_scheme_char(rest[i]) by {
            assert(rest[i] == text[i + 1]);
        }
        lemma_scheme_continues_from(rest, from - 1);
        assert(rest.skip(from) =~= text.skip(from + 1));
    }
}

proof fn lemma_has_scheme_from(text: Seq<char>, from: int)
    requires
        0 <= from < text.len(),
        forall|i: int| 0 <= i < from ==> text[i] <= ' ',
        text[from] > ' ',
    ensures
        has_scheme(text) == ((('a' <= text[from] && text[from] <= 'z') || ('A' <= text[from]
            && text[from] <= 'Z')) && scheme_continues(text.skip(from + 1))),
    decreases from,
{
    if from == 0 {
        assert(text.skip(1) =~= text.drop_first());
    } else {
        let rest = text.drop_first();
        assert(text[0] <= ' ');
        assert forall|i: int| 0 <= i < from - 1 implies rest[i] <= ' ' by {
            assert(rest[i] == text[i + 1]);
        }
        lemma_has_scheme_from(rest, from - 1);
        assert(rest.skip(from) =~= text.skip(from + 1));
    }
}

proof fn lemma_no_scheme_in_blank(text: Seq<char>)
    requires
        forall|i: int| 0 <= i < text.len() ==> text[i] <= ' ',
    ensures
        !has_scheme(text),
    decreases text.len(),
{
    if text.len() > 0 {
        let rest = text.drop_first();
        assert forall|i: int| 0 <= i < rest.len() implies rest[i] <= ' ' by {
            assert(rest[i] == text[i + 1]);
        }
        lemma_no_scheme_in_blank(rest);
    }
}

proof fn lemma_no_scheme_without_colon(text: Seq<char>)
    requires
        forall|i: int| 0 <= i < text.len() ==> is_tab_or_newline(text[i]) || is_scheme_char(
            text[i],
        ),
    ensures
        !scheme_continues(text),
    decreases text.len(),
{
    if text.len() > 0 {
        let rest = text.drop_first();
        assert(text[0] != ':');
        assert forall|i: int| 0 <= i < rest.len() implies is_tab_or_newline(rest[i])
            || is_scheme_char(rest[i]) by {
            assert(rest[i] == text[i + 1]);
        }
        lemma_no_scheme_without_colon(rest);
    }
}

/// Tells whether `text` begins with a scheme.
pub fn begins_with_scheme(text: &str) -> (r: bool)
    ensures
        r == has_scheme(text@),
{
    let length = text.unicode_len();
    let mut in_scheme = false;
    let mut at: usize = 0;
    let ghost start: int = 0;
    let ghost tail: Seq<char> = Seq::empty();
    for c in iter: text.chars()
        invariant
            length == text@.len(),
            at == iter.index(),
            iter.seq() == text@,
            !in_scheme ==> forall|i: int| 0 <= i < at ==> text@[i] <= ' ',
            in_scheme ==> 0 <= start < at,
            in_scheme ==> tail == text@.skip(start + 1),
            in_scheme ==> has_scheme(text@) == scheme_continues(tail),
            in_scheme ==> forall|i: int|
                0 <= i < at - start - 1 ==> is_tab_or_newline(#[trigger] tail[i])
                    || is_scheme_char(tail[i]),
    {
        assert(c == text@[at as int]);
        if in_scheme {
            proof {
                assert(tail[at - start - 1] == c);
                lemma_scheme_continues_from(tail, at - start - 1);
            }
            let passes = c == '\t' || c == '\n' || c == '\r' || ('a' <= c && c <= 'z') || ('A'
                <= c && c <= 'Z') || ('0' <= c && c <= '9') || c == '+' || c == '-' || c == '.';
            if !passes {
                return c == ':';
            }
        } else if c > ' ' {
            proof {
                lemma_has_scheme_from(text@, at as int);
                start = at as int;
                tail = text@.skip(start + 1);
            }
            if !(('a' <= c && c <= 'z') || ('A' <= c && c <= 'Z')) {
                return false;
            }
            in_scheme = true;
        }
        at = at + 1;
    }
    proof {
        if in_scheme {
            lemma_no_scheme_without_colon(tail);
        } else {
            lemma_no_scheme_in_blank(text@);
        }
    }
    false
}

/// What a parser result says in terms of serialisations.
spec fn serialisation(r: Result<String, url::ParseError>) -> Option<Seq<char>> {
    match r {
        Ok(text) => Some(text@),
        Err(_) => None,
    }
}

/// Calls `url::Url::parse` and hands back the serialisation of the URL.
///
/// The contract names the outcome `parsed(input)` and adds one fact that
/// the parser's source shows: a text that does not begin with a scheme is
/// never accepted, since nothing is there to resolve it against.
#[verifier::external_body]
fn parse_text(input: &str) -> (r: Result<String, url::ParseError>)
    ensures
        serialisation(r) == parsed(input@),
        !has_scheme(input@) ==> r is Err,
{
    url::Url::parse(input).map(String::from)
}

/// Calls `url::Url::parse` on `base` and `url::Url::join` on the result, and
/// hands back the serialisation of the resolved URL.
///
/// The contract names the outcome `joined(base, reference)`.
#[verifier::external_body]
fn join_text(base: &str, reference: &str) -> (r: Result<String, url::ParseError>)
    ensures
        serialisation(r) == joined(base@, reference@),
{
    url::Url::parse(base)?.join(reference).map(String::from)
}

/// An absolute URL, held as the serialisation that the `url` crate gave it.
#[derive(Debug, Clone, PartialEq, Eq)]
pub struct Url {
    text: String,
}

impl View for Url {
    type V = Seq<char>;

    closed spec fn view(&self) -> Seq<char> {
        self.text@
    }
}

impl Url {
    /// Parses an absolute URL.
    ///
    /// Succeeds exactly where the `url` crate accepts `input`, with the
    /// serialisation it gives; a text without a scheme is always refused.
    pub fn parse(input: &str) -> (r: Result<Url, Error>)
        ensures
            match r {
                Ok(url) => parsed(input@) == Some(url@),
                Err(e) => parsed(input@) is None && e.is_parser_refusal(),
            },
            !has_scheme(input@) ==> r is Err,
    {
        match parse_text(input) {
            Ok(text) => Ok(Url { text }),
            Err(e) => Err(Error::ParseError(UrlError::Parser(e))),
        }
    }

    /// Resolves `reference` against this URL.
    pub fn join(&self, reference: &str) -> (r: Result<Url, Error>)
        ensures
            match r {
                Ok(url) => joined(self@, reference@) == Some(url@),
                Err(e) => joined(self@, reference@) is None && e.is_parser_refusal(),
            },
    {
        match join_text(self.text.as_str(), reference) {
            Ok(text) => Ok(Url { text }),
            Err(e) => Err(Error::ParseError(UrlError::Parser(e))),
        }
    }

    /// Tells whether this URL begins with the whole of `root`, so that it
    /// has the scheme and the host of `root` and lies at or below its path.
    pub fn is_under(&self, root: &Url) -> (r: bool)
        ensures
            r == root@.is_prefix_of(self@),
    {
        let length = self.text.as_str().unicode_len();
        let root_length = root.text.as_str().unicode_len();
        if length < root_length {
            return false;
        }
        let head = String::from_str(self.text.as_str().substring_char(0, root_length));
        head == root.text
    }

    /// The serialisation of this URL.
    pub fn as_str(&self) -> (r: &str)
        ensures
            r@ == self@,
    {
        self.text.as_str()
    }
}

} // verus!
