//! Header values, checked by the `http` crate that `reqwest` re-exports.

use crate::error::Error;
use crate::request::{pair_views, Pair};
use vstd::prelude::*;
use vstd::utf8::*;

verus! {

/// The name of the header that carries the API key.
pub const ACCESS_KEY: &'static str = "AccessKey";

/// The name of the header that says which content the client takes.
pub const ACCEPT: &'static str = "accept";

/// The content type of a JSON document.
pub const JSON: &'static str = "application/json";

/// The headers that a client with the key `api_key` sends with every
/// request: the key itself, and that it takes JSON.
pub open spec fn default_headers_of(api_key: Seq<char>) -> Seq<(Seq<char>, Seq<char>)> {
    seq![(ACCESS_KEY@, api_key), (ACCEPT@, JSON@)]
}

/// A byte that `http` admits in a header value: anything from the space
/// upwards except DEL, and the tab.
pub open spec fn is_value_byte(b: u8) -> bool {
    (b >= 32 && b != 127) || b == 9
}

/// Whether `http` admits every byte of `bytes` in a header value.
pub open spec fn value_bytes_admitted(bytes: Seq<u8>) -> bool {
    forall|i: int| 0 <= i < bytes.len() ==> is_value_byte(#[trigger] bytes[i])
}

/// A character that may stand in a header value of this crate: visible
/// ASCII, the space, or the tab.
pub open spec fn is_header_char(c: char) -> bool {
    (' ' <= c && c <= '~') || c == '\t'
}

/// Whether `text` can be sent as a header value: every character of it is
/// ASCII and admitted by `http`.
pub open spec fn header_safe(text: Seq<char>) -> bool {
    forall|i: int| 0 <= i < text.len() ==> is_header_char(#[trigger] text[i])
}

/// Calls `reqwest::header::HeaderValue::from_str` and reports whether it
/// accepted `value`.
///
/// The contract states the test that `http` makes of each byte of the UTF-8
/// form of `value`. Bytes from 128 upwards pass it, so this call alone does
/// not keep non-ASCII text out.
#[verifier::external_body]
fn value_admitted(value: &str) -> (r: bool)
    ensures
        r == value_bytes_admitted(encode_utf8(value@)),
{
    reqwest::header::HeaderValue::from_str(value).is_ok()
}

/// Tells whether `value` can be sent as a header value.
pub fn is_header_safe(value: &str) -> (r: bool)
    ensures
        r == header_safe(value@),
{
    if !value.is_ascii() {
        proof {
            let i = choose|i: int|
                0 <= i < value@.len() && !('\0' <= #[trigger] value@[i] && value@[i] <= '\u{7f}');
            assert(!is_header_char(value@[i]));
        }
        return false;
    }
    let admitted = value_admitted(value);
    proof {
        let bytes = encode_utf8(value@);
        is_ascii_chars_encode_utf8(value@);
        if header_safe(value@) {
            assert forall|i: int| 0 <= i < bytes.len() implies is_value_byte(
                #[trigger] bytes[i],
            ) by {
                assert(is_header_char(value@[i]));
                assert(bytes[i] == value@[i] as u8);
            }
        }
        if value_bytes_admitted(bytes) {
            assert forall|i: int| 0 <= i < value@.len() implies is_header_char(
                #[trigger] value@[i],
            ) by {
                assert(is_value_byte(bytes[i]));
                assert(bytes[i] == value@[i] as u8);
                assert('\0' <= value@[i] <= '\u{7f}');
            }
        }
    }
    admitted
}

/// An API key that can be sent as the value of a header.
#[derive(Debug)]
pub struct AccessKey {
    text: String,
}

impl View for AccessKey {
    type V = Seq<char>;

    closed spec fn view(&self) -> Seq<char> {
        self.text@
    }
}

impl Clone for AccessKey {
    fn clone(&self) -> (r: Self)
        ensures
            r@ == self@,
    {
        proof {
            use_type_invariant(self);
        }
        AccessKey { text: self.text.clone() }
    }
}

impl AccessKey {
    #[verifier::type_invariant]
    spec fn is_safe(self) -> bool {
        header_safe(self.text@)
    }

    /// Takes `text` as an API key.
    ///
    /// Succeeds exactly where `text` can be sent as a header value; any
    /// other text, and so any text with a character outside ASCII, is
    /// refused as an invalid header.
    pub fn new(text: &str) -> (r: Result<AccessKey, Error>)
        ensures
            match r {
                Ok(key) => header_safe(text@) && key@ == text@,
                Err(e) => !header_safe(text@) && e is InvalidHeader,
            },
            !is_ascii_chars(text@) ==> (r matches Err(e) && e is InvalidHeader),
    {
        proof {
            if !is_ascii_chars(text@) {
                lemma_non_ascii_is_unsafe(text@);
            }
        }
        if is_header_safe(text) {
            Ok(AccessKey { text: String::from_str(text) })
        } else {
            Err(Error::InvalidHeader)
        }
    }

    /// The headers that go with every request made under this key.
    pub fn headers(&self) -> (r: Vec<Pair>)
        ensures
            pair_views(r@) == default_headers_of(self@),
            header_safe(self@),
    {
        proof {
            use_type_invariant(self);
        }
        let mut headers: Vec<Pair> = Vec::new();
        headers.push(Pair::new(ACCESS_KEY, self.text.as_str()));
        headers.push(Pair::new(ACCEPT, JSON));
        assert(pair_views(headers@) =~= default_headers_of(self@));
        headers
    }

    /// The key as text, which can be sent as a header value.
    pub fn as_str(&self) -> (r: &str)
        ensures
            r@ == self@,
            header_safe(r@),
    {
        proof {
            use_type_invariant(self);
        }
        self.text.as_str()
    }
}

/// A text with a character outside ASCII is never header-safe.
pub proof fn lemma_non_ascii_is_unsafe(text: Seq<char>)
    requires
        !is_ascii_chars(text),
    ensures
        !header_safe(text),
{
    let i = choose|i: int|
        0 <= i < text.len() && !('\0' <= #[trigger] text[i] && text[i] <= '\u{7f}');
    assert(!is_header_char(text[i]));
}

} // verus!
