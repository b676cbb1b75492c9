//! Query strings in the `application/x-www-form-urlencoded` form.

use crate::request::{pair_views, Pair};
use vstd::prelude::*;
use vstd::utf8::*;

verus! {

/// A byte that the form encoding leaves as it is: an ASCII letter or digit,
/// or one of `*`, `-`, `.` and `_`.
pub open spec fn is_unreserved(b: u8) -> bool {
    (0x30 <= b && b <= 0x39) || (0x41 <= b && b <= 0x5a) || (0x61 <= b && b <= 0x7a) || b == 0x2a
        || b == 0x2d || b == 0x2e || b == 0x5f
}

/// The upper-case hexadecimal digit for `n`.
pub open spec fn hex_digit(n: int) -> char
    recommends
        0 <= n < 16,
{
    if n < 10 {
        (n + 48) as char
    } else {
        (n + 55) as char
    }
}

/// The form encoding of one byte: itself where it is unreserved, `+` for a
/// space, and otherwise `%` with its two hexadecimal digits.
pub open spec fn encoded_byte(b: u8) -> Seq<char> {
    if is_unreserved(b) {
        seq![b as char]
    } else if b == 0x20 {
        seq!['+']
    } else {
        seq!['%', hex_digit(b as int / 16), hex_digit(b as int % 16)]
    }
}

/// The form encoding of a byte string: the encodings of its bytes, in
/// order.
pub open spec fn form_encoded(bytes: Seq<u8>) -> Seq<char>
    decreases bytes.len(),
{
    if bytes.len() == 0 {
        Seq::empty()
    } else {
        encoded_byte(bytes[0]) + form_encoded(bytes.drop_first())
    }
}

/// A character that an encoded text is made of: an ASCII letter or digit,
/// or one of `*`, `-`, `.`, `_`, `+` and `%`.
pub open spec fn is_encoded_char(c: char) -> bool {
    ('0' <= c && c <= '9') || ('A' <= c && c <= 'Z') || ('a' <= c && c <= 'z') || c == '*' || c
        == '-' || c == '.' || c == '_' || c == '+' || c == '%'
}

/// An encoded byte string holds nothing but letters, digits and `*`, `-`,
/// `.`, `_`, `+`, `%`: no `&`, `=`, `?` or `#` of a value can end its
/// parameter or the query string.
pub proof fn lemma_encoded_chars(bytes: Seq<u8>)
    ensures
        forall|i: int|
            0 <= i < form_encoded(bytes).len() ==> is_encoded_char(#[trigger] form_encoded(bytes)[i]),
    decreases bytes.len(),
{
    if bytes.len() > 0 {
        let head = encoded_byte(bytes[0]);
        let rest = form_encoded(bytes.drop_first());
        lemma_encoded_chars(bytes.drop_first());
        assert forall|i: int| 0 <= i < head.len() implies is_encoded_char(#[trigger] head[i]) by {
            let b = bytes[0];
            if is_unreserved(b) {
                assert(head[0] == b as char);
            } else if b != 0x20 {
                assert(0 <= b as int / 16 < 16);
                assert(0 <= b as int % 16 < 16);
            }
        }
        assert forall|i: int| 0 <= i < form_encoded(bytes).len() implies is_encoded_char(
            #[trigger] form_encoded(bytes)[i],
        ) by {
            if i < head.len() {
                assert(form_encoded(bytes)[i] == head[i]);
            } else {
                assert(form_encoded(bytes)[i] == rest[i - head.len()]);
            }
        }
    }
}

/// The value of an upper-case hexadecimal digit.
pub open spec fn hex_value(c: char) -> int {
    if '0' <= c && c <= '9' {
        c as int - 48
    } else {
        c as int - 55
    }
}

/// The byte string that a form-encoded text stands for: `+` is a space,
/// `%` and two hexadecimal digits are the byte with that value, and any
/// other character is its own byte.
pub open spec fn form_decoded(text: Seq<char>) -> Seq<u8>
    decreases text.len(),
{
    if text.len() == 0 {
        Seq::empty()
    } else if text[0] == '+' {
        seq![0x20u8] + form_decoded(text.skip(1))
    } else if text[0] == '%' && text.len() >= 3 {
        seq![(hex_value(text[1]) * 16 + hex_value(text[2])) as u8] + form_decoded(text.skip(3))
    } else {
        seq![text[0] as u8] + form_decoded(text.skip(1))
    }
}

/// Nothing is lost in the encoding: an encoded byte string stands for the
/// bytes that it was made of.
pub proof fn lemma_encoding_round_trips(bytes: Seq<u8>)
    ensures
        form_decoded(form_encoded(bytes)) == bytes,
    decreases bytes.len(),
{
    if bytes.len() > 0 {
        let b = bytes[0];
        let rest = bytes.drop_first();
        let text = form_encoded(bytes);
        lemma_encoding_round_trips(rest);
        if is_unreserved(b) {
            assert(text[0] == b as char);
            assert(text.skip(1) =~= form_encoded(rest));
            assert((b as char) as u8 == b);
        } else if b == 0x20 {
            assert(text[0] == '+');
            assert(text.skip(1) =~= form_encoded(rest));
        } else {
            assert(text[0] == '%');
            assert(text[1] == hex_digit(b as int / 16));
            assert(text[2] == hex_digit(b as int % 16));
            assert(text.skip(3) =~= form_encoded(rest));
            assert(hex_value(hex_digit(b as int / 16)) == b as int / 16);
            assert(hex_value(hex_digit(b as int % 16)) == b as int % 16);
        }
        assert(form_decoded(text) =~= seq![b] + rest);
        assert(seq![b] + rest =~= bytes);
    }
}

/// The form encoding of a text: that of its UTF-8 bytes.
pub open spec fn encoded_text(text: Seq<char>) -> Seq<char> {
    form_encoded(encode_utf8(text))
}

/// One query parameter on the wire: the encoded name, `=`, the encoded
/// value.
pub open spec fn encoded_pair(pair: (Seq<char>, Seq<char>)) -> Seq<char> {
    encoded_text(pair.0) + seq!['='] + encoded_text(pair.1)
}

/// The parameters on the wire, with `&` between one and the next.
pub open spec fn encoded_pairs(pairs: Seq<(Seq<char>, Seq<char>)>) -> Seq<char>
    decreases pairs.len(),
{
    if pairs.len() == 0 {
        Seq::empty()
    } else if pairs.len() == 1 {
        encoded_pair(pairs[0])
    } else {
        encoded_pairs(pairs.drop_last()) + seq!['&'] + encoded_pair(pairs.last())
    }
}

/// `base` with the parameters as its query string; `base` itself where
/// there are none.
pub open spec fn url_with_query(base: Seq<char>, pairs: Seq<(Seq<char>, Seq<char>)>) -> Seq<
    char,
> {
    if pairs.len() == 0 {
        base
    } else {
        base + seq!['?'] + encoded_pairs(pairs)
    }
}

/// Calls `url::form_urlencoded::byte_serialize` on the UTF-8 bytes of
/// `text` and collects the pieces.
///
/// The contract states the serializer's rule for each byte: unreserved
/// bytes stay, a space becomes `+`, every other byte becomes `%` and two
/// upper-case hexadecimal digits.
#[verifier::external_body]
fn form_encode(text: &str) -> (r: String)
    ensures
        r@ == encoded_text(text@),
{
    url::form_urlencoded::byte_serialize(text.as_bytes()).collect()
}

/// Writes `base`, then `?` and the parameters in the given order, each
/// form-encoded; writes `base` alone where there are no parameters.
///
/// For a `base` without a query string or a fragment of its own, that is
/// the URL that carries the parameters as its query string.
pub fn with_query(base: &str, pairs: &Vec<Pair>) -> (r: String)
    ensures
        r@ == url_with_query(base@, pair_views(pairs@)),
{
    let mut out = String::from_str(base);
    let ghost views = pair_views(pairs@);
    let mut i: usize = 0;
    while i < pairs.len()
        invariant
            i <= pairs.len(),
            views == pair_views(pairs@),
            out@ == url_with_query(base@, views.take(i as int)),
        decreases pairs.len() - i,
    {
        proof {
            reveal_strlit("?");
            reveal_strlit("&");
            reveal_strlit("=");
        }
        if i == 0 {
            out.append("?");
        } else {
            out.append("&");
        }
        let name = form_encode(pairs[i].name.as_str());
        let value = form_encode(pairs[i].value.as_str());
        out.append(name.as_str());
        out.append("=");
        out.append(value.as_str());
        proof {
            let before = views.take(i as int);
            let after = views.take(i + 1);
            assert(after.drop_last() =~= before);
            assert(after.last() == pairs@[i as int]@);
            if i == 0 {
                assert(out@ =~= base@ + seq!['?'] + encoded_pair(after[0]));
            } else {
                assert(out@ =~= base@ + seq!['?'] + (encoded_pairs(before) + seq!['&']
                    + encoded_pair(after.last())));
            }
        }
        i = i + 1;
    }
    proof {
        assert(views.take(pairs.len() as int) =~= views);
    }
    out
}

} // verus!
