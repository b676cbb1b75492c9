//! Small text routines shared by the request builders.

use vstd::prelude::*;

verus! {

/// The character that stands for the decimal digit `d`.
pub open spec fn digit(d: int) -> char
    recommends
        0 <= d < 10,
{
    (d + 48) as char
}

/// The decimal digits of `n`, most significant first, without leading zeros.
pub open spec fn digits(n: nat) -> Seq<char>
    decreases n,
{
    if n < 10 {
        seq![digit(n as int)]
    } else {
        digits(n / 10) + seq![digit((n % 10) as int)]
    }
}

/// The decimal text of `n`: a minus sign for a negative number, then the
/// digits of its magnitude.
pub open spec fn decimal_text(n: int) -> Seq<char> {
    if n < 0 {
        seq!['-'] + digits((-n) as nat)
    } else {
        digits(n as nat)
    }
}

/// The text of a boolean flag.
pub open spec fn flag_text(flag: bool) -> Seq<char> {
    if flag {
        seq!['t', 'r', 'u', 'e']
    } else {
        seq!['f', 'a', 'l', 's', 'e']
    }
}

/// How many `/` characters `text` begins with.
pub open spec fn leading_slashes(text: Seq<char>) -> nat
    decreases text.len(),
{
    if text.len() > 0 && text[0] == '/' {
        1 + leading_slashes(text.drop_first())
    } else {
        0
    }
}

/// `text` without the `/` characters that it begins with.
pub open spec fn without_leading_slashes(text: Seq<char>) -> Seq<char> {
    text.skip(leading_slashes(text) as int)
}

fn digit_str(d: u32) -> (r: &'static str)
    requires
        d < 10,
    ensures
        r@ == seq![digit(d as int)],
{
    proof {
        reveal_strlit("0");
        reveal_strlit("1");
        reveal_strlit("2");
        reveal_strlit("3");
        reveal_strlit("4");
        reveal_strlit("5");
        reveal_strlit("6");
        reveal_strlit("7");
        reveal_strlit("8");
        reveal_strlit("9");
    }
    let r = if d == 0 {
        "0"
    } else if d == 1 {
        "1"
    } else if d == 2 {
        "2"
    } else if d == 3 {
        "3"
    } else if d == 4 {
        "4"
    } else if d == 5 {
        "5"
    } else if d == 6 {
        "6"
    } else if d == 7 {
        "7"
    } else if d == 8 {
        "8"
    } else {
        "9"
    };
    assert(r@ =~= seq![digit(d as int)]);
    r
}

fn push_digits(n: u32, out: &mut String)
    ensures
        final(out)@ == old(out)@ + digits(n as nat),
    decreases n,
{
    if n >= 10 {
        push_digits(n / 10, out);
    }
    out.append(digit_str(n % 10));
    assert(out@ =~= old(out)@ + digits(n as nat));
}

/// Writes `n` in decimal.
pub fn decimal(n: i32) -> (r: String)
    ensures
        r@ == decimal_text(n as int),
{
    let mut out = String::new();
    if n < 0 {
        proof {
            reveal_strlit("-");
        }
        out.append("-");
        let magnitude: u32 = if n == i32::MIN {
            2147483648u32
        } else {
            (-n) as u32
        };
        push_digits(magnitude, &mut out);
        assert(out@ =~= decimal_text(n as int));
    } else {
        push_digits(n as u32, &mut out);
        assert(out@ =~= decimal_text(n as int));
    }
    out
}

/// Writes a flag as `true` or `false`.
pub fn flag(value: bool) -> (r: &'static str)
    ensures
        r@ == flag_text(value),
{
    proof {
        reveal_strlit("true");
        reveal_strlit("false");
    }
    let r = if value {
        "true"
    } else {
        "false"
    };
    assert(r@ =~= flag_text(value));
    r
}

proof fn lemma_leading_slashes_bound(text: Seq<char>)
    ensures
        leading_slashes(text) <= text.len(),
        forall|i: int| 0 <= i < leading_slashes(text) ==> text[i] == '/',
        leading_slashes(text) < text.len() ==> text[leading_slashes(text) as int] != '/',
    decreases text.len(),
{
    if text.len() > 0 && text[0] == '/' {
        let rest = text.drop_first();
        lemma_leading_slashes_bound(rest);
        assert forall|i: int| 0 <= i < leading_slashes(text) implies text[i] == '/' by {
            if i > 0 {
                assert(text[i] == rest[i - 1]);
            }
        }
        if leading_slashes(text) < text.len() {
            assert(text[leading_slashes(text) as int] == rest[leading_slashes(rest) as int]);
        }
    }
}

proof fn lemma_leading_slashes_is(text: Seq<char>, count: int)
    requires
        0 <= count <= text.len(),
        forall|i: int| 0 <= i < count ==> text[i] == '/',
        count < text.len() ==> text[count] != '/',
    ensures
        leading_slashes(text) == count,
    decreases text.len(),
{
    if text.len() > 0 && text[0] == '/' {
        let rest = text.drop_first();
        assert(count > 0);
        assert forall|i: int| 0 <= i < count - 1 implies rest[i] == '/' by {
            assert(rest[i] == text[i + 1]);
        }
        if count - 1 < rest.len() {
            assert(rest[count - 1] == text[count]);
        }
        lemma_leading_slashes_is(rest, count - 1);
    }
}

/// A path without the slashes that it begins with never begins with a
/// slash: resolved against a directory, it names a place below it.
pub proof fn lemma_stripped_path_is_relative(path: Seq<char>)
    ensures
        without_leading_slashes(path).len() > 0 ==> without_leading_slashes(path)[0] != '/',
        without_leading_slashes(without_leading_slashes(path)) == without_leading_slashes(path),
{
    lemma_leading_slashes_bound(path);
    let rest = without_leading_slashes(path);
    lemma_leading_slashes_is(rest, 0);
    assert(rest.skip(0) =~= rest);
}

fn count_leading_slashes(path: &str) -> (count: usize)
    ensures
        count == leading_slashes(path@),
        count <= path@.len(),
{
    let length = path.unicode_len();
    let mut count: usize = 0;
    for c in iter: path.chars()
        invariant
            length == path@.len(),
            count == iter.index(),
            iter.seq() == path@,
            forall|i: int| 0 <= i < count ==> path@[i] == '/',
    {
        assert(c == path@[count as int]);
        if c != '/' {
            proof {
                lemma_leading_slashes_is(path@, count as int);
            }
            return count;
        }
        count = count + 1;
    }
    proof {
        lemma_leading_slashes_is(path@, count as int);
    }
    count
}

/// Drops every `/` that `path` begins with, so that what is left names a
/// place below a directory and never the root of a host.
pub fn strip_leading_slashes(path: &str) -> (r: &str)
    ensures
        r@ == without_leading_slashes(path@),
        r@.len() > 0 ==> r@[0] != '/',
{
    let count = count_leading_slashes(path);
    let length = path.unicode_len();
    proof {
        lemma_leading_slashes_bound(path@);
    }
    let r = path.substring_char(count, length);
    assert(r@ =~= without_leading_slashes(path@));
    r
}

} // verus!
