//! Small verified text utilities: decimal rendering of identifiers,
//! whitespace trimming and prefix tests, shared by the message builders.

use vstd::prelude::*;

verus! {

/// The decimal digit character for a value below ten.
pub open spec fn dec_digit(d: nat) -> char
    recommends
        d < 10,
{
    if d == 0 {
        '0'
    } else if d == 1 {
        '1'
    } else if d == 2 {
        '2'
    } else if d == 3 {
        '3'
    } else if d == 4 {
        '4'
    } else if d == 5 {
        '5'
    } else if d == 6 {
        '6'
    } else if d == 7 {
        '7'
    } else if d == 8 {
        '8'
    } else {
        '9'
    }
}

/// The usual decimal representation of a natural number, most significant
/// digit first, without leading zeros (zero itself is "0").
pub open spec fn dec_rep(n: nat) -> Seq<char>
    decreases n,
{
    if n < 10 {
        seq![dec_digit(n)]
    } else {
        dec_rep(n / 10) + seq![dec_digit(n % 10)]
    }
}

/// A one-character string for a digit value.
fn digit_str(d: u64) -> (s: &'static str)
    requires
        d < 10,
    ensures
        s@ == seq![dec_digit(d as nat)],
{
    proof {
        reveal_strlit("0");
        reveal_strlit("1");
        reveal_strlit("2");
        reveal_strlit("3");
        reveal_strlit("4");
        reveal_strlit("5");
        reveal_strlit("6");
        reveal_strlit("7");
        reveal_strlit("8");
        reveal_strlit("9");
    }
    if d == 0 {
        "0"
    } else if d == 1 {
        "1"
    } else if d == 2 {
        "2"
    } else if d == 3 {
        "3"
    } else if d == 4 {
        "4"
    } else if d == 5 {
        "5"
    } else if d == 6 {
        "6"
    } else if d == 7 {
        "7"
    } else if d == 8 {
        "8"
    } else {
        "9"
    }
}

/// Render a number in decimal, as identifiers appear in status text and
/// conversation ids.
pub fn u64_to_string(n: u64) -> (s: String)
    ensures
        s@ == dec_rep(n as nat),
    decreases n,
{
    if n < 10 {
        String::from_str(digit_str(n))
    } else {
        let mut s = u64_to_string(n / 10);
        s.append(digit_str(n % 10));
        s
    }
}

/// Whitespace as the trimming below understands it.
pub open spec fn is_space(c: char) -> bool {
    c == ' ' || c == '\t' || c == '\n' || c == '\r'
}

/// How many leading whitespace characters `s` has.
pub open spec fn leading_spaces(s: Seq<char>) -> int
    decreases s.len(),
{
    if s.len() == 0 || !is_space(s[0]) {
        0
    } else {
        1 + leading_spaces(s.drop_first())
    }
}

/// How many trailing whitespace characters `s` has.
pub open spec fn trailing_spaces(s: Seq<char>) -> int
    decreases s.len(),
{
    if s.len() == 0 || !is_space(s.last()) {
        0
    } else {
        1 + trailing_spaces(s.drop_last())
    }
}

/// `s` without leading whitespace.
pub open spec fn trim_start_spec(s: Seq<char>) -> Seq<char> {
    s.subrange(leading_spaces(s), s.len() as int)
}

/// `s` without leading or trailing whitespace.
pub open spec fn trim_spec(s: Seq<char>) -> Seq<char> {
    trim_start_spec(s).subrange(
        0,
        trim_start_spec(s).len() - trailing_spaces(trim_start_spec(s)),
    )
}

pub proof fn lemma_leading_spaces_bounds(s: Seq<char>)
    ensures
        0 <= leading_spaces(s) <= s.len(),
        forall|i: int| 0 <= i < leading_spaces(s) ==> is_space(s[i]),
        leading_spaces(s) < s.len() ==> !is_space(s[leading_spaces(s)]),
    decreases s.len(),
{
    if s.len() != 0 && is_space(s[0]) {
        lemma_leading_spaces_bounds(s.drop_first());
        assert forall|i: int| 0 <= i < leading_spaces(s) implies is_space(s[i]) by {
            if i > 0 {
                assert(s.drop_first()[i - 1] == s[i]);
            }
        }
    }
}

pub proof fn lemma_trailing_spaces_bounds(s: Seq<char>)
    ensures
        0 <= trailing_spaces(s) <= s.len(),
        forall|i: int| s.len() - trailing_spaces(s) <= i < s.len() ==> is_space(s[i]),
        trailing_spaces(s) < s.len() ==> !is_space(s[s.len() - trailing_spaces(s) - 1]),
    decreases s.len(),
{
    if s.len() != 0 && is_space(s.last()) {
        lemma_trailing_spaces_bounds(s.drop_last());
        assert forall|i: int| s.len() - trailing_spaces(s) <= i < s.len() implies is_space(
            s[i],
        ) by {
            if i < s.len() - 1 {
                assert(s.drop_last()[i] == s[i]);
            }
        }
    }
}

/// Count the leading whitespace of `s`.
fn find_leading_spaces(s: &str) -> (n: usize)
    ensures
        n == leading_spaces(s@),
{
    let len = s.unicode_len();
    proof {
        assert(s@.subrange(0, len as int) =~= s@);
    }
    let mut i: usize = 0;
    while i < len
        invariant
            0 <= i <= len,
            len == s@.len(),
            forall|j: int| 0 <= j < i ==> is_space(s@[j]),
            leading_spaces(s@.subrange(i as int, len as int)) + i == leading_spaces(s@),
        decreases len - i,
    {
        let c = s.get_char(i);
        proof {
            assert(s@.subrange(i as int, len as int)[0] == s@[i as int]);
        }
        if !(c == ' ' || c == '\t' || c == '\n' || c == '\r') {
            proof {
                assert(leading_spaces(s@.subrange(i as int, len as int)) == 0);
            }
            return i;
        }
        proof {
            let tail = s@.subrange(i as int, len as int);
            assert(tail.drop_first() =~= s@.subrange(i as int + 1, len as int));
        }
        i = i + 1;
    }
    proof {
        assert(s@.subrange(len as int, len as int).len() == 0);
    }
    i
}

/// Count the trailing whitespace of `s`.
fn find_trailing_spaces(s: &str) -> (n: usize)
    ensures
        n == trailing_spaces(s@),
{
    let len = s.unicode_len();
    proof {
        assert(s@.subrange(0, len as int) =~= s@);
    }
    let mut i: usize = 0;
    while i < len
        invariant
            0 <= i <= len,
            len == s@.len(),
            trailing_spaces(s@.subrange(0, (len - i) as int)) + i == trailing_spaces(s@),
        decreases len - i,
    {
        let c = s.get_char(len - i - 1);
        proof {
            let head = s@.subrange(0, (len - i) as int);
            assert(head.last() == s@[len - i - 1]);
        }
        if !(c == ' ' || c == '\t' || c == '\n' || c == '\r') {
            return i;
        }
        proof {
            let head = s@.subrange(0, (len - i) as int);
            assert(head.drop_last() =~= s@.subrange(0, (len - i - 1) as int));
        }
        i = i + 1;
    }
    i
}

/// Remove leading whitespace, as re-chunked message text is cleaned up.
pub fn trim_start(s: &str) -> (r: &str)
    ensures
        r@ == trim_start_spec(s@),
{
    let n = find_leading_spaces(s);
    proof {
        lemma_leading_spaces_bounds(s@);
    }
    s.substring_char(n, s.unicode_len())
}

/// Remove leading and trailing whitespace, as a model's free-text reply is
/// cleaned before sending.
pub fn trim(s: &str) -> (r: &str)
    ensures
        r@ == trim_spec(s@),
{
    let start = find_leading_spaces(s);
    proof {
        lemma_leading_spaces_bounds(s@);
    }
    let rest = s.substring_char(start, s.unicode_len());
    let drop = find_trailing_spaces(rest);
    proof {
        lemma_trailing_spaces_bounds(rest@);
    }
    rest.substring_char(0, rest.unicode_len() - drop)
}

/// Whether `s` begins with the characters of `prefix`.
pub open spec fn starts_with_spec(s: Seq<char>, prefix: Seq<char>) -> bool {
    s.len() >= prefix.len() && s.subrange(0, prefix.len() as int) == prefix
}

/// Prefix test, used for "env:" references and MIME type classes.
pub fn str_starts_with(s: &str, prefix: &str) -> (r: bool)
    ensures
        r == starts_with_spec(s@, prefix@),
{
    let n = prefix.unicode_len();
    if s.unicode_len() < n {
        assert(!starts_with_spec(s@, prefix@));
        return false;
    }
    let mut i: usize = 0;
    while i < n
        invariant
            0 <= i <= n,
            n == prefix@.len(),
            s@.len() >= n,
            forall|j: int| 0 <= j < i ==> s@[j] == prefix@[j],
        decreases n - i,
    {
        if s.get_char(i) != prefix.get_char(i) {
            assert(s@.subrange(0, n as int)[i as int] != prefix@[i as int]);
            return false;
        }
        i = i + 1;
    }
    assert(s@.subrange(0, n as int) =~= prefix@);
    true
}

} // verus!
