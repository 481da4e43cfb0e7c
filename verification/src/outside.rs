//! The trusted boundary to outside crates. Each function here is an
//! `external_body` wrapper whose body only makes the outside call; Verus
//! believes the stated contract, so every statement below is held against
//! the outside crate's own source and documentation, and nothing more is
//! claimed than they show.

use vstd::prelude::*;

use base64::Engine;

verus! {

/// The standard, padded base64 encoding of a byte sequence. Named rather
/// than spelled out: the alphabet table is the encoder's own business, and
/// the encoding is a function of the bytes alone.
pub uninterp spec fn base64_of(bytes: Seq<u8>) -> Seq<char>;

/// The first (leftmost) match of a regular expression in a text, as the
/// matched substring; nothing when the pattern does not compile or does not
/// match. A function of pattern and text alone.
pub uninterp spec fn regex_find_of(pattern: Seq<char>, text: Seq<char>) -> Option<Seq<char>>;

/// Relies on uuid::Uuid::new_v4 and its hyphenated Display form: a freshly
/// drawn random identifier rendered as 36 characters. The value is random,
/// so nothing is assumed of it beyond its shape.
#[verifier::external_body]
pub(crate) fn uuid_v4_string() -> (r: String)
    ensures
        r@.len() == 36,
{
    uuid::Uuid::new_v4().to_string()
}

/// Relies on chrono::Utc::now and DateTime::timestamp_millis: the current
/// wall-clock time in milliseconds since the Unix epoch. The value depends
/// on the clock, so nothing is assumed of it.
#[verifier::external_body]
pub(crate) fn now_unix_millis() -> i64 {
    chrono::Utc::now().timestamp_millis()
}

/// Relies on base64's Engine::encode with the STANDARD (padded) engine:
/// the encoding of the bytes, four output characters for every started
/// group of three input bytes. The length bound keeps clear of the
/// encoder's buffer-size overflow panic.
#[verifier::external_body]
pub(crate) fn base64_standard(bytes: &Vec<u8>) -> (r: String)
    requires
        bytes@.len() <= 0x1000_0000_0000_0000,
    ensures
        r@ == base64_of(bytes@),
        r@.len() == 4 * ((bytes@.len() + 2) / 3),
{
    base64::engine::general_purpose::STANDARD.encode(bytes)
}

/// Relies on regex::Regex::new and Regex::find: the first match of the
/// pattern in the text, handed out as the matched substring of the text
/// (Match::as_str); None when the pattern does not compile or nothing
/// matches.
#[verifier::external_body]
pub(crate) fn regex_find_first(pattern: &str, text: &str) -> (r: Option<String>)
    ensures
        match r {
            Some(m) => regex_find_of(pattern@, text@) == Some(m@),
            None => regex_find_of(pattern@, text@) is None,
        },
        match r {
            Some(m) => exists|i: int|
                0 <= i && i + m@.len() <= text@.len() && m@ == #[trigger] text@.subrange(
                    i,
                    i + m@.len() as int,
                ),
            None => true,
        },
{
    match regex::Regex::new(pattern) {
        Ok(re) => re.find(text).map(|m| m.as_str().to_string()),
        Err(_) => None,
    }
}

} // verus!
