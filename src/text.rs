use vstd::prelude::*;
use vstd::string::StrSliceExecFns;
use vstd::utf8::{decode_utf8, valid_utf8};

verus! {

/// What `str::trim` leaves of the given characters.
pub uninterp spec fn trimmed_of(s: Seq<char>) -> Seq<char>;

/// What `str::to_lowercase` makes of the given characters.
pub uninterp spec fn lowercase_of(s: Seq<char>) -> Seq<char>;

/// The text that the given bytes spell, when they are valid UTF-8.
pub open spec fn text_of(b: Seq<u8>) -> Option<Seq<char>> {
    if valid_utf8(b) {
        Some(decode_utf8(b))
    } else {
        None
    }
}

/// The toggle value that a word names: `Some(true)` for exactly `on`,
/// `Some(false)` for exactly `off`, and `None` for anything else.
pub open spec fn word_of(s: Seq<char>) -> Option<bool> {
    if s == seq!['o', 'n'] {
        Some(true)
    } else if s == seq!['o', 'f', 'f'] {
        Some(false)
    } else {
        None
    }
}

/// Relies on `String::from_utf8`: it succeeds exactly on valid UTF-8, and
/// the string then holds the characters that the bytes encode.
#[verifier::external_body]
pub(crate) fn decode_text(b: &Vec<u8>) -> (r: Option<String>)
    ensures
        r.is_some() == valid_utf8(b@),
        r matches Some(s) ==> s@ == decode_utf8(b@),
{
    String::from_utf8(b.clone()).ok()
}

/// Relies on `str::trim`: the text without leading and trailing whitespace.
#[verifier::external_body]
pub(crate) fn trim_text(s: &str) -> (r: &str)
    ensures
        r@ == trimmed_of(s@),
{
    s.trim()
}

/// Relies on `str::to_lowercase`: the lowercase form of the text.
#[verifier::external_body]
pub(crate) fn lowercase_text(s: &str) -> (r: String)
    ensures
        r@ == lowercase_of(s@),
{
    s.to_lowercase()
}

/// Reads a word as a toggle value: `on` gives `Some(true)`, `off` gives
/// `Some(false)`; the comparison is exact and case-sensitive.
pub fn parse_word(s: &str) -> (r: Option<bool>)
    ensures
        r == word_of(s@),
{
    let n = s.unicode_len();
    if n == 2 {
        if s.get_char(0) == 'o' && s.get_char(1) == 'n' {
            assert(s@ =~= seq!['o', 'n']);
            return Some(true);
        }
        proof {
            assert(s@ != seq!['o', 'n']) by {
                if s@ == seq!['o', 'n'] {
                    assert(s@[0] == 'o' && s@[1] == 'n');
                }
            }
        }
    } else if n == 3 {
        if s.get_char(0) == 'o' && s.get_char(1) == 'f' && s.get_char(2) == 'f' {
            assert(s@ =~= seq!['o', 'f', 'f']);
            return Some(false);
        }
        proof {
            assert(s@ != seq!['o', 'f', 'f']) by {
                if s@ == seq!['o', 'f', 'f'] {
                    assert(s@[0] == 'o' && s@[1] == 'f' && s@[2] == 'f');
                }
            }
        }
    }
    None
}

} // verus!
