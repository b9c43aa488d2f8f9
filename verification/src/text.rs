//! Helpers on strings that the rest of the crate shares.

use vstd::prelude::*;
use vstd::utf8::*;

verus! {

/// The characters of each string of a sequence, in order.
pub open spec fn texts(items: Seq<String>) -> Seq<Seq<char>> {
    items.map_values(|s: String| s@)
}

/// The words of a sequence written one after another with `sep` between
/// neighbours.
pub open spec fn joined(words: Seq<Seq<char>>, sep: Seq<char>) -> Seq<char>
    decreases words.len(),
{
    if words.len() == 0 {
        Seq::empty()
    } else if words.len() == 1 {
        words[0]
    } else {
        joined(words.drop_last(), sep) + sep + words.last()
    }
}

/// The characters of an optional string slice.
pub open spec fn slice_text(text: Option<&str>) -> Option<Seq<char>> {
    match text {
        Some(t) => Some(t@),
        None => None,
    }
}

/// Whether a path starts at the root, so that no search path decides which
/// program runs.
pub open spec fn is_absolute(path: Seq<char>) -> bool {
    path.len() > 0 && path[0] == '/'
}

/// The text that `String::from_utf8_lossy` makes of a byte sequence.
pub uninterp spec fn lossy_utf8(bytes: Seq<u8>) -> Seq<char>;

/// The text that `str::trim` leaves of a string.
pub uninterp spec fn trim_of(text: Seq<char>) -> Seq<char>;

/// Whether two string slices hold the same characters.
pub fn same_text(a: &str, b: &str) -> (r: bool)
    ensures
        r == (a@ == b@),
{
    let x = a.as_bytes();
    let y = b.as_bytes();
    proof {
        encode_utf8_decode_utf8(a@);
        encode_utf8_decode_utf8(b@);
    }
    if x.len() != y.len() {
        return false;
    }
    let mut i: usize = 0;
    while i < x.len()
        invariant
            i <= x.len(),
            x.len() == y.len(),
            x@ == encode_utf8(a@),
            y@ == encode_utf8(b@),
            forall|k: int| 0 <= k < i ==> x@[k] == y@[k],
        decreases x.len() - i,
    {
        if x[i] != y[i] {
            return false;
        }
        i += 1;
    }
    assert(x@ =~= y@);
    true
}

/// Decodes captured process output with `String::from_utf8_lossy`.
///
/// Trusted: the result is the one that std gives for these bytes, and, as
/// std documents, bytes that already are valid UTF-8 come back unchanged,
/// so that the text encodes to the very bytes that went in. Nothing is
/// claimed about how invalid sequences are replaced.
#[verifier::external_body]
pub(crate) fn lossy_text(bytes: &Vec<u8>) -> (r: String)
    ensures
        r@ == lossy_utf8(bytes@),
        valid_utf8(bytes@) ==> encode_utf8(r@) == bytes@,
{
    String::from_utf8_lossy(bytes).into_owned()
}

/// Strips surrounding whitespace with `str::trim`.
///
/// Trusted: the result is the one that std gives for this text. Which
/// characters count as whitespace is left to std.
#[verifier::external_body]
pub(crate) fn trimmed<'a>(text: &'a str) -> (r: &'a str)
    ensures
        r@ == trim_of(text@),
{
    text.trim()
}

} // verus!
