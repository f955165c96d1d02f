//! Decoding of the fixed-width text fields of the match-start record.
use vstd::prelude::*;

use encoding_rs::SHIFT_JIS;

verus! {

/// Full-width number sign, which the game writes in connect codes.
pub const FULLWIDTH_HASH: char = '\u{FF03}';

/// The text that Shift_JIS bytes `b` decode to.
pub uninterp spec fn shift_jis_text(b: Seq<u8>) -> Seq<char>;

/// The text that UTF-8 bytes `b` decode to, malformed sequences replaced.
pub uninterp spec fn utf8_text(b: Seq<u8>) -> Seq<char>;

/// Relies on `encoding_rs::SHIFT_JIS.decode`: the whole input decoded, with
/// malformed sequences replaced; no input decodes to no text.
#[verifier::external_body]
pub(crate) fn decode_shift_jis(b: &[u8]) -> (r: Vec<char>)
    ensures
        r@ == shift_jis_text(b@),
        b@.len() == 0 ==> r@.len() == 0,
{
    SHIFT_JIS.decode(b).0.chars().collect()
}

/// Relies on `String::from_utf8_lossy`: the bytes decoded as UTF-8, malformed
/// sequences replaced; no input decodes to no text.
#[verifier::external_body]
pub(crate) fn decode_utf8(b: &[u8]) -> (r: String)
    ensures
        r@ == utf8_text(b@),
        b@.len() == 0 ==> r@.len() == 0,
{
    String::from_utf8_lossy(b).into_owned()
}

/// Relies on `String`'s `FromIterator<char>`: the characters in order.
#[verifier::external_body]
pub(crate) fn string_from_chars(c: &Vec<char>) -> (r: String)
    ensures
        r@ == c@,
{
    c.iter().collect()
}

/// `c` with each full-width number sign replaced by `#`.
pub open spec fn ascii_hash(c: Seq<char>) -> Seq<char> {
    c.map_values(|x: char| if x == FULLWIDTH_HASH { '#' } else { x })
}

/// Replaces each full-width number sign of `c` by `#`, so that connect codes
/// can be typed.
pub fn replace_fullwidth_hash(c: &Vec<char>) -> (r: Vec<char>)
    ensures
        r@ == ascii_hash(c@),
{
    let mut out: Vec<char> = Vec::new();
    let mut i: usize = 0;
    while i < c.len()
        invariant
            i <= c@.len(),
            out@ == ascii_hash(c@.subrange(0, i as int)),
        decreases c@.len() - i,
    {
        let x = c[i];
        if x == FULLWIDTH_HASH {
            out.push('#');
        } else {
            out.push(x);
        }
        proof {
            assert(ascii_hash(c@.subrange(0, i + 1)) =~= ascii_hash(c@.subrange(0, i as int)).push(
                if x == FULLWIDTH_HASH {
                    '#'
                } else {
                    x
                },
            ));
        }
        i = i + 1;
    }
    proof {
        assert(c@.subrange(0, i as int) =~= c@);
    }
    out
}

} // verus!
