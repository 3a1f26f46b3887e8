//! The order of release dates.
//!
//! The catalog writes a release date as text, most significant part first
//! (`2020`, `2020-05`, `2020-05-17`), so dates are ordered as texts are: by
//! their UTF-8 encodings, byte by byte, a proper prefix before what extends
//! it. Any two dates compare.

use vstd::prelude::*;
use vstd::utf8::{encode_utf8, is_ascii_chars, is_ascii_chars_encode_utf8};

verus! {

/// Whether `a`, read from position `from` on, comes no later than `b` in the
/// order of byte strings, given that the two agree before `from`.
pub open spec fn bytes_le_from(a: Seq<u8>, b: Seq<u8>, from: int) -> bool
    decreases a.len() - from,
{
    if from >= a.len() {
        true
    } else if from >= b.len() {
        false
    } else if a[from] != b[from] {
        a[from] < b[from]
    } else {
        bytes_le_from(a, b, from + 1)
    }
}

/// Whether release date `a` is no later than release date `b`.
pub open spec fn date_le(a: Seq<char>, b: Seq<char>) -> bool {
    bytes_le_from(encode_utf8(a), encode_utf8(b), 0)
}

proof fn lemma_bytes_le_total(a: Seq<u8>, b: Seq<u8>, from: int)
    requires
        0 <= from,
    ensures
        bytes_le_from(a, b, from) || bytes_le_from(b, a, from),
    decreases a.len() - from,
{
    if from < a.len() && from < b.len() && a[from] == b[from] {
        lemma_bytes_le_total(a, b, from + 1);
    }
}

proof fn lemma_bytes_le_transitive(a: Seq<u8>, b: Seq<u8>, c: Seq<u8>, from: int)
    requires
        0 <= from,
        bytes_le_from(a, b, from),
        bytes_le_from(b, c, from),
    ensures
        bytes_le_from(a, c, from),
    decreases a.len() - from,
{
    if from < a.len() && from < b.len() && from < c.len() && a[from] == b[from] && b[from]
        == c[from] {
        lemma_bytes_le_transitive(a, b, c, from + 1);
    }
}

proof fn lemma_bytes_le_reflexive(a: Seq<u8>, from: int)
    requires
        0 <= from,
    ensures
        bytes_le_from(a, a, from),
    decreases a.len() - from,
{
    if from < a.len() {
        lemma_bytes_le_reflexive(a, from + 1);
    }
}

/// Every release date is no later than itself.
pub proof fn lemma_date_le_reflexive(a: Seq<char>)
    ensures
        date_le(a, a),
{
    lemma_bytes_le_reflexive(encode_utf8(a), 0);
}

/// Of two release dates, one is no later than the other.
pub proof fn lemma_date_le_total(a: Seq<char>, b: Seq<char>)
    ensures
        date_le(a, b) || date_le(b, a),
{
    lemma_bytes_le_total(encode_utf8(a), encode_utf8(b), 0);
}

/// The order of release dates is transitive.
pub proof fn lemma_date_le_transitive(a: Seq<char>, b: Seq<char>, c: Seq<char>)
    requires
        date_le(a, b),
        date_le(b, c),
    ensures
        date_le(a, c),
{
    lemma_bytes_le_transitive(encode_utf8(a), encode_utf8(b), encode_utf8(c), 0);
}

/// Whether `a`, read from position `from` on, comes no later than `b` in the
/// order of texts that goes character by character, given that the two agree
/// before `from`.
pub open spec fn chars_le_from(a: Seq<char>, b: Seq<char>, from: int) -> bool
    decreases a.len() - from,
{
    if from >= a.len() {
        true
    } else if from >= b.len() {
        false
    } else if a[from] != b[from] {
        a[from] < b[from]
    } else {
        chars_le_from(a, b, from + 1)
    }
}

proof fn lemma_ascii_bytes_as_chars(a: Seq<char>, b: Seq<char>, from: int)
    requires
        0 <= from,
        is_ascii_chars(a),
        is_ascii_chars(b),
    ensures
        bytes_le_from(encode_utf8(a), encode_utf8(b), from) == chars_le_from(a, b, from),
    decreases a.len() - from,
{
    is_ascii_chars_encode_utf8(a);
    is_ascii_chars_encode_utf8(b);
    if from < a.len() && from < b.len() {
        let x = a[from];
        let y = b[from];
        assert(x as u8 == encode_utf8(a)[from]);
        assert(y as u8 == encode_utf8(b)[from]);
        assert((x as u8) as int == x as int && (y as u8) as int == y as int);
        assert((x == y) == (x as int == y as int));
        if x == y {
            lemma_ascii_bytes_as_chars(a, b, from + 1);
        }
    }
}

/// Dates written in ASCII, as the catalog writes them, are ordered character
/// by character: the earlier date has the smaller character where the two
/// first differ, and a date comes before every date that extends it.
pub proof fn lemma_date_le_of_ascii(a: Seq<char>, b: Seq<char>)
    requires
        is_ascii_chars(a),
        is_ascii_chars(b),
    ensures
        date_le(a, b) == chars_le_from(a, b, 0),
{
    lemma_ascii_bytes_as_chars(a, b, 0);
}

/// Decides whether release date `a` is no later than release date `b`.
pub fn release_date_le(a: &str, b: &str) -> (le: bool)
    ensures
        le == date_le(a@, b@),
{
    let x = a.as_bytes();
    let y = b.as_bytes();
    let mut i: usize = 0;
    while i < x.len() && i < y.len()
        invariant
            i <= x.len(),
            i <= y.len(),
            x@ == encode_utf8(a@),
            y@ == encode_utf8(b@),
            bytes_le_from(x@, y@, 0) == bytes_le_from(x@, y@, i as int),
        decreases x.len() - i,
    {
        if x[i] != y[i] {
            return x[i] < y[i];
        }
        i += 1;
    }
    i >= x.len()
}

} // verus!
