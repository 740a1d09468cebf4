//! Comparison of byte strings and of text.

use vstd::prelude::*;
use vstd::string::StringSliceAdditionalSpecFns;
use vstd::utf8::{decode_utf8, encode_utf8, encode_utf8_decode_utf8};

verus! {

/// Two texts with the same UTF-8 encoding are the same text.
pub proof fn lemma_encoding_is_injective(a: Seq<char>, b: Seq<char>)
    requires
        encode_utf8(a) == encode_utf8(b),
    ensures
        a == b,
{
    encode_utf8_decode_utf8(a);
    encode_utf8_decode_utf8(b);
    assert(decode_utf8(encode_utf8(a)) == decode_utf8(encode_utf8(b)));
}

/// Whether two byte strings are equal.
///
/// When the lengths agree, every byte of both inputs is read whatever the
/// outcome, so that the time taken does not tell how long a common prefix the
/// two share.
pub fn bytes_equal(a: &[u8], b: &[u8]) -> (r: bool)
    ensures
        r == (a@ == b@),
{
    if a.len() != b.len() {
        return false;
    }
    let mut diff: u8 = 0;
    let mut i: usize = 0;
    while i < a.len()
        invariant
            i <= a.len(),
            a.len() == b.len(),
            diff == 0 <==> (forall|j: int| 0 <= j < i ==> a@[j] == b@[j]),
        decreases a.len() - i,
    {
        let x: u8 = a[i];
        let y: u8 = b[i];
        assert((diff | (x ^ y)) == 0 <==> (diff == 0 && x == y)) by (bit_vector);
        diff = diff | (x ^ y);
        i = i + 1;
    }
    assert(diff == 0 ==> a@ =~= b@);
    diff == 0
}

/// Whether two texts are equal, decided on their UTF-8 encodings.
pub fn str_equal(a: &str, b: &str) -> (r: bool)
    ensures
        r == (a@ == b@),
{
    let r = bytes_equal(a.as_bytes(), b.as_bytes());
    proof {
        if r {
            lemma_encoding_is_injective(a@, b@);
        }
    }
    r
}

} // verus!
