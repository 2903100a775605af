//! SHA-256 digests and their lower-case hexadecimal spelling, as used for
//! cache keys and for the checksum inside a packaged plugin.

use vstd::prelude::*;
use sha2::{Digest, Sha256};
use crate::text::push_char;

verus! {

/// The SHA-256 digest of `data`.
pub uninterp spec fn sha256_spec(data: Seq<u8>) -> Seq<u8>;

/// The SHA-256 digest of `data`.
///
/// Calls `sha2::Sha256::digest` (from the `Digest` trait) and copies the
/// fixed-size output into a vector. The contract claims that the result is
/// the digest of the input bytes, named `sha256_spec`, and that it is 32
/// bytes long, as the `U32` output size of `Sha256` in the sha2 source fixes.
#[verifier::external_body]
pub(crate) fn sha256(data: &[u8]) -> (res: Vec<u8>)
    ensures
        res@ == sha256_spec(data@),
        res@.len() == 32,
{
    Sha256::digest(data).to_vec()
}

/// The lower-case hexadecimal digit for a value below sixteen.
pub open spec fn hex_digit_spec(value: u8) -> char {
    if value < 10 {
        (48 + value) as char
    } else {
        (97 + value - 10) as char
    }
}

/// Two lower-case hexadecimal digits per byte, high nibble first.
pub open spec fn to_hex_spec(bytes: Seq<u8>) -> Seq<char>
    decreases bytes.len(),
{
    if bytes.len() == 0 {
        Seq::empty()
    } else {
        let b = bytes.last();
        to_hex_spec(bytes.drop_last()).push(hex_digit_spec(b / 16)).push(hex_digit_spec(b % 16))
    }
}

/// A lower-case hexadecimal digit.
pub open spec fn is_hex_digit(c: char) -> bool {
    ('0' <= c && c <= '9') || ('a' <= c && c <= 'f')
}

/// Hexadecimal text is made of lower-case hexadecimal digits only, two per
/// byte, so it is safe as a file name.
pub proof fn lemma_to_hex_digits(bytes: Seq<u8>)
    ensures
        to_hex_spec(bytes).len() == 2 * bytes.len(),
        forall|i: int| 0 <= i < to_hex_spec(bytes).len() ==> is_hex_digit(#[trigger] to_hex_spec(bytes)[i]),
    decreases bytes.len(),
{
    if bytes.len() > 0 {
        lemma_to_hex_digits(bytes.drop_last());
        let b = bytes.last();
        let p = to_hex_spec(bytes.drop_last());
        let q = to_hex_spec(bytes);
        assert(b / 16 < 16 && b % 16 < 16);
        assert forall|i: int| 0 <= i < q.len() implies is_hex_digit(#[trigger] q[i]) by {
            if i < p.len() {
                assert(q[i] == p[i]);
            }
        }
    }
}

/// The lower-case hexadecimal digit for `value`, which must be below sixteen.
pub fn hex_char(value: u8) -> (res: char)
    requires
        value < 16,
    ensures
        res == hex_digit_spec(value),
{
    if value < 10 {
        (48u8 + value) as char
    } else {
        (97u8 + value - 10) as char
    }
}

/// `bytes` spelt in lower-case hexadecimal, two digits per byte.
pub fn to_hex(bytes: &[u8]) -> (res: String)
    ensures
        res@ == to_hex_spec(bytes@),
        res@.len() == 2 * bytes@.len(),
{
    let mut output = String::new();
    let n = bytes.len();
    for i in 0..n
        invariant
            n == bytes@.len(),
            output@ == to_hex_spec(bytes@.take(i as int)),
            output@.len() == 2 * i,
    {
        let byte = bytes[i];
        assert(byte >> 4 == byte / 16 && byte & 0x0f == byte % 16) by (bit_vector);
        let ghost t = bytes@.take(i + 1);
        assert(t.drop_last() =~= bytes@.take(i as int));
        assert(t.last() == byte);
        push_char(&mut output, hex_char(byte >> 4));
        push_char(&mut output, hex_char(byte & 0x0f));
    }
    assert(bytes@.take(n as int) =~= bytes@);
    output
}


/// `out` with `bytes` appended.
pub fn append_bytes(out: &mut Vec<u8>, bytes: &[u8])
    ensures
        final(out)@ == old(out)@ + bytes@,
{
    let ghost start = out@;
    let n = bytes.len();
    for i in 0..n
        invariant
            n == bytes@.len(),
            out@ == start + bytes@.take(i as int),
    {
        out.push(bytes[i]);
        assert(bytes@.take(i + 1) =~= bytes@.take(i as int).push(bytes@[i as int]));
    }
    assert(bytes@.take(n as int) =~= bytes@);
}

/// The bytes of all `parts`, one after the other.
pub open spec fn concat_parts(parts: Seq<&[u8]>) -> Seq<u8>
    decreases parts.len(),
{
    if parts.len() == 0 {
        Seq::empty()
    } else {
        concat_parts(parts.drop_last()) + parts.last()@
    }
}

/// The lower-case hexadecimal SHA-256 digest of the concatenation of `parts`.
pub fn hash_hex(parts: &[&[u8]]) -> (res: String)
    ensures
        res@ == to_hex_spec(sha256_spec(concat_parts(parts@))),
        res@.len() == 64,
        forall|i: int| 0 <= i < res@.len() ==> is_hex_digit(#[trigger] res@[i]),
{
    let mut data: Vec<u8> = Vec::new();
    let n = parts.len();
    for i in 0..n
        invariant
            n == parts@.len(),
            data@ == concat_parts(parts@.take(i as int)),
    {
        append_bytes(&mut data, parts[i]);
        assert(parts@.take(i + 1).drop_last() =~= parts@.take(i as int));
    }
    assert(parts@.take(n as int) =~= parts@);
    let digest = sha256(data.as_slice());
    proof {
        lemma_to_hex_digits(digest@);
    }
    to_hex(digest.as_slice())
}

} // verus!
