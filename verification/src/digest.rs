//! SHA-256 digests rendered as lowercase hexadecimal text.

use vstd::prelude::*;
use crate::strings::push_char;
use sha2::Digest;

verus! {

/// The SHA-256 digest of `data`, as the `sha2` crate computes it.
pub uninterp spec fn sha256(data: Seq<u8>) -> Seq<u8>;

/// `sha2::Sha256` over `data`: the digest, which is 32 bytes long.
#[verifier::external_body]
pub(crate) fn sha256_digest(data: &[u8]) -> (r: Vec<u8>)
    ensures
        r@ == sha256(data@),
        r@.len() == 32,
{
    let mut hasher = sha2::Sha256::new();
    hasher.update(data);
    hasher.finalize().to_vec()
}

/// The lowercase hexadecimal digit for `d`.
pub open spec fn hex_digit(d: u8) -> char {
    if d < 10 {
        (('0' as u8) + d) as char
    } else {
        (('a' as u8) + (d - 10)) as char
    }
}

/// Each byte as two lowercase hexadecimal digits, high nibble first, as
/// `{:x}` renders a digest.
pub open spec fn hex_lower(bytes: Seq<u8>) -> Seq<char>
    decreases bytes.len(),
{
    if bytes.len() == 0 {
        Seq::empty()
    } else {
        let b = bytes.last();
        hex_lower(bytes.drop_last()).push(hex_digit(b / 16)).push(hex_digit(b % 16))
    }
}

/// The lowercase hexadecimal digit for a nibble.
fn nibble_char(d: u8) -> (c: char)
    requires
        d < 16,
    ensures
        c == hex_digit(d),
{
    if d < 10 {
        (('0' as u8) + d) as char
    } else {
        (('a' as u8) + (d - 10)) as char
    }
}

/// Appends the lowercase hexadecimal rendering of `bytes` to `out`.
pub fn push_hex(out: &mut String, bytes: &[u8])
    ensures
        final(out)@ == old(out)@ + hex_lower(bytes@),
{
    let mut i: usize = 0;
    while i < bytes.len()
        invariant
            i <= bytes@.len(),
            out@ == old(out)@ + hex_lower(bytes@.take(i as int)),
        decreases bytes@.len() - i,
    {
        let b = bytes[i];
        push_char(out, nibble_char(b / 16));
        push_char(out, nibble_char(b % 16));
        assert(bytes@.take(i + 1).drop_last() =~= bytes@.take(i as int));
        assert(old(out)@ + hex_lower(bytes@.take(i as int)).push(hex_digit(b / 16)).push(
            hex_digit(b % 16),
        ) =~= old(out)@ + hex_lower(bytes@.take(i as int)) + seq![hex_digit(b / 16), hex_digit(b % 16)]);
        i = i + 1;
    }
    assert(bytes@.take(bytes@.len() as int) =~= bytes@);
}

} // verus!
