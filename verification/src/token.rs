//! The token generator: unguessable opaque identifiers, wide enough that
//! collisions are negligible, rendered in a non-ambiguous alphabet.

use vstd::prelude::*;

verus! {

/// How many random bytes go into one token: 256 bits of entropy.
pub const TOKEN_BYTES: usize = 32;

/// What bs58's encoder with its default (Bitcoin) alphabet returns for a
/// byte sequence.
pub uninterp spec fn base58_of(bytes: Seq<u8>) -> Seq<char>;

/// A character of the Bitcoin base58 alphabet: the digits and letters with
/// the ambiguous `0`, `O`, `I` and `l` left out.
pub open spec fn is_base58_char(c: char) -> bool {
    ('1' <= c && c <= '9') || ('A' <= c && c <= 'Z' && c != 'I' && c != 'O') || ('a' <= c && c
        <= 'z' && c != 'l')
}

/// Relies on urandom::csprng and Random::fill_bytes: fills a buffer of the
/// given length from a cryptographically secure source. Nothing is promised
/// of the byte values themselves.
#[verifier::external_body]
fn random_bytes(count: usize) -> (r: Vec<u8>)
    ensures
        r@.len() == count,
{
    let mut buf = vec![0u8; count];
    urandom::csprng().fill_bytes(buf.as_mut_slice());
    buf
}

/// Relies on bs58::encode and EncodeBuilder::into_string with the default
/// (Bitcoin) alphabet: the encoding depends on the bytes alone, every output
/// character is drawn from that alphabet, and a non-empty input encodes to a
/// non-empty string.
#[verifier::external_body]
fn base58_encode(bytes: &Vec<u8>) -> (r: String)
    ensures
        r@ == base58_of(bytes@),
        bytes@.len() > 0 ==> r@.len() > 0,
        forall|i: int| 0 <= i < r@.len() ==> is_base58_char(r@[i]),
{
    bs58::encode(bytes.as_slice()).into_string()
}

/// Issues a fresh opaque token: `TOKEN_BYTES` bytes drawn from a
/// cryptographically secure random source, rendered as a compact string over
/// the non-ambiguous base58 alphabet. The result is never empty.
pub fn generate() -> (t: String)
    ensures
        t@.len() > 0,
        forall|i: int| 0 <= i < t@.len() ==> is_base58_char(t@[i]),
{
    let bytes = random_bytes(TOKEN_BYTES);
    base58_encode(&bytes)
}

} // verus!
