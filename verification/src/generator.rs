//! PKCE verifier and challenge generation (RFC 7636).
//!
//! The verifier is a random byte string over the unreserved character set;
//! the challenge is the unpadded base64url encoding of the verifier's
//! SHA-256 digest. Randomness and hashing come from the `pkce` crate
//! behind trusted wrappers; everything stated of them is what that
//! crate's source shows.

use vstd::prelude::*;

verus! {

/// RFC 7636 unreserved byte: `A`-`Z`, `a`-`z`, `0`-`9`, `-`, `.`, `_`, `~`.
pub open spec fn is_unreserved_byte(b: u8) -> bool {
    (65 <= b <= 90)  // 'A'..='Z'
    || (97 <= b <= 122)  // 'a'..='z'
    || (48 <= b <= 57)  // '0'..='9'
    || b == 45  // '-'
    || b == 46  // '.'
    || b == 95  // '_'
    || b == 126  // '~'
}

/// All bytes of `s` lie in the unreserved set.
pub open spec fn all_unreserved(s: Seq<u8>) -> bool {
    forall|i: int| 0 <= i < s.len() ==> is_unreserved_byte(#[trigger] s[i])
}

/// The challenge derived from a verifier: the unpadded base64url encoding
/// of its SHA-256 digest. A digest has no short statement, so the result
/// only carries this name; `derive_challenge` is its sole source.
pub uninterp spec fn challenge_of(verifier: Seq<u8>) -> Seq<u8>;

/// Relies on pkce::code_verifier: returns exactly `length` bytes, each
/// drawn (randomly) from its unreserved character table, and panics
/// unless 43 <= length <= 128. Nothing is stated of which bytes come
/// back: the result is random.
#[verifier::external_body]
fn random_verifier(length: usize) -> (r: Vec<u8>)
    requires
        43 <= length <= 128,
    ensures
        r@.len() == length,
        all_unreserved(r@),
{
    pkce::code_verifier(length)
}

/// Relies on pkce::code_challenge: base64url (unpadded) of the SHA-256
/// digest of `verifier`, a function of `verifier` alone. Its source maps
/// the standard base64 alphabet to `-` and `_` and drops `=` padding, so
/// every byte of the result is unreserved; the SHA-256 digest is 32
/// bytes, so the unpadded encoding is 43 bytes long.
#[verifier::external_body]
fn challenge_bytes(verifier: &Vec<u8>) -> (r: Vec<u8>)
    ensures
        r@ == challenge_of(verifier@),
        r@.len() == 43,
        all_unreserved(r@),
{
    pkce::code_challenge(verifier.as_slice()).into_bytes()
}

/// Produces a fresh random code verifier of `length` bytes, each in the
/// RFC 7636 unreserved set. The random source admits lengths of 43 to
/// 128 bytes only, per RFC 7636 section 4.1.
pub fn generate_verifier(length: usize) -> (r: Vec<u8>)
    requires
        43 <= length <= 128,
    ensures
        r@.len() == length,
        all_unreserved(r@),
{
    random_verifier(length)
}

/// Computes the code challenge of `verifier`: base64url(SHA-256(verifier))
/// without padding, 43 unreserved bytes.
pub fn derive_challenge(verifier: &Vec<u8>) -> (r: Vec<u8>)
    ensures
        r@ == challenge_of(verifier@),
        r@.len() == 43,
        all_unreserved(r@),
{
    challenge_bytes(verifier)
}

/// The challenge derivation is deterministic: equal verifiers yield equal
/// challenges, so deriving twice from the same verifier gives the same
/// challenge both times.
pub proof fn lemma_challenge_deterministic(v1: Seq<u8>, v2: Seq<u8>)
    requires
        v1 == v2,
    ensures
        challenge_of(v1) == challenge_of(v2),
{
}

} // verus!
