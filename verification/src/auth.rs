//! Token generation and validation for the remote transport.

use vstd::prelude::*;
use vstd::string::StringSliceAdditionalSpecFns;

verus! {

/// A character of the URL-safe base64 alphabet (RFC 4648, section 5).
pub open spec fn is_b64url_char(c: char) -> bool {
    ||| ('A' as u32) <= (c as u32) <= ('Z' as u32)
    ||| ('a' as u32) <= (c as u32) <= ('z' as u32)
    ||| ('0' as u32) <= (c as u32) <= ('9' as u32)
    ||| c == '-'
    ||| c == '_'
}

/// Relies on rand::thread_rng and rand::Rng::fill: fills a buffer with
/// cryptographically secure random bytes. Nothing can be promised of
/// random values beyond the buffer's size.
#[verifier::external_body]
fn random_bytes_32() -> (r: Vec<u8>)
    ensures
        r@.len() == 32,
{
    let mut bytes = [0u8; 32];
    rand::Rng::fill(&mut rand::thread_rng(), &mut bytes[..]);
    bytes.to_vec()
}

/// Relies on base64's `URL_SAFE_NO_PAD` engine: encodes to the RFC
/// 4648 URL-safe alphabet (`A`-`Z`, `a`-`z`, `0`-`9`, `-`, `_`)
/// without padding, at four output characters for every three input
/// bytes, rounded up.
#[verifier::external_body]
fn b64url_nopad_encode(bytes: &Vec<u8>) -> (r: String)
    ensures
        r@.len() == (bytes@.len() * 4 + 2) / 3,
        forall|i: int| 0 <= i < r@.len() ==> is_b64url_char(#[trigger] r@[i]),
{
    base64::Engine::encode(&base64::engine::general_purpose::URL_SAFE_NO_PAD, bytes)
}

/// Generate a random access token: 32 random bytes, base64url-encoded
/// without padding — 43 characters, all from the URL-safe alphabet.
pub fn generate_token() -> (r: String)
    ensures
        r@.len() == 43,
        forall|i: int| 0 <= i < r@.len() ==> is_b64url_char(#[trigger] r@[i]),
{
    let bytes = random_bytes_32();
    b64url_nopad_encode(&bytes)
}

/// Validate a provided token against the expected one: true exactly
/// when the two strings are equal. The comparison runs over every byte
/// of equal-length inputs rather than stopping at the first mismatch,
/// so its duration leaks nothing about where the tokens differ.
pub fn validate_token(provided: &str, expected: &str) -> (r: bool)
    ensures
        r == (provided@ == expected@),
{
    let pb = provided.as_bytes();
    let eb = expected.as_bytes();
    if pb.len() != eb.len() {
        proof {
            if provided@ == expected@ {
                assert(pb@ == eb@);
            }
        }
        return false;
    }
    let n = pb.len();
    let mut acc: u8 = 0;
    let mut i: usize = 0;
    while i < n
        invariant
            pb@ == provided.spec_bytes(),
            eb@ == expected.spec_bytes(),
            n == pb@.len(),
            n == eb@.len(),
            0 <= i <= n,
            (acc == 0) <==> (forall|j: int| 0 <= j < i ==> pb@[j] == eb@[j]),
        decreases n - i,
    {
        let a = pb[i];
        let b = eb[i];
        proof {
            assert(((acc | (a ^ b)) == 0) <==> (acc == 0 && a == b)) by (bit_vector);
        }
        acc = acc | (a ^ b);
        i = i + 1;
    }
    let equal = acc == 0;
    proof {
        if equal {
            assert(pb@ =~= eb@);
            vstd::utf8::encode_utf8_decode_utf8(provided@);
            vstd::utf8::encode_utf8_decode_utf8(expected@);
        } else {
            if provided@ == expected@ {
                assert(pb@ == eb@);
                assert(forall|j: int| 0 <= j < n ==> pb@[j] == eb@[j]);
            }
        }
    }
    equal
}

} // verus!
