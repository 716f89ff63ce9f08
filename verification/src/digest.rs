//! Integrity verification: the completed content is hashed and compared
//! against the server-supplied entity tag, a hex-encoded MD5 digest.

use md5::Digest;
use vstd::prelude::*;

use crate::decimal::{digit_val, is_dec_digit};
use crate::errors::FetchError;

verus! {

/// Whether `c` is a hexadecimal digit, either case.
pub open spec fn is_hex_digit(c: char) -> bool {
    is_dec_digit(c) || c == 'a' || c == 'b' || c == 'c' || c == 'd' || c == 'e' || c == 'f'
        || c == 'A' || c == 'B' || c == 'C' || c == 'D' || c == 'E' || c == 'F'
}

/// The numeric value of a hexadecimal digit (unconstrained elsewhere).
pub open spec fn hex_val(c: char) -> int {
    if is_dec_digit(c) {
        digit_val(c)
    } else if c == 'a' || c == 'A' {
        10
    } else if c == 'b' || c == 'B' {
        11
    } else if c == 'c' || c == 'C' {
        12
    } else if c == 'd' || c == 'D' {
        13
    } else if c == 'e' || c == 'E' {
        14
    } else if c == 'f' || c == 'F' {
        15
    } else {
        16
    }
}

/// Whether `s` is a well-formed hex encoding: even length, hex digits only.
pub open spec fn is_hex_string(s: Seq<char>) -> bool {
    s.len() % 2 == 0 && (forall|i: int| 0 <= i < s.len() ==> is_hex_digit(#[trigger] s[i]))
}

/// The bytes a well-formed hex string encodes, two digits per byte.
pub open spec fn hex_decoded(s: Seq<char>) -> Seq<u8> {
    Seq::new((s.len() / 2) as nat, |i: int| (hex_val(s[2 * i]) * 16 + hex_val(s[2 * i + 1])) as u8)
}

/// The MD5 digest of a byte sequence, named but not spelled out: the
/// algorithm is the outside hasher's, relied on, not restated.
pub uninterp spec fn md5_of(bytes: Seq<u8>) -> Seq<u8>;

/// Relies on the `md-5` crate's `Md5` hasher: the digest is a pure
/// function of the input bytes alone, sixteen bytes long.
#[verifier::external_body]
fn md5_digest(content: &Vec<u8>) -> (r: Vec<u8>)
    ensures
        r@ == md5_of(content@),
        r@.len() == 16,
{
    md5::Md5::digest(content.as_slice()).to_vec()
}

/// Relies on `hex::decode`: it succeeds exactly on even-length strings of
/// hex digits (either case), and each output byte is the value of the
/// corresponding digit pair.
#[verifier::external_body]
fn hex_decode(s: &str) -> (r: Option<Vec<u8>>)
    ensures
        r matches Some(v) ==> is_hex_string(s@) && v@ == hex_decoded(s@),
        r is None ==> !is_hex_string(s@),
{
    hex::decode(s).ok()
}

/// The message when the entity tag is not a hex digest at all.
pub open spec fn invalid_etag_message() -> Seq<char> {
    "ETag is not a valid hex digest"@
}

/// The message when the computed digest differs from the entity tag.
pub open spec fn etag_mismatch_message() -> Seq<char> {
    "ETag does not match"@
}

/// Compares two byte vectors element by element.
fn bytes_eq(a: &Vec<u8>, b: &Vec<u8>) -> (r: bool)
    ensures
        r == (a@ == b@),
{
    let na = a.len();
    let nb = b.len();
    if na != nb {
        return false;
    }
    let mut i: usize = 0;
    while i < na
        invariant
            0 <= i <= na,
            na == a@.len(),
            nb == b@.len(),
            na == nb,
            forall|j: int| 0 <= j < i ==> a@[j] == b@[j],
        decreases na - i,
    {
        if a[i] != b[i] {
            return false;
        }
        i = i + 1;
    }
    proof {
        assert(a@ =~= b@);
    }
    true
}

/// Checks an entity tag, a hex-encoded MD5 digest, against the completed
/// content.  Succeeds exactly when the tag is a well-formed hex string
/// that decodes to the content's digest; a malformed tag and a mismatched
/// digest each fail with a validation error.
pub fn check_etag(etag: &str, content: &Vec<u8>) -> (r: Result<(), FetchError>)
    ensures
        ({
            if !is_hex_string(etag@) {
                r matches Err(e) && e matches FetchError::ValidationError(m) && m@
                    == invalid_etag_message()
            } else if hex_decoded(etag@) == md5_of(content@) {
                r is Ok
            } else {
                r matches Err(e) && e matches FetchError::ValidationError(m) && m@
                    == etag_mismatch_message()
            }
        }),
{
    let expected = match hex_decode(etag) {
        None => {
            return Err(
                FetchError::ValidationError(String::from_str("ETag is not a valid hex digest")),
            );
        },
        Some(v) => v,
    };
    let actual = md5_digest(content);
    if bytes_eq(&expected, &actual) {
        Ok(())
    } else {
        Err(FetchError::ValidationError(String::from_str("ETag does not match")))
    }
}

} // verus!
