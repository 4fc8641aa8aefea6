//! Password hashing: SHA-256 of the salted password, written in Base64.
//!
//! The digest and the Base64 alphabet are the work of the `sha2` and
//! `base64ct` crates; what they return is named here, not restated.

use vstd::prelude::*;
use vstd::string::StrSliceExecFns;
use vstd::utf8::encode_utf8;
use base64ct::Encoding;
use sha2::Digest;
use crate::text::concat;

verus! {

/// The SHA-256 digest of a sequence of bytes.
pub uninterp spec fn sha256(data: Seq<u8>) -> Seq<u8>;

/// The padded standard Base64 text of a sequence of bytes.
pub uninterp spec fn base64(bytes: Seq<u8>) -> Seq<char>;

/// The salt that is appended to a password before it is hashed.
pub open spec fn password_salt() -> Seq<char> {
    "__simple_password_salt__"@
}

/// The hash of a text: the Base64 text of the SHA-256 digest of its UTF-8
/// bytes.
pub open spec fn sha256_text(s: Seq<char>) -> Seq<char> {
    base64(sha256(encode_utf8(s)))
}

/// `Sha256::digest` of `sha2`: the digest of the bytes, which has 32 bytes.
#[verifier::external_body]
fn sha256_digest(data: &[u8]) -> (digest: Vec<u8>)
    ensures
        digest@ == sha256(data@),
        digest@.len() == 32,
{
    sha2::Sha256::digest(data).to_vec()
}

/// `Base64::encode_string` of `base64ct`: the Base64 text of the bytes. The
/// outside function panics on an input longer than `usize::MAX / 4`.
#[verifier::external_body]
fn base64_encode(bytes: &[u8]) -> (text: String)
    requires
        bytes@.len() <= usize::MAX / 4,
    ensures
        text@ == base64(bytes@),
{
    base64ct::Base64::encode_string(bytes)
}

/// Hashes a string with SHA-256 and writes the digest in Base64.
pub fn sha256_string(s: &String) -> (hash: String)
    ensures
        hash@ == sha256_text(s@),
{
    let bytes = s.as_str().as_bytes_vec();
    let digest = sha256_digest(bytes.as_slice());
    base64_encode(digest.as_slice())
}

/// Hashes a password: the hash of the password followed by the salt.
pub fn sha256_password(password: &str) -> (hash: String)
    ensures
        hash@ == sha256_text(password@ + password_salt()),
{
    let salted = concat(password, "__simple_password_salt__");
    sha256_string(&salted)
}

} // verus!
