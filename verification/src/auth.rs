//! The challenge-response authentication of the control-protocol handshake:
//! `base64(sha256(password ++ salt))` gives a per-session secret, and
//! `base64(sha256(secret ++ challenge))` is the string sent with the identify
//! message.  Fresh challenge and salt per connection prevent replay without
//! the password ever crossing the wire.

use sha2::Digest;
use vstd::prelude::*;
use vstd::string::StringExecFns;
use vstd::utf8::encode_utf8;

verus! {

/// The SHA-256 digest of a byte sequence.
pub uninterp spec fn sha256_of(data: Seq<u8>) -> Seq<u8>;

/// The base64 text (standard alphabet, padded) of a byte sequence.
pub uninterp spec fn base64_of(data: Seq<u8>) -> Seq<char>;

/// Relies on `sha2::Sha256::digest`: the 32-byte SHA-256 digest, a function
/// of the input bytes alone.
#[verifier::external_body]
fn sha256(data: &[u8]) -> (digest: Vec<u8>)
    ensures
        digest@ == sha256_of(data@),
        digest@.len() == 32,
{
    sha2::Sha256::digest(data).to_vec()
}

/// Relies on `base64::Engine::encode` with the standard padded alphabet: the
/// base64 text of the input, a function of the input bytes alone.
#[verifier::external_body]
fn base64_encode(data: &[u8]) -> (text: String)
    ensures
        text@ == base64_of(data@),
{
    base64::Engine::encode(&base64::engine::general_purpose::STANDARD, data)
}

/// The authentication string owed for a greeting carrying `salt` and
/// `challenge`, given the configured password: the salted password hash,
/// base64-encoded, is hashed again with the challenge and encoded again.
pub open spec fn auth_response(password: Seq<char>, salt: Seq<char>, challenge: Seq<char>) -> Seq<
    char,
> {
    let secret = base64_of(sha256_of(encode_utf8(password + salt)));
    base64_of(sha256_of(encode_utf8(secret + challenge)))
}

/// Computes the identify authentication string for one session.
pub fn compute_auth_response(password: &str, salt: &str, challenge: &str) -> (auth: String)
    ensures
        auth@ == auth_response(password@, salt@, challenge@),
{
    let mut salted = String::from_str(password);
    salted.append(salt);
    proof {
        assert(salted@ =~= password@ + salt@);
    }
    let first = sha256(salted.as_str().as_bytes());
    let secret = base64_encode(first.as_slice());
    let mut keyed = secret;
    keyed.append(challenge);
    proof {
        assert(keyed@ =~= base64_of(sha256_of(encode_utf8(password@ + salt@))) + challenge@);
    }
    let second = sha256(keyed.as_str().as_bytes());
    base64_encode(second.as_slice())
}

} // verus!
