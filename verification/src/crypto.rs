//! Keyed hashing. Subject keys for the rate limiter and stored password
//! digests are both HMAC-SHA-256 values written as hex, so raw client
//! identities and passwords never appear in a cache or a table.

use vstd::prelude::*;

verus! {

/// The HMAC-SHA-256 digest of `data` keyed with `secret`, written as
/// lowercase hex. The digest is a function of the two inputs alone.
pub uninterp spec fn hmac_sha256_hex(data: Seq<char>, secret: Seq<char>) -> Seq<char>;

/// Relies on hmac's `Hmac<Sha256>` (a MAC accepts a key of any length and its
/// digest depends on the message and key alone; SHA-256 digests are 32 bytes)
/// and on `hex::encode` (two hex digits per byte).
#[verifier::external_body]
pub fn sha256_hmac(data: &str, secret: &str) -> (r: String)
    ensures
        r@ == hmac_sha256_hex(data@, secret@),
        r@.len() == 64,
{
    let mut mac = <hmac::Hmac<sha2::Sha256> as hmac::KeyInit>::new_from_slice(secret.as_bytes())
        .expect("HMAC accepts keys of any length");
    hmac::Mac::update(&mut mac, data.as_bytes());
    hex::encode(hmac::Mac::finalize(mac).into_bytes())
}

} // verus!
