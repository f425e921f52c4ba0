//! Response envelopes and small helpers for building values.

use vstd::prelude::*;
use rand::RngExt;

verus! {

/// Every success response wraps its payload in a `data` envelope.
pub struct DataResponse<T> {
    pub data: T,
}

/// Every error response wraps a human-readable message in an `error` envelope.
pub struct ErrorResponse {
    pub error: String,
}

/// An ASCII digit or letter: the character class rand's `Alphanumeric`
/// distribution samples from.
pub open spec fn is_ascii_alphanumeric_char(c: char) -> bool {
    ||| 48 <= c as int && c as int <= 57
    ||| 65 <= c as int && c as int <= 90
    ||| 97 <= c as int && c as int <= 122
}

/// Relies on rand's `Alphanumeric` distribution sampled from the thread-local
/// generator: each sample is one character drawn from 0-9, A-Z, a-z, and `n`
/// are taken; which characters come back is random, so nothing more is
/// promised.
#[verifier::external_body]
pub fn random_text(n: i32) -> (r: String)
    requires
        n >= 0,
    ensures
        r@.len() == n as nat,
        forall|i: int| 0 <= i < r@.len() ==> is_ascii_alphanumeric_char(#[trigger] r@[i]),
{
    rand::rng().sample_iter(rand::distr::Alphanumeric).take(n as usize).map(char::from).collect()
}

} // verus!
