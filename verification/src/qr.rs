//! QR rendering: a pure function from a string payload to a displayable
//! text representation, with no external state.

use vstd::prelude::*;

verus! {

/// The text rendering of the QR encoding of `payload`; a deterministic
/// function of the payload alone.
pub uninterp spec fn qr_of(payload: Seq<char>) -> Seq<char>;

/// Whether `payload` fits in a QR code at all: construction fails only for
/// payloads over the code's capacity, a deterministic function of the
/// payload alone.
pub uninterp spec fn qr_encodable(payload: Seq<char>) -> bool;

/// Relies on qr_code's `QrCode::new` and `QrCode::to_string`: construction
/// succeeds or fails by the payload alone (it errs only when the data is too
/// long for any version); version, mask and drawing are chosen
/// deterministically from the payload; and a drawn code always ends with a
/// newline, so it is never empty.
#[verifier::external_body]
pub(crate) fn render_qr(payload: &str) -> (r: Option<String>)
    ensures
        (r is Some) <==> qr_encodable(payload@),
        r matches Some(q) ==> q@ == qr_of(payload@) && q@.len() > 0,
{
    let code = qr_code::QrCode::new(payload.as_bytes()).ok()?;
    Some(code.to_string(false, 3))
}

} // verus!
