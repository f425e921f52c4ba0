//! The checkout orchestrator. Phase 1 (the two rail calls) is network I/O the
//! caller's rail adapter performs; its already-awaited outcomes come in as
//! plain values, and a missing or empty value from either rail fails the
//! whole request with nothing persisted. Phase 2 renders the three QR
//! payloads; only after both phases succeed is exactly one checkout row
//! written — the sole write on the happy path, so no rollback is ever needed.

use vstd::prelude::*;
use crate::checkout_repository::CheckoutRepository;
use crate::checkout_repository::CreateCheckout;
use crate::models::Checkout;
use crate::models::CheckoutStatus;
use crate::qr::qr_encodable;
use crate::qr::qr_of;
use crate::qr::render_qr;

verus! {

/// A checkout request as the admission layer hands it to the orchestrator.
#[derive(Clone, Debug)]
pub struct CreateCheckoutService {
    pub user_uuid: String,
    pub amount: i64,
    pub expiry: i64,
    pub memo: Option<String>,
}

/// The persisted checkout together with its three rendered QR payloads.
#[derive(Debug)]
pub struct CheckoutResponse {
    pub checkout: Checkout,
    pub qr_unified: String,
    pub qr_bitcoin: String,
    pub qr_ln: String,
}

/// Why a checkout request failed. A rail failure covers the external payment
/// node erring, timing out, or answering with an empty value; a render
/// failure covers a payload the QR encoder cannot hold. Neither is retried.
#[derive(Clone, Copy, Debug, PartialEq, Eq, Structural)]
pub enum OrchestrationError {
    RailFailure,
    RenderFailure,
}

impl OrchestrationError {
    /// Both failures are outside the caller's control and are rendered as
    /// 500; the detail stays in the log, never in the response.
    pub fn http_status(&self) -> (r: u16)
        ensures
            r == 500,
    {
        500
    }

    /// The stable machine-readable kind of the failure.
    pub fn kind(&self) -> (r: String)
        ensures
            r@ == self.kind_spec(),
    {
        match self {
            OrchestrationError::RailFailure => "rail_failure".to_owned(),
            OrchestrationError::RenderFailure => "render_failure".to_owned(),
        }
    }

    pub open spec fn kind_spec(&self) -> Seq<char> {
        match self {
            OrchestrationError::RailFailure => "rail_failure"@,
            OrchestrationError::RenderFailure => "render_failure"@,
        }
    }
}

/// The parameters of the Lightning invoice-issuance call: the requested
/// amount and expiry, and the caller's memo or the fixed application name
/// when none was supplied.
pub struct InvoiceRequest {
    pub value: i64,
    pub expiry: i64,
    pub memo: String,
}

/// Build the invoice-issuance parameters for a request; the memo defaults to
/// the application name, a leaf configuration value.
pub fn invoice_request(data: &CreateCheckoutService, app_name: &str) -> (r: InvoiceRequest)
    ensures
        r.value == data.amount,
        r.expiry == data.expiry,
        match data.memo {
            Some(m) => r.memo@ == m@,
            None => r.memo@ == app_name@,
        },
{
    let memo = match &data.memo {
        Some(m) => m.clone(),
        None => app_name.to_owned(),
    };
    InvoiceRequest { value: data.amount, expiry: data.expiry, memo }
}

/// The dual-scheme payment descriptor: one URI-style string carrying both the
/// on-chain address and the Lightning payment request, consumable by wallets
/// that support either rail.
pub open spec fn unified_descriptor(addr: Seq<char>, pr: Seq<char>) -> Seq<char> {
    "bitcoin:"@ + addr + "?lightning="@ + pr
}

pub fn build_unified_descriptor(addr: &str, pr: &str) -> (r: String)
    ensures
        r@ == unified_descriptor(addr@, pr@),
{
    let mut s = "bitcoin:".to_owned();
    s.append(addr);
    s.append("?lightning=");
    s.append(pr);
    proof {
        assert(s@ =~= unified_descriptor(addr@, pr@));
    }
    s
}

/// Both rail calls came back with a usable value: present and non-empty.
pub open spec fn rails_ok(payment_request: Option<String>, bitcoin_address: Option<String>) -> bool {
    &&& payment_request matches Some(p) && p@.len() > 0
    &&& bitcoin_address matches Some(a) && a@.len() > 0
}

/// Phase 2 can succeed on these rail values: the unified descriptor, the
/// bare address and the bare payment request each fit in a QR code.
pub open spec fn renders_ok(
    payment_request: Option<String>,
    bitcoin_address: Option<String>,
) -> bool {
    payment_request matches Some(pr) && bitcoin_address matches Some(addr) && {
        &&& qr_encodable(unified_descriptor(addr@, pr@))
        &&& qr_encodable(addr@)
        &&& qr_encodable(pr@)
    }
}

pub struct CheckoutService {}

impl CheckoutService {
    /// The rail adapter (the external node-cluster client) stays with the
    /// caller, which awaits both rail calls and hands their outcomes in.
    pub fn new() -> (r: Self) {
        CheckoutService {  }
    }

    /// Drive one checkout request to its single commit, or fail it with
    /// nothing persisted. `payment_request` and `bitcoin_address` are the
    /// phase-1 outcomes, `None` for a rail that failed; a rail value that
    /// succeeded while its counterpart failed is discarded, never stored.
    pub fn create(
        &self,
        data: CreateCheckoutService,
        payment_request: Option<String>,
        bitcoin_address: Option<String>,
        repo: &mut CheckoutRepository,
        uuid: String,
        now: u64,
    ) -> (r: Result<CheckoutResponse, OrchestrationError>)
        requires
            old(repo).wf(),
            !old(repo).contains_uuid(uuid@),
        ensures
            final(repo).wf(),
            r is Err ==> *final(repo) == *old(repo),
            r is Err ==> final(repo)@ == old(repo)@,
            (r matches Err(e) && e == OrchestrationError::RailFailure) <==> !rails_ok(
                payment_request,
                bitcoin_address,
            ),
            (r matches Err(e) && e == OrchestrationError::RenderFailure) <==> (rails_ok(
                payment_request,
                bitcoin_address,
            ) && !renders_ok(payment_request, bitcoin_address)),
            (r is Ok) <==> (rails_ok(payment_request, bitcoin_address) && renders_ok(
                payment_request,
                bitcoin_address,
            )),
            r matches Ok(resp) ==> {
                &&& rails_ok(payment_request, bitcoin_address)
                &&& payment_request matches Some(pr) && bitcoin_address matches Some(addr) && {
                    &&& final(repo)@ == old(repo)@.push(resp.checkout)
                    &&& resp.checkout.uuid@ == uuid@
                    &&& resp.checkout.user_uuid@ == data.user_uuid@
                    &&& resp.checkout.amount == data.amount
                    &&& resp.checkout.status == CheckoutStatus::New
                    &&& resp.checkout.bitcoin_address@ == addr@
                    &&& resp.checkout.payment_request@ == pr@
                    &&& resp.checkout.expiry_seconds == data.expiry
                    &&& resp.checkout.created_at == now
                    &&& resp.qr_unified@ == qr_of(unified_descriptor(addr@, pr@))
                    &&& resp.qr_bitcoin@ == qr_of(addr@)
                    &&& resp.qr_ln@ == qr_of(pr@)
                    &&& resp.qr_unified@.len() > 0 && resp.qr_bitcoin@.len() > 0
                        && resp.qr_ln@.len() > 0
                }
            },
    {
        let (pr, addr) = match (payment_request, bitcoin_address) {
            (Some(p), Some(a)) => {
                if p.as_str().is_empty() || a.as_str().is_empty() {
                    return Err(OrchestrationError::RailFailure);
                }
                (p, a)
            },
            _ => {
                return Err(OrchestrationError::RailFailure);
            },
        };
        let unified = build_unified_descriptor(addr.as_str(), pr.as_str());

        let qr_unified = match render_qr(unified.as_str()) {
            Some(q) => q,
            None => {
                return Err(OrchestrationError::RenderFailure);
            },
        };
        let qr_bitcoin = match render_qr(addr.as_str()) {
            Some(q) => q,
            None => {
                return Err(OrchestrationError::RenderFailure);
            },
        };
        let qr_ln = match render_qr(pr.as_str()) {
            Some(q) => q,
            None => {
                return Err(OrchestrationError::RenderFailure);
            },
        };

        let create_checkout = CreateCheckout {
            user_uuid: data.user_uuid,
            amount: data.amount,
            bitcoin_address: addr,
            payment_request: pr,
            expiry_seconds: data.expiry,
        };
        let checkout = repo.create(create_checkout, uuid, now);

        Ok(CheckoutResponse { checkout, qr_unified, qr_bitcoin, qr_ln })
    }
}

} // verus!
