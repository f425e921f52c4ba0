//! Inbound request bodies and their mapping onto repository and orchestrator
//! inputs. Decoding the wire format is the caller's concern; the mapping from
//! a decoded body and the authorized caller to a write request is here.

use vstd::prelude::*;
use crate::checkout_service::CreateCheckoutService;
use crate::donation_page_repository::CreateDonationPage;
use crate::donation_page_repository::UpdateDonationPage;

verus! {

pub struct CreateDonationPageReq {
    pub slug: String,
    pub name: String,
    pub description: String,
}

pub struct UpdateDonationPageReq {
    pub slug: String,
    pub name: String,
    pub description: String,
}

pub struct CreateStoreReq {
    pub name: String,
}

pub struct UpdateStoreReq {
    pub name: String,
}

/// The body of the checkout-creating request: the amount and expiry for the
/// rails, an optional memo for the invoice, and an opaque metadata blob for
/// the store-linking record.
pub struct CreateStoreInvoice {
    pub amount: i64,
    pub expiry: i64,
    pub memo: Option<String>,
    pub metadata: Option<String>,
}

impl CreateDonationPageReq {
    /// The write request for this body, owned by the authorized caller.
    pub fn into_create(self, user_uuid: String) -> (r: CreateDonationPage)
        ensures
            r.user_uuid == user_uuid,
            r.slug == self.slug,
            r.name == self.name,
            r.description == self.description,
    {
        CreateDonationPage {
            user_uuid,
            name: self.name,
            slug: self.slug,
            description: self.description,
        }
    }
}

impl UpdateDonationPageReq {
    pub fn into_update(self) -> (r: UpdateDonationPage)
        ensures
            r.slug == self.slug,
            r.name == self.name,
            r.description == self.description,
    {
        UpdateDonationPage { name: self.name, slug: self.slug, description: self.description }
    }
}

impl CreateStoreInvoice {
    /// The checkout request for this body, owned by the authorized caller;
    /// the metadata stays behind for the store-linking record.
    pub fn into_checkout_request(self, user_uuid: String) -> (r: (
        CreateCheckoutService,
        Option<String>,
    ))
        ensures
            r.0.user_uuid == user_uuid,
            r.0.amount == self.amount,
            r.0.expiry == self.expiry,
            r.0.memo == self.memo,
            r.1 == self.metadata,
    {
        (
            CreateCheckoutService {
                user_uuid,
                amount: self.amount,
                expiry: self.expiry,
                memo: self.memo,
            },
            self.metadata,
        )
    }
}

} // verus!
