//! The store-invoice composer. It delegates the checkout entirely to the
//! orchestrator; only after that commit succeeds does it persist the linking
//! record, so an invoice never points at a checkout that was not written. A
//! failed link after a committed checkout would leave the checkout valid and
//! unlinked (an accepted window, reconciled out of band); with the in-memory
//! store the link write itself cannot fail.

use vstd::prelude::*;
use crate::checkout_repository::CheckoutRepository;
use crate::checkout_service::CheckoutResponse;
use crate::checkout_service::CheckoutService;
use crate::checkout_service::CreateCheckoutService;
use crate::checkout_service::OrchestrationError;
use crate::checkout_service::rails_ok;
use crate::checkout_service::renders_ok;
use crate::checkout_service::unified_descriptor;
use crate::models::Checkout;
use crate::models::CheckoutStatus;
use crate::models::StoreInvoice;
use crate::qr::qr_of;
use crate::store_repository::CreateStoreInvoice;
use crate::store_repository::StoreInvoiceRepository;
use crate::store_repository::StoreRepository;

verus! {

/// The persisted link, the checkout it joins to its store, and the three
/// rendered QR payloads.
#[derive(Debug)]
pub struct CreateStoreInvoiceResponse {
    pub invoice: StoreInvoice,
    pub checkout: Checkout,
    pub qr_unified: String,
    pub qr_bitcoin: String,
    pub qr_ln: String,
}

pub struct StoreService {
    pub store_repo: StoreRepository,
    pub checkout_repo: CheckoutRepository,
    pub store_invoice_repo: StoreInvoiceRepository,
}

impl StoreService {
    /// The stores are well-formed and no invoice dangles: every linking row
    /// names a checkout that the checkout store holds.
    pub open spec fn wf(&self) -> bool {
        &&& self.store_repo.wf()
        &&& self.checkout_repo.wf()
        &&& forall|i: int|
            #![trigger self.store_invoice_repo@[i]]
            0 <= i < self.store_invoice_repo@.len() ==> self.checkout_repo.contains_uuid(
                self.store_invoice_repo@[i].checkout_uuid@,
            )
    }

    pub fn new(
        store_repo: StoreRepository,
        checkout_repo: CheckoutRepository,
        store_invoice_repo: StoreInvoiceRepository,
    ) -> (r: Self)
        ensures
            r.store_repo == store_repo,
            r.checkout_repo == checkout_repo,
            r.store_invoice_repo == store_invoice_repo,
    {
        StoreService { store_repo, store_invoice_repo, checkout_repo }
    }

    /// Create a checkout through the orchestrator and, only once that commit
    /// succeeded, persist the store-scoped linking record carrying the
    /// caller's opaque metadata. A failed checkout writes nothing anywhere.
    pub fn create_invoice(
        &mut self,
        store_uuid: &String,
        metadata: Option<String>,
        checkout_data: CreateCheckoutService,
        checkout_service: CheckoutService,
        payment_request: Option<String>,
        bitcoin_address: Option<String>,
        checkout_uuid: String,
        invoice_uuid: String,
        now: u64,
    ) -> (r: Result<CreateStoreInvoiceResponse, OrchestrationError>)
        requires
            old(self).wf(),
            !old(self).checkout_repo.contains_uuid(checkout_uuid@),
        ensures
            final(self).wf(),
            final(self).store_repo == old(self).store_repo,
            r is Err ==> *final(self) == *old(self),
            (r matches Err(e) && e == OrchestrationError::RailFailure) <==> !rails_ok(
                payment_request,
                bitcoin_address,
            ),
            (r matches Err(e) && e == OrchestrationError::RenderFailure) <==> (rails_ok(
                payment_request,
                bitcoin_address,
            ) && !renders_ok(payment_request, bitcoin_address)),
            (r is Ok) <==> (rails_ok(payment_request, bitcoin_address) && renders_ok(
                payment_request,
                bitcoin_address,
            )),
            r matches Ok(resp) ==> {
                &&& final(self).checkout_repo@ == old(self).checkout_repo@.push(resp.checkout)
                &&& final(self).store_invoice_repo@ == old(self).store_invoice_repo@.push(
                    resp.invoice,
                )
                &&& resp.invoice.checkout_uuid@ == resp.checkout.uuid@
                &&& resp.invoice.store_uuid@ == store_uuid@
                &&& resp.invoice.uuid@ == invoice_uuid@
                &&& resp.invoice.metadata == metadata
                &&& resp.checkout.uuid@ == checkout_uuid@
                &&& resp.checkout.user_uuid@ == checkout_data.user_uuid@
                &&& resp.checkout.amount == checkout_data.amount
                &&& resp.checkout.expiry_seconds == checkout_data.expiry
                &&& resp.checkout.status == CheckoutStatus::New
                &&& resp.checkout.created_at == now
                &&& resp.checkout.rails_paired()
                &&& payment_request matches Some(pr) && bitcoin_address matches Some(addr) && {
                    &&& resp.checkout.bitcoin_address@ == addr@
                    &&& resp.checkout.payment_request@ == pr@
                    &&& resp.qr_unified@ == qr_of(unified_descriptor(addr@, pr@))
                    &&& resp.qr_bitcoin@ == qr_of(addr@)
                    &&& resp.qr_ln@ == qr_of(pr@)
                    &&& resp.qr_unified@.len() > 0 && resp.qr_bitcoin@.len() > 0
                        && resp.qr_ln@.len() > 0
                }
            },
    {
        let checkout = match checkout_service.create(
            checkout_data,
            payment_request,
            bitcoin_address,
            &mut self.checkout_repo,
            checkout_uuid,
            now,
        ) {
            Ok(c) => c,
            Err(e) => {
                return Err(e);
            },
        };

        let create_invoice = CreateStoreInvoice {
            checkout_uuid: checkout.checkout.uuid.clone(),
            store_uuid: store_uuid.clone(),
            metadata,
        };
        let invoice = self.store_invoice_repo.create(create_invoice, invoice_uuid, now);

        proof {
            assert(self.checkout_repo@ == old(self).checkout_repo@.push(checkout.checkout));
            assert forall|i: int|
                0 <= i < self.store_invoice_repo@.len() implies self.checkout_repo.contains_uuid(
                #[trigger] self.store_invoice_repo@[i].checkout_uuid@,
            ) by {
                if i < old(self).store_invoice_repo@.len() {
                    let target = old(self).store_invoice_repo@[i].checkout_uuid@;
                    let w = choose|k: int|
                        0 <= k < old(self).checkout_repo@.len() && #[trigger] old(
                            self,
                        ).checkout_repo@[k].uuid@ == target;
                    assert(self.checkout_repo@[w].uuid@ == target);
                } else {
                    let last = self.checkout_repo@.len() - 1;
                    assert(self.checkout_repo@[last].uuid@ == checkout.checkout.uuid@);
                }
            }
        }

        Ok(CreateStoreInvoiceResponse {
            invoice,
            checkout: checkout.checkout,
            qr_unified: checkout.qr_unified,
            qr_bitcoin: checkout.qr_bitcoin,
            qr_ln: checkout.qr_ln,
        })
    }
}

} // verus!
