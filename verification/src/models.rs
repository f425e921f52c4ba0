//! Entity records. Timestamps are seconds since the Unix epoch; a soft-deleted
//! row keeps its data and carries the deletion time in `deleted_at`.

use vstd::prelude::*;

verus! {

/// Lifecycle of a checkout. The orchestrator only ever creates a checkout in
/// state `New`; every later transition belongs to the settlement watcher.
#[derive(Clone, Copy, Debug, PartialEq, Eq, Structural)]
pub enum CheckoutStatus {
    New,
    PendingConfirmation,
    Paid,
    Overpaid,
    Underpaid,
    Expired,
}

impl CheckoutStatus {
    /// The stable machine-readable label of the status.
    pub fn label(&self) -> (r: String)
        ensures
            r@ == self.label_spec(),
    {
        match self {
            CheckoutStatus::New => "new".to_owned(),
            CheckoutStatus::PendingConfirmation => "pending_confirmation".to_owned(),
            CheckoutStatus::Paid => "paid".to_owned(),
            CheckoutStatus::Overpaid => "overpaid".to_owned(),
            CheckoutStatus::Underpaid => "underpaid".to_owned(),
            CheckoutStatus::Expired => "expired".to_owned(),
        }
    }

    pub open spec fn label_spec(&self) -> Seq<char> {
        match self {
            CheckoutStatus::New => "new"@,
            CheckoutStatus::PendingConfirmation => "pending_confirmation"@,
            CheckoutStatus::Paid => "paid"@,
            CheckoutStatus::Overpaid => "overpaid"@,
            CheckoutStatus::Underpaid => "underpaid"@,
            CheckoutStatus::Expired => "expired"@,
        }
    }
}

/// A single payment request: one on-chain address and one Lightning payment
/// request, recorded together or not at all.
#[derive(Clone, Debug)]
pub struct Checkout {
    pub uuid: String,
    pub user_uuid: String,
    pub amount: i64,
    pub status: CheckoutStatus,
    pub bitcoin_address: String,
    pub payment_request: String,
    pub expiry_seconds: i64,
    pub created_at: u64,
    pub updated_at: u64,
    pub expired_at: Option<u64>,
    pub deleted_at: Option<u64>,
}

impl Checkout {
    /// Both payment rails are populated: no checkout exists with only one.
    pub open spec fn rails_paired(&self) -> bool {
        self.bitcoin_address@.len() > 0 && self.payment_request@.len() > 0
    }

    /// An owned copy equal to the row, field for field.
    pub fn snapshot(&self) -> (r: Checkout)
        ensures
            r == *self,
    {
        Checkout {
            uuid: self.uuid.clone(),
            user_uuid: self.user_uuid.clone(),
            amount: self.amount,
            status: self.status,
            bitcoin_address: self.bitcoin_address.clone(),
            payment_request: self.payment_request.clone(),
            expiry_seconds: self.expiry_seconds,
            created_at: self.created_at,
            updated_at: self.updated_at,
            expired_at: self.expired_at,
            deleted_at: self.deleted_at,
        }
    }
}

#[derive(Clone, Debug)]
pub struct Store {
    pub uuid: String,
    pub user_uuid: String,
    pub name: String,
    pub created_at: u64,
    pub updated_at: u64,
    pub deleted_at: Option<u64>,
}

/// Links a checkout to a store; `metadata` is an opaque caller-supplied blob.
#[derive(Clone, Debug)]
pub struct StoreInvoice {
    pub uuid: String,
    pub store_uuid: String,
    pub checkout_uuid: String,
    pub metadata: Option<String>,
    pub created_at: u64,
    pub updated_at: u64,
    pub deleted_at: Option<u64>,
}

impl Store {
    /// An owned copy equal to the row, field for field.
    pub fn snapshot(&self) -> (r: Store)
        ensures
            r == *self,
    {
        Store {
            uuid: self.uuid.clone(),
            user_uuid: self.user_uuid.clone(),
            name: self.name.clone(),
            created_at: self.created_at,
            updated_at: self.updated_at,
            deleted_at: self.deleted_at,
        }
    }
}

impl StoreInvoice {
    /// An owned copy equal to the row, field for field.
    pub fn snapshot(&self) -> (r: StoreInvoice)
        ensures
            r == *self,
    {
        StoreInvoice {
            uuid: self.uuid.clone(),
            store_uuid: self.store_uuid.clone(),
            checkout_uuid: self.checkout_uuid.clone(),
            metadata: copy_opt_string(&self.metadata),
            created_at: self.created_at,
            updated_at: self.updated_at,
            deleted_at: self.deleted_at,
        }
    }
}

/// An owned copy of an optional string, equal to the value copied.
pub fn copy_opt_string(s: &Option<String>) -> (r: Option<String>)
    ensures
        r == *s,
{
    match s {
        Some(v) => Some(v.clone()),
        None => None,
    }
}

#[derive(Clone, Debug)]
pub struct User {
    pub uuid: String,
    pub email: String,
    pub password: String,
    pub npub: Option<String>,
    pub identifier: Option<String>,
    pub created_at: u64,
    pub updated_at: u64,
    pub last_login_at: u64,
    pub deleted_at: Option<u64>,
}

impl User {
    /// An owned copy equal to the row, field for field.
    pub fn snapshot(&self) -> (r: User)
        ensures
            r == *self,
    {
        User {
            uuid: self.uuid.clone(),
            email: self.email.clone(),
            password: self.password.clone(),
            npub: copy_opt_string(&self.npub),
            identifier: copy_opt_string(&self.identifier),
            created_at: self.created_at,
            updated_at: self.updated_at,
            last_login_at: self.last_login_at,
            deleted_at: self.deleted_at,
        }
    }
}

/// A public donation page; `slug` is its globally unique human-readable key.
#[derive(Clone, Debug)]
pub struct DonationPage {
    pub uuid: String,
    pub user_uuid: String,
    pub slug: String,
    pub name: String,
    pub description: String,
}

impl DonationPage {
    /// An owned copy equal to the row, field for field.
    pub fn snapshot(&self) -> (r: DonationPage)
        ensures
            r == *self,
    {
        DonationPage {
            uuid: self.uuid.clone(),
            user_uuid: self.user_uuid.clone(),
            slug: self.slug.clone(),
            name: self.name.clone(),
            description: self.description.clone(),
        }
    }
}

#[derive(Clone, Debug)]
pub struct NodelessAddress {
    pub uuid: String,
    pub user_uuid: String,
    pub handle: String,
    pub npub: Option<String>,
    pub price: i64,
    pub created_at: u64,
    pub updated_at: u64,
    pub deleted_at: Option<u64>,
}

impl NodelessAddress {
    /// An owned copy equal to the row, field for field.
    pub fn snapshot(&self) -> (r: NodelessAddress)
        ensures
            r == *self,
    {
        NodelessAddress {
            uuid: self.uuid.clone(),
            user_uuid: self.user_uuid.clone(),
            handle: self.handle.clone(),
            npub: copy_opt_string(&self.npub),
            price: self.price,
            created_at: self.created_at,
            updated_at: self.updated_at,
            deleted_at: self.deleted_at,
        }
    }
}

} // verus!
