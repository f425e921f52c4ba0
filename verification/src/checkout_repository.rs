//! The checkout record store. Its invariant is the data-model rule the whole
//! pipeline exists to protect: every stored checkout carries both payment
//! rails, and identifiers are unique.

use vstd::prelude::*;
use crate::models::Checkout;
use crate::models::CheckoutStatus;

verus! {

/// What the orchestrator hands the store for the single happy-path write.
pub struct CreateCheckout {
    pub user_uuid: String,
    pub amount: i64,
    pub bitcoin_address: String,
    pub payment_request: String,
    pub expiry_seconds: i64,
}

pub struct CheckoutRepository {
    pub rows: Vec<Checkout>,
}

impl View for CheckoutRepository {
    type V = Seq<Checkout>;

    open spec fn view(&self) -> Seq<Checkout> {
        self.rows@
    }
}

impl CheckoutRepository {
    /// Every row carries both rails, and no identifier repeats.
    pub open spec fn wf(&self) -> bool {
        &&& forall|i: int| #![trigger self@[i]] 0 <= i < self@.len() ==> self@[i].rails_paired()
        &&& forall|i: int, j: int|
            #![trigger self@[i].uuid, self@[j].uuid]
            0 <= i < j < self@.len() ==> self@[i].uuid@ != self@[j].uuid@
    }

    pub open spec fn contains_uuid(&self, uuid: Seq<char>) -> bool {
        exists|i: int| 0 <= i < self@.len() && #[trigger] self@[i].uuid@ == uuid
    }

    pub fn new() -> (r: Self)
        ensures
            r.wf(),
            r@ == Seq::<Checkout>::empty(),
    {
        let r = CheckoutRepository { rows: Vec::new() };
        proof {
            assert(r@ =~= Seq::<Checkout>::empty());
        }
        r
    }

    /// Persist exactly one new row in state `New`. The caller has already
    /// secured both rail values; a checkout missing either is never written.
    pub fn create(&mut self, req: CreateCheckout, uuid: String, now: u64) -> (r: Checkout)
        requires
            old(self).wf(),
            !old(self).contains_uuid(uuid@),
            req.bitcoin_address@.len() > 0,
            req.payment_request@.len() > 0,
        ensures
            final(self).wf(),
            final(self)@ == old(self)@.push(r),
            r.uuid@ == uuid@,
            r.user_uuid@ == req.user_uuid@,
            r.amount == req.amount,
            r.status == CheckoutStatus::New,
            r.bitcoin_address@ == req.bitcoin_address@,
            r.payment_request@ == req.payment_request@,
            r.expiry_seconds == req.expiry_seconds,
            r.created_at == now,
            r.updated_at == now,
            r.expired_at is None,
            r.deleted_at is None,
    {
        let row = Checkout {
            uuid,
            user_uuid: req.user_uuid,
            amount: req.amount,
            status: CheckoutStatus::New,
            bitcoin_address: req.bitcoin_address,
            payment_request: req.payment_request,
            expiry_seconds: req.expiry_seconds,
            created_at: now,
            updated_at: now,
            expired_at: None,
            deleted_at: None,
        };
        let ret = Checkout {
            uuid: row.uuid.clone(),
            user_uuid: row.user_uuid.clone(),
            amount: row.amount,
            status: row.status,
            bitcoin_address: row.bitcoin_address.clone(),
            payment_request: row.payment_request.clone(),
            expiry_seconds: row.expiry_seconds,
            created_at: row.created_at,
            updated_at: row.updated_at,
            expired_at: row.expired_at,
            deleted_at: row.deleted_at,
        };
        proof {
            assert(ret == row);
        }
        self.rows.push(row);
        ret
    }

    pub fn get_by_uuid(&self, uuid: &String) -> (r: Option<&Checkout>)
        ensures
            match r {
                Some(c) => self.contains_uuid(uuid@) && c.uuid@ == uuid@ && self@.contains(*c),
                None => !self.contains_uuid(uuid@),
            },
    {
        let n = self.rows.len();
        let mut i: usize = 0;
        while i < n
            invariant
                i <= n,
                n == self@.len(),
                forall|k: int| #![trigger self@[k].uuid] 0 <= k < i ==> self@[k].uuid@ != uuid@,
            decreases n - i,
        {
            if self.rows[i].uuid == *uuid {
                return Some(&self.rows[i]);
            }
            i = i + 1;
        }
        None
    }

    /// Replace the status of the row with identifier `uuid`, leaving every
    /// other field and row unchanged; reports whether a row was found. Status
    /// transitions after creation belong to the settlement watcher.
    pub fn set_status(&mut self, uuid: &String, status: CheckoutStatus) -> (found: bool)
        requires
            old(self).wf(),
        ensures
            final(self).wf(),
            found == old(self).contains_uuid(uuid@),
            !found ==> *final(self) == *old(self),
            found ==> exists|i: int|
                0 <= i < old(self)@.len() && #[trigger] old(self)@[i].uuid@ == uuid@
                    && final(self)@ == old(self)@.update(i, with_status(old(self)@[i], status)),
    {
        let n = self.rows.len();
        let mut i: usize = 0;
        while i < n
            invariant
                i <= n,
                n == self@.len(),
                *self == *old(self),
                old(self).wf(),
                forall|k: int| #![trigger self@[k].uuid] 0 <= k < i ==> self@[k].uuid@ != uuid@,
            decreases n - i,
        {
            if self.rows[i].uuid == *uuid {
                let row = Checkout {
                    uuid: self.rows[i].uuid.clone(),
                    user_uuid: self.rows[i].user_uuid.clone(),
                    amount: self.rows[i].amount,
                    status,
                    bitcoin_address: self.rows[i].bitcoin_address.clone(),
                    payment_request: self.rows[i].payment_request.clone(),
                    expiry_seconds: self.rows[i].expiry_seconds,
                    created_at: self.rows[i].created_at,
                    updated_at: self.rows[i].updated_at,
                    expired_at: self.rows[i].expired_at,
                    deleted_at: self.rows[i].deleted_at,
                };
                proof {
                    assert(row == with_status(old(self)@[i as int], status));
                }
                self.rows[i] = row;
                proof {
                    assert(forall|a: int|
                        #![trigger self@[a].uuid]
                        0 <= a < self@.len() ==> self@[a].uuid@ == old(self)@[a].uuid@);
                    assert(forall|a: int|
                        #![trigger self@[a]]
                        0 <= a < self@.len() ==> self@[a].rails_paired());
                }
                return true;
            }
            i = i + 1;
        }
        false
    }
}

/// Rail pairing: in a well-formed store, every persisted checkout carries a
/// non-empty on-chain address and a non-empty payment request — a record with
/// only one rail does not exist.
pub proof fn lemma_rail_pairing(repo: CheckoutRepository)
    requires
        repo.wf(),
    ensures
        forall|i: int|
            #![trigger repo@[i]]
            0 <= i < repo@.len() ==> repo@[i].bitcoin_address@.len() > 0
                && repo@[i].payment_request@.len() > 0,
{
}

/// The row as it stands with only its status replaced.
pub open spec fn with_status(c: Checkout, status: CheckoutStatus) -> Checkout {
    Checkout {
        uuid: c.uuid,
        user_uuid: c.user_uuid,
        amount: c.amount,
        status,
        bitcoin_address: c.bitcoin_address,
        payment_request: c.payment_request,
        expiry_seconds: c.expiry_seconds,
        created_at: c.created_at,
        updated_at: c.updated_at,
        expired_at: c.expired_at,
        deleted_at: c.deleted_at,
    }
}

} // verus!
