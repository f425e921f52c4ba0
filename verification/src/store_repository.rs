//! The store and store-invoice record stores. Lookups are ownership-scoped:
//! a row is visible only to its owning user and only while not soft-deleted.

use vstd::prelude::*;
use crate::models::Store;
use crate::models::StoreInvoice;

verus! {

pub struct StoreRepository {
    pub rows: Vec<Store>,
}

impl View for StoreRepository {
    type V = Seq<Store>;

    open spec fn view(&self) -> Seq<Store> {
        self.rows@
    }
}

/// Whether `row` is visible to `user`: owned by them and not soft-deleted.
pub open spec fn store_visible(row: Store, user: Seq<char>) -> bool {
    row.user_uuid@ == user && row.deleted_at is None
}

/// The rows of `rows` visible to `user`, in storage order.
pub open spec fn visible_stores(rows: Seq<Store>, user: Seq<char>) -> Seq<Store>
    decreases rows.len(),
{
    if rows.len() == 0 {
        Seq::empty()
    } else {
        let rest = visible_stores(rows.drop_last(), user);
        if store_visible(rows.last(), user) {
            rest.push(rows.last())
        } else {
            rest
        }
    }
}

impl StoreRepository {
    /// No identifier repeats.
    pub open spec fn wf(&self) -> bool {
        forall|i: int, j: int|
            #![trigger self@[i].uuid, self@[j].uuid]
            0 <= i < j < self@.len() ==> self@[i].uuid@ != self@[j].uuid@
    }

    pub open spec fn contains_uuid(&self, uuid: Seq<char>) -> bool {
        exists|i: int| 0 <= i < self@.len() && #[trigger] self@[i].uuid@ == uuid
    }

    pub fn new() -> (r: Self)
        ensures
            r.wf(),
            r@ == Seq::<Store>::empty(),
    {
        let r = StoreRepository { rows: Vec::new() };
        proof {
            assert(r@ =~= Seq::<Store>::empty());
        }
        r
    }

    pub fn create(&mut self, user_uuid: &String, name: &String, uuid: String, now: u64) -> (r:
        Store)
        requires
            old(self).wf(),
            !old(self).contains_uuid(uuid@),
        ensures
            final(self).wf(),
            final(self)@ == old(self)@.push(r),
            r.uuid@ == uuid@,
            r.user_uuid@ == user_uuid@,
            r.name@ == name@,
            r.created_at == now,
            r.updated_at == now,
            r.deleted_at is None,
    {
        let row = Store {
            uuid,
            user_uuid: user_uuid.clone(),
            name: name.clone(),
            created_at: now,
            updated_at: now,
            deleted_at: None,
        };
        let ret = row.snapshot();
        self.rows.push(row);
        ret
    }

    /// All stores of `user_uuid` that are not soft-deleted, in storage order.
    pub fn get_all(&self, user_uuid: &String) -> (r: Vec<Store>)
        ensures
            r@ == visible_stores(self@, user_uuid@),
    {
        let mut out: Vec<Store> = Vec::new();
        let n = self.rows.len();
        let mut i: usize = 0;
        proof {
            assert(self@.subrange(0, 0) =~= Seq::<Store>::empty());
        }
        while i < n
            invariant
                i <= n,
                n == self@.len(),
                out@ == visible_stores(self@.subrange(0, i as int), user_uuid@),
            decreases n - i,
        {
            proof {
                assert(self@.subrange(0, i + 1).drop_last() =~= self@.subrange(0, i as int));
                assert(self@.subrange(0, i + 1).last() == self@[i as int]);
            }
            if self.rows[i].deleted_at.is_none() && self.rows[i].user_uuid == *user_uuid {
                let row = self.rows[i].snapshot();
                out.push(row);
            }
            i = i + 1;
        }
        proof {
            assert(self@.subrange(0, n as int) =~= self@);
        }
        out
    }

    /// The store with identifier `store_uuid`, if it exists, is owned by
    /// `user_uuid`, and is not soft-deleted. A lookup that reaches another
    /// owner's store reports the same absence as a missing one.
    pub fn get_by_uuid(&self, user_uuid: &String, store_uuid: &String) -> (r: Option<Store>)
        ensures
            match r {
                Some(s) => self@.contains(s) && s.uuid@ == store_uuid@ && store_visible(
                    s,
                    user_uuid@,
                ),
                None => forall|i: int|
                    #![trigger self@[i]]
                    0 <= i < self@.len() ==> !(self@[i].uuid@ == store_uuid@ && store_visible(
                        self@[i],
                        user_uuid@,
                    )),
            },
    {
        let n = self.rows.len();
        let mut i: usize = 0;
        while i < n
            invariant
                i <= n,
                n == self@.len(),
                forall|k: int|
                    #![trigger self@[k]]
                    0 <= k < i ==> !(self@[k].uuid@ == store_uuid@ && store_visible(
                        self@[k],
                        user_uuid@,
                    )),
            decreases n - i,
        {
            if self.rows[i].uuid == *store_uuid && self.rows[i].user_uuid == *user_uuid
                && self.rows[i].deleted_at.is_none() {
                return Some(self.rows[i].snapshot());
            }
            i = i + 1;
        }
        None
    }

    /// Rename the store visible to `user_uuid` under `store_uuid` and stamp
    /// the update time; the renamed row comes back, or nothing is touched.
    pub fn update(&mut self, user_uuid: &String, store_uuid: &String, name: &String, now: u64) -> (r:
        Option<Store>)
        requires
            old(self).wf(),
        ensures
            final(self).wf(),
            r is None ==> *final(self) == *old(self) && (forall|i: int|
                #![trigger old(self)@[i]]
                0 <= i < old(self)@.len() ==> !(old(self)@[i].uuid@ == store_uuid@ && store_visible(
                    old(self)@[i],
                    user_uuid@,
                ))),
            r matches Some(s) ==> exists|i: int|
                {
                    &&& 0 <= i < old(self)@.len()
                    &&& #[trigger] old(self)@[i].uuid@ == store_uuid@
                    &&& store_visible(old(self)@[i], user_uuid@)
                    &&& s == renamed_store(old(self)@[i], *name, now)
                    &&& final(self)@ == old(self)@.update(i, s)
                },
    {
        let n = self.rows.len();
        let mut i: usize = 0;
        while i < n
            invariant
                i <= n,
                n == self@.len(),
                *self == *old(self),
                old(self).wf(),
                forall|k: int|
                    #![trigger self@[k]]
                    0 <= k < i ==> !(self@[k].uuid@ == store_uuid@ && store_visible(
                        self@[k],
                        user_uuid@,
                    )),
            decreases n - i,
        {
            if self.rows[i].uuid == *store_uuid && self.rows[i].user_uuid == *user_uuid
                && self.rows[i].deleted_at.is_none() {
                let row = Store {
                    uuid: self.rows[i].uuid.clone(),
                    user_uuid: self.rows[i].user_uuid.clone(),
                    name: name.clone(),
                    created_at: self.rows[i].created_at,
                    updated_at: now,
                    deleted_at: self.rows[i].deleted_at,
                };
                let ret = row.snapshot();
                proof {
                    assert(row == renamed_store(old(self)@[i as int], *name, now));
                }
                self.rows[i] = row;
                proof {
                    assert(forall|a: int|
                        #![trigger self@[a].uuid]
                        0 <= a < self@.len() ==> self@[a].uuid@ == old(self)@[a].uuid@);
                }
                return Some(ret);
            }
            i = i + 1;
        }
        None
    }

    /// Soft-delete the store visible to `user_uuid` under `store_uuid`:
    /// the row stays, stamped with the deletion time, and every later
    /// ownership-scoped lookup treats it as absent.
    pub fn delete(&mut self, user_uuid: &String, store_uuid: &String, now: u64) -> (found: bool)
        requires
            old(self).wf(),
        ensures
            final(self).wf(),
            !found ==> *final(self) == *old(self) && (forall|i: int|
                #![trigger old(self)@[i]]
                0 <= i < old(self)@.len() ==> !(old(self)@[i].uuid@ == store_uuid@ && store_visible(
                    old(self)@[i],
                    user_uuid@,
                ))),
            found ==> exists|i: int|
                {
                    &&& 0 <= i < old(self)@.len()
                    &&& #[trigger] old(self)@[i].uuid@ == store_uuid@
                    &&& store_visible(old(self)@[i], user_uuid@)
                    &&& final(self)@ == old(self)@.update(
                        i,
                        soft_deleted_store(old(self)@[i], now),
                    )
                },
    {
        let n = self.rows.len();
        let mut i: usize = 0;
        while i < n
            invariant
                i <= n,
                n == self@.len(),
                *self == *old(self),
                old(self).wf(),
                forall|k: int|
                    #![trigger self@[k]]
                    0 <= k < i ==> !(self@[k].uuid@ == store_uuid@ && store_visible(
                        self@[k],
                        user_uuid@,
                    )),
            decreases n - i,
        {
            if self.rows[i].uuid == *store_uuid && self.rows[i].user_uuid == *user_uuid
                && self.rows[i].deleted_at.is_none() {
                let row = Store {
                    uuid: self.rows[i].uuid.clone(),
                    user_uuid: self.rows[i].user_uuid.clone(),
                    name: self.rows[i].name.clone(),
                    created_at: self.rows[i].created_at,
                    updated_at: self.rows[i].updated_at,
                    deleted_at: Some(now),
                };
                proof {
                    assert(row == soft_deleted_store(old(self)@[i as int], now));
                }
                self.rows[i] = row;
                proof {
                    assert(forall|a: int|
                        #![trigger self@[a].uuid]
                        0 <= a < self@.len() ==> self@[a].uuid@ == old(self)@[a].uuid@);
                }
                return true;
            }
            i = i + 1;
        }
        false
    }

    /// Remove the row under `store_uuid` owned by `user_uuid` outright,
    /// whether or not it was soft-deleted.
    pub fn hard_delete(&mut self, user_uuid: &String, store_uuid: &String) -> (found: bool)
        requires
            old(self).wf(),
        ensures
            final(self).wf(),
            !found ==> *final(self) == *old(self) && (forall|i: int|
                #![trigger old(self)@[i]]
                0 <= i < old(self)@.len() ==> !(old(self)@[i].uuid@ == store_uuid@ && old(
                    self,
                )@[i].user_uuid@ == user_uuid@)),
            found ==> exists|i: int|
                {
                    &&& 0 <= i < old(self)@.len()
                    &&& #[trigger] old(self)@[i].uuid@ == store_uuid@
                    &&& old(self)@[i].user_uuid@ == user_uuid@
                    &&& final(self)@ == old(self)@.remove(i)
                },
    {
        let n = self.rows.len();
        let mut i: usize = 0;
        while i < n
            invariant
                i <= n,
                n == self@.len(),
                *self == *old(self),
                old(self).wf(),
                forall|k: int|
                    #![trigger self@[k]]
                    0 <= k < i ==> !(self@[k].uuid@ == store_uuid@ && self@[k].user_uuid@
                        == user_uuid@),
            decreases n - i,
        {
            if self.rows[i].uuid == *store_uuid && self.rows[i].user_uuid == *user_uuid {
                self.rows.remove(i);
                proof {
                    assert(forall|a: int, b: int|
                        #![trigger self@[a].uuid, self@[b].uuid]
                        0 <= a < b < self@.len() ==> self@[a].uuid@ != self@[b].uuid@);
                }
                return true;
            }
            i = i + 1;
        }
        false
    }
}

/// The row as it stands with its name replaced and the update time stamped.
pub open spec fn renamed_store(s: Store, name: String, now: u64) -> Store {
    Store {
        uuid: s.uuid,
        user_uuid: s.user_uuid,
        name,
        created_at: s.created_at,
        updated_at: now,
        deleted_at: s.deleted_at,
    }
}

/// The row as it stands with the deletion time stamped.
pub open spec fn soft_deleted_store(s: Store, now: u64) -> Store {
    Store {
        uuid: s.uuid,
        user_uuid: s.user_uuid,
        name: s.name,
        created_at: s.created_at,
        updated_at: s.updated_at,
        deleted_at: Some(now),
    }
}

pub struct StoreInvoiceRepository {
    pub rows: Vec<StoreInvoice>,
}

impl View for StoreInvoiceRepository {
    type V = Seq<StoreInvoice>;

    open spec fn view(&self) -> Seq<StoreInvoice> {
        self.rows@
    }
}

/// What the composer hands the store to link a committed checkout to a store.
pub struct CreateStoreInvoice {
    pub store_uuid: String,
    pub checkout_uuid: String,
    pub metadata: Option<String>,
}

impl StoreInvoiceRepository {
    pub fn new() -> (r: Self)
        ensures
            r@ == Seq::<StoreInvoice>::empty(),
    {
        let r = StoreInvoiceRepository { rows: Vec::new() };
        proof {
            assert(r@ =~= Seq::<StoreInvoice>::empty());
        }
        r
    }

    /// Persist one linking row. The caller only composes this after the
    /// checkout commit succeeded, so no invoice dangles.
    pub fn create(&mut self, invoice: CreateStoreInvoice, uuid: String, now: u64) -> (r:
        StoreInvoice)
        ensures
            final(self)@ == old(self)@.push(r),
            r.uuid@ == uuid@,
            r.store_uuid@ == invoice.store_uuid@,
            r.checkout_uuid@ == invoice.checkout_uuid@,
            r.metadata == invoice.metadata,
            r.created_at == now,
            r.updated_at == now,
            r.deleted_at is None,
    {
        let row = StoreInvoice {
            uuid,
            store_uuid: invoice.store_uuid,
            checkout_uuid: invoice.checkout_uuid,
            metadata: invoice.metadata,
            created_at: now,
            updated_at: now,
            deleted_at: None,
        };
        let ret = row.snapshot();
        self.rows.push(row);
        ret
    }
}

} // verus!
