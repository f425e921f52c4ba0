//! The nodeless-address record store: handles users claim for receiving
//! payments, each with an optional public key and a price.

use vstd::prelude::*;
use crate::models::NodelessAddress;
use crate::models::copy_opt_string;

verus! {

pub struct NodelessAddressRepository {
    pub rows: Vec<NodelessAddress>,
}

impl View for NodelessAddressRepository {
    type V = Seq<NodelessAddress>;

    open spec fn view(&self) -> Seq<NodelessAddress> {
        self.rows@
    }
}

pub struct CreateNodelessAddress {
    pub user_uuid: String,
    pub handle: String,
    pub npub: Option<String>,
    pub price: i64,
}

pub struct UpdateNodelessAddress {
    pub npub: Option<String>,
    pub price: Option<i64>,
}

/// The row as it stands with its public key replaced and, when a new price
/// was supplied, its price.
pub open spec fn updated_address(
    row: NodelessAddress,
    npub: Option<String>,
    price: Option<i64>,
) -> NodelessAddress {
    NodelessAddress {
        uuid: row.uuid,
        user_uuid: row.user_uuid,
        handle: row.handle,
        npub,
        price: match price {
            Some(p) => p,
            None => row.price,
        },
        created_at: row.created_at,
        updated_at: row.updated_at,
        deleted_at: row.deleted_at,
    }
}

/// The row as it stands with the deletion time stamped.
pub open spec fn soft_deleted_address(row: NodelessAddress, now: u64) -> NodelessAddress {
    NodelessAddress {
        uuid: row.uuid,
        user_uuid: row.user_uuid,
        handle: row.handle,
        npub: row.npub,
        price: row.price,
        created_at: row.created_at,
        updated_at: row.updated_at,
        deleted_at: Some(now),
    }
}

impl NodelessAddressRepository {
    /// No identifier repeats.
    pub open spec fn wf(&self) -> bool {
        forall|i: int, j: int|
            #![trigger self@[i].uuid, self@[j].uuid]
            0 <= i < j < self@.len() ==> self@[i].uuid@ != self@[j].uuid@
    }

    pub open spec fn contains_uuid(&self, uuid: Seq<char>) -> bool {
        exists|i: int| 0 <= i < self@.len() && #[trigger] self@[i].uuid@ == uuid
    }

    pub fn new() -> (r: Self)
        ensures
            r.wf(),
            r@ == Seq::<NodelessAddress>::empty(),
    {
        let r = NodelessAddressRepository { rows: Vec::new() };
        proof {
            assert(r@ =~= Seq::<NodelessAddress>::empty());
        }
        r
    }

    pub fn create(&mut self, addr: CreateNodelessAddress, uuid: String, now: u64) -> (r:
        NodelessAddress)
        requires
            old(self).wf(),
            !old(self).contains_uuid(uuid@),
        ensures
            final(self).wf(),
            final(self)@ == old(self)@.push(r),
            r.uuid@ == uuid@,
            r.user_uuid@ == addr.user_uuid@,
            r.handle@ == addr.handle@,
            r.npub == addr.npub,
            r.price == addr.price,
            r.created_at == now,
            r.updated_at == now,
            r.deleted_at is None,
    {
        let row = NodelessAddress {
            uuid,
            user_uuid: addr.user_uuid,
            handle: addr.handle,
            npub: addr.npub,
            price: addr.price,
            created_at: now,
            updated_at: now,
            deleted_at: None,
        };
        let ret = row.snapshot();
        self.rows.push(row);
        ret
    }

    /// The first address stored under `handle`.
    pub fn get_by_handle(&self, handle: &String) -> (r: Option<NodelessAddress>)
        ensures
            match r {
                Some(a) => exists|i: int|
                    0 <= i < self@.len() && #[trigger] self@[i] == a && a.handle@ == handle@,
                None => forall|i: int|
                    #![trigger self@[i].handle]
                    0 <= i < self@.len() ==> self@[i].handle@ != handle@,
            },
    {
        let n = self.rows.len();
        let mut i: usize = 0;
        while i < n
            invariant
                i <= n,
                n == self@.len(),
                forall|k: int|
                    #![trigger self@[k].handle]
                    0 <= k < i ==> self@[k].handle@ != handle@,
            decreases n - i,
        {
            if self.rows[i].handle == *handle {
                return Some(self.rows[i].snapshot());
            }
            i = i + 1;
        }
        None
    }

    pub fn get_by_uuid(&self, uuid: &String) -> (r: Option<NodelessAddress>)
        ensures
            match r {
                Some(a) => exists|i: int|
                    0 <= i < self@.len() && #[trigger] self@[i] == a && a.uuid@ == uuid@,
                None => !self.contains_uuid(uuid@),
            },
    {
        let n = self.rows.len();
        let mut i: usize = 0;
        while i < n
            invariant
                i <= n,
                n == self@.len(),
                forall|k: int| #![trigger self@[k].uuid] 0 <= k < i ==> self@[k].uuid@ != uuid@,
            decreases n - i,
        {
            if self.rows[i].uuid == *uuid {
                return Some(self.rows[i].snapshot());
            }
            i = i + 1;
        }
        None
    }

    /// Replace the public key of the row under `uuid` and, when a new price
    /// is supplied, its price; the rewritten row comes back.
    pub fn update(&mut self, uuid: &String, data: UpdateNodelessAddress) -> (r: Option<
        NodelessAddress,
    >)
        requires
            old(self).wf(),
        ensures
            final(self).wf(),
            r is None ==> *final(self) == *old(self) && !old(self).contains_uuid(uuid@),
            r matches Some(a) ==> exists|i: int|
                {
                    &&& 0 <= i < old(self)@.len()
                    &&& #[trigger] old(self)@[i].uuid@ == uuid@
                    &&& a == updated_address(old(self)@[i], data.npub, data.price)
                    &&& final(self)@ == old(self)@.update(i, a)
                },
    {
        let n = self.rows.len();
        let mut i: usize = 0;
        while i < n
            invariant
                i <= n,
                n == self@.len(),
                *self == *old(self),
                old(self).wf(),
                forall|k: int| #![trigger self@[k].uuid] 0 <= k < i ==> self@[k].uuid@ != uuid@,
            decreases n - i,
        {
            if self.rows[i].uuid == *uuid {
                let price = match data.price {
                    Some(p) => p,
                    None => self.rows[i].price,
                };
                let row = NodelessAddress {
                    uuid: self.rows[i].uuid.clone(),
                    user_uuid: self.rows[i].user_uuid.clone(),
                    handle: self.rows[i].handle.clone(),
                    npub: copy_opt_string(&data.npub),
                    price,
                    created_at: self.rows[i].created_at,
                    updated_at: self.rows[i].updated_at,
                    deleted_at: self.rows[i].deleted_at,
                };
                let ret = row.snapshot();
                proof {
                    assert(row == updated_address(old(self)@[i as int], data.npub, data.price));
                }
                self.rows[i] = row;
                proof {
                    assert(forall|a: int|
                        #![trigger self@[a].uuid]
                        0 <= a < self@.len() ==> self@[a].uuid@ == old(self)@[a].uuid@);
                }
                return Some(ret);
            }
            i = i + 1;
        }
        None
    }

    /// Soft-delete the row under `uuid`: it stays, stamped with the deletion
    /// time.
    pub fn delete(&mut self, uuid: &String, now: u64) -> (found: bool)
        requires
            old(self).wf(),
        ensures
            final(self).wf(),
            found == old(self).contains_uuid(uuid@),
            !found ==> *final(self) == *old(self),
            found ==> exists|i: int|
                {
                    &&& 0 <= i < old(self)@.len()
                    &&& #[trigger] old(self)@[i].uuid@ == uuid@
                    &&& final(self)@ == old(self)@.update(
                        i,
                        soft_deleted_address(old(self)@[i], now),
                    )
                },
    {
        let n = self.rows.len();
        let mut i: usize = 0;
        while i < n
            invariant
                i <= n,
                n == self@.len(),
                *self == *old(self),
                old(self).wf(),
                forall|k: int| #![trigger self@[k].uuid] 0 <= k < i ==> self@[k].uuid@ != uuid@,
            decreases n - i,
        {
            if self.rows[i].uuid == *uuid {
                let row = NodelessAddress {
                    uuid: self.rows[i].uuid.clone(),
                    user_uuid: self.rows[i].user_uuid.clone(),
                    handle: self.rows[i].handle.clone(),
                    npub: copy_opt_string(&self.rows[i].npub),
                    price: self.rows[i].price,
                    created_at: self.rows[i].created_at,
                    updated_at: self.rows[i].updated_at,
                    deleted_at: Some(now),
                };
                proof {
                    assert(row == soft_deleted_address(old(self)@[i as int], now));
                }
                self.rows[i] = row;
                proof {
                    assert(forall|a: int|
                        #![trigger self@[a].uuid]
                        0 <= a < self@.len() ==> self@[a].uuid@ == old(self)@[a].uuid@);
                }
                return true;
            }
            i = i + 1;
        }
        false
    }

    /// Remove the row under `uuid` outright.
    pub fn hard_delete(&mut self, uuid: &String) -> (found: bool)
        requires
            old(self).wf(),
        ensures
            final(self).wf(),
            found == old(self).contains_uuid(uuid@),
            !found ==> *final(self) == *old(self),
            found ==> exists|i: int|
                {
                    &&& 0 <= i < old(self)@.len()
                    &&& #[trigger] old(self)@[i].uuid@ == uuid@
                    &&& final(self)@ == old(self)@.remove(i)
                },
    {
        let n = self.rows.len();
        let mut i: usize = 0;
        while i < n
            invariant
                i <= n,
                n == self@.len(),
                *self == *old(self),
                old(self).wf(),
                forall|k: int| #![trigger self@[k].uuid] 0 <= k < i ==> self@[k].uuid@ != uuid@,
            decreases n - i,
        {
            if self.rows[i].uuid == *uuid {
                self.rows.remove(i);
                proof {
                    assert(forall|a: int, b: int|
                        #![trigger self@[a].uuid, self@[b].uuid]
                        0 <= a < b < self@.len() ==> self@[a].uuid@ != self@[b].uuid@);
                }
                return true;
            }
            i = i + 1;
        }
        false
    }
}

} // verus!
