//! The user record store. Lookups by email serve the login flow; stored
//! passwords are keyed digests, never plain credentials.

use vstd::prelude::*;
use crate::models::User;
use crate::models::copy_opt_string;

verus! {

/// Why a user lookup failed: no row matched.
#[derive(Clone, Copy, Debug, PartialEq, Eq, Structural)]
pub enum UserRepositoryError {
    NotFound,
}

pub struct UserRepository {
    pub rows: Vec<User>,
}

impl View for UserRepository {
    type V = Seq<User>;

    open spec fn view(&self) -> Seq<User> {
        self.rows@
    }
}

pub struct CreateUser {
    pub email: Option<String>,
    pub password: Option<String>,
    pub npub: Option<String>,
    pub identifier: Option<String>,
}

impl UserRepository {
    /// No identifier repeats.
    pub open spec fn wf(&self) -> bool {
        forall|i: int, j: int|
            #![trigger self@[i].uuid, self@[j].uuid]
            0 <= i < j < self@.len() ==> self@[i].uuid@ != self@[j].uuid@
    }

    pub open spec fn contains_uuid(&self, uuid: Seq<char>) -> bool {
        exists|i: int| 0 <= i < self@.len() && #[trigger] self@[i].uuid@ == uuid
    }

    pub fn new() -> (r: Self)
        ensures
            r.wf(),
            r@ == Seq::<User>::empty(),
    {
        let r = UserRepository { rows: Vec::new() };
        proof {
            assert(r@ =~= Seq::<User>::empty());
        }
        r
    }

    /// Insert one user row; a credential field not supplied is stored empty.
    pub fn create(&mut self, user: &CreateUser, uuid: String, now: u64) -> (r: User)
        requires
            old(self).wf(),
            !old(self).contains_uuid(uuid@),
        ensures
            final(self).wf(),
            final(self)@ == old(self)@.push(r),
            r.uuid@ == uuid@,
            match user.email {
                Some(e) => r.email == e,
                None => r.email@ == Seq::<char>::empty(),
            },
            match user.password {
                Some(p) => r.password == p,
                None => r.password@ == Seq::<char>::empty(),
            },
            r.npub == user.npub,
            r.identifier == user.identifier,
            r.created_at == now,
            r.updated_at == now,
            r.last_login_at == now,
            r.deleted_at is None,
    {
        let email = match &user.email {
            Some(e) => e.clone(),
            None => String::new(),
        };
        let password = match &user.password {
            Some(p) => p.clone(),
            None => String::new(),
        };
        let row = User {
            uuid,
            email,
            password,
            npub: copy_opt_string(&user.npub),
            identifier: copy_opt_string(&user.identifier),
            created_at: now,
            updated_at: now,
            last_login_at: now,
            deleted_at: None,
        };
        let ret = row.snapshot();
        self.rows.push(row);
        ret
    }

    /// The first user stored under `email`.
    pub fn get_user_by_email(&self, email: &String) -> (r: Result<User, UserRepositoryError>)
        ensures
            match r {
                Ok(u) => exists|i: int|
                    0 <= i < self@.len() && #[trigger] self@[i] == u && u.email@ == email@,
                Err(e) => e == UserRepositoryError::NotFound && (forall|i: int|
                    #![trigger self@[i].email]
                    0 <= i < self@.len() ==> self@[i].email@ != email@),
            },
    {
        let n = self.rows.len();
        let mut i: usize = 0;
        while i < n
            invariant
                i <= n,
                n == self@.len(),
                forall|k: int| #![trigger self@[k].email] 0 <= k < i ==> self@[k].email@ != email@,
            decreases n - i,
        {
            if self.rows[i].email == *email {
                return Ok(self.rows[i].snapshot());
            }
            i = i + 1;
        }
        Err(UserRepositoryError::NotFound)
    }

    /// The stored password digest of the first user under `email`.
    pub fn get_user_password(&self, email: &String) -> (r: Result<String, UserRepositoryError>)
        ensures
            match r {
                Ok(p) => exists|i: int|
                    0 <= i < self@.len() && #[trigger] self@[i].email@ == email@ && self@[i].password
                        == p,
                Err(e) => e == UserRepositoryError::NotFound && (forall|i: int|
                    #![trigger self@[i].email]
                    0 <= i < self@.len() ==> self@[i].email@ != email@),
            },
    {
        let n = self.rows.len();
        let mut i: usize = 0;
        while i < n
            invariant
                i <= n,
                n == self@.len(),
                forall|k: int| #![trigger self@[k].email] 0 <= k < i ==> self@[k].email@ != email@,
            decreases n - i,
        {
            if self.rows[i].email == *email {
                return Ok(self.rows[i].password.clone());
            }
            i = i + 1;
        }
        Err(UserRepositoryError::NotFound)
    }

    /// Remove the row under `uuid`; removing an absent row is no error.
    pub fn delete(&mut self, uuid: &String) -> (r: Result<(), UserRepositoryError>)
        requires
            old(self).wf(),
        ensures
            final(self).wf(),
            r is Ok,
            !old(self).contains_uuid(uuid@) ==> *final(self) == *old(self),
            old(self).contains_uuid(uuid@) ==> exists|i: int|
                {
                    &&& 0 <= i < old(self)@.len()
                    &&& #[trigger] old(self)@[i].uuid@ == uuid@
                    &&& final(self)@ == old(self)@.remove(i)
                },
    {
        let _ = self.remove_by_uuid(uuid);
        Ok(())
    }

    /// Remove the row under `uuid`, reporting whether one was there.
    pub fn hard_delete(&mut self, uuid: &String) -> (found: bool)
        requires
            old(self).wf(),
        ensures
            final(self).wf(),
            found == old(self).contains_uuid(uuid@),
            !found ==> *final(self) == *old(self),
            found ==> exists|i: int|
                {
                    &&& 0 <= i < old(self)@.len()
                    &&& #[trigger] old(self)@[i].uuid@ == uuid@
                    &&& final(self)@ == old(self)@.remove(i)
                },
    {
        self.remove_by_uuid(uuid)
    }

    fn remove_by_uuid(&mut self, uuid: &String) -> (found: bool)
        requires
            old(self).wf(),
        ensures
            final(self).wf(),
            found == old(self).contains_uuid(uuid@),
            !found ==> *final(self) == *old(self),
            found ==> exists|i: int|
                {
                    &&& 0 <= i < old(self)@.len()
                    &&& #[trigger] old(self)@[i].uuid@ == uuid@
                    &&& final(self)@ == old(self)@.remove(i)
                },
    {
        let n = self.rows.len();
        let mut i: usize = 0;
        while i < n
            invariant
                i <= n,
                n == self@.len(),
                *self == *old(self),
                old(self).wf(),
                forall|k: int| #![trigger self@[k].uuid] 0 <= k < i ==> self@[k].uuid@ != uuid@,
            decreases n - i,
        {
            if self.rows[i].uuid == *uuid {
                self.rows.remove(i);
                proof {
                    assert(forall|a: int, b: int|
                        #![trigger self@[a].uuid, self@[b].uuid]
                        0 <= a < b < self@.len() ==> self@[a].uuid@ != self@[b].uuid@);
                }
                return true;
            }
            i = i + 1;
        }
        false
    }
}

} // verus!
