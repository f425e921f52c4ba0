//! The donation-page record store. Slugs are globally unique human-readable
//! keys: every write path checks the slug over all rows (soft-deleted ones
//! included) and refuses a taken one with a conflict error, so a second
//! writer can never silently overwrite a page. With the store itself doing
//! the check-then-insert as one step, the check-then-insert race of a
//! two-step caller cannot arise here.

use vstd::prelude::*;
use crate::models::DonationPage;

verus! {

/// A stored page together with its soft-deletion stamp, which the page
/// record itself does not carry.
pub struct PageRow {
    pub page: DonationPage,
    pub deleted_at: Option<u64>,
}

pub struct DonationPageRepository {
    pub rows: Vec<PageRow>,
}

impl View for DonationPageRepository {
    type V = Seq<PageRow>;

    open spec fn view(&self) -> Seq<PageRow> {
        self.rows@
    }
}

pub struct CreateDonationPage {
    pub user_uuid: String,
    pub name: String,
    pub slug: String,
    pub description: String,
}

pub struct UpdateDonationPage {
    pub name: String,
    pub slug: String,
    pub description: String,
}

/// Why a donation-page write was refused: the slug is already taken (a
/// conflict the caller resolves by choosing a new value), or no row matched
/// the ownership-scoped lookup.
#[derive(Clone, Copy, Debug, PartialEq, Eq, Structural)]
pub enum RepoError {
    SlugTaken,
    NotFound,
}

impl RepoError {
    /// The HTTP status this error is rendered with: a conflict the caller
    /// resolves by choosing a new slug, or a missing resource.
    pub fn http_status(&self) -> (r: u16)
        ensures
            r == self.http_status_spec(),
    {
        match self {
            RepoError::SlugTaken => 409,
            RepoError::NotFound => 404,
        }
    }

    pub open spec fn http_status_spec(&self) -> u16 {
        match self {
            RepoError::SlugTaken => 409u16,
            RepoError::NotFound => 404u16,
        }
    }

    /// The human-readable message this error is rendered with.
    pub fn message(&self) -> (r: String)
        ensures
            r@ == self.message_spec(),
    {
        match self {
            RepoError::SlugTaken => "Slug already taken".to_owned(),
            RepoError::NotFound => "Donation page not found".to_owned(),
        }
    }

    pub open spec fn message_spec(&self) -> Seq<char> {
        match self {
            RepoError::SlugTaken => "Slug already taken"@,
            RepoError::NotFound => "Donation page not found"@,
        }
    }
}

/// Whether any row — soft-deleted or not — already holds `slug`.
pub open spec fn slug_taken(rows: Seq<PageRow>, slug: Seq<char>) -> bool {
    exists|i: int| 0 <= i < rows.len() && #[trigger] rows[i].page.slug@ == slug
}

/// Whether `row` is live and visible to `user`.
pub open spec fn page_visible(row: PageRow, user: Seq<char>) -> bool {
    row.page.user_uuid@ == user && row.deleted_at is None
}

/// The pages of `rows` visible to `user`, in storage order.
pub open spec fn visible_pages(rows: Seq<PageRow>, user: Seq<char>) -> Seq<DonationPage>
    decreases rows.len(),
{
    if rows.len() == 0 {
        Seq::empty()
    } else {
        let rest = visible_pages(rows.drop_last(), user);
        if page_visible(rows.last(), user) {
            rest.push(rows.last().page)
        } else {
            rest
        }
    }
}

/// The row as it stands with its page fields replaced by an update.
pub open spec fn updated_page(row: PageRow, name: String, slug: String, description: String) -> PageRow {
    PageRow {
        page: DonationPage {
            uuid: row.page.uuid,
            user_uuid: row.page.user_uuid,
            slug,
            name,
            description,
        },
        deleted_at: row.deleted_at,
    }
}

/// The row as it stands with the deletion time stamped.
pub open spec fn soft_deleted_page(row: PageRow, now: u64) -> PageRow {
    PageRow { page: row.page, deleted_at: Some(now) }
}

impl DonationPageRepository {
    /// No identifier and no slug repeats, over all rows.
    pub open spec fn wf(&self) -> bool {
        &&& forall|i: int, j: int|
            #![trigger self@[i].page.uuid, self@[j].page.uuid]
            0 <= i < j < self@.len() ==> self@[i].page.uuid@ != self@[j].page.uuid@
        &&& forall|i: int, j: int|
            #![trigger self@[i].page.slug, self@[j].page.slug]
            0 <= i < j < self@.len() ==> self@[i].page.slug@ != self@[j].page.slug@
    }

    pub open spec fn contains_uuid(&self, uuid: Seq<char>) -> bool {
        exists|i: int| 0 <= i < self@.len() && #[trigger] self@[i].page.uuid@ == uuid
    }

    pub fn new() -> (r: Self)
        ensures
            r.wf(),
            r@ == Seq::<PageRow>::empty(),
    {
        let r = DonationPageRepository { rows: Vec::new() };
        proof {
            assert(r@ =~= Seq::<PageRow>::empty());
        }
        r
    }

    /// Whether any row — soft-deleted or not — already holds `slug`.
    pub fn slug_exists(&self, slug: &String) -> (r: bool)
        ensures
            r == slug_taken(self@, slug@),
    {
        let n = self.rows.len();
        let mut i: usize = 0;
        while i < n
            invariant
                i <= n,
                n == self@.len(),
                forall|k: int|
                    #![trigger self@[k].page.slug]
                    0 <= k < i ==> self@[k].page.slug@ != slug@,
            decreases n - i,
        {
            if self.rows[i].page.slug == *slug {
                return true;
            }
            i = i + 1;
        }
        false
    }

    /// Insert one page, or refuse with the conflict error — exactly when the
    /// slug is already taken — leaving the store unchanged.
    pub fn create(&mut self, page: CreateDonationPage, uuid: String) -> (r: Result<
        DonationPage,
        RepoError,
    >)
        requires
            old(self).wf(),
            !old(self).contains_uuid(uuid@),
        ensures
            final(self).wf(),
            (r is Ok) <==> !slug_taken(old(self)@, page.slug@),
            (r matches Err(e) && e == RepoError::SlugTaken) <==> slug_taken(
                old(self)@,
                page.slug@,
            ),
            r is Err ==> *final(self) == *old(self),
            r matches Ok(p) ==> {
                &&& final(self)@ == old(self)@.push(PageRow { page: p, deleted_at: None })
                &&& p.uuid@ == uuid@
                &&& p.user_uuid@ == page.user_uuid@
                &&& p.slug == page.slug
                &&& p.name == page.name
                &&& p.description == page.description
            },
    {
        if self.slug_exists(&page.slug) {
            return Err(RepoError::SlugTaken);
        }
        let p = DonationPage {
            uuid,
            user_uuid: page.user_uuid,
            slug: page.slug,
            name: page.name,
            description: page.description,
        };
        let ret = p.snapshot();
        self.rows.push(PageRow { page: p, deleted_at: None });
        proof {
            assert(forall|a: int, b: int|
                #![trigger self@[a].page.uuid, self@[b].page.uuid]
                0 <= a < b < self@.len() ==> self@[a].page.uuid@ != self@[b].page.uuid@);
            assert(forall|a: int, b: int|
                #![trigger self@[a].page.slug, self@[b].page.slug]
                0 <= a < b < self@.len() ==> self@[a].page.slug@ != self@[b].page.slug@);
        }
        Ok(ret)
    }

    /// The live page under `uuid`, whoever owns it.
    pub fn get_one(&self, uuid: &String) -> (r: Option<DonationPage>)
        ensures
            match r {
                Some(p) => exists|i: int|
                    0 <= i < self@.len() && #[trigger] self@[i].page == p && p.uuid@ == uuid@
                        && self@[i].deleted_at is None,
                None => forall|i: int|
                    #![trigger self@[i]]
                    0 <= i < self@.len() ==> !(self@[i].page.uuid@ == uuid@ && self@[i].deleted_at
                        is None),
            },
    {
        let n = self.rows.len();
        let mut i: usize = 0;
        while i < n
            invariant
                i <= n,
                n == self@.len(),
                forall|k: int|
                    #![trigger self@[k]]
                    0 <= k < i ==> !(self@[k].page.uuid@ == uuid@ && self@[k].deleted_at is None),
            decreases n - i,
        {
            if self.rows[i].page.uuid == *uuid && self.rows[i].deleted_at.is_none() {
                return Some(self.rows[i].page.snapshot());
            }
            i = i + 1;
        }
        None
    }

    /// The live page under `slug`, whoever owns it.
    pub fn get_one_by_slug(&self, slug: &String) -> (r: Option<DonationPage>)
        ensures
            match r {
                Some(p) => exists|i: int|
                    0 <= i < self@.len() && #[trigger] self@[i].page == p && p.slug@ == slug@
                        && self@[i].deleted_at is None,
                None => forall|i: int|
                    #![trigger self@[i]]
                    0 <= i < self@.len() ==> !(self@[i].page.slug@ == slug@ && self@[i].deleted_at
                        is None),
            },
    {
        let n = self.rows.len();
        let mut i: usize = 0;
        while i < n
            invariant
                i <= n,
                n == self@.len(),
                forall|k: int|
                    #![trigger self@[k]]
                    0 <= k < i ==> !(self@[k].page.slug@ == slug@ && self@[k].deleted_at is None),
            decreases n - i,
        {
            if self.rows[i].page.slug == *slug && self.rows[i].deleted_at.is_none() {
                return Some(self.rows[i].page.snapshot());
            }
            i = i + 1;
        }
        None
    }

    /// All live pages of `user_uuid`, in storage order.
    pub fn get_all_by_user_uuid(&self, user_uuid: &String) -> (r: Vec<DonationPage>)
        ensures
            r@ == visible_pages(self@, user_uuid@),
    {
        let mut out: Vec<DonationPage> = Vec::new();
        let n = self.rows.len();
        let mut i: usize = 0;
        proof {
            assert(self@.subrange(0, 0) =~= Seq::<PageRow>::empty());
        }
        while i < n
            invariant
                i <= n,
                n == self@.len(),
                out@ == visible_pages(self@.subrange(0, i as int), user_uuid@),
            decreases n - i,
        {
            proof {
                assert(self@.subrange(0, i + 1).drop_last() =~= self@.subrange(0, i as int));
                assert(self@.subrange(0, i + 1).last() == self@[i as int]);
            }
            if self.rows[i].deleted_at.is_none() && self.rows[i].page.user_uuid == *user_uuid {
                let page = self.rows[i].page.snapshot();
                out.push(page);
            }
            i = i + 1;
        }
        proof {
            assert(self@.subrange(0, n as int) =~= self@);
        }
        out
    }

    /// The live page under `uuid`, only if `user_uuid` owns it: a lookup that
    /// reaches another owner's page reports the same absence as a missing one.
    pub fn get_one_by_user_uuid(&self, user_uuid: &String, uuid: &String) -> (r: Option<
        DonationPage,
    >)
        ensures
            match r {
                Some(p) => exists|i: int|
                    0 <= i < self@.len() && #[trigger] self@[i].page == p && p.uuid@ == uuid@
                        && page_visible(self@[i], user_uuid@),
                None => forall|i: int|
                    #![trigger self@[i]]
                    0 <= i < self@.len() ==> !(self@[i].page.uuid@ == uuid@ && page_visible(
                        self@[i],
                        user_uuid@,
                    )),
            },
    {
        let n = self.rows.len();
        let mut i: usize = 0;
        while i < n
            invariant
                i <= n,
                n == self@.len(),
                forall|k: int|
                    #![trigger self@[k]]
                    0 <= k < i ==> !(self@[k].page.uuid@ == uuid@ && page_visible(
                        self@[k],
                        user_uuid@,
                    )),
            decreases n - i,
        {
            if self.rows[i].page.uuid == *uuid && self.rows[i].page.user_uuid == *user_uuid
                && self.rows[i].deleted_at.is_none() {
                return Some(self.rows[i].page.snapshot());
            }
            i = i + 1;
        }
        None
    }

    /// Rewrite the live page under `uuid`. The new slug is checked over all
    /// rows first: a taken slug is a conflict, before the row lookup.
    pub fn update(&mut self, uuid: &String, data: UpdateDonationPage) -> (r: Result<
        DonationPage,
        RepoError,
    >)
        requires
            old(self).wf(),
        ensures
            final(self).wf(),
            r is Err ==> *final(self) == *old(self),
            (r matches Err(e) && e == RepoError::SlugTaken) <==> slug_taken(
                old(self)@,
                data.slug@,
            ),
            (r matches Err(e) && e == RepoError::NotFound) <==> (!slug_taken(old(self)@, data.slug@)
                && (forall|i: int|
                #![trigger old(self)@[i]]
                0 <= i < old(self)@.len() ==> !(old(self)@[i].page.uuid@ == uuid@ && old(
                    self,
                )@[i].deleted_at is None))),
            r matches Ok(p) ==> exists|i: int|
                {
                    &&& 0 <= i < old(self)@.len()
                    &&& #[trigger] old(self)@[i].page.uuid@ == uuid@
                    &&& old(self)@[i].deleted_at is None
                    &&& p == updated_page(old(self)@[i], data.name, data.slug, data.description).page
                    &&& final(self)@ == old(self)@.update(
                        i,
                        updated_page(old(self)@[i], data.name, data.slug, data.description),
                    )
                },
    {
        if self.slug_exists(&data.slug) {
            return Err(RepoError::SlugTaken);
        }
        let n = self.rows.len();
        let mut i: usize = 0;
        while i < n
            invariant
                i <= n,
                n == self@.len(),
                *self == *old(self),
                old(self).wf(),
                !slug_taken(self@, data.slug@),
                forall|k: int|
                    #![trigger self@[k]]
                    0 <= k < i ==> !(self@[k].page.uuid@ == uuid@ && self@[k].deleted_at is None),
            decreases n - i,
        {
            if self.rows[i].page.uuid == *uuid && self.rows[i].deleted_at.is_none() {
                let row = PageRow {
                    page: DonationPage {
                        uuid: self.rows[i].page.uuid.clone(),
                        user_uuid: self.rows[i].page.user_uuid.clone(),
                        slug: data.slug.clone(),
                        name: data.name.clone(),
                        description: data.description.clone(),
                    },
                    deleted_at: self.rows[i].deleted_at,
                };
                let ret = row.page.snapshot();
                proof {
                    assert(row == updated_page(
                        old(self)@[i as int],
                        data.name,
                        data.slug,
                        data.description,
                    ));
                }
                self.rows[i] = row;
                proof {
                    assert(forall|a: int|
                        #![trigger self@[a].page.uuid]
                        0 <= a < self@.len() ==> self@[a].page.uuid@ == old(self)@[a].page.uuid@);
                    assert(forall|a: int|
                        #![trigger self@[a].page.slug]
                        0 <= a < self@.len() && a != i ==> self@[a].page.slug@ == old(
                            self,
                        )@[a].page.slug@);
                    assert(forall|a: int, b: int|
                        #![trigger self@[a].page.slug, self@[b].page.slug]
                        0 <= a < b < self@.len() ==> self@[a].page.slug@ != self@[b].page.slug@);
                }
                return Ok(ret);
            }
            i = i + 1;
        }
        Err(RepoError::NotFound)
    }

    /// Rewrite the live page under `uuid` only if `user_uuid` owns it, with
    /// the same slug conflict check first.
    pub fn update_by_user_uuid(&mut self, uuid: &String, user_uuid: &String, data: UpdateDonationPage) -> (r:
        Result<DonationPage, RepoError>)
        requires
            old(self).wf(),
        ensures
            final(self).wf(),
            r is Err ==> *final(self) == *old(self),
            (r matches Err(e) && e == RepoError::SlugTaken) <==> slug_taken(
                old(self)@,
                data.slug@,
            ),
            (r matches Err(e) && e == RepoError::NotFound) <==> (!slug_taken(old(self)@, data.slug@)
                && (forall|i: int|
                #![trigger old(self)@[i]]
                0 <= i < old(self)@.len() ==> !(old(self)@[i].page.uuid@ == uuid@ && page_visible(
                    old(self)@[i],
                    user_uuid@,
                )))),
            r matches Ok(p) ==> exists|i: int|
                {
                    &&& 0 <= i < old(self)@.len()
                    &&& #[trigger] old(self)@[i].page.uuid@ == uuid@
                    &&& page_visible(old(self)@[i], user_uuid@)
                    &&& p == updated_page(old(self)@[i], data.name, data.slug, data.description).page
                    &&& final(self)@ == old(self)@.update(
                        i,
                        updated_page(old(self)@[i], data.name, data.slug, data.description),
                    )
                },
    {
        if self.slug_exists(&data.slug) {
            return Err(RepoError::SlugTaken);
        }
        let n = self.rows.len();
        let mut i: usize = 0;
        while i < n
            invariant
                i <= n,
                n == self@.len(),
                *self == *old(self),
                old(self).wf(),
                !slug_taken(self@, data.slug@),
                forall|k: int|
                    #![trigger self@[k]]
                    0 <= k < i ==> !(self@[k].page.uuid@ == uuid@ && page_visible(
                        self@[k],
                        user_uuid@,
                    )),
            decreases n - i,
        {
            if self.rows[i].page.uuid == *uuid && self.rows[i].page.user_uuid == *user_uuid
                && self.rows[i].deleted_at.is_none() {
                let row = PageRow {
                    page: DonationPage {
                        uuid: self.rows[i].page.uuid.clone(),
                        user_uuid: self.rows[i].page.user_uuid.clone(),
                        slug: data.slug.clone(),
                        name: data.name.clone(),
                        description: data.description.clone(),
                    },
                    deleted_at: self.rows[i].deleted_at,
                };
                let ret = row.page.snapshot();
                proof {
                    assert(row == updated_page(
                        old(self)@[i as int],
                        data.name,
                        data.slug,
                        data.description,
                    ));
                }
                self.rows[i] = row;
                proof {
                    assert(forall|a: int|
                        #![trigger self@[a].page.uuid]
                        0 <= a < self@.len() ==> self@[a].page.uuid@ == old(self)@[a].page.uuid@);
                    assert(forall|a: int|
                        #![trigger self@[a].page.slug]
                        0 <= a < self@.len() && a != i ==> self@[a].page.slug@ == old(
                            self,
                        )@[a].page.slug@);
                    assert(forall|a: int, b: int|
                        #![trigger self@[a].page.slug, self@[b].page.slug]
                        0 <= a < b < self@.len() ==> self@[a].page.slug@ != self@[b].page.slug@);
                }
                return Ok(ret);
            }
            i = i + 1;
        }
        Err(RepoError::NotFound)
    }

    /// Soft-delete the page under `uuid`, whoever owns it and whether or not
    /// it was already stamped.
    pub fn delete(&mut self, uuid: &String, now: u64) -> (found: bool)
        requires
            old(self).wf(),
        ensures
            final(self).wf(),
            !found ==> *final(self) == *old(self) && !old(self).contains_uuid(uuid@),
            found ==> exists|i: int|
                {
                    &&& 0 <= i < old(self)@.len()
                    &&& #[trigger] old(self)@[i].page.uuid@ == uuid@
                    &&& final(self)@ == old(self)@.update(i, soft_deleted_page(old(self)@[i], now))
                },
    {
        let n = self.rows.len();
        let mut i: usize = 0;
        while i < n
            invariant
                i <= n,
                n == self@.len(),
                *self == *old(self),
                old(self).wf(),
                forall|k: int|
                    #![trigger self@[k].page.uuid]
                    0 <= k < i ==> self@[k].page.uuid@ != uuid@,
            decreases n - i,
        {
            if self.rows[i].page.uuid == *uuid {
                let row = PageRow { page: self.rows[i].page.snapshot(), deleted_at: Some(now) };
                proof {
                    assert(row == soft_deleted_page(old(self)@[i as int], now));
                }
                self.rows[i] = row;
                proof {
                    assert(forall|a: int|
                        #![trigger self@[a].page.uuid]
                        0 <= a < self@.len() ==> self@[a].page.uuid@ == old(self)@[a].page.uuid@);
                    assert(forall|a: int|
                        #![trigger self@[a].page.slug]
                        0 <= a < self@.len() ==> self@[a].page.slug@ == old(self)@[a].page.slug@);
                }
                return true;
            }
            i = i + 1;
        }
        false
    }

    /// Soft-delete the page under `uuid` only if `user_uuid` owns it.
    pub fn delete_by_user(&mut self, uuid: &String, user_uuid: &String, now: u64) -> (found: bool)
        requires
            old(self).wf(),
        ensures
            final(self).wf(),
            !found ==> *final(self) == *old(self) && (forall|i: int|
                #![trigger old(self)@[i]]
                0 <= i < old(self)@.len() ==> !(old(self)@[i].page.uuid@ == uuid@ && old(
                    self,
                )@[i].page.user_uuid@ == user_uuid@)),
            found ==> exists|i: int|
                {
                    &&& 0 <= i < old(self)@.len()
                    &&& #[trigger] old(self)@[i].page.uuid@ == uuid@
                    &&& old(self)@[i].page.user_uuid@ == user_uuid@
                    &&& final(self)@ == old(self)@.update(i, soft_deleted_page(old(self)@[i], now))
                },
    {
        let n = self.rows.len();
        let mut i: usize = 0;
        while i < n
            invariant
                i <= n,
                n == self@.len(),
                *self == *old(self),
                old(self).wf(),
                forall|k: int|
                    #![trigger self@[k]]
                    0 <= k < i ==> !(self@[k].page.uuid@ == uuid@ && self@[k].page.user_uuid@
                        == user_uuid@),
            decreases n - i,
        {
            if self.rows[i].page.uuid == *uuid && self.rows[i].page.user_uuid == *user_uuid {
                let row = PageRow { page: self.rows[i].page.snapshot(), deleted_at: Some(now) };
                proof {
                    assert(row == soft_deleted_page(old(self)@[i as int], now));
                }
                self.rows[i] = row;
                proof {
                    assert(forall|a: int|
                        #![trigger self@[a].page.uuid]
                        0 <= a < self@.len() ==> self@[a].page.uuid@ == old(self)@[a].page.uuid@);
                    assert(forall|a: int|
                        #![trigger self@[a].page.slug]
                        0 <= a < self@.len() ==> self@[a].page.slug@ == old(self)@[a].page.slug@);
                }
                return true;
            }
            i = i + 1;
        }
        false
    }

    /// Remove the row under `uuid` outright.
    pub fn hard_delete(&mut self, uuid: &String) -> (found: bool)
        requires
            old(self).wf(),
        ensures
            final(self).wf(),
            !found ==> *final(self) == *old(self) && !old(self).contains_uuid(uuid@),
            found ==> exists|i: int|
                {
                    &&& 0 <= i < old(self)@.len()
                    &&& #[trigger] old(self)@[i].page.uuid@ == uuid@
                    &&& final(self)@ == old(self)@.remove(i)
                },
    {
        let n = self.rows.len();
        let mut i: usize = 0;
        while i < n
            invariant
                i <= n,
                n == self@.len(),
                *self == *old(self),
                old(self).wf(),
                forall|k: int|
                    #![trigger self@[k].page.uuid]
                    0 <= k < i ==> self@[k].page.uuid@ != uuid@,
            decreases n - i,
        {
            if self.rows[i].page.uuid == *uuid {
                self.rows.remove(i);
                proof {
                    assert(forall|a: int, b: int|
                        #![trigger self@[a].page.uuid, self@[b].page.uuid]
                        0 <= a < b < self@.len() ==> self@[a].page.uuid@ != self@[b].page.uuid@);
                    assert(forall|a: int, b: int|
                        #![trigger self@[a].page.slug, self@[b].page.slug]
                        0 <= a < b < self@.len() ==> self@[a].page.slug@ != self@[b].page.slug@);
                }
                return true;
            }
            i = i + 1;
        }
        false
    }
}

/// Slug conflict: once a page holding `slug` is stored, the slug is taken —
/// so by `create`'s contract a later create (or update) naming the same slug,
/// for any user, is refused with the conflict error and changes nothing.
pub proof fn lemma_slug_conflict(rows0: Seq<PageRow>, created: PageRow, rows1: Seq<PageRow>)
    requires
        rows1 == rows0.push(created),
    ensures
        slug_taken(rows1, created.page.slug@),
{
    assert(rows1[rows1.len() - 1] == created);
}

} // verus!
