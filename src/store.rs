use crate::pagination::{is_valid_page, page_of, page_offset};
use crate::realtor::{has_required_fields, is_valid_row, model_of, Realtor, RealtorModel};
use crate::ids::{is_generated_id, random_id};

use vstd::prelude::*;

verus! {

/// Why a repository operation failed.
#[derive(Debug, Clone, PartialEq, Eq)]
pub enum RepoError {
    /// The storage layer failed; the text is its own description.
    Storage(String),
    /// No row has the requested email.
    NotFound,
    /// The id of a new row is already taken (a primary-key violation).
    DuplicateId,
    /// A required field, or the id, is blank.
    MissingField,
    /// The page request cannot be served (page 0, size 0, or an offset past `u64`).
    InvalidPage,
}

/// Some row has this id.
pub open spec fn has_id(rows: Seq<RealtorModel>, id: Seq<char>) -> bool {
    exists|i: int| 0 <= i < rows.len() && (#[trigger] rows[i]).id@ == id
}

/// No row has an id of the generated shape, so a freshly drawn id cannot
/// collide (an empty table is one such).
pub open spec fn no_generated_ids(rows: Seq<RealtorModel>) -> bool {
    forall|i: int| 0 <= i < rows.len() ==> !is_generated_id(#[trigger] rows[i].id@)
}

/// Some row has this email.
pub open spec fn has_email(rows: Seq<RealtorModel>, email: Seq<char>) -> bool {
    exists|i: int| 0 <= i < rows.len() && (#[trigger] rows[i]).email@ == email
}

/// Row `i` is the first, in storage order, whose email is `email`.
pub open spec fn is_first_match(rows: Seq<RealtorModel>, email: Seq<char>, i: int) -> bool {
    &&& 0 <= i < rows.len()
    &&& rows[i].email@ == email
    &&& forall|j: int| 0 <= j < i ==> (#[trigger] rows[j]).email@ != email
}

/// Index of the first row whose email is `email` (meaningful when one exists).
pub open spec fn first_match(rows: Seq<RealtorModel>, email: Seq<char>) -> int {
    choose|i: int| is_first_match(rows, email, i)
}

/// No two rows share an id.
pub open spec fn ids_distinct(rows: Seq<RealtorModel>) -> bool {
    forall|i: int, j: int|
        0 <= i < rows.len() && 0 <= j < rows.len() && i != j ==> (#[trigger] rows[i]).id@
            != (#[trigger] rows[j]).id@
}

/// The table's invariant: every row is valid and ids are unique.
pub open spec fn rows_wf(rows: Seq<RealtorModel>) -> bool {
    &&& ids_distinct(rows)
    &&& forall|i: int| 0 <= i < rows.len() ==> is_valid_row(#[trigger] rows[i])
}

/// The rows after deleting by `email`: the first match is removed, or nothing
/// when no row matches.
pub open spec fn delete_first(rows: Seq<RealtorModel>, email: Seq<char>) -> Seq<RealtorModel> {
    if has_email(rows, email) {
        rows.remove(first_match(rows, email))
    } else {
        rows
    }
}

/// What a lookup by email leads to: the found row is the one to delete, and
/// no row fails with `NotFound`.
pub fn row_to_delete(found: Option<RealtorModel>) -> (r: Result<RealtorModel, RepoError>)
    ensures
        found.is_some() ==> r == Ok::<RealtorModel, RepoError>(found.unwrap()),
        found.is_none() ==> r == Err::<RealtorModel, RepoError>(RepoError::NotFound),
{
    match found {
        Some(m) => Ok(m),
        None => Err(RepoError::NotFound),
    }
}

/// When row `i` is a first match, it is the one `first_match` picks.
pub proof fn lemma_first_match_unique(rows: Seq<RealtorModel>, email: Seq<char>, i: int)
    requires
        is_first_match(rows, email, i),
    ensures
        first_match(rows, email) == i,
        has_email(rows, email),
{
    let k = first_match(rows, email);
    assert(is_first_match(rows, email, k));
    if k < i {
        assert(rows[k].email@ != email);
    } else if k > i {
        assert(rows[i].email@ != email);
    }
}

/// A realtor table held in memory, rows in insertion order. It stands in for
/// the relational store behind the same operations.
pub struct RealtorStore {
    rows: Vec<RealtorModel>,
}

impl View for RealtorStore {
    type V = Seq<RealtorModel>;

    closed spec fn view(&self) -> Seq<RealtorModel> {
        self.rows@
    }
}

impl RealtorStore {
    /// The table's invariant holds.
    pub open spec fn wf(&self) -> bool {
        rows_wf(self@)
    }

    /// An empty table.
    pub fn new() -> (r: RealtorStore)
        ensures
            r.wf(),
            r@ == Seq::<RealtorModel>::empty(),
    {
        let r = RealtorStore { rows: Vec::new() };
        assert(r@ =~= Seq::<RealtorModel>::empty());
        r
    }

    /// Number of rows.
    pub fn len(&self) -> (r: usize)
        ensures
            r == self@.len(),
    {
        self.rows.len()
    }

    /// Whether some row has this id.
    pub fn contains_id(&self, id: &String) -> (r: bool)
        ensures
            r == has_id(self@, id@),
    {
        let mut i: usize = 0;
        while i < self.rows.len()
            invariant
                0 <= i <= self@.len(),
                self@ == self.rows@,
                forall|j: int| 0 <= j < i ==> (#[trigger] self@[j]).id@ != id@,
            decreases self@.len() - i,
        {
            if self.rows[i].id == *id {
                return true;
            }
            i = i + 1;
        }
        false
    }

    /// Index of the first row whose email is `email`, if any.
    pub fn find_by_email(&self, email: &String) -> (r: Option<usize>)
        ensures
            r.is_some() == has_email(self@, email@),
            r.is_some() ==> is_first_match(self@, email@, r.unwrap() as int),
            r.is_some() ==> first_match(self@, email@) == r.unwrap(),
    {
        let mut i: usize = 0;
        while i < self.rows.len()
            invariant
                0 <= i <= self@.len(),
                self@ == self.rows@,
                forall|j: int| 0 <= j < i ==> (#[trigger] self@[j]).email@ != email@,
            decreases self@.len() - i,
        {
            if self.rows[i].email == *email {
                proof {
                    lemma_first_match_unique(self@, email@, i as int);
                }
                return Some(i);
            }
            i = i + 1;
        }
        None
    }

    /// Stores `realtor` under `id`. Fails, leaving the table unchanged, with
    /// `MissingField` when the id or a required field is blank, and with
    /// `DuplicateId` when a row already has that id.
    pub fn insert_with_id(&mut self, realtor: Realtor, id: String) -> (r: Result<
        RealtorModel,
        RepoError,
    >)
        requires
            old(self).wf(),
        ensures
            final(self).wf(),
            !has_required_fields(realtor) || id@.len() == 0 ==> r == Err::<RealtorModel, RepoError>(
                RepoError::MissingField,
            ),
            has_required_fields(realtor) && id@.len() > 0 && has_id(old(self)@, id@) ==> r == Err::<
                RealtorModel,
                RepoError,
            >(RepoError::DuplicateId),
            has_required_fields(realtor) && id@.len() > 0 && !has_id(old(self)@, id@) ==> r == Ok::<
                RealtorModel,
                RepoError,
            >(model_of(realtor, id)),
            r.is_ok() ==> final(self)@ == old(self)@.push(model_of(realtor, id)),
            r.is_err() ==> final(self)@ == old(self)@,
    {
        if !realtor.has_required_fields() || id.as_str().unicode_len() == 0 {
            return Err(RepoError::MissingField);
        }
        if self.contains_id(&id) {
            return Err(RepoError::DuplicateId);
        }
        let row = realtor.into_model(id);
        let out = row.duplicate();
        self.rows.push(row);
        proof {
            let rows = final(self)@;
            assert(rows.last() == out);
            assert forall|i: int, j: int|
                0 <= i < rows.len() && 0 <= j < rows.len() && i != j implies (
                #[trigger] rows[i]).id@ != (#[trigger] rows[j]).id@ by {
                if i < rows.len() - 1 && j < rows.len() - 1 {
                    assert(rows[i] == old(self)@[i]);
                    assert(rows[j] == old(self)@[j]);
                } else if i < rows.len() - 1 {
                    assert(rows[i] == old(self)@[i]);
                } else {
                    assert(rows[j] == old(self)@[j]);
                }
            }
        }
        Ok(out)
    }
}


impl Realtor {
    /// Creates a row from `realtor` under a freshly drawn random id and
    /// returns it. A blank required field fails with `MissingField`; should the
    /// drawn id already be taken, the insert fails with `DuplicateId`, as a
    /// primary-key violation would. On failure the table is unchanged.
    pub fn add_realtor(db: &mut RealtorStore, realtor: Realtor) -> (r: Result<
        RealtorModel,
        RepoError,
    >)
        requires
            old(db).wf(),
        ensures
            final(db).wf(),
            !has_required_fields(realtor) ==> r == Err::<RealtorModel, RepoError>(
                RepoError::MissingField,
            ),
            match r {
                Ok(m) => {
                    &&& is_generated_id(m.id@)
                    &&& m == model_of(realtor, m.id)
                    &&& !has_id(old(db)@, m.id@)
                    &&& final(db)@ == old(db)@.push(m)
                },
                Err(e) => {
                    &&& final(db)@ == old(db)@
                    &&& has_required_fields(realtor) ==> e == RepoError::DuplicateId
                },
            },
            has_required_fields(realtor) && no_generated_ids(old(db)@) ==> r.is_ok(),
    {
        let id = random_id();
        let ghost gid = id;
        proof {
            if no_generated_ids(db@) && has_id(db@, gid@) {
                let i = choose|i: int| 0 <= i < db@.len() && (#[trigger] db@[i]).id@ == gid@;
                assert(!is_generated_id(db@[i].id@));
            }
        }
        let r = db.insert_with_id(realtor, id);
        proof {
            if r.is_ok() {
                assert(r.unwrap().id == gid);
            }
        }
        r
    }

    /// The row to insert for this input: a blank required field fails with
    /// `MissingField`; otherwise the row under a freshly drawn id.
    pub fn row_to_insert(self) -> (r: Result<RealtorModel, RepoError>)
        ensures
            !has_required_fields(self) ==> r == Err::<RealtorModel, RepoError>(
                RepoError::MissingField,
            ),
            has_required_fields(self) ==> r.is_ok(),
            r.is_ok() ==> is_generated_id(r.unwrap().id@) && r.unwrap() == model_of(
                self,
                r.unwrap().id,
            ),
    {
        if !self.has_required_fields() {
            return Err(RepoError::MissingField);
        }
        Ok(self.into_new_model())
    }

    /// The rows of page `page` (counted from 1) holding `page_size` rows each,
    /// in storage order. A page past the end is empty. A request that cannot
    /// be served (see `is_valid_page`) fails with `InvalidPage`.
    pub fn fetch_all(db: &RealtorStore, page: u64, page_size: u64) -> (r: Result<
        Vec<RealtorModel>,
        RepoError,
    >)
        ensures
            match r {
                Ok(v) => is_valid_page(page as int, page_size as int) && v@ == page_of(
                    db@,
                    page as int,
                    page_size as int,
                ),
                Err(e) => !is_valid_page(page as int, page_size as int) && e
                    == RepoError::InvalidPage,
            },
    {
        let off = match page_offset(page, page_size) {
            Some(o) => o,
            None => {
                return Err(RepoError::InvalidPage);
            },
        };
        let len = db.rows.len();
        let mut out: Vec<RealtorModel> = Vec::new();
        if off >= len as u64 {
            assert(out@ =~= page_of(db@, page as int, page_size as int));
            return Ok(out);
        }
        let start = off as usize;
        let end: usize = if page_size >= (len - start) as u64 {
            len
        } else {
            start + page_size as usize
        };
        let mut i: usize = start;
        while i < end
            invariant
                start <= i <= end <= len,
                len == db@.len(),
                db@ == db.rows@,
                out@ =~= db@.subrange(start as int, i as int),
            decreases end - i,
        {
            out.push(db.rows[i].duplicate());
            i = i + 1;
        }
        assert(out@ =~= page_of(db@, page as int, page_size as int));
        Ok(out)
    }

    /// Deletes the first row, in storage order, whose email equals `email`
    /// exactly, and answers `"OK"`. With no such row it fails with `NotFound`
    /// and the table is unchanged.
    pub fn delete_realtor_by_email(db: &mut RealtorStore, email: String) -> (r: Result<
        String,
        RepoError,
    >)
        requires
            old(db).wf(),
        ensures
            final(db).wf(),
            final(db)@ == delete_first(old(db)@, email@),
            match r {
                Ok(s) => has_email(old(db)@, email@) && s@ == "OK"@,
                Err(e) => !has_email(old(db)@, email@) && e == RepoError::NotFound,
            },
    {
        match db.find_by_email(&email) {
            Some(i) => {
                db.rows.remove(i);
                proof {
                    let rows = final(db)@;
                    let o = old(db)@;
                    assert forall|a: int| 0 <= a < rows.len() implies is_valid_row(
                        #[trigger] rows[a],
                    ) by {
                        if a < i {
                            assert(rows[a] == o[a]);
                        } else {
                            assert(rows[a] == o[a + 1]);
                        }
                    }
                    assert forall|a: int, b: int|
                        0 <= a < rows.len() && 0 <= b < rows.len() && a != b implies (
                        #[trigger] rows[a]).id@ != (#[trigger] rows[b]).id@ by {
                        let oa = if a < i { a } else { a + 1 };
                        let ob = if b < i { b } else { b + 1 };
                        assert(rows[a] == o[oa]);
                        assert(rows[b] == o[ob]);
                    }
                }
                Ok("OK".to_string())
            },
            None => Err(RepoError::NotFound),
        }
    }
}

} // verus!
