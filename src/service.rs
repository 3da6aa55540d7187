use crate::pagination::{is_valid_page, page_of, DEFAULT_PAGE, DEFAULT_PAGE_SIZE};
use crate::realtor::{has_required_fields, model_of, Realtor, RealtorModel};
use crate::store::{delete_first, has_email, has_id, no_generated_ids, RealtorStore, RepoError};
use crate::ids::is_generated_id;
use vstd::prelude::*;

verus! {

pub const STATUS_OK: u16 = 200;

pub const STATUS_BAD_REQUEST: u16 = 400;

pub const STATUS_NOT_FOUND: u16 = 404;

pub const STATUS_INTERNAL_ERROR: u16 = 500;

/// Query of the listing endpoint; an absent field takes its default.
#[derive(Debug, Clone, Copy, PartialEq, Eq)]
pub struct PaginationQuery {
    pub page: Option<u64>,
    pub page_size: Option<u64>,
}

/// Query of the delete endpoint.
#[derive(Debug, Clone, PartialEq, Eq)]
pub struct RealtorParams {
    pub email: String,
}

/// What a handler answers: an HTTP status and, on success, the body's value.
#[derive(Debug, Clone, PartialEq, Eq)]
pub struct Reply<T> {
    pub status: u16,
    pub body: Option<T>,
}

/// Status for a failed repository call: client errors (a blank required
/// field, a page that cannot be served) are 400, a missing row is 404, and
/// every storage-side failure is 500. No error detail reaches the body.
pub open spec fn status_of(e: RepoError) -> u16 {
    match e {
        RepoError::MissingField => STATUS_BAD_REQUEST,
        RepoError::InvalidPage => STATUS_BAD_REQUEST,
        RepoError::NotFound => STATUS_NOT_FOUND,
        RepoError::DuplicateId => STATUS_INTERNAL_ERROR,
        RepoError::Storage(_) => STATUS_INTERNAL_ERROR,
    }
}

/// The reply for a repository result: 200 with the value, or the error's
/// status with an empty body.
pub open spec fn reply_of<T>(r: Result<T, RepoError>) -> Reply<T> {
    match r {
        Ok(v) => Reply { status: STATUS_OK, body: Some(v) },
        Err(e) => Reply { status: status_of(e), body: None },
    }
}

pub fn error_status(e: &RepoError) -> (r: u16)
    ensures
        r == status_of(*e),
{
    match e {
        RepoError::MissingField => STATUS_BAD_REQUEST,
        RepoError::InvalidPage => STATUS_BAD_REQUEST,
        RepoError::NotFound => STATUS_NOT_FOUND,
        RepoError::DuplicateId => STATUS_INTERNAL_ERROR,
        RepoError::Storage(_) => STATUS_INTERNAL_ERROR,
    }
}

/// Turns a repository result into the handler's reply.
pub fn reply_for<T>(r: Result<T, RepoError>) -> (out: Reply<T>)
    ensures
        out == reply_of(r),
{
    match r {
        Ok(v) => Reply { status: STATUS_OK, body: Some(v) },
        Err(e) => {
            let status = error_status(&e);
            Reply { status, body: None }
        },
    }
}

impl PaginationQuery {
    /// The requested page, 1 when absent.
    pub open spec fn spec_page(self) -> u64 {
        match self.page {
            Some(p) => p,
            None => DEFAULT_PAGE,
        }
    }

    /// The requested page size, 10 when absent.
    pub open spec fn spec_page_size(self) -> u64 {
        match self.page_size {
            Some(s) => s,
            None => DEFAULT_PAGE_SIZE,
        }
    }

    pub fn page_or_default(&self) -> (r: u64)
        ensures
            r == self.spec_page(),
    {
        self.page.unwrap_or(DEFAULT_PAGE)
    }

    pub fn page_size_or_default(&self) -> (r: u64)
        ensures
            r == self.spec_page_size(),
    {
        self.page_size.unwrap_or(DEFAULT_PAGE_SIZE)
    }
}

/// GET listing: 200 with the requested page of rows (defaults page 1, size
/// 10), or 400 with no body when the page cannot be served.
pub fn get_realtors(db: &RealtorStore, query: PaginationQuery) -> (r: Reply<Vec<RealtorModel>>)
    ensures
        is_valid_page(query.spec_page() as int, query.spec_page_size() as int) ==> {
            &&& r.status == STATUS_OK
            &&& r.body.is_some()
            &&& r.body.unwrap()@ == page_of(
                db@,
                query.spec_page() as int,
                query.spec_page_size() as int,
            )
        },
        !is_valid_page(query.spec_page() as int, query.spec_page_size() as int) ==> r.status
            == STATUS_BAD_REQUEST && r.body.is_none(),
{
    let page = query.page_or_default();
    let page_size = query.page_size_or_default();
    reply_for(Realtor::fetch_all(db, page, page_size))
}

/// POST create: 200 with the stored row, 400 when a required field is
/// blank, 500 when the store refuses the row.
pub fn create_realtor(db: &mut RealtorStore, form: Realtor) -> (r: Reply<RealtorModel>)
    requires
        old(db).wf(),
    ensures
        final(db).wf(),
        !has_required_fields(form) ==> r.status == STATUS_BAD_REQUEST,
        r.status == STATUS_OK ==> {
            &&& r.body.is_some()
            &&& is_generated_id(r.body.unwrap().id@)
            &&& r.body.unwrap() == model_of(form, r.body.unwrap().id)
            &&& !has_id(old(db)@, r.body.unwrap().id@)
            &&& final(db)@ == old(db)@.push(r.body.unwrap())
        },
        r.status != STATUS_OK ==> r.body.is_none() && final(db)@ == old(db)@,
        has_required_fields(form) ==> r.status == STATUS_OK || r.status == STATUS_INTERNAL_ERROR,
        has_required_fields(form) && no_generated_ids(old(db)@) ==> r.status == STATUS_OK,
{
    reply_for(Realtor::add_realtor(db, form))
}

/// DELETE by email: 200 when the first matching row was removed, 404 when no
/// row has that email. The body is always empty.
pub fn delete_realtor_by_email(db: &mut RealtorStore, query: RealtorParams) -> (status: u16)
    requires
        old(db).wf(),
    ensures
        final(db).wf(),
        final(db)@ == delete_first(old(db)@, query.email@),
        has_email(old(db)@, query.email@) ==> status == STATUS_OK,
        !has_email(old(db)@, query.email@) ==> status == STATUS_NOT_FOUND,
{
    let r = Realtor::delete_realtor_by_email(db, query.email);
    match r {
        Ok(_) => STATUS_OK,
        Err(e) => error_status(&e),
    }
}

} // verus!
