use crate::ids::{is_generated_id, random_id};
use vstd::prelude::*;
use vstd::string::*;

verus! {

/// A realtor as submitted for creation. `full_name`, `email` and `phone` are
/// required; `description` is accepted but is not part of the stored record.
#[derive(Debug, Clone, PartialEq, Eq)]
pub struct Realtor {
    pub full_name: String,
    pub email: String,
    pub photo: Option<String>,
    pub phone: String,
    pub is_mvp: Option<bool>,
    pub description: Option<String>,
}

/// A stored realtor row, keyed by its generated `id`. `description` is not
/// persisted: a created row reports it as `None`.
#[derive(Debug, Clone, PartialEq, Eq)]
pub struct RealtorModel {
    pub id: String,
    pub full_name: String,
    pub email: String,
    pub photo: Option<String>,
    pub phone: String,
    pub is_mvp: Option<bool>,
    pub description: Option<String>,
}

/// The row that creating `r` under `id` stores: every input field but
/// `description` unchanged, and no description.
pub open spec fn model_of(r: Realtor, id: String) -> RealtorModel {
    RealtorModel {
        id: id,
        full_name: r.full_name,
        email: r.email,
        photo: r.photo,
        phone: r.phone,
        is_mvp: r.is_mvp,
        description: None,
    }
}

/// The required name and phone are non-blank (the invariant of stored rows;
/// an email is only required to be present).
pub open spec fn has_required_fields(r: Realtor) -> bool {
    &&& r.full_name@.len() > 0
    &&& r.phone@.len() > 0
}

/// A row fit to be stored: non-empty id and required fields.
pub open spec fn is_valid_row(m: RealtorModel) -> bool {
    &&& m.id@.len() > 0
    &&& m.full_name@.len() > 0
    &&& m.phone@.len() > 0
}

fn is_blank(s: &String) -> (r: bool)
    ensures
        r == (s@.len() == 0),
{
    s.as_str().unicode_len() == 0
}

fn clone_opt_string(s: &Option<String>) -> (r: Option<String>)
    ensures
        r == *s,
{
    match s {
        Some(v) => Some(v.clone()),
        None => None,
    }
}

impl Realtor {
    /// Whether the required name and phone are non-blank.
    pub fn has_required_fields(&self) -> (r: bool)
        ensures
            r == has_required_fields(*self),
    {
        !is_blank(&self.full_name) && !is_blank(&self.phone)
    }

    /// The row for this input under the given id.
    pub fn into_model(self, id: String) -> (r: RealtorModel)
        ensures
            r == model_of(self, id),
    {
        RealtorModel {
            id,
            full_name: self.full_name,
            email: self.email,
            photo: self.photo,
            phone: self.phone,
            is_mvp: self.is_mvp,
            description: None,
        }
    }

    /// The row for this input under a freshly drawn random id.
    pub fn into_new_model(self) -> (r: RealtorModel)
        ensures
            is_generated_id(r.id@),
            r == model_of(self, r.id),
    {
        let id = random_id();
        self.into_model(id)
    }
}

impl RealtorModel {
    /// A field-by-field copy.
    pub fn duplicate(&self) -> (r: RealtorModel)
        ensures
            r == *self,
    {
        RealtorModel {
            id: self.id.clone(),
            full_name: self.full_name.clone(),
            email: self.email.clone(),
            photo: clone_opt_string(&self.photo),
            phone: self.phone.clone(),
            is_mvp: self.is_mvp,
            description: clone_opt_string(&self.description),
        }
    }
}

} // verus!
