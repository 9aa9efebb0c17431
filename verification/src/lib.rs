//! The data-access layer of a multi-tenant school-management system: the
//! records of a school, the repositories that file, find and change them,
//! and the aggregates computed from them.
//!
//! A repository works on tables held in memory, each a `Vec` of records in
//! the order in which they were filed. An operation takes the tables that
//! it reads or changes and nothing else, so what it leaves alone is plain
//! from its signature. What only the store can decide comes as an argument:
//! the key under which a new record is filed, and the instant `now` at
//! which a change is made. Every record of a tenant names its school, and
//! every listing of a school selects by that name.
//!
//! Money, scores and percentages are whole numbers of hundredths
//! ([`values::Decimal`]); instants are seconds since the Unix epoch
//! ([`values::Datetime`]).

use vstd::prelude::*;

pub mod error;
pub mod helpers;
pub mod models;
pub mod pagination;
pub mod queries;
pub mod table;
pub mod text;
pub mod values;

verus! {

/// A user as the public interface shows one.
#[derive(Debug)]
pub struct UserDto {
    pub id: u64,
    pub name: String,
}

impl Clone for UserDto {
    fn clone(&self) -> (r: Self)
        ensures
            r == *self,
    {
        UserDto { id: self.id, name: self.name.clone() }
    }
}

} // verus!
