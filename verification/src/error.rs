//! What a repository reports when it cannot do what was asked.

use vstd::prelude::*;
use vstd::string::StringExecFns;

verus! {

/// What a repository answers: the value asked for, or why there is none.
pub type DbResult<T> = Result<T, Error>;

/// Why a repository could not do what was asked.
#[derive(Debug)]
pub enum Error {
    /// The store refused the operation; the text says why.
    SurrealDb(String),
    /// The record that the operation needs is not there; the text is its key.
    NotFound(String),
    /// A record that must be the only one of its kind is there already; the
    /// text is what the two share.
    Duplicate(String),
}

impl Error {
    /// What the error says of itself.
    pub open spec fn text(&self) -> Seq<char> {
        match self {
            Error::SurrealDb(why) => "Database error: "@ + why@,
            Error::NotFound(key) => "Record not found: "@ + key@,
            Error::Duplicate(what) => "Duplicate record: "@ + what@,
        }
    }

    /// What the error says of itself.
    pub fn message(&self) -> (r: String)
        ensures
            r@ == self.text(),
    {
        match self {
            Error::SurrealDb(why) => String::from_str("Database error: ").concat(why.as_str()),
            Error::NotFound(key) => String::from_str("Record not found: ").concat(key.as_str()),
            Error::Duplicate(what) => String::from_str("Duplicate record: ").concat(
                what.as_str(),
            ),
        }
    }
}

/// Whether the error says that a number does not fit where it is kept.
pub open spec fn out_of_range(e: Error) -> bool {
    e matches Error::SurrealDb(why) && why@ == "number out of range"@
}

/// The error of a number that does not fit where it is kept.
pub fn range_error() -> (e: Error)
    ensures
        out_of_range(e),
{
    Error::SurrealDb(String::from_str("number out of range"))
}

} // verus!
