//! Pages of a listing.

use vstd::prelude::*;

verus! {

/// The part of a listing that a caller asks for: `limit` records from the
/// `offset`-th on.
#[derive(Debug)]
pub struct Page {
    pub limit: u32,
    pub offset: u32,
}

/// One page of a listing of `total` records, and whether more follow it.
#[derive(Debug)]
pub struct PaginatedResult<T> {
    pub data: Vec<T>,
    pub total: u64,
    pub limit: u32,
    pub offset: u32,
    pub has_next: bool,
}

} // verus!
