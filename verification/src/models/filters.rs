//! The counts by which the raindrops of a collection can be filtered.

use vstd::prelude::*;

verus! {

/// A count of raindrops.
#[derive(Debug, Clone, Copy, PartialEq, Eq, Structural)]
pub struct FilterCount {
    pub count: u32,
}

/// A count of raindrops that share a value (a tag, a type, a month).
#[derive(Debug, Clone)]
pub struct FilterBucket {
    pub id: String,
    pub count: u32,
}

/// The filters of a collection.
#[derive(Debug, Clone)]
pub struct FiltersResponse {
    pub result: bool,
    pub broken: Option<FilterCount>,
    pub duplicates: Option<FilterCount>,
    pub important: Option<FilterCount>,
    pub notag: Option<FilterCount>,
    pub total: Option<FilterCount>,
    pub highlights: Option<FilterCount>,
    pub created: Vec<FilterBucket>,
    pub tags: Vec<FilterBucket>,
    pub types: Vec<FilterBucket>,
    pub collection_id: Option<i64>,
}

} // verus!
