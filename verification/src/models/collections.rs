//! Collections and the payloads that create and change them.

use vstd::prelude::*;

verus! {

/// A collection of raindrops.
#[derive(Debug, Clone)]
pub struct Collection {
    pub id: i64,
    pub title: Option<String>,
    pub parent: Option<i64>,
    pub count: Option<u32>,
}

/// The payload that creates a collection.
#[derive(Debug, Clone)]
pub struct CreateCollection {
    pub title: String,
    pub parent: Option<i64>,
}

/// The payload that changes a collection: fields left `None` stay as they are.
#[derive(Debug, Clone)]
pub struct UpdateCollection {
    pub title: Option<String>,
    pub parent: Option<i64>,
}

} // verus!
