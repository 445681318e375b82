//! Tags and how many raindrops carry them.

use vstd::prelude::*;

verus! {

/// A tag, with the number of raindrops that carry it when the API gives it.
#[derive(Debug, Clone)]
pub struct Tag {
    pub id: String,
    pub count: Option<u64>,
}

} // verus!
