//! The account that a token belongs to.

use vstd::prelude::*;

verus! {

/// A Raindrop.io user.
#[derive(Debug, Clone)]
pub struct User {
    pub id: i64,
    pub email: Option<String>,
    pub full_name: Option<String>,
}

} // verus!
