//! Raindrops (bookmarks) and the payloads that create, change and list them.

use crate::models::common::{
    lemma_int_text_reads_back, wire_id, CollectionScope, InvalidDestinationCollectionScope,
};
use crate::pagination::{PageParams, PerPage};
use crate::text::{int_text, parse_i64, parse_i64_spec, push_i64, to_owned_string};
use vstd::prelude::*;

verus! {

/// The id of a raindrop.
#[derive(Debug, Clone, Copy, PartialEq, Eq, PartialOrd, Ord, Hash, Structural)]
pub struct RaindropId(pub i64);

impl RaindropId {
    pub fn new(id: i64) -> (r: Self)
        ensures
            r == RaindropId(id),
    {
        RaindropId(id)
    }

    pub fn into_inner(self) -> (r: i64)
        ensures
            r == self.0,
    {
        self.0
    }

    pub fn to_string(&self) -> (r: String)
        ensures
            r@ == int_text(self.0 as int),
    {
        let mut r = String::new();
        push_i64(&mut r, self.0);
        assert(r@ =~= int_text(self.0 as int));
        r
    }

    /// Reads a raindrop id given on the command line.
    pub fn parse(value: &str) -> (r: Result<Self, String>)
        ensures
            match parse_i64_spec(value@) {
                Some(id) => r == Ok::<_, String>(RaindropId(id)),
                None => r matches Err(m) && m@ == "invalid raindrop id: "@ + value@,
            },
    {
        match parse_i64(value) {
            Some(id) => Ok(RaindropId(id)),
            None => {
                let mut m = to_owned_string("invalid raindrop id: ");
                m.append(value);
                Err(m)
            },
        }
    }
}

impl From<i64> for RaindropId {
    fn from(id: i64) -> (r: Self) {
        RaindropId(id)
    }
}

impl vstd::std_specs::convert::FromSpecImpl<i64> for RaindropId {
    open spec fn obeys_from_spec() -> bool {
        true
    }

    open spec fn from_spec(v: i64) -> Self {
        RaindropId(v)
    }
}

impl From<RaindropId> for i64 {
    fn from(id: RaindropId) -> (r: Self) {
        id.0
    }
}

impl vstd::std_specs::convert::FromSpecImpl<RaindropId> for i64 {
    open spec fn obeys_from_spec() -> bool {
        true
    }

    open spec fn from_spec(v: RaindropId) -> Self {
        v.0
    }
}

impl core::str::FromStr for RaindropId {
    type Err = String;

    fn from_str(value: &str) -> (r: Result<Self, Self::Err>)
        ensures
            match parse_i64_spec(value@) {
                Some(id) => r == Ok::<_, String>(RaindropId(id)),
                None => r matches Err(m) && m@ == "invalid raindrop id: "@ + value@,
            },
    {
        RaindropId::parse(value)
    }
}

/// A reference to the collection that holds a raindrop.
#[derive(Debug, Clone, Copy, PartialEq, Eq, Structural)]
pub struct CollectionRef {
    pub id: i64,
}

impl CollectionRef {
    pub fn new(id: i64) -> (r: Self)
        ensures
            r.id == id,
    {
        CollectionRef { id }
    }

    /// The reference to a collection that raindrops can be put into.
    pub fn from_destination(scope: CollectionScope) -> (r: Result<
        Self,
        InvalidDestinationCollectionScope,
    >)
        ensures
            match scope {
                CollectionScope::All | CollectionScope::Trash => r == Err::<CollectionRef, _>(
                    InvalidDestinationCollectionScope(scope),
                ),
                _ => r == Ok::<_, InvalidDestinationCollectionScope>(
                    CollectionRef { id: wire_id(scope) },
                ),
            },
    {
        match scope.into_destination_id() {
            Ok(id) => Ok(CollectionRef { id }),
            Err(e) => Err(e),
        }
    }
}

/// A saved bookmark.
#[derive(Debug, Clone)]
pub struct Raindrop {
    pub id: RaindropId,
    pub title: Option<String>,
    pub link: Option<String>,
    pub excerpt: Option<String>,
    pub collection: Option<CollectionRef>,
    pub tags: Vec<String>,
}

/// Whether a raindrop lies in a scope: every raindrop lies in `All`; in any
/// other scope, those whose collection has the scope's wire id.
pub open spec fn in_scope(collection: Option<CollectionRef>, scope: CollectionScope) -> bool {
    scope == CollectionScope::All || (collection matches Some(c) && c.id == wire_id(scope))
}

impl Raindrop {
    pub fn matches_scope(&self, scope: CollectionScope) -> (r: bool)
        ensures
            r == in_scope(self.collection, scope),
    {
        match scope {
            CollectionScope::All => true,
            _ => match &self.collection {
                Some(c) => c.id == scope.wire_id(),
                None => false,
            },
        }
    }
}

/// The payload that creates a raindrop.
#[derive(Debug, Clone)]
pub struct CreateRaindrop {
    pub link: String,
    pub title: Option<String>,
    pub excerpt: Option<String>,
    pub collection: Option<CollectionRef>,
    pub tags: Vec<String>,
}

/// The payload that changes a raindrop: fields left `None` stay as they are.
#[derive(Debug, Clone)]
pub struct UpdateRaindrop {
    pub title: Option<String>,
    pub excerpt: Option<String>,
    pub collection: Option<CollectionRef>,
    pub tags: Option<Vec<String>>,
}

impl UpdateRaindrop {
    /// A payload that changes nothing.
    pub fn new() -> (r: Self)
        ensures
            r.title is None,
            r.excerpt is None,
            r.collection is None,
            r.tags is None,
    {
        UpdateRaindrop { title: None, excerpt: None, collection: None, tags: None }
    }
}

/// The query of a raindrop list request.
#[derive(Debug, Clone)]
pub struct RaindropListParams {
    pub page: PageParams,
    pub search: Option<String>,
    pub sort: Option<String>,
    pub nested: Option<bool>,
}

impl RaindropListParams {
    /// No page, search, sort or nesting chosen.
    pub fn new() -> (r: Self)
        ensures
            r.page.page is None,
            r.page.per_page is None,
            r.search is None,
            r.sort is None,
            r.nested is None,
    {
        RaindropListParams { page: PageParams::new(), search: None, sort: None, nested: None }
    }

    pub fn page(self, page: u32) -> (r: Self)
        ensures
            r.page.page == Some(page),
            r.page.per_page == self.page.per_page,
            r.search == self.search,
            r.sort == self.sort,
            r.nested == self.nested,
    {
        RaindropListParams { page: self.page.page(page), ..self }
    }

    pub fn per_page(self, per_page: PerPage) -> (r: Self)
        ensures
            r.page.page == self.page.page,
            r.page.per_page == Some(per_page),
            r.search == self.search,
            r.sort == self.sort,
            r.nested == self.nested,
    {
        RaindropListParams { page: self.page.per_page(per_page), ..self }
    }

    pub fn search(self, search: &str) -> (r: Self)
        ensures
            r.page == self.page,
            r.search matches Some(s) && s@ == search@,
            r.sort == self.sort,
            r.nested == self.nested,
    {
        RaindropListParams { search: Some(to_owned_string(search)), ..self }
    }

    pub fn sort(self, sort: &str) -> (r: Self)
        ensures
            r.page == self.page,
            r.search == self.search,
            r.sort matches Some(s) && s@ == sort@,
            r.nested == self.nested,
    {
        RaindropListParams { sort: Some(to_owned_string(sort)), ..self }
    }

    pub fn nested(self, nested: bool) -> (r: Self)
        ensures
            r.page == self.page,
            r.search == self.search,
            r.sort == self.sort,
            r.nested == Some(nested),
    {
        RaindropListParams { nested: Some(nested), ..self }
    }
}

impl Default for RaindropListParams {
    fn default() -> (r: Self)
        ensures
            r.page.page is None,
            r.page.per_page is None,
            r.search is None,
            r.sort is None,
            r.nested is None,
    {
        RaindropListParams::new()
    }
}

/// The payload that changes many raindrops at once.
#[derive(Debug, Clone)]
pub struct UpdateManyRaindrops {
    pub ids: Option<Vec<i64>>,
    pub collection: Option<CollectionRef>,
    pub tags: Option<Vec<String>>,
}

impl UpdateManyRaindrops {
    /// A payload that selects and changes nothing.
    pub fn new() -> (r: Self)
        ensures
            r.ids is None,
            r.collection is None,
            r.tags is None,
    {
        UpdateManyRaindrops { ids: None, collection: None, tags: None }
    }
}

/// The query that can select the raindrops of a bulk change as a
/// comma-separated list of ids.
#[derive(Debug, Clone)]
pub struct UpdateManyParams {
    pub ids: Option<String>,
}

/// The payload that removes many raindrops at once.
#[derive(Debug, Clone)]
pub struct DeleteManyRaindrops {
    pub ids: Option<Vec<i64>>,
}

/// The query that can select the raindrops of a bulk removal as a
/// comma-separated list of ids.
#[derive(Debug, Clone)]
pub struct DeleteManyParams {
    pub ids: Option<String>,
}

/// A raindrop id as it is shown reads back as that id.
pub proof fn lemma_raindrop_id_reads_back(id: RaindropId)
    ensures
        parse_i64_spec(int_text(id.0 as int)) == Some(id.0),
{
    lemma_int_text_reads_back(id.0);
}

} // verus!
