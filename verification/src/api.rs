//! The API's routes: for each operation the HTTP method and the path below
//! the base URL, and the query and id lists that requests carry.

use crate::models::common::{wire_id, CollectionScope};
use crate::models::raindrops::{RaindropListParams, UpdateManyParams, UpdateManyRaindrops};
use crate::models::common::{lemma_int_text_reads_back, lemma_nat_text_reads_back};
use crate::text::{
    int_text, is_digit, is_space, joined, nat_text, pair_texts, parse_i64, parse_i64_spec,
    push_i64, push_u64, to_owned_string, trim, trim_end, trim_start, trimmed,
};
use vstd::prelude::*;
use vstd::string::*;

verus! {

/// An HTTP method.
#[derive(Debug, Clone, Copy, PartialEq, Eq, Structural)]
pub enum Method {
    Get,
    Post,
    Put,
    Delete,
}

/// Where a request goes: its method and its path below the base URL.
#[derive(Debug, Clone)]
pub struct Route {
    pub method: Method,
    pub path: String,
}

/// The route with this method and path text.
pub open spec fn route_is(r: Route, m: Method, path: Seq<char>) -> bool {
    r.method == m && r.path@ == path
}

fn fixed(method: Method, path: &str) -> (r: Route)
    ensures
        route_is(r, method, path@),
{
    Route { method, path: to_owned_string(path) }
}

fn with_id(method: Method, head: &str, id: i64, tail: &str) -> (r: Route)
    ensures
        route_is(r, method, head@ + int_text(id as int) + tail@),
{
    let mut path = to_owned_string(head);
    push_i64(&mut path, id);
    path.append(tail);
    Route { method, path }
}

/// `GET user`: the signed-in user.
pub fn user_me() -> (r: Route)
    ensures
        route_is(r, Method::Get, "user"@),
{
    fixed(Method::Get, "user")
}

/// `GET tags`: all tags.
pub fn tags_list() -> (r: Route)
    ensures
        route_is(r, Method::Get, "tags"@),
{
    fixed(Method::Get, "tags")
}

/// `GET tags/{collection_id}`: the tags of a collection.
pub fn tags_get(collection_id: i64) -> (r: Route)
    ensures
        route_is(r, Method::Get, "tags/"@ + int_text(collection_id as int)),
{
    proof {
        reveal_strlit("");
    }
    let r = with_id(Method::Get, "tags/", collection_id, "");
    assert(r.path@ =~= "tags/"@ + int_text(collection_id as int));
    r
}

/// `PUT tags/{collection_id}`: renames a tag in a collection.
pub fn tags_rename(collection_id: i64) -> (r: Route)
    ensures
        route_is(r, Method::Put, "tags/"@ + int_text(collection_id as int)),
{
    proof {
        reveal_strlit("");
    }
    let r = with_id(Method::Put, "tags/", collection_id, "");
    assert(r.path@ =~= "tags/"@ + int_text(collection_id as int));
    r
}

/// `DELETE tags/{collection_id}`: removes a tag from a collection.
pub fn tags_delete(collection_id: i64) -> (r: Route)
    ensures
        route_is(r, Method::Delete, "tags/"@ + int_text(collection_id as int)),
{
    proof {
        reveal_strlit("");
    }
    let r = with_id(Method::Delete, "tags/", collection_id, "");
    assert(r.path@ =~= "tags/"@ + int_text(collection_id as int));
    r
}

/// `GET filters/{collection_id}`: the filters of a collection.
pub fn filters_list(collection_id: i64) -> (r: Route)
    ensures
        route_is(r, Method::Get, "filters/"@ + int_text(collection_id as int)),
{
    proof {
        reveal_strlit("");
    }
    let r = with_id(Method::Get, "filters/", collection_id, "");
    assert(r.path@ =~= "filters/"@ + int_text(collection_id as int));
    r
}

/// `GET raindrop/{id}`.
pub fn raindrop_get(id: i64) -> (r: Route)
    ensures
        route_is(r, Method::Get, "raindrop/"@ + int_text(id as int)),
{
    proof {
        reveal_strlit("");
    }
    let r = with_id(Method::Get, "raindrop/", id, "");
    assert(r.path@ =~= "raindrop/"@ + int_text(id as int));
    r
}

/// `POST raindrop`.
pub fn raindrop_create() -> (r: Route)
    ensures
        route_is(r, Method::Post, "raindrop"@),
{
    fixed(Method::Post, "raindrop")
}

/// `PUT raindrop/{id}`.
pub fn raindrop_update(id: i64) -> (r: Route)
    ensures
        route_is(r, Method::Put, "raindrop/"@ + int_text(id as int)),
{
    proof {
        reveal_strlit("");
    }
    let r = with_id(Method::Put, "raindrop/", id, "");
    assert(r.path@ =~= "raindrop/"@ + int_text(id as int));
    r
}

/// `DELETE raindrop/{id}`.
pub fn raindrop_delete(id: i64) -> (r: Route)
    ensures
        route_is(r, Method::Delete, "raindrop/"@ + int_text(id as int)),
{
    proof {
        reveal_strlit("");
    }
    let r = with_id(Method::Delete, "raindrop/", id, "");
    assert(r.path@ =~= "raindrop/"@ + int_text(id as int));
    r
}

/// `PUT raindrop/file`: uploads a file as a new raindrop.
pub fn raindrop_upload_file() -> (r: Route)
    ensures
        route_is(r, Method::Put, "raindrop/file"@),
{
    fixed(Method::Put, "raindrop/file")
}

/// `PUT raindrop/{id}/cover`.
pub fn raindrop_upload_cover(id: i64) -> (r: Route)
    ensures
        route_is(r, Method::Put, "raindrop/"@ + int_text(id as int) + "/cover"@),
{
    with_id(Method::Put, "raindrop/", id, "/cover")
}

/// `GET raindrops/{collection}`: a page of the raindrops of a collection,
/// named by its wire id.
pub fn raindrops_list(scope: CollectionScope) -> (r: Route)
    ensures
        route_is(r, Method::Get, "raindrops/"@ + int_text(wire_id(scope) as int)),
{
    proof {
        reveal_strlit("");
    }
    let r = with_id(Method::Get, "raindrops/", scope.wire_id(), "");
    assert(r.path@ =~= "raindrops/"@ + int_text(wire_id(scope) as int));
    r
}

/// `POST raindrops`: creates many raindrops.
pub fn raindrops_create_many() -> (r: Route)
    ensures
        route_is(r, Method::Post, "raindrops"@),
{
    fixed(Method::Post, "raindrops")
}

/// `PUT raindrops/{collection}`: changes many raindrops.
pub fn raindrops_update_many(scope: CollectionScope) -> (r: Route)
    ensures
        route_is(r, Method::Put, "raindrops/"@ + int_text(wire_id(scope) as int)),
{
    proof {
        reveal_strlit("");
    }
    let r = with_id(Method::Put, "raindrops/", scope.wire_id(), "");
    assert(r.path@ =~= "raindrops/"@ + int_text(wire_id(scope) as int));
    r
}

/// `DELETE raindrops/{collection}`: removes many raindrops.
pub fn raindrops_delete_many(scope: CollectionScope) -> (r: Route)
    ensures
        route_is(r, Method::Delete, "raindrops/"@ + int_text(wire_id(scope) as int)),
{
    proof {
        reveal_strlit("");
    }
    let r = with_id(Method::Delete, "raindrops/", scope.wire_id(), "");
    assert(r.path@ =~= "raindrops/"@ + int_text(wire_id(scope) as int));
    r
}

/// `GET collections`: the root collections.
pub fn collections_list_roots() -> (r: Route)
    ensures
        route_is(r, Method::Get, "collections"@),
{
    fixed(Method::Get, "collections")
}

/// `GET collections/childrens`: the nested collections.
pub fn collections_children() -> (r: Route)
    ensures
        route_is(r, Method::Get, "collections/childrens"@),
{
    fixed(Method::Get, "collections/childrens")
}

/// `GET collection/{collection}`, named by its wire id.
pub fn collection_get(scope: CollectionScope) -> (r: Route)
    ensures
        route_is(r, Method::Get, "collection/"@ + int_text(wire_id(scope) as int)),
{
    proof {
        reveal_strlit("");
    }
    let r = with_id(Method::Get, "collection/", scope.wire_id(), "");
    assert(r.path@ =~= "collection/"@ + int_text(wire_id(scope) as int));
    r
}

/// `POST collection`.
pub fn collection_create() -> (r: Route)
    ensures
        route_is(r, Method::Post, "collection"@),
{
    fixed(Method::Post, "collection")
}

/// `PUT collection/{id}`.
pub fn collection_update(id: i64) -> (r: Route)
    ensures
        route_is(r, Method::Put, "collection/"@ + int_text(id as int)),
{
    proof {
        reveal_strlit("");
    }
    let r = with_id(Method::Put, "collection/", id, "");
    assert(r.path@ =~= "collection/"@ + int_text(id as int));
    r
}

/// `DELETE collection/{id}`.
pub fn collection_delete(id: i64) -> (r: Route)
    ensures
        route_is(r, Method::Delete, "collection/"@ + int_text(id as int)),
{
    proof {
        reveal_strlit("");
    }
    let r = with_id(Method::Delete, "collection/", id, "");
    assert(r.path@ =~= "collection/"@ + int_text(id as int));
    r
}

/// `PUT collection/{id}/cover`.
pub fn collection_upload_cover(id: i64) -> (r: Route)
    ensures
        route_is(r, Method::Put, "collection/"@ + int_text(id as int) + "/cover"@),
{
    with_id(Method::Put, "collection/", id, "/cover")
}

pub open spec fn bool_text(b: bool) -> Seq<char> {
    if b {
        "true"@
    } else {
        "false"@
    }
}

pub open spec fn opt_pair(name: Seq<char>, value: Option<Seq<char>>) -> Seq<(Seq<char>, Seq<char>)> {
    match value {
        Some(v) => seq![(name, v)],
        None => Seq::empty(),
    }
}

/// The query of a list request: `page`, `perpage`, `search`, `sort` and
/// `nested`, in that order, each only where it is set.
pub open spec fn list_query(p: RaindropListParams) -> Seq<(Seq<char>, Seq<char>)> {
    opt_pair(
        "page"@,
        match p.page.page {
            Some(n) => Some(nat_text(n as nat)),
            None => None,
        },
    ) + opt_pair(
        "perpage"@,
        match p.page.per_page {
            Some(n) => Some(nat_text(n.value() as nat)),
            None => None,
        },
    ) + opt_pair(
        "search"@,
        match p.search {
            Some(s) => Some(s@),
            None => None,
        },
    ) + opt_pair(
        "sort"@,
        match p.sort {
            Some(s) => Some(s@),
            None => None,
        },
    ) + opt_pair(
        "nested"@,
        match p.nested {
            Some(b) => Some(bool_text(b)),
            None => None,
        },
    )
}

fn push_pair(out: &mut Vec<(String, String)>, name: &str, value: String)
    ensures
        pair_texts(final(out)@) == pair_texts(old(out)@).push((name@, value@)),
{
    let ghost before = out@;
    out.push((to_owned_string(name), value));
    assert(pair_texts(out@) =~= pair_texts(before).push((name@, value@)));
}

impl RaindropListParams {
    /// The query that a list request sends.
    pub fn query_pairs(&self) -> (r: Vec<(String, String)>)
        ensures
            pair_texts(r@) == list_query(*self),
    {
        proof {
            reveal_strlit("true");
            reveal_strlit("false");
        }
        let mut out: Vec<(String, String)> = Vec::new();
        let ghost e = pair_texts(out@);
        assert(e =~= Seq::<(Seq<char>, Seq<char>)>::empty());
        match self.page.page {
            Some(n) => {
                let mut v = String::new();
                push_u64(&mut v, n as u64);
                push_pair(&mut out, "page", v);
            },
            None => {},
        }
        match self.page.per_page {
            Some(n) => {
                let mut v = String::new();
                push_u64(&mut v, n.into_inner() as u64);
                push_pair(&mut out, "perpage", v);
            },
            None => {},
        }
        match &self.search {
            Some(s) => {
                push_pair(&mut out, "search", s.clone());
            },
            None => {},
        }
        match &self.sort {
            Some(s) => {
                push_pair(&mut out, "sort", s.clone());
            },
            None => {},
        }
        match self.nested {
            Some(b) => {
                push_pair(&mut out, "nested", to_owned_string(if b { "true" } else { "false" }));
            },
            None => {},
        }
        assert(pair_texts(out@) =~= list_query(*self));
        out
    }
}

/// Splits a text at each `sep`: one more piece than there are separators.
pub open spec fn split_on(s: Seq<char>, sep: char) -> Seq<Seq<char>>
    decreases s.len(),
{
    if s.len() == 0 {
        seq![Seq::empty()]
    } else {
        let rest = split_on(s.drop_last(), sep);
        if s.last() == sep {
            rest.push(Seq::empty())
        } else {
            rest.update(rest.len() - 1, rest.last().push(s.last()))
        }
    }
}

/// The pieces that read as ids once trimmed, read, in order.
pub open spec fn piece_ids(pieces: Seq<Seq<char>>) -> Seq<i64>
    decreases pieces.len(),
{
    if pieces.len() == 0 {
        Seq::empty()
    } else {
        let rest = piece_ids(pieces.drop_last());
        match parse_i64_spec(trimmed(pieces.last())) {
            Some(id) => rest.push(id),
            None => rest,
        }
    }
}

/// The ids of a comma-separated list; pieces that are not ids are skipped.
pub open spec fn csv_ids(s: Seq<char>) -> Seq<i64> {
    piece_ids(split_on(s, ','))
}

proof fn lemma_split_len(s: Seq<char>, sep: char)
    ensures
        split_on(s, sep).len() >= 1,
    decreases s.len(),
{
    if s.len() > 0 {
        lemma_split_len(s.drop_last(), sep);
    }
}

/// The ids of a comma-separated list, each piece trimmed; pieces that are
/// not ids are skipped.
pub fn parse_id_list(text: &str) -> (r: Vec<i64>)
    ensures
        r@ == csv_ids(text@),
{
    let n = text.unicode_len();
    let mut out: Vec<i64> = Vec::new();
    let mut start: usize = 0;
    let mut i: usize = 0;
    let ghost mut done: Seq<Seq<char>> = Seq::empty();
    assert(text@.take(0) =~= Seq::<char>::empty());
    assert(split_on(Seq::<char>::empty(), ',') =~= seq![Seq::<char>::empty()]);
    while i < n
        invariant
            0 <= start <= i <= n,
            n == text@.len(),
            split_on(text@.take(i as int), ',') == done.push(text@.subrange(start as int, i as int)),
            out@ == piece_ids(done),
        decreases n - i,
    {
        let c = text.get_char(i);
        proof {
            lemma_split_len(text@.take(i as int), ',');
            assert(text@.take(i + 1).drop_last() =~= text@.take(i as int));
            assert(text@.take(i + 1).last() == c);
        }
        if c == ',' {
            let piece = text.substring_char(start, i);
            let t = trim(piece);
            match parse_i64(t.as_str()) {
                Some(id) => {
                    out.push(id);
                },
                None => {},
            }
            proof {
                let p = text@.subrange(start as int, i as int);
                let prev = split_on(text@.take(i as int), ',');
                assert(prev == done.push(p));
                assert(done.push(p).drop_last() =~= done);
                assert(split_on(text@.take(i + 1), ',') == prev.push(Seq::empty()));
                done = done.push(p);
                assert(text@.subrange(i + 1, i + 1) =~= Seq::<char>::empty());
                assert(split_on(text@.take(i + 1), ',') =~= done.push(
                    text@.subrange(i + 1, i + 1),
                ));
            }
            start = i + 1;
        } else {
            proof {
                let p = text@.subrange(start as int, i as int);
                assert(p.push(c) =~= text@.subrange(start as int, i + 1));
                assert(split_on(text@.take(i + 1), ',') =~= done.push(
                    text@.subrange(start as int, i + 1),
                ));
            }
        }
        i = i + 1;
    }
    let piece = text.substring_char(start, n);
    let t = trim(piece);
    match parse_i64(t.as_str()) {
        Some(id) => {
            out.push(id);
        },
        None => {},
    }
    proof {
        let p = text@.subrange(start as int, n as int);
        assert(text@.take(n as int) =~= text@);
        assert(done.push(p).drop_last() =~= done);
    }
    out
}

/// The ids that a bulk change sends: those of the query's comma-separated
/// list where the query has one, else those of the payload (none if it
/// names none).
pub open spec fn update_many_id_list(payload: UpdateManyRaindrops, params: Option<UpdateManyParams>) -> Seq<i64> {
    match params {
        Some(UpdateManyParams { ids: Some(t) }) => csv_ids(t@),
        _ => match payload.ids {
            Some(v) => v@,
            None => Seq::empty(),
        },
    }
}

/// The ids that a bulk change sends in its body.
pub fn update_many_ids(payload: &UpdateManyRaindrops, params: Option<&UpdateManyParams>) -> (r: Vec<i64>)
    ensures
        r@ == update_many_id_list(
            *payload,
            match params {
                Some(p) => Some(*p),
                None => None,
            },
        ),
{
    match params {
        Some(p) => match &p.ids {
            Some(t) => {
                return parse_id_list(t.as_str());
            },
            None => {},
        },
        None => {},
    }
    match &payload.ids {
        Some(v) => v.clone(),
        None => Vec::new(),
    }
}

/// A text with no comma in it.
pub open spec fn comma_free(x: Seq<char>) -> bool {
    forall|i: int| 0 <= i < x.len() ==> #[trigger] x[i] != ','
}

proof fn lemma_split_single(x: Seq<char>)
    requires
        comma_free(x),
    ensures
        split_on(x, ',') == seq![x],
    decreases x.len(),
{
    if x.len() > 0 {
        let y = x.drop_last();
        lemma_split_single(y);
        assert(x.last() == x[x.len() - 1]);
        assert(y.push(x.last()) =~= x);
        assert(seq![y].update(0, y.push(x.last())) =~= seq![x]);
    } else {
        assert(x =~= Seq::<char>::empty());
    }
}

proof fn lemma_split_append(s: Seq<char>, x: Seq<char>)
    requires
        comma_free(x),
    ensures
        split_on(s + seq![','] + x, ',') == split_on(s, ',').push(x),
    decreases x.len(),
{
    let t = s + seq![','] + x;
    if x.len() == 0 {
        assert(t.drop_last() =~= s);
        assert(x =~= Seq::<char>::empty());
    } else {
        let y = x.drop_last();
        assert(comma_free(y));
        lemma_split_append(s, y);
        assert(t.drop_last() =~= s + seq![','] + y);
        assert(t.last() == x[x.len() - 1]);
        lemma_split_len(s + seq![','] + y, ',');
        let prev = split_on(s, ',').push(y);
        assert(y.push(x.last()) =~= x);
        assert(t.last() == x.last());
        assert(prev.update(prev.len() - 1, y.push(t.last())) =~= split_on(s, ',').push(x));
    }
}

/// The decimal text of an id.
pub open spec fn id_texts(ids: Seq<i64>) -> Seq<Seq<char>> {
    ids.map_values(|i: i64| int_text(i as int))
}

proof fn lemma_int_text_plain(i: i64)
    ensures
        comma_free(int_text(i as int)),
        trimmed(int_text(i as int)) == int_text(i as int),
        parse_i64_spec(int_text(i as int)) == Some(i),
        int_text(i as int).len() > 0,
{
    let t = int_text(i as int);
    lemma_int_text_reads_back(i);
    if i < 0 {
        lemma_nat_text_reads_back((-i) as nat);
        let d = nat_text((-i) as nat);
        assert forall|k: int| 0 <= k < t.len() implies #[trigger] t[k] != ',' by {
            if k > 0 {
                assert(t[k] == d[k - 1]);
                assert(is_digit(d[k - 1]));
            }
        }
        assert(is_digit(t.last())) by {
            assert(t.last() == d[d.len() - 1]);
        }
    } else {
        lemma_nat_text_reads_back(i as nat);
        assert forall|k: int| 0 <= k < t.len() implies #[trigger] t[k] != ',' by {
            assert(is_digit(t[k]));
        }
        assert(is_digit(t[0]));
        assert(is_digit(t.last()));
    }
    assert(!is_space(t[0]));
    assert(trim_start(t) == t);
    assert(!is_space(t.last()));
    assert(trim_end(t) == t);
}

proof fn lemma_id_prefix(ids: Seq<i64>, n: int)
    requires
        1 <= n <= ids.len(),
    ensures
        split_on(joined(id_texts(ids).take(n), ","@), ',') == id_texts(ids).take(n),
        piece_ids(id_texts(ids).take(n)) == ids.take(n),
    decreases n,
{
    reveal_strlit(",");
    let texts = id_texts(ids);
    lemma_int_text_plain(ids[n - 1]);
    if n == 1 {
        assert(texts.take(1) =~= seq![texts[0]]);
        lemma_split_single(texts[0]);
        assert(texts[0] == int_text(ids[0] as int));
        assert(texts.take(1).drop_last() =~= Seq::<Seq<char>>::empty());
        assert(texts.take(1).last() == texts[0]);
        assert(piece_ids(Seq::<Seq<char>>::empty()) =~= Seq::<i64>::empty());
        assert(piece_ids(texts.take(1)) =~= ids.take(1));
    } else {
        lemma_id_prefix(ids, n - 1);
        let prev = texts.take(n - 1);
        let next = texts.take(n);
        assert(next.drop_last() =~= prev);
        assert(next.last() == texts[n - 1]);
        assert(joined(next, ","@) == joined(prev, ","@) + ","@ + texts[n - 1]);
        assert(","@ =~= seq![',']);
        lemma_split_append(joined(prev, ","@), texts[n - 1]);
        assert(prev.push(texts[n - 1]) =~= next);
        assert(ids.take(n) =~= ids.take(n - 1).push(ids[n - 1]));
        assert(texts[n - 1] == int_text(ids[n - 1] as int));
        assert(next.last() == texts[n - 1]);
    }
}

/// Ids written as a comma-separated list read back as those ids.
pub proof fn lemma_id_list_reads_back(ids: Seq<i64>)
    ensures
        csv_ids(joined(id_texts(ids), ","@)) == ids,
{
    let texts = id_texts(ids);
    if ids.len() == 0 {
        assert(joined(texts, ","@) =~= Seq::<char>::empty());
        assert(split_on(Seq::<char>::empty(), ',') =~= seq![Seq::<char>::empty()]);
        assert(trimmed(Seq::<char>::empty()) =~= Seq::<char>::empty());
        assert(parse_i64_spec(trimmed(Seq::<char>::empty())) is None);
        let one = seq![Seq::<char>::empty()];
        assert(one.drop_last() =~= Seq::<Seq<char>>::empty());
        assert(one.last() =~= Seq::<char>::empty());
        assert(piece_ids(Seq::<Seq<char>>::empty()) =~= Seq::<i64>::empty());
        assert(ids =~= Seq::<i64>::empty());
        assert(piece_ids(one) =~= ids);
    } else {
        lemma_id_prefix(ids, ids.len() as int);
        assert(texts.take(ids.len() as int) =~= texts);
        assert(ids.take(ids.len() as int) =~= ids);
    }
}

} // verus!
