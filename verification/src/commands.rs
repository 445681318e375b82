//! What the program's commands decide between their requests: the payloads
//! and queries they send, how a bulk update finds its targets, how an export
//! walks the pages of a list, and when a failed command is tried again.

use crate::cli::args::{CreateArgs, DeleteManyArgs, ListArgs, UpdateArgs, UpdateManyArgs};
use crate::cli::scan::texts;
use crate::cli::values::opt_text;
use crate::display::{format_collection_scopes, scopes_text};
use crate::http::Error;
use crate::models::common::{wire_id, CollectionScope, InvalidDestinationCollectionScope};
use crate::models::raindrops::{
    CollectionRef, CreateRaindrop, DeleteManyRaindrops, Raindrop, RaindropListParams,
    UpdateManyRaindrops, UpdateRaindrop,
};
use crate::pagination::{lemma_per_page_is_of_value, per_page_of, PageParams, PerPage};
use crate::selection::{merge_selection, merged, ResolvedUpdateManySelection};
use crate::text::{nat_text, push_u64, to_owned_string};
use crate::views::has_line;
use vstd::prelude::*;

verus! {

/// A scope that raindrops can be put into (not `All` or `Trash`).
pub open spec fn is_destination(s: CollectionScope) -> bool {
    !(s is All) && !(s is Trash)
}

/// The collection reference of a destination, if one is given.
pub open spec fn destination_ref(s: Option<CollectionScope>) -> Option<CollectionRef> {
    match s {
        Some(c) => Some(CollectionRef { id: wire_id(c) }),
        None => None,
    }
}

/// The destination as a collection reference, or the error for a scope
/// that cannot be one.
fn destination(s: Option<CollectionScope>) -> (r: Result<
    Option<CollectionRef>,
    InvalidDestinationCollectionScope,
>)
    ensures
        match s {
            Some(c) => if is_destination(c) {
                r == Ok::<_, InvalidDestinationCollectionScope>(destination_ref(s))
            } else {
                r == Err::<Option<CollectionRef>, _>(InvalidDestinationCollectionScope(c))
            },
            None => r == Ok::<_, InvalidDestinationCollectionScope>(None::<CollectionRef>),
        },
{
    match s {
        Some(c) => match CollectionRef::from_destination(c) {
            Ok(r) => Ok(Some(r)),
            Err(e) => Err(e),
        },
        None => Ok(None),
    }
}

fn copy_text(o: &Option<String>) -> (r: Option<String>)
    ensures
        opt_text(r) == opt_text(*o),
{
    match o {
        Some(s) => Some(s.clone()),
        None => None,
    }
}

fn copy_texts(v: &Vec<String>) -> (r: Vec<String>)
    ensures
        texts(r@) == texts(v@),
{
    let mut out: Vec<String> = Vec::new();
    let mut i: usize = 0;
    while i < v.len()
        invariant
            0 <= i <= v.len(),
            texts(out@) == texts(v@.take(i as int)),
        decreases v.len() - i,
    {
        let ghost before = out@;
        out.push(v[i].clone());
        proof {
            assert(v@.take(i + 1) =~= v@.take(i as int).push(v@[i as int]));
            assert(texts(out@) =~= texts(before).push(v@[i as int]@));
            assert(texts(v@.take(i + 1)) =~= texts(v@.take(i as int)).push(v@[i as int]@));
        }
        i = i + 1;
    }
    assert(v@.take(v.len() as int) =~= v@);
    out
}

/// A list request: which collection, the query, and the page number (from
/// 1) that the listing shows.
#[derive(Debug, Clone)]
pub struct ListRequest {
    pub scope: CollectionScope,
    pub params: RaindropListParams,
    pub current_page: u32,
}

/// The list request that `list` arguments ask for: all raindrops unless a
/// collection is named, the page counted from 0 for the API, and nesting
/// only when asked for.
pub fn list_request(args: &ListArgs) -> (r: ListRequest)
    requires
        args.page matches Some(p) ==> p.0 >= 1,
    ensures
        r.scope == match args.collection {
            Some(s) => s,
            None => CollectionScope::All,
        },
        r.current_page == match args.page {
            Some(p) => p.0,
            None => 1,
        },
        r.params.page.page == match args.page {
            Some(p) => Some((p.0 - 1) as u32),
            None => None,
        },
        r.params.page.per_page == args.per_page,
        opt_text(r.params.search) == opt_text(args.search),
        opt_text(r.params.sort) == opt_text(args.sort),
        r.params.nested == if args.nested {
            Some(true)
        } else {
            None
        },
{
    let current_page = match args.page {
        Some(p) => p.as_display(),
        None => 1,
    };
    let page = match args.page {
        Some(p) => Some(p.to_api_page()),
        None => None,
    };
    let params = RaindropListParams {
        page: PageParams { page, per_page: args.per_page },
        search: copy_text(&args.search),
        sort: copy_text(&args.sort),
        nested: if args.nested {
            Some(true)
        } else {
            None
        },
    };
    let scope = match args.collection {
        Some(s) => s,
        None => CollectionScope::All,
    };
    ListRequest { scope, params, current_page }
}

/// The payload that `create` arguments ask for; a destination that cannot
/// hold raindrops is refused.
pub fn create_payload(args: &CreateArgs) -> (r: Result<
    CreateRaindrop,
    InvalidDestinationCollectionScope,
>)
    ensures
        match args.collection {
            Some(c) if !is_destination(c) => r == Err::<CreateRaindrop, _>(
                InvalidDestinationCollectionScope(c),
            ),
            _ => r matches Ok(p) && p.link@ == args.link@ && opt_text(p.title) == opt_text(
                args.title,
            ) && opt_text(p.excerpt) == opt_text(args.excerpt) && p.collection == destination_ref(
                args.collection,
            ) && texts(p.tags@) == texts(args.tags@),
        },
{
    let collection = match destination(args.collection) {
        Ok(c) => c,
        Err(e) => {
            return Err(e);
        },
    };
    Ok(
        CreateRaindrop {
            link: args.link.clone(),
            title: copy_text(&args.title),
            excerpt: copy_text(&args.excerpt),
            collection,
            tags: copy_texts(&args.tags),
        },
    )
}

/// The payload that `update` arguments ask for: tags only where some are
/// given; a destination that cannot hold raindrops is refused.
pub fn update_payload(args: &UpdateArgs) -> (r: Result<UpdateRaindrop, InvalidDestinationCollectionScope>)
    ensures
        match args.collection {
            Some(c) if !is_destination(c) => r == Err::<UpdateRaindrop, _>(
                InvalidDestinationCollectionScope(c),
            ),
            _ => r matches Ok(p) && opt_text(p.title) == opt_text(args.title) && opt_text(
                p.excerpt,
            ) == opt_text(args.excerpt) && p.collection == destination_ref(args.collection) && (
            if args.tags@.len() > 0 {
                p.tags matches Some(t) && texts(t@) == texts(args.tags@)
            } else {
                p.tags is None
            }),
        },
{
    let collection = match destination(args.collection) {
        Ok(c) => c,
        Err(e) => {
            return Err(e);
        },
    };
    let tags = if args.tags.len() > 0 {
        Some(copy_texts(&args.tags))
    } else {
        None
    };
    Ok(
        UpdateRaindrop {
            title: copy_text(&args.title),
            excerpt: copy_text(&args.excerpt),
            collection,
            tags,
        },
    )
}

/// The payload that `delete-many` arguments ask for: the ids given.
pub fn delete_many_payload(args: &DeleteManyArgs) -> (r: DeleteManyRaindrops)
    ensures
        r.ids matches Some(v) && v@ == args.ids@,
{
    DeleteManyRaindrops { ids: Some(args.ids.clone()) }
}

fn copy_scopes(v: &Vec<CollectionScope>) -> (r: Vec<CollectionScope>)
    ensures
        r@ == v@,
{
    let mut out: Vec<CollectionScope> = Vec::new();
    let mut i: usize = 0;
    while i < v.len()
        invariant
            0 <= i <= v.len(),
            out@ == v@.take(i as int),
        decreases v.len() - i,
    {
        out.push(v[i]);
        assert(out@ =~= v@.take(i + 1));
        i = i + 1;
    }
    assert(v@.take(v.len() as int) =~= v@);
    out
}

/// The entries that a bulk update's targets are chosen from, in the order
/// they were fetched: each id asked for with the raindrop fetched for it,
/// then each raindrop found in the chosen collections under its own id.
pub open spec fn selection_entries(
    ids: Seq<i64>,
    explicit: Seq<Raindrop>,
    discovered: Seq<Raindrop>,
) -> Seq<(i64, Raindrop)> {
    Seq::new(ids.len(), |i: int| (ids[i], explicit[i])) + discovered.map_values(
        |r: Raindrop| (r.id.0, r),
    )
}

pub open spec fn pair_values(pairs: Seq<(i64, Raindrop)>) -> Seq<Raindrop> {
    pairs.map_values(|p: (i64, Raindrop)| p.1)
}

/// The targets of a bulk update: of all raindrops fetched for the ids asked
/// for (`explicit`, one per id) and found in the chosen collections
/// (`discovered`), one per id, the last fetched, in id order, less those in
/// an excluded collection; with the selectors that chose them.
pub fn resolve_selection(
    args: &UpdateManyArgs,
    explicit: Vec<Raindrop>,
    discovered: Vec<Raindrop>,
) -> (r: ResolvedUpdateManySelection)
    requires
        explicit@.len() == args.ids@.len(),
    ensures
        exists|pairs: Seq<(i64, Raindrop)>|
            merged(
                pairs,
                selection_entries(args.ids@, explicit@, discovered@),
                args.exclude_collection@,
            ) && r.targets@ == #[trigger] pair_values(pairs),
        r.from_collections@ == args.from_collection@,
        r.excluded_collections@ == args.exclude_collection@,
        opt_text(r.search) == opt_text(args.search),
{
    let ghost entries_view = selection_entries(args.ids@, explicit@, discovered@);
    let mut entries: Vec<(i64, Raindrop)> = Vec::new();
    let mut explicit = explicit;
    let ghost ex = explicit@;
    let ex_len = explicit.len();
    assert(ex.len() == ex_len);
    let mut i: usize = 0;
    while explicit.len() > 0
        invariant
            ex.len() == args.ids@.len(),
            ex.len() <= usize::MAX,
            i <= ex.len(),
            explicit@ == ex.subrange(i as int, ex.len() as int),
            entries@ == Seq::new(i as nat, |k: int| (args.ids@[k], ex[k])),
        decreases explicit.len(),
    {
        let r = explicit.remove(0);
        assert(r == ex[i as int]);
        entries.push((args.ids[i], r));
        assert(entries@ =~= Seq::new((i + 1) as nat, |k: int| (args.ids@[k], ex[k])));
        assert(explicit@ =~= ex.subrange(i + 1, ex.len() as int));
        i = i + 1;
    }
    let mut discovered = discovered;
    let ghost dv = discovered@;
    let dv_len = discovered.len();
    assert(dv.len() == dv_len);
    let ghost head = entries@;
    let mut j: usize = 0;
    while discovered.len() > 0
        invariant
            dv == dv.take(j as int) + discovered@,
            dv.len() <= usize::MAX,
            j <= dv.len(),
            entries@ == head + dv.take(j as int).map_values(|r: Raindrop| (r.id.0, r)),
        decreases discovered.len(),
    {
        let r = discovered.remove(0);
        let ghost before = entries@;
        entries.push((r.id.0, r));
        proof {
            assert(dv.take(j + 1) =~= dv.take(j as int).push(r));
            assert(dv.take(j + 1).map_values(|r: Raindrop| (r.id.0, r)) =~= dv.take(
                j as int,
            ).map_values(|r: Raindrop| (r.id.0, r)).push((r.id.0, r)));
        }
        j = j + 1;
    }
    assert(dv.take(j as int) =~= dv);
    assert(entries@ =~= entries_view);
    let pairs = merge_selection(entries, &args.exclude_collection);
    let ghost pv = pairs@;
    let pv_len = pairs.len();
    assert(pv.len() == pv_len);
    let mut targets: Vec<Raindrop> = Vec::new();
    let mut pairs = pairs;
    let mut k: usize = 0;
    while pairs.len() > 0
        invariant
            pv == pv.take(k as int) + pairs@,
            pv.len() <= usize::MAX,
            k <= pv.len(),
            targets@ == pair_values(pv.take(k as int)),
        decreases pairs.len(),
    {
        let p = pairs.remove(0);
        targets.push(p.1);
        proof {
            assert(pv.take(k + 1) =~= pv.take(k as int).push(p));
            assert(pair_values(pv.take(k + 1)) =~= pair_values(pv.take(k as int)).push(p.1));
        }
        k = k + 1;
    }
    assert(pv.take(k as int) =~= pv);
    ResolvedUpdateManySelection {
        targets,
        from_collections: copy_scopes(&args.from_collection),
        excluded_collections: copy_scopes(&args.exclude_collection),
        search: copy_text(&args.search),
    }
}

/// The change that a bulk update sends: none when it has no targets;
/// else the targets' ids, the destination where one is given, and the tags
/// where some are given. A destination that cannot hold raindrops is
/// refused, once there are targets.
pub fn update_many_payload(selection: &ResolvedUpdateManySelection, args: &UpdateManyArgs) -> (r:
    Result<Option<UpdateManyRaindrops>, InvalidDestinationCollectionScope>)
    ensures
        selection.targets@.len() == 0 ==> r == Ok::<_, InvalidDestinationCollectionScope>(
            None::<UpdateManyRaindrops>,
        ),
        selection.targets@.len() > 0 ==> match args.to_collection {
            Some(c) if !is_destination(c) => r == Err::<Option<UpdateManyRaindrops>, _>(
                InvalidDestinationCollectionScope(c),
            ),
            _ => r matches Ok(Some(p)) && p.ids matches Some(ids) && ids@ == selection.targets@.map_values(
                |t: Raindrop| t.id.0,
            ) && p.collection == destination_ref(args.to_collection) && (if args.tags@.len() > 0 {
                p.tags matches Some(t) && texts(t@) == texts(args.tags@)
            } else {
                p.tags is None
            }),
        },
{
    if selection.targets.len() == 0 {
        return Ok(None);
    }
    let collection = match destination(args.to_collection) {
        Ok(c) => c,
        Err(e) => {
            return Err(e);
        },
    };
    let mut ids: Vec<i64> = Vec::new();
    let mut i: usize = 0;
    while i < selection.targets.len()
        invariant
            0 <= i <= selection.targets@.len(),
            ids@ == selection.targets@.take(i as int).map_values(|t: Raindrop| t.id.0),
        decreases selection.targets@.len() - i,
    {
        ids.push(selection.targets[i].id.0);
        proof {
            assert(selection.targets@.take(i + 1) =~= selection.targets@.take(i as int).push(
                selection.targets@[i as int],
            ));
        }
        assert(ids@ =~= selection.targets@.take(i + 1).map_values(|t: Raindrop| t.id.0));
        i = i + 1;
    }
    assert(selection.targets@.take(i as int) =~= selection.targets@);
    let tags = if args.tags.len() > 0 {
        Some(copy_texts(&args.tags))
    } else {
        None
    };
    Ok(Some(UpdateManyRaindrops { ids: Some(ids), collection, tags }))
}

/// What a bulk update reports once it is done.
pub open spec fn update_many_report_text(sel: ResolvedUpdateManySelection, modified: u64) -> Seq<char> {
    if modified == 0 {
        "No raindrops matched the requested selectors."@
    } else {
        "matched: "@ + nat_text(sel.targets@.len()) + "\nmodified: "@ + nat_text(modified as nat)
            + (if sel.from_collections@.len() > 0 {
            "\nfrom collections: "@ + scopes_text(sel.from_collections@)
        } else {
            Seq::empty()
        }) + (if sel.excluded_collections@.len() > 0 {
            "\nexcluded collections: "@ + scopes_text(sel.excluded_collections@)
        } else {
            Seq::empty()
        }) + match sel.search {
            Some(s) => "\nsearch: "@ + s@,
            None => Seq::empty(),
        }
    }
}

/// The report of a bulk update that changed `modified` raindrops, one line
/// per fact.
pub fn update_many_report(selection: &ResolvedUpdateManySelection, modified: u64) -> (r: String)
    ensures
        r@ == update_many_report_text(*selection, modified),
{
    if modified == 0 {
        return to_owned_string("No raindrops matched the requested selectors.");
    }
    let mut r = to_owned_string("matched: ");
    push_u64(&mut r, selection.targets.len() as u64);
    r.append("\nmodified: ");
    push_u64(&mut r, modified);
    if selection.from_collections.len() > 0 {
        r.append("\nfrom collections: ");
        r.append(format_collection_scopes(&selection.from_collections).as_str());
    }
    if selection.excluded_collections.len() > 0 {
        r.append("\nexcluded collections: ");
        r.append(format_collection_scopes(&selection.excluded_collections).as_str());
    }
    match &selection.search {
        Some(s) => {
            r.append("\nsearch: ");
            r.append(s.as_str());
        },
        None => {},
    }
    assert(r@ =~= update_many_report_text(*selection, modified));
    r
}

/// The report of a bulk update that changed something begins with two
/// lines: how many targets the selection matched, then how many raindrops
/// the API says it modified; the selectors that were given follow, each on
/// its own line. When nothing was modified it says so and nothing more.
pub proof fn law_update_many_report_counts(sel: ResolvedUpdateManySelection, modified: u64)
    ensures
        modified > 0 ==> {
            let head = "matched: "@ + nat_text(sel.targets@.len()) + "\nmodified: "@ + nat_text(
                modified as nat,
            );
            let text = update_many_report_text(sel, modified);
            head.len() <= text.len() && text.subrange(0, head.len() as int) == head
        },
        modified == 0 ==> update_many_report_text(sel, modified)
            == "No raindrops matched the requested selectors."@,
        modified > 0 && sel.from_collections@.len() > 0 ==> has_line(
            update_many_report_text(sel, modified),
            "from collections: "@ + scopes_text(sel.from_collections@),
        ),
        modified > 0 && sel.excluded_collections@.len() > 0 ==> has_line(
            update_many_report_text(sel, modified),
            "excluded collections: "@ + scopes_text(sel.excluded_collections@),
        ),
        modified > 0 && sel.search is Some ==> has_line(
            update_many_report_text(sel, modified),
            "search: "@ + sel.search->0@,
        ),
{
    if modified > 0 {
        reveal_strlit("\n");
        reveal_strlit("\nfrom collections: ");
        reveal_strlit("from collections: ");
        reveal_strlit("\nexcluded collections: ");
        reveal_strlit("excluded collections: ");
        reveal_strlit("\nsearch: ");
        reveal_strlit("search: ");
        let head = "matched: "@ + nat_text(sel.targets@.len()) + "\nmodified: "@ + nat_text(
            modified as nat,
        );
        let from = if sel.from_collections@.len() > 0 {
            "\nfrom collections: "@ + scopes_text(sel.from_collections@)
        } else {
            Seq::empty()
        };
        let excl = if sel.excluded_collections@.len() > 0 {
            "\nexcluded collections: "@ + scopes_text(sel.excluded_collections@)
        } else {
            Seq::empty()
        };
        let search = match sel.search {
            Some(s) => "\nsearch: "@ + s@,
            None => Seq::empty(),
        };
        let text = update_many_report_text(sel, modified);
        assert(text == head + from + excl + search);
        if sel.from_collections@.len() > 0 {
            let line = "from collections: "@ + scopes_text(sel.from_collections@);
            assert(text =~= head + "\n"@ + line + (excl + search));
            assert(excl + search =~= Seq::<char>::empty() || (excl + search)[0] == '\n');
            assert(has_line(text, line));
        }
        if sel.excluded_collections@.len() > 0 {
            let line = "excluded collections: "@ + scopes_text(sel.excluded_collections@);
            assert(text =~= (head + from) + "\n"@ + line + search);
            assert(search =~= Seq::<char>::empty() || search[0] == '\n');
            assert(has_line(text, line));
        }
        if let Some(s) = sel.search {
            let line = "search: "@ + s@;
            assert(text =~= (head + from + excl) + "\n"@ + line + Seq::<char>::empty());
            assert(has_line(text, line));
        }
        let head = "matched: "@ + nat_text(sel.targets@.len()) + "\nmodified: "@ + nat_text(
            modified as nat,
        );
        let text = update_many_report_text(sel, modified);
        assert(text.subrange(0, head.len() as int) =~= head);
    }
}

/// Whether a failed command is run once more with a refreshed access
/// token: only after its first failure, and only when the API answered 401.
pub fn should_refresh(attempted: bool, error: &Error) -> (r: bool)
    ensures
        r == (!attempted && (error matches Error::Api { status, .. } && status == 401)),
{
    !attempted && error.is_refreshable_auth_error()
}

/// The number of raindrops in a full page of an export.
pub open spec fn page_size() -> u32 {
    50
}

/// An export's walk through the pages of a list: it asks for page 0, 1,
/// ... of 50 raindrops each, keeps what each page holds, and stops after
/// the first page with fewer than 50.
pub struct PageWalk<T> {
    scope: CollectionScope,
    search: Option<String>,
    page: u32,
    items: Vec<T>,
    done: bool,
}

impl<T> PageWalk<T> {
    /// The collection that the walk lists.
    pub closed spec fn walk_scope(self) -> CollectionScope {
        self.scope
    }

    /// The search that the walk lists with.
    pub closed spec fn walk_search(self) -> Option<Seq<char>> {
        opt_text(self.search)
    }

    /// The page that the walk asks for next.
    pub closed spec fn next_page(self) -> u32 {
        self.page
    }

    /// What the pages so far held, in order.
    pub closed spec fn collected(self) -> Seq<T> {
        self.items@
    }

    /// Whether the last page has been seen.
    pub closed spec fn finished(self) -> bool {
        self.done
    }

    /// What every step keeps: each page taken in so far, but for a last
    /// short one, held at least 50 raindrops.
    pub closed spec fn well_formed(self) -> bool {
        self.items@.len() >= 50 * self.page
    }

    /// A walk through the raindrops of `scope` that match `search`, if one
    /// is given; nothing fetched yet.
    pub fn start(scope: CollectionScope, search: Option<String>) -> (r: PageWalk<T>)
        ensures
            r.walk_scope() == scope,
            r.walk_search() == opt_text(search),
            r.next_page() == 0,
            r.collected() == Seq::<T>::empty(),
            !r.finished(),
            r.well_formed(),
    {
        PageWalk { scope, search, page: 0, items: Vec::new(), done: false }
    }

    /// The next request of the walk: none once it is finished; else the next
    /// page, of 50, of its collection, with its search.
    pub fn next_request(&self) -> (r: Option<(CollectionScope, RaindropListParams)>)
        ensures
            self.finished() ==> r is None,
            !self.finished() ==> (r matches Some((s, p)) && s == self.walk_scope() && p.page.page
                == Some(self.next_page()) && p.page.per_page == Some(per_page_of(50))
                && opt_text(p.search) == self.walk_search() && p.sort is None && p.nested is None),
    {
        if self.done {
            return None;
        }
        let per_page = PerPage::new_unchecked(50);
        proof {
            lemma_per_page_is_of_value(per_page);
        }
        let params = RaindropListParams {
            page: PageParams { page: Some(self.page), per_page: Some(per_page) },
            search: copy_text(&self.search),
            sort: None,
            nested: None,
        };
        Some((self.scope, params))
    }

    /// Takes in the raindrops of the page just fetched: they are kept, and
    /// the walk is finished when the page held fewer than 50.
    pub fn absorb(&mut self, items: Vec<T>)
        requires
            !old(self).finished(),
            old(self).well_formed(),
            items@.len() >= 50 ==> old(self).next_page() < u32::MAX,
        ensures
            final(self).well_formed(),
            final(self).walk_scope() == old(self).walk_scope(),
            final(self).walk_search() == old(self).walk_search(),
            final(self).collected() == old(self).collected() + items@,
            final(self).finished() == (items@.len() < 50),
            final(self).next_page() == if items@.len() < 50 {
                old(self).next_page()
            } else {
                (old(self).next_page() + 1) as u32
            },
    {
        let count = items.len();
        let mut items = items;
        self.items.append(&mut items);
        if count < 50 {
            self.done = true;
        } else {
            self.page = self.page + 1;
        }
    }

    /// While a walk goes on, the pages it took in were full: it holds at
    /// least 50 raindrops for each page it asked for.
    pub proof fn lemma_pages_full(self)
        requires
            self.well_formed(),
        ensures
            self.collected().len() >= 50 * self.next_page(),
    {
    }

    /// The page that the walk asks for next.
    pub fn current_page(&self) -> (r: u32)
        ensures
            r == self.next_page(),
    {
        self.page
    }

    /// What the walk collected.
    pub fn into_items(self) -> (r: Vec<T>)
        ensures
            r@ == self.collected(),
    {
        self.items
    }
}

/// The media type that `mime_guess` gives a path by its extension, as text;
/// `application/octet-stream` when it knows none.
pub uninterp spec fn guessed_mime(path: Seq<char>) -> Seq<char>;

/// The media type guessed from a path
/// (`mime_guess::from_path(..).first_or_octet_stream()`, shown as text).
#[verifier::external_body]
fn guess_mime(path: &str) -> (r: String)
    ensures
        r@ == guessed_mime(path@),
{
    mime_guess::from_path(path).first_or_octet_stream().to_string()
}

/// The last component of a path, where it has one that is text
/// (`std::path::Path::file_name`).
pub uninterp spec fn path_file_name(path: Seq<char>) -> Option<Seq<char>>;

/// The last component of a path (`Path::file_name`), where it is text.
#[verifier::external_body]
fn file_name_text(path: &str) -> (r: Option<String>)
    ensures
        opt_text(r) == path_file_name(path@),
{
    std::path::Path::new(path).file_name().and_then(|n| n.to_str()).map(|n| n.to_string())
}

/// The media type that an upload of the file at `path` is sent as.
pub fn upload_media_type(path: &str) -> (r: String)
    ensures
        r@ == guessed_mime(path@),
{
    guess_mime(path)
}

/// The file name that an upload of the file at `path` is sent under; a path
/// without one is refused.
pub fn upload_file_name(path: &str) -> (r: Result<String, String>)
    ensures
        match path_file_name(path@) {
            Some(n) => r matches Ok(s) && s@ == n,
            None => r matches Err(m) && m@ == "path has no file name: "@ + path@,
        },
{
    match file_name_text(path) {
        Some(n) => Ok(n),
        None => {
            let mut m = to_owned_string("path has no file name: ");
            m.append(path);
            Err(m)
        },
    }
}

} // verus!
