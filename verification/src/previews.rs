//! Dry-run previews: what a changing command would do, shown before (and in
//! place of) doing it.

use crate::cli::args::{DeleteTagArgs, RenameTagArgs, UpdateManyArgs};
use crate::cli::scan::texts;
use crate::cli::values::opt_text;
use crate::display::{
    collection_label, display_parent, display_text, format_collection_scopes, format_tags,
    opt_str, parent_text, scopes_text, shown, tags_text,
};
use crate::models::collections::{Collection, CreateCollection, UpdateCollection};
use crate::models::common::{scope_label, CollectionScope};
use crate::models::raindrops::{CollectionRef, CreateRaindrop, Raindrop, UpdateRaindrop};
use crate::selection::ResolvedUpdateManySelection;
use crate::text::{int_text, join, joined, nat_text, push_i64, push_u64, to_owned_string};
use vstd::prelude::*;

verus! {

pub open spec fn title_of(r: Raindrop) -> Seq<char> {
    shown(opt_text(r.title), "(untitled)"@)
}

pub open spec fn title_change(existing: Raindrop, p: UpdateRaindrop) -> Seq<Seq<char>> {
    match p.title {
        Some(t) => seq!["Title: "@ + title_of(existing) + " -> "@ + t@],
        None => seq![],
    }
}

pub open spec fn excerpt_change(existing: Raindrop, p: UpdateRaindrop) -> Seq<Seq<char>> {
    match p.excerpt {
        Some(e) => seq![
            "Excerpt: "@ + shown(opt_text(existing.excerpt), "(none)"@) + " -> "@ + e@,
        ],
        None => seq![],
    }
}

pub open spec fn collection_change(existing: Raindrop, p: UpdateRaindrop) -> Seq<Seq<char>> {
    match p.collection {
        Some(c) => seq![
            "Collection: "@ + (match existing.collection {
                Some(old) => collection_label(old.id),
                None => "(none)"@,
            }) + " -> "@ + collection_label(c.id),
        ],
        None => seq![],
    }
}

pub open spec fn tags_change(existing: Raindrop, p: UpdateRaindrop) -> Seq<Seq<char>> {
    match p.tags {
        Some(t) => seq!["Tags: "@ + tags_text(texts(existing.tags@)) + " -> "@ + tags_text(texts(t@))],
        None => seq![],
    }
}

/// The lines that say how a change would alter a raindrop, one per field
/// that the change sets, in the order title, excerpt, collection, tags.
pub open spec fn change_lines_of(existing: Raindrop, p: UpdateRaindrop) -> Seq<Seq<char>> {
    title_change(existing, p) + excerpt_change(existing, p) + collection_change(existing, p)
        + tags_change(existing, p)
}

fn push_line(lines: &mut Vec<String>, line: String)
    ensures
        texts(final(lines)@) == texts(old(lines)@).push(line@),
{
    let ghost before = lines@;
    lines.push(line);
    assert(texts(lines@) =~= texts(before).push(line@));
}

impl Raindrop {
    /// How `payload` would alter this raindrop, a line per field it sets.
    pub fn change_lines(&self, payload: &UpdateRaindrop) -> (r: Vec<String>)
        ensures
            texts(r@) == change_lines_of(*self, *payload),
    {
        let mut lines: Vec<String> = Vec::new();
        assert(texts(lines@) =~= Seq::<Seq<char>>::empty());
        let ghost a = title_change(*self, *payload);
        match &payload.title {
            Some(t) => {
                let mut l = to_owned_string("Title: ");
                l.append(display_text(opt_str(&self.title), "(untitled)"));
                l.append(" -> ");
                l.append(t.as_str());
                push_line(&mut lines, l);
            },
            None => {},
        }
        assert(texts(lines@) =~= a);
        let ghost b = excerpt_change(*self, *payload);
        match &payload.excerpt {
            Some(e) => {
                let mut l = to_owned_string("Excerpt: ");
                l.append(display_text(opt_str(&self.excerpt), "(none)"));
                l.append(" -> ");
                l.append(e.as_str());
                push_line(&mut lines, l);
            },
            None => {},
        }
        assert(texts(lines@) =~= a + b);
        let ghost c = collection_change(*self, *payload);
        match &payload.collection {
            Some(target) => {
                let mut l = to_owned_string("Collection: ");
                match &self.collection {
                    Some(old) => {
                        l.append(CollectionScope::from_wire_id(old.id).to_string().as_str());
                    },
                    None => {
                        l.append("(none)");
                    },
                }
                l.append(" -> ");
                l.append(CollectionScope::from_wire_id(target.id).to_string().as_str());
                push_line(&mut lines, l);
            },
            None => {},
        }
        assert(texts(lines@) =~= a + b + c);
        match &payload.tags {
            Some(t) => {
                let mut l = to_owned_string("Tags: ");
                l.append(format_tags(&self.tags).as_str());
                l.append(" -> ");
                l.append(format_tags(t).as_str());
                push_line(&mut lines, l);
            },
            None => {},
        }
        assert(texts(lines@) =~= change_lines_of(*self, *payload));
        lines
    }
}

/// The preview of creating a raindrop.
pub struct CreateRaindropPreview<'a> {
    pub payload: &'a CreateRaindrop,
}

pub open spec fn create_raindrop_text(p: CreateRaindrop) -> Seq<char> {
    "Dry Run: Create Raindrop\nLink: "@ + p.link@ + (match p.title {
        Some(t) => "\nTitle: "@ + t@,
        None => Seq::empty(),
    }) + (match p.collection {
        Some(c) => "\nCollection: "@ + collection_label(c.id),
        None => Seq::empty(),
    }) + (if p.tags@.len() > 0 {
        "\nTags: "@ + tags_text(texts(p.tags@))
    } else {
        Seq::empty()
    })
}

impl<'a> CreateRaindropPreview<'a> {
    pub fn new(payload: &'a CreateRaindrop) -> (r: Self)
        ensures
            r.payload == payload,
    {
        CreateRaindropPreview { payload }
    }

    pub fn to_string(&self) -> (r: String)
        ensures
            r@ == create_raindrop_text(*self.payload),
    {
        let p = self.payload;
        let mut r = to_owned_string("Dry Run: Create Raindrop\nLink: ");
        r.append(p.link.as_str());
        let ghost s0 = r@;
        match &p.title {
            Some(t) => {
                r.append("\nTitle: ");
                r.append(t.as_str());
            },
            None => {},
        }
        let ghost s1 = r@;
        match &p.collection {
            Some(c) => {
                r.append("\nCollection: ");
                r.append(CollectionScope::from_wire_id(c.id).to_string().as_str());
            },
            None => {},
        }
        let ghost s2 = r@;
        if p.tags.len() > 0 {
            r.append("\nTags: ");
            r.append(format_tags(&p.tags).as_str());
        }
        assert(r@ =~= create_raindrop_text(*p));
        r
    }
}

/// The preview of changing a raindrop.
pub struct UpdateRaindropPreview<'a> {
    pub existing_raindrop: &'a Raindrop,
    pub payload: &'a UpdateRaindrop,
}

pub open spec fn target_head(kind: Seq<char>, id: int, title: Seq<char>) -> Seq<char> {
    "Dry Run: "@ + kind + "\nTarget\nID: "@ + int_text(id) + "\nTitle: "@ + title
}

pub open spec fn update_raindrop_text(existing: Raindrop, p: UpdateRaindrop) -> Seq<char> {
    let changes = change_lines_of(existing, p);
    target_head("Update Raindrop"@, existing.id.0 as int, title_of(existing)) + "\n"@ + if changes.len()
        > 0 {
        "\nChanges\n"@ + joined(changes, "\n"@)
    } else {
        "\nNo changes found."@
    }
}

fn push_target_head(r: &mut String, kind: &str, id: i64, title: &str)
    ensures
        final(r)@ == old(r)@ + target_head(kind@, id as int, title@),
{
    r.append("Dry Run: ");
    r.append(kind);
    r.append("\nTarget\nID: ");
    push_i64(r, id);
    r.append("\nTitle: ");
    r.append(title);
    assert(final(r)@ =~= old(r)@ + target_head(kind@, id as int, title@));
}

impl<'a> UpdateRaindropPreview<'a> {
    pub fn new(existing_raindrop: &'a Raindrop, payload: &'a UpdateRaindrop) -> (r: Self)
        ensures
            r.existing_raindrop == existing_raindrop,
            r.payload == payload,
    {
        UpdateRaindropPreview { existing_raindrop, payload }
    }

    pub fn to_string(&self) -> (r: String)
        ensures
            r@ == update_raindrop_text(*self.existing_raindrop, *self.payload),
    {
        let e = self.existing_raindrop;
        let mut r = String::new();
        push_target_head(
            &mut r,
            "Update Raindrop",
            e.id.0,
            display_text(opt_str(&e.title), "(untitled)"),
        );
        r.append("\n");
        let changes = e.change_lines(self.payload);
        if changes.len() > 0 {
            r.append("\nChanges\n");
            r.append(join(&changes, "\n").as_str());
        } else {
            r.append("\nNo changes found.");
        }
        assert(r@ =~= update_raindrop_text(*e, *self.payload));
        r
    }
}

/// The preview of removing a raindrop.
pub struct DeleteRaindropPreview<'a> {
    pub existing_raindrop: &'a Raindrop,
}

impl<'a> DeleteRaindropPreview<'a> {
    pub fn new(existing_raindrop: &'a Raindrop) -> (r: Self)
        ensures
            r.existing_raindrop == existing_raindrop,
    {
        DeleteRaindropPreview { existing_raindrop }
    }

    pub fn to_string(&self) -> (r: String)
        ensures
            r@ == target_head(
                "Delete Raindrop"@,
                self.existing_raindrop.id.0 as int,
                title_of(*self.existing_raindrop),
            ),
    {
        let e = self.existing_raindrop;
        let mut r = String::new();
        push_target_head(
            &mut r,
            "Delete Raindrop",
            e.id.0,
            display_text(opt_str(&e.title), "(untitled)"),
        );
        assert(r@ =~= target_head("Delete Raindrop"@, e.id.0 as int, title_of(*e)));
        r
    }
}

/// The preview of uploading a file as a raindrop.
pub struct UploadRaindropFilePreview<'a> {
    pub path: &'a str,
}

impl<'a> UploadRaindropFilePreview<'a> {
    pub fn new(path: &'a str) -> (r: Self)
        ensures
            r.path == path,
    {
        UploadRaindropFilePreview { path }
    }

    pub fn to_string(&self) -> (r: String)
        ensures
            r@ == "Dry Run: Upload Raindrop File\nPath: "@ + self.path@,
    {
        let mut r = to_owned_string("Dry Run: Upload Raindrop File\nPath: ");
        r.append(self.path);
        r
    }
}

/// The preview of uploading a raindrop's cover.
pub struct UploadRaindropCoverPreview<'a> {
    pub existing_raindrop: &'a Raindrop,
    pub path: &'a str,
}

impl<'a> UploadRaindropCoverPreview<'a> {
    pub fn new(existing_raindrop: &'a Raindrop, path: &'a str) -> (r: Self)
        ensures
            r.existing_raindrop == existing_raindrop,
            r.path == path,
    {
        UploadRaindropCoverPreview { existing_raindrop, path }
    }

    pub fn to_string(&self) -> (r: String)
        ensures
            r@ == target_head(
                "Upload Raindrop Cover"@,
                self.existing_raindrop.id.0 as int,
                title_of(*self.existing_raindrop),
            ) + "\nPath: "@ + self.path@,
    {
        let e = self.existing_raindrop;
        let mut r = String::new();
        push_target_head(
            &mut r,
            "Upload Raindrop Cover",
            e.id.0,
            display_text(opt_str(&e.title), "(untitled)"),
        );
        r.append("\nPath: ");
        r.append(self.path);
        assert(r@ =~= target_head("Upload Raindrop Cover"@, e.id.0 as int, title_of(*e))
            + "\nPath: "@ + self.path@);
        r
    }
}

/// The preview of creating raindrops from a file of payloads.
pub struct CreateManyRaindropsPreview<'a> {
    pub input: &'a str,
    pub payloads: &'a Vec<CreateRaindrop>,
}

pub open spec fn payload_items(ps: Seq<CreateRaindrop>) -> Seq<char>
    decreases ps.len(),
{
    if ps.len() == 0 {
        Seq::empty()
    } else {
        payload_items(ps.drop_last()) + (if ps.len() > 1 {
            "\n\n"@
        } else {
            Seq::empty()
        }) + "Title: "@ + shown(opt_text(ps.last().title), "(untitled)"@) + "\nLink: "@
            + ps.last().link@
    }
}

pub open spec fn create_many_text(input: Seq<char>, ps: Seq<CreateRaindrop>) -> Seq<char> {
    "Dry Run: Create Many Raindrops\nInput: "@ + input + "\nCount: "@ + nat_text(ps.len())
        + "\n\nItems to Create\n"@ + payload_items(ps)
}

impl<'a> CreateManyRaindropsPreview<'a> {
    pub fn new(input: &'a str, payloads: &'a Vec<CreateRaindrop>) -> (r: Self)
        ensures
            r.input == input,
            r.payloads == payloads,
    {
        CreateManyRaindropsPreview { input, payloads }
    }

    pub fn to_string(&self) -> (r: String)
        ensures
            r@ == create_many_text(self.input@, self.payloads@),
    {
        let ps = self.payloads;
        let mut r = to_owned_string("Dry Run: Create Many Raindrops\nInput: ");
        r.append(self.input);
        r.append("\nCount: ");
        push_u64(&mut r, ps.len() as u64);
        r.append("\n\nItems to Create\n");
        let ghost head = r@;
        let mut i: usize = 0;
        while i < ps.len()
            invariant
                0 <= i <= ps.len(),
                r@ == head + payload_items(ps@.take(i as int)),
            decreases ps.len() - i,
        {
            if i > 0 {
                r.append("\n\n");
            }
            r.append("Title: ");
            r.append(display_text(opt_str(&ps[i].title), "(untitled)"));
            r.append("\nLink: ");
            r.append(ps[i].link.as_str());
            proof {
                assert(ps@.take(i + 1).drop_last() =~= ps@.take(i as int));
            }
            i = i + 1;
            assert(r@ =~= head + payload_items(ps@.take(i as int)));
        }
        assert(ps@.take(ps.len() as int) =~= ps@);
        r
    }
}

/// The preview of changing many raindrops.
pub struct UpdateManyRaindropsPreview<'a> {
    pub selection: &'a ResolvedUpdateManySelection,
    pub args: &'a UpdateManyArgs,
}

pub open spec fn target_list(ts: Seq<Raindrop>) -> Seq<char>
    decreases ts.len(),
{
    if ts.len() == 0 {
        Seq::empty()
    } else {
        target_list(ts.drop_last()) + "- #"@ + int_text(ts.last().id.0 as int) + " "@ + title_of(
            ts.last(),
        ) + "\n"@
    }
}

pub open spec fn line_block(lines: Seq<Seq<char>>) -> Seq<char>
    decreases lines.len(),
{
    if lines.len() == 0 {
        Seq::empty()
    } else {
        line_block(lines.drop_last()) + lines.last() + "\n"@
    }
}

pub open spec fn target_changes(ts: Seq<Raindrop>, p: UpdateRaindrop) -> Seq<char>
    decreases ts.len(),
{
    if ts.len() == 0 {
        Seq::empty()
    } else {
        target_changes(ts.drop_last(), p) + (if ts.len() > 1 {
            "\n"@
        } else {
            Seq::empty()
        }) + "ID: "@ + int_text(ts.last().id.0 as int) + "\nTitle: "@ + title_of(ts.last())
            + "\n"@ + line_block(change_lines_of(ts.last(), p))
    }
}

/// The change that a bulk update applies to each target.
pub open spec fn bulk_change(args: UpdateManyArgs) -> UpdateRaindrop {
    UpdateRaindrop {
        title: None,
        excerpt: None,
        collection: match args.to_collection {
            Some(s) => Some(CollectionRef { id: crate::models::common::wire_id(s) }),
            None => None,
        },
        tags: if args.tags@.len() > 0 {
            Some(args.tags)
        } else {
            None
        },
    }
}

pub open spec fn scope_block(sel: ResolvedUpdateManySelection) -> Seq<char> {
    let has_scope = sel.from_collections@.len() > 0 || sel.excluded_collections@.len() > 0
        || sel.search is Some;
    (if has_scope {
        "\nScope\n"@
    } else {
        Seq::empty()
    }) + (if sel.from_collections@.len() > 0 {
        "From Collections: "@ + scopes_text(sel.from_collections@) + "\n"@
    } else {
        Seq::empty()
    }) + (if sel.excluded_collections@.len() > 0 {
        "Excluded Collections: "@ + scopes_text(sel.excluded_collections@) + "\n"@
    } else {
        Seq::empty()
    }) + (match sel.search {
        Some(s) => "Search: "@ + s@ + "\n"@,
        None => Seq::empty(),
    })
}

pub open spec fn changes_block(sel: ResolvedUpdateManySelection, args: UpdateManyArgs) -> Seq<char> {
    if args.to_collection is Some || args.tags@.len() > 0 {
        "\nChanges\n"@ + target_changes(sel.targets@, bulk_change(args))
    } else {
        Seq::empty()
    }
}

/// The part of the preview of updating many raindrops that shows what was
/// selected, before the changes.
pub open spec fn update_many_selection_text(sel: ResolvedUpdateManySelection) -> Seq<char> {
    "Dry Run: Update Many Raindrops\nMatched: "@ + nat_text(sel.targets@.len()) + "\n"@
        + scope_block(sel) + "\nMatched Targets\n"@ + target_list(sel.targets@)
}

pub open spec fn update_many_text(sel: ResolvedUpdateManySelection, args: UpdateManyArgs) -> Seq<
    char,
> {
    update_many_selection_text(sel) + changes_block(sel, args)
}

/// A destination that raindrops can be moved into (not `All` or `Trash`).
pub open spec fn valid_destination(s: Option<CollectionScope>) -> bool {
    match s {
        Some(CollectionScope::All) | Some(CollectionScope::Trash) => false,
        _ => true,
    }
}

/// Two changes that set no title or excerpt, the same collection, and tags
/// with the same contents.
pub open spec fn same_bulk_change(p: UpdateRaindrop, q: UpdateRaindrop) -> bool {
    &&& p.title is None && q.title is None
    &&& p.excerpt is None && q.excerpt is None
    &&& p.collection == q.collection
    &&& (p.tags is Some <==> q.tags is Some)
    &&& p.tags is Some ==> p.tags.unwrap()@ == q.tags.unwrap()@
}

proof fn lemma_same_target_changes(ts: Seq<Raindrop>, p: UpdateRaindrop, q: UpdateRaindrop)
    requires
        same_bulk_change(p, q),
    ensures
        target_changes(ts, p) == target_changes(ts, q),
    decreases ts.len(),
{
    if ts.len() > 0 {
        lemma_same_target_changes(ts.drop_last(), p, q);
        assert(change_lines_of(ts.last(), p) == change_lines_of(ts.last(), q));
    }
}

fn push_target_list(r: &mut String, ts: &Vec<Raindrop>)
    ensures
        final(r)@ == old(r)@ + target_list(ts@),
{
    let ghost head = r@;
    let mut i: usize = 0;
    while i < ts.len()
        invariant
            0 <= i <= ts.len(),
            r@ == head + target_list(ts@.take(i as int)),
        decreases ts.len() - i,
    {
        let t = &ts[i];
        r.append("- #");
        push_i64(r, t.id.0);
        r.append(" ");
        r.append(display_text(opt_str(&t.title), "(untitled)"));
        r.append("\n");
        proof {
            assert(ts@.take(i + 1).drop_last() =~= ts@.take(i as int));
        }
        i = i + 1;
        assert(r@ =~= head + target_list(ts@.take(i as int)));
    }
    assert(ts@.take(ts.len() as int) =~= ts@);
}

fn push_change_block(r: &mut String, lines: &Vec<String>)
    ensures
        final(r)@ == old(r)@ + line_block(texts(lines@)),
{
    let ghost before_lines = r@;
    let mut j: usize = 0;
    while j < lines.len()
        invariant
            0 <= j <= lines.len(),
            r@ == before_lines + line_block(texts(lines@).take(j as int)),
        decreases lines.len() - j,
    {
        r.append(lines[j].as_str());
        r.append("\n");
        proof {
            assert(texts(lines@).take(j + 1).drop_last() =~= texts(lines@).take(j as int));
        }
        j = j + 1;
        assert(r@ =~= before_lines + line_block(texts(lines@).take(j as int)));
    }
    assert(texts(lines@).take(lines.len() as int) =~= texts(lines@));
}

fn push_target_changes(r: &mut String, ts: &Vec<Raindrop>, payload: &UpdateRaindrop)
    ensures
        final(r)@ == old(r)@ + target_changes(ts@, *payload),
{
    let ghost mid = r@;
    let mut k: usize = 0;
    while k < ts.len()
        invariant
            0 <= k <= ts.len(),
            r@ == mid + target_changes(ts@.take(k as int), *payload),
        decreases ts.len() - k,
    {
        let t = &ts[k];
        if k > 0 {
            r.append("\n");
        }
        r.append("ID: ");
        push_i64(r, t.id.0);
        r.append("\nTitle: ");
        r.append(display_text(opt_str(&t.title), "(untitled)"));
        r.append("\n");
        let lines = t.change_lines(payload);
        push_change_block(r, &lines);
        proof {
            assert(ts@.take(k + 1).drop_last() =~= ts@.take(k as int));
        }
        k = k + 1;
        assert(r@ =~= mid + target_changes(ts@.take(k as int), *payload));
    }
    assert(ts@.take(ts.len() as int) =~= ts@);
}

fn push_scope_block(r: &mut String, sel: &ResolvedUpdateManySelection)
    ensures
        final(r)@ == old(r)@ + scope_block(*sel),
{
    let ghost s0 = r@;
    if sel.from_collections.len() > 0 || sel.excluded_collections.len() > 0
        || sel.search.is_some() {
        r.append("\nScope\n");
    }
    let ghost s1 = r@;
    if sel.from_collections.len() > 0 {
        r.append("From Collections: ");
        r.append(format_collection_scopes(&sel.from_collections).as_str());
        r.append("\n");
    }
    let ghost s2 = r@;
    assert(s2 == s1 + (if sel.from_collections@.len() > 0 {
        "From Collections: "@ + scopes_text(sel.from_collections@) + "\n"@
    } else {
        Seq::<char>::empty()
    }));
    if sel.excluded_collections.len() > 0 {
        r.append("Excluded Collections: ");
        r.append(format_collection_scopes(&sel.excluded_collections).as_str());
        r.append("\n");
    }
    let ghost s3 = r@;
    assert(s3 == s2 + (if sel.excluded_collections@.len() > 0 {
        "Excluded Collections: "@ + scopes_text(sel.excluded_collections@) + "\n"@
    } else {
        Seq::<char>::empty()
    }));
    match &sel.search {
        Some(s) => {
            r.append("Search: ");
            r.append(s.as_str());
            r.append("\n");
        },
        None => {},
    }
    assert(r@ == s3 + (match sel.search {
        Some(s) => "Search: "@ + s@ + "\n"@,
        None => Seq::<char>::empty(),
    }));
    assert(r@ =~= s0 + scope_block(*sel));
}

/// The change that a bulk update applies to each target, built from its
/// arguments.
pub fn bulk_payload(args: &UpdateManyArgs) -> (r: UpdateRaindrop)
    requires
        valid_destination(args.to_collection),
    ensures
        same_bulk_change(r, bulk_change(*args)),
{
    let collection = match args.to_collection {
        Some(s) => match CollectionRef::from_destination(s) {
            Ok(c) => Some(c),
            Err(_) => None,
        },
        None => None,
    };
    let tags = if args.tags.len() > 0 {
        let t = args.tags.clone();
        proof {
            assert forall|i: int| 0 <= i < t@.len() implies t@[i] == args.tags@[i] by {
                assert(cloned(args.tags[i], t[i]));
            }
            assert(t@ =~= args.tags@);
        }
        Some(t)
    } else {
        None
    };
    UpdateRaindrop { title: None, excerpt: None, collection, tags }
}

fn push_changes_block(r: &mut String, sel: &ResolvedUpdateManySelection, args: &UpdateManyArgs)
    requires
        valid_destination(args.to_collection),
    ensures
        final(r)@ == old(r)@ + changes_block(*sel, *args),
{
    let ghost s0 = r@;
    if args.to_collection.is_some() || args.tags.len() > 0 {
        let payload = bulk_payload(args);
        r.append("\nChanges\n");
        push_target_changes(r, &sel.targets, &payload);
        proof {
            lemma_same_target_changes(sel.targets@, payload, bulk_change(*args));
        }
    }
    assert(r@ =~= s0 + changes_block(*sel, *args));
}

impl<'a> UpdateManyRaindropsPreview<'a> {
    pub fn new(selection: &'a ResolvedUpdateManySelection, args: &'a UpdateManyArgs) -> (r: Self)
        ensures
            r.selection == selection,
            r.args == args,
    {
        UpdateManyRaindropsPreview { selection, args }
    }

    /// The part of the preview that shows what was selected; it is written
    /// whatever the destination.
    pub fn selection_text(&self) -> (r: String)
        ensures
            r@ == update_many_selection_text(*self.selection),
    {
        let sel = self.selection;
        let mut r = to_owned_string("Dry Run: Update Many Raindrops\nMatched: ");
        push_u64(&mut r, sel.targets.len() as u64);
        r.append("\n");
        push_scope_block(&mut r, sel);
        r.append("\nMatched Targets\n");
        push_target_list(&mut r, &sel.targets);
        assert(r@ =~= update_many_selection_text(*sel));
        r
    }

    pub fn to_string(&self) -> (r: String)
        requires
            valid_destination(self.args.to_collection),
        ensures
            r@ == update_many_text(*self.selection, *self.args),
    {
        let mut r = self.selection_text();
        push_changes_block(&mut r, self.selection, self.args);
        r
    }
}

/// The preview of removing many raindrops.
pub struct DeleteManyRaindropsPreview<'a> {
    pub collection_scope: CollectionScope,
    pub targets: &'a Vec<Raindrop>,
}

pub open spec fn target_entries(ts: Seq<Raindrop>) -> Seq<Seq<char>> {
    ts.map_values(|t: Raindrop| "ID: "@ + int_text(t.id.0 as int) + "\nTitle: "@ + title_of(t))
}

pub open spec fn delete_many_text(scope: CollectionScope, ts: Seq<Raindrop>) -> Seq<char> {
    "Dry Run: Delete Many Raindrops\nMatched: "@ + nat_text(ts.len()) + "\n\nScope\nCollection: "@
        + scope_label(scope) + "\n\nMatched Targets\n"@ + joined(target_entries(ts), "\n\n"@)
}

impl<'a> DeleteManyRaindropsPreview<'a> {
    pub fn new(collection_scope: CollectionScope, targets: &'a Vec<Raindrop>) -> (r: Self)
        ensures
            r.collection_scope == collection_scope,
            r.targets == targets,
    {
        DeleteManyRaindropsPreview { collection_scope, targets }
    }

    pub fn to_string(&self) -> (r: String)
        ensures
            r@ == delete_many_text(self.collection_scope, self.targets@),
    {
        let ts = self.targets;
        let mut r = to_owned_string("Dry Run: Delete Many Raindrops\nMatched: ");
        push_u64(&mut r, ts.len() as u64);
        r.append("\n\nScope\nCollection: ");
        r.append(self.collection_scope.to_string().as_str());
        r.append("\n\nMatched Targets\n");
        let mut entries: Vec<String> = Vec::new();
        let mut i: usize = 0;
        while i < ts.len()
            invariant
                0 <= i <= ts.len(),
                entries@.len() == i,
                texts(entries@) == target_entries(ts@.take(i as int)),
            decreases ts.len() - i,
        {
            let t = &ts[i];
            let mut e = to_owned_string("ID: ");
            push_i64(&mut e, t.id.0);
            e.append("\nTitle: ");
            e.append(display_text(opt_str(&t.title), "(untitled)"));
            let ghost before = entries@;
            entries.push(e);
            i = i + 1;
            assert forall|j: int| 0 <= j < i implies #[trigger] texts(entries@)[j]
                == target_entries(ts@.take(i as int))[j] by {
                if j < i - 1 {
                    assert(entries@[j] == before[j]);
                    assert(texts(before)[j] == target_entries(ts@.take(i - 1))[j]);
                }
            }
            assert(texts(entries@) =~= target_entries(ts@.take(i as int)));
        }
        assert(ts@.take(ts.len() as int) =~= ts@);
        r.append(join(&entries, "\n\n").as_str());
        r
    }
}

/// The preview of creating a collection.
pub struct CreateCollectionPreview<'a> {
    pub payload: &'a CreateCollection,
}

impl<'a> CreateCollectionPreview<'a> {
    pub fn new(payload: &'a CreateCollection) -> (r: Self)
        ensures
            r.payload == payload,
    {
        CreateCollectionPreview { payload }
    }

    pub fn to_string(&self) -> (r: String)
        ensures
            r@ == "Dry Run: Create Collection\nTitle: "@ + self.payload.title@ + (
            match self.payload.parent {
                Some(p) => "\nParent: "@ + int_text(p as int),
                None => Seq::empty(),
            }),
    {
        let mut r = to_owned_string("Dry Run: Create Collection\nTitle: ");
        r.append(self.payload.title.as_str());
        let ghost head = r@;
        match self.payload.parent {
            Some(p) => {
                r.append("\nParent: ");
                push_i64(&mut r, p);
            },
            None => {},
        }
        assert(r@ =~= head + match self.payload.parent {
            Some(p) => "\nParent: "@ + int_text(p as int),
            None => Seq::empty(),
        });
        r
    }
}

/// The preview of changing a collection.
pub struct UpdateCollectionPreview<'a> {
    pub existing_collection: &'a Collection,
    pub payload: &'a UpdateCollection,
}

pub open spec fn collection_title_change(c: Collection, p: UpdateCollection) -> Seq<Seq<char>> {
    match p.title {
        Some(t) => seq!["Title: "@ + shown(opt_text(c.title), "(untitled)"@) + " -> "@ + t@],
        None => seq![],
    }
}

pub open spec fn collection_changes(c: Collection, p: UpdateCollection) -> Seq<Seq<char>> {
    collection_title_change(c, p) + match p.parent {
        Some(pp) => seq!["Parent: "@ + parent_text(c.parent) + " -> "@ + int_text(pp as int)],
        None => seq![],
    }
}

pub open spec fn update_collection_text(c: Collection, p: UpdateCollection) -> Seq<char> {
    let changes = collection_changes(c, p);
    target_head("Update Collection"@, c.id as int, shown(opt_text(c.title), "(untitled)"@))
        + "\n"@ + if changes.len() > 0 {
        "\nChanges\n"@ + joined(changes, "\n"@)
    } else {
        Seq::empty()
    }
}

impl<'a> UpdateCollectionPreview<'a> {
    pub fn new(existing_collection: &'a Collection, payload: &'a UpdateCollection) -> (r: Self)
        ensures
            r.existing_collection == existing_collection,
            r.payload == payload,
    {
        UpdateCollectionPreview { existing_collection, payload }
    }

    pub fn to_string(&self) -> (r: String)
        ensures
            r@ == update_collection_text(*self.existing_collection, *self.payload),
    {
        let c = self.existing_collection;
        let p = self.payload;
        let existing_title = display_text(opt_str(&c.title), "(untitled)");
        let mut r = String::new();
        push_target_head(&mut r, "Update Collection", c.id, existing_title);
        r.append("\n");
        let mut changes: Vec<String> = Vec::new();
        assert(texts(changes@) =~= Seq::<Seq<char>>::empty());
        let ghost a = collection_title_change(*c, *p);
        match &p.title {
            Some(t) => {
                let mut l = to_owned_string("Title: ");
                l.append(existing_title);
                l.append(" -> ");
                l.append(t.as_str());
                push_line(&mut changes, l);
            },
            None => {},
        }
        assert(texts(changes@) =~= a);
        match p.parent {
            Some(pp) => {
                let mut l = to_owned_string("Parent: ");
                l.append(display_parent(c.parent).as_str());
                l.append(" -> ");
                push_i64(&mut l, pp);
                push_line(&mut changes, l);
            },
            None => {},
        }
        assert(texts(changes@) =~= collection_changes(*c, *p));
        if changes.len() > 0 {
            r.append("\nChanges\n");
            r.append(join(&changes, "\n").as_str());
        }
        assert(r@ =~= update_collection_text(*c, *p));
        r
    }
}

/// The preview of removing a collection.
pub struct DeleteCollectionPreview<'a> {
    pub existing_collection: &'a Collection,
}

impl<'a> DeleteCollectionPreview<'a> {
    pub fn new(existing_collection: &'a Collection) -> (r: Self)
        ensures
            r.existing_collection == existing_collection,
    {
        DeleteCollectionPreview { existing_collection }
    }

    pub fn to_string(&self) -> (r: String)
        ensures
            r@ == target_head(
                "Delete Collection"@,
                self.existing_collection.id as int,
                shown(opt_text(self.existing_collection.title), "(untitled)"@),
            ),
    {
        let c = self.existing_collection;
        let mut r = String::new();
        push_target_head(
            &mut r,
            "Delete Collection",
            c.id,
            display_text(opt_str(&c.title), "(untitled)"),
        );
        assert(r@ =~= target_head(
            "Delete Collection"@,
            c.id as int,
            shown(opt_text(c.title), "(untitled)"@),
        ));
        r
    }
}

/// The preview of uploading a collection's cover.
pub struct UploadCollectionCoverPreview<'a> {
    pub existing_collection: &'a Collection,
    pub path: &'a str,
}

impl<'a> UploadCollectionCoverPreview<'a> {
    pub fn new(existing_collection: &'a Collection, path: &'a str) -> (r: Self)
        ensures
            r.existing_collection == existing_collection,
            r.path == path,
    {
        UploadCollectionCoverPreview { existing_collection, path }
    }

    pub fn to_string(&self) -> (r: String)
        ensures
            r@ == target_head(
                "Upload Collection Cover"@,
                self.existing_collection.id as int,
                shown(opt_text(self.existing_collection.title), "(untitled)"@),
            ) + "\nPath: "@ + self.path@,
    {
        let c = self.existing_collection;
        let mut r = String::new();
        push_target_head(
            &mut r,
            "Upload Collection Cover",
            c.id,
            display_text(opt_str(&c.title), "(untitled)"),
        );
        r.append("\nPath: ");
        r.append(self.path);
        assert(r@ =~= target_head(
            "Upload Collection Cover"@,
            c.id as int,
            shown(opt_text(c.title), "(untitled)"@),
        ) + "\nPath: "@ + self.path@);
        r
    }
}

/// The preview of renaming a tag.
pub struct RenameTagPreview<'a> {
    pub args: &'a RenameTagArgs,
}

impl<'a> RenameTagPreview<'a> {
    pub fn new(args: &'a RenameTagArgs) -> (r: Self)
        ensures
            r.args == args,
    {
        RenameTagPreview { args }
    }

    pub fn to_string(&self) -> (r: String)
        ensures
            r@ == "Dry Run: Rename Tag\nTarget\nCollection: "@ + int_text(
                self.args.collection_id as int,
            ) + "\nTag: "@ + self.args.find@ + "\n\nChanges\nTag: "@ + self.args.find@ + " -> "@
                + self.args.replace@,
    {
        let mut r = to_owned_string("Dry Run: Rename Tag\nTarget\nCollection: ");
        push_i64(&mut r, self.args.collection_id);
        r.append("\nTag: ");
        r.append(self.args.find.as_str());
        r.append("\n\nChanges\nTag: ");
        r.append(self.args.find.as_str());
        r.append(" -> ");
        r.append(self.args.replace.as_str());
        r
    }
}

/// The preview of removing a tag.
pub struct DeleteTagPreview<'a> {
    pub args: &'a DeleteTagArgs,
}

impl<'a> DeleteTagPreview<'a> {
    pub fn new(args: &'a DeleteTagArgs) -> (r: Self)
        ensures
            r.args == args,
    {
        DeleteTagPreview { args }
    }

    pub fn to_string(&self) -> (r: String)
        ensures
            r@ == "Dry Run: Delete Tag\nTarget\nCollection: "@ + int_text(
                self.args.collection_id as int,
            ) + "\nTag: "@ + self.args.tag@,
    {
        let mut r = to_owned_string("Dry Run: Delete Tag\nTarget\nCollection: ");
        push_i64(&mut r, self.args.collection_id);
        r.append("\nTag: ");
        r.append(self.args.tag.as_str());
        r
    }
}

} // verus!
