//! The text that the program prints for what the API returns.

use crate::cli::scan::texts;
use crate::cli::values::opt_text;
use crate::display::{display_text, format_tags, opt_str, shown, tags_text};
use crate::models::collections::Collection;
use crate::models::filters::{FilterBucket, FilterCount, FiltersResponse};
use crate::models::raindrops::Raindrop;
use crate::models::tags::Tag;
use crate::models::user::User;
use crate::text::{int_text, join, joined, nat_text, push_i64, push_u64, to_owned_string};
use vstd::prelude::*;

verus! {

/// The hint that follows a listed page: the previous page where there is
/// one, and the next.
pub open spec fn next_page_hint(current_page: int) -> Seq<char> {
    if current_page > 1 {
        "Hint: use\n`--page "@ + nat_text((current_page - 1) as nat) + "` for the previous page\n`--page "@
            + nat_text((current_page + 1) as nat) + "` for the next page"@
    } else {
        "Hint: use\n`--page "@ + nat_text((current_page + 1) as nat) + "` for the next page"@
    }
}

pub fn format_next_page_hint(current_page: u32) -> (r: String)
    requires
        current_page < u32::MAX,
    ensures
        r@ == next_page_hint(current_page as int),
{
    let next_page = current_page + 1;
    let mut r = to_owned_string("Hint: use\n`--page ");
    if current_page > 1 {
        push_u64(&mut r, (current_page - 1) as u64);
        r.append("` for the previous page\n`--page ");
    }
    push_u64(&mut r, next_page as u64);
    r.append("` for the next page");
    r
}

/// A raindrop as it stands in a list: id, title, link and tags, a line each.
pub open spec fn raindrop_list_item(item: Raindrop) -> Seq<char> {
    "id: "@ + int_text(item.id.0 as int) + "\ntitle: "@ + shown(opt_text(item.title), "(untitled)"@)
        + "\nlink: "@ + shown(opt_text(item.link), "(none)"@) + "\ntags: "@ + tags_text(
        texts(item.tags@),
    )
}

pub fn format_raindrop_list_item(item: &Raindrop) -> (r: String)
    ensures
        r@ == raindrop_list_item(*item),
{
    let mut r = to_owned_string("id: ");
    push_i64(&mut r, item.id.0);
    r.append("\ntitle: ");
    r.append(display_text(opt_str(&item.title), "(untitled)"));
    r.append("\nlink: ");
    r.append(display_text(opt_str(&item.link), "(none)"));
    r.append("\ntags: ");
    r.append(format_tags(&item.tags).as_str());
    r
}

/// A raindrop in full: id, title and link, then its excerpt, collection and
/// tags where it has them.
pub open spec fn raindrop_detail(item: Raindrop) -> Seq<char> {
    "id: "@ + int_text(item.id.0 as int) + "\ntitle: "@ + shown(opt_text(item.title), "(untitled)"@)
        + "\nlink: "@ + shown(opt_text(item.link), "(none)"@) + (match item.excerpt {
        Some(e) => "\nexcerpt: "@ + e@,
        None => Seq::empty(),
    }) + (match item.collection {
        Some(c) => "\ncollection: "@ + int_text(c.id as int),
        None => Seq::empty(),
    }) + (if item.tags@.len() > 0 {
        "\ntags: "@ + joined(texts(item.tags@), ", "@)
    } else {
        Seq::empty()
    })
}

pub fn format_raindrop_detail(item: &Raindrop) -> (r: String)
    ensures
        r@ == raindrop_detail(*item),
{
    let mut r = to_owned_string("id: ");
    push_i64(&mut r, item.id.0);
    r.append("\ntitle: ");
    r.append(display_text(opt_str(&item.title), "(untitled)"));
    r.append("\nlink: ");
    r.append(display_text(opt_str(&item.link), "(none)"));
    let ghost head = r@;
    match &item.excerpt {
        Some(e) => {
            r.append("\nexcerpt: ");
            r.append(e.as_str());
        },
        None => {},
    }
    match &item.collection {
        Some(c) => {
            r.append("\ncollection: ");
            push_i64(&mut r, c.id);
        },
        None => {},
    }
    let ghost with_collection = r@;
    if item.tags.len() > 0 {
        r.append("\ntags: ");
        r.append(join(&item.tags, ", ").as_str());
    }
    assert(r@ =~= raindrop_detail(*item));
    r
}

/// A raindrop on one line: `#id | title | link`, then its collection and
/// tags where it has them.
pub open spec fn raindrop_summary(item: Raindrop) -> Seq<char> {
    "#"@ + int_text(item.id.0 as int) + " | "@ + shown(opt_text(item.title), "(untitled)"@)
        + " | "@ + shown(opt_text(item.link), "(no link)"@) + (match item.collection {
        Some(c) => " | collection="@ + int_text(c.id as int),
        None => Seq::empty(),
    }) + (if item.tags@.len() > 0 {
        " | tags=["@ + joined(texts(item.tags@), ", "@) + "]"@
    } else {
        Seq::empty()
    })
}

pub fn format_raindrop_summary(item: &Raindrop) -> (r: String)
    ensures
        r@ == raindrop_summary(*item),
{
    let mut r = to_owned_string("#");
    push_i64(&mut r, item.id.0);
    r.append(" | ");
    r.append(display_text(opt_str(&item.title), "(untitled)"));
    r.append(" | ");
    r.append(display_text(opt_str(&item.link), "(no link)"));
    let ghost head = r@;
    match &item.collection {
        Some(c) => {
            r.append(" | collection=");
            push_i64(&mut r, c.id);
        },
        None => {},
    }
    let ghost with_collection = r@;
    if item.tags.len() > 0 {
        r.append(" | tags=[");
        r.append(join(&item.tags, ", ").as_str());
        r.append("]");
    }
    assert(r@ =~= raindrop_summary(*item));
    r
}

/// A collection in full: id and title, then its parent and count where it
/// has them, a line each.
pub open spec fn collection_detail(item: Collection) -> Seq<char> {
    "id: "@ + int_text(item.id as int) + "\ntitle: "@ + shown(opt_text(item.title), "(untitled)"@)
        + (match item.parent {
        Some(p) => "\nparent: "@ + int_text(p as int),
        None => Seq::empty(),
    }) + (match item.count {
        Some(c) => "\ncount: "@ + nat_text(c as nat),
        None => Seq::empty(),
    })
}

/// `text` holds `line` as a whole line after its first: a line break
/// stands before it, and the end of the text or a line break after it.
pub open spec fn has_line(text: Seq<char>, line: Seq<char>) -> bool {
    exists|x: Seq<char>, y: Seq<char>|
        text == x + "\n"@ + line + y && (y.len() == 0 || y[0] == '\n')
}

/// A collection's detail starts with its id, shows its title (or
/// `(untitled)`) on a `title:` line, its parent on a `parent:` line and its
/// raindrop count on a `count:` line, each where the collection has one.
pub proof fn law_collection_detail_fields(item: Collection)
    ensures
        ({
            let head = "id: "@ + int_text(item.id as int) + "\n"@;
            let text = collection_detail(item);
            head.len() <= text.len() && text.subrange(0, head.len() as int) == head
        }),
        item.parent matches Some(p) ==> has_line(
            collection_detail(item),
            "parent: "@ + int_text(p as int),
        ),
        item.count matches Some(c) ==> has_line(collection_detail(item), "count: "@ + nat_text(c as nat)),
        has_line(
            collection_detail(item),
            "title: "@ + shown(opt_text(item.title), "(untitled)"@),
        ),
{
    reveal_strlit("\n");
    reveal_strlit("\nparent: ");
    reveal_strlit("\ncount: ");
    reveal_strlit("parent: ");
    reveal_strlit("count: ");
    reveal_strlit("id: ");
    reveal_strlit("\ntitle: ");
    let text = collection_detail(item);
    let head = "id: "@ + int_text(item.id as int) + "\n"@;
    let title = "id: "@ + int_text(item.id as int) + "\ntitle: "@ + shown(opt_text(item.title), "(untitled)"@);
    let pp = match item.parent {
        Some(p) => "\nparent: "@ + int_text(p as int),
        None => Seq::empty(),
    };
    let cc = match item.count {
        Some(c) => "\ncount: "@ + nat_text(c as nat),
        None => Seq::empty(),
    };
    assert(text == title + pp + cc);
    assert(text.subrange(0, head.len() as int) =~= head);
    reveal_strlit("title: ");
    let tl = "title: "@ + shown(opt_text(item.title), "(untitled)"@);
    assert(text =~= ("id: "@ + int_text(item.id as int)) + "\n"@ + tl + (pp + cc));
    assert(pp + cc =~= Seq::<char>::empty() || (pp + cc)[0] == '\n');
    assert(has_line(text, tl));
    if let Some(p) = item.parent {
        let line = "parent: "@ + int_text(p as int);
        assert(text =~= title + "\n"@ + line + cc);
        assert(cc.len() == 0 || cc[0] == '\n');
        assert(has_line(text, line));
    }
    if let Some(c) = item.count {
        let line = "count: "@ + nat_text(c as nat);
        assert(text =~= (title + pp) + "\n"@ + line + Seq::<char>::empty());
        assert(has_line(text, line));
    }
}

pub fn format_collection_detail(item: &Collection) -> (r: String)
    ensures
        r@ == collection_detail(*item),
{
    let mut r = to_owned_string("id: ");
    push_i64(&mut r, item.id);
    r.append("\ntitle: ");
    r.append(display_text(opt_str(&item.title), "(untitled)"));
    let ghost head = r@;
    match item.parent {
        Some(p) => {
            r.append("\nparent: ");
            push_i64(&mut r, p);
        },
        None => {},
    }
    let ghost with_parent = r@;
    match item.count {
        Some(c) => {
            r.append("\ncount: ");
            push_u64(&mut r, c as u64);
        },
        None => {},
    }
    assert(r@ =~= collection_detail(*item));
    r
}

/// A collection on one line: `#id | title`, then its parent and count.
pub open spec fn collection_summary(item: Collection) -> Seq<char> {
    "#"@ + int_text(item.id as int) + " | "@ + shown(opt_text(item.title), "(untitled)"@) + (
    match item.parent {
        Some(p) => " | parent="@ + int_text(p as int),
        None => Seq::empty(),
    }) + (match item.count {
        Some(c) => " | count="@ + nat_text(c as nat),
        None => Seq::empty(),
    })
}

pub fn format_collection_summary(item: &Collection) -> (r: String)
    ensures
        r@ == collection_summary(*item),
{
    let mut r = to_owned_string("#");
    push_i64(&mut r, item.id);
    r.append(" | ");
    r.append(display_text(opt_str(&item.title), "(untitled)"));
    let ghost head = r@;
    match item.parent {
        Some(p) => {
            r.append(" | parent=");
            push_i64(&mut r, p);
        },
        None => {},
    }
    let ghost with_parent = r@;
    match item.count {
        Some(c) => {
            r.append(" | count=");
            push_u64(&mut r, c as u64);
        },
        None => {},
    }
    assert(r@ =~= collection_summary(*item));
    r
}

/// A tag with its count where the API gives one.
pub open spec fn tag_line(tag: Tag) -> Seq<char> {
    match tag.count {
        Some(c) => tag.id@ + " ("@ + nat_text(c as nat) + ")"@,
        None => tag.id@,
    }
}

pub fn format_tag(tag: &Tag) -> (r: String)
    ensures
        r@ == tag_line(*tag),
{
    let mut r = tag.id.clone();
    match tag.count {
        Some(c) => {
            r.append(" (");
            push_u64(&mut r, c);
            r.append(")");
        },
        None => {},
    }
    assert(r@ =~= tag_line(*tag));
    r
}

/// The user: id, then full name and email where known.
pub open spec fn user_text(user: User) -> Seq<char> {
    "id: "@ + int_text(user.id as int) + "\n"@ + (match user.full_name {
        Some(n) => "full_name: "@ + n@ + "\n"@,
        None => Seq::empty(),
    }) + (match user.email {
        Some(e) => "email: "@ + e@,
        None => Seq::empty(),
    })
}

pub fn format_user(user: &User) -> (r: String)
    ensures
        r@ == user_text(*user),
{
    let mut r = to_owned_string("id: ");
    push_i64(&mut r, user.id);
    r.append("\n");
    let ghost head = r@;
    match &user.full_name {
        Some(n) => {
            r.append("full_name: ");
            r.append(n.as_str());
            r.append("\n");
        },
        None => {},
    }
    match &user.email {
        Some(e) => {
            r.append("email: ");
            r.append(e.as_str());
        },
        None => {},
    }
    assert(r@ =~= user_text(*user));
    r
}

/// A count group of the filters: `label: count`.
pub open spec fn count_group(label: Seq<char>, count: Option<FilterCount>) -> Seq<Seq<char>> {
    match count {
        Some(c) => seq![label + ": "@ + nat_text(c.count as nat)],
        None => seq![],
    }
}

pub open spec fn bucket_lines(buckets: Seq<FilterBucket>) -> Seq<char>
    decreases buckets.len(),
{
    if buckets.len() == 0 {
        Seq::empty()
    } else {
        bucket_lines(buckets.drop_last()) + "\n  "@ + buckets.last().id@ + " ("@ + nat_text(
            buckets.last().count as nat,
        ) + ")"@
    }
}

/// A bucket group of the filters: `label:` and an indented line per bucket.
pub open spec fn bucket_group(label: Seq<char>, buckets: Seq<FilterBucket>) -> Seq<Seq<char>> {
    if buckets.len() == 0 {
        seq![]
    } else {
        seq![label + ":"@ + bucket_lines(buckets)]
    }
}

/// The filters, group by group, with a blank line between groups.
pub open spec fn filters_text(f: FiltersResponse) -> Seq<char> {
    joined(
        count_group("total"@, f.total) + count_group("highlights"@, f.highlights) + count_group(
            "notag"@,
            f.notag,
        ) + count_group("broken"@, f.broken) + count_group("duplicates"@, f.duplicates)
            + count_group("important"@, f.important) + bucket_group("tags"@, f.tags@)
            + bucket_group("types"@, f.types@) + bucket_group("created"@, f.created@),
        "\n\n"@,
    )
}

/// `text` holds `part` as one of its groups: a blank line or the start of
/// the text before it, and a blank line or the end of the text after it.
pub open spec fn has_group(text: Seq<char>, part: Seq<char>) -> bool {
    exists|x: Seq<char>, y: Seq<char>|
        text == x + part + y && (x.len() == 0 || (x.len() >= 2 && x.subrange(
            x.len() - 2,
            x.len() as int,
        ) == "\n\n"@)) && (y.len() == 0 || (y.len() >= 2 && y.take(2) == "\n\n"@))
}

proof fn lemma_joined_append(a: Seq<Seq<char>>, b: Seq<Seq<char>>, sep: Seq<char>)
    ensures
        joined(a + b, sep) == joined(a, sep) + (if a.len() > 0 && b.len() > 0 {
            sep
        } else {
            Seq::empty()
        }) + joined(b, sep),
    decreases b.len(),
{
    if b.len() == 0 {
        assert(a + b =~= a);
        assert(joined(a, sep) + Seq::<char>::empty() + Seq::<char>::empty() =~= joined(a, sep));
    } else if b.len() == 1 {
        if a.len() == 0 {
            assert(a + b =~= b);
            assert(Seq::<char>::empty() + Seq::<char>::empty() + joined(b, sep) =~= joined(b, sep));
        } else {
            assert((a + b).drop_last() =~= a);
        }
    } else {
        lemma_joined_append(a, b.drop_last(), sep);
        assert((a + b).drop_last() =~= a + b.drop_last());
        assert(b.drop_last().len() > 0);
        let m = if a.len() > 0 {
            sep
        } else {
            Seq::empty()
        };
        assert(joined(a + b, sep) =~= joined(a, sep) + m + joined(b, sep));
    }
}

proof fn lemma_group_in_joined(a: Seq<Seq<char>>, g: Seq<char>, b: Seq<Seq<char>>)
    ensures
        has_group(joined(a + seq![g] + b, "\n\n"@), g),
{
    reveal_strlit("\n\n");
    let sep = "\n\n"@;
    lemma_joined_append(a, seq![g], sep);
    lemma_joined_append(a + seq![g], b, sep);
    let x = joined(a, sep) + (if a.len() > 0 {
        sep
    } else {
        Seq::empty()
    });
    let y = (if b.len() > 0 {
        sep
    } else {
        Seq::empty()
    }) + joined(b, sep);
    assert(joined(seq![g], sep) == g);
    assert(joined(a + seq![g] + b, sep) =~= x + g + y);
    if a.len() > 0 {
        assert(x.subrange(x.len() - 2, x.len() as int) =~= sep);
    } else {
        assert(x =~= Seq::<char>::empty());
    }
    if b.len() > 0 {
        assert(y.take(2) =~= sep);
    } else {
        assert(y =~= Seq::<char>::empty());
    }
}

/// Nine lists of groups, one after another.
pub open spec fn flat9(g: Seq<Seq<Seq<char>>>) -> Seq<Seq<char>> {
    g[0] + g[1] + g[2] + g[3] + g[4] + g[5] + g[6] + g[7] + g[8]
}

pub open spec fn flat_upto(g: Seq<Seq<Seq<char>>>, n: int) -> Seq<Seq<char>>
    decreases n,
{
    if n <= 0 {
        Seq::empty()
    } else {
        flat_upto(g, n - 1) + g[n - 1]
    }
}

pub open spec fn flat_from(g: Seq<Seq<Seq<char>>>, n: int) -> Seq<Seq<char>>
    decreases g.len() - n,
{
    if n >= g.len() {
        Seq::empty()
    } else {
        g[n] + flat_from(g, n + 1)
    }
}

proof fn lemma_flat_split(g: Seq<Seq<Seq<char>>>, i: int)
    requires
        0 <= i <= g.len(),
    ensures
        flat_upto(g, g.len() as int) =~= flat_upto(g, i) + flat_from(g, i),
    decreases g.len() - i,
{
    if i < g.len() {
        lemma_flat_split(g, i + 1);
        assert(flat_from(g, i) =~= g[i] + flat_from(g, i + 1));
        assert(flat_upto(g, i + 1) =~= flat_upto(g, i) + g[i]);
    }
}

/// A group that stands alone in its list shows in the joined text.
proof fn lemma_group_at(g: Seq<Seq<Seq<char>>>, i: int)
    requires
        g.len() == 9,
        0 <= i < 9,
        g[i].len() == 1,
    ensures
        has_group(joined(flat9(g), "\n\n"@), g[i][0]),
{
    reveal_with_fuel(flat_upto, 10);
    reveal_with_fuel(flat_from, 2);
    assert(flat9(g) =~= flat_upto(g, 9));
    lemma_flat_split(g, i);
    lemma_flat_split(g, i + 1);
    assert(flat_upto(g, i + 1) =~= flat_upto(g, i) + g[i]);
    assert(g[i] =~= seq![g[i][0]]);
    assert(flat9(g) =~= flat_upto(g, i) + seq![g[i][0]] + flat_from(g, i + 1));
    lemma_group_in_joined(flat_upto(g, i), g[i][0], flat_from(g, i + 1));
}

/// Each count the filters give shows as its own group, labelled with the
/// field it comes from (`broken: 2` for `broken`), and each non-empty list
/// of buckets as a group under its own field's label.
#[verifier::spinoff_prover]
#[verifier::rlimit(50)]
pub proof fn law_filters_groups_follow_fields(f: FiltersResponse)
    ensures
        f.total matches Some(c) ==> has_group(filters_text(f), "total: "@ + nat_text(c.count as nat)),
        f.highlights matches Some(c) ==> has_group(
            filters_text(f),
            "highlights: "@ + nat_text(c.count as nat),
        ),
        f.notag matches Some(c) ==> has_group(filters_text(f), "notag: "@ + nat_text(c.count as nat)),
        f.broken matches Some(c) ==> has_group(filters_text(f), "broken: "@ + nat_text(c.count as nat)),
        f.duplicates matches Some(c) ==> has_group(
            filters_text(f),
            "duplicates: "@ + nat_text(c.count as nat),
        ),
        f.important matches Some(c) ==> has_group(
            filters_text(f),
            "important: "@ + nat_text(c.count as nat),
        ),
        f.tags@.len() > 0 ==> has_group(filters_text(f), "tags:"@ + bucket_lines(f.tags@)),
        f.types@.len() > 0 ==> has_group(filters_text(f), "types:"@ + bucket_lines(f.types@)),
        f.created@.len() > 0 ==> has_group(filters_text(f), "created:"@ + bucket_lines(f.created@)),
{
    let g = seq![
        count_group("total"@, f.total),
        count_group("highlights"@, f.highlights),
        count_group("notag"@, f.notag),
        count_group("broken"@, f.broken),
        count_group("duplicates"@, f.duplicates),
        count_group("important"@, f.important),
        bucket_group("tags"@, f.tags@),
        bucket_group("types"@, f.types@),
        bucket_group("created"@, f.created@),
    ];
    assert(filters_text(f) == joined(flat9(g), "\n\n"@));
    if f.total is Some {
        assert(has_group(filters_text(f), "total: "@ + nat_text(f.total->0.count as nat))) by {
            reveal_strlit("total");
            reveal_strlit(": ");
            reveal_strlit("total: ");
            lemma_group_at(g, 0);
            assert(g[0][0] =~= "total: "@ + nat_text(f.total->0.count as nat));
        }
    }
    if f.highlights is Some {
        assert(has_group(filters_text(f), "highlights: "@ + nat_text(f.highlights->0.count as nat))) by {
            reveal_strlit("highlights");
            reveal_strlit(": ");
            reveal_strlit("highlights: ");
            lemma_group_at(g, 1);
            assert(g[1][0] =~= "highlights: "@ + nat_text(f.highlights->0.count as nat));
        }
    }
    if f.notag is Some {
        assert(has_group(filters_text(f), "notag: "@ + nat_text(f.notag->0.count as nat))) by {
            reveal_strlit("notag");
            reveal_strlit(": ");
            reveal_strlit("notag: ");
            lemma_group_at(g, 2);
            assert(g[2][0] =~= "notag: "@ + nat_text(f.notag->0.count as nat));
        }
    }
    if f.broken is Some {
        assert(has_group(filters_text(f), "broken: "@ + nat_text(f.broken->0.count as nat))) by {
            reveal_strlit("broken");
            reveal_strlit(": ");
            reveal_strlit("broken: ");
            lemma_group_at(g, 3);
            assert(g[3][0] =~= "broken: "@ + nat_text(f.broken->0.count as nat));
        }
    }
    if f.duplicates is Some {
        assert(has_group(filters_text(f), "duplicates: "@ + nat_text(f.duplicates->0.count as nat))) by {
            reveal_strlit("duplicates");
            reveal_strlit(": ");
            reveal_strlit("duplicates: ");
            lemma_group_at(g, 4);
            assert(g[4][0] =~= "duplicates: "@ + nat_text(f.duplicates->0.count as nat));
        }
    }
    if f.important is Some {
        assert(has_group(filters_text(f), "important: "@ + nat_text(f.important->0.count as nat))) by {
            reveal_strlit("important");
            reveal_strlit(": ");
            reveal_strlit("important: ");
            lemma_group_at(g, 5);
            assert(g[5][0] =~= "important: "@ + nat_text(f.important->0.count as nat));
        }
    }
    if f.tags@.len() > 0 {
        assert(has_group(filters_text(f), "tags:"@ + bucket_lines(f.tags@))) by {
            reveal_strlit("tags");
            reveal_strlit(":");
            reveal_strlit("tags:");
            lemma_group_at(g, 6);
            assert(g[6][0] =~= "tags:"@ + bucket_lines(f.tags@));
        }
    }
    if f.types@.len() > 0 {
        assert(has_group(filters_text(f), "types:"@ + bucket_lines(f.types@))) by {
            reveal_strlit("types");
            reveal_strlit(":");
            reveal_strlit("types:");
            lemma_group_at(g, 7);
            assert(g[7][0] =~= "types:"@ + bucket_lines(f.types@));
        }
    }
    if f.created@.len() > 0 {
        assert(has_group(filters_text(f), "created:"@ + bucket_lines(f.created@))) by {
            reveal_strlit("created");
            reveal_strlit(":");
            reveal_strlit("created:");
            lemma_group_at(g, 8);
            assert(g[8][0] =~= "created:"@ + bucket_lines(f.created@));
        }
    }
}

fn push_count(groups: &mut Vec<String>, label: &str, count: Option<FilterCount>)
    ensures
        texts(final(groups)@) == texts(old(groups)@) + count_group(label@, count),
{
    match count {
        Some(c) => {
            let mut g = to_owned_string(label);
            g.append(": ");
            push_u64(&mut g, c.count as u64);
            let ghost before = groups@;
            groups.push(g);
            assert(texts(groups@) =~= texts(before) + count_group(label@, count));
        },
        None => {
            assert(texts(groups@) =~= texts(groups@) + count_group(label@, count));
        },
    }
}

fn push_buckets(groups: &mut Vec<String>, label: &str, buckets: &Vec<FilterBucket>)
    ensures
        texts(final(groups)@) == texts(old(groups)@) + bucket_group(label@, buckets@),
{
    if buckets.len() == 0 {
        assert(texts(groups@) =~= texts(groups@) + bucket_group(label@, buckets@));
        return ;
    }
    let mut g = to_owned_string(label);
    g.append(":");
    let ghost head = g@;
    let mut i: usize = 0;
    while i < buckets.len()
        invariant
            0 <= i <= buckets.len(),
            g@ == head + bucket_lines(buckets@.take(i as int)),
        decreases buckets.len() - i,
    {
        let b = &buckets[i];
        g.append("\n  ");
        g.append(b.id.as_str());
        g.append(" (");
        push_u64(&mut g, b.count as u64);
        g.append(")");
        proof {
            let next = buckets@.take(i + 1);
            assert(next.drop_last() =~= buckets@.take(i as int));
        }
        i = i + 1;
        assert(g@ =~= head + bucket_lines(buckets@.take(i as int)));
    }
    assert(buckets@.take(buckets.len() as int) =~= buckets@);
    let ghost before = groups@;
    groups.push(g);
    assert(texts(groups@) =~= texts(before) + bucket_group(label@, buckets@));
}

pub fn format_filters(filters: &FiltersResponse) -> (r: String)
    ensures
        r@ == filters_text(*filters),
{
    let mut groups: Vec<String> = Vec::new();
    assert(texts(groups@) =~= Seq::<Seq<char>>::empty());
    push_count(&mut groups, "total", filters.total);
    push_count(&mut groups, "highlights", filters.highlights);
    push_count(&mut groups, "notag", filters.notag);
    push_count(&mut groups, "broken", filters.broken);
    push_count(&mut groups, "duplicates", filters.duplicates);
    push_count(&mut groups, "important", filters.important);
    push_buckets(&mut groups, "tags", &filters.tags);
    push_buckets(&mut groups, "types", &filters.types);
    push_buckets(&mut groups, "created", &filters.created);
    proof {
        let f = *filters;
        assert(texts(groups@) =~= count_group("total"@, f.total) + count_group(
            "highlights"@,
            f.highlights,
        ) + count_group("notag"@, f.notag) + count_group("broken"@, f.broken) + count_group(
            "duplicates"@,
            f.duplicates,
        ) + count_group("important"@, f.important) + bucket_group("tags"@, f.tags@)
            + bucket_group("types"@, f.types@) + bucket_group("created"@, f.created@));
    }
    join(&groups, "\n\n")
}

/// A page of listed raindrops: a count, the page hint and the raindrops,
/// a blank line between two; or a note that there are none.
pub open spec fn raindrop_list_text(items: Seq<Raindrop>, current_page: int) -> Seq<char> {
    if items.len() == 0 {
        "No raindrops found."@
    } else {
        "Listed raindrops: "@ + nat_text(items.len()) + "\n"@ + next_page_hint(current_page)
            + "\n\n"@ + joined(items.map_values(|i: Raindrop| raindrop_list_item(i)), "\n\n"@)
    }
}

pub fn format_raindrop_list(items: &Vec<Raindrop>, current_page: u32) -> (r: String)
    requires
        current_page < u32::MAX,
    ensures
        r@ == raindrop_list_text(items@, current_page as int),
{
    if items.len() == 0 {
        return to_owned_string("No raindrops found.");
    }
    let mut lines: Vec<String> = Vec::new();
    let mut i: usize = 0;
    while i < items.len()
        invariant
            0 <= i <= items@.len(),
            texts(lines@) == items@.take(i as int).map_values(|i: Raindrop| raindrop_list_item(i)),
        decreases items@.len() - i,
    {
        let ghost before = lines@;
        lines.push(format_raindrop_list_item(&items[i]));
        proof {
            assert(items@.take(i + 1) =~= items@.take(i as int).push(items@[i as int]));
            assert(texts(lines@) =~= texts(before).push(raindrop_list_item(items@[i as int])));
        }
        assert(texts(lines@) =~= items@.take(i + 1).map_values(|i: Raindrop| raindrop_list_item(i)));
        i = i + 1;
    }
    assert(items@.take(items@.len() as int) =~= items@);
    let mut r = to_owned_string("Listed raindrops: ");
    push_u64(&mut r, items.len() as u64);
    r.append("\n");
    r.append(format_next_page_hint(current_page).as_str());
    r.append("\n\n");
    r.append(join(&lines, "\n\n").as_str());
    r
}

/// Raindrops just created, a summary line each; or a note that there are
/// none.
pub open spec fn created_list_text(items: Seq<Raindrop>) -> Seq<char> {
    if items.len() == 0 {
        "No raindrops created."@
    } else {
        joined(items.map_values(|i: Raindrop| raindrop_summary(i)), "\n"@)
    }
}

pub fn format_created_list(items: &Vec<Raindrop>) -> (r: String)
    ensures
        r@ == created_list_text(items@),
{
    if items.len() == 0 {
        return to_owned_string("No raindrops created.");
    }
    let mut lines: Vec<String> = Vec::new();
    let mut i: usize = 0;
    while i < items.len()
        invariant
            0 <= i <= items@.len(),
            texts(lines@) == items@.take(i as int).map_values(|i: Raindrop| raindrop_summary(i)),
        decreases items@.len() - i,
    {
        let ghost before = lines@;
        lines.push(format_raindrop_summary(&items[i]));
        proof {
            assert(items@.take(i + 1) =~= items@.take(i as int).push(items@[i as int]));
            assert(texts(lines@) =~= texts(before).push(raindrop_summary(items@[i as int])));
        }
        assert(texts(lines@) =~= items@.take(i + 1).map_values(|i: Raindrop| raindrop_summary(i)));
        i = i + 1;
    }
    assert(items@.take(items@.len() as int) =~= items@);
    join(&lines, "\n")
}

/// Collections, a summary line each; or a note that there are none.
pub open spec fn collection_list_text(items: Seq<Collection>) -> Seq<char> {
    if items.len() == 0 {
        "No collections found."@
    } else {
        joined(items.map_values(|c: Collection| collection_summary(c)), "\n"@)
    }
}

pub fn format_collection_list(items: &Vec<Collection>) -> (r: String)
    ensures
        r@ == collection_list_text(items@),
{
    if items.len() == 0 {
        return to_owned_string("No collections found.");
    }
    let mut lines: Vec<String> = Vec::new();
    let mut i: usize = 0;
    while i < items.len()
        invariant
            0 <= i <= items@.len(),
            texts(lines@) == items@.take(i as int).map_values(|c: Collection| collection_summary(c)),
        decreases items@.len() - i,
    {
        let ghost before = lines@;
        lines.push(format_collection_summary(&items[i]));
        proof {
            assert(items@.take(i + 1) =~= items@.take(i as int).push(items@[i as int]));
            assert(texts(lines@) =~= texts(before).push(collection_summary(items@[i as int])));
        }
        assert(texts(lines@) =~= items@.take(i + 1).map_values(
            |c: Collection| collection_summary(c),
        ));
        i = i + 1;
    }
    assert(items@.take(items@.len() as int) =~= items@);
    join(&lines, "\n")
}

/// Tags, a line each; or a note that there are none.
pub open spec fn tag_list_text(items: Seq<Tag>) -> Seq<char> {
    if items.len() == 0 {
        "No tags found."@
    } else {
        joined(items.map_values(|t: Tag| tag_line(t)), "\n"@)
    }
}

pub fn format_tag_list(items: &Vec<Tag>) -> (r: String)
    ensures
        r@ == tag_list_text(items@),
{
    if items.len() == 0 {
        return to_owned_string("No tags found.");
    }
    let mut lines: Vec<String> = Vec::new();
    let mut i: usize = 0;
    while i < items.len()
        invariant
            0 <= i <= items@.len(),
            texts(lines@) == items@.take(i as int).map_values(|t: Tag| tag_line(t)),
        decreases items@.len() - i,
    {
        let ghost before = lines@;
        lines.push(format_tag(&items[i]));
        proof {
            assert(items@.take(i + 1) =~= items@.take(i as int).push(items@[i as int]));
            assert(texts(lines@) =~= texts(before).push(tag_line(items@[i as int])));
        }
        assert(texts(lines@) =~= items@.take(i + 1).map_values(|t: Tag| tag_line(t)));
        i = i + 1;
    }
    assert(items@.take(items@.len() as int) =~= items@);
    join(&lines, "\n")
}

/// The line that reports the outcome of a change, such as `deleted: true`.
pub fn outcome_line(label: &str, outcome: bool) -> (r: String)
    ensures
        r@ == label@ + ": "@ + if outcome {
            "true"@
        } else {
            "false"@
        },
{
    let mut r = to_owned_string(label);
    r.append(": ");
    r.append(if outcome { "true" } else { "false" });
    r
}

/// The line that reports an export.
pub fn export_message(count: usize, path: &str) -> (r: String)
    ensures
        r@ == "exported "@ + nat_text(count as nat) + " raindrops to "@ + path@,
{
    let mut r = to_owned_string("exported ");
    push_u64(&mut r, count as u64);
    r.append(" raindrops to ");
    r.append(path);
    r
}

} // verus!
