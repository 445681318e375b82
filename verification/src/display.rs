//! Small pieces of text that the program's output is made of.

use crate::cli::scan::texts;
use crate::cli::values::opt_text;
use crate::models::common::{scope_label, scope_of, CollectionScope};
use crate::text::{int_text, is_blank, is_blank_str, join, joined, push_i64, to_owned_string};
use vstd::prelude::*;

verus! {

pub open spec fn opt_str_view(o: Option<&str>) -> Option<Seq<char>> {
    match o {
        Some(s) => Some(s@),
        None => None,
    }
}

/// A text to show: the value when it holds more than whitespace, else the
/// fallback.
pub open spec fn shown(value: Option<Seq<char>>, fallback: Seq<char>) -> Seq<char> {
    match value {
        Some(t) => if is_blank(t) {
            fallback
        } else {
            t
        },
        None => fallback,
    }
}

/// Tags as a list, or `(none)` when there are none.
pub open spec fn tags_text(tags: Seq<Seq<char>>) -> Seq<char> {
    if tags.len() == 0 {
        "(none)"@
    } else {
        joined(tags, ", "@)
    }
}

/// A parent collection id, or `(none)`.
pub open spec fn parent_text(parent: Option<i64>) -> Seq<char> {
    match parent {
        Some(p) => int_text(p as int),
        None => "(none)"@,
    }
}

/// Scopes shown by their labels, comma-separated.
pub open spec fn scopes_text(scopes: Seq<CollectionScope>) -> Seq<char> {
    joined(scopes.map_values(|s: CollectionScope| scope_label(s)), ", "@)
}

/// The label of the scope that a collection id names.
pub open spec fn collection_label(id: i64) -> Seq<char> {
    scope_label(scope_of(id))
}

pub fn opt_str(o: &Option<String>) -> (r: Option<&str>)
    ensures
        opt_str_view(r) == opt_text(*o),
{
    match o {
        Some(s) => Some(s.as_str()),
        None => None,
    }
}

/// The value when it holds more than whitespace, else the fallback.
pub fn display_text<'a>(value: Option<&'a str>, fallback: &'a str) -> (r: &'a str)
    ensures
        r@ == shown(opt_str_view(value), fallback@),
{
    match value {
        Some(t) => if is_blank_str(t) {
            fallback
        } else {
            t
        },
        None => fallback,
    }
}

/// Tags as a list, or `(none)` when there are none.
pub fn format_tags(tags: &Vec<String>) -> (r: String)
    ensures
        r@ == tags_text(texts(tags@)),
{
    if tags.len() == 0 {
        to_owned_string("(none)")
    } else {
        join(tags, ", ")
    }
}

/// A parent collection id, or `(none)`.
pub fn display_parent(parent: Option<i64>) -> (r: String)
    ensures
        r@ == parent_text(parent),
{
    match parent {
        Some(p) => {
            let mut r = String::new();
            push_i64(&mut r, p);
            assert(r@ =~= int_text(p as int));
            r
        },
        None => to_owned_string("(none)"),
    }
}

/// Scopes shown by their labels, comma-separated.
pub fn format_collection_scopes(scopes: &Vec<CollectionScope>) -> (r: String)
    ensures
        r@ == scopes_text(scopes@),
{
    let mut labels: Vec<String> = Vec::new();
    let mut i: usize = 0;
    while i < scopes.len()
        invariant
            0 <= i <= scopes.len(),
            labels@.len() == i,
            texts(labels@) == scopes@.take(i as int).map_values(|s: CollectionScope| scope_label(s)),
        decreases scopes.len() - i,
    {
        let l = scopes[i].to_string();
        let ghost before = labels@;
        labels.push(l);
        i = i + 1;
        assert forall|j: int| 0 <= j < i implies #[trigger] texts(labels@)[j] == scopes@.take(
            i as int,
        ).map_values(|s: CollectionScope| scope_label(s))[j] by {
            if j < i - 1 {
                assert(labels@[j] == before[j]);
                assert(texts(before)[j] == scopes@.take(i - 1).map_values(
                    |s: CollectionScope| scope_label(s),
                )[j]);
            }
        }
        assert(texts(labels@) =~= scopes@.take(i as int).map_values(
            |s: CollectionScope| scope_label(s),
        ));
    }
    assert(scopes@.take(scopes.len() as int) =~= scopes@);
    join(&labels, ", ")
}

/// A terminal hyperlink (OSC 8) that shows `label` and leads to `url`.
pub fn terminal_link(label: &str, url: &str) -> (r: String)
    ensures
        r@ == "\x1b]8;;"@ + url@ + "\x1b\\"@ + label@ + "\x1b]8;;\x1b\\"@,
{
    let mut r = to_owned_string("\x1b]8;;");
    r.append(url);
    r.append("\x1b\\");
    r.append(label);
    r.append("\x1b]8;;\x1b\\");
    r
}

/// Appends the decimal text of `i` (a helper for building output).
pub fn append_int(out: &mut String, i: i64)
    ensures
        final(out)@ == old(out)@ + int_text(i as int),
{
    push_i64(out, i);
}

} // verus!
