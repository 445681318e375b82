//! Reading the values that a command line gave an option or a positional slot.

use crate::cli::scan::texts;
use crate::models::common::{scope_from_text, CollectionScope};
use crate::models::common::lemma_nat_text_reads_back;
use crate::pagination::{lemma_per_page_is_of_value, per_page_in_range, per_page_of, PerPage};
use crate::text::{
    is_digit, nat_text, parse_i64, parse_i64_spec, parse_u32, parse_u32_spec, push_u64,
    to_owned_string,
};
use vstd::prelude::*;

verus! {

/// A page number as people count pages, from 1.
#[derive(Debug, Clone, Copy, PartialEq, Eq, Structural)]
pub struct CliPage(pub u32);

/// The page that a `--page` value names: a number from 1 on.
pub open spec fn cli_page_from_text(s: Seq<char>) -> Option<CliPage> {
    match parse_u32_spec(s) {
        Some(n) => if n != 0 {
            Some(CliPage(n))
        } else {
            None
        },
        None => None,
    }
}

/// The page size that a `--per-page` value names.
pub open spec fn per_page_from_text(s: Seq<char>) -> Option<PerPage> {
    match parse_u32_spec(s) {
        Some(n) => if per_page_in_range(n as int) {
            Some(per_page_of(n))
        } else {
            None
        },
        None => None,
    }
}

impl CliPage {
    /// The page number as it is shown.
    pub fn as_display(self) -> (r: u32)
        ensures
            r == self.0,
    {
        self.0
    }

    /// The page number that the API counts, from 0.
    pub fn to_api_page(self) -> (r: u32)
        requires
            self.0 >= 1,
        ensures
            r == self.0 - 1,
    {
        self.0 - 1
    }

    /// Reads a `--page` value.
    pub fn parse(value: &str) -> (r: Result<Self, String>)
        ensures
            match parse_u32_spec(value@) {
                None => r matches Err(m) && m@ == "invalid value '"@ + value@
                    + "' for '--page <PAGE>'"@,
                Some(n) => if n == 0 {
                    r matches Err(m) && m@ == "page must be at least 1"@
                } else {
                    r == Ok::<_, String>(CliPage(n))
                },
            },
    {
        match parse_u32(value) {
            None => {
                let mut m = to_owned_string("invalid value '");
                m.append(value);
                m.append("' for '--page <PAGE>'");
                Err(m)
            },
            Some(n) => if n == 0 {
                Err(to_owned_string("page must be at least 1"))
            } else {
                Ok(CliPage(n))
            },
        }
    }

    pub fn to_string(&self) -> (r: String)
        ensures
            r@ == nat_text(self.0 as nat),
    {
        let mut r = String::new();
        push_u64(&mut r, self.0 as u64);
        assert(r@ =~= nat_text(self.0 as nat));
        r
    }
}

impl core::str::FromStr for CliPage {
    type Err = String;

    fn from_str(value: &str) -> (r: Result<Self, Self::Err>)
        ensures
            match parse_u32_spec(value@) {
                None => r matches Err(m) && m@ == "invalid value '"@ + value@
                    + "' for '--page <PAGE>'"@,
                Some(n) => if n == 0 {
                    r matches Err(m) && m@ == "page must be at least 1"@
                } else {
                    r == Ok::<_, String>(CliPage(n))
                },
            },
    {
        CliPage::parse(value)
    }
}

pub open spec fn last_of(vs: Seq<Seq<char>>) -> Option<Seq<char>> {
    if vs.len() == 0 {
        None
    } else {
        Some(vs.last())
    }
}

pub open spec fn opt_text(o: Option<String>) -> Option<Seq<char>> {
    match o {
        Some(s) => Some(s@),
        None => None,
    }
}

/// An optional value read by `read`: `None` when it is given and unreadable.
pub open spec fn scope_value(v: Option<Seq<char>>) -> Option<Option<CollectionScope>> {
    match v {
        None => Some(None),
        Some(s) => match scope_from_text(s) {
            Some(x) => Some(Some(x)),
            None => None,
        },
    }
}

pub open spec fn i64_value(v: Option<Seq<char>>) -> Option<Option<i64>> {
    match v {
        None => Some(None),
        Some(s) => match parse_i64_spec(s) {
            Some(x) => Some(Some(x)),
            None => None,
        },
    }
}

pub open spec fn page_value(v: Option<Seq<char>>) -> Option<Option<CliPage>> {
    match v {
        None => Some(None),
        Some(s) => match cli_page_from_text(s) {
            Some(x) => Some(Some(x)),
            None => None,
        },
    }
}

pub open spec fn per_page_value(v: Option<Seq<char>>) -> Option<Option<PerPage>> {
    match v {
        None => Some(None),
        Some(s) => match per_page_from_text(s) {
            Some(x) => Some(Some(x)),
            None => None,
        },
    }
}

/// All the values read as scopes, or `None` when one is unreadable.
pub open spec fn scopes_of(vs: Seq<Seq<char>>) -> Option<Seq<CollectionScope>>
    decreases vs.len(),
{
    if vs.len() == 0 {
        Some(Seq::empty())
    } else {
        match (scopes_of(vs.drop_last()), scope_from_text(vs.last())) {
            (Some(a), Some(x)) => Some(a.push(x)),
            _ => None,
        }
    }
}

/// All the values read as numbers, or `None` when one is unreadable.
pub open spec fn ids_of(vs: Seq<Seq<char>>) -> Option<Seq<i64>>
    decreases vs.len(),
{
    if vs.len() == 0 {
        Some(Seq::empty())
    } else {
        match (ids_of(vs.drop_last()), parse_i64_spec(vs.last())) {
            (Some(a), Some(x)) => Some(a.push(x)),
            _ => None,
        }
    }
}

/// The last value, copied.
pub fn last_string(vs: &Vec<String>) -> (r: Option<String>)
    ensures
        opt_text(r) == last_of(texts(vs@)),
{
    if vs.len() == 0 {
        None
    } else {
        Some(vs[vs.len() - 1].clone())
    }
}

/// All the values, copied.
pub fn all_strings(vs: &Vec<String>) -> (r: Vec<String>)
    ensures
        texts(r@) == texts(vs@),
{
    let mut r: Vec<String> = Vec::new();
    let mut i: usize = 0;
    while i < vs.len()
        invariant
            0 <= i <= vs.len(),
            texts(r@) == texts(vs@).take(i as int),
            r@.len() == i,
        decreases vs.len() - i,
    {
        let c = vs[i].clone();
        assert(c@ == vs@[i as int]@);
        let ghost before = r@;
        r.push(c);
        i = i + 1;
        assert forall|j: int| 0 <= j < i implies #[trigger] texts(r@)[j] == texts(vs@).take(
            i as int,
        )[j] by {
            if j < i - 1 {
                assert(r@[j] == before[j]);
                assert(texts(before)[j] == texts(vs@).take(i - 1)[j]);
            }
        }
        assert(texts(r@) =~= texts(vs@).take(i as int));
    }
    assert(texts(vs@).take(vs.len() as int) =~= texts(vs@));
    r
}

pub fn opt_scope(vs: &Vec<String>) -> (r: Option<Option<CollectionScope>>)
    ensures
        r == scope_value(last_of(texts(vs@))),
{
    if vs.len() == 0 {
        Some(None)
    } else {
        match CollectionScope::parse(vs[vs.len() - 1].as_str()) {
            Ok(x) => Some(Some(x)),
            Err(_) => None,
        }
    }
}

pub fn opt_i64(vs: &Vec<String>) -> (r: Option<Option<i64>>)
    ensures
        r == i64_value(last_of(texts(vs@))),
{
    if vs.len() == 0 {
        Some(None)
    } else {
        match parse_i64(vs[vs.len() - 1].as_str()) {
            Some(x) => Some(Some(x)),
            None => None,
        }
    }
}

pub fn opt_page(vs: &Vec<String>) -> (r: Option<Option<CliPage>>)
    ensures
        r == page_value(last_of(texts(vs@))),
{
    if vs.len() == 0 {
        Some(None)
    } else {
        match CliPage::parse(vs[vs.len() - 1].as_str()) {
            Ok(x) => Some(Some(x)),
            Err(_) => None,
        }
    }
}

pub fn opt_per_page(vs: &Vec<String>) -> (r: Option<Option<PerPage>>)
    ensures
        r == per_page_value(last_of(texts(vs@))),
{
    if vs.len() == 0 {
        Some(None)
    } else {
        match PerPage::parse(vs[vs.len() - 1].as_str()) {
            Ok(x) => Some(Some(x)),
            Err(_) => None,
        }
    }
}

pub fn all_scopes(vs: &Vec<String>) -> (r: Option<Vec<CollectionScope>>)
    ensures
        match r {
            Some(v) => scopes_of(texts(vs@)) == Some(v@),
            None => scopes_of(texts(vs@)) is None,
        },
{
    let ghost ts = texts(vs@);
    let mut r: Vec<CollectionScope> = Vec::new();
    let mut i: usize = 0;
    while i < vs.len()
        invariant
            ts == texts(vs@),
            0 <= i <= vs.len(),
            scopes_of(ts.take(i as int)) == Some(r@),
        decreases vs.len() - i,
    {
        let ghost pre = ts.take(i as int);
        let ghost next = ts.take(i + 1);
        assert(next.drop_last() =~= pre);
        assert(next.last() == vs@[i as int]@);
        match CollectionScope::parse(vs[i].as_str()) {
            Ok(x) => {
                r.push(x);
            },
            Err(_) => {
                proof {
                    lemma_scopes_of_prefix(ts, i + 1);
                }
                return None;
            },
        }
        i = i + 1;
    }
    assert(ts.take(vs.len() as int) =~= ts);
    Some(r)
}

proof fn lemma_scopes_of_prefix(ts: Seq<Seq<char>>, k: int)
    requires
        0 <= k <= ts.len(),
        scopes_of(ts.take(k)) is None,
    ensures
        scopes_of(ts) is None,
    decreases ts.len() - k,
{
    if k < ts.len() {
        assert(ts.take(k + 1).drop_last() =~= ts.take(k));
        lemma_scopes_of_prefix(ts, k + 1);
    } else {
        assert(ts.take(k) =~= ts);
    }
}

proof fn lemma_ids_of_prefix(ts: Seq<Seq<char>>, k: int)
    requires
        0 <= k <= ts.len(),
        ids_of(ts.take(k)) is None,
    ensures
        ids_of(ts) is None,
    decreases ts.len() - k,
{
    if k < ts.len() {
        assert(ts.take(k + 1).drop_last() =~= ts.take(k));
        lemma_ids_of_prefix(ts, k + 1);
    } else {
        assert(ts.take(k) =~= ts);
    }
}

pub fn all_ids(vs: &Vec<String>) -> (r: Option<Vec<i64>>)
    ensures
        match r {
            Some(v) => ids_of(texts(vs@)) == Some(v@),
            None => ids_of(texts(vs@)) is None,
        },
{
    let ghost ts = texts(vs@);
    let mut r: Vec<i64> = Vec::new();
    let mut i: usize = 0;
    while i < vs.len()
        invariant
            ts == texts(vs@),
            0 <= i <= vs.len(),
            ids_of(ts.take(i as int)) == Some(r@),
        decreases vs.len() - i,
    {
        let ghost pre = ts.take(i as int);
        let ghost next = ts.take(i + 1);
        assert(next.drop_last() =~= pre);
        assert(next.last() == vs@[i as int]@);
        match parse_i64(vs[i].as_str()) {
            Some(x) => {
                r.push(x);
            },
            None => {
                proof {
                    lemma_ids_of_prefix(ts, i + 1);
                }
                return None;
            },
        }
        i = i + 1;
    }
    assert(ts.take(vs.len() as int) =~= ts);
    Some(r)
}

/// The decimal text of a `u32` reads back as that number with
/// `u32::from_str`.
pub proof fn lemma_u32_text_reads_back(n: u32)
    ensures
        parse_u32_spec(nat_text(n as nat)) == Some(n),
{
    lemma_nat_text_reads_back(n as nat);
    let s = nat_text(n as nat);
    assert(is_digit(s[0]));
}

/// A page number as it is shown reads back as that page.
pub proof fn lemma_cli_page_reads_back(p: CliPage)
    requires
        p.0 >= 1,
    ensures
        cli_page_from_text(nat_text(p.0 as nat)) == Some(p),
{
    lemma_u32_text_reads_back(p.0);
}

/// A page size as it is shown reads back as that page size.
pub proof fn lemma_per_page_reads_back(p: PerPage)
    requires
        per_page_in_range(p.value() as int),
    ensures
        per_page_from_text(nat_text(p.value() as nat)) == Some(p),
{
    lemma_u32_text_reads_back(p.value());
    lemma_per_page_is_of_value(p);
}

} // verus!
