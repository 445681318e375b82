//! Page selection for list requests.

use crate::text::{nat_text, parse_u32, parse_u32_spec, push_u64, to_owned_string};
use vstd::prelude::*;

verus! {

/// The largest page size that the API serves.
pub const MAX_PER_PAGE: u32 = 50;

/// A page size.
#[derive(Debug, Clone, Copy, PartialEq, Eq, Structural)]
pub struct PerPage(u32);

/// A page size within the documented range.
pub open spec fn per_page_in_range(n: int) -> bool {
    1 <= n <= MAX_PER_PAGE
}

/// The page size of `n` items.
pub closed spec fn per_page_of(n: u32) -> PerPage {
    PerPage(n)
}

/// The page size of `n` items has the value `n`.
pub broadcast proof fn lemma_per_page_of_value(n: u32)
    ensures
        #[trigger] per_page_of(n).value() == n,
{
}

/// A page size is the page size of its value.
pub broadcast proof fn lemma_per_page_is_of_value(p: PerPage)
    ensures
        p == per_page_of(#[trigger] p.value()),
{
}

impl PerPage {
    pub closed spec fn value(self) -> u32 {
        self.0
    }

    /// A page size taken as it is, without the range check.
    pub fn new_unchecked(per_page: u32) -> (r: Self)
        ensures
            r.value() == per_page,
    {
        PerPage(per_page)
    }

    /// A page size between 1 and [`MAX_PER_PAGE`].
    pub fn new(per_page: u32) -> (r: Result<Self, InvalidPerPage>)
        ensures
            per_page_in_range(per_page as int) ==> r == Ok::<_, InvalidPerPage>(per_page_of(per_page)),
            !per_page_in_range(per_page as int) ==> r == Err::<PerPage, _>(InvalidPerPage(per_page)),
    {
        if per_page == 0 || per_page > MAX_PER_PAGE {
            return Err(InvalidPerPage(per_page));
        }
        Ok(PerPage(per_page))
    }

    pub fn into_inner(self) -> (r: u32)
        ensures
            r == self.value(),
    {
        self.0
    }

    pub fn to_string(&self) -> (r: String)
        ensures
            r@ == nat_text(self.value() as nat),
    {
        let mut r = String::new();
        push_u64(&mut r, self.0 as u64);
        assert(r@ =~= nat_text(self.0 as nat));
        r
    }

    /// Reads a page size given on the command line.
    pub fn parse(value: &str) -> (r: Result<Self, String>)
        ensures
            match parse_u32_spec(value@) {
                None => r matches Err(m) && m@ == "invalid value '"@ + value@
                    + "' for '--per-page <PER_PAGE>'"@,
                Some(n) => if per_page_in_range(n as int) {
                    r == Ok::<_, String>(per_page_of(n))
                } else {
                    r matches Err(m) && m@ == "per-page must be between 1 and 50"@
                },
            },
    {
        match parse_u32(value) {
            None => {
                let mut m = to_owned_string("invalid value '");
                m.append(value);
                m.append("' for '--per-page <PER_PAGE>'");
                Err(m)
            },
            Some(n) => match PerPage::new(n) {
                Ok(p) => Ok(p),
                Err(_) => Err(to_owned_string("per-page must be between 1 and 50")),
            },
        }
    }
}

impl core::str::FromStr for PerPage {
    type Err = String;

    fn from_str(value: &str) -> (r: Result<Self, Self::Err>)
        ensures
            match parse_u32_spec(value@) {
                None => r matches Err(m) && m@ == "invalid value '"@ + value@
                    + "' for '--per-page <PER_PAGE>'"@,
                Some(n) => if per_page_in_range(n as int) {
                    r == Ok::<_, String>(per_page_of(n))
                } else {
                    r matches Err(m) && m@ == "per-page must be between 1 and 50"@
                },
            },
    {
        PerPage::parse(value)
    }
}

/// A page size outside the documented range.
#[derive(Debug, Clone, Copy, PartialEq, Eq, Structural)]
pub struct InvalidPerPage(pub u32);

impl InvalidPerPage {
    pub fn to_string(&self) -> (r: String)
        ensures
            r@ == "per-page must be between 1 and 50"@,
    {
        to_owned_string("per-page must be between 1 and 50")
    }
}

/// Which page of a list to fetch, and how large the pages are.
#[derive(Debug, Clone, Copy, PartialEq, Eq, Structural)]
pub struct PageParams {
    pub page: Option<u32>,
    pub per_page: Option<PerPage>,
}

impl PageParams {
    /// No page and no page size chosen.
    pub fn new() -> (r: Self)
        ensures
            r.page is None,
            r.per_page is None,
    {
        PageParams { page: None, per_page: None }
    }

    pub fn page(self, page: u32) -> (r: Self)
        ensures
            r == (PageParams { page: Some(page), ..self }),
    {
        PageParams { page: Some(page), ..self }
    }

    pub fn per_page(self, per_page: PerPage) -> (r: Self)
        ensures
            r == (PageParams { per_page: Some(per_page), ..self }),
    {
        PageParams { per_page: Some(per_page), ..self }
    }
}

impl Default for PageParams {
    fn default() -> (r: Self)
        ensures
            r.page is None,
            r.per_page is None,
    {
        PageParams::new()
    }
}

} // verus!
