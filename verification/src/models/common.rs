//! Collection scopes: the numeric collection ids of the API together with the
//! three ids that it reserves for `All`, `Unsorted` and `Trash`.

use crate::text::{
    all_digits, digit_char, digit_value, digits_value, i64_to_text, int_text, is_digit, nat_text, parse_i64, parse_i64_spec,
    push_i64, str_eq, to_owned_string,
};
use vstd::prelude::*;

verus! {

/// The wire id that the API reserves for every raindrop.
pub const ALL_ID: i64 = 0;

/// The wire id of the `Unsorted` system collection.
pub const UNSORTED_ID: i64 = -1;

/// The wire id of the `Trash` system collection.
pub const TRASH_ID: i64 = -99;

/// Which raindrops a request covers: a user collection or a system one.
#[derive(Debug, Clone, Copy, PartialEq, Eq, Structural)]
pub enum CollectionScope {
    Id(i64),
    All,
    Unsorted,
    Trash,
}

/// One of the ids that the API reserves for system collections.
pub open spec fn is_reserved_id(id: int) -> bool {
    id == 0 || id == -1 || id == -99
}

/// The id that stands for the scope on the wire.
pub open spec fn wire_id(scope: CollectionScope) -> i64 {
    match scope {
        CollectionScope::Id(id) => id,
        CollectionScope::All => 0i64,
        CollectionScope::Unsorted => -1i64,
        CollectionScope::Trash => -99i64,
    }
}

/// The scope that a wire id names.
pub open spec fn scope_of(id: i64) -> CollectionScope {
    if id == 0 {
        CollectionScope::All
    } else if id == -1 {
        CollectionScope::Unsorted
    } else if id == -99 {
        CollectionScope::Trash
    } else {
        CollectionScope::Id(id)
    }
}

/// How the scope is shown to people.
pub open spec fn scope_label(scope: CollectionScope) -> Seq<char> {
    match scope {
        CollectionScope::All => "All"@,
        CollectionScope::Unsorted => "Unsorted"@,
        CollectionScope::Trash => "Trash"@,
        CollectionScope::Id(id) => int_text(id as int),
    }
}

/// The scope that a command-line or user-given text names, if any: one of
/// the labels (capitalised or lower case) or a number, which is then read as a
/// wire id.
pub open spec fn scope_from_text(s: Seq<char>) -> Option<CollectionScope> {
    if s == "all"@ || s == "All"@ {
        Some(CollectionScope::All)
    } else if s == "unsorted"@ || s == "Unsorted"@ {
        Some(CollectionScope::Unsorted)
    } else if s == "trash"@ || s == "Trash"@ {
        Some(CollectionScope::Trash)
    } else {
        match parse_i64_spec(s) {
            Some(id) => Some(scope_of(id)),
            None => None,
        }
    }
}

impl CollectionScope {
    /// A scope in its one form: an `Id` never holds a reserved id.
    pub open spec fn is_canonical(self) -> bool {
        match self {
            CollectionScope::Id(id) => !is_reserved_id(id as int),
            _ => true,
        }
    }

    /// A user collection: refuses the ids that the API reserves.
    pub fn id(id: i64) -> (r: Result<Self, InvalidCollectionScopeId>)
        ensures
            is_reserved_id(id as int) ==> r == Err::<Self, _>(InvalidCollectionScopeId(id)),
            !is_reserved_id(id as int) ==> r == Ok::<_, InvalidCollectionScopeId>(
                CollectionScope::Id(id),
            ),
    {
        if id == ALL_ID || id == UNSORTED_ID || id == TRASH_ID {
            Err(InvalidCollectionScopeId(id))
        } else {
            Ok(CollectionScope::Id(id))
        }
    }

    /// The scope that a wire id names (`From<i64>`).
    pub fn from_wire_id(id: i64) -> (r: Self)
        ensures
            r == scope_of(id),
    {
        if id == ALL_ID {
            CollectionScope::All
        } else if id == UNSORTED_ID {
            CollectionScope::Unsorted
        } else if id == TRASH_ID {
            CollectionScope::Trash
        } else {
            CollectionScope::Id(id)
        }
    }

    /// The id that stands for the scope on the wire (`From<CollectionScope> for i64`).
    pub fn wire_id(self) -> (r: i64)
        ensures
            r == wire_id(self),
    {
        match self {
            CollectionScope::Id(id) => id,
            CollectionScope::All => ALL_ID,
            CollectionScope::Unsorted => UNSORTED_ID,
            CollectionScope::Trash => TRASH_ID,
        }
    }

    /// The label of a system collection, or the id of a user collection.
    pub fn to_string(&self) -> (r: String)
        ensures
            r@ == scope_label(*self),
    {
        match self {
            CollectionScope::All => to_owned_string("All"),
            CollectionScope::Unsorted => to_owned_string("Unsorted"),
            CollectionScope::Trash => to_owned_string("Trash"),
            CollectionScope::Id(id) => i64_to_text(*id),
        }
    }

    /// Reads a scope from its label or its number.
    pub fn parse(value: &str) -> (r: Result<Self, ParseCollectionScopeError>)
        ensures
            match scope_from_text(value@) {
                Some(scope) => r == Ok::<_, ParseCollectionScopeError>(scope),
                None => r matches Err(e) && e.0@ == value@,
            },
    {
        if str_eq(value, "all") || str_eq(value, "All") {
            Ok(CollectionScope::All)
        } else if str_eq(value, "unsorted") || str_eq(value, "Unsorted") {
            Ok(CollectionScope::Unsorted)
        } else if str_eq(value, "trash") || str_eq(value, "Trash") {
            Ok(CollectionScope::Trash)
        } else {
            match parse_i64(value) {
                Some(id) => Ok(CollectionScope::from_wire_id(id)),
                None => Err(ParseCollectionScopeError(to_owned_string(value))),
            }
        }
    }

    /// The id of a collection that raindrops can be put into: `All` and
    /// `Trash` are refused.
    pub fn into_destination_id(self) -> (r: Result<i64, InvalidDestinationCollectionScope>)
        ensures
            match self {
                CollectionScope::All | CollectionScope::Trash => r == Err::<i64, _>(
                    InvalidDestinationCollectionScope(self),
                ),
                _ => r == Ok::<_, InvalidDestinationCollectionScope>(wire_id(self)),
            },
    {
        match self {
            CollectionScope::All | CollectionScope::Trash => Err(
                InvalidDestinationCollectionScope(self),
            ),
            _ => Ok(self.wire_id()),
        }
    }
}

impl Default for CollectionScope {
    fn default() -> (r: Self)
        ensures
            r == CollectionScope::All,
    {
        CollectionScope::All
    }
}

impl From<i64> for CollectionScope {
    fn from(id: i64) -> (r: Self) {
        CollectionScope::from_wire_id(id)
    }
}

impl vstd::std_specs::convert::FromSpecImpl<i64> for CollectionScope {
    open spec fn obeys_from_spec() -> bool {
        true
    }

    open spec fn from_spec(v: i64) -> Self {
        scope_of(v)
    }
}

impl From<CollectionScope> for i64 {
    fn from(scope: CollectionScope) -> (r: Self) {
        scope.wire_id()
    }
}

impl vstd::std_specs::convert::FromSpecImpl<CollectionScope> for i64 {
    open spec fn obeys_from_spec() -> bool {
        true
    }

    open spec fn from_spec(v: CollectionScope) -> Self {
        wire_id(v)
    }
}

impl core::str::FromStr for CollectionScope {
    type Err = ParseCollectionScopeError;

    fn from_str(value: &str) -> (r: Result<Self, Self::Err>)
        ensures
            match scope_from_text(value@) {
                Some(scope) => r == Ok::<_, ParseCollectionScopeError>(scope),
                None => r matches Err(e) && e.0@ == value@,
            },
    {
        CollectionScope::parse(value)
    }
}

/// A reserved id given where a user collection was asked for.
#[derive(Debug, Clone, Copy, PartialEq, Eq, Structural)]
pub struct InvalidCollectionScopeId(pub i64);

impl InvalidCollectionScopeId {
    pub fn to_string(&self) -> (r: String)
        ensures
            r@ == "reserved collection id: "@ + int_text(self.0 as int),
    {
        let mut r = to_owned_string("reserved collection id: ");
        push_i64(&mut r, self.0);
        r
    }
}

/// A text that names no collection scope.
#[derive(Debug, Clone, PartialEq, Eq)]
pub struct ParseCollectionScopeError(pub String);

impl ParseCollectionScopeError {
    pub fn to_string(&self) -> (r: String)
        ensures
            r@ == "invalid collection id: "@ + self.0@,
    {
        let mut r = to_owned_string("invalid collection id: ");
        r.append(self.0.as_str());
        r
    }
}

/// A scope that raindrops cannot be moved or saved into.
#[derive(Debug, Clone, Copy, PartialEq, Eq, Structural)]
pub struct InvalidDestinationCollectionScope(pub CollectionScope);

impl InvalidDestinationCollectionScope {
    pub fn to_string(&self) -> (r: String)
        ensures
            self.0 == CollectionScope::All ==> r@
                == "`All` is not a valid destination collection; use a specific collection or `Unsorted`"@,
            self.0 != CollectionScope::All ==> r@ == "`"@ + scope_label(self.0)
                + "` is not a valid destination collection"@,
    {
        if self.0 == CollectionScope::All {
            to_owned_string(
                "`All` is not a valid destination collection; use a specific collection or `Unsorted`",
            )
        } else {
            let mut r = to_owned_string("`");
            r.append(self.0.to_string().as_str());
            r.append("` is not a valid destination collection");
            r
        }
    }
}

proof fn lemma_digit_char(d: int)
    requires
        0 <= d < 10,
    ensures
        is_digit(digit_char(d)),
        digit_value(digit_char(d)) == d,
{
}

/// The digits of a number read back as that number.
pub proof fn lemma_nat_text_reads_back(n: nat)
    ensures
        nat_text(n).len() > 0,
        all_digits(nat_text(n)),
        digits_value(nat_text(n)) == n,
    decreases n,
{
    if n < 10 {
        lemma_digit_char(n as int);
        let s = nat_text(n);
        assert(s.drop_last() =~= Seq::<char>::empty());
        assert(digits_value(s.drop_last()) == 0);
    } else {
        lemma_digit_char((n % 10) as int);
        lemma_nat_text_reads_back(n / 10);
        let s = nat_text(n);
        let p = nat_text(n / 10);
        assert(s.drop_last() =~= p);
        assert(digits_value(s) == digits_value(p) * 10 + digit_value(s.last()));
        assert forall|i: int| 0 <= i < s.len() implies is_digit(#[trigger] s[i]) by {
            if i < p.len() {
                assert(s[i] == p[i]);
            }
        }
    }
}

/// Decimal text read back: `i64::from_str` of `i64::to_string` gives the number.
pub proof fn lemma_int_text_reads_back(i: i64)
    ensures
        parse_i64_spec(int_text(i as int)) == Some(i),
{
    if i < 0 {
        let m = (-i) as nat;
        lemma_nat_text_reads_back(m);
        let s = int_text(i as int);
        assert(s.drop_first() =~= nat_text(m));
    } else {
        lemma_nat_text_reads_back(i as nat);
        let s = nat_text(i as nat);
        assert(is_digit(s[0]));
    }
}

/// A wire id names a scope whose wire id is that id again.
pub proof fn lemma_wire_id_round_trip(id: i64)
    ensures
        wire_id(scope_of(id)) == id,
        scope_of(id).is_canonical(),
{
}

/// A canonical scope is named again by its wire id.
pub proof fn lemma_scope_round_trip(scope: CollectionScope)
    requires
        scope.is_canonical(),
    ensures
        scope_of(wire_id(scope)) == scope,
{
}

/// What a scope is shown as reads back as that scope.
pub proof fn lemma_label_reads_back(scope: CollectionScope)
    requires
        scope.is_canonical(),
    ensures
        scope_from_text(scope_label(scope)) == Some(scope),
{
    reveal_strlit("all");
    reveal_strlit("All");
    reveal_strlit("unsorted");
    reveal_strlit("Unsorted");
    reveal_strlit("trash");
    reveal_strlit("Trash");
    match scope {
        CollectionScope::Id(id) => {
            lemma_int_text_reads_back(id);
            let s = int_text(id as int);
            if id < 0 {
                assert(s[0] == '-');
            } else {
                lemma_nat_text_reads_back(id as nat);
                assert(is_digit(s[0]));
            }
            assert(s != "all"@);
            assert(s != "All"@);
            assert(s != "unsorted"@);
            assert(s != "Unsorted"@);
            assert(s != "trash"@);
            assert(s != "Trash"@);
        },
        _ => {},
    }
}

} // verus!
