//! The command-line tokenizer: splits the words after a subcommand into its
//! positional values and the values of its long options, by a schema that
//! names the options and says which of them take a value.

use crate::text::{str_eq, to_owned_string};
use vstd::prelude::*;
use vstd::string::*;

verus! {

/// Why a command line was refused.
#[derive(Debug, Clone, Copy, PartialEq, Eq, Structural)]
pub enum CliError {
    /// Help was asked for (`--help`, `-h`, `help`).
    Help,
    /// The version was asked for (`--version`, `-V`).
    Version,
    /// The first word names no subcommand.
    UnknownCommand,
    /// A command group was given without one of its subcommands.
    MissingCommand,
    /// An option that the subcommand does not have.
    UnknownArgument,
    /// A value given to an option that takes none.
    UnexpectedValue,
    /// An option that takes a value was given none.
    MissingValue,
    /// An option that may stand once was given again.
    RepeatedArgument,
    /// More positional values than the subcommand takes.
    UnexpectedArgument,
    /// A required value is missing.
    MissingArgument,
    /// A value that does not read as what the option holds.
    InvalidValue,
}

/// What the program says of a refused command line.
pub open spec fn cli_error_text(e: CliError) -> Seq<char> {
    match e {
        CliError::Help => "help was requested"@,
        CliError::Version => "the version was requested"@,
        CliError::UnknownCommand => "unrecognized subcommand"@,
        CliError::MissingCommand => "a subcommand is required"@,
        CliError::UnknownArgument => "unexpected argument found"@,
        CliError::UnexpectedValue => "unexpected value for a flag"@,
        CliError::MissingValue => "a value is required for an option"@,
        CliError::RepeatedArgument => "an argument cannot be used multiple times"@,
        CliError::UnexpectedArgument => "unexpected argument found"@,
        CliError::MissingArgument => "the following required arguments were not provided"@,
        CliError::InvalidValue => "invalid value for an argument"@,
    }
}

impl CliError {
    /// What the program says of a refused command line.
    pub fn message(&self) -> (r: String)
        ensures
            r@ == cli_error_text(*self),
    {
        let t = match self {
            CliError::Help => "help was requested",
            CliError::Version => "the version was requested",
            CliError::UnknownCommand => "unrecognized subcommand",
            CliError::MissingCommand => "a subcommand is required",
            CliError::UnknownArgument => "unexpected argument found",
            CliError::UnexpectedValue => "unexpected value for a flag",
            CliError::MissingValue => "a value is required for an option",
            CliError::RepeatedArgument => "an argument cannot be used multiple times",
            CliError::UnexpectedArgument => "unexpected argument found",
            CliError::MissingArgument => "the following required arguments were not provided",
            CliError::InvalidValue => "invalid value for an argument",
        };
        to_owned_string(t)
    }
}

/// A long option of a subcommand.
pub struct OptSpec {
    pub long: &'static str,
    pub takes_value: bool,
    pub allow_hyphen: bool,
    pub multiple: bool,
}

pub struct OptSpecV {
    pub long: Seq<char>,
    pub takes_value: bool,
    pub allow_hyphen: bool,
    pub multiple: bool,
}

impl View for OptSpec {
    type V = OptSpecV;

    open spec fn view(&self) -> OptSpecV {
        OptSpecV {
            long: self.long@,
            takes_value: self.takes_value,
            allow_hyphen: self.allow_hyphen,
            multiple: self.multiple,
        }
    }
}

/// The arguments of a subcommand: its positional slots, each marked with
/// whether it accepts a value that starts with `-`, and its long options.
pub struct Schema {
    pub positionals: Vec<bool>,
    pub options: Vec<OptSpec>,
}

pub struct SchemaV {
    pub positionals: Seq<bool>,
    pub options: Seq<OptSpecV>,
}

impl View for Schema {
    type V = SchemaV;

    open spec fn view(&self) -> SchemaV {
        SchemaV {
            positionals: self.positionals@,
            options: self.options@.map_values(|o: OptSpec| o@),
        }
    }
}

/// What a command line gave a subcommand: its positional values in order,
/// and for each option, in the schema's order, the values given to it (an
/// empty text for each use of an option that takes no value).
pub struct Matches {
    pub positionals: Vec<String>,
    pub values: Vec<Vec<String>>,
}

pub struct MatchesV {
    pub positionals: Seq<Seq<char>>,
    pub values: Seq<Seq<Seq<char>>>,
}

pub open spec fn texts(v: Seq<String>) -> Seq<Seq<char>> {
    v.map_values(|s: String| s@)
}

pub open spec fn value_lists(v: Seq<Vec<String>>) -> Seq<Seq<Seq<char>>> {
    v.map_values(|l: Vec<String>| texts(l@))
}

impl View for Matches {
    type V = MatchesV;

    open spec fn view(&self) -> MatchesV {
        MatchesV { positionals: texts(self.positionals@), values: value_lists(self.values@) }
    }
}

pub open spec fn tokens(args: Seq<&str>) -> Seq<Seq<char>> {
    args.map_values(|s: &str| s@)
}

pub open spec fn starts_with_dash(t: Seq<char>) -> bool {
    t.len() > 0 && t[0] == '-'
}

/// `--` on its own: every later word is positional.
pub open spec fn is_escape(t: Seq<char>) -> bool {
    t.len() == 2 && t[0] == '-' && t[1] == '-'
}

/// A long option: `--name` or `--name=value`.
pub open spec fn is_long(t: Seq<char>) -> bool {
    t.len() > 2 && t[0] == '-' && t[1] == '-'
}

/// A word that looks like a short flag (`-x`, or a negative number).
pub open spec fn is_short(t: Seq<char>) -> bool {
    t.len() > 1 && t[0] == '-'
}

pub open spec fn index_of_from(s: Seq<char>, c: char, k: int) -> Option<int>
    decreases s.len() - k,
{
    if k < 0 || k >= s.len() {
        None
    } else if s[k] == c {
        Some(k)
    } else {
        index_of_from(s, c, k + 1)
    }
}

/// The name part of a long option body (`name` of `name=value`).
pub open spec fn option_name(body: Seq<char>) -> Seq<char> {
    match index_of_from(body, '=', 0) {
        Some(k) => body.take(k),
        None => body,
    }
}

/// The value written into a long option (`value` of `name=value`).
pub open spec fn inline_value(body: Seq<char>) -> Option<Seq<char>> {
    match index_of_from(body, '=', 0) {
        Some(k) => Some(body.skip(k + 1)),
        None => None,
    }
}

pub open spec fn find_option(opts: Seq<OptSpecV>, name: Seq<char>, k: int) -> Option<int>
    decreases opts.len() - k,
{
    if k < 0 || k >= opts.len() {
        None
    } else if opts[k].long == name {
        Some(k)
    } else {
        find_option(opts, name, k + 1)
    }
}

pub open spec fn no_values(n: nat) -> Seq<Seq<Seq<char>>> {
    Seq::new(n, |i: int| Seq::<Seq<char>>::empty())
}

/// Reads the words from index `i` on, with the positional values `pos` and
/// option values `vals` gathered so far.
pub open spec fn scan(
    schema: SchemaV,
    toks: Seq<Seq<char>>,
    i: int,
    escaped: bool,
    pos: Seq<Seq<char>>,
    vals: Seq<Seq<Seq<char>>>,
) -> Result<MatchesV, CliError>
    decreases toks.len() - i,
{
    if i < 0 || i >= toks.len() {
        if pos.len() == schema.positionals.len() {
            Ok(MatchesV { positionals: pos, values: vals })
        } else {
            Err(CliError::MissingArgument)
        }
    } else {
        let t = toks[i];
        if !escaped && is_escape(t) {
            scan(schema, toks, i + 1, true, pos, vals)
        } else if !escaped && is_long(t) {
            let body = t.skip(2);
            match find_option(schema.options, option_name(body), 0) {
                None => if option_name(body) == "help"@ {
                    Err(CliError::Help)
                } else {
                    Err(CliError::UnknownArgument)
                },
                Some(k) => {
                    let o = schema.options[k];
                    if !o.multiple && vals[k].len() > 0 {
                        Err(CliError::RepeatedArgument)
                    } else if !o.takes_value {
                        if inline_value(body) is Some {
                            Err(CliError::UnexpectedValue)
                        } else {
                            scan(
                                schema,
                                toks,
                                i + 1,
                                escaped,
                                pos,
                                vals.update(k, vals[k].push(Seq::empty())),
                            )
                        }
                    } else {
                        match inline_value(body) {
                            Some(v) => scan(
                                schema,
                                toks,
                                i + 1,
                                escaped,
                                pos,
                                vals.update(k, vals[k].push(v)),
                            ),
                            None => if i + 1 < toks.len() && (o.allow_hyphen || !starts_with_dash(
                                toks[i + 1],
                            )) {
                                scan(
                                    schema,
                                    toks,
                                    i + 2,
                                    escaped,
                                    pos,
                                    vals.update(k, vals[k].push(toks[i + 1])),
                                )
                            } else {
                                Err(CliError::MissingValue)
                            },
                        }
                    }
                },
            }
        } else if !escaped && is_short(t) && !(pos.len() < schema.positionals.len()
            && schema.positionals[pos.len() as int]) {
            if t == "-h"@ {
                Err(CliError::Help)
            } else {
                Err(CliError::UnknownArgument)
            }
        } else if pos.len() < schema.positionals.len() {
            scan(schema, toks, i + 1, escaped, pos.push(t), vals)
        } else {
            Err(CliError::UnexpectedArgument)
        }
    }
}

/// What the words from index `start` on give the subcommand.
pub open spec fn scan_words(schema: SchemaV, toks: Seq<Seq<char>>, start: int) -> Result<
    MatchesV,
    CliError,
> {
    scan(schema, toks, start, false, Seq::empty(), no_values(schema.options.len()))
}

proof fn lemma_index_of_from(s: Seq<char>, c: char, k: int)
    requires
        0 <= k,
    ensures
        index_of_from(s, c, k) matches Some(j) ==> k <= j < s.len() && s[j] == c,
    decreases s.len() - k,
{
    if k < s.len() && s[k] != c {
        lemma_index_of_from(s, c, k + 1);
    }
}

proof fn lemma_find_option(opts: Seq<OptSpecV>, name: Seq<char>, k: int)
    requires
        0 <= k,
    ensures
        find_option(opts, name, k) matches Some(j) ==> k <= j < opts.len() && opts[j].long
            == name,
    decreases opts.len() - k,
{
    if k < opts.len() && opts[k].long != name {
        lemma_find_option(opts, name, k + 1);
    }
}

fn find_equals(body: &str) -> (r: Option<usize>)
    ensures
        match r {
            Some(k) => index_of_from(body@, '=', 0) == Some(k as int) && k < body@.len(),
            None => index_of_from(body@, '=', 0) is None,
        },
{
    let n = body.unicode_len();
    let mut k: usize = 0;
    while k < n
        invariant
            n == body@.len(),
            0 <= k <= n,
            index_of_from(body@, '=', 0) == index_of_from(body@, '=', k as int),
        decreases n - k,
    {
        if body.get_char(k) == '=' {
            return Some(k);
        }
        k = k + 1;
    }
    proof {
        lemma_index_of_from(body@, '=', 0);
    }
    None
}

fn find_opt(options: &Vec<OptSpec>, name: &str) -> (r: Option<usize>)
    ensures
        match r {
            Some(k) => find_option(options@.map_values(|o: OptSpec| o@), name@, 0) == Some(
                k as int,
            ) && k < options@.len(),
            None => find_option(options@.map_values(|o: OptSpec| o@), name@, 0) is None,
        },
{
    let ghost opts = options@.map_values(|o: OptSpec| o@);
    let mut k: usize = 0;
    while k < options.len()
        invariant
            opts == options@.map_values(|o: OptSpec| o@),
            0 <= k <= options.len(),
            find_option(opts, name@, 0) == find_option(opts, name@, k as int),
        decreases options.len() - k,
    {
        assert(opts[k as int] == options@[k as int]@);
        if str_eq(options[k].long, name) {
            proof {
                lemma_find_option(opts, name@, k as int);
            }
            return Some(k);
        }
        k = k + 1;
    }
    None
}

fn push_value(values: &mut Vec<Vec<String>>, k: usize, v: String)
    requires
        k < old(values).len(),
    ensures
        final(values)@.len() == old(values)@.len(),
        value_lists(final(values)@) == value_lists(old(values)@).update(
            k as int,
            value_lists(old(values)@)[k as int].push(v@),
        ),
{
    let ghost before = values@;
    let mut inner = values.remove(k);
    let ghost inner0 = inner@;
    inner.push(v);
    values.insert(k, inner);
    assert(texts(inner@) =~= texts(inner0).push(v@));
    assert(value_lists(values@) =~= value_lists(before).update(
        k as int,
        value_lists(before)[k as int].push(v@),
    ));
}

fn empty_values(n: usize) -> (r: Vec<Vec<String>>)
    ensures
        value_lists(r@) == no_values(n as nat),
        r@.len() == n,
{
    let mut r: Vec<Vec<String>> = Vec::new();
    let mut i: usize = 0;
    while i < n
        invariant
            0 <= i <= n,
            value_lists(r@) == no_values(i as nat),
            r@.len() == i,
        decreases n - i,
    {
        let e: Vec<String> = Vec::new();
        assert(texts(e@) =~= Seq::<Seq<char>>::empty());
        let ghost before = r@;
        r.push(e);
        i = i + 1;
        assert forall|j: int| 0 <= j < i implies #[trigger] value_lists(r@)[j] == no_values(
            i as nat,
        )[j] by {
            if j < i - 1 {
                assert(r@[j] == before[j]);
                assert(value_lists(before)[j] == no_values((i - 1) as nat)[j]);
            }
        }
        assert(value_lists(r@) =~= no_values(i as nat));
    }
    r
}

/// Splits the words of `args` from index `start` on by `schema`.
pub fn scan_args(schema: &Schema, args: &[&str], start: usize) -> (r: Result<Matches, CliError>)
    requires
        start <= args@.len(),
    ensures
        match r {
            Ok(m) => scan_words(schema@, tokens(args@), start as int) == Ok::<_, CliError>(m@),
            Err(e) => scan_words(schema@, tokens(args@), start as int) == Err::<MatchesV, _>(e),
        },
        r matches Ok(m) ==> m.values@.len() == schema.options@.len() && m.positionals@.len()
            == schema.positionals@.len(),
{
    let ghost sv = schema@;
    let ghost toks = tokens(args@);
    let n = args.len();
    let mut pos: Vec<String> = Vec::new();
    let mut values = empty_values(schema.options.len());
    let mut escaped = false;
    let mut i: usize = start;
    assert(texts(pos@) =~= Seq::<Seq<char>>::empty());
    while i < n
        invariant
            sv == schema@,
            toks == tokens(args@),
            n == args@.len(),
            start <= i <= n,
            values@.len() == schema.options@.len(),
            pos@.len() <= schema.positionals@.len(),
            scan_words(sv, toks, start as int) == scan(
                sv,
                toks,
                i as int,
                escaped,
                texts(pos@),
                value_lists(values@),
            ),
        decreases n - i,
    {
        let t: &str = args[i];
        assert(toks[i as int] == t@);
        let len = t.unicode_len();
        let ghost pv = texts(pos@);
        let ghost vv = value_lists(values@);
        if !escaped && len == 2 && t.get_char(0) == '-' && t.get_char(1) == '-' {
            escaped = true;
            i = i + 1;
        } else if !escaped && len > 2 && t.get_char(0) == '-' && t.get_char(1) == '-' {
            let body = t.substring_char(2, len);
            assert(body@ =~= t@.skip(2));
            let eq = find_equals(body);
            let blen = body.unicode_len();
            let name: &str = match eq {
                Some(k) => body.substring_char(0, k),
                None => body,
            };
            proof {
                match eq {
                    Some(k) => {
                        assert(name@ =~= body@.take(k as int));
                    },
                    None => {},
                }
            }
            assert(name@ == option_name(body@));
            match find_opt(&schema.options, name) {
                None => {
                    if str_eq(name, "help") {
                        return Err(CliError::Help);
                    }
                    return Err(CliError::UnknownArgument);
                },
                Some(k) => {
                    let o = &schema.options[k];
                    assert(sv.options[k as int] == o@);
                    assert(vv[k as int] == texts(values@[k as int]@));
                    if !o.multiple && values[k].len() > 0 {
                        return Err(CliError::RepeatedArgument);
                    }
                    if !o.takes_value {
                        if eq.is_some() {
                            return Err(CliError::UnexpectedValue);
                        }
                        let marker = String::new();
                        assert(marker@ == Seq::<char>::empty());
                        push_value(&mut values, k, marker);
                        i = i + 1;
                    } else {
                        match eq {
                            Some(q) => {
                                let v = body.substring_char(q + 1, blen);
                                assert(v@ =~= body@.skip(q + 1));
                                assert(inline_value(body@) == Some(v@));
                                push_value(&mut values, k, to_owned_string(v));
                                i = i + 1;
                            },
                            None => {
                                if i + 1 < n {
                                    let next: &str = args[i + 1];
                                    assert(toks[i + 1] == next@);
                                    let nlen = next.unicode_len();
                                    let dash = nlen > 0 && next.get_char(0) == '-';
                                    if o.allow_hyphen || !dash {
                                        push_value(&mut values, k, to_owned_string(next));
                                        i = i + 2;
                                    } else {
                                        return Err(CliError::MissingValue);
                                    }
                                } else {
                                    return Err(CliError::MissingValue);
                                }
                            },
                        }
                    }
                },
            }
        } else {
            let np = pos.len();
            let short = len > 1 && t.get_char(0) == '-';
            let slot_takes_dash = np < schema.positionals.len() && schema.positionals[np];
            if !escaped && short && !slot_takes_dash {
                if str_eq(t, "-h") {
                    return Err(CliError::Help);
                }
                return Err(CliError::UnknownArgument);
            } else if np < schema.positionals.len() {
                pos.push(to_owned_string(t));
                assert(texts(pos@) =~= pv.push(t@));
                i = i + 1;
            } else {
                return Err(CliError::UnexpectedArgument);
            }
        }
    }
    if pos.len() == schema.positionals.len() {
        Ok(Matches { positionals: pos, values })
    } else {
        Err(CliError::MissingArgument)
    }
}

} // verus!
