//! The grammar of the `puddle` command line: the subcommands, their
//! positional arguments and long options, and how each value is read.

use crate::cli::args::{
    outcome_view, CollectionsCommand, CollectionsCommandV, Command, CommandV, CreateArgs,
    CreateArgsV, CreateCollectionArgs, CreateManyArgs, DeleteArgs, DeleteCollectionArgs,
    DeleteManyArgs, DeleteTagArgs, ExportArgs, FiltersCommand, GetArgs, GetCollectionArgs,
    GetTagsArgs, ListArgs, ListArgsV, ListFiltersArgs, RenameTagArgs, TagsCommand, TagsCommandV,
    UpdateArgs, UpdateArgsV, UpdateCollectionArgs, UpdateManyArgs, UpdateManyArgsV, UploadCollectionCoverArgs,
    UploadCoverArgs, UploadFileArgs,
};
use crate::cli::scan::{
    find_option, is_long, no_values, option_name, scan, scan_args, scan_words, starts_with_dash,
    texts, tokens, CliError, Matches, MatchesV, OptSpec, OptSpecV, Schema, SchemaV,
};
use crate::cli::values::{
    all_ids, all_scopes, all_strings, i64_value, ids_of, last_of, last_string, opt_i64, opt_page,
    opt_per_page, opt_scope, page_value, per_page_value, scope_value, scopes_of,
};
use crate::models::common::{scope_from_text, CollectionScope};
use crate::models::raindrops::RaindropId;
use crate::text::{parse_i64, parse_i64_spec, str_eq, to_owned_string};
use vstd::prelude::*;

verus! {

pub open spec fn ov(long: Seq<char>, takes_value: bool, allow_hyphen: bool, multiple: bool) -> OptSpecV {
    OptSpecV { long, takes_value, allow_hyphen, multiple }
}

fn opt(long: &'static str, takes_value: bool, allow_hyphen: bool, multiple: bool) -> (r: OptSpec)
    ensures
        r@ == ov(long@, takes_value, allow_hyphen, multiple),
{
    OptSpec { long, takes_value, allow_hyphen, multiple }
}

fn schema(positionals: Vec<bool>, options: Vec<OptSpec>) -> (r: Schema)
    ensures
        r@ == (SchemaV {
            positionals: positionals@,
            options: options@.map_values(|o: OptSpec| o@),
        }),
{
    Schema { positionals, options }
}

// ---- schemas ----

pub open spec fn list_schema() -> SchemaV {
    SchemaV {
        positionals: seq![],
        options: seq![
            ov("collection"@, true, true, false),
            ov("search"@, true, false, false),
            ov("sort"@, true, true, false),
            ov("page"@, true, false, false),
            ov("per-page"@, true, false, false),
            ov("nested"@, false, false, false),
        ],
    }
}

fn list_schema_exec() -> (r: Schema)
    ensures
        r@ == list_schema(),
{
    let options = vec![
        opt("collection", true, true, false),
        opt("search", true, false, false),
        opt("sort", true, true, false),
        opt("page", true, false, false),
        opt("per-page", true, false, false),
        opt("nested", false, false, false),
    ];
    let r = schema(vec![], options);
    assert(r@.positionals =~= list_schema().positionals);
    assert(r@.options =~= list_schema().options);
    r
}

/// The options of `create` and `update`.
pub open spec fn edit_schema() -> SchemaV {
    SchemaV {
        positionals: seq![false],
        options: seq![
            ov("title"@, true, false, false),
            ov("excerpt"@, true, false, false),
            ov("tag"@, true, false, true),
            ov("collection"@, true, true, false),
        ],
    }
}

fn edit_schema_exec() -> (r: Schema)
    ensures
        r@ == edit_schema(),
{
    let options = vec![
        opt("title", true, false, false),
        opt("excerpt", true, false, false),
        opt("tag", true, false, true),
        opt("collection", true, true, false),
    ];
    let r = schema(vec![false], options);
    assert(r@.positionals =~= edit_schema().positionals);
    assert(r@.options =~= edit_schema().options);
    r
}

/// A subcommand that takes only positional values; `slots` says, for each,
/// whether it may start with `-`.
pub open spec fn positional_schema(slots: Seq<bool>) -> SchemaV {
    SchemaV { positionals: slots, options: seq![] }
}

fn positional_schema_exec(slots: Vec<bool>) -> (r: Schema)
    ensures
        r@ == positional_schema(slots@),
{
    let r = schema(slots, vec![]);
    assert(r@.options =~= positional_schema(slots@).options);
    r
}

/// A subcommand that takes only long options.
pub open spec fn options_schema(options: Seq<OptSpecV>) -> SchemaV {
    SchemaV { positionals: seq![], options }
}

pub open spec fn create_many_options() -> Seq<OptSpecV> {
    seq![ov("input"@, true, false, false)]
}

pub open spec fn update_many_options() -> Seq<OptSpecV> {
    seq![
        ov("id"@, true, false, true),
        ov("from-collection"@, true, true, true),
        ov("exclude-collection"@, true, true, true),
        ov("search"@, true, false, false),
        ov("tag"@, true, false, true),
        ov("to-collection"@, true, true, false),
    ]
}

pub open spec fn delete_many_options() -> Seq<OptSpecV> {
    seq![ov("collection-id"@, true, true, false), ov("id"@, true, false, true)]
}

pub open spec fn export_options() -> Seq<OptSpecV> {
    seq![ov("output"@, true, false, false), ov("collection"@, true, true, false)]
}

pub open spec fn collection_create_schema() -> SchemaV {
    SchemaV { positionals: seq![false], options: seq![ov("parent"@, true, true, false)] }
}

pub open spec fn collection_update_schema() -> SchemaV {
    SchemaV {
        positionals: seq![true],
        options: seq![ov("title"@, true, false, false), ov("parent"@, true, true, false)],
    }
}

// ---- what each subcommand's values become ----

pub open spec fn list_from(m: MatchesV) -> Result<Option<CommandV>, CliError> {
    let v = m.values;
    match (scope_value(last_of(v[0])), page_value(last_of(v[3])), per_page_value(last_of(v[4]))) {
        (Some(collection), Some(page), Some(per_page)) => Ok(
            Some(
                CommandV::List(
                    ListArgsV {
                        collection,
                        search: last_of(v[1]),
                        sort: last_of(v[2]),
                        page,
                        per_page,
                        nested: v[5].len() > 0,
                    },
                ),
            ),
        ),
        _ => Err(CliError::InvalidValue),
    }
}

pub open spec fn create_from(m: MatchesV) -> Result<Option<CommandV>, CliError> {
    let v = m.values;
    match scope_value(last_of(v[3])) {
        Some(collection) => Ok(
            Some(
                CommandV::Create(
                    CreateArgsV {
                        link: m.positionals[0],
                        title: last_of(v[0]),
                        excerpt: last_of(v[1]),
                        tags: v[2],
                        collection,
                    },
                ),
            ),
        ),
        None => Err(CliError::InvalidValue),
    }
}

pub open spec fn update_from(m: MatchesV) -> Result<Option<CommandV>, CliError> {
    let v = m.values;
    match (parse_i64_spec(m.positionals[0]), scope_value(last_of(v[3]))) {
        (Some(id), Some(collection)) => Ok(
            Some(
                CommandV::Update(
                    UpdateArgsV {
                        id: RaindropId(id),
                        title: last_of(v[0]),
                        excerpt: last_of(v[1]),
                        tags: v[2],
                        collection,
                    },
                ),
            ),
        ),
        _ => Err(CliError::InvalidValue),
    }
}

pub open spec fn update_many_from(m: MatchesV) -> Result<Option<CommandV>, CliError> {
    let v = m.values;
    match (ids_of(v[0]), scopes_of(v[1]), scopes_of(v[2]), scope_value(last_of(v[5]))) {
        (Some(ids), Some(from_collection), Some(exclude_collection), Some(to_collection)) => {
            if v[0].len() == 0 && v[1].len() == 0 {
                Err(CliError::MissingArgument)
            } else {
                Ok(
                    Some(
                        CommandV::UpdateMany(
                            UpdateManyArgsV {
                                ids,
                                from_collection,
                                exclude_collection,
                                search: last_of(v[3]),
                                tags: v[4],
                                to_collection,
                            },
                        ),
                    ),
                )
            }
        },
        _ => Err(CliError::InvalidValue),
    }
}

pub open spec fn delete_many_from(m: MatchesV) -> Result<Option<CommandV>, CliError> {
    let v = m.values;
    match (scope_value(last_of(v[0])), ids_of(v[1])) {
        (Some(collection), Some(ids)) => if ids.len() == 0 {
            Err(CliError::MissingArgument)
        } else {
            Ok(
                Some(
                    CommandV::DeleteMany {
                        collection_id: match collection {
                            Some(c) => c,
                            None => CollectionScope::All,
                        },
                        ids,
                    },
                ),
            )
        },
        _ => Err(CliError::InvalidValue),
    }
}

pub open spec fn export_from(m: MatchesV) -> Result<Option<CommandV>, CliError> {
    let v = m.values;
    match scope_value(last_of(v[1])) {
        Some(collection) => Ok(
            Some(
                CommandV::Export {
                    output: match last_of(v[0]) {
                        Some(o) => o,
                        None => "export.json"@,
                    },
                    collection,
                },
            ),
        ),
        None => Err(CliError::InvalidValue),
    }
}

pub open spec fn then(r: Result<MatchesV, CliError>, built: Result<Option<CommandV>, CliError>) -> Result<
    Option<CommandV>,
    CliError,
> {
    match r {
        Err(e) => Err(e),
        Ok(_) => built,
    }
}

/// What the words from index `at` on make of the raindrop subcommand `name`.
pub open spec fn raindrop_command(name: Seq<char>, toks: Seq<Seq<char>>, at: int) -> Result<
    Option<CommandV>,
    CliError,
> {
    if name == "list"@ {
        let r = scan_words(list_schema(), toks, at);
        then(r, list_from(r->Ok_0))
    } else if name == "get"@ || name == "delete"@ {
        let r = scan_words(positional_schema(seq![false]), toks, at);
        then(
            r,
            match parse_i64_spec(r->Ok_0.positionals[0]) {
                Some(id) => Ok(
                    Some(
                        if name == "get"@ {
                            CommandV::Get(GetArgs { id: RaindropId(id) })
                        } else {
                            CommandV::Delete(DeleteArgs { id: RaindropId(id) })
                        },
                    ),
                ),
                None => Err(CliError::InvalidValue),
            },
        )
    } else if name == "create"@ {
        let r = scan_words(edit_schema(), toks, at);
        then(r, create_from(r->Ok_0))
    } else if name == "update"@ {
        let r = scan_words(edit_schema(), toks, at);
        then(r, update_from(r->Ok_0))
    } else if name == "upload-file"@ {
        let r = scan_words(positional_schema(seq![false]), toks, at);
        then(r, Ok(Some(CommandV::UploadFile { path: r->Ok_0.positionals[0] })))
    } else if name == "upload-cover"@ {
        let r = scan_words(positional_schema(seq![false, false]), toks, at);
        then(
            r,
            match parse_i64_spec(r->Ok_0.positionals[0]) {
                Some(id) => Ok(
                    Some(
                        CommandV::UploadCover {
                            id: RaindropId(id),
                            path: r->Ok_0.positionals[1],
                        },
                    ),
                ),
                None => Err(CliError::InvalidValue),
            },
        )
    } else if name == "create-many"@ {
        let r = scan_words(options_schema(create_many_options()), toks, at);
        then(
            r,
            match last_of(r->Ok_0.values[0]) {
                Some(input) => Ok(Some(CommandV::CreateMany { input })),
                None => Err(CliError::MissingArgument),
            },
        )
    } else if name == "update-many"@ {
        let r = scan_words(options_schema(update_many_options()), toks, at);
        then(r, update_many_from(r->Ok_0))
    } else if name == "delete-many"@ {
        let r = scan_words(options_schema(delete_many_options()), toks, at);
        then(r, delete_many_from(r->Ok_0))
    } else if name == "export"@ {
        let r = scan_words(options_schema(export_options()), toks, at);
        then(r, export_from(r->Ok_0))
    } else if name == "me"@ {
        then(scan_words(positional_schema(seq![]), toks, at), Ok(Some(CommandV::Me)))
    } else if name == "setup"@ {
        then(scan_words(positional_schema(seq![]), toks, at), Ok(Some(CommandV::Setup)))
    } else {
        then(scan_words(positional_schema(seq![]), toks, at), Ok(Some(CommandV::Config)))
    }
}

/// The subcommands that stand alone (not in a group).
pub open spec fn is_raindrop_command(name: Seq<char>) -> bool {
    ||| name == "list"@
    ||| name == "get"@
    ||| name == "delete"@
    ||| name == "create"@
    ||| name == "update"@
    ||| name == "upload-file"@
    ||| name == "upload-cover"@
    ||| name == "create-many"@
    ||| name == "update-many"@
    ||| name == "delete-many"@
    ||| name == "export"@
    ||| name == "me"@
    ||| name == "setup"@
    ||| name == "config"@
}

pub open spec fn collections_command(toks: Seq<Seq<char>>) -> Result<Option<CommandV>, CliError> {
    let sub = toks[2];
    let wrap = |c: CollectionsCommandV| Ok(Some(CommandV::Collections(c)));
    if sub == "list"@ {
        then(scan_words(positional_schema(seq![]), toks, 3), wrap(CollectionsCommandV::List))
    } else if sub == "get"@ {
        let r = scan_words(positional_schema(seq![true]), toks, 3);
        then(
            r,
            match scope_from_text(r->Ok_0.positionals[0]) {
                Some(id) => wrap(CollectionsCommandV::Get(GetCollectionArgs { id })),
                None => Err(CliError::InvalidValue),
            },
        )
    } else if sub == "create"@ {
        let r = scan_words(collection_create_schema(), toks, 3);
        then(
            r,
            match i64_value(last_of(r->Ok_0.values[0])) {
                Some(parent) => wrap(
                    CollectionsCommandV::Create { title: r->Ok_0.positionals[0], parent },
                ),
                None => Err(CliError::InvalidValue),
            },
        )
    } else if sub == "update"@ {
        let r = scan_words(collection_update_schema(), toks, 3);
        then(
            r,
            match (parse_i64_spec(r->Ok_0.positionals[0]), i64_value(last_of(r->Ok_0.values[1]))) {
                (Some(id), Some(parent)) => wrap(
                    CollectionsCommandV::Update {
                        id,
                        title: last_of(r->Ok_0.values[0]),
                        parent,
                    },
                ),
                _ => Err(CliError::InvalidValue),
            },
        )
    } else if sub == "delete"@ {
        let r = scan_words(positional_schema(seq![true]), toks, 3);
        then(
            r,
            match parse_i64_spec(r->Ok_0.positionals[0]) {
                Some(id) => wrap(CollectionsCommandV::Delete(DeleteCollectionArgs { id })),
                None => Err(CliError::InvalidValue),
            },
        )
    } else {
        let r = scan_words(positional_schema(seq![true, false]), toks, 3);
        then(
            r,
            match parse_i64_spec(r->Ok_0.positionals[0]) {
                Some(id) => wrap(
                    CollectionsCommandV::UploadCover { id, path: r->Ok_0.positionals[1] },
                ),
                None => Err(CliError::InvalidValue),
            },
        )
    }
}

pub open spec fn is_collections_command(sub: Seq<char>) -> bool {
    ||| sub == "list"@
    ||| sub == "get"@
    ||| sub == "create"@
    ||| sub == "update"@
    ||| sub == "delete"@
    ||| sub == "upload-cover"@
}

pub open spec fn tags_command(toks: Seq<Seq<char>>) -> Result<Option<CommandV>, CliError> {
    let sub = toks[2];
    let wrap = |c: TagsCommandV| Ok(Some(CommandV::Tags(c)));
    if sub == "list"@ {
        then(scan_words(positional_schema(seq![]), toks, 3), wrap(TagsCommandV::List))
    } else if sub == "get"@ {
        let r = scan_words(positional_schema(seq![true]), toks, 3);
        then(
            r,
            match parse_i64_spec(r->Ok_0.positionals[0]) {
                Some(collection_id) => wrap(TagsCommandV::Get(GetTagsArgs { collection_id })),
                None => Err(CliError::InvalidValue),
            },
        )
    } else if sub == "rename"@ {
        let r = scan_words(positional_schema(seq![true, false, false]), toks, 3);
        then(
            r,
            match parse_i64_spec(r->Ok_0.positionals[0]) {
                Some(collection_id) => wrap(
                    TagsCommandV::Rename {
                        collection_id,
                        find: r->Ok_0.positionals[1],
                        replace: r->Ok_0.positionals[2],
                    },
                ),
                None => Err(CliError::InvalidValue),
            },
        )
    } else {
        let r = scan_words(positional_schema(seq![true, false]), toks, 3);
        then(
            r,
            match parse_i64_spec(r->Ok_0.positionals[0]) {
                Some(collection_id) => wrap(
                    TagsCommandV::Delete { collection_id, tag: r->Ok_0.positionals[1] },
                ),
                None => Err(CliError::InvalidValue),
            },
        )
    }
}

pub open spec fn is_tags_command(sub: Seq<char>) -> bool {
    ||| sub == "list"@
    ||| sub == "get"@
    ||| sub == "rename"@
    ||| sub == "delete"@
}

pub open spec fn filters_command(toks: Seq<Seq<char>>) -> Result<Option<CommandV>, CliError> {
    let r = scan_words(positional_schema(seq![true]), toks, 3);
    then(
        r,
        match parse_i64_spec(r->Ok_0.positionals[0]) {
            Some(collection_id) => Ok(
                Some(CommandV::Filters(FiltersCommand::List(ListFiltersArgs { collection_id }))),
            ),
            None => Err(CliError::InvalidValue),
        },
    )
}

pub open spec fn is_help(t: Seq<char>) -> bool {
    t == "--help"@ || t == "-h"@ || t == "help"@
}

/// The subcommand of a group: help, one of `known`, or a refusal.
pub open spec fn group(
    toks: Seq<Seq<char>>,
    known: bool,
    chosen: Result<Option<CommandV>, CliError>,
) -> Result<Option<CommandV>, CliError> {
    if toks.len() < 3 {
        Err(CliError::MissingCommand)
    } else if is_help(toks[2]) {
        Err(CliError::Help)
    } else if known {
        chosen
    } else if starts_with_dash(toks[2]) {
        Err(CliError::UnknownArgument)
    } else {
        Err(CliError::UnknownCommand)
    }
}

/// What a command line asks for. The first word is the program's name;
/// with nothing after it no command is given.
pub open spec fn command_line(toks: Seq<Seq<char>>) -> Result<Option<CommandV>, CliError> {
    if toks.len() < 2 {
        Ok(None)
    } else {
        let name = toks[1];
        if is_help(name) {
            Err(CliError::Help)
        } else if name == "--version"@ || name == "-V"@ {
            Err(CliError::Version)
        } else if is_raindrop_command(name) {
            raindrop_command(name, toks, 2)
        } else if name == "collections"@ {
            group(toks, toks.len() >= 3 && is_collections_command(toks[2]), collections_command(toks))
        } else if name == "tags"@ {
            group(toks, toks.len() >= 3 && is_tags_command(toks[2]), tags_command(toks))
        } else if name == "filters"@ {
            group(toks, toks.len() >= 3 && toks[2] == "list"@, filters_command(toks))
        } else if starts_with_dash(name) {
            Err(CliError::UnknownArgument)
        } else {
            Err(CliError::UnknownCommand)
        }
    }
}

// ---- laws of the command line ----

/// `puddle get <id>` asks for the raindrop with that id, and `puddle delete
/// <id>` asks to delete it, whatever the program is called.
pub proof fn law_get_and_delete_take_the_id(program: Seq<char>, id_text: Seq<char>)
    requires
        parse_i64_spec(id_text) is Some,
        !starts_with_dash(id_text),
    ensures
        command_line(seq![program, "get"@, id_text]) == Ok::<Option<CommandV>, CliError>(
            Some(CommandV::Get(GetArgs { id: RaindropId(parse_i64_spec(id_text)->0) })),
        ),
        command_line(seq![program, "delete"@, id_text]) == Ok::<Option<CommandV>, CliError>(
            Some(CommandV::Delete(DeleteArgs { id: RaindropId(parse_i64_spec(id_text)->0) })),
        ),
{
    reveal_strlit("get");
    reveal_strlit("delete");
    reveal_strlit("list");
    reveal_strlit("--help");
    reveal_strlit("-h");
    reveal_strlit("help");
    reveal_strlit("--version");
    reveal_strlit("-V");
    reveal_with_fuel(scan, 3);
    let schema = positional_schema(seq![false]);
    let get = seq![program, "get"@, id_text];
    let del = seq![program, "delete"@, id_text];
    assert(schema.positionals.len() == 1);
    assert(scan(schema, get, 3, false, seq![id_text], no_values(schema.options.len())) is Ok);
    assert(scan_words(schema, get, 2) == scan(schema, get, 3, false, seq![id_text], no_values(schema.options.len())));
    assert(scan_words(schema, del, 2) == scan(schema, del, 3, false, seq![id_text], no_values(schema.options.len())));
    assert(scan_words(schema, get, 2)->Ok_0.positionals == seq![id_text]);
    assert(scan_words(schema, del, 2)->Ok_0.positionals == seq![id_text]);
    assert("get"@.len() == 3 && "delete"@.len() == 6 && "list"@.len() == 4);
    assert("--help"@.len() == 6 && "-h"@.len() == 2 && "help"@.len() == 4);
    assert("--version"@.len() == 9 && "-V"@.len() == 2);
    assert("delete"@[0] == 'd' && "--help"@[0] == '-');
    assert(!is_help("get"@) && "get"@ != "--version"@ && "get"@ != "-V"@);
    assert(!is_help("delete"@) && "delete"@ != "--version"@ && "delete"@ != "-V"@);
    assert("get"@ != "list"@ && "delete"@ != "list"@ && "delete"@ != "get"@);
    assert(command_line(get) == raindrop_command("get"@, get, 2));
    assert(command_line(del) == raindrop_command("delete"@, del, 2));
}

proof fn lemma_find_option_names(opts: Seq<OptSpecV>, name: Seq<char>, k: int)
    ensures
        find_option(opts, name, k) matches Some(j) ==> 0 <= j < opts.len() && opts[j].long == name,
    decreases opts.len() - k,
{
    if 0 <= k < opts.len() && opts[k].long != name {
        lemma_find_option_names(opts, name, k + 1);
    }
}

/// An option that no word from `i` on names keeps the values it had.
proof fn lemma_scan_keeps_unnamed(
    schema: SchemaV,
    toks: Seq<Seq<char>>,
    i: int,
    escaped: bool,
    pos: Seq<Seq<char>>,
    vals: Seq<Seq<Seq<char>>>,
    k: int,
)
    requires
        0 <= i,
        0 <= k < vals.len(),
        vals.len() == schema.options.len(),
        forall|j: int|
            i <= j < toks.len() ==> !(is_long(#[trigger] toks[j]) && option_name(toks[j].skip(2))
                == schema.options[k].long),
    ensures
        scan(schema, toks, i, escaped, pos, vals) matches Ok(m) ==> m.values[k] == vals[k],
    decreases toks.len() - i,
{
    if i < toks.len() {
        let t = toks[i];
        let body = t.skip(2);
        lemma_find_option_names(schema.options, option_name(body), 0);
        match find_option(schema.options, option_name(body), 0) {
            Some(j) => {
                if !escaped && crate::cli::scan::is_escape(t) {
                } else if !escaped && is_long(t) {
                    assert(j != k);
                    let with = vals.update(j, vals[j].push(Seq::empty()));
                    lemma_scan_keeps_unnamed(schema, toks, i + 1, escaped, pos, with, k);
                    match crate::cli::scan::inline_value(body) {
                        Some(v) => {
                            let w2 = vals.update(j, vals[j].push(v));
                            lemma_scan_keeps_unnamed(schema, toks, i + 1, escaped, pos, w2, k);
                        },
                        None => {
                            if i + 1 < toks.len() {
                                let w3 = vals.update(j, vals[j].push(toks[i + 1]));
                                lemma_scan_keeps_unnamed(schema, toks, i + 2, escaped, pos, w3, k);
                            }
                        },
                    }
                }
            },
            None => {},
        }
        lemma_scan_keeps_unnamed(schema, toks, i + 1, true, pos, vals, k);
        lemma_scan_keeps_unnamed(schema, toks, i + 1, escaped, pos.push(t), vals, k);
    }
}

/// `puddle delete-many` without `--collection-id` deletes from all
/// collections: whatever other words it is given, when it reads as a
/// delete-many command, that command's collection is `All`.
pub proof fn law_delete_many_defaults_to_all(toks: Seq<Seq<char>>)
    requires
        toks.len() >= 2,
        toks[1] == "delete-many"@,
        forall|j: int|
            2 <= j < toks.len() ==> !(is_long(#[trigger] toks[j]) && option_name(toks[j].skip(2))
                == "collection-id"@),
    ensures
        command_line(toks) matches Ok(Some(CommandV::DeleteMany { collection_id, .. }))
            ==> collection_id == CollectionScope::All,
{
    reveal_strlit("delete-many");
    reveal_strlit("list");
    reveal_strlit("get");
    reveal_strlit("delete");
    reveal_strlit("create");
    reveal_strlit("update");
    reveal_strlit("upload-file");
    reveal_strlit("upload-cover");
    reveal_strlit("create-many");
    reveal_strlit("update-many");
    reveal_strlit("--help");
    reveal_strlit("-h");
    reveal_strlit("help");
    reveal_strlit("--version");
    reveal_strlit("-V");
    let schema = options_schema(delete_many_options());
    assert(schema.options[0].long == "collection-id"@);
    let vals = no_values(schema.options.len());
    lemma_scan_keeps_unnamed(schema, toks, 2, false, Seq::empty(), vals, 0);
    assert(vals[0] == Seq::<Seq<char>>::empty());
}

/// `puddle delete-many --id <id>` deletes that raindrop from all
/// collections.
pub proof fn law_delete_many_by_id(program: Seq<char>, id_text: Seq<char>)
    requires
        parse_i64_spec(id_text) is Some,
        !starts_with_dash(id_text),
    ensures
        command_line(seq![program, "delete-many"@, "--id"@, id_text]) == Ok::<
            Option<CommandV>,
            CliError,
        >(
            Some(
                CommandV::DeleteMany {
                    collection_id: CollectionScope::All,
                    ids: seq![parse_i64_spec(id_text)->0],
                },
            ),
        ),
{
    reveal_strlit("delete-many");
    reveal_strlit("list");
    reveal_strlit("get");
    reveal_strlit("delete");
    reveal_strlit("create");
    reveal_strlit("update");
    reveal_strlit("upload-file");
    reveal_strlit("upload-cover");
    reveal_strlit("create-many");
    reveal_strlit("update-many");
    reveal_strlit("--help");
    reveal_strlit("-h");
    reveal_strlit("help");
    reveal_strlit("--version");
    reveal_strlit("-V");
    reveal_strlit("--id");
    reveal_strlit("id");
    reveal_strlit("collection-id");
    reveal_with_fuel(scan, 3);
    reveal_with_fuel(find_option, 3);
    reveal_with_fuel(ids_of, 2);
    let toks = seq![program, "delete-many"@, "--id"@, id_text];
    let schema = options_schema(delete_many_options());
    assert("delete-many"@.len() == 11 && "delete-many"@[0] == 'd');
    assert("list"@.len() == 4 && "get"@.len() == 3 && "delete"@.len() == 6);
    assert("create"@.len() == 6 && "update"@.len() == 6 && "upload-cover"@.len() == 12);
    assert("upload-file"@[0] == 'u' && "create-many"@[0] == 'c' && "update-many"@[0] == 'u');
    assert("--help"@.len() == 6 && "-h"@.len() == 2 && "help"@.len() == 4);
    assert("--version"@.len() == 9 && "-V"@.len() == 2);
    assert(command_line(toks) == raindrop_command("delete-many"@, toks, 2));
    assert(raindrop_command("delete-many"@, toks, 2) == then(
        scan_words(schema, toks, 2),
        delete_many_from(scan_words(schema, toks, 2)->Ok_0),
    ));
    let body = "--id"@.skip(2);
    assert(body =~= "id"@);
    assert(crate::cli::scan::index_of_from(body, '=', 0) is None) by {
        reveal_with_fuel(crate::cli::scan::index_of_from, 4);
    }
    assert(option_name(body) == "id"@);
    assert(find_option(schema.options, "id"@, 0) == Some(1int));
    let vals = no_values(schema.options.len());
    let after = vals.update(1, vals[1].push(id_text));
    assert(scan_words(schema, toks, 2) == scan(schema, toks, 4, false, Seq::empty(), after));
    assert(after[0] =~= Seq::<Seq<char>>::empty());
    assert(after[1] =~= seq![id_text]);
    assert(seq![id_text].drop_last() =~= Seq::<Seq<char>>::empty());
    assert(ids_of(seq![id_text]) == Some(seq![parse_i64_spec(id_text)->0]));
}

// ---- reading the command line ----

/// A single positional slot.
fn one_slot(allow_hyphen: bool) -> (r: Vec<bool>)
    ensures
        r@ == seq![allow_hyphen],
{
    let mut r: Vec<bool> = Vec::new();
    r.push(allow_hyphen);
    assert(r@ =~= seq![allow_hyphen]);
    r
}

fn list_cmd(args: &[&str], at: usize) -> (r: Result<Option<Command>, CliError>)
    requires
        at <= args@.len(),
    ensures
        outcome_view(r) == ({
            let s = scan_words(list_schema(), tokens(args@), at as int);
            then(s, list_from(s->Ok_0))
        }),
{
    let m = match scan_args(&list_schema_exec(), args, at) {
        Ok(m) => m,
        Err(e) => return Err(e),
    };
    let ghost v = m@.values;
    let collection = match opt_scope(&m.values[0]) {
        Some(x) => x,
        None => return Err(CliError::InvalidValue),
    };
    let page = match opt_page(&m.values[3]) {
        Some(x) => x,
        None => return Err(CliError::InvalidValue),
    };
    let per_page = match opt_per_page(&m.values[4]) {
        Some(x) => x,
        None => return Err(CliError::InvalidValue),
    };
    let a = ListArgs {
        collection,
        search: last_string(&m.values[1]),
        sort: last_string(&m.values[2]),
        page,
        per_page,
        nested: m.values[5].len() > 0,
    };
    assert(v[5].len() == m.values@[5]@.len());
    Ok(Some(Command::List(a)))
}

fn id_cmd(get: bool, args: &[&str], at: usize) -> (r: Result<Option<Command>, CliError>)
    requires
        at <= args@.len(),
    ensures
        outcome_view(r) == ({
            let s = scan_words(positional_schema(seq![false]), tokens(args@), at as int);
            then(
                s,
                match parse_i64_spec(s->Ok_0.positionals[0]) {
                    Some(id) => Ok(
                        Some(
                            if get {
                                CommandV::Get(GetArgs { id: RaindropId(id) })
                            } else {
                                CommandV::Delete(DeleteArgs { id: RaindropId(id) })
                            },
                        ),
                    ),
                    None => Err(CliError::InvalidValue),
                },
            )
        }),
{
    let m = match scan_args(&positional_schema_exec(one_slot(false)), args, at) {
        Ok(m) => m,
        Err(e) => return Err(e),
    };
    match parse_i64(m.positionals[0].as_str()) {
        Some(id) => if get {
            Ok(Some(Command::Get(GetArgs { id: RaindropId(id) })))
        } else {
            Ok(Some(Command::Delete(DeleteArgs { id: RaindropId(id) })))
        },
        None => Err(CliError::InvalidValue),
    }
}

fn create_cmd(args: &[&str], at: usize) -> (r: Result<Option<Command>, CliError>)
    requires
        at <= args@.len(),
    ensures
        outcome_view(r) == ({
            let s = scan_words(edit_schema(), tokens(args@), at as int);
            then(s, create_from(s->Ok_0))
        }),
{
    let m = match scan_args(&edit_schema_exec(), args, at) {
        Ok(m) => m,
        Err(e) => return Err(e),
    };
    let collection = match opt_scope(&m.values[3]) {
        Some(x) => x,
        None => return Err(CliError::InvalidValue),
    };
    let a = CreateArgs {
        link: m.positionals[0].clone(),
        title: last_string(&m.values[0]),
        excerpt: last_string(&m.values[1]),
        tags: all_strings(&m.values[2]),
        collection,
    };
    Ok(Some(Command::Create(a)))
}

fn update_cmd(args: &[&str], at: usize) -> (r: Result<Option<Command>, CliError>)
    requires
        at <= args@.len(),
    ensures
        outcome_view(r) == ({
            let s = scan_words(edit_schema(), tokens(args@), at as int);
            then(s, update_from(s->Ok_0))
        }),
{
    let m = match scan_args(&edit_schema_exec(), args, at) {
        Ok(m) => m,
        Err(e) => return Err(e),
    };
    let id = match parse_i64(m.positionals[0].as_str()) {
        Some(x) => x,
        None => return Err(CliError::InvalidValue),
    };
    let collection = match opt_scope(&m.values[3]) {
        Some(x) => x,
        None => return Err(CliError::InvalidValue),
    };
    let a = UpdateArgs {
        id: RaindropId(id),
        title: last_string(&m.values[0]),
        excerpt: last_string(&m.values[1]),
        tags: all_strings(&m.values[2]),
        collection,
    };
    Ok(Some(Command::Update(a)))
}

fn upload_file_cmd(args: &[&str], at: usize) -> (r: Result<Option<Command>, CliError>)
    requires
        at <= args@.len(),
    ensures
        outcome_view(r) == ({
            let s = scan_words(positional_schema(seq![false]), tokens(args@), at as int);
            then(s, Ok(Some(CommandV::UploadFile { path: s->Ok_0.positionals[0] })))
        }),
{
    let m = match scan_args(&positional_schema_exec(one_slot(false)), args, at) {
        Ok(m) => m,
        Err(e) => return Err(e),
    };
    Ok(Some(Command::UploadFile(UploadFileArgs { path: m.positionals[0].clone() })))
}

fn upload_cover_cmd(args: &[&str], at: usize) -> (r: Result<Option<Command>, CliError>)
    requires
        at <= args@.len(),
    ensures
        outcome_view(r) == ({
            let s = scan_words(positional_schema(seq![false, false]), tokens(args@), at as int);
            then(
                s,
                match parse_i64_spec(s->Ok_0.positionals[0]) {
                    Some(id) => Ok(
                        Some(
                            CommandV::UploadCover {
                                id: RaindropId(id),
                                path: s->Ok_0.positionals[1],
                            },
                        ),
                    ),
                    None => Err(CliError::InvalidValue),
                },
            )
        }),
{
    let m = match scan_args(&positional_schema_exec(vec![false, false]), args, at) {
        Ok(m) => m,
        Err(e) => return Err(e),
    };
    match parse_i64(m.positionals[0].as_str()) {
        Some(id) => Ok(
            Some(
                Command::UploadCover(
                    UploadCoverArgs { id: RaindropId(id), path: m.positionals[1].clone() },
                ),
            ),
        ),
        None => Err(CliError::InvalidValue),
    }
}

fn create_many_cmd(args: &[&str], at: usize) -> (r: Result<Option<Command>, CliError>)
    requires
        at <= args@.len(),
    ensures
        outcome_view(r) == ({
            let s = scan_words(options_schema(create_many_options()), tokens(args@), at as int);
            then(
                s,
                match last_of(s->Ok_0.values[0]) {
                    Some(input) => Ok(Some(CommandV::CreateMany { input })),
                    None => Err(CliError::MissingArgument),
                },
            )
        }),
{
    let sc = schema(vec![], vec![opt("input", true, false, false)]);
    assert(sc@.options =~= options_schema(create_many_options()).options);
    assert(sc@.positionals =~= options_schema(create_many_options()).positionals);
    let m = match scan_args(&sc, args, at) {
        Ok(m) => m,
        Err(e) => return Err(e),
    };
    match last_string(&m.values[0]) {
        Some(input) => Ok(Some(Command::CreateMany(CreateManyArgs { input }))),
        None => Err(CliError::MissingArgument),
    }
}

fn update_many_cmd(args: &[&str], at: usize) -> (r: Result<Option<Command>, CliError>)
    requires
        at <= args@.len(),
    ensures
        outcome_view(r) == ({
            let s = scan_words(options_schema(update_many_options()), tokens(args@), at as int);
            then(s, update_many_from(s->Ok_0))
        }),
{
    let sc = schema(
        vec![],
        vec![
            opt("id", true, false, true),
            opt("from-collection", true, true, true),
            opt("exclude-collection", true, true, true),
            opt("search", true, false, false),
            opt("tag", true, false, true),
            opt("to-collection", true, true, false),
        ],
    );
    assert(sc@.options =~= options_schema(update_many_options()).options);
    assert(sc@.positionals =~= options_schema(update_many_options()).positionals);
    let m = match scan_args(&sc, args, at) {
        Ok(m) => m,
        Err(e) => return Err(e),
    };
    let ghost v = m@.values;
    let ids = match all_ids(&m.values[0]) {
        Some(x) => x,
        None => return Err(CliError::InvalidValue),
    };
    let from_collection = match all_scopes(&m.values[1]) {
        Some(x) => x,
        None => return Err(CliError::InvalidValue),
    };
    let exclude_collection = match all_scopes(&m.values[2]) {
        Some(x) => x,
        None => return Err(CliError::InvalidValue),
    };
    let to_collection = match opt_scope(&m.values[5]) {
        Some(x) => x,
        None => return Err(CliError::InvalidValue),
    };
    assert(v[0].len() == m.values@[0]@.len());
    assert(v[1].len() == m.values@[1]@.len());
    if m.values[0].len() == 0 && m.values[1].len() == 0 {
        return Err(CliError::MissingArgument);
    }
    let a = UpdateManyArgs {
        ids,
        from_collection,
        exclude_collection,
        search: last_string(&m.values[3]),
        tags: all_strings(&m.values[4]),
        to_collection,
    };
    Ok(Some(Command::UpdateMany(a)))
}

fn delete_many_cmd(args: &[&str], at: usize) -> (r: Result<Option<Command>, CliError>)
    requires
        at <= args@.len(),
    ensures
        outcome_view(r) == ({
            let s = scan_words(options_schema(delete_many_options()), tokens(args@), at as int);
            then(s, delete_many_from(s->Ok_0))
        }),
{
    let sc = schema(
        vec![],
        vec![opt("collection-id", true, true, false), opt("id", true, false, true)],
    );
    assert(sc@.options =~= options_schema(delete_many_options()).options);
    assert(sc@.positionals =~= options_schema(delete_many_options()).positionals);
    let m = match scan_args(&sc, args, at) {
        Ok(m) => m,
        Err(e) => return Err(e),
    };
    let collection = match opt_scope(&m.values[0]) {
        Some(x) => x,
        None => return Err(CliError::InvalidValue),
    };
    let ids = match all_ids(&m.values[1]) {
        Some(x) => x,
        None => return Err(CliError::InvalidValue),
    };
    if ids.len() == 0 {
        return Err(CliError::MissingArgument);
    }
    let collection_id = match collection {
        Some(c) => c,
        None => CollectionScope::All,
    };
    Ok(Some(Command::DeleteMany(DeleteManyArgs { collection_id, ids })))
}

fn export_cmd(args: &[&str], at: usize) -> (r: Result<Option<Command>, CliError>)
    requires
        at <= args@.len(),
    ensures
        outcome_view(r) == ({
            let s = scan_words(options_schema(export_options()), tokens(args@), at as int);
            then(s, export_from(s->Ok_0))
        }),
{
    let sc = schema(
        vec![],
        vec![opt("output", true, false, false), opt("collection", true, true, false)],
    );
    assert(sc@.options =~= options_schema(export_options()).options);
    assert(sc@.positionals =~= options_schema(export_options()).positionals);
    let m = match scan_args(&sc, args, at) {
        Ok(m) => m,
        Err(e) => return Err(e),
    };
    let collection = match opt_scope(&m.values[1]) {
        Some(x) => x,
        None => return Err(CliError::InvalidValue),
    };
    let output = match last_string(&m.values[0]) {
        Some(o) => o,
        None => to_owned_string("export.json"),
    };
    Ok(Some(Command::Export(ExportArgs { output, collection })))
}

fn bare_cmd(args: &[&str], at: usize, c: Command) -> (r: Result<Option<Command>, CliError>)
    requires
        at <= args@.len(),
    ensures
        outcome_view(r) == then(
            scan_words(positional_schema(seq![]), tokens(args@), at as int),
            Ok(Some(c@)),
        ),
{
    match scan_args(&positional_schema_exec(vec![]), args, at) {
        Ok(_) => Ok(Some(c)),
        Err(e) => Err(e),
    }
}

fn raindrop_cmd(name: &str, args: &[&str], at: usize) -> (r: Result<Option<Command>, CliError>)
    requires
        at <= args@.len(),
    ensures
        outcome_view(r) == raindrop_command(name@, tokens(args@), at as int),
{
    if str_eq(name, "list") {
        list_cmd(args, at)
    } else if str_eq(name, "get") {
        id_cmd(true, args, at)
    } else if str_eq(name, "delete") {
        id_cmd(false, args, at)
    } else if str_eq(name, "create") {
        create_cmd(args, at)
    } else if str_eq(name, "update") {
        update_cmd(args, at)
    } else if str_eq(name, "upload-file") {
        upload_file_cmd(args, at)
    } else if str_eq(name, "upload-cover") {
        upload_cover_cmd(args, at)
    } else if str_eq(name, "create-many") {
        create_many_cmd(args, at)
    } else if str_eq(name, "update-many") {
        update_many_cmd(args, at)
    } else if str_eq(name, "delete-many") {
        delete_many_cmd(args, at)
    } else if str_eq(name, "export") {
        export_cmd(args, at)
    } else if str_eq(name, "me") {
        bare_cmd(args, at, Command::Me)
    } else if str_eq(name, "setup") {
        bare_cmd(args, at, Command::Setup)
    } else {
        bare_cmd(args, at, Command::Config)
    }
}

fn collections_cmd(args: &[&str]) -> (r: Result<Option<Command>, CliError>)
    requires
        3 <= args@.len(),
    ensures
        outcome_view(r) == collections_command(tokens(args@)),
{
    let sub: &str = args[2];
    assert(tokens(args@)[2] == sub@);
    if str_eq(sub, "list") {
        bare_cmd(args, 3, Command::Collections { command: CollectionsCommand::List })
    } else if str_eq(sub, "get") {
        let m = match scan_args(&positional_schema_exec(one_slot(true)), args, 3) {
            Ok(m) => m,
            Err(e) => return Err(e),
        };
        match CollectionScope::parse(m.positionals[0].as_str()) {
            Ok(id) => Ok(
                Some(
                    Command::Collections {
                        command: CollectionsCommand::Get(GetCollectionArgs { id }),
                    },
                ),
            ),
            Err(_) => Err(CliError::InvalidValue),
        }
    } else if str_eq(sub, "create") {
        let sc = schema(one_slot(false), vec![opt("parent", true, true, false)]);
        assert(sc@.options =~= collection_create_schema().options);
        let m = match scan_args(&sc, args, 3) {
            Ok(m) => m,
            Err(e) => return Err(e),
        };
        match opt_i64(&m.values[0]) {
            Some(parent) => Ok(
                Some(
                    Command::Collections {
                        command: CollectionsCommand::Create(
                            CreateCollectionArgs { title: m.positionals[0].clone(), parent },
                        ),
                    },
                ),
            ),
            None => Err(CliError::InvalidValue),
        }
    } else if str_eq(sub, "update") {
        let sc = schema(
            one_slot(true),
            vec![opt("title", true, false, false), opt("parent", true, true, false)],
        );
        assert(sc@.options =~= collection_update_schema().options);
        let m = match scan_args(&sc, args, 3) {
            Ok(m) => m,
            Err(e) => return Err(e),
        };
        let id = match parse_i64(m.positionals[0].as_str()) {
            Some(x) => x,
            None => return Err(CliError::InvalidValue),
        };
        match opt_i64(&m.values[1]) {
            Some(parent) => Ok(
                Some(
                    Command::Collections {
                        command: CollectionsCommand::Update(
                            UpdateCollectionArgs { id, title: last_string(&m.values[0]), parent },
                        ),
                    },
                ),
            ),
            None => Err(CliError::InvalidValue),
        }
    } else if str_eq(sub, "delete") {
        let m = match scan_args(&positional_schema_exec(one_slot(true)), args, 3) {
            Ok(m) => m,
            Err(e) => return Err(e),
        };
        match parse_i64(m.positionals[0].as_str()) {
            Some(id) => Ok(
                Some(
                    Command::Collections {
                        command: CollectionsCommand::Delete(DeleteCollectionArgs { id }),
                    },
                ),
            ),
            None => Err(CliError::InvalidValue),
        }
    } else {
        let m = match scan_args(&positional_schema_exec(vec![true, false]), args, 3) {
            Ok(m) => m,
            Err(e) => return Err(e),
        };
        match parse_i64(m.positionals[0].as_str()) {
            Some(id) => Ok(
                Some(
                    Command::Collections {
                        command: CollectionsCommand::UploadCover(
                            UploadCollectionCoverArgs { id, path: m.positionals[1].clone() },
                        ),
                    },
                ),
            ),
            None => Err(CliError::InvalidValue),
        }
    }
}

fn tags_cmd(args: &[&str]) -> (r: Result<Option<Command>, CliError>)
    requires
        3 <= args@.len(),
    ensures
        outcome_view(r) == tags_command(tokens(args@)),
{
    let sub: &str = args[2];
    assert(tokens(args@)[2] == sub@);
    if str_eq(sub, "list") {
        bare_cmd(args, 3, Command::Tags { command: TagsCommand::List })
    } else if str_eq(sub, "get") {
        let m = match scan_args(&positional_schema_exec(one_slot(true)), args, 3) {
            Ok(m) => m,
            Err(e) => return Err(e),
        };
        match parse_i64(m.positionals[0].as_str()) {
            Some(collection_id) => Ok(
                Some(Command::Tags { command: TagsCommand::Get(GetTagsArgs { collection_id }) }),
            ),
            None => Err(CliError::InvalidValue),
        }
    } else if str_eq(sub, "rename") {
        let m = match scan_args(&positional_schema_exec(vec![true, false, false]), args, 3) {
            Ok(m) => m,
            Err(e) => return Err(e),
        };
        match parse_i64(m.positionals[0].as_str()) {
            Some(collection_id) => Ok(
                Some(
                    Command::Tags {
                        command: TagsCommand::Rename(
                            RenameTagArgs {
                                collection_id,
                                find: m.positionals[1].clone(),
                                replace: m.positionals[2].clone(),
                            },
                        ),
                    },
                ),
            ),
            None => Err(CliError::InvalidValue),
        }
    } else {
        let m = match scan_args(&positional_schema_exec(vec![true, false]), args, 3) {
            Ok(m) => m,
            Err(e) => return Err(e),
        };
        match parse_i64(m.positionals[0].as_str()) {
            Some(collection_id) => Ok(
                Some(
                    Command::Tags {
                        command: TagsCommand::Delete(
                            DeleteTagArgs { collection_id, tag: m.positionals[1].clone() },
                        ),
                    },
                ),
            ),
            None => Err(CliError::InvalidValue),
        }
    }
}

fn filters_cmd(args: &[&str]) -> (r: Result<Option<Command>, CliError>)
    requires
        3 <= args@.len(),
    ensures
        outcome_view(r) == filters_command(tokens(args@)),
{
    let m = match scan_args(&positional_schema_exec(one_slot(true)), args, 3) {
        Ok(m) => m,
        Err(e) => return Err(e),
    };
    match parse_i64(m.positionals[0].as_str()) {
        Some(collection_id) => Ok(
            Some(
                Command::Filters {
                    command: FiltersCommand::List(ListFiltersArgs { collection_id }),
                },
            ),
        ),
        None => Err(CliError::InvalidValue),
    }
}

fn is_help_word(t: &str) -> (r: bool)
    ensures
        r == is_help(t@),
{
    str_eq(t, "--help") || str_eq(t, "-h") || str_eq(t, "help")
}

fn starts_with_dash_word(t: &str) -> (r: bool)
    ensures
        r == starts_with_dash(t@),
{
    t.unicode_len() > 0 && t.get_char(0) == '-'
}

/// A command line, read.
#[derive(Debug, Clone, PartialEq, Eq)]
pub struct Cli {
    pub command: Option<Command>,
}

impl Cli {
    /// Reads a command line; `args[0]` is the program's name.
    pub fn try_parse_from(args: &[&str]) -> (r: Result<Cli, CliError>)
        ensures
            match r {
                Ok(cli) => command_line(tokens(args@)) == outcome_view(
                    Ok::<_, CliError>(cli.command),
                ),
                Err(e) => command_line(tokens(args@)) == Err::<Option<CommandV>, _>(e),
            },
    {
        let ghost toks = tokens(args@);
        let n = args.len();
        if n < 2 {
            return Ok(Cli { command: None });
        }
        let name: &str = args[1];
        assert(toks[1] == name@);
        let r = if is_help_word(name) {
            Err(CliError::Help)
        } else if str_eq(name, "--version") || str_eq(name, "-V") {
            Err(CliError::Version)
        } else if str_eq(name, "list") || str_eq(name, "get") || str_eq(name, "delete") || str_eq(
            name,
            "create",
        ) || str_eq(name, "update") || str_eq(name, "upload-file") || str_eq(name, "upload-cover")
            || str_eq(name, "create-many") || str_eq(name, "update-many") || str_eq(
            name,
            "delete-many",
        ) || str_eq(name, "export") || str_eq(name, "me") || str_eq(name, "setup") || str_eq(
            name,
            "config",
        ) {
            raindrop_cmd(name, args, 2)
        } else if str_eq(name, "collections") || str_eq(name, "tags") || str_eq(name, "filters") {
            if n < 3 {
                Err(CliError::MissingCommand)
            } else {
                let sub: &str = args[2];
                assert(toks[2] == sub@);
                if is_help_word(sub) {
                    Err(CliError::Help)
                } else if str_eq(name, "collections") {
                    if str_eq(sub, "list") || str_eq(sub, "get") || str_eq(sub, "create") || str_eq(
                        sub,
                        "update",
                    ) || str_eq(sub, "delete") || str_eq(sub, "upload-cover") {
                        collections_cmd(args)
                    } else if starts_with_dash_word(sub) {
                        Err(CliError::UnknownArgument)
                    } else {
                        Err(CliError::UnknownCommand)
                    }
                } else if str_eq(name, "tags") {
                    if str_eq(sub, "list") || str_eq(sub, "get") || str_eq(sub, "rename") || str_eq(
                        sub,
                        "delete",
                    ) {
                        tags_cmd(args)
                    } else if starts_with_dash_word(sub) {
                        Err(CliError::UnknownArgument)
                    } else {
                        Err(CliError::UnknownCommand)
                    }
                } else {
                    if str_eq(sub, "list") {
                        filters_cmd(args)
                    } else if starts_with_dash_word(sub) {
                        Err(CliError::UnknownArgument)
                    } else {
                        Err(CliError::UnknownCommand)
                    }
                }
            }
        } else if starts_with_dash_word(name) {
            Err(CliError::UnknownArgument)
        } else {
            Err(CliError::UnknownCommand)
        };
        match r {
            Ok(command) => Ok(Cli { command }),
            Err(e) => Err(e),
        }
    }
}

} // verus!
