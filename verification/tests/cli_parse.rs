use puddle::cli::args::{
    CollectionsCommand, Command, CreateArgs, ExportArgs, FiltersCommand, GetCollectionArgs,
    GetTagsArgs, ListArgs, ListFiltersArgs, RenameTagArgs, TagsCommand, UpdateArgs,
    UpdateCollectionArgs, UpdateManyArgs,
};
use puddle::cli::grammar::Cli;
use puddle::cli::scan::CliError;
use puddle::cli::values::CliPage;
use puddle::models::common::CollectionScope;
use puddle::models::raindrops::RaindropId;
use puddle::pagination::PerPage;

#[test]
fn parses_negative_collection_id_for_filters() {
    let cli = Cli::try_parse_from(&["puddle", "filters", "list", "-1"]).unwrap();

    assert_eq!(
        Some(Command::Filters {
            command: FiltersCommand::List(ListFiltersArgs { collection_id: -1 }),
        }),
        cli.command
    );
}

#[test]
fn parses_nested_collection_update_command() {
    let cli = Cli::try_parse_from(&[
        "puddle",
        "collections",
        "update",
        "42",
        "--title",
        "Reading",
        "--parent",
        "1",
    ])
    .unwrap();

    assert_eq!(
        Some(Command::Collections {
            command: CollectionsCommand::Update(UpdateCollectionArgs {
                id: 42,
                title: Some("Reading".to_string()),
                parent: Some(1),
            }),
        }),
        cli.command
    );
}

#[test]
fn parses_negative_collection_id_without_double_dash() {
    let cli = Cli::try_parse_from(&["puddle", "collections", "get", "-1"]).unwrap();

    assert_eq!(
        Some(Command::Collections {
            command: CollectionsCommand::Get(GetCollectionArgs {
                id: CollectionScope::Unsorted,
            }),
        }),
        cli.command
    );
}

#[test]
fn parses_collections_list_command() {
    let cli = Cli::try_parse_from(&["puddle", "collections", "list"]).unwrap();

    assert_eq!(
        Some(Command::Collections {
            command: CollectionsCommand::List,
        }),
        cli.command
    );
}

#[test]
fn parses_top_level_list_command() {
    let cli = Cli::try_parse_from(&[
        "puddle",
        "list",
        "--search",
        "rust",
        "--sort",
        "-created",
        "--page",
        "2",
        "--per-page",
        "25",
        "--nested",
    ])
    .unwrap();

    assert_eq!(
        Some(Command::List(ListArgs {
            collection: None,
            search: Some("rust".to_string()),
            sort: Some("-created".to_string()),
            page: Some(CliPage(2)),
            per_page: Some(PerPage::new_unchecked(25)),
            nested: true,
        })),
        cli.command
    );
}

#[test]
fn parses_top_level_create_command() {
    let cli = Cli::try_parse_from(&[
        "puddle",
        "create",
        "https://example.com",
        "--title",
        "Example",
        "--excerpt",
        "Notes",
        "--tag",
        "rust",
        "--tag",
        "cli",
        "--collection",
        "42",
    ])
    .unwrap();

    assert_eq!(
        Some(Command::Create(CreateArgs {
            link: "https://example.com".to_string(),
            title: Some("Example".to_string()),
            excerpt: Some("Notes".to_string()),
            tags: vec!["rust".to_string(), "cli".to_string()],
            collection: Some(CollectionScope::id(42).unwrap()),
        })),
        cli.command
    );
}

#[test]
fn parses_named_system_collection_for_create() {
    let cli = Cli::try_parse_from(&[
        "puddle",
        "create",
        "https://example.com",
        "--collection",
        "Unsorted",
    ])
    .unwrap();

    assert_eq!(
        Some(Command::Create(CreateArgs {
            link: "https://example.com".to_string(),
            title: None,
            excerpt: None,
            tags: vec![],
            collection: Some(CollectionScope::Unsorted),
        })),
        cli.command
    );
}

#[test]
fn parses_named_system_collection_for_update() {
    let cli =
        Cli::try_parse_from(&["puddle", "update", "42", "--collection", "Unsorted"]).unwrap();

    assert_eq!(
        Some(Command::Update(UpdateArgs {
            id: RaindropId::new(42),
            title: None,
            excerpt: None,
            tags: vec![],
            collection: Some(CollectionScope::Unsorted),
        })),
        cli.command
    );
}

#[test]
fn parses_top_level_export_command() {
    let cli = Cli::try_parse_from(&[
        "puddle",
        "export",
        "--collection",
        "42",
        "--output",
        "bookmarks.json",
    ])
    .unwrap();

    assert_eq!(
        Some(Command::Export(ExportArgs {
            output: "bookmarks.json".to_string(),
            collection: Some(CollectionScope::id(42).unwrap()),
        })),
        cli.command
    );
}

#[test]
fn export_defaults_output_path() {
    let cli = Cli::try_parse_from(&["puddle", "export"]).unwrap();

    assert_eq!(
        Some(Command::Export(ExportArgs {
            output: "export.json".to_string(),
            collection: None,
        })),
        cli.command
    );
}

#[test]
fn parses_named_collection_scope_for_export() {
    let cli = Cli::try_parse_from(&["puddle", "export", "--collection", "Unsorted"]).unwrap();

    assert_eq!(
        Some(Command::Export(ExportArgs {
            output: "export.json".to_string(),
            collection: Some(CollectionScope::Unsorted),
        })),
        cli.command
    );
}

#[test]
fn export_defaults_to_all_collection() {
    let args = ExportArgs {
        output: "export.json".to_string(),
        collection: None,
    };

    assert_eq!(CollectionScope::All, args.collection.unwrap_or_default());
}

#[test]
fn parses_top_level_update_many_command() {
    let cli = Cli::try_parse_from(&[
        "puddle",
        "update-many",
        "--id",
        "10",
        "--id",
        "12",
        "--from-collection",
        "5",
        "--from-collection",
        "Unsorted",
        "--exclude-collection",
        "Trash",
        "--search",
        "rust",
        "--tag",
        "rust",
        "--to-collection",
        "7",
    ])
    .unwrap();

    assert_eq!(
        Some(Command::UpdateMany(UpdateManyArgs {
            ids: vec![10, 12],
            from_collection: vec![CollectionScope::id(5).unwrap(), CollectionScope::Unsorted],
            exclude_collection: vec![CollectionScope::Trash],
            search: Some("rust".to_string()),
            tags: vec!["rust".to_string()],
            to_collection: Some(CollectionScope::id(7).unwrap()),
        })),
        cli.command
    );
}

#[test]
fn parses_named_system_collection_for_update_many_destination() {
    let cli = Cli::try_parse_from(&[
        "puddle",
        "update-many",
        "--id",
        "10",
        "--to-collection",
        "Unsorted",
    ])
    .unwrap();

    assert_eq!(
        Some(Command::UpdateMany(UpdateManyArgs {
            ids: vec![10],
            from_collection: vec![],
            exclude_collection: vec![],
            search: None,
            tags: vec![],
            to_collection: Some(CollectionScope::Unsorted),
        })),
        cli.command
    );
}

#[test]
fn rejects_update_many_without_selector() {
    let cli = Cli::try_parse_from(&["puddle", "update-many", "--tag", "rust"]);

    assert!(cli.is_err());
}

#[test]
fn list_defaults_to_all_collection() {
    let args = ListArgs {
        collection: None,
        search: None,
        sort: None,
        page: None,
        per_page: None,
        nested: false,
    };

    assert_eq!(CollectionScope::All, args.collection.unwrap_or_default());
}

#[test]
fn parses_system_collection_scope_for_list() {
    let cli = Cli::try_parse_from(&["puddle", "list", "--collection", "-1"]).unwrap();

    assert_eq!(
        Some(Command::List(ListArgs {
            collection: Some(CollectionScope::Unsorted),
            search: None,
            sort: None,
            page: None,
            per_page: None,
            nested: false,
        })),
        cli.command
    );
}

#[test]
fn parses_named_collection_scope_for_list() {
    let cli = Cli::try_parse_from(&["puddle", "list", "--collection", "Unsorted"]).unwrap();

    assert_eq!(
        Some(Command::List(ListArgs {
            collection: Some(CollectionScope::Unsorted),
            search: None,
            sort: None,
            page: None,
            per_page: None,
            nested: false,
        })),
        cli.command
    );
}

#[test]
fn parses_numeric_collection_scope_for_list() {
    let cli = Cli::try_parse_from(&["puddle", "list", "--collection", "42"]).unwrap();

    assert_eq!(
        Some(Command::List(ListArgs {
            collection: Some(CollectionScope::id(42).unwrap()),
            search: None,
            sort: None,
            page: None,
            per_page: None,
            nested: false,
        })),
        cli.command
    );
}

#[test]
fn translates_cli_page_numbers_to_api_page_numbers() {
    assert_eq!(0, CliPage(1).to_api_page());
    assert_eq!(1, CliPage(2).to_api_page());
    assert_eq!(4, CliPage(5).to_api_page());
}

#[test]
fn cli_page_keeps_display_values_one_indexed() {
    assert_eq!(1, CliPage(1).as_display());
    assert_eq!(2, CliPage(2).as_display());
}

#[test]
fn rejects_zero_page_for_list() {
    let cli = Cli::try_parse_from(&["puddle", "list", "--page", "0"]);

    assert!(cli.is_err());
}

#[test]
fn rejects_zero_per_page_for_list() {
    let cli = Cli::try_parse_from(&["puddle", "list", "--per-page", "0"]);

    assert!(cli.is_err());
}

#[test]
fn rejects_per_page_above_documented_max_for_list() {
    let cli = Cli::try_parse_from(&["puddle", "list", "--per-page", "51"]);

    assert!(cli.is_err());
}

#[test]
fn parses_nested_tag_rename_command() {
    let cli =
        Cli::try_parse_from(&["puddle", "tags", "rename", "10", "api", "backend"]).unwrap();

    assert_eq!(
        Some(Command::Tags {
            command: TagsCommand::Rename(RenameTagArgs {
                collection_id: 10,
                find: "api".to_string(),
                replace: "backend".to_string(),
            }),
        }),
        cli.command
    );
}

#[test]
fn parses_negative_collection_id_for_tag_scope() {
    let cli = Cli::try_parse_from(&["puddle", "tags", "get", "-1"]).unwrap();

    assert_eq!(
        Some(Command::Tags {
            command: TagsCommand::Get(GetTagsArgs { collection_id: -1 }),
        }),
        cli.command
    );
}

#[test]
fn no_command_parses_to_none() {
    let cli = Cli::try_parse_from(&["puddle"]).unwrap();
    assert_eq!(None, cli.command);
}

#[test]
fn page_text_reads_back() {
    for n in [1u32, 2, 99] {
        assert_eq!(Ok(CliPage(n)), CliPage::parse(&CliPage(n).to_string()));
    }
    assert_eq!(Err("page must be at least 1".to_string()), CliPage::parse("0"));
    assert_eq!(
        Err("invalid value 'two' for '--page <PAGE>'".to_string()),
        CliPage::parse("two")
    );
}

#[test]
fn refused_command_lines_say_why() {
    let err = Cli::try_parse_from(&["puddle", "list", "--bogus"]).unwrap_err();
    assert_eq!(CliError::UnknownArgument, err);
    assert_eq!("unexpected argument found", err.message());
    let err = Cli::try_parse_from(&["puddle", "nope"]).unwrap_err();
    assert_eq!(CliError::UnknownCommand, err);
    assert_eq!("unrecognized subcommand", err.message());
    assert_eq!(Err(CliError::Help), Cli::try_parse_from(&["puddle", "--help"]));
}
