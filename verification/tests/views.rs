use puddle::cli::args::{DeleteTagArgs, RenameTagArgs, UpdateManyArgs};
use puddle::display::{display_text, format_collection_scopes, format_tags, terminal_link};
use puddle::models::collections::{Collection, CreateCollection, UpdateCollection};
use puddle::models::common::CollectionScope;
use puddle::models::filters::{FilterBucket, FilterCount, FiltersResponse};
use puddle::models::raindrops::{CollectionRef, CreateRaindrop, Raindrop, RaindropId, UpdateRaindrop};
use puddle::models::tags::Tag;
use puddle::models::user::User;
use puddle::previews::{
    CreateCollectionPreview, CreateManyRaindropsPreview, CreateRaindropPreview,
    DeleteCollectionPreview, DeleteManyRaindropsPreview, DeleteRaindropPreview, DeleteTagPreview,
    RenameTagPreview, UpdateCollectionPreview, UpdateManyRaindropsPreview, UpdateRaindropPreview,
    UploadCollectionCoverPreview, UploadRaindropCoverPreview, UploadRaindropFilePreview,
};
use puddle::selection::ResolvedUpdateManySelection;
use puddle::views::{
    export_message, format_collection_list, format_collection_summary, format_created_list,
    format_filters, format_next_page_hint, format_raindrop_detail, format_raindrop_list,
    format_raindrop_list_item, format_raindrop_summary, format_tag_list, format_user,
    outcome_line,
};

fn full_raindrop() -> Raindrop {
    Raindrop {
        id: RaindropId::new(42),
        title: Some("Rust article".to_string()),
        link: Some("https://example.com/rust".to_string()),
        excerpt: Some("Original excerpt".to_string()),
        collection: Some(CollectionRef::new(-1)),
        tags: vec!["rust".to_string(), "cli".to_string()],
    }
}

fn create_raindrop_payload() -> CreateRaindrop {
    CreateRaindrop {
        link: "https://example.com/create".to_string(),
        title: Some("Saved article".to_string()),
        excerpt: Some("Queued for later".to_string()),
        collection: Some(CollectionRef::new(7)),
        tags: vec!["rust".to_string(), "backend".to_string()],
    }
}

fn update_raindrop_payload() -> UpdateRaindrop {
    UpdateRaindrop {
        title: Some("Better title".to_string()),
        excerpt: Some("Updated excerpt".to_string()),
        collection: Some(CollectionRef::new(7)),
        tags: Some(vec!["backend".to_string(), "docs".to_string()]),
    }
}

fn full_collection() -> Collection {
    Collection {
        id: 12,
        title: Some("Reading list".to_string()),
        parent: Some(5),
        count: Some(9),
    }
}

fn selection_with_scope() -> ResolvedUpdateManySelection {
    ResolvedUpdateManySelection {
        targets: vec![
            full_raindrop(),
            Raindrop {
                id: RaindropId::new(43),
                title: None,
                link: Some("https://example.com/untitled".to_string()),
                excerpt: Some("Second excerpt".to_string()),
                collection: Some(CollectionRef::new(11)),
                tags: vec!["inbox".to_string()],
            },
        ],
        from_collections: vec![CollectionScope::Unsorted, CollectionScope::Id(7)],
        excluded_collections: vec![CollectionScope::Trash],
        search: Some("rust async".to_string()),
    }
}

fn update_many_args() -> UpdateManyArgs {
    UpdateManyArgs {
        ids: vec![42, 43],
        from_collection: vec![CollectionScope::Unsorted, CollectionScope::Id(7)],
        exclude_collection: vec![CollectionScope::Trash],
        search: Some("rust async".to_string()),
        tags: vec!["backend".to_string(), "docs".to_string()],
        to_collection: Some(CollectionScope::Id(7)),
    }
}

#[test]
fn formats_list_item_with_requested_fields() {
    let item = Raindrop {
        id: RaindropId::new(42),
        title: Some("Rust article".to_string()),
        link: Some("https://example.com".to_string()),
        excerpt: None,
        collection: Some(CollectionRef { id: 7 }),
        tags: vec!["rust".to_string(), "cli".to_string()],
    };

    let expected = [
        "id: 42",
        "title: Rust article",
        "link: https://example.com",
        "tags: rust, cli",
    ]
    .join("\n");

    let actual = format_raindrop_list_item(&item);

    assert_eq!(expected, actual);
}

#[test]
fn formats_raindrop_detail_via_display() {
    let item = Raindrop {
        id: RaindropId::new(42),
        title: Some("Rust article".to_string()),
        link: Some("https://example.com".to_string()),
        excerpt: Some("CLI notes".to_string()),
        collection: Some(CollectionRef { id: 7 }),
        tags: vec!["rust".to_string(), "cli".to_string()],
    };

    let expected = [
        "id: 42",
        "title: Rust article",
        "link: https://example.com",
        "excerpt: CLI notes",
        "collection: 7",
        "tags: rust, cli",
    ]
    .join("\n");

    let actual = format_raindrop_detail(&item);

    assert_eq!(expected, actual);
}

#[test]
fn next_page_hint_on_later_page_shows_previous_and_next() {
    let actual = format_next_page_hint(2);

    assert_eq!(
        "Hint: use\n`--page 1` for the previous page\n`--page 3` for the next page",
        actual
    );
}

#[test]
fn next_page_hint_on_first_page_shows_only_next() {
    let actual = format_next_page_hint(1);

    assert_eq!("Hint: use\n`--page 2` for the next page", actual);
}

#[test]
fn formats_filter_groups_with_blank_lines_between_sections() {
    let filters = FiltersResponse {
        result: true,
        broken: None,
        duplicates: None,
        important: None,
        notag: Some(FilterCount { count: 39 }),
        total: Some(FilterCount { count: 67 }),
        highlights: Some(FilterCount { count: 3 }),
        created: vec![FilterBucket {
            id: "2026-03".to_string(),
            count: 9,
        }],
        tags: vec![FilterBucket {
            id: "Rust".to_string(),
            count: 4,
        }],
        types: vec![FilterBucket {
            id: "article".to_string(),
            count: 30,
        }],
        collection_id: Some(-1),
    };

    let expected = [
        "total: 67",
        "highlights: 3",
        "notag: 39",
        "tags:\n  Rust (4)",
        "types:\n  article (30)",
        "created:\n  2026-03 (9)",
    ]
    .join("\n\n");

    let actual = format_filters(&filters);

    assert_eq!(expected, actual);
}

#[test]
fn create_raindrop() {
    let payload = create_raindrop_payload();

    assert_eq!(
        "Dry Run: Create Raindrop\nLink: https://example.com/create\nTitle: Saved article\nCollection: 7\nTags: rust, backend",
        CreateRaindropPreview::new(&payload).to_string()
    );
}

#[test]
fn update_raindrop() {
    let payload = update_raindrop_payload();
    let existing = full_raindrop();

    assert_eq!(
        "Dry Run: Update Raindrop\nTarget\nID: 42\nTitle: Rust article\n\nChanges\nTitle: Rust article -> Better title\nExcerpt: Original excerpt -> Updated excerpt\nCollection: Unsorted -> 7\nTags: rust, cli -> backend, docs",
        UpdateRaindropPreview::new(&existing, &payload).to_string()
    );
}

#[test]
fn update_raindrop_without_changes_says_so() {
    let payload = UpdateRaindrop::new();
    let existing = full_raindrop();

    assert_eq!(
        "Dry Run: Update Raindrop\nTarget\nID: 42\nTitle: Rust article\n\nNo changes found.",
        UpdateRaindropPreview::new(&existing, &payload).to_string()
    );
}

#[test]
fn delete_raindrop() {
    let existing = full_raindrop();

    assert_eq!(
        "Dry Run: Delete Raindrop\nTarget\nID: 42\nTitle: Rust article",
        DeleteRaindropPreview::new(&existing).to_string()
    );
}

#[test]
fn upload_raindrop_file() {
    let path = "fixtures/report.pdf".to_string();

    assert_eq!(
        "Dry Run: Upload Raindrop File\nPath: fixtures/report.pdf",
        UploadRaindropFilePreview::new(&path).to_string()
    );
}

#[test]
fn upload_raindrop_cover() {
    let path = "fixtures/report.pdf".to_string();
    let existing = full_raindrop();

    assert_eq!(
        "Dry Run: Upload Raindrop Cover\nTarget\nID: 42\nTitle: Rust article\nPath: fixtures/report.pdf",
        UploadRaindropCoverPreview::new(&existing, &path).to_string()
    );
}

#[test]
fn create_many_raindrops() {
    let input = "fixtures/create-many.json".to_string();
    let payloads = vec![
        create_raindrop_payload(),
        CreateRaindrop {
            link: "https://example.com/untitled".to_string(),
            title: None,
            excerpt: None,
            collection: None,
            tags: Vec::new(),
        },
    ];

    assert_eq!(
        "Dry Run: Create Many Raindrops\nInput: fixtures/create-many.json\nCount: 2\n\nItems to Create\nTitle: Saved article\nLink: https://example.com/create\n\nTitle: (untitled)\nLink: https://example.com/untitled",
        CreateManyRaindropsPreview::new(&input, &payloads).to_string()
    );
}

#[test]
fn update_many_raindrops() {
    let selection = selection_with_scope();
    let args = update_many_args();

    let expected = "Dry Run: Update Many Raindrops\nMatched: 2\n\nScope\nFrom Collections: Unsorted, 7\nExcluded Collections: Trash\nSearch: rust async\n\nMatched Targets\n- #42 Rust article\n- #43 (untitled)\n\nChanges\nID: 42\nTitle: Rust article\nCollection: Unsorted -> 7\nTags: rust, cli -> backend, docs\n\nID: 43\nTitle: (untitled)\nCollection: 11 -> 7\nTags: inbox -> backend, docs\n";

    assert_eq!(
        expected,
        UpdateManyRaindropsPreview::new(&selection, &args).to_string()
    );
}

#[test]
fn update_many_preview_selection_part_stops_before_changes() {
    let selection = selection_with_scope();
    let args = update_many_args();
    let preview = UpdateManyRaindropsPreview::new(&selection, &args);
    let head = preview.selection_text();
    assert_eq!(
        "Dry Run: Update Many Raindrops\nMatched: 2\n\nScope\nFrom Collections: Unsorted, 7\nExcluded Collections: Trash\nSearch: rust async\n\nMatched Targets\n- #42 Rust article\n- #43 (untitled)\n",
        head
    );
    assert!(preview.to_string().starts_with(&head));
}

#[test]
fn delete_many_raindrops() {
    let mut second = full_raindrop();
    second.id = RaindropId::new(43);
    second.title = Some("Server notes".to_string());
    second.link = Some("https://example.com/server".to_string());
    let targets = vec![full_raindrop(), second];

    assert_eq!(
        "Dry Run: Delete Many Raindrops\nMatched: 2\n\nScope\nCollection: Unsorted\n\nMatched Targets\nID: 42\nTitle: Rust article\n\nID: 43\nTitle: Server notes",
        DeleteManyRaindropsPreview::new(CollectionScope::Unsorted, &targets).to_string()
    );
}

#[test]
fn create_collection() {
    let payload = CreateCollection {
        title: "Architecture".to_string(),
        parent: Some(5),
    };

    assert_eq!(
        "Dry Run: Create Collection\nTitle: Architecture\nParent: 5",
        CreateCollectionPreview::new(&payload).to_string()
    );
}

#[test]
fn update_collection() {
    let payload = UpdateCollection {
        title: Some("Architecture notes".to_string()),
        parent: Some(8),
    };
    let existing = full_collection();

    assert_eq!(
        "Dry Run: Update Collection\nTarget\nID: 12\nTitle: Reading list\n\nChanges\nTitle: Reading list -> Architecture notes\nParent: 5 -> 8",
        UpdateCollectionPreview::new(&existing, &payload).to_string()
    );
}

#[test]
fn delete_collection() {
    let existing = full_collection();

    assert_eq!(
        "Dry Run: Delete Collection\nTarget\nID: 12\nTitle: Reading list",
        DeleteCollectionPreview::new(&existing).to_string()
    );
}

#[test]
fn upload_collection_cover() {
    let path = "fixtures/report.pdf".to_string();
    let existing = full_collection();

    assert_eq!(
        "Dry Run: Upload Collection Cover\nTarget\nID: 12\nTitle: Reading list\nPath: fixtures/report.pdf",
        UploadCollectionCoverPreview::new(&existing, &path).to_string()
    );
}

#[test]
fn rename_tag() {
    let args = RenameTagArgs {
        collection_id: 7,
        find: "api".to_string(),
        replace: "backend".to_string(),
    };

    assert_eq!(
        "Dry Run: Rename Tag\nTarget\nCollection: 7\nTag: api\n\nChanges\nTag: api -> backend",
        RenameTagPreview::new(&args).to_string()
    );
}

#[test]
fn delete_tag() {
    let args = DeleteTagArgs {
        collection_id: 7,
        tag: "deprecated".to_string(),
    };

    assert_eq!(
        "Dry Run: Delete Tag\nTarget\nCollection: 7\nTag: deprecated",
        DeleteTagPreview::new(&args).to_string()
    );
}

#[test]
fn change_lines_name_each_changed_field() {
    let existing = full_raindrop();
    let payload = UpdateRaindrop {
        title: None,
        excerpt: None,
        collection: None,
        tags: Some(vec![]),
    };

    assert_eq!(
        vec!["Tags: rust, cli -> (none)".to_string()],
        existing.change_lines(&payload)
    );
}

#[test]
fn display_text_falls_back_on_blank_values() {
    assert_eq!("(untitled)", display_text(Some("   "), "(untitled)"));
    assert_eq!("(untitled)", display_text(None, "(untitled)"));
    assert_eq!(" x ", display_text(Some(" x "), "(untitled)"));
}

#[test]
fn small_formatters() {
    assert_eq!("(none)", format_tags(&vec![]));
    assert_eq!("a, b", format_tags(&vec!["a".to_string(), "b".to_string()]));
    assert_eq!(
        "All, Trash, 3",
        format_collection_scopes(&vec![CollectionScope::All, CollectionScope::Trash, CollectionScope::Id(3)])
    );
    assert_eq!(
        "\u{1b}]8;;https://x.io\u{1b}\\x\u{1b}]8;;\u{1b}\\",
        terminal_link("x", "https://x.io")
    );
}

#[test]
fn formats_summaries_and_user() {
    let item = full_raindrop();
    assert_eq!(
        "#42 | Rust article | https://example.com/rust | collection=-1 | tags=[rust, cli]",
        format_raindrop_summary(&item)
    );
    assert_eq!(
        "#12 | Reading list | parent=5 | count=9",
        format_collection_summary(&full_collection())
    );
    let user = User {
        id: 7,
        email: Some("dev@example.com".to_string()),
        full_name: Some("Dev User".to_string()),
    };
    assert_eq!("id: 7\nfull_name: Dev User\nemail: dev@example.com", format_user(&user));
}

#[test]
fn formats_lists() {
    assert_eq!("No raindrops found.", format_raindrop_list(&vec![], 1));
    let listed = format_raindrop_list(&vec![full_raindrop(), full_raindrop()], 1);
    assert_eq!(
        "Listed raindrops: 2\nHint: use\n`--page 2` for the next page\n\nid: 42\ntitle: Rust article\nlink: https://example.com/rust\ntags: rust, cli\n\nid: 42\ntitle: Rust article\nlink: https://example.com/rust\ntags: rust, cli",
        listed
    );
    assert_eq!("No raindrops created.", format_created_list(&vec![]));
    assert_eq!("No collections found.", format_collection_list(&vec![]));
    assert_eq!("No tags found.", format_tag_list(&vec![]));
    let tags = vec![
        Tag { id: "api".to_string(), count: Some(100) },
        Tag { id: "rust".to_string(), count: None },
    ];
    assert_eq!("api (100)\nrust", format_tag_list(&tags));
    assert_eq!("deleted: true", outcome_line("deleted", true));
    assert_eq!("exported 52 raindrops to out.json", export_message(52, "out.json"));
}
