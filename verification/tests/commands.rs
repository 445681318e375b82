use puddle::auth::TokenResponse;
use puddle::cli::args::{CreateArgs, DeleteManyArgs, ListArgs, UpdateArgs, UpdateManyArgs};
use puddle::cli::values::CliPage;
use puddle::commands::{
    create_payload, delete_many_payload, list_request, resolve_selection, should_refresh,
    update_many_payload, update_many_report, update_payload, upload_file_name,
    upload_media_type, PageWalk,
};
use puddle::config::{Config, ConfigErrorKind, ConfigValues, EnvConfig};
use puddle::http::Error;
use puddle::models::common::{CollectionScope, InvalidDestinationCollectionScope};
use puddle::models::raindrops::{CollectionRef, Raindrop, RaindropId};
use puddle::pagination::PerPage;
use puddle::setup::{authorize_url, default_redirect_uri, prompt_answer, setup_intro, setup_values};

fn raindrop(id: i64, collection_id: i64) -> Raindrop {
    Raindrop {
        id: RaindropId::new(id),
        title: Some(format!("Item {id}")),
        link: Some(format!("https://example.com/{id}")),
        excerpt: None,
        collection: Some(CollectionRef::new(collection_id)),
        tags: vec![],
    }
}

fn ids(targets: &[Raindrop]) -> Vec<i64> {
    targets.iter().map(|t| t.id.into_inner()).collect()
}

fn args(ids: Vec<i64>, from: Vec<CollectionScope>, exclude: Vec<CollectionScope>) -> UpdateManyArgs {
    UpdateManyArgs {
        ids,
        from_collection: from,
        exclude_collection: exclude,
        search: None,
        tags: vec![],
        to_collection: None,
    }
}

#[test]
fn create_payload_preserves_optional_fields() {
    let args = CreateArgs {
        link: "https://example.com".to_string(),
        title: Some("Example".to_string()),
        excerpt: Some("Summary".to_string()),
        tags: vec!["rust".to_string(), "cli".to_string()],
        collection: Some(CollectionScope::id(7).unwrap()),
    };

    let payload = create_payload(&args).unwrap();

    assert_eq!("https://example.com", payload.link);
    assert_eq!(Some("Example"), payload.title.as_deref());
    assert_eq!(Some("Summary"), payload.excerpt.as_deref());
    assert_eq!(Some(7), payload.collection.as_ref().map(|value| value.id));
    assert_eq!(vec!["rust", "cli"], payload.tags);
}

#[test]
fn create_payload_accepts_unsorted_destination() {
    let args = CreateArgs {
        link: "https://example.com".to_string(),
        title: None,
        excerpt: None,
        tags: vec![],
        collection: Some(CollectionScope::Unsorted),
    };

    let payload = create_payload(&args).unwrap();

    assert_eq!(Some(-1), payload.collection.as_ref().map(|value| value.id));
}

#[test]
fn payloads_refuse_all_and_trash_destinations() {
    let args = CreateArgs {
        link: "https://example.com".to_string(),
        title: None,
        excerpt: None,
        tags: vec![],
        collection: Some(CollectionScope::Trash),
    };
    assert_eq!(
        Some(InvalidDestinationCollectionScope(CollectionScope::Trash)),
        create_payload(&args).err()
    );
    let update = UpdateArgs {
        id: RaindropId::new(1),
        title: Some("t".to_string()),
        excerpt: None,
        tags: vec![],
        collection: Some(CollectionScope::All),
    };
    assert_eq!(
        Some(InvalidDestinationCollectionScope(CollectionScope::All)),
        update_payload(&update).err()
    );
}

#[test]
fn update_payload_sends_tags_only_when_given() {
    let mut update = UpdateArgs {
        id: RaindropId::new(1),
        title: None,
        excerpt: Some("e".to_string()),
        tags: vec![],
        collection: Some(CollectionScope::Id(9)),
    };
    let payload = update_payload(&update).unwrap();
    assert_eq!(None, payload.tags);
    assert_eq!(Some(9), payload.collection.map(|c| c.id));
    update.tags = vec!["a".to_string()];
    assert_eq!(Some(vec!["a".to_string()]), update_payload(&update).unwrap().tags);
}

#[test]
fn list_request_counts_pages_from_zero_for_the_api() {
    let args = ListArgs {
        collection: None,
        search: Some("rust".to_string()),
        sort: None,
        page: Some(CliPage(3)),
        per_page: Some(PerPage::new(10).unwrap()),
        nested: true,
    };
    let request = list_request(&args);
    assert_eq!(CollectionScope::All, request.scope);
    assert_eq!(3, request.current_page);
    assert_eq!(Some(2), request.params.page.page);
    assert_eq!(Some(true), request.params.nested);
    let plain = list_request(&ListArgs {
        collection: Some(CollectionScope::Trash),
        search: None,
        sort: None,
        page: None,
        per_page: None,
        nested: false,
    });
    assert_eq!(1, plain.current_page);
    assert_eq!(None, plain.params.page.page);
    assert_eq!(None, plain.params.nested);
    assert_eq!(CollectionScope::Trash, plain.scope);
}

#[test]
fn delete_many_payload_names_the_ids() {
    let payload = delete_many_payload(&DeleteManyArgs {
        collection_id: CollectionScope::All,
        ids: vec![3, 4],
    });
    assert_eq!(Some(vec![3, 4]), payload.ids);
}

#[test]
fn resolves_union_of_discovered_and_explicit_ids() {
    let args = args(vec![10], vec![CollectionScope::Id(42)], vec![]);
    let selection = resolve_selection(&args, vec![raindrop(10, 100)], vec![raindrop(12, 42)]);
    assert_eq!(vec![10, 12], ids(&selection.targets));
    assert_eq!(vec![CollectionScope::Id(42)], selection.from_collections);
    assert!(selection.excluded_collections.is_empty());
    assert_eq!(None, selection.search);
}

#[test]
fn resolves_each_id_once_in_id_order() {
    let args = args(vec![], vec![CollectionScope::Id(42), CollectionScope::Unsorted], vec![]);
    let discovered = vec![raindrop(12, 42), raindrop(10, 42), raindrop(10, -1), raindrop(15, -1)];
    let selection = resolve_selection(&args, vec![], discovered);
    assert_eq!(vec![10, 12, 15], ids(&selection.targets));
    assert_eq!(Some(-1), selection.targets[0].collection.as_ref().map(|c| c.id));
}

#[test]
fn resolves_exclusions_after_the_union() {
    let args = args(vec![10], vec![CollectionScope::Id(42)], vec![CollectionScope::Trash]);
    let selection = resolve_selection(
        &args,
        vec![raindrop(10, -99)],
        vec![raindrop(12, 42), raindrop(13, -99)],
    );
    assert_eq!(vec![12], ids(&selection.targets));
    assert_eq!(vec![CollectionScope::Trash], selection.excluded_collections);
}

#[test]
fn bulk_payload_lists_target_ids() {
    let mut a = args(vec![10], vec![], vec![]);
    a.tags = vec!["rust".to_string()];
    a.to_collection = Some(CollectionScope::Id(7));
    let selection = resolve_selection(&a, vec![raindrop(10, 1)], vec![raindrop(12, 1)]);
    let payload = update_many_payload(&selection, &a).unwrap().unwrap();
    assert_eq!(Some(vec![10, 12]), payload.ids);
    assert_eq!(Some(7), payload.collection.map(|c| c.id));
    assert_eq!(Some(vec!["rust".to_string()]), payload.tags);

    let empty = resolve_selection(&a, vec![raindrop(10, 1)], vec![]);
    let mut trash = a.clone();
    trash.to_collection = Some(CollectionScope::Trash);
    assert!(update_many_payload(&empty, &trash).is_err());
    let nothing = resolve_selection(&args(vec![], vec![], vec![]), vec![], vec![]);
    assert!(update_many_payload(&nothing, &trash).unwrap().is_none());
}

#[test]
fn bulk_update_report_lists_its_selectors() {
    let mut a = args(vec![10], vec![CollectionScope::Id(42)], vec![CollectionScope::Trash]);
    a.search = Some("rust".to_string());
    let selection = resolve_selection(&a, vec![raindrop(10, 1)], vec![raindrop(12, 42)]);
    assert_eq!(
        "matched: 2\nmodified: 2\nfrom collections: 42\nexcluded collections: Trash\nsearch: rust",
        update_many_report(&selection, 2)
    );
    assert_eq!(
        "No raindrops matched the requested selectors.",
        update_many_report(&selection, 0)
    );
}

#[test]
fn refreshes_once_and_only_after_unauthorized() {
    let unauthorized = Error::Api { status: 401, code: None, message: String::new(), raw: None };
    assert!(should_refresh(false, &unauthorized));
    assert!(!should_refresh(true, &unauthorized));
    assert!(!should_refresh(false, &Error::Deserialize("x".to_string())));
}

#[test]
fn page_walk_collects_paginated_results() {
    let mut walk = PageWalk::<Raindrop>::start(CollectionScope::All, None);
    let (scope, params) = walk.next_request().unwrap();
    assert_eq!(CollectionScope::All, scope);
    assert_eq!(Some(0), params.page.page);
    assert_eq!(Some(PerPage::new(50).unwrap()), params.page.per_page);
    walk.absorb((1..=50).map(|id| raindrop(id, 0)).collect());
    let (_, params) = walk.next_request().unwrap();
    assert_eq!(Some(1), params.page.page);
    walk.absorb(vec![raindrop(51, 0), raindrop(52, 0)]);
    assert!(walk.next_request().is_none());
    let items = walk.into_items();
    assert_eq!(52, items.len());
    assert_eq!(RaindropId::new(1), items[0].id);
    assert_eq!(RaindropId::new(52), items[51].id);
}

#[test]
fn page_walk_uses_requested_scope_and_search() {
    let mut walk = PageWalk::<Raindrop>::start(CollectionScope::Unsorted, Some("rust".to_string()));
    let (scope, params) = walk.next_request().unwrap();
    assert_eq!(CollectionScope::Unsorted, scope);
    assert_eq!(Some("rust".to_string()), params.search);
    walk.absorb(vec![]);
    assert!(walk.next_request().is_none());
    assert!(walk.into_items().is_empty());
}

fn env(values: [Option<&str>; 5]) -> EnvConfig {
    let [a, b, c, d, e] = values.map(|v| v.map(|s| s.to_string()));
    EnvConfig {
        client_id: a,
        client_secret: b,
        redirect_uri: c,
        access_token: d,
        refresh_token: e,
    }
}

#[test]
fn environment_gives_all_settings_or_none() {
    assert!(ConfigValues::from_env(env([None; 5])).unwrap().is_none());
    assert!(ConfigValues::from_env(env([Some("  "), None, Some(""), None, None])).unwrap().is_none());
    let all = ConfigValues::from_env(env([Some("id"), Some("s"), Some("r"), Some("a"), Some("t")]))
        .unwrap()
        .unwrap();
    assert_eq!("id", all.client_id);
    assert_eq!("t", all.refresh_token);
    let err = ConfigValues::from_env(env([Some("id"), Some("s"), Some(" "), Some("a"), None])).unwrap_err();
    assert_eq!(ConfigErrorKind::InvalidInput, err.kind);
    assert_eq!(
        "partial PUDDLE_* environment configuration detected. Missing or empty: PUDDLE_REDIRECT_URI, PUDDLE_REFRESH_TOKEN",
        err.message
    );
}

#[test]
fn environment_takes_precedence_over_settings_file() {
    let file_text = "client_id = \"fid\"\nclient_secret = \"fs\"\nredirect_uri = \"fr\"\naccess_token = \"fa\"\nrefresh_token = \"ft\"\n";
    let none = env([None, Some(" "), None, None, None]);
    assert!(none.gives_nothing());
    match Config::from_sources(none, Some(("/tmp/config.toml".to_string(), file_text.to_string()))).unwrap() {
        Config::File { path, values } => {
            assert_eq!("/tmp/config.toml", path);
            assert_eq!("fid", values.client_id);
            assert_eq!("ft", values.refresh_token);
        }
        other => panic!("unexpected: {other:?}"),
    }
    let all = env([Some("id"), Some("s"), Some("r"), Some("a"), Some("t")]);
    assert!(!all.gives_nothing());
    match Config::from_sources(all, None).unwrap() {
        Config::Env(values) => {
            assert_eq!("id", values.client_id);
            assert_eq!("a", values.access_token);
        }
        other => panic!("unexpected: {other:?}"),
    }
    let all_with_file = env([Some("id"), Some("s"), Some("r"), Some("a"), Some("t")]);
    let chosen = Config::from_sources(all_with_file, Some(("/tmp/config.toml".to_string(), file_text.to_string())));
    assert!(matches!(chosen, Ok(Config::Env(_))));
    let partial = env([Some("id"), None, None, None, None]);
    assert!(!partial.gives_nothing());
    let err = Config::from_sources(partial, Some(("/tmp/config.toml".to_string(), file_text.to_string()))).unwrap_err();
    assert_eq!(ConfigErrorKind::InvalidInput, err.kind);
    assert_eq!(
        "partial PUDDLE_* environment configuration detected. Missing or empty: PUDDLE_CLIENT_SECRET, PUDDLE_REDIRECT_URI, PUDDLE_ACCESS_TOKEN, PUDDLE_REFRESH_TOKEN",
        err.message
    );
    let bad = Config::from_sources(env([None; 5]), Some(("/tmp/c.toml".to_string(), "client_id = 1".to_string()))).unwrap_err();
    assert_eq!(ConfigErrorKind::InvalidData, bad.kind);
}

fn values() -> ConfigValues {
    ConfigValues {
        client_id: "id".to_string(),
        client_secret: "secret".to_string(),
        redirect_uri: "https://oauthdebugger.com/debug".to_string(),
        access_token: "access".to_string(),
        refresh_token: "refresh".to_string(),
    }
}

#[test]
fn settings_file_reads_back_what_was_written() {
    let text = values().to_toml_text().unwrap();
    assert!(text.ends_with('\n'));
    assert!(text.contains("client_id = \"id\""));
    assert_eq!(values(), ConfigValues::from_toml_text(&text, "/tmp/config.toml").unwrap());
}

#[test]
fn settings_file_errors_name_key_and_path() {
    let path = "/tmp/config.toml";
    let missing = "client_id = \"id\"\nredirect_uri = \"r\"\naccess_token = \"a\"\nrefresh_token = \"t\"\n";
    let err = ConfigValues::from_toml_text(missing, path).unwrap_err();
    assert_eq!(ConfigErrorKind::InvalidData, err.kind);
    assert_eq!("missing `client_secret` in global config at /tmp/config.toml", err.message);
    let number = "client_id = 5\nclient_secret = \"s\"\nredirect_uri = \"r\"\naccess_token = \"a\"\nrefresh_token = \"t\"\n";
    assert_eq!(
        "`client_id` in global config at /tmp/config.toml must be a string",
        ConfigValues::from_toml_text(number, path).unwrap_err().message
    );
    let blank = "client_id = \"id\"\nclient_secret = \"s\"\nredirect_uri = \"r\"\naccess_token = \"  \"\nrefresh_token = \"t\"\n";
    assert_eq!(
        "`access_token` in global config at /tmp/config.toml cannot be empty",
        ConfigValues::from_toml_text(blank, path).unwrap_err().message
    );
    let broken = ConfigValues::from_toml_text("client_id = ", path).unwrap_err();
    assert!(broken.message.starts_with("failed to parse config at /tmp/config.toml: "));
}

#[test]
fn refreshed_tokens_keep_the_client() {
    let v = values();
    let same_refresh = v.with_refreshed_tokens("new".to_string(), None);
    assert_eq!("new", same_refresh.access_token);
    assert_eq!("refresh", same_refresh.refresh_token);
    assert_eq!(v.client_id, same_refresh.client_id);
    let new_refresh = v.with_refreshed_tokens("new".to_string(), Some("r2".to_string()));
    assert_eq!("r2", new_refresh.refresh_token);

    let file = Config::File { path: "/tmp/c.toml".to_string(), values: v.clone() };
    let refreshed = file.with_refreshed_tokens("new".to_string(), None);
    assert_eq!("new", refreshed.values().access_token);
    let (path, text) = refreshed.persisted_text().unwrap().unwrap();
    assert_eq!("/tmp/c.toml", path);
    assert!(text.contains("access_token = \"new\""));
    assert!(Config::Env(v).persisted_text().unwrap().is_none());
    let loaded = Config::from_file("/tmp/c.toml".to_string(), &text).unwrap();
    assert_eq!(refreshed, loaded);
}

#[test]
fn authorize_url_form_encodes_utf8_bytes() {
    assert_eq!(
        "https://raindrop.io/oauth/authorize?response_type=code&client_id=a+b%26%C3%A9*-._%7E&redirect_uri=r%3D1",
        authorize_url("a b&\u{e9}*-._~", "r=1")
    );
}

#[test]
fn setup_builds_authorize_url_and_settings() {
    assert_eq!(
        "https://raindrop.io/oauth/authorize?response_type=code&client_id=abc&redirect_uri=https%3A%2F%2Foauthdebugger.com%2Fdebug",
        authorize_url("abc", &default_redirect_uri())
    );
    assert_eq!(Some("x y".to_string()), prompt_answer("  x y \n"));
    assert_eq!(None, prompt_answer(" \n"));
    assert!(setup_intro().contains("https://app.raindrop.io/settings/integrations"));
    let token = TokenResponse {
        access_token: "a".to_string(),
        refresh_token: None,
        expires_in: None,
        token_type: None,
    };
    assert_eq!(
        Err("missing refresh token in OAuth response".to_string()),
        setup_values("id".to_string(), "s".to_string(), "r".to_string(), token.clone())
    );
    let mut with_refresh = token;
    with_refresh.refresh_token = Some("t".to_string());
    let v = setup_values("id".to_string(), "s".to_string(), "r".to_string(), with_refresh).unwrap();
    assert_eq!("t", v.refresh_token);
    assert_eq!("a", v.access_token);
}

#[test]
fn uploads_are_named_and_typed_by_path() {
    assert_eq!(Ok("report.pdf".to_string()), upload_file_name("fixtures/report.pdf"));
    assert_eq!(
        Err("path has no file name: fixtures/..".to_string()),
        upload_file_name("fixtures/..")
    );
    assert_eq!("image/png", upload_media_type("cover.png"));
    assert_eq!("application/octet-stream", upload_media_type("data.unknownext"));
}
