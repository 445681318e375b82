use puddle::models::common::{CollectionScope, InvalidCollectionScopeId};
use puddle::models::raindrops::RaindropId;
use puddle::pagination::{InvalidPerPage, PerPage};

#[test]
fn collection_scope_id_rejects_reserved_ids() {
    assert_eq!(Err(InvalidCollectionScopeId(0)), CollectionScope::id(0));
    assert_eq!(Err(InvalidCollectionScopeId(-1)), CollectionScope::id(-1));
    assert_eq!(Err(InvalidCollectionScopeId(-99)), CollectionScope::id(-99));
}

#[test]
fn collection_scope_maps_reserved_raw_ids_to_system_variants() {
    assert_eq!(CollectionScope::All, CollectionScope::from(0));
    assert_eq!(CollectionScope::Unsorted, CollectionScope::from(-1));
    assert_eq!(CollectionScope::Trash, CollectionScope::from(-99));
    assert_eq!(CollectionScope::Id(42), CollectionScope::from(42));
}

#[test]
fn collection_scope_converts_to_wire_ids() {
    assert_eq!(0, i64::from(CollectionScope::All));
    assert_eq!(-1, i64::from(CollectionScope::Unsorted));
    assert_eq!(-99, i64::from(CollectionScope::Trash));
    assert_eq!(42, i64::from(CollectionScope::Id(42)));
}

#[test]
fn collection_scope_displays_labels_for_system_variants() {
    assert_eq!("All", CollectionScope::All.to_string());
    assert_eq!("Unsorted", CollectionScope::Unsorted.to_string());
    assert_eq!("Trash", CollectionScope::Trash.to_string());
    assert_eq!("42", CollectionScope::Id(42).to_string());
}

#[test]
fn collection_scope_parses_labels_and_numeric_ids() {
    assert_eq!(Ok(CollectionScope::All), "All".parse());
    assert_eq!(Ok(CollectionScope::Unsorted), "Unsorted".parse());
    assert_eq!(Ok(CollectionScope::Trash), "Trash".parse());
    assert_eq!(Ok(CollectionScope::Id(42)), "42".parse());
}

#[test]
fn collection_scope_defaults_to_all() {
    assert_eq!(CollectionScope::All, CollectionScope::default());
}

#[test]
fn per_page_accepts_values_within_documented_range() {
    assert_eq!(Ok(PerPage::new_unchecked(1)), PerPage::new(1));
    assert_eq!(Ok(PerPage::new_unchecked(50)), PerPage::new(50));
}

#[test]
fn per_page_rejects_zero_and_values_above_documented_max() {
    assert_eq!(Err(InvalidPerPage(0)), PerPage::new(0));
    assert_eq!(Err(InvalidPerPage(51)), PerPage::new(51));
}

#[test]
fn destination_collection_rejects_all() {
    let error = CollectionScope::All.into_destination_id().unwrap_err();

    assert_eq!(
        "`All` is not a valid destination collection; use a specific collection or `Unsorted`",
        error.to_string()
    );
}

#[test]
fn destination_collection_rejects_trash() {
    let error = CollectionScope::Trash.into_destination_id().unwrap_err();

    assert_eq!(
        "`Trash` is not a valid destination collection",
        error.to_string()
    );
}

#[test]
fn destination_collection_accepts_unsorted_and_ids() {
    assert_eq!(Ok(-1), CollectionScope::Unsorted.into_destination_id());
    assert_eq!(Ok(7), CollectionScope::Id(7).into_destination_id());
}

#[test]
fn collection_scope_parses_lowercase_labels_and_reserved_numbers() {
    assert_eq!(Ok(CollectionScope::All), CollectionScope::parse("all"));
    assert_eq!(Ok(CollectionScope::Trash), CollectionScope::parse("-99"));
    let err = CollectionScope::parse("inbox").unwrap_err();
    assert_eq!("invalid collection id: inbox", err.to_string());
}

#[test]
fn collection_scope_label_reads_back() {
    for scope in [
        CollectionScope::All,
        CollectionScope::Unsorted,
        CollectionScope::Trash,
        CollectionScope::Id(42),
        CollectionScope::Id(-7),
    ] {
        assert_eq!(Ok(scope), CollectionScope::parse(&scope.to_string()));
        assert_eq!(scope, CollectionScope::from(i64::from(scope)));
    }
}

#[test]
fn reserved_collection_id_error_text() {
    assert_eq!("reserved collection id: -99", InvalidCollectionScopeId(-99).to_string());
}

#[test]
fn per_page_text_reads_back() {
    for n in [1u32, 25, 50] {
        let p = PerPage::new(n).unwrap();
        assert_eq!(Ok(p), PerPage::parse(&p.to_string()));
    }
    assert_eq!(
        Err("invalid value 'x' for '--per-page <PER_PAGE>'".to_string()),
        PerPage::parse("x")
    );
    assert_eq!(
        Err("per-page must be between 1 and 50".to_string()),
        PerPage::parse("51")
    );
}

#[test]
fn raindrop_id_text_reads_back() {
    for id in [0i64, 42, -5, i64::MAX, i64::MIN] {
        let r = RaindropId::new(id);
        assert_eq!(Ok(r), RaindropId::parse(&r.to_string()));
        assert_eq!(id, r.into_inner());
    }
    assert_eq!(
        Err("invalid raindrop id: 4x".to_string()),
        RaindropId::parse("4x")
    );
}
