use photo_handler::library::LibrarySession;
use photo_handler::search::{
    default_media_types, delete_managed_media_with_trash, escape_like, imported_items_query,
    list_library_tags, managed_media_path, normalize_media_types, normalize_tag, normalize_tags,
    rotate_image, rotation_temporary_name, safe_preview_url, search_filters, supports_rotation,
    update_media_tags, validate_date, validate_date_range, validate_managed_file,
    versioned_preview_url, DeleteManagedMediaRequest, ListLibraryTagsRequest,
    ManagedFileProbe, ManagedMediaActionRequest, MediaType, ResolvedImportedItem,
    RotationDirection, SearchError, SearchLibraryRequest, UpdateMediaTagsRequest,
    IMPORTED_ITEMS_ORDER, IMPORTED_ITEMS_SELECT, LIBRARY_TAGS_SQL, TAG_CONDITION,
};

fn unlocked() -> LibrarySession {
    let mut session = LibrarySession::new();
    session.establish("/library".to_string(), vec![7u8; 32]);
    session
}

fn managed_item(id: i64) -> ResolvedImportedItem {
    ResolvedImportedItem {
        candidate_id: id,
        destination: "/library/2026/2026-09-09/managed.png".to_string(),
        media_type: "image".to_string(),
        tags: vec![],
    }
}

#[test]
fn date_validation_rejects_bad_ranges() {
    assert!(validate_date(Some("2026-02-30")).is_err());
}

#[test]
fn date_range_validation_rejects_inverted_ranges() {
    assert!(validate_date_range(Some("2026-08-21"), Some("2026-08-20")).is_err());
    assert!(validate_date_range(Some("2026-08-20"), Some("2026-08-21")).is_ok());
    assert!(validate_date_range(None, Some("2026-08-21")).is_ok());
}

#[test]
fn date_range_with_a_start_and_no_end_is_inverted() {
    let error = validate_date_range(Some("2026-08-21"), None).unwrap_err();
    assert_eq!(error.code, "invalid_date_range");
    assert_eq!(error.message, "The start date must be on or before the end date.");
    assert!(validate_date_range(None, None).is_ok());
    assert!(validate_date_range(Some("2026-08-21"), Some("2026-08-21")).is_ok());
}

#[test]
fn filter_dates_are_trimmed_and_blank_means_no_filter() {
    assert_eq!(validate_date(Some(" 2024-02-29 ")).unwrap(), Some("2024-02-29".to_string()));
    assert_eq!(validate_date(Some("   ")).unwrap(), None);
    assert_eq!(validate_date(None).unwrap(), None);
    let error = validate_date(Some("29/02/2024")).unwrap_err();
    assert_eq!(error.code, "invalid_date");
    assert_eq!(error.message, "Use dates in YYYY-MM-DD format.");
}

#[test]
fn media_type_selection_supports_each_type_both_duplicates_and_empty() {
    assert_eq!(normalize_media_types(vec![MediaType::Image]).len(), 1);
    assert!(normalize_media_types(vec![MediaType::Image, MediaType::Image]) == vec![MediaType::Image]);
    assert!(
        normalize_media_types(vec![MediaType::Video, MediaType::Image, MediaType::Video])
            == vec![MediaType::Video, MediaType::Image]
    );
    assert!(normalize_media_types(vec![]).is_empty());
    assert!(default_media_types() == vec![MediaType::Image, MediaType::Video]);
    assert_eq!(MediaType::Image.as_str(), "image");
    assert_eq!(MediaType::Video.as_str(), "video");
}

#[test]
fn search_tags_keep_first_occurrences_in_order() {
    let tags = vec![" Summer ".to_string(), "summer".to_string(), "Family  Album".to_string(), " ".to_string()];
    assert_eq!(normalize_tags(&tags), vec!["summer".to_string(), "family album".to_string()]);
    assert_eq!(normalize_tag("  DDLE  "), "ddle");
}

#[test]
fn like_patterns_escape_wildcards_and_backslashes() {
    assert_eq!(escape_like("percent%tag"), "percent\\%tag");
    assert_eq!(escape_like("under_tag"), "under\\_tag");
    assert_eq!(escape_like("back\\slash"), "back\\\\slash");
    assert_eq!(escape_like("plain"), "plain");
}

#[test]
fn library_tag_list_sends_the_normalized_query_and_a_literal_pattern() {
    let session = unlocked();
    let result = list_library_tags(
        &session,
        ListLibraryTagsRequest { query: Some("  Per%CENT  ".to_string()) },
        |sql, query, pattern| {
            assert_eq!(sql, LIBRARY_TAGS_SQL);
            assert_eq!(query, "per%cent");
            assert_eq!(pattern, "%per\\%cent%");
            Ok(vec!["percent%tag".to_string()])
        },
    )
    .unwrap();
    assert_eq!(result.tags, vec!["percent%tag".to_string()]);
    let blank = list_library_tags(&session, ListLibraryTagsRequest { query: None }, |_, query, pattern| {
        assert_eq!(query, "");
        assert_eq!(pattern, "%%");
        Ok(vec![])
    })
    .unwrap();
    assert!(blank.tags.is_empty());
    let locked = list_library_tags(&LibrarySession::new(), ListLibraryTagsRequest { query: None }, |_, _, _| {
        panic!("a locked library must not be queried")
    });
    assert_eq!(locked.unwrap_err().code, "library_locked");
}

#[test]
fn search_filters_check_ranges_and_normalize_lists() {
    let request = SearchLibraryRequest {
        imported_start_date: Some("2026-08-20".to_string()),
        imported_end_date: Some(" 2026-08-21 ".to_string()),
        captured_start_date: None,
        captured_end_date: Some("".to_string()),
        media_types: vec![MediaType::Image, MediaType::Image],
        tags: vec!["Summer".to_string(), "summer".to_string()],
    };
    let filters = search_filters(request).unwrap();
    assert_eq!(filters.imported_start, Some("2026-08-20".to_string()));
    assert_eq!(filters.imported_end, Some("2026-08-21".to_string()));
    assert_eq!(filters.captured_start, None);
    assert_eq!(filters.captured_end, None);
    assert!(filters.media_types == vec![MediaType::Image]);
    assert_eq!(filters.tags, vec!["summer".to_string()]);

    let inverted = SearchLibraryRequest {
        imported_start_date: None,
        imported_end_date: None,
        captured_start_date: Some("2020-07-15".to_string()),
        captured_end_date: Some("2020-07-14".to_string()),
        media_types: default_media_types(),
        tags: vec![],
    };
    assert_eq!(search_filters(inverted).unwrap_err().code, "invalid_date_range");

    let invalid = SearchLibraryRequest {
        imported_start_date: Some("2026-13-01".to_string()),
        imported_end_date: None,
        captured_start_date: None,
        captured_end_date: None,
        media_types: default_media_types(),
        tags: vec![],
    };
    assert_eq!(search_filters(invalid).unwrap_err().code, "invalid_date");
}

#[test]
fn imported_items_query_numbers_media_types_then_tags() {
    let filters = search_filters(SearchLibraryRequest {
        imported_start_date: None,
        imported_end_date: Some("2026-08-20".to_string()),
        captured_start_date: None,
        captured_end_date: None,
        media_types: vec![MediaType::Image, MediaType::Video],
        tags: vec!["summer".to_string()],
    })
    .unwrap();
    let (sql, values) = imported_items_query(&filters).unwrap();
    let expected = format!(
        "{}?5, ?6){}7){}",
        IMPORTED_ITEMS_SELECT, TAG_CONDITION, IMPORTED_ITEMS_ORDER
    );
    assert_eq!(sql, expected);
    assert_eq!(values.len(), 7);
    assert_eq!(values[0], None);
    assert_eq!(values[1], Some("2026-08-20".to_string()));
    assert_eq!(values[4], Some("image".to_string()));
    assert_eq!(values[5], Some("video".to_string()));
    assert_eq!(values[6], Some("summer".to_string()));

    let none = search_filters(SearchLibraryRequest {
        imported_start_date: None,
        imported_end_date: None,
        captured_start_date: None,
        captured_end_date: None,
        media_types: vec![],
        tags: vec![],
    })
    .unwrap();
    assert!(imported_items_query(&none).is_none());
}

fn probe(root: Option<&str>, plain: bool, opens: bool, dest: Option<&str>) -> ManagedFileProbe {
    ManagedFileProbe {
        canonical_root: root.map(|r| r.to_string()),
        plain_file: plain,
        opens,
        canonical_destination: dest.map(|d| d.to_string()),
    }
}

#[test]
fn managed_file_validation_rejects_missing_and_outside_files() {
    let inside = probe(Some("/library"), true, true, Some("/library/2026/2026-08-28/managed.jpg"));
    assert_eq!(validate_managed_file(&inside).unwrap(), "/library/2026/2026-08-28/managed.jpg");
    let missing = probe(Some("/library"), false, false, None);
    assert_eq!(validate_managed_file(&missing).unwrap_err().code, "media_unavailable");
    let outside = probe(Some("/library"), true, true, Some("/elsewhere/outside.jpg"));
    let error = validate_managed_file(&outside).unwrap_err();
    assert_eq!(error.code, "media_unavailable");
    assert_eq!(error.message, "The selected file is outside the managed media library.");
    let state = probe(Some("/library"), true, true, Some("/library/.photo-handler/catalogue.db"));
    assert_eq!(validate_managed_file(&state).unwrap_err().code, "media_unavailable");
    let no_root = probe(None, true, true, Some("/library/a.jpg"));
    assert_eq!(
        validate_managed_file(&no_root).unwrap_err().message,
        "The protected library is unavailable. Unlock it again and retry."
    );
}

#[test]
fn managed_file_validation_rejects_symlinks() {
    let link = probe(Some("/library"), false, true, Some("/outside/outside.jpg"));
    assert_eq!(validate_managed_file(&link).unwrap_err().code, "media_unavailable");
}

#[test]
fn previews_are_versioned_and_only_for_allowed_managed_files() {
    let inside = probe(Some("/library"), true, true, Some("/library/a b.jpg"));
    let (url, state) = safe_preview_url(&inside, |_| true);
    assert_eq!(url, Some("asset://localhost/%2Flibrary%2Fa%20b%2Ejpg".to_string()));
    assert_eq!(state, "available");
    let (url, state) = safe_preview_url(&inside, |_| false);
    assert_eq!(url, None);
    assert_eq!(state, "unavailable");
    assert_eq!(
        versioned_preview_url("asset://localhost/x".to_string(), 1700000000123456789),
        "asset://localhost/x?revision=1700000000123456789"
    );
}

#[test]
fn tag_updates_normalize_deduplicate_replace_and_validate_managed_items() {
    let session = unlocked();
    let result = update_media_tags(
        &session,
        UpdateMediaTagsRequest {
            candidate_id: 1,
            tags: vec![" Summer ".to_string(), "summer".to_string(), "Family Album".to_string()],
        },
        |id| Ok(managed_item(id)),
        |id, tags| {
            assert_eq!(id, 1);
            assert_eq!(tags, &vec!["summer".to_string(), "family album".to_string()]);
            Ok(())
        },
    )
    .unwrap();
    assert_eq!(result.tags, vec!["summer".to_string(), "family album".to_string()]);
    assert_eq!(
        managed_media_path(&session, ManagedMediaActionRequest { candidate_id: 1 }, |id| Ok(managed_item(id)))
            .unwrap(),
        "/library/2026/2026-09-09/managed.png"
    );
    let refused = update_media_tags(
        &session,
        UpdateMediaTagsRequest { candidate_id: 2, tags: vec!["forbidden".to_string()] },
        |_| {
            Err(SearchError {
                code: "media_unavailable",
                message: "This managed media item is no longer available in the active library.".to_string(),
            })
        },
        |_, _| panic!("a refused item must not be retagged"),
    );
    assert_eq!(refused.unwrap_err().code, "media_unavailable");
}

fn png_bytes(width: u32, height: u32) -> Vec<u8> {
    let picture = image::RgbaImage::from_fn(width, height, |x, y| image::Rgba([x as u8, y as u8, 0, 255]));
    let mut out = std::io::Cursor::new(Vec::new());
    image::DynamicImage::ImageRgba8(picture).write_to(&mut out, image::ImageFormat::Png).unwrap();
    out.into_inner()
}

#[test]
fn confirmed_rotation_and_deletion_preserve_managed_media_until_safe() {
    let session = unlocked();
    let unconfirmed = delete_managed_media_with_trash(
        &session,
        DeleteManagedMediaRequest { candidate_id: 1, confirmed: false },
        |id| Ok(managed_item(id)),
        |_| panic!("nothing may be moved without confirmation"),
        |_| panic!("nothing may be cleared without confirmation"),
    );
    assert_eq!(unconfirmed.unwrap_err().code, "confirmation_required");

    let original = png_bytes(2, 3);
    let (rotated, _) = rotate_image(Some(original.clone()), &Some("png".to_string()), RotationDirection::Right).unwrap();
    assert_eq!(image::load_from_memory(&rotated).unwrap().width(), 3);
    assert_eq!(image::load_from_memory(&rotated).unwrap().height(), 2);
    assert_eq!(image::load_from_memory(&original).unwrap().width(), 2);

    let failed = delete_managed_media_with_trash(
        &session,
        DeleteManagedMediaRequest { candidate_id: 1, confirmed: true },
        |id| Ok(managed_item(id)),
        |_| Err("no Trash".to_string()),
        |_| panic!("a copy still in place must stay in the catalogue"),
    );
    assert_eq!(failed.unwrap_err().code, "trash_failed");

    let mut cleared = Vec::new();
    let deleted = delete_managed_media_with_trash(
        &session,
        DeleteManagedMediaRequest { candidate_id: 1, confirmed: true },
        |id| Ok(managed_item(id)),
        |_| Ok(()),
        |id| {
            cleared.push(id);
            Ok(())
        },
    )
    .unwrap();
    assert_eq!(deleted.candidate_id, 1);
    assert_eq!(cleared, vec![1]);
}

#[test]
fn rotation_refuses_unsupported_and_undecodable_files() {
    let text = b"not an image".to_vec();
    let error = rotate_image(Some(text.clone()), &Some("txt".to_string()), RotationDirection::Left).unwrap_err();
    assert_eq!(error.code, "rotation_unsupported");
    let unreadable = rotate_image(None, &Some("png".to_string()), RotationDirection::Left).unwrap_err();
    assert_eq!(unreadable.message, "This managed image cannot be decoded for rotation.");
    assert!(supports_rotation(&Some(png_bytes(1, 1)), &Some("png".to_string())));
    assert!(!supports_rotation(&Some(text), &Some("txt".to_string())));
    assert!(!supports_rotation(&None, &Some("png".to_string())));
    assert_eq!(
        rotation_temporary_name(&Some("png".to_string()), 42, 7),
        ".photo-handler-rotate-42-7.png"
    );
    assert_eq!(rotation_temporary_name(&None, 1, 2), ".photo-handler-rotate-1-2.tmp");
}

#[test]
fn a_locked_library_refuses_search_commands() {
    let locked = LibrarySession::new();
    let path = managed_media_path(&locked, ManagedMediaActionRequest { candidate_id: 1 }, |_| {
        panic!("a locked library must not be read")
    });
    assert_eq!(path.unwrap_err().code, "library_locked");
}
