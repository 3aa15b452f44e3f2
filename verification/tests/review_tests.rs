use photo_handler::library::{lock_library, LibrarySession};
use photo_handler::review::{
    new_session_state, resumed_session_state,
    EXACT_HISTORY_LIMIT, EXACT_HISTORY_SQL, SIMILAR_HISTORY_SQL,
    asset_url, canonical_directory, completion_of, check_source_separate, current_review_state, discover,
    effective_date, fingerprint_file, fingerprint_file_with_after_read, import_review_item,
    media_type, metadata_date, new_review_state, next_revision, next_review_item, normalize_tags,
    perceptual_hash, publish_copy, readable_file, resumed_review_state, review_state,
    route_session, skip_review_item, stable_metadata, unique_destination, validate_date,
    visit_action, Candidate, CopyFailure, DecideRequest, FileStat, ImportRequest, LatestRevision,
    PendingCandidate, PictureReadFailure, ReviewError, SessionRoute, VisitAction,
};
use photo_handler::import_source::SourceProbe;
use photo_handler::library::{DirEntryInfo, EntryKind};
use photo_handler::similarity::{hamming_distance, SIMILARITY_THRESHOLD};
use std::cell::RefCell;

fn unlocked(path: &str) -> LibrarySession {
    let mut session = LibrarySession::new();
    session.establish(path.to_string(), vec![3u8; 32]);
    session
}

fn candidate(path: &str) -> Candidate {
    Candidate { relative_path: path.to_string(), file_size: 5, modified_at: 10, media_type: "image" }
}

#[test]
fn normalizes_tags_and_validates_dates() {
    assert_eq!(
        normalize_tags(&vec![
            " Beach ".to_string(),
            "beach".to_string(),
            "  Family  Trip ".to_string(),
            " ".to_string()
        ]),
        vec!["beach".to_string(), "family trip".to_string()]
    );
    assert_eq!(validate_date("2024-02-29").unwrap(), "2024-02-29");
    assert_eq!(validate_date("2024-02-30").unwrap_err().code, "invalid_import_date");
}

#[test]
fn asset_urls_encode_the_entire_absolute_path() {
    let url = asset_url("/Users/example/Pictures/family photo.jpg").unwrap();
    assert_eq!(url, "asset://localhost/%2FUsers%2Fexample%2FPictures%2Ffamily%20photo%2Ejpg");
}

#[test]
fn asset_urls_encode_every_utf8_byte() {
    assert_eq!(asset_url("é").unwrap(), "asset://localhost/%C3%A9");
    assert_eq!(asset_url("aZ09").unwrap(), "asset://localhost/aZ09");
}

#[test]
fn review_commands_require_an_unlocked_library_session() {
    let locked = LibrarySession::new();
    let state = current_review_state(&locked, || panic!("a locked library must not be read"));
    assert_eq!(state.unwrap_err().code, "library_locked");
}

#[test]
fn discovery_is_sorted_filters_media_and_never_mutates_source() {
    let entry = |name: &str, file: bool, dir: bool, link: bool| DirEntryInfo {
        name: name.to_string(),
        is_file: file,
        is_dir: dir,
        is_symlink: link,
    };
    assert!(matches!(visit_action(&entry("a.JPG", true, false, false), "nested/a.JPG"), VisitAction::Collect("image")));
    assert!(matches!(visit_action(&entry("z.txt", true, false, false), "z.txt"), VisitAction::Skip));
    assert!(matches!(visit_action(&entry("nested", false, true, false), "nested"), VisitAction::Descend));
    assert!(matches!(visit_action(&entry(".photo-handler", false, true, false), ".photo-handler"), VisitAction::Skip));
    assert!(matches!(visit_action(&entry("link.jpg", false, false, true), "link.jpg"), VisitAction::Skip));
    let sorted = discover(vec![candidate("z.jpg"), candidate("nested/a.JPG"), candidate("b.mov")]);
    let paths: Vec<&str> = sorted.iter().map(|c| c.relative_path.as_str()).collect();
    assert_eq!(paths, vec!["b.mov", "nested/a.JPG", "z.jpg"]);
}

#[test]
fn media_types_follow_the_extension_in_any_case() {
    assert_eq!(media_type("a.HEIC"), Some("image"));
    assert_eq!(media_type("clip.WebM"), Some("video"));
    assert_eq!(media_type("notes.txt"), None);
    assert_eq!(media_type("README"), None);
}

#[test]
fn copy_uses_date_folder_unique_name_and_preserves_source() {
    let taken: RefCell<Vec<String>> = RefCell::new(vec![]);
    let publish = |taken: &RefCell<Vec<String>>| {
        let copied = RefCell::new(None);
        let result = publish_copy(
            "/source/family.jpg",
            "/library",
            "2026-08-28",
            Ok(()),
            |dir| {
                assert_eq!(dir, "/library/2026/2026-08-28");
                Ok(())
            },
            |name| taken.borrow().contains(name),
            || "abcdef".to_string(),
            |temporary, destination| {
                assert_eq!(temporary, "/library/2026/2026-08-28/.family.jpg.photo-handler-pending-abcdef");
                *copied.borrow_mut() = Some(destination.clone());
                Ok(())
            },
            |_| panic!("a successful copy leaves nothing to discard"),
        );
        let destination = result.unwrap();
        assert_eq!(copied.borrow().clone(), Some(destination.clone()));
        taken.borrow_mut().push(destination.clone());
        destination
    };
    let first = publish(&taken);
    let second = publish(&taken);
    assert_eq!(first, "/library/2026/2026-08-28/family.jpg");
    assert_eq!(second, "/library/2026/2026-08-28/family-02.jpg");
    assert_eq!(unique_destination("/d", "clip.tar.gz", 10), "/d/clip.tar-11.gz");
    assert_eq!(unique_destination("/d", "README", 1), "/d/README-02");
}

#[test]
fn unavailable_source_does_not_publish_or_change_it() {
    let result = publish_copy(
        "/source/gone.jpg",
        "/library",
        "2026-08-28",
        readable_file(false, false),
        |_| panic!("no folder is created for an unavailable source"),
        |_| panic!("no name is reserved"),
        || panic!("no temporary file is named"),
        |_, _| panic!("nothing is copied"),
        |_| panic!("nothing is discarded"),
    );
    assert_eq!(result.unwrap_err().code, "candidate_unavailable");
}

#[test]
fn failed_copies_are_discarded_and_reported() {
    let discarded = RefCell::new(vec![]);
    let result = publish_copy(
        "/source/a.png",
        "/library",
        "2026-08-28",
        Ok(()),
        |_| Ok(()),
        |_| false,
        || "x".to_string(),
        |_, _| Err(CopyFailure::LinkFailed),
        |temporary| discarded.borrow_mut().push(temporary.clone()),
    );
    let error = result.unwrap_err();
    assert_eq!(error.code, "destination_collision");
    assert_eq!(discarded.borrow().len(), 1);
    let crowded = publish_copy(
        "/source/a.png",
        "/library",
        "2026-08-28",
        Ok(()),
        |_| Ok(()),
        |_| true,
        || panic!("no name is free"),
        |_, _| panic!("nothing is copied"),
        |_| panic!("nothing is discarded"),
    );
    assert_eq!(
        crowded.unwrap_err().message,
        "Could not reserve a unique destination name. No import was published."
    );
    let no_folder = publish_copy(
        "/source/a.png",
        "/library",
        "2026-08-28",
        Ok(()),
        |_| Err("permission denied".to_string()),
        |_| false,
        || panic!("unused"),
        |_, _| panic!("unused"),
        |_| panic!("unused"),
    );
    assert_eq!(
        no_folder.unwrap_err().message,
        "Could not create the managed date folder: permission denied"
    );
}

fn stat(len: u64, modified: u64) -> Option<FileStat> {
    Some(FileStat { is_file: true, is_symlink: false, len, modified_secs: Some(modified) })
}

#[test]
fn fingerprints_equal_bytes_but_rejects_equal_size_different_bytes() {
    let look = || stable_metadata(stat(10, 5));
    let first = fingerprint_file(10, 5, look, || Some(b"same bytes".to_vec())).unwrap();
    let second = fingerprint_file(10, 5, look, || Some(b"same bytes".to_vec())).unwrap();
    let different = fingerprint_file(10, 5, look, || Some(b"same bytez".to_vec())).unwrap();
    assert_eq!(first, second);
    assert_ne!(first, different);
    assert_eq!(first.len(), 32);
}

#[test]
fn changed_during_hash_returns_recoverable_feedback_without_a_digest() {
    let size = RefCell::new(18u64);
    let error = fingerprint_file_with_after_read(
        18,
        5,
        || stable_metadata(stat(*size.borrow(), 5)),
        || Some(b"first source bytes".to_vec()),
        || *size.borrow_mut() = 41,
    )
    .unwrap_err();
    assert!(error.contains("changed while it was being checked"));
    let before = fingerprint_file(17, 5, || stable_metadata(stat(18, 5)), || panic!("not read"));
    assert!(before.unwrap_err().contains("changed since discovery"));
    let unreadable = fingerprint_file(18, 5, || stable_metadata(stat(18, 5)), || None);
    assert_eq!(unreadable.unwrap_err(), "This source item cannot be read. It was not skipped or imported.");
    let link = stable_metadata(Some(FileStat { is_file: true, is_symlink: true, len: 1, modified_secs: None }));
    assert_eq!(link.unwrap_err(), "This source item is unavailable. It was not skipped or imported.");
    assert_eq!(stable_metadata(Some(FileStat { is_file: true, is_symlink: false, len: 3, modified_secs: None })).unwrap(), (3, 0));
}

fn png(width: u32, height: u32, pixel: impl Fn(u32, u32) -> [u8; 3]) -> Vec<u8> {
    let picture = image::RgbImage::from_fn(width, height, |x, y| image::Rgb(pixel(x, y)));
    let mut out = std::io::Cursor::new(Vec::new());
    image::DynamicImage::ImageRgb8(picture).write_to(&mut out, image::ImageFormat::Png).unwrap();
    out.into_inner()
}

#[test]
fn dhash_calibration_accepts_a_small_brightness_change_but_rejects_an_unrelated_image() {
    let base = png(48, 48, |x, y| [(x * 5) as u8, (y * 5) as u8, ((x + y) * 2) as u8]);
    let brighter = png(48, 48, |x, y| [((x * 5) + 10) as u8, ((y * 5) + 10) as u8, (((x + y) * 2) + 10) as u8]);
    let unrelated = png(48, 48, |x, y| {
        [if (x / 6 + y / 6) % 2 == 0 { 0 } else { 255 }, 255 - (x * 5) as u8, 0]
    });
    let base_hash = perceptual_hash("base.png", || Ok(base)).unwrap();
    assert!((base_hash ^ perceptual_hash("brighter.png", || Ok(brighter)).unwrap()).count_ones() <= SIMILARITY_THRESHOLD);
    assert!((base_hash ^ perceptual_hash("unrelated.png", || Ok(unrelated)).unwrap()).count_ones() > SIMILARITY_THRESHOLD);
}

#[test]
fn visual_comparison_reports_unsupported_and_decode_failure() {
    assert_eq!(perceptual_hash("clip.mp4", || panic!("an unsupported type is not read")).unwrap_err().0, "unsupported");
    assert_eq!(perceptual_hash("broken.png", || Ok(b"not an image".to_vec())).unwrap_err().0, "decode_failed");
    assert_eq!(perceptual_hash("missing.png", || Err(PictureReadFailure::Unopened)).unwrap_err().0, "decode_failed");
    let unread = perceptual_hash("locked.png", || Err(PictureReadFailure::Unread)).unwrap_err();
    assert_eq!(unread.0, "decode_failed");
    assert_eq!(unread.1, "Visual comparison is unavailable because this image format could not be read.");
}

#[test]
fn metadata_dates_come_from_the_first_exif_stamp() {
    assert_eq!(metadata_date(b"Exif 2020:07:14 10:20:30 and 2021:01:01 00:00:00"), Some("2020-07-14".to_string()));
    assert_eq!(metadata_date(b"2020:07:14 10:20:3"), None);
    assert_eq!(metadata_date(b"2020-07-14 10:20:30"), None);
    let chosen = effective_date(metadata_date(b"x2019:12:31 23:59:59"), Some("2024-01-01".to_string()));
    assert_eq!(chosen, Some(("2019-12-31".to_string(), "metadata".to_string())));
    let fallback = effective_date(None, Some("2024-01-01".to_string()));
    assert_eq!(fallback, Some(("2024-01-01".to_string(), "creation".to_string())));
    assert_eq!(effective_date(None, None), None);
}

#[test]
fn resume_appends_a_revision_when_a_decided_path_changes() {
    let c = candidate("same.jpg");
    assert_eq!(next_revision(&c, None, || panic!("not fingerprinted")), Some(1));
    let changed = LatestRevision { file_size: 4, modified_at: 10, media_type: "image".to_string(), revision: 1, fingerprint: None };
    assert_eq!(next_revision(&c, Some(changed), || panic!("not fingerprinted")), Some(2));
    let same = LatestRevision { file_size: 5, modified_at: 10, media_type: "image".to_string(), revision: 1, fingerprint: None };
    assert_eq!(next_revision(&c, Some(same), || panic!("not fingerprinted")), None);
}

#[test]
fn resume_appends_a_revision_when_same_metadata_has_different_bytes() {
    let c = candidate("same.jpg");
    let stored = LatestRevision { file_size: 5, modified_at: 10, media_type: "image".to_string(), revision: 1, fingerprint: Some(vec![1, 2, 3]) };
    assert_eq!(next_revision(&c, Some(stored), || Ok(vec![9, 9, 9])), Some(2));
    let unchanged = LatestRevision { file_size: 5, modified_at: 10, media_type: "image".to_string(), revision: 3, fingerprint: Some(vec![1, 2, 3]) };
    assert_eq!(next_revision(&c, Some(unchanged), || Ok(vec![1, 2, 3])), None);
    let unreadable = LatestRevision { file_size: 5, modified_at: 10, media_type: "image".to_string(), revision: 3, fingerprint: Some(vec![1]) };
    assert_eq!(next_revision(&c, Some(unreadable), || Err("gone".to_string())), Some(4));
}

#[test]
fn review_states_describe_new_resumed_and_latest_sessions() {
    let empty = new_review_state("/src".to_string(), 0);
    assert_eq!(empty.state, "empty");
    assert_eq!(new_review_state("/src".to_string(), 2).state, "started");
    let added = resumed_review_state("/src".to_string(), 1, 1, "complete");
    assert_eq!(added.state, "resumable");
    assert_eq!(added.message, "Found 1 newly added supported item(s). Previous decisions remain unchanged; originals are never modified.");
    let done = resumed_review_state("/src".to_string(), 0, 0, "complete");
    assert_eq!(done.state, "complete");
    assert_eq!(done.message, "This source review is complete. No new supported files were found; originals were not deleted or moved.");
    assert_eq!(review_state(None).state, "none");
    assert_eq!(review_state(Some(("/src".to_string(), "active".to_string(), 3))).state, "resumable");
    assert!(matches!(route_session(Some((4, "complete".to_string()))), SessionRoute::CompletionOf(4)));
    assert!(matches!(route_session(None), SessionRoute::LatestCompletion));
}

#[test]
fn sources_must_be_separate_from_the_library() {
    let probe = SourceProbe { kind: EntryKind::Directory, canonical: Some("/photos".to_string()) };
    assert_eq!(canonical_directory(" /photos ", &probe).unwrap(), "/photos");
    assert_eq!(canonical_directory("   ", &probe).unwrap_err().code, "missing_source");
    let file = SourceProbe { kind: EntryKind::Other, canonical: Some("/photos/a.jpg".to_string()) };
    assert_eq!(canonical_directory("/photos/a.jpg", &file).unwrap_err().code, "source_unavailable");
    assert!(check_source_separate("/photos", "/library").is_ok());
    assert_eq!(check_source_separate("/library", "/library").unwrap_err().code, "source_overlaps_library");
    assert_eq!(check_source_separate("/library/inbox", "/library").unwrap_err().code, "source_overlaps_library");
    assert_eq!(check_source_separate("/", "/library").unwrap_err().code, "source_overlaps_library");
}

#[test]
fn skip_and_normalized_tags_persist_after_reopening_the_catalogue() {
    let session = unlocked("/library");
    let recorded = RefCell::new(None);
    let result = skip_review_item(
        &session,
        DecideRequest { candidate_id: 7, tags: vec![" Family ".to_string(), "family".to_string()] },
        |id, tags| {
            *recorded.borrow_mut() = Some((id, tags));
            Ok(())
        },
    )
    .unwrap();
    assert_eq!(result.decision, "skipped");
    assert_eq!(recorded.borrow().clone(), Some((7, vec!["family".to_string()])));
}

#[test]
fn failed_decision_does_not_complete_or_change_the_source() {
    let session = unlocked("/library");
    let result = skip_review_item(&session, DecideRequest { candidate_id: 7, tags: vec![] }, |_, _| {
        Err(ReviewError {
            code: "candidate_not_pending",
            message: "This item has already been decided or is no longer available for review.".to_string(),
        })
    });
    assert_eq!(result.unwrap_err().code, "candidate_not_pending");
}

#[test]
fn importing_preserves_the_original_discovered_date_across_reopen() {
    let session = unlocked("/library");
    let recorded = RefCell::new(None);
    let result = import_review_item(
        &session,
        ImportRequest { candidate_id: 3, tags: vec!["Kept".to_string()], effective_import_date: " 2026-08-28 ".to_string() },
        |id| {
            assert_eq!(id, 3);
            Ok(("/source".to_string(), "dated.jpg".to_string()))
        },
        |path| {
            assert_eq!(path, "/source/dated.jpg");
            Ok(())
        },
        |_| Some(("2020-07-14".to_string(), "metadata".to_string())),
        |source, library, date| {
            assert_eq!(source, "/source/dated.jpg");
            assert_eq!(library, "/library");
            assert_eq!(date, "2026-08-28");
            Ok("/library/2026/2026-08-28/dated.jpg".to_string())
        },
        |id, tags, destination, date, original| {
            *recorded.borrow_mut() = Some((id, tags, destination.clone(), date.clone(), original));
            Ok(())
        },
    )
    .unwrap();
    assert_eq!(result.decision, "imported");
    assert_eq!(result.destination_path, Some("/library/2026/2026-08-28/dated.jpg".to_string()));
    let (_, tags, _, date, original) = recorded.borrow().clone().unwrap();
    assert_eq!(tags, vec!["kept".to_string()]);
    assert_eq!(date, "2026-08-28");
    assert_eq!(original, Some(("2020-07-14".to_string(), "metadata".to_string())));
}

#[test]
fn a_decision_lost_after_copying_names_the_copy() {
    let session = unlocked("/library");
    let result = import_review_item(
        &session,
        ImportRequest { candidate_id: 3, tags: vec![], effective_import_date: "2026-08-28".to_string() },
        |_| Ok(("/source".to_string(), "a.jpg".to_string())),
        |_| Ok(()),
        |_| None,
        |_, _, _| Ok("/library/2026/2026-08-28/a.jpg".to_string()),
        |_, _, _, _, _| Err(ReviewError { code: "catalogue_unavailable", message: "disk full".to_string() }),
    );
    let error = result.unwrap_err();
    assert_eq!(error.code, "post_copy_catalogue_failure");
    assert_eq!(error.message, "The file was copied to /library/2026/2026-08-28/a.jpg but its catalogue decision could not be saved. Do not import it again; reopen the library and recover this item. (disk full)");
    let invalid = import_review_item(
        &LibrarySession::new(),
        ImportRequest { candidate_id: 3, tags: vec![], effective_import_date: "2026-02-30".to_string() },
        |_| panic!("unused"),
        |_| panic!("unused"),
        |_| panic!("unused"),
        |_, _, _| panic!("unused"),
        |_, _, _, _, _| panic!("unused"),
    );
    assert_eq!(invalid.unwrap_err().code, "invalid_import_date");
}

fn pending() -> PendingCandidate {
    PendingCandidate {
        candidate_id: 9,
        source_path: "/source".to_string(),
        relative_path: "nested/a b.jpg".to_string(),
        media_type: "image".to_string(),
        file_size: 5,
        modified_at: 10,
    }
}

#[test]
fn the_next_item_shows_comparisons_and_a_preview() {
    let item = next_review_item(
        pending(),
        Ok(vec!["family".to_string()]),
        None,
        || Ok(vec![1; 32]),
        || Err(("unsupported", "Visual comparison is unavailable for this media type; exact history is still checked.".to_string())),
        || Ok((5, 10)),
        |_| true,
        |_| Ok(vec![]),
        |_| panic!("no hash to save"),
        |_| panic!("no similar history"),
        |state| state == "unsupported",
        |path| {
            assert_eq!(path, "/source/nested/a b.jpg");
            Ok(true)
        },
    )
    .unwrap();
    assert_eq!(item.state, "item");
    assert_eq!(item.filename, Some("a b.jpg".to_string()));
    assert_eq!(item.effective_import_date, Some("1970-01-01".to_string()));
    assert_eq!(item.date_origin, Some("unavailable".to_string()));
    assert_eq!(item.preview_url, Some("asset://localhost/%2Fsource%2Fnested%2Fa%20b%2Ejpg".to_string()));
    assert_eq!(item.visual_comparison_message, Some("Visual comparison is unavailable for this media type; exact history is still checked.".to_string()));
}

#[test]
fn a_file_changed_during_comparison_is_unavailable() {
    let item = next_review_item(
        pending(),
        Ok(vec![]),
        Some(("2020-07-14".to_string(), "metadata".to_string())),
        || Ok(vec![1; 32]),
        || Ok(7),
        || Ok((6, 10)),
        |_| panic!("nothing is saved"),
        |_| panic!("no history"),
        |_| panic!("no hash to save"),
        |_| panic!("no similar history"),
        |_| panic!("no state to save"),
        |_| panic!("no preview"),
    )
    .unwrap();
    assert_eq!(item.state, "unavailable");
    assert_eq!(item.message, "This source item changed while it was being compared. Refresh the review before deciding; no fingerprint was saved.");
}

fn percent_decode(text: &str) -> Vec<u8> {
    let bytes = text.as_bytes();
    let mut out = Vec::new();
    let mut i = 0;
    while i < bytes.len() {
        if bytes[i] == b'%' && i + 2 < bytes.len() {
            out.push(u8::from_str_radix(&text[i + 1..i + 3], 16).unwrap());
            i += 3;
        } else {
            out.push(bytes[i]);
            i += 1;
        }
    }
    out
}

#[test]
fn asset_urls_decode_back_to_the_whole_path() {
    let path = "/Users/Zoë/Pictures/2024 trip/IMG_0001.JPG";
    let url = asset_url(path).unwrap();
    let encoded = url.strip_prefix("asset://localhost/").unwrap();
    assert!(encoded.chars().all(|c| c.is_ascii_alphanumeric() || c == '%'));
    assert_eq!(percent_decode(encoded), path.as_bytes());
}

#[test]
fn hamming_distance_is_symmetric_and_zero_on_itself() {
    assert_eq!(hamming_distance(0b1011, 0b0110), 3);
    assert_eq!(hamming_distance(0b0110, 0b1011), 3);
    assert_eq!(hamming_distance(u64::MAX, u64::MAX), 0);
    assert_eq!(hamming_distance(0, u64::MAX), 64);
}

#[test]
fn resuming_a_completed_source_adds_only_new_candidates() {
    let reviewed = candidate("already-reviewed.jpg");
    let stored = LatestRevision {
        file_size: 5,
        modified_at: 10,
        media_type: "image".to_string(),
        revision: 1,
        fingerprint: Some(vec![7, 7, 7]),
    };
    assert_eq!(next_revision(&reviewed, Some(stored), || Ok(vec![7, 7, 7])), None);
    let added = Candidate {
        relative_path: "nested/newly-added.mp4".to_string(),
        file_size: 12,
        modified_at: 20,
        media_type: "video",
    };
    assert_eq!(next_revision(&added, None, || panic!("a new path needs no fingerprint")), Some(1));
    let resumed = resumed_review_state("/source".to_string(), 1, 1, "complete");
    assert_eq!(resumed.state, "resumable");
    assert_eq!(resumed.candidate_count, 1);
    assert_eq!(
        resumed.message,
        "Found 1 newly added supported item(s). Previous decisions remain unchanged; originals are never modified."
    );
}

#[test]
fn completing_a_review_persists_counts_across_lock_and_reopen() {
    let mut session = unlocked("/photos/library");
    lock_library(&mut session);
    let locked = current_review_state(&session, || panic!("a locked library must not be read"));
    assert_eq!(locked.unwrap_err().code, "library_locked");
    session.establish("/photos/library".to_string(), vec![3u8; 32]);
    let state = current_review_state(&session, || Ok(Some(("/source".to_string(), "complete".to_string(), 0))))
        .unwrap();
    assert_eq!(state.state, "complete");
    let completed = completion_of(Some(("/source".to_string(), 1, 1)));
    assert_eq!(completed.state, "complete");
    assert_eq!(completed.imported_count, 1);
    assert_eq!(completed.skipped_count, 1);
}

#[test]
fn exact_history_sql_is_capped_and_newest_first() {
    assert_eq!(EXACT_HISTORY_LIMIT, 3);
    assert!(EXACT_HISTORY_SQL.ends_with("ORDER BY d.decided_at DESC, c.id LIMIT ?4"));
    assert!(EXACT_HISTORY_SQL.contains("c.id != ?3"));
    assert!(SIMILAR_HISTORY_SQL.contains("d.decision = 'imported'"));
    assert!(SIMILAR_HISTORY_SQL.ends_with("ORDER BY d.decided_at DESC, c.id"));
}

#[test]
fn session_states_follow_what_a_start_found() {
    assert_eq!(new_session_state(0), "complete");
    assert_eq!(new_session_state(2), "active");
    assert_eq!(resumed_session_state(1), Some("active"));
    assert_eq!(resumed_session_state(0), None);
}
