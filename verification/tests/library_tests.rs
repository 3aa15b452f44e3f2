use photo_handler::library::{
    active_library_path, catalogue_migration_plan, clean_library_with_trash, inspect_library_folder,
    is_managed_year_entry, lock_library, managed_date_folders, setup_library, unlock_library,
    validate_request, CleanLibraryRequest, DirEntryInfo, EntryKind, FolderProbe,
    InspectLibraryFolderRequest, LibraryMarker, LibrarySession, MigrationStep, SetupLibraryError,
    SetupLibraryRequest, UnlockLibraryRequest, CATALOGUE_FORMAT_VERSION,
};
use photo_handler::library::{
    read_remembered_library_path, recovery_question, remembered_library, reset_library_password,
    validate_existing_library, LibraryProbe, MarkerRead, PointerRead, ResetLibraryPasswordRequest,
};
use std::cell::RefCell;

fn request(path: &str) -> SetupLibraryRequest {
    SetupLibraryRequest {
        folder_path: path.to_string(),
        password: "correct horse battery staple".to_string(),
        password_confirmation: "correct horse battery staple".to_string(),
        recovery_question: "First pet?".to_string(),
        recovery_answer: "Mochi".to_string(),
    }
}

fn empty_folder() -> FolderProbe {
    FolderProbe { kind: EntryKind::Directory, is_empty: Some(true), marker_is_file: false, database_is_file: false }
}

fn existing_library() -> FolderProbe {
    FolderProbe { kind: EntryKind::Directory, is_empty: Some(false), marker_is_file: true, database_is_file: true }
}

fn copy_marker(m: &LibraryMarker) -> LibraryMarker {
    LibraryMarker {
        format_version: m.format_version,
        password_wrap: photo_handler::keys::KeyWrap {
            salt_hex: m.password_wrap.salt_hex.clone(),
            nonce_hex: m.password_wrap.nonce_hex.clone(),
            ciphertext_hex: m.password_wrap.ciphertext_hex.clone(),
        },
        recovery_wrap: photo_handler::keys::KeyWrap {
            salt_hex: m.recovery_wrap.salt_hex.clone(),
            nonce_hex: m.recovery_wrap.nonce_hex.clone(),
            ciphertext_hex: m.recovery_wrap.ciphertext_hex.clone(),
        },
        recovery_question: m.recovery_question.clone(),
    }
}

/// Sets up a library in memory and gives its marker and catalogue key.
fn set_up(session: &mut LibrarySession, path: &str) -> (LibraryMarker, Vec<u8>) {
    let written: RefCell<Option<(LibraryMarker, Vec<u8>)>> = RefCell::new(None);
    setup_library(
        session,
        request(path),
        &empty_folder(),
        || Ok(()),
        |marker, key| {
            *written.borrow_mut() = Some((copy_marker(marker), key.clone()));
            Ok(())
        },
        || Ok(()),
        || panic!("a successful setup discards nothing"),
    )
    .unwrap();
    written.into_inner().unwrap()
}

#[test]
fn inspection_distinguishes_empty_and_existing_libraries() {
    let empty = inspect_library_folder(InspectLibraryFolderRequest { folder_path: "/photos".to_string() }, &empty_folder()).unwrap();
    assert_eq!(empty.state, "new");
    let existing = inspect_library_folder(InspectLibraryFolderRequest { folder_path: "/photos".to_string() }, &existing_library()).unwrap();
    assert_eq!(existing.state, "existing");
}

#[test]
fn rejects_non_empty_folder_without_changing_its_file() {
    let mut session = LibrarySession::new();
    let folder = FolderProbe { kind: EntryKind::Directory, is_empty: Some(false), marker_is_file: false, database_is_file: false };
    let error = setup_library(
        &mut session,
        request("/photos"),
        &folder,
        || panic!("nothing may be created in a non-empty folder"),
        |_, _| panic!("nothing may be written"),
        || panic!("nothing may be published"),
        || panic!("nothing may be discarded"),
    )
    .unwrap_err();
    assert_eq!(error.code, "folder_not_empty");
    assert!(session.current.is_none());
}

#[test]
fn invalid_request_leaves_target_untouched() {
    let mut different = request("/photos");
    different.password_confirmation = "different".to_string();
    assert_eq!(validate_request(&different).unwrap_err().code, "password_mismatch");
}

#[test]
fn correct_password_reopens_the_same_library() {
    let mut session = LibrarySession::new();
    let (marker, key) = set_up(&mut session, "/photos/library");
    lock_library(&mut session);
    assert!(session.current.is_none());
    let checked = RefCell::new(None);
    let result = unlock_library(
        &mut session,
        " /photos/library ",
        UnlockLibraryRequest { password: "correct horse battery staple".to_string() },
        |folder| {
            assert_eq!(folder, "/photos/library");
            Ok(copy_marker(&marker))
        },
        |k| {
            *checked.borrow_mut() = Some(k.clone());
            Ok(())
        },
    )
    .unwrap();
    assert_eq!(result.folder_path, "/photos/library");
    assert_eq!(checked.into_inner(), Some(key.clone()));
    assert_eq!(session.current.as_ref().unwrap().database_key, key);

    let wrong = unlock_library(
        &mut LibrarySession::new(),
        "/photos/library",
        UnlockLibraryRequest { password: "wrong password".to_string() },
        |_| Ok(copy_marker(&marker)),
        |_| panic!("a wrong password opens no catalogue"),
    );
    assert_eq!(wrong.unwrap_err().code, "incorrect_credentials");
}

#[test]
fn active_library_path_requires_an_unlocked_available_library() {
    let mut session = LibrarySession::new();
    assert_eq!(active_library_path(&session, |_| panic!("locked")).unwrap_err().code, "library_locked");
    session.establish("/photos/library".to_string(), vec![1u8; 32]);
    let removed = active_library_path(&session, |path| {
        assert_eq!(path, "/photos/library");
        LibraryProbe { kind: EntryKind::Missing, marker: MarkerRead::Unreadable, database_is_file: false }
    });
    assert_eq!(removed.unwrap_err().code, "folder_unavailable");
    assert_eq!(session.current.as_ref().unwrap().library_path, "/photos/library");
    let (marker, _) = set_up(&mut LibrarySession::new(), "/photos/library");
    let available = active_library_path(&session, |_| LibraryProbe {
        kind: EntryKind::Directory,
        marker: MarkerRead::Parsed(marker),
        database_is_file: true,
    });
    assert_eq!(available.unwrap(), "/photos/library");
    lock_library(&mut session);
}

#[test]
fn unlock_migrates_a_supported_older_catalogue_schema() {
    let plan = catalogue_migration_plan(2, 2).unwrap();
    assert_eq!(plan.len(), 8);
    assert!(matches!(plan[0], MigrationStep::BaseTables));
    assert!(matches!(plan[7], MigrationStep::RecordVersion));
    let current = catalogue_migration_plan(CATALOGUE_FORMAT_VERSION, CATALOGUE_FORMAT_VERSION).unwrap();
    assert!(current.is_empty());
    let recent = catalogue_migration_plan(7, 7).unwrap();
    assert_eq!(recent.len(), 3);
}

#[test]
fn newer_catalogue_schema_is_rejected_without_mutation() {
    assert_eq!(
        catalogue_migration_plan(CATALOGUE_FORMAT_VERSION + 1, CATALOGUE_FORMAT_VERSION + 1).unwrap_err().code,
        "library_version_unsupported"
    );
    assert_eq!(catalogue_migration_plan(3, 4).unwrap_err().code, "library_version_unsupported");
}

fn entry(name: &str, is_file: bool, is_dir: bool, is_symlink: bool) -> DirEntryInfo {
    DirEntryInfo { name: name.to_string(), is_file, is_dir, is_symlink }
}

#[test]
fn managed_media_classification_ignores_finder_metadata_but_rejects_other_content() {
    assert!(is_managed_year_entry(&entry("2026", false, true, false)));
    assert!(!is_managed_year_entry(&entry("not-a-year", false, true, false)));
    assert!(!is_managed_year_entry(&entry(".photo-handler", false, true, false)));
    let managed = vec![entry("2026-08-28", false, true, false), entry(".DS_Store", true, false, false)];
    assert_eq!(managed_date_folders(&managed), vec!["2026-08-28".to_string()]);
    let mixed = vec![entry("2025-01-01", false, true, false), entry("notes.txt", true, false, false)];
    assert!(managed_date_folders(&mixed).is_empty());
    let malformed = vec![entry("2024-13-40", false, true, false)];
    assert!(managed_date_folders(&malformed).is_empty());
}

#[test]
fn managed_media_classification_rejects_symlinked_date_paths() {
    let linked = vec![entry("2026-08-28", false, false, true)];
    assert!(managed_date_folders(&linked).is_empty());
    assert!(!is_managed_year_entry(&entry("2026", false, true, true)));
}

#[test]
fn clean_library_rejects_locked_and_wrong_password_without_changing_media() {
    let locked = clean_library_with_trash(
        &LibrarySession::new(),
        CleanLibraryRequest { password: "correct horse battery staple".to_string() },
        |_| panic!("locked"),
        |_| panic!("locked"),
        |_| panic!("locked"),
        |_| panic!("locked"),
    );
    assert_eq!(locked.unwrap_err().code, "library_locked");

    let mut session = LibrarySession::new();
    let (marker, _) = set_up(&mut session, "/photos/library");
    let wrong = clean_library_with_trash(
        &session,
        CleanLibraryRequest { password: "wrong password".to_string() },
        |_| Ok(copy_marker(&marker)),
        |_| panic!("a wrong password lists nothing"),
        |_| panic!("a wrong password moves nothing"),
        |_| panic!("a wrong password clears nothing"),
    );
    assert_eq!(wrong.unwrap_err().code, "incorrect_credentials");

    let moved = RefCell::new(vec![]);
    let partial = clean_library_with_trash(
        &session,
        CleanLibraryRequest { password: "correct horse battery staple".to_string() },
        |_| Ok(copy_marker(&marker)),
        |_| Ok(vec!["/photos/library/2026/2026-08-28".to_string(), "/photos/library/2026/2026-08-30".to_string()]),
        |target| {
            moved.borrow_mut().push(target.clone());
            if target.ends_with("30") { Err("simulated Trash failure".to_string()) } else { Ok(()) }
        },
        |_| panic!("review data stays until every folder is moved"),
    );
    let error = partial.unwrap_err();
    assert_eq!(error.code, "cleanup_incomplete");
    assert_eq!(error.failed_targets, vec!["2026-08-30".to_string()]);
    assert_eq!(moved.borrow().len(), 2);
}

#[test]
fn recovery_answer_resets_password_without_replacing_catalogue() {
    let mut session = LibrarySession::new();
    let (marker, key) = set_up(&mut session, "/photos/library");
    lock_library(&mut session);
    let written: RefCell<Option<LibraryMarker>> = RefCell::new(None);
    let result = reset_library_password(
        &mut session,
        "/photos/library",
        ResetLibraryPasswordRequest {
            folder_path: "/photos/library".to_string(),
            recovery_answer: "Mochi".to_string(),
            new_password: "new password".to_string(),
            new_password_confirmation: "new password".to_string(),
        },
        |_| Ok(copy_marker(&marker)),
        |k| {
            assert_eq!(k, &key);
            Ok(())
        },
        |folder, m| {
            assert_eq!(folder, "/photos/library");
            *written.borrow_mut() = Some(copy_marker(m));
            Ok(())
        },
    )
    .unwrap();
    assert_eq!(result.folder_path, "/photos/library");
    let reset_marker = written.into_inner().unwrap();
    assert_eq!(reset_marker.recovery_wrap.ciphertext_hex, marker.recovery_wrap.ciphertext_hex);

    let mut reopened = LibrarySession::new();
    unlock_library(
        &mut reopened,
        "/photos/library",
        UnlockLibraryRequest { password: "new password".to_string() },
        |_| Ok(copy_marker(&reset_marker)),
        |k| {
            assert_eq!(k, &key);
            Ok(())
        },
    )
    .unwrap();
    assert_eq!(reopened.current.as_ref().unwrap().database_key, key);
    let old = unlock_library(
        &mut LibrarySession::new(),
        "/photos/library",
        UnlockLibraryRequest { password: "correct horse battery staple".to_string() },
        |_| Ok(copy_marker(&reset_marker)),
        |_| panic!("the old password no longer opens the catalogue"),
    );
    assert_eq!(old.unwrap_err().code, "incorrect_credentials");
}

#[test]
fn wrong_recovery_answer_preserves_all_library_files() {
    let mut session = LibrarySession::new();
    let (marker, _) = set_up(&mut session, "/photos/library");
    let result = reset_library_password(
        &mut session,
        "/photos/library",
        ResetLibraryPasswordRequest {
            folder_path: "/photos/library".to_string(),
            recovery_answer: "wrong answer".to_string(),
            new_password: "new password".to_string(),
            new_password_confirmation: "new password".to_string(),
        },
        |_| Ok(copy_marker(&marker)),
        |_| panic!("a wrong answer opens no catalogue"),
        |_, _| panic!("a wrong answer writes no marker"),
    );
    assert_eq!(result.unwrap_err().code, "incorrect_credentials");
}

#[test]
fn wrong_password_does_not_change_catalogue_or_marker() {
    let mut session = LibrarySession::new();
    let (marker, _) = set_up(&mut session, "/photos/library");
    lock_library(&mut session);
    let error = unlock_library(
        &mut session,
        "/photos/library",
        UnlockLibraryRequest { password: "wrong password".to_string() },
        |_| Ok(copy_marker(&marker)),
        |_| panic!("a wrong password must not open the catalogue"),
    )
    .unwrap_err();
    assert_eq!(error.code, "incorrect_credentials");
    assert!(session.current.is_none());
}

#[test]
fn stale_pointer_and_foreign_or_unsupported_libraries_are_rejected_without_mutation() {
    let stale = remembered_library(
        PointerRead::Parsed { format_version: 1, folder_path: "/missing/photo-handler-library".to_string() },
        |_| Err(SetupLibraryError::new("folder_unavailable", "The selected library folder is unavailable.")),
    )
    .unwrap();
    assert_eq!(stale.state, "stale");

    let foreign = validate_existing_library(LibraryProbe {
        kind: EntryKind::Directory,
        marker: MarkerRead::Malformed,
        database_is_file: false,
    });
    assert_eq!(foreign.unwrap_err().code, "library_unrecognized");

    let mut session = LibrarySession::new();
    let (mut marker, _) = set_up(&mut session, "/photos/library");
    marker.format_version = 2;
    let unsupported = validate_existing_library(LibraryProbe {
        kind: EntryKind::Directory,
        marker: MarkerRead::Parsed(marker),
        database_is_file: true,
    });
    assert_eq!(unsupported.unwrap_err().code, "library_version_unsupported");
}

#[test]
fn initializes_only_its_own_state_in_an_empty_folder() {
    let mut session = LibrarySession::new();
    let steps: RefCell<Vec<&str>> = RefCell::new(vec![]);
    let result = setup_library(
        &mut session,
        request("/photos/library"),
        &empty_folder(),
        || {
            steps.borrow_mut().push("create");
            Ok(())
        },
        |marker, key| {
            assert_eq!(key.len(), 32);
            assert_eq!(marker.recovery_question, "First pet?");
            steps.borrow_mut().push("write");
            Ok(())
        },
        || {
            steps.borrow_mut().push("publish");
            Ok(())
        },
        || panic!("a successful setup discards nothing"),
    )
    .unwrap();
    assert_eq!(result.folder_path, "/photos/library");
    assert_eq!(steps.into_inner(), vec!["create", "write", "publish"]);
    assert_eq!(session.current.as_ref().unwrap().library_path, "/photos/library");
}

#[test]
fn inspection_rejects_foreign_content_without_mutation() {
    let foreign = FolderProbe { kind: EntryKind::Directory, is_empty: Some(false), marker_is_file: false, database_is_file: false };
    let error = inspect_library_folder(InspectLibraryFolderRequest { folder_path: "/photos".to_string() }, &foreign).unwrap_err();
    assert_eq!(error.code, "folder_not_empty");
}

#[test]
fn duplicate_initialization_is_rejected_without_overwrite() {
    let mut session = LibrarySession::new();
    set_up(&mut session, "/photos/library");
    let error = setup_library(
        &mut session,
        request("/photos/library"),
        &existing_library(),
        || panic!("an existing library is not created again"),
        |_, _| panic!("an existing marker is not overwritten"),
        || panic!("nothing is published over a library"),
        || panic!("nothing is discarded"),
    )
    .unwrap_err();
    assert_eq!(error.code, "folder_not_empty");
}

#[test]
fn empty_cleanup_clears_only_review_state_and_ignores_stale_destinations() {
    let mut session = LibrarySession::new();
    let (marker, _) = set_up(&mut session, "/photos/library");
    let cleared = RefCell::new(false);
    let result = clean_library_with_trash(
        &session,
        CleanLibraryRequest { password: "correct horse battery staple".to_string() },
        |_| Ok(copy_marker(&marker)),
        |_| Ok(vec![]),
        |_| panic!("an empty library must not invoke Trash"),
        |_| {
            *cleared.borrow_mut() = true;
            Ok(())
        },
    )
    .unwrap();
    assert_eq!(result.moved_folder_count, 0);
    assert!(cleared.into_inner());
    assert_eq!(session.current.as_ref().unwrap().library_path, "/photos/library");
}

#[test]
fn recovery_question_is_stored_and_returned_trimmed() {
    let mut session = LibrarySession::new();
    let written: RefCell<Option<LibraryMarker>> = RefCell::new(None);
    let mut padded = request("/photos/library");
    padded.recovery_question = "  First pet?  ".to_string();
    setup_library(
        &mut session,
        padded,
        &empty_folder(),
        || Ok(()),
        |marker, _| {
            *written.borrow_mut() = Some(copy_marker(marker));
            Ok(())
        },
        || Ok(()),
        || panic!("a successful setup discards nothing"),
    )
    .unwrap();
    let marker = written.into_inner().unwrap();
    assert_eq!(marker.recovery_question, "First pet?");
    lock_library(&mut session);
    let question = recovery_question(" /photos/library ", |folder| {
        assert_eq!(folder, "/photos/library");
        Ok(copy_marker(&marker))
    })
    .unwrap();
    assert_eq!(question.question, "First pet?");
}

#[test]
fn remembered_library_path_reads_back_unchanged() {
    let pointer = PointerRead::Parsed { format_version: 1, folder_path: "/example/library".to_string() };
    assert_eq!(read_remembered_library_path(pointer).unwrap(), "/example/library");
    let blank = PointerRead::Parsed { format_version: 1, folder_path: "  ".to_string() };
    assert_eq!(read_remembered_library_path(blank).unwrap_err().code, "library_pointer_invalid");
}
