use photo_handler::import_source::{
    read_import_source_pointer, remembered_import_source, save_import_source,
    SaveImportSourceRequest, SourceProbe,
};
use photo_handler::library::{EntryKind, PointerRead};
use std::cell::RefCell;

fn folder(canonical: &str) -> SourceProbe {
    SourceProbe { kind: EntryKind::Directory, canonical: Some(canonical.to_string()) }
}

#[test]
fn returns_missing_when_no_source_has_been_selected() {
    let result = remembered_import_source(PointerRead::Unreadable, |_| panic!("nothing to look at")).unwrap();
    assert_eq!(result.state, "missing");
    assert_eq!(result.folder_path, None);
}

#[test]
fn retains_a_remembered_source_when_it_becomes_unavailable() {
    let pointer = PointerRead::Parsed { format_version: 1, folder_path: "/photos/inbox".to_string() };
    let result = remembered_import_source(pointer, |_| false).unwrap();
    assert_eq!(result.state, "stale");
    assert_eq!(result.folder_path.as_deref(), Some("/photos/inbox"));
}

#[test]
fn saves_and_reloads_a_source_without_touching_its_contents() {
    let written = RefCell::new(None);
    let saved = save_import_source(
        SaveImportSourceRequest { folder_path: " /photos/inbox ".to_string() },
        folder("/photos/inbox"),
        Some("/photos/library".to_string()),
        |path| {
            *written.borrow_mut() = Some(path.clone());
            Ok(())
        },
    )
    .unwrap();
    assert_eq!(saved.state, "ready");
    let remembered = written.into_inner().unwrap();
    let reloaded = remembered_import_source(
        PointerRead::Parsed { format_version: 1, folder_path: remembered },
        |_| true,
    )
    .unwrap();
    assert_eq!(reloaded.state, "ready");
    assert_eq!(reloaded.folder_path, saved.folder_path);
}

#[test]
fn rejects_invalid_selections_without_replacing_the_current_pointer() {
    let file = SourceProbe { kind: EntryKind::Other, canonical: Some("/photos/original.mov".to_string()) };
    let error = save_import_source(
        SaveImportSourceRequest { folder_path: "/photos/original.mov".to_string() },
        file,
        Some("/photos/library".to_string()),
        |_| panic!("the pointer must not be replaced"),
    )
    .unwrap_err();
    assert_eq!(error.code, "not_a_folder");
}

#[test]
fn rejects_the_managed_library_without_replacing_the_current_pointer() {
    let error = save_import_source(
        SaveImportSourceRequest { folder_path: "/photos/library".to_string() },
        folder("/photos/library"),
        Some("/photos/library".to_string()),
        |_| panic!("the pointer must not be replaced"),
    )
    .unwrap_err();
    assert_eq!(error.code, "source_is_library");
}

#[test]
fn rejects_a_symlink_alias_of_the_managed_library() {
    let error = save_import_source(
        SaveImportSourceRequest { folder_path: "/elsewhere/library-alias".to_string() },
        folder("/photos/library"),
        Some("/photos/library".to_string()),
        |_| panic!("the pointer must not be replaced"),
    )
    .unwrap_err();
    assert_eq!(error.code, "source_is_library");
}

#[test]
fn malformed_or_blank_pointers_are_invalid() {
    assert_eq!(read_import_source_pointer(PointerRead::Malformed).unwrap_err().code, "source_pointer_invalid");
    let blank = PointerRead::Parsed { format_version: 1, folder_path: "  ".to_string() };
    assert_eq!(read_import_source_pointer(blank).unwrap_err().code, "source_pointer_invalid");
    let newer = PointerRead::Parsed { format_version: 2, folder_path: "/photos".to_string() };
    assert_eq!(read_import_source_pointer(newer).unwrap_err().code, "source_pointer_invalid");
    assert_eq!(read_import_source_pointer(PointerRead::Unreadable).unwrap_err().code, "source_not_remembered");
}
