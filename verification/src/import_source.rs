//! The import source: the folder whose media are reviewed, remembered in the settings.
use vstd::prelude::*;
use crate::library::{remembered_pointer, EntryKind, PointerRead, MARKER_FORMAT_VERSION};
use crate::text::{is_blank, lemma_trim_idempotent, same_text, trim, trim_spec};

verus! {

/// A request to choose a folder as the import source.
#[derive(Debug)]
pub struct SaveImportSourceRequest {
    pub folder_path: String,
}

/// The import source: `"ready"`, `"stale"` or `"missing"`, with its folder when remembered.
#[derive(Debug)]
pub struct ImportSourceResult {
    pub state: &'static str,
    pub folder_path: Option<String>,
}

/// An error of an import-source command: a stable code and a message for people.
#[derive(Debug)]
pub struct ImportSourceError {
    pub code: &'static str,
    pub message: String,
}

/// `e` carries exactly this code and message.
pub open spec fn source_error_is(e: ImportSourceError, code: Seq<char>, message: Seq<char>) -> bool {
    e.code@ == code && e.message@ == message
}

/// `r` is an error with exactly this code and message.
pub open spec fn source_fails_with<T>(
    r: Result<T, ImportSourceError>,
    code: Seq<char>,
    message: Seq<char>,
) -> bool {
    r matches Err(e) && source_error_is(e, code, message)
}

impl ImportSourceError {
    /// An error with the given code and message.
    pub fn new(code: &'static str, message: &str) -> (r: Self)
        ensures
            r.code == code,
            r.message@ == message@,
    {
        ImportSourceError { code, message: String::from_str(message) }
    }
}

/// What was found at a folder chosen as the import source.
#[derive(Debug)]
pub struct SourceProbe {
    /// What the path names, following links.
    pub kind: EntryKind,
    /// Its canonical path, when it has one.
    pub canonical: Option<String>,
}

/// The choice passes every check: a folder that is not blank, exists as a folder with a
/// canonical path, while the library is available and is not that same folder.
pub open spec fn source_choice_ok(
    request: SaveImportSourceRequest,
    source: SourceProbe,
    canonical_library: Option<String>,
) -> bool {
    &&& trim_spec(request.folder_path@).len() != 0
    &&& source.kind is Directory
    &&& source.canonical is Some
    &&& canonical_library is Some
    &&& source.canonical->0@ != canonical_library->0@
}

/// Chooses the trimmed `request.folder_path` as the import source, after checking that it is an
/// available folder other than the protected library (compared by canonical path, so that an
/// alias of the library is refused too). `write_pointer` then remembers it; the previously
/// remembered source stays in place whenever the choice is refused.
pub fn save_import_source(
    request: SaveImportSourceRequest,
    source: SourceProbe,
    canonical_library: Option<String>,
    write_pointer: impl FnOnce(&String) -> Result<(), ImportSourceError>,
) -> (r: Result<ImportSourceResult, ImportSourceError>)
    requires
        forall|path: &String|
            source_choice_ok(request, source, canonical_library) && path@ == trim_spec(
                request.folder_path@,
            ) ==> #[trigger] write_pointer.requires((path,)),
    ensures
        trim_spec(request.folder_path@).len() == 0 ==> source_fails_with(
            r,
            "missing_folder"@,
            "Choose a folder to use as the import source."@,
        ),
        trim_spec(request.folder_path@).len() != 0 ==> {
            if source.kind is Missing || (source.kind is Directory && source.canonical is None) {
                source_fails_with(
                    r,
                    "folder_unavailable"@,
                    "The selected folder is unavailable."@,
                )
            } else if source.kind is Other {
                source_fails_with(r, "not_a_folder"@, "Select a folder, not a file."@)
            } else if canonical_library is None {
                source_fails_with(
                    r,
                    "library_unavailable"@,
                    "The protected library is unavailable, so an import source cannot be selected yet."@,
                )
            } else if source.canonical->0@ == canonical_library->0@ {
                source_fails_with(
                    r,
                    "source_is_library"@,
                    "The import folder must be separate from your protected library. Nothing was changed."@,
                )
            } else {
                exists|path: String, written: Result<(), ImportSourceError>|
                    {
                        &&& path@ == trim_spec(request.folder_path@)
                        &&& write_pointer.ensures((&path,), written)
                        &&& match written {
                            Err(e) => r == Err::<ImportSourceResult, ImportSourceError>(e),
                            Ok(_) => r matches Ok(res) && res.state@ == "ready"@ && res.folder_path
                                == Some(path),
                        }
                    }
            }
        },
{
    if is_blank(request.folder_path.as_str()) {
        return Err(
            ImportSourceError::new("missing_folder", "Choose a folder to use as the import source."),
        );
    }
    match source.kind {
        EntryKind::Missing => {
            return Err(
                ImportSourceError::new("folder_unavailable", "The selected folder is unavailable."),
            );
        },
        EntryKind::Other => {
            return Err(ImportSourceError::new("not_a_folder", "Select a folder, not a file."));
        },
        EntryKind::Directory => {},
    }
    let canonical_source = match source.canonical {
        Some(c) => c,
        None => {
            return Err(
                ImportSourceError::new("folder_unavailable", "The selected folder is unavailable."),
            );
        },
    };
    let canonical_library = match canonical_library {
        Some(c) => c,
        None => {
            return Err(
                ImportSourceError::new(
                    "library_unavailable",
                    "The protected library is unavailable, so an import source cannot be selected yet.",
                ),
            );
        },
    };
    if same_text(canonical_source.as_str(), canonical_library.as_str()) {
        return Err(
            ImportSourceError::new(
                "source_is_library",
                "The import folder must be separate from your protected library. Nothing was changed.",
            ),
        );
    }
    let folder_path = trim(request.folder_path.as_str());
    let written = write_pointer(&folder_path);
    match written {
        Ok(_) => Ok(ImportSourceResult { state: "ready", folder_path: Some(folder_path) }),
        Err(e) => Err(e),
    }
}

/// `pointer` names a folder: it was written in the current format and its folder is not blank.
pub open spec fn names_folder(pointer: PointerRead) -> bool {
    pointer matches PointerRead::Parsed { format_version, folder_path }
        && format_version == MARKER_FORMAT_VERSION && trim_spec(folder_path@).len() != 0
}

/// What reading the remembered import folder from `pointer` gives.
pub open spec fn source_pointer_is(pointer: PointerRead, r: Result<String, ImportSourceError>) -> bool {
    match pointer {
        PointerRead::Unreadable => source_fails_with(
            r,
            "source_not_remembered"@,
            "No import folder has been selected."@,
        ),
        PointerRead::Parsed { folder_path, .. } => if names_folder(pointer) {
            r == Ok::<String, ImportSourceError>(folder_path)
        } else {
            source_fails_with(
                r,
                "source_pointer_invalid"@,
                "The remembered import folder location is invalid."@,
            )
        },
        PointerRead::Malformed => source_fails_with(
            r,
            "source_pointer_invalid"@,
            "The remembered import folder location is invalid."@,
        ),
    }
}

/// The remembered import folder, from the settings file that holds it.
pub fn read_import_source_pointer(pointer: PointerRead) -> (r: Result<String, ImportSourceError>)
    ensures
        source_pointer_is(pointer, r),
{
    match pointer {
        PointerRead::Unreadable => Err(
            ImportSourceError::new("source_not_remembered", "No import folder has been selected."),
        ),
        PointerRead::Malformed => Err(
            ImportSourceError::new(
                "source_pointer_invalid",
                "The remembered import folder location is invalid.",
            ),
        ),
        PointerRead::Parsed { format_version, folder_path } => {
            if format_version != MARKER_FORMAT_VERSION || is_blank(folder_path.as_str()) {
                Err(
                    ImportSourceError::new(
                        "source_pointer_invalid",
                        "The remembered import folder location is invalid.",
                    ),
                )
            } else {
                Ok(folder_path)
            }
        },
    }
}

/// What the remembered import source is, from `pointer` and, when it names a folder, whether
/// that folder is `available`.
pub open spec fn remembered_source_is(
    pointer: PointerRead,
    available: bool,
    r: Result<ImportSourceResult, ImportSourceError>,
) -> bool {
    match pointer {
        PointerRead::Unreadable => r matches Ok(res) && res.state@ == "missing"@
            && res.folder_path is None,
        PointerRead::Parsed { folder_path, .. } => if names_folder(pointer) {
            r matches Ok(res) && res.folder_path == Some(folder_path) && res.state@ == (if available {
                "ready"@
            } else {
                "stale"@
            })
        } else {
            source_fails_with(
                r,
                "source_pointer_invalid"@,
                "The remembered import folder location is invalid."@,
            )
        },
        PointerRead::Malformed => source_fails_with(
            r,
            "source_pointer_invalid"@,
            "The remembered import folder location is invalid."@,
        ),
    }
}

/// A chosen import folder reads back as it was saved: the pointer written for the folder that
/// `save_import_source` returned gives that folder again, `"ready"` while it is available and
/// `"stale"` once it is not.
pub proof fn lemma_saved_import_source_reads_back(
    request: SaveImportSourceRequest,
    saved: String,
    available: bool,
    r: Result<ImportSourceResult, ImportSourceError>,
)
    requires
        trim_spec(request.folder_path@).len() != 0,
        saved@ == trim_spec(request.folder_path@),
        remembered_source_is(remembered_pointer(saved), available, r),
    ensures
        r matches Ok(res) && res.folder_path == Some(saved) && res.state@ == (if available {
            "ready"@
        } else {
            "stale"@
        }),
{
    lemma_trim_idempotent(request.folder_path@);
}

/// The remembered import source: `"missing"` when none is remembered, otherwise its folder,
/// `"ready"` when `is_available` finds it a folder and `"stale"` when not. An invalid settings
/// file is an error.
pub fn remembered_import_source(
    pointer: PointerRead,
    is_available: impl FnOnce(&String) -> bool,
) -> (r: Result<ImportSourceResult, ImportSourceError>)
    requires
        forall|path: &String| is_available.requires((path,)),
    ensures
        exists|available: bool|
            {
                &&& names_folder(pointer) ==> is_available.ensures((&pointer->folder_path,), available)
                &&& remembered_source_is(pointer, available, r)
            },
{
    let ghost p = pointer;
    if let PointerRead::Unreadable = pointer {
        let r = Ok(ImportSourceResult { state: "missing", folder_path: None });
        assert(remembered_source_is(p, false, r));
        return r;
    }
    let folder_path = match read_import_source_pointer(pointer) {
        Ok(path) => path,
        Err(e) => {
            let r = Err(e);
            assert(remembered_source_is(p, false, r));
            return r;
        },
    };
    let available = is_available(&folder_path);
    let r = Ok(
        ImportSourceResult {
            state: if available {
                "ready"
            } else {
                "stale"
            },
            folder_path: Some(folder_path),
        },
    );
    assert(remembered_source_is(p, available, r));
    r
}


/// The error for an import folder that could not be remembered, with the reason.
pub fn settings_error(detail: &str) -> (r: ImportSourceError)
    ensures
        source_error_is(r, "settings_unavailable"@, "Could not save the import folder: "@ + detail@),
{
    let mut message = String::from_str("Could not save the import folder: ");
    message.append(detail);
    ImportSourceError { code: "settings_unavailable", message }
}

} // verus!
