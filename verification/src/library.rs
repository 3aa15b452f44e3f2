//! The protected library: its request checks, its marker and pointer validation, the unlocked
//! session, and the decisions of setup, unlock, password reset and cleanup.
use vstd::prelude::*;
use crate::text::{is_blank, lemma_trim_idempotent, trim, trim_spec};
use crate::keys::{
    new_database_key, unwrap_key, unwrap_spec, wipe, wrap_key, KeyWrap, KEY_BYTES, MAX_SECRET_CHARS,
};
use crate::text::{join, join_spec, keys_of, same_text, sort_by_text, str_chars, string_views, texts_sorted};
use crate::dates::{chrono_parse_date, parse_date, DATE_FORMAT};
use crate::hexcode::{hex_encode, hex_encode_spec};

use crate::paths::{file_name, join_path, std_file_name, std_join};

verus! {

/// An error reported by a library command: a stable code, a message for people, and for an
/// incomplete cleanup the date folders that could not be moved.
#[derive(Debug)]
pub struct SetupLibraryError {
    pub code: &'static str,
    pub message: String,
    pub failed_targets: Vec<String>,
}

/// `e` carries exactly this code and message, and no failed targets.
pub open spec fn setup_error_is(e: SetupLibraryError, code: Seq<char>, message: Seq<char>) -> bool {
    &&& e.code@ == code
    &&& e.message@ == message
    &&& e.failed_targets@.len() == 0
}

/// `r` is an error with exactly this code and message.
pub open spec fn fails_with<T>(r: Result<T, SetupLibraryError>, code: Seq<char>, message: Seq<char>) -> bool {
    r matches Err(e) && setup_error_is(e, code, message)
}

impl SetupLibraryError {
    /// An error with the given code and message and no failed targets.
    pub fn new(code: &'static str, message: &str) -> (r: Self)
        ensures
            r.code == code,
            setup_error_is(r, code@, message@),
    {
        SetupLibraryError { code, message: String::from_str(message), failed_targets: Vec::new() }
    }
}


/// The library state folder's marker: its format and the catalogue key sealed under the
/// password and under the recovery answer.
#[derive(Debug)]
pub struct LibraryMarker {
    pub format_version: u32,
    pub password_wrap: KeyWrap,
    pub recovery_wrap: KeyWrap,
    pub recovery_question: String,
}

/// The only marker format this library reads.
pub const MARKER_FORMAT_VERSION: u32 = 1;

/// The only catalogue schema version this library writes; older ones are migrated.
pub const CATALOGUE_FORMAT_VERSION: u32 = 8;

/// A request to open a protected library that is already remembered.
#[derive(Debug)]
pub struct UnlockLibraryRequest {
    pub password: String,
}

/// The outcome of unlocking a library.
#[derive(Debug)]
pub struct UnlockLibraryResult {
    pub folder_path: String,
    pub message: String,
}

/// The unlocked library: its folder and its catalogue key.
pub struct AuthenticatedSession {
    pub library_path: String,
    pub database_key: Vec<u8>,
}

/// The library session of the application: unlocked or locked.
pub struct LibrarySession {
    pub current: Option<AuthenticatedSession>,
}

/// `session` is unlocked at `path` with `key`.
pub open spec fn unlocked_at(session: LibrarySession, path: Seq<char>, key: Seq<u8>) -> bool {
    session.current matches Some(s) && s.library_path@ == path && s.database_key@ == key
}

impl LibrarySession {
    /// A locked session.
    pub fn new() -> (r: Self)
        ensures
            r.current is None,
    {
        LibrarySession { current: None }
    }

    /// Replaces the session by one unlocked at `library_path` with `database_key`; the key of
    /// a session it replaces is wiped first.
    pub fn establish(&mut self, library_path: String, database_key: Vec<u8>)
        ensures
            unlocked_at(*final(self), library_path@, database_key@),
    {
        lock_library(self);
        self.current = Some(AuthenticatedSession { library_path, database_key });
    }
}

/// Locks the library: the session ends, and its key is wiped before it is dropped.
pub fn lock_library(session: &mut LibrarySession)
    ensures
        final(session).current is None,
{
    let previous = session.current.take();
    match previous {
        Some(s) => {
            let mut key = s.database_key;
            wipe(&mut key);
        },
        None => {},
    }
}

/// The error for a command that needs the unlocked library.
pub fn locked_error(message: &str) -> (r: SetupLibraryError)
    ensures
        setup_error_is(r, "library_locked"@, message@),
{
    SetupLibraryError::new("library_locked", message)
}

/// The unlocked session that catalogue commands work in.
pub fn catalogue_session(session: &LibrarySession) -> (r: Result<&AuthenticatedSession, SetupLibraryError>)
    ensures
        match r {
            Ok(s) => session.current == Some(*s),
            Err(e) => session.current is None && setup_error_is(
                e,
                "library_locked"@,
                "The protected library is locked. Unlock it before reviewing media."@,
            ),
        },
{
    match &session.current {
        Some(s) => Ok(s),
        None => Err(locked_error("The protected library is locked. Unlock it before reviewing media.")),
    }
}

/// The folder of the unlocked library, for opening it. `probe` looks at the folder, which must
/// still hold a recognized library; the session is kept whatever is found, so a removed folder
/// gives `folder_unavailable` without locking the library.
pub fn active_library_path(
    session: &LibrarySession,
    probe: impl FnOnce(String) -> LibraryProbe,
) -> (r: Result<String, SetupLibraryError>)
    requires
        forall|path: String| probe.requires((path,)),
    ensures
        match session.current {
            None => fails_with(
                r,
                "library_locked"@,
                "The protected library is locked. Unlock it before opening its folder."@,
            ),
            Some(s) => exists|found: LibraryProbe, checked: Result<LibraryMarker, SetupLibraryError>|
                {
                    &&& probe.ensures((s.library_path,), found)
                    &&& existing_library_outcome(found, checked)
                    &&& match checked {
                        Ok(_) => (r matches Ok(path) && path@ == s.library_path@),
                        Err(e) => r == Err::<String, SetupLibraryError>(e),
                    }
                },
        },
        session.current is Some && (forall|p: String, f: LibraryProbe|
            #[trigger] probe.ensures((p,), f) ==> f.kind is Missing) ==> fails_with(
            r,
            "folder_unavailable"@,
            "The selected library folder is unavailable."@,
        ),
{
    match &session.current {
        None => Err(locked_error("The protected library is locked. Unlock it before opening its folder.")),
        Some(s) => {
            let path = s.library_path.clone();
            let found = probe(path);
            match validate_existing_library(found) {
                Ok(_) => Ok(s.library_path.clone()),
                Err(e) => Err(e),
            }
        },
    }
}

/// `read_marker` gave, for `path`, a marker whose password wrap opens with `password` to `key`.
pub open spec fn opens_with_password<R: FnOnce(String) -> Result<LibraryMarker, SetupLibraryError>>(
    read_marker: R,
    path: Seq<char>,
    password: Seq<char>,
    key: Seq<u8>,
) -> bool {
    exists|p: String, m: LibraryMarker|
        #![trigger read_marker.ensures((p,), Ok::<LibraryMarker, SetupLibraryError>(m))]
        {
            &&& p@ == path
            &&& read_marker.ensures((p,), Ok::<LibraryMarker, SetupLibraryError>(m))
            &&& unwrap_spec(m.password_wrap, password) == Some(key)
        }
}

/// `read_marker` gave, for `path`, a marker whose recovery wrap opens with `answer` to `key`.
pub open spec fn opens_with_answer<R: FnOnce(String) -> Result<LibraryMarker, SetupLibraryError>>(
    read_marker: R,
    path: Seq<char>,
    answer: Seq<char>,
    key: Seq<u8>,
) -> bool {
    exists|p: String, m: LibraryMarker|
        #![trigger read_marker.ensures((p,), Ok::<LibraryMarker, SetupLibraryError>(m))]
        {
            &&& p@ == path
            &&& read_marker.ensures((p,), Ok::<LibraryMarker, SetupLibraryError>(m))
            &&& unwrap_spec(m.recovery_wrap, answer) == Some(key)
        }
}

/// Unlocks the library in `folder_path` with its password. `read_marker` reads and validates
/// the marker of the trimmed folder; `check_catalogue` opens the catalogue with the key and
/// migrates it. The session is established only when both succeed.
pub fn unlock_library(
    session: &mut LibrarySession,
    folder_path: &str,
    request: UnlockLibraryRequest,
    read_marker: impl FnOnce(String) -> Result<LibraryMarker, SetupLibraryError>,
    check_catalogue: impl FnOnce(&Vec<u8>) -> Result<(), SetupLibraryError>,
) -> (r: Result<UnlockLibraryResult, SetupLibraryError>)
    requires
        forall|path: String| request.password@.len() != 0 ==> read_marker.requires((path,)),
        forall|key: &Vec<u8>|
            request.password@.len() != 0 && opens_with_password(
                read_marker,
                trim_spec(folder_path@),
                request.password@,
                key@,
            ) ==> check_catalogue.requires((key,)),
    ensures
        request.password@.len() == 0 ==> fails_with(
            r,
            "missing_password"@,
            "Enter your library password."@,
        ),
        request.password@.len() != 0 ==> exists|folder: String, marker: Result<LibraryMarker, SetupLibraryError>|
            {
                &&& folder@ == trim_spec(folder_path@)
                &&& read_marker.ensures((folder,), marker)
                &&& match marker {
                    Err(e) => r == Err::<UnlockLibraryResult, SetupLibraryError>(e),
                    Ok(m) => match unwrap_spec(m.password_wrap, request.password@) {
                        None => fails_with(
                            r,
                            "incorrect_credentials"@,
                            "The password or recovery answer is incorrect."@,
                        ),
                        Some(key) => exists|k: Vec<u8>, checked: Result<(), SetupLibraryError>|
                            {
                                &&& k@ == key
                                &&& check_catalogue.ensures((&k,), checked)
                                &&& match checked {
                                    Err(e) => r == Err::<UnlockLibraryResult, SetupLibraryError>(e),
                                    Ok(_) => (r matches Ok(res) && res.folder_path@ == folder@
                                        && res.message@
                                        == "Protected library unlocked. Your media files remain unchanged."@)
                                        && unlocked_at(*final(session), folder@, key),
                                }
                            },
                    },
                }
            },
        r is Err ==> *final(session) == *old(session),
{
    if request.password.as_str().unicode_len() == 0 {
        return Err(SetupLibraryError::new("missing_password", "Enter your library password."));
    }
    let folder = trim(folder_path);
    let ghost folder_g = folder;
    let marker = read_marker(folder.clone());
    let marker = match marker {
        Ok(m) => m,
        Err(e) => {
            return Err(e);
        },
    };
    let database_key = unwrap_key(&marker.password_wrap, request.password.as_str())?;
    assert(read_marker.ensures((folder_g,), Ok::<LibraryMarker, SetupLibraryError>(marker)));
    assert(opens_with_password(read_marker, trim_spec(folder_path@), request.password@, database_key@));
    let checked = check_catalogue(&database_key);
    match checked {
        Ok(_) => {},
        Err(e) => {
            return Err(e);
        },
    }
    session.establish(folder.clone(), database_key);
    Ok(
        UnlockLibraryResult {
            folder_path: folder,
            message: String::from_str("Protected library unlocked. Your media files remain unchanged."),
        },
    )
}


/// A request to create a protected library in an empty folder.
#[derive(Debug)]
pub struct SetupLibraryRequest {
    pub folder_path: String,
    pub password: String,
    pub password_confirmation: String,
    pub recovery_question: String,
    pub recovery_answer: String,
}

/// The outcome of creating a library.
#[derive(Debug)]
pub struct SetupLibraryResult {
    pub folder_path: String,
    pub message: String,
}

/// A request to inspect a folder chosen as a library.
#[derive(Debug)]
pub struct InspectLibraryFolderRequest {
    pub folder_path: String,
}

/// The kind of a chosen library folder: `"new"` (empty) or `"existing"` (a library).
#[derive(Debug)]
pub struct InspectLibraryFolderResult {
    pub folder_path: String,
    pub state: &'static str,
}

/// A request to open a library in a chosen folder with its password.
#[derive(Debug)]
pub struct OpenExistingLibraryRequest {
    pub folder_path: String,
    pub unlock: UnlockLibraryRequest,
}

/// A request to set a new password with the recovery answer.
#[derive(Debug)]
pub struct ResetLibraryPasswordRequest {
    pub folder_path: String,
    pub recovery_answer: String,
    pub new_password: String,
    pub new_password_confirmation: String,
}

/// A request for a library's recovery question.
#[derive(Debug)]
pub struct RecoveryQuestionRequest {
    pub folder_path: String,
}

/// The remembered library: `"ready"`, `"stale"` or `"missing"`.
#[derive(Debug)]
pub struct RememberedLibraryResult {
    pub state: &'static str,
    pub folder_path: Option<String>,
}

/// A request to move managed copies to the Trash, confirmed by the password.
#[derive(Debug)]
pub struct CleanLibraryRequest {
    pub password: String,
}

/// The outcome of cleaning the library.
#[derive(Debug)]
pub struct CleanLibraryResult {
    pub moved_folder_count: usize,
    pub message: String,
}

/// A library's recovery question.
#[derive(Debug)]
pub struct RecoveryQuestionResult {
    pub question: String,
}

/// What a path names on disk, following symbolic links.
#[derive(Debug)]
pub enum EntryKind {
    Missing,
    Directory,
    Other,
}

/// What was found at a folder chosen for a library.
#[derive(Debug)]
pub struct FolderProbe {
    pub kind: EntryKind,
    /// Whether the folder lists no entry; `None` when it cannot be listed.
    pub is_empty: Option<bool>,
    /// Whether the state folder holds a marker file.
    pub marker_is_file: bool,
    /// Whether the state folder holds a catalogue file.
    pub database_is_file: bool,
}

/// The marker file of a library folder as read from disk.
#[derive(Debug)]
pub enum MarkerRead {
    Unreadable,
    Malformed,
    Parsed(LibraryMarker),
}

/// What was found at a folder that should hold a library.
#[derive(Debug)]
pub struct LibraryProbe {
    pub kind: EntryKind,
    pub marker: MarkerRead,
    pub database_is_file: bool,
}

/// A remembered-location file of the application settings as read from disk.
#[derive(Debug)]
pub enum PointerRead {
    Unreadable,
    Malformed,
    Parsed { format_version: u32, folder_path: String },
}

/// The setup request is complete: a folder, a confirmed password, a recovery question and a
/// recovery answer.
pub open spec fn setup_request_ok(request: SetupLibraryRequest) -> bool {
    &&& trim_spec(request.folder_path@).len() != 0
    &&& request.password@.len() != 0
    &&& request.password@ == request.password_confirmation@
    &&& trim_spec(request.recovery_question@).len() != 0
    &&& trim_spec(request.recovery_answer@).len() != 0
}

/// `e` is the error for the first missing or mismatched part of the setup request.
pub open spec fn setup_request_error(request: SetupLibraryRequest, e: SetupLibraryError) -> bool {
    if trim_spec(request.folder_path@).len() == 0 {
        setup_error_is(e, "missing_folder"@, "Choose an empty folder for the managed library."@)
    } else if request.password@.len() == 0 {
        setup_error_is(e, "missing_password"@, "Enter a password."@)
    } else if request.password@ != request.password_confirmation@ {
        setup_error_is(e, "password_mismatch"@, "The password confirmation does not match."@)
    } else if trim_spec(request.recovery_question@).len() == 0 {
        setup_error_is(e, "missing_recovery_question"@, "Enter a recovery question."@)
    } else {
        setup_error_is(e, "missing_recovery_answer"@, "Enter a recovery answer."@)
    }
}

/// Checks a setup request before anything on disk is touched.
pub fn validate_request(request: &SetupLibraryRequest) -> (r: Result<(), SetupLibraryError>)
    ensures
        match r {
            Ok(_) => setup_request_ok(*request),
            Err(e) => !setup_request_ok(*request) && setup_request_error(*request, e),
        },
{
    if is_blank(request.folder_path.as_str()) {
        return Err(
            SetupLibraryError::new(
                "missing_folder",
                "Choose an empty folder for the managed library.",
            ),
        );
    }
    if request.password.as_str().unicode_len() == 0 {
        return Err(SetupLibraryError::new("missing_password", "Enter a password."));
    }
    if request.password != request.password_confirmation {
        return Err(
            SetupLibraryError::new("password_mismatch", "The password confirmation does not match."),
        );
    }
    if is_blank(request.recovery_question.as_str()) {
        return Err(
            SetupLibraryError::new("missing_recovery_question", "Enter a recovery question."),
        );
    }
    if is_blank(request.recovery_answer.as_str()) {
        return Err(SetupLibraryError::new("missing_recovery_answer", "Enter a recovery answer."));
    }
    Ok(())
}

/// The chosen folder exists, can be listed, and is empty.
pub open spec fn empty_folder_ok(folder: FolderProbe) -> bool {
    folder.kind is Directory && folder.is_empty == Some(true)
}

/// `e` is the error for a chosen folder that cannot take a new library.
pub open spec fn empty_folder_error(folder: FolderProbe, e: SetupLibraryError) -> bool {
    match folder.kind {
        EntryKind::Missing => setup_error_is(
            e,
            "folder_unavailable"@,
            "The selected folder is unavailable."@,
        ),
        EntryKind::Other => setup_error_is(e, "not_a_folder"@, "Select a folder, not a file."@),
        EntryKind::Directory => if folder.is_empty is None {
            setup_error_is(
                e,
                "folder_not_writable"@,
                "The selected folder cannot be read or written."@,
            )
        } else {
            setup_error_is(
                e,
                "folder_not_empty"@,
                "Choose an empty folder. Existing files and folders are never changed."@,
            )
        },
    }
}

/// Accepts only an existing, listable, empty folder, so that setup never touches user content.
pub fn validate_empty_writable_folder(folder: &FolderProbe) -> (r: Result<(), SetupLibraryError>)
    ensures
        match r {
            Ok(_) => empty_folder_ok(*folder),
            Err(e) => !empty_folder_ok(*folder) && empty_folder_error(*folder, e),
        },
{
    match folder.kind {
        EntryKind::Missing => Err(
            SetupLibraryError::new("folder_unavailable", "The selected folder is unavailable."),
        ),
        EntryKind::Other => Err(
            SetupLibraryError::new("not_a_folder", "Select a folder, not a file."),
        ),
        EntryKind::Directory => match folder.is_empty {
            None => Err(
                SetupLibraryError::new(
                    "folder_not_writable",
                    "The selected folder cannot be read or written.",
                ),
            ),
            Some(false) => Err(
                SetupLibraryError::new(
                    "folder_not_empty",
                    "Choose an empty folder. Existing files and folders are never changed.",
                ),
            ),
            Some(true) => Ok(()),
        },
    }
}

/// Classifies a chosen folder: empty (`"new"`), an existing library (`"existing"`), or refused.
pub fn inspect_library_folder(request: InspectLibraryFolderRequest, folder: &FolderProbe) -> (r:
    Result<InspectLibraryFolderResult, SetupLibraryError>)
    ensures
        folder.kind is Missing ==> fails_with(
            r,
            "folder_unavailable"@,
            "The selected folder is unavailable."@,
        ),
        folder.kind is Other ==> fails_with(r, "not_a_folder"@, "Select a folder, not a file."@),
        folder.kind is Directory && folder.is_empty is None ==> fails_with(
            r,
            "folder_unavailable"@,
            "The selected folder cannot be inspected."@,
        ),
        folder.kind is Directory && folder.is_empty == Some(true) ==> (r matches Ok(res)
            && res.state@ == "new"@ && res.folder_path@ == trim_spec(request.folder_path@)),
        folder.kind is Directory && folder.is_empty == Some(false) && folder.marker_is_file
            && folder.database_is_file ==> (r matches Ok(res) && res.state@ == "existing"@
            && res.folder_path@ == trim_spec(request.folder_path@)),
        folder.kind is Directory && folder.is_empty == Some(false) && !(folder.marker_is_file
            && folder.database_is_file) ==> fails_with(
            r,
            "folder_not_empty"@,
            "This folder is not empty and is not a recognized Photo Handler library. Nothing was changed."@,
        ),
{
    let folder_path = trim(request.folder_path.as_str());
    match folder.kind {
        EntryKind::Missing => Err(
            SetupLibraryError::new("folder_unavailable", "The selected folder is unavailable."),
        ),
        EntryKind::Other => Err(
            SetupLibraryError::new("not_a_folder", "Select a folder, not a file."),
        ),
        EntryKind::Directory => match folder.is_empty {
            None => Err(
                SetupLibraryError::new(
                    "folder_unavailable",
                    "The selected folder cannot be inspected.",
                ),
            ),
            Some(true) => Ok(InspectLibraryFolderResult { folder_path, state: "new" }),
            Some(false) => {
                if folder.marker_is_file && folder.database_is_file {
                    Ok(InspectLibraryFolderResult { folder_path, state: "existing" })
                } else {
                    Err(
                        SetupLibraryError::new(
                            "folder_not_empty",
                            "This folder is not empty and is not a recognized Photo Handler library. Nothing was changed.",
                        ),
                    )
                }
            },
        },
    }
}

/// What validating a chosen library folder from what was found there gives: its marker, or
/// the first failed check.
pub open spec fn existing_library_outcome(probe: LibraryProbe, r: Result<LibraryMarker, SetupLibraryError>) -> bool {
    &&& (probe.kind is Missing ==> fails_with(
        r,
        "folder_unavailable"@,
        "The selected library folder is unavailable."@,
    ))
    &&& (probe.kind is Other ==> fails_with(r, "not_a_folder"@, "Select a folder, not a file."@))
    &&& (probe.kind is Directory && probe.marker is Unreadable ==> fails_with(
        r,
        "library_unrecognized"@,
        "This folder is not a recognized Photo Handler library."@,
    ))
    &&& (probe.kind is Directory && probe.marker is Malformed ==> fails_with(
        r,
        "library_unrecognized"@,
        "This folder has an invalid Photo Handler marker."@,
    ))
    &&& (probe.kind is Directory && probe.marker is Parsed ==> {
        let m = probe.marker->0;
        if m.format_version != MARKER_FORMAT_VERSION {
            fails_with(
                r,
                "library_version_unsupported"@,
                "This Photo Handler library uses an unsupported version."@,
            )
        } else if !probe.database_is_file {
            fails_with(
                r,
                "library_unrecognized"@,
                "This folder is missing its protected catalogue."@,
            )
        } else {
            r == Ok::<LibraryMarker, SetupLibraryError>(m)
        }
    })
}

/// The marker of a library folder, once the folder, its marker and its catalogue check out.
pub fn validate_existing_library(probe: LibraryProbe) -> (r: Result<LibraryMarker, SetupLibraryError>)
    ensures
        existing_library_outcome(probe, r),
{
    match probe.kind {
        EntryKind::Missing => {
            return Err(
                SetupLibraryError::new(
                    "folder_unavailable",
                    "The selected library folder is unavailable.",
                ),
            );
        },
        EntryKind::Other => {
            return Err(SetupLibraryError::new("not_a_folder", "Select a folder, not a file."));
        },
        EntryKind::Directory => {},
    }
    let marker = match probe.marker {
        MarkerRead::Unreadable => {
            return Err(
                SetupLibraryError::new(
                    "library_unrecognized",
                    "This folder is not a recognized Photo Handler library.",
                ),
            );
        },
        MarkerRead::Malformed => {
            return Err(
                SetupLibraryError::new(
                    "library_unrecognized",
                    "This folder has an invalid Photo Handler marker.",
                ),
            );
        },
        MarkerRead::Parsed(m) => m,
    };
    if marker.format_version != MARKER_FORMAT_VERSION {
        return Err(
            SetupLibraryError::new(
                "library_version_unsupported",
                "This Photo Handler library uses an unsupported version.",
            ),
        );
    }
    if !probe.database_is_file {
        return Err(
            SetupLibraryError::new(
                "library_unrecognized",
                "This folder is missing its protected catalogue.",
            ),
        );
    }
    Ok(marker)
}

/// The pointer that remembering `folder` writes in the settings, as it reads back.
pub open spec fn remembered_pointer(folder: String) -> PointerRead {
    PointerRead::Parsed { format_version: MARKER_FORMAT_VERSION, folder_path: folder }
}

/// What reading the remembered library location from `pointer` gives.
pub open spec fn remembered_path_is(pointer: PointerRead, r: Result<String, SetupLibraryError>) -> bool {
    &&& (pointer is Unreadable ==> fails_with(
        r,
        "library_not_remembered"@,
        "No protected library has been selected."@,
    ))
    &&& (pointer is Malformed ==> fails_with(
        r,
        "library_pointer_invalid"@,
        "The remembered library location is invalid."@,
    ))
    &&& (pointer matches PointerRead::Parsed { format_version, folder_path } ==> {
        if format_version != MARKER_FORMAT_VERSION || trim_spec(folder_path@).len() == 0 {
            fails_with(
                r,
                "library_pointer_invalid"@,
                "The remembered library location is invalid."@,
            )
        } else {
            r == Ok::<String, SetupLibraryError>(folder_path)
        }
    })
}

/// A remembered library location reads back unchanged: the pointer written for a folder that
/// is not blank gives that folder.
pub proof fn lemma_remembered_library_path_reads_back(folder: String, r: Result<String, SetupLibraryError>)
    requires
        trim_spec(folder@).len() != 0,
        remembered_path_is(remembered_pointer(folder), r),
    ensures
        r == Ok::<String, SetupLibraryError>(folder),
{
}

/// The remembered library folder, from the settings file that holds it.
pub fn read_remembered_library_path(pointer: PointerRead) -> (r: Result<String, SetupLibraryError>)
    ensures
        remembered_path_is(pointer, r),
{
    match pointer {
        PointerRead::Unreadable => Err(
            SetupLibraryError::new(
                "library_not_remembered",
                "No protected library has been selected.",
            ),
        ),
        PointerRead::Malformed => Err(
            SetupLibraryError::new(
                "library_pointer_invalid",
                "The remembered library location is invalid.",
            ),
        ),
        PointerRead::Parsed { format_version, folder_path } => {
            if format_version != MARKER_FORMAT_VERSION || is_blank(folder_path.as_str()) {
                Err(
                    SetupLibraryError::new(
                        "library_pointer_invalid",
                        "The remembered library location is invalid.",
                    ),
                )
            } else {
                Ok(folder_path)
            }
        },
    }
}

/// The state of the remembered library: `"ready"` when it validates, `"stale"` when it does
/// not or its location is invalid, `"missing"` when none is remembered.
pub fn remembered_library(
    pointer: PointerRead,
    validate_library: impl FnOnce(String) -> Result<LibraryMarker, SetupLibraryError>,
) -> (r: Result<RememberedLibraryResult, SetupLibraryError>)
    requires
        forall|path: String| validate_library.requires((path,)),
    ensures
        pointer is Unreadable ==> (r matches Ok(res) && res.state@ == "missing"@
            && res.folder_path is None),
        pointer is Malformed ==> (r matches Ok(res) && res.state@ == "stale"@
            && res.folder_path is None),
        pointer matches PointerRead::Parsed { format_version, folder_path } ==> {
            if format_version != MARKER_FORMAT_VERSION || trim_spec(folder_path@).len() == 0 {
                r matches Ok(res) && res.state@ == "stale"@ && res.folder_path is None
            } else {
                exists|checked: Result<LibraryMarker, SetupLibraryError>|
                    {
                        &&& validate_library.ensures((folder_path,), checked)
                        &&& r matches Ok(res)
                        &&& res.folder_path == Some(folder_path)
                        &&& res.state@ == (if checked is Ok {
                            "ready"@
                        } else {
                            "stale"@
                        })
                    }
            }
        },
{
    if let PointerRead::Unreadable = pointer {
        return Ok(RememberedLibraryResult { state: "missing", folder_path: None });
    }
    match read_remembered_library_path(pointer) {
        Ok(folder_path) => {
            let checked = validate_library(folder_path.clone());
            match checked {
                Ok(_) => Ok(RememberedLibraryResult { state: "ready", folder_path: Some(folder_path) }),
                Err(_) => Ok(RememberedLibraryResult { state: "stale", folder_path: Some(folder_path) }),
            }
        },
        Err(_) => Ok(RememberedLibraryResult { state: "stale", folder_path: None }),
    }
}

/// The recovery question of the library in `folder_path`, read from its marker.
pub fn recovery_question(
    folder_path: &str,
    read_marker: impl FnOnce(String) -> Result<LibraryMarker, SetupLibraryError>,
) -> (r: Result<RecoveryQuestionResult, SetupLibraryError>)
    requires
        forall|path: String| read_marker.requires((path,)),
    ensures
        exists|folder: String, marker: Result<LibraryMarker, SetupLibraryError>|
            {
                &&& folder@ == trim_spec(folder_path@)
                &&& read_marker.ensures((folder,), marker)
                &&& match marker {
                    Ok(m) => r matches Ok(res) && res.question == m.recovery_question,
                    Err(e) => r == Err::<RecoveryQuestionResult, SetupLibraryError>(e),
                }
            },
{
    let folder = trim(folder_path);
    match read_marker(folder) {
        Ok(marker) => Ok(RecoveryQuestionResult { question: marker.recovery_question }),
        Err(e) => Err(e),
    }
}


/// The folder, inside a library, that holds its marker and catalogue.
pub const STATE_DIR: &'static str = ".photo-handler";

/// Finder metadata that may sit beside managed date folders.
pub const FINDER_METADATA: &'static str = ".DS_Store";

/// An ASCII decimal digit.
pub open spec fn is_digit(c: char) -> bool {
    '0' <= c && c <= '9'
}

/// A managed year folder name: four ASCII digits.
pub open spec fn year_name_spec(name: Seq<char>) -> bool {
    name.len() == 4 && forall|i: int| 0 <= i < 4 ==> #[trigger] is_digit(name[i])
}

/// A managed date folder name: `DDDD-DD-DD` in ASCII digits that `chrono` reads as a date.
pub open spec fn date_folder_name_spec(name: Seq<char>) -> bool {
    &&& name.len() == 10
    &&& name[4] == '-'
    &&& name[7] == '-'
    &&& forall|i: int| 0 <= i < 10 && i != 4 && i != 7 ==> #[trigger] is_digit(name[i])
    &&& chrono_parse_date(name, DATE_FORMAT@) is Some
}

/// Whether `name` is a managed year folder name.
pub fn is_year_name(name: &str) -> (r: bool)
    ensures
        r == year_name_spec(name@),
{
    let chars = str_chars(name);
    if chars.len() != 4 {
        return false;
    }
    let mut i: usize = 0;
    while i < 4
        invariant
            chars@ == name@,
            chars@.len() == 4,
            i <= 4,
            forall|k: int| 0 <= k < i ==> #[trigger] is_digit(chars@[k]),
        decreases 4 - i,
    {
        if !('0' <= chars[i] && chars[i] <= '9') {
            assert(!is_digit(name@[i as int]));
            return false;
        }
        i = i + 1;
    }
    true
}

/// Whether `name` is a managed date folder name.
pub fn is_date_folder_name(name: &str) -> (r: bool)
    ensures
        r == date_folder_name_spec(name@),
{
    let chars = str_chars(name);
    if chars.len() != 10 || chars[4] != '-' || chars[7] != '-' {
        return false;
    }
    let mut i: usize = 0;
    while i < 10
        invariant
            chars@ == name@,
            chars@.len() == 10,
            i <= 10,
            forall|k: int| 0 <= k < i && k != 4 && k != 7 ==> #[trigger] is_digit(chars@[k]),
        decreases 10 - i,
    {
        if i != 4 && i != 7 && !('0' <= chars[i] && chars[i] <= '9') {
            assert(!is_digit(name@[i as int]));
            return false;
        }
        i = i + 1;
    }
    parse_date(name, DATE_FORMAT).is_some()
}

/// An entry of a folder listing, by its own file type (links are not followed).
#[derive(Debug)]
pub struct DirEntryInfo {
    pub name: String,
    pub is_file: bool,
    pub is_dir: bool,
    pub is_symlink: bool,
}

/// Finder metadata beside date folders, which cleanup ignores.
pub open spec fn is_finder_metadata(e: DirEntryInfo) -> bool {
    e.is_file && e.name@ == FINDER_METADATA@
}

/// A real (not linked) folder with a date folder name.
pub open spec fn is_date_folder_entry(e: DirEntryInfo) -> bool {
    e.is_dir && !e.is_symlink && date_folder_name_spec(e.name@)
}

/// The names of the entries that are not Finder metadata.
pub open spec fn non_metadata_names(entries: Seq<DirEntryInfo>) -> Seq<Seq<char>>
    decreases entries.len(),
{
    if entries.len() == 0 {
        seq![]
    } else {
        let rest = non_metadata_names(entries.drop_last());
        if is_finder_metadata(entries.last()) {
            rest
        } else {
            rest.push(entries.last().name@)
        }
    }
}

/// Whether a library entry is a managed year folder to look into: a real folder with a year
/// name, never the state folder.
pub fn is_managed_year_entry(entry: &DirEntryInfo) -> (r: bool)
    ensures
        r == (entry.name@ != STATE_DIR@ && entry.is_dir && !entry.is_symlink && year_name_spec(
            entry.name@,
        )),
{
    if same_text(entry.name.as_str(), STATE_DIR) {
        return false;
    }
    entry.is_dir && !entry.is_symlink && is_year_name(entry.name.as_str())
}

/// The date folders of a year folder, by name and in listing order. A year folder that holds
/// anything but date folders and Finder metadata is not managed media: none of it is returned.
pub fn managed_date_folders(entries: &Vec<DirEntryInfo>) -> (r: Vec<String>)
    ensures
        (forall|i: int| 0 <= i < entries@.len() ==> is_finder_metadata(#[trigger] entries@[i])
            || is_date_folder_entry(entries@[i])) ==> string_views(r@) == non_metadata_names(
            entries@,
        ),
        !(forall|i: int| 0 <= i < entries@.len() ==> is_finder_metadata(#[trigger] entries@[i])
            || is_date_folder_entry(entries@[i])) ==> r@.len() == 0,
{
    let mut names: Vec<String> = Vec::new();
    let mut i: usize = 0;
    while i < entries.len()
        invariant
            0 <= i <= entries@.len(),
            forall|k: int| 0 <= k < i ==> is_finder_metadata(#[trigger] entries@[k])
                || is_date_folder_entry(entries@[k]),
            string_views(names@) == non_metadata_names(entries@.take(i as int)),
        decreases entries@.len() - i,
    {
        let entry = &entries[i];
        proof {
            assert(entries@.take(i + 1).drop_last() =~= entries@.take(i as int));
        }
        if entry.is_file && same_text(entry.name.as_str(), FINDER_METADATA) {
            i = i + 1;
            continue;
        }
        if !entry.is_dir || entry.is_symlink || !is_date_folder_name(entry.name.as_str()) {
            return Vec::new();
        }
        names.push(entry.name.clone());
        proof {
            assert(string_views(names@) =~= non_metadata_names(entries@.take(i as int)).push(
                entry.name@,
            ));
        }
        i = i + 1;
    }
    proof {
        assert(entries@.take(entries@.len() as int) =~= entries@);
    }
    names
}

/// The message of a cleanup that could not move the date folders named `failed`.
pub open spec fn cleanup_incomplete_message(failed: Seq<Seq<char>>) -> Seq<char> {
    "Could not move "@ + join_spec(failed, ", "@)
        + " to the operating system Trash. Review data and the remembered import folder were kept so you can retry."@
}

impl SetupLibraryError {
    /// The error for a cleanup that left some date folders in place: they are listed by name
    /// and in the message.
    pub fn cleanup_incomplete(failed_targets: Vec<String>) -> (r: Self)
        ensures
            r.code@ == "cleanup_incomplete"@,
            r.message@ == cleanup_incomplete_message(string_views(failed_targets@)),
            r.failed_targets@ == failed_targets@,
    {
        let summary = join(&failed_targets, ", ");
        let mut message = String::from_str("Could not move ");
        message.append(summary.as_str());
        message.append(
            " to the operating system Trash. Review data and the remembered import folder were kept so you can retry.",
        );
        SetupLibraryError { code: "cleanup_incomplete", message, failed_targets }
    }
}

/// The names that a cleanup reports for the targets that could not be moved: the final
/// component of each failed target, or nothing where it has none.
pub open spec fn failed_names(targets: Seq<String>, moved: Seq<Result<(), String>>) -> Seq<
    Seq<char>,
>
    decreases targets.len(),
{
    if targets.len() == 0 || moved.len() != targets.len() {
        seq![]
    } else {
        let rest = failed_names(targets.drop_last(), moved.drop_last());
        if moved.last() is Ok {
            rest
        } else {
            rest.push(
                match std_file_name(targets.last()@) {
                    Some(n) => n,
                    None => seq![],
                },
            )
        }
    }
}

/// `moved[i]` is what `move_to_trash` returned for `targets[i]`, in a run over all targets.
pub open spec fn trash_outcomes<F: Fn(&String) -> Result<(), String>>(
    move_to_trash: F,
    targets: Seq<String>,
    moved: Seq<Result<(), String>>,
) -> bool {
    &&& moved.len() == targets.len()
    &&& forall|i: int|
        0 <= i < targets.len() ==> move_to_trash.ensures((&targets[i],), #[trigger] moved[i])
}

/// Cleans the managed copies of the unlocked library, confirmed by its password.
/// `read_marker` validates the library folder and opens its catalogue; `list_targets` lists its
/// managed date folders; `move_to_trash` moves one to the Trash; `clear_review_data` clears the
/// review history and the remembered import folder once every folder has been moved.
pub fn clean_library_with_trash(
    session: &LibrarySession,
    request: CleanLibraryRequest,
    read_marker: impl FnOnce(String) -> Result<LibraryMarker, SetupLibraryError>,
    list_targets: impl FnOnce(String) -> Result<Vec<String>, SetupLibraryError>,
    move_to_trash: impl Fn(&String) -> Result<(), String>,
    clear_review_data: impl FnOnce(&Vec<String>) -> Result<(), SetupLibraryError>,
) -> (r: Result<CleanLibraryResult, SetupLibraryError>)
    requires
        forall|path: String|
            request.password@.len() != 0 && session.current is Some ==> read_marker.requires(
                (path,),
            ),
        forall|path: String|
            request.password@.len() != 0 && session.current is Some && (exists|key: Seq<u8>|
                opens_with_password(
                    read_marker,
                    session.current->0.library_path@,
                    request.password@,
                    key,
                )) ==> list_targets.requires((path,)),
        forall|target: &String|
            request.password@.len() != 0 && session.current is Some && (exists|key: Seq<u8>|
                opens_with_password(
                    read_marker,
                    session.current->0.library_path@,
                    request.password@,
                    key,
                )) && (exists|listed: Vec<String>|
                #![trigger list_targets.ensures((session.current->0.library_path,), Ok::<Vec<String>, SetupLibraryError>(listed))]
                list_targets.ensures(
                    (session.current->0.library_path,),
                    Ok::<Vec<String>, SetupLibraryError>(listed),
                ) && listed@.contains(*target)) ==> #[trigger] move_to_trash.requires((target,)),
        forall|moved: &Vec<String>|
            request.password@.len() != 0 && session.current is Some && list_targets.ensures(
                (session.current->0.library_path,),
                Ok::<Vec<String>, SetupLibraryError>(*moved),
            ) && (forall|k: int|
                0 <= k < moved@.len() ==> move_to_trash.ensures(
                    (&#[trigger] moved@[k],),
                    Ok::<(), String>(()),
                )) ==> #[trigger] clear_review_data.requires((moved,)),
    ensures
        request.password@.len() == 0 ==> fails_with(
            r,
            "missing_password"@,
            "Enter your current library password to clean managed copies."@,
        ),
        request.password@.len() != 0 && session.current is None ==> fails_with(
            r,
            "library_locked"@,
            "The protected library is locked. Unlock it before reviewing media."@,
        ),
        request.password@.len() != 0 && session.current is Some ==> exists|
            marker: Result<LibraryMarker, SetupLibraryError>,
        |
            {
                &&& read_marker.ensures((session.current->0.library_path,), marker)
                &&& match marker {
                    Err(e) => r == Err::<CleanLibraryResult, SetupLibraryError>(e),
                    Ok(m) => if unwrap_spec(m.password_wrap, request.password@) is None {
                        fails_with(
                            r,
                            "incorrect_credentials"@,
                            "The password or recovery answer is incorrect."@,
                        )
                    } else {
                        exists|listed: Result<Vec<String>, SetupLibraryError>|
                            {
                                &&& list_targets.ensures((session.current->0.library_path,), listed)
                                &&& match listed {
                                    Err(e) => r == Err::<CleanLibraryResult, SetupLibraryError>(e),
                                    Ok(targets) => exists|moved: Seq<Result<(), String>>|
                                        {
                                            &&& #[trigger] trash_outcomes(
                                                move_to_trash,
                                                targets@,
                                                moved,
                                            )
                                            &&& if exists|i: int| 0 <= i < moved.len() && moved[i] is Err {
                                                r matches Err(e) && e.code@ == "cleanup_incomplete"@
                                                    && string_views(e.failed_targets@)
                                                    == failed_names(targets@, moved)
                                                    && e.message@ == cleanup_incomplete_message(
                                                    failed_names(targets@, moved),
                                                )
                                            } else {
                                                exists|cleared: Result<(), SetupLibraryError>|
                                                    {
                                                        &&& clear_review_data.ensures((&targets,), cleared)
                                                        &&& match cleared {
                                                            Err(e) => r == Err::<
                                                                CleanLibraryResult,
                                                                SetupLibraryError,
                                                            >(e),
                                                            Ok(_) => r matches Ok(res)
                                                                && res.moved_folder_count
                                                                == targets@.len()
                                                                && res.message@
                                                                == "Managed date folders were moved to the operating system Trash. Review history and the remembered import folder were cleared; protected library setup remains unlocked."@,
                                                        }
                                                    }
                                            }
                                        },
                                }
                            }
                    },
                }
            },
{
    if request.password.as_str().unicode_len() == 0 {
        return Err(
            SetupLibraryError::new(
                "missing_password",
                "Enter your current library password to clean managed copies.",
            ),
        );
    }
    let active = catalogue_session(session)?;
    let library_path = active.library_path.clone();
    let ghost path_g = library_path;
    let marker_result = read_marker(library_path.clone());
    assert(library_path == session.current->0.library_path);
    let marker = match marker_result {
        Ok(m) => m,
        Err(e) => {
            return Err(e);
        },
    };
    assert(read_marker.ensures((path_g,), Ok::<LibraryMarker, SetupLibraryError>(marker)));
    let mut verified_key = match unwrap_key(&marker.password_wrap, request.password.as_str()) {
        Ok(k) => k,
        Err(e) => {
            return Err(e);
        },
    };
    let ghost key_g = verified_key@;
    assert(opens_with_password(read_marker, path_g@, request.password@, key_g));
    wipe(&mut verified_key);
    let listed = list_targets(library_path);
    let targets = match listed {
        Ok(t) => t,
        Err(e) => {
            return Err(e);
        },
    };
    assert(list_targets.ensures((path_g,), Ok::<Vec<String>, SetupLibraryError>(targets)));
    let mut failed: Vec<String> = Vec::new();
    let ghost mut moved: Seq<Result<(), String>> = seq![];
    let mut i: usize = 0;
    while i < targets.len()
        invariant
            0 <= i <= targets@.len(),
            trash_outcomes(move_to_trash, targets@.take(i as int), moved),
            forall|target: &String| targets@.contains(*target) ==> move_to_trash.requires((target,)),
            string_views(failed@) == failed_names(targets@.take(i as int), moved),
            failed@.len() > 0 <==> exists|k: int| 0 <= k < i && moved[k] is Err,
        decreases targets@.len() - i,
    {
        assert(targets@.contains(targets@[i as int]));
        let outcome = move_to_trash(&targets[i]);
        proof {
            assert(targets@.take(i + 1).drop_last() =~= targets@.take(i as int));
            assert(moved.push(outcome).drop_last() =~= moved);
        }
        if outcome.is_err() {
            let name = match file_name(targets[i].as_str()) {
                Some(n) => n,
                None => String::new(),
            };
            failed.push(name);
            proof {
                assert(string_views(failed@) =~= failed_names(targets@.take(i as int), moved).push(
                    match std_file_name(targets@[i as int]@) {
                        Some(n) => n,
                        None => seq![],
                    },
                ));
            }
        }
        proof {
            let new_moved = moved.push(outcome);
            let seen = targets@.take(i + 1);
            assert forall|k: int| 0 <= k < seen.len() implies move_to_trash.ensures(
                (&seen[k],),
                #[trigger] new_moved[k],
            ) by {
                if k < i {
                    assert(seen[k] == targets@.take(i as int)[k]);
                    assert(moved[k] == new_moved[k]);
                }
            }
            if outcome.is_err() {
                assert(new_moved[i as int] is Err);
            }
            moved = new_moved;
        }
        i = i + 1;
    }
    proof {
        assert(targets@.take(targets@.len() as int) =~= targets@);
    }
    assert(trash_outcomes(move_to_trash, targets@, moved));
    if failed.len() > 0 {
        return Err(SetupLibraryError::cleanup_incomplete(failed));
    }
    assert forall|k: int| 0 <= k < targets@.len() implies move_to_trash.ensures(
        (&#[trigger] targets@[k],),
        Ok::<(), String>(()),
    ) by {
        assert(move_to_trash.ensures((&targets@[k],), moved[k]));
        assert(moved[k] is Ok);
        let u = moved[k]->Ok_0;
        assert(moved[k] == Ok::<(), String>(u));
    }
    clear_review_data(&targets)?;
    Ok(
        CleanLibraryResult {
            moved_folder_count: targets.len(),
            message: String::from_str(
                "Managed date folders were moved to the operating system Trash. Review history and the remembered import folder were cleared; protected library setup remains unlocked.",
            ),
        },
    )
}


/// The marker of a new library: format 1, the catalogue key sealed under the password and
/// under the recovery answer, and the trimmed recovery question.
pub fn new_library_marker(database_key: &Vec<u8>, request: &SetupLibraryRequest) -> (r: Result<
    LibraryMarker,
    SetupLibraryError,
>)
    requires
        database_key@.len() == KEY_BYTES,
    ensures
        request.password@.len() <= MAX_SECRET_CHARS && request.recovery_answer@.len()
            <= MAX_SECRET_CHARS ==> r is Ok,
        match r {
            Ok(m) => {
                &&& m.format_version == MARKER_FORMAT_VERSION
                &&& unwrap_spec(m.password_wrap, request.password@) == Some(database_key@)
                &&& unwrap_spec(m.recovery_wrap, request.recovery_answer@) == Some(database_key@)
                &&& m.recovery_question@ == trim_spec(request.recovery_question@)
            },
            Err(e) => e.code@ == "initialization_failed"@,
        },
{
    let password_wrap = wrap_key(database_key, request.password.as_str())?;
    let recovery_wrap = wrap_key(database_key, request.recovery_answer.as_str())?;
    Ok(
        LibraryMarker {
            format_version: MARKER_FORMAT_VERSION,
            password_wrap,
            recovery_wrap,
            recovery_question: trim(request.recovery_question.as_str()),
        },
    )
}

/// `m` is a new library's marker for `request`, sealing `key`.
pub open spec fn marker_for(m: LibraryMarker, request: SetupLibraryRequest, key: Seq<u8>) -> bool {
    &&& m.format_version == MARKER_FORMAT_VERSION
    &&& unwrap_spec(m.password_wrap, request.password@) == Some(key)
    &&& unwrap_spec(m.recovery_wrap, request.recovery_answer@) == Some(key)
    &&& m.recovery_question@ == trim_spec(request.recovery_question@)
}

/// What making the marker of a new library gave: a key of the catalogue's length and a marker
/// for `request` that seals that key; sealing fails only for a password or recovery answer
/// longer than `MAX_SECRET_CHARS` characters.
pub open spec fn new_marker_outcome(
    request: SetupLibraryRequest,
    key: Vec<u8>,
    made: Result<LibraryMarker, SetupLibraryError>,
) -> bool {
    &&& key@.len() == KEY_BYTES
    &&& match made {
        Ok(m) => marker_for(m, request, key@),
        Err(e) => e.code@ == "initialization_failed"@ && (request.password@.len() > MAX_SECRET_CHARS
            || request.recovery_answer@.len() > MAX_SECRET_CHARS),
    }
}

/// The message of a library that was set up.
pub open spec fn setup_message() -> Seq<char> {
    "Protected library created. Only Photo Handler state was added; no media was copied, encrypted, moved, or modified."@
}

/// Creates a protected library in an empty folder. Only after the request and the folder pass
/// every check does `create_state` make a pending state folder; a fresh catalogue key is sealed
/// into a marker, `write_state` writes the catalogue and marker there, the library is unlocked,
/// and `publish_state` moves the state into place. On a failure after `create_state`,
/// `discard_state` removes the pending folder. Each step's failure is the result; when every
/// step succeeds, the result is the folder, unlocked.
pub fn setup_library(
    session: &mut LibrarySession,
    request: SetupLibraryRequest,
    folder: &FolderProbe,
    create_state: impl FnOnce() -> Result<(), SetupLibraryError>,
    write_state: impl FnOnce(&LibraryMarker, &Vec<u8>) -> Result<(), SetupLibraryError>,
    publish_state: impl FnOnce() -> Result<(), SetupLibraryError>,
    discard_state: impl FnOnce(),
) -> (r: Result<SetupLibraryResult, SetupLibraryError>)
    requires
        setup_request_ok(request) && empty_folder_ok(*folder) ==> create_state.requires(()),
        forall|m: &LibraryMarker, k: &Vec<u8>|
            setup_request_ok(request) && empty_folder_ok(*folder) && create_state.ensures(
                (),
                Ok::<(), SetupLibraryError>(()),
            ) && marker_for(*m, request, k@) ==> #[trigger] write_state.requires((m, k)),
        setup_request_ok(request) && empty_folder_ok(*folder) && (exists|
            m: &LibraryMarker,
            k: &Vec<u8>,
        | #[trigger] write_state.ensures((m, k), Ok::<(), SetupLibraryError>(())))
            ==> publish_state.requires(()),
        setup_request_ok(request) && empty_folder_ok(*folder) && create_state.ensures(
            (),
            Ok::<(), SetupLibraryError>(()),
        ) ==> discard_state.requires(()),
    ensures
        !setup_request_ok(request) ==> (r matches Err(e) && setup_request_error(request, e)),
        setup_request_ok(request) && !empty_folder_ok(*folder) ==> (r matches Err(e)
            && empty_folder_error(*folder, e)),
        !(setup_request_ok(request) && empty_folder_ok(*folder)) ==> *final(session)
            == *old(session),
        setup_request_ok(request) && empty_folder_ok(*folder) ==> exists|
            created: Result<(), SetupLibraryError>,
        |
            #![trigger create_state.ensures((), created)]
            {
                &&& create_state.ensures((), created)
                &&& match created {
                    Err(e) => r == Err::<SetupLibraryResult, SetupLibraryError>(e)
                        && *final(session) == *old(session),
                    Ok(_) => exists|k: Vec<u8>, made: Result<LibraryMarker, SetupLibraryError>|
                        #![trigger new_marker_outcome(request, k, made)]
                        {
                            &&& new_marker_outcome(request, k, made)
                            &&& match made {
                                Err(e) => r == Err::<SetupLibraryResult, SetupLibraryError>(e)
                                    && *final(session) == *old(session)
                                    && discard_state.ensures((), ()),
                                Ok(m) => exists|w: Result<(), SetupLibraryError>|
                                    #![trigger write_state.ensures((&m, &k), w)]
                                    {
                                        &&& write_state.ensures((&m, &k), w)
                                        &&& match w {
                                            Err(e) => r == Err::<
                                                SetupLibraryResult,
                                                SetupLibraryError,
                                            >(e) && *final(session) == *old(session)
                                                && discard_state.ensures((), ()),
                                            Ok(_) => unlocked_at(
                                                *final(session),
                                                request.folder_path@,
                                                k@,
                                            ) && exists|p: Result<(), SetupLibraryError>|
                                                #![trigger publish_state.ensures((), p)]
                                                {
                                                    &&& publish_state.ensures((), p)
                                                    &&& match p {
                                                        Err(e) => r == Err::<
                                                            SetupLibraryResult,
                                                            SetupLibraryError,
                                                        >(e) && discard_state.ensures((), ()),
                                                        Ok(_) => r matches Ok(res)
                                                            && res.folder_path@
                                                            == request.folder_path@
                                                            && res.message@ == setup_message(),
                                                    }
                                                },
                                        }
                                    },
                            }
                        },
                }
            },
        r matches Ok(res) ==> {
            &&& res.folder_path@ == request.folder_path@
            &&& res.message@ == setup_message()
            &&& exists|m: LibraryMarker, k: Vec<u8>, w: Result<(), SetupLibraryError>|
                {
                    &&& marker_for(m, request, k@)
                    &&& write_state.ensures((&m, &k), w)
                    &&& w is Ok
                    &&& unlocked_at(*final(session), request.folder_path@, k@)
                }
        },
{
    match validate_request(&request) {
        Ok(_) => {},
        Err(e) => {
            return Err(e);
        },
    }
    match validate_empty_writable_folder(folder) {
        Ok(_) => {},
        Err(e) => {
            return Err(e);
        },
    }
    let created = create_state();
    let ghost created_g = created;
    match created {
        Ok(u) => {
            assert(created_g == Ok::<(), SetupLibraryError>(u));
        },
        Err(e) => {
            assert(create_state.ensures((), created_g));
            return Err(e);
        },
    }
    assert(created_g == Ok::<(), SetupLibraryError>(()));
    assert(create_state.ensures((), Ok::<(), SetupLibraryError>(())));
    let database_key = new_database_key();
    let made = new_library_marker(&database_key, &request);
    let ghost key_value = database_key;
    let ghost made_g = made;
    assert(new_marker_outcome(request, key_value, made_g));
    let marker = match made {
        Ok(m) => m,
        Err(e) => {
            discard_state();
            return Err(e);
        },
    };
    assert(marker_for(marker, request, database_key@));
    let written = write_state(&marker, &database_key);
    let ghost written_g = written;
    assert(write_state.ensures((&marker, &key_value), written_g));
    match written {
        Ok(u) => {
            assert(written_g == Ok::<(), SetupLibraryError>(u));
        },
        Err(e) => {
            discard_state();
            return Err(e);
        },
    }
    assert(written_g == Ok::<(), SetupLibraryError>(()));
    assert(write_state.ensures((&marker, &key_value), Ok::<(), SetupLibraryError>(())));
    session.establish(request.folder_path.clone(), database_key);
    assert(unlocked_at(*session, request.folder_path@, key_value@));
    let published = publish_state();
    let ghost published_g = published;
    assert(publish_state.ensures((), published_g));
    match published {
        Ok(_) => {},
        Err(e) => {
            discard_state();
            return Err(e);
        },
    }
    Ok(
        SetupLibraryResult {
            folder_path: request.folder_path,
            message: String::from_str(
                "Protected library created. Only Photo Handler state was added; no media was copied, encrypted, moved, or modified.",
            ),
        },
    )
}


/// The reset request is complete: a recovery answer and a confirmed new password.
pub open spec fn reset_request_ok(request: ResetLibraryPasswordRequest) -> bool {
    &&& trim_spec(request.recovery_answer@).len() != 0
    &&& request.new_password@.len() != 0
    &&& request.new_password@ == request.new_password_confirmation@
}

/// `e` is the error for the first missing or mismatched part of the reset request.
pub open spec fn reset_request_error(request: ResetLibraryPasswordRequest, e: SetupLibraryError) -> bool {
    if trim_spec(request.recovery_answer@).len() == 0 {
        setup_error_is(e, "missing_recovery_answer"@, "Enter the recovery answer."@)
    } else if request.new_password@.len() == 0 {
        setup_error_is(e, "missing_password"@, "Enter a new password."@)
    } else {
        setup_error_is(e, "password_mismatch"@, "The password confirmation does not match."@)
    }
}

/// Sets a new password for the library in `folder_path` with its recovery answer.
/// `read_marker` reads and validates the marker of the trimmed folder, `check_catalogue` opens
/// the catalogue with the recovered key, and `write_marker` replaces the marker with one whose
/// password wrap opens with the new password; the recovery wrap is kept. The library is then
/// unlocked.
pub fn reset_library_password(
    session: &mut LibrarySession,
    folder_path: &str,
    request: ResetLibraryPasswordRequest,
    read_marker: impl FnOnce(String) -> Result<LibraryMarker, SetupLibraryError>,
    check_catalogue: impl FnOnce(&Vec<u8>) -> Result<(), SetupLibraryError>,
    write_marker: impl FnOnce(String, &LibraryMarker) -> Result<(), SetupLibraryError>,
) -> (r: Result<UnlockLibraryResult, SetupLibraryError>)
    requires
        forall|path: String| reset_request_ok(request) ==> read_marker.requires((path,)),
        forall|key: &Vec<u8>|
            reset_request_ok(request) && opens_with_answer(
                read_marker,
                trim_spec(folder_path@),
                request.recovery_answer@,
                key@,
            ) ==> check_catalogue.requires((key,)),
        forall|path: String, m: &LibraryMarker|
            reset_request_ok(request) && path@ == trim_spec(folder_path@) && (exists|
                k: &Vec<u8>,
                base: LibraryMarker,
            |
                #![trigger check_catalogue.ensures((k,), Ok::<(), SetupLibraryError>(())), read_marker.ensures((path,), Ok::<LibraryMarker, SetupLibraryError>(base))]
                {
                    &&& check_catalogue.ensures((k,), Ok::<(), SetupLibraryError>(()))
                    &&& read_marker.ensures((path,), Ok::<LibraryMarker, SetupLibraryError>(base))
                    &&& unwrap_spec(base.recovery_wrap, request.recovery_answer@) == Some(k@)
                    &&& reset_marker(base, *m, request.recovery_answer@, request.new_password@)
                }) ==> #[trigger] write_marker.requires((path, m)),
    ensures
        !reset_request_ok(request) ==> (r matches Err(e) && reset_request_error(request, e)),
        reset_request_ok(request) ==> exists|folder: String, marker: Result<LibraryMarker, SetupLibraryError>|
            {
                &&& folder@ == trim_spec(folder_path@)
                &&& read_marker.ensures((folder,), marker)
                &&& match marker {
                    Err(e) => r == Err::<UnlockLibraryResult, SetupLibraryError>(e),
                    Ok(m) => match unwrap_spec(m.recovery_wrap, request.recovery_answer@) {
                        None => fails_with(
                            r,
                            "incorrect_credentials"@,
                            "The password or recovery answer is incorrect."@,
                        ),
                        Some(key) => exists|k: Vec<u8>, checked: Result<(), SetupLibraryError>|
                            {
                                &&& k@ == key
                                &&& check_catalogue.ensures((&k,), checked)
                                &&& match checked {
                                    Err(e) => r == Err::<UnlockLibraryResult, SetupLibraryError>(e),
                                    Ok(_) => exists|wrapped: Result<KeyWrap, SetupLibraryError>|
                                        #![trigger wrap_outcome(wrapped, key, request.new_password@)]
                                        {
                                            &&& wrap_outcome(wrapped, key, request.new_password@)
                                            &&& match wrapped {
                                                Err(e) => r == Err::<
                                                    UnlockLibraryResult,
                                                    SetupLibraryError,
                                                >(e),
                                                Ok(w) => exists|wr: Result<(), SetupLibraryError>|
                                                    #![trigger write_marker.ensures((folder, &with_password_wrap(m, w)), wr)]
                                                    {
                                                        &&& write_marker.ensures(
                                                            (folder, &with_password_wrap(m, w)),
                                                            wr,
                                                        )
                                                        &&& reset_marker(
                                                            m,
                                                            with_password_wrap(m, w),
                                                            request.recovery_answer@,
                                                            request.new_password@,
                                                        )
                                                        &&& match wr {
                                                            Err(e) => r == Err::<
                                                                UnlockLibraryResult,
                                                                SetupLibraryError,
                                                            >(e),
                                                            Ok(_) => r matches Ok(res)
                                                                && res.folder_path@ == folder@
                                                                && res.message@
                                                                == "Password reset and protected library unlocked. Your media files remain unchanged."@
                                                                && unlocked_at(
                                                                *final(session),
                                                                folder@,
                                                                key,
                                                            ),
                                                        }
                                                    },
                                            }
                                        },
                                }
                            },
                    },
                }
            },
        r is Err ==> *final(session) == *old(session),
{
    if is_blank(request.recovery_answer.as_str()) {
        return Err(SetupLibraryError::new("missing_recovery_answer", "Enter the recovery answer."));
    }
    if request.new_password.as_str().unicode_len() == 0 {
        return Err(SetupLibraryError::new("missing_password", "Enter a new password."));
    }
    if request.new_password != request.new_password_confirmation {
        return Err(
            SetupLibraryError::new("password_mismatch", "The password confirmation does not match."),
        );
    }
    let folder = trim(folder_path);
    let ghost folder_g = folder;
    let marker_result = read_marker(folder.clone());
    let mut marker = match marker_result {
        Ok(m) => m,
        Err(e) => {
            return Err(e);
        },
    };
    let ghost original = marker;
    assert(read_marker.ensures((folder_g,), Ok::<LibraryMarker, SetupLibraryError>(original)));
    let database_key = match unwrap_key(&marker.recovery_wrap, request.recovery_answer.as_str()) {
        Ok(k) => k,
        Err(e) => {
            return Err(e);
        },
    };
    assert(opens_with_answer(read_marker, trim_spec(folder_path@), request.recovery_answer@, database_key@));
    let checked = check_catalogue(&database_key);
    let ghost checked_g = checked;
    match checked {
        Ok(u) => {
            assert(checked_g == Ok::<(), SetupLibraryError>(u));
        },
        Err(e) => {
            return Err(e);
        },
    }
    assert(check_catalogue.ensures((&database_key,), Ok::<(), SetupLibraryError>(())));
    let wrapped = wrap_key(&database_key, request.new_password.as_str());
    let ghost wrapped_g = wrapped;
    assert(wrap_outcome(wrapped_g, database_key@, request.new_password@));
    let password_wrap = match wrapped {
        Ok(w) => w,
        Err(e) => {
            return Err(e);
        },
    };
    marker.password_wrap = password_wrap;
    assert(marker == with_password_wrap(original, password_wrap));
    let written = write_marker(folder.clone(), &marker);
    let ghost written_g = written;
    assert(write_marker.ensures((folder, &with_password_wrap(original, password_wrap)), written_g));
    match written {
        Ok(_) => {},
        Err(e) => {
            return Err(e);
        },
    }
    session.establish(folder.clone(), database_key);
    Ok(
        UnlockLibraryResult {
            folder_path: folder,
            message: String::from_str(
                "Password reset and protected library unlocked. Your media files remain unchanged.",
            ),
        },
    )
}

/// A step that brings an older catalogue schema up to the current version, in the order the
/// steps must run.
#[derive(Debug)]
pub enum MigrationStep {
    /// Create any missing review tables.
    BaseTables,
    /// Add the import date columns to decisions (schema before 3).
    ImportDates,
    /// Index decisions by import date and candidates by media type (schema before 4).
    DateIndexes,
    /// Add the original media date columns and their index (schema before 5).
    OriginalDates,
    /// Rebuild candidates with revisions and content fingerprints (schema before 6).
    Revisions,
    /// Add perceptual hash columns (schema before 7).
    PerceptualHashes,
    /// Add the perceptual hash threshold column (schema before 8).
    HashThreshold,
    /// Record the current version in the catalogue.
    RecordVersion,
}

/// Whether a catalogue at schema `version` needs `step`: each schema change is needed by the
/// catalogues older than the schema that introduced it (import dates in 3, date indexes in 4,
/// original media dates in 5, revisions in 6, perceptual hashes in 7, the hash threshold in 8),
/// and every catalogue older than the current one gets the base tables and a new version record.
pub open spec fn step_needed(step: MigrationStep, version: u32) -> bool {
    match step {
        MigrationStep::BaseTables => version < CATALOGUE_FORMAT_VERSION,
        MigrationStep::ImportDates => version < 3,
        MigrationStep::DateIndexes => version < 4,
        MigrationStep::OriginalDates => version < 5,
        MigrationStep::Revisions => version < 6,
        MigrationStep::PerceptualHashes => version < 7,
        MigrationStep::HashThreshold => version < 8,
        MigrationStep::RecordVersion => version < CATALOGUE_FORMAT_VERSION,
    }
}

/// The position of a step in a migration: the base tables first, then the schema changes in
/// the order of the schemas that introduced them, and the version record last.
pub open spec fn step_position(step: MigrationStep) -> int {
    match step {
        MigrationStep::BaseTables => 0,
        MigrationStep::ImportDates => 1,
        MigrationStep::DateIndexes => 2,
        MigrationStep::OriginalDates => 3,
        MigrationStep::Revisions => 4,
        MigrationStep::PerceptualHashes => 5,
        MigrationStep::HashThreshold => 6,
        MigrationStep::RecordVersion => 7,
    }
}

/// The migration steps for a catalogue at `version`: none for the current version, otherwise
/// the base tables, each step the version is older than, and the new version record.
pub open spec fn migration_plan_spec(version: u32) -> Seq<MigrationStep> {
    if version >= CATALOGUE_FORMAT_VERSION {
        seq![]
    } else {
        seq![MigrationStep::BaseTables] + (if version < 3 {
            seq![MigrationStep::ImportDates]
        } else {
            seq![]
        }) + (if version < 4 {
            seq![MigrationStep::DateIndexes]
        } else {
            seq![]
        }) + (if version < 5 {
            seq![MigrationStep::OriginalDates]
        } else {
            seq![]
        }) + (if version < 6 {
            seq![MigrationStep::Revisions]
        } else {
            seq![]
        }) + (if version < 7 {
            seq![MigrationStep::PerceptualHashes]
        } else {
            seq![]
        }) + seq![MigrationStep::HashThreshold, MigrationStep::RecordVersion]
    }
}

/// A migration plan holds exactly the steps that the catalogue's schema needs, each once, in
/// the order they must run.
pub proof fn lemma_migration_plan_is_needed_steps(version: u32)
    requires
        version <= CATALOGUE_FORMAT_VERSION,
    ensures
        forall|step: MigrationStep| #[trigger]
            migration_plan_spec(version).contains(step) <==> step_needed(step, version),
        forall|i: int, j: int|
            0 <= i < j < migration_plan_spec(version).len() ==> step_position(
                #[trigger] migration_plan_spec(version)[i],
            ) < step_position(#[trigger] migration_plan_spec(version)[j]),
{
    let plan = migration_plan_spec(version);
    let all = seq![
        MigrationStep::BaseTables,
        MigrationStep::ImportDates,
        MigrationStep::DateIndexes,
        MigrationStep::OriginalDates,
        MigrationStep::Revisions,
        MigrationStep::PerceptualHashes,
        MigrationStep::HashThreshold,
        MigrationStep::RecordVersion,
    ];
    if version < 3 {
        assert(plan =~= all);
    } else if version == 3 {
        assert(plan =~= seq![MigrationStep::BaseTables, MigrationStep::DateIndexes, MigrationStep::OriginalDates, MigrationStep::Revisions, MigrationStep::PerceptualHashes, MigrationStep::HashThreshold, MigrationStep::RecordVersion]);
    } else if version == 4 {
        assert(plan =~= seq![MigrationStep::BaseTables, MigrationStep::OriginalDates, MigrationStep::Revisions, MigrationStep::PerceptualHashes, MigrationStep::HashThreshold, MigrationStep::RecordVersion]);
    } else if version == 5 {
        assert(plan =~= seq![MigrationStep::BaseTables, MigrationStep::Revisions, MigrationStep::PerceptualHashes, MigrationStep::HashThreshold, MigrationStep::RecordVersion]);
    } else if version == 6 {
        assert(plan =~= seq![MigrationStep::BaseTables, MigrationStep::PerceptualHashes, MigrationStep::HashThreshold, MigrationStep::RecordVersion]);
    } else if version == 7 {
        assert(plan =~= seq![MigrationStep::BaseTables, MigrationStep::HashThreshold, MigrationStep::RecordVersion]);
    } else {
        assert(plan =~= Seq::<MigrationStep>::empty());
    }
    assert forall|step: MigrationStep| #[trigger] plan.contains(step) <==> step_needed(step, version) by {
        if step_needed(step, version) {
            assert(exists|p: int| 0 <= p < plan.len() && plan[p] == step) by {
                if version < 3 {
                    assert(plan[step_position(step)] == step);
                } else {
                    let q = if version == 3 { step_position(step) - 1 } else if version == 4 { step_position(step) - 2 } else if version == 5 { step_position(step) - 3 } else if version == 6 { step_position(step) - 4 } else { step_position(step) - 5 };
                    if step is BaseTables {
                        assert(plan[0] == step);
                    } else {
                        assert(plan[q] == step);
                    }
                }
            }
        }
    }
}

/// Decides how to bring a catalogue up to date from its recorded schema `version` and its
/// identity's `identity_version`: the two must agree and not be newer than this library.
pub fn catalogue_migration_plan(version: u32, identity_version: u32) -> (r: Result<
    Vec<MigrationStep>,
    SetupLibraryError,
>)
    ensures
        version != identity_version || version > CATALOGUE_FORMAT_VERSION ==> fails_with(
            r,
            "library_version_unsupported"@,
            "This Photo Handler library uses an unsupported schema version."@,
        ),
        version == identity_version && version <= CATALOGUE_FORMAT_VERSION ==> (r matches Ok(
            steps,
        ) && steps@ == migration_plan_spec(version)),
        version == identity_version && version <= CATALOGUE_FORMAT_VERSION ==> (r matches Ok(
            steps,
        ) && (forall|step: MigrationStep| #[trigger] steps@.contains(step) <==> step_needed(
            step,
            version,
        )) && (forall|i: int, j: int|
            0 <= i < j < steps@.len() ==> step_position(#[trigger] steps@[i]) < step_position(
                #[trigger] steps@[j],
            ))),
{
    if version != identity_version || version > CATALOGUE_FORMAT_VERSION {
        return Err(
            SetupLibraryError::new(
                "library_version_unsupported",
                "This Photo Handler library uses an unsupported schema version.",
            ),
        );
    }
    let mut steps: Vec<MigrationStep> = Vec::new();
    if version < CATALOGUE_FORMAT_VERSION {
        steps.push(MigrationStep::BaseTables);
        if version < 3 {
            steps.push(MigrationStep::ImportDates);
        }
        if version < 4 {
            steps.push(MigrationStep::DateIndexes);
        }
        if version < 5 {
            steps.push(MigrationStep::OriginalDates);
        }
        if version < 6 {
            steps.push(MigrationStep::Revisions);
        }
        if version < 7 {
            steps.push(MigrationStep::PerceptualHashes);
        }
        steps.push(MigrationStep::HashThreshold);
        steps.push(MigrationStep::RecordVersion);
    }
    assert(steps@ =~= migration_plan_spec(version));
    proof {
        lemma_migration_plan_is_needed_steps(version);
    }
    Ok(steps)
}

/// The SQLCipher `key` pragma value for the catalogue key: `x'` and its hexadecimal text and `'`.
pub fn catalogue_key_pragma(database_key: &Vec<u8>) -> (r: String)
    ensures
        r@ == "x'"@ + hex_encode_spec(database_key@) + "'"@,
{
    let mut text = String::from_str("x'");
    let hex = hex_encode(database_key.as_slice());
    text.append(hex.as_str());
    text.append("'");
    text
}


/// A library set up with a request opens with its password, and with its recovery answer, to
/// the catalogue key it was made with.
pub proof fn lemma_setup_opens_with_password_and_answer(
    marker: LibraryMarker,
    request: SetupLibraryRequest,
    key: Seq<u8>,
)
    requires
        marker_for(marker, request, key),
    ensures
        unwrap_spec(marker.password_wrap, request.password@) == Some(key),
        unwrap_spec(marker.recovery_wrap, request.recovery_answer@) == Some(key),
{
}

/// A library's recovery question is kept trimmed: the marker set up for a request holds the
/// request's question trimmed, and trimming it again changes nothing, so the question that
/// `recovery_question` reads from the marker comes back trimmed.
pub proof fn lemma_recovery_question_is_trimmed(m: LibraryMarker, request: SetupLibraryRequest, key: Seq<u8>)
    requires
        marker_for(m, request, key),
    ensures
        m.recovery_question@ == trim_spec(request.recovery_question@),
        trim_spec(m.recovery_question@) == m.recovery_question@,
{
    lemma_trim_idempotent(request.recovery_question@);
}

/// `m` with its password wrap replaced by `w`.
pub open spec fn with_password_wrap(m: LibraryMarker, w: KeyWrap) -> LibraryMarker {
    LibraryMarker {
        format_version: m.format_version,
        password_wrap: w,
        recovery_wrap: m.recovery_wrap,
        recovery_question: m.recovery_question,
    }
}

/// What sealing `key` under `secret` gave: a wrap that opens with `secret` to `key`, or, for a
/// secret longer than `MAX_SECRET_CHARS` characters, an initialization error.
pub open spec fn wrap_outcome(wrapped: Result<KeyWrap, SetupLibraryError>, key: Seq<u8>, secret: Seq<char>) -> bool {
    match wrapped {
        Ok(w) => unwrap_spec(w, secret) == Some(key),
        Err(e) => e.code@ == "initialization_failed"@ && secret.len() > MAX_SECRET_CHARS,
    }
}

/// The marker that a password reset writes over `m`: the same version, recovery wrap and
/// question, and a password wrap that opens with the new password to the key that the recovery
/// answer opens in `m`.
pub open spec fn reset_marker(
    m: LibraryMarker,
    written: LibraryMarker,
    recovery_answer: Seq<char>,
    new_password: Seq<char>,
) -> bool {
    &&& written.format_version == m.format_version
    &&& written.recovery_wrap == m.recovery_wrap
    &&& written.recovery_question == m.recovery_question
    &&& unwrap_spec(written.password_wrap, new_password) == unwrap_spec(m.recovery_wrap, recovery_answer)
}

/// A password reset keeps the catalogue: after a library is set up with a request and its
/// password is reset with the request's recovery answer, the new password opens the written
/// marker to the key the library was set up with, and the recovery answer still does.
pub proof fn lemma_reset_keeps_catalogue_key(
    set_up: LibraryMarker,
    request: SetupLibraryRequest,
    key: Seq<u8>,
    written: LibraryMarker,
    new_password: Seq<char>,
)
    requires
        marker_for(set_up, request, key),
        reset_marker(set_up, written, request.recovery_answer@, new_password),
    ensures
        unwrap_spec(written.password_wrap, new_password) == Some(key),
        unwrap_spec(written.recovery_wrap, request.recovery_answer@) == Some(key),
{
}

/// An error whose message is a fixed text followed by the words of the failure.
fn detailed_error(code: &'static str, prefix: &str, detail: &str) -> (r: SetupLibraryError)
    ensures
        setup_error_is(r, code@, prefix@ + detail@),
{
    let mut message = String::from_str(prefix);
    message.append(detail);
    SetupLibraryError { code, message, failed_targets: Vec::new() }
}

/// The error for a state folder that could not be created.
pub fn state_folder_error(detail: &str) -> (r: SetupLibraryError)
    ensures
        setup_error_is(r, "folder_not_writable"@, "Photo Handler could not create its state folder: "@ + detail@),
{
    detailed_error("folder_not_writable", "Photo Handler could not create its state folder: ", detail)
}

/// The error for a marker that could not be written during setup.
pub fn marker_write_error(detail: &str) -> (r: SetupLibraryError)
    ensures
        setup_error_is(r, "initialization_failed"@, "Could not write library marker: "@ + detail@),
{
    detailed_error("initialization_failed", "Could not write library marker: ", detail)
}

/// The error for a state folder that could not be moved into place.
pub fn state_publish_error(detail: &str) -> (r: SetupLibraryError)
    ensures
        setup_error_is(r, "initialization_failed"@, "Could not publish protected library state: "@ + detail@),
{
    detailed_error("initialization_failed", "Could not publish protected library state: ", detail)
}

/// The error for a catalogue that could not be created.
pub fn catalogue_create_error(detail: &str) -> (r: SetupLibraryError)
    ensures
        setup_error_is(r, "initialization_failed"@, "Could not create catalogue: "@ + detail@),
{
    detailed_error("initialization_failed", "Could not create catalogue: ", detail)
}

/// The error for a catalogue whose key could not be set.
pub fn catalogue_encrypt_error(detail: &str) -> (r: SetupLibraryError)
    ensures
        setup_error_is(r, "initialization_failed"@, "Could not encrypt catalogue: "@ + detail@),
{
    detailed_error("initialization_failed", "Could not encrypt catalogue: ", detail)
}

/// The error for a catalogue whose schema could not be created.
pub fn catalogue_schema_error(detail: &str) -> (r: SetupLibraryError)
    ensures
        setup_error_is(r, "initialization_failed"@, "Could not initialize catalogue schema: "@ + detail@),
{
    detailed_error("initialization_failed", "Could not initialize catalogue schema: ", detail)
}

/// The error for review data that could not be cleared.
pub fn cleanup_failed_error(detail: &str) -> (r: SetupLibraryError)
    ensures
        setup_error_is(r, "cleanup_failed"@, "Could not clear review data: "@ + detail@),
{
    detailed_error("cleanup_failed", "Could not clear review data: ", detail)
}

/// The error for a library location that could not be remembered.
pub fn settings_error(detail: &str) -> (r: SetupLibraryError)
    ensures
        setup_error_is(r, "settings_unavailable"@, "Could not save the selected library: "@ + detail@),
{
    detailed_error("settings_unavailable", "Could not save the selected library: ", detail)
}

/// The error for a catalogue that could not be migrated.
pub fn migration_error() -> (r: SetupLibraryError)
    ensures
        setup_error_is(r, "library_migration_failed"@, "Could not migrate the protected library catalogue."@),
{
    SetupLibraryError::new("library_migration_failed", "Could not migrate the protected library catalogue.")
}

/// The error for a marker that could not be rewritten after a password reset.
pub fn recovery_write_error() -> (r: SetupLibraryError)
    ensures
        setup_error_is(r, "recovery_failed"@, "Could not update the library protection settings."@),
{
    SetupLibraryError::new("recovery_failed", "Could not update the library protection settings.")
}

/// The error for an unlocked library whose catalogue cannot be opened.
pub fn catalogue_unavailable_error() -> (r: SetupLibraryError)
    ensures
        setup_error_is(
            r,
            "library_locked"@,
            "The protected library is unavailable. Unlock it again before reviewing media."@,
        ),
{
    SetupLibraryError::new(
        "library_locked",
        "The protected library is unavailable. Unlock it again before reviewing media.",
    )
}

/// A setup whose library location could not be remembered: the message says so, with the
/// reason.
pub fn setup_remember_note(result: SetupLibraryResult, reason: &str) -> (r: SetupLibraryResult)
    ensures
        r.folder_path == result.folder_path,
        r.message@ == result.message@
            + " The library was created, but its location could not be remembered ("@ + reason@
            + "). Open the existing library manually next time."@,
{
    let mut message = result.message;
    message.append(" The library was created, but its location could not be remembered (");
    message.append(reason);
    message.append("). Open the existing library manually next time.");
    SetupLibraryResult { folder_path: result.folder_path, message }
}

/// A password reset whose library location could not be remembered: the message says so,
/// with the reason.
pub fn reset_remember_note(result: UnlockLibraryResult, reason: &str) -> (r: UnlockLibraryResult)
    ensures
        r.folder_path == result.folder_path,
        r.message@ == result.message@
            + " The password was reset, but this library location could not be remembered ("@
            + reason@ + "). Open the existing library manually next time."@,
{
    let mut message = result.message;
    message.append(" The password was reset, but this library location could not be remembered (");
    message.append(reason);
    message.append("). Open the existing library manually next time.");
    UnlockLibraryResult { folder_path: result.folder_path, message }
}


/// The error for a library folder that could not be listed.
pub fn inspect_library_error(detail: &str) -> (r: SetupLibraryError)
    ensures
        setup_error_is(r, "library_unavailable"@, "Could not inspect the protected library: "@ + detail@),
{
    detailed_error("library_unavailable", "Could not inspect the protected library: ", detail)
}

/// The error for a year folder that could not be listed.
pub fn inspect_folder_error(detail: &str) -> (r: SetupLibraryError)
    ensures
        setup_error_is(r, "library_unavailable"@, "Could not inspect a managed-media folder: "@ + detail@),
{
    detailed_error("library_unavailable", "Could not inspect a managed-media folder: ", detail)
}

/// A year folder holds only date folders, apart from Finder metadata.
pub open spec fn only_date_folders(entries: Seq<DirEntryInfo>) -> bool {
    forall|i: int| 0 <= i < entries.len() ==> is_finder_metadata(#[trigger] entries[i]) || is_date_folder_entry(entries[i])
}

/// The date folders of one year folder, as paths inside it.
pub open spec fn year_targets(year_path: Seq<char>, entries: Seq<DirEntryInfo>) -> Seq<Seq<char>> {
    if forall|i: int| 0 <= i < entries.len() ==> is_finder_metadata(#[trigger] entries[i]) || is_date_folder_entry(entries[i]) {
        non_metadata_names(entries).map_values(|name: Seq<char>| std_join(year_path, name))
    } else {
        seq![]
    }
}

/// The date folders of all year folders, in the order the years are given.
pub open spec fn all_year_targets(years: Seq<(String, Vec<DirEntryInfo>)>) -> Seq<Seq<char>>
    decreases years.len(),
{
    if years.len() == 0 {
        seq![]
    } else {
        all_year_targets(years.drop_last()) + year_targets(years.last().0@, years.last().1@)
    }
}

/// Every date folder of every year folder is among the targets of all years.
proof fn lemma_every_year_contributes(years: Seq<(String, Vec<DirEntryInfo>)>)
    ensures
        forall|i: int, n: Seq<char>|
            #![trigger years[i], non_metadata_names(years[i].1@).contains(n)]
            0 <= i < years.len() && only_date_folders(years[i].1@) && non_metadata_names(
                years[i].1@,
            ).contains(n) ==> all_year_targets(years).contains(std_join(years[i].0@, n)),
    decreases years.len(),
{
    if years.len() > 0 {
        let front = years.drop_last();
        lemma_every_year_contributes(front);
        assert forall|i: int, n: Seq<char>|
            #![trigger years[i], non_metadata_names(years[i].1@).contains(n)]
            0 <= i < years.len() && only_date_folders(years[i].1@) && non_metadata_names(
                years[i].1@,
            ).contains(n) implies all_year_targets(years).contains(std_join(years[i].0@, n)) by {
            let all = all_year_targets(years);
            let head = all_year_targets(front);
            let tail = year_targets(years.last().0@, years.last().1@);
            assert(all == head + tail);
            if i == years.len() - 1 {
                let names = non_metadata_names(years[i].1@);
                let q = choose|q: int| 0 <= q < names.len() && names[q] == n;
                assert(tail[q] == std_join(years[i].0@, n));
                assert(all[head.len() + q] == tail[q]);
            } else {
                assert(front[i] == years[i]);
                assert(head.contains(std_join(years[i].0@, n)));
                let q = choose|q: int| 0 <= q < head.len() && head[q] == std_join(years[i].0@, n);
                assert(all[q] == head[q]);
            }
        }
    }
}

/// The managed date folders of a library, given each managed year folder's path and listing:
/// the date folders of the year folders that hold only date folders and Finder metadata, in
/// text order.
pub fn managed_media_targets(years: Vec<(String, Vec<DirEntryInfo>)>) -> (r: Vec<String>)
    ensures
        texts_sorted(keys_of(r@)),
        exists|found: Seq<String>| string_views(found) == all_year_targets(years@) && r@.to_multiset()
            == found.to_multiset(),
        forall|i: int, n: Seq<char>|
            #![trigger years@[i], non_metadata_names(years@[i].1@).contains(n)]
            0 <= i < years@.len() && only_date_folders(years@[i].1@) && non_metadata_names(
                years@[i].1@,
            ).contains(n) ==> string_views(r@).contains(std_join(years@[i].0@, n)),
{
    let mut targets: Vec<String> = Vec::new();
    let mut i: usize = 0;
    while i < years.len()
        invariant
            0 <= i <= years@.len(),
            string_views(targets@) == all_year_targets(years@.take(i as int)),
        decreases years@.len() - i,
    {
        let (year_path, entries) = &years[i];
        let names = managed_date_folders(entries);
        proof {
            assert(years@.take(i + 1).drop_last() =~= years@.take(i as int));
            assert(years@.take(i + 1).last() == years@[i as int]);
        }
        let ghost before = string_views(targets@);
        let mut k: usize = 0;
        while k < names.len()
            invariant
                0 <= k <= names@.len(),
                string_views(targets@) == before + string_views(names@).take(k as int).map_values(
                    |name: Seq<char>| std_join(year_path@, name),
                ),
            decreases names@.len() - k,
        {
            let path = join_path(year_path.as_str(), names[k].as_str());
            let ghost prev = string_views(targets@);
            let ghost joined = path@;
            targets.push(path);
            proof {
                let f = |name: Seq<char>| std_join(year_path@, name);
                let xs = string_views(names@);
                assert(xs[k as int] == names@[k as int]@);
                assert(joined == f(xs[k as int]));
                assert(string_views(targets@) =~= prev.push(joined));
                assert(xs.take(k + 1).map_values(f) =~= xs.take(k as int).map_values(f).push(f(xs[k as int])));
                assert(string_views(targets@) =~= before + xs.take(k + 1).map_values(f));
            }
            k = k + 1;
        }
        proof {
            assert(string_views(names@).take(names@.len() as int) =~= string_views(names@));
            if forall|j: int| 0 <= j < entries@.len() ==> is_finder_metadata(#[trigger] entries@[j]) || is_date_folder_entry(entries@[j]) {
            } else {
                assert(string_views(names@) =~= Seq::<Seq<char>>::empty());
            }
            assert(string_views(targets@) =~= all_year_targets(years@.take(i + 1)));
        }
        i = i + 1;
    }
    proof {
        assert(years@.take(years@.len() as int) =~= years@);
    }
    let ghost found = targets@;
    let sorted = sort_by_text(targets);
    assert(string_views(found) == all_year_targets(years@));
    proof {
        broadcast use vstd::seq_lib::group_to_multiset_ensures;

        lemma_every_year_contributes(years@);
        assert forall|i: int, n: Seq<char>|
            #![trigger years@[i], non_metadata_names(years@[i].1@).contains(n)]
            0 <= i < years@.len() && only_date_folders(years@[i].1@) && non_metadata_names(
                years@[i].1@,
            ).contains(n) implies string_views(sorted@).contains(std_join(years@[i].0@, n)) by {
            let x = std_join(years@[i].0@, n);
            let views = string_views(found);
            assert(views.contains(x));
            let q = choose|q: int| 0 <= q < views.len() && views[q] == x;
            assert(found[q]@ == x);
            assert(found.contains(found[q]));
            assert(found.to_multiset().count(found[q]) > 0);
            assert(sorted@.contains(found[q]));
            let p = choose|p: int| 0 <= p < sorted@.len() && sorted@[p] == found[q];
            assert(string_views(sorted@)[p] == x);
        }
    }
    sorted
}

} // verus!
