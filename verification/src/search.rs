//! Search of the imported library: filters and their validation, the catalogue query,
//! tag lookup, and the safety checks on managed copies before they are shown or changed.
use vstd::prelude::*;
use crate::dates::{canonical_date, canonical_date_spec};
use crate::library::{catalogue_session, LibrarySession, SetupLibraryError, STATE_DIR};
use crate::paths::{file_name, join_path, starts_with, std_file_name, std_join, std_starts_with};
use crate::review::{asset_url, asset_url_spec};
use crate::text::{
    collapse_whitespace, collapse_whitespace_spec, decimal, decimal_spec, is_blank, is_text_less,
    same_text, str_chars, string_from_chars, string_views, text_less, to_lowercase, trim_spec,
    unicode_lowercase,
};

verus! {

/// An error of a search command: a stable code and a message for people.
#[derive(Debug)]
pub struct SearchError {
    pub code: &'static str,
    pub message: String,
}

/// `e` carries exactly this code and message.
pub open spec fn search_error_is(e: SearchError, code: Seq<char>, message: Seq<char>) -> bool {
    e.code@ == code && e.message@ == message
}

/// `r` is an error with exactly this code and message.
pub open spec fn search_fails_with<T>(r: Result<T, SearchError>, code: Seq<char>, message: Seq<char>) -> bool {
    r matches Err(e) && search_error_is(e, code, message)
}

/// A search error with the given code and message.
pub fn error(code: &'static str, message: &str) -> (r: SearchError)
    ensures
        r.code == code,
        r.message@ == message@,
{
    SearchError { code, message: String::from_str(message) }
}

/// The error for a catalogue that could not be searched, with the database's words.
pub fn database_error(detail: &str) -> (r: SearchError)
    ensures
        search_error_is(
            r,
            "catalogue_unavailable"@,
            "Could not search the protected library catalogue: "@ + detail@,
        ),
{
    let mut message = String::from_str("Could not search the protected library catalogue: ");
    message.append(detail);
    SearchError { code: "catalogue_unavailable", message }
}

impl From<SetupLibraryError> for SearchError {
    fn from(value: SetupLibraryError) -> (r: Self) {
        SearchError { code: value.code, message: value.message }
    }
}

impl vstd::std_specs::convert::FromSpecImpl<SetupLibraryError> for SearchError {
    open spec fn obeys_from_spec() -> bool {
        true
    }

    open spec fn from_spec(value: SetupLibraryError) -> Self {
        SearchError { code: value.code, message: value.message }
    }
}

/// The kinds of media a search can select.
#[derive(Debug, Clone, Copy, PartialEq, Eq, Structural)]
pub enum MediaType {
    Image,
    Video,
}

/// The catalogue's name of a media type.
pub open spec fn media_type_name(t: MediaType) -> Seq<char> {
    match t {
        MediaType::Image => "image"@,
        MediaType::Video => "video"@,
    }
}

impl MediaType {
    /// The catalogue's name of the media type.
    pub fn as_str(self) -> (r: &'static str)
        ensures
            r@ == media_type_name(self),
    {
        match self {
            MediaType::Image => "image",
            MediaType::Video => "video",
        }
    }
}

/// The media types a search selects when it names none: images and videos.
pub fn default_media_types() -> (r: Vec<MediaType>)
    ensures
        r@ == seq![MediaType::Image, MediaType::Video],
{
    vec![MediaType::Image, MediaType::Video]
}

/// The list without repeats, each kept where it first occurs.
pub open spec fn first_occurrences<T>(s: Seq<T>) -> Seq<T>
    decreases s.len(),
{
    if s.len() == 0 {
        seq![]
    } else {
        let prev = first_occurrences(s.drop_last());
        if prev.contains(s.last()) {
            prev
        } else {
            prev.push(s.last())
        }
    }
}

proof fn lemma_contains_drop_last<T>(s: Seq<T>, x: T)
    requires
        s.len() > 0,
    ensures
        s.contains(x) <==> (s.drop_last().contains(x) || x == s.last()),
{
    if s.contains(x) {
        let k = choose|k: int| 0 <= k < s.len() && s[k] == x;
        if k < s.len() - 1 {
            assert(s.drop_last()[k] == x);
        }
    }
    if s.drop_last().contains(x) {
        let k = choose|k: int| 0 <= k < s.drop_last().len() && s.drop_last()[k] == x;
        assert(s[k] == x);
    }
    if x == s.last() {
        assert(s[s.len() - 1] == x);
    }
}

/// Keeping first occurrences leaves every element once and no other element.
pub proof fn lemma_first_occurrences<T>(s: Seq<T>)
    ensures
        forall|i: int, j: int| 0 <= i < j < first_occurrences(s).len() ==> first_occurrences(s)[i] != first_occurrences(s)[j],
        forall|x: T| first_occurrences(s).contains(x) <==> s.contains(x),
    decreases s.len(),
{
    if s.len() > 0 {
        let prev = first_occurrences(s.drop_last());
        lemma_first_occurrences(s.drop_last());
        assert forall|x: T| first_occurrences(s).contains(x) <==> s.contains(x) by {
            lemma_contains_drop_last(s, x);
            if !prev.contains(s.last()) {
                lemma_contains_drop_last(prev.push(s.last()), x);
                assert(prev.push(s.last()).drop_last() =~= prev);
            }
        }
        if !prev.contains(s.last()) {
            let r = prev.push(s.last());
            assert forall|i: int, j: int| 0 <= i < j < r.len() implies r[i] != r[j] by {
                if j == r.len() - 1 {
                    assert(prev[i] == r[i]);
                    if r[i] == r[j] {
                        assert(prev.contains(s.last()));
                    }
                }
            }
        }
    }
}

/// Drops repeated media types, keeping the first occurrence of each.
pub fn normalize_media_types(media_types: Vec<MediaType>) -> (r: Vec<MediaType>)
    ensures
        r@ == first_occurrences(media_types@),
{
    let mut normalized: Vec<MediaType> = Vec::new();
    let mut i: usize = 0;
    while i < media_types.len()
        invariant
            0 <= i <= media_types@.len(),
            normalized@ == first_occurrences(media_types@.take(i as int)),
        decreases media_types@.len() - i,
    {
        let t = media_types[i];
        let mut seen = false;
        let mut k: usize = 0;
        while k < normalized.len()
            invariant
                0 <= k <= normalized@.len(),
                seen == exists|j: int| 0 <= j < k && normalized@[j] == t,
            decreases normalized@.len() - k,
        {
            if normalized[k] == t {
                seen = true;
            }
            k = k + 1;
        }
        proof {
            assert(media_types@.take(i + 1).drop_last() =~= media_types@.take(i as int));
        }
        if !seen {
            normalized.push(t);
        }
        i = i + 1;
    }
    proof {
        assert(media_types@.take(media_types@.len() as int) =~= media_types@);
    }
    normalized
}

/// A tag as it is stored and searched: its words joined by single spaces, in lowercase.
pub open spec fn normalize_tag_spec(tag: Seq<char>) -> Seq<char> {
    unicode_lowercase(collapse_whitespace_spec(tag))
}

/// Joins the words of a tag with single spaces and lowercases it.
pub fn normalize_tag(tag: &str) -> (r: String)
    ensures
        r@ == normalize_tag_spec(tag@),
{
    let collapsed = collapse_whitespace(tag);
    to_lowercase(collapsed.as_str())
}

/// The search tags: each normalized, empty ones dropped, repeats dropped, in the order given.
pub open spec fn search_tags_spec(tags: Seq<String>) -> Seq<Seq<char>>
    decreases tags.len(),
{
    if tags.len() == 0 {
        seq![]
    } else {
        let prev = search_tags_spec(tags.drop_last());
        let t = normalize_tag_spec(tags.last()@);
        if t.len() == 0 || prev.contains(t) {
            prev
        } else {
            prev.push(t)
        }
    }
}

/// The search tags hold each normalized, non-empty tag of the request once, and nothing else.
pub proof fn lemma_search_tags(tags: Seq<String>)
    ensures
        forall|i: int, j: int| 0 <= i < j < search_tags_spec(tags).len() ==> search_tags_spec(tags)[i] != search_tags_spec(tags)[j],
        forall|t: Seq<char>| search_tags_spec(tags).contains(t) <==> (t.len() > 0 && exists|k: int| 0 <= k < tags.len() && t == normalize_tag_spec(#[trigger] tags[k]@)),
    decreases tags.len(),
{
    if tags.len() > 0 {
        let prev = search_tags_spec(tags.drop_last());
        let last = normalize_tag_spec(tags.last()@);
        lemma_search_tags(tags.drop_last());
        assert forall|t: Seq<char>| search_tags_spec(tags).contains(t) <==> (t.len() > 0 && exists|k: int| 0 <= k < tags.len() && t == normalize_tag_spec(#[trigger] tags[k]@)) by {
            if !(last.len() == 0 || prev.contains(last)) {
                lemma_contains_drop_last(prev.push(last), t);
                assert(prev.push(last).drop_last() =~= prev);
            }
            if t.len() > 0 && exists|k: int| 0 <= k < tags.len() && t == normalize_tag_spec(#[trigger] tags[k]@) {
                let k = choose|k: int| 0 <= k < tags.len() && t == normalize_tag_spec(#[trigger] tags[k]@);
                if k < tags.len() - 1 {
                    assert(tags.drop_last()[k] == tags[k]);
                }
            }
            if exists|k: int| 0 <= k < tags.drop_last().len() && t == normalize_tag_spec(#[trigger] tags.drop_last()[k]@) {
                let k = choose|k: int| 0 <= k < tags.drop_last().len() && t == normalize_tag_spec(#[trigger] tags.drop_last()[k]@);
                assert(tags[k] == tags.drop_last()[k]);
            }
            assert(tags[tags.len() - 1] == tags.last());
        }
        if !(last.len() == 0 || prev.contains(last)) {
            let r = prev.push(last);
            assert forall|i: int, j: int| 0 <= i < j < r.len() implies r[i] != r[j] by {
                if j == r.len() - 1 {
                    assert(prev[i] == r[i]);
                    if r[i] == r[j] {
                        assert(prev.contains(last));
                    }
                }
            }
        }
    }
}

/// Normalizes the tags of a search or of a tag update: empty and repeated tags are dropped,
/// and the first occurrence of each keeps its place.
pub fn normalize_tags(tags: &Vec<String>) -> (r: Vec<String>)
    ensures
        string_views(r@) == search_tags_spec(tags@),
{
    let mut normalized: Vec<String> = Vec::new();
    let mut i: usize = 0;
    while i < tags.len()
        invariant
            0 <= i <= tags@.len(),
            string_views(normalized@) == search_tags_spec(tags@.take(i as int)),
        decreases tags@.len() - i,
    {
        let t = normalize_tag(tags[i].as_str());
        let ghost views = string_views(normalized@);
        let mut seen = false;
        let mut k: usize = 0;
        while k < normalized.len()
            invariant
                0 <= k <= normalized@.len(),
                views == string_views(normalized@),
                seen == exists|j: int| 0 <= j < k && views[j] == t@,
            decreases normalized@.len() - k,
        {
            assert(views[k as int] == normalized@[k as int]@);
            if same_text(normalized[k].as_str(), t.as_str()) {
                seen = true;
            }
            k = k + 1;
        }
        proof {
            assert(tags@.take(i + 1).drop_last() =~= tags@.take(i as int));
            assert(tags@.take(i + 1).last() == tags@[i as int]);
            if views.contains(t@) {
                let j = choose|j: int| 0 <= j < views.len() && views[j] == t@;
                assert(seen);
            }
        }
        if t.as_str().unicode_len() > 0 && !seen {
            normalized.push(t);
            proof {
                assert(string_views(normalized@) =~= views.push(t@));
            }
        }
        i = i + 1;
    }
    proof {
        assert(tags@.take(tags@.len() as int) =~= tags@);
    }
    normalized
}

/// One character of a `LIKE` pattern that matches it literally under the escape `\`.
pub open spec fn escape_like_char(c: char) -> Seq<char> {
    if c == '\\' || c == '%' || c == '_' {
        seq!['\\', c]
    } else {
        seq![c]
    }
}

/// A text as a `LIKE` pattern that matches it literally under the escape `\`.
pub open spec fn escape_like_spec(s: Seq<char>) -> Seq<char>
    decreases s.len(),
{
    if s.len() == 0 {
        seq![]
    } else {
        escape_like_char(s[0]) + escape_like_spec(s.drop_first())
    }
}

/// The text that a `LIKE` pattern with escape `\` stands for, read from the front: `\` and the
/// character after it stand for that character.
pub open spec fn like_literal(p: Seq<char>) -> Seq<char>
    decreases p.len(),
{
    if p.len() == 0 {
        seq![]
    } else if p[0] == '\\' && p.len() >= 2 {
        seq![p[1]] + like_literal(p.skip(2))
    } else {
        seq![p[0]] + like_literal(p.skip(1))
    }
}

/// A `LIKE` pattern with escape `\` in which every `%` and `_` is escaped.
pub open spec fn no_bare_wildcards(p: Seq<char>) -> bool
    decreases p.len(),
{
    if p.len() == 0 {
        true
    } else if p[0] == '\\' && p.len() >= 2 {
        no_bare_wildcards(p.skip(2))
    } else {
        p[0] != '%' && p[0] != '_' && p[0] != '\\' && no_bare_wildcards(p.skip(1))
    }
}

proof fn lemma_escape_like_append(a: Seq<char>, b: Seq<char>)
    ensures
        escape_like_spec(a + b) == escape_like_spec(a) + escape_like_spec(b),
    decreases a.len(),
{
    if a.len() == 0 {
        assert(a + b =~= b);
    } else {
        assert((a + b).drop_first() =~= a.drop_first() + b);
        lemma_escape_like_append(a.drop_first(), b);
        assert(escape_like_char(a[0]) + (escape_like_spec(a.drop_first()) + escape_like_spec(b))
            =~= escape_like_char(a[0]) + escape_like_spec(a.drop_first()) + escape_like_spec(b));
    }
}

/// The escaped pattern matches exactly the text it was made from: reading it back gives the
/// text, and it holds no wildcard that is not escaped.
pub proof fn lemma_escape_like_is_literal(s: Seq<char>)
    ensures
        like_literal(escape_like_spec(s)) == s,
        no_bare_wildcards(escape_like_spec(s)),
    decreases s.len(),
{
    if s.len() > 0 {
        lemma_escape_like_is_literal(s.drop_first());
        let rest = escape_like_spec(s.drop_first());
        let p = escape_like_spec(s);
        let c = s[0];
        if c == '\\' || c == '%' || c == '_' {
            assert(p =~= seq!['\\', c] + rest);
            assert(p.skip(2) =~= rest);
        } else {
            assert(p =~= seq![c] + rest);
            assert(p.skip(1) =~= rest);
        }
        assert(s =~= seq![c] + s.drop_first());
    }
}

/// Escapes `\`, `%` and `_` so that a text is matched literally by `LIKE ... ESCAPE '\'`.
pub fn escape_like(value: &str) -> (r: String)
    ensures
        r@ == escape_like_spec(value@),
{
    let chars = str_chars(value);
    let mut out: Vec<char> = Vec::new();
    let mut i: usize = 0;
    while i < chars.len()
        invariant
            chars@ == value@,
            0 <= i <= chars@.len(),
            out@ == escape_like_spec(value@.take(i as int)),
        decreases chars@.len() - i,
    {
        let c = chars[i];
        proof {
            assert(value@.take(i + 1) =~= value@.take(i as int) + seq![c]);
            lemma_escape_like_append(value@.take(i as int), seq![c]);
            assert(escape_like_spec(seq![c]) =~= escape_like_char(c) + escape_like_spec(seq![c].drop_first()));
            assert(seq![c].drop_first() =~= Seq::<char>::empty());
        }
        if c == '\\' || c == '%' || c == '_' {
            out.push('\\');
            out.push(c);
        } else {
            out.push(c);
        }
        assert(out@ =~= escape_like_spec(value@.take(i + 1)));
        i = i + 1;
    }
    proof {
        assert(value@.take(chars@.len() as int) =~= value@);
    }
    string_from_chars(out.as_slice())
}

/// The outcome of checking an optional filter date: blank means no filter; otherwise the
/// trimmed text must be a calendar date in `YYYY-MM-DD` form, and is returned in that form.
pub open spec fn filter_date_spec(value: Option<&str>, r: Result<Option<String>, SearchError>) -> bool {
    match value {
        None => r == Ok::<Option<String>, SearchError>(None),
        Some(v) => if trim_spec(v@).len() == 0 {
            r == Ok::<Option<String>, SearchError>(None)
        } else {
            match canonical_date_spec(v@) {
                Some(t) => r matches Ok(Some(d)) && d@ == t,
                None => search_fails_with(r, "invalid_date"@, "Use dates in YYYY-MM-DD format."@),
            }
        },
    }
}

/// Checks an optional filter date.
pub fn validate_date(value: Option<&str>) -> (r: Result<Option<String>, SearchError>)
    ensures
        filter_date_spec(value, r),
{
    match value {
        None => Ok(None),
        Some(v) => {
            if is_blank(v) {
                return Ok(None);
            }
            match canonical_date(v) {
                Some(d) => Ok(Some(d)),
                None => Err(error("invalid_date", "Use dates in YYYY-MM-DD format.")),
            }
        },
    }
}

/// A date range is inverted when its start sorts after its end; a missing date sorts before
/// every date, so a start without an end is inverted too.
pub open spec fn inverted_range(start: Option<Seq<char>>, end: Option<Seq<char>>) -> bool {
    match (start, end) {
        (Some(_), None) => true,
        (Some(s), Some(e)) => text_less(e, s),
        _ => false,
    }
}

/// The view of an optional text.
pub open spec fn opt_view(s: Option<&str>) -> Option<Seq<char>> {
    match s {
        Some(t) => Some(t@),
        None => None,
    }
}

/// Refuses a date range whose start comes after its end.
pub fn validate_date_range(start: Option<&str>, end: Option<&str>) -> (r: Result<(), SearchError>)
    ensures
        inverted_range(opt_view(start), opt_view(end)) ==> search_fails_with(
            r,
            "invalid_date_range"@,
            "The start date must be on or before the end date."@,
        ),
        !inverted_range(opt_view(start), opt_view(end)) ==> r is Ok,
{
    let inverted = match (start, end) {
        (Some(_), None) => true,
        (Some(s), Some(e)) => is_text_less(e, s),
        _ => false,
    };
    if inverted {
        return Err(error("invalid_date_range", "The start date must be on or before the end date."));
    }
    Ok(())
}


/// A search of the imported library.
#[derive(Debug)]
pub struct SearchLibraryRequest {
    pub imported_start_date: Option<String>,
    pub imported_end_date: Option<String>,
    pub captured_start_date: Option<String>,
    pub captured_end_date: Option<String>,
    pub media_types: Vec<MediaType>,
    pub tags: Vec<String>,
}

/// The results of a search.
#[derive(Debug)]
pub struct SearchLibraryResult {
    pub items: Vec<SearchLibraryItem>,
}

/// An imported item found by a search.
#[derive(Debug)]
pub struct SearchLibraryItem {
    pub candidate_id: i64,
    pub filename: String,
    pub media_type: String,
    pub effective_import_date: Option<String>,
    pub original_media_date: Option<String>,
    pub tags: Vec<String>,
    pub preview_url: Option<String>,
    pub preview_state: &'static str,
}

/// A request for the details of an imported item.
#[derive(Debug)]
pub struct MediaDetailsRequest {
    pub candidate_id: i64,
}

/// A request to replace the tags of an imported item.
#[derive(Debug)]
pub struct UpdateMediaTagsRequest {
    pub candidate_id: i64,
    pub tags: Vec<String>,
}

/// A request to act on the managed copy of an imported item.
#[derive(Debug)]
pub struct ManagedMediaActionRequest {
    pub candidate_id: i64,
}

/// A request to rotate the managed copy of an imported picture.
#[derive(Debug)]
pub struct RotateManagedMediaRequest {
    pub candidate_id: i64,
    pub direction: RotationDirection,
}

/// The direction of a quarter turn.
#[derive(Debug, Clone, Copy, PartialEq, Eq, Structural)]
pub enum RotationDirection {
    Left,
    Right,
}

/// A request to move the managed copy of an imported item to the Trash.
#[derive(Debug)]
pub struct DeleteManagedMediaRequest {
    pub candidate_id: i64,
    pub confirmed: bool,
}

/// The item whose managed copy was moved to the Trash.
#[derive(Debug)]
pub struct DeleteManagedMediaResult {
    pub candidate_id: i64,
}

/// The tags of an item after an update.
#[derive(Debug)]
pub struct UpdateMediaTagsResult {
    pub candidate_id: i64,
    pub tags: Vec<String>,
}

/// The details of an imported item and of its preview.
#[derive(Debug)]
pub struct MediaDetails {
    pub state: &'static str,
    pub candidate_id: i64,
    pub filename: String,
    pub media_type: String,
    pub tags: Vec<String>,
    pub preview_url: Option<String>,
    pub preview_state: &'static str,
    pub rotation_supported: bool,
    pub message: String,
}

/// A request for the library's tags that contain a text.
#[derive(Debug)]
pub struct ListLibraryTagsRequest {
    pub query: Option<String>,
}

/// Tags of the library.
#[derive(Debug)]
pub struct ListLibraryTagsResult {
    pub tags: Vec<String>,
}

/// The tags used most recently.
#[derive(Debug)]
pub struct RecentTagsResult {
    pub tags: Vec<String>,
}

/// The checked filters of a search.
#[derive(Debug)]
pub struct SearchFilters {
    pub imported_start: Option<String>,
    pub imported_end: Option<String>,
    pub captured_start: Option<String>,
    pub captured_end: Option<String>,
    pub media_types: Vec<MediaType>,
    pub tags: Vec<String>,
}

/// The view of an optional string.
pub open spec fn opt_string_view(s: Option<String>) -> Option<Seq<char>> {
    match s {
        Some(t) => Some(t@),
        None => None,
    }
}

/// A date filter as checked: `None` when it is not a date, else the date in `YYYY-MM-DD` form
/// or no filter when blank.
pub open spec fn date_filter(value: Option<String>) -> Option<Option<Seq<char>>> {
    match value {
        None => Some(None),
        Some(v) => if trim_spec(v@).len() == 0 {
            Some(None)
        } else {
            match canonical_date_spec(v@) {
                Some(t) => Some(Some(t)),
                None => None,
            }
        },
    }
}

/// Checks a date filter given as an optional string.
fn check_date(value: &Option<String>) -> (r: Result<Option<String>, SearchError>)
    ensures
        match date_filter(*value) {
            Some(d) => r matches Ok(x) && opt_string_view(x) == d,
            None => search_fails_with(r, "invalid_date"@, "Use dates in YYYY-MM-DD format."@),
        },
{
    match value {
        None => validate_date(None),
        Some(v) => validate_date(Some(v.as_str())),
    }
}

/// Checks a date range given as optional strings.
fn check_range(start: &Option<String>, end: &Option<String>) -> (r: Result<(), SearchError>)
    ensures
        inverted_range(opt_string_view(*start), opt_string_view(*end)) ==> search_fails_with(
            r,
            "invalid_date_range"@,
            "The start date must be on or before the end date."@,
        ),
        !inverted_range(opt_string_view(*start), opt_string_view(*end)) ==> r is Ok,
{
    let s = match start {
        Some(v) => Some(v.as_str()),
        None => None,
    };
    let e = match end {
        Some(v) => Some(v.as_str()),
        None => None,
    };
    validate_date_range(s, e)
}


/// The invalid-date error.
pub open spec fn invalid_date<T>(r: Result<T, SearchError>) -> bool {
    search_fails_with(r, "invalid_date"@, "Use dates in YYYY-MM-DD format."@)
}

/// The inverted-range error.
pub open spec fn invalid_range<T>(r: Result<T, SearchError>) -> bool {
    search_fails_with(r, "invalid_date_range"@, "The start date must be on or before the end date."@)
}

/// The filters of a search request after checking, in the order they are checked:
/// both import dates, their range, both capture dates, their range.
pub open spec fn search_filters_spec(request: SearchLibraryRequest, r: Result<SearchFilters, SearchError>) -> bool {
    let is = date_filter(request.imported_start_date);
    let ie = date_filter(request.imported_end_date);
    let cs = date_filter(request.captured_start_date);
    let ce = date_filter(request.captured_end_date);
    if is is None || ie is None {
        invalid_date(r)
    } else if inverted_range(is->0, ie->0) {
        invalid_range(r)
    } else if cs is None || ce is None {
        invalid_date(r)
    } else if inverted_range(cs->0, ce->0) {
        invalid_range(r)
    } else {
        r matches Ok(f) && {
            &&& opt_string_view(f.imported_start) == is->0
            &&& opt_string_view(f.imported_end) == ie->0
            &&& opt_string_view(f.captured_start) == cs->0
            &&& opt_string_view(f.captured_end) == ce->0
            &&& f.media_types@ == first_occurrences(request.media_types@)
            &&& string_views(f.tags@) == search_tags_spec(request.tags@)
        }
    }
}

/// Checks the filters of a search request and normalizes its media types and tags.
pub fn search_filters(request: SearchLibraryRequest) -> (r: Result<SearchFilters, SearchError>)
    ensures
        search_filters_spec(request, r),
{
    let imported_start = check_date(&request.imported_start_date)?;
    let imported_end = check_date(&request.imported_end_date)?;
    check_range(&imported_start, &imported_end)?;
    let captured_start = check_date(&request.captured_start_date)?;
    let captured_end = check_date(&request.captured_end_date)?;
    check_range(&captured_start, &captured_end)?;
    let media_types = normalize_media_types(request.media_types);
    let tags = normalize_tags(&request.tags);
    Ok(SearchFilters { imported_start, imported_end, captured_start, captured_end, media_types, tags })
}


/// The start of the query for imported items, up to the list of media types.
pub const IMPORTED_ITEMS_SELECT: &'static str = "SELECT d.candidate_id, d.destination_path, c.media_type, d.effective_import_date, d.original_media_date FROM item_decisions d JOIN review_candidates c ON c.id = d.candidate_id WHERE d.decision = 'imported' AND d.destination_path IS NOT NULL AND d.replaced_by_candidate_id IS NULL AND (?1 IS NULL OR d.effective_import_date >= ?1) AND (?2 IS NULL OR d.effective_import_date <= ?2) AND (?3 IS NULL OR d.original_media_date >= ?3) AND (?4 IS NULL OR d.original_media_date <= ?4) AND c.media_type IN (";

/// The condition that an item carries a tag, up to the tag's placeholder number.
pub const TAG_CONDITION: &'static str = " AND EXISTS (SELECT 1 FROM candidate_tags ct JOIN tags t ON t.id = ct.tag_id WHERE ct.candidate_id = d.candidate_id AND t.normalized_name = ?";

/// The order of search results: newest import date first, then by candidate.
pub const IMPORTED_ITEMS_ORDER: &'static str = " ORDER BY d.effective_import_date DESC, d.candidate_id ASC";

/// The numbered placeholders `?first, ?first+1, ...`, `n` of them, separated by commas.
pub open spec fn placeholder_list(first: nat, n: nat) -> Seq<char>
    decreases n,
{
    if n == 0 {
        seq![]
    } else if n == 1 {
        seq!['?'] + decimal_spec(first)
    } else {
        placeholder_list(first, (n - 1) as nat) + seq![',', ' ', '?'] + decimal_spec(
            (first + n - 1) as nat,
        )
    }
}

/// One tag condition per tag, with placeholders numbered from `first`.
pub open spec fn tag_conditions(first: nat, n: nat) -> Seq<char>
    decreases n,
{
    if n == 0 {
        seq![]
    } else {
        tag_conditions(first, (n - 1) as nat) + TAG_CONDITION@ + decimal_spec((first + n - 1) as nat)
            + seq![')']
    }
}

/// The query for imported items with `media_count` media types and `tag_count` tags: the four
/// dates are placeholders 1 to 4, the media types follow, then the tags.
pub open spec fn imported_items_sql_spec(media_count: nat, tag_count: nat) -> Seq<char> {
    IMPORTED_ITEMS_SELECT@ + placeholder_list(5, media_count) + seq![')'] + tag_conditions(
        5 + media_count,
        tag_count,
    ) + IMPORTED_ITEMS_ORDER@
}

/// Within the tag conditions numbered from `first`, the condition for tag `k` comes after the
/// first `k` conditions and names placeholder `first + k`.
proof fn lemma_tag_condition_at(first: nat, n: nat, k: nat) -> (rest: Seq<char>)
    requires
        k < n,
    ensures
        tag_conditions(first, n) == tag_conditions(first, k) + TAG_CONDITION@ + decimal_spec(
            first + k,
        ) + seq![')'] + rest,
    decreases n,
{
    if k == n - 1 {
        let rest = Seq::<char>::empty();
        assert(tag_conditions(first, n) =~= tag_conditions(first, k) + TAG_CONDITION@
            + decimal_spec(first + k) + seq![')'] + rest);
        rest
    } else {
        let inner = lemma_tag_condition_at(first, (n - 1) as nat, k);
        let rest = inner + TAG_CONDITION@ + decimal_spec((first + n - 1) as nat) + seq![')'];
        assert(tag_conditions(first, n) =~= tag_conditions(first, k) + TAG_CONDITION@
            + decimal_spec(first + k) + seq![')'] + rest);
        rest
    }
}

/// Every tag of a search is compared through its own placeholder: in the query for
/// `media_count` media types and `tag_count` tags, the condition for tag `k` follows the select,
/// the media-type list and the conditions for the tags before it, and names placeholder
/// `5 + media_count + k`, the position just after the four dates, the media types and the `k`
/// tags before it.
pub proof fn lemma_each_tag_names_its_placeholder(media_count: nat, tag_count: nat, k: nat)
    requires
        k < tag_count,
    ensures
        (IMPORTED_ITEMS_SELECT@ + placeholder_list(5, media_count) + seq![')'] + tag_conditions(
            5 + media_count,
            k,
        ) + TAG_CONDITION@ + decimal_spec(5 + media_count + k) + seq![')']).is_prefix_of(
            imported_items_sql_spec(media_count, tag_count),
        ),
{
    let rest = lemma_tag_condition_at(5 + media_count, tag_count, k);
    let part = IMPORTED_ITEMS_SELECT@ + placeholder_list(5, media_count) + seq![')']
        + tag_conditions(5 + media_count, k) + TAG_CONDITION@ + decimal_spec(5 + media_count + k)
        + seq![')'];
    let post = rest + IMPORTED_ITEMS_ORDER@;
    let whole = imported_items_sql_spec(media_count, tag_count);
    assert(whole =~= part + post);
    assert(part =~= whole.subrange(0, part.len() as int));
}

/// The placeholder for media type `k` comes after those for the types before it and is
/// numbered `first + k`.
proof fn lemma_placeholder_at(first: nat, n: nat, k: nat) -> (rest: Seq<char>)
    requires
        k < n,
    ensures
        placeholder_list(first, n) == placeholder_list(first, k) + (if k == 0 {
            seq!['?']
        } else {
            seq![',', ' ', '?']
        }) + decimal_spec(first + k) + rest,
    decreases n,
{
    if k == n - 1 {
        let rest = Seq::<char>::empty();
        if k == 0 {
            assert(placeholder_list(first, k) =~= Seq::<char>::empty());
        }
        assert(placeholder_list(first, n) =~= placeholder_list(first, k) + (if k == 0 {
            seq!['?']
        } else {
            seq![',', ' ', '?']
        }) + decimal_spec(first + k) + rest);
        rest
    } else {
        let inner = lemma_placeholder_at(first, (n - 1) as nat, k);
        let rest = inner + seq![',', ' ', '?'] + decimal_spec((first + n - 1) as nat);
        assert(placeholder_list(first, n) =~= placeholder_list(first, k) + (if k == 0 {
            seq!['?']
        } else {
            seq![',', ' ', '?']
        }) + decimal_spec(first + k) + rest);
        rest
    }
}

/// Every media type of a search is listed through its own placeholder: in the query, the
/// placeholder for media type `k` follows the select and the placeholders of the types before
/// it, and is numbered `5 + k`, just after the four dates and the `k` types before it.
pub proof fn lemma_every_media_type_names_its_placeholder(media_count: nat, tag_count: nat)
    ensures
        forall|k: int|
            0 <= k < media_count ==> (IMPORTED_ITEMS_SELECT@ + #[trigger] placeholder_list(
                5,
                k as nat,
            ) + (if k == 0 {
                seq!['?']
            } else {
                seq![',', ' ', '?']
            }) + decimal_spec((5 + k) as nat)).is_prefix_of(
                imported_items_sql_spec(media_count, tag_count),
            ),
{
    assert forall|k: int|
        0 <= k < media_count implies (IMPORTED_ITEMS_SELECT@ + #[trigger] placeholder_list(
            5,
            k as nat,
        ) + (if k == 0 {
            seq!['?']
        } else {
            seq![',', ' ', '?']
        }) + decimal_spec((5 + k) as nat)).is_prefix_of(
            imported_items_sql_spec(media_count, tag_count),
        ) by {
        let rest = lemma_placeholder_at(5, media_count, k as nat);
        let part = IMPORTED_ITEMS_SELECT@ + placeholder_list(5, k as nat) + (if k == 0 {
            seq!['?']
        } else {
            seq![',', ' ', '?']
        }) + decimal_spec((5 + k) as nat);
        let whole = imported_items_sql_spec(media_count, tag_count);
        let post = rest + seq![')'] + tag_conditions(5 + media_count, tag_count)
            + IMPORTED_ITEMS_ORDER@;
        assert(whole =~= part + post);
        assert(part =~= whole.subrange(0, part.len() as int));
    }
}

/// `lemma_each_tag_names_its_placeholder` for every tag at once.
proof fn lemma_every_tag_names_its_placeholder(media_count: nat, tag_count: nat)
    ensures
        forall|k: int|
            0 <= k < tag_count ==> (IMPORTED_ITEMS_SELECT@ + placeholder_list(5, media_count)
                + seq![')'] + #[trigger] tag_conditions(5 + media_count, k as nat) + TAG_CONDITION@
                + decimal_spec((5 + media_count + k) as nat) + seq![')']).is_prefix_of(
                imported_items_sql_spec(media_count, tag_count),
            ),
{
    assert forall|k: int|
        0 <= k < tag_count implies (IMPORTED_ITEMS_SELECT@ + placeholder_list(5, media_count)
            + seq![')'] + #[trigger] tag_conditions(5 + media_count, k as nat) + TAG_CONDITION@
            + decimal_spec((5 + media_count + k) as nat) + seq![')']).is_prefix_of(
            imported_items_sql_spec(media_count, tag_count),
        ) by {
        lemma_each_tag_names_its_placeholder(media_count, tag_count, k as nat);
    }
}

/// The values bound to the query's placeholders, in order; `None` binds `NULL`.
pub open spec fn query_values_spec(f: SearchFilters, values: Seq<Option<String>>) -> bool {
    &&& values.len() == 4 + f.media_types@.len() + f.tags@.len()
    &&& opt_string_view(values[0]) == opt_string_view(f.imported_start)
    &&& opt_string_view(values[1]) == opt_string_view(f.imported_end)
    &&& opt_string_view(values[2]) == opt_string_view(f.captured_start)
    &&& opt_string_view(values[3]) == opt_string_view(f.captured_end)
    &&& forall|k: int| 0 <= k < f.media_types@.len() ==> opt_string_view(#[trigger] values[4 + k])
        == Some(media_type_name(f.media_types@[k]))
    &&& forall|k: int| 0 <= k < f.tags@.len() ==> opt_string_view(
        #[trigger] values[4 + f.media_types@.len() + k],
    ) == Some(f.tags@[k]@)
}

/// A copy of an optional string.
fn copy_opt(s: &Option<String>) -> (r: Option<String>)
    ensures
        opt_string_view(r) == opt_string_view(*s),
{
    match s {
        Some(t) => Some(t.clone()),
        None => None,
    }
}

/// The query for the imported items that match the filters, with its values; no query when the
/// search selects no media type.
pub fn imported_items_query(f: &SearchFilters) -> (r: Option<(String, Vec<Option<String>>)>)
    ensures
        f.media_types@.len() == 0 ==> r is None,
        f.media_types@.len() > 0 ==> (r matches Some((sql, values)) && sql@ == imported_items_sql_spec(
            f.media_types@.len(),
            f.tags@.len(),
        ) && query_values_spec(*f, values@)),
        f.media_types@.len() > 0 ==> (r matches Some((sql, values)) && forall|k: int|
            #![trigger f.tags@[k]]
            0 <= k < f.tags@.len() ==> (IMPORTED_ITEMS_SELECT@ + placeholder_list(
                5,
                f.media_types@.len(),
            ) + seq![')'] + tag_conditions(5 + f.media_types@.len(), k as nat) + TAG_CONDITION@
                + decimal_spec((5 + f.media_types@.len() + k) as nat) + seq![')']).is_prefix_of(
                sql@,
            )),
        f.media_types@.len() > 0 ==> (r matches Some((sql, values)) && forall|k: int|
            #![trigger f.tags@[k]]
            0 <= k < f.tags@.len() ==> opt_string_view(values@[(5 + f.media_types@.len() + k) - 1])
                == Some(f.tags@[k]@)),
        f.media_types@.len() > 0 ==> (r matches Some((sql, values)) && forall|k: int|
            #![trigger f.media_types@[k]]
            0 <= k < f.media_types@.len() ==> (IMPORTED_ITEMS_SELECT@ + placeholder_list(
                5,
                k as nat,
            ) + (if k == 0 {
                seq!['?']
            } else {
                seq![',', ' ', '?']
            }) + decimal_spec((5 + k) as nat)).is_prefix_of(sql@) && opt_string_view(
                values@[(5 + k) - 1],
            ) == Some(media_type_name(f.media_types@[k]))),
{
    let m = f.media_types.len();
    if m == 0 {
        return None;
    }
    let mut sql = String::from_str(IMPORTED_ITEMS_SELECT);
    let mut values: Vec<Option<String>> = Vec::new();
    values.push(copy_opt(&f.imported_start));
    values.push(copy_opt(&f.imported_end));
    values.push(copy_opt(&f.captured_start));
    values.push(copy_opt(&f.captured_end));
    proof {
        reveal_strlit(", ?");
        reveal_strlit("?");
        reveal_strlit(")");
    }
    let mut index: usize = 0;
    while index < m
        invariant
            m == f.media_types@.len(),
            0 <= index <= m,
            sql@ == IMPORTED_ITEMS_SELECT@ + placeholder_list(5, index as nat),
            values@.len() == 4 + index,
            opt_string_view(values@[0]) == opt_string_view(f.imported_start),
            opt_string_view(values@[1]) == opt_string_view(f.imported_end),
            opt_string_view(values@[2]) == opt_string_view(f.captured_start),
            opt_string_view(values@[3]) == opt_string_view(f.captured_end),
            forall|k: int| 0 <= k < index ==> opt_string_view(#[trigger] values@[4 + k]) == Some(
                media_type_name(f.media_types@[k]),
            ),
        decreases m - index,
    {
        let number = decimal(index as u128 + 5);
        if index > 0 {
            sql.append(", ?");
        } else {
            sql.append("?");
        }
        sql.append(number.as_str());
        proof {
            reveal_strlit(", ?");
            reveal_strlit("?");
            assert(sql@ =~= IMPORTED_ITEMS_SELECT@ + placeholder_list(5, (index + 1) as nat));
        }
        let name = f.media_types[index].as_str();
        values.push(Some(String::from_str(name)));
        index = index + 1;
    }
    sql.append(")");
    let ghost head = sql@;
    assert(head =~= IMPORTED_ITEMS_SELECT@ + placeholder_list(5, m as nat) + seq![')']);
    let t = f.tags.len();
    let mut j: usize = 0;
    while j < t
        invariant
            m == f.media_types@.len(),
            t == f.tags@.len(),
            0 <= j <= t,
            head == IMPORTED_ITEMS_SELECT@ + placeholder_list(5, m as nat) + seq![')'],
            sql@ == head + tag_conditions((5 + m) as nat, j as nat),
            values@.len() == 4 + m + j,
            opt_string_view(values@[0]) == opt_string_view(f.imported_start),
            opt_string_view(values@[1]) == opt_string_view(f.imported_end),
            opt_string_view(values@[2]) == opt_string_view(f.captured_start),
            opt_string_view(values@[3]) == opt_string_view(f.captured_end),
            forall|k: int| 0 <= k < m ==> opt_string_view(#[trigger] values@[4 + k]) == Some(
                media_type_name(f.media_types@[k]),
            ),
            forall|k: int| 0 <= k < j ==> opt_string_view(#[trigger] values@[4 + m + k]) == Some(
                f.tags@[k]@,
            ),
        decreases t - j,
    {
        let number = decimal(j as u128 + 5 + m as u128);
        sql.append(TAG_CONDITION);
        sql.append(number.as_str());
        sql.append(")");
        proof {
            reveal_strlit(")");
        }
        assert(sql@ =~= head + tag_conditions((5 + m) as nat, (j + 1) as nat));
        values.push(Some(f.tags[j].clone()));
        j = j + 1;
    }
    sql.append(IMPORTED_ITEMS_ORDER);
    assert(sql@ =~= imported_items_sql_spec(m as nat, t as nat));
    proof {
        lemma_every_tag_names_its_placeholder(m as nat, t as nat);
        lemma_every_media_type_names_its_placeholder(m as nat, t as nat);
        assert forall|k: int|
            #![trigger f.media_types@[k]]
            0 <= k < f.media_types@.len() implies opt_string_view(values@[(5 + k) - 1]) == Some(
                media_type_name(f.media_types@[k]),
            ) by {
            assert(opt_string_view(values@[4 + k]) == Some(media_type_name(f.media_types@[k])));
        }
        assert forall|k: int|
            #![trigger f.tags@[k]]
            0 <= k < f.tags@.len() implies opt_string_view(values@[(5 + f.media_types@.len() + k) - 1])
                == Some(f.tags@[k]@) by {
            assert(opt_string_view(values@[4 + m + k]) == Some(f.tags@[k]@));
        }
    }
    Some((sql, values))
}


/// An imported item as the catalogue holds it.
#[derive(Debug)]
pub struct CatalogueItem {
    pub candidate_id: i64,
    pub destination_path: String,
    pub media_type: String,
    pub effective_import_date: Option<String>,
    pub original_media_date: Option<String>,
    pub tags: Vec<String>,
}

/// An imported item as a search shows it, with the preview of its managed copy.
pub fn search_item(item: CatalogueItem, preview: (Option<String>, &'static str)) -> (r: SearchLibraryItem)
    ensures
        r.candidate_id == item.candidate_id,
        match std_file_name(item.destination_path@) {
            Some(name) => r.filename@ == name,
            None => r.filename@.len() == 0,
        },
        r.media_type == item.media_type,
        r.effective_import_date == item.effective_import_date,
        r.original_media_date == item.original_media_date,
        r.tags == item.tags,
        r.preview_url == preview.0,
        r.preview_state == preview.1,
{
    let filename = match file_name(item.destination_path.as_str()) {
        Some(n) => n,
        None => String::new(),
    };
    SearchLibraryItem {
        candidate_id: item.candidate_id,
        filename,
        media_type: item.media_type,
        effective_import_date: item.effective_import_date,
        original_media_date: item.original_media_date,
        tags: item.tags,
        preview_url: preview.0,
        preview_state: preview.1,
    }
}

/// The error a locked library gives a search command.
pub open spec fn locked_search<T>(r: Result<T, SearchError>) -> bool {
    search_fails_with(
        r,
        "library_locked"@,
        "The protected library is locked. Unlock it before reviewing media."@,
    )
}

/// The query for the ten most used tags of active imports that contain a text, most used
/// first and then by name.
pub const LIBRARY_TAGS_SQL: &'static str = "SELECT t.normalized_name, COUNT(*) AS frequency FROM tags t JOIN candidate_tags ct ON ct.tag_id = t.id JOIN item_decisions d ON d.candidate_id = ct.candidate_id WHERE d.decision = 'imported' AND d.destination_path IS NOT NULL AND d.replaced_by_candidate_id IS NULL AND (?1 = '' OR t.normalized_name LIKE ?2 ESCAPE '\\') GROUP BY t.id, t.normalized_name ORDER BY frequency DESC, t.normalized_name ASC LIMIT 10";

/// The query for the five tags of active imports used most recently.
pub const RECENT_TAGS_SQL: &'static str = "SELECT t.normalized_name, MAX(d.decided_at) AS last_used FROM tags t JOIN candidate_tags ct ON ct.tag_id = t.id JOIN item_decisions d ON d.candidate_id = ct.candidate_id WHERE d.decision = 'imported' AND d.destination_path IS NOT NULL AND d.replaced_by_candidate_id IS NULL GROUP BY t.id, t.normalized_name ORDER BY last_used DESC, t.normalized_name ASC LIMIT 5";

/// The text a tag lookup searches for: the normalized query, or nothing.
pub open spec fn tag_query_spec(query: Option<String>) -> Seq<char> {
    match query {
        Some(q) => normalize_tag_spec(q@),
        None => seq![],
    }
}

/// The tags of active imports that contain the normalized query, as `run` reads them with
/// `LIBRARY_TAGS_SQL`, the query and the `LIKE` pattern that contains it literally.
pub fn list_library_tags(
    session: &LibrarySession,
    request: ListLibraryTagsRequest,
    run: impl FnOnce(&str, String, String) -> Result<Vec<String>, SearchError>,
) -> (r: Result<ListLibraryTagsResult, SearchError>)
    requires
        forall|sql: &str, q: String, p: String| run.requires((sql, q, p)),
    ensures
        session.current is None ==> locked_search(r),
        session.current is Some ==> exists|q: String, p: String, found: Result<Vec<String>, SearchError>|
            {
                &&& q@ == tag_query_spec(request.query)
                &&& p@ == seq!['%'] + escape_like_spec(q@) + seq!['%']
                &&& run.ensures((LIBRARY_TAGS_SQL, q, p), found)
                &&& match found {
                    Err(e) => r == Err::<ListLibraryTagsResult, SearchError>(e),
                    Ok(tags) => r matches Ok(res) && res.tags == tags,
                }
            },
{
    let query = match &request.query {
        Some(q) => normalize_tag(q.as_str()),
        None => String::new(),
    };
    match catalogue_session(session) {
        Err(e) => {
            return Err(SearchError::from(e));
        },
        Ok(_) => {},
    }
    let mut pattern = String::from_str("%");
    let escaped = escape_like(query.as_str());
    pattern.append(escaped.as_str());
    pattern.append("%");
    proof {
        reveal_strlit("%");
    }
    let ghost qg = query;
    let ghost pg = pattern;
    let found = run(LIBRARY_TAGS_SQL, query, pattern);
    let ghost found_g = found;
    assert(run.ensures((LIBRARY_TAGS_SQL, qg, pg), found_g));
    match found {
        Err(e) => Err(e),
        Ok(tags) => Ok(ListLibraryTagsResult { tags }),
    }
}

/// The tags of active imports used most recently, as `run` reads them with
/// `RECENT_TAGS_SQL`.
pub fn recent_library_tags(
    session: &LibrarySession,
    run: impl FnOnce(&str) -> Result<Vec<String>, SearchError>,
) -> (r: Result<RecentTagsResult, SearchError>)
    requires
        forall|sql: &str| run.requires((sql,)),
    ensures
        session.current is None ==> locked_search(r),
        session.current is Some ==> exists|found: Result<Vec<String>, SearchError>|
            {
                &&& run.ensures((RECENT_TAGS_SQL,), found)
                &&& match found {
                    Err(e) => r == Err::<RecentTagsResult, SearchError>(e),
                    Ok(tags) => r matches Ok(res) && res.tags == tags,
                }
            },
{
    match catalogue_session(session) {
        Err(e) => {
            return Err(SearchError::from(e));
        },
        Ok(_) => {},
    }
    let found = run(RECENT_TAGS_SQL);
    match found {
        Err(e) => Err(e),
        Ok(tags) => Ok(RecentTagsResult { tags }),
    }
}

/// What the file system says of a managed copy and of the library around it.
#[derive(Debug)]
pub struct ManagedFileProbe {
    /// The canonical path of the library folder, when it resolves.
    pub canonical_root: Option<String>,
    /// The copy is a plain file, by its own file type (links are not followed).
    pub plain_file: bool,
    /// The copy opens for reading.
    pub opens: bool,
    /// The canonical path of the copy, when it resolves.
    pub canonical_destination: Option<String>,
}

/// The copy lies inside the library and outside its state folder.
pub open spec fn inside_library(destination: Seq<char>, root: Seq<char>) -> bool {
    std_starts_with(destination, root) && !std_starts_with(destination, std_join(root, STATE_DIR@))
}

/// The canonical path of a managed copy that is a readable plain file inside the library.
pub open spec fn managed_target_spec(probe: ManagedFileProbe) -> Option<Seq<char>> {
    match probe.canonical_root {
        None => None,
        Some(root) => if !probe.plain_file || !probe.opens {
            None
        } else {
            match probe.canonical_destination {
                None => None,
                Some(dest) => if inside_library(dest@, root@) {
                    Some(dest@)
                } else {
                    None
                },
            }
        },
    }
}

/// The message for a copy that is missing or unreadable.
pub open spec fn missing_copy_message() -> Seq<char> {
    "The managed media file is missing or cannot be read."@
}

/// Checks that a managed copy is a readable plain file inside the library, outside its state
/// folder; gives its canonical path.
pub fn validate_managed_file(probe: &ManagedFileProbe) -> (r: Result<String, SearchError>)
    ensures
        probe.canonical_root is None ==> search_fails_with(
            r,
            "media_unavailable"@,
            "The protected library is unavailable. Unlock it again and retry."@,
        ),
        probe.canonical_root is Some && (!probe.plain_file || !probe.opens
            || probe.canonical_destination is None) ==> search_fails_with(
            r,
            "media_unavailable"@,
            missing_copy_message(),
        ),
        probe.canonical_root is Some && probe.plain_file && probe.opens
            && probe.canonical_destination is Some ==> if inside_library(
            probe.canonical_destination->0@,
            probe.canonical_root->0@,
        ) {
            r matches Ok(d) && d@ == probe.canonical_destination->0@
        } else {
            search_fails_with(
                r,
                "media_unavailable"@,
                "The selected file is outside the managed media library."@,
            )
        },
{
    let root = match &probe.canonical_root {
        None => {
            return Err(error("media_unavailable", "The protected library is unavailable. Unlock it again and retry."));
        },
        Some(r) => r,
    };
    if !probe.plain_file || !probe.opens {
        return Err(error("media_unavailable", "The managed media file is missing or cannot be read."));
    }
    let destination = match &probe.canonical_destination {
        None => {
            return Err(error("media_unavailable", "The managed media file is missing or cannot be read."));
        },
        Some(d) => d,
    };
    let state_dir = join_path(root.as_str(), STATE_DIR);
    if !starts_with(destination.as_str(), root.as_str()) || starts_with(destination.as_str(), state_dir.as_str()) {
        return Err(error("media_unavailable", "The selected file is outside the managed media library."));
    }
    Ok(destination.clone())
}

/// The preview of a managed copy: its asset URL and `"available"` when it is a readable
/// plain file inside the library that `allow` lets the preview read, else nothing and
/// `"unavailable"`.
pub fn safe_preview_url(probe: &ManagedFileProbe, allow: impl FnOnce(&String) -> bool) -> (r: (Option<String>, &'static str))
    requires
        forall|p: &String| allow.requires((p,)),
    ensures
        match managed_target_spec(*probe) {
            None => r.0 is None && r.1@ == "unavailable"@,
            Some(dest) => exists|d: String, allowed: bool|
                {
                    &&& d@ == dest
                    &&& allow.ensures((&d,), allowed)
                    &&& if allowed {
                        r.0 matches Some(url) && url@ == asset_url_spec(dest) && r.1@ == "available"@
                    } else {
                        r.0 is None && r.1@ == "unavailable"@
                    }
                },
        },
{
    let checked = validate_managed_file(probe);
    let destination = match checked {
        Err(_) => {
            return (None, "unavailable");
        },
        Ok(d) => d,
    };
    let allowed = allow(&destination);
    if !allowed {
        return (None, "unavailable");
    }
    match asset_url(destination.as_str()) {
        Ok(url) => (Some(url), "available"),
        Err(_) => (None, "unavailable"),
    }
}

/// The preview URL of a managed copy with its revision, so that a changed copy is fetched
/// again: the URL, `?revision=` and the copy's modification time in nanoseconds.
pub fn versioned_preview_url(url: String, revision: u128) -> (r: String)
    ensures
        r@ == url@ + "?revision="@ + decimal_spec(revision as nat),
{
    let mut out = url;
    out.append("?revision=");
    let number = decimal(revision);
    out.append(number.as_str());
    out
}


/// An imported item whose managed copy was found safe: its canonical path, media type and
/// tags.
#[derive(Debug)]
pub struct ResolvedImportedItem {
    pub candidate_id: i64,
    pub destination: String,
    pub media_type: String,
    pub tags: Vec<String>,
}

/// Resolves only current managed copies: `lookup` finds the active import's destination and
/// media type, `probe` looks at the copy, and `tags` reads the item's tags. Callers never
/// receive or accept arbitrary paths.
pub fn resolve_active_imported_item(
    candidate_id: i64,
    lookup: impl FnOnce(i64) -> Result<Option<(String, String)>, SearchError>,
    probe: impl FnOnce(&String) -> ManagedFileProbe,
    tags: impl FnOnce(i64) -> Result<Vec<String>, SearchError>,
) -> (r: Result<ResolvedImportedItem, SearchError>)
    requires
        lookup.requires((candidate_id,)),
        forall|p: &String| probe.requires((p,)),
        tags.requires((candidate_id,)),
    ensures
        exists|found: Result<Option<(String, String)>, SearchError>|
            {
                &&& lookup.ensures((candidate_id,), found)
                &&& match found {
                    Err(e) => r == Err::<ResolvedImportedItem, SearchError>(e),
                    Ok(None) => search_fails_with(
                        r,
                        "media_unavailable"@,
                        "This managed media item is no longer available in the active library."@,
                    ),
                    Ok(Some((destination, media_type))) => exists|seen: ManagedFileProbe|
                        {
                            &&& probe.ensures((&destination,), seen)
                            &&& match managed_target_spec(seen) {
                                None => r is Err,
                                Some(canonical) => exists|t: Result<Vec<String>, SearchError>|
                                    {
                                        &&& tags.ensures((candidate_id,), t)
                                        &&& match t {
                                            Err(e) => r == Err::<ResolvedImportedItem, SearchError>(e),
                                            Ok(list) => r matches Ok(item) && item.candidate_id
                                                == candidate_id && item.destination@ == canonical
                                                && item.media_type == media_type && item.tags == list,
                                        }
                                    },
                            }
                        },
                }
            },
{
    let found = lookup(candidate_id);
    let ghost found_g = found;
    let (destination, media_type) = match found {
        Err(e) => {
            return Err(e);
        },
        Ok(None) => {
            return Err(
                error(
                    "media_unavailable",
                    "This managed media item is no longer available in the active library.",
                ),
            );
        },
        Ok(Some(row)) => row,
    };
    let seen = probe(&destination);
    let ghost seen_g = seen;
    let canonical = match validate_managed_file(&seen) {
        Err(e) => {
            assert(managed_target_spec(seen_g) is None);
            return Err(e);
        },
        Ok(c) => c,
    };
    let t = tags(candidate_id);
    let ghost t_g = t;
    match t {
        Err(e) => Err(e),
        Ok(list) => Ok(ResolvedImportedItem { candidate_id, destination: canonical, media_type, tags: list }),
    }
}

/// Replaces the tag set of an imported item after checking that its managed copy is still
/// safe: `resolve` resolves the item, and `replace` stores the normalized tags.
pub fn update_media_tags(
    session: &LibrarySession,
    request: UpdateMediaTagsRequest,
    resolve: impl FnOnce(i64) -> Result<ResolvedImportedItem, SearchError>,
    replace: impl FnOnce(i64, &Vec<String>) -> Result<(), SearchError>,
) -> (r: Result<UpdateMediaTagsResult, SearchError>)
    requires
        session.current is Some ==> resolve.requires((request.candidate_id,)),
        forall|tags: &Vec<String>|
            session.current is Some && (exists|i: ResolvedImportedItem| #[trigger]
                resolve.ensures((request.candidate_id,), Ok::<ResolvedImportedItem, SearchError>(i)))
                ==> #[trigger] replace.requires((request.candidate_id, tags)),
    ensures
        session.current is None ==> locked_search(r),
        session.current is Some ==> exists|item: Result<ResolvedImportedItem, SearchError>|
            {
                &&& resolve.ensures((request.candidate_id,), item)
                &&& match item {
                    Err(e) => r == Err::<UpdateMediaTagsResult, SearchError>(e),
                    Ok(_) => exists|tags: Vec<String>, stored: Result<(), SearchError>|
                        {
                            &&& string_views(tags@) == search_tags_spec(request.tags@)
                            &&& replace.ensures((request.candidate_id, &tags), stored)
                            &&& match stored {
                                Err(e) => r == Err::<UpdateMediaTagsResult, SearchError>(e),
                                Ok(_) => r matches Ok(res) && res.candidate_id == request.candidate_id
                                    && res.tags == tags,
                            }
                        },
                }
            },
{
    let tags = normalize_tags(&request.tags);
    match catalogue_session(session) {
        Err(e) => {
            return Err(SearchError::from(e));
        },
        Ok(_) => {},
    }
    let item = resolve(request.candidate_id);
    let ghost item_g = item;
    match item {
        Err(e) => {
            return Err(e);
        },
        Ok(i) => {
            assert(resolve.ensures((request.candidate_id,), Ok::<ResolvedImportedItem, SearchError>(i)));
        },
    }
    let stored = replace(request.candidate_id, &tags);
    let ghost stored_g = stored;
    assert(replace.ensures((request.candidate_id, &tags), stored_g));
    match stored {
        Err(e) => Err(e),
        Ok(()) => Ok(UpdateMediaTagsResult { candidate_id: request.candidate_id, tags }),
    }
}

/// The validated path of an imported item's managed copy, for copying or revealing it.
pub fn managed_media_path(
    session: &LibrarySession,
    request: ManagedMediaActionRequest,
    resolve: impl FnOnce(i64) -> Result<ResolvedImportedItem, SearchError>,
) -> (r: Result<String, SearchError>)
    requires
        resolve.requires((request.candidate_id,)),
    ensures
        session.current is None ==> locked_search(r),
        session.current is Some ==> exists|item: Result<ResolvedImportedItem, SearchError>|
            {
                &&& resolve.ensures((request.candidate_id,), item)
                &&& match item {
                    Err(e) => r == Err::<String, SearchError>(e),
                    Ok(i) => r == Ok::<String, SearchError>(i.destination),
                }
            },
{
    match catalogue_session(session) {
        Err(e) => {
            return Err(SearchError::from(e));
        },
        Ok(_) => {},
    }
    match resolve(request.candidate_id) {
        Err(e) => Err(e),
        Ok(item) => Ok(item.destination),
    }
}

/// Moves the managed copy of an imported item to the Trash before hiding it from searches:
/// only a confirmed request acts; `resolve` resolves the item, `move_to_trash` moves its copy
/// and `clear` removes the copy from the catalogue.
pub fn delete_managed_media_with_trash(
    session: &LibrarySession,
    request: DeleteManagedMediaRequest,
    resolve: impl FnOnce(i64) -> Result<ResolvedImportedItem, SearchError>,
    move_to_trash: impl FnOnce(&String) -> Result<(), String>,
    clear: impl FnOnce(i64) -> Result<(), SearchError>,
) -> (r: Result<DeleteManagedMediaResult, SearchError>)
    requires
        request.confirmed && session.current is Some ==> resolve.requires((request.candidate_id,)),
        forall|p: &String|
            request.confirmed && session.current is Some && (exists|i: ResolvedImportedItem|
                #[trigger] resolve.ensures(
                    (request.candidate_id,),
                    Ok::<ResolvedImportedItem, SearchError>(i),
                ) && i.destination == *p) ==> #[trigger] move_to_trash.requires((p,)),
        forall|id: i64|
            request.confirmed && session.current is Some && (exists|i: ResolvedImportedItem|
                #[trigger] resolve.ensures(
                    (request.candidate_id,),
                    Ok::<ResolvedImportedItem, SearchError>(i),
                ) && i.candidate_id == id && move_to_trash.ensures(
                    (&i.destination,),
                    Ok::<(), String>(()),
                )) ==> #[trigger] clear.requires((id,)),
    ensures
        !request.confirmed ==> search_fails_with(
            r,
            "confirmation_required"@,
            "Confirm moving the managed copy to Trash before deleting it."@,
        ),
        request.confirmed && session.current is None ==> locked_search(r),
        request.confirmed && session.current is Some ==> exists|item: Result<ResolvedImportedItem, SearchError>|
            {
                &&& resolve.ensures((request.candidate_id,), item)
                &&& match item {
                    Err(e) => r == Err::<DeleteManagedMediaResult, SearchError>(e),
                    Ok(i) => exists|moved: Result<(), String>|
                        {
                            &&& move_to_trash.ensures((&i.destination,), moved)
                            &&& match moved {
                                Err(_) => search_fails_with(
                                    r,
                                    "trash_failed"@,
                                    "Could not move the managed copy to Trash. It remains in the library."@,
                                ),
                                Ok(_) => exists|cleared: Result<(), SearchError>|
                                    {
                                        &&& clear.ensures((i.candidate_id,), cleared)
                                        &&& match cleared {
                                            Err(e) => r == Err::<DeleteManagedMediaResult, SearchError>(e),
                                            Ok(_) => r matches Ok(res) && res.candidate_id == i.candidate_id,
                                        }
                                    },
                            }
                        },
                }
            },
{
    if !request.confirmed {
        return Err(error("confirmation_required", "Confirm moving the managed copy to Trash before deleting it."));
    }
    match catalogue_session(session) {
        Err(e) => {
            return Err(SearchError::from(e));
        },
        Ok(_) => {},
    }
    let item = resolve(request.candidate_id);
    let ghost item_g = item;
    let item = match item {
        Err(e) => {
            return Err(e);
        },
        Ok(i) => {
            assert(resolve.ensures((request.candidate_id,), Ok::<ResolvedImportedItem, SearchError>(i)));
            i
        },
    };
    let moved = move_to_trash(&item.destination);
    let ghost moved_g = moved;
    match moved {
        Err(_) => {
            return Err(error("trash_failed", "Could not move the managed copy to Trash. It remains in the library."));
        },
        Ok(u) => {
            assert(moved_g == Ok::<(), String>(u));
        },
    }
    let cleared = clear(item.candidate_id);
    let ghost cleared_g = cleared;
    match cleared {
        Err(e) => Err(e),
        Ok(()) => Ok(DeleteManagedMediaResult { candidate_id: item.candidate_id }),
    }
}

/// The details of an imported item: `preview` gives the preview of its managed copy (see
/// `safe_preview_url`), `revision` the copy's modification time in nanoseconds, and
/// `rotation` whether its format can be rotated.
pub fn media_details(
    session: &LibrarySession,
    request: MediaDetailsRequest,
    resolve: impl FnOnce(i64) -> Result<ResolvedImportedItem, SearchError>,
    preview: impl FnOnce(&String) -> (Option<String>, &'static str),
    revision: impl FnOnce(&String) -> u128,
    rotation: impl FnOnce(&String) -> bool,
) -> (r: Result<MediaDetails, SearchError>)
    requires
        resolve.requires((request.candidate_id,)),
        forall|p: &String| preview.requires((p,)),
        forall|p: &String| revision.requires((p,)),
        forall|p: &String| rotation.requires((p,)),
    ensures
        session.current is None ==> locked_search(r),
        session.current is Some ==> exists|item: Result<ResolvedImportedItem, SearchError>|
            {
                &&& resolve.ensures((request.candidate_id,), item)
                &&& match item {
                    Err(e) => r == Err::<MediaDetails, SearchError>(e),
                    Ok(i) => exists|shown: (Option<String>, &'static str), rev: u128, rotatable: bool|
                        {
                            &&& preview.ensures((&i.destination,), shown)
                            &&& revision.ensures((&i.destination,), rev)
                            &&& rotation.ensures((&i.destination,), rotatable)
                            &&& r matches Ok(d) && media_details_spec(i, shown, rev, rotatable, d)
                        },
                }
            },
{
    match catalogue_session(session) {
        Err(e) => {
            return Err(SearchError::from(e));
        },
        Ok(_) => {},
    }
    let item = resolve(request.candidate_id);
    let item = match item {
        Err(e) => {
            return Err(e);
        },
        Ok(i) => i,
    };
    let shown = preview(&item.destination);
    let rev = revision(&item.destination);
    let rotatable = rotation(&item.destination);
    Ok(details_of(item, shown, rev, rotatable))
}

/// The details shown for an item with this preview, revision and rotation support.
pub open spec fn media_details_spec(
    item: ResolvedImportedItem,
    shown: (Option<String>, &'static str),
    revision: u128,
    rotatable: bool,
    d: MediaDetails,
) -> bool {
    let available = shown.1@ == "available"@;
    &&& d.state@ == (if available {
        "available"@
    } else {
        "unavailable"@
    })
    &&& d.candidate_id == item.candidate_id
    &&& match std_file_name(item.destination@) {
        Some(name) => d.filename@ == name,
        None => d.filename@.len() == 0,
    }
    &&& d.media_type == item.media_type
    &&& d.tags == item.tags
    &&& match shown.0 {
        Some(url) => d.preview_url matches Some(v) && v@ == url@ + "?revision="@ + decimal_spec(
            revision as nat,
        ),
        None => d.preview_url is None,
    }
    &&& d.preview_state == shown.1
    &&& d.rotation_supported == rotatable
    &&& d.message@ == (if available {
        "Managed media is ready for preview."@
    } else {
        "This managed media file is unavailable or cannot be previewed safely."@
    })
}

/// The details shown for an item with this preview, revision and rotation support.
pub fn details_of(
    item: ResolvedImportedItem,
    shown: (Option<String>, &'static str),
    revision: u128,
    rotatable: bool,
) -> (r: MediaDetails)
    ensures
        media_details_spec(item, shown, revision, rotatable, r),
{
    let available = same_text(shown.1, "available");
    let preview_url = match shown.0 {
        Some(url) => Some(versioned_preview_url(url, revision)),
        None => None,
    };
    let filename = match file_name(item.destination.as_str()) {
        Some(n) => n,
        None => String::new(),
    };
    MediaDetails {
        state: if available {
            "available"
        } else {
            "unavailable"
        },
        candidate_id: item.candidate_id,
        filename,
        media_type: item.media_type,
        tags: item.tags,
        preview_url,
        preview_state: shown.1,
        rotation_supported: rotatable,
        message: if available {
            String::from_str("Managed media is ready for preview.")
        } else {
            String::from_str("This managed media file is unavailable or cannot be previewed safely.")
        },
    }
}


/// The format of a picture, as far as rotation cares.
#[derive(Debug, Clone, Copy, PartialEq, Eq, Structural)]
pub enum ImageKind {
    Jpeg,
    Png,
    WebP,
    Other,
}

/// What `ImageReader` gives as the format of these bytes, read as a file with this extension
/// is read: the format the content shows, else the one the extension names.
pub uninterp spec fn guessed_kind(bytes: Seq<u8>, extension: Option<Seq<char>>) -> Option<ImageKind>;

/// What decoding these bytes as `kind`, turning the picture a quarter clockwise
/// (`rotate90`), and encoding it in the same format give: the new bytes, or which step failed.
pub uninterp spec fn rotated_clockwise(bytes: Seq<u8>, kind: ImageKind) -> Result<Seq<u8>, RotateFailure>;

/// The same with a quarter turn counterclockwise (`rotate270`).
pub uninterp spec fn rotated_counterclockwise(bytes: Seq<u8>, kind: ImageKind) -> Result<Seq<u8>, RotateFailure>;

/// A step of rotating a picture's bytes that failed.
#[derive(Debug, Clone, Copy, PartialEq, Eq, Structural)]
pub enum RotateFailure {
    Decode,
    Encode,
}

/// The view of optional text.
pub open spec fn opt_text(s: Option<String>) -> Option<Seq<char>> {
    opt_string_view(s)
}

/// `ImageReader::with_guessed_format` on the bytes, with the format of the extension set
/// first as `ImageReader::open` sets it; then `format`.
#[verifier::external_body]
fn guess_kind(bytes: &[u8], extension: &Option<String>) -> (r: Option<ImageKind>)
    ensures
        r == guessed_kind(bytes@, opt_text(*extension)),
{
    let mut reader = image::ImageReader::new(std::io::Cursor::new(bytes));
    if let Some(format) = extension.as_deref().and_then(image::ImageFormat::from_extension) {
        reader.set_format(format);
    }
    let format = reader.with_guessed_format().ok()?.format()?;
    Some(match format {
        image::ImageFormat::Jpeg => ImageKind::Jpeg,
        image::ImageFormat::Png => ImageKind::Png,
        image::ImageFormat::WebP => ImageKind::WebP,
        _ => ImageKind::Other,
    })
}

/// Decodes the bytes as `kind` with `ImageReader::decode`, turns the picture with
/// `DynamicImage::rotate90` and writes it back with `write_to` in the same format.
#[verifier::external_body]
fn rotate_clockwise(bytes: &[u8], kind: ImageKind) -> (r: Result<Vec<u8>, RotateFailure>)
    requires
        kind != ImageKind::Other,
    ensures
        match r {
            Ok(out) => rotated_clockwise(bytes@, kind) == Ok::<Seq<u8>, RotateFailure>(out@),
            Err(f) => rotated_clockwise(bytes@, kind) == Err::<Seq<u8>, RotateFailure>(f),
        },
{
    let format = match kind {
        ImageKind::Jpeg => image::ImageFormat::Jpeg,
        ImageKind::Png => image::ImageFormat::Png,
        ImageKind::WebP => image::ImageFormat::WebP,
        ImageKind::Other => return Err(RotateFailure::Decode),
    };
    let reader = image::ImageReader::with_format(std::io::Cursor::new(bytes), format);
    let picture = reader.decode().map_err(|_| RotateFailure::Decode)?;
    let mut out = std::io::Cursor::new(Vec::new());
    picture.rotate90().write_to(&mut out, format).map_err(|_| RotateFailure::Encode)?;
    Ok(out.into_inner())
}

/// Decodes the bytes as `kind` with `ImageReader::decode`, turns the picture with
/// `DynamicImage::rotate270` and writes it back with `write_to` in the same format.
#[verifier::external_body]
fn rotate_counterclockwise(bytes: &[u8], kind: ImageKind) -> (r: Result<Vec<u8>, RotateFailure>)
    requires
        kind != ImageKind::Other,
    ensures
        match r {
            Ok(out) => rotated_counterclockwise(bytes@, kind) == Ok::<Seq<u8>, RotateFailure>(out@),
            Err(f) => rotated_counterclockwise(bytes@, kind) == Err::<Seq<u8>, RotateFailure>(f),
        },
{
    let format = match kind {
        ImageKind::Jpeg => image::ImageFormat::Jpeg,
        ImageKind::Png => image::ImageFormat::Png,
        ImageKind::WebP => image::ImageFormat::WebP,
        ImageKind::Other => return Err(RotateFailure::Decode),
    };
    let reader = image::ImageReader::with_format(std::io::Cursor::new(bytes), format);
    let picture = reader.decode().map_err(|_| RotateFailure::Decode)?;
    let mut out = std::io::Cursor::new(Vec::new());
    picture.rotate270().write_to(&mut out, format).map_err(|_| RotateFailure::Encode)?;
    Ok(out.into_inner())
}

/// The formats whose managed copies can be rotated.
pub open spec fn rotatable_kind(kind: Option<ImageKind>) -> bool {
    kind == Some(ImageKind::Jpeg) || kind == Some(ImageKind::Png) || kind == Some(ImageKind::WebP)
}

/// Whether the managed copy whose bytes were read as `content` can be rotated.
pub fn supports_rotation(content: &Option<Vec<u8>>, extension: &Option<String>) -> (r: bool)
    ensures
        r == match content {
            Some(bytes) => rotatable_kind(guessed_kind(bytes@, opt_text(*extension))),
            None => false,
        },
{
    match content {
        None => false,
        Some(bytes) => {
            let kind = guess_kind(bytes.as_slice(), extension);
            kind == Some(ImageKind::Jpeg) || kind == Some(ImageKind::Png) || kind == Some(ImageKind::WebP)
        },
    }
}

/// The picture after a quarter turn, and the outcome of rotating a managed copy whose bytes
/// were read as `content` (`None` when the file could not be opened).
pub open spec fn rotation_spec(
    content: Option<Vec<u8>>,
    extension: Option<String>,
    direction: RotationDirection,
    r: Result<(Vec<u8>, ImageKind), SearchError>,
) -> bool {
    match content {
        None => search_fails_with(
            r,
            "rotation_unsupported"@,
            "This managed image cannot be decoded for rotation."@,
        ),
        Some(bytes) => {
            let kind = guessed_kind(bytes@, opt_text(extension));
            if !rotatable_kind(kind) {
                search_fails_with(
                    r,
                    "rotation_unsupported"@,
                    "This managed image format is unsupported for rotation."@,
                )
            } else {
                let turned = match direction {
                    RotationDirection::Left => rotated_counterclockwise(bytes@, kind->0),
                    RotationDirection::Right => rotated_clockwise(bytes@, kind->0),
                };
                match turned {
                    Err(RotateFailure::Decode) => search_fails_with(
                        r,
                        "rotation_unsupported"@,
                        "This managed image cannot be decoded for rotation."@,
                    ),
                    Err(RotateFailure::Encode) => search_fails_with(
                        r,
                        "rotation_failed"@,
                        "Could not write the rotated managed copy; the original was preserved."@,
                    ),
                    Ok(out) => r matches Ok((b, k)) && b@ == out && k == kind->0,
                }
            }
        },
    }
}

/// Rotates the picture of a managed copy a quarter turn, left (counterclockwise) or right
/// (clockwise), keeping its format; only JPEG, PNG and WebP pictures are rotated. Gives the
/// new bytes and their format.
pub fn rotate_image(
    content: Option<Vec<u8>>,
    extension: &Option<String>,
    direction: RotationDirection,
) -> (r: Result<(Vec<u8>, ImageKind), SearchError>)
    ensures
        rotation_spec(content, *extension, direction, r),
{
    let bytes = match content {
        None => {
            return Err(error("rotation_unsupported", "This managed image cannot be decoded for rotation."));
        },
        Some(b) => b,
    };
    let kind = match guess_kind(bytes.as_slice(), extension) {
        Some(k) => k,
        None => {
            return Err(error("rotation_unsupported", "This managed image format is unsupported for rotation."));
        },
    };
    if !(kind == ImageKind::Jpeg || kind == ImageKind::Png || kind == ImageKind::WebP) {
        return Err(error("rotation_unsupported", "This managed image format is unsupported for rotation."));
    }
    let turned = match direction {
        RotationDirection::Left => rotate_counterclockwise(bytes.as_slice(), kind),
        RotationDirection::Right => rotate_clockwise(bytes.as_slice(), kind),
    };
    match turned {
        Err(RotateFailure::Decode) => Err(error("rotation_unsupported", "This managed image cannot be decoded for rotation.")),
        Err(RotateFailure::Encode) => Err(
            error("rotation_failed", "Could not write the rotated managed copy; the original was preserved."),
        ),
        Ok(out) => Ok((out, kind)),
    }
}

/// A step of replacing a managed copy by its rotated picture that failed.
#[derive(Debug)]
pub enum ReplaceFailure {
    /// The temporary file could not be created.
    Create,
    /// The rotated bytes could not be written.
    Write,
    /// The written file could not be finished.
    Finish,
    /// The written file could not be synced to disk.
    Sync,
    /// The temporary file could not replace the copy.
    Replace,
}

/// The error reported when replacing a managed copy fails at a step.
pub fn replace_failure_error(f: &ReplaceFailure) -> (r: SearchError)
    ensures
        r.code@ == "rotation_failed"@,
        r.message@ == match f {
            ReplaceFailure::Create => "Could not prepare a safe replacement for the managed copy."@,
            ReplaceFailure::Write => "Could not write the rotated managed copy; the original was preserved."@,
            ReplaceFailure::Finish => "Could not finish the rotated managed copy; the original was preserved."@,
            ReplaceFailure::Sync => "Could not safely finish the rotated managed copy; the original was preserved."@,
            ReplaceFailure::Replace => "Could not replace the managed copy; the original was preserved."@,
        },
{
    match f {
        ReplaceFailure::Create => error("rotation_failed", "Could not prepare a safe replacement for the managed copy."),
        ReplaceFailure::Write => error("rotation_failed", "Could not write the rotated managed copy; the original was preserved."),
        ReplaceFailure::Finish => error("rotation_failed", "Could not finish the rotated managed copy; the original was preserved."),
        ReplaceFailure::Sync => error("rotation_failed", "Could not safely finish the rotated managed copy; the original was preserved."),
        ReplaceFailure::Replace => error("rotation_failed", "Could not replace the managed copy; the original was preserved."),
    }
}

/// The name of the temporary file beside a managed copy that its rotated picture is written
/// to: hidden, made unique by the process and the time, with the copy's extension.
pub open spec fn rotation_temporary_name_spec(extension: Option<Seq<char>>, process: u32, stamp: u128) -> Seq<char> {
    ".photo-handler-rotate-"@ + decimal_spec(process as nat) + seq!['-'] + decimal_spec(stamp as nat)
        + seq!['.'] + match extension {
        Some(e) => e,
        None => "tmp"@,
    }
}

/// The name of the temporary file a rotated picture is written to.
pub fn rotation_temporary_name(extension: &Option<String>, process: u32, stamp: u128) -> (r: String)
    ensures
        r@ == rotation_temporary_name_spec(opt_text(*extension), process, stamp),
{
    proof {
        reveal_strlit("-");
        reveal_strlit(".");
    }
    let mut name = String::from_str(".photo-handler-rotate-");
    let p = decimal(process as u128);
    name.append(p.as_str());
    name.append("-");
    let t = decimal(stamp);
    name.append(t.as_str());
    name.append(".");
    match extension {
        Some(e) => name.append(e.as_str()),
        None => name.append("tmp"),
    }
    name
}

/// Rotates the managed copy of an imported picture and gives its new details: `resolve`
/// resolves the item, `rotate_file` replaces its copy by the picture turned in `direction`,
/// and `details` reads the item's details afterwards.
pub fn rotate_managed_media(
    session: &LibrarySession,
    request: RotateManagedMediaRequest,
    resolve: impl FnOnce(i64) -> Result<ResolvedImportedItem, SearchError>,
    rotate_file: impl FnOnce(&String, RotationDirection) -> Result<(), SearchError>,
    details: impl FnOnce(i64) -> Result<MediaDetails, SearchError>,
) -> (r: Result<MediaDetails, SearchError>)
    requires
        session.current is Some ==> resolve.requires((request.candidate_id,)),
        forall|p: &String, d: RotationDirection|
            session.current is Some && (exists|i: ResolvedImportedItem|
                #[trigger] resolve.ensures(
                    (request.candidate_id,),
                    Ok::<ResolvedImportedItem, SearchError>(i),
                ) && i.media_type@ == "image"@ && i.destination == *p) && d == request.direction
                ==> #[trigger] rotate_file.requires((p, d)),
        forall|id: i64| session.current is Some ==> details.requires((id,)),
    ensures
        session.current is None ==> locked_search(r),
        session.current is Some ==> exists|item: Result<ResolvedImportedItem, SearchError>|
            {
                &&& resolve.ensures((request.candidate_id,), item)
                &&& match item {
                    Err(e) => r == Err::<MediaDetails, SearchError>(e),
                    Ok(i) => if i.media_type@ != "image"@ {
                        search_fails_with(
                            r,
                            "rotation_unsupported"@,
                            "Only supported managed image files can be rotated."@,
                        )
                    } else {
                        exists|rotated: Result<(), SearchError>|
                            {
                                &&& rotate_file.ensures((&i.destination, request.direction), rotated)
                                &&& match rotated {
                                    Err(e) => r == Err::<MediaDetails, SearchError>(e),
                                    Ok(_) => details.ensures((i.candidate_id,), r),
                                }
                            }
                    },
                }
            },
{
    match catalogue_session(session) {
        Err(e) => {
            return Err(SearchError::from(e));
        },
        Ok(_) => {},
    }
    let item = resolve(request.candidate_id);
    let item = match item {
        Err(e) => {
            return Err(e);
        },
        Ok(i) => {
            assert(resolve.ensures((request.candidate_id,), Ok::<ResolvedImportedItem, SearchError>(i)));
            i
        },
    };
    if !same_text(item.media_type.as_str(), "image") {
        return Err(error("rotation_unsupported", "Only supported managed image files can be rotated."));
    }
    let rotated = rotate_file(&item.destination, request.direction);
    let ghost rotated_g = rotated;
    match rotated {
        Err(e) => {
            return Err(e);
        },
        Ok(()) => {},
    }
    details(item.candidate_id)
}

} // verus!
