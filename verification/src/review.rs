//! Review of an import source: discovery of supported media, revisions of changed files, the
//! decisions to import or skip, and what a review item shows.
use vstd::prelude::*;
use crate::dates::{canonical_date, canonical_date_spec};
use crate::library::{catalogue_session, setup_error_is, DirEntryInfo, EntryKind, LibrarySession, SetupLibraryError, STATE_DIR};
use crate::import_source::SourceProbe;
use crate::paths::{extension, file_name, file_stem, join_path, starts_with, std_extension, std_file_name, std_file_stem, std_join, std_starts_with};
use crate::similarity::{dhash, dhash_spec, picture_dimensions, picture_luma_grid, decoded_dimensions, decoded_luma_grid, RankedMatch, GRID_HEIGHT, GRID_WIDTH};
use crate::text::{
    ascii_lowercase_spec, collapse_whitespace, is_blank, decimal, decimal_spec, is_text_less, same_text,
    sort_by_text, str_chars, string_from_chars, string_views, text_less, texts_sorted, to_ascii_lowercase,
    to_lowercase, trim, trim_spec, unicode_lowercase, collapse_whitespace_spec, keys_of, zero_padded,
    zero_padded_spec, TextKeyed, lemma_text_less_total, lemma_text_less_transitive,
};

verus! {

/// The summary of the current review.
#[derive(Debug)]
pub struct ReviewState {
    pub state: &'static str,
    pub source_path: Option<String>,
    pub candidate_count: u64,
    pub message: String,
}

/// An earlier decision on a file with the same content.
#[derive(Debug)]
pub struct ExactMatch {
    pub decision: String,
    pub filename: String,
    pub relative_path: String,
    pub decided_at: String,
    pub tags: Vec<String>,
    pub preview_url: Option<String>,
}

/// An earlier import that looks like the item under review.
#[derive(Debug)]
pub struct SimilarMatch {
    pub filename: String,
    pub decided_at: String,
    pub tags: Vec<String>,
    pub preview_url: Option<String>,
    pub similarity_label: &'static str,
}

/// What the review shows next: an item, the completion of the source, or nothing.
#[derive(Debug)]
pub struct ReviewItem {
    pub state: &'static str,
    pub candidate_id: Option<i64>,
    pub relative_path: Option<String>,
    pub filename: Option<String>,
    pub media_type: Option<String>,
    pub effective_import_date: Option<String>,
    pub date_origin: Option<String>,
    pub tags: Vec<String>,
    pub preview_url: Option<String>,
    pub exact_matches: Vec<ExactMatch>,
    pub similar_matches: Vec<SimilarMatch>,
    pub visual_comparison_message: Option<String>,
    pub imported_count: u64,
    pub skipped_count: u64,
    pub message: String,
}

/// A request to skip a candidate, with the tags to record.
#[derive(Debug)]
pub struct DecideRequest {
    pub candidate_id: i64,
    pub tags: Vec<String>,
}

/// A request to import a candidate on a chosen import date, with the tags to record.
#[derive(Debug)]
pub struct ImportRequest {
    pub candidate_id: i64,
    pub tags: Vec<String>,
    pub effective_import_date: String,
}

/// The outcome of a decision.
#[derive(Debug)]
pub struct DecisionResult {
    pub decision: &'static str,
    pub destination_path: Option<String>,
    pub message: String,
}

/// An error of a review command: a stable code and a message for people.
#[derive(Debug)]
pub struct ReviewError {
    pub code: &'static str,
    pub message: String,
}

/// `e` carries exactly this code and message.
pub open spec fn review_error_is(e: ReviewError, code: Seq<char>, message: Seq<char>) -> bool {
    e.code@ == code && e.message@ == message
}

/// `r` is an error with exactly this code and message.
pub open spec fn review_fails_with<T>(r: Result<T, ReviewError>, code: Seq<char>, message: Seq<char>) -> bool {
    r matches Err(e) && review_error_is(e, code, message)
}

/// A review error with the given code and message.
pub fn error(code: &'static str, message: &str) -> (r: ReviewError)
    ensures
        r.code == code,
        r.message@ == message@,
{
    ReviewError { code, message: String::from_str(message) }
}

impl From<SetupLibraryError> for ReviewError {
    fn from(value: SetupLibraryError) -> (r: Self) {
        ReviewError { code: value.code, message: value.message }
    }
}

impl vstd::std_specs::convert::FromSpecImpl<SetupLibraryError> for ReviewError {
    open spec fn obeys_from_spec() -> bool {
        true
    }

    open spec fn from_spec(value: SetupLibraryError) -> Self {
        ReviewError { code: value.code, message: value.message }
    }
}

/// A supported file found in the import source.
#[derive(Debug)]
pub struct Candidate {
    pub relative_path: String,
    pub file_size: i64,
    pub modified_at: i64,
    pub media_type: &'static str,
}

impl TextKeyed for Candidate {
    open spec fn key(&self) -> Seq<char> {
        self.relative_path@
    }

    fn key_text(&self) -> (r: &str) {
        self.relative_path.as_str()
    }
}

/// The extension of a path in ASCII lowercase; empty when it has none.
pub open spec fn lowercase_extension_spec(path: Seq<char>) -> Seq<char> {
    match std_extension(path) {
        Some(ext) => ascii_lowercase_spec(ext),
        None => seq![],
    }
}

/// The extension of a path in ASCII lowercase; empty when it has none.
pub fn lowercase_extension(path: &str) -> (r: String)
    ensures
        r@ == lowercase_extension_spec(path@),
{
    match extension(path) {
        Some(ext) => to_ascii_lowercase(ext.as_str()),
        None => String::new(),
    }
}

/// The kind of media that an extension names: still images and videos.
pub open spec fn media_type_of_extension(ext: Seq<char>) -> Option<Seq<char>> {
    if ext == "jpg"@ || ext == "jpeg"@ || ext == "png"@ || ext == "webp"@ || ext == "gif"@ || ext
        == "heic"@ {
        Some("image"@)
    } else if ext == "mp4"@ || ext == "mov"@ || ext == "m4v"@ || ext == "webm"@ {
        Some("video"@)
    } else {
        None
    }
}

/// The supported media, as a table: the extensions jpg, jpeg, png, webp, gif and heic name
/// still images, and mp4, mov, m4v and webm name videos; no other extension names media.
pub proof fn lemma_supported_media_table(ext: Seq<char>)
    ensures
        media_type_of_extension("jpg"@) == Some("image"@),
        media_type_of_extension("jpeg"@) == Some("image"@),
        media_type_of_extension("png"@) == Some("image"@),
        media_type_of_extension("webp"@) == Some("image"@),
        media_type_of_extension("gif"@) == Some("image"@),
        media_type_of_extension("heic"@) == Some("image"@),
        media_type_of_extension("mp4"@) == Some("video"@),
        media_type_of_extension("mov"@) == Some("video"@),
        media_type_of_extension("m4v"@) == Some("video"@),
        media_type_of_extension("webm"@) == Some("video"@),
        !(ext == "jpg"@ || ext == "jpeg"@ || ext == "png"@ || ext == "webp"@ || ext == "gif"@
            || ext == "heic"@ || ext == "mp4"@ || ext == "mov"@ || ext == "m4v"@ || ext
            == "webm"@) ==> media_type_of_extension(ext) is None,
{
    reveal_strlit("jpg");
    reveal_strlit("jpeg");
    reveal_strlit("png");
    reveal_strlit("webp");
    reveal_strlit("gif");
    reveal_strlit("heic");
    reveal_strlit("mp4");
    reveal_strlit("mov");
    reveal_strlit("m4v");
    reveal_strlit("webm");
    assert("mp4"@[0] == 'm' && "mov"@[0] == 'm' && "m4v"@[0] == 'm' && "webm"@[0] == 'w');
    assert("jpg"@[0] == 'j' && "jpeg"@[0] == 'j' && "png"@[0] == 'p' && "webp"@[0] == 'w'
        && "gif"@[0] == 'g' && "heic"@[0] == 'h');
    assert("webm"@[3] == 'm' && "webp"@[3] == 'p');
}

/// Whether `ext` is one of the listed texts.
fn is_one_of(ext: &str, options: &Vec<&'static str>) -> (r: bool)
    ensures
        r == exists|i: int| 0 <= i < options@.len() && ext@ == options@[i]@,
{
    let mut i: usize = 0;
    while i < options.len()
        invariant
            0 <= i <= options@.len(),
            forall|k: int| 0 <= k < i ==> ext@ != #[trigger] options@[k]@,
        decreases options@.len() - i,
    {
        if same_text(ext, options[i]) {
            return true;
        }
        i = i + 1;
    }
    false
}

/// The kind of media a file is, by its extension in any case: `"image"` or `"video"`.
pub fn media_type(path: &str) -> (r: Option<&'static str>)
    ensures
        match r {
            Some(t) => media_type_of_extension(lowercase_extension_spec(path@)) == Some(t@),
            None => media_type_of_extension(lowercase_extension_spec(path@)) is None,
        },
        ({
            let e = lowercase_extension_spec(path@);
            e == "jpg"@ || e == "jpeg"@ || e == "png"@ || e == "webp"@ || e == "gif"@ || e
                == "heic"@
        }) ==> (r matches Some(t) && t@ == "image"@),
        ({
            let e = lowercase_extension_spec(path@);
            e == "mp4"@ || e == "mov"@ || e == "m4v"@ || e == "webm"@
        }) ==> (r matches Some(t) && t@ == "video"@),
        ({
            let e = lowercase_extension_spec(path@);
            !(e == "jpg"@ || e == "jpeg"@ || e == "png"@ || e == "webp"@ || e == "gif"@ || e
                == "heic"@ || e == "mp4"@ || e == "mov"@ || e == "m4v"@ || e == "webm"@)
        }) ==> r is None,
{
    proof {
        lemma_supported_media_table(lowercase_extension_spec(path@));
    }
    let ext = lowercase_extension(path);
    let images = vec!["jpg", "jpeg", "png", "webp", "gif", "heic"];
    let videos = vec!["mp4", "mov", "m4v", "webm"];
    if is_one_of(ext.as_str(), &images) {
        assert(images@[0]@ == "jpg"@ && images@[1]@ == "jpeg"@ && images@[2]@ == "png"@
            && images@[3]@ == "webp"@ && images@[4]@ == "gif"@ && images@[5]@ == "heic"@);
        Some("image")
    } else if is_one_of(ext.as_str(), &videos) {
        assert(images@[0]@ == "jpg"@ && images@[1]@ == "jpeg"@ && images@[2]@ == "png"@
            && images@[3]@ == "webp"@ && images@[4]@ == "gif"@ && images@[5]@ == "heic"@);
        assert(videos@[0]@ == "mp4"@ && videos@[1]@ == "mov"@ && videos@[2]@ == "m4v"@
            && videos@[3]@ == "webm"@);
        Some("video")
    } else {
        assert(images@[0]@ == "jpg"@ && images@[1]@ == "jpeg"@ && images@[2]@ == "png"@
            && images@[3]@ == "webp"@ && images@[4]@ == "gif"@ && images@[5]@ == "heic"@);
        assert(videos@[0]@ == "mp4"@ && videos@[1]@ == "mov"@ && videos@[2]@ == "m4v"@
            && videos@[3]@ == "webm"@);
        None
    }
}


/// The form of an import date, and the error for any other text.
pub open spec fn import_date_spec(value: Seq<char>, r: Result<String, ReviewError>) -> bool {
    match canonical_date_spec(value) {
        Some(t) => r matches Ok(d) && d@ == t,
        None => review_fails_with(
            r,
            "invalid_import_date"@,
            "Use a valid import date in YYYY-MM-DD format."@,
        ),
    }
}

/// Checks an import date: the trimmed text must be a calendar date in `YYYY-MM-DD` form, and
/// is returned in that form.
pub fn validate_date(value: &str) -> (r: Result<String, ReviewError>)
    ensures
        import_date_spec(value@, r),
{
    match canonical_date(value) {
        Some(date) => Ok(date),
        None => Err(error("invalid_import_date", "Use a valid import date in YYYY-MM-DD format.")),
    }
}

/// A tag as it is stored: its words joined by single spaces, in lowercase.
pub open spec fn normalized_tag_spec(tag: Seq<char>) -> Seq<char> {
    unicode_lowercase(collapse_whitespace_spec(tag))
}

/// Each text is strictly below the next: sorted, and no text occurs twice.
pub open spec fn strictly_sorted(s: Seq<Seq<char>>) -> bool {
    forall|i: int, j: int| 0 <= i < j < s.len() ==> text_less(#[trigger] s[i], #[trigger] s[j])
}

/// `t` is the stored form of one of `tags` and is not empty.
pub open spec fn is_normalized_tag_of(tags: Seq<String>, t: Seq<char>) -> bool {
    t.len() > 0 && exists|i: int| 0 <= i < tags.len() && t == normalized_tag_spec(#[trigger] tags[i]@)
}

/// Inserts `t` into a strictly sorted list, unless it is there already.
fn insert_sorted_unique(list: &mut Vec<String>, t: String)
    requires
        strictly_sorted(string_views(old(list)@)),
    ensures
        strictly_sorted(string_views(final(list)@)),
        forall|x: Seq<char>| #[trigger] string_views(final(list)@).contains(x) <==> (string_views(old(list)@).contains(x) || x == t@),
{
    let ghost before = string_views(list@);
    let mut i: usize = 0;
    while i < list.len() && is_text_less(list[i].as_str(), t.as_str())
        invariant
            0 <= i <= list@.len(),
            list@ == old(list)@,
            before == string_views(list@),
            strictly_sorted(before),
            forall|k: int| 0 <= k < i ==> text_less(#[trigger] before[k], t@),
        decreases list@.len() - i,
    {
        i = i + 1;
    }
    if i < list.len() && same_text(list[i].as_str(), t.as_str()) {
        assert(before[i as int] == t@);
        return;
    }
    proof {
        if i < list@.len() {
            lemma_text_less_total(before[i as int], t@);
            assert forall|k: int| i <= k < before.len() implies text_less(t@, #[trigger] before[k]) by {
                if k > i {
                    lemma_text_less_transitive(t@, before[i as int], before[k]);
                }
            }
        }
    }
    list.insert(i, t);
    proof {
        let after = string_views(list@);
        assert(after =~= before.insert(i as int, t@));
        assert forall|a: int, b: int| 0 <= a < b < after.len() implies text_less(
            #[trigger] after[a],
            #[trigger] after[b],
        ) by {
            if b < i {
            } else if b == i {
            } else if a < i {
                lemma_text_less_transitive(after[a], t@, after[b]);
            } else if a == i {
            } else {
            }
        }
        assert forall|x: Seq<char>| #[trigger] after.contains(x) implies (before.contains(x) || x == t@) by {
            let k = choose|k: int| 0 <= k < after.len() && after[k] == x;
            if k < i {
                assert(before[k] == x);
            } else if k > i {
                assert(before[k - 1] == x);
            }
        }
        assert forall|x: Seq<char>| (before.contains(x) || x == t@) implies #[trigger] after.contains(x) by {
            if x == t@ {
                assert(after[i as int] == x);
            } else {
                let k = choose|k: int| 0 <= k < before.len() && before[k] == x;
                if k < i {
                    assert(after[k] == x);
                } else {
                    assert(after[k + 1] == x);
                }
            }
        }
    }
}

/// The tags as they are stored: each with its words joined by single spaces and lowercased,
/// empty ones dropped, every tag once, in text order.
///
/// The tags are gathered in a `Vec` kept strictly sorted by `insert_sorted_unique`, not in a
/// `BTreeSet<String>`: vstd specifies `BTreeSet` only for keys whose order obeys its
/// comparison spec, and it gives `String` no such spec: with a `BTreeSet<String>`, one `insert`
/// into an empty set was accepted but not even a length of one was proved.
pub fn normalize_tags(tags: &Vec<String>) -> (r: Vec<String>)
    ensures
        strictly_sorted(string_views(r@)),
        forall|t: Seq<char>| #[trigger] string_views(r@).contains(t) <==> is_normalized_tag_of(tags@, t),
{
    let mut out: Vec<String> = Vec::new();
    let mut i: usize = 0;
    while i < tags.len()
        invariant
            0 <= i <= tags@.len(),
            strictly_sorted(string_views(out@)),
            forall|t: Seq<char>| #[trigger] string_views(out@).contains(t) <==> is_normalized_tag_of(tags@.take(i as int), t),
        decreases tags@.len() - i,
    {
        let collapsed = collapse_whitespace(tags[i].as_str());
        let tag = to_lowercase(collapsed.as_str());
        let ghost prev = out@;
        let ghost n = tag@;
        proof {
            assert(tags@.take(i + 1)[i as int] == tags@[i as int]);
            assert forall|t: Seq<char>| is_normalized_tag_of(tags@.take(i as int), t) implies is_normalized_tag_of(tags@.take(i + 1), t) by {
                let k = choose|k: int| 0 <= k < i && t == normalized_tag_spec(#[trigger] tags@.take(i as int)[k]@);
                assert(tags@.take(i + 1)[k] == tags@.take(i as int)[k]);
            }
            assert forall|t: Seq<char>| is_normalized_tag_of(tags@.take(i + 1), t) implies (is_normalized_tag_of(tags@.take(i as int), t) || (t == n && n.len() > 0)) by {
                let k = choose|k: int| 0 <= k < i + 1 && t == normalized_tag_spec(#[trigger] tags@.take(i + 1)[k]@);
                if k < i {
                    assert(tags@.take(i as int)[k] == tags@.take(i + 1)[k]);
                }
            }
        }
        if tag.as_str().unicode_len() > 0 {
            insert_sorted_unique(&mut out, tag);
        }
        i = i + 1;
    }
    proof {
        assert(tags@.take(tags@.len() as int) =~= tags@);
    }
    out
}

/// An ASCII letter or digit.
pub open spec fn is_ascii_alphanumeric(b: u8) -> bool {
    (48 <= b && b <= 57) || (65 <= b && b <= 90) || (97 <= b && b <= 122)
}

/// An uppercase hexadecimal digit.
pub open spec fn upper_hex_digit(v: int) -> char {
    if v < 10 {
        (48 + v) as char
    } else {
        (55 + v) as char
    }
}

/// One byte, percent-encoded unless it is an ASCII letter or digit.
pub open spec fn percent_encoded_byte(b: u8) -> Seq<char> {
    if is_ascii_alphanumeric(b) {
        seq![b as char]
    } else {
        seq!['%', upper_hex_digit((b / 16) as int), upper_hex_digit((b % 16) as int)]
    }
}

/// Bytes, each percent-encoded unless it is an ASCII letter or digit.
pub open spec fn percent_encoded(bytes: Seq<u8>) -> Seq<char>
    decreases bytes.len(),
{
    if bytes.len() == 0 {
        seq![]
    } else {
        percent_encoded(bytes.drop_last()) + percent_encoded_byte(bytes.last())
    }
}

/// `utf8_percent_encode` with `NON_ALPHANUMERIC`: every byte of the UTF-8 text that is not an
/// ASCII letter or digit becomes `%` and two uppercase hexadecimal digits; the others are kept.
#[verifier::external_body]
fn percent_encode(text: &str) -> (r: String)
    ensures
        r@ == percent_encoded(vstd::utf8::encode_utf8(text@)),
{
    percent_encoding::utf8_percent_encode(text, percent_encoding::NON_ALPHANUMERIC).to_string()
}

/// The value of an uppercase hexadecimal digit.
pub open spec fn upper_hex_value(c: char) -> int {
    if (c as int) <= 57 {
        c as int - 48
    } else {
        c as int - 55
    }
}

/// The bytes that a percent-encoded text stands for, read from the front: `%` and two
/// hexadecimal digits stand for one byte, any other character for its own code.
pub open spec fn percent_decoded(s: Seq<char>) -> Seq<u8>
    decreases s.len(),
{
    if s.len() == 0 {
        seq![]
    } else if s[0] == '%' && s.len() >= 3 {
        seq![(upper_hex_value(s[1]) * 16 + upper_hex_value(s[2])) as u8] + percent_decoded(s.skip(3))
    } else {
        seq![s[0] as u8] + percent_decoded(s.skip(1))
    }
}

proof fn lemma_percent_encoded_front(bytes: Seq<u8>)
    requires
        bytes.len() > 0,
    ensures
        percent_encoded(bytes) == percent_encoded_byte(bytes[0]) + percent_encoded(bytes.drop_first()),
    decreases bytes.len(),
{
    if bytes.len() == 1 {
        assert(bytes.drop_first() =~= Seq::<u8>::empty());
        assert(bytes.drop_last() =~= Seq::<u8>::empty());
        assert(percent_encoded_byte(bytes[0]) + seq![] =~= percent_encoded_byte(bytes[0]));
    } else {
        lemma_percent_encoded_front(bytes.drop_last());
        assert(bytes.drop_last().drop_first() =~= bytes.drop_first().drop_last());
        assert(bytes.drop_first().last() == bytes.last());
        assert(bytes.drop_last()[0] == bytes[0]);
        assert(percent_encoded_byte(bytes[0]) + percent_encoded(bytes.drop_first().drop_last())
            + percent_encoded_byte(bytes.last()) =~= percent_encoded_byte(bytes[0]) + (
        percent_encoded(bytes.drop_first().drop_last()) + percent_encoded_byte(bytes.last())));
    }
}

proof fn lemma_byte_token_decodes(b: u8, rest: Seq<char>)
    ensures
        percent_decoded(percent_encoded_byte(b) + rest) == seq![b] + percent_decoded(rest),
{
    let t = percent_encoded_byte(b) + rest;
    if is_ascii_alphanumeric(b) {
        assert(t[0] == b as char);
        assert(t.skip(1) =~= rest);
    } else {
        let hi = (b / 16) as int;
        let lo = (b % 16) as int;
        assert(t[0] == '%');
        assert(t[1] == upper_hex_digit(hi));
        assert(t[2] == upper_hex_digit(lo));
        assert(upper_hex_value(upper_hex_digit(hi)) == hi);
        assert(upper_hex_value(upper_hex_digit(lo)) == lo);
        assert(t.skip(3) =~= rest);
        assert((hi * 16 + lo) as u8 == b);
    }
}

/// Decoding a percent-encoded text gives back the bytes it was made from, so the preview
/// handler recovers the whole path from an asset URL.
pub proof fn lemma_percent_decoding_inverts_encoding(bytes: Seq<u8>)
    ensures
        percent_decoded(percent_encoded(bytes)) == bytes,
    decreases bytes.len(),
{
    if bytes.len() == 0 {
    } else {
        lemma_percent_encoded_front(bytes);
        lemma_byte_token_decodes(bytes[0], percent_encoded(bytes.drop_first()));
        lemma_percent_decoding_inverts_encoding(bytes.drop_first());
        assert(seq![bytes[0]] + bytes.drop_first() =~= bytes);
    }
}

/// The preview URL of a file: its whole absolute path, slashes included, percent-encoded
/// after the asset origin.
pub open spec fn asset_url_spec(path: Seq<char>) -> Seq<char> {
    "asset://localhost/"@ + percent_encoded(vstd::utf8::encode_utf8(path))
}

/// The in-app preview URL of a file.
pub fn asset_url(path: &str) -> (r: Result<String, ReviewError>)
    ensures
        r matches Ok(url) && url@ == asset_url_spec(path@),
{
    let mut url = String::from_str("asset://localhost/");
    let encoded = percent_encode(path);
    url.append(encoded.as_str());
    Ok(url)
}

/// The name of the copy for a given attempt: the file name itself first, then the stem with a
/// two-digit counter from `02` on, and the extension kept.
pub open spec fn unique_destination_spec(directory: Seq<char>, filename: Seq<char>, attempt: u8) -> Seq<char> {
    if attempt == 0 {
        std_join(directory, filename)
    } else {
        let stem = match std_file_stem(filename) {
            Some(s) => s,
            None => seq![],
        };
        let ext = match std_extension(filename) {
            Some(e) => seq!['.'] + e,
            None => seq![],
        };
        std_join(directory, stem + seq!['-'] + zero_padded_spec((attempt + 1) as nat, 2) + ext)
    }
}

/// The destination in `directory` for the `attempt`-th try at a unique name.
pub fn unique_destination(directory: &str, filename: &str, attempt: u8) -> (r: String)
    requires
        attempt < 255,
    ensures
        r@ == unique_destination_spec(directory@, filename@, attempt),
{
    if attempt == 0 {
        return join_path(directory, filename);
    }
    proof {
        reveal_strlit("-");
        reveal_strlit(".");
    }
    let mut name = match file_stem(filename) {
        Some(s) => s,
        None => String::new(),
    };
    let ghost stem = name@;
    name.append("-");
    let counter = zero_padded((attempt + 1) as u128, 2);
    name.append(counter.as_str());
    let ghost base = name@;
    assert(base =~= stem + seq!['-'] + zero_padded_spec((attempt + 1) as nat, 2));
    match extension(filename) {
        Some(e) => {
            name.append(".");
            name.append(e.as_str());
            assert(name@ =~= base + (seq!['.'] + e@));
        },
        None => {
            assert(name@ =~= base + seq![]);
        },
    }
    join_path(directory, name.as_str())
}


/// The number of bytes at the start of a file that are searched for a capture date.
pub const METADATA_SCAN_BYTES: usize = 131072;

/// An ASCII decimal digit.
pub open spec fn is_ascii_digit_byte(b: u8) -> bool {
    48 <= b && b <= 57
}

/// The expected byte at offset `k` of an Exif date stamp `DDDD:DD:DD DD:DD:DD`.
pub open spec fn stamp_byte_ok(k: int, b: u8) -> bool {
    if k == 4 || k == 7 || k == 13 || k == 16 {
        b == 58
    } else if k == 10 {
        b == 32
    } else {
        is_ascii_digit_byte(b)
    }
}

/// An Exif date stamp starts at `i`.
pub open spec fn stamp_at(bytes: Seq<u8>, i: int) -> bool {
    &&& 0 <= i
    &&& i + 19 <= bytes.len()
    &&& forall|k: int| 0 <= k < 19 ==> stamp_byte_ok(k, #[trigger] bytes[i + k])
}

/// The date of the stamp at `i`, as `YYYY-MM-DD`.
pub open spec fn stamp_date(bytes: Seq<u8>, i: int) -> Seq<char> {
    seq![
        bytes[i] as char,
        bytes[i + 1] as char,
        bytes[i + 2] as char,
        bytes[i + 3] as char,
        '-',
        bytes[i + 5] as char,
        bytes[i + 6] as char,
        '-',
        bytes[i + 8] as char,
        bytes[i + 9] as char,
    ]
}

/// The capture date in the first bytes of a file: the date of its first Exif date stamp.
pub open spec fn metadata_date_is(bytes: Seq<u8>, r: Option<String>) -> bool {
    match r {
        Some(d) => exists|i: int|
            {
                &&& stamp_at(bytes, i)
                &&& forall|j: int| 0 <= j < i ==> !stamp_at(bytes, j)
                &&& d@ == stamp_date(bytes, i)
            },
        None => forall|i: int| !stamp_at(bytes, i),
    }
}

/// Whether the Exif date stamp pattern starts at `i`.
fn is_stamp_at(bytes: &[u8], i: usize) -> (r: bool)
    requires
        i + 19 <= bytes@.len(),
    ensures
        r == stamp_at(bytes@, i as int),
{
    let n = bytes.len();
    let mut k: usize = 0;
    while k < 19
        invariant
            n == bytes@.len(),
            i + 19 <= bytes@.len(),
            0 <= k <= 19,
            forall|m: int| 0 <= m < k ==> stamp_byte_ok(m, #[trigger] bytes@[i + m]),
        decreases 19 - k,
    {
        let b = bytes[i + k];
        let ok = if k == 4 || k == 7 || k == 13 || k == 16 {
            b == 58
        } else if k == 10 {
            b == 32
        } else {
            48 <= b && b <= 57
        };
        if !ok {
            assert(!stamp_byte_ok(k as int, bytes@[i + k]));
            return false;
        }
        k = k + 1;
    }
    true
}

/// The capture date of a file from its first bytes: the first Exif date stamp
/// `YYYY:MM:DD hh:mm:ss` among them, written `YYYY-MM-DD`.
pub fn metadata_date(bytes: &[u8]) -> (r: Option<String>)
    ensures
        metadata_date_is(bytes@, r),
{
    let n = bytes.len();
    if n < 19 {
        return None;
    }
    let mut i: usize = 0;
    while i <= n - 19
        invariant
            n == bytes@.len(),
            19 <= bytes@.len(),
            0 <= i <= bytes@.len() - 18,
            forall|j: int| 0 <= j < i ==> !stamp_at(bytes@, j),
        decreases bytes@.len() - i,
    {
        if is_stamp_at(bytes, i) {
            let digits: Vec<char> = vec![
                bytes[i] as char,
                bytes[i + 1] as char,
                bytes[i + 2] as char,
                bytes[i + 3] as char,
                '-',
                bytes[i + 5] as char,
                bytes[i + 6] as char,
                '-',
                bytes[i + 8] as char,
                bytes[i + 9] as char,
            ];
            let d = string_from_chars(digits.as_slice());
            assert(d@ =~= stamp_date(bytes@, i as int));
            return Some(d);
        }
        i = i + 1;
    }
    None
}

/// The date to review a file under: its capture date from the metadata when there is one,
/// else the date of the file itself.
pub fn effective_date(metadata_date: Option<String>, file_date: Option<String>) -> (r: Option<(String, String)>)
    ensures
        match metadata_date {
            Some(d) => r matches Some((x, o)) && x@ == d@ && o@ == "metadata"@,
            None => match file_date {
                Some(d) => r matches Some((x, o)) && x@ == d@ && o@ == "creation"@,
                None => r is None,
            },
        },
{
    match metadata_date {
        Some(d) => Some((d, String::from_str("metadata"))),
        None => match file_date {
            Some(d) => Some((d, String::from_str("creation"))),
            None => None,
        },
    }
}

/// The date shown for an item: the effective date, or the epoch marked unavailable.
pub fn review_date(effective: Option<(String, String)>) -> (r: (String, String))
    ensures
        match effective {
            Some((d, o)) => r.0@ == d@ && r.1@ == o@,
            None => r.0@ == "1970-01-01"@ && r.1@ == "unavailable"@,
        },
{
    match effective {
        Some((d, o)) => (d, o),
        None => (String::from_str("1970-01-01"), String::from_str("unavailable")),
    }
}


/// Resolves the trimmed `path` to a canonical import folder: `probe` says what was found at
/// the trimmed path, following links, and its canonical path.
pub fn canonical_directory(path: &str, probe: &SourceProbe) -> (r: Result<String, ReviewError>)
    ensures
        trim_spec(path@).len() == 0 ==> review_fails_with(
            r,
            "missing_source"@,
            "Choose an import folder first."@,
        ),
        trim_spec(path@).len() != 0 ==> match (probe.kind, probe.canonical) {
            (EntryKind::Directory, Some(c)) => r matches Ok(d) && d@ == c@,
            _ => review_fails_with(
                r,
                "source_unavailable"@,
                "The selected import folder is unavailable."@,
            ),
        },
{
    if is_blank(path) {
        return Err(error("missing_source", "Choose an import folder first."));
    }
    match (&probe.kind, &probe.canonical) {
        (EntryKind::Directory, Some(c)) => Ok(c.clone()),
        _ => Err(error("source_unavailable", "The selected import folder is unavailable.")),
    }
}

/// The import source and the library overlap: they are the same folder or one lies inside
/// the other.
pub open spec fn overlaps_spec(source: Seq<char>, library: Seq<char>) -> bool {
    source == library || std_starts_with(source, library) || std_starts_with(library, source)
}

/// Refuses an import source that is the library, lies inside it or holds it, by canonical
/// path.
pub fn check_source_separate(source: &str, library: &str) -> (r: Result<(), ReviewError>)
    ensures
        overlaps_spec(source@, library@) ==> review_fails_with(
            r,
            "source_overlaps_library"@,
            "The import source must be separate from the protected library. Nothing was changed."@,
        ),
        !overlaps_spec(source@, library@) ==> r is Ok,
{
    if same_text(source, library) || starts_with(source, library) || starts_with(library, source) {
        return Err(
            error(
                "source_overlaps_library",
                "The import source must be separate from the protected library. Nothing was changed.",
            ),
        );
    }
    Ok(())
}

/// The error for a library whose canonical path cannot be resolved.
pub fn library_unavailable_error() -> (r: ReviewError)
    ensures
        review_error_is(r, "library_unavailable"@, "The protected library is unavailable."@),
{
    error("library_unavailable", "The protected library is unavailable.")
}

/// The error for an import folder that cannot be listed.
pub fn folder_read_error() -> (r: ReviewError)
    ensures
        review_error_is(r, "source_unavailable"@, "The import folder could not be read."@),
{
    error("source_unavailable", "The import folder could not be read.")
}

/// The error for a source file whose metadata cannot be read.
pub fn file_read_error() -> (r: ReviewError)
    ensures
        review_error_is(r, "source_unavailable"@, "A source file could not be read."@),
{
    error("source_unavailable", "A source file could not be read.")
}

/// What discovery does with an entry of a source folder.
#[derive(Debug)]
pub enum VisitAction {
    /// Links and other entries are passed over.
    Skip,
    /// A folder is searched, except the library's own state folder.
    Descend,
    /// A supported file becomes a candidate of this media type.
    Collect(&'static str),
}

/// What discovery does with the entry `entry` found at `path`: links are never followed,
/// folders other than the state folder are searched, and files are collected when their
/// extension names a supported media type.
pub fn visit_action(entry: &DirEntryInfo, path: &str) -> (r: VisitAction)
    ensures
        entry.is_symlink ==> r is Skip,
        !entry.is_symlink && entry.is_dir ==> (if entry.name@ == STATE_DIR@ {
            r is Skip
        } else {
            r is Descend
        }),
        !entry.is_symlink && !entry.is_dir && entry.is_file ==> match media_type_of_extension(
            lowercase_extension_spec(path@),
        ) {
            Some(t) => r matches VisitAction::Collect(m) && m@ == t,
            None => r is Skip,
        },
        !entry.is_symlink && !entry.is_dir && !entry.is_file ==> r is Skip,
{
    if entry.is_symlink {
        VisitAction::Skip
    } else if entry.is_dir {
        if same_text(entry.name.as_str(), STATE_DIR) {
            VisitAction::Skip
        } else {
            VisitAction::Descend
        }
    } else if entry.is_file {
        match media_type(path) {
            Some(t) => VisitAction::Collect(t),
            None => VisitAction::Skip,
        }
    } else {
        VisitAction::Skip
    }
}

/// The candidates found in a source, in the order they are reviewed: by relative path.
pub fn discover(found: Vec<Candidate>) -> (r: Vec<Candidate>)
    ensures
        texts_sorted(keys_of(r@)),
        r@.to_multiset() == found@.to_multiset(),
{
    sort_by_text(found)
}

/// The state of a review after it was started on a source seen for the first time.
pub fn new_review_state(source_path: String, candidate_count: u64) -> (r: ReviewState)
    ensures
        r.state@ == (if candidate_count == 0 {
            "empty"@
        } else {
            "started"@
        }),
        r.source_path == Some(source_path),
        r.candidate_count == candidate_count,
        r.message@ == "Discovery reads supported files only; it never modifies originals."@,
{
    ReviewState {
        state: if candidate_count == 0 {
            "empty"
        } else {
            "started"
        },
        source_path: Some(source_path),
        candidate_count,
        message: String::from_str("Discovery reads supported files only; it never modifies originals."),
    }
}

/// The message for a source reviewed before: what was added, or whether it was complete.
pub open spec fn resumed_message(additions: u64, session_state: Seq<char>) -> Seq<char> {
    if additions > 0 {
        "Found "@ + decimal_spec(additions as nat)
            + " newly added supported item(s). Previous decisions remain unchanged; originals are never modified."@
    } else if session_state == "complete"@ {
        "This source review is complete. No new supported files were found; originals were not deleted or moved."@
    } else {
        "Resuming the existing review session. Originals are never modified."@
    }
}

/// The state a newly started review session is recorded with: `"complete"` when the source
/// holds no supported file to review, `"active"` otherwise.
pub fn new_session_state(candidate_count: usize) -> (r: &'static str)
    ensures
        r@ == (if candidate_count == 0 {
            "complete"@
        } else {
            "active"@
        }),
{
    if candidate_count == 0 {
        "complete"
    } else {
        "active"
    }
}

/// The state a resumed review session changes to: `"active"` again when new revisions were
/// added, and no change otherwise.
pub fn resumed_session_state(additions: u64) -> (r: Option<&'static str>)
    ensures
        additions > 0 ==> (r matches Some(state) && state@ == "active"@),
        additions == 0 ==> r is None,
{
    if additions > 0 {
        Some("active")
    } else {
        None
    }
}

/// The state of a review resumed on a source reviewed before, after `additions` new
/// candidates were recorded and `pending_count` remain undecided.
pub fn resumed_review_state(
    source_path: String,
    pending_count: u64,
    additions: u64,
    session_state: &str,
) -> (r: ReviewState)
    ensures
        r.state@ == (if pending_count > 0 {
            "resumable"@
        } else {
            "complete"@
        }),
        r.source_path == Some(source_path),
        r.candidate_count == pending_count,
        r.message@ == resumed_message(additions, session_state@),
{
    let message = if additions > 0 {
        let mut m = String::from_str("Found ");
        let count = decimal(additions as u128);
        m.append(count.as_str());
        m.append(
            " newly added supported item(s). Previous decisions remain unchanged; originals are never modified.",
        );
        m
    } else if same_text(session_state, "complete") {
        String::from_str(
            "This source review is complete. No new supported files were found; originals were not deleted or moved.",
        )
    } else {
        String::from_str("Resuming the existing review session. Originals are never modified.")
    };
    ReviewState {
        state: if pending_count > 0 {
            "resumable"
        } else {
            "complete"
        },
        source_path: Some(source_path),
        candidate_count: pending_count,
        message,
    }
}

/// `r` is the state shown for the latest review session, if there is one.
pub open spec fn review_state_is(latest: Option<(String, String, u64)>, r: ReviewState) -> bool {
    match latest {
        Some((source, state, count)) => {
            &&& r.source_path == Some(source)
            &&& r.candidate_count == count
            &&& if state@ == "complete"@ {
                r.state@ == "complete"@ && r.message@
                    == "Resume to check this source for newly added supported files. Originals are never modified."@
            } else {
                r.state@ == "resumable"@ && r.message@
                    == "Resume the safe read-only review. Originals are never modified."@
            }
        },
        None => {
            &&& r.state@ == "none"@
            &&& r.source_path is None
            &&& r.candidate_count == 0
            &&& r.message@ == "No unfinished review is available."@
        },
    }
}

/// The state shown for the latest review session, if there is one: its source, whether it is
/// complete, and how many candidates are undecided.
pub fn review_state(latest: Option<(String, String, u64)>) -> (r: ReviewState)
    ensures
        review_state_is(latest, r),
{
    match latest {
        Some((source, state, count)) => {
            if same_text(state.as_str(), "complete") {
                ReviewState {
                    state: "complete",
                    source_path: Some(source),
                    candidate_count: count,
                    message: String::from_str(
                        "Resume to check this source for newly added supported files. Originals are never modified.",
                    ),
                }
            } else {
                ReviewState {
                    state: "resumable",
                    source_path: Some(source),
                    candidate_count: count,
                    message: String::from_str("Resume the safe read-only review. Originals are never modified."),
                }
            }
        },
        None => ReviewState {
            state: "none",
            source_path: None,
            candidate_count: 0,
            message: String::from_str("No unfinished review is available."),
        },
    }
}


/// An item with no candidate, matches, tags or counts.
pub open spec fn bare_item(r: ReviewItem) -> bool {
    &&& r.candidate_id is None
    &&& r.relative_path is None
    &&& r.filename is None
    &&& r.media_type is None
    &&& r.effective_import_date is None
    &&& r.date_origin is None
    &&& r.tags@.len() == 0
    &&& r.preview_url is None
    &&& r.exact_matches@.len() == 0
    &&& r.similar_matches@.len() == 0
    &&& r.visual_comparison_message is None
}

/// The item shown when nothing is pending and no review was completed.
pub fn empty_item() -> (r: ReviewItem)
    ensures
        r.state@ == "empty"@,
        bare_item(r),
        r.imported_count == 0,
        r.skipped_count == 0,
        r.message@ == "There are no pending items in this review."@,
{
    ReviewItem {
        state: "empty",
        candidate_id: None,
        relative_path: None,
        filename: None,
        media_type: None,
        effective_import_date: None,
        date_origin: None,
        tags: Vec::new(),
        preview_url: None,
        exact_matches: Vec::new(),
        similar_matches: Vec::new(),
        visual_comparison_message: None,
        imported_count: 0,
        skipped_count: 0,
        message: String::from_str("There are no pending items in this review."),
    }
}

/// The item shown once the review of `source_path` is complete, with its counts.
pub fn completion_item(source_path: &str, imported_count: u64, skipped_count: u64) -> (r: ReviewItem)
    ensures
        r.state@ == "complete"@,
        bare_item(r),
        r.imported_count == imported_count,
        r.skipped_count == skipped_count,
        r.message@ == "Review complete for "@ + source_path@
            + ". Originals were not deleted, moved, or changed."@,
{
    let mut message = String::from_str("Review complete for ");
    message.append(source_path);
    message.append(". Originals were not deleted, moved, or changed.");
    ReviewItem {
        state: "complete",
        candidate_id: None,
        relative_path: None,
        filename: None,
        media_type: None,
        effective_import_date: None,
        date_origin: None,
        tags: Vec::new(),
        preview_url: None,
        exact_matches: Vec::new(),
        similar_matches: Vec::new(),
        visual_comparison_message: None,
        imported_count,
        skipped_count,
        message,
    }
}

/// A pending candidate as the review shows it.
#[derive(Debug)]
pub struct PendingItem {
    pub candidate_id: i64,
    pub relative_path: String,
    pub filename: String,
    pub media_type: String,
    pub date: String,
    pub origin: String,
    pub tags: Vec<String>,
}

/// `r` shows the pending candidate `p` with no preview, matches or counts.
pub open spec fn shows_pending(r: ReviewItem, p: PendingItem) -> bool {
    &&& r.candidate_id == Some(p.candidate_id)
    &&& r.relative_path == Some(p.relative_path)
    &&& r.filename == Some(p.filename)
    &&& r.media_type == Some(p.media_type)
    &&& r.effective_import_date == Some(p.date)
    &&& r.date_origin == Some(p.origin)
    &&& r.tags == p.tags
    &&& r.imported_count == 0
    &&& r.skipped_count == 0
}

/// The item shown for a candidate that cannot be compared or previewed now, with the reason.
pub fn unavailable_item(pending: PendingItem, message: String) -> (r: ReviewItem)
    ensures
        r.state@ == "unavailable"@,
        shows_pending(r, pending),
        r.preview_url is None,
        r.exact_matches@.len() == 0,
        r.similar_matches@.len() == 0,
        r.visual_comparison_message is None,
        r.message == message,
{
    ReviewItem {
        state: "unavailable",
        candidate_id: Some(pending.candidate_id),
        relative_path: Some(pending.relative_path),
        filename: Some(pending.filename),
        media_type: Some(pending.media_type),
        effective_import_date: Some(pending.date),
        date_origin: Some(pending.origin),
        tags: pending.tags,
        preview_url: None,
        exact_matches: Vec::new(),
        similar_matches: Vec::new(),
        visual_comparison_message: None,
        imported_count: 0,
        skipped_count: 0,
        message,
    }
}

/// The file name shown for a candidate: the last component of its relative path, or the
/// whole path when it has none.
pub fn item_filename(relative_path: &str) -> (r: String)
    ensures
        match std_file_name(relative_path@) {
            Some(name) => r@ == name,
            None => r@ == relative_path@,
        },
{
    match file_name(relative_path) {
        Some(name) => name,
        None => String::from_str(relative_path),
    }
}

/// The outcome of skipping an item.
pub fn skipped_result() -> (r: DecisionResult)
    ensures
        r.decision@ == "skipped"@,
        r.destination_path is None,
        r.message@ == "Item skipped. The original file was not changed."@,
{
    DecisionResult {
        decision: "skipped",
        destination_path: None,
        message: String::from_str("Item skipped. The original file was not changed."),
    }
}

/// The outcome of importing an item as a copy at `destination`.
pub fn imported_result(destination: String) -> (r: DecisionResult)
    ensures
        r.decision@ == "imported"@,
        r.destination_path == Some(destination),
        r.message@ == "Imported a new copy. The original file was not changed."@,
{
    DecisionResult {
        decision: "imported",
        destination_path: Some(destination),
        message: String::from_str("Imported a new copy. The original file was not changed."),
    }
}

/// The error for a decision on a candidate that is no longer pending.
pub fn candidate_not_pending_error() -> (r: ReviewError)
    ensures
        review_error_is(
            r,
            "candidate_not_pending"@,
            "This item has already been decided or is no longer available for review."@,
        ),
{
    error(
        "candidate_not_pending",
        "This item has already been decided or is no longer available for review.",
    )
}

/// The error for a catalogue that could not be read or written, with the database's words.
pub fn database_error(detail: &str) -> (r: ReviewError)
    ensures
        review_error_is(
            r,
            "catalogue_unavailable"@,
            "Could not update the protected review catalogue: "@ + detail@,
        ),
{
    let mut message = String::from_str("Could not update the protected review catalogue: ");
    message.append(detail);
    ReviewError { code: "catalogue_unavailable", message }
}

/// The error for an import whose copy was published but whose decision could not be saved:
/// it names the copy, so that it is not imported twice.
pub fn post_copy_failure(destination: &str, record_error: &ReviewError) -> (r: ReviewError)
    ensures
        review_error_is(
            r,
            "post_copy_catalogue_failure"@,
            "The file was copied to "@ + destination@
                + " but its catalogue decision could not be saved. Do not import it again; reopen the library and recover this item. ("@
                + record_error.message@ + ")"@,
        ),
{
    let mut message = String::from_str("The file was copied to ");
    message.append(destination);
    message.append(
        " but its catalogue decision could not be saved. Do not import it again; reopen the library and recover this item. (",
    );
    message.append(record_error.message.as_str());
    message.append(")");
    ReviewError { code: "post_copy_catalogue_failure", message }
}


/// How many earlier decisions on the same bytes a review shows.
pub const EXACT_HISTORY_LIMIT: i64 = 3;

/// The earlier decisions on the same bytes: candidates with fingerprint algorithm `?1` and
/// value `?2`, other than the active candidate `?3`, newest decision first, at most `?4`
/// (`EXACT_HISTORY_LIMIT`). Columns: id, relative path, decision, decision time, destination.
pub const EXACT_HISTORY_SQL: &'static str = "SELECT c.id, c.relative_path, d.decision, d.decided_at, d.destination_path FROM review_candidates c JOIN item_decisions d ON d.candidate_id = c.id WHERE c.content_fingerprint_algorithm = ?1 AND c.content_fingerprint_value = ?2 AND c.id != ?3 ORDER BY d.decided_at DESC, c.id LIMIT ?4";

/// The earlier imports that visual comparison looks at: imported candidates with a managed copy,
/// hashed with algorithm `?1` under threshold `?2`, other than the active candidate `?3` and
/// other than copies of the same bytes, newest first. Columns: id, relative path, decision
/// time, destination, perceptual hash.
pub const SIMILAR_HISTORY_SQL: &'static str = "SELECT c.id, c.relative_path, d.decided_at, d.destination_path, c.perceptual_hash_value FROM review_candidates c JOIN item_decisions d ON d.candidate_id = c.id WHERE d.decision = 'imported' AND d.destination_path IS NOT NULL AND c.perceptual_hash_algorithm = ?1 AND c.perceptual_hash_threshold = ?2 AND c.id != ?3 AND c.content_fingerprint_value != (SELECT content_fingerprint_value FROM review_candidates WHERE id = ?3) ORDER BY d.decided_at DESC, c.id";

/// The algorithm label stored beside content fingerprints.
pub const CONTENT_FINGERPRINT_ALGORITHM: &'static str = "blake3-256-v1";

/// The BLAKE3 digest of a byte string.
pub uninterp spec fn blake3_digest(bytes: Seq<u8>) -> Seq<u8>;

/// BLAKE3 over `bytes` with `Hasher::update` and `finalize`: the 32-byte digest, a function of
/// the bytes alone.
#[verifier::external_body]
fn blake3_hash(bytes: &[u8]) -> (r: Vec<u8>)
    ensures
        r@ == blake3_digest(bytes@),
        r@.len() == 32,
{
    let mut hasher = blake3::Hasher::new();
    hasher.update(bytes);
    hasher.finalize().as_bytes().to_vec()
}

/// Fingerprinting is deterministic in the bytes: two fingerprints that succeed on files with
/// the same bytes are equal, whatever the files' sizes and times were.
pub proof fn lemma_equal_bytes_equal_fingerprints(
    size_a: i64,
    time_a: i64,
    before_a: Result<(i64, i64), String>,
    bytes_a: Vec<u8>,
    after_a: Result<(i64, i64), String>,
    r_a: Result<Vec<u8>, String>,
    size_b: i64,
    time_b: i64,
    before_b: Result<(i64, i64), String>,
    bytes_b: Vec<u8>,
    after_b: Result<(i64, i64), String>,
    r_b: Result<Vec<u8>, String>,
)
    requires
        fingerprint_outcome(size_a, time_a, before_a, Some(bytes_a), after_a, r_a),
        fingerprint_outcome(size_b, time_b, before_b, Some(bytes_b), after_b, r_b),
        r_a is Ok,
        r_b is Ok,
        bytes_a@ == bytes_b@,
    ensures
        r_a->Ok_0@ == r_b->Ok_0@,
        r_a->Ok_0@ == blake3_digest(bytes_a@),
{
}

/// What the file system says of a source file, without following links.
#[derive(Debug)]
pub struct FileStat {
    pub is_file: bool,
    pub is_symlink: bool,
    pub len: u64,
    /// Seconds since the Unix epoch of its last change, when known.
    pub modified_secs: Option<u64>,
}

/// The message for a source item that is missing or not a plain file.
pub open spec fn item_unavailable_message() -> Seq<char> {
    "This source item is unavailable. It was not skipped or imported."@
}

/// Size and modification time of a source file, which must be a plain file; an unknown time
/// counts as zero.
pub fn stable_metadata(stat: Option<FileStat>) -> (r: Result<(i64, i64), String>)
    ensures
        match stat {
            Some(st) => if st.is_file && !st.is_symlink {
                r == Ok::<(i64, i64), String>(
                    (
                        st.len as i64,
                        match st.modified_secs {
                            Some(m) => m as i64,
                            None => 0,
                        },
                    ),
                )
            } else {
                r matches Err(m) && m@ == item_unavailable_message()
            },
            None => r matches Err(m) && m@ == item_unavailable_message(),
        },
{
    match stat {
        Some(st) => {
            if st.is_file && !st.is_symlink {
                let modified: i64 = match st.modified_secs {
                    Some(m) => m as i64,
                    None => 0,
                };
                Ok((st.len as i64, modified))
            } else {
                Err(String::from_str("This source item is unavailable. It was not skipped or imported."))
            }
        },
        None => Err(String::from_str("This source item is unavailable. It was not skipped or imported.")),
    }
}

/// The fingerprint of a file that `stat` and `read` look at, as `fingerprint_file` computes
/// it: the file must still have the size and time seen at discovery, and must not change while
/// it is read.
pub open spec fn fingerprint_outcome(
    expected_size: i64,
    expected_modified_at: i64,
    before: Result<(i64, i64), String>,
    content: Option<Vec<u8>>,
    after: Result<(i64, i64), String>,
    r: Result<Vec<u8>, String>,
) -> bool {
    match before {
        Err(m) => r == Err::<Vec<u8>, String>(m),
        Ok(b) => if b.0 != expected_size || b.1 != expected_modified_at {
            r matches Err(m) && m@
                == "This source item changed since discovery. Refresh the review before deciding; no fingerprint was saved."@
        } else {
            match content {
                None => r matches Err(m) && m@
                    == "This source item cannot be read. It was not skipped or imported."@,
                Some(bytes) => match after {
                    Err(m) => r == Err::<Vec<u8>, String>(m),
                    Ok(a) => if a != b {
                        r matches Err(m) && m@
                            == "This source item changed while it was being checked. Refresh the review before deciding; no fingerprint was saved."@
                    } else {
                        r matches Ok(d) && d@ == blake3_digest(bytes@)
                    },
                },
            }
        },
    }
}

/// `r` is what fingerprinting gives when `stat` looks at the file before and after `read`
/// reads it: the looks and the read that took place are among the outcomes that `stat` and
/// `read` allow. The file is read only when the first look matches the expected size and
/// time, and looked at again only when it could be read.
pub open spec fn fingerprinted<S: Fn() -> Result<(i64, i64), String>, R: FnOnce() -> Option<Vec<u8>>>(
    expected_size: i64,
    expected_modified_at: i64,
    stat: S,
    read: R,
    r: Result<Vec<u8>, String>,
) -> bool {
    exists|before: Result<(i64, i64), String>, content: Option<Vec<u8>>, after: Result<(i64, i64), String>|
        {
            &&& stat.ensures((), before)
            &&& (before matches Ok(b) && b.0 == expected_size && b.1 == expected_modified_at)
                ==> read.ensures((), content)
            &&& (before matches Ok(b) && b.0 == expected_size && b.1 == expected_modified_at
                && content is Some) ==> stat.ensures((), after)
            &&& fingerprint_outcome(expected_size, expected_modified_at, before, content, after, r)
        }
}

/// As `fingerprinted`, where `after_read` ran once the file had been read, before the second
/// look at it.
pub open spec fn fingerprinted_with<
    S: Fn() -> Result<(i64, i64), String>,
    R: FnOnce() -> Option<Vec<u8>>,
    A: FnOnce(),
>(
    expected_size: i64,
    expected_modified_at: i64,
    stat: S,
    read: R,
    after_read: A,
    r: Result<Vec<u8>, String>,
) -> bool {
    exists|before: Result<(i64, i64), String>, content: Option<Vec<u8>>, after: Result<(i64, i64), String>|
        {
            &&& stat.ensures((), before)
            &&& (before matches Ok(b) && b.0 == expected_size && b.1 == expected_modified_at)
                ==> read.ensures((), content)
            &&& (before matches Ok(b) && b.0 == expected_size && b.1 == expected_modified_at
                && content is Some) ==> after_read.ensures((), ()) && stat.ensures((), after)
            &&& fingerprint_outcome(expected_size, expected_modified_at, before, content, after, r)
        }
}

/// Fingerprints a source file with BLAKE3. `stat` gives the file's size and time (see
/// `stable_metadata`), `read` its bytes, and `after_read` runs between reading and the second
/// look at the file.
pub fn fingerprint_file_with_after_read(
    expected_size: i64,
    expected_modified_at: i64,
    stat: impl Fn() -> Result<(i64, i64), String>,
    read: impl FnOnce() -> Option<Vec<u8>>,
    after_read: impl FnOnce(),
) -> (r: Result<Vec<u8>, String>)
    requires
        stat.requires(()),
        read.requires(()),
        after_read.requires(()),
    ensures
        fingerprinted_with(expected_size, expected_modified_at, stat, read, after_read, r),
{
    let before = stat();
    let ghost before_g = before;
    let b = match before {
        Ok(b) => b,
        Err(m) => {
            let r = Err(m);
            assert(fingerprint_outcome(expected_size, expected_modified_at, before_g, None, before_g, r));
            return r;
        },
    };
    if b.0 != expected_size || b.1 != expected_modified_at {
        let r = Err(
            String::from_str(
                "This source item changed since discovery. Refresh the review before deciding; no fingerprint was saved.",
            ),
        );
        assert(fingerprint_outcome(expected_size, expected_modified_at, before_g, None, before_g, r));
        return r;
    }
    let content = read();
    let ghost content_g = content;
    let bytes = match content {
        Some(bytes) => bytes,
        None => {
            let r = Err(String::from_str("This source item cannot be read. It was not skipped or imported."));
            assert(fingerprint_outcome(expected_size, expected_modified_at, before_g, content_g, before_g, r));
            return r;
        },
    };
    let digest = blake3_hash(bytes.as_slice());
    after_read();
    let after = stat();
    let ghost after_g = after;
    let r = match after {
        Err(m) => Err(m),
        Ok(a) => {
            if a.0 != b.0 || a.1 != b.1 {
                Err(
                    String::from_str(
                        "This source item changed while it was being checked. Refresh the review before deciding; no fingerprint was saved.",
                    ),
                )
            } else {
                Ok(digest)
            }
        },
    };
    assert(fingerprint_outcome(expected_size, expected_modified_at, before_g, content_g, after_g, r));
    r
}

/// Fingerprints a source file with BLAKE3, as `fingerprint_file_with_after_read` does with
/// nothing between the read and the second look.
pub fn fingerprint_file(
    expected_size: i64,
    expected_modified_at: i64,
    stat: impl Fn() -> Result<(i64, i64), String>,
    read: impl FnOnce() -> Option<Vec<u8>>,
) -> (r: Result<Vec<u8>, String>)
    requires
        stat.requires(()),
        read.requires(()),
    ensures
        fingerprinted(expected_size, expected_modified_at, stat, read, r),
{
    fingerprint_file_with_after_read(expected_size, expected_modified_at, stat, read, || {})
}


/// The algorithm label stored beside perceptual hashes.
pub const PERCEPTUAL_HASH_ALGORITHM: &'static str = "dhash-64-v1";

/// The most pixels a picture may have to be decoded for visual comparison.
pub const MAX_DECODED_PIXELS: u64 = 40000000;

/// The extensions of still pictures that visual comparison decodes.
pub open spec fn decodable_extension(ext: Seq<char>) -> bool {
    ext == "jpg"@ || ext == "jpeg"@ || ext == "png"@ || ext == "webp"@ || ext == "gif"@
}

/// Why the bytes of a picture could not be had: the file could not be opened, or it opened but
/// could not be read.
#[derive(Debug, Clone, Copy, PartialEq, Eq, Structural)]
pub enum PictureReadFailure {
    Unopened,
    Unread,
}

/// The outcome of visual comparison for a file at `path` whose bytes were read as `content`:
/// its difference hash, or why there is none.
pub open spec fn perceptual_hash_spec(path: Seq<char>, content: Result<Vec<u8>, PictureReadFailure>, r: Result<u64, (&'static str, String)>) -> bool {
    let ext = match std_extension(path) {
        Some(e) => e,
        None => seq![],
    };
    if !decodable_extension(lowercase_extension_spec(path)) {
        r matches Err((state, m)) && state@ == "unsupported"@ && m@
            == "Visual comparison is unavailable for this media type; exact history is still checked."@
    } else {
        match content {
            Err(PictureReadFailure::Unopened) => r matches Err((state, m)) && state@ == "decode_failed"@ && m@
                == "Visual comparison is unavailable because this image could not be read."@,
            Err(PictureReadFailure::Unread) => r matches Err((state, m)) && state@ == "decode_failed"@ && m@
                == "Visual comparison is unavailable because this image format could not be read."@,
            Ok(bytes) => match decoded_dimensions(bytes@, ext) {
                None => r matches Err((state, m)) && state@ == "decode_failed"@ && m@
                    == "Visual comparison is unavailable because this image could not be decoded."@,
                Some((w, h)) => if w * h > MAX_DECODED_PIXELS {
                    r matches Err((state, m)) && state@ == "resource_limited"@ && m@
                        == "Visual comparison is unavailable because this image is too large to compare safely."@
                } else {
                    match decoded_luma_grid(bytes@, ext, GRID_WIDTH, GRID_HEIGHT) {
                        None => r matches Err((state, m)) && state@ == "decode_failed"@ && m@
                            == "Visual comparison is unavailable because this image could not be decoded."@,
                        Some(grid) => r matches Ok(hash) && hash as nat == dhash_spec(grid),
                    }
                },
            },
        }
    }
}

/// The difference hash of the picture at `path`. Only still pictures are compared, and only up
/// to `MAX_DECODED_PIXELS` pixels; `read` gives the file's bytes (or why it could not)
/// and is called only for an extension that is compared. The error says which comparison state
/// to record and why.
pub fn perceptual_hash(path: &str, read: impl FnOnce() -> Result<Vec<u8>, PictureReadFailure>) -> (r: Result<u64, (&'static str, String)>)
    requires
        read.requires(()),
    ensures
        exists|content: Result<Vec<u8>, PictureReadFailure>|
            {
                &&& decodable_extension(lowercase_extension_spec(path@)) ==> read.ensures((), content)
                &&& perceptual_hash_spec(path@, content, r)
            },
{
    let lower = lowercase_extension(path);
    let decodable = vec!["jpg", "jpeg", "png", "webp", "gif"];
    let supported = is_one_of(lower.as_str(), &decodable);
    assert(decodable@[0]@ == "jpg"@ && decodable@[1]@ == "jpeg"@ && decodable@[2]@ == "png"@
        && decodable@[3]@ == "webp"@ && decodable@[4]@ == "gif"@);
    if !supported {
        let r = hash_of_content(path, Err(PictureReadFailure::Unopened));
        assert(perceptual_hash_spec(path@, Err(PictureReadFailure::Unopened), r));
        return r;
    }
    let content = read();
    let ghost content_g = content;
    let r = hash_of_content(path, content);
    assert(read.ensures((), content_g) && perceptual_hash_spec(path@, content_g, r));
    r
}

/// The difference hash of the picture at `path`, whose bytes were read as `content` (or why
/// they could not be).
fn hash_of_content(path: &str, content: Result<Vec<u8>, PictureReadFailure>) -> (r: Result<u64, (&'static str, String)>)
    ensures
        perceptual_hash_spec(path@, content, r),
{
    let lower = lowercase_extension(path);
    let decodable = vec!["jpg", "jpeg", "png", "webp", "gif"];
    let supported = is_one_of(lower.as_str(), &decodable);
    assert(decodable@[0]@ == "jpg"@ && decodable@[1]@ == "jpeg"@ && decodable@[2]@ == "png"@
        && decodable@[3]@ == "webp"@ && decodable@[4]@ == "gif"@);
    if !supported {
        return Err(
            (
                "unsupported",
                String::from_str(
                    "Visual comparison is unavailable for this media type; exact history is still checked.",
                ),
            ),
        );
    }
    let ext = match extension(path) {
        Some(e) => e,
        None => String::new(),
    };
    let bytes = match content {
        Ok(b) => b,
        Err(PictureReadFailure::Unopened) => {
            return Err(
                (
                    "decode_failed",
                    String::from_str(
                        "Visual comparison is unavailable because this image could not be read.",
                    ),
                ),
            );
        },
        Err(PictureReadFailure::Unread) => {
            return Err(
                (
                    "decode_failed",
                    String::from_str(
                        "Visual comparison is unavailable because this image format could not be read.",
                    ),
                ),
            );
        },
    };
    let (width, height) = match picture_dimensions(bytes.as_slice(), ext.as_str()) {
        Some(d) => d,
        None => {
            return Err(
                (
                    "decode_failed",
                    String::from_str(
                        "Visual comparison is unavailable because this image could not be decoded.",
                    ),
                ),
            );
        },
    };
    let w: u64 = width as u64;
    let h: u64 = height as u64;
    assert(w * h <= 0xffff_ffff * 0xffff_ffff) by (nonlinear_arith)
        requires
            w <= 0xffff_ffff,
            h <= 0xffff_ffff,
    ;
    let pixels: u64 = w * h;
    if pixels > MAX_DECODED_PIXELS {
        return Err(
            (
                "resource_limited",
                String::from_str(
                    "Visual comparison is unavailable because this image is too large to compare safely.",
                ),
            ),
        );
    }
    match picture_luma_grid(bytes.as_slice(), ext.as_str(), GRID_WIDTH, GRID_HEIGHT) {
        Some(grid) => Ok(dhash(&grid)),
        None => Err(
            (
                "decode_failed",
                String::from_str("Visual comparison is unavailable because this image could not be decoded."),
            ),
        ),
    }
}


/// Whether a source file can be read: it is a plain file and it opens.
pub fn readable_file(is_file: bool, opens: bool) -> (r: Result<(), String>)
    ensures
        !is_file ==> (r matches Err(m) && m@ == item_unavailable_message()),
        is_file && !opens ==> (r matches Err(m) && m@
            == "This source item cannot be read. It was not skipped or imported."@),
        is_file && opens ==> r is Ok,
{
    if !is_file {
        return Err(String::from_str("This source item is unavailable. It was not skipped or imported."));
    }
    if !opens {
        return Err(String::from_str("This source item cannot be read. It was not skipped or imported."));
    }
    Ok(())
}

/// How many names `publish_copy` tries before it gives up.
pub const PUBLISH_ATTEMPTS: u8 = 100;

/// A step of copying an import that failed.
#[derive(Debug)]
pub enum CopyFailure {
    /// The source could not be opened.
    SourceUnreadable,
    /// The temporary file could not be created.
    ReserveFailed,
    /// The bytes could not all be written.
    CopyIncomplete,
    /// The finished copy could not be linked under its final name.
    LinkFailed,
    /// The temporary name could not be removed after publishing.
    CleanupFailed,
}

/// The error reported for a failed copy step.
pub open spec fn copy_failure_error_spec(f: CopyFailure, e: ReviewError) -> bool {
    match f {
        CopyFailure::SourceUnreadable => review_error_is(
            e,
            "candidate_unavailable"@,
            "This source item cannot be read. It was not imported."@,
        ),
        CopyFailure::ReserveFailed => review_error_is(
            e,
            "destination_unavailable"@,
            "Could not reserve a safe destination for the import."@,
        ),
        CopyFailure::CopyIncomplete => review_error_is(
            e,
            "copy_failed"@,
            "The file copy did not finish. No import was published."@,
        ),
        CopyFailure::LinkFailed => review_error_is(
            e,
            "destination_collision"@,
            "A destination name collision occurred; retry the import to choose a new name."@,
        ),
        CopyFailure::CleanupFailed => review_error_is(
            e,
            "copy_failed"@,
            "The copy was published but its temporary file could not be cleaned up safely."@,
        ),
    }
}

/// The error reported for a failed copy step.
pub fn copy_failure_error(f: &CopyFailure) -> (r: ReviewError)
    ensures
        copy_failure_error_spec(*f, r),
{
    match f {
        CopyFailure::SourceUnreadable => error(
            "candidate_unavailable",
            "This source item cannot be read. It was not imported.",
        ),
        CopyFailure::ReserveFailed => error(
            "destination_unavailable",
            "Could not reserve a safe destination for the import.",
        ),
        CopyFailure::CopyIncomplete => error(
            "copy_failed",
            "The file copy did not finish. No import was published.",
        ),
        CopyFailure::LinkFailed => error(
            "destination_collision",
            "A destination name collision occurred; retry the import to choose a new name.",
        ),
        CopyFailure::CleanupFailed => error(
            "copy_failed",
            "The copy was published but its temporary file could not be cleaned up safely.",
        ),
    }
}

/// The managed folder of an import date: the date's folder inside its year's folder.
pub open spec fn date_directory_spec(library: Seq<char>, date: Seq<char>) -> Seq<char> {
    std_join(std_join(library, date.take(4)), date)
}

/// The hidden name under which a copy is written before it is published.
pub open spec fn pending_name_spec(filename: Seq<char>, suffix: Seq<char>) -> Seq<char> {
    "."@ + filename + ".photo-handler-pending-"@ + suffix
}

/// The managed folder of an import date.
pub fn date_directory(library: &str, date: &str) -> (r: String)
    requires
        date@.len() >= 4,
    ensures
        r@ == date_directory_spec(library@, date@),
{
    let chars = str_chars(date);
    let year = string_from_chars(vstd::slice::slice_subrange(chars.as_slice(), 0, 4));
    assert(year@ =~= date@.take(4));
    let year_dir = join_path(library, year.as_str());
    join_path(year_dir.as_str(), date)
}

/// The path of the hidden file that a copy is written to before it is published.
pub fn pending_path(directory: &str, filename: &str, suffix: &str) -> (r: String)
    ensures
        r@ == std_join(directory@, pending_name_spec(filename@, suffix@)),
{
    let mut name = String::from_str(".");
    name.append(filename);
    name.append(".photo-handler-pending-");
    name.append(suffix);
    join_path(directory, name.as_str())
}

/// The outcome of the copy attempt at the first free name `destination`, written through
/// `temporary`.
pub open spec fn copy_outcome(
    copied: Result<(), CopyFailure>,
    destination: Seq<char>,
    r: Result<String, ReviewError>,
) -> bool {
    match copied {
        Ok(_) => r matches Ok(d) && d@ == destination,
        Err(f) => r matches Err(e) && copy_failure_error_spec(f, e),
    }
}

/// The outcome of trying names in `dir` for a copy of `name`: each name up to the first free
/// one was found taken, at most `PUBLISH_ATTEMPTS` were tried, and the copy went to the free
/// one through a hidden temporary file, which `discard` removed when the copy failed.
pub open spec fn attempts_outcome<
    T: Fn(&String) -> bool,
    S: FnOnce() -> String,
    C: FnOnce(&String, &String) -> Result<(), CopyFailure>,
    D: FnOnce(&String),
>(
    dir: Seq<char>,
    name: Seq<char>,
    taken: T,
    random_suffix: S,
    copy_to: C,
    discard: D,
    r: Result<String, ReviewError>,
) -> bool {
    exists|tries: Seq<bool>, names: Seq<String>|
        {
            &&& 1 <= tries.len() <= PUBLISH_ATTEMPTS
            &&& names.len() == tries.len()
            &&& forall|j: int| 0 <= j < tries.len() ==> (#[trigger] names[j])@ == unique_destination_spec(dir, name, j as u8)
            &&& forall|j: int| 0 <= j < tries.len() ==> taken.ensures((&names[j],), #[trigger] tries[j])
            &&& forall|j: int| 0 <= j < tries.len() - 1 ==> #[trigger] tries[j]
            &&& if tries.last() {
                tries.len() == PUBLISH_ATTEMPTS && review_fails_with(
                    r,
                    "destination_collision"@,
                    "Could not reserve a unique destination name. No import was published."@,
                )
            } else {
                exists|suffix: String, temporary: String, copied: Result<(), CopyFailure>|
                    {
                        &&& random_suffix.ensures((), suffix)
                        &&& temporary@ == std_join(dir, pending_name_spec(name, suffix@))
                        &&& copy_to.ensures((&temporary, &names.last()), copied)
                        &&& copied is Err ==> discard.ensures((&temporary,), ())
                        &&& copy_outcome(copied, names.last()@, r)
                    }
            }
        }
}

/// Publishes a copy of `source` in the library's folder for `date`, under the first name
/// that is not taken, without ever replacing a file.
///
/// `readable` says whether the source can be read; `create_dir` creates the date folder and
/// its parents; `taken` says whether a name is in use; `random_suffix` names the hidden
/// temporary file; `copy_to` copies the source to the temporary file and links it under the
/// destination name; `discard` removes the temporary file after a failed copy.
pub fn publish_copy(
    source: &str,
    library: &str,
    date: &str,
    readable: Result<(), String>,
    create_dir: impl FnOnce(&String) -> Result<(), String>,
    taken: impl Fn(&String) -> bool,
    random_suffix: impl FnOnce() -> String,
    copy_to: impl FnOnce(&String, &String) -> Result<(), CopyFailure>,
    discard: impl FnOnce(&String),
) -> (r: Result<String, ReviewError>)
    requires
        date@.len() >= 4,
        forall|d: &String| readable is Ok ==> create_dir.requires((d,)),
        forall|d: &String| readable is Ok ==> taken.requires((d,)),
        readable is Ok ==> random_suffix.requires(()),
        forall|t: &String, d: &String|
            readable is Ok && (exists|dir: String| #[trigger]
                create_dir.ensures((&dir,), Ok::<(), String>(()))) ==> #[trigger] copy_to.requires(
                (t, d),
            ),
        forall|t: &String|
            (exists|d: &String, f: CopyFailure| #[trigger]
                copy_to.ensures((t, d), Err::<(), CopyFailure>(f))) ==> #[trigger] discard.requires(
                (t,),
            ),
    ensures
        readable matches Err(m) ==> review_fails_with(r, "candidate_unavailable"@, m@),
        readable is Ok ==> exists|directory: String, made: Result<(), String>|
            {
                &&& directory@ == date_directory_spec(library@, date@)
                &&& create_dir.ensures((&directory,), made)
                &&& made matches Err(e) ==> review_fails_with(
                    r,
                    "destination_unavailable"@,
                    "Could not create the managed date folder: "@ + e@,
                )
                &&& made is Ok ==> (match std_file_name(source@) {
                    None => review_fails_with(
                        r,
                        "candidate_unavailable"@,
                        "The source item has no usable filename."@,
                    ),
                    Some(name) => attempts_outcome(
                        date_directory_spec(library@, date@),
                        name,
                        taken,
                        random_suffix,
                        copy_to,
                        discard,
                        r,
                    ),
                })
            },
{
    match readable {
        Ok(()) => {},
        Err(m) => {
            return Err(ReviewError { code: "candidate_unavailable", message: m });
        },
    }
    let directory = date_directory(library, date);
    let made = create_dir(&directory);
    let ghost made_g = made;
    match made {
        Ok(u) => {
            assert(made_g == Ok::<(), String>(u));
        },
        Err(e) => {
            let mut message = String::from_str("Could not create the managed date folder: ");
            message.append(e.as_str());
            return Err(ReviewError { code: "destination_unavailable", message });
        },
    }
    let filename = match file_name(source) {
        Some(n) => n,
        None => {
            return Err(error("candidate_unavailable", "The source item has no usable filename."));
        },
    };
    let ghost dir = directory@;
    let ghost name = filename@;
    let ghost mut tries: Seq<bool> = seq![];
    let ghost mut names: Seq<String> = seq![];
    let mut attempt: u8 = 0;
    while attempt < PUBLISH_ATTEMPTS
        invariant
            attempt <= PUBLISH_ATTEMPTS,
            tries.len() == attempt,
            names.len() == attempt,
            dir == directory@,
            name == filename@,
            std_file_name(source@) == Some(name),
            directory@ == date_directory_spec(library@, date@),
            create_dir.ensures((&directory,), made_g),
            made_g is Ok,
            readable is Ok,
            forall|d: &String| taken.requires((d,)),
            random_suffix.requires(()),
            create_dir.ensures((&directory,), Ok::<(), String>(())),
            forall|t: &String, d: &String| copy_to.requires((t, d)),
            forall|t: &String|
                (exists|d: &String, f: CopyFailure| #[trigger]
                    copy_to.ensures((t, d), Err::<(), CopyFailure>(f))) ==> #[trigger] discard.requires(
                    (t,),
                ),
            forall|j: int| 0 <= j < tries.len() ==> (#[trigger] names[j])@ == unique_destination_spec(dir, name, j as u8),
            forall|j: int| 0 <= j < tries.len() ==> taken.ensures((&names[j],), #[trigger] tries[j]),
            forall|j: int| 0 <= j < tries.len() ==> #[trigger] tries[j],
        decreases PUBLISH_ATTEMPTS - attempt,
    {
        let destination = unique_destination(directory.as_str(), filename.as_str(), attempt);
        let in_use = taken(&destination);
        proof {
            tries = tries.push(in_use);
            names = names.push(destination);
        }
        if !in_use {
            let suffix = random_suffix();
            let temporary = pending_path(directory.as_str(), filename.as_str(), suffix.as_str());
            let copied = copy_to(&temporary, &destination);
            let ghost copied_g = copied;
            let r = match copied {
                Ok(()) => Ok(destination),
                Err(f) => {
                    let e = copy_failure_error(&f);
                    assert(copy_to.ensures((&temporary, &destination), Err::<(), CopyFailure>(f)));
                    discard(&temporary);
                    Err(e)
                },
            };
            assert(copy_outcome(copied_g, names.last()@, r));
            assert(!tries.last());
            return r;
        }
        attempt = attempt + 1;
    }
    assert(tries.last());
    Err(error("destination_collision", "Could not reserve a unique destination name. No import was published."))
}


/// The file name shown for an earlier decision: the last component of its relative path, or
/// nothing when it has none.
pub fn match_filename(relative_path: &str) -> (r: String)
    ensures
        match std_file_name(relative_path@) {
            Some(name) => r@ == name,
            None => r@.len() == 0,
        },
{
    match file_name(relative_path) {
        Some(name) => name,
        None => String::new(),
    }
}

/// The copy whose preview an earlier decision shows: only an import with a destination has
/// one.
pub fn exact_preview_target(decision: &str, destination: Option<String>) -> (r: Option<String>)
    ensures
        r == (if decision@ == "imported"@ {
            destination
        } else {
            None
        }),
{
    if same_text(decision, "imported") {
        destination
    } else {
        None
    }
}

/// An earlier decision on a file with the same bytes, as the review shows it.
pub fn exact_match(
    decision: String,
    relative_path: String,
    decided_at: String,
    tags: Vec<String>,
    preview_url: Option<String>,
) -> (r: ExactMatch)
    ensures
        r.decision == decision,
        match std_file_name(relative_path@) {
            Some(name) => r.filename@ == name,
            None => r.filename@.len() == 0,
        },
        r.relative_path == relative_path,
        r.decided_at == decided_at,
        r.tags == tags,
        r.preview_url == preview_url,
{
    let filename = match_filename(relative_path.as_str());
    ExactMatch { decision, filename, relative_path, decided_at, tags, preview_url }
}

/// A similar earlier import, as the review shows it.
pub fn similar_match(ranked: RankedMatch, tags: Vec<String>, preview_url: Option<String>) -> (r: SimilarMatch)
    ensures
        match std_file_name(ranked.candidate.relative_path@) {
            Some(name) => r.filename@ == name,
            None => r.filename@.len() == 0,
        },
        r.decided_at == ranked.candidate.decided_at,
        r.tags == tags,
        r.preview_url == preview_url,
        r.similarity_label@ == "Possible similar picture"@,
{
    let filename = match_filename(ranked.candidate.relative_path.as_str());
    SimilarMatch {
        filename,
        decided_at: ranked.candidate.decided_at,
        tags,
        preview_url,
        similarity_label: "Possible similar picture",
    }
}

/// Where `next_review_item` goes after looking at the latest review session.
#[derive(Debug)]
pub enum SessionRoute {
    /// No session: show the latest completed review, if any.
    LatestCompletion,
    /// The session is complete: show its completion.
    CompletionOf(i64),
    /// The session is active: show its next pending candidate.
    PendingOf(i64),
}

/// Routes on the latest review session, given by id and state.
pub fn route_session(latest: Option<(i64, String)>) -> (r: SessionRoute)
    ensures
        match latest {
            None => r is LatestCompletion,
            Some((id, state)) => if state@ == "complete"@ {
                r == SessionRoute::CompletionOf(id)
            } else {
                r == SessionRoute::PendingOf(id)
            },
        },
{
    match latest {
        None => SessionRoute::LatestCompletion,
        Some((id, state)) => {
            if same_text(state.as_str(), "complete") {
                SessionRoute::CompletionOf(id)
            } else {
                SessionRoute::PendingOf(id)
            }
        },
    }
}

/// The completion of a session: its source and counts when it is complete, else nothing to
/// show.
pub fn completion_of(session: Option<(String, u64, u64)>) -> (r: ReviewItem)
    ensures
        match session {
            Some((source, imported, skipped)) => r.state@ == "complete"@ && bare_item(r)
                && r.imported_count == imported && r.skipped_count == skipped && r.message@
                == "Review complete for "@ + source@ + ". Originals were not deleted, moved, or changed."@,
            None => r.state@ == "empty"@ && bare_item(r) && r.imported_count == 0 && r.skipped_count
                == 0,
        },
{
    match session {
        Some((source, imported, skipped)) => completion_item(source.as_str(), imported, skipped),
        None => empty_item(),
    }
}

/// The next pending candidate of the active session, as the catalogue holds it.
#[derive(Debug)]
pub struct PendingCandidate {
    pub candidate_id: i64,
    pub source_path: String,
    pub relative_path: String,
    pub media_type: String,
    pub file_size: i64,
    pub modified_at: i64,
}

/// The messages of an item that could not be compared.
pub open spec fn changed_while_comparing() -> Seq<char> {
    "This source item changed while it was being compared. Refresh the review before deciding; no fingerprint was saved."@
}

/// The message of an item whose comparison could not be saved.
pub open spec fn not_saved() -> Seq<char> {
    "Comparison results could not be saved. Refresh the review and try again; no decision was made."@
}

/// The message of an item whose history could not be read.
pub open spec fn history_unavailable() -> Seq<char> {
    "Comparison history is temporarily unavailable. Refresh the review and try again; no decision was made."@
}

/// `r` shows `c` as unavailable with this message.
pub open spec fn unavailable_as(r: ReviewItem, p: PendingItem, message: Seq<char>) -> bool {
    &&& r.state@ == "unavailable"@
    &&& shows_pending(r, p)
    &&& r.preview_url is None
    &&& r.exact_matches@.len() == 0
    &&& r.similar_matches@.len() == 0
    &&& r.visual_comparison_message is None
    &&& r.message@ == message
}

/// The candidate `c` as the review shows it, with its tags and effective date.
pub open spec fn pending_of(c: PendingCandidate, tags: Vec<String>, effective: Option<(String, String)>, p: PendingItem) -> bool {
    &&& p.candidate_id == c.candidate_id
    &&& p.relative_path == c.relative_path
    &&& match std_file_name(c.relative_path@) {
        Some(name) => p.filename@ == name,
        None => p.filename@ == c.relative_path@,
    }
    &&& p.media_type == c.media_type
    &&& match effective {
        Some((d, o)) => p.date@ == d@ && p.origin@ == o@,
        None => p.date@ == "1970-01-01"@ && p.origin@ == "unavailable"@,
    }
    &&& p.tags == tags
}

/// The item shown for candidate `p` after the comparisons, given what each step returned:
/// the fingerprint, the visual hash, the second look at the file, whether the fingerprint was
/// saved, the exact history, whether the visual outcome was saved, the similar imports and
/// the preview check.
pub open spec fn item_outcome(
    c: PendingCandidate,
    p: PendingItem,
    fingerprint: Result<Vec<u8>, String>,
    visual: Result<u64, (&'static str, String)>,
    stable: Result<(i64, i64), String>,
    fingerprint_saved: bool,
    exact: Result<Vec<ExactMatch>, ReviewError>,
    visual_saved: bool,
    similar: Result<Vec<SimilarMatch>, ReviewError>,
    preview: Result<bool, String>,
    path: String,
    r: Result<ReviewItem, ReviewError>,
) -> bool {
    match fingerprint {
        Err(m) => r matches Ok(item) && unavailable_as(item, p, m@),
        Ok(_) => if stable != Ok::<(i64, i64), String>((c.file_size, c.modified_at)) {
            r matches Ok(item) && unavailable_as(item, p, changed_while_comparing())
        } else if !fingerprint_saved {
            r matches Ok(item) && unavailable_as(item, p, not_saved())
        } else {
            match exact {
                Err(_) => r matches Ok(item) && unavailable_as(item, p, history_unavailable()),
                Ok(exact_matches) => if !visual_saved {
                    r matches Ok(item) && unavailable_as(item, p, not_saved())
                } else if visual is Ok && similar is Err {
                    r matches Ok(item) && unavailable_as(item, p, history_unavailable())
                } else {
                    match preview {
                        Err(m) => r matches Ok(item) && unavailable_as(item, p, m@),
                        Ok(false) => review_fails_with(
                            r,
                            "preview_unavailable"@,
                            "The selected item could not be prepared for in-app preview."@,
                        ),
                        Ok(true) => r matches Ok(item) && {
                            &&& item.state@ == "item"@
                            &&& shows_pending(item, p)
                            &&& item.preview_url matches Some(url) && url@ == asset_url_spec(path@)
                            &&& item.exact_matches == exact_matches
                            &&& match visual {
                                Ok(_) => similar matches Ok(s) && item.similar_matches == s
                                    && item.visual_comparison_message is None,
                                Err((_, m)) => item.similar_matches@.len() == 0
                                    && item.visual_comparison_message == Some(m),
                            }
                            &&& item.message@
                                == "Review this item before choosing Import or Skip. Originals are never modified."@
                        },
                    }
                },
            }
        },
    }
}

/// Which later steps the comparison of candidate `c` reaches, given what the earlier ones
/// returned.
pub open spec fn compared(c: PendingCandidate, fingerprint: Result<Vec<u8>, String>, stable: Result<(i64, i64), String>) -> bool {
    fingerprint is Ok && stable == Ok::<(i64, i64), String>((c.file_size, c.modified_at))
}

/// The next review item for the pending candidate `c`, with its tags and effective date.
///
/// The file at the candidate's path is fingerprinted and hashed visually, then looked at once
/// more; the comparisons are saved and the histories read; last, the file is checked for a
/// preview. Each closure performs one of these steps; any failure shows the candidate as
/// unavailable with the reason, and the preview allowance failing is an error.
pub fn next_review_item(
    c: PendingCandidate,
    tags: Result<Vec<String>, ReviewError>,
    effective: Option<(String, String)>,
    fingerprint: impl FnOnce() -> Result<Vec<u8>, String>,
    visual: impl FnOnce() -> Result<u64, (&'static str, String)>,
    stable: impl FnOnce() -> Result<(i64, i64), String>,
    save_fingerprint: impl FnOnce(&Vec<u8>) -> bool,
    exact_history: impl FnOnce(&Vec<u8>) -> Result<Vec<ExactMatch>, ReviewError>,
    save_hash: impl FnOnce(u64) -> bool,
    similar_history: impl FnOnce(u64) -> Result<Vec<SimilarMatch>, ReviewError>,
    save_visual_state: impl FnOnce(&'static str) -> bool,
    preview: impl FnOnce(&String) -> Result<bool, String>,
) -> (r: Result<ReviewItem, ReviewError>)
    requires
        tags is Ok ==> fingerprint.requires(()),
        tags is Ok && (exists|d: Vec<u8>| #[trigger]
            fingerprint.ensures((), Ok::<Vec<u8>, String>(d))) ==> visual.requires(()),
        tags is Ok && (exists|d: Vec<u8>| #[trigger]
            fingerprint.ensures((), Ok::<Vec<u8>, String>(d))) ==> stable.requires(()),
        forall|d: &Vec<u8>|
            tags is Ok && fingerprint.ensures((), Ok::<Vec<u8>, String>(*d)) && stable.ensures(
                (),
                Ok::<(i64, i64), String>((c.file_size, c.modified_at)),
            ) ==> #[trigger] save_fingerprint.requires((d,)),
        forall|d: &Vec<u8>|
            tags is Ok && save_fingerprint.ensures((d,), true) ==> #[trigger] exact_history.requires(
                (d,),
            ),
        forall|h: u64|
            tags is Ok && visual.ensures((), Ok::<u64, (&'static str, String)>(h)) && (exists|
                d: &Vec<u8>,
                m: Vec<ExactMatch>,
            | #[trigger] exact_history.ensures((d,), Ok::<Vec<ExactMatch>, ReviewError>(m)))
                ==> #[trigger] save_hash.requires((h,)),
        forall|h: u64|
            tags is Ok && save_hash.ensures((h,), true) ==> #[trigger] similar_history.requires((h,)),
        forall|s: &'static str|
            tags is Ok && (exists|m: String| #[trigger]
                visual.ensures((), Err::<u64, (&'static str, String)>((s, m)))) && (exists|
                d: &Vec<u8>,
                m: Vec<ExactMatch>,
            | #[trigger] exact_history.ensures((d,), Ok::<Vec<ExactMatch>, ReviewError>(m)))
                ==> #[trigger] save_visual_state.requires((s,)),
        forall|path: &String| tags is Ok ==> preview.requires((path,)),
    ensures
        tags matches Err(e) ==> r == Err::<ReviewItem, ReviewError>(e),
        tags matches Ok(t) ==> exists|
            p: PendingItem,
            fp: Result<Vec<u8>, String>,
            vis: Result<u64, (&'static str, String)>,
            st: Result<(i64, i64), String>,
            fp_saved: bool,
            exact: Result<Vec<ExactMatch>, ReviewError>,
            vis_saved: bool,
            sim: Result<Vec<SimilarMatch>, ReviewError>,
            prev: Result<bool, String>,
            path: String,
        |
            #![trigger item_outcome(c, p, fp, vis, st, fp_saved, exact, vis_saved, sim, prev, path, r)]
            {
                &&& pending_of(c, t, effective, p)
                &&& fingerprint.ensures((), fp)
                &&& fp is Ok ==> visual.ensures((), vis) && stable.ensures((), st)
                &&& compared(c, fp, st) ==> save_fingerprint.ensures((&fp->Ok_0,), fp_saved)
                &&& compared(c, fp, st) && fp_saved ==> exact_history.ensures((&fp->Ok_0,), exact)
                &&& compared(c, fp, st) && fp_saved && exact is Ok ==> match vis {
                    Ok(h) => save_hash.ensures((h,), vis_saved) && (vis_saved
                        ==> similar_history.ensures((h,), sim)),
                    Err((state, _)) => save_visual_state.ensures((state,), vis_saved),
                }
                &&& path@ == std_join(c.source_path@, c.relative_path@)
                &&& (compared(c, fp, st) && fp_saved && exact is Ok && vis_saved && !(vis is Ok
                    && sim is Err)) ==> preview.ensures((&path,), prev)
                &&& item_outcome(c, p, fp, vis, st, fp_saved, exact, vis_saved, sim, prev, path, r)
            },
{
    let tags = match tags {
        Ok(t) => t,
        Err(e) => {
            return Err(e);
        },
    };
    let path = join_path(c.source_path.as_str(), c.relative_path.as_str());
    let filename = item_filename(c.relative_path.as_str());
    let (date, origin) = review_date(effective);
    let p = PendingItem {
        candidate_id: c.candidate_id,
        relative_path: c.relative_path,
        filename,
        media_type: c.media_type,
        date,
        origin,
        tags,
    };
    let ghost pg = p;
    let fp = fingerprint();
    let ghost fp_g = fp;
    let digest = match fp {
        Ok(d) => {
            assert(fp_g == Ok::<Vec<u8>, String>(d));
            d
        },
        Err(m) => {
            let r = Ok(unavailable_item(p, m));
            assert(item_outcome(c, pg, fp_g, arbitrary(), arbitrary(), arbitrary(), arbitrary(), arbitrary(), arbitrary(), arbitrary(), path, r));
            return r;
        },
    };
    let vis = visual();
    let ghost vis_g = vis;
    let st = stable();
    let ghost st_g = st;
    let unchanged = match st {
        Ok((size, modified)) => size == c.file_size && modified == c.modified_at,
        Err(_) => false,
    };
    if unchanged {
        assert(st_g == Ok::<(i64, i64), String>((c.file_size, c.modified_at)));
    }
    if !unchanged {
        let r = Ok(unavailable_item(p, String::from_str("This source item changed while it was being compared. Refresh the review before deciding; no fingerprint was saved.")));
        assert(item_outcome(c, pg, fp_g, vis_g, st_g, arbitrary(), arbitrary(), arbitrary(), arbitrary(), arbitrary(), path, r));
        return r;
    }
    let fp_saved = save_fingerprint(&digest);
    if !fp_saved {
        let r = Ok(unavailable_item(p, String::from_str("Comparison results could not be saved. Refresh the review and try again; no decision was made.")));
        assert(item_outcome(c, pg, fp_g, vis_g, st_g, fp_saved, arbitrary(), arbitrary(), arbitrary(), arbitrary(), path, r));
        return r;
    }
    let exact = exact_history(&digest);
    let ghost exact_g = exact;
    let exact_matches = match exact {
        Ok(m) => {
            assert(exact_history.ensures((&digest,), Ok::<Vec<ExactMatch>, ReviewError>(m)));
            m
        },
        Err(_) => {
            let r = Ok(unavailable_item(p, String::from_str("Comparison history is temporarily unavailable. Refresh the review and try again; no decision was made.")));
            assert(item_outcome(c, pg, fp_g, vis_g, st_g, fp_saved, exact_g, arbitrary(), arbitrary(), arbitrary(), path, r));
            return r;
        },
    };
    let ghost mut vis_saved_g: bool = arbitrary();
    let ghost mut sim_g: Result<Vec<SimilarMatch>, ReviewError> = arbitrary();
    let (similar_matches, visual_message) = match vis {
        Ok(hash) => {
            assert(visual.ensures((), Ok::<u64, (&'static str, String)>(hash)));
            let saved = save_hash(hash);
            proof {
                vis_saved_g = saved;
            }
            if !saved {
                let r = Ok(unavailable_item(p, String::from_str("Comparison results could not be saved. Refresh the review and try again; no decision was made.")));
                assert(item_outcome(c, pg, fp_g, vis_g, st_g, fp_saved, exact_g, vis_saved_g, sim_g, arbitrary(), path, r));
                return r;
            }
            let sim = similar_history(hash);
            proof {
                sim_g = sim;
            }
            match sim {
                Ok(m) => (m, None),
                Err(_) => {
                    let r = Ok(unavailable_item(p, String::from_str("Comparison history is temporarily unavailable. Refresh the review and try again; no decision was made.")));
                    assert(item_outcome(c, pg, fp_g, vis_g, st_g, fp_saved, exact_g, vis_saved_g, sim_g, arbitrary(), path, r));
                    return r;
                },
            }
        },
        Err((state, message)) => {
            assert(visual.ensures((), Err::<u64, (&'static str, String)>((state, message))));
            let saved = save_visual_state(state);
            proof {
                vis_saved_g = saved;
            }
            if !saved {
                let r = Ok(unavailable_item(p, String::from_str("Comparison results could not be saved. Refresh the review and try again; no decision was made.")));
                assert(item_outcome(c, pg, fp_g, vis_g, st_g, fp_saved, exact_g, vis_saved_g, sim_g, arbitrary(), path, r));
                return r;
            }
            (Vec::new(), Some(message))
        },
    };
    let prev = preview(&path);
    let ghost prev_g = prev;
    let preview_url = match prev {
        Ok(true) => match asset_url(path.as_str()) {
            Ok(url) => Some(url),
            Err(e) => {
                return Err(e);
            },
        },
        Ok(false) => {
            let r = Err(error("preview_unavailable", "The selected item could not be prepared for in-app preview."));
            assert(item_outcome(c, pg, fp_g, vis_g, st_g, fp_saved, exact_g, vis_saved_g, sim_g, prev_g, path, r));
            return r;
        },
        Err(m) => {
            let r = Ok(unavailable_item(p, m));
            assert(item_outcome(c, pg, fp_g, vis_g, st_g, fp_saved, exact_g, vis_saved_g, sim_g, prev_g, path, r));
            return r;
        },
    };
    let r = Ok(
        ReviewItem {
            state: "item",
            candidate_id: Some(p.candidate_id),
            relative_path: Some(p.relative_path),
            filename: Some(p.filename),
            media_type: Some(p.media_type),
            effective_import_date: Some(p.date),
            date_origin: Some(p.origin),
            tags: p.tags,
            preview_url,
            exact_matches,
            similar_matches,
            visual_comparison_message: visual_message,
            imported_count: 0,
            skipped_count: 0,
            message: String::from_str("Review this item before choosing Import or Skip. Originals are never modified."),
        },
    );
    assert(item_outcome(c, pg, fp_g, vis_g, st_g, fp_saved, exact_g, vis_saved_g, sim_g, prev_g, path, r));
    r
}


/// The newest revision recorded for a candidate's path in a resumed session.
#[derive(Debug)]
pub struct LatestRevision {
    pub file_size: i64,
    pub modified_at: i64,
    pub media_type: String,
    pub revision: i64,
    pub fingerprint: Option<Vec<u8>>,
}

/// The revision to record for a candidate found again in a resumed session, given what the
/// file's fingerprint is now: `None` when nothing is to be recorded. A path seen for the first
/// time gets revision 1; a changed file gets the next revision; a file with the same size,
/// time and media type is unchanged unless its stored fingerprint differs from the current one
/// (or the current one cannot be computed). `current` is the fingerprint taken now: taken
/// exactly when the file looks unchanged and a fingerprint is stored to compare with.
pub open spec fn revision_spec(c: Candidate, latest: Option<LatestRevision>, current: Option<Result<Vec<u8>, String>>, r: Option<i64>) -> bool {
    match latest {
        None => current is None && r == Some(1i64),
        Some(l) => if l.file_size == c.file_size && l.modified_at == c.modified_at && l.media_type@
            == c.media_type@ {
            match l.fingerprint {
                None => current is None && r is None,
                Some(stored) => match current {
                    Some(Ok(now)) => if now@ == stored@ {
                        r is None
                    } else {
                        r == Some((l.revision + 1) as i64)
                    },
                    Some(Err(_)) => r == Some((l.revision + 1) as i64),
                    None => false,
                },
            }
        } else {
            current is None && r == Some((l.revision + 1) as i64)
        },
    }
}

/// Whether two byte strings are equal.
fn same_bytes(a: &Vec<u8>, b: &Vec<u8>) -> (r: bool)
    ensures
        r == (a@ == b@),
{
    if a.len() != b.len() {
        return false;
    }
    let mut i: usize = 0;
    while i < a.len()
        invariant
            a@.len() == b@.len(),
            0 <= i <= a@.len(),
            forall|k: int| 0 <= k < i ==> a@[k] == b@[k],
        decreases a@.len() - i,
    {
        if a[i] != b[i] {
            return false;
        }
        i = i + 1;
    }
    assert(a@ =~= b@);
    true
}

/// The revision to record for candidate `c` when a session is resumed. `fingerprint_now`
/// fingerprints the file; it is called only to confirm that an apparently unchanged file with
/// a stored fingerprint really is unchanged.
pub fn next_revision(
    c: &Candidate,
    latest: Option<LatestRevision>,
    fingerprint_now: impl FnOnce() -> Result<Vec<u8>, String>,
) -> (r: Option<i64>)
    requires
        latest matches Some(l) ==> l.revision < i64::MAX,
        fingerprint_now.requires(()),
    ensures
        exists|current: Option<Result<Vec<u8>, String>>|
            {
                &&& current matches Some(now) ==> fingerprint_now.ensures((), now)
                &&& revision_spec(*c, latest, current, r)
            },
{
    match latest {
        None => {
            assert(revision_spec(*c, latest, None, Some(1i64)));
            Some(1)
        },
        Some(l) => {
            let ghost lg = l;
            if l.file_size == c.file_size && l.modified_at == c.modified_at && same_text(
                l.media_type.as_str(),
                c.media_type,
            ) {
                match l.fingerprint {
                    None => {
                        assert(revision_spec(*c, Some(lg), None, None));
                        None
                    },
                    Some(stored) => {
                        let now = fingerprint_now();
                        let ghost now_g = now;
                        let unchanged = match &now {
                            Ok(d) => same_bytes(d, &stored),
                            Err(_) => false,
                        };
                        let r = if unchanged {
                            None
                        } else {
                            Some(l.revision + 1)
                        };
                        assert(revision_spec(*c, Some(lg), Some(now_g), r));
                        r
                    },
                }
            } else {
                assert(revision_spec(*c, Some(lg), None, Some((l.revision + 1) as i64)));
                Some(l.revision + 1)
            }
        },
    }
}

/// The review state of the unlocked library: `latest` reads the latest session.
pub fn current_review_state(
    session: &LibrarySession,
    latest: impl FnOnce() -> Result<Option<(String, String, u64)>, ReviewError>,
) -> (r: Result<ReviewState, ReviewError>)
    requires
        latest.requires(()),
    ensures
        session.current is None ==> review_fails_with(
            r,
            "library_locked"@,
            "The protected library is locked. Unlock it before reviewing media."@,
        ),
        session.current is Some ==> exists|row: Result<Option<(String, String, u64)>, ReviewError>|
            {
                &&& latest.ensures((), row)
                &&& match row {
                    Err(e) => r == Err::<ReviewState, ReviewError>(e),
                    Ok(found) => r matches Ok(state) && review_state_is(found, state),
                }
            },
{
    match catalogue_session(session) {
        Err(e) => {
            return Err(ReviewError::from(e));
        },
        Ok(_) => {},
    }
    let row = latest();
    let ghost row_g = row;
    match row {
        Err(e) => Err(e),
        Ok(found) => Ok(review_state(found)),
    }
}


/// `e` is the error that a locked library gives a review command.
pub open spec fn locked_review_error(r: Result<DecisionResult, ReviewError>) -> bool {
    review_fails_with(
        r,
        "library_locked"@,
        "The protected library is locked. Unlock it before reviewing media."@,
    )
}

/// Skips a pending candidate and records the normalized tags: `record` writes the decision
/// `"skipped"` with those tags, after checking that the candidate is still pending.
pub fn skip_review_item(
    session: &LibrarySession,
    request: DecideRequest,
    record: impl FnOnce(i64, Vec<String>) -> Result<(), ReviewError>,
) -> (r: Result<DecisionResult, ReviewError>)
    requires
        forall|id: i64, tags: Vec<String>| session.current is Some ==> record.requires((id, tags)),
    ensures
        session.current is None ==> locked_review_error(r),
        session.current is Some ==> exists|tags: Vec<String>, recorded: Result<(), ReviewError>|
            {
                &&& strictly_sorted(string_views(tags@))
                &&& forall|t: Seq<char>| #[trigger] string_views(tags@).contains(t) <==> is_normalized_tag_of(request.tags@, t)
                &&& record.ensures((request.candidate_id, tags), recorded)
                &&& match recorded {
                    Err(e) => r == Err::<DecisionResult, ReviewError>(e),
                    Ok(_) => r matches Ok(d) && d.decision@ == "skipped"@ && d.destination_path is None
                        && d.message@ == "Item skipped. The original file was not changed."@,
                }
            },
{
    match catalogue_session(session) {
        Err(e) => {
            return Err(ReviewError::from(e));
        },
        Ok(_) => {},
    }
    let tags = normalize_tags(&request.tags);
    let recorded = record(request.candidate_id, tags);
    match recorded {
        Err(e) => Err(e),
        Ok(()) => Ok(skipped_result()),
    }
}

/// An import may touch the catalogue and the library: its date is valid and the library is
/// unlocked.
pub open spec fn import_allowed(session: &LibrarySession, request: ImportRequest) -> bool {
    canonical_date_spec(request.effective_import_date@) is Some && session.current is Some
}

/// Imports a pending candidate on the chosen date: a copy is published in the library and the
/// decision `"imported"` is recorded with the normalized tags, the copy and the date.
///
/// `pending` gives the source folder and relative path of a pending candidate; `readable`
/// checks that the source can be read; `original_date` reads its effective date; `publish`
/// publishes the copy (see `publish_copy`) in the library under the date; `record` records
/// the decision. When the decision cannot be recorded after the copy was published, the error
/// names the copy.
pub fn import_review_item(
    session: &LibrarySession,
    request: ImportRequest,
    pending: impl FnOnce(i64) -> Result<(String, String), ReviewError>,
    readable: impl FnOnce(&String) -> Result<(), String>,
    original_date: impl FnOnce(&String) -> Option<(String, String)>,
    publish: impl FnOnce(&String, &String, &String) -> Result<String, ReviewError>,
    record: impl FnOnce(i64, Vec<String>, &String, &String, Option<(String, String)>) -> Result<(), ReviewError>,
) -> (r: Result<DecisionResult, ReviewError>)
    requires
        forall|id: i64| import_allowed(session, request) ==> pending.requires((id,)),
        forall|p: &String| import_allowed(session, request) ==> readable.requires((p,)),
        forall|p: &String| import_allowed(session, request) ==> original_date.requires((p,)),
        forall|s: &String, l: &String, d: &String|
            import_allowed(session, request) && readable.ensures((s,), Ok::<(), String>(()))
                ==> #[trigger] publish.requires((s, l, d)),
        forall|id: i64, tags: Vec<String>, dest: &String, date: &String, o: Option<(String, String)>|
            import_allowed(session, request) && (exists|s: &String, l: &String, d: &String|
                #[trigger] publish.ensures((s, l, d), Ok::<String, ReviewError>(*dest)))
                ==> #[trigger] record.requires((id, tags, dest, date, o)),
    ensures
        canonical_date_spec(request.effective_import_date@) is None ==> review_fails_with(
            r,
            "invalid_import_date"@,
            "Use a valid import date in YYYY-MM-DD format."@,
        ),
        canonical_date_spec(request.effective_import_date@) is Some && session.current is None
            ==> locked_review_error(r),
        canonical_date_spec(request.effective_import_date@) is Some && session.current is Some
            ==> exists|found: Result<(String, String), ReviewError>|
            #![trigger pending.ensures((request.candidate_id,), found)]
            {
                &&& pending.ensures((request.candidate_id,), found)
                &&& found matches Err(e) ==> r == Err::<DecisionResult, ReviewError>(e)
                &&& found matches Ok((source_dir, relative)) ==> exists|
                    source: String,
                    check: Result<(), String>,
                |
                    #![trigger readable.ensures((&source,), check)]
                    {
                        &&& source@ == std_join(source_dir@, relative@)
                        &&& readable.ensures((&source,), check)
                        &&& check matches Err(m) ==> review_fails_with(r, "candidate_unavailable"@, m@)
                        &&& check is Ok ==> exists|
                            original: Option<(String, String)>,
                            d: String,
                            copy: Result<String, ReviewError>,
                        |
                            #![trigger original_date.ensures((&source,), original), publish.ensures((&source, &session.current->0.library_path, &d), copy)]
                            {
                                &&& d@ == canonical_date_spec(request.effective_import_date@)->0
                                &&& original_date.ensures((&source,), original)
                                &&& publish.ensures(
                                    (&source, &session.current->0.library_path, &d),
                                    copy,
                                )
                                &&& copy matches Err(e) ==> r == Err::<DecisionResult, ReviewError>(e)
                                &&& copy matches Ok(dest) ==> exists|
                                    tags: Vec<String>,
                                    recorded: Result<(), ReviewError>,
                                |
                                    #![trigger record.ensures((request.candidate_id, tags, &dest, &d, original), recorded)]
                                    {
                                        &&& strictly_sorted(string_views(tags@))
                                        &&& forall|t: Seq<char>| #[trigger] string_views(tags@).contains(t) <==> is_normalized_tag_of(request.tags@, t)
                                        &&& record.ensures((request.candidate_id, tags, &dest, &d, original), recorded)
                                        &&& match recorded {
                                            Err(e) => review_fails_with(
                                                r,
                                                "post_copy_catalogue_failure"@,
                                                "The file was copied to "@ + dest@
                                                    + " but its catalogue decision could not be saved. Do not import it again; reopen the library and recover this item. ("@
                                                    + e.message@ + ")"@,
                                            ),
                                            Ok(_) => r matches Ok(res) && res.decision@ == "imported"@
                                                && res.destination_path == Some(dest) && res.message@
                                                == "Imported a new copy. The original file was not changed."@,
                                        }
                                    }
                            }
                    }
            },
{
    let checked = validate_date(request.effective_import_date.as_str());
    let date = match checked {
        Ok(d) => d,
        Err(e) => {
            assert(canonical_date_spec(request.effective_import_date@) is None);
            return Err(e);
        },
    };
    let s = match catalogue_session(session) {
        Err(e) => {
            return Err(ReviewError::from(e));
        },
        Ok(s) => s,
    };
    let found = pending(request.candidate_id);
    let ghost found_g = found;
    let (source_dir, relative) = match found {
        Ok(f) => f,
        Err(e) => {
            assert(pending.ensures((request.candidate_id,), found_g));
            return Err(e);
        },
    };
    let source = join_path(source_dir.as_str(), relative.as_str());
    let check = readable(&source);
    let ghost check_g = check;
    match check {
        Ok(u) => {
            assert(check_g == Ok::<(), String>(u));
        },
        Err(m) => {
            return Err(ReviewError { code: "candidate_unavailable", message: m });
        },
    }
    let original = original_date(&source);
    let ghost original_g = original;
    let copy = publish(&source, &s.library_path, &date);
    let ghost copy_g = copy;
    assert(publish.ensures((&source, &session.current->0.library_path, &date), copy_g));
    let destination = match copy {
        Ok(d) => d,
        Err(e) => {
            return Err(e);
        },
    };
    let tags = normalize_tags(&request.tags);
    let ghost tags_g = tags;
    let recorded = record(request.candidate_id, tags, &destination, &date, original);
    let ghost recorded_g = recorded;
    assert(record.ensures((request.candidate_id, tags_g, &destination, &date, original_g), recorded_g));
    match recorded {
        Err(e) => Err(post_copy_failure(destination.as_str(), &e)),
        Ok(()) => Ok(imported_result(destination)),
    }
}

} // verus!
