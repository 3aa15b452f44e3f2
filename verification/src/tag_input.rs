//! The tag editor of the review and search screens: tags typed as space-delimited words,
//! chips that are added, toggled and removed, and the texts shown for missing metadata.
use vstd::prelude::*;
use crate::text::{
    decimal, decimal_spec, is_whitespace, same_text, sort_by_text, spec_is_whitespace,
    str_chars, string_from_chars, string_views, keys_of, texts_sorted, to_lowercase,
    unicode_lowercase,
};

verus! {

/// The scan of a typed text into words: the words already ended by whitespace, and the word
/// still being typed.
pub open spec fn word_scan(s: Seq<char>) -> (Seq<Seq<char>>, Seq<char>)
    decreases s.len(),
{
    if s.len() == 0 {
        (seq![], seq![])
    } else {
        let (done, current) = word_scan(s.drop_last());
        let c = s.last();
        if spec_is_whitespace(c) {
            if current.len() > 0 {
                (done.push(current), seq![])
            } else {
                (done, seq![])
            }
        } else {
            (done, current.push(c))
        }
    }
}

/// Adds the lowercase form of each word to the tags, in order, unless it is empty or already
/// there.
pub open spec fn add_words(tags: Seq<Seq<char>>, words: Seq<Seq<char>>) -> Seq<Seq<char>>
    decreases words.len(),
{
    if words.len() == 0 {
        tags
    } else {
        let before = add_words(tags, words.drop_last());
        let w = unicode_lowercase(words.last());
        if w.len() == 0 || before.contains(w) {
            before
        } else {
            before.push(w)
        }
    }
}

/// Whether a list of tags holds a text.
fn holds(tags: &Vec<String>, tag: &str) -> (r: bool)
    ensures
        r == string_views(tags@).contains(tag@),
{
    let mut i: usize = 0;
    while i < tags.len()
        invariant
            0 <= i <= tags@.len(),
            forall|k: int| 0 <= k < i ==> tags@[k]@ != tag@,
        decreases tags@.len() - i,
    {
        if same_text(tags[i].as_str(), tag) {
            assert(string_views(tags@)[i as int] == tag@);
            return true;
        }
        i = i + 1;
    }
    proof {
        if string_views(tags@).contains(tag@) {
            let k = choose|k: int| 0 <= k < string_views(tags@).len() && string_views(tags@)[k] == tag@;
            assert(tags@[k]@ == tag@);
        }
    }
    false
}

/// Takes what was typed in the tag field: every word that whitespace has ended becomes a tag
/// (lowercased, once), and the word still being typed stays in the field.
pub fn commit_tag_draft(tags: Vec<String>, typed: &str) -> (r: (Vec<String>, String))
    ensures
        string_views(r.0@) == add_words(string_views(tags@), word_scan(typed@).0),
        r.1@ == word_scan(typed@).1,
{
    let chars = str_chars(typed);
    let mut words: Vec<String> = Vec::new();
    let mut current: Vec<char> = Vec::new();
    let mut i: usize = 0;
    while i < chars.len()
        invariant
            chars@ == typed@,
            0 <= i <= chars@.len(),
            string_views(words@) == word_scan(typed@.take(i as int)).0,
            current@ == word_scan(typed@.take(i as int)).1,
        decreases chars@.len() - i,
    {
        let c = chars[i];
        proof {
            assert(typed@.take(i + 1).drop_last() =~= typed@.take(i as int));
        }
        if is_whitespace(c) {
            if current.len() > 0 {
                let word = string_from_chars(current.as_slice());
                words.push(word);
                current = Vec::new();
                proof {
                    assert(string_views(words@) =~= word_scan(typed@.take(i as int)).0.push(word_scan(typed@.take(i as int)).1));
                }
            } else {
                current = Vec::new();
                assert(current@ =~= Seq::<char>::empty());
            }
        } else {
            current.push(c);
        }
        i = i + 1;
    }
    proof {
        assert(typed@.take(chars@.len() as int) =~= typed@);
    }
    let draft = string_from_chars(current.as_slice());
    let mut result = tags;
    let ghost start = string_views(result@);
    let mut k: usize = 0;
    while k < words.len()
        invariant
            0 <= k <= words@.len(),
            string_views(result@) == add_words(start, string_views(words@).take(k as int)),
        decreases words@.len() - k,
    {
        let lower = to_lowercase(words[k].as_str());
        proof {
            assert(string_views(words@).take(k + 1).drop_last() =~= string_views(words@).take(k as int));
            assert(string_views(words@).take(k + 1).last() == words@[k as int]@);
        }
        if lower.as_str().unicode_len() > 0 && !holds(&result, lower.as_str()) {
            let ghost before = string_views(result@);
            result.push(lower);
            assert(string_views(result@) =~= before.push(unicode_lowercase(words@[k as int]@)));
        }
        k = k + 1;
    }
    proof {
        assert(string_views(words@).take(words@.len() as int) =~= string_views(words@));
    }
    (result, draft)
}

/// The list without any occurrence of `tag`, in order.
pub open spec fn without(s: Seq<Seq<char>>, tag: Seq<char>) -> Seq<Seq<char>>
    decreases s.len(),
{
    if s.len() == 0 {
        seq![]
    } else if s.last() == tag {
        without(s.drop_last(), tag)
    } else {
        without(s.drop_last(), tag).push(s.last())
    }
}

/// The tags without `tag`.
pub fn remove_tag(tags: Vec<String>, tag: &str) -> (r: Vec<String>)
    ensures
        string_views(r@) == without(string_views(tags@), tag@),
{
    let mut kept: Vec<String> = Vec::new();
    let mut i: usize = 0;
    let ghost all = string_views(tags@);
    while i < tags.len()
        invariant
            0 <= i <= tags@.len(),
            all == string_views(tags@),
            string_views(kept@) == without(all.take(i as int), tag@),
        decreases tags@.len() - i,
    {
        proof {
            assert(all.take(i + 1).drop_last() =~= all.take(i as int));
            assert(all.take(i + 1).last() == tags@[i as int]@);
        }
        if !same_text(tags[i].as_str(), tag) {
            let ghost before = string_views(kept@);
            kept.push(tags[i].clone());
            assert(string_views(kept@) =~= before.push(tags@[i as int]@));
        }
        i = i + 1;
    }
    proof {
        assert(all.take(tags@.len() as int) =~= all);
    }
    kept
}


/// Selects a recent tag that is not selected, or deselects one that is.
pub fn toggle_tag(tags: Vec<String>, tag: String) -> (r: Vec<String>)
    ensures
        string_views(tags@).contains(tag@) ==> string_views(r@) == without(string_views(tags@), tag@),
        !string_views(tags@).contains(tag@) ==> string_views(r@) == string_views(tags@).push(tag@),
{
    if holds(&tags, tag.as_str()) {
        remove_tag(tags, tag.as_str())
    } else {
        let mut r = tags;
        let ghost before = string_views(r@);
        r.push(tag);
        assert(string_views(r@) =~= before.push(r@.last()@));
        r
    }
}

/// Adds a suggested tag unless it is selected, and keeps the selection in text order.
pub fn add_suggestion(tags: Vec<String>, suggestion: String) -> (r: Vec<String>)
    ensures
        string_views(tags@).contains(suggestion@) ==> r@ == tags@,
        !string_views(tags@).contains(suggestion@) ==> texts_sorted(keys_of(r@)) && r@.to_multiset()
            == tags@.push(suggestion).to_multiset(),
{
    if holds(&tags, suggestion.as_str()) {
        return tags;
    }
    let mut r = tags;
    r.push(suggestion);
    sort_by_text(r)
}

/// The text shown for a metadata value: the value, or that it is not available.
pub fn metadata_value(value: Option<String>) -> (r: String)
    ensures
        match value {
            Some(v) => r@ == v@,
            None => r@ == "Not available"@,
        },
{
    match value {
        Some(v) => v,
        None => String::from_str("Not available"),
    }
}

/// The text shown for a file size: the number of bytes, or that it is not available.
pub fn metadata_size(value: Option<u64>) -> (r: String)
    ensures
        match value {
            Some(bytes) => r@ == decimal_spec(bytes as nat) + " bytes"@,
            None => r@ == "Not available"@,
        },
{
    match value {
        Some(bytes) => {
            let mut text = decimal(bytes as u128);
            text.append(" bytes");
            text
        },
        None => String::from_str("Not available"),
    }
}

/// The text shown for picture dimensions: width × height, or that they are not available.
pub fn metadata_dimensions(width: Option<u32>, height: Option<u32>) -> (r: String)
    ensures
        match (width, height) {
            (Some(w), Some(h)) => r@ == decimal_spec(w as nat) + " × "@ + decimal_spec(h as nat),
            _ => r@ == "Not available"@,
        },
{
    match (width, height) {
        (Some(w), Some(h)) => {
            let mut text = decimal(w as u128);
            text.append(" × ");
            let second = decimal(h as u128);
            text.append(second.as_str());
            text
        },
        _ => String::from_str("Not available"),
    }
}

} // verus!
