//! Character-level text handling shared by the catalogue, review and search modules.
use vstd::prelude::*;

verus! {

/// Unicode `White_Space`, the property that `char::is_whitespace` tests.
pub open spec fn spec_is_whitespace(c: char) -> bool {
    ||| c == '\t'
    ||| c == '\n'
    ||| c == '\x0B'
    ||| c == '\x0C'
    ||| c == '\r'
    ||| c == ' '
    ||| c == '\u{85}'
    ||| c == '\u{A0}'
    ||| c == '\u{1680}'
    ||| ('\u{2000}' <= c && c <= '\u{200A}')
    ||| c == '\u{2028}'
    ||| c == '\u{2029}'
    ||| c == '\u{202F}'
    ||| c == '\u{205F}'
    ||| c == '\u{3000}'
}

/// Tests whether `c` is Unicode whitespace.
pub fn is_whitespace(c: char) -> (r: bool)
    ensures
        r == spec_is_whitespace(c),
{
    c == '\t' || c == '\n' || c == '\x0B' || c == '\x0C' || c == '\r' || c == ' ' || c == '\u{85}'
        || c == '\u{A0}' || c == '\u{1680}' || ('\u{2000}' <= c && c <= '\u{200A}') || c
        == '\u{2028}' || c == '\u{2029}' || c == '\u{202F}' || c == '\u{205F}' || c == '\u{3000}'
}

/// The characters of a string slice, in order.
#[verifier::external_body]
pub(crate) fn str_chars(s: &str) -> (r: Vec<char>)
    ensures
        r@ == s@,
{
    s.chars().collect()
}

/// A string made of the given characters, in order.
#[verifier::external_body]
pub(crate) fn string_from_chars(chars: &[char]) -> (r: String)
    ensures
        r@ == chars@,
{
    chars.iter().collect()
}

/// The sequence without its leading whitespace.
pub open spec fn trim_start(s: Seq<char>) -> Seq<char>
    decreases s.len(),
{
    if s.len() > 0 && spec_is_whitespace(s[0]) {
        trim_start(s.drop_first())
    } else {
        s
    }
}

/// The sequence without its trailing whitespace.
pub open spec fn trim_end(s: Seq<char>) -> Seq<char>
    decreases s.len(),
{
    if s.len() > 0 && spec_is_whitespace(s.last()) {
        trim_end(s.drop_last())
    } else {
        s
    }
}

/// The sequence without leading and trailing whitespace, as `str::trim` gives it.
pub open spec fn trim_spec(s: Seq<char>) -> Seq<char> {
    trim_end(trim_start(s))
}

/// Whatever `trim_start` leaves does not begin with whitespace.
proof fn lemma_trim_start_first(s: Seq<char>)
    ensures
        trim_start(s).len() > 0 ==> !spec_is_whitespace(trim_start(s)[0]),
    decreases s.len(),
{
    if s.len() > 0 && spec_is_whitespace(s[0]) {
        lemma_trim_start_first(s.drop_first());
    }
}

/// `trim_end` leaves a prefix of the text that does not end with whitespace.
proof fn lemma_trim_end_prefix(s: Seq<char>)
    ensures
        trim_end(s).len() <= s.len(),
        trim_end(s) =~= s.subrange(0, trim_end(s).len() as int),
        trim_end(s).len() > 0 ==> !spec_is_whitespace(trim_end(s).last()),
    decreases s.len(),
{
    if s.len() > 0 && spec_is_whitespace(s.last()) {
        lemma_trim_end_prefix(s.drop_last());
    }
}

/// Trimming a trimmed text leaves it as it is.
pub proof fn lemma_trim_idempotent(s: Seq<char>)
    ensures
        trim_spec(trim_spec(s)) == trim_spec(s),
{
    let u = trim_start(s);
    let t = trim_spec(s);
    lemma_trim_start_first(s);
    lemma_trim_end_prefix(u);
    if t.len() > 0 {
        assert(t[0] == u[0]);
        assert(trim_start(t) == t);
        assert(trim_end(t) == t);
    } else {
        assert(trim_start(t) == t);
        assert(trim_end(t) == t);
    }
}

proof fn lemma_trim_start_skip(s: Seq<char>, i: int)
    requires
        0 <= i <= s.len(),
        forall|k: int| 0 <= k < i ==> spec_is_whitespace(#[trigger] s[k]),
    ensures
        trim_start(s) == trim_start(s.subrange(i, s.len() as int)),
    decreases i,
{
    if i > 0 {
        assert(s.drop_first().subrange(i - 1, s.drop_first().len() as int) =~= s.subrange(
            i,
            s.len() as int,
        ));
        lemma_trim_start_skip(s.drop_first(), i - 1);
    } else {
        assert(s.subrange(0, s.len() as int) =~= s);
    }
}

proof fn lemma_trim_end_drop(s: Seq<char>, j: int)
    requires
        0 <= j <= s.len(),
        forall|k: int| j <= k < s.len() ==> spec_is_whitespace(#[trigger] s[k]),
    ensures
        trim_end(s) == trim_end(s.subrange(0, j)),
    decreases s.len() - j,
{
    if j < s.len() {
        assert(s.drop_last().subrange(0, j) =~= s.subrange(0, j));
        lemma_trim_end_drop(s.drop_last(), j);
    } else {
        assert(s.subrange(0, j) =~= s);
    }
}

/// Removes leading and trailing whitespace.
pub fn trim(s: &str) -> (r: String)
    ensures
        r@ == trim_spec(s@),
{
    let chars = str_chars(s);
    let n = chars.len();
    let mut i: usize = 0;
    while i < n && is_whitespace(chars[i])
        invariant
            n == chars@.len(),
            chars@ == s@,
            0 <= i <= n,
            forall|k: int| 0 <= k < i ==> spec_is_whitespace(#[trigger] chars@[k]),
        decreases n - i,
    {
        i = i + 1;
    }
    proof {
        lemma_trim_start_skip(s@, i as int);
    }
    let ghost rest = s@.subrange(i as int, n as int);
    assert(trim_start(rest) == rest);
    let mut j: usize = n;
    while j > i && is_whitespace(chars[j - 1])
        invariant
            n == chars@.len(),
            chars@ == s@,
            0 <= i <= j <= n,
            rest == s@.subrange(i as int, n as int),
            forall|k: int| j <= k < n ==> spec_is_whitespace(#[trigger] chars@[k]),
        decreases j - i,
    {
        j = j - 1;
    }
    proof {
        lemma_trim_end_drop(rest, (j - i) as int);
        assert(rest.subrange(0, (j - i) as int) =~= s@.subrange(i as int, j as int));
    }
    let slice = vstd::slice::slice_subrange(chars.as_slice(), i, j);
    string_from_chars(slice)
}

/// State of the whitespace-collapsing scan: the text so far, and whether a separator is owed
/// before the next word.
pub open spec fn collapse_state(s: Seq<char>) -> (Seq<char>, bool)
    decreases s.len(),
{
    if s.len() == 0 {
        (seq![], false)
    } else {
        let (out, pending) = collapse_state(s.drop_last());
        let c = s.last();
        if spec_is_whitespace(c) {
            (out, out.len() > 0)
        } else if pending {
            (out.push(' ').push(c), false)
        } else {
            (out.push(c), false)
        }
    }
}

/// The words of `s` joined by single spaces, as `split_whitespace` followed by `join(" ")` gives.
pub open spec fn collapse_whitespace_spec(s: Seq<char>) -> Seq<char> {
    collapse_state(s).0
}

/// Joins the whitespace-separated words of `s` with single spaces.
pub fn collapse_whitespace(s: &str) -> (r: String)
    ensures
        r@ == collapse_whitespace_spec(s@),
{
    let chars = str_chars(s);
    let mut out: Vec<char> = Vec::new();
    let mut pending = false;
    let mut i: usize = 0;
    while i < chars.len()
        invariant
            chars@ == s@,
            0 <= i <= chars@.len(),
            (out@, pending) == collapse_state(s@.take(i as int)),
        decreases chars@.len() - i,
    {
        let c = chars[i];
        proof {
            assert(s@.take(i + 1).drop_last() =~= s@.take(i as int));
        }
        if is_whitespace(c) {
            pending = out.len() > 0;
        } else if pending {
            out.push(' ');
            out.push(c);
            pending = false;
        } else {
            out.push(c);
        }
        i = i + 1;
    }
    proof {
        assert(s@.take(chars@.len() as int) =~= s@);
    }
    string_from_chars(out.as_slice())
}

/// What `str::to_lowercase` returns for the given characters.
pub uninterp spec fn unicode_lowercase(s: Seq<char>) -> Seq<char>;

/// The lowercase mapping of `s`, by `str::to_lowercase`; its result is a function of `s` alone.
#[verifier::external_body]
pub(crate) fn to_lowercase(s: &str) -> (r: String)
    ensures
        r@ == unicode_lowercase(s@),
{
    s.to_lowercase()
}

/// `c` with ASCII uppercase letters mapped to lowercase, as `char::to_ascii_lowercase` does.
pub open spec fn ascii_lower_char(c: char) -> char {
    if 'A' <= c && c <= 'Z' {
        ((c as u32) + 32) as char
    } else {
        c
    }
}

/// The ASCII lowercase mapping of a sequence, character by character.
pub open spec fn ascii_lowercase_spec(s: Seq<char>) -> Seq<char> {
    s.map_values(|c: char| ascii_lower_char(c))
}

/// Maps ASCII uppercase letters to lowercase and keeps every other character.
pub fn to_ascii_lowercase(s: &str) -> (r: String)
    ensures
        r@ == ascii_lowercase_spec(s@),
{
    let chars = str_chars(s);
    let mut out: Vec<char> = Vec::new();
    let mut i: usize = 0;
    while i < chars.len()
        invariant
            chars@ == s@,
            0 <= i <= chars@.len(),
            out@ == ascii_lowercase_spec(s@.take(i as int)),
        decreases chars@.len() - i,
    {
        let c = chars[i];
        let lower = if 'A' <= c && c <= 'Z' {
            char_from_u32((c as u32) + 32)
        } else {
            c
        };
        out.push(lower);
        proof {
            assert(ascii_lowercase_spec(s@.take(i + 1)) =~= ascii_lowercase_spec(
                s@.take(i as int),
            ).push(ascii_lower_char(c)));
        }
        i = i + 1;
    }
    proof {
        assert(s@.take(chars@.len() as int) =~= s@);
    }
    string_from_chars(out.as_slice())
}

/// The character with code `v`, where `v` is an ASCII lowercase letter's code.
fn char_from_u32(v: u32) -> (c: char)
    requires
        97 <= v <= 122,
    ensures
        c == v as char,
{
    let b: u8 = v as u8;
    b as char
}


/// Whether `s` holds only whitespace, so that `str::trim` leaves nothing.
pub fn is_blank(s: &str) -> (r: bool)
    ensures
        r == (trim_spec(s@).len() == 0),
{
    let t = trim(s);
    t.as_str().unicode_len() == 0
}

/// The texts joined with `sep` between neighbours, as `join` on a slice of strings gives.
pub open spec fn join_spec(items: Seq<Seq<char>>, sep: Seq<char>) -> Seq<char>
    decreases items.len(),
{
    if items.len() == 0 {
        seq![]
    } else if items.len() == 1 {
        items[0]
    } else {
        join_spec(items.drop_last(), sep) + sep + items.last()
    }
}

/// The views of a list of strings.
pub open spec fn string_views(items: Seq<String>) -> Seq<Seq<char>> {
    items.map_values(|s: String| s@)
}

/// Joins the strings with `sep` between neighbours.
pub fn join(items: &Vec<String>, sep: &str) -> (r: String)
    ensures
        r@ == join_spec(string_views(items@), sep@),
{
    let mut out = String::new();
    let mut i: usize = 0;
    while i < items.len()
        invariant
            0 <= i <= items@.len(),
            out@ == join_spec(string_views(items@.take(i as int)), sep@),
        decreases items@.len() - i,
    {
        proof {
            assert(string_views(items@.take(i + 1)).drop_last() =~= string_views(
                items@.take(i as int),
            ));
            assert(string_views(items@.take(i + 1)).last() == items@[i as int]@);
        }
        if i > 0 {
            out.append(sep);
        } else {
            assert(string_views(items@.take(1)) =~= seq![items@[0]@]);
        }
        out.append(items[i].as_str());
        i = i + 1;
    }
    proof {
        assert(items@.take(items@.len() as int) =~= items@);
    }
    out
}


/// The decimal digit for a value below ten.
pub open spec fn digit_char(d: int) -> char {
    (48 + d) as char
}

/// The decimal text of a natural number, without leading zeros.
pub open spec fn decimal_spec(n: nat) -> Seq<char>
    decreases n,
{
    if n < 10 {
        seq![digit_char(n as int)]
    } else {
        decimal_spec(n / 10).push(digit_char((n % 10) as int))
    }
}

/// The decimal text of `n`, padded on the left with zeros to at least `width` characters.
pub open spec fn zero_padded_spec(n: nat, width: nat) -> Seq<char> {
    let digits = decimal_spec(n);
    if digits.len() >= width {
        digits
    } else {
        Seq::new((width - digits.len()) as nat, |i: int| '0') + digits
    }
}

/// The decimal text of `n`, as `to_string` writes an unsigned integer.
pub fn decimal(n: u128) -> (r: String)
    ensures
        r@ == decimal_spec(n as nat),
{
    let mut digits: Vec<char> = Vec::new();
    let mut rest: u128 = n;
    loop
        invariant_except_break
            decimal_spec(n as nat) == decimal_spec(rest as nat) + digits@,
        ensures
            decimal_spec(n as nat) == digits@,
        decreases rest,
    {
        let d = rest % 10;
        let c = digit(d as u8);
        if rest < 10 {
            digits.insert(0, c);
            assert(decimal_spec(rest as nat) == seq![c]);
            assert(decimal_spec(n as nat) =~= digits@);
            break;
        }
        proof {
            assert(decimal_spec(rest as nat) == decimal_spec((rest / 10) as nat).push(c));
        }
        let ghost before = digits@;
        digits.insert(0, c);
        assert(decimal_spec(n as nat) =~= decimal_spec((rest / 10) as nat) + digits@);
        rest = rest / 10;
    }
    string_from_chars(digits.as_slice())
}

/// The decimal text of `n`, padded on the left with zeros to at least `width` characters.
pub fn zero_padded(n: u128, width: usize) -> (r: String)
    ensures
        r@ == zero_padded_spec(n as nat, width as nat),
{
    let digits = decimal(n);
    let len = digits.as_str().unicode_len();
    if len >= width {
        digits
    } else {
        let mut zeros: Vec<char> = Vec::new();
        let mut i: usize = 0;
        while i < width - len
            invariant
                len < width,
                i <= width - len,
                zeros@ == Seq::new(i as nat, |k: int| '0'),
            decreases width - len - i,
        {
            zeros.push('0');
            assert(zeros@ =~= Seq::new((i + 1) as nat, |k: int| '0'));
            i = i + 1;
        }
        let mut out = string_from_chars(zeros.as_slice());
        out.append(digits.as_str());
        out
    }
}

/// The decimal digit character for a value below ten.
fn digit(d: u8) -> (c: char)
    requires
        d < 10,
    ensures
        c == digit_char(d as int),
{
    let b: u8 = 48 + d;
    b as char
}


/// Whether two texts are equal.
pub fn same_text(a: &str, b: &str) -> (r: bool)
    ensures
        r == (a@ == b@),
{
    let x = str_chars(a);
    let y = str_chars(b);
    if x.len() != y.len() {
        return false;
    }
    let mut i: usize = 0;
    while i < x.len()
        invariant
            x@ == a@,
            y@ == b@,
            x@.len() == y@.len(),
            0 <= i <= x@.len(),
            forall|k: int| 0 <= k < i ==> x@[k] == y@[k],
        decreases x@.len() - i,
    {
        if x[i] != y[i] {
            return false;
        }
        i = i + 1;
    }
    assert(a@ =~= b@);
    true
}

/// Lexicographic order of texts by code point, the order of `str`'s `Ord`.
pub open spec fn text_less(a: Seq<char>, b: Seq<char>) -> bool
    decreases a.len(),
{
    if b.len() == 0 {
        false
    } else if a.len() == 0 {
        true
    } else if a[0] != b[0] {
        a[0] < b[0]
    } else {
        text_less(a.drop_first(), b.drop_first())
    }
}

/// No text is below itself.
pub proof fn lemma_text_less_irreflexive(a: Seq<char>)
    ensures
        !text_less(a, a),
    decreases a.len(),
{
    if a.len() > 0 {
        lemma_text_less_irreflexive(a.drop_first());
    }
}

/// The order is transitive.
pub proof fn lemma_text_less_transitive(a: Seq<char>, b: Seq<char>, c: Seq<char>)
    requires
        text_less(a, b),
        text_less(b, c),
    ensures
        text_less(a, c),
    decreases a.len(),
{
    if a.len() > 0 && b.len() > 0 && c.len() > 0 && a[0] == b[0] && b[0] == c[0] {
        lemma_text_less_transitive(a.drop_first(), b.drop_first(), c.drop_first());
    }
}

/// Of two different texts, one is below the other.
pub proof fn lemma_text_less_total(a: Seq<char>, b: Seq<char>)
    requires
        a != b,
    ensures
        text_less(a, b) || text_less(b, a),
    decreases a.len(),
{
    if a.len() > 0 && b.len() > 0 {
        if a[0] == b[0] {
            if a.drop_first() == b.drop_first() {
                assert(a =~= seq![a[0]] + a.drop_first());
                assert(b =~= seq![b[0]] + b.drop_first());
            }
            lemma_text_less_total(a.drop_first(), b.drop_first());
        }
    } else if a.len() == 0 && b.len() == 0 {
        assert(a =~= b);
    }
}

/// Whether `a` sorts before `b`.
pub fn is_text_less(a: &str, b: &str) -> (r: bool)
    ensures
        r == text_less(a@, b@),
{
    let x = str_chars(a);
    let y = str_chars(b);
    let mut i: usize = 0;
    assert(a@.skip(0) =~= a@ && b@.skip(0) =~= b@);
    while i < x.len() && i < y.len() && x[i] == y[i]
        invariant
            x@ == a@,
            y@ == b@,
            0 <= i <= x@.len(),
            i <= y@.len(),
            text_less(a@, b@) == text_less(a@.skip(i as int), b@.skip(i as int)),
        decreases x@.len() - i,
    {
        proof {
            assert(a@.skip(i as int).drop_first() =~= a@.skip(i + 1));
            assert(b@.skip(i as int).drop_first() =~= b@.skip(i + 1));
        }
        i = i + 1;
    }
    if i == y.len() {
        false
    } else if i == x.len() {
        true
    } else {
        x[i] < y[i]
    }
}

/// Sorted in non-decreasing text order.
pub open spec fn texts_sorted(s: Seq<Seq<char>>) -> bool {
    forall|i: int, j: int| 0 <= i < j < s.len() ==> !text_less(#[trigger] s[j], #[trigger] s[i])
}

/// Items that carry a text by which they are sorted.
pub trait TextKeyed: Sized {
    /// The sort key.
    spec fn key(&self) -> Seq<char>;

    /// The sort key, as a string slice.
    fn key_text(&self) -> (r: &str)
        ensures
            r@ == self.key(),
    ;
}

impl TextKeyed for String {
    open spec fn key(&self) -> Seq<char> {
        self@
    }

    fn key_text(&self) -> (r: &str) {
        self.as_str()
    }
}

/// The sort keys of a sequence of items.
pub open spec fn keys_of<T: TextKeyed>(s: Seq<T>) -> Seq<Seq<char>> {
    s.map_values(|t: T| t.key())
}

proof fn lemma_insert_multiset<T>(s: Seq<T>, p: int, x: T)
    requires
        0 <= p <= s.len(),
    ensures
        s.insert(p, x).to_multiset() == s.to_multiset().insert(x),
{
    broadcast use vstd::seq_lib::group_to_multiset_ensures;

    let left = s.take(p);
    let right = s.skip(p);
    assert(s =~= left + right);
    assert(s.insert(p, x) =~= left.push(x) + right);
    vstd::seq_lib::lemma_multiset_commutative(left, right);
    vstd::seq_lib::lemma_multiset_commutative(left.push(x), right);
}

/// The items in non-decreasing order of their keys; items with equal keys keep their order.
pub fn sort_by_text<T: TextKeyed>(items: Vec<T>) -> (r: Vec<T>)
    ensures
        texts_sorted(keys_of(r@)),
        r@.to_multiset() == items@.to_multiset(),
{
    let ghost input = items@;
    let mut sorted: Vec<T> = Vec::new();
    let mut rest = items;
    proof {
        broadcast use vstd::seq_lib::group_to_multiset_ensures;

        assert(input.skip(input.len() as int) =~= Seq::<T>::empty());
        assert(sorted@ =~= Seq::<T>::empty());
        assert(rest@ =~= input.take(input.len() as int));
    }
    let mut consumed: usize = 0;
    let n = rest.len();
    // Take the items from the back, keeping what has been taken sorted.
    while rest.len() > 0
        invariant
            rest@ == input.take(input.len() - consumed),
            consumed <= input.len(),
            n == input.len(),
            texts_sorted(keys_of(sorted@)),
            sorted@.to_multiset() == input.skip(input.len() - consumed).to_multiset(),
        decreases rest@.len(),
    {
        let x = rest.pop().unwrap();
        let ghost start = input.len() - consumed - 1;
        assert(x == input[start]);
        let mut p: usize = 0;
        while p < sorted.len() && !is_text_less(x.key_text(), sorted[p].key_text())
            invariant
                0 <= p <= sorted@.len(),
                forall|k: int| 0 <= k < p ==> !text_less(x.key(), #[trigger] sorted@[k].key()),
            decreases sorted@.len() - p,
        {
            p = p + 1;
        }
        let ghost before = sorted@;
        proof {
            lemma_insert_multiset(before, p as int, x);
            assert(input.skip(start) =~= seq![x] + input.skip(start + 1));
            broadcast use vstd::seq_lib::group_to_multiset_ensures;
            vstd::seq_lib::lemma_multiset_commutative(seq![x], input.skip(start + 1));
        }
        sorted.insert(p, x);
        proof {
            let after = sorted@;
            assert forall|i: int, j: int| 0 <= i < j < after.len() implies !text_less(
                #[trigger] keys_of(after)[j],
                #[trigger] keys_of(after)[i],
            ) by {
                if i < p && j == p {
                } else if i == p && j > p {
                    let q = j - 1;
                    if text_less(before[q].key(), x.key()) {
                        if q == p {
                            lemma_text_less_irreflexive(x.key());
                            assert(text_less(x.key(), before[p as int].key()));
                            lemma_text_less_transitive(x.key(), before[p as int].key(), x.key());
                        } else {
                            assert(text_less(x.key(), before[p as int].key()));
                            lemma_text_less_transitive(before[q].key(), x.key(), before[p as int].key());
                            assert(keys_of(before)[q] == before[q].key());
                            assert(keys_of(before)[p as int] == before[p as int].key());
                        }
                    }
                } else if i < p && j < p {
                    assert(keys_of(before)[i] == before[i].key());
                    assert(keys_of(before)[j] == before[j].key());
                } else if i < p && j > p {
                    assert(keys_of(before)[i] == before[i].key());
                    assert(keys_of(before)[j - 1] == before[j - 1].key());
                } else {
                    assert(keys_of(before)[i - 1] == before[i - 1].key());
                    assert(keys_of(before)[j - 1] == before[j - 1].key());
                }
            }
            assert(input.take(input.len() - consumed - 1) =~= rest@);
        }
        consumed = consumed + 1;
    }
    proof {
        assert(input.skip(0) =~= input);
    }
    sorted
}

} // verus!
