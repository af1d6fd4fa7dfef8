//! Text handling shared by the request grammar, the log decoder and the
//! source adapters: case folding, trimming and splitting on a separator.
//!
//! Contracts speak of texts as `Seq<char>`, the view of `str` and `String`.
use vstd::prelude::*;

verus! {

/// Whether `c` has the Unicode `White_Space` property, as `char::is_whitespace`
/// decides it.
pub uninterp spec fn unicode_white_space(c: char) -> bool;

/// The upper-case form of a text under the Unicode case mapping, as
/// `str::to_uppercase` computes it.
pub uninterp spec fn unicode_upper(s: Seq<char>) -> Seq<char>;

/// The lower-case form of a text under the Unicode case mapping, as
/// `str::to_lowercase` computes it.
pub uninterp spec fn unicode_lower(s: Seq<char>) -> Seq<char>;

/// `c` with the ASCII letters `a`..`z` mapped to `A`..`Z`, every other
/// character unchanged.
pub open spec fn ascii_upper_char(c: char) -> char {
    if 'a' <= c && c <= 'z' {
        ((c as u8 - 32) as u8) as char
    } else {
        c
    }
}

/// A text with each character mapped by [`ascii_upper_char`].
pub open spec fn ascii_upper(s: Seq<char>) -> Seq<char> {
    Seq::new(s.len(), |i: int| ascii_upper_char(s[i]))
}

/// A text without its leading white space.
pub open spec fn trim_start_of(s: Seq<char>) -> Seq<char>
    decreases s.len(),
{
    if s.len() > 0 && unicode_white_space(s[0]) {
        trim_start_of(s.skip(1))
    } else {
        s
    }
}

/// A text without its trailing white space.
pub open spec fn trim_end_of(s: Seq<char>) -> Seq<char>
    decreases s.len(),
{
    if s.len() > 0 && unicode_white_space(s.last()) {
        trim_end_of(s.drop_last())
    } else {
        s
    }
}

/// A text without leading and trailing white space.
pub open spec fn trimmed(s: Seq<char>) -> Seq<char> {
    trim_end_of(trim_start_of(s))
}

/// The position of the first `sep` in `s`, or `s.len()` where there is none.
pub open spec fn index_of(s: Seq<char>, sep: char) -> int
    decreases s.len(),
{
    if s.len() == 0 {
        0
    } else if s[0] == sep {
        0
    } else {
        1 + index_of(s.skip(1), sep)
    }
}

/// How often `sep` occurs in `s`.
pub open spec fn count_of(s: Seq<char>, sep: char) -> nat
    decreases s.len(),
{
    if s.len() == 0 {
        0
    } else if s[0] == sep {
        1 + count_of(s.skip(1), sep)
    } else {
        count_of(s.skip(1), sep)
    }
}

/// The pieces of `s` between occurrences of `sep`, in order. A text without
/// `sep` is its own single piece, so the result is never empty.
pub open spec fn split_on(s: Seq<char>, sep: char) -> Seq<Seq<char>>
    decreases s.len(),
{
    let i = index_of(s, sep);
    if 0 <= i < s.len() {
        seq![s.take(i)] + split_on(s.skip(i + 1), sep)
    } else {
        seq![s]
    }
}

/// The views of a vector of strings.
pub open spec fn views(v: Seq<String>) -> Seq<Seq<char>> {
    Seq::new(v.len(), |i: int| v[i]@)
}

/// `index_of` is a position in `s` or its length, nothing before it is `sep`,
/// and where it lies inside `s` it holds `sep`.
pub proof fn lemma_index_of(s: Seq<char>, sep: char)
    ensures
        0 <= index_of(s, sep) <= s.len(),
        forall|k: int| 0 <= k < index_of(s, sep) ==> s[k] != sep,
        index_of(s, sep) < s.len() ==> s[index_of(s, sep)] == sep,
    decreases s.len(),
{
    if s.len() > 0 && s[0] != sep {
        let rest = s.skip(1);
        lemma_index_of(rest, sep);
        assert forall|k: int| 0 <= k < index_of(s, sep) implies s[k] != sep by {
            if k > 0 {
                assert(rest[k - 1] == s[k]);
            }
        }
        if index_of(s, sep) < s.len() {
            assert(rest[index_of(rest, sep)] == s[index_of(s, sep)]);
        }
    }
}

/// A position `j` that holds the first `sep` of `s` is `index_of(s, sep)`; a
/// text without `sep` has `index_of` at its length.
pub proof fn lemma_index_of_is(s: Seq<char>, sep: char, j: int)
    requires
        0 <= j <= s.len(),
        forall|k: int| 0 <= k < j ==> s[k] != sep,
        j < s.len() ==> s[j] == sep,
    ensures
        index_of(s, sep) == j,
{
    lemma_index_of(s, sep);
    let i = index_of(s, sep);
    if i < j {
        assert(s[i] == sep);
    } else if j < i {
        assert(s[j] == sep);
    }
}

/// A text has one piece more than it has separators.
pub proof fn lemma_split_len(s: Seq<char>, sep: char)
    ensures
        split_on(s, sep).len() == count_of(s, sep) + 1,
    decreases s.len(),
{
    lemma_index_of(s, sep);
    let i = index_of(s, sep);
    lemma_count_prefix(s, sep, i);
    if i < s.len() {
        lemma_split_len(s.skip(i + 1), sep);
    }
}

/// Skipping `i` characters that are not `sep` leaves the count; where
/// position `i` then holds `sep`, skipping it too lowers the count by one.
pub proof fn lemma_count_prefix(s: Seq<char>, sep: char, i: int)
    requires
        0 <= i <= s.len(),
        forall|k: int| 0 <= k < i ==> s[k] != sep,
    ensures
        count_of(s, sep) == count_of(s.skip(i), sep),
        i < s.len() && s[i] == sep ==> count_of(s, sep) == count_of(s.skip(i + 1), sep) + 1,
    decreases i,
{
    if i > 0 {
        let rest = s.skip(1);
        assert forall|k: int| 0 <= k < i - 1 implies rest[k] != sep by {
            assert(rest[k] == s[k + 1]);
        }
        lemma_count_prefix(rest, sep, i - 1);
        assert(rest.skip(i - 1) =~= s.skip(i));
        if i < s.len() {
            assert(rest[i - 1] == s[i]);
            assert(rest.skip(i) =~= s.skip(i + 1));
        }
    } else {
        assert(s.skip(0) =~= s);
        if i < s.len() && s[i] == sep {
            assert(s.skip(i + 1) =~= s.skip(1));
        }
    }
}

/// A text without `sep` is one piece; a text with `sep` is cut at the first.
pub proof fn lemma_split_first(s: Seq<char>, sep: char)
    ensures
        count_of(s, sep) == 0 ==> index_of(s, sep) == s.len() && split_on(s, sep) == seq![s],
        count_of(s, sep) > 0 ==> 0 <= index_of(s, sep) < s.len() && split_on(s, sep) == seq![
            s.take(index_of(s, sep)),
        ] + split_on(s.skip(index_of(s, sep) + 1), sep) && count_of(
            s.skip(index_of(s, sep) + 1),
            sep,
        ) == count_of(s, sep) - 1,
{
    lemma_index_of(s, sep);
    lemma_count_prefix(s, sep, index_of(s, sep));
    if index_of(s, sep) == s.len() {
        assert(s.skip(s.len() as int) =~= Seq::<char>::empty());
    }
}

/// The text that `{:?}` formatting gives for a text: quoted, with the
/// characters that `char::escape_debug` escapes written as escapes.
pub uninterp spec fn debug_form(s: Seq<char>) -> Seq<char>;

/// Whether `needle` stands in `hay` at position `i`.
pub open spec fn occurs_at(hay: Seq<char>, needle: Seq<char>, i: int) -> bool {
    0 <= i && i + needle.len() <= hay.len() && hay.subrange(i, i + needle.len()) == needle
}

/// Whether `needle` stands somewhere in `hay`.
pub open spec fn occurs(hay: Seq<char>, needle: Seq<char>) -> bool {
    exists|i: int| occurs_at(hay, needle, i)
}

/// The decimal digit of a value below 10.
pub open spec fn digit_char(n: nat) -> char {
    ((48 + n) as u8) as char
}

/// The decimal text of a number, without sign or leading zeros.
pub open spec fn decimal(n: nat) -> Seq<char>
    decreases n,
{
    if n < 10 {
        seq![digit_char(n)]
    } else {
        decimal(n / 10).push(digit_char(n % 10))
    }
}

/// The text in upper case under the Unicode case mapping. Wraps
/// `str::to_uppercase`; the contract names its result and claims no more.
#[verifier::external_body]
pub(crate) fn to_uppercase(s: &str) -> (r: String)
    ensures
        r@ == unicode_upper(s@),
{
    s.to_uppercase()
}

/// The text in lower case under the Unicode case mapping. Wraps
/// `str::to_lowercase`; the contract names its result and claims no more.
#[verifier::external_body]
pub(crate) fn to_lowercase(s: &str) -> (r: String)
    ensures
        r@ == unicode_lower(s@),
{
    s.to_lowercase()
}

/// The text with its ASCII letters in upper case. Wraps
/// `str::to_ascii_uppercase`, which maps `a`..`z` to `A`..`Z` and leaves every
/// other character as it is.
#[verifier::external_body]
pub(crate) fn to_ascii_uppercase(s: &str) -> (r: String)
    ensures
        r@ == ascii_upper(s@),
{
    s.to_ascii_uppercase()
}

/// The text without leading and trailing white space. Wraps `str::trim`,
/// which removes the longest prefix and suffix of `White_Space` characters.
#[verifier::external_body]
pub(crate) fn trim(s: &str) -> (r: &str)
    ensures
        r@ == trimmed(s@),
        r@.len() > 0 ==> !unicode_white_space(r@[0]) && !unicode_white_space(r@.last()),
{
    s.trim()
}

/// The text as `{:?}` formats it. Wraps the `Debug` formatting of `str`; the
/// contract names its result and claims no more.
#[verifier::external_body]
pub(crate) fn debug_text(s: &str) -> (r: String)
    ensures
        r@ == debug_form(s@),
{
    format!("{s:?}")
}

/// The text that the bytes encode, where they are UTF-8. Wraps
/// `String::from_utf8`, which returns the decoded text exactly when the bytes
/// are valid UTF-8.
#[verifier::external_body]
pub(crate) fn text_of_bytes(bytes: Vec<u8>) -> (r: Option<String>)
    ensures
        r is Some <==> vstd::utf8::valid_utf8(bytes@),
        r is Some ==> r->Some_0@ == vstd::utf8::decode_utf8(bytes@),
{
    String::from_utf8(bytes).ok()
}

/// The decimal text of a number. Wraps `u64::to_string`, which writes the
/// digits in base ten without sign or leading zeros.
#[verifier::external_body]
pub(crate) fn decimal_text(n: u64) -> (r: String)
    ensures
        r@ == decimal(n as nat),
{
    n.to_string()
}

/// The characters of a text, in order.
pub fn chars_of(s: &str) -> (v: Vec<char>)
    ensures
        v@ == s@,
{
    let n = s.unicode_len();
    let mut v: Vec<char> = Vec::new();
    let mut i: usize = 0;
    while i < n
        invariant
            n == s@.len(),
            i <= n,
            v@ == s@.take(i as int),
        decreases n - i,
    {
        let c = s.get_char(i);
        v.push(c);
        i = i + 1;
        assert(v@ =~= s@.take(i as int));
    }
    assert(s@.take(n as int) =~= s@);
    v
}

/// The pieces of `s` between occurrences of `sep`, as owned strings.
pub fn split(s: &str, sep: char) -> (pieces: Vec<String>)
    ensures
        views(pieces@) == split_on(s@, sep),
        pieces@.len() == count_of(s@, sep) + 1,
{
    let chars = chars_of(s);
    let n = chars.len();
    let mut pieces: Vec<String> = Vec::new();
    let mut start: usize = 0;
    let mut i: usize = 0;
    proof {
        assert(s@.skip(0) =~= s@);
        assert(views(pieces@) + split_on(s@, sep) =~= split_on(s@, sep));
    }
    while i < n
        invariant
            n == s@.len(),
            chars@ == s@,
            start <= i <= n,
            forall|k: int| start <= k < i ==> s@[k] != sep,
            views(pieces@) + split_on(s@.skip(start as int), sep) == split_on(s@, sep),
        decreases n - i,
    {
        if chars[i] == sep {
            let piece = s.substring_char(start, i).to_owned();
            proof {
                let rest = s@.skip(start as int);
                assert forall|k: int| 0 <= k < i - start implies rest[k] != sep by {
                    assert(rest[k] == s@[start + k]);
                }
                lemma_index_of_is(rest, sep, i - start);
                assert(rest.take(i - start) =~= s@.subrange(start as int, i as int));
                assert(rest.skip(i - start + 1) =~= s@.skip(i + 1));
                assert(views(pieces@.push(piece)) =~= views(pieces@) + seq![piece@]);
            }
            pieces.push(piece);
            start = i + 1;
        }
        i = i + 1;
    }
    let last = s.substring_char(start, n).to_owned();
    proof {
        let rest = s@.skip(start as int);
        assert forall|k: int| 0 <= k < n - start implies rest[k] != sep by {
            assert(rest[k] == s@[start + k]);
        }
        lemma_index_of_is(rest, sep, n - start);
        assert(rest =~= s@.subrange(start as int, n as int));
        assert(views(pieces@.push(last)) =~= views(pieces@) + seq![last@]);
        lemma_split_len(s@, sep);
    }
    pieces.push(last);
    pieces
}

/// Whether `needle` stands in `hay` at position `i`.
pub fn matches_at(hay: &Vec<char>, needle: &Vec<char>, i: usize) -> (b: bool)
    ensures
        b == occurs_at(hay@, needle@, i as int),
{
    if i > hay.len() || needle.len() > hay.len() - i {
        return false;
    }
    let mut k: usize = 0;
    while k < needle.len()
        invariant
            k <= needle.len(),
            i + needle.len() <= hay.len(),
            forall|j: int| 0 <= j < k ==> hay@[i + j] == needle@[j],
        decreases needle.len() - k,
    {
        if hay[i + k] != needle[k] {
            assert(hay@.subrange(i as int, i + needle.len())[k as int] == hay@[i + k]);
            return false;
        }
        k = k + 1;
    }
    assert(hay@.subrange(i as int, i + needle.len()) =~= needle@);
    true
}

/// The first position at or after `from` where `needle` stands in `hay`.
pub fn find_text(hay: &Vec<char>, needle: &Vec<char>, from: usize) -> (r: Option<usize>)
    ensures
        match r {
            Some(i) => from <= i && occurs_at(hay@, needle@, i as int) && forall|j: int|
                from <= j < i ==> !occurs_at(hay@, needle@, j),
            None => forall|j: int| from <= j ==> !occurs_at(hay@, needle@, j),
        },
{
    if from > hay.len() {
        return None;
    }
    let mut i: usize = from;
    while i < hay.len()
        invariant
            from <= i <= hay.len(),
            forall|j: int| from <= j < i ==> !occurs_at(hay@, needle@, j),
        decreases hay.len() - i,
    {
        if matches_at(hay, needle, i) {
            return Some(i);
        }
        i = i + 1;
    }
    if matches_at(hay, needle, i) {
        Some(i)
    } else {
        None
    }
}

/// Whether `needle` stands somewhere in `hay`.
pub fn contains_text(hay: &Vec<char>, needle: &Vec<char>) -> (b: bool)
    ensures
        b == occurs(hay@, needle@),
{
    match find_text(hay, needle, 0) {
        Some(i) => {
            assert(occurs_at(hay@, needle@, i as int));
            true
        },
        None => false,
    }
}

} // verus!
