//! Character classes and text operations on `Seq<char>`, with the executable
//! helpers that the rest of the runtime builds on.
use vstd::prelude::*;

verus! {

// ---------------------------------------------------------------------------
// Character classes
// ---------------------------------------------------------------------------

/// ASCII letter or digit (`char::is_ascii_alphanumeric`).
pub open spec fn is_ascii_alnum(c: char) -> bool {
    ('a' <= c && c <= 'z') || ('A' <= c && c <= 'Z') || ('0' <= c && c <= '9')
}

/// ASCII decimal digit (`char::is_ascii_digit`).
pub open spec fn is_ascii_digit(c: char) -> bool {
    '0' <= c && c <= '9'
}

/// ASCII hexadecimal digit, either case (`char::is_ascii_hexdigit`).
pub open spec fn is_ascii_hexdigit(c: char) -> bool {
    ('0' <= c && c <= '9') || ('a' <= c && c <= 'f') || ('A' <= c && c <= 'F')
}

/// Unicode `White_Space` property (`char::is_whitespace`).
pub open spec fn is_whitespace(c: char) -> bool {
    ('\u{9}' <= c && c <= '\u{d}') || c == ' ' || c == '\u{85}' || c == '\u{a0}'
        || c == '\u{1680}' || ('\u{2000}' <= c && c <= '\u{200a}') || c == '\u{2028}'
        || c == '\u{2029}' || c == '\u{202f}' || c == '\u{205f}' || c == '\u{3000}'
}

/// Unicode general category `Cc` (`char::is_control`).
pub open spec fn is_control(c: char) -> bool {
    c <= '\u{1f}' || ('\u{7f}' <= c && c <= '\u{9f}')
}

/// `char::to_ascii_lowercase`.
pub open spec fn ascii_lower(c: char) -> char {
    if 'A' <= c && c <= 'Z' {
        ((c as u32) + 32) as char
    } else {
        c
    }
}

/// `char::to_ascii_uppercase`.
pub open spec fn ascii_upper(c: char) -> char {
    if 'a' <= c && c <= 'z' {
        ((c as u32) - 32) as char
    } else {
        c
    }
}

/// `str::to_ascii_lowercase`.
pub open spec fn ascii_lowercase(s: Seq<char>) -> Seq<char> {
    s.map_values(|c: char| ascii_lower(c))
}

/// `str::to_ascii_uppercase`.
pub open spec fn ascii_uppercase(s: Seq<char>) -> Seq<char> {
    s.map_values(|c: char| ascii_upper(c))
}

/// Every character of `s` is an ASCII letter or digit.
pub open spec fn all_alnum(s: Seq<char>) -> bool {
    forall|i: int| 0 <= i < s.len() ==> is_ascii_alnum(#[trigger] s[i])
}

/// Every character of `s` is an ASCII digit.
pub open spec fn all_digits(s: Seq<char>) -> bool {
    forall|i: int| 0 <= i < s.len() ==> is_ascii_digit(#[trigger] s[i])
}

/// Every character of `s` is an ASCII hexadecimal digit.
pub open spec fn all_hexdigits(s: Seq<char>) -> bool {
    forall|i: int| 0 <= i < s.len() ==> is_ascii_hexdigit(#[trigger] s[i])
}

pub fn ascii_alnum(c: char) -> (b: bool)
    ensures
        b == is_ascii_alnum(c),
{
    ('a' <= c && c <= 'z') || ('A' <= c && c <= 'Z') || ('0' <= c && c <= '9')
}

pub fn ascii_digit(c: char) -> (b: bool)
    ensures
        b == is_ascii_digit(c),
{
    '0' <= c && c <= '9'
}

pub fn ascii_hexdigit(c: char) -> (b: bool)
    ensures
        b == is_ascii_hexdigit(c),
{
    ('0' <= c && c <= '9') || ('a' <= c && c <= 'f') || ('A' <= c && c <= 'F')
}

pub fn whitespace(c: char) -> (b: bool)
    ensures
        b == is_whitespace(c),
{
    ('\u{9}' <= c && c <= '\u{d}') || c == ' ' || c == '\u{85}' || c == '\u{a0}'
        || c == '\u{1680}' || ('\u{2000}' <= c && c <= '\u{200a}') || c == '\u{2028}'
        || c == '\u{2029}' || c == '\u{202f}' || c == '\u{205f}' || c == '\u{3000}'
}

pub fn control(c: char) -> (b: bool)
    ensures
        b == is_control(c),
{
    c <= '\u{1f}' || ('\u{7f}' <= c && c <= '\u{9f}')
}

pub fn to_ascii_lower(c: char) -> (r: char)
    ensures
        r == ascii_lower(c),
{
    if 'A' <= c && c <= 'Z' {
        let code: u32 = (c as u32) + 32;
        assert(0x61 <= code <= 0x7a);
        char_from_ascii(code)
    } else {
        c
    }
}

pub fn to_ascii_upper(c: char) -> (r: char)
    ensures
        r == ascii_upper(c),
{
    if 'a' <= c && c <= 'z' {
        let code: u32 = (c as u32) - 32;
        char_from_ascii(code)
    } else {
        c
    }
}

/// The character with ASCII code `code`.
fn char_from_ascii(code: u32) -> (c: char)
    requires
        code < 128,
    ensures
        c == code as char,
        c as u32 == code,
{
    let b: u8 = code as u8;
    b as char
}

/// All characters of `s` are ASCII letters or digits.
pub fn all_ascii_alnum(s: &Vec<char>) -> (b: bool)
    ensures
        b == all_alnum(s@),
{
    let mut i: usize = 0;
    while i < s.len()
        invariant
            i <= s.len(),
            forall|j: int| 0 <= j < i ==> is_ascii_alnum(#[trigger] s@[j]),
        decreases s.len() - i,
    {
        if !ascii_alnum(s[i]) {
            return false;
        }
        i += 1;
    }
    true
}

/// All characters of `s` are ASCII digits.
pub fn all_ascii_digits(s: &Vec<char>) -> (b: bool)
    ensures
        b == all_digits(s@),
{
    let mut i: usize = 0;
    while i < s.len()
        invariant
            i <= s.len(),
            forall|j: int| 0 <= j < i ==> is_ascii_digit(#[trigger] s@[j]),
        decreases s.len() - i,
    {
        if !ascii_digit(s[i]) {
            return false;
        }
        i += 1;
    }
    true
}

/// All characters of `s` are ASCII hexadecimal digits.
pub fn all_ascii_hexdigits(s: &Vec<char>) -> (b: bool)
    ensures
        b == all_hexdigits(s@),
{
    let mut i: usize = 0;
    while i < s.len()
        invariant
            i <= s.len(),
            forall|j: int| 0 <= j < i ==> is_ascii_hexdigit(#[trigger] s@[j]),
        decreases s.len() - i,
    {
        if !ascii_hexdigit(s[i]) {
            return false;
        }
        i += 1;
    }
    true
}

/// Some character of `s` is a control character.
pub fn any_control(s: &Vec<char>) -> (b: bool)
    ensures
        b == exists|j: int| 0 <= j < s@.len() && is_control(#[trigger] s@[j]),
{
    let mut i: usize = 0;
    while i < s.len()
        invariant
            i <= s.len(),
            forall|j: int| 0 <= j < i ==> !is_control(#[trigger] s@[j]),
        decreases s.len() - i,
    {
        if control(s[i]) {
            return true;
        }
        i += 1;
    }
    false
}

/// `str::to_ascii_lowercase` on a character vector.
pub fn lowercase_ascii(s: &Vec<char>) -> (r: Vec<char>)
    ensures
        r@ == ascii_lowercase(s@),
{
    let mut r: Vec<char> = Vec::new();
    let mut i: usize = 0;
    while i < s.len()
        invariant
            i <= s.len(),
            r@.len() == i,
            forall|j: int| 0 <= j < i ==> #[trigger] r@[j] == ascii_lower(s@[j]),
        decreases s.len() - i,
    {
        r.push(to_ascii_lower(s[i]));
        i += 1;
    }
    assert(r@ =~= ascii_lowercase(s@));
    r
}

/// `str::to_ascii_uppercase` on a character vector.
pub fn uppercase_ascii(s: &Vec<char>) -> (r: Vec<char>)
    ensures
        r@ == ascii_uppercase(s@),
{
    let mut r: Vec<char> = Vec::new();
    let mut i: usize = 0;
    while i < s.len()
        invariant
            i <= s.len(),
            r@.len() == i,
            forall|j: int| 0 <= j < i ==> #[trigger] r@[j] == ascii_upper(s@[j]),
        decreases s.len() - i,
    {
        r.push(to_ascii_upper(s[i]));
        i += 1;
    }
    assert(r@ =~= ascii_uppercase(s@));
    r
}

// ---------------------------------------------------------------------------
// Conversions between strings and character vectors
// ---------------------------------------------------------------------------

/// The characters of `s`, in order.
pub fn chars_of(s: &str) -> (v: Vec<char>)
    ensures
        v@ == s@,
{
    let mut v: Vec<char> = Vec::new();
    for c in it: s.chars()
        invariant
            v@ == it.seq().take(it.index() as int),
            it.seq() == s@,
    {
        v.push(c);
    }
    v
}

/// `String::push`.
#[verifier::external_body]
fn push_char(s: &mut String, c: char)
    ensures
        final(s)@ == old(s)@.push(c),
{
    s.push(c);
}

/// The string made of the characters of `v`.
pub fn string_of(v: &Vec<char>) -> (s: String)
    ensures
        s@ == v@,
{
    let mut s = String::new();
    let mut i: usize = 0;
    while i < v.len()
        invariant
            i <= v.len(),
            s@ == v@.take(i as int),
        decreases v.len() - i,
    {
        push_char(&mut s, v[i]);
        assert(v@.take(i as int).push(v@[i as int]) =~= v@.take(i + 1));
        i += 1;
    }
    assert(v@.take(v.len() as int) =~= v@);
    s
}

/// `s[start..end]` as a new vector.
pub fn slice_of(s: &Vec<char>, start: usize, end: usize) -> (r: Vec<char>)
    requires
        start <= end <= s.len(),
    ensures
        r@ == s@.subrange(start as int, end as int),
{
    let mut r: Vec<char> = Vec::new();
    let mut i: usize = start;
    while i < end
        invariant
            start <= i <= end <= s.len(),
            r@ == s@.subrange(start as int, i as int),
        decreases end - i,
    {
        r.push(s[i]);
        assert(s@.subrange(start as int, i as int).push(s@[i as int]) =~= s@.subrange(
            start as int,
            i + 1,
        ));
        i += 1;
    }
    r
}

/// Appends the characters of `t` to `r`.
pub fn extend_chars(r: &mut Vec<char>, t: &Vec<char>)
    ensures
        final(r)@ == old(r)@ + t@,
{
    let mut i: usize = 0;
    while i < t.len()
        invariant
            i <= t.len(),
            r@ == old(r)@ + t@.take(i as int),
        decreases t.len() - i,
    {
        r.push(t[i]);
        assert(old(r)@ + t@.take(i as int).push(t@[i as int]) =~= old(r)@ + t@.take(i + 1));
        i += 1;
    }
    assert(t@.take(t.len() as int) =~= t@);
}

/// Appends the characters of `t` to `r`.
pub fn extend_str(r: &mut Vec<char>, t: &str)
    ensures
        final(r)@ == old(r)@ + t@,
{
    let tv = chars_of(t);
    extend_chars(r, &tv);
}

/// `p` occurs in `s`.
pub fn str_contains(s: &str, p: &str) -> (b: bool)
    ensures
        b == contains(s@, p@),
{
    let sv = chars_of(s);
    let pv = chars_of(p);
    contains_chars(&sv, &pv)
}

/// What `str::to_lowercase` gives for `s`: the Unicode lowercase mapping of
/// its characters, which std defines by the Unicode tables.
pub uninterp spec fn unicode_lowercase(s: Seq<char>) -> Seq<char>;

/// `str::to_lowercase`. Its result is named, not spelled out: it is
/// `unicode_lowercase` of the argument.
#[verifier::external_body]
pub(crate) fn to_lowercase(s: &str) -> (r: String)
    ensures
        r@ == unicode_lowercase(s@),
{
    s.to_lowercase()
}

/// What `char::to_lowercase` gives for `c`: its Unicode lowercase mapping,
/// one or more characters, which std defines by the Unicode tables.
pub uninterp spec fn char_lowercase(c: char) -> Seq<char>;

/// `char::to_lowercase`, collected. Its result is named, not spelled out: it
/// is `char_lowercase` of the argument.
#[verifier::external_body]
pub(crate) fn char_to_lowercase(c: char) -> (r: Vec<char>)
    ensures
        r@ == char_lowercase(c),
{
    c.to_lowercase().collect()
}

/// `a` followed by `b`.
pub fn concat(a: &str, b: &str) -> (r: String)
    ensures
        r@ == a@ + b@,
{
    let mut v = chars_of(a);
    extend_str(&mut v, b);
    string_of(&v)
}

/// `a`, `b` and `c` one after the other.
pub fn concat3(a: &str, b: &str, c: &str) -> (r: String)
    ensures
        r@ == a@ + b@ + c@,
{
    let mut v = chars_of(a);
    extend_str(&mut v, b);
    extend_str(&mut v, c);
    string_of(&v)
}

/// Character vectors compare equal.
pub fn chars_eq(a: &Vec<char>, b: &Vec<char>) -> (r: bool)
    ensures
        r == (a@ == b@),
{
    if a.len() != b.len() {
        return false;
    }
    let mut i: usize = 0;
    while i < a.len()
        invariant
            a.len() == b.len(),
            i <= a.len(),
            forall|j: int| 0 <= j < i ==> a@[j] == b@[j],
        decreases a.len() - i,
    {
        if a[i] != b[i] {
            return false;
        }
        i += 1;
    }
    assert(a@ =~= b@);
    true
}

/// String slices compare equal.
pub fn str_eq(a: &str, b: &str) -> (r: bool)
    ensures
        r == (a@ == b@),
{
    let av = chars_of(a);
    let bv = chars_of(b);
    chars_eq(&av, &bv)
}

/// The texts of a sequence of strings.
pub open spec fn text_views(v: Seq<String>) -> Seq<Seq<char>> {
    v.map_values(|s: String| s@)
}

/// Whether `v` holds a string equal to `s`.
pub fn strings_contain(v: &Vec<String>, s: &str) -> (b: bool)
    ensures
        b == text_views(v@).contains(s@),
{
    let mut i: usize = 0;
    while i < v.len()
        invariant
            i <= v.len(),
            forall|j: int| 0 <= j < i ==> v@[j]@ != s@,
        decreases v.len() - i,
    {
        if str_eq(v[i].as_str(), s) {
            assert(text_views(v@)[i as int] == s@);
            return true;
        }
        i += 1;
    }
    proof {
        if text_views(v@).contains(s@) {
            let k = choose|k: int| 0 <= k < text_views(v@).len() && text_views(v@)[k] == s@;
            assert(v@[k]@ == s@);
        }
    }
    false
}

// ---------------------------------------------------------------------------
// Substrings
// ---------------------------------------------------------------------------

/// `p` occurs in `s` at index `i`.
pub open spec fn match_at(s: Seq<char>, i: int, p: Seq<char>) -> bool {
    0 <= i && i + p.len() <= s.len() && s.subrange(i, i + p.len()) == p
}

/// `str::starts_with`.
pub open spec fn starts_with(s: Seq<char>, p: Seq<char>) -> bool {
    match_at(s, 0, p)
}

/// `str::ends_with`.
pub open spec fn ends_with(s: Seq<char>, p: Seq<char>) -> bool {
    match_at(s, s.len() - p.len(), p)
}

/// `str::contains`.
pub open spec fn contains(s: Seq<char>, p: Seq<char>) -> bool {
    exists|i: int| #[trigger] match_at(s, i, p)
}

/// The first index at or after `start` where `p` occurs in `s`
/// (`str::find` on `s[start..]`, shifted by `start`).
pub open spec fn find_from(s: Seq<char>, p: Seq<char>, start: int) -> Option<int>
    decreases s.len() - start,
{
    if start < 0 || start + p.len() > s.len() {
        None
    } else if match_at(s, start, p) {
        Some(start)
    } else if start >= s.len() {
        None
    } else {
        find_from(s, p, start + 1)
    }
}

/// The last index where `p` occurs in `s` (`str::rfind`).
pub open spec fn rfind(s: Seq<char>, p: Seq<char>) -> Option<int> {
    rfind_upto(s, p, s.len() - p.len())
}

/// The last index at or before `end` where `p` occurs in `s`.
pub open spec fn rfind_upto(s: Seq<char>, p: Seq<char>, end: int) -> Option<int>
    decreases end + 1,
{
    if end < 0 {
        None
    } else if match_at(s, end, p) {
        Some(end)
    } else {
        rfind_upto(s, p, end - 1)
    }
}

/// `find_from` skips indexes where `p` does not occur.
pub proof fn lemma_find_from_skip(s: Seq<char>, p: Seq<char>, start: int, i: int)
    requires
        0 <= start <= i,
        forall|j: int| start <= j < i ==> !match_at(s, j, p),
    ensures
        find_from(s, p, start) == find_from(s, p, i),
    decreases i - start,
{
    if start < i {
        if start + p.len() > s.len() {
            assert(find_from(s, p, i) is None) by {
                lemma_find_from_none_past_end(s, p, i);
            }
        } else if start >= s.len() {
            assert(s.subrange(start, start + p.len()) =~= p);
        } else {
            lemma_find_from_skip(s, p, start + 1, i);
        }
    }
}

/// Past the last possible match, `find_from` finds nothing.
pub proof fn lemma_find_from_none_past_end(s: Seq<char>, p: Seq<char>, i: int)
    requires
        i + p.len() > s.len(),
    ensures
        find_from(s, p, i) is None,
{
}

/// What `find_from` returns: the least matching index, if any.
pub proof fn lemma_find_from_spec(s: Seq<char>, p: Seq<char>, start: int)
    requires
        0 <= start,
    ensures
        match find_from(s, p, start) {
            Some(k) => start <= k && match_at(s, k, p) && forall|j: int|
                start <= j < k ==> !match_at(s, j, p),
            None => forall|j: int| start <= j ==> !match_at(s, j, p),
        },
    decreases s.len() - start,
{
    if start + p.len() > s.len() {
    } else if match_at(s, start, p) {
    } else if start >= s.len() {
        assert(s.subrange(start, start + p.len()) =~= p);
    } else {
        lemma_find_from_spec(s, p, start + 1);
    }
}

/// `contains` holds exactly when `find_from` at zero finds an index.
pub proof fn lemma_contains_find(s: Seq<char>, p: Seq<char>)
    ensures
        contains(s, p) <==> find_from(s, p, 0) is Some,
{
    lemma_find_from_spec(s, p, 0);
    if contains(s, p) {
        let i = choose|i: int| #[trigger] match_at(s, i, p);
        assert(0 <= i);
    }
}

/// `p` occurs in `s` at index `i`.
pub fn matches_at(s: &Vec<char>, i: usize, p: &Vec<char>) -> (b: bool)
    ensures
        b == match_at(s@, i as int, p@),
{
    if i > s.len() || p.len() > s.len() - i {
        return false;
    }
    let mut k: usize = 0;
    while k < p.len()
        invariant
            i + p.len() <= s.len(),
            k <= p.len(),
            forall|j: int| 0 <= j < k ==> s@[i + j] == p@[j],
        decreases p.len() - k,
    {
        if s[i + k] != p[k] {
            assert(s@.subrange(i as int, i + p.len())[k as int] != p@[k as int]);
            return false;
        }
        k += 1;
    }
    assert(s@.subrange(i as int, i + p.len()) =~= p@);
    true
}

/// The first index at or after `start` where `p` occurs in `s`.
pub fn find_chars_from(s: &Vec<char>, p: &Vec<char>, start: usize) -> (r: Option<usize>)
    ensures
        r matches Some(k) ==> find_from(s@, p@, start as int) == Some(k as int),
        r is None ==> find_from(s@, p@, start as int) is None,
{
    if p.len() > s.len() {
        return None;
    }
    let last = s.len() - p.len();
    if start > last {
        return None;
    }
    let mut i: usize = start;
    loop
        invariant
            last + p.len() == s.len(),
            start <= i <= last,
            forall|j: int| start <= j < i ==> !match_at(s@, j, p@),
        decreases last - i,
    {
        if matches_at(s, i, p) {
            proof {
                lemma_find_from_skip(s@, p@, start as int, i as int);
            }
            return Some(i);
        }
        if i == last {
            proof {
                lemma_find_from_skip(s@, p@, start as int, i + 1);
            }
            return None;
        }
        i += 1;
    }
}

/// The last index where `p` occurs in `s`.
pub fn rfind_chars(s: &Vec<char>, p: &Vec<char>) -> (r: Option<usize>)
    ensures
        r matches Some(k) ==> rfind(s@, p@) == Some(k as int) && match_at(s@, k as int, p@),
        r is None ==> rfind(s@, p@) is None,
{
    if p.len() > s.len() {
        return None;
    }
    let mut i: usize = s.len() - p.len();
    loop
        invariant
            i + p.len() <= s.len(),
            rfind(s@, p@) == rfind_upto(s@, p@, i as int),
        decreases i,
    {
        if matches_at(s, i, p) {
            return Some(i);
        }
        if i == 0 {
            assert(rfind_upto(s@, p@, -1) is None);
            return None;
        }
        i -= 1;
    }
}

/// `s` contains `p`.
pub fn contains_chars(s: &Vec<char>, p: &Vec<char>) -> (b: bool)
    ensures
        b == contains(s@, p@),
{
    proof {
        lemma_contains_find(s@, p@);
    }
    find_chars_from(s, p, 0).is_some()
}

/// `s` starts with `p`.
pub fn starts_with_chars(s: &Vec<char>, p: &Vec<char>) -> (b: bool)
    ensures
        b == starts_with(s@, p@),
{
    matches_at(s, 0, p)
}

/// `s` ends with `p`.
pub fn ends_with_chars(s: &Vec<char>, p: &Vec<char>) -> (b: bool)
    ensures
        b == ends_with(s@, p@),
{
    if p.len() > s.len() {
        return false;
    }
    matches_at(s, s.len() - p.len(), p)
}

/// `str::strip_prefix`.
pub open spec fn strip_prefix(s: Seq<char>, p: Seq<char>) -> Option<Seq<char>> {
    if starts_with(s, p) {
        Some(s.subrange(p.len() as int, s.len() as int))
    } else {
        None
    }
}

/// `str::strip_suffix`.
pub open spec fn strip_suffix(s: Seq<char>, p: Seq<char>) -> Option<Seq<char>> {
    if ends_with(s, p) {
        Some(s.subrange(0, s.len() - p.len()))
    } else {
        None
    }
}

/// `str::strip_prefix` on character vectors.
pub fn strip_prefix_chars(s: &Vec<char>, p: &Vec<char>) -> (r: Option<Vec<char>>)
    ensures
        r matches Some(t) ==> strip_prefix(s@, p@) == Some(t@),
        r is None ==> strip_prefix(s@, p@) is None,
{
    if starts_with_chars(s, p) {
        Some(slice_of(s, p.len(), s.len()))
    } else {
        None
    }
}

/// `str::strip_suffix` on character vectors.
pub fn strip_suffix_chars(s: &Vec<char>, p: &Vec<char>) -> (r: Option<Vec<char>>)
    ensures
        r matches Some(t) ==> strip_suffix(s@, p@) == Some(t@),
        r is None ==> strip_suffix(s@, p@) is None,
{
    if ends_with_chars(s, p) {
        Some(slice_of(s, 0, s.len() - p.len()))
    } else {
        None
    }
}

// ---------------------------------------------------------------------------
// Trimming
// ---------------------------------------------------------------------------

/// The index of the first non-whitespace character at or after `i`.
pub open spec fn ws_prefix_end(s: Seq<char>, i: int) -> int
    decreases s.len() - i,
{
    if 0 <= i < s.len() && is_whitespace(s[i]) {
        ws_prefix_end(s, i + 1)
    } else {
        i
    }
}

/// The index just past the last non-whitespace character at or before `j - 1`.
pub open spec fn ws_suffix_start(s: Seq<char>, j: int) -> int
    decreases j,
{
    if 0 < j <= s.len() && is_whitespace(s[j - 1]) {
        ws_suffix_start(s, j - 1)
    } else {
        j
    }
}

/// `str::trim`: `s` without leading and trailing Unicode whitespace.
pub open spec fn trim(s: Seq<char>) -> Seq<char> {
    let a = ws_prefix_end(s, 0);
    let b = ws_suffix_start(s, s.len() as int);
    if a < b {
        s.subrange(a, b)
    } else {
        Seq::empty()
    }
}

/// `s.trim().is_empty()`.
pub open spec fn is_blank(s: Seq<char>) -> bool {
    trim(s).len() == 0
}

proof fn lemma_ws_prefix_end_bounds(s: Seq<char>, i: int)
    requires
        0 <= i <= s.len(),
    ensures
        i <= ws_prefix_end(s, i) <= s.len(),
        forall|k: int| i <= k < ws_prefix_end(s, i) ==> is_whitespace(#[trigger] s[k]),
        ws_prefix_end(s, i) < s.len() ==> !is_whitespace(s[ws_prefix_end(s, i)]),
    decreases s.len() - i,
{
    if i < s.len() && is_whitespace(s[i]) {
        lemma_ws_prefix_end_bounds(s, i + 1);
    }
}

proof fn lemma_ws_suffix_start_bounds(s: Seq<char>, j: int)
    requires
        0 <= j <= s.len(),
    ensures
        0 <= ws_suffix_start(s, j) <= j,
        forall|k: int| ws_suffix_start(s, j) <= k < j ==> is_whitespace(#[trigger] s[k]),
        ws_suffix_start(s, j) > 0 ==> !is_whitespace(s[ws_suffix_start(s, j) - 1]),
    decreases j,
{
    if 0 < j && is_whitespace(s[j - 1]) {
        lemma_ws_suffix_start_bounds(s, j - 1);
    }
}

/// Trimmed text is blank exactly when every character is whitespace.
pub proof fn lemma_blank_all_whitespace(s: Seq<char>)
    ensures
        is_blank(s) <==> forall|k: int| 0 <= k < s.len() ==> is_whitespace(#[trigger] s[k]),
{
    lemma_ws_prefix_end_bounds(s, 0);
    lemma_ws_suffix_start_bounds(s, s.len() as int);
    let a = ws_prefix_end(s, 0);
    let b = ws_suffix_start(s, s.len() as int);
    if a < s.len() {
        assert(!is_whitespace(s[a]));
        if b <= a {
            assert(is_whitespace(s[a]));
        }
        assert(trim(s).len() == b - a);
    }
}

/// Trimming what is not blank leaves something that is not blank.
pub proof fn lemma_trim_not_blank(s: Seq<char>)
    requires
        !is_blank(s),
    ensures
        !is_blank(trim(s)),
{
    lemma_ws_prefix_end_bounds(s, 0);
    lemma_ws_suffix_start_bounds(s, s.len() as int);
    let a = ws_prefix_end(s, 0);
    let t = trim(s);
    assert(t.len() > 0);
    assert(t[0] == s[a]);
    lemma_blank_all_whitespace(t);
}

/// `str::trim` on character vectors.
pub fn trim_chars(s: &Vec<char>) -> (r: Vec<char>)
    ensures
        r@ == trim(s@),
{
    let mut a: usize = 0;
    while a < s.len() && whitespace(s[a])
        invariant
            a <= s.len(),
            ws_prefix_end(s@, 0) == ws_prefix_end(s@, a as int),
        decreases s.len() - a,
    {
        a += 1;
    }
    let mut b: usize = s.len();
    while b > 0 && whitespace(s[b - 1])
        invariant
            b <= s.len(),
            ws_suffix_start(s@, s@.len() as int) == ws_suffix_start(s@, b as int),
        decreases b,
    {
        b -= 1;
    }
    if a < b {
        slice_of(s, a, b)
    } else {
        Vec::new()
    }
}

/// `str::trim` on a string slice.
pub fn trim_str(s: &str) -> (r: Vec<char>)
    ensures
        r@ == trim(s@),
{
    let v = chars_of(s);
    trim_chars(&v)
}

/// `s.trim().is_empty()`.
pub fn blank_str(s: &str) -> (b: bool)
    ensures
        b == is_blank(s@),
{
    trim_str(s).len() == 0
}

// ---------------------------------------------------------------------------
// Decimal numbers
// ---------------------------------------------------------------------------

/// The ASCII digit for `d < 10`.
pub open spec fn digit_char(d: nat) -> char {
    (d + 48) as char
}

/// The decimal value of a digit character.
pub open spec fn digit_value(c: char) -> nat {
    (c as u32 - 48) as nat
}

/// The decimal rendering of `n` (`u64::to_string` and friends).
pub open spec fn decimal(n: nat) -> Seq<char>
    decreases n,
{
    if n < 10 {
        seq![digit_char(n)]
    } else {
        decimal(n / 10).push(digit_char(n % 10))
    }
}

/// The value of a sequence of decimal digits.
pub open spec fn digits_value(s: Seq<char>) -> nat
    decreases s.len(),
{
    if s.len() == 0 {
        0
    } else {
        digits_value(s.drop_last()) * 10 + digit_value(s.last())
    }
}

/// What `str::parse` of an unsigned integer reads, before the range check:
/// an optional `+` and then one or more ASCII digits.
pub open spec fn unsigned_literal(s: Seq<char>) -> Option<nat> {
    let body = if s.len() > 0 && s[0] == '+' {
        s.drop_first()
    } else {
        s
    };
    if body.len() > 0 && all_digits(body) {
        Some(digits_value(body))
    } else {
        None
    }
}

/// What `str::parse` of a signed integer reads, before the range check:
/// an optional sign and then one or more ASCII digits.
pub open spec fn signed_literal(s: Seq<char>) -> Option<int> {
    if s.len() > 0 && s[0] == '-' {
        let body = s.drop_first();
        if body.len() > 0 && all_digits(body) {
            Some(-(digits_value(body) as int))
        } else {
            None
        }
    } else {
        match unsigned_literal(s) {
            Some(v) => Some(v as int),
            None => None,
        }
    }
}

/// `u64::to_string`.
pub fn decimal_chars(n: u64) -> (r: Vec<char>)
    ensures
        r@ == decimal(n as nat),
    decreases n,
{
    if n < 10 {
        let c = char_from_ascii((n as u32) + 48);
        let mut r: Vec<char> = Vec::new();
        r.push(c);
        assert(r@ =~= seq![digit_char(n as nat)]);
        r
    } else {
        let mut r = decimal_chars(n / 10);
        let d = n % 10;
        let c = char_from_ascii((d as u32) + 48);
        r.push(c);
        r
    }
}

/// `u64::to_string`.
pub fn decimal_string(n: u64) -> (r: String)
    ensures
        r@ == decimal(n as nat),
{
    let v = decimal_chars(n);
    string_of(&v)
}

proof fn lemma_digits_value_push(s: Seq<char>, c: char)
    ensures
        digits_value(s.push(c)) == digits_value(s) * 10 + digit_value(c),
{
    assert(s.push(c).drop_last() =~= s);
}

/// Reads the decimal digits of `s`, failing where the value exceeds `max`.
fn digits_upto(s: &Vec<char>, start: usize, max: u64) -> (r: Option<u64>)
    requires
        start <= s.len(),
        max >= 9,
        all_digits(s@.subrange(start as int, s@.len() as int)),
    ensures
        r matches Some(v) ==> v as nat == digits_value(s@.subrange(start as int, s@.len() as int))
            && v <= max,
        r is None ==> digits_value(s@.subrange(start as int, s@.len() as int)) > max,
{
    let mut value: u64 = 0;
    let mut i: usize = start;
    while i < s.len()
        invariant
            start <= i <= s.len(),
            all_digits(s@.subrange(start as int, s@.len() as int)),
            value as nat == digits_value(s@.subrange(start as int, i as int)),
            value <= max,
            max >= 9,
        decreases s.len() - i,
    {
        let c = s[i];
        assert(s@.subrange(start as int, s@.len() as int)[i - start] == c);
        assert(is_ascii_digit(c));
        let d: u64 = (c as u64) - 48;
        assert(d <= 9);
        proof {
            assert(s@.subrange(start as int, i as int).push(c) =~= s@.subrange(
                start as int,
                i + 1,
            ));
            lemma_digits_value_push(s@.subrange(start as int, i as int), c);
        }
        if value > (max - d) / 10 {
            proof {
                lemma_digits_value_mono(s@.subrange(start as int, s@.len() as int), i + 1 - start);
                assert(s@.subrange(start as int, s@.len() as int).take(i + 1 - start) =~= s@.subrange(
                    start as int,
                    i + 1,
                ));
                assert(value * 10 + d > max) by (nonlinear_arith)
                    requires
                        value > (max - d) / 10,
                        d <= 9,
                        d <= max,
                ;
            }
            return None;
        }
        assert(value * 10 + d <= max) by (nonlinear_arith)
            requires
                value <= (max - d) / 10,
                d <= max,
        ;
        value = value * 10 + d;
        i += 1;
    }
    Some(value)
}

/// A longer digit sequence never has a smaller value than its prefix.
proof fn lemma_digits_value_mono(s: Seq<char>, k: int)
    requires
        0 <= k <= s.len(),
    ensures
        digits_value(s.take(k)) <= digits_value(s),
    decreases s.len() - k,
{
    if k < s.len() {
        lemma_digits_value_mono(s, k + 1);
        assert(s.take(k + 1).drop_last() =~= s.take(k));
        assert(digits_value(s.take(k + 1)) == digits_value(s.take(k)) * 10 + digit_value(
            s.take(k + 1).last(),
        ));
    } else {
        assert(s.take(k) =~= s);
    }
}

/// `str::parse::<u64>` limited to `max`: the value of an unsigned literal
/// that is at most `max`.
pub fn parse_unsigned(s: &Vec<char>, max: u64) -> (r: Option<u64>)
    requires
        max >= 9,
    ensures
        r matches Some(v) ==> unsigned_literal(s@) == Some(v as nat) && v <= max,
        r is None ==> match unsigned_literal(s@) {
            Some(v) => v > max,
            None => true,
        },
{
    let start: usize = if s.len() > 0 && s[0] == '+' {
        1
    } else {
        0
    };
    let ghost body = s@.subrange(start as int, s@.len() as int);
    assert(body =~= if s@.len() > 0 && s@[0] == '+' {
        s@.drop_first()
    } else {
        s@
    });
    if start >= s.len() {
        return None;
    }
    let mut i: usize = start;
    while i < s.len()
        invariant
            start <= i <= s.len(),
            body == s@.subrange(start as int, s@.len() as int),
            body == if s@.len() > 0 && s@[0] == '+' {
                s@.drop_first()
            } else {
                s@
            },
            forall|j: int| start <= j < i ==> is_ascii_digit(#[trigger] s@[j]),
        decreases s.len() - i,
    {
        if !ascii_digit(s[i]) {
            assert(body[i - start] == s@[i as int]);
            assert(!all_digits(body));
            return None;
        }
        i += 1;
    }
    assert(all_digits(body)) by {
        assert forall|j: int| 0 <= j < body.len() implies is_ascii_digit(#[trigger] body[j]) by {
            assert(body[j] == s@[start + j]);
        }
    }
    digits_upto(s, start, max)
}

/// `str::parse::<u64>`.
pub fn parse_u64(s: &Vec<char>) -> (r: Option<u64>)
    ensures
        r matches Some(v) ==> unsigned_literal(s@) == Some(v as nat),
        r is None ==> match unsigned_literal(s@) {
            Some(v) => v > u64::MAX,
            None => true,
        },
{
    parse_unsigned(s, u64::MAX)
}

/// `str::parse::<u32>`.
pub fn parse_u32(s: &Vec<char>) -> (r: Option<u32>)
    ensures
        r matches Some(v) ==> unsigned_literal(s@) == Some(v as nat),
        r is None ==> match unsigned_literal(s@) {
            Some(v) => v > u32::MAX,
            None => true,
        },
{
    match parse_unsigned(s, u32::MAX as u64) {
        Some(v) => Some(v as u32),
        None => None,
    }
}

/// `str::parse::<u16>`.
pub fn parse_u16(s: &Vec<char>) -> (r: Option<u16>)
    ensures
        r matches Some(v) ==> unsigned_literal(s@) == Some(v as nat),
        r is None ==> match unsigned_literal(s@) {
            Some(v) => v > u16::MAX,
            None => true,
        },
{
    match parse_unsigned(s, u16::MAX as u64) {
        Some(v) => Some(v as u16),
        None => None,
    }
}

/// `str::parse::<i32>`.
pub fn parse_i32(s: &Vec<char>) -> (r: Option<i32>)
    ensures
        r matches Some(v) ==> signed_literal(s@) == Some(v as int),
        r is None ==> match signed_literal(s@) {
            Some(v) => v < i32::MIN || v > i32::MAX,
            None => true,
        },
{
    if s.len() > 0 && s[0] == '-' {
        let body = slice_of(s, 1, s.len());
        assert(body@ =~= s@.drop_first());
        if body.len() == 0 || body[0] == '+' {
            if body.len() > 0 {
                assert(!is_ascii_digit(body@[0]));
            }
            return None;
        }
        assert(unsigned_literal(body@) == if body@.len() > 0 && all_digits(body@) {
            Some(digits_value(body@))
        } else {
            None::<nat>
        });
        match parse_unsigned(&body, 2147483648) {
            Some(v) => {
                let r: i64 = 0 - (v as i64);
                Some(r as i32)
            },
            None => None,
        }
    } else {
        match parse_unsigned(s, 2147483647) {
            Some(v) => Some(v as i32),
            None => None,
        }
    }
}

} // verus!

verus! {

// ---------------------------------------------------------------------------
// Splitting at a character
// ---------------------------------------------------------------------------

/// The first index at or after `i` where `s` holds `c`.
pub open spec fn char_index_from(s: Seq<char>, c: char, i: int) -> Option<int>
    decreases s.len() - i,
{
    if i < 0 || i >= s.len() {
        None
    } else if s[i] == c {
        Some(i)
    } else {
        char_index_from(s, c, i + 1)
    }
}

/// `str::split_once` at the first `c`.
pub open spec fn split_once_char(s: Seq<char>, c: char) -> Option<(Seq<char>, Seq<char>)> {
    match char_index_from(s, c, 0) {
        Some(i) => Some((s.subrange(0, i), s.subrange(i + 1, s.len() as int))),
        None => None,
    }
}

pub proof fn lemma_char_index_from(s: Seq<char>, c: char, i: int)
    requires
        0 <= i,
    ensures
        match char_index_from(s, c, i) {
            Some(k) => i <= k < s.len() && s[k] == c && forall|j: int| i <= j < k ==> s[j] != c,
            None => forall|j: int| i <= j < s.len() ==> s[j] != c,
        },
    decreases s.len() - i,
{
    if i < s.len() && s[i] != c {
        lemma_char_index_from(s, c, i + 1);
    }
}

/// The two parts of a split, with the separator between them, give back the
/// whole.
pub proof fn lemma_split_once_rejoin(s: Seq<char>, c: char)
    ensures
        split_once_char(s, c) matches Some((a, b)) ==> s == a + seq![c] + b,
{
    lemma_char_index_from(s, c, 0);
    if let Some((a, b)) = split_once_char(s, c) {
        let i = char_index_from(s, c, 0)->0;
        assert(s =~= s.subrange(0, i) + seq![c] + s.subrange(i + 1, s.len() as int));
    }
}

/// `char_index_from` skips indexes that do not hold `c`.
proof fn lemma_char_index_skip(s: Seq<char>, c: char, start: int, i: int)
    requires
        0 <= start <= i <= s.len(),
        forall|j: int| start <= j < i ==> s[j] != c,
    ensures
        char_index_from(s, c, start) == char_index_from(s, c, i),
    decreases i - start,
{
    if start < i {
        lemma_char_index_skip(s, c, start + 1, i);
    }
}

/// The first index at or after `start` where `v` holds `c`.
pub fn find_char_from(v: &Vec<char>, c: char, start: usize) -> (r: Option<usize>)
    ensures
        r matches Some(k) ==> char_index_from(v@, c, start as int) == Some(k as int) && start <= k
            < v.len() && v@[k as int] == c,
        r is None ==> char_index_from(v@, c, start as int) is None,
{
    if start >= v.len() {
        return None;
    }
    let mut i: usize = start;
    while i < v.len()
        invariant
            start <= i <= v.len(),
            forall|j: int| start <= j < i ==> v@[j] != c,
        decreases v.len() - i,
    {
        if v[i] == c {
            proof {
                lemma_char_index_skip(v@, c, start as int, i as int);
            }
            return Some(i);
        }
        i += 1;
    }
    proof {
        lemma_char_index_skip(v@, c, start as int, i as int);
    }
    None
}

/// `str::split_once` at the first `c`.
pub fn split_once_at(v: &Vec<char>, c: char) -> (r: Option<(Vec<char>, Vec<char>)>)
    ensures
        r matches Some((a, b)) ==> split_once_char(v@, c) == Some((a@, b@)),
        r is None ==> split_once_char(v@, c) is None,
{
    match find_char_from(v, c, 0) {
        Some(i) => {
            proof {
                lemma_char_index_from(v@, c, 0);
            }
            Some((slice_of(v, 0, i), slice_of(v, i + 1, v.len())))
        },
        None => None,
    }
}

/// `s` holds `c` somewhere.
pub fn has_char(v: &Vec<char>, c: char) -> (b: bool)
    ensures
        b == v@.contains(c),
{
    proof {
        lemma_char_index_from(v@, c, 0);
    }
    match find_char_from(v, c, 0) {
        Some(i) => {
            assert(v@[i as int] == c);
            true
        },
        None => false,
    }
}

/// The value of `s` as a `u32` made of ASCII digits only.
pub open spec fn u32_digits(s: Seq<char>) -> Option<u32> {
    if s.len() > 0 && all_digits(s) && digits_value(s) <= u32::MAX {
        Some(digits_value(s) as u32)
    } else {
        None
    }
}

/// `str::parse::<i32>` of non-empty text.
pub open spec fn i32_text(s: Seq<char>) -> Option<i32> {
    match signed_literal(s) {
        Some(v) => if i32::MIN <= v <= i32::MAX {
            Some(v as i32)
        } else {
            None
        },
        None => None,
    }
}

/// `u32` from ASCII digits only.
pub fn parse_digits_u32(s: &Vec<char>) -> (r: Option<u32>)
    ensures
        r == u32_digits(s@),
{
    if s.len() == 0 || !all_ascii_digits(s) {
        return None;
    }
    assert(s@[0] != '+');
    assert(unsigned_literal(s@) == Some(digits_value(s@)));
    parse_u32(s)
}

/// `str::parse::<i32>`.
pub fn parse_i32_text(s: &Vec<char>) -> (r: Option<i32>)
    ensures
        r == i32_text(s@),
{
    parse_i32(s)
}

} // verus!
