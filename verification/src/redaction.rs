//! Redaction of secret-looking values in free text: `SECRET_`-prefixed
//! tokens, bearer tokens, and URLs.
use vstd::prelude::*;

use crate::text::{
    chars_of, extend_chars, find_chars_from, find_from, is_ascii_alnum, is_whitespace,
    lemma_find_from_spec, match_at, slice_of, string_of, whitespace,
};

verus! {

/// Which characters continue a token that is being redacted.
#[derive(Clone, Copy)]
pub enum TokenKind {
    /// ASCII letters, digits, `_` and `-` (the tail of a `SECRET_` token).
    SecretTail,
    /// Anything but whitespace (a bearer token).
    NonWhitespace,
    /// Anything but whitespace, quotes, `)` and `]` (a URL).
    UrlBody,
}

/// `c` continues a token of kind `kind`.
pub open spec fn continues(kind: TokenKind, c: char) -> bool {
    match kind {
        TokenKind::SecretTail => is_ascii_alnum(c) || c == '_' || c == '-',
        TokenKind::NonWhitespace => !is_whitespace(c),
        TokenKind::UrlBody => !(is_whitespace(c) || c == '"' || c == '\'' || c == ')' || c
            == ']'),
    }
}

/// The index just past the token of kind `kind` that starts at `i`.
pub open spec fn token_end(s: Seq<char>, i: int, kind: TokenKind) -> int
    decreases s.len() - i,
{
    if 0 <= i < s.len() && continues(kind, s[i]) {
        token_end(s, i + 1, kind)
    } else {
        i
    }
}

pub open spec fn secret_prefix() -> Seq<char> {
    seq!['S', 'E', 'C', 'R', 'E', 'T', '_']
}

pub open spec fn redacted_marker() -> Seq<char> {
    seq!['[', 'r', 'e', 'd', 'a', 'c', 't', 'e', 'd', ']']
}

pub open spec fn bearer_prefix() -> Seq<char> {
    seq!['B', 'e', 'a', 'r', 'e', 'r', ' ']
}

pub open spec fn bearer_replacement() -> Seq<char> {
    bearer_prefix() + redacted_marker()
}

pub open spec fn https_prefix() -> Seq<char> {
    seq!['h', 't', 't', 'p', 's', ':', '/', '/']
}

pub open spec fn http_prefix() -> Seq<char> {
    seq!['h', 't', 't', 'p', ':', '/', '/']
}

pub open spec fn url_marker() -> Seq<char> {
    seq!['[', 'r', 'e', 'd', 'a', 'c', 't', 'e', 'd', '-', 'u', 'r', 'l', ']']
}

/// `s[i..]` with every occurrence of `p` and the token of kind `kind` after
/// it replaced by `rep`, scanning left to right.
pub open spec fn redact_after_pattern(
    s: Seq<char>,
    p: Seq<char>,
    rep: Seq<char>,
    kind: TokenKind,
    i: int,
) -> Seq<char>
    decreases s.len() - i,
{
    if i < 0 || i > s.len() || p.len() == 0 {
        Seq::empty()
    } else {
        match find_from(s, p, i) {
            None => s.subrange(i, s.len() as int),
            Some(k) => {
                let e = token_end(s, k + p.len(), kind);
                if e <= i || e > s.len() || k < i {
                    Seq::empty()
                } else {
                    s.subrange(i, k) + rep + redact_after_pattern(s, p, rep, kind, e)
                }
            },
        }
    }
}

/// The first index at or after `i` where a URL (`https://` or `http://`) starts.
pub open spec fn find_url_from(s: Seq<char>, i: int) -> Option<int> {
    match (find_from(s, https_prefix(), i), find_from(s, http_prefix(), i)) {
        (Some(a), Some(b)) => Some(
            if a <= b {
                a
            } else {
                b
            },
        ),
        (Some(a), None) => Some(a),
        (None, Some(b)) => Some(b),
        (None, None) => None,
    }
}

/// `s[i..]` with every URL replaced by `[redacted-url]`.
pub open spec fn redact_urls_from(s: Seq<char>, i: int) -> Seq<char>
    decreases s.len() - i,
{
    if i < 0 || i > s.len() {
        Seq::empty()
    } else {
        match find_url_from(s, i) {
            None => s.subrange(i, s.len() as int),
            Some(k) => {
                let e = token_end(s, k, TokenKind::UrlBody);
                if e <= i || e > s.len() || k < i {
                    Seq::empty()
                } else {
                    s.subrange(i, k) + url_marker() + redact_urls_from(s, e)
                }
            },
        }
    }
}

/// `SECRET_` tokens replaced by `[redacted]`.
pub open spec fn redact_prefixed_secrets(s: Seq<char>) -> Seq<char> {
    redact_after_pattern(s, secret_prefix(), redacted_marker(), TokenKind::SecretTail, 0)
}

/// Bearer tokens replaced by `Bearer [redacted]`.
pub open spec fn redact_bearer_tokens(s: Seq<char>) -> Seq<char> {
    redact_after_pattern(s, bearer_prefix(), bearer_replacement(), TokenKind::NonWhitespace, 0)
}

/// URLs replaced by `[redacted-url]`.
pub open spec fn redact_urls(s: Seq<char>) -> Seq<char> {
    redact_urls_from(s, 0)
}

/// The whole redaction: secret tokens first, then bearer tokens, then URLs.
pub open spec fn redacted_text(s: Seq<char>) -> Seq<char> {
    redact_urls(redact_bearer_tokens(redact_prefixed_secrets(s)))
}

proof fn lemma_token_end_bounds(s: Seq<char>, i: int, kind: TokenKind)
    requires
        0 <= i <= s.len(),
    ensures
        i <= token_end(s, i, kind) <= s.len(),
        i < s.len() && continues(kind, s[i]) ==> token_end(s, i, kind) > i,
    decreases s.len() - i,
{
    if i < s.len() && continues(kind, s[i]) {
        lemma_token_end_bounds(s, i + 1, kind);
    }
}

fn continues_exec(kind: TokenKind, c: char) -> (b: bool)
    ensures
        b == continues(kind, c),
{
    match kind {
        TokenKind::SecretTail => crate::text::ascii_alnum(c) || c == '_' || c == '-',
        TokenKind::NonWhitespace => !whitespace(c),
        TokenKind::UrlBody => !(whitespace(c) || c == '"' || c == '\'' || c == ')' || c == ']'),
    }
}

fn token_end_exec(s: &Vec<char>, i: usize, kind: TokenKind) -> (e: usize)
    requires
        i <= s.len(),
    ensures
        e as int == token_end(s@, i as int, kind),
{
    let mut e = i;
    while e < s.len() && continues_exec(kind, s[e])
        invariant
            i <= e <= s.len(),
            token_end(s@, i as int, kind) == token_end(s@, e as int, kind),
        decreases s.len() - e,
    {
        e += 1;
    }
    e
}

/// One step of `redact_after_pattern`: the match at `k` and its token.
proof fn lemma_redact_after_pattern_step(
    s: Seq<char>,
    p: Seq<char>,
    rep: Seq<char>,
    kind: TokenKind,
    i: int,
)
    requires
        0 <= i <= s.len(),
        p.len() > 0,
    ensures
        match find_from(s, p, i) {
            None => redact_after_pattern(s, p, rep, kind, i) == s.subrange(i, s.len() as int),
            Some(k) => {
                let e = token_end(s, k + p.len(), kind);
                &&& i <= k
                &&& k + p.len() <= e <= s.len()
                &&& redact_after_pattern(s, p, rep, kind, i) == s.subrange(i, k) + rep
                    + redact_after_pattern(s, p, rep, kind, e)
            },
        },
{
    lemma_find_from_spec(s, p, i);
    if let Some(k) = find_from(s, p, i) {
        lemma_token_end_bounds(s, k + p.len(), kind);
    }
}

/// `s[i..]` redacted by `redact_after_pattern`, computed.
fn redact_after_pattern_exec(
    s: &Vec<char>,
    p: &Vec<char>,
    rep: &Vec<char>,
    kind: TokenKind,
) -> (r: Vec<char>)
    requires
        p@.len() > 0,
    ensures
        r@ == redact_after_pattern(s@, p@, rep@, kind, 0),
{
    let mut out: Vec<char> = Vec::new();
    let mut index: usize = 0;
    loop
        invariant
            index <= s.len(),
            p@.len() > 0,
            out@ + redact_after_pattern(s@, p@, rep@, kind, index as int) == redact_after_pattern(
                s@,
                p@,
                rep@,
                kind,
                0,
            ),
        decreases s.len() - index,
    {
        proof {
            lemma_redact_after_pattern_step(s@, p@, rep@, kind, index as int);
        }
        match find_chars_from(s, p, index) {
            None => {
                let tail = slice_of(s, index, s.len());
                let ghost before = out@;
                extend_chars(&mut out, &tail);
                assert(out@ == before + redact_after_pattern(s@, p@, rep@, kind, index as int));
                return out;
            },
            Some(k) => {
                let e = token_end_exec(s, k + p.len(), kind);
                let head = slice_of(s, index, k);
                let ghost before = out@;
                extend_chars(&mut out, &head);
                extend_chars(&mut out, rep);
                assert(before + redact_after_pattern(s@, p@, rep@, kind, index as int) =~= out@
                    + redact_after_pattern(s@, p@, rep@, kind, e as int));
                index = e;
            },
        }
    }
}

/// One step of `redact_urls_from`.
proof fn lemma_redact_urls_step(s: Seq<char>, i: int)
    requires
        0 <= i <= s.len(),
    ensures
        match find_url_from(s, i) {
            None => redact_urls_from(s, i) == s.subrange(i, s.len() as int),
            Some(k) => {
                let e = token_end(s, k, TokenKind::UrlBody);
                &&& i <= k < e <= s.len()
                &&& redact_urls_from(s, i) == s.subrange(i, k) + url_marker() + redact_urls_from(
                    s,
                    e,
                )
            },
        },
{
    lemma_find_from_spec(s, https_prefix(), i);
    lemma_find_from_spec(s, http_prefix(), i);
    if let Some(k) = find_url_from(s, i) {
        assert(match_at(s, k, https_prefix()) || match_at(s, k, http_prefix()));
        assert(s[k] == s.subrange(k, k + 7)[0]);
        assert(s[k] == 'h');
        lemma_token_end_bounds(s, k, TokenKind::UrlBody);
    }
}

/// The first URL start at or after `i`.
fn find_url_exec(s: &Vec<char>, https: &Vec<char>, http: &Vec<char>, i: usize) -> (r: Option<
    usize,
>)
    requires
        https@ == https_prefix(),
        http@ == http_prefix(),
    ensures
        r matches Some(k) ==> find_url_from(s@, i as int) == Some(k as int),
        r is None ==> find_url_from(s@, i as int) is None,
{
    match (find_chars_from(s, https, i), find_chars_from(s, http, i)) {
        (Some(a), Some(b)) => Some(
            if a <= b {
                a
            } else {
                b
            },
        ),
        (Some(a), None) => Some(a),
        (None, Some(b)) => Some(b),
        (None, None) => None,
    }
}

fn redact_urls_exec(s: &Vec<char>) -> (r: Vec<char>)
    ensures
        r@ == redact_urls(s@),
{
    let https = chars_of("https://");
    let http = chars_of("http://");
    let marker = chars_of("[redacted-url]");
    proof {
        reveal_strlit("https://");
        reveal_strlit("http://");
        reveal_strlit("[redacted-url]");
        assert(https@ =~= https_prefix());
        assert(http@ =~= http_prefix());
        assert(marker@ =~= url_marker());
    }
    let mut out: Vec<char> = Vec::new();
    let mut index: usize = 0;
    loop
        invariant
            index <= s.len(),
            https@ == https_prefix(),
            http@ == http_prefix(),
            marker@ == url_marker(),
            out@ + redact_urls_from(s@, index as int) == redact_urls_from(s@, 0),
        decreases s.len() - index,
    {
        proof {
            lemma_redact_urls_step(s@, index as int);
        }
        match find_url_exec(s, &https, &http, index) {
            None => {
                let tail = slice_of(s, index, s.len());
                extend_chars(&mut out, &tail);
                return out;
            },
            Some(k) => {
                let e = token_end_exec(s, k, TokenKind::UrlBody);
                let head = slice_of(s, index, k);
                let ghost before = out@;
                extend_chars(&mut out, &head);
                extend_chars(&mut out, &marker);
                assert(before + redact_urls_from(s@, index as int) =~= out@ + redact_urls_from(
                    s@,
                    e as int,
                ));
                index = e;
            },
        }
    }
}

fn redact_prefixed_secrets_exec(s: &Vec<char>) -> (r: Vec<char>)
    ensures
        r@ == redact_prefixed_secrets(s@),
{
    let p = chars_of("SECRET_");
    let rep = chars_of("[redacted]");
    proof {
        reveal_strlit("SECRET_");
        reveal_strlit("[redacted]");
        assert(p@ =~= secret_prefix());
        assert(rep@ =~= redacted_marker());
    }
    redact_after_pattern_exec(s, &p, &rep, TokenKind::SecretTail)
}

fn redact_bearer_tokens_exec(s: &Vec<char>) -> (r: Vec<char>)
    ensures
        r@ == redact_bearer_tokens(s@),
{
    let p = chars_of("Bearer ");
    let rep = chars_of("Bearer [redacted]");
    proof {
        reveal_strlit("Bearer ");
        reveal_strlit("Bearer [redacted]");
        assert(p@ =~= bearer_prefix());
        assert(rep@ =~= bearer_replacement());
    }
    redact_after_pattern_exec(s, &p, &rep, TokenKind::NonWhitespace)
}

/// Replaces `SECRET_…` tokens with `[redacted]`, the token after `Bearer `
/// with `[redacted]`, and every `http://` or `https://` URL with
/// `[redacted-url]`, in that order.
pub fn redact_sensitive_text(input: &str) -> (r: String)
    ensures
        r@ == redacted_text(input@),
{
    let s = chars_of(input);
    let a = redact_prefixed_secrets_exec(&s);
    let b = redact_bearer_tokens_exec(&a);
    let c = redact_urls_exec(&b);
    string_of(&c)
}


// ---------------------------------------------------------------------------
// No secret token survives
// ---------------------------------------------------------------------------

/// The markers that replace tokens hold no `S`, and start with a character
/// that `SECRET_` does not hold.
proof fn lemma_markers_cannot_form_secret()
    ensures
        forall|x: int| 0 <= x < redacted_marker().len() ==> redacted_marker()[x] != 'S',
        forall|x: int| 0 <= x < bearer_replacement().len() ==> bearer_replacement()[x] != 'S',
        forall|x: int| 0 <= x < url_marker().len() ==> url_marker()[x] != 'S',
        forall|y: int| 0 <= y < secret_prefix().len() ==> secret_prefix()[y] != '[',
        forall|y: int| 0 <= y < secret_prefix().len() ==> secret_prefix()[y] != 'B',
        redacted_marker()[0] == '[' && bearer_replacement()[0] == 'B' && url_marker()[0] == '[',
        secret_prefix()[0] == 'S',
{
    assert(bearer_replacement() =~= seq![
        'B', 'e', 'a', 'r', 'e', 'r', ' ', '[', 'r', 'e', 'd', 'a', 'c', 't', 'e', 'd', ']',
    ]);
}

/// The first pass leaves no `SECRET_` in `s[i..]`.
proof fn lemma_secret_pass_clean(s: Seq<char>, i: int)
    requires
        0 <= i <= s.len(),
    ensures
        !crate::text::contains(
            redact_after_pattern(s, secret_prefix(), redacted_marker(), TokenKind::SecretTail, i),
            secret_prefix(),
        ),
    decreases s.len() - i,
{
    let p = secret_prefix();
    lemma_markers_cannot_form_secret();
    lemma_find_from_spec(s, p, i);
    match find_from(s, p, i) {
        None => {
            lemma_no_match_in_stretch(s, secret_prefix(), i, s.len() as int);
        },
        Some(k) => {
            let e = token_end(s, k + p.len(), TokenKind::SecretTail);
            lemma_token_end_bounds(s, k + p.len(), TokenKind::SecretTail);
            lemma_no_match_in_stretch(s, secret_prefix(), i, k);
            lemma_secret_pass_clean(s, e);
            lemma_no_match_across_marker(
                s.subrange(i, k),
                redacted_marker(),
                redact_after_pattern(s, p, redacted_marker(), TokenKind::SecretTail, e),
                p,
            );
        },
    }
}

/// A later pass that inserts a marker free of its characters leaves a text
/// without `SECRET_` without it.
proof fn lemma_pattern_pass_keeps_clean(
    s: Seq<char>,
    pat: Seq<char>,
    rep: Seq<char>,
    kind: TokenKind,
    i: int,
)
    requires
        0 <= i <= s.len(),
        pat.len() > 0,
        rep.len() > 0,
        forall|x: int| 0 <= x < rep.len() ==> rep[x] != 'S',
        forall|y: int| 0 <= y < secret_prefix().len() ==> secret_prefix()[y] != rep[0],
        forall|j: int| i <= j ==> !match_at(s, j, secret_prefix()),
    ensures
        !crate::text::contains(redact_after_pattern(s, pat, rep, kind, i), secret_prefix()),
    decreases s.len() - i,
{
    lemma_find_from_spec(s, pat, i);
    match find_from(s, pat, i) {
        None => {
            lemma_no_match_in_stretch(s, secret_prefix(), i, s.len() as int);
        },
        Some(k) => {
            let e = token_end(s, k + pat.len(), kind);
            lemma_token_end_bounds(s, k + pat.len(), kind);
            lemma_no_match_in_stretch(s, secret_prefix(), i, k);
            lemma_pattern_pass_keeps_clean(s, pat, rep, kind, e);
            lemma_no_match_across_marker(
                s.subrange(i, k),
                rep,
                redact_after_pattern(s, pat, rep, kind, e),
                secret_prefix(),
            );
        },
    }
}

/// The URL pass leaves a text without `SECRET_` without it.
proof fn lemma_url_pass_keeps_clean(s: Seq<char>, i: int)
    requires
        0 <= i <= s.len(),
        forall|j: int| i <= j ==> !match_at(s, j, secret_prefix()),
    ensures
        !crate::text::contains(redact_urls_from(s, i), secret_prefix()),
    decreases s.len() - i,
{
    lemma_markers_cannot_form_secret();
    lemma_find_from_spec(s, https_prefix(), i);
    lemma_find_from_spec(s, http_prefix(), i);
    match find_url_from(s, i) {
        None => {
            lemma_no_match_in_stretch(s, secret_prefix(), i, s.len() as int);
        },
        Some(k) => {
            let e = token_end(s, k, TokenKind::UrlBody);
            lemma_token_end_bounds(s, k, TokenKind::UrlBody);
            if e > i && e <= s.len() && k >= i {
                lemma_no_match_in_stretch(s, secret_prefix(), i, k);
                lemma_url_pass_keeps_clean(s, e);
                lemma_no_match_across_marker(
                    s.subrange(i, k),
                    url_marker(),
                    redact_urls_from(s, e),
                    secret_prefix(),
                );
            }
        },
    }
}

/// Redaction leaves no `SECRET_` token behind, whatever the text: every one
/// is replaced, and the markers put in their place, or in place of bearer
/// tokens and URLs, cannot form a new one.
pub proof fn lemma_redaction_leaves_no_secret_token(s: Seq<char>)
    ensures
        !crate::text::contains(redacted_text(s), secret_prefix()),
{
    lemma_markers_cannot_form_secret();
    let a = redact_prefixed_secrets(s);
    lemma_secret_pass_clean(s, 0);
    assert forall|j: int| 0 <= j implies !match_at(a, j, secret_prefix()) by {
        if match_at(a, j, secret_prefix()) {
            assert(crate::text::contains(a, secret_prefix()));
        }
    }
    let b = redact_bearer_tokens(a);
    lemma_pattern_pass_keeps_clean(a, bearer_prefix(), bearer_replacement(), TokenKind::NonWhitespace, 0);
    assert forall|j: int| 0 <= j implies !match_at(b, j, secret_prefix()) by {
        if match_at(b, j, secret_prefix()) {
            assert(crate::text::contains(b, secret_prefix()));
        }
    }
    lemma_url_pass_keeps_clean(b, 0);
}


/// A text made of two parts without `p` and a marker between them holds no
/// `p` where the marker cannot start or hold its first character.
proof fn lemma_no_match_across_marker(a: Seq<char>, m: Seq<char>, b: Seq<char>, p: Seq<char>)
    requires
        !crate::text::contains(a, p),
        !crate::text::contains(b, p),
        m.len() > 0,
        p.len() > 0,
        forall|x: int| 0 <= x < m.len() ==> m[x] != p[0],
        forall|y: int| 0 <= y < p.len() ==> p[y] != m[0],
    ensures
        !crate::text::contains(a + m + b, p),
{
    let t = a + m + b;
    if crate::text::contains(t, p) {
        let j = choose|j: int| #[trigger] match_at(t, j, p);
        assert(t.subrange(j, j + p.len())[0] == t[j]);
        if j + p.len() <= a.len() {
            assert(t.subrange(j, j + p.len()) =~= a.subrange(j, j + p.len()));
            assert(match_at(a, j, p));
        } else if j >= a.len() + m.len() {
            let j2 = j - a.len() - m.len();
            assert(t.subrange(j, j + p.len()) =~= b.subrange(j2, j2 + p.len()));
            assert(match_at(b, j2, p));
        } else if j >= a.len() {
            assert(t[j] == m[j - a.len()]);
        } else {
            assert(t[a.len() as int] == m[0]);
            assert(t.subrange(j, j + p.len())[a.len() - j] == t[a.len() as int]);
        }
    }
}

/// A stretch of text with no match of `p` in it holds no `p`.
proof fn lemma_no_match_in_stretch(s: Seq<char>, p: Seq<char>, i: int, k: int)
    requires
        0 <= i <= k <= s.len(),
        p.len() > 0,
        forall|j: int| i <= j < k ==> !match_at(s, j, p),
    ensures
        !crate::text::contains(s.subrange(i, k), p),
{
    let t = s.subrange(i, k);
    if crate::text::contains(t, p) {
        let j = choose|j: int| #[trigger] match_at(t, j, p);
        assert(s.subrange(i + j, i + j + p.len()) =~= t.subrange(j, j + p.len()));
        assert(match_at(s, i + j, p));
    }
}

proof fn lemma_url_marker_shape()
    ensures
        forall|x: int| 0 <= x < url_marker().len() ==> url_marker()[x] != 'h',
        forall|y: int| 0 <= y < https_prefix().len() ==> https_prefix()[y] != '[',
        forall|y: int| 0 <= y < http_prefix().len() ==> http_prefix()[y] != '[',
        https_prefix()[0] == 'h' && http_prefix()[0] == 'h' && url_marker()[0] == '[',
{
}

/// The URL pass leaves neither `https://` nor `http://` in `s[i..]`.
proof fn lemma_url_pass_leaves_no_url(s: Seq<char>, i: int)
    requires
        0 <= i <= s.len(),
    ensures
        !crate::text::contains(redact_urls_from(s, i), https_prefix()),
        !crate::text::contains(redact_urls_from(s, i), http_prefix()),
    decreases s.len() - i,
{
    lemma_url_marker_shape();
    lemma_find_from_spec(s, https_prefix(), i);
    lemma_find_from_spec(s, http_prefix(), i);
    match find_url_from(s, i) {
        None => {
            lemma_no_match_in_stretch(s, https_prefix(), i, s.len() as int);
            lemma_no_match_in_stretch(s, http_prefix(), i, s.len() as int);
        },
        Some(k) => {
            let e = token_end(s, k, TokenKind::UrlBody);
            lemma_token_end_bounds(s, k, TokenKind::UrlBody);
            if e > i && e <= s.len() && k >= i {
                let rest = redact_urls_from(s, e);
                lemma_url_pass_leaves_no_url(s, e);
                lemma_no_match_in_stretch(s, https_prefix(), i, k);
                lemma_no_match_in_stretch(s, http_prefix(), i, k);
                lemma_no_match_across_marker(s.subrange(i, k), url_marker(), rest, https_prefix());
                lemma_no_match_across_marker(s.subrange(i, k), url_marker(), rest, http_prefix());
            }
        },
    }
}

/// Redaction leaves no URL behind: neither `https://` nor `http://` occurs in
/// what it returns, whatever the text.
pub proof fn lemma_redaction_leaves_no_url(s: Seq<char>)
    ensures
        !crate::text::contains(redacted_text(s), https_prefix()),
        !crate::text::contains(redacted_text(s), http_prefix()),
{
    lemma_url_pass_leaves_no_url(redact_bearer_tokens(redact_prefixed_secrets(s)), 0);
}

/// Text that holds none of `SECRET_`, `Bearer `, `https://` and `http://`
/// comes back from redaction unchanged.
pub proof fn lemma_clean_text_unchanged(s: Seq<char>)
    requires
        !crate::text::contains(s, secret_prefix()),
        !crate::text::contains(s, bearer_prefix()),
        !crate::text::contains(s, https_prefix()),
        !crate::text::contains(s, http_prefix()),
    ensures
        redacted_text(s) == s,
{
    lemma_no_occurrence_found(s, secret_prefix());
    lemma_no_occurrence_found(s, bearer_prefix());
    lemma_no_occurrence_found(s, https_prefix());
    lemma_no_occurrence_found(s, http_prefix());
    assert(s.subrange(0, s.len() as int) =~= s);
    assert(redact_prefixed_secrets(s) == s);
    assert(redact_bearer_tokens(s) == s);
}

/// A pattern that does not occur is not found.
proof fn lemma_no_occurrence_found(s: Seq<char>, p: Seq<char>)
    requires
        !crate::text::contains(s, p),
    ensures
        find_from(s, p, 0) is None,
{
    crate::text::lemma_find_from_spec(s, p, 0);
    if let Some(k) = find_from(s, p, 0) {
        assert(match_at(s, k, p));
    }
}

/// Every `Bearer ` in `t` is followed by `[redacted]` and then whitespace or
/// the end of the text: the shape the bearer pass leaves.
pub open spec fn bearer_sealed(t: Seq<char>) -> bool {
    forall|k: int|
        #[trigger] match_at(t, k, bearer_prefix()) ==> match_at(t, k, bearer_replacement()) && (k
            + 17 == t.len() || (k + 17 < t.len() && is_whitespace(t[k + 17])))
}

proof fn lemma_bearer_shapes()
    ensures
        bearer_prefix().len() == 7,
        bearer_replacement().len() == 17,
        bearer_replacement().subrange(0, 7) == bearer_prefix(),
        forall|x: int| 7 <= x < 17 ==> !is_whitespace(#[trigger] bearer_replacement()[x]),
        forall|x: int| 1 <= x < 17 ==> #[trigger] bearer_replacement()[x] != 'B',
        forall|x: int| 0 <= x < 17 ==> #[trigger] bearer_replacement()[x] != 'h',
        forall|x: int| 0 <= x < url_marker().len() ==> #[trigger] url_marker()[x] != 'B',
        forall|y: int| 0 <= y < 7 ==> #[trigger] bearer_prefix()[y] != '[',
        bearer_prefix()[0] == 'B',
        url_marker()[0] == '[',
        url_marker().len() == 14,
        https_prefix()[0] == 'h' && http_prefix()[0] == 'h',
{
    assert(bearer_replacement() =~= seq![
        'B', 'e', 'a', 'r', 'e', 'r', ' ', '[', 'r', 'e', 'd', 'a', 'c', 't', 'e', 'd', ']',
    ]);
    assert(bearer_replacement().subrange(0, 7) =~= bearer_prefix());
}

/// A run of characters that continue a token is skipped whole.
proof fn lemma_token_end_over_run(t: Seq<char>, a: int, b: int, kind: TokenKind)
    requires
        0 <= a <= b <= t.len(),
        forall|j: int| a <= j < b ==> continues(kind, #[trigger] t[j]),
    ensures
        token_end(t, a, kind) == token_end(t, b, kind),
    decreases b - a,
{
    if a < b {
        lemma_token_end_over_run(t, a + 1, b, kind);
    }
}

/// A token ends at the end of the text or at a character that does not
/// continue it.
proof fn lemma_token_end_stops(t: Seq<char>, a: int, kind: TokenKind)
    requires
        0 <= a <= t.len(),
    ensures
        token_end(t, a, kind) < t.len() ==> !continues(kind, t[token_end(t, a, kind)]),
    decreases t.len() - a,
{
    if a < t.len() && continues(kind, t[a]) {
        lemma_token_end_stops(t, a + 1, kind);
    }
}

/// The bearer pass changes nothing in a sealed text.
proof fn lemma_sealed_bearer_pass_fixed(t: Seq<char>, i: int)
    requires
        bearer_sealed(t),
        0 <= i <= t.len(),
    ensures
        redact_after_pattern(t, bearer_prefix(), bearer_replacement(), TokenKind::NonWhitespace, i)
            == t.subrange(i, t.len() as int),
    decreases t.len() - i,
{
    lemma_bearer_shapes();
    lemma_redact_after_pattern_step(t, bearer_prefix(), bearer_replacement(), TokenKind::NonWhitespace, i);
    lemma_find_from_spec(t, bearer_prefix(), i);
    if let Some(k) = find_from(t, bearer_prefix(), i) {
        assert(match_at(t, k, bearer_prefix()));
        assert(match_at(t, k, bearer_replacement()));
        assert forall|j: int| k + 7 <= j < k + 17 implies continues(
            TokenKind::NonWhitespace,
            #[trigger] t[j],
        ) by {
            assert(t[j] == t.subrange(k, k + 17)[j - k]);
            assert(t[j] == bearer_replacement()[j - k]);
        }
        lemma_token_end_over_run(t, k + 7, k + 17, TokenKind::NonWhitespace);
        assert(token_end(t, k + 7, TokenKind::NonWhitespace) == k + 17);
        lemma_sealed_bearer_pass_fixed(t, k + 17);
        assert(t.subrange(i, k) + bearer_replacement() + t.subrange(k + 17, t.len() as int)
            =~= t.subrange(i, t.len() as int));
    }
}

/// `X`, then the bearer replacement, then a sealed `Y` that starts with
/// whitespace, if with anything, is sealed, where no `Bearer ` starts in `X`
/// of `X` followed by the replacement.
proof fn lemma_sealed_concat(x: Seq<char>, y: Seq<char>)
    requires
        forall|j: int| 0 <= j < x.len() ==> !match_at(x + bearer_replacement(), j, bearer_prefix()),
        bearer_sealed(y),
        y.len() > 0 ==> is_whitespace(y[0]),
    ensures
        bearer_sealed(x + bearer_replacement() + y),
{
    lemma_bearer_shapes();
    let n = x.len() as int;
    let t = x + bearer_replacement() + y;
    assert forall|k: int| #[trigger] match_at(t, k, bearer_prefix()) implies match_at(
        t,
        k,
        bearer_replacement(),
    ) && (k + 17 == t.len() || (k + 17 < t.len() && is_whitespace(t[k + 17]))) by {
        assert(t.subrange(k, k + 7)[0] == t[k]);
        assert(t[k] == 'B');
        if k < n {
            assert(t.subrange(k, k + 7) =~= (x + bearer_replacement()).subrange(k, k + 7));
            assert(match_at(x + bearer_replacement(), k, bearer_prefix()));
        } else if k == n {
            assert(t.subrange(n, n + 17) =~= bearer_replacement());
            if y.len() > 0 {
                assert(t[n + 17] == y[0]);
            }
        } else if k < n + 17 {
            assert(t[k] == bearer_replacement()[k - n]);
        } else {
            let k2 = k - n - 17;
            assert(t.subrange(k, k + 7) =~= y.subrange(k2, k2 + 7));
            assert(match_at(y, k2, bearer_prefix()));
            assert(t.subrange(k, k + 17) =~= y.subrange(k2, k2 + 17));
            if k2 + 17 < y.len() {
                assert(t[k + 17] == y[k2 + 17]);
            }
        }
    }
}

/// Before the first `Bearer ` at or after `i`, the text up to it followed by
/// the replacement holds no `Bearer `.
proof fn lemma_no_bearer_before_match(a: Seq<char>, i: int, k: int)
    requires
        0 <= i <= k,
        match_at(a, k, bearer_prefix()),
        forall|j: int| i <= j < k ==> !match_at(a, j, bearer_prefix()),
    ensures
        forall|j: int|
            0 <= j < k - i ==> !match_at(
                a.subrange(i, k) + bearer_replacement(),
                j,
                bearer_prefix(),
            ),
{
    assert forall|j: int| 0 <= j < k - i implies !match_at(
        a.subrange(i, k) + bearer_replacement(),
        j,
        bearer_prefix(),
    ) by {
        lemma_no_bearer_at(a, i, k, j);
    }
}

#[verifier::rlimit(40)]
proof fn lemma_no_bearer_at(a: Seq<char>, i: int, k: int, j: int)
    requires
        0 <= i <= k,
        0 <= j < k - i,
        match_at(a, k, bearer_prefix()),
        !match_at(a, i + j, bearer_prefix()),
    ensures
        !match_at(a.subrange(i, k) + bearer_replacement(), j, bearer_prefix()),
{
    let p = bearer_prefix();
    let rep = bearer_replacement();
    let t = a.subrange(i, k) + rep;
    assert(p.len() == 7);
    assert(rep.subrange(0, 7) =~= p);
    if match_at(t, j, p) {
        assert forall|m: int| 0 <= m < 7 implies #[trigger] a.subrange(i + j, i + j + 7)[m]
            == t.subrange(j, j + 7)[m] by {
            if j + m < k - i {
                assert(t[j + m] == a[i + j + m]);
            } else {
                let o = j + m - (k - i);
                assert(t[j + m] == rep[o]);
                assert(rep[o] == p[o]);
                assert(a.subrange(k, k + 7)[o] == a[k + o]);
            }
        }
        assert(a.subrange(i + j, i + j + 7) =~= t.subrange(j, j + 7));
    }
}

/// The bearer pass leaves a sealed text, which starts with what the input
/// starts with where that is not a `B`, and is empty at the end.
proof fn lemma_bearer_pass_seals(a: Seq<char>, i: int)
    requires
        0 <= i <= a.len(),
    ensures
        bearer_sealed(
            redact_after_pattern(a, bearer_prefix(), bearer_replacement(), TokenKind::NonWhitespace, i),
        ),
        i == a.len() ==> redact_after_pattern(
            a,
            bearer_prefix(),
            bearer_replacement(),
            TokenKind::NonWhitespace,
            i,
        ).len() == 0,
        i < a.len() && a[i] != 'B' ==> redact_after_pattern(
            a,
            bearer_prefix(),
            bearer_replacement(),
            TokenKind::NonWhitespace,
            i,
        ).len() > 0 && redact_after_pattern(
            a,
            bearer_prefix(),
            bearer_replacement(),
            TokenKind::NonWhitespace,
            i,
        )[0] == a[i],
    decreases a.len() - i,
{
    lemma_bearer_shapes();
    let p = bearer_prefix();
    let rep = bearer_replacement();
    lemma_redact_after_pattern_step(a, p, rep, TokenKind::NonWhitespace, i);
    lemma_find_from_spec(a, p, i);
    match find_from(a, p, i) {
        None => {
            lemma_no_match_in_stretch(a, p, i, a.len() as int);
            let t = a.subrange(i, a.len() as int);
            assert forall|k: int| #[trigger] match_at(t, k, p) implies false by {
                assert(crate::text::contains(t, p));
            }
        },
        Some(k) => {
            let e = token_end(a, k + 7, TokenKind::NonWhitespace);
            let x = a.subrange(i, k);
            let y = redact_after_pattern(a, p, rep, TokenKind::NonWhitespace, e);
            lemma_bearer_pass_seals(a, e);
            lemma_token_end_stops(a, k + 7, TokenKind::NonWhitespace);
            if e < a.len() {
                assert(a[e] != 'B');
            }
            lemma_no_bearer_before_match(a, i, k);
            lemma_sealed_concat(x, y);
            if a[i] != 'B' {
                assert(k != i);
                assert((x + rep + y)[0] == a[i]);
            }
        },
    }
}

/// The URL pass keeps a sealed text sealed.
proof fn lemma_url_pass_keeps_sealed(b: Seq<char>, i: int)
    requires
        bearer_sealed(b),
        0 <= i <= b.len(),
    ensures
        bearer_sealed(redact_urls_from(b, i)),
    decreases b.len() - i,
{
    lemma_bearer_shapes();
    let p = bearer_prefix();
    lemma_find_from_spec(b, https_prefix(), i);
    lemma_find_from_spec(b, http_prefix(), i);
    let out = redact_urls_from(b, i);
    match find_url_from(b, i) {
        None => {
            let t = b.subrange(i, b.len() as int);
            assert forall|k: int| #[trigger] match_at(t, k, p) implies match_at(
                t,
                k,
                bearer_replacement(),
            ) && (k + 17 == t.len() || (k + 17 < t.len() && is_whitespace(t[k + 17]))) by {
                assert(t.subrange(k, k + 7) =~= b.subrange(i + k, i + k + 7));
                assert(match_at(b, i + k, p));
                assert(t.subrange(k, k + 17) =~= b.subrange(i + k, i + k + 17));
                if k + 17 < t.len() {
                    assert(t[k + 17] == b[i + k + 17]);
                }
            }
        },
        Some(k) => {
            let e = token_end(b, k, TokenKind::UrlBody);
            lemma_token_end_bounds(b, k, TokenKind::UrlBody);
            if e > i && e <= b.len() && k >= i {
                assert(b.subrange(k, k + 7)[0] == b[k]);
                assert(b[k] == 'h');
                lemma_url_pass_keeps_sealed(b, e);
                let x = b.subrange(i, k);
                let y = redact_urls_from(b, e);
                let m = url_marker();
                let n = x.len() as int;
                assert(out == x + m + y);
                assert forall|j: int| #[trigger] match_at(out, j, p) implies match_at(
                    out,
                    j,
                    bearer_replacement(),
                ) && (j + 17 == out.len() || (j + 17 < out.len() && is_whitespace(out[j + 17])))
                    by {
                    assert(out.subrange(j, j + 7)[0] == out[j]);
                    if j < n {
                        if j + 7 > n {
                            assert(out[n] == m[0]);
                            assert(out.subrange(j, j + 7)[n - j] == out[n]);
                        }
                        assert(out.subrange(j, j + 7) =~= b.subrange(i + j, i + j + 7));
                        assert(match_at(b, i + j, p));
                        let q = i + j;
                        assert(b.subrange(q, q + 17) == bearer_replacement());
                        if k <= q + 16 {
                            assert(b[k] == b.subrange(q, q + 17)[k - q]);
                        }
                        if k == q + 17 {
                            assert(is_whitespace(b[q + 17]));
                        }
                        assert(out.subrange(j, j + 17) =~= b.subrange(q, q + 17));
                        assert(out[j + 17] == b[q + 17]);
                    } else if j < n + 14 {
                        assert(out[j] == m[j - n]);
                    } else {
                        let j2 = j - n - 14;
                        assert(out.subrange(j, j + 7) =~= y.subrange(j2, j2 + 7));
                        assert(match_at(y, j2, p));
                        assert(out.subrange(j, j + 17) =~= y.subrange(j2, j2 + 17));
                        if j2 + 17 < y.len() {
                            assert(out[j + 17] == y[j2 + 17]);
                        }
                    }
                }
            }
        },
    }
}

/// Redacting twice changes nothing: what redaction returns is already
/// redacted.
pub proof fn lemma_redaction_idempotent(s: Seq<char>)
    ensures
        redacted_text(redacted_text(s)) == redacted_text(s),
{
    let r = redacted_text(s);
    let a = redact_prefixed_secrets(s);
    let b = redact_bearer_tokens(a);
    lemma_bearer_pass_seals(a, 0);
    lemma_url_pass_keeps_sealed(b, 0);
    lemma_redaction_leaves_no_secret_token(s);
    lemma_redaction_leaves_no_url(s);
    lemma_no_occurrence_found(r, secret_prefix());
    lemma_no_occurrence_found(r, https_prefix());
    lemma_no_occurrence_found(r, http_prefix());
    assert(r.subrange(0, r.len() as int) =~= r);
    assert(redact_prefixed_secrets(r) == r);
    lemma_sealed_bearer_pass_fixed(r, 0);
    assert(redact_bearer_tokens(r) == r);
}

} // verus!
