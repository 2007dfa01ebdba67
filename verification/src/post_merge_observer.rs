//! Post-merge observer publication: which public replies a sealed
//! post-merge receipt amounts to, what text they may carry, and the local
//! ledger that keeps each publication from being made twice.
use vstd::prelude::*;

use crate::target_runner::{join_spaces, join_with_spaces, opt_text, texts, Reference};
use crate::text::{
    ascii_uppercase, blank_str, chars_of, concat, concat3, extend_str, is_blank, is_whitespace,
    starts_with, starts_with_chars, str_eq, string_of, strings_contain, text_views,
    uppercase_ascii, whitespace,
};

verus! {

// ---------------------------------------------------------------------------
// The publication ledger
// ---------------------------------------------------------------------------

/// The publication keys that were published, each once.
#[derive(Clone, Debug)]
pub struct PostMergeObserverPublicationLedger {
    published_keys: Vec<String>,
}

impl View for PostMergeObserverPublicationLedger {
    type V = Set<Seq<char>>;

    closed spec fn view(&self) -> Set<Seq<char>> {
        text_views(self.published_keys@).to_set()
    }
}

impl PostMergeObserverPublicationLedger {
    /// An empty ledger.
    pub fn new() -> (l: Self)
        ensures
            l@ == Set::<Seq<char>>::empty(),
    {
        let l = PostMergeObserverPublicationLedger { published_keys: Vec::new() };
        assert(text_views(l.published_keys@).to_set() =~= Set::<Seq<char>>::empty());
        l
    }

    /// Whether the key was published.
    pub fn contains(&self, publication_key: &str) -> (b: bool)
        ensures
            b == self@.contains(publication_key@),
    {
        strings_contain(&self.published_keys, publication_key)
    }

    fn mark_published(&mut self, publication_key: &str)
        ensures
            final(self)@ == old(self)@.insert(publication_key@),
    {
        let ghost before = text_views(self.published_keys@);
        proof {
            before.lemma_push_to_set_commute(publication_key@);
        }
        self.published_keys.push(publication_key.to_owned());
        assert(text_views(self.published_keys@) =~= before.push(publication_key@));
    }
}

// ---------------------------------------------------------------------------
// Decisions, commands and errors
// ---------------------------------------------------------------------------

#[derive(Clone, Copy, Debug, PartialEq, Eq, Structural)]
pub enum PostMergeObserverPublicationRuntimeDecision {
    Publish,
    AlreadyPublished,
}

/// What the dedupe plan of a sealed receipt decided.
#[derive(Clone, Copy, Debug, PartialEq, Eq, Structural)]
pub enum PostMergeObserverRuntimeDecision {
    SealAndPublish,
    AlreadyPublished,
}

/// How a sealed post-merge receipt is published at most once: the lock
/// and publication keys its idempotency gives, and the reference to it.
#[derive(Clone, Debug)]
pub struct PostMergeObserverRuntimeDedupePlan {
    pub decision: PostMergeObserverRuntimeDecision,
    pub signal_source: String,
    pub lock_key: String,
    pub receipt_id: String,
    pub receipt_ref: Reference,
    pub receipt_observed_at: String,
    pub publication_key: String,
    pub content_hash: String,
}

/// A sealed post-merge harness receipt, as its publication reads it.
#[derive(Clone, Debug)]
pub struct PostMergeSealedReceipt {
    pub id: String,
    pub reason_code: String,
    pub digest: String,
    pub closed_at: String,
    pub intent_key: String,
    pub content_hash: String,
}

/// What a sealed post-merge receipt says publicly.
#[derive(Clone, Debug)]
pub struct PostMergeObserverPublicationProjection {
    pub harness_receipt_ref: Reference,
    pub source_issue_ref: Reference,
    pub source_thread_ref: Option<Reference>,
    pub pull_request_ref: Reference,
    pub summary: String,
    pub merge_sha: Option<String>,
    pub reason_code: String,
    pub verification_criterion_id: Option<String>,
    pub verification_summary: Option<String>,
    pub proof_criterion_id: String,
    pub close_authorized: bool,
    pub closes_source_issue: bool,
}

#[derive(Clone, Debug)]
pub enum PostMergeObserverPublicationCommand {
    SourceIssueComment {
        publication_key: String,
        target: Reference,
        receipt_ref: Reference,
        body: String,
    },
    SourceThreadReply {
        publication_key: String,
        target: Reference,
        receipt_ref: Reference,
        body: String,
    },
    SourceIssueClose {
        publication_key: String,
        target: Reference,
        receipt_ref: Reference,
        reason_code: String,
    },
}

#[derive(Clone, Debug)]
pub struct PostMergeObserverPublicationRuntime {
    pub decision: PostMergeObserverPublicationRuntimeDecision,
    pub publication_key: String,
    pub receipt_ref: Reference,
    pub commands: Vec<PostMergeObserverPublicationCommand>,
}

/// A failed adapter operation and why.
#[derive(Clone, Debug, PartialEq, Eq)]
pub struct PostMergeObserverAdapterError {
    pub operation: &'static str,
    pub message: String,
}

impl PostMergeObserverAdapterError {
    pub fn new(operation: &'static str, message: &str) -> (e: Self)
        ensures
            e.operation@ == operation@,
            e.message@ == message@,
    {
        PostMergeObserverAdapterError { operation, message: message.to_owned() }
    }

    /// `<operation> failed: <message>`.
    pub fn to_message(&self) -> (r: String)
        ensures
            r@ == self.operation@ + " failed: "@ + self.message@,
    {
        concat3(self.operation, " failed: ", self.message.as_str())
    }
}

#[derive(Clone, Debug)]
pub enum PostMergeObserverRuntimeError {
    Adapter(PostMergeObserverAdapterError),
    Projection(String),
    ObservedClosureMismatch { observed_reason_code: String, receipt_reason_code: String },
    ReceiptMismatch { dedupe_receipt_id: String, receipt_id: String },
    ReceiptRefMismatch { dedupe_receipt_ref: String, receipt_ref: String },
    MissingSourceThreadTarget,
    MissingSourceThreadMetadata,
}

/// The observed closure must be the one the receipt sealed.
pub fn check_observed_closure(observed_reason_code: &str, receipt_reason_code: &str) -> (r: Result<
    (),
    PostMergeObserverRuntimeError,
>)
    ensures
        r is Ok <==> observed_reason_code@ == receipt_reason_code@,
        r matches Err(e) ==> e matches PostMergeObserverRuntimeError::ObservedClosureMismatch {
            observed_reason_code: o,
            receipt_reason_code: s,
        } && o@ == observed_reason_code@ && s@ == receipt_reason_code@,
{
    if str_eq(observed_reason_code, receipt_reason_code) {
        Ok(())
    } else {
        Err(
            PostMergeObserverRuntimeError::ObservedClosureMismatch {
                observed_reason_code: observed_reason_code.to_owned(),
                receipt_reason_code: receipt_reason_code.to_owned(),
            },
        )
    }
}

// ---------------------------------------------------------------------------
// The dedupe plan of a sealed receipt
// ---------------------------------------------------------------------------

/// The dedupe plan of a sealed receipt: lock on its content, publish under
/// its intent and content.
pub fn sealed_receipt_dedupe_plan(receipt: &PostMergeSealedReceipt, signal_source: &str) -> (p:
    PostMergeObserverRuntimeDedupePlan)
    ensures
        p.decision == PostMergeObserverRuntimeDecision::SealAndPublish,
        p.signal_source@ == signal_source@,
        p.lock_key@ == "post-merge-observer:"@ + receipt.content_hash@,
        p.receipt_id@ == receipt.id@,
        p.receipt_ref@ == (
            "harness_receipt"@,
            "runx:harness_receipt:"@ + receipt.id@,
            None::<Seq<char>>,
            Some(receipt.digest@),
            Some("post-merge observer harness receipt"@),
        ),
        p.receipt_observed_at@ == receipt.closed_at@,
        p.publication_key@ == "post-merge-publication:"@ + receipt.intent_key@ + ":"@
            + receipt.content_hash@,
        p.content_hash@ == receipt.content_hash@,
{
    let publication_prefix = concat3(
        "post-merge-publication:",
        receipt.intent_key.as_str(),
        ":",
    );
    PostMergeObserverRuntimeDedupePlan {
        decision: PostMergeObserverRuntimeDecision::SealAndPublish,
        signal_source: signal_source.to_owned(),
        lock_key: concat("post-merge-observer:", receipt.content_hash.as_str()),
        receipt_id: receipt.id.clone(),
        receipt_ref: Reference {
            reference_type: "harness_receipt".to_owned(),
            uri: concat("runx:harness_receipt:", receipt.id.as_str()),
            provider: None,
            locator: Some(receipt.digest.clone()),
            label: Some("post-merge observer harness receipt".to_owned()),
        },
        receipt_observed_at: receipt.closed_at.clone(),
        publication_key: concat(publication_prefix.as_str(), receipt.content_hash.as_str()),
        content_hash: receipt.content_hash.clone(),
    }
}

// ---------------------------------------------------------------------------
// Public text
// ---------------------------------------------------------------------------

/// The whitespace-separated words of a text, in order.
pub open spec fn words(s: Seq<char>) -> Seq<Seq<char>>
    decreases s.len(),
{
    if s.len() == 0 {
        Seq::empty()
    } else {
        let w = words(s.drop_last());
        let c = s.last();
        if is_whitespace(c) {
            w
        } else if s.len() >= 2 && !is_whitespace(s[s.len() - 2]) {
            w.drop_last().push(w.last().push(c))
        } else {
            w.push(seq![c])
        }
    }
}

proof fn lemma_words_nonempty(s: Seq<char>)
    requires
        s.len() > 0,
        !is_whitespace(s.last()),
    ensures
        words(s).len() > 0,
    decreases s.len(),
{
    if s.len() >= 2 && !is_whitespace(s[s.len() - 2]) {
        let t = s.drop_last();
        assert(t.last() == s[s.len() - 2]);
        lemma_words_nonempty(t);
    }
}

/// The punctuation that is trimmed from the ends of a word before it is
/// checked.
pub open spec fn is_edge_punctuation(c: char) -> bool {
    c == '.' || c == ',' || c == ';' || c == ':' || c == ')' || c == '(' || c == '"' || c
        == '\'' || c == '[' || c == ']'
}

pub open spec fn punct_prefix_end(s: Seq<char>, i: int) -> int
    decreases s.len() - i,
{
    if 0 <= i < s.len() && is_edge_punctuation(s[i]) {
        punct_prefix_end(s, i + 1)
    } else {
        i
    }
}

pub open spec fn punct_suffix_start(s: Seq<char>, j: int, lo: int) -> int
    decreases j - lo,
{
    if lo < j <= s.len() && is_edge_punctuation(s[j - 1]) {
        punct_suffix_start(s, j - 1, lo)
    } else {
        j
    }
}

/// A word without edge punctuation (`trim_matches`).
pub open spec fn strip_edge_punctuation(s: Seq<char>) -> Seq<char> {
    let a = punct_prefix_end(s, 0);
    let b = punct_suffix_start(s, s.len() as int, a);
    if a <= b && b <= s.len() {
        s.subrange(a, b)
    } else {
        Seq::empty()
    }
}

/// A word that names a local path or a credential assignment.
pub open spec fn is_private_word(t: Seq<char>) -> bool {
    let upper = ascii_uppercase(t);
    starts_with(t, "/Users/"@) || starts_with(t, "/home/"@) || starts_with(t, "/var/folders/"@)
        || starts_with(t, "/private/"@) || starts_with(upper, "TOKEN="@) || starts_with(
        upper,
        "SECRET="@,
    ) || starts_with(upper, "PASSWORD="@) || starts_with(upper, "API_KEY="@) || starts_with(
        upper,
        "OPENAI_API_KEY="@,
    )
}

/// A word as it may appear publicly.
pub open spec fn sanitize_token_spec(token: Seq<char>) -> Seq<char> {
    if is_private_word(strip_edge_punctuation(token)) {
        "[redacted]"@
    } else {
        token
    }
}

/// A text as it may appear publicly: its words, each sanitized, joined by
/// single spaces.
pub open spec fn sanitize_public_text_spec(text: Seq<char>) -> Seq<char> {
    join_spaces(words(text).map_values(|w: Seq<char>| sanitize_token_spec(w)))
}

fn strip_edge_punctuation_exec(s: &Vec<char>) -> (r: Vec<char>)
    ensures
        r@ == strip_edge_punctuation(s@),
{
    let mut a: usize = 0;
    while a < s.len() && is_edge_punct(s[a])
        invariant
            a <= s.len(),
            punct_prefix_end(s@, 0) == punct_prefix_end(s@, a as int),
        decreases s.len() - a,
    {
        a += 1;
    }
    let mut b: usize = s.len();
    while b > a && is_edge_punct(s[b - 1])
        invariant
            a <= b <= s.len(),
            punct_suffix_start(s@, s@.len() as int, a as int) == punct_suffix_start(
                s@,
                b as int,
                a as int,
            ),
        decreases b - a,
    {
        b -= 1;
    }
    crate::text::slice_of(s, a, b)
}

fn is_edge_punct(c: char) -> (b: bool)
    ensures
        b == is_edge_punctuation(c),
{
    c == '.' || c == ',' || c == ';' || c == ':' || c == ')' || c == '(' || c == '"' || c == '\''
        || c == '[' || c == ']'
}

fn has_prefix(t: &Vec<char>, p: &str) -> (b: bool)
    ensures
        b == starts_with(t@, p@),
{
    starts_with_chars(t, &chars_of(p))
}

/// A word as it may appear publicly.
pub fn sanitize_token(token: &str) -> (r: String)
    ensures
        r@ == sanitize_token_spec(token@),
{
    let chars = chars_of(token);
    let t = strip_edge_punctuation_exec(&chars);
    let upper = uppercase_ascii(&t);
    if has_prefix(&t, "/Users/") || has_prefix(&t, "/home/") || has_prefix(&t, "/var/folders/")
        || has_prefix(&t, "/private/") || has_prefix(&upper, "TOKEN=") || has_prefix(
        &upper,
        "SECRET=",
    ) || has_prefix(&upper, "PASSWORD=") || has_prefix(&upper, "API_KEY=") || has_prefix(
        &upper,
        "OPENAI_API_KEY=",
    ) {
        "[redacted]".to_owned()
    } else {
        token.to_owned()
    }
}

/// The words of a text.
fn split_words(text: &str) -> (r: Vec<String>)
    ensures
        texts(r@) == words(text@),
{
    let s = chars_of(text);
    let mut out: Vec<String> = Vec::new();
    let mut cur: Vec<char> = Vec::new();
    let mut in_word = false;
    let mut i: usize = 0;
    while i < s.len()
        invariant
            i <= s@.len(),
            in_word == (i > 0 && !is_whitespace(s@[i - 1])),
            in_word ==> words(s@.take(i as int)) == texts(out@).push(cur@),
            !in_word ==> words(s@.take(i as int)) == texts(out@),
        decreases s.len() - i,
    {
        let c = s[i];
        let ghost prev = s@.take(i as int);
        let ghost next = s@.take(i + 1);
        assert(next.drop_last() =~= prev);
        assert(next.last() == c);
        if whitespace(c) {
            if in_word {
                let word = string_of(&cur);
                let ghost before = texts(out@);
                out.push(word);
                assert(texts(out@) =~= before.push(cur@));
                cur = Vec::new();
            }
            in_word = false;
        } else {
            if in_word {
                assert(next[next.len() - 2] == s@[i - 1]);
                let ghost w = words(prev);
                assert(w.drop_last() =~= texts(out@));
                cur.push(c);
                assert(words(next) =~= texts(out@).push(cur@));
            } else {
                if i > 0 {
                    assert(next[next.len() - 2] == s@[i - 1]);
                }
                cur = Vec::new();
                cur.push(c);
                assert(cur@ =~= seq![c]);
            }
            in_word = true;
        }
        i += 1;
    }
    assert(s@.take(s@.len() as int) =~= s@);
    if in_word {
        let word = string_of(&cur);
        let ghost before = texts(out@);
        out.push(word);
        assert(texts(out@) =~= before.push(cur@));
    }
    out
}

/// A text as it may appear publicly: local paths and credential
/// assignments are redacted word by word, and whitespace runs become
/// single spaces.
pub fn sanitize_public_text(text: &str) -> (r: String)
    ensures
        r@ == sanitize_public_text_spec(text@),
{
    let ws = split_words(text);
    let mut out: Vec<String> = Vec::new();
    let mut i: usize = 0;
    while i < ws.len()
        invariant
            i <= ws@.len(),
            out@.len() == i,
            forall|j: int| 0 <= j < i ==> (#[trigger] out@[j])@ == sanitize_token_spec(ws@[j]@),
        decreases ws.len() - i,
    {
        out.push(sanitize_token(ws[i].as_str()));
        i += 1;
    }
    assert(texts(out@) =~= words(text@).map_values(|w: Seq<char>| sanitize_token_spec(w))) by {
        assert(texts(ws@) == words(text@));
        assert forall|j: int| 0 <= j < out@.len() implies texts(out@)[j] == words(text@).map_values(
            |w: Seq<char>| sanitize_token_spec(w),
        )[j] by {
            assert(texts(ws@)[j] == ws@[j]@);
        }
    }
    join_with_spaces(&out)
}

// ---------------------------------------------------------------------------
// Publication commands
// ---------------------------------------------------------------------------

/// A projection closes its source issue only where the close is
/// authorized and its disposition is to close.
pub open spec fn closes_issue(p: PostMergeObserverPublicationProjection) -> bool {
    p.close_authorized && p.closes_source_issue
}

/// What a human does next after the publication.
pub open spec fn next_human_action_spec(p: PostMergeObserverPublicationProjection) -> Seq<char> {
    if closes_issue(p) {
        "none"@
    } else if p.reason_code@ == "failed_verification"@ {
        "review_failed_verification"@
    } else if p.reason_code@ == "merged_pending_verification"@ {
        "wait_for_verification"@
    } else {
        "review_source_issue"@
    }
}

pub fn next_human_action(p: &PostMergeObserverPublicationProjection) -> (r: &'static str)
    ensures
        r@ == next_human_action_spec(*p),
{
    if p.close_authorized && p.closes_source_issue {
        return "none";
    }
    if str_eq(p.reason_code.as_str(), "failed_verification") {
        "review_failed_verification"
    } else if str_eq(p.reason_code.as_str(), "merged_pending_verification") {
        "wait_for_verification"
    } else {
        "review_source_issue"
    }
}

pub open spec fn or_text(value: Option<String>, fallback: Seq<char>) -> Seq<char> {
    match value {
        Some(v) => v@,
        None => fallback,
    }
}

/// The reply, before it is sanitized.
pub open spec fn reply_text(p: PostMergeObserverPublicationProjection) -> Seq<char> {
    "Post-merge observer: "@ + p.summary@ + ". Source issue: "@ + p.source_issue_ref.uri@
        + ". Target PR: "@ + p.pull_request_ref.uri@ + ". Merge: "@ + or_text(
        p.merge_sha,
        "not_available"@,
    ) + ". Review gate: external_human. Closure: "@ + p.reason_code@ + ". Verification: "@
        + or_text(p.verification_criterion_id, "not_required"@) + ". Verification summary: "@
        + or_text(p.verification_summary, "not_required"@) + ". Proof: "@ + p.proof_criterion_id@
        + ". Next: "@ + next_human_action_spec(p) + ". Receipt: "@ + p.harness_receipt_ref.uri@
        + "."@
}

fn or_str<'a>(value: &'a Option<String>, fallback: &'a str) -> (r: &'a str)
    ensures
        r@ == or_text(*value, fallback@),
{
    match value {
        Some(v) => v.as_str(),
        None => fallback,
    }
}

/// The public reply of a projection.
pub fn public_reply_body(p: &PostMergeObserverPublicationProjection) -> (r: String)
    ensures
        r@ == sanitize_public_text_spec(reply_text(*p)),
{
    let mut out = chars_of("Post-merge observer: ");
    extend_str(&mut out, p.summary.as_str());
    extend_str(&mut out, ". Source issue: ");
    extend_str(&mut out, p.source_issue_ref.uri.as_str());
    extend_str(&mut out, ". Target PR: ");
    extend_str(&mut out, p.pull_request_ref.uri.as_str());
    extend_str(&mut out, ". Merge: ");
    extend_str(&mut out, or_str(&p.merge_sha, "not_available"));
    extend_str(&mut out, ". Review gate: external_human. Closure: ");
    extend_str(&mut out, p.reason_code.as_str());
    extend_str(&mut out, ". Verification: ");
    extend_str(&mut out, or_str(&p.verification_criterion_id, "not_required"));
    extend_str(&mut out, ". Verification summary: ");
    extend_str(&mut out, or_str(&p.verification_summary, "not_required"));
    extend_str(&mut out, ". Proof: ");
    extend_str(&mut out, p.proof_criterion_id.as_str());
    extend_str(&mut out, ". Next: ");
    extend_str(&mut out, next_human_action(p));
    extend_str(&mut out, ". Receipt: ");
    extend_str(&mut out, p.harness_receipt_ref.uri.as_str());
    extend_str(&mut out, ".");
    assert(out@ =~= reply_text(*p));
    sanitize_public_text(string_of(&out).as_str())
}

/// A source thread a reply can reach: a Slack thread with a provider and a
/// locator.
pub open spec fn thread_target_fault(thread: Reference) -> Option<PostMergeObserverRuntimeError> {
    if thread.reference_type@ != "slack_thread"@ {
        Some(PostMergeObserverRuntimeError::MissingSourceThreadTarget)
    } else if is_blank(or_text(thread.provider, Seq::empty())) || is_blank(
        or_text(thread.locator, Seq::empty()),
    ) {
        Some(PostMergeObserverRuntimeError::MissingSourceThreadMetadata)
    } else {
        None
    }
}

fn require_source_thread_metadata(thread: &Reference) -> (r: Result<
    (),
    PostMergeObserverRuntimeError,
>)
    ensures
        match thread_target_fault(*thread) {
            Some(e) => r == Err::<(), PostMergeObserverRuntimeError>(e),
            None => r is Ok,
        },
{
    if !str_eq(thread.reference_type.as_str(), "slack_thread") {
        return Err(PostMergeObserverRuntimeError::MissingSourceThreadTarget);
    }
    let provider = or_str(&thread.provider, "");
    let locator = or_str(&thread.locator, "");
    proof {
        reveal_strlit("");
    }
    if blank_str(provider) || blank_str(locator) {
        return Err(PostMergeObserverRuntimeError::MissingSourceThreadMetadata);
    }
    Ok(())
}

/// A command as text: its kind (comment, reply, close), publication key,
/// target, receipt reference, and body or reason.
pub open spec fn command_view(c: PostMergeObserverPublicationCommand) -> (
    int,
    Seq<char>,
    (Seq<char>, Seq<char>, Option<Seq<char>>, Option<Seq<char>>, Option<Seq<char>>),
    (Seq<char>, Seq<char>, Option<Seq<char>>, Option<Seq<char>>, Option<Seq<char>>),
    Seq<char>,
) {
    match c {
        PostMergeObserverPublicationCommand::SourceIssueComment {
            publication_key,
            target,
            receipt_ref,
            body,
        } => (0, publication_key@, target@, receipt_ref@, body@),
        PostMergeObserverPublicationCommand::SourceThreadReply {
            publication_key,
            target,
            receipt_ref,
            body,
        } => (1, publication_key@, target@, receipt_ref@, body@),
        PostMergeObserverPublicationCommand::SourceIssueClose {
            publication_key,
            target,
            receipt_ref,
            reason_code,
        } => (2, publication_key@, target@, receipt_ref@, reason_code@),
    }
}

/// The commands of a publication: a comment on the source issue, a reply in
/// the source thread, and a close of the issue where the projection closes
/// it.
pub open spec fn commands_spec(key: Seq<char>, p: PostMergeObserverPublicationProjection) -> Seq<
    (
        int,
        Seq<char>,
        (Seq<char>, Seq<char>, Option<Seq<char>>, Option<Seq<char>>, Option<Seq<char>>),
        (Seq<char>, Seq<char>, Option<Seq<char>>, Option<Seq<char>>, Option<Seq<char>>),
        Seq<char>,
    ),
> {
    let body = sanitize_public_text_spec(reply_text(p));
    let base = seq![
        (0int, key, p.source_issue_ref@, p.harness_receipt_ref@, body),
        (1int, key, p.source_thread_ref->Some_0@, p.harness_receipt_ref@, body),
    ];
    if closes_issue(p) {
        base.push((2int, key, p.source_issue_ref@, p.harness_receipt_ref@, p.reason_code@))
    } else {
        base
    }
}

pub open spec fn command_views(cs: Seq<PostMergeObserverPublicationCommand>) -> Seq<
    (
        int,
        Seq<char>,
        (Seq<char>, Seq<char>, Option<Seq<char>>, Option<Seq<char>>, Option<Seq<char>>),
        (Seq<char>, Seq<char>, Option<Seq<char>>, Option<Seq<char>>, Option<Seq<char>>),
        Seq<char>,
    ),
> {
    cs.map_values(|c: PostMergeObserverPublicationCommand| command_view(c))
}

/// Why a projection cannot be published, if it cannot.
pub open spec fn commands_fault(p: PostMergeObserverPublicationProjection) -> Option<
    PostMergeObserverRuntimeError,
> {
    match p.source_thread_ref {
        None => Some(PostMergeObserverRuntimeError::MissingSourceThreadTarget),
        Some(thread) => thread_target_fault(thread),
    }
}

fn publication_commands(publication_key: &str, p: &PostMergeObserverPublicationProjection) -> (r:
    Result<Vec<PostMergeObserverPublicationCommand>, PostMergeObserverRuntimeError>)
    ensures
        match commands_fault(*p) {
            Some(e) => r == Err::<Vec<PostMergeObserverPublicationCommand>, PostMergeObserverRuntimeError>(e),
            None => r matches Ok(cs) && command_views(cs@) == commands_spec(publication_key@, *p),
        },
{
    let thread = match &p.source_thread_ref {
        Some(t) => t,
        None => return Err(PostMergeObserverRuntimeError::MissingSourceThreadTarget),
    };
    if let Err(e) = require_source_thread_metadata(thread) {
        return Err(e);
    }
    let body = public_reply_body(p);
    let mut commands: Vec<PostMergeObserverPublicationCommand> = Vec::new();
    commands.push(
        PostMergeObserverPublicationCommand::SourceIssueComment {
            publication_key: publication_key.to_owned(),
            target: p.source_issue_ref.duplicate(),
            receipt_ref: p.harness_receipt_ref.duplicate(),
            body: body.clone(),
        },
    );
    commands.push(
        PostMergeObserverPublicationCommand::SourceThreadReply {
            publication_key: publication_key.to_owned(),
            target: thread.duplicate(),
            receipt_ref: p.harness_receipt_ref.duplicate(),
            body,
        },
    );
    if p.close_authorized && p.closes_source_issue {
        commands.push(
            PostMergeObserverPublicationCommand::SourceIssueClose {
                publication_key: publication_key.to_owned(),
                target: p.source_issue_ref.duplicate(),
                receipt_ref: p.harness_receipt_ref.duplicate(),
                reason_code: p.reason_code.clone(),
            },
        );
    }
    assert(command_views(commands@) =~= commands_spec(publication_key@, *p));
    Ok(commands)
}

/// Whether a publication is made: not where the plan or the ledger says it
/// was made already.
pub open spec fn publication_decision(
    plan: PostMergeObserverRuntimeDecision,
    key: Seq<char>,
    ledger: Set<Seq<char>>,
) -> PostMergeObserverPublicationRuntimeDecision {
    if plan == PostMergeObserverRuntimeDecision::AlreadyPublished || ledger.contains(key) {
        PostMergeObserverPublicationRuntimeDecision::AlreadyPublished
    } else {
        PostMergeObserverPublicationRuntimeDecision::Publish
    }
}

/// The publication of a sealed receipt: the plan must be the receipt's and
/// name its reference; a publication already made yields no command, and
/// one made now is recorded in the ledger.
pub fn project_post_merge_observer_publication_commands(
    dedupe: &PostMergeObserverRuntimeDedupePlan,
    sealed_receipt_id: &str,
    projection: &PostMergeObserverPublicationProjection,
    ledger: &mut PostMergeObserverPublicationLedger,
) -> (r: Result<PostMergeObserverPublicationRuntime, PostMergeObserverRuntimeError>)
    ensures
        dedupe.receipt_id@ != sealed_receipt_id@ ==> (r matches Err(
            PostMergeObserverRuntimeError::ReceiptMismatch { dedupe_receipt_id, receipt_id },
        ) && dedupe_receipt_id@ == dedupe.receipt_id@ && receipt_id@ == sealed_receipt_id@),
        dedupe.receipt_id@ == sealed_receipt_id@ && dedupe.receipt_ref.uri@
            != projection.harness_receipt_ref.uri@ ==> (r matches Err(
            PostMergeObserverRuntimeError::ReceiptRefMismatch { dedupe_receipt_ref, receipt_ref },
        ) && dedupe_receipt_ref@ == dedupe.receipt_ref.uri@ && receipt_ref@
            == projection.harness_receipt_ref.uri@),
        r is Err ==> final(ledger)@ == old(ledger)@,
        dedupe.receipt_id@ == sealed_receipt_id@ && dedupe.receipt_ref.uri@
            == projection.harness_receipt_ref.uri@ ==> {
            let decision = publication_decision(dedupe.decision, dedupe.publication_key@, old(ledger)@);
            if decision == PostMergeObserverPublicationRuntimeDecision::AlreadyPublished {
                r matches Ok(rt) && rt.decision == decision && rt.publication_key@
                    == dedupe.publication_key@ && rt.receipt_ref@ == projection.harness_receipt_ref@
                    && rt.commands@.len() == 0 && final(ledger)@ == old(ledger)@
            } else {
                match commands_fault(*projection) {
                    Some(e) => r == Err::<
                        PostMergeObserverPublicationRuntime,
                        PostMergeObserverRuntimeError,
                    >(e),
                    None => r matches Ok(rt) && rt.decision == decision && rt.publication_key@
                        == dedupe.publication_key@ && rt.receipt_ref@
                        == projection.harness_receipt_ref@ && command_views(rt.commands@)
                        == commands_spec(dedupe.publication_key@, *projection) && final(ledger)@
                        == old(ledger)@.insert(dedupe.publication_key@),
                }
            }
        },
{
    if !str_eq(dedupe.receipt_id.as_str(), sealed_receipt_id) {
        return Err(
            PostMergeObserverRuntimeError::ReceiptMismatch {
                dedupe_receipt_id: dedupe.receipt_id.clone(),
                receipt_id: sealed_receipt_id.to_owned(),
            },
        );
    }
    if !str_eq(dedupe.receipt_ref.uri.as_str(), projection.harness_receipt_ref.uri.as_str()) {
        return Err(
            PostMergeObserverRuntimeError::ReceiptRefMismatch {
                dedupe_receipt_ref: dedupe.receipt_ref.uri.clone(),
                receipt_ref: projection.harness_receipt_ref.uri.clone(),
            },
        );
    }
    if dedupe.decision == PostMergeObserverRuntimeDecision::AlreadyPublished || ledger.contains(
        dedupe.publication_key.as_str(),
    ) {
        return Ok(
            PostMergeObserverPublicationRuntime {
                decision: PostMergeObserverPublicationRuntimeDecision::AlreadyPublished,
                publication_key: dedupe.publication_key.clone(),
                receipt_ref: projection.harness_receipt_ref.duplicate(),
                commands: Vec::new(),
            },
        );
    }
    let commands = match publication_commands(dedupe.publication_key.as_str(), projection) {
        Ok(cs) => cs,
        Err(e) => return Err(e),
    };
    ledger.mark_published(dedupe.publication_key.as_str());
    Ok(
        PostMergeObserverPublicationRuntime {
            decision: PostMergeObserverPublicationRuntimeDecision::Publish,
            publication_key: dedupe.publication_key.clone(),
            receipt_ref: projection.harness_receipt_ref.duplicate(),
            commands,
        },
    )
}

/// A publication is made at most once per ledger: once a key is published,
/// the next publication under the same key is already published.
pub proof fn lemma_publication_made_once(
    plan: PostMergeObserverRuntimeDecision,
    key: Seq<char>,
    ledger: Set<Seq<char>>,
)
    ensures
        publication_decision(plan, key, ledger.insert(key))
            == PostMergeObserverPublicationRuntimeDecision::AlreadyPublished,
{
}

} // verus!
