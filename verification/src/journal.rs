//! Local run history and per-receipt journals.
//!
//! History lists the receipts of a local store, newest first, and the runs
//! that are paused waiting for a resolution, filtered by text, status,
//! source, actor, artifact type and time. A journal projects one sealed
//! receipt into rows, one for the receipt and one per act.
//!
//! Reading the store and the run ledgers is left to the caller: it hands in
//! the history rows of the receipts it read, and what each ledger file held.
use vstd::prelude::*;

use std::cmp::Ordering;

use crate::lifecycle::ExecutionEvent;
use crate::receipt_paths::{safe_receipt_store_label, store_label};
use crate::receipt_store::{LocalReceiptStore, ReceiptStoreError};
use crate::sorting::{
    SortOrder, chars_lt, is_stable_sort, lemma_chars_lt_strict, lemma_chars_lt_total, stable_sort,
    str_less, views,
};
use crate::text::{
    chars_of, concat, concat3, contains, decimal, decimal_string, is_blank, str_contains, str_eq, string_of,
    to_lowercase, trim, trim_str, unicode_lowercase,
};
use crate::timestamp::{Timestamp, timestamp_le, timestamp_of};

verus! {

pub const JOURNAL_PROJECTION_SCHEMA: &'static str = "runx.journal_projection.v1";

/// One event of a run, as the journal keeps it.
#[derive(Debug)]
pub struct JournalEntry {
    pub event: ExecutionEvent,
}

/// The events of a run in the order they were reported.
#[derive(Debug)]
pub struct ExecutionJournal {
    entries: Vec<JournalEntry>,
}

impl View for ExecutionJournal {
    type V = Seq<ExecutionEvent>;

    closed spec fn view(&self) -> Seq<ExecutionEvent> {
        self.entries@.map_values(|e: JournalEntry| e.event)
    }
}

impl Default for ExecutionJournal {
    /// An empty journal.
    fn default() -> (r: Self)
        ensures
            r@ == Seq::<ExecutionEvent>::empty(),
    {
        let r = ExecutionJournal { entries: Vec::new() };
        assert(r@ =~= Seq::<ExecutionEvent>::empty());
        r
    }
}

impl ExecutionJournal {
    /// Adds an event after those already kept.
    pub fn push(&mut self, event: ExecutionEvent)
        ensures
            final(self)@ == old(self)@.push(event),
    {
        self.entries.push(JournalEntry { event });
        assert(self@ =~= old(self)@.push(event));
    }

    /// The entries kept, in order.
    pub fn entries(&self) -> (r: &[JournalEntry])
        ensures
            r@.len() == self@.len(),
            forall|i: int| 0 <= i < r@.len() ==> (#[trigger] r@[i]).event == self@[i],
    {
        self.entries.as_slice()
    }
}

pub const JOURNAL_PROJECTOR_ID: &'static str = "runx-runtime.local-journal.v1";

pub const HISTORY_PROJECTOR_ID: &'static str = "runx-runtime.local-history.v1";

pub const RECEIPT_REF_PREFIX: &'static str = "runx:receipt:";

/// The kind of every local run.
pub const RUN_KIND: &'static str = "runx.harness.v1";

// ---------------------------------------------------------------------------
// Records
// ---------------------------------------------------------------------------

/// What a caller asks of the history. Text filters are matched without
/// regard to case and surrounding whitespace; `since` and `until` are RFC
/// 3339 timestamps.
#[derive(Clone, Debug, PartialEq, Eq)]
pub struct HistoryFilter {
    pub query: Option<String>,
    pub skill: Option<String>,
    pub status: Option<String>,
    pub source: Option<String>,
    pub actor: Option<String>,
    pub artifact_type: Option<String>,
    pub since: Option<String>,
    pub until: Option<String>,
    pub limit: Option<usize>,
}

impl Default for HistoryFilter {
    fn default() -> (r: HistoryFilter)
        ensures
            r.query is None && r.skill is None && r.status is None && r.source is None
                && r.actor is None && r.artifact_type is None && r.since is None && r.until is None
                && r.limit is None,
    {
        HistoryFilter {
            query: None,
            skill: None,
            status: None,
            source: None,
            actor: None,
            artifact_type: None,
            since: None,
            until: None,
            limit: None,
        }
    }
}

/// The history of a local store.
#[derive(Clone, Debug, PartialEq, Eq)]
pub struct LocalHistoryProjection {
    pub projector_id: String,
    pub store_label: String,
    pub receipts: Vec<LocalHistoryReceipt>,
    pub pending_runs: Vec<PausedRunSummary>,
}

/// One sealed receipt of the history.
#[derive(Clone, Debug, PartialEq, Eq)]
pub struct LocalHistoryReceipt {
    pub id: String,
    pub receipt_ref: String,
    pub name: String,
    pub status: String,
    pub created_at: String,
    pub harness_id: String,
    pub harness_state: String,
    pub summary: String,
    pub source_type: Option<String>,
    pub actors: Vec<String>,
    pub artifact_types: Vec<String>,
    pub verification: ReceiptVerificationProjection,
}

/// Whether a receipt's proof verified: `verified`, `unverified` or `invalid`.
#[derive(Clone, Debug, PartialEq, Eq)]
pub struct ReceiptVerificationProjection {
    pub status: String,
}

/// A run that waits for a resolution.
#[derive(Clone, Debug, PartialEq, Eq)]
pub struct PausedRunSummary {
    pub id: String,
    pub name: String,
    pub kind: String,
    pub status: String,
    pub started_at: Option<String>,
    pub selected_runner: Option<String>,
    pub step_ids: Vec<String>,
    pub step_labels: Vec<String>,
    pub ledger_verification: Option<LedgerVerificationProjection>,
}

/// Whether a run's ledger could be read: `valid`, or `invalid` with a reason.
#[derive(Clone, Debug, PartialEq, Eq)]
pub struct LedgerVerificationProjection {
    pub status: String,
    pub reason: Option<String>,
}

/// A paused run known from a checkpoint rather than from its ledger.
#[derive(Clone, Debug, PartialEq, Eq)]
pub struct PausedRunCheckpoint {
    pub id: String,
    pub name: String,
    pub kind: String,
    pub started_at: Option<String>,
    pub selected_runner: Option<String>,
    pub step_ids: Vec<String>,
    pub step_labels: Vec<String>,
}

/// The journal of one receipt.
#[derive(Clone, Debug, PartialEq, Eq)]
pub struct JournalProjection {
    pub schema: String,
    pub projector_id: String,
    pub receipt_ref: String,
    pub watermark: String,
    pub rows: Vec<JournalProjectionRow>,
}

/// One row of a journal.
#[derive(Clone, Debug, PartialEq, Eq)]
pub struct JournalProjectionRow {
    pub schema: String,
    pub entry_id: String,
    pub recorded_at: String,
    pub projector_id: String,
    pub source_refs: Vec<String>,
    pub watermark: String,
    pub event_kind: String,
    pub summary: String,
    pub receipt_ref: Option<String>,
    pub harness_ref: Option<String>,
    pub act_ref: Option<String>,
    pub decision_ref: Option<String>,
    pub artifact_refs: Vec<String>,
    pub status: Option<String>,
    pub verification: Option<ReceiptVerificationProjection>,
}

/// Why a history or a journal could not be projected.
#[derive(Clone, Debug, PartialEq, Eq)]
pub enum JournalProjectionError {
    ReceiptStore(ReceiptStoreError),
    InvalidTimestamp { field: &'static str, value: String },
    LedgerStoreUnreadable,
}

// ---------------------------------------------------------------------------
// Views
// ---------------------------------------------------------------------------

/// The text of an optional string.
pub open spec fn opt_view(value: Option<String>) -> Option<Seq<char>> {
    match value {
        Some(s) => Some(s@),
        None => None,
    }
}

/// The texts of a list of strings.
pub open spec fn texts(items: Seq<String>) -> Seq<Seq<char>> {
    items.map_values(|s: String| s@)
}

/// A history row as text.
pub struct HistoryRowView {
    pub id: Seq<char>,
    pub receipt_ref: Seq<char>,
    pub name: Seq<char>,
    pub status: Seq<char>,
    pub created_at: Seq<char>,
    pub harness_id: Seq<char>,
    pub harness_state: Seq<char>,
    pub summary: Seq<char>,
    pub source_type: Option<Seq<char>>,
    pub actors: Seq<Seq<char>>,
    pub artifact_types: Seq<Seq<char>>,
    pub verification: Seq<char>,
}

impl View for LocalHistoryReceipt {
    type V = HistoryRowView;

    open spec fn view(&self) -> HistoryRowView {
        HistoryRowView {
            id: self.id@,
            receipt_ref: self.receipt_ref@,
            name: self.name@,
            status: self.status@,
            created_at: self.created_at@,
            harness_id: self.harness_id@,
            harness_state: self.harness_state@,
            summary: self.summary@,
            source_type: opt_view(self.source_type),
            actors: texts(self.actors@),
            artifact_types: texts(self.artifact_types@),
            verification: self.verification.status@,
        }
    }
}

/// A paused run as text.
pub struct PausedRunView {
    pub id: Seq<char>,
    pub name: Seq<char>,
    pub kind: Seq<char>,
    pub status: Seq<char>,
    pub started_at: Option<Seq<char>>,
    pub selected_runner: Option<Seq<char>>,
    pub step_ids: Seq<Seq<char>>,
    pub step_labels: Seq<Seq<char>>,
    pub ledger_verification: Option<(Seq<char>, Option<Seq<char>>)>,
}

impl View for PausedRunSummary {
    type V = PausedRunView;

    open spec fn view(&self) -> PausedRunView {
        PausedRunView {
            id: self.id@,
            name: self.name@,
            kind: self.kind@,
            status: self.status@,
            started_at: opt_view(self.started_at),
            selected_runner: opt_view(self.selected_runner),
            step_ids: texts(self.step_ids@),
            step_labels: texts(self.step_labels@),
            ledger_verification: match self.ledger_verification {
                Some(v) => Some((v.status@, opt_view(v.reason))),
                None => None,
            },
        }
    }
}

// ---------------------------------------------------------------------------
// Filters
// ---------------------------------------------------------------------------

/// A filter as the history applies it: text filters trimmed and lowercased,
/// blank ones dropped, and the time bounds parsed.
#[derive(Clone, Debug, PartialEq, Eq)]
pub struct ResolvedHistoryFilter {
    pub query: Option<String>,
    pub skill: Option<String>,
    pub status: Option<String>,
    pub source: Option<String>,
    pub actor: Option<String>,
    pub artifact_type: Option<String>,
    pub since: Option<Timestamp>,
    pub until: Option<Timestamp>,
    pub limit: Option<usize>,
}

/// A resolved filter as text.
pub struct FilterView {
    pub query: Option<Seq<char>>,
    pub skill: Option<Seq<char>>,
    pub status: Option<Seq<char>>,
    pub source: Option<Seq<char>>,
    pub actor: Option<Seq<char>>,
    pub artifact_type: Option<Seq<char>>,
    pub since: Option<Timestamp>,
    pub until: Option<Timestamp>,
    pub limit: Option<usize>,
}

impl View for ResolvedHistoryFilter {
    type V = FilterView;

    open spec fn view(&self) -> FilterView {
        FilterView {
            query: opt_view(self.query),
            skill: opt_view(self.skill),
            status: opt_view(self.status),
            source: opt_view(self.source),
            actor: opt_view(self.actor),
            artifact_type: opt_view(self.artifact_type),
            since: self.since,
            until: self.until,
            limit: self.limit,
        }
    }
}

/// A text filter as applied: trimmed, lowercased, and dropped when empty.
pub open spec fn normalized_text(value: Option<Seq<char>>) -> Option<Seq<char>> {
    match value {
        None => None,
        Some(v) => {
            let lowered = unicode_lowercase(trim(v));
            if lowered.len() == 0 {
                None
            } else {
                Some(lowered)
            }
        },
    }
}

/// A time bound as applied: a blank one is no bound; otherwise it must be a
/// timestamp, and `Err` holds the trimmed text that is not.
pub open spec fn time_bound(value: Option<Seq<char>>) -> Result<Option<Timestamp>, Seq<char>> {
    match value {
        None => Ok(None),
        Some(v) => {
            let trimmed = trim(v);
            if trimmed.len() == 0 {
                Ok(None)
            } else {
                match timestamp_of(trimmed) {
                    Some(t) => Ok(Some(t)),
                    None => Err(trimmed),
                }
            }
        },
    }
}

/// `str::trim` then `str::to_lowercase`, dropping what ends up empty.
fn normalized(value: &Option<String>) -> (r: Option<String>)
    ensures
        opt_view(r) == normalized_text(opt_view(*value)),
{
    match value {
        None => None,
        Some(entry) => {
            let trimmed = string_of(&trim_str(entry.as_str()));
            let lowered = to_lowercase(trimmed.as_str());
            if chars_of(lowered.as_str()).len() == 0 {
                None
            } else {
                Some(lowered)
            }
        },
    }
}

/// Parses the time bound `field` of a filter.
fn parse_date_filter(field: &'static str, value: &Option<String>) -> (r: Result<
    Option<Timestamp>,
    JournalProjectionError,
>)
    ensures
        match time_bound(opt_view(*value)) {
            Ok(bound) => r == Ok::<Option<Timestamp>, JournalProjectionError>(bound),
            Err(text) => r matches Err(JournalProjectionError::InvalidTimestamp { field: f, value: v })
                && f@ == field@ && v@ == text,
        },
{
    match value {
        None => Ok(None),
        Some(entry) => {
            let trimmed = trim_str(entry.as_str());
            if trimmed.len() == 0 {
                return Ok(None);
            }
            match Timestamp::parse_chars(&trimmed) {
                Some(t) => Ok(Some(t)),
                None => Err(
                    JournalProjectionError::InvalidTimestamp { field, value: string_of(&trimmed) },
                ),
            }
        },
    }
}

impl ResolvedHistoryFilter {
    /// Resolves a filter; a time bound that is not a timestamp is refused,
    /// `since` first.
    pub fn parse(filter: &HistoryFilter) -> (r: Result<ResolvedHistoryFilter, JournalProjectionError>)
        ensures
            match (time_bound(opt_view(filter.since)), time_bound(opt_view(filter.until))) {
                (Err(text), _) => r matches Err(
                    JournalProjectionError::InvalidTimestamp { field, value },
                ) && field@ == "since"@ && value@ == text,
                (Ok(_), Err(text)) => r matches Err(
                    JournalProjectionError::InvalidTimestamp { field, value },
                ) && field@ == "until"@ && value@ == text,
                (Ok(since), Ok(until)) => r matches Ok(resolved) && resolved@ == (FilterView {
                    query: normalized_text(opt_view(filter.query)),
                    skill: normalized_text(opt_view(filter.skill)),
                    status: normalized_text(opt_view(filter.status)),
                    source: normalized_text(opt_view(filter.source)),
                    actor: normalized_text(opt_view(filter.actor)),
                    artifact_type: normalized_text(opt_view(filter.artifact_type)),
                    since,
                    until,
                    limit: filter.limit,
                }),
            },
    {
        let query = normalized(&filter.query);
        let skill = normalized(&filter.skill);
        let status = normalized(&filter.status);
        let source = normalized(&filter.source);
        let actor = normalized(&filter.actor);
        let artifact_type = normalized(&filter.artifact_type);
        let since = match parse_date_filter("since", &filter.since) {
            Ok(bound) => bound,
            Err(e) => return Err(e),
        };
        let until = match parse_date_filter("until", &filter.until) {
            Ok(bound) => bound,
            Err(e) => return Err(e),
        };
        Ok(
            ResolvedHistoryFilter {
                query,
                skill,
                status,
                source,
                actor,
                artifact_type,
                since,
                until,
                limit: filter.limit,
            },
        )
    }
}

/// Some text of `items`, lowercased, contains `needle`.
pub open spec fn any_contains(items: Seq<Seq<char>>, needle: Seq<char>) -> bool {
    exists|i: int| 0 <= i < items.len() && contains(unicode_lowercase(#[trigger] items[i]), needle)
}

/// Some text of `items`, lowercased, is `needle`.
pub open spec fn any_equals(items: Seq<Seq<char>>, needle: Seq<char>) -> bool {
    exists|i: int| 0 <= i < items.len() && unicode_lowercase(#[trigger] items[i]) == needle
}

/// A timestamp that the time bounds admit; text that is no timestamp passes
/// only where there are no bounds.
pub open spec fn within_bounds(text: Seq<char>, filter: FilterView) -> bool {
    match timestamp_of(text) {
        None => filter.since is None && filter.until is None,
        Some(t) => (filter.since matches Some(since) ==> timestamp_le(since, t)) && (
        filter.until matches Some(until) ==> timestamp_le(t, until)),
    }
}

/// A receipt row that the filter admits.
pub open spec fn history_row_matches(row: HistoryRowView, filter: FilterView) -> bool {
    &&& filter.query matches Some(q) ==> (contains(unicode_lowercase(row.name), q) || contains(
        unicode_lowercase(row.id),
        q,
    ) || (row.source_type matches Some(source) && contains(unicode_lowercase(source), q))
        || any_contains(row.actors, q) || any_contains(row.artifact_types, q))
    &&& filter.skill matches Some(skill) ==> contains(unicode_lowercase(row.name), skill)
    &&& filter.status matches Some(status) ==> unicode_lowercase(row.status) == status
    &&& filter.source matches Some(source) ==> (row.source_type matches Some(candidate)
        && unicode_lowercase(candidate) == source)
    &&& filter.actor matches Some(actor) ==> any_equals(row.actors, actor)
    &&& filter.artifact_type matches Some(artifact_type) ==> any_equals(
        row.artifact_types,
        artifact_type,
    )
    &&& within_bounds(row.created_at, filter)
}

/// Each filter criterion is held against its own field: a row the filter
/// admits has an actor that lowercases to the filter's actor, an artifact
/// type that lowercases to the filter's artifact type, and a status and
/// source that lowercase to the filter's; with the actor as the only
/// criterion a row is admitted exactly when it has such an actor, whatever
/// its artifact types.
pub proof fn lemma_actor_filter_checks_actors(row: HistoryRowView, filter: FilterView)
    ensures
        filter.actor is Some && history_row_matches(row, filter) ==> exists|i: int|
            0 <= i < row.actors.len() && #[trigger] unicode_lowercase(row.actors[i])
                == filter.actor->Some_0,
        filter.actor is Some && filter.query is None && filter.skill is None && filter.status
            is None && filter.source is None && filter.artifact_type is None && filter.since
            is None && filter.until is None ==> (history_row_matches(row, filter) <==> exists|
            i: int,
        | 0 <= i < row.actors.len() && #[trigger] unicode_lowercase(row.actors[i])
            == filter.actor->Some_0),
        filter.artifact_type is Some && history_row_matches(row, filter) ==> exists|i: int|
            0 <= i < row.artifact_types.len() && #[trigger] unicode_lowercase(row.artifact_types[i])
                == filter.artifact_type->Some_0,
        filter.status is Some && history_row_matches(row, filter) ==> unicode_lowercase(row.status)
            == filter.status->Some_0,
        filter.source is Some && history_row_matches(row, filter) ==> row.source_type is Some
            && unicode_lowercase(row.source_type->Some_0) == filter.source->Some_0,
{
}

/// A paused run that the filter admits: runs have no source, actor or
/// artifact type, and one without a start time passes only where there are
/// no time bounds.
pub open spec fn paused_run_matches(row: PausedRunView, filter: FilterView) -> bool {
    &&& filter.query matches Some(q) ==> (contains(unicode_lowercase(row.name), q) || contains(
        unicode_lowercase(row.id),
        q,
    ) || (row.selected_runner matches Some(runner) && contains(unicode_lowercase(runner), q)))
    &&& filter.skill matches Some(skill) ==> contains(unicode_lowercase(row.name), skill)
    &&& filter.status matches Some(status) ==> unicode_lowercase(row.status) == status
    &&& filter.source is None
    &&& filter.actor is None
    &&& filter.artifact_type is None
    &&& match row.started_at {
        None => filter.since is None && filter.until is None,
        Some(started_at) => within_bounds(started_at, filter),
    }
}

/// `text`, lowercased, contains `needle`.
fn lowercase_contains(text: &str, needle: &str) -> (b: bool)
    ensures
        b == contains(unicode_lowercase(text@), needle@),
{
    let lowered = to_lowercase(text);
    str_contains(lowered.as_str(), needle)
}

/// `text`, lowercased, is `needle`.
fn lowercase_equals(text: &str, needle: &str) -> (b: bool)
    ensures
        b == (unicode_lowercase(text@) == needle@),
{
    let lowered = to_lowercase(text);
    str_eq(lowered.as_str(), needle)
}

fn any_lowercase_contains(items: &Vec<String>, needle: &str) -> (b: bool)
    ensures
        b == any_contains(texts(items@), needle@),
{
    let mut i: usize = 0;
    while i < items.len()
        invariant
            i <= items.len(),
            forall|k: int| 0 <= k < i ==> !contains(unicode_lowercase(#[trigger] texts(items@)[k]), needle@),
        decreases items.len() - i,
    {
        if lowercase_contains(items[i].as_str(), needle) {
            assert(texts(items@)[i as int] == items@[i as int]@);
            return true;
        }
        assert(texts(items@)[i as int] == items@[i as int]@);
        i += 1;
    }
    false
}

fn any_lowercase_equals(items: &Vec<String>, needle: &str) -> (b: bool)
    ensures
        b == any_equals(texts(items@), needle@),
{
    let mut i: usize = 0;
    while i < items.len()
        invariant
            i <= items.len(),
            forall|k: int| 0 <= k < i ==> unicode_lowercase(#[trigger] texts(items@)[k]) != needle@,
        decreases items.len() - i,
    {
        if lowercase_equals(items[i].as_str(), needle) {
            assert(texts(items@)[i as int] == items@[i as int]@);
            return true;
        }
        assert(texts(items@)[i as int] == items@[i as int]@);
        i += 1;
    }
    false
}

/// Whether a timestamp lies within the filter's time bounds.
fn matches_timestamp_filter(timestamp: &str, filter: &ResolvedHistoryFilter) -> (b: bool)
    ensures
        b == within_bounds(timestamp@, filter@),
{
    let parsed = match Timestamp::parse(timestamp) {
        Some(t) => t,
        None => return filter.since.is_none() && filter.until.is_none(),
    };
    let after_since = match &filter.since {
        Some(since) => since.at_or_before(&parsed),
        None => true,
    };
    let before_until = match &filter.until {
        Some(until) => parsed.at_or_before(until),
        None => true,
    };
    after_since && before_until
}

/// Whether the filter admits a receipt row.
pub fn matches_history_filter(row: &LocalHistoryReceipt, filter: &ResolvedHistoryFilter) -> (b: bool)
    ensures
        b == history_row_matches(row@, filter@),
{
    let query_ok = match &filter.query {
        None => true,
        Some(query) => {
            lowercase_contains(row.name.as_str(), query.as_str()) || lowercase_contains(
                row.id.as_str(),
                query.as_str(),
            ) || (match &row.source_type {
                Some(source) => lowercase_contains(source.as_str(), query.as_str()),
                None => false,
            }) || any_lowercase_contains(&row.actors, query.as_str()) || any_lowercase_contains(
                &row.artifact_types,
                query.as_str(),
            )
        },
    };
    let skill_ok = match &filter.skill {
        None => true,
        Some(skill) => lowercase_contains(row.name.as_str(), skill.as_str()),
    };
    let status_ok = match &filter.status {
        None => true,
        Some(status) => lowercase_equals(row.status.as_str(), status.as_str()),
    };
    let source_ok = match &filter.source {
        None => true,
        Some(source) => match &row.source_type {
            Some(candidate) => lowercase_equals(candidate.as_str(), source.as_str()),
            None => false,
        },
    };
    let actor_ok = match &filter.actor {
        None => true,
        Some(actor) => any_lowercase_equals(&row.actors, actor.as_str()),
    };
    let artifact_ok = match &filter.artifact_type {
        None => true,
        Some(artifact_type) => any_lowercase_equals(&row.artifact_types, artifact_type.as_str()),
    };
    query_ok && skill_ok && status_ok && source_ok && actor_ok && artifact_ok
        && matches_timestamp_filter(row.created_at.as_str(), filter)
}

/// Whether the filter admits a paused run.
pub fn matches_paused_history_filter(row: &PausedRunSummary, filter: &ResolvedHistoryFilter) -> (b:
    bool)
    ensures
        b == paused_run_matches(row@, filter@),
{
    let query_ok = match &filter.query {
        None => true,
        Some(query) => {
            lowercase_contains(row.name.as_str(), query.as_str()) || lowercase_contains(
                row.id.as_str(),
                query.as_str(),
            ) || (match &row.selected_runner {
                Some(runner) => lowercase_contains(runner.as_str(), query.as_str()),
                None => false,
            })
        },
    };
    let skill_ok = match &filter.skill {
        None => true,
        Some(skill) => lowercase_contains(row.name.as_str(), skill.as_str()),
    };
    let status_ok = match &filter.status {
        None => true,
        Some(status) => lowercase_equals(row.status.as_str(), status.as_str()),
    };
    let time_ok = match &row.started_at {
        None => filter.since.is_none() && filter.until.is_none(),
        Some(started_at) => matches_timestamp_filter(started_at.as_str(), filter),
    };
    query_ok && skill_ok && status_ok && filter.source.is_none() && filter.actor.is_none()
        && filter.artifact_type.is_none() && time_ok
}

// ---------------------------------------------------------------------------
// Paused runs
// ---------------------------------------------------------------------------

/// One line of a run ledger as read: its entry type, and the fields of a run
/// event that the history uses.
#[derive(Clone, Debug, PartialEq, Eq)]
pub struct LedgerEntry {
    pub entry_type: String,
    pub kind: String,
    pub created_at: Option<String>,
    pub producer_skill: Option<String>,
    pub producer_runner: Option<String>,
    pub selected_runner: Option<String>,
    pub step_ids: Vec<String>,
    pub step_labels: Vec<String>,
}

/// A run event of a ledger.
#[derive(Clone, Debug, PartialEq, Eq)]
pub struct LedgerRunEvent {
    pub kind: String,
    pub created_at: Option<String>,
    pub skill_name: Option<String>,
    pub runner: Option<String>,
    pub selected_runner: Option<String>,
    pub step_ids: Vec<String>,
    pub step_labels: Vec<String>,
}

/// A run event as text.
pub struct RunEventView {
    pub kind: Seq<char>,
    pub created_at: Option<Seq<char>>,
    pub skill_name: Option<Seq<char>>,
    pub runner: Option<Seq<char>>,
    pub selected_runner: Option<Seq<char>>,
    pub step_ids: Seq<Seq<char>>,
    pub step_labels: Seq<Seq<char>>,
}

impl View for LedgerRunEvent {
    type V = RunEventView;

    open spec fn view(&self) -> RunEventView {
        RunEventView {
            kind: self.kind@,
            created_at: opt_view(self.created_at),
            skill_name: opt_view(self.skill_name),
            runner: opt_view(self.runner),
            selected_runner: opt_view(self.selected_runner),
            step_ids: texts(self.step_ids@),
            step_labels: texts(self.step_labels@),
        }
    }
}

/// What a ledger file held.
#[derive(Clone, Debug, PartialEq, Eq)]
pub enum LedgerRead {
    /// The file could not be read.
    Unreadable,
    /// The line at `index` (counted from 0) was not JSON; `message` says why.
    InvalidLine { index: usize, message: String },
    /// The entries of its non-blank lines.
    Entries(Vec<LedgerEntry>),
}

/// A file of the ledger directory.
#[derive(Clone, Debug, PartialEq, Eq)]
pub struct LedgerFile {
    pub file_name: String,
    pub read: LedgerRead,
}

/// The ledger directory of a store.
#[derive(Clone, Debug, PartialEq, Eq)]
pub enum LedgerDirectory {
    /// There is none.
    Missing,
    /// It, or one of its entries, could not be read.
    Unreadable,
    /// Its files, in the order the directory lists them.
    Files(Vec<LedgerFile>),
}

/// The texts of `items` that are not blank, in order.
pub open spec fn non_blank_texts(items: Seq<Seq<char>>) -> Seq<Seq<char>>
    decreases items.len(),
{
    if items.len() == 0 {
        Seq::empty()
    } else if is_blank(items.last()) {
        non_blank_texts(items.drop_last())
    } else {
        non_blank_texts(items.drop_last()).push(items.last())
    }
}

/// Drops the blank strings of a list.
pub fn clean_string_array(items: Vec<String>) -> (r: Vec<String>)
    ensures
        texts(r@) == non_blank_texts(texts(items@)),
{
    let mut out: Vec<String> = Vec::new();
    let mut i: usize = 0;
    while i < items.len()
        invariant
            i <= items.len(),
            texts(out@) == non_blank_texts(texts(items@).take(i as int)),
        decreases items.len() - i,
    {
        let item = &items[i];
        proof {
            assert(texts(items@).take(i + 1).drop_last() =~= texts(items@).take(i as int));
            assert(texts(items@).take(i + 1).last() == item@);
        }
        if !crate::text::blank_str(item.as_str()) {
            let ghost before = out@;
            out.push(item.clone());
            assert(texts(out@) =~= texts(before).push(item@));
        }
        i += 1;
    }
    assert(texts(items@).take(items.len() as int) =~= texts(items@));
    out
}

/// The run event that a ledger entry records, if it records one.
pub open spec fn ledger_event_view(entry: LedgerEntry) -> Option<RunEventView> {
    if entry.entry_type@ != "run_event"@ {
        None
    } else {
        Some(
            RunEventView {
                kind: entry.kind@,
                created_at: opt_view(entry.created_at),
                skill_name: opt_view(entry.producer_skill),
                runner: opt_view(entry.producer_runner),
                selected_runner: opt_view(entry.selected_runner),
                step_ids: non_blank_texts(texts(entry.step_ids@)),
                step_labels: non_blank_texts(texts(entry.step_labels@)),
            },
        )
    }
}

/// The run event that a ledger entry records, if it records one.
pub fn ledger_event(entry: &LedgerEntry) -> (r: Option<LedgerRunEvent>)
    ensures
        match r {
            Some(event) => ledger_event_view(*entry) == Some(event@),
            None => ledger_event_view(*entry) is None,
        },
{
    if !str_eq(entry.entry_type.as_str(), "run_event") {
        return None;
    }
    Some(
        LedgerRunEvent {
            kind: entry.kind.clone(),
            created_at: clone_opt(&entry.created_at),
            skill_name: clone_opt(&entry.producer_skill),
            runner: clone_opt(&entry.producer_runner),
            selected_runner: clone_opt(&entry.selected_runner),
            step_ids: clean_string_array(clone_texts(&entry.step_ids)),
            step_labels: clean_string_array(clone_texts(&entry.step_labels)),
        },
    )
}

/// The run events of the entries of a ledger, in order.
pub open spec fn ledger_events_view(entries: Seq<LedgerEntry>) -> Seq<RunEventView>
    decreases entries.len(),
{
    if entries.len() == 0 {
        Seq::empty()
    } else {
        match ledger_event_view(entries.last()) {
            Some(event) => ledger_events_view(entries.drop_last()).push(event),
            None => ledger_events_view(entries.drop_last()),
        }
    }
}

/// A kind of event after which a run is over.
pub open spec fn is_terminal_kind(kind: Seq<char>) -> bool {
    kind == "run_completed"@ || kind == "run_failed"@ || kind == "graph_completed"@
}

/// A kind of event that leaves a run waiting for a resolution.
pub open spec fn is_waiting_kind(kind: Seq<char>) -> bool {
    kind == "resolution_requested"@ || kind == "step_waiting_resolution"@
}

/// When the run started: the time of its last `run_started` event.
pub open spec fn started_at_of(events: Seq<RunEventView>) -> Option<Seq<char>>
    decreases events.len(),
{
    if events.len() == 0 {
        None
    } else if events.last().kind == "run_started"@ {
        events.last().created_at
    } else {
        started_at_of(events.drop_last())
    }
}

/// The last of the first `n` events that ends the run or leaves it waiting.
pub open spec fn last_decisive(events: Seq<RunEventView>, n: int) -> Option<int>
    decreases n,
{
    if n <= 0 || n > events.len() {
        None
    } else if is_terminal_kind(events[n - 1].kind) || is_waiting_kind(events[n - 1].kind) {
        Some(n - 1)
    } else {
        last_decisive(events, n - 1)
    }
}

/// The paused run that a ledger's events show: where the last decisive event
/// leaves the run waiting, a summary of it.
pub open spec fn paused_run_view(run_id: Seq<char>, events: Seq<RunEventView>) -> Option<
    PausedRunView,
> {
    match last_decisive(events, events.len() as int) {
        None => None,
        Some(j) => if is_terminal_kind(events[j].kind) {
            None
        } else {
            let event = events[j];
            Some(
                PausedRunView {
                    id: run_id,
                    name: match event.skill_name {
                        Some(name) => name,
                        None => run_id,
                    },
                    kind: RUN_KIND@,
                    status: "paused"@,
                    started_at: match started_at_of(events) {
                        Some(started) => Some(started),
                        None => event.created_at,
                    },
                    selected_runner: match event.selected_runner {
                        Some(runner) => Some(runner),
                        None => event.runner,
                    },
                    step_ids: event.step_ids,
                    step_labels: event.step_labels,
                    ledger_verification: Some(("valid"@, None)),
                },
            )
        },
    }
}

/// A copy of an optional string.
fn clone_opt(value: &Option<String>) -> (r: Option<String>)
    ensures
        opt_view(r) == opt_view(*value),
{
    match value {
        Some(s) => Some(s.clone()),
        None => None,
    }
}

/// A copy of a list of strings.
fn clone_texts(items: &Vec<String>) -> (r: Vec<String>)
    ensures
        texts(r@) == texts(items@),
{
    let mut out: Vec<String> = Vec::new();
    let mut i: usize = 0;
    while i < items.len()
        invariant
            i <= items.len(),
            texts(out@) == texts(items@).take(i as int),
        decreases items.len() - i,
    {
        let ghost before = out@;
        out.push(items[i].clone());
        assert(texts(out@) =~= texts(before).push(items@[i as int]@));
        assert(texts(items@).take(i + 1) =~= texts(items@).take(i as int).push(items@[i as int]@));
        i += 1;
    }
    assert(texts(items@).take(items.len() as int) =~= texts(items@));
    out
}

/// The kind of a local run.
pub fn run_kind(run_id: &str) -> (r: String)
    ensures
        r@ == RUN_KIND@,
{
    String::from_str(RUN_KIND)
}

/// The summary of a run that a checkpoint shows paused.
pub fn paused_run_from_checkpoint(checkpoint: &PausedRunCheckpoint) -> (r: PausedRunSummary)
    ensures
        r@ == (PausedRunView {
            id: checkpoint.id@,
            name: checkpoint.name@,
            kind: checkpoint.kind@,
            status: "paused"@,
            started_at: opt_view(checkpoint.started_at),
            selected_runner: opt_view(checkpoint.selected_runner),
            step_ids: texts(checkpoint.step_ids@),
            step_labels: texts(checkpoint.step_labels@),
            ledger_verification: None,
        }),
{
    PausedRunSummary {
        id: checkpoint.id.clone(),
        name: checkpoint.name.clone(),
        kind: checkpoint.kind.clone(),
        status: String::from_str("paused"),
        started_at: clone_opt(&checkpoint.started_at),
        selected_runner: clone_opt(&checkpoint.selected_runner),
        step_ids: clone_texts(&checkpoint.step_ids),
        step_labels: clone_texts(&checkpoint.step_labels),
        ledger_verification: None,
    }
}

/// The summary of a run whose ledger could not be read as JSON.
pub open spec fn invalid_run_view(run_id: Seq<char>, reason: Seq<char>) -> PausedRunView {
    PausedRunView {
        id: run_id,
        name: run_id,
        kind: RUN_KIND@,
        status: "paused"@,
        started_at: None,
        selected_runner: None,
        step_ids: Seq::empty(),
        step_labels: Seq::empty(),
        ledger_verification: Some(("invalid"@, Some(reason))),
    }
}

/// The summary of a run whose ledger could not be read as JSON.
pub fn invalid_paused_run(run_id: &str, reason: String) -> (r: PausedRunSummary)
    ensures
        r@ == invalid_run_view(run_id@, reason@),
{
    let r = PausedRunSummary {
        id: String::from_str(run_id),
        name: String::from_str(run_id),
        kind: run_kind(run_id),
        status: String::from_str("paused"),
        started_at: None,
        selected_runner: None,
        step_ids: Vec::new(),
        step_labels: Vec::new(),
        ledger_verification: Some(
            LedgerVerificationProjection {
                status: String::from_str("invalid"),
                reason: Some(reason),
            },
        ),
    };
    assert(texts(r.step_ids@) =~= Seq::<Seq<char>>::empty());
    assert(texts(r.step_labels@) =~= Seq::<Seq<char>>::empty());
    r
}

/// The summary of a paused run that a ledger's events show, if they show one.
pub fn paused_run_from_events(run_id: &str, events: &Vec<LedgerRunEvent>) -> (r: Option<
    PausedRunSummary,
>)
    ensures
        match r {
            Some(summary) => paused_run_view(run_id@, views(events@)) == Some(summary@),
            None => paused_run_view(run_id@, views(events@)) is None,
        },
{
    let ghost ev = views(events@);
    let mut started_at: Option<String> = None;
    let mut i: usize = 0;
    while i < events.len()
        invariant
            i <= events.len(),
            ev == views(events@),
            opt_view(started_at) == started_at_of(ev.take(i as int)),
        decreases events.len() - i,
    {
        proof {
            assert(ev.take(i + 1).drop_last() =~= ev.take(i as int));
            assert(ev.take(i + 1).last() == events@[i as int]@);
        }
        if str_eq(events[i].kind.as_str(), "run_started") {
            started_at = clone_opt(&events[i].created_at);
        }
        i += 1;
    }
    assert(ev.take(events.len() as int) =~= ev);
    let mut j: usize = events.len();
    while j > 0
        invariant
            j <= events.len(),
            ev == views(events@),
            opt_view(started_at) == started_at_of(ev),
            last_decisive(ev, ev.len() as int) == last_decisive(ev, j as int),
        decreases j,
    {
        let event = &events[j - 1];
        assert(ev[j - 1] == event@);
        let kind = event.kind.as_str();
        if str_eq(kind, "run_completed") || str_eq(kind, "run_failed") || str_eq(
            kind,
            "graph_completed",
        ) {
            return None;
        }
        if str_eq(kind, "resolution_requested") || str_eq(kind, "step_waiting_resolution") {
            let name = match &event.skill_name {
                Some(name) => name.clone(),
                None => String::from_str(run_id),
            };
            let started = match started_at {
                Some(started) => Some(started),
                None => clone_opt(&event.created_at),
            };
            let selected_runner = match &event.selected_runner {
                Some(runner) => Some(runner.clone()),
                None => clone_opt(&event.runner),
            };
            return Some(
                PausedRunSummary {
                    id: String::from_str(run_id),
                    name,
                    kind: run_kind(run_id),
                    status: String::from_str("paused"),
                    started_at: started,
                    selected_runner,
                    step_ids: clone_texts(&event.step_ids),
                    step_labels: clone_texts(&event.step_labels),
                    ledger_verification: Some(
                        LedgerVerificationProjection {
                            status: String::from_str("valid"),
                            reason: None,
                        },
                    ),
                },
            );
        }
        j -= 1;
    }
    None
}

/// The run events of a ledger's entries, in order.
pub fn ledger_events(entries: &Vec<LedgerEntry>) -> (r: Vec<LedgerRunEvent>)
    ensures
        views(r@) == ledger_events_view(entries@),
{
    let mut events: Vec<LedgerRunEvent> = Vec::new();
    let mut i: usize = 0;
    while i < entries.len()
        invariant
            i <= entries.len(),
            views(events@) == ledger_events_view(entries@.take(i as int)),
        decreases entries.len() - i,
    {
        proof {
            assert(entries@.take(i + 1).drop_last() =~= entries@.take(i as int));
            assert(entries@.take(i + 1).last() == entries@[i as int]);
        }
        match ledger_event(&entries[i]) {
            Some(event) => {
                let ghost before = events@;
                events.push(event);
                assert(views(events@) =~= views(before).push(event@));
            },
            None => {},
        }
        i += 1;
    }
    assert(entries@.take(entries.len() as int) =~= entries@);
    events
}

/// A character that a run id may hold.
pub open spec fn is_run_id_char(c: char) -> bool {
    crate::text::is_ascii_alnum(c) || c == '_' || c == '-'
}

/// The run id that a ledger file's name holds: a `.jsonl` file whose stem
/// starts with `rx_` or `gx_` and holds only ASCII letters, digits, `_` and
/// `-`.
pub open spec fn ledger_run_id_spec(file_name: Seq<char>) -> Option<Seq<char>> {
    let n = file_name.len() as int;
    if n > 6 && file_name.subrange(n - 6, n) == ".jsonl"@ {
        let stem = file_name.subrange(0, n - 6);
        if (crate::text::starts_with(stem, "rx_"@) || crate::text::starts_with(stem, "gx_"@))
            && (forall|i: int| 0 <= i < stem.len() ==> is_run_id_char(#[trigger] stem[i])) {
            Some(stem)
        } else {
            None
        }
    } else {
        None
    }
}

/// The run id that a ledger file's name holds, if it holds one.
pub fn ledger_run_id(file_name: &str) -> (r: Option<String>)
    ensures
        match r {
            Some(id) => ledger_run_id_spec(file_name@) == Some(id@),
            None => ledger_run_id_spec(file_name@) is None,
        },
{
    let chars = chars_of(file_name);
    let n = chars.len();
    if n <= 6 {
        return None;
    }
    let tail = crate::text::slice_of(&chars, n - 6, n);
    let ext = chars_of(".jsonl");
    if !crate::text::chars_eq(&tail, &ext) {
        return None;
    }
    let stem = crate::text::slice_of(&chars, 0, n - 6);
    let rx = chars_of("rx_");
    let gx = chars_of("gx_");
    if !(crate::text::starts_with_chars(&stem, &rx) || crate::text::starts_with_chars(&stem, &gx)) {
        return None;
    }
    if !all_run_id_chars(&stem) {
        return None;
    }
    Some(string_of(&stem))
}

/// Every character of `v` may stand in a run id.
fn all_run_id_chars(v: &Vec<char>) -> (b: bool)
    ensures
        b == forall|i: int| 0 <= i < v@.len() ==> is_run_id_char(#[trigger] v@[i]),
{
    let mut i: usize = 0;
    while i < v.len()
        invariant
            i <= v.len(),
            forall|k: int| 0 <= k < i ==> is_run_id_char(#[trigger] v@[k]),
        decreases v.len() - i,
    {
        let c = v[i];
        if !(crate::text::ascii_alnum(c) || c == '_' || c == '-') {
            return false;
        }
        i += 1;
    }
    true
}

/// The line number that a ledger's reason names: the index counted from 1.
pub open spec fn line_number(index: usize) -> nat {
    if index == usize::MAX {
        index as nat
    } else {
        (index + 1) as nat
    }
}

/// Why a ledger is invalid: the line that is not JSON, and the parser's words.
pub open spec fn invalid_line_reason(index: usize, message: Seq<char>) -> Seq<char> {
    "line "@ + decimal(line_number(index)) + " is not valid JSON: "@ + message
}

/// The paused runs of the checkpoints whose runs have no receipt yet.
pub open spec fn checkpoint_runs(terminal: Seq<Seq<char>>, checkpoints: Seq<PausedRunCheckpoint>) -> Seq<
    PausedRunView,
>
    decreases checkpoints.len(),
{
    if checkpoints.len() == 0 {
        Seq::empty()
    } else {
        let c = checkpoints.last();
        let rest = checkpoint_runs(terminal, checkpoints.drop_last());
        if terminal.contains(c.id@) {
            rest
        } else {
            rest.push(
                PausedRunView {
                    id: c.id@,
                    name: c.name@,
                    kind: c.kind@,
                    status: "paused"@,
                    started_at: opt_view(c.started_at),
                    selected_runner: opt_view(c.selected_runner),
                    step_ids: texts(c.step_ids@),
                    step_labels: texts(c.step_labels@),
                    ledger_verification: None,
                },
            )
        }
    }
}

/// Some run of `runs` has the id `id`.
pub open spec fn lists_run(runs: Seq<PausedRunView>, id: Seq<char>) -> bool {
    exists|k: int| 0 <= k < runs.len() && (#[trigger] runs[k]).id == id
}

/// The paused runs after reading the ledger files from the `i`-th on, given
/// the runs known so far: a file whose name holds no run id, or whose run is
/// over or known already, is skipped; `None` where a file that is needed
/// could not be read.
pub open spec fn collect_ledger_runs(
    terminal: Seq<Seq<char>>,
    runs: Seq<PausedRunView>,
    files: Seq<LedgerFile>,
    i: int,
) -> Option<Seq<PausedRunView>>
    decreases files.len() - i,
{
    if i < 0 || i >= files.len() {
        Some(runs)
    } else {
        match ledger_run_id_spec(files[i].file_name@) {
            None => collect_ledger_runs(terminal, runs, files, i + 1),
            Some(id) => if terminal.contains(id) || lists_run(runs, id) {
                collect_ledger_runs(terminal, runs, files, i + 1)
            } else {
                match files[i].read {
                    LedgerRead::Unreadable => None,
                    LedgerRead::InvalidLine { index, message } => collect_ledger_runs(
                        terminal,
                        runs.push(invalid_run_view(id, invalid_line_reason(index, message@))),
                        files,
                        i + 1,
                    ),
                    LedgerRead::Entries(entries) => match paused_run_view(
                        id,
                        ledger_events_view(entries@),
                    ) {
                        Some(run) => collect_ledger_runs(terminal, runs.push(run), files, i + 1),
                        None => collect_ledger_runs(terminal, runs, files, i + 1),
                    },
                }
            },
        }
    }
}

/// The paused runs of a store: those of the checkpoints, then those that the
/// ledger files show, leaving out runs that have a receipt; `None` where the
/// ledgers could not be read.
pub open spec fn paused_runs_spec(
    terminal: Seq<Seq<char>>,
    checkpoints: Seq<PausedRunCheckpoint>,
    ledgers: LedgerDirectory,
) -> Option<Seq<PausedRunView>> {
    let from_checkpoints = checkpoint_runs(terminal, checkpoints);
    match ledgers {
        LedgerDirectory::Missing => Some(from_checkpoints),
        LedgerDirectory::Unreadable => None,
        LedgerDirectory::Files(files) => collect_ledger_runs(terminal, from_checkpoints, files@, 0),
    }
}

/// `id` is among `items`.
fn contains_text(items: &Vec<String>, id: &str) -> (b: bool)
    ensures
        b == texts(items@).contains(id@),
{
    let mut i: usize = 0;
    while i < items.len()
        invariant
            i <= items.len(),
            forall|k: int| 0 <= k < i ==> (#[trigger] texts(items@)[k]) != id@,
        decreases items.len() - i,
    {
        assert(texts(items@)[i as int] == items@[i as int]@);
        if str_eq(items[i].as_str(), id) {
            return true;
        }
        i += 1;
    }
    false
}

/// Some run of `runs` has the id `id`.
fn lists_run_exec(runs: &Vec<PausedRunSummary>, id: &str) -> (b: bool)
    ensures
        b == lists_run(views(runs@), id@),
{
    let mut i: usize = 0;
    while i < runs.len()
        invariant
            i <= runs.len(),
            forall|k: int| 0 <= k < i ==> (#[trigger] views(runs@)[k]).id != id@,
        decreases runs.len() - i,
    {
        assert(views(runs@)[i as int] == runs@[i as int]@);
        if str_eq(runs[i].id.as_str(), id) {
            return true;
        }
        i += 1;
    }
    false
}

/// The paused runs of a store: those of the checkpoints, then those that the
/// ledger files show, leaving out runs that have a receipt.
pub fn list_paused_runs(
    terminal_ids: &Vec<String>,
    checkpoints: &[PausedRunCheckpoint],
    ledgers: &LedgerDirectory,
) -> (r: Result<Vec<PausedRunSummary>, JournalProjectionError>)
    ensures
        match paused_runs_spec(texts(terminal_ids@), checkpoints@, *ledgers) {
            Some(runs) => r matches Ok(summaries) && views(summaries@) == runs,
            None => r == Err::<Vec<PausedRunSummary>, JournalProjectionError>(
                JournalProjectionError::LedgerStoreUnreadable,
            ),
        },
{
    let ghost terminal = texts(terminal_ids@);
    let mut summaries: Vec<PausedRunSummary> = Vec::new();
    let mut i: usize = 0;
    while i < checkpoints.len()
        invariant
            i <= checkpoints.len(),
            terminal == texts(terminal_ids@),
            views(summaries@) == checkpoint_runs(terminal, checkpoints@.take(i as int)),
        decreases checkpoints.len() - i,
    {
        proof {
            assert(checkpoints@.take(i + 1).drop_last() =~= checkpoints@.take(i as int));
            assert(checkpoints@.take(i + 1).last() == checkpoints@[i as int]);
        }
        let checkpoint = &checkpoints[i];
        if !contains_text(terminal_ids, checkpoint.id.as_str()) {
            let ghost before = summaries@;
            let summary = paused_run_from_checkpoint(checkpoint);
            summaries.push(summary);
            assert(views(summaries@) =~= views(before).push(summary@));
        }
        i += 1;
    }
    assert(checkpoints@.take(checkpoints@.len() as int) =~= checkpoints@);
    let files = match ledgers {
        LedgerDirectory::Missing => return Ok(summaries),
        LedgerDirectory::Unreadable => return Err(JournalProjectionError::LedgerStoreUnreadable),
        LedgerDirectory::Files(files) => files,
    };
    let mut j: usize = 0;
    while j < files.len()
        invariant
            j <= files.len(),
            terminal == texts(terminal_ids@),
            *ledgers == LedgerDirectory::Files(*files),
            collect_ledger_runs(terminal, views(summaries@), files@, j as int)
                == paused_runs_spec(terminal, checkpoints@, *ledgers),
        decreases files.len() - j,
    {
        let file = &files[j];
        let run_id = match ledger_run_id(file.file_name.as_str()) {
            Some(id) => id,
            None => {
                j += 1;
                continue;
            },
        };
        if contains_text(terminal_ids, run_id.as_str()) || lists_run_exec(
            &summaries,
            run_id.as_str(),
        ) {
            j += 1;
            continue;
        }
        match &file.read {
            LedgerRead::Unreadable => {
                return Err(JournalProjectionError::LedgerStoreUnreadable);
            },
            LedgerRead::InvalidLine { index, message } => {
                let line: usize = index.saturating_add(1);
                let number = decimal_string(line as u64);
                let head = crate::text::concat3("line ", number.as_str(), " is not valid JSON: ");
                let reason = concat(head.as_str(), message.as_str());
                let ghost before = summaries@;
                let summary = invalid_paused_run(run_id.as_str(), reason);
                summaries.push(summary);
                assert(views(summaries@) =~= views(before).push(summary@));
            },
            LedgerRead::Entries(entries) => {
                let events = ledger_events(entries);
                match paused_run_from_events(run_id.as_str(), &events) {
                    Some(summary) => {
                        let ghost before = summaries@;
                        summaries.push(summary);
                        assert(views(summaries@) =~= views(before).push(summary@));
                    },
                    None => {},
                }
            },
        }
        j += 1;
    }
    Ok(summaries)
}

// ---------------------------------------------------------------------------
// Orders
// ---------------------------------------------------------------------------

/// `a` is strictly earlier than `b`.
pub open spec fn timestamp_lt(a: Timestamp, b: Timestamp) -> bool {
    a.epoch_seconds < b.epoch_seconds || (a.epoch_seconds == b.epoch_seconds && a.nanos < b.nanos)
}

/// The timestamp that an optional text denotes.
pub open spec fn optional_timestamp(value: Option<Seq<char>>) -> Option<Timestamp> {
    match value {
        Some(text) => timestamp_of(text),
        None => None,
    }
}

/// Later timestamps first, then text that is no timestamp.
pub open spec fn optional_timestamp_desc(left: Option<Seq<char>>, right: Option<Seq<char>>) -> Ordering {
    match (optional_timestamp(left), optional_timestamp(right)) {
        (Some(a), Some(b)) => if timestamp_lt(b, a) {
            Ordering::Less
        } else if a == b {
            Ordering::Equal
        } else {
            Ordering::Greater
        },
        (Some(_), None) => Ordering::Less,
        (None, Some(_)) => Ordering::Greater,
        (None, None) => Ordering::Equal,
    }
}

/// Orders two optional start times: later timestamps first, then text that
/// is no timestamp.
pub fn compare_optional_timestamp_desc(left: &Option<String>, right: &Option<String>) -> (r:
    Ordering)
    ensures
        r == optional_timestamp_desc(opt_view(*left), opt_view(*right)),
{
    let l = match left {
        Some(text) => Timestamp::parse(text.as_str()),
        None => None,
    };
    let r = match right {
        Some(text) => Timestamp::parse(text.as_str()),
        None => None,
    };
    match (l, r) {
        (Some(a), Some(b)) => {
            if b.at_or_before(&a) && !a.at_or_before(&b) {
                Ordering::Less
            } else if a.epoch_seconds == b.epoch_seconds && a.nanos == b.nanos {
                Ordering::Equal
            } else {
                Ordering::Greater
            }
        },
        (Some(_), None) => Ordering::Less,
        (None, Some(_)) => Ordering::Greater,
        (None, None) => Ordering::Equal,
    }
}

impl SortOrder for LocalHistoryReceipt {
    /// Newest first by creation time (compared as text), then by id.
    open spec fn before(a: HistoryRowView, b: HistoryRowView) -> bool {
        chars_lt(b.created_at, a.created_at) || (a.created_at == b.created_at && chars_lt(a.id, b.id))
    }

    proof fn lemma_strict_weak_order(a: HistoryRowView, b: HistoryRowView, c: HistoryRowView) {
        lemma_key_pair_order(a.created_at, a.id, b.created_at, b.id, c.created_at, c.id);
    }

    fn is_before(&self, other: &Self) -> (r: bool) {
        str_less(other.created_at.as_str(), self.created_at.as_str()) || (str_eq(
            self.created_at.as_str(),
            other.created_at.as_str(),
        ) && str_less(self.id.as_str(), other.id.as_str()))
    }
}

/// Pairs of texts ordered by their first text descending, then their second
/// ascending, form a strict weak order; and so do pairs ordered by both
/// ascending.
proof fn lemma_key_pair_order(
    a1: Seq<char>,
    a2: Seq<char>,
    b1: Seq<char>,
    b2: Seq<char>,
    c1: Seq<char>,
    c2: Seq<char>,
)
    ensures
        ({
            let before = |x1: Seq<char>, x2: Seq<char>, y1: Seq<char>, y2: Seq<char>|
                chars_lt(y1, x1) || (x1 == y1 && chars_lt(x2, y2));
            &&& !before(a1, a2, a1, a2)
            &&& before(a1, a2, b1, b2) && before(b1, b2, c1, c2) ==> before(a1, a2, c1, c2)
            &&& before(a1, a2, c1, c2) ==> before(a1, a2, b1, b2) || before(b1, b2, c1, c2)
        }),
        ({
            let before = |x1: Seq<char>, x2: Seq<char>, y1: Seq<char>, y2: Seq<char>|
                chars_lt(x1, y1) || (x1 == y1 && chars_lt(x2, y2));
            &&& !before(a1, a2, a1, a2)
            &&& before(a1, a2, b1, b2) && before(b1, b2, c1, c2) ==> before(a1, a2, c1, c2)
            &&& before(a1, a2, c1, c2) ==> before(a1, a2, b1, b2) || before(b1, b2, c1, c2)
        }),
{
    lemma_chars_lt_strict(a1, b1, c1);
    lemma_chars_lt_strict(c1, b1, a1);
    lemma_chars_lt_strict(a2, b2, c2);
    lemma_chars_lt_strict(c2, b2, a2);
    lemma_chars_lt_strict(b1, a1, c1);
    lemma_chars_lt_strict(b1, c1, a1);
    lemma_chars_lt_strict(a1, c1, b1);
    lemma_chars_lt_strict(c1, a1, b1);
    lemma_chars_lt_strict(b2, a2, c2);
    lemma_chars_lt_strict(b2, c2, a2);
    lemma_chars_lt_strict(a2, c2, b2);
    lemma_chars_lt_strict(c2, a2, b2);
    lemma_chars_lt_total(a1, b1);
    lemma_chars_lt_total(b1, c1);
    lemma_chars_lt_total(a1, c1);
    lemma_chars_lt_total(a2, b2);
    lemma_chars_lt_total(b2, c2);
    lemma_chars_lt_total(a2, c2);
}

impl SortOrder for PausedRunSummary {
    /// Later start times first, runs without one last, then by id.
    open spec fn before(a: PausedRunView, b: PausedRunView) -> bool {
        match optional_timestamp_desc(a.started_at, b.started_at) {
            Ordering::Less => true,
            Ordering::Greater => false,
            Ordering::Equal => chars_lt(a.id, b.id),
        }
    }

    proof fn lemma_strict_weak_order(a: PausedRunView, b: PausedRunView, c: PausedRunView) {
        lemma_chars_lt_strict(a.id, b.id, c.id);
        lemma_chars_lt_strict(c.id, b.id, a.id);
        lemma_chars_lt_strict(b.id, a.id, c.id);
        lemma_chars_lt_strict(b.id, c.id, a.id);
        lemma_chars_lt_strict(a.id, c.id, b.id);
        lemma_chars_lt_strict(c.id, a.id, b.id);
        lemma_chars_lt_total(a.id, b.id);
        lemma_chars_lt_total(b.id, c.id);
        lemma_chars_lt_total(a.id, c.id);
    }

    fn is_before(&self, other: &Self) -> (r: bool) {
        match compare_optional_timestamp_desc(&self.started_at, &other.started_at) {
            Ordering::Less => true,
            Ordering::Greater => false,
            Ordering::Equal => str_less(self.id.as_str(), other.id.as_str()),
        }
    }
}

// ---------------------------------------------------------------------------
// History
// ---------------------------------------------------------------------------

/// What the caller read of a store: the history rows of its receipts, or the
/// error of reading them, and its ledger directory.
#[derive(Debug, PartialEq, Eq)]
pub struct HistoryListing {
    pub receipts: Result<Vec<LocalHistoryReceipt>, ReceiptStoreError>,
    pub ledgers: LedgerDirectory,
}

/// The filter that the history applies, or the time bound that is no
/// timestamp: its field name and its trimmed text.
pub open spec fn resolved_filter_view(filter: HistoryFilter) -> Result<FilterView, (Seq<char>, Seq<char>)> {
    match (time_bound(opt_view(filter.since)), time_bound(opt_view(filter.until))) {
        (Err(text), _) => Err(("since"@, text)),
        (Ok(_), Err(text)) => Err(("until"@, text)),
        (Ok(since), Ok(until)) => Ok(
            FilterView {
                query: normalized_text(opt_view(filter.query)),
                skill: normalized_text(opt_view(filter.skill)),
                status: normalized_text(opt_view(filter.status)),
                source: normalized_text(opt_view(filter.source)),
                actor: normalized_text(opt_view(filter.actor)),
                artifact_type: normalized_text(opt_view(filter.artifact_type)),
                since,
                until,
                limit: filter.limit,
            },
        ),
    }
}

/// The rows that the filter admits, in order.
pub open spec fn rows_matching(rows: Seq<HistoryRowView>, filter: FilterView) -> Seq<HistoryRowView>
    decreases rows.len(),
{
    if rows.len() == 0 {
        Seq::empty()
    } else if history_row_matches(rows.last(), filter) {
        rows_matching(rows.drop_last(), filter).push(rows.last())
    } else {
        rows_matching(rows.drop_last(), filter)
    }
}

/// The paused runs that the filter admits, in order.
pub open spec fn runs_matching(runs: Seq<PausedRunView>, filter: FilterView) -> Seq<PausedRunView>
    decreases runs.len(),
{
    if runs.len() == 0 {
        Seq::empty()
    } else if paused_run_matches(runs.last(), filter) {
        runs_matching(runs.drop_last(), filter).push(runs.last())
    } else {
        runs_matching(runs.drop_last(), filter)
    }
}

/// The ids of history rows.
pub open spec fn row_ids(rows: Seq<HistoryRowView>) -> Seq<Seq<char>> {
    rows.map_values(|row: HistoryRowView| row.id)
}

/// The first `limit` items of `s`, or all of them where there is no limit.
pub open spec fn limited<A>(s: Seq<A>, limit: Option<usize>) -> Seq<A> {
    match limit {
        Some(n) => if n < s.len() {
            s.take(n as int)
        } else {
            s
        },
        None => s,
    }
}

/// The receipt rows that the history lists: a missing store has none.
pub open spec fn listed_rows(receipts: Result<Vec<LocalHistoryReceipt>, ReceiptStoreError>) -> Result<
    Seq<HistoryRowView>,
    ReceiptStoreError,
> {
    match receipts {
        Ok(rows) => Ok(views(rows@)),
        Err(e) => if e is MissingStore {
            Ok(Seq::empty())
        } else {
            Err(e)
        },
    }
}

/// Keeps the rows that the filter admits.
fn filter_rows(rows: Vec<LocalHistoryReceipt>, filter: &ResolvedHistoryFilter) -> (r: Vec<
    LocalHistoryReceipt,
>)
    ensures
        views(r@) == rows_matching(views(rows@), filter@),
{
    let ghost all = views(rows@);
    let mut rest = rows;
    let mut out: Vec<LocalHistoryReceipt> = Vec::new();
    let ghost mut k: int = 0;
    while rest.len() > 0
        invariant
            0 <= k <= all.len(),
            views(rest@) == all.skip(k),
            rest.len() + k == all.len(),
            views(out@) == rows_matching(all.take(k), filter@),
        decreases rest.len(),
    {
        let ghost old_rest = rest@;
        let row = rest.remove(0);
        proof {
            assert(views(old_rest)[0] == row@);
            assert(all.skip(k)[0] == all[k]);
            assert(views(rest@) =~= views(old_rest).drop_first());
            assert(all.skip(k).drop_first() =~= all.skip(k + 1));
            assert(all.take(k + 1).drop_last() =~= all.take(k));
            assert(all.take(k + 1).last() == row@);
        }
        if matches_history_filter(&row, filter) {
            let ghost before = out@;
            out.push(row);
            assert(views(out@) =~= views(before).push(row@));
        }
        proof {
            k = k + 1;
        }
    }
    assert(all.take(k) =~= all);
    out
}

/// Keeps the paused runs that the filter admits.
fn filter_runs(runs: Vec<PausedRunSummary>, filter: &ResolvedHistoryFilter) -> (r: Vec<
    PausedRunSummary,
>)
    ensures
        views(r@) == runs_matching(views(runs@), filter@),
{
    let ghost all = views(runs@);
    let mut rest = runs;
    let mut out: Vec<PausedRunSummary> = Vec::new();
    let ghost mut k: int = 0;
    while rest.len() > 0
        invariant
            0 <= k <= all.len(),
            views(rest@) == all.skip(k),
            rest.len() + k == all.len(),
            views(out@) == runs_matching(all.take(k), filter@),
        decreases rest.len(),
    {
        let ghost old_rest = rest@;
        let run = rest.remove(0);
        proof {
            assert(views(old_rest)[0] == run@);
            assert(all.skip(k)[0] == all[k]);
            assert(views(rest@) =~= views(old_rest).drop_first());
            assert(all.skip(k).drop_first() =~= all.skip(k + 1));
            assert(all.take(k + 1).drop_last() =~= all.take(k));
            assert(all.take(k + 1).last() == run@);
        }
        if matches_paused_history_filter(&run, filter) {
            let ghost before = out@;
            out.push(run);
            assert(views(out@) =~= views(before).push(run@));
        }
        proof {
            k = k + 1;
        }
    }
    assert(all.take(k) =~= all);
    out
}

/// The ids of the rows.
fn ids_of(rows: &Vec<LocalHistoryReceipt>) -> (r: Vec<String>)
    ensures
        texts(r@) == row_ids(views(rows@)),
{
    let mut ids: Vec<String> = Vec::new();
    let mut i: usize = 0;
    while i < rows.len()
        invariant
            i <= rows.len(),
            texts(ids@) == row_ids(views(rows@)).take(i as int),
        decreases rows.len() - i,
    {
        let ghost before = ids@;
        ids.push(rows[i].id.clone());
        assert(texts(ids@) =~= texts(before).push(rows@[i as int].id@));
        assert(row_ids(views(rows@)).take(i + 1) =~= row_ids(views(rows@)).take(i as int).push(
            rows@[i as int].id@,
        ));
        i += 1;
    }
    assert(row_ids(views(rows@)).take(rows.len() as int) =~= row_ids(views(rows@)));
    ids
}

/// The history of a store, with no checkpoints.
pub fn list_local_history(
    store: &LocalReceiptStore,
    workspace_base: &str,
    project_runx_dir: &str,
    filter: &HistoryFilter,
    listing: HistoryListing,
) -> (r: Result<LocalHistoryProjection, JournalProjectionError>)
    ensures
        history_result(r, store@, workspace_base@, project_runx_dir@, *filter, Seq::empty(), listing),
{
    let none: Vec<PausedRunCheckpoint> = Vec::new();
    list_local_history_with_checkpoints(
        store,
        workspace_base,
        project_runx_dir,
        filter,
        none.as_slice(),
        listing,
    )
}

/// `r` is the history of the store `root`, seen from the workspace, for the
/// filter, checkpoints and listing given.
pub open spec fn history_result(
    r: Result<LocalHistoryProjection, JournalProjectionError>,
    root: Seq<char>,
    workspace_base: Seq<char>,
    project_runx_dir: Seq<char>,
    filter: HistoryFilter,
    checkpoints: Seq<PausedRunCheckpoint>,
    listing: HistoryListing,
) -> bool {
    match resolved_filter_view(filter) {
        Err((field, text)) => r matches Err(JournalProjectionError::InvalidTimestamp { field: f, value: v })
            && f@ == field && v@ == text,
        Ok(f) => match listed_rows(listing.receipts) {
            Err(e) => r == Err::<LocalHistoryProjection, JournalProjectionError>(
                JournalProjectionError::ReceiptStore(e),
            ),
            Ok(rows) => match paused_runs_spec(row_ids(rows), checkpoints, listing.ledgers) {
                None => r == Err::<LocalHistoryProjection, JournalProjectionError>(
                    JournalProjectionError::LedgerStoreUnreadable,
                ),
                Some(runs) => r matches Ok(p) && p.projector_id@ == HISTORY_PROJECTOR_ID@
                    && p.store_label@ == store_label(root, workspace_base, project_runx_dir) && (exists|
                    sorted: Seq<HistoryRowView>,
                |
                    is_stable_sort::<LocalHistoryReceipt>(rows_matching(rows, f), sorted)
                        && views(p.receipts@) == limited(sorted, f.limit)) && is_stable_sort::<
                    PausedRunSummary,
                >(runs_matching(runs, f), views(p.pending_runs@)),
            },
        },
    }
}

/// The history of a store: its receipts newest first and the runs that wait
/// for a resolution, as the filter admits them; at most `limit` receipts.
pub fn list_local_history_with_checkpoints(
    store: &LocalReceiptStore,
    workspace_base: &str,
    project_runx_dir: &str,
    filter: &HistoryFilter,
    checkpoints: &[PausedRunCheckpoint],
    listing: HistoryListing,
) -> (r: Result<LocalHistoryProjection, JournalProjectionError>)
    ensures
        history_result(
            r,
            store@,
            workspace_base@,
            project_runx_dir@,
            *filter,
            checkpoints@,
            listing,
        ),
{
    let label = safe_receipt_store_label(store.root(), workspace_base, project_runx_dir);
    let resolved = match ResolvedHistoryFilter::parse(filter) {
        Ok(resolved) => resolved,
        Err(e) => return Err(e),
    };
    let ghost listing_view = listing;
    let HistoryListing { receipts, ledgers } = listing;
    let all_rows = match receipts {
        Ok(rows) => rows,
        Err(ReceiptStoreError::MissingStore { .. }) => {
            let empty: Vec<LocalHistoryReceipt> = Vec::new();
            assert(views(empty@) =~= Seq::<HistoryRowView>::empty());
            empty
        },
        Err(e) => return Err(JournalProjectionError::ReceiptStore(e)),
    };
    let ghost rows_view = views(all_rows@);
    assert(listing_view.receipts == receipts);
    assert(listed_rows(listing_view.receipts) == Ok::<Seq<HistoryRowView>, ReceiptStoreError>(
        rows_view,
    ));
    let terminal_ids = ids_of(&all_rows);
    let rows = filter_rows(all_rows, &resolved);
    let pending = match list_paused_runs(&terminal_ids, checkpoints, &ledgers) {
        Ok(runs) => runs,
        Err(e) => return Err(e),
    };
    let ghost pending_view = views(pending@);
    let pending = filter_runs(pending, &resolved);
    let mut rows = stable_sort(rows);
    let ghost sorted = views(rows@);
    match resolved.limit {
        Some(n) => {
            rows.truncate(n);
        },
        None => {},
    }
    assert(views(rows@) =~= limited(sorted, resolved.limit));
    let pending_runs = stable_sort(pending);
    Ok(
        LocalHistoryProjection {
            projector_id: String::from_str(HISTORY_PROJECTOR_ID),
            store_label: label.0,
            receipts: rows,
            pending_runs,
        },
    )
}

// ---------------------------------------------------------------------------
// Journals
// ---------------------------------------------------------------------------

/// `runx:receipt:<id>`.
pub fn receipt_uri(receipt_id: &str) -> (r: String)
    ensures
        r@ == RECEIPT_REF_PREFIX@ + receipt_id@,
{
    concat(RECEIPT_REF_PREFIX, receipt_id)
}

/// The receipt id that a reference names: a `runx:receipt:` reference loses
/// its prefix; anything else is taken as an id.
pub fn exact_receipt_id(reference: &str) -> (r: String)
    ensures
        r@ == match crate::text::strip_prefix(reference@, RECEIPT_REF_PREFIX@) {
            Some(id) => id,
            None => reference@,
        },
{
    let chars = chars_of(reference);
    let prefix = chars_of(RECEIPT_REF_PREFIX);
    match crate::text::strip_prefix_chars(&chars, &prefix) {
        Some(id) => string_of(&id),
        None => String::from_str(reference),
    }
}

/// An act of a sealed receipt, as the journal reads it.
#[derive(Clone, Debug, PartialEq, Eq)]
pub struct JournalReceiptAct {
    pub id: String,
    pub summary: String,
    pub artifact_refs: Vec<String>,
}

/// A sealed receipt, as the journal reads it: its disposition as text, the
/// id of its first decision, its acts, and the status of its proof.
#[derive(Clone, Debug, PartialEq, Eq)]
pub struct JournalReceipt {
    pub id: String,
    pub created_at: String,
    pub subject_uri: String,
    pub summary: String,
    pub disposition: String,
    pub first_decision_id: Option<String>,
    pub acts: Vec<JournalReceiptAct>,
    pub verification_status: String,
}

/// A journal row as text.
pub struct JournalRowView {
    pub schema: Seq<char>,
    pub entry_id: Seq<char>,
    pub recorded_at: Seq<char>,
    pub projector_id: Seq<char>,
    pub source_refs: Seq<Seq<char>>,
    pub watermark: Seq<char>,
    pub event_kind: Seq<char>,
    pub summary: Seq<char>,
    pub receipt_ref: Option<Seq<char>>,
    pub harness_ref: Option<Seq<char>>,
    pub act_ref: Option<Seq<char>>,
    pub decision_ref: Option<Seq<char>>,
    pub artifact_refs: Seq<Seq<char>>,
    pub status: Option<Seq<char>>,
    pub verification: Option<Seq<char>>,
}

impl View for JournalProjectionRow {
    type V = JournalRowView;

    open spec fn view(&self) -> JournalRowView {
        JournalRowView {
            schema: self.schema@,
            entry_id: self.entry_id@,
            recorded_at: self.recorded_at@,
            projector_id: self.projector_id@,
            source_refs: texts(self.source_refs@),
            watermark: self.watermark@,
            event_kind: self.event_kind@,
            summary: self.summary@,
            receipt_ref: opt_view(self.receipt_ref),
            harness_ref: opt_view(self.harness_ref),
            act_ref: opt_view(self.act_ref),
            decision_ref: opt_view(self.decision_ref),
            artifact_refs: texts(self.artifact_refs@),
            status: opt_view(self.status),
            verification: match self.verification {
                Some(v) => Some(v.status@),
                None => None,
            },
        }
    }
}

impl SortOrder for JournalProjectionRow {
    /// Earlier rows first, then by entry id.
    open spec fn before(a: JournalRowView, b: JournalRowView) -> bool {
        chars_lt(a.recorded_at, b.recorded_at) || (a.recorded_at == b.recorded_at && chars_lt(
            a.entry_id,
            b.entry_id,
        ))
    }

    proof fn lemma_strict_weak_order(a: JournalRowView, b: JournalRowView, c: JournalRowView) {
        lemma_key_pair_order(a.recorded_at, a.entry_id, b.recorded_at, b.entry_id, c.recorded_at, c.entry_id);
    }

    fn is_before(&self, other: &Self) -> (r: bool) {
        str_less(self.recorded_at.as_str(), other.recorded_at.as_str()) || (str_eq(
            self.recorded_at.as_str(),
            other.recorded_at.as_str(),
        ) && str_less(self.entry_id.as_str(), other.entry_id.as_str()))
    }
}

/// The reference of a receipt.
pub open spec fn receipt_ref_of(receipt: JournalReceipt) -> Seq<char> {
    RECEIPT_REF_PREFIX@ + receipt.id@
}

/// Where a receipt's journal stands: its reference at its creation time.
pub open spec fn watermark_of(receipt: JournalReceipt) -> Seq<char> {
    receipt_ref_of(receipt) + "@"@ + receipt.created_at@
}

/// The row that records the sealing of a receipt.
pub open spec fn receipt_row_view(receipt: JournalReceipt) -> JournalRowView {
    JournalRowView {
        schema: JOURNAL_PROJECTION_SCHEMA@,
        entry_id: "journal:"@ + receipt.id@ + ":receipt"@,
        recorded_at: receipt.created_at@,
        projector_id: JOURNAL_PROJECTOR_ID@,
        source_refs: seq![receipt_ref_of(receipt)],
        watermark: watermark_of(receipt),
        event_kind: "receipt_sealed"@,
        summary: receipt.summary@,
        receipt_ref: Some(receipt_ref_of(receipt)),
        harness_ref: Some(receipt.subject_uri@),
        act_ref: None,
        decision_ref: match receipt.first_decision_id {
            Some(id) => Some("runx:decision:"@ + id@),
            None => None,
        },
        artifact_refs: Seq::empty(),
        status: Some(receipt.disposition@),
        verification: Some(receipt.verification_status@),
    }
}

/// The reference of an act.
pub open spec fn act_ref_of(act: JournalReceiptAct) -> Seq<char> {
    "runx:act:"@ + act.id@
}

/// The row that records the closing of an act of a receipt.
pub open spec fn act_row_view(receipt: JournalReceipt, act: JournalReceiptAct) -> JournalRowView {
    JournalRowView {
        schema: JOURNAL_PROJECTION_SCHEMA@,
        entry_id: "journal:"@ + receipt.id@ + ":act:"@ + act.id@,
        recorded_at: receipt.created_at@,
        projector_id: JOURNAL_PROJECTOR_ID@,
        source_refs: seq![receipt_ref_of(receipt), act_ref_of(act)],
        watermark: watermark_of(receipt),
        event_kind: "act_closed"@,
        summary: act.summary@,
        receipt_ref: Some(receipt_ref_of(receipt)),
        harness_ref: Some(receipt.subject_uri@),
        act_ref: Some(act_ref_of(act)),
        decision_ref: None,
        artifact_refs: texts(act.artifact_refs@),
        status: Some(receipt.disposition@),
        verification: None,
    }
}

/// The rows of a receipt's journal before they are ordered: the receipt's
/// row, then one per act.
pub open spec fn journal_rows_view(receipt: JournalReceipt) -> Seq<JournalRowView> {
    seq![receipt_row_view(receipt)] + receipt.acts@.map_values(
        |act: JournalReceiptAct| act_row_view(receipt, act),
    )
}

/// The row that records the sealing of a receipt.
fn receipt_row(receipt: &JournalReceipt) -> (r: JournalProjectionRow)
    ensures
        r@ == receipt_row_view(*receipt),
{
    let receipt_ref = receipt_uri(receipt.id.as_str());
    let watermark = concat3(receipt_ref.as_str(), "@", receipt.created_at.as_str());
    let mut source_refs: Vec<String> = Vec::new();
    source_refs.push(receipt_ref.clone());
    assert(texts(source_refs@) =~= seq![receipt_ref_of(*receipt)]);
    let decision_ref = match &receipt.first_decision_id {
        Some(id) => Some(concat("runx:decision:", id.as_str())),
        None => None,
    };
    let artifact_refs: Vec<String> = Vec::new();
    assert(texts(artifact_refs@) =~= Seq::<Seq<char>>::empty());
    JournalProjectionRow {
        schema: String::from_str(JOURNAL_PROJECTION_SCHEMA),
        entry_id: concat3("journal:", receipt.id.as_str(), ":receipt"),
        recorded_at: receipt.created_at.clone(),
        projector_id: String::from_str(JOURNAL_PROJECTOR_ID),
        source_refs,
        watermark,
        event_kind: String::from_str("receipt_sealed"),
        summary: receipt.summary.clone(),
        receipt_ref: Some(receipt_ref),
        harness_ref: Some(receipt.subject_uri.clone()),
        act_ref: None,
        decision_ref,
        artifact_refs,
        status: Some(receipt.disposition.clone()),
        verification: Some(
            ReceiptVerificationProjection { status: receipt.verification_status.clone() },
        ),
    }
}

/// The row that records the closing of an act.
fn act_row(receipt: &JournalReceipt, act: &JournalReceiptAct) -> (r: JournalProjectionRow)
    ensures
        r@ == act_row_view(*receipt, *act),
{
    let receipt_ref = receipt_uri(receipt.id.as_str());
    let watermark = concat3(receipt_ref.as_str(), "@", receipt.created_at.as_str());
    let act_ref = concat("runx:act:", act.id.as_str());
    let mut source_refs: Vec<String> = Vec::new();
    source_refs.push(receipt_ref.clone());
    source_refs.push(act_ref.clone());
    assert(texts(source_refs@) =~= seq![receipt_ref_of(*receipt), act_ref_of(*act)]);
    let head = concat3("journal:", receipt.id.as_str(), ":act:");
    JournalProjectionRow {
        schema: String::from_str(JOURNAL_PROJECTION_SCHEMA),
        entry_id: concat(head.as_str(), act.id.as_str()),
        recorded_at: receipt.created_at.clone(),
        projector_id: String::from_str(JOURNAL_PROJECTOR_ID),
        source_refs,
        watermark,
        event_kind: String::from_str("act_closed"),
        summary: act.summary.clone(),
        receipt_ref: Some(receipt_ref),
        harness_ref: Some(receipt.subject_uri.clone()),
        act_ref: Some(act_ref),
        decision_ref: None,
        artifact_refs: clone_texts(&act.artifact_refs),
        status: Some(receipt.disposition.clone()),
        verification: None,
    }
}

/// The journal of a sealed receipt: one row for the receipt and one per act,
/// ordered by time and then by entry id.
pub fn project_receipt_journal(receipt: &JournalReceipt) -> (r: JournalProjection)
    ensures
        r.schema@ == JOURNAL_PROJECTION_SCHEMA@,
        r.projector_id@ == JOURNAL_PROJECTOR_ID@,
        r.receipt_ref@ == receipt_ref_of(*receipt),
        r.watermark@ == watermark_of(*receipt),
        is_stable_sort::<JournalProjectionRow>(journal_rows_view(*receipt), views(r.rows@)),
{
    let ghost expected = journal_rows_view(*receipt);
    let mut rows: Vec<JournalProjectionRow> = Vec::new();
    let first = receipt_row(receipt);
    rows.push(first);
    assert(views(rows@) =~= expected.take(1));
    let mut i: usize = 0;
    while i < receipt.acts.len()
        invariant
            i <= receipt.acts.len(),
            expected == journal_rows_view(*receipt),
            views(rows@) == expected.take(i + 1),
        decreases receipt.acts.len() - i,
    {
        let row = act_row(receipt, &receipt.acts[i]);
        let ghost before = rows@;
        rows.push(row);
        assert(expected[i + 1] == act_row_view(*receipt, receipt.acts@[i as int]));
        assert(views(rows@) =~= views(before).push(row@));
        assert(expected.take(i + 2) =~= expected.take(i + 1).push(expected[i + 1]));
        i += 1;
    }
    assert(expected.take(receipt.acts.len() + 1) =~= expected);
    let receipt_ref = receipt_uri(receipt.id.as_str());
    let watermark = concat3(receipt_ref.as_str(), "@", receipt.created_at.as_str());
    JournalProjection {
        schema: String::from_str(JOURNAL_PROJECTION_SCHEMA),
        projector_id: String::from_str(JOURNAL_PROJECTOR_ID),
        receipt_ref,
        watermark,
        rows: stable_sort(rows),
    }
}

/// The journal of the receipt that the caller read for a reference, or why
/// it could not be read.
pub fn project_journal_for_receipt(read: Result<JournalReceipt, ReceiptStoreError>) -> (r: Result<
    JournalProjection,
    JournalProjectionError,
>)
    ensures
        match read {
            Ok(receipt) => r matches Ok(journal) && journal.receipt_ref@ == receipt_ref_of(receipt)
                && journal.watermark@ == watermark_of(receipt) && is_stable_sort::<
                JournalProjectionRow,
            >(journal_rows_view(receipt), views(journal.rows@)),
            Err(e) => r == Err::<JournalProjection, JournalProjectionError>(
                JournalProjectionError::ReceiptStore(e),
            ),
        },
{
    match read {
        Ok(receipt) => Ok(project_receipt_journal(&receipt)),
        Err(e) => Err(JournalProjectionError::ReceiptStore(e)),
    }
}

} // verus!
