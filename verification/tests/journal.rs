use runx_runtime::journal::ExecutionJournal;
use runx_runtime::lifecycle::ExecutionEvent;
use runx_runtime::journal::{
    clean_string_array, exact_receipt_id, ledger_event, ledger_run_id, list_local_history,
    list_local_history_with_checkpoints, paused_run_from_events, project_journal_for_receipt,
    project_receipt_journal, receipt_uri, HistoryFilter, HistoryListing, JournalProjectionError,
    JournalReceipt, JournalReceiptAct, LedgerDirectory, LedgerEntry, LedgerFile, LedgerRead,
    LocalHistoryReceipt, PausedRunCheckpoint, ReceiptVerificationProjection,
};
use runx_runtime::receipt_store::{LocalReceiptStore, ReceiptStoreError};

fn receipt(id: &str, created_at: &str, status: &str) -> LocalHistoryReceipt {
    LocalHistoryReceipt {
        id: id.to_owned(),
        receipt_ref: format!("runx:receipt:{id}"),
        name: "echo".to_owned(),
        status: status.to_owned(),
        created_at: created_at.to_owned(),
        harness_id: "h".to_owned(),
        harness_state: "sealed".to_owned(),
        summary: "echo ran".to_owned(),
        source_type: Some("cli-tool".to_owned()),
        actors: vec!["operator".to_owned()],
        artifact_types: Vec::new(),
        verification: ReceiptVerificationProjection { status: "verified".to_owned() },
    }
}

fn event(kind: &str, created_at: &str) -> LedgerEntry {
    LedgerEntry {
        entry_type: "run_event".to_owned(),
        kind: kind.to_owned(),
        created_at: Some(created_at.to_owned()),
        producer_skill: Some("deploy".to_owned()),
        producer_runner: Some("runner-a".to_owned()),
        selected_runner: None,
        step_ids: vec!["approve".to_owned(), "  ".to_owned()],
        step_labels: Vec::new(),
    }
}

fn store() -> LocalReceiptStore {
    LocalReceiptStore::new("/ws/.runx/receipts")
}

#[test]
fn receipt_references_round_trip() {
    assert_eq!(receipt_uri("rx_1"), "runx:receipt:rx_1");
    assert_eq!(exact_receipt_id("runx:receipt:rx_1"), "rx_1");
    assert_eq!(exact_receipt_id("rx_1"), "rx_1");
    assert_eq!(exact_receipt_id(&receipt_uri("abc")), "abc");
}

#[test]
fn ledger_file_names_hold_run_ids() {
    assert_eq!(ledger_run_id("rx_1.jsonl"), Some("rx_1".to_owned()));
    assert_eq!(ledger_run_id("gx_a-b.jsonl"), Some("gx_a-b".to_owned()));
    assert_eq!(ledger_run_id("run_1.jsonl"), None);
    assert_eq!(ledger_run_id("rx_1 2.jsonl"), None);
    assert_eq!(ledger_run_id(".jsonl"), None);
    assert_eq!(ledger_run_id("rx_1.json"), None);
}

#[test]
fn blank_strings_are_dropped() {
    let cleaned = clean_string_array(vec!["a".to_owned(), " ".to_owned(), "".to_owned(), "b".to_owned()]);
    assert_eq!(cleaned, vec!["a".to_owned(), "b".to_owned()]);
}

#[test]
fn waiting_run_is_paused_until_a_terminal_event() {
    let events: Vec<_> = [
        event("run_started", "2026-01-01T00:00:00Z"),
        event("resolution_requested", "2026-01-01T00:01:00Z"),
    ]
    .iter()
    .filter_map(ledger_event)
    .collect();
    let paused = paused_run_from_events("run_1", &events).unwrap();
    assert_eq!(paused.name, "deploy");
    assert_eq!(paused.status, "paused");
    assert_eq!(paused.started_at.as_deref(), Some("2026-01-01T00:00:00Z"));
    assert_eq!(paused.selected_runner.as_deref(), Some("runner-a"));
    assert_eq!(paused.step_ids, vec!["approve".to_owned()]);

    let mut finished = events.clone();
    finished.push(ledger_event(&event("run_completed", "2026-01-01T00:02:00Z")).unwrap());
    assert_eq!(paused_run_from_events("run_1", &finished), None);

    let mut other = event("run_started", "x");
    other.entry_type = "checkpoint".to_owned();
    assert_eq!(ledger_event(&other), None);
}

#[test]
fn history_lists_newest_first_with_limit() {
    let filter = HistoryFilter { limit: Some(2), ..HistoryFilter::default() };
    let listing = HistoryListing {
        receipts: Ok(vec![
            receipt("a", "2026-01-01T00:00:00Z", "sealed"),
            receipt("b", "2026-01-03T00:00:00Z", "sealed"),
            receipt("c", "2026-01-02T00:00:00Z", "sealed"),
        ]),
        ledgers: LedgerDirectory::Missing,
    };
    let history = list_local_history(&store(), "/ws", "/ws/.runx", &filter, listing).unwrap();
    let ids: Vec<&str> = history.receipts.iter().map(|r| r.id.as_str()).collect();
    assert_eq!(ids, vec!["b", "c"]);
    assert_eq!(history.store_label, ".runx/receipts");
    assert_eq!(history.projector_id, "runx-runtime.local-history.v1");
    assert!(history.pending_runs.is_empty());
}

#[test]
fn history_filters_by_status_and_time() {
    let filter = HistoryFilter {
        status: Some(" Failed ".to_owned()),
        since: Some("2026-01-02T00:00:00Z".to_owned()),
        ..HistoryFilter::default()
    };
    let listing = HistoryListing {
        receipts: Ok(vec![
            receipt("a", "2026-01-01T00:00:00Z", "failed"),
            receipt("b", "2026-01-03T00:00:00Z", "failed"),
            receipt("c", "2026-01-04T00:00:00Z", "sealed"),
        ]),
        ledgers: LedgerDirectory::Missing,
    };
    let history = list_local_history(&store(), "/ws", "/ws/.runx", &filter, listing).unwrap();
    let ids: Vec<&str> = history.receipts.iter().map(|r| r.id.as_str()).collect();
    assert_eq!(ids, vec!["b"]);
}

#[test]
fn invalid_time_bound_is_refused() {
    let filter = HistoryFilter { until: Some(" yesterday ".to_owned()), ..HistoryFilter::default() };
    let listing = HistoryListing { receipts: Ok(Vec::new()), ledgers: LedgerDirectory::Missing };
    assert_eq!(
        list_local_history(&store(), "/ws", "/ws/.runx", &filter, listing),
        Err(JournalProjectionError::InvalidTimestamp { field: "until", value: "yesterday".to_owned() })
    );
}

#[test]
fn missing_store_is_an_empty_history_and_unreadable_ledgers_fail() {
    let listing = HistoryListing {
        receipts: Err(ReceiptStoreError::MissingStore { path: "/ws/.runx/receipts".to_owned() }),
        ledgers: LedgerDirectory::Missing,
    };
    let history =
        list_local_history(&store(), "/ws", "/ws/.runx", &HistoryFilter::default(), listing).unwrap();
    assert!(history.receipts.is_empty());

    let listing = HistoryListing { receipts: Ok(Vec::new()), ledgers: LedgerDirectory::Unreadable };
    assert_eq!(
        list_local_history(&store(), "/ws", "/ws/.runx", &HistoryFilter::default(), listing),
        Err(JournalProjectionError::LedgerStoreUnreadable)
    );
}

#[test]
fn paused_runs_come_from_checkpoints_and_ledgers_but_not_finished_receipts() {
    let checkpoint = PausedRunCheckpoint {
        id: "run_cp".to_owned(),
        name: "checkpointed".to_owned(),
        kind: "runx.harness.v1".to_owned(),
        started_at: Some("2026-01-01T00:00:00Z".to_owned()),
        selected_runner: None,
        step_ids: Vec::new(),
        step_labels: Vec::new(),
    };
    let ledgers = LedgerDirectory::Files(vec![
        LedgerFile {
            file_name: "rx_led.jsonl".to_owned(),
            read: LedgerRead::Entries(vec![
                event("run_started", "2026-01-05T00:00:00Z"),
                event("step_waiting_resolution", "2026-01-05T00:01:00Z"),
            ]),
        },
        LedgerFile {
            file_name: "rx_done.jsonl".to_owned(),
            read: LedgerRead::Entries(vec![event("resolution_requested", "2026-01-06T00:00:00Z")]),
        },
    ]);
    let listing = HistoryListing {
        receipts: Ok(vec![receipt("rx_done", "2026-01-07T00:00:00Z", "sealed")]),
        ledgers,
    };
    let history = list_local_history_with_checkpoints(
        &store(),
        "/ws",
        "/ws/.runx",
        &HistoryFilter::default(),
        &[checkpoint],
        listing,
    )
    .unwrap();
    let ids: Vec<&str> = history.pending_runs.iter().map(|r| r.id.as_str()).collect();
    assert_eq!(ids, vec!["rx_led", "run_cp"]);
}

#[test]
fn journal_rows_are_ordered_by_time_then_entry_id() {
    let sealed = JournalReceipt {
        id: "rx".to_owned(),
        created_at: "2026-01-01T00:00:00Z".to_owned(),
        subject_uri: "runx:harness:h".to_owned(),
        summary: "sealed".to_owned(),
        disposition: "closed".to_owned(),
        first_decision_id: Some("d1".to_owned()),
        acts: vec![JournalReceiptAct {
            id: "a1".to_owned(),
            summary: "act".to_owned(),
            artifact_refs: vec!["runx:artifact:x".to_owned()],
        }],
        verification_status: "verified".to_owned(),
    };
    let journal = project_receipt_journal(&sealed);
    assert_eq!(journal.receipt_ref, "runx:receipt:rx");
    assert_eq!(journal.watermark, "runx:receipt:rx@2026-01-01T00:00:00Z");
    let entry_ids: Vec<&str> = journal.rows.iter().map(|r| r.entry_id.as_str()).collect();
    assert_eq!(entry_ids, vec!["journal:rx:act:a1", "journal:rx:receipt"]);
    assert_eq!(journal.rows[1].decision_ref.as_deref(), Some("runx:decision:d1"));
    assert_eq!(journal.rows[0].event_kind, "act_closed");

    let missing = ReceiptStoreError::MissingReceipt { path: "p".to_owned() };
    assert_eq!(
        project_journal_for_receipt(Err(missing.clone())),
        Err(JournalProjectionError::ReceiptStore(missing))
    );
}

#[test]
fn execution_journal_keeps_events_in_order() {
    let mut journal = ExecutionJournal::default();
    assert!(journal.entries().is_empty());
    journal.push(ExecutionEvent::StepStarted { message: "first".to_owned(), data: None });
    journal.push(ExecutionEvent::Completed { message: "second".to_owned(), data: None });
    let entries = journal.entries();
    assert_eq!(entries.len(), 2);
    assert!(matches!(&entries[0].event, ExecutionEvent::StepStarted { message, .. } if message == "first"));
    assert!(matches!(&entries[1].event, ExecutionEvent::Completed { message, .. } if message == "second"));
}
