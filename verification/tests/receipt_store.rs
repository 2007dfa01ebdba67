use runx_runtime::env::EnvVars;
use runx_runtime::receipt_paths::{
    join_path, lexical_normalize, resolve_receipt_path, safe_receipt_store_label,
    safe_receipt_store_projection, ReceiptPathInputs, ReceiptPathSource, ReceiptStoreLabel,
    RuntimeReceiptConfig,
};
use runx_runtime::receipt_store::{
    check_receipt_identity, receipt_file_name, receipt_file_stem, receipt_write_action,
    LocalReceiptStore, ReceiptStoreError, ReceiptStoreIndex, ReceiptStoreIndexEntry,
    ReceiptWriteAction,
};
use runx_runtime::timestamp::Timestamp;

#[test]
fn receipt_file_names_refuse_path_separators() {
    assert_eq!(receipt_file_name("rx_1"), Ok("rx_1.json".to_owned()));
    for bad in ["", ".", "..", "a/b", "a\\b"] {
        assert_eq!(
            receipt_file_name(bad),
            Err(ReceiptStoreError::InvalidReceiptId { receipt_id: bad.to_owned() })
        );
    }
    assert_eq!(receipt_file_stem("rx_1.json"), Some("rx_1".to_owned()));
    assert_eq!(receipt_file_stem("index.json"), None);
    assert_eq!(receipt_file_stem(".json"), None);
    assert_eq!(receipt_file_stem("notes.txt"), None);
}

#[test]
fn writing_the_same_receipt_twice_is_a_no_op() {
    let bytes = b"{\"id\":1}".to_vec();
    assert_eq!(receipt_write_action(None, &bytes, "rx"), Ok(ReceiptWriteAction::WriteNew));
    assert_eq!(receipt_write_action(Some(&bytes), &bytes, "rx"), Ok(ReceiptWriteAction::AlreadyStored));
    assert_eq!(
        receipt_write_action(Some(&b"{}".to_vec()), &bytes, "rx"),
        Err(ReceiptStoreError::ReceiptAlreadyExists { receipt_id: "rx".to_owned() })
    );
}

#[test]
fn receipt_identity_checks_schema_then_id() {
    assert_eq!(check_receipt_identity("p", Some("runx.receipt.v1"), "runx.receipt.v1", "a", "a"), Ok(()));
    assert_eq!(
        check_receipt_identity("p", None, "runx.receipt.v1", "a", "a"),
        Err(ReceiptStoreError::WrongSchema { path: "p".to_owned(), schema: "<missing>".to_owned() })
    );
    assert_eq!(
        check_receipt_identity("p", Some("runx.receipt.v1"), "runx.receipt.v1", "a", "b"),
        Err(ReceiptStoreError::IdFilenameMismatch {
            path: "p".to_owned(),
            receipt_id: "a".to_owned(),
            file_stem: "b".to_owned()
        })
    );
}

#[test]
fn index_is_rebuilt_in_receipt_id_order_and_checked_against_files() {
    let store = LocalReceiptStore::new("/ws/.runx/receipts");
    assert_eq!(store.index_path(), "/ws/.runx/receipts/index.json");
    let listing = vec![("a".to_owned(), "t1".to_owned()), ("b".to_owned(), "t2".to_owned())];
    let index = store.rebuild_index(&listing, "now".to_owned());
    assert_eq!(index.schema, "runx.receipt_store_index.v1");
    assert_eq!(index.entries[1].file_name, "b.json");

    let unsorted = vec![
        ("c".to_owned(), "t3".to_owned()),
        ("a".to_owned(), "t1".to_owned()),
        ("b".to_owned(), "t2".to_owned()),
    ];
    let sorted = store.rebuild_index(&unsorted, "now".to_owned());
    let ids: Vec<&str> = sorted.entries.iter().map(|e| e.receipt_id.as_str()).collect();
    assert_eq!(ids, vec!["a", "b", "c"]);
    assert_eq!(sorted.entries[2].created_at, "t3");
    assert_eq!(store.load_index(Some(sorted.clone()), &unsorted, "x".to_owned()), Ok(sorted));

    let loaded = store.load_index(Some(index.clone()), &listing, "later".to_owned());
    assert_eq!(loaded, Ok(index.clone()));

    let stale = store.load_index(Some(index), &listing[..1].to_vec(), "later".to_owned());
    assert!(matches!(stale, Err(ReceiptStoreError::ReceiptIndexStale { .. })));

    let foreign = ReceiptStoreIndex {
        schema: "other".to_owned(),
        generated_at: "x".to_owned(),
        entries: Vec::new(),
    };
    assert_eq!(
        store.load_index(Some(foreign), &Vec::new(), "x".to_owned()),
        Err(ReceiptStoreError::MalformedIndex {
            path: "/ws/.runx/receipts/index.json".to_owned(),
            message: "unsupported index schema other".to_owned()
        })
    );
}

#[test]
fn appending_keeps_entries_in_receipt_id_order() {
    let store = LocalReceiptStore::new("/r");
    let index = ReceiptStoreIndex {
        schema: "runx.receipt_store_index.v1".to_owned(),
        generated_at: "t0".to_owned(),
        entries: vec![
            ReceiptStoreIndexEntry {
                receipt_id: "a".to_owned(),
                file_name: "a.json".to_owned(),
                created_at: "t1".to_owned(),
            },
            ReceiptStoreIndexEntry {
                receipt_id: "c".to_owned(),
                file_name: "c.json".to_owned(),
                created_at: "t3".to_owned(),
            },
        ],
    };
    let appended = store.append_index_entry(index.clone(), "b", "t2", 3, "t9".to_owned()).unwrap();
    let ids: Vec<&str> = appended.entries.iter().map(|e| e.receipt_id.as_str()).collect();
    assert_eq!(ids, vec!["a", "b", "c"]);
    assert_eq!(appended.generated_at, "t9");

    let duplicate = store.append_index_entry(index.clone(), "a", "t2", 3, "t9".to_owned());
    assert_eq!(
        duplicate,
        Err(ReceiptStoreError::ReceiptIndexStale {
            path: "/r/index.json".to_owned(),
            message: "index already contains receipt id".to_owned()
        })
    );
    let miscounted = store.append_index_entry(index, "b", "t2", 5, "t9".to_owned());
    assert_eq!(
        miscounted,
        Err(ReceiptStoreError::ReceiptIndexStale {
            path: "/r/index.json".to_owned(),
            message: "index entry count does not match receipt JSON files".to_owned()
        })
    );
}

#[test]
fn public_messages_name_the_label_never_the_path() {
    let label = ReceiptStoreLabel(".runx/receipts".to_owned());
    let error = ReceiptStoreError::MissingReceipt { path: "/secret/home/rx.json".to_owned() };
    let message = error.public_message(&label);
    assert_eq!(message, "receipt is missing in store .runx/receipts");
    assert!(!message.contains("/secret"));
}

#[test]
fn store_labels_hide_absolute_paths() {
    assert_eq!(
        safe_receipt_store_label("/ws/.runx/receipts", "/ws", "/ws/.runx").0,
        ".runx/receipts"
    );
    assert_eq!(
        safe_receipt_store_label("/proj/.runx/receipts", "/ws", "/proj/.runx").0,
        "runx-project:receipts"
    );
    assert_eq!(
        safe_receipt_store_label("/srv/receipts", "/ws", "/ws/.runx").0,
        "external-receipt-store:3d5328a02c323e19"
    );
    let projection = safe_receipt_store_projection("/ws/.runx/receipts", "/ws", "/ws/.runx");
    assert_eq!(projection.summary(), "receipt store: .runx/receipts");
}

#[test]
fn paths_normalize_lexically() {
    assert_eq!(lexical_normalize("/a/./b/../c"), "/a/c");
    assert_eq!(join_path("/a", "b"), "/a/b");
    assert_eq!(join_path("/a", "/b"), "/b");
}

fn inputs<'a>(
    env: &'a EnvVars,
    explicit: Option<&'a str>,
    config: Option<&'a RuntimeReceiptConfig>,
) -> ReceiptPathInputs<'a> {
    ReceiptPathInputs {
        explicit_dir: explicit,
        runtime_config: config,
        env,
        cwd: "project",
        process_cwd: "/home/op",
    }
}

#[test]
fn receipt_path_precedence() {
    let mut env = EnvVars::new();
    let resolved = resolve_receipt_path(inputs(&env, None, None));
    assert_eq!(resolved.path, "/home/op/project/.runx/receipts");
    assert_eq!(resolved.source, ReceiptPathSource::ProjectDefault);
    assert_eq!(resolved.label.0, ".runx/receipts");

    env.insert("RUNX_RECEIPT_DIR".to_owned(), "out".to_owned());
    let resolved = resolve_receipt_path(inputs(&env, None, None));
    assert_eq!(resolved.path, "/home/op/project/out");
    assert_eq!(resolved.source, ReceiptPathSource::Environment);

    let config = RuntimeReceiptConfig { dir: Some("/var/receipts".to_owned()) };
    let resolved = resolve_receipt_path(inputs(&env, None, Some(&config)));
    assert_eq!(resolved.path, "/var/receipts");
    assert_eq!(resolved.source, ReceiptPathSource::RuntimeConfig);

    let resolved = resolve_receipt_path(inputs(&env, Some("here"), Some(&config)));
    assert_eq!(resolved.path, "/home/op/project/here");
    assert_eq!(resolved.source, ReceiptPathSource::ExplicitInput);
}

#[test]
fn timestamps_parse_to_epoch_seconds() {
    assert_eq!(
        Timestamp::parse("1970-01-01T00:00:00Z"),
        Some(Timestamp { epoch_seconds: 0, nanos: 0 })
    );
    assert_eq!(
        Timestamp::parse("2026-06-01T00:05:00Z"),
        Some(Timestamp { epoch_seconds: 1_780_272_300, nanos: 0 })
    );
    assert_eq!(
        Timestamp::parse("2024-02-29T12:00:00.5+02:00"),
        Some(Timestamp { epoch_seconds: 1_709_200_800, nanos: 500_000_000 })
    );
    assert_eq!(Timestamp::parse("2023-02-29T00:00:00Z"), None);
    assert_eq!(Timestamp::parse("2026-06-01 00:05:00Z"), None);
    assert_eq!(Timestamp::parse("2026-06-01T24:00:00Z"), None);
}

#[test]
fn offsets_order_instants_not_wall_clocks() {
    let utc = Timestamp::parse("2026-01-01T10:00:00Z").unwrap();
    let east = Timestamp::parse("2026-01-01T11:00:00+01:00").unwrap();
    let later = Timestamp::parse("2026-01-01T10:00:00.000000001Z").unwrap();
    assert_eq!(utc, east);
    assert!(utc.at_or_before(&east) && east.at_or_before(&utc));
    assert!(utc.at_or_before(&later));
    assert!(!later.at_or_before(&utc));
}

#[test]
fn store_labels_are_never_absolute() {
    for (dir, ws, proj) in [
        ("/ws/.runx/receipts", "/ws", "/ws/.runx"),
        ("/ws/.runx", "/ws", "/ws/.runx"),
        ("/proj/.runx/a/../b", "/ws", "/proj/.runx"),
        ("relative/receipts", "/ws", "/ws/.runx"),
        ("/", "/", "/"),
    ] {
        let label = safe_receipt_store_label(dir, ws, proj).0;
        assert!(!label.starts_with('/'), "{label}");
    }
    assert_eq!(safe_receipt_store_label("/", "/", "/").0, ".");
}
