use runx_runtime::json::{json_equal, JsonNumber, JsonValue};
use runx_runtime::payment_ledger::{
    artifact_write_needed, build_payment_ledger_projection, is_same_payment_ledger_event,
    ledger_append_needed, payment_ledger_projected_record,
    payment_ledger_artifact_dir, payment_ledger_path, payment_ledger_projection_artifact,
    source_receipt_file_stem, validate_run_ledger_id, EvidenceAct, EvidenceReference,
    LedgerReceipt, PaidToolEvidence, PaymentLedgerDisposition, PaymentLedgerEvidence,
    PaymentLedgerEvidencePacket, PaymentLedgerProjectedEventPayload,
    PaymentLedgerProjectionError, PaymentLedgerProjectionInput, PaymentRailSettlementEvidence,
    PaymentRefusalEvidence, PaymentReservationEvidence, PaymentSupervisorProof,
    PAYMENT_LEDGER_PROJECTION_SCHEMA_VERSION, X402_PAY_PAYMENT_PROFILE,
};

fn receipt(id: &str, digest: &str, subject: &str, acts: Vec<EvidenceAct>) -> LedgerReceipt {
    LedgerReceipt {
        id: id.to_owned(),
        digest: digest.to_owned(),
        subject_uri: subject.to_owned(),
        acts,
        child_receipt_uris: Vec::new(),
    }
}

fn graph(children: &[&str]) -> LedgerReceipt {
    LedgerReceipt {
        id: "graph_1".to_owned(),
        digest: "sha256:graph".to_owned(),
        subject_uri: "runx:harness:graph".to_owned(),
        acts: Vec::new(),
        child_receipt_uris: children.iter().map(|c| format!("runx:receipt:{c}")).collect(),
    }
}

fn reservation() -> PaymentReservationEvidence {
    PaymentReservationEvidence {
        amount_minor: 250,
        currency: "USD".to_owned(),
        rail: "x402".to_owned(),
        counterparty: "tool.example".to_owned(),
        operation: "echo".to_owned(),
        idempotency_key: "idem_1".to_owned(),
        spend_capability_ref: "runx:spend:cap_1".to_owned(),
    }
}

fn rail_act(proof_ref: &str, locator: &str) -> EvidenceAct {
    EvidenceAct {
        id: "act_rail".to_owned(),
        verification_refs: vec![EvidenceReference {
            payment_rail_proof: true,
            uri: proof_ref.to_owned(),
            locator: Some(locator.to_owned()),
        }],
    }
}

fn supervisor_proof() -> PaymentSupervisorProof {
    PaymentSupervisorProof {
        proof_ref: "runx:rail:proof_1".to_owned(),
        rail: "x402".to_owned(),
        counterparty: "tool.example".to_owned(),
        amount_minor: 250,
        currency: "USD".to_owned(),
        idempotency_key: "idem_1".to_owned(),
        spend_capability_ref: "runx:spend:cap_1".to_owned(),
        act_id: "act_rail".to_owned(),
        receipt_ref: "rail_step".to_owned(),
        receipt_digest: "sha256:rail".to_owned(),
    }
}

fn settlement(proof: Option<PaymentSupervisorProof>) -> PaymentRailSettlementEvidence {
    PaymentRailSettlementEvidence {
        amount_minor: 250,
        currency: "USD".to_owned(),
        rail: "x402".to_owned(),
        proof_ref: "runx:rail:proof_1".to_owned(),
        idempotency_key: "idem_1".to_owned(),
        supervisor_proof: proof,
    }
}

fn settled_input(proof: Option<PaymentSupervisorProof>) -> PaymentLedgerProjectionInput {
    PaymentLedgerProjectionInput {
        graph_receipt: graph(&["reserve_step", "rail_step"]),
        scenario_id: "scenario_a".to_owned(),
        evidence: vec![
            PaymentLedgerEvidence {
                receipt: receipt("reserve_step", "sha256:reserve", "runx:harness:reserve", Vec::new()),
                packet: PaymentLedgerEvidencePacket::Reservation(reservation()),
            },
            PaymentLedgerEvidence {
                receipt: receipt(
                    "rail_step",
                    "sha256:rail",
                    "runx:harness:rail",
                    vec![rail_act("runx:rail:proof_1", "idem_1")],
                ),
                packet: PaymentLedgerEvidencePacket::RailSettlement(Box::new(settlement(proof))),
            },
        ],
    }
}

#[test]
fn settled_payment_accrues_the_settled_amount() {
    let projection =
        build_payment_ledger_projection(settled_input(Some(supervisor_proof()))).expect("settles");
    assert_eq!(projection.schema_version, PAYMENT_LEDGER_PROJECTION_SCHEMA_VERSION);
    assert_eq!(projection.payment_profile, X402_PAY_PAYMENT_PROFILE);
    assert_eq!(projection.source_receipt_id, "runx:receipt:graph_1");
    assert_eq!(projection.disposition, PaymentLedgerDisposition::Settled);
    assert_eq!(projection.accrual.amount_minor, 250);
    assert_eq!(projection.accrual.counterparty, "tool.example");
    assert_eq!(projection.accrual.rail_proof_refs, vec!["runx:rail:proof_1".to_owned()]);
    assert!(projection.refusal.is_none());
    assert_eq!(
        projection.evidence_refs,
        vec![
            "runx:harness:rail".to_owned(),
            "runx:receipt:rail_step".to_owned(),
            "runx:spend:cap_1".to_owned(),
        ]
    );
}

#[test]
fn refusal_accrues_nothing() {
    let mut input = settled_input(Some(supervisor_proof()));
    input.evidence.push(PaymentLedgerEvidence {
        receipt: receipt("rail_step", "sha256:rail", "runx:harness:rail", Vec::new()),
        packet: PaymentLedgerEvidencePacket::Refusal(PaymentRefusalEvidence {
            reason_code: "budget_exceeded".to_owned(),
            refused_stage: "pay".to_owned(),
            rail_call_performed: false,
            ledger_spend_recorded: false,
        }),
    });
    let projection = build_payment_ledger_projection(input).expect("refused projection");
    assert_eq!(projection.disposition, PaymentLedgerDisposition::Refused);
    assert_eq!(projection.accrual.amount_minor, 0);
    assert!(projection.accrual.rail_proof_refs.is_empty());
    let refusal = projection.refusal.expect("refusal recorded");
    assert_eq!(refusal.reason_code, "budget_exceeded");
    assert_eq!(refusal.refused_stage, "pay");
    // The subject and receipt of the rail step appear once, though two
    // evidence packets name them.
    assert_eq!(
        projection.evidence_refs,
        vec![
            "runx:harness:rail".to_owned(),
            "runx:receipt:rail_step".to_owned(),
            "runx:spend:cap_1".to_owned(),
        ]
    );
}

#[test]
fn unreferenced_child_receipt_is_refused() {
    let mut input = settled_input(Some(supervisor_proof()));
    input.graph_receipt = graph(&["reserve_step"]);
    assert_eq!(
        build_payment_ledger_projection(input).err(),
        Some(PaymentLedgerProjectionError::ChildReceiptNotReferenced {
            graph_receipt_id: "graph_1".to_owned(),
            child_receipt_id: "rail_step".to_owned(),
        })
    );
}

#[test]
fn missing_reservation_and_disposition_are_refused() {
    let mut input = settled_input(None);
    input.evidence.remove(0);
    assert_eq!(
        build_payment_ledger_projection(input).err(),
        Some(PaymentLedgerProjectionError::MissingReservation)
    );
    let mut input = settled_input(None);
    input.evidence.remove(1);
    assert_eq!(
        build_payment_ledger_projection(input).err(),
        Some(PaymentLedgerProjectionError::MissingDispositionEvidence)
    );
}

#[test]
fn settlement_checks_fail_in_order() {
    let mut input = settled_input(Some(supervisor_proof()));
    if let PaymentLedgerEvidencePacket::RailSettlement(s) = &mut input.evidence[1].packet {
        s.amount_minor = 999;
    }
    assert_eq!(
        build_payment_ledger_projection(input).err(),
        Some(PaymentLedgerProjectionError::SettlementReservationMismatch)
    );

    let mut input = settled_input(Some(supervisor_proof()));
    input.evidence[1].receipt.acts = vec![rail_act("runx:rail:proof_1", "other_key")];
    assert_eq!(
        build_payment_ledger_projection(input).err(),
        Some(PaymentLedgerProjectionError::MissingReceiptRailProof {
            receipt_id: "rail_step".to_owned(),
            proof_ref: "runx:rail:proof_1".to_owned(),
        })
    );

    assert_eq!(
        build_payment_ledger_projection(settled_input(None)).err(),
        Some(PaymentLedgerProjectionError::MissingSupervisorProof {
            proof_ref: "runx:rail:proof_1".to_owned(),
        })
    );

    let mut proof = supervisor_proof();
    proof.receipt_digest = "sha256:other".to_owned();
    assert_eq!(
        build_payment_ledger_projection(settled_input(Some(proof))).err(),
        Some(PaymentLedgerProjectionError::SupervisorProofMismatch {
            message: "receipt_digest".to_owned(),
        })
    );

    let mut input = settled_input(Some(supervisor_proof()));
    input.evidence.push(PaymentLedgerEvidence {
        receipt: receipt("reserve_step", "sha256:reserve", "runx:harness:reserve", Vec::new()),
        packet: PaymentLedgerEvidencePacket::PaidTool(PaidToolEvidence {
            payment_proof_ref: "runx:rail:other".to_owned(),
        }),
    });
    assert_eq!(
        build_payment_ledger_projection(input).err(),
        Some(PaymentLedgerProjectionError::PaidToolProofMismatch {
            proof_ref: "runx:rail:other".to_owned(),
        })
    );
}

#[test]
fn artifact_is_named_by_profile_and_source_receipt() {
    let projection =
        build_payment_ledger_projection(settled_input(Some(supervisor_proof()))).expect("settles");
    let artifact = payment_ledger_projection_artifact("/tmp/receipts", &projection).expect("valid");
    assert_eq!(artifact.artifact_id, "x402-pay:runx:receipt:graph_1");
    assert_eq!(
        artifact.path,
        "/tmp/receipts/artifacts/payment-ledger/x402-pay/graph_1.json"
    );
    assert_eq!(artifact.event_payload.kind, "payment_ledger_projected");
    assert_eq!(artifact.event_payload.projection_artifact_path, artifact.path);
    assert_eq!(
        payment_ledger_artifact_dir("/tmp/receipts", "x402-pay"),
        "/tmp/receipts/artifacts/payment-ledger/x402-pay"
    );
}

#[test]
fn source_receipt_stems_hold_no_path_separators() {
    assert_eq!(
        source_receipt_file_stem("runx:receipt:sha256:ab12").ok(),
        Some("sha256:ab12".to_owned())
    );
    assert!(source_receipt_file_stem("runx:receipt:../x").is_err());
    assert!(source_receipt_file_stem("runx:receipt:").is_err());
    assert_eq!(
        source_receipt_file_stem("receipt:abc").err(),
        Some(PaymentLedgerProjectionError::InvalidSourceReceiptId {
            source_receipt_id: "receipt:abc".to_owned(),
        })
    );
}

#[test]
fn existing_artifact_is_kept_or_conflicts() {
    let contents = b"{}\n".to_vec();
    assert_eq!(artifact_write_needed(None, &contents, "p"), Ok(true));
    assert_eq!(artifact_write_needed(Some(&contents), &contents, "p"), Ok(false));
    assert_eq!(
        artifact_write_needed(Some(&b"[]\n".to_vec()), &contents, "p"),
        Err(PaymentLedgerProjectionError::ArtifactConflict { path: "p".to_owned() })
    );
}

#[test]
fn run_ledger_ids_name_safe_files() {
    assert!(validate_run_ledger_id("run_1-a").is_ok());
    assert!(validate_run_ledger_id("").is_err());
    assert_eq!(
        validate_run_ledger_id("../x"),
        Err(PaymentLedgerProjectionError::InvalidRunLedgerId { run_id: "../x".to_owned() })
    );
    assert_eq!(payment_ledger_path("/r", "run_1"), "/r/ledgers/run_1.jsonl");
}

fn obj(members: Vec<(&str, JsonValue)>) -> JsonValue {
    JsonValue::Object(members.into_iter().map(|(k, v)| (k.to_owned(), v)).collect())
}

fn text(s: &str) -> JsonValue {
    JsonValue::String(s.to_owned())
}

#[test]
fn ledger_event_identity_is_source_and_artifact() {
    let payload = PaymentLedgerProjectedEventPayload {
        kind: "payment_ledger_projected".to_owned(),
        payment_profile: "x402-pay".to_owned(),
        projection_artifact_id: "x402-pay:runx:receipt:g".to_owned(),
        projection_artifact_path: "/r/a.json".to_owned(),
        source_receipt_id: "runx:receipt:g".to_owned(),
        scenario_id: "s".to_owned(),
        disposition: PaymentLedgerDisposition::Settled,
    };
    let record = |source: &str| {
        obj(vec![(
            "entry",
            obj(vec![
                ("type", text("run_event")),
                (
                    "data",
                    obj(vec![
                        ("kind", text("payment_ledger_projected")),
                        (
                            "detail",
                            obj(vec![
                                ("source_receipt_id", text(source)),
                                ("projection_artifact_id", text("x402-pay:runx:receipt:g")),
                            ]),
                        ),
                    ]),
                ),
            ]),
        )])
    };
    assert!(is_same_payment_ledger_event(&record("runx:receipt:g"), &payload));
    assert!(!is_same_payment_ledger_event(&record("runx:receipt:h"), &payload));
    assert!(!is_same_payment_ledger_event(&JsonValue::Null, &payload));
}

fn projected_payload() -> PaymentLedgerProjectedEventPayload {
    PaymentLedgerProjectedEventPayload {
        kind: "payment_ledger_projected".to_owned(),
        payment_profile: "x402-pay".to_owned(),
        projection_artifact_id: "x402-pay:runx:receipt:gx_1".to_owned(),
        projection_artifact_path: "/r/artifacts/payment-ledger/x402-pay/gx_1.json".to_owned(),
        source_receipt_id: "runx:receipt:gx_1".to_owned(),
        scenario_id: "scenario-a".to_owned(),
        disposition: PaymentLedgerDisposition::Settled,
    }
}

fn member<'a>(value: &'a JsonValue, key: &str) -> &'a JsonValue {
    match value {
        JsonValue::Object(members) => &members.iter().find(|(k, _)| k == key).unwrap().1,
        other => panic!("not an object: {other:?}"),
    }
}

#[test]
fn projected_record_carries_payload_and_digests() {
    let payload = projected_payload();
    let bytes = b"{\"kind\":\"payment_ledger_projected\"}".to_vec();
    let record = payment_ledger_projected_record("gx_1", "2026-01-01T00:00:00Z", &payload, &bytes);
    let entry = member(&record, "entry");
    assert!(matches!(member(entry, "type"), JsonValue::String(s) if s == "run_event"));
    let meta = member(entry, "meta");
    assert!(matches!(member(meta, "size_bytes"), JsonValue::Number(JsonNumber::U64(n)) if *n == bytes.len() as u64));
    match member(meta, "artifact_id") {
        JsonValue::String(s) => {
            assert!(s.starts_with("ax_payment_ledger_projected_"));
            assert_eq!(s.len(), "ax_payment_ledger_projected_".len() + 64);
        }
        other => panic!("unexpected artifact id {other:?}"),
    }
    assert!(matches!(member(meta, "hash"), JsonValue::String(s) if s.starts_with("sha256:") && s.len() == 71));
    let detail = member(member(entry, "data"), "detail");
    assert!(matches!(member(detail, "disposition"), JsonValue::String(s) if s == "settled"));
    assert!(is_same_payment_ledger_event(&record, &payload));
}

#[test]
fn appending_the_same_projection_twice_writes_once() {
    let payload = projected_payload();
    let record = payment_ledger_projected_record("gx_1", "t", &payload, &b"{}".to_vec());
    assert_eq!(ledger_append_needed(&Vec::new(), &record, &payload, "/r/ledgers/gx_1.jsonl"), Ok(true));
    let ledger = vec![JsonValue::Null, record];
    let again = payment_ledger_projected_record("gx_1", "t", &payload, &b"{}".to_vec());
    assert_eq!(ledger_append_needed(&ledger, &again, &payload, "/r/ledgers/gx_1.jsonl"), Ok(false));
    let later = payment_ledger_projected_record("gx_1", "t2", &payload, &b"{}".to_vec());
    assert_eq!(
        ledger_append_needed(&ledger, &later, &payload, "/r/ledgers/gx_1.jsonl"),
        Err(PaymentLedgerProjectionError::LedgerEventConflict { path: "/r/ledgers/gx_1.jsonl".to_owned() })
    );
}

#[test]
fn json_documents_compare_as_maps() {
    let a = JsonValue::Object(vec![
        ("x".to_owned(), JsonValue::Number(JsonNumber::U64(1))),
        ("y".to_owned(), JsonValue::Array(vec![JsonValue::Bool(true), JsonValue::Null])),
    ]);
    let b = JsonValue::Object(vec![
        ("y".to_owned(), JsonValue::Array(vec![JsonValue::Bool(true), JsonValue::Null])),
        ("x".to_owned(), JsonValue::Number(JsonNumber::U64(1))),
    ]);
    assert!(json_equal(&a, &b));
    assert!(!json_equal(&a, &JsonValue::Object(Vec::new())));
    let float = JsonValue::Number(JsonNumber::Float { whole: Some(1) });
    assert!(!json_equal(&float, &float));
}
