use runx_runtime::env::EnvVars;
use runx_runtime::json::{JsonNumber, JsonValue};
use runx_runtime::payment_packets::{
    read_paid_tool_packet, read_payment_rail_packet, read_payment_refusal_packet,
    read_payment_reservation_packet, PaymentPacketError, PaymentRailPacket,
};
use runx_runtime::payment_state::{
    consumed_spend_capability_recorded, escalate_payment_rail_mutation, lookup_payment_rail_mutation, payment_recovery_state,
    persist_payment_step_state, rail_mutation_status, resolve_payment_state_path,
    PaymentIdempotencyEntry, PaymentIdempotencyKey, PaymentRecoveryState, PaymentState,
    PaymentStateDocument, PaymentStateError, PaymentStepReceipt, PaymentStepStateInput,
    RailMutationStatus, SpendCapabilityConsumption,
};
use runx_runtime::payment_ledger::PaymentSupervisorProof;

fn s(v: &str) -> JsonValue {
    JsonValue::String(v.to_owned())
}

fn n(v: u64) -> JsonValue {
    JsonValue::Number(JsonNumber::U64(v))
}

fn obj(members: Vec<(&str, JsonValue)>) -> JsonValue {
    JsonValue::Object(members.into_iter().map(|(k, v)| (k.to_owned(), v)).collect())
}

fn outputs(members: Vec<(&str, JsonValue)>) -> Vec<(String, JsonValue)> {
    members.into_iter().map(|(k, v)| (k.to_owned(), v)).collect()
}

fn key() -> PaymentIdempotencyKey {
    PaymentIdempotencyKey::new("mock-rail", "merchant_1", "idem-1")
}

fn step_input() -> PaymentStepStateInput {
    PaymentStepStateInput {
        idempotency_key: key(),
        spend_capability_ref: "runx:spend:cap_1".to_owned(),
        rail: "mock-rail".to_owned(),
        counterparty: "merchant_1".to_owned(),
        amount_minor: 125,
        currency: "USD".to_owned(),
        act_id: "act_1".to_owned(),
    }
}

fn receipt(id: &str) -> PaymentStepReceipt {
    PaymentStepReceipt {
        id: id.to_owned(),
        created_at: "2026-01-01T00:00:00Z".to_owned(),
        digest: format!("sha256:{id}"),
    }
}

fn supervisor(receipt_id: &str) -> PaymentSupervisorProof {
    PaymentSupervisorProof {
        proof_ref: "proof:1".to_owned(),
        rail: "mock-rail".to_owned(),
        counterparty: "merchant_1".to_owned(),
        amount_minor: 125,
        currency: "USD".to_owned(),
        idempotency_key: "idem-1".to_owned(),
        spend_capability_ref: "runx:spend:cap_1".to_owned(),
        act_id: "act_1".to_owned(),
        receipt_ref: receipt_id.to_owned(),
        receipt_digest: format!("sha256:{receipt_id}"),
    }
}

fn persist_settled(state: &mut PaymentState, receipt_id: &str) -> Result<(), PaymentStateError> {
    persist_payment_step_state(
        state,
        &step_input(),
        settled_rail_outputs(),
        &receipt(receipt_id),
        Some(&supervisor(receipt_id)),
        "{}",
    )
}

fn settled_rail_outputs() -> Vec<(String, JsonValue)> {
    outputs(vec![(
        "payment_rail_packet",
        obj(vec![(
            "data",
            obj(vec![
                (
                    "rail_result",
                    obj(vec![("status", s("settled")), ("amount_minor", n(100))]),
                ),
                (
                    "rail_proof",
                    obj(vec![("proof_ref", s("proof:1")), ("idempotency_key", s("idem-1"))]),
                ),
            ]),
        )]),
    )])
}

#[test]
fn index_key_joins_parts_with_unit_separator() {
    assert_eq!(key().index_key(), "mock-rail\u{1f}merchant_1\u{1f}idem-1");
}

#[test]
fn idempotency_is_recorded_once() {
    let mut state = PaymentState::new();
    let entry = || PaymentIdempotencyEntry {
        idempotency_key: key(),
        receipt_ref: "runx:receipt:r1".to_owned(),
        receipt_created_at: "2026-01-01T00:00:00Z".to_owned(),
        receipt_digest: "sha256:r1".to_owned(),
        rail_proof_ref: "proof:1".to_owned(),
        supervisor_proof: supervisor("runx:receipt:r1"),
        amount_minor: 125,
        currency: "USD".to_owned(),
        outputs: Vec::new(),
    };
    assert_eq!(state.record_idempotency(entry()), Ok(()));
    let found = state.lookup_idempotency(&key()).unwrap();
    assert_eq!(found.receipt_ref, "runx:receipt:r1");
    assert_eq!(found.rail_proof_ref, "proof:1");
    assert_eq!(found.supervisor_proof, supervisor("runx:receipt:r1"));
    assert_eq!(
        state.record_idempotency(entry()),
        Err(PaymentStateError::IdempotencyAlreadyRecorded {
            idempotency_key: key().index_key()
        })
    );
}

#[test]
fn spend_capability_is_consumed_once() {
    let mut state = PaymentState::new();
    let consumption = SpendCapabilityConsumption {
        capability_ref: "cap".to_owned(),
        idempotency_key: key(),
        receipt_ref: None,
        recovery_state: Some(PaymentRecoveryState::InFlight),
    };
    assert_eq!(state.consume_spend_capability(consumption.clone()), Ok(()));
    assert_eq!(
        state.consume_spend_capability(consumption),
        Err(PaymentStateError::SpendCapabilityAlreadyConsumed { capability_ref: "cap".to_owned() })
    );
    assert!(state.lookup_consumed_spend_capability("cap").is_some());
    assert!(state.lookup_consumed_spend_capability("other").is_none());
}

#[test]
fn persisting_a_settled_step_twice_records_it_once() {
    let mut state = PaymentState::new();
    assert_eq!(persist_settled(&mut state, "runx:receipt:r1"), Ok(()));
    let entry = state.lookup_idempotency(&key()).unwrap();
    assert_eq!(entry.amount_minor, 100);
    assert_eq!(entry.rail_proof_ref, "proof:1");
    assert_eq!(entry.receipt_created_at, "2026-01-01T00:00:00Z");
    assert_eq!(entry.receipt_digest, "sha256:runx:receipt:r1");
    let mutation = state.lookup_rail_mutation(&key()).cloned();
    assert_eq!(mutation.as_ref().map(|m| m.status), Some(RailMutationStatus::Fulfilled));
    assert_eq!(mutation.as_ref().map(|m| m.currency.as_str()), Some("USD"));

    assert_eq!(
        persist_payment_step_state(
            &mut state,
            &step_input(),
            settled_rail_outputs(),
            &receipt("runx:receipt:r2"),
            None,
            "{}",
        ),
        Ok(())
    );
    let entry = state.lookup_idempotency(&key()).unwrap();
    assert_eq!(entry.receipt_ref, "runx:receipt:r1");
    assert_eq!(entry.amount_minor, 100);
    assert_eq!(state.lookup_rail_mutation(&key()).cloned(), mutation);
    let consumed = state.lookup_consumed_spend_capability("runx:spend:cap_1").cloned();
    assert_eq!(consumed.and_then(|c| c.receipt_ref), Some("runx:receipt:r1".to_owned()));
}

#[test]
fn settling_without_supervisor_proof_only_consumes_the_capability() {
    let mut state = PaymentState::new();
    let result = persist_payment_step_state(
        &mut state,
        &step_input(),
        settled_rail_outputs(),
        &receipt("runx:receipt:r1"),
        None,
        "{}",
    );
    assert_eq!(
        result,
        Err(PaymentStateError::MissingSupervisorProof { proof_ref: "proof:1".to_owned() })
    );
    let consumed = state.lookup_consumed_spend_capability("runx:spend:cap_1").cloned();
    assert_eq!(consumed.and_then(|c| c.receipt_ref), Some("runx:receipt:r1".to_owned()));
    assert!(state.lookup_idempotency(&key()).is_none());
    assert!(state.lookup_rail_mutation(&key()).is_none());
}

#[test]
fn settling_with_a_mismatched_supervisor_proof_is_refused() {
    let mut state = PaymentState::new();
    let mut proof = supervisor("runx:receipt:r1");
    proof.act_id = "act_other".to_owned();
    let result = persist_payment_step_state(
        &mut state,
        &step_input(),
        settled_rail_outputs(),
        &receipt("runx:receipt:r1"),
        Some(&proof),
        "{}",
    );
    assert_eq!(result, Err(PaymentStateError::SupervisorProof { message: "act_id".to_owned() }));
    assert!(state.lookup_consumed_spend_capability("runx:spend:cap_1").is_some());
    assert!(state.lookup_idempotency(&key()).is_none());
    assert!(state.lookup_rail_mutation(&key()).is_none());

    let mut digest_proof = supervisor("runx:receipt:r1");
    digest_proof.receipt_digest = "sha256:other".to_owned();
    let mut fresh = PaymentState::new();
    let result = persist_payment_step_state(
        &mut fresh,
        &step_input(),
        settled_rail_outputs(),
        &receipt("runx:receipt:r1"),
        Some(&digest_proof),
        "{}",
    );
    assert_eq!(
        result,
        Err(PaymentStateError::SupervisorProof { message: "receipt_digest".to_owned() })
    );
}

#[test]
fn settled_outputs_are_stored_replay_safe() {
    let mut state = PaymentState::new();
    let outputs = outputs(vec![
        (
            "payment_rail_packet",
            obj(vec![(
                "data",
                obj(vec![
                    ("rail_result", obj(vec![("status", s("settled"))])),
                    (
                        "rail_proof",
                        obj(vec![
                            ("proof_ref", s("proof:1")),
                            ("idempotency_key", s("idem-1")),
                            ("rail_session_material_ref", s("session:secret")),
                        ]),
                    ),
                ]),
            )]),
        ),
        ("stdout", s("raw")),
        ("status", s("failure")),
    ]);
    let result = persist_payment_step_state(
        &mut state,
        &step_input(),
        outputs,
        &receipt("runx:receipt:r1"),
        Some(&supervisor("runx:receipt:r1")),
        "{\"payment_rail_packet\":{}}",
    );
    assert_eq!(result, Ok(()));
    let entry = state.lookup_idempotency(&key()).unwrap();
    assert_eq!(entry.amount_minor, 125);
    let names: Vec<&str> = entry.outputs.iter().map(|(k, _)| k.as_str()).collect();
    assert_eq!(names, vec!["payment_rail_packet", "status", "stdout", "stderr"]);
    let JsonValue::Object(packet) = &entry.outputs[0].1 else { panic!("packet object") };
    let JsonValue::Object(data) = &packet[0].1 else { panic!("data object") };
    let JsonValue::Object(proof) = &data[1].1 else { panic!("proof object") };
    let proof_names: Vec<&str> = proof.iter().map(|(k, _)| k.as_str()).collect();
    assert_eq!(proof_names, vec!["proof_ref", "idempotency_key"]);
    assert!(matches!(&entry.outputs[1].1, JsonValue::String(v) if v == "failure"));
    assert!(matches!(&entry.outputs[2].1, JsonValue::String(v) if v == "{\"payment_rail_packet\":{}}"));
    assert!(matches!(&entry.outputs[3].1, JsonValue::String(v) if v.is_empty()));
}

#[test]
fn replay_stdout_payload_drops_streams_and_session_material() {
    let payload = runx_runtime::payment_state::replay_stdout_payload(outputs(vec![
        ("stdout", s("raw")),
        ("stderr", s("")),
        ("status", s("success")),
        ("amount", n(3)),
    ]));
    let names: Vec<&str> = payload.iter().map(|(k, _)| k.as_str()).collect();
    assert_eq!(names, vec!["amount"]);
}

#[test]
fn step_without_rail_packet_changes_nothing() {
    let mut state = PaymentState::new();
    assert_eq!(
        persist_payment_step_state(&mut state, &step_input(), Vec::new(), &receipt("r"), None, "{}"),
        Ok(())
    );
    assert!(state.lookup_rail_mutation(&key()).is_none());
    assert!(state.lookup_consumed_spend_capability("runx:spend:cap_1").is_none());
}

#[test]
fn escalation_marks_mutation_escalated() {
    let mut state = PaymentState::new();
    persist_settled(&mut state, "r1").unwrap();
    let escalated = state.escalate_rail_mutation(&key()).unwrap();
    assert_eq!(escalated.status, RailMutationStatus::Escalated);
    assert_eq!(escalated.recovery_state, PaymentRecoveryState::Escalated);
    assert_eq!(escalated.amount_minor, 100);
    assert!(state.escalate_rail_mutation(&PaymentIdempotencyKey::new("a", "b", "c")).is_none());
}

#[test]
fn load_refuses_other_schema_versions() {
    let document = PaymentStateDocument {
        schema_version: "runx.payment_state.v2".to_owned(),
        idempotency_entries: Vec::new(),
        consumed_spend_capabilities: Vec::new(),
        rail_mutations: Vec::new(),
    };
    assert!(matches!(
        PaymentState::load(Some(document)),
        Err(PaymentStateError::UnsupportedSchemaVersion { schema_version })
            if schema_version == "runx.payment_state.v2"
    ));
    assert!(PaymentState::load(None).is_ok());
}

#[test]
fn recovery_state_prefers_hint_then_proof() {
    let with_hint = |hint: Option<&str>, proof: bool| PaymentRailPacket {
        result: None,
        proof: if proof {
            Some(runx_runtime::payment_packets::PaymentRailProof {
                proof_ref: "p".to_owned(),
                idempotency_key: "k".to_owned(),
            })
        } else {
            None
        },
        recovery_status: hint.map(str::to_owned),
    };
    assert_eq!(payment_recovery_state(None), PaymentRecoveryState::InFlight);
    assert_eq!(payment_recovery_state(Some(&with_hint(Some("terminal_decline"), true))), PaymentRecoveryState::Escalated);
    assert_eq!(payment_recovery_state(Some(&with_hint(Some("partial"), true))), PaymentRecoveryState::InFlight);
    assert_eq!(payment_recovery_state(Some(&with_hint(Some("unknown"), true))), PaymentRecoveryState::Sealed);
    assert_eq!(payment_recovery_state(Some(&with_hint(None, false))), PaymentRecoveryState::InFlight);
    assert_eq!(rail_mutation_status(&PaymentRecoveryState::Sealed), RailMutationStatus::Fulfilled);
    assert_eq!(rail_mutation_status(&PaymentRecoveryState::InFlight), RailMutationStatus::Partial);
}

#[test]
fn payment_state_path_prefers_explicit_path() {
    let mut env = EnvVars::new();
    assert_eq!(resolve_payment_state_path(&env, "/work"), None);
    env.insert("RUNX_RECEIPT_DIR".to_owned(), "receipts".to_owned());
    assert_eq!(
        resolve_payment_state_path(&env, "/work"),
        Some("/work/receipts/payment-state.json".to_owned())
    );
    env.insert("RUNX_PAYMENT_STATE_PATH".to_owned(), "/var/state.json".to_owned());
    assert_eq!(resolve_payment_state_path(&env, "/work"), Some("/var/state.json".to_owned()));
}

#[test]
fn unconfigured_state_reports_nothing_consumed() {
    assert_eq!(consumed_spend_capability_recorded(None, "cap"), Ok(false));
    assert_eq!(lookup_payment_rail_mutation(None, &key()), Ok(None));
    let failure = PaymentStateError::Read { path: "p".to_owned(), message: "m".to_owned() };
    assert_eq!(consumed_spend_capability_recorded(Some(Err(failure.clone())), "cap"), Err(failure));
}

#[test]
fn reservation_packet_reads_binding_and_bounds() {
    let outputs = outputs(vec![(
        "payment_reservation_packet",
        obj(vec![(
            "data",
            obj(vec![
                (
                    "spend_capability_binding",
                    obj(vec![
                        ("amount_minor", n(250)),
                        ("currency", s("USD")),
                        ("rail", s("mock-rail")),
                        ("counterparty", s("merchant_1")),
                        ("idempotency_key", s("idem-1")),
                    ]),
                ),
                (
                    "reserved_payment_authority",
                    obj(vec![(
                        "parent_authority",
                        obj(vec![("bounds", obj(vec![("payment", obj(vec![("operation", s("pay"))]))]))]),
                    )]),
                ),
                ("spend_capability_ref", obj(vec![("uri", s("runx:spend:cap_1"))])),
            ]),
        )]),
    )]);
    let packet = read_payment_reservation_packet(&outputs).unwrap().unwrap();
    assert_eq!(packet.amount_minor, 250);
    assert_eq!(packet.operation, "pay");
    assert_eq!(packet.spend_capability_ref, "runx:spend:cap_1");
    assert_eq!(read_payment_reservation_packet(&Vec::new()), Ok(None));
}

#[test]
fn rail_packet_refuses_non_integer_amount() {
    let outputs = outputs(vec![(
        "payment_rail_packet",
        obj(vec![("data", obj(vec![("rail_result", obj(vec![("amount_minor", s("ten"))]))]))]),
    )]);
    assert_eq!(
        read_payment_rail_packet(&outputs),
        Err(PaymentPacketError::InvalidField { field: "rail_result.amount_minor" })
    );
}

#[test]
fn refusal_and_paid_tool_packets() {
    let refused = outputs(vec![(
        "payment_refusal_packet",
        obj(vec![("data", obj(vec![("reason_code", s("over_budget")), ("rail_call_performed", JsonValue::Bool(true))]))]),
    )]);
    let packet = read_payment_refusal_packet(&refused).unwrap().unwrap();
    assert_eq!(packet.reason_code, "over_budget");
    assert!(packet.rail_call_performed);
    assert!(!packet.ledger_spend_recorded);

    let paid = outputs(vec![("paid_echo_result", obj(vec![]))]);
    assert_eq!(
        read_paid_tool_packet(&paid),
        Err(PaymentPacketError::MissingField { field: "paid_echo_result.payment_proof_ref" })
    );
}

#[test]
fn escalating_a_configured_payment_returns_the_state_to_store() {
    let mut state = PaymentState::new();
    persist_settled(&mut state, "r1").unwrap();
    let (mutation, stored) = escalate_payment_rail_mutation(Some(Ok(state)), &key()).unwrap().unwrap();
    assert_eq!(mutation.status, RailMutationStatus::Escalated);
    assert_eq!(stored.lookup_rail_mutation(&key()), Some(&mutation));

    assert!(matches!(escalate_payment_rail_mutation(None, &key()), Ok(None)));
    assert!(matches!(
        escalate_payment_rail_mutation(Some(Ok(PaymentState::new())), &key()),
        Ok(None)
    ));
    let failure = PaymentStateError::Parse { path: "p".to_owned(), message: "m".to_owned() };
    assert!(matches!(
        escalate_payment_rail_mutation(Some(Err(failure.clone())), &key()),
        Err(e) if e == failure
    ));
}

#[test]
fn state_document_round_trips() {
    let mut state = PaymentState::new();
    persist_settled(&mut state, "r1").unwrap();
    let document = state.into_document();
    assert_eq!(document.schema_version, "runx.payment_state.v1");
    assert_eq!(document.idempotency_entries.len(), 1);
    assert_eq!(document.rail_mutations[0].0, key().index_key());
    let reloaded = PaymentState::load(Some(document)).unwrap();
    assert_eq!(reloaded.lookup_idempotency(&key()).map(|e| e.amount_minor), Some(100));
    assert!(reloaded.lookup_consumed_spend_capability("runx:spend:cap_1").is_some());
}
