use runx_runtime::json::JsonValue;
use runx_runtime::lifecycle::{
    disposition_label, receipt_event_kind, receipt_lifecycle_records, ClosureDisposition,
    ExecutionEvent, LifecycleAct, LifecycleEvent, LifecycleReceipt,
};

fn members(data: &Option<JsonValue>) -> Vec<(String, String)> {
    match data {
        Some(JsonValue::Object(m)) => m
            .iter()
            .map(|(k, v)| match v {
                JsonValue::String(s) => (k.clone(), s.clone()),
                other => panic!("non-string member {other:?}"),
            })
            .collect(),
        other => panic!("expected an object, got {other:?}"),
    }
}

fn pairs(items: &[(&str, &str)]) -> Vec<(String, String)> {
    items.iter().map(|(k, v)| (k.to_string(), v.to_string())).collect()
}

#[test]
fn step_events_name_their_act() {
    match LifecycleEvent::step_started("build").into_execution_event() {
        ExecutionEvent::StepStarted { message, data } => {
            assert_eq!(message, "step build started");
            assert_eq!(
                members(&data),
                pairs(&[("kind", "act_started"), ("act_id", "act_build"), ("step_id", "build")])
            );
        }
        other => panic!("unexpected {other:?}"),
    }
    match LifecycleEvent::step_failed("build").into_execution_event() {
        ExecutionEvent::Warning { message, data } => {
            assert_eq!(message, "step build failed");
            assert_eq!(
                members(&data),
                pairs(&[
                    ("kind", "act_closed"),
                    ("act_id", "act_build"),
                    ("step_id", "build"),
                    ("disposition", "failed"),
                ])
            );
        }
        other => panic!("unexpected {other:?}"),
    }
    match LifecycleEvent::step_completed("build").into_execution_event() {
        ExecutionEvent::StepCompleted { message, .. } => assert_eq!(message, "step build completed"),
        other => panic!("unexpected {other:?}"),
    }
}

#[test]
fn act_without_step_reports_its_disposition() {
    let event = LifecycleEvent::ActClosed {
        act_id: "act_x".to_owned(),
        step_id: None,
        disposition: ClosureDisposition::TimedOut,
    };
    match event.into_execution_event() {
        ExecutionEvent::Warning { message, data } => {
            assert_eq!(message, "act act_x closed with timed_out");
            assert_eq!(
                members(&data),
                pairs(&[("kind", "act_closed"), ("act_id", "act_x"), ("disposition", "timed_out")])
            );
        }
        other => panic!("unexpected {other:?}"),
    }
}

#[test]
fn graph_seals_become_completed_events() {
    let sealed = LifecycleEvent::graph_completed("deploy", "rcpt_1", "runx:harness:h1", ClosureDisposition::Closed);
    match sealed.into_execution_event() {
        ExecutionEvent::Completed { message, data } => {
            assert_eq!(message, "graph deploy completed");
            assert_eq!(
                members(&data),
                pairs(&[
                    ("kind", "receipt_sealed"),
                    ("receipt_id", "rcpt_1"),
                    ("harness_id", "runx:harness:h1"),
                    ("disposition", "closed"),
                ])
            );
        }
        other => panic!("unexpected {other:?}"),
    }
    let blocked = LifecycleEvent::graph_blocked(
        "deploy",
        "approve",
        "rcpt_2",
        "runx:harness:h1",
        ClosureDisposition::Blocked,
    );
    match blocked.into_execution_event() {
        ExecutionEvent::Completed { message, data } => {
            assert_eq!(message, "graph deploy blocked at approve");
            assert_eq!(members(&data)[0], ("kind".to_owned(), "abnormal_seal".to_owned()));
        }
        other => panic!("unexpected {other:?}"),
    }
}

#[test]
fn harness_and_adapter_events_carry_their_ids() {
    match (LifecycleEvent::HarnessOpened {
        harness_id: "h1".to_owned(),
        graph_name: "g".to_owned(),
    })
    .into_execution_event()
    {
        ExecutionEvent::Executing { message, data } => {
            assert_eq!(message, "harness h1 opened for graph g");
            assert_eq!(members(&data), pairs(&[("kind", "harness_opened"), ("harness_id", "h1")]));
        }
        other => panic!("unexpected {other:?}"),
    }
    match (LifecycleEvent::AdapterInvoked {
        adapter_type: "cli-tool".to_owned(),
        step_id: "s1".to_owned(),
    })
    .into_execution_event()
    {
        ExecutionEvent::Executing { message, .. } => {
            assert_eq!(message, "adapter cli-tool invoked for step s1")
        }
        other => panic!("unexpected {other:?}"),
    }
}

#[test]
fn abnormal_dispositions_seal_abnormally() {
    assert_eq!(receipt_event_kind(ClosureDisposition::Killed), "abnormal_seal");
    assert_eq!(receipt_event_kind(ClosureDisposition::Deferred), "receipt_sealed");
    assert_eq!(disposition_label(ClosureDisposition::Superseded), "superseded");
}

#[test]
fn receipt_records_list_the_receipt_then_its_acts() {
    let receipt = LifecycleReceipt {
        disposition: ClosureDisposition::Failed,
        summary: "run failed".to_owned(),
        first_decision_id: Some("dec_1".to_owned()),
        acts: vec![LifecycleAct {
            id: "a1".to_owned(),
            summary: "first act".to_owned(),
            artifact_uris: vec!["runx:artifact:x".to_owned()],
        }],
    };
    let records = receipt_lifecycle_records(&receipt, "runx:receipt:r1", "runx:harness:h1", "failed".to_owned());
    assert_eq!(records.len(), 2);
    assert_eq!(records[0].entry_key, "receipt");
    assert_eq!(records[0].event_kind, "abnormal_seal");
    assert_eq!(records[0].decision_ref.as_deref(), Some("runx:decision:dec_1"));
    assert!(records[0].include_verification);
    assert_eq!(records[1].entry_key, "act:a1");
    assert_eq!(records[1].event_kind, "act_closed");
    assert_eq!(
        records[1].source_refs,
        vec!["runx:receipt:r1".to_owned(), "runx:act:a1".to_owned()]
    );
    assert_eq!(records[1].artifact_refs, vec!["runx:artifact:x".to_owned()]);
    assert!(!records[1].include_verification);
}
