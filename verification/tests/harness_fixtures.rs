use runx_runtime::harness_fixtures::{
    fixture_kind_name, validate_fixture, validate_receipt_expectation, HarnessExpectedStatus,
    HarnessFixtureError, HarnessFixtureKind, RawHarnessExpectation, RawHarnessFixture,
    RawHarnessReceiptExpectation,
};
use runx_runtime::json::JsonValue;
use runx_runtime::lifecycle::ClosureDisposition;

fn raw_receipt() -> RawHarnessReceiptExpectation {
    RawHarnessReceiptExpectation {
        schema: "runx.harness_receipt.v1".to_owned(),
        body_digest: None,
        receipt_id: None,
        receipt_digest: None,
        harness_id: None,
        state: None,
        disposition: None,
        reason_code: None,
        act_ids: Vec::new(),
        decision_ids: Vec::new(),
        child_receipt_refs: Vec::new(),
        verification_refs: Vec::new(),
        extra_fields: Vec::new(),
    }
}

fn raw_fixture(name: &str, kind: HarnessFixtureKind, target: Option<&str>) -> RawHarnessFixture {
    RawHarnessFixture {
        name: name.to_owned(),
        kind,
        target: target.map(str::to_owned),
        runner: None,
        inputs: Vec::new(),
        env: Vec::new(),
        caller: Vec::new(),
        expect: RawHarnessExpectation { status: None, receipt: None, steps: Vec::new() },
    }
}

#[test]
fn parses_post_cutover_receipt_expectation() -> Result<(), HarnessFixtureError> {
    let mut fixture = raw_fixture("echo-skill", HarnessFixtureKind::Skill, Some("../skills/echo"));
    fixture.inputs = vec![("message".to_owned(), JsonValue::String("hello".to_owned()))];
    let mut receipt = raw_receipt();
    receipt.body_digest = Some("sha256:test".to_owned());
    receipt.harness_id = Some("echo-skill".to_owned());
    receipt.state = Some("sealed".to_owned());
    receipt.disposition = Some(ClosureDisposition::Closed);
    receipt.reason_code = Some("harness_replay_passed".to_owned());
    receipt.act_ids = vec!["echo".to_owned()];
    fixture.expect = RawHarnessExpectation {
        status: Some(HarnessExpectedStatus::Success),
        receipt: Some(receipt),
        steps: Vec::new(),
    };

    let fixture = validate_fixture(fixture)?;

    assert_eq!(fixture.kind, HarnessFixtureKind::Skill);
    let receipt = fixture
        .expect
        .receipt
        .ok_or(HarnessFixtureError::Required { field: "expect.receipt".to_owned() })?;
    assert_eq!(receipt.schema, "runx.harness_receipt.v1");
    assert_eq!(receipt.state, Some("sealed".to_owned()));
    assert_eq!(receipt.act_ids, vec!["echo"]);
    Ok(())
}

#[test]
fn rejects_retired_receipt_expectation_fields() {
    for field in ["kind", "skill_execution", "graph_execution"] {
        let mut fixture = raw_fixture("old", HarnessFixtureKind::Skill, Some("../skills/echo"));
        let mut receipt = raw_receipt();
        receipt.extra_fields = vec![field.to_owned()];
        fixture.expect.receipt = Some(receipt);
        let result = validate_fixture(fixture);

        assert!(matches!(
            result,
            Err(HarnessFixtureError::RetiredReceiptField { field_path })
                if field_path == format!("expect.receipt.{field}")
        ));
    }
}

#[test]
fn rejects_unsupported_fixture_modes_with_stable_diagnostic() {
    let mut fixture = raw_fixture("old", HarnessFixtureKind::Mcp, Some("../skills/echo"));
    fixture.expect.status = Some(HarnessExpectedStatus::Success);
    let result = validate_fixture(fixture);

    assert!(matches!(
        result,
        Err(HarnessFixtureError::UnsupportedFixtureMode { mode, field_path })
            if mode == "mcp" && field_path == "kind"
    ));
}

#[test]
fn rejects_unknown_receipt_expectation_fields() {
    let mut fixture = raw_fixture("old", HarnessFixtureKind::Skill, Some("../skills/echo"));
    let mut receipt = raw_receipt();
    receipt.extra_fields = vec!["unexpected".to_owned()];
    fixture.expect.receipt = Some(receipt);
    let result = validate_fixture(fixture);

    assert!(matches!(
        result,
        Err(HarnessFixtureError::UnknownReceiptField { field_path })
            if field_path == "expect.receipt.unexpected"
    ));
}

#[test]
fn fixture_name_and_target_are_required() {
    let result = validate_fixture(raw_fixture("", HarnessFixtureKind::Skill, Some("x")));
    assert_eq!(result.err(), Some(HarnessFixtureError::Empty { field: "name" }));

    let result = validate_fixture(raw_fixture("demo", HarnessFixtureKind::Graph, None));
    assert_eq!(result.err(), Some(HarnessFixtureError::Required { field: "target".to_owned() }));

    let result = validate_fixture(raw_fixture("demo", HarnessFixtureKind::Graph, Some("")));
    assert_eq!(result.err(), Some(HarnessFixtureError::Empty { field: "target" }));

    let mut fixture = raw_fixture("demo", HarnessFixtureKind::Graph, Some("graphs/demo"));
    fixture.runner = Some(String::new());
    assert_eq!(validate_fixture(fixture).err(), Some(HarnessFixtureError::Empty { field: "runner" }));
}

#[test]
fn receipt_expectation_requires_body_digest() {
    let result = validate_receipt_expectation(&raw_receipt());
    assert_eq!(
        result.err(),
        Some(HarnessFixtureError::Required { field: "expect.receipt.body_digest".to_owned() })
    );
}

#[test]
fn fixture_kind_names_are_snake_case() {
    assert_eq!(fixture_kind_name(HarnessFixtureKind::AgentStep), "agent_step");
    assert_eq!(fixture_kind_name(HarnessFixtureKind::A2a), "a2a");
    assert_eq!(fixture_kind_name(HarnessFixtureKind::Skill), "skill");
}

#[test]
fn every_unsupported_mode_is_refused_by_name() {
    for kind in [HarnessFixtureKind::A2a, HarnessFixtureKind::Agent, HarnessFixtureKind::AgentStep] {
        let result = validate_fixture(raw_fixture("demo", kind, Some("skills/echo")));
        assert!(matches!(
            result,
            Err(HarnessFixtureError::UnsupportedFixtureMode { mode, field_path })
                if mode == fixture_kind_name(kind) && field_path == "kind"
        ));
    }
}
