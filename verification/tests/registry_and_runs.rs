use runx_runtime::host::{Host, NoopHost};
use runx_runtime::json::{JsonNumber, JsonValue};
use runx_runtime::lifecycle::ExecutionEvent;
use runx_runtime::registry::{
    registry_install_receipt_metadata, AcquiredRegistrySkill, InstallCandidate,
    InstallLocalSkillResult, InstallStatus, RegistryInstallMetadataInput, RegistryPublisher,
    TrustTier,
};
use runx_runtime::skill_run::{inline_harness_report, InlineHarnessCaseOutcome, InlineHarnessReport};

fn install() -> InstallLocalSkillResult {
    InstallLocalSkillResult {
        skill_id: Some("runx/echo".to_owned()),
        version: Some("  ".to_owned()),
        digest: "sha256:abc".to_owned(),
        profile_digest: None,
        trust_tier: Some(TrustTier::FirstParty),
        source_label: "registry".to_owned(),
        destination: "/ws/skills/echo".to_owned(),
        status: InstallStatus::Installed,
    }
}

fn keys(members: &[(String, JsonValue)]) -> Vec<&str> {
    members.iter().map(|(k, _)| k.as_str()).collect()
}

fn text<'a>(members: &'a [(String, JsonValue)], key: &str) -> Option<&'a str> {
    members.iter().find(|(k, _)| k == key).and_then(|(_, v)| match v {
        JsonValue::String(s) => Some(s.as_str()),
        _ => None,
    })
}

#[test]
fn install_metadata_leaves_out_blank_optional_fields() {
    let candidate = InstallCandidate { reference: "runx/echo@1".to_owned() };
    let install = install();
    let metadata = registry_install_receipt_metadata(RegistryInstallMetadataInput {
        candidate: &candidate,
        install: &install,
        acquisition: None,
    });
    assert_eq!(
        keys(&metadata),
        vec!["ref", "skill_id", "digest", "trust_tier", "source_label", "destination", "status"]
    );
    assert_eq!(text(&metadata, "ref"), Some("runx/echo@1"));
    assert_eq!(text(&metadata, "trust_tier"), Some("first_party"));
    assert_eq!(text(&metadata, "status"), Some("installed"));
}

#[test]
fn install_metadata_records_publisher_of_acquired_skill() {
    let candidate = InstallCandidate { reference: "acme/tool".to_owned() };
    let mut install = install();
    install.status = InstallStatus::Unchanged;
    install.trust_tier = Some(TrustTier::Community);
    let acquisition = AcquiredRegistrySkill {
        publisher: RegistryPublisher {
            kind: "org".to_owned(),
            id: "acme".to_owned(),
            handle: Some("@acme".to_owned()),
            display_name: Some("".to_owned()),
        },
        install_count: 42,
    };
    let metadata = registry_install_receipt_metadata(RegistryInstallMetadataInput {
        candidate: &candidate,
        install: &install,
        acquisition: Some(&acquisition),
    });
    let publisher = metadata.iter().find(|(k, _)| k == "publisher").map(|(_, v)| v);
    match publisher {
        Some(JsonValue::Object(members)) => {
            assert_eq!(keys(members), vec!["kind", "id", "handle"]);
            assert_eq!(text(members, "handle"), Some("@acme"));
        }
        other => panic!("unexpected publisher {other:?}"),
    }
    let count = metadata.iter().find(|(k, _)| k == "install_count").map(|(_, v)| v);
    assert!(matches!(count, Some(JsonValue::Number(JsonNumber::U64(42)))));
    assert_eq!(text(&metadata, "status"), Some("unchanged"));
    assert_eq!(text(&metadata, "trust_tier"), Some("community"));
}

fn outcome(name: &str, graph: bool, receipt: Option<&str>, error: Option<&str>) -> InlineHarnessCaseOutcome {
    InlineHarnessCaseOutcome {
        name: name.to_owned(),
        is_graph: graph,
        receipt_id: receipt.map(str::to_owned),
        assertion_error: error.map(str::to_owned),
    }
}

#[test]
fn harness_without_cases_is_not_declared() {
    assert_eq!(inline_harness_report(&Vec::new()), InlineHarnessReport::not_declared());
    assert_eq!(InlineHarnessReport::not_declared().status, "not_declared");
}

#[test]
fn harness_passes_only_when_every_case_passes() {
    let passed = inline_harness_report(&vec![
        outcome("a", false, Some("rx_a"), None),
        outcome("b", true, None, None),
    ]);
    assert_eq!(passed.status, "passed");
    assert_eq!(passed.case_count, 2);
    assert_eq!(passed.receipt_ids, vec!["rx_a".to_owned()]);
    assert_eq!(passed.graph_case_count, 1);

    let failed = inline_harness_report(&vec![
        outcome("a", false, Some("rx_a"), Some("status mismatch")),
        outcome("b", true, Some("rx_b"), None),
    ]);
    assert_eq!(failed.status, "failed");
    assert_eq!(failed.assertion_error_count, 1);
    assert_eq!(failed.assertion_errors, vec!["status mismatch".to_owned()]);
    assert_eq!(failed.case_names, vec!["a".to_owned(), "b".to_owned()]);
}

#[test]
fn noop_host_takes_every_report() {
    let mut host = NoopHost;
    let event = ExecutionEvent::Warning { message: "careful".to_owned(), data: None };
    assert_eq!(host.report(event), Ok(()));
    assert_eq!(host.log("line".to_owned()), Ok(()));
}
