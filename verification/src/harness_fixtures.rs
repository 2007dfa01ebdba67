//! Harness fixtures: the checks a parsed fixture passes before the harness
//! replays it, and the diagnostics of the ones it fails.
use vstd::prelude::*;

use crate::json::JsonValue;
use crate::lifecycle::ClosureDisposition;
use crate::text::{concat, str_eq};

verus! {

#[derive(Clone, Copy, Debug, PartialEq, Eq, Structural)]
pub enum HarnessFixtureKind {
    Skill,
    Graph,
    Mcp,
    A2a,
    Agent,
    AgentStep,
}

#[derive(Clone, Copy, Debug, PartialEq, Eq, Structural)]
pub enum HarnessExpectedStatus {
    Success,
    Failure,
    NeedsResolution,
    PolicyDenied,
    Escalated,
}

pub open spec fn fixture_kind_name_spec(kind: HarnessFixtureKind) -> Seq<char> {
    match kind {
        HarnessFixtureKind::Skill => "skill"@,
        HarnessFixtureKind::Graph => "graph"@,
        HarnessFixtureKind::Mcp => "mcp"@,
        HarnessFixtureKind::A2a => "a2a"@,
        HarnessFixtureKind::Agent => "agent"@,
        HarnessFixtureKind::AgentStep => "agent_step"@,
    }
}

/// The wire name of a fixture kind.
pub fn fixture_kind_name(kind: HarnessFixtureKind) -> (r: &'static str)
    ensures
        r@ == fixture_kind_name_spec(kind),
{
    match kind {
        HarnessFixtureKind::Skill => "skill",
        HarnessFixtureKind::Graph => "graph",
        HarnessFixtureKind::Mcp => "mcp",
        HarnessFixtureKind::A2a => "a2a",
        HarnessFixtureKind::Agent => "agent",
        HarnessFixtureKind::AgentStep => "agent_step",
    }
}

/// A receipt expectation as the fixture file holds it; `extra_fields` are
/// the names of any other fields, in sorted order.
#[derive(Clone, Debug)]
pub struct RawHarnessReceiptExpectation {
    pub schema: String,
    pub body_digest: Option<String>,
    pub receipt_id: Option<String>,
    pub receipt_digest: Option<String>,
    pub harness_id: Option<String>,
    pub state: Option<String>,
    pub disposition: Option<ClosureDisposition>,
    pub reason_code: Option<String>,
    pub act_ids: Vec<String>,
    pub decision_ids: Vec<String>,
    pub child_receipt_refs: Vec<String>,
    pub verification_refs: Vec<String>,
    pub extra_fields: Vec<String>,
}

#[derive(Clone, Debug)]
pub struct RawHarnessExpectation {
    pub status: Option<HarnessExpectedStatus>,
    pub receipt: Option<RawHarnessReceiptExpectation>,
    pub steps: Vec<String>,
}

/// A fixture as its file holds it.
#[derive(Debug)]
pub struct RawHarnessFixture {
    pub name: String,
    pub kind: HarnessFixtureKind,
    pub target: Option<String>,
    pub runner: Option<String>,
    pub inputs: Vec<(String, JsonValue)>,
    pub env: Vec<(String, String)>,
    pub caller: Vec<(String, JsonValue)>,
    pub expect: RawHarnessExpectation,
}

#[derive(Clone, Debug)]
pub struct HarnessReceiptExpectation {
    pub schema: String,
    pub body_digest: String,
    pub receipt_id: Option<String>,
    pub receipt_digest: Option<String>,
    pub harness_id: Option<String>,
    pub state: Option<String>,
    pub disposition: Option<ClosureDisposition>,
    pub reason_code: Option<String>,
    pub act_ids: Vec<String>,
    pub decision_ids: Vec<String>,
    pub child_receipt_refs: Vec<String>,
    pub verification_refs: Vec<String>,
}

#[derive(Clone, Debug)]
pub struct HarnessExpectation {
    pub status: Option<HarnessExpectedStatus>,
    pub receipt: Option<HarnessReceiptExpectation>,
    pub steps: Vec<String>,
}

/// A fixture the harness can replay.
#[derive(Debug)]
pub struct HarnessFixture {
    pub name: String,
    pub kind: HarnessFixtureKind,
    pub target: String,
    pub runner: Option<String>,
    pub inputs: Vec<(String, JsonValue)>,
    pub env: Vec<(String, String)>,
    pub caller: Vec<(String, JsonValue)>,
    pub expect: HarnessExpectation,
}

#[derive(Clone, Debug, PartialEq, Eq)]
pub enum HarnessFixtureError {
    Read { path: String, message: String },
    Parse(String),
    Required { field: String },
    Empty { field: &'static str },
    RetiredReceiptField { field_path: String },
    UnknownReceiptField { field_path: String },
    UnsupportedFixtureMode { mode: String, field_path: String },
}

/// The receipt expectation fields that older fixtures used.
pub open spec fn is_retired_field(field: Seq<char>) -> bool {
    field == "kind"@ || field == "skill_execution"@ || field == "graph_execution"@ || field
        == "skill_name"@ || field == "source_type"@ || field == "graph_name"@ || field == "owner"@
}

fn retired_field(field: &str) -> (b: bool)
    ensures
        b == is_retired_field(field@),
{
    str_eq(field, "kind") || str_eq(field, "skill_execution") || str_eq(field, "graph_execution")
        || str_eq(field, "skill_name") || str_eq(field, "source_type") || str_eq(field, "graph_name")
        || str_eq(field, "owner")
}

/// The harness replays skills and graphs only.
pub open spec fn supported_kind(kind: HarnessFixtureKind) -> bool {
    kind == HarnessFixtureKind::Skill || kind == HarnessFixtureKind::Graph
}

fn require_non_empty(value: &str, field: &'static str) -> (r: Result<(), HarnessFixtureError>)
    ensures
        r is Ok <==> value@.len() > 0,
        r matches Err(e) ==> (e == HarnessFixtureError::Empty { field }),
{
    if value.is_empty() {
        Err(HarnessFixtureError::Empty { field })
    } else {
        Ok(())
    }
}

/// The fault of a receipt expectation: the first other field, retired or
/// unknown, then a missing body digest.
pub open spec fn receipt_fault_kind(r: RawHarnessReceiptExpectation) -> int {
    if r.extra_fields@.len() > 0 {
        if is_retired_field(r.extra_fields@[0]@) {
            0
        } else {
            1
        }
    } else if r.body_digest is None {
        2
    } else {
        3
    }
}

fn copy_strings(v: &Vec<String>) -> (r: Vec<String>)
    ensures
        r@ == v@,
{
    let mut r: Vec<String> = Vec::new();
    let mut i: usize = 0;
    while i < v.len()
        invariant
            i <= v@.len(),
            r@ == v@.take(i as int),
        decreases v.len() - i,
    {
        r.push(v[i].clone());
        assert(r@ =~= v@.take(i + 1));
        i += 1;
    }
    assert(v@.take(v@.len() as int) =~= v@);
    r
}

fn copy_opt(s: &Option<String>) -> (r: Option<String>)
    ensures
        r == *s,
{
    match s {
        Some(x) => Some(x.clone()),
        None => None,
    }
}

/// The error that refuses a receipt expectation with a fault.
pub open spec fn receipt_refusal(r: RawHarnessReceiptExpectation, e: HarnessFixtureError) -> bool {
    if receipt_fault_kind(r) == 0 {
        e matches HarnessFixtureError::RetiredReceiptField { field_path } && field_path@
            == "expect.receipt."@ + r.extra_fields@[0]@
    } else if receipt_fault_kind(r) == 1 {
        e matches HarnessFixtureError::UnknownReceiptField { field_path } && field_path@
            == "expect.receipt."@ + r.extra_fields@[0]@
    } else {
        e matches HarnessFixtureError::Required { field } && field@ == "expect.receipt.body_digest"@
    }
}

/// Checks a receipt expectation.
pub fn validate_receipt_expectation(receipt: &RawHarnessReceiptExpectation) -> (r: Result<
    HarnessReceiptExpectation,
    HarnessFixtureError,
>)
    ensures
        receipt_fault_kind(*receipt) != 3 ==> (r matches Err(e) && receipt_refusal(*receipt, e)),
        receipt_fault_kind(*receipt) == 3 ==> (r matches Ok(e) && e.schema@ == receipt.schema@
            && Some(e.body_digest) == receipt.body_digest && e.receipt_id == receipt.receipt_id
            && e.receipt_digest == receipt.receipt_digest && e.harness_id == receipt.harness_id
            && e.state == receipt.state && e.disposition == receipt.disposition && e.reason_code
            == receipt.reason_code && e.act_ids@ == receipt.act_ids@ && e.decision_ids@
            == receipt.decision_ids@ && e.child_receipt_refs@ == receipt.child_receipt_refs@
            && e.verification_refs@ == receipt.verification_refs@),
{
    if receipt.extra_fields.len() > 0 {
        let field = &receipt.extra_fields[0];
        let field_path = concat("expect.receipt.", field.as_str());
        if retired_field(field.as_str()) {
            return Err(HarnessFixtureError::RetiredReceiptField { field_path });
        }
        return Err(HarnessFixtureError::UnknownReceiptField { field_path });
    }
    let body_digest = match &receipt.body_digest {
        Some(d) => d.clone(),
        None => {
            return Err(
                HarnessFixtureError::Required { field: "expect.receipt.body_digest".to_owned() },
            );
        },
    };
    Ok(
        HarnessReceiptExpectation {
            schema: receipt.schema.clone(),
            body_digest,
            receipt_id: copy_opt(&receipt.receipt_id),
            receipt_digest: copy_opt(&receipt.receipt_digest),
            harness_id: copy_opt(&receipt.harness_id),
            state: copy_opt(&receipt.state),
            disposition: receipt.disposition,
            reason_code: copy_opt(&receipt.reason_code),
            act_ids: copy_strings(&receipt.act_ids),
            decision_ids: copy_strings(&receipt.decision_ids),
            child_receipt_refs: copy_strings(&receipt.child_receipt_refs),
            verification_refs: copy_strings(&receipt.verification_refs),
        },
    )
}

/// Checks a parsed fixture, in order: a non-empty name, a kind the harness
/// replays (`kind` names an unsupported one), a non-empty target, a
/// non-empty runner where one is named, then the receipt expectation.
pub fn validate_fixture(fixture: RawHarnessFixture) -> (r: Result<HarnessFixture, HarnessFixtureError>)
    ensures
        fixture.name@.len() == 0 ==> r == Err::<HarnessFixture, HarnessFixtureError>(
            HarnessFixtureError::Empty { field: "name" },
        ),
        fixture.name@.len() > 0 && !supported_kind(fixture.kind) ==> (r matches Err(
            HarnessFixtureError::UnsupportedFixtureMode { mode, field_path },
        ) && mode@ == fixture_kind_name_spec(fixture.kind) && field_path@ == "kind"@),
        fixture.name@.len() > 0 && supported_kind(fixture.kind) && fixture.target is None ==> (r
            matches Err(HarnessFixtureError::Required { field }) && field@ == "target"@),
        fixture.name@.len() > 0 && supported_kind(fixture.kind) && (fixture.target matches Some(t)
            && t@.len() == 0) ==> r == Err::<HarnessFixture, HarnessFixtureError>(
            HarnessFixtureError::Empty { field: "target" },
        ),
        fixture.name@.len() > 0 && supported_kind(fixture.kind) && (fixture.target matches Some(t)
            && t@.len() > 0) && (fixture.runner matches Some(x) && x@.len() == 0) ==> r == Err::<
            HarnessFixture,
            HarnessFixtureError,
        >(HarnessFixtureError::Empty { field: "runner" }),
        fixture.name@.len() > 0 && supported_kind(fixture.kind) && (fixture.target matches Some(t)
            && t@.len() > 0) && (fixture.runner matches Some(x) ==> x@.len() > 0) && (
        fixture.expect.receipt matches Some(raw) && receipt_fault_kind(raw) != 3) ==> (r matches Err(
            e,
        ) && receipt_refusal(fixture.expect.receipt->Some_0, e)),
        r matches Ok(f) ==> (fixture.name@.len() > 0 && supported_kind(fixture.kind) && (
        fixture.target matches Some(t) && t@.len() > 0 && f.target == t) && (
        fixture.runner matches Some(x) ==> x@.len() > 0) && f.name == fixture.name && f.kind
            == fixture.kind && f.runner == fixture.runner && f.env == fixture.env && f.expect.status
            == fixture.expect.status && f.expect.steps == fixture.expect.steps && (
        fixture.expect.receipt matches Some(raw) ==> receipt_fault_kind(raw) == 3
            && f.expect.receipt is Some) && (fixture.expect.receipt is None ==> f.expect.receipt is None)),
        fixture.name@.len() > 0 && supported_kind(fixture.kind) && (fixture.target matches Some(t)
            && t@.len() > 0) && (fixture.runner matches Some(x) ==> x@.len() > 0) && (
        fixture.expect.receipt matches Some(raw) ==> receipt_fault_kind(raw) == 3) ==> r is Ok,
{
    require_non_empty(fixture.name.as_str(), "name")?;
    match fixture.kind {
        HarnessFixtureKind::Skill | HarnessFixtureKind::Graph => {},
        _ => {
            return Err(
                HarnessFixtureError::UnsupportedFixtureMode {
                    mode: fixture_kind_name(fixture.kind).to_owned(),
                    field_path: "kind".to_owned(),
                },
            );
        },
    }
    let target = match fixture.target {
        Some(t) => t,
        None => return Err(HarnessFixtureError::Required { field: "target".to_owned() }),
    };
    require_non_empty(target.as_str(), "target")?;
    if let Some(runner) = &fixture.runner {
        require_non_empty(runner.as_str(), "runner")?;
    }
    let receipt = match &fixture.expect.receipt {
        Some(raw) => match validate_receipt_expectation(raw) {
            Ok(e) => Some(e),
            Err(e) => return Err(e),
        },
        None => None,
    };
    Ok(
        HarnessFixture {
            name: fixture.name,
            kind: fixture.kind,
            target,
            runner: fixture.runner,
            inputs: fixture.inputs,
            env: fixture.env,
            caller: fixture.caller,
            expect: HarnessExpectation {
                status: fixture.expect.status,
                receipt,
                steps: fixture.expect.steps,
            },
        },
    )
}

} // verus!
