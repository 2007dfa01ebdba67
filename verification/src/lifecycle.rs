//! The lifecycle vocabulary of a run: what each lifecycle event tells the
//! host, and the journal records that a sealed receipt amounts to.
use vstd::prelude::*;

use crate::json::JsonValue;
use crate::text::{concat, concat3, text_views};

verus! {

/// How an act or a receipt was closed.
#[derive(Clone, Copy, Debug, PartialEq, Eq, Structural)]
pub enum ClosureDisposition {
    Closed,
    Deferred,
    Superseded,
    Declined,
    Blocked,
    Failed,
    Killed,
    TimedOut,
}

pub open spec fn disposition_label_spec(d: ClosureDisposition) -> Seq<char> {
    match d {
        ClosureDisposition::Closed => "closed"@,
        ClosureDisposition::Deferred => "deferred"@,
        ClosureDisposition::Superseded => "superseded"@,
        ClosureDisposition::Declined => "declined"@,
        ClosureDisposition::Blocked => "blocked"@,
        ClosureDisposition::Failed => "failed"@,
        ClosureDisposition::Killed => "killed"@,
        ClosureDisposition::TimedOut => "timed_out"@,
    }
}

/// The wire label of a disposition.
pub fn disposition_label(d: ClosureDisposition) -> (r: &'static str)
    ensures
        r@ == disposition_label_spec(d),
{
    match d {
        ClosureDisposition::Closed => "closed",
        ClosureDisposition::Deferred => "deferred",
        ClosureDisposition::Superseded => "superseded",
        ClosureDisposition::Declined => "declined",
        ClosureDisposition::Blocked => "blocked",
        ClosureDisposition::Failed => "failed",
        ClosureDisposition::Killed => "killed",
        ClosureDisposition::TimedOut => "timed_out",
    }
}

/// A receipt that was blocked, failed, killed or timed out is sealed
/// abnormally.
pub open spec fn is_abnormal(d: ClosureDisposition) -> bool {
    d == ClosureDisposition::Blocked || d == ClosureDisposition::Failed || d
        == ClosureDisposition::Killed || d == ClosureDisposition::TimedOut
}

pub fn receipt_event_kind(d: ClosureDisposition) -> (r: &'static str)
    ensures
        r@ == (if is_abnormal(d) {
            "abnormal_seal"@
        } else {
            "receipt_sealed"@
        }),
{
    match d {
        ClosureDisposition::Blocked | ClosureDisposition::Failed | ClosureDisposition::Killed
        | ClosureDisposition::TimedOut => "abnormal_seal",
        _ => "receipt_sealed",
    }
}

// ---------------------------------------------------------------------------
// Events
// ---------------------------------------------------------------------------

/// Something that happened in a run.
#[derive(Clone, Debug, PartialEq, Eq)]
pub enum LifecycleEvent {
    HarnessOpened { harness_id: String, graph_name: String },
    DecisionRecorded { decision_id: String, harness_id: String },
    ActStarted { act_id: String, step_id: Option<String> },
    ActClosed { act_id: String, step_id: Option<String>, disposition: ClosureDisposition },
    ChildHarnessLinked { parent_harness_id: String, child_harness_id: String, receipt_id: String },
    AdapterInvoked { adapter_type: String, step_id: String },
    ReceiptSealed {
        receipt_id: String,
        harness_id: String,
        disposition: ClosureDisposition,
        message: String,
    },
    AbnormalSeal {
        receipt_id: String,
        harness_id: String,
        disposition: ClosureDisposition,
        message: String,
    },
    VerificationRecorded { receipt_id: String, status: String },
    PublicationProjected { receipt_id: String, projection_id: String },
}

/// What the host is told.
#[derive(Debug)]
pub enum ExecutionEvent {
    Executing { message: String, data: Option<JsonValue> },
    ResolutionResolved { message: String, data: Option<JsonValue> },
    StepStarted { message: String, data: Option<JsonValue> },
    StepCompleted { message: String, data: Option<JsonValue> },
    Warning { message: String, data: Option<JsonValue> },
    Completed { message: String, data: Option<JsonValue> },
}

#[derive(Clone, Copy, Debug, PartialEq, Eq, Structural)]
pub enum ExecutionEventKind {
    Executing,
    ResolutionResolved,
    StepStarted,
    StepCompleted,
    Warning,
    Completed,
}

impl ExecutionEvent {
    pub open spec fn kind(&self) -> ExecutionEventKind {
        match self {
            ExecutionEvent::Executing { .. } => ExecutionEventKind::Executing,
            ExecutionEvent::ResolutionResolved { .. } => ExecutionEventKind::ResolutionResolved,
            ExecutionEvent::StepStarted { .. } => ExecutionEventKind::StepStarted,
            ExecutionEvent::StepCompleted { .. } => ExecutionEventKind::StepCompleted,
            ExecutionEvent::Warning { .. } => ExecutionEventKind::Warning,
            ExecutionEvent::Completed { .. } => ExecutionEventKind::Completed,
        }
    }

    pub open spec fn message_view(&self) -> Seq<char> {
        match self {
            ExecutionEvent::Executing { message, .. } => message@,
            ExecutionEvent::ResolutionResolved { message, .. } => message@,
            ExecutionEvent::StepStarted { message, .. } => message@,
            ExecutionEvent::StepCompleted { message, .. } => message@,
            ExecutionEvent::Warning { message, .. } => message@,
            ExecutionEvent::Completed { message, .. } => message@,
        }
    }

    pub open spec fn data_view(&self) -> Option<JsonValue> {
        match self {
            ExecutionEvent::Executing { data, .. } => *data,
            ExecutionEvent::ResolutionResolved { data, .. } => *data,
            ExecutionEvent::StepStarted { data, .. } => *data,
            ExecutionEvent::StepCompleted { data, .. } => *data,
            ExecutionEvent::Warning { data, .. } => *data,
            ExecutionEvent::Completed { data, .. } => *data,
        }
    }
}

/// The members are string members: exactly `members`, in order.
pub open spec fn string_members(m: Seq<(String, JsonValue)>, members: Seq<(Seq<char>, Seq<char>)>) -> bool {
    m.len() == members.len() && forall|i: int|
        0 <= i < members.len() ==> (#[trigger] m[i]).0@ == members[i].0 && (m[i].1 matches JsonValue::String(s) && s@ == members[i].1)
}

/// The value is an object of string members: exactly `members`, in order.
pub open spec fn string_object(v: JsonValue, members: Seq<(Seq<char>, Seq<char>)>) -> bool {
    match v {
        JsonValue::Object(m) => string_members(m@, members),
        _ => false,
    }
}

/// The host-facing event of a lifecycle event: its kind, message, and the
/// string members of its data (the first always `kind`).
pub open spec fn event_shape(e: LifecycleEvent) -> (
    ExecutionEventKind,
    Seq<char>,
    Seq<(Seq<char>, Seq<char>)>,
) {
    match e {
        LifecycleEvent::HarnessOpened { harness_id, graph_name } => (
            ExecutionEventKind::Executing,
            "harness "@ + harness_id@ + " opened for graph "@ + graph_name@,
            seq![("kind"@, "harness_opened"@), ("harness_id"@, harness_id@)],
        ),
        LifecycleEvent::DecisionRecorded { decision_id, harness_id } => (
            ExecutionEventKind::ResolutionResolved,
            "decision "@ + decision_id@ + " recorded"@,
            seq![
                ("kind"@, "decision_recorded"@),
                ("decision_id"@, decision_id@),
                ("harness_id"@, harness_id@),
            ],
        ),
        LifecycleEvent::ActStarted { act_id, step_id } => (
            ExecutionEventKind::StepStarted,
            match step_id {
                Some(step) => "step "@ + step@ + " started"@,
                None => "act "@ + act_id@ + " started"@,
            },
            step_members("act_started"@, act_id@, step_id),
        ),
        LifecycleEvent::ActClosed { act_id, step_id, disposition } => if disposition
            == ClosureDisposition::Closed {
            (
                ExecutionEventKind::StepCompleted,
                match step_id {
                    Some(step) => "step "@ + step@ + " completed"@,
                    None => "act "@ + act_id@ + " closed"@,
                },
                step_members("act_closed"@, act_id@, step_id).push(
                    ("disposition"@, disposition_label_spec(disposition)),
                ),
            )
        } else {
            (
                ExecutionEventKind::Warning,
                match step_id {
                    Some(step) => "step "@ + step@ + " failed"@,
                    None => "act "@ + act_id@ + " closed with "@ + disposition_label_spec(
                        disposition,
                    ),
                },
                step_members("act_closed"@, act_id@, step_id).push(
                    ("disposition"@, disposition_label_spec(disposition)),
                ),
            )
        },
        LifecycleEvent::ChildHarnessLinked { parent_harness_id, child_harness_id, receipt_id } => (
            ExecutionEventKind::StepCompleted,
            "child harness "@ + child_harness_id@ + " linked"@,
            seq![
                ("kind"@, "child_harness_linked"@),
                ("parent_harness_id"@, parent_harness_id@),
                ("child_harness_id"@, child_harness_id@),
                ("receipt_id"@, receipt_id@),
            ],
        ),
        LifecycleEvent::AdapterInvoked { adapter_type, step_id } => (
            ExecutionEventKind::Executing,
            "adapter "@ + adapter_type@ + " invoked for step "@ + step_id@,
            seq![
                ("kind"@, "adapter_invoked"@),
                ("adapter_type"@, adapter_type@),
                ("step_id"@, step_id@),
            ],
        ),
        LifecycleEvent::ReceiptSealed { receipt_id, harness_id, disposition, message } => (
            ExecutionEventKind::Completed,
            message@,
            receipt_members("receipt_sealed"@, receipt_id@, harness_id@, disposition),
        ),
        LifecycleEvent::AbnormalSeal { receipt_id, harness_id, disposition, message } => (
            ExecutionEventKind::Completed,
            message@,
            receipt_members("abnormal_seal"@, receipt_id@, harness_id@, disposition),
        ),
        LifecycleEvent::VerificationRecorded { receipt_id, status } => (
            ExecutionEventKind::Completed,
            "verification recorded for receipt "@ + receipt_id@,
            seq![
                ("kind"@, "verification_recorded"@),
                ("receipt_id"@, receipt_id@),
                ("status"@, status@),
            ],
        ),
        LifecycleEvent::PublicationProjected { receipt_id, projection_id } => (
            ExecutionEventKind::Completed,
            "publication projected for receipt "@ + receipt_id@,
            seq![
                ("kind"@, "publication_projected"@),
                ("receipt_id"@, receipt_id@),
                ("projection_id"@, projection_id@),
            ],
        ),
    }
}

pub open spec fn step_members(kind: Seq<char>, act_id: Seq<char>, step_id: Option<String>) -> Seq<
    (Seq<char>, Seq<char>),
> {
    match step_id {
        Some(step) => seq![("kind"@, kind), ("act_id"@, act_id), ("step_id"@, step@)],
        None => seq![("kind"@, kind), ("act_id"@, act_id)],
    }
}

pub open spec fn receipt_members(
    kind: Seq<char>,
    receipt_id: Seq<char>,
    harness_id: Seq<char>,
    disposition: ClosureDisposition,
) -> Seq<(Seq<char>, Seq<char>)> {
    seq![
        ("kind"@, kind),
        ("receipt_id"@, receipt_id),
        ("harness_id"@, harness_id),
        ("disposition"@, disposition_label_spec(disposition)),
    ]
}

/// Appends a string member.
fn push_member(
    object: &mut Vec<(String, JsonValue)>,
    key: &str,
    value: String,
    Ghost(members): Ghost<Seq<(Seq<char>, Seq<char>)>>,
)
    requires
        string_members(old(object)@, members),
    ensures
        string_members(final(object)@, members.push((key@, value@))),
{
    let ghost before = object@;
    object.push((key.to_owned(), JsonValue::String(value)));
    assert forall|i: int| 0 <= i < members.len() + 1 implies (#[trigger] object@[i]).0@ == members.push((key@, value@))[i].0 && (object@[i].1 matches JsonValue::String(s) && s@ == members.push((key@, value@))[i].1) by {
        if i < members.len() {
            assert(object@[i] == before[i]);
        }
    }
}

fn string_object1(kind: &str, k1: &str, v1: String) -> (v: JsonValue)
    ensures
        string_object(v, seq![("kind"@, kind@), (k1@, v1@)]),
{
    let mut m: Vec<(String, JsonValue)> = Vec::new();
    let ghost m0 = Seq::<(Seq<char>, Seq<char>)>::empty();
    push_member(&mut m, "kind", kind.to_owned(), Ghost(m0));
    push_member(&mut m, k1, v1, Ghost(m0.push(("kind"@, kind@))));
    assert(m0.push(("kind"@, kind@)).push((k1@, v1@)) =~= seq![("kind"@, kind@), (k1@, v1@)]);
    JsonValue::Object(m)
}

fn string_object2(kind: &str, k1: &str, v1: String, k2: &str, v2: String) -> (v: JsonValue)
    ensures
        string_object(v, seq![("kind"@, kind@), (k1@, v1@), (k2@, v2@)]),
{
    let mut m: Vec<(String, JsonValue)> = Vec::new();
    let ghost m0 = Seq::<(Seq<char>, Seq<char>)>::empty();
    push_member(&mut m, "kind", kind.to_owned(), Ghost(m0));
    push_member(&mut m, k1, v1, Ghost(m0.push(("kind"@, kind@))));
    push_member(&mut m, k2, v2, Ghost(m0.push(("kind"@, kind@)).push((k1@, v1@))));
    assert(m0.push(("kind"@, kind@)).push((k1@, v1@)).push((k2@, v2@)) =~= seq![
        ("kind"@, kind@),
        (k1@, v1@),
        (k2@, v2@),
    ]);
    JsonValue::Object(m)
}

fn string_object3(
    kind: &str,
    k1: &str,
    v1: String,
    k2: &str,
    v2: String,
    k3: &str,
    v3: String,
) -> (v: JsonValue)
    ensures
        string_object(v, seq![("kind"@, kind@), (k1@, v1@), (k2@, v2@), (k3@, v3@)]),
{
    let mut m: Vec<(String, JsonValue)> = Vec::new();
    let ghost m0 = Seq::<(Seq<char>, Seq<char>)>::empty();
    push_member(&mut m, "kind", kind.to_owned(), Ghost(m0));
    push_member(&mut m, k1, v1, Ghost(m0.push(("kind"@, kind@))));
    push_member(&mut m, k2, v2, Ghost(m0.push(("kind"@, kind@)).push((k1@, v1@))));
    push_member(
        &mut m,
        k3,
        v3,
        Ghost(m0.push(("kind"@, kind@)).push((k1@, v1@)).push((k2@, v2@))),
    );
    assert(m0.push(("kind"@, kind@)).push((k1@, v1@)).push((k2@, v2@)).push((k3@, v3@)) =~= seq![
        ("kind"@, kind@),
        (k1@, v1@),
        (k2@, v2@),
        (k3@, v3@),
    ]);
    JsonValue::Object(m)
}

/// The data of an act event, with the disposition where there is one.
fn step_event_data(
    kind: &str,
    act_id: String,
    step_id: Option<String>,
    disposition: Option<ClosureDisposition>,
) -> (v: JsonValue)
    ensures
        string_object(
            v,
            match disposition {
                Some(d) => step_members(kind@, act_id@, step_id).push(
                    ("disposition"@, disposition_label_spec(d)),
                ),
                None => step_members(kind@, act_id@, step_id),
            },
        ),
{
    let ghost members = step_members(kind@, act_id@, step_id);
    let ghost sid = step_id;
    let mut m: Vec<(String, JsonValue)> = Vec::new();
    let ghost m0 = Seq::<(Seq<char>, Seq<char>)>::empty();
    push_member(&mut m, "kind", kind.to_owned(), Ghost(m0));
    let ghost m1 = m0.push(("kind"@, kind@));
    push_member(&mut m, "act_id", act_id, Ghost(m1));
    let ghost m2 = m1.push(("act_id"@, act_id@));
    match step_id {
        Some(step) => {
            push_member(&mut m, "step_id", step, Ghost(m2));
            assert(m2.push(("step_id"@, step@)) =~= members);
        },
        None => {
            assert(m2 =~= members);
        },
    }
    if let Some(d) = disposition {
        push_member(&mut m, "disposition", disposition_label(d).to_owned(), Ghost(members));
    }
    JsonValue::Object(m)
}

fn receipt_event_data(
    kind: &str,
    receipt_id: String,
    harness_id: String,
    disposition: ClosureDisposition,
) -> (v: JsonValue)
    ensures
        string_object(v, receipt_members(kind@, receipt_id@, harness_id@, disposition)),
{
    string_object3(
        kind,
        "receipt_id",
        receipt_id,
        "harness_id",
        harness_id,
        "disposition",
        disposition_label(disposition).to_owned(),
    )
}

fn concat4(a: &str, b: &str, c: &str, d: &str) -> (r: String)
    ensures
        r@ == a@ + b@ + c@ + d@,
{
    let abc = concat3(a, b, c);
    concat(abc.as_str(), d)
}

impl LifecycleEvent {
    /// `act_<step>` started.
    pub fn step_started(step_id: &str) -> (e: Self)
        ensures
            e matches LifecycleEvent::ActStarted { act_id, step_id: Some(s) } && act_id@ == "act_"@
                + step_id@ && s@ == step_id@,
    {
        LifecycleEvent::ActStarted { act_id: concat("act_", step_id), step_id: Some(step_id.to_owned()) }
    }

    /// `act_<step>` closed.
    pub fn step_completed(step_id: &str) -> (e: Self)
        ensures
            e matches LifecycleEvent::ActClosed { act_id, step_id: Some(s), disposition } && act_id@
                == "act_"@ + step_id@ && s@ == step_id@ && disposition == ClosureDisposition::Closed,
    {
        LifecycleEvent::ActClosed {
            act_id: concat("act_", step_id),
            step_id: Some(step_id.to_owned()),
            disposition: ClosureDisposition::Closed,
        }
    }

    /// `act_<step>` failed.
    pub fn step_failed(step_id: &str) -> (e: Self)
        ensures
            e matches LifecycleEvent::ActClosed { act_id, step_id: Some(s), disposition } && act_id@
                == "act_"@ + step_id@ && s@ == step_id@ && disposition == ClosureDisposition::Failed,
    {
        LifecycleEvent::ActClosed {
            act_id: concat("act_", step_id),
            step_id: Some(step_id.to_owned()),
            disposition: ClosureDisposition::Failed,
        }
    }

    /// A graph's receipt was sealed: its id, its subject (the harness) and
    /// its disposition.
    pub fn graph_completed(
        graph_name: &str,
        receipt_id: &str,
        subject_uri: &str,
        disposition: ClosureDisposition,
    ) -> (e: Self)
        ensures
            e matches LifecycleEvent::ReceiptSealed { receipt_id: r, harness_id, disposition: d, message }
                && r@ == receipt_id@ && harness_id@ == subject_uri@ && d == disposition && message@
                == "graph "@ + graph_name@ + " completed"@,
    {
        LifecycleEvent::ReceiptSealed {
            receipt_id: receipt_id.to_owned(),
            harness_id: subject_uri.to_owned(),
            disposition,
            message: concat3("graph ", graph_name, " completed"),
        }
    }

    /// A graph was blocked at a step.
    pub fn graph_blocked(
        graph_name: &str,
        step_id: &str,
        receipt_id: &str,
        subject_uri: &str,
        disposition: ClosureDisposition,
    ) -> (e: Self)
        ensures
            e matches LifecycleEvent::AbnormalSeal { receipt_id: r, harness_id, disposition: d, message }
                && r@ == receipt_id@ && harness_id@ == subject_uri@ && d == disposition && message@
                == "graph "@ + graph_name@ + " blocked at "@ + step_id@,
    {
        LifecycleEvent::AbnormalSeal {
            receipt_id: receipt_id.to_owned(),
            harness_id: subject_uri.to_owned(),
            disposition,
            message: concat4("graph ", graph_name, " blocked at ", step_id),
        }
    }

    /// What the host is told of this event.
    pub fn into_execution_event(self) -> (r: ExecutionEvent)
        ensures
            r.kind() == event_shape(self).0,
            r.message_view() == event_shape(self).1,
            r.data_view() matches Some(d) && string_object(d, event_shape(self).2),
    {
        match self {
            LifecycleEvent::HarnessOpened { harness_id, graph_name } => {
                let message = concat4(
                    "harness ",
                    harness_id.as_str(),
                    " opened for graph ",
                    graph_name.as_str(),
                );
                ExecutionEvent::Executing {
                    message,
                    data: Some(string_object1("harness_opened", "harness_id", harness_id)),
                }
            },
            LifecycleEvent::DecisionRecorded { decision_id, harness_id } => {
                let message = concat3("decision ", decision_id.as_str(), " recorded");
                ExecutionEvent::ResolutionResolved {
                    message,
                    data: Some(
                        string_object2(
                            "decision_recorded",
                            "decision_id",
                            decision_id,
                            "harness_id",
                            harness_id,
                        ),
                    ),
                }
            },
            LifecycleEvent::ActStarted { act_id, step_id } => {
                let message = match &step_id {
                    Some(step) => concat3("step ", step.as_str(), " started"),
                    None => concat3("act ", act_id.as_str(), " started"),
                };
                ExecutionEvent::StepStarted {
                    message,
                    data: Some(step_event_data("act_started", act_id, step_id, None)),
                }
            },
            LifecycleEvent::ActClosed { act_id, step_id, disposition } => {
                if disposition == ClosureDisposition::Closed {
                    let message = match &step_id {
                        Some(step) => concat3("step ", step.as_str(), " completed"),
                        None => concat3("act ", act_id.as_str(), " closed"),
                    };
                    ExecutionEvent::StepCompleted {
                        message,
                        data: Some(step_event_data("act_closed", act_id, step_id, Some(disposition))),
                    }
                } else {
                    let message = match &step_id {
                        Some(step) => concat3("step ", step.as_str(), " failed"),
                        None => concat3(
                            "act ",
                            act_id.as_str(),
                            " closed with ",
                        ),
                    };
                    let message = match &step_id {
                        Some(_) => message,
                        None => concat(message.as_str(), disposition_label(disposition)),
                    };
                    ExecutionEvent::Warning {
                        message,
                        data: Some(step_event_data("act_closed", act_id, step_id, Some(disposition))),
                    }
                }
            },
            LifecycleEvent::ChildHarnessLinked { parent_harness_id, child_harness_id, receipt_id } => {
                let message = concat3("child harness ", child_harness_id.as_str(), " linked");
                ExecutionEvent::StepCompleted {
                    message,
                    data: Some(
                        string_object3(
                            "child_harness_linked",
                            "parent_harness_id",
                            parent_harness_id,
                            "child_harness_id",
                            child_harness_id,
                            "receipt_id",
                            receipt_id,
                        ),
                    ),
                }
            },
            LifecycleEvent::AdapterInvoked { adapter_type, step_id } => {
                let message = concat4(
                    "adapter ",
                    adapter_type.as_str(),
                    " invoked for step ",
                    step_id.as_str(),
                );
                ExecutionEvent::Executing {
                    message,
                    data: Some(
                        string_object2(
                            "adapter_invoked",
                            "adapter_type",
                            adapter_type,
                            "step_id",
                            step_id,
                        ),
                    ),
                }
            },
            LifecycleEvent::ReceiptSealed { receipt_id, harness_id, disposition, message } => {
                ExecutionEvent::Completed {
                    message,
                    data: Some(receipt_event_data("receipt_sealed", receipt_id, harness_id, disposition)),
                }
            },
            LifecycleEvent::AbnormalSeal { receipt_id, harness_id, disposition, message } => {
                ExecutionEvent::Completed {
                    message,
                    data: Some(receipt_event_data("abnormal_seal", receipt_id, harness_id, disposition)),
                }
            },
            LifecycleEvent::VerificationRecorded { receipt_id, status } => {
                let message = concat("verification recorded for receipt ", receipt_id.as_str());
                ExecutionEvent::Completed {
                    message,
                    data: Some(
                        string_object2(
                            "verification_recorded",
                            "receipt_id",
                            receipt_id,
                            "status",
                            status,
                        ),
                    ),
                }
            },
            LifecycleEvent::PublicationProjected { receipt_id, projection_id } => {
                let message = concat("publication projected for receipt ", receipt_id.as_str());
                ExecutionEvent::Completed {
                    message,
                    data: Some(
                        string_object2(
                            "publication_projected",
                            "receipt_id",
                            receipt_id,
                            "projection_id",
                            projection_id,
                        ),
                    ),
                }
            },
        }
    }
}

// ---------------------------------------------------------------------------
// Journal records of a sealed receipt
// ---------------------------------------------------------------------------

/// An act of a sealed receipt: its id, summary, and the URIs of its
/// artifacts.
#[derive(Clone, Debug, PartialEq, Eq)]
pub struct LifecycleAct {
    pub id: String,
    pub summary: String,
    pub artifact_uris: Vec<String>,
}

/// A sealed receipt as its lifecycle records read it.
#[derive(Clone, Debug, PartialEq, Eq)]
pub struct LifecycleReceipt {
    pub disposition: ClosureDisposition,
    pub summary: String,
    pub first_decision_id: Option<String>,
    pub acts: Vec<LifecycleAct>,
}

/// One journal record of a sealed receipt.
#[derive(Clone, Debug, PartialEq, Eq)]
pub struct ReceiptLifecycleRecord {
    pub entry_key: String,
    pub event_kind: &'static str,
    pub summary: String,
    pub source_refs: Vec<String>,
    pub harness_ref: Option<String>,
    pub act_ref: Option<String>,
    pub decision_ref: Option<String>,
    pub artifact_refs: Vec<String>,
    pub status: Option<String>,
    pub include_verification: bool,
}

pub struct RecordView {
    pub entry_key: Seq<char>,
    pub event_kind: Seq<char>,
    pub summary: Seq<char>,
    pub source_refs: Seq<Seq<char>>,
    pub harness_ref: Option<Seq<char>>,
    pub act_ref: Option<Seq<char>>,
    pub decision_ref: Option<Seq<char>>,
    pub artifact_refs: Seq<Seq<char>>,
    pub status: Option<Seq<char>>,
    pub include_verification: bool,
}

pub open spec fn opt_view(s: Option<String>) -> Option<Seq<char>> {
    match s {
        Some(x) => Some(x@),
        None => None,
    }
}

impl View for ReceiptLifecycleRecord {
    type V = RecordView;

    open spec fn view(&self) -> RecordView {
        RecordView {
            entry_key: self.entry_key@,
            event_kind: self.event_kind@,
            summary: self.summary@,
            source_refs: text_views(self.source_refs@),
            harness_ref: opt_view(self.harness_ref),
            act_ref: opt_view(self.act_ref),
            decision_ref: opt_view(self.decision_ref),
            artifact_refs: text_views(self.artifact_refs@),
            status: opt_view(self.status),
            include_verification: self.include_verification,
        }
    }
}

/// The record of the receipt itself: its seal, its first decision, and the
/// verification it carries.
pub open spec fn receipt_record(
    receipt: LifecycleReceipt,
    receipt_ref: Seq<char>,
    harness_ref: Seq<char>,
    status: Seq<char>,
) -> RecordView {
    RecordView {
        entry_key: "receipt"@,
        event_kind: if is_abnormal(receipt.disposition) {
            "abnormal_seal"@
        } else {
            "receipt_sealed"@
        },
        summary: receipt.summary@,
        source_refs: seq![receipt_ref],
        harness_ref: Some(harness_ref),
        act_ref: None,
        decision_ref: match receipt.first_decision_id {
            Some(d) => Some("runx:decision:"@ + d@),
            None => None,
        },
        artifact_refs: Seq::empty(),
        status: Some(status),
        include_verification: true,
    }
}

/// The record of one act: closed, with its artifacts.
pub open spec fn act_record(
    act: LifecycleAct,
    receipt_ref: Seq<char>,
    harness_ref: Seq<char>,
    status: Seq<char>,
) -> RecordView {
    RecordView {
        entry_key: "act:"@ + act.id@,
        event_kind: "act_closed"@,
        summary: act.summary@,
        source_refs: seq![receipt_ref, "runx:act:"@ + act.id@],
        harness_ref: Some(harness_ref),
        act_ref: Some("runx:act:"@ + act.id@),
        decision_ref: None,
        artifact_refs: text_views(act.artifact_uris@),
        status: Some(status),
        include_verification: false,
    }
}

fn one_string(s: String) -> (v: Vec<String>)
    ensures
        text_views(v@) == seq![s@],
{
    let mut v: Vec<String> = Vec::new();
    v.push(s);
    assert(text_views(v@) =~= seq![s@]);
    v
}

fn clone_strings(v: &Vec<String>) -> (r: Vec<String>)
    ensures
        text_views(r@) == text_views(v@),
{
    let mut r: Vec<String> = Vec::new();
    let mut i: usize = 0;
    while i < v.len()
        invariant
            i <= v@.len(),
            r@.len() == i,
            forall|j: int| 0 <= j < i ==> (#[trigger] r@[j])@ == v@[j]@,
        decreases v.len() - i,
    {
        let c = v[i].clone();
        r.push(c);
        i += 1;
    }
    assert(text_views(r@) =~= text_views(v@));
    r
}

/// The journal records of a sealed receipt: the receipt's own record, then
/// one per act, in order.
pub fn receipt_lifecycle_records(
    receipt: &LifecycleReceipt,
    receipt_ref: &str,
    harness_ref: &str,
    status: String,
) -> (r: Vec<ReceiptLifecycleRecord>)
    ensures
        r@.len() == receipt.acts@.len() + 1,
        r@[0]@ == receipt_record(*receipt, receipt_ref@, harness_ref@, status@),
        forall|i: int|
            0 <= i < receipt.acts@.len() ==> (#[trigger] r@[i + 1])@ == act_record(
                receipt.acts@[i],
                receipt_ref@,
                harness_ref@,
                status@,
            ),
{
    let decision_ref = match &receipt.first_decision_id {
        Some(d) => Some(concat("runx:decision:", d.as_str())),
        None => None,
    };
    let first = ReceiptLifecycleRecord {
        entry_key: "receipt".to_owned(),
        event_kind: receipt_event_kind(receipt.disposition),
        summary: receipt.summary.clone(),
        source_refs: one_string(receipt_ref.to_owned()),
        harness_ref: Some(harness_ref.to_owned()),
        act_ref: None,
        decision_ref,
        artifact_refs: Vec::new(),
        status: Some(status.clone()),
        include_verification: true,
    };
    assert(first@.artifact_refs =~= Seq::<Seq<char>>::empty());
    assert(first@ == receipt_record(*receipt, receipt_ref@, harness_ref@, status@));
    let mut records: Vec<ReceiptLifecycleRecord> = Vec::new();
    records.push(first);
    let mut i: usize = 0;
    while i < receipt.acts.len()
        invariant
            i <= receipt.acts@.len(),
            records@.len() == i + 1,
            records@[0]@ == receipt_record(*receipt, receipt_ref@, harness_ref@, status@),
            forall|j: int|
                0 <= j < i ==> (#[trigger] records@[j + 1])@ == act_record(
                    receipt.acts@[j],
                    receipt_ref@,
                    harness_ref@,
                    status@,
                ),
        decreases receipt.acts.len() - i,
    {
        let act = &receipt.acts[i];
        let act_ref = concat("runx:act:", act.id.as_str());
        let mut sources: Vec<String> = Vec::new();
        sources.push(receipt_ref.to_owned());
        sources.push(act_ref.clone());
        assert(text_views(sources@) =~= seq![receipt_ref@, act_ref@]);
        let record = ReceiptLifecycleRecord {
            entry_key: concat("act:", act.id.as_str()),
            event_kind: "act_closed",
            summary: act.summary.clone(),
            source_refs: sources,
            harness_ref: Some(harness_ref.to_owned()),
            act_ref: Some(act_ref),
            decision_ref: None,
            artifact_refs: clone_strings(&act.artifact_uris),
            status: Some(status.clone()),
            include_verification: false,
        };
        proof {
            reveal_strlit("act_closed");
        }
        assert(record@ == act_record(receipt.acts@[i as int], receipt_ref@, harness_ref@, status@));
        records.push(record);
        i += 1;
    }
    records
}

} // verus!
