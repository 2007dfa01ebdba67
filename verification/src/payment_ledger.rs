//! The x402 payment ledger projection: from the payment evidence that a
//! graph's child receipts carry (a reservation, then a rail settlement or a
//! refusal, and paid tool results), the ledger entry the payment amounts to.
use vstd::prelude::*;

use crate::json::{
    json_eq, json_equal, json_get, lemma_json_eq_reflexive, object_get, plain_json, JsonNumber,
    JsonValue,
};
use crate::hashing::{lower_hex, lower_hex_prefix, sha256_digest, sha256_of_str, sha256_prefixed};
use crate::search::{first_index, lemma_first_index_bounds, lemma_first_index_extend};
use crate::journal::{receipt_uri, RECEIPT_REF_PREFIX};
use crate::receipt_paths::{join_path, path_join, utf8};
use crate::receipt_store::bytes_equal;
use crate::text::{
    ascii_alnum, chars_of, concat, concat3, is_ascii_alnum, str_eq, strings_contain, string_of,
    strip_prefix, strip_prefix_chars, text_views,
};

verus! {

pub const PAYMENT_LEDGER_PROJECTION_SCHEMA_VERSION: &'static str =
    "runx.payment_ledger_projection.v1";

pub const X402_PAY_PAYMENT_PROFILE: &'static str = "x402-pay";

pub const PAYMENT_LEDGER_PROJECTED_EVENT_KIND: &'static str = "payment_ledger_projected";

pub const PAYMENT_LEDGER_EVENT_LEDGER_DIR: &'static str = "ledgers";

// ---------------------------------------------------------------------------
// The projection
// ---------------------------------------------------------------------------

#[derive(Clone, Copy, Debug, PartialEq, Eq)]
pub enum PaymentLedgerDisposition {
    Settled,
    Refused,
}

/// What the payment accrues on the ledger.
#[derive(Clone, Debug, PartialEq, Eq)]
pub struct PaymentLedgerAccrual {
    pub amount_minor: u64,
    pub currency: String,
    pub rail: String,
    pub counterparty: String,
    pub operation: String,
    pub idempotency_key: String,
    pub rail_proof_refs: Vec<String>,
}

/// Why the payment was refused, and what had happened by then.
#[derive(Clone, Debug, PartialEq, Eq)]
pub struct PaymentLedgerRefusal {
    pub reason_code: String,
    pub refused_stage: String,
    pub rail_call_performed: bool,
    pub ledger_spend_recorded: bool,
}

/// The ledger entry of one paid graph run.
#[derive(Clone, Debug, PartialEq, Eq)]
pub struct PaymentLedgerProjection {
    pub schema_version: String,
    pub payment_profile: String,
    pub scenario_id: String,
    pub source_receipt_id: String,
    pub disposition: PaymentLedgerDisposition,
    pub accrual: PaymentLedgerAccrual,
    pub refusal: Option<PaymentLedgerRefusal>,
    pub evidence_refs: Vec<String>,
}

// ---------------------------------------------------------------------------
// Evidence
// ---------------------------------------------------------------------------

/// A verification reference of a receipt act, as the ledger reads it:
/// whether it is typed as a payment rail proof, its URI and its locator.
#[derive(Clone, Debug, PartialEq, Eq)]
pub struct EvidenceReference {
    pub payment_rail_proof: bool,
    pub uri: String,
    pub locator: Option<String>,
}

/// An act of a receipt with the verification references of all its
/// criterion bindings, in order.
#[derive(Clone, Debug, PartialEq, Eq)]
pub struct EvidenceAct {
    pub id: String,
    pub verification_refs: Vec<EvidenceReference>,
}

/// A sealed receipt as the ledger reads it: its id and digest, the URI of
/// its subject, its acts, and the URIs of the child receipts its lineage
/// names (none where it has no lineage).
#[derive(Clone, Debug, PartialEq, Eq)]
pub struct LedgerReceipt {
    pub id: String,
    pub digest: String,
    pub subject_uri: String,
    pub acts: Vec<EvidenceAct>,
    pub child_receipt_uris: Vec<String>,
}

/// What a payment supervisor attested for a rail call: the values it is held
/// against before a settlement may accrue.
#[derive(Clone, Debug, PartialEq, Eq)]
pub struct PaymentSupervisorProof {
    pub proof_ref: String,
    pub rail: String,
    pub counterparty: String,
    pub amount_minor: u64,
    pub currency: String,
    pub idempotency_key: String,
    pub spend_capability_ref: String,
    pub act_id: String,
    pub receipt_ref: String,
    pub receipt_digest: String,
}

#[derive(Clone, Debug, PartialEq, Eq)]
pub struct PaymentReservationEvidence {
    pub amount_minor: u64,
    pub currency: String,
    pub rail: String,
    pub counterparty: String,
    pub operation: String,
    pub idempotency_key: String,
    pub spend_capability_ref: String,
}

#[derive(Clone, Debug, PartialEq, Eq)]
pub struct PaymentRailSettlementEvidence {
    pub amount_minor: u64,
    pub currency: String,
    pub rail: String,
    pub proof_ref: String,
    pub idempotency_key: String,
    pub supervisor_proof: Option<PaymentSupervisorProof>,
}

#[derive(Clone, Debug, PartialEq, Eq)]
pub struct PaymentRefusalEvidence {
    pub reason_code: String,
    pub refused_stage: String,
    pub rail_call_performed: bool,
    pub ledger_spend_recorded: bool,
}

#[derive(Clone, Debug, PartialEq, Eq)]
pub struct PaidToolEvidence {
    pub payment_proof_ref: String,
}

#[derive(Clone, Debug, PartialEq, Eq)]
pub enum PaymentLedgerEvidencePacket {
    Reservation(PaymentReservationEvidence),
    RailSettlement(Box<PaymentRailSettlementEvidence>),
    Refusal(PaymentRefusalEvidence),
    PaidTool(PaidToolEvidence),
}

/// One packet of payment evidence and the child receipt that carries it.
#[derive(Clone, Debug)]
pub struct PaymentLedgerEvidence {
    pub receipt: LedgerReceipt,
    pub packet: PaymentLedgerEvidencePacket,
}

/// The graph receipt, the scenario, and the evidence of its child receipts.
#[derive(Clone, Debug)]
pub struct PaymentLedgerProjectionInput {
    pub graph_receipt: LedgerReceipt,
    pub scenario_id: String,
    pub evidence: Vec<PaymentLedgerEvidence>,
}

/// Why no ledger entry could be made, or written.
#[derive(Debug, PartialEq, Eq)]
pub enum PaymentLedgerProjectionError {
    MissingReservation,
    MissingDispositionEvidence,
    MissingReceiptRailProof { receipt_id: String, proof_ref: String },
    MissingSupervisorProof { proof_ref: String },
    SupervisorProofMismatch { message: String },
    PaidToolProofMismatch { proof_ref: String },
    ChildReceiptNotReferenced { graph_receipt_id: String, child_receipt_id: String },
    SettlementReservationMismatch,
    InvalidSourceReceiptId { source_receipt_id: String },
    ArtifactConflict { path: String },
    ArtifactIo { path: String, message: String },
    ArtifactJson { path: String, message: String },
    MissingEvidenceField { field: &'static str },
    InvalidEvidenceField { field: &'static str },
    InvalidRunLedgerId { run_id: String },
    LedgerEventConflict { path: String },
    LedgerEventIo { path: String, message: String },
    LedgerEventJson { path: String, message: String },
}

// ---------------------------------------------------------------------------
// Views
// ---------------------------------------------------------------------------

pub struct AccrualView {
    pub amount_minor: u64,
    pub currency: Seq<char>,
    pub rail: Seq<char>,
    pub counterparty: Seq<char>,
    pub operation: Seq<char>,
    pub idempotency_key: Seq<char>,
    pub rail_proof_refs: Seq<Seq<char>>,
}

pub struct RefusalView {
    pub reason_code: Seq<char>,
    pub refused_stage: Seq<char>,
    pub rail_call_performed: bool,
    pub ledger_spend_recorded: bool,
}

pub struct ProjectionView {
    pub schema_version: Seq<char>,
    pub payment_profile: Seq<char>,
    pub scenario_id: Seq<char>,
    pub source_receipt_id: Seq<char>,
    pub disposition: PaymentLedgerDisposition,
    pub accrual: AccrualView,
    pub refusal: Option<RefusalView>,
    pub evidence_refs: Seq<Seq<char>>,
}

/// The errors of the projection itself, by their texts.
pub enum ProjectionErrorView {
    MissingReservation,
    MissingDispositionEvidence,
    MissingReceiptRailProof { receipt_id: Seq<char>, proof_ref: Seq<char> },
    MissingSupervisorProof { proof_ref: Seq<char> },
    SupervisorProofMismatch { message: Seq<char> },
    PaidToolProofMismatch { proof_ref: Seq<char> },
    ChildReceiptNotReferenced { graph_receipt_id: Seq<char>, child_receipt_id: Seq<char> },
    SettlementReservationMismatch,
    Other,
}

impl View for PaymentLedgerAccrual {
    type V = AccrualView;

    open spec fn view(&self) -> AccrualView {
        AccrualView {
            amount_minor: self.amount_minor,
            currency: self.currency@,
            rail: self.rail@,
            counterparty: self.counterparty@,
            operation: self.operation@,
            idempotency_key: self.idempotency_key@,
            rail_proof_refs: text_views(self.rail_proof_refs@),
        }
    }
}

impl View for PaymentLedgerRefusal {
    type V = RefusalView;

    open spec fn view(&self) -> RefusalView {
        RefusalView {
            reason_code: self.reason_code@,
            refused_stage: self.refused_stage@,
            rail_call_performed: self.rail_call_performed,
            ledger_spend_recorded: self.ledger_spend_recorded,
        }
    }
}

impl View for PaymentLedgerProjection {
    type V = ProjectionView;

    open spec fn view(&self) -> ProjectionView {
        ProjectionView {
            schema_version: self.schema_version@,
            payment_profile: self.payment_profile@,
            scenario_id: self.scenario_id@,
            source_receipt_id: self.source_receipt_id@,
            disposition: self.disposition,
            accrual: self.accrual@,
            refusal: match self.refusal {
                Some(r) => Some(r@),
                None => None,
            },
            evidence_refs: text_views(self.evidence_refs@),
        }
    }
}

impl View for PaymentLedgerProjectionError {
    type V = ProjectionErrorView;

    open spec fn view(&self) -> ProjectionErrorView {
        match self {
            PaymentLedgerProjectionError::MissingReservation => ProjectionErrorView::MissingReservation,
            PaymentLedgerProjectionError::MissingDispositionEvidence => {
                ProjectionErrorView::MissingDispositionEvidence
            },
            PaymentLedgerProjectionError::MissingReceiptRailProof { receipt_id, proof_ref } => {
                ProjectionErrorView::MissingReceiptRailProof {
                    receipt_id: receipt_id@,
                    proof_ref: proof_ref@,
                }
            },
            PaymentLedgerProjectionError::MissingSupervisorProof { proof_ref } => {
                ProjectionErrorView::MissingSupervisorProof { proof_ref: proof_ref@ }
            },
            PaymentLedgerProjectionError::SupervisorProofMismatch { message } => {
                ProjectionErrorView::SupervisorProofMismatch { message: message@ }
            },
            PaymentLedgerProjectionError::PaidToolProofMismatch { proof_ref } => {
                ProjectionErrorView::PaidToolProofMismatch { proof_ref: proof_ref@ }
            },
            PaymentLedgerProjectionError::ChildReceiptNotReferenced {
                graph_receipt_id,
                child_receipt_id,
            } => ProjectionErrorView::ChildReceiptNotReferenced {
                graph_receipt_id: graph_receipt_id@,
                child_receipt_id: child_receipt_id@,
            },
            PaymentLedgerProjectionError::SettlementReservationMismatch => {
                ProjectionErrorView::SettlementReservationMismatch
            },
            _ => ProjectionErrorView::Other,
        }
    }
}

// ---------------------------------------------------------------------------
// The rules, as specifications
// ---------------------------------------------------------------------------

/// The `runx:receipt:` reference of a receipt id.
pub open spec fn receipt_ref_spec(id: Seq<char>) -> Seq<char> {
    RECEIPT_REF_PREFIX@ + id
}

/// The graph's lineage names the receipt that carries `e`.
pub open spec fn referenced_by(graph: LedgerReceipt, e: PaymentLedgerEvidence) -> bool {
    text_views(graph.child_receipt_uris@).contains(receipt_ref_spec(e.receipt.id@))
}

pub open spec fn unreferenced_at(graph: LedgerReceipt, ev: Seq<PaymentLedgerEvidence>) -> spec_fn(
    int,
) -> bool {
    |i: int| !referenced_by(graph, ev[i])
}

pub open spec fn reservation_at(ev: Seq<PaymentLedgerEvidence>) -> spec_fn(int) -> bool {
    |i: int| ev[i].packet is Reservation
}

pub open spec fn refusal_at(ev: Seq<PaymentLedgerEvidence>) -> spec_fn(int) -> bool {
    |i: int| ev[i].packet is Refusal
}

pub open spec fn settlement_at(ev: Seq<PaymentLedgerEvidence>) -> spec_fn(int) -> bool {
    |i: int| ev[i].packet is RailSettlement
}

/// A paid tool result that names another payment proof than `proof_ref`.
pub open spec fn foreign_paid_tool_at(ev: Seq<PaymentLedgerEvidence>, proof_ref: Seq<char>) -> spec_fn(
    int,
) -> bool {
    |i: int|
        match ev[i].packet {
            PaymentLedgerEvidencePacket::PaidTool(t) => t.payment_proof_ref@ != proof_ref,
            _ => false,
        }
}

/// A settlement accrues only what was reserved: the same amount, currency,
/// rail and idempotency key.
pub open spec fn settles_reservation(
    reservation: PaymentReservationEvidence,
    settlement: PaymentRailSettlementEvidence,
) -> bool {
    &&& reservation.amount_minor == settlement.amount_minor
    &&& reservation.currency@ == settlement.currency@
    &&& reservation.rail@ == settlement.rail@
    &&& reservation.idempotency_key@ == settlement.idempotency_key@
}

/// The reference is the typed rail proof of the settlement: same URI, and
/// located by the settlement's idempotency key.
pub open spec fn proves_settlement(
    reference: EvidenceReference,
    settlement: PaymentRailSettlementEvidence,
) -> bool {
    &&& reference.payment_rail_proof
    &&& reference.uri@ == settlement.proof_ref@
    &&& reference.locator matches Some(l) && l@ == settlement.idempotency_key@
}

pub open spec fn act_proves_settlement(
    act: EvidenceAct,
    settlement: PaymentRailSettlementEvidence,
) -> bool {
    exists|j: int|
        0 <= j < act.verification_refs@.len() && proves_settlement(
            #[trigger] act.verification_refs@[j],
            settlement,
        )
}

pub open spec fn proving_act_at(
    acts: Seq<EvidenceAct>,
    settlement: PaymentRailSettlementEvidence,
) -> spec_fn(int) -> bool {
    |k: int| act_proves_settlement(acts[k], settlement)
}

/// The first field of the supervisor proof that disagrees with what it is
/// held against, by name.
pub open spec fn supervisor_mismatch(
    proof: PaymentSupervisorProof,
    reservation: PaymentReservationEvidence,
    receipt: LedgerReceipt,
    settlement: PaymentRailSettlementEvidence,
    act_id: Seq<char>,
) -> Option<Seq<char>> {
    if proof.proof_ref@ != settlement.proof_ref@ {
        Some("proof_ref"@)
    } else if proof.rail@ != settlement.rail@ {
        Some("rail"@)
    } else if proof.counterparty@ != reservation.counterparty@ {
        Some("counterparty"@)
    } else if proof.amount_minor != settlement.amount_minor {
        Some("amount_minor"@)
    } else if proof.currency@ != settlement.currency@ {
        Some("currency"@)
    } else if proof.idempotency_key@ != settlement.idempotency_key@ {
        Some("idempotency_key"@)
    } else if proof.spend_capability_ref@ != reservation.spend_capability_ref@ {
        Some("spend_capability_ref"@)
    } else if proof.act_id@ != act_id {
        Some("act_id"@)
    } else if proof.receipt_ref@ != receipt.id@ {
        Some("receipt_ref"@)
    } else if proof.receipt_digest@ != receipt.digest@ {
        Some("receipt_digest"@)
    } else {
        None
    }
}

/// Drops later repeats, keeping the first occurrence of each text in order.
pub open spec fn dedup(s: Seq<Seq<char>>) -> Seq<Seq<char>>
    decreases s.len(),
{
    if s.len() == 0 {
        Seq::empty()
    } else {
        let d = dedup(s.drop_last());
        if d.contains(s.last()) {
            d
        } else {
            d.push(s.last())
        }
    }
}

/// The subject and receipt references of the settlement and refusal
/// evidence in `ev[..n]`.
pub open spec fn disposition_refs(ev: Seq<PaymentLedgerEvidence>, n: int) -> Seq<Seq<char>>
    decreases n,
{
    if n <= 0 {
        Seq::empty()
    } else {
        let e = ev[n - 1];
        disposition_refs(ev, n - 1) + if e.packet is RailSettlement || e.packet is Refusal {
            seq![e.receipt.subject_uri@, receipt_ref_spec(e.receipt.id@)]
        } else {
            Seq::empty()
        }
    }
}

/// The spend capabilities of the reservation evidence in `ev[..n]`.
pub open spec fn reservation_refs(ev: Seq<PaymentLedgerEvidence>, n: int) -> Seq<Seq<char>>
    decreases n,
{
    if n <= 0 {
        Seq::empty()
    } else {
        reservation_refs(ev, n - 1) + match ev[n - 1].packet {
            PaymentLedgerEvidencePacket::Reservation(r) => seq![r.spend_capability_ref@],
            _ => Seq::empty(),
        }
    }
}

/// The evidence references of a projection: settlement and refusal
/// evidence first, then the reserved spend capabilities, each once.
pub open spec fn evidence_refs_spec(ev: Seq<PaymentLedgerEvidence>) -> Seq<Seq<char>> {
    dedup(disposition_refs(ev, ev.len() as int) + reservation_refs(ev, ev.len() as int))
}

pub open spec fn projection_with(
    input: PaymentLedgerProjectionInput,
    disposition: PaymentLedgerDisposition,
    accrual: AccrualView,
    refusal: Option<RefusalView>,
) -> ProjectionView {
    ProjectionView {
        schema_version: PAYMENT_LEDGER_PROJECTION_SCHEMA_VERSION@,
        payment_profile: X402_PAY_PAYMENT_PROFILE@,
        scenario_id: input.scenario_id@,
        source_receipt_id: receipt_ref_spec(input.graph_receipt.id@),
        disposition,
        accrual,
        refusal,
        evidence_refs: evidence_refs_spec(input.evidence@),
    }
}

/// A refused payment accrues nothing: the reservation's terms with a zero
/// amount and no rail proof.
pub open spec fn refused_accrual_spec(r: PaymentReservationEvidence) -> AccrualView {
    AccrualView {
        amount_minor: 0,
        currency: r.currency@,
        rail: r.rail@,
        counterparty: r.counterparty@,
        operation: r.operation@,
        idempotency_key: r.idempotency_key@,
        rail_proof_refs: Seq::empty(),
    }
}

/// A settled payment accrues the settled amount on the reserved
/// counterparty and operation, with the settlement's proof.
pub open spec fn settled_accrual_spec(
    r: PaymentReservationEvidence,
    s: PaymentRailSettlementEvidence,
) -> AccrualView {
    AccrualView {
        amount_minor: s.amount_minor,
        currency: s.currency@,
        rail: s.rail@,
        counterparty: r.counterparty@,
        operation: r.operation@,
        idempotency_key: s.idempotency_key@,
        rail_proof_refs: seq![s.proof_ref@],
    }
}

/// What a settlement projects to, or the first check it fails.
pub open spec fn settled_spec(
    input: PaymentLedgerProjectionInput,
    reservation: PaymentReservationEvidence,
    carrier: LedgerReceipt,
    settlement: PaymentRailSettlementEvidence,
) -> Result<ProjectionView, ProjectionErrorView> {
    let ev = input.evidence@;
    if !settles_reservation(reservation, settlement) {
        Err(ProjectionErrorView::SettlementReservationMismatch)
    } else {
        match first_index(carrier.acts@.len() as int, proving_act_at(carrier.acts@, settlement)) {
            None => Err(
                ProjectionErrorView::MissingReceiptRailProof {
                    receipt_id: carrier.id@,
                    proof_ref: settlement.proof_ref@,
                },
            ),
            Some(k) => match settlement.supervisor_proof {
                None => Err(
                    ProjectionErrorView::MissingSupervisorProof { proof_ref: settlement.proof_ref@ },
                ),
                Some(proof) => match supervisor_mismatch(
                    proof,
                    reservation,
                    carrier,
                    settlement,
                    carrier.acts@[k].id@,
                ) {
                    Some(message) => Err(ProjectionErrorView::SupervisorProofMismatch { message }),
                    None => match first_index(
                        ev.len() as int,
                        foreign_paid_tool_at(ev, settlement.proof_ref@),
                    ) {
                        Some(t) => Err(
                            ProjectionErrorView::PaidToolProofMismatch {
                                proof_ref: ev[t].packet->PaidTool_0.payment_proof_ref@,
                            },
                        ),
                        None => Ok(
                            projection_with(
                                input,
                                PaymentLedgerDisposition::Settled,
                                settled_accrual_spec(reservation, settlement),
                                None,
                            ),
                        ),
                    },
                },
            },
        }
    }
}

/// The ledger projection of a graph run: every evidence receipt must be a
/// child of the graph receipt; the first reservation gives the terms; a
/// refusal, where there is one, makes the payment refused; otherwise the
/// first settlement must match the reservation, be proven on its receipt,
/// be attested by its supervisor, and agree with every paid tool result.
pub open spec fn projection_spec(input: PaymentLedgerProjectionInput) -> Result<
    ProjectionView,
    ProjectionErrorView,
> {
    let ev = input.evidence@;
    let len = ev.len() as int;
    match first_index(len, unreferenced_at(input.graph_receipt, ev)) {
        Some(i) => Err(
            ProjectionErrorView::ChildReceiptNotReferenced {
                graph_receipt_id: input.graph_receipt.id@,
                child_receipt_id: ev[i].receipt.id@,
            },
        ),
        None => match first_index(len, reservation_at(ev)) {
            None => Err(ProjectionErrorView::MissingReservation),
            Some(ri) => {
                let reservation = ev[ri].packet->Reservation_0;
                match first_index(len, refusal_at(ev)) {
                    Some(fi) => {
                        let refusal = ev[fi].packet->Refusal_0;
                        Ok(
                            projection_with(
                                input,
                                PaymentLedgerDisposition::Refused,
                                refused_accrual_spec(reservation),
                                Some(
                                    RefusalView {
                                        reason_code: refusal.reason_code@,
                                        refused_stage: refusal.refused_stage@,
                                        rail_call_performed: refusal.rail_call_performed,
                                        ledger_spend_recorded: refusal.ledger_spend_recorded,
                                    },
                                ),
                            ),
                        )
                    },
                    None => match first_index(len, settlement_at(ev)) {
                        None => Err(ProjectionErrorView::MissingDispositionEvidence),
                        Some(si) => settled_spec(
                            input,
                            reservation,
                            ev[si].receipt,
                            *ev[si].packet->RailSettlement_0,
                        ),
                    },
                }
            },
        },
    }
}

// ---------------------------------------------------------------------------
// Building the projection
// ---------------------------------------------------------------------------

fn receipt_ref(receipt: &LedgerReceipt) -> (r: String)
    ensures
        r@ == receipt_ref_spec(receipt.id@),
{
    receipt_uri(receipt.id.as_str())
}

/// Every evidence receipt must be a child of the graph receipt.
fn validate_child_receipts(
    graph: &LedgerReceipt,
    evidence: &Vec<PaymentLedgerEvidence>,
) -> (r: Result<(), PaymentLedgerProjectionError>)
    ensures
        match first_index(evidence@.len() as int, unreferenced_at(*graph, evidence@)) {
            Some(i) => r matches Err(e) && e@ == (ProjectionErrorView::ChildReceiptNotReferenced {
                graph_receipt_id: graph.id@,
                child_receipt_id: evidence@[i].receipt.id@,
            }),
            None => r is Ok,
        },
{
    let ghost p = unreferenced_at(*graph, evidence@);
    let mut i: usize = 0;
    while i < evidence.len()
        invariant
            i <= evidence@.len(),
            p == unreferenced_at(*graph, evidence@),
            first_index(i as int, p) is None,
        decreases evidence.len() - i,
    {
        let child_ref = receipt_ref(&evidence[i].receipt);
        if !strings_contain(&graph.child_receipt_uris, child_ref.as_str()) {
            assert(p(i as int));
            assert(first_index(i + 1, p) == Some(i as int));
            proof {
                lemma_first_index_extend(i + 1, evidence@.len() as int, p);
            }
            return Err(
                PaymentLedgerProjectionError::ChildReceiptNotReferenced {
                    graph_receipt_id: graph.id.clone(),
                    child_receipt_id: evidence[i].receipt.id.clone(),
                },
            );
        }
        assert(!p(i as int));
        assert(first_index(i + 1, p) is None);
        i += 1;
    }
    Ok(())
}

/// The first evidence of the kind that `kind` names: 0 for a reservation, 1
/// for a refusal, 2 for a settlement.
fn first_of_kind(evidence: &Vec<PaymentLedgerEvidence>, kind: u8) -> (r: Option<usize>)
    requires
        kind <= 2,
    ensures
        ({
            let p = if kind == 0 {
                reservation_at(evidence@)
            } else if kind == 1 {
                refusal_at(evidence@)
            } else {
                settlement_at(evidence@)
            };
            match first_index(evidence@.len() as int, p) {
                Some(i) => r == Some(i as usize),
                None => r is None,
            }
        }),
{
    let ghost p = if kind == 0 {
        reservation_at(evidence@)
    } else if kind == 1 {
        refusal_at(evidence@)
    } else {
        settlement_at(evidence@)
    };
    let mut i: usize = 0;
    while i < evidence.len()
        invariant
            i <= evidence@.len(),
            kind <= 2,
            p == (if kind == 0 {
                reservation_at(evidence@)
            } else if kind == 1 {
                refusal_at(evidence@)
            } else {
                settlement_at(evidence@)
            }),
            first_index(i as int, p) is None,
        decreases evidence.len() - i,
    {
        let hit = match &evidence[i].packet {
            PaymentLedgerEvidencePacket::Reservation(_) => kind == 0,
            PaymentLedgerEvidencePacket::Refusal(_) => kind == 1,
            PaymentLedgerEvidencePacket::RailSettlement(_) => kind == 2,
            PaymentLedgerEvidencePacket::PaidTool(_) => false,
        };
        assert(hit == p(i as int));
        if hit {
            assert(first_index(i + 1, p) == Some(i as int));
            proof {
                lemma_first_index_extend(i + 1, evidence@.len() as int, p);
            }
            return Some(i);
        }
        assert(first_index(i + 1, p) is None);
        i += 1;
    }
    None
}

fn validate_settlement_matches_reservation(
    reservation: &PaymentReservationEvidence,
    settlement: &PaymentRailSettlementEvidence,
) -> (r: Result<(), PaymentLedgerProjectionError>)
    ensures
        r is Ok <==> settles_reservation(*reservation, *settlement),
        r matches Err(e) ==> e@ == ProjectionErrorView::SettlementReservationMismatch,
{
    if reservation.amount_minor == settlement.amount_minor && str_eq(
        reservation.currency.as_str(),
        settlement.currency.as_str(),
    ) && str_eq(reservation.rail.as_str(), settlement.rail.as_str()) && str_eq(
        reservation.idempotency_key.as_str(),
        settlement.idempotency_key.as_str(),
    ) {
        Ok(())
    } else {
        Err(PaymentLedgerProjectionError::SettlementReservationMismatch)
    }
}

fn is_matching_payment_rail_proof(
    reference: &EvidenceReference,
    settlement: &PaymentRailSettlementEvidence,
) -> (b: bool)
    ensures
        b == proves_settlement(*reference, *settlement),
{
    reference.payment_rail_proof && str_eq(reference.uri.as_str(), settlement.proof_ref.as_str())
        && match &reference.locator {
        Some(l) => str_eq(l.as_str(), settlement.idempotency_key.as_str()),
        None => false,
    }
}

fn act_proves(act: &EvidenceAct, settlement: &PaymentRailSettlementEvidence) -> (b: bool)
    ensures
        b == act_proves_settlement(*act, *settlement),
{
    let mut j: usize = 0;
    while j < act.verification_refs.len()
        invariant
            j <= act.verification_refs@.len(),
            forall|m: int| 0 <= m < j ==> !proves_settlement(#[trigger] act.verification_refs@[m], *settlement),
        decreases act.verification_refs.len() - j,
    {
        if is_matching_payment_rail_proof(&act.verification_refs[j], settlement) {
            return true;
        }
        j += 1;
    }
    false
}

/// The act of the carrying receipt that holds the settlement's rail proof.
fn validate_receipt_rail_proof(
    receipt: &LedgerReceipt,
    settlement: &PaymentRailSettlementEvidence,
) -> (r: Result<String, PaymentLedgerProjectionError>)
    ensures
        match first_index(receipt.acts@.len() as int, proving_act_at(receipt.acts@, *settlement)) {
            Some(k) => r matches Ok(id) && id@ == receipt.acts@[k].id@,
            None => r matches Err(e) && e@ == (ProjectionErrorView::MissingReceiptRailProof {
                receipt_id: receipt.id@,
                proof_ref: settlement.proof_ref@,
            }),
        },
{
    let ghost p = proving_act_at(receipt.acts@, *settlement);
    let mut k: usize = 0;
    while k < receipt.acts.len()
        invariant
            k <= receipt.acts@.len(),
            p == proving_act_at(receipt.acts@, *settlement),
            first_index(k as int, p) is None,
        decreases receipt.acts.len() - k,
    {
        if act_proves(&receipt.acts[k], settlement) {
            assert(p(k as int));
            assert(first_index(k + 1, p) == Some(k as int));
            proof {
                lemma_first_index_extend(k + 1, receipt.acts@.len() as int, p);
            }
            return Ok(receipt.acts[k].id.clone());
        }
        assert(first_index(k + 1, p) is None);
        k += 1;
    }
    Err(
        PaymentLedgerProjectionError::MissingReceiptRailProof {
            receipt_id: receipt.id.clone(),
            proof_ref: settlement.proof_ref.clone(),
        },
    )
}

fn mismatch(field: &str) -> (r: Result<(), PaymentLedgerProjectionError>)
    ensures
        r matches Err(e) && e@ == (ProjectionErrorView::SupervisorProofMismatch { message: field@ }),
{
    Err(PaymentLedgerProjectionError::SupervisorProofMismatch { message: field.to_owned() })
}

/// Holds the supervisor's attestation against the reservation, the
/// settlement, the act that proves it and the receipt that carries it.
fn validate_settlement_supervisor_proof(
    reservation: &PaymentReservationEvidence,
    receipt: &LedgerReceipt,
    settlement: &PaymentRailSettlementEvidence,
    act_id: &str,
) -> (r: Result<(), PaymentLedgerProjectionError>)
    ensures
        match settlement.supervisor_proof {
            None => r matches Err(e) && e@ == (ProjectionErrorView::MissingSupervisorProof {
                proof_ref: settlement.proof_ref@,
            }),
            Some(proof) => match supervisor_mismatch(
                proof,
                *reservation,
                *receipt,
                *settlement,
                act_id@,
            ) {
                Some(message) => r matches Err(e) && e@
                    == (ProjectionErrorView::SupervisorProofMismatch { message }),
                None => r is Ok,
            },
        },
{
    let proof = match &settlement.supervisor_proof {
        Some(p) => p,
        None => {
            return Err(
                PaymentLedgerProjectionError::MissingSupervisorProof {
                    proof_ref: settlement.proof_ref.clone(),
                },
            );
        },
    };
    if !str_eq(proof.proof_ref.as_str(), settlement.proof_ref.as_str()) {
        return mismatch("proof_ref");
    }
    if !str_eq(proof.rail.as_str(), settlement.rail.as_str()) {
        return mismatch("rail");
    }
    if !str_eq(proof.counterparty.as_str(), reservation.counterparty.as_str()) {
        return mismatch("counterparty");
    }
    if proof.amount_minor != settlement.amount_minor {
        return mismatch("amount_minor");
    }
    if !str_eq(proof.currency.as_str(), settlement.currency.as_str()) {
        return mismatch("currency");
    }
    if !str_eq(proof.idempotency_key.as_str(), settlement.idempotency_key.as_str()) {
        return mismatch("idempotency_key");
    }
    if !str_eq(proof.spend_capability_ref.as_str(), reservation.spend_capability_ref.as_str()) {
        return mismatch("spend_capability_ref");
    }
    if !str_eq(proof.act_id.as_str(), act_id) {
        return mismatch("act_id");
    }
    if !str_eq(proof.receipt_ref.as_str(), receipt.id.as_str()) {
        return mismatch("receipt_ref");
    }
    if !str_eq(proof.receipt_digest.as_str(), receipt.digest.as_str()) {
        return mismatch("receipt_digest");
    }
    Ok(())
}

/// Every paid tool result must name the settlement's proof.
fn validate_paid_tool_refs(evidence: &Vec<PaymentLedgerEvidence>, proof_ref: &str) -> (r: Result<
    (),
    PaymentLedgerProjectionError,
>)
    ensures
        match first_index(evidence@.len() as int, foreign_paid_tool_at(evidence@, proof_ref@)) {
            Some(t) => r matches Err(e) && e@ == (ProjectionErrorView::PaidToolProofMismatch {
                proof_ref: evidence@[t].packet->PaidTool_0.payment_proof_ref@,
            }),
            None => r is Ok,
        },
{
    let ghost p = foreign_paid_tool_at(evidence@, proof_ref@);
    let mut i: usize = 0;
    while i < evidence.len()
        invariant
            i <= evidence@.len(),
            p == foreign_paid_tool_at(evidence@, proof_ref@),
            first_index(i as int, p) is None,
        decreases evidence.len() - i,
    {
        if let PaymentLedgerEvidencePacket::PaidTool(paid_tool) = &evidence[i].packet {
            if !str_eq(paid_tool.payment_proof_ref.as_str(), proof_ref) {
                assert(p(i as int));
                assert(first_index(i + 1, p) == Some(i as int));
                proof {
                    lemma_first_index_extend(i + 1, evidence@.len() as int, p);
                }
                return Err(
                    PaymentLedgerProjectionError::PaidToolProofMismatch {
                        proof_ref: paid_tool.payment_proof_ref.clone(),
                    },
                );
            }
        }
        assert(!p(i as int));
        assert(first_index(i + 1, p) is None);
        i += 1;
    }
    Ok(())
}

fn push_unique(refs: &mut Vec<String>, reference: String)
    ensures
        text_views(final(refs)@) == (if text_views(old(refs)@).contains(reference@) {
            text_views(old(refs)@)
        } else {
            text_views(old(refs)@).push(reference@)
        }),
{
    if !strings_contain(refs, reference.as_str()) {
        let ghost before = text_views(refs@);
        refs.push(reference);
        assert(text_views(refs@) =~= before.push(reference@));
    }
}

proof fn lemma_dedup_push(s: Seq<Seq<char>>, x: Seq<char>)
    ensures
        dedup(s.push(x)) == (if dedup(s).contains(x) {
            dedup(s)
        } else {
            dedup(s).push(x)
        }),
{
    assert(s.push(x).drop_last() =~= s);
}

/// The evidence references, each once: the subject and receipt of every
/// settlement and refusal, then the spend capability of every reservation.
fn evidence_refs(evidence: &Vec<PaymentLedgerEvidence>) -> (r: Vec<String>)
    ensures
        text_views(r@) == evidence_refs_spec(evidence@),
{
    let ghost ev = evidence@;
    let mut refs: Vec<String> = Vec::new();
    assert(text_views(refs@) =~= dedup(disposition_refs(ev, 0)));
    let mut i: usize = 0;
    while i < evidence.len()
        invariant
            i <= ev.len(),
            ev == evidence@,
            text_views(refs@) == dedup(disposition_refs(ev, i as int)),
        decreases evidence.len() - i,
    {
        let e = &evidence[i];
        let ghost before = disposition_refs(ev, i as int);
        let disposition = match &e.packet {
            PaymentLedgerEvidencePacket::RailSettlement(_) => true,
            PaymentLedgerEvidencePacket::Refusal(_) => true,
            _ => false,
        };
        if disposition {
            let subject = e.receipt.subject_uri.clone();
            let receipt = receipt_ref(&e.receipt);
            push_unique(&mut refs, subject);
            proof {
                lemma_dedup_push(before, e.receipt.subject_uri@);
            }
            push_unique(&mut refs, receipt);
            proof {
                lemma_dedup_push(before.push(e.receipt.subject_uri@), receipt_ref_spec(e.receipt.id@));
                assert(disposition_refs(ev, i + 1) =~= before.push(e.receipt.subject_uri@).push(
                    receipt_ref_spec(e.receipt.id@),
                ));
            }
        } else {
            assert(disposition_refs(ev, i + 1) =~= before);
        }
        i += 1;
    }
    let ghost head = disposition_refs(ev, ev.len() as int);
    assert(head + reservation_refs(ev, 0) =~= head);
    let mut j: usize = 0;
    while j < evidence.len()
        invariant
            j <= ev.len(),
            ev == evidence@,
            head == disposition_refs(ev, ev.len() as int),
            text_views(refs@) == dedup(head + reservation_refs(ev, j as int)),
        decreases evidence.len() - j,
    {
        let ghost before = head + reservation_refs(ev, j as int);
        if let PaymentLedgerEvidencePacket::Reservation(reservation) = &evidence[j].packet {
            push_unique(&mut refs, reservation.spend_capability_ref.clone());
            proof {
                lemma_dedup_push(before, reservation.spend_capability_ref@);
                assert(head + reservation_refs(ev, j + 1) =~= before.push(
                    reservation.spend_capability_ref@,
                ));
            }
        } else {
            assert(head + reservation_refs(ev, j + 1) =~= before);
        }
        j += 1;
    }
    refs
}

fn refused_accrual(reservation: &PaymentReservationEvidence) -> (a: PaymentLedgerAccrual)
    ensures
        a@ == refused_accrual_spec(*reservation),
{
    let a = PaymentLedgerAccrual {
        amount_minor: 0,
        currency: reservation.currency.clone(),
        rail: reservation.rail.clone(),
        counterparty: reservation.counterparty.clone(),
        operation: reservation.operation.clone(),
        idempotency_key: reservation.idempotency_key.clone(),
        rail_proof_refs: Vec::new(),
    };
    assert(a@.rail_proof_refs =~= Seq::<Seq<char>>::empty());
    a
}

fn projection(
    input: &PaymentLedgerProjectionInput,
    disposition: PaymentLedgerDisposition,
    accrual: PaymentLedgerAccrual,
    refusal: Option<PaymentLedgerRefusal>,
) -> (p: PaymentLedgerProjection)
    ensures
        p@ == projection_with(
            *input,
            disposition,
            accrual@,
            match refusal {
                Some(r) => Some(r@),
                None => None,
            },
        ),
{
    PaymentLedgerProjection {
        schema_version: PAYMENT_LEDGER_PROJECTION_SCHEMA_VERSION.to_owned(),
        payment_profile: X402_PAY_PAYMENT_PROFILE.to_owned(),
        scenario_id: input.scenario_id.clone(),
        source_receipt_id: receipt_ref(&input.graph_receipt),
        disposition,
        accrual,
        refusal,
        evidence_refs: evidence_refs(&input.evidence),
    }
}

fn settle(
    input: &PaymentLedgerProjectionInput,
    reservation: &PaymentReservationEvidence,
    carrier: &LedgerReceipt,
    settlement: &PaymentRailSettlementEvidence,
) -> (r: Result<PaymentLedgerProjection, PaymentLedgerProjectionError>)
    ensures
        match (r, settled_spec(*input, *reservation, *carrier, *settlement)) {
            (Ok(p), Ok(v)) => p@ == v,
            (Err(e), Err(v)) => e@ == v,
            _ => false,
        },
{
    if let Err(e) = validate_settlement_matches_reservation(reservation, settlement) {
        return Err(e);
    }
    let act_id = match validate_receipt_rail_proof(carrier, settlement) {
        Ok(id) => id,
        Err(e) => return Err(e),
    };
    proof {
        lemma_first_index_bounds(
            carrier.acts@.len() as int,
            proving_act_at(carrier.acts@, *settlement),
        );
    }
    if let Err(e) = validate_settlement_supervisor_proof(
        reservation,
        carrier,
        settlement,
        act_id.as_str(),
    ) {
        return Err(e);
    }
    if let Err(e) = validate_paid_tool_refs(&input.evidence, settlement.proof_ref.as_str()) {
        return Err(e);
    }
    let mut proof_refs: Vec<String> = Vec::new();
    proof_refs.push(settlement.proof_ref.clone());
    let accrual = PaymentLedgerAccrual {
        amount_minor: settlement.amount_minor,
        currency: settlement.currency.clone(),
        rail: settlement.rail.clone(),
        counterparty: reservation.counterparty.clone(),
        operation: reservation.operation.clone(),
        idempotency_key: settlement.idempotency_key.clone(),
        rail_proof_refs: proof_refs,
    };
    assert(accrual@ =~= settled_accrual_spec(*reservation, *settlement)) by {
        assert(text_views(accrual.rail_proof_refs@) =~= seq![settlement.proof_ref@]);
    }
    Ok(projection(input, PaymentLedgerDisposition::Settled, accrual, None))
}

/// The ledger entry of a graph run's payment evidence, or the first rule it
/// breaks (see `projection_spec`).
pub fn build_payment_ledger_projection(input: PaymentLedgerProjectionInput) -> (r: Result<
    PaymentLedgerProjection,
    PaymentLedgerProjectionError,
>)
    ensures
        match (r, projection_spec(input)) {
            (Ok(p), Ok(v)) => p@ == v,
            (Err(e), Err(v)) => e@ == v,
            _ => false,
        },
{
    let ghost ev = input.evidence@;
    if let Err(e) = validate_child_receipts(&input.graph_receipt, &input.evidence) {
        return Err(e);
    }
    let ri = match first_of_kind(&input.evidence, 0) {
        Some(i) => i,
        None => return Err(PaymentLedgerProjectionError::MissingReservation),
    };
    proof {
        lemma_first_index_bounds(ev.len() as int, reservation_at(ev));
    }
    let reservation = match &input.evidence[ri].packet {
        PaymentLedgerEvidencePacket::Reservation(r) => r,
        _ => {
            assert(false);
            return Err(PaymentLedgerProjectionError::MissingReservation);
        },
    };
    match first_of_kind(&input.evidence, 1) {
        Some(fi) => {
            proof {
                lemma_first_index_bounds(ev.len() as int, refusal_at(ev));
            }
            let refusal = match &input.evidence[fi].packet {
                PaymentLedgerEvidencePacket::Refusal(f) => f,
                _ => {
                    assert(false);
                    return Err(PaymentLedgerProjectionError::MissingReservation);
                },
            };
            let accrual = refused_accrual(reservation);
            let entry = PaymentLedgerRefusal {
                reason_code: refusal.reason_code.clone(),
                refused_stage: refusal.refused_stage.clone(),
                rail_call_performed: refusal.rail_call_performed,
                ledger_spend_recorded: refusal.ledger_spend_recorded,
            };
            Ok(projection(&input, PaymentLedgerDisposition::Refused, accrual, Some(entry)))
        },
        None => match first_of_kind(&input.evidence, 2) {
            None => Err(PaymentLedgerProjectionError::MissingDispositionEvidence),
            Some(si) => {
                proof {
                    lemma_first_index_bounds(ev.len() as int, settlement_at(ev));
                }
                let e = &input.evidence[si];
                match &e.packet {
                    PaymentLedgerEvidencePacket::RailSettlement(settlement) => {
                        settle(&input, reservation, &e.receipt, settlement)
                    },
                    _ => {
                        assert(false);
                        Err(PaymentLedgerProjectionError::MissingDispositionEvidence)
                    },
                }
            },
        },
    }
}

// ---------------------------------------------------------------------------
// The projection artifact
// ---------------------------------------------------------------------------

/// The event that records a projection in a run's ledger.
#[derive(Clone, Debug, PartialEq, Eq)]
pub struct PaymentLedgerProjectedEventPayload {
    pub kind: String,
    pub payment_profile: String,
    pub projection_artifact_id: String,
    pub projection_artifact_path: String,
    pub source_receipt_id: String,
    pub scenario_id: String,
    pub disposition: PaymentLedgerDisposition,
}

/// Where a projection is stored, and the event that records it.
#[derive(Clone, Debug, PartialEq, Eq)]
pub struct PaymentLedgerProjectionArtifact {
    pub artifact_id: String,
    pub artifact_type: String,
    pub path: String,
    pub event_payload: PaymentLedgerProjectedEventPayload,
}

/// A projection written and recorded in its run's ledger file.
#[derive(Clone, Debug, PartialEq, Eq)]
pub struct PaymentLedgerRuntimeEvent {
    pub ledger_path: String,
    pub artifact: PaymentLedgerProjectionArtifact,
}

/// The characters a receipt id may hold where it names a file: ASCII
/// letters and digits, `_`, `-`, and the `:` of content-addressed ids.
pub open spec fn stem_char(c: char) -> bool {
    is_ascii_alnum(c) || c == '_' || c == '-' || c == ':'
}

/// The file stem of a projection's source receipt: a `runx:receipt:`
/// reference whose id is non-empty and holds no path separator.
pub open spec fn source_receipt_stem(source_receipt_id: Seq<char>) -> Option<Seq<char>> {
    match strip_prefix(source_receipt_id, RECEIPT_REF_PREFIX@) {
        Some(rest) => if rest.len() > 0 && forall|i: int| 0 <= i < rest.len() ==> stem_char(#[trigger] rest[i]) {
            Some(rest)
        } else {
            None
        },
        None => None,
    }
}

/// The file stem of a projection's source receipt.
pub fn source_receipt_file_stem(source_receipt_id: &str) -> (r: Result<
    String,
    PaymentLedgerProjectionError,
>)
    ensures
        match source_receipt_stem(source_receipt_id@) {
            Some(stem) => r matches Ok(x) && x@ == stem,
            None => r matches Err(PaymentLedgerProjectionError::InvalidSourceReceiptId {
                source_receipt_id: id,
            }) && id@ == source_receipt_id@,
        },
{
    let chars = chars_of(source_receipt_id);
    let prefix = chars_of(RECEIPT_REF_PREFIX);
    let rest = match strip_prefix_chars(&chars, &prefix) {
        Some(rest) => rest,
        None => {
            return Err(
                PaymentLedgerProjectionError::InvalidSourceReceiptId {
                    source_receipt_id: source_receipt_id.to_owned(),
                },
            );
        },
    };
    let mut ok = rest.len() > 0;
    let mut i: usize = 0;
    while i < rest.len()
        invariant
            i <= rest@.len(),
            ok == (rest@.len() > 0 && forall|j: int| 0 <= j < i ==> stem_char(#[trigger] rest@[j])),
        decreases rest.len() - i,
    {
        let c = rest[i];
        if !(ascii_alnum(c) || c == '_' || c == '-' || c == ':') {
            ok = false;
        }
        proof {
            if ok {
                assert forall|j: int| 0 <= j < i + 1 implies stem_char(#[trigger] rest@[j]) by {
                    if j == i {
                        assert(rest@[j] == c);
                    }
                }
            } else if rest@.len() > 0 && forall|j: int| 0 <= j < i ==> stem_char(#[trigger] rest@[j]) {
                assert(!stem_char(rest@[i as int]));
            }
        }
        i += 1;
    }
    if ok {
        Ok(string_of(&rest))
    } else {
        Err(
            PaymentLedgerProjectionError::InvalidSourceReceiptId {
                source_receipt_id: source_receipt_id.to_owned(),
            },
        )
    }
}

/// `<receipt dir>/artifacts/payment-ledger/<profile>`.
pub open spec fn artifact_dir_spec(receipt_dir: Seq<char>, profile: Seq<char>) -> Seq<char> {
    path_join(path_join(path_join(receipt_dir, "artifacts"@), "payment-ledger"@), profile)
}

/// The directory that holds a payment profile's projection artifacts.
pub fn payment_ledger_artifact_dir(receipt_dir: &str, payment_profile: &str) -> (r: String)
    ensures
        r@ == artifact_dir_spec(receipt_dir@, payment_profile@),
{
    let a = join_path(receipt_dir, "artifacts");
    let b = join_path(a.as_str(), "payment-ledger");
    join_path(b.as_str(), payment_profile)
}

/// Where a projection is stored and the event that records it; the source
/// receipt must be a `runx:receipt:` reference that can name a file.
pub fn payment_ledger_projection_artifact(
    receipt_dir: &str,
    projection: &PaymentLedgerProjection,
) -> (r: Result<PaymentLedgerProjectionArtifact, PaymentLedgerProjectionError>)
    ensures
        match source_receipt_stem(projection.source_receipt_id@) {
            None => r matches Err(PaymentLedgerProjectionError::InvalidSourceReceiptId {
                source_receipt_id: id,
            }) && id@ == projection.source_receipt_id@,
            Some(stem) => r matches Ok(a) && {
                let artifact_id = projection.payment_profile@ + ":"@ + projection.source_receipt_id@;
                let path = path_join(
                    artifact_dir_spec(receipt_dir@, projection.payment_profile@),
                    stem + ".json"@,
                );
                &&& a.artifact_id@ == artifact_id
                &&& a.artifact_type@ == PAYMENT_LEDGER_PROJECTION_SCHEMA_VERSION@
                &&& a.path@ == path
                &&& a.event_payload.kind@ == PAYMENT_LEDGER_PROJECTED_EVENT_KIND@
                &&& a.event_payload.payment_profile@ == projection.payment_profile@
                &&& a.event_payload.projection_artifact_id@ == artifact_id
                &&& a.event_payload.projection_artifact_path@ == path
                &&& a.event_payload.source_receipt_id@ == projection.source_receipt_id@
                &&& a.event_payload.scenario_id@ == projection.scenario_id@
                &&& a.event_payload.disposition == projection.disposition
            },
        },
{
    let stem = match source_receipt_file_stem(projection.source_receipt_id.as_str()) {
        Ok(stem) => stem,
        Err(e) => return Err(e),
    };
    let artifact_id = concat3(
        projection.payment_profile.as_str(),
        ":",
        projection.source_receipt_id.as_str(),
    );
    let dir = payment_ledger_artifact_dir(receipt_dir, projection.payment_profile.as_str());
    let file = concat(stem.as_str(), ".json");
    let path = join_path(dir.as_str(), file.as_str());
    Ok(
        PaymentLedgerProjectionArtifact {
            artifact_id: artifact_id.clone(),
            artifact_type: PAYMENT_LEDGER_PROJECTION_SCHEMA_VERSION.to_owned(),
            path: path.clone(),
            event_payload: PaymentLedgerProjectedEventPayload {
                kind: PAYMENT_LEDGER_PROJECTED_EVENT_KIND.to_owned(),
                payment_profile: projection.payment_profile.clone(),
                projection_artifact_id: artifact_id,
                projection_artifact_path: path,
                source_receipt_id: projection.source_receipt_id.clone(),
                scenario_id: projection.scenario_id.clone(),
                disposition: projection.disposition,
            },
        },
    )
}

/// Whether a projection's bytes must be written where a file may already
/// hold some: identical bytes are kept, other bytes are a conflict.
pub fn artifact_write_needed(existing: Option<&Vec<u8>>, contents: &Vec<u8>, path: &str) -> (r:
    Result<bool, PaymentLedgerProjectionError>)
    ensures
        match existing {
            None => r == Ok::<bool, PaymentLedgerProjectionError>(true),
            Some(bytes) => if bytes@ == contents@ {
                r == Ok::<bool, PaymentLedgerProjectionError>(false)
            } else {
                r matches Err(PaymentLedgerProjectionError::ArtifactConflict { path: p }) && p@
                    == path@
            },
        },
{
    match existing {
        None => Ok(true),
        Some(bytes) => if bytes_equal(bytes, contents) {
            Ok(false)
        } else {
            Err(PaymentLedgerProjectionError::ArtifactConflict { path: path.to_owned() })
        },
    }
}

// ---------------------------------------------------------------------------
// The run ledger
// ---------------------------------------------------------------------------

/// A run id names a ledger file only where it is non-empty and made of
/// ASCII letters, digits, `_` and `-`.
pub open spec fn ledger_id_ok(run_id: Seq<char>) -> bool {
    run_id.len() > 0 && forall|i: int|
        0 <= i < run_id.len() ==> (is_ascii_alnum(#[trigger] run_id[i]) || run_id[i] == '_'
            || run_id[i] == '-')
}

pub fn validate_run_ledger_id(run_id: &str) -> (r: Result<(), PaymentLedgerProjectionError>)
    ensures
        r is Ok <==> ledger_id_ok(run_id@),
        r matches Err(e) ==> (e matches PaymentLedgerProjectionError::InvalidRunLedgerId {
            run_id: id,
        } && id@ == run_id@),
{
    let chars = chars_of(run_id);
    let mut i: usize = 0;
    while i < chars.len()
        invariant
            i <= chars@.len(),
            chars@ == run_id@,
            forall|j: int|
                0 <= j < i ==> (is_ascii_alnum(#[trigger] chars@[j]) || chars@[j] == '_'
                    || chars@[j] == '-'),
        decreases chars.len() - i,
    {
        let c = chars[i];
        if !(ascii_alnum(c) || c == '_' || c == '-') {
            return Err(PaymentLedgerProjectionError::InvalidRunLedgerId { run_id: run_id.to_owned() });
        }
        i += 1;
    }
    if chars.len() == 0 {
        return Err(PaymentLedgerProjectionError::InvalidRunLedgerId { run_id: run_id.to_owned() });
    }
    Ok(())
}

/// `<receipt dir>/ledgers/<run id>.jsonl`.
pub open spec fn ledger_path_spec(receipt_dir: Seq<char>, run_id: Seq<char>) -> Seq<char> {
    path_join(path_join(receipt_dir, PAYMENT_LEDGER_EVENT_LEDGER_DIR@), run_id + ".jsonl"@)
}

/// The ledger file of a run.
pub fn payment_ledger_path(receipt_dir: &str, run_id: &str) -> (r: String)
    ensures
        r@ == ledger_path_spec(receipt_dir@, run_id@),
{
    let dir = join_path(receipt_dir, PAYMENT_LEDGER_EVENT_LEDGER_DIR);
    let file = concat(run_id, ".jsonl");
    join_path(dir.as_str(), file.as_str())
}

/// `value[key]` as `serde_json` reads it: a member of an object, and null
/// for anything else.
pub open spec fn json_member(value: JsonValue, key: Seq<char>) -> JsonValue {
    match value {
        JsonValue::Object(m) => match json_get(m@, key) {
            Some(v) => v,
            None => JsonValue::Null,
        },
        _ => JsonValue::Null,
    }
}

/// The text at a chain of member names, where there is one.
pub open spec fn json_text_at(value: JsonValue, path: Seq<Seq<char>>) -> Option<Seq<char>>
    decreases path.len(),
{
    if path.len() == 0 {
        match value {
            JsonValue::String(s) => Some(s@),
            _ => None,
        }
    } else {
        json_text_at(json_member(value, path[0]), path.drop_first())
    }
}

/// A ledger record is the event of a payload where it is a run event of the
/// projected kind for the same source receipt and artifact.
pub open spec fn same_ledger_event(record: JsonValue, payload: PaymentLedgerProjectedEventPayload) -> bool {
    &&& json_text_at(record, seq!["entry"@, "type"@]) == Some("run_event"@)
    &&& json_text_at(record, seq!["entry"@, "data"@, "kind"@]) == Some(
        PAYMENT_LEDGER_PROJECTED_EVENT_KIND@,
    )
    &&& json_text_at(record, seq!["entry"@, "data"@, "detail"@, "source_receipt_id"@]) == Some(
        payload.source_receipt_id@,
    )
    &&& json_text_at(record, seq!["entry"@, "data"@, "detail"@, "projection_artifact_id"@])
        == Some(payload.projection_artifact_id@)
}

fn member<'a>(value: &'a JsonValue, key: &str) -> (r: Option<&'a JsonValue>)
    ensures
        match r {
            Some(v) => json_member(*value, key@) == *v,
            None => json_member(*value, key@) == JsonValue::Null,
        },
{
    match value {
        JsonValue::Object(m) => object_get(m, key),
        _ => None,
    }
}

fn text_at2<'a>(value: &'a JsonValue, a: &str, b: &str) -> (r: Option<&'a str>)
    ensures
        match r {
            Some(t) => json_text_at(*value, seq![a@, b@]) == Some(t@),
            None => json_text_at(*value, seq![a@, b@]) is None,
        },
{
    proof {
        reveal_with_fuel(json_text_at, 3);
        assert(seq![a@, b@].drop_first() =~= seq![b@]);
        assert(seq![b@].drop_first() =~= Seq::<Seq<char>>::empty());
    }
    let x = match member(value, a) {
        Some(x) => x,
        None => return None,
    };
    let y = match member(x, b) {
        Some(y) => y,
        None => return None,
    };
    match y {
        JsonValue::String(s) => Some(s.as_str()),
        _ => None,
    }
}

fn text_at3<'a>(value: &'a JsonValue, a: &str, b: &str, c: &str) -> (r: Option<&'a str>)
    ensures
        match r {
            Some(t) => json_text_at(*value, seq![a@, b@, c@]) == Some(t@),
            None => json_text_at(*value, seq![a@, b@, c@]) is None,
        },
{
    proof {
        reveal_with_fuel(json_text_at, 4);
        assert(seq![a@, b@, c@].drop_first() =~= seq![b@, c@]);
        assert(seq![b@, c@].drop_first() =~= seq![c@]);
        assert(seq![c@].drop_first() =~= Seq::<Seq<char>>::empty());
    }
    let x = match member(value, a) {
        Some(x) => x,
        None => return None,
    };
    text_at2(x, b, c)
}

fn text_at4<'a>(value: &'a JsonValue, a: &str, b: &str, c: &str, d: &str) -> (r: Option<&'a str>)
    ensures
        match r {
            Some(t) => json_text_at(*value, seq![a@, b@, c@, d@]) == Some(t@),
            None => json_text_at(*value, seq![a@, b@, c@, d@]) is None,
        },
{
    proof {
        reveal_with_fuel(json_text_at, 5);
        assert(seq![a@, b@, c@, d@].drop_first() =~= seq![b@, c@, d@]);
        assert(seq![b@, c@, d@].drop_first() =~= seq![c@, d@]);
        assert(seq![c@, d@].drop_first() =~= seq![d@]);
        assert(seq![d@].drop_first() =~= Seq::<Seq<char>>::empty());
    }
    let x = match member(value, a) {
        Some(x) => x,
        None => return None,
    };
    text_at3(x, b, c, d)
}

fn text_is(t: Option<&str>, expected: &str) -> (b: bool)
    ensures
        b == (match t {
            Some(x) => x@ == expected@,
            None => false,
        }),
{
    match t {
        Some(x) => str_eq(x, expected),
        None => false,
    }
}

/// Whether a ledger record is the event of this payload.
pub fn is_same_payment_ledger_event(
    record: &JsonValue,
    payload: &PaymentLedgerProjectedEventPayload,
) -> (b: bool)
    ensures
        b == same_ledger_event(*record, *payload),
{
    text_is(text_at2(record, "entry", "type"), "run_event") && text_is(
        text_at3(record, "entry", "data", "kind"),
        PAYMENT_LEDGER_PROJECTED_EVENT_KIND,
    ) && text_is(
        text_at4(record, "entry", "data", "detail", "source_receipt_id"),
        payload.source_receipt_id.as_str(),
    ) && text_is(
        text_at4(record, "entry", "data", "detail", "projection_artifact_id"),
        payload.projection_artifact_id.as_str(),
    )
}


// ---------------------------------------------------------------------------
// The ledger record of a projection
// ---------------------------------------------------------------------------

/// `v` is an object whose members are named `keys`, in that order.
pub open spec fn object_named(v: JsonValue, keys: Seq<Seq<char>>) -> bool {
    v matches JsonValue::Object(m) && m@.len() == keys.len() && forall|i: int|
        0 <= i < keys.len() ==> (#[trigger] m@[i]).0@ == keys[i]
}

/// The value of the `i`-th member of an object.
pub open spec fn member_at(v: JsonValue, i: int) -> JsonValue {
    match v {
        JsonValue::Object(m) => m@[i].1,
        _ => JsonValue::Null,
    }
}

/// `v` is the string `t`.
pub open spec fn is_text(v: JsonValue, t: Seq<char>) -> bool {
    v matches JsonValue::String(s) && s@ == t
}

pub open spec fn disposition_text(d: PaymentLedgerDisposition) -> Seq<char> {
    match d {
        PaymentLedgerDisposition::Settled => "settled"@,
        PaymentLedgerDisposition::Refused => "refused"@,
    }
}

pub open spec fn detail_keys() -> Seq<Seq<char>> {
    seq![
        "kind"@,
        "payment_profile"@,
        "projection_artifact_id"@,
        "projection_artifact_path"@,
        "source_receipt_id"@,
        "scenario_id"@,
        "disposition"@,
    ]
}

/// `v` is the payload of a projection event, member by member.
pub open spec fn is_payload_detail(v: JsonValue, payload: PaymentLedgerProjectedEventPayload) -> bool {
    &&& object_named(v, detail_keys())
    &&& is_text(member_at(v, 0), payload.kind@)
    &&& is_text(member_at(v, 1), payload.payment_profile@)
    &&& is_text(member_at(v, 2), payload.projection_artifact_id@)
    &&& is_text(member_at(v, 3), payload.projection_artifact_path@)
    &&& is_text(member_at(v, 4), payload.source_receipt_id@)
    &&& is_text(member_at(v, 5), payload.scenario_id@)
    &&& is_text(member_at(v, 6), disposition_text(payload.disposition))
}

pub open spec fn meta_keys() -> Seq<Seq<char>> {
    seq![
        "artifact_id"@,
        "run_id"@,
        "step_id"@,
        "producer"@,
        "created_at"@,
        "hash"@,
        "size_bytes"@,
        "parent_artifact_id"@,
        "receipt_id"@,
        "redacted"@,
    ]
}

/// The artifact id of a projection event: named by the digest of the source
/// receipt id.
pub open spec fn projected_artifact_id(source_receipt_id: Seq<char>) -> Seq<char> {
    "ax_payment_ledger_projected_"@ + lower_hex(sha256_digest(utf8(source_receipt_id)))
}

/// `v` is the metadata of a projection event: its artifact id, run, producer,
/// time, the digest and size of the payload's bytes, and what it refers to.
pub open spec fn is_record_meta(
    v: JsonValue,
    run_id: Seq<char>,
    created_at: Seq<char>,
    payload: PaymentLedgerProjectedEventPayload,
    payload_bytes: Seq<u8>,
) -> bool {
    let producer = member_at(v, 3);
    &&& object_named(v, meta_keys())
    &&& is_text(member_at(v, 0), projected_artifact_id(payload.source_receipt_id@))
    &&& is_text(member_at(v, 1), run_id)
    &&& member_at(v, 2) is Null
    &&& object_named(producer, seq!["skill"@, "runner"@])
    &&& is_text(member_at(producer, 0), X402_PAY_PAYMENT_PROFILE@)
    &&& is_text(member_at(producer, 1), "graph"@)
    &&& is_text(member_at(v, 4), created_at)
    &&& is_text(member_at(v, 5), "sha256:"@ + lower_hex(sha256_digest(payload_bytes)))
    &&& member_at(v, 6) == JsonValue::Number(JsonNumber::U64(payload_bytes.len() as u64))
    &&& is_text(member_at(v, 7), payload.projection_artifact_id@)
    &&& is_text(member_at(v, 8), payload.source_receipt_id@)
    &&& member_at(v, 9) == JsonValue::Bool(false)
}

/// `record` is the ledger record of a projection event: a completed run
/// event of the projected kind, with the payload as its detail.
pub open spec fn is_projected_record(
    record: JsonValue,
    run_id: Seq<char>,
    created_at: Seq<char>,
    payload: PaymentLedgerProjectedEventPayload,
    payload_bytes: Seq<u8>,
) -> bool {
    let entry = member_at(record, 0);
    let data = member_at(entry, 2);
    &&& object_named(record, seq!["entry"@])
    &&& object_named(entry, seq!["type"@, "version"@, "data"@, "meta"@])
    &&& is_text(member_at(entry, 0), "run_event"@)
    &&& is_text(member_at(entry, 1), "1"@)
    &&& object_named(data, seq!["kind"@, "status"@, "step_id"@, "detail"@])
    &&& is_text(member_at(data, 0), PAYMENT_LEDGER_PROJECTED_EVENT_KIND@)
    &&& is_text(member_at(data, 1), "completed"@)
    &&& member_at(data, 2) is Null
    &&& is_payload_detail(member_at(data, 3), payload)
    &&& is_record_meta(member_at(entry, 3), run_id, created_at, payload, payload_bytes)
}

fn text_value(s: &str) -> (v: JsonValue)
    ensures
        is_text(v, s@),
{
    JsonValue::String(s.to_owned())
}

fn push_member(members: &mut Vec<(String, JsonValue)>, key: &str, value: JsonValue)
    ensures
        final(members)@.len() == old(members)@.len() + 1,
        forall|i: int| 0 <= i < old(members)@.len() ==> final(members)@[i] == old(members)@[i],
        final(members)@[old(members)@.len() as int].0@ == key@,
        final(members)@[old(members)@.len() as int].1 == value,
{
    members.push((key.to_owned(), value));
}

fn payload_detail(payload: &PaymentLedgerProjectedEventPayload) -> (v: JsonValue)
    ensures
        is_payload_detail(v, *payload),
{
    let disposition = match payload.disposition {
        PaymentLedgerDisposition::Settled => "settled",
        PaymentLedgerDisposition::Refused => "refused",
    };
    let mut m: Vec<(String, JsonValue)> = Vec::new();
    push_member(&mut m, "kind", text_value(payload.kind.as_str()));
    push_member(&mut m, "payment_profile", text_value(payload.payment_profile.as_str()));
    push_member(&mut m, "projection_artifact_id", text_value(payload.projection_artifact_id.as_str()));
    push_member(
        &mut m,
        "projection_artifact_path",
        text_value(payload.projection_artifact_path.as_str()),
    );
    push_member(&mut m, "source_receipt_id", text_value(payload.source_receipt_id.as_str()));
    push_member(&mut m, "scenario_id", text_value(payload.scenario_id.as_str()));
    push_member(&mut m, "disposition", text_value(disposition));
    proof {
        reveal_strlit("settled");
        reveal_strlit("refused");
    }
    JsonValue::Object(m)
}

fn record_meta(
    run_id: &str,
    created_at: &str,
    payload: &PaymentLedgerProjectedEventPayload,
    payload_bytes: &Vec<u8>,
) -> (v: JsonValue)
    ensures
        is_record_meta(v, run_id@, created_at@, *payload, payload_bytes@),
{
    let digest = sha256_of_str(payload.source_receipt_id.as_str());
    let digest_hex = lower_hex_prefix(&digest, 32);
    assert(digest@.take(32) =~= digest@);
    let artifact_id = concat("ax_payment_ledger_projected_", digest_hex.as_str());
    let mut producer: Vec<(String, JsonValue)> = Vec::new();
    push_member(&mut producer, "skill", text_value(X402_PAY_PAYMENT_PROFILE));
    push_member(&mut producer, "runner", text_value("graph"));
    let mut m: Vec<(String, JsonValue)> = Vec::new();
    push_member(&mut m, "artifact_id", text_value(artifact_id.as_str()));
    push_member(&mut m, "run_id", text_value(run_id));
    push_member(&mut m, "step_id", JsonValue::Null);
    push_member(&mut m, "producer", JsonValue::Object(producer));
    push_member(&mut m, "created_at", text_value(created_at));
    let hash = sha256_prefixed(payload_bytes);
    push_member(&mut m, "hash", text_value(hash.as_str()));
    push_member(
        &mut m,
        "size_bytes",
        JsonValue::Number(JsonNumber::U64(payload_bytes.len() as u64)),
    );
    push_member(&mut m, "parent_artifact_id", text_value(payload.projection_artifact_id.as_str()));
    push_member(&mut m, "receipt_id", text_value(payload.source_receipt_id.as_str()));
    push_member(&mut m, "redacted", JsonValue::Bool(false));
    JsonValue::Object(m)
}

/// The record that a run's ledger keeps of a projection event; the payload's
/// bytes are the JSON text the payload was written as.
pub fn payment_ledger_projected_record(
    run_id: &str,
    created_at: &str,
    payload: &PaymentLedgerProjectedEventPayload,
    payload_bytes: &Vec<u8>,
) -> (r: JsonValue)
    ensures
        is_projected_record(r, run_id@, created_at@, *payload, payload_bytes@),
{
    let mut data: Vec<(String, JsonValue)> = Vec::new();
    push_member(&mut data, "kind", text_value(PAYMENT_LEDGER_PROJECTED_EVENT_KIND));
    push_member(&mut data, "status", text_value("completed"));
    push_member(&mut data, "step_id", JsonValue::Null);
    push_member(&mut data, "detail", payload_detail(payload));
    let mut entry: Vec<(String, JsonValue)> = Vec::new();
    push_member(&mut entry, "type", text_value("run_event"));
    push_member(&mut entry, "version", text_value("1"));
    push_member(&mut entry, "data", JsonValue::Object(data));
    push_member(&mut entry, "meta", record_meta(run_id, created_at, payload, payload_bytes));
    let mut record: Vec<(String, JsonValue)> = Vec::new();
    push_member(&mut record, "entry", JsonValue::Object(entry));
    JsonValue::Object(record)
}

/// The first record of `existing` that is the event of `payload`.
pub open spec fn first_same_event(existing: Seq<JsonValue>, payload: PaymentLedgerProjectedEventPayload) -> Option<int> {
    first_index(existing.len() as int, |i: int| same_ledger_event(existing[i], payload))
}

/// What appending `record` to a ledger of `existing` records calls for:
/// `Some(true)` to write it, `Some(false)` where the first record of the
/// same event is this very record, `None` where it is another one.
pub open spec fn ledger_append_decision(
    existing: Seq<JsonValue>,
    record: JsonValue,
    payload: PaymentLedgerProjectedEventPayload,
) -> Option<bool> {
    match first_same_event(existing, payload) {
        None => Some(true),
        Some(i) => if json_eq(existing[i], record) {
            Some(false)
        } else {
            None
        },
    }
}

/// Whether a projection event must be appended to a run's ledger that holds
/// `existing` records: not where the first record of the same event is this
/// very record; a different record of the same event is a conflict.
pub fn ledger_append_needed(
    existing: &Vec<JsonValue>,
    record: &JsonValue,
    payload: &PaymentLedgerProjectedEventPayload,
    ledger_path: &str,
) -> (r: Result<bool, PaymentLedgerProjectionError>)
    ensures
        match ledger_append_decision(existing@, *record, *payload) {
            Some(needed) => r == Ok::<bool, PaymentLedgerProjectionError>(needed),
            None => r matches Err(PaymentLedgerProjectionError::LedgerEventConflict { path })
                && path@ == ledger_path@,
        },
{
    let ghost p = |i: int| same_ledger_event(existing@[i], *payload);
    let mut i: usize = 0;
    while i < existing.len()
        invariant
            i <= existing@.len(),
            p == (|i: int| same_ledger_event(existing@[i], *payload)),
            first_index(i as int, p) is None,
        decreases existing.len() - i,
    {
        proof {
            lemma_first_index_bounds(i as int, p);
        }
        if is_same_payment_ledger_event(&existing[i], payload) {
            proof {
                assert(first_index(i + 1, p) == Some(i as int));
                lemma_first_index_extend(i + 1, existing@.len() as int, p);
            }
            if json_equal(&existing[i], record) {
                return Ok(false);
            }
            return Err(PaymentLedgerProjectionError::LedgerEventConflict { path: ledger_path.to_owned() });
        }
        assert(first_index(i + 1, p) is None);
        i += 1;
    }
    Ok(true)
}


/// No two of `keys` are the same.
pub open spec fn distinct_texts(keys: Seq<Seq<char>>) -> bool {
    forall|i: int, j: int|
        0 <= i < keys.len() && 0 <= j < keys.len() && i != j ==> #[trigger] keys[i] != #[trigger] keys[j]
}

proof fn lemma_json_get_index(m: Seq<(String, JsonValue)>, k: Seq<char>, i: int)
    requires
        0 <= i < m.len(),
        m[i].0@ == k,
        forall|j: int| 0 <= j < i ==> (#[trigger] m[j]).0@ != k,
    ensures
        json_get(m, k) == Some(m[i].1),
    decreases i,
{
    if i > 0 {
        assert(m[0].0@ != k);
        let rest = m.drop_first();
        assert forall|j: int| 0 <= j < i - 1 implies (#[trigger] rest[j]).0@ != k by {
            assert(rest[j] == m[j + 1]);
        }
        lemma_json_get_index(rest, k, i - 1);
    }
}

/// In an object with distinct member names, each name finds its member.
proof fn lemma_json_get_named(v: JsonValue, keys: Seq<Seq<char>>, i: int)
    requires
        object_named(v, keys),
        distinct_texts(keys),
        0 <= i < keys.len(),
    ensures
        json_get(v->Object_0@, keys[i]) == Some(member_at(v, i)),
        json_member(v, keys[i]) == member_at(v, i),
{
    let m = v->Object_0@;
    assert(m[i].0@ == keys[i]);
    assert forall|j: int| 0 <= j < i implies (#[trigger] m[j]).0@ != keys[i] by {
        assert(m[j].0@ == keys[j]);
    }
    lemma_json_get_index(m, keys[i], i);
}

proof fn lemma_entry_keys_distinct()
    ensures
        distinct_texts(seq!["entry"@]),
        distinct_texts(seq!["type"@, "version"@, "data"@, "meta"@]),
        distinct_texts(seq!["skill"@, "runner"@]),
{
    reveal_strlit("type");
    reveal_strlit("version");
    reveal_strlit("data");
    reveal_strlit("meta");
    reveal_strlit("skill");
    reveal_strlit("runner");
    assert("type"@[0] == 't' && "data"@[0] == 'd' && "meta"@[0] == 'm');
    assert("skill"@.len() == 5 && "runner"@.len() == 6);
}

proof fn lemma_data_keys_distinct()
    ensures
        distinct_texts(seq!["kind"@, "status"@, "step_id"@, "detail"@]),
{
    reveal_strlit("kind");
    reveal_strlit("status");
    reveal_strlit("step_id");
    reveal_strlit("detail");
    let ks = seq!["kind"@, "status"@, "step_id"@, "detail"@];
    assert(ks[0].len() == 4 && ks[1].len() == 6 && ks[2].len() == 7 && ks[3].len() == 6);
    assert(ks[1][0] == 's' && ks[3][0] == 'd');
}

proof fn lemma_detail_keys_distinct()
    ensures
        distinct_texts(detail_keys()),
{
    reveal_strlit("kind");
    reveal_strlit("payment_profile");
    reveal_strlit("projection_artifact_id");
    reveal_strlit("projection_artifact_path");
    reveal_strlit("source_receipt_id");
    reveal_strlit("scenario_id");
    reveal_strlit("disposition");
    let ks = detail_keys();
    assert(ks[0].len() == 4 && ks[1].len() == 15 && ks[2].len() == 22 && ks[3].len() == 24);
    assert(ks[4].len() == 17 && ks[5].len() == 11 && ks[6].len() == 11);
    assert(ks[5][0] == 's' && ks[6][0] == 'd');
}

proof fn lemma_meta_keys_distinct()
    ensures
        distinct_texts(meta_keys()),
{
    reveal_strlit("artifact_id");
    reveal_strlit("run_id");
    reveal_strlit("step_id");
    reveal_strlit("producer");
    reveal_strlit("created_at");
    reveal_strlit("hash");
    reveal_strlit("size_bytes");
    reveal_strlit("parent_artifact_id");
    reveal_strlit("receipt_id");
    reveal_strlit("redacted");
    let ks = meta_keys();
    assert(ks[0].len() == 11 && ks[1].len() == 6 && ks[2].len() == 7 && ks[3].len() == 8);
    assert(ks[4].len() == 10 && ks[5].len() == 4 && ks[6].len() == 10 && ks[7].len() == 18);
    assert(ks[8].len() == 10 && ks[9].len() == 8);
    assert(ks[4][0] == 'c' && ks[6][0] == 's' && ks[8][0] == 'r');
    assert(ks[3][0] == 'p' && ks[9][0] == 'r');
}

proof fn lemma_record_keys_distinct()
    ensures
        distinct_texts(seq!["entry"@]),
        distinct_texts(seq!["type"@, "version"@, "data"@, "meta"@]),
        distinct_texts(seq!["kind"@, "status"@, "step_id"@, "detail"@]),
        distinct_texts(detail_keys()),
        distinct_texts(meta_keys()),
        distinct_texts(seq!["skill"@, "runner"@]),
{
    lemma_entry_keys_distinct();
    lemma_data_keys_distinct();
    lemma_detail_keys_distinct();
    lemma_meta_keys_distinct();
}

/// The record of a projection event is found again as that event: a ledger
/// read back recognizes what was appended.
pub proof fn lemma_projected_record_is_same_event(
    record: JsonValue,
    run_id: Seq<char>,
    created_at: Seq<char>,
    payload: PaymentLedgerProjectedEventPayload,
    payload_bytes: Seq<u8>,
)
    requires
        is_projected_record(record, run_id, created_at, payload, payload_bytes),
    ensures
        same_ledger_event(record, payload),
{
    lemma_record_keys_distinct();
    let entry = member_at(record, 0);
    let data = member_at(entry, 2);
    let detail = member_at(data, 3);
    lemma_json_get_named(record, seq!["entry"@], 0);
    lemma_json_get_named(entry, seq!["type"@, "version"@, "data"@, "meta"@], 0);
    lemma_json_get_named(entry, seq!["type"@, "version"@, "data"@, "meta"@], 2);
    lemma_json_get_named(data, seq!["kind"@, "status"@, "step_id"@, "detail"@], 0);
    lemma_json_get_named(data, seq!["kind"@, "status"@, "step_id"@, "detail"@], 3);
    lemma_json_get_named(detail, detail_keys(), 2);
    lemma_json_get_named(detail, detail_keys(), 4);
    reveal_with_fuel(json_text_at, 5);
    assert(seq!["entry"@, "type"@].drop_first() =~= seq!["type"@]);
    assert(seq!["type"@].drop_first() =~= Seq::<Seq<char>>::empty());
    assert(seq!["entry"@, "data"@, "kind"@].drop_first() =~= seq!["data"@, "kind"@]);
    assert(seq!["data"@, "kind"@].drop_first() =~= seq!["kind"@]);
    assert(seq!["kind"@].drop_first() =~= Seq::<Seq<char>>::empty());
    assert(seq!["entry"@, "data"@, "detail"@, "source_receipt_id"@].drop_first() =~= seq![
        "data"@,
        "detail"@,
        "source_receipt_id"@,
    ]);
    assert(seq!["data"@, "detail"@, "source_receipt_id"@].drop_first() =~= seq![
        "detail"@,
        "source_receipt_id"@,
    ]);
    assert(seq!["detail"@, "source_receipt_id"@].drop_first() =~= seq!["source_receipt_id"@]);
    assert(seq!["source_receipt_id"@].drop_first() =~= Seq::<Seq<char>>::empty());
    assert(seq!["entry"@, "data"@, "detail"@, "projection_artifact_id"@].drop_first() =~= seq![
        "data"@,
        "detail"@,
        "projection_artifact_id"@,
    ]);
    assert(seq!["data"@, "detail"@, "projection_artifact_id"@].drop_first() =~= seq![
        "detail"@,
        "projection_artifact_id"@,
    ]);
    assert(seq!["detail"@, "projection_artifact_id"@].drop_first() =~= seq![
        "projection_artifact_id"@,
    ]);
    assert(seq!["projection_artifact_id"@].drop_first() =~= Seq::<Seq<char>>::empty());
}


/// An object with distinct member names whose members are plain is plain.
proof fn lemma_named_object_plain(v: JsonValue, keys: Seq<Seq<char>>)
    requires
        object_named(v, keys),
        distinct_texts(keys),
        forall|i: int| 0 <= i < keys.len() ==> plain_json(#[trigger] member_at(v, i)),
    ensures
        plain_json(v),
{
    let m = v->Object_0@;
    assert forall|i: int, j: int|
        0 <= i < m.len() && 0 <= j < m.len() && i != j implies (#[trigger] m[i]).0@
            != (#[trigger] m[j]).0@ by {
        assert(m[i].0@ == keys[i]);
        assert(m[j].0@ == keys[j]);
    }
    assert forall|i: int| 0 <= i < m.len() implies plain_json((#[trigger] m[i]).1) by {
        assert(member_at(v, i) == m[i].1);
    }
}

proof fn lemma_projected_record_plain(
    record: JsonValue,
    run_id: Seq<char>,
    created_at: Seq<char>,
    payload: PaymentLedgerProjectedEventPayload,
    payload_bytes: Seq<u8>,
)
    requires
        is_projected_record(record, run_id, created_at, payload, payload_bytes),
    ensures
        plain_json(record),
{
    lemma_record_keys_distinct();
    let entry = member_at(record, 0);
    let data = member_at(entry, 2);
    let detail = member_at(data, 3);
    let meta = member_at(entry, 3);
    let producer = member_at(meta, 3);
    lemma_named_object_plain(detail, detail_keys());
    lemma_named_object_plain(data, seq!["kind"@, "status"@, "step_id"@, "detail"@]);
    lemma_named_object_plain(producer, seq!["skill"@, "runner"@]);
    lemma_named_object_plain(meta, meta_keys());
    lemma_named_object_plain(entry, seq!["type"@, "version"@, "data"@, "meta"@]);
    lemma_named_object_plain(record, seq!["entry"@]);
}

/// Appending a projection event to a run's ledger is idempotent: a ledger
/// that does not hold the event has it written, and once it is written,
/// appending it again writes nothing and is no conflict.
pub proof fn lemma_projected_append_is_idempotent(
    existing: Seq<JsonValue>,
    record: JsonValue,
    run_id: Seq<char>,
    created_at: Seq<char>,
    payload: PaymentLedgerProjectedEventPayload,
    payload_bytes: Seq<u8>,
)
    requires
        is_projected_record(record, run_id, created_at, payload, payload_bytes),
        first_same_event(existing, payload) is None,
    ensures
        ledger_append_decision(existing, record, payload) == Some(true),
        ledger_append_decision(existing.push(record), record, payload) == Some(false),
{
    let after = existing.push(record);
    let p = |i: int| same_ledger_event(existing[i], payload);
    let q = |i: int| same_ledger_event(after[i], payload);
    lemma_first_index_bounds(existing.len() as int, p);
    lemma_first_index_bounds(existing.len() as int, q);
    if let Some(i) = first_index(existing.len() as int, q) {
        assert(after[i] == existing[i]);
        assert(p(i));
    }
    lemma_projected_record_is_same_event(record, run_id, created_at, payload, payload_bytes);
    assert(q(existing.len() as int));
    assert(first_same_event(after, payload) == Some(existing.len() as int));
    lemma_projected_record_plain(record, run_id, created_at, payload, payload_bytes);
    lemma_json_eq_reflexive(record);
}

/// Appending an event again with another time is a conflict: once a
/// projection event is in a run's ledger, the record of the same event made
/// at another `created_at` is refused rather than written.
pub proof fn lemma_projected_append_other_time_conflicts(
    existing: Seq<JsonValue>,
    record: JsonValue,
    later: JsonValue,
    run_id: Seq<char>,
    created_at: Seq<char>,
    later_created_at: Seq<char>,
    payload: PaymentLedgerProjectedEventPayload,
    payload_bytes: Seq<u8>,
    later_payload_bytes: Seq<u8>,
)
    requires
        is_projected_record(record, run_id, created_at, payload, payload_bytes),
        is_projected_record(later, run_id, later_created_at, payload, later_payload_bytes),
        created_at != later_created_at,
        first_same_event(existing, payload) is None,
    ensures
        ledger_append_decision(existing.push(record), later, payload) is None,
{
    let after = existing.push(record);
    let p = |i: int| same_ledger_event(existing[i], payload);
    let q = |i: int| same_ledger_event(after[i], payload);
    lemma_first_index_bounds(existing.len() as int, p);
    lemma_first_index_bounds(existing.len() as int, q);
    if let Some(i) = first_index(existing.len() as int, q) {
        assert(after[i] == existing[i]);
        assert(p(i));
    }
    lemma_projected_record_is_same_event(record, run_id, created_at, payload, payload_bytes);
    assert(q(existing.len() as int));
    assert(first_same_event(after, payload) == Some(existing.len() as int));
    assert(after[existing.len() as int] == record);
    lemma_projected_records_of_other_times_differ(
        record,
        later,
        run_id,
        run_id,
        created_at,
        later_created_at,
        payload,
        payload_bytes,
        later_payload_bytes,
    );
}

/// Two projection records of one event made at different times are not the
/// same document.
pub proof fn lemma_projected_records_of_other_times_differ(
    record: JsonValue,
    later: JsonValue,
    run_id: Seq<char>,
    later_run_id: Seq<char>,
    created_at: Seq<char>,
    later_created_at: Seq<char>,
    payload: PaymentLedgerProjectedEventPayload,
    payload_bytes: Seq<u8>,
    later_payload_bytes: Seq<u8>,
)
    requires
        is_projected_record(record, run_id, created_at, payload, payload_bytes),
        is_projected_record(later, later_run_id, later_created_at, payload, later_payload_bytes),
        created_at != later_created_at,
    ensures
        !json_eq(record, later),
{
    lemma_record_keys_distinct();
    let entry = member_at(record, 0);
    let later_entry = member_at(later, 0);
    let meta = member_at(entry, 3);
    let later_meta = member_at(later_entry, 3);
    lemma_json_get_named(later, seq!["entry"@], 0);
    lemma_json_get_named(later_entry, seq!["type"@, "version"@, "data"@, "meta"@], 3);
    lemma_json_get_named(later_meta, meta_keys(), 4);
    if json_eq(record, later) {
        let m = record->Object_0@;
        assert(m[0].0@ == "entry"@);
        assert(json_eq(entry, later_entry));
        let em = entry->Object_0@;
        assert(em[3].0@ == "meta"@);
        assert(json_eq(meta, later_meta));
        let mm = meta->Object_0@;
        assert(mm[4].0@ == meta_keys()[4]);
        assert(json_eq(member_at(meta, 4), member_at(later_meta, 4)));
        assert(false);
    }
}

/// Appending a projection event is idempotent and refuses a changed time,
/// whatever the ledger held before: where a first append went through
/// (writing the record, or finding that the ledger held it already, as a
/// record made at the same time), the same append again writes nothing and
/// is no conflict, and the event made at another time is a conflict.
pub proof fn lemma_projected_append_law(
    existing: Seq<JsonValue>,
    record: JsonValue,
    later: JsonValue,
    run_id: Seq<char>,
    created_at: Seq<char>,
    later_created_at: Seq<char>,
    payload: PaymentLedgerProjectedEventPayload,
    payload_bytes: Seq<u8>,
    later_payload_bytes: Seq<u8>,
)
    requires
        is_projected_record(record, run_id, created_at, payload, payload_bytes),
        is_projected_record(later, run_id, later_created_at, payload, later_payload_bytes),
        ledger_append_decision(existing, record, payload) is Some,
        first_same_event(existing, payload) matches Some(i) ==> is_projected_record(
            existing[i],
            run_id,
            created_at,
            payload,
            payload_bytes,
        ),
    ensures
        ({
            let after = if ledger_append_decision(existing, record, payload) == Some(true) {
                existing.push(record)
            } else {
                existing
            };
            &&& ledger_append_decision(after, record, payload) == Some(false)
            &&& created_at != later_created_at ==> ledger_append_decision(after, later, payload)
                is None
        }),
{
    match first_same_event(existing, payload) {
        None => {
            lemma_projected_append_is_idempotent(
                existing,
                record,
                run_id,
                created_at,
                payload,
                payload_bytes,
            );
            if created_at != later_created_at {
                lemma_projected_append_other_time_conflicts(
                    existing,
                    record,
                    later,
                    run_id,
                    created_at,
                    later_created_at,
                    payload,
                    payload_bytes,
                    later_payload_bytes,
                );
            }
        },
        Some(i) => {
            if created_at != later_created_at {
                lemma_projected_records_of_other_times_differ(
                    existing[i],
                    later,
                    run_id,
                    run_id,
                    created_at,
                    later_created_at,
                    payload,
                    payload_bytes,
                    later_payload_bytes,
                );
            }
        },
    }
}

/// A settled payment accrues exactly what was reserved: where the projection
/// of a run is settled, the run's first reservation and its first rail
/// settlement name the same amount, currency, rail and idempotency key, and
/// the accrual carries them; and a first settlement in another currency,
/// amount, rail or key than the first reservation is refused as a mismatch
/// (where every evidence receipt is a child of the run's receipt and nothing
/// was refused).
pub proof fn lemma_settled_projection_accrues_the_reservation(input: PaymentLedgerProjectionInput)
    ensures
        projection_spec(input) is Ok && projection_spec(input)->Ok_0.disposition
            == PaymentLedgerDisposition::Settled ==> exists|ri: int, si: int|
            #![trigger input.evidence@[ri], input.evidence@[si]]
            {
                let ev = input.evidence@;
                &&& 0 <= ri < ev.len() && 0 <= si < ev.len()
                &&& ev[ri].packet matches PaymentLedgerEvidencePacket::Reservation(r)
                &&& ev[si].packet matches PaymentLedgerEvidencePacket::RailSettlement(s)
                &&& forall|j: int| 0 <= j < ri ==> !(ev[j].packet is Reservation)
                &&& forall|j: int| 0 <= j < si ==> !(ev[j].packet is RailSettlement)
                &&& ev[ri].packet->Reservation_0.currency@
                    == ev[si].packet->RailSettlement_0.currency@
                &&& ev[ri].packet->Reservation_0.amount_minor
                    == ev[si].packet->RailSettlement_0.amount_minor
                &&& ev[ri].packet->Reservation_0.rail@ == ev[si].packet->RailSettlement_0.rail@
                &&& ev[ri].packet->Reservation_0.idempotency_key@
                    == ev[si].packet->RailSettlement_0.idempotency_key@
                &&& projection_spec(input)->Ok_0.accrual.currency
                    == ev[ri].packet->Reservation_0.currency@
                &&& projection_spec(input)->Ok_0.accrual.amount_minor
                    == ev[ri].packet->Reservation_0.amount_minor
                &&& projection_spec(input)->Ok_0.accrual.rail == ev[ri].packet->Reservation_0.rail@
            },
        forall|ri: int, si: int|
            #![trigger input.evidence@[ri], input.evidence@[si]]
            {
                let ev = input.evidence@;
                &&& 0 <= ri < ev.len() && 0 <= si < ev.len()
                &&& (forall|j: int| 0 <= j < ev.len() ==> !#[trigger] unreferenced_at(input.graph_receipt, ev)(j))
                &&& (forall|j: int| 0 <= j < ev.len() ==> !(#[trigger] ev[j].packet is Refusal))
                &&& ev[ri].packet is Reservation
                &&& ev[si].packet is RailSettlement
                &&& (forall|j: int| 0 <= j < ri ==> !(#[trigger] ev[j].packet is Reservation))
                &&& (forall|j: int| 0 <= j < si ==> !(#[trigger] ev[j].packet is RailSettlement))
                &&& (ev[ri].packet->Reservation_0.currency@ != ev[si].packet->RailSettlement_0.currency@
                    || ev[ri].packet->Reservation_0.amount_minor
                    != ev[si].packet->RailSettlement_0.amount_minor
                    || ev[ri].packet->Reservation_0.rail@ != ev[si].packet->RailSettlement_0.rail@
                    || ev[ri].packet->Reservation_0.idempotency_key@
                    != ev[si].packet->RailSettlement_0.idempotency_key@)
            } ==> projection_spec(input) == Err::<ProjectionView, ProjectionErrorView>(
                ProjectionErrorView::SettlementReservationMismatch,
            ),
{
    let ev = input.evidence@;
    let len = ev.len() as int;
    lemma_first_index_bounds(len, unreferenced_at(input.graph_receipt, ev));
    lemma_first_index_bounds(len, reservation_at(ev));
    lemma_first_index_bounds(len, refusal_at(ev));
    lemma_first_index_bounds(len, settlement_at(ev));
    if projection_spec(input) is Ok && projection_spec(input)->Ok_0.disposition
        == PaymentLedgerDisposition::Settled {
        let ri = first_index(len, reservation_at(ev))->0;
        let si = first_index(len, settlement_at(ev))->0;
        assert(reservation_at(ev)(ri));
        assert(settlement_at(ev)(si));
        assert forall|j: int| 0 <= j < ri implies !(ev[j].packet is Reservation) by {
            assert(!reservation_at(ev)(j));
        }
        assert forall|j: int| 0 <= j < si implies !(ev[j].packet is RailSettlement) by {
            assert(!settlement_at(ev)(j));
        }
    }
    assert forall|ri: int, si: int|
        #![trigger input.evidence@[ri], input.evidence@[si]]
        {
            &&& 0 <= ri < ev.len() && 0 <= si < ev.len()
            &&& (forall|j: int| 0 <= j < ev.len() ==> !#[trigger] unreferenced_at(input.graph_receipt, ev)(j))
            &&& (forall|j: int| 0 <= j < ev.len() ==> !(#[trigger] ev[j].packet is Refusal))
            &&& ev[ri].packet is Reservation
            &&& ev[si].packet is RailSettlement
            &&& (forall|j: int| 0 <= j < ri ==> !(#[trigger] ev[j].packet is Reservation))
            &&& (forall|j: int| 0 <= j < si ==> !(#[trigger] ev[j].packet is RailSettlement))
            &&& (ev[ri].packet->Reservation_0.currency@ != ev[si].packet->RailSettlement_0.currency@
                || ev[ri].packet->Reservation_0.amount_minor
                != ev[si].packet->RailSettlement_0.amount_minor
                || ev[ri].packet->Reservation_0.rail@ != ev[si].packet->RailSettlement_0.rail@
                || ev[ri].packet->Reservation_0.idempotency_key@
                != ev[si].packet->RailSettlement_0.idempotency_key@)
        } implies projection_spec(input) == Err::<ProjectionView, ProjectionErrorView>(
        ProjectionErrorView::SettlementReservationMismatch,
    ) by {
        assert(reservation_at(ev)(ri));
        assert(settlement_at(ev)(si));
        assert(first_index(len, unreferenced_at(input.graph_receipt, ev)) is None);
        assert(first_index(len, refusal_at(ev)) is None) by {
            if let Some(f) = first_index(len, refusal_at(ev)) {
                assert(refusal_at(ev)(f));
            }
        }
        let fr = first_index(len, reservation_at(ev))->0;
        let fs = first_index(len, settlement_at(ev))->0;
        if fr < ri {
            assert(!(ev[fr].packet is Reservation));
        }
        if ri < fr {
            assert(!reservation_at(ev)(ri));
        }
        if fs < si {
            assert(!(ev[fs].packet is RailSettlement));
        }
        if si < fs {
            assert(!settlement_at(ev)(si));
        }
    }
}

} // verus!
