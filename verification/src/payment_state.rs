//! The payment state of a workspace: which idempotency keys were settled,
//! with which receipt, rail proof and supervisor attestation, which spend
//! capabilities were consumed, and which rail mutations happened, with their
//! recovery state.
//!
//! A key is recorded once; a spend capability is consumed once; a payment is
//! settled only with the supervisor's matching attestation. Reading and
//! writing the state file, and rendering the replay payload as JSON text, are
//! left to the caller.
use vstd::prelude::*;

use crate::env::EnvVars;
use crate::json::{JsonValue, contains_key, json_get};
use crate::payment_ledger::PaymentSupervisorProof;
use crate::payment_packets::{
    JsonObject, PaymentPacketError, PaymentRailPacket, RailPacketView, RailResultView, fault,
    rail_packet_spec, read_payment_rail_packet,
};
use crate::receipt_paths::{RUNX_RECEIPT_DIR_ENV, env_path_spec, join_path, path_join};
use crate::records::{KeyedRecords, distinct_record_keys, records_map};
use crate::text::{chars_of, extend_str, str_eq, string_of};

verus! {

pub const PAYMENT_STATE_SCHEMA_VERSION: &'static str = "runx.payment_state.v1";

pub const RUNX_PAYMENT_STATE_PATH_ENV: &'static str = "RUNX_PAYMENT_STATE_PATH";

pub const PAYMENT_STATE_FILE_NAME: &'static str = "payment-state.json";

// ---------------------------------------------------------------------------
// Records
// ---------------------------------------------------------------------------

/// What makes a payment unique: its rail, its counterparty and the caller's
/// key. Keys are ordered by rail, then counterparty, then key.
#[derive(Clone, Debug, PartialEq, Eq, PartialOrd, Ord, Hash)]
pub struct PaymentIdempotencyKey {
    pub rail: String,
    pub counterparty: String,
    pub key: String,
}

impl View for PaymentIdempotencyKey {
    type V = (Seq<char>, Seq<char>, Seq<char>);

    open spec fn view(&self) -> (Seq<char>, Seq<char>, Seq<char>) {
        (self.rail@, self.counterparty@, self.key@)
    }
}

/// The unit separator that joins the parts of an index key.
pub open spec fn unit_separator() -> char {
    '\u{1f}'
}

/// The key under which records of an idempotency key are kept: its parts
/// joined by the unit separator.
pub open spec fn index_key_of(key: (Seq<char>, Seq<char>, Seq<char>)) -> Seq<char> {
    key.0 + seq![unit_separator()] + key.1 + seq![unit_separator()] + key.2
}

impl PaymentIdempotencyKey {
    /// The key of a payment.
    pub fn new(rail: &str, counterparty: &str, key: &str) -> (r: Self)
        ensures
            r@ == (rail@, counterparty@, key@),
    {
        PaymentIdempotencyKey {
            rail: String::from_str(rail),
            counterparty: String::from_str(counterparty),
            key: String::from_str(key),
        }
    }

    /// The key under which records of this payment are kept.
    pub fn index_key(&self) -> (r: String)
        ensures
            r@ == index_key_of(self@),
    {
        let mut out = chars_of(self.rail.as_str());
        out.push('\u{1f}');
        extend_str(&mut out, self.counterparty.as_str());
        out.push('\u{1f}');
        extend_str(&mut out, self.key.as_str());
        string_of(&out)
    }

    /// A copy of the key.
    pub fn duplicate(&self) -> (r: Self)
        ensures
            r@ == self@,
    {
        PaymentIdempotencyKey {
            rail: self.rail.clone(),
            counterparty: self.counterparty.clone(),
            key: self.key.clone(),
        }
    }
}

/// A settled payment: the receipt, rail proof and supervisor attestation that
/// settled it, and the step outputs to replay for it.
#[derive(Debug)]
pub struct PaymentIdempotencyEntry {
    pub idempotency_key: PaymentIdempotencyKey,
    pub receipt_ref: String,
    pub receipt_created_at: String,
    pub receipt_digest: String,
    pub rail_proof_ref: String,
    pub supervisor_proof: PaymentSupervisorProof,
    pub amount_minor: u64,
    pub currency: String,
    pub outputs: JsonObject,
}

/// A settled payment as text.
pub struct IdempotencyEntryView {
    pub idempotency_key: (Seq<char>, Seq<char>, Seq<char>),
    pub receipt_ref: Seq<char>,
    pub receipt_created_at: Seq<char>,
    pub receipt_digest: Seq<char>,
    pub rail_proof_ref: Seq<char>,
    pub supervisor_proof: PaymentSupervisorProof,
    pub amount_minor: u64,
    pub currency: Seq<char>,
    pub outputs: Seq<(String, JsonValue)>,
}

impl View for PaymentIdempotencyEntry {
    type V = IdempotencyEntryView;

    open spec fn view(&self) -> IdempotencyEntryView {
        IdempotencyEntryView {
            idempotency_key: self.idempotency_key@,
            receipt_ref: self.receipt_ref@,
            receipt_created_at: self.receipt_created_at@,
            receipt_digest: self.receipt_digest@,
            rail_proof_ref: self.rail_proof_ref@,
            supervisor_proof: self.supervisor_proof,
            amount_minor: self.amount_minor,
            currency: self.currency@,
            outputs: self.outputs@,
        }
    }
}

/// How far a payment got: still in flight, sealed, or escalated to a human.
#[derive(Clone, Copy, Debug, PartialEq, Eq, Structural)]
pub enum PaymentRecoveryState {
    InFlight,
    Sealed,
    Escalated,
}

/// What a rail mutation did: part of the payment, all of it, or it was
/// escalated.
#[derive(Clone, Copy, Debug, PartialEq, Eq, Structural)]
pub enum RailMutationStatus {
    Partial,
    Fulfilled,
    Escalated,
}

/// A consumed spend capability.
#[derive(Clone, Debug, PartialEq, Eq)]
pub struct SpendCapabilityConsumption {
    pub capability_ref: String,
    pub idempotency_key: PaymentIdempotencyKey,
    pub receipt_ref: Option<String>,
    pub recovery_state: Option<PaymentRecoveryState>,
}

/// A consumed spend capability as text.
pub struct ConsumptionView {
    pub capability_ref: Seq<char>,
    pub idempotency_key: (Seq<char>, Seq<char>, Seq<char>),
    pub receipt_ref: Option<Seq<char>>,
    pub recovery_state: Option<PaymentRecoveryState>,
}

/// An optional string as text.
pub open spec fn opt_text(value: Option<String>) -> Option<Seq<char>> {
    match value {
        Some(s) => Some(s@),
        None => None,
    }
}

impl View for SpendCapabilityConsumption {
    type V = ConsumptionView;

    open spec fn view(&self) -> ConsumptionView {
        ConsumptionView {
            capability_ref: self.capability_ref@,
            idempotency_key: self.idempotency_key@,
            receipt_ref: opt_text(self.receipt_ref),
            recovery_state: self.recovery_state,
        }
    }
}

/// A mutation on a payment rail.
#[derive(Clone, Debug, PartialEq, Eq)]
pub struct RailMutation {
    pub idempotency_key: PaymentIdempotencyKey,
    pub rail: String,
    pub amount_minor: u64,
    pub currency: String,
    pub counterparty: String,
    pub status: RailMutationStatus,
    pub proof_ref: Option<String>,
    pub recovery_state: PaymentRecoveryState,
}

/// A rail mutation as text.
pub struct RailMutationView {
    pub idempotency_key: (Seq<char>, Seq<char>, Seq<char>),
    pub rail: Seq<char>,
    pub amount_minor: u64,
    pub currency: Seq<char>,
    pub counterparty: Seq<char>,
    pub status: RailMutationStatus,
    pub proof_ref: Option<Seq<char>>,
    pub recovery_state: PaymentRecoveryState,
}

impl View for RailMutation {
    type V = RailMutationView;

    open spec fn view(&self) -> RailMutationView {
        RailMutationView {
            idempotency_key: self.idempotency_key@,
            rail: self.rail@,
            amount_minor: self.amount_minor,
            currency: self.currency@,
            counterparty: self.counterparty@,
            status: self.status,
            proof_ref: opt_text(self.proof_ref),
            recovery_state: self.recovery_state,
        }
    }
}

/// What a payment step reserved: the payment's key, the capability that
/// covers it, its rail, counterparty and amount, and the act it belongs to.
#[derive(Clone, Debug, PartialEq, Eq)]
pub struct PaymentStepStateInput {
    pub idempotency_key: PaymentIdempotencyKey,
    pub spend_capability_ref: String,
    pub rail: String,
    pub counterparty: String,
    pub amount_minor: u64,
    pub currency: String,
    pub act_id: String,
}

/// The receipt a payment step was sealed in: its id, time and digest.
#[derive(Clone, Debug, PartialEq, Eq)]
pub struct PaymentStepReceipt {
    pub id: String,
    pub created_at: String,
    pub digest: String,
}

impl View for PaymentStepReceipt {
    type V = (Seq<char>, Seq<char>, Seq<char>);

    open spec fn view(&self) -> (Seq<char>, Seq<char>, Seq<char>) {
        (self.id@, self.created_at@, self.digest@)
    }
}

/// Why the payment state refused an operation or could not be used.
#[derive(Clone, Debug, PartialEq, Eq)]
pub enum PaymentStateError {
    MissingParent { path: String },
    Read { path: String, message: String },
    Parse { path: String, message: String },
    CreateDirectory { path: String, message: String },
    Write { path: String, message: String },
    Serialize { path: String, message: String },
    UnsupportedSchemaVersion { schema_version: String },
    IdempotencyAlreadyRecorded { idempotency_key: String },
    RailMutationAlreadyRecorded { idempotency_key: String },
    SpendCapabilityAlreadyConsumed { capability_ref: String },
    ReplayOutputSerialize { message: String },
    MissingSupervisorProof { proof_ref: String },
    SupervisorProof { message: String },
    PaymentPacket(PaymentPacketError),
}

// ---------------------------------------------------------------------------
// The state
// ---------------------------------------------------------------------------

/// The payment state as stored: its schema version and its three tables,
/// each keyed once.
#[derive(Debug)]
pub struct PaymentStateDocument {
    pub schema_version: String,
    pub idempotency_entries: Vec<(String, PaymentIdempotencyEntry)>,
    pub consumed_spend_capabilities: Vec<(String, SpendCapabilityConsumption)>,
    pub rail_mutations: Vec<(String, RailMutation)>,
}

/// The payment state.
#[derive(Debug)]
pub struct PaymentState {
    schema_version: String,
    idempotency_entries: KeyedRecords<PaymentIdempotencyEntry>,
    consumed_spend_capabilities: KeyedRecords<SpendCapabilityConsumption>,
    rail_mutations: KeyedRecords<RailMutation>,
}

/// The payment state as maps from keys to records.
pub struct PaymentStateView {
    pub schema_version: Seq<char>,
    pub idempotency: Map<Seq<char>, IdempotencyEntryView>,
    pub consumed: Map<Seq<char>, ConsumptionView>,
    pub mutations: Map<Seq<char>, RailMutationView>,
}

impl View for PaymentState {
    type V = PaymentStateView;

    closed spec fn view(&self) -> PaymentStateView {
        PaymentStateView {
            schema_version: self.schema_version@,
            idempotency: self.idempotency_entries@,
            consumed: self.consumed_spend_capabilities@,
            mutations: self.rail_mutations@,
        }
    }
}

/// The state that a stored document holds.
pub open spec fn document_view(document: PaymentStateDocument) -> PaymentStateView {
    PaymentStateView {
        schema_version: document.schema_version@,
        idempotency: records_map(document.idempotency_entries@),
        consumed: records_map(document.consumed_spend_capabilities@),
        mutations: records_map(document.rail_mutations@),
    }
}

impl PaymentState {
    /// Each table keys each record once.
    pub closed spec fn wf(&self) -> bool {
        &&& self.idempotency_entries.wf()
        &&& self.consumed_spend_capabilities.wf()
        &&& self.rail_mutations.wf()
    }

    /// An empty state of the current schema.
    pub fn new() -> (r: Self)
        ensures
            r.wf(),
            r@ == (PaymentStateView {
                schema_version: PAYMENT_STATE_SCHEMA_VERSION@,
                idempotency: Map::empty(),
                consumed: Map::empty(),
                mutations: Map::empty(),
            }),
    {
        PaymentState {
            schema_version: String::from_str(PAYMENT_STATE_SCHEMA_VERSION),
            idempotency_entries: KeyedRecords::new(),
            consumed_spend_capabilities: KeyedRecords::new(),
            rail_mutations: KeyedRecords::new(),
        }
    }

    /// The state that a stored document holds, or an empty one where there is
    /// no document; a document of another schema is refused.
    pub fn load(document: Option<PaymentStateDocument>) -> (r: Result<
        PaymentState,
        PaymentStateError,
    >)
        requires
            document matches Some(d) ==> distinct_record_keys(d.idempotency_entries@)
                && distinct_record_keys(d.consumed_spend_capabilities@) && distinct_record_keys(
                d.rail_mutations@,
            ),
        ensures
            match document {
                None => r matches Ok(state) && state.wf() && state@ == (PaymentStateView {
                    schema_version: PAYMENT_STATE_SCHEMA_VERSION@,
                    idempotency: Map::empty(),
                    consumed: Map::empty(),
                    mutations: Map::empty(),
                }),
                Some(d) => if d.schema_version@ == PAYMENT_STATE_SCHEMA_VERSION@ {
                    r matches Ok(state) && state.wf() && state@ == document_view(d)
                } else {
                    r matches Err(PaymentStateError::UnsupportedSchemaVersion { schema_version })
                        && schema_version@ == d.schema_version@
                },
            },
    {
        let d = match document {
            None => return Ok(PaymentState::new()),
            Some(d) => d,
        };
        if !str_eq(d.schema_version.as_str(), PAYMENT_STATE_SCHEMA_VERSION) {
            return Err(PaymentStateError::UnsupportedSchemaVersion { schema_version: d.schema_version });
        }
        let PaymentStateDocument {
            schema_version,
            idempotency_entries,
            consumed_spend_capabilities,
            rail_mutations,
        } = d;
        let idempotency_entries = match KeyedRecords::from_entries(idempotency_entries) {
            Some(records) => records,
            None => return Ok(PaymentState::new()),
        };
        let consumed_spend_capabilities = match KeyedRecords::from_entries(
            consumed_spend_capabilities,
        ) {
            Some(records) => records,
            None => return Ok(PaymentState::new()),
        };
        let rail_mutations = match KeyedRecords::from_entries(rail_mutations) {
            Some(records) => records,
            None => return Ok(PaymentState::new()),
        };
        Ok(
            PaymentState {
                schema_version,
                idempotency_entries,
                consumed_spend_capabilities,
                rail_mutations,
            },
        )
    }

    /// The document that stores this state.
    pub fn into_document(self) -> (r: PaymentStateDocument)
        requires
            self.wf(),
        ensures
            document_view(r) == self@,
            distinct_record_keys(r.idempotency_entries@),
            distinct_record_keys(r.consumed_spend_capabilities@),
            distinct_record_keys(r.rail_mutations@),
    {
        let PaymentState {
            schema_version,
            idempotency_entries,
            consumed_spend_capabilities,
            rail_mutations,
        } = self;
        PaymentStateDocument {
            schema_version,
            idempotency_entries: idempotency_entries.into_entries(),
            consumed_spend_capabilities: consumed_spend_capabilities.into_entries(),
            rail_mutations: rail_mutations.into_entries(),
        }
    }

    /// The settled payment of `key`, if there is one.
    pub fn lookup_idempotency(&self, key: &PaymentIdempotencyKey) -> (r: Option<
        &PaymentIdempotencyEntry,
    >)
        requires
            self.wf(),
        ensures
            match r {
                Some(entry) => self@.idempotency.contains_key(index_key_of(key@))
                    && self@.idempotency[index_key_of(key@)] == entry@,
                None => !self@.idempotency.contains_key(index_key_of(key@)),
            },
    {
        let index = key.index_key();
        self.idempotency_entries.get(index.as_str())
    }

    /// Records a settled payment; a key is recorded once.
    pub fn record_idempotency(&mut self, entry: PaymentIdempotencyEntry) -> (r: Result<
        (),
        PaymentStateError,
    >)
        requires
            old(self).wf(),
        ensures
            final(self).wf(),
            old(self)@.idempotency.contains_key(index_key_of(entry.idempotency_key@)) ==> (
            r matches Err(PaymentStateError::IdempotencyAlreadyRecorded { idempotency_key })
                && idempotency_key@ == index_key_of(entry.idempotency_key@) && final(self)@ == old(self)@),
            !old(self)@.idempotency.contains_key(index_key_of(entry.idempotency_key@)) ==> (r is Ok
                && final(self)@ == (PaymentStateView {
                idempotency: old(self)@.idempotency.insert(
                    index_key_of(entry.idempotency_key@),
                    entry@,
                ),
                ..old(self)@
            })),
    {
        let index = entry.idempotency_key.index_key();
        if self.idempotency_entries.contains_key(index.as_str()) {
            return Err(PaymentStateError::IdempotencyAlreadyRecorded { idempotency_key: index });
        }
        self.idempotency_entries.insert_new(index, entry);
        Ok(())
    }

    /// The consumption of a spend capability, if it was consumed.
    pub fn lookup_consumed_spend_capability(&self, capability_ref: &str) -> (r: Option<
        &SpendCapabilityConsumption,
    >)
        requires
            self.wf(),
        ensures
            match r {
                Some(c) => self@.consumed.contains_key(capability_ref@)
                    && self@.consumed[capability_ref@] == c@,
                None => !self@.consumed.contains_key(capability_ref@),
            },
    {
        self.consumed_spend_capabilities.get(capability_ref)
    }

    /// Consumes a spend capability; a capability is consumed once.
    pub fn consume_spend_capability(&mut self, consumption: SpendCapabilityConsumption) -> (r:
        Result<(), PaymentStateError>)
        requires
            old(self).wf(),
        ensures
            final(self).wf(),
            old(self)@.consumed.contains_key(consumption.capability_ref@) ==> (
            r matches Err(PaymentStateError::SpendCapabilityAlreadyConsumed { capability_ref })
                && capability_ref@ == consumption.capability_ref@ && final(self)@ == old(self)@),
            !old(self)@.consumed.contains_key(consumption.capability_ref@) ==> (r is Ok && final(self)@ == (PaymentStateView {
                consumed: old(self)@.consumed.insert(consumption.capability_ref@, consumption@),
                ..old(self)@
            })),
    {
        if self.consumed_spend_capabilities.contains_key(consumption.capability_ref.as_str()) {
            return Err(
                PaymentStateError::SpendCapabilityAlreadyConsumed {
                    capability_ref: consumption.capability_ref,
                },
            );
        }
        let key = consumption.capability_ref.clone();
        self.consumed_spend_capabilities.insert_new(key, consumption);
        Ok(())
    }

    /// The rail mutation of `key`, if there is one.
    pub fn lookup_rail_mutation(&self, key: &PaymentIdempotencyKey) -> (r: Option<&RailMutation>)
        requires
            self.wf(),
        ensures
            match r {
                Some(m) => self@.mutations.contains_key(index_key_of(key@))
                    && self@.mutations[index_key_of(key@)] == m@,
                None => !self@.mutations.contains_key(index_key_of(key@)),
            },
    {
        let index = key.index_key();
        self.rail_mutations.get(index.as_str())
    }

    /// Records a rail mutation; a key is recorded once.
    pub fn record_rail_mutation(&mut self, mutation: RailMutation) -> (r: Result<
        (),
        PaymentStateError,
    >)
        requires
            old(self).wf(),
        ensures
            final(self).wf(),
            old(self)@.mutations.contains_key(index_key_of(mutation.idempotency_key@)) ==> (
            r matches Err(PaymentStateError::RailMutationAlreadyRecorded { idempotency_key })
                && idempotency_key@ == index_key_of(mutation.idempotency_key@) && final(self)@
                == old(self)@),
            !old(self)@.mutations.contains_key(index_key_of(mutation.idempotency_key@)) ==> (r is Ok
                && final(self)@ == (PaymentStateView {
                mutations: old(self)@.mutations.insert(
                    index_key_of(mutation.idempotency_key@),
                    mutation@,
                ),
                ..old(self)@
            })),
    {
        let index = mutation.idempotency_key.index_key();
        if self.rail_mutations.contains_key(index.as_str()) {
            return Err(PaymentStateError::RailMutationAlreadyRecorded { idempotency_key: index });
        }
        self.rail_mutations.insert_new(index, mutation);
        Ok(())
    }

    /// Escalates the rail mutation of `key`, where there is one, and gives
    /// it back as it now stands.
    pub fn escalate_rail_mutation(&mut self, key: &PaymentIdempotencyKey) -> (r: Option<
        RailMutation,
    >)
        requires
            old(self).wf(),
        ensures
            final(self).wf(),
            !old(self)@.mutations.contains_key(index_key_of(key@)) ==> r is None && final(self)@
                == old(self)@,
            old(self)@.mutations.contains_key(index_key_of(key@)) ==> (r matches Some(m) && m@
                == escalated(old(self)@.mutations[index_key_of(key@)]) && final(self)@ == (
            PaymentStateView {
                mutations: old(self)@.mutations.insert(index_key_of(key@), m@),
                ..old(self)@
            })),
    {
        let index = key.index_key();
        let updated = match self.rail_mutations.get(index.as_str()) {
            None => return None,
            Some(m) => RailMutation {
                idempotency_key: m.idempotency_key.duplicate(),
                rail: m.rail.clone(),
                amount_minor: m.amount_minor,
                currency: m.currency.clone(),
                counterparty: m.counterparty.clone(),
                status: RailMutationStatus::Escalated,
                proof_ref: match &m.proof_ref {
                    Some(p) => Some(p.clone()),
                    None => None,
                },
                recovery_state: PaymentRecoveryState::Escalated,
            },
        };
        let returned = RailMutation {
            idempotency_key: updated.idempotency_key.duplicate(),
            rail: updated.rail.clone(),
            amount_minor: updated.amount_minor,
            currency: updated.currency.clone(),
            counterparty: updated.counterparty.clone(),
            status: updated.status,
            proof_ref: match &updated.proof_ref {
                Some(p) => Some(p.clone()),
                None => None,
            },
            recovery_state: updated.recovery_state,
        };
        self.rail_mutations.replace(index.as_str(), updated);
        Some(returned)
    }
}

/// A rail mutation after escalation: escalated in status and recovery state,
/// the same otherwise.
pub open spec fn escalated(m: RailMutationView) -> RailMutationView {
    RailMutationView {
        status: RailMutationStatus::Escalated,
        recovery_state: PaymentRecoveryState::Escalated,
        ..m
    }
}

// ---------------------------------------------------------------------------
// Payment steps
// ---------------------------------------------------------------------------

/// How far a rail call got: its recovery hint where it names a known status;
/// otherwise sealed where there is a proof, and in flight where there is not.
pub open spec fn recovery_state_of(packet: Option<RailPacketView>) -> PaymentRecoveryState {
    match packet {
        None => PaymentRecoveryState::InFlight,
        Some(p) => {
            let by_proof = if p.proof is Some {
                PaymentRecoveryState::Sealed
            } else {
                PaymentRecoveryState::InFlight
            };
            match p.recovery_status {
                Some(status) => if status == "sealed"@ {
                    PaymentRecoveryState::Sealed
                } else if status == "terminal_decline"@ || status == "escalated"@ {
                    PaymentRecoveryState::Escalated
                } else if status == "recoverable_timeout"@ || status == "partial"@ || status
                    == "in_flight"@ {
                    PaymentRecoveryState::InFlight
                } else {
                    by_proof
                },
                None => by_proof,
            }
        },
    }
}

/// A rail call whose recovery hint is `escalated` or `terminal_decline` is
/// escalated, one whose hint is `sealed` is sealed, and one whose hint is
/// `partial`, `in_flight` or `recoverable_timeout` is in flight, whether or
/// not the rail gave a proof; a call without a hint is sealed exactly when it
/// has a proof; a missing rail call is in flight.
pub proof fn lemma_recovery_hint_decides(p: RailPacketView)
    ensures
        p.recovery_status == Some("escalated"@) ==> recovery_state_of(Some(p))
            == PaymentRecoveryState::Escalated,
        p.recovery_status == Some("terminal_decline"@) ==> recovery_state_of(Some(p))
            == PaymentRecoveryState::Escalated,
        p.recovery_status == Some("sealed"@) ==> recovery_state_of(Some(p))
            == PaymentRecoveryState::Sealed,
        p.recovery_status == Some("partial"@) ==> recovery_state_of(Some(p))
            == PaymentRecoveryState::InFlight,
        p.recovery_status == Some("in_flight"@) ==> recovery_state_of(Some(p))
            == PaymentRecoveryState::InFlight,
        p.recovery_status == Some("recoverable_timeout"@) ==> recovery_state_of(Some(p))
            == PaymentRecoveryState::InFlight,
        p.recovery_status is None ==> (recovery_state_of(Some(p)) == PaymentRecoveryState::Sealed
            <==> p.proof is Some),
        p.recovery_status is None ==> recovery_state_of(Some(p)) != PaymentRecoveryState::Escalated,
        recovery_state_of(None) == PaymentRecoveryState::InFlight,
{
    reveal_strlit("escalated");
    reveal_strlit("terminal_decline");
    reveal_strlit("sealed");
    reveal_strlit("partial");
    reveal_strlit("in_flight");
    reveal_strlit("recoverable_timeout");
    assert("escalated"@.len() == 9 && "sealed"@.len() == 6 && "terminal_decline"@.len() == 16);
    assert("escalated"@ != "sealed"@);
    assert("terminal_decline"@ != "sealed"@);
    assert("in_flight"@[0] != "escalated"@[0]);
    assert("in_flight"@ != "escalated"@);
}

/// The recovery state of a rail call.
pub fn payment_recovery_state(packet: Option<&PaymentRailPacket>) -> (r: PaymentRecoveryState)
    ensures
        r == recovery_state_of(
            match packet {
                Some(p) => Some(p@),
                None => None,
            },
        ),
{
    let p = match packet {
        None => return PaymentRecoveryState::InFlight,
        Some(p) => p,
    };
    match &p.recovery_status {
        Some(status) => {
            let status = status.as_str();
            if str_eq(status, "sealed") {
                return PaymentRecoveryState::Sealed;
            }
            if str_eq(status, "terminal_decline") || str_eq(status, "escalated") {
                return PaymentRecoveryState::Escalated;
            }
            if str_eq(status, "recoverable_timeout") || str_eq(status, "partial") || str_eq(
                status,
                "in_flight",
            ) {
                return PaymentRecoveryState::InFlight;
            }
        },
        None => {},
    }
    if p.proof.is_some() {
        PaymentRecoveryState::Sealed
    } else {
        PaymentRecoveryState::InFlight
    }
}

/// The status of a rail mutation in a recovery state.
pub open spec fn mutation_status_of(state: PaymentRecoveryState) -> RailMutationStatus {
    match state {
        PaymentRecoveryState::Sealed => RailMutationStatus::Fulfilled,
        PaymentRecoveryState::Escalated => RailMutationStatus::Escalated,
        PaymentRecoveryState::InFlight => RailMutationStatus::Partial,
    }
}

/// The status of a rail mutation in a recovery state.
pub fn rail_mutation_status(recovery_state: &PaymentRecoveryState) -> (r: RailMutationStatus)
    ensures
        r == mutation_status_of(*recovery_state),
{
    match recovery_state {
        PaymentRecoveryState::Sealed => RailMutationStatus::Fulfilled,
        PaymentRecoveryState::Escalated => RailMutationStatus::Escalated,
        PaymentRecoveryState::InFlight => RailMutationStatus::Partial,
    }
}

/// A payment step's input as text.
pub struct StepInputView {
    pub idempotency_key: (Seq<char>, Seq<char>, Seq<char>),
    pub spend_capability_ref: Seq<char>,
    pub rail: Seq<char>,
    pub counterparty: Seq<char>,
    pub amount_minor: u64,
    pub currency: Seq<char>,
    pub act_id: Seq<char>,
}

impl View for PaymentStepStateInput {
    type V = StepInputView;

    open spec fn view(&self) -> StepInputView {
        StepInputView {
            idempotency_key: self.idempotency_key@,
            spend_capability_ref: self.spend_capability_ref@,
            rail: self.rail@,
            counterparty: self.counterparty@,
            amount_minor: self.amount_minor,
            currency: self.currency@,
            act_id: self.act_id@,
        }
    }
}

/// What the rail reported for a field, or else what the step reserved.
pub open spec fn reported_or<A>(reported: Option<A>, reserved: A) -> A {
    match reported {
        Some(v) => v,
        None => reserved,
    }
}

/// What the rail answered, where the step's outputs hold a rail call.
pub open spec fn packet_result(packet: Option<RailPacketView>) -> Option<RailResultView> {
    match packet {
        Some(p) => p.result,
        None => None,
    }
}

/// The rail was touched: its answer has a status.
pub open spec fn rail_touched(packet: Option<RailPacketView>) -> bool {
    match packet_result(packet) {
        Some(r) => r.status is Some,
        None => false,
    }
}

/// The reference of the rail's proof, where it gave one.
pub open spec fn packet_proof_ref(packet: Option<RailPacketView>) -> Option<Seq<char>> {
    match packet {
        Some(p) => match p.proof {
            Some((proof_ref, _)) => Some(proof_ref),
            None => None,
        },
        None => None,
    }
}

/// The step settles its payment anew: the rail gave a proof and the key has
/// no settled payment yet.
pub open spec fn settles_new(
    s: PaymentStateView,
    input: StepInputView,
    packet: Option<RailPacketView>,
) -> bool {
    packet_proof_ref(packet) is Some && !s.idempotency.contains_key(
        index_key_of(input.idempotency_key),
    )
}

/// The state once the step's spend capability is consumed: where the rail
/// was touched and the capability was not consumed before.
pub open spec fn consume_effect(
    s: PaymentStateView,
    input: StepInputView,
    packet: Option<RailPacketView>,
    receipt_id: Seq<char>,
) -> PaymentStateView {
    if rail_touched(packet) && !s.consumed.contains_key(input.spend_capability_ref) {
        PaymentStateView {
            consumed: s.consumed.insert(
                input.spend_capability_ref,
                ConsumptionView {
                    capability_ref: input.spend_capability_ref,
                    idempotency_key: input.idempotency_key,
                    receipt_ref: Some(receipt_id),
                    recovery_state: Some(recovery_state_of(packet)),
                },
            ),
            ..s
        }
    } else {
        s
    }
}

/// The settled payment a step records: its receipt, the rail's proof, the
/// supervisor's attestation, the figures the rail reported (else those
/// reserved) and the outputs to replay.
pub open spec fn settled_entry(
    input: StepInputView,
    packet: Option<RailPacketView>,
    receipt: (Seq<char>, Seq<char>, Seq<char>),
    proof: PaymentSupervisorProof,
    outputs: Seq<(String, JsonValue)>,
) -> IdempotencyEntryView {
    let result = packet_result(packet);
    IdempotencyEntryView {
        idempotency_key: input.idempotency_key,
        receipt_ref: receipt.0,
        receipt_created_at: receipt.1,
        receipt_digest: receipt.2,
        rail_proof_ref: packet_proof_ref(packet)->0,
        supervisor_proof: proof,
        amount_minor: reported_or(
            match result {
                Some(r) => r.amount_minor,
                None => None,
            },
            input.amount_minor,
        ),
        currency: reported_or(
            match result {
                Some(r) => r.currency,
                None => None,
            },
            input.currency,
        ),
        outputs,
    }
}

/// What persisting a payment step does to the state: where the rail was
/// touched (its answer has a status), the step's spend capability is
/// consumed and a rail mutation recorded, unless they were already; the
/// payment is settled under its key with `settled`, where there is one.
/// Figures the rail reported win over those the step reserved.
pub open spec fn step_effect(
    s: PaymentStateView,
    input: StepInputView,
    packet: Option<RailPacketView>,
    receipt_id: Seq<char>,
    settled: Option<IdempotencyEntryView>,
) -> PaymentStateView {
    let recovery = recovery_state_of(packet);
    let result = packet_result(packet);
    let key = index_key_of(input.idempotency_key);
    let idempotency = match settled {
        Some(entry) => s.idempotency.insert(key, entry),
        None => s.idempotency,
    };
    let mutations = if rail_touched(packet) && !s.mutations.contains_key(key) {
        s.mutations.insert(
            key,
            RailMutationView {
                idempotency_key: input.idempotency_key,
                rail: reported_or(
                    match result {
                        Some(r) => r.rail,
                        None => None,
                    },
                    input.rail,
                ),
                amount_minor: reported_or(
                    match result {
                        Some(r) => r.amount_minor,
                        None => None,
                    },
                    input.amount_minor,
                ),
                currency: reported_or(
                    match result {
                        Some(r) => r.currency,
                        None => None,
                    },
                    input.currency,
                ),
                counterparty: reported_or(
                    match result {
                        Some(r) => r.counterparty,
                        None => None,
                    },
                    input.counterparty,
                ),
                status: mutation_status_of(recovery),
                proof_ref: packet_proof_ref(packet),
                recovery_state: recovery,
            },
        )
    } else {
        s.mutations
    };
    PaymentStateView {
        idempotency,
        mutations,
        ..consume_effect(s, input, packet, receipt_id)
    }
}

/// Persisting a payment step again, once it went through, changes nothing:
/// the capability stays consumed, the payment stays settled as it was, and
/// the rail mutation stays recorded.
pub proof fn lemma_step_effect_idempotent(
    s: PaymentStateView,
    input: StepInputView,
    packet: Option<RailPacketView>,
    receipt_id: Seq<char>,
    settled: Option<IdempotencyEntryView>,
)
    requires
        settled is Some <==> settles_new(s, input, packet),
    ensures
        !settles_new(step_effect(s, input, packet, receipt_id, settled), input, packet),
        step_effect(step_effect(s, input, packet, receipt_id, settled), input, packet, receipt_id, None)
            == step_effect(s, input, packet, receipt_id, settled),
{
    let once = step_effect(s, input, packet, receipt_id, settled);
    let twice = step_effect(once, input, packet, receipt_id, None);
    assert(twice.consumed =~= once.consumed);
    assert(twice.idempotency =~= once.idempotency);
    assert(twice.mutations =~= once.mutations);
}

/// A spend capability, once consumed, is never consumed again: it stays
/// recorded as it was through every later step, whether the step goes
/// through or stops for want of a supervisor proof.
pub proof fn lemma_consumed_capability_stays_consumed(
    s: PaymentStateView,
    input: StepInputView,
    packet: Option<RailPacketView>,
    receipt_id: Seq<char>,
    settled: Option<IdempotencyEntryView>,
    capability_ref: Seq<char>,
)
    requires
        s.consumed.contains_key(capability_ref),
    ensures
        consume_effect(s, input, packet, receipt_id).consumed.contains_key(capability_ref),
        consume_effect(s, input, packet, receipt_id).consumed[capability_ref]
            == s.consumed[capability_ref],
        step_effect(s, input, packet, receipt_id, settled).consumed.contains_key(capability_ref),
        step_effect(s, input, packet, receipt_id, settled).consumed[capability_ref]
            == s.consumed[capability_ref],
{
}

// ---------------------------------------------------------------------------
// The supervisor's attestation
// ---------------------------------------------------------------------------

/// The first field of the supervisor proof that disagrees with the step it
/// must attest, by name: the rail proof, the step's rail, counterparty,
/// amount, currency, key, capability and act, and the receipt's id and
/// digest.
pub open spec fn step_proof_mismatch(
    proof: PaymentSupervisorProof,
    input: StepInputView,
    receipt: (Seq<char>, Seq<char>, Seq<char>),
    proof_ref: Seq<char>,
) -> Option<Seq<char>> {
    if proof.proof_ref@ != proof_ref {
        Some("proof_ref"@)
    } else if proof.rail@ != input.rail {
        Some("rail"@)
    } else if proof.counterparty@ != input.counterparty {
        Some("counterparty"@)
    } else if proof.amount_minor != input.amount_minor {
        Some("amount_minor"@)
    } else if proof.currency@ != input.currency {
        Some("currency"@)
    } else if proof.idempotency_key@ != input.idempotency_key.2 {
        Some("idempotency_key"@)
    } else if proof.spend_capability_ref@ != input.spend_capability_ref {
        Some("spend_capability_ref"@)
    } else if proof.act_id@ != input.act_id {
        Some("act_id"@)
    } else if proof.receipt_ref@ != receipt.0 {
        Some("receipt_ref"@)
    } else if proof.receipt_digest@ != receipt.2 {
        Some("receipt_digest"@)
    } else {
        None
    }
}

fn proof_mismatch(field: &str) -> (r: Result<(), PaymentStateError>)
    ensures
        r matches Err(PaymentStateError::SupervisorProof { message }) && message@ == field@,
{
    Err(PaymentStateError::SupervisorProof { message: String::from_str(field) })
}

/// Holds the supervisor's attestation against the step and its receipt.
pub fn validate_step_supervisor_proof(
    proof: &PaymentSupervisorProof,
    input: &PaymentStepStateInput,
    receipt: &PaymentStepReceipt,
    proof_ref: &str,
) -> (r: Result<(), PaymentStateError>)
    ensures
        match step_proof_mismatch(*proof, input@, receipt@, proof_ref@) {
            Some(field) => r matches Err(PaymentStateError::SupervisorProof { message })
                && message@ == field,
            None => r is Ok,
        },
{
    if !str_eq(proof.proof_ref.as_str(), proof_ref) {
        return proof_mismatch("proof_ref");
    }
    if !str_eq(proof.rail.as_str(), input.rail.as_str()) {
        return proof_mismatch("rail");
    }
    if !str_eq(proof.counterparty.as_str(), input.counterparty.as_str()) {
        return proof_mismatch("counterparty");
    }
    if proof.amount_minor != input.amount_minor {
        return proof_mismatch("amount_minor");
    }
    if !str_eq(proof.currency.as_str(), input.currency.as_str()) {
        return proof_mismatch("currency");
    }
    if !str_eq(proof.idempotency_key.as_str(), input.idempotency_key.key.as_str()) {
        return proof_mismatch("idempotency_key");
    }
    if !str_eq(proof.spend_capability_ref.as_str(), input.spend_capability_ref.as_str()) {
        return proof_mismatch("spend_capability_ref");
    }
    if !str_eq(proof.act_id.as_str(), input.act_id.as_str()) {
        return proof_mismatch("act_id");
    }
    if !str_eq(proof.receipt_ref.as_str(), receipt.id.as_str()) {
        return proof_mismatch("receipt_ref");
    }
    if !str_eq(proof.receipt_digest.as_str(), receipt.digest.as_str()) {
        return proof_mismatch("receipt_digest");
    }
    Ok(())
}

fn copy_supervisor_proof(p: &PaymentSupervisorProof) -> (r: PaymentSupervisorProof)
    ensures
        r == *p,
{
    PaymentSupervisorProof {
        proof_ref: p.proof_ref.clone(),
        rail: p.rail.clone(),
        counterparty: p.counterparty.clone(),
        amount_minor: p.amount_minor,
        currency: p.currency.clone(),
        idempotency_key: p.idempotency_key.clone(),
        spend_capability_ref: p.spend_capability_ref.clone(),
        act_id: p.act_id.clone(),
        receipt_ref: p.receipt_ref.clone(),
        receipt_digest: p.receipt_digest.clone(),
    }
}

// ---------------------------------------------------------------------------
// Replay-safe outputs
// ---------------------------------------------------------------------------

/// `o` without its members named `name`.
pub open spec fn without_member(o: Seq<(String, JsonValue)>, name: Seq<char>) -> Seq<
    (String, JsonValue),
>
    decreases o.len(),
{
    if o.len() == 0 {
        o
    } else {
        let rest = without_member(o.drop_last(), name);
        if o.last().0@ == name {
            rest
        } else {
            rest.push(o.last())
        }
    }
}

/// The member that leads one level down towards the rail session material:
/// `payment_rail_packet`, then `data`, then `rail_proof`.
pub open spec fn replay_path_name(level: nat) -> Seq<char> {
    if level == 3 {
        "payment_rail_packet"@
    } else if level == 2 {
        "data"@
    } else {
        "rail_proof"@
    }
}

/// `q` is `p` with the rail session material reference taken out `level`
/// objects down the path `payment_rail_packet.data.rail_proof`; members on
/// the path that are not objects are left as they are.
pub open spec fn sanitized_at(
    level: nat,
    p: Seq<(String, JsonValue)>,
    q: Seq<(String, JsonValue)>,
) -> bool
    decreases level,
{
    if level == 0 {
        q == without_member(p, "rail_session_material_ref"@)
    } else {
        &&& q.len() == p.len()
        &&& forall|i: int|
            0 <= i < p.len() ==> if p[i].0@ == replay_path_name(level) && p[i].1 is Object {
                q[i].0 == p[i].0 && q[i].1 is Object && sanitized_at(
                    (level - 1) as nat,
                    p[i].1->Object_0@,
                    q[i].1->Object_0@,
                )
            } else {
                q[i] == p[i]
            }
    }
}

/// Drops the members named `name`.
fn drop_member(o: JsonObject, name: &str) -> (r: JsonObject)
    ensures
        r@ == without_member(o@, name@),
{
    let ghost o0 = o@;
    let mut rest = o;
    let mut out: JsonObject = Vec::new();
    let mut k: usize = 0;
    let total: usize = rest.len();
    assert(o0.take(0) =~= Seq::<(String, JsonValue)>::empty());
    while rest.len() > 0
        invariant
            k + rest.len() == o0.len(),
            o0.len() == total,
            rest@ == o0.skip(k as int),
            out@ == without_member(o0.take(k as int), name@),
        decreases rest.len(),
    {
        let m = rest.remove(0);
        proof {
            assert(m == o0[k as int]);
            assert(o0.take(k + 1).drop_last() =~= o0.take(k as int));
            assert(o0.take(k + 1).last() == o0[k as int]);
            assert(rest@ =~= o0.skip(k + 1));
        }
        if !str_eq(m.0.as_str(), name) {
            out.push(m);
        }
        k += 1;
    }
    assert(o0.take(k as int) =~= o0);
    out
}

fn replay_path_name_exec(level: u8) -> (r: &'static str)
    requires
        1 <= level <= 3,
    ensures
        r@ == replay_path_name(level as nat),
{
    if level == 3 {
        "payment_rail_packet"
    } else if level == 2 {
        "data"
    } else {
        "rail_proof"
    }
}

/// Takes the rail session material reference out of `o`, `level` objects
/// down the path `payment_rail_packet.data.rail_proof`.
fn sanitize_at(level: u8, o: JsonObject) -> (r: JsonObject)
    requires
        level <= 3,
    ensures
        sanitized_at(level as nat, o@, r@),
    decreases level,
{
    if level == 0 {
        return drop_member(o, "rail_session_material_ref");
    }
    let name = replay_path_name_exec(level);
    let ghost o0 = o@;
    let mut rest = o;
    let mut out: JsonObject = Vec::new();
    let mut k: usize = 0;
    let total: usize = rest.len();
    while rest.len() > 0
        invariant
            1 <= level <= 3,
            name@ == replay_path_name(level as nat),
            k + rest.len() == o0.len(),
            o0.len() == total,
            rest@ == o0.skip(k as int),
            out.len() == k,
            forall|i: int|
                0 <= i < k ==> if o0[i].0@ == replay_path_name(level as nat) && o0[i].1 is Object {
                    (#[trigger] out@[i]).0 == o0[i].0 && out@[i].1 is Object && sanitized_at(
                        (level - 1) as nat,
                        o0[i].1->Object_0@,
                        out@[i].1->Object_0@,
                    )
                } else {
                    out@[i] == o0[i]
                },
        decreases rest.len(),
    {
        let m = rest.remove(0);
        proof {
            assert(m == o0[k as int]);
            assert(rest@ =~= o0.skip(k + 1));
        }
        let (key, value) = m;
        if str_eq(key.as_str(), name) {
            match value {
                JsonValue::Object(inner) => {
                    let cleaned = sanitize_at(level - 1, inner);
                    out.push((key, JsonValue::Object(cleaned)));
                },
                other => {
                    out.push((key, other));
                },
            }
        } else {
            out.push((key, value));
        }
        k += 1;
    }
    out
}

/// The member `(name, value)` holds the text `value`.
pub open spec fn member_is_text(m: (String, JsonValue), name: Seq<char>, value: Seq<char>) -> bool {
    &&& m.0@ == name
    &&& m.1 matches JsonValue::String(v) && v@ == value
}

/// The outputs of a sanitized payload `s` made safe to replay: `stdout`
/// replaced by the text `stdout`, then `stderr` empty and `status`
/// `success` where they are missing.
pub open spec fn safe_outputs_of(
    s: Seq<(String, JsonValue)>,
    r: Seq<(String, JsonValue)>,
    stdout: Seq<char>,
) -> bool {
    let t = without_member(s, "stdout"@);
    let n = t.len() as int;
    let adds_stderr = json_get(t, "stderr"@) is None;
    let adds_status = json_get(t, "status"@) is None;
    let m = if adds_stderr {
        n + 2
    } else {
        n + 1
    };
    &&& r.len() == if adds_status {
        m + 1
    } else {
        m
    }
    &&& r.subrange(0, n) == t
    &&& member_is_text(r[n], "stdout"@, stdout)
    &&& adds_stderr ==> member_is_text(r[n + 1], "stderr"@, seq![])
    &&& adds_status ==> member_is_text(r[m], "status"@, "success"@)
}

/// `r` is the replay-safe form of step outputs `o` whose replay payload
/// renders as `stdout`: the rail session material taken out, then
/// `safe_outputs_of`.
pub open spec fn replay_safe(
    o: Seq<(String, JsonValue)>,
    r: Seq<(String, JsonValue)>,
    stdout: Seq<char>,
) -> bool {
    exists|s: Seq<(String, JsonValue)>| sanitized_at(3, o, s) && safe_outputs_of(s, r, stdout)
}

/// The payload a replayed step prints on stdout: the step outputs with the
/// rail session material taken out and without `stdout`, `stderr` and
/// `status`. The caller renders it as JSON text for
/// `persist_payment_step_state`.
pub fn replay_stdout_payload(outputs: JsonObject) -> (r: JsonObject)
    ensures
        exists|s: Seq<(String, JsonValue)>|
            sanitized_at(3, outputs@, s) && r@ == without_member(
                without_member(without_member(s, "stdout"@), "stderr"@),
                "status"@,
            ),
{
    let safe = sanitize_at(3, outputs);
    let r = drop_member(drop_member(drop_member(safe, "stdout"), "stderr"), "status");
    r
}

/// The replay-safe form of step outputs whose replay payload renders as
/// `stdout`.
fn replay_safe_outputs(outputs: JsonObject, stdout: &str) -> (r: JsonObject)
    ensures
        replay_safe(outputs@, r@, stdout@),
{
    let safe = sanitize_at(3, outputs);
    let ghost s = safe@;
    let mut r = drop_member(safe, "stdout");
    let ghost t = r@;
    r.push((String::from_str("stdout"), JsonValue::String(String::from_str(stdout))));
    let ghost n = t.len() as int;
    let adds_stderr = !contains_key(&r, "stderr");
    proof {
        reveal_strlit("stdout");
        reveal_strlit("stderr");
        reveal_strlit("status");
        assert(r@[n].0@ == "stdout"@);
        assert("stdout"@[3] != "stderr"@[3]);
        assert("stdout"@[3] != "status"@[3]);
        assert("stderr"@[2] != "status"@[2]);
        lemma_json_get_push_other(t, r@[n], "stderr"@);
    }
    if adds_stderr {
        r.push((String::from_str("stderr"), JsonValue::String(String::new())));
    }
    let ghost r1 = r@;
    let adds_status = !contains_key(&r, "status");
    proof {
        lemma_json_get_push_other(t, r@[n], "status"@);
        if adds_stderr {
            assert(r1[n + 1].0@ == "stderr"@);
            assert(r1 == t.push(r1[n]).push(r1[n + 1]));
            lemma_json_get_push_other(t.push(r1[n]), r1[n + 1], "status"@);
        }
    }
    if adds_status {
        r.push((String::from_str("status"), JsonValue::String(String::from_str("success"))));
    }
    proof {
        assert(r@.subrange(0, n) =~= t);
        assert(safe_outputs_of(s, r@, stdout@));
    }
    r
}

/// A member of another name added at the end leaves what a name leads to
/// unchanged.
proof fn lemma_json_get_push_other(o: Seq<(String, JsonValue)>, m: (String, JsonValue), key: Seq<char>)
    requires
        m.0@ != key,
    ensures
        json_get(o.push(m), key) == json_get(o, key),
    decreases o.len(),
{
    if o.len() > 0 {
        assert(o.push(m)[0] == o[0]);
        assert(o.push(m).drop_first() =~= o.drop_first().push(m));
        lemma_json_get_push_other(o.drop_first(), m, key);
    } else {
        assert(o.push(m)[0] == m);
        assert(o.push(m).drop_first() =~= o);
    }
}

/// Copies an optional string.
fn copy_opt(value: &Option<String>) -> (r: Option<String>)
    ensures
        opt_text(r) == opt_text(*value),
{
    match value {
        Some(s) => Some(s.clone()),
        None => None,
    }
}

/// Persists a payment step: reads its rail packet from the step's outputs,
/// consumes the step's spend capability where the rail was touched, settles
/// the payment where the rail gave a proof and the key is not settled yet
/// (only with the supervisor's matching attestation; without one, or with
/// one that disagrees, the step stops there, its capability consumed), and
/// records the rail mutation. `replay_stdout` is the JSON text of
/// `replay_stdout_payload` of the same outputs.
pub fn persist_payment_step_state(
    state: &mut PaymentState,
    input: &PaymentStepStateInput,
    outputs: JsonObject,
    receipt: &PaymentStepReceipt,
    supervisor_proof: Option<&PaymentSupervisorProof>,
    replay_stdout: &str,
) -> (r: Result<(), PaymentStateError>)
    requires
        old(state).wf(),
    ensures
        final(state).wf(),
        match rail_packet_spec(outputs@) {
            Err(f) => r matches Err(PaymentStateError::PaymentPacket(e)) && fault(e) == f
                && final(state)@ == old(state)@,
            Ok(packet) => {
                let key = index_key_of(input@.idempotency_key);
                let consumed = consume_effect(old(state)@, input@, packet, receipt@.0);
                if !settles_new(old(state)@, input@, packet) {
                    r is Ok && final(state)@ == step_effect(
                        old(state)@,
                        input@,
                        packet,
                        receipt@.0,
                        None,
                    )
                } else {
                    match supervisor_proof {
                        None => r matches Err(
                            PaymentStateError::MissingSupervisorProof { proof_ref },
                        ) && packet_proof_ref(packet) == Some(proof_ref@) && final(state)@
                            == consumed,
                        Some(proof) => match step_proof_mismatch(
                            *proof,
                            input@,
                            receipt@,
                            packet_proof_ref(packet)->0,
                        ) {
                            Some(field) => r matches Err(
                                PaymentStateError::SupervisorProof { message },
                            ) && message@ == field && final(state)@ == consumed,
                            None => r is Ok && final(state)@.idempotency.contains_key(key)
                                && replay_safe(
                                outputs@,
                                final(state)@.idempotency[key].outputs,
                                replay_stdout@,
                            ) && final(state)@ == step_effect(
                                old(state)@,
                                input@,
                                packet,
                                receipt@.0,
                                Some(
                                    settled_entry(
                                        input@,
                                        packet,
                                        receipt@,
                                        *proof,
                                        final(state)@.idempotency[key].outputs,
                                    ),
                                ),
                            ),
                        },
                    }
                }
            },
        },
{
    let rail_packet = match read_payment_rail_packet(&outputs) {
        Ok(p) => p,
        Err(e) => return Err(PaymentStateError::PaymentPacket(e)),
    };
    let ghost packet_view = match &rail_packet {
        Some(p) => Some(p@),
        None => None::<RailPacketView>,
    };
    let ghost start = state@;
    let recovery_state = payment_recovery_state(rail_packet.as_ref());
    let result = match &rail_packet {
        Some(p) => match &p.result {
            Some(result) => Some(result),
            None => None,
        },
        None => None,
    };
    let rail_touched = match result {
        Some(result) => result.status.is_some(),
        None => false,
    };
    let amount_minor = match result {
        Some(result) => match result.amount_minor {
            Some(v) => v,
            None => input.amount_minor,
        },
        None => input.amount_minor,
    };
    let currency = match result {
        Some(result) => match &result.currency {
            Some(c) => c.clone(),
            None => input.currency.clone(),
        },
        None => input.currency.clone(),
    };
    if rail_touched && state.lookup_consumed_spend_capability(
        input.spend_capability_ref.as_str(),
    ).is_none() {
        let consumed = state.consume_spend_capability(
            SpendCapabilityConsumption {
                capability_ref: input.spend_capability_ref.clone(),
                idempotency_key: input.idempotency_key.duplicate(),
                receipt_ref: Some(receipt.id.clone()),
                recovery_state: Some(recovery_state),
            },
        );
        assert(consumed is Ok);
    }
    assert(state@ == consume_effect(start, input@, packet_view, receipt@.0));
    let proof_ref = match &rail_packet {
        Some(p) => match &p.proof {
            Some(proof) => Some(proof.proof_ref.clone()),
            None => None,
        },
        None => None,
    };
    let ghost mut settled: Option<IdempotencyEntryView> = None;
    match &proof_ref {
        Some(proof_ref) => {
            if state.lookup_idempotency(&input.idempotency_key).is_none() {
                let attested = match supervisor_proof {
                    None => {
                        return Err(
                            PaymentStateError::MissingSupervisorProof {
                                proof_ref: proof_ref.clone(),
                            },
                        );
                    },
                    Some(p) => p,
                };
                match validate_step_supervisor_proof(attested, input, receipt, proof_ref.as_str()) {
                    Ok(()) => {},
                    Err(e) => return Err(e),
                }
                let safe_outputs = replay_safe_outputs(outputs, replay_stdout);
                let entry = PaymentIdempotencyEntry {
                    idempotency_key: input.idempotency_key.duplicate(),
                    receipt_ref: receipt.id.clone(),
                    receipt_created_at: receipt.created_at.clone(),
                    receipt_digest: receipt.digest.clone(),
                    rail_proof_ref: proof_ref.clone(),
                    supervisor_proof: copy_supervisor_proof(attested),
                    amount_minor,
                    currency: currency.clone(),
                    outputs: safe_outputs,
                };
                proof {
                    settled = Some(entry@);
                    assert(entry@ == settled_entry(
                        input@,
                        packet_view,
                        receipt@,
                        *attested,
                        entry@.outputs,
                    ));
                }
                let recorded = state.record_idempotency(entry);
                assert(recorded is Ok);
            }
        },
        None => {},
    }
    if rail_touched && state.lookup_rail_mutation(&input.idempotency_key).is_none() {
        let rail = match result {
            Some(result) => match &result.rail {
                Some(v) => v.clone(),
                None => input.rail.clone(),
            },
            None => input.rail.clone(),
        };
        let counterparty = match result {
            Some(result) => match &result.counterparty {
                Some(v) => v.clone(),
                None => input.counterparty.clone(),
            },
            None => input.counterparty.clone(),
        };
        let recorded = state.record_rail_mutation(
            RailMutation {
                idempotency_key: input.idempotency_key.duplicate(),
                rail,
                amount_minor,
                currency,
                counterparty,
                status: rail_mutation_status(&recovery_state),
                proof_ref: copy_opt(&proof_ref),
                recovery_state,
            },
        );
        assert(recorded is Ok);
    }
    proof {
        let expected = step_effect(start, input@, packet_view, receipt@.0, settled);
        assert(state@.consumed =~= expected.consumed);
        assert(state@.idempotency =~= expected.idempotency);
        assert(state@.mutations =~= expected.mutations);
    }
    Ok(())
}

/// Where the payment state lives: `RUNX_PAYMENT_STATE_PATH`, or else
/// `payment-state.json` in `RUNX_RECEIPT_DIR`, each resolved against `cwd`
/// and ignored where blank; `None` where neither is set.
pub open spec fn payment_state_path_spec(env: Map<Seq<char>, Seq<char>>, cwd: Seq<char>) -> Option<
    Seq<char>,
> {
    match env_path_spec(env, RUNX_PAYMENT_STATE_PATH_ENV@) {
        Some(path) => Some(path_join(cwd, path)),
        None => match env_path_spec(env, RUNX_RECEIPT_DIR_ENV@) {
            Some(dir) => Some(path_join(path_join(cwd, dir), PAYMENT_STATE_FILE_NAME@)),
            None => None,
        },
    }
}

/// Where the payment state lives, if anywhere.
pub fn resolve_payment_state_path(env: &EnvVars, cwd: &str) -> (r: Option<String>)
    requires
        env.wf(),
    ensures
        match r {
            Some(path) => payment_state_path_spec(env@, cwd@) == Some(path@),
            None => payment_state_path_spec(env@, cwd@) is None,
        },
{
    match env.non_blank(RUNX_PAYMENT_STATE_PATH_ENV) {
        Some(path) => Some(join_path(cwd, path.as_str())),
        None => match env.non_blank(RUNX_RECEIPT_DIR_ENV) {
            Some(dir) => {
                let base = join_path(cwd, dir.as_str());
                Some(join_path(base.as_str(), PAYMENT_STATE_FILE_NAME))
            },
            None => None,
        },
    }
}

/// Whether a spend capability was consumed: `false` where no payment state
/// is configured (`None`), the loading error where it could not be loaded.
pub fn consumed_spend_capability_recorded(
    state: Option<Result<PaymentState, PaymentStateError>>,
    capability_ref: &str,
) -> (r: Result<bool, PaymentStateError>)
    requires
        state matches Some(Ok(s)) ==> s.wf(),
    ensures
        match state {
            None => r == Ok::<bool, PaymentStateError>(false),
            Some(Err(e)) => r == Err::<bool, PaymentStateError>(e),
            Some(Ok(s)) => r == Ok::<bool, PaymentStateError>(
                s@.consumed.contains_key(capability_ref@),
            ),
        },
{
    match state {
        None => Ok(false),
        Some(Err(e)) => Err(e),
        Some(Ok(s)) => Ok(s.lookup_consumed_spend_capability(capability_ref).is_some()),
    }
}

/// The rail mutation of a payment: `None` where no payment state is
/// configured, the loading error where it could not be loaded.
pub fn lookup_payment_rail_mutation(
    state: Option<Result<PaymentState, PaymentStateError>>,
    key: &PaymentIdempotencyKey,
) -> (r: Result<Option<RailMutation>, PaymentStateError>)
    requires
        state matches Some(Ok(s)) ==> s.wf(),
    ensures
        match state {
            None => r matches Ok(None),
            Some(Err(e)) => r == Err::<Option<RailMutation>, PaymentStateError>(e),
            Some(Ok(s)) => match r {
                Ok(Some(m)) => s@.mutations.contains_key(index_key_of(key@))
                    && s@.mutations[index_key_of(key@)] == m@,
                Ok(None) => !s@.mutations.contains_key(index_key_of(key@)),
                Err(_) => false,
            },
        },
{
    match state {
        None => Ok(None),
        Some(Err(e)) => Err(e),
        Some(Ok(s)) => match s.lookup_rail_mutation(key) {
            Some(m) => Ok(
                Some(
                    RailMutation {
                        idempotency_key: m.idempotency_key.duplicate(),
                        rail: m.rail.clone(),
                        amount_minor: m.amount_minor,
                        currency: m.currency.clone(),
                        counterparty: m.counterparty.clone(),
                        status: m.status,
                        proof_ref: copy_opt(&m.proof_ref),
                        recovery_state: m.recovery_state,
                    },
                ),
            ),
            None => Ok(None),
        },
    }
}


/// Escalates the rail mutation of a payment in the payment state: nothing
/// where no payment state is configured (`None`) or it holds no mutation of
/// the payment; the loading error where it could not be loaded; otherwise the
/// escalated mutation together with the state to store.
pub fn escalate_payment_rail_mutation(
    state: Option<Result<PaymentState, PaymentStateError>>,
    key: &PaymentIdempotencyKey,
) -> (r: Result<Option<(RailMutation, PaymentState)>, PaymentStateError>)
    requires
        state matches Some(Ok(s)) ==> s.wf(),
    ensures
        match state {
            None => r matches Ok(None),
            Some(Err(e)) => r == Err::<Option<(RailMutation, PaymentState)>, PaymentStateError>(e),
            Some(Ok(s)) => if s@.mutations.contains_key(index_key_of(key@)) {
                r matches Ok(Some((m, t))) && t.wf() && m@ == escalated(
                    s@.mutations[index_key_of(key@)],
                ) && t@ == (PaymentStateView {
                    mutations: s@.mutations.insert(index_key_of(key@), m@),
                    ..s@
                })
            } else {
                r matches Ok(None)
            },
        },
{
    match state {
        None => Ok(None),
        Some(Err(e)) => Err(e),
        Some(Ok(s)) => {
            let mut s = s;
            match s.escalate_rail_mutation(key) {
                Some(m) => Ok(Some((m, s))),
                None => Ok(None),
            }
        },
    }
}

} // verus!
