//! The payment packets that payment steps emit in their outputs: a
//! reservation, a rail call with its result and proof, a refusal, and a paid
//! tool's result. Each is read from `<packet>.data` of the step outputs.
use vstd::prelude::*;

use crate::json::{
    JsonValue, bool_field, contains_key, json_bool_field, json_get, json_member_object,
    json_string_field, json_u64_field, member_object, string_field, u64_field,
};

verus! {

/// A step's outputs: a JSON object.
pub type JsonObject = Vec<(String, JsonValue)>;

/// A reserved payment: its amount, rail, counterparty, operation and the spend
/// capability that covers it.
#[derive(Clone, Debug, PartialEq, Eq)]
pub struct PaymentReservationPacket {
    pub amount_minor: u64,
    pub currency: String,
    pub rail: String,
    pub counterparty: String,
    pub operation: String,
    pub idempotency_key: String,
    pub spend_capability_ref: String,
}

/// A rail call: what the rail answered, its proof, and how to recover.
#[derive(Clone, Debug, PartialEq, Eq)]
pub struct PaymentRailPacket {
    pub result: Option<PaymentRailResult>,
    pub proof: Option<PaymentRailProof>,
    pub recovery_status: Option<String>,
}

/// What a rail answered.
#[derive(Clone, Debug, PartialEq, Eq)]
pub struct PaymentRailResult {
    pub status: Option<String>,
    pub rail: Option<String>,
    pub amount_minor: Option<u64>,
    pub currency: Option<String>,
    pub counterparty: Option<String>,
}

/// The proof a rail gave of a payment.
#[derive(Clone, Debug, PartialEq, Eq)]
pub struct PaymentRailProof {
    pub proof_ref: String,
    pub idempotency_key: String,
}

/// A refused payment.
#[derive(Clone, Debug, PartialEq, Eq)]
pub struct PaymentRefusalPacket {
    pub reason_code: String,
    pub rail_call_performed: bool,
    pub ledger_spend_recorded: bool,
}

/// A paid tool's result.
#[derive(Clone, Debug, PartialEq, Eq)]
pub struct PaidToolPaymentPacket {
    pub payment_proof_ref: String,
}

/// Why a packet could not be read: a field that is missing, or holds a value
/// of the wrong kind.
#[derive(Clone, Debug, PartialEq, Eq)]
pub enum PaymentPacketError {
    MissingField { field: &'static str },
    InvalidField { field: &'static str },
}

/// A packet error as text: `true` for a missing field, and the field's name.
pub open spec fn fault(e: PaymentPacketError) -> (bool, Seq<char>) {
    match e {
        PaymentPacketError::MissingField { field } => (true, field@),
        PaymentPacketError::InvalidField { field } => (false, field@),
    }
}

// ---------------------------------------------------------------------------
// Fields
// ---------------------------------------------------------------------------

/// The object that member `key` of an optional object holds.
pub open spec fn then_member(object: Option<Seq<(String, JsonValue)>>, key: Seq<char>) -> Option<
    Seq<(String, JsonValue)>,
> {
    match object {
        Some(o) => json_member_object(o, key),
        None => None,
    }
}

fn then_member_exec<'a>(object: Option<&'a JsonObject>, key: &str) -> (r: Option<&'a JsonObject>)
    ensures
        match r {
            Some(o) => then_member(
                match object {
                    Some(x) => Some(x@),
                    None => None,
                },
                key@,
            ) == Some(o@),
            None => then_member(
                match object {
                    Some(x) => Some(x@),
                    None => None,
                },
                key@,
            ) is None,
        },
{
    match object {
        Some(o) => member_object(o, key),
        None => None,
    }
}

/// `<packet>.data` of the outputs.
pub open spec fn packet_data(outputs: Seq<(String, JsonValue)>, packet: Seq<char>) -> Option<
    Seq<(String, JsonValue)>,
> {
    then_member(json_member_object(outputs, packet), "data"@)
}

fn packet_data_exec<'a>(outputs: &'a JsonObject, packet: &str) -> (r: Option<&'a JsonObject>)
    ensures
        match r {
            Some(o) => packet_data(outputs@, packet@) == Some(o@),
            None => packet_data(outputs@, packet@) is None,
        },
{
    then_member_exec(member_object(outputs, packet), "data")
}

/// A non-empty string that must be there.
pub open spec fn required_string_spec(
    object: Seq<(String, JsonValue)>,
    key: Seq<char>,
    field: Seq<char>,
) -> Result<Seq<char>, (bool, Seq<char>)> {
    match json_string_field(object, key) {
        Some(s) => Ok(s),
        None => Err((true, field)),
    }
}

fn required_string(object: &JsonObject, key: &str, field: &'static str) -> (r: Result<
    String,
    PaymentPacketError,
>)
    ensures
        match (r, required_string_spec(object@, key@, field@)) {
            (Ok(s), Ok(t)) => s@ == t,
            (Err(e), Err(f)) => fault(e) == f,
            _ => false,
        },
{
    match string_field(object, key) {
        Some(s) => Ok(String::from_str(s)),
        None => Err(PaymentPacketError::MissingField { field }),
    }
}

/// A `u64` that must be there: a member of another kind is invalid.
pub open spec fn required_u64_spec(
    object: Seq<(String, JsonValue)>,
    key: Seq<char>,
    field: Seq<char>,
) -> Result<u64, (bool, Seq<char>)> {
    match json_u64_field(object, key) {
        Some(v) => Ok(v),
        None => if json_get(object, key) is Some {
            Err((false, field))
        } else {
            Err((true, field))
        },
    }
}

fn required_u64(object: &JsonObject, key: &str, field: &'static str) -> (r: Result<
    u64,
    PaymentPacketError,
>)
    ensures
        match (r, required_u64_spec(object@, key@, field@)) {
            (Ok(v), Ok(w)) => v == w,
            (Err(e), Err(f)) => fault(e) == f,
            _ => false,
        },
{
    match u64_field(object, key) {
        Some(value) => Ok(value),
        None => {
            if contains_key(object, key) {
                Err(PaymentPacketError::InvalidField { field })
            } else {
                Err(PaymentPacketError::MissingField { field })
            }
        },
    }
}

/// A `u64` that may be absent: a member of another kind is invalid.
pub open spec fn optional_u64_spec(
    object: Seq<(String, JsonValue)>,
    key: Seq<char>,
    field: Seq<char>,
) -> Result<Option<u64>, (bool, Seq<char>)> {
    match json_u64_field(object, key) {
        Some(v) => Ok(Some(v)),
        None => if json_get(object, key) is Some {
            Err((false, field))
        } else {
            Ok(None)
        },
    }
}

fn optional_u64(object: &JsonObject, key: &str, field: &'static str) -> (r: Result<
    Option<u64>,
    PaymentPacketError,
>)
    ensures
        match (r, optional_u64_spec(object@, key@, field@)) {
            (Ok(v), Ok(w)) => v == w,
            (Err(e), Err(f)) => fault(e) == f,
            _ => false,
        },
{
    match u64_field(object, key) {
        Some(value) => Ok(Some(value)),
        None => {
            if contains_key(object, key) {
                Err(PaymentPacketError::InvalidField { field })
            } else {
                Ok(None)
            }
        },
    }
}

/// An optional string as text.
pub open spec fn opt_text(value: Option<String>) -> Option<Seq<char>> {
    match value {
        Some(s) => Some(s@),
        None => None,
    }
}

fn owned(value: Option<&str>) -> (r: Option<String>)
    ensures
        opt_text(r) == match value {
            Some(s) => Some(s@),
            None => None::<Seq<char>>,
        },
{
    match value {
        Some(s) => Some(String::from_str(s)),
        None => None,
    }
}

// ---------------------------------------------------------------------------
// Reservations
// ---------------------------------------------------------------------------

/// A reservation as text.
pub struct ReservationView {
    pub amount_minor: u64,
    pub currency: Seq<char>,
    pub rail: Seq<char>,
    pub counterparty: Seq<char>,
    pub operation: Seq<char>,
    pub idempotency_key: Seq<char>,
    pub spend_capability_ref: Seq<char>,
}

impl View for PaymentReservationPacket {
    type V = ReservationView;

    open spec fn view(&self) -> ReservationView {
        ReservationView {
            amount_minor: self.amount_minor,
            currency: self.currency@,
            rail: self.rail@,
            counterparty: self.counterparty@,
            operation: self.operation@,
            idempotency_key: self.idempotency_key@,
            spend_capability_ref: self.spend_capability_ref@,
        }
    }
}

/// The spend-capability binding of a reservation: under the reserved
/// authority, or at the top of the packet.
pub open spec fn reservation_binding(data: Seq<(String, JsonValue)>) -> Option<
    Seq<(String, JsonValue)>,
> {
    match then_member(
        json_member_object(data, "reserved_payment_authority"@),
        "spend_capability_binding"@,
    ) {
        Some(b) => Some(b),
        None => json_member_object(data, "spend_capability_binding"@),
    }
}

/// The payment bounds of a reservation: the child authority's, or else the
/// parent authority's.
pub open spec fn reservation_bounds(data: Seq<(String, JsonValue)>) -> Option<
    Seq<(String, JsonValue)>,
> {
    let authority = json_member_object(data, "reserved_payment_authority"@);
    match then_member(then_member(then_member(authority, "child_authority"@), "bounds"@), "payment"@) {
        Some(b) => Some(b),
        None => then_member(
            then_member(then_member(authority, "parent_authority"@), "bounds"@),
            "payment"@,
        ),
    }
}

/// The reservation that the outputs hold: `Ok(None)` where they hold no
/// reservation packet or it has no binding; fields are read in order and the
/// first that fails is reported.
pub open spec fn reservation_spec(outputs: Seq<(String, JsonValue)>) -> Result<
    Option<ReservationView>,
    (bool, Seq<char>),
> {
    match packet_data(outputs, "payment_reservation_packet"@) {
        None => Ok(None),
        Some(data) => match reservation_binding(data) {
            None => Ok(None),
            Some(binding) => {
                let operation = match reservation_bounds(data) {
                    Some(bounds) => json_string_field(bounds, "operation"@),
                    None => None,
                };
                let capability = match json_member_object(data, "spend_capability_ref"@) {
                    Some(reference) => json_string_field(reference, "uri"@),
                    None => None,
                };
                match required_u64_spec(
                    binding,
                    "amount_minor"@,
                    "spend_capability_binding.amount_minor"@,
                ) {
                    Err(f) => Err(f),
                    Ok(amount_minor) => match required_string_spec(
                        binding,
                        "currency"@,
                        "spend_capability_binding.currency"@,
                    ) {
                        Err(f) => Err(f),
                        Ok(currency) => match required_string_spec(
                            binding,
                            "rail"@,
                            "spend_capability_binding.rail"@,
                        ) {
                            Err(f) => Err(f),
                            Ok(rail) => match required_string_spec(
                                binding,
                                "counterparty"@,
                                "spend_capability_binding.counterparty"@,
                            ) {
                                Err(f) => Err(f),
                                Ok(counterparty) => match operation {
                                    None => Err(
                                        (true, "reserved_payment_authority.*.bounds.payment.operation"@),
                                    ),
                                    Some(operation) => match required_string_spec(
                                        binding,
                                        "idempotency_key"@,
                                        "spend_capability_binding.idempotency_key"@,
                                    ) {
                                        Err(f) => Err(f),
                                        Ok(idempotency_key) => match capability {
                                            None => Err((true, "spend_capability_ref.uri"@)),
                                            Some(spend_capability_ref) => Ok(
                                                Some(
                                                    ReservationView {
                                                        amount_minor,
                                                        currency,
                                                        rail,
                                                        counterparty,
                                                        operation,
                                                        idempotency_key,
                                                        spend_capability_ref,
                                                    },
                                                ),
                                            ),
                                        },
                                    },
                                },
                            },
                        },
                    },
                }
            },
        },
    }
}

/// Reads the reservation packet of a step's outputs.
pub fn read_payment_reservation_packet(outputs: &JsonObject) -> (r: Result<
    Option<PaymentReservationPacket>,
    PaymentPacketError,
>)
    ensures
        match (r, reservation_spec(outputs@)) {
            (Ok(Some(p)), Ok(Some(v))) => p@ == v,
            (Ok(None), Ok(None)) => true,
            (Err(e), Err(f)) => fault(e) == f,
            _ => false,
        },
{
    let data = match packet_data_exec(outputs, "payment_reservation_packet") {
        Some(data) => data,
        None => return Ok(None),
    };
    let binding = match then_member_exec(
        member_object(data, "reserved_payment_authority"),
        "spend_capability_binding",
    ) {
        Some(b) => b,
        None => match member_object(data, "spend_capability_binding") {
            Some(b) => b,
            None => return Ok(None),
        },
    };
    let authority = member_object(data, "reserved_payment_authority");
    let bounds = match then_member_exec(
        then_member_exec(then_member_exec(authority, "child_authority"), "bounds"),
        "payment",
    ) {
        Some(b) => Some(b),
        None => then_member_exec(
            then_member_exec(then_member_exec(authority, "parent_authority"), "bounds"),
            "payment",
        ),
    };
    let amount_minor = match required_u64(
        binding,
        "amount_minor",
        "spend_capability_binding.amount_minor",
    ) {
        Ok(v) => v,
        Err(e) => return Err(e),
    };
    let currency = match required_string(binding, "currency", "spend_capability_binding.currency") {
        Ok(v) => v,
        Err(e) => return Err(e),
    };
    let rail = match required_string(binding, "rail", "spend_capability_binding.rail") {
        Ok(v) => v,
        Err(e) => return Err(e),
    };
    let counterparty = match required_string(
        binding,
        "counterparty",
        "spend_capability_binding.counterparty",
    ) {
        Ok(v) => v,
        Err(e) => return Err(e),
    };
    let operation = match bounds {
        Some(b) => string_field(b, "operation"),
        None => None,
    };
    let operation = match operation {
        Some(v) => String::from_str(v),
        None => {
            return Err(
                PaymentPacketError::MissingField {
                    field: "reserved_payment_authority.*.bounds.payment.operation",
                },
            )
        },
    };
    let idempotency_key = match required_string(
        binding,
        "idempotency_key",
        "spend_capability_binding.idempotency_key",
    ) {
        Ok(v) => v,
        Err(e) => return Err(e),
    };
    let capability = match member_object(data, "spend_capability_ref") {
        Some(reference) => string_field(reference, "uri"),
        None => None,
    };
    let spend_capability_ref = match capability {
        Some(v) => String::from_str(v),
        None => return Err(PaymentPacketError::MissingField { field: "spend_capability_ref.uri" }),
    };
    Ok(
        Some(
            PaymentReservationPacket {
                amount_minor,
                currency,
                rail,
                counterparty,
                operation,
                idempotency_key,
                spend_capability_ref,
            },
        ),
    )
}

// ---------------------------------------------------------------------------
// Rail calls
// ---------------------------------------------------------------------------

/// What a rail answered, as text.
pub struct RailResultView {
    pub status: Option<Seq<char>>,
    pub rail: Option<Seq<char>>,
    pub amount_minor: Option<u64>,
    pub currency: Option<Seq<char>>,
    pub counterparty: Option<Seq<char>>,
}

/// A rail call as text.
pub struct RailPacketView {
    pub result: Option<RailResultView>,
    pub proof: Option<(Seq<char>, Seq<char>)>,
    pub recovery_status: Option<Seq<char>>,
}

impl View for PaymentRailPacket {
    type V = RailPacketView;

    open spec fn view(&self) -> RailPacketView {
        RailPacketView {
            result: match self.result {
                Some(r) => Some(
                    RailResultView {
                        status: opt_text(r.status),
                        rail: opt_text(r.rail),
                        amount_minor: r.amount_minor,
                        currency: opt_text(r.currency),
                        counterparty: opt_text(r.counterparty),
                    },
                ),
                None => None,
            },
            proof: match self.proof {
                Some(p) => Some((p.proof_ref@, p.idempotency_key@)),
                None => None,
            },
            recovery_status: opt_text(self.recovery_status),
        }
    }
}

/// The rail call that the outputs hold: its result, where present, is read
/// first, then its proof, whose two fields must both be there.
pub open spec fn rail_packet_spec(outputs: Seq<(String, JsonValue)>) -> Result<
    Option<RailPacketView>,
    (bool, Seq<char>),
> {
    match packet_data(outputs, "payment_rail_packet"@) {
        None => Ok(None),
        Some(data) => {
            let result: Result<Option<RailResultView>, (bool, Seq<char>)> = match json_member_object(
                data,
                "rail_result"@,
            ) {
                None => Ok(None),
                Some(r) => match optional_u64_spec(r, "amount_minor"@, "rail_result.amount_minor"@) {
                    Err(f) => Err(f),
                    Ok(amount_minor) => Ok(
                        Some(
                            RailResultView {
                                status: json_string_field(r, "status"@),
                                rail: json_string_field(r, "rail"@),
                                amount_minor,
                                currency: json_string_field(r, "currency"@),
                                counterparty: json_string_field(r, "counterparty"@),
                            },
                        ),
                    ),
                },
            };
            let proof: Result<Option<(Seq<char>, Seq<char>)>, (bool, Seq<char>)> = match json_member_object(
                data,
                "rail_proof"@,
            ) {
                None => Ok(None),
                Some(p) => match required_string_spec(p, "proof_ref"@, "rail_proof.proof_ref"@) {
                    Err(f) => Err(f),
                    Ok(proof_ref) => match required_string_spec(
                        p,
                        "idempotency_key"@,
                        "rail_proof.idempotency_key"@,
                    ) {
                        Err(f) => Err(f),
                        Ok(key) => Ok(Some((proof_ref, key))),
                    },
                },
            };
            match (result, proof) {
                (Err(f), _) => Err(f),
                (Ok(_), Err(f)) => Err(f),
                (Ok(result), Ok(proof)) => Ok(
                    Some(
                        RailPacketView {
                            result,
                            proof,
                            recovery_status: match json_member_object(data, "recovery_hint"@) {
                                Some(hint) => json_string_field(hint, "status"@),
                                None => None,
                            },
                        },
                    ),
                ),
            }
        },
    }
}

/// Reads the rail packet of a step's outputs.
pub fn read_payment_rail_packet(outputs: &JsonObject) -> (r: Result<
    Option<PaymentRailPacket>,
    PaymentPacketError,
>)
    ensures
        match (r, rail_packet_spec(outputs@)) {
            (Ok(Some(p)), Ok(Some(v))) => p@ == v,
            (Ok(None), Ok(None)) => true,
            (Err(e), Err(f)) => fault(e) == f,
            _ => false,
        },
{
    let data = match packet_data_exec(outputs, "payment_rail_packet") {
        Some(data) => data,
        None => return Ok(None),
    };
    let result = match member_object(data, "rail_result") {
        None => None,
        Some(r) => {
            let amount_minor = match optional_u64(r, "amount_minor", "rail_result.amount_minor") {
                Ok(v) => v,
                Err(e) => return Err(e),
            };
            Some(
                PaymentRailResult {
                    status: owned(string_field(r, "status")),
                    rail: owned(string_field(r, "rail")),
                    amount_minor,
                    currency: owned(string_field(r, "currency")),
                    counterparty: owned(string_field(r, "counterparty")),
                },
            )
        },
    };
    let proof = match member_object(data, "rail_proof") {
        None => None,
        Some(p) => {
            let proof_ref = match required_string(p, "proof_ref", "rail_proof.proof_ref") {
                Ok(v) => v,
                Err(e) => return Err(e),
            };
            let idempotency_key = match required_string(
                p,
                "idempotency_key",
                "rail_proof.idempotency_key",
            ) {
                Ok(v) => v,
                Err(e) => return Err(e),
            };
            Some(PaymentRailProof { proof_ref, idempotency_key })
        },
    };
    let recovery_status = match member_object(data, "recovery_hint") {
        Some(hint) => owned(string_field(hint, "status")),
        None => None,
    };
    Ok(Some(PaymentRailPacket { result, proof, recovery_status }))
}

// ---------------------------------------------------------------------------
// Refusals and paid tools
// ---------------------------------------------------------------------------

/// The refusal that the outputs hold: its own packet, or the one inside a
/// reservation packet; the flags default to `false`.
pub open spec fn refusal_spec(outputs: Seq<(String, JsonValue)>) -> Result<
    Option<(Seq<char>, bool, bool)>,
    (bool, Seq<char>),
> {
    let refusal = match packet_data(outputs, "payment_refusal_packet"@) {
        Some(r) => Some(r),
        None => then_member(
            packet_data(outputs, "payment_reservation_packet"@),
            "payment_refusal_packet"@,
        ),
    };
    match refusal {
        None => Ok(None),
        Some(r) => match required_string_spec(
            r,
            "reason_code"@,
            "payment_refusal_packet.reason_code"@,
        ) {
            Err(f) => Err(f),
            Ok(reason_code) => Ok(
                Some(
                    (
                        reason_code,
                        match json_bool_field(r, "rail_call_performed"@) {
                            Some(b) => b,
                            None => false,
                        },
                        match json_bool_field(r, "ledger_spend_recorded"@) {
                            Some(b) => b,
                            None => false,
                        },
                    ),
                ),
            ),
        },
    }
}

/// Reads the refusal packet of a step's outputs.
pub fn read_payment_refusal_packet(outputs: &JsonObject) -> (r: Result<
    Option<PaymentRefusalPacket>,
    PaymentPacketError,
>)
    ensures
        match (r, refusal_spec(outputs@)) {
            (Ok(Some(p)), Ok(Some(v))) => (p.reason_code@, p.rail_call_performed, p.ledger_spend_recorded)
                == v,
            (Ok(None), Ok(None)) => true,
            (Err(e), Err(f)) => fault(e) == f,
            _ => false,
        },
{
    let refusal = match packet_data_exec(outputs, "payment_refusal_packet") {
        Some(r) => Some(r),
        None => then_member_exec(
            packet_data_exec(outputs, "payment_reservation_packet"),
            "payment_refusal_packet",
        ),
    };
    let refusal = match refusal {
        Some(r) => r,
        None => return Ok(None),
    };
    let reason_code = match required_string(
        refusal,
        "reason_code",
        "payment_refusal_packet.reason_code",
    ) {
        Ok(v) => v,
        Err(e) => return Err(e),
    };
    let rail_call_performed = match bool_field(refusal, "rail_call_performed") {
        Some(b) => b,
        None => false,
    };
    let ledger_spend_recorded = match bool_field(refusal, "ledger_spend_recorded") {
        Some(b) => b,
        None => false,
    };
    Ok(Some(PaymentRefusalPacket { reason_code, rail_call_performed, ledger_spend_recorded }))
}

/// The payment proof of a paid tool's result in the outputs.
pub open spec fn paid_tool_spec(outputs: Seq<(String, JsonValue)>) -> Result<
    Option<Seq<char>>,
    (bool, Seq<char>),
> {
    match json_member_object(outputs, "paid_echo_result"@) {
        None => Ok(None),
        Some(result) => match required_string_spec(
            result,
            "payment_proof_ref"@,
            "paid_echo_result.payment_proof_ref"@,
        ) {
            Err(f) => Err(f),
            Ok(proof_ref) => Ok(Some(proof_ref)),
        },
    }
}

/// Reads the paid tool result of a step's outputs.
pub fn read_paid_tool_packet(outputs: &JsonObject) -> (r: Result<
    Option<PaidToolPaymentPacket>,
    PaymentPacketError,
>)
    ensures
        match (r, paid_tool_spec(outputs@)) {
            (Ok(Some(p)), Ok(Some(v))) => p.payment_proof_ref@ == v,
            (Ok(None), Ok(None)) => true,
            (Err(e), Err(f)) => fault(e) == f,
            _ => false,
        },
{
    let result = match member_object(outputs, "paid_echo_result") {
        Some(result) => result,
        None => return Ok(None),
    };
    match required_string(result, "payment_proof_ref", "paid_echo_result.payment_proof_ref") {
        Ok(payment_proof_ref) => Ok(Some(PaidToolPaymentPacket { payment_proof_ref })),
        Err(e) => Err(e),
    }
}

} // verus!
