//! Payment authority: when a child harness may call a payment rail under
//! the authority its parent attenuated to it, and when the rail call may
//! count as a success.
use vstd::prelude::*;

use crate::target_runner::{same_reference, same_reference_spec, Reference};
use crate::text::{str_eq, strings_contain, text_views};

verus! {

/// The payment bounds of an authority term.
#[derive(Clone, Debug)]
pub struct PaymentAuthorityBounds {
    pub receipt_before_success: bool,
    pub idempotency_required: bool,
    pub single_use_spend: bool,
    /// The credential form is a single-use spend capability.
    pub single_use_credential: bool,
    pub counterparty: Option<String>,
    pub max_per_call_minor: Option<u64>,
    pub currency: String,
    pub rails: Vec<String>,
}

/// An authority term as payment authority reads it: its id, whether it
/// grants the spend verb, whether it holds the single-use spend capability,
/// and its payment bounds.
#[derive(Clone, Debug)]
pub struct AuthorityTerm {
    pub term_id: String,
    pub spends: bool,
    pub single_use_spend_capability: bool,
    pub payment: Option<PaymentAuthorityBounds>,
}

#[derive(Clone, Copy, Debug, PartialEq, Eq, Structural)]
pub enum DecisionChoice {
    Open,
    Continue,
    SpawnChild,
    Close,
    Defer,
    Decline,
}

/// A decision, as payment authority reads it.
#[derive(Clone, Debug)]
pub struct Decision {
    pub decision_id: String,
    pub choice: DecisionChoice,
    pub selected_act_id: Option<String>,
    pub selected_harness_ref: Option<Reference>,
}

/// What a single-use spend capability was bound to when it was issued.
#[derive(Clone, Debug)]
pub struct PaymentSpendCapabilityBinding {
    pub child_harness_ref: Reference,
    pub act_id: String,
    pub reservation_decision_id: String,
    pub idempotency_key: String,
    pub amount_minor: u64,
    pub currency: String,
    pub counterparty: String,
    pub rail: String,
}

/// A request to call a payment rail. Whether the child authority is a
/// subset of the parent's is decided by the authority policy and handed in.
#[derive(Clone, Debug)]
pub struct PaymentRailAdmission {
    pub parent_authority: AuthorityTerm,
    pub child_authority: AuthorityTerm,
    pub child_is_subset: bool,
    pub reservation_decision: Option<Decision>,
    pub subset_proof_present: bool,
    pub child_harness_ref: Reference,
    pub act_id: String,
    pub idempotency_key: Option<String>,
    pub spend_capability_binding: Option<PaymentSpendCapabilityBinding>,
    pub consumed_spend_capability_refs: Vec<Reference>,
    pub spend_capability_ref: Option<Reference>,
}

/// The admitted call: the two terms, its idempotency key and capability.
#[derive(Clone, Debug)]
pub struct PaymentRailAdmissionDecision {
    pub parent_term_id: String,
    pub child_term_id: String,
    pub idempotency_key: Option<String>,
    pub spend_capability_ref: Option<Reference>,
}

/// An admitted call that the rail proved.
#[derive(Clone, Debug)]
pub struct PaymentRailAuthorizationDecision {
    pub parent_term_id: String,
    pub child_term_id: String,
    pub idempotency_key: Option<String>,
    pub spend_capability_ref: Option<Reference>,
    pub rail_proof_refs: Vec<Reference>,
}

#[derive(Clone, Copy, Debug, PartialEq, Eq, Structural)]
pub enum PaymentAuthorityError {
    MissingReservationDecision,
    ReservationDecisionNotSelected,
    MissingSubsetProof,
    AuthorityNotSubset,
    SpendRequiresSingleUseCapability,
    SpendCapabilityBindingMismatch,
    SpendCapabilityAlreadyConsumed,
    MissingIdempotencyKey,
    WildcardCounterpartyDenied,
    MissingReceiptBeforeSuccess,
    MissingRailProof,
}

// ---------------------------------------------------------------------------
// The rules
// ---------------------------------------------------------------------------

pub open spec fn receipt_before_success(term: AuthorityTerm) -> bool {
    term.payment matches Some(p) && p.receipt_before_success
}

/// Whether success requires a rail receipt.
pub fn payment_authority_requires_receipt_before_success(term: &AuthorityTerm) -> (b: bool)
    ensures
        b == receipt_before_success(*term),
{
    match &term.payment {
        Some(p) => p.receipt_before_success,
        None => false,
    }
}

/// Whether the term spends.
pub fn payment_authority_spends(term: &AuthorityTerm) -> (b: bool)
    ensures
        b == term.spends,
{
    term.spends
}

/// A decision selects the paid execution: it opens, continues, spawns or
/// closes, and selects an act or a harness.
pub open spec fn selects_execution(d: Decision) -> bool {
    (d.choice == DecisionChoice::Open || d.choice == DecisionChoice::Continue || d.choice
        == DecisionChoice::SpawnChild || d.choice == DecisionChoice::Close) && (
    d.selected_act_id is Some || d.selected_harness_ref is Some)
}

/// A counterparty that names no one in particular.
pub open spec fn is_wildcard(c: Seq<char>) -> bool {
    c == Seq::<char>::empty() || c == "*"@ || c == "any"@
}

/// The binding of a spend capability matches the call it is spent on.
pub open spec fn binding_matches(
    input: PaymentRailAdmission,
    decision: Decision,
    payment: PaymentAuthorityBounds,
    binding: PaymentSpendCapabilityBinding,
) -> bool {
    &&& same_reference_spec(binding.child_harness_ref, input.child_harness_ref)
    &&& binding.act_id@ == input.act_id@
    &&& (decision.selected_act_id matches Some(id) ==> id@ == input.act_id@)
    &&& (decision.selected_harness_ref matches Some(h) ==> same_reference_spec(
        h,
        input.child_harness_ref,
    ))
    &&& binding.reservation_decision_id@ == decision.decision_id@
    &&& (input.idempotency_key matches Some(k) && k@ == binding.idempotency_key@)
    &&& (payment.max_per_call_minor matches Some(max) && binding.amount_minor > 0
        && binding.amount_minor <= max)
    &&& binding.currency@ == payment.currency@
    &&& text_views(payment.rails@).contains(binding.rail@)
    &&& (payment.counterparty matches Some(c) && c@ == binding.counterparty@)
}

/// The capability was spent already.
pub open spec fn consumed(input: PaymentRailAdmission, capability: Reference) -> bool {
    exists|i: int|
        0 <= i < input.consumed_spend_capability_refs@.len() && same_reference_spec(
            #[trigger] input.consumed_spend_capability_refs@[i],
            capability,
        )
}

/// What a spend needs of its single-use capability, checked in order.
pub open spec fn single_use_check(input: PaymentRailAdmission) -> Result<(), PaymentAuthorityError> {
    match input.child_authority.payment {
        None => Err(PaymentAuthorityError::SpendRequiresSingleUseCapability),
        Some(payment) => if !(payment.single_use_spend && payment.single_use_credential
            && input.child_authority.single_use_spend_capability)
            || input.spend_capability_ref is None {
            Err(PaymentAuthorityError::SpendRequiresSingleUseCapability)
        } else {
            match input.spend_capability_binding {
                None => Err(PaymentAuthorityError::SpendRequiresSingleUseCapability),
                Some(binding) => match input.reservation_decision {
                    None => Err(PaymentAuthorityError::MissingReservationDecision),
                    Some(decision) => if !binding_matches(input, decision, payment, binding) {
                        Err(PaymentAuthorityError::SpendCapabilityBindingMismatch)
                    } else if consumed(input, input.spend_capability_ref->Some_0) {
                        Err(PaymentAuthorityError::SpendCapabilityAlreadyConsumed)
                    } else {
                        Ok(())
                    },
                },
            }
        },
    }
}

/// Whether a rail call is admitted, or the first rule it breaks: a spend
/// needs a selecting reservation decision, an idempotency key where one is
/// required, a named counterparty and an unspent single-use capability
/// bound to the call; every call needs a subset proof and a child authority
/// within its parent's.
pub open spec fn admission_spec(input: PaymentRailAdmission) -> Result<(), PaymentAuthorityError> {
    let spend_check = if input.child_authority.spends {
        match input.reservation_decision {
            None => Err(PaymentAuthorityError::MissingReservationDecision),
            Some(decision) => if !selects_execution(decision) {
                Err(PaymentAuthorityError::ReservationDecisionNotSelected)
            } else if (input.child_authority.payment matches Some(p) && p.idempotency_required)
                && (match input.idempotency_key {
                None => true,
                Some(k) => k@.len() == 0,
            }) {
                Err(PaymentAuthorityError::MissingIdempotencyKey)
            } else if !(input.child_authority.payment matches Some(p) && p.counterparty matches Some(
                c,
            ) && !is_wildcard(c@)) {
                Err(PaymentAuthorityError::WildcardCounterpartyDenied)
            } else {
                single_use_check(input)
            },
        }
    } else {
        Ok(())
    };
    match spend_check {
        Err(e) => Err(e),
        Ok(()) => if !input.subset_proof_present {
            Err(PaymentAuthorityError::MissingSubsetProof)
        } else if !input.child_is_subset {
            Err(PaymentAuthorityError::AuthorityNotSubset)
        } else {
            Ok(())
        },
    }
}

fn decision_selects_payment_execution(d: &Decision) -> (b: bool)
    ensures
        b == selects_execution(*d),
{
    let choice_ok = match d.choice {
        DecisionChoice::Open | DecisionChoice::Continue | DecisionChoice::SpawnChild
        | DecisionChoice::Close => true,
        _ => false,
    };
    choice_ok && (d.selected_act_id.is_some() || d.selected_harness_ref.is_some())
}

fn opt_eq(value: &Option<String>, expected: &str) -> (b: bool)
    ensures
        b == (value matches Some(v) && v@ == expected@),
{
    match value {
        Some(v) => str_eq(v.as_str(), expected),
        None => false,
    }
}

fn spend_capability_binding_matches(
    input: &PaymentRailAdmission,
    decision: &Decision,
    payment: &PaymentAuthorityBounds,
    binding: &PaymentSpendCapabilityBinding,
) -> (b: bool)
    ensures
        b == binding_matches(*input, *decision, *payment, *binding),
{
    let act_selected = match &decision.selected_act_id {
        Some(id) => str_eq(id.as_str(), input.act_id.as_str()),
        None => true,
    };
    let harness_selected = match &decision.selected_harness_ref {
        Some(h) => same_reference(h, &input.child_harness_ref),
        None => true,
    };
    let amount_ok = match payment.max_per_call_minor {
        Some(max) => binding.amount_minor > 0 && binding.amount_minor <= max,
        None => false,
    };
    same_reference(&binding.child_harness_ref, &input.child_harness_ref) && str_eq(
        binding.act_id.as_str(),
        input.act_id.as_str(),
    ) && act_selected && harness_selected && str_eq(
        binding.reservation_decision_id.as_str(),
        decision.decision_id.as_str(),
    ) && opt_eq(&input.idempotency_key, binding.idempotency_key.as_str()) && amount_ok && str_eq(
        binding.currency.as_str(),
        payment.currency.as_str(),
    ) && strings_contain(&payment.rails, binding.rail.as_str()) && opt_eq(
        &payment.counterparty,
        binding.counterparty.as_str(),
    )
}

fn is_consumed(input: &PaymentRailAdmission, capability: &Reference) -> (b: bool)
    ensures
        b == consumed(*input, *capability),
{
    let mut i: usize = 0;
    while i < input.consumed_spend_capability_refs.len()
        invariant
            i <= input.consumed_spend_capability_refs@.len(),
            forall|j: int|
                0 <= j < i ==> !same_reference_spec(
                    #[trigger] input.consumed_spend_capability_refs@[j],
                    *capability,
                ),
        decreases input.consumed_spend_capability_refs.len() - i,
    {
        if same_reference(&input.consumed_spend_capability_refs[i], capability) {
            return true;
        }
        i += 1;
    }
    false
}

fn ensure_single_use_spend_capability(input: &PaymentRailAdmission) -> (r: Result<
    (),
    PaymentAuthorityError,
>)
    ensures
        r == single_use_check(*input),
{
    let payment = match &input.child_authority.payment {
        Some(p) => p,
        None => return Err(PaymentAuthorityError::SpendRequiresSingleUseCapability),
    };
    let has_single_use = payment.single_use_spend && payment.single_use_credential
        && input.child_authority.single_use_spend_capability;
    if !has_single_use || input.spend_capability_ref.is_none() {
        return Err(PaymentAuthorityError::SpendRequiresSingleUseCapability);
    }
    let binding = match &input.spend_capability_binding {
        Some(b) => b,
        None => return Err(PaymentAuthorityError::SpendRequiresSingleUseCapability),
    };
    let decision = match &input.reservation_decision {
        Some(d) => d,
        None => return Err(PaymentAuthorityError::MissingReservationDecision),
    };
    if !spend_capability_binding_matches(input, decision, payment, binding) {
        return Err(PaymentAuthorityError::SpendCapabilityBindingMismatch);
    }
    let capability = match &input.spend_capability_ref {
        Some(c) => c,
        None => return Err(PaymentAuthorityError::SpendRequiresSingleUseCapability),
    };
    if is_consumed(input, capability) {
        return Err(PaymentAuthorityError::SpendCapabilityAlreadyConsumed);
    }
    Ok(())
}

fn wildcard(c: &str) -> (b: bool)
    ensures
        b == is_wildcard(c@),
{
    let empty = String::new();
    proof {
        reveal_strlit("*");
        reveal_strlit("any");
    }
    str_eq(c, empty.as_str()) || str_eq(c, "*") || str_eq(c, "any")
}

fn copy_reference(r: &Option<Reference>) -> (c: Option<Reference>)
    ensures
        match (c, *r) {
            (Some(x), Some(y)) => x@ == y@,
            (None, None) => true,
            _ => false,
        },
{
    match r {
        Some(x) => Some(x.duplicate()),
        None => None,
    }
}

fn copy_text(s: &Option<String>) -> (c: Option<String>)
    ensures
        c == *s,
{
    match s {
        Some(x) => Some(x.clone()),
        None => None,
    }
}

/// Admits a rail call, or names the first rule it breaks (see
/// `admission_spec`).
pub fn admit_payment_rail(input: &PaymentRailAdmission) -> (r: Result<
    PaymentRailAdmissionDecision,
    PaymentAuthorityError,
>)
    ensures
        match admission_spec(*input) {
            Err(e) => r == Err::<PaymentRailAdmissionDecision, PaymentAuthorityError>(e),
            Ok(()) => r matches Ok(d) && d.parent_term_id@ == input.parent_authority.term_id@
                && d.child_term_id@ == input.child_authority.term_id@ && d.idempotency_key
                == input.idempotency_key && match (d.spend_capability_ref, input.spend_capability_ref) {
                (Some(x), Some(y)) => x@ == y@,
                (None, None) => true,
                _ => false,
            },
        },
{
    if input.child_authority.spends {
        let decision = match &input.reservation_decision {
            Some(d) => d,
            None => return Err(PaymentAuthorityError::MissingReservationDecision),
        };
        if !decision_selects_payment_execution(decision) {
            return Err(PaymentAuthorityError::ReservationDecisionNotSelected);
        }
        let required = match &input.child_authority.payment {
            Some(p) => p.idempotency_required,
            None => false,
        };
        let missing = match &input.idempotency_key {
            Some(k) => k.as_str().is_empty(),
            None => true,
        };
        if required && missing {
            return Err(PaymentAuthorityError::MissingIdempotencyKey);
        }
        let bounded = match &input.child_authority.payment {
            Some(p) => match &p.counterparty {
                Some(c) => !wildcard(c.as_str()),
                None => false,
            },
            None => false,
        };
        if !bounded {
            return Err(PaymentAuthorityError::WildcardCounterpartyDenied);
        }
        if let Err(e) = ensure_single_use_spend_capability(input) {
            return Err(e);
        }
    }
    if !input.subset_proof_present {
        return Err(PaymentAuthorityError::MissingSubsetProof);
    }
    if !input.child_is_subset {
        return Err(PaymentAuthorityError::AuthorityNotSubset);
    }
    Ok(
        PaymentRailAdmissionDecision {
            parent_term_id: input.parent_authority.term_id.clone(),
            child_term_id: input.child_authority.term_id.clone(),
            idempotency_key: copy_text(&input.idempotency_key),
            spend_capability_ref: copy_reference(&input.spend_capability_ref),
        },
    )
}

/// Authorizes a proved rail call: it must be admitted, and where success
/// needs a rail receipt, or where it spends, the rail must have proved it.
pub open spec fn authorization_spec(input: PaymentRailAdmission, rail_proof_count: nat) -> Result<
    (),
    PaymentAuthorityError,
> {
    match admission_spec(input) {
        Err(e) => Err(e),
        Ok(()) => if (receipt_before_success(input.parent_authority) || receipt_before_success(
            input.child_authority,
        )) && rail_proof_count == 0 {
            Err(PaymentAuthorityError::MissingReceiptBeforeSuccess)
        } else if input.child_authority.spends && rail_proof_count == 0 {
            Err(PaymentAuthorityError::MissingRailProof)
        } else {
            Ok(())
        },
    }
}

pub fn authorize_payment_rail(input: &PaymentRailAdmission, rail_proof_refs: Vec<Reference>) -> (r:
    Result<PaymentRailAuthorizationDecision, PaymentAuthorityError>)
    ensures
        match authorization_spec(*input, rail_proof_refs@.len()) {
            Err(e) => r == Err::<PaymentRailAuthorizationDecision, PaymentAuthorityError>(e),
            Ok(()) => r matches Ok(d) && d.parent_term_id@ == input.parent_authority.term_id@
                && d.child_term_id@ == input.child_authority.term_id@ && d.idempotency_key
                == input.idempotency_key && d.rail_proof_refs@ == rail_proof_refs@,
        },
{
    let admission = match admit_payment_rail(input) {
        Ok(a) => a,
        Err(e) => return Err(e),
    };
    let needs_receipt = payment_authority_requires_receipt_before_success(&input.parent_authority)
        || payment_authority_requires_receipt_before_success(&input.child_authority);
    if needs_receipt && rail_proof_refs.len() == 0 {
        return Err(PaymentAuthorityError::MissingReceiptBeforeSuccess);
    }
    if input.child_authority.spends && rail_proof_refs.len() == 0 {
        return Err(PaymentAuthorityError::MissingRailProof);
    }
    Ok(
        PaymentRailAuthorizationDecision {
            parent_term_id: admission.parent_term_id,
            child_term_id: admission.child_term_id,
            idempotency_key: admission.idempotency_key,
            spend_capability_ref: admission.spend_capability_ref,
            rail_proof_refs,
        },
    )
}

/// A spend is never authorized without rail proof.
pub proof fn lemma_no_spend_without_proof(input: PaymentRailAdmission)
    requires
        input.child_authority.spends,
    ensures
        authorization_spec(input, 0) is Err,
{
}

/// An admitted spend is bound within what the child authority grants: the
/// spend capability's binding is in the granted currency, on a granted rail,
/// to the granted counterparty, for a positive amount within the per-call
/// maximum, under the call's idempotency key, and the capability was not
/// spent before. A binding in any other currency is never admitted.
pub proof fn lemma_admitted_spend_within_grant(input: PaymentRailAdmission)
    ensures
        admission_spec(input) is Ok && input.child_authority.spends ==> {
            &&& input.child_authority.payment is Some
            &&& input.spend_capability_binding is Some
            &&& input.spend_capability_ref is Some
            &&& {
                let payment = input.child_authority.payment->Some_0;
                let binding = input.spend_capability_binding->Some_0;
                &&& binding.currency@ == payment.currency@
                &&& text_views(payment.rails@).contains(binding.rail@)
                &&& payment.counterparty matches Some(c) && c@ == binding.counterparty@
                &&& payment.max_per_call_minor matches Some(max) && 0 < binding.amount_minor
                    <= max
                &&& input.idempotency_key matches Some(k) && k@ == binding.idempotency_key@
                &&& !consumed(input, input.spend_capability_ref->Some_0)
            }
        },
        input.child_authority.spends && input.child_authority.payment is Some
            && input.spend_capability_binding is Some
            && input.spend_capability_binding->Some_0.currency@
            != input.child_authority.payment->Some_0.currency@ ==> admission_spec(input) is Err,
{
}

} // verus!
