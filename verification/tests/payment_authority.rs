use runx_runtime::payment_authority::{
    admit_payment_rail, authorize_payment_rail, payment_authority_requires_receipt_before_success,
    payment_authority_spends, AuthorityTerm, Decision, DecisionChoice, PaymentAuthorityBounds,
    PaymentAuthorityError, PaymentRailAdmission, PaymentSpendCapabilityBinding,
};
use runx_runtime::target_runner::Reference;

fn reference(kind: &str, uri: &str) -> Reference {
    Reference {
        reference_type: kind.to_owned(),
        uri: uri.to_owned(),
        provider: None,
        locator: None,
        label: None,
    }
}

fn bounds() -> PaymentAuthorityBounds {
    PaymentAuthorityBounds {
        receipt_before_success: true,
        idempotency_required: true,
        single_use_spend: true,
        single_use_credential: true,
        counterparty: Some("merchant_1".to_owned()),
        max_per_call_minor: Some(5000),
        currency: "USD".to_owned(),
        rails: vec!["x402".to_owned()],
    }
}

fn term(id: &str, spends: bool) -> AuthorityTerm {
    AuthorityTerm {
        term_id: id.to_owned(),
        spends,
        single_use_spend_capability: true,
        payment: Some(bounds()),
    }
}

fn admission() -> PaymentRailAdmission {
    PaymentRailAdmission {
        parent_authority: term("parent", false),
        child_authority: term("child", true),
        child_is_subset: true,
        reservation_decision: Some(Decision {
            decision_id: "dec_1".to_owned(),
            choice: DecisionChoice::SpawnChild,
            selected_act_id: Some("act_pay".to_owned()),
            selected_harness_ref: None,
        }),
        subset_proof_present: true,
        child_harness_ref: reference("harness", "runx:harness:child"),
        act_id: "act_pay".to_owned(),
        idempotency_key: Some("idem_1".to_owned()),
        spend_capability_binding: Some(PaymentSpendCapabilityBinding {
            child_harness_ref: reference("harness", "runx:harness:child"),
            act_id: "act_pay".to_owned(),
            reservation_decision_id: "dec_1".to_owned(),
            idempotency_key: "idem_1".to_owned(),
            amount_minor: 1250,
            currency: "USD".to_owned(),
            counterparty: "merchant_1".to_owned(),
            rail: "x402".to_owned(),
        }),
        consumed_spend_capability_refs: Vec::new(),
        spend_capability_ref: Some(reference("spend_capability", "runx:spend:cap_1")),
    }
}

#[test]
fn bound_single_use_spend_is_admitted_and_authorized_with_proof() {
    let input = admission();
    let decision = admit_payment_rail(&input).expect("admitted");
    assert_eq!(decision.parent_term_id, "parent");
    assert_eq!(decision.child_term_id, "child");
    assert_eq!(decision.idempotency_key.as_deref(), Some("idem_1"));
    let authorized = authorize_payment_rail(&input, vec![reference("rail_proof", "runx:rail:p1")])
        .expect("authorized");
    assert_eq!(authorized.rail_proof_refs.len(), 1);
    assert_eq!(
        authorize_payment_rail(&input, Vec::new()).err(),
        Some(PaymentAuthorityError::MissingReceiptBeforeSuccess)
    );
}

#[test]
fn spends_without_receipt_bound_still_need_rail_proof() {
    let mut input = admission();
    input.child_authority.payment.as_mut().unwrap().receipt_before_success = false;
    input.parent_authority.payment.as_mut().unwrap().receipt_before_success = false;
    assert_eq!(
        authorize_payment_rail(&input, Vec::new()).err(),
        Some(PaymentAuthorityError::MissingRailProof)
    );
}

#[test]
fn spend_rules_fail_in_order() {
    let mut input = admission();
    input.reservation_decision = None;
    assert_eq!(admit_payment_rail(&input).err(), Some(PaymentAuthorityError::MissingReservationDecision));

    let mut input = admission();
    input.reservation_decision.as_mut().unwrap().choice = DecisionChoice::Decline;
    assert_eq!(admit_payment_rail(&input).err(), Some(PaymentAuthorityError::ReservationDecisionNotSelected));

    let mut input = admission();
    input.idempotency_key = Some(String::new());
    assert_eq!(admit_payment_rail(&input).err(), Some(PaymentAuthorityError::MissingIdempotencyKey));

    let mut input = admission();
    input.child_authority.payment.as_mut().unwrap().counterparty = Some("*".to_owned());
    assert_eq!(admit_payment_rail(&input).err(), Some(PaymentAuthorityError::WildcardCounterpartyDenied));

    let mut input = admission();
    input.child_authority.single_use_spend_capability = false;
    assert_eq!(
        admit_payment_rail(&input).err(),
        Some(PaymentAuthorityError::SpendRequiresSingleUseCapability)
    );

    let mut input = admission();
    input.spend_capability_binding.as_mut().unwrap().amount_minor = 9000;
    assert_eq!(
        admit_payment_rail(&input).err(),
        Some(PaymentAuthorityError::SpendCapabilityBindingMismatch)
    );

    let mut input = admission();
    input.consumed_spend_capability_refs = vec![reference("spend_capability", "runx:spend:cap_1")];
    assert_eq!(
        admit_payment_rail(&input).err(),
        Some(PaymentAuthorityError::SpendCapabilityAlreadyConsumed)
    );
}

#[test]
fn every_call_needs_a_subset_proof_and_a_subset() {
    let mut input = admission();
    input.subset_proof_present = false;
    assert_eq!(admit_payment_rail(&input).err(), Some(PaymentAuthorityError::MissingSubsetProof));
    let mut input = admission();
    input.child_is_subset = false;
    assert_eq!(admit_payment_rail(&input).err(), Some(PaymentAuthorityError::AuthorityNotSubset));
    let mut input = admission();
    input.child_authority.spends = false;
    input.reservation_decision = None;
    assert!(admit_payment_rail(&input).is_ok());
}

#[test]
fn term_predicates_read_the_bounds() {
    assert!(payment_authority_requires_receipt_before_success(&term("t", false)));
    let mut bare = term("t", true);
    bare.payment = None;
    assert!(!payment_authority_requires_receipt_before_success(&bare));
    assert!(payment_authority_spends(&bare));
}
