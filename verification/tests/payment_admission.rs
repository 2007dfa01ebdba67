use runx_runtime::hashing::stable_hash;
use runx_runtime::payment_admission::{
    derive_money_movement_id, payment_admission_token_canonical_json,
    payment_admission_token_digest, validate_request, PaymentAdmissionError,
    PaymentAdmissionRequest, PaymentAdmissionSigner,
};

const TEST_SEED_BASE64: &str = "AAAAAAAAAAAAAAAAAAAAAAAAAAAAAAAAAAAAAAAAAAA=";

fn request(expires_at: &str) -> PaymentAdmissionRequest {
    PaymentAdmissionRequest {
        principal: "principal_1".to_owned(),
        act: "act_pay_quote".to_owned(),
        rail: "x402".to_owned(),
        amount_minor: 1250,
        currency: "USD".to_owned(),
        counterparty: Some("merchant_1".to_owned()),
        run_id: "run_1".to_owned(),
        authority_digest: "sha256:authority".to_owned(),
        expires_at: expires_at.to_owned(),
    }
}

#[test]
fn token_refresh_keeps_money_movement_id_stable() {
    let signer = PaymentAdmissionSigner::from_seed_base64("kid-admission-1", TEST_SEED_BASE64)
        .expect("valid seed");
    let first = signer.issue(&request("2026-06-01T00:05:00Z")).expect("issued");
    let refreshed = signer.issue(&request("2026-06-01T00:10:00Z")).expect("issued");

    assert_eq!(first.money_movement_id, refreshed.money_movement_id);
    assert_ne!(first.token.expires_at, refreshed.token.expires_at);
    assert_ne!(first.token.sig, refreshed.token.sig);
    assert_ne!(first.token_digest, refreshed.token_digest);
}

#[test]
fn token_canonical_json_is_byte_stable_for_fixed_input() {
    let signer = PaymentAdmissionSigner::from_seed_base64("kid-admission-1", TEST_SEED_BASE64)
        .expect("valid seed");
    let issued = signer.issue(&request("2026-06-01T00:05:00Z")).expect("issued");

    assert_eq!(
        issued.money_movement_id,
        "sha256:b1f910b08abe1053af9343df6b0467dbea9018a9052e4601d7a4616f1f73ff33"
    );
    assert!(issued
        .token_canonical_json
        .contains("\"purpose\":\"runx.payment_admission.v1\""));
    assert_eq!(issued.token.money_movement_id, issued.money_movement_id);
    assert_eq!(issued.token_digest, stable_hash(&issued.token_canonical_json));
}

#[test]
fn canonical_json_orders_keys_and_signs_last() {
    let signer = PaymentAdmissionSigner::from_seed_base64("kid-admission-1", TEST_SEED_BASE64)
        .expect("valid seed");
    let issued = signer.issue(&request("2026-06-01T00:05:00Z")).expect("issued");
    let json = &issued.token_canonical_json;
    assert!(json.starts_with("{\"act\":\"act_pay_quote\",\"amount_minor\":1250,\"audience\":\"rail_settlement\""));
    assert!(json.ends_with(&format!("\"sig\":\"{}\"}}", issued.token.sig)));
    assert!(issued.token.sig.starts_with("base64:"));
    assert_eq!(
        payment_admission_token_canonical_json(&issued.token).as_deref(),
        Ok(json.as_str())
    );
    assert_eq!(payment_admission_token_digest(&issued.token), Ok(issued.token_digest.clone()));
    assert_eq!(
        derive_money_movement_id(&request("later")).as_deref(),
        Ok(issued.money_movement_id.as_str())
    );
}

#[test]
fn blank_fields_and_bad_keys_are_refused() {
    let mut blank = request("x");
    blank.counterparty = Some(" ".to_owned());
    assert_eq!(validate_request(&blank), Err(PaymentAdmissionError::EmptyField("counterparty")));
    let mut blank = request("x");
    blank.principal = String::new();
    assert_eq!(derive_money_movement_id(&blank), Err(PaymentAdmissionError::EmptyField("principal")));
    assert_eq!(
        PaymentAdmissionSigner::from_seed_base64(" ", TEST_SEED_BASE64).err(),
        Some(PaymentAdmissionError::MissingKeyId)
    );
    assert_eq!(
        PaymentAdmissionSigner::from_seed_base64("kid", "AAAA").err(),
        Some(PaymentAdmissionError::MalformedSignerKey)
    );
    assert_eq!(
        PaymentAdmissionSigner::from_seed_base64("kid", "not base64!").err(),
        Some(PaymentAdmissionError::MalformedSignerKey)
    );
}
