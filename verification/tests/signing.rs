use runx_runtime::env::EnvVars;
use runx_runtime::signing::{
    is_local_pseudo_signature, is_receipt_signing_env_name, is_well_formed_sha256,
    parse_production_issuer_type, strip_receipt_signing_env, validate_production_issuer,
    Ed25519ReceiptSigner, Ed25519ReceiptVerifier, ProductionReceiptKey, ReceiptIssuer,
    ReceiptIssuerType, ReceiptSignature, RuntimeReceiptSignatureConfig,
    RuntimeReceiptSigningError, SignatureAlgorithm, SignatureVerificationFailure,
};

const SEED: [u8; 32] = [7u8; 32];
// base64 (standard, padded) of 32 bytes of 0x07.
const SEED_BASE64: &str = "BwcHBwcHBwcHBwcHBwcHBwcHBwcHBwcHBwcHBwcHBwc=";

fn signer() -> Ed25519ReceiptSigner {
    Ed25519ReceiptSigner::from_seed("kid-1", ReceiptIssuerType::Hosted, &SEED).expect("valid seed")
}

#[test]
fn signed_bodies_verify_under_the_signers_key() {
    let signer = signer();
    let verifier = Ed25519ReceiptVerifier::new(vec![signer.production_key()]);
    let signature = signer.sign_receipt_body("sha256:body").expect("signs");
    assert_eq!(signature.alg, SignatureAlgorithm::Ed25519);
    assert!(signature.value.starts_with("base64:"));
    assert_eq!(verifier.verify(&signer.issuer(), &signature, "sha256:body"), Ok(()));
    assert_eq!(
        verifier.verify(&signer.issuer(), &signature, "sha256:other"),
        Err(SignatureVerificationFailure::SignatureMismatch)
    );
}

#[test]
fn verification_failures_are_named() {
    let signer = signer();
    let verifier = Ed25519ReceiptVerifier::new(vec![signer.production_key()]);
    let signature = signer.sign_receipt_body("d").expect("signs");

    let mut local = signer.issuer();
    local.issuer_type = ReceiptIssuerType::Local;
    assert_eq!(
        verifier.verify(&local, &signature, "d"),
        Err(SignatureVerificationFailure::UnsupportedIssuer)
    );

    let mut unknown = signer.issuer();
    unknown.kid = "kid-2".to_owned();
    assert_eq!(verifier.verify(&unknown, &signature, "d"), Err(SignatureVerificationFailure::MissingKey));

    let mut wrong_hash = signer.issuer();
    wrong_hash.public_key_sha256 = format!("sha256:{}", "0".repeat(64));
    assert_eq!(
        verifier.verify(&wrong_hash, &signature, "d"),
        Err(SignatureVerificationFailure::KeyHashMismatch)
    );

    let pseudo = ReceiptSignature {
        alg: SignatureAlgorithm::Ed25519,
        value: "sig:pending".to_owned(),
    };
    assert_eq!(
        verifier.verify(&signer.issuer(), &pseudo, "d"),
        Err(SignatureVerificationFailure::MalformedSignature)
    );

    let short = Ed25519ReceiptVerifier::from_public_key("kid-1", vec![1, 2, 3]);
    assert_eq!(
        short.verify(&signer.issuer(), &signature, "d"),
        Err(SignatureVerificationFailure::MalformedKey)
    );
}

#[test]
fn seeds_must_be_thirty_two_bytes_and_issuers_production() {
    assert_eq!(
        Ed25519ReceiptSigner::from_seed("kid", ReceiptIssuerType::Ci, &[1u8; 31]).err(),
        Some(RuntimeReceiptSigningError::MalformedSignerKey)
    );
    assert_eq!(
        Ed25519ReceiptSigner::from_seed("kid", ReceiptIssuerType::Verifier, &SEED).err(),
        Some(RuntimeReceiptSigningError::UnsupportedIssuerType)
    );
    assert_eq!(
        Ed25519ReceiptSigner::from_seed("  ", ReceiptIssuerType::Ci, &SEED).err(),
        Some(RuntimeReceiptSigningError::MissingKeyId)
    );
    let from_base64 =
        Ed25519ReceiptSigner::from_seed_base64("kid-1", ReceiptIssuerType::Hosted, SEED_BASE64)
            .expect("standard base64 seed");
    assert_eq!(from_base64.public_key(), signer().public_key());
    assert_eq!(
        Ed25519ReceiptSigner::from_seed_base64("kid-1", ReceiptIssuerType::Hosted, "***").err(),
        Some(RuntimeReceiptSigningError::MalformedSignerKey)
    );
}

#[test]
fn production_keys_hash_their_public_key() {
    let key = ProductionReceiptKey::new("kid", vec![0u8; 32]);
    assert_eq!(key.kid(), "kid");
    assert_eq!(key.public_key(), &[0u8; 32][..]);
    // SHA-256 of 32 zero bytes.
    assert_eq!(
        key.public_key_sha256(),
        "sha256:66687aadf862bd776c8fc18b8e9f8e20089714856ee233b3902a591d0d5f2925"
    );
    assert!(is_well_formed_sha256(&key.public_key_sha256()));
    assert!(!is_well_formed_sha256("sha256:abc"));
}

#[test]
fn verifier_keys_decode_from_base64() {
    let verifier = Ed25519ReceiptVerifier::from_public_key_base64("kid", SEED_BASE64).expect("decodes");
    assert_eq!(verifier.keys().len(), 1);
    assert_eq!(verifier.keys()[0].public_key(), &SEED[..]);
    assert_eq!(
        Ed25519ReceiptVerifier::from_public_key_base64("kid", "!!").err(),
        Some(RuntimeReceiptSigningError::MalformedVerifierKey)
    );
}

#[test]
fn issuer_checks_run_in_order() {
    let good_hash = format!("sha256:{}", "a".repeat(64));
    let issuer = |t, kid: &str, hash: &str| ReceiptIssuer {
        issuer_type: t,
        kid: kid.to_owned(),
        public_key_sha256: hash.to_owned(),
    };
    assert_eq!(validate_production_issuer(&issuer(ReceiptIssuerType::Ci, "k", &good_hash)), Ok(()));
    assert_eq!(
        validate_production_issuer(&issuer(ReceiptIssuerType::Local, "", "")),
        Err(RuntimeReceiptSigningError::UnsupportedIssuerType)
    );
    assert_eq!(
        validate_production_issuer(&issuer(ReceiptIssuerType::Ci, " ", &good_hash)),
        Err(RuntimeReceiptSigningError::MissingKeyId)
    );
    assert_eq!(
        validate_production_issuer(&issuer(ReceiptIssuerType::Ci, "k", "")),
        Err(RuntimeReceiptSigningError::MissingPublicKeySha256)
    );
    assert_eq!(
        validate_production_issuer(&issuer(ReceiptIssuerType::Ci, "k", "sha256:zz")),
        Err(RuntimeReceiptSigningError::MalformedPublicKeySha256)
    );
    assert_eq!(parse_production_issuer_type("hosted"), Ok(ReceiptIssuerType::Hosted));
    assert_eq!(
        parse_production_issuer_type("local"),
        Err(RuntimeReceiptSigningError::UnsupportedIssuerType)
    );
}

fn env(pairs: &[(&str, &str)]) -> EnvVars {
    EnvVars::from_pairs(pairs.iter().map(|(k, v)| (k.to_string(), v.to_string())).collect())
}

#[test]
fn signing_environment_is_all_or_nothing() {
    assert_eq!(
        RuntimeReceiptSignatureConfig::from_env(&env(&[])).err(),
        Some(RuntimeReceiptSigningError::MissingSigningEnv)
    );
    assert_eq!(
        RuntimeReceiptSignatureConfig::from_env(&env(&[
            ("RUNX_RECEIPT_SIGN_KID", "kid"),
            ("RUNX_RECEIPT_SIGN_ED25519_SEED_BASE64", SEED_BASE64),
        ]))
        .err(),
        Some(RuntimeReceiptSigningError::MissingIssuerType)
    );
    assert_eq!(
        RuntimeReceiptSignatureConfig::from_env(&env(&[("RUNX_RECEIPT_SIGN_KID", "kid")])).err(),
        Some(RuntimeReceiptSigningError::IncompleteSigningEnv)
    );
    let config = RuntimeReceiptSignatureConfig::from_env(&env(&[
        ("RUNX_RECEIPT_SIGN_KID", " kid-1 "),
        ("RUNX_RECEIPT_SIGN_ED25519_SEED_BASE64", SEED_BASE64),
        ("RUNX_RECEIPT_SIGN_ISSUER_TYPE", "ci"),
    ]))
    .expect("complete environment");
    let key = config.production_key_for_kid("kid-1").expect("configured key");
    assert_eq!(key.public_key(), signer().public_key());
    assert!(config.production_key_for_kid("kid-2").is_none());
    assert!(RuntimeReceiptSignatureConfig::local_development()
        .production_key_for_kid("kid-1")
        .is_none());
}

#[test]
fn signing_variables_are_recognised_and_stripped() {
    assert!(is_receipt_signing_env_name("RUNX_RECEIPT_SIGN_KID"));
    assert!(!is_receipt_signing_env_name("RUNX_OTHER"));
    assert!(is_local_pseudo_signature("sig:pending"));
    let mut vars = env(&[("RUNX_RECEIPT_SIGN_KID", "k"), ("PATH", "/bin")]);
    strip_receipt_signing_env(&mut vars);
    assert!(!vars.contains_key("RUNX_RECEIPT_SIGN_KID"));
    assert!(vars.contains_key("PATH"));
}
