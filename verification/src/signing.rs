//! Production receipt signing: Ed25519 keys named by a key id, the issuer a
//! production signature must carry, and the checks a signature passes before
//! it verifies.
use vstd::prelude::*;

use base64::Engine;

use crate::env::EnvVars;
use crate::hashing::{lower_hex, sha256_digest, sha256_prefixed};
use crate::search::{first_index, lemma_first_index_bounds, lemma_first_index_extend};
use crate::text::{
    all_ascii_hexdigits, all_hexdigits, chars_of, concat, is_blank, starts_with,
    starts_with_chars, str_eq, strip_prefix, strip_prefix_chars, trim, trim_str,
};

verus! {

pub const RECEIPT_SIGNATURE_BASE64_PREFIX: &'static str = "base64:";

pub const RUNX_RECEIPT_SIGN_KID_ENV: &'static str = "RUNX_RECEIPT_SIGN_KID";

pub const RUNX_RECEIPT_SIGN_ED25519_SEED_BASE64_ENV: &'static str =
    "RUNX_RECEIPT_SIGN_ED25519_SEED_BASE64";

pub const RUNX_RECEIPT_SIGN_ISSUER_TYPE_ENV: &'static str = "RUNX_RECEIPT_SIGN_ISSUER_TYPE";

pub const RECEIPT_SIGNING_ENV_PREFIX: &'static str = "RUNX_RECEIPT_SIGN_";

// ---------------------------------------------------------------------------
// Outside computations: base64 and Ed25519
// ---------------------------------------------------------------------------

/// What `base64`'s URL-safe engine without padding decodes a text to.
pub uninterp spec fn base64_url_nopad_decode(text: Seq<char>) -> Option<Seq<u8>>;

/// What `base64`'s standard engine decodes a text to.
pub uninterp spec fn base64_standard_decode(text: Seq<char>) -> Option<Seq<u8>>;

/// What `base64`'s URL-safe engine without padding encodes bytes to.
pub uninterp spec fn base64_url_nopad_encode(bytes: Seq<u8>) -> Seq<char>;

/// The Ed25519 public key of a 32-byte seed.
pub uninterp spec fn ed25519_public_key(seed: Seq<u8>) -> Seq<u8>;

/// The Ed25519 signature of a message under the key of a 32-byte seed.
pub uninterp spec fn ed25519_signature(seed: Seq<u8>, message: Seq<u8>) -> Seq<u8>;

/// Whether `ring` accepts a signature of a message under a public key.
pub uninterp spec fn ed25519_accepts(public_key: Seq<u8>, message: Seq<u8>, signature: Seq<u8>) -> bool;

/// Calls `URL_SAFE_NO_PAD.decode`; the contract names the result as a
/// function of the text, `None` where the engine refuses it.
#[verifier::external_body]
fn decode_url_safe_no_pad(text: &str) -> (r: Option<Vec<u8>>)
    ensures
        match r {
            Some(b) => base64_url_nopad_decode(text@) == Some(b@),
            None => base64_url_nopad_decode(text@) is None,
        },
{
    base64::engine::general_purpose::URL_SAFE_NO_PAD.decode(text).ok()
}

/// Calls `STANDARD.decode`; the contract names the result as a function of
/// the text, `None` where the engine refuses it.
#[verifier::external_body]
pub(crate) fn decode_standard(text: &str) -> (r: Option<Vec<u8>>)
    ensures
        match r {
            Some(b) => base64_standard_decode(text@) == Some(b@),
            None => base64_standard_decode(text@) is None,
        },
{
    base64::engine::general_purpose::STANDARD.decode(text).ok()
}

/// Calls `URL_SAFE_NO_PAD.encode`; the contract names the text as a function
/// of the bytes, and claims that the same engine decodes it back to them.
#[verifier::external_body]
pub(crate) fn encode_url_safe_no_pad(bytes: &[u8]) -> (r: String)
    ensures
        r@ == base64_url_nopad_encode(bytes@),
        base64_url_nopad_decode(r@) == Some(bytes@),
{
    base64::engine::general_purpose::URL_SAFE_NO_PAD.encode(bytes)
}

/// Calls `Ed25519KeyPair::from_seed_unchecked` and reads `public_key`; the
/// seed has the 32 bytes that the constructor accepts, and the public key
/// is 32 bytes, named as a function of the seed.
#[verifier::external_body]
fn ed25519_public_key_of(seed: &[u8]) -> (r: Vec<u8>)
    requires
        seed@.len() == 32,
    ensures
        r@ == ed25519_public_key(seed@),
        r@.len() == 32,
{
    match ring::signature::Ed25519KeyPair::from_seed_unchecked(seed) {
        Ok(key_pair) => ring::signature::KeyPair::public_key(&key_pair).as_ref().to_vec(),
        Err(_) => Vec::new(),
    }
}

/// Calls `Ed25519KeyPair::from_seed_unchecked` and `sign`; Ed25519 signing
/// is deterministic, so the 64-byte signature is named as a function of the
/// seed and the message; the contract claims that it verifies under the
/// seed's public key.
#[verifier::external_body]
pub(crate) fn ed25519_sign(seed: &[u8], message: &[u8]) -> (r: Vec<u8>)
    requires
        seed@.len() == 32,
    ensures
        r@ == ed25519_signature(seed@, message@),
        r@.len() == 64,
        ed25519_accepts(ed25519_public_key(seed@), message@, r@),
{
    match ring::signature::Ed25519KeyPair::from_seed_unchecked(seed) {
        Ok(key_pair) => key_pair.sign(message).as_ref().to_vec(),
        Err(_) => Vec::new(),
    }
}

/// Calls `UnparsedPublicKey::new(&ED25519, ..).verify`; whether it accepts
/// is named as a function of the key, the message and the signature.
#[verifier::external_body]
fn ed25519_verify(public_key: &[u8], message: &[u8], signature: &[u8]) -> (b: bool)
    ensures
        b == ed25519_accepts(public_key@, message@, signature@),
{
    ring::signature::UnparsedPublicKey::new(&ring::signature::ED25519, public_key).verify(
        message,
        signature,
    ).is_ok()
}

/// Key material in base64: URL-safe without padding, else standard.
pub open spec fn key_material(text: Seq<char>) -> Option<Seq<u8>> {
    match base64_url_nopad_decode(text) {
        Some(b) => Some(b),
        None => base64_standard_decode(text),
    }
}

fn decode_key_material(text: &str) -> (r: Option<Vec<u8>>)
    ensures
        match r {
            Some(b) => key_material(text@) == Some(b@),
            None => key_material(text@) is None,
        },
{
    match decode_url_safe_no_pad(text) {
        Some(b) => Some(b),
        None => decode_standard(text),
    }
}

// ---------------------------------------------------------------------------
// Issuers, signatures and errors
// ---------------------------------------------------------------------------

#[derive(Clone, Copy, Debug, PartialEq, Eq, Structural)]
pub enum ReceiptIssuerType {
    Local,
    Verifier,
    Hosted,
    Ci,
}

/// Who sealed a receipt: the kind of issuer, its key id, and the hash of
/// its public key.
#[derive(Clone, Debug, PartialEq, Eq)]
pub struct ReceiptIssuer {
    pub issuer_type: ReceiptIssuerType,
    pub kid: String,
    pub public_key_sha256: String,
}

#[derive(Clone, Copy, Debug, PartialEq, Eq, Structural)]
pub enum SignatureAlgorithm {
    Ed25519,
}

#[derive(Clone, Debug, PartialEq, Eq)]
pub struct ReceiptSignature {
    pub alg: SignatureAlgorithm,
    pub value: String,
}

/// Why a signature does not verify.
#[derive(Clone, Copy, Debug, PartialEq, Eq, Structural)]
pub enum SignatureVerificationFailure {
    UnsupportedIssuer,
    MissingKey,
    MalformedKey,
    KeyHashMismatch,
    MalformedSignature,
    SignatureMismatch,
}

#[derive(Clone, Copy, Debug, PartialEq, Eq, Structural)]
pub enum RuntimeReceiptSigningError {
    MissingSigner,
    MissingVerifier,
    MissingKeyId,
    MissingPublicKeySha256,
    MalformedPublicKeySha256,
    MissingIssuerType,
    UnsupportedIssuerType,
    UnsupportedAlgorithm,
    PseudoSignature,
    MalformedSignerKey,
    MalformedVerifierKey,
    IncompleteSigningEnv,
    MissingSigningEnv,
    SignatureVerification(SignatureVerificationFailure),
}

/// A local or verifier issuer cannot seal a production receipt.
pub open spec fn is_production_issuer_type(t: ReceiptIssuerType) -> bool {
    t == ReceiptIssuerType::Hosted || t == ReceiptIssuerType::Ci
}

/// `sha256:` and 64 hex digits.
pub open spec fn well_formed_sha256(value: Seq<char>) -> bool {
    match strip_prefix(value, "sha256:"@) {
        Some(hex) => hex.len() == 64 && all_hexdigits(hex),
        None => false,
    }
}

pub fn is_well_formed_sha256(value: &str) -> (b: bool)
    ensures
        b == well_formed_sha256(value@),
{
    let chars = chars_of(value);
    let prefix = chars_of("sha256:");
    match strip_prefix_chars(&chars, &prefix) {
        Some(hex) => hex.len() == 64 && all_ascii_hexdigits(&hex),
        None => false,
    }
}

/// What an issuer needs to seal a production receipt, checked in order.
pub open spec fn production_issuer_check(issuer: ReceiptIssuer) -> Result<
    (),
    RuntimeReceiptSigningError,
> {
    if !is_production_issuer_type(issuer.issuer_type) {
        Err(RuntimeReceiptSigningError::UnsupportedIssuerType)
    } else if is_blank(issuer.kid@) {
        Err(RuntimeReceiptSigningError::MissingKeyId)
    } else if is_blank(issuer.public_key_sha256@) {
        Err(RuntimeReceiptSigningError::MissingPublicKeySha256)
    } else if !well_formed_sha256(issuer.public_key_sha256@) {
        Err(RuntimeReceiptSigningError::MalformedPublicKeySha256)
    } else {
        Ok(())
    }
}

pub fn validate_production_issuer(issuer: &ReceiptIssuer) -> (r: Result<
    (),
    RuntimeReceiptSigningError,
>)
    ensures
        r == production_issuer_check(*issuer),
{
    match issuer.issuer_type {
        ReceiptIssuerType::Local | ReceiptIssuerType::Verifier => {
            return Err(RuntimeReceiptSigningError::UnsupportedIssuerType);
        },
        _ => {},
    }
    if crate::text::blank_str(issuer.kid.as_str()) {
        return Err(RuntimeReceiptSigningError::MissingKeyId);
    }
    if crate::text::blank_str(issuer.public_key_sha256.as_str()) {
        return Err(RuntimeReceiptSigningError::MissingPublicKeySha256);
    }
    if !is_well_formed_sha256(issuer.public_key_sha256.as_str()) {
        return Err(RuntimeReceiptSigningError::MalformedPublicKeySha256);
    }
    Ok(())
}

/// The issuer type that production signing accepts from its environment.
pub open spec fn production_issuer_type(value: Seq<char>) -> Option<ReceiptIssuerType> {
    if value == "hosted"@ {
        Some(ReceiptIssuerType::Hosted)
    } else if value == "ci"@ {
        Some(ReceiptIssuerType::Ci)
    } else {
        None
    }
}

pub fn parse_production_issuer_type(value: &str) -> (r: Result<
    ReceiptIssuerType,
    RuntimeReceiptSigningError,
>)
    ensures
        match production_issuer_type(value@) {
            Some(t) => r == Ok::<ReceiptIssuerType, RuntimeReceiptSigningError>(t),
            None => r == Err::<ReceiptIssuerType, RuntimeReceiptSigningError>(
                RuntimeReceiptSigningError::UnsupportedIssuerType,
            ),
        },
{
    if str_eq(value, "hosted") {
        Ok(ReceiptIssuerType::Hosted)
    } else if str_eq(value, "ci") {
        Ok(ReceiptIssuerType::Ci)
    } else {
        Err(RuntimeReceiptSigningError::UnsupportedIssuerType)
    }
}

/// A local pseudo signature: `sig:` and anything.
pub fn is_local_pseudo_signature(value: &str) -> (b: bool)
    ensures
        b == starts_with(value@, "sig:"@),
{
    starts_with_chars(&chars_of(value), &chars_of("sig:"))
}

/// Environment variables that configure receipt signing.
pub fn is_receipt_signing_env_name(name: &str) -> (b: bool)
    ensures
        b == starts_with(name@, RECEIPT_SIGNING_ENV_PREFIX@),
{
    starts_with_chars(&chars_of(name), &chars_of(RECEIPT_SIGNING_ENV_PREFIX))
}

/// Drops every receipt signing variable from an environment.
pub fn strip_receipt_signing_env(env: &mut EnvVars)
    requires
        old(env).wf(),
    ensures
        final(env).wf(),
        forall|k: Seq<char>| #[trigger]
            final(env)@.contains_key(k) <==> old(env)@.contains_key(k) && !starts_with(
                k,
                RECEIPT_SIGNING_ENV_PREFIX@,
            ),
        forall|k: Seq<char>| #[trigger] final(env)@.contains_key(k) ==> final(env)@[k] == old(env)@[k],
{
    env.remove_prefixed(RECEIPT_SIGNING_ENV_PREFIX);
}

// ---------------------------------------------------------------------------
// Keys
// ---------------------------------------------------------------------------

/// A production verification key: a key id and the public key it names.
#[derive(Clone, Debug, PartialEq, Eq)]
pub struct ProductionReceiptKey {
    kid: String,
    public_key: Vec<u8>,
}

/// `sha256:` and the hex digest of a public key.
pub open spec fn key_hash(public_key: Seq<u8>) -> Seq<char> {
    "sha256:"@ + lower_hex(sha256_digest(public_key))
}

impl ProductionReceiptKey {
    pub closed spec fn kid_view(&self) -> Seq<char> {
        self.kid@
    }

    pub closed spec fn key_view(&self) -> Seq<u8> {
        self.public_key@
    }

    pub fn new(kid: &str, public_key: Vec<u8>) -> (k: Self)
        ensures
            k.kid_view() == kid@,
            k.key_view() == public_key@,
    {
        ProductionReceiptKey { kid: kid.to_owned(), public_key }
    }

    pub fn kid(&self) -> (r: &str)
        ensures
            r@ == self.kid_view(),
    {
        self.kid.as_str()
    }

    pub fn public_key(&self) -> (r: &[u8])
        ensures
            r@ == self.key_view(),
    {
        self.public_key.as_slice()
    }

    /// `sha256:` and the hex digest of the public key.
    pub fn public_key_sha256(&self) -> (r: String)
        ensures
            r@ == key_hash(self.key_view()),
    {
        sha256_prefixed(&self.public_key)
    }
}

// ---------------------------------------------------------------------------
// Signing
// ---------------------------------------------------------------------------

/// Signs receipt bodies with the Ed25519 key of a seed, as a production
/// issuer.
pub struct Ed25519ReceiptSigner {
    issuer: ReceiptIssuer,
    seed: Vec<u8>,
    public_key: Vec<u8>,
}

impl Ed25519ReceiptSigner {
    #[verifier::type_invariant]
    closed spec fn inv(self) -> bool {
        &&& self.seed@.len() == 32
        &&& self.public_key@ == ed25519_public_key(self.seed@)
        &&& self.public_key@.len() == 32
        &&& self.issuer.public_key_sha256@ == key_hash(self.public_key@)
        &&& production_issuer_check(self.issuer) is Ok
    }

    pub closed spec fn issuer_view(&self) -> ReceiptIssuer {
        self.issuer
    }

    pub closed spec fn seed_view(&self) -> Seq<u8> {
        self.seed@
    }

    /// A signer for a 32-byte seed; the issuer it makes must be a
    /// production issuer.
    pub fn from_seed(kid: &str, issuer_type: ReceiptIssuerType, seed: &[u8]) -> (r: Result<
        Self,
        RuntimeReceiptSigningError,
    >)
        ensures
            seed@.len() != 32 ==> r == Err::<Self, RuntimeReceiptSigningError>(
                RuntimeReceiptSigningError::MalformedSignerKey,
            ),
            seed@.len() == 32 && !is_production_issuer_type(issuer_type) ==> r == Err::<
                Self,
                RuntimeReceiptSigningError,
            >(RuntimeReceiptSigningError::UnsupportedIssuerType),
            seed@.len() == 32 && is_production_issuer_type(issuer_type) && is_blank(kid@) ==> r
                == Err::<Self, RuntimeReceiptSigningError>(RuntimeReceiptSigningError::MissingKeyId),
            r is Ok <==> seed@.len() == 32 && is_production_issuer_type(issuer_type) && !is_blank(
                kid@,
            ),
            r matches Ok(s) ==> s.seed_view() == seed@ && s.issuer_view().issuer_type == issuer_type
                && s.issuer_view().kid@ == kid@ && s.issuer_view().public_key_sha256@ == key_hash(
                ed25519_public_key(seed@),
            ),
    {
        if seed.len() != 32 {
            return Err(RuntimeReceiptSigningError::MalformedSignerKey);
        }
        let public_key = ed25519_public_key_of(seed);
        let issuer = ReceiptIssuer {
            issuer_type,
            kid: kid.to_owned(),
            public_key_sha256: sha256_prefixed(&public_key),
        };
        proof {
            lemma_key_hash_well_formed(public_key@);
        }
        match validate_production_issuer(&issuer) {
            Ok(()) => {},
            Err(e) => return Err(e),
        }
        let mut owned: Vec<u8> = Vec::new();
        let mut i: usize = 0;
        while i < seed.len()
            invariant
                i <= seed@.len(),
                owned@ == seed@.take(i as int),
            decreases seed.len() - i,
        {
            owned.push(seed[i]);
            assert(owned@ =~= seed@.take(i + 1));
            i += 1;
        }
        assert(owned@ =~= seed@);
        Ok(Ed25519ReceiptSigner { issuer, seed: owned, public_key })
    }

    /// A signer for a base64 seed (URL-safe without padding, else standard).
    pub fn from_seed_base64(kid: &str, issuer_type: ReceiptIssuerType, seed: &str) -> (r: Result<
        Self,
        RuntimeReceiptSigningError,
    >)
        ensures
            match key_material(seed@) {
                None => r == Err::<Self, RuntimeReceiptSigningError>(
                    RuntimeReceiptSigningError::MalformedSignerKey,
                ),
                Some(bytes) => (r is Ok <==> bytes.len() == 32 && is_production_issuer_type(
                    issuer_type,
                ) && !is_blank(kid@)) && (bytes.len() != 32 ==> r == Err::<
                    Self,
                    RuntimeReceiptSigningError,
                >(RuntimeReceiptSigningError::MalformedSignerKey)) && (r matches Ok(s) ==> s.seed_view() == bytes
                    && s.issuer_view().kid@ == kid@ && s.issuer_view().issuer_type == issuer_type),
            },
    {
        match decode_key_material(seed) {
            Some(bytes) => Self::from_seed(kid, issuer_type, bytes.as_slice()),
            None => Err(RuntimeReceiptSigningError::MalformedSignerKey),
        }
    }

    /// The verification key of this signer.
    pub fn production_key(&self) -> (k: ProductionReceiptKey)
        ensures
            k.kid_view() == self.issuer_view().kid@,
            k.key_view() == ed25519_public_key(self.seed_view()),
    {
        proof {
            use_type_invariant(self);
        }
        ProductionReceiptKey { kid: self.issuer.kid.clone(), public_key: self.public_key.clone() }
    }

    pub fn public_key(&self) -> (r: &[u8])
        ensures
            r@ == ed25519_public_key(self.seed_view()),
    {
        proof {
            use_type_invariant(self);
        }
        self.public_key.as_slice()
    }

    pub fn issuer(&self) -> (r: ReceiptIssuer)
        ensures
            r.issuer_type == self.issuer_view().issuer_type,
            r.kid@ == self.issuer_view().kid@,
            r.public_key_sha256@ == self.issuer_view().public_key_sha256@,
    {
        ReceiptIssuer {
            issuer_type: self.issuer.issuer_type,
            kid: self.issuer.kid.clone(),
            public_key_sha256: self.issuer.public_key_sha256.clone(),
        }
    }

    /// Signs the UTF-8 bytes of a body digest: `base64:` and the URL-safe
    /// base64 of the Ed25519 signature. Such a signature verifies for this
    /// signer's issuer under any verifier whose key of that key id is this
    /// signer's public key.
    pub fn sign_receipt_body(&self, body_digest: &str) -> (r: Result<
        ReceiptSignature,
        RuntimeReceiptSigningError,
    >)
        ensures
            r matches Ok(s) && s.alg == SignatureAlgorithm::Ed25519 && s.value@
                == RECEIPT_SIGNATURE_BASE64_PREFIX@ + base64_url_nopad_encode(
                ed25519_signature(self.seed_view(), crate::receipt_paths::utf8(body_digest@)),
            ),
            r matches Ok(s) ==> forall|keys: Seq<ProductionReceiptKey>|
                #![trigger resolve_key_spec(keys, self.issuer_view())]
                resolve_key_spec(keys, self.issuer_view()) matches Ok(i) && keys[i].key_view()
                    == ed25519_public_key(self.seed_view()) ==> verify_spec(
                    keys,
                    self.issuer_view(),
                    s,
                    body_digest@,
                ) == Ok::<(), SignatureVerificationFailure>(()),
    {
        proof {
            use_type_invariant(self);
        }
        let message = body_digest.as_bytes();
        let signature = ed25519_sign(self.seed.as_slice(), message);
        let encoded = encode_url_safe_no_pad(signature.as_slice());
        let value = concat(RECEIPT_SIGNATURE_BASE64_PREFIX, encoded.as_str());
        let s = ReceiptSignature { alg: SignatureAlgorithm::Ed25519, value };
        proof {
            reveal_strlit("base64:");
            assert(value@.subrange(0, 7) =~= RECEIPT_SIGNATURE_BASE64_PREFIX@);
            assert(value@.subrange(7, value@.len() as int) =~= encoded@);
            assert(signature_bytes(value@) == Some(signature@));
            assert(message@ == crate::receipt_paths::utf8(body_digest@));
        }
        Ok(s)
    }
}

// ---------------------------------------------------------------------------
// Verifying
// ---------------------------------------------------------------------------

/// Verifies production receipt signatures against known keys.
#[derive(Debug)]
pub struct Ed25519ReceiptVerifier {
    keys: Vec<ProductionReceiptKey>,
}

/// The key at `i` has the key id `kid`.
pub open spec fn key_named(keys: Seq<ProductionReceiptKey>, kid: Seq<char>) -> spec_fn(int) -> bool {
    |i: int| keys[i].kid_view() == kid
}

/// The key that verifies an issuer's signatures: a production issuer with
/// a key id, and the first key of that id.
pub open spec fn resolve_key_spec(keys: Seq<ProductionReceiptKey>, issuer: ReceiptIssuer) -> Result<
    int,
    SignatureVerificationFailure,
> {
    if !is_production_issuer_type(issuer.issuer_type) {
        Err(SignatureVerificationFailure::UnsupportedIssuer)
    } else if is_blank(issuer.kid@) {
        Err(SignatureVerificationFailure::MissingKey)
    } else {
        match first_index(keys.len() as int, key_named(keys, issuer.kid@)) {
            Some(i) => Ok(i),
            None => Err(SignatureVerificationFailure::MissingKey),
        }
    }
}

/// The bytes of a signature value: `base64:` and base64 (URL-safe without
/// padding, else standard).
pub open spec fn signature_bytes(value: Seq<char>) -> Option<Seq<u8>> {
    match strip_prefix(value, RECEIPT_SIGNATURE_BASE64_PREFIX@) {
        Some(encoded) => key_material(encoded),
        None => None,
    }
}

/// Whether a signature verifies, or the first check it fails: the issuer's
/// key is found, is 32 bytes, hashes to the issuer's key hash, and the
/// 64-byte signature is accepted over the UTF-8 body digest.
pub open spec fn verify_spec(
    keys: Seq<ProductionReceiptKey>,
    issuer: ReceiptIssuer,
    signature: ReceiptSignature,
    body_digest: Seq<char>,
) -> Result<(), SignatureVerificationFailure> {
    match resolve_key_spec(keys, issuer) {
        Err(f) => Err(f),
        Ok(i) => {
            let key = keys[i].key_view();
            if key.len() != 32 {
                Err(SignatureVerificationFailure::MalformedKey)
            } else if issuer.public_key_sha256@ != key_hash(key) {
                Err(SignatureVerificationFailure::KeyHashMismatch)
            } else {
                match signature_bytes(signature.value@) {
                    None => Err(SignatureVerificationFailure::MalformedSignature),
                    Some(bytes) => {
                        if bytes.len() != 64 {
                            Err(SignatureVerificationFailure::MalformedSignature)
                        } else if ed25519_accepts(key, crate::receipt_paths::utf8(body_digest), bytes) {
                            Ok(())
                        } else {
                            Err(SignatureVerificationFailure::SignatureMismatch)
                        }
                    },
                }
            }
        },
    }
}

impl Ed25519ReceiptVerifier {
    pub closed spec fn keys_view(&self) -> Seq<ProductionReceiptKey> {
        self.keys@
    }

    pub fn new(keys: Vec<ProductionReceiptKey>) -> (v: Self)
        ensures
            v.keys_view() == keys@,
    {
        Ed25519ReceiptVerifier { keys }
    }

    /// A verifier of one key.
    pub fn from_public_key(kid: &str, public_key: Vec<u8>) -> (v: Self)
        ensures
            v.keys_view().len() == 1,
            v.keys_view()[0].kid_view() == kid@,
            v.keys_view()[0].key_view() == public_key@,
    {
        let mut keys: Vec<ProductionReceiptKey> = Vec::new();
        keys.push(ProductionReceiptKey::new(kid, public_key));
        Ed25519ReceiptVerifier { keys }
    }

    /// A verifier of one key given in base64 (URL-safe without padding,
    /// else standard).
    pub fn from_public_key_base64(kid: &str, public_key: &str) -> (r: Result<
        Self,
        RuntimeReceiptSigningError,
    >)
        ensures
            match key_material(public_key@) {
                None => r matches Err(e) && e == RuntimeReceiptSigningError::MalformedVerifierKey,
                Some(bytes) => r matches Ok(v) && v.keys_view().len() == 1
                    && v.keys_view()[0].kid_view() == kid@ && v.keys_view()[0].key_view() == bytes,
            },
    {
        match decode_key_material(public_key) {
            Some(bytes) => Ok(Self::from_public_key(kid, bytes)),
            None => Err(RuntimeReceiptSigningError::MalformedVerifierKey),
        }
    }

    pub fn keys(&self) -> (r: &[ProductionReceiptKey])
        ensures
            r@ == self.keys_view(),
    {
        self.keys.as_slice()
    }

    fn resolve_key(&self, issuer: &ReceiptIssuer) -> (r: Result<usize, SignatureVerificationFailure>)
        ensures
            r matches Ok(i) ==> resolve_key_spec(self.keys_view(), *issuer) == Ok::<
                int,
                SignatureVerificationFailure,
            >(i as int) && i < self.keys_view().len(),
            r matches Err(f) ==> resolve_key_spec(self.keys_view(), *issuer) == Err::<
                int,
                SignatureVerificationFailure,
            >(f),
    {
        match issuer.issuer_type {
            ReceiptIssuerType::Local | ReceiptIssuerType::Verifier => {
                return Err(SignatureVerificationFailure::UnsupportedIssuer);
            },
            _ => {},
        }
        if crate::text::blank_str(issuer.kid.as_str()) {
            return Err(SignatureVerificationFailure::MissingKey);
        }
        let ghost p = key_named(self.keys@, issuer.kid@);
        let mut i: usize = 0;
        while i < self.keys.len()
            invariant
                i <= self.keys@.len(),
                p == key_named(self.keys@, issuer.kid@),
                is_production_issuer_type(issuer.issuer_type),
                !is_blank(issuer.kid@),
                first_index(i as int, p) is None,
            decreases self.keys.len() - i,
        {
            if str_eq(self.keys[i].kid.as_str(), issuer.kid.as_str()) {
                assert(p(i as int));
                assert(first_index(i + 1, p) == Some(i as int));
                proof {
                    lemma_first_index_extend(i + 1, self.keys@.len() as int, p);
                }
                return Ok(i);
            }
            assert(first_index(i + 1, p) is None);
            i += 1;
        }
        Err(SignatureVerificationFailure::MissingKey)
    }

    /// Whether a signature over a body digest verifies for its issuer, or
    /// the first check it fails (see `verify_spec`).
    pub fn verify(
        &self,
        issuer: &ReceiptIssuer,
        signature: &ReceiptSignature,
        body_digest: &str,
    ) -> (r: Result<(), SignatureVerificationFailure>)
        ensures
            r == verify_spec(self.keys_view(), *issuer, *signature, body_digest@),
    {
        let i = match self.resolve_key(issuer) {
            Ok(i) => i,
            Err(f) => return Err(f),
        };
        let key = &self.keys[i];
        assert(resolve_key_spec(self.keys@, *issuer) == Ok::<int, SignatureVerificationFailure>(
            i as int,
        ));
        assert(self.keys@[i as int].key_view() == key.public_key@);
        if key.public_key.len() != 32 {
            return Err(SignatureVerificationFailure::MalformedKey);
        }
        let hash = key.public_key_sha256();
        if !str_eq(issuer.public_key_sha256.as_str(), hash.as_str()) {
            return Err(SignatureVerificationFailure::KeyHashMismatch);
        }
        let value = chars_of(signature.value.as_str());
        let prefix = chars_of(RECEIPT_SIGNATURE_BASE64_PREFIX);
        let encoded = match strip_prefix_chars(&value, &prefix) {
            Some(e) => crate::text::string_of(&e),
            None => return Err(SignatureVerificationFailure::MalformedSignature),
        };
        let bytes = match decode_key_material(encoded.as_str()) {
            Some(b) => b,
            None => return Err(SignatureVerificationFailure::MalformedSignature),
        };
        if bytes.len() != 64 {
            return Err(SignatureVerificationFailure::MalformedSignature);
        }
        if ed25519_verify(key.public_key.as_slice(), body_digest.as_bytes(), bytes.as_slice()) {
            Ok(())
        } else {
            Err(SignatureVerificationFailure::SignatureMismatch)
        }
    }
}

// ---------------------------------------------------------------------------
// Configuration
// ---------------------------------------------------------------------------

/// How receipts are signed: locally (no production material) or with a
/// production signer and the verifier of its key.
pub struct RuntimeReceiptSignatureConfig {
    production: Option<(Ed25519ReceiptSigner, Ed25519ReceiptVerifier)>,
}

impl RuntimeReceiptSignatureConfig {
    pub closed spec fn is_production(&self) -> bool {
        self.production is Some
    }

    pub closed spec fn signer_view(&self) -> Ed25519ReceiptSigner {
        self.production->Some_0.0
    }

    pub closed spec fn verifier_view(&self) -> Ed25519ReceiptVerifier {
        self.production->Some_0.1
    }

    /// No production signing.
    pub fn local_development() -> (c: Self)
        ensures
            !c.is_production(),
    {
        RuntimeReceiptSignatureConfig { production: None }
    }

    pub fn production_signing(signer: Ed25519ReceiptSigner, verifier: Ed25519ReceiptVerifier) -> (c:
        Self)
        ensures
            c.is_production(),
            c.signer_view() == signer,
            c.verifier_view() == verifier,
    {
        RuntimeReceiptSignatureConfig { production: Some((signer, verifier)) }
    }

    /// The production key of key id `kid`, where production signing is
    /// configured with that key id.
    pub fn production_key_for_kid(&self, kid: &str) -> (r: Option<ProductionReceiptKey>)
        ensures
            r is Some <==> self.is_production() && self.signer_view().issuer_view().kid@ == kid@,
            r matches Some(k) ==> k.kid_view() == kid@ && k.key_view() == ed25519_public_key(
                self.signer_view().seed_view(),
            ),
    {
        match &self.production {
            Some((signer, _)) => {
                let key = signer.production_key();
                if str_eq(key.kid(), kid) {
                    Some(key)
                } else {
                    None
                }
            },
            None => None,
        }
    }

    /// Production signing from the environment: the key id, the base64
    /// seed and the issuer type are set together (each trimmed and not
    /// blank), or none of them is.
    pub fn from_env(env: &EnvVars) -> (r: Result<Self, RuntimeReceiptSigningError>)
        requires
            env.wf(),
        ensures
            ({
                let kid = env_value(env@, RUNX_RECEIPT_SIGN_KID_ENV@);
                let seed = env_value(env@, RUNX_RECEIPT_SIGN_ED25519_SEED_BASE64_ENV@);
                let issuer = env_value(env@, RUNX_RECEIPT_SIGN_ISSUER_TYPE_ENV@);
                if kid is None && seed is None && issuer is None {
                    r == Err::<Self, RuntimeReceiptSigningError>(
                        RuntimeReceiptSigningError::MissingSigningEnv,
                    )
                } else if kid is Some && seed is Some && issuer is None {
                    r == Err::<Self, RuntimeReceiptSigningError>(
                        RuntimeReceiptSigningError::MissingIssuerType,
                    )
                } else if kid is None || seed is None || issuer is None {
                    r == Err::<Self, RuntimeReceiptSigningError>(
                        RuntimeReceiptSigningError::IncompleteSigningEnv,
                    )
                } else {
                    match production_issuer_type(issuer->Some_0) {
                        None => r == Err::<Self, RuntimeReceiptSigningError>(
                            RuntimeReceiptSigningError::UnsupportedIssuerType,
                        ),
                        Some(t) => match key_material(seed->Some_0) {
                            None => r == Err::<Self, RuntimeReceiptSigningError>(
                                RuntimeReceiptSigningError::MalformedSignerKey,
                            ),
                            Some(bytes) => if bytes.len() != 32 {
                                r == Err::<Self, RuntimeReceiptSigningError>(
                                    RuntimeReceiptSigningError::MalformedSignerKey,
                                )
                            } else {
                                r matches Ok(c) && c.is_production()
                                    && c.signer_view().seed_view() == bytes
                                    && c.signer_view().issuer_view().kid@ == kid->Some_0
                                    && c.signer_view().issuer_view().issuer_type == t
                                    && c.verifier_view().keys_view().len() == 1
                                    && c.verifier_view().keys_view()[0].kid_view() == kid->Some_0
                                    && c.verifier_view().keys_view()[0].key_view()
                                    == ed25519_public_key(bytes)
                            },
                        },
                    }
                }
            }),
    {
        let kid = non_empty_env(env, RUNX_RECEIPT_SIGN_KID_ENV);
        let seed = non_empty_env(env, RUNX_RECEIPT_SIGN_ED25519_SEED_BASE64_ENV);
        let issuer = non_empty_env(env, RUNX_RECEIPT_SIGN_ISSUER_TYPE_ENV);
        match (kid, seed, issuer) {
            (None, None, None) => Err(RuntimeReceiptSigningError::MissingSigningEnv),
            (Some(kid), Some(seed), Some(issuer)) => {
                proof {
                    crate::text::lemma_trim_not_blank(env@[RUNX_RECEIPT_SIGN_KID_ENV@]);
                }
                let issuer_type = match parse_production_issuer_type(issuer.as_str()) {
                    Ok(t) => t,
                    Err(e) => return Err(e),
                };
                let signer = match Ed25519ReceiptSigner::from_seed_base64(
                    kid.as_str(),
                    issuer_type,
                    seed.as_str(),
                ) {
                    Ok(s) => s,
                    Err(e) => return Err(e),
                };
                let mut keys: Vec<ProductionReceiptKey> = Vec::new();
                keys.push(signer.production_key());
                let verifier = Ed25519ReceiptVerifier::new(keys);
                Ok(Self::production_signing(signer, verifier))
            },
            (Some(_), Some(_), None) => Err(RuntimeReceiptSigningError::MissingIssuerType),
            _ => Err(RuntimeReceiptSigningError::IncompleteSigningEnv),
        }
    }
}

/// A variable's value, trimmed, where it is set and not blank.
pub open spec fn env_value(env: Map<Seq<char>, Seq<char>>, key: Seq<char>) -> Option<Seq<char>> {
    if env.contains_key(key) && !is_blank(env[key]) {
        Some(trim(env[key]))
    } else {
        None
    }
}

fn non_empty_env(env: &EnvVars, key: &str) -> (r: Option<String>)
    requires
        env.wf(),
    ensures
        match env_value(env@, key@) {
            Some(v) => r matches Some(x) && x@ == v,
            None => r is None,
        },
{
    match env.non_blank(key) {
        Some(value) => Some(crate::text::string_of(&trim_str(value.as_str()))),
        None => None,
    }
}

/// Lower-case hex has two digits per byte.
pub proof fn lemma_lower_hex_digits(bytes: Seq<u8>)
    ensures
        lower_hex(bytes).len() == 2 * bytes.len(),
        all_hexdigits(lower_hex(bytes)),
    decreases bytes.len(),
{
    if bytes.len() > 0 {
        lemma_lower_hex_digits(bytes.drop_last());
        let h = lower_hex(bytes.drop_last());
        let b = bytes.last();
        let d1 = crate::receipt_paths::hex_digit((b / 16) as nat);
        let d2 = crate::receipt_paths::hex_digit((b % 16) as nat);
        assert(crate::text::is_ascii_hexdigit(d1));
        assert(crate::text::is_ascii_hexdigit(d2));
        let full = h + seq![d1, d2];
        assert(full == lower_hex(bytes));
        assert forall|i: int| 0 <= i < full.len() implies crate::text::is_ascii_hexdigit(
            #[trigger] full[i],
        ) by {
            if i < h.len() {
                assert(full[i] == h[i]);
            }
        }
    }
}

/// The hash of a 32-byte digest is well formed: `sha256:` and 64 hex
/// digits; and it is not blank.
pub proof fn lemma_key_hash_well_formed(public_key: Seq<u8>)
    requires
        sha256_digest(public_key).len() == 32,
    ensures
        well_formed_sha256(key_hash(public_key)),
        !is_blank(key_hash(public_key)),
{
    let hex = lower_hex(sha256_digest(public_key));
    lemma_lower_hex_digits(sha256_digest(public_key));
    let h = key_hash(public_key);
    reveal_strlit("sha256:");
    assert(h.subrange(0, 7) =~= "sha256:"@);
    assert(h.subrange(7, h.len() as int) =~= hex);
    assert(strip_prefix(h, "sha256:"@) == Some(hex));
    crate::text::lemma_blank_all_whitespace(h);
    assert(h[0] == 's');
    assert(!crate::text::is_whitespace(h[0]));
}

} // verus!
