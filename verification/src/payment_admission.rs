//! Payment admission tokens: the money movement a request names, the token
//! that admits it to rail settlement, and the canonical JSON both are
//! hashed and signed over.
use vstd::prelude::*;

use crate::hashing::{lower_hex, sha256_digest};
use crate::receipt_paths::utf8;
use crate::signing::{
    base64_standard_decode, base64_url_nopad_encode, decode_standard, ed25519_sign,
    ed25519_signature, encode_url_safe_no_pad,
};
use crate::text::{blank_str, concat, concat3, is_blank};

verus! {

pub const PAYMENT_ADMISSION_PURPOSE: &'static str = "runx.payment_admission.v1";

pub const PAYMENT_ADMISSION_AUDIENCE: &'static str = "rail_settlement";

pub const MONEY_MOVEMENT_DOMAIN: &'static str = "runx.money_movement.v1";

pub const PAYMENT_ADMISSION_SIGNATURE_BASE64_PREFIX: &'static str = "base64:";

/// A request to admit one money movement.
#[derive(Clone, Debug, PartialEq, Eq)]
pub struct PaymentAdmissionRequest {
    pub principal: String,
    pub act: String,
    pub rail: String,
    pub amount_minor: u64,
    pub currency: String,
    pub counterparty: Option<String>,
    pub run_id: String,
    pub authority_digest: String,
    pub expires_at: String,
}

/// A signed admission of one money movement to rail settlement.
#[derive(Clone, Debug, PartialEq, Eq)]
pub struct PaymentAdmissionToken {
    pub purpose: String,
    pub audience: String,
    pub principal: String,
    pub act: String,
    pub rail: String,
    pub amount_minor: u64,
    pub currency: String,
    pub counterparty: Option<String>,
    pub run_id: String,
    pub authority_digest: String,
    pub expires_at: String,
    pub money_movement_id: String,
    pub kid: String,
    pub sig: String,
}

/// An issued token, its canonical JSON and digest, and its money movement.
#[derive(Clone, Debug, PartialEq, Eq)]
pub struct PaymentAdmissionIssueResponse {
    pub token: PaymentAdmissionToken,
    pub token_canonical_json: String,
    pub token_digest: String,
    pub money_movement_id: String,
}

#[derive(Clone, Copy, Debug, PartialEq, Eq)]
pub enum PaymentAdmissionError {
    MissingKeyId,
    MalformedSignerKey,
    CanonicalJson,
    EmptyField(&'static str),
}

// ---------------------------------------------------------------------------
// Canonical JSON (serde_json)
// ---------------------------------------------------------------------------

/// A member value of a flat JSON object: a string or an unsigned integer.
#[derive(Clone, Debug)]
pub enum JsonScalar {
    Text(String),
    Number(u64),
}

pub enum JsonScalarView {
    Text(Seq<char>),
    Number(u64),
}

impl View for JsonScalar {
    type V = JsonScalarView;

    open spec fn view(&self) -> JsonScalarView {
        match self {
            JsonScalar::Text(s) => JsonScalarView::Text(s@),
            JsonScalar::Number(n) => JsonScalarView::Number(*n),
        }
    }
}

pub open spec fn member_views(members: Seq<(String, JsonScalar)>) -> Seq<(Seq<char>, JsonScalarView)> {
    members.map_values(|m: (String, JsonScalar)| (m.0@, m.1@))
}

/// The text `serde_json::to_string` renders a `serde_json::Map` object of
/// these members as (its keys in the map's order).
pub uninterp spec fn json_object_text(members: Seq<(Seq<char>, JsonScalarView)>) -> Seq<char>;

/// Builds a `serde_json::Map` of the members and renders it with
/// `serde_json::to_string`; the contract names the text as a function of
/// the members.
#[verifier::external_body]
fn canonical_object_json(members: &Vec<(String, JsonScalar)>) -> (r: String)
    ensures
        r@ == json_object_text(member_views(members@)),
{
    let mut map = serde_json::Map::new();
    for (key, value) in members {
        let value = match value {
            JsonScalar::Text(text) => serde_json::Value::String(text.clone()),
            JsonScalar::Number(number) => serde_json::Value::Number((*number).into()),
        };
        map.insert(key.clone(), value);
    }
    serde_json::to_string(&serde_json::Value::Object(map)).unwrap_or_default()
}

fn push_text(members: &mut Vec<(String, JsonScalar)>, key: &str, value: &str)
    ensures
        member_views(final(members)@) == member_views(old(members)@).push(
            (key@, JsonScalarView::Text(value@)),
        ),
{
    let ghost before = member_views(members@);
    members.push((key.to_owned(), JsonScalar::Text(value.to_owned())));
    assert(member_views(members@) =~= before.push((key@, JsonScalarView::Text(value@))));
}

fn push_number(members: &mut Vec<(String, JsonScalar)>, key: &str, value: u64)
    ensures
        member_views(final(members)@) == member_views(old(members)@).push(
            (key@, JsonScalarView::Number(value)),
        ),
{
    let ghost before = member_views(members@);
    members.push((key.to_owned(), JsonScalar::Number(value)));
    assert(member_views(members@) =~= before.push((key@, JsonScalarView::Number(value))));
}

// ---------------------------------------------------------------------------
// The money movement
// ---------------------------------------------------------------------------

/// What names a money movement: who moves how much of what, on which rail,
/// to whom, in which run, under which authority. Not when it expires.
pub open spec fn preimage_members(r: PaymentAdmissionRequest) -> Seq<(Seq<char>, JsonScalarView)> {
    let head = seq![("act"@, JsonScalarView::Text(r.act@)), ("amount_minor"@, JsonScalarView::Number(r.amount_minor))];
    let with_counterparty = match r.counterparty {
        Some(c) => head.push(("counterparty"@, JsonScalarView::Text(c@))),
        None => head,
    };
    with_counterparty + seq![
        ("authority_digest"@, JsonScalarView::Text(r.authority_digest@)),
        ("currency"@, JsonScalarView::Text(r.currency@)),
        ("principal"@, JsonScalarView::Text(r.principal@)),
        ("rail"@, JsonScalarView::Text(r.rail@)),
        ("run_id"@, JsonScalarView::Text(r.run_id@)),
    ]
}

/// `sha256:` and the hex digest of some text's UTF-8 bytes.
pub open spec fn sha256_text(text: Seq<char>) -> Seq<char> {
    "sha256:"@ + lower_hex(sha256_digest(utf8(text)))
}

/// The money movement id of a request: the digest of the domain and the
/// canonical JSON of its preimage.
pub open spec fn money_movement_id_spec(r: PaymentAdmissionRequest) -> Seq<char> {
    sha256_text(MONEY_MOVEMENT_DOMAIN@ + "\n"@ + json_object_text(preimage_members(r)))
}

/// The first field of a request that is blank, if one is.
pub open spec fn empty_field(r: PaymentAdmissionRequest) -> Option<Seq<char>> {
    if is_blank(r.principal@) {
        Some("principal"@)
    } else if is_blank(r.act@) {
        Some("act"@)
    } else if is_blank(r.rail@) {
        Some("rail"@)
    } else if is_blank(r.currency@) {
        Some("currency"@)
    } else if r.counterparty matches Some(c) && is_blank(c@) {
        Some("counterparty"@)
    } else if is_blank(r.run_id@) {
        Some("run_id"@)
    } else if is_blank(r.authority_digest@) {
        Some("authority_digest"@)
    } else if is_blank(r.expires_at@) {
        Some("expires_at"@)
    } else {
        None
    }
}

fn require_non_empty(field: &'static str, value: &str) -> (r: Result<(), PaymentAdmissionError>)
    ensures
        r is Ok <==> !is_blank(value@),
        r matches Err(e) ==> e matches PaymentAdmissionError::EmptyField(f) && f@ == field@,
{
    if blank_str(value) {
        return Err(PaymentAdmissionError::EmptyField(field));
    }
    Ok(())
}

/// Every field of a request must be non-blank.
pub fn validate_request(request: &PaymentAdmissionRequest) -> (r: Result<(), PaymentAdmissionError>)
    ensures
        match empty_field(*request) {
            Some(f) => r matches Err(PaymentAdmissionError::EmptyField(g)) && g@ == f,
            None => r is Ok,
        },
{
    require_non_empty("principal", request.principal.as_str())?;
    require_non_empty("act", request.act.as_str())?;
    require_non_empty("rail", request.rail.as_str())?;
    require_non_empty("currency", request.currency.as_str())?;
    if let Some(counterparty) = &request.counterparty {
        require_non_empty("counterparty", counterparty.as_str())?;
    }
    require_non_empty("run_id", request.run_id.as_str())?;
    require_non_empty("authority_digest", request.authority_digest.as_str())?;
    require_non_empty("expires_at", request.expires_at.as_str())
}

fn preimage(request: &PaymentAdmissionRequest) -> (m: Vec<(String, JsonScalar)>)
    ensures
        member_views(m@) == preimage_members(*request),
{
    let mut m: Vec<(String, JsonScalar)> = Vec::new();
    push_text(&mut m, "act", request.act.as_str());
    push_number(&mut m, "amount_minor", request.amount_minor);
    if let Some(counterparty) = &request.counterparty {
        push_text(&mut m, "counterparty", counterparty.as_str());
    }
    push_text(&mut m, "authority_digest", request.authority_digest.as_str());
    push_text(&mut m, "currency", request.currency.as_str());
    push_text(&mut m, "principal", request.principal.as_str());
    push_text(&mut m, "rail", request.rail.as_str());
    push_text(&mut m, "run_id", request.run_id.as_str());
    assert(member_views(m@) =~= preimage_members(*request));
    m
}

fn sha256_of_text(text: &str) -> (r: String)
    ensures
        r@ == sha256_text(text@),
{
    crate::hashing::stable_hash(text)
}

/// The money movement id of a valid request.
pub fn derive_money_movement_id(request: &PaymentAdmissionRequest) -> (r: Result<
    String,
    PaymentAdmissionError,
>)
    ensures
        match empty_field(*request) {
            Some(f) => r matches Err(PaymentAdmissionError::EmptyField(g)) && g@ == f,
            None => r matches Ok(id) && id@ == money_movement_id_spec(*request),
        },
{
    validate_request(request)?;
    let canonical = canonical_object_json(&preimage(request));
    let text = concat3(MONEY_MOVEMENT_DOMAIN, "\n", canonical.as_str());
    Ok(sha256_of_text(text.as_str()))
}

/// Refreshing a token keeps its money movement: requests that differ only
/// in when they expire name the same money movement.
pub proof fn lemma_money_movement_ignores_expiry(
    a: PaymentAdmissionRequest,
    b: PaymentAdmissionRequest,
)
    requires
        a.principal@ == b.principal@,
        a.act@ == b.act@,
        a.rail@ == b.rail@,
        a.amount_minor == b.amount_minor,
        a.currency@ == b.currency@,
        match (a.counterparty, b.counterparty) {
            (Some(x), Some(y)) => x@ == y@,
            (None, None) => true,
            _ => false,
        },
        a.run_id@ == b.run_id@,
        a.authority_digest@ == b.authority_digest@,
    ensures
        money_movement_id_spec(a) == money_movement_id_spec(b),
{
    assert(preimage_members(a) =~= preimage_members(b));
}

// ---------------------------------------------------------------------------
// Tokens
// ---------------------------------------------------------------------------

/// The members of a token's JSON, in key order; the signature where there
/// is one, and the counterparty where there is one.
pub open spec fn token_members(
    r: PaymentAdmissionRequest,
    money_movement_id: Seq<char>,
    kid: Seq<char>,
    sig: Option<Seq<char>>,
) -> Seq<(Seq<char>, JsonScalarView)> {
    let head = seq![
        ("act"@, JsonScalarView::Text(r.act@)),
        ("amount_minor"@, JsonScalarView::Number(r.amount_minor)),
        ("audience"@, JsonScalarView::Text(PAYMENT_ADMISSION_AUDIENCE@)),
        ("authority_digest"@, JsonScalarView::Text(r.authority_digest@)),
    ];
    let with_counterparty = match r.counterparty {
        Some(c) => head.push(("counterparty"@, JsonScalarView::Text(c@))),
        None => head,
    };
    let body = with_counterparty + seq![
        ("currency"@, JsonScalarView::Text(r.currency@)),
        ("expires_at"@, JsonScalarView::Text(r.expires_at@)),
        ("kid"@, JsonScalarView::Text(kid)),
        ("money_movement_id"@, JsonScalarView::Text(money_movement_id)),
        ("principal"@, JsonScalarView::Text(r.principal@)),
        ("purpose"@, JsonScalarView::Text(PAYMENT_ADMISSION_PURPOSE@)),
        ("rail"@, JsonScalarView::Text(r.rail@)),
        ("run_id"@, JsonScalarView::Text(r.run_id@)),
    ];
    match sig {
        Some(s) => body.push(("sig"@, JsonScalarView::Text(s))),
        None => body,
    }
}

/// The request a token admits.
pub open spec fn token_request(t: PaymentAdmissionToken) -> PaymentAdmissionRequest {
    PaymentAdmissionRequest {
        principal: t.principal,
        act: t.act,
        rail: t.rail,
        amount_minor: t.amount_minor,
        currency: t.currency,
        counterparty: t.counterparty,
        run_id: t.run_id,
        authority_digest: t.authority_digest,
        expires_at: t.expires_at,
    }
}

/// The canonical JSON of a token: the JSON object of its fields in key
/// order (a token's purpose and audience are its own).
pub open spec fn token_json_spec(t: PaymentAdmissionToken) -> Seq<char> {
    json_object_text(token_json_members(t))
}

pub open spec fn token_json_members(t: PaymentAdmissionToken) -> Seq<(Seq<char>, JsonScalarView)> {
    let head = seq![
        ("act"@, JsonScalarView::Text(t.act@)),
        ("amount_minor"@, JsonScalarView::Number(t.amount_minor)),
        ("audience"@, JsonScalarView::Text(t.audience@)),
        ("authority_digest"@, JsonScalarView::Text(t.authority_digest@)),
    ];
    let with_counterparty = match t.counterparty {
        Some(c) => head.push(("counterparty"@, JsonScalarView::Text(c@))),
        None => head,
    };
    with_counterparty + seq![
        ("currency"@, JsonScalarView::Text(t.currency@)),
        ("expires_at"@, JsonScalarView::Text(t.expires_at@)),
        ("kid"@, JsonScalarView::Text(t.kid@)),
        ("money_movement_id"@, JsonScalarView::Text(t.money_movement_id@)),
        ("principal"@, JsonScalarView::Text(t.principal@)),
        ("purpose"@, JsonScalarView::Text(t.purpose@)),
        ("rail"@, JsonScalarView::Text(t.rail@)),
        ("run_id"@, JsonScalarView::Text(t.run_id@)),
        ("sig"@, JsonScalarView::Text(t.sig@)),
    ]
}

fn token_json_members_exec(t: &PaymentAdmissionToken) -> (m: Vec<(String, JsonScalar)>)
    ensures
        member_views(m@) == token_json_members(*t),
{
    let mut m: Vec<(String, JsonScalar)> = Vec::new();
    push_text(&mut m, "act", t.act.as_str());
    push_number(&mut m, "amount_minor", t.amount_minor);
    push_text(&mut m, "audience", t.audience.as_str());
    push_text(&mut m, "authority_digest", t.authority_digest.as_str());
    if let Some(counterparty) = &t.counterparty {
        push_text(&mut m, "counterparty", counterparty.as_str());
    }
    push_text(&mut m, "currency", t.currency.as_str());
    push_text(&mut m, "expires_at", t.expires_at.as_str());
    push_text(&mut m, "kid", t.kid.as_str());
    push_text(&mut m, "money_movement_id", t.money_movement_id.as_str());
    push_text(&mut m, "principal", t.principal.as_str());
    push_text(&mut m, "purpose", t.purpose.as_str());
    push_text(&mut m, "rail", t.rail.as_str());
    push_text(&mut m, "run_id", t.run_id.as_str());
    push_text(&mut m, "sig", t.sig.as_str());
    assert(member_views(m@) =~= token_json_members(*t));
    m
}

/// The canonical JSON of a token.
pub fn payment_admission_token_canonical_json(token: &PaymentAdmissionToken) -> (r: Result<
    String,
    PaymentAdmissionError,
>)
    ensures
        r matches Ok(text) && text@ == token_json_spec(*token),
{
    Ok(canonical_object_json(&token_json_members_exec(token)))
}

/// The digest of a token: of its canonical JSON.
pub fn payment_admission_token_digest(token: &PaymentAdmissionToken) -> (r: Result<
    String,
    PaymentAdmissionError,
>)
    ensures
        r matches Ok(d) && d@ == sha256_text(token_json_spec(*token)),
{
    let canonical = payment_admission_token_canonical_json(token)?;
    Ok(sha256_of_text(canonical.as_str()))
}

fn copy_opt(value: &Option<String>) -> (r: Option<String>)
    ensures
        r == *value,
{
    match value {
        Some(s) => Some(s.clone()),
        None => None,
    }
}

fn token_members_exec(
    request: &PaymentAdmissionRequest,
    money_movement_id: &str,
    kid: &str,
    sig: Option<&str>,
) -> (m: Vec<(String, JsonScalar)>)
    ensures
        member_views(m@) == token_members(
            *request,
            money_movement_id@,
            kid@,
            match sig {
                Some(x) => Some(x@),
                None => None,
            },
        ),
{
    let mut m: Vec<(String, JsonScalar)> = Vec::new();
    push_text(&mut m, "act", request.act.as_str());
    push_number(&mut m, "amount_minor", request.amount_minor);
    push_text(&mut m, "audience", PAYMENT_ADMISSION_AUDIENCE);
    push_text(&mut m, "authority_digest", request.authority_digest.as_str());
    if let Some(counterparty) = &request.counterparty {
        push_text(&mut m, "counterparty", counterparty.as_str());
    }
    push_text(&mut m, "currency", request.currency.as_str());
    push_text(&mut m, "expires_at", request.expires_at.as_str());
    push_text(&mut m, "kid", kid);
    push_text(&mut m, "money_movement_id", money_movement_id);
    push_text(&mut m, "principal", request.principal.as_str());
    push_text(&mut m, "purpose", PAYMENT_ADMISSION_PURPOSE);
    push_text(&mut m, "rail", request.rail.as_str());
    push_text(&mut m, "run_id", request.run_id.as_str());
    if let Some(x) = sig {
        push_text(&mut m, "sig", x);
    }
    assert(member_views(m@) =~= token_members(
        *request,
        money_movement_id@,
        kid@,
        match sig {
            Some(x) => Some(x@),
            None => None,
        },
    ));
    m
}

/// Signs admission tokens with the Ed25519 key of a seed, under a key id.
#[derive(Debug)]
pub struct PaymentAdmissionSigner {
    kid: String,
    seed: Vec<u8>,
}

impl PaymentAdmissionSigner {
    #[verifier::type_invariant]
    closed spec fn inv(self) -> bool {
        self.seed@.len() == 32 && !is_blank(self.kid@)
    }

    pub closed spec fn kid_view(&self) -> Seq<char> {
        self.kid@
    }

    pub closed spec fn seed_view(&self) -> Seq<u8> {
        self.seed@
    }

    /// A signer for a key id (not blank) and a standard base64 seed of 32
    /// bytes.
    pub fn from_seed_base64(kid: &str, seed: &str) -> (r: Result<Self, PaymentAdmissionError>)
        ensures
            is_blank(kid@) ==> r == Err::<Self, PaymentAdmissionError>(
                PaymentAdmissionError::MissingKeyId,
            ),
            !is_blank(kid@) ==> match base64_standard_decode(seed@) {
                Some(bytes) => if bytes.len() == 32 {
                    r matches Ok(s) && s.kid_view() == kid@ && s.seed_view() == bytes
                } else {
                    r == Err::<Self, PaymentAdmissionError>(PaymentAdmissionError::MalformedSignerKey)
                },
                None => r == Err::<Self, PaymentAdmissionError>(
                    PaymentAdmissionError::MalformedSignerKey,
                ),
            },
    {
        if blank_str(kid) {
            return Err(PaymentAdmissionError::MissingKeyId);
        }
        let bytes = match decode_standard(seed) {
            Some(b) => b,
            None => return Err(PaymentAdmissionError::MalformedSignerKey),
        };
        if bytes.len() != 32 {
            return Err(PaymentAdmissionError::MalformedSignerKey);
        }
        Ok(PaymentAdmissionSigner { kid: kid.to_owned(), seed: bytes })
    }

    /// Issues a token for a valid request: its money movement, the
    /// signature over the canonical JSON of the unsigned token, and the
    /// signed token's canonical JSON and digest.
    pub fn issue(&self, request: &PaymentAdmissionRequest) -> (r: Result<
        PaymentAdmissionIssueResponse,
        PaymentAdmissionError,
    >)
        ensures
            match empty_field(*request) {
                Some(f) => r matches Err(PaymentAdmissionError::EmptyField(g)) && g@ == f,
                None => r matches Ok(resp) && {
                    let id = money_movement_id_spec(*request);
                    let unsigned = json_object_text(
                        token_members(*request, id, self.kid_view(), None),
                    );
                    let sig = PAYMENT_ADMISSION_SIGNATURE_BASE64_PREFIX@ + base64_url_nopad_encode(
                        ed25519_signature(self.seed_view(), utf8(unsigned)),
                    );
                    &&& resp.money_movement_id@ == id
                    &&& resp.token.purpose@ == PAYMENT_ADMISSION_PURPOSE@
                    &&& resp.token.audience@ == PAYMENT_ADMISSION_AUDIENCE@
                    &&& resp.token.principal@ == request.principal@
                    &&& resp.token.act@ == request.act@
                    &&& resp.token.rail@ == request.rail@
                    &&& resp.token.amount_minor == request.amount_minor
                    &&& resp.token.currency@ == request.currency@
                    &&& resp.token.counterparty == request.counterparty
                    &&& resp.token.run_id@ == request.run_id@
                    &&& resp.token.authority_digest@ == request.authority_digest@
                    &&& resp.token.expires_at@ == request.expires_at@
                    &&& resp.token.money_movement_id@ == id
                    &&& resp.token.kid@ == self.kid_view()
                    &&& resp.token.sig@ == sig
                    &&& resp.token_canonical_json@ == json_object_text(
                        token_members(*request, id, self.kid_view(), Some(sig)),
                    )
                    &&& resp.token_canonical_json@ == token_json_spec(resp.token)
                    &&& resp.token_digest@ == sha256_text(resp.token_canonical_json@)
                },
            },
    {
        proof {
            use_type_invariant(self);
        }
        let money_movement_id = derive_money_movement_id(request)?;
        let unsigned_members = token_members_exec(
            request,
            money_movement_id.as_str(),
            self.kid.as_str(),
            None,
        );
        let unsigned = canonical_object_json(&unsigned_members);
        let signature = ed25519_sign(self.seed.as_slice(), unsigned.as_str().as_bytes());
        let encoded = encode_url_safe_no_pad(signature.as_slice());
        let sig = concat(PAYMENT_ADMISSION_SIGNATURE_BASE64_PREFIX, encoded.as_str());
        let token = PaymentAdmissionToken {
            purpose: PAYMENT_ADMISSION_PURPOSE.to_owned(),
            audience: PAYMENT_ADMISSION_AUDIENCE.to_owned(),
            principal: request.principal.clone(),
            act: request.act.clone(),
            rail: request.rail.clone(),
            amount_minor: request.amount_minor,
            currency: request.currency.clone(),
            counterparty: copy_opt(&request.counterparty),
            run_id: request.run_id.clone(),
            authority_digest: request.authority_digest.clone(),
            expires_at: request.expires_at.clone(),
            money_movement_id: money_movement_id.clone(),
            kid: self.kid.clone(),
            sig,
        };
        assert(token_json_members(token) =~= token_members(
            *request,
            money_movement_id@,
            self.kid@,
            Some(token.sig@),
        ));
        let token_canonical_json = payment_admission_token_canonical_json(&token)?;
        let token_digest = payment_admission_token_digest(&token)?;
        Ok(
            PaymentAdmissionIssueResponse {
                token,
                token_canonical_json,
                token_digest,
                money_movement_id,
            },
        )
    }
}

} // verus!
