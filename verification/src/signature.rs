//! Request authentication: the checks that a signed Discord request must
//! pass before its body is handed on, and the Ed25519 and hex primitives
//! that they rest on.

use vstd::prelude::*;
use ed25519_dalek::{Signature, SignatureError, Verifier, VerifyingKey};

verus! {

/// The largest request body, in bytes, that is read before checking.
pub const MAX_BODY_BYTES: usize = 4096;

/// The HTTP statuses with which a request is turned away.
#[derive(Clone, Copy, Debug, PartialEq, Eq, Structural)]
pub enum HttpStatus {
    /// 400
    BadRequest,
    /// 401
    Unauthorized,
    /// 422
    UnprocessableEntity,
    /// 500
    InternalServerError,
}

impl HttpStatus {
    /// The numeric status code.
    pub fn code(&self) -> (res: u16)
        ensures
            res == match *self {
                HttpStatus::BadRequest => 400u16,
                HttpStatus::Unauthorized => 401u16,
                HttpStatus::UnprocessableEntity => 422u16,
                HttpStatus::InternalServerError => 500u16,
            },
    {
        match self {
            HttpStatus::BadRequest => 400,
            HttpStatus::Unauthorized => 401,
            HttpStatus::UnprocessableEntity => 422,
            HttpStatus::InternalServerError => 500,
        }
    }
}

#[verifier::external_type_specification]
#[verifier::external_body]
pub struct ExVerifyingKey(VerifyingKey);

#[verifier::external_type_specification]
#[verifier::external_body]
pub struct ExSignatureError(SignatureError);

#[verifier::external_type_specification]
#[verifier::external_body]
pub struct ExConstHexError(const_hex::FromHexError);

#[verifier::external_type_specification]
#[verifier::external_body]
pub struct ExHexError(hex::FromHexError);

/// Whether `bytes` is the compressed form of a point that Ed25519 accepts as
/// a public key (what `VerifyingKey::from_bytes` decides).
pub uninterp spec fn ed25519_public_key_valid(bytes: Seq<u8>) -> bool;

/// Whether the Ed25519 signature `sig` on `msg` verifies under the public
/// key whose compressed form is `key` (what `VerifyingKey::verify` decides).
pub uninterp spec fn ed25519_signature_accepted(key: Seq<u8>, msg: Seq<u8>, sig: Seq<u8>) -> bool;

/// Calls `ed25519_dalek::VerifyingKey::from_bytes`; the contract claims that
/// it succeeds exactly when the bytes are a valid public key, a property
/// that depends on the bytes alone.
#[verifier::external_body]
fn verifying_key_from_bytes(bytes: &[u8; 32]) -> (res: Result<VerifyingKey, SignatureError>)
    ensures
        res is Ok <==> ed25519_public_key_valid(bytes@),
{
    VerifyingKey::from_bytes(bytes)
}

/// An Ed25519 public key together with the 32 bytes it was decoded from.
pub struct SignatureKey {
    key: VerifyingKey,
    bytes: [u8; 32],
}

/// The public key was not a valid Ed25519 point.
#[derive(Clone, Copy, Debug, PartialEq, Eq, Structural)]
pub struct InvalidKey;

impl SignatureKey {
    /// The compressed public key.
    pub closed spec fn key_bytes(&self) -> Seq<u8> {
        self.bytes@
    }

    /// Decodes a public key; fails exactly when the bytes are no valid
    /// Ed25519 point.
    pub fn from_bytes(bytes: [u8; 32]) -> (res: Result<SignatureKey, InvalidKey>)
        ensures
            res is Ok <==> ed25519_public_key_valid(bytes@),
            res matches Ok(k) ==> k.key_bytes() == bytes@,
    {
        match verifying_key_from_bytes(&bytes) {
            Ok(key) => Ok(SignatureKey { key, bytes }),
            Err(_) => Err(InvalidKey),
        }
    }

    /// The compressed public key, as bytes.
    pub fn to_bytes(&self) -> (res: [u8; 32])
        ensures
            res@ == self.key_bytes(),
    {
        self.bytes
    }
}

/// Calls `ed25519_dalek::VerifyingKey::verify` (through the `Verifier`
/// trait) on the key held by `key`; the contract claims that the call
/// accepts exactly when the signature verifies under `key.key_bytes()`,
/// which holds because `SignatureKey::from_bytes` is the only way to build
/// a `SignatureKey` and it decodes `key` from those very bytes.
#[verifier::external_body]
fn ed25519_verify(key: &SignatureKey, msg: &[u8], sig: &[u8; 64]) -> (ok: bool)
    ensures
        ok == ed25519_signature_accepted(key.key_bytes(), msg@, sig@),
{
    key.key.verify(msg, &Signature::from_bytes(sig)).is_ok()
}

/// `b` is a visible ASCII byte or a tab, the bytes that
/// `http::HeaderValue::to_str` accepts.
pub open spec fn is_visible_ascii(b: u8) -> bool {
    (32 <= b && b < 127) || b == 9
}

/// A header value that can be read as text.
pub open spec fn header_is_text(v: Seq<u8>) -> bool {
    forall|i: int| 0 <= i < v.len() ==> is_visible_ascii(#[trigger] v[i])
}

/// Whether a header value can be read as text (`HeaderValue::to_str`).
pub fn header_value_is_text(v: &[u8]) -> (res: bool)
    ensures
        res == header_is_text(v@),
{
    let mut i: usize = 0;
    while i < v.len()
        invariant
            i <= v@.len(),
            forall|j: int| 0 <= j < i ==> is_visible_ascii(#[trigger] v@[j]),
        decreases v.len() - i,
    {
        let b = v[i];
        if !((32 <= b && b < 127) || b == 9) {
            return false;
        }
        i += 1;
    }
    true
}

/// `c` is an ASCII hex digit.
pub open spec fn is_hex_digit(c: u8) -> bool {
    (48 <= c && c <= 57) || (65 <= c && c <= 70) || (97 <= c && c <= 102)
}

/// The value of the hex digit `c`.
pub open spec fn hex_digit_value(c: u8) -> int {
    if 48 <= c && c <= 57 {
        c - 48
    } else if 65 <= c && c <= 70 {
        c - 55
    } else {
        c - 87
    }
}

/// Plain hex decoding: two digits per byte, high digit first; `None` for an
/// odd length or a non-hex character.
pub open spec fn hex_decode(s: Seq<u8>) -> Option<Seq<u8>> {
    if s.len() % 2 == 0 && forall|i: int| 0 <= i < s.len() ==> is_hex_digit(#[trigger] s[i]) {
        Some(
            Seq::new(
                (s.len() / 2) as nat,
                |i: int| (hex_digit_value(s[2 * i]) * 16 + hex_digit_value(s[2 * i + 1])) as u8,
            ),
        )
    } else {
        None
    }
}

/// `s` without a leading `0x` or `0X`.
pub open spec fn strip_hex_prefix(s: Seq<u8>) -> Seq<u8> {
    if s.len() >= 2 && s[0] == 48 && (s[1] == 120 || s[1] == 88) {
        s.skip(2)
    } else {
        s
    }
}

/// Hex decoding that first drops a `0x`/`0X` prefix (odd lengths are
/// refused before the prefix is looked at).
pub open spec fn prefixed_hex_decode(s: Seq<u8>) -> Option<Seq<u8>> {
    if s.len() % 2 != 0 {
        None
    } else {
        hex_decode(strip_hex_prefix(s))
    }
}

/// Calls `const_hex::decode`; the contract states its documented result:
/// an optional `0x` prefix is dropped, an odd length or a non-hex digit is
/// an error, and otherwise each digit pair gives one byte.
#[verifier::external_body]
fn const_hex_decode(input: &[u8]) -> (res: Result<Vec<u8>, const_hex::FromHexError>)
    ensures
        match res {
            Ok(v) => prefixed_hex_decode(input@) == Some(v@),
            Err(_) => prefixed_hex_decode(input@) is None,
        },
{
    const_hex::decode(input)
}

/// Calls `hex::decode`; the contract states its documented result: an odd
/// length or a non-hex digit is an error, and otherwise each digit pair
/// gives one byte.
#[verifier::external_body]
fn hex_crate_decode(input: &[u8]) -> (res: Result<Vec<u8>, hex::FromHexError>)
    ensures
        match res {
            Ok(v) => hex_decode(input@) == Some(v@),
            Err(_) => hex_decode(input@) is None,
        },
{
    hex::decode(input)
}

/// Decodes a hex string that may start with `0x`.
pub fn decode_prefixed_hex(input: &[u8]) -> (res: Option<Vec<u8>>)
    ensures
        match res {
            Some(v) => prefixed_hex_decode(input@) == Some(v@),
            None => prefixed_hex_decode(input@) is None,
        },
{
    match const_hex_decode(input) {
        Ok(v) => Some(v),
        Err(_) => None,
    }
}

/// Decodes a plain hex string.
pub fn decode_hex(input: &[u8]) -> (res: Option<Vec<u8>>)
    ensures
        match res {
            Some(v) => hex_decode(input@) == Some(v@),
            None => hex_decode(input@) is None,
        },
{
    match hex_crate_decode(input) {
        Ok(v) => Some(v),
        Err(_) => None,
    }
}

/// The verdict on a request once the signature header has been decoded
/// (`decoded`, `None` when decoding failed): the decoded signature must be
/// 64 bytes, the timestamp header present and textual, the body read, and
/// the signature must verify on the timestamp followed by the body.
pub open spec fn verdict_after_decoding(
    key: Seq<u8>,
    decoded: Option<Seq<u8>>,
    timestamp: Option<Seq<u8>>,
    body: Option<Seq<u8>>,
) -> Result<(), HttpStatus> {
    match decoded {
        None => Err(HttpStatus::UnprocessableEntity),
        Some(sig) => if sig.len() != 64 {
            Err(HttpStatus::BadRequest)
        } else {
            match timestamp {
                None => Err(HttpStatus::BadRequest),
                Some(ts) => if !header_is_text(ts) {
                    Err(HttpStatus::BadRequest)
                } else {
                    match body {
                        None => Err(HttpStatus::InternalServerError),
                        Some(b) => if ed25519_signature_accepted(key, ts + b, sig) {
                            Ok(())
                        } else {
                            Err(HttpStatus::Unauthorized)
                        },
                    }
                },
            }
        },
    }
}

/// The verdict on a request whose signature header is decoded by `decode`:
/// a missing or non-textual signature header is a bad request.
pub open spec fn signed_request_verdict(
    key: Seq<u8>,
    signature: Option<Seq<u8>>,
    timestamp: Option<Seq<u8>>,
    body: Option<Seq<u8>>,
    prefixed: bool,
) -> Result<(), HttpStatus> {
    match signature {
        None => Err(HttpStatus::BadRequest),
        Some(s) => if !header_is_text(s) {
            Err(HttpStatus::BadRequest)
        } else {
            verdict_after_decoding(
                key,
                if prefixed { prefixed_hex_decode(s) } else { hex_decode(s) },
                timestamp,
                body,
            )
        },
    }
}

/// A request passes only when its signature header is text that decodes
/// to 64 bytes, its timestamp header is text, its body was read, and the
/// decoded signature verifies on the timestamp followed by the body.
pub proof fn lemma_accepted_request_is_signed(
    key: Seq<u8>,
    signature: Option<Seq<u8>>,
    timestamp: Option<Seq<u8>>,
    body: Option<Seq<u8>>,
    prefixed: bool,
)
    requires
        signed_request_verdict(key, signature, timestamp, body, prefixed) is Ok,
    ensures
        signature is Some,
        timestamp is Some,
        body is Some,
        header_is_text(signature->0),
        header_is_text(timestamp->0),
        ({
            let decoded = if prefixed {
                prefixed_hex_decode(signature->0)
            } else {
                hex_decode(signature->0)
            };
            &&& decoded is Some
            &&& decoded->0.len() == 64
            &&& ed25519_signature_accepted(key, timestamp->0 + body->0, decoded->0)
        }),
{
}

/// A request with a textual timestamp, a body and a signature that does
/// not verify on them is refused as unauthorized, whatever the key.
pub proof fn lemma_forged_request_is_unauthorized(
    key: Seq<u8>,
    signature: Seq<u8>,
    timestamp: Seq<u8>,
    body: Seq<u8>,
    prefixed: bool,
)
    requires
        header_is_text(signature),
        header_is_text(timestamp),
        ({
            let decoded = if prefixed {
                prefixed_hex_decode(signature)
            } else {
                hex_decode(signature)
            };
            &&& decoded is Some
            &&& decoded->0.len() == 64
            &&& !ed25519_signature_accepted(key, timestamp + body, decoded->0)
        }),
    ensures
        signed_request_verdict(key, Some(signature), Some(timestamp), Some(body), prefixed)
            == Err::<(), HttpStatus>(HttpStatus::Unauthorized),
{
}

/// The endpoint's check (which allows a `0x` prefix on the signature) and
/// the middleware's check give the same verdict on every request whose
/// signature header does not start with `0x` or `0X`.
pub proof fn lemma_checks_agree_without_prefix(
    key: Seq<u8>,
    signature: Seq<u8>,
    timestamp: Option<Seq<u8>>,
    body: Option<Seq<u8>>,
)
    requires
        !(signature.len() >= 2 && signature[0] == 48 && (signature[1] == 120 || signature[1] == 88)),
    ensures
        signed_request_verdict(key, Some(signature), timestamp, body, true)
            == signed_request_verdict(key, Some(signature), timestamp, body, false),
{
    assert(prefixed_hex_decode(signature) == hex_decode(signature));
}

/// The optional view of an optional byte slice.
pub open spec fn opt_bytes(v: Option<&[u8]>) -> Option<Seq<u8>> {
    match v {
        Some(s) => Some(s@),
        None => None,
    }
}

/// `a` followed by `b`.
fn concat_bytes(a: &[u8], b: &[u8]) -> (res: Vec<u8>)
    ensures
        res@ == a@ + b@,
{
    let mut out: Vec<u8> = Vec::new();
    let mut i: usize = 0;
    while i < a.len()
        invariant
            i <= a@.len(),
            out@ == a@.take(i as int),
        decreases a.len() - i,
    {
        out.push(a[i]);
        assert(a@.take(i as int + 1) == a@.take(i as int).push(a@[i as int]));
        i += 1;
    }
    let mut j: usize = 0;
    while j < b.len()
        invariant
            j <= b@.len(),
            i == a@.len(),
            out@ == a@ + b@.take(j as int),
        decreases b.len() - j,
    {
        out.push(b[j]);
        assert(b@.take(j as int + 1) == b@.take(j as int).push(b@[j as int]));
        j += 1;
    }
    assert(a@.take(a@.len() as int) == a@);
    assert(b@.take(b@.len() as int) == b@);
    out
}

/// Copies a 64-byte vector into an array.
fn to_signature_array(v: &Vec<u8>) -> (res: [u8; 64])
    requires
        v@.len() == 64,
    ensures
        res@ == v@,
{
    let mut arr = [0u8; 64];
    let mut i: usize = 0;
    while i < 64
        invariant
            v@.len() == 64,
            i <= 64,
            forall|j: int| 0 <= j < i ==> arr@[j] == v@[j],
        decreases 64 - i,
    {
        arr[i] = v[i];
        i += 1;
    }
    assert(arr@ =~= v@);
    arr
}

/// The checks that follow decoding of the signature header.
fn check_decoded(
    key: &SignatureKey,
    decoded: Option<Vec<u8>>,
    timestamp: Option<&[u8]>,
    body: Option<&[u8]>,
) -> (res: Result<(), HttpStatus>)
    ensures
        res == verdict_after_decoding(
            key.key_bytes(),
            match decoded {
                Some(v) => Some(v@),
                None => None,
            },
            opt_bytes(timestamp),
            opt_bytes(body),
        ),
{
    let sig = match decoded {
        None => return Err(HttpStatus::UnprocessableEntity),
        Some(sig) => sig,
    };
    if sig.len() != 64 {
        return Err(HttpStatus::BadRequest);
    }
    let sig = to_signature_array(&sig);
    let ts = match timestamp {
        None => return Err(HttpStatus::BadRequest),
        Some(ts) => ts,
    };
    if !header_value_is_text(ts) {
        return Err(HttpStatus::BadRequest);
    }
    let body = match body {
        None => return Err(HttpStatus::InternalServerError),
        Some(b) => b,
    };
    let msg = concat_bytes(ts, body);
    if ed25519_verify(key, msg.as_slice(), &sig) {
        Ok(())
    } else {
        Err(HttpStatus::Unauthorized)
    }
}

/// Checks a signed request: `signature` and `timestamp` are the raw values
/// of the `X-Signature-Ed25519` and `X-Signature-Timestamp` headers, `body`
/// the request body (`None` when it could not be read within
/// `MAX_BODY_BYTES`). With `prefixed`, the signature is decoded by
/// `const_hex` (which allows a `0x` prefix), otherwise by `hex`.
pub fn check_signed_request(
    key: &SignatureKey,
    signature: Option<&[u8]>,
    timestamp: Option<&[u8]>,
    body: Option<&[u8]>,
    prefixed: bool,
) -> (res: Result<(), HttpStatus>)
    ensures
        res == signed_request_verdict(
            key.key_bytes(),
            opt_bytes(signature),
            opt_bytes(timestamp),
            opt_bytes(body),
            prefixed,
        ),
        res is Ok ==> exists|sig: Seq<u8>, ts: Seq<u8>, b: Seq<u8>|
            opt_bytes(timestamp) == Some(ts) && opt_bytes(body) == Some(b) && sig.len() == 64
                && ed25519_signature_accepted(key.key_bytes(), ts + b, sig),
{
    let s = match signature {
        None => return Err(HttpStatus::BadRequest),
        Some(s) => s,
    };
    if !header_value_is_text(s) {
        return Err(HttpStatus::BadRequest);
    }
    let decoded = if prefixed {
        decode_prefixed_hex(s)
    } else {
        decode_hex(s)
    };
    check_decoded(key, decoded, timestamp, body)
}

} // verus!
