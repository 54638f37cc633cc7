use ed25519_dalek::{Signer, SigningKey, VerifyingKey};
use nu_discord_bot::bot::App;
use nu_discord_bot::http::{validate_security_headers, HttpHandler};
use nu_discord_bot::response::BotConfig;
use nu_discord_bot::signature::{
    check_signed_request, decode_hex, decode_prefixed_hex, header_value_is_text, HttpStatus,
    SignatureKey, MAX_BODY_BYTES,
};

fn config() -> BotConfig {
    BotConfig { application_id: 1234, support_user_id: 42, red: 0xff0000, yellow: 0xffff00 }
}

fn signer() -> SigningKey {
    SigningKey::from_bytes(&[7u8; 32])
}

fn handler() -> HttpHandler {
    HttpHandler::new(signer().verifying_key().to_bytes(), config()).unwrap()
}

fn signed(timestamp: &str, body: &[u8]) -> String {
    let msg = [timestamp.as_bytes(), body].concat();
    hex::encode(signer().sign(&msg).to_bytes())
}

#[test]
fn accepts_a_correctly_signed_request() {
    let h = handler();
    let sig = signed("1700000000", b"{\"type\":1}");
    let res = h.validate_security_headers(
        Some(sig.as_bytes()),
        Some(b"1700000000"),
        Some(b"{\"type\":1}"),
    );
    assert_eq!(res, Ok(()));
}

#[test]
fn refuses_a_signature_over_another_body() {
    let h = handler();
    let sig = signed("1700000000", b"{\"type\":1}");
    let res = h.validate_security_headers(
        Some(sig.as_bytes()),
        Some(b"1700000000"),
        Some(b"{\"type\":2}"),
    );
    assert_eq!(res, Err(HttpStatus::Unauthorized));
    assert_eq!(res.unwrap_err().code(), 401);
}

#[test]
fn refuses_a_signature_over_another_timestamp() {
    let h = handler();
    let sig = signed("1700000000", b"body");
    let res = h.validate_security_headers(Some(sig.as_bytes()), Some(b"1700000001"), Some(b"body"));
    assert_eq!(res, Err(HttpStatus::Unauthorized));
}

#[test]
fn missing_headers_are_bad_requests() {
    let h = handler();
    let sig = signed("1", b"b");
    assert_eq!(h.validate_security_headers(None, Some(b"1"), Some(b"b")), Err(HttpStatus::BadRequest));
    assert_eq!(h.validate_security_headers(Some(sig.as_bytes()), None, Some(b"b")), Err(HttpStatus::BadRequest));
}

#[test]
fn non_text_headers_are_bad_requests() {
    let h = handler();
    let sig = signed("1", b"b");
    let mut bad_sig = sig.clone().into_bytes();
    bad_sig.push(0x7f);
    assert_eq!(h.validate_security_headers(Some(&bad_sig), Some(b"1"), Some(b"b")), Err(HttpStatus::BadRequest));
    assert_eq!(
        h.validate_security_headers(Some(sig.as_bytes()), Some(&[b'1', 0x01]), Some(b"b")),
        Err(HttpStatus::BadRequest)
    );
    assert!(header_value_is_text(b"abc\tdef ~"));
    assert!(!header_value_is_text(&[0xc3, 0xa9]));
}

#[test]
fn undecodable_signature_is_unprocessable() {
    let h = handler();
    assert_eq!(h.validate_security_headers(Some(b"zz"), Some(b"1"), Some(b"b")), Err(HttpStatus::UnprocessableEntity));
    assert_eq!(h.validate_security_headers(Some(b"abc"), Some(b"1"), Some(b"b")), Err(HttpStatus::UnprocessableEntity));
    assert_eq!(HttpStatus::UnprocessableEntity.code(), 422);
}

#[test]
fn signature_of_wrong_length_is_a_bad_request() {
    let h = handler();
    assert_eq!(h.validate_security_headers(Some(b"abcd"), Some(b"1"), Some(b"b")), Err(HttpStatus::BadRequest));
    assert_eq!(HttpStatus::BadRequest.code(), 400);
}

#[test]
fn unread_body_is_a_server_error() {
    let h = handler();
    let sig = signed("1", b"b");
    assert_eq!(h.validate_security_headers(Some(sig.as_bytes()), Some(b"1"), None), Err(HttpStatus::InternalServerError));
    assert_eq!(HttpStatus::InternalServerError.code(), 500);
    assert_eq!(MAX_BODY_BYTES, 4096);
}

#[test]
fn prefixed_signature_passes_only_the_const_hex_check() {
    let key = SignatureKey::from_bytes(signer().verifying_key().to_bytes()).unwrap();
    let sig = format!("0x{}", signed("9", b"x"));
    assert_eq!(check_signed_request(&key, Some(sig.as_bytes()), Some(b"9"), Some(b"x"), true), Ok(()));
    assert_eq!(
        validate_security_headers(Some(&key), Some(sig.as_bytes()), Some(b"9"), Some(b"x")),
        Err(HttpStatus::UnprocessableEntity)
    );
    let plain = signed("9", b"x");
    assert_eq!(validate_security_headers(Some(&key), Some(plain.as_bytes()), Some(b"9"), Some(b"x")), Ok(()));
}

#[test]
fn middleware_without_key_is_a_server_error() {
    let sig = signed("9", b"x");
    assert_eq!(validate_security_headers(None, Some(sig.as_bytes()), Some(b"9"), Some(b"x")), Err(HttpStatus::InternalServerError));
}

#[test]
fn hex_decoders() {
    assert_eq!(decode_hex(b"0aFf"), Some(vec![0x0a, 0xff]));
    assert_eq!(decode_hex(b"0x0a"), None);
    assert_eq!(decode_hex(b"abc"), None);
    assert_eq!(decode_prefixed_hex(b"0x0aFf"), Some(vec![0x0a, 0xff]));
    assert_eq!(decode_prefixed_hex(b"0X"), Some(vec![]));
    assert_eq!(decode_prefixed_hex(b"0x0"), None);
    assert_eq!(decode_prefixed_hex(b"g0"), None);
}

fn invalid_key_bytes() -> [u8; 32] {
    for y in 2u8..=255 {
        let mut b = [0u8; 32];
        b[0] = y;
        if VerifyingKey::from_bytes(&b).is_err() {
            return b;
        }
    }
    panic!("no invalid key found");
}

#[test]
fn app_setup_depends_on_the_key() {
    let good = signer().verifying_key().to_bytes();
    let app = App::new("token".to_string(), good, config()).unwrap();
    assert_eq!(app.discord_token, "token");
    assert_eq!(app.http.verification_key.to_bytes(), good);
    assert_eq!(app.interaction.config, config());
    assert!(App::new("token".to_string(), invalid_key_bytes(), config()).is_err());
    assert!(HttpHandler::new(invalid_key_bytes(), config()).is_err());
}
