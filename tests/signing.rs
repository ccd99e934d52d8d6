use base64::Engine;
use sheets::jwt::{assertion_from_parts, jwt_claim, jwt_header, signing_input};
use sheets::{sign_assertion, RefreshAccessTokenError, Scope, ServiceAccountKey};

fn key_with(private_key: String) -> ServiceAccountKey {
    ServiceAccountKey {
        key_type: "service_account".to_string(),
        project_id: "project".to_string(),
        private_key_id: "id".to_string(),
        private_key,
        client_email: "reader@project.iam.gserviceaccount.com".to_string(),
        client_id: "1".to_string(),
        auth_uri: "https://accounts.google.com/o/oauth2/auth".to_string(),
        token_uri: "https://oauth2.googleapis.com/token".to_string(),
        auth_provider_x509_cert_url: String::new(),
        client_x509_cert_url: String::new(),
        universe_domain: "googleapis.com".to_string(),
    }
}

fn generated_key() -> (ServiceAccountKey, openssl::pkey::PKey<openssl::pkey::Public>) {
    let rsa = openssl::rsa::Rsa::generate(2048).unwrap();
    let pem = String::from_utf8(rsa.private_key_to_pem().unwrap()).unwrap();
    let public = openssl::pkey::PKey::public_key_from_pem(&rsa.public_key_to_pem().unwrap()).unwrap();
    (key_with(pem.trim_end().to_string()), public)
}

fn decode(segment: &str) -> Vec<u8> {
    base64::prelude::BASE64_URL_SAFE_NO_PAD.decode(segment).unwrap()
}

#[test]
fn header_segment_is_encoded_json() {
    let header = jwt_header();
    assert_eq!(decode(&header), br#"{"alg":"RS256","typ":"JWT"}"#.to_vec());
}

#[test]
fn claim_segment_holds_the_claims() {
    let claim = jwt_claim("a\"b@example.com", "https://www.googleapis.com/auth/spreadsheets.readonly", 1_700_000_000);
    let json = String::from_utf8(decode(&claim)).unwrap();
    assert_eq!(
        json,
        r#"{"iss":"a\"b@example.com","scope":"https://www.googleapis.com/auth/spreadsheets.readonly","aud":"https://oauth2.googleapis.com/token","exp":1700000300,"iat":1700000000}"#
    );
}

#[test]
fn claim_with_negative_time() {
    let claim = jwt_claim("x", "y", -1000);
    let json = String::from_utf8(decode(&claim)).unwrap();
    assert!(json.ends_with(r#""exp":-700,"iat":-1000}"#));
}

#[test]
fn signing_twice_is_identical_and_verifies() {
    let (key, public) = generated_key();
    let now = 1_700_000_000;
    let first = sign_assertion(&key, Scope::SpreadsheetsReadOnly, now).unwrap();
    let second = sign_assertion(&key, Scope::SpreadsheetsReadOnly, now).unwrap();
    assert_eq!(first, second);
    let parts: Vec<&str> = first.split('.').collect();
    assert_eq!(parts.len(), 3);
    assert_eq!(parts[0], jwt_header());
    assert_eq!(parts[1], jwt_claim(&key.client_email, &Scope::SpreadsheetsReadOnly.to_string(), now));
    let signed = format!("{}.{}", parts[0], parts[1]);
    assert_eq!(signed, signing_input(&key, Scope::SpreadsheetsReadOnly, now));
    let mut verifier =
        openssl::sign::Verifier::new(openssl::hash::MessageDigest::sha256(), &public).unwrap();
    verifier.update(signed.as_bytes()).unwrap();
    assert!(verifier.verify(&decode(parts[2])).unwrap());
}

#[test]
fn signing_at_another_time_changes_the_claim() {
    let (key, _) = generated_key();
    let first = sign_assertion(&key, Scope::SpreadsheetsReadOnly, 100).unwrap();
    let second = sign_assertion(&key, Scope::SpreadsheetsReadOnly, 101).unwrap();
    assert_ne!(first, second);
    assert_eq!(first.split('.').next(), second.split('.').next());
}

#[test]
fn malformed_key_is_a_credential_error() {
    let key = key_with("not a key".to_string());
    assert_eq!(
        sign_assertion(&key, Scope::SpreadsheetsReadOnly, 0).unwrap_err(),
        RefreshAccessTokenError::MalformedCredentials
    );
}

#[test]
fn assertion_joins_parts() {
    assert_eq!(assertion_from_parts("h.c", &[0xfb, 0xff]), "h.c.-_8");
}

#[test]
fn scope_uri() {
    assert_eq!(
        Scope::SpreadsheetsReadOnly.to_string(),
        "https://www.googleapis.com/auth/spreadsheets.readonly"
    );
}

#[test]
fn claim_escapes_control_characters() {
    let claim = jwt_claim("a\nb\u{1}\t\\", "s", 0);
    let json = String::from_utf8(decode(&claim)).unwrap();
    assert!(json.starts_with(r#"{"iss":"a\nb\u0001\t\\","scope":"s""#));
}

#[test]
fn header_segment_known_text() {
    assert_eq!(jwt_header(), "eyJhbGciOiJSUzI1NiIsInR5cCI6IkpXVCJ9");
    assert_eq!(assertion_from_parts("x", b"M"), "x.TQ");
    assert_eq!(assertion_from_parts("x", b"Ma"), "x.TWE");
    assert_eq!(assertion_from_parts("x", b"Man"), "x.TWFu");
}
