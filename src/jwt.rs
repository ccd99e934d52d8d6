//! Signed bearer assertions (JSON Web Tokens) for the service-account grant.

use base64::Engine;
use vstd::prelude::*;
use vstd::string::*;
use vstd::utf8::encode_utf8;

use crate::credentials::ServiceAccountKey;
use crate::scope::{scope_uri, Scope};
use crate::text::{decimal, decimal_text};
use crate::token::RefreshAccessTokenError;

verus! {

/// The token endpoint, which is also the audience of every assertion.
pub const TOKEN_URL: &'static str = "https://oauth2.googleapis.com/token";

/// How long, in seconds, an assertion stays valid after it is issued.
pub const ASSERTION_LIFETIME: i64 = 300;

/// The JSON header of every assertion: RSA-SHA256, JWT.
pub const HEADER_JSON: &'static str = "{\"alg\":\"RS256\",\"typ\":\"JWT\"}";

#[verifier::external_type_specification]
#[verifier::external_body]
pub struct ExJsonError(serde_json::Error);

/// The lowercase hexadecimal digit for `d`, which is below sixteen.
pub open spec fn hex_digit(d: int) -> char {
    seq!['0', '1', '2', '3', '4', '5', '6', '7', '8', '9', 'a', 'b', 'c', 'd', 'e', 'f'][d]
}

/// How one character is written inside a JSON string: a quote and a
/// backslash behind a backslash, the five control characters with short
/// escapes by letter, the other control characters below U+0020 as
/// `\u00XX`, and every other character as itself.
pub open spec fn json_escaped_char(c: char) -> Seq<char> {
    let n = c as int;
    if c == '"' {
        seq!['\\', '"']
    } else if c == '\\' {
        seq!['\\', '\\']
    } else if n == 8 {
        seq!['\\', 'b']
    } else if n == 9 {
        seq!['\\', 't']
    } else if n == 10 {
        seq!['\\', 'n']
    } else if n == 12 {
        seq!['\\', 'f']
    } else if n == 13 {
        seq!['\\', 'r']
    } else if n < 32 {
        seq!['\\', 'u', '0', '0', hex_digit(n / 16), hex_digit(n % 16)]
    } else {
        seq![c]
    }
}

/// The characters of `s`, each written as inside a JSON string.
pub open spec fn json_escaped(s: Seq<char>) -> Seq<char>
    decreases s.len(),
{
    if s.len() == 0 {
        Seq::empty()
    } else {
        json_escaped(s.drop_last()) + json_escaped_char(s.last())
    }
}

/// The JSON string literal for `s`: its escaped characters between quotes.
pub open spec fn json_quoted(s: Seq<char>) -> Seq<char> {
    seq!['"'] + json_escaped(s) + seq!['"']
}

/// The URL-safe base64 alphabet: letters, digits, `-` and `_`.
pub open spec fn base64url_alphabet() -> Seq<char> {
    seq![
        'A', 'B', 'C', 'D', 'E', 'F', 'G', 'H', 'I', 'J', 'K', 'L', 'M', 'N', 'O', 'P', 'Q', 'R',
        'S', 'T', 'U', 'V', 'W', 'X', 'Y', 'Z', 'a', 'b', 'c', 'd', 'e', 'f', 'g', 'h', 'i', 'j',
        'k', 'l', 'm', 'n', 'o', 'p', 'q', 'r', 's', 't', 'u', 'v', 'w', 'x', 'y', 'z', '0', '1',
        '2', '3', '4', '5', '6', '7', '8', '9', '-', '_',
    ]
}

/// The character for the six-bit value `v`.
pub open spec fn base64url_char(v: int) -> char {
    base64url_alphabet()[v]
}

/// The unpadded URL-safe base64 text of `bytes`: each group of three bytes
/// becomes four characters, six bits each, most significant first; a final
/// group of one or two bytes becomes two or three characters.
pub open spec fn base64url_of(bytes: Seq<u8>) -> Seq<char>
    decreases bytes.len(),
{
    if bytes.len() == 0 {
        Seq::empty()
    } else {
        let b0 = bytes[0] as int;
        let b1 = if bytes.len() > 1 {
            bytes[1] as int
        } else {
            0
        };
        let b2 = if bytes.len() > 2 {
            bytes[2] as int
        } else {
            0
        };
        let group = seq![
            base64url_char(b0 / 4),
            base64url_char((b0 % 4) * 16 + b1 / 16),
            base64url_char((b1 % 16) * 4 + b2 / 64),
            base64url_char(b2 % 64),
        ];
        if bytes.len() < 3 {
            group.take(bytes.len() + 1 as int)
        } else {
            group + base64url_of(bytes.skip(3))
        }
    }
}

/// The RSASSA-PKCS1-v1_5 SHA-256 signature of `message` under the PEM-encoded RSA key `key_pem`.
pub uninterp spec fn rs256_signature(key_pem: Seq<char>, message: Seq<u8>) -> Seq<u8>;

/// Relies on serde_json::to_string on a `str`: it writes the quoted string,
/// escaped by the table `ESCAPE` of its serializer, into a `Vec`, which
/// cannot fail.
#[verifier::external_body]
fn json_string(s: &str) -> (r: Result<String, serde_json::Error>)
    ensures
        r is Ok,
        r matches Ok(t) ==> t@ == json_quoted(s@),
{
    serde_json::to_string(s)
}

/// Relies on base64's `BASE64_URL_SAFE_NO_PAD` engine (the URL-safe alphabet,
/// no padding) and `Engine::encode`.
#[verifier::external_body]
fn base64url(bytes: &[u8]) -> (r: String)
    ensures
        r@ == base64url_of(bytes@),
{
    base64::prelude::BASE64_URL_SAFE_NO_PAD.encode(bytes)
}

/// Relies on openssl: `Rsa::private_key_from_pem_passphrase` with an empty
/// passphrase, `PKey::from_rsa`, and a `Signer` with `MessageDigest::sha256`
/// fed `message`. `None` when the key does not parse (an encrypted key
/// included) or signing fails. openssl asserts that the PEM fits a C `int`.
#[verifier::external_body]
fn sign_rs256(key_pem: &str, message: &[u8]) -> (r: Option<Vec<u8>>)
    requires
        key_pem.spec_bytes().len() <= MAX_PEM_BYTES,
    ensures
        r matches Some(sig) ==> sig@ == rs256_signature(key_pem@, message@),
{
    let rsa = openssl::rsa::Rsa::private_key_from_pem_passphrase(key_pem.as_bytes(), b"").ok()?;
    let key = openssl::pkey::PKey::from_rsa(rsa).ok()?;
    let digest = openssl::hash::MessageDigest::sha256();
    let mut signer = openssl::sign::Signer::new(digest, &key).ok()?;
    signer.update(message).ok()?;
    signer.sign_to_vec().ok()
}

/// The longest PEM text, in bytes, that openssl reads.
pub const MAX_PEM_BYTES: usize = 2147483647;

/// Whether the key, as handed to the signer, is longer than openssl reads.
pub open spec fn key_too_long(key: ServiceAccountKey) -> bool {
    encode_utf8(signing_key(key.private_key@)).len() > MAX_PEM_BYTES
}

/// The encoded header segment.
pub open spec fn header_segment() -> Seq<char> {
    base64url_of(encode_utf8(HEADER_JSON@))
}

/// The JSON claim set: issuer, scope, audience, expiry and issue time.
pub open spec fn claim_json(issuer: Seq<char>, scope: Seq<char>, now: int) -> Seq<char> {
    "{\"iss\":"@ + json_quoted(issuer) + ",\"scope\":"@ + json_quoted(scope) + ",\"aud\":"@
        + json_quoted(TOKEN_URL@) + ",\"exp\":"@ + decimal(now + ASSERTION_LIFETIME) + ",\"iat\":"@
        + decimal(now) + "}"@
}

/// The encoded claim segment.
pub open spec fn claim_segment(issuer: Seq<char>, scope: Seq<char>, now: int) -> Seq<char> {
    base64url_of(encode_utf8(claim_json(issuer, scope, now)))
}

/// The text that is signed: the header and claim segments joined by a dot.
pub open spec fn signing_text(issuer: Seq<char>, scope: Scope, now: int) -> Seq<char> {
    header_segment() + "."@ + claim_segment(issuer, scope_uri(scope), now)
}

/// The private key as it is handed to the signer: the key text and a final newline.
pub open spec fn signing_key(private_key: Seq<char>) -> Seq<char> {
    private_key + "\n"@
}

/// An assertion: the signed text, a dot, and the encoded signature.
pub open spec fn assertion_with(signed: Seq<char>, signature: Seq<u8>) -> Seq<char> {
    signed + "."@ + base64url_of(signature)
}

/// The complete assertion for a key, scope and issue time.
pub open spec fn assertion_text(key: ServiceAccountKey, scope: Scope, now: int) -> Seq<char> {
    let signed = signing_text(key.client_email@, scope, now);
    assertion_with(signed, rs256_signature(signing_key(key.private_key@), encode_utf8(signed)))
}

/// Encodes the fixed JWT header.
pub fn jwt_header() -> (r: String)
    ensures
        r@ == header_segment(),
{
    base64url(HEADER_JSON.as_bytes())
}

/// Encodes the claim set for `iss`, `scope` and the issue time `now`, in Unix seconds.
pub fn jwt_claim(iss: &str, scope: &str, now: i64) -> (r: String)
    ensures
        r@ == claim_segment(iss@, scope@, now as int),
{
    let iss_json = match json_string(iss) {
        Ok(t) => t,
        Err(_) => String::new(),
    };
    let scope_json = match json_string(scope) {
        Ok(t) => t,
        Err(_) => String::new(),
    };
    let aud_json = match json_string(TOKEN_URL) {
        Ok(t) => t,
        Err(_) => String::new(),
    };
    let exp_text = decimal_text(now as i128 + ASSERTION_LIFETIME as i128);
    let iat_text = decimal_text(now as i128);
    let mut json = String::from_str("{\"iss\":");
    json.append(iss_json.as_str());
    json.append(",\"scope\":");
    json.append(scope_json.as_str());
    json.append(",\"aud\":");
    json.append(aud_json.as_str());
    json.append(",\"exp\":");
    json.append(exp_text.as_str());
    json.append(",\"iat\":");
    json.append(iat_text.as_str());
    json.append("}");
    assert(json@ =~= claim_json(iss@, scope@, now as int));
    base64url(json.as_str().as_bytes())
}

/// Builds the text to be signed: the header and claim segments joined by a dot.
pub fn signing_input(credentials: &ServiceAccountKey, scope: Scope, now: i64) -> (r: String)
    ensures
        r@ == signing_text(credentials.client_email@, scope, now as int),
{
    let header = jwt_header();
    let scope_text = scope.to_string();
    let claim = jwt_claim(credentials.client_email.as_str(), scope_text.as_str(), now);
    let mut text = header;
    text.append(".");
    text.append(claim.as_str());
    text
}

/// Joins a signed text and its signature into an assertion.
pub fn assertion_from_parts(signed: &str, signature: &[u8]) -> (r: String)
    ensures
        r@ == assertion_with(signed@, signature@),
{
    let encoded = base64url(signature);
    let mut text = String::from_str(signed);
    text.append(".");
    text.append(encoded.as_str());
    text
}

/// Signs the assertion for `credentials` and `scope`, issued at `now`
/// (Unix seconds) and valid for five minutes. A private key that does not
/// parse, is longer than `MAX_PEM_BYTES`, or fails to sign gives
/// `MalformedCredentials`.
pub fn sign_assertion(credentials: &ServiceAccountKey, scope: Scope, now: i64) -> (r: Result<
    String,
    RefreshAccessTokenError,
>)
    ensures
        r matches Ok(jwt) ==> jwt@ == assertion_text(*credentials, scope, now as int),
        r matches Err(e) ==> e is MalformedCredentials,
        key_too_long(*credentials) ==> r == Err::<String, RefreshAccessTokenError>(
            RefreshAccessTokenError::MalformedCredentials,
        ),
{
    let signed = signing_input(credentials, scope, now);
    let mut key = String::from_str(credentials.private_key.as_str());
    key.append("\n");
    let key_text = key.as_str();
    let key_bytes = key_text.as_bytes();
    assert(key_text@ == signing_key(credentials.private_key@));
    if key_bytes.len() > MAX_PEM_BYTES {
        return Err(RefreshAccessTokenError::MalformedCredentials);
    }
    match sign_rs256(key_text, signed.as_str().as_bytes()) {
        Some(signature) => Ok(assertion_from_parts(signed.as_str(), signature.as_slice())),
        None => Err(RefreshAccessTokenError::MalformedCredentials),
    }
}

/// Two assertions signed with the same key and scope at the same instant are
/// identical, header, claim and signature segments alike.
pub proof fn lemma_signing_is_reproducible(
    key: ServiceAccountKey,
    scope: Scope,
    now: int,
    first: Seq<char>,
    second: Seq<char>,
)
    requires
        first == assertion_text(key, scope, now),
        second == assertion_text(key, scope, now),
    ensures
        first == second,
        first == header_segment() + "."@ + claim_segment(key.client_email@, scope_uri(scope), now)
            + "."@ + base64url_of(
            rs256_signature(
                signing_key(key.private_key@),
                encode_utf8(signing_text(key.client_email@, scope, now)),
            ),
        ),
{
}

} // verus!
