//! Service-account key material.

use vstd::prelude::*;

verus! {

/// The contents of a service-account key file.
#[derive(Debug, Clone)]
pub struct ServiceAccountKey {
    /// The kind of key; `service_account` for the keys this crate uses.
    pub key_type: String,
    pub project_id: String,
    pub private_key_id: String,
    /// The PEM-encoded RSA private key that signs assertions.
    pub private_key: String,
    /// The account's email address, the issuer of every assertion.
    pub client_email: String,
    pub client_id: String,
    pub auth_uri: String,
    pub token_uri: String,
    pub auth_provider_x509_cert_url: String,
    pub client_x509_cert_url: String,
    pub universe_domain: String,
}

} // verus!
