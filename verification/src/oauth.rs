//! What the introspection endpoint reads of requests, clients and tokens.

use vstd::prelude::*;

use crate::timestamp::Timestamp;

verus! {

/// The form of the token endpoint, from which client credentials are extracted.
#[derive(Debug)]
pub struct TokenForm {
    pub grant_type: String,
    pub code: Option<String>,
    pub redirect_uri: Option<String>,
    pub code_verifier: Option<String>,
    pub refresh_token: Option<String>,
    pub device_code: Option<String>,
    pub client_id: Option<String>,
    pub client_secret: Option<String>,
    pub scope: Option<String>,
    pub client_assertion: Option<String>,
    pub client_assertion_type: Option<String>,
}

/// The credentials that a request carries (HTTP Basic or form).
#[derive(Debug)]
pub struct ClientAuthentication {
    /// The client that the request claims to come from.
    pub client_id: String,
    /// The shared secret, if one was sent.
    pub client_secret: Option<String>,
    /// The signed assertion, if one was sent.
    pub client_assertion: Option<String>,
}

/// How a client authenticates.
#[derive(Clone, Copy, Debug, PartialEq, Eq, Structural)]
pub enum ClientAuthMethod {
    /// Not at all: a public client.
    Public,
    /// With a shared secret in the `Authorization` header.
    ClientSecretBasic,
    /// With a shared secret in the form.
    ClientSecretPost,
    /// With an assertion signed by its private key (RFC 7523).
    PrivateKeyJwt,
}

/// A registered client.
#[derive(Debug)]
pub struct OAuthClient {
    pub client_id: String,
    pub client_secret: Option<String>,
    pub token_endpoint_auth_method: ClientAuthMethod,
}

/// An access token as the token store holds it.
#[derive(Debug)]
pub struct AccessToken {
    /// The name of the token type, such as `Bearer`.
    pub token_type: String,
    /// The client that the token was issued to.
    pub client_id: String,
    /// The user's DID; a client-credentials token has none.
    pub user_id: Option<String>,
    /// The granted scope, if any.
    pub scope: Option<String>,
    pub created_at: Timestamp,
    pub expires_at: Timestamp,
}

} // verus!
