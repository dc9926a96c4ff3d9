//! `POST /oauth/introspect`: RFC 7662 token introspection.
//!
//! Lookups and credential checks happen outside. Each step here says what to ask
//! next, takes the answer, and either refuses the request or leads to the next
//! step: [`handle_introspect`], [`ClientAuthStep`], [`ClientStep`],
//! [`AssertionStep`] for clients with a private key, and [`TokenStep`].

use vstd::prelude::*;

use crate::json::{insert_flag, insert_integer, insert_text, new_object, JsonObject, Scalar};
use crate::oauth::{AccessToken, ClientAuthMethod, ClientAuthentication, OAuthClient, TokenForm};
use crate::reply::{invalid_client, invalid_request, server_error, ErrorReply, Refusal};
use crate::timestamp::Timestamp;

verus! {

/// Form data for the introspection endpoint (RFC 7662 Section 2.1).
#[derive(Debug)]
pub struct IntrospectForm {
    /// The token to introspect (required).
    pub token: String,
    /// Optional token type hint (`access_token` or `refresh_token`): accepted,
    /// and without influence on the answer.
    pub token_type_hint: Option<String>,
    /// Client authentication by form parameters (`client_secret_post`).
    pub client_id: Option<String>,
    pub client_secret: Option<String>,
    /// JWT client assertion for `private_key_jwt` authentication (RFC 7523).
    pub client_assertion: Option<String>,
    pub client_assertion_type: Option<String>,
}

/// The members of the answer about a token that is not active.
pub open spec fn inactive_members() -> Map<Seq<char>, Scalar> {
    map!["active"@ => Scalar::Flag(false)]
}

/// The members of the answer about an active token.
pub open spec fn active_members(issuer: Seq<char>, token: AccessToken) -> Map<Seq<char>, Scalar> {
    let always = map![
        "active"@ => Scalar::Flag(true),
        "iss"@ => Scalar::Text(issuer),
        "client_id"@ => Scalar::Text(token.client_id@),
        "aud"@ => Scalar::Text(token.client_id@),
        "token_type"@ => Scalar::Text(token.token_type@),
        "iat"@ => Scalar::Integer(token.created_at.seconds as int),
        "exp"@ => Scalar::Integer(token.expires_at.seconds as int),
    ];
    let with_sub = match token.user_id {
        Some(user_id) => always.insert("sub"@, Scalar::Text(user_id@)),
        None => always,
    };
    match token.scope {
        Some(scope) => with_sub.insert("scope"@, Scalar::Text(scope@)),
        None => with_sub,
    }
}

/// The members of the answer, given what the token store said and the time.
pub open spec fn token_members(
    issuer: Seq<char>,
    lookup: Result<Option<AccessToken>, String>,
    now: Timestamp,
) -> Map<Seq<char>, Scalar> {
    match lookup {
        Ok(Some(token)) => if token.expires_at.not_after(now) {
            inactive_members()
        } else {
            active_members(issuer, token)
        },
        _ => inactive_members(),
    }
}

/// What follows from what the client store said about the client.
pub enum ClientVerdict {
    /// The request is refused.
    Refused(Refusal),
    /// This assertion has to be validated.
    Asserted(Seq<char>),
    /// The client is authenticated.
    Authenticated,
}

/// How the credentials of a request fare against the client that they name.
pub open spec fn client_verdict(
    auth: ClientAuthentication,
    lookup: Result<Option<OAuthClient>, String>,
) -> ClientVerdict {
    match lookup {
        Err(fault) => ClientVerdict::Refused(crate::reply::server_refusal(fault@)),
        Ok(None) => ClientVerdict::Refused(crate::reply::client_refusal("Unknown client"@)),
        Ok(Some(client)) => match client.token_endpoint_auth_method {
            ClientAuthMethod::Public => ClientVerdict::Refused(
                crate::reply::client_refusal(
                    "The introspection endpoint requires a confidential client"@,
                ),
            ),
            ClientAuthMethod::ClientSecretBasic
            | ClientAuthMethod::ClientSecretPost => match (
                auth.client_secret,
                client.client_secret,
            ) {
                (None, _) => ClientVerdict::Refused(
                    crate::reply::client_refusal("Missing client secret"@),
                ),
                (Some(_), None) => ClientVerdict::Refused(
                    crate::reply::client_refusal("Client has no secret configured"@),
                ),
                (Some(provided), Some(expected)) => if provided@ == expected@ {
                    ClientVerdict::Authenticated
                } else {
                    ClientVerdict::Refused(crate::reply::client_refusal("Invalid client secret"@))
                },
            },
            ClientAuthMethod::PrivateKeyJwt => match auth.client_assertion {
                None => ClientVerdict::Refused(
                    crate::reply::client_refusal("Missing client_assertion"@),
                ),
                Some(assertion) => ClientVerdict::Asserted(assertion@),
            },
        },
    }
}

/// Why a validated, or invalid, assertion does not authenticate the client; `None`
/// if it does.
pub open spec fn assertion_refusal(
    client_id: Seq<char>,
    validated: Result<String, String>,
) -> Option<Refusal> {
    match validated {
        Ok(subject) => if subject@ == client_id {
            None
        } else {
            Some(crate::reply::client_refusal("JWT client_id does not match expected client"@))
        },
        Err(_) => Some(crate::reply::client_refusal("Invalid client assertion"@)),
    }
}

/// What was answered outside to the questions of one run. An answer to a question
/// that the run never comes to may be anything.
#[derive(Debug)]
pub struct Answers {
    /// The credentials that the request carries.
    pub client_auth: Option<ClientAuthentication>,
    /// What the client store said.
    pub client: Result<Option<OAuthClient>, String>,
    /// The client that the assertion was validated for.
    pub validated: Result<String, String>,
    /// What the token store said.
    pub token: Result<Option<AccessToken>, String>,
    /// When the token store said so.
    pub now: Timestamp,
}

/// Why a run gets no answer about the token; `None` if it gets one.
pub open spec fn run_refusal(form: IntrospectForm, answers: Answers) -> Option<Refusal> {
    if form.token@.len() == 0 {
        Some(crate::reply::request_refusal("Missing token parameter"@))
    } else {
        match answers.client_auth {
            None => Some(crate::reply::client_refusal("Client authentication required"@)),
            Some(auth) => match client_verdict(auth, answers.client) {
                ClientVerdict::Refused(refusal) => Some(refusal),
                ClientVerdict::Asserted(_) => assertion_refusal(
                    answers.client->Ok_0->0.client_id@,
                    answers.validated,
                ),
                ClientVerdict::Authenticated => None,
            },
        }
    }
}

/// The address that a client assertion has to be made out to.
pub open spec fn endpoint_address(issuer: Seq<char>) -> Seq<char> {
    issuer + "/oauth/introspect"@
}

/// Waits for the credentials that the request carries.
pub struct ClientAuthStep {
    issuer: String,
    token: String,
    token_form: TokenForm,
}

/// Waits for the client that the credentials name.
pub struct ClientStep {
    issuer: String,
    token: String,
    auth: ClientAuthentication,
}

/// Waits for the validation of the client's assertion.
pub struct AssertionStep {
    issuer: String,
    token: String,
    client_id: String,
    assertion: String,
    endpoint: String,
}

/// Waits for the token; the client is authenticated.
pub struct TokenStep {
    issuer: String,
    token: String,
}

/// What comes after the client is known.
pub enum ClientOutcome {
    /// The client's assertion has to be validated.
    Assertion(AssertionStep),
    /// The client is authenticated.
    Authenticated(TokenStep),
}

/// Takes a request up, at the issuer with the given external base address: a
/// request without a token is malformed.
pub fn handle_introspect(external_base: &str, form: IntrospectForm) -> (r: Result<
    ClientAuthStep,
    ErrorReply,
>)
    ensures
        r is Err <==> form.token@.len() == 0,
        r matches Err(reply) ==> reply.conveys(
            crate::reply::request_refusal("Missing token parameter"@),
        ),
        r matches Ok(step) ==> {
            &&& step.issuer() == external_base@
            &&& step.token() == form.token@
            &&& step.credentials_of(form)
        },
{
    if form.token.as_str().is_empty() {
        return Err(invalid_request("Missing token parameter"));
    }
    let token_form = TokenForm {
        grant_type: String::new(),
        code: None,
        redirect_uri: None,
        code_verifier: None,
        refresh_token: None,
        device_code: None,
        client_id: form.client_id,
        client_secret: form.client_secret,
        scope: None,
        client_assertion: form.client_assertion,
        client_assertion_type: form.client_assertion_type,
    };
    Ok(ClientAuthStep { issuer: external_base.to_owned(), token: form.token, token_form })
}

impl ClientAuthStep {
    /// The issuer's external base address.
    pub closed spec fn issuer(self) -> Seq<char> {
        self.issuer@
    }

    /// The token to introspect.
    pub closed spec fn token(self) -> Seq<char> {
        self.token@
    }

    /// The form to extract credentials from.
    pub closed spec fn form(self) -> TokenForm {
        self.token_form
    }

    /// Whether the form to extract credentials from holds the client parameters
    /// of `form` and nothing else.
    pub open spec fn credentials_of(self, form: IntrospectForm) -> bool {
        &&& self.form().grant_type@.len() == 0
        &&& self.form().code is None
        &&& self.form().redirect_uri is None
        &&& self.form().code_verifier is None
        &&& self.form().refresh_token is None
        &&& self.form().device_code is None
        &&& self.form().scope is None
        &&& self.form().client_id == form.client_id
        &&& self.form().client_secret == form.client_secret
        &&& self.form().client_assertion == form.client_assertion
        &&& self.form().client_assertion_type == form.client_assertion_type
    }

    /// The form to extract credentials from, as at the token endpoint.
    pub fn token_form(&self) -> (form: &TokenForm)
        ensures
            *form == self.form(),
    {
        &self.token_form
    }

    /// Takes the credentials that the request carries.
    pub fn with_client_auth(self, auth: Option<ClientAuthentication>) -> (r: Result<
        ClientStep,
        ErrorReply,
    >)
        ensures
            r is Err <==> auth is None,
            r matches Err(reply) ==> reply.conveys(
                crate::reply::client_refusal("Client authentication required"@),
            ),
            r matches Ok(step) ==> {
                &&& step.issuer() == self.issuer()
                &&& step.token() == self.token()
                &&& Some(step.auth()) == auth
            },
    {
        match auth {
            Some(auth) => Ok(ClientStep { issuer: self.issuer, token: self.token, auth }),
            None => Err(invalid_client("Client authentication required")),
        }
    }
}

impl ClientStep {
    /// The issuer's external base address.
    pub closed spec fn issuer(self) -> Seq<char> {
        self.issuer@
    }

    /// The token to introspect.
    pub closed spec fn token(self) -> Seq<char> {
        self.token@
    }

    /// The credentials that the request carries.
    pub closed spec fn auth(self) -> ClientAuthentication {
        self.auth
    }

    /// The client to look up.
    pub fn client_id(&self) -> (client_id: &str)
        ensures
            client_id@ == self.auth().client_id@,
    {
        self.auth.client_id.as_str()
    }

    /// Takes what the client store said, and authenticates the client as far as
    /// that can be done here.
    pub fn with_client(self, lookup: Result<Option<OAuthClient>, String>) -> (r: Result<
        ClientOutcome,
        ErrorReply,
    >)
        ensures
            match client_verdict(self.auth(), lookup) {
                ClientVerdict::Refused(refusal) => r matches Err(reply) && reply.conveys(refusal),
                ClientVerdict::Asserted(assertion) => {
                    &&& r matches Ok(ClientOutcome::Assertion(step))
                    &&& step.issuer() == self.issuer()
                    &&& step.token() == self.token()
                    &&& lookup matches Ok(Some(client))
                    &&& step.client_id() == client.client_id@
                    &&& step.assertion_text() == assertion
                    &&& step.address() == endpoint_address(self.issuer())
                },
                ClientVerdict::Authenticated => {
                    &&& r matches Ok(ClientOutcome::Authenticated(step))
                    &&& step.issuer() == self.issuer()
                    &&& step.text() == self.token()
                },
            },
    {
        let client = match lookup {
            Err(fault) => return Err(server_error(fault.as_str())),
            Ok(None) => return Err(invalid_client("Unknown client")),
            Ok(Some(client)) => client,
        };
        match client.token_endpoint_auth_method {
            ClientAuthMethod::Public => Err(
                invalid_client("The introspection endpoint requires a confidential client"),
            ),
            ClientAuthMethod::ClientSecretBasic | ClientAuthMethod::ClientSecretPost => {
                let provided = match self.auth.client_secret {
                    Some(provided) => provided,
                    None => return Err(invalid_client("Missing client secret")),
                };
                let expected = match client.client_secret {
                    Some(expected) => expected,
                    None => return Err(invalid_client("Client has no secret configured")),
                };
                if provided != expected {
                    return Err(invalid_client("Invalid client secret"));
                }
                Ok(
                    ClientOutcome::Authenticated(
                        TokenStep { issuer: self.issuer, token: self.token },
                    ),
                )
            },
            ClientAuthMethod::PrivateKeyJwt => {
                let assertion = match self.auth.client_assertion {
                    Some(assertion) => assertion,
                    None => return Err(invalid_client("Missing client_assertion")),
                };
                let endpoint = self.issuer.as_str().to_owned().concat("/oauth/introspect");
                Ok(
                    ClientOutcome::Assertion(
                        AssertionStep {
                            issuer: self.issuer,
                            token: self.token,
                            client_id: client.client_id,
                            assertion,
                            endpoint,
                        },
                    ),
                )
            },
        }
    }
}

impl AssertionStep {
    /// The issuer's external base address.
    pub closed spec fn issuer(self) -> Seq<char> {
        self.issuer@
    }

    /// The token to introspect.
    pub closed spec fn token(self) -> Seq<char> {
        self.token@
    }

    /// The client that has to be authenticated.
    pub closed spec fn client_id(self) -> Seq<char> {
        self.client_id@
    }

    /// The assertion to validate.
    pub closed spec fn assertion_text(self) -> Seq<char> {
        self.assertion@
    }

    /// The address that the assertion has to be made out to.
    pub closed spec fn address(self) -> Seq<char> {
        self.endpoint@
    }

    /// The assertion to validate.
    pub fn assertion(&self) -> (assertion: &str)
        ensures
            assertion@ == self.assertion_text(),
    {
        self.assertion.as_str()
    }

    /// The address that the assertion has to be made out to.
    pub fn endpoint(&self) -> (endpoint: &str)
        ensures
            endpoint@ == self.address(),
    {
        self.endpoint.as_str()
    }

    /// Takes the client that the assertion was validated for, or the fault that
    /// was found in it.
    pub fn with_validation(self, validated: Result<String, String>) -> (r: Result<
        TokenStep,
        ErrorReply,
    >)
        ensures
            match assertion_refusal(self.client_id(), validated) {
                Some(refusal) => r matches Err(reply) && reply.conveys(refusal),
                None => {
                    &&& r matches Ok(step)
                    &&& step.issuer() == self.issuer()
                    &&& step.text() == self.token()
                },
            },
    {
        match validated {
            Ok(subject) => {
                if subject == self.client_id {
                    Ok(TokenStep { issuer: self.issuer, token: self.token })
                } else {
                    Err(invalid_client("JWT client_id does not match expected client"))
                }
            },
            Err(_) => Err(invalid_client("Invalid client assertion")),
        }
    }
}

impl TokenStep {
    /// The issuer's external base address.
    pub closed spec fn issuer(self) -> Seq<char> {
        self.issuer@
    }

    /// The token to look up.
    pub closed spec fn text(self) -> Seq<char> {
        self.token@
    }

    /// The token to look up.
    pub fn token(&self) -> (token: &str)
        ensures
            token@ == self.text(),
    {
        self.token.as_str()
    }

    /// Takes what the token store said, at the time `now`, and answers. A token
    /// that is missing, cannot be read or has expired is inactive.
    pub fn with_token(
        self,
        lookup: Result<Option<AccessToken>, String>,
        now: Timestamp,
    ) -> (answer: JsonObject)
        ensures
            crate::json::object_members(answer) == token_members(self.issuer(), lookup, now),
    {
        match lookup {
            Ok(Some(token)) => {
                if token.expires_at.is_not_after(&now) {
                    inactive_answer()
                } else {
                    active_answer(self.issuer.as_str(), &token)
                }
            },
            _ => inactive_answer(),
        }
    }
}

/// A whole run, for a caller that holds every answer beforehand.
pub fn introspect(external_base: &str, form: IntrospectForm, answers: Answers) -> (r: Result<
    JsonObject,
    ErrorReply,
>)
    ensures
        match run_refusal(form, answers) {
            Some(refusal) => r matches Err(reply) && reply.conveys(refusal),
            None => r matches Ok(answer) && crate::json::object_members(answer) == token_members(
                external_base@,
                answers.token,
                answers.now,
            ),
        },
{
    let step = match handle_introspect(external_base, form) {
        Ok(step) => step,
        Err(reply) => return Err(reply),
    };
    let step = match step.with_client_auth(answers.client_auth) {
        Ok(step) => step,
        Err(reply) => return Err(reply),
    };
    let step = match step.with_client(answers.client) {
        Ok(ClientOutcome::Authenticated(step)) => step,
        Ok(ClientOutcome::Assertion(step)) => match step.with_validation(answers.validated) {
            Ok(step) => step,
            Err(reply) => return Err(reply),
        },
        Err(reply) => return Err(reply),
    };
    Ok(step.with_token(answers.token, answers.now))
}

/// The answer about a token that is not active.
fn inactive_answer() -> (answer: JsonObject)
    ensures
        crate::json::object_members(answer) == inactive_members(),
{
    let mut answer = new_object();
    insert_flag(&mut answer, "active", false);
    answer
}

/// The names of the members of an answer are pairwise distinct.
pub(crate) proof fn lemma_member_names_distinct()
    ensures
        "active"@ != "iss"@,
        "active"@ != "sub"@,
        "active"@ != "client_id"@,
        "active"@ != "aud"@,
        "active"@ != "scope"@,
        "active"@ != "token_type"@,
        "active"@ != "iat"@,
        "active"@ != "exp"@,
        "iss"@ != "sub"@,
        "iss"@ != "client_id"@,
        "iss"@ != "aud"@,
        "iss"@ != "scope"@,
        "iss"@ != "token_type"@,
        "iss"@ != "iat"@,
        "iss"@ != "exp"@,
        "sub"@ != "client_id"@,
        "sub"@ != "aud"@,
        "sub"@ != "scope"@,
        "sub"@ != "token_type"@,
        "sub"@ != "iat"@,
        "sub"@ != "exp"@,
        "client_id"@ != "aud"@,
        "client_id"@ != "scope"@,
        "client_id"@ != "token_type"@,
        "client_id"@ != "iat"@,
        "client_id"@ != "exp"@,
        "aud"@ != "scope"@,
        "aud"@ != "token_type"@,
        "aud"@ != "iat"@,
        "aud"@ != "exp"@,
        "scope"@ != "token_type"@,
        "scope"@ != "iat"@,
        "scope"@ != "exp"@,
        "token_type"@ != "iat"@,
        "token_type"@ != "exp"@,
        "iat"@ != "exp"@,
{
    reveal_strlit("active");
    reveal_strlit("iss");
    reveal_strlit("sub");
    reveal_strlit("client_id");
    reveal_strlit("aud");
    reveal_strlit("scope");
    reveal_strlit("token_type");
    reveal_strlit("iat");
    reveal_strlit("exp");
    assert("active"@.len() == 6 && "client_id"@.len() == 9 && "scope"@.len() == 5
        && "token_type"@.len() == 10);
    assert("iss"@.len() == 3 && "sub"@.len() == 3 && "aud"@.len() == 3 && "iat"@.len() == 3
        && "exp"@.len() == 3);
    assert("iss"@[1] != "sub"@[1] && "iss"@[1] != "aud"@[1] && "iss"@[1] != "iat"@[1] && "iss"@[1]
        != "exp"@[1]);
    assert("sub"@[2] != "aud"@[2] && "sub"@[1] != "iat"@[1] && "sub"@[1] != "exp"@[1]);
    assert("aud"@[1] != "iat"@[1] && "aud"@[1] != "exp"@[1] && "iat"@[1] != "exp"@[1]);
}

/// The answer about an active token.
fn active_answer(issuer: &str, token: &AccessToken) -> (answer: JsonObject)
    ensures
        crate::json::object_members(answer) == active_members(issuer@, *token),
{
    let mut answer = new_object();
    insert_flag(&mut answer, "active", true);
    insert_text(&mut answer, "iss", issuer);
    if let Some(user_id) = &token.user_id {
        insert_text(&mut answer, "sub", user_id.as_str());
    }
    insert_text(&mut answer, "client_id", token.client_id.as_str());
    insert_text(&mut answer, "aud", token.client_id.as_str());
    if let Some(scope) = &token.scope {
        insert_text(&mut answer, "scope", scope.as_str());
    }
    insert_text(&mut answer, "token_type", token.token_type.as_str());
    insert_integer(&mut answer, "iat", token.created_at.seconds);
    insert_integer(&mut answer, "exp", token.expires_at.seconds);
    proof {
        lemma_member_names_distinct();
    }
    answer
}

} // verus!
