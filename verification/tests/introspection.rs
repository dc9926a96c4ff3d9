use aip_oidc::introspect::{
    handle_introspect, introspect, Answers, ClientOutcome, IntrospectForm,
};
use aip_oidc::json::JsonObject;
use aip_oidc::oauth::{
    AccessToken, ClientAuthMethod, ClientAuthentication, OAuthClient, TokenForm,
};
use aip_oidc::reply::{error_response, server_error, ErrorReply};
use aip_oidc::timestamp::Timestamp;
use chrono::{DateTime, Duration, Utc};
use serde_json::Value;

const BASE: &str = "https://login.example.com";

/// A registered client of the test server.
struct Client {
    client_id: &'static str,
    secret: Option<&'static str>,
    method: ClientAuthMethod,
}

/// A stored token of the test server.
struct Token {
    token: &'static str,
    user_id: Option<&'static str>,
    created_at: DateTime<Utc>,
    expires_at: DateTime<Utc>,
}

/// The stores, and the key check, that the steps ask.
struct Server {
    clients: Vec<Client>,
    tokens: Vec<Token>,
    client_fault: Option<&'static str>,
    token_fault: Option<&'static str>,
    validated: Result<&'static str, &'static str>,
}

fn timestamp(at: DateTime<Utc>) -> Timestamp {
    Timestamp { seconds: at.timestamp(), nanos: at.timestamp_subsec_nanos() }
}

fn server() -> Server {
    Server {
        clients: vec![],
        tokens: vec![],
        client_fault: None,
        token_fault: None,
        validated: Err("no key"),
    }
}

fn test_client(client_id: &'static str, secret: Option<&'static str>) -> Client {
    Client { client_id, secret, method: ClientAuthMethod::ClientSecretBasic }
}

fn test_access_token(token: &'static str, user_id: Option<&'static str>) -> Token {
    let now = Utc::now();
    Token { token, user_id, created_at: now, expires_at: now + Duration::hours(1) }
}

fn access_token(token: &Token) -> AccessToken {
    AccessToken {
        token_type: "Bearer".to_string(),
        client_id: "test-client".to_string(),
        user_id: token.user_id.map(|s| s.to_string()),
        scope: Some("openid profile".to_string()),
        created_at: timestamp(token.created_at),
        expires_at: timestamp(token.expires_at),
    }
}

fn form(token: &str) -> IntrospectForm {
    IntrospectForm {
        token: token.to_string(),
        token_type_hint: None,
        client_id: None,
        client_secret: None,
        client_assertion: None,
        client_assertion_type: None,
    }
}

/// The credentials of an HTTP Basic header.
fn basic_auth(client_id: &str, secret: &str) -> Option<ClientAuthentication> {
    Some(ClientAuthentication {
        client_id: client_id.to_string(),
        client_secret: Some(secret.to_string()),
        client_assertion: None,
    })
}

/// The credentials of the form, where no header has any.
fn form_auth(form: &TokenForm) -> Option<ClientAuthentication> {
    form.client_id.as_ref().map(|client_id| ClientAuthentication {
        client_id: client_id.clone(),
        client_secret: form.client_secret.clone(),
        client_assertion: form.client_assertion.clone(),
    })
}

impl Server {
    fn get_client(&self, client_id: &str) -> Result<Option<OAuthClient>, String> {
        if let Some(fault) = self.client_fault {
            return Err(fault.to_string());
        }
        Ok(self.clients.iter().find(|c| c.client_id == client_id).map(|c| OAuthClient {
            client_id: c.client_id.to_string(),
            client_secret: c.secret.map(|s| s.to_string()),
            token_endpoint_auth_method: c.method,
        }))
    }

    fn get_token(&self, token: &str) -> Result<Option<AccessToken>, String> {
        if let Some(fault) = self.token_fault {
            return Err(fault.to_string());
        }
        Ok(self.tokens.iter().find(|t| t.token == token).map(access_token))
    }

    /// Runs the steps, asking the stores.
    fn run(
        &self,
        header: Option<ClientAuthentication>,
        form: IntrospectForm,
    ) -> Result<JsonObject, ErrorReply> {
        let step = handle_introspect(BASE, form)?;
        let auth = header.or_else(|| form_auth(step.token_form()));
        let step = step.with_client_auth(auth)?;
        let client = self.get_client(step.client_id());
        let step = match step.with_client(client)? {
            ClientOutcome::Authenticated(step) => step,
            ClientOutcome::Assertion(step) => {
                assert_eq!(step.assertion(), "signed");
                assert_eq!(step.endpoint(), "https://login.example.com/oauth/introspect");
                let validated = self.validated.map(String::from).map_err(String::from);
                step.with_validation(validated)?
            }
        };
        let token = self.get_token(step.token());
        Ok(step.with_token(token, timestamp(Utc::now())))
    }
}

fn inactive() -> JsonObject {
    let mut answer = JsonObject::new();
    answer.insert("active".to_string(), Value::Bool(false));
    answer
}

fn answer_of(r: Result<JsonObject, ErrorReply>) -> JsonObject {
    match r {
        Ok(answer) => answer,
        Err(reply) => panic!("refused: {:?}", reply.body),
    }
}

fn refusal_of(r: Result<JsonObject, ErrorReply>) -> ErrorReply {
    match r {
        Ok(answer) => panic!("answered: {:?}", answer),
        Err(reply) => reply,
    }
}

fn assert_refused(r: Result<JsonObject, ErrorReply>, status: u16, error: &str, description: &str) {
    let reply = refusal_of(r);
    assert_eq!(reply.status, status);
    assert_eq!(reply.body.len(), 2);
    assert_eq!(reply.body["error"], Value::from(error));
    assert_eq!(reply.body["error_description"], Value::from(description));
}

#[test]
fn test_introspect_active_token() {
    let mut state = server();
    state.clients.push(test_client("test-client", Some("s3cret")));
    state.tokens.push(test_access_token("tok-123", Some("did:plc:abc123")));

    let mut request = form("tok-123");
    request.token_type_hint = Some("access_token".to_string());

    let response = answer_of(state.run(basic_auth("test-client", "s3cret"), request));

    assert_eq!(response["active"], Value::from(true));
    assert_eq!(response["iss"], Value::from("https://login.example.com"));
    assert_eq!(response["sub"], Value::from("did:plc:abc123"));
    assert_eq!(response["client_id"], Value::from("test-client"));
    assert_eq!(response["aud"], Value::from("test-client"));
    assert_eq!(response["scope"], Value::from("openid profile"));
    assert_eq!(response["token_type"], Value::from("Bearer"));
    assert!(response["iat"].is_i64());
    assert!(response["exp"].is_i64());
    assert_eq!(response.len(), 9);
}

#[test]
fn test_introspect_client_auth_via_form() {
    let mut state = server();
    state.clients.push(test_client("test-client", Some("s3cret")));
    state.tokens.push(test_access_token("tok-123", Some("did:plc:abc123")));

    // client_secret_post style: credentials in the form body.
    let mut request = form("tok-123");
    request.client_id = Some("test-client".to_string());
    request.client_secret = Some("s3cret".to_string());

    let response = answer_of(state.run(None, request));

    assert_eq!(response["active"], Value::from(true));
}

#[test]
fn test_introspect_unknown_token() {
    let mut state = server();
    state.clients.push(test_client("test-client", Some("s3cret")));

    let response =
        answer_of(state.run(basic_auth("test-client", "s3cret"), form("does-not-exist")));

    assert_eq!(response, inactive());
}

#[test]
fn test_introspect_expired_token() {
    let mut state = server();
    state.clients.push(test_client("test-client", Some("s3cret")));

    // A store that still holds the expired token: the answer guards against it.
    let mut token = test_access_token("tok-expired", Some("did:plc:abc123"));
    token.expires_at = Utc::now() - Duration::seconds(1);
    state.tokens.push(token);

    let response = answer_of(state.run(basic_auth("test-client", "s3cret"), form("tok-expired")));

    assert_eq!(response, inactive());
}

#[test]
fn test_introspect_requires_client_auth() {
    let mut state = server();
    state.tokens.push(test_access_token("tok-123", Some("did:plc:abc123")));

    let err = refusal_of(state.run(None, form("tok-123")));

    assert_eq!(err.status, 401);
    assert_eq!(err.body["error"], Value::from("invalid_client"));
    assert_eq!(err.body["error_description"], Value::from("Client authentication required"));
}

#[test]
fn test_introspect_rejects_public_client() {
    let mut client = test_client("public-client", None);
    client.method = ClientAuthMethod::Public;

    let mut state = server();
    state.clients.push(client);
    state.tokens.push(test_access_token("tok-123", Some("did:plc:abc123")));

    let mut request = form("tok-123");
    request.client_id = Some("public-client".to_string());

    let err = refusal_of(state.run(None, request));

    assert_eq!(err.status, 401);
    assert_eq!(err.body["error"], Value::from("invalid_client"));
    assert_eq!(
        err.body["error_description"],
        Value::from("The introspection endpoint requires a confidential client")
    );
}

#[test]
fn test_introspect_rejects_bad_secret() {
    let mut state = server();
    state.clients.push(test_client("test-client", Some("s3cret")));
    state.tokens.push(test_access_token("tok-123", Some("did:plc:abc123")));

    let err = refusal_of(state.run(basic_auth("test-client", "wrong"), form("tok-123")));

    assert_eq!(err.status, 401);
    assert_eq!(err.body["error"], Value::from("invalid_client"));
    assert_eq!(err.body["error_description"], Value::from("Invalid client secret"));
}

#[test]
fn test_introspect_client_credentials_token_omits_sub() {
    let mut state = server();
    state.clients.push(test_client("test-client", Some("s3cret")));
    // No user_id: client-credentials grant.
    state.tokens.push(test_access_token("tok-s2s", None));

    let response = answer_of(state.run(basic_auth("test-client", "s3cret"), form("tok-s2s")));

    assert_eq!(response["active"], Value::from(true));
    assert!(response.get("sub").is_none());
}

#[test]
fn test_introspect_missing_token() {
    let state = server();

    let err = refusal_of(state.run(None, form("")));

    assert_eq!(err.status, 400);
    assert_eq!(err.body["error"], Value::from("invalid_request"));
    assert_eq!(err.body["error_description"], Value::from("Missing token parameter"));
}

#[test]
fn missing_token_comes_before_everything_else() {
    let mut state = server();
    state.clients.push(test_client("test-client", Some("s3cret")));
    assert_refused(
        state.run(basic_auth("test-client", "wrong"), form("")),
        400,
        "invalid_request",
        "Missing token parameter",
    );
}

#[test]
fn unknown_client_is_refused() {
    let state = server();
    assert_refused(
        state.run(basic_auth("nobody", "s3cret"), form("tok-123")),
        401,
        "invalid_client",
        "Unknown client",
    );
}

#[test]
fn client_store_fault_is_a_server_error() {
    let mut state = server();
    state.client_fault = Some("connection lost");
    assert_refused(
        state.run(basic_auth("test-client", "s3cret"), form("tok-123")),
        500,
        "server_error",
        "connection lost",
    );
}

#[test]
fn secrets_have_to_be_there_on_both_sides() {
    let mut state = server();
    state.clients.push(test_client("test-client", Some("s3cret")));
    state.clients.push(Client {
        client_id: "post-client",
        secret: None,
        method: ClientAuthMethod::ClientSecretPost,
    });

    let mut request = form("tok-123");
    request.client_id = Some("test-client".to_string());
    assert_refused(state.run(None, request), 401, "invalid_client", "Missing client secret");

    assert_refused(
        state.run(basic_auth("post-client", "s3cret"), form("tok-123")),
        401,
        "invalid_client",
        "Client has no secret configured",
    );

    // A missing secret is found first.
    let mut request = form("tok-123");
    request.client_id = Some("post-client".to_string());
    assert_refused(state.run(None, request), 401, "invalid_client", "Missing client secret");
}

#[test]
fn client_secret_post_authenticates() {
    let mut state = server();
    state.clients.push(Client {
        client_id: "post-client",
        secret: Some("s3cret"),
        method: ClientAuthMethod::ClientSecretPost,
    });
    let response = answer_of(state.run(basic_auth("post-client", "s3cret"), form("tok-123")));
    assert_eq!(response, inactive());
}

fn key_server(validated: Result<&'static str, &'static str>) -> Server {
    let mut state = server();
    state.clients.push(Client {
        client_id: "key-client",
        secret: None,
        method: ClientAuthMethod::PrivateKeyJwt,
    });
    state.tokens.push(test_access_token("tok-123", Some("did:plc:abc123")));
    state.validated = validated;
    state
}

fn key_form() -> IntrospectForm {
    let mut request = form("tok-123");
    request.client_id = Some("key-client".to_string());
    request.client_assertion = Some("signed".to_string());
    request.client_assertion_type =
        Some("urn:ietf:params:oauth:client-assertion-type:jwt-bearer".to_string());
    request
}

#[test]
fn validated_assertion_authenticates() {
    let response = answer_of(key_server(Ok("key-client")).run(None, key_form()));
    assert_eq!(response["active"], Value::from(true));
    // The audience is the token's client, not the one that asks.
    assert_eq!(response["aud"], Value::from("test-client"));
}

#[test]
fn assertion_of_another_client_is_refused() {
    assert_refused(
        key_server(Ok("other-client")).run(None, key_form()),
        401,
        "invalid_client",
        "JWT client_id does not match expected client",
    );
}

#[test]
fn invalid_assertion_is_refused() {
    assert_refused(
        key_server(Err("bad signature")).run(None, key_form()),
        401,
        "invalid_client",
        "Invalid client assertion",
    );
}

#[test]
fn missing_assertion_is_refused() {
    assert_refused(
        key_server(Ok("key-client")).run(basic_auth("key-client", "s3cret"), form("tok-123")),
        401,
        "invalid_client",
        "Missing client_assertion",
    );
}

#[test]
fn credentials_are_extracted_from_the_client_parameters_alone() {
    let mut request = key_form();
    request.client_secret = Some("s3cret".to_string());
    let step = match handle_introspect(BASE, request) {
        Ok(step) => step,
        Err(_) => panic!("refused"),
    };
    let form = step.token_form();
    assert_eq!(form.grant_type, "");
    assert_eq!(form.client_id.as_deref(), Some("key-client"));
    assert_eq!(form.client_secret.as_deref(), Some("s3cret"));
    assert_eq!(form.client_assertion.as_deref(), Some("signed"));
    assert_eq!(
        form.client_assertion_type.as_deref(),
        Some("urn:ietf:params:oauth:client-assertion-type:jwt-bearer")
    );
    assert!(form.code.is_none() && form.redirect_uri.is_none() && form.code_verifier.is_none());
    assert!(form.refresh_token.is_none() && form.device_code.is_none() && form.scope.is_none());
}

fn answers(
    lookup: Result<Option<AccessToken>, String>,
    seconds: i64,
    nanos: u32,
) -> Answers {
    Answers {
        client_auth: basic_auth("test-client", "s3cret"),
        client: Ok(Some(OAuthClient {
            client_id: "test-client".to_string(),
            client_secret: Some("s3cret".to_string()),
            token_endpoint_auth_method: ClientAuthMethod::ClientSecretBasic,
        })),
        validated: Err("not asked".to_string()),
        token: lookup,
        now: Timestamp { seconds, nanos },
    }
}

fn token_until(seconds: i64, nanos: u32) -> Result<Option<AccessToken>, String> {
    Ok(Some(AccessToken {
        token_type: "Bearer".to_string(),
        client_id: "issued-to".to_string(),
        user_id: None,
        scope: None,
        created_at: Timestamp { seconds: 1_700_000_000, nanos: 999_999_999 },
        expires_at: Timestamp { seconds, nanos },
    }))
}

#[test]
fn whole_run_answers_in_whole_seconds() {
    let run = introspect(BASE, form("tok"), answers(token_until(1_700_003_600, 5), 1_700_003_600, 4));
    let response = answer_of(run);
    assert_eq!(response.len(), 7);
    assert_eq!(response["active"], Value::from(true));
    assert_eq!(response["iat"], Value::from(1_700_000_000i64));
    assert_eq!(response["exp"], Value::from(1_700_003_600i64));
    assert_eq!(response["client_id"], Value::from("issued-to"));
    assert_eq!(response["aud"], Value::from("issued-to"));
    assert!(response.get("scope").is_none());
}

#[test]
fn token_expires_at_its_very_nanosecond() {
    let at = answers(token_until(1_700_003_600, 5), 1_700_003_600, 5);
    assert_eq!(answer_of(introspect(BASE, form("tok"), at)), inactive());
    let later = answers(token_until(1_700_003_600, 5), 1_700_003_601, 0);
    assert_eq!(answer_of(introspect(BASE, form("tok"), later)), inactive());
    let earlier = answers(token_until(1_700_003_600, 5), 1_700_003_599, 999_999_999);
    assert_eq!(answer_of(introspect(BASE, form("tok"), earlier))["active"], Value::from(true));
}

#[test]
fn inactive_answers_are_alike() {
    let mut state = server();
    state.clients.push(test_client("test-client", Some("s3cret")));
    state.token_fault = Some("table locked");
    let faulty = answer_of(state.run(basic_auth("test-client", "s3cret"), form("tok-123")));
    assert_eq!(faulty, inactive());
    let unknown = answer_of(introspect(BASE, form("tok"), answers(Ok(None), 0, 0)));
    assert_eq!(unknown, faulty);
}

#[test]
fn hint_has_no_influence() {
    for hint in [None, Some("refresh_token"), Some("nonsense")] {
        let mut request = form("tok");
        request.token_type_hint = hint.map(|h| h.to_string());
        let run = introspect(BASE, request, answers(token_until(10, 0), 9, 0));
        assert_eq!(answer_of(run)["active"], Value::from(true));
    }
}

#[test]
fn refused_run_ignores_the_token() {
    let mut bad = answers(token_until(10, 0), 9, 0);
    bad.client_auth = None;
    assert_refused(
        introspect(BASE, form("tok"), bad),
        401,
        "invalid_client",
        "Client authentication required",
    );
}

#[test]
fn error_replies_hold_code_and_description() {
    let reply = server_error("disk full");
    assert_eq!(reply.status, 500);
    assert_eq!(reply.body["error"], Value::from("server_error"));
    let reply = error_response(418, "teapot", "short and stout");
    assert_eq!(reply.status, 418);
    assert_eq!(reply.body.len(), 2);
    assert_eq!(reply.body["error"], Value::from("teapot"));
    assert_eq!(reply.body["error_description"], Value::from("short and stout"));
}
