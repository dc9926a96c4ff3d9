//! What every call of the introspection endpoint's functions comes to: laws on
//! their arguments and results alone.

use vstd::prelude::*;

use crate::introspect::{
    handle_introspect, introspect, Answers, AssertionStep, ClientAuthStep, ClientOutcome,
    ClientStep, IntrospectForm, TokenStep,
};
use crate::json::{JsonObject, Scalar};
use crate::oauth::{AccessToken, ClientAuthMethod, ClientAuthentication, OAuthClient, TokenForm};
use crate::reply::{
    error_response, invalid_client, invalid_request, json_error, server_error, ErrorReply,
};
use crate::timestamp::Timestamp;

verus! {

/// Whether a reply has that status, and a body with that error code, that
/// description and nothing else.
pub open spec fn says(
    reply: ErrorReply,
    status: int,
    error: Seq<char>,
    description: Seq<char>,
) -> bool {
    let members = crate::json::object_members(reply.body);
    &&& reply.status == status
    &&& members.dom() == set!["error"@, "error_description"@]
    &&& members["error"@] == Scalar::Text(error)
    &&& members["error_description"@] == Scalar::Text(description)
}

/// The two names in the body of an error reply differ.
pub(crate) proof fn lemma_error_names_distinct()
    ensures
        "error"@ != "error_description"@,
{
    reveal_strlit("error");
    reveal_strlit("error_description");
    assert("error"@.len() == 5 && "error_description"@.len() == 17);
}

/// An error reply says what it was asked to say.
pub proof fn law_error_reply_says_it_all(
    status: u16,
    error: &str,
    description: &str,
    reply: ErrorReply,
)
    requires
        call_ensures(error_response, (status, error, description), reply),
    ensures
        says(reply, status as int, error@, description@),
{
    lemma_error_names_distinct();
    assert(crate::json::object_members(reply.body).dom() =~= set!["error"@, "error_description"@]);
}

/// The ready-made replies: 401 for the client, 400 for the request, 500 for the
/// server, and `not_found` under a given status.
pub proof fn law_ready_made_replies(
    description: &str,
    client: ErrorReply,
    request: ErrorReply,
    server: ErrorReply,
    status: u16,
    absence: ErrorReply,
)
    requires
        call_ensures(invalid_client, (description,), client),
        call_ensures(invalid_request, (description,), request),
        call_ensures(server_error, (description,), server),
        call_ensures(json_error, (status, description), absence),
    ensures
        says(client, 401, "invalid_client"@, description@),
        says(request, 400, "invalid_request"@, description@),
        says(server, 500, "server_error"@, description@),
        says(absence, status as int, "not_found"@, description@),
{
    lemma_error_names_distinct();
    let names = set!["error"@, "error_description"@];
    assert(crate::json::object_members(client.body).dom() =~= names);
    assert(crate::json::object_members(request.body).dom() =~= names);
    assert(crate::json::object_members(server.body).dom() =~= names);
    assert(crate::json::object_members(absence.body).dom() =~= names);
}

/// Points in time are compared by their seconds, and by their nanoseconds where
/// the seconds are the same. For nanoseconds below one second that is the order of
/// the nanoseconds since the epoch.
pub proof fn law_time_is_ordered_by_nanoseconds(earlier: &Timestamp, later: &Timestamp, r: bool)
    requires
        call_ensures(Timestamp::is_not_after, (earlier, later), r),
    ensures
        earlier.seconds < later.seconds ==> r,
        earlier.seconds > later.seconds ==> !r,
        earlier.seconds == later.seconds ==> r == (earlier.nanos <= later.nanos),
        earlier.nanos < 1_000_000_000 && later.nanos < 1_000_000_000 ==> r == (earlier.seconds
            * 1_000_000_000 + earlier.nanos <= later.seconds * 1_000_000_000 + later.nanos),
{
}

/// Of two points in time one is not after the other, and both only if they are the
/// same.
pub proof fn law_time_order_is_total(a: &Timestamp, b: &Timestamp, forth: bool, back: bool)
    requires
        call_ensures(Timestamp::is_not_after, (a, b), forth),
        call_ensures(Timestamp::is_not_after, (b, a), back),
    ensures
        forth || back,
        forth && back <==> a.seconds == b.seconds && a.nanos == b.nanos,
{
}

/// What is not after a point in time is not after any later one.
pub proof fn law_time_order_is_transitive(
    a: &Timestamp,
    b: &Timestamp,
    c: &Timestamp,
    first: bool,
    second: bool,
    both: bool,
)
    requires
        call_ensures(Timestamp::is_not_after, (a, b), first),
        call_ensures(Timestamp::is_not_after, (b, c), second),
        call_ensures(Timestamp::is_not_after, (a, c), both),
        first,
        second,
    ensures
        both,
{
}

/// A request is malformed exactly when its token is empty, and is told so.
pub proof fn law_request_needs_a_token(
    base: &str,
    form: IntrospectForm,
    r: Result<ClientAuthStep, ErrorReply>,
)
    requires
        call_ensures(handle_introspect, (base, form), r),
    ensures
        r is Err <==> form.token@.len() == 0,
        r matches Err(reply) ==> says(
            reply,
            400,
            "invalid_request"@,
            "Missing token parameter"@,
        ),
{
    lemma_error_names_distinct();
    if let Err(reply) = r {
        assert(crate::json::object_members(reply.body).dom() =~= set![
            "error"@,
            "error_description"@,
        ]);
    }
}

/// Credentials are extracted from the client parameters of the request, unchanged,
/// and from nothing else.
pub proof fn law_credentials_come_from_the_client_parameters(
    base: &str,
    form: IntrospectForm,
    step: ClientAuthStep,
    token_form: &TokenForm,
)
    requires
        call_ensures(handle_introspect, (base, form), Ok(step)),
        call_ensures(ClientAuthStep::token_form, (&step,), token_form),
    ensures
        token_form.client_id == form.client_id,
        token_form.client_secret == form.client_secret,
        token_form.client_assertion == form.client_assertion,
        token_form.client_assertion_type == form.client_assertion_type,
        token_form.grant_type@.len() == 0,
        token_form.code is None,
        token_form.redirect_uri is None,
        token_form.code_verifier is None,
        token_form.refresh_token is None,
        token_form.device_code is None,
        token_form.scope is None,
{
}

/// A request without credentials is refused, and one with credentials leads to the
/// client that they name.
pub proof fn law_client_is_the_one_that_the_credentials_name(
    step: ClientAuthStep,
    auth: Option<ClientAuthentication>,
    r: Result<ClientStep, ErrorReply>,
)
    requires
        call_ensures(ClientAuthStep::with_client_auth, (step, auth), r),
    ensures
        r is Ok <==> auth is Some,
        r matches Err(reply) ==> says(
            reply,
            401,
            "invalid_client"@,
            "Client authentication required"@,
        ),
        forall|next: ClientStep, client_id: &str|
            r == Ok::<ClientStep, ErrorReply>(next) && #[trigger] call_ensures(
                ClientStep::client_id,
                (&next,),
                client_id,
            ) ==> client_id@ == auth->0.client_id@,
{
    lemma_error_names_distinct();
    if let Err(reply) = r {
        assert(crate::json::object_members(reply.body).dom() =~= set![
            "error"@,
            "error_description"@,
        ]);
    }
}

/// A client with a shared secret is authenticated exactly when the request carries
/// the very characters of its secret; the token that is then looked up is the one
/// of the request.
pub proof fn law_shared_secret_decides(
    base: &str,
    form: IntrospectForm,
    start: ClientAuthStep,
    auth: ClientAuthentication,
    step: ClientStep,
    client: OAuthClient,
    r: Result<ClientOutcome, ErrorReply>,
)
    requires
        call_ensures(handle_introspect, (base, form), Ok(start)),
        call_ensures(ClientAuthStep::with_client_auth, (start, Some(auth)), Ok(step)),
        call_ensures(ClientStep::with_client, (step, Ok(Some(client))), r),
        client.token_endpoint_auth_method == ClientAuthMethod::ClientSecretBasic
            || client.token_endpoint_auth_method == ClientAuthMethod::ClientSecretPost,
    ensures
        r is Ok <==> {
            &&& auth.client_secret is Some
            &&& client.client_secret is Some
            &&& auth.client_secret->0@ == client.client_secret->0@
        },
        r is Ok ==> r->Ok_0 is Authenticated && r->Ok_0->Authenticated_0.issuer() == base@,
        forall|token: &str|
            r is Ok && #[trigger] call_ensures(
                TokenStep::token,
                (&r->Ok_0->Authenticated_0,),
                token,
            ) ==> token@ == form.token@,
        r matches Err(reply) ==> says(
            reply,
            401,
            "invalid_client"@,
            if auth.client_secret is None {
                "Missing client secret"@
            } else if client.client_secret is None {
                "Client has no secret configured"@
            } else {
                "Invalid client secret"@
            },
        ),
{
    lemma_error_names_distinct();
    if let Err(reply) = r {
        assert(crate::json::object_members(reply.body).dom() =~= set![
            "error"@,
            "error_description"@,
        ]);
    }
}

/// A client with a private key has to present an assertion. That assertion is
/// validated, for the introspection endpoint of this issuer.
pub proof fn law_private_key_needs_an_assertion(
    base: &str,
    form: IntrospectForm,
    start: ClientAuthStep,
    auth: ClientAuthentication,
    step: ClientStep,
    client: OAuthClient,
    r: Result<ClientOutcome, ErrorReply>,
)
    requires
        call_ensures(handle_introspect, (base, form), Ok(start)),
        call_ensures(ClientAuthStep::with_client_auth, (start, Some(auth)), Ok(step)),
        call_ensures(ClientStep::with_client, (step, Ok(Some(client))), r),
        client.token_endpoint_auth_method == ClientAuthMethod::PrivateKeyJwt,
    ensures
        r is Ok <==> auth.client_assertion is Some,
        r is Ok ==> r->Ok_0 is Assertion,
        forall|assertion: &str|
            r is Ok && #[trigger] call_ensures(
                AssertionStep::assertion,
                (&r->Ok_0->Assertion_0,),
                assertion,
            ) ==> assertion@ == auth.client_assertion->0@,
        forall|endpoint: &str|
            r is Ok && #[trigger] call_ensures(
                AssertionStep::endpoint,
                (&r->Ok_0->Assertion_0,),
                endpoint,
            ) ==> endpoint@ == base@ + "/oauth/introspect"@,
        r matches Err(reply) ==> says(reply, 401, "invalid_client"@, "Missing client_assertion"@),
{
    lemma_error_names_distinct();
    if let Err(reply) = r {
        assert(crate::json::object_members(reply.body).dom() =~= set![
            "error"@,
            "error_description"@,
        ]);
    }
}

/// An assertion authenticates the client exactly when it was validated for that
/// very client; the token that is then looked up is the one of the request.
pub proof fn law_assertion_has_to_be_the_client_s_own(
    base: &str,
    form: IntrospectForm,
    start: ClientAuthStep,
    auth: ClientAuthentication,
    step: ClientStep,
    client: OAuthClient,
    waiting: AssertionStep,
    validated: Result<String, String>,
    r: Result<TokenStep, ErrorReply>,
)
    requires
        call_ensures(handle_introspect, (base, form), Ok(start)),
        call_ensures(ClientAuthStep::with_client_auth, (start, Some(auth)), Ok(step)),
        call_ensures(
            ClientStep::with_client,
            (step, Ok(Some(client))),
            Ok(ClientOutcome::Assertion(waiting)),
        ),
        call_ensures(AssertionStep::with_validation, (waiting, validated), r),
    ensures
        r is Ok <==> validated is Ok && validated->Ok_0@ == client.client_id@,
        r is Ok ==> r->Ok_0.issuer() == base@,
        forall|token: &str|
            r is Ok && #[trigger] call_ensures(TokenStep::token, (&r->Ok_0,), token) ==> token@
                == form.token@,
        r matches Err(reply) ==> says(
            reply,
            401,
            "invalid_client"@,
            if validated is Ok {
                "JWT client_id does not match expected client"@
            } else {
                "Invalid client assertion"@
            },
        ),
{
    lemma_error_names_distinct();
    if let Err(reply) = r {
        assert(crate::json::object_members(reply.body).dom() =~= set![
            "error"@,
            "error_description"@,
        ]);
    }
}

/// A client that cannot be looked up, is unknown or is public is refused, whatever
/// it presents.
pub proof fn law_client_has_to_be_known_and_confidential(
    step: ClientStep,
    lookup: Result<Option<OAuthClient>, String>,
    r: Result<ClientOutcome, ErrorReply>,
)
    requires
        call_ensures(ClientStep::with_client, (step, lookup), r),
    ensures
        lookup matches Err(fault) ==> r matches Err(reply) && says(
            reply,
            500,
            "server_error"@,
            fault@,
        ),
        lookup matches Ok(None) ==> r matches Err(reply) && says(
            reply,
            401,
            "invalid_client"@,
            "Unknown client"@,
        ),
        lookup matches Ok(Some(client)) ==> client.token_endpoint_auth_method
            == ClientAuthMethod::Public ==> r is Err && says(
            r->Err_0,
            401,
            "invalid_client"@,
            "The introspection endpoint requires a confidential client"@,
        ),
{
    lemma_error_names_distinct();
    if let Err(reply) = r {
        assert(crate::json::object_members(reply.body).dom() =~= set![
            "error"@,
            "error_description"@,
        ]);
    }
}

/// A token is reported active exactly when the store found it and its expiry lies
/// after the time of the answer, by seconds and then by nanoseconds.
pub proof fn law_activity_is_a_matter_of_expiry(
    step: TokenStep,
    lookup: Result<Option<AccessToken>, String>,
    now: Timestamp,
    answer: JsonObject,
)
    requires
        call_ensures(TokenStep::with_token, (step, lookup, now), answer),
    ensures
        crate::json::object_members(answer).contains_key("active"@),
        crate::json::object_members(answer)["active"@] == Scalar::Flag(
            lookup matches Ok(Some(token)) && (token.expires_at.seconds > now.seconds || (
            token.expires_at.seconds == now.seconds && token.expires_at.nanos > now.nanos)),
        ),
{
    crate::introspect::lemma_member_names_distinct();
}

/// An inactive answer says nothing but that.
pub proof fn law_inactive_answer_says_nothing_else(
    step: TokenStep,
    lookup: Result<Option<AccessToken>, String>,
    now: Timestamp,
    answer: JsonObject,
)
    requires
        call_ensures(TokenStep::with_token, (step, lookup, now), answer),
        crate::json::object_members(answer)["active"@] != Scalar::Flag(true),
    ensures
        crate::json::object_members(answer).dom() == set!["active"@],
{
    crate::introspect::lemma_member_names_distinct();
    assert(crate::json::object_members(answer).dom() =~= set!["active"@]);
}

/// An active answer describes the token that was found: its client (twice), its
/// type, when it was issued and when it expires, whether or not it has a user or a
/// scope; these too where it has them; and nothing else but the issuer.
pub proof fn law_active_answer_describes_the_token(
    step: TokenStep,
    lookup: Result<Option<AccessToken>, String>,
    now: Timestamp,
    answer: JsonObject,
)
    requires
        call_ensures(TokenStep::with_token, (step, lookup, now), answer),
        crate::json::object_members(answer)["active"@] == Scalar::Flag(true),
    ensures
        ({
            let members = crate::json::object_members(answer);
            let token = lookup->Ok_0->0;
            let always = set![
                "active"@,
                "iss"@,
                "client_id"@,
                "aud"@,
                "token_type"@,
                "iat"@,
                "exp"@,
            ];
            &&& lookup is Ok && lookup->Ok_0 is Some
            &&& members["iss"@] == Scalar::Text(step.issuer())
            &&& members["client_id"@] == Scalar::Text(token.client_id@)
            &&& members["aud"@] == Scalar::Text(token.client_id@)
            &&& members["token_type"@] == Scalar::Text(token.token_type@)
            &&& members["iat"@] == Scalar::Integer(token.created_at.seconds as int)
            &&& members["exp"@] == Scalar::Integer(token.expires_at.seconds as int)
            &&& members.contains_key("sub"@) == (token.user_id is Some)
            &&& token.user_id is Some ==> members["sub"@] == Scalar::Text(token.user_id->0@)
            &&& members.contains_key("scope"@) == (token.scope is Some)
            &&& token.scope is Some ==> members["scope"@] == Scalar::Text(token.scope->0@)
            &&& always.subset_of(members.dom())
            &&& members.dom().subset_of(always.insert("sub"@).insert("scope"@))
        }),
{
    crate::introspect::lemma_member_names_distinct();
}

/// A token that is reported active has not expired: its expiry, as reported, does
/// not lie before the time of the answer.
pub proof fn law_active_answer_has_a_future_expiry(
    step: TokenStep,
    lookup: Result<Option<AccessToken>, String>,
    now: Timestamp,
    answer: JsonObject,
)
    requires
        call_ensures(TokenStep::with_token, (step, lookup, now), answer),
        crate::json::object_members(answer)["active"@] == Scalar::Flag(true),
    ensures
        crate::json::object_members(answer)["exp"@] matches Scalar::Integer(exp) && exp
            >= now.seconds,
{
    crate::introspect::lemma_member_names_distinct();
}

/// A whole run is answered exactly when it has a token and credentials, and the
/// client store finds a client that presents its own secret, or whose own
/// assertion was validated.
pub proof fn law_run_is_answered_exactly_when_authenticated(
    base: &str,
    form: IntrospectForm,
    answers: Answers,
    r: Result<JsonObject, ErrorReply>,
)
    requires
        call_ensures(introspect, (base, form, answers), r),
    ensures
        r is Ok <==> {
            let auth = answers.client_auth->0;
            let client = answers.client->Ok_0->0;
            let method = client.token_endpoint_auth_method;
            &&& form.token@.len() > 0
            &&& answers.client_auth is Some
            &&& answers.client is Ok
            &&& answers.client->Ok_0 is Some
            &&& {
                ||| {
                    &&& method == ClientAuthMethod::ClientSecretBasic || method
                        == ClientAuthMethod::ClientSecretPost
                    &&& auth.client_secret is Some
                    &&& client.client_secret is Some
                    &&& auth.client_secret->0@ == client.client_secret->0@
                }
                ||| {
                    &&& method == ClientAuthMethod::PrivateKeyJwt
                    &&& auth.client_assertion is Some
                    &&& answers.validated is Ok
                    &&& answers.validated->Ok_0@ == client.client_id@
                }
            }
        },
{
}

/// A whole run that is refused is told the first thing that was wrong with it.
pub proof fn law_run_is_told_what_is_wrong(
    base: &str,
    form: IntrospectForm,
    answers: Answers,
    r: Result<JsonObject, ErrorReply>,
)
    requires
        call_ensures(introspect, (base, form, answers), r),
    ensures
        r matches Err(reply) ==> {
            let auth = answers.client_auth->0;
            let client = answers.client->Ok_0->0;
            if form.token@.len() == 0 {
                says(reply, 400, "invalid_request"@, "Missing token parameter"@)
            } else if answers.client_auth is None {
                says(reply, 401, "invalid_client"@, "Client authentication required"@)
            } else if answers.client is Err {
                says(reply, 500, "server_error"@, answers.client->Err_0@)
            } else if answers.client->Ok_0 is None {
                says(reply, 401, "invalid_client"@, "Unknown client"@)
            } else if client.token_endpoint_auth_method == ClientAuthMethod::Public {
                says(
                    reply,
                    401,
                    "invalid_client"@,
                    "The introspection endpoint requires a confidential client"@,
                )
            } else if client.token_endpoint_auth_method == ClientAuthMethod::PrivateKeyJwt {
                if auth.client_assertion is None {
                    says(reply, 401, "invalid_client"@, "Missing client_assertion"@)
                } else if answers.validated is Err {
                    says(reply, 401, "invalid_client"@, "Invalid client assertion"@)
                } else {
                    says(
                        reply,
                        401,
                        "invalid_client"@,
                        "JWT client_id does not match expected client"@,
                    )
                }
            } else if auth.client_secret is None {
                says(reply, 401, "invalid_client"@, "Missing client secret"@)
            } else if client.client_secret is None {
                says(reply, 401, "invalid_client"@, "Client has no secret configured"@)
            } else {
                says(reply, 401, "invalid_client"@, "Invalid client secret"@)
            }
        },
{
    lemma_error_names_distinct();
    if let Err(reply) = r {
        assert(crate::json::object_members(reply.body).dom() =~= set![
            "error"@,
            "error_description"@,
        ]);
    }
}

/// The answer of a whole run reports the token active exactly when it was found and
/// expires after the time of the answer; it then names this issuer and describes
/// the token, and otherwise it says nothing more.
pub proof fn law_run_answers_about_the_token(
    base: &str,
    form: IntrospectForm,
    answers: Answers,
    answer: JsonObject,
)
    requires
        call_ensures(introspect, (base, form, answers), Ok(answer)),
    ensures
        ({
            let members = crate::json::object_members(answer);
            let found = answers.token is Ok && answers.token->Ok_0 is Some;
            let token = answers.token->Ok_0->0;
            let expiry = token.expires_at;
            let now = answers.now;
            let always = set![
                "active"@,
                "iss"@,
                "client_id"@,
                "aud"@,
                "token_type"@,
                "iat"@,
                "exp"@,
            ];
            if found && (expiry.seconds > now.seconds || (expiry.seconds == now.seconds
                && expiry.nanos > now.nanos)) {
                &&& members["active"@] == Scalar::Flag(true)
                &&& members["iss"@] == Scalar::Text(base@)
                &&& members["client_id"@] == Scalar::Text(token.client_id@)
                &&& members["aud"@] == Scalar::Text(token.client_id@)
                &&& members["token_type"@] == Scalar::Text(token.token_type@)
                &&& members["iat"@] == Scalar::Integer(token.created_at.seconds as int)
                &&& members["exp"@] == Scalar::Integer(expiry.seconds as int)
                &&& members.contains_key("sub"@) == (token.user_id is Some)
                &&& token.user_id is Some ==> members["sub"@] == Scalar::Text(token.user_id->0@)
                &&& members.contains_key("scope"@) == (token.scope is Some)
                &&& token.scope is Some ==> members["scope"@] == Scalar::Text(token.scope->0@)
                &&& always.subset_of(members.dom())
                &&& members.dom().subset_of(always.insert("sub"@).insert("scope"@))
            } else {
                &&& members.dom() == set!["active"@]
                &&& members["active"@] == Scalar::Flag(false)
            }
        }),
{
    crate::introspect::lemma_member_names_distinct();
    let members = crate::json::object_members(answer);
    if members["active"@] == Scalar::Flag(false) {
        assert(members.dom() =~= set!["active"@]);
    }
}

/// Two runs that are both answered, by one issuer, from the same word of the token
/// store at the same time, are answered alike: who asks, how it authenticated and
/// what hint it gave make no difference.
pub proof fn law_answer_rests_on_the_token_alone(
    base: &str,
    form: IntrospectForm,
    answers: Answers,
    answer: JsonObject,
    other_form: IntrospectForm,
    other_answers: Answers,
    other_answer: JsonObject,
)
    requires
        call_ensures(introspect, (base, form, answers), Ok(answer)),
        call_ensures(introspect, (base, other_form, other_answers), Ok(other_answer)),
        answers.token == other_answers.token,
        answers.now == other_answers.now,
    ensures
        crate::json::object_members(answer) == crate::json::object_members(other_answer),
{
}

} // verus!
