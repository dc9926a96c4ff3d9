//! What holds of the library as a whole.

use object_store::path::Path;
use vstd::prelude::*;

use crate::avatar_storage::{AvatarEnv, PutRequest};
use crate::introspect::{Answers, ClientAuthStep, IntrospectForm};
use crate::json::Scalar;
use crate::oauth::{AccessToken, ClientAuthMethod};
use crate::timestamp::Timestamp;

verus! {

/// Whether the token store found a token that has not expired at the time `now`.
pub open spec fn is_live(lookup: Result<Option<AccessToken>, String>, now: Timestamp) -> bool {
    lookup matches Ok(Some(token)) && !token.expires_at.not_after(now)
}

/// Every answer says whether the token is active: it is exactly when the store
/// found it and it has not expired.
pub proof fn law_active_exactly_when_live(
    issuer: Seq<char>,
    lookup: Result<Option<AccessToken>, String>,
    now: Timestamp,
)
    ensures
        crate::introspect::token_members(issuer, lookup, now).contains_key("active"@),
        crate::introspect::token_members(issuer, lookup, now)["active"@] == Scalar::Flag(
            is_live(lookup, now),
        ),
{
    crate::introspect::lemma_member_names_distinct();
}

/// An expired token is never reported active, and nothing else is said about it.
pub proof fn law_expired_token_is_inactive(issuer: Seq<char>, token: AccessToken, now: Timestamp)
    requires
        token.expires_at.not_after(now),
    ensures
        crate::introspect::token_members(issuer, Ok(Some(token)), now) == map![
            "active"@ => Scalar::Flag(false),
        ],
{
}

/// All inactive answers are alike: they do not tell whether the token is unknown,
/// has expired or could not be looked up.
pub proof fn law_inactive_answers_are_alike(
    issuer: Seq<char>,
    lookup: Result<Option<AccessToken>, String>,
    now: Timestamp,
    other_issuer: Seq<char>,
    other_lookup: Result<Option<AccessToken>, String>,
    other_now: Timestamp,
)
    requires
        !is_live(lookup, now),
        !is_live(other_lookup, other_now),
    ensures
        crate::introspect::token_members(issuer, lookup, now) == crate::introspect::token_members(
            other_issuer,
            other_lookup,
            other_now,
        ),
{
}

/// A token that is inactive stays so as time goes by.
pub proof fn law_inactive_stays_inactive(
    issuer: Seq<char>,
    lookup: Result<Option<AccessToken>, String>,
    now: Timestamp,
    later: Timestamp,
)
    requires
        now.not_after(later),
        crate::introspect::token_members(issuer, lookup, now)["active"@] == Scalar::Flag(false),
    ensures
        crate::introspect::token_members(issuer, lookup, later)["active"@] == Scalar::Flag(false),
{
    law_active_exactly_when_live(issuer, lookup, now);
    law_active_exactly_when_live(issuer, lookup, later);
}

/// The answer about an active token names a subject exactly when the token has a
/// user, and a scope exactly when one was granted.
pub proof fn law_optional_members(issuer: Seq<char>, token: AccessToken)
    ensures
        ({
            let members = crate::introspect::active_members(issuer, token);
            &&& match token.user_id {
                Some(user_id) => members.contains_key("sub"@) && members["sub"@] == Scalar::Text(
                    user_id@,
                ),
                None => !members.contains_key("sub"@),
            }
            &&& match token.scope {
                Some(scope) => members.contains_key("scope"@) && members["scope"@]
                    == Scalar::Text(scope@),
                None => !members.contains_key("scope"@),
            }
        }),
{
    crate::introspect::lemma_member_names_distinct();
}

/// The audience of an active token is the client that it was issued to, and the
/// issuer is the one that answers.
pub proof fn law_audience_is_the_client(issuer: Seq<char>, token: AccessToken)
    ensures
        ({
            let members = crate::introspect::active_members(issuer, token);
            &&& members["aud"@] == members["client_id"@]
            &&& members["client_id"@] == Scalar::Text(token.client_id@)
            &&& members["iss"@] == Scalar::Text(issuer)
        }),
{
    crate::introspect::lemma_member_names_distinct();
}

/// The token type hint has no influence: on the credentials that are asked for,
/// on the token that is looked up, or on the outcome.
pub proof fn law_hint_has_no_influence(
    form: IntrospectForm,
    hint: Option<String>,
    step: ClientAuthStep,
    answers: Answers,
)
    ensures
        ({
            let other = IntrospectForm { token_type_hint: hint, ..form };
            &&& other.token == form.token
            &&& step.credentials_of(other) == step.credentials_of(form)
            &&& crate::introspect::run_refusal(other, answers) == crate::introspect::run_refusal(
                form,
                answers,
            )
        }),
{
}

/// Only an authenticated confidential client gets an answer: one that presented
/// its own secret, or whose assertion was validated for it.
pub proof fn law_answers_need_authentication(form: IntrospectForm, answers: Answers)
    requires
        crate::introspect::run_refusal(form, answers) is None,
    ensures
        form.token@.len() > 0,
        answers.client_auth is Some,
        answers.client matches Ok(Some(client)) && match client.token_endpoint_auth_method {
            ClientAuthMethod::Public => false,
            ClientAuthMethod::ClientSecretBasic | ClientAuthMethod::ClientSecretPost => {
                &&& answers.client_auth->0.client_secret matches Some(provided)
                &&& client.client_secret matches Some(expected)
                &&& provided@ == expected@
            },
            ClientAuthMethod::PrivateKeyJwt => {
                &&& answers.client_auth->0.client_assertion is Some
                &&& answers.validated matches Ok(subject)
                &&& subject@ == client.client_id@
            },
        },
{
}

/// A public client is always refused, whatever it presents.
pub proof fn law_public_client_is_refused(form: IntrospectForm, answers: Answers)
    requires
        form.token@.len() > 0,
        answers.client_auth is Some,
        answers.client matches Ok(Some(client)) && client.token_endpoint_auth_method
            == ClientAuthMethod::Public,
    ensures
        crate::introspect::run_refusal(form, answers) matches Some(refusal) && refusal
            == crate::reply::client_refusal(
            "The introspection endpoint requires a confidential client"@,
        ),
{
}

/// A refusal is one of three: the request lacks a token, the client store failed,
/// or the client is not authenticated.
pub proof fn law_kinds_of_refusal(form: IntrospectForm, answers: Answers)
    ensures
        crate::introspect::run_refusal(form, answers) matches Some(refusal) ==> {
            if form.token@.len() == 0 {
                refusal.status == crate::reply::BAD_REQUEST && refusal.error == "invalid_request"@
            } else if answers.client_auth is Some && answers.client is Err {
                refusal.status == crate::reply::INTERNAL_SERVER_ERROR && refusal.error
                    == "server_error"@
            } else {
                refusal.status == crate::reply::UNAUTHORIZED && refusal.error
                    == "invalid_client"@
            }
        },
{
}

/// The content type rests on the first twelve bytes alone.
pub proof fn law_content_type_rests_on_leading_bytes(bytes: Seq<u8>)
    requires
        bytes.len() >= 12,
    ensures
        crate::avatar_storage::image_content_type(bytes)
            == crate::avatar_storage::image_content_type(bytes.take(12)),
{
    let leading = bytes.take(12);
    assert(leading.subrange(0, 3) =~= bytes.subrange(0, 3));
    assert(leading.subrange(0, 4) =~= bytes.subrange(0, 4));
    assert(leading.subrange(0, 8) =~= bytes.subrange(0, 8));
    assert(leading.subrange(8, 12) =~= bytes.subrange(8, 12));
}

/// An avatar is fetched from where it was put.
pub proof fn law_avatar_is_fetched_from_where_it_was_put(
    cid: Seq<char>,
    bytes: Seq<u8>,
    content_type: Seq<char>,
    request: PutRequest,
    location: Path,
)
    requires
        request.stores(cid, bytes, content_type),
        crate::avatar_storage::is_location_of(location, cid),
    ensures
        request.key() == crate::store::path_text(location),
{
}

/// Uploading an avatar again overwrites it with the same bytes and the same
/// content type.
pub proof fn law_upload_is_idempotent(
    cid: Seq<char>,
    bytes: Seq<u8>,
    content_type: Seq<char>,
    first: PutRequest,
    second: PutRequest,
)
    requires
        first.stores(cid, bytes, content_type),
        second.stores(cid, bytes, content_type),
    ensures
        second.overwrites(),
        second.key() == first.key(),
        second.bytes() == first.bytes(),
        second.recorded() == first.recorded(),
        second.tags() == first.tags(),
{
}

/// Blobs with different CIDs do not overwrite each other.
pub proof fn law_different_avatars_are_kept_apart(
    cid: Seq<char>,
    bytes: Seq<u8>,
    content_type: Seq<char>,
    request: PutRequest,
    other_cid: Seq<char>,
    other_bytes: Seq<u8>,
    other_content_type: Seq<char>,
    other_request: PutRequest,
)
    requires
        crate::store::is_plain(cid),
        crate::store::is_plain(other_cid),
        cid != other_cid,
        request.stores(cid, bytes, content_type),
        other_request.stores(other_cid, other_bytes, other_content_type),
    ensures
        request.key() != other_request.key(),
{
}

/// Plain HTTP is allowed exactly where the endpoint does not begin with `https`.
pub proof fn law_plain_http_only_without_https(env: AvatarEnv)
    requires
        env.is_complete(),
    ensures
        env.configuration().contains_key("allow_http"@) <==> !"https"@.is_prefix_of(
            env.endpoint->0@,
        ),
{
    crate::avatar_storage::lemma_configuration_is_full(env);
}

} // verus!
