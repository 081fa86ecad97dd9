//! The credential file: the whole bundle as one JSON document, and back.
use vstd::prelude::*;
use crate::api_context::{
    ApiContext, ApiContextView, Environment, InstallationContext, InstallationContextView,
    SessionContext, SessionContextView, SessionUserApiKey, SessionUserApiKeyView, UserInformation,
    UserInformationView, str_equal,
};
use crate::common::BunqyyError;
use crate::http::{i64_field, read_i64_field, read_text_field, read_u64_field, text_field, u64_field};
use crate::json::{
    json_depth_within, json_empty_object, json_error_message, json_field,
    json_from_i64, json_from_text, json_from_u64, json_member, json_model, json_parse,
    json_to_text, object_insert, parse_json, JsonModel,
};

verus! {

pub open spec fn text(s: Seq<char>) -> JsonModel {
    JsonModel::Text(s)
}

/// A user profile as stored.
pub open spec fn user_json(u: UserInformationView) -> JsonModel {
    JsonModel::Object(
        Map::empty().insert("id"@, JsonModel::Int(u.id as int)).insert(
            "display_name"@,
            text(u.display_name),
        ).insert("public_nick_name"@, text(u.public_nick_name)).insert(
            "session_timeout"@,
            JsonModel::Int(u.session_timeout as int),
        ),
    )
}

/// A session's API key as stored.
pub open spec fn user_api_key_json(k: SessionUserApiKeyView) -> JsonModel {
    JsonModel::Object(
        Map::empty().insert("id"@, JsonModel::Int(k.id as int)).insert(
            "requested_by_user"@,
            user_json(k.requested_by_user),
        ).insert("granted_by_user"@, user_json(k.granted_by_user)),
    )
}

/// A session as stored; its expiry in whole Unix seconds, as an integer. A
/// file that holds the expiry as RFC 3339 text does not read as a bundle.
pub open spec fn session_json(s: SessionContextView) -> JsonModel {
    JsonModel::Object(
        Map::empty().insert("token"@, text(s.token)).insert(
            "valid_until"@,
            JsonModel::Int(s.valid_until as int),
        ).insert("user_id"@, JsonModel::Int(s.user_id as int)).insert(
            "user_api_key"@,
            user_api_key_json(s.user_api_key),
        ),
    )
}

/// An installation as stored.
pub open spec fn installation_json(i: InstallationContextView) -> JsonModel {
    JsonModel::Object(
        Map::empty().insert("token"@, text(i.token)).insert(
            "private_key_client"@,
            text(i.private_key_client),
        ).insert("public_key_client"@, text(i.public_key_client)).insert(
            "public_key_server"@,
            text(i.public_key_server),
        ),
    )
}

/// The whole bundle as stored.
pub open spec fn context_json(c: ApiContextView) -> JsonModel {
    JsonModel::Object(
        Map::empty().insert("api_key"@, text(c.api_key)).insert(
            "environment"@,
            text(c.environment.name_spec()),
        ).insert("installation_context"@, installation_json(c.installation_context)).insert(
            "session_context"@,
            session_json(c.session_context),
        ),
    )
}

/// The environment of a stored bundle, by its canonical name.
pub open spec fn stored_environment_of(s: Seq<char>) -> Option<Environment> {
    if s == "SANDBOX"@ {
        Some(Environment::SANDBOX)
    } else if s == "PRODUCTION"@ {
        Some(Environment::PRODUCTION)
    } else {
        None
    }
}

pub open spec fn stored_user_of(m: JsonModel) -> Option<UserInformationView> {
    match (
        u64_field(m, "id"@),
        text_field(m, "display_name"@),
        text_field(m, "public_nick_name"@),
        u64_field(m, "session_timeout"@),
    ) {
        (Some(id), Some(display_name), Some(public_nick_name), Some(session_timeout)) => Some(
            UserInformationView { id, display_name, public_nick_name, session_timeout },
        ),
        _ => None,
    }
}

pub open spec fn stored_user_api_key_of(m: JsonModel) -> Option<SessionUserApiKeyView> {
    match (json_field(m, "requested_by_user"@), json_field(m, "granted_by_user"@)) {
        (Some(r), Some(g)) => match (u64_field(m, "id"@), stored_user_of(r), stored_user_of(g)) {
            (Some(id), Some(requested_by_user), Some(granted_by_user)) => Some(
                SessionUserApiKeyView { id, requested_by_user, granted_by_user },
            ),
            _ => None,
        },
        _ => None,
    }
}

pub open spec fn stored_session_of(m: JsonModel) -> Option<SessionContextView> {
    match json_field(m, "user_api_key"@) {
        Some(k) => match (
            text_field(m, "token"@),
            i64_field(m, "valid_until"@),
            u64_field(m, "user_id"@),
            stored_user_api_key_of(k),
        ) {
            (Some(token), Some(valid_until), Some(user_id), Some(user_api_key)) => Some(
                SessionContextView { token, valid_until, user_id, user_api_key },
            ),
            _ => None,
        },
        None => None,
    }
}

pub open spec fn stored_installation_of(m: JsonModel) -> Option<InstallationContextView> {
    match (
        text_field(m, "token"@),
        text_field(m, "private_key_client"@),
        text_field(m, "public_key_client"@),
        text_field(m, "public_key_server"@),
    ) {
        (Some(token), Some(private_key_client), Some(public_key_client), Some(public_key_server)) => Some(
            InstallationContextView { token, private_key_client, public_key_client, public_key_server },
        ),
        _ => None,
    }
}

/// The bundle that a stored document holds.
pub open spec fn context_of(m: JsonModel) -> Option<ApiContextView> {
    match (json_field(m, "installation_context"@), json_field(m, "session_context"@)) {
        (Some(i), Some(s)) => match (
            text_field(m, "api_key"@),
            text_field(m, "environment"@),
            stored_installation_of(i),
            stored_session_of(s),
        ) {
            (Some(api_key), Some(env), Some(installation_context), Some(session_context)) =>
                match stored_environment_of(env) {
                Some(environment) => Some(
                    ApiContextView { api_key, environment, installation_context, session_context },
                ),
                None => None,
            },
            _ => None,
        },
        _ => None,
    }
}

fn user_to_json(u: &UserInformation) -> (r: serde_json::Value)
    ensures
        json_model(r) == user_json(u@),
        json_depth_within(json_model(r), 61),
{
    let mut o = json_empty_object();
    object_insert(&mut o, "id", json_from_u64(u.id), Ghost(60));
    object_insert(&mut o, "display_name", json_from_text(u.display_name.as_str()), Ghost(60));
    object_insert(&mut o, "public_nick_name", json_from_text(u.public_nick_name.as_str()), Ghost(60));
    object_insert(&mut o, "session_timeout", json_from_u64(u.session_timeout), Ghost(60));
    o
}

fn user_api_key_to_json(k: &SessionUserApiKey) -> (r: serde_json::Value)
    ensures
        json_model(r) == user_api_key_json(k@),
        json_depth_within(json_model(r), 62),
{
    let mut o = json_empty_object();
    object_insert(&mut o, "id", json_from_u64(k.id), Ghost(61));
    object_insert(&mut o, "requested_by_user", user_to_json(&k.requested_by_user), Ghost(61));
    object_insert(&mut o, "granted_by_user", user_to_json(&k.granted_by_user), Ghost(61));
    o
}

fn session_to_json(s: &SessionContext) -> (r: serde_json::Value)
    ensures
        json_model(r) == session_json(s@),
        json_depth_within(json_model(r), 63),
{
    let mut o = json_empty_object();
    object_insert(&mut o, "token", json_from_text(s.token.as_str()), Ghost(62));
    object_insert(&mut o, "valid_until", json_from_i64(s.valid_until), Ghost(62));
    object_insert(&mut o, "user_id", json_from_u64(s.user_id), Ghost(62));
    object_insert(&mut o, "user_api_key", user_api_key_to_json(&s.user_api_key), Ghost(62));
    o
}

fn installation_to_json(i: &InstallationContext) -> (r: serde_json::Value)
    ensures
        json_model(r) == installation_json(i@),
        json_depth_within(json_model(r), 63),
{
    let mut o = json_empty_object();
    object_insert(&mut o, "token", json_from_text(i.token.as_str()), Ghost(62));
    object_insert(&mut o, "private_key_client", json_from_text(i.private_key_client.as_str()), Ghost(62));
    object_insert(&mut o, "public_key_client", json_from_text(i.public_key_client.as_str()), Ghost(62));
    object_insert(&mut o, "public_key_server", json_from_text(i.public_key_server.as_str()), Ghost(62));
    o
}

/// The text of the credential file for `context`.
pub fn persist_config(context: &ApiContext) -> (r: String)
    ensures
        json_parse(r@) == Some(context_json(context@)),
{
    let mut o = json_empty_object();
    object_insert(&mut o, "api_key", json_from_text(context.api_key.as_str()), Ghost(63));
    object_insert(&mut o, "environment", json_from_text(context.environment.as_str()), Ghost(63));
    object_insert(&mut o, "installation_context", installation_to_json(&context.installation_context), Ghost(63));
    object_insert(&mut o, "session_context", session_to_json(&context.session_context), Ghost(63));
    json_to_text(&o)
}

fn read_stored_user(v: &serde_json::Value) -> (r: Option<UserInformation>)
    ensures
        r matches Some(u) ==> stored_user_of(json_model(*v)) == Some(u@),
        r is None ==> stored_user_of(json_model(*v)) is None,
{
    match (
        read_u64_field(v, "id"),
        read_text_field(v, "display_name"),
        read_text_field(v, "public_nick_name"),
        read_u64_field(v, "session_timeout"),
    ) {
        (Some(id), Some(display_name), Some(public_nick_name), Some(session_timeout)) => Some(
            UserInformation { id, display_name, public_nick_name, session_timeout },
        ),
        _ => None,
    }
}

fn read_stored_user_api_key(v: &serde_json::Value) -> (r: Option<SessionUserApiKey>)
    ensures
        r matches Some(k) ==> stored_user_api_key_of(json_model(*v)) == Some(k@),
        r is None ==> stored_user_api_key_of(json_model(*v)) is None,
{
    let requested = json_member(v, "requested_by_user")?;
    let granted = json_member(v, "granted_by_user")?;
    match (read_u64_field(v, "id"), read_stored_user(requested), read_stored_user(granted)) {
        (Some(id), Some(requested_by_user), Some(granted_by_user)) => Some(
            SessionUserApiKey { id, requested_by_user, granted_by_user },
        ),
        _ => None,
    }
}

fn read_stored_session(v: &serde_json::Value) -> (r: Option<SessionContext>)
    ensures
        r matches Some(c) ==> stored_session_of(json_model(*v)) == Some(c@),
        r is None ==> stored_session_of(json_model(*v)) is None,
{
    let k = json_member(v, "user_api_key")?;
    match (
        read_text_field(v, "token"),
        read_i64_field(v, "valid_until"),
        read_u64_field(v, "user_id"),
        read_stored_user_api_key(k),
    ) {
        (Some(token), Some(valid_until), Some(user_id), Some(user_api_key)) => Some(
            SessionContext { token, valid_until, user_id, user_api_key },
        ),
        _ => None,
    }
}

fn read_stored_installation(v: &serde_json::Value) -> (r: Option<InstallationContext>)
    ensures
        r matches Some(c) ==> stored_installation_of(json_model(*v)) == Some(c@),
        r is None ==> stored_installation_of(json_model(*v)) is None,
{
    match (
        read_text_field(v, "token"),
        read_text_field(v, "private_key_client"),
        read_text_field(v, "public_key_client"),
        read_text_field(v, "public_key_server"),
    ) {
        (Some(token), Some(private_key_client), Some(public_key_client), Some(public_key_server)) => Some(
            InstallationContext { token, private_key_client, public_key_client, public_key_server },
        ),
        _ => None,
    }
}

fn read_stored_environment(s: &str) -> (r: Option<Environment>)
    ensures
        r == stored_environment_of(s@),
{
    if str_equal(s, "SANDBOX") {
        Some(Environment::SANDBOX)
    } else if str_equal(s, "PRODUCTION") {
        Some(Environment::PRODUCTION)
    } else {
        None
    }
}

fn read_context(v: &serde_json::Value) -> (r: Option<ApiContext>)
    ensures
        r matches Some(c) ==> context_of(json_model(*v)) == Some(c@),
        r is None ==> context_of(json_model(*v)) is None,
{
    let i = json_member(v, "installation_context")?;
    let s = json_member(v, "session_context")?;
    match (
        read_text_field(v, "api_key"),
        read_text_field(v, "environment"),
        read_stored_installation(i),
        read_stored_session(s),
    ) {
        (Some(api_key), Some(env), Some(installation_context), Some(session_context)) => {
            let environment = read_stored_environment(env.as_str())?;
            Some(ApiContext { api_key, environment, installation_context, session_context })
        },
        _ => None,
    }
}

/// The bundle that a credential file holds, as far as it holds one.
pub open spec fn load_spec(text: Seq<char>) -> Option<ApiContextView> {
    match json_parse(text) {
        Some(m) => context_of(m),
        None => None,
    }
}

/// Reads the text of a credential file; a text that is no stored bundle is
/// a deserialization error.
pub fn load_config(text: &str) -> (r: Result<ApiContext, BunqyyError>)
    ensures
        load_spec(text@) matches Some(c) ==> (r matches Ok(x) && x@ == c),
        load_spec(text@) is None ==> (r matches Err(e) && e is ResponseDeserialization),
{
    match parse_json(text) {
        Ok(v) => match read_context(&v) {
            Some(c) => Ok(c),
            None => Err(BunqyyError::ResponseDeserialization(
                "the credential file does not hold a complete bundle".to_owned(),
            )),
        },
        Err(e) => Err(BunqyyError::ResponseDeserialization(json_error_message(&e))),
    }
}

proof fn lemma_user_round_trip(u: UserInformationView)
    ensures
        stored_user_of(user_json(u)) == Some(u),
{
    reveal_strlit("id");
    assert("id"@.len() == 2);
    reveal_strlit("display_name");
    assert("display_name"@.len() == 12);
    reveal_strlit("public_nick_name");
    assert("public_nick_name"@.len() == 16);
    reveal_strlit("session_timeout");
    assert("session_timeout"@.len() == 15);
}

proof fn lemma_user_api_key_round_trip(k: SessionUserApiKeyView)
    ensures
        stored_user_api_key_of(user_api_key_json(k)) == Some(k),
{
    lemma_user_round_trip(k.requested_by_user);
    lemma_user_round_trip(k.granted_by_user);
    reveal_strlit("id");
    assert("id"@.len() == 2);
    reveal_strlit("requested_by_user");
    assert("requested_by_user"@.len() == 17);
    reveal_strlit("granted_by_user");
    assert("granted_by_user"@.len() == 15);
}

proof fn lemma_session_round_trip(s: SessionContextView)
    ensures
        stored_session_of(session_json(s)) == Some(s),
{
    lemma_user_api_key_round_trip(s.user_api_key);
    reveal_strlit("token");
    assert("token"@.len() == 5);
    reveal_strlit("valid_until");
    assert("valid_until"@.len() == 11);
    reveal_strlit("user_id");
    assert("user_id"@.len() == 7);
    reveal_strlit("user_api_key");
    assert("user_api_key"@.len() == 12);
}

proof fn lemma_installation_round_trip(i: InstallationContextView)
    ensures
        stored_installation_of(installation_json(i)) == Some(i),
{
    reveal_strlit("token");
    assert("token"@.len() == 5);
    reveal_strlit("private_key_client");
    assert("private_key_client"@.len() == 18);
    reveal_strlit("public_key_client");
    assert("public_key_client"@.len() == 17);
    reveal_strlit("public_key_server");
    assert("public_key_server"@.len() == 17);
    assert("public_key_client"@[11] != "public_key_server"@[11]);
}

/// Loading what was persisted gives back the same bundle: the text that
/// `persist_config` writes for a bundle reads, through `load_config`, as that bundle.
pub proof fn persist_load_round_trip(context: ApiContextView)
    ensures
        context_of(context_json(context)) == Some(context),
{
    lemma_installation_round_trip(context.installation_context);
    lemma_session_round_trip(context.session_context);
    reveal_strlit("api_key");
    assert("api_key"@.len() == 7);
    reveal_strlit("environment");
    assert("environment"@.len() == 11);
    reveal_strlit("installation_context");
    assert("installation_context"@.len() == 20);
    reveal_strlit("session_context");
    assert("session_context"@.len() == 15);
    reveal_strlit("SANDBOX");
    assert("SANDBOX"@.len() == 7);
    reveal_strlit("PRODUCTION");
    assert("PRODUCTION"@.len() == 10);
}

} // verus!
