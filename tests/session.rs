use bunqyy::api_context::{
    refresh_session, ApiContext, Environment, InstallationContext, SessionContext, SessionUserApiKey,
    UserInformation,
};
use bunqyy::common::BunqyyError;
use bunqyy::http::{authenticate_request, session_refresh_step};
use bunqyy::signing::{generate_keypair, sign_bytes_data_to_string};

fn session_sample(valid_until: i64, private_key: String) -> ApiContext {
    let user = UserInformation { id: 1, display_name: "A".to_string(), public_nick_name: "a".to_string(), session_timeout: 60 };
    ApiContext {
        api_key: "key".to_string(),
        environment: Environment::SANDBOX,
        installation_context: InstallationContext {
            token: "inst".to_string(),
            private_key_client: private_key,
            public_key_client: "pub".to_string(),
            public_key_server: "srv".to_string(),
        },
        session_context: SessionContext {
            token: "old".to_string(),
            valid_until,
            user_id: 1,
            user_api_key: SessionUserApiKey { id: 1, requested_by_user: user.clone(), granted_by_user: user },
        },
    }
}

#[test]
fn refresh_boundary() {
    let now: i64 = 1_000;
    let c = session_sample(now + 11, String::new());
    assert!(!c.session_context.needs_to_be_refreshed(now));
    let c = session_sample(now + 9, String::new());
    assert!(c.session_context.needs_to_be_refreshed(now));
    let c = session_sample(now + 10, String::new());
    assert!(c.session_context.needs_to_be_refreshed(now));
    assert!(session_sample(i64::MIN, String::new()).session_context.needs_to_be_refreshed(now));
    assert!(!session_sample(i64::MAX, String::new()).session_context.needs_to_be_refreshed(now));
    assert!(session_sample(i64::MAX, String::new()).session_context.needs_to_be_refreshed(i64::MAX));
}

#[test]
fn refresh_step_only_when_needed() {
    let keypair = generate_keypair().unwrap();
    let c = session_sample(2_000, keypair.private_key_pem.clone());
    assert!(session_refresh_step(&c, 1_000).unwrap().is_none());
    let q = session_refresh_step(&c, 1_995).unwrap().unwrap();
    assert_eq!(q.authentication.as_deref(), Some("inst"));
    let body: serde_json::Value = serde_json::from_str(&q.body).unwrap();
    assert_eq!(body["secret"].as_str().unwrap(), "key");
}

#[test]
fn refresh_replaces_only_the_session() {
    let mut c = session_sample(0, "k".to_string());
    let response = r#"{"Response":[{"Token":{"token":"new"}},{"UserApiKey":{"id":9,
        "requested_by_user":{"UserPerson":{"id":7,"display_name":"A","public_nick_name":"a","session_timeout":30}},
        "granted_by_user":{"UserPerson":{"id":8,"display_name":"B","public_nick_name":"b","session_timeout":60}}}}]}"#;
    refresh_session(&mut c, response, 500).unwrap();
    assert_eq!(c.session_context.token, "new");
    assert_eq!(c.session_context.valid_until, 530);
    assert_eq!(c.session_context.user_id, 9);
    assert_eq!(c.api_key, "key");
    assert_eq!(c.installation_context.token, "inst");
}

#[test]
fn failed_refresh_leaves_bundle() {
    let mut c = session_sample(77, "k".to_string());
    let r = refresh_session(&mut c, r#"{"Error":[{"error_description":"x","error_description_translated":"y"}]}"#, 500);
    assert!(matches!(r, Err(BunqyyError::ProviderError(_))));
    assert_eq!(c.session_context.token, "old");
    assert_eq!(c.session_context.valid_until, 77);
}

#[test]
fn body_is_signed_and_session_authenticates() {
    let keypair = generate_keypair().unwrap();
    let c = session_sample(0, keypair.private_key_pem.clone());
    let h = authenticate_request(&c, Some(b"{\"a\":1}")).unwrap();
    assert_eq!(h.authentication, "old");
    let expected = sign_bytes_data_to_string(b"{\"a\":1}", keypair.private_key_pem.clone()).unwrap();
    assert_eq!(h.signature.unwrap(), expected);
    let h = authenticate_request(&c, None).unwrap();
    assert_eq!(h.authentication, "old");
    assert!(h.signature.is_none());
}

#[test]
fn with_session_context_swaps_session_only() {
    let c = session_sample(5, "k".to_string());
    let mut fresh = session_sample(99, "other".to_string()).session_context;
    fresh.token = "fresh".to_string();
    let c = c.with_session_context(fresh);
    assert_eq!(c.session_context.token, "fresh");
    assert_eq!(c.session_context.valid_until, 99);
    assert_eq!(c.installation_context.private_key_client, "k");
    assert_eq!(c.api_key, "key");
}

#[test]
fn builder_with_all_parts_builds() {
    use_builder_with_all_parts();
}

fn use_builder_with_all_parts() {
    let parts = session_sample(1, "k".to_string());
    let mut builder = bunqyy::api_context::ContextBuilder::new_for_environment(Environment::PRODUCTION);
    builder.set_access_token("token".to_string());
    builder.set_installation_context(parts.installation_context);
    builder.set_session_context(parts.session_context);
    let built = builder.build().unwrap();
    assert_eq!(built.api_key, "token");
    assert_eq!(built.environment, Environment::PRODUCTION);
    assert_eq!(built.installation_context.token, "inst");
    assert_eq!(built.session_context.valid_until, 1);
}
