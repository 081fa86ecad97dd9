use bunqyy::api_context::{
    device_id_from_response, installation_context_from_response, installation_request,
    session_context_from_response, session_server_request, Bootstrap, BootstrapStage, Environment,
};
use bunqyy::common::BunqyyError;
use bunqyy::signing::{create_signer, generate_keypair, sign_bytes_data_to_string};

const SESSION_RESPONSE: &str = r#"{"Response":[
    {"Id":{"id":99}},
    {"Token":{"id":1,"created":"c","updated":"u","token":"S1"}},
    {"UserApiKey":{"id":42,
        "requested_by_user":{"UserPerson":{"id":7,"display_name":"A","public_nick_name":"a","session_timeout":3600}},
        "granted_by_user":{"UserPerson":{"id":8,"display_name":"B","public_nick_name":"b","session_timeout":3600}}}}
]}"#;

#[test]
fn installation_response_gives_installation_context() {
    let keypair = generate_keypair().unwrap();
    let response = r#"{"Response":[{"Token":{"token":"T1"}},{"ServerPublicKey":{"server_public_key":"PK1"}}]}"#;
    let c = installation_context_from_response(response, &keypair).unwrap();
    assert_eq!(c.token, "T1");
    assert_eq!(c.public_key_server, "PK1");
    assert_eq!(c.public_key_client, keypair.public_key_pem);
    assert_eq!(c.private_key_client, keypair.private_key_pem);
}

#[test]
fn installation_entries_in_any_order() {
    let keypair = generate_keypair().unwrap();
    let response = r#"{"Response":[{"ServerPublicKey":{"server_public_key":"PK2"}},{"Other":{}},{"Token":{"token":"T2"}}]}"#;
    let c = installation_context_from_response(response, &keypair).unwrap();
    assert_eq!(c.token, "T2");
    assert_eq!(c.public_key_server, "PK2");
}

#[test]
fn installation_without_server_key_fails_and_builds_nothing() {
    let (mut bootstrap, request) = Bootstrap::start(Environment::SANDBOX, "api".to_string()).unwrap();
    assert!(request.authentication.is_none());
    let body: serde_json::Value = serde_json::from_str(&request.body).unwrap();
    assert_eq!(body["client_public_key"].as_str().unwrap(), bootstrap.keypair.as_ref().unwrap().public_key_pem);
    let r = bootstrap.on_installation_response(r#"{"Response":[{"Token":{"token":"T1"}}]}"#);
    assert!(matches!(r, Err(BunqyyError::MissingExpectedVariant(_))));
    assert!(matches!(bootstrap.stage, BootstrapStage::Installing));
    assert!(bootstrap.builder.installation_context.is_none());
}

#[test]
fn provider_error_is_surfaced() {
    let keypair = generate_keypair().unwrap();
    let response = r#"{"Error":[{"error_description":"bad","error_description_translated":"slecht"}]}"#;
    match installation_context_from_response(response, &keypair) {
        Err(BunqyyError::ProviderError(es)) => {
            assert_eq!(es.len(), 1);
            assert_eq!(es[0].error_description, "bad");
            assert_eq!(es[0].error_description_translated, "slecht");
        }
        other => panic!("unexpected {:?}", other),
    }
}

#[test]
fn device_id_is_read() {
    assert_eq!(device_id_from_response(r#"{"Response":[{"Id":{"id":17}}]}"#).unwrap(), 17);
    assert!(matches!(
        device_id_from_response(r#"{"Response":[]}"#),
        Err(BunqyyError::MissingExpectedVariant(_))
    ));
}

#[test]
fn session_response_gives_session_context() {
    let now: i64 = 1_700_000_000;
    let s = session_context_from_response(SESSION_RESPONSE, now).unwrap();
    assert_eq!(s.token, "S1");
    assert_eq!(s.user_id, 42);
    assert_eq!(s.valid_until, now + 3600);
    assert_eq!(s.user_api_key.id, 42);
    assert_eq!(s.user_api_key.requested_by_user.id, 7);
    assert_eq!(s.user_api_key.requested_by_user.display_name, "A");
    assert_eq!(s.user_api_key.granted_by_user.id, 8);
    assert_eq!(s.user_api_key.granted_by_user.public_nick_name, "b");
}

#[test]
fn session_expiry_saturates() {
    let s = session_context_from_response(SESSION_RESPONSE, i64::MAX - 5).unwrap();
    assert_eq!(s.valid_until, i64::MAX);
}

#[test]
fn session_without_user_api_key_fails() {
    let r = session_context_from_response(r#"{"Response":[{"Token":{"token":"S1"}}]}"#, 0);
    assert!(matches!(r, Err(BunqyyError::MissingExpectedVariant(_))));
}

#[test]
fn session_request_is_signed_over_its_body() {
    let keypair = generate_keypair().unwrap();
    let q = session_server_request("key", "inst", create_signer(keypair.private_key_pem.clone())).unwrap();
    let body: serde_json::Value = serde_json::from_str(&q.body).unwrap();
    assert_eq!(body["secret"].as_str().unwrap(), "key");
    assert_eq!(q.authentication.as_deref(), Some("inst"));
    let expected = sign_bytes_data_to_string(q.body.as_bytes(), keypair.private_key_pem.clone()).unwrap();
    assert_eq!(q.signature.unwrap(), expected);
}

#[test]
fn installation_request_is_unsigned() {
    let keypair = generate_keypair().unwrap();
    let q = installation_request(&keypair);
    assert!(q.signature.is_none());
    let body: serde_json::Value = serde_json::from_str(&q.body).unwrap();
    assert_eq!(body["client_public_key"].as_str().unwrap(), keypair.public_key_pem);
}

#[test]
fn full_bootstrap_builds_bundle() {
    let (mut bootstrap, _) = Bootstrap::start(Environment::PRODUCTION, "api".to_string()).unwrap();
    let device = bootstrap
        .on_installation_response(r#"{"Response":[{"Token":{"token":"T1"}},{"ServerPublicKey":{"server_public_key":"PK1"}}]}"#)
        .unwrap();
    let body: serde_json::Value = serde_json::from_str(&device.body).unwrap();
    assert_eq!(body["description"].as_str().unwrap(), "bunqyy");
    assert_eq!(body["secret"].as_str().unwrap(), "api");
    assert_eq!(body["permitted_ips"].as_array().unwrap().len(), 0);
    assert_eq!(device.authentication.as_deref(), Some("T1"));
    assert!(device.signature.is_some());
    let session = bootstrap.on_device_response(r#"{"Response":[{"Id":{"id":5}}]}"#).unwrap();
    assert_eq!(bootstrap.builder.device_id, Some(5));
    assert_eq!(session.authentication.as_deref(), Some("T1"));
    let context = bootstrap.on_session_response(SESSION_RESPONSE, 100).unwrap();
    assert_eq!(context.api_key, "api");
    assert_eq!(context.environment, Environment::PRODUCTION);
    assert_eq!(context.installation_context.token, "T1");
    assert_eq!(context.session_context.token, "S1");
    assert_eq!(context.session_context.valid_until, 3700);
}
