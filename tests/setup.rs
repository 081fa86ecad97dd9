use bunqyy::api_context::{ContextBuilder, Endpoints, Environment};
use bunqyy::common::{BunqyyError, SetupContext, BUNQ_BASE_URL};
use bunqyy::http::{BunqError, WellKnownBunqHeaders};

#[test]
fn test_setup_context() {
    let setup_context = SetupContext::new(
        Environment::PRODUCTION,
        "client_id".to_string(),
        "client_secret".to_string(),
        ".context.json".to_string(),
    );

    assert_eq!(setup_context.environment, Environment::PRODUCTION);
    assert_eq!(setup_context.client_id, "client_id");
    assert_eq!(setup_context.client_secret, "client_secret");
    assert_eq!(setup_context.storage_path, ".context.json");
}

#[test]
fn environment_names_are_read() {
    for name in ["SANDBOX", "sandbox", "", "sb"] {
        assert_eq!(name.parse::<Environment>().unwrap(), Environment::SANDBOX);
    }
    for name in ["PRODUCTION", "production", "prod", "PROD"] {
        assert_eq!(Environment::parse(name).unwrap(), Environment::PRODUCTION);
    }
}

#[test]
fn unknown_environment_is_invalid() {
    match Environment::parse("staging") {
        Err(BunqyyError::InvalidEnvironment(s)) => assert_eq!(s, "staging"),
        other => panic!("unexpected {:?}", other),
    }
    assert!(matches!(Environment::parse("Sandbox"), Err(BunqyyError::InvalidEnvironment(_))));
}

#[test]
fn environment_canonical_names() {
    assert_eq!(Environment::SANDBOX.as_str(), "SANDBOX");
    assert_eq!(Environment::PRODUCTION.as_str(), "PRODUCTION");
}

#[test]
fn endpoint_urls_under_base() {
    assert_eq!(Endpoints::Installation.url(BUNQ_BASE_URL), "https://api.bunq.com/v1/installation");
    assert_eq!(Endpoints::DeviceServer.url(BUNQ_BASE_URL), "https://api.bunq.com/v1/device-server");
    assert_eq!(Endpoints::SessionServer.url("http://x"), "http://x/session-server");
}

#[test]
fn header_names() {
    assert_eq!(WellKnownBunqHeaders::Authentication.to_string(), "X-Bunq-Client-Authentication");
    assert_eq!(WellKnownBunqHeaders::Signature.to_string(), "X-Bunq-Client-Signature");
}

#[test]
fn builder_without_session_is_incomplete() {
    let mut builder = ContextBuilder::new_for_environment(Environment::SANDBOX);
    builder.set_access_token("key".to_string());
    builder.set_device_id(3);
    assert_eq!(builder.device_id, Some(3));
    assert!(matches!(builder.build(), Err(BunqyyError::MissingDataToBuildApiContext)));
}

#[test]
fn error_messages() {
    assert_eq!(BunqyyError::InvalidEnvironment("x".to_string()).message(), "Invalid environment: x");
    assert_eq!(BunqyyError::MissingExpectedVariant("Id".to_string()).message(), "Missing expected variant: Id");
    let errors = vec![
        BunqError { error_description: "a".to_string(), error_description_translated: "A".to_string() },
        BunqError { error_description: "b".to_string(), error_description_translated: "B".to_string() },
    ];
    assert_eq!(BunqyyError::ProviderError(errors).message(), "Provider error: A; B");
    assert_eq!(BunqyyError::ProviderError(Vec::new()).message(), "Provider error: ");
}
