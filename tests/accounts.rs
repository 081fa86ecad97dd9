use bunqyy::domains::monetary_account::{Amount, MonetaryAccount, MonetaryAccountBank, MonetaryAccountId, Status};

#[test]
fn account_accessors() {
    let account = MonetaryAccount::MonetaryAccountBank(MonetaryAccountBank {
        currency: "EUR".to_string(),
        balance: Amount { currency: "EUR".to_string(), value: "12.50".to_string() },
        status: Status::Active,
        sub_status: "NONE".to_string(),
        description: "Main".to_string(),
        display_name: "Jo".to_string(),
        id: MonetaryAccountId(31),
    });
    assert_eq!(account.get_name(), "Jo : Main");
    assert_eq!(account.get_balance().value, "12.50");
    assert_eq!(account.get_id(), MonetaryAccountId(31));
    assert_eq!(*account.get_status(), Status::Active);
}

use bunqyy::common::BunqyyError;
use bunqyy::domains::monetary_account::monetary_accounts_from_response;
use bunqyy::domains::oauth::{create_auth_url, is_plausible_code};
use bunqyy::domains::payment::payments_from_response;
use bunqyy::api_context::Environment;
use bunqyy::common::SetupContext;

const ACCOUNTS: &str = r#"{"Response":[
 {"MonetaryAccountBank":{"currency":"EUR","balance":{"currency":"EUR","value":"1.00"},"status":"ACTIVE",
   "sub_status":"NONE","description":"Main","display_name":"Jo","id":1,"extra":true}},
 {"MonetaryAccountSavings":{"currency":"EUR","balance":{"currency":"EUR","value":"2.00"},"status":"PendingReopen",
   "sub_status":"NONE","description":"Save","display_name":"Jo","id":2,"number_of_payment_remaining":3}}
]}"#;

#[test]
fn account_listing_is_decoded_in_order() {
    let accounts = monetary_accounts_from_response(ACCOUNTS).unwrap();
    assert_eq!(accounts.len(), 2);
    assert_eq!(accounts[0].get_name(), "Jo : Main");
    assert_eq!(accounts[0].get_id(), MonetaryAccountId(1));
    assert_eq!(*accounts[0].get_status(), Status::Active);
    match &accounts[1] {
        MonetaryAccount::MonetaryAccountSavings(s) => {
            assert_eq!(s.number_of_payment_remaining, 3);
            assert_eq!(s.status, Status::PendingReopen);
            assert_eq!(s.balance.value, "2.00");
        }
        other => panic!("unexpected {:?}", other),
    }
}

#[test]
fn account_listing_failures() {
    let bad_status = ACCOUNTS.replace("ACTIVE", "GONE");
    assert!(matches!(monetary_accounts_from_response(&bad_status), Err(BunqyyError::ResponseDeserialization(_))));
    let error = r#"{"Error":[{"error_description":"no","error_description_translated":"nee"}]}"#;
    match monetary_accounts_from_response(error) {
        Err(BunqyyError::ProviderError(es)) => assert_eq!(es[0].error_description_translated, "nee"),
        other => panic!("unexpected {:?}", other),
    }
}

#[test]
fn payment_listing_is_decoded() {
    let response = r#"{"Response":[{"Payment":{"id":5,"created":"2024-01-01","monetary_account_id":1,
      "amount":{"currency":"EUR","value":"-3.00"},
      "alias":{"iban":"NL01","display_name":"Jo","country":"NL"},
      "counterparty_alias":{"iban":null,"display_name":"Shop","country":"NL"},
      "description":"coffee","type":"BUNQ","sub_type":"PAYMENT","merchant_reference":null,
      "balance_after_mutation":{"currency":"EUR","value":"7.00"}}}]}"#;
    let payments = payments_from_response(response).unwrap();
    assert_eq!(payments.len(), 1);
    let p = &payments[0];
    assert_eq!(p.id.0, 5);
    assert_eq!(p.monetary_account_id, MonetaryAccountId(1));
    assert_eq!(p.alias.iban.as_deref(), Some("NL01"));
    assert!(p.counterparty_alias.iban.is_none());
    assert!(p.merchant_reference.is_none());
    assert_eq!(p.payment_type, "BUNQ");
    assert_eq!(p.balance_after_mutation.value, "7.00");
    assert!(matches!(payments_from_response(r#"{"Response":[{"Id":{"id":1}}]}"#), Err(BunqyyError::ResponseDeserialization(_))));
}

#[test]
fn auth_url_carries_client() {
    let setup = SetupContext::new(Environment::SANDBOX, "abc def".to_string(), "s".to_string(), "p".to_string());
    let url = create_auth_url(&setup).unwrap();
    assert_eq!(
        url,
        "https://oauth.bunq.com/auth?response_type=code&client_id=abc+def&redirect_uri=http%3A%2F%2F127.0.0.1%3A5454"
    );
}

#[test]
fn short_codes_are_implausible() {
    assert!(!is_plausible_code("abc"));
    assert!(is_plausible_code("abcd"));
    assert!(is_plausible_code("\u{e9}\u{e9}"));
    assert!(!is_plausible_code("\u{e9}a"));
}
