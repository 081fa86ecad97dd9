use bunqyy::common::BunqyyError;
use bunqyy::http::{decode_envelope, find_first, process_response_content, BunqResponse, EntryKind, ResponseEntry};

#[test]
fn success_response_should_result_in_id() {
    let response = r#"
        {
            "Response": [
                {
                    "Id": {
                        "id": 1
                    }
                }
            ]
        }
        "#;

    let result = process_response_content(response).unwrap();

    match result {
        BunqResponse::Success(content) => {
            assert_eq!(content.response.len(), 1);
            assert!(matches!(content.response[0], ResponseEntry::Id(1)));
        }
        _ => panic!("Expected success"),
    }
}

#[test]
fn error_response_should_result_in_error() {
    let response = r#"
        {
            "Error": [
                {
                    "error_description": "error",
                    "error_description_translated": "error"
                }
            ]
        }
        "#;

    let result = process_response_content(response).unwrap();

    match result {
        BunqResponse::Error(content) => {
            assert_eq!(content.error[0].error_description, "error");
            assert_eq!(content.error[0].error_description_translated, "error");
        }
        _ => panic!("Expected error"),
    }
}

#[test]
fn error_envelope_keeps_every_entry() {
    let response = r#"{"Error":[{"error_description":"e","error_description_translated":"t"},
        {"error_description":"e2","error_description_translated":"t2"}]}"#;
    match process_response_content(response).unwrap() {
        BunqResponse::Error(content) => {
            assert_eq!(content.error.len(), 2);
            assert_eq!(content.error[0].error_description, "e");
            assert_eq!(content.error[0].error_description_translated, "t");
            assert_eq!(content.error[1].error_description, "e2");
            assert_eq!(content.error[1].error_description_translated, "t2");
        }
        _ => panic!("Expected error"),
    }
}

#[test]
fn unknown_variants_are_kept_in_order() {
    let response = r#"{"Response":[{"Other":{"x":1}},{"Token":{"token":"a"}},{"Id":{"id":5}},{"Token":{"token":"b"}}]}"#;
    match process_response_content(response).unwrap() {
        BunqResponse::Success(content) => {
            let entries = content.response;
            assert_eq!(entries.len(), 4);
            assert!(matches!(entries[0], ResponseEntry::Unknown));
            match find_first(&entries, EntryKind::Token) {
                Some(ResponseEntry::Token(t)) => assert_eq!(t, "a"),
                other => panic!("unexpected {:?}", other),
            }
            assert!(matches!(find_first(&entries, EntryKind::Id), Some(ResponseEntry::Id(5))));
            assert!(find_first(&entries, EntryKind::UserApiKey).is_none());
        }
        _ => panic!("Expected success"),
    }
}

#[test]
fn neither_envelope_is_a_deserialization_error() {
    assert!(matches!(
        process_response_content(r#"{"Something":[]}"#),
        Err(BunqyyError::ResponseDeserialization(_))
    ));
    assert!(matches!(
        process_response_content(r#"{"Error":[{"error_description":"only one"}]}"#),
        Err(BunqyyError::ResponseDeserialization(_))
    ));
    assert!(matches!(process_response_content("not json"), Err(BunqyyError::ResponseDeserialization(_))));
}

#[test]
fn decode_envelope_on_a_parsed_value() {
    let v: serde_json::Value = serde_json::from_str(r#"{"Response":[{"ServerPublicKey":{"server_public_key":"K"}}]}"#).unwrap();
    match decode_envelope(&v) {
        Some(BunqResponse::Success(s)) => match &s.response[0] {
            ResponseEntry::ServerPublicKey(k) => assert_eq!(k, "K"),
            other => panic!("unexpected {:?}", other),
        },
        _ => panic!("Expected success"),
    }
}
