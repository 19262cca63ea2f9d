use rustforce::response::ErrorResponse;
use sf_console::{
    classify, error_list_text, error_object_text, failure_reply, json_array_text, query_reply, reply_to_query,
    FieldError, QueryFailure, NOT_LOGGED_IN_MESSAGE,
};

fn strings(v: &[&str]) -> Vec<String> {
    v.iter().map(|s| s.to_string()).collect()
}

#[test]
fn query_success_with_one_record() {
    let mut record = serde_json::Map::new();
    record.insert("Id".to_string(), serde_json::Value::String("001".to_string()));
    record.insert("Name".to_string(), serde_json::Value::String("Acme \"Co\"".to_string()));
    let record = serde_json::Value::Object(record);
    let expected = serde_json::to_string(&vec![record.clone()]).unwrap();
    let r = reply_to_query(Ok(vec![record]));
    assert_eq!(r, Ok(expected.clone()));
    assert_eq!(expected, "[{\"Id\":\"001\",\"Name\":\"Acme \\\"Co\\\"\"}]");
}

#[test]
fn query_success_with_no_records() {
    assert_eq!(reply_to_query(Ok(vec![])), Ok("[]".to_string()));
}

#[test]
fn query_success_with_several_records() {
    let records = vec![serde_json::Value::from(1), serde_json::Value::Null, serde_json::Value::from("x")];
    let expected = serde_json::to_string(&records).unwrap();
    assert_eq!(reply_to_query(Ok(records)), Ok(expected));
}

#[test]
fn error_responses_keep_field_order() {
    let e = rustforce::Error::ErrorResponses(vec![ErrorResponse {
        message: "Bad field".to_string(),
        error_code: "INVALID_FIELD".to_string(),
        fields: Some(strings(&["Name", "Email"])),
    }]);
    let r = reply_to_query(Err(e));
    assert_eq!(
        r,
        Err("[{\"message\":\"Bad field\",\"error_code\":\"INVALID_FIELD\",\"fields\":[\"Name\",\"Email\"]}]".to_string())
    );
}

#[test]
fn error_responses_without_fields_give_empty_list() {
    let e = rustforce::Error::ErrorResponses(vec![
        ErrorResponse { message: "a".to_string(), error_code: "X".to_string(), fields: None },
        ErrorResponse { message: "b".to_string(), error_code: "Y".to_string(), fields: Some(vec![]) },
    ]);
    assert_eq!(
        reply_to_query(Err(e)),
        Err("[{\"message\":\"a\",\"error_code\":\"X\",\"fields\":[]},{\"message\":\"b\",\"error_code\":\"Y\",\"fields\":[]}]"
            .to_string())
    );
}

#[test]
fn error_object_escapes_strings() {
    let e = FieldError { message: "say \"hi\"\n".to_string(), error_code: "A\\B".to_string(), fields: None };
    assert_eq!(
        error_object_text(&e),
        "{\"message\":\"say \\\"hi\\\"\\n\",\"error_code\":\"A\\\\B\",\"fields\":[]}"
    );
}

#[test]
fn error_list_of_nothing_is_empty_array() {
    assert_eq!(error_list_text(&vec![]), "[]");
}

#[test]
fn json_array_joins_with_commas() {
    assert_eq!(json_array_text(&strings(&[])), "[]");
    assert_eq!(json_array_text(&strings(&["1"])), "[1]");
    assert_eq!(json_array_text(&strings(&["1", "{}", "\"a\""])), "[1,{},\"a\"]");
}

#[test]
fn not_logged_in_message() {
    assert_eq!(
        reply_to_query(Err(rustforce::Error::NotLoggedIn)),
        Err("You are not logged in to Salesforce. Please login and try again.".to_string())
    );
    assert_eq!(failure_reply(&QueryFailure::NotLoggedIn), NOT_LOGGED_IN_MESSAGE);
}

#[test]
fn http_error_message() {
    assert_eq!(
        reply_to_query(Err(rustforce::Error::HTTPError("timed out".to_string()))),
        Err("Failed to make an HTTP request to Salesforce: timed out".to_string())
    );
}

#[test]
fn deserialize_error_message() {
    assert_eq!(
        reply_to_query(Err(rustforce::Error::DeserializeError("expected value".to_string()))),
        Err("Failed to deserialize response from Salesforce: expected value".to_string())
    );
}

#[test]
fn describe_error_message() {
    let resp = ErrorResponse { message: "m".to_string(), error_code: "C".to_string(), fields: None };
    let expected = format!("Error completing describe in Salesforce: {:?}", resp);
    assert_eq!(
        expected,
        "Error completing describe in Salesforce: ErrorResponse { message: \"m\", error_code: \"C\", fields: None }"
    );
    assert_eq!(reply_to_query(Err(rustforce::Error::DescribeError(resp))), Err(expected));
}

#[test]
fn login_error_message() {
    let resp = ErrorResponse { message: "m".to_string(), error_code: "C".to_string(), fields: Some(strings(&["F"])) };
    let expected = format!("Error logging in to Salesforce: {:?}", resp);
    assert_eq!(reply_to_query(Err(rustforce::Error::LoginError(resp))), Err(expected));
}

#[test]
fn token_error_message() {
    assert_eq!(
        failure_reply(&QueryFailure::TokenError("T { error: \"e\" }".to_string())),
        "Invalid token received from Salesforce: T { error: \"e\" }"
    );
}

#[test]
fn each_failure_kind_has_its_own_shape() {
    let replies = vec![
        failure_reply(&QueryFailure::NotLoggedIn),
        failure_reply(&QueryFailure::TokenError("x".to_string())),
        failure_reply(&QueryFailure::HttpError("x".to_string())),
        failure_reply(&QueryFailure::DeserializeError("x".to_string())),
        failure_reply(&QueryFailure::ErrorResponses(vec![])),
        failure_reply(&QueryFailure::DescribeError("x".to_string())),
        failure_reply(&QueryFailure::LoginError("x".to_string())),
    ];
    for i in 0..replies.len() {
        for j in 0..replies.len() {
            if i != j {
                assert_ne!(replies[i], replies[j]);
            }
        }
        assert_eq!(replies[i].starts_with('['), i == 4);
    }
}

#[test]
fn classify_moves_texts_over() {
    match classify(&rustforce::Error::HTTPError("h".to_string())) {
        QueryFailure::HttpError(t) => assert_eq!(t, "h"),
        _ => panic!("wrong kind"),
    }
    match classify(&rustforce::Error::DescribeError(ErrorResponse {
        message: "m".to_string(),
        error_code: "C".to_string(),
        fields: None,
    })) {
        QueryFailure::DescribeError(t) => assert!(t.contains("ErrorResponse")),
        _ => panic!("wrong kind"),
    }
}

#[test]
fn query_reply_passes_records_text() {
    assert_eq!(query_reply(Ok("[{\"a\":1}]".to_string())), Ok("[{\"a\":1}]".to_string()));
    assert_eq!(
        query_reply(Err(QueryFailure::HttpError("x".to_string()))),
        Err("Failed to make an HTTP request to Salesforce: x".to_string())
    );
}

#[test]
fn control_characters_are_escaped() {
    let e = FieldError {
        message: "\u{1}\u{1f}\u{7f}é\t\r\u{8}\u{c}/".to_string(),
        error_code: String::new(),
        fields: Some(strings(&["a\"b"])),
    };
    assert_eq!(
        error_object_text(&e),
        "{\"message\":\"\\u0001\\u001f\u{7f}é\\t\\r\\b\\f/\",\"error_code\":\"\",\"fields\":[\"a\\\"b\"]}"
    );
}
