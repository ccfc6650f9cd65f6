use llm_client::error::{ClientError, Operation};
use llm_client::json::{parse_document, Json, Member};
use llm_client::models::{extract_models, interpret_models_response, models_from_response};

fn text(s: &str) -> Json {
    Json::Text(s.to_string())
}

fn object(members: Vec<(&str, Json)>) -> Json {
    Json::Object(
        members.into_iter().map(|(key, value)| Member { key: key.to_string(), value }).collect(),
    )
}

#[test]
fn data_entries_give_id_then_name() {
    let body = r#"{"data":[{"id":"a"},{"name":"b"},{"foo":"c"}]}"#;
    assert_eq!(interpret_models_response(200, body), Ok(vec!["a".to_string(), "b".to_string()]));
}

#[test]
fn bare_list_of_strings_is_taken_as_it_is() {
    assert_eq!(
        interpret_models_response(200, r#"["x","y"]"#),
        Ok(vec!["x".to_string(), "y".to_string()])
    );
}

#[test]
fn unknown_shape_gives_an_empty_list() {
    assert_eq!(interpret_models_response(200, r#"{"unexpected":true}"#), Ok(vec![]));
    assert_eq!(interpret_models_response(200, "[1,2,3]"), Ok(vec![]));
    assert_eq!(interpret_models_response(200, "null"), Ok(vec![]));
    assert_eq!(interpret_models_response(200, r#"{"data":"none"}"#), Ok(vec![]));
}

#[test]
fn id_wins_over_name_and_non_string_id_falls_back() {
    let body = r#"{"data":[{"id":"a","name":"n"},{"id":7,"name":"b"},{"id":null},"s"]}"#;
    assert_eq!(interpret_models_response(200, body), Ok(vec!["a".to_string(), "b".to_string()]));
}

#[test]
fn order_and_duplicates_are_kept() {
    assert_eq!(
        interpret_models_response(200, r#"["z","a","z",5,"m"]"#),
        Ok(vec!["z".to_string(), "a".to_string(), "z".to_string(), "m".to_string()])
    );
}

#[test]
fn data_list_wins_over_everything_else() {
    let doc = object(vec![
        ("object", text("list")),
        ("data", Json::Array(vec![object(vec![("id", text("m1"))]), Json::Number, text("m2")])),
    ]);
    assert_eq!(extract_models(&doc), vec!["m1".to_string()]);
}

#[test]
fn extract_models_from_values() {
    assert_eq!(extract_models(&Json::Array(vec![text("x"), Json::Bool(true), text("y")])), vec![
        "x".to_string(),
        "y".to_string()
    ]);
    assert_eq!(extract_models(&Json::Null), Vec::<String>::new());
    assert_eq!(extract_models(&text("x")), Vec::<String>::new());
}

#[test]
fn failed_listing_reports_status_and_body() {
    assert_eq!(
        interpret_models_response(503, "down"),
        Err(ClientError::ApiFailure { operation: Operation::ModelListing, status: 503, message: "down".to_string(), service_message: false })
    );
    assert_eq!(
        models_from_response(199, "early", Some(Json::Array(vec![text("x")]))),
        Err(ClientError::ApiFailure { operation: Operation::ModelListing, status: 199, message: "early".to_string(), service_message: false })
    );
    assert_eq!(
        models_from_response(300, "moved", None),
        Err(ClientError::ApiFailure { operation: Operation::ModelListing, status: 300, message: "moved".to_string(), service_message: false })
    );
}

#[test]
fn unparseable_listing_is_a_shape_mismatch() {
    assert_eq!(interpret_models_response(200, "<html>"), Err(ClientError::ResponseShapeMismatch { operation: Operation::ModelListing }));
    assert_eq!(models_from_response(299, "", None), Err(ClientError::ResponseShapeMismatch { operation: Operation::ModelListing }));
}

#[test]
fn documents_are_parsed_into_values() {
    assert_eq!(
        parse_document(r#"{"a":[1,true,null,"s",{}]}"#),
        Some(object(vec![(
            "a",
            Json::Array(vec![
                Json::Number,
                Json::Bool(true),
                Json::Null,
                text("s"),
                Json::Object(vec![])
            ])
        )]))
    );
    assert_eq!(parse_document("\"only\""), Some(text("only")));
    assert_eq!(parse_document("{"), None);
    assert_eq!(parse_document(""), None);
}

#[test]
fn lookups_read_objects_strings_and_arrays() {
    let doc = object(vec![("k", text("v")), ("l", Json::Array(vec![Json::Null]))]);
    assert_eq!(doc.get("k"), Some(&text("v")));
    assert_eq!(doc.get("missing"), None);
    assert_eq!(doc.get_str("k"), Some("v"));
    assert_eq!(doc.get_str("l"), None);
    assert_eq!(doc.get("l").unwrap().as_array(), Some(&vec![Json::Null]));
    assert_eq!(text("v").get("k"), None);
    assert_eq!(text("v").as_str(), Some("v"));
    assert_eq!(Json::Null.as_str(), None);
    assert_eq!(Json::Null.as_array(), None);
}
