use llm_client::provider::{
    chat_completions_url, endpoint_url, models_url, normalize_base_url, transcriptions_url,
};

#[test]
fn trailing_slash_does_not_change_the_chat_url() {
    assert_eq!(
        chat_completions_url("https://api.example.com/"),
        "https://api.example.com/chat/completions"
    );
    assert_eq!(
        chat_completions_url("https://api.example.com"),
        "https://api.example.com/chat/completions"
    );
}

#[test]
fn every_trailing_slash_is_stripped() {
    assert_eq!(normalize_base_url("https://api.example.com///"), "https://api.example.com");
    assert_eq!(normalize_base_url("https://a/b/"), "https://a/b");
    assert_eq!(normalize_base_url("///"), "");
    assert_eq!(normalize_base_url(""), "");
    assert_eq!(normalize_base_url("h\u{e9}/"), "h\u{e9}");
}

#[test]
fn normalizing_twice_changes_nothing() {
    let once = normalize_base_url("https://api.example.com//");
    assert_eq!(normalize_base_url(&once), once);
}

#[test]
fn each_operation_has_its_path() {
    assert_eq!(models_url("http://localhost:11434/v1/"), "http://localhost:11434/v1/models");
    assert_eq!(
        transcriptions_url("https://api.openai.com/v1"),
        "https://api.openai.com/v1/audio/transcriptions"
    );
    assert_eq!(endpoint_url("x//", "/y"), "x/y");
}
