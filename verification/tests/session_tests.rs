use gemini_client::cli::prompt::add_usage;
use gemini_client::cli::usage::{chat_receive, chat_send, estimated_tokens, price_tier, ChatReply, PriceTier};
use gemini_client::client::endpoints::{upload_failed, upload_start_reply};
use gemini_client::text::contains_str;
use gemini_client::{Content, GeminiError, UsageMetadata};

fn text_of(c: &Content) -> (Option<String>, Option<String>) {
    (c.role.clone(), c.parts[0].text.clone())
}

#[test]
fn chat_history_through_turns() {
    let mut history: Vec<Content> = Vec::new();
    chat_send(&mut history, "Hello");
    assert_eq!(history.len(), 1);
    assert_eq!(text_of(&history[0]), (Some("user".to_string()), Some("Hello".to_string())));
    chat_receive(&mut history, ChatReply::Answer("Hi there".to_string()));
    assert_eq!(history.len(), 2);
    assert_eq!(text_of(&history[1]), (Some("model".to_string()), Some("Hi there".to_string())));
    chat_send(&mut history, "And then?");
    chat_receive(&mut history, ChatReply::NoText);
    assert_eq!(history.len(), 3);
    chat_send(&mut history, "Once more");
    chat_receive(&mut history, ChatReply::Failed);
    assert_eq!(history.len(), 3);
    assert_eq!(text_of(&history[2]), (Some("user".to_string()), Some("And then?".to_string())));
    let mut empty: Vec<Content> = Vec::new();
    chat_receive(&mut empty, ChatReply::Failed);
    assert!(empty.is_empty());
}

#[test]
fn price_tiers_by_model_name() {
    assert_eq!(price_tier("gemini-3-pro-preview"), PriceTier::Gemini3Pro);
    assert_eq!(price_tier("gemini-2.5-pro"), PriceTier::Gemini25Pro);
    assert_eq!(price_tier("models/gemini-2.5-flash-lite-preview"), PriceTier::Gemini25FlashLite);
    assert_eq!(price_tier("gemini-2.5-flash"), PriceTier::Gemini25Flash);
    assert_eq!(price_tier("gemini-2.0-flash-lite"), PriceTier::Gemini20FlashLite);
    assert_eq!(price_tier("gemini-2.0-flash-001"), PriceTier::Gemini20Flash);
    assert_eq!(price_tier("gemini-embedding-001"), PriceTier::Embedding);
    assert_eq!(price_tier("something-else"), PriceTier::Gemini25Flash);
    assert_eq!(price_tier(""), PriceTier::Gemini25Flash);
    assert_eq!(PriceTier::Gemini3Pro.prices_per_million(), (2000, 12000));
    assert_eq!(PriceTier::Gemini20FlashLite.prices_per_million(), (75, 300));
    assert_eq!(PriceTier::Embedding.prices_per_million(), (150, 0));
}

#[test]
fn substring_search() {
    assert!(contains_str("gemini-2.5-flash", "2.5"));
    assert!(contains_str("abc", ""));
    assert!(contains_str("abc", "abc"));
    assert!(!contains_str("ab", "abc"));
    assert!(!contains_str("aab", "abb"));
    assert!(contains_str("xxaab", "aab"));
}

#[test]
fn estimated_token_counts() {
    assert_eq!(estimated_tokens(""), 1);
    assert_eq!(estimated_tokens("abc"), 1);
    assert_eq!(estimated_tokens("abcdefgh"), 2);
    assert_eq!(estimated_tokens("semantic search query"), 5);
    assert_eq!(estimated_tokens("éééé"), 2);
}

#[test]
fn usage_totals_add_up() {
    let mut totals = (10u32, 20u32, 0u32);
    let usage = UsageMetadata {
        prompt_token_count: 5,
        candidates_token_count: 7,
        total_token_count: 12,
        thoughts_token_count: Some(3),
        cached_content_token_count: None,
    };
    add_usage(&mut totals, &usage);
    assert_eq!(totals, (15, 27, 3));
    let no_thinking = UsageMetadata { thoughts_token_count: None, ..usage };
    add_usage(&mut totals, &no_thinking);
    assert_eq!(totals, (20, 34, 3));
}

fn api(e: GeminiError) -> (u16, String, bool) {
    match e {
        GeminiError::ApiError { status, message, details } => (status, message, details.is_none()),
        other => panic!("not an API error: {:?}", other),
    }
}

#[test]
fn upload_replies() {
    assert_eq!(upload_start_reply(true, 200, "", Some("https://up/1")).unwrap(), "https://up/1");
    assert_eq!(
        api(upload_start_reply(false, 403, "denied", Some("https://up/1")).unwrap_err()),
        (403, "Failed to initiate upload: denied".to_string(), true)
    );
    assert_eq!(
        api(upload_start_reply(true, 200, "", None).unwrap_err()),
        (500, "Missing upload URL in response".to_string(), true)
    );
    assert_eq!(api(upload_failed(400, "bad")), (400, "Failed to upload file: bad".to_string(), true));
}
