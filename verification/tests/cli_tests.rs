use gemini_client::cli::i18n::{I18n, Language};
use gemini_client::cli::prompt::{
    ends_input, merge_input, prompt_from_lines, get_version_count, version_file, version_key, version_outcome, VersionOutcome,
};
use gemini_client::{BatchError, Candidate, Content, GenerateContentResponse, InlinedResponse};
use gemini_client::cli::usage::{chat_action, model_argument, parse_command, text_argument, truncate_str, ChatAction, Command};
use gemini_client::GeminiError;

fn strings(v: &[&str]) -> Vec<String> {
    v.iter().map(|s| s.to_string()).collect()
}

#[test]
fn version_count_defaults_and_clamps() {
    assert_eq!(get_version_count(None), 3);
    assert_eq!(get_version_count(Some("5")), 5);
    assert_eq!(get_version_count(Some("+7")), 7);
    assert_eq!(get_version_count(Some("0")), 1);
    assert_eq!(get_version_count(Some("25")), 10);
    assert_eq!(get_version_count(Some("abc")), 3);
    assert_eq!(get_version_count(Some("")), 3);
    assert_eq!(get_version_count(Some("-2")), 3);
    assert_eq!(get_version_count(Some("99999999999999999999999")), 3);
}

#[test]
fn draft_prompt_stops_at_first_empty_line() {
    assert_eq!(prompt_from_lines(&strings(&["write a", "rust function", "", "ignored"])), "write a\nrust function");
    assert_eq!(prompt_from_lines(&strings(&["only"])), "only");
    assert_eq!(prompt_from_lines(&strings(&["", "x"])), "");
    assert_eq!(prompt_from_lines(&strings(&[" ", "y"])), " \ny");
    assert!(ends_input(""));
    assert!(!ends_input(" "));
}

#[test]
fn merge_input_numbers_versions() {
    assert_eq!(
        merge_input(&strings(&["A", "B"])),
        "Please synthesize these improved prompts into one optimized Master Prompt:\n\n## Version 1\nA\n\n## Version 2\nB\n\n"
    );
    assert_eq!(version_key(3), "version_3");
    assert_eq!(version_file(12), "improved_prompt_12.md");
}

#[test]
fn language_detection() {
    assert_eq!(Language::from_vars(Some("zh_CN.UTF-8"), None, None), Language::Chinese);
    assert_eq!(Language::from_vars(Some("en_US.UTF-8"), Some("zh"), None), Language::Chinese);
    assert_eq!(Language::from_vars(None, None, Some("zh_TW")), Language::Chinese);
    assert_eq!(Language::from_vars(Some("en_US.UTF-8"), None, Some("C")), Language::English);
    assert_eq!(Language::from_vars(None, None, None), Language::English);
    assert_eq!(Language::from_vars(Some("ZH"), None, None), Language::English);
}

#[test]
fn messages_in_both_languages() {
    let en = I18n::new(Language::English);
    let zh = I18n::new(Language::Chinese);
    assert_eq!(en.header_title(), "🚀 Gemini Prompt Improver");
    assert_eq!(zh.header_title(), "🚀 Gemini 提示词优化器");
    assert_eq!(en.improving_prompt_with_count(3), "⏳ Improving your prompt with Gemini 3 Pro (Batch API - 3 versions)...");
    assert_eq!(zh.improving_prompt_with_count(4), "⏳ 正在使用 Gemini 3 Pro 优化你的提示词（Batch API - 4个版本）...");
    assert_eq!(en.version_saved(2, "improved_prompt_2.md"), "💾 Version 2 saved to: improved_prompt_2.md");
    assert_eq!(zh.version_saved(2, "f.md"), "💾 版本 2 已保存到: f.md");
    assert_eq!(en.version_label(10), "Version 10");
    assert_eq!(zh.version_label(1), "版本 1");
    assert_eq!(en.using_proxy("http://p"), "🌐 Using proxy: http://p");
    assert_eq!(en.batch_created("batches/1"), "✅ Batch job created: batches/1");
    assert_eq!(en.creating_batch_with_count(3), "📤 Creating batch job with 3 requests...");
    assert_eq!(zh.generated_versions_with_count(3), "📄 已生成 3 个优化版本：");
    assert_eq!(en.merging_prompts_with_count(2), "🔀 Merging 2 versions into a Master Prompt...");
    assert_eq!(en.master_saved(), "✅ Master Prompt saved to: master_prompt.md");
    assert_eq!(zh.total_tokens(), "   总计:");
    assert_eq!(en.enter_prompt(), "📝 Enter your draft prompt (press Enter twice to submit):");
}

#[test]
fn example_session_messages() {
    let en = I18n::new(Language::English);
    let zh = I18n::new(Language::Chinese);
    assert_eq!(en.batch_created("batchJobs/abc123"), "✅ Batch job created: batchJobs/abc123");
    assert_eq!(zh.batch_created("batchJobs/abc123"), "✅ 批处理任务已创建: batchJobs/abc123");
    assert_eq!(en.waiting_batch(), "⏳ Waiting for batch job to complete...");
    assert_eq!(zh.waiting_batch(), "⏳ 等待批处理任务完成...");
    assert_eq!(en.batch_completed(), "📥 Batch job completed!");
    assert_eq!(zh.batch_completed(), "📥 批处理任务已完成！");
    assert_eq!(en.version_saved(1, "improved_prompt_1.md"), "💾 Version 1 saved to: improved_prompt_1.md");
    assert_eq!(zh.version_saved(1, "improved_prompt_1.md"), "💾 版本 1 已保存到: improved_prompt_1.md");
    assert_eq!(zh.merging_prompts_with_count(3), "🔀 正在将 3 个版本合并为大师级提示词...");
    assert_eq!(zh.master_saved(), "✅ 大师级提示词已保存到: master_prompt.md");
    assert_eq!(en.final_output(), "🏆 Final Output:");
    assert_eq!(zh.final_output(), "🏆 最终输出:");
    assert_eq!(zh.merged_optimized(), "✨ 合并优化版");
    assert_eq!(en.token_usage_header(), "📊 Total Token Usage (3 batch + 1 merge request):");
    assert_eq!(zh.token_usage_header(), "📊 总 Token 使用量（3 个批处理 + 1 个合并请求）:");
    assert_eq!(en.input_tokens(), "   Input:");
    assert_eq!(zh.input_tokens(), "   输入:");
    assert_eq!(zh.output_tokens(), "   输出:");
    assert_eq!(en.cost_header(), "💰 Estimated Cost (Batch + Real-time API):");
    assert_eq!(zh.cost_header(), "💰 预估成本（Batch + 实时 API）:");
    assert_eq!(zh.enter_prompt(), "📝 请输入你的草稿提示词（按两次回车提交）：");
    assert_eq!(zh.batch_api_note(), "   💡 使用 Batch API：比实时请求便宜 50%！");
}

#[test]
fn commands_and_arguments() {
    let args = strings(&["gemini-cli", "gen", "What", "is", "AI?"]);
    assert_eq!(parse_command(&args), Command::Generate);
    assert_eq!(text_argument(&args, "default"), "What is AI?");
    assert_eq!(text_argument(&strings(&["gemini-cli", "count"]), "Hello, world!"), "");
    assert_eq!(text_argument(&strings(&["gemini-cli"]), "Hello, world!"), "Hello, world!");
    assert_eq!(parse_command(&strings(&["gemini-cli"])), Command::Help);
    assert_eq!(parse_command(&strings(&["gemini-cli", "think-low"])), Command::ThinkLow);
    assert_eq!(parse_command(&strings(&["gemini-cli", "unknown"])), Command::Help);
    assert_eq!(model_argument(&strings(&["gemini-cli", "model"])), "gemini-2.5-flash");
    assert_eq!(model_argument(&strings(&["gemini-cli", "model", "gemini-2.5-pro"])), "gemini-2.5-pro");
}

#[test]
fn chat_decisions() {
    assert_eq!(chat_action("  QUIT \n"), ChatAction::Quit);
    assert_eq!(chat_action("Exit"), ChatAction::Quit);
    assert_eq!(chat_action("   "), ChatAction::Skip);
    assert_eq!(chat_action("  hello there \n"), ChatAction::Send("hello there".to_string()));
    assert_eq!(chat_action("quitting"), ChatAction::Send("quitting".to_string()));
}

#[test]
fn truncate_pads_or_cuts() {
    assert_eq!(truncate_str("abc", 6), "abc   ");
    assert_eq!(truncate_str("abcdef", 6), "abcdef");
    assert_eq!(truncate_str("abcdefgh", 6), "abc...");
    assert_eq!(truncate_str("gemini-2.5-flash", 40).len(), 40);
    assert_eq!(truncate_str("ééé", 6), "ééé   ");
    assert_eq!(truncate_str("éééé", 7), "éé...");
}

#[test]
fn error_messages() {
    assert_eq!(GeminiError::MissingApiKey.to_message(), "Missing API key: set GEMINI_API_KEY environment variable");
    let e = GeminiError::ApiError { status: 404, message: "Not found".to_string(), details: None };
    assert_eq!(e.to_message(), "API error (404): Not found");
    assert_eq!(GeminiError::StreamError("No data in chunk".to_string()).to_message(), "Stream error: No data in chunk");
    assert_eq!(GeminiError::InvalidConfig("x".to_string()).to_message(), "Invalid configuration: x");
    assert_eq!(GeminiError::HttpError("timeout".to_string()).to_message(), "HTTP request failed: timeout");
    assert_eq!(GeminiError::JsonError("eof".to_string()).to_message(), "JSON error: eof");
    assert_eq!(GeminiError::FileError("gone".to_string()).to_message(), "File operation error: gone");
}

fn answer(text: Option<&str>) -> GenerateContentResponse {
    GenerateContentResponse {
        candidates: vec![Candidate {
            content: text.map(Content::model),
            finish_reason: None,
            safety_ratings: vec![],
            index: 0,
            grounding_metadata: None,
        }],
        usage_metadata: None,
        model_version: None,
    }
}

#[test]
fn batch_response_outcomes() {
    let failed = InlinedResponse { response: None, error: Some(BatchError { code: None, message: None }), key: None };
    assert_eq!(version_outcome(1, &failed), VersionOutcome::Failed { key: "version_2".to_string() });
    let keyed = InlinedResponse { response: None, error: Some(BatchError { code: Some(1), message: None }), key: Some("k".to_string()) };
    assert_eq!(version_outcome(0, &keyed), VersionOutcome::Failed { key: "k".to_string() });
    let ok = InlinedResponse { response: Some(answer(Some("better prompt"))), error: None, key: None };
    assert_eq!(version_outcome(2, &ok), VersionOutcome::Saved { version: 3, text: "better prompt".to_string() });
    let empty = InlinedResponse { response: Some(answer(None)), error: None, key: None };
    assert_eq!(version_outcome(0, &empty), VersionOutcome::Empty);
    let none = InlinedResponse { response: None, error: None, key: None };
    assert_eq!(version_outcome(0, &none), VersionOutcome::Empty);
}
