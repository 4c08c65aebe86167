use gemini_client::models::rate_limits::{tier_1, RateLimit};
use gemini_client::models::{self, ModelCapabilities, TokenLimits};
use gemini_client::{default_models, thinking_budget, ThinkingConfig};

#[test]
fn default_models_are_the_named_models() {
    assert_eq!(default_models::GENERAL, models::gemini_2_5_flash::STABLE);
    assert_eq!(default_models::REASONING, models::gemini_2_5_pro::STABLE);
    assert_eq!(default_models::FAST, models::gemini_2_5_flash_lite::STABLE);
    assert_eq!(default_models::BEST, "gemini-3-pro-preview");
    assert_eq!(default_models::VIDEO_GEN, "veo-3.1-generate-preview");
}

#[test]
fn capabilities() {
    let f = ModelCapabilities::gemini_2_5_flash();
    assert!(f.thinking && f.caching && !f.image_generation && !f.live_api);
    let p = ModelCapabilities::gemini_2_5_pro();
    assert!(p.function_calling && p.google_maps_grounding);
    let g = ModelCapabilities::gemini_3_pro();
    assert!(!g.google_maps_grounding && g.url_context);
}

#[test]
fn token_limits() {
    let s = TokenLimits::standard();
    assert_eq!((s.input, s.output), (1_048_576, 65_536));
    let l = TokenLimits::live();
    assert_eq!((l.input, l.output), (131_072, 8_192));
}

#[test]
fn rate_limits() {
    let r = RateLimit::new(1, 2, 3, 4);
    assert_eq!((r.rpm, r.tpm, r.rpd, r.batch_tokens), (1, 2, 3, 4));
    let g = tier_1::gemini_3_pro();
    assert_eq!(g.rpm, 50);
    assert_eq!(tier_1::gemini_2_5_flash_lite().rpd, 0);
}

#[test]
fn thinking_budget_values() {
    assert_eq!(ThinkingConfig::new().budget(thinking_budget::DYNAMIC).thinking_budget, Some(-1));
    assert_eq!(thinking_budget::OFF, 0);
    assert_eq!(thinking_budget::pro_2_5::MIN, 128);
}
