use gemini_client::{
    FunctionCallingConfig, FunctionCallingMode, GenerationConfig, ImageConfig, JsonValue, SpeakerVoiceConfig,
    SpeechConfig, ThinkingConfig, ThinkingLevel, ToolConfig, ToolSettings, VoiceConfig,
};

#[test]
fn thinking_config_builders() {
    let t = ThinkingConfig::new().level(ThinkingLevel::Low).budget(1024).include_thoughts();
    assert_eq!(t.thinking_level, Some(ThinkingLevel::Low));
    assert_eq!(t.thinking_budget, Some(1024));
    assert_eq!(t.include_thoughts, Some(true));
    assert_eq!(ThinkingConfig::new().dynamic().thinking_budget, ThinkingConfig::new().budget(-1).thinking_budget);
    assert_eq!(ThinkingConfig::new().exclude_thoughts().include_thoughts, Some(false));
    let d = ThinkingConfig::default();
    assert!(d.thinking_level.is_none() && d.thinking_budget.is_none() && d.include_thoughts.is_none());
}

#[test]
fn disable_thinking_is_budget_zero() {
    let a = GenerationConfig::new().disable_thinking();
    let b = GenerationConfig::new().thinking_budget(0);
    assert_eq!(a.thinking_config.unwrap().thinking_budget, Some(0));
    assert_eq!(b.thinking_config.unwrap().thinking_budget, Some(0));
    let c = GenerationConfig::new().dynamic_thinking();
    assert_eq!(c.thinking_config.unwrap().thinking_budget, Some(-1));
}

#[test]
fn thinking_settings_keep_each_other() {
    let g = GenerationConfig::new()
        .thinking_level(ThinkingLevel::High)
        .thinking_budget(2048)
        .include_thoughts()
        .max_output_tokens(100);
    let t = g.thinking_config.unwrap();
    assert_eq!(t.thinking_level, Some(ThinkingLevel::High));
    assert_eq!(t.thinking_budget, Some(2048));
    assert_eq!(t.include_thoughts, Some(true));
    assert_eq!(g.max_output_tokens, Some(100));
}

#[test]
fn sampling_parameters_are_number_text() {
    let g = GenerationConfig::new().temperature("0.7").top_p("0.95").top_k(40);
    assert_eq!(g.temperature.as_deref(), Some("0.7"));
    assert_eq!(g.top_p.as_deref(), Some("0.95"));
    assert_eq!(g.top_k, Some(40));
}

#[test]
fn structured_output_sets_json_and_schema() {
    let g = GenerationConfig::new().structured_output(gemini_client::json_schema::string());
    assert_eq!(g.response_mime_type.as_deref(), Some("application/json"));
    assert!(matches!(g.response_schema, Some(JsonValue::Object(_))));
    let j = GenerationConfig::new().json_output();
    assert_eq!(j.response_mime_type.as_deref(), Some("application/json"));
    assert!(j.response_schema.is_none());
}

#[test]
fn modalities_and_speech() {
    let g = GenerationConfig::new().with_image_output();
    assert_eq!(g.response_modalities.unwrap(), vec!["TEXT".to_string(), "IMAGE".to_string()]);
    assert_eq!(GenerationConfig::new().text_only().response_modalities.unwrap(), vec!["TEXT".to_string()]);
    let a = GenerationConfig::new().with_audio_output("Kore");
    assert_eq!(a.response_modalities.unwrap(), vec!["AUDIO".to_string()]);
    let voice = a.speech_config.unwrap().voice_config.unwrap().prebuilt_voice_config.unwrap();
    assert_eq!(voice.voice_name, "Kore");
    let t = GenerationConfig::new().with_text_and_audio("Puck");
    assert_eq!(t.response_modalities.unwrap(), vec!["TEXT".to_string(), "AUDIO".to_string()]);
    let r = GenerationConfig::new().response_modalities(vec!["TEXT", "IMAGE"]);
    assert_eq!(r.response_modalities.unwrap(), vec!["TEXT".to_string(), "IMAGE".to_string()]);
}

#[test]
fn image_config_presets() {
    assert_eq!(ImageConfig::widescreen().aspect_ratio.as_deref(), Some("16:9"));
    assert_eq!(ImageConfig::square().aspect_ratio.as_deref(), Some("1:1"));
    assert_eq!(ImageConfig::portrait().aspect_ratio.as_deref(), Some("9:16"));
    assert_eq!(ImageConfig::ultrawide().aspect_ratio.as_deref(), Some("21:9"));
    assert_eq!(ImageConfig::resolution_1k().image_size.as_deref(), Some("1K"));
    assert_eq!(ImageConfig::resolution_2k().image_size.as_deref(), Some("2K"));
    assert_eq!(ImageConfig::resolution_4k().image_size.as_deref(), Some("4K"));
    let w = ImageConfig::widescreen_2k();
    assert_eq!((w.aspect_ratio.as_deref(), w.image_size.as_deref()), (Some("16:9"), Some("2K")));
    let s = ImageConfig::square_2k();
    assert_eq!((s.aspect_ratio.as_deref(), s.image_size.as_deref()), (Some("1:1"), Some("2K")));
    assert!(ImageConfig::widescreen().image_size.is_none());
}

#[test]
fn speech_configs() {
    let s = SpeechConfig::single_speaker("Zephyr");
    assert!(s.multi_speaker_voice_config.is_none());
    let m = SpeechConfig::multi_speaker(vec![SpeakerVoiceConfig::new("Joe", "Kore"), SpeakerVoiceConfig::new("Jane", "Puck")]);
    assert!(m.voice_config.is_none());
    let speakers = m.multi_speaker_voice_config.unwrap().speaker_voice_configs;
    assert_eq!(speakers.len(), 2);
    assert_eq!(speakers[1].speaker, "Jane");
    assert_eq!(VoiceConfig::prebuilt("Leda").prebuilt_voice_config.unwrap().voice_name, "Leda");
}

#[test]
fn function_calling_modes() {
    assert_eq!(FunctionCallingConfig::auto().mode, Some(FunctionCallingMode::Auto));
    assert_eq!(FunctionCallingConfig::any().mode, Some(FunctionCallingMode::Any));
    assert_eq!(FunctionCallingConfig::none().mode, Some(FunctionCallingMode::NoCalls));
    assert_eq!(FunctionCallingConfig::validated().mode, Some(FunctionCallingMode::Validated));
    let a = FunctionCallingConfig::any_of(vec!["f", "g"]);
    assert_eq!(a.mode, Some(FunctionCallingMode::Any));
    assert_eq!(a.allowed_function_names.unwrap(), vec!["f".to_string(), "g".to_string()]);
    let v = FunctionCallingConfig::validated_of(vec!["h"]);
    assert_eq!(v.mode, Some(FunctionCallingMode::Validated));
    assert_eq!(v.allowed_function_names.unwrap(), vec!["h".to_string()]);
    assert!(FunctionCallingConfig::new().mode.is_none());
}

#[test]
fn tool_settings_shortcuts() {
    let f = ToolSettings::force_function_call().function_calling_config.unwrap();
    let g = ToolSettings::with_function_calling(FunctionCallingConfig::any()).function_calling_config.unwrap();
    assert_eq!(f.mode, g.mode);
    assert!(f.allowed_function_names.is_none());
    let d = ToolSettings::disable_function_call().function_calling_config.unwrap();
    assert_eq!(d.mode, Some(FunctionCallingMode::NoCalls));
    let o = ToolSettings::force_function_call_of(vec!["a"]).function_calling_config.unwrap();
    assert_eq!(o.allowed_function_names.unwrap(), vec!["a".to_string()]);
    assert!(ToolSettings::new().function_calling_config.is_none());
}

#[test]
fn builtin_tools() {
    assert!(ToolConfig::google_search().google_search.is_some());
    assert!(ToolConfig::url_context().url_context.is_some());
    assert!(ToolConfig::code_execution().code_execution.is_some());
    let f = ToolConfig::functions(vec![]);
    assert_eq!(f.function_declarations.unwrap().len(), 0);
}
