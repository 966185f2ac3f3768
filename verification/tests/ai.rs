use engine_orchestrator::ai::{
    json_candidates, json_system_prompt, parse_failure_message, preferred_provider,
    try_parse_failure_message, with_json_instruction, AIConfig, Message, ProviderType, Role,
};

#[test]
fn test_message_creation() {
    let user_msg = Message::user("Hello");
    assert_eq!(user_msg.role, Role::User);
    assert_eq!(user_msg.content, "Hello");

    let assistant_msg = Message::assistant("Hi there");
    assert_eq!(assistant_msg.role, Role::Assistant);
}

#[test]
fn test_default_config() {
    let config = AIConfig::default();
    assert_eq!(config.provider, ProviderType::Anthropic);
    assert_eq!(config.max_tokens, 4096);
    assert_eq!(f32::from_bits(config.temperature_bits), 0.0);
}

#[test]
fn system_message_has_the_system_role() {
    let message = Message::system("Be brief");
    assert_eq!(message.role, Role::System);
    assert_eq!(message.content, "Be brief");
    let copy = message.clone();
    assert_eq!(copy.role, Role::System);
    assert_eq!(copy.content, "Be brief");
}

#[test]
fn anthropic_is_preferred_before_gemini_before_groq() {
    assert_eq!(preferred_provider(true, true, true), Some(ProviderType::Anthropic));
    assert_eq!(preferred_provider(true, false, false), Some(ProviderType::Anthropic));
    assert_eq!(preferred_provider(false, true, true), Some(ProviderType::Gemini));
    assert_eq!(preferred_provider(false, false, true), Some(ProviderType::Groq));
    assert_eq!(preferred_provider(false, false, false), None);
}

#[test]
fn config_from_keys_takes_the_preferred_provider() {
    let config = AIConfig::from_keys(None, Some("g".to_string()), Some("q".to_string())).unwrap();
    assert_eq!(config.provider, ProviderType::Gemini);
    assert_eq!(config.anthropic_key, None);
    assert_eq!(config.gemini_key, Some("g".to_string()));
    assert_eq!(config.groq_key, Some("q".to_string()));
    assert_eq!(config.model, None);
    assert_eq!(config.max_tokens, 4096);
}

#[test]
fn config_from_no_keys_fails() {
    assert_eq!(
        AIConfig::from_keys(None, None, None).unwrap_err(),
        "No AI API key found in environment"
    );
}

#[test]
fn provider_config_needs_an_anthropic_key() {
    let mut config = AIConfig::default();
    assert_eq!(config.provider_config("fallback").unwrap_err(), "Anthropic API key not configured");

    config.anthropic_key = Some("sk-ant-1".to_string());
    config.max_tokens = 100;
    config.temperature_bits = 0.5f32.to_bits();
    let settings = config.provider_config("fallback").unwrap();
    assert_eq!(settings.api_key, Some("sk-ant-1".to_string()));
    assert_eq!(settings.model, "fallback");
    assert_eq!(settings.max_tokens, 100);
    assert_eq!(f32::from_bits(settings.temperature_bits), 0.5);

    config.model = Some("other-model".to_string());
    assert_eq!(config.provider_config("fallback").unwrap().model, "other-model");
}

#[test]
fn other_providers_are_not_implemented() {
    let mut config = AIConfig::default();
    config.gemini_key = Some("g".to_string());
    config.provider = ProviderType::Gemini;
    assert_eq!(config.provider_config("m").unwrap_err(), "Gemini provider not yet implemented");
    config.provider = ProviderType::Groq;
    assert_eq!(config.provider_config("m").unwrap_err(), "Groq provider not yet implemented");
}

#[test]
fn json_instruction_is_appended_to_the_system_prompt() {
    assert_eq!(
        json_system_prompt(),
        "You are a helpful assistant. Respond ONLY with valid JSON. Do not include any text before or after the JSON object. Do not use markdown code blocks."
    );
    assert_eq!(
        with_json_instruction("You are an analyst."),
        "You are an analyst.\n\nIMPORTANT: Respond ONLY with valid JSON. Do not include any text before or after the JSON object. Do not use markdown code blocks."
    );
}

#[test]
fn candidates_come_from_fenced_block_then_braces_then_brackets() {
    let content = "Here you go:\n```json\n  {\"a\": [1, 2]}  \n```\nDone.";
    assert_eq!(
        json_candidates(content).unwrap(),
        vec!["{\"a\": [1, 2]}".to_string(), "{\"a\": [1, 2]}".to_string(), "[1, 2]".to_string()]
    );
}

#[test]
fn candidates_take_the_widest_stretch_in_braces() {
    let content = "first {\"a\": 1} then {\"b\": 2} end";
    assert_eq!(
        json_candidates(content).unwrap(),
        vec!["{\"a\": 1} then {\"b\": 2}".to_string()]
    );
}

#[test]
fn prose_without_json_has_no_candidates() {
    assert_eq!(json_candidates("no json here").unwrap(), Vec::<String>::new());
    assert_eq!(json_candidates("").unwrap(), Vec::<String>::new());
}

#[test]
fn fenced_block_without_language_tag_is_found() {
    let content = "```\n[1]\n```";
    assert_eq!(json_candidates(content).unwrap(), vec!["[1]".to_string(), "[1]".to_string()]);
}

#[test]
fn parse_failure_quotes_the_first_five_hundred_bytes() {
    assert_eq!(
        parse_failure_message("oops"),
        "Failed to parse JSON from response. Content: oops"
    );
    let long = "x".repeat(700);
    let message = parse_failure_message(&long);
    assert_eq!(
        message,
        format!("Failed to parse JSON from response. Content: {}", "x".repeat(500))
    );
}

#[test]
fn parse_failure_is_not_built_when_the_cut_falls_inside_a_character() {
    let mut text = "x".repeat(499);
    text.push('é');
    text.push_str("tail");
    assert_eq!(try_parse_failure_message(&text), None);
    let mut whole = "x".repeat(498);
    whole.push('é');
    whole.push_str("tail");
    assert_eq!(
        try_parse_failure_message(&whole),
        Some(format!("Failed to parse JSON from response. Content: {}é", "x".repeat(498)))
    );
}
