use engine_orchestrator::settings::{
    default_theme, mask_api_key, try_mask_api_key, AppSettings, ClaudeCodeStatus, ProbeOutcome,
    SettingsResponse,
};

fn stored() -> AppSettings {
    AppSettings {
        anthropic_api_key: Some("sk-ant-abcdefgh1234".to_string()),
        use_claude_code: false,
        mock_mode: false,
        default_model: "model-a".to_string(),
        theme: "dark".to_string(),
    }
}

#[test]
fn default_settings_are_empty() {
    let settings = AppSettings::default();
    assert_eq!(settings.anthropic_api_key, None);
    assert!(!settings.use_claude_code);
    assert!(!settings.mock_mode);
    assert_eq!(settings.default_model, "");
    assert_eq!(settings.theme, "");
    assert_eq!(default_theme(), "dark");
}

#[test]
fn long_key_shows_its_ends() {
    assert_eq!(mask_api_key("sk-ant-abcdefgh1234"), "sk-a...1234");
    assert_eq!(mask_api_key("123456789"), "1234...6789");
}

#[test]
fn short_key_is_four_stars() {
    assert_eq!(mask_api_key("12345678"), "****");
    assert_eq!(mask_api_key("abc"), "****");
    assert_eq!(mask_api_key(""), "****");
}

#[test]
fn key_is_not_masked_where_a_cut_falls_inside_a_character() {
    assert_eq!(try_mask_api_key("abcé-efghijk"), None);
    assert_eq!(try_mask_api_key("abcdefgé456"), None);
    assert_eq!(try_mask_api_key("abcdefghé4"), Some("abcd...hé4".to_string()));
    assert_eq!(try_mask_api_key("äbcdefghijäz"), Some("äbc...jäz".to_string()));
    assert_eq!(try_mask_api_key("ééé"), Some("****".to_string()));
    assert_eq!(try_mask_api_key("sk-ant-abcdefgh1234"), Some("sk-a...1234".to_string()));
}

#[test]
fn settings_are_shown_with_the_key_masked() {
    let shown = stored().masked();
    assert_eq!(shown.anthropic_api_key, Some("sk-a...1234".to_string()));
    assert_eq!(shown.default_model, "model-a");
    assert_eq!(shown.theme, "dark");
    let none = AppSettings::default().try_masked().unwrap();
    assert_eq!(none.anthropic_api_key, None);
    let mut odd = stored();
    odd.anthropic_api_key = Some("abcé-efghijk".to_string());
    assert!(odd.try_masked().is_none());
}

#[test]
fn update_changes_only_what_is_given() {
    let mut settings = stored();
    settings.apply_update(None, Some(true), None, Some("model-b".to_string()), None);
    assert_eq!(settings.anthropic_api_key, Some("sk-ant-abcdefgh1234".to_string()));
    assert!(settings.use_claude_code);
    assert!(!settings.mock_mode);
    assert_eq!(settings.default_model, "model-b");
    assert_eq!(settings.theme, "dark");

    settings.apply_update(None, None, Some(true), None, Some("light".to_string()));
    assert!(settings.mock_mode);
    assert_eq!(settings.theme, "light");
    assert_eq!(settings.default_model, "model-b");
}

#[test]
fn a_masked_key_in_an_update_changes_nothing() {
    let mut settings = stored();
    settings.apply_update(Some("sk-a...1234".to_string()), None, None, None, None);
    assert_eq!(settings.anthropic_api_key, Some("sk-ant-abcdefgh1234".to_string()));
    settings.apply_update(Some("****".to_string()), None, None, None, None);
    assert_eq!(settings.anthropic_api_key, Some("sk-ant-abcdefgh1234".to_string()));
    settings.apply_update(Some("...".to_string()), None, None, None, None);
    assert_eq!(settings.anthropic_api_key, Some("sk-ant-abcdefgh1234".to_string()));
}

#[test]
fn an_empty_key_removes_the_stored_one_and_another_replaces_it() {
    let mut settings = stored();
    settings.apply_update(Some("sk-ant-new".to_string()), None, None, None, None);
    assert_eq!(settings.anthropic_api_key, Some("sk-ant-new".to_string()));
    settings.apply_update(Some("*****".to_string()), None, None, None, None);
    assert_eq!(settings.anthropic_api_key, Some("*****".to_string()));
    settings.apply_update(Some("a..b".to_string()), None, None, None, None);
    assert_eq!(settings.anthropic_api_key, Some("a..b".to_string()));
    settings.apply_update(Some(String::new()), None, None, None, None);
    assert_eq!(settings.anthropic_api_key, None);
}

#[test]
fn key_is_present_when_stored_and_not_empty() {
    assert!(stored().has_api_key());
    assert!(!AppSettings::default().has_api_key());
    let mut empty = stored();
    empty.anthropic_api_key = Some(String::new());
    assert!(!empty.has_api_key());
}

#[test]
fn key_format_is_checked_by_its_prefix() {
    assert_eq!(stored().validate_api_key(), Ok(true));
    assert_eq!(
        AppSettings::default().validate_api_key(),
        Err("No API key configured".to_string())
    );
    let mut wrong = stored();
    wrong.anthropic_api_key = Some("sk-other-1".to_string());
    assert_eq!(wrong.validate_api_key(), Err("Invalid API key format".to_string()));
    wrong.anthropic_api_key = Some("sk-ant".to_string());
    assert_eq!(wrong.validate_api_key(), Err("Invalid API key format".to_string()));
    wrong.anthropic_api_key = Some("sk-ant-".to_string());
    assert_eq!(wrong.validate_api_key(), Ok(true));
}

#[test]
fn settings_answers() {
    let shown = SettingsResponse::showing(stored());
    assert!(shown.success);
    assert_eq!(shown.settings.unwrap().anthropic_api_key, Some("sk-a...1234".to_string()));
    assert_eq!(shown.error, None);

    let failed = SettingsResponse::failed("Failed to read settings: denied".to_string());
    assert!(!failed.success);
    assert!(failed.settings.is_none());
    assert_eq!(failed.error, Some("Failed to read settings: denied".to_string()));
}

#[test]
fn probe_of_an_installed_command_gives_its_trimmed_version() {
    let status = ClaudeCodeStatus::from_probe(
        ProbeOutcome::Ran {
            success: true,
            stdout: "  1.2.3 (cli)\n".to_string(),
            stderr: "ignored".to_string(),
        },
        "install it",
        "failed: ",
    );
    assert!(status.installed);
    assert_eq!(status.version, Some("1.2.3 (cli)".to_string()));
    assert_eq!(status.error, None);
}

#[test]
fn probe_of_a_failing_or_missing_command_reports_why() {
    let failed = ClaudeCodeStatus::from_probe(
        ProbeOutcome::Ran {
            success: false,
            stdout: "1.0".to_string(),
            stderr: "boom\n".to_string(),
        },
        "install it",
        "failed: ",
    );
    assert!(!failed.installed);
    assert_eq!(failed.version, None);
    assert_eq!(failed.error, Some("Command failed: boom\n".to_string()));

    let missing = ClaudeCodeStatus::from_probe(ProbeOutcome::NotFound, "install it", "failed: ");
    assert!(!missing.installed);
    assert_eq!(missing.error, Some("install it".to_string()));

    let other = ClaudeCodeStatus::from_probe(
        ProbeOutcome::Failed { reason: "permission denied".to_string() },
        "install it",
        "failed: ",
    );
    assert!(!other.installed);
    assert_eq!(other.version, None);
    assert_eq!(other.error, Some("failed: permission denied".to_string()));
}
