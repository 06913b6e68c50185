use xai_grok_desktop::config::settings::{
    cancel_subagents_value, default_model_value, fork_secondary_model_value,
    max_thoughts_width_value, scroll_lines_value, scroll_speed_value, SettingsError,
    MAX_DEFAULT_MODEL_LEN,
};

#[test]
fn numeric_settings_are_clamped() {
    assert_eq!(max_thoughts_width_value(10), 40);
    assert_eq!(max_thoughts_width_value(120), 120);
    assert_eq!(max_thoughts_width_value(i64::MAX), 500);
    assert_eq!(scroll_speed_value(-5), 1);
    assert_eq!(scroll_speed_value(55), 55);
    assert_eq!(scroll_speed_value(1_000), 100);
    assert_eq!(scroll_lines_value(i64::MIN), 1);
    assert_eq!(scroll_lines_value(3), 3);
    assert_eq!(scroll_lines_value(11), 10);
}

#[test]
fn empty_default_model_clears_the_setting() {
    assert_eq!(default_model_value(String::new()), Ok(None));
    assert_eq!(default_model_value("grok-4".to_owned()), Ok(Some("grok-4".to_owned())));
    assert_eq!(default_model_value("x".repeat(256)), Ok(Some("x".repeat(256))));
    assert_eq!(
        default_model_value("x".repeat(257)),
        Err(SettingsError::ModelNameTooLong(257))
    );
}

#[test]
fn fork_secondary_model_limits_and_defaults() {
    assert_eq!(MAX_DEFAULT_MODEL_LEN, 256);
    assert_eq!(
        fork_secondary_model_value(String::new(), "grok-code-fast".to_owned()),
        Ok("grok-code-fast".to_owned())
    );
    assert_eq!(
        fork_secondary_model_value("m".to_owned(), "d".to_owned()),
        Ok("m".to_owned())
    );
    assert_eq!(
        fork_secondary_model_value("a".repeat(256), "d".to_owned()),
        Ok("a".repeat(256))
    );
    assert_eq!(
        fork_secondary_model_value("a".repeat(257), "d".to_owned()),
        Err(SettingsError::ModelNameTooLong(257))
    );
    // The limit counts UTF-8 bytes: 86 three-byte characters are 258 bytes.
    assert_eq!(
        fork_secondary_model_value("模".repeat(86), "d".to_owned()),
        Err(SettingsError::ModelNameTooLong(258))
    );
}

#[test]
fn ask_clears_the_cancel_subagents_setting() {
    assert_eq!(cancel_subagents_value("ask".to_owned()), None);
    assert_eq!(
        cancel_subagents_value("always_stop".to_owned()),
        Some("always_stop".to_owned())
    );
    assert_eq!(cancel_subagents_value("Ask".to_owned()), Some("Ask".to_owned()));
}
