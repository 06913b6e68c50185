use xai_grok_desktop::config::reports::{
    default_set_report, model_added_report, model_line, models_report, AuthStatus,
};

#[test]
fn model_list_marks_the_default() {
    let available = vec!["grok-4".to_owned(), "grok-code-fast".to_owned()];
    assert_eq!(
        models_report(&AuthStatus::ApiKey, "grok-code-fast", &available),
        vec![
            "You are using XAI_API_KEY.",
            "",
            "Default model: grok-code-fast",
            "",
            "Available models:",
            "  - grok-4",
            "  * grok-code-fast (default)",
        ]
    );
    assert_eq!(model_line("a", "b"), "  - a");
    assert_eq!(model_line("b", "b"), "  * b (default)");
}

#[test]
fn every_auth_status_has_its_sentence() {
    assert_eq!(
        AuthStatus::LoggedIn("x.ai".to_owned()).line(),
        "You are logged in with x.ai."
    );
    assert_eq!(
        AuthStatus::ModelCredentials("local".to_owned()).line(),
        "Model 'local' is using its own API key."
    );
    assert_eq!(
        AuthStatus::DeploymentKey.line(),
        "You are authenticated via deployment key."
    );
    assert_eq!(AuthStatus::NotAuthenticated.line(), "You are not authenticated.");
    assert_eq!(
        models_report(&AuthStatus::NotAuthenticated, "m", &Vec::new()).len(),
        5
    );
}

#[test]
fn confirmations_after_writing_the_config() {
    assert_eq!(
        model_added_report("local", "/home/u/.grok/config.toml"),
        vec![
            "Added model 'local' to /home/u/.grok/config.toml.",
            "",
            "You can now use it with:",
            "  grok -m local \"<prompt>\"",
            "or set it as the default with:",
            "  grok models default local",
        ]
    );
    assert_eq!(
        default_set_report("grok-4"),
        vec![
            "Set default model to 'grok-4'.",
            "",
            "New sessions will use this model unless you pass -m/--model.",
        ]
    );
}
