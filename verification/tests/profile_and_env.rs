use k_aiti::chat_client::trim_str;
use k_aiti::environment_variables::{
    export_line, get_config_path, str_has_prefix, EnvVar, EnvironmentVariables, ShellConfigError,
    ShellInfo,
};
use k_aiti::error_parser::{parse_error_message, str_contains};
use k_aiti::profile::{profile_setup, setup, validate, CreatedAccount, CreatedConfig, ProfileConfig};
use k_aiti::terminal_capture::{capture_instance, TerminalCapture};

fn var(name: &str, value: &str) -> EnvVar {
    EnvVar { name: name.to_string(), value: value.to_string() }
}

#[test]
fn test_update_unix() {
    let lines: Vec<String> = Vec::new();
    let env_vars = vec![var("TEST_VARIABLE_1", "VALUE1"), var("TEST_VARIABLE_2", "VALUE2")];
    let updated = EnvironmentVariables::update(lines, &env_vars);
    let contents = updated.join("\n");
    assert!(
        contents.contains("export TEST_VARIABLE_1=\"VALUE1\""),
        "Expected environment variable not found in updated shell config lines"
    );
    assert!(
        contents.contains("export TEST_VARIABLE_2=\"VALUE2\""),
        "Expected environment variable not found in updated shell config lines"
    );
}

#[test]
fn update_replaces_existing_export_in_place() {
    let lines = vec![
        "# profile".to_string(),
        "export A=\"old\"".to_string(),
        "alias ll='ls -l'".to_string(),
    ];
    let updated = EnvironmentVariables::update(lines, &vec![var("A", "new")]);
    assert_eq!(
        updated,
        vec![
            "# profile".to_string(),
            "export A=\"new\"".to_string(),
            "alias ll='ls -l'".to_string(),
        ]
    );
}

#[test]
fn update_appends_missing_export() {
    let lines = vec!["# profile".to_string()];
    let updated = EnvironmentVariables::update(lines, &vec![var("B", "v")]);
    assert_eq!(updated, vec!["# profile".to_string(), "export B=\"v\"".to_string()]);
}

#[test]
fn update_matches_prefix_not_substring() {
    let lines = vec!["export AB=\"x\"".to_string()];
    let updated = EnvironmentVariables::update(lines, &vec![var("A", "y")]);
    assert_eq!(
        updated,
        vec!["export AB=\"x\"".to_string(), "export A=\"y\"".to_string()]
    );
}

#[test]
fn export_line_shape() {
    let line = export_line(&"NAME".to_string(), &"VAL".to_string());
    assert_eq!(line, "export NAME=\"VAL\"");
}

#[test]
fn prefix_check() {
    assert!(str_has_prefix("export A=1", "export A="));
    assert!(!str_has_prefix("export AB=1", "export A=1"));
    assert!(!str_has_prefix("exp", "export"));
}

#[test]
fn shell_config_lookup() {
    let info = get_config_path("bash").expect("bash is supported");
    assert_eq!(info.shell_name, "bash");
    assert_eq!(info.shell_config_file, ".bashrc");
    let info = get_config_path("zsh").expect("zsh is supported");
    assert_eq!(info.shell_config_file, ".zshrc");
    let err = get_config_path("fish").expect_err("fish is not supported");
    assert_eq!(err, ShellConfigError::UnsupportedShell);
}

#[test]
fn shell_info_new_keeps_fields() {
    let info = ShellInfo::new("bash", ".bashrc");
    assert_eq!(info.shell_name, "bash");
    assert_eq!(info.shell_config_file, ".bashrc");
}

#[test]
fn validate_asks_for_setup_only_without_profile() {
    assert!(validate(false));
    assert!(!validate(true));
}

fn created(abort: bool) -> CreatedConfig {
    CreatedConfig {
        user_name: "ada".to_string(),
        accounts: vec![
            CreatedAccount {
                name: "Personal".to_string(),
                env_var_name: "OPENAI_API_KEY".to_string(),
                env_var_value: "key-value".to_string(),
                create_env_var: true,
            },
            CreatedAccount {
                name: "Work".to_string(),
                env_var_name: "WORK_KEY".to_string(),
                env_var_value: "unused".to_string(),
                create_env_var: false,
            },
        ],
        abort,
    }
}

#[test]
fn profile_setup_collects_selected_vars() {
    let (result, vars, profile) = profile_setup(&created(false));
    assert!(!result.abort);
    assert_eq!(vars.len(), 1);
    assert_eq!(vars[0].name, "OPENAI_API_KEY");
    assert_eq!(vars[0].value, "key-value");
    let profile = profile.expect("a completed run builds a profile");
    assert_eq!(profile.user_name, "ada");
    assert_eq!(profile.accounts.len(), 2);
    assert_eq!(profile.accounts[0].name, "Personal");
    assert_eq!(profile.accounts[0].env_var_name, "OPENAI_API_KEY");
    assert_eq!(profile.accounts[1].name, "Work");
}

#[test]
fn profile_setup_abort_asks_for_nothing() {
    let (result, vars, profile) = profile_setup(&created(true));
    assert!(result.abort);
    assert!(vars.is_empty());
    assert!(profile.is_none());
}

#[test]
fn setup_also_yields_default_settings() {
    let (result, _, profile, settings) = setup(&created(false));
    assert!(!result.abort);
    assert!(profile.is_some());
    assert_eq!(settings.application.name, "k-aiti");
    assert_eq!(settings.modes.chat.id, "chatgpt");
}

#[test]
fn profile_config_new_reduces_accounts() {
    let profile = ProfileConfig::new(created(false));
    assert_eq!(profile.user_name, "ada");
    assert_eq!(profile.accounts.len(), 2);
    assert_eq!(profile.accounts[1].env_var_name, "WORK_KEY");
}

#[test]
fn trim_removes_surrounding_whitespace() {
    assert_eq!(trim_str("  hi\t"), "hi");
    assert_eq!(trim_str("\r\nstop \n"), "stop");
    assert_eq!(trim_str("   "), "");
    assert_eq!(trim_str("a b"), "a b");
}

#[test]
fn last_error_line_wins() {
    let out = "building\nError: missing dep\nretrying\nError: still broken\ndone";
    assert_eq!(parse_error_message(out), Some("Error: still broken".to_string()));
}

#[test]
fn no_error_line_yields_nothing() {
    assert_eq!(parse_error_message("all good\nnothing to see"), None);
    assert_eq!(parse_error_message(""), None);
}

#[test]
fn error_marker_is_found_mid_line() {
    let out = "note: Error: nested somewhere\nplain";
    assert_eq!(parse_error_message(out), Some("note: Error: nested somewhere".to_string()));
}

#[test]
fn carriage_returns_are_stripped() {
    let out = "Error: windows line\r\nplain\r\n";
    assert_eq!(parse_error_message(out), Some("Error: windows line".to_string()));
}

#[test]
fn containment_check() {
    assert!(str_contains("abcde", "bcd"));
    assert!(str_contains("abc", ""));
    assert!(!str_contains("abc", "cb"));
    assert!(!str_contains("ab", "abc"));
}

#[test]
fn capture_placeholder() {
    let capture = capture_instance();
    assert_eq!(capture.capture_output(), Ok("hello".to_string()));
}
