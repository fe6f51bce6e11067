use ntfy_bridge::cli::ConfigError;
use ntfy_bridge::config::{AuthConfig, Config, Credentials, NtfyCredentials};

fn strings(args: Vec<&str>) -> Vec<String> {
    args.into_iter().map(|a| a.to_string()).collect()
}

fn env(vars: Vec<(&str, &str)>) -> Vec<(String, String)> {
    vars.into_iter()
        .map(|(k, v)| (k.to_string(), v.to_string()))
        .collect()
}

#[test]
fn when_parsing_with_defaults_then_should_have_correct_values() {
    let args: Vec<String> = vec!["test".to_string()];

    let config = Config::try_parse_from(args).expect("should have valid default config");

    assert_eq!(config.ntfy_url(), "https://ntfy.sh");
    assert_eq!(config.listen_addr(), "0.0.0.0:8080");
    match config.ntfy_credentials() {
        NtfyCredentials::NoCredentials => {}
        _ => panic!("should have no credentials"),
    }
}

#[test]
fn when_parsing_with_token_then_should_set_token() {
    let args = strings(vec!["test", "--ntfy-token", "mytoken"]);

    let config = Config::try_parse_from(args).expect("should have valid config with token");

    match config.ntfy_credentials() {
        NtfyCredentials::AuthToken(token) => assert_eq!(token, "mytoken"),
        _ => panic!("should have token credentials"),
    }
}

#[test]
fn when_parsing_with_credentials_then_should_set_credentials() {
    let args = strings(vec!["test", "--ntfy-username", "user", "--ntfy-password", "pass"]);

    let config =
        Config::try_parse_from(args).expect("should have valid config with credentials");

    match config.ntfy_credentials() {
        NtfyCredentials::UsernamePassword(username, password) => {
            assert_eq!(username, "user");
            assert_eq!(password, "pass");
        }
        _ => panic!("should have username/password credentials"),
    }
}

#[test]
fn when_parsing_with_token_and_credentials_then_should_fail() {
    let args = strings(vec![
        "test",
        "--ntfy-token",
        "mytoken",
        "--ntfy-username",
        "user",
        "--ntfy-password",
        "pass",
    ]);

    let result = Config::try_parse_from(args);

    assert!(result.is_err());
}

#[test]
fn when_parsing_with_url_then_should_set_url() {
    let args = strings(vec!["test", "--ntfy-url", "https://example.com"]);

    let config = Config::try_parse_from(args).expect("should have valid config with url");

    assert_eq!(config.ntfy_url(), "https://example.com");
}

#[test]
fn when_parsing_with_listen_addr_then_should_set_listen_addr() {
    let args = strings(vec!["test", "--listen-addr", "127.0.0.1:9090"]);

    let config =
        Config::try_parse_from(args).expect("should have valid config with listen address");

    assert_eq!(config.listen_addr(), "127.0.0.1:9090");
}

#[test]
fn when_parsing_invalid_url_then_should_fail() {
    let args = strings(vec!["test", "--ntfy-url", "not-a-url"]);
    let result = Config::try_parse_from(args);
    assert!(result.is_err());
}

#[test]
fn when_parsing_ftp_url_then_should_fail() {
    let args = strings(vec!["test", "--ntfy-url", "ftp://ntfy.sh"]);
    let result = Config::try_parse_from(args);
    assert!(result.is_err());
}

#[test]
fn when_parsing_url_without_host_then_should_fail() {
    let args = strings(vec!["test", "--ntfy-url", "https://"]);
    let result = Config::try_parse_from(args);
    assert!(result.is_err());
}

#[test]
fn attached_values_are_read_like_separate_ones() {
    let config = Config::try_parse_from(strings(vec![
        "test",
        "--ntfy-url=http://localhost:2586",
        "--base-path=bridge",
        "--api-token=",
    ]))
    .expect("should accept attached values");
    assert_eq!(config.ntfy_url(), "http://localhost:2586");
    assert_eq!(config.base_path(), "bridge");
    assert_eq!(config.api_token(), Some(""));
    assert_eq!(config.log_level(), "info");
}

#[test]
fn defaults_fill_every_unset_option() {
    let config = Config::try_parse_from(strings(vec!["test"])).expect("defaults");
    assert_eq!(config.base_path(), "api");
    assert_eq!(config.log_level(), "info");
    assert_eq!(config.api_token(), None);
}

#[test]
fn empty_command_line_is_the_default_configuration() {
    let config = Config::try_parse_from(Vec::new()).expect("defaults");
    assert_eq!(config.ntfy_url(), "https://ntfy.sh");
}

#[test]
fn environment_fills_options_not_on_the_command_line() {
    let config = Config::try_parse_with_env(
        &strings(vec!["test", "--log-level", "debug"]),
        &env(vec![
            ("NTFY_URL", "http://ntfy.internal"),
            ("LOG_LEVEL", "warn"),
            ("API_TOKEN", "secret"),
            ("NTFY_USERNAME", "alice"),
            ("NTFY_PASSWORD", "wonderland"),
        ]),
    )
    .expect("should read the environment");
    assert_eq!(config.ntfy_url(), "http://ntfy.internal");
    assert_eq!(config.log_level(), "debug");
    assert_eq!(config.api_token(), Some("secret"));
    match config.ntfy_credentials() {
        NtfyCredentials::UsernamePassword(u, p) => {
            assert_eq!(u, "alice");
            assert_eq!(p, "wonderland");
        }
        _ => panic!("should have username/password credentials"),
    }
}

#[test]
fn the_first_environment_entry_of_a_name_counts() {
    let config = Config::try_parse_with_env(
        &strings(vec!["test"]),
        &env(vec![("BASE_PATH", "one"), ("BASE_PATH", "two")]),
    )
    .expect("should read the environment");
    assert_eq!(config.base_path(), "one");
}

#[test]
fn invalid_url_from_the_environment_is_refused() {
    let result = Config::try_parse_with_env(
        &strings(vec!["test"]),
        &env(vec![("NTFY_URL", "ftp://ntfy.sh")]),
    );
    match result {
        Err(ConfigError::InvalidValue(option, message)) => {
            assert_eq!(option, "ntfy-url");
            assert_eq!(message, "scheme must be http or https");
        }
        _ => panic!("should refuse the URL"),
    }
}

#[test]
fn token_from_the_environment_conflicts_with_username() {
    let result = Config::try_parse_with_env(
        &strings(vec!["test", "--ntfy-username", "u", "--ntfy-password", "p"]),
        &env(vec![("NTFY_TOKEN", "t")]),
    );
    match result {
        Err(ConfigError::ArgumentConflict(a, b)) => {
            assert_eq!(a, "ntfy-token");
            assert_eq!(b, "ntfy-username");
        }
        _ => panic!("should be a conflict"),
    }
}

#[test]
fn username_without_password_is_refused() {
    match Config::try_parse_from(strings(vec!["test", "--ntfy-username", "u"])) {
        Err(ConfigError::MissingRequired(o)) => assert_eq!(o, "ntfy-password"),
        _ => panic!("should need a password"),
    }
    match Config::try_parse_from(strings(vec!["test", "--ntfy-password", "p"])) {
        Err(ConfigError::MissingRequired(o)) => assert_eq!(o, "ntfy-username"),
        _ => panic!("should need a username"),
    }
}

#[test]
fn help_and_version_are_requests_not_configurations() {
    assert!(matches!(
        Config::try_parse_from(strings(vec!["test", "--help"])),
        Err(ConfigError::Help)
    ));
    assert!(matches!(
        Config::try_parse_from(strings(vec!["test", "-h"])),
        Err(ConfigError::Help)
    ));
    assert!(matches!(
        Config::try_parse_from(strings(vec!["test", "--version"])),
        Err(ConfigError::Version)
    ));
    assert!(matches!(
        Config::try_parse_from(strings(vec!["test", "-V"])),
        Err(ConfigError::Version)
    ));
    assert!(matches!(
        Config::try_parse_from(strings(vec!["test", "--help=x"])),
        Err(ConfigError::UnexpectedValue(_))
    ));
}

#[test]
fn malformed_command_lines_are_refused() {
    match Config::try_parse_from(strings(vec!["test", "--bogus", "x"])) {
        Err(ConfigError::UnknownArgument(a)) => assert_eq!(a, "--bogus"),
        _ => panic!("should be unknown"),
    }
    match Config::try_parse_from(strings(vec!["test", "-x"])) {
        Err(ConfigError::UnknownArgument(a)) => assert_eq!(a, "-x"),
        _ => panic!("should be unknown"),
    }
    match Config::try_parse_from(strings(vec!["test", "stray"])) {
        Err(ConfigError::UnexpectedArgument(a)) => assert_eq!(a, "stray"),
        _ => panic!("should be unexpected"),
    }
    match Config::try_parse_from(strings(vec!["test", "--", "stray"])) {
        Err(ConfigError::UnexpectedArgument(a)) => assert_eq!(a, "stray"),
        _ => panic!("should be unexpected"),
    }
    assert!(Config::try_parse_from(strings(vec!["test", "--"])).is_ok());
    match Config::try_parse_from(strings(vec!["test", "--base-path"])) {
        Err(ConfigError::MissingValue(o)) => assert_eq!(o, "base-path"),
        _ => panic!("should miss a value"),
    }
    match Config::try_parse_from(strings(vec!["test", "--base-path", "--log-level", "x"])) {
        Err(ConfigError::MissingValue(o)) => assert_eq!(o, "base-path"),
        _ => panic!("should miss a value"),
    }
    match Config::try_parse_from(strings(vec!["test", "--base-path", "a", "--base-path=b"])) {
        Err(ConfigError::RepeatedArgument(o)) => assert_eq!(o, "base-path"),
        _ => panic!("should be repeated"),
    }
}

#[test]
fn a_single_dash_is_a_value() {
    let config = Config::try_parse_from(strings(vec!["test", "--log-level", "-"])).expect("dash");
    assert_eq!(config.log_level(), "-");
}

#[test]
fn invalid_url_message_names_the_reason() {
    match Config::try_parse_from(strings(vec!["test", "--ntfy-url", "ftp://ntfy.sh"])) {
        Err(ConfigError::InvalidValue(o, m)) => {
            assert_eq!(o, "ntfy-url");
            assert_eq!(m, "scheme must be http or https");
        }
        _ => panic!("should refuse the scheme"),
    }
    match Config::try_parse_from(strings(vec!["test", "--ntfy-url", "not-a-url"])) {
        Err(ConfigError::InvalidValue(_, m)) => {
            assert_eq!(m, "invalid URL: relative URL without a base")
        }
        _ => panic!("should refuse the URL"),
    }
}

fn sample_config(token: Option<&str>, password: Option<&str>, api_token: Option<&str>) -> Config {
    Config {
        ntfy_url: "https://ntfy.sh".to_string(),
        ntfy_auth: AuthConfig {
            credentials: Credentials {
                ntfy_username: Some("user".to_string()),
                ntfy_password: password.map(|p| p.to_string()),
            },
            ntfy_token: token.map(|t| t.to_string()),
        },
        api_token: api_token.map(|t| t.to_string()),
        listen_addr: "0.0.0.0:8080".to_string(),
        base_path: "api".to_string(),
        log_level: "info".to_string(),
    }
}

#[test]
fn credentials_are_shown_without_secrets() {
    assert_eq!(NtfyCredentials::NoCredentials.to_display_string(), "None");
    assert_eq!(
        NtfyCredentials::AuthToken("tk".to_string()).to_display_string(),
        "AuthToken(***)"
    );
    assert_eq!(
        NtfyCredentials::UsernamePassword("user".to_string(), "pw".to_string()).to_display_string(),
        "UsernamePassword(user, ***)"
    );
}

#[test]
fn config_is_shown_without_secrets() {
    let shown = sample_config(None, Some("pw"), Some("api-secret")).to_display_string();
    assert_eq!(
        shown,
        "Config { ntfy_url: \"https://ntfy.sh\", ntfy_auth: UsernamePassword(user, ***), api_token: Some(\"***\"), listen_addr: \"0.0.0.0:8080\", base_path: \"api\", log_level: \"info\" }"
    );
    let other = sample_config(None, Some("other"), Some("other")).to_display_string();
    assert_eq!(shown, other);
    let with_token = sample_config(Some("tk"), None, None).to_display_string();
    assert_eq!(
        with_token,
        "Config { ntfy_url: \"https://ntfy.sh\", ntfy_auth: AuthToken(***), api_token: None, listen_addr: \"0.0.0.0:8080\", base_path: \"api\", log_level: \"info\" }"
    );
}

#[test]
fn auth_config_debug_masks_password_and_token() {
    let config = sample_config(Some("tk"), Some("pw"), None);
    assert_eq!(
        config.ntfy_auth.to_debug_string(),
        "AuthConfig { credentials: Credentials { ntfy_username: Some(\"user\"), ntfy_password: Some(\"***\") }, ntfy_token: Some(\"***\") }"
    );
    assert_eq!(
        Credentials { ntfy_username: None, ntfy_password: None }.to_debug_string(),
        "Credentials { ntfy_username: None, ntfy_password: None }"
    );
}

#[test]
fn debug_form_escapes_quotes_in_values() {
    let mut config = sample_config(None, None, None);
    config.log_level = "a\"b".to_string();
    assert!(config.to_display_string().ends_with("log_level: \"a\\\"b\" }"));
}

#[test]
fn separate_and_attached_values_give_the_same_configuration() {
    let a = Config::try_parse_from(strings(vec!["test", "--base-path", "x", "--ntfy-token", "t"]))
        .expect("separate");
    let b = Config::try_parse_from(strings(vec!["test", "--base-path=x", "--ntfy-token=t"]))
        .expect("attached");
    assert_eq!(a.to_display_string(), b.to_display_string());
    assert_eq!(a.base_path(), b.base_path());
}

#[test]
fn url_given_alone_decides_the_configuration() {
    for (u, ok) in [("https://ntfy.sh/", true), ("http://h:1", true), ("ftp://h", false), ("x", false)] {
        let separate = Config::try_parse_from(strings(vec!["test", "--ntfy-url", u]));
        let attached = Config::try_parse_from(vec!["test".to_string(), format!("--ntfy-url={}", u)]);
        let from_env = Config::try_parse_with_env(&strings(vec!["test"]), &env(vec![("NTFY_URL", u)]));
        for r in [separate, attached, from_env] {
            assert_eq!(r.is_ok(), ok);
            if let Ok(c) = r {
                assert_eq!(c.ntfy_url(), u);
            }
        }
    }
    assert!(matches!(
        Config::try_parse_from(strings(vec!["test", "--ntfy-url", "-x"])),
        Err(ConfigError::MissingValue(_))
    ));
}
