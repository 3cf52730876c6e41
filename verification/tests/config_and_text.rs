use project_tui::config::settings::{config_file_name, config_names};
use project_tui::config::settings::{
    default_api_url, default_theme, load_not_found_error, load_parse_error, load_read_error,
    save_create_dir_error, save_serialize_error, save_write_error, GitHubConfig, Settings,
    UiConfig,
};
use project_tui::error::AppError;
use project_tui::text::{decimal, join};

fn config_message(e: AppError) -> String {
    match e {
        AppError::Config(m) => m,
        _ => panic!("expected a configuration error"),
    }
}

#[test]
fn defaults() {
    assert_eq!(default_api_url(), "https://api.github.com/graphql");
    assert_eq!(default_theme(), "default");
    assert_eq!(UiConfig::default().theme, "default");
    let s = Settings {
        github: GitHubConfig { token: "ghp_t".into(), api_url: default_api_url() },
        ui: UiConfig::default(),
    };
    assert_eq!(s.github.api_url, "https://api.github.com/graphql");
}

#[test]
fn example_configuration() {
    assert_eq!(
        Settings::example(),
        "[github]\ntoken = \"ghp_your_token_here\"\napi_url = \"https://api.github.com/graphql\"\n\n[ui]\ntheme = \"default\"\n"
    );
}

#[test]
fn config_path_needs_a_directory() {
    match Settings::config_path_from(None) {
        Err(e) => assert_eq!(config_message(e), "Failed to determine config directory"),
        Ok(_) => panic!("expected an error"),
    }
}

#[test]
fn config_path_ends_in_config_toml() {
    if let Ok(p) = Settings::config_path() {
        assert!(p.ends_with("config.toml"));
    }
    if let Some(d) = directories::ProjectDirs::from("com", "project-tui", "project-tui") {
        let p = Settings::config_path_from(Some(d)).ok().unwrap();
        assert_eq!(p.file_name().unwrap(), "config.toml");
        assert!(p.to_string_lossy().contains("project-tui"));
    }
}

#[test]
fn configuration_error_messages() {
    assert_eq!(
        config_message(load_not_found_error("/x/config.toml")),
        "Configuration file not found at: /x/config.toml\nPlease create it with your GitHub token."
    );
    assert_eq!(
        config_message(load_read_error("/x", "denied")),
        "Failed to read config file at /x: denied"
    );
    assert_eq!(config_message(load_parse_error("bad")), "Failed to parse config file: bad");
    assert_eq!(
        config_message(save_create_dir_error("/d", "nope")),
        "Failed to create config directory at /d: nope"
    );
    assert_eq!(config_message(save_serialize_error("e")), "Failed to serialize config: e");
    assert_eq!(
        config_message(save_write_error("/f", "full")),
        "Failed to write config file at /f: full"
    );
}

#[test]
fn error_messages() {
    assert_eq!(AppError::config("c").message(), "Configuration error: c");
    assert_eq!(AppError::auth("a").message(), "Authentication error: a");
    assert_eq!(AppError::github("g").message(), "GitHub API error: g");
}

#[test]
fn decimal_numbers() {
    assert_eq!(decimal(0), "0");
    assert_eq!(decimal(7), "7");
    assert_eq!(decimal(42), "42");
    assert_eq!(decimal(-105), "-105");
    assert_eq!(decimal(i64::MAX), i64::MAX.to_string());
    assert_eq!(decimal(i64::MIN), i64::MIN.to_string());
}

#[test]
fn joining() {
    assert_eq!(join(&vec![], ", "), "");
    assert_eq!(join(&vec!["a".to_string()], ", "), "a");
    assert_eq!(join(&vec!["a".to_string(), "b".to_string(), "c".to_string()], "-"), "a-b-c");
}

#[test]
fn config_names_and_file() {
    assert_eq!(config_names(), ("com", "project-tui", "project-tui"));
    assert_eq!(config_file_name(), "config.toml");
}
