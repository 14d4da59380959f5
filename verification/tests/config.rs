use gifdeck::config::{
    config_file_names, config_path, favorites_mode, judge_mode, load, non_empty, Config, ConfigFile,
    ConfigPath, RawConfig,
};
use serde_json::Value;

/// The config file with these contents.
fn parsed(contents: &str) -> ConfigFile {
    match serde_json::from_str::<Value>(contents) {
        Ok(v) => {
            let text = |key: &str| v[key].as_str().map(|s| s.to_string());
            ConfigFile::Parsed(RawConfig {
                klipy_api_key: text("KLIPY_API_KEY"),
                giphy_api_key: text("GIPHY_API_KEY"),
                favorites_api: text("GIFDECK_FAVORITES_API"),
                favorites_token: text("GIFDECK_FAVORITES_TOKEN"),
                favorites_mode: text("FAVORITES_MODE"),
            })
        }
        Err(e) => ConfigFile::Invalid(e.to_string()),
    }
}

fn with_config(contents: &str) -> Config {
    load(parsed(contents), "/tmp/config.json").0
}

#[test]
fn missing_file_is_empty_config() {
    let (cfg, warning) = load(ConfigFile::Missing, "/nonexistent/does-not-exist.json");
    assert_eq!(cfg.klipy_api_key, None);
    assert_eq!(cfg.favorites_api, None);
    assert!(!cfg.use_server_favorites());
    assert_eq!(warning, None);
}

#[test]
fn invalid_json_warns_and_returns_empty() {
    let (cfg, warning) = load(parsed("{ not valid json "), "/tmp/c.json");
    assert_eq!(cfg.klipy_api_key, None);
    let warning = warning.unwrap();
    assert!(warning.starts_with("gifdeck: warning: invalid config JSON at /tmp/c.json: "));
    assert!(warning.ends_with(". Continuing with empty config."));
}

#[test]
fn unreadable_config_warns_and_returns_empty() {
    let (cfg, warning) = load(ConfigFile::Unreadable("denied".into()), "/c.json");
    assert_eq!(cfg.giphy_api_key, None);
    assert_eq!(
        warning.as_deref(),
        Some(
            "gifdeck: warning: could not read config at /c.json: denied. \
             Continuing with empty config."
        )
    );
}

#[test]
fn reads_file_values() {
    let cfg = with_config(
        r#"{"KLIPY_API_KEY":"filek","GIPHY_API_KEY":"fileg","GIFDECK_FAVORITES_API":"http://file/api","GIFDECK_FAVORITES_TOKEN":"filet"}"#,
    );
    assert_eq!(cfg.klipy_api_key.as_deref(), Some("filek"));
    assert_eq!(cfg.giphy_api_key.as_deref(), Some("fileg"));
    assert_eq!(cfg.favorites_api.as_deref(), Some("http://file/api"));
    assert_eq!(cfg.favorites_api(), Some("http://file/api"));
    assert_eq!(cfg.favorites_token.as_deref(), Some("filet"));
    assert!(cfg.use_server_favorites());
}

#[test]
fn unknown_json_keys_ignored() {
    let cfg = with_config(r#"{"SOMETHING_ELSE":"x","KLIPY_API_KEY":"k","unknown":1}"#);
    assert_eq!(cfg.klipy_api_key.as_deref(), Some("k"));
}

#[test]
fn blank_file_values_are_unset() {
    let cfg = with_config(r#"{"KLIPY_API_KEY":"  ","GIFDECK_FAVORITES_TOKEN":""}"#);
    assert_eq!(cfg.klipy_api_key, None);
    assert_eq!(cfg.favorites_token, None, "blank token means local mode");
    assert!(!cfg.use_server_favorites());
}

#[test]
fn gifdeck_config_env_overrides_default_path() {
    let path = config_path(Some("/some/alt/file.json".into()), Some("/home/x/.config".into()));
    assert!(matches!(path, ConfigPath::At(p) if p == "/some/alt/file.json"));
}

#[test]
fn default_path_lives_in_gifdeck_dir() {
    let path = config_path(None, Some("/home/x/.config".into()));
    assert!(matches!(path, ConfigPath::Under(d) if d == "/home/x/.config"));
    assert_eq!(config_file_names(), ("gifdeck", "config.json"));
    let path = config_path(Some(String::new()), Some("/c".into()));
    assert!(matches!(path, ConfigPath::Under(_)), "an empty override is none");
    assert!(matches!(config_path(None, None), ConfigPath::Here));
}

#[test]
fn favorites_mode_local_overrides_token() {
    let cfg = with_config(r#"{"GIFDECK_FAVORITES_TOKEN":"tok","FAVORITES_MODE":"local"}"#);
    assert_eq!(cfg.favorites_mode.as_deref(), Some("local"));
    assert!(
        !cfg.use_server_favorites(),
        "explicit local mode wins over a configured token"
    );
}

#[test]
fn favorites_mode_server_overrides_missing_token() {
    let cfg = with_config(r#"{"FAVORITES_MODE":"server"}"#);
    assert_eq!(cfg.favorites_mode.as_deref(), Some("server"));
    assert!(
        cfg.use_server_favorites(),
        "explicit server mode wins over a missing token"
    );
}

#[test]
fn favorites_mode_is_case_insensitive_and_trimmed() {
    let cfg = with_config(r#"{"FAVORITES_MODE":"  Local "}"#);
    assert_eq!(cfg.favorites_mode.as_deref(), Some("local"));
    assert!(!cfg.use_server_favorites());
}

#[test]
fn favorites_mode_invalid_falls_back_to_token_presence() {
    let cfg = with_config(r#"{"GIFDECK_FAVORITES_TOKEN":"tok","FAVORITES_MODE":"neither"}"#);
    assert_eq!(cfg.favorites_mode, None, "invalid mode is unset");
    assert!(cfg.use_server_favorites(), "falls back to token presence");
}

#[test]
fn favorites_mode_blank_is_unset() {
    let cfg = with_config(r#"{"FAVORITES_MODE":"   "}"#);
    assert_eq!(cfg.favorites_mode, None);
    assert!(!cfg.use_server_favorites());
}

#[test]
fn favorites_mode_unknown_keys_ignored_test_placeholder() {
    // Guards against accidentally treating legacy unknown keys as mode.
    let cfg = with_config(r#"{"GIFGREP_FAVORITES_TOKEN":"legacyt"}"#);
    assert_eq!(cfg.favorites_token, None, "legacy keys are not read");
    assert_eq!(cfg.favorites_mode, None);
}

#[test]
fn unknown_mode_warns_and_blank_mode_does_not() {
    let warning = "gifdeck: warning: unknown FAVORITES_MODE value; expected \"server\" or \
                   \"local\". Falling back to token-based mode.";
    let (mode, told) = favorites_mode(&Some("neither".into()));
    assert_eq!(mode, None);
    assert_eq!(told.as_deref(), Some(warning));
    assert_eq!(favorites_mode(&Some(" \t".into())), (None, None));
    assert_eq!(favorites_mode(&None), (None, None));
    assert_eq!(
        favorites_mode(&Some("SERVER\u{a0}".into())),
        (Some("server".into()), None)
    );
    assert_eq!(judge_mode("local".into()), (Some("local".into()), None));
    assert_eq!(judge_mode(String::new()), (None, None));
    let (_, told) = load(parsed(r#"{"FAVORITES_MODE":"x"}"#), "p");
    assert_eq!(told.as_deref(), Some(warning));
}

#[test]
fn non_empty_keeps_values_as_they_are() {
    assert_eq!(non_empty(Some(" a ".into())), Some(" a ".into()));
    assert_eq!(non_empty(Some("\u{3000}\n".into())), None);
    assert_eq!(non_empty(None), None);
}
