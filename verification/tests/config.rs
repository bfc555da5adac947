use chitin::config::{
    default_provider_type, default_socket_path, get_config_path, merge_env_vars, Config,
    ConfigCandidate, ConfigFile, EnvOverrides, OpenAiConfig, ProviderConfig, ServerConfig,
    DEFAULT_PROVIDER_TYPE, DEFAULT_SOCKET_PATH,
};

fn no_env() -> EnvOverrides {
    EnvOverrides { socket_path: None, provider: None, api_base: None, api_key: None, model: None }
}

fn file_config() -> Config {
    Config {
        server: ServerConfig { socket_path: "/run/chitin.sock".to_string() },
        provider: ProviderConfig {
            type_: "noop".to_string(),
            openai: OpenAiConfig {
                api_base: Some("http://localhost:8080".to_string()),
                api_key: None,
                model: Some("local".to_string()),
            },
        },
    }
}

fn candidate(path: &str, exists: bool) -> ConfigCandidate {
    ConfigCandidate { path: path.to_string(), exists }
}

#[test]
fn defaults() {
    assert_eq!(DEFAULT_SOCKET_PATH, "/tmp/chitin.sock");
    assert_eq!(DEFAULT_PROVIDER_TYPE, "openai");
    assert_eq!(default_socket_path(), "/tmp/chitin.sock");
    assert_eq!(default_provider_type(), "openai");
    let config = Config::default();
    assert_eq!(config.server.socket_path, "/tmp/chitin.sock");
    assert_eq!(config.provider.type_, "openai");
    assert_eq!(config.provider.openai.api_base, None);
    assert_eq!(config.provider.openai.api_key, None);
    assert_eq!(config.provider.openai.model, None);
    assert_eq!(ServerConfig::default().socket_path, "/tmp/chitin.sock");
    assert_eq!(ProviderConfig::default().type_, "openai");
    assert_eq!(OpenAiConfig::default().api_key, None);
}

#[test]
fn environment_overrides_what_it_sets() {
    let mut config = file_config();
    let env = EnvOverrides {
        socket_path: Some("/tmp/other.sock".to_string()),
        provider: None,
        api_base: None,
        api_key: Some("SECRET-REDACTED".to_string()),
        model: Some("gpt-x".to_string()),
    };
    merge_env_vars(&mut config, &env);
    assert_eq!(config.server.socket_path, "/tmp/other.sock");
    assert_eq!(config.provider.type_, "noop");
    assert_eq!(config.provider.openai.api_base, Some("http://localhost:8080".to_string()));
    assert_eq!(config.provider.openai.api_key, Some("SECRET-REDACTED".to_string()));
    assert_eq!(config.provider.openai.model, Some("gpt-x".to_string()));
}

#[test]
fn empty_environment_changes_nothing() {
    let mut config = file_config();
    merge_env_vars(&mut config, &no_env());
    assert_eq!(config.server.socket_path, "/run/chitin.sock");
    assert_eq!(config.provider.type_, "noop");
    assert_eq!(config.provider.openai.api_base, Some("http://localhost:8080".to_string()));
    assert_eq!(config.provider.openai.api_key, None);
    assert_eq!(config.provider.openai.model, Some("local".to_string()));
}

#[test]
fn full_environment_overrides_everything() {
    let mut config = Config::default();
    let env = EnvOverrides {
        socket_path: Some("a".to_string()),
        provider: Some("b".to_string()),
        api_base: Some("c".to_string()),
        api_key: Some("d".to_string()),
        model: Some("e".to_string()),
    };
    merge_env_vars(&mut config, &env);
    assert_eq!(config.server.socket_path, "a");
    assert_eq!(config.provider.type_, "b");
    assert_eq!(config.provider.openai.api_base, Some("c".to_string()));
    assert_eq!(config.provider.openai.api_key, Some("d".to_string()));
    assert_eq!(config.provider.openai.model, Some("e".to_string()));
}

#[test]
fn load_reload_without_a_file_uses_defaults_and_environment() {
    let mut env = no_env();
    env.provider = Some("noop".to_string());
    let config = Config::load_reload(ConfigFile::Absent, &env).expect("a configuration");
    assert_eq!(config.server.socket_path, "/tmp/chitin.sock");
    assert_eq!(config.provider.type_, "noop");
}

#[test]
fn load_reload_with_a_file_merges_the_environment() {
    let mut env = no_env();
    env.api_key = Some("k".to_string());
    let config =
        Config::load_reload(ConfigFile::Parsed(file_config()), &env).expect("a configuration");
    assert_eq!(config.server.socket_path, "/run/chitin.sock");
    assert_eq!(config.provider.type_, "noop");
    assert_eq!(config.provider.openai.api_key, Some("k".to_string()));
    assert_eq!(config.provider.openai.model, Some("local".to_string()));
}

#[test]
fn load_reload_reports_a_failed_file() {
    let mut env = no_env();
    env.provider = Some("noop".to_string());
    let outcome = Config::load_reload(ConfigFile::Failed("expected `=`".to_string()), &env);
    assert_eq!(outcome.err(), Some("expected `=`".to_string()));
}

#[test]
fn load_falls_back_to_defaults_and_environment() {
    let mut env = no_env();
    env.socket_path = Some("/tmp/env.sock".to_string());
    let config = Config::load(ConfigFile::Failed("unreadable".to_string()), &env);
    assert_eq!(config.server.socket_path, "/tmp/env.sock");
    assert_eq!(config.provider.type_, "openai");
    let config = Config::load(ConfigFile::Parsed(file_config()), &env);
    assert_eq!(config.server.socket_path, "/tmp/env.sock");
    assert_eq!(config.provider.type_, "noop");
    let config = Config::load(ConfigFile::Absent, &no_env());
    assert_eq!(config.server.socket_path, "/tmp/chitin.sock");
}

#[test]
fn named_file_wins_whether_it_exists_or_not() {
    let candidates = vec![candidate("chitin.toml", true)];
    assert_eq!(
        get_config_path(Some("/etc/chitin.toml".to_string()), &candidates),
        Some("/etc/chitin.toml".to_string())
    );
}

#[test]
fn first_existing_candidate_is_chosen() {
    let candidates = vec![
        candidate("chitin.toml", false),
        candidate("/home/u/.config/chitin/config.toml", true),
        candidate("/home/u/.config/chitin2/config.toml", true),
    ];
    assert_eq!(
        get_config_path(None, &candidates),
        Some("/home/u/.config/chitin/config.toml".to_string())
    );
    let first = vec![candidate("chitin.toml", true), candidate("b", true)];
    assert_eq!(get_config_path(None, &first), Some("chitin.toml".to_string()));
    let last = vec![candidate("a", false), candidate("b", false), candidate("c", true)];
    assert_eq!(get_config_path(None, &last), Some("c".to_string()));
}

#[test]
fn no_candidate_no_path() {
    assert_eq!(get_config_path(None, &Vec::new()), None);
    let none = vec![candidate("a", false), candidate("b", false)];
    assert_eq!(get_config_path(None, &none), None);
}
