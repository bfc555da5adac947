use chitin::config::{Config, OpenAiConfig, ProviderConfig, ServerConfig};
use chitin::provider::{
    build_provider, CommandGenerator, Context, NoopProvider, OpenAiCompatibleProvider, Provider,
    ProviderError, COMPLETIONS_PATH, DEFAULT_API_BASE, DEFAULT_MODEL, SYSTEM_PROMPT,
};
use chitin::registry::{BackendRegistry, ReloadOutcome};

fn config(
    type_: &str,
    api_base: Option<&str>,
    api_key: Option<&str>,
    model: Option<&str>,
) -> Config {
    Config {
        server: ServerConfig { socket_path: "/tmp/chitin.sock".to_string() },
        provider: ProviderConfig {
            type_: type_.to_string(),
            openai: OpenAiConfig {
                api_base: api_base.map(str::to_string),
                api_key: api_key.map(str::to_string),
                model: model.map(str::to_string),
            },
        },
    }
}

fn context(prompt: &str, history: &[&str], last_command: Option<&str>) -> Context {
    Context {
        prompt: prompt.to_string(),
        pwd: "/home/u".to_string(),
        session_id: "s1".to_string(),
        history: history.iter().map(|h| h.to_string()).collect(),
        last_command: last_command.map(str::to_string),
    }
}

fn openai(api_base: Option<&str>) -> OpenAiCompatibleProvider {
    OpenAiCompatibleProvider::new(&config("openai", api_base, Some("k"), None)).expect("a backend")
}

#[test]
fn constants() {
    assert_eq!(DEFAULT_API_BASE, "https://api.openai.com");
    assert_eq!(DEFAULT_MODEL, "gpt-4.1-mini");
    assert_eq!(COMPLETIONS_PATH, "/v1/chat/completions");
    assert_eq!(
        SYSTEM_PROMPT,
        "You are a shell command generator. Return exactly one executable command, no commentary, no markdown."
    );
}

#[test]
fn error_texts() {
    assert_eq!(
        ProviderError::UnknownProvider("llama".to_string()).message(),
        "unknown provider: llama"
    );
    assert_eq!(ProviderError::MissingApiKey.message(), "API key is required for openai provider");
    assert_eq!(ProviderError::MissingContent.message(), "model response missing content");
    assert_eq!(ProviderError::EmptyCommand.message(), "model returned empty command");
}

#[test]
fn noop_echoes_the_trimmed_prompt() {
    let generated = NoopProvider.generate(context("  list files \n", &[], None));
    assert_eq!(generated.ok(), Some("echo \"Chitin: list files\"".to_string()));
    let generated = NoopProvider.generate(context("a \"b\"", &[], None));
    assert_eq!(generated.ok(), Some("echo \"Chitin: a \"b\"\"".to_string()));
}

#[test]
fn noop_answers_a_blank_prompt_with_the_null_command() {
    assert_eq!(NoopProvider.generate(context("", &[], None)).ok(), Some(":".to_string()));
    assert_eq!(NoopProvider.generate(context(" \t ", &[], None)).ok(), Some(":".to_string()));
}

#[test]
fn openai_backend_needs_a_key() {
    let built = OpenAiCompatibleProvider::new(&config("openai", Some("http://x"), None, Some("m")));
    assert!(matches!(built, Err(ProviderError::MissingApiKey)));
}

#[test]
fn openai_backend_defaults() {
    let provider = openai(None);
    assert_eq!(provider.api_key(), "k");
    assert_eq!(provider.model(), "gpt-4.1-mini");
    assert_eq!(provider.endpoint(), "https://api.openai.com/v1/chat/completions");
}

#[test]
fn openai_backend_takes_what_is_configured() {
    let provider = OpenAiCompatibleProvider::new(&config(
        "openai",
        Some("http://localhost:11434/"),
        Some("SECRET-REDACTED"),
        Some("llama3"),
    ))
    .expect("a backend");
    assert_eq!(provider.api_key(), "SECRET-REDACTED");
    assert_eq!(provider.model(), "llama3");
    assert_eq!(provider.endpoint(), "http://localhost:11434/v1/chat/completions");
}

#[test]
fn endpoint_drops_trailing_slashes() {
    assert_eq!(openai(Some("http://h///")).endpoint(), "http://h/v1/chat/completions");
    assert_eq!(openai(Some("http://h/api")).endpoint(), "http://h/api/v1/chat/completions");
    assert_eq!(openai(Some("")).endpoint(), "/v1/chat/completions");
}

#[test]
fn prompt_with_bare_context() {
    let messages = openai(None).build_prompt(&context("list files", &[], None));
    assert_eq!(messages.len(), 2);
    assert_eq!(messages[0].role, "system");
    assert_eq!(messages[0].content, SYSTEM_PROMPT);
    assert_eq!(messages[1].role, "user");
    assert_eq!(messages[1].content, "Task: list files\nContext: pwd: /home/u");
}

#[test]
fn prompt_with_full_context() {
    let messages = openai(None).build_prompt(&context(
        "now with sizes",
        &["list files", "now with sizes"],
        Some("ls"),
    ));
    assert_eq!(
        messages[1].content,
        "Task: now with sizes\nContext: pwd: /home/u; last_command: ls; recent_prompts: list files | now with sizes"
    );
}

#[test]
fn prompt_with_history_only_and_command_only() {
    let messages = openai(None).build_prompt(&context("p", &["p"], None));
    assert_eq!(messages[1].content, "Task: p\nContext: pwd: /home/u; recent_prompts: p");
    let messages = openai(None).build_prompt(&context("p", &[], Some("ls")));
    assert_eq!(messages[1].content, "Task: p\nContext: pwd: /home/u; last_command: ls");
}

#[test]
fn command_is_the_trimmed_first_line() {
    let command = OpenAiCompatibleProvider::command_from_content(Some("  ls -la  \nrm -rf /".to_string()));
    assert_eq!(command.ok(), Some("ls -la".to_string()));
    let command = OpenAiCompatibleProvider::command_from_content(Some("ls\r\npwd".to_string()));
    assert_eq!(command.ok(), Some("ls".to_string()));
    let command = OpenAiCompatibleProvider::command_from_content(Some("pwd".to_string()));
    assert_eq!(command.ok(), Some("pwd".to_string()));
}

#[test]
fn reply_without_a_command() {
    assert!(matches!(
        OpenAiCompatibleProvider::command_from_content(None),
        Err(ProviderError::MissingContent)
    ));
    for content in ["", "   ", "\nls", " \t\r\nls"] {
        assert!(matches!(
            OpenAiCompatibleProvider::command_from_content(Some(content.to_string())),
            Err(ProviderError::EmptyCommand)
        ));
    }
}

#[test]
fn command_agrees_with_lines_and_trim() {
    for content in ["ls", " ls \n", "a\rb\nc", "\u{a0}x\u{a0}\ny", "one\r\ntwo", "tab\there\n"] {
        let expected = content.lines().next().unwrap_or("").trim().to_string();
        let found = OpenAiCompatibleProvider::command_from_content(Some(content.to_string()));
        assert_eq!(found.ok(), Some(expected), "{content:?}");
    }
}

#[test]
fn build_provider_by_name() {
    assert!(matches!(build_provider(&config("noop", None, None, None)), Ok(Provider::Noop(_))));
    for name in ["openai", "openai-compatible"] {
        match build_provider(&config(name, None, Some("k"), Some("m"))) {
            Ok(Provider::OpenAi(provider)) => {
                assert_eq!(provider.model(), "m");
                assert_eq!(provider.api_key(), "k");
            }
            _ => panic!("another backend"),
        }
    }
}

#[test]
fn build_provider_failures() {
    match build_provider(&config("llama", None, Some("k"), None)) {
        Err(error) => assert_eq!(error.message(), "unknown provider: llama"),
        Ok(_) => panic!("a backend was built"),
    }
    match build_provider(&config("", None, None, None)) {
        Err(error) => assert_eq!(error.message(), "unknown provider: "),
        Ok(_) => panic!("a backend was built"),
    }
    match build_provider(&config("OpenAI", None, Some("k"), None)) {
        Err(error) => assert_eq!(error.message(), "unknown provider: OpenAI"),
        Ok(_) => panic!("a backend was built"),
    }
    for name in ["openai", "openai-compatible"] {
        match build_provider(&config(name, None, None, None)) {
            Err(error) => assert_eq!(error.message(), "API key is required for openai provider"),
            Ok(_) => panic!("a backend was built"),
        }
    }
    assert!(matches!(
        build_provider(&Config::default()),
        Err(ProviderError::MissingApiKey)
    ));
}

#[test]
fn registry_holds_and_replaces_the_backend() {
    let mut registry = BackendRegistry::new(Provider::Noop(NoopProvider));
    assert!(matches!(registry.current(), Provider::Noop(_)));
    registry.replace(Provider::OpenAi(openai(None)));
    assert!(matches!(registry.current(), Provider::OpenAi(_)));
}

#[test]
fn reload_replaces_the_backend() {
    let mut registry = BackendRegistry::new(Provider::Noop(NoopProvider));
    let outcome = registry.reload(Ok(config("openai", None, Some("k2"), None)));
    assert!(matches!(outcome, ReloadOutcome::Replaced));
    assert_eq!(outcome.message(), "config reloaded successfully");
    match registry.current() {
        Provider::OpenAi(provider) => assert_eq!(provider.api_key(), "k2"),
        _ => panic!("another backend"),
    }
}

#[test]
fn failed_reload_keeps_the_backend() {
    let mut registry = BackendRegistry::new(Provider::OpenAi(openai(None)));
    let outcome = registry.reload(Err("expected `=`".to_string()));
    assert!(matches!(outcome, ReloadOutcome::ConfigFailed(_)));
    assert_eq!(outcome.message(), "failed to reload config: expected `=`");
    assert!(matches!(registry.current(), Provider::OpenAi(_)));

    let outcome = registry.reload(Ok(config("llama", None, None, None)));
    assert!(matches!(outcome, ReloadOutcome::BuildFailed(_)));
    assert_eq!(
        outcome.message(),
        "failed to build provider from new config: unknown provider: llama"
    );
    match registry.current() {
        Provider::OpenAi(provider) => assert_eq!(provider.api_key(), "k"),
        _ => panic!("another backend"),
    }

    let outcome = registry.reload(Ok(config("openai", None, None, None)));
    assert_eq!(
        outcome.message(),
        "failed to build provider from new config: API key is required for openai provider"
    );
    assert!(matches!(registry.current(), Provider::OpenAi(_)));
}
