//! Command-generation backends: the request context they are given, the
//! capability they offer, and the backends the daemon can be configured with.
use crate::config::{Config, ConfigView};
use crate::session::{option_view, views};
use crate::text::{
    before_first, first_line, join, joined, same, trim, trim_end_matches, trimmed,
    without_trailing,
};
use vstd::prelude::*;

verus! {

/// What a backend is told about one request.
#[derive(Debug, Clone)]
pub struct Context {
    /// The request text.
    pub prompt: String,
    /// The client's working directory.
    pub pwd: String,
    /// The session key.
    pub session_id: String,
    /// The session's prompts when the request was taken up, this one last.
    pub history: Vec<String>,
    /// The session's last command at that time.
    pub last_command: Option<String>,
}

/// A request context as mathematical values.
pub struct ContextView {
    pub prompt: Seq<char>,
    pub pwd: Seq<char>,
    pub session_id: Seq<char>,
    pub history: Seq<Seq<char>>,
    pub last_command: Option<Seq<char>>,
}

impl View for Context {
    type V = ContextView;

    open spec fn view(&self) -> ContextView {
        ContextView {
            prompt: self.prompt@,
            pwd: self.pwd@,
            session_id: self.session_id@,
            history: views(self.history@),
            last_command: option_view(self.last_command),
        }
    }
}

/// Why no backend could be built, or why a backend's reply gave no command.
#[derive(Debug)]
pub enum ProviderError {
    /// The configuration names a backend that does not exist.
    UnknownProvider(String),
    /// The OpenAI-compatible backend was chosen without an API key.
    MissingApiKey,
    /// The model's reply held no content.
    MissingContent,
    /// The first line of the model's reply was blank.
    EmptyCommand,
}

/// The text of an error.
pub open spec fn error_message(error: ProviderError) -> Seq<char> {
    match error {
        ProviderError::UnknownProvider(name) => "unknown provider: "@ + name@,
        ProviderError::MissingApiKey => "API key is required for openai provider"@,
        ProviderError::MissingContent => "model response missing content"@,
        ProviderError::EmptyCommand => "model returned empty command"@,
    }
}

impl ProviderError {
    /// The text of this error.
    pub fn message(&self) -> (text: String)
        ensures
            text@ == error_message(*self),
    {
        match self {
            ProviderError::UnknownProvider(name) => {
                let mut text = String::from_str("unknown provider: ");
                text.append(name.as_str());
                text
            },
            ProviderError::MissingApiKey => String::from_str(
                "API key is required for openai provider",
            ),
            ProviderError::MissingContent => String::from_str("model response missing content"),
            ProviderError::EmptyCommand => String::from_str("model returned empty command"),
        }
    }
}

/// The capability every backend offers: a command for a request context,
/// or a failure.
pub trait CommandGenerator {
    fn generate(&self, context: Context) -> Result<String, ProviderError>;
}

/// The backend that asks nobody: it answers with a shell command that
/// echoes the prompt.
#[derive(Debug)]
pub struct NoopProvider;

/// What the no-op backend answers to `prompt`: the shell's null command
/// for a blank prompt, else an `echo` of the trimmed prompt.
pub open spec fn noop_command(prompt: Seq<char>) -> Seq<char> {
    if trimmed(prompt).len() == 0 {
        ":"@
    } else {
        "echo \"Chitin: "@ + trimmed(prompt) + "\""@
    }
}

impl CommandGenerator for NoopProvider {
    fn generate(&self, context: Context) -> (generated: Result<String, ProviderError>)
        ensures
            generated matches Ok(command) && command@ == noop_command(context@.prompt),
    {
        let prompt = trim(context.prompt.as_str());
        if prompt.unicode_len() == 0 {
            Ok(String::from_str(":"))
        } else {
            let mut command = String::from_str("echo \"Chitin: ");
            command.append(prompt);
            command.append("\"");
            Ok(command)
        }
    }
}

/// The API base used where none is configured.
pub const DEFAULT_API_BASE: &'static str = "https://api.openai.com";

/// The model used where none is configured.
pub const DEFAULT_MODEL: &'static str = "gpt-4.1-mini";

/// The path of the chat-completions endpoint below the API base.
pub const COMPLETIONS_PATH: &'static str = "/v1/chat/completions";

/// What the model is told about its task.
pub const SYSTEM_PROMPT: &'static str =
    "You are a shell command generator. Return exactly one executable command, no commentary, no markdown.";

/// One message of a chat request.
#[derive(Debug)]
pub struct Message {
    pub role: String,
    pub content: String,
}

/// A chat message as mathematical values.
pub struct MessageView {
    pub role: Seq<char>,
    pub content: Seq<char>,
}

impl View for Message {
    type V = MessageView;

    open spec fn view(&self) -> MessageView {
        MessageView { role: self.role@, content: self.content@ }
    }
}

/// The backend that asks an OpenAI-compatible chat-completions service.
pub struct OpenAiCompatibleProvider {
    base_url: String,
    api_key: String,
    model: String,
}

/// An OpenAI-compatible backend as mathematical values.
pub struct OpenAiView {
    pub base_url: Seq<char>,
    pub api_key: Seq<char>,
    pub model: Seq<char>,
}

impl View for OpenAiCompatibleProvider {
    type V = OpenAiView;

    closed spec fn view(&self) -> OpenAiView {
        OpenAiView { base_url: self.base_url@, api_key: self.api_key@, model: self.model@ }
    }
}

/// The backend that `config` describes, where it holds an API key.
pub open spec fn openai_from(config: ConfigView) -> Option<OpenAiView> {
    match config.api_key {
        None => None,
        Some(api_key) => Some(
            OpenAiView {
                base_url: match config.api_base {
                    Some(base) => base,
                    None => DEFAULT_API_BASE@,
                },
                api_key,
                model: match config.model {
                    Some(model) => model,
                    None => DEFAULT_MODEL@,
                },
            },
        ),
    }
}

/// The facts a model is given besides the task: the working directory,
/// then the last command if there is one, then the recent prompts if there
/// are any.
pub open spec fn prompt_details(context: ContextView) -> Seq<Seq<char>> {
    seq!["pwd: "@ + context.pwd] + (match context.last_command {
        Some(last) => seq!["last_command: "@ + last],
        None => Seq::empty(),
    }) + (if context.history.len() > 0 {
        seq!["recent_prompts: "@ + joined(context.history, " | "@)]
    } else {
        Seq::empty()
    })
}

/// The two messages of a chat request: the fixed system message, and the
/// task with its context.
pub open spec fn prompt_messages(context: ContextView) -> Seq<MessageView> {
    seq![
        MessageView { role: "system"@, content: SYSTEM_PROMPT@ },
        MessageView {
            role: "user"@,
            content: "Task: "@ + context.prompt + "\nContext: "@ + joined(
                prompt_details(context),
                "; "@,
            ),
        },
    ]
}

/// The command in a model's reply: the first line of its content, trimmed.
/// A reply without content gives none, nor does one whose first line is
/// blank.
pub open spec fn command_in(content: Option<Seq<char>>) -> Result<Seq<char>, ProviderError> {
    match content {
        None => Err(ProviderError::MissingContent),
        Some(text) => {
            let command = trimmed(before_first(text, '\n'));
            if command.len() == 0 {
                Err(ProviderError::EmptyCommand)
            } else {
                Ok(command)
            }
        },
    }
}

impl OpenAiCompatibleProvider {
    /// The backend that `config` describes.  It needs an API key; the API
    /// base and the model have defaults.
    pub fn new(config: &Config) -> (built: Result<OpenAiCompatibleProvider, ProviderError>)
        ensures
            match openai_from(config@) {
                Some(view) => built matches Ok(provider) && provider@ == view,
                None => built == Err::<OpenAiCompatibleProvider, ProviderError>(
                    ProviderError::MissingApiKey,
                ),
            },
    {
        let base_url = match &config.provider.openai.api_base {
            Some(base) => base.clone(),
            None => String::from_str(DEFAULT_API_BASE),
        };
        let api_key = match &config.provider.openai.api_key {
            Some(key) => key.clone(),
            None => {
                return Err(ProviderError::MissingApiKey);
            },
        };
        let model = match &config.provider.openai.model {
            Some(model) => model.clone(),
            None => String::from_str(DEFAULT_MODEL),
        };
        Ok(OpenAiCompatibleProvider { base_url, api_key, model })
    }

    /// The key sent as bearer token.
    pub fn api_key(&self) -> (key: &str)
        ensures
            key@ == self@.api_key,
    {
        self.api_key.as_str()
    }

    /// The model asked.
    pub fn model(&self) -> (model: &str)
        ensures
            model@ == self@.model,
    {
        self.model.as_str()
    }

    /// The address of the chat-completions endpoint: the API base without
    /// trailing slashes, then the endpoint's path.
    pub fn endpoint(&self) -> (url: String)
        ensures
            url@ == without_trailing(self@.base_url, '/') + COMPLETIONS_PATH@,
    {
        let mut url = String::from_str(trim_end_matches(self.base_url.as_str(), '/'));
        url.append(COMPLETIONS_PATH);
        url
    }

    /// The messages of the chat request for `context`.
    pub fn build_prompt(&self, context: &Context) -> (messages: Vec<Message>)
        ensures
            messages@.map_values(|m: Message| m@) == prompt_messages(context@),
    {
        let mut pwd = String::from_str("pwd: ");
        pwd.append(context.pwd.as_str());
        let mut details: Vec<String> = Vec::new();
        details.push(pwd);
        let ghost first = details@.map_values(|d: String| d@);
        assert(first =~= seq!["pwd: "@ + context@.pwd]);
        match &context.last_command {
            Some(last) => {
                let mut line = String::from_str("last_command: ");
                line.append(last.as_str());
                details.push(line);
            },
            None => {},
        }
        let ghost second = details@.map_values(|d: String| d@);
        assert(second =~= first + (match context@.last_command {
            Some(last) => seq!["last_command: "@ + last],
            None => Seq::empty(),
        }));
        if context.history.len() > 0 {
            let mut line = String::from_str("recent_prompts: ");
            line.append(join(&context.history, " | ").as_str());
            details.push(line);
        }
        assert(details@.map_values(|d: String| d@) =~= prompt_details(context@));
        let mut content = String::from_str("Task: ");
        content.append(context.prompt.as_str());
        content.append("\nContext: ");
        content.append(join(&details, "; ").as_str());
        let mut messages: Vec<Message> = Vec::new();
        messages.push(
            Message { role: String::from_str("system"), content: String::from_str(SYSTEM_PROMPT) },
        );
        messages.push(Message { role: String::from_str("user"), content });
        assert(messages@.map_values(|m: Message| m@) =~= prompt_messages(context@));
        messages
    }

    /// The command in the content of a model's reply.
    pub fn command_from_content(content: Option<String>) -> (command: Result<
        String,
        ProviderError,
    >)
        ensures
            match command_in(option_view(content)) {
                Ok(text) => command matches Ok(found) && found@ == text,
                Err(error) => command == Err::<String, ProviderError>(error),
            },
    {
        match content {
            None => Err(ProviderError::MissingContent),
            Some(text) => {
                let command = trim(first_line(text.as_str()));
                if command.unicode_len() == 0 {
                    Err(ProviderError::EmptyCommand)
                } else {
                    Ok(String::from_str(command))
                }
            },
        }
    }
}

/// A backend the daemon can be configured with.
pub enum Provider {
    Noop(NoopProvider),
    OpenAi(OpenAiCompatibleProvider),
}

/// A backend as mathematical values.
pub enum ProviderView {
    Noop,
    OpenAi(OpenAiView),
}

impl View for Provider {
    type V = ProviderView;

    open spec fn view(&self) -> ProviderView {
        match self {
            Provider::Noop(_) => ProviderView::Noop,
            Provider::OpenAi(provider) => ProviderView::OpenAi(provider@),
        }
    }
}

/// The backend that `config` selects, or the text of the reason there is
/// none: `openai` and `openai-compatible` select the OpenAI-compatible
/// backend, which needs an API key; `noop` selects the no-op backend; any
/// other name selects nothing.
pub open spec fn provider_for(config: ConfigView) -> Result<ProviderView, Seq<char>> {
    if config.provider_type == "openai"@ || config.provider_type == "openai-compatible"@ {
        match openai_from(config) {
            Some(view) => Ok(ProviderView::OpenAi(view)),
            None => Err(error_message(ProviderError::MissingApiKey)),
        }
    } else if config.provider_type == "noop"@ {
        Ok(ProviderView::Noop)
    } else {
        Err("unknown provider: "@ + config.provider_type)
    }
}

/// Builds the backend that `config` selects.
pub fn build_provider(config: &Config) -> (built: Result<Provider, ProviderError>)
    ensures
        match provider_for(config@) {
            Ok(view) => built matches Ok(provider) && provider@ == view,
            Err(text) => built matches Err(error) && error_message(error) == text,
        },
{
    let name = config.provider.type_.as_str();
    if same(name, "openai") || same(name, "openai-compatible") {
        match OpenAiCompatibleProvider::new(config) {
            Ok(provider) => Ok(Provider::OpenAi(provider)),
            Err(error) => Err(error),
        }
    } else if same(name, "noop") {
        Ok(Provider::Noop(NoopProvider))
    } else {
        Err(ProviderError::UnknownProvider(config.provider.type_.clone()))
    }
}

} // verus!
