//! Daemon configuration: its shape, its defaults, how values from the
//! environment override a file, and which file is read.
use crate::session::option_view;
use vstd::prelude::*;

verus! {

/// Where the daemon listens unless told otherwise.
pub const DEFAULT_SOCKET_PATH: &'static str = "/tmp/chitin.sock";

/// The backend used unless told otherwise.
pub const DEFAULT_PROVIDER_TYPE: &'static str = "openai";

/// Settings of the listening channel.
#[derive(Debug)]
pub struct ServerConfig {
    pub socket_path: String,
}

/// Settings of an OpenAI-compatible backend.
#[derive(Debug)]
pub struct OpenAiConfig {
    pub api_base: Option<String>,
    pub api_key: Option<String>,
    pub model: Option<String>,
}

/// Which backend to use, and its settings.
#[derive(Debug)]
pub struct ProviderConfig {
    pub type_: String,
    pub openai: OpenAiConfig,
}

/// The whole configuration.
#[derive(Debug)]
pub struct Config {
    pub server: ServerConfig,
    pub provider: ProviderConfig,
}

/// A configuration as mathematical values.
pub struct ConfigView {
    pub socket_path: Seq<char>,
    pub provider_type: Seq<char>,
    pub api_base: Option<Seq<char>>,
    pub api_key: Option<Seq<char>>,
    pub model: Option<Seq<char>>,
}

impl View for Config {
    type V = ConfigView;

    open spec fn view(&self) -> ConfigView {
        ConfigView {
            socket_path: self.server.socket_path@,
            provider_type: self.provider.type_@,
            api_base: option_view(self.provider.openai.api_base),
            api_key: option_view(self.provider.openai.api_key),
            model: option_view(self.provider.openai.model),
        }
    }
}

/// The configuration used where nothing is configured.
pub open spec fn default_config() -> ConfigView {
    ConfigView {
        socket_path: DEFAULT_SOCKET_PATH@,
        provider_type: DEFAULT_PROVIDER_TYPE@,
        api_base: None,
        api_key: None,
        model: None,
    }
}

/// The default socket path.
pub fn default_socket_path() -> (path: String)
    ensures
        path@ == DEFAULT_SOCKET_PATH@,
{
    String::from_str(DEFAULT_SOCKET_PATH)
}

/// The default backend.
pub fn default_provider_type() -> (name: String)
    ensures
        name@ == DEFAULT_PROVIDER_TYPE@,
{
    String::from_str(DEFAULT_PROVIDER_TYPE)
}

impl Default for ServerConfig {
    fn default() -> (config: ServerConfig)
        ensures
            config.socket_path@ == DEFAULT_SOCKET_PATH@,
    {
        ServerConfig { socket_path: default_socket_path() }
    }
}

impl Default for OpenAiConfig {
    fn default() -> (config: OpenAiConfig)
        ensures
            config.api_base is None,
            config.api_key is None,
            config.model is None,
    {
        OpenAiConfig { api_base: None, api_key: None, model: None }
    }
}

impl Default for ProviderConfig {
    fn default() -> (config: ProviderConfig)
        ensures
            config.type_@ == DEFAULT_PROVIDER_TYPE@,
            config.openai.api_base is None,
            config.openai.api_key is None,
            config.openai.model is None,
    {
        ProviderConfig {
            type_: default_provider_type(),
            openai: OpenAiConfig { api_base: None, api_key: None, model: None },
        }
    }
}

impl Default for Config {
    fn default() -> (config: Config)
        ensures
            config@ == default_config(),
    {
        Config {
            server: ServerConfig { socket_path: default_socket_path() },
            provider: ProviderConfig {
                type_: default_provider_type(),
                openai: OpenAiConfig { api_base: None, api_key: None, model: None },
            },
        }
    }
}

/// The values found in the environment, one per setting; `None` where the
/// variable is not set.
pub struct EnvOverrides {
    /// `CHITIN_SOCKET_PATH`
    pub socket_path: Option<String>,
    /// `CHITIN_PROVIDER`
    pub provider: Option<String>,
    /// `CHITIN_API_BASE`
    pub api_base: Option<String>,
    /// `CHITIN_API_KEY`
    pub api_key: Option<String>,
    /// `CHITIN_MODEL`
    pub model: Option<String>,
}

/// Environment values as mathematical values.
pub struct EnvView {
    pub socket_path: Option<Seq<char>>,
    pub provider: Option<Seq<char>>,
    pub api_base: Option<Seq<char>>,
    pub api_key: Option<Seq<char>>,
    pub model: Option<Seq<char>>,
}

impl View for EnvOverrides {
    type V = EnvView;

    open spec fn view(&self) -> EnvView {
        EnvView {
            socket_path: option_view(self.socket_path),
            provider: option_view(self.provider),
            api_base: option_view(self.api_base),
            api_key: option_view(self.api_key),
            model: option_view(self.model),
        }
    }
}

/// `config` with each setting replaced by its value from the environment,
/// where there is one.
pub open spec fn merged(config: ConfigView, env: EnvView) -> ConfigView {
    ConfigView {
        socket_path: match env.socket_path {
            Some(path) => path,
            None => config.socket_path,
        },
        provider_type: match env.provider {
            Some(name) => name,
            None => config.provider_type,
        },
        api_base: match env.api_base {
            Some(base) => Some(base),
            None => config.api_base,
        },
        api_key: match env.api_key {
            Some(key) => Some(key),
            None => config.api_key,
        },
        model: match env.model {
            Some(model) => Some(model),
            None => config.model,
        },
    }
}

/// Overrides the settings of `config` with the values set in the
/// environment.
pub fn merge_env_vars(config: &mut Config, env: &EnvOverrides)
    ensures
        final(config)@ == merged(old(config)@, env@),
{
    match &env.socket_path {
        Some(path) => {
            config.server.socket_path = path.clone();
        },
        None => {},
    }
    match &env.provider {
        Some(name) => {
            config.provider.type_ = name.clone();
        },
        None => {},
    }
    match &env.api_base {
        Some(base) => {
            config.provider.openai.api_base = Some(base.clone());
        },
        None => {},
    }
    match &env.api_key {
        Some(key) => {
            config.provider.openai.api_key = Some(key.clone());
        },
        None => {},
    }
    match &env.model {
        Some(model) => {
            config.provider.openai.model = Some(model.clone());
        },
        None => {},
    }
}

/// What became of the configuration file.
pub enum ConfigFile {
    /// No file was chosen, or the chosen file does not exist.
    Absent,
    /// The file could not be read or could not be parsed, for this reason.
    Failed(String),
    /// The file's contents.
    Parsed(Config),
}

/// The view of a configuration, or of the reason there is none.
pub open spec fn outcome_view(outcome: Result<Config, String>) -> Result<ConfigView, Seq<char>> {
    match outcome {
        Ok(config) => Ok(config@),
        Err(reason) => Err(reason@),
    }
}

/// The configuration a file and the environment give together: the file's
/// settings, or the defaults where there is no file, overridden by the
/// environment; a file that fails gives no configuration.
pub open spec fn resolved(file: ConfigFile, env: EnvView) -> Result<ConfigView, Seq<char>> {
    match file {
        ConfigFile::Absent => Ok(merged(default_config(), env)),
        ConfigFile::Failed(reason) => Err(reason@),
        ConfigFile::Parsed(config) => Ok(merged(config@, env)),
    }
}

impl Config {
    /// The configuration from `file` and the environment, or why the file
    /// gave none.
    pub fn load_reload(file: ConfigFile, env: &EnvOverrides) -> (outcome: Result<Config, String>)
        ensures
            outcome_view(outcome) == resolved(file, env@),
    {
        let mut config = match file {
            ConfigFile::Absent => Config::default(),
            ConfigFile::Failed(reason) => {
                return Err(reason);
            },
            ConfigFile::Parsed(config) => config,
        };
        merge_env_vars(&mut config, env);
        Ok(config)
    }

    /// The configuration from `file` and the environment; where the file
    /// gave none, the defaults overridden by the environment.
    pub fn load(file: ConfigFile, env: &EnvOverrides) -> (config: Config)
        ensures
            config@ == match resolved(file, env@) {
                Ok(view) => view,
                Err(_) => merged(default_config(), env@),
            },
    {
        match Config::load_reload(file, env) {
            Ok(config) => config,
            Err(_) => {
                let mut config = Config::default();
                merge_env_vars(&mut config, env);
                config
            },
        }
    }
}

/// A place where a configuration file may lie, and whether one lies there.
pub struct ConfigCandidate {
    pub path: String,
    pub exists: bool,
}

/// The path of the first of `candidates` that exists, if any.
pub open spec fn first_existing(candidates: Seq<ConfigCandidate>) -> Option<Seq<char>>
    decreases candidates.len(),
{
    if candidates.len() == 0 {
        None
    } else if candidates[0].exists {
        Some(candidates[0].path@)
    } else {
        first_existing(candidates.drop_first())
    }
}

/// The configuration file to read: the one named by `CHITIN_CONFIG`,
/// whether it exists or not; else the first of `candidates` that exists.
pub fn get_config_path(env_path: Option<String>, candidates: &Vec<ConfigCandidate>) -> (path:
    Option<String>)
    ensures
        option_view(path) == match env_path {
            Some(named) => Some(named@),
            None => first_existing(candidates@),
        },
{
    match env_path {
        Some(named) => Some(named),
        None => {
            let mut i: usize = 0;
            assert(candidates@.skip(0) =~= candidates@);
            while i < candidates.len()
                invariant
                    env_path is None,
                    i <= candidates@.len(),
                    first_existing(candidates@) == first_existing(candidates@.skip(i as int)),
                decreases candidates@.len() - i,
            {
                assert(candidates@.skip(i as int)[0] == candidates@[i as int]);
                if candidates[i].exists {
                    let found = candidates[i].path.clone();
                    assert(first_existing(candidates@.skip(i as int)) == Some(found@));
                    return Some(found);
                }
                assert(candidates@.skip(i as int).drop_first() =~= candidates@.skip(i + 1));
                i += 1;
            }
            assert(candidates@.skip(i as int).len() == 0);
            None
        },
    }
}

} // verus!
