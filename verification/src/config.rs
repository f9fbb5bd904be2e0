//! The configuration.
use vstd::prelude::*;

use crate::error::{ConfigError, ConfigErrorView};
use crate::json::text_view;

verus! {

/// The configuration. The temperature of the model is a fraction and is kept by
/// the program around this library.
#[derive(Debug)]
pub struct Config {
    /// The small model for conversation and routing.
    pub model: ModelConfig,
    /// The connection to Ollama.
    pub ollama: OllamaConfig,
    /// The coding service.
    pub hermes: Option<HermesConfig>,
    /// The vision model, for screenshots.
    pub vision: Option<VisionConfig>,
    /// The sprite.
    pub sprite: Option<SpriteConfig>,
    /// What is remembered of the user's preferences.
    pub preferences: Preferences,
}

/// The small model.
#[derive(Debug)]
pub struct ModelConfig {
    pub name: String,
    /// What sets the personality.
    pub system_prompt: String,
    /// How long the model stays loaded after a request.
    pub keep_alive: Option<String>,
}

/// The connection to Ollama.
#[derive(Debug)]
pub struct OllamaConfig {
    pub url: String,
    /// The largest context for the small model.
    pub context_size: usize,
    /// How long a model stays loaded where the request does not say it.
    pub keep_alive: Option<String>,
}

/// The coding service.
#[derive(Debug)]
pub struct HermesConfig {
    /// The program that is run.
    pub binary: String,
    pub coding_model: String,
}

/// The vision model.
#[derive(Debug)]
pub struct VisionConfig {
    pub model: String,
}

/// The sprite.
#[derive(Debug)]
pub struct SpriteConfig {
    /// The directory of the sprite sheet.
    pub assets_dir: String,
    /// The animation it starts with.
    pub initial_state: String,
}

/// What is remembered of the user's preferences.
#[derive(Debug)]
pub struct Preferences {
    pub preferred_coding_model: Option<String>,
    pub shell: Option<String>,
    pub terminal: Option<String>,
    pub desktop: Option<String>,
    pub theme: Option<String>,
    pub current_project: Option<String>,
}

/// What was found of the configuration on disk.
#[derive(Debug)]
pub enum ConfigFile {
    /// The system has no directory for configurations.
    NoDirectory,
    /// There is no file.
    Absent,
    /// The file could not be read, for this reason.
    Unreadable(String),
    /// The file is not a configuration, for this reason.
    Malformed(String),
    /// The file holds this.
    Read(Config),
}

pub const DEFAULT_MODEL: &'static str = "llama3.2:3b";

pub const DEFAULT_OLLAMA_URL: &'static str = "http://localhost:11434";

pub const DEFAULT_CONTEXT_SIZE: usize = 8192;

pub const DEFAULT_HERMES_BINARY: &'static str = "hermes";

pub const DEFAULT_VISION_MODEL: &'static str = "llama3.2-vision:11b";

pub const DEFAULT_ASSETS_DIR: &'static str = "assets/sprites";

pub const DEFAULT_STATE: &'static str = "idle";

/// No preference is known.
pub open spec fn no_preferences(p: Preferences) -> bool {
    &&& p.preferred_coding_model is None
    &&& p.shell is None
    &&& p.terminal is None
    &&& p.desktop is None
    &&& p.theme is None
    &&& p.current_project is None
}

/// The configuration without a file, with this system prompt.
pub open spec fn is_default(c: Config, system_prompt: Seq<char>) -> bool {
    &&& c.model.name@ == DEFAULT_MODEL@
    &&& c.model.system_prompt@ == system_prompt
    &&& c.model.keep_alive is None
    &&& c.ollama.url@ == DEFAULT_OLLAMA_URL@
    &&& c.ollama.context_size == DEFAULT_CONTEXT_SIZE
    &&& c.ollama.keep_alive is None
    &&& c.hermes is None
    &&& c.vision is None
    &&& c.sprite is None
    &&& no_preferences(c.preferences)
}

/// The vision model of a configuration.
pub open spec fn vision_model_of(c: Config) -> Seq<char> {
    match c.vision {
        Some(v) => v.model@,
        None => DEFAULT_VISION_MODEL@,
    }
}

impl Config {
    /// The configuration, given what was found on disk. Without a file it is the
    /// default one, with the given system prompt.
    pub fn load(found: ConfigFile, system_prompt: &str) -> (r: Result<Config, ConfigError>)
        ensures
            match found {
                ConfigFile::NoDirectory => r matches Err(e) && e@ == ConfigErrorView::MissingDir(
                    "XDG_CONFIG_HOME not set"@,
                ),
                ConfigFile::Absent => r matches Ok(c) && is_default(c, system_prompt@),
                ConfigFile::Unreadable(detail) => r matches Err(e) && e@ == ConfigErrorView::Io(
                    detail@,
                ),
                ConfigFile::Malformed(detail) => r matches Err(e) && e@ == ConfigErrorView::Parse(
                    detail@,
                ),
                ConfigFile::Read(config) => r matches Ok(c) && c == config,
            },
    {
        match found {
            ConfigFile::NoDirectory => Err(
                ConfigError::MissingDir("XDG_CONFIG_HOME not set".to_owned()),
            ),
            ConfigFile::Absent => Ok(Config::default(system_prompt)),
            ConfigFile::Unreadable(detail) => Err(ConfigError::Io(detail)),
            ConfigFile::Malformed(detail) => Err(ConfigError::Parse(detail)),
            ConfigFile::Read(config) => Ok(config),
        }
    }

    /// The configuration without a file, with this system prompt.
    pub fn default(system_prompt: &str) -> (c: Config)
        ensures
            is_default(c, system_prompt@),
    {
        Config {
            model: ModelConfig {
                name: DEFAULT_MODEL.to_owned(),
                system_prompt: system_prompt.to_owned(),
                keep_alive: None,
            },
            ollama: OllamaConfig {
                url: DEFAULT_OLLAMA_URL.to_owned(),
                context_size: DEFAULT_CONTEXT_SIZE,
                keep_alive: None,
            },
            hermes: None,
            vision: None,
            sprite: None,
            preferences: Preferences::default(),
        }
    }

    /// The model that describes screenshots.
    pub fn vision_model(&self) -> (r: String)
        ensures
            r@ == vision_model_of(*self),
    {
        match &self.vision {
            Some(v) => v.model.clone(),
            None => DEFAULT_VISION_MODEL.to_owned(),
        }
    }
}

impl SpriteConfig {
    /// The sprite without a configuration of its own.
    pub fn default() -> (c: SpriteConfig)
        ensures
            c.assets_dir@ == DEFAULT_ASSETS_DIR@,
            c.initial_state@ == DEFAULT_STATE@,
    {
        SpriteConfig {
            assets_dir: DEFAULT_ASSETS_DIR.to_owned(),
            initial_state: DEFAULT_STATE.to_owned(),
        }
    }
}

impl Preferences {
    /// No preference is known.
    pub fn default() -> (p: Preferences)
        ensures
            no_preferences(p),
    {
        Preferences {
            preferred_coding_model: None,
            shell: None,
            terminal: None,
            desktop: None,
            theme: None,
            current_project: None,
        }
    }
}

/// An optional text with the same content.
pub fn copy_text(t: &Option<String>) -> (r: Option<String>)
    ensures
        text_view(r) == text_view(*t),
{
    match t {
        Some(s) => Some(s.clone()),
        None => None,
    }
}

} // verus!
