//! What can go wrong, and how it is said.
use vstd::prelude::*;

verus! {

/// An error of the daemon. What an outside library or the system reported is
/// held as the words in which it did.
#[derive(Debug)]
pub enum GremlinError {
    Config(ConfigError),
    Ollama(OllamaError),
    Tool(String),
    Json(String),
    Io(String),
    Sqlite(String),
}

/// An error in finding or reading the configuration.
#[derive(Debug)]
pub enum ConfigError {
    MissingDir(String),
    MissingField(String),
    Parse(String),
    Io(String),
}

/// An error in talking to Ollama.
#[derive(Debug)]
pub enum OllamaError {
    Unreachable { url: String, detail: String },
    ModelNotFound { model: String },
    Http(String),
}

/// The content of a `GremlinError`.
pub enum ErrorView {
    Config(ConfigErrorView),
    Ollama(OllamaErrorView),
    Tool(Seq<char>),
    Json(Seq<char>),
    Io(Seq<char>),
    Sqlite(Seq<char>),
}

/// The content of a `ConfigError`.
pub enum ConfigErrorView {
    MissingDir(Seq<char>),
    MissingField(Seq<char>),
    Parse(Seq<char>),
    Io(Seq<char>),
}

/// The content of an `OllamaError`.
pub enum OllamaErrorView {
    Unreachable { url: Seq<char>, detail: Seq<char> },
    ModelNotFound { model: Seq<char> },
    Http(Seq<char>),
}

impl View for ConfigError {
    type V = ConfigErrorView;

    open spec fn view(&self) -> ConfigErrorView {
        match self {
            ConfigError::MissingDir(s) => ConfigErrorView::MissingDir(s@),
            ConfigError::MissingField(s) => ConfigErrorView::MissingField(s@),
            ConfigError::Parse(s) => ConfigErrorView::Parse(s@),
            ConfigError::Io(s) => ConfigErrorView::Io(s@),
        }
    }
}

impl View for OllamaError {
    type V = OllamaErrorView;

    open spec fn view(&self) -> OllamaErrorView {
        match self {
            OllamaError::Unreachable { url, detail } => OllamaErrorView::Unreachable {
                url: url@,
                detail: detail@,
            },
            OllamaError::ModelNotFound { model } => OllamaErrorView::ModelNotFound {
                model: model@,
            },
            OllamaError::Http(s) => OllamaErrorView::Http(s@),
        }
    }
}

impl View for GremlinError {
    type V = ErrorView;

    open spec fn view(&self) -> ErrorView {
        match self {
            GremlinError::Config(e) => ErrorView::Config(e@),
            GremlinError::Ollama(e) => ErrorView::Ollama(e@),
            GremlinError::Tool(s) => ErrorView::Tool(s@),
            GremlinError::Json(s) => ErrorView::Json(s@),
            GremlinError::Io(s) => ErrorView::Io(s@),
            GremlinError::Sqlite(s) => ErrorView::Sqlite(s@),
        }
    }
}

/// How a configuration error is said.
pub open spec fn config_message(e: ConfigErrorView) -> Seq<char> {
    match e {
        ConfigErrorView::MissingDir(s) => "missing config dir: "@ + s,
        ConfigErrorView::MissingField(s) => "missing required field: "@ + s,
        ConfigErrorView::Parse(s) => "parse error: "@ + s,
        ConfigErrorView::Io(s) => "io: "@ + s,
    }
}

/// How an Ollama error is said.
pub open spec fn ollama_message(e: OllamaErrorView) -> Seq<char> {
    match e {
        OllamaErrorView::Unreachable { url, detail } => "ollama not reachable at "@ + url + ": "@
            + detail,
        OllamaErrorView::ModelNotFound { model } => "model "@ + model + " not found"@,
        OllamaErrorView::Http(s) => "http: "@ + s,
    }
}

/// How an error is said.
pub open spec fn error_message(e: ErrorView) -> Seq<char> {
    match e {
        ErrorView::Config(c) => "config error: "@ + config_message(c),
        ErrorView::Ollama(o) => "ollama error: "@ + ollama_message(o),
        ErrorView::Tool(s) => "tool error: "@ + s,
        ErrorView::Json(s) => "json error: "@ + s,
        ErrorView::Io(s) => "io error: "@ + s,
        ErrorView::Sqlite(s) => "sqlite error: "@ + s,
    }
}

/// What a tool answered: its output, or its error.
pub type Answer = Result<Seq<char>, ErrorView>;

/// The content of a tool's answer.
pub open spec fn answer(r: Result<String, GremlinError>) -> Answer {
    match r {
        Ok(s) => Ok(s@),
        Err(e) => Err(e@),
    }
}

/// The answer of a tool that failed, with its own words.
pub open spec fn refusal(words: Seq<char>) -> Answer {
    Err(ErrorView::Tool(words))
}

fn prefixed(prefix: &str, s: &str) -> (r: String)
    ensures
        r@ == prefix@ + s@,
{
    let mut r = prefix.to_owned();
    r.append(s);
    r
}

impl ConfigError {
    /// The error in words.
    pub fn message(&self) -> (r: String)
        ensures
            r@ == config_message(self@),
    {
        match self {
            ConfigError::MissingDir(s) => prefixed("missing config dir: ", s.as_str()),
            ConfigError::MissingField(s) => prefixed("missing required field: ", s.as_str()),
            ConfigError::Parse(s) => prefixed("parse error: ", s.as_str()),
            ConfigError::Io(s) => prefixed("io: ", s.as_str()),
        }
    }
}

impl OllamaError {
    /// The error in words.
    pub fn message(&self) -> (r: String)
        ensures
            r@ == ollama_message(self@),
    {
        match self {
            OllamaError::Unreachable { url, detail } => {
                let mut r = prefixed("ollama not reachable at ", url.as_str());
                r.append(": ");
                r.append(detail.as_str());
                r
            },
            OllamaError::ModelNotFound { model } => {
                let mut r = prefixed("model ", model.as_str());
                r.append(" not found");
                r
            },
            OllamaError::Http(s) => prefixed("http: ", s.as_str()),
        }
    }
}

impl GremlinError {
    /// The error in words.
    pub fn message(&self) -> (r: String)
        ensures
            r@ == error_message(self@),
    {
        match self {
            GremlinError::Config(e) => prefixed("config error: ", e.message().as_str()),
            GremlinError::Ollama(e) => prefixed("ollama error: ", e.message().as_str()),
            GremlinError::Tool(s) => prefixed("tool error: ", s.as_str()),
            GremlinError::Json(s) => prefixed("json error: ", s.as_str()),
            GremlinError::Io(s) => prefixed("io error: ", s.as_str()),
            GremlinError::Sqlite(s) => prefixed("sqlite error: ", s.as_str()),
        }
    }

    /// The error of a tool, which says `prefix` and then `detail`.
    pub fn tool(prefix: &str, detail: &str) -> (e: GremlinError)
        ensures
            e@ == ErrorView::Tool(prefix@ + detail@),
    {
        GremlinError::Tool(prefixed(prefix, detail))
    }

    /// The error of a tool, in fixed words.
    pub fn says(words: &str) -> (e: GremlinError)
        ensures
            e@ == ErrorView::Tool(words@),
    {
        GremlinError::Tool(words.to_owned())
    }

    /// An error with the same content.
    pub fn copy(&self) -> (e: GremlinError)
        ensures
            e@ == self@,
    {
        match self {
            GremlinError::Config(ConfigError::MissingDir(s)) => GremlinError::Config(
                ConfigError::MissingDir(s.clone()),
            ),
            GremlinError::Config(ConfigError::MissingField(s)) => GremlinError::Config(
                ConfigError::MissingField(s.clone()),
            ),
            GremlinError::Config(ConfigError::Parse(s)) => GremlinError::Config(
                ConfigError::Parse(s.clone()),
            ),
            GremlinError::Config(ConfigError::Io(s)) => GremlinError::Config(
                ConfigError::Io(s.clone()),
            ),
            GremlinError::Ollama(OllamaError::Unreachable { url, detail }) => GremlinError::Ollama(
                OllamaError::Unreachable { url: url.clone(), detail: detail.clone() },
            ),
            GremlinError::Ollama(OllamaError::ModelNotFound { model }) => GremlinError::Ollama(
                OllamaError::ModelNotFound { model: model.clone() },
            ),
            GremlinError::Ollama(OllamaError::Http(s)) => GremlinError::Ollama(
                OllamaError::Http(s.clone()),
            ),
            GremlinError::Tool(s) => GremlinError::Tool(s.clone()),
            GremlinError::Json(s) => GremlinError::Json(s.clone()),
            GremlinError::Io(s) => GremlinError::Io(s.clone()),
            GremlinError::Sqlite(s) => GremlinError::Sqlite(s.clone()),
        }
    }
}

} // verus!
