//! What a tool needs done by the world, and what the world answers.
//!
//! A tool is a function of its arguments and of the answers so far. It either asks for
//! one more thing or is done. An answer of another kind than was asked for is as good as
//! none: the tool asks again.
use vstd::prelude::*;

use crate::config::Config;
use crate::context::Context;
use crate::desktop::hyprland::{Hyprctl, MonitorInfo, WindowInfo, WorkspaceInfo};
use crate::error::{answer, Answer, ConfigError, GremlinError};
use crate::hermes::{HermesCommand, HermesCommandView, HermesOutcome, PromptTemplate};
use crate::json::text_view;
use crate::process::{Invocation, InvocationView, Outcome};
use crate::sprite::{SpriteCommand, SpriteCommandView};
use crate::tools::memory::{MemoryReply, MemoryRequest, MemoryRequestView};
use crate::tools::system::DirEntry;
use crate::vision::{GenerateRequest, GenerateView, Generation};

verus! {

/// What a tool needs done.
#[derive(Debug)]
pub enum Request {
    /// Read a file.
    ReadFile { path: String },
    /// Write a file, and the directories it stands in.
    WriteFile { path: String, content: String },
    /// Find the working directory.
    CurrentDir,
    /// List a directory, or the working directory.
    ListDir { dir: Option<String> },
    /// Run a program to its end.
    Run(Invocation),
    /// Run a program with this input.
    Feed { invocation: Invocation, input: String },
    /// Run `hyprctl` and read its answer.
    Hyprland { invocation: Invocation, shape: Shape },
    /// Load the configuration.
    LoadConfig,
    /// Ask the vision model.
    Generate(GenerateRequest),
    /// Load the user's prompt templates.
    LoadTemplates,
    /// Gather the context.
    CollectContext,
    /// Make what runs Hermes, and run nothing with it.
    MakeRuntime,
    /// Run Hermes.
    LaunchHermes(HermesCommand),
    /// Ask the memory.
    Memory(MemoryRequest),
    /// Command the sprite.
    Sprite(SpriteCommand),
}

/// What an answer of `hyprctl` is to be read as.
#[derive(Debug, Clone, Copy, PartialEq, Eq, Structural)]
pub enum Shape {
    Window,
    Workspace,
    Workspaces,
    Monitors,
}

/// The content of a `Request`.
pub enum RequestView {
    ReadFile { path: Seq<char> },
    WriteFile { path: Seq<char>, content: Seq<char> },
    CurrentDir,
    ListDir { dir: Option<Seq<char>> },
    Run(InvocationView),
    Feed { invocation: InvocationView, input: Seq<char> },
    Hyprland { invocation: InvocationView, shape: Shape },
    LoadConfig,
    Generate(GenerateView),
    LoadTemplates,
    CollectContext,
    MakeRuntime,
    LaunchHermes(HermesCommandView),
    Memory(MemoryRequestView),
    Sprite(SpriteCommandView),
}

/// What came of running a program with input.
#[derive(Debug)]
pub enum Fed {
    /// It could not be started, for this reason.
    NotStarted(String),
    /// It could not be written to or waited for, for this reason.
    Broken(String),
    /// It ended, with exit status zero or not.
    Ended(bool),
}

/// What came of the request to run Hermes.
#[derive(Debug)]
pub enum HermesReply {
    /// There was no way to run it, for this reason.
    NoRuntime(String),
    /// What was to run it failed.
    Panicked,
    /// It was run.
    Ran(HermesOutcome),
}

/// What came of a command to the sprite.
#[derive(Debug)]
pub enum SpriteReply {
    /// The sprite cannot be reached any more.
    Poisoned,
    /// The sprite said this.
    Said(Result<String, GremlinError>),
}

/// What the world answers.
#[derive(Debug)]
pub enum Reply {
    Content(Result<String, String>),
    Written(Result<(), String>),
    Entries(Result<Vec<Option<DirEntry>>, String>),
    Process(Outcome),
    Fed(Fed),
    Window(Hyprctl<WindowInfo>),
    Workspace(Hyprctl<WorkspaceInfo>),
    Workspaces(Hyprctl<Vec<WorkspaceInfo>>),
    Monitors(Hyprctl<Vec<MonitorInfo>>),
    Config(Result<Config, ConfigError>),
    Generated(Generation),
    Templates(Vec<PromptTemplate>),
    Context(Context),
    Runtime(Result<(), String>),
    Hermes(HermesReply),
    Memory(MemoryReply),
    Sprite(SpriteReply),
}

/// What a tool does next.
#[derive(Debug)]
pub enum Step {
    /// It needs this done.
    Perform(Request),
    /// It is done, with this answer.
    Finish(Result<String, GremlinError>),
}

/// The content of a `Step`.
pub enum StepView {
    Perform(RequestView),
    Finish(Answer),
}

impl View for Request {
    type V = RequestView;

    open spec fn view(&self) -> RequestView {
        match self {
            Request::ReadFile { path } => RequestView::ReadFile { path: path@ },
            Request::WriteFile { path, content } => RequestView::WriteFile {
                path: path@,
                content: content@,
            },
            Request::CurrentDir => RequestView::CurrentDir,
            Request::ListDir { dir } => RequestView::ListDir { dir: text_view(*dir) },
            Request::Run(invocation) => RequestView::Run(invocation@),
            Request::Feed { invocation, input } => RequestView::Feed {
                invocation: invocation@,
                input: input@,
            },
            Request::Hyprland { invocation, shape } => RequestView::Hyprland {
                invocation: invocation@,
                shape: *shape,
            },
            Request::LoadConfig => RequestView::LoadConfig,
            Request::Generate(g) => RequestView::Generate(g@),
            Request::LoadTemplates => RequestView::LoadTemplates,
            Request::CollectContext => RequestView::CollectContext,
            Request::MakeRuntime => RequestView::MakeRuntime,
            Request::LaunchHermes(command) => RequestView::LaunchHermes(command@),
            Request::Memory(m) => RequestView::Memory(m@),
            Request::Sprite(command) => RequestView::Sprite(command@),
        }
    }
}

impl View for Step {
    type V = StepView;

    open spec fn view(&self) -> StepView {
        match self {
            Step::Perform(request) => StepView::Perform(request@),
            Step::Finish(r) => StepView::Finish(answer(*r)),
        }
    }
}

/// The step of a tool that fails with these words.
pub open spec fn refuse_view(words: Seq<char>) -> StepView {
    StepView::Finish(crate::error::refusal(words))
}

/// The step of a tool that fails with these words.
pub fn refuse(words: &str) -> (s: Step)
    ensures
        s@ == refuse_view(words@),
{
    Step::Finish(Err(GremlinError::says(words)))
}

/// What came of running a program, where answer `i` says that.
pub open spec fn process_at(replies: Seq<Reply>, i: int) -> Option<Outcome> {
    if 0 <= i < replies.len() && replies[i] is Process {
        Some(replies[i]->Process_0)
    } else {
        None
    }
}

/// The configuration, where answer `i` says that.
pub open spec fn config_at(replies: Seq<Reply>, i: int) -> Option<Result<Config, ConfigError>> {
    if 0 <= i < replies.len() && replies[i] is Config {
        Some(replies[i]->Config_0)
    } else {
        None
    }
}

/// What came of running a program, where answer `i` says that.
pub fn process_reply(replies: &Vec<Reply>, i: usize) -> (r: Option<&Outcome>)
    ensures
        match r {
            Some(outcome) => process_at(replies@, i as int) == Some(*outcome),
            None => process_at(replies@, i as int) is None,
        },
{
    if i < replies.len() {
        match &replies[i] {
            Reply::Process(outcome) => Some(outcome),
            _ => None,
        }
    } else {
        None
    }
}

/// The configuration, where answer `i` says that.
pub fn config_reply(replies: &Vec<Reply>, i: usize) -> (r: Option<&Result<Config, ConfigError>>)
    ensures
        match r {
            Some(config) => config_at(replies@, i as int) == Some(*config),
            None => config_at(replies@, i as int) is None,
        },
{
    if i < replies.len() {
        match &replies[i] {
            Reply::Config(config) => Some(config),
            _ => None,
        }
    } else {
        None
    }
}

} // verus!
