//! The tools by name: what the model is told of each, and the arguments it takes.
use vstd::prelude::*;

use crate::json::{empty_object, writable, Json, JsonView};

verus! {

/// A tool, by what it does.
#[derive(Debug, Clone, Copy, PartialEq, Eq, Structural)]
pub enum Handler {
    ReadFile,
    WriteFile,
    GitStatus,
    GitDiff,
    GitBranch,
    Pwd,
    ListDir,
    ActiveWindow,
    ActiveWorkspace,
    ListWorkspaces,
    ListMonitors,
    Clipboard,
    ClipboardWrite,
    CargoBuild,
    CargoCheck,
    CargoTest,
    RecentCommands,
    KittyCwd,
    LastExitCode,
    Screenshot,
    LaunchHermes,
    MemoryFact,
    MemoryPref,
    MemorySearch,
    MemoryRecommend,
    MemoryStats,
    SpriteState,
    SpriteStatus,
    SpriteFrame,
    SpriteCurrentFrame,
    SpriteListStates,
}

/// What the model is told of `read_file`.
pub const READ_FILE: &'static str =
    "Read the contents of a file at the given path. Returns the file content or an error.";

/// What the model is told of `write_file`.
pub const WRITE_FILE: &'static str =
    "Write content to a file. Overwrites existing files. Creates parent directories.";

/// What the model is told of `git_status`.
pub const GIT_STATUS: &'static str =
    "Get the current git status of the repository in the current directory.";

/// What the model is told of `git_diff`.
pub const GIT_DIFF: &'static str =
    "Get the current git diff (unstaged changes) in the repository.";

/// What the model is told of `git_branch`.
pub const GIT_BRANCH: &'static str =
    "Get the current git branch name.";

/// What the model is told of `pwd`.
pub const PWD: &'static str =
    "Get the current working directory.";

/// What the model is told of `list_dir`.
pub const LIST_DIR: &'static str =
    "List files and directories in the given path.";

/// What the model is told of `active_window`.
pub const ACTIVE_WINDOW: &'static str =
    "Get the title and class of the currently focused window. Requires Hyprland.";

/// What the model is told of `active_workspace`.
pub const ACTIVE_WORKSPACE: &'static str =
    "Get the currently active Hyprland workspace ID and name.";

/// What the model is told of `list_workspaces`.
pub const LIST_WORKSPACES: &'static str =
    "List all Hyprland workspaces with their window counts.";

/// What the model is told of `list_monitors`.
pub const LIST_MONITORS: &'static str =
    "List all monitors with their resolutions and refresh rates. Requires Hyprland.";

/// What the model is told of `clipboard`.
pub const CLIPBOARD: &'static str =
    "Read the current clipboard text contents.";

/// What the model is told of `clipboard_write`.
pub const CLIPBOARD_WRITE: &'static str =
    "Write text to the system clipboard.";

/// What the model is told of `cargo_build`.
pub const CARGO_BUILD: &'static str =
    "Run `cargo build` and capture compiler output (errors and warnings). Fails gracefully if not in a Rust project.";

/// What the model is told of `cargo_check`.
pub const CARGO_CHECK: &'static str =
    "Run `cargo check` (faster than build, same errors). Captures compiler output.";

/// What the model is told of `cargo_test`.
pub const CARGO_TEST: &'static str =
    "Run `cargo test` and capture test output.";

/// What the model is told of `recent_commands`.
pub const RECENT_COMMANDS: &'static str =
    "Get recent commands from fish shell history. Useful for understanding what the user was doing.";

/// What the model is told of `kitty_cwd`.
pub const KITTY_CWD: &'static str =
    "Get the current working directory of the focused Kitty terminal tab. Falls back to process cwd.";

/// What the model is told of `last_exit_code`.
pub const LAST_EXIT_CODE: &'static str =
    "Get the exit code of the last command run in fish shell. Useful for understanding errors.";

/// What the model is told of `screenshot`.
pub const SCREENSHOT: &'static str =
    "Capture a screenshot and describe what's on screen using the vision model. Useful when the user asks 'what do you see?' or 'look at this error'.";

/// What the model is told of `launch_hermes`.
pub const LAUNCH_HERMES: &'static str =
    "Delegate a coding task to the Hermes coding service. Use this for code review, bug fixes, refactoring, architecture questions, documentation, or any non-trivial code work. Hermes has access to a larger coding model. Available templates: code_review, bug_fix, architecture, refactor, explain, documentation.";

/// What the model is told of `memory_fact`.
pub const MEMORY_FACT: &'static str =
    "Store or retrieve a learned fact about the user/project. Use for things like 'user prefers fish shell', 'project uses Rust 2021 edition', etc.";

/// What the model is told of `memory_pref`.
pub const MEMORY_PREF: &'static str =
    "Store or retrieve a user preference. Use for persistent settings like 'theme=dark', 'editor=vim', 'verbose=false'.";

/// What the model is told of `memory_search`.
pub const MEMORY_SEARCH: &'static str =
    "Search conversation history using full-text search (FTS5). Returns relevant past messages.";

/// What the model is told of `memory_recommend`.
pub const MEMORY_RECOMMEND: &'static str =
    "Add a recommendation for future reference, or list pending actions. Use for 'try this tool', 'refactor that module', etc.";

/// What the model is told of `memory_stats`.
pub const MEMORY_STATS: &'static str =
    "Show memory system statistics (DB size, conversation count, facts, preferences, recommendations).";

/// What the model is told of `sprite_state`.
pub const SPRITE_STATE: &'static str =
    "Set the sprite animation state. Use one_shot=true for transient states (error, wave, celebrate, yawn, wake) that auto-return to idle.";

/// What the model is told of `sprite_status`.
pub const SPRITE_STATUS: &'static str =
    "Get current sprite animation state and frame info.";

/// What the model is told of `sprite_frame`.
pub const SPRITE_FRAME: &'static str =
    "Get a specific frame as base64 PNG for terminal graphics (Kitty protocol).";

/// What the model is told of `sprite_current_frame`.
pub const SPRITE_CURRENT_FRAME: &'static str =
    "Get the current animation frame as base64 PNG for terminal graphics.";

/// What the model is told of `sprite_list_states`.
pub const SPRITE_LIST_STATES: &'static str =
    "List all available animation states with frame counts and FPS.";

/// An argument of a tool.
pub open spec fn argument_view(kind: Seq<char>, description: Seq<char>) -> JsonView {
    JsonView::Object(
        Map::empty().insert("type"@, JsonView::Text(kind)).insert(
            "description"@,
            JsonView::Text(description),
        ),
    )
}

/// An argument of a tool that is one of three words.
pub open spec fn choice_view(
    a: Seq<char>,
    b: Seq<char>,
    c: Seq<char>,
    description: Seq<char>,
) -> JsonView {
    JsonView::Object(
        Map::empty().insert("type"@, JsonView::Text("string"@)).insert(
            "enum"@,
            JsonView::Array(seq![JsonView::Text(a), JsonView::Text(b), JsonView::Text(c)]),
        ).insert("description"@, JsonView::Text(description)),
    )
}

/// What a tool takes that takes no arguments.
pub open spec fn nothing_view() -> JsonView {
    JsonView::Object(
        Map::empty().insert("type"@, JsonView::Text("object"@)).insert(
            "properties"@,
            empty_object(),
        ),
    )
}

/// What a tool takes: these arguments, of which some have to be there.
pub open spec fn arguments_view(
    arguments: Map<Seq<char>, JsonView>,
    required: Seq<JsonView>,
) -> JsonView {
    JsonView::Object(
        Map::empty().insert("type"@, JsonView::Text("object"@)).insert(
            "properties"@,
            JsonView::Object(arguments),
        ).insert("required"@, JsonView::Array(required)),
    )
}

fn argument(kind: &str, description: &str) -> (json: Json)
    ensures
        json@ == argument_view(kind@, description@),
        writable(json),
{
    Json::empty().with("type", Json::text(kind)).with("description", Json::text(description))
}

fn choice(a: &str, b: &str, c: &str, description: &str) -> (json: Json)
    ensures
        json@ == choice_view(a@, b@, c@, description@),
        writable(json),
{
    let mut words: Vec<Json> = Vec::new();
    words.push(Json::text(a));
    words.push(Json::text(b));
    words.push(Json::text(c));
    assert(words@.map_values(|j: Json| j@) =~= seq![
        JsonView::Text(a@),
        JsonView::Text(b@),
        JsonView::Text(c@),
    ]);
    Json::empty().with("type", Json::text("string")).with("enum", Json::array(words)).with(
        "description",
        Json::text(description),
    )
}

fn nothing() -> (json: Json)
    ensures
        json@ == nothing_view(),
        writable(json),
{
    Json::empty().with("type", Json::text("object")).with("properties", Json::empty())
}

fn arguments(properties: Json, required: Vec<Json>) -> (json: Json)
    requires
        properties is Object,
        writable(properties),
        forall|i: int| 0 <= i < required@.len() ==> writable(#[trigger] required@[i]),
    ensures
        json@ == arguments_view(properties@->Object_0, required@.map_values(|j: Json| j@)),
        writable(json),
{
    Json::empty().with("type", Json::text("object")).with("properties", properties).with(
        "required",
        Json::array(required),
    )
}

fn none() -> (v: Vec<Json>)
    ensures
        v@.map_values(|j: Json| j@) == Seq::<JsonView>::empty(),
        v@.len() == 0,
{
    let v: Vec<Json> = Vec::new();
    assert(v@.map_values(|j: Json| j@) =~= Seq::<JsonView>::empty());
    v
}

fn one(a: &str) -> (v: Vec<Json>)
    ensures
        v@.map_values(|j: Json| j@) == seq![JsonView::Text(a@)],
        forall|i: int| 0 <= i < v@.len() ==> writable(#[trigger] v@[i]),
{
    let mut v: Vec<Json> = Vec::new();
    v.push(Json::text(a));
    assert(v@.map_values(|j: Json| j@) =~= seq![JsonView::Text(a@)]);
    v
}

fn two(a: &str, b: &str) -> (v: Vec<Json>)
    ensures
        v@.map_values(|j: Json| j@) == seq![JsonView::Text(a@), JsonView::Text(b@)],
        forall|i: int| 0 <= i < v@.len() ==> writable(#[trigger] v@[i]),
{
    let mut v: Vec<Json> = Vec::new();
    v.push(Json::text(a));
    v.push(Json::text(b));
    assert(v@.map_values(|j: Json| j@) =~= seq![JsonView::Text(a@), JsonView::Text(b@)]);
    v
}

impl Handler {
    /// The name of the tool.
    pub open spec fn name(self) -> Seq<char> {
        match self {
            Handler::ReadFile => "read_file"@,
            Handler::WriteFile => "write_file"@,
            Handler::GitStatus => "git_status"@,
            Handler::GitDiff => "git_diff"@,
            Handler::GitBranch => "git_branch"@,
            Handler::Pwd => "pwd"@,
            Handler::ListDir => "list_dir"@,
            Handler::ActiveWindow => "active_window"@,
            Handler::ActiveWorkspace => "active_workspace"@,
            Handler::ListWorkspaces => "list_workspaces"@,
            Handler::ListMonitors => "list_monitors"@,
            Handler::Clipboard => "clipboard"@,
            Handler::ClipboardWrite => "clipboard_write"@,
            Handler::CargoBuild => "cargo_build"@,
            Handler::CargoCheck => "cargo_check"@,
            Handler::CargoTest => "cargo_test"@,
            Handler::RecentCommands => "recent_commands"@,
            Handler::KittyCwd => "kitty_cwd"@,
            Handler::LastExitCode => "last_exit_code"@,
            Handler::Screenshot => "screenshot"@,
            Handler::LaunchHermes => "launch_hermes"@,
            Handler::MemoryFact => "memory_fact"@,
            Handler::MemoryPref => "memory_pref"@,
            Handler::MemorySearch => "memory_search"@,
            Handler::MemoryRecommend => "memory_recommend"@,
            Handler::MemoryStats => "memory_stats"@,
            Handler::SpriteState => "sprite_state"@,
            Handler::SpriteStatus => "sprite_status"@,
            Handler::SpriteFrame => "sprite_frame"@,
            Handler::SpriteCurrentFrame => "sprite_current_frame"@,
            Handler::SpriteListStates => "sprite_list_states"@,
        }
    }

    /// What the model is told of the tool.
    pub open spec fn description(self) -> Seq<char> {
        match self {
            Handler::ReadFile => READ_FILE@,
            Handler::WriteFile => WRITE_FILE@,
            Handler::GitStatus => GIT_STATUS@,
            Handler::GitDiff => GIT_DIFF@,
            Handler::GitBranch => GIT_BRANCH@,
            Handler::Pwd => PWD@,
            Handler::ListDir => LIST_DIR@,
            Handler::ActiveWindow => ACTIVE_WINDOW@,
            Handler::ActiveWorkspace => ACTIVE_WORKSPACE@,
            Handler::ListWorkspaces => LIST_WORKSPACES@,
            Handler::ListMonitors => LIST_MONITORS@,
            Handler::Clipboard => CLIPBOARD@,
            Handler::ClipboardWrite => CLIPBOARD_WRITE@,
            Handler::CargoBuild => CARGO_BUILD@,
            Handler::CargoCheck => CARGO_CHECK@,
            Handler::CargoTest => CARGO_TEST@,
            Handler::RecentCommands => RECENT_COMMANDS@,
            Handler::KittyCwd => KITTY_CWD@,
            Handler::LastExitCode => LAST_EXIT_CODE@,
            Handler::Screenshot => SCREENSHOT@,
            Handler::LaunchHermes => LAUNCH_HERMES@,
            Handler::MemoryFact => MEMORY_FACT@,
            Handler::MemoryPref => MEMORY_PREF@,
            Handler::MemorySearch => MEMORY_SEARCH@,
            Handler::MemoryRecommend => MEMORY_RECOMMEND@,
            Handler::MemoryStats => MEMORY_STATS@,
            Handler::SpriteState => SPRITE_STATE@,
            Handler::SpriteStatus => SPRITE_STATUS@,
            Handler::SpriteFrame => SPRITE_FRAME@,
            Handler::SpriteCurrentFrame => SPRITE_CURRENT_FRAME@,
            Handler::SpriteListStates => SPRITE_LIST_STATES@,
        }
    }

    /// What the tool takes.
    pub open spec fn parameters(self) -> JsonView {
        match self {
            Handler::ReadFile => arguments_view(
                Map::empty().insert(
                    "path"@,
                    argument_view("string"@, "Absolute or relative path to the file"@),
                ),
                seq![JsonView::Text("path"@)],
            ),
            Handler::WriteFile => arguments_view(
                Map::empty().insert(
                    "path"@,
                    argument_view("string"@, "Absolute or relative path to the file"@),
                ).insert(
                    "content"@,
                    argument_view("string"@, "Content to write"@),
                ),
                seq![JsonView::Text("path"@), JsonView::Text("content"@)],
            ),
            Handler::GitDiff => arguments_view(
                Map::empty().insert(
                    "staged"@,
                    argument_view("boolean"@, "If true, show staged changes instead"@),
                ),
                Seq::empty(),
            ),
            Handler::ListDir => arguments_view(
                Map::empty().insert(
                    "path"@,
                    argument_view("string"@, "Directory path (defaults to current directory)"@),
                ),
                Seq::empty(),
            ),
            Handler::ClipboardWrite => arguments_view(
                Map::empty().insert(
                    "text"@,
                    argument_view("string"@, "Text to write to the clipboard"@),
                ),
                seq![JsonView::Text("text"@)],
            ),
            Handler::CargoBuild => arguments_view(
                Map::empty().insert(
                    "release"@,
                    argument_view("boolean"@, "Build in release mode (default: false)"@),
                ),
                Seq::empty(),
            ),
            Handler::RecentCommands => arguments_view(
                Map::empty().insert(
                    "limit"@,
                    argument_view("integer"@, "Number of commands to return (default: 20, max: 100)"@),
                ),
                Seq::empty(),
            ),
            Handler::Screenshot => arguments_view(
                Map::empty().insert(
                    "prompt"@,
                    argument_view("string"@, "What to look for in the screenshot (e.g. 'Describe the error on screen')"@),
                ),
                Seq::empty(),
            ),
            Handler::LaunchHermes => arguments_view(
                Map::empty().insert(
                    "template"@,
                    argument_view("string"@, "Template name: code_review, bug_fix, architecture, refactor, explain, documentation"@),
                ).insert(
                    "request"@,
                    argument_view("string"@, "The specific coding task or question. Be detailed."@),
                ),
                seq![JsonView::Text("template"@), JsonView::Text("request"@)],
            ),
            Handler::MemoryFact => arguments_view(
                Map::empty().insert(
                    "action"@,
                    choice_view("get"@, "set"@, "list"@, "Operation: get (retrieve), set (store), or list (all facts)"@),
                ).insert(
                    "key"@,
                    argument_view("string"@, "Fact key (e.g. 'shell', 'editor', 'project_type')"@),
                ).insert(
                    "value"@,
                    argument_view("string"@, "Fact value (required for 'set')"@),
                ).insert(
                    "project"@,
                    argument_view("string"@, "Optional project scope (defaults to global)"@),
                ).insert(
                    "confidence"@,
                    argument_view("number"@, "Confidence 0.0-1.0 (default 0.8)"@),
                ).insert(
                    "source"@,
                    argument_view("string"@, "Source: 'conversation', 'explicit', 'observed' (default 'conversation')"@),
                ),
                seq![JsonView::Text("action"@)],
            ),
            Handler::MemoryPref => arguments_view(
                Map::empty().insert(
                    "action"@,
                    choice_view("get"@, "set"@, "list"@, "Operation: get, set, or list"@),
                ).insert(
                    "key"@,
                    argument_view("string"@, "Preference key"@),
                ).insert(
                    "value"@,
                    argument_view("string"@, "Preference value (required for 'set')"@),
                ).insert(
                    "project"@,
                    argument_view("string"@, "Optional project scope"@),
                ).insert(
                    "confidence"@,
                    argument_view("number"@, "Confidence 0.0-1.0 (default 0.9)"@),
                ).insert(
                    "source"@,
                    argument_view("string"@, "Source: 'explicit', 'inferred', 'observed' (default 'explicit')"@),
                ),
                seq![JsonView::Text("action"@)],
            ),
            Handler::MemorySearch => arguments_view(
                Map::empty().insert(
                    "query"@,
                    argument_view("string"@, "Search query (supports FTS5 syntax: 'term', 'term1 term2', '\"exact phrase\"', 'prefix*')"@),
                ).insert(
                    "project"@,
                    argument_view("string"@, "Optional project filter"@),
                ).insert(
                    "limit"@,
                    argument_view("integer"@, "Max results (default 10, max 50)"@),
                ),
                seq![JsonView::Text("query"@)],
            ),
            Handler::MemoryRecommend => arguments_view(
                Map::empty().insert(
                    "action"@,
                    choice_view("add"@, "list"@, "dismiss"@, "Operation"@),
                ).insert(
                    "kind"@,
                    argument_view("string"@, "Kind: 'command', 'tool', 'workflow', 'code_change' (required for 'add')"@),
                ).insert(
                    "title"@,
                    argument_view("string"@, "Short title (required for 'add')"@),
                ).insert(
                    "description"@,
                    argument_view("string"@, "Detailed description (required for 'add')"@),
                ).insert(
                    "confidence"@,
                    argument_view("number"@, "Confidence 0.0-1.0 (default 0.7)"@),
                ).insert(
                    "context"@,
                    argument_view("string"@, "JSON context that triggered this (optional)"@),
                ).insert(
                    "action_json"@,
                    argument_view("string"@, "Tool call JSON if actionable (optional)"@),
                ).insert(
                    "id"@,
                    argument_view("integer"@, "Recommendation ID (required for 'dismiss')"@),
                ),
                seq![JsonView::Text("action"@)],
            ),
            Handler::SpriteState => arguments_view(
                Map::empty().insert(
                    "state"@,
                    argument_view("string"@, "Animation state name: sleep, wake, idle, think, typing, walk, coffee, error, yawn, wave, celebrate, sit"@),
                ).insert(
                    "one_shot"@,
                    argument_view("boolean"@, "If true, auto-return to idle after animation completes (default: false)"@),
                ),
                seq![JsonView::Text("state"@)],
            ),
            Handler::SpriteFrame => arguments_view(
                Map::empty().insert(
                    "state"@,
                    argument_view("string"@, "State name"@),
                ).insert(
                    "frame"@,
                    argument_view("integer"@, "Local frame index within state"@),
                ),
                seq![JsonView::Text("state"@), JsonView::Text("frame"@)],
            ),
            _ => nothing_view(),
        }
    }

    /// The name of the tool.
    pub fn name_text(self) -> (r: &'static str)
        ensures
            r@ == self.name(),
    {
        match self {
            Handler::ReadFile => "read_file",
            Handler::WriteFile => "write_file",
            Handler::GitStatus => "git_status",
            Handler::GitDiff => "git_diff",
            Handler::GitBranch => "git_branch",
            Handler::Pwd => "pwd",
            Handler::ListDir => "list_dir",
            Handler::ActiveWindow => "active_window",
            Handler::ActiveWorkspace => "active_workspace",
            Handler::ListWorkspaces => "list_workspaces",
            Handler::ListMonitors => "list_monitors",
            Handler::Clipboard => "clipboard",
            Handler::ClipboardWrite => "clipboard_write",
            Handler::CargoBuild => "cargo_build",
            Handler::CargoCheck => "cargo_check",
            Handler::CargoTest => "cargo_test",
            Handler::RecentCommands => "recent_commands",
            Handler::KittyCwd => "kitty_cwd",
            Handler::LastExitCode => "last_exit_code",
            Handler::Screenshot => "screenshot",
            Handler::LaunchHermes => "launch_hermes",
            Handler::MemoryFact => "memory_fact",
            Handler::MemoryPref => "memory_pref",
            Handler::MemorySearch => "memory_search",
            Handler::MemoryRecommend => "memory_recommend",
            Handler::MemoryStats => "memory_stats",
            Handler::SpriteState => "sprite_state",
            Handler::SpriteStatus => "sprite_status",
            Handler::SpriteFrame => "sprite_frame",
            Handler::SpriteCurrentFrame => "sprite_current_frame",
            Handler::SpriteListStates => "sprite_list_states",
        }
    }

    /// What the model is told of the tool.
    pub fn description_text(self) -> (r: &'static str)
        ensures
            r@ == self.description(),
    {
        match self {
            Handler::ReadFile => READ_FILE,
            Handler::WriteFile => WRITE_FILE,
            Handler::GitStatus => GIT_STATUS,
            Handler::GitDiff => GIT_DIFF,
            Handler::GitBranch => GIT_BRANCH,
            Handler::Pwd => PWD,
            Handler::ListDir => LIST_DIR,
            Handler::ActiveWindow => ACTIVE_WINDOW,
            Handler::ActiveWorkspace => ACTIVE_WORKSPACE,
            Handler::ListWorkspaces => LIST_WORKSPACES,
            Handler::ListMonitors => LIST_MONITORS,
            Handler::Clipboard => CLIPBOARD,
            Handler::ClipboardWrite => CLIPBOARD_WRITE,
            Handler::CargoBuild => CARGO_BUILD,
            Handler::CargoCheck => CARGO_CHECK,
            Handler::CargoTest => CARGO_TEST,
            Handler::RecentCommands => RECENT_COMMANDS,
            Handler::KittyCwd => KITTY_CWD,
            Handler::LastExitCode => LAST_EXIT_CODE,
            Handler::Screenshot => SCREENSHOT,
            Handler::LaunchHermes => LAUNCH_HERMES,
            Handler::MemoryFact => MEMORY_FACT,
            Handler::MemoryPref => MEMORY_PREF,
            Handler::MemorySearch => MEMORY_SEARCH,
            Handler::MemoryRecommend => MEMORY_RECOMMEND,
            Handler::MemoryStats => MEMORY_STATS,
            Handler::SpriteState => SPRITE_STATE,
            Handler::SpriteStatus => SPRITE_STATUS,
            Handler::SpriteFrame => SPRITE_FRAME,
            Handler::SpriteCurrentFrame => SPRITE_CURRENT_FRAME,
            Handler::SpriteListStates => SPRITE_LIST_STATES,
        }
    }

    /// What the tool takes.
    pub fn parameters_json(self) -> (json: Json)
        ensures
            json@ == self.parameters(),
            writable(json),
    {
        match self {
            Handler::ReadFile => arguments(
                Json::empty().with(
                    "path",
                    argument("string", "Absolute or relative path to the file"),
                ),
                one("path"),
            ),
            Handler::WriteFile => arguments(
                Json::empty().with(
                    "path",
                    argument("string", "Absolute or relative path to the file"),
                ).with(
                    "content",
                    argument("string", "Content to write"),
                ),
                two("path", "content"),
            ),
            Handler::GitDiff => arguments(
                Json::empty().with(
                    "staged",
                    argument("boolean", "If true, show staged changes instead"),
                ),
                none(),
            ),
            Handler::ListDir => arguments(
                Json::empty().with(
                    "path",
                    argument("string", "Directory path (defaults to current directory)"),
                ),
                none(),
            ),
            Handler::ClipboardWrite => arguments(
                Json::empty().with(
                    "text",
                    argument("string", "Text to write to the clipboard"),
                ),
                one("text"),
            ),
            Handler::CargoBuild => arguments(
                Json::empty().with(
                    "release",
                    argument("boolean", "Build in release mode (default: false)"),
                ),
                none(),
            ),
            Handler::RecentCommands => arguments(
                Json::empty().with(
                    "limit",
                    argument("integer", "Number of commands to return (default: 20, max: 100)"),
                ),
                none(),
            ),
            Handler::Screenshot => arguments(
                Json::empty().with(
                    "prompt",
                    argument("string", "What to look for in the screenshot (e.g. 'Describe the error on screen')"),
                ),
                none(),
            ),
            Handler::LaunchHermes => arguments(
                Json::empty().with(
                    "template",
                    argument("string", "Template name: code_review, bug_fix, architecture, refactor, explain, documentation"),
                ).with(
                    "request",
                    argument("string", "The specific coding task or question. Be detailed."),
                ),
                two("template", "request"),
            ),
            Handler::MemoryFact => arguments(
                Json::empty().with(
                    "action",
                    choice("get", "set", "list", "Operation: get (retrieve), set (store), or list (all facts)"),
                ).with(
                    "key",
                    argument("string", "Fact key (e.g. 'shell', 'editor', 'project_type')"),
                ).with(
                    "value",
                    argument("string", "Fact value (required for 'set')"),
                ).with(
                    "project",
                    argument("string", "Optional project scope (defaults to global)"),
                ).with(
                    "confidence",
                    argument("number", "Confidence 0.0-1.0 (default 0.8)"),
                ).with(
                    "source",
                    argument("string", "Source: 'conversation', 'explicit', 'observed' (default 'conversation')"),
                ),
                one("action"),
            ),
            Handler::MemoryPref => arguments(
                Json::empty().with(
                    "action",
                    choice("get", "set", "list", "Operation: get, set, or list"),
                ).with(
                    "key",
                    argument("string", "Preference key"),
                ).with(
                    "value",
                    argument("string", "Preference value (required for 'set')"),
                ).with(
                    "project",
                    argument("string", "Optional project scope"),
                ).with(
                    "confidence",
                    argument("number", "Confidence 0.0-1.0 (default 0.9)"),
                ).with(
                    "source",
                    argument("string", "Source: 'explicit', 'inferred', 'observed' (default 'explicit')"),
                ),
                one("action"),
            ),
            Handler::MemorySearch => arguments(
                Json::empty().with(
                    "query",
                    argument("string", "Search query (supports FTS5 syntax: 'term', 'term1 term2', '\"exact phrase\"', 'prefix*')"),
                ).with(
                    "project",
                    argument("string", "Optional project filter"),
                ).with(
                    "limit",
                    argument("integer", "Max results (default 10, max 50)"),
                ),
                one("query"),
            ),
            Handler::MemoryRecommend => arguments(
                Json::empty().with(
                    "action",
                    choice("add", "list", "dismiss", "Operation"),
                ).with(
                    "kind",
                    argument("string", "Kind: 'command', 'tool', 'workflow', 'code_change' (required for 'add')"),
                ).with(
                    "title",
                    argument("string", "Short title (required for 'add')"),
                ).with(
                    "description",
                    argument("string", "Detailed description (required for 'add')"),
                ).with(
                    "confidence",
                    argument("number", "Confidence 0.0-1.0 (default 0.7)"),
                ).with(
                    "context",
                    argument("string", "JSON context that triggered this (optional)"),
                ).with(
                    "action_json",
                    argument("string", "Tool call JSON if actionable (optional)"),
                ).with(
                    "id",
                    argument("integer", "Recommendation ID (required for 'dismiss')"),
                ),
                one("action"),
            ),
            Handler::SpriteState => arguments(
                Json::empty().with(
                    "state",
                    argument("string", "Animation state name: sleep, wake, idle, think, typing, walk, coffee, error, yawn, wave, celebrate, sit"),
                ).with(
                    "one_shot",
                    argument("boolean", "If true, auto-return to idle after animation completes (default: false)"),
                ),
                one("state"),
            ),
            Handler::SpriteFrame => arguments(
                Json::empty().with(
                    "state",
                    argument("string", "State name"),
                ).with(
                    "frame",
                    argument("integer", "Local frame index within state"),
                ),
                two("state", "frame"),
            ),
            _ => nothing(),
        }
    }
}

} // verus!
