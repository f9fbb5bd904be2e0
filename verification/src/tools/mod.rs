//! The tools that the model can call, by name.
use vstd::prelude::*;

use crate::effect::{Reply, Request, RequestView, Step, StepView};
use crate::error::error_message;
use crate::json::{json_pretty_text, to_pretty_text, writable, Json, JsonView};
use crate::text::same;
use crate::tools::handlers::{handle, handler_step};
use crate::tools::schema::Handler;

pub mod cargo;
pub mod clipboard;
pub mod filesystem;
pub mod git;
pub mod handlers;
pub mod memory;
pub mod progress;
pub mod schema;
pub mod shell;
pub mod system;

verus! {

/// What the model is told of a tool.
#[derive(Debug)]
pub struct Tool {
    pub name: &'static str,
    pub description: &'static str,
    pub parameters: Json,
}

/// The content of a `Tool`.
pub struct ToolView {
    pub name: Seq<char>,
    pub description: Seq<char>,
    pub parameters: JsonView,
}

/// What a tool gave back.
#[derive(Debug)]
pub struct ToolResult {
    pub tool: String,
    pub success: bool,
    pub output: String,
}

/// The content of a `ToolResult`.
pub struct ToolResultView {
    pub tool: Seq<char>,
    pub success: bool,
    pub output: Seq<char>,
}

/// The tools, and what each name stands for.
#[derive(Debug)]
pub struct ToolRegistry {
    tools: Vec<Tool>,
    handlers: Vec<(String, Handler)>,
}

/// The content of a `ToolRegistry`.
pub struct RegistryView {
    pub tools: Seq<ToolView>,
    pub handlers: Map<Seq<char>, Handler>,
}

/// What the execution of a tool comes to.
#[derive(Debug)]
pub enum Execution {
    /// The tool needs this done.
    Perform(Request),
    /// The tool is done.
    Done(ToolResult),
}

/// The content of an `Execution`.
pub enum ExecutionView {
    Perform(RequestView),
    Done(ToolResultView),
}

impl View for Tool {
    type V = ToolView;

    open spec fn view(&self) -> ToolView {
        ToolView {
            name: self.name@,
            description: self.description@,
            parameters: self.parameters@,
        }
    }
}

impl View for ToolResult {
    type V = ToolResultView;

    open spec fn view(&self) -> ToolResultView {
        ToolResultView { tool: self.tool@, success: self.success, output: self.output@ }
    }
}

impl View for Execution {
    type V = ExecutionView;

    open spec fn view(&self) -> ExecutionView {
        match self {
            Execution::Perform(request) => ExecutionView::Perform(request@),
            Execution::Done(result) => ExecutionView::Done(result@),
        }
    }
}

/// What a name stands for among the first `n` registrations: the last counts.
pub open spec fn registered(all: Seq<(String, Handler)>, name: Seq<char>, n: nat) -> Option<Handler>
    decreases n,
{
    if n == 0 {
        None
    } else if all[n - 1].0@ == name {
        Some(all[n - 1].1)
    } else {
        registered(all, name, (n - 1) as nat)
    }
}

/// The contents of tools.
pub open spec fn tools_view(all: Seq<Tool>) -> Seq<ToolView> {
    all.map_values(|t: Tool| t@)
}

impl View for ToolRegistry {
    type V = RegistryView;

    closed spec fn view(&self) -> RegistryView {
        RegistryView {
            tools: tools_view(self.tools@),
            handlers: Map::new(
                |name: Seq<char>| registered(self.handlers@, name, self.handlers@.len()) is Some,
                |name: Seq<char>| registered(self.handlers@, name, self.handlers@.len())->0,
            ),
        }
    }
}

/// A registry without tools.
pub open spec fn no_tools() -> RegistryView {
    RegistryView { tools: Seq::empty(), handlers: Map::empty() }
}

/// What the model is told of a tool.
pub open spec fn tool_of(h: Handler) -> ToolView {
    ToolView { name: h.name(), description: h.description(), parameters: h.parameters() }
}

/// A registry with one more tool, which takes over the name.
pub open spec fn with_tool(r: RegistryView, tool: ToolView, h: Handler) -> RegistryView {
    RegistryView { tools: r.tools.push(tool), handlers: r.handlers.insert(tool.name, h) }
}

/// A registry with the first `n` of some more tools.
pub open spec fn with_tools(r: RegistryView, all: Seq<Handler>, n: nat) -> RegistryView
    decreases n,
{
    if n == 0 {
        r
    } else {
        with_tool(with_tools(r, all, (n - 1) as nat), tool_of(all[n - 1]), all[n - 1])
    }
}

/// The tools that are built in.
pub open spec fn builtin_handlers() -> Seq<Handler> {
    seq![
        Handler::ReadFile,
        Handler::WriteFile,
        Handler::GitStatus,
        Handler::GitDiff,
        Handler::GitBranch,
        Handler::Pwd,
        Handler::ListDir,
        Handler::ActiveWindow,
        Handler::ActiveWorkspace,
        Handler::ListWorkspaces,
        Handler::ListMonitors,
        Handler::Clipboard,
        Handler::ClipboardWrite,
        Handler::CargoBuild,
        Handler::CargoCheck,
        Handler::CargoTest,
        Handler::RecentCommands,
        Handler::KittyCwd,
        Handler::LastExitCode,
        Handler::Screenshot,
        Handler::LaunchHermes,
    ]
}

/// The registry with the built-in tools.
pub open spec fn builtin_registry() -> RegistryView {
    with_tools(no_tools(), builtin_handlers(), builtin_handlers().len())
}

/// What the model is told of a tool, in its prompt.
pub open spec fn tool_entry(t: ToolView) -> Seq<char> {
    "- "@ + t.name + ": "@ + t.description + "\n  Parameters: "@ + json_pretty_text(t.parameters)
        + "\n\n"@
}

/// What the model is told of the first `n` tools.
pub open spec fn tool_entries(all: Seq<ToolView>, n: nat) -> Seq<char>
    decreases n,
{
    if n == 0 {
        "Available tools:\n\n"@
    } else {
        tool_entries(all, (n - 1) as nat) + tool_entry(all[n - 1])
    }
}

/// How a tool is called.
pub const HOW_TO_CALL: &'static str =
    "To use a tool, respond with a JSON block:\n```tool\n{\"tool\": \"<name>\", \"args\": {...}}\n```\n";

/// What the model is told of the tools.
pub open spec fn tools_prompt_of(all: Seq<ToolView>) -> Seq<char> {
    tool_entries(all, all.len()) + HOW_TO_CALL@
}

/// What a step of the tool under this name comes to.
pub open spec fn reported(name: Seq<char>, step: StepView) -> ExecutionView {
    match step {
        StepView::Perform(request) => ExecutionView::Perform(request),
        StepView::Finish(Ok(output)) => ExecutionView::Done(
            ToolResultView { tool: name, success: true, output },
        ),
        StepView::Finish(Err(e)) => ExecutionView::Done(
            ToolResultView { tool: name, success: false, output: error_message(e) },
        ),
    }
}

/// What the execution of a tool comes to, given the answers so far.
pub open spec fn execution(
    r: RegistryView,
    name: Seq<char>,
    args: JsonView,
    replies: Seq<Reply>,
) -> ExecutionView {
    if r.handlers.contains_key(name) {
        reported(name, handler_step(r.handlers[name], args, replies))
    } else {
        ExecutionView::Done(
            ToolResultView { tool: name, success: false, output: "Unknown tool: "@ + name },
        )
    }
}

proof fn lemma_registered_pushed(
    all: Seq<(String, Handler)>,
    entry: (String, Handler),
    name: Seq<char>,
    n: nat,
)
    requires
        n <= all.len(),
    ensures
        registered(all.push(entry), name, n) == registered(all, name, n),
    decreases n,
{
    if n > 0 {
        lemma_registered_pushed(all, entry, name, (n - 1) as nat);
    }
}

fn builtins() -> (all: Vec<Handler>)
    ensures
        all@ == builtin_handlers(),
{
    let mut all: Vec<Handler> = Vec::new();
    all.push(Handler::ReadFile);
    all.push(Handler::WriteFile);
    all.push(Handler::GitStatus);
    all.push(Handler::GitDiff);
    all.push(Handler::GitBranch);
    all.push(Handler::Pwd);
    all.push(Handler::ListDir);
    all.push(Handler::ActiveWindow);
    all.push(Handler::ActiveWorkspace);
    all.push(Handler::ListWorkspaces);
    all.push(Handler::ListMonitors);
    all.push(Handler::Clipboard);
    all.push(Handler::ClipboardWrite);
    all.push(Handler::CargoBuild);
    all.push(Handler::CargoCheck);
    all.push(Handler::CargoTest);
    all.push(Handler::RecentCommands);
    all.push(Handler::KittyCwd);
    all.push(Handler::LastExitCode);
    all.push(Handler::Screenshot);
    all.push(Handler::LaunchHermes);
    assert(all@ =~= builtin_handlers());
    all
}

impl ToolRegistry {
    /// What the registry tells the model of the arguments can be written down: it holds no
    /// fractions.
    pub closed spec fn all_writable(&self) -> bool {
        forall|i: int|
            0 <= i < self.tools@.len() ==> writable((#[trigger] self.tools@[i]).parameters)
    }

    /// The registry with the built-in tools.
    pub fn new() -> (r: ToolRegistry)
        ensures
            r@ == builtin_registry(),
            r.all_writable(),
    {
        let mut registry = ToolRegistry { tools: Vec::new(), handlers: Vec::new() };
        assert(registry@.tools =~= no_tools().tools);
        assert(registry@.handlers =~= no_tools().handlers);
        registry.register_all(&builtins());
        registry
    }

    /// Adds a tool. It takes over the name from a tool that had it.
    pub fn register(
        &mut self,
        name: &'static str,
        description: &'static str,
        parameters: Json,
        handler: Handler,
    )
        ensures
            old(self).all_writable() && writable(parameters) ==> final(self).all_writable(),
            final(self)@ == with_tool(
                old(self)@,
                ToolView {
                    name: name@,
                    description: description@,
                    parameters: parameters@,
                },
                handler,
            ),
    {
        let ghost before = *self;
        self.tools.push(Tool { name, description, parameters });
        self.handlers.push((name.to_owned(), handler));
        proof {
            let tool = ToolView { name: name@, description: description@, parameters: parameters@ };
            assert(self@.tools =~= before@.tools.push(tool));
            assert forall|key: Seq<char>| #[trigger] registered(
                self.handlers@,
                key,
                self.handlers@.len(),
            ) == (if key == name@ {
                Some(handler)
            } else {
                registered(before.handlers@, key, before.handlers@.len())
            }) by {
                assert(self.handlers@ =~= before.handlers@.push(self.handlers@.last()));
                lemma_registered_pushed(
                    before.handlers@,
                    self.handlers@.last(),
                    key,
                    before.handlers@.len(),
                );
            }
            assert(self@.handlers =~= before@.handlers.insert(name@, handler));
        }
    }

    /// Adds tools that are known by what they do.
    pub(crate) fn register_all(&mut self, all: &Vec<Handler>)
        ensures
            old(self).all_writable() ==> final(self).all_writable(),
            final(self)@ == with_tools(old(self)@, all@, all@.len()),
    {
        let mut i: usize = 0;
        while i < all.len()
            invariant
                i <= all@.len(),
                old(self).all_writable() ==> self.all_writable(),
                self@ == with_tools(old(self)@, all@, i as nat),
            decreases all@.len() - i,
        {
            let h: Handler = all[i];
            self.register(h.name_text(), h.description_text(), h.parameters_json(), h);
            i = i + 1;
        }
    }

    /// All tools.
    pub fn tools_schema(&self) -> (r: &Vec<Tool>)
        ensures
            tools_view(r@) == self@.tools,
    {
        &self.tools
    }

    /// What a model without function calling is told of the tools.
    pub fn tools_prompt(&self) -> (r: String)
        requires
            self.all_writable(),
        ensures
            r@ == tools_prompt_of(self@.tools),
    {
        let mut prompt = "Available tools:\n\n".to_owned();
        let mut i: usize = 0;
        while i < self.tools.len()
            invariant
                i <= self.tools@.len(),
                self.all_writable(),
                prompt@ == tool_entries(self@.tools, i as nat),
            decreases self.tools@.len() - i,
        {
            let tool = &self.tools[i];
            let mut entry = "- ".to_owned();
            entry.append(tool.name);
            entry.append(": ");
            entry.append(tool.description);
            entry.append("\n  Parameters: ");
            entry.append(to_pretty_text(&tool.parameters).as_str());
            entry.append("\n\n");
            assert(self@.tools[i as int] == self.tools@[i as int]@);
            assert(entry@ == tool_entry(self@.tools[i as int]));
            prompt.append(entry.as_str());
            i = i + 1;
        }
        assert(self@.tools.len() == self.tools@.len());
        prompt.append(HOW_TO_CALL);
        prompt
    }

    /// What the execution of a tool comes to, given the answers so far.
    pub fn execute(&self, name: &str, args: &Json, replies: &Vec<Reply>) -> (r: Execution)
        ensures
            r@ == execution(self@, name@, args@, replies@),
    {
        let mut n: usize = self.handlers.len();
        while n > 0
            invariant
                n <= self.handlers@.len(),
                registered(self.handlers@, name@, self.handlers@.len()) == registered(
                    self.handlers@,
                    name@,
                    n as nat,
                ),
            decreases n,
        {
            if same(self.handlers[n - 1].0.as_str(), name) {
                assert(self@.handlers.contains_key(name@));
                return match handle(self.handlers[n - 1].1, args, replies) {
                    Step::Perform(request) => Execution::Perform(request),
                    Step::Finish(Ok(output)) => Execution::Done(
                        ToolResult { tool: name.to_owned(), success: true, output },
                    ),
                    Step::Finish(Err(e)) => Execution::Done(
                        ToolResult { tool: name.to_owned(), success: false, output: e.message() },
                    ),
                };
            }
            n = n - 1;
        }
        assert(!self@.handlers.contains_key(name@));
        let mut output = "Unknown tool: ".to_owned();
        output.append(name);
        Execution::Done(ToolResult { tool: name.to_owned(), success: false, output })
    }
}

impl Default for ToolRegistry {
    fn default() -> (r: ToolRegistry)
        ensures
            r@ == builtin_registry(),
            r.all_writable(),
    {
        ToolRegistry::new()
    }
}

/// What tells a name from the others.
spec fn mark(name: Seq<char>) -> (nat, char, char) {
    (
        name.len(),
        name[0],
        if name.len() > 7 {
            name[7]
        } else {
            ' '
        },
    )
}

/// What tells the name of a tool from the others.
spec fn mark_of(h: Handler) -> (nat, char, char) {
    match h {
        Handler::ReadFile => (9, 'r', 'l'),
        Handler::WriteFile => (10, 'w', 'i'),
        Handler::GitStatus => (10, 'g', 't'),
        Handler::GitDiff => (8, 'g', 'f'),
        Handler::GitBranch => (10, 'g', 'n'),
        Handler::Pwd => (3, 'p', ' '),
        Handler::ListDir => (8, 'l', 'r'),
        Handler::ActiveWindow => (13, 'a', 'w'),
        Handler::ActiveWorkspace => (16, 'a', 'w'),
        Handler::ListWorkspaces => (15, 'l', 'r'),
        Handler::ListMonitors => (13, 'l', 'n'),
        Handler::Clipboard => (9, 'c', 'r'),
        Handler::ClipboardWrite => (15, 'c', 'r'),
        Handler::CargoBuild => (11, 'c', 'u'),
        Handler::CargoCheck => (11, 'c', 'h'),
        Handler::CargoTest => (10, 'c', 'e'),
        Handler::RecentCommands => (15, 'r', 'c'),
        Handler::KittyCwd => (9, 'k', 'w'),
        Handler::LastExitCode => (14, 'l', 'i'),
        Handler::Screenshot => (10, 's', 'h'),
        Handler::LaunchHermes => (13, 'l', 'h'),
        Handler::MemoryFact => (11, 'm', 'f'),
        Handler::MemoryPref => (11, 'm', 'p'),
        Handler::MemorySearch => (13, 'm', 's'),
        Handler::MemoryRecommend => (16, 'm', 'r'),
        Handler::MemoryStats => (12, 'm', 's'),
        Handler::SpriteState => (12, 's', 's'),
        Handler::SpriteStatus => (13, 's', 's'),
        Handler::SpriteFrame => (12, 's', 'f'),
        Handler::SpriteCurrentFrame => (20, 's', 'c'),
        Handler::SpriteListStates => (18, 's', 'l'),
    }
}

proof fn lemma_mark(h: Handler)
    ensures
        mark(h.name()) == mark_of(h),
{
    match h {
        Handler::ReadFile => {
            reveal_strlit("read_file");
        },
        Handler::WriteFile => {
            reveal_strlit("write_file");
        },
        Handler::GitStatus => {
            reveal_strlit("git_status");
        },
        Handler::GitDiff => {
            reveal_strlit("git_diff");
        },
        Handler::GitBranch => {
            reveal_strlit("git_branch");
        },
        Handler::Pwd => {
            reveal_strlit("pwd");
        },
        Handler::ListDir => {
            reveal_strlit("list_dir");
        },
        Handler::ActiveWindow => {
            reveal_strlit("active_window");
        },
        Handler::ActiveWorkspace => {
            reveal_strlit("active_workspace");
        },
        Handler::ListWorkspaces => {
            reveal_strlit("list_workspaces");
        },
        Handler::ListMonitors => {
            reveal_strlit("list_monitors");
        },
        Handler::Clipboard => {
            reveal_strlit("clipboard");
        },
        Handler::ClipboardWrite => {
            reveal_strlit("clipboard_write");
        },
        Handler::CargoBuild => {
            reveal_strlit("cargo_build");
        },
        Handler::CargoCheck => {
            reveal_strlit("cargo_check");
        },
        Handler::CargoTest => {
            reveal_strlit("cargo_test");
        },
        Handler::RecentCommands => {
            reveal_strlit("recent_commands");
        },
        Handler::KittyCwd => {
            reveal_strlit("kitty_cwd");
        },
        Handler::LastExitCode => {
            reveal_strlit("last_exit_code");
        },
        Handler::Screenshot => {
            reveal_strlit("screenshot");
        },
        Handler::LaunchHermes => {
            reveal_strlit("launch_hermes");
        },
        Handler::MemoryFact => {
            reveal_strlit("memory_fact");
        },
        Handler::MemoryPref => {
            reveal_strlit("memory_pref");
        },
        Handler::MemorySearch => {
            reveal_strlit("memory_search");
        },
        Handler::MemoryRecommend => {
            reveal_strlit("memory_recommend");
        },
        Handler::MemoryStats => {
            reveal_strlit("memory_stats");
        },
        Handler::SpriteState => {
            reveal_strlit("sprite_state");
        },
        Handler::SpriteStatus => {
            reveal_strlit("sprite_status");
        },
        Handler::SpriteFrame => {
            reveal_strlit("sprite_frame");
        },
        Handler::SpriteCurrentFrame => {
            reveal_strlit("sprite_current_frame");
        },
        Handler::SpriteListStates => {
            reveal_strlit("sprite_list_states");
        },
    }
}

/// No two tools have the same name.
pub proof fn law_tool_names_are_distinct(a: Handler, b: Handler)
    requires
        a.name() == b.name(),
    ensures
        a == b,
{
    lemma_mark(a);
    lemma_mark(b);
}

proof fn lemma_with_tools(r: RegistryView, all: Seq<Handler>, n: nat)
    requires
        n <= all.len(),
    ensures
        with_tools(r, all, n).tools == r.tools + all.take(n as int).map_values(
            |h: Handler| tool_of(h),
        ),
        forall|i: int|
            0 <= i < n ==> with_tools(r, all, n).handlers.contains_pair(
                (#[trigger] all[i]).name(),
                all[i],
            ),
        forall|name: Seq<char>| #[trigger]
            with_tools(r, all, n).handlers.contains_key(name) ==> r.handlers.contains_key(name)
                || exists|i: int| 0 <= i < n && (#[trigger] all[i]).name() == name,
    decreases n,
{
    let after = with_tools(r, all, n);
    if n == 0 {
        assert(all.take(0).map_values(|h: Handler| tool_of(h)) =~= Seq::<ToolView>::empty());
        assert(after.tools =~= r.tools + Seq::<ToolView>::empty());
    } else {
        let m = (n - 1) as nat;
        let before = with_tools(r, all, m);
        lemma_with_tools(r, all, m);
        assert(after.tools =~= r.tools + all.take(n as int).map_values(|h: Handler| tool_of(h)));
        assert forall|i: int| 0 <= i < n implies after.handlers.contains_pair(
            (#[trigger] all[i]).name(),
            all[i],
        ) by {
            if i < m {
                assert(before.handlers.contains_pair(all[i].name(), all[i]));
                if all[i].name() == all[m as int].name() {
                    law_tool_names_are_distinct(all[i], all[m as int]);
                }
            }
        }
        assert forall|name: Seq<char>| #[trigger]
            after.handlers.contains_key(name) implies r.handlers.contains_key(name) || exists|i: int|
            0 <= i < n && (#[trigger] all[i]).name() == name by {
            if name != all[m as int].name() {
                assert(before.handlers.contains_key(name));
            } else {
                assert(all[m as int].name() == name);
            }
        }
    }
}

proof fn lemma_kept(r: RegistryView, all: Seq<Handler>, name: Seq<char>, n: nat)
    requires
        n <= all.len(),
        r.handlers.contains_key(name),
        forall|i: int| 0 <= i < all.len() ==> (#[trigger] all[i]).name() != name,
    ensures
        with_tools(r, all, n).handlers.contains_pair(name, r.handlers[name]),
    decreases n,
{
    if n > 0 {
        lemma_kept(r, all, name, (n - 1) as nat);
    }
}

/// Every built-in tool is listed, in its order, and its name stands for it; no other
/// name stands for anything.
pub proof fn law_builtin_registry(name: Seq<char>, h: Handler)
    ensures
        builtin_registry().tools == builtin_handlers().map_values(|h: Handler| tool_of(h)),
        builtin_registry().tools.len() >= 20,
        builtin_handlers().contains(h) ==> builtin_registry().handlers.contains_pair(h.name(), h),
        builtin_registry().handlers.contains_key(name) ==> exists|i: int|
            0 <= i < builtin_handlers().len() && (#[trigger] builtin_handlers()[i]).name() == name,
{
    let all = builtin_handlers();
    lemma_with_tools(no_tools(), all, all.len());
    assert(all.take(all.len() as int) =~= all);
    assert(builtin_registry().tools =~= all.map_values(|h: Handler| tool_of(h)));
    if all.contains(h) {
        let i = choose|i: int| 0 <= i < all.len() && all[i] == h;
        assert(builtin_registry().handlers.contains_pair(all[i].name(), all[i]));
    }
}

/// Tools that are added keep those that were there, and each is found under its name.
pub proof fn law_added_tools_leave_the_others(r: RegistryView, all: Seq<Handler>, name: Seq<char>)
    requires
        r.handlers.contains_key(name),
        forall|i: int| 0 <= i < all.len() ==> (#[trigger] all[i]).name() != name,
    ensures
        with_tools(r, all, all.len()).handlers.contains_key(name),
        with_tools(r, all, all.len()).handlers[name] == r.handlers[name],
        forall|i: int|
            0 <= i < all.len() ==> with_tools(r, all, all.len()).handlers.contains_pair(
                (#[trigger] all[i]).name(),
                all[i],
            ),
{
    lemma_with_tools(r, all, all.len());
    lemma_kept(r, all, name, all.len());
}

/// The tool that was registered last under a name is the one that is executed, whatever the
/// model is told of it and whatever the name stood for before. Every other name goes on
/// standing for what it stood for.
pub proof fn law_last_registered_tool_is_executed(
    r: RegistryView,
    tool: ToolView,
    h: Handler,
    name: Seq<char>,
    args: JsonView,
    replies: Seq<Reply>,
)
    ensures
        execution(with_tool(r, tool, h), tool.name, args, replies) == reported(
            tool.name,
            handler_step(h, args, replies),
        ),
        name != tool.name ==> execution(with_tool(r, tool, h), name, args, replies) == execution(
            r,
            name,
            args,
            replies,
        ),
{
}

/// A name that stands for no tool is refused at once, whatever the arguments and the
/// answers are.
pub proof fn law_unknown_tool_is_refused(
    r: RegistryView,
    name: Seq<char>,
    args: JsonView,
    replies: Seq<Reply>,
)
    requires
        !r.handlers.contains_key(name),
    ensures
        execution(r, name, args, replies) == ExecutionView::Done(
            ToolResultView { tool: name, success: false, output: "Unknown tool: "@ + name },
        ),
{
}

/// Every tool has a description.
pub proof fn law_every_tool_is_described(h: Handler)
    ensures
        h.description().len() > 0,
{
    match h {
        Handler::ReadFile => {
            reveal_strlit(
                "Read the contents of a file at the given path. Returns the file content or an error.",
            );
        },
        Handler::WriteFile => {
            reveal_strlit(
                "Write content to a file. Overwrites existing files. Creates parent directories.",
            );
        },
        Handler::GitStatus => {
            reveal_strlit(
                "Get the current git status of the repository in the current directory.",
            );
        },
        Handler::GitDiff => {
            reveal_strlit(
                "Get the current git diff (unstaged changes) in the repository.",
            );
        },
        Handler::GitBranch => {
            reveal_strlit(
                "Get the current git branch name.",
            );
        },
        Handler::Pwd => {
            reveal_strlit(
                "Get the current working directory.",
            );
        },
        Handler::ListDir => {
            reveal_strlit(
                "List files and directories in the given path.",
            );
        },
        Handler::ActiveWindow => {
            reveal_strlit(
                "Get the title and class of the currently focused window. Requires Hyprland.",
            );
        },
        Handler::ActiveWorkspace => {
            reveal_strlit(
                "Get the currently active Hyprland workspace ID and name.",
            );
        },
        Handler::ListWorkspaces => {
            reveal_strlit(
                "List all Hyprland workspaces with their window counts.",
            );
        },
        Handler::ListMonitors => {
            reveal_strlit(
                "List all monitors with their resolutions and refresh rates. Requires Hyprland.",
            );
        },
        Handler::Clipboard => {
            reveal_strlit(
                "Read the current clipboard text contents.",
            );
        },
        Handler::ClipboardWrite => {
            reveal_strlit(
                "Write text to the system clipboard.",
            );
        },
        Handler::CargoBuild => {
            reveal_strlit(
                "Run `cargo build` and capture compiler output (errors and warnings). Fails gracefully if not in a Rust project.",
            );
        },
        Handler::CargoCheck => {
            reveal_strlit(
                "Run `cargo check` (faster than build, same errors). Captures compiler output.",
            );
        },
        Handler::CargoTest => {
            reveal_strlit(
                "Run `cargo test` and capture test output.",
            );
        },
        Handler::RecentCommands => {
            reveal_strlit(
                "Get recent commands from fish shell history. Useful for understanding what the user was doing.",
            );
        },
        Handler::KittyCwd => {
            reveal_strlit(
                "Get the current working directory of the focused Kitty terminal tab. Falls back to process cwd.",
            );
        },
        Handler::LastExitCode => {
            reveal_strlit(
                "Get the exit code of the last command run in fish shell. Useful for understanding errors.",
            );
        },
        Handler::Screenshot => {
            reveal_strlit(
                "Capture a screenshot and describe what's on screen using the vision model. Useful when the user asks 'what do you see?' or 'look at this error'.",
            );
        },
        Handler::LaunchHermes => {
            reveal_strlit(
                "Delegate a coding task to the Hermes coding service. Use this for code review, bug fixes, refactoring, architecture questions, documentation, or any non-trivial code work. Hermes has access to a larger coding model. Available templates: code_review, bug_fix, architecture, refactor, explain, documentation.",
            );
        },
        Handler::MemoryFact => {
            reveal_strlit(
                "Store or retrieve a learned fact about the user/project. Use for things like 'user prefers fish shell', 'project uses Rust 2021 edition', etc.",
            );
        },
        Handler::MemoryPref => {
            reveal_strlit(
                "Store or retrieve a user preference. Use for persistent settings like 'theme=dark', 'editor=vim', 'verbose=false'.",
            );
        },
        Handler::MemorySearch => {
            reveal_strlit(
                "Search conversation history using full-text search (FTS5). Returns relevant past messages.",
            );
        },
        Handler::MemoryRecommend => {
            reveal_strlit(
                "Add a recommendation for future reference, or list pending actions. Use for 'try this tool', 'refactor that module', etc.",
            );
        },
        Handler::MemoryStats => {
            reveal_strlit(
                "Show memory system statistics (DB size, conversation count, facts, preferences, recommendations).",
            );
        },
        Handler::SpriteState => {
            reveal_strlit(
                "Set the sprite animation state. Use one_shot=true for transient states (error, wave, celebrate, yawn, wake) that auto-return to idle.",
            );
        },
        Handler::SpriteStatus => {
            reveal_strlit(
                "Get current sprite animation state and frame info.",
            );
        },
        Handler::SpriteFrame => {
            reveal_strlit(
                "Get a specific frame as base64 PNG for terminal graphics (Kitty protocol).",
            );
        },
        Handler::SpriteCurrentFrame => {
            reveal_strlit(
                "Get the current animation frame as base64 PNG for terminal graphics.",
            );
        },
        Handler::SpriteListStates => {
            reveal_strlit(
                "List all available animation states with frame counts and FPS.",
            );
        },
    }
}

/// What a tool gives back names the tool.
pub proof fn law_result_names_the_tool(
    r: RegistryView,
    name: Seq<char>,
    args: JsonView,
    replies: Seq<Reply>,
)
    ensures
        execution(r, name, args, replies) matches ExecutionView::Done(result) ==> result.tool
            == name,
{
}

} // verus!
