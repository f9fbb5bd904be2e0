//! What the model is told of the tools.
use vstd::prelude::*;

use crate::json::{json_pretty_text, member, JsonView};
use crate::sprite::sprite_handlers;
use crate::text::{lemma_occurs_between, occurs, occurs_at};
use crate::tools::memory::memory_handlers;
use crate::tools::schema::Handler;
use crate::tools::{
    builtin_handlers, builtin_registry, law_builtin_registry, tool_entries, tool_entry,
    tools_prompt_of, ToolView,
};

verus! {

/// The tool says that it takes this argument, of this type.
pub open spec fn declares(h: Handler, name: Seq<char>, kind: Seq<char>) -> bool {
    member(h.parameters(), "properties"@) matches Some(properties) && (member(properties, name)
        matches Some(argument) && member(argument, "type"@) == Some(JsonView::Text(kind)))
}

/// The tool says that these arguments have to be there.
pub open spec fn demands(h: Handler, names: Seq<JsonView>) -> bool {
    member(h.parameters(), "required"@) == Some(JsonView::Array(names))
}

/// The words that a tool takes as its action.
pub open spec fn offers(h: Handler, words: Seq<JsonView>) -> bool {
    member(h.parameters(), "properties"@) matches Some(properties) && (member(
        properties,
        "action"@,
    ) matches Some(argument) && member(argument, "enum"@) == Some(JsonView::Array(words)))
}

proof fn lemma_keys_of_schemas()
    ensures
        "type"@ != "properties"@,
        "type"@ != "required"@,
        "properties"@ != "required"@,
        "type"@ != "description"@,
        "type"@ != "enum"@,
        "enum"@ != "description"@,
{
    reveal_strlit("type");
    reveal_strlit("properties");
    reveal_strlit("required");
    reveal_strlit("description");
    reveal_strlit("enum");
    assert("type"@.len() == 4 && "properties"@.len() == 10 && "required"@.len() == 8
        && "description"@.len() == 11 && "enum"@.len() == 4);
    assert("type"@[0] != "enum"@[0]);
}

/// The tools for files, for git, for directories, for the clipboard, for cargo, for the
/// history, for screenshots and for Hermes say which arguments they read and which of them
/// they cannot do without.
pub proof fn law_tools_say_what_they_take()
    ensures
        declares(Handler::ReadFile, "path"@, "string"@),
        demands(Handler::ReadFile, seq![JsonView::Text("path"@)]),
        declares(Handler::WriteFile, "path"@, "string"@),
        declares(Handler::WriteFile, "content"@, "string"@),
        demands(Handler::WriteFile, seq![JsonView::Text("path"@), JsonView::Text("content"@)]),
        declares(Handler::GitDiff, "staged"@, "boolean"@),
        demands(Handler::GitDiff, Seq::empty()),
        declares(Handler::ListDir, "path"@, "string"@),
        demands(Handler::ListDir, Seq::empty()),
        declares(Handler::ClipboardWrite, "text"@, "string"@),
        demands(Handler::ClipboardWrite, seq![JsonView::Text("text"@)]),
        declares(Handler::CargoBuild, "release"@, "boolean"@),
        demands(Handler::CargoBuild, Seq::empty()),
        declares(Handler::RecentCommands, "limit"@, "integer"@),
        demands(Handler::RecentCommands, Seq::empty()),
        declares(Handler::Screenshot, "prompt"@, "string"@),
        demands(Handler::Screenshot, Seq::empty()),
        declares(Handler::LaunchHermes, "template"@, "string"@),
        declares(Handler::LaunchHermes, "request"@, "string"@),
        demands(
            Handler::LaunchHermes,
            seq![JsonView::Text("template"@), JsonView::Text("request"@)],
        ),
{
    lemma_keys_of_schemas();
    reveal_strlit("path");
    reveal_strlit("content");
    reveal_strlit("template");
    reveal_strlit("request");
    assert("path"@.len() != "content"@.len());
    assert("template"@.len() != "request"@.len());
}

/// The tools for the memory say which arguments they read, which actions they know, and which
/// arguments they cannot do without.
pub proof fn law_memory_tools_say_what_they_take(h: Handler)
    requires
        h == Handler::MemoryFact || h == Handler::MemoryPref,
    ensures
        declares(h, "action"@, "string"@),
        offers(h, seq![JsonView::Text("get"@), JsonView::Text("set"@), JsonView::Text("list"@)]),
        declares(h, "key"@, "string"@),
        declares(h, "value"@, "string"@),
        declares(h, "project"@, "string"@),
        declares(h, "confidence"@, "number"@),
        declares(h, "source"@, "string"@),
        demands(h, seq![JsonView::Text("action"@)]),
{
    lemma_keys_of_schemas();
    reveal_strlit("action");
    reveal_strlit("key");
    reveal_strlit("value");
    reveal_strlit("project");
    reveal_strlit("confidence");
    reveal_strlit("source");
    assert("action"@.len() == 6 && "key"@.len() == 3 && "value"@.len() == 5 && "project"@.len() == 7
        && "confidence"@.len() == 10 && "source"@.len() == 6);
    assert("action"@[0] != "source"@[0]);
}

/// The tools for the search and for recommendations say which arguments they read, which
/// actions they know, and which arguments they cannot do without.
pub proof fn law_other_memory_tools_say_what_they_take()
    ensures
        declares(Handler::MemorySearch, "query"@, "string"@),
        declares(Handler::MemorySearch, "project"@, "string"@),
        declares(Handler::MemorySearch, "limit"@, "integer"@),
        demands(Handler::MemorySearch, seq![JsonView::Text("query"@)]),
        declares(Handler::MemoryRecommend, "action"@, "string"@),
        offers(
            Handler::MemoryRecommend,
            seq![JsonView::Text("add"@), JsonView::Text("list"@), JsonView::Text("dismiss"@)],
        ),
        declares(Handler::MemoryRecommend, "kind"@, "string"@),
        declares(Handler::MemoryRecommend, "title"@, "string"@),
        declares(Handler::MemoryRecommend, "description"@, "string"@),
        declares(Handler::MemoryRecommend, "confidence"@, "number"@),
        declares(Handler::MemoryRecommend, "context"@, "string"@),
        declares(Handler::MemoryRecommend, "action_json"@, "string"@),
        declares(Handler::MemoryRecommend, "id"@, "integer"@),
        demands(Handler::MemoryRecommend, seq![JsonView::Text("action"@)]),
{
    lemma_keys_of_schemas();
    reveal_strlit("query");
    reveal_strlit("project");
    reveal_strlit("limit");
    reveal_strlit("action");
    reveal_strlit("kind");
    reveal_strlit("title");
    reveal_strlit("description");
    reveal_strlit("confidence");
    reveal_strlit("context");
    reveal_strlit("action_json");
    reveal_strlit("id");
    assert("query"@.len() == 5 && "project"@.len() == 7 && "limit"@.len() == 5);
    assert("query"@[0] != "limit"@[0]);
    assert("action"@.len() == 6 && "kind"@.len() == 4 && "title"@.len() == 5 && "description"@.len()
        == 11 && "confidence"@.len() == 10 && "context"@.len() == 7 && "action_json"@.len() == 11
        && "id"@.len() == 2);
    assert("description"@[0] != "action_json"@[0]);
}

/// The tools for the sprite say which arguments they read and which of them they cannot do
/// without.
pub proof fn law_sprite_tools_say_what_they_take()
    ensures
        declares(Handler::SpriteState, "state"@, "string"@),
        declares(Handler::SpriteState, "one_shot"@, "boolean"@),
        demands(Handler::SpriteState, seq![JsonView::Text("state"@)]),
        declares(Handler::SpriteFrame, "state"@, "string"@),
        declares(Handler::SpriteFrame, "frame"@, "integer"@),
        demands(Handler::SpriteFrame, seq![JsonView::Text("state"@), JsonView::Text("frame"@)]),
{
    lemma_keys_of_schemas();
    reveal_strlit("state");
    reveal_strlit("one_shot");
    reveal_strlit("frame");
    assert("state"@.len() == 5 && "one_shot"@.len() == 8 && "frame"@.len() == 5);
    assert("state"@[0] != "frame"@[0]);
}

/// The other tools say that they take nothing.
pub proof fn law_tools_without_arguments(h: Handler)
    requires
        h == Handler::GitStatus || h == Handler::GitBranch || h == Handler::Pwd || h
            == Handler::ActiveWindow || h == Handler::ActiveWorkspace || h
            == Handler::ListWorkspaces || h == Handler::ListMonitors || h == Handler::Clipboard || h
            == Handler::CargoCheck || h == Handler::CargoTest || h == Handler::KittyCwd || h
            == Handler::LastExitCode || h == Handler::MemoryStats || h == Handler::SpriteStatus || h
            == Handler::SpriteCurrentFrame || h == Handler::SpriteListStates,
    ensures
        member(h.parameters(), "properties"@) == Some(JsonView::Object(Map::empty())),
        member(h.parameters(), "required"@) is None,
{
    lemma_keys_of_schemas();
}

/// Every tool says that its arguments are the members of an object.
pub proof fn law_arguments_are_members(h: Handler)
    ensures
        member(h.parameters(), "type"@) == Some(JsonView::Text("object"@)),
        member(h.parameters(), "properties"@) matches Some(JsonView::Object(_)),
{
    lemma_keys_of_schemas();
}

/// The name stands for the tool, among the tools that are built in.
pub open spec fn stands_for(name: Seq<char>, h: Handler) -> bool {
    builtin_registry().handlers.contains_key(name) && builtin_registry().handlers[name] == h
}

/// The tools that are built in go by these names.
pub proof fn law_builtin_tools_go_by_their_names()
    ensures
        stands_for("read_file"@, Handler::ReadFile),
        stands_for("write_file"@, Handler::WriteFile),
        stands_for("git_status"@, Handler::GitStatus),
        stands_for("git_diff"@, Handler::GitDiff),
        stands_for("git_branch"@, Handler::GitBranch),
        stands_for("pwd"@, Handler::Pwd),
        stands_for("list_dir"@, Handler::ListDir),
        stands_for("active_window"@, Handler::ActiveWindow),
        stands_for("active_workspace"@, Handler::ActiveWorkspace),
        stands_for("list_workspaces"@, Handler::ListWorkspaces),
        stands_for("list_monitors"@, Handler::ListMonitors),
        stands_for("clipboard"@, Handler::Clipboard),
        stands_for("clipboard_write"@, Handler::ClipboardWrite),
        stands_for("cargo_build"@, Handler::CargoBuild),
        stands_for("cargo_check"@, Handler::CargoCheck),
        stands_for("cargo_test"@, Handler::CargoTest),
        stands_for("recent_commands"@, Handler::RecentCommands),
        stands_for("kitty_cwd"@, Handler::KittyCwd),
        stands_for("last_exit_code"@, Handler::LastExitCode),
        stands_for("screenshot"@, Handler::Screenshot),
        stands_for("launch_hermes"@, Handler::LaunchHermes),
{
    let all = builtin_handlers();
    assert forall|i: int| 0 <= i < all.len() implies stands_for(
        (#[trigger] all[i]).name(),
        all[i],
    ) by {
        assert(all.contains(all[i]));
        law_builtin_registry(all[i].name(), all[i]);
    }
    assert(all[0] == Handler::ReadFile && all[1] == Handler::WriteFile && all[2]
        == Handler::GitStatus && all[3] == Handler::GitDiff && all[4] == Handler::GitBranch);
    assert(all[5] == Handler::Pwd && all[6] == Handler::ListDir && all[7] == Handler::ActiveWindow
        && all[8] == Handler::ActiveWorkspace && all[9] == Handler::ListWorkspaces);
    assert(all[10] == Handler::ListMonitors && all[11] == Handler::Clipboard && all[12]
        == Handler::ClipboardWrite && all[13] == Handler::CargoBuild && all[14]
        == Handler::CargoCheck);
    assert(all[15] == Handler::CargoTest && all[16] == Handler::RecentCommands && all[17]
        == Handler::KittyCwd && all[18] == Handler::LastExitCode);
    assert(all[19] == Handler::Screenshot && all[20] == Handler::LaunchHermes);
}

/// The tools for the memory and for the sprite are added under these names.
pub proof fn law_added_tools_go_by_their_names()
    ensures
        memory_handlers() == seq![
            Handler::MemoryFact,
            Handler::MemoryPref,
            Handler::MemorySearch,
            Handler::MemoryRecommend,
            Handler::MemoryStats,
        ],
        Handler::MemoryFact.name() == "memory_fact"@,
        Handler::MemoryPref.name() == "memory_pref"@,
        Handler::MemorySearch.name() == "memory_search"@,
        Handler::MemoryRecommend.name() == "memory_recommend"@,
        Handler::MemoryStats.name() == "memory_stats"@,
        sprite_handlers() == seq![
            Handler::SpriteState,
            Handler::SpriteStatus,
            Handler::SpriteFrame,
            Handler::SpriteCurrentFrame,
            Handler::SpriteListStates,
        ],
        Handler::SpriteState.name() == "sprite_state"@,
        Handler::SpriteStatus.name() == "sprite_status"@,
        Handler::SpriteFrame.name() == "sprite_frame"@,
        Handler::SpriteCurrentFrame.name() == "sprite_current_frame"@,
        Handler::SpriteListStates.name() == "sprite_list_states"@,
{
}

proof fn lemma_entry_in_entries(all: Seq<ToolView>, k: int, n: nat)
    requires
        0 <= k < n <= all.len(),
    ensures
        occurs(tool_entries(all, n), tool_entry(all[k])),
    decreases n,
{
    let none = Seq::<char>::empty();
    let head = tool_entries(all, (n - 1) as nat);
    let last = tool_entry(all[n - 1]);
    if k == n - 1 {
        assert(last.subrange(0, 0int + last.len()) =~= last);
        assert(occurs_at(last, last, 0));
        lemma_occurs_between(head, last, none, last);
        assert(head + last + none =~= tool_entries(all, n));
    } else {
        lemma_entry_in_entries(all, k, (n - 1) as nat);
        lemma_occurs_between(none, head, last, tool_entry(all[k]));
        assert(none + head + last =~= tool_entries(all, n));
    }
}

/// The model is told of every tool: its name, what it does and what it takes, one behind the
/// other.
pub proof fn law_the_model_is_told_of_every_tool(all: Seq<ToolView>, k: int)
    requires
        0 <= k < all.len(),
    ensures
        occurs(
            tools_prompt_of(all),
            "- "@ + all[k].name + ": "@ + all[k].description + "\n  Parameters: "@
                + json_pretty_text(all[k].parameters) + "\n\n"@,
        ),
{
    let none = Seq::<char>::empty();
    let body = tool_entries(all, all.len());
    lemma_entry_in_entries(all, k, all.len());
    lemma_occurs_between(none, body, crate::tools::HOW_TO_CALL@, tool_entry(all[k]));
    assert(none + body + crate::tools::HOW_TO_CALL@ =~= tools_prompt_of(all));
}

/// At the end the model is told how to call a tool.
pub proof fn law_the_model_is_told_how_to_call(all: Seq<ToolView>)
    ensures
        ({
            let how =
                "To use a tool, respond with a JSON block:\n```tool\n{\"tool\": \"<name>\", \"args\": {...}}\n```\n"@;
            let told = tools_prompt_of(all);
            told.len() >= how.len() && told.skip(told.len() - how.len()) == how
        }),
{
    let how = crate::tools::HOW_TO_CALL@;
    let told = tools_prompt_of(all);
    assert(told.skip(told.len() - how.len()) =~= how);
}

} // verus!
