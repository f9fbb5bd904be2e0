//! Shell tools: the history of fish, the directory of the focused terminal.
use vstd::prelude::*;

use crate::effect::{process_at, process_reply, Reply, Request, RequestView, Step, StepView};
use crate::error::{answer, refusal, Answer, GremlinError};
use crate::json::{
    json_slice_document, member_bool, member_items, member_text, parse_bytes, text_view, Json,
    JsonView,
};
use crate::process::{
    lossy_text, succeeded, text_of, trimmed_text_of, Invocation, InvocationView, Outcome,
};
use crate::text::{decimal, decimal_text, trimmed};

verus! {

/// A line run by fish.
pub open spec fn fish_view(line: Seq<char>) -> InvocationView {
    InvocationView { program: "fish"@, args: seq!["-c"@, line] }
}

/// How many commands are asked for: at least one and at most a hundred.
pub open spec fn command_count(limit: usize) -> nat {
    if limit > 100 {
        100
    } else if limit < 1 {
        1
    } else {
        limit as nat
    }
}

/// The line that prints the last commands. Fish lists the newest first.
pub open spec fn history_view(limit: usize) -> InvocationView {
    fish_view("history | head -n "@ + decimal(command_count(limit)))
}

/// What is said of the last commands.
pub open spec fn history_answer(outcome: Outcome) -> Answer {
    match outcome {
        Err(e) => refusal("fish not available: "@ + e@),
        Ok(output) => if output.success {
            let history = trimmed(lossy_text(output.stdout@));
            Ok(
                if history.len() == 0 {
                    "(no fish history available)"@
                } else {
                    history
                },
            )
        } else {
            refusal("fish error: "@ + lossy_text(output.stderr@))
        },
    }
}

/// What is added for what went to the error output.
pub open spec fn stderr_note(stderr: Seq<char>) -> Seq<char> {
    if stderr.len() > 0 {
        "\nstderr:\n"@ + stderr
    } else {
        Seq::empty()
    }
}

/// What is said of the last exit code, and of what went to the error output.
pub open spec fn exit_answer(outcome: Outcome) -> Answer {
    match outcome {
        Err(_) => refusal("fish not available"@),
        Ok(output) => Ok(
            (if output.success {
                "Last exit code: "@ + trimmed(lossy_text(output.stdout@))
            } else {
                "(could not determine last exit code)"@
            }) + stderr_note(trimmed(lossy_text(output.stderr@))),
        ),
    }
}

/// How kitty is asked for its windows.
pub open spec fn kitty_view() -> InvocationView {
    InvocationView { program: "kitty"@, args: seq!["@"@, "ls"@] }
}

/// The directory of a tab, where it has the focus.
pub open spec fn tab_cwd(tab: JsonView) -> Option<Seq<char>> {
    if member_bool(tab, "is_focused"@) == Some(true) {
        member_text(tab, "cwd"@)
    } else {
        None
    }
}

/// The directory of the first tab with the focus, from tab `i` on.
pub open spec fn tabs_cwd(tabs: Seq<JsonView>, i: int) -> Option<Seq<char>>
    decreases tabs.len() - i,
{
    if i < 0 || i >= tabs.len() {
        None
    } else {
        match tab_cwd(tabs[i]) {
            Some(cwd) => Some(cwd),
            None => tabs_cwd(tabs, i + 1),
        }
    }
}

/// The directory of the first tab with the focus in a window.
pub open spec fn window_cwd(window: JsonView) -> Option<Seq<char>> {
    match member_items(window, "tabs"@) {
        Some(tabs) => tabs_cwd(tabs, 0),
        None => None,
    }
}

/// The directory of the first tab with the focus, from window `i` on.
pub open spec fn windows_cwd(windows: Seq<JsonView>, i: int) -> Option<Seq<char>>
    decreases windows.len() - i,
{
    if i < 0 || i >= windows.len() {
        None
    } else {
        match window_cwd(windows[i]) {
            Some(cwd) => Some(cwd),
            None => windows_cwd(windows, i + 1),
        }
    }
}

/// The directory of the first tab with the focus, in what kitty says of its windows.
pub open spec fn focused_cwd(json: JsonView) -> Option<Seq<char>> {
    match json {
        JsonView::Array(windows) => windows_cwd(windows, 0),
        _ => None,
    }
}

/// What is said of the directory of the focused terminal, given what kitty wrote.
pub open spec fn kitty_answer(document: Result<JsonView, Seq<char>>) -> Answer {
    match document {
        Err(e) => refusal("kitty JSON parse error: "@ + e),
        Ok(json) => match focused_cwd(json) {
            Some(cwd) => Ok(cwd),
            None => refusal("Could not find focused Kitty tab cwd"@),
        },
    }
}

/// A text that was read, where answer `i` says that.
pub open spec fn content_at(replies: Seq<Reply>, i: int) -> Option<Result<String, String>> {
    if 0 <= i < replies.len() && replies[i] is Content {
        Some(replies[i]->Content_0)
    } else {
        None
    }
}

/// What the tool for the directory of the terminal does: it asks kitty, and falls back
/// to the working directory where kitty does not answer.
pub open spec fn kitty_step(replies: Seq<Reply>) -> StepView {
    match process_at(replies, 0) {
        None => StepView::Perform(RequestView::Run(kitty_view())),
        Some(outcome) => if succeeded(outcome) {
            StepView::Finish(kitty_answer(json_slice_document(outcome->Ok_0.stdout@)))
        } else {
            match content_at(replies, 1) {
                None => StepView::Perform(RequestView::CurrentDir),
                Some(Ok(path)) => StepView::Finish(Ok(path@)),
                Some(Err(e)) => StepView::Finish(refusal("cwd detection failed: "@ + e@)),
            }
        },
    }
}

fn fish(line: &str) -> (r: Invocation)
    ensures
        r@ == fish_view(line@),
{
    let r = Invocation::new("fish").arg("-c").arg(line);
    assert(r@.args =~= fish_view(line@).args);
    r
}

/// The run that prints the last commands.
pub fn history_command(limit: usize) -> (r: Invocation)
    ensures
        r@ == history_view(limit),
{
    let count: u64 = if limit > 100 {
        100
    } else if limit < 1 {
        1
    } else {
        limit as u64
    };
    let mut line = "history | head -n ".to_owned();
    line.append(decimal_text(count).as_str());
    fish(line.as_str())
}

/// The last commands, given what came of printing them.
pub fn recent_commands(outcome: &Outcome) -> (r: Result<String, GremlinError>)
    ensures
        answer(r) == history_answer(*outcome),
{
    match outcome {
        Err(e) => Err(GremlinError::tool("fish not available: ", e.as_str())),
        Ok(output) => {
            if !output.success {
                return Err(GremlinError::tool("fish error: ", text_of(&output.stderr).as_str()));
            }
            let history = trimmed_text_of(&output.stdout);
            if history.as_str().is_empty() {
                Ok("(no fish history available)".to_owned())
            } else {
                Ok(history)
            }
        },
    }
}

/// The run that prints the last exit code that fish knows of. It is that of the fish that
/// is started here, which has run nothing before: the exit code of the user's last command
/// is known to the user's own shell alone, and no other process can ask for it.
pub fn exit_command() -> (r: Invocation)
    ensures
        r@ == fish_view("echo $status"@),
{
    fish("echo $status")
}

/// What is said of the exit code that was printed, and of what went to the error output,
/// given what came of printing it.
pub fn last_exit_code(outcome: &Outcome) -> (r: Result<String, GremlinError>)
    ensures
        answer(r) == exit_answer(*outcome),
{
    match outcome {
        Err(_) => Err(GremlinError::says("fish not available")),
        Ok(output) => {
            let mut s = if output.success {
                let mut code = "Last exit code: ".to_owned();
                code.append(trimmed_text_of(&output.stdout).as_str());
                code
            } else {
                "(could not determine last exit code)".to_owned()
            };
            let ghost said = s@;
            let stderr = trimmed_text_of(&output.stderr);
            if !stderr.as_str().is_empty() {
                s.append("\nstderr:\n");
                s.append(stderr.as_str());
                assert(s@ =~= said + ("\nstderr:\n"@ + stderr@));
            } else {
                assert(said + Seq::<char>::empty() =~= said);
            }
            Ok(s)
        },
    }
}

fn cwd_of_tab(tab: &Json) -> (r: Option<String>)
    ensures
        text_view(r) == tab_cwd(tab@),
{
    match tab.get_bool("is_focused") {
        Some(true) => tab.get_text("cwd"),
        _ => None,
    }
}

fn cwd_of_window(window: &Json) -> (r: Option<String>)
    ensures
        text_view(r) == window_cwd(window@),
{
    match window.get("tabs") {
        Some(Json::Array(tabs)) => {
            let ghost views = member_items(window@, "tabs"@)->0;
            let mut i: usize = 0;
            while i < tabs.len()
                invariant
                    i <= tabs@.len(),
                    views.len() == tabs@.len(),
                    forall|j: int| 0 <= j < tabs@.len() ==> #[trigger] views[j] == tabs@[j]@,
                    member_items(window@, "tabs"@) == Some(views),
                    tabs_cwd(views, 0) == tabs_cwd(views, i as int),
                decreases tabs@.len() - i,
            {
                assert(views[i as int] == tabs@[i as int]@);
                let cwd = cwd_of_tab(&tabs[i]);
                if cwd.is_some() {
                    return cwd;
                }
                i = i + 1;
            }
            None
        },
        _ => None,
    }
}

/// The directory of the first tab with the focus, in what kitty says of its windows.
pub fn focused_tab_cwd(json: &Json) -> (r: Option<String>)
    ensures
        text_view(r) == focused_cwd(json@),
{
    match json {
        Json::Array(windows) => {
            let ghost views = json@->Array_0;
            let mut i: usize = 0;
            while i < windows.len()
                invariant
                    i <= windows@.len(),
                    views.len() == windows@.len(),
                    forall|j: int| 0 <= j < windows@.len() ==> #[trigger] views[j] == windows@[j]@,
                    json@ == JsonView::Array(views),
                    windows_cwd(views, 0) == windows_cwd(views, i as int),
                decreases windows@.len() - i,
            {
                assert(views[i as int] == windows@[i as int]@);
                let cwd = cwd_of_window(&windows[i]);
                if cwd.is_some() {
                    return cwd;
                }
                i = i + 1;
            }
            None
        },
        _ => None,
    }
}

/// The run by which kitty is asked for its windows.
pub fn kitty_command() -> (r: Invocation)
    ensures
        r@ == kitty_view(),
{
    let r = Invocation::new("kitty").arg("@").arg("ls");
    assert(r@.args =~= kitty_view().args);
    r
}

/// The directory of the focused terminal, given what kitty wrote, as it was read.
pub fn cwd_in_document(document: &Result<Json, String>) -> (r: Result<String, GremlinError>)
    ensures
        answer(r) == kitty_answer(crate::json::result_view(*document)),
{
    match document {
        Err(e) => Err(GremlinError::tool("kitty JSON parse error: ", e.as_str())),
        Ok(json) => match focused_tab_cwd(json) {
            Some(cwd) => Ok(cwd),
            None => Err(GremlinError::says("Could not find focused Kitty tab cwd")),
        },
    }
}

/// What the tool for the directory of the terminal does.
pub fn kitty_cwd(replies: &Vec<Reply>) -> (s: Step)
    ensures
        s@ == kitty_step(replies@),
{
    match process_reply(replies, 0) {
        None => Step::Perform(Request::Run(kitty_command())),
        Some(outcome) => {
            if let Ok(output) = outcome {
                if output.success {
                    let document = parse_bytes(output.stdout.as_slice());
                    return Step::Finish(cwd_in_document(&document));
                }
            }
            if replies.len() > 1 {
                if let Reply::Content(content) = &replies[1] {
                    return Step::Finish(
                        match content {
                            Ok(path) => Ok(path.clone()),
                            Err(e) => Err(GremlinError::tool("cwd detection failed: ", e.as_str())),
                        },
                    );
                }
            }
            Step::Perform(Request::CurrentDir)
        },
    }
}

/// Between one and a hundred commands are asked for.
pub proof fn law_command_count_is_bounded(limit: usize)
    ensures
        1 <= command_count(limit) <= 100,
        1 <= limit <= 100 ==> command_count(limit) == limit,
{
}

/// Where kitty cannot be asked, the tool gives the working directory.
pub proof fn law_kitty_falls_back(replies: Seq<Reply>, path: String)
    requires
        process_at(replies, 0) matches Some(outcome) && !succeeded(outcome),
        content_at(replies, 1) == Some(Result::<String, String>::Ok(path)),
    ensures
        kitty_step(replies) == StepView::Finish(Ok(path@)),
{
}

} // verus!
