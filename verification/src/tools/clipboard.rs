//! Clipboard tools: `wl-paste` and `wl-copy` under Wayland, `xclip` under X11.
use vstd::prelude::*;

use crate::effect::{
    process_at, process_reply, refuse, refuse_view, Fed, Reply, Request, RequestView, Step, StepView,
};
use crate::error::{answer, refusal, Answer, ErrorView, GremlinError};
use crate::process::{
    command_exists, lossy_text, succeeded, trimmed_text_of, which, which_view, Invocation,
    InvocationView, Outcome,
};
use crate::text::{clip, clipped, law_clipped_is_bounded, trimmed};

verus! {

/// What is said where there is no program for the clipboard.
pub const NO_CLIPBOARD: &'static str =
    "No clipboard tool available. Install wl-clipboard (Wayland) or xclip (X11).";

/// A command line run by the shell.
pub open spec fn shell_view(line: Seq<char>) -> InvocationView {
    InvocationView { program: "sh"@, args: seq!["-c"@, line] }
}

/// What is said of the clipboard, given what came of reading it.
pub open spec fn read_answer(outcome: Outcome) -> Answer {
    match outcome {
        Err(e) => refusal("clipboard read failed: "@ + e@),
        Ok(output) => if output.success {
            let text = trimmed(lossy_text(output.stdout@));
            Ok(
                if text.len() == 0 {
                    "(clipboard is empty)"@
                } else {
                    clipped(text, 10_000, "\n\n[... clipboard truncated at 10KB ...]"@)
                },
            )
        } else {
            refusal("clipboard read returned non-zero"@)
        },
    }
}

/// What is said once the clipboard was written to, or why it was not.
pub open spec fn write_answer(fed: Fed) -> Answer {
    match fed {
        Fed::NotStarted(e) => refusal("clipboard write failed: "@ + e@),
        Fed::Broken(e) => Err(ErrorView::Io(e@)),
        Fed::Ended(success) => if success {
            Ok("Written to clipboard"@)
        } else {
            refusal("clipboard write returned non-zero"@)
        },
    }
}

/// What came of running a program with input, where answer `i` says that.
pub open spec fn fed_at(replies: Seq<Reply>, i: int) -> Option<Fed> {
    if 0 <= i < replies.len() && replies[i] is Fed {
        Some(replies[i]->Fed_0)
    } else {
        None
    }
}

/// Reads the clipboard with a command line, once the answers before `i` are there.
pub open spec fn read_with(line: Seq<char>, replies: Seq<Reply>, i: int) -> StepView {
    match process_at(replies, i) {
        None => StepView::Perform(RequestView::Run(shell_view(line))),
        Some(outcome) => StepView::Finish(read_answer(outcome)),
    }
}

/// Writes to the clipboard with a command line, once the answers before `i` are there.
pub open spec fn write_with(
    line: Seq<char>,
    text: Seq<char>,
    replies: Seq<Reply>,
    i: int,
) -> StepView {
    match fed_at(replies, i) {
        None => StepView::Perform(
            RequestView::Feed { invocation: shell_view(line), input: text },
        ),
        Some(fed) => StepView::Finish(write_answer(fed)),
    }
}

/// What the reading tool does: it looks for `wl-paste`, then for `xclip`, and uses the
/// first that is there.
pub open spec fn read_step(replies: Seq<Reply>) -> StepView {
    match process_at(replies, 0) {
        None => StepView::Perform(RequestView::Run(which_view("wl-paste"@))),
        Some(first) => if succeeded(first) {
            read_with("wl-paste"@, replies, 1)
        } else {
            match process_at(replies, 1) {
                None => StepView::Perform(RequestView::Run(which_view("xclip"@))),
                Some(second) => if succeeded(second) {
                    read_with("xclip -selection clipboard -o"@, replies, 2)
                } else {
                    refuse_view(NO_CLIPBOARD@)
                },
            }
        },
    }
}

/// What the writing tool does: it looks for `wl-copy`, then for `xclip`, and uses the
/// first that is there.
pub open spec fn write_step(text: Seq<char>, replies: Seq<Reply>) -> StepView {
    match process_at(replies, 0) {
        None => StepView::Perform(RequestView::Run(which_view("wl-copy"@))),
        Some(first) => if succeeded(first) {
            write_with("wl-copy"@, text, replies, 1)
        } else {
            match process_at(replies, 1) {
                None => StepView::Perform(RequestView::Run(which_view("xclip"@))),
                Some(second) => if succeeded(second) {
                    write_with("xclip -selection clipboard"@, text, replies, 2)
                } else {
                    refuse_view(NO_CLIPBOARD@)
                },
            }
        },
    }
}

fn shell(line: &str) -> (r: Invocation)
    ensures
        r@ == shell_view(line@),
{
    let r = Invocation::new("sh").arg("-c").arg(line);
    assert(r@.args =~= shell_view(line@).args);
    r
}

/// What is on the clipboard, given what came of reading it.
pub fn read(outcome: &Outcome) -> (r: Result<String, GremlinError>)
    ensures
        answer(r) == read_answer(*outcome),
{
    match outcome {
        Err(e) => Err(GremlinError::tool("clipboard read failed: ", e.as_str())),
        Ok(output) => {
            if !output.success {
                return Err(GremlinError::says("clipboard read returned non-zero"));
            }
            let text = trimmed_text_of(&output.stdout);
            if text.as_str().is_empty() {
                Ok("(clipboard is empty)".to_owned())
            } else {
                Ok(clip(text.as_str(), 10_000, "\n\n[... clipboard truncated at 10KB ...]"))
            }
        },
    }
}

/// What is said of writing to the clipboard, given what came of it.
pub fn write(fed: &Fed) -> (r: Result<String, GremlinError>)
    ensures
        answer(r) == write_answer(*fed),
{
    match fed {
        Fed::NotStarted(e) => Err(GremlinError::tool("clipboard write failed: ", e.as_str())),
        Fed::Broken(e) => Err(GremlinError::Io(e.clone())),
        Fed::Ended(success) => {
            if *success {
                Ok("Written to clipboard".to_owned())
            } else {
                Err(GremlinError::says("clipboard write returned non-zero"))
            }
        },
    }
}

fn read_by(line: &str, replies: &Vec<Reply>, i: usize) -> (s: Step)
    ensures
        s@ == read_with(line@, replies@, i as int),
{
    match process_reply(replies, i) {
        None => Step::Perform(Request::Run(shell(line))),
        Some(outcome) => Step::Finish(read(outcome)),
    }
}

fn write_by(line: &str, text: &str, replies: &Vec<Reply>, i: usize) -> (s: Step)
    ensures
        s@ == write_with(line@, text@, replies@, i as int),
{
    if i < replies.len() {
        if let Reply::Fed(fed) = &replies[i] {
            return Step::Finish(write(fed));
        }
    }
    Step::Perform(Request::Feed { invocation: shell(line), input: text.to_owned() })
}

/// What the reading tool does.
pub fn read_tool(replies: &Vec<Reply>) -> (s: Step)
    ensures
        s@ == read_step(replies@),
{
    match process_reply(replies, 0) {
        None => Step::Perform(Request::Run(which("wl-paste"))),
        Some(first) => {
            if command_exists(first) {
                return read_by("wl-paste", replies, 1);
            }
            match process_reply(replies, 1) {
                None => Step::Perform(Request::Run(which("xclip"))),
                Some(second) => {
                    if command_exists(second) {
                        read_by("xclip -selection clipboard -o", replies, 2)
                    } else {
                        refuse(NO_CLIPBOARD)
                    }
                },
            }
        },
    }
}

/// What the writing tool does.
pub fn write_tool(text: &str, replies: &Vec<Reply>) -> (s: Step)
    ensures
        s@ == write_step(text@, replies@),
{
    match process_reply(replies, 0) {
        None => Step::Perform(Request::Run(which("wl-copy"))),
        Some(first) => {
            if command_exists(first) {
                return write_by("wl-copy", text, replies, 1);
            }
            match process_reply(replies, 1) {
                None => Step::Perform(Request::Run(which("xclip"))),
                Some(second) => {
                    if command_exists(second) {
                        write_by("xclip -selection clipboard", text, replies, 2)
                    } else {
                        refuse(NO_CLIPBOARD)
                    }
                },
            }
        },
    }
}

/// Where neither program is there, both tools say so, and nothing is read or written.
pub proof fn law_no_clipboard_program_is_refused(text: Seq<char>, replies: Seq<Reply>)
    requires
        process_at(replies, 0) matches Some(first) && !succeeded(first),
        process_at(replies, 1) matches Some(second) && !succeeded(second),
    ensures
        read_step(replies) == refuse_view(NO_CLIPBOARD@),
        write_step(text, replies) == refuse_view(NO_CLIPBOARD@),
{
}

/// However much is on the clipboard, the tool says at most ten thousand characters of it.
pub proof fn law_clipboard_is_bounded(outcome: Outcome)
    ensures
        read_answer(outcome) matches Ok(said) ==> said.len() <= 10_000
            + "\n\n[... clipboard truncated at 10KB ...]"@.len(),
{
    reveal_strlit("(clipboard is empty)");
    if let Ok(output) = outcome {
        law_clipped_is_bounded(
            trimmed(lossy_text(output.stdout@)),
            10_000,
            "\n\n[... clipboard truncated at 10KB ...]"@,
        );
    }
}

} // verus!
