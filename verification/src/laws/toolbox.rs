//! The tools, each by what it asks of the world and what it says of the answer.
use vstd::prelude::*;

use crate::desktop::hyprland::{
    monitor_lines, summary_parts, workspace_lines, Hyprctl, MonitorInfo, WindowInfo, WorkspaceInfo,
};
use crate::effect::{Fed, Reply, RequestView, Shape, StepView};
use crate::error::ErrorView;
use crate::json::{member_bool, member_text, member_unsigned, JsonView};
use crate::laws::memories::{refuses, tells};
use crate::process::{lossy_text, InvocationView, Output};
use crate::text::{
    decimal, joined, lemma_occurs_between, lemma_occurs_joined, lines_from, occurs, occurs_at,
    signed_decimal, trimmed, utf8_len,
};
use crate::tools::handlers::handler_step;
use crate::tools::schema::Handler;
use crate::tools::system::{entry_lines, DirEntry};

verus! {

/// The tool asks for this.
pub open spec fn wants(step: StepView, request: RequestView) -> bool {
    step == StepView::Perform(request)
}

/// The tool has this program run, with these arguments.
pub open spec fn runs(step: StepView, program: Seq<char>, args: Seq<Seq<char>>) -> bool {
    wants(step, RequestView::Run(InvocationView { program, args }))
}

/// A program that was run and ended.
pub open spec fn ran(output: Output) -> Seq<Reply> {
    seq![Reply::Process(Ok(output))]
}

/// The reading tool has the file read that it is told to read, and says all that is in it. Of
/// more than fifty thousand bytes it says the first fifty thousand characters, and that there
/// is more. Where the file cannot be read it says which and why.
pub proof fn law_files_are_read(args: JsonView, path: Seq<char>, text: String, e: String)
    requires
        member_text(args, "path"@) == Some(path),
    ensures
        wants(
            handler_step(Handler::ReadFile, args, Seq::empty()),
            RequestView::ReadFile { path },
        ),
        utf8_len(text@) <= 50_000 ==> tells(
            handler_step(Handler::ReadFile, args, seq![Reply::Content(Ok(text))]),
            text@,
        ),
        utf8_len(text@) > 50_000 && text@.len() > 50_000 ==> tells(
            handler_step(Handler::ReadFile, args, seq![Reply::Content(Ok(text))]),
            text@.take(50_000) + "\n\n[... truncated at 50KB ...]"@,
        ),
        utf8_len(text@) > 50_000 && text@.len() <= 50_000 ==> tells(
            handler_step(Handler::ReadFile, args, seq![Reply::Content(Ok(text))]),
            text@ + "\n\n[... truncated at 50KB ...]"@,
        ),
        refuses(
            handler_step(Handler::ReadFile, args, seq![Reply::Content(Err(e))]),
            "Failed to read "@ + path + ": "@ + e@,
        ),
{
}

/// The writing tool has exactly the given content written to the given file, and says so.
pub proof fn law_files_are_written(
    args: JsonView,
    path: Seq<char>,
    content: Seq<char>,
    e: String,
)
    requires
        member_text(args, "path"@) == Some(path),
        member_text(args, "content"@) == Some(content),
    ensures
        wants(
            handler_step(Handler::WriteFile, args, Seq::empty()),
            RequestView::WriteFile { path, content },
        ),
        tells(
            handler_step(Handler::WriteFile, args, seq![Reply::Written(Ok(()))]),
            "Wrote "@ + path,
        ),
        handler_step(Handler::WriteFile, args, seq![Reply::Written(Err(e))]) == StepView::Finish(
            Err(ErrorView::Io(e@)),
        ),
{
}

/// What was written is read again: the reading tool asks for the file that the writing tool
/// had written, and says the content that was written to it, where it is not too long.
pub proof fn law_what_is_written_is_read(write: JsonView, read: JsonView, text: String)
    requires
        member_text(write, "path"@) is Some,
        member_text(write, "content"@) == Some(text@),
        member_text(read, "path"@) == member_text(write, "path"@),
        utf8_len(text@) <= 50_000,
    ensures
        handler_step(Handler::WriteFile, write, Seq::empty()) matches StepView::Perform(
            RequestView::WriteFile { path, content },
        ) && content == text@ && wants(
            handler_step(Handler::ReadFile, read, Seq::empty()),
            RequestView::ReadFile { path },
        ) && tells(
            handler_step(Handler::ReadFile, read, seq![Reply::Content(Ok(text))]),
            content,
        ),
{
}

/// Without a path, or without content to write, the file tools do nothing.
pub proof fn law_files_need_a_path(args: JsonView, replies: Seq<Reply>)
    ensures
        member_text(args, "path"@) is None ==> refuses(
            handler_step(Handler::ReadFile, args, replies),
            "missing 'path' argument"@,
        ) && refuses(
            handler_step(Handler::WriteFile, args, replies),
            "missing 'path' argument"@,
        ),
        member_text(args, "path"@) is Some && member_text(args, "content"@) is None ==> refuses(
            handler_step(Handler::WriteFile, args, replies),
            "missing 'content' argument"@,
        ),
{
}

/// The working directory is asked for and told.
pub proof fn law_working_directory(args: JsonView, path: String, e: String)
    ensures
        wants(handler_step(Handler::Pwd, args, Seq::empty()), RequestView::CurrentDir),
        tells(handler_step(Handler::Pwd, args, seq![Reply::Content(Ok(path))]), path@),
        refuses(
            handler_step(Handler::Pwd, args, seq![Reply::Content(Err(e))]),
            "pwd failed: "@ + e@,
        ),
{
}

proof fn lemma_entry(entries: Seq<Option<DirEntry>>, n: nat, k: int)
    requires
        0 <= k < n <= entries.len(),
        entries[k] is Some,
    ensures
        entry_lines(entries, n).contains(
            if entries[k]->0.is_dir == Some(true) {
                entries[k]->0.name@ + "/"@
            } else {
                entries[k]->0.name@
            },
        ),
    decreases n,
{
    let line = if entries[k]->0.is_dir == Some(true) {
        entries[k]->0.name@ + "/"@
    } else {
        entries[k]->0.name@
    };
    let after = entry_lines(entries, n);
    if k == n - 1 {
        assert(after[after.len() - 1] == line);
    } else {
        lemma_entry(entries, (n - 1) as nat, k);
        let before = entry_lines(entries, (n - 1) as nat);
        let i = choose|i: int| 0 <= i < before.len() && before[i] == line;
        assert(after[i] == line);
    }
}

proof fn lemma_line_in(lines: Seq<Seq<char>>, line: Seq<char>)
    requires
        lines.contains(line),
    ensures
        occurs(joined(lines, "\n"@), line),
{
    let k = choose|k: int| 0 <= k < lines.len() && lines[k] == line;
    assert(line.subrange(0, line.len() as int) =~= line);
    assert(occurs_at(line, line, 0));
    lemma_occurs_joined(lines, "\n"@, k, lines.len(), line);
}

/// The directory that is named is listed, or the working directory, and every entry that could
/// be read is told, with a slash behind it where it is a directory.
pub proof fn law_directories_are_listed(
    args: JsonView,
    entries: Vec<Option<DirEntry>>,
    k: int,
    e: String,
)
    requires
        0 <= k < entries@.len(),
        entries@[k] is Some,
    ensures
        wants(
            handler_step(Handler::ListDir, args, Seq::empty()),
            RequestView::ListDir { dir: member_text(args, "path"@) },
        ),
        handler_step(Handler::ListDir, args, seq![Reply::Entries(Ok(entries))])
            matches StepView::Finish(Ok(text)) && occurs(
            text,
            if entries@[k]->0.is_dir == Some(true) {
                entries@[k]->0.name@ + "/"@
            } else {
                entries@[k]->0.name@
            },
        ),
        handler_step(Handler::ListDir, args, seq![Reply::Entries(Err(e))]) == StepView::Finish(
            Err(ErrorView::Io(e@)),
        ),
{
    lemma_entry(entries@, entries@.len(), k);
    let line = if entries@[k]->0.is_dir == Some(true) {
        entries@[k]->0.name@ + "/"@
    } else {
        entries@[k]->0.name@
    };
    lemma_line_in(entry_lines(entries@, entries@.len()), line);
}

/// Each git tool runs its own command: the short status, the changes that are staged or those
/// that are not, the name of the branch.
pub proof fn law_git_commands(args: JsonView)
    ensures
        runs(
            handler_step(Handler::GitStatus, args, Seq::empty()),
            "git"@,
            seq!["status"@, "--short"@],
        ),
        member_bool(args, "staged"@) == Some(true) ==> runs(
            handler_step(Handler::GitDiff, args, Seq::empty()),
            "git"@,
            seq!["diff"@, "--staged"@],
        ),
        member_bool(args, "staged"@) != Some(true) ==> runs(
            handler_step(Handler::GitDiff, args, Seq::empty()),
            "git"@,
            seq!["diff"@],
        ),
        runs(
            handler_step(Handler::GitBranch, args, Seq::empty()),
            "git"@,
            seq!["rev-parse"@, "--abbrev-ref"@, "HEAD"@],
        ),
{
}

/// Each git tool says what git wrote, without the white space around it; nothing at all means
/// a clean tree or no changes. A long diff is cut. Where git fails, its complaint is told.
pub proof fn law_git_says_what_git_wrote(args: JsonView, output: Output, e: String)
    ensures
        ({
            let wrote = trimmed(lossy_text(output.stdout@));
            let status = handler_step(Handler::GitStatus, args, ran(output));
            let diff = handler_step(Handler::GitDiff, args, ran(output));
            let branch = handler_step(Handler::GitBranch, args, ran(output));
            &&& output.success && wrote.len() > 0 ==> tells(status, wrote)
            &&& output.success && wrote.len() == 0 ==> tells(status, "(clean working tree)"@)
            &&& output.success && wrote.len() > 0 && utf8_len(wrote) <= 30_000 ==> tells(
                diff,
                wrote,
            )
            &&& output.success && wrote.len() > 30_000 && utf8_len(wrote) > 30_000 ==> tells(
                diff,
                wrote.take(30_000) + "\n\n[... diff truncated at 30KB ...]"@,
            )
            &&& output.success && wrote.len() == 0 ==> tells(diff, "(no changes)"@)
            &&& output.success ==> tells(branch, wrote)
            &&& !output.success ==> {
                let words = "git error: "@ + lossy_text(output.stderr@);
                refuses(status, words) && refuses(diff, words) && refuses(branch, words)
            }
        }),
        ({
            let none = seq![Reply::Process(Err(e))];
            let words = "git not available: "@ + e@;
            refuses(handler_step(Handler::GitStatus, args, none), words) && refuses(
                handler_step(Handler::GitDiff, args, none),
                words,
            ) && refuses(handler_step(Handler::GitBranch, args, none), words)
        }),
{
}

/// Each cargo tool runs its own command.
pub proof fn law_cargo_commands(args: JsonView)
    ensures
        member_bool(args, "release"@) == Some(true) ==> runs(
            handler_step(Handler::CargoBuild, args, Seq::empty()),
            "cargo"@,
            seq!["build"@, "--release"@],
        ),
        member_bool(args, "release"@) != Some(true) ==> runs(
            handler_step(Handler::CargoBuild, args, Seq::empty()),
            "cargo"@,
            seq!["build"@],
        ),
        runs(
            handler_step(Handler::CargoCheck, args, Seq::empty()),
            "cargo"@,
            seq!["check"@],
        ),
        runs(handler_step(Handler::CargoTest, args, Seq::empty()), "cargo"@, seq!["test"@]),
{
}

/// What a cargo tool is called in its answer.
pub open spec fn cargo_label(h: Handler, args: JsonView) -> Seq<char> {
    if h == Handler::CargoCheck {
        "check"@
    } else if h == Handler::CargoTest {
        "test"@
    } else if member_bool(args, "release"@) == Some(true) {
        "build --release"@
    } else {
        "build"@
    }
}

/// A cargo tool says whether the run succeeded, and all that cargo wrote, to its output and
/// then to its error output. Where that is long, the first fifty lines and the last hundred
/// and fifty stand in the answer, and how many were left out between them.
#[verifier::spinoff_prover]
pub proof fn law_cargo_says_what_cargo_wrote(h: Handler, args: JsonView, output: Output, k: int)
    requires
        h == Handler::CargoBuild || h == Handler::CargoCheck || h == Handler::CargoTest,
    ensures
        ({
            let wrote = lossy_text(output.stdout@) + lossy_text(output.stderr@);
            let all = lines_from(wrote, 0);
            let head = "cargo "@ + cargo_label(h, args) + (if output.success {
                ": SUCCESS\n"@
            } else {
                ": FAILED\n"@
            });
            let step = handler_step(h, args, ran(output));
            &&& utf8_len(wrote) <= 20_000 || all.len() <= 200 ==> tells(step, head + wrote)
            &&& utf8_len(wrote) > 20_000 && all.len() > 200 ==> (step matches StepView::Finish(
                Ok(text),
            ) && occurs_at(text, head, 0) && occurs(
                text,
                "\n\n... "@ + decimal((all.len() - 200) as nat) + " lines omitted ...\n\n"@,
            ) && (0 <= k < 50 || all.len() - 150 <= k < all.len() ==> occurs(text, all[k])))
        }),
{
    let wrote = lossy_text(output.stdout@) + lossy_text(output.stderr@);
    let all = lines_from(wrote, 0);
    let head = "cargo "@ + cargo_label(h, args) + (if output.success {
        ": SUCCESS\n"@
    } else {
        ": FAILED\n"@
    });
    if utf8_len(wrote) > 20_000 && all.len() > 200 {
        let none = Seq::<char>::empty();
        let first = joined(all.take(50), "\n"@);
        let last = joined(all.skip(all.len() - 150), "\n"@);
        let note = "\n\n... "@ + decimal((all.len() - 200) as nat) + " lines omitted ...\n\n"@;
        let text = head + (first + "\n\n... "@ + decimal((all.len() - 200) as nat)
            + " lines omitted ...\n\n"@ + last);
        assert(handler_step(h, args, ran(output)) == StepView::Finish(Ok(text)));
        assert(text.subrange(0, head.len() as int) =~= head);
        assert(note.subrange(0, note.len() as int) =~= note);
        assert(occurs_at(note, note, 0));
        lemma_occurs_between(head + first, note, last, note);
        assert(head + first + note + last =~= text);
        if 0 <= k < 50 {
            assert(all.take(50)[k] == all[k]);
            lemma_line_in(all.take(50), all[k]);
            lemma_occurs_between(head, first, note + last, all[k]);
            assert(head + first + (note + last) =~= text);
        }
        if all.len() - 150 <= k < all.len() {
            let tail = all.skip(all.len() - 150);
            assert(tail[k - (all.len() - 150)] == all[k]);
            lemma_line_in(tail, all[k]);
            lemma_occurs_between(head + first + note, last, none, all[k]);
            assert(head + first + note + last + none =~= text);
        }
    }
}

/// Where cargo cannot be run, every cargo tool says why.
pub proof fn law_no_cargo(h: Handler, args: JsonView, e: String)
    requires
        h == Handler::CargoBuild || h == Handler::CargoCheck || h == Handler::CargoTest,
    ensures
        refuses(
            handler_step(h, args, seq![Reply::Process(Err(e))]),
            "cargo not available: "@ + e@,
        ),
{
}

/// Each tool for the desktop makes its own query, and has the answer read as what it is.
#[verifier::spinoff_prover]
pub proof fn law_desktop_queries(args: JsonView)
    ensures
        wants(
            handler_step(Handler::ActiveWindow, args, Seq::empty()),
            RequestView::Hyprland {
                invocation: InvocationView {
                    program: "hyprctl"@,
                    args: seq!["-j"@, "activewindow"@],
                },
                shape: Shape::Window,
            },
        ),
        wants(
            handler_step(Handler::ActiveWorkspace, args, Seq::empty()),
            RequestView::Hyprland {
                invocation: InvocationView {
                    program: "hyprctl"@,
                    args: seq!["-j"@, "activeworkspace"@],
                },
                shape: Shape::Workspace,
            },
        ),
        wants(
            handler_step(Handler::ListWorkspaces, args, Seq::empty()),
            RequestView::Hyprland {
                invocation: InvocationView {
                    program: "hyprctl"@,
                    args: seq!["-j"@, "workspaces"@],
                },
                shape: Shape::Workspaces,
            },
        ),
        wants(
            handler_step(Handler::ListMonitors, args, Seq::empty()),
            RequestView::Hyprland {
                invocation: InvocationView {
                    program: "hyprctl"@,
                    args: seq!["-j"@, "monitors"@],
                },
                shape: Shape::Monitors,
            },
        ),
{
}

/// The line of a monitor.
pub open spec fn monitor_text(m: MonitorInfo) -> Seq<char> {
    m.name@ + ": "@ + m.description@ + " "@ + signed_decimal(m.width as int) + "x"@
        + signed_decimal(m.height as int) + "@"@ + m.refresh_rate@ + "Hz"@
}

/// Each tool for the desktop says what Hyprland answered: the focused window by class and
/// title, the active workspace by number and name, every workspace with its windows and its
/// monitor, every monitor with its size and rate.
#[verifier::spinoff_prover]
pub proof fn law_desktop_answers(
    args: JsonView,
    win: WindowInfo,
    ws: WorkspaceInfo,
    all: Vec<WorkspaceInfo>,
    monitors: Vec<MonitorInfo>,
    k: int,
)
    requires
        0 <= k < all@.len(),
        0 <= k < monitors@.len(),
    ensures
        tells(
            handler_step(Handler::ActiveWindow, args, seq![Reply::Window(Hyprctl::Reply(win))]),
            win.class@ + " — "@ + win.title@,
        ),
        tells(
            handler_step(
                Handler::ActiveWorkspace,
                args,
                seq![Reply::Workspace(Hyprctl::Reply(ws))],
            ),
            "Workspace "@ + signed_decimal(ws.id as int) + ": "@ + ws.name@,
        ),
        handler_step(Handler::ListWorkspaces, args, seq![Reply::Workspaces(Hyprctl::Reply(all))])
            matches StepView::Finish(Ok(text)) && occurs(
            text,
            "Workspace "@ + signed_decimal(all@[k].id as int) + ": "@ + all@[k].name@ + " ("@
                + signed_decimal(all@[k].windows as int) + " windows on "@ + all@[k].monitor@
                + ")"@,
        ),
        handler_step(Handler::ListMonitors, args, seq![Reply::Monitors(Hyprctl::Reply(monitors))])
            matches StepView::Finish(Ok(text)) && occurs(text, monitor_text(monitors@[k])),
{
    let lines = workspace_lines(all@);
    lemma_line_in(lines, lines[k]);
    let rows = monitor_lines(monitors@, ""@);
    reveal_strlit("");
    assert(rows[k] =~= monitor_text(monitors@[k]));
    lemma_line_in(rows, rows[k]);
}

/// Where Hyprland gives no answer, each tool for the desktop says why.
pub proof fn law_no_hyprland(args: JsonView, e: String, stderr: Vec<u8>)
    ensures
        ({
            let words = "hyprctl not available: "@ + e@;
            &&& refuses(
                handler_step(
                    Handler::ActiveWindow,
                    args,
                    seq![Reply::Window(Hyprctl::Unavailable(e))],
                ),
                words,
            )
            &&& refuses(
                handler_step(
                    Handler::ActiveWorkspace,
                    args,
                    seq![Reply::Workspace(Hyprctl::Unavailable(e))],
                ),
                words,
            )
            &&& refuses(
                handler_step(
                    Handler::ListWorkspaces,
                    args,
                    seq![Reply::Workspaces(Hyprctl::Unavailable(e))],
                ),
                words,
            )
            &&& refuses(
                handler_step(
                    Handler::ListMonitors,
                    args,
                    seq![Reply::Monitors(Hyprctl::Unavailable(e))],
                ),
                words,
            )
        }),
        refuses(
            handler_step(
                Handler::ActiveWindow,
                args,
                seq![Reply::Window(Hyprctl::Failed(stderr))],
            ),
            "hyprctl error: "@ + lossy_text(stderr@),
        ),
        refuses(
            handler_step(
                Handler::ActiveWindow,
                args,
                seq![Reply::Window(Hyprctl::Unreadable(e))],
            ),
            "hyprctl JSON parse error: "@ + e@,
        ),
{
}

/// The summary of the desktop holds what is known: the workspace, the focused window, and
/// every monitor. What is not known is left out, whatever the rest is.
pub proof fn law_desktop_summary_holds_what_is_known(
    ws: Hyprctl<WorkspaceInfo>,
    win: Hyprctl<WindowInfo>,
    monitors: Hyprctl<Vec<MonitorInfo>>,
    k: int,
)
    ensures
        ({
            let text = joined(summary_parts(ws, win, monitors), "\n"@);
            &&& ws matches Hyprctl::Reply(w) ==> occurs(
                text,
                "Workspace: "@ + w.name@ + " (id="@ + signed_decimal(w.id as int) + ")"@,
            )
            &&& win matches Hyprctl::Reply(w) ==> occurs(
                text,
                "Focused: "@ + (w.class@ + " — "@ + w.title@),
            )
            &&& monitors matches Hyprctl::Reply(all) ==> (0 <= k < all@.len() ==> occurs(
                text,
                "  "@ + monitor_text(all@[k]),
            ))
        }),
        summary_parts(ws, win, monitors).len() == (if ws is Reply {
            1int
        } else {
            0
        }) + (if win is Reply {
            1int
        } else {
            0
        }) + (if monitors is Reply && monitors->Reply_0@.len() > 0 {
            1int
        } else {
            0
        }),
{
    let parts = summary_parts(ws, win, monitors);
    if ws is Reply {
        assert(parts.contains(parts[0]));
        lemma_line_in(parts, parts[0]);
    }
    if win is Reply {
        let at: int = if ws is Reply {
            1
        } else {
            0
        };
        assert(parts.contains(parts[at]));
        lemma_line_in(parts, parts[at]);
    }
    if let Hyprctl::Reply(all) = monitors {
        if 0 <= k < all@.len() {
            let rows = monitor_lines(all@, "  "@);
            let last = parts[parts.len() - 1];
            assert(last == "Monitors:\n"@ + joined(rows, "\n"@));
            assert(rows[k] == "  "@ + monitor_text(all@[k]));
            assert(rows.contains(rows[k]));
            lemma_line_in(rows, rows[k]);
            lemma_occurs_between(
                "Monitors:\n"@,
                joined(rows, "\n"@),
                Seq::<char>::empty(),
                rows[k],
            );
            assert("Monitors:\n"@ + joined(rows, "\n"@) + Seq::<char>::empty() =~= last);
            lemma_occurs_joined(parts, "\n"@, parts.len() - 1, parts.len(), rows[k]);
        }
    }
}

/// A program that was looked for and found, or not.
pub open spec fn found(reply: Reply, there: bool) -> bool {
    reply matches Reply::Process(outcome) && match outcome {
        Ok(output) => output.success == there,
        Err(_) => !there,
    }
}

/// The clipboard is read with the first of the two programs that is there. The second is not
/// looked for where the first is there.
#[verifier::spinoff_prover]
pub proof fn law_clipboard_is_read(args: JsonView, first: Reply, second: Reply, output: Output)
    ensures
        ({
            let h = Handler::Clipboard;
            let outcome = Reply::Process(Ok(output));
            &&& runs(handler_step(h, args, Seq::empty()), "which"@, seq!["wl-paste"@])
            &&& found(first, true) ==> runs(
                handler_step(h, args, seq![first]),
                "sh"@,
                seq!["-c"@, "wl-paste"@],
            )
            &&& found(first, true) ==> handler_step(h, args, seq![first, outcome])
                == clipboard_said(output)
            &&& found(first, false) ==> runs(
                handler_step(h, args, seq![first]),
                "which"@,
                seq!["xclip"@],
            )
            &&& found(first, false) && found(second, true) ==> runs(
                handler_step(h, args, seq![first, second]),
                "sh"@,
                seq!["-c"@, "xclip -selection clipboard -o"@],
            )
            &&& found(first, false) && found(second, true) ==> handler_step(
                h,
                args,
                seq![first, second, outcome],
            ) == clipboard_said(output)
            &&& found(first, false) && found(second, false) ==> refuses(
                handler_step(h, args, seq![first, second]),
                "No clipboard tool available. Install wl-clipboard (Wayland) or xclip (X11)."@,
            )
        }),
{
}

/// What is said of the clipboard: its text without the white space around it, cut where it is
/// long, or that it is empty.
pub open spec fn clipboard_said(output: Output) -> StepView {
    let text = trimmed(lossy_text(output.stdout@));
    if !output.success {
        StepView::Finish(Err(ErrorView::Tool("clipboard read returned non-zero"@)))
    } else if text.len() == 0 {
        StepView::Finish(Ok("(clipboard is empty)"@))
    } else if utf8_len(text) <= 10_000 {
        StepView::Finish(Ok(text))
    } else if text.len() <= 10_000 {
        StepView::Finish(Ok(text + "\n\n[... clipboard truncated at 10KB ...]"@))
    } else {
        StepView::Finish(Ok(text.take(10_000) + "\n\n[... clipboard truncated at 10KB ...]"@))
    }
}

/// Exactly the given text is handed to the first of the two programs that is there.
#[verifier::spinoff_prover]
pub proof fn law_clipboard_is_written(args: JsonView, first: Reply, second: Reply, fed: Fed)
    ensures
        ({
            let h = Handler::ClipboardWrite;
            let text = match member_text(args, "text"@) {
                Some(given) => given,
                None => ""@,
            };
            &&& runs(handler_step(h, args, Seq::empty()), "which"@, seq!["wl-copy"@])
            &&& found(first, true) ==> wants(
                handler_step(h, args, seq![first]),
                RequestView::Feed {
                    invocation: InvocationView { program: "sh"@, args: seq!["-c"@, "wl-copy"@] },
                    input: text,
                },
            )
            &&& found(first, true) ==> handler_step(h, args, seq![first, Reply::Fed(fed)])
                == clipboard_wrote(fed)
            &&& found(first, false) ==> runs(
                handler_step(h, args, seq![first]),
                "which"@,
                seq!["xclip"@],
            )
            &&& found(first, false) && found(second, true) ==> wants(
                handler_step(h, args, seq![first, second]),
                RequestView::Feed {
                    invocation: InvocationView {
                        program: "sh"@,
                        args: seq!["-c"@, "xclip -selection clipboard"@],
                    },
                    input: text,
                },
            )
            &&& found(first, false) && found(second, true) ==> handler_step(
                h,
                args,
                seq![first, second, Reply::Fed(fed)],
            ) == clipboard_wrote(fed)
        }),
{
}

/// What is said of writing to the clipboard.
pub open spec fn clipboard_wrote(fed: Fed) -> StepView {
    match fed {
        Fed::NotStarted(e) => StepView::Finish(
            Err(ErrorView::Tool("clipboard write failed: "@ + e@)),
        ),
        Fed::Broken(e) => StepView::Finish(Err(ErrorView::Io(e@))),
        Fed::Ended(true) => StepView::Finish(Ok("Written to clipboard"@)),
        Fed::Ended(false) => StepView::Finish(
            Err(ErrorView::Tool("clipboard write returned non-zero"@)),
        ),
    }
}

/// The last commands are asked for, twenty where the number is not given, at least one and at
/// most a hundred, and told as fish lists them.
#[verifier::spinoff_prover]
pub proof fn law_last_commands(args: JsonView, output: Output, e: String)
    ensures
        ({
            let h = Handler::RecentCommands;
            let wrote = trimmed(lossy_text(output.stdout@));
            let count: nat = match member_unsigned(args, "limit"@) {
                None => 20,
                Some(n) => if n < 1 {
                    1
                } else if n > 100 {
                    100
                } else {
                    n as nat
                },
            };
            &&& (member_unsigned(args, "limit"@) matches Some(n) ==> n <= usize::MAX) ==> runs(
                handler_step(h, args, Seq::empty()),
                "fish"@,
                seq!["-c"@, "history | head -n "@ + decimal(count)],
            )
            &&& output.success && wrote.len() > 0 ==> tells(
                handler_step(h, args, ran(output)),
                wrote,
            )
            &&& output.success && wrote.len() == 0 ==> tells(
                handler_step(h, args, ran(output)),
                "(no fish history available)"@,
            )
            &&& !output.success ==> refuses(
                handler_step(h, args, ran(output)),
                "fish error: "@ + lossy_text(output.stderr@),
            )
            &&& refuses(
                handler_step(h, args, seq![Reply::Process(Err(e))]),
                "fish not available: "@ + e@,
            )
        }),
{
}

/// The exit code that fish prints is told, with what went to its error output.
#[verifier::spinoff_prover]
pub proof fn law_exit_code(args: JsonView, output: Output, e: String)
    ensures
        ({
            let h = Handler::LastExitCode;
            let code = trimmed(lossy_text(output.stdout@));
            let complaint = trimmed(lossy_text(output.stderr@));
            &&& runs(handler_step(h, args, Seq::empty()), "fish"@, seq!["-c"@, "echo $status"@])
            &&& output.success && complaint.len() == 0 ==> tells(
                handler_step(h, args, ran(output)),
                "Last exit code: "@ + code,
            )
            &&& complaint.len() > 0 ==> (handler_step(h, args, ran(output))
                matches StepView::Finish(Ok(text)) && occurs(text, complaint))
            &&& output.success ==> (handler_step(h, args, ran(output)) matches StepView::Finish(
                Ok(text),
            ) && occurs_at(text, "Last exit code: "@ + code, 0))
            &&& !output.success && complaint.len() == 0 ==> tells(
                handler_step(h, args, ran(output)),
                "(could not determine last exit code)"@,
            )
            &&& complaint.len() > 0 ==> tells(
                handler_step(h, args, ran(output)),
                (if output.success {
                    "Last exit code: "@ + code
                } else {
                    "(could not determine last exit code)"@
                }) + ("\nstderr:\n"@ + complaint),
            )
            &&& refuses(
                handler_step(h, args, seq![Reply::Process(Err(e))]),
                "fish not available"@,
            )
        }),
{
    let code = trimmed(lossy_text(output.stdout@));
    let complaint = trimmed(lossy_text(output.stderr@));
    let said = if output.success {
        "Last exit code: "@ + code
    } else {
        "(could not determine last exit code)"@
    };
    if complaint.len() > 0 {
        let text = said + ("\nstderr:\n"@ + complaint);
        let at: int = said.len() as int + "\nstderr:\n"@.len();
        assert(text.subrange(at, at + complaint.len()) =~= complaint);
        assert(occurs_at(text, complaint, at));
        assert(text.subrange(0, said.len() as int) =~= said);
    } else {
        assert(said + Seq::<char>::empty() =~= said);
        assert(said.subrange(0, said.len() as int) =~= said);
    }
}

} // verus!
