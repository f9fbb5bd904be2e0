//! Hyprland, asked through `hyprctl`. Where it is not there, the tools say so and
//! the summary leaves it out.
use vstd::prelude::*;

use crate::error::{answer, refusal, Answer, ErrorView, GremlinError};
use crate::process::{lossy_text, text_of, trimmed_text_of, Invocation, InvocationView, Outcome};
use crate::text::{join, joined, signed_decimal, signed_decimal_text, texts, trimmed};

verus! {

/// A window.
#[derive(Debug)]
pub struct WindowInfo {
    pub title: String,
    pub class: String,
    pub address: String,
    pub workspace: WorkspaceRef,
    pub pid: i64,
}

/// A workspace, by number and name.
#[derive(Debug)]
pub struct WorkspaceRef {
    pub id: i64,
    pub name: String,
}

/// A workspace and what is on it.
#[derive(Debug)]
pub struct WorkspaceInfo {
    pub id: i64,
    pub name: String,
    pub windows: i64,
    pub monitor: String,
}

/// A monitor. Its refresh rate is held as it is written.
#[derive(Debug)]
pub struct MonitorInfo {
    pub id: i64,
    pub name: String,
    pub description: String,
    pub width: i64,
    pub height: i64,
    pub refresh_rate: String,
    pub x: i64,
    pub y: i64,
    pub active_workspace: WorkspaceRef,
}

/// What came of asking `hyprctl`.
#[derive(Debug)]
pub enum Hyprctl<T> {
    /// It could not be run, for this reason.
    Unavailable(String),
    /// It ended with an error, and wrote this.
    Failed(Vec<u8>),
    /// What it wrote is not the document that was expected, for this reason.
    Unreadable(String),
    /// What it answered.
    Reply(T),
}

/// Why `hyprctl` has no reply.
pub open spec fn complaint<T>(r: Hyprctl<T>) -> Seq<char> {
    match r {
        Hyprctl::Unavailable(e) => "hyprctl not available: "@ + e@,
        Hyprctl::Failed(stderr) => "hyprctl error: "@ + lossy_text(stderr@),
        Hyprctl::Unreadable(e) => "hyprctl JSON parse error: "@ + e@,
        Hyprctl::Reply(_) => Seq::empty(),
    }
}

/// `r` is what `hyprctl` replied, or the error that says why it did not.
pub open spec fn is_reply<T>(r: Result<&T, GremlinError>, outcome: Hyprctl<T>) -> bool {
    match r {
        Ok(value) => outcome == Hyprctl::Reply(*value),
        Err(e) => !(outcome is Reply) && e@ == ErrorView::Tool(complaint(outcome)),
    }
}

/// A query to `hyprctl`, with its answer in JSON.
pub open spec fn hyprctl_view(query: Seq<char>) -> InvocationView {
    InvocationView { program: "hyprctl"@, args: seq!["-j"@, query] }
}

/// The line for the focused window.
pub open spec fn window_line(win: WindowInfo) -> Seq<char> {
    win.class@ + " — "@ + win.title@
}

/// The line for the active workspace.
pub open spec fn active_workspace_line(ws: WorkspaceInfo) -> Seq<char> {
    "Workspace "@ + signed_decimal(ws.id as int) + ": "@ + ws.name@
}

/// The line for a workspace.
pub open spec fn workspace_line(ws: WorkspaceInfo) -> Seq<char> {
    "Workspace "@ + signed_decimal(ws.id as int) + ": "@ + ws.name@ + " ("@ + signed_decimal(
        ws.windows as int,
    ) + " windows on "@ + ws.monitor@ + ")"@
}

/// The line for a monitor.
pub open spec fn monitor_line(m: MonitorInfo) -> Seq<char> {
    m.name@ + ": "@ + m.description@ + " "@ + signed_decimal(m.width as int) + "x"@
        + signed_decimal(m.height as int) + "@"@ + m.refresh_rate@ + "Hz"@
}

/// The lines for workspaces.
pub open spec fn workspace_lines(all: Seq<WorkspaceInfo>) -> Seq<Seq<char>> {
    all.map_values(|ws: WorkspaceInfo| workspace_line(ws))
}

/// The lines for monitors, each with `margin` before it.
pub open spec fn monitor_lines(all: Seq<MonitorInfo>, margin: Seq<char>) -> Seq<Seq<char>> {
    all.map_values(|m: MonitorInfo| margin + monitor_line(m))
}

/// What the tool for the focused window says.
pub open spec fn window_answer(win: Hyprctl<WindowInfo>) -> Answer {
    match win {
        Hyprctl::Reply(w) => Ok(window_line(w)),
        _ => refusal(complaint(win)),
    }
}

/// What the tool for the active workspace says.
pub open spec fn active_workspace_answer(ws: Hyprctl<WorkspaceInfo>) -> Answer {
    match ws {
        Hyprctl::Reply(w) => Ok(active_workspace_line(w)),
        _ => refusal(complaint(ws)),
    }
}

/// What the tool for workspaces says.
pub open spec fn workspaces_answer(all: Hyprctl<Vec<WorkspaceInfo>>) -> Answer {
    match all {
        Hyprctl::Reply(v) => Ok(joined(workspace_lines(v@), "\n"@)),
        _ => refusal(complaint(all)),
    }
}

/// What the tool for monitors says.
pub open spec fn monitors_answer(all: Hyprctl<Vec<MonitorInfo>>) -> Answer {
    match all {
        Hyprctl::Reply(v) => Ok(joined(monitor_lines(v@, ""@), "\n"@)),
        _ => refusal(complaint(all)),
    }
}

/// The parts of the summary: the workspace, the window and the monitors, as far as
/// they are known.
pub open spec fn summary_parts(
    ws: Hyprctl<WorkspaceInfo>,
    win: Hyprctl<WindowInfo>,
    monitors: Hyprctl<Vec<MonitorInfo>>,
) -> Seq<Seq<char>> {
    let first = match ws {
        Hyprctl::Reply(w) => seq![
            "Workspace: "@ + w.name@ + " (id="@ + signed_decimal(w.id as int) + ")"@,
        ],
        _ => Seq::empty(),
    };
    let second = match win {
        Hyprctl::Reply(w) => first.push("Focused: "@ + window_line(w)),
        _ => first,
    };
    match monitors {
        Hyprctl::Reply(v) if v@.len() > 0 => second.push(
            "Monitors:\n"@ + joined(monitor_lines(v@, "  "@), "\n"@),
        ),
        _ => second,
    }
}

/// The query for `hyprctl` with its answer in JSON.
pub fn hyprctl(query: &str) -> (r: Invocation)
    ensures
        r@ == hyprctl_view(query@),
{
    let r = Invocation::new("hyprctl").arg("-j").arg(query);
    assert(r@.args =~= hyprctl_view(query@).args);
    r
}

/// What `hyprctl` replied, or the error that says why it did not.
pub fn hyprctl_json<T>(outcome: &Hyprctl<T>) -> (r: Result<&T, GremlinError>)
    ensures
        is_reply(r, *outcome),
{
    match outcome {
        Hyprctl::Unavailable(e) => Err(GremlinError::tool("hyprctl not available: ", e.as_str())),
        Hyprctl::Failed(stderr) => Err(
            GremlinError::tool("hyprctl error: ", text_of(stderr).as_str()),
        ),
        Hyprctl::Unreadable(e) => Err(GremlinError::tool("hyprctl JSON parse error: ", e.as_str())),
        Hyprctl::Reply(value) => Ok(value),
    }
}

/// What `hyprctl` says of a run without JSON: its output without the white space
/// around it.
pub open spec fn raw_answer(outcome: Outcome) -> Answer {
    match outcome {
        Err(e) => refusal("hyprctl not available: "@ + e@),
        Ok(output) => if output.success {
            Ok(trimmed(lossy_text(output.stdout@)))
        } else {
            refusal("hyprctl error: "@ + lossy_text(output.stderr@))
        },
    }
}

/// What `hyprctl` wrote, without the white space around it.
pub fn hyprctl_raw(outcome: &Outcome) -> (r: Result<String, GremlinError>)
    ensures
        answer(r) == raw_answer(*outcome),
{
    match outcome {
        Err(e) => Err(GremlinError::tool("hyprctl not available: ", e.as_str())),
        Ok(output) => {
            if output.success {
                Ok(trimmed_text_of(&output.stdout))
            } else {
                Err(GremlinError::tool("hyprctl error: ", text_of(&output.stderr).as_str()))
            }
        },
    }
}

/// The focused window.
pub fn active_window(outcome: &Hyprctl<WindowInfo>) -> (r: Result<&WindowInfo, GremlinError>)
    ensures
        is_reply(r, *outcome),
{
    hyprctl_json(outcome)
}

/// The number and the name of the active workspace.
pub fn active_workspace(outcome: &Hyprctl<WorkspaceInfo>) -> (r: Result<(i64, String), GremlinError>)
    ensures
        match r {
            Ok((id, name)) => outcome matches Hyprctl::Reply(ws) && id == ws.id && name@ == ws.name@,
            Err(e) => !(*outcome is Reply) && e@ == ErrorView::Tool(complaint(*outcome)),
        },
{
    let ws = hyprctl_json(outcome)?;
    Ok((ws.id, ws.name.clone()))
}

/// All workspaces.
pub fn list_workspaces(outcome: &Hyprctl<Vec<WorkspaceInfo>>) -> (r: Result<
    &Vec<WorkspaceInfo>,
    GremlinError,
>)
    ensures
        is_reply(r, *outcome),
{
    hyprctl_json(outcome)
}

/// All monitors.
pub fn list_monitors(outcome: &Hyprctl<Vec<MonitorInfo>>) -> (r: Result<
    &Vec<MonitorInfo>,
    GremlinError,
>)
    ensures
        is_reply(r, *outcome),
{
    hyprctl_json(outcome)
}

fn window_text(win: &WindowInfo) -> (r: String)
    ensures
        r@ == window_line(*win),
{
    let mut r = win.class.clone();
    r.append(" — ");
    r.append(win.title.as_str());
    r
}

fn monitor_text(m: &MonitorInfo, margin: &str) -> (r: String)
    ensures
        r@ == margin@ + monitor_line(*m),
{
    let mut line = m.name.clone();
    line.append(": ");
    line.append(m.description.as_str());
    line.append(" ");
    line.append(signed_decimal_text(m.width).as_str());
    line.append("x");
    line.append(signed_decimal_text(m.height).as_str());
    line.append("@");
    line.append(m.refresh_rate.as_str());
    line.append("Hz");
    let mut r = margin.to_owned();
    r.append(line.as_str());
    r
}

fn monitor_texts(all: &Vec<MonitorInfo>, margin: &str) -> (r: Vec<String>)
    ensures
        texts(r@) == monitor_lines(all@, margin@),
{
    let mut r: Vec<String> = Vec::new();
    let mut i: usize = 0;
    assert(texts(r@) =~= monitor_lines(all@, margin@).take(0));
    while i < all.len()
        invariant
            i <= all@.len(),
            texts(r@) == monitor_lines(all@, margin@).take(i as int),
        decreases all@.len() - i,
    {
        let ghost before = r@;
        r.push(monitor_text(&all[i], margin));
        i = i + 1;
        assert(texts(r@) =~= texts(before).push(margin@ + monitor_line(all@[i - 1])));
        assert(texts(r@) =~= monitor_lines(all@, margin@).take(i as int));
    }
    assert(texts(r@) =~= monitor_lines(all@, margin@));
    r
}

/// The focused window, in a line.
pub fn focused_title(outcome: &Hyprctl<WindowInfo>) -> (r: Result<String, GremlinError>)
    ensures
        answer(r) == window_answer(*outcome),
{
    let win = active_window(outcome)?;
    Ok(window_text(win))
}

/// The active workspace, in a line.
pub fn active_workspace_text(outcome: &Hyprctl<WorkspaceInfo>) -> (r: Result<String, GremlinError>)
    ensures
        answer(r) == active_workspace_answer(*outcome),
{
    let (id, name) = active_workspace(outcome)?;
    let mut line = "Workspace ".to_owned();
    line.append(signed_decimal_text(id).as_str());
    line.append(": ");
    line.append(name.as_str());
    Ok(line)
}

/// All workspaces, a line each.
pub fn workspaces_text(outcome: &Hyprctl<Vec<WorkspaceInfo>>) -> (r: Result<String, GremlinError>)
    ensures
        answer(r) == workspaces_answer(*outcome),
{
    let all = list_workspaces(outcome)?;
    let mut lines: Vec<String> = Vec::new();
    let mut i: usize = 0;
    assert(texts(lines@) =~= workspace_lines(all@).take(0));
    while i < all.len()
        invariant
            i <= all@.len(),
            texts(lines@) == workspace_lines(all@).take(i as int),
        decreases all@.len() - i,
    {
        let ghost before = lines@;
        let ws = &all[i];
        let mut line = "Workspace ".to_owned();
        line.append(signed_decimal_text(ws.id).as_str());
        line.append(": ");
        line.append(ws.name.as_str());
        line.append(" (");
        line.append(signed_decimal_text(ws.windows).as_str());
        line.append(" windows on ");
        line.append(ws.monitor.as_str());
        line.append(")");
        assert(line@ == workspace_line(all@[i as int]));
        lines.push(line);
        i = i + 1;
        assert(texts(lines@) =~= texts(before).push(workspace_line(all@[i - 1])));
        assert(texts(lines@) =~= workspace_lines(all@).take(i as int));
    }
    assert(texts(lines@) =~= workspace_lines(all@));
    Ok(join(&lines, "\n"))
}

/// All monitors, a line each.
pub fn monitors_text(outcome: &Hyprctl<Vec<MonitorInfo>>) -> (r: Result<String, GremlinError>)
    ensures
        answer(r) == monitors_answer(*outcome),
{
    let all = list_monitors(outcome)?;
    Ok(join(&monitor_texts(all, ""), "\n"))
}

/// A summary of the desktop. It is empty where nothing is known, and never fails.
pub fn desktop_summary(
    ws: &Hyprctl<WorkspaceInfo>,
    win: &Hyprctl<WindowInfo>,
    monitors: &Hyprctl<Vec<MonitorInfo>>,
) -> (r: Result<String, GremlinError>)
    ensures
        answer(r) == Answer::Ok(joined(summary_parts(*ws, *win, *monitors), "\n"@)),
{
    let mut parts: Vec<String> = Vec::new();
    assert(texts(parts@) =~= Seq::<Seq<char>>::empty());
    match active_workspace(ws) {
        Ok((id, name)) => {
            let mut line = "Workspace: ".to_owned();
            line.append(name.as_str());
            line.append(" (id=");
            line.append(signed_decimal_text(id).as_str());
            line.append(")");
            parts.push(line);
            assert(texts(parts@) =~= seq![line@]);
        },
        Err(_) => {},
    }
    let ghost first = texts(parts@);
    match active_window(win) {
        Ok(w) => {
            let mut line = "Focused: ".to_owned();
            line.append(window_text(w).as_str());
            parts.push(line);
            assert(texts(parts@) =~= first.push(line@));
        },
        Err(_) => {},
    }
    let ghost second = texts(parts@);
    match list_monitors(monitors) {
        Ok(all) => {
            if all.len() > 0 {
                let mut line = "Monitors:\n".to_owned();
                line.append(join(&monitor_texts(all, "  "), "\n").as_str());
                parts.push(line);
                assert(texts(parts@) =~= second.push(line@));
            }
        },
        Err(_) => {},
    }
    Ok(join(&parts, "\n"))
}

/// Where nothing is known of the desktop, the summary is empty.
pub proof fn law_summary_without_hyprland_is_empty(
    ws: Hyprctl<WorkspaceInfo>,
    win: Hyprctl<WindowInfo>,
    monitors: Hyprctl<Vec<MonitorInfo>>,
)
    requires
        !(ws is Reply),
        !(win is Reply),
        !(monitors is Reply),
    ensures
        joined(summary_parts(ws, win, monitors), "\n"@) == Seq::<char>::empty(),
{
}

} // verus!
