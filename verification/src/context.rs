//! What is known of the user's surroundings before a prompt is sent.
use vstd::prelude::*;
use vstd::utf8::{
    decode_utf8, decode_utf8_encode_utf8, encode_utf8, encode_utf8_decode_utf8, is_char_boundary,
    valid_utf8_split,
};

use crate::config::copy_text;
use crate::error::GremlinError;
use crate::json::{empty_object, text_view, Json, JsonView};
use crate::ollama::ToolCall;
use crate::text::{byte_len, decimal, decimal_text, join, joined, same, texts, utf8_len};
use crate::tools::ToolResult;

verus! {

/// What is known of the surroundings.
#[derive(Debug)]
pub struct Context {
    pub working_directory: Option<String>,
    pub git_branch: Option<String>,
    pub git_status: Option<String>,
    pub git_diff: Option<String>,
    pub current_project: Option<String>,
    pub active_window: Option<String>,
    pub active_workspace: Option<String>,
    pub desktop_summary: Option<String>,
}

/// The content of a `Context`.
pub struct ContextView {
    pub working_directory: Option<Seq<char>>,
    pub git_branch: Option<Seq<char>>,
    pub git_status: Option<Seq<char>>,
    pub git_diff: Option<Seq<char>>,
    pub current_project: Option<Seq<char>>,
    pub active_window: Option<Seq<char>>,
    pub active_workspace: Option<Seq<char>>,
    pub desktop_summary: Option<Seq<char>>,
}

/// What the tools and the desktop said when the context was gathered.
#[derive(Debug)]
pub struct Surroundings {
    pub pwd: ToolResult,
    pub git_branch: ToolResult,
    pub git_status: ToolResult,
    pub git_diff: ToolResult,
    pub desktop_summary: Result<String, GremlinError>,
    pub active_window: ToolResult,
    pub active_workspace: ToolResult,
}

impl View for Context {
    type V = ContextView;

    open spec fn view(&self) -> ContextView {
        ContextView {
            working_directory: text_view(self.working_directory),
            git_branch: text_view(self.git_branch),
            git_status: text_view(self.git_status),
            git_diff: text_view(self.git_diff),
            current_project: text_view(self.current_project),
            active_window: text_view(self.active_window),
            active_workspace: text_view(self.active_workspace),
            desktop_summary: text_view(self.desktop_summary),
        }
    }
}

/// Nothing is known.
pub open spec fn empty_context() -> ContextView {
    ContextView {
        working_directory: None,
        git_branch: None,
        git_status: None,
        git_diff: None,
        current_project: None,
        active_window: None,
        active_workspace: None,
        desktop_summary: None,
    }
}

/// What a tool said, where it succeeded.
pub open spec fn said(r: ToolResult) -> Option<Seq<char>> {
    if r.success {
        Some(r.output@)
    } else {
        None
    }
}

/// What a tool said, where it succeeded and said something else than `nothing`.
pub open spec fn said_unless(r: ToolResult, nothing: Seq<char>) -> Option<Seq<char>> {
    if r.success && r.output@ != nothing {
        Some(r.output@)
    } else {
        None
    }
}

/// The context that is gathered from what was said.
pub open spec fn gathered(s: Surroundings) -> ContextView {
    ContextView {
        working_directory: said(s.pwd),
        git_branch: said(s.git_branch),
        git_status: said_unless(s.git_status, "(clean working tree)"@),
        git_diff: if s.git_diff.output@.len() > 0 {
            said(s.git_diff)
        } else {
            None
        },
        current_project: None,
        active_window: said(s.active_window),
        active_workspace: said(s.active_workspace),
        desktop_summary: match s.desktop_summary {
            Ok(text) if text@.len() > 0 => Some(text@),
            _ => None,
        },
    }
}

/// The text in the first `n` bytes of `s`.
pub open spec fn first_bytes(s: Seq<char>, n: nat) -> Seq<char> {
    decode_utf8(encode_utf8(s).subrange(0, n as int))
}

/// The first 4000 bytes of a longer diff end between two characters.
pub open spec fn cuts_cleanly(diff: Option<Seq<char>>) -> bool {
    match diff {
        Some(d) => utf8_len(d) > 4000 ==> is_char_boundary(encode_utf8(d), 4000),
        None => true,
    }
}

/// A diff as it stands in the prompt: the first 4000 bytes of a longer one.
pub open spec fn shown_diff(diff: Seq<char>) -> Seq<char> {
    if utf8_len(diff) > 4000 {
        first_bytes(diff, 4000) + "...\n(truncated, "@ + decimal(utf8_len(diff)) + " chars total)"@
    } else {
        diff
    }
}

/// `parts` with one more where there is something to say.
pub open spec fn with_part(
    parts: Seq<Seq<char>>,
    prefix: Seq<char>,
    part: Option<Seq<char>>,
) -> Seq<Seq<char>> {
    match part {
        Some(p) => parts.push(prefix + p),
        None => parts,
    }
}

/// The parts of the context string, with the diff in full where that is asked for.
pub open spec fn context_parts(c: ContextView, full_diff: bool) -> Seq<Seq<char>> {
    let p = with_part(Seq::empty(), "Working directory: "@, c.working_directory);
    let p = with_part(p, "Git branch: "@, c.git_branch);
    let p = with_part(p, "Git status:\n"@, c.git_status);
    let p = with_part(
        p,
        "Git diff (unstaged):\n"@,
        match c.git_diff {
            Some(d) => Some(
                if full_diff {
                    d
                } else {
                    shown_diff(d)
                },
            ),
            None => None,
        },
    );
    let p = with_part(p, "Current project: "@, c.current_project);
    let p = with_part(p, "Desktop:\n"@, c.desktop_summary);
    let p = with_part(p, "Active window: "@, c.active_window);
    with_part(p, ""@, c.active_workspace)
}

/// The context string, with the diff in full where that is asked for.
pub open spec fn context_string(c: ContextView, full_diff: bool) -> Seq<char> {
    let parts = context_parts(c, full_diff);
    if parts.len() == 0 {
        Seq::empty()
    } else {
        "System context:\n"@ + joined(parts, "\n"@) + "\n\n"@
    }
}

/// The context string, with the head of a long diff.
pub open spec fn prompt_string(c: ContextView) -> Seq<char> {
    context_string(c, false)
}

fn said_by(r: &ToolResult) -> (s: Option<String>)
    ensures
        text_view(s) == said(*r),
{
    if r.success {
        Some(r.output.clone())
    } else {
        None
    }
}

fn said_by_unless(r: &ToolResult, nothing: &str) -> (s: Option<String>)
    ensures
        text_view(s) == said_unless(*r, nothing@),
{
    if r.success && !same(r.output.as_str(), nothing) {
        Some(r.output.clone())
    } else {
        None
    }
}

/// The text in the first `n` bytes of `s`.
fn take_bytes(s: &str, n: usize) -> (r: String)
    requires
        is_char_boundary(encode_utf8(s@), n as int),
        n <= utf8_len(s@),
    ensures
        r@ == first_bytes(s@, n as nat),
{
    let (head, _) = s.split_at(n);
    proof {
        encode_utf8_decode_utf8(head@);
    }
    head.to_owned()
}

fn shown(diff: &str) -> (r: String)
    requires
        cuts_cleanly(Some(diff@)),
    ensures
        r@ == shown_diff(diff@),
{
    let total: usize = byte_len(diff);
    if total > 4000 {
        let mut r = take_bytes(diff, 4000);
        r.append("...\n(truncated, ");
        r.append(decimal_text(total as u64).as_str());
        r.append(" chars total)");
        r
    } else {
        diff.to_owned()
    }
}

fn add_part(parts: &mut Vec<String>, prefix: &str, part: &Option<String>)
    ensures
        texts(final(parts)@) == with_part(texts(old(parts)@), prefix@, text_view(*part)),
{
    match part {
        Some(p) => {
            let mut line = prefix.to_owned();
            line.append(p.as_str());
            parts.push(line);
            assert(texts(parts@) =~= texts(old(parts)@).push(line@));
        },
        None => {},
    }
}

/// The tool calls by which the context is gathered, in their order, without the
/// summary of the desktop.
pub fn context_calls() -> (r: Vec<ToolCall>)
    ensures
        r@.len() == 6,
        r@[0].name@ == "pwd"@ && r@[0].args@ == empty_object(),
        r@[1].name@ == "git_branch"@ && r@[1].args@ == empty_object(),
        r@[2].name@ == "git_status"@ && r@[2].args@ == empty_object(),
        r@[3].name@ == "git_diff"@ && r@[3].args@ == JsonView::Object(
            Map::empty().insert("staged"@, JsonView::Bool(false)),
        ),
        r@[4].name@ == "active_window"@ && r@[4].args@ == empty_object(),
        r@[5].name@ == "active_workspace"@ && r@[5].args@ == empty_object(),
{
    let mut r: Vec<ToolCall> = Vec::new();
    r.push(ToolCall { name: "pwd".to_owned(), args: Json::empty() });
    r.push(ToolCall { name: "git_branch".to_owned(), args: Json::empty() });
    r.push(ToolCall { name: "git_status".to_owned(), args: Json::empty() });
    r.push(
        ToolCall { name: "git_diff".to_owned(), args: Json::object1("staged", Json::Bool(false)) },
    );
    r.push(ToolCall { name: "active_window".to_owned(), args: Json::empty() });
    r.push(ToolCall { name: "active_workspace".to_owned(), args: Json::empty() });
    r
}

impl Context {
    /// Nothing is known.
    pub fn default() -> (c: Context)
        ensures
            c@ == empty_context(),
    {
        Context {
            working_directory: None,
            git_branch: None,
            git_status: None,
            git_diff: None,
            current_project: None,
            active_window: None,
            active_workspace: None,
            desktop_summary: None,
        }
    }

    /// The context that is gathered from what the tools and the desktop said.
    pub fn collect(s: &Surroundings) -> (c: Context)
        ensures
            c@ == gathered(*s),
            c@.working_directory is Some <==> s.pwd.success,
            c@.git_branch is Some <==> s.git_branch.success,
            c@.git_status is Some <==> s.git_status.success && s.git_status.output@
                != "(clean working tree)"@,
            c@.git_diff is Some <==> s.git_diff.success && s.git_diff.output@.len() > 0,
            c@.active_window is Some <==> s.active_window.success,
            c@.active_workspace is Some <==> s.active_workspace.success,
    {
        let mut c = Context::default();
        c.working_directory = said_by(&s.pwd);
        c.git_branch = said_by(&s.git_branch);
        c.git_status = said_by_unless(&s.git_status, "(clean working tree)");
        c.git_diff = if s.git_diff.success && !s.git_diff.output.as_str().is_empty() {
            Some(s.git_diff.output.clone())
        } else {
            None
        };
        c.active_window = said_by(&s.active_window);
        c.active_workspace = said_by(&s.active_workspace);
        if let Ok(text) = &s.desktop_summary {
            if !text.as_str().is_empty() {
                c.desktop_summary = Some(text.clone());
            }
        }
        c
    }

    /// The context as it is put before a prompt: empty where nothing is known.
    pub fn to_prompt_string(&self) -> (r: String)
        requires
            cuts_cleanly(self@.git_diff),
        ensures
            r@ == prompt_string(self@),
    {
        self.context_text(false)
    }

    /// The context as it is put before a prompt, with the diff in full where that is asked
    /// for: empty where nothing is known.
    pub fn context_text(&self, full_diff: bool) -> (r: String)
        requires
            full_diff || cuts_cleanly(self@.git_diff),
        ensures
            r@ == context_string(self@, full_diff),
    {
        let mut parts: Vec<String> = Vec::new();
        assert(texts(parts@) =~= Seq::<Seq<char>>::empty());
        add_part(&mut parts, "Working directory: ", &self.working_directory);
        add_part(&mut parts, "Git branch: ", &self.git_branch);
        add_part(&mut parts, "Git status:\n", &self.git_status);
        let diff: Option<String> = match &self.git_diff {
            Some(d) => Some(
                if full_diff {
                    d.clone()
                } else {
                    shown(d.as_str())
                },
            ),
            None => None,
        };
        add_part(&mut parts, "Git diff (unstaged):\n", &diff);
        add_part(&mut parts, "Current project: ", &self.current_project);
        add_part(&mut parts, "Desktop:\n", &self.desktop_summary);
        add_part(&mut parts, "Active window: ", &self.active_window);
        add_part(&mut parts, "", &self.active_workspace);
        assert(texts(parts@).len() == parts@.len());
        if parts.len() == 0 {
            proof {
                reveal_strlit("");
                assert(""@ =~= Seq::<char>::empty());
            }
            "".to_owned()
        } else {
            let mut r = "System context:\n".to_owned();
            r.append(join(&parts, "\n").as_str());
            r.append("\n\n");
            r
        }
    }

    /// A context with the same content.
    pub fn copy(&self) -> (c: Context)
        ensures
            c@ == self@,
    {
        Context {
            working_directory: copy_text(&self.working_directory),
            git_branch: copy_text(&self.git_branch),
            git_status: copy_text(&self.git_status),
            git_diff: copy_text(&self.git_diff),
            current_project: copy_text(&self.current_project),
            active_window: copy_text(&self.active_window),
            active_workspace: copy_text(&self.active_workspace),
            desktop_summary: copy_text(&self.desktop_summary),
        }
    }
}

/// The context string is empty exactly where nothing is known.
pub proof fn law_context_string_is_empty_iff_nothing_is_known(c: ContextView, full_diff: bool)
    ensures
        context_string(c, full_diff).len() == 0 <==> c == empty_context(),
{
    reveal_strlit("System context:\n");
}

/// Where every tool fails and the desktop has nothing to say, nothing is known, and
/// nothing is put before the prompt.
pub proof fn law_context_without_tools_is_empty(s: Surroundings)
    requires
        !s.pwd.success,
        !s.git_branch.success,
        !s.git_status.success,
        !s.git_diff.success,
        !s.active_window.success,
        !s.active_workspace.success,
        s.desktop_summary is Err,
    ensures
        gathered(s) == empty_context(),
        prompt_string(gathered(s)) == Seq::<char>::empty(),
{
}

/// Of a diff that is cut, the prompt keeps exactly 4000 bytes.
pub proof fn law_shown_diff_keeps_its_head(diff: Seq<char>)
    requires
        cuts_cleanly(Some(diff)),
        utf8_len(diff) > 4000,
    ensures
        utf8_len(first_bytes(diff, 4000)) == 4000,
        encode_utf8(first_bytes(diff, 4000)) == encode_utf8(diff).subrange(0, 4000),
{
    vstd::utf8::encode_utf8_valid_utf8(diff);
    valid_utf8_split(encode_utf8(diff), 4000);
    decode_utf8_encode_utf8(encode_utf8(diff).subrange(0, 4000));
}

} // verus!
