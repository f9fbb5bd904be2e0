//! The Hermes coding service: the prompts it is given, and what it answers.
use vstd::prelude::*;

use crate::config::{copy_text, HermesConfig};
use crate::context::{context_parts, context_string, cuts_cleanly, Context, ContextView};
use crate::error::{ErrorView, GremlinError};
use crate::json::text_view;
use crate::process::{lossy_text, trimmed_text_of, Invocation, InvocationView, Output};
use crate::text::{
    clip, clipped, decimal, decimal_text, join, joined, law_clipped_is_bounded,
    lemma_occurs_between, lemma_occurs_joined, occurs, occurs_at, same, texts, trimmed,
};

verus! {

/// How many seconds Hermes may take.
pub const HERMES_TIMEOUT_SECS: u64 = 300;

/// What Hermes gave back. How long it took is held as it is written, in seconds.
#[derive(Debug)]
pub struct HermesResult {
    pub success: bool,
    pub output: String,
    pub duration_secs: String,
}

/// The content of a `HermesResult`.
pub struct HermesView {
    pub success: bool,
    pub output: Seq<char>,
    pub duration_secs: Seq<char>,
}

/// What came of running Hermes.
#[derive(Debug)]
pub enum HermesOutcome {
    /// It could not be started, for this reason.
    NotStarted(String),
    /// It did not end in time.
    TimedOut,
    /// The task that waited for it failed, for this reason.
    Panicked(String),
    /// It could not be waited for, for this reason.
    Lost(String),
    /// It ended and left this, after so many seconds.
    Ended { output: Output, duration_secs: String },
}

/// A run of Hermes: the program, and the model that it is told of in its
/// environment.
#[derive(Debug)]
pub struct HermesCommand {
    pub invocation: Invocation,
    pub model: String,
}

/// The content of a `HermesCommand`.
pub struct HermesCommandView {
    pub invocation: InvocationView,
    pub model: Seq<char>,
}

/// A prompt for a kind of coding task, which is filled with the context.
#[derive(Debug)]
pub struct PromptTemplate {
    pub name: String,
    pub description: String,
    /// What stands before everything else.
    pub system_prompt: String,
    /// What stands behind the context.
    pub instructions: Option<String>,
    /// The language of the code block that is asked for.
    pub output_tag: Option<String>,
    /// The context holds the full diff of the repository.
    pub include_diff: bool,
}

/// The content of a `PromptTemplate`.
pub struct TemplateView {
    pub name: Seq<char>,
    pub description: Seq<char>,
    pub system_prompt: Seq<char>,
    pub instructions: Option<Seq<char>>,
    pub output_tag: Option<Seq<char>>,
    pub include_diff: bool,
}

impl View for HermesResult {
    type V = HermesView;

    open spec fn view(&self) -> HermesView {
        HermesView {
            success: self.success,
            output: self.output@,
            duration_secs: self.duration_secs@,
        }
    }
}

impl View for HermesCommand {
    type V = HermesCommandView;

    open spec fn view(&self) -> HermesCommandView {
        HermesCommandView { invocation: self.invocation@, model: self.model@ }
    }
}

impl View for PromptTemplate {
    type V = TemplateView;

    open spec fn view(&self) -> TemplateView {
        TemplateView {
            name: self.name@,
            description: self.description@,
            system_prompt: self.system_prompt@,
            instructions: text_view(self.instructions),
            output_tag: text_view(self.output_tag),
            include_diff: self.include_diff,
        }
    }
}

/// What the model is told for the template code_review.
pub const CODE_REVIEW_PROMPT: &'static str = "You are performing a thorough code review. Examine the code for:\n\
    - Bugs and logic errors\n\
    - Security vulnerabilities\n\
    - Performance issues\n\
    - Adherence to the project's existing style and patterns\n\
    - Unnecessary complexity\n\n\
    Be specific. Reference exact lines. Suggest concrete fixes, not vague advice.\n\
    If the code is good, say so — don't invent issues.";

/// What the template code_review is for.
pub const CODE_REVIEW_DESCRIPTION: &'static str =
    "Review code for bugs, security issues, performance problems, and style violations";

/// What the model is told for the template bug_fix.
pub const BUG_FIX_PROMPT: &'static str = "You are fixing a bug. Your job is to produce the minimal correct fix.\n\n\
    Rules:\n\
    - Change ONLY what's necessary to fix the bug\n\
    - Do not refactor unrelated code\n\
    - Do not add features\n\
    - Preserve existing code style and patterns\n\
    - If you're unsure, explain what additional information you'd need\n\n\
    Provide the fix as a unified diff or specific file edits.";

/// What the template bug_fix is for.
pub const BUG_FIX_DESCRIPTION: &'static str =
    "Fix a specific bug. Include error messages and reproduction steps in your request.";

/// What follows the context for the template bug_fix.
pub const BUG_FIX_INSTRUCTIONS: &'static str =
    "If there's a compiler error or stack trace available, it will be in the context above. Use it to locate the exact problem.";

/// What the model is told for the template architecture.
pub const ARCHITECTURE_PROMPT: &'static str = "You are evaluating the architecture of a software project.\n\n\
    Consider:\n\
    - Separation of concerns\n\
    - Data flow and coupling\n\
    - Testability and maintainability\n\
    - Performance implications of the current design\n\
    - How the architecture supports or hinders the project's goals\n\n\
    Be constructive, not critical for its own sake. If the architecture is appropriate, say why.\n\
    If you recommend changes, explain the tradeoffs.";

/// What the template architecture is for.
pub const ARCHITECTURE_DESCRIPTION: &'static str =
    "Evaluate architecture decisions, design patterns, or system structure";

/// What the model is told for the template refactor.
pub const REFACTOR_PROMPT: &'static str = "You are refactoring existing code. Your changes must NOT alter behavior.\n\n\
    Goals (in priority order):\n\
    1. Correctness — the refactored code must behave identically\n\
    2. Clarity — make the code easier to understand\n\
    3. Performance — improve efficiency where it matters\n\
    4. Consistency — match the project's existing patterns\n\n\
    Provide the refactored code as a diff or complete file replacement.\n\
    Explain what you changed and why.";

/// What the template refactor is for.
pub const REFACTOR_DESCRIPTION: &'static str =
    "Refactor code for clarity, performance, or maintainability without changing behavior";

/// What follows the context for the template refactor.
pub const REFACTOR_INSTRUCTIONS: &'static str =
    "The existing code is in the context. Only suggest changes that preserve all existing tests and behavior.";

/// What the model is told for the template explain.
pub const EXPLAIN_PROMPT: &'static str = "You are explaining how code works to an experienced developer.\n\n\
    Be concise but thorough. Assume the reader understands the language and basic patterns.\n\
    Focus on:\n\
    - The high-level flow\n\
    - Non-obvious design decisions\n\
    - Edge cases and gotchas\n\
    - How this code fits into the larger system\n\n\
    Do not explain basic syntax. Do not write a line-by-line commentary.";

/// What the template explain is for.
pub const EXPLAIN_DESCRIPTION: &'static str =
    "Explain how a piece of code or system works";

/// What the model is told for the template documentation.
pub const DOCUMENTATION_PROMPT: &'static str = "You are writing documentation for developers.\n\n\
    Produce documentation that is:\n\
    - Clear and concise\n\
    - Focused on usage, not implementation details (unless relevant)\n\
    - Well-structured with examples where appropriate\n\
    - Consistent with the project's existing documentation style\n\n\
    Include: purpose, usage examples, API reference, and any important caveats.";

/// What the template documentation is for.
pub const DOCUMENTATION_DESCRIPTION: &'static str =
    "Generate or improve documentation for code";

/// The templates that are built in.
pub open spec fn builtin_views() -> Seq<TemplateView> {
    seq![
        TemplateView {
            name: "code_review"@,
            description: CODE_REVIEW_DESCRIPTION@,
            system_prompt: CODE_REVIEW_PROMPT@,
            instructions: None,
            output_tag: None,
            include_diff: true,
        },
        TemplateView {
            name: "bug_fix"@,
            description: BUG_FIX_DESCRIPTION@,
            system_prompt: BUG_FIX_PROMPT@,
            instructions: Some(BUG_FIX_INSTRUCTIONS@),
            output_tag: Some("diff"@),
            include_diff: true,
        },
        TemplateView {
            name: "architecture"@,
            description: ARCHITECTURE_DESCRIPTION@,
            system_prompt: ARCHITECTURE_PROMPT@,
            instructions: None,
            output_tag: None,
            include_diff: false,
        },
        TemplateView {
            name: "refactor"@,
            description: REFACTOR_DESCRIPTION@,
            system_prompt: REFACTOR_PROMPT@,
            instructions: Some(REFACTOR_INSTRUCTIONS@),
            output_tag: Some("diff"@),
            include_diff: true,
        },
        TemplateView {
            name: "explain"@,
            description: EXPLAIN_DESCRIPTION@,
            system_prompt: EXPLAIN_PROMPT@,
            instructions: None,
            output_tag: None,
            include_diff: false,
        },
        TemplateView {
            name: "documentation"@,
            description: DOCUMENTATION_DESCRIPTION@,
            system_prompt: DOCUMENTATION_PROMPT@,
            instructions: None,
            output_tag: Some("markdown"@),
            include_diff: false,
        },
    ]
}

/// What the model is told for a task of no particular kind.
pub const GENERIC_PROMPT: &'static str = "You are working on a coding task.\n\n\
    Rules:\n\
    - Do what the task asks, and nothing else\n\
    - Preserve existing code style and patterns\n\
    - If you're unsure, explain what additional information you'd need\n\n\
    Be specific. Explain what you changed and why.";

/// What is said of the template for a task of no particular kind.
pub const GENERIC_DESCRIPTION: &'static str = "Any other coding task";

/// The template for a task of no particular kind.
pub open spec fn generic_view() -> TemplateView {
    TemplateView {
        name: "generic"@,
        description: GENERIC_DESCRIPTION@,
        system_prompt: GENERIC_PROMPT@,
        instructions: None,
        output_tag: None,
        include_diff: false,
    }
}

/// The parts of the prompt: the template, the context where something is known,
/// the instructions, the task and the format that is asked for.
pub open spec fn prompt_parts(
    template: TemplateView,
    context: ContextView,
    request: Seq<char>,
) -> Seq<Seq<char>> {
    let known = context_string(context, template.include_diff);
    let p = seq![template.system_prompt];
    let p = if known.len() > 0 {
        p.push("Project context (auto-gathered, do not ask the user for this):\n"@ + known)
    } else {
        p
    };
    let p = match template.instructions {
        Some(i) => p.push(i),
        None => p,
    };
    let p = p.push("Task:\n"@ + request);
    match template.output_tag {
        Some(tag) => p.push(
            "Format your response as:\n```"@ + tag + "\n(your changes here)\n```"@,
        ),
        None => p,
    }
}

/// The prompt for Hermes.
pub open spec fn hermes_prompt(
    template: TemplateView,
    context: ContextView,
    request: Seq<char>,
) -> Seq<char> {
    joined(prompt_parts(template, context, request), "\n\n"@)
}

/// The run of Hermes with a prompt.
pub open spec fn hermes_command(config: HermesConfig, prompt: Seq<char>) -> HermesCommandView {
    HermesCommandView {
        invocation: InvocationView { program: config.binary@, args: seq!["ask"@, prompt] },
        model: config.coding_model@,
    }
}

/// What Hermes said, or why it said nothing.
pub open spec fn hermes_result(
    binary: Seq<char>,
    outcome: HermesOutcome,
) -> Result<HermesView, ErrorView> {
    match outcome {
        HermesOutcome::NotStarted(e) => Err(
            ErrorView::Tool("Failed to launch Hermes ("@ + binary + "): "@ + e@),
        ),
        HermesOutcome::TimedOut => Err(
            ErrorView::Tool(
                "Hermes timed out after "@ + decimal(HERMES_TIMEOUT_SECS as nat) + " seconds"@,
            ),
        ),
        HermesOutcome::Panicked(e) => Err(ErrorView::Tool("Hermes task panicked: "@ + e@)),
        HermesOutcome::Lost(e) => Err(ErrorView::Tool("Hermes process error: "@ + e@)),
        HermesOutcome::Ended { output, duration_secs } => Ok(
            if output.success {
                HermesView {
                    success: true,
                    output: clipped(
                        trimmed(lossy_text(output.stdout@)),
                        30_000,
                        "\n\n[... response truncated at 30KB ...]"@,
                    ),
                    duration_secs: duration_secs@,
                }
            } else {
                let complaint = trimmed(lossy_text(output.stderr@));
                HermesView {
                    success: false,
                    output: "Hermes exited with error:\n"@ + (if complaint.len() > 0 {
                        complaint
                    } else {
                        trimmed(lossy_text(output.stdout@))
                    }),
                    duration_secs: duration_secs@,
                }
            },
        ),
    }
}

/// What the tool says of a result.
pub open spec fn hermes_line(r: HermesView) -> Seq<char> {
    "Hermes "@ + (if r.success {
        "completed"@
    } else {
        "failed"@
    }) + " (took "@ + r.duration_secs + "s):\n"@ + r.output
}

/// The contents of templates.
pub open spec fn templates_view(all: Seq<PromptTemplate>) -> Seq<TemplateView> {
    all.map_values(|t: PromptTemplate| t@)
}

/// The first template of this name, from position `i` on.
pub open spec fn find_from(all: Seq<TemplateView>, name: Seq<char>, i: int) -> Option<TemplateView>
    decreases all.len() - i,
{
    if i < 0 || i >= all.len() {
        None
    } else if all[i].name == name {
        Some(all[i])
    } else {
        find_from(all, name, i + 1)
    }
}

/// The first template of this name, or else the one for a task of no particular kind.
pub open spec fn template_for(all: Seq<TemplateView>, name: Seq<char>) -> TemplateView {
    match find_from(all, name, 0) {
        Some(t) => t,
        None => generic_view(),
    }
}

/// The names of templates.
pub open spec fn names_of(all: Seq<TemplateView>) -> Seq<Seq<char>> {
    all.map_values(|t: TemplateView| t.name)
}

/// The content of a template that was found.
pub open spec fn found_view(t: Option<PromptTemplate>) -> Option<TemplateView> {
    match t {
        Some(t) => Some(t@),
        None => None,
    }
}

/// The prompt for Hermes: the template, the context, the instructions, the task
/// and the format that is asked for.
pub fn build_prompt(template: &PromptTemplate, context: &Context, user_request: &str) -> (r: String)
    requires
        template.include_diff || cuts_cleanly(context@.git_diff),
    ensures
        r@ == hermes_prompt(template@, context@, user_request@),
{
    let mut parts: Vec<String> = Vec::new();
    parts.push(template.system_prompt.clone());
    let ghost mut p = seq![template@.system_prompt];
    assert(texts(parts@) =~= p);
    let known = context.context_text(template.include_diff);
    if !known.as_str().is_empty() {
        let mut part = "Project context (auto-gathered, do not ask the user for this):\n".to_owned();
        part.append(known.as_str());
        parts.push(part);
        proof {
            p = p.push(part@);
        }
        assert(texts(parts@) =~= p);
    }
    if let Some(instructions) = &template.instructions {
        parts.push(instructions.clone());
        proof {
            p = p.push(instructions@);
        }
        assert(texts(parts@) =~= p);
    }
    let mut task = "Task:\n".to_owned();
    task.append(user_request);
    parts.push(task);
    proof {
        p = p.push(task@);
    }
    assert(texts(parts@) =~= p);
    if let Some(tag) = &template.output_tag {
        let mut part = "Format your response as:\n```".to_owned();
        part.append(tag.as_str());
        part.append("\n(your changes here)\n```");
        parts.push(part);
        proof {
            p = p.push(part@);
        }
        assert(texts(parts@) =~= p);
    }
    join(&parts, "\n\n")
}

/// The run of Hermes for a task.
pub fn launch_command(
    config: &HermesConfig,
    template: &PromptTemplate,
    context: &Context,
    user_request: &str,
) -> (r: HermesCommand)
    requires
        template.include_diff || cuts_cleanly(context@.git_diff),
    ensures
        r@ == hermes_command(*config, hermes_prompt(template@, context@, user_request@)),
{
    let prompt = build_prompt(template, context, user_request);
    let invocation = Invocation::new(config.binary.as_str()).arg("ask").arg(prompt.as_str());
    assert(invocation@.args =~= seq!["ask"@, prompt@]);
    HermesCommand { invocation, model: config.coding_model.clone() }
}

/// What Hermes said, given what came of running it.
pub fn launch(binary: &str, outcome: &HermesOutcome) -> (r: Result<HermesResult, GremlinError>)
    ensures
        match r {
            Ok(result) => hermes_result(binary@, *outcome) == Result::<_, ErrorView>::Ok(result@),
            Err(e) => hermes_result(binary@, *outcome) == Result::<HermesView, _>::Err(e@),
        },
{
    match outcome {
        HermesOutcome::NotStarted(e) => {
            let mut words = "Failed to launch Hermes (".to_owned();
            words.append(binary);
            words.append("): ");
            words.append(e.as_str());
            Err(GremlinError::Tool(words))
        },
        HermesOutcome::TimedOut => {
            let mut words = "Hermes timed out after ".to_owned();
            words.append(decimal_text(HERMES_TIMEOUT_SECS).as_str());
            words.append(" seconds");
            Err(GremlinError::Tool(words))
        },
        HermesOutcome::Panicked(e) => Err(
            GremlinError::tool("Hermes task panicked: ", e.as_str()),
        ),
        HermesOutcome::Lost(e) => Err(GremlinError::tool("Hermes process error: ", e.as_str())),
        HermesOutcome::Ended { output, duration_secs } => {
            if output.success {
                let stdout = trimmed_text_of(&output.stdout);
                Ok(
                    HermesResult {
                        success: true,
                        output: clip(
                            stdout.as_str(),
                            30_000,
                            "\n\n[... response truncated at 30KB ...]",
                        ),
                        duration_secs: duration_secs.clone(),
                    },
                )
            } else {
                let stderr = trimmed_text_of(&output.stderr);
                let mut words = "Hermes exited with error:\n".to_owned();
                if !stderr.as_str().is_empty() {
                    words.append(stderr.as_str());
                } else {
                    words.append(trimmed_text_of(&output.stdout).as_str());
                }
                Ok(
                    HermesResult {
                        success: false,
                        output: words,
                        duration_secs: duration_secs.clone(),
                    },
                )
            }
        },
    }
}

/// What the tool says of a result.
pub fn result_text(result: &HermesResult) -> (r: String)
    ensures
        r@ == hermes_line(result@),
{
    let mut r = "Hermes ".to_owned();
    if result.success {
        r.append("completed");
    } else {
        r.append("failed");
    }
    r.append(" (took ");
    r.append(result.duration_secs.as_str());
    r.append("s):\n");
    r.append(result.output.as_str());
    r
}

fn optional(s: Option<&str>) -> (r: Option<String>)
    ensures
        text_view(r) == (match s {
            Some(s) => Some(s@),
            None => None,
        }),
{
    match s {
        Some(s) => Some(s.to_owned()),
        None => None,
    }
}

fn template(
    name: &str,
    description: &str,
    system_prompt: &str,
    instructions: Option<&str>,
    output_tag: Option<&str>,
    include_diff: bool,
) -> (t: PromptTemplate)
    ensures
        t@ == (TemplateView {
            name: name@,
            description: description@,
            system_prompt: system_prompt@,
            instructions: match instructions {
                Some(s) => Some(s@),
                None => None,
            },
            output_tag: match output_tag {
                Some(s) => Some(s@),
                None => None,
            },
            include_diff,
        }),
{
    PromptTemplate {
        name: name.to_owned(),
        description: description.to_owned(),
        system_prompt: system_prompt.to_owned(),
        instructions: optional(instructions),
        output_tag: optional(output_tag),
        include_diff,
    }
}

/// The templates that are built in.
pub fn builtin_templates() -> (all: Vec<PromptTemplate>)
    ensures
        templates_view(all@) == builtin_views(),
{
    let mut all: Vec<PromptTemplate> = Vec::new();
    all.push(
        template("code_review", CODE_REVIEW_DESCRIPTION, CODE_REVIEW_PROMPT, None, None, true),
    );
    all.push(
        template(
            "bug_fix",
            BUG_FIX_DESCRIPTION,
            BUG_FIX_PROMPT,
            Some(BUG_FIX_INSTRUCTIONS),
            Some("diff"),
            true,
        ),
    );
    all.push(
        template("architecture", ARCHITECTURE_DESCRIPTION, ARCHITECTURE_PROMPT, None, None, false),
    );
    all.push(
        template(
            "refactor",
            REFACTOR_DESCRIPTION,
            REFACTOR_PROMPT,
            Some(REFACTOR_INSTRUCTIONS),
            Some("diff"),
            true,
        ),
    );
    all.push(template("explain", EXPLAIN_DESCRIPTION, EXPLAIN_PROMPT, None, None, false));
    all.push(
        template(
            "documentation",
            DOCUMENTATION_DESCRIPTION,
            DOCUMENTATION_PROMPT,
            None,
            Some("markdown"),
            false,
        ),
    );
    assert(templates_view(all@) =~= builtin_views());
    all
}

impl PromptTemplate {
    /// A template with the same content.
    pub fn copy(&self) -> (t: PromptTemplate)
        ensures
            t@ == self@,
    {
        PromptTemplate {
            name: self.name.clone(),
            description: self.description.clone(),
            system_prompt: self.system_prompt.clone(),
            instructions: copy_text(&self.instructions),
            output_tag: copy_text(&self.output_tag),
            include_diff: self.include_diff,
        }
    }
}

/// The template for a task of no particular kind.
pub fn generic_template() -> (t: PromptTemplate)
    ensures
        t@ == generic_view(),
{
    template("generic", GENERIC_DESCRIPTION, GENERIC_PROMPT, None, None, false)
}

fn find_in(all: &Vec<PromptTemplate>, name: &str) -> (r: Option<PromptTemplate>)
    ensures
        found_view(r) == find_from(templates_view(all@), name@, 0),
{
    let ghost views = templates_view(all@);
    let mut i: usize = 0;
    while i < all.len()
        invariant
            i <= all@.len(),
            views == templates_view(all@),
            views.len() == all@.len(),
            find_from(views, name@, 0) == find_from(views, name@, i as int),
        decreases all@.len() - i,
    {
        assert(views[i as int] == all@[i as int]@);
        if same(all[i].name.as_str(), name) {
            return Some(all[i].copy());
        }
        i = i + 1;
    }
    None
}

/// The template of this name, of the built-in ones and those of the user. For a name that
/// none of them has, it is the one for a task of no particular kind.
pub fn find_template_among(user: &Vec<PromptTemplate>, name: &str) -> (t: PromptTemplate)
    ensures
        t@ == template_for(builtin_views() + templates_view(user@), name@),
{
    proof {
        lemma_find_both(builtin_views(), templates_view(user@), name@, 0);
    }
    if let Some(t) = find_in(&builtin_templates(), name) {
        return t;
    }
    if let Some(t) = find_in(user, name) {
        return t;
    }
    generic_template()
}

/// The built-in template of this name. For a name that none of them has, it is the one for
/// a task of no particular kind.
pub fn find_template(name: &str) -> (r: Option<PromptTemplate>)
    ensures
        found_view(r) == Some(
            match find_from(builtin_views(), name@, 0) {
                Some(t) => t,
                None => generic_view(),
            },
        ),
{
    let none: Vec<PromptTemplate> = Vec::new();
    assert(builtin_views() + templates_view(none@) =~= builtin_views());
    Some(find_template_among(&none, name))
}

/// The names of the built-in templates.
pub fn template_names() -> (names: Vec<String>)
    ensures
        texts(names@) == names_of(builtin_views()),
{
    let all = builtin_templates();
    let mut names: Vec<String> = Vec::new();
    let mut i: usize = 0;
    assert(templates_view(all@).len() == all@.len());
    while i < all.len()
        invariant
            i <= all@.len(),
            templates_view(all@) == builtin_views(),
            templates_view(all@).len() == all@.len(),
            texts(names@) =~= names_of(builtin_views()).take(i as int),
        decreases all@.len() - i,
    {
        let ghost before = names@;
        names.push(all[i].name.clone());
        i = i + 1;
        assert(texts(names@) =~= texts(before).push(all@[i - 1].name@));
        assert(templates_view(all@)[i - 1] == all@[i - 1]@);
    }
    assert(texts(names@) =~= names_of(builtin_views()));
    names
}

proof fn lemma_found(all: Seq<TemplateView>, name: Seq<char>, i: int)
    requires
        0 <= i <= all.len(),
    ensures
        match find_from(all, name, i) {
            Some(t) => t.name == name && exists|j: int| i <= j < all.len() && all[j] == t,
            None => forall|j: int| i <= j < all.len() ==> (#[trigger] all[j]).name != name,
        },
    decreases all.len() - i,
{
    if i < all.len() && all[i].name != name {
        lemma_found(all, name, i + 1);
    }
}

proof fn lemma_find_both(a: Seq<TemplateView>, b: Seq<TemplateView>, name: Seq<char>, i: int)
    requires
        0 <= i <= a.len(),
    ensures
        find_from(a + b, name, i) == (match find_from(a, name, i) {
            Some(t) => Some(t),
            None => find_from(b, name, 0),
        }),
    decreases a.len() - i,
{
    if i < a.len() {
        assert((a + b)[i] == a[i]);
        lemma_find_both(a, b, name, i + 1);
    } else {
        lemma_find_behind(a, b, name, 0);
    }
}

proof fn lemma_find_behind(a: Seq<TemplateView>, b: Seq<TemplateView>, name: Seq<char>, i: int)
    requires
        0 <= i <= b.len(),
    ensures
        find_from(a + b, name, a.len() + i) == find_from(b, name, i),
    decreases b.len() - i,
{
    if i < b.len() {
        assert((a + b)[a.len() + i] == b[i]);
        lemma_find_behind(a, b, name, i + 1);
    }
}

/// The user's templates are found beside the built-in ones, which keep their names; a name
/// that none has stands for the template for a task of no particular kind.
pub proof fn law_user_templates_are_found(user: Seq<TemplateView>, name: Seq<char>)
    ensures
        template_for(builtin_views() + user, name) == (if names_of(builtin_views()).contains(
            name,
        ) {
            template_for(builtin_views(), name)
        } else {
            template_for(user, name)
        }),
        !names_of(builtin_views()).contains(name) && !names_of(user).contains(name)
            ==> template_for(builtin_views() + user, name) == generic_view(),
{
    lemma_find_both(builtin_views(), user, name, 0);
    law_templates_are_found_by_their_names(name);
    lemma_found(user, name, 0);
    if let Some(t) = find_from(user, name, 0) {
        let j = choose|j: int| 0 <= j < user.len() && user[j] == t;
        assert(names_of(user)[j] == name);
    }
}

/// A template is found exactly under the names that are listed, and it has the name
/// it was looked for under.
pub proof fn law_templates_are_found_by_their_names(name: Seq<char>)
    ensures
        find_from(builtin_views(), name, 0) is Some <==> names_of(builtin_views()).contains(name),
        find_from(builtin_views(), name, 0) matches Some(t) ==> t.name == name,
{
    let all = builtin_views();
    lemma_found(all, name, 0);
    if let Some(t) = find_from(all, name, 0) {
        let j = choose|j: int| 0 <= j < all.len() && all[j] == t;
        assert(names_of(all)[j] == name);
    }
    if names_of(all).contains(name) {
        let j = choose|j: int| 0 <= j < names_of(all).len() && names_of(all)[j] == name;
        assert(all[j].name == name);
    }
}

/// No two built-in templates have the same name.
pub proof fn law_template_names_are_distinct()
    ensures
        names_of(builtin_views()).no_duplicates(),
{
    reveal_strlit("code_review");
    reveal_strlit("bug_fix");
    reveal_strlit("architecture");
    reveal_strlit("refactor");
    reveal_strlit("explain");
    reveal_strlit("documentation");
    let names = names_of(builtin_views());
    assert(names.len() == 6);
    assert(names[0].len() == 11 && names[1].len() == 7 && names[2].len() == 12 && names[3].len() == 8
        && names[4].len() == 7 && names[5].len() == 13);
    assert(names[1][0] == 'b' && names[4][0] == 'e');
}

/// The prompt starts with the template's own prompt and holds the task.
pub proof fn law_prompt_has_template_and_task(
    template: TemplateView,
    context: ContextView,
    request: Seq<char>,
)
    ensures
        prompt_parts(template, context, request)[0] == template.system_prompt,
        prompt_parts(template, context, request).contains("Task:\n"@ + request),
{
    let parts = prompt_parts(template, context, request);
    let task = "Task:\n"@ + request;
    if template.output_tag is Some {
        assert(parts[parts.len() - 2] == task);
    } else {
        assert(parts[parts.len() - 1] == task);
    }
}

/// The prompt of a template that asks for it holds the full diff, however long it is.
pub proof fn law_full_diff_is_in_the_prompt(
    template: TemplateView,
    context: ContextView,
    request: Seq<char>,
    diff: Seq<char>,
)
    requires
        template.include_diff,
        context.git_diff == Some(diff),
    ensures
        occurs(hermes_prompt(template, context, request), diff),
{
    let none = Seq::<char>::empty();
    assert(diff.subrange(0, diff.len() as int) =~= diff);
    assert(occurs_at(diff, diff, 0));
    let parts = context_parts(context, true);
    let part = "Git diff (unstaged):\n"@ + diff;
    lemma_occurs_between("Git diff (unstaged):\n"@, diff, none, diff);
    assert("Git diff (unstaged):\n"@ + diff + none =~= part);
    let k: int = (if context.working_directory is Some {
        1int
    } else {
        0
    }) + (if context.git_branch is Some {
        1int
    } else {
        0
    }) + (if context.git_status is Some {
        1int
    } else {
        0
    });
    assert(parts[k] == part);
    lemma_occurs_joined(parts, "\n"@, k, parts.len(), diff);
    let known = context_string(context, true);
    lemma_occurs_between("System context:\n"@, joined(parts, "\n"@), "\n\n"@, diff);
    reveal_strlit("System context:\n");
    assert(known.len() > 0);
    let header = "Project context (auto-gathered, do not ask the user for this):\n"@;
    lemma_occurs_between(header, known, none, diff);
    assert(header + known + none =~= header + known);
    let all = prompt_parts(template, context, request);
    assert(all[1] == header + known);
    lemma_occurs_joined(all, "\n\n"@, 1, all.len(), diff);
}

/// However much Hermes says, at most thirty thousand characters of it are handed on.
pub proof fn law_hermes_is_bounded(binary: Seq<char>, output: Output, duration_secs: String)
    requires
        output.success,
    ensures
        hermes_result(binary, HermesOutcome::Ended { output, duration_secs }) matches Ok(said)
            && said.output.len() <= 30_000 + "\n\n[... response truncated at 30KB ...]"@.len(),
{
    law_clipped_is_bounded(
        trimmed(lossy_text(output.stdout@)),
        30_000,
        "\n\n[... response truncated at 30KB ...]"@,
    );
}

} // verus!
