//! Screenshots, Hermes, the terminal and the models.
use vstd::prelude::*;

use crate::config::{is_default, vision_model_of, Config, HermesConfig};
use crate::context::{context_string, cuts_cleanly, Context, ContextView};
use crate::effect::{HermesReply, Reply, RequestView, StepView};
use crate::error::{
    config_message, error_message, ollama_message, ConfigErrorView, ErrorView, OllamaErrorView,
};
use crate::hermes::{
    builtin_views, find_from, hermes_prompt, hermes_result, law_templates_are_found_by_their_names,
    names_of, template_for, templates_view, HermesOutcome, HermesView, PromptTemplate,
    TemplateView,
};
use crate::json::{member, member_items, member_text, JsonView};
use crate::laws::memories::{refuses, tells};
use crate::laws::toolbox::{found, runs, wants};
use crate::laws::words::law_parts_are_joined;
use crate::ollama::{is_model, ModelInfo};
use crate::picture::base64_text;
use crate::process::{lossy_text, Output};
use crate::report::{model_lines, vision_lines};
use crate::text::{debug_text, decimal, first_chars, joined, kilobytes, trimmed, utf8_len};
use crate::tools::handlers::handler_step;
use crate::tools::schema::Handler;
use crate::tools::shell::{focused_cwd, tabs_cwd, window_cwd, windows_cwd};
use crate::vision::{lists_model, Generation};

verus! {

/// A program that was run and succeeded.
pub open spec fn succeeded_with(reply: Reply, output: Output) -> bool {
    reply == Reply::Process(Ok(output)) && output.success
}

/// The model that looks at screenshots.
pub open spec fn eye(config: Config) -> Seq<char> {
    match config.vision {
        Some(v) => v.model@,
        None => "llama3.2-vision:11b"@,
    }
}

/// A screenshot is taken with the first of the two programs that succeeds. Where neither
/// does, that is said.
pub proof fn law_screenshots_are_taken(args: JsonView, first: Reply, second: Reply, output: Output)
    ensures
        ({
            let h = Handler::Screenshot;
            &&& runs(handler_step(h, args, Seq::empty()), "grim"@, seq!["-t"@, "png"@, "-"@])
            &&& found(first, false) ==> runs(
                handler_step(h, args, seq![first]),
                "import"@,
                seq!["-window"@, "root"@, "png:-"@],
            )
            &&& found(first, false) && found(second, false) ==> refuses(
                handler_step(h, args, seq![first, second]),
                "No screenshot tool available. Install grim (wlroots) or ImageMagick."@,
            )
            &&& succeeded_with(first, output) ==> wants(
                handler_step(h, args, seq![first]),
                RequestView::LoadConfig,
            )
            &&& found(first, false) && succeeded_with(second, output) ==> wants(
                handler_step(h, args, seq![first, second]),
                RequestView::LoadConfig,
            )
        }),
{
}

/// The vision model is sent exactly the picture that was taken, as text, with the question
/// about it or the usual one, under its configured name, for one answer.
pub open spec fn shows_picture(
    step: StepView,
    args: JsonView,
    config: Config,
    picture: Seq<u8>,
) -> bool {
    step matches StepView::Perform(RequestView::Generate(g)) && {
        &&& g.url == config.ollama.url@ + "/api/generate"@
        &&& member(g.body, "model"@) == Some(JsonView::Text(eye(config)))
        &&& member(g.body, "images"@) == Some(
            JsonView::Array(seq![JsonView::Text(base64_text(picture))]),
        )
        &&& member(g.body, "stream"@) == Some(JsonView::Bool(false))
        &&& member(g.body, "prompt"@) == Some(
            JsonView::Text(
                match member_text(args, "prompt"@) {
                    Some(given) => given,
                    None => "Describe what you see on the screen. Focus on code, errors, and UI elements."@,
                },
            ),
        )
    }
}

/// The picture goes to the vision model, whichever program took it.
pub proof fn law_the_picture_is_shown(
    args: JsonView,
    first: Reply,
    second: Reply,
    output: Output,
    config: Config,
)
    ensures
        ({
            let h = Handler::Screenshot;
            let settings = Reply::Config(Ok(config));
            &&& succeeded_with(first, output) ==> shows_picture(
                handler_step(h, args, seq![first, settings]),
                args,
                config,
                output.stdout@,
            )
            &&& found(first, false) && succeeded_with(second, output) ==> shows_picture(
                handler_step(h, args, seq![first, second, settings]),
                args,
                config,
                output.stdout@,
            )
        }),
{
    reveal_strlit("model");
    reveal_strlit("prompt");
    reveal_strlit("images");
    reveal_strlit("stream");
    assert("model"@.len() != "prompt"@.len());
    assert("prompt"@[0] != "images"@[0] && "prompt"@[0] != "stream"@[0] && "images"@[0]
        != "stream"@[0]);
}

/// What the vision model says is told, with the size of the picture and the name of the
/// model; where it says nothing, that is told.
pub proof fn law_the_description_is_told(
    args: JsonView,
    first: Reply,
    output: Output,
    config: Config,
    text: String,
    e: String,
    error: crate::error::ConfigError,
)
    requires
        succeeded_with(first, output),
    ensures
        ({
            let h = Handler::Screenshot;
            let settings = Reply::Config(Ok(config));
            &&& tells(
                handler_step(
                    h,
                    args,
                    seq![first, settings, Reply::Generated(Generation::Response(text))],
                ),
                "Screenshot ("@ + kilobytes(output.stdout@.len()) + "KB) — "@ + eye(config) + ":\n"@
                    + text@,
            )
            &&& refuses(
                handler_step(h, args, seq![first, settings, Reply::Generated(Generation::Unsent(e))]),
                "Vision model request failed: "@ + e@,
            )
            &&& refuses(
                handler_step(
                    h,
                    args,
                    seq![first, settings, Reply::Generated(Generation::Unreadable(e))],
                ),
                "Vision model response parse error: "@ + e@,
            )
            &&& refuses(
                handler_step(
                    h,
                    args,
                    seq![first, settings, Reply::Generated(Generation::NoRuntime(e))],
                ),
                "Failed to create runtime: "@ + e@,
            )
            &&& refuses(
                handler_step(
                    h,
                    args,
                    seq![first, settings, Reply::Generated(Generation::Panicked)],
                ),
                "Screenshot worker thread panicked"@,
            )
            &&& refuses(
                handler_step(
                    h,
                    args,
                    seq![
                        first,
                        settings,
                        Reply::Generated(Generation::Refused { status: e, text }),
                    ],
                ),
                "Vision model returned "@ + e@ + ": "@ + text@,
            )
            &&& refuses(
                handler_step(h, args, seq![first, Reply::Config(Err(error))]),
                "Config error: "@ + config_message(error@),
            )
        }),
{
}

/// The model for screenshots is listed exactly where one of the models has its name.
pub proof fn law_models_are_listed(items: Seq<JsonView>, tags: JsonView, model: Seq<char>)
    requires
        member(tags, "models"@) == Some(JsonView::Array(items)),
    ensures
        lists_model(tags, model) <==> exists|i: int|
            0 <= i < items.len() && member(#[trigger] items[i], "name"@) == Some(
                JsonView::Text(model),
            ),
{
    if lists_model(tags, model) {
        let i = choose|i: int|
            0 <= i < items.len() && member_text(#[trigger] items[i], "name"@) == Some(model);
        assert(member(items[i], "name"@) == Some(JsonView::Text(model)));
    }
    assert forall|i: int|
        0 <= i < items.len() && member(#[trigger] items[i], "name"@) == Some(
            JsonView::Text(model),
        ) implies lists_model(tags, model) by {
        assert(member_text(items[i], "name"@) == Some(model));
    }
}

/// What the tool for Hermes needs comes in this order: the user's templates, the
/// configuration, the context. Without a coding service nothing is run.
pub proof fn law_hermes_gathers_what_it_needs(
    args: JsonView,
    user: Vec<PromptTemplate>,
    config: Config,
    e: crate::error::ConfigError,
)
    ensures
        ({
            let h = Handler::LaunchHermes;
            let templates = Reply::Templates(user);
            &&& wants(handler_step(h, args, Seq::empty()), RequestView::LoadTemplates)
            &&& wants(handler_step(h, args, seq![templates]), RequestView::LoadConfig)
            &&& config.hermes is Some ==> wants(
                handler_step(h, args, seq![templates, Reply::Config(Ok(config))]),
                RequestView::CollectContext,
            )
            &&& config.hermes is None ==> refuses(
                handler_step(h, args, seq![templates, Reply::Config(Ok(config))]),
                "Hermes is not configured. Add [hermes] section to ~/.config/gremlin/config.toml"@,
            )
            &&& refuses(
                handler_step(h, args, seq![templates, Reply::Config(Err(e))]),
                "Failed to load config: "@ + config_message(e@),
            )
        }),
{
}

/// Hermes is run as it is configured, with the prompt of the template that was asked for, or
/// of the one for reviews, and with the task that was given.
pub proof fn law_hermes_is_run(
    args: JsonView,
    user: Vec<PromptTemplate>,
    config: Config,
    hermes: HermesConfig,
    context: Context,
)
    requires
        config.hermes == Some(hermes),
    ensures
        ({
            let template = template_for(
                builtin_views() + templates_view(user@),
                match member_text(args, "template"@) {
                    Some(given) => given,
                    None => "code_review"@,
                },
            );
            let request = match member_text(args, "request"@) {
                Some(given) => given,
                None => "Review the code"@,
            };
            template.include_diff || cuts_cleanly(context@.git_diff) ==> (handler_step(
                Handler::LaunchHermes,
                args,
                seq![
                    Reply::Templates(user),
                    Reply::Config(Ok(config)),
                    Reply::Context(context),
                ],
            ) matches StepView::Perform(RequestView::LaunchHermes(command))
                && command.invocation.program == hermes.binary@ && command.invocation.args == seq![
                "ask"@,
                hermes_prompt(template, context@, request),
            ] && command.model == hermes.coding_model@)
        }),
{
}

/// The prompt for Hermes is the prompt of the template, what is known where something is, the
/// instructions where there are some, the task, and the format where one is asked for, each
/// behind an empty line.
pub proof fn law_order_of_the_prompt(t: TemplateView, c: ContextView, task: Seq<char>)
    ensures
        ({
            let known = context_string(c, t.include_diff);
            let none = Seq::<char>::empty();
            hermes_prompt(t, c, task) == t.system_prompt + (if known.len() > 0 {
                "\n\n"@ + ("Project context (auto-gathered, do not ask the user for this):\n"@
                    + known)
            } else {
                none
            }) + (match t.instructions {
                Some(words) => "\n\n"@ + words,
                None => none,
            }) + ("\n\n"@ + ("Task:\n"@ + task)) + (match t.output_tag {
                Some(tag) => "\n\n"@ + ("Format your response as:\n```"@ + tag
                    + "\n(your changes here)\n```"@),
                None => none,
            })
        }),
{
    let sep = "\n\n"@;
    let none = Seq::<char>::empty();
    let known = context_string(c, t.include_diff);
    let p0 = seq![t.system_prompt];
    law_parts_are_joined(p0, t.system_prompt, sep);
    let told = "Project context (auto-gathered, do not ask the user for this):\n"@ + known;
    law_parts_are_joined(p0, told, sep);
    let p1 = if known.len() > 0 {
        p0.push(told)
    } else {
        p0
    };
    let words = t.instructions->0;
    law_parts_are_joined(p1, words, sep);
    let p2 = if t.instructions is Some {
        p1.push(words)
    } else {
        p1
    };
    law_parts_are_joined(p2, "Task:\n"@ + task, sep);
    let p3 = p2.push("Task:\n"@ + task);
    let form = "Format your response as:\n```"@ + t.output_tag->0 + "\n(your changes here)\n```"@;
    law_parts_are_joined(p3, form, sep);
    assert(joined(p0, sep) == t.system_prompt);
    assert(joined(p1, sep) =~= t.system_prompt + (if known.len() > 0 {
        sep + told
    } else {
        none
    }));
    assert(joined(p2, sep) =~= joined(p1, sep) + (match t.instructions {
        Some(words) => sep + words,
        None => none,
    }));
    assert(joined(p3, sep) =~= joined(p2, sep) + (sep + ("Task:\n"@ + task)));
    assert(hermes_prompt(t, c, task) =~= joined(p3, sep) + (match t.output_tag {
        Some(tag) => sep + form,
        None => none,
    }));
}

/// What Hermes said is told, with how long it took. A failure is told by what went to its
/// error output, or else to its output.
pub proof fn law_hermes_is_told(binary: Seq<char>, output: Output, secs: String, e: String)
    ensures
        ({
            let said = trimmed(lossy_text(output.stdout@));
            let complaint = trimmed(lossy_text(output.stderr@));
            let ended = HermesOutcome::Ended { output, duration_secs: secs };
            hermes_result(binary, ended) matches Ok(r) && {
                &&& r.success == output.success
                &&& r.duration_secs == secs@
                &&& output.success && utf8_len(said) <= 30_000 ==> r.output == said
                &&& output.success && utf8_len(said) > 30_000 ==> r.output == first_chars(
                    said,
                    30_000,
                ) + "\n\n[... response truncated at 30KB ...]"@
                &&& !output.success && complaint.len() > 0 ==> r.output
                    == "Hermes exited with error:\n"@ + complaint
                &&& !output.success && complaint.len() == 0 ==> r.output
                    == "Hermes exited with error:\n"@ + said
            }
        }),
        hermes_result(binary, HermesOutcome::NotStarted(e)) == Result::<HermesView, ErrorView>::Err(
            ErrorView::Tool("Failed to launch Hermes ("@ + binary + "): "@ + e@),
        ),
        hermes_result(binary, HermesOutcome::Panicked(e)) == Result::<HermesView, ErrorView>::Err(
            ErrorView::Tool("Hermes task panicked: "@ + e@),
        ),
        hermes_result(binary, HermesOutcome::Lost(e)) == Result::<HermesView, ErrorView>::Err(
            ErrorView::Tool("Hermes process error: "@ + e@),
        ),
        hermes_result(binary, HermesOutcome::TimedOut) == Result::<HermesView, ErrorView>::Err(
            ErrorView::Tool("Hermes timed out after "@ + decimal(300) + " seconds"@),
        ),
{
}

/// The tool says that Hermes completed or failed, and what it said.
pub proof fn law_hermes_tool_says(
    args: JsonView,
    user: Vec<PromptTemplate>,
    config: Config,
    hermes: HermesConfig,
    context: Context,
    outcome: HermesOutcome,
)
    requires
        config.hermes == Some(hermes),
        cuts_cleanly(context@.git_diff),
    ensures
        ({
            let step = handler_step(
                Handler::LaunchHermes,
                args,
                seq![
                    Reply::Templates(user),
                    Reply::Config(Ok(config)),
                    Reply::Context(context),
                    Reply::Hermes(HermesReply::Ran(outcome)),
                ],
            );
            match hermes_result(hermes.binary@, outcome) {
                Ok(r) => tells(
                    step,
                    "Hermes "@ + (if r.success {
                        "completed"@
                    } else {
                        "failed"@
                    }) + " (took "@ + r.duration_secs + "s):\n"@ + r.output,
                ),
                Err(e) => step == StepView::Finish(Err(e)),
            }
        }),
{
}

/// Where Hermes cannot be run, that is said. A diff whose head would end within a character
/// cannot be put into a prompt that is to have the head only; then only what runs Hermes is
/// made, and it is said that the run failed.
pub proof fn law_hermes_that_does_not_run(
    args: JsonView,
    user: Vec<PromptTemplate>,
    config: Config,
    context: Context,
    e: String,
    made: Result<(), String>,
)
    requires
        config.hermes is Some,
    ensures
        ({
            let h = Handler::LaunchHermes;
            let template = template_for(
                builtin_views() + templates_view(user@),
                match member_text(args, "template"@) {
                    Some(given) => given,
                    None => "code_review"@,
                },
            );
            let all = seq![
                Reply::Templates(user),
                Reply::Config(Ok(config)),
                Reply::Context(context),
            ];
            let fits = template.include_diff || cuts_cleanly(context@.git_diff);
            &&& fits ==> refuses(
                handler_step(h, args, all.push(Reply::Hermes(HermesReply::NoRuntime(e)))),
                "Failed to create runtime: "@ + e@,
            )
            &&& fits ==> refuses(
                handler_step(h, args, all.push(Reply::Hermes(HermesReply::Panicked))),
                "Hermes worker thread panicked"@,
            )
            &&& !fits ==> wants(handler_step(h, args, all), RequestView::MakeRuntime)
            &&& !fits ==> refuses(
                handler_step(h, args, all.push(Reply::Runtime(made))),
                match made {
                    Ok(_) => "Hermes worker thread panicked"@,
                    Err(e) => "Failed to create runtime: "@ + e@,
                },
            )
        }),
{
}

/// The built-in templates that change code are given the full diff and ask for a diff; the
/// review is given the full diff too; documentation is asked for as such.
pub proof fn law_builtin_templates(t: TemplateView)
    requires
        builtin_views().contains(t),
    ensures
        t.include_diff <==> t.name == "code_review"@ || t.name == "bug_fix"@ || t.name
            == "refactor"@,
        t.output_tag == (if t.name == "bug_fix"@ || t.name == "refactor"@ {
            Some("diff"@)
        } else if t.name == "documentation"@ {
            Some("markdown"@)
        } else {
            None
        }),
        t.instructions is Some <==> t.name == "bug_fix"@ || t.name == "refactor"@,
{
    reveal_strlit("code_review");
    reveal_strlit("bug_fix");
    reveal_strlit("architecture");
    reveal_strlit("refactor");
    reveal_strlit("explain");
    reveal_strlit("documentation");
    let all = builtin_views();
    let i = choose|i: int| 0 <= i < all.len() && all[i] == t;
    assert("bug_fix"@[0] != "explain"@[0]);
    assert("code_review"@.len() == 11 && "bug_fix"@.len() == 7 && "architecture"@.len() == 12
        && "refactor"@.len() == 8 && "explain"@.len() == 7 && "documentation"@.len() == 13);
}

/// A task of no particular kind has a template of its own, without the full diff, without
/// instructions and without a format.
pub proof fn law_other_tasks(name: Seq<char>)
    requires
        !names_of(builtin_views()).contains(name),
    ensures
        ({
            let t = template_for(builtin_views(), name);
            &&& t.name == "generic"@
            &&& t.system_prompt == crate::hermes::GENERIC_PROMPT@
            &&& t.instructions is None
            &&& t.output_tag is None
            &&& !t.include_diff
        }),
{
    law_templates_are_found_by_their_names(name);
}

/// Each kind of task has its own prompt.
pub proof fn law_templates_have_their_prompts()
    ensures
        template_for(builtin_views(), "code_review"@).system_prompt
            == crate::hermes::CODE_REVIEW_PROMPT@,
        template_for(builtin_views(), "bug_fix"@).system_prompt == crate::hermes::BUG_FIX_PROMPT@,
        template_for(builtin_views(), "architecture"@).system_prompt
            == crate::hermes::ARCHITECTURE_PROMPT@,
        template_for(builtin_views(), "refactor"@).system_prompt == crate::hermes::REFACTOR_PROMPT@,
        template_for(builtin_views(), "explain"@).system_prompt == crate::hermes::EXPLAIN_PROMPT@,
        template_for(builtin_views(), "documentation"@).system_prompt
            == crate::hermes::DOCUMENTATION_PROMPT@,
{
    reveal_strlit("code_review");
    reveal_strlit("bug_fix");
    reveal_strlit("architecture");
    reveal_strlit("refactor");
    reveal_strlit("explain");
    reveal_strlit("documentation");
    reveal_with_fuel(find_from, 7);
    assert("bug_fix"@[0] != "explain"@[0]);
    assert("code_review"@.len() == 11 && "bug_fix"@.len() == 7 && "architecture"@.len() == 12
        && "refactor"@.len() == 8 && "explain"@.len() == 7 && "documentation"@.len() == 13);
}

/// A tab that has the focus, in this directory.
pub open spec fn focused_at(tab: JsonView, cwd: Seq<char>) -> bool {
    member(tab, "is_focused"@) == Some(JsonView::Bool(true)) && member(tab, "cwd"@) == Some(
        JsonView::Text(cwd),
    )
}

/// A tab that has the focus, in some directory.
pub open spec fn focused(tab: JsonView) -> bool {
    member(tab, "is_focused"@) == Some(JsonView::Bool(true)) && (member(tab, "cwd"@) matches Some(
        JsonView::Text(_),
    ))
}

proof fn lemma_tabs(tabs: Seq<JsonView>, i: int)
    requires
        0 <= i <= tabs.len(),
    ensures
        match tabs_cwd(tabs, i) {
            Some(cwd) => exists|j: int|
                i <= j < tabs.len() && focused_at(#[trigger] tabs[j], cwd) && forall|k: int|
                    i <= k < j ==> !focused(#[trigger] tabs[k]),
            None => forall|k: int| i <= k < tabs.len() ==> !focused(#[trigger] tabs[k]),
        },
    decreases tabs.len() - i,
{
    if i < tabs.len() {
        if crate::tools::shell::tab_cwd(tabs[i]) is None {
            lemma_tabs(tabs, i + 1);
            if let Some(cwd) = tabs_cwd(tabs, i) {
                let j = choose|j: int|
                    i + 1 <= j < tabs.len() && focused_at(#[trigger] tabs[j], cwd) && forall|k: int|
                        i + 1 <= k < j ==> !focused(#[trigger] tabs[k]);
                assert(focused_at(tabs[j], cwd));
            }
        } else {
            assert(focused_at(tabs[i], tabs_cwd(tabs, i)->0));
        }
    }
}

proof fn lemma_windows(windows: Seq<JsonView>, i: int)
    requires
        0 <= i <= windows.len(),
    ensures
        match windows_cwd(windows, i) {
            Some(cwd) => exists|j: int|
                i <= j < windows.len() && window_cwd(#[trigger] windows[j]) == Some(cwd) && forall|
                    k: int,
                |
                    i <= k < j ==> window_cwd(#[trigger] windows[k]) is None,
            None => forall|k: int|
                i <= k < windows.len() ==> window_cwd(#[trigger] windows[k]) is None,
        },
    decreases windows.len() - i,
{
    if i < windows.len() {
        if window_cwd(windows[i]) is None {
            lemma_windows(windows, i + 1);
            if let Some(cwd) = windows_cwd(windows, i) {
                let j = choose|j: int|
                    i + 1 <= j < windows.len() && window_cwd(#[trigger] windows[j]) == Some(cwd)
                        && forall|k: int|
                        i + 1 <= k < j ==> window_cwd(#[trigger] windows[k]) is None;
                assert(window_cwd(windows[j]) == Some(cwd));
            }
        } else {
            assert(window_cwd(windows[i]) == windows_cwd(windows, i));
        }
    }
}

/// The directory of the terminal is that of the first tab with the focus, in the first window
/// that has one; and it is found wherever there is such a tab.
pub proof fn law_terminal_directory(windows: Seq<JsonView>)
    ensures
        match focused_cwd(JsonView::Array(windows)) {
            Some(cwd) => exists|w: int, t: int|
                0 <= w < windows.len() && tab_of(windows[w], t) is Some && focused_at(
                    (#[trigger] tab_of(windows[w], t))->0,
                    cwd,
                ),
            None => forall|w: int, t: int|
                0 <= w < windows.len() && tab_of(windows[w], t) is Some ==> !focused(
                    (#[trigger] tab_of(windows[w], t))->0,
                ),
        },
{
    lemma_windows(windows, 0);
    match focused_cwd(JsonView::Array(windows)) {
        Some(cwd) => {
            let w = choose|w: int|
                0 <= w < windows.len() && window_cwd(#[trigger] windows[w]) == Some(cwd);
            let tabs = member_items(windows[w], "tabs"@)->0;
            lemma_tabs(tabs, 0);
            let t = choose|t: int| 0 <= t < tabs.len() && focused_at(#[trigger] tabs[t], cwd);
            assert(tab_of(windows[w], t) == Some(tabs[t]));
        },
        None => {
            assert forall|w: int, t: int|
                0 <= w < windows.len() && tab_of(windows[w], t) is Some implies !focused(
                (#[trigger] tab_of(windows[w], t))->0,
            ) by {
                assert(window_cwd(windows[w]) is None);
                let tabs = member_items(windows[w], "tabs"@)->0;
                lemma_tabs(tabs, 0);
            }
        },
    }
}

/// A tab of a window.
pub open spec fn tab_of(window: JsonView, t: int) -> Option<JsonView> {
    match member(window, "tabs"@) {
        Some(JsonView::Array(tabs)) => if 0 <= t < tabs.len() {
            Some(tabs[t])
        } else {
            None
        },
        _ => None,
    }
}

/// The terminal is asked first; the tool says its directory.
pub proof fn law_terminal_is_asked(args: JsonView)
    ensures
        runs(handler_step(Handler::KittyCwd, args, Seq::empty()), "kitty"@, seq!["@"@, "ls"@]),
{
}

/// A model has a name exactly where it is that name, or that name with a tag behind a colon.
pub proof fn law_models_are_known_by_name(model: Seq<char>, tag: Seq<char>, name: Seq<char>)
    ensures
        is_model(model, model),
        is_model(model + ":"@ + tag, model),
        is_model(name, model) ==> name == model || (name.len() > model.len() && name.take(
            model.len() as int,
        ) == model && name[model.len() as int] == ':'),
{
    reveal_strlit(":");
    let tagged = model + ":"@ + tag;
    assert(tagged.subrange(0, (model + ":"@).len() as int) =~= model + ":"@);
    if is_model(name, model) && name != model {
        let head = name.subrange(0, (model + ":"@).len() as int);
        assert(head == model + ":"@);
        assert(head[model.len() as int] == ':');
        assert(name.take(model.len() as int) =~= head.take(model.len() as int));
        assert(head.take(model.len() as int) =~= model);
    }
}

/// Every error is told with its kind before it and with the words in which it was reported.
pub proof fn law_errors_in_words(s: Seq<char>, url: Seq<char>)
    ensures
        error_message(ErrorView::Tool(s)) == "tool error: "@ + s,
        error_message(ErrorView::Json(s)) == "json error: "@ + s,
        error_message(ErrorView::Io(s)) == "io error: "@ + s,
        error_message(ErrorView::Sqlite(s)) == "sqlite error: "@ + s,
        error_message(ErrorView::Config(ConfigErrorView::Parse(s))) == "config error: "@ + (
        "parse error: "@ + s),
        config_message(ConfigErrorView::MissingDir(s)) == "missing config dir: "@ + s,
        config_message(ConfigErrorView::MissingField(s)) == "missing required field: "@ + s,
        config_message(ConfigErrorView::Parse(s)) == "parse error: "@ + s,
        config_message(ConfigErrorView::Io(s)) == "io: "@ + s,
        error_message(ErrorView::Ollama(OllamaErrorView::Http(s))) == "ollama error: "@ + ("http: "@
            + s),
        ollama_message(OllamaErrorView::Unreachable { url, detail: s })
            == "ollama not reachable at "@ + url + ": "@ + s,
        ollama_message(OllamaErrorView::ModelNotFound { model: s }) == "model "@ + s
            + " not found"@,
{
}

/// Without a file the small model, the address of Ollama and the size of the context are the
/// usual ones, the system prompt is the one that is given, and nothing else is set.
pub proof fn law_default_configuration(c: Config, system_prompt: Seq<char>)
    requires
        is_default(c, system_prompt),
    ensures
        c.model.name@ == "llama3.2:3b"@,
        c.model.system_prompt@ == system_prompt,
        c.ollama.url@ == "http://localhost:11434"@,
        c.ollama.context_size == 8192,
        c.model.keep_alive is None && c.ollama.keep_alive is None,
        c.hermes is None && c.vision is None && c.sprite is None,
        c.preferences.shell is None && c.preferences.terminal is None && c.preferences.desktop
            is None && c.preferences.theme is None && c.preferences.current_project is None
            && c.preferences.preferred_coding_model is None,
        vision_model_of(c) == "llama3.2-vision:11b"@,
        crate::config::DEFAULT_ASSETS_DIR@ == "assets/sprites"@,
        crate::config::DEFAULT_STATE@ == "idle"@,
        crate::config::DEFAULT_HERMES_BINARY@ == "hermes"@,
{
}

/// The vision model is the one that is configured.
pub proof fn law_configured_eye(c: Config, v: crate::config::VisionConfig)
    requires
        c.vision == Some(v),
    ensures
        vision_model_of(c) == v.model@,
{
}

/// The report on a model names it, says whether it is there, and if not how to get it.
pub proof fn law_reports_on_models(
    model: Seq<char>,
    models: Seq<ModelInfo>,
    e: OllamaErrorView,
)
    ensures
        model_lines(model, Ok(true), models) == seq!["  ✅ Model '"@ + model + "' is available"@],
        model_lines(model, Ok(false), models).len() == 2,
        model_lines(model, Ok(false), models)[0] == "  ❌ Model '"@ + model
            + "' not found. Pull it with: ollama pull "@ + model,
        model_lines(model, Ok(false), models)[1] == "     Available models: "@ + ("["@ + joined(
            models.map_values(|m: ModelInfo| debug_text(m.name@)),
            ", "@,
        ) + "]"@),
        model_lines(model, Err(e), models) == seq![
            "  ❌ Failed to check model: "@ + ollama_message(e),
        ],
        vision_lines(model, true) == seq![
            "  ✅ Vision model '"@ + model + "' is available (screenshots enabled)"@,
        ],
        vision_lines(model, false) == seq![
            "  ⚠️  Vision model '"@ + model + "' not found — screenshots won't work"@,
            "     Pull it with: ollama pull "@ + model,
        ],
{
    assert(crate::report::model_names(models).map_values(|s: Seq<char>| debug_text(s))
        =~= models.map_values(|m: ModelInfo| debug_text(m.name@)));
}

} // verus!
