//! What each tool does with its arguments and with the answers of the world.
use vstd::prelude::*;

use crate::config::{vision_model_of, Config, HermesConfig};
use crate::context::{cuts_cleanly, Context};
use crate::desktop::hyprland::{
    active_workspace_answer, active_workspace_text, focused_title, hyprctl, hyprctl_view,
    monitors_answer, monitors_text, window_answer, workspaces_answer, workspaces_text,
};
use crate::effect::{
    config_at, config_reply, process_at, process_reply, refuse, refuse_view, HermesReply, Reply,
    Request, RequestView, Shape, SpriteReply, Step, StepView,
};
use crate::error::{answer, config_message, Answer, GremlinError};
use crate::hermes::{
    builtin_views, find_template_among, hermes_command, hermes_line, hermes_prompt, hermes_result,
    launch, launch_command, result_text, template_for, templates_view, PromptTemplate,
    TemplateView,
};
use crate::json::{member_bool, member_text, member_unsigned, Json, JsonView};
use crate::sprite::{SpriteCommand, SpriteCommandView};
use crate::text::{kilobytes, kilobytes_text};
use crate::tools::clipboard::{read_step, read_tool, write_step, write_tool};
use crate::tools::memory::{
    recommend_step, recommend_tool, search_step, search_tool, shelf_step, shelf_tool, stats_step,
    stats_tool, text_or, text_or_else, Shelf,
};
use crate::tools::schema::Handler;
use crate::tools::shell::{
    exit_answer, exit_command, fish_view, history_answer, history_command, history_view, kitty_cwd,
    kitty_step, last_exit_code, recent_commands,
};
use crate::tools::{cargo, filesystem, git, system};
use crate::vision::{
    capture_screenshot, capture_view, describe_request, describe_screenshot, describe_view,
    description, Capture, CaptureView, NO_SCREENSHOT,
};

verus! {

/// A truth value among the arguments, which is false where it is not given.
pub open spec fn flag(args: JsonView, key: Seq<char>) -> bool {
    member_bool(args, key) == Some(true)
}

fn has_flag(args: &Json, key: &str) -> (r: bool)
    ensures
        r == flag(args@, key@),
{
    match args.get_bool(key) {
        Some(b) => b,
        None => false,
    }
}

/// The reading tool.
pub open spec fn read_file_step(args: JsonView, replies: Seq<Reply>) -> StepView {
    match member_text(args, "path"@) {
        None => refuse_view("missing 'path' argument"@),
        Some(path) => if replies.len() > 0 && replies[0] is Content {
            StepView::Finish(filesystem::read_answer(path, replies[0]->Content_0))
        } else {
            StepView::Perform(RequestView::ReadFile { path })
        },
    }
}

fn read_file_tool(args: &Json, replies: &Vec<Reply>) -> (s: Step)
    ensures
        s@ == read_file_step(args@, replies@),
{
    let path = match args.get_text("path") {
        Some(path) => path,
        None => {
            return refuse("missing 'path' argument");
        },
    };
    if replies.len() > 0 {
        if let Reply::Content(content) = &replies[0] {
            return Step::Finish(filesystem::read_file(path.as_str(), content));
        }
    }
    Step::Perform(Request::ReadFile { path })
}

/// The writing tool.
pub open spec fn write_file_step(args: JsonView, replies: Seq<Reply>) -> StepView {
    match (member_text(args, "path"@), member_text(args, "content"@)) {
        (None, _) => refuse_view("missing 'path' argument"@),
        (Some(_), None) => refuse_view("missing 'content' argument"@),
        (Some(path), Some(content)) => if replies.len() > 0 && replies[0] is Written {
            StepView::Finish(filesystem::write_answer(path, replies[0]->Written_0))
        } else {
            StepView::Perform(RequestView::WriteFile { path, content })
        },
    }
}

fn write_file_tool(args: &Json, replies: &Vec<Reply>) -> (s: Step)
    ensures
        s@ == write_file_step(args@, replies@),
{
    let path = match args.get_text("path") {
        Some(path) => path,
        None => {
            return refuse("missing 'path' argument");
        },
    };
    let content = match args.get_text("content") {
        Some(content) => content,
        None => {
            return refuse("missing 'content' argument");
        },
    };
    if replies.len() > 0 {
        if let Reply::Written(written) = &replies[0] {
            return Step::Finish(filesystem::write_file(path.as_str(), written));
        }
    }
    Step::Perform(Request::WriteFile { path, content })
}

/// The tool for the working directory.
pub open spec fn pwd_step(replies: Seq<Reply>) -> StepView {
    if replies.len() > 0 && replies[0] is Content {
        StepView::Finish(system::pwd_answer(replies[0]->Content_0))
    } else {
        StepView::Perform(RequestView::CurrentDir)
    }
}

fn pwd_tool(replies: &Vec<Reply>) -> (s: Step)
    ensures
        s@ == pwd_step(replies@),
{
    if replies.len() > 0 {
        if let Reply::Content(cwd) = &replies[0] {
            return Step::Finish(system::pwd(cwd));
        }
    }
    Step::Perform(Request::CurrentDir)
}

/// The tool for directories.
pub open spec fn list_dir_step(args: JsonView, replies: Seq<Reply>) -> StepView {
    if replies.len() > 0 && replies[0] is Entries {
        StepView::Finish(system::list_answer(replies[0]->Entries_0))
    } else {
        StepView::Perform(RequestView::ListDir { dir: member_text(args, "path"@) })
    }
}

fn list_dir_tool(args: &Json, replies: &Vec<Reply>) -> (s: Step)
    ensures
        s@ == list_dir_step(args@, replies@),
{
    if replies.len() > 0 {
        if let Reply::Entries(read) = &replies[0] {
            return Step::Finish(system::list_dir(read));
        }
    }
    Step::Perform(Request::ListDir { dir: args.get_text("path") })
}

/// The tools for git.
pub open spec fn git_status_step(replies: Seq<Reply>) -> StepView {
    match process_at(replies, 0) {
        None => StepView::Perform(RequestView::Run(git::status_view())),
        Some(outcome) => StepView::Finish(git::status_answer(outcome)),
    }
}

/// The tool for the changes in the repository.
pub open spec fn git_diff_step(args: JsonView, replies: Seq<Reply>) -> StepView {
    match process_at(replies, 0) {
        None => StepView::Perform(RequestView::Run(git::diff_view(flag(args, "staged"@)))),
        Some(outcome) => StepView::Finish(git::diff_answer(outcome)),
    }
}

/// The tool for the branch.
pub open spec fn git_branch_step(replies: Seq<Reply>) -> StepView {
    match process_at(replies, 0) {
        None => StepView::Perform(RequestView::Run(git::branch_view())),
        Some(outcome) => StepView::Finish(git::git_answer(outcome)),
    }
}

fn git_status_tool(replies: &Vec<Reply>) -> (s: Step)
    ensures
        s@ == git_status_step(replies@),
{
    match process_reply(replies, 0) {
        None => Step::Perform(Request::Run(git::status_command())),
        Some(outcome) => Step::Finish(git::status(outcome)),
    }
}

fn git_diff_tool(args: &Json, replies: &Vec<Reply>) -> (s: Step)
    ensures
        s@ == git_diff_step(args@, replies@),
{
    match process_reply(replies, 0) {
        None => Step::Perform(Request::Run(git::diff_command(has_flag(args, "staged")))),
        Some(outcome) => Step::Finish(git::diff(outcome)),
    }
}

fn git_branch_tool(replies: &Vec<Reply>) -> (s: Step)
    ensures
        s@ == git_branch_step(replies@),
{
    match process_reply(replies, 0) {
        None => Step::Perform(Request::Run(git::branch_command())),
        Some(outcome) => Step::Finish(git::current_branch(outcome)),
    }
}

/// The tools for Hyprland, each with the query that it makes.
pub open spec fn hyprland_step(handler: Handler, replies: Seq<Reply>) -> StepView {
    match handler {
        Handler::ActiveWindow => if replies.len() > 0 && replies[0] is Window {
            StepView::Finish(window_answer(replies[0]->Window_0))
        } else {
            query("activewindow"@, Shape::Window)
        },
        Handler::ActiveWorkspace => if replies.len() > 0 && replies[0] is Workspace {
            StepView::Finish(active_workspace_answer(replies[0]->Workspace_0))
        } else {
            query("activeworkspace"@, Shape::Workspace)
        },
        Handler::ListWorkspaces => if replies.len() > 0 && replies[0] is Workspaces {
            StepView::Finish(workspaces_answer(replies[0]->Workspaces_0))
        } else {
            query("workspaces"@, Shape::Workspaces)
        },
        _ => if replies.len() > 0 && replies[0] is Monitors {
            StepView::Finish(monitors_answer(replies[0]->Monitors_0))
        } else {
            query("monitors"@, Shape::Monitors)
        },
    }
}

/// A query to `hyprctl`.
pub open spec fn query(words: Seq<char>, shape: Shape) -> StepView {
    StepView::Perform(RequestView::Hyprland { invocation: hyprctl_view(words), shape })
}

fn hyprland_tool(handler: Handler, replies: &Vec<Reply>) -> (s: Step)
    ensures
        s@ == hyprland_step(handler, replies@),
{
    let reply: Option<&Reply> = if replies.len() > 0 {
        Some(&replies[0])
    } else {
        None
    };
    match handler {
        Handler::ActiveWindow => match reply {
            Some(Reply::Window(win)) => Step::Finish(focused_title(win)),
            _ => Step::Perform(
                Request::Hyprland { invocation: hyprctl("activewindow"), shape: Shape::Window },
            ),
        },
        Handler::ActiveWorkspace => match reply {
            Some(Reply::Workspace(ws)) => Step::Finish(active_workspace_text(ws)),
            _ => Step::Perform(
                Request::Hyprland {
                    invocation: hyprctl("activeworkspace"),
                    shape: Shape::Workspace,
                },
            ),
        },
        Handler::ListWorkspaces => match reply {
            Some(Reply::Workspaces(all)) => Step::Finish(workspaces_text(all)),
            _ => Step::Perform(
                Request::Hyprland { invocation: hyprctl("workspaces"), shape: Shape::Workspaces },
            ),
        },
        _ => match reply {
            Some(Reply::Monitors(all)) => Step::Finish(monitors_text(all)),
            _ => Step::Perform(
                Request::Hyprland { invocation: hyprctl("monitors"), shape: Shape::Monitors },
            ),
        },
    }
}

/// The tool for building.
pub open spec fn cargo_build_step(args: JsonView, replies: Seq<Reply>) -> StepView {
    let release = flag(args, "release"@);
    match process_at(replies, 0) {
        None => StepView::Perform(
            RequestView::Run(
                if release {
                    cargo::release_view()
                } else {
                    cargo::cargo_view("build"@)
                },
            ),
        ),
        Some(outcome) => StepView::Finish(
            cargo::cargo_answer(
                outcome,
                if release {
                    "build --release"@
                } else {
                    "build"@
                },
            ),
        ),
    }
}

/// The tools for checking and testing.
pub open spec fn cargo_step(label: Seq<char>, replies: Seq<Reply>) -> StepView {
    match process_at(replies, 0) {
        None => StepView::Perform(RequestView::Run(cargo::cargo_view(label))),
        Some(outcome) => StepView::Finish(cargo::cargo_answer(outcome, label)),
    }
}

fn cargo_build_tool(args: &Json, replies: &Vec<Reply>) -> (s: Step)
    ensures
        s@ == cargo_build_step(args@, replies@),
{
    let release = has_flag(args, "release");
    match process_reply(replies, 0) {
        None => {
            if release {
                Step::Perform(Request::Run(cargo::release_command()))
            } else {
                Step::Perform(Request::Run(cargo::command("build")))
            }
        },
        Some(outcome) => {
            if release {
                Step::Finish(cargo::build_release(outcome))
            } else {
                Step::Finish(cargo::build(outcome))
            }
        },
    }
}

fn cargo_check_tool(replies: &Vec<Reply>) -> (s: Step)
    ensures
        s@ == cargo_step("check"@, replies@),
{
    match process_reply(replies, 0) {
        None => Step::Perform(Request::Run(cargo::command("check"))),
        Some(outcome) => Step::Finish(cargo::check(outcome)),
    }
}

fn cargo_test_tool(replies: &Vec<Reply>) -> (s: Step)
    ensures
        s@ == cargo_step("test"@, replies@),
{
    match process_reply(replies, 0) {
        None => Step::Perform(Request::Run(cargo::command("test"))),
        Some(outcome) => Step::Finish(cargo::test(outcome)),
    }
}

/// How many commands the tool for the history was asked for.
pub open spec fn asked_commands(args: JsonView) -> usize {
    match member_unsigned(args, "limit"@) {
        Some(n) => n as usize,
        None => 20,
    }
}

/// The tool for the history.
pub open spec fn recent_commands_step(args: JsonView, replies: Seq<Reply>) -> StepView {
    match process_at(replies, 0) {
        None => StepView::Perform(RequestView::Run(history_view(asked_commands(args)))),
        Some(outcome) => StepView::Finish(history_answer(outcome)),
    }
}

/// The tool for the last exit code.
pub open spec fn exit_step(replies: Seq<Reply>) -> StepView {
    match process_at(replies, 0) {
        None => StepView::Perform(RequestView::Run(fish_view("echo $status"@))),
        Some(outcome) => StepView::Finish(exit_answer(outcome)),
    }
}

fn recent_commands_tool(args: &Json, replies: &Vec<Reply>) -> (s: Step)
    ensures
        s@ == recent_commands_step(args@, replies@),
{
    match process_reply(replies, 0) {
        None => {
            let limit: usize = match args.get_unsigned("limit") {
                Some(n) => n as usize,
                None => 20,
            };
            Step::Perform(Request::Run(history_command(limit)))
        },
        Some(outcome) => Step::Finish(recent_commands(outcome)),
    }
}

fn exit_tool(replies: &Vec<Reply>) -> (s: Step)
    ensures
        s@ == exit_step(replies@),
{
    match process_reply(replies, 0) {
        None => Step::Perform(Request::Run(exit_command())),
        Some(outcome) => Step::Finish(last_exit_code(outcome)),
    }
}

/// What the vision model is asked where the model does not say it.
pub const SCREEN_PROMPT: &'static str =
    "Describe what you see on the screen. Focus on code, errors, and UI elements.";

/// What is said of a screenshot of `size` bytes.
pub open spec fn screenshot_answer(size: nat, model: Seq<char>, said: Answer) -> Answer {
    match said {
        Ok(text) => Ok("Screenshot ("@ + kilobytes(size) + "KB) — "@ + model + ":\n"@ + text),
        Err(e) => Err(e),
    }
}

/// The screenshot tool once there is a picture and the answers before `i` are there: it
/// loads the configuration and asks the vision model.
pub open spec fn seen_step(args: JsonView, image: Seq<u8>, replies: Seq<Reply>, i: int) -> StepView {
    match config_at(replies, i) {
        None => StepView::Perform(RequestView::LoadConfig),
        Some(Err(e)) => refuse_view("Config error: "@ + config_message(e@)),
        Some(Ok(config)) => if i + 1 < replies.len() && replies[i + 1] is Generated {
            StepView::Finish(
                screenshot_answer(
                    image.len(),
                    vision_model_of(config),
                    description(replies[i + 1]->Generated_0),
                ),
            )
        } else {
            StepView::Perform(
                RequestView::Generate(
                    describe_view(
                        config.ollama.url@,
                        vision_model_of(config),
                        image,
                        text_or(member_text(args, "prompt"@), SCREEN_PROMPT@),
                    ),
                ),
            )
        },
    }
}

/// The screenshot tool.
pub open spec fn screenshot_step(args: JsonView, replies: Seq<Reply>) -> StepView {
    match capture_view(replies) {
        CaptureView::Run(invocation) => StepView::Perform(RequestView::Run(invocation)),
        CaptureView::Taken { image, used } => seen_step(args, image, replies, used as int),
        CaptureView::NoTool => refuse_view(NO_SCREENSHOT@),
    }
}

fn seen_tool(args: &Json, image: &Vec<u8>, replies: &Vec<Reply>, i: usize) -> (s: Step)
    requires
        i < 3,
    ensures
        s@ == seen_step(args@, image@, replies@, i as int),
{
    let config = match config_reply(replies, i) {
        None => {
            return Step::Perform(Request::LoadConfig);
        },
        Some(Err(e)) => {
            return Step::Finish(Err(GremlinError::tool("Config error: ", e.message().as_str())));
        },
        Some(Ok(config)) => config,
    };
    let model = config.vision_model();
    if i + 1 < replies.len() {
        if let Reply::Generated(generation) = &replies[i + 1] {
            return Step::Finish(
                match describe_screenshot(generation) {
                    Ok(text) => {
                        let mut r = "Screenshot (".to_owned();
                        r.append(kilobytes_text(image.len() as u64).as_str());
                        r.append("KB) — ");
                        r.append(model.as_str());
                        r.append(":\n");
                        r.append(text.as_str());
                        Ok(r)
                    },
                    Err(e) => Err(e),
                },
            );
        }
    }
    let prompt = text_or_else(&args.get_text("prompt"), SCREEN_PROMPT);
    Step::Perform(
        Request::Generate(
            describe_request(config.ollama.url.as_str(), model.as_str(), image, prompt.as_str()),
        ),
    )
}

fn screenshot_tool(args: &Json, replies: &Vec<Reply>) -> (s: Step)
    ensures
        s@ == screenshot_step(args@, replies@),
{
    match capture_screenshot(replies) {
        Capture::Run(invocation) => Step::Perform(Request::Run(invocation)),
        Capture::Taken { image, used } => seen_tool(args, &image, replies, used),
        Capture::NoTool => refuse(NO_SCREENSHOT),
    }
}

/// What is said where Hermes is not configured.
pub const NO_HERMES: &'static str =
    "Hermes is not configured. Add [hermes] section to ~/.config/gremlin/config.toml";

/// What is said where the thread that runs Hermes failed.
pub const HERMES_PANICKED: &'static str = "Hermes worker thread panicked";

/// The Hermes tool once the configuration and the context are there. A context that
/// cannot be put into the prompt makes the thread fail, once there is what runs it.
pub open spec fn hermes_run_step(
    template: TemplateView,
    hermes: HermesConfig,
    context: Context,
    request: Seq<char>,
    replies: Seq<Reply>,
) -> StepView {
    if !template.include_diff && !cuts_cleanly(context@.git_diff) {
        if replies.len() > 3 && replies[3] is Runtime {
            match replies[3]->Runtime_0 {
                Err(e) => refuse_view("Failed to create runtime: "@ + e@),
                Ok(_) => refuse_view(HERMES_PANICKED@),
            }
        } else {
            StepView::Perform(RequestView::MakeRuntime)
        }
    } else if replies.len() > 3 && replies[3] is Hermes {
        match replies[3]->Hermes_0 {
            HermesReply::NoRuntime(e) => refuse_view("Failed to create runtime: "@ + e@),
            HermesReply::Panicked => refuse_view(HERMES_PANICKED@),
            HermesReply::Ran(outcome) => StepView::Finish(
                match hermes_result(hermes.binary@, outcome) {
                    Ok(result) => Ok(hermes_line(result)),
                    Err(e) => Err(e),
                },
            ),
        }
    } else {
        StepView::Perform(
            RequestView::LaunchHermes(
                hermes_command(hermes, hermes_prompt(template, context@, request)),
            ),
        )
    }
}

/// The user's templates, where answer `i` says that.
pub open spec fn templates_at(replies: Seq<Reply>, i: int) -> Option<Seq<TemplateView>> {
    if 0 <= i < replies.len() && replies[i] is Templates {
        Some(templates_view(replies[i]->Templates_0@))
    } else {
        None
    }
}

/// The Hermes tool: it finds the template, loads the configuration, gathers the context
/// and runs Hermes.
pub open spec fn hermes_step(args: JsonView, replies: Seq<Reply>) -> StepView {
    let name = text_or(member_text(args, "template"@), "code_review"@);
    let request = text_or(member_text(args, "request"@), "Review the code"@);
    match templates_at(replies, 0) {
        None => StepView::Perform(RequestView::LoadTemplates),
        Some(user) => match config_at(replies, 1) {
            None => StepView::Perform(RequestView::LoadConfig),
            Some(Err(e)) => refuse_view("Failed to load config: "@ + config_message(e@)),
            Some(Ok(config)) => match config.hermes {
                None => refuse_view(NO_HERMES@),
                Some(hermes) => if replies.len() > 2 && replies[2] is Context {
                    hermes_run_step(
                        template_for(builtin_views() + user, name),
                        hermes,
                        replies[2]->Context_0,
                        request,
                        replies,
                    )
                } else {
                    StepView::Perform(RequestView::CollectContext)
                },
            },
        },
    }
}

/// Whether the context can be put into a prompt.
pub fn can_be_cut(context: &Context) -> (r: bool)
    ensures
        r == cuts_cleanly(context@.git_diff),
{
    match &context.git_diff {
        Some(diff) => {
            let s = diff.as_str();
            s.as_bytes().len() <= 4000 || s.is_char_boundary(4000)
        },
        None => true,
    }
}

fn hermes_run_tool(
    template: &PromptTemplate,
    hermes: &HermesConfig,
    context: &Context,
    request: &str,
    replies: &Vec<Reply>,
) -> (s: Step)
    ensures
        s@ == hermes_run_step(template@, *hermes, *context, request@, replies@),
{
    if !template.include_diff && !can_be_cut(context) {
        if replies.len() > 3 {
            if let Reply::Runtime(made) = &replies[3] {
                return match made {
                    Err(e) => Step::Finish(
                        Err(GremlinError::tool("Failed to create runtime: ", e.as_str())),
                    ),
                    Ok(_) => refuse(HERMES_PANICKED),
                };
            }
        }
        return Step::Perform(Request::MakeRuntime);
    }
    if replies.len() > 3 {
        if let Reply::Hermes(reply) = &replies[3] {
            return match reply {
                HermesReply::NoRuntime(e) => Step::Finish(
                    Err(GremlinError::tool("Failed to create runtime: ", e.as_str())),
                ),
                HermesReply::Panicked => refuse(HERMES_PANICKED),
                HermesReply::Ran(outcome) => match launch(hermes.binary.as_str(), outcome) {
                    Ok(result) => Step::Finish(Ok(result_text(&result))),
                    Err(e) => Step::Finish(Err(e)),
                },
            };
        }
    }
    Step::Perform(Request::LaunchHermes(launch_command(hermes, template, context, request)))
}

fn hermes_tool(args: &Json, replies: &Vec<Reply>) -> (s: Step)
    ensures
        s@ == hermes_step(args@, replies@),
{
    if replies.len() == 0 {
        return Step::Perform(Request::LoadTemplates);
    }
    let user = match &replies[0] {
        Reply::Templates(user) => user,
        _ => {
            return Step::Perform(Request::LoadTemplates);
        },
    };
    let config = match config_reply(replies, 1) {
        None => {
            return Step::Perform(Request::LoadConfig);
        },
        Some(Err(e)) => {
            return Step::Finish(
                Err(GremlinError::tool("Failed to load config: ", e.message().as_str())),
            );
        },
        Some(Ok(config)) => config,
    };
    match &config.hermes {
        None => refuse(NO_HERMES),
        Some(hermes) => {
            if replies.len() > 2 {
                if let Reply::Context(context) = &replies[2] {
                    let name = text_or_else(&args.get_text("template"), "code_review");
                    let request = text_or_else(&args.get_text("request"), "Review the code");
                    let template = find_template_among(user, name.as_str());
                    return hermes_run_tool(&template, hermes, context, request.as_str(), replies);
                }
            }
            Step::Perform(Request::CollectContext)
        },
    }
}

/// What is said where the sprite cannot be reached any more.
pub const SPRITE_POISONED: &'static str = "sprite controller lock poisoned";

/// The sprite tools: each is a command to the sprite.
pub open spec fn sprite_step(command: SpriteCommandView, replies: Seq<Reply>) -> StepView {
    if replies.len() > 0 && replies[0] is Sprite {
        match replies[0]->Sprite_0 {
            SpriteReply::Poisoned => refuse_view(SPRITE_POISONED@),
            SpriteReply::Said(said) => StepView::Finish(answer(said)),
        }
    } else {
        StepView::Perform(RequestView::Sprite(command))
    }
}

/// The tool that changes the animation.
pub open spec fn sprite_state_step(args: JsonView, replies: Seq<Reply>) -> StepView {
    match member_text(args, "state"@) {
        None => refuse_view("missing 'state'"@),
        Some(state) => sprite_step(
            SpriteCommandView::SetState { state, one_shot: flag(args, "one_shot"@) },
            replies,
        ),
    }
}

/// The tool that gives a frame.
pub open spec fn sprite_frame_step(args: JsonView, replies: Seq<Reply>) -> StepView {
    match (member_text(args, "state"@), member_unsigned(args, "frame"@)) {
        (None, _) => refuse_view("missing 'state'"@),
        (Some(_), None) => refuse_view("missing 'frame'"@),
        (Some(state), Some(frame)) => sprite_step(
            SpriteCommandView::Frame { state, frame },
            replies,
        ),
    }
}

fn sprite_tool(command: SpriteCommand, replies: &Vec<Reply>) -> (s: Step)
    ensures
        s@ == sprite_step(command@, replies@),
{
    if replies.len() > 0 {
        if let Reply::Sprite(reply) = &replies[0] {
            return match reply {
                SpriteReply::Poisoned => refuse(SPRITE_POISONED),
                SpriteReply::Said(Ok(text)) => Step::Finish(Ok(text.clone())),
                SpriteReply::Said(Err(e)) => Step::Finish(Err(e.copy())),
            };
        }
    }
    Step::Perform(Request::Sprite(command))
}

fn sprite_state_tool(args: &Json, replies: &Vec<Reply>) -> (s: Step)
    ensures
        s@ == sprite_state_step(args@, replies@),
{
    match args.get_text("state") {
        Some(state) => sprite_tool(
            SpriteCommand::SetState { state, one_shot: has_flag(args, "one_shot") },
            replies,
        ),
        None => refuse("missing 'state'"),
    }
}

fn sprite_frame_tool(args: &Json, replies: &Vec<Reply>) -> (s: Step)
    ensures
        s@ == sprite_frame_step(args@, replies@),
{
    match args.get_text("state") {
        Some(state) => match args.get_unsigned("frame") {
            Some(frame) => sprite_tool(SpriteCommand::Frame { state, frame }, replies),
            None => refuse("missing 'frame'"),
        },
        None => refuse("missing 'state'"),
    }
}

/// The text that is to be written to the clipboard.
pub open spec fn clipboard_text(args: JsonView) -> Seq<char> {
    text_or(member_text(args, "text"@), ""@)
}

/// What a tool does next.
pub open spec fn handler_step(handler: Handler, args: JsonView, replies: Seq<Reply>) -> StepView {
    match handler {
        Handler::ReadFile => read_file_step(args, replies),
        Handler::WriteFile => write_file_step(args, replies),
        Handler::GitStatus => git_status_step(replies),
        Handler::GitDiff => git_diff_step(args, replies),
        Handler::GitBranch => git_branch_step(replies),
        Handler::Pwd => pwd_step(replies),
        Handler::ListDir => list_dir_step(args, replies),
        Handler::ActiveWindow => hyprland_step(handler, replies),
        Handler::ActiveWorkspace => hyprland_step(handler, replies),
        Handler::ListWorkspaces => hyprland_step(handler, replies),
        Handler::ListMonitors => hyprland_step(handler, replies),
        Handler::Clipboard => read_step(replies),
        Handler::ClipboardWrite => write_step(clipboard_text(args), replies),
        Handler::CargoBuild => cargo_build_step(args, replies),
        Handler::CargoCheck => cargo_step("check"@, replies),
        Handler::CargoTest => cargo_step("test"@, replies),
        Handler::RecentCommands => recent_commands_step(args, replies),
        Handler::KittyCwd => kitty_step(replies),
        Handler::LastExitCode => exit_step(replies),
        Handler::Screenshot => screenshot_step(args, replies),
        Handler::LaunchHermes => hermes_step(args, replies),
        Handler::MemoryFact => shelf_step(Shelf::Facts, args, replies),
        Handler::MemoryPref => shelf_step(Shelf::Preferences, args, replies),
        Handler::MemorySearch => search_step(args, replies),
        Handler::MemoryRecommend => recommend_step(args, replies),
        Handler::MemoryStats => stats_step(replies),
        Handler::SpriteState => sprite_state_step(args, replies),
        Handler::SpriteStatus => sprite_step(SpriteCommandView::Status, replies),
        Handler::SpriteFrame => sprite_frame_step(args, replies),
        Handler::SpriteCurrentFrame => sprite_step(SpriteCommandView::CurrentFrame, replies),
        Handler::SpriteListStates => sprite_step(SpriteCommandView::ListStates, replies),
    }
}

/// What a tool does next.
pub fn handle(handler: Handler, args: &Json, replies: &Vec<Reply>) -> (s: Step)
    ensures
        s@ == handler_step(handler, args@, replies@),
{
    match handler {
        Handler::ReadFile => read_file_tool(args, replies),
        Handler::WriteFile => write_file_tool(args, replies),
        Handler::GitStatus => git_status_tool(replies),
        Handler::GitDiff => git_diff_tool(args, replies),
        Handler::GitBranch => git_branch_tool(replies),
        Handler::Pwd => pwd_tool(replies),
        Handler::ListDir => list_dir_tool(args, replies),
        Handler::ActiveWindow => hyprland_tool(handler, replies),
        Handler::ActiveWorkspace => hyprland_tool(handler, replies),
        Handler::ListWorkspaces => hyprland_tool(handler, replies),
        Handler::ListMonitors => hyprland_tool(handler, replies),
        Handler::Clipboard => read_tool(replies),
        Handler::ClipboardWrite => {
            let text = text_or_else(&args.get_text("text"), "");
            write_tool(text.as_str(), replies)
        },
        Handler::CargoBuild => cargo_build_tool(args, replies),
        Handler::CargoCheck => cargo_check_tool(replies),
        Handler::CargoTest => cargo_test_tool(replies),
        Handler::RecentCommands => recent_commands_tool(args, replies),
        Handler::KittyCwd => kitty_cwd(replies),
        Handler::LastExitCode => exit_tool(replies),
        Handler::Screenshot => screenshot_tool(args, replies),
        Handler::LaunchHermes => hermes_tool(args, replies),
        Handler::MemoryFact => shelf_tool(Shelf::Facts, args, replies),
        Handler::MemoryPref => shelf_tool(Shelf::Preferences, args, replies),
        Handler::MemorySearch => search_tool(args, replies),
        Handler::MemoryRecommend => recommend_tool(args, replies),
        Handler::MemoryStats => stats_tool(replies),
        Handler::SpriteState => sprite_state_tool(args, replies),
        Handler::SpriteStatus => sprite_tool(SpriteCommand::Status, replies),
        Handler::SpriteFrame => sprite_frame_tool(args, replies),
        Handler::SpriteCurrentFrame => sprite_tool(SpriteCommand::CurrentFrame, replies),
        Handler::SpriteListStates => sprite_tool(SpriteCommand::ListStates, replies),
    }
}

} // verus!
