use gremlin::config::{Config, HermesConfig, VisionConfig};
use gremlin::context::Context;
use gremlin::desktop::hyprland::{
    desktop_summary, hyprctl_raw, Hyprctl, MonitorInfo, WindowInfo, WorkspaceInfo, WorkspaceRef,
};
use gremlin::effect::{Fed, HermesReply, Reply, Request, SpriteReply};
use gremlin::error::{ConfigError, GremlinError, OllamaError};
use gremlin::hermes::{
    find_template, find_template_among, template_names, HermesOutcome, PromptTemplate,
};
use gremlin::json::{Json, JsonNumber};
use gremlin::process::{Invocation, Outcome, Output};
use gremlin::sprite::SpriteCommand;
use gremlin::tools::schema::Handler;
use gremlin::tools::system::DirEntry;
use gremlin::tools::{Execution, ToolRegistry, ToolResult};
use gremlin::vision::{tags_list_model, vision_model_available, Generation};

fn ok(stdout: &str) -> Outcome {
    Ok(Output { success: true, stdout: stdout.as_bytes().to_vec(), stderr: Vec::new() })
}

fn failed(stderr: &str) -> Outcome {
    Ok(Output { success: false, stdout: Vec::new(), stderr: stderr.as_bytes().to_vec() })
}

fn line(invocation: &Invocation) -> String {
    let mut s = invocation.program.clone();
    for a in &invocation.args {
        s.push(' ');
        s.push_str(a);
    }
    s
}

/// Runs a tool and gives it these answers, one for each request.
fn run(name: &str, args: Json, answers: Vec<Reply>) -> ToolResult {
    run_in(&ToolRegistry::new(), name, args, answers)
}

fn run_in(registry: &ToolRegistry, name: &str, args: Json, answers: Vec<Reply>) -> ToolResult {
    let mut replies: Vec<Reply> = Vec::new();
    let mut answers = answers.into_iter();
    loop {
        match registry.execute(name, &args, &replies) {
            Execution::Done(result) => {
                assert!(answers.next().is_none(), "an answer was not asked for");
                return result;
            }
            Execution::Perform(request) => match answers.next() {
                Some(reply) => replies.push(reply),
                None => panic!("not answered: {:?}", request),
            },
        }
    }
}

/// What a tool asks for after these answers.
fn asked(name: &str, args: Json, replies: Vec<Reply>) -> Request {
    match ToolRegistry::new().execute(name, &args, &replies) {
        Execution::Perform(request) => request,
        Execution::Done(result) => panic!("done: {:?}", result),
    }
}

fn command(name: &str, args: Json, replies: Vec<Reply>) -> String {
    match asked(name, args, replies) {
        Request::Run(invocation) => line(&invocation),
        other => panic!("{:?}", other),
    }
}

fn number(n: u64) -> Json {
    Json::unsigned(n)
}

fn float(text: &str) -> Json {
    Json::Number(JsonNumber { unsigned: None, signed: None, text: text.to_string() })
}

fn config() -> Config {
    Config::default("be kind")
}

fn hermes_config() -> Config {
    let mut c = config();
    c.hermes = Some(HermesConfig {
        binary: "/opt/hermes".to_string(),
        coding_model: "coder:14b".to_string(),
    });
    c
}

#[test]
fn test_registry_has_tools() {
    let registry = ToolRegistry::new();
    let n = registry.tools_schema().len();
    assert!(n >= 20, "expected >=20 tools, got {}", n);
    assert_eq!(n, 21);
}

#[test]
fn test_pwd_tool() {
    let result = run("pwd", Json::empty(), vec![Reply::Content(Ok("/home/me".to_string()))]);
    assert!(result.success, "pwd failed: {}", result.output);
    assert_eq!(result.output, "/home/me");
    let result = run("pwd", Json::empty(), vec![Reply::Content(Err("gone".to_string()))]);
    assert!(!result.success);
    assert_eq!(result.output, "tool error: pwd failed: gone");
}

#[test]
fn test_unknown_tool() {
    let registry = ToolRegistry::new();
    match registry.execute("nope_nope", &Json::empty(), &Vec::new()) {
        Execution::Done(result) => {
            assert!(!result.success);
            assert!(result.output.contains("Unknown tool"));
            assert_eq!(result.output, "Unknown tool: nope_nope");
            assert_eq!(result.tool, "nope_nope");
        }
        other => panic!("{:?}", other),
    }
}

#[test]
fn test_all_tools_have_descriptions() {
    let registry = ToolRegistry::new();
    for tool in registry.tools_schema() {
        assert!(!tool.description.is_empty(), "tool '{}' has no description", tool.name);
    }
}

#[test]
fn test_git_branch_handles_no_repo() {
    let result = run(
        "git_branch",
        Json::empty(),
        vec![Reply::Process(failed("fatal: not a git repository\n"))],
    );
    if !result.success {
        assert!(result.output.contains("git"), "expected git error, got: {}", result.output);
    }
    assert_eq!(result.output, "tool error: git error: fatal: not a git repository\n");
    let result = run("git_branch", Json::empty(), vec![Reply::Process(ok("main\n"))]);
    assert!(result.success);
    assert_eq!(result.output, "main");
    let result =
        run("git_branch", Json::empty(), vec![Reply::Process(Err("no such file".to_string()))]);
    assert_eq!(result.output, "tool error: git not available: no such file");
}

#[test]
fn test_list_dir_works() {
    let entries = vec![
        Some(DirEntry { name: "src".to_string(), is_dir: Some(true) }),
        None,
        Some(DirEntry { name: "a.txt".to_string(), is_dir: Some(false) }),
        Some(DirEntry { name: "odd".to_string(), is_dir: None }),
    ];
    let result = run("list_dir", Json::empty(), vec![Reply::Entries(Ok(entries))]);
    assert!(result.success, "list_dir failed: {}", result.output);
    assert_eq!(result.output, "src/\na.txt\nodd");
    let result = run("list_dir", Json::empty(), vec![Reply::Entries(Ok(Vec::new()))]);
    assert_eq!(result.output, "(empty directory)");
    let result = run("list_dir", Json::empty(), vec![Reply::Entries(Err("denied".to_string()))]);
    assert_eq!(result.output, "io error: denied");
    match asked("list_dir", Json::empty().with("path", Json::text("/tmp")), Vec::new()) {
        Request::ListDir { dir } => assert_eq!(dir.as_deref(), Some("/tmp")),
        other => panic!("{:?}", other),
    }
}

#[test]
fn builtin_names_are_distinct_and_found() {
    let registry = ToolRegistry::new();
    let names: Vec<&str> = registry.tools_schema().iter().map(|t| t.name).collect();
    for (i, a) in names.iter().enumerate() {
        for b in names.iter().skip(i + 1) {
            assert_ne!(a, b);
        }
        match registry.execute(a, &Json::empty(), &Vec::new()) {
            Execution::Done(result) => assert!(!result.output.starts_with("Unknown tool")),
            Execution::Perform(_) => {}
        }
    }
    assert_eq!(names[0], "read_file");
    assert_eq!(names[20], "launch_hermes");
}

#[test]
fn register_adds_and_replaces() {
    let mut registry = ToolRegistry::default();
    registry.register("pwd", "another", Json::empty().with("n", number(7)), Handler::GitStatus);
    assert_eq!(registry.tools_schema().len(), 22);
    match registry.execute("pwd", &Json::empty(), &Vec::new()) {
        Execution::Perform(Request::Run(i)) => assert_eq!(line(&i), "git status --short"),
        other => panic!("{:?}", other),
    }
    assert!(registry.tools_prompt().contains("- pwd: another\n  Parameters: {\n  \"n\": 7\n}\n\n"));
    registry.register("pwd", "third", Json::empty().with("n", float("0.5")), Handler::GitBranch);
    assert_ne!(command_in(&registry, "pwd"), command_in(&registry, "git_status"));
    assert_eq!(command_in(&registry, "pwd"), command_in(&registry, "git_branch"));
}

fn command_in(registry: &ToolRegistry, name: &str) -> String {
    match registry.execute(name, &Json::empty(), &Vec::new()) {
        Execution::Perform(Request::Run(i)) => line(&i),
        other => panic!("{:?}", other),
    }
}

#[test]
fn tools_prompt_lists_every_tool() {
    let registry = ToolRegistry::new();
    let prompt = registry.tools_prompt();
    assert!(prompt.starts_with("Available tools:\n\n- read_file: Read the contents of a file"));
    assert!(prompt.ends_with(
        "To use a tool, respond with a JSON block:\n```tool\n{\"tool\": \"<name>\", \"args\": {...}}\n```\n"
    ));
    let pretty = "- git_branch: Get the current git branch name.\n  Parameters: {\n  \"properties\": {},\n  \"type\": \"object\"\n}\n\n";
    assert!(prompt.contains(pretty), "{}", prompt);
    assert!(prompt.contains("\"required\": [\n    \"path\",\n    \"content\"\n  ]"));
}

#[test]
fn read_file_tool() {
    let path = || Json::empty().with("path", Json::text("a.txt"));
    match asked("read_file", path(), Vec::new()) {
        Request::ReadFile { path } => assert_eq!(path, "a.txt"),
        other => panic!("{:?}", other),
    }
    let result = run("read_file", path(), vec![Reply::Content(Ok("hello".to_string()))]);
    assert_eq!(result.output, "hello");
    let result = run("read_file", path(), vec![Reply::Content(Err("no".to_string()))]);
    assert_eq!(result.output, "tool error: Failed to read a.txt: no");
    let result = run("read_file", Json::empty(), Vec::new());
    assert_eq!(result.output, "tool error: missing 'path' argument");
    let long = "ä".repeat(30_000);
    let result = run("read_file", path(), vec![Reply::Content(Ok(long.clone()))]);
    assert_eq!(result.output, format!("{}\n\n[... truncated at 50KB ...]", long));
    let longer = "x".repeat(50_001);
    let result = run("read_file", path(), vec![Reply::Content(Ok(longer))]);
    assert_eq!(result.output, format!("{}\n\n[... truncated at 50KB ...]", "x".repeat(50_000)));
    let exact = "x".repeat(50_000);
    let result = run("read_file", path(), vec![Reply::Content(Ok(exact.clone()))]);
    assert_eq!(result.output, exact);
}

#[test]
fn write_file_tool() {
    let args = || Json::empty().with("path", Json::text("p")).with("content", Json::text("c"));
    match asked("write_file", args(), Vec::new()) {
        Request::WriteFile { path, content } => {
            assert_eq!(path, "p");
            assert_eq!(content, "c");
        }
        other => panic!("{:?}", other),
    }
    assert_eq!(run("write_file", args(), vec![Reply::Written(Ok(()))]).output, "Wrote p");
    let result = run("write_file", args(), vec![Reply::Written(Err("full".to_string()))]);
    assert_eq!(result.output, "io error: full");
    let result = run("write_file", Json::empty().with("path", Json::text("p")), Vec::new());
    assert_eq!(result.output, "tool error: missing 'content' argument");
}

#[test]
fn git_tools() {
    assert_eq!(command("git_status", Json::empty(), Vec::new()), "git status --short");
    assert_eq!(
        run("git_status", Json::empty(), vec![Reply::Process(ok(" \n"))]).output,
        "(clean working tree)"
    );
    assert_eq!(command("git_diff", Json::empty(), Vec::new()), "git diff");
    let staged = Json::empty().with("staged", Json::Bool(true));
    assert_eq!(command("git_diff", staged, Vec::new()), "git diff --staged");
    assert_eq!(
        run("git_diff", Json::empty(), vec![Reply::Process(ok(""))]).output,
        "(no changes)"
    );
    let long = "d".repeat(30_001);
    assert_eq!(
        run("git_diff", Json::empty(), vec![Reply::Process(ok(&long))]).output,
        format!("{}\n\n[... diff truncated at 30KB ...]", "d".repeat(30_000))
    );
    let odd = Output { success: true, stdout: vec![b'a', 0xff, b'b'], stderr: Vec::new() };
    assert_eq!(
        run("git_status", Json::empty(), vec![Reply::Process(Ok(odd))]).output,
        "a\u{fffd}b"
    );
}

#[test]
fn cargo_tools() {
    assert_eq!(command("cargo_build", Json::empty(), Vec::new()), "cargo build");
    let release = || Json::empty().with("release", Json::Bool(true));
    assert_eq!(command("cargo_build", release(), Vec::new()), "cargo build --release");
    assert_eq!(command("cargo_check", Json::empty(), Vec::new()), "cargo check");
    assert_eq!(command("cargo_test", Json::empty(), Vec::new()), "cargo test");
    let both = Output { success: true, stdout: b"out".to_vec(), stderr: b"err".to_vec() };
    assert_eq!(
        run("cargo_build", release(), vec![Reply::Process(Ok(both))]).output,
        "cargo build --release: SUCCESS\nouterr"
    );
    assert_eq!(
        run("cargo_check", Json::empty(), vec![Reply::Process(failed("boom"))]).output,
        "cargo check: FAILED\nboom"
    );
    assert_eq!(
        run("cargo_test", Json::empty(), vec![Reply::Process(Err("none".to_string()))]).output,
        "tool error: cargo not available: none"
    );
}

#[test]
fn cargo_output_is_abridged() {
    let all: Vec<String> = (0..300).map(|i| format!("line {} {}", i, "y".repeat(80))).collect();
    let text = all.join("\n");
    let expected = format!(
        "cargo test: SUCCESS\n{}\n\n... 100 lines omitted ...\n\n{}",
        all[..50].join("\n"),
        all[150..].join("\n")
    );
    assert_eq!(run("cargo_test", Json::empty(), vec![Reply::Process(ok(&text))]).output, expected);
    let few: Vec<String> = (0..200).map(|i| format!("line {} {}", i, "y".repeat(200))).collect();
    let text = few.join("\n");
    assert_eq!(
        run("cargo_test", Json::empty(), vec![Reply::Process(ok(&text))]).output,
        format!("cargo test: SUCCESS\n{}", text)
    );
}

#[test]
fn clipboard_tools() {
    assert_eq!(command("clipboard", Json::empty(), Vec::new()), "which wl-paste");
    assert_eq!(
        command("clipboard", Json::empty(), vec![Reply::Process(ok("x"))]),
        "sh -c wl-paste"
    );
    assert_eq!(
        command("clipboard", Json::empty(), vec![Reply::Process(failed(""))]),
        "which xclip"
    );
    assert_eq!(
        command(
            "clipboard",
            Json::empty(),
            vec![Reply::Process(failed("")), Reply::Process(ok(""))]
        ),
        "sh -c xclip -selection clipboard -o"
    );
    let read = |o: Outcome| {
        run("clipboard", Json::empty(), vec![Reply::Process(ok("")), Reply::Process(o)]).output
    };
    assert_eq!(read(ok(" hi ")), "hi");
    assert_eq!(read(ok(" ")), "(clipboard is empty)");
    assert_eq!(read(failed("")), "tool error: clipboard read returned non-zero");
    assert_eq!(read(Err("e".to_string())), "tool error: clipboard read failed: e");
    assert_eq!(
        read(ok(&"c".repeat(10_001))),
        format!("{}\n\n[... clipboard truncated at 10KB ...]", "c".repeat(10_000))
    );
    let none = run(
        "clipboard",
        Json::empty(),
        vec![Reply::Process(failed("")), Reply::Process(Err("e".to_string()))],
    );
    assert_eq!(
        none.output,
        "tool error: No clipboard tool available. Install wl-clipboard (Wayland) or xclip (X11)."
    );
}

#[test]
fn clipboard_write_tool() {
    let args = || Json::empty().with("text", Json::text("copy me"));
    assert_eq!(command("clipboard_write", args(), Vec::new()), "which wl-copy");
    match asked("clipboard_write", args(), vec![Reply::Process(ok(""))]) {
        Request::Feed { invocation, input } => {
            assert_eq!(line(&invocation), "sh -c wl-copy");
            assert_eq!(input, "copy me");
        }
        other => panic!("{:?}", other),
    }
    match asked(
        "clipboard_write",
        Json::empty(),
        vec![Reply::Process(failed("")), Reply::Process(ok(""))],
    ) {
        Request::Feed { invocation, input } => {
            assert_eq!(line(&invocation), "sh -c xclip -selection clipboard");
            assert_eq!(input, "");
        }
        other => panic!("{:?}", other),
    }
    let write = |f: Fed| {
        run("clipboard_write", args(), vec![Reply::Process(ok("")), Reply::Fed(f)]).output
    };
    assert_eq!(write(Fed::Ended(true)), "Written to clipboard");
    assert_eq!(write(Fed::Ended(false)), "tool error: clipboard write returned non-zero");
    assert_eq!(write(Fed::Broken("pipe".to_string())), "io error: pipe");
    assert_eq!(
        write(Fed::NotStarted("sh".to_string())),
        "tool error: clipboard write failed: sh"
    );
}

#[test]
fn shell_tools() {
    let limit = |n: u64| Json::empty().with("limit", number(n));
    assert_eq!(
        command("recent_commands", Json::empty(), Vec::new()),
        "fish -c history | head -n 20"
    );
    assert_eq!(command("recent_commands", limit(0), Vec::new()), "fish -c history | head -n 1");
    assert_eq!(
        command("recent_commands", limit(500), Vec::new()),
        "fish -c history | head -n 100"
    );
    let say = |o: Outcome| run("recent_commands", Json::empty(), vec![Reply::Process(o)]).output;
    assert_eq!(say(ok("ls\ncd\n")), "ls\ncd");
    assert_eq!(say(ok("")), "(no fish history available)");
    assert_eq!(say(failed("bad")), "tool error: fish error: bad");
    assert_eq!(say(Err("e".to_string())), "tool error: fish not available: e");
    let code = |o: Outcome| run("last_exit_code", Json::empty(), vec![Reply::Process(o)]).output;
    assert_eq!(command("last_exit_code", Json::empty(), Vec::new()), "fish -c echo $status");
    assert_eq!(code(ok("127\n")), "Last exit code: 127");
    assert_eq!(code(failed("")), "(could not determine last exit code)");
    assert_eq!(code(failed(" oh \n")), "(could not determine last exit code)\nstderr:\noh");
    let both = Output { success: true, stdout: b"1\n".to_vec(), stderr: b"warning\n".to_vec() };
    assert_eq!(code(Ok(both)), "Last exit code: 1\nstderr:\nwarning");
    assert_eq!(code(Err("e".to_string())), "tool error: fish not available");
}

#[test]
fn kitty_cwd_tool() {
    assert_eq!(command("kitty_cwd", Json::empty(), Vec::new()), "kitty @ ls");
    let say = |doc: &str| run("kitty_cwd", Json::empty(), vec![Reply::Process(ok(doc))]).output;
    assert_eq!(
        say("[{\"tabs\":[{\"is_focused\":false,\"cwd\":\"/a\"},{\"is_focused\":true},{\"is_focused\":true,\"cwd\":\"/b\"}]}]"),
        "/b"
    );
    assert_eq!(
        say("[{\"tabs\":7},{\"tabs\":[{\"is_focused\":true,\"cwd\":\"/c\"}]}]"),
        "/c"
    );
    assert_eq!(say("{}"), "tool error: Could not find focused Kitty tab cwd");
    assert!(say("nonsense").starts_with("tool error: kitty JSON parse error: "));
    let fallback = |r: Result<String, String>| {
        run("kitty_cwd", Json::empty(), vec![Reply::Process(failed("")), Reply::Content(r)]).output
    };
    assert_eq!(fallback(Ok("/home".to_string())), "/home");
    assert_eq!(fallback(Err("gone".to_string())), "tool error: cwd detection failed: gone");
}

fn window() -> WindowInfo {
    WindowInfo {
        title: "main.rs".to_string(),
        class: "kitty".to_string(),
        address: String::new(),
        workspace: WorkspaceRef { id: 0, name: String::new() },
        pid: 0,
    }
}

fn workspace() -> WorkspaceInfo {
    WorkspaceInfo { id: -3, name: "web".to_string(), windows: 2, monitor: "DP-1".to_string() }
}

fn monitor() -> MonitorInfo {
    MonitorInfo {
        id: 0,
        name: "DP-1".to_string(),
        description: "Big".to_string(),
        width: 2560,
        height: 1440,
        refresh_rate: "143.9".to_string(),
        x: 0,
        y: 0,
        active_workspace: WorkspaceRef { id: 1, name: "1".to_string() },
    }
}

#[test]
fn hyprland_tools() {
    match asked("active_window", Json::empty(), Vec::new()) {
        Request::Hyprland { invocation, .. } => {
            assert_eq!(line(&invocation), "hyprctl -j activewindow")
        }
        other => panic!("{:?}", other),
    }
    let r = run("active_window", Json::empty(), vec![Reply::Window(Hyprctl::Reply(window()))]);
    assert_eq!(r.output, "kitty — main.rs");
    let r = run(
        "active_workspace",
        Json::empty(),
        vec![Reply::Workspace(Hyprctl::Reply(workspace()))],
    );
    assert_eq!(r.output, "Workspace -3: web");
    let r = run(
        "list_workspaces",
        Json::empty(),
        vec![Reply::Workspaces(Hyprctl::Reply(vec![workspace(), workspace()]))],
    );
    assert_eq!(
        r.output,
        "Workspace -3: web (2 windows on DP-1)\nWorkspace -3: web (2 windows on DP-1)"
    );
    let r = run(
        "list_monitors",
        Json::empty(),
        vec![Reply::Monitors(Hyprctl::Reply(vec![monitor()]))],
    );
    assert_eq!(r.output, "DP-1: Big 2560x1440@143.9Hz");
    let r = run(
        "active_window",
        Json::empty(),
        vec![Reply::Window(Hyprctl::Unavailable("none".to_string()))],
    );
    assert_eq!(r.output, "tool error: hyprctl not available: none");
    let r = run(
        "active_workspace",
        Json::empty(),
        vec![Reply::Workspace(Hyprctl::Failed(b"bad".to_vec()))],
    );
    assert_eq!(r.output, "tool error: hyprctl error: bad");
    let r = run(
        "list_monitors",
        Json::empty(),
        vec![Reply::Monitors(Hyprctl::Unreadable("eof".to_string()))],
    );
    assert_eq!(r.output, "tool error: hyprctl JSON parse error: eof");
}

#[test]
fn what_hyprctl_wrote() {
    assert_eq!(hyprctl_raw(&ok(" ok\n")).unwrap(), "ok");
    let words = |outcome: Outcome| match hyprctl_raw(&outcome) {
        Ok(text) => panic!("{}", text),
        Err(e) => e.message(),
    };
    assert_eq!(words(failed("no socket")), "tool error: hyprctl error: no socket");
    assert_eq!(words(Err("gone".to_string())), "tool error: hyprctl not available: gone");
}

#[test]
fn desktop_summaries() {
    let none = || Hyprctl::Unavailable(String::new());
    let all = desktop_summary(
        &Hyprctl::Reply(workspace()),
        &Hyprctl::Reply(window()),
        &Hyprctl::Reply(vec![monitor()]),
    );
    assert_eq!(
        all.unwrap(),
        "Workspace: web (id=-3)\nFocused: kitty — main.rs\nMonitors:\n  DP-1: Big 2560x1440@143.9Hz"
    );
    let nothing: Hyprctl<Vec<MonitorInfo>> = Hyprctl::Reply(Vec::new());
    let summary = desktop_summary(
        &Hyprctl::<WorkspaceInfo>::Unavailable(String::new()),
        &Hyprctl::<WindowInfo>::Unavailable(String::new()),
        &nothing,
    );
    assert_eq!(summary.unwrap(), "");
    let summary =
        desktop_summary(&none(), &Hyprctl::Reply(window()), &Hyprctl::Failed(Vec::new()));
    assert_eq!(summary.unwrap(), "Focused: kitty — main.rs");
}

#[test]
fn screenshot_tool() {
    assert_eq!(command("screenshot", Json::empty(), Vec::new()), "grim -t png -");
    assert_eq!(
        command("screenshot", Json::empty(), vec![Reply::Process(failed(""))]),
        "import -window root png:-"
    );
    let mut c = config();
    c.vision = Some(VisionConfig { model: "eye".to_string() });
    match asked(
        "screenshot",
        Json::empty().with("prompt", Json::text("look")),
        vec![Reply::Process(ok("hello")), Reply::Config(Ok(c))],
    ) {
        Request::Generate(g) => {
            assert_eq!(g.url, "http://localhost:11434/api/generate");
            assert_eq!(g.body.get_text("model").as_deref(), Some("eye"));
            assert_eq!(g.body.get_text("prompt").as_deref(), Some("look"));
            assert_eq!(g.body.get_bool("stream"), Some(false));
            match g.body.get("images") {
                Some(Json::Array(v)) => match &v[0] {
                    Json::Text(t) => assert_eq!(t, "aGVsbG8="),
                    other => panic!("{:?}", other),
                },
                other => panic!("{:?}", other),
            }
        }
        other => panic!("{:?}", other),
    }
    let say = |g: Generation| {
        run(
            "screenshot",
            Json::empty(),
            vec![
                Reply::Process(Err("no grim".to_string())),
                Reply::Process(ok(&"p".repeat(1280))),
                Reply::Config(Ok(config())),
                Reply::Generated(g),
            ],
        )
        .output
    };
    assert_eq!(
        say(Generation::Response("a cat".to_string())),
        "Screenshot (1.2KB) — llama3.2-vision:11b:\na cat"
    );
    assert_eq!(
        say(Generation::Unsent("x".to_string())),
        "tool error: Vision model request failed: x"
    );
    assert_eq!(
        say(Generation::Refused { status: "404 Not Found".to_string(), text: "t".to_string() }),
        "tool error: Vision model returned 404 Not Found: t"
    );
    assert_eq!(
        say(Generation::Unreadable("x".to_string())),
        "tool error: Vision model response parse error: x"
    );
    assert_eq!(say(Generation::Panicked), "tool error: Screenshot worker thread panicked");
    assert_eq!(
        say(Generation::NoRuntime("x".to_string())),
        "tool error: Failed to create runtime: x"
    );
    let none = run(
        "screenshot",
        Json::empty(),
        vec![Reply::Process(failed("")), Reply::Process(failed(""))],
    );
    assert_eq!(
        none.output,
        "tool error: No screenshot tool available. Install grim (wlroots) or ImageMagick."
    );
    let bad = run(
        "screenshot",
        Json::empty(),
        vec![
            Reply::Process(ok("p")),
            Reply::Config(Err(ConfigError::Parse("line 1".to_string()))),
        ],
    );
    assert_eq!(bad.output, "tool error: Config error: parse error: line 1");
}

#[test]
fn vision_models() {
    let tags = "{\"models\":[{\"name\":\"a:1\"},{\"x\":1},{\"name\":\"b\"}]}";
    assert!(vision_model_available(&Some(tags.as_bytes().to_vec()), "b"));
    assert!(!vision_model_available(&Some(tags.as_bytes().to_vec()), "a"));
    assert!(!vision_model_available(&Some(b"{".to_vec()), "a"));
    assert!(!vision_model_available(&None, "a"));
    assert!(!tags_list_model(&Json::empty(), "a"));
}

fn context(diff: Option<String>) -> Context {
    let mut c = Context::default();
    c.working_directory = Some("/w".to_string());
    c.git_diff = diff;
    c
}

#[test]
fn hermes_tool() {
    let args = || {
        Json::empty().with("template", Json::text("bug_fix")).with("request", Json::text("fix it"))
    };
    let no_templates = || Reply::Templates(Vec::new());
    match asked("launch_hermes", args(), Vec::new()) {
        Request::LoadTemplates => {}
        other => panic!("{:?}", other),
    }
    let none = run("launch_hermes", args(), vec![no_templates(), Reply::Config(Ok(config()))]);
    assert_eq!(
        none.output,
        "tool error: Hermes is not configured. Add [hermes] section to ~/.config/gremlin/config.toml"
    );
    let bad = run(
        "launch_hermes",
        args(),
        vec![no_templates(), Reply::Config(Err(ConfigError::MissingDir("d".to_string())))],
    );
    assert_eq!(bad.output, "tool error: Failed to load config: missing config dir: d");
    match asked(
        "launch_hermes",
        args(),
        vec![no_templates(), Reply::Config(Ok(hermes_config())), Reply::Context(context(None))],
    ) {
        Request::LaunchHermes(command) => {
            assert_eq!(command.model, "coder:14b");
            assert_eq!(command.invocation.program, "/opt/hermes");
            assert_eq!(command.invocation.args[0], "ask");
            let t = find_template("bug_fix").unwrap();
            let expected = format!(
                "{}\n\nProject context (auto-gathered, do not ask the user for this):\nSystem context:\nWorking directory: /w\n\n\n\n{}\n\nTask:\nfix it\n\nFormat your response as:\n```diff\n(your changes here)\n```",
                t.system_prompt,
                t.instructions.unwrap()
            );
            assert_eq!(command.invocation.args[1], expected);
        }
        other => panic!("{:?}", other),
    }
    let say = |h: HermesReply| {
        run(
            "launch_hermes",
            args(),
            vec![
                no_templates(),
                Reply::Config(Ok(hermes_config())),
                Reply::Context(context(None)),
                Reply::Hermes(h),
            ],
        )
        .output
    };
    let ended = |o: Output| {
        HermesReply::Ran(HermesOutcome::Ended { output: o, duration_secs: "1.5".to_string() })
    };
    assert_eq!(
        say(ended(Output { success: true, stdout: b" done \n".to_vec(), stderr: Vec::new() })),
        "Hermes completed (took 1.5s):\ndone"
    );
    assert_eq!(
        say(ended(Output { success: false, stdout: b"out".to_vec(), stderr: b" ".to_vec() })),
        "Hermes failed (took 1.5s):\nHermes exited with error:\nout"
    );
    assert_eq!(
        say(ended(Output { success: false, stdout: b"out".to_vec(), stderr: b"err".to_vec() })),
        "Hermes failed (took 1.5s):\nHermes exited with error:\nerr"
    );
    let long = Output { success: true, stdout: vec![b'z'; 30_001], stderr: Vec::new() };
    assert_eq!(
        say(ended(long)),
        format!(
            "Hermes completed (took 1.5s):\n{}\n\n[... response truncated at 30KB ...]",
            "z".repeat(30_000)
        )
    );
    assert_eq!(
        say(HermesReply::Ran(HermesOutcome::NotStarted("e".to_string()))),
        "tool error: Failed to launch Hermes (/opt/hermes): e"
    );
    assert_eq!(
        say(HermesReply::Ran(HermesOutcome::TimedOut)),
        "tool error: Hermes timed out after 300 seconds"
    );
    assert_eq!(
        say(HermesReply::Ran(HermesOutcome::Panicked("e".to_string()))),
        "tool error: Hermes task panicked: e"
    );
    assert_eq!(
        say(HermesReply::Ran(HermesOutcome::Lost("e".to_string()))),
        "tool error: Hermes process error: e"
    );
    assert_eq!(
        say(HermesReply::NoRuntime("e".to_string())),
        "tool error: Failed to create runtime: e"
    );
    assert_eq!(say(HermesReply::Panicked), "tool error: Hermes worker thread panicked");
    let split = format!("{}ä", "x".repeat(3_999));
    let explain = |made: Result<(), String>| {
        run(
            "launch_hermes",
            Json::empty().with("template", Json::text("explain")),
            vec![
                no_templates(),
                Reply::Config(Ok(hermes_config())),
                Reply::Context(context(Some(split.clone()))),
                Reply::Runtime(made),
            ],
        )
        .output
    };
    assert_eq!(explain(Ok(())), "tool error: Hermes worker thread panicked");
    assert_eq!(explain(Err("e".to_string())), "tool error: Failed to create runtime: e");
}

fn hermes_prompt(template: &str, user: Vec<PromptTemplate>, diff: Option<String>) -> String {
    match asked(
        "launch_hermes",
        Json::empty().with("template", Json::text(template)).with("request", Json::text("go")),
        vec![
            Reply::Templates(user),
            Reply::Config(Ok(hermes_config())),
            Reply::Context(context(diff)),
        ],
    ) {
        Request::LaunchHermes(command) => command.invocation.args[1].clone(),
        other => panic!("{:?}", other),
    }
}

#[test]
fn full_diffs_are_put_into_the_prompt() {
    let diff = "d".repeat(5_000);
    let full = hermes_prompt("code_review", Vec::new(), Some(diff.clone()));
    assert!(full.contains(&format!("\nGit diff (unstaged):\n{}\n\n", diff)));
    let cut = hermes_prompt("explain", Vec::new(), Some(diff.clone()));
    assert!(!cut.contains(&diff));
    assert!(cut.contains("...\n(truncated, 5000 chars total)"));
    let split = format!("{}ä", "x".repeat(3_999));
    assert!(hermes_prompt("bug_fix", Vec::new(), Some(split.clone())).contains(&split));
}

#[test]
fn user_templates_stand_beside_the_others() {
    let own = |name: &str| PromptTemplate {
        name: name.to_string(),
        description: "d".to_string(),
        system_prompt: "Mine.".to_string(),
        instructions: None,
        output_tag: None,
        include_diff: false,
    };
    let user = || vec![own("explain"), own("mine")];
    assert!(hermes_prompt("mine", user(), None).starts_with("Mine.\n\n"));
    assert!(hermes_prompt("explain", user(), None).starts_with("You are explaining how code"));
    let other = hermes_prompt("nope", user(), None);
    assert!(other.starts_with("You are working on a coding task.\n\nRules:\n- Do what"));
    assert!(other.ends_with("\n\nTask:\ngo"));
    assert_eq!(find_template_among(&user(), "mine").system_prompt, "Mine.");
}

#[test]
fn templates_are_found_by_name() {
    let names = template_names();
    assert_eq!(
        names,
        ["code_review", "bug_fix", "architecture", "refactor", "explain", "documentation"]
    );
    for name in &names {
        assert_eq!(&find_template(name).unwrap().name, name);
    }
    let generic = find_template("nope").unwrap();
    assert_eq!(generic.name, "generic");
    assert!(!generic.include_diff);
    assert_eq!(find_template("generic").unwrap().system_prompt, generic.system_prompt);
    let t = find_template("documentation").unwrap();
    assert_eq!(t.output_tag.as_deref(), Some("markdown"));
    assert!(!t.include_diff);
    assert!(t.system_prompt.starts_with("You are writing documentation for developers.\n\nProduce"));
    let r = find_template("refactor").unwrap();
    assert!(r.system_prompt.contains("\n1. Correctness — the refactored code must behave identically\n2. "));
}

#[test]
fn sprite_tools_ask_the_sprite() {
    let mut registry = ToolRegistry::new();
    gremlin::sprite::register_sprite_tools(&mut registry);
    assert_eq!(registry.tools_schema().len(), 26);
    let say = |name: &str, args: Json, r: SpriteReply| {
        run_in(&registry, name, args, vec![Reply::Sprite(r)]).output
    };
    assert_eq!(
        say("sprite_status", Json::empty(), SpriteReply::Poisoned),
        "tool error: sprite controller lock poisoned"
    );
    assert_eq!(
        say("sprite_status", Json::empty(), SpriteReply::Said(Ok("here".to_string()))),
        "here"
    );
    assert_eq!(
        say(
            "sprite_list_states",
            Json::empty(),
            SpriteReply::Said(Err(GremlinError::Io("x".to_string())))
        ),
        "io error: x"
    );
    let args = Json::empty().with("state", Json::text("wave")).with("one_shot", Json::Bool(true));
    match registry.execute("sprite_state", &args, &Vec::new()) {
        Execution::Perform(Request::Sprite(SpriteCommand::SetState { state, one_shot })) => {
            assert_eq!(state, "wave");
            assert!(one_shot);
        }
        other => panic!("{:?}", other),
    }
    let r = run_in(&registry, "sprite_state", Json::empty(), Vec::new());
    assert_eq!(r.output, "tool error: missing 'state'");
    let r = run_in(
        &registry,
        "sprite_frame",
        Json::empty().with("state", Json::text("a")).with("frame", float("1.5")),
        Vec::new(),
    );
    assert_eq!(r.output, "tool error: missing 'frame'");
    match registry.execute(
        "sprite_frame",
        &Json::empty().with("state", Json::text("a")).with("frame", number(3)),
        &Vec::new(),
    ) {
        Execution::Perform(Request::Sprite(SpriteCommand::Frame { state, frame })) => {
            assert_eq!(state, "a");
            assert_eq!(frame, 3);
        }
        other => panic!("{:?}", other),
    }
}

#[test]
fn an_answer_of_another_kind_is_not_taken() {
    match asked("pwd", Json::empty(), vec![Reply::Process(ok("x"))]) {
        Request::CurrentDir => {}
        other => panic!("{:?}", other),
    }
}

#[test]
fn errors_in_words() {
    let text = "t".to_string();
    let cases = [
        (GremlinError::Config(ConfigError::MissingField(text.clone())),
            "config error: missing required field: t"),
        (GremlinError::Config(ConfigError::Io(text.clone())), "config error: io: t"),
        (GremlinError::Config(ConfigError::MissingDir(text.clone())),
            "config error: missing config dir: t"),
        (GremlinError::Config(ConfigError::Parse(text.clone())), "config error: parse error: t"),
        (GremlinError::Ollama(OllamaError::Unreachable { url: "u".to_string(), detail: text.clone() }),
            "ollama error: ollama not reachable at u: t"),
        (GremlinError::Ollama(OllamaError::ModelNotFound { model: text.clone() }),
            "ollama error: model t not found"),
        (GremlinError::Ollama(OllamaError::Http(text.clone())), "ollama error: http: t"),
        (GremlinError::Json(text.clone()), "json error: t"),
        (GremlinError::Io(text.clone()), "io error: t"),
        (GremlinError::Sqlite(text.clone()), "sqlite error: t"),
        (GremlinError::Tool(text), "tool error: t"),
    ];
    for (e, words) in &cases {
        assert_eq!(&e.message(), words);
        assert_eq!(&e.copy().message(), words);
    }
}
