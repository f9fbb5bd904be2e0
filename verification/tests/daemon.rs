use gremlin::config::{Config, ConfigFile, OllamaConfig, SpriteConfig};
use gremlin::context::{context_calls, Context, Surroundings};
use gremlin::conversation::{generate_session_id, Conversation};
use gremlin::daemon::{clear_command, socket_path, Query, QueryStep};
use gremlin::error::{ConfigError, GremlinError, OllamaError};
use gremlin::json::Json;
use gremlin::ollama::{ChatResponse, Message, ModelInfo, Ollama, ToolCall};
use gremlin::protocol::{
    answer_line, bind_error, call_line, not_running_error, parse_request, parse_response,
    question_line, receive, result_reply_line, DaemonRequest, LineRead,
};
use gremlin::toolcall::{
    call_block, choose_call, fenced_block, parse_tool_call, tool_result_to_string,
};
use gremlin::tools::ToolResult;

fn roles(messages: &[Message]) -> Vec<String> {
    messages.iter().map(|m| format!("{}:{}", m.role, m.content)).collect()
}

fn fresh() -> Conversation {
    Conversation::new(&None, 255)
}

fn tool_result(success: bool) -> ToolResult {
    ToolResult { tool: "pwd".to_string(), success, output: "/w".to_string() }
}

#[test]
fn sessions_are_named_after_the_time() {
    assert_eq!(generate_session_id(255), "00000000000000ff");
    assert_eq!(generate_session_id(0), "0000000000000000");
    assert_eq!(generate_session_id(0x1_0000_0000_0000_0000), "10000000000000000");
    for n in [1u128, 15, 16, 1_700_000_000_123_456_789, u128::MAX] {
        assert_eq!(generate_session_id(n), format!("{:016x}", n));
    }
    assert_ne!(generate_session_id(1), generate_session_id(16));
    assert_ne!(generate_session_id(0), generate_session_id(0x1_0000_0000_0000_0000));
}

#[test]
fn conversations_start_or_go_on() {
    let c = fresh();
    assert!(c.messages.is_empty());
    assert_eq!(c.session_id, "00000000000000ff");
    let saved = Conversation { messages: vec![Message::user("hi")], session_id: "s".to_string() };
    let c = Conversation::new(&Some(saved.saved_text()), 1);
    assert_eq!(c.session_id, "s");
    assert_eq!(roles(&c.messages), ["user:hi"]);
}

#[test]
fn saved_conversations_come_back() {
    let mut c = fresh();
    c.push(Message::system("scene"));
    c.push(Message::user("\"quoted\" ä\n{}"));
    c.push(Message::assistant(""));
    let back = Conversation::new(&Some(c.saved_text()), 1);
    assert_eq!(back.session_id, c.session_id);
    assert_eq!(roles(&back.messages), roles(&c.messages));
    c.clear(7);
    let back = Conversation::new(&Some(c.saved_text()), 1);
    assert_eq!(back.session_id, "0000000000000007");
    assert_eq!(roles(&back.messages), ["system:scene"]);
    assert_eq!(
        Conversation { messages: vec![Message::user("hi")], session_id: "s".to_string() }
            .saved_text(),
        "{\n  \"messages\": [\n    {\n      \"content\": \"hi\",\n      \"role\": \"user\"\n    }\n  ],\n  \"session_id\": \"s\"\n}"
    );
}

#[test]
fn what_is_no_conversation_starts_afresh() {
    for text in [
        "",
        "nonsense",
        "{}",
        "{\"session_id\": \"s\"}",
        "{\"messages\": []}",
        "{\"session_id\": 1, \"messages\": []}",
        "{\"session_id\": \"s\", \"messages\": {}}",
        "{\"session_id\": \"s\", \"messages\": [{\"role\": \"user\"}]}",
        "{\"session_id\": \"s\", \"messages\": [{\"role\": \"user\", \"content\": \"a\"}, 1]}",
    ] {
        let c = Conversation::new(&Some(text.to_string()), 255);
        assert!(c.messages.is_empty(), "{}", text);
        assert_eq!(c.session_id, "00000000000000ff");
    }
    for text in ["[]", "[\"s\"]", "[\"s\", [], 1]", "[[], \"s\"]", "[\"s\", [[\"user\"]]]"] {
        let c = Conversation::new(&Some(text.to_string()), 255);
        assert_eq!(c.session_id, "00000000000000ff", "{}", text);
    }
}

#[test]
fn other_forms_of_a_saved_conversation() {
    let load = |text: &str| Conversation::new(&Some(text.to_string()), 255);
    let c = load("{\"messages\": [], \"session_id\": \"s\", \"more\": 1}");
    assert_eq!(c.session_id, "s");
    let c = load("[\"s\", [[\"user\", \"a\"], {\"content\": \"b\", \"role\": \"assistant\"}]]");
    assert_eq!(c.session_id, "s");
    assert_eq!(roles(&c.messages), ["user:a", "assistant:b"]);
    let c = load("{\"session_id\": \"s\", \"messages\": [[\"user\", \"a\"]]}");
    assert_eq!(roles(&c.messages), ["user:a"]);
}

#[test]
fn clear_keeps_what_sets_the_scene() {
    let mut c = fresh();
    c.push(Message::system("a"));
    c.push(Message::user("b"));
    c.push(Message::system("c"));
    c.clear(1);
    assert_eq!(roles(&c.messages), ["system:a", "system:c"]);
    assert_eq!(c.session_id, "0000000000000001");
}

#[test]
fn trim_keeps_the_last_forty() {
    let mut c = fresh();
    for i in 0..40 {
        c.push(Message::user(&i.to_string()));
    }
    c.push(Message::system("s"));
    assert!(!c.trim());
    assert_eq!(c.messages.len(), 41);
    c.push(Message::assistant("last"));
    assert!(c.trim());
    assert_eq!(c.messages.len(), 41);
    assert_eq!(roles(&c.messages[..2]), ["system:s", "user:1"]);
    assert_eq!(roles(&c.messages[40..]), ["assistant:last"]);
    assert!(!c.trim());
}

#[test]
fn messages_for_the_model() {
    let mut c = fresh();
    c.push(Message::user("before"));
    assert_eq!(
        roles(&c.messages_for_llm("sys", "tools", "")),
        ["system:sys", "system:tools", "user:before"]
    );
    assert_eq!(
        roles(&c.messages_for_llm("sys", "tools", "ctx")),
        ["system:sys", "system:tools", "system:ctx", "user:before"]
    );
}

#[test]
fn the_clear_command() {
    let mut one_shot = None;
    assert_eq!(
        clear_command(" /clear\n", &mut one_shot, 1).as_deref(),
        Some("(one-shot mode has no conversation to clear)")
    );
    let mut c = Some(fresh());
    assert!(clear_command("/clear it", &mut c, 1).is_none());
    c.as_mut().unwrap().push(Message::user("x"));
    assert_eq!(
        clear_command("/clear", &mut c, 1).as_deref(),
        Some("Conversation cleared. What's next?")
    );
    assert!(c.unwrap().messages.is_empty());
}

#[test]
fn a_question_without_tools() {
    let mut c = Some(fresh());
    let mut ctx = Context::default();
    ctx.git_branch = Some("main".to_string());
    let q = Query::begin("sys", "tools", &ctx, "hello", &mut c);
    assert_eq!(
        roles(&q.messages),
        ["system:sys", "system:tools", "system:System context:\nGit branch: main\n\n", "user:hello"]
    );
    match q.respond("hi there", &mut c) {
        QueryStep::Answer(text) => assert_eq!(text, "hi there"),
        other => panic!("{:?}", other),
    }
    assert_eq!(roles(&c.unwrap().messages), ["user:hello", "assistant:hi there"]);
}

#[test]
fn a_question_with_too_many_tools() {
    let call = "{\"tool\":\"pwd\"}";
    let mut c = Some(fresh());
    let mut q = Query::begin("sys", "tools", &Context::default(), "where", &mut c);
    for round in 0..5 {
        assert_eq!(q.rounds, round);
        match q.respond(call, &mut c) {
            QueryStep::RunTool(t) => assert_eq!(t.name, "pwd"),
            other => panic!("{:?}", other),
        }
        q.resume(call, &tool_result(true), &mut c);
    }
    assert_eq!(q.messages.len(), 3 + 10 + 1);
    assert_eq!(
        roles(&q.messages[13..]),
        ["user:You've used several tools. Now provide your final answer based on the results above."]
    );
    match q.respond(call, &mut c) {
        QueryStep::Answer(text) => assert_eq!(text, call),
        other => panic!("{:?}", other),
    }
    let c = c.unwrap();
    assert_eq!(c.messages.len(), 1 + 10 + 1);
    assert_eq!(c.messages[2].content, "Tool `pwd` returned:\n/w");
}

#[test]
fn a_question_without_a_conversation() {
    let mut none = None;
    let mut q = Query::begin("sys", "tools", &Context::default(), "where", &mut none);
    assert_eq!(roles(&q.messages), ["system:sys", "system:tools", "user:where"]);
    q.resume("{\"tool\":\"pwd\"}", &tool_result(false), &mut none);
    assert_eq!(q.messages[4].content, "Tool `pwd` failed:\n/w");
    assert!(none.is_none());
    let config = Config::default("p");
    let ollama = Ollama::new(&config.ollama);
    let chat = q.chat(&ollama, &config);
    assert_eq!(chat.url, "http://localhost:11434/api/chat");
    assert_eq!(chat.model, "llama3.2:3b");
    assert_eq!(chat.num_ctx, Some(8192));
    assert!(!chat.stream);
    assert!(chat.keep_alive.is_none());
    assert_eq!(roles(&chat.messages), roles(&q.messages));
}

#[test]
fn tool_calls_are_found() {
    let name = |s: &str| parse_tool_call(s).map(|c| c.name);
    let fenced = "Sure!\n```tool\n{\"tool\": \"pwd\", \"args\": {\"a\": true}}\n```\nDone.";
    let call = parse_tool_call(fenced).expect("a call");
    assert_eq!(call.name, "pwd");
    assert_eq!(call.args.get_bool("a"), Some(true));
    assert_eq!(fenced_block(fenced).as_deref(), Some("{\"tool\": \"pwd\", \"args\": {\"a\": true}}"));
    let whole = parse_tool_call(" {\"tool\": \"git_diff\"} ").expect("a call");
    assert_eq!(whole.name, "git_diff");
    assert!(matches!(whole.args, Json::Object(ref m) if m.is_empty()));
    assert_eq!(
        name("I will run {\"tool\": \"x\", \"args\": {\"k\": {}}} now }"),
        Some("x".to_string())
    );
    assert_eq!(name("no call here"), None);
    assert_eq!(name("{\"other\": 1}"), None);
    assert_eq!(name("{\"tool\": 5}"), None);
    assert_eq!(name("unclosed {\"tool\": \"x\""), None);
    assert_eq!(name("```tool\n{\"name\": \"x\"}\n``` and {\"tool\": \"y\"}"), None);
    assert_eq!(name("```tool\nnot json\n``` and {\"tool\": \"y\"}"), Some("y".to_string()));
    assert_eq!(name("ä```tool{\"tool\":\"é\"}```"), Some("é".to_string()));
    assert_eq!(name("```tool\n{\"tool\": \"never closed\"}"), Some("never closed".to_string()));
    assert!(choose_call(&None, &Err("e".to_string()), &None).is_none());
    assert_eq!(tool_result_to_string(&tool_result(true)), "Tool `pwd` returned:\n/w");
}

#[test]
fn written_calls_are_read() {
    let nested = Json::empty().with("deep", Json::array(vec![Json::unsigned(3), Json::Null]));
    let call = ToolCall {
        name: "read_file".to_string(),
        args: Json::empty()
            .with("path", Json::text("a `b` \"c\""))
            .with("limit", Json::unsigned(7))
            .with("staged", Json::Bool(true))
            .with("more", nested),
    };
    let block = call_block(&call);
    assert!(block.starts_with("```tool\n{\"args\":{"));
    assert!(block.ends_with("\"tool\":\"read_file\"}\n```"));
    for before in ["", "Let me see: `x`, ```rust\nfn f() {}\n```\n", "``"] {
        for after in ["", "```tool\n{\"tool\": \"other\"}\n```", "`"] {
            let read = parse_tool_call(&format!("{}{}{}", before, block, after)).expect("a call");
            assert_eq!(read.name, "read_file");
            assert_eq!(read.args.get_text("path").as_deref(), Some("a `b` \"c\""));
            assert_eq!(read.args.get_unsigned("limit"), Some(7));
            assert_eq!(read.args.get_bool("staged"), Some(true));
            assert_eq!(call_block(&read), block);
        }
    }
}

#[test]
fn sockets() {
    assert_eq!(socket_path(&Some("/run/user/7".to_string()), 7), "/run/user/7/gremlin.sock");
    assert_eq!(socket_path(&Some("/run/".to_string()), 7), "/run/gremlin.sock");
    assert_eq!(socket_path(&Some(String::new()), 7), "gremlin.sock");
    assert_eq!(socket_path(&None, 1000), "/tmp/gremlin-1000.sock");
    assert_eq!(bind_error("p", "e").message(), "tool error: Failed to bind to p: e");
    assert_eq!(not_running_error("p", "e").message(), "tool error: Daemon not running at p: e");
}

fn message(line: &str) -> String {
    match parse_request(line) {
        Ok(DaemonRequest::Message(m)) => m,
        other => panic!("{:?}", other),
    }
}

#[test]
fn requests_go_over_the_wire() {
    let line = question_line("say \"hi\"\nä");
    assert_eq!(line, "{\"message\":\"say \\\"hi\\\"\\nä\"}\n");
    assert_eq!(message(&line), "say \"hi\"\nä");
    assert_eq!(message("{}"), "(empty)");
    assert_eq!(message("{\"message\": 4}"), "(empty)");
    let line = call_line("sprite_current_frame");
    assert_eq!(line, "{\"tool\":\"sprite_current_frame\"}\n");
    match parse_request(&line) {
        Ok(DaemonRequest::Tool(call)) => {
            assert_eq!(call.name, "sprite_current_frame");
            assert!(matches!(call.args, Json::Object(ref m) if m.is_empty()));
        }
        other => panic!("{:?}", other),
    }
    match parse_request("{\"tool\":\"a\",\"args\":[1]}") {
        Ok(DaemonRequest::Tool(call)) => assert!(matches!(call.args, Json::Array(_))),
        other => panic!("{:?}", other),
    }
    match parse_request("{") {
        Err(GremlinError::Json(e)) => assert!(e.contains("EOF")),
        other => panic!("{:?}", other),
    }
}

#[test]
fn answers_go_over_the_wire() {
    let line = answer_line("fine");
    assert_eq!(line, "{\"response\":\"fine\"}\n");
    assert_eq!(parse_response(&line).unwrap(), "fine");
    let line = result_reply_line(&tool_result(false));
    assert_eq!(line, "{\"response\":\"/w\",\"success\":false}\n");
    assert_eq!(parse_response(&line).unwrap(), "/w");
    assert_eq!(parse_response("{}").unwrap(), "(no response)");
    assert!(parse_response("").is_err());
}

#[test]
fn waiting_for_a_request() {
    assert_eq!(receive(LineRead::Line("x".to_string())).unwrap(), "x");
    let words = |r: LineRead| receive(r).unwrap_err().message();
    assert_eq!(
        words(LineRead::Closed),
        "tool error: client disconnected before sending a request"
    );
    assert_eq!(words(LineRead::Failed("e".to_string())), "io error: e");
    assert_eq!(
        words(LineRead::TimedOut),
        "tool error: client did not send a request within 30s"
    );
}

#[test]
fn configurations() {
    let load = |f: ConfigFile| Config::load(f, "prompt");
    let c = load(ConfigFile::Absent).unwrap();
    assert_eq!(c.model.name, "llama3.2:3b");
    assert_eq!(c.model.system_prompt, "prompt");
    assert_eq!(c.ollama.url, "http://localhost:11434");
    assert_eq!(c.ollama.context_size, 8192);
    assert!(c.hermes.is_none() && c.vision.is_none() && c.preferences.shell.is_none());
    assert_eq!(c.vision_model(), "llama3.2-vision:11b");
    let s = SpriteConfig::default();
    assert_eq!((s.assets_dir.as_str(), s.initial_state.as_str()), ("assets/sprites", "idle"));
    let mut mine = Config::default("x");
    mine.model.name = "m".to_string();
    assert_eq!(load(ConfigFile::Read(mine)).unwrap().model.name, "m");
    let words = |f: ConfigFile| load(f).unwrap_err().message();
    assert_eq!(words(ConfigFile::NoDirectory), "missing config dir: XDG_CONFIG_HOME not set");
    assert_eq!(words(ConfigFile::Unreadable("e".to_string())), "io: e");
    assert_eq!(words(ConfigFile::Malformed("e".to_string())), "parse error: e");
    let e: ConfigError = load(ConfigFile::NoDirectory).unwrap_err();
    assert!(matches!(e, ConfigError::MissingDir(_)));
}

#[test]
fn the_ollama_client() {
    let o = Ollama::new(&OllamaConfig {
        url: "http://h".to_string(),
        context_size: 1,
        keep_alive: Some("5m".to_string()),
    });
    assert_eq!(o.tags_url(), "http://h/api/tags");
    let messages = vec![Message::system("s"), Message::assistant("a")];
    let r = o.chat("m", &messages, None, &None);
    assert_eq!(r.keep_alive.as_deref(), Some("5m"));
    assert_eq!(roles(&r.messages), ["system:s", "assistant:a"]);
    let r = o.chat("m", &messages, Some(4), &Some("1h".to_string()));
    assert_eq!(r.keep_alive.as_deref(), Some("1h"));
    assert_eq!(r.num_ctx, Some(4));
    assert!(o.health_check(&Ok(())).is_ok());
    assert_eq!(
        o.health_check(&Err("refused".to_string())).unwrap_err().message(),
        "ollama not reachable at http://h: refused"
    );
    let models = vec![
        ModelInfo { name: "llama3.2:3b".to_string() },
        ModelInfo { name: "qwen".to_string() },
    ];
    assert!(Ollama::model_exists(&models, "llama3.2:3b"));
    assert!(Ollama::model_exists(&models, "llama3.2"));
    assert!(Ollama::model_exists(&models, "qwen"));
    assert!(!Ollama::model_exists(&models, "llama3"));
    assert!(!Ollama::model_exists(&models, "qwen:7b"));
    assert_eq!(o.list_models(Ok(models)).unwrap().len(), 2);
    assert!(matches!(o.list_models(Err("x".to_string())), Err(OllamaError::Http(_))));
    let said = ChatResponse { message: Message::assistant("yes") };
    assert_eq!(Ollama::chat_text(Ok(said)).unwrap(), "yes");
    assert_eq!(Ollama::chat_text(Err("x".to_string())).unwrap_err().message(), "http: x");
}

fn said(success: bool, output: &str) -> ToolResult {
    ToolResult { tool: "t".to_string(), success, output: output.to_string() }
}

#[test]
fn contexts_are_gathered() {
    let names: Vec<String> = context_calls().into_iter().map(|c| c.name).collect();
    assert_eq!(
        names,
        ["pwd", "git_branch", "git_status", "git_diff", "active_window", "active_workspace"]
    );
    assert_eq!(context_calls()[3].args.get_bool("staged"), Some(false));
    let c = Context::collect(&Surroundings {
        pwd: said(true, "/w"),
        git_branch: said(true, "main"),
        git_status: said(true, "(clean working tree)"),
        git_diff: said(true, "(no changes)"),
        desktop_summary: Ok("two monitors".to_string()),
        active_window: said(true, "kitty — x"),
        active_workspace: said(false, "no"),
    });
    assert_eq!(
        c.to_prompt_string(),
        "System context:\nWorking directory: /w\nGit branch: main\nGit diff (unstaged):\n(no changes)\nDesktop:\ntwo monitors\nActive window: kitty — x\n\n"
    );
    assert_eq!(c.copy().to_prompt_string(), c.to_prompt_string());
    let none = || said(false, "x");
    let c = Context::collect(&Surroundings {
        pwd: none(),
        git_branch: none(),
        git_status: none(),
        git_diff: said(true, ""),
        desktop_summary: Ok(String::new()),
        active_window: none(),
        active_workspace: none(),
    });
    assert_eq!(c.to_prompt_string(), "");
}

#[test]
fn long_diffs_are_cut() {
    let mut c = Context::default();
    c.git_diff = Some("é".repeat(2_001));
    c.active_workspace = Some("Workspace 1: a".to_string());
    c.git_status = Some("M x".to_string());
    c.current_project = Some("p".to_string());
    assert_eq!(
        c.to_prompt_string(),
        format!(
            "System context:\nGit status:\nM x\nGit diff (unstaged):\n{}...\n(truncated, 4002 chars total)\nCurrent project: p\nWorkspace 1: a\n\n",
            "é".repeat(2_000)
        )
    );
    c.git_diff = Some("d".repeat(4_000));
    assert!(c.to_prompt_string().contains(&"d".repeat(4_000)));
    assert!(!c.to_prompt_string().contains("truncated"));
}
