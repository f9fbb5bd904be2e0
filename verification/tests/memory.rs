use gremlin::effect::{Reply, Request};
use gremlin::error::GremlinError;
use gremlin::json::{Json, JsonNumber};
use gremlin::tools::memory::{
    register_memory_tools, Entry, Memo, MemoryReply, MemoryRequest, MemoryStats, Recommendation,
    Shelf,
};
use gremlin::tools::{Execution, ToolRegistry};

fn registry() -> ToolRegistry {
    let mut r = ToolRegistry::new();
    register_memory_tools(&mut r);
    r
}

fn object(members: &[(&str, &str)]) -> Json {
    let mut o = Json::empty();
    for (k, v) in members {
        o = o.with(k, Json::text(v));
    }
    o
}

fn ask(name: &str, args: &Json) -> MemoryRequest {
    match registry().execute(name, args, &Vec::new()) {
        Execution::Perform(Request::Memory(m)) => m,
        other => panic!("{:?}", other),
    }
}

fn say(name: &str, args: &Json, reply: MemoryReply) -> String {
    match registry().execute(name, args, &vec![Reply::Memory(reply)]) {
        Execution::Done(result) => result.output,
        other => panic!("{:?}", other),
    }
}

fn refuse(name: &str, args: &Json) -> String {
    match registry().execute(name, args, &Vec::new()) {
        Execution::Done(result) => {
            assert!(!result.success);
            result.output
        }
        other => panic!("{:?}", other),
    }
}

fn entry(project: Option<&str>) -> Entry {
    Entry {
        key: "shell".to_string(),
        value: "fish".to_string(),
        project: project.map(|p| p.to_string()),
        percent: "80".to_string(),
        source: "conversation".to_string(),
    }
}

#[test]
fn memory_tools_are_registered() {
    let r = registry();
    let names: Vec<&str> = r.tools_schema().iter().skip(21).map(|t| t.name).collect();
    assert_eq!(
        names,
        ["memory_fact", "memory_pref", "memory_search", "memory_recommend", "memory_stats"]
    );
}

#[test]
fn facts_are_got() {
    let args = object(&[("action", "get"), ("key", "shell"), ("project", "p")]);
    match ask("memory_fact", &args) {
        MemoryRequest::Get { shelf, key, project } => {
            assert_eq!(shelf, Shelf::Facts);
            assert_eq!(key, "shell");
            assert_eq!(project.as_deref(), Some("p"));
        }
        other => panic!("{:?}", other),
    }
    assert_eq!(
        say("memory_fact", &args, MemoryReply::Found(Ok(Some(entry(None))))),
        "Fact 'shell': fish (confidence: 80%, source: conversation)"
    );
    assert_eq!(
        say("memory_fact", &args, MemoryReply::Found(Ok(None))),
        "No fact found for key 'shell'"
    );
    assert_eq!(
        say(
            "memory_fact",
            &args,
            MemoryReply::Found(Err(GremlinError::Sqlite("locked".to_string())))
        ),
        "sqlite error: locked"
    );
    assert_eq!(
        say("memory_pref", &args, MemoryReply::Found(Ok(None))),
        "No preference found for key 'shell'"
    );
}

#[test]
fn entries_are_stored() {
    let args = object(&[("action", "set"), ("key", "k"), ("value", "v")]);
    match ask("memory_fact", &args) {
        MemoryRequest::Store { confidence, source, project, .. } => {
            assert_eq!(confidence, "0.8");
            assert_eq!(source, "conversation");
            assert!(project.is_none());
        }
        other => panic!("{:?}", other),
    }
    match ask("memory_pref", &args) {
        MemoryRequest::Store { shelf, confidence, source, .. } => {
            assert_eq!(shelf, Shelf::Preferences);
            assert_eq!(confidence, "0.9");
            assert_eq!(source, "explicit");
        }
        other => panic!("{:?}", other),
    }
    let half = JsonNumber { unsigned: None, signed: None, text: "0.5".to_string() };
    let given = object(&[("action", "set"), ("key", "k"), ("value", "v"), ("source", "observed")])
        .with("confidence", Json::Number(half));
    match ask("memory_fact", &given) {
        MemoryRequest::Store { confidence, source, .. } => {
            assert_eq!(confidence, "0.5");
            assert_eq!(source, "observed");
        }
        other => panic!("{:?}", other),
    }
    assert_eq!(
        say("memory_fact", &args, MemoryReply::Stored(Ok(12))),
        "Stored fact 'k' = 'v' (id=12)"
    );
    assert_eq!(
        say("memory_pref", &args, MemoryReply::Stored(Ok(-1))),
        "Stored preference 'k' = 'v' (id=-1)"
    );
}

#[test]
fn entries_are_listed() {
    let args = object(&[("action", "list")]);
    assert_eq!(
        say("memory_fact", &args, MemoryReply::Listed(Ok(vec![entry(None), entry(Some("g"))]))),
        "Facts:\n  [global] shell = fish (80%, conversation)\n  [g] shell = fish (80%, conversation)"
    );
    assert_eq!(
        say("memory_fact", &args, MemoryReply::Listed(Ok(Vec::new()))),
        "No facts stored."
    );
    assert_eq!(
        say("memory_pref", &args, MemoryReply::Listed(Ok(Vec::new()))),
        "No preferences stored."
    );
    assert!(say("memory_pref", &args, MemoryReply::Listed(Ok(vec![entry(None)])))
        .starts_with("Preferences:\n"));
}

#[test]
fn what_is_missing_is_said() {
    assert_eq!(refuse("memory_fact", &Json::empty()), "tool error: missing 'action'");
    assert_eq!(
        refuse("memory_fact", &object(&[("action", "get")])),
        "tool error: missing 'key' for get"
    );
    assert_eq!(
        refuse("memory_fact", &object(&[("action", "set")])),
        "tool error: missing 'key' for set"
    );
    assert_eq!(
        refuse("memory_fact", &object(&[("action", "set"), ("key", "k")])),
        "tool error: missing 'value' for set"
    );
    assert_eq!(
        refuse("memory_pref", &object(&[("action", "burn")])),
        "tool error: unknown action 'burn'"
    );
    assert_eq!(refuse("memory_search", &Json::empty()), "tool error: missing 'query'");
    let add = |m: &[(&str, &str)]| {
        let mut all = vec![("action", "add")];
        all.extend(m.iter().cloned());
        refuse("memory_recommend", &object(&all))
    };
    assert_eq!(add(&[]), "tool error: missing 'kind'");
    assert_eq!(add(&[("kind", "k")]), "tool error: missing 'title'");
    assert_eq!(add(&[("kind", "k"), ("title", "t")]), "tool error: missing 'description'");
    assert_eq!(
        refuse("memory_recommend", &object(&[("action", "dismiss")])),
        "tool error: missing 'id' for dismiss"
    );
    assert_eq!(
        refuse("memory_recommend", &object(&[("action", "x")])),
        "tool error: unknown action 'x'"
    );
    assert_eq!(refuse("memory_recommend", &Json::empty()), "tool error: missing 'action'");
}

#[test]
fn messages_are_searched() {
    let limit = |j: Json| match ask("memory_search", &j) {
        MemoryRequest::Search { limit, .. } => limit,
        other => panic!("{:?}", other),
    };
    let query = || object(&[("query", "rust")]);
    assert_eq!(limit(query()), 10);
    assert_eq!(limit(query().with("limit", Json::unsigned(7))), 7);
    assert_eq!(limit(query().with("limit", Json::unsigned(5_000))), 50);
    let memo = |project: Option<&str>, content: String| Memo {
        project: project.map(|p| p.to_string()),
        role: "user".to_string(),
        content,
    };
    assert_eq!(
        say(
            "memory_search",
            &query(),
            MemoryReply::Matches(Ok(vec![
                memo(None, "é".repeat(200)),
                memo(Some("g"), "short".to_string())
            ]))
        ),
        format!(
            "Found 2 result(s) for 'rust':\n  [?] user: {}...\n  [g] user: short...",
            "é".repeat(120)
        )
    );
    assert_eq!(
        say("memory_search", &query(), MemoryReply::Matches(Ok(Vec::new()))),
        "No conversations found matching 'rust'"
    );
}

#[test]
fn recommendations() {
    let add = object(&[("action", "add"), ("kind", "tool"), ("title", "T"), ("description", "D")]);
    match ask("memory_recommend", &add) {
        MemoryRequest::Recommend { confidence, context, action, .. } => {
            assert_eq!(confidence, "0.7");
            assert_eq!(context, "{}");
            assert!(action.is_none());
        }
        other => panic!("{:?}", other),
    }
    assert_eq!(
        say("memory_recommend", &add, MemoryReply::Stored(Ok(3))),
        "Added recommendation #3 (T)"
    );
    let list = object(&[("action", "list")]);
    match ask("memory_recommend", &list) {
        MemoryRequest::Recommendations { dismissed, limit } => {
            assert!(!dismissed);
            assert_eq!(limit, 20);
        }
        other => panic!("{:?}", other),
    }
    let rec = Recommendation {
        id: 3,
        kind: "tool".to_string(),
        title: "T".to_string(),
        description: "D".to_string(),
        percent: "70".to_string(),
    };
    assert_eq!(
        say("memory_recommend", &list, MemoryReply::Recommended(Ok(vec![rec]))),
        "Recommendations:\n  #3 [tool] T — D (70%)"
    );
    assert_eq!(
        say("memory_recommend", &list, MemoryReply::Recommended(Ok(Vec::new()))),
        "No pending recommendations."
    );
    let minus = JsonNumber { unsigned: None, signed: Some(-4), text: "-4".to_string() };
    let dismiss = object(&[("action", "dismiss")]).with("id", Json::Number(minus));
    assert_eq!(
        say("memory_recommend", &dismiss, MemoryReply::Dismissed(Ok(()))),
        "Dismissed recommendation #-4"
    );
    assert_eq!(
        say(
            "memory_recommend",
            &dismiss,
            MemoryReply::Dismissed(Err(GremlinError::Sqlite("x".to_string())))
        ),
        "sqlite error: x"
    );
}

#[test]
fn stats() {
    let s = MemoryStats {
        conversations: 1,
        facts: 2,
        preferences: 3,
        recommendations: 4,
        proposed_modifications: 5,
        db_size_bytes: 20_480,
    };
    assert_eq!(
        say("memory_stats", &Json::empty(), MemoryReply::Stats(Ok(s))),
        "Memory Stats:\n  Conversations: 1\n  Facts: 2\n  Preferences: 3\n  Recommendations (active): 4\n  Proposed modifications: 5\n  DB size: 20.0 KB"
    );
}
