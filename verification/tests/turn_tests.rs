use zeroclaw::prompt::{build_context, enrich_with_context, initial_history, MemoryEntry};
use zeroclaw::tool::{ToolCall, ToolResult};
use zeroclaw::turn::{
    append_tool_results, find_tool, unknown_tool_result, AgentTurn, ChatRole, ProviderResponse,
    TurnStep,
};

// A provider stub: a scripted list of responses, handed out one per call.
struct ProviderStub {
    responses: Vec<ProviderResponse>,
    calls: usize,
}

impl ProviderStub {
    fn next(&mut self) -> ProviderResponse {
        let r = self.responses.remove(0);
        self.calls += 1;
        r
    }
}

fn call(id: &str, name: &str) -> ToolCall {
    ToolCall {
        id: id.to_string(),
        tool_name: name.to_string(),
        arguments: "{}".to_string(),
    }
}

#[test]
fn plain_text_completes_in_one_round_trip() {
    let mut provider = ProviderStub {
        responses: vec![ProviderResponse::Text("hello".to_string())],
        calls: 0,
    };
    let mut history = initial_history("sys", "hi");
    let mut turn = AgentTurn::begin(10);
    let step = turn.on_provider_response(&mut history, provider.next());
    match step {
        TurnStep::Done(text) => assert_eq!(text, "hello"),
        _ => panic!("expected the turn to end"),
    }
    assert!(turn.finished);
    assert_eq!(provider.calls, 1);
    assert_eq!(history.len(), 3);
    assert_eq!(history[2].role, ChatRole::Assistant);
    assert_eq!(history[2].content, "hello");
}

#[test]
fn one_tool_call_then_text_builds_the_exact_history() {
    let mut provider = ProviderStub {
        responses: vec![
            ProviderResponse::ToolCalls(vec![call("c1", "stub")]),
            ProviderResponse::Text("done".to_string()),
        ],
        calls: 0,
    };
    let mut history = initial_history("sys", "hi");
    let mut turn = AgentTurn::begin(10);

    let step = turn.on_provider_response(&mut history, provider.next());
    let calls = match step {
        TurnStep::RunTools(calls) => calls,
        _ => panic!("expected tool dispatch"),
    };
    assert!(!turn.finished);

    // The stub tool answers {success: true, output: "ok"}.
    let results = vec![ToolResult {
        success: true,
        output: "ok".to_string(),
        error: None,
    }];
    append_tool_results(&mut history, &calls, &results);

    let step = turn.on_provider_response(&mut history, provider.next());
    match step {
        TurnStep::Done(text) => assert_eq!(text, "done"),
        _ => panic!("expected the turn to end"),
    }
    assert_eq!(provider.calls, 2);

    assert_eq!(history.len(), 4);
    assert_eq!(history[0].role, ChatRole::System);
    assert_eq!(history[0].content, "sys");
    assert_eq!(history[1].role, ChatRole::User);
    assert_eq!(history[1].content, "hi");
    assert_eq!(history[2].role, ChatRole::Tool);
    assert_eq!(history[2].content, "ok");
    assert_eq!(history[2].tool_call_id.as_deref(), Some("c1"));
    assert_eq!(history[3].role, ChatRole::Assistant);
    assert_eq!(history[3].content, "done");
}

#[test]
fn unknown_tool_reports_error_and_turn_proceeds() {
    let registry = vec!["shell".to_string(), "file_edit".to_string()];
    let mut history = initial_history("sys", "hi");
    let mut turn = AgentTurn::begin(10);

    let step = turn.on_provider_response(
        &mut history,
        ProviderResponse::ToolCalls(vec![call("c9", "no_such_tool")]),
    );
    let calls = match step {
        TurnStep::RunTools(calls) => calls,
        _ => panic!("expected tool dispatch"),
    };
    assert!(!turn.finished);

    assert_eq!(find_tool(&registry, &calls[0].tool_name), None);
    let result = unknown_tool_result(&calls[0].tool_name);
    assert!(!result.success);
    assert_eq!(result.error.as_deref(), Some("Unknown tool: no_such_tool"));
    append_tool_results(&mut history, &calls, &vec![result]);

    // The loop goes on to the next round-trip without aborting.
    let step = turn.on_provider_response(&mut history, ProviderResponse::Text("ok".to_string()));
    assert!(matches!(step, TurnStep::Done(_)));
    assert_eq!(history.len(), 4);
    assert_eq!(history[2].role, ChatRole::Tool);
    assert_eq!(history[2].content, "Unknown tool: no_such_tool");
    assert_eq!(history[2].tool_call_id.as_deref(), Some("c9"));
}

#[test]
fn failed_tool_result_is_appended_as_its_error_text() {
    let mut history = initial_history("sys", "hi");
    let calls = vec![call("c2", "file_edit")];
    let results = vec![ToolResult {
        success: false,
        output: String::new(),
        error: Some("File not found: gone.txt".to_string()),
    }];
    append_tool_results(&mut history, &calls, &results);
    assert_eq!(history[2].content, "File not found: gone.txt");
    assert_eq!(history[2].tool_call_id.as_deref(), Some("c2"));
}

#[test]
fn results_keep_dispatch_order_of_calls() {
    let mut history = Vec::new();
    let calls = vec![call("a", "x"), call("b", "y")];
    let results = vec![
        ToolResult { success: true, output: "first".to_string(), error: None },
        ToolResult { success: true, output: "second".to_string(), error: None },
    ];
    append_tool_results(&mut history, &calls, &results);
    assert_eq!(history.len(), 2);
    assert_eq!(history[0].tool_call_id.as_deref(), Some("a"));
    assert_eq!(history[0].content, "first");
    assert_eq!(history[1].tool_call_id.as_deref(), Some("b"));
    assert_eq!(history[1].content, "second");
}

#[test]
fn iteration_cap_ends_the_turn() {
    let mut history = initial_history("sys", "hi");
    let mut turn = AgentTurn::begin(2);
    let step = turn.on_provider_response(
        &mut history,
        ProviderResponse::ToolCalls(vec![call("c1", "shell")]),
    );
    assert!(matches!(step, TurnStep::RunTools(_)));
    let before = history.len();
    let step = turn.on_provider_response(
        &mut history,
        ProviderResponse::ToolCalls(vec![call("c2", "shell")]),
    );
    assert!(matches!(step, TurnStep::Capped));
    assert!(turn.finished);
    assert_eq!(history.len(), before);
}

#[test]
fn find_tool_returns_first_match() {
    let registry = vec![
        "shell".to_string(),
        "file_edit".to_string(),
        "shell".to_string(),
    ];
    assert_eq!(find_tool(&registry, "shell"), Some(0));
    assert_eq!(find_tool(&registry, "file_edit"), Some(1));
    assert_eq!(find_tool(&registry, "browser_open"), None);
}

#[test]
fn memory_context_renders_header_and_bullets() {
    let entries = vec![
        MemoryEntry { key: "k1".to_string(), content: "likes tea".to_string() },
        MemoryEntry { key: "k2".to_string(), content: "tz UTC".to_string() },
    ];
    assert_eq!(
        build_context(&entries),
        "[Memory context]\n- k1: likes tea\n- k2: tz UTC\n\n"
    );
    assert_eq!(build_context(&Vec::new()), "");
}

#[test]
fn context_enrichment_prefixes_only_when_present() {
    assert_eq!(enrich_with_context("", "msg"), "msg");
    assert_eq!(enrich_with_context("ctx\n", "msg"), "ctx\nmsg");
}
