use std::sync::Arc;
use zeroclaw::file_edit::{
    apply_edit, build_edit_request, edit_error_message, perform_edit, EditError, EditOp,
    EditRequest, FileEditTool, FILE_EDIT_SCHEMA,
};
use zeroclaw::security::{AutonomyLevel, SecurityPolicy};
use zeroclaw::tool::Tool;

fn lines(v: &[&str]) -> Vec<String> {
    v.iter().map(|s| s.to_string()).collect()
}

fn req(op: EditOp, line: usize, content: Option<&str>, end_line: Option<usize>) -> EditRequest {
    EditRequest {
        path: "notes.txt".to_string(),
        op,
        line,
        content: content.map(|s| s.to_string()),
        end_line,
    }
}

fn policy() -> SecurityPolicy {
    SecurityPolicy {
        workspace_dir: "/tmp/ws".to_string(),
        autonomy_level: AutonomyLevel::Supervised,
        workspace_only: true,
        require_approval_for_medium_risk: true,
        block_high_risk_commands: true,
        allowed_commands: Vec::new(),
        forbidden_paths: Vec::new(),
        max_actions_per_hour: 10,
        max_cost_per_day_cents: 100,
        actions_this_hour: 0,
        hour_window_start: 0,
        cost_today_cents: 0,
        day_window_start: 0,
    }
}

#[test]
fn insert_places_content_after_given_line() {
    let file = lines(&["a", "b", "c"]);
    let r = apply_edit(&req(EditOp::Insert, 2, Some("x"), None), &file).unwrap();
    assert_eq!(r, lines(&["a", "x", "b", "c"]));
}

#[test]
fn insert_line_zero_inserts_at_top() {
    let file = lines(&["a", "b"]);
    let r = apply_edit(&req(EditOp::Insert, 0, Some("x"), None), &file).unwrap();
    assert_eq!(r, lines(&["x", "a", "b"]));
}

#[test]
fn insert_beyond_end_appends() {
    let file = lines(&["a", "b"]);
    let r = apply_edit(&req(EditOp::Insert, 99, Some("x"), None), &file).unwrap();
    assert_eq!(r, lines(&["a", "b", "x"]));
}

#[test]
fn insert_into_empty_file() {
    let file = lines(&[]);
    let r = apply_edit(&req(EditOp::Insert, 1, Some("x"), None), &file).unwrap();
    assert_eq!(r, lines(&["x"]));
}

#[test]
fn insert_without_content_is_reported() {
    let file = lines(&["a"]);
    let e = apply_edit(&req(EditOp::Insert, 1, None, None), &file).unwrap_err();
    assert_eq!(edit_error_message(&e), "Missing 'content' for insert");
}

#[test]
fn delete_single_line() {
    let file = lines(&["a", "b", "c"]);
    let r = apply_edit(&req(EditOp::Delete, 2, None, None), &file).unwrap();
    assert_eq!(r, lines(&["a", "c"]));
}

#[test]
fn delete_range_clamps_to_file_bounds() {
    let file = lines(&["a", "b", "c"]);
    let r = apply_edit(&req(EditOp::Delete, 2, None, Some(99)), &file).unwrap();
    assert_eq!(r, lines(&["a"]));
}

#[test]
fn delete_beyond_end_is_reported_not_a_fault() {
    let file = lines(&["a", "b"]);
    let e = apply_edit(&req(EditOp::Delete, 5, None, None), &file).unwrap_err();
    assert_eq!(
        edit_error_message(&e),
        "Line 5 out of range (file has 2 lines)"
    );
}

#[test]
fn delete_from_empty_file_is_reported() {
    let file = lines(&[]);
    let e = apply_edit(&req(EditOp::Delete, 1, None, None), &file).unwrap_err();
    assert_eq!(
        edit_error_message(&e),
        "Line 1 out of range (file has 0 lines)"
    );
}

#[test]
fn replace_single_line() {
    let file = lines(&["a", "b", "c"]);
    let r = apply_edit(&req(EditOp::Replace, 2, Some("x"), None), &file).unwrap();
    assert_eq!(r, lines(&["a", "x", "c"]));
}

#[test]
fn replace_range_collapses_to_one_line() {
    let file = lines(&["a", "b", "c", "d"]);
    let r = apply_edit(&req(EditOp::Replace, 2, Some("x"), Some(3)), &file).unwrap();
    assert_eq!(r, lines(&["a", "x", "d"]));
}

#[test]
fn replace_beyond_end_is_reported() {
    let file = lines(&["a"]);
    let e = apply_edit(&req(EditOp::Replace, 3, Some("x"), None), &file).unwrap_err();
    assert_eq!(
        edit_error_message(&e),
        "Line 3 out of range (file has 1 lines)"
    );
}

#[test]
fn replace_without_content_is_reported() {
    let file = lines(&["a"]);
    let e = apply_edit(&req(EditOp::Replace, 1, None, None), &file).unwrap_err();
    assert_eq!(edit_error_message(&e), "Missing 'content' for replace");
}

#[test]
fn replace_twice_yields_identical_content() {
    let file = lines(&["a", "b", "c"]);
    let r = req(EditOp::Replace, 2, Some("x"), None);
    let once = apply_edit(&r, &file).unwrap();
    let twice = apply_edit(&r, &once).unwrap();
    assert_eq!(once, twice);
    assert_eq!(once, lines(&["a", "x", "c"]));
}

#[test]
fn insert_then_delete_restores_prior_content() {
    let file = lines(&["a", "b", "c"]);
    let ins = req(EditOp::Insert, 2, Some("x"), None);
    let del = req(EditOp::Delete, 2, None, Some(2));
    let mid = apply_edit(&ins, &file).unwrap();
    assert_eq!(mid, lines(&["a", "x", "b", "c"]));
    let back = apply_edit(&del, &mid).unwrap();
    assert_eq!(back, file);
}

#[test]
fn insert_then_delete_restores_at_file_edges() {
    for line in [0usize, 1, 3, 4] {
        let file = lines(&["a", "b", "c"]);
        let ins = req(EditOp::Insert, line, Some("x"), None);
        let del = req(EditOp::Delete, line, None, Some(line));
        let mid = apply_edit(&ins, &file).unwrap();
        let back = apply_edit(&del, &mid).unwrap();
        assert_eq!(back, file);
    }
}

#[test]
fn build_request_reports_missing_fields_in_order() {
    let e = build_edit_request(None, None, None, None, None).unwrap_err();
    assert_eq!(edit_error_message(&e), "Missing 'path' parameter");
    let e = build_edit_request(Some("p".to_string()), None, None, None, None).unwrap_err();
    assert_eq!(edit_error_message(&e), "Missing 'operation' parameter");
    let e = build_edit_request(
        Some("p".to_string()),
        Some("insert".to_string()),
        None,
        None,
        None,
    )
    .unwrap_err();
    assert_eq!(edit_error_message(&e), "Missing 'line' parameter");
}

#[test]
fn build_request_rejects_unknown_operation() {
    let e = build_edit_request(
        Some("p".to_string()),
        Some("chop".to_string()),
        Some(1),
        None,
        None,
    )
    .unwrap_err();
    assert_eq!(
        edit_error_message(&e),
        "Unknown operation: chop. Use 'insert', 'delete', or 'replace'"
    );
}

#[test]
fn build_request_maps_operations_and_lines() {
    let r = build_edit_request(
        Some("p".to_string()),
        Some("replace".to_string()),
        Some(4),
        Some("c".to_string()),
        Some(6),
    )
    .unwrap();
    assert_eq!(r.op, EditOp::Replace);
    assert_eq!(r.line, 4);
    assert_eq!(r.end_line, Some(6));
    assert_eq!(r.path, "p");
    assert_eq!(r.content.as_deref(), Some("c"));
}

#[test]
fn build_request_pins_negative_lines_past_end() {
    let r = build_edit_request(
        Some("p".to_string()),
        Some("insert".to_string()),
        Some(-1),
        Some("c".to_string()),
        None,
    )
    .unwrap();
    assert_eq!(r.line, usize::MAX);
}

#[test]
fn perform_edit_reports_success_with_lines_changed() {
    let file = lines(&["a", "b", "c", "d"]);
    let (out, report) = perform_edit(&req(EditOp::Delete, 2, None, Some(3)), &file).unwrap();
    assert_eq!(out, lines(&["a", "d"]));
    assert!(report.success);
    assert_eq!(report.error, None);
    assert_eq!(
        report.output,
        "delete operation completed. 2 lines changed in notes.txt"
    );
}

#[test]
fn perform_edit_reports_insert_as_one_line() {
    let file = lines(&["a"]);
    let (_, report) = perform_edit(&req(EditOp::Insert, 1, Some("x"), None), &file).unwrap();
    assert_eq!(
        report.output,
        "insert operation completed. 1 lines changed in notes.txt"
    );
}

#[test]
fn perform_edit_surfaces_errors_as_tool_results() {
    let file = lines(&["a"]);
    let t = perform_edit(&req(EditOp::Delete, 7, None, None), &file).unwrap_err();
    assert!(!t.success);
    assert_eq!(
        t.error.as_deref(),
        Some("Line 7 out of range (file has 1 lines)")
    );
}

#[test]
fn plan_edit_extracts_arguments_from_json() {
    let tool = FileEditTool::new(Arc::new(policy()));
    let args: serde_json::Value = serde_json::from_str(
        "{\"path\":\"notes.txt\",\"operation\":\"insert\",\"line\":2,\"content\":\"x\"}",
    )
    .unwrap();
    let r = tool.plan_edit(&args).unwrap();
    assert_eq!(r.path, "notes.txt");
    assert_eq!(r.op, EditOp::Insert);
    assert_eq!(r.line, 2);
    assert_eq!(r.content.as_deref(), Some("x"));
    assert_eq!(r.end_line, None);
}

#[test]
fn plan_edit_rejects_missing_arguments() {
    let tool = FileEditTool::new(Arc::new(policy()));
    let args: serde_json::Value = serde_json::from_str("{\"operation\":\"insert\"}").unwrap();
    let t = tool.plan_edit(&args).unwrap_err();
    assert!(!t.success);
    assert_eq!(t.error.as_deref(), Some("Missing 'path' parameter"));
}

#[test]
fn plan_edit_denies_escaping_path() {
    let tool = FileEditTool::new(Arc::new(policy()));
    let args: serde_json::Value = serde_json::from_str(
        "{\"path\":\"../outside.txt\",\"operation\":\"delete\",\"line\":1}",
    )
    .unwrap();
    let t = tool.plan_edit(&args).unwrap_err();
    assert!(!t.success);
    assert_eq!(
        t.error.as_deref(),
        Some("Path not allowed by security policy: ../outside.txt")
    );
}

#[test]
fn tool_metadata_matches_contract() {
    let tool = FileEditTool::new(Arc::new(policy()));
    assert_eq!(tool.name(), "file_edit");
    assert_eq!(
        tool.description(),
        "Edit a file: insert lines, delete lines, or replace content at specific line numbers"
    );
    assert_eq!(tool.parameters_schema_text(), FILE_EDIT_SCHEMA);
}

#[test]
fn parameters_schema_parses_to_the_documented_object() {
    let tool = FileEditTool::new(Arc::new(policy()));
    let v = tool.parameters_schema();
    assert_eq!(v.get("type").and_then(|t| t.as_str()), Some("object"));
    let required = v.get("required").unwrap();
    assert_eq!(required.get(0).and_then(|x| x.as_str()), Some("path"));
    assert_eq!(required.get(1).and_then(|x| x.as_str()), Some("operation"));
    assert_eq!(required.get(2).and_then(|x| x.as_str()), Some("line"));
    assert!(v.get("properties").and_then(|p| p.get("end_line")).is_some());
}

#[test]
fn edit_errors_cover_every_variant() {
    assert_eq!(
        edit_error_message(&EditError::MissingPath),
        "Missing 'path' parameter"
    );
    assert_eq!(
        edit_error_message(&EditError::MissingOperation),
        "Missing 'operation' parameter"
    );
    assert_eq!(
        edit_error_message(&EditError::MissingLine),
        "Missing 'line' parameter"
    );
    assert_eq!(
        edit_error_message(&EditError::UnknownOperation("zap".to_string())),
        "Unknown operation: zap. Use 'insert', 'delete', or 'replace'"
    );
    assert_eq!(
        edit_error_message(&EditError::MissingContent(EditOp::Insert)),
        "Missing 'content' for insert"
    );
    assert_eq!(
        edit_error_message(&EditError::LineOutOfRange { line: 120, total: 7 }),
        "Line 120 out of range (file has 7 lines)"
    );
}
