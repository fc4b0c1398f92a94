//! Line-oriented file editing. The edit itself is a pure function from the
//! file's lines to new lines: insert places content after a 1-based line
//! (line 0 inserts at the top, a line at or past end-of-file appends);
//! delete and replace report an error for a start line beyond the file,
//! while their end lines are clamped to the file's bounds. All argument and
//! policy failures are reported through `ToolResult`, never by aborting; the
//! embedding performs only the surrounding file reads and writes.

use vstd::prelude::*;
use vstd::assert_seqs_equal;
use vstd::string::StringExecFns;
use std::sync::Arc;
use crate::json::{
    json_from_text, json_get_i64, json_get_str, json_i64_field, json_null, json_str_field,
    json_value_of,
};
use crate::security::SecurityPolicy;
use crate::text::{decimal_string, spec_decimal};
use crate::tool::{spec_failed_with, Tool, ToolResult};

verus! {

/// The three line-oriented operations.
#[derive(Debug, Copy, Clone, PartialEq, Eq, Structural)]
pub enum EditOp {
    Insert,
    Delete,
    Replace,
}

/// A validated edit request: 1-based line numbers as the model supplied
/// them, clamping and range checks happen when the edit is applied.
#[derive(Debug, Clone)]
pub struct EditRequest {
    pub path: String,
    pub op: EditOp,
    pub line: usize,
    pub content: Option<String>,
    pub end_line: Option<usize>,
}

/// Why an edit request was rejected, carrying what the report needs.
#[derive(Debug, Clone)]
pub enum EditError {
    MissingPath,
    MissingOperation,
    MissingLine,
    UnknownOperation(String),
    MissingContent(EditOp),
    LineOutOfRange { line: usize, total: usize },
}

/// The views of a sequence of lines.
pub open spec fn line_views(lines: Seq<String>) -> Seq<Seq<char>> {
    Seq::new(lines.len(), |i: int| lines[i]@)
}

/// The smaller of two integers.
pub open spec fn min_i(a: int, b: int) -> int {
    if a < b {
        a
    } else {
        b
    }
}

/// The larger of two integers.
pub open spec fn max_i(a: int, b: int) -> int {
    if a > b {
        a
    } else {
        b
    }
}

/// `x - 1` stopped at zero: a 1-based line number as a 0-based index.
pub open spec fn sat_dec(x: int) -> int {
    if x <= 1 {
        0
    } else {
        x - 1
    }
}

/// The last valid index of a file with `total` lines, zero when empty.
pub open spec fn last_index(total: int) -> int {
    if total <= 0 {
        0
    } else {
        total - 1
    }
}

/// Where an insert at 1-based `line` lands in a file of `total` lines.
pub open spec fn insert_pos(line: int, total: int) -> int {
    min_i(sat_dec(line), total)
}

/// What applying the request to the file's lines yields: the new lines, or
/// the error to report. Line content never influences the outcome, only the
/// line count does.
pub open spec fn spec_apply(req: EditRequest, lines: Seq<Seq<char>>) -> Result<
    Seq<Seq<char>>,
    EditError,
> {
    let total = lines.len() as int;
    match req.op {
        EditOp::Insert => match req.content {
            None => Err(EditError::MissingContent(EditOp::Insert)),
            Some(c) => {
                let pos = insert_pos(req.line as int, total);
                Ok(lines.take(pos) + seq![c@] + lines.skip(pos))
            },
        },
        EditOp::Delete => {
            if total == 0 || req.line as int > total {
                Err(EditError::LineOutOfRange { line: req.line, total: lines.len() as usize })
            } else {
                let start = sat_dec(req.line as int);
                let e0 = match req.end_line {
                    Some(e) => e as int,
                    None => req.line as int,
                };
                let end = max_i(min_i(sat_dec(e0), last_index(total)), start);
                Ok(lines.take(start) + lines.skip(end + 1))
            }
        },
        EditOp::Replace => match req.content {
            None => Err(EditError::MissingContent(EditOp::Replace)),
            Some(c) => {
                if total == 0 || req.line as int > total {
                    Err(EditError::LineOutOfRange { line: req.line, total: lines.len() as usize })
                } else {
                    let pos = sat_dec(req.line as int);
                    let e0 = match req.end_line {
                        Some(e) => e as int,
                        None => req.line as int,
                    };
                    let end = max_i(min_i(sat_dec(e0), last_index(total)), pos);
                    Ok(lines.take(pos) + seq![c@] + lines.skip(end + 1))
                }
            },
        },
    }
}

/// The views of an edit outcome.
pub open spec fn result_views(r: Result<Vec<String>, EditError>) -> Result<
    Seq<Seq<char>>,
    EditError,
> {
    match r {
        Ok(v) => Ok(line_views(v@)),
        Err(e) => Err(e),
    }
}

/// Appends clones of `lines[from..to]` to `out`.
fn push_range(out: &mut Vec<String>, lines: &Vec<String>, from: usize, to: usize)
    requires
        from <= to <= lines@.len(),
    ensures
        line_views(final(out)@) == line_views(old(out)@) + line_views(lines@).subrange(
            from as int,
            to as int,
        ),
{
    let mut k: usize = from;
    while k < to
        invariant
            from <= k <= to <= lines@.len(),
            line_views(out@) == line_views(old(out)@) + line_views(lines@).subrange(
                from as int,
                k as int,
            ),
        decreases to - k,
    {
        let ghost prev = out@;
        out.push(lines[k].clone());
        k = k + 1;
        proof {
            assert(out@.len() == prev.len() + 1);
            assert(forall|j: int| 0 <= j < prev.len() ==> out@[j] == prev[j]);
            assert(line_views(prev) == line_views(old(out)@) + line_views(lines@).subrange(
                from as int,
                k - 1,
            ));
            assert(line_views(prev).len() == prev.len());
            assert(line_views(old(out)@).len() == old(out)@.len());
            assert(out@[prev.len() as int]@ == lines@[k - 1]@);
            let lhs = line_views(out@);
            let rhs = line_views(old(out)@) + line_views(lines@).subrange(from as int, k as int);
            assert(lhs.len() == rhs.len());
            assert forall|j: int| 0 <= j < lhs.len() implies lhs[j] == rhs[j] by {
                if j < prev.len() {
                    assert(lhs[j] == out@[j]@);
                    assert(out@[j]@ == prev[j]@);
                    assert(prev[j]@ == line_views(prev)[j]);
                    assert(line_views(prev)[j] == (line_views(old(out)@) + line_views(
                        lines@,
                    ).subrange(from as int, k - 1))[j]);
                    if j < old(out)@.len() {
                        assert(rhs[j] == line_views(old(out)@)[j]);
                    } else {
                        assert(rhs[j] == line_views(lines@).subrange(from as int, k as int)[
                            j - old(out)@.len()]);
                        assert(line_views(lines@).subrange(from as int, k as int)[j - old(
                            out,
                        )@.len()] == lines@[from + j - old(out)@.len()]@);
                        assert(line_views(lines@).subrange(from as int, k - 1)[j - old(
                            out,
                        )@.len()] == lines@[from + j - old(out)@.len()]@);
                    }
                } else {
                    assert(lhs[j] == lines@[k - 1]@);
                    assert(rhs[j] == line_views(lines@).subrange(from as int, k as int)[j - old(
                        out,
                    )@.len()]);
                    assert(rhs[j] == lines@[k - 1]@);
                }
            }
            assert(lhs =~= rhs);
        }
    }
    proof {
        assert(line_views(out@) =~= line_views(old(out)@) + line_views(lines@).subrange(
            from as int,
            to as int,
        ));
    }
}

/// Applies the request to the file's lines.
pub fn apply_edit(req: &EditRequest, lines: &Vec<String>) -> (r: Result<Vec<String>, EditError>)
    ensures
        result_views(r) == spec_apply(*req, line_views(lines@)),
{
    let total: usize = lines.len();
    match req.op {
        EditOp::Insert => {
            let c = match &req.content {
                Some(c) => c,
                None => {
                    return Err(EditError::MissingContent(EditOp::Insert));
                },
            };
            let p0: usize = if req.line == 0 {
                0
            } else {
                req.line - 1
            };
            let pos: usize = if p0 < total {
                p0
            } else {
                total
            };
            let mut out: Vec<String> = Vec::new();
            push_range(&mut out, lines, 0, pos);
            out.push(c.clone());
            push_range(&mut out, lines, pos, total);
            proof {
                assert(line_views(out@) =~= line_views(lines@).take(pos as int) + seq![c@]
                    + line_views(lines@).skip(pos as int));
            }
            Ok(out)
        },
        EditOp::Delete => {
            if total == 0 || req.line > total {
                return Err(EditError::LineOutOfRange { line: req.line, total });
            }
            let start: usize = if req.line == 0 {
                0
            } else {
                req.line - 1
            };
            let e0: usize = match req.end_line {
                Some(e) => e,
                None => req.line,
            };
            let e1: usize = if e0 == 0 {
                0
            } else {
                e0 - 1
            };
            let clamped: usize = if e1 < total - 1 {
                e1
            } else {
                total - 1
            };
            let end: usize = if clamped > start {
                clamped
            } else {
                start
            };
            let mut out: Vec<String> = Vec::new();
            push_range(&mut out, lines, 0, start);
            push_range(&mut out, lines, end + 1, total);
            proof {
                assert(line_views(out@) =~= line_views(lines@).take(start as int) + line_views(
                    lines@,
                ).skip(end as int + 1));
            }
            Ok(out)
        },
        EditOp::Replace => {
            let c = match &req.content {
                Some(c) => c,
                None => {
                    return Err(EditError::MissingContent(EditOp::Replace));
                },
            };
            if total == 0 || req.line > total {
                return Err(EditError::LineOutOfRange { line: req.line, total });
            }
            let pos: usize = if req.line == 0 {
                0
            } else {
                req.line - 1
            };
            let e0: usize = match req.end_line {
                Some(e) => e,
                None => req.line,
            };
            let e1: usize = if e0 == 0 {
                0
            } else {
                e0 - 1
            };
            let clamped: usize = if e1 < total - 1 {
                e1
            } else {
                total - 1
            };
            let end: usize = if clamped > pos {
                clamped
            } else {
                pos
            };
            let mut out: Vec<String> = Vec::new();
            push_range(&mut out, lines, 0, pos);
            out.push(c.clone());
            push_range(&mut out, lines, end + 1, total);
            proof {
                assert(line_views(out@) =~= line_views(lines@).take(pos as int) + seq![c@]
                    + line_views(lines@).skip(end as int + 1));
            }
            Ok(out)
        },
    }
}

/// The operation's name as it appears in reports.
pub open spec fn spec_op_name(op: EditOp) -> Seq<char> {
    match op {
        EditOp::Insert => "insert"@,
        EditOp::Delete => "delete"@,
        EditOp::Replace => "replace"@,
    }
}

/// The operation's name as it appears in reports.
pub fn op_name(op: EditOp) -> (r: &'static str)
    ensures
        r@ == spec_op_name(op),
{
    match op {
        EditOp::Insert => "insert",
        EditOp::Delete => "delete",
        EditOp::Replace => "replace",
    }
}

/// The report text for each rejection.
pub open spec fn spec_edit_error_message(e: EditError) -> Seq<char> {
    match e {
        EditError::MissingPath => "Missing 'path' parameter"@,
        EditError::MissingOperation => "Missing 'operation' parameter"@,
        EditError::MissingLine => "Missing 'line' parameter"@,
        EditError::UnknownOperation(op) => "Unknown operation: "@ + op@
            + ". Use 'insert', 'delete', or 'replace'"@,
        EditError::MissingContent(op) => "Missing 'content' for "@ + spec_op_name(op),
        EditError::LineOutOfRange { line, total } => "Line "@ + spec_decimal(line as int)
            + " out of range (file has "@ + spec_decimal(total as int) + " lines)"@,
    }
}

/// Renders a rejection as its report text.
pub fn edit_error_message(e: &EditError) -> (m: String)
    ensures
        m@ == spec_edit_error_message(*e),
{
    match e {
        EditError::MissingPath => "Missing 'path' parameter".to_owned(),
        EditError::MissingOperation => "Missing 'operation' parameter".to_owned(),
        EditError::MissingLine => "Missing 'line' parameter".to_owned(),
        EditError::UnknownOperation(op) => {
            let mut m = "Unknown operation: ".to_owned();
            m.append(op.as_str());
            m.append(". Use 'insert', 'delete', or 'replace'");
            m
        },
        EditError::MissingContent(op) => {
            let mut m = "Missing 'content' for ".to_owned();
            m.append(op_name(*op));
            m
        },
        EditError::LineOutOfRange { line, total } => {
            let mut m = "Line ".to_owned();
            let ln = decimal_string(*line as u64);
            m.append(ln.as_str());
            m.append(" out of range (file has ");
            let tn = decimal_string(*total as u64);
            m.append(tn.as_str());
            m.append(" lines)");
            m
        },
    }
}

/// How many lines the report counts as changed: one, or the span between
/// the request's own line numbers when an end line was given.
pub open spec fn spec_lines_changed(req: EditRequest) -> int {
    match req.op {
        EditOp::Insert => 1,
        _ => match req.end_line {
            None => 1,
            Some(e) => {
                let d = if e as int >= req.line as int {
                    e as int - req.line as int
                } else {
                    0
                };
                if d == usize::MAX as int {
                    d
                } else {
                    d + 1
                }
            },
        },
    }
}

/// The report text for a completed edit.
pub open spec fn spec_success_message(req: EditRequest) -> Seq<char> {
    spec_op_name(req.op) + " operation completed. "@ + spec_decimal(spec_lines_changed(req))
        + " lines changed in "@ + req.path@
}

/// The successful outcome reported for a completed edit.
pub fn edit_success_result(req: &EditRequest) -> (r: ToolResult)
    ensures
        r.success,
        r.error is None,
        r.output@ == spec_success_message(*req),
{
    let mut m = op_name(req.op).to_owned();
    m.append(" operation completed. ");
    let lc: u64 = match req.op {
        EditOp::Insert => 1,
        _ => match req.end_line {
            None => 1,
            Some(e) => {
                let d: usize = if e >= req.line {
                    e - req.line
                } else {
                    0
                };
                if d == usize::MAX {
                    d as u64
                } else {
                    (d + 1) as u64
                }
            },
        },
    };
    let n = decimal_string(lc);
    m.append(n.as_str());
    m.append(" lines changed in ");
    m.append(req.path.as_str());
    ToolResult::succeeded(m)
}

/// The failure reported when the security policy refuses the path.
pub fn path_denied_result(path: &str) -> (r: ToolResult)
    ensures
        spec_failed_with(r, "Path not allowed by security policy: "@ + path@),
{
    let mut m = "Path not allowed by security policy: ".to_owned();
    m.append(path);
    ToolResult::failed(m)
}

/// The failure reported when the target file does not exist.
pub fn file_not_found_result(path: &str) -> (r: ToolResult)
    ensures
        spec_failed_with(r, "File not found: "@ + path@),
{
    let mut m = "File not found: ".to_owned();
    m.append(path);
    ToolResult::failed(m)
}

/// Turns the raw extracted arguments into a validated request, reporting the
/// first missing or unknown piece: path, then operation, then line, and an
/// operation outside insert/delete/replace. Line numbers below zero or above
/// the platform's range are pinned past end-of-file.
pub fn build_edit_request(
    path: Option<String>,
    operation: Option<String>,
    line: Option<i64>,
    content: Option<String>,
    end_line: Option<i64>,
) -> (r: Result<EditRequest, EditError>)
    ensures
        ({
            match path {
                None => r == Err::<EditRequest, EditError>(EditError::MissingPath),
                Some(p) => match operation {
                    None => r == Err::<EditRequest, EditError>(EditError::MissingOperation),
                    Some(op) => match line {
                        None => r == Err::<EditRequest, EditError>(EditError::MissingLine),
                        Some(l) => {
                            let req_op = if op@ == "insert"@ {
                                Some(EditOp::Insert)
                            } else if op@ == "delete"@ {
                                Some(EditOp::Delete)
                            } else if op@ == "replace"@ {
                                Some(EditOp::Replace)
                            } else {
                                None
                            };
                            match req_op {
                                None => r == Err::<EditRequest, EditError>(
                                    EditError::UnknownOperation(op),
                                ),
                                Some(o) => r == Ok::<EditRequest, EditError>(
                                    EditRequest {
                                        path: p,
                                        op: o,
                                        line: spec_line_index(l as int) as usize,
                                        content: content,
                                        end_line: match end_line {
                                            None => None,
                                            Some(e) => Some(spec_line_index(e as int) as usize),
                                        },
                                    },
                                ),
                            }
                        },
                    },
                },
            }
        }),
{
    let p = match path {
        Some(p) => p,
        None => {
            return Err(EditError::MissingPath);
        },
    };
    let op_s = match operation {
        Some(o) => o,
        None => {
            return Err(EditError::MissingOperation);
        },
    };
    let l = match line {
        Some(l) => l,
        None => {
            return Err(EditError::MissingLine);
        },
    };
    let op = if op_s == "insert".to_owned() {
        EditOp::Insert
    } else if op_s == "delete".to_owned() {
        EditOp::Delete
    } else if op_s == "replace".to_owned() {
        EditOp::Replace
    } else {
        return Err(EditError::UnknownOperation(op_s));
    };
    let line_ix: usize = line_index(l);
    let end_ix: Option<usize> = match end_line {
        Some(e) => Some(line_index(e)),
        None => None,
    };
    Ok(EditRequest { path: p, op, line: line_ix, content, end_line: end_ix })
}

/// A model-supplied line number as a line index: negatives and values past
/// the platform's range land past any end-of-file.
pub open spec fn spec_line_index(l: int) -> int {
    if l < 0 {
        usize::MAX as int
    } else if l > usize::MAX as int {
        usize::MAX as int
    } else {
        l
    }
}

/// A model-supplied line number as a line index.
fn line_index(l: i64) -> (r: usize)
    ensures
        r as int == spec_line_index(l as int),
{
    if l < 0 {
        usize::MAX
    } else {
        let lu: u64 = l as u64;
        let m: u64 = usize::MAX as u64;
        if lu > m {
            usize::MAX
        } else {
            lu as usize
        }
    }
}

/// What screening the extracted edit arguments against the policy yields:
/// the first missing field's report, the unknown-operation report, the
/// policy's path denial, or exactly the validated request.
pub open spec fn spec_plan_outcome(
    policy: SecurityPolicy,
    path: Option<Seq<char>>,
    operation: Option<Seq<char>>,
    line: Option<i64>,
    content: Option<Seq<char>>,
    end_line: Option<i64>,
    r: Result<EditRequest, ToolResult>,
) -> bool {
    match path {
        None => r matches Err(t) && spec_failed_with(t, "Missing 'path' parameter"@),
        Some(p) => match operation {
            None => r matches Err(t) && spec_failed_with(t, "Missing 'operation' parameter"@),
            Some(op) => match line {
                None => r matches Err(t) && spec_failed_with(t, "Missing 'line' parameter"@),
                Some(l) => {
                    let req_op = if op == "insert"@ {
                        Some(EditOp::Insert)
                    } else if op == "delete"@ {
                        Some(EditOp::Delete)
                    } else if op == "replace"@ {
                        Some(EditOp::Replace)
                    } else {
                        None::<EditOp>
                    };
                    match req_op {
                        None => r matches Err(t) && spec_failed_with(
                            t,
                            "Unknown operation: "@ + op
                                + ". Use 'insert', 'delete', or 'replace'"@,
                        ),
                        Some(o) => if policy.spec_path_allowed(p) {
                            r matches Ok(req)
                                && req.path@ == p
                                && req.op == o
                                && req.line as int == spec_line_index(l as int)
                                && (match content {
                                    None => req.content is None,
                                    Some(cv) => req.content matches Some(c) && c@ == cv,
                                })
                                && (match end_line {
                                    None => req.end_line is None,
                                    Some(e) => req.end_line matches Some(ee) && ee as int
                                        == spec_line_index(e as int),
                                })
                        } else {
                            r matches Err(t) && spec_failed_with(
                                t,
                                "Path not allowed by security policy: "@ + p,
                            )
                        },
                    }
                },
            },
        },
    }
}

/// The line-oriented file editing capability, gated by the session's
/// security policy.
pub struct FileEditTool {
    security: Arc<SecurityPolicy>,
}

impl FileEditTool {
    /// The policy every edit is screened against.
    pub closed spec fn spec_policy(self) -> SecurityPolicy {
        *self.security
    }

    pub fn new(security: Arc<SecurityPolicy>) -> (t: FileEditTool)
        ensures
            t.spec_policy() == *security,
    {
        FileEditTool { security }
    }

    /// Everything about an edit that precedes file I/O: extracts the
    /// arguments from the model-supplied JSON, validates them, and screens
    /// the path against the security policy. The outcome is pinned over the
    /// named extraction results: each missing field yields its reported
    /// error before any mutation, an unknown operation its report, a denied
    /// path the policy's report, and well-formed arguments with an allowed
    /// path exactly the validated request.
    pub fn plan_edit(&self, args: &serde_json::Value) -> (r: Result<EditRequest, ToolResult>)
        ensures
            spec_plan_outcome(
                self.spec_policy(),
                json_str_field(*args, "path"@),
                json_str_field(*args, "operation"@),
                json_i64_field(*args, "line"@),
                json_str_field(*args, "content"@),
                json_i64_field(*args, "end_line"@),
                r,
            ),
            r matches Ok(req) ==> self.spec_policy().spec_path_allowed(req.path@),
    {
        let path = json_get_str(args, "path");
        let operation = json_get_str(args, "operation");
        let line = json_get_i64(args, "line");
        let content = json_get_str(args, "content");
        let end_line = json_get_i64(args, "end_line");
        match build_edit_request(path, operation, line, content, end_line) {
            Ok(req) => {
                if self.security.is_path_allowed(req.path.as_str()) {
                    Ok(req)
                } else {
                    Err(path_denied_result(req.path.as_str()))
                }
            },
            Err(e) => {
                let m = edit_error_message(&e);
                Err(ToolResult::failed(m))
            },
        }
    }

    /// The parameter schema as a JSON value: the parse of the pinned schema
    /// text.
    pub fn parameters_schema(&self) -> (r: serde_json::Value)
        ensures
            json_value_of(FILE_EDIT_SCHEMA@) matches Some(v) ==> r == v,
    {
        match json_from_text(FILE_EDIT_SCHEMA) {
            Some(v) => v,
            None => json_null(),
        }
    }
}

/// Applies a planned edit to the file's lines: the new lines to write plus
/// the success report, or the failure to report with the file untouched.
pub fn perform_edit(req: &EditRequest, lines: &Vec<String>) -> (r: Result<
    (Vec<String>, ToolResult),
    ToolResult,
>)
    ensures
        ({
            match spec_apply(*req, line_views(lines@)) {
                Ok(v) => r matches Ok(pair) && line_views(pair.0@) == v && pair.1.success
                    && pair.1.error is None && pair.1.output@ == spec_success_message(*req),
                Err(e) => r matches Err(t) && spec_failed_with(t, spec_edit_error_message(e)),
            }
        }),
{
    match apply_edit(req, lines) {
        Ok(out) => {
            let report = edit_success_result(req);
            Ok((out, report))
        },
        Err(e) => {
            let m = edit_error_message(&e);
            Err(ToolResult::failed(m))
        },
    }
}

pub const FILE_EDIT_SCHEMA: &'static str = "{\"type\":\"object\",\"properties\":{\"path\":{\"type\":\"string\",\"description\":\"Relative path to the file within the workspace\"},\"operation\":{\"type\":\"string\",\"enum\":[\"insert\",\"delete\",\"replace\"],\"description\":\"Operation to perform: insert (add lines), delete (remove lines), replace (substitute lines)\"},\"line\":{\"type\":\"integer\",\"description\":\"Line number to operate on (1-based). For insert: new line will be after this line. For delete: start line to delete. For replace: line to replace.\"},\"content\":{\"type\":\"string\",\"description\":\"Content to insert or replace (not needed for delete)\"},\"end_line\":{\"type\":\"integer\",\"description\":\"End line for delete/replace operations (optional, only needed for range operations)\"}},\"required\":[\"path\",\"operation\",\"line\"]}";

impl Tool for FileEditTool {
    open spec fn spec_name(&self) -> Seq<char> {
        "file_edit"@
    }

    open spec fn spec_description(&self) -> Seq<char> {
        "Edit a file: insert lines, delete lines, or replace content at specific line numbers"@
    }

    open spec fn spec_schema(&self) -> Seq<char> {
        FILE_EDIT_SCHEMA@
    }

    fn name(&self) -> (r: String) {
        "file_edit".to_owned()
    }

    fn description(&self) -> (r: String) {
        "Edit a file: insert lines, delete lines, or replace content at specific line numbers".to_owned()
    }

    fn parameters_schema_text(&self) -> (r: String) {
        FILE_EDIT_SCHEMA.to_owned()
    }
}

/// Replacing a single line is idempotent: applying the same single-line
/// replace to its own output changes nothing further.
pub proof fn lemma_replace_idempotent(req: EditRequest, lines: Seq<Seq<char>>)
    requires
        req.op == EditOp::Replace,
        req.end_line is None || req.end_line == Some(req.line),
        spec_apply(req, lines) is Ok,
    ensures
        spec_apply(req, spec_apply(req, lines)->Ok_0) == spec_apply(req, lines),
{
    let n = lines.len() as int;
    let c = req.content->0;
    let pos = sat_dec(req.line as int);
    let once = spec_apply(req, lines)->Ok_0;
    assert(once =~= lines.take(pos) + seq![c@] + lines.skip(pos + 1));
    assert(once.len() == n);
    let twice = spec_apply(req, once)->Ok_0;
    assert(once.take(pos) =~= lines.take(pos));
    assert(once.skip(pos + 1) =~= lines.skip(pos + 1));
    assert(twice =~= once);
}

/// Inserting a line and deleting that same line restores the file exactly.
/// The insert must land within the grown file's line numbers: inserting past
/// end-of-file appends, and a delete aimed at the original (larger) line
/// number would then be out of range.
pub proof fn lemma_insert_delete_round_trip(
    ins: EditRequest,
    del: EditRequest,
    lines: Seq<Seq<char>>,
)
    requires
        ins.op == EditOp::Insert,
        ins.content is Some,
        ins.line as int <= lines.len() + 1,
        del.op == EditOp::Delete,
        del.line == ins.line,
        del.end_line is None || del.end_line == Some(del.line),
    ensures
        spec_apply(ins, lines) is Ok,
        spec_apply(del, spec_apply(ins, lines)->Ok_0) == Ok::<Seq<Seq<char>>, EditError>(lines),
{
    let n = lines.len() as int;
    let c = ins.content->0;
    let pos = insert_pos(ins.line as int, n);
    let mid = spec_apply(ins, lines)->Ok_0;
    assert(mid =~= lines.take(pos) + seq![c@] + lines.skip(pos));
    assert(mid.len() == n + 1);
    assert(pos == sat_dec(del.line as int));
    let back = spec_apply(del, mid)->Ok_0;
    assert(back =~= mid.take(pos) + mid.skip(pos + 1));
    assert(back =~= lines);
}

} // verus!
