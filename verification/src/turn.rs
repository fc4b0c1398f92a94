//! The agent turn loop as a state machine. One turn alternates provider
//! round-trips with tool dispatch: a plain-text response ends the turn with
//! that text appended as the assistant's message; a response carrying tool
//! calls asks the embedding to run them and append exactly one tool-result
//! message per call, in the order the calls were emitted, before the next
//! round-trip; an iteration cap ends a runaway turn. The caller-owned
//! history is only ever appended to.

use vstd::prelude::*;
use vstd::string::StringExecFns;
use crate::text::char_seq_eq;
use crate::text::chars_of;
use crate::tool::{spec_failed_with, ToolCall, ToolResult};

verus! {

/// Who a chat message speaks for.
#[derive(Debug, Copy, Clone, PartialEq, Eq, Structural)]
pub enum ChatRole {
    System,
    User,
    Assistant,
    Tool,
}

/// One message of the conversation history. Tool-result messages carry the
/// id of the call they answer.
#[derive(Debug, Clone)]
pub struct ChatMessage {
    pub role: ChatRole,
    pub content: String,
    pub tool_call_id: Option<String>,
}

/// The mathematical content of a chat message.
pub struct ChatMessageModel {
    pub role: ChatRole,
    pub content: Seq<char>,
    pub tool_call_id: Option<Seq<char>>,
}

impl View for ChatMessage {
    type V = ChatMessageModel;

    open spec fn view(&self) -> ChatMessageModel {
        ChatMessageModel {
            role: self.role,
            content: self.content@,
            tool_call_id: match self.tool_call_id {
                Some(id) => Some(id@),
                None => None,
            },
        }
    }
}

/// The models of a history, in order.
pub open spec fn hist_views(h: Seq<ChatMessage>) -> Seq<ChatMessageModel> {
    Seq::new(h.len(), |i: int| h[i]@)
}

pub open spec fn system_model(content: Seq<char>) -> ChatMessageModel {
    ChatMessageModel { role: ChatRole::System, content, tool_call_id: None }
}

pub open spec fn user_model(content: Seq<char>) -> ChatMessageModel {
    ChatMessageModel { role: ChatRole::User, content, tool_call_id: None }
}

pub open spec fn assistant_model(content: Seq<char>) -> ChatMessageModel {
    ChatMessageModel { role: ChatRole::Assistant, content, tool_call_id: None }
}

pub open spec fn tool_model(call_id: Seq<char>, content: Seq<char>) -> ChatMessageModel {
    ChatMessageModel { role: ChatRole::Tool, content, tool_call_id: Some(call_id) }
}

impl ChatMessage {
    pub fn system(content: &str) -> (m: ChatMessage)
        ensures
            m@ == system_model(content@),
    {
        ChatMessage { role: ChatRole::System, content: content.to_owned(), tool_call_id: None }
    }

    pub fn user(content: &str) -> (m: ChatMessage)
        ensures
            m@ == user_model(content@),
    {
        ChatMessage { role: ChatRole::User, content: content.to_owned(), tool_call_id: None }
    }

    pub fn assistant(content: &str) -> (m: ChatMessage)
        ensures
            m@ == assistant_model(content@),
    {
        ChatMessage { role: ChatRole::Assistant, content: content.to_owned(), tool_call_id: None }
    }
}

/// What dispatch reports of a tool outcome: the output on success, else the
/// explanatory error.
pub open spec fn spec_result_content(r: ToolResult) -> Seq<char> {
    if r.success {
        r.output@
    } else {
        match r.error {
            Some(m) => m@,
            None => Seq::<char>::empty(),
        }
    }
}

/// The tool-result message answering the call with the given id.
pub fn tool_result_message(call_id: &str, result: &ToolResult) -> (m: ChatMessage)
    ensures
        m@ == tool_model(call_id@, spec_result_content(*result)),
{
    let content: String = if result.success {
        result.output.clone()
    } else {
        match &result.error {
            Some(m) => m.clone(),
            None => String::new(),
        }
    };
    ChatMessage { role: ChatRole::Tool, content, tool_call_id: Some(call_id.to_owned()) }
}

/// Appends the tool-result message for one call to the history.
pub fn append_tool_result(history: &mut Vec<ChatMessage>, call_id: &str, result: &ToolResult)
    ensures
        hist_views(final(history)@) == hist_views(old(history)@).push(
            tool_model(call_id@, spec_result_content(*result)),
        ),
{
    let m = tool_result_message(call_id, result);
    history.push(m);
    proof {
        assert(hist_views(history@) =~= hist_views(old(history)@).push(
            tool_model(call_id@, spec_result_content(*result)),
        ));
    }
}

/// The tool-result models for a run of calls, in dispatch order.
pub open spec fn results_models(calls: Seq<ToolCall>, results: Seq<ToolResult>) -> Seq<
    ChatMessageModel,
> {
    Seq::new(calls.len(), |j: int| tool_model(calls[j].id@, spec_result_content(results[j])))
}

/// Appends exactly one tool-result message per call, correlated by call id
/// and in the order the calls were emitted, whatever order they completed
/// in.
pub fn append_tool_results(
    history: &mut Vec<ChatMessage>,
    calls: &Vec<ToolCall>,
    results: &Vec<ToolResult>,
)
    requires
        calls@.len() == results@.len(),
    ensures
        hist_views(final(history)@) == hist_views(old(history)@) + results_models(
            calls@,
            results@,
        ),
{
    let n: usize = calls.len();
    let mut j: usize = 0;
    while j < n
        invariant
            n == calls@.len(),
            calls@.len() == results@.len(),
            j <= n,
            hist_views(history@) == hist_views(old(history)@) + results_models(
                calls@,
                results@,
            ).take(j as int),
        decreases n - j,
    {
        append_tool_result(history, calls[j].id.as_str(), &results[j]);
        j = j + 1;
        proof {
            assert(hist_views(history@) =~= hist_views(old(history)@) + results_models(
                calls@,
                results@,
            ).take(j as int));
        }
    }
    proof {
        assert(results_models(calls@, results@).take(n as int) =~= results_models(
            calls@,
            results@,
        ));
    }
}

/// The failure reported for a call whose tool name is not registered.
pub fn unknown_tool_result(name: &str) -> (r: ToolResult)
    ensures
        spec_failed_with(r, "Unknown tool: "@ + name@),
{
    let mut m = "Unknown tool: ".to_owned();
    m.append(name);
    ToolResult::failed(m)
}

/// Resolves a tool name to the first registry slot holding it.
pub fn find_tool(names: &Vec<String>, name: &str) -> (r: Option<usize>)
    ensures
        match r {
            Some(i) => 0 <= i < names@.len() && names@[i as int]@ == name@ && forall|j: int|
                0 <= j < i ==> #[trigger] names@[j]@ != name@,
            None => forall|j: int| 0 <= j < names@.len() ==> #[trigger] names@[j]@ != name@,
        },
{
    let target = chars_of(name);
    let mut i: usize = 0;
    while i < names.len()
        invariant
            target@ == name@,
            i <= names@.len(),
            forall|j: int| 0 <= j < i ==> #[trigger] names@[j]@ != name@,
        decreases names@.len() - i,
    {
        let entry = chars_of(names[i].as_str());
        if char_seq_eq(&entry, &target) {
            return Some(i);
        }
        i = i + 1;
    }
    None
}

/// How the turn answers one provider response.
pub enum TurnStep {
    /// The turn ended: the text is the assistant's final answer.
    Done(String),
    /// The embedding must run these calls and append one result per call.
    RunTools(Vec<ToolCall>),
    /// The iteration cap was reached: the turn ends with a partial result.
    Capped,
}

/// One more round-trip, stopping short of overflowing the counter.
pub open spec fn spec_bump(i: u64) -> u64 {
    if i < u64::MAX {
        (i + 1) as u64
    } else {
        i
    }
}

/// The turn's progress: how many provider responses it has consumed, its
/// round-trip cap, and whether it has ended.
pub struct AgentTurn {
    pub iterations: u64,
    pub max_iterations: u64,
    pub finished: bool,
}

/// What one provider response does to the turn: the successor state, the
/// history to which the turn appends, and the step the embedding must take.
pub open spec fn spec_step(
    t: AgentTurn,
    h: Seq<ChatMessageModel>,
    response: ProviderResponse,
) -> (AgentTurn, Seq<ChatMessageModel>, TurnStep) {
    match response {
        ProviderResponse::Text(text) => (
            AgentTurn { iterations: spec_bump(t.iterations), finished: true, ..t },
            h.push(assistant_model(text@)),
            TurnStep::Done(text),
        ),
        ProviderResponse::ToolCalls(calls) => {
            if spec_bump(t.iterations) >= t.max_iterations {
                (
                    AgentTurn { iterations: spec_bump(t.iterations), finished: true, ..t },
                    h,
                    TurnStep::Capped,
                )
            } else {
                (
                    AgentTurn { iterations: spec_bump(t.iterations), finished: false, ..t },
                    h,
                    TurnStep::RunTools(calls),
                )
            }
        },
    }
}

/// One provider response: either the final plain text, or tool invocations
/// to dispatch.
pub enum ProviderResponse {
    Text(String),
    ToolCalls(Vec<ToolCall>),
}

impl AgentTurn {
    /// A fresh turn allowed the given number of provider round-trips.
    pub fn begin(max_iterations: u64) -> (t: AgentTurn)
        ensures
            t.iterations == 0,
            t.max_iterations == max_iterations,
            !t.finished,
    {
        AgentTurn { iterations: 0, max_iterations, finished: false }
    }

    /// Consumes one provider response: appends the assistant's text and ends
    /// on plain text, hands the calls back for dispatch on a tool-call
    /// response, or ends capped once the round-trip cap is reached. The
    /// history is only appended to.
    pub fn on_provider_response(
        &mut self,
        history: &mut Vec<ChatMessage>,
        response: ProviderResponse,
    ) -> (step: TurnStep)
        requires
            !old(self).finished,
        ensures
            ({
                let outcome = spec_step(*old(self), hist_views(old(history)@), response);
                &&& *final(self) == outcome.0
                &&& hist_views(final(history)@) == outcome.1
                &&& step == outcome.2
            }),
    {
        if self.iterations < u64::MAX {
            self.iterations = self.iterations + 1;
        }
        match response {
            ProviderResponse::Text(text) => {
                self.finished = true;
                let m = ChatMessage {
                    role: ChatRole::Assistant,
                    content: text.clone(),
                    tool_call_id: None,
                };
                history.push(m);
                proof {
                    assert(hist_views(history@) =~= hist_views(old(history)@).push(
                        assistant_model(text@),
                    ));
                }
                TurnStep::Done(text)
            },
            ProviderResponse::ToolCalls(calls) => {
                if self.iterations >= self.max_iterations {
                    self.finished = true;
                    TurnStep::Capped
                } else {
                    TurnStep::RunTools(calls)
                }
            },
        }
    }
}

/// A plain-text response ends the turn at once, with that text as the
/// result and as the one message appended: a provider that answers in plain
/// text completes the turn after exactly one round-trip.
pub proof fn lemma_text_response_ends_turn(
    t: AgentTurn,
    h: Seq<ChatMessageModel>,
    text: String,
)
    requires
        !t.finished,
    ensures
        ({
            let outcome = spec_step(t, h, ProviderResponse::Text(text));
            &&& outcome.2 == TurnStep::Done(text)
            &&& outcome.1 == h.push(assistant_model(text@))
            &&& outcome.0.finished
        }),
{
}

/// One tool call answered successfully, then a plain-text response: the
/// history ends as exactly system prompt, user message, the tool's result,
/// and the assistant's text, in that order.
pub proof fn lemma_single_tool_call_history(
    sys: Seq<char>,
    usr: Seq<char>,
    calls: Vec<ToolCall>,
    result: ToolResult,
    text: String,
)
    requires
        calls@.len() == 1,
        result.success,
    ensures
        ({
            let t0 = AgentTurn { iterations: 0, max_iterations: 3, finished: false };
            let h0 = seq![system_model(sys), user_model(usr)];
            let step1 = spec_step(t0, h0, ProviderResponse::ToolCalls(calls));
            let h1 = step1.1 + results_models(calls@, seq![result]);
            let step2 = spec_step(step1.0, h1, ProviderResponse::Text(text));
            &&& step1.2 == TurnStep::RunTools(calls)
            &&& !step1.0.finished
            &&& step2.2 == TurnStep::Done(text)
            &&& step2.1 =~= seq![
                system_model(sys),
                user_model(usr),
                tool_model(calls@[0].id@, result.output@),
                assistant_model(text@),
            ]
        }),
{
    let t0 = AgentTurn { iterations: 0, max_iterations: 3, finished: false };
    let h0 = seq![system_model(sys), user_model(usr)];
    let step1 = spec_step(t0, h0, ProviderResponse::ToolCalls(calls));
    let h1 = step1.1 + results_models(calls@, seq![result]);
    assert(results_models(calls@, seq![result]) =~= seq![
        tool_model(calls@[0].id@, result.output@),
    ]);
    let step2 = spec_step(step1.0, h1, ProviderResponse::Text(text));
    assert(step2.1 =~= seq![
        system_model(sys),
        user_model(usr),
        tool_model(calls@[0].id@, result.output@),
        assistant_model(text@),
    ]);
}

/// A tool-call response below the cap never ends the turn and never touches
/// the history: even when a call names an unregistered tool, its failure is
/// reported as a tool result and the loop proceeds to the next round-trip.
pub proof fn lemma_tool_calls_continue_turn(
    t: AgentTurn,
    h: Seq<ChatMessageModel>,
    calls: Vec<ToolCall>,
)
    requires
        !t.finished,
        spec_bump(t.iterations) < t.max_iterations,
    ensures
        ({
            let outcome = spec_step(t, h, ProviderResponse::ToolCalls(calls));
            &&& outcome.2 == TurnStep::RunTools(calls)
            &&& !outcome.0.finished
            &&& outcome.1 == h
        }),
{
}

} // verus!
