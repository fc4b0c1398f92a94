//! Assembly of the model-facing text: the memory-context preamble injected
//! before a turn, the tool table and per-tool schema instructions woven into
//! the system prompt, and the opening history of a session. Every builder's
//! output is pinned character for character.

use vstd::prelude::*;
use vstd::string::StringExecFns;
use crate::tool::ToolInfo;
use crate::turn::{hist_views, system_model, user_model, ChatMessage};

verus! {

/// One recalled memory entry.
pub struct MemoryEntry {
    pub key: String,
    pub content: String,
}

/// One bullet of the memory-context preamble.
pub open spec fn spec_entry_line(e: MemoryEntry) -> Seq<char> {
    "- "@ + e.key@ + ": "@ + e.content@ + "\n"@
}

/// The bullets for all recalled entries, in order.
pub open spec fn spec_entries_text(entries: Seq<MemoryEntry>) -> Seq<char>
    decreases entries.len(),
{
    if entries.len() == 0 {
        Seq::<char>::empty()
    } else {
        spec_entries_text(entries.drop_last()) + spec_entry_line(entries.last())
    }
}

/// The memory-context preamble: empty when nothing was recalled, else a
/// header, one bullet per entry, and a blank line.
pub open spec fn spec_context(entries: Seq<MemoryEntry>) -> Seq<char> {
    if entries.len() == 0 {
        Seq::<char>::empty()
    } else {
        "[Memory context]\n"@ + spec_entries_text(entries) + "\n"@
    }
}

/// Renders recalled memory entries as the context preamble.
pub fn build_context(entries: &Vec<MemoryEntry>) -> (s: String)
    ensures
        s@ == spec_context(entries@),
{
    if entries.len() == 0 {
        return String::new();
    }
    let mut s = "[Memory context]\n".to_owned();
    let n: usize = entries.len();
    let mut i: usize = 0;
    while i < n
        invariant
            n == entries@.len(),
            i <= n,
            s@ == "[Memory context]\n"@ + spec_entries_text(entries@.take(i as int)),
        decreases n - i,
    {
        s.append("- ");
        s.append(entries[i].key.as_str());
        s.append(": ");
        s.append(entries[i].content.as_str());
        s.append("\n");
        i = i + 1;
        proof {
            assert(entries@.take(i as int).drop_last() =~= entries@.take(i - 1));
            assert(entries@.take(i as int).last() == entries@[i - 1]);
        }
    }
    proof {
        assert(entries@.take(n as int) =~= entries@);
    }
    s.append("\n");
    s
}

/// The user text with the context preamble in front, or unchanged when the
/// preamble is empty.
pub fn enrich_with_context(context: &str, msg: &str) -> (s: String)
    ensures
        s@ == if context@.len() == 0 {
            msg@
        } else {
            context@ + msg@
        },
{
    if context.is_empty() {
        msg.to_owned()
    } else {
        let mut s = context.to_owned();
        s.append(msg);
        proof {
            assert(context@ + msg@ == s@);
        }
        s
    }
}

/// One registered tool as the system prompt lists it.
pub struct ToolDesc {
    pub name: String,
    pub description: String,
}

/// One line of the tool table.
pub open spec fn spec_desc_line(d: ToolDesc) -> Seq<char> {
    "- "@ + d.name@ + ": "@ + d.description@ + "\n"@
}

/// The tool table, in registry order.
pub open spec fn spec_descs_text(descs: Seq<ToolDesc>) -> Seq<char>
    decreases descs.len(),
{
    if descs.len() == 0 {
        Seq::<char>::empty()
    } else {
        spec_descs_text(descs.drop_last()) + spec_desc_line(descs.last())
    }
}

/// One tool's block of the structured invocation instructions.
pub open spec fn spec_info_block(i: ToolInfo) -> Seq<char> {
    "\n## "@ + i.name@ + "\n"@ + i.description@ + "\nParameters: "@ + i.parameters_schema@
        + "\n"@
}

/// The structured instruction blocks, in registry order.
pub open spec fn spec_infos_text(infos: Seq<ToolInfo>) -> Seq<char>
    decreases infos.len(),
{
    if infos.len() == 0 {
        Seq::<char>::empty()
    } else {
        spec_infos_text(infos.drop_last()) + spec_info_block(infos.last())
    }
}

/// Renders the structured tool-use instructions appended to the system
/// prompt: name, guidance and exact parameter schema for every tool.
pub fn build_tool_instructions(infos: &Vec<ToolInfo>) -> (s: String)
    ensures
        s@ == "\n# Tool schemas\n"@ + spec_infos_text(infos@),
{
    let mut s = "\n# Tool schemas\n".to_owned();
    let n: usize = infos.len();
    let mut i: usize = 0;
    while i < n
        invariant
            n == infos@.len(),
            i <= n,
            s@ == "\n# Tool schemas\n"@ + spec_infos_text(infos@.take(i as int)),
        decreases n - i,
    {
        s.append("\n## ");
        s.append(infos[i].name.as_str());
        s.append("\n");
        s.append(infos[i].description.as_str());
        s.append("\nParameters: ");
        s.append(infos[i].parameters_schema.as_str());
        s.append("\n");
        i = i + 1;
        proof {
            assert(infos@.take(i as int).drop_last() =~= infos@.take(i - 1));
            assert(infos@.take(i as int).last() == infos@[i - 1]);
        }
    }
    proof {
        assert(infos@.take(n as int) =~= infos@);
    }
    s
}

/// Renders the system prompt: identity, workspace, model, the tool table,
/// and the already-rendered structured instructions.
pub fn build_system_prompt(
    workspace_dir: &str,
    model: &str,
    descs: &Vec<ToolDesc>,
    instructions: &str,
) -> (s: String)
    ensures
        s@ == "You are ZeroClaw, an autonomous agent.\nWorkspace: "@ + workspace_dir@
            + "\nModel: "@ + model@ + "\nAvailable tools:\n"@ + spec_descs_text(descs@)
            + instructions@,
{
    let mut s = "You are ZeroClaw, an autonomous agent.\nWorkspace: ".to_owned();
    s.append(workspace_dir);
    s.append("\nModel: ");
    s.append(model);
    s.append("\nAvailable tools:\n");
    let ghost head = s@;
    let n: usize = descs.len();
    let mut i: usize = 0;
    while i < n
        invariant
            n == descs@.len(),
            i <= n,
            s@ == head + spec_descs_text(descs@.take(i as int)),
        decreases n - i,
    {
        s.append("- ");
        s.append(descs[i].name.as_str());
        s.append(": ");
        s.append(descs[i].description.as_str());
        s.append("\n");
        i = i + 1;
        proof {
            assert(descs@.take(i as int).drop_last() =~= descs@.take(i - 1));
            assert(descs@.take(i as int).last() == descs@[i - 1]);
        }
    }
    proof {
        assert(descs@.take(n as int) =~= descs@);
    }
    s.append(instructions);
    s
}

/// The history a single-message turn starts from: the system prompt, then
/// the (context-enriched) user message.
pub fn initial_history(system_prompt: &str, user_msg: &str) -> (h: Vec<ChatMessage>)
    ensures
        hist_views(h@) == seq![system_model(system_prompt@), user_model(user_msg@)],
{
    let mut h: Vec<ChatMessage> = Vec::new();
    h.push(ChatMessage::system(system_prompt));
    h.push(ChatMessage::user(user_msg));
    proof {
        assert(hist_views(h@) =~= seq![system_model(system_prompt@), user_model(user_msg@)]);
    }
    h
}

} // verus!
