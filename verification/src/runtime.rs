//! The agent runtime a session is built around: configuration folded into a
//! security policy and a tool registry, the table of tool guidance shown to
//! the model, and the small decisions of the interactive and daemon
//! embeddings (what a typed line means, where the daemon's configuration
//! comes from).

use vstd::prelude::*;
use vstd::string::StringExecFns;
use std::sync::Arc;
use crate::config::Config;
use crate::prompt::ToolDesc;
use crate::security::SecurityPolicy;
use crate::text::{spec_trim, string_views, trim_str};

verus! {

pub const SHELL_DESC: &'static str = "Execute terminal commands. Use when: running local checks, build/test commands, diagnostics. Don't use when: a safer dedicated tool exists, or command is destructive without approval.";

pub const FILE_READ_DESC: &'static str = "Read file contents. Use when: inspecting project files, configs, logs. Don't use when: a targeted search is enough.";

pub const FILE_WRITE_DESC: &'static str = "Write file contents. Use when: creating new files or completely replacing existing files. Don't use when: side effects are unclear or file ownership is uncertain.";

pub const FILE_EDIT_DESC: &'static str = "Edit existing files: insert lines, delete lines, or replace content at specific line numbers. Use when: modifying specific parts of a file without rewriting the entire file. Parameters: path, operation (insert/delete/replace), line (1-based), content, end_line (optional).";

pub const MEMORY_STORE_DESC: &'static str = "Save to memory. Use when: preserving durable preferences, decisions, key context. Don't use when: information is transient/noisy/sensitive without need.";

pub const MEMORY_RECALL_DESC: &'static str = "Search memory. Use when: retrieving prior decisions, user preferences, historical context. Don't use when: answer is already in current context.";

pub const MEMORY_FORGET_DESC: &'static str = "Delete a memory entry. Use when: memory is incorrect/stale or explicitly requested for removal. Don't use when: impact is uncertain.";

pub const SCREENSHOT_DESC: &'static str = "Capture a screenshot of the current screen. Returns file path and base64-encoded PNG. Use when: visual verification, UI inspection, debugging displays.";

pub const IMAGE_INFO_DESC: &'static str = "Read image file metadata (format, dimensions, size) and optionally base64-encode it. Use when: inspecting images, preparing visual data for analysis.";

pub const BROWSER_OPEN_DESC: &'static str = "Open approved HTTPS URLs in Brave Browser (allowlist-only, no scraping)";

pub const COMPOSIO_DESC: &'static str = "Execute actions on 1000+ apps via Composio (Gmail, Notion, GitHub, Slack, etc.). Use action='list' to discover, 'execute' to run, 'connect' to OAuth.";

/// The names the session's registry routes by, in registration order: the
/// nine standard tools, then the optional ones that configuration enabled.
pub open spec fn spec_registry_names(browser: bool, composio: bool) -> Seq<Seq<char>> {
    let base = seq![
        "shell"@,
        "file_read"@,
        "file_write"@,
        "file_edit"@,
        "memory_store"@,
        "memory_recall"@,
        "memory_forget"@,
        "screenshot"@,
        "image_info"@,
    ];
    let with_browser = if browser {
        base.push("browser_open"@)
    } else {
        base
    };
    if composio {
        with_browser.push("composio"@)
    } else {
        with_browser
    }
}

/// The tool table shown to the model: the registry's names in order, each
/// with its published guidance text.
pub fn default_tool_descriptions(browser: bool, composio: bool) -> (t: Vec<ToolDesc>)
    ensures
        string_views(Seq::new(t@.len(), |i: int| t@[i].name)) == spec_registry_names(
            browser,
            composio,
        ),
        t@.len() == spec_registry_names(browser, composio).len(),
        t@[0].description@ == SHELL_DESC@,
        t@[1].description@ == FILE_READ_DESC@,
        t@[2].description@ == FILE_WRITE_DESC@,
        t@[3].description@ == FILE_EDIT_DESC@,
        t@[4].description@ == MEMORY_STORE_DESC@,
        t@[5].description@ == MEMORY_RECALL_DESC@,
        t@[6].description@ == MEMORY_FORGET_DESC@,
        t@[7].description@ == SCREENSHOT_DESC@,
        t@[8].description@ == IMAGE_INFO_DESC@,
        browser ==> t@[9].description@ == BROWSER_OPEN_DESC@,
        composio ==> t@[t@.len() - 1].description@ == COMPOSIO_DESC@,
{
    let mut t: Vec<ToolDesc> = Vec::new();
    t.push(ToolDesc { name: "shell".to_owned(), description: SHELL_DESC.to_owned() });
    t.push(ToolDesc { name: "file_read".to_owned(), description: FILE_READ_DESC.to_owned() });
    t.push(ToolDesc { name: "file_write".to_owned(), description: FILE_WRITE_DESC.to_owned() });
    t.push(ToolDesc { name: "file_edit".to_owned(), description: FILE_EDIT_DESC.to_owned() });
    t.push(
        ToolDesc { name: "memory_store".to_owned(), description: MEMORY_STORE_DESC.to_owned() },
    );
    t.push(
        ToolDesc { name: "memory_recall".to_owned(), description: MEMORY_RECALL_DESC.to_owned() },
    );
    t.push(
        ToolDesc { name: "memory_forget".to_owned(), description: MEMORY_FORGET_DESC.to_owned() },
    );
    t.push(ToolDesc { name: "screenshot".to_owned(), description: SCREENSHOT_DESC.to_owned() });
    t.push(ToolDesc { name: "image_info".to_owned(), description: IMAGE_INFO_DESC.to_owned() });
    if browser {
        t.push(
            ToolDesc {
                name: "browser_open".to_owned(),
                description: BROWSER_OPEN_DESC.to_owned(),
            },
        );
    }
    if composio {
        t.push(ToolDesc { name: "composio".to_owned(), description: COMPOSIO_DESC.to_owned() });
    }
    proof {
        assert(string_views(Seq::new(t@.len(), |i: int| t@[i].name)) =~= spec_registry_names(
            browser,
            composio,
        ));
    }
    t
}

/// The registry's routing names, in registration order.
pub fn registry_names(browser: bool, composio: bool) -> (names: Vec<String>)
    ensures
        string_views(names@) == spec_registry_names(browser, composio),
{
    let mut names: Vec<String> = Vec::new();
    names.push("shell".to_owned());
    names.push("file_read".to_owned());
    names.push("file_write".to_owned());
    names.push("file_edit".to_owned());
    names.push("memory_store".to_owned());
    names.push("memory_recall".to_owned());
    names.push("memory_forget".to_owned());
    names.push("screenshot".to_owned());
    names.push("image_info".to_owned());
    if browser {
        names.push("browser_open".to_owned());
    }
    if composio {
        names.push("composio".to_owned());
    }
    proof {
        assert(string_views(names@) =~= spec_registry_names(browser, composio));
    }
    names
}

/// One session's runtime: its configuration, the security policy every tool
/// shares, and the registry's routing names.
pub struct AgentRuntime {
    pub config: Config,
    pub security: Arc<SecurityPolicy>,
    pub tool_names: Vec<String>,
}

impl AgentRuntime {
    /// Builds the session runtime: the configured autonomy section passes
    /// through unchanged, whatever the level — Supervised keeps its
    /// confinement, approval and blocking flags exactly as configured — and
    /// the security policy is derived from it over the configured workspace,
    /// with the standard tools plus the enabled optional ones registered.
    pub fn new(config: Config) -> (rt: AgentRuntime)
        ensures
            rt.config == config,
            (*rt.security).autonomy_level == config.autonomy.level,
            (*rt.security).workspace_only == config.autonomy.workspace_only,
            (*rt.security).require_approval_for_medium_risk
                == config.autonomy.require_approval_for_medium_risk,
            (*rt.security).block_high_risk_commands
                == config.autonomy.block_high_risk_commands,
            string_views((*rt.security).allowed_commands@) == string_views(
                config.autonomy.allowed_commands@,
            ),
            string_views((*rt.security).forbidden_paths@) == string_views(
                config.autonomy.forbidden_paths@,
            ),
            (*rt.security).max_actions_per_hour == config.autonomy.max_actions_per_hour,
            (*rt.security).max_cost_per_day_cents == config.autonomy.max_cost_per_day_cents,
            (*rt.security).workspace_dir@ == config.workspace_dir@,
            (*rt.security).actions_this_hour == 0,
            (*rt.security).hour_window_start == 0,
            (*rt.security).cost_today_cents == 0,
            (*rt.security).day_window_start == 0,
            string_views(rt.tool_names@) == spec_registry_names(
                config.browser_enabled,
                config.composio_enabled,
            ),
    {
        let security = Arc::new(
            SecurityPolicy::from_config(&config.autonomy, config.workspace_dir.as_str()),
        );
        let tool_names = registry_names(config.browser_enabled, config.composio_enabled);
        AgentRuntime { config, security, tool_names }
    }
}

/// What one typed line of the interactive session means.
pub enum ReplAction {
    /// End the session.
    Quit,
    /// Nothing to do: the line was blank.
    Skip,
    /// Send this (trimmed) message through the agent.
    Message(String),
}

/// Classifies one typed line: blank lines are skipped, `/quit` and `/exit`
/// end the session, anything else is the message to send, trimmed.
pub fn repl_action(line: &str) -> (r: ReplAction)
    ensures
        ({
            let t = spec_trim(line@);
            if t.len() == 0 {
                r == ReplAction::Skip
            } else if t == "/quit"@ || t == "/exit"@ {
                r == ReplAction::Quit
            } else {
                r matches ReplAction::Message(m) && m@ == t
            }
        }),
{
    let t = trim_str(line);
    if t.as_str().is_empty() {
        ReplAction::Skip
    } else if t == "/quit".to_owned() || t == "/exit".to_owned() {
        ReplAction::Quit
    } else {
        ReplAction::Message(t)
    }
}

/// Where the daemon's configuration comes from.
#[derive(Debug, Copy, Clone, PartialEq, Eq, Structural)]
pub enum DaemonConfigSource {
    /// Load the stored configuration (home-directory file or defaults).
    LoadDefault,
    /// Parse the configuration text that was handed over.
    ParseToml,
}

/// Decides the daemon's configuration source: an empty text or the literal
/// `@CCLAW` asks for the stored configuration, anything else is parsed.
pub fn daemon_config_source(toml_str: &str) -> (r: DaemonConfigSource)
    ensures
        r == if toml_str@.len() == 0 || toml_str@ == "@CCLAW"@ {
            DaemonConfigSource::LoadDefault
        } else {
            DaemonConfigSource::ParseToml
        },
{
    if toml_str.is_empty() || toml_str.to_owned() == "@CCLAW".to_owned() {
        DaemonConfigSource::LoadDefault
    } else {
        DaemonConfigSource::ParseToml
    }
}

} // verus!
