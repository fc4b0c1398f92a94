//! Session configuration: the plain-value settings the runtime is built
//! from, their defaults, and the verified merge rules that fold an external
//! configuration source (a home-directory JSON file, or the embedding's own
//! simplified form) into a full configuration. Reading those sources is the
//! embedding's job; everything decided about their content is here.

use vstd::prelude::*;
use vstd::string::StringExecFns;
use crate::security::{AutonomyLevel, SecurityPolicy};
use crate::text::{clone_string_vec, string_views};

verus! {

/// The autonomy section: trust tier, confinement, risk handling and quotas.
pub struct AutonomyConfig {
    pub level: AutonomyLevel,
    pub workspace_only: bool,
    pub require_approval_for_medium_risk: bool,
    pub block_high_risk_commands: bool,
    pub allowed_commands: Vec<String>,
    pub forbidden_paths: Vec<String>,
    pub max_actions_per_hour: u32,
    pub max_cost_per_day_cents: u32,
}

/// Chat-channel credentials for the optional messaging integration.
pub struct TelegramConfig {
    pub bot_token: String,
    pub allowed_users: Vec<String>,
}

/// The configured chat channels.
pub struct ChannelsConfig {
    pub telegram: Option<TelegramConfig>,
}

/// Where the HTTP gateway listens.
pub struct GatewayConfig {
    pub port: u16,
    pub host: String,
}

/// Memory backend selection and the auto-save flag.
pub struct MemoryConfig {
    pub backend: String,
    pub auto_save: bool,
}

/// The session's full configuration.
pub struct Config {
    pub api_key: Option<String>,
    pub default_provider: Option<String>,
    pub default_model: Option<String>,
    pub workspace_dir: String,
    pub memory: MemoryConfig,
    pub autonomy: AutonomyConfig,
    pub channels: ChannelsConfig,
    pub gateway: GatewayConfig,
    pub browser_enabled: bool,
    pub composio_enabled: bool,
}

impl Default for Config {
    /// The session defaults: Supervised autonomy confined to the workspace,
    /// approval for medium risk, high risk blocked, modest quotas, gateway
    /// on localhost port 3000, no optional tools.
    fn default() -> (c: Config)
        ensures
            c.api_key is None,
            c.default_provider is None,
            c.default_model is None,
            c.workspace_dir@ == Seq::<char>::empty(),
            c.memory.backend@ == "sqlite"@,
            !c.memory.auto_save,
            c.autonomy.level == AutonomyLevel::Supervised,
            c.autonomy.workspace_only,
            c.autonomy.require_approval_for_medium_risk,
            c.autonomy.block_high_risk_commands,
            c.autonomy.allowed_commands@.len() == 0,
            c.autonomy.forbidden_paths@.len() == 0,
            c.autonomy.max_actions_per_hour == 60,
            c.autonomy.max_cost_per_day_cents == 1000,
            c.channels.telegram is None,
            c.gateway.port == 3000,
            c.gateway.host@ == "127.0.0.1"@,
            !c.browser_enabled,
            !c.composio_enabled,
    {
        Config {
            api_key: None,
            default_provider: None,
            default_model: None,
            workspace_dir: String::new(),
            memory: MemoryConfig { backend: "sqlite".to_owned(), auto_save: false },
            autonomy: AutonomyConfig {
                level: AutonomyLevel::Supervised,
                workspace_only: true,
                require_approval_for_medium_risk: true,
                block_high_risk_commands: true,
                allowed_commands: Vec::new(),
                forbidden_paths: Vec::new(),
                max_actions_per_hour: 60,
                max_cost_per_day_cents: 1000,
            },
            channels: ChannelsConfig { telegram: None },
            gateway: GatewayConfig { port: 3000, host: "127.0.0.1".to_owned() },
            browser_enabled: false,
            composio_enabled: false,
        }
    }
}

/// The autonomy tier named by a configuration code: 0 read-only, 1
/// supervised, 2 full, anything else supervised.
pub open spec fn spec_autonomy_level_from_code(code: int) -> AutonomyLevel {
    if code == 0 {
        AutonomyLevel::ReadOnly
    } else if code == 2 {
        AutonomyLevel::Full
    } else {
        AutonomyLevel::Supervised
    }
}

/// The autonomy tier named by a configuration code.
pub fn autonomy_level_from_code(code: i64) -> (r: AutonomyLevel)
    ensures
        r == spec_autonomy_level_from_code(code as int),
{
    if code == 0 {
        AutonomyLevel::ReadOnly
    } else if code == 2 {
        AutonomyLevel::Full
    } else {
        AutonomyLevel::Supervised
    }
}

/// The autonomy section of the home-directory configuration file.
pub struct CclawAutonomyData {
    pub level: u8,
    pub workspace_only: bool,
    pub max_actions_per_hour: u32,
    pub max_cost_per_day_cents: u32,
}

/// The gateway section of the home-directory configuration file.
pub struct CclawGatewayData {
    pub port: u16,
    pub host: String,
}

/// What the home-directory configuration file may carry, as plain values.
pub struct CclawData {
    pub api_key: Option<String>,
    pub default_provider: Option<String>,
    pub default_model: Option<String>,
    pub memory_backend: Option<String>,
    pub autonomy: Option<CclawAutonomyData>,
    pub telegram: Option<TelegramConfig>,
    pub gateway: Option<CclawGatewayData>,
}

/// Folds the home-directory configuration into `base`. The provider fields
/// are taken as given (absent means absent); autonomy quotas override only
/// when positive; the workspace moves under the file's own directory in
/// `home`.
pub fn apply_cclaw_config(base: Config, data: CclawData, home: &str) -> (c: Config)
    ensures
        c.api_key == data.api_key,
        c.default_provider == data.default_provider,
        c.default_model == data.default_model,
        c.memory.backend == match data.memory_backend {
            Some(b) => b,
            None => base.memory.backend,
        },
        c.memory.auto_save == base.memory.auto_save,
        ({
            match data.autonomy {
                None => c.autonomy == base.autonomy,
                Some(a) => {
                    &&& c.autonomy.level == spec_autonomy_level_from_code(a.level as int)
                    &&& c.autonomy.workspace_only == a.workspace_only
                    &&& c.autonomy.max_actions_per_hour == if a.max_actions_per_hour > 0 {
                        a.max_actions_per_hour
                    } else {
                        base.autonomy.max_actions_per_hour
                    }
                    &&& c.autonomy.max_cost_per_day_cents == if a.max_cost_per_day_cents > 0 {
                        a.max_cost_per_day_cents
                    } else {
                        base.autonomy.max_cost_per_day_cents
                    }
                    &&& c.autonomy.require_approval_for_medium_risk
                        == base.autonomy.require_approval_for_medium_risk
                    &&& c.autonomy.block_high_risk_commands
                        == base.autonomy.block_high_risk_commands
                    &&& c.autonomy.allowed_commands == base.autonomy.allowed_commands
                    &&& c.autonomy.forbidden_paths == base.autonomy.forbidden_paths
                },
            }
        }),
        c.channels.telegram == match data.telegram {
            Some(t) => Some(t),
            None => base.channels.telegram,
        },
        ({
            match data.gateway {
                Some(g) => c.gateway.port == g.port && c.gateway.host == g.host,
                None => c.gateway == base.gateway,
            }
        }),
        c.workspace_dir@ == home@ + "/.cclaw"@,
        c.browser_enabled == base.browser_enabled,
        c.composio_enabled == base.composio_enabled,
{
    let mut c = base;
    c.api_key = data.api_key;
    c.default_provider = data.default_provider;
    c.default_model = data.default_model;
    match data.memory_backend {
        Some(b) => {
            c.memory.backend = b;
        },
        None => {},
    }
    match data.autonomy {
        Some(a) => {
            c.autonomy.level = autonomy_level_from_code(a.level as i64);
            c.autonomy.workspace_only = a.workspace_only;
            if a.max_actions_per_hour > 0 {
                c.autonomy.max_actions_per_hour = a.max_actions_per_hour;
            }
            if a.max_cost_per_day_cents > 0 {
                c.autonomy.max_cost_per_day_cents = a.max_cost_per_day_cents;
            }
        },
        None => {},
    }
    match data.telegram {
        Some(t) => {
            c.channels.telegram = Some(t);
        },
        None => {},
    }
    match data.gateway {
        Some(g) => {
            c.gateway.port = g.port;
            c.gateway.host = g.host;
        },
        None => {},
    }
    let mut dir = home.to_owned();
    dir.append("/.cclaw");
    c.workspace_dir = dir;
    c
}

/// The simplified configuration the embedding may hand over instead of a
/// file, as plain values.
pub struct FfiConfigData {
    pub api_key: Option<String>,
    pub default_provider: Option<String>,
    pub default_model: Option<String>,
    pub workspace_dir: Option<String>,
    pub memory_backend: Option<String>,
    pub autonomy_level: Option<i64>,
    pub browser_enabled: Option<bool>,
    pub composio_enabled: Option<bool>,
}

impl FfiConfigData {
    /// Expands the simplified form over the session defaults: every present
    /// field overrides, every absent one keeps its default.
    pub fn to_config(self) -> (c: Config)
        ensures
            c.api_key == if self.api_key is Some {
                self.api_key
            } else {
                None::<String>
            },
            c.default_provider == self.default_provider,
            c.default_model == self.default_model,
            c.workspace_dir@ == match self.workspace_dir {
                Some(w) => w@,
                None => Seq::<char>::empty(),
            },
            c.memory.backend@ == match self.memory_backend {
                Some(b) => b@,
                None => "sqlite"@,
            },
            c.autonomy.level == match self.autonomy_level {
                Some(l) => spec_autonomy_level_from_code(l as int),
                None => AutonomyLevel::Supervised,
            },
            c.autonomy.workspace_only,
            c.autonomy.require_approval_for_medium_risk,
            c.autonomy.block_high_risk_commands,
            c.autonomy.allowed_commands@.len() == 0,
            c.autonomy.forbidden_paths@.len() == 0,
            c.autonomy.max_actions_per_hour == 60,
            c.autonomy.max_cost_per_day_cents == 1000,
            c.browser_enabled == match self.browser_enabled {
                Some(b) => b,
                None => false,
            },
            c.composio_enabled == match self.composio_enabled {
                Some(b) => b,
                None => false,
            },
    {
        let mut c = Config::default();
        match self.api_key {
            Some(k) => {
                c.api_key = Some(k);
            },
            None => {},
        }
        match self.default_provider {
            Some(p) => {
                c.default_provider = Some(p);
            },
            None => {},
        }
        match self.default_model {
            Some(m) => {
                c.default_model = Some(m);
            },
            None => {},
        }
        match self.workspace_dir {
            Some(w) => {
                c.workspace_dir = w;
            },
            None => {},
        }
        match self.memory_backend {
            Some(b) => {
                c.memory.backend = b;
            },
            None => {},
        }
        match self.autonomy_level {
            Some(l) => {
                c.autonomy.level = autonomy_level_from_code(l);
            },
            None => {},
        }
        match self.browser_enabled {
            Some(b) => {
                c.browser_enabled = b;
            },
            None => {},
        }
        match self.composio_enabled {
            Some(b) => {
                c.composio_enabled = b;
            },
            None => {},
        }
        c
    }
}

impl SecurityPolicy {
    /// The policy a session starts with: the autonomy section's flags,
    /// lists and quotas over the given workspace, with both rolling
    /// counters at zero.
    pub fn from_config(autonomy: &AutonomyConfig, workspace_dir: &str) -> (p: SecurityPolicy)
        ensures
            p.workspace_dir@ == workspace_dir@,
            p.autonomy_level == autonomy.level,
            p.workspace_only == autonomy.workspace_only,
            p.require_approval_for_medium_risk == autonomy.require_approval_for_medium_risk,
            p.block_high_risk_commands == autonomy.block_high_risk_commands,
            string_views(p.allowed_commands@) == string_views(autonomy.allowed_commands@),
            string_views(p.forbidden_paths@) == string_views(autonomy.forbidden_paths@),
            p.max_actions_per_hour == autonomy.max_actions_per_hour,
            p.max_cost_per_day_cents == autonomy.max_cost_per_day_cents,
            p.actions_this_hour == 0,
            p.hour_window_start == 0,
            p.cost_today_cents == 0,
            p.day_window_start == 0,
    {
        SecurityPolicy {
            workspace_dir: workspace_dir.to_owned(),
            autonomy_level: autonomy.level,
            workspace_only: autonomy.workspace_only,
            require_approval_for_medium_risk: autonomy.require_approval_for_medium_risk,
            block_high_risk_commands: autonomy.block_high_risk_commands,
            allowed_commands: clone_string_vec(&autonomy.allowed_commands),
            forbidden_paths: clone_string_vec(&autonomy.forbidden_paths),
            max_actions_per_hour: autonomy.max_actions_per_hour,
            max_cost_per_day_cents: autonomy.max_cost_per_day_cents,
            actions_this_hour: 0,
            hour_window_start: 0,
            cost_today_cents: 0,
            day_window_start: 0,
        }
    }
}

} // verus!
