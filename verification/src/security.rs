//! Security policy engine: the sole authority deciding whether a proposed
//! filesystem path or command may proceed, and the keeper of the rolling
//! action/cost quotas.
//!
//! Path confinement works on the path text alone: with `workspace_only` set,
//! a path is allowed only when it is relative, never climbs above the
//! workspace root through `..` segments, and matches no forbidden pattern.
//! Command risk is a pure function of the command's first word against fixed
//! keyword tables; the authorization decision combines that risk with the
//! session's autonomy level and flags.

use vstd::prelude::*;
use crate::text::{
    chars_of, char_seq_eq, contains_chars, contains_seq, first_token, first_token_of, split_chars,
    split_on, views_of,
};

verus! {

/// Configured trust tier controlling unsupervised action, ordered from most
/// to least restrictive.
#[derive(Debug, Copy, Clone, PartialEq, Eq, Structural)]
pub enum AutonomyLevel {
    ReadOnly,
    Supervised,
    Full,
}

/// Classification of a command's potential for harm. Pure function of the
/// command text, never of session state.
#[derive(Debug, Copy, Clone, PartialEq, Eq, Structural)]
pub enum CommandRiskLevel {
    Low,
    Medium,
    High,
}

/// Outcome of authorizing a command under the current policy.
#[derive(Debug, Copy, Clone, PartialEq, Eq, Structural)]
pub enum Decision {
    Allow,
    RequireApproval,
    Deny,
}

/// Failure reported by the quota counters: the caller must deny the action
/// instead of performing it.
#[derive(Debug, Copy, Clone, PartialEq, Eq, Structural)]
pub enum PolicyError {
    QuotaExceeded,
}

pub const SECONDS_PER_HOUR: u64 = 3600;

pub const SECONDS_PER_DAY: u64 = 86400;

/// True when the path text names an absolute location.
pub open spec fn path_is_absolute(p: Seq<char>) -> bool {
    p.len() > 0 && p[0] == '/'
}

/// How one path segment moves the depth below the workspace root: `..` goes
/// up one level, `.` and an empty segment stay, anything else goes down.
pub open spec fn seg_delta(seg: Seq<char>) -> int {
    if seg.len() == 0 || seg == seq!['.'] {
        0
    } else if seg == seq!['.', '.'] {
        -1
    } else {
        1
    }
}

/// Depth reached after walking all segments, starting at the root.
pub open spec fn segs_depth(segs: Seq<Seq<char>>) -> int
    decreases segs.len(),
{
    if segs.len() == 0 {
        0
    } else {
        segs_depth(segs.drop_last()) + seg_delta(segs.last())
    }
}

/// True when some prefix of the segments walks above the root.
pub open spec fn segs_escape(segs: Seq<Seq<char>>) -> bool {
    exists|k: int| 0 <= k <= segs.len() && #[trigger] segs_depth(segs.take(k)) < 0
}

/// True when the relative path climbs above the workspace root.
pub open spec fn path_escapes(p: Seq<char>) -> bool {
    segs_escape(split_on(p, '/'))
}

/// Commands whose first word marks them destructive, irreversible or
/// privilege-affecting.
pub open spec fn high_risk_tokens() -> Seq<Seq<char>> {
    seq!["rm"@, "sudo"@, "dd"@, "mkfs"@, "shutdown"@, "reboot"@, "halt"@, "chown"@, "kill"@]
}

/// Commands whose first word marks them mutating but recoverable.
pub open spec fn medium_risk_tokens() -> Seq<Seq<char>> {
    seq!["mv"@, "cp"@, "mkdir"@, "touch"@, "chmod"@, "git"@, "curl"@, "wget"@]
}

/// Risk of a command: decided by its first whitespace-delimited word against
/// the two keyword tables, `Low` when it is in neither.
pub open spec fn spec_classify_command_risk(cmd: Seq<char>) -> CommandRiskLevel {
    if high_risk_tokens().contains(first_token(cmd)) {
        CommandRiskLevel::High
    } else if medium_risk_tokens().contains(first_token(cmd)) {
        CommandRiskLevel::Medium
    } else {
        CommandRiskLevel::Low
    }
}

/// The session's security policy: confinement flags, risk handling flags,
/// allow/forbid lists, and the rolling action and cost counters.
#[derive(Debug, Clone)]
pub struct SecurityPolicy {
    pub workspace_dir: String,
    pub autonomy_level: AutonomyLevel,
    pub workspace_only: bool,
    pub require_approval_for_medium_risk: bool,
    pub block_high_risk_commands: bool,
    pub allowed_commands: Vec<String>,
    pub forbidden_paths: Vec<String>,
    pub max_actions_per_hour: u32,
    pub max_cost_per_day_cents: u32,
    pub actions_this_hour: u32,
    pub hour_window_start: u64,
    pub cost_today_cents: u64,
    pub day_window_start: u64,
}

impl SecurityPolicy {
    /// True when some forbidden pattern occurs inside the path text.
    pub open spec fn matches_forbidden(self, p: Seq<char>) -> bool {
        exists|i: int|
            0 <= i < self.forbidden_paths@.len() && contains_seq(
                p,
                #[trigger] self.forbidden_paths@[i]@,
            )
    }

    /// What `is_path_allowed` decides: everything when `workspace_only` is
    /// off, else only relative, non-escaping, non-forbidden paths.
    pub open spec fn spec_path_allowed(self, p: Seq<char>) -> bool {
        !self.workspace_only || (!path_is_absolute(p) && !path_escapes(p)
            && !self.matches_forbidden(p))
    }

    /// True when the command's first word is in the session's allow-list.
    pub open spec fn spec_command_allowlisted(self, cmd: Seq<char>) -> bool {
        exists|i: int|
            0 <= i < self.allowed_commands@.len() && #[trigger] self.allowed_commands@[i]@
                == first_token(cmd)
    }

    /// What `authorize_command` decides. Full allows everything; ReadOnly
    /// allows only Low-risk commands; Supervised allows Low, asks approval
    /// for Medium (unless waived by flag or allow-list) and denies High when
    /// `block_high_risk_commands` is set, else asks approval for it.
    pub open spec fn spec_authorize_command(self, cmd: Seq<char>) -> Decision {
        let risk = spec_classify_command_risk(cmd);
        match self.autonomy_level {
            AutonomyLevel::Full => Decision::Allow,
            AutonomyLevel::ReadOnly => if risk == CommandRiskLevel::Low {
                Decision::Allow
            } else {
                Decision::Deny
            },
            AutonomyLevel::Supervised => match risk {
                CommandRiskLevel::Low => Decision::Allow,
                CommandRiskLevel::Medium => if self.spec_command_allowlisted(cmd) {
                    Decision::Allow
                } else if self.require_approval_for_medium_risk {
                    Decision::RequireApproval
                } else {
                    Decision::Allow
                },
                CommandRiskLevel::High => if self.block_high_risk_commands {
                    Decision::Deny
                } else {
                    Decision::RequireApproval
                },
            },
        }
    }

    /// The counters after rolling over any elapsed hour or day window at
    /// time `now` (seconds): an elapsed window restarts at `now` with a zero
    /// counter.
    pub open spec fn spec_rolled(self, now: u64) -> SecurityPolicy {
        SecurityPolicy {
            actions_this_hour: if now >= self.hour_window_start + SECONDS_PER_HOUR {
                0u32
            } else {
                self.actions_this_hour
            },
            hour_window_start: if now >= self.hour_window_start + SECONDS_PER_HOUR {
                now
            } else {
                self.hour_window_start
            },
            cost_today_cents: if now >= self.day_window_start + SECONDS_PER_DAY {
                0u64
            } else {
                self.cost_today_cents
            },
            day_window_start: if now >= self.day_window_start + SECONDS_PER_DAY {
                now
            } else {
                self.day_window_start
            },
            ..self
        }
    }

    /// True when recording one more action of the given cost would exceed
    /// either rolling quota.
    pub open spec fn spec_quota_would_exceed(self, cost_cents: u32) -> bool {
        self.actions_this_hour as int + 1 > self.max_actions_per_hour as int
            || self.cost_today_cents as int + cost_cents as int
            > self.max_cost_per_day_cents as int
    }

    /// Resolves whether the path may be touched at all under this policy.
    pub fn is_path_allowed(&self, path: &str) -> (r: bool)
        ensures
            r == self.spec_path_allowed(path@),
    {
        if !self.workspace_only {
            return true;
        }
        let chars = chars_of(path);
        if chars.len() > 0 && chars[0] == '/' {
            return false;
        }
        let segs = split_chars(&chars, '/');
        if segments_escape(&segs) {
            return false;
        }
        let mut i: usize = 0;
        while i < self.forbidden_paths.len()
            invariant
                chars@ == path@,
                self.workspace_only,
                !path_is_absolute(path@),
                !path_escapes(path@),
                i <= self.forbidden_paths@.len(),
                forall|j: int|
                    0 <= j < i ==> !contains_seq(path@, #[trigger] self.forbidden_paths@[j]@),
            decreases self.forbidden_paths@.len() - i,
        {
            let pat = chars_of(self.forbidden_paths[i].as_str());
            if contains_chars(&chars, &pat) {
                proof {
                    assert(contains_seq(path@, self.forbidden_paths@[i as int]@));
                }
                return false;
            }
            i = i + 1;
        }
        true
    }

    /// Classifies a command's potential for harm by its first word.
    pub fn classify_command_risk(command: &str) -> (r: CommandRiskLevel)
        ensures
            r == spec_classify_command_risk(command@),
    {
        let chars = chars_of(command);
        let token = first_token_of(&chars);
        let high = high_risk_table();
        if token_in_table(&token, &high) {
            return CommandRiskLevel::High;
        }
        let medium = medium_risk_table();
        if token_in_table(&token, &medium) {
            return CommandRiskLevel::Medium;
        }
        CommandRiskLevel::Low
    }

    /// Decides whether the command may run, needs approval, or is denied
    /// under the session's autonomy level and flags.
    pub fn authorize_command(&self, command: &str) -> (r: Decision)
        ensures
            r == self.spec_authorize_command(command@),
    {
        let risk = Self::classify_command_risk(command);
        match self.autonomy_level {
            AutonomyLevel::Full => Decision::Allow,
            AutonomyLevel::ReadOnly => {
                if risk == CommandRiskLevel::Low {
                    Decision::Allow
                } else {
                    Decision::Deny
                }
            },
            AutonomyLevel::Supervised => {
                match risk {
                    CommandRiskLevel::Low => Decision::Allow,
                    CommandRiskLevel::Medium => {
                        if self.command_allowlisted(command) {
                            Decision::Allow
                        } else if self.require_approval_for_medium_risk {
                            Decision::RequireApproval
                        } else {
                            Decision::Allow
                        }
                    },
                    CommandRiskLevel::High => {
                        if self.block_high_risk_commands {
                            Decision::Deny
                        } else {
                            Decision::RequireApproval
                        }
                    },
                }
            },
        }
    }

    /// True when the command's first word is in the session's allow-list.
    pub fn command_allowlisted(&self, command: &str) -> (r: bool)
        ensures
            r == self.spec_command_allowlisted(command@),
    {
        let chars = chars_of(command);
        let token = first_token_of(&chars);
        let mut i: usize = 0;
        while i < self.allowed_commands.len()
            invariant
                token@ == first_token(command@),
                i <= self.allowed_commands@.len(),
                forall|j: int|
                    0 <= j < i ==> #[trigger] self.allowed_commands@[j]@ != first_token(command@),
            decreases self.allowed_commands@.len() - i,
        {
            let entry = chars_of(self.allowed_commands[i].as_str());
            if char_seq_eq(&entry, &token) {
                return true;
            }
            i = i + 1;
        }
        false
    }

    /// Records one action of the given cost at time `now` (seconds),
    /// rolling elapsed quota windows first. Fails with `QuotaExceeded`, and
    /// leaves the rolled counters unincremented, when either quota would be
    /// exceeded.
    pub fn record_action(&mut self, now: u64, cost_cents: u32) -> (r: Result<(), PolicyError>)
        ensures
            ({
                let rolled = old(self).spec_rolled(now);
                if rolled.spec_quota_would_exceed(cost_cents) {
                    &&& r == Err::<(), PolicyError>(PolicyError::QuotaExceeded)
                    &&& *final(self) == rolled
                } else {
                    &&& r == Ok::<(), PolicyError>(())
                    &&& *final(self) == SecurityPolicy {
                        actions_this_hour: (rolled.actions_this_hour + 1) as u32,
                        cost_today_cents: (rolled.cost_today_cents + cost_cents) as u64,
                        ..rolled
                    }
                }
            }),
    {
        if now >= self.hour_window_start && now - self.hour_window_start >= SECONDS_PER_HOUR {
            self.actions_this_hour = 0;
            self.hour_window_start = now;
        }
        if now >= self.day_window_start && now - self.day_window_start >= SECONDS_PER_DAY {
            self.cost_today_cents = 0;
            self.day_window_start = now;
        }
        let cost: u64 = cost_cents as u64;
        let max_cost: u64 = self.max_cost_per_day_cents as u64;
        if self.actions_this_hour >= self.max_actions_per_hour || cost > max_cost
            || self.cost_today_cents > max_cost - cost {
            return Err(PolicyError::QuotaExceeded);
        }
        self.actions_this_hour = self.actions_this_hour + 1;
        self.cost_today_cents = self.cost_today_cents + cost;
        Ok(())
    }
}

/// The high-risk keyword table as character vectors.
fn high_risk_table() -> (t: Vec<Vec<char>>)
    ensures
        views_of(t@) == high_risk_tokens(),
{
    let mut t: Vec<Vec<char>> = Vec::new();
    t.push(chars_of("rm"));
    t.push(chars_of("sudo"));
    t.push(chars_of("dd"));
    t.push(chars_of("mkfs"));
    t.push(chars_of("shutdown"));
    t.push(chars_of("reboot"));
    t.push(chars_of("halt"));
    t.push(chars_of("chown"));
    t.push(chars_of("kill"));
    proof {
        assert(views_of(t@) =~= high_risk_tokens());
    }
    t
}

/// The medium-risk keyword table as character vectors.
fn medium_risk_table() -> (t: Vec<Vec<char>>)
    ensures
        views_of(t@) == medium_risk_tokens(),
{
    let mut t: Vec<Vec<char>> = Vec::new();
    t.push(chars_of("mv"));
    t.push(chars_of("cp"));
    t.push(chars_of("mkdir"));
    t.push(chars_of("touch"));
    t.push(chars_of("chmod"));
    t.push(chars_of("git"));
    t.push(chars_of("curl"));
    t.push(chars_of("wget"));
    proof {
        assert(views_of(t@) =~= medium_risk_tokens());
    }
    t
}

/// Whether the token equals some entry of the table.
fn token_in_table(token: &Vec<char>, table: &Vec<Vec<char>>) -> (r: bool)
    ensures
        r == views_of(table@).contains(token@),
{
    let mut i: usize = 0;
    while i < table.len()
        invariant
            i <= table@.len(),
            forall|j: int| 0 <= j < i ==> views_of(table@)[j] != token@,
        decreases table@.len() - i,
    {
        if char_seq_eq(token, &table[i]) {
            proof {
                assert(views_of(table@)[i as int] == token@);
            }
            return true;
        }
        i = i + 1;
    }
    proof {
        assert(forall|j: int| 0 <= j < views_of(table@).len() ==> views_of(table@)[j] != token@);
    }
    false
}

/// Whether some prefix of the segments walks above the root.
fn segments_escape(segs: &Vec<Vec<char>>) -> (r: bool)
    ensures
        r == segs_escape(views_of(segs@)),
{
    let n: usize = segs.len();
    let mut depth: i128 = 0;
    let mut i: usize = 0;
    while i < n
        invariant
            n == segs@.len(),
            i <= n,
            depth == segs_depth(views_of(segs@).take(i as int)),
            -(i as int) <= depth <= i as int,
            forall|k: int| 0 <= k <= i ==> #[trigger] segs_depth(views_of(segs@).take(k)) >= 0,
        decreases n - i,
    {
        let seg = &segs[i];
        let mut delta: i128 = 1;
        if seg.len() == 0 {
            delta = 0;
        } else if seg.len() == 1 {
            if seg[0] == '.' {
                delta = 0;
            }
        } else if seg.len() == 2 {
            if seg[0] == '.' && seg[1] == '.' {
                delta = -1;
            }
        }
        proof {
            if seg@.len() == 1 && seg@[0] == '.' {
                assert(seg@ =~= seq!['.']);
            }
            if seg@.len() == 2 && seg@[0] == '.' && seg@[1] == '.' {
                assert(seg@ =~= seq!['.', '.']);
            }
            assert(delta == seg_delta(seg@));
        }
        depth = depth + delta;
        i = i + 1;
        proof {
            assert(views_of(segs@).take(i as int).drop_last() =~= views_of(segs@).take(i - 1));
            assert(views_of(segs@).take(i as int).last() == segs@[i - 1]@);
        }
        if depth < 0 {
            proof {
                assert(depth == segs_depth(views_of(segs@).take(i as int)));
            }
            return true;
        }
    }
    proof {
        assert(views_of(segs@).take(n as int) =~= views_of(segs@));
    }
    false
}

/// With confinement on, a path that is absolute or climbs above the
/// workspace root is never allowed.
pub proof fn lemma_escaping_path_denied(policy: SecurityPolicy, p: Seq<char>)
    requires
        policy.workspace_only,
        path_is_absolute(p) || path_escapes(p),
    ensures
        !policy.spec_path_allowed(p),
{
}

/// Under Supervised autonomy with `block_high_risk_commands` set, every
/// command classified High is denied.
pub proof fn lemma_high_risk_denied(policy: SecurityPolicy, cmd: Seq<char>)
    requires
        policy.autonomy_level == AutonomyLevel::Supervised,
        policy.block_high_risk_commands,
        spec_classify_command_risk(cmd) == CommandRiskLevel::High,
    ensures
        policy.spec_authorize_command(cmd) == Decision::Deny,
{
}

/// While the hour window has not elapsed, a session that has already used
/// its hourly action quota has every further action refused; and while the
/// day window has not elapsed either, the refused call leaves both counters
/// exactly as they were.
pub proof fn lemma_quota_exhausted_denies(policy: SecurityPolicy, now: u64, cost_cents: u32)
    requires
        policy.actions_this_hour >= policy.max_actions_per_hour,
        now < policy.hour_window_start + SECONDS_PER_HOUR,
    ensures
        policy.spec_rolled(now).spec_quota_would_exceed(cost_cents),
        now < policy.day_window_start + SECONDS_PER_DAY ==> policy.spec_rolled(now) == policy,
{
}

/// Once both windows elapse, the counters reset: an affordable action is
/// accepted again whatever the counters held.
pub proof fn lemma_window_rollover_resets(policy: SecurityPolicy, now: u64, cost_cents: u32)
    requires
        now >= policy.hour_window_start + SECONDS_PER_HOUR,
        now >= policy.day_window_start + SECONDS_PER_DAY,
        policy.max_actions_per_hour >= 1,
        cost_cents <= policy.max_cost_per_day_cents,
    ensures
        !policy.spec_rolled(now).spec_quota_would_exceed(cost_cents),
        policy.spec_rolled(now).actions_this_hour == 0,
        policy.spec_rolled(now).cost_today_cents == 0,
{
}

} // verus!
