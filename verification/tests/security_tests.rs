use zeroclaw::security::{
    AutonomyLevel, CommandRiskLevel, Decision, PolicyError, SecurityPolicy,
};

fn policy() -> SecurityPolicy {
    SecurityPolicy {
        workspace_dir: "/tmp/ws".to_string(),
        autonomy_level: AutonomyLevel::Supervised,
        workspace_only: true,
        require_approval_for_medium_risk: true,
        block_high_risk_commands: true,
        allowed_commands: Vec::new(),
        forbidden_paths: Vec::new(),
        max_actions_per_hour: 3,
        max_cost_per_day_cents: 100,
        actions_this_hour: 0,
        hour_window_start: 0,
        cost_today_cents: 0,
        day_window_start: 0,
    }
}

#[test]
fn absolute_path_denied_when_workspace_only() {
    let p = policy();
    assert!(!p.is_path_allowed("/etc/passwd"));
    assert!(!p.is_path_allowed("/"));
}

#[test]
fn parent_escape_denied_when_workspace_only() {
    let p = policy();
    assert!(!p.is_path_allowed("../secrets.txt"));
    assert!(!p.is_path_allowed("a/../../b"));
    assert!(!p.is_path_allowed(".."));
}

#[test]
fn dotdot_within_root_is_allowed() {
    let p = policy();
    assert!(p.is_path_allowed("a/b/../c"));
    assert!(p.is_path_allowed("./a/./b"));
    assert!(p.is_path_allowed("notes.txt"));
}

#[test]
fn any_path_allowed_when_workspace_only_off() {
    let mut p = policy();
    p.workspace_only = false;
    assert!(p.is_path_allowed("/etc/passwd"));
    assert!(p.is_path_allowed("../../anything"));
}

#[test]
fn forbidden_pattern_denies() {
    let mut p = policy();
    p.forbidden_paths = vec![".ssh".to_string(), ".env".to_string()];
    assert!(!p.is_path_allowed("home/.ssh/id_rsa"));
    assert!(!p.is_path_allowed("app/.env"));
    assert!(p.is_path_allowed("app/env.example"));
}

#[test]
fn classify_high_risk_commands() {
    assert_eq!(
        SecurityPolicy::classify_command_risk("rm -rf /"),
        CommandRiskLevel::High
    );
    assert_eq!(
        SecurityPolicy::classify_command_risk("sudo apt install x"),
        CommandRiskLevel::High
    );
    assert_eq!(
        SecurityPolicy::classify_command_risk("  shutdown now"),
        CommandRiskLevel::High
    );
}

#[test]
fn classify_medium_and_low() {
    assert_eq!(
        SecurityPolicy::classify_command_risk("mv a b"),
        CommandRiskLevel::Medium
    );
    assert_eq!(
        SecurityPolicy::classify_command_risk("git push"),
        CommandRiskLevel::Medium
    );
    assert_eq!(
        SecurityPolicy::classify_command_risk("ls -la"),
        CommandRiskLevel::Low
    );
    assert_eq!(
        SecurityPolicy::classify_command_risk(""),
        CommandRiskLevel::Low
    );
}

#[test]
fn classification_is_deterministic_and_stateless() {
    let once = SecurityPolicy::classify_command_risk("rm file");
    let twice = SecurityPolicy::classify_command_risk("rm file");
    assert_eq!(once, twice);
    assert_eq!(once, CommandRiskLevel::High);
}

#[test]
fn supervised_blocks_high_risk_when_flag_set() {
    let p = policy();
    assert_eq!(p.authorize_command("rm -rf build"), Decision::Deny);
    assert_eq!(p.authorize_command("dd if=/dev/zero"), Decision::Deny);
}

#[test]
fn supervised_requires_approval_for_high_when_not_blocking() {
    let mut p = policy();
    p.block_high_risk_commands = false;
    assert_eq!(p.authorize_command("rm -rf build"), Decision::RequireApproval);
}

#[test]
fn supervised_medium_approval_and_waiver() {
    let mut p = policy();
    assert_eq!(p.authorize_command("mv a b"), Decision::RequireApproval);
    p.require_approval_for_medium_risk = false;
    assert_eq!(p.authorize_command("mv a b"), Decision::Allow);
}

#[test]
fn allowlisted_medium_command_is_allowed() {
    let mut p = policy();
    p.allowed_commands = vec!["git".to_string()];
    assert_eq!(p.authorize_command("git push origin"), Decision::Allow);
    assert_eq!(p.authorize_command("mv a b"), Decision::RequireApproval);
}

#[test]
fn read_only_denies_mutating_commands() {
    let mut p = policy();
    p.autonomy_level = AutonomyLevel::ReadOnly;
    assert_eq!(p.authorize_command("ls"), Decision::Allow);
    assert_eq!(p.authorize_command("mv a b"), Decision::Deny);
    assert_eq!(p.authorize_command("rm x"), Decision::Deny);
}

#[test]
fn full_autonomy_allows_everything() {
    let mut p = policy();
    p.autonomy_level = AutonomyLevel::Full;
    assert_eq!(p.authorize_command("rm -rf /"), Decision::Allow);
    assert_eq!(p.authorize_command("mv a b"), Decision::Allow);
}

#[test]
fn quota_exhausts_after_max_actions_in_one_hour() {
    let mut p = policy();
    assert_eq!(p.record_action(10, 0), Ok(()));
    assert_eq!(p.record_action(20, 0), Ok(()));
    assert_eq!(p.record_action(30, 0), Ok(()));
    assert_eq!(p.record_action(40, 0), Err(PolicyError::QuotaExceeded));
    assert_eq!(p.actions_this_hour, 3);
}

#[test]
fn quota_resets_after_window_elapses() {
    let mut p = policy();
    assert_eq!(p.record_action(10, 0), Ok(()));
    assert_eq!(p.record_action(11, 0), Ok(()));
    assert_eq!(p.record_action(12, 0), Ok(()));
    assert_eq!(p.record_action(13, 0), Err(PolicyError::QuotaExceeded));
    // One rolling hour after the window began, the counter starts over.
    assert_eq!(p.record_action(10 + 3600, 0), Ok(()));
    assert_eq!(p.actions_this_hour, 1);
    assert_eq!(p.hour_window_start, 10 + 3600);
}

#[test]
fn cost_quota_denies_before_overspending() {
    let mut p = policy();
    assert_eq!(p.record_action(10, 80), Ok(()));
    assert_eq!(p.record_action(20, 30), Err(PolicyError::QuotaExceeded));
    assert_eq!(p.cost_today_cents, 80);
    assert_eq!(p.record_action(30, 20), Ok(()));
    assert_eq!(p.cost_today_cents, 100);
}

#[test]
fn cost_counter_resets_on_day_rollover() {
    let mut p = policy();
    assert_eq!(p.record_action(10, 100), Ok(()));
    assert_eq!(p.record_action(20, 1), Err(PolicyError::QuotaExceeded));
    assert_eq!(p.record_action(10 + 86400, 1), Ok(()));
    assert_eq!(p.cost_today_cents, 1);
}

#[test]
fn empty_path_is_allowed() {
    let p = policy();
    assert!(p.is_path_allowed(""));
}

#[test]
fn allowlist_does_not_override_high_risk() {
    let mut p = policy();
    p.allowed_commands = vec!["rm".to_string()];
    assert_eq!(p.authorize_command("rm -rf build"), Decision::Deny);
}

#[test]
fn zero_action_quota_refuses_everything() {
    let mut p = policy();
    p.max_actions_per_hour = 0;
    assert_eq!(p.record_action(5, 0), Err(PolicyError::QuotaExceeded));
    assert_eq!(p.actions_this_hour, 0);
}
