//! Rule-set reconciliation: the replace-on-mismatch strategy over the
//! listed remote rules of one folder.

use checkmate::api::ClientError;
use checkmate::api::rules::ListRulesResponse;
use checkmate::api::rules::RuleConditions;
use checkmate::api::rules::RuleOutputExtensions;
use checkmate::api::rules::RuleProperties;
use checkmate::api::rules::ShowRuleResponse;
use checkmate::config::rulesets::Rule;
use checkmate::config::rulesets::Ruleset;
use checkmate::config::rulesets::RulesetAction;

fn declared_rule(id: &str, value_raw: &str) -> Rule {
    let mut rule = Rule {
        custom_id: id.to_string(),
        properties: RuleProperties::default(),
        conditions: RuleConditions::default(),
        value_raw: value_raw.to_string(),
        ruleset: "cpu".to_string(),
    };
    rule.normalize_properties("cpu");
    rule
}

fn declared_ruleset(rules: Vec<Rule>) -> Ruleset {
    Ruleset {
        name: "cpu".to_string(),
        rules,
        folder: "/a".to_string(),
    }
}

/// What the remote side lists for a rule freshly created from `rule`.
fn rendered(remote_id: &str, rule: &Rule, folder: &str) -> ShowRuleResponse {
    ShowRuleResponse {
        id: remote_id.to_string(),
        title: None,
        extensions: RuleOutputExtensions {
            ruleset: Some("cpu".to_string()),
            folder: folder.to_string(),
            folder_index: None,
            properties: rule.properties.clone(),
            value_raw: rule.value_raw.clone(),
            conditions: rule.conditions.clone(),
        },
    }
}

fn listing(rules: Vec<ShowRuleResponse>) -> ListRulesResponse {
    ListRulesResponse {
        id: "cpu".to_string(),
        title: None,
        rules,
    }
}

#[test]
fn count_mismatch_forces_full_replacement() {
    let r1 = declared_rule("r1", "{\"limit\": 1}");
    let r2 = declared_rule("r2", "{\"limit\": 2}");
    let remote = rendered("uuid-1", &r1, "/a");
    let rs = declared_ruleset(vec![r1, r2]);
    match rs.apply_to_site(Ok(listing(vec![remote]))).unwrap() {
        RulesetAction::ReplaceRules { delete_ids, creates } => {
            assert_eq!(delete_ids, vec!["uuid-1".to_string()]);
            assert_eq!(creates.len(), 2);
            assert_eq!(creates[0].value_raw, "{\"limit\": 1}");
            assert_eq!(creates[1].value_raw, "{\"limit\": 2}");
            assert_eq!(creates[0].ruleset, "cpu");
            assert_eq!(creates[0].folder, "/a");
        }
        other => panic!("expected a replacement, got {:?}", other),
    }
}

#[test]
fn matching_positions_keep_everything() {
    let r1 = declared_rule("r1", "{\"limit\": 1}");
    let r2 = declared_rule("r2", "{\"limit\": 2}");
    let remote = vec![rendered("uuid-1", &r1, "/a"), rendered("uuid-2", &r2, "/a")];
    let rs = declared_ruleset(vec![r1, r2]);
    let action = rs.apply_to_site(Ok(listing(remote))).unwrap();
    assert!(matches!(action, RulesetAction::KeepRules));
}

#[test]
fn reordered_rules_force_replacement() {
    let r1 = declared_rule("r1", "{\"limit\": 1}");
    let r2 = declared_rule("r2", "{\"limit\": 2}");
    let remote = vec![rendered("uuid-2", &r2, "/a"), rendered("uuid-1", &r1, "/a")];
    let rs = declared_ruleset(vec![r1, r2]);
    match rs.apply_to_site(Ok(listing(remote))).unwrap() {
        RulesetAction::ReplaceRules { delete_ids, creates } => {
            assert_eq!(delete_ids, vec!["uuid-2".to_string(), "uuid-1".to_string()]);
            assert_eq!(creates[0].value_raw, "{\"limit\": 1}");
            assert_eq!(creates[1].value_raw, "{\"limit\": 2}");
        }
        other => panic!("expected a replacement, got {:?}", other),
    }
}

#[test]
fn changed_payload_forces_replacement() {
    let r1 = declared_rule("r1", "{\"limit\": 5}");
    let stale = declared_rule("r1", "{\"limit\": 1}");
    let remote = vec![rendered("uuid-1", &stale, "/a")];
    let rs = declared_ruleset(vec![r1]);
    match rs.apply_to_site(Ok(listing(remote))).unwrap() {
        RulesetAction::ReplaceRules { delete_ids, creates } => {
            assert_eq!(delete_ids, vec!["uuid-1".to_string()]);
            assert_eq!(creates[0].value_raw, "{\"limit\": 5}");
        }
        other => panic!("expected a replacement, got {:?}", other),
    }
}

#[test]
fn rules_of_other_folders_are_ignored() {
    let r1 = declared_rule("r1", "{\"limit\": 1}");
    let elsewhere = declared_rule("r9", "{\"limit\": 9}");
    let remote = vec![rendered("uuid-9", &elsewhere, "/x"), rendered("uuid-1", &r1, "/a")];
    let rs = declared_ruleset(vec![r1]);
    let action = rs.apply_to_site(Ok(listing(remote))).unwrap();
    assert!(matches!(action, RulesetAction::KeepRules));
}

#[test]
fn listing_error_is_fatal() {
    let rs = declared_ruleset(vec![declared_rule("r1", "{}")]);
    let listed = Err(ClientError::HttpRequestError { status: Some(500) });
    assert!(rs.apply_to_site(listed).is_err());
}

#[test]
fn replay_after_replacement_keeps() {
    let r1 = declared_rule("r1", "{\"limit\": 1}");
    let r2 = declared_rule("r2", "{\"limit\": 2}");
    let rs = declared_ruleset(vec![r1, r2]);
    // First run: remote shows one stale rule, so everything is replaced.
    let stale = declared_rule("r1", "{\"limit\": 0}");
    let first = rs.apply_to_site(Ok(listing(vec![rendered("uuid-0", &stale, "/a")]))).unwrap();
    assert!(matches!(first, RulesetAction::ReplaceRules { .. }));
    // Second run: the listing now shows exactly the recreated rules.
    let relisted = vec![
        rendered("uuid-5", &rs.rules[0], "/a"),
        rendered("uuid-6", &rs.rules[1], "/a"),
    ];
    let second = rs.apply_to_site(Ok(listing(relisted))).unwrap();
    assert!(matches!(second, RulesetAction::KeepRules));
}
