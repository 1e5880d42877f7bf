//! Rule identity markers: format, comment normalization, and its
//! stability under repeated application.

use checkmate::api::rules::RuleConditions;
use checkmate::api::rules::RuleProperties;
use checkmate::config::rulesets::Rule;

fn rule_with_comment(comment: Option<&str>) -> Rule {
    Rule {
        custom_id: "r1".to_string(),
        properties: RuleProperties {
            description: None,
            comment: comment.map(|c| c.to_string()),
            documentation_url: None,
            disabled: Some(false),
        },
        conditions: RuleConditions::default(),
        value_raw: "{}".to_string(),
        ruleset: "cpu".to_string(),
    }
}

#[test]
fn marker_format() {
    let rule = rule_with_comment(None);
    assert_eq!(rule.marker("cpu"), "[checkmate:cpu:r1]");
}

#[test]
fn normalize_fills_empty_comment_with_marker() {
    let mut rule = rule_with_comment(None);
    rule.normalize_properties("cpu");
    assert_eq!(rule.properties.comment.as_deref(), Some("[checkmate:cpu:r1]"));
}

#[test]
fn normalize_appends_marker_to_unmarked_comment() {
    let mut rule = rule_with_comment(Some("tuned by ops"));
    rule.normalize_properties("cpu");
    assert_eq!(
        rule.properties.comment.as_deref(),
        Some("tuned by ops\n[checkmate:cpu:r1]")
    );
}

#[test]
fn normalize_leaves_marked_comment_unchanged() {
    let mut rule = rule_with_comment(Some("tuned by ops\n[checkmate:cpu:r1]"));
    rule.normalize_properties("cpu");
    assert_eq!(
        rule.properties.comment.as_deref(),
        Some("tuned by ops\n[checkmate:cpu:r1]")
    );
}

#[test]
fn normalize_twice_equals_once() {
    let mut once = rule_with_comment(Some("note"));
    once.normalize_properties("cpu");
    let mut twice = rule_with_comment(Some("note"));
    twice.normalize_properties("cpu");
    twice.normalize_properties("cpu");
    assert_eq!(once.properties.comment, twice.properties.comment);
    assert_eq!(once.properties.description, twice.properties.description);
    assert_eq!(once.properties.disabled, twice.properties.disabled);
}

#[test]
fn normalize_keeps_other_fields() {
    let mut rule = rule_with_comment(Some("note"));
    rule.normalize_properties("cpu");
    assert_eq!(rule.custom_id, "r1");
    assert_eq!(rule.value_raw, "{}");
    assert_eq!(rule.properties.disabled, Some(false));
}
