//! Tree population, walk order, and the duplicate-host constraint.

use checkmate::api::rules::RuleConditions;
use checkmate::api::rules::RuleProperties;
use checkmate::config::DeclarativeConfig;
use checkmate::config::folders::Folder;
use checkmate::config::folders::Folders;
use checkmate::config::hosts::Host;
use checkmate::config::rulesets::Rule;
use checkmate::config::rulesets::Ruleset;
use checkmate::driver::ApplyStep;
use checkmate::driver::process_folders;
use checkmate::strutil::str_contains;

fn unpopulated_host(name: &str) -> Host {
    Host {
        host_name: name.to_string(),
        folder: String::new(),
        attributes: None,
    }
}

fn unpopulated_rule(id: &str) -> Rule {
    Rule {
        custom_id: id.to_string(),
        properties: RuleProperties::default(),
        conditions: RuleConditions::default(),
        value_raw: "{}".to_string(),
        ruleset: String::new(),
    }
}

fn unpopulated_folder(title: &str) -> Folder {
    Folder {
        path: String::new(),
        title: title.to_string(),
        attributes: None,
        rulesets: None,
        hosts: None,
        folders: Vec::new(),
    }
}

/// A document shaped like: `/` with host `web01`; child `a` with rule set
/// `cpu`; grandchild `b` with host `db01`.
fn sample_document() -> Folder {
    let mut grandchild = unpopulated_folder("Depth two");
    grandchild.hosts = Some(vec![unpopulated_host("db01")]);
    let mut child = unpopulated_folder("Depth one");
    child.rulesets = Some(vec![Ruleset {
        name: "cpu".to_string(),
        rules: vec![unpopulated_rule("r1")],
        folder: String::new(),
    }]);
    child.folders = vec![("b".to_string(), grandchild)];
    let mut root = unpopulated_folder("Main");
    root.hosts = Some(vec![unpopulated_host("web01")]);
    root.folders = vec![("a".to_string(), child)];
    root
}

#[test]
fn population_assigns_canonical_paths() {
    let tree = Folders::from_document(sample_document());
    let root = &tree.root_folder;
    assert_eq!(root.path, "/");
    let child = &root.folders[0].1;
    assert_eq!(child.path, "/a");
    let grandchild = &child.folders[0].1;
    assert_eq!(grandchild.path, "/a/b");
}

#[test]
fn population_wires_back_references() {
    let tree = Folders::from_document(sample_document());
    let root = &tree.root_folder;
    assert_eq!(root.hosts.as_ref().unwrap()[0].folder, "/");
    let child = &root.folders[0].1;
    let ruleset = &child.rulesets.as_ref().unwrap()[0];
    assert_eq!(ruleset.folder, "/a");
    assert_eq!(ruleset.rules[0].ruleset, "cpu");
    let grandchild = &child.folders[0].1;
    assert_eq!(grandchild.hosts.as_ref().unwrap()[0].folder, "/a/b");
}

#[test]
fn population_normalizes_rule_comments() {
    let tree = Folders::from_document(sample_document());
    let child = &tree.root_folder.folders[0].1;
    let rule = &child.rulesets.as_ref().unwrap()[0].rules[0];
    let comment = rule.properties.comment.as_deref().unwrap();
    assert!(str_contains(comment, "[checkmate:cpu:r1]"));
}

#[test]
fn walk_applies_folders_before_contents() {
    let config = DeclarativeConfig { folders: Folders::from_document(sample_document()) };
    let steps = process_folders(&config);
    let summary: Vec<String> = steps
        .iter()
        .map(|step| match step {
            ApplyStep::ApplyFolder(f) => format!("folder {}", f.path),
            ApplyStep::ApplyHost(h) => format!("host {}", h.host_name),
            ApplyStep::ApplyRuleset(rs) => format!("ruleset {}", rs.name),
        })
        .collect();
    assert_eq!(
        summary,
        vec![
            "folder /".to_string(),
            "host web01".to_string(),
            "folder /a".to_string(),
            "ruleset cpu".to_string(),
            "folder /a/b".to_string(),
            "host db01".to_string(),
        ]
    );
}

#[test]
fn duplicate_host_across_folders_is_rejected() {
    let mut document = sample_document();
    // Declare `db01` at the root as well as in `/a/b`.
    document.hosts.as_mut().unwrap().push(unpopulated_host("db01"));
    let config = DeclarativeConfig { folders: Folders::from_document(document) };
    let error = config.verify_constraints().unwrap_err();
    assert_eq!(error.host_name, "db01");
    assert_eq!(error.first_folder, "/");
    assert_eq!(error.second_folder, "/a/b");
    let message = error.message();
    assert_eq!(
        message,
        "Host db01 is defined both in folder / and folder /a/b"
    );
}

#[test]
fn distinct_host_names_are_accepted() {
    let config = DeclarativeConfig { folders: Folders::from_document(sample_document()) };
    assert!(config.verify_constraints().is_ok());
}
