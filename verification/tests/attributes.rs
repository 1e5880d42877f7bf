//! Attribute-bag comparison edges: absent bags default-fill, and every
//! field participates in the equality the decisions rest on.

use checkmate::api::ClientError;
use checkmate::api::folders::FolderAttributes;
use checkmate::api::folders::FolderOutputExtensions;
use checkmate::api::folders::ShowFolderResponse;
use checkmate::config::folders::Folder;
use checkmate::config::folders::FolderAction;
use checkmate::models::ContactGroups;

fn declared(attributes: Option<FolderAttributes>) -> Folder {
    Folder {
        path: "/a".to_string(),
        title: "A".to_string(),
        attributes,
        rulesets: None,
        hosts: None,
        folders: Vec::new(),
    }
}

fn remote(attributes: FolderAttributes) -> ShowFolderResponse {
    ShowFolderResponse {
        id: None,
        title: "A".to_string(),
        extensions: FolderOutputExtensions {
            path: "/a".to_string(),
            attributes,
        },
    }
}

fn contact_groups(groups: &[&str]) -> ContactGroups {
    ContactGroups {
        groups: groups.iter().map(|g| g.to_string()).collect(),
        recurse_perms: None,
        recurse_use: None,
        use_: None,
        use_for_services: None,
    }
}

#[test]
fn absent_bag_equals_default_bag() {
    let folder = declared(None);
    assert!(!folder.needs_update(&remote(FolderAttributes::default())));
}

#[test]
fn absent_bag_differs_from_filled_bag() {
    let folder = declared(None);
    let mut attrs = FolderAttributes::default();
    attrs.site = Some("main".to_string());
    assert!(folder.needs_update(&remote(attrs)));
}

#[test]
fn contact_groups_participate_in_equality() {
    let mut mine = FolderAttributes::default();
    mine.contact_groups = Some(contact_groups(&["ops"]));
    let folder = declared(Some(mine));

    let mut same = FolderAttributes::default();
    same.contact_groups = Some(contact_groups(&["ops"]));
    assert!(!folder.needs_update(&remote(same)));

    let mut different = FolderAttributes::default();
    different.contact_groups = Some(contact_groups(&["ops", "oncall"]));
    assert!(folder.needs_update(&remote(different)));
}

#[test]
fn labels_compare_pair_by_pair() {
    let mut mine = FolderAttributes::default();
    mine.labels = Some(vec![("env".to_string(), "prod".to_string())]);
    let folder = declared(Some(mine));

    let mut same = FolderAttributes::default();
    same.labels = Some(vec![("env".to_string(), "prod".to_string())]);
    assert!(!folder.needs_update(&remote(same)));

    let mut different = FolderAttributes::default();
    different.labels = Some(vec![("env".to_string(), "test".to_string())]);
    assert!(folder.needs_update(&remote(different)));
}

#[test]
fn attribute_difference_alone_forces_update() {
    let mut mine = FolderAttributes::default();
    mine.site = Some("main".to_string());
    let folder = declared(Some(mine));
    let action = folder
        .apply_to_site(Ok((remote(FolderAttributes::default()), "E1".to_string())))
        .unwrap();
    assert!(matches!(action, FolderAction::UpdateFolder { .. }));
}

#[test]
fn status_test_distinguishes_codes() {
    let missing = ClientError::HttpRequestError { status: Some(404) };
    assert!(missing.is_status(404));
    assert!(!missing.is_status(422));
    let transport = ClientError::HttpRequestError { status: None };
    assert!(!transport.is_status(404));
    assert!(!ClientError::MissingOrInvalidETagError.is_status(404));
}
