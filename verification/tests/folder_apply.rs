//! Folder reconciliation decisions: create on not-found, update on
//! difference under the lookup's token, keep on equality, abort otherwise —
//! and the replay that changes nothing.

use checkmate::api::ClientError;
use checkmate::api::folders::FolderAttributes;
use checkmate::api::folders::FolderOutputExtensions;
use checkmate::api::folders::ShowFolderResponse;
use checkmate::config::folders::Folder;
use checkmate::config::folders::FolderAction;

fn declared_folder() -> Folder {
    Folder {
        path: "/a/b".to_string(),
        title: "Branch".to_string(),
        attributes: None,
        rulesets: None,
        hosts: None,
        folders: Vec::new(),
    }
}

fn remote_folder(title: &str) -> ShowFolderResponse {
    ShowFolderResponse {
        id: Some("~a~b".to_string()),
        title: title.to_string(),
        extensions: FolderOutputExtensions {
            path: "/a/b".to_string(),
            attributes: FolderAttributes::default(),
        },
    }
}

fn not_found() -> ClientError {
    ClientError::HttpRequestError { status: Some(404) }
}

#[test]
fn folder_created_when_missing() {
    let folder = declared_folder();
    let action = folder.apply_to_site(Err(not_found())).unwrap();
    match action {
        FolderAction::CreateFolder(req) => {
            assert_eq!(req.name, "b");
            assert_eq!(req.title, "Branch");
            assert_eq!(req.parent, "~a");
            assert!(req.attributes.is_none());
        }
        other => panic!("expected a creation, got {:?}", other),
    }
}

#[test]
fn folder_kept_when_equal() {
    let folder = declared_folder();
    let action = folder
        .apply_to_site(Ok((remote_folder("Branch"), "E1".to_string())))
        .unwrap();
    assert!(matches!(action, FolderAction::KeepFolder));
}

#[test]
fn folder_updated_under_lookup_token() {
    let folder = declared_folder();
    let action = folder
        .apply_to_site(Ok((remote_folder("Old title"), "E1".to_string())))
        .unwrap();
    match action {
        FolderAction::UpdateFolder { id, etag, request } => {
            assert_eq!(id, "~a~b");
            assert_eq!(etag, "E1");
            assert_eq!(request.title, "Branch");
        }
        other => panic!("expected an update, got {:?}", other),
    }
}

#[test]
fn folder_other_error_is_fatal() {
    let folder = declared_folder();
    let shown = Err(ClientError::HttpRequestError { status: Some(500) });
    assert!(folder.apply_to_site(shown).is_err());
}

#[test]
fn folder_transport_error_is_fatal() {
    let folder = declared_folder();
    let shown = Err(ClientError::HttpRequestError { status: None });
    assert!(folder.apply_to_site(shown).is_err());
}

#[test]
fn folder_replay_after_update_keeps() {
    let folder = declared_folder();
    let first = folder
        .apply_to_site(Ok((remote_folder("Old title"), "E1".to_string())))
        .unwrap();
    let written_title = match first {
        FolderAction::UpdateFolder { request, .. } => request.title,
        other => panic!("expected an update, got {:?}", other),
    };
    let second = folder
        .apply_to_site(Ok((remote_folder(&written_title), "E2".to_string())))
        .unwrap();
    assert!(matches!(second, FolderAction::KeepFolder));
}
