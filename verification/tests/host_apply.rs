//! Host reconciliation decisions: create on not-found, move before update
//! with the freshly returned token, update or keep in place.

use checkmate::api::ClientError;
use checkmate::api::hosts::HostAttributes;
use checkmate::api::hosts::HostOutputExtensions;
use checkmate::api::hosts::ShowHostResponse;
use checkmate::config::hosts::Host;
use checkmate::config::hosts::HostStep;

fn declared_host(attrs: Option<HostAttributes>) -> Host {
    Host {
        host_name: "web01".to_string(),
        folder: "/a".to_string(),
        attributes: attrs,
    }
}

fn aliased_attributes() -> HostAttributes {
    let mut attrs = HostAttributes::default();
    attrs.alias = Some("frontend".to_string());
    attrs
}

fn remote_host(folder: &str, attrs: HostAttributes) -> ShowHostResponse {
    ShowHostResponse {
        id: Some("web01".to_string()),
        title: "web01".to_string(),
        extensions: HostOutputExtensions {
            folder: folder.to_string(),
            attributes: attrs,
            is_cluster: false,
            is_offline: false,
            cluster_nodes: None,
        },
    }
}

#[test]
fn host_created_when_missing() {
    let host = declared_host(None);
    let shown = Err(ClientError::HttpRequestError { status: Some(404) });
    match host.apply_to_site(shown).unwrap() {
        HostStep::CreateHost(req) => {
            assert_eq!(req.folder, "~a");
            assert_eq!(req.host_name, "web01");
            assert!(req.attributes.is_none());
        }
        other => panic!("expected a creation, got {:?}", other),
    }
}

#[test]
fn host_kept_in_place_when_settled() {
    let host = declared_host(None);
    let shown = Ok((remote_host("/a", HostAttributes::default()), "T1".to_string()));
    match host.apply_to_site(shown).unwrap() {
        HostStep::UpdateOnly(call) => assert!(call.is_none()),
        other => panic!("expected no further call, got {:?}", other),
    }
}

#[test]
fn host_updated_in_place_with_lookup_token() {
    let host = declared_host(Some(aliased_attributes()));
    let shown = Ok((remote_host("/a", HostAttributes::default()), "T1".to_string()));
    match host.apply_to_site(shown).unwrap() {
        HostStep::UpdateOnly(Some(call)) => {
            assert_eq!(call.host_name, "web01");
            assert_eq!(call.etag, "T1");
            assert_eq!(
                call.request.attributes.as_ref().and_then(|a| a.alias.as_deref()),
                Some("frontend")
            );
        }
        other => panic!("expected an update, got {:?}", other),
    }
}

#[test]
fn host_moved_before_update_with_fresh_token() {
    let host = declared_host(Some(aliased_attributes()));
    let shown = Ok((remote_host("/b", HostAttributes::default()), "T1".to_string()));
    match host.apply_to_site(shown).unwrap() {
        HostStep::MoveHost { host_name, etag, target_folder } => {
            assert_eq!(host_name, "web01");
            assert_eq!(etag, "T1");
            assert_eq!(target_folder, "/a");
        }
        other => panic!("expected a move, got {:?}", other),
    }
    // The move lands the host in the declared folder and returns a fresh
    // token; the update decision is re-taken on that state and must carry
    // the fresh token, never the pre-move one.
    let moved = remote_host("/a", HostAttributes::default());
    let call = host.update_call(&moved, "T2".to_string()).unwrap();
    assert_eq!(call.etag, "T2");
    assert_ne!(call.etag, "T1");
}

#[test]
fn host_other_error_is_fatal() {
    let host = declared_host(None);
    let shown = Err(ClientError::HttpRequestError { status: Some(500) });
    assert!(host.apply_to_site(shown).is_err());
}

#[test]
fn host_replay_after_move_and_update_keeps() {
    let host = declared_host(Some(aliased_attributes()));
    // After the first run the host sits in the declared folder with the
    // declared attributes; the second lookup shows exactly that.
    let settled = remote_host("/a", aliased_attributes());
    match host.apply_to_site(Ok((settled, "T3".to_string()))).unwrap() {
        HostStep::UpdateOnly(call) => assert!(call.is_none()),
        other => panic!("expected no further call, got {:?}", other),
    }
}
