//! Change activation: the interpretation of the activation response.

use checkmate::api::ClientError;
use checkmate::api::changes::ActivatePendingChangesRequest;
use checkmate::api::changes::ActivatePendingChangesResponse;
use checkmate::api::changes::ActivationOutcome;
use checkmate::api::changes::activation_outcome;

#[test]
fn accepted_activation_is_waited_on() {
    let activated = Ok(ActivatePendingChangesResponse { id: "run-7".to_string() });
    match activation_outcome(activated).unwrap() {
        ActivationOutcome::WaitForCompletion { activation_id } => {
            assert_eq!(activation_id, "run-7");
        }
        other => panic!("expected a wait, got {:?}", other),
    }
}

#[test]
fn precondition_failed_counts_as_success() {
    let activated = Err(ClientError::HttpRequestError { status: Some(422) });
    match activation_outcome(activated).unwrap() {
        ActivationOutcome::NothingToActivate => {}
        other => panic!("expected nothing to activate, got {:?}", other),
    }
}

#[test]
fn other_activation_error_is_fatal() {
    let activated = Err(ClientError::HttpRequestError { status: Some(401) });
    assert!(activation_outcome(activated).is_err());
}

#[test]
fn missing_token_error_is_fatal() {
    let activated = Err(ClientError::MissingOrInvalidETagError);
    assert!(activation_outcome(activated).is_err());
}

#[test]
fn activation_request_targets_one_site() {
    let req = ActivatePendingChangesRequest::for_site("main");
    assert!(!req.redirect);
    assert!(!req.force_foreign_changes);
    assert_eq!(req.sites, vec!["main".to_string()]);
}
