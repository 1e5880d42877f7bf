//! Change-activation wire model and the decision that interprets the
//! activation response.

use vstd::prelude::*;
use crate::api::ClientError;
use crate::api::spec_is_status;

verus! {

/// One pending change, as the remote system lists it.
#[derive(Debug)]
pub struct PendingChange {
    pub id: String,
    pub user_id: String,
    pub action_name: String,
    pub text: String,
    pub time: String,
}

pub struct PendingChangeV {
    pub id: Seq<char>,
    pub user_id: Seq<char>,
    pub action_name: Seq<char>,
    pub text: Seq<char>,
    pub time: Seq<char>,
}

impl DeepView for PendingChange {
    type V = PendingChangeV;

    open spec fn deep_view(&self) -> PendingChangeV {
        PendingChangeV {
            id: self.id@,
            user_id: self.user_id@,
            action_name: self.action_name@,
            text: self.text@,
            time: self.time@,
        }
    }
}

/// The pending-change listing; its concurrency token guards the activation.
#[derive(Debug)]
pub struct ShowAllPendingChangesResponse {
    pub pending_changes: Vec<PendingChange>,
}

pub struct ShowAllPendingChangesResponseV {
    pub pending_changes: Seq<PendingChangeV>,
}

impl DeepView for ShowAllPendingChangesResponse {
    type V = ShowAllPendingChangesResponseV;

    open spec fn deep_view(&self) -> ShowAllPendingChangesResponseV {
        ShowAllPendingChangesResponseV { pending_changes: self.pending_changes.deep_view() }
    }
}

/// The payload of the activation call.
#[derive(Debug)]
pub struct ActivatePendingChangesRequest {
    pub redirect: bool,
    pub sites: Vec<String>,
    pub force_foreign_changes: bool,
}

pub struct ActivatePendingChangesRequestV {
    pub redirect: bool,
    pub sites: Seq<Seq<char>>,
    pub force_foreign_changes: bool,
}

impl DeepView for ActivatePendingChangesRequest {
    type V = ActivatePendingChangesRequestV;

    open spec fn deep_view(&self) -> ActivatePendingChangesRequestV {
        ActivatePendingChangesRequestV {
            redirect: self.redirect,
            sites: self.sites.deep_view(),
            force_foreign_changes: self.force_foreign_changes,
        }
    }
}

/// The activation run the remote system started.
#[derive(Debug)]
pub struct ActivatePendingChangesResponse {
    pub id: String,
}

pub struct ActivatePendingChangesResponseV {
    pub id: Seq<char>,
}

impl DeepView for ActivatePendingChangesResponse {
    type V = ActivatePendingChangesResponseV;

    open spec fn deep_view(&self) -> ActivatePendingChangesResponseV {
        ActivatePendingChangesResponseV { id: self.id@ }
    }
}

impl ActivatePendingChangesRequest {
    /// The activation payload for one site: no redirect, never forcing
    /// foreign changes.
    pub fn for_site(site: &str) -> (r: ActivatePendingChangesRequest)
        ensures
            r.redirect == false,
            r.force_foreign_changes == false,
            r.deep_view().sites =~= seq![site@],
    {
        let mut sites: Vec<String> = Vec::new();
        sites.push(site.to_owned());
        ActivatePendingChangesRequest { redirect: false, sites, force_foreign_changes: false }
    }
}

/// What the run should do once the activation call has come back.
#[derive(Debug)]
pub enum ActivationOutcome {
    /// The remote system opened an activation run; wait for this run to
    /// complete.
    WaitForCompletion { activation_id: String },
    /// There was nothing to activate: the run is already complete.
    NothingToActivate,
}

pub enum ActivationOutcomeV {
    WaitForCompletion { activation_id: Seq<char> },
    NothingToActivate,
}

impl DeepView for ActivationOutcome {
    type V = ActivationOutcomeV;

    open spec fn deep_view(&self) -> ActivationOutcomeV {
        match self {
            ActivationOutcome::WaitForCompletion { activation_id } => (
            ActivationOutcomeV::WaitForCompletion { activation_id: activation_id@ }),
            ActivationOutcome::NothingToActivate => ActivationOutcomeV::NothingToActivate,
        }
    }
}

/// How the activation response is interpreted: an accepted activation hands
/// back the run to wait on; a precondition-failed rejection means there was
/// nothing to activate and counts as success; anything else is fatal.
pub open spec fn spec_activation_outcome(
    activated: Result<ActivatePendingChangesResponseV, crate::api::ClientErrorV>,
) -> Result<ActivationOutcomeV, crate::api::ClientErrorV> {
    match activated {
        Ok(resp) => Ok(ActivationOutcomeV::WaitForCompletion { activation_id: resp.id }),
        Err(e) => if spec_is_status(e, 422) {
            Ok(ActivationOutcomeV::NothingToActivate)
        } else {
            Err(e)
        },
    }
}

/// Decides what follows the activation call.
///
/// A rejection with the precondition-failed status means the remote system
/// had no pending changes; the run then succeeds without any activation
/// having been performed.
pub fn activation_outcome(activated: Result<ActivatePendingChangesResponse, ClientError>) -> (r:
    Result<ActivationOutcome, ClientError>)
    ensures
        crate::api::deep_view_result(r) == spec_activation_outcome(
            crate::api::deep_view_result(activated),
        ),
{
    match activated {
        Ok(resp) => Ok(ActivationOutcome::WaitForCompletion { activation_id: resp.id }),
        Err(e) => {
            if e.is_status(422) {
                Ok(ActivationOutcome::NothingToActivate)
            } else {
                Err(e)
            }
        },
    }
}

} // verus!
