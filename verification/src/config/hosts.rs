//! Declared hosts and their reconciliation decisions.
//!
//! A host is identified by its globally unique name.  Its back-reference to
//! the containing folder is the folder's path, assigned during population;
//! reconciliation compares that path and the declared attribute bag against
//! what the remote site shows and produces the calls that close the gap.

use vstd::prelude::*;
use crate::api::ClientError;
use crate::api::ClientErrorV;
use crate::api::deep_view_result;
use crate::api::spec_is_status;
use crate::api::hosts::CreateHostRequest;
use crate::api::hosts::CreateHostRequestV;
use crate::api::hosts::HostAttributes;
use crate::api::hosts::HostAttributesV;
use crate::api::hosts::ShowHostResponse;
use crate::api::hosts::ShowHostResponseV;
use crate::api::hosts::UpdateHostRequest;
use crate::api::hosts::UpdateHostRequestV;
use crate::api::hosts::clone_opt_host_attributes;
use crate::api::hosts::eq_host_attributes;
use crate::api::hosts::spec_host_attributes_or_default;
use crate::models::eq_string;
use crate::strutil::flatten_path;
use crate::strutil::spec_flatten;

verus! {

/// A declared host: name, owning folder (by path) and attribute bag.
#[derive(Debug)]
pub struct Host {
    pub host_name: String,
    /// Path of the containing folder; assigned once during population.
    pub folder: String,
    pub attributes: Option<HostAttributes>,
}

pub struct HostV {
    pub host_name: Seq<char>,
    pub folder: Seq<char>,
    pub attributes: Option<HostAttributesV>,
}

impl DeepView for Host {
    type V = HostV;

    open spec fn deep_view(&self) -> HostV {
        HostV {
            host_name: self.host_name@,
            folder: self.folder@,
            attributes: self.attributes.deep_view(),
        }
    }
}

impl Clone for Host {
    fn clone(&self) -> (r: Self)
        ensures
            r.deep_view() == self.deep_view(),
    {
        Host {
            host_name: self.host_name.clone(),
            folder: self.folder.clone(),
            attributes: clone_opt_host_attributes(&self.attributes),
        }
    }
}

/// Where the host must move to: the declared folder path, when it differs
/// from the folder the remote side reports.
pub open spec fn spec_new_path(h: HostV, api: ShowHostResponseV) -> Option<Seq<char>> {
    if h.folder != api.extensions.folder {
        Some(h.folder)
    } else {
        None
    }
}

/// The declared attribute bag (default-filled) differs from the remote one.
pub open spec fn spec_host_needs_update(h: HostV, api: ShowHostResponseV) -> bool {
    spec_host_attributes_or_default(h.attributes) != api.extensions.attributes
}

/// The creation payload for a missing host: the owning folder is addressed
/// by its flattened identifier.
pub open spec fn spec_host_create_request(h: HostV) -> CreateHostRequestV {
    CreateHostRequestV {
        folder: spec_flatten(h.folder),
        host_name: h.host_name,
        attributes: h.attributes,
    }
}

/// An update call ready to issue: the token must be the one returned by the
/// most recent read or write of this host.
#[derive(Debug)]
pub struct HostUpdateCall {
    pub host_name: String,
    pub etag: String,
    pub request: UpdateHostRequest,
}

pub struct HostUpdateCallV {
    pub host_name: Seq<char>,
    pub etag: Seq<char>,
    pub request: UpdateHostRequestV,
}

impl DeepView for HostUpdateCall {
    type V = HostUpdateCallV;

    open spec fn deep_view(&self) -> HostUpdateCallV {
        HostUpdateCallV {
            host_name: self.host_name@,
            etag: self.etag@,
            request: self.request.deep_view(),
        }
    }
}

/// The update that follows a read (or a move) of an existing host, if its
/// attributes differ; it carries exactly the token of that read.
pub open spec fn spec_update_call(h: HostV, api: ShowHostResponseV, etag: Seq<char>) -> Option<
    HostUpdateCallV,
> {
    if spec_host_needs_update(h, api) {
        Some(
            HostUpdateCallV {
                host_name: h.host_name,
                etag: etag,
                request: UpdateHostRequestV { attributes: h.attributes },
            },
        )
    } else {
        None
    }
}

/// The first remote call an existing or missing host requires.
#[derive(Debug)]
pub enum HostStep {
    /// The host does not exist remotely: create it.
    CreateHost(CreateHostRequest),
    /// The host sits in the wrong folder: move it first, with the token of
    /// the read; the update decision is then re-taken on the move's result.
    MoveHost { host_name: String, etag: String, target_folder: String },
    /// The host is in the right folder: update it, or leave it alone.
    UpdateOnly(Option<HostUpdateCall>),
}

pub enum HostStepV {
    CreateHost(CreateHostRequestV),
    MoveHost { host_name: Seq<char>, etag: Seq<char>, target_folder: Seq<char> },
    UpdateOnly(Option<HostUpdateCallV>),
}

impl DeepView for HostStep {
    type V = HostStepV;

    open spec fn deep_view(&self) -> HostStepV {
        match self {
            HostStep::CreateHost(req) => HostStepV::CreateHost(req.deep_view()),
            HostStep::MoveHost { host_name, etag, target_folder } => HostStepV::MoveHost {
                host_name: host_name@,
                etag: etag@,
                target_folder: target_folder@,
            },
            HostStep::UpdateOnly(call) => HostStepV::UpdateOnly(call.deep_view()),
        }
    }
}

/// How the host lookup's outcome is answered: a missing host is created, a
/// mis-filed host is moved before any update, an in-place host is updated
/// only if its attributes differ, and any other lookup error is fatal.
pub open spec fn spec_host_plan(
    h: HostV,
    shown: Result<(ShowHostResponseV, Seq<char>), ClientErrorV>,
) -> Result<HostStepV, ClientErrorV> {
    match shown {
        Ok((resp, etag)) => match spec_new_path(h, resp) {
            Some(target) => Ok(
                HostStepV::MoveHost { host_name: h.host_name, etag: etag, target_folder: target },
            ),
            None => Ok(HostStepV::UpdateOnly(spec_update_call(h, resp, etag))),
        },
        Err(e) => if spec_is_status(e, 404) {
            Ok(HostStepV::CreateHost(spec_host_create_request(h)))
        } else {
            Err(e)
        },
    }
}

impl Host {
    /// The declared folder path, when the remote host sits elsewhere.
    pub fn new_path(&self, host_api: &ShowHostResponse) -> (r: Option<String>)
        ensures
            r.deep_view() == spec_new_path(self.deep_view(), host_api.deep_view()),
    {
        if !eq_string(&self.folder, &host_api.extensions.folder) {
            Some(self.folder.clone())
        } else {
            None
        }
    }

    /// Whether the declared attributes (default-filled) differ from the
    /// remote ones.
    pub fn needs_update(&self, host_api: &ShowHostResponse) -> (r: bool)
        ensures
            r == spec_host_needs_update(self.deep_view(), host_api.deep_view()),
    {
        let equal = match &self.attributes {
            Option::Some(a) => eq_host_attributes(a, &host_api.extensions.attributes),
            Option::None => {
                let d = HostAttributes::default();
                eq_host_attributes(&d, &host_api.extensions.attributes)
            },
        };
        !equal
    }

    /// The creation payload for this host.
    pub fn create_request(&self) -> (r: CreateHostRequest)
        ensures
            r.deep_view() == spec_host_create_request(self.deep_view()),
    {
        CreateHostRequest {
            folder: flatten_path(self.folder.as_str()),
            host_name: self.host_name.clone(),
            attributes: clone_opt_host_attributes(&self.attributes),
        }
    }

    /// The update call for this host against the remote state last read,
    /// carrying that read's token, or nothing when the attributes already
    /// match.
    pub fn update_call(&self, host_api: &ShowHostResponse, etag: String) -> (r: Option<
        HostUpdateCall,
    >)
        ensures
            r.deep_view() == spec_update_call(self.deep_view(), host_api.deep_view(), etag@),
    {
        if self.needs_update(host_api) {
            Some(
                HostUpdateCall {
                    host_name: self.host_name.clone(),
                    etag: etag,
                    request: UpdateHostRequest {
                        attributes: clone_opt_host_attributes(&self.attributes),
                    },
                },
            )
        } else {
            None
        }
    }

    /// Decides the first call that reconciles this host, from the outcome of
    /// looking it up remotely.
    ///
    /// When the host must move, the returned move carries the lookup's
    /// token, and the caller re-takes the update decision with
    /// [`Host::update_call`] on the state and token the move returns: the
    /// move invalidates the earlier token.
    pub fn apply_to_site(&self, shown: Result<(ShowHostResponse, String), ClientError>) -> (r:
        Result<HostStep, ClientError>)
        ensures
            deep_view_result(r) == spec_host_plan(self.deep_view(), deep_view_result(shown)),
    {
        match shown {
            Ok((resp, etag)) => match self.new_path(&resp) {
                Option::Some(target) => Ok(
                    HostStep::MoveHost {
                        host_name: self.host_name.clone(),
                        etag: etag,
                        target_folder: target,
                    },
                ),
                Option::None => Ok(HostStep::UpdateOnly(self.update_call(&resp, etag))),
            },
            Err(e) => {
                if e.is_status(404) {
                    Ok(HostStep::CreateHost(self.create_request()))
                } else {
                    Err(e)
                }
            },
        }
    }
}

/// What a host lookup shows after the planned calls have been performed,
/// under the model that the remote side stores a write exactly as sent,
/// default-fills an absent attribute bag, and reports the containing folder
/// in path form.
///
/// Whatever the first lookup's outcome was — created, moved, updated, or
/// any combination — the host ends up in the declared folder with the
/// declared (default-filled) attributes.
pub open spec fn spec_host_shown_after(
    h: HostV,
    shown: Result<(ShowHostResponseV, Seq<char>), ClientErrorV>,
) -> ShowHostResponseV {
    match shown {
        Ok((resp, etag)) => ShowHostResponseV {
            id: resp.id,
            title: resp.title,
            extensions: crate::api::hosts::HostOutputExtensionsV {
                folder: h.folder,
                attributes: spec_host_attributes_or_default(h.attributes),
                is_cluster: resp.extensions.is_cluster,
                is_offline: resp.extensions.is_offline,
                cluster_nodes: resp.extensions.cluster_nodes,
            },
        },
        Err(_) => ShowHostResponseV {
            id: None,
            title: h.host_name,
            extensions: crate::api::hosts::HostOutputExtensionsV {
                folder: h.folder,
                attributes: spec_host_attributes_or_default(h.attributes),
                is_cluster: false,
                is_offline: false,
                cluster_nodes: None,
            },
        },
    }
}

/// Replaying the host decision against the state its own calls produced
/// requires nothing further: when the first run got past the lookup, the
/// second run neither moves nor updates.
pub proof fn lemma_host_apply_idempotent(
    h: HostV,
    shown: Result<(ShowHostResponseV, Seq<char>), ClientErrorV>,
    etag2: Seq<char>,
)
    requires
        spec_host_plan(h, shown) is Ok,
    ensures
        spec_host_plan(h, Ok((spec_host_shown_after(h, shown), etag2))) == Ok::<
            HostStepV,
            ClientErrorV,
        >(HostStepV::UpdateOnly(None)),
{
}

/// When a host both sits in the wrong folder and carries stale attributes,
/// the move is decided first and carries the lookup's token; the update is
/// then decided on the move's result and carries the move's fresh token —
/// never the pre-move one when the two differ.
pub proof fn lemma_move_token_feeds_update(
    h: HostV,
    shown_resp: ShowHostResponseV,
    shown_etag: Seq<char>,
    moved_resp: ShowHostResponseV,
    moved_etag: Seq<char>,
)
    requires
        spec_new_path(h, shown_resp) is Some,
        spec_host_needs_update(h, moved_resp),
    ensures
        spec_host_plan(h, Ok((shown_resp, shown_etag))) == Ok::<HostStepV, ClientErrorV>(
            HostStepV::MoveHost {
                host_name: h.host_name,
                etag: shown_etag,
                target_folder: h.folder,
            },
        ),
        spec_update_call(h, moved_resp, moved_etag) matches Some(call) && call.etag == moved_etag,
        moved_etag != shown_etag ==> spec_update_call(h, moved_resp, moved_etag)->Some_0.etag
            != shown_etag,
{
}

} // verus!
