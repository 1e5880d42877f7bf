//! Folder wire model: what the remote side shows for a folder and the
//! payloads of the create and update calls.

use vstd::prelude::*;
use crate::models::ContactGroups;
use crate::models::ContactGroupsV;
use crate::models::TagAddressFamily;
use crate::models::TagAgent;
use crate::models::TagCriticality;
use crate::models::TagNetworking;
use crate::models::TagPiggyback;
use crate::models::TagSnmpDs;
use crate::models::clone_opt_contact_groups;
use crate::models::clone_opt_labels;
use crate::models::clone_opt_string;
use crate::models::clone_opt_tag_address_family;
use crate::models::clone_opt_tag_agent;
use crate::models::clone_opt_tag_criticality;
use crate::models::clone_opt_tag_networking;
use crate::models::clone_opt_tag_piggyback;
use crate::models::clone_opt_tag_snmp_ds;
use crate::models::clone_opt_vec_string;
use crate::models::eq_opt_contact_groups;
use crate::models::eq_opt_labels;
use crate::models::eq_opt_string;
use crate::models::eq_opt_tag_address_family;
use crate::models::eq_opt_tag_agent;
use crate::models::eq_opt_tag_criticality;
use crate::models::eq_opt_tag_networking;
use crate::models::eq_opt_tag_piggyback;
use crate::models::eq_opt_tag_snmp_ds;
use crate::models::eq_opt_vec_string;

verus! {

/// The attribute bag a folder carries; every field is optional and absent
/// fields are meaningful (they fall back to the remote side's defaults).
#[derive(Debug)]
pub struct FolderAttributes {
    pub site: Option<String>,
    pub contact_groups: Option<ContactGroups>,
    pub parents: Option<Vec<String>>,
    pub labels: Option<Vec<(String, String)>>,
    pub tag_criticality: Option<TagCriticality>,
    pub tag_networking: Option<TagNetworking>,
    pub tag_agent: Option<TagAgent>,
    pub tag_piggyback: Option<TagPiggyback>,
    pub tag_snmp_ds: Option<TagSnmpDs>,
    pub tag_address_family: Option<TagAddressFamily>,
}

pub struct FolderAttributesV {
    pub site: Option<Seq<char>>,
    pub contact_groups: Option<ContactGroupsV>,
    pub parents: Option<Seq<Seq<char>>>,
    pub labels: Option<Seq<(Seq<char>, Seq<char>)>>,
    pub tag_criticality: Option<TagCriticality>,
    pub tag_networking: Option<TagNetworking>,
    pub tag_agent: Option<TagAgent>,
    pub tag_piggyback: Option<TagPiggyback>,
    pub tag_snmp_ds: Option<TagSnmpDs>,
    pub tag_address_family: Option<TagAddressFamily>,
}

impl DeepView for FolderAttributes {
    type V = FolderAttributesV;

    open spec fn deep_view(&self) -> FolderAttributesV {
        FolderAttributesV {
            site: self.site.deep_view(),
            contact_groups: self.contact_groups.deep_view(),
            parents: self.parents.deep_view(),
            labels: self.labels.deep_view(),
            tag_criticality: self.tag_criticality,
            tag_networking: self.tag_networking,
            tag_agent: self.tag_agent,
            tag_piggyback: self.tag_piggyback,
            tag_snmp_ds: self.tag_snmp_ds,
            tag_address_family: self.tag_address_family,
        }
    }
}

/// The attribute bag with nothing set: what an absent bag stands for.
pub open spec fn spec_default_folder_attributes() -> FolderAttributesV {
    FolderAttributesV {
        site: None,
        contact_groups: None,
        parents: None,
        labels: None,
        tag_criticality: None,
        tag_networking: None,
        tag_agent: None,
        tag_piggyback: None,
        tag_snmp_ds: None,
        tag_address_family: None,
    }
}

/// An optional bag, filled in with the default when absent.
pub open spec fn spec_folder_attributes_or_default(a: Option<FolderAttributesV>) -> (
    FolderAttributesV) {
    match a {
        Some(x) => x,
        None => spec_default_folder_attributes(),
    }
}

impl Default for FolderAttributes {
    fn default() -> (r: Self)
        ensures
            r.deep_view() == spec_default_folder_attributes(),
    {
        FolderAttributes {
            site: None,
            contact_groups: None,
            parents: None,
            labels: None,
            tag_criticality: None,
            tag_networking: None,
            tag_agent: None,
            tag_piggyback: None,
            tag_snmp_ds: None,
            tag_address_family: None,
        }
    }
}

impl Clone for FolderAttributes {
    fn clone(&self) -> (r: Self)
        ensures
            r.deep_view() == self.deep_view(),
    {
        FolderAttributes {
            site: clone_opt_string(&self.site),
            contact_groups: clone_opt_contact_groups(&self.contact_groups),
            parents: clone_opt_vec_string(&self.parents),
            labels: clone_opt_labels(&self.labels),
            tag_criticality: clone_opt_tag_criticality(&self.tag_criticality),
            tag_networking: clone_opt_tag_networking(&self.tag_networking),
            tag_agent: clone_opt_tag_agent(&self.tag_agent),
            tag_piggyback: clone_opt_tag_piggyback(&self.tag_piggyback),
            tag_snmp_ds: clone_opt_tag_snmp_ds(&self.tag_snmp_ds),
            tag_address_family: clone_opt_tag_address_family(&self.tag_address_family),
        }
    }
}

pub fn eq_folder_attributes(a: &FolderAttributes, b: &FolderAttributes) -> (r: bool)
    ensures
        r == (a.deep_view() == b.deep_view()),
{
    eq_opt_string(&a.site, &b.site) && eq_opt_contact_groups(&a.contact_groups, &b.contact_groups)
        && eq_opt_vec_string(&a.parents, &b.parents) && eq_opt_labels(&a.labels, &b.labels)
        && eq_opt_tag_criticality(&a.tag_criticality, &b.tag_criticality)
        && eq_opt_tag_networking(&a.tag_networking, &b.tag_networking) && eq_opt_tag_agent(
        &a.tag_agent,
        &b.tag_agent,
    ) && eq_opt_tag_piggyback(&a.tag_piggyback, &b.tag_piggyback) && eq_opt_tag_snmp_ds(
        &a.tag_snmp_ds,
        &b.tag_snmp_ds,
    ) && eq_opt_tag_address_family(&a.tag_address_family, &b.tag_address_family)
}

pub fn clone_opt_folder_attributes(v: &Option<FolderAttributes>) -> (r: Option<FolderAttributes>)
    ensures
        r.deep_view() == v.deep_view(),
{
    match v {
        Option::None => Option::None,
        Option::Some(x) => Option::Some(x.clone()),
    }
}

/// What a folder lookup returns beyond its title.
#[derive(Debug)]
pub struct FolderOutputExtensions {
    pub path: String,
    pub attributes: FolderAttributes,
}

pub struct FolderOutputExtensionsV {
    pub path: Seq<char>,
    pub attributes: FolderAttributesV,
}

impl DeepView for FolderOutputExtensions {
    type V = FolderOutputExtensionsV;

    open spec fn deep_view(&self) -> FolderOutputExtensionsV {
        FolderOutputExtensionsV { path: self.path@, attributes: self.attributes.deep_view() }
    }
}

/// The remote representation of a folder, as a lookup shows it.
#[derive(Debug)]
pub struct ShowFolderResponse {
    pub id: Option<String>,
    pub title: String,
    pub extensions: FolderOutputExtensions,
}

pub struct ShowFolderResponseV {
    pub id: Option<Seq<char>>,
    pub title: Seq<char>,
    pub extensions: FolderOutputExtensionsV,
}

impl DeepView for ShowFolderResponse {
    type V = ShowFolderResponseV;

    open spec fn deep_view(&self) -> ShowFolderResponseV {
        ShowFolderResponseV {
            id: self.id.deep_view(),
            title: self.title@,
            extensions: self.extensions.deep_view(),
        }
    }
}

/// The payload of a folder creation call.
#[derive(Debug)]
pub struct CreateFolderRequest {
    pub name: String,
    pub title: String,
    pub parent: String,
    pub attributes: Option<FolderAttributes>,
}

pub struct CreateFolderRequestV {
    pub name: Seq<char>,
    pub title: Seq<char>,
    pub parent: Seq<char>,
    pub attributes: Option<FolderAttributesV>,
}

impl DeepView for CreateFolderRequest {
    type V = CreateFolderRequestV;

    open spec fn deep_view(&self) -> CreateFolderRequestV {
        CreateFolderRequestV {
            name: self.name@,
            title: self.title@,
            parent: self.parent@,
            attributes: self.attributes.deep_view(),
        }
    }
}

/// The payload of a folder update call.
#[derive(Debug)]
pub struct UpdateFolderRequest {
    pub title: String,
    pub attributes: Option<FolderAttributes>,
}

pub struct UpdateFolderRequestV {
    pub title: Seq<char>,
    pub attributes: Option<FolderAttributesV>,
}

impl DeepView for UpdateFolderRequest {
    type V = UpdateFolderRequestV;

    open spec fn deep_view(&self) -> UpdateFolderRequestV {
        UpdateFolderRequestV { title: self.title@, attributes: self.attributes.deep_view() }
    }
}

/// A folder change as it appears inside bulk-update payloads.
#[derive(Debug)]
pub struct FolderUpdate {
    pub title: String,
    pub attributes: Option<FolderAttributes>,
}

} // verus!
