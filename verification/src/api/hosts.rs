//! Host wire model: what the remote side shows for a host and the payloads
//! of the create, update and move calls.

use vstd::prelude::*;
use crate::models::ContactGroups;
use crate::models::ContactGroupsV;
use crate::models::TagAddressFamily;
use crate::models::TagAgent;
use crate::models::TagCriticality;
use crate::models::TagNetworking;
use crate::models::TagPiggyback;
use crate::models::TagSnmpDs;
use crate::models::clone_opt_contact_groups;
use crate::models::clone_opt_labels;
use crate::models::clone_opt_string;
use crate::models::clone_opt_tag_address_family;
use crate::models::clone_opt_tag_agent;
use crate::models::clone_opt_tag_criticality;
use crate::models::clone_opt_tag_networking;
use crate::models::clone_opt_tag_piggyback;
use crate::models::clone_opt_tag_snmp_ds;
use crate::models::clone_opt_vec_string;
use crate::models::eq_opt_contact_groups;
use crate::models::eq_opt_labels;
use crate::models::eq_opt_string;
use crate::models::eq_opt_tag_address_family;
use crate::models::eq_opt_tag_agent;
use crate::models::eq_opt_tag_criticality;
use crate::models::eq_opt_tag_networking;
use crate::models::eq_opt_tag_piggyback;
use crate::models::eq_opt_tag_snmp_ds;
use crate::models::eq_opt_vec_string;
use crate::models::eq_string;

verus! {

#[derive(Clone, Copy, Debug, PartialEq, Eq, Hash, Structural)]
pub enum SnmpCommunityType {
    V1V2Community,
    V3AuthNoPrivacy,
    V3AuthPrivacy,
    V3NoAuthNoPrivacy,
}

impl DeepView for SnmpCommunityType {
    type V = SnmpCommunityType;

    open spec fn deep_view(&self) -> SnmpCommunityType {
        *self
    }
}

/// An SNMP credential attached to a host.
#[derive(Debug)]
pub struct SnmpCommunity {
    pub community_type: Option<SnmpCommunityType>,
    pub community: String,
}

pub struct SnmpCommunityV {
    pub community_type: Option<SnmpCommunityType>,
    pub community: Seq<char>,
}

impl DeepView for SnmpCommunity {
    type V = SnmpCommunityV;

    open spec fn deep_view(&self) -> SnmpCommunityV {
        SnmpCommunityV { community_type: self.community_type, community: self.community@ }
    }
}

impl Clone for SnmpCommunity {
    fn clone(&self) -> (r: Self)
        ensures
            r.deep_view() == self.deep_view(),
    {
        SnmpCommunity {
            community_type: match &self.community_type {
                Option::None => Option::None,
                Option::Some(t) => Option::Some(*t),
            },
            community: self.community.clone(),
        }
    }
}

pub fn eq_snmp_community(a: &SnmpCommunity, b: &SnmpCommunity) -> (r: bool)
    ensures
        r == (a.deep_view() == b.deep_view()),
{
    let types_equal = match (&a.community_type, &b.community_type) {
        (Option::None, Option::None) => true,
        (Option::Some(x), Option::Some(y)) => *x == *y,
        _ => false,
    };
    types_equal && eq_string(&a.community, &b.community)
}

pub fn eq_opt_snmp_community(a: &Option<SnmpCommunity>, b: &Option<SnmpCommunity>) -> (r: bool)
    ensures
        r == (a.deep_view() == b.deep_view()),
{
    match (a, b) {
        (Option::None, Option::None) => true,
        (Option::Some(x), Option::Some(y)) => eq_snmp_community(x, y),
        _ => false,
    }
}

pub fn clone_opt_snmp_community(v: &Option<SnmpCommunity>) -> (r: Option<SnmpCommunity>)
    ensures
        r.deep_view() == v.deep_view(),
{
    match v {
        Option::None => Option::None,
        Option::Some(x) => Option::Some(x.clone()),
    }
}

/// The attribute bag a host carries; absent fields fall back to the remote
/// side's defaults.
#[derive(Debug)]
pub struct HostAttributes {
    pub alias: Option<String>,
    pub site: Option<String>,
    pub contact_groups: Option<ContactGroups>,
    pub parents: Option<Vec<String>>,
    pub ip_address: Option<String>,
    pub ipv6_address: Option<String>,
    pub additional_ipv4_addresses: Option<Vec<String>>,
    pub additional_ipv6_addresses: Option<Vec<String>>,
    pub snmp_community: Option<SnmpCommunity>,
    pub labels: Option<Vec<(String, String)>>,
    pub management_snmp_community: Option<SnmpCommunity>,
    pub locked_attributes: Option<Vec<String>>,
    pub tag_criticality: Option<TagCriticality>,
    pub tag_networking: Option<TagNetworking>,
    pub tag_agent: Option<TagAgent>,
    pub tag_piggyback: Option<TagPiggyback>,
    pub tag_snmp_ds: Option<TagSnmpDs>,
    pub tag_address_family: Option<TagAddressFamily>,
}

pub struct HostAttributesV {
    pub alias: Option<Seq<char>>,
    pub site: Option<Seq<char>>,
    pub contact_groups: Option<ContactGroupsV>,
    pub parents: Option<Seq<Seq<char>>>,
    pub ip_address: Option<Seq<char>>,
    pub ipv6_address: Option<Seq<char>>,
    pub additional_ipv4_addresses: Option<Seq<Seq<char>>>,
    pub additional_ipv6_addresses: Option<Seq<Seq<char>>>,
    pub snmp_community: Option<SnmpCommunityV>,
    pub labels: Option<Seq<(Seq<char>, Seq<char>)>>,
    pub management_snmp_community: Option<SnmpCommunityV>,
    pub locked_attributes: Option<Seq<Seq<char>>>,
    pub tag_criticality: Option<TagCriticality>,
    pub tag_networking: Option<TagNetworking>,
    pub tag_agent: Option<TagAgent>,
    pub tag_piggyback: Option<TagPiggyback>,
    pub tag_snmp_ds: Option<TagSnmpDs>,
    pub tag_address_family: Option<TagAddressFamily>,
}

impl DeepView for HostAttributes {
    type V = HostAttributesV;

    open spec fn deep_view(&self) -> HostAttributesV {
        HostAttributesV {
            alias: self.alias.deep_view(),
            site: self.site.deep_view(),
            contact_groups: self.contact_groups.deep_view(),
            parents: self.parents.deep_view(),
            ip_address: self.ip_address.deep_view(),
            ipv6_address: self.ipv6_address.deep_view(),
            additional_ipv4_addresses: self.additional_ipv4_addresses.deep_view(),
            additional_ipv6_addresses: self.additional_ipv6_addresses.deep_view(),
            snmp_community: self.snmp_community.deep_view(),
            labels: self.labels.deep_view(),
            management_snmp_community: self.management_snmp_community.deep_view(),
            locked_attributes: self.locked_attributes.deep_view(),
            tag_criticality: self.tag_criticality,
            tag_networking: self.tag_networking,
            tag_agent: self.tag_agent,
            tag_piggyback: self.tag_piggyback,
            tag_snmp_ds: self.tag_snmp_ds,
            tag_address_family: self.tag_address_family,
        }
    }
}

/// The attribute bag with nothing set: what an absent bag stands for.
pub open spec fn spec_default_host_attributes() -> HostAttributesV {
    HostAttributesV {
        alias: None,
        site: None,
        contact_groups: None,
        parents: None,
        ip_address: None,
        ipv6_address: None,
        additional_ipv4_addresses: None,
        additional_ipv6_addresses: None,
        snmp_community: None,
        labels: None,
        management_snmp_community: None,
        locked_attributes: None,
        tag_criticality: None,
        tag_networking: None,
        tag_agent: None,
        tag_piggyback: None,
        tag_snmp_ds: None,
        tag_address_family: None,
    }
}

/// An optional bag, filled in with the default when absent.
pub open spec fn spec_host_attributes_or_default(a: Option<HostAttributesV>) -> HostAttributesV {
    match a {
        Some(x) => x,
        None => spec_default_host_attributes(),
    }
}

impl Default for HostAttributes {
    fn default() -> (r: Self)
        ensures
            r.deep_view() == spec_default_host_attributes(),
    {
        HostAttributes {
            alias: None,
            site: None,
            contact_groups: None,
            parents: None,
            ip_address: None,
            ipv6_address: None,
            additional_ipv4_addresses: None,
            additional_ipv6_addresses: None,
            snmp_community: None,
            labels: None,
            management_snmp_community: None,
            locked_attributes: None,
            tag_criticality: None,
            tag_networking: None,
            tag_agent: None,
            tag_piggyback: None,
            tag_snmp_ds: None,
            tag_address_family: None,
        }
    }
}

impl Clone for HostAttributes {
    fn clone(&self) -> (r: Self)
        ensures
            r.deep_view() == self.deep_view(),
    {
        HostAttributes {
            alias: clone_opt_string(&self.alias),
            site: clone_opt_string(&self.site),
            contact_groups: clone_opt_contact_groups(&self.contact_groups),
            parents: clone_opt_vec_string(&self.parents),
            ip_address: clone_opt_string(&self.ip_address),
            ipv6_address: clone_opt_string(&self.ipv6_address),
            additional_ipv4_addresses: clone_opt_vec_string(&self.additional_ipv4_addresses),
            additional_ipv6_addresses: clone_opt_vec_string(&self.additional_ipv6_addresses),
            snmp_community: clone_opt_snmp_community(&self.snmp_community),
            labels: clone_opt_labels(&self.labels),
            management_snmp_community: clone_opt_snmp_community(&self.management_snmp_community),
            locked_attributes: clone_opt_vec_string(&self.locked_attributes),
            tag_criticality: clone_opt_tag_criticality(&self.tag_criticality),
            tag_networking: clone_opt_tag_networking(&self.tag_networking),
            tag_agent: clone_opt_tag_agent(&self.tag_agent),
            tag_piggyback: clone_opt_tag_piggyback(&self.tag_piggyback),
            tag_snmp_ds: clone_opt_tag_snmp_ds(&self.tag_snmp_ds),
            tag_address_family: clone_opt_tag_address_family(&self.tag_address_family),
        }
    }
}

pub fn eq_host_attributes(a: &HostAttributes, b: &HostAttributes) -> (r: bool)
    ensures
        r == (a.deep_view() == b.deep_view()),
{
    eq_opt_string(&a.alias, &b.alias) && eq_opt_string(&a.site, &b.site)
        && eq_opt_contact_groups(&a.contact_groups, &b.contact_groups) && eq_opt_vec_string(
        &a.parents,
        &b.parents,
    ) && eq_opt_string(&a.ip_address, &b.ip_address) && eq_opt_string(
        &a.ipv6_address,
        &b.ipv6_address,
    ) && eq_opt_vec_string(&a.additional_ipv4_addresses, &b.additional_ipv4_addresses)
        && eq_opt_vec_string(&a.additional_ipv6_addresses, &b.additional_ipv6_addresses)
        && eq_opt_snmp_community(&a.snmp_community, &b.snmp_community) && eq_opt_labels(
        &a.labels,
        &b.labels,
    ) && eq_opt_snmp_community(&a.management_snmp_community, &b.management_snmp_community)
        && eq_opt_vec_string(&a.locked_attributes, &b.locked_attributes) && eq_opt_tag_criticality(
        &a.tag_criticality,
        &b.tag_criticality,
    ) && eq_opt_tag_networking(&a.tag_networking, &b.tag_networking) && eq_opt_tag_agent(
        &a.tag_agent,
        &b.tag_agent,
    ) && eq_opt_tag_piggyback(&a.tag_piggyback, &b.tag_piggyback) && eq_opt_tag_snmp_ds(
        &a.tag_snmp_ds,
        &b.tag_snmp_ds,
    ) && eq_opt_tag_address_family(&a.tag_address_family, &b.tag_address_family)
}

pub fn clone_opt_host_attributes(v: &Option<HostAttributes>) -> (r: Option<HostAttributes>)
    ensures
        r.deep_view() == v.deep_view(),
{
    match v {
        Option::None => Option::None,
        Option::Some(x) => Option::Some(x.clone()),
    }
}

/// What a host lookup returns beyond its title.
#[derive(Debug)]
pub struct HostOutputExtensions {
    pub folder: String,
    pub attributes: HostAttributes,
    pub is_cluster: bool,
    pub is_offline: bool,
    pub cluster_nodes: Option<Vec<String>>,
}

pub struct HostOutputExtensionsV {
    pub folder: Seq<char>,
    pub attributes: HostAttributesV,
    pub is_cluster: bool,
    pub is_offline: bool,
    pub cluster_nodes: Option<Seq<Seq<char>>>,
}

impl DeepView for HostOutputExtensions {
    type V = HostOutputExtensionsV;

    open spec fn deep_view(&self) -> HostOutputExtensionsV {
        HostOutputExtensionsV {
            folder: self.folder@,
            attributes: self.attributes.deep_view(),
            is_cluster: self.is_cluster,
            is_offline: self.is_offline,
            cluster_nodes: self.cluster_nodes.deep_view(),
        }
    }
}

/// The remote representation of a host, as a lookup shows it.
#[derive(Debug)]
pub struct ShowHostResponse {
    pub id: Option<String>,
    pub title: String,
    pub extensions: HostOutputExtensions,
}

pub struct ShowHostResponseV {
    pub id: Option<Seq<char>>,
    pub title: Seq<char>,
    pub extensions: HostOutputExtensionsV,
}

impl DeepView for ShowHostResponse {
    type V = ShowHostResponseV;

    open spec fn deep_view(&self) -> ShowHostResponseV {
        ShowHostResponseV {
            id: self.id.deep_view(),
            title: self.title@,
            extensions: self.extensions.deep_view(),
        }
    }
}

/// The payload of a host creation call.
#[derive(Debug)]
pub struct CreateHostRequest {
    pub folder: String,
    pub host_name: String,
    pub attributes: Option<HostAttributes>,
}

pub struct CreateHostRequestV {
    pub folder: Seq<char>,
    pub host_name: Seq<char>,
    pub attributes: Option<HostAttributesV>,
}

impl DeepView for CreateHostRequest {
    type V = CreateHostRequestV;

    open spec fn deep_view(&self) -> CreateHostRequestV {
        CreateHostRequestV {
            folder: self.folder@,
            host_name: self.host_name@,
            attributes: self.attributes.deep_view(),
        }
    }
}

/// The payload of a host update call.
#[derive(Debug)]
pub struct UpdateHostRequest {
    pub attributes: Option<HostAttributes>,
}

pub struct UpdateHostRequestV {
    pub attributes: Option<HostAttributesV>,
}

impl DeepView for UpdateHostRequest {
    type V = UpdateHostRequestV;

    open spec fn deep_view(&self) -> UpdateHostRequestV {
        UpdateHostRequestV { attributes: self.attributes.deep_view() }
    }
}

/// The payload of a host move call.
#[derive(Debug)]
pub struct MoveToFolderRequest {
    pub target_folder: String,
}

pub struct MoveToFolderRequestV {
    pub target_folder: Seq<char>,
}

impl DeepView for MoveToFolderRequest {
    type V = MoveToFolderRequestV;

    open spec fn deep_view(&self) -> MoveToFolderRequestV {
        MoveToFolderRequestV { target_folder: self.target_folder@ }
    }
}

} // verus!
