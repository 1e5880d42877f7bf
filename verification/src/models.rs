//! Shared wire-model values: the built-in tag classifications and the
//! contact-group bag, together with the comparison helpers the
//! reconciliation decisions are stated over.
//!
//! Every comparison is specified against `deep_view`, so a contract never
//! depends on where a string was allocated, only on its characters.

use vstd::prelude::*;

verus! {

/// A vector's deep view has one entry per element.
pub broadcast proof fn lemma_vec_deep_view_len<T: DeepView>(v: Vec<T>)
    ensures
        #[trigger] v.deep_view().len() == v@.len(),
{
}

/// Indexing a vector's deep view reads the element's own deep view.
pub broadcast proof fn lemma_vec_deep_view_index<T: DeepView>(v: Vec<T>, i: int)
    requires
        0 <= i < v@.len(),
    ensures
        #[trigger] v.deep_view()[i] == v@[i].deep_view(),
{
}

#[derive(Clone, Copy, Debug, PartialEq, Eq, Hash, Structural)]
pub enum TagCriticality {
    Prod,
    Critical,
    Test,
    Offline,
}

#[derive(Clone, Copy, Debug, PartialEq, Eq, Hash, Structural)]
pub enum TagNetworking {
    Lan,
    Wan,
    Dmz,
}

#[derive(Clone, Copy, Debug, PartialEq, Eq, Hash, Structural)]
pub enum TagAgent {
    CmkAgent,
    AllAgents,
    SpecialAgents,
    NoAgent,
}

#[derive(Clone, Copy, Debug, PartialEq, Eq, Hash, Structural)]
pub enum TagPiggyback {
    AutoPiggyback,
    Piggyback,
    NoPiggyback,
}

#[derive(Clone, Copy, Debug, PartialEq, Eq, Hash, Structural)]
pub enum TagSnmpDs {
    NoSnmp,
    SnmpV2,
    SnmpV1,
}

#[derive(Clone, Copy, Debug, PartialEq, Eq, Hash, Structural)]
pub enum TagAddressFamily {
    IpV4Only,
    IpV6Only,
    IpV4v6,
    NoIp,
}

impl DeepView for TagCriticality {
    type V = TagCriticality;

    open spec fn deep_view(&self) -> TagCriticality {
        *self
    }
}

impl DeepView for TagNetworking {
    type V = TagNetworking;

    open spec fn deep_view(&self) -> TagNetworking {
        *self
    }
}

impl DeepView for TagAgent {
    type V = TagAgent;

    open spec fn deep_view(&self) -> TagAgent {
        *self
    }
}

impl DeepView for TagPiggyback {
    type V = TagPiggyback;

    open spec fn deep_view(&self) -> TagPiggyback {
        *self
    }
}

impl DeepView for TagSnmpDs {
    type V = TagSnmpDs;

    open spec fn deep_view(&self) -> TagSnmpDs {
        *self
    }
}

impl DeepView for TagAddressFamily {
    type V = TagAddressFamily;

    open spec fn deep_view(&self) -> TagAddressFamily {
        *self
    }
}

/// Contact-group assignment carried by folder and host attributes.
#[derive(Debug)]
pub struct ContactGroups {
    pub groups: Vec<String>,
    pub recurse_perms: Option<bool>,
    pub recurse_use: Option<bool>,
    pub use_: Option<bool>,
    pub use_for_services: Option<bool>,
}

pub struct ContactGroupsV {
    pub groups: Seq<Seq<char>>,
    pub recurse_perms: Option<bool>,
    pub recurse_use: Option<bool>,
    pub use_: Option<bool>,
    pub use_for_services: Option<bool>,
}

impl DeepView for ContactGroups {
    type V = ContactGroupsV;

    open spec fn deep_view(&self) -> ContactGroupsV {
        ContactGroupsV {
            groups: self.groups.deep_view(),
            recurse_perms: self.recurse_perms,
            recurse_use: self.recurse_use,
            use_: self.use_,
            use_for_services: self.use_for_services,
        }
    }
}

pub fn eq_opt_bool(a: &Option<bool>, b: &Option<bool>) -> (r: bool)
    ensures
        r == (a.deep_view() == b.deep_view()),
{
    match (a, b) {
        (Option::None, Option::None) => true,
        (Option::Some(x), Option::Some(y)) => *x == *y,
        _ => false,
    }
}

pub fn eq_string(a: &String, b: &String) -> (r: bool)
    ensures
        r == (a@ == b@),
{
    a.eq(b)
}

pub fn eq_opt_string(a: &Option<String>, b: &Option<String>) -> (r: bool)
    ensures
        r == (a.deep_view() == b.deep_view()),
{
    match (a, b) {
        (Option::None, Option::None) => true,
        (Option::Some(x), Option::Some(y)) => eq_string(x, y),
        _ => false,
    }
}

pub fn eq_vec_string(a: &Vec<String>, b: &Vec<String>) -> (r: bool)
    ensures
        r == (a.deep_view() == b.deep_view()),
{
    proof {
        assert(a.deep_view().len() == a@.len());
        assert(b.deep_view().len() == b@.len());
    }
    if a.len() != b.len() {
        return false;
    }
    let n = a.len();
    let mut i: usize = 0;
    while i < n
        invariant
            n == a.len() == b.len(),
            i <= n,
            forall|k: int| 0 <= k < i ==> a.deep_view()[k] == b.deep_view()[k],
        decreases n - i,
    {
        if !eq_string(&a[i], &b[i]) {
            proof {
                assert(a.deep_view()[i as int] == a@[i as int]@);
                assert(b.deep_view()[i as int] == b@[i as int]@);
            }
            return false;
        }
        i = i + 1;
    }
    proof {
        assert(a.deep_view() =~= b.deep_view());
    }
    true
}

pub fn eq_opt_vec_string(a: &Option<Vec<String>>, b: &Option<Vec<String>>) -> (r: bool)
    ensures
        r == (a.deep_view() == b.deep_view()),
{
    match (a, b) {
        (Option::None, Option::None) => true,
        (Option::Some(x), Option::Some(y)) => eq_vec_string(x, y),
        _ => false,
    }
}

/// Labels are kept as key/value pairs in document order and compared
/// position by position.
pub fn eq_labels(a: &Vec<(String, String)>, b: &Vec<(String, String)>) -> (r: bool)
    ensures
        r == (a.deep_view() == b.deep_view()),
{
    proof {
        assert(a.deep_view().len() == a@.len());
        assert(b.deep_view().len() == b@.len());
    }
    if a.len() != b.len() {
        return false;
    }
    let n = a.len();
    let mut i: usize = 0;
    while i < n
        invariant
            n == a.len() == b.len(),
            i <= n,
            forall|k: int| 0 <= k < i ==> a.deep_view()[k] == b.deep_view()[k],
        decreases n - i,
    {
        if !eq_string(&a[i].0, &b[i].0) || !eq_string(&a[i].1, &b[i].1) {
            proof {
                assert(a.deep_view()[i as int] == (a@[i as int].0@, a@[i as int].1@));
                assert(b.deep_view()[i as int] == (b@[i as int].0@, b@[i as int].1@));
            }
            return false;
        }
        i = i + 1;
    }
    proof {
        assert(a.deep_view() =~= b.deep_view());
    }
    true
}

pub fn eq_opt_labels(a: &Option<Vec<(String, String)>>, b: &Option<Vec<(String, String)>>) -> (r:
    bool)
    ensures
        r == (a.deep_view() == b.deep_view()),
{
    match (a, b) {
        (Option::None, Option::None) => true,
        (Option::Some(x), Option::Some(y)) => eq_labels(x, y),
        _ => false,
    }
}

pub fn eq_contact_groups(a: &ContactGroups, b: &ContactGroups) -> (r: bool)
    ensures
        r == (a.deep_view() == b.deep_view()),
{
    eq_vec_string(&a.groups, &b.groups) && eq_opt_bool(&a.recurse_perms, &b.recurse_perms)
        && eq_opt_bool(&a.recurse_use, &b.recurse_use) && eq_opt_bool(&a.use_, &b.use_)
        && eq_opt_bool(&a.use_for_services, &b.use_for_services)
}

pub fn eq_opt_contact_groups(a: &Option<ContactGroups>, b: &Option<ContactGroups>) -> (r: bool)
    ensures
        r == (a.deep_view() == b.deep_view()),
{
    match (a, b) {
        (Option::None, Option::None) => true,
        (Option::Some(x), Option::Some(y)) => eq_contact_groups(x, y),
        _ => false,
    }
}

pub fn eq_opt_tag_criticality(a: &Option<TagCriticality>, b: &Option<TagCriticality>) -> (r: bool)
    ensures
        r == (a.deep_view() == b.deep_view()),
{
    match (a, b) {
        (Option::None, Option::None) => true,
        (Option::Some(x), Option::Some(y)) => *x == *y,
        _ => false,
    }
}

pub fn eq_opt_tag_networking(a: &Option<TagNetworking>, b: &Option<TagNetworking>) -> (r: bool)
    ensures
        r == (a.deep_view() == b.deep_view()),
{
    match (a, b) {
        (Option::None, Option::None) => true,
        (Option::Some(x), Option::Some(y)) => *x == *y,
        _ => false,
    }
}

pub fn eq_opt_tag_agent(a: &Option<TagAgent>, b: &Option<TagAgent>) -> (r: bool)
    ensures
        r == (a.deep_view() == b.deep_view()),
{
    match (a, b) {
        (Option::None, Option::None) => true,
        (Option::Some(x), Option::Some(y)) => *x == *y,
        _ => false,
    }
}

pub fn eq_opt_tag_piggyback(a: &Option<TagPiggyback>, b: &Option<TagPiggyback>) -> (r: bool)
    ensures
        r == (a.deep_view() == b.deep_view()),
{
    match (a, b) {
        (Option::None, Option::None) => true,
        (Option::Some(x), Option::Some(y)) => *x == *y,
        _ => false,
    }
}

pub fn eq_opt_tag_snmp_ds(a: &Option<TagSnmpDs>, b: &Option<TagSnmpDs>) -> (r: bool)
    ensures
        r == (a.deep_view() == b.deep_view()),
{
    match (a, b) {
        (Option::None, Option::None) => true,
        (Option::Some(x), Option::Some(y)) => *x == *y,
        _ => false,
    }
}

pub fn eq_opt_tag_address_family(a: &Option<TagAddressFamily>, b: &Option<TagAddressFamily>) -> (r:
    bool)
    ensures
        r == (a.deep_view() == b.deep_view()),
{
    match (a, b) {
        (Option::None, Option::None) => true,
        (Option::Some(x), Option::Some(y)) => *x == *y,
        _ => false,
    }
}

/// Clones a string vector; the result reads back character for character.
pub fn clone_vec_string(v: &Vec<String>) -> (r: Vec<String>)
    ensures
        r.deep_view() == v.deep_view(),
{
    let mut out: Vec<String> = Vec::new();
    let n = v.len();
    let mut i: usize = 0;
    while i < n
        invariant
            n == v.len(),
            i <= n,
            out.len() == i,
            forall|k: int| 0 <= k < i ==> out.deep_view()[k] == v.deep_view()[k],
        decreases n - i,
    {
        out.push(v[i].clone());
        i = i + 1;
    }
    proof {
        assert(out.deep_view() =~= v.deep_view());
    }
    out
}

pub fn clone_opt_string(v: &Option<String>) -> (r: Option<String>)
    ensures
        r.deep_view() == v.deep_view(),
{
    match v {
        Option::None => Option::None,
        Option::Some(x) => Option::Some(x.clone()),
    }
}

pub fn clone_opt_bool(v: &Option<bool>) -> (r: Option<bool>)
    ensures
        r == *v,
{
    match v {
        Option::None => Option::None,
        Option::Some(x) => Option::Some(*x),
    }
}

pub fn clone_opt_vec_string(v: &Option<Vec<String>>) -> (r: Option<Vec<String>>)
    ensures
        r.deep_view() == v.deep_view(),
{
    match v {
        Option::None => Option::None,
        Option::Some(x) => Option::Some(clone_vec_string(x)),
    }
}

pub fn clone_labels(v: &Vec<(String, String)>) -> (r: Vec<(String, String)>)
    ensures
        r.deep_view() == v.deep_view(),
{
    let mut out: Vec<(String, String)> = Vec::new();
    let n = v.len();
    let mut i: usize = 0;
    while i < n
        invariant
            n == v.len(),
            i <= n,
            out.len() == i,
            forall|k: int| 0 <= k < i ==> out.deep_view()[k] == v.deep_view()[k],
        decreases n - i,
    {
        out.push((v[i].0.clone(), v[i].1.clone()));
        i = i + 1;
    }
    proof {
        assert(out.deep_view() =~= v.deep_view());
    }
    out
}

pub fn clone_opt_labels(v: &Option<Vec<(String, String)>>) -> (r: Option<Vec<(String, String)>>)
    ensures
        r.deep_view() == v.deep_view(),
{
    match v {
        Option::None => Option::None,
        Option::Some(x) => Option::Some(clone_labels(x)),
    }
}

impl Clone for ContactGroups {
    fn clone(&self) -> (r: Self)
        ensures
            r.deep_view() == self.deep_view(),
    {
        ContactGroups {
            groups: clone_vec_string(&self.groups),
            recurse_perms: clone_opt_bool(&self.recurse_perms),
            recurse_use: clone_opt_bool(&self.recurse_use),
            use_: clone_opt_bool(&self.use_),
            use_for_services: clone_opt_bool(&self.use_for_services),
        }
    }
}

pub fn clone_opt_contact_groups(v: &Option<ContactGroups>) -> (r: Option<ContactGroups>)
    ensures
        r.deep_view() == v.deep_view(),
{
    match v {
        Option::None => Option::None,
        Option::Some(x) => Option::Some(x.clone()),
    }
}

pub fn clone_opt_tag_criticality(v: &Option<TagCriticality>) -> (r: Option<TagCriticality>)
    ensures
        r == *v,
{
    match v {
        Option::None => Option::None,
        Option::Some(x) => Option::Some(*x),
    }
}

pub fn clone_opt_tag_networking(v: &Option<TagNetworking>) -> (r: Option<TagNetworking>)
    ensures
        r == *v,
{
    match v {
        Option::None => Option::None,
        Option::Some(x) => Option::Some(*x),
    }
}

pub fn clone_opt_tag_agent(v: &Option<TagAgent>) -> (r: Option<TagAgent>)
    ensures
        r == *v,
{
    match v {
        Option::None => Option::None,
        Option::Some(x) => Option::Some(*x),
    }
}

pub fn clone_opt_tag_piggyback(v: &Option<TagPiggyback>) -> (r: Option<TagPiggyback>)
    ensures
        r == *v,
{
    match v {
        Option::None => Option::None,
        Option::Some(x) => Option::Some(*x),
    }
}

pub fn clone_opt_tag_snmp_ds(v: &Option<TagSnmpDs>) -> (r: Option<TagSnmpDs>)
    ensures
        r == *v,
{
    match v {
        Option::None => Option::None,
        Option::Some(x) => Option::Some(*x),
    }
}

pub fn clone_opt_tag_address_family(v: &Option<TagAddressFamily>) -> (r: Option<TagAddressFamily>)
    ensures
        r == *v,
{
    match v {
        Option::None => Option::None,
        Option::Some(x) => Option::Some(*x),
    }
}

} // verus!
