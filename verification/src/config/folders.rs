//! Declared folders: the configuration tree itself, its population pass,
//! and the folder reconciliation decisions.
//!
//! The tree owns its children outright; every back-reference a host, rule
//! set or rule carries is a plain key — the owning folder's path or the
//! owning rule set's name — assigned once by the population pass, so that
//! after population a back-reference is never anything but a lookup value
//! that the pass itself wrote.

use vstd::prelude::*;
use crate::api::ClientError;
use crate::api::ClientErrorV;
use crate::api::deep_view_result;
use crate::api::spec_is_status;
use crate::api::folders::CreateFolderRequest;
use crate::api::folders::CreateFolderRequestV;
use crate::api::folders::FolderAttributes;
use crate::api::folders::FolderAttributesV;
use crate::api::folders::ShowFolderResponse;
use crate::api::folders::ShowFolderResponseV;
use crate::api::folders::UpdateFolderRequest;
use crate::api::folders::UpdateFolderRequestV;
use crate::api::folders::clone_opt_folder_attributes;
use crate::api::folders::eq_folder_attributes;
use crate::api::folders::spec_folder_attributes_or_default;
use crate::config::hosts::Host;
use crate::config::hosts::HostV;
use crate::config::rulesets::Rule;
use crate::config::rulesets::Ruleset;
use crate::config::rulesets::RulesetV;
use crate::config::rulesets::spec_marker;
use crate::config::rulesets::spec_populated_rule;
use crate::config::rulesets::spec_ruleset_normalized;
use crate::models::eq_string;
use crate::strutil::child_path;
use crate::strutil::flatten_path;
use crate::strutil::last_segment;
use crate::strutil::parent_path;
use crate::strutil::spec_child_path;
use crate::strutil::spec_flatten;
use crate::strutil::spec_last_segment;
use crate::strutil::spec_parent_of;
use vstd::string::StringExecFns;

verus! {

broadcast use crate::models::lemma_vec_deep_view_len, crate::models::lemma_vec_deep_view_index;

/// One folder of the configuration tree, with everything it contains.
///
/// `path` is canonical for the folder's position: `/` at the root, the
/// parent's path plus the child's key below it.  It is assigned by
/// [`populate_folder`] and meaningless before that.
#[derive(Debug)]
pub struct Folder {
    pub path: String,
    pub title: String,
    pub attributes: Option<FolderAttributes>,
    pub rulesets: Option<Vec<Ruleset>>,
    pub hosts: Option<Vec<Host>>,
    /// Child folders, keyed by the name segment under which they live.
    pub folders: Vec<(String, Folder)>,
}

pub struct FolderV {
    pub path: Seq<char>,
    pub title: Seq<char>,
    pub attributes: Option<FolderAttributesV>,
    pub rulesets: Option<Seq<RulesetV>>,
    pub hosts: Option<Seq<HostV>>,
    pub folders: Seq<(Seq<char>, FolderV)>,
}

/// Stepping from a folder to one of its children goes down the tree: the
/// ordering that grounds every recursion over the structure.
pub proof fn lemma_child_decreases(f: Folder, i: int)
    requires
        0 <= i < f.folders@.len(),
    ensures
        decreases_to!(f => f.folders@[i].1),
{
    assert(decreases_to!(f => f.folders));
    assert(decreases_to!(f.folders => f.folders[i]));
    assert(decreases_to!(f.folders[i] => f.folders[i].1));
}

/// The same ordering on the abstract tree.
proof fn lemma_child_view_decreases(f: FolderV, i: int)
    requires
        0 <= i < f.folders.len(),
    ensures
        decreases_to!(f => f.folders[i].1),
{
    assert(decreases_to!(f => f.folders));
    assert(decreases_to!(f.folders => f.folders[i]));
    assert(decreases_to!(f.folders[i] => f.folders[i].1));
}

#[via_fn]
proof fn folder_deep_view_decreases(f: Folder) {
    assert forall|i: int| 0 <= i < f.folders@.len() implies decreases_to!(
        f => f.folders@[i].1
    ) by {
        lemma_child_decreases(f, i);
    }
}

/// The abstract value of a folder subtree.
///
/// The range test inside the children closure keeps the recursion on
/// in-bounds elements only, where the child is below `f` in the structural
/// ordering; out-of-range positions (which no sequence reading ever
/// touches) take the arbitrary out-of-range element with its subtree cut
/// off.
pub open spec fn folder_deep_view(f: Folder) -> FolderV
    decreases f,
    via folder_deep_view_decreases
{
    FolderV {
        path: f.path@,
        title: f.title@,
        attributes: f.attributes.deep_view(),
        rulesets: f.rulesets.deep_view(),
        hosts: f.hosts.deep_view(),
        folders: Seq::new(
            f.folders@.len(),
            |i: int|
                if 0 <= i < f.folders@.len() {
                    (f.folders@[i].0@, folder_deep_view(f.folders@[i].1))
                } else {
                    (f.folders@[i].0@, FolderV {
                        path: f.folders@[i].1.path@,
                        title: f.folders@[i].1.title@,
                        attributes: f.folders@[i].1.attributes.deep_view(),
                        rulesets: f.folders@[i].1.rulesets.deep_view(),
                        hosts: f.folders@[i].1.hosts.deep_view(),
                        folders: Seq::empty(),
                    })
                },
        ),
    }
}

impl DeepView for Folder {
    type V = FolderV;

    open spec fn deep_view(&self) -> FolderV {
        folder_deep_view(*self)
    }
}

/// The whole declared tree, rooted at `/`.
#[derive(Debug)]
pub struct Folders {
    pub root_folder: Folder,
}

pub struct FoldersV {
    pub root_folder: FolderV,
}

impl DeepView for Folders {
    type V = FoldersV;

    open spec fn deep_view(&self) -> FoldersV {
        FoldersV { root_folder: self.root_folder.deep_view() }
    }
}

/// A rule set after population: owner path wired, every rule wired to the
/// set's name and its comment normalized.
pub open spec fn spec_populate_ruleset(folder_path: Seq<char>, rs: RulesetV) -> RulesetV {
    RulesetV {
        name: rs.name,
        folder: folder_path,
        rules: Seq::new(rs.rules.len(), |i: int| spec_populated_rule(rs.rules[i], rs.name)),
    }
}

#[via_fn]
proof fn spec_populate_decreases(path: Seq<char>, f: FolderV) {
    assert forall|i: int| 0 <= i < f.folders.len() implies decreases_to!(
        f => f.folders[i].1
    ) by {
        lemma_child_view_decreases(f, i);
    }
}

/// The population pass: assigns each folder its path top-down, wires every
/// host and rule set to its folder's path and every rule to its set's name,
/// and normalizes every rule comment with its marker.
///
/// As in [`folder_deep_view`], the range test inside the children closure
/// keeps the recursion on in-bounds elements; out-of-range positions pass
/// the arbitrary out-of-range element through unchanged.
pub open spec fn spec_populate(path: Seq<char>, f: FolderV) -> FolderV
    decreases f,
    via spec_populate_decreases
{
    FolderV {
        path: path,
        title: f.title,
        attributes: f.attributes,
        rulesets: match f.rulesets {
            None => None,
            Some(rss) => Some(
                Seq::new(rss.len(), |i: int| spec_populate_ruleset(path, rss[i])),
            ),
        },
        hosts: match f.hosts {
            None => None,
            Some(hs) => Some(Seq::new(hs.len(), |i: int| (HostV { folder: path, ..hs[i] }))),
        },
        folders: Seq::new(
            f.folders.len(),
            |i: int|
                if 0 <= i < f.folders.len() {
                    (
                        f.folders[i].0,
                        spec_populate(spec_child_path(path, f.folders[i].0), f.folders[i].1),
                    )
                } else {
                    f.folders[i]
                },
        ),
    }
}

/// Assigns paths and wires back-references through one subtree, the way
/// loading wires the whole tree from the root down.
#[verifier::loop_isolation(false)]
pub fn populate_folder(path: String, folder: Folder) -> (r: Folder)
    ensures
        r.deep_view() == spec_populate(path@, folder.deep_view()),
    decreases folder,
{
    let ghost gf = folder;
    let ghost fv = folder.deep_view();
    let Folder { path: _, title, attributes, rulesets, hosts, folders } = folder;

    let new_hosts = match hosts {
        Option::None => Option::None,
        Option::Some(mut hs) => {
            let ghost orig = hs@;
            let mut out: Vec<Host> = Vec::new();
            while hs.len() > 0
                invariant
                    out.len() + hs.len() == orig.len(),
                    hs@ =~= orig.subrange(out.len() as int, orig.len() as int),
                    forall|k: int|
                        0 <= k < out.len() ==> out@[k].deep_view() == (HostV {
                            folder: path@,
                            ..orig[k].deep_view()
                        }),
                decreases hs.len(),
            {
                let mut h = hs.remove(0);
                h.folder = path.clone();
                out.push(h);
                proof {
                    assert(hs@ =~= orig.subrange(out.len() as int, orig.len() as int));
                }
            }
            Option::Some(out)
        },
    };

    let new_rulesets = match rulesets {
        Option::None => Option::None,
        Option::Some(mut rss) => {
            let ghost orig = rss@;
            let mut out: Vec<Ruleset> = Vec::new();
            while rss.len() > 0
                invariant
                    out.len() + rss.len() == orig.len(),
                    rss@ =~= orig.subrange(out.len() as int, orig.len() as int),
                    forall|k: int|
                        0 <= k < out.len() ==> out@[k].deep_view() == spec_populate_ruleset(
                            path@,
                            orig[k].deep_view(),
                        ),
                decreases rss.len(),
            {
                let rs = rss.remove(0);
                let ghost rsv = rs.deep_view();
                let Ruleset { name, mut rules, folder: _ } = rs;
                let ghost orig_rules = rules@;
                let mut new_rules: Vec<Rule> = Vec::new();
                while rules.len() > 0
                    invariant
                        new_rules.len() + rules.len() == orig_rules.len(),
                        rules@ =~= orig_rules.subrange(
                            new_rules.len() as int,
                            orig_rules.len() as int,
                        ),
                        forall|k: int|
                            0 <= k < new_rules.len() ==> new_rules@[k].deep_view()
                                == spec_populated_rule(orig_rules[k].deep_view(), name@),
                    decreases rules.len(),
                {
                    let mut rule = rules.remove(0);
                    rule.ruleset = name.clone();
                    rule.normalize_properties(name.as_str());
                    new_rules.push(rule);
                    proof {
                        assert(rules@ =~= orig_rules.subrange(
                            new_rules.len() as int,
                            orig_rules.len() as int,
                        ));
                    }
                }
                let populated = Ruleset { name, rules: new_rules, folder: path.clone() };
                proof {
                    assert(populated.deep_view().rules =~= spec_populate_ruleset(
                        path@,
                        rsv,
                    ).rules);
                }
                out.push(populated);
                proof {
                    assert(rss@ =~= orig.subrange(out.len() as int, orig.len() as int));
                }
            }
            Option::Some(out)
        },
    };

    let mut new_children: Vec<(String, Folder)> = Vec::new();
    let mut folders = folders;
    let ghost orig_children = folders@;
    while folders.len() > 0
        invariant
            new_children.len() + folders.len() == orig_children.len(),
            folders@ =~= orig_children.subrange(
                new_children.len() as int,
                orig_children.len() as int,
            ),
            orig_children == gf.folders@,
            forall|k: int|
                0 <= k < new_children.len() ==> new_children@[k].0@ == orig_children[k].0@
                    && new_children@[k].1.deep_view() == spec_populate(
                    spec_child_path(path@, orig_children[k].0@),
                    orig_children[k].1.deep_view(),
                ),
        decreases folders.len(),
    {
        let ghost j = new_children@.len() as int;
        let (name, folder_child) = folders.remove(0);
        proof {
            assert(folder_child == orig_children[j].1);
            lemma_child_decreases(gf, j);
            assert(gf.folders@[j].1 == folder_child);
            assert(decreases_to!(gf => folder_child));
        }
        let sub_path = child_path(path.as_str(), name.as_str());
        let populated = populate_folder(sub_path, folder_child);
        new_children.push((name, populated));
        proof {
            assert(folders@ =~= orig_children.subrange(
                new_children.len() as int,
                orig_children.len() as int,
            ));
        }
    }

    let r = Folder {
        path,
        title,
        attributes,
        rulesets: new_rulesets,
        hosts: new_hosts,
        folders: new_children,
    };
    proof {
        let target = spec_populate(r.path@, fv);
        assert(r.deep_view().folders =~= target.folders);
        match fv.hosts {
            Option::None => {},
            Option::Some(hs) => {
                assert(r.deep_view().hosts->Some_0 =~= target.hosts->Some_0);
            },
        }
        match fv.rulesets {
            Option::None => {},
            Option::Some(rss) => {
                assert(r.deep_view().rulesets->Some_0 =~= target.rulesets->Some_0);
            },
        }
    }
    r
}

impl Folders {
    /// Populates a freshly loaded tree: the root's path is `/` and every
    /// path, owner key and rule marker below it follows from that.
    pub fn from_document(root: Folder) -> (r: Folders)
        ensures
            r.root_folder.deep_view() == spec_populate("/"@, root.deep_view()),
    {
        Folders { root_folder: populate_folder(String::from_str("/"), root) }
    }
}

/// A folder reduced to what its own reconciliation reads: path, title and
/// attributes, without the contents that are reconciled as steps of their
/// own.
pub open spec fn spec_folder_only(f: FolderV) -> FolderV {
    FolderV {
        path: f.path,
        title: f.title,
        attributes: f.attributes,
        rulesets: None,
        hosts: None,
        folders: Seq::empty(),
    }
}

/// Every back-reference below this folder resolves and every path is
/// canonical for its position: hosts and rule sets carry their folder's
/// path, rules carry their set's name with a normalized comment, and each
/// child's path extends its parent's by the child's key.
pub open spec fn spec_folder_wf(f: FolderV) -> bool
    decreases f,
    via spec_folder_wf_decreases
{
    (match f.hosts {
        None => true,
        Some(hs) => forall|i: int| 0 <= i < hs.len() ==> (#[trigger] hs[i]).folder == f.path,
    }) && (match f.rulesets {
        None => true,
        Some(rss) => forall|i: int|
            0 <= i < rss.len() ==> (#[trigger] rss[i]).folder == f.path
                && spec_ruleset_normalized(rss[i]),
    }) && (forall|i: int|
        0 <= i < f.folders.len() ==> (#[trigger] f.folders[i]).1.path == spec_child_path(
            f.path,
            f.folders[i].0,
        ) && spec_folder_wf(f.folders[i].1))
}

#[via_fn]
proof fn spec_folder_wf_decreases(f: FolderV) {
    assert forall|i: int| 0 <= i < f.folders.len() implies decreases_to!(
        f => f.folders[i].1
    ) by {
        lemma_child_view_decreases(f, i);
    }
}

/// Population establishes well-formedness: whatever the loader delivered,
/// the populated tree's back-references all resolve to the paths and names
/// the pass assigned, and every rule carries its marker.
pub proof fn lemma_populate_wf(path: Seq<char>, f: FolderV)
    ensures
        spec_folder_wf(spec_populate(path, f)),
    decreases f,
{
    let p = spec_populate(path, f);
    match f.rulesets {
        None => {},
        Some(rss) => {
            assert forall|i: int| 0 <= i < rss.len() implies (#[trigger] p.rulesets->Some_0[
                i]).folder == p.path && spec_ruleset_normalized(p.rulesets->Some_0[i]) by {
                let prs = spec_populate_ruleset(path, rss[i]);
                assert(p.rulesets->Some_0[i] == prs);
                assert forall|j: int| 0 <= j < prs.rules.len() implies (#[trigger] prs.rules[
                    j]).ruleset == prs.name && match prs.rules[j].properties.comment {
                    Some(c) => crate::strutil::spec_contains(
                        c,
                        spec_marker(prs.name, prs.rules[j].custom_id),
                    ),
                    None => false,
                } by {
                    assert(prs.rules[j] == spec_populated_rule(rss[i].rules[j], rss[i].name));
                    crate::config::rulesets::lemma_normalize_idempotent(
                        rss[i].rules[j].properties.comment,
                        spec_marker(rss[i].name, rss[i].rules[j].custom_id),
                    );
                }
            }
        },
    }
    assert forall|i: int| 0 <= i < p.folders.len() implies (#[trigger] p.folders[i]).1.path
        == spec_child_path(p.path, p.folders[i].0) && spec_folder_wf(p.folders[i].1) by {
        lemma_child_view_decreases(f, i);
        lemma_populate_wf(spec_child_path(path, f.folders[i].0), f.folders[i].1);
    }
}

/// The creation payload for a missing folder: its name is the last path
/// segment, its parent is addressed by the parent path's flattened form.
pub open spec fn spec_folder_create_request(f: FolderV) -> CreateFolderRequestV {
    CreateFolderRequestV {
        name: spec_last_segment(f.path),
        title: f.title,
        parent: spec_flatten(spec_parent_of(f.path)),
        attributes: f.attributes,
    }
}

/// The update payload for an existing folder: title and attribute bag.
pub open spec fn spec_folder_update_request(f: FolderV) -> UpdateFolderRequestV {
    UpdateFolderRequestV { title: f.title, attributes: f.attributes }
}

/// The remote folder differs: its title or its (default-filled) attribute
/// bag disagrees with the declared one.
pub open spec fn spec_folder_needs_update(f: FolderV, api: ShowFolderResponseV) -> bool {
    !(f.title == api.title && spec_folder_attributes_or_default(f.attributes)
        == api.extensions.attributes)
}

/// The call a folder requires.
#[derive(Debug)]
pub enum FolderAction {
    /// The folder does not exist remotely: create it.
    CreateFolder(CreateFolderRequest),
    /// The folder exists with a different title or attributes: update it,
    /// with the token of the lookup that showed the difference.
    UpdateFolder { id: String, etag: String, request: UpdateFolderRequest },
    /// The folder exists with the declared title and attributes.
    KeepFolder,
}

pub enum FolderActionV {
    CreateFolder(CreateFolderRequestV),
    UpdateFolder { id: Seq<char>, etag: Seq<char>, request: UpdateFolderRequestV },
    KeepFolder,
}

impl DeepView for FolderAction {
    type V = FolderActionV;

    open spec fn deep_view(&self) -> FolderActionV {
        match self {
            FolderAction::CreateFolder(req) => FolderActionV::CreateFolder(req.deep_view()),
            FolderAction::UpdateFolder { id, etag, request } => FolderActionV::UpdateFolder {
                id: id@,
                etag: etag@,
                request: request.deep_view(),
            },
            FolderAction::KeepFolder => FolderActionV::KeepFolder,
        }
    }
}

/// How the folder lookup's outcome is answered: a missing folder is
/// created, a differing folder is updated under the lookup's token, a
/// matching folder is left alone, and any other lookup error is fatal.
pub open spec fn spec_folder_plan(
    f: FolderV,
    shown: Result<(ShowFolderResponseV, Seq<char>), ClientErrorV>,
) -> Result<FolderActionV, ClientErrorV> {
    match shown {
        Ok((resp, etag)) => if spec_folder_needs_update(f, resp) {
            Ok(
                FolderActionV::UpdateFolder {
                    id: spec_flatten(f.path),
                    etag: etag,
                    request: spec_folder_update_request(f),
                },
            )
        } else {
            Ok(FolderActionV::KeepFolder)
        },
        Err(e) => if spec_is_status(e, 404) {
            Ok(FolderActionV::CreateFolder(spec_folder_create_request(f)))
        } else {
            Err(e)
        },
    }
}

impl Folder {
    /// The remote identifier of this folder: its path, flattened.
    pub fn id(&self) -> (r: String)
        ensures
            r@ == spec_flatten(self.path@),
    {
        flatten_path(self.path.as_str())
    }

    /// The name under which this folder sits in its parent: the last path
    /// segment, empty at the root.
    pub fn name(&self) -> (r: String)
        ensures
            r@ == spec_last_segment(self.path@),
    {
        last_segment(self.path.as_str())
    }

    /// The remote identifier of this folder's parent: the parent path,
    /// flattened; empty at the root.
    pub fn parent(&self) -> (r: String)
        ensures
            r@ == spec_flatten(spec_parent_of(self.path@)),
    {
        flatten_path(parent_path(self.path.as_str()).as_str())
    }

    /// Whether the remote folder's title or (default-filled) attributes
    /// differ from the declared ones.
    pub fn needs_update(&self, folder_api: &ShowFolderResponse) -> (r: bool)
        ensures
            r == spec_folder_needs_update(self.deep_view(), folder_api.deep_view()),
    {
        let titles_equal = eq_string(&self.title, &folder_api.title);
        let attributes_equal = match &self.attributes {
            Option::Some(a) => eq_folder_attributes(a, &folder_api.extensions.attributes),
            Option::None => {
                let d = FolderAttributes::default();
                eq_folder_attributes(&d, &folder_api.extensions.attributes)
            },
        };
        !(titles_equal && attributes_equal)
    }

    /// The creation payload for this folder.
    pub fn create_request(&self) -> (r: CreateFolderRequest)
        ensures
            r.deep_view() == spec_folder_create_request(self.deep_view()),
    {
        CreateFolderRequest {
            name: self.name(),
            title: self.title.clone(),
            parent: self.parent(),
            attributes: clone_opt_folder_attributes(&self.attributes),
        }
    }

    /// The update payload for this folder.
    pub fn update_request(&self) -> (r: UpdateFolderRequest)
        ensures
            r.deep_view() == spec_folder_update_request(self.deep_view()),
    {
        UpdateFolderRequest {
            title: self.title.clone(),
            attributes: clone_opt_folder_attributes(&self.attributes),
        }
    }

    /// Decides the call that reconciles this folder, from the outcome of
    /// looking it up remotely.
    pub fn apply_to_site(&self, shown: Result<(ShowFolderResponse, String), ClientError>) -> (r:
        Result<FolderAction, ClientError>)
        ensures
            deep_view_result(r) == spec_folder_plan(self.deep_view(), deep_view_result(shown)),
    {
        match shown {
            Ok((resp, etag)) => {
                if self.needs_update(&resp) {
                    Ok(
                        FolderAction::UpdateFolder {
                            id: self.id(),
                            etag: etag,
                            request: self.update_request(),
                        },
                    )
                } else {
                    Ok(FolderAction::KeepFolder)
                }
            },
            Err(e) => {
                if e.is_status(404) {
                    Ok(FolderAction::CreateFolder(self.create_request()))
                } else {
                    Err(e)
                }
            },
        }
    }
}

/// The remote folder is settled for the declared one: title and
/// (default-filled) attributes agree.
pub open spec fn spec_folder_settled(f: FolderV, resp: ShowFolderResponseV) -> bool {
    !spec_folder_needs_update(f, resp)
}

/// What a folder lookup shows after the planned action has been performed,
/// under the model that the remote side stores a write exactly as sent and
/// default-fills an absent attribute bag.
pub open spec fn spec_folder_shown_after(
    f: FolderV,
    shown: Result<(ShowFolderResponseV, Seq<char>), ClientErrorV>,
) -> ShowFolderResponseV {
    match shown {
        Ok((resp, etag)) => if spec_folder_needs_update(f, resp) {
            ShowFolderResponseV {
                id: resp.id,
                title: f.title,
                extensions: crate::api::folders::FolderOutputExtensionsV {
                    path: resp.extensions.path,
                    attributes: spec_folder_attributes_or_default(f.attributes),
                },
            }
        } else {
            resp
        },
        Err(_) => ShowFolderResponseV {
            id: None,
            title: f.title,
            extensions: crate::api::folders::FolderOutputExtensionsV {
                path: f.path,
                attributes: spec_folder_attributes_or_default(f.attributes),
            },
        },
    }
}

/// Replaying the folder decision against the state its own action produced
/// changes nothing: when the first run got past the lookup, the second run
/// keeps the folder as it is.
pub proof fn lemma_folder_apply_idempotent(
    f: FolderV,
    shown: Result<(ShowFolderResponseV, Seq<char>), ClientErrorV>,
    etag2: Seq<char>,
)
    requires
        spec_folder_plan(f, shown) is Ok,
    ensures
        spec_folder_plan(f, Ok((spec_folder_shown_after(f, shown), etag2))) == Ok::<
            FolderActionV,
            ClientErrorV,
        >(FolderActionV::KeepFolder),
{
}

} // verus!
