//! The tree walker: the order in which the declared tree is applied to the
//! remote site.
//!
//! The walk is depth-first and applies each folder before what it contains:
//! the folder itself, then its hosts, then its rule sets, then its child
//! folders in turn.  The walker produces the ordered work list; performing
//! each step's remote calls — look up, decide with the entity's own
//! `apply_to_site`, issue the decided calls — is the process boundary's
//! part, one step after another, stopping at the first fatal error.

use vstd::prelude::*;
use crate::api::folders::clone_opt_folder_attributes;
use crate::config::folders::Folder;
use crate::config::folders::FolderV;
use crate::config::folders::lemma_child_decreases;
use crate::config::folders::spec_folder_only;
use crate::config::hosts::Host;
use crate::config::hosts::HostV;
use crate::config::rulesets::Ruleset;
use crate::config::rulesets::RulesetV;

verus! {

broadcast use crate::models::lemma_vec_deep_view_len, crate::models::lemma_vec_deep_view_index;

/// One unit of work of the reconciliation pass.
#[derive(Debug)]
pub enum ApplyStep {
    /// Reconcile this folder (carried without its contents: those follow as
    /// steps of their own).
    ApplyFolder(Folder),
    /// Reconcile this host.
    ApplyHost(Host),
    /// Reconcile this rule set.
    ApplyRuleset(Ruleset),
}

pub enum ApplyStepV {
    ApplyFolder(FolderV),
    ApplyHost(HostV),
    ApplyRuleset(RulesetV),
}

impl DeepView for ApplyStep {
    type V = ApplyStepV;

    open spec fn deep_view(&self) -> ApplyStepV {
        match self {
            ApplyStep::ApplyFolder(f) => ApplyStepV::ApplyFolder(f.deep_view()),
            ApplyStep::ApplyHost(h) => ApplyStepV::ApplyHost(h.deep_view()),
            ApplyStep::ApplyRuleset(rs) => ApplyStepV::ApplyRuleset(rs.deep_view()),
        }
    }
}

/// The work the subtrees hanging off these children contribute, in order.
pub open spec fn spec_apply_steps_children(cs: Seq<(Seq<char>, FolderV)>) -> Seq<ApplyStepV>
    decreases cs, 0int,
    via spec_apply_steps_children_decreases
{
    if cs.len() == 0 {
        Seq::empty()
    } else {
        spec_apply_steps_children(cs.drop_last()) + spec_apply_steps(cs.last().1)
    }
}

#[via_fn]
proof fn spec_apply_steps_children_decreases(cs: Seq<(Seq<char>, FolderV)>) {
    if cs.len() > 0 {
        assert(decreases_to!(cs => cs.subrange(0, cs.len() - 1)));
        assert(cs.drop_last() == cs.subrange(0, cs.len() - 1));
        assert(decreases_to!(cs => cs[cs.len() - 1]));
        assert(decreases_to!(cs[cs.len() - 1] => cs[cs.len() - 1].1));
        assert(cs.last() == cs[cs.len() - 1]);
    }
}

/// The ordered work list of a subtree: the folder itself, its hosts, its
/// rule sets, then each child subtree in turn.
pub open spec fn spec_apply_steps(f: FolderV) -> Seq<ApplyStepV>
    decreases f, 1int,
{
    seq![ApplyStepV::ApplyFolder(spec_folder_only(f))] + (match f.hosts {
        None => Seq::empty(),
        Some(hs) => Seq::new(hs.len(), |i: int| ApplyStepV::ApplyHost(hs[i])),
    }) + (match f.rulesets {
        None => Seq::empty(),
        Some(rss) => Seq::new(rss.len(), |i: int| ApplyStepV::ApplyRuleset(rss[i])),
    }) + spec_apply_steps_children(f.folders)
}

/// Builds the ordered work list of one subtree.
#[verifier::loop_isolation(false)]
pub fn apply_folders(folder: &Folder) -> (steps: Vec<ApplyStep>)
    ensures
        steps.deep_view() == spec_apply_steps(folder.deep_view()),
    decreases folder,
{
    let ghost fv = folder.deep_view();
    let mut steps: Vec<ApplyStep> = Vec::new();
    let stub = Folder {
        path: folder.path.clone(),
        title: folder.title.clone(),
        attributes: clone_opt_folder_attributes(&folder.attributes),
        rulesets: Option::None,
        hosts: Option::None,
        folders: Vec::new(),
    };
    proof {
        assert(stub.deep_view().folders =~= Seq::<(Seq<char>, FolderV)>::empty());
        assert(stub.deep_view() == spec_folder_only(fv));
    }
    steps.push(ApplyStep::ApplyFolder(stub));
    let ghost own = seq![ApplyStepV::ApplyFolder(spec_folder_only(fv))];
    proof {
        assert(steps.deep_view() =~= own);
    }
    match &folder.hosts {
        Option::None => {},
        Option::Some(hs) => {
            let mut i: usize = 0;
            while i < hs.len()
                invariant
                    i <= hs.len(),
                    steps.deep_view() =~= own + Seq::new(
                        i as nat,
                        |k: int| ApplyStepV::ApplyHost(fv.hosts->Some_0[k]),
                    ),
                decreases hs.len() - i,
            {
                let ghost presteps = steps;
                steps.push(ApplyStep::ApplyHost(hs[i].clone()));
                proof {
                    let target = own + Seq::new(
                        (i + 1) as nat,
                        |k: int| ApplyStepV::ApplyHost(fv.hosts->Some_0[k]),
                    );
                    assert forall|k: int| 0 <= k < steps@.len() implies #[trigger] steps.deep_view()[
                        k] == target[k] by {
                        assert(steps.deep_view()[k] == steps@[k].deep_view());
                        if k < presteps@.len() {
                            assert(presteps.deep_view()[k] == presteps@[k].deep_view());
                        } else {
                            assert(hs.deep_view()[i as int] == hs@[i as int].deep_view());
                        }
                    }
                    assert(steps.deep_view() =~= target);
                }
                i = i + 1;
            }
        },
    }
    let ghost with_hosts = own + (match fv.hosts {
        None => Seq::empty(),
        Some(hs) => Seq::new(hs.len(), |i: int| ApplyStepV::ApplyHost(hs[i])),
    });
    proof {
        assert(steps.deep_view() =~= with_hosts);
    }
    match &folder.rulesets {
        Option::None => {},
        Option::Some(rss) => {
            let mut i: usize = 0;
            while i < rss.len()
                invariant
                    i <= rss.len(),
                    steps.deep_view() =~= with_hosts + Seq::new(
                        i as nat,
                        |k: int| ApplyStepV::ApplyRuleset(fv.rulesets->Some_0[k]),
                    ),
                decreases rss.len() - i,
            {
                let ghost presteps = steps;
                steps.push(ApplyStep::ApplyRuleset(rss[i].clone()));
                proof {
                    let target = with_hosts + Seq::new(
                        (i + 1) as nat,
                        |k: int| ApplyStepV::ApplyRuleset(fv.rulesets->Some_0[k]),
                    );
                    assert forall|k: int| 0 <= k < steps@.len() implies #[trigger] steps.deep_view()[
                        k] == target[k] by {
                        assert(steps.deep_view()[k] == steps@[k].deep_view());
                        if k < presteps@.len() {
                            assert(presteps.deep_view()[k] == presteps@[k].deep_view());
                        } else {
                            assert(rss.deep_view()[i as int] == rss@[i as int].deep_view());
                        }
                    }
                    assert(steps.deep_view() =~= target);
                }
                i = i + 1;
            }
        },
    }
    let ghost with_rulesets = with_hosts + (match fv.rulesets {
        None => Seq::empty(),
        Some(rss) => Seq::new(rss.len(), |i: int| ApplyStepV::ApplyRuleset(rss[i])),
    });
    proof {
        assert(steps.deep_view() =~= with_rulesets);
    }
    let mut i: usize = 0;
    while i < folder.folders.len()
        invariant
            i <= folder.folders.len(),
            steps.deep_view() =~= with_rulesets + spec_apply_steps_children(
                fv.folders.subrange(0, i as int),
            ),
        decreases folder.folders.len() - i,
    {
        proof {
            lemma_child_decreases(*folder, i as int);
        }
        let mut sub = apply_folders(&folder.folders[i].1);
        let ghost presteps = steps;
        let ghost presub = sub;
        steps.append(&mut sub);
        proof {
            let prefix = fv.folders.subrange(0, i + 1);
            assert(prefix.drop_last() =~= fv.folders.subrange(0, i as int));
            assert(prefix.last() == fv.folders[i as int]);
            assert(folder.folders@[i as int].1.deep_view() == fv.folders[i as int].1);
            assert(steps@ == presteps@ + presub@);
            assert forall|k: int| 0 <= k < steps@.len() implies #[trigger] steps.deep_view()[k]
                == (presteps.deep_view() + presub.deep_view())[k] by {
                assert(steps.deep_view()[k] == steps@[k].deep_view());
                if k < presteps@.len() {
                    assert(presteps.deep_view()[k] == presteps@[k].deep_view());
                } else {
                    assert(presub.deep_view()[k - presteps@.len()] == presub@[
                        k - presteps@.len()].deep_view());
                }
            }
            assert(steps.deep_view() =~= presteps.deep_view() + presub.deep_view());
            assert(steps.deep_view() =~= with_rulesets + spec_apply_steps_children(prefix));
        }
        i = i + 1;
    }
    proof {
        assert(fv.folders.subrange(0, fv.folders.len() as int) =~= fv.folders);
        assert(steps.deep_view() =~= spec_apply_steps(fv));
    }
    steps
}

/// Whether a step carries a rule set that is not normalized; the walk of a
/// well-formed tree never produces one.
pub open spec fn step_has_unnormalized_ruleset(step: ApplyStepV) -> bool {
    match step {
        ApplyStepV::ApplyRuleset(rs) => !crate::config::rulesets::spec_ruleset_normalized(rs),
        _ => false,
    }
}

proof fn lemma_children_walk_rulesets_normalized(cs: Seq<(Seq<char>, FolderV)>)
    requires
        forall|i: int|
            0 <= i < cs.len() ==> crate::config::folders::spec_folder_wf(
                (#[trigger] cs[i]).1,
            ),
    ensures
        forall|i: int|
            0 <= i < spec_apply_steps_children(cs).len() ==> !step_has_unnormalized_ruleset(
                #[trigger] spec_apply_steps_children(cs)[i],
            ),
    decreases cs, 0int,
{
    if cs.len() > 0 {
        lemma_children_walk_rulesets_normalized(cs.drop_last());
        assert(decreases_to!(cs => cs[cs.len() - 1]));
        assert(decreases_to!(cs[cs.len() - 1] => cs[cs.len() - 1].1));
        assert(cs.last() == cs[cs.len() - 1]);
        lemma_walk_rulesets_normalized(cs.last().1);
        let front = spec_apply_steps_children(cs.drop_last());
        let back = spec_apply_steps(cs.last().1);
        assert forall|i: int| 0 <= i < spec_apply_steps_children(cs).len()
            implies !step_has_unnormalized_ruleset(#[trigger] spec_apply_steps_children(cs)[i]) by {
            if i < front.len() {
                assert(spec_apply_steps_children(cs)[i] == front[i]);
            } else {
                assert(spec_apply_steps_children(cs)[i] == back[i - front.len()]);
            }
        }
    }
}

/// Every rule set the walk of a well-formed tree hands out is normalized:
/// its rules carry their markers, so a full replacement settles on the next
/// listing instead of cascading into another one.
pub proof fn lemma_walk_rulesets_normalized(f: FolderV)
    requires
        crate::config::folders::spec_folder_wf(f),
    ensures
        forall|i: int|
            0 <= i < spec_apply_steps(f).len() ==> !step_has_unnormalized_ruleset(
                #[trigger] spec_apply_steps(f)[i],
            ),
    decreases f, 1int,
{
    assert forall|i: int| 0 <= i < f.folders.len() implies crate::config::folders::spec_folder_wf(
        (#[trigger] f.folders[i]).1,
    ) by {}
    lemma_children_walk_rulesets_normalized(f.folders);
    let own = seq![ApplyStepV::ApplyFolder(crate::config::folders::spec_folder_only(f))];
    let hosts_part = (match f.hosts {
        None => Seq::<ApplyStepV>::empty(),
        Some(hs) => Seq::new(hs.len(), |i: int| ApplyStepV::ApplyHost(hs[i])),
    });
    let rulesets_part = (match f.rulesets {
        None => Seq::<ApplyStepV>::empty(),
        Some(rss) => Seq::new(rss.len(), |i: int| ApplyStepV::ApplyRuleset(rss[i])),
    });
    let children_part = spec_apply_steps_children(f.folders);
    assert forall|i: int| 0 <= i < spec_apply_steps(f).len()
        implies !step_has_unnormalized_ruleset(#[trigger] spec_apply_steps(f)[i]) by {
        let prefix = own + hosts_part + rulesets_part;
        if i < own.len() {
            assert(spec_apply_steps(f)[i] == own[0]);
        } else if i < own.len() + hosts_part.len() {
            assert(spec_apply_steps(f)[i] == hosts_part[i - own.len()]);
        } else if i < prefix.len() {
            assert(spec_apply_steps(f)[i] == rulesets_part[i - own.len() - hosts_part.len()]);
        } else {
            assert(spec_apply_steps(f)[i] == children_part[i - prefix.len()]);
        }
    }
}

/// The whole run's work list: the tree walked from the root.  Performing
/// these steps in order, then activating pending changes, is the entire
/// reconciliation.
pub fn process_folders(config: &crate::config::DeclarativeConfig) -> (steps: Vec<ApplyStep>)
    ensures
        steps.deep_view() == spec_apply_steps(config.folders.root_folder.deep_view()),
{
    apply_folders(&config.folders.root_folder)
}

} // verus!
