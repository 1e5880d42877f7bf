//! The declared configuration: the tree of folders with their hosts and
//! rule sets, and the cross-tree constraint checked before any remote call.

pub mod folders;
pub mod hosts;
pub mod rulesets;

use vstd::prelude::*;
use crate::config::folders::Folders;
use crate::config::folders::FoldersV;
use crate::driver::ApplyStep;
use crate::driver::ApplyStepV;
use crate::driver::spec_apply_steps;
use crate::models::eq_string;
use vstd::string::StringExecFns;

verus! {

broadcast use crate::models::lemma_vec_deep_view_len, crate::models::lemma_vec_deep_view_index;

/// The whole declarative document, as loaded and populated.
#[derive(Debug)]
pub struct DeclarativeConfig {
    pub folders: Folders,
}

pub struct DeclarativeConfigV {
    pub folders: FoldersV,
}

impl DeepView for DeclarativeConfig {
    type V = DeclarativeConfigV;

    open spec fn deep_view(&self) -> DeclarativeConfigV {
        DeclarativeConfigV { folders: self.folders.deep_view() }
    }
}

/// Host name and folder path of every host step, in walk order.
pub open spec fn spec_host_entries(steps: Seq<ApplyStepV>) -> Seq<(Seq<char>, Seq<char>)>
    decreases steps.len(),
{
    if steps.len() == 0 {
        Seq::empty()
    } else {
        let rest = spec_host_entries(steps.drop_last());
        match steps.last() {
            ApplyStepV::ApplyHost(h) => rest.push((h.host_name, h.folder)),
            _ => rest,
        }
    }
}

/// Two positions declare the same host name.
pub open spec fn spec_has_duplicate(entries: Seq<(Seq<char>, Seq<char>)>) -> bool {
    exists|i: int, j: int|
        #![trigger entries[i].0, entries[j].0]
        0 <= i < j < entries.len() && entries[i].0 == entries[j].0
}

/// The reported duplicate is genuine: some earlier and some later position
/// declare the reported host name, in the reported folders.
pub open spec fn spec_duplicate_witness(
    entries: Seq<(Seq<char>, Seq<char>)>,
    d: DuplicateHostErrorV,
) -> bool {
    exists|i: int, j: int|
        #![trigger entries[i].0, entries[j].0]
        0 <= i < j < entries.len() && entries[i].0 == entries[j].0 && d == (DuplicateHostErrorV {
            host_name: entries[j].0,
            first_folder: entries[i].1,
            second_folder: entries[j].1,
        })
}

/// A host name declared in two folders: the one load-time validation error.
#[derive(Debug)]
pub struct DuplicateHostError {
    pub host_name: String,
    pub first_folder: String,
    pub second_folder: String,
}

pub struct DuplicateHostErrorV {
    pub host_name: Seq<char>,
    pub first_folder: Seq<char>,
    pub second_folder: Seq<char>,
}

impl DeepView for DuplicateHostError {
    type V = DuplicateHostErrorV;

    open spec fn deep_view(&self) -> DuplicateHostErrorV {
        DuplicateHostErrorV {
            host_name: self.host_name@,
            first_folder: self.first_folder@,
            second_folder: self.second_folder@,
        }
    }
}

/// The error text names the host and both folders.
pub open spec fn spec_duplicate_host_message(d: DuplicateHostErrorV) -> Seq<char> {
    "Host "@ + d.host_name + " is defined both in folder "@ + d.first_folder + " and folder "@
        + d.second_folder
}

impl DuplicateHostError {
    /// Renders the error for the operator, naming both folders.
    pub fn message(&self) -> (r: String)
        ensures
            r@ == spec_duplicate_host_message(self.deep_view()),
    {
        let mut m = String::from_str("Host ");
        m.append(self.host_name.as_str());
        m.append(" is defined both in folder ");
        m.append(self.first_folder.as_str());
        m.append(" and folder ");
        m.append(self.second_folder.as_str());
        proof {
            assert(m@ =~= spec_duplicate_host_message(self.deep_view()));
        }
        m
    }
}

/// Collects every host step's name and folder path, in walk order.
fn host_entries(steps: &Vec<ApplyStep>) -> (r: Vec<(String, String)>)
    ensures
        r.deep_view() == spec_host_entries(steps.deep_view()),
{
    let mut out: Vec<(String, String)> = Vec::new();
    let n = steps.len();
    let mut i: usize = 0;
    while i < n
        invariant
            n == steps.len(),
            i <= n,
            out.deep_view() == spec_host_entries(steps.deep_view().subrange(0, i as int)),
        decreases n - i,
    {
        let ghost prefix = steps.deep_view().subrange(0, i + 1);
        proof {
            assert(prefix.drop_last() =~= steps.deep_view().subrange(0, i as int));
            assert(prefix.last() == steps.deep_view()[i as int]);
        }
        match &steps[i] {
            ApplyStep::ApplyHost(h) => {
                out.push((h.host_name.clone(), h.folder.clone()));
                proof {
                    assert(out.deep_view() =~= spec_host_entries(prefix));
                }
            },
            _ => {},
        }
        i = i + 1;
    }
    proof {
        assert(steps.deep_view().subrange(0, n as int) =~= steps.deep_view());
    }
    out
}

impl DeclarativeConfig {
    /// The one structural constraint checked before any remote call: no
    /// host name may be declared in two places.  Succeeds exactly when all
    /// declared host names are distinct; on failure the error names the
    /// offending host and both folders that declare it.
    #[verifier::loop_isolation(false)]
    pub fn verify_constraints(&self) -> (r: Result<(), DuplicateHostError>)
        ensures
            r is Ok <==> !spec_has_duplicate(
                spec_host_entries(spec_apply_steps(self.folders.root_folder.deep_view())),
            ),
            r matches Err(d) ==> spec_duplicate_witness(
                spec_host_entries(spec_apply_steps(self.folders.root_folder.deep_view())),
                d.deep_view(),
            ),
    {
        let steps = crate::driver::apply_folders(&self.folders.root_folder);
        let entries = host_entries(&steps);
        let ghost es = spec_host_entries(
            spec_apply_steps(self.folders.root_folder.deep_view()),
        );
        let n = entries.len();
        let mut j: usize = 0;
        while j < n
            invariant
                n == entries.len(),
                entries.deep_view() == es,
                j <= n,
                forall|a: int, b: int|
                    #![trigger es[a].0, es[b].0]
                    0 <= a < b < j ==> es[a].0 != es[b].0,
            decreases n - j,
        {
            let mut i: usize = 0;
            while i < j
                invariant
                    n == entries.len(),
                    entries.deep_view() == es,
                    i <= j < n,
                    forall|a: int| 0 <= a < i ==> (#[trigger] es[a].0) != es[j as int].0,
                decreases j - i,
            {
                if eq_string(&entries[i].0, &entries[j].0) {
                    let d = DuplicateHostError {
                        host_name: entries[j].0.clone(),
                        first_folder: entries[i].1.clone(),
                        second_folder: entries[j].1.clone(),
                    };
                    proof {
                        assert(entries.deep_view()[i as int] == entries@[i as int].deep_view());
                        assert(entries.deep_view()[j as int] == entries@[j as int].deep_view());
                        assert(es[i as int].0 == es[j as int].0);
                        assert(spec_has_duplicate(es));
                        assert(spec_duplicate_witness(es, d.deep_view()));
                    }
                    return Err(d);
                }
                i = i + 1;
            }
            j = j + 1;
        }
        Ok(())
    }
}

} // verus!
