//! Declared rule sets and their replace-on-mismatch reconciliation.
//!
//! Rule order is the evaluation priority, and the remote system offers no
//! cheap way to patch an ordered rule list in place.  The strategy is
//! therefore all-or-nothing: either every remote rule of this set in this
//! folder matches the declared list position by position — identified by the
//! marker embedded in its comment and equal in content — or every listed
//! rule is deleted and every declared rule recreated in declared order.

use vstd::prelude::*;
use crate::api::ClientError;
use crate::api::ClientErrorV;
use crate::api::deep_view_result;
use crate::api::rules::CreateRuleRequest;
use crate::api::rules::CreateRuleRequestV;
use crate::api::rules::ListRulesResponse;
use crate::api::rules::ListRulesResponseV;
use crate::api::rules::RuleConditions;
use crate::api::rules::RuleConditionsV;
use crate::api::rules::RuleProperties;
use crate::api::rules::RulePropertiesV;
use crate::api::rules::ShowRuleResponse;
use crate::api::rules::ShowRuleResponseV;
use crate::api::rules::eq_rule_conditions;
use crate::api::rules::eq_rule_properties;
use crate::models::eq_string;
use crate::strutil::lemma_contains_appended;
use crate::strutil::lemma_matches_at_contains;
use crate::strutil::spec_contains;
use crate::strutil::str_contains;
use vstd::string::StringExecFns;

verus! {

broadcast use crate::models::lemma_vec_deep_view_len, crate::models::lemma_vec_deep_view_index;

/// One declared rule; its position inside the owning rule set is its
/// evaluation priority.
#[derive(Debug)]
pub struct Rule {
    /// The operator's stable identifier, distinct from any remote-assigned
    /// one.
    pub custom_id: String,
    pub properties: RuleProperties,
    pub conditions: RuleConditions,
    /// The opaque serialized rule payload.
    pub value_raw: String,
    /// Name of the owning rule set; assigned once during population.
    pub ruleset: String,
}

pub struct RuleV {
    pub custom_id: Seq<char>,
    pub properties: RulePropertiesV,
    pub conditions: RuleConditionsV,
    pub value_raw: Seq<char>,
    pub ruleset: Seq<char>,
}

impl DeepView for Rule {
    type V = RuleV;

    open spec fn deep_view(&self) -> RuleV {
        RuleV {
            custom_id: self.custom_id@,
            properties: self.properties.deep_view(),
            conditions: self.conditions.deep_view(),
            value_raw: self.value_raw@,
            ruleset: self.ruleset@,
        }
    }
}

impl Clone for Rule {
    fn clone(&self) -> (r: Self)
        ensures
            r.deep_view() == self.deep_view(),
    {
        Rule {
            custom_id: self.custom_id.clone(),
            properties: self.properties.clone(),
            conditions: self.conditions.clone(),
            value_raw: self.value_raw.clone(),
            ruleset: self.ruleset.clone(),
        }
    }
}

/// A declared rule set: a name and an ordered list of rules.
#[derive(Debug)]
pub struct Ruleset {
    pub name: String,
    pub rules: Vec<Rule>,
    /// Path of the containing folder; assigned once during population.
    pub folder: String,
}

pub struct RulesetV {
    pub name: Seq<char>,
    pub rules: Seq<RuleV>,
    pub folder: Seq<char>,
}

impl DeepView for Ruleset {
    type V = RulesetV;

    open spec fn deep_view(&self) -> RulesetV {
        RulesetV { name: self.name@, rules: self.rules.deep_view(), folder: self.folder@ }
    }
}

impl Clone for Ruleset {
    fn clone(&self) -> (r: Self)
        ensures
            r.deep_view() == self.deep_view(),
    {
        let mut rules: Vec<Rule> = Vec::new();
        let mut i: usize = 0;
        while i < self.rules.len()
            invariant
                i <= self.rules.len(),
                rules.len() == i,
                forall|k: int| 0 <= k < i ==> rules@[k].deep_view() == self.rules@[k].deep_view(),
            decreases self.rules.len() - i,
        {
            rules.push(self.rules[i].clone());
            i = i + 1;
        }
        proof {
            assert(rules.deep_view() =~= self.rules.deep_view());
        }
        Ruleset { name: self.name.clone(), rules, folder: self.folder.clone() }
    }
}

/// The marker embedded into a rule's comment: the only identity anchor that
/// survives deletion and recreation on the remote side.
pub open spec fn spec_marker(ruleset: Seq<char>, custom_id: Seq<char>) -> Seq<char> {
    "[checkmate:"@ + ruleset + ":"@ + custom_id + "]"@
}

/// A comment after marker normalization: the marker is appended exactly
/// once, and a comment that already carries it is left untouched.
pub open spec fn spec_normalize_comment(comment: Option<Seq<char>>, marker: Seq<char>) -> Seq<
    char,
> {
    match comment {
        None => marker,
        Some(c) => if spec_contains(c, marker) {
            c
        } else {
            c + "\n"@ + marker
        },
    }
}

/// Rule properties after marker normalization: only the comment changes.
pub open spec fn spec_normalized_properties(p: RulePropertiesV, marker: Seq<char>) -> (
    RulePropertiesV) {
    RulePropertiesV {
        description: p.description,
        comment: Some(spec_normalize_comment(p.comment, marker)),
        documentation_url: p.documentation_url,
        disabled: p.disabled,
    }
}

/// A rule after population: owner wired and comment normalized.
pub open spec fn spec_populated_rule(r: RuleV, ruleset: Seq<char>) -> RuleV {
    RuleV {
        custom_id: r.custom_id,
        properties: spec_normalized_properties(r.properties, spec_marker(ruleset, r.custom_id)),
        conditions: r.conditions,
        value_raw: r.value_raw,
        ruleset: ruleset,
    }
}

/// A remote rule corresponds to this declared rule: its comment carries the
/// declared rule's marker.
pub open spec fn spec_is_same_rule(r: RuleV, api: ShowRuleResponseV) -> bool {
    match api.extensions.properties.comment {
        Some(c) => spec_contains(c, spec_marker(r.ruleset, r.custom_id)),
        None => false,
    }
}

/// A remote rule's content differs from the declared one: folder, match
/// conditions, payload or properties.
pub open spec fn spec_rule_needs_update(r: RuleV, api: ShowRuleResponseV, folder: Seq<char>) -> (
    bool) {
    folder != api.extensions.folder || r.conditions != api.extensions.conditions || r.value_raw
        != api.extensions.value_raw || r.properties != api.extensions.properties
}

/// The creation payload for a declared rule, issued into the given folder
/// under the rule's owning rule set.
pub open spec fn spec_create_rule_request(r: RuleV, folder: Seq<char>) -> CreateRuleRequestV {
    CreateRuleRequestV {
        ruleset: r.ruleset,
        folder: folder,
        properties: r.properties,
        value_raw: r.value_raw,
        conditions: r.conditions,
    }
}

impl Rule {
    /// The owning rule set's name.
    pub fn ruleset(&self) -> (r: &String)
        ensures
            r@ == self.deep_view().ruleset,
    {
        &self.ruleset
    }

    /// The marker that identifies this rule inside the given rule set.
    pub fn marker(&self, ruleset: &str) -> (r: String)
        ensures
            r@ == spec_marker(ruleset@, self.custom_id@),
    {
        let mut m = String::from_str("[checkmate:");
        m.append(ruleset);
        m.append(":");
        m.append(self.custom_id.as_str());
        m.append("]");
        proof {
            assert(m@ =~= spec_marker(ruleset@, self.custom_id@));
        }
        m
    }

    /// Appends the marker to the comment unless it is already present;
    /// normalizing an already-marked comment changes nothing.
    pub fn normalize_properties(&mut self, ruleset: &str)
        ensures
            final(self).deep_view() == (RuleV {
                properties: spec_normalized_properties(
                    old(self).deep_view().properties,
                    spec_marker(ruleset@, old(self).custom_id@),
                ),
                ..old(self).deep_view()
            }),
    {
        let marker = self.marker(ruleset);
        match &mut self.properties.comment {
            Option::Some(comment) => {
                if !str_contains(comment.as_str(), marker.as_str()) {
                    comment.append("\n");
                    comment.append(marker.as_str());
                }
            },
            Option::None => {
                self.properties.comment = Some(marker);
            },
        }
    }

    /// Whether the remote rule carries this rule's marker in its comment.
    pub fn is_same_rule(&self, api_rule: &ShowRuleResponse) -> (r: bool)
        ensures
            r == spec_is_same_rule(self.deep_view(), api_rule.deep_view()),
    {
        let marker = self.marker(self.ruleset.as_str());
        match &api_rule.extensions.properties.comment {
            Option::Some(comment) => str_contains(comment.as_str(), marker.as_str()),
            Option::None => false,
        }
    }

    /// Whether the remote rule's content differs from this declared rule,
    /// expected to live in the given folder.
    pub fn needs_update(&self, api_rule: &ShowRuleResponse, folder: &str) -> (r: bool)
        ensures
            r == spec_rule_needs_update(self.deep_view(), api_rule.deep_view(), folder@),
    {
        !eq_string(&folder.to_owned(), &api_rule.extensions.folder) || !eq_rule_conditions(
            &self.conditions,
            &api_rule.extensions.conditions,
        ) || !eq_string(&self.value_raw, &api_rule.extensions.value_raw) || !eq_rule_properties(
            &self.properties,
            &api_rule.extensions.properties,
        )
    }

    /// The call that applies this rule: always a creation, because the
    /// remote interface cannot update rules in place and sequential
    /// recreation reproduces the declared order.
    pub fn apply_to_site(&self, folder: &str) -> (r: CreateRuleRequest)
        ensures
            r.deep_view() == spec_create_rule_request(self.deep_view(), folder@),
    {
        CreateRuleRequest {
            ruleset: self.ruleset.clone(),
            folder: folder.to_owned(),
            properties: self.properties.clone(),
            value_raw: self.value_raw.clone(),
            conditions: self.conditions.clone(),
        }
    }
}

/// The listed remote rules that belong to this folder, in listed order.
pub open spec fn spec_filter_rules(rules: Seq<ShowRuleResponseV>, folder: Seq<char>) -> Seq<
    ShowRuleResponseV,
>
    decreases rules.len(),
{
    if rules.len() == 0 {
        Seq::empty()
    } else {
        let rest = spec_filter_rules(rules.drop_last(), folder);
        if rules.last().extensions.folder == folder {
            rest.push(rules.last())
        } else {
            rest
        }
    }
}

/// Some declared position disagrees with the remote list: either the counts
/// differ, or a position fails the identity or the content check.
pub open spec fn spec_rules_mismatch(rs: RulesetV, filtered: Seq<ShowRuleResponseV>) -> bool {
    filtered.len() != rs.rules.len() || exists|i: int|
        0 <= i < rs.rules.len() && (!spec_is_same_rule(rs.rules[i], filtered[i])
            || spec_rule_needs_update(rs.rules[i], filtered[i], rs.folder))
}

/// The full replacement: delete every listed rule of this folder (in listed
/// order), then recreate every declared rule in declared order.
pub open spec fn spec_replace_plan(rs: RulesetV, filtered: Seq<ShowRuleResponseV>) -> (
    RulesetActionV) {
    RulesetActionV::ReplaceRules {
        delete_ids: filtered.map_values(|r: ShowRuleResponseV| r.id),
        creates: Seq::new(
            rs.rules.len(),
            |i: int| spec_create_rule_request(rs.rules[i], rs.folder),
        ),
    }
}

/// How a rule set answers the listing of its remote rules: replace all on
/// any mismatch, otherwise leave everything untouched; a failed listing is
/// fatal.
pub open spec fn spec_ruleset_plan(
    rs: RulesetV,
    listed: Result<ListRulesResponseV, ClientErrorV>,
) -> Result<RulesetActionV, ClientErrorV> {
    match listed {
        Ok(resp) => {
            let filtered = spec_filter_rules(resp.rules, rs.folder);
            if spec_rules_mismatch(rs, filtered) {
                Ok(spec_replace_plan(rs, filtered))
            } else {
                Ok(RulesetActionV::KeepRules)
            }
        },
        Err(e) => Err(e),
    }
}

/// The calls a rule set requires.
#[derive(Debug)]
pub enum RulesetAction {
    /// Every position matched: no call is made.
    KeepRules,
    /// Delete the listed rules by remote id, then create the declared rules
    /// in order.  If a creation fails partway, the deletions have already
    /// happened and nothing rolls them back: the failure is fatal and left
    /// to the operator.
    ReplaceRules { delete_ids: Vec<String>, creates: Vec<CreateRuleRequest> },
}

pub enum RulesetActionV {
    KeepRules,
    ReplaceRules { delete_ids: Seq<Seq<char>>, creates: Seq<CreateRuleRequestV> },
}

impl DeepView for RulesetAction {
    type V = RulesetActionV;

    open spec fn deep_view(&self) -> RulesetActionV {
        match self {
            RulesetAction::KeepRules => RulesetActionV::KeepRules,
            RulesetAction::ReplaceRules { delete_ids, creates } => RulesetActionV::ReplaceRules {
                delete_ids: delete_ids.deep_view(),
                creates: creates.deep_view(),
            },
        }
    }
}

impl Ruleset {
    /// The owning folder's path.
    pub fn folder(&self) -> (r: &String)
        ensures
            r@ == self.deep_view().folder,
    {
        &self.folder
    }

    /// Keeps the listed rules that belong to this rule set's folder, in
    /// listed order; a rule set of the same name may exist in other folders
    /// and those rules are none of this one's business.
    pub fn rules_for_folder(&self, listed: &Vec<ShowRuleResponse>) -> (r: Vec<ShowRuleResponse>)
        ensures
            r.deep_view() == spec_filter_rules(listed.deep_view(), self.folder@),
    {
        let mut out: Vec<ShowRuleResponse> = Vec::new();
        let n = listed.len();
        let mut i: usize = 0;
        while i < n
            invariant
                n == listed.len(),
                i <= n,
                out.deep_view() == spec_filter_rules(
                    listed.deep_view().subrange(0, i as int),
                    self.folder@,
                ),
            decreases n - i,
        {
            let ghost prefix = listed.deep_view().subrange(0, i + 1);
            proof {
                assert(prefix.drop_last() =~= listed.deep_view().subrange(0, i as int));
                assert(prefix.last() == listed.deep_view()[i as int]);
            }
            if eq_string(&listed[i].extensions.folder, &self.folder) {
                out.push(listed[i].clone());
            }
            i = i + 1;
        }
        proof {
            assert(listed.deep_view().subrange(0, n as int) =~= listed.deep_view());
        }
        out
    }

    /// The full replacement plan for this rule set, given the listed rules
    /// of its folder: delete them all, recreate the declared list in order.
    pub fn replace_all_rules(&self, rules_api: &Vec<ShowRuleResponse>) -> (r: RulesetAction)
        ensures
            r.deep_view() == spec_replace_plan(self.deep_view(), rules_api.deep_view()),
    {
        let mut delete_ids: Vec<String> = Vec::new();
        let mut i: usize = 0;
        while i < rules_api.len()
            invariant
                i <= rules_api.len(),
                delete_ids.len() == i,
                forall|k: int| 0 <= k < i ==> delete_ids@[k]@ == rules_api.deep_view()[k].id,
            decreases rules_api.len() - i,
        {
            delete_ids.push(rules_api[i].id.clone());
            i = i + 1;
        }
        let mut creates: Vec<CreateRuleRequest> = Vec::new();
        let mut i: usize = 0;
        while i < self.rules.len()
            invariant
                i <= self.rules.len(),
                creates.len() == i,
                forall|k: int|
                    0 <= k < i ==> creates@[k].deep_view() == spec_create_rule_request(
                        self.rules.deep_view()[k],
                        self.folder@,
                    ),
            decreases self.rules.len() - i,
        {
            creates.push(self.rules[i].apply_to_site(self.folder.as_str()));
            i = i + 1;
        }
        proof {
            assert(delete_ids.deep_view() =~= rules_api.deep_view().map_values(
                |r: ShowRuleResponseV| r.id,
            ));
            assert(creates.deep_view() =~= Seq::new(
                self.rules.deep_view().len(),
                |k: int|
                    spec_create_rule_request(self.rules.deep_view()[k], self.folder@),
            ));
        }
        RulesetAction::ReplaceRules { delete_ids, creates }
    }

    /// Decides what the listing of this rule set's remote rules requires:
    /// nothing, when every declared position matches its remote counterpart
    /// by marker and by content; otherwise the full replacement.
    pub fn apply_to_site(&self, listed: Result<ListRulesResponse, ClientError>) -> (r: Result<
        RulesetAction,
        ClientError,
    >)
        ensures
            deep_view_result(r) == spec_ruleset_plan(self.deep_view(), deep_view_result(listed)),
    {
        match listed {
            Err(e) => Err(e),
            Ok(resp) => {
                let filtered = self.rules_for_folder(&resp.rules);
                if filtered.len() != self.rules.len() {
                    return Ok(self.replace_all_rules(&filtered));
                }
                let n = self.rules.len();
                let mut mismatch = false;
                let mut i: usize = 0;
                while i < n
                    invariant
                        n == self.rules.len() == filtered.deep_view().len(),
                        i <= n,
                        !mismatch ==> forall|k: int|
                            0 <= k < i ==> spec_is_same_rule(
                                self.rules.deep_view()[k],
                                filtered.deep_view()[k],
                            ) && !spec_rule_needs_update(
                                self.rules.deep_view()[k],
                                filtered.deep_view()[k],
                                self.folder@,
                            ),
                        mismatch ==> spec_rules_mismatch(self.deep_view(), filtered.deep_view()),
                    decreases n - i,
                {
                    if !self.rules[i].is_same_rule(&filtered[i]) || self.rules[i].needs_update(
                        &filtered[i],
                        self.folder.as_str(),
                    ) {
                        proof {
                            assert(self.deep_view().rules[i as int] == self.rules@[
                                i as int].deep_view());
                            assert(filtered.deep_view()[i as int] == filtered@[
                                i as int].deep_view());
                            assert(spec_rules_mismatch(self.deep_view(), filtered.deep_view()));
                        }
                        mismatch = true;
                        i = n;
                    } else {
                        i = i + 1;
                    }
                }
                if mismatch {
                    Ok(self.replace_all_rules(&filtered))
                } else {
                    Ok(RulesetAction::KeepRules)
                }
            },
        }
    }
}

/// Normalizing puts the marker into the comment, and normalizing again
/// leaves the comment exactly as it was: one application and many are
/// observably identical.
pub proof fn lemma_normalize_idempotent(comment: Option<Seq<char>>, marker: Seq<char>)
    ensures
        spec_contains(spec_normalize_comment(comment, marker), marker),
        spec_normalize_comment(Some(spec_normalize_comment(comment, marker)), marker)
            == spec_normalize_comment(comment, marker),
{
    match comment {
        None => {
            assert(marker.subrange(0, marker.len() as int) =~= marker);
            lemma_matches_at_contains(marker, marker, 0);
        },
        Some(c) => {
            if spec_contains(c, marker) {
            } else {
                lemma_contains_appended(c + "\n"@, marker);
            }
        },
    }
}

/// Normalizing a comment that already carries the marker is a no-op.
pub proof fn lemma_normalize_marked_comment_stable(c: Seq<char>, marker: Seq<char>)
    requires
        spec_contains(c, marker),
    ensures
        spec_normalize_comment(Some(c), marker) == c,
{
}

/// A declared count different from the listed count forces the full
/// replacement — deletions in listed order, creations in declared order —
/// whatever the rules' contents.
pub proof fn lemma_count_mismatch_forces_replace(rs: RulesetV, listed: ListRulesResponseV)
    requires
        spec_filter_rules(listed.rules, rs.folder).len() != rs.rules.len(),
    ensures
        spec_ruleset_plan(rs, Ok(listed)) == Ok::<RulesetActionV, ClientErrorV>(
            RulesetActionV::ReplaceRules {
                delete_ids: spec_filter_rules(listed.rules, rs.folder).map_values(
                    |r: ShowRuleResponseV| r.id,
                ),
                creates: Seq::new(
                    rs.rules.len(),
                    |i: int| spec_create_rule_request(rs.rules[i], rs.folder),
                ),
            },
        ),
{
}

/// When every declared position matches its listed counterpart — marker
/// found, content equal — the rule set is left untouched: no deletion, no
/// creation.
pub proof fn lemma_matching_rules_keep(rs: RulesetV, listed: ListRulesResponseV)
    requires
        spec_filter_rules(listed.rules, rs.folder).len() == rs.rules.len(),
        forall|i: int|
            0 <= i < rs.rules.len() ==> spec_is_same_rule(
                rs.rules[i],
                #[trigger] spec_filter_rules(listed.rules, rs.folder)[i],
            ) && !spec_rule_needs_update(
                rs.rules[i],
                spec_filter_rules(listed.rules, rs.folder)[i],
                rs.folder,
            ),
    ensures
        spec_ruleset_plan(rs, Ok(listed)) == Ok::<RulesetActionV, ClientErrorV>(
            RulesetActionV::KeepRules,
        ),
{
}

/// Every rule of the set carries its own marker in its comment and is wired
/// to the set's name — what population guarantees.
pub open spec fn spec_ruleset_normalized(rs: RulesetV) -> bool {
    forall|i: int|
        0 <= i < rs.rules.len() ==> (#[trigger] rs.rules[i]).ruleset == rs.name && match rs.rules[
            i].properties.comment {
            Some(c) => spec_contains(c, spec_marker(rs.name, rs.rules[i].custom_id)),
            None => false,
        }
}

/// A listed remote rule shows exactly what a creation payload wrote.
pub open spec fn spec_rule_rendered(req: CreateRuleRequestV, api: ShowRuleResponseV) -> bool {
    api.extensions.folder == req.folder && api.extensions.properties == req.properties
        && api.extensions.value_raw == req.value_raw && api.extensions.conditions == req.conditions
}

/// Keeping every listed rule when all of them belong to the folder.
proof fn lemma_filter_keeps_all(rules: Seq<ShowRuleResponseV>, folder: Seq<char>)
    requires
        forall|i: int| 0 <= i < rules.len() ==> (#[trigger] rules[i]).extensions.folder == folder,
    ensures
        spec_filter_rules(rules, folder) == rules,
    decreases rules.len(),
{
    if rules.len() == 0 {
        assert(spec_filter_rules(rules, folder) =~= rules);
    } else {
        lemma_filter_keeps_all(rules.drop_last(), folder);
        assert(spec_filter_rules(rules, folder) =~= rules.drop_last().push(rules.last()));
        assert(rules.drop_last().push(rules.last()) =~= rules);
    }
}

/// After a full replacement, the remote list for this folder shows exactly
/// the recreated declared rules; replaying the decision against that state
/// keeps everything: the replacement never cascades into a second one.
pub proof fn lemma_replace_then_keep(rs: RulesetV, rendered: ListRulesResponseV)
    requires
        spec_ruleset_normalized(rs),
        rendered.rules.len() == rs.rules.len(),
        forall|i: int|
            0 <= i < rs.rules.len() ==> spec_rule_rendered(
                spec_create_rule_request(rs.rules[i], rs.folder),
                #[trigger] rendered.rules[i],
            ),
    ensures
        spec_ruleset_plan(rs, Ok(rendered)) == Ok::<RulesetActionV, ClientErrorV>(
            RulesetActionV::KeepRules,
        ),
{
    assert forall|i: int| 0 <= i < rendered.rules.len() implies (#[trigger] rendered.rules[
        i]).extensions.folder == rs.folder by {
        assert(spec_rule_rendered(spec_create_rule_request(rs.rules[i], rs.folder), rendered.rules[
            i]));
    }
    lemma_filter_keeps_all(rendered.rules, rs.folder);
    assert forall|i: int| 0 <= i < rs.rules.len() implies spec_is_same_rule(
        rs.rules[i],
        #[trigger] rendered.rules[i],
    ) && !spec_rule_needs_update(rs.rules[i], rendered.rules[i], rs.folder) by {
        assert(spec_rule_rendered(spec_create_rule_request(rs.rules[i], rs.folder), rendered.rules[
            i]));
        assert(rendered.rules[i].extensions.properties == rs.rules[i].properties);
    }
}

} // verus!
