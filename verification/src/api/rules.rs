//! Rule wire model: rule properties, match conditions, and the payloads of
//! the list, create, delete and move calls.

use vstd::prelude::*;
use crate::models::clone_opt_string;
use crate::models::clone_opt_bool;
use crate::models::clone_vec_string;
use crate::models::eq_opt_bool;
use crate::models::eq_opt_string;
use crate::models::eq_string;
use crate::models::eq_vec_string;

verus! {

broadcast use crate::models::lemma_vec_deep_view_len, crate::models::lemma_vec_deep_view_index;

/// Presentation fields of a rule; the comment doubles as the carrier of the
/// identity marker.
#[derive(Debug)]
pub struct RuleProperties {
    pub description: Option<String>,
    pub comment: Option<String>,
    pub documentation_url: Option<String>,
    pub disabled: Option<bool>,
}

pub struct RulePropertiesV {
    pub description: Option<Seq<char>>,
    pub comment: Option<Seq<char>>,
    pub documentation_url: Option<Seq<char>>,
    pub disabled: Option<bool>,
}

impl DeepView for RuleProperties {
    type V = RulePropertiesV;

    open spec fn deep_view(&self) -> RulePropertiesV {
        RulePropertiesV {
            description: self.description.deep_view(),
            comment: self.comment.deep_view(),
            documentation_url: self.documentation_url.deep_view(),
            disabled: self.disabled,
        }
    }
}

/// A rule that sets no explicit disabled flag counts as enabled.
pub fn default_option_false() -> (r: Option<bool>)
    ensures
        r == Some(false),
{
    Some(false)
}

/// Properties default to empty presentation fields with the rule enabled.
pub open spec fn spec_default_rule_properties() -> RulePropertiesV {
    RulePropertiesV { description: None, comment: None, documentation_url: None, disabled: Some(
        false,
    ) }
}

impl Default for RuleProperties {
    fn default() -> (r: Self)
        ensures
            r.deep_view() == spec_default_rule_properties(),
    {
        RuleProperties {
            description: None,
            comment: None,
            documentation_url: None,
            disabled: default_option_false(),
        }
    }
}

impl Clone for RuleProperties {
    fn clone(&self) -> (r: Self)
        ensures
            r.deep_view() == self.deep_view(),
    {
        RuleProperties {
            description: clone_opt_string(&self.description),
            comment: clone_opt_string(&self.comment),
            documentation_url: clone_opt_string(&self.documentation_url),
            disabled: clone_opt_bool(&self.disabled),
        }
    }
}

pub fn eq_rule_properties(a: &RuleProperties, b: &RuleProperties) -> (r: bool)
    ensures
        r == (a.deep_view() == b.deep_view()),
{
    eq_opt_string(&a.description, &b.description) && eq_opt_string(&a.comment, &b.comment)
        && eq_opt_string(&a.documentation_url, &b.documentation_url) && eq_opt_bool(
        &a.disabled,
        &b.disabled,
    )
}

#[derive(Clone, Copy, Debug, PartialEq, Eq, Hash, Structural)]
pub enum HostNameConditionOperator {
    OneOf,
    NoneOf,
}

impl DeepView for HostNameConditionOperator {
    type V = HostNameConditionOperator;

    open spec fn deep_view(&self) -> HostNameConditionOperator {
        *self
    }
}

#[derive(Debug)]
pub struct HostNameCondition {
    pub match_on: Vec<String>,
    pub operator: Option<HostNameConditionOperator>,
}

pub struct HostNameConditionV {
    pub match_on: Seq<Seq<char>>,
    pub operator: Option<HostNameConditionOperator>,
}

impl DeepView for HostNameCondition {
    type V = HostNameConditionV;

    open spec fn deep_view(&self) -> HostNameConditionV {
        HostNameConditionV { match_on: self.match_on.deep_view(), operator: self.operator }
    }
}

impl Clone for HostNameCondition {
    fn clone(&self) -> (r: Self)
        ensures
            r.deep_view() == self.deep_view(),
    {
        HostNameCondition {
            match_on: clone_vec_string(&self.match_on),
            operator: match &self.operator {
                Option::None => Option::None,
                Option::Some(o) => Option::Some(*o),
            },
        }
    }
}

pub fn eq_host_name_condition(a: &HostNameCondition, b: &HostNameCondition) -> (r: bool)
    ensures
        r == (a.deep_view() == b.deep_view()),
{
    let ops_equal = match (&a.operator, &b.operator) {
        (Option::None, Option::None) => true,
        (Option::Some(x), Option::Some(y)) => *x == *y,
        _ => false,
    };
    ops_equal && eq_vec_string(&a.match_on, &b.match_on)
}

#[derive(Clone, Copy, Debug, PartialEq, Eq, Hash, Structural)]
pub enum HostTagsConditionOperator {
    Is,
    IsNot,
    OneOf,
    NoneOf,
}

impl DeepView for HostTagsConditionOperator {
    type V = HostTagsConditionOperator;

    open spec fn deep_view(&self) -> HostTagsConditionOperator {
        *self
    }
}

#[derive(Debug)]
pub struct HostTagsCondition {
    pub key: Option<String>,
    pub operator: Option<HostTagsConditionOperator>,
    pub value: Option<String>,
}

pub struct HostTagsConditionV {
    pub key: Option<Seq<char>>,
    pub operator: Option<HostTagsConditionOperator>,
    pub value: Option<Seq<char>>,
}

impl DeepView for HostTagsCondition {
    type V = HostTagsConditionV;

    open spec fn deep_view(&self) -> HostTagsConditionV {
        HostTagsConditionV {
            key: self.key.deep_view(),
            operator: self.operator,
            value: self.value.deep_view(),
        }
    }
}

impl Clone for HostTagsCondition {
    fn clone(&self) -> (r: Self)
        ensures
            r.deep_view() == self.deep_view(),
    {
        HostTagsCondition {
            key: clone_opt_string(&self.key),
            operator: match &self.operator {
                Option::None => Option::None,
                Option::Some(o) => Option::Some(*o),
            },
            value: clone_opt_string(&self.value),
        }
    }
}

pub fn eq_host_tags_condition(a: &HostTagsCondition, b: &HostTagsCondition) -> (r: bool)
    ensures
        r == (a.deep_view() == b.deep_view()),
{
    let ops_equal = match (&a.operator, &b.operator) {
        (Option::None, Option::None) => true,
        (Option::Some(x), Option::Some(y)) => *x == *y,
        _ => false,
    };
    ops_equal && eq_opt_string(&a.key, &b.key) && eq_opt_string(&a.value, &b.value)
}

#[derive(Clone, Copy, Debug, PartialEq, Eq, Hash, Structural)]
pub enum HostLabelsConditionOperator {
    Is,
    IsNot,
}

impl DeepView for HostLabelsConditionOperator {
    type V = HostLabelsConditionOperator;

    open spec fn deep_view(&self) -> HostLabelsConditionOperator {
        *self
    }
}

#[derive(Debug)]
pub struct HostLabelsCondition {
    pub key: Option<String>,
    pub operator: Option<HostLabelsConditionOperator>,
    pub value: Option<String>,
}

pub struct HostLabelsConditionV {
    pub key: Option<Seq<char>>,
    pub operator: Option<HostLabelsConditionOperator>,
    pub value: Option<Seq<char>>,
}

impl DeepView for HostLabelsCondition {
    type V = HostLabelsConditionV;

    open spec fn deep_view(&self) -> HostLabelsConditionV {
        HostLabelsConditionV {
            key: self.key.deep_view(),
            operator: self.operator,
            value: self.value.deep_view(),
        }
    }
}

impl Clone for HostLabelsCondition {
    fn clone(&self) -> (r: Self)
        ensures
            r.deep_view() == self.deep_view(),
    {
        HostLabelsCondition {
            key: clone_opt_string(&self.key),
            operator: match &self.operator {
                Option::None => Option::None,
                Option::Some(o) => Option::Some(*o),
            },
            value: clone_opt_string(&self.value),
        }
    }
}

pub fn eq_host_labels_condition(a: &HostLabelsCondition, b: &HostLabelsCondition) -> (r: bool)
    ensures
        r == (a.deep_view() == b.deep_view()),
{
    let ops_equal = match (&a.operator, &b.operator) {
        (Option::None, Option::None) => true,
        (Option::Some(x), Option::Some(y)) => *x == *y,
        _ => false,
    };
    ops_equal && eq_opt_string(&a.key, &b.key) && eq_opt_string(&a.value, &b.value)
}

#[derive(Clone, Copy, Debug, PartialEq, Eq, Hash, Structural)]
pub enum ServiceLabelsConditionOperator {
    Is,
    IsNot,
}

impl DeepView for ServiceLabelsConditionOperator {
    type V = ServiceLabelsConditionOperator;

    open spec fn deep_view(&self) -> ServiceLabelsConditionOperator {
        *self
    }
}

#[derive(Debug)]
pub struct ServiceLabelsCondition {
    pub key: Option<String>,
    pub operator: Option<ServiceLabelsConditionOperator>,
    pub value: Option<String>,
}

pub struct ServiceLabelsConditionV {
    pub key: Option<Seq<char>>,
    pub operator: Option<ServiceLabelsConditionOperator>,
    pub value: Option<Seq<char>>,
}

impl DeepView for ServiceLabelsCondition {
    type V = ServiceLabelsConditionV;

    open spec fn deep_view(&self) -> ServiceLabelsConditionV {
        ServiceLabelsConditionV {
            key: self.key.deep_view(),
            operator: self.operator,
            value: self.value.deep_view(),
        }
    }
}

impl Clone for ServiceLabelsCondition {
    fn clone(&self) -> (r: Self)
        ensures
            r.deep_view() == self.deep_view(),
    {
        ServiceLabelsCondition {
            key: clone_opt_string(&self.key),
            operator: match &self.operator {
                Option::None => Option::None,
                Option::Some(o) => Option::Some(*o),
            },
            value: clone_opt_string(&self.value),
        }
    }
}

pub fn eq_service_labels_condition(a: &ServiceLabelsCondition, b: &ServiceLabelsCondition) -> (r:
    bool)
    ensures
        r == (a.deep_view() == b.deep_view()),
{
    let ops_equal = match (&a.operator, &b.operator) {
        (Option::None, Option::None) => true,
        (Option::Some(x), Option::Some(y)) => *x == *y,
        _ => false,
    };
    ops_equal && eq_opt_string(&a.key, &b.key) && eq_opt_string(&a.value, &b.value)
}

#[derive(Clone, Copy, Debug, PartialEq, Eq, Hash, Structural)]
pub enum ServiceDescriptionConditionOperator {
    OneOf,
    NoneOf,
}

impl DeepView for ServiceDescriptionConditionOperator {
    type V = ServiceDescriptionConditionOperator;

    open spec fn deep_view(&self) -> ServiceDescriptionConditionOperator {
        *self
    }
}

#[derive(Debug)]
pub struct ServiceDescriptionCondition {
    pub match_on: Vec<String>,
    pub operator: Option<ServiceDescriptionConditionOperator>,
}

pub struct ServiceDescriptionConditionV {
    pub match_on: Seq<Seq<char>>,
    pub operator: Option<ServiceDescriptionConditionOperator>,
}

impl DeepView for ServiceDescriptionCondition {
    type V = ServiceDescriptionConditionV;

    open spec fn deep_view(&self) -> ServiceDescriptionConditionV {
        ServiceDescriptionConditionV {
            match_on: self.match_on.deep_view(),
            operator: self.operator,
        }
    }
}

impl Clone for ServiceDescriptionCondition {
    fn clone(&self) -> (r: Self)
        ensures
            r.deep_view() == self.deep_view(),
    {
        ServiceDescriptionCondition {
            match_on: clone_vec_string(&self.match_on),
            operator: match &self.operator {
                Option::None => Option::None,
                Option::Some(o) => Option::Some(*o),
            },
        }
    }
}

pub fn eq_service_description_condition(
    a: &ServiceDescriptionCondition,
    b: &ServiceDescriptionCondition,
) -> (r: bool)
    ensures
        r == (a.deep_view() == b.deep_view()),
{
    let ops_equal = match (&a.operator, &b.operator) {
        (Option::None, Option::None) => true,
        (Option::Some(x), Option::Some(y)) => *x == *y,
        _ => false,
    };
    ops_equal && eq_vec_string(&a.match_on, &b.match_on)
}

/// The match expressions that scope a rule.
#[derive(Debug)]
pub struct RuleConditions {
    pub host_name: Option<HostNameCondition>,
    pub host_tags: Vec<HostTagsCondition>,
    pub host_labels: Vec<HostLabelsCondition>,
    pub service_labels: Vec<ServiceLabelsCondition>,
    pub service_description: Option<ServiceDescriptionCondition>,
}

pub struct RuleConditionsV {
    pub host_name: Option<HostNameConditionV>,
    pub host_tags: Seq<HostTagsConditionV>,
    pub host_labels: Seq<HostLabelsConditionV>,
    pub service_labels: Seq<ServiceLabelsConditionV>,
    pub service_description: Option<ServiceDescriptionConditionV>,
}

impl DeepView for RuleConditions {
    type V = RuleConditionsV;

    open spec fn deep_view(&self) -> RuleConditionsV {
        RuleConditionsV {
            host_name: self.host_name.deep_view(),
            host_tags: self.host_tags.deep_view(),
            host_labels: self.host_labels.deep_view(),
            service_labels: self.service_labels.deep_view(),
            service_description: self.service_description.deep_view(),
        }
    }
}

/// Conditions default to matching everything: no expression set.
pub open spec fn spec_default_rule_conditions() -> RuleConditionsV {
    RuleConditionsV {
        host_name: None,
        host_tags: Seq::empty(),
        host_labels: Seq::empty(),
        service_labels: Seq::empty(),
        service_description: None,
    }
}

impl Default for RuleConditions {
    fn default() -> (r: Self)
        ensures
            r.deep_view() == spec_default_rule_conditions(),
    {
        let r = RuleConditions {
            host_name: None,
            host_tags: Vec::new(),
            host_labels: Vec::new(),
            service_labels: Vec::new(),
            service_description: None,
        };
        proof {
            assert(r.host_tags.deep_view() =~= Seq::<HostTagsConditionV>::empty());
            assert(r.host_labels.deep_view() =~= Seq::<HostLabelsConditionV>::empty());
            assert(r.service_labels.deep_view() =~= Seq::<ServiceLabelsConditionV>::empty());
        }
        r
    }
}

impl Clone for RuleConditions {
    fn clone(&self) -> (r: Self)
        ensures
            r.deep_view() == self.deep_view(),
    {
        let mut host_tags: Vec<HostTagsCondition> = Vec::new();
        let mut i: usize = 0;
        while i < self.host_tags.len()
            invariant
                i <= self.host_tags.len(),
                host_tags.len() == i,
                forall|k: int|
                    0 <= k < i ==> host_tags@[k].deep_view() == self.host_tags@[k].deep_view(),
            decreases self.host_tags.len() - i,
        {
            host_tags.push(self.host_tags[i].clone());
            i = i + 1;
        }
        let mut host_labels: Vec<HostLabelsCondition> = Vec::new();
        let mut i: usize = 0;
        while i < self.host_labels.len()
            invariant
                i <= self.host_labels.len(),
                host_labels.len() == i,
                forall|k: int|
                    0 <= k < i ==> host_labels@[k].deep_view() == self.host_labels@[k].deep_view(),
            decreases self.host_labels.len() - i,
        {
            host_labels.push(self.host_labels[i].clone());
            i = i + 1;
        }
        let mut service_labels: Vec<ServiceLabelsCondition> = Vec::new();
        let mut i: usize = 0;
        while i < self.service_labels.len()
            invariant
                i <= self.service_labels.len(),
                service_labels.len() == i,
                forall|k: int|
                    0 <= k < i ==> service_labels@[k].deep_view() == self.service_labels@[
                        k].deep_view(),
            decreases self.service_labels.len() - i,
        {
            service_labels.push(self.service_labels[i].clone());
            i = i + 1;
        }
        proof {
            assert(host_tags.deep_view() =~= self.host_tags.deep_view());
            assert(host_labels.deep_view() =~= self.host_labels.deep_view());
            assert(service_labels.deep_view() =~= self.service_labels.deep_view());
        }
        RuleConditions {
            host_name: match &self.host_name {
                Option::None => Option::None,
                Option::Some(c) => Option::Some(c.clone()),
            },
            host_tags,
            host_labels,
            service_labels,
            service_description: match &self.service_description {
                Option::None => Option::None,
                Option::Some(c) => Option::Some(c.clone()),
            },
        }
    }
}

fn eq_host_tags_conditions(a: &Vec<HostTagsCondition>, b: &Vec<HostTagsCondition>) -> (r: bool)
    ensures
        r == (a.deep_view() == b.deep_view()),
{
    proof {
        assert(a.deep_view().len() == a@.len());
        assert(b.deep_view().len() == b@.len());
    }
    if a.len() != b.len() {
        return false;
    }
    let mut i: usize = 0;
    while i < a.len()
        invariant
            a.len() == b.len(),
            i <= a.len(),
            forall|k: int| 0 <= k < i ==> a.deep_view()[k] == b.deep_view()[k],
        decreases a.len() - i,
    {
        if !eq_host_tags_condition(&a[i], &b[i]) {
            proof {
                assert(a.deep_view()[i as int] == a@[i as int].deep_view());
                assert(b.deep_view()[i as int] == b@[i as int].deep_view());
            }
            return false;
        }
        i = i + 1;
    }
    proof {
        assert(a.deep_view() =~= b.deep_view());
    }
    true
}

fn eq_host_labels_conditions(a: &Vec<HostLabelsCondition>, b: &Vec<HostLabelsCondition>) -> (r:
    bool)
    ensures
        r == (a.deep_view() == b.deep_view()),
{
    proof {
        assert(a.deep_view().len() == a@.len());
        assert(b.deep_view().len() == b@.len());
    }
    if a.len() != b.len() {
        return false;
    }
    let mut i: usize = 0;
    while i < a.len()
        invariant
            a.len() == b.len(),
            i <= a.len(),
            forall|k: int| 0 <= k < i ==> a.deep_view()[k] == b.deep_view()[k],
        decreases a.len() - i,
    {
        if !eq_host_labels_condition(&a[i], &b[i]) {
            proof {
                assert(a.deep_view()[i as int] == a@[i as int].deep_view());
                assert(b.deep_view()[i as int] == b@[i as int].deep_view());
            }
            return false;
        }
        i = i + 1;
    }
    proof {
        assert(a.deep_view() =~= b.deep_view());
    }
    true
}

fn eq_service_labels_conditions(a: &Vec<ServiceLabelsCondition>, b: &Vec<ServiceLabelsCondition>)
    -> (r: bool)
    ensures
        r == (a.deep_view() == b.deep_view()),
{
    proof {
        assert(a.deep_view().len() == a@.len());
        assert(b.deep_view().len() == b@.len());
    }
    if a.len() != b.len() {
        return false;
    }
    let mut i: usize = 0;
    while i < a.len()
        invariant
            a.len() == b.len(),
            i <= a.len(),
            forall|k: int| 0 <= k < i ==> a.deep_view()[k] == b.deep_view()[k],
        decreases a.len() - i,
    {
        if !eq_service_labels_condition(&a[i], &b[i]) {
            proof {
                assert(a.deep_view()[i as int] == a@[i as int].deep_view());
                assert(b.deep_view()[i as int] == b@[i as int].deep_view());
            }
            return false;
        }
        i = i + 1;
    }
    proof {
        assert(a.deep_view() =~= b.deep_view());
    }
    true
}

pub fn eq_rule_conditions(a: &RuleConditions, b: &RuleConditions) -> (r: bool)
    ensures
        r == (a.deep_view() == b.deep_view()),
{
    let host_name_equal = match (&a.host_name, &b.host_name) {
        (Option::None, Option::None) => true,
        (Option::Some(x), Option::Some(y)) => eq_host_name_condition(x, y),
        _ => false,
    };
    let service_description_equal = match (&a.service_description, &b.service_description) {
        (Option::None, Option::None) => true,
        (Option::Some(x), Option::Some(y)) => eq_service_description_condition(x, y),
        _ => false,
    };
    host_name_equal && service_description_equal && eq_host_tags_conditions(
        &a.host_tags,
        &b.host_tags,
    ) && eq_host_labels_conditions(&a.host_labels, &b.host_labels) && eq_service_labels_conditions(
        &a.service_labels,
        &b.service_labels,
    )
}

/// What a rule lookup returns beyond its identifier.
#[derive(Debug)]
pub struct RuleOutputExtensions {
    pub ruleset: Option<String>,
    pub folder: String,
    pub folder_index: Option<i64>,
    pub properties: RuleProperties,
    pub value_raw: String,
    pub conditions: RuleConditions,
}

pub struct RuleOutputExtensionsV {
    pub ruleset: Option<Seq<char>>,
    pub folder: Seq<char>,
    pub folder_index: Option<i64>,
    pub properties: RulePropertiesV,
    pub value_raw: Seq<char>,
    pub conditions: RuleConditionsV,
}

impl DeepView for RuleOutputExtensions {
    type V = RuleOutputExtensionsV;

    open spec fn deep_view(&self) -> RuleOutputExtensionsV {
        RuleOutputExtensionsV {
            ruleset: self.ruleset.deep_view(),
            folder: self.folder@,
            folder_index: self.folder_index,
            properties: self.properties.deep_view(),
            value_raw: self.value_raw@,
            conditions: self.conditions.deep_view(),
        }
    }
}

/// The remote representation of one rule, as the list and show calls return
/// it; the id is the remote system's own, not stable across recreation.
#[derive(Debug)]
pub struct ShowRuleResponse {
    pub id: String,
    pub title: Option<String>,
    pub extensions: RuleOutputExtensions,
}

pub struct ShowRuleResponseV {
    pub id: Seq<char>,
    pub title: Option<Seq<char>>,
    pub extensions: RuleOutputExtensionsV,
}

impl DeepView for ShowRuleResponse {
    type V = ShowRuleResponseV;

    open spec fn deep_view(&self) -> ShowRuleResponseV {
        ShowRuleResponseV {
            id: self.id@,
            title: self.title.deep_view(),
            extensions: self.extensions.deep_view(),
        }
    }
}

impl Clone for ShowRuleResponse {
    fn clone(&self) -> (r: Self)
        ensures
            r.deep_view() == self.deep_view(),
    {
        ShowRuleResponse {
            id: self.id.clone(),
            title: clone_opt_string(&self.title),
            extensions: RuleOutputExtensions {
                ruleset: clone_opt_string(&self.extensions.ruleset),
                folder: self.extensions.folder.clone(),
                folder_index: match &self.extensions.folder_index {
                    Option::None => Option::None,
                    Option::Some(x) => Option::Some(*x),
                },
                properties: self.extensions.properties.clone(),
                value_raw: self.extensions.value_raw.clone(),
                conditions: self.extensions.conditions.clone(),
            },
        }
    }
}

/// The result of listing the rules of one rule set, across all folders.
#[derive(Debug)]
pub struct ListRulesResponse {
    pub id: String,
    pub title: Option<String>,
    pub rules: Vec<ShowRuleResponse>,
}

pub struct ListRulesResponseV {
    pub id: Seq<char>,
    pub title: Option<Seq<char>>,
    pub rules: Seq<ShowRuleResponseV>,
}

impl DeepView for ListRulesResponse {
    type V = ListRulesResponseV;

    open spec fn deep_view(&self) -> ListRulesResponseV {
        ListRulesResponseV {
            id: self.id@,
            title: self.title.deep_view(),
            rules: self.rules.deep_view(),
        }
    }
}

/// The payload of a rule creation call.
#[derive(Debug)]
pub struct CreateRuleRequest {
    pub ruleset: String,
    pub folder: String,
    pub properties: RuleProperties,
    pub value_raw: String,
    pub conditions: RuleConditions,
}

pub struct CreateRuleRequestV {
    pub ruleset: Seq<char>,
    pub folder: Seq<char>,
    pub properties: RulePropertiesV,
    pub value_raw: Seq<char>,
    pub conditions: RuleConditionsV,
}

impl DeepView for CreateRuleRequest {
    type V = CreateRuleRequestV;

    open spec fn deep_view(&self) -> CreateRuleRequestV {
        CreateRuleRequestV {
            ruleset: self.ruleset@,
            folder: self.folder@,
            properties: self.properties.deep_view(),
            value_raw: self.value_raw@,
            conditions: self.conditions.deep_view(),
        }
    }
}

/// The payload of a rule move call.
#[derive(Debug)]
pub enum MoveToPositionRequest {
    TopOfFolder { folder: String },
    BottomOfFolder { folder: String },
    AfterSpecificRule { rule_id: String },
    BeforeSpecificRule { rule_id: String },
}

} // verus!
