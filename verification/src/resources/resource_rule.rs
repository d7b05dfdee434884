//! The actions a subject may perform on a set of resources.

use vstd::prelude::*;

use crate::deep_merge::DeepMerge;
use crate::strategies;
use crate::strategies::atomic_merged;

verus! {

/// ResourceRule lists the verbs a subject may apply to a set of resources.
///
/// Every list field carries the atomic strategy: a present source list
/// replaces the target list wholesale.
#[derive(Debug, Clone, PartialEq)]
pub struct ResourceRule {
    /// The API groups that contain the resources.
    pub api_groups: Option<Vec<String>>,
    /// An optional allow-list of names the rule applies to.
    pub resource_names: Option<Vec<String>>,
    /// The resources this rule applies to.
    pub resources: Option<Vec<String>>,
    /// The allowed resource API verbs.
    pub verbs: Vec<String>,
}

/// The mathematical shape of a [`ResourceRule`].
pub struct ResourceRuleView {
    pub api_groups: Option<Seq<Seq<char>>>,
    pub resource_names: Option<Seq<Seq<char>>>,
    pub resources: Option<Seq<Seq<char>>>,
    pub verbs: Seq<Seq<char>>,
}

impl DeepView for ResourceRule {
    type V = ResourceRuleView;

    open spec fn deep_view(&self) -> ResourceRuleView {
        ResourceRuleView {
            api_groups: self.api_groups.deep_view(),
            resource_names: self.resource_names.deep_view(),
            resources: self.resources.deep_view(),
            verbs: self.verbs.deep_view(),
        }
    }
}

impl DeepMerge for ResourceRule {
    open spec fn merged_view(pre: ResourceRuleView, other: ResourceRuleView) -> ResourceRuleView {
        ResourceRuleView {
            api_groups: atomic_merged(pre.api_groups, other.api_groups),
            resource_names: atomic_merged(pre.resource_names, other.resource_names),
            resources: atomic_merged(pre.resources, other.resources),
            verbs: other.verbs,
        }
    }

    fn merge_from(&mut self, other: Self) {
        strategies::list::atomic(&mut self.api_groups, other.api_groups);
        strategies::list::atomic(&mut self.resource_names, other.resource_names);
        strategies::list::atomic(&mut self.resources, other.resources);
        strategies::list::atomic(&mut self.verbs, other.verbs);
    }
}

} // verus!
