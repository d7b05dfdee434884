//! A tuple of API groups, versions and resources that an admission rule
//! applies to.

use vstd::prelude::*;

use crate::deep_merge::DeepMerge;
use crate::strategies;
use crate::strategies::atomic_merged;

verus! {

/// Rule is a tuple of API groups, API versions and resources.
///
/// Every list field carries the atomic strategy: a present source list
/// replaces the target list wholesale.
#[derive(Debug, Clone, PartialEq)]
pub struct Rule {
    /// The API groups the resources belong to.
    pub api_groups: Option<Vec<String>>,
    /// The API versions the resources belong to.
    pub api_versions: Option<Vec<String>>,
    /// The resources this rule applies to.
    pub resources: Option<Vec<String>>,
}

/// The mathematical shape of a [`Rule`].
pub struct RuleView {
    pub api_groups: Option<Seq<Seq<char>>>,
    pub api_versions: Option<Seq<Seq<char>>>,
    pub resources: Option<Seq<Seq<char>>>,
}

impl DeepView for Rule {
    type V = RuleView;

    open spec fn deep_view(&self) -> RuleView {
        RuleView {
            api_groups: self.api_groups.deep_view(),
            api_versions: self.api_versions.deep_view(),
            resources: self.resources.deep_view(),
        }
    }
}

impl DeepMerge for Rule {
    open spec fn merged_view(pre: RuleView, other: RuleView) -> RuleView {
        RuleView {
            api_groups: atomic_merged(pre.api_groups, other.api_groups),
            api_versions: atomic_merged(pre.api_versions, other.api_versions),
            resources: atomic_merged(pre.resources, other.resources),
        }
    }

    fn merge_from(&mut self, other: Self) {
        strategies::list::atomic(&mut self.api_groups, other.api_groups);
        strategies::list::atomic(&mut self.api_versions, other.api_versions);
        strategies::list::atomic(&mut self.resources, other.resources);
    }
}

/// Idempotence of self-merge for a structural type: merging a rule into
/// an identical copy of itself yields that same rule.
pub proof fn lemma_rule_self_merge(v: RuleView)
    ensures
        Rule::merged_view(v, v) == v,
{
}

} // verus!
