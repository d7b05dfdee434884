//! The desired behaviour of a horizontal pod autoscaler.

use vstd::prelude::*;

use crate::deep_merge::DeepMerge;
use crate::resources::common::{CrossVersionObjectReference, CrossVersionObjectReferenceView};

verus! {

/// HorizontalPodAutoscalerSpec bounds the replica count of a scaled
/// resource and names that resource.  Every field is a scalar or a
/// structural value and merges by overwrite, optional absorption or
/// field-by-field recursion.
#[derive(Debug, Clone, PartialEq)]
pub struct HorizontalPodAutoscalerSpec {
    /// The upper limit for the number of pods.
    pub max_replicas: i32,
    /// The lower limit for the number of pods.
    pub min_replicas: Option<i32>,
    /// The scaled resource.
    pub scale_target_ref: CrossVersionObjectReference,
    /// The target average CPU utilisation, as a percentage.
    pub target_cpu_utilization_percentage: Option<i32>,
}

/// The mathematical shape of a [`HorizontalPodAutoscalerSpec`].
pub struct HorizontalPodAutoscalerSpecView {
    pub max_replicas: i32,
    pub min_replicas: Option<i32>,
    pub scale_target_ref: CrossVersionObjectReferenceView,
    pub target_cpu_utilization_percentage: Option<i32>,
}

impl DeepView for HorizontalPodAutoscalerSpec {
    type V = HorizontalPodAutoscalerSpecView;

    open spec fn deep_view(&self) -> HorizontalPodAutoscalerSpecView {
        HorizontalPodAutoscalerSpecView {
            max_replicas: self.max_replicas,
            min_replicas: self.min_replicas.deep_view(),
            scale_target_ref: self.scale_target_ref.deep_view(),
            target_cpu_utilization_percentage: self.target_cpu_utilization_percentage.deep_view(),
        }
    }
}

impl DeepMerge for HorizontalPodAutoscalerSpec {
    open spec fn merged_view(
        pre: HorizontalPodAutoscalerSpecView,
        other: HorizontalPodAutoscalerSpecView,
    ) -> HorizontalPodAutoscalerSpecView {
        HorizontalPodAutoscalerSpecView {
            max_replicas: other.max_replicas,
            min_replicas: <Option<i32> as DeepMerge>::merged_view(
                pre.min_replicas,
                other.min_replicas,
            ),
            scale_target_ref: CrossVersionObjectReference::merged_view(
                pre.scale_target_ref,
                other.scale_target_ref,
            ),
            target_cpu_utilization_percentage: <Option<i32> as DeepMerge>::merged_view(
                pre.target_cpu_utilization_percentage,
                other.target_cpu_utilization_percentage,
            ),
        }
    }

    fn merge_from(&mut self, other: Self) {
        self.max_replicas.merge_from(other.max_replicas);
        self.min_replicas.merge_from(other.min_replicas);
        self.scale_target_ref.merge_from(other.scale_target_ref);
        self.target_cpu_utilization_percentage.merge_from(
            other.target_cpu_utilization_percentage,
        );
    }
}

} // verus!
