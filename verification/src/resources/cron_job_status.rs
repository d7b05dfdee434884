//! The observed state of a cron job.

use vstd::prelude::*;

use crate::deep_merge::DeepMerge;
use crate::resources::common::{ObjectReference, ObjectReferenceView};
use crate::strategies;
use crate::strategies::atomic_merged;
use crate::types::Time;

verus! {

/// CronJobStatus lists the currently running jobs and the last schedule
/// time.  The job list carries the atomic strategy: a present source list
/// replaces the target list wholesale.
#[derive(Debug, Clone, PartialEq)]
pub struct CronJobStatus {
    /// Pointers to the currently running jobs.
    pub active: Option<Vec<ObjectReference>>,
    /// When the job was last scheduled successfully.
    pub last_schedule_time: Option<Time>,
}

/// The mathematical shape of a [`CronJobStatus`].
pub struct CronJobStatusView {
    pub active: Option<Seq<ObjectReferenceView>>,
    pub last_schedule_time: Option<Time>,
}

impl DeepView for CronJobStatus {
    type V = CronJobStatusView;

    open spec fn deep_view(&self) -> CronJobStatusView {
        CronJobStatusView {
            active: self.active.deep_view(),
            last_schedule_time: self.last_schedule_time.deep_view(),
        }
    }
}

impl DeepMerge for CronJobStatus {
    open spec fn merged_view(pre: CronJobStatusView, other: CronJobStatusView) -> CronJobStatusView {
        CronJobStatusView {
            active: atomic_merged(pre.active, other.active),
            last_schedule_time: <Option<Time> as DeepMerge>::merged_view(
                pre.last_schedule_time,
                other.last_schedule_time,
            ),
        }
    }

    fn merge_from(&mut self, other: Self) {
        strategies::list::atomic(&mut self.active, other.active);
        self.last_schedule_time.merge_from(other.last_schedule_time);
    }
}

} // verus!
