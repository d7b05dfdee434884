//! Structural resource types that implement the merge contract field by
//! field, selecting a collection strategy per field.

pub mod common;
pub mod cron_job_status;
pub mod event;
pub mod horizontal_pod_autoscaler_spec;
pub mod http_ingress_path;
pub mod node_status;
pub mod object_meta;
pub mod quobyte_volume_source;
pub mod resource_rule;
pub mod rule;
