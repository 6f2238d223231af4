//! The changes that a plan asks for, each carrying all that executing it needs.

use vstd::prelude::*;

use indexmap::IndexMap;

use crate::resource::{KafkaAcl, KafkaQuota, KafkaTopic};

verus! {

/// One change to apply to a cluster.
#[derive(Clone, Debug, PartialEq)]
pub enum KafkaConnectorOp {
    /// Create the topic at the address with these settings.
    CreateTopic(KafkaTopic),
    /// Raise the topic's partition count to `partitions`.
    UpdateTopicPartitions { partitions: i32 },
    /// Replace the topic's configuration with `config` (the whole map, not a delta).
    UpdateTopicConfig { config: IndexMap<String, String> },
    /// Delete the topic at the address.
    DeleteTopic,
    CreateAcl(KafkaAcl),
    /// Delete exactly this ACL.
    DeleteAcl(KafkaAcl),
    CreateQuota(KafkaQuota),
    /// Overwrite the quota: entity list and all three rates.
    UpdateQuota(KafkaQuota),
    DeleteQuota,
}

/// One step of a plan: the change and a sentence that explains it.
#[derive(Clone, Debug, PartialEq)]
pub struct PlanElement {
    pub op: KafkaConnectorOp,
    pub description: String,
}

} // verus!
