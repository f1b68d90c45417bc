//! The cache-cluster checker's decision logic: a describe call that
//! returns no clusters is a distinct not-found error, and the first
//! returned cluster's status, endpoint and shard count fill the result.
//! The shard count lands in the result's node-count field: the wire
//! format names it that way, so the name stays even though the value
//! counts shards.
use crate::extract::or_default;
use crate::models::{MemoryDBCheckResult, MemoryDBConfig};
use vstd::prelude::*;
use vstd::string::*;

verus! {

/// What describing one cluster came to.
pub enum MemoryDbProbeOutcome {
    /// The describe call itself failed.
    DescribeFailed(String),
    /// The call succeeded but returned zero clusters.
    NoClusters,
    /// The first returned cluster: its status string if any, its
    /// endpoint address if any, and its shard count with absent counts
    /// already read as zero.
    Found { status: Option<String>, endpoint: Option<String>, shards: usize },
}

/// Builds the check result of one cluster from its probe's outcome: an
/// absent status reads `unknown`, and the shard count lands in the
/// node-count field.
pub fn memorydb_outcome_result(config: &MemoryDBConfig, outcome: MemoryDbProbeOutcome) -> (r:
    MemoryDBCheckResult)
    ensures
        r.region@ == config.region@,
        r.cluster@ == config.cluster@,
        match outcome {
            MemoryDbProbeOutcome::DescribeFailed(m) => !r.success && r.endpoint is None
                && r.status is None && r.node_count is None && (r.error matches Some(e) && e@
                == "Failed to describe cluster: "@ + m@),
            MemoryDbProbeOutcome::NoClusters => !r.success && r.endpoint is None
                && r.status is None && r.node_count is None && (r.error matches Some(e) && e@
                == "No clusters returned in response"@),
            MemoryDbProbeOutcome::Found { status, endpoint, shards } => r.success && r.endpoint
                == endpoint && (r.status matches Some(st) && st@ == or_default(
                status.deep_view(),
                "unknown"@,
            )) && r.node_count == Some(shards) && r.error is None,
        },
{
    match outcome {
        MemoryDbProbeOutcome::DescribeFailed(m) => {
            let mut msg = String::from_str("Failed to describe cluster: ");
            msg.append(m.as_str());
            MemoryDBCheckResult {
                success: false,
                region: config.region.clone(),
                cluster: config.cluster.clone(),
                endpoint: None,
                status: None,
                node_count: None,
                error: Some(msg),
            }
        },
        MemoryDbProbeOutcome::NoClusters => MemoryDBCheckResult {
            success: false,
            region: config.region.clone(),
            cluster: config.cluster.clone(),
            endpoint: None,
            status: None,
            node_count: None,
            error: Some(String::from_str("No clusters returned in response")),
        },
        MemoryDbProbeOutcome::Found { status, endpoint, shards } => {
            let st = match status {
                Some(s) => s,
                None => String::from_str("unknown"),
            };
            MemoryDBCheckResult {
                success: true,
                region: config.region.clone(),
                cluster: config.cluster.clone(),
                endpoint,
                status: Some(st),
                node_count: Some(shards),
                error: None,
            }
        },
    }
}

} // verus!
