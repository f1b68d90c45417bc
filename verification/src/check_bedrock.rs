//! The model-catalog checker's decision logic: a completed listing
//! reports the full identifier list and its count; truncating the list
//! for display is a presentation concern, not a check-engine concern.
use crate::models::{BedrockCheckResult, BedrockConfig};
use vstd::prelude::*;
use vstd::string::*;

verus! {

/// What listing the catalog came to.
pub enum BedrockProbeOutcome {
    /// The listing call failed.
    ListFailed(String),
    /// The model identifiers the catalog returned.
    Models(Vec<String>),
}

/// Builds the check result of one catalog probe from its outcome: a
/// completed listing carries the full list and its count.
pub fn bedrock_outcome_result(config: &BedrockConfig, outcome: BedrockProbeOutcome) -> (r:
    BedrockCheckResult)
    ensures
        r.region@ == config.region@,
        match outcome {
            BedrockProbeOutcome::ListFailed(m) => !r.success && r.model_count is None
                && r.models is None && (r.error matches Some(e) && e@
                == "Failed to list foundation models: "@ + m@),
            BedrockProbeOutcome::Models(models) => r.success && r.model_count == Some(
                models@.len() as usize,
            ) && r.models == Some(models) && r.error is None,
        },
{
    match outcome {
        BedrockProbeOutcome::ListFailed(m) => {
            let mut msg = String::from_str("Failed to list foundation models: ");
            msg.append(m.as_str());
            BedrockCheckResult {
                success: false,
                region: config.region.clone(),
                model_count: None,
                models: None,
                error: Some(msg),
            }
        },
        BedrockProbeOutcome::Models(models) => {
            let count = models.len();
            BedrockCheckResult {
                success: true,
                region: config.region.clone(),
                model_count: Some(count),
                models: Some(models),
                error: None,
            }
        },
    }
}

} // verus!
