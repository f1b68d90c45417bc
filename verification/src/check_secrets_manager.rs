//! The secret-store checker's decision logic: a successful describe call
//! reports existence and echoes one version identifier. Which version is
//! echoed follows the backend's own iteration order over an unordered
//! mapping, so the caller hands over whatever entry it saw first; the
//! selection is not deterministic across calls and no contract here
//! claims it is.
use crate::models::{SecretsManagerCheckResult, SecretsManagerConfig};
use vstd::prelude::*;
use vstd::string::*;

verus! {

/// What describing one secret came to.
pub enum SecretsProbeOutcome {
    /// The describe call failed: the secret is reported absent.
    DescribeFailed(String),
    /// The secret exists; the version identifier is an arbitrary entry
    /// of the version-to-stage mapping, if that mapping is present.
    Found { version_id: Option<String> },
}

/// Builds the check result of one secret from its probe's outcome.
pub fn secrets_manager_outcome_result(
    config: &SecretsManagerConfig,
    outcome: SecretsProbeOutcome,
) -> (r: SecretsManagerCheckResult)
    ensures
        r.region@ == config.region@,
        r.secret_name@ == config.secret_name@,
        match outcome {
            SecretsProbeOutcome::DescribeFailed(m) => !r.success && r.exists == Some(false)
                && r.version_id is None && (r.error matches Some(e) && e@
                == "Failed to describe secret: "@ + m@),
            SecretsProbeOutcome::Found { version_id } => r.success && r.exists == Some(true)
                && r.version_id == version_id && r.error is None,
        },
{
    match outcome {
        SecretsProbeOutcome::DescribeFailed(m) => {
            let mut msg = String::from_str("Failed to describe secret: ");
            msg.append(m.as_str());
            SecretsManagerCheckResult {
                success: false,
                region: config.region.clone(),
                secret_name: config.secret_name.clone(),
                exists: Some(false),
                version_id: None,
                error: Some(msg),
            }
        },
        SecretsProbeOutcome::Found { version_id } => SecretsManagerCheckResult {
            success: true,
            region: config.region.clone(),
            secret_name: config.secret_name.clone(),
            exists: Some(true),
            version_id,
            error: None,
        },
    }
}

} // verus!
