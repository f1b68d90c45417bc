//! The object-store checker's decision logic: existence and listing are
//! independent axes, so a bucket that exists can still fail its listing
//! probe and the result says both.
use crate::models::{S3CheckResult, S3Config};
use vstd::prelude::*;
use vstd::string::*;

verus! {

/// What probing one bucket came to.
pub enum S3ProbeOutcome {
    /// The existence probe failed: the bucket is reported absent.
    BucketUnavailable(String),
    /// The bucket exists but enumerating its entries failed.
    ListFailed(String),
    /// The bucket exists and this many entries were enumerated, up to
    /// the enumeration cap.
    Listed(usize),
}

/// Builds the check result of one bucket from its probe's outcome: a
/// failed existence probe reports `exists` false; a failed enumeration
/// after a successful probe reports `exists` true with the enumeration
/// error; only a completed enumeration counts as success.
pub fn s3_outcome_result(config: &S3Config, outcome: S3ProbeOutcome) -> (r: S3CheckResult)
    ensures
        r.region@ == config.region@,
        r.bucket@ == config.bucket@,
        match outcome {
            S3ProbeOutcome::BucketUnavailable(m) => !r.success && r.exists == Some(false)
                && r.object_count is None && (r.error matches Some(e) && e@
                == "Bucket access failed: "@ + m@),
            S3ProbeOutcome::ListFailed(m) => !r.success && r.exists == Some(true)
                && r.object_count is None && (r.error matches Some(e) && e@
                == "Failed to list objects: "@ + m@),
            S3ProbeOutcome::Listed(n) => r.success && r.exists == Some(true) && r.object_count
                == Some(n) && r.error is None,
        },
{
    match outcome {
        S3ProbeOutcome::BucketUnavailable(m) => {
            let mut msg = String::from_str("Bucket access failed: ");
            msg.append(m.as_str());
            S3CheckResult {
                success: false,
                region: config.region.clone(),
                bucket: config.bucket.clone(),
                exists: Some(false),
                object_count: None,
                error: Some(msg),
            }
        },
        S3ProbeOutcome::ListFailed(m) => {
            let mut msg = String::from_str("Failed to list objects: ");
            msg.append(m.as_str());
            S3CheckResult {
                success: false,
                region: config.region.clone(),
                bucket: config.bucket.clone(),
                exists: Some(true),
                object_count: None,
                error: Some(msg),
            }
        },
        S3ProbeOutcome::Listed(n) => S3CheckResult {
            success: true,
            region: config.region.clone(),
            bucket: config.bucket.clone(),
            exists: Some(true),
            object_count: Some(n),
            error: None,
        },
    }
}

} // verus!
