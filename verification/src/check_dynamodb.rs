//! The wide-column table checker's decision logic: a table absent from
//! an otherwise successful describe response is a distinct not-found
//! error, and a found table's status, approximate item count and size
//! pass through unchanged.
use crate::models::{DynamoDBCheckResult, DynamoDBConfig};
use vstd::prelude::*;
use vstd::string::*;

verus! {

/// What describing one table came to.
pub enum DynamoDbProbeOutcome {
    /// The describe call itself failed.
    DescribeFailed(String),
    /// The call succeeded but carried no table description.
    TableMissing,
    /// The described table's status, approximate item count and size in
    /// bytes, each as the backend reported it.
    Found { status: Option<String>, item_count: Option<i64>, table_size_bytes: Option<i64> },
}

/// Builds the check result of one table from its probe's outcome.
pub fn dynamodb_outcome_result(config: &DynamoDBConfig, outcome: DynamoDbProbeOutcome) -> (r:
    DynamoDBCheckResult)
    ensures
        r.region@ == config.region@,
        r.table@ == config.table@,
        match outcome {
            DynamoDbProbeOutcome::DescribeFailed(m) => !r.success && r.status is None
                && r.item_count is None && r.table_size_bytes is None && (
            r.error matches Some(e) && e@ == "Failed to describe table: "@ + m@),
            DynamoDbProbeOutcome::TableMissing => !r.success && r.status is None
                && r.item_count is None && r.table_size_bytes is None && (
            r.error matches Some(e) && e@ == "Table not found in response"@),
            DynamoDbProbeOutcome::Found { status, item_count, table_size_bytes } => r.success
                && r.status == status && r.item_count == item_count && r.table_size_bytes
                == table_size_bytes && r.error is None,
        },
{
    match outcome {
        DynamoDbProbeOutcome::DescribeFailed(m) => {
            let mut msg = String::from_str("Failed to describe table: ");
            msg.append(m.as_str());
            DynamoDBCheckResult {
                success: false,
                region: config.region.clone(),
                table: config.table.clone(),
                status: None,
                item_count: None,
                table_size_bytes: None,
                error: Some(msg),
            }
        },
        DynamoDbProbeOutcome::TableMissing => DynamoDBCheckResult {
            success: false,
            region: config.region.clone(),
            table: config.table.clone(),
            status: None,
            item_count: None,
            table_size_bytes: None,
            error: Some(String::from_str("Table not found in response")),
        },
        DynamoDbProbeOutcome::Found { status, item_count, table_size_bytes } => DynamoDBCheckResult {
            success: true,
            region: config.region.clone(),
            table: config.table.clone(),
            status,
            item_count,
            table_size_bytes,
            error: None,
        },
    }
}

} // verus!
