//! The report aggregator: merges the redacted snapshot with the per-kind
//! result maps. A kind with at least one configured instance appears as
//! its identifier-keyed results; a kind with none is absent entirely,
//! not present as an empty map.
use crate::models::{
    BedrockCheckResult, DynamoDBCheckResult, HttpCheckResult, InfoResponse, MemoryDBCheckResult,
    NoSqlCheckResult, S3CheckResult, SecretsManagerCheckResult, SqlCheckResult,
};
use vstd::prelude::*;

verus! {

/// Merges the redacted snapshot and the eight per-kind result maps into
/// the aggregate report: every kind's field is present exactly when that
/// kind had at least one result, and then carries those results
/// unchanged.
pub fn build_report(
    environments: Vec<(String, String)>,
    sql: Vec<(String, SqlCheckResult)>,
    nosql: Vec<(String, NoSqlCheckResult)>,
    http: Vec<(String, HttpCheckResult)>,
    s3: Vec<(String, S3CheckResult)>,
    memorydb: Vec<(String, MemoryDBCheckResult)>,
    secrets_manager: Vec<(String, SecretsManagerCheckResult)>,
    dynamodb: Vec<(String, DynamoDBCheckResult)>,
    bedrock: Vec<(String, BedrockCheckResult)>,
) -> (r: InfoResponse)
    ensures
        r.environments == environments,
        r.sql == (if sql@.len() == 0 {
            None::<Vec<(String, SqlCheckResult)>>
        } else {
            Some(sql)
        }),
        r.nosql == (if nosql@.len() == 0 {
            None::<Vec<(String, NoSqlCheckResult)>>
        } else {
            Some(nosql)
        }),
        r.http == (if http@.len() == 0 {
            None::<Vec<(String, HttpCheckResult)>>
        } else {
            Some(http)
        }),
        r.s3 == (if s3@.len() == 0 {
            None::<Vec<(String, S3CheckResult)>>
        } else {
            Some(s3)
        }),
        r.memorydb == (if memorydb@.len() == 0 {
            None::<Vec<(String, MemoryDBCheckResult)>>
        } else {
            Some(memorydb)
        }),
        r.secrets_manager == (if secrets_manager@.len() == 0 {
            None::<Vec<(String, SecretsManagerCheckResult)>>
        } else {
            Some(secrets_manager)
        }),
        r.dynamodb == (if dynamodb@.len() == 0 {
            None::<Vec<(String, DynamoDBCheckResult)>>
        } else {
            Some(dynamodb)
        }),
        r.bedrock == (if bedrock@.len() == 0 {
            None::<Vec<(String, BedrockCheckResult)>>
        } else {
            Some(bedrock)
        }),
{
    InfoResponse {
        environments,
        sql: if sql.len() == 0 {
            None
        } else {
            Some(sql)
        },
        nosql: if nosql.len() == 0 {
            None
        } else {
            Some(nosql)
        },
        http: if http.len() == 0 {
            None
        } else {
            Some(http)
        },
        s3: if s3.len() == 0 {
            None
        } else {
            Some(s3)
        },
        memorydb: if memorydb.len() == 0 {
            None
        } else {
            Some(memorydb)
        },
        secrets_manager: if secrets_manager.len() == 0 {
            None
        } else {
            Some(secrets_manager)
        },
        dynamodb: if dynamodb.len() == 0 {
            None
        } else {
            Some(dynamodb)
        },
        bedrock: if bedrock.len() == 0 {
            None
        } else {
            Some(bedrock)
        },
    }
}

} // verus!
