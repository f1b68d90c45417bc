//! Configuration records, check results, and the aggregate report.
//!
//! A configuration record identifies one backend instance of one kind and
//! carries its connection parameters; a check result mirrors the identity
//! fields of its record, a success flag, kind-specific summary fields and
//! an optional error message. Maps are carried as vectors of key/value
//! pairs so that their exact contents can be specified.
use vstd::prelude::*;

verus! {

/// Parsed SQL database configuration from the namespace snapshot.
#[derive(Debug, Clone, PartialEq)]
pub struct SqlConfig {
    pub identifier: String,
    pub driver: String,
    pub host: String,
    pub port: u16,
    pub user: String,
    pub password: String,
    pub database: String,
}

pub struct SqlConfigV {
    pub identifier: Seq<char>,
    pub driver: Seq<char>,
    pub host: Seq<char>,
    pub port: u16,
    pub user: Seq<char>,
    pub password: Seq<char>,
    pub database: Seq<char>,
}

impl View for SqlConfig {
    type V = SqlConfigV;

    open spec fn view(&self) -> SqlConfigV {
        SqlConfigV {
            identifier: self.identifier@,
            driver: self.driver@,
            host: self.host@,
            port: self.port,
            user: self.user@,
            password: self.password@,
            database: self.database@,
        }
    }
}

impl DeepView for SqlConfig {
    type V = SqlConfigV;

    open spec fn deep_view(&self) -> SqlConfigV {
        self.view()
    }
}

/// Parsed key-value store configuration from the namespace snapshot.
#[derive(Debug, Clone, PartialEq)]
pub struct NoSqlConfig {
    pub identifier: String,
    pub driver: String,
    pub host: String,
    pub port: u16,
    pub password: Option<String>,
}

pub struct NoSqlConfigV {
    pub identifier: Seq<char>,
    pub driver: Seq<char>,
    pub host: Seq<char>,
    pub port: u16,
    pub password: Option<Seq<char>>,
}

impl View for NoSqlConfig {
    type V = NoSqlConfigV;

    open spec fn view(&self) -> NoSqlConfigV {
        NoSqlConfigV {
            identifier: self.identifier@,
            driver: self.driver@,
            host: self.host@,
            port: self.port,
            password: self.password.deep_view(),
        }
    }
}

impl DeepView for NoSqlConfig {
    type V = NoSqlConfigV;

    open spec fn deep_view(&self) -> NoSqlConfigV {
        self.view()
    }
}

/// Parsed HTTP endpoint configuration from the namespace snapshot.
#[derive(Debug, Clone, PartialEq)]
pub struct HttpConfig {
    pub identifier: String,
    pub url: String,
    pub method: String,
    pub headers: Vec<(String, String)>,
}

pub struct HttpConfigV {
    pub identifier: Seq<char>,
    pub url: Seq<char>,
    pub method: Seq<char>,
    pub headers: Seq<(Seq<char>, Seq<char>)>,
}

impl View for HttpConfig {
    type V = HttpConfigV;

    open spec fn view(&self) -> HttpConfigV {
        HttpConfigV {
            identifier: self.identifier@,
            url: self.url@,
            method: self.method@,
            headers: self.headers.deep_view(),
        }
    }
}

impl DeepView for HttpConfig {
    type V = HttpConfigV;

    open spec fn deep_view(&self) -> HttpConfigV {
        self.view()
    }
}

/// Parsed object-store bucket configuration from the namespace snapshot.
#[derive(Debug, Clone, PartialEq)]
pub struct S3Config {
    pub identifier: String,
    pub region: String,
    pub bucket: String,
    pub access_key_id: Option<String>,
    pub secret_access_key: Option<String>,
}

/// Parsed cache-cluster configuration from the namespace snapshot.
#[derive(Debug, Clone, PartialEq)]
pub struct MemoryDBConfig {
    pub identifier: String,
    pub region: String,
    pub cluster: String,
    pub access_key_id: Option<String>,
    pub secret_access_key: Option<String>,
}

/// Parsed secret-store configuration from the namespace snapshot.
#[derive(Debug, Clone, PartialEq)]
pub struct SecretsManagerConfig {
    pub identifier: String,
    pub region: String,
    pub secret_name: String,
    pub access_key_id: Option<String>,
    pub secret_access_key: Option<String>,
}

/// Parsed wide-column table configuration from the namespace snapshot.
#[derive(Debug, Clone, PartialEq)]
pub struct DynamoDBConfig {
    pub identifier: String,
    pub region: String,
    pub table: String,
    pub access_key_id: Option<String>,
    pub secret_access_key: Option<String>,
}

/// Parsed model-catalog configuration from the namespace snapshot.
#[derive(Debug, Clone, PartialEq)]
pub struct BedrockConfig {
    pub identifier: String,
    pub region: String,
    pub access_key_id: Option<String>,
    pub secret_access_key: Option<String>,
}

/// The shared shape of the five region-scoped configurations: an
/// identifier, a region, one mandatory name, and the credential override.
pub struct RegionConfigV {
    pub identifier: Seq<char>,
    pub region: Seq<char>,
    pub name: Seq<char>,
    pub access_key_id: Option<Seq<char>>,
    pub secret_access_key: Option<Seq<char>>,
}

impl View for S3Config {
    type V = RegionConfigV;

    open spec fn view(&self) -> RegionConfigV {
        RegionConfigV {
            identifier: self.identifier@,
            region: self.region@,
            name: self.bucket@,
            access_key_id: self.access_key_id.deep_view(),
            secret_access_key: self.secret_access_key.deep_view(),
        }
    }
}

impl DeepView for S3Config {
    type V = RegionConfigV;

    open spec fn deep_view(&self) -> RegionConfigV {
        self.view()
    }
}

impl View for MemoryDBConfig {
    type V = RegionConfigV;

    open spec fn view(&self) -> RegionConfigV {
        RegionConfigV {
            identifier: self.identifier@,
            region: self.region@,
            name: self.cluster@,
            access_key_id: self.access_key_id.deep_view(),
            secret_access_key: self.secret_access_key.deep_view(),
        }
    }
}

impl DeepView for MemoryDBConfig {
    type V = RegionConfigV;

    open spec fn deep_view(&self) -> RegionConfigV {
        self.view()
    }
}

impl View for SecretsManagerConfig {
    type V = RegionConfigV;

    open spec fn view(&self) -> RegionConfigV {
        RegionConfigV {
            identifier: self.identifier@,
            region: self.region@,
            name: self.secret_name@,
            access_key_id: self.access_key_id.deep_view(),
            secret_access_key: self.secret_access_key.deep_view(),
        }
    }
}

impl DeepView for SecretsManagerConfig {
    type V = RegionConfigV;

    open spec fn deep_view(&self) -> RegionConfigV {
        self.view()
    }
}

impl View for DynamoDBConfig {
    type V = RegionConfigV;

    open spec fn view(&self) -> RegionConfigV {
        RegionConfigV {
            identifier: self.identifier@,
            region: self.region@,
            name: self.table@,
            access_key_id: self.access_key_id.deep_view(),
            secret_access_key: self.secret_access_key.deep_view(),
        }
    }
}

impl DeepView for DynamoDBConfig {
    type V = RegionConfigV;

    open spec fn deep_view(&self) -> RegionConfigV {
        self.view()
    }
}

impl View for BedrockConfig {
    type V = RegionConfigV;

    open spec fn view(&self) -> RegionConfigV {
        RegionConfigV {
            identifier: self.identifier@,
            region: self.region@,
            name: Seq::empty(),
            access_key_id: self.access_key_id.deep_view(),
            secret_access_key: self.secret_access_key.deep_view(),
        }
    }
}

impl DeepView for BedrockConfig {
    type V = RegionConfigV;

    open spec fn deep_view(&self) -> RegionConfigV {
        self.view()
    }
}

/// Result of checking a SQL database connection.
#[derive(Debug, PartialEq)]
pub struct SqlCheckResult {
    pub success: bool,
    pub driver: String,
    pub host: String,
    pub port: u16,
    pub database: String,
    pub tables: Option<Vec<String>>,
    pub error: Option<String>,
}

/// Result of checking a key-value store connection.
#[derive(Debug, PartialEq)]
pub struct NoSqlCheckResult {
    pub success: bool,
    pub driver: String,
    pub host: String,
    pub port: u16,
    pub info: Option<Vec<(String, String)>>,
    pub error: Option<String>,
}

/// Result of checking an HTTP endpoint.
#[derive(Debug, PartialEq)]
pub struct HttpCheckResult {
    pub success: bool,
    pub url: String,
    pub method: String,
    pub status_code: Option<u16>,
    pub response_headers: Option<Vec<(String, String)>>,
    pub response_body: Option<String>,
    pub error: Option<String>,
}

/// Result of checking an object-store bucket.
#[derive(Debug, PartialEq)]
pub struct S3CheckResult {
    pub success: bool,
    pub region: String,
    pub bucket: String,
    pub exists: Option<bool>,
    pub object_count: Option<usize>,
    pub error: Option<String>,
}

/// Result of checking a cache cluster. The node-count field carries the
/// shard count that the backend reports: the wire format names the field
/// that way, so the name stays even though the value counts shards.
#[derive(Debug, PartialEq)]
pub struct MemoryDBCheckResult {
    pub success: bool,
    pub region: String,
    pub cluster: String,
    pub endpoint: Option<String>,
    pub status: Option<String>,
    pub node_count: Option<usize>,
    pub error: Option<String>,
}

/// Result of checking a secret-store entry.
#[derive(Debug, PartialEq)]
pub struct SecretsManagerCheckResult {
    pub success: bool,
    pub region: String,
    pub secret_name: String,
    pub exists: Option<bool>,
    pub version_id: Option<String>,
    pub error: Option<String>,
}

/// Result of checking a wide-column table.
#[derive(Debug, PartialEq)]
pub struct DynamoDBCheckResult {
    pub success: bool,
    pub region: String,
    pub table: String,
    pub status: Option<String>,
    pub item_count: Option<i64>,
    pub table_size_bytes: Option<i64>,
    pub error: Option<String>,
}

/// Result of checking the model catalog.
#[derive(Debug, PartialEq)]
pub struct BedrockCheckResult {
    pub success: bool,
    pub region: String,
    pub model_count: Option<usize>,
    pub models: Option<Vec<String>>,
    pub error: Option<String>,
}

/// The aggregate report: the redacted namespace snapshot plus, for each
/// kind with at least one configured instance, that kind's results keyed
/// by identifier. A kind with no instances is absent, not empty.
#[derive(Debug, PartialEq)]
pub struct InfoResponse {
    pub environments: Vec<(String, String)>,
    pub sql: Option<Vec<(String, SqlCheckResult)>>,
    pub nosql: Option<Vec<(String, NoSqlCheckResult)>>,
    pub http: Option<Vec<(String, HttpCheckResult)>>,
    pub s3: Option<Vec<(String, S3CheckResult)>>,
    pub memorydb: Option<Vec<(String, MemoryDBCheckResult)>>,
    pub secrets_manager: Option<Vec<(String, SecretsManagerCheckResult)>>,
    pub dynamodb: Option<Vec<(String, DynamoDBCheckResult)>>,
    pub bedrock: Option<Vec<(String, BedrockCheckResult)>>,
}

/// Request shape for the ad hoc outbound HTTP proxy endpoint.
#[derive(Debug, Clone, PartialEq)]
pub struct HttpClientRequest {
    pub url: String,
    pub method: String,
    pub headers: Vec<(String, String)>,
    pub body: Option<String>,
}

/// Response shape for the ad hoc outbound HTTP proxy endpoint.
#[derive(Debug, PartialEq)]
pub struct HttpClientResponse {
    pub success: bool,
    pub status_code: Option<u16>,
    pub headers: Vec<(String, String)>,
    pub body: Option<String>,
    pub error: Option<String>,
}

} // verus!
