use pmp_test_api::check_bedrock::{bedrock_outcome_result, BedrockProbeOutcome};
use pmp_test_api::check_dynamodb::{dynamodb_outcome_result, DynamoDbProbeOutcome};
use pmp_test_api::check_http::{
    classify_http_method, http_outcome_result, http_unsupported_result, HttpMethodKind,
    HttpProbeOutcome,
};
use pmp_test_api::check_memorydb::{memorydb_outcome_result, MemoryDbProbeOutcome};
use pmp_test_api::check_nosql::{
    classify_nosql_driver, nosql_unsupported_result, parse_redis_info, redis_connection_string,
    redis_outcome_result, NoSqlDriverKind, RedisProbeOutcome,
};
use pmp_test_api::check_s3::{s3_outcome_result, S3ProbeOutcome};
use pmp_test_api::check_secrets_manager::{secrets_manager_outcome_result, SecretsProbeOutcome};
use pmp_test_api::check_sql::{
    classify_sql_driver, sql_connection_string, sql_outcome_result, sql_unsupported_result,
    SqlDriverKind, SqlProbeOutcome,
};
use pmp_test_api::http_client::{
    classify_client_method, client_error_response, client_success_response, ClientMethodKind,
};
use pmp_test_api::models::{
    BedrockConfig, DynamoDBConfig, HttpConfig, MemoryDBConfig, NoSqlConfig, S3Config,
    SecretsManagerConfig, SqlConfig,
};
use pmp_test_api::report::build_report;
use pmp_test_api::strutil::lookup_value;
use pmp_test_api::telemetry::{
    format_exporter_status, parse_exporter_type, ExporterType, OtelConfig, OtelProtocol,
};

fn sql_config(driver: &str) -> SqlConfig {
    SqlConfig {
        identifier: "db1".to_string(),
        driver: driver.to_string(),
        host: "localhost".to_string(),
        port: 5432,
        user: "postgres".to_string(),
        password: "pw".to_string(),
        database: "postgres".to_string(),
    }
}

fn nosql_config(driver: &str, password: Option<&str>) -> NoSqlConfig {
    NoSqlConfig {
        identifier: "c1".to_string(),
        driver: driver.to_string(),
        host: "localhost".to_string(),
        port: 6379,
        password: password.map(|p| p.to_string()),
    }
}

#[test]
fn test_parse_redis_info() {
    let info = "# Server\nredis_version:7.0.0\nredis_mode:standalone\n\n# Clients\nconnected_clients:1\n\n# Memory\nused_memory:1234567\n";

    let result = parse_redis_info(info);

    assert_eq!(lookup_value(&result, "redis_version"), Some("7.0.0".to_string()));
    assert_eq!(lookup_value(&result, "redis_mode"), Some("standalone".to_string()));
    assert_eq!(lookup_value(&result, "connected_clients"), Some("1".to_string()));
    assert_eq!(lookup_value(&result, "used_memory"), Some("1234567".to_string()));
}

#[test]
fn test_parse_redis_info_exact_map() {
    let info = "# Server\nredis_version:7.0.0\n\n# Clients\nconnected_clients:1\n";
    let result = parse_redis_info(info);
    assert_eq!(
        result,
        vec![
            ("redis_version".to_string(), "7.0.0".to_string()),
            ("connected_clients".to_string(), "1".to_string()),
        ]
    );
}

#[test]
fn test_unsupported_nosql_driver_result() {
    let config = nosql_config("mongo", None);
    assert!(matches!(classify_nosql_driver(&config.driver), NoSqlDriverKind::Unsupported));
    let r = nosql_unsupported_result(&config);
    assert!(!r.success);
    assert_eq!(r.driver, "mongo");
    assert_eq!(r.host, "localhost");
    assert_eq!(r.port, 6379);
    assert_eq!(r.info, None);
    assert_eq!(r.error, Some("Unsupported NoSQL driver: mongo".to_string()));
}

#[test]
fn test_redis_connection_strings() {
    let with_pw = nosql_config("redis", Some("pw"));
    assert_eq!(redis_connection_string(&with_pw), "redis://:pw@localhost:6379/");
    let without_pw = nosql_config("redis", None);
    assert_eq!(redis_connection_string(&without_pw), "redis://localhost:6379/");
}

#[test]
fn test_redis_outcome_results() {
    let config = nosql_config("redis", None);
    let ok = redis_outcome_result(
        &config,
        RedisProbeOutcome::InfoRetrieved("a:1\n# C\nb:2\n".to_string()),
    );
    assert!(ok.success);
    assert_eq!(ok.error, None);
    let info = ok.info.unwrap();
    assert_eq!(lookup_value(&info, "a"), Some("1".to_string()));
    assert_eq!(lookup_value(&info, "b"), Some("2".to_string()));

    let no_info = redis_outcome_result(&config, RedisProbeOutcome::InfoUnavailable);
    assert!(no_info.success);
    assert_eq!(no_info.info, Some(Vec::new()));
    assert_eq!(no_info.error, None);

    let ping = redis_outcome_result(&config, RedisProbeOutcome::PingFailed("boom".to_string()));
    assert!(!ping.success);
    assert_eq!(ping.error, Some("PING failed: boom".to_string()));
}

#[test]
fn test_sql_driver_dispatch_and_unsupported() {
    assert!(matches!(classify_sql_driver("postgres"), SqlDriverKind::Postgres));
    assert!(matches!(classify_sql_driver("mysql"), SqlDriverKind::Mysql));
    assert!(matches!(classify_sql_driver("oracle"), SqlDriverKind::Unsupported));
    let r = sql_unsupported_result(&sql_config("oracle"));
    assert!(!r.success);
    assert_eq!(r.error, Some("Unsupported SQL driver: oracle".to_string()));
    assert_eq!(r.tables, None);
}

#[test]
fn test_sql_connection_string_and_outcomes() {
    let config = sql_config("postgres");
    assert_eq!(
        sql_connection_string("postgres", &config),
        "postgres://postgres:pw@localhost:5432/postgres"
    );
    let tables = sql_outcome_result(
        &config,
        SqlProbeOutcome::Tables(vec!["a".to_string(), "b".to_string()]),
    );
    assert!(tables.success);
    assert_eq!(tables.tables, Some(vec!["a".to_string(), "b".to_string()]));
    assert_eq!(tables.error, None);

    let failed = sql_outcome_result(&config, SqlProbeOutcome::ConnectFailed("nope".to_string()));
    assert!(!failed.success);
    assert_eq!(failed.error, Some("Connection failed: nope".to_string()));

    let query = sql_outcome_result(&config, SqlProbeOutcome::QueryFailed("denied".to_string()));
    assert_eq!(query.error, Some("Failed to retrieve tables: denied".to_string()));
}

#[test]
fn test_http_method_dispatch_and_unsupported() {
    assert!(matches!(classify_http_method("GET"), HttpMethodKind::Get));
    assert!(matches!(classify_http_method("HEAD"), HttpMethodKind::Head));
    assert!(matches!(classify_http_method("TRACE"), HttpMethodKind::Unsupported));
    // dispatch happens after the method was upper-cased at parse time
    assert!(matches!(classify_http_method("get"), HttpMethodKind::Unsupported));
    let config = HttpConfig {
        identifier: "a".to_string(),
        url: "http://x".to_string(),
        method: "TRACE".to_string(),
        headers: Vec::new(),
    };
    let r = http_unsupported_result(&config);
    assert!(!r.success);
    assert_eq!(r.status_code, None);
    assert_eq!(r.error, Some("Unsupported HTTP method: TRACE".to_string()));
}

#[test]
fn test_http_outcome_results() {
    let config = HttpConfig {
        identifier: "a".to_string(),
        url: "http://x".to_string(),
        method: "GET".to_string(),
        headers: Vec::new(),
    };
    let transport = http_outcome_result(
        &config,
        HttpProbeOutcome::RequestFailed("refused".to_string()),
    );
    assert!(!transport.success);
    assert_eq!(transport.status_code, None);
    assert_eq!(transport.response_headers, None);
    assert_eq!(transport.response_body, None);
    assert_eq!(transport.error, Some("Request failed: refused".to_string()));

    let headers = vec![("content-type".to_string(), "text/plain".to_string())];
    let partial = http_outcome_result(
        &config,
        HttpProbeOutcome::BodyFailed {
            status: 200,
            headers: headers.clone(),
            message: "bad utf8".to_string(),
        },
    );
    assert!(!partial.success);
    assert_eq!(partial.status_code, Some(200));
    assert_eq!(partial.response_headers, Some(headers.clone()));
    assert_eq!(partial.response_body, None);
    assert_eq!(partial.error, Some("Failed to read response body: bad utf8".to_string()));

    let full = http_outcome_result(
        &config,
        HttpProbeOutcome::Completed {
            status: 204,
            headers: headers.clone(),
            body: "".to_string(),
        },
    );
    assert!(full.success);
    assert_eq!(full.status_code, Some(204));
    assert_eq!(full.response_body, Some("".to_string()));
    assert_eq!(full.error, None);
}

#[test]
fn test_s3_outcomes_keep_existence_axis() {
    let config = S3Config {
        identifier: "s".to_string(),
        region: "us-east-1".to_string(),
        bucket: "b".to_string(),
        access_key_id: None,
        secret_access_key: None,
    };
    let missing = s3_outcome_result(&config, S3ProbeOutcome::BucketUnavailable("403".to_string()));
    assert!(!missing.success);
    assert_eq!(missing.exists, Some(false));
    assert_eq!(missing.error, Some("Bucket access failed: 403".to_string()));

    let list_failed = s3_outcome_result(&config, S3ProbeOutcome::ListFailed("denied".to_string()));
    assert!(!list_failed.success);
    assert_eq!(list_failed.exists, Some(true));
    assert_eq!(list_failed.object_count, None);
    assert_eq!(list_failed.error, Some("Failed to list objects: denied".to_string()));

    let listed = s3_outcome_result(&config, S3ProbeOutcome::Listed(42));
    assert!(listed.success);
    assert_eq!(listed.exists, Some(true));
    assert_eq!(listed.object_count, Some(42));
    assert_eq!(listed.error, None);
}

#[test]
fn test_memorydb_outcomes() {
    let config = MemoryDBConfig {
        identifier: "m".to_string(),
        region: "us-east-1".to_string(),
        cluster: "cl".to_string(),
        access_key_id: None,
        secret_access_key: None,
    };
    let none = memorydb_outcome_result(&config, MemoryDbProbeOutcome::NoClusters);
    assert!(!none.success);
    assert_eq!(none.error, Some("No clusters returned in response".to_string()));

    let found = memorydb_outcome_result(
        &config,
        MemoryDbProbeOutcome::Found {
            status: None,
            endpoint: Some("host:6379".to_string()),
            shards: 3,
        },
    );
    assert!(found.success);
    assert_eq!(found.status, Some("unknown".to_string()));
    assert_eq!(found.endpoint, Some("host:6379".to_string()));
    assert_eq!(found.node_count, Some(3));
}

#[test]
fn test_secrets_manager_outcomes() {
    let config = SecretsManagerConfig {
        identifier: "s".to_string(),
        region: "us-east-1".to_string(),
        secret_name: "name".to_string(),
        access_key_id: None,
        secret_access_key: None,
    };
    let failed = secrets_manager_outcome_result(
        &config,
        SecretsProbeOutcome::DescribeFailed("gone".to_string()),
    );
    assert!(!failed.success);
    assert_eq!(failed.exists, Some(false));
    assert_eq!(failed.error, Some("Failed to describe secret: gone".to_string()));

    let found = secrets_manager_outcome_result(
        &config,
        SecretsProbeOutcome::Found { version_id: Some("v1".to_string()) },
    );
    assert!(found.success);
    assert_eq!(found.exists, Some(true));
    assert_eq!(found.version_id, Some("v1".to_string()));
}

#[test]
fn test_dynamodb_outcomes() {
    let config = DynamoDBConfig {
        identifier: "d".to_string(),
        region: "us-east-1".to_string(),
        table: "t".to_string(),
        access_key_id: None,
        secret_access_key: None,
    };
    let missing = dynamodb_outcome_result(&config, DynamoDbProbeOutcome::TableMissing);
    assert!(!missing.success);
    assert_eq!(missing.error, Some("Table not found in response".to_string()));

    let found = dynamodb_outcome_result(
        &config,
        DynamoDbProbeOutcome::Found {
            status: Some("ACTIVE".to_string()),
            item_count: Some(10),
            table_size_bytes: Some(2048),
        },
    );
    assert!(found.success);
    assert_eq!(found.status, Some("ACTIVE".to_string()));
    assert_eq!(found.item_count, Some(10));
    assert_eq!(found.table_size_bytes, Some(2048));
}

#[test]
fn test_bedrock_outcomes() {
    let config = BedrockConfig {
        identifier: "b".to_string(),
        region: "us-east-1".to_string(),
        access_key_id: None,
        secret_access_key: None,
    };
    let failed =
        bedrock_outcome_result(&config, BedrockProbeOutcome::ListFailed("denied".to_string()));
    assert!(!failed.success);
    assert_eq!(failed.error, Some("Failed to list foundation models: denied".to_string()));

    let models = vec!["m.one".to_string(), "m.two".to_string()];
    let listed = bedrock_outcome_result(&config, BedrockProbeOutcome::Models(models.clone()));
    assert!(listed.success);
    assert_eq!(listed.model_count, Some(2));
    assert_eq!(listed.models, Some(models));
}

#[test]
fn test_report_omits_empty_kinds() {
    let envs = vec![("K".to_string(), "v".to_string())];
    let config = sql_config("oracle");
    let sql_results = vec![("db1".to_string(), sql_unsupported_result(&config))];
    let report = build_report(
        envs.clone(),
        sql_results,
        Vec::new(),
        Vec::new(),
        Vec::new(),
        Vec::new(),
        Vec::new(),
        Vec::new(),
        Vec::new(),
    );
    assert_eq!(report.environments, envs);
    assert!(report.sql.is_some());
    assert_eq!(report.sql.as_ref().unwrap().len(), 1);
    assert!(report.nosql.is_none());
    assert!(report.http.is_none());
    assert!(report.s3.is_none());
    assert!(report.memorydb.is_none());
    assert!(report.secrets_manager.is_none());
    assert!(report.dynamodb.is_none());
    assert!(report.bedrock.is_none());
}

#[test]
fn test_otel_config_defaults() {
    let config = OtelConfig::from_values(None, None, None, None, None, None, None);
    assert!(!config.disabled);
    assert_eq!(config.traces_exporter, ExporterType::Otlp);
    assert_eq!(config.metrics_exporter, ExporterType::Disabled);
    assert_eq!(config.logs_exporter, ExporterType::Disabled);
    assert_eq!(config.endpoint, "http://localhost:4317");
    assert_eq!(config.protocol, OtelProtocol::Grpc);
    assert_eq!(config.service_name, "pmp-test-api");
    assert!(config.is_any_enabled());
}

#[test]
fn test_otel_config_parsing() {
    let config = OtelConfig::from_values(
        Some("TRUE"),
        Some("none"),
        Some("Console"),
        Some("otlp"),
        Some("http://collector:4318"),
        Some("HTTP/protobuf"),
        Some("svc"),
    );
    assert!(config.disabled);
    assert_eq!(config.traces_exporter, ExporterType::Disabled);
    assert_eq!(config.metrics_exporter, ExporterType::Console);
    assert_eq!(config.logs_exporter, ExporterType::Otlp);
    assert_eq!(config.endpoint, "http://collector:4318");
    assert_eq!(config.protocol, OtelProtocol::Http);
    assert_eq!(config.service_name, "svc");
    assert!(config.is_any_enabled());
}

#[test]
fn test_otel_all_disabled_is_not_enabled() {
    let config =
        OtelConfig::from_values(None, Some("none"), Some("none"), Some("none"), None, None, None);
    assert!(!config.is_any_enabled());
    assert_eq!(parse_exporter_type(Some("bogus"), ExporterType::Console), ExporterType::Console);
    assert_eq!(format_exporter_status(&config.traces_exporter), "none");
    assert_eq!(format_exporter_status(&ExporterType::Otlp), "otlp");
}

#[test]
fn test_client_method_dispatch_defaults_to_get() {
    assert!(matches!(classify_client_method("delete"), ClientMethodKind::Delete));
    assert!(matches!(classify_client_method("OPTIONS"), ClientMethodKind::Options));
    assert!(matches!(classify_client_method("weird"), ClientMethodKind::Get));
}

#[test]
fn test_client_responses() {
    let err = client_error_response("timed out".to_string());
    assert!(!err.success);
    assert_eq!(err.status_code, None);
    assert!(err.headers.is_empty());
    assert_eq!(err.error, Some("timed out".to_string()));

    let headers = vec![("server".to_string(), "nginx".to_string())];
    let ok = client_success_response(200, headers.clone(), Some("body".to_string()));
    assert!(ok.success);
    assert_eq!(ok.status_code, Some(200));
    assert_eq!(ok.headers, headers);
    assert_eq!(ok.body, Some("body".to_string()));
    assert_eq!(ok.error, None);
}
