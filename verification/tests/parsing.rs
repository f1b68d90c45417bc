use pmp_test_api::env_parser::{
    parse_bedrock_configs, parse_dynamodb_configs, parse_http_configs, parse_memorydb_configs,
    parse_nosql_configs, parse_s3_configs, parse_secrets_manager_configs, parse_sql_configs,
};
use pmp_test_api::sensitive::get_all_env_vars;
use pmp_test_api::strutil::{lookup_value, u16_string};

fn env(pairs: &[(&str, &str)]) -> Vec<(String, String)> {
    pairs.iter().map(|(k, v)| (k.to_string(), v.to_string())).collect()
}

#[test]
fn test_sql_config_parsing() {
    let snapshot = env(&[
        ("SQL_db1_DRIVER", "postgres"),
        ("SQL_db1_HOST", "localhost"),
        ("SQL_db1_PORT", "5432"),
        ("SQL_db1_DATABASE", "test"),
        ("SQL_db1_USER", "u"),
        ("SQL_db1_PASSWORD", "p"),
    ]);
    let configs = parse_sql_configs(&snapshot);
    assert_eq!(configs.len(), 1);
    let c = &configs[0];
    assert_eq!(c.identifier, "db1");
    assert_eq!(c.driver, "postgres");
    assert_eq!(c.host, "localhost");
    assert_eq!(c.port, 5432);
    assert_eq!(c.database, "test");
    assert_eq!(c.user, "u");
    assert_eq!(c.password, "p");
}

#[test]
fn test_nosql_config_parsing() {
    let snapshot = env(&[("NOSQL_cache_DRIVER", "redis"), ("NOSQL_cache_PORT", "6380")]);
    let configs = parse_nosql_configs(&snapshot);
    assert_eq!(configs.len(), 1);
    let c = &configs[0];
    assert_eq!(c.identifier, "cache");
    assert_eq!(c.driver, "redis");
    assert_eq!(c.host, "localhost");
    assert_eq!(c.port, 6380);
    assert_eq!(c.password, None);
}

#[test]
fn test_http_config_parsing() {
    let snapshot = env(&[
        ("HTTP_api1_URL", "http://example.com"),
        ("HTTP_api1_METHOD", "post"),
        ("HTTP_api1_HEADERS", "{\"X-Token\":\"t1\"}"),
    ]);
    let configs = parse_http_configs(&snapshot);
    assert_eq!(configs.len(), 1);
    let c = &configs[0];
    assert_eq!(c.identifier, "api1");
    assert_eq!(c.url, "http://example.com");
    assert_eq!(c.method, "POST");
    assert_eq!(c.headers, vec![("X-Token".to_string(), "t1".to_string())]);
}

#[test]
fn test_sql_defaults_applied() {
    let snapshot = env(&[("SQL_d_DRIVER", "mysql")]);
    let configs = parse_sql_configs(&snapshot);
    assert_eq!(configs.len(), 1);
    let c = &configs[0];
    assert_eq!(c.host, "localhost");
    assert_eq!(c.port, 5432);
    assert_eq!(c.user, "postgres");
    assert_eq!(c.password, "");
    assert_eq!(c.database, "postgres");
}

#[test]
fn test_port_fallback_on_bad_value() {
    let snapshot = env(&[
        ("SQL_a_DRIVER", "postgres"),
        ("SQL_a_PORT", "notanumber"),
        ("NOSQL_b_DRIVER", "redis"),
        ("NOSQL_b_PORT", "99999"),
    ]);
    let sql = parse_sql_configs(&snapshot);
    assert_eq!(sql[0].port, 5432);
    let nosql = parse_nosql_configs(&snapshot);
    assert_eq!(nosql[0].port, 6379);
}

#[test]
fn test_port_with_plus_sign_parses() {
    let snapshot = env(&[("SQL_a_DRIVER", "postgres"), ("SQL_a_PORT", "+123")]);
    let sql = parse_sql_configs(&snapshot);
    assert_eq!(sql[0].port, 123);
}

#[test]
fn test_missing_mandatory_field_drops_group() {
    let snapshot = env(&[
        ("SQL_x_HOST", "h"),
        ("NOSQL_y_HOST", "h"),
        ("HTTP_z_METHOD", "GET"),
        ("S3_w_REGION", "eu-west-1"),
    ]);
    assert!(parse_sql_configs(&snapshot).is_empty());
    assert!(parse_nosql_configs(&snapshot).is_empty());
    assert!(parse_http_configs(&snapshot).is_empty());
    assert!(parse_s3_configs(&snapshot).is_empty());
}

#[test]
fn test_key_without_second_underscore_ignored() {
    let snapshot = env(&[("SQL_nodriver", "postgres"), ("SQL_", "x")]);
    assert!(parse_sql_configs(&snapshot).is_empty());
}

#[test]
fn test_identifier_never_contains_underscore_param_may() {
    let snapshot = env(&[
        ("S3_store_BUCKET", "b"),
        ("S3_store_ACCESS_KEY_ID", "id1"),
        ("S3_store_SECRET_ACCESS_KEY", "sk1"),
    ]);
    let configs = parse_s3_configs(&snapshot);
    assert_eq!(configs.len(), 1);
    let c = &configs[0];
    assert!(!c.identifier.contains('_'));
    assert_eq!(c.identifier, "store");
    assert_eq!(c.access_key_id, Some("id1".to_string()));
    assert_eq!(c.secret_access_key, Some("sk1".to_string()));
}

#[test]
fn test_later_entry_overrides_earlier() {
    let snapshot = env(&[
        ("SQL_db_DRIVER", "postgres"),
        ("SQL_db_HOST", "first"),
        ("SQL_db_host", "second"),
    ]);
    let configs = parse_sql_configs(&snapshot);
    assert_eq!(configs[0].host, "second");
}

#[test]
fn test_parsing_is_idempotent() {
    let snapshot = env(&[
        ("SQL_db_DRIVER", "postgres"),
        ("NOSQL_c_DRIVER", "redis"),
        ("HTTP_h_URL", "http://x"),
        ("S3_s_BUCKET", "b"),
        ("MEMORYDB_m_CLUSTER", "c"),
        ("SECRETS_e_SECRET_NAME", "n"),
        ("DYNAMODB_t_TABLE", "t"),
        ("BEDROCK_b_REGION", "eu-central-1"),
    ]);
    assert_eq!(parse_sql_configs(&snapshot), parse_sql_configs(&snapshot));
    assert_eq!(parse_nosql_configs(&snapshot), parse_nosql_configs(&snapshot));
    assert_eq!(parse_http_configs(&snapshot), parse_http_configs(&snapshot));
    assert_eq!(parse_s3_configs(&snapshot), parse_s3_configs(&snapshot));
    assert_eq!(parse_memorydb_configs(&snapshot), parse_memorydb_configs(&snapshot));
    assert_eq!(
        parse_secrets_manager_configs(&snapshot),
        parse_secrets_manager_configs(&snapshot)
    );
    assert_eq!(parse_dynamodb_configs(&snapshot), parse_dynamodb_configs(&snapshot));
    assert_eq!(parse_bedrock_configs(&snapshot), parse_bedrock_configs(&snapshot));
}

#[test]
fn test_same_identifier_in_two_kinds_no_collision() {
    let snapshot = env(&[("SQL_acct_DRIVER", "postgres"), ("HTTP_acct_URL", "http://x")]);
    let sql = parse_sql_configs(&snapshot);
    let http = parse_http_configs(&snapshot);
    assert_eq!(sql.len(), 1);
    assert_eq!(sql[0].identifier, "acct");
    assert_eq!(sql[0].driver, "postgres");
    assert_eq!(http.len(), 1);
    assert_eq!(http[0].identifier, "acct");
    assert_eq!(http[0].url, "http://x");
}

#[test]
fn test_http_method_defaults_to_get_with_empty_headers() {
    let snapshot = env(&[("HTTP_api1_URL", "http://example.com")]);
    let configs = parse_http_configs(&snapshot);
    assert_eq!(configs.len(), 1);
    assert_eq!(configs[0].method, "GET");
    assert!(configs[0].headers.is_empty());
}

#[test]
fn test_http_malformed_headers_fall_back_to_empty() {
    let snapshot = env(&[("HTTP_a_URL", "http://x"), ("HTTP_a_HEADERS", "{not json")]);
    let configs = parse_http_configs(&snapshot);
    assert!(configs[0].headers.is_empty());
}

#[test]
fn test_http_headers_parse_json_object() {
    let snapshot = env(&[
        ("HTTP_a_URL", "http://x"),
        ("HTTP_a_HEADERS", "{\"Accept\":\"text/plain\",\"X-B\":\"2\"}"),
    ]);
    let configs = parse_http_configs(&snapshot);
    let headers = &configs[0].headers;
    assert_eq!(headers.len(), 2);
    assert_eq!(lookup_value(headers, "Accept"), Some("text/plain".to_string()));
    assert_eq!(lookup_value(headers, "X-B"), Some("2".to_string()));
}

#[test]
fn test_region_kinds_defaults_and_mandatory() {
    let snapshot = env(&[
        ("MEMORYDB_m_CLUSTER", "cl"),
        ("SECRETS_s_SECRET_NAME", "sn"),
        ("DYNAMODB_d_TABLE", "tb"),
        ("DYNAMODB_d_REGION", "ap-south-1"),
    ]);
    let m = parse_memorydb_configs(&snapshot);
    assert_eq!(m[0].cluster, "cl");
    assert_eq!(m[0].region, "us-east-1");
    let s = parse_secrets_manager_configs(&snapshot);
    assert_eq!(s[0].secret_name, "sn");
    assert_eq!(s[0].region, "us-east-1");
    let d = parse_dynamodb_configs(&snapshot);
    assert_eq!(d[0].table, "tb");
    assert_eq!(d[0].region, "ap-south-1");
}

#[test]
fn test_bedrock_needs_no_mandatory_field() {
    let snapshot = env(&[("BEDROCK_cat_REGION", "eu-west-1"), ("BEDROCK_other_FOO", "x")]);
    let configs = parse_bedrock_configs(&snapshot);
    assert_eq!(configs.len(), 2);
    assert_eq!(configs[0].identifier, "cat");
    assert_eq!(configs[0].region, "eu-west-1");
    assert_eq!(configs[1].identifier, "other");
    assert_eq!(configs[1].region, "us-east-1");
}

#[test]
fn test_redaction_explicit_and_pattern() {
    let snapshot = env(&[
        ("SENSITIVE_ENVIRONMENTS", "API_KEY"),
        ("SENSITIVE_ENVIRONMENTS_REGEX", ".*_SECRET$"),
        ("API_KEY", "abc123"),
        ("DB_SECRET", "xyz"),
        ("PLAIN", "visible"),
    ]);
    let redacted = get_all_env_vars(&snapshot);
    assert_eq!(lookup_value(&redacted, "API_KEY"), Some("(value is set)".to_string()));
    assert_eq!(lookup_value(&redacted, "DB_SECRET"), Some("(value is set)".to_string()));
    assert_eq!(lookup_value(&redacted, "PLAIN"), Some("visible".to_string()));
}

#[test]
fn test_redaction_explicit_name_is_case_insensitive() {
    let snapshot = env(&[("SENSITIVE_ENVIRONMENTS", "api_key"), ("API_KEY", "v")]);
    let redacted = get_all_env_vars(&snapshot);
    assert_eq!(lookup_value(&redacted, "API_KEY"), Some("(value is set)".to_string()));
}

#[test]
fn test_no_redaction_without_config() {
    let snapshot = env(&[("API_KEY", "abc123"), ("DB_SECRET", "xyz")]);
    let redacted = get_all_env_vars(&snapshot);
    assert_eq!(lookup_value(&redacted, "API_KEY"), Some("abc123".to_string()));
    assert_eq!(lookup_value(&redacted, "DB_SECRET"), Some("xyz".to_string()));
}

#[test]
fn test_malformed_pattern_silently_dropped() {
    let snapshot = env(&[
        ("SENSITIVE_ENVIRONMENTS_REGEX", "([ , .*_SECRET$"),
        ("DB_SECRET", "xyz"),
        ("OTHER", "ok"),
    ]);
    let redacted = get_all_env_vars(&snapshot);
    assert_eq!(lookup_value(&redacted, "DB_SECRET"), Some("(value is set)".to_string()));
    assert_eq!(lookup_value(&redacted, "OTHER"), Some("ok".to_string()));
}

#[test]
fn test_empty_namespace_yields_nothing() {
    let snapshot: Vec<(String, String)> = Vec::new();
    assert!(parse_sql_configs(&snapshot).is_empty());
    assert!(parse_bedrock_configs(&snapshot).is_empty());
    assert!(get_all_env_vars(&snapshot).is_empty());
}

#[test]
fn test_sensitive_list_entries_are_trimmed_and_empties_dropped() {
    let snapshot = env(&[
        ("SENSITIVE_ENVIRONMENTS", " , api_key , "),
        ("API_KEY", "v"),
        ("OTHER", "o"),
    ]);
    let redacted = get_all_env_vars(&snapshot);
    assert_eq!(lookup_value(&redacted, "API_KEY"), Some("(value is set)".to_string()));
    assert_eq!(lookup_value(&redacted, "OTHER"), Some("o".to_string()));
}

#[test]
fn test_pattern_is_case_sensitive_on_raw_key() {
    let snapshot = env(&[
        ("SENSITIVE_ENVIRONMENTS_REGEX", "_secret$"),
        ("DB_SECRET", "upper"),
        ("db_secret", "lower"),
    ]);
    let redacted = get_all_env_vars(&snapshot);
    assert_eq!(lookup_value(&redacted, "DB_SECRET"), Some("upper".to_string()));
    assert_eq!(lookup_value(&redacted, "db_secret"), Some("(value is set)".to_string()));
}

#[test]
fn test_u16_rendering() {
    assert_eq!(u16_string(0), "0");
    assert_eq!(u16_string(8080), "8080");
    assert_eq!(u16_string(65535), "65535");
}
