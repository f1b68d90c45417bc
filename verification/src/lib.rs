pub mod check_bedrock;
pub mod check_dynamodb;
pub mod check_http;
pub mod check_memorydb;
pub mod check_nosql;
pub mod check_s3;
pub mod check_secrets_manager;
pub mod check_sql;
pub mod env_parser;
pub mod extract;
pub mod http_client;
pub mod models;
pub mod report;
pub mod sensitive;
pub mod strutil;
pub mod telemetry;
