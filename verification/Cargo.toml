[package]
name = "pmp_test_api"
version = "0.1.0"
edition = "2021"
publish = false

[dependencies]
regex = "*"
serde_json = "*"
serde = { version = "*", features = ["derive"] }
tokio = { version = "*", features = ["rt-multi-thread", "macros", "net"] }
axum = "*"
reqwest = { version = "*", default-features = false }
futures = "*"
redis = { version = "*", features = ["tokio-comp", "connection-manager"] }
sqlx = { version = "*", default-features = false, features = ["runtime-tokio", "postgres", "mysql"] }
aws-config = { version = "*", default-features = false, features = ["behavior-version-latest"] }
aws-sdk-s3 = { version = "*", default-features = false, features = ["http-1x"] }
aws-sdk-dynamodb = { version = "*", default-features = false }
aws-sdk-memorydb = { version = "*", default-features = false }
aws-sdk-secretsmanager = { version = "*", default-features = false }
aws-sdk-bedrock = { version = "*", default-features = false }
dotenvy = "*"
