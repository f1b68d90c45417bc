//! The SQL checker's decision logic: driver dispatch over a closed set,
//! the connection string, the dialect's catalog query, and the mapping
//! from a probe's outcome to the check result. The network round trip
//! itself is the caller's: it hands back what the probe came to.
use crate::models::{SqlCheckResult, SqlConfig};
use crate::strutil::{dec_digits, str_eq, u16_string};
use vstd::prelude::*;
use vstd::string::*;

verus! {

/// The closed set of SQL dialects: two are implemented, any other driver
/// string is rejected before any connection attempt.
#[derive(Debug, Clone, Copy, PartialEq, Eq, Structural)]
pub enum SqlDriverKind {
    Postgres,
    Mysql,
    Unsupported,
}

pub open spec fn sql_driver_of(s: Seq<char>) -> SqlDriverKind {
    if s == "postgres"@ {
        SqlDriverKind::Postgres
    } else if s == "mysql"@ {
        SqlDriverKind::Mysql
    } else {
        SqlDriverKind::Unsupported
    }
}

pub fn classify_sql_driver(driver: &str) -> (k: SqlDriverKind)
    ensures
        k == sql_driver_of(driver@),
{
    if str_eq(driver, "postgres") {
        SqlDriverKind::Postgres
    } else if str_eq(driver, "mysql") {
        SqlDriverKind::Mysql
    } else {
        SqlDriverKind::Unsupported
    }
}

/// The immediate result for an unsupported driver: no connection is
/// attempted.
pub fn sql_unsupported_result(config: &SqlConfig) -> (r: SqlCheckResult)
    ensures
        !r.success,
        r.driver@ == config.driver@,
        r.host@ == config.host@,
        r.port == config.port,
        r.database@ == config.database@,
        r.tables is None,
        r.error matches Some(e) && e@ == "Unsupported SQL driver: "@ + config.driver@,
{
    let mut msg = String::from_str("Unsupported SQL driver: ");
    msg.append(config.driver.as_str());
    SqlCheckResult {
        success: false,
        driver: config.driver.clone(),
        host: config.host.clone(),
        port: config.port,
        database: config.database.clone(),
        tables: None,
        error: Some(msg),
    }
}

/// The connection URL of one instance:
/// `<scheme>://<user>:<password>@<host>:<port>/<database>`.
pub fn sql_connection_string(scheme: &str, config: &SqlConfig) -> (r: String)
    ensures
        r@ == scheme@ + "://"@ + config.user@ + ":"@ + config.password@ + "@"@ + config.host@
            + ":"@ + dec_digits(config.port as int) + "/"@ + config.database@,
{
    let mut s = String::from_str(scheme);
    s.append("://");
    s.append(config.user.as_str());
    s.append(":");
    s.append(config.password.as_str());
    s.append("@");
    s.append(config.host.as_str());
    s.append(":");
    let port = u16_string(config.port);
    s.append(port.as_str());
    s.append("/");
    s.append(config.database.as_str());
    s
}

/// The catalog query listing the `public` schema's tables in lexicographic
/// order.
pub fn postgres_tables_query() -> (r: &'static str)
    ensures
        r@
            == "SELECT table_name FROM information_schema.tables WHERE table_schema = 'public' ORDER BY table_name"@,
{
    "SELECT table_name FROM information_schema.tables WHERE table_schema = 'public' ORDER BY table_name"
}

/// The catalog query listing one database's tables in lexicographic
/// order; the database name is bound as its one parameter.
pub fn mysql_tables_query() -> (r: &'static str)
    ensures
        r@
            == "SELECT table_name FROM information_schema.tables WHERE table_schema = ? ORDER BY table_name"@,
{
    "SELECT table_name FROM information_schema.tables WHERE table_schema = ? ORDER BY table_name"
}

/// What the probe of one SQL instance came to.
pub enum SqlProbeOutcome {
    /// The pool could not be opened.
    ConnectFailed(String),
    /// The connection opened but the catalog query failed.
    QueryFailed(String),
    /// The table names the catalog query returned.
    Tables(Vec<String>),
}

/// Builds the check result of one SQL instance from its probe's outcome;
/// each failure step carries its own error text, and only a completed
/// listing counts as success.
pub fn sql_outcome_result(config: &SqlConfig, outcome: SqlProbeOutcome) -> (r: SqlCheckResult)
    ensures
        r.driver@ == config.driver@,
        r.host@ == config.host@,
        r.port == config.port,
        r.database@ == config.database@,
        match outcome {
            SqlProbeOutcome::ConnectFailed(m) => !r.success && r.tables is None && (
            r.error matches Some(e) && e@ == "Connection failed: "@ + m@),
            SqlProbeOutcome::QueryFailed(m) => !r.success && r.tables is None && (
            r.error matches Some(e) && e@ == "Failed to retrieve tables: "@ + m@),
            SqlProbeOutcome::Tables(t) => r.success && r.error is None && r.tables == Some(t),
        },
{
    match outcome {
        SqlProbeOutcome::ConnectFailed(m) => {
            let mut msg = String::from_str("Connection failed: ");
            msg.append(m.as_str());
            SqlCheckResult {
                success: false,
                driver: config.driver.clone(),
                host: config.host.clone(),
                port: config.port,
                database: config.database.clone(),
                tables: None,
                error: Some(msg),
            }
        },
        SqlProbeOutcome::QueryFailed(m) => {
            let mut msg = String::from_str("Failed to retrieve tables: ");
            msg.append(m.as_str());
            SqlCheckResult {
                success: false,
                driver: config.driver.clone(),
                host: config.host.clone(),
                port: config.port,
                database: config.database.clone(),
                tables: None,
                error: Some(msg),
            }
        },
        SqlProbeOutcome::Tables(t) => SqlCheckResult {
            success: true,
            driver: config.driver.clone(),
            host: config.host.clone(),
            port: config.port,
            database: config.database.clone(),
            tables: Some(t),
            error: None,
        },
    }
}

} // verus!
