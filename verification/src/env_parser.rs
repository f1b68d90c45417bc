//! Materializes typed configuration records from the flat namespace
//! snapshot: entries are grouped by kind prefix and instance identifier,
//! a group lacking its kind's mandatory field is silently dropped, and
//! every optional field takes the kind's default.
use crate::extract::{
    collect_ids, configured_ids, has_mandatory, kind_ids, last_param_value, or_default,
    param_or_default, param_value, port_or_default, port_spec,
};
use crate::extract::lemma_missing_mandatory_no_record;
use crate::models::{
    BedrockConfig, DynamoDBConfig, HttpConfig, HttpConfigV, MemoryDBConfig, NoSqlConfig,
    NoSqlConfigV, RegionConfigV, S3Config, SecretsManagerConfig, SqlConfig, SqlConfigV,
};
use crate::strutil::{upper_seq, upper_str};
use vstd::prelude::*;
use vstd::string::*;

verus! {

pub open spec fn sql_prefix() -> Seq<char> {
    "SQL_"@
}

pub open spec fn nosql_prefix() -> Seq<char> {
    "NOSQL_"@
}

pub open spec fn http_prefix() -> Seq<char> {
    "HTTP_"@
}

pub open spec fn s3_prefix() -> Seq<char> {
    "S3_"@
}

pub open spec fn memorydb_prefix() -> Seq<char> {
    "MEMORYDB_"@
}

pub open spec fn secrets_prefix() -> Seq<char> {
    "SECRETS_"@
}

pub open spec fn dynamodb_prefix() -> Seq<char> {
    "DYNAMODB_"@
}

pub open spec fn bedrock_prefix() -> Seq<char> {
    "BEDROCK_"@
}

/// The SQL record of one identifier group, defaults applied.
pub open spec fn sql_record_spec(env: Seq<(Seq<char>, Seq<char>)>, id: Seq<char>) -> SqlConfigV {
    SqlConfigV {
        identifier: id,
        driver: or_default(param_value(env, sql_prefix(), id, "driver"@), Seq::empty()),
        host: or_default(param_value(env, sql_prefix(), id, "host"@), "localhost"@),
        port: port_spec(param_value(env, sql_prefix(), id, "port"@), 5432),
        user: or_default(param_value(env, sql_prefix(), id, "user"@), "postgres"@),
        password: or_default(param_value(env, sql_prefix(), id, "password"@), ""@),
        database: or_default(param_value(env, sql_prefix(), id, "database"@), "postgres"@),
    }
}

pub open spec fn sql_records(env: Seq<(Seq<char>, Seq<char>)>, ids: Seq<Seq<char>>) -> Seq<
    SqlConfigV,
> {
    ids.map_values(|id: Seq<char>| sql_record_spec(env, id))
}

/// One SQL record per identifier group that carries a `driver` entry, in
/// order of first appearance in the snapshot.
pub open spec fn sql_configs_spec(env: Seq<(Seq<char>, Seq<char>)>) -> Seq<SqlConfigV> {
    sql_records(
        env,
        configured_ids(kind_ids(env, sql_prefix()), env, sql_prefix(), Some("driver"@)),
    )
}

/// Parses SQL database configurations (`SQL_<ID>_<PARAM>`) out of the
/// namespace snapshot.
pub fn parse_sql_configs(env: &Vec<(String, String)>) -> (r: Vec<SqlConfig>)
    ensures
        r.deep_view() == sql_configs_spec(env.deep_view()),
{
    let ghost envv = env.deep_view();
    let ids = collect_ids(env, "SQL_");
    let ghost idsv = ids.deep_view();
    let mut out: Vec<SqlConfig> = Vec::new();
    let n = ids.len();
    proof {
        assert(idsv.take(0) =~= Seq::<Seq<char>>::empty());
    }
    let mut i: usize = 0;
    while i < n
        invariant
            n == ids.len(),
            envv == env.deep_view(),
            idsv == ids.deep_view(),
            i <= n,
            out.deep_view() == sql_records(
                envv,
                configured_ids(idsv.take(i as int), envv, sql_prefix(), Some("driver"@)),
            ),
        decreases n - i,
    {
        let ghost idv = idsv[i as int];
        proof {
            assert(idsv.take(i + 1).drop_last() =~= idsv.take(i as int));
            assert(idsv.take(i + 1).last() == idv);
        }
        let id = ids[i].clone();
        match last_param_value(env, "SQL_", id.as_str(), "driver") {
            Some(driver) => {
                let cfg = SqlConfig {
                    identifier: id.clone(),
                    driver,
                    host: param_or_default(env, "SQL_", id.as_str(), "host", "localhost"),
                    port: port_or_default(env, "SQL_", id.as_str(), 5432),
                    user: param_or_default(env, "SQL_", id.as_str(), "user", "postgres"),
                    password: param_or_default(env, "SQL_", id.as_str(), "password", ""),
                    database: param_or_default(env, "SQL_", id.as_str(), "database", "postgres"),
                };
                proof {
                    assert(cfg.deep_view() == sql_record_spec(envv, idv));
                }
                let ghost pre_dv = out.deep_view();
                out.push(cfg);
                proof {
                    let ghost prev = configured_ids(
                        idsv.take(i as int),
                        envv,
                        sql_prefix(),
                        Some("driver"@),
                    );
                    assert(has_mandatory(envv, sql_prefix(), idv, Some("driver"@)));
                    assert(configured_ids(idsv.take(i + 1), envv, sql_prefix(), Some("driver"@))
                        == prev.push(idv));
                    assert(out.deep_view().len() == pre_dv.len() + 1);
                    assert forall|j: int| 0 <= j < pre_dv.len() implies out.deep_view()[j]
                        == pre_dv[j] by {}
                    assert(out.deep_view()[pre_dv.len() as int] == cfg.deep_view());
                    assert(out.deep_view() =~= pre_dv.push(cfg.deep_view()));
                    assert(sql_records(envv, prev.push(idv)) =~= pre_dv.push(cfg.deep_view()));
                }
            },
            None => {
                proof {
                    assert(out.deep_view() =~= sql_records(
                        envv,
                        configured_ids(idsv.take(i + 1), envv, sql_prefix(), Some("driver"@)),
                    ));
                }
            },
        }
        i = i + 1;
    }
    proof {
        assert(idsv.take(n as int) =~= idsv);
    }
    out
}

/// The key-value record of one identifier group, defaults applied.
pub open spec fn nosql_record_spec(env: Seq<(Seq<char>, Seq<char>)>, id: Seq<char>) -> NoSqlConfigV {
    NoSqlConfigV {
        identifier: id,
        driver: or_default(param_value(env, nosql_prefix(), id, "driver"@), Seq::empty()),
        host: or_default(param_value(env, nosql_prefix(), id, "host"@), "localhost"@),
        port: port_spec(param_value(env, nosql_prefix(), id, "port"@), 6379),
        password: param_value(env, nosql_prefix(), id, "password"@),
    }
}

pub open spec fn nosql_records(env: Seq<(Seq<char>, Seq<char>)>, ids: Seq<Seq<char>>) -> Seq<
    NoSqlConfigV,
> {
    ids.map_values(|id: Seq<char>| nosql_record_spec(env, id))
}

/// One key-value record per identifier group that carries a `driver`
/// entry, in order of first appearance in the snapshot.
pub open spec fn nosql_configs_spec(env: Seq<(Seq<char>, Seq<char>)>) -> Seq<NoSqlConfigV> {
    nosql_records(
        env,
        configured_ids(kind_ids(env, nosql_prefix()), env, nosql_prefix(), Some("driver"@)),
    )
}

/// Parses key-value store configurations (`NOSQL_<ID>_<PARAM>`) out of
/// the namespace snapshot.
pub fn parse_nosql_configs(env: &Vec<(String, String)>) -> (r: Vec<NoSqlConfig>)
    ensures
        r.deep_view() == nosql_configs_spec(env.deep_view()),
{
    let ghost envv = env.deep_view();
    let ids = collect_ids(env, "NOSQL_");
    let ghost idsv = ids.deep_view();
    let mut out: Vec<NoSqlConfig> = Vec::new();
    let n = ids.len();
    proof {
        assert(idsv.take(0) =~= Seq::<Seq<char>>::empty());
    }
    let mut i: usize = 0;
    while i < n
        invariant
            n == ids.len(),
            envv == env.deep_view(),
            idsv == ids.deep_view(),
            i <= n,
            out.deep_view() == nosql_records(
                envv,
                configured_ids(idsv.take(i as int), envv, nosql_prefix(), Some("driver"@)),
            ),
        decreases n - i,
    {
        let ghost idv = idsv[i as int];
        proof {
            assert(idsv.take(i + 1).drop_last() =~= idsv.take(i as int));
            assert(idsv.take(i + 1).last() == idv);
        }
        let id = ids[i].clone();
        match last_param_value(env, "NOSQL_", id.as_str(), "driver") {
            Some(driver) => {
                let cfg = NoSqlConfig {
                    identifier: id.clone(),
                    driver,
                    host: param_or_default(env, "NOSQL_", id.as_str(), "host", "localhost"),
                    port: port_or_default(env, "NOSQL_", id.as_str(), 6379),
                    password: last_param_value(env, "NOSQL_", id.as_str(), "password"),
                };
                proof {
                    assert(cfg.deep_view() == nosql_record_spec(envv, idv));
                }
                let ghost pre_dv = out.deep_view();
                out.push(cfg);
                proof {
                    let ghost prev = configured_ids(
                        idsv.take(i as int),
                        envv,
                        nosql_prefix(),
                        Some("driver"@),
                    );
                    assert(has_mandatory(envv, nosql_prefix(), idv, Some("driver"@)));
                    assert(configured_ids(idsv.take(i + 1), envv, nosql_prefix(), Some("driver"@))
                        == prev.push(idv));
                    assert(out.deep_view().len() == pre_dv.len() + 1);
                    assert forall|j: int| 0 <= j < pre_dv.len() implies out.deep_view()[j]
                        == pre_dv[j] by {}
                    assert(out.deep_view()[pre_dv.len() as int] == cfg.deep_view());
                    assert(out.deep_view() =~= pre_dv.push(cfg.deep_view()));
                    assert(nosql_records(envv, prev.push(idv)) =~= pre_dv.push(cfg.deep_view()));
                }
            },
            None => {
                proof {
                    assert(out.deep_view() =~= nosql_records(
                        envv,
                        configured_ids(idsv.take(i + 1), envv, nosql_prefix(), Some("driver"@)),
                    ));
                }
            },
        }
        i = i + 1;
    }
    proof {
        assert(idsv.take(n as int) =~= idsv);
    }
    out
}

/// The key/value pairs of a JSON object whose values are all strings, or
/// `None` where the text is not such an object.
pub uninterp spec fn json_string_map(s: Seq<char>) -> Option<Seq<(Seq<char>, Seq<char>)>>;

/// Relies on serde_json::from_str deserializing a JSON object into a map
/// of strings; the accepted texts and the pairs they carry depend on the
/// text alone, and an ordered map keeps the pairs in a fixed order.
#[verifier::external_body]
fn parse_json_string_map(s: &str) -> (r: Option<Vec<(String, String)>>)
    ensures
        r.deep_view() == json_string_map(s@),
{
    match serde_json::from_str::<std::collections::BTreeMap<String, String>>(s) {
        Ok(m) => Some(m.into_iter().collect()),
        Err(_) => None,
    }
}

/// The header map of one endpoint: the `headers` parameter parsed as a
/// JSON object, or empty when absent or malformed.
pub open spec fn http_headers_spec(env: Seq<(Seq<char>, Seq<char>)>, id: Seq<char>) -> Seq<
    (Seq<char>, Seq<char>),
> {
    match param_value(env, http_prefix(), id, "headers"@) {
        None => Seq::empty(),
        Some(h) => match json_string_map(h) {
            Some(m) => m,
            None => Seq::empty(),
        },
    }
}

/// The HTTP endpoint record of one identifier group, defaults applied:
/// the method falls back to `GET` and is upper-cased either way.
pub open spec fn http_record_spec(env: Seq<(Seq<char>, Seq<char>)>, id: Seq<char>) -> HttpConfigV {
    HttpConfigV {
        identifier: id,
        url: or_default(param_value(env, http_prefix(), id, "url"@), Seq::empty()),
        method: upper_seq(or_default(param_value(env, http_prefix(), id, "method"@), "GET"@)),
        headers: http_headers_spec(env, id),
    }
}

pub open spec fn http_records(env: Seq<(Seq<char>, Seq<char>)>, ids: Seq<Seq<char>>) -> Seq<
    HttpConfigV,
> {
    ids.map_values(|id: Seq<char>| http_record_spec(env, id))
}

/// One HTTP endpoint record per identifier group that carries a `url`
/// entry, in order of first appearance in the snapshot.
pub open spec fn http_configs_spec(env: Seq<(Seq<char>, Seq<char>)>) -> Seq<HttpConfigV> {
    http_records(
        env,
        configured_ids(kind_ids(env, http_prefix()), env, http_prefix(), Some("url"@)),
    )
}

/// Parses HTTP endpoint configurations (`HTTP_<ID>_<PARAM>`) out of the
/// namespace snapshot.
pub fn parse_http_configs(env: &Vec<(String, String)>) -> (r: Vec<HttpConfig>)
    ensures
        r.deep_view() == http_configs_spec(env.deep_view()),
{
    let ghost envv = env.deep_view();
    let ids = collect_ids(env, "HTTP_");
    let ghost idsv = ids.deep_view();
    let mut out: Vec<HttpConfig> = Vec::new();
    let n = ids.len();
    proof {
        assert(idsv.take(0) =~= Seq::<Seq<char>>::empty());
    }
    let mut i: usize = 0;
    while i < n
        invariant
            n == ids.len(),
            envv == env.deep_view(),
            idsv == ids.deep_view(),
            i <= n,
            out.deep_view() == http_records(
                envv,
                configured_ids(idsv.take(i as int), envv, http_prefix(), Some("url"@)),
            ),
        decreases n - i,
    {
        let ghost idv = idsv[i as int];
        proof {
            assert(idsv.take(i + 1).drop_last() =~= idsv.take(i as int));
            assert(idsv.take(i + 1).last() == idv);
        }
        let id = ids[i].clone();
        match last_param_value(env, "HTTP_", id.as_str(), "url") {
            Some(url) => {
                let method = match last_param_value(env, "HTTP_", id.as_str(), "method") {
                    Some(m) => upper_str(m.as_str()),
                    None => upper_str("GET"),
                };
                let headers: Vec<(String, String)> = match last_param_value(
                    env,
                    "HTTP_",
                    id.as_str(),
                    "headers",
                ) {
                    Some(h) => match parse_json_string_map(h.as_str()) {
                        Some(v) => v,
                        None => Vec::new(),
                    },
                    None => Vec::new(),
                };
                proof {
                    assert(headers.deep_view() =~= http_headers_spec(envv, idv));
                }
                let cfg = HttpConfig { identifier: id.clone(), url, method, headers };
                proof {
                    assert(cfg.deep_view() == http_record_spec(envv, idv));
                }
                let ghost pre_dv = out.deep_view();
                out.push(cfg);
                proof {
                    let ghost prev = configured_ids(
                        idsv.take(i as int),
                        envv,
                        http_prefix(),
                        Some("url"@),
                    );
                    assert(has_mandatory(envv, http_prefix(), idv, Some("url"@)));
                    assert(configured_ids(idsv.take(i + 1), envv, http_prefix(), Some("url"@))
                        == prev.push(idv));
                    assert(out.deep_view().len() == pre_dv.len() + 1);
                    assert forall|j: int| 0 <= j < pre_dv.len() implies out.deep_view()[j]
                        == pre_dv[j] by {}
                    assert(out.deep_view()[pre_dv.len() as int] == cfg.deep_view());
                    assert(out.deep_view() =~= pre_dv.push(cfg.deep_view()));
                    assert(http_records(envv, prev.push(idv)) =~= pre_dv.push(cfg.deep_view()));
                }
            },
            None => {
                proof {
                    assert(out.deep_view() =~= http_records(
                        envv,
                        configured_ids(idsv.take(i + 1), envv, http_prefix(), Some("url"@)),
                    ));
                }
            },
        }
        i = i + 1;
    }
    proof {
        assert(idsv.take(n as int) =~= idsv);
    }
    out
}

/// The region-scoped record shared by the object-store, cache-cluster,
/// secret-store and wide-column kinds: a region defaulting to
/// `us-east-1`, the kind's mandatory name, and the credential override.
pub open spec fn region_record_spec(
    env: Seq<(Seq<char>, Seq<char>)>,
    prefix: Seq<char>,
    mandatory: Seq<char>,
    id: Seq<char>,
) -> RegionConfigV {
    RegionConfigV {
        identifier: id,
        region: or_default(param_value(env, prefix, id, "region"@), "us-east-1"@),
        name: or_default(param_value(env, prefix, id, mandatory), Seq::empty()),
        access_key_id: param_value(env, prefix, id, "access_key_id"@),
        secret_access_key: param_value(env, prefix, id, "secret_access_key"@),
    }
}

pub open spec fn region_records(
    env: Seq<(Seq<char>, Seq<char>)>,
    prefix: Seq<char>,
    mandatory: Seq<char>,
    ids: Seq<Seq<char>>,
) -> Seq<RegionConfigV> {
    ids.map_values(|id: Seq<char>| region_record_spec(env, prefix, mandatory, id))
}

pub open spec fn region_configs_spec(
    env: Seq<(Seq<char>, Seq<char>)>,
    prefix: Seq<char>,
    mandatory: Seq<char>,
) -> Seq<RegionConfigV> {
    region_records(
        env,
        prefix,
        mandatory,
        configured_ids(kind_ids(env, prefix), env, prefix, Some(mandatory)),
    )
}

pub open spec fn s3_configs_spec(env: Seq<(Seq<char>, Seq<char>)>) -> Seq<RegionConfigV> {
    region_configs_spec(env, s3_prefix(), "bucket"@)
}

pub open spec fn memorydb_configs_spec(env: Seq<(Seq<char>, Seq<char>)>) -> Seq<RegionConfigV> {
    region_configs_spec(env, memorydb_prefix(), "cluster"@)
}

pub open spec fn secrets_manager_configs_spec(env: Seq<(Seq<char>, Seq<char>)>) -> Seq<
    RegionConfigV,
> {
    region_configs_spec(env, secrets_prefix(), "secret_name"@)
}

pub open spec fn dynamodb_configs_spec(env: Seq<(Seq<char>, Seq<char>)>) -> Seq<RegionConfigV> {
    region_configs_spec(env, dynamodb_prefix(), "table"@)
}

/// The model-catalog record of one identifier group. The kind has no
/// mandatory field: every identifier group yields a record.
pub open spec fn bedrock_record_spec(env: Seq<(Seq<char>, Seq<char>)>, id: Seq<char>) -> RegionConfigV {
    RegionConfigV {
        identifier: id,
        region: or_default(param_value(env, bedrock_prefix(), id, "region"@), "us-east-1"@),
        name: Seq::empty(),
        access_key_id: param_value(env, bedrock_prefix(), id, "access_key_id"@),
        secret_access_key: param_value(env, bedrock_prefix(), id, "secret_access_key"@),
    }
}

pub open spec fn bedrock_configs_spec(env: Seq<(Seq<char>, Seq<char>)>) -> Seq<RegionConfigV> {
    kind_ids(env, bedrock_prefix()).map_values(|id: Seq<char>| bedrock_record_spec(env, id))
}

/// The region and the optional credential override of one identifier
/// group.
fn region_parts(env: &Vec<(String, String)>, prefix: &str, id: &str) -> (r: (
    String,
    Option<String>,
    Option<String>,
))
    ensures
        r.0@ == or_default(param_value(env.deep_view(), prefix@, id@, "region"@), "us-east-1"@),
        r.1.deep_view() == param_value(env.deep_view(), prefix@, id@, "access_key_id"@),
        r.2.deep_view() == param_value(env.deep_view(), prefix@, id@, "secret_access_key"@),
{
    let region = param_or_default(env, prefix, id, "region", "us-east-1");
    let ak = last_param_value(env, prefix, id, "access_key_id");
    let sk = last_param_value(env, prefix, id, "secret_access_key");
    (region, ak, sk)
}

/// Parses object-store configurations (`S3_<ID>_<PARAM>`) out of the
/// namespace snapshot.
pub fn parse_s3_configs(env: &Vec<(String, String)>) -> (r: Vec<S3Config>)
    ensures
        r.deep_view() == s3_configs_spec(env.deep_view()),
{
    let ghost envv = env.deep_view();
    let ids = collect_ids(env, "S3_");
    let ghost idsv = ids.deep_view();
    let mut out: Vec<S3Config> = Vec::new();
    let n = ids.len();
    proof {
        assert(idsv.take(0) =~= Seq::<Seq<char>>::empty());
    }
    let mut i: usize = 0;
    while i < n
        invariant
            n == ids.len(),
            envv == env.deep_view(),
            idsv == ids.deep_view(),
            i <= n,
            out.deep_view() == region_records(
                envv,
                s3_prefix(),
                "bucket"@,
                configured_ids(idsv.take(i as int), envv, s3_prefix(), Some("bucket"@)),
            ),
        decreases n - i,
    {
        let ghost idv = idsv[i as int];
        proof {
            assert(idsv.take(i + 1).drop_last() =~= idsv.take(i as int));
            assert(idsv.take(i + 1).last() == idv);
        }
        let id = ids[i].clone();
        match last_param_value(env, "S3_", id.as_str(), "bucket") {
            Some(bucket) => {
                let parts = region_parts(env, "S3_", id.as_str());
                let cfg = S3Config {
                    identifier: id.clone(),
                    region: parts.0,
                    bucket,
                    access_key_id: parts.1,
                    secret_access_key: parts.2,
                };
                proof {
                    assert(cfg.deep_view() == region_record_spec(envv, s3_prefix(), "bucket"@, idv));
                }
                let ghost pre_dv = out.deep_view();
                out.push(cfg);
                proof {
                    let ghost prev = configured_ids(
                        idsv.take(i as int),
                        envv,
                        s3_prefix(),
                        Some("bucket"@),
                    );
                    assert(has_mandatory(envv, s3_prefix(), idv, Some("bucket"@)));
                    assert(configured_ids(idsv.take(i + 1), envv, s3_prefix(), Some("bucket"@))
                        == prev.push(idv));
                    assert(out.deep_view().len() == pre_dv.len() + 1);
                    assert forall|j: int| 0 <= j < pre_dv.len() implies out.deep_view()[j]
                        == pre_dv[j] by {}
                    assert(out.deep_view()[pre_dv.len() as int] == cfg.deep_view());
                    assert(out.deep_view() =~= pre_dv.push(cfg.deep_view()));
                    assert(region_records(envv, s3_prefix(), "bucket"@, prev.push(idv))
                        =~= pre_dv.push(cfg.deep_view()));
                }
            },
            None => {
                proof {
                    assert(out.deep_view() =~= region_records(
                        envv,
                        s3_prefix(),
                        "bucket"@,
                        configured_ids(idsv.take(i + 1), envv, s3_prefix(), Some("bucket"@)),
                    ));
                }
            },
        }
        i = i + 1;
    }
    proof {
        assert(idsv.take(n as int) =~= idsv);
    }
    out
}

/// Parses cache-cluster configurations (`MEMORYDB_<ID>_<PARAM>`) out of
/// the namespace snapshot.
pub fn parse_memorydb_configs(env: &Vec<(String, String)>) -> (r: Vec<MemoryDBConfig>)
    ensures
        r.deep_view() == memorydb_configs_spec(env.deep_view()),
{
    let ghost envv = env.deep_view();
    let ids = collect_ids(env, "MEMORYDB_");
    let ghost idsv = ids.deep_view();
    let mut out: Vec<MemoryDBConfig> = Vec::new();
    let n = ids.len();
    proof {
        assert(idsv.take(0) =~= Seq::<Seq<char>>::empty());
    }
    let mut i: usize = 0;
    while i < n
        invariant
            n == ids.len(),
            envv == env.deep_view(),
            idsv == ids.deep_view(),
            i <= n,
            out.deep_view() == region_records(
                envv,
                memorydb_prefix(),
                "cluster"@,
                configured_ids(idsv.take(i as int), envv, memorydb_prefix(), Some("cluster"@)),
            ),
        decreases n - i,
    {
        let ghost idv = idsv[i as int];
        proof {
            assert(idsv.take(i + 1).drop_last() =~= idsv.take(i as int));
            assert(idsv.take(i + 1).last() == idv);
        }
        let id = ids[i].clone();
        match last_param_value(env, "MEMORYDB_", id.as_str(), "cluster") {
            Some(cluster) => {
                let parts = region_parts(env, "MEMORYDB_", id.as_str());
                let cfg = MemoryDBConfig {
                    identifier: id.clone(),
                    region: parts.0,
                    cluster,
                    access_key_id: parts.1,
                    secret_access_key: parts.2,
                };
                proof {
                    assert(cfg.deep_view() == region_record_spec(
                        envv,
                        memorydb_prefix(),
                        "cluster"@,
                        idv,
                    ));
                }
                let ghost pre_dv = out.deep_view();
                out.push(cfg);
                proof {
                    let ghost prev = configured_ids(
                        idsv.take(i as int),
                        envv,
                        memorydb_prefix(),
                        Some("cluster"@),
                    );
                    assert(has_mandatory(envv, memorydb_prefix(), idv, Some("cluster"@)));
                    assert(configured_ids(
                        idsv.take(i + 1),
                        envv,
                        memorydb_prefix(),
                        Some("cluster"@),
                    ) == prev.push(idv));
                    assert(out.deep_view().len() == pre_dv.len() + 1);
                    assert forall|j: int| 0 <= j < pre_dv.len() implies out.deep_view()[j]
                        == pre_dv[j] by {}
                    assert(out.deep_view()[pre_dv.len() as int] == cfg.deep_view());
                    assert(out.deep_view() =~= pre_dv.push(cfg.deep_view()));
                    assert(region_records(envv, memorydb_prefix(), "cluster"@, prev.push(idv))
                        =~= pre_dv.push(cfg.deep_view()));
                }
            },
            None => {
                proof {
                    assert(out.deep_view() =~= region_records(
                        envv,
                        memorydb_prefix(),
                        "cluster"@,
                        configured_ids(
                            idsv.take(i + 1),
                            envv,
                            memorydb_prefix(),
                            Some("cluster"@),
                        ),
                    ));
                }
            },
        }
        i = i + 1;
    }
    proof {
        assert(idsv.take(n as int) =~= idsv);
    }
    out
}

/// Parses secret-store configurations (`SECRETS_<ID>_<PARAM>`) out of
/// the namespace snapshot.
pub fn parse_secrets_manager_configs(env: &Vec<(String, String)>) -> (r: Vec<SecretsManagerConfig>)
    ensures
        r.deep_view() == secrets_manager_configs_spec(env.deep_view()),
{
    let ghost envv = env.deep_view();
    let ids = collect_ids(env, "SECRETS_");
    let ghost idsv = ids.deep_view();
    let mut out: Vec<SecretsManagerConfig> = Vec::new();
    let n = ids.len();
    proof {
        assert(idsv.take(0) =~= Seq::<Seq<char>>::empty());
    }
    let mut i: usize = 0;
    while i < n
        invariant
            n == ids.len(),
            envv == env.deep_view(),
            idsv == ids.deep_view(),
            i <= n,
            out.deep_view() == region_records(
                envv,
                secrets_prefix(),
                "secret_name"@,
                configured_ids(idsv.take(i as int), envv, secrets_prefix(), Some("secret_name"@)),
            ),
        decreases n - i,
    {
        let ghost idv = idsv[i as int];
        proof {
            assert(idsv.take(i + 1).drop_last() =~= idsv.take(i as int));
            assert(idsv.take(i + 1).last() == idv);
        }
        let id = ids[i].clone();
        match last_param_value(env, "SECRETS_", id.as_str(), "secret_name") {
            Some(secret_name) => {
                let parts = region_parts(env, "SECRETS_", id.as_str());
                let cfg = SecretsManagerConfig {
                    identifier: id.clone(),
                    region: parts.0,
                    secret_name,
                    access_key_id: parts.1,
                    secret_access_key: parts.2,
                };
                proof {
                    assert(cfg.deep_view() == region_record_spec(
                        envv,
                        secrets_prefix(),
                        "secret_name"@,
                        idv,
                    ));
                }
                let ghost pre_dv = out.deep_view();
                out.push(cfg);
                proof {
                    let ghost prev = configured_ids(
                        idsv.take(i as int),
                        envv,
                        secrets_prefix(),
                        Some("secret_name"@),
                    );
                    assert(has_mandatory(envv, secrets_prefix(), idv, Some("secret_name"@)));
                    assert(configured_ids(
                        idsv.take(i + 1),
                        envv,
                        secrets_prefix(),
                        Some("secret_name"@),
                    ) == prev.push(idv));
                    assert(out.deep_view().len() == pre_dv.len() + 1);
                    assert forall|j: int| 0 <= j < pre_dv.len() implies out.deep_view()[j]
                        == pre_dv[j] by {}
                    assert(out.deep_view()[pre_dv.len() as int] == cfg.deep_view());
                    assert(out.deep_view() =~= pre_dv.push(cfg.deep_view()));
                    assert(region_records(envv, secrets_prefix(), "secret_name"@, prev.push(idv))
                        =~= pre_dv.push(cfg.deep_view()));
                }
            },
            None => {
                proof {
                    assert(out.deep_view() =~= region_records(
                        envv,
                        secrets_prefix(),
                        "secret_name"@,
                        configured_ids(
                            idsv.take(i + 1),
                            envv,
                            secrets_prefix(),
                            Some("secret_name"@),
                        ),
                    ));
                }
            },
        }
        i = i + 1;
    }
    proof {
        assert(idsv.take(n as int) =~= idsv);
    }
    out
}

/// Parses wide-column table configurations (`DYNAMODB_<ID>_<PARAM>`) out
/// of the namespace snapshot.
pub fn parse_dynamodb_configs(env: &Vec<(String, String)>) -> (r: Vec<DynamoDBConfig>)
    ensures
        r.deep_view() == dynamodb_configs_spec(env.deep_view()),
{
    let ghost envv = env.deep_view();
    let ids = collect_ids(env, "DYNAMODB_");
    let ghost idsv = ids.deep_view();
    let mut out: Vec<DynamoDBConfig> = Vec::new();
    let n = ids.len();
    proof {
        assert(idsv.take(0) =~= Seq::<Seq<char>>::empty());
    }
    let mut i: usize = 0;
    while i < n
        invariant
            n == ids.len(),
            envv == env.deep_view(),
            idsv == ids.deep_view(),
            i <= n,
            out.deep_view() == region_records(
                envv,
                dynamodb_prefix(),
                "table"@,
                configured_ids(idsv.take(i as int), envv, dynamodb_prefix(), Some("table"@)),
            ),
        decreases n - i,
    {
        let ghost idv = idsv[i as int];
        proof {
            assert(idsv.take(i + 1).drop_last() =~= idsv.take(i as int));
            assert(idsv.take(i + 1).last() == idv);
        }
        let id = ids[i].clone();
        match last_param_value(env, "DYNAMODB_", id.as_str(), "table") {
            Some(table) => {
                let parts = region_parts(env, "DYNAMODB_", id.as_str());
                let cfg = DynamoDBConfig {
                    identifier: id.clone(),
                    region: parts.0,
                    table,
                    access_key_id: parts.1,
                    secret_access_key: parts.2,
                };
                proof {
                    assert(cfg.deep_view() == region_record_spec(
                        envv,
                        dynamodb_prefix(),
                        "table"@,
                        idv,
                    ));
                }
                let ghost pre_dv = out.deep_view();
                out.push(cfg);
                proof {
                    let ghost prev = configured_ids(
                        idsv.take(i as int),
                        envv,
                        dynamodb_prefix(),
                        Some("table"@),
                    );
                    assert(has_mandatory(envv, dynamodb_prefix(), idv, Some("table"@)));
                    assert(configured_ids(
                        idsv.take(i + 1),
                        envv,
                        dynamodb_prefix(),
                        Some("table"@),
                    ) == prev.push(idv));
                    assert(out.deep_view().len() == pre_dv.len() + 1);
                    assert forall|j: int| 0 <= j < pre_dv.len() implies out.deep_view()[j]
                        == pre_dv[j] by {}
                    assert(out.deep_view()[pre_dv.len() as int] == cfg.deep_view());
                    assert(out.deep_view() =~= pre_dv.push(cfg.deep_view()));
                    assert(region_records(envv, dynamodb_prefix(), "table"@, prev.push(idv))
                        =~= pre_dv.push(cfg.deep_view()));
                }
            },
            None => {
                proof {
                    assert(out.deep_view() =~= region_records(
                        envv,
                        dynamodb_prefix(),
                        "table"@,
                        configured_ids(idsv.take(i + 1), envv, dynamodb_prefix(), Some("table"@)),
                    ));
                }
            },
        }
        i = i + 1;
    }
    proof {
        assert(idsv.take(n as int) =~= idsv);
    }
    out
}

/// Parses model-catalog configurations (`BEDROCK_<ID>_<PARAM>`) out of
/// the namespace snapshot: every identifier group yields a record.
pub fn parse_bedrock_configs(env: &Vec<(String, String)>) -> (r: Vec<BedrockConfig>)
    ensures
        r.deep_view() == bedrock_configs_spec(env.deep_view()),
{
    let ghost envv = env.deep_view();
    let ids = collect_ids(env, "BEDROCK_");
    let ghost idsv = ids.deep_view();
    let mut out: Vec<BedrockConfig> = Vec::new();
    let n = ids.len();
    proof {
        assert(idsv.take(0) =~= Seq::<Seq<char>>::empty());
    }
    let mut i: usize = 0;
    while i < n
        invariant
            n == ids.len(),
            envv == env.deep_view(),
            idsv == ids.deep_view(),
            i <= n,
            out.deep_view() == idsv.take(i as int).map_values(
                |id: Seq<char>| bedrock_record_spec(envv, id),
            ),
        decreases n - i,
    {
        let ghost idv = idsv[i as int];
        let id = ids[i].clone();
        let parts = region_parts(env, "BEDROCK_", id.as_str());
        let cfg = BedrockConfig {
            identifier: id.clone(),
            region: parts.0,
            access_key_id: parts.1,
            secret_access_key: parts.2,
        };
        proof {
            assert(cfg.deep_view() == bedrock_record_spec(envv, idv));
        }
        let ghost pre_dv = out.deep_view();
        out.push(cfg);
        proof {
            assert(out.deep_view().len() == pre_dv.len() + 1);
            assert forall|j: int| 0 <= j < pre_dv.len() implies out.deep_view()[j] == pre_dv[j] by {}
            assert(out.deep_view()[pre_dv.len() as int] == cfg.deep_view());
            assert(out.deep_view() =~= pre_dv.push(cfg.deep_view()));
            assert(idsv.take(i + 1).map_values(|id: Seq<char>| bedrock_record_spec(envv, id))
                =~= pre_dv.push(cfg.deep_view()));
        }
        i = i + 1;
    }
    proof {
        assert(idsv.take(n as int) =~= idsv);
    }
    out
}

/// Extraction has no hidden state: the records of every kind are a pure
/// function of the snapshot, so parsing the same namespace twice yields
/// identical configuration records.
pub proof fn lemma_extraction_deterministic(
    e1: Seq<(Seq<char>, Seq<char>)>,
    e2: Seq<(Seq<char>, Seq<char>)>,
)
    requires
        e1 == e2,
    ensures
        sql_configs_spec(e1) == sql_configs_spec(e2),
        nosql_configs_spec(e1) == nosql_configs_spec(e2),
        http_configs_spec(e1) == http_configs_spec(e2),
        s3_configs_spec(e1) == s3_configs_spec(e2),
        memorydb_configs_spec(e1) == memorydb_configs_spec(e2),
        secrets_manager_configs_spec(e1) == secrets_manager_configs_spec(e2),
        dynamodb_configs_spec(e1) == dynamodb_configs_spec(e2),
        bedrock_configs_spec(e1) == bedrock_configs_spec(e2),
{
}

/// A group that lacks its kind's mandatory field yields no record of the
/// shared region-scoped shape for that identifier.
pub proof fn lemma_region_missing_mandatory_no_record(
    env: Seq<(Seq<char>, Seq<char>)>,
    prefix: Seq<char>,
    mandatory: Seq<char>,
    id: Seq<char>,
)
    requires
        param_value(env, prefix, id, mandatory) is None,
    ensures
        forall|i: int|
            0 <= i < region_configs_spec(env, prefix, mandatory).len()
                ==> region_configs_spec(env, prefix, mandatory)[i].identifier != id,
{
    lemma_missing_mandatory_no_record(kind_ids(env, prefix), env, prefix, mandatory, id);
    let ids = configured_ids(kind_ids(env, prefix), env, prefix, Some(mandatory));
    assert forall|i: int|
        0 <= i < region_configs_spec(env, prefix, mandatory).len() implies region_configs_spec(
        env,
        prefix,
        mandatory,
    )[i].identifier != id by {
        assert(region_configs_spec(env, prefix, mandatory)[i] == region_record_spec(
            env,
            prefix,
            mandatory,
            ids[i],
        ));
        if ids[i] == id {
            assert(ids.contains(id));
        }
    }
}

/// A SQL record exists for an identifier exactly when some `SQL_` key
/// names it and its group carries a `driver` entry.
pub proof fn lemma_sql_record_iff_driver(env: Seq<(Seq<char>, Seq<char>)>, id: Seq<char>)
    ensures
        (exists|i: int|
            0 <= i < sql_configs_spec(env).len() && sql_configs_spec(env)[i].identifier == id)
            <==> (kind_ids(env, sql_prefix()).contains(id) && param_value(
            env,
            sql_prefix(),
            id,
            "driver"@,
        ) is Some),
{
    crate::extract::lemma_configured_ids_iff(
        kind_ids(env, sql_prefix()),
        env,
        sql_prefix(),
        "driver"@,
        id,
    );
    let ids = configured_ids(kind_ids(env, sql_prefix()), env, sql_prefix(), Some("driver"@));
    if exists|i: int|
        0 <= i < sql_configs_spec(env).len() && sql_configs_spec(env)[i].identifier == id {
        let i = choose|i: int|
            0 <= i < sql_configs_spec(env).len() && sql_configs_spec(env)[i].identifier == id;
        assert(sql_configs_spec(env)[i] == sql_record_spec(env, ids[i]));
        assert(ids[i] == id);
        assert(ids.contains(id));
    }
    if ids.contains(id) {
        let k = choose|k: int| 0 <= k < ids.len() && ids[k] == id;
        assert(sql_configs_spec(env)[k] == sql_record_spec(env, ids[k]));
        assert(sql_configs_spec(env)[k].identifier == id);
    }
}

/// A group under `SQL_` without a `driver` entry yields no SQL record.
pub proof fn lemma_sql_missing_driver_no_record(env: Seq<(Seq<char>, Seq<char>)>, id: Seq<char>)
    requires
        param_value(env, sql_prefix(), id, "driver"@) is None,
    ensures
        forall|i: int|
            0 <= i < sql_configs_spec(env).len() ==> sql_configs_spec(env)[i].identifier != id,
{
    lemma_missing_mandatory_no_record(kind_ids(env, sql_prefix()), env, sql_prefix(), "driver"@, id);
    let ids = configured_ids(kind_ids(env, sql_prefix()), env, sql_prefix(), Some("driver"@));
    assert forall|i: int|
        0 <= i < sql_configs_spec(env).len() implies sql_configs_spec(env)[i].identifier != id by {
        assert(sql_configs_spec(env)[i] == sql_record_spec(env, ids[i]));
        if ids[i] == id {
            assert(ids.contains(id));
        }
    }
}

/// A group under `NOSQL_` without a `driver` entry yields no key-value
/// record.
pub proof fn lemma_nosql_missing_driver_no_record(env: Seq<(Seq<char>, Seq<char>)>, id: Seq<char>)
    requires
        param_value(env, nosql_prefix(), id, "driver"@) is None,
    ensures
        forall|i: int|
            0 <= i < nosql_configs_spec(env).len() ==> nosql_configs_spec(env)[i].identifier != id,
{
    lemma_missing_mandatory_no_record(
        kind_ids(env, nosql_prefix()),
        env,
        nosql_prefix(),
        "driver"@,
        id,
    );
    let ids = configured_ids(kind_ids(env, nosql_prefix()), env, nosql_prefix(), Some("driver"@));
    assert forall|i: int|
        0 <= i < nosql_configs_spec(env).len() implies nosql_configs_spec(env)[i].identifier
        != id by {
        assert(nosql_configs_spec(env)[i] == nosql_record_spec(env, ids[i]));
        if ids[i] == id {
            assert(ids.contains(id));
        }
    }
}

/// A group under `HTTP_` without a `url` entry yields no endpoint record.
pub proof fn lemma_http_missing_url_no_record(env: Seq<(Seq<char>, Seq<char>)>, id: Seq<char>)
    requires
        param_value(env, http_prefix(), id, "url"@) is None,
    ensures
        forall|i: int|
            0 <= i < http_configs_spec(env).len() ==> http_configs_spec(env)[i].identifier != id,
{
    lemma_missing_mandatory_no_record(kind_ids(env, http_prefix()), env, http_prefix(), "url"@, id);
    let ids = configured_ids(kind_ids(env, http_prefix()), env, http_prefix(), Some("url"@));
    assert forall|i: int|
        0 <= i < http_configs_spec(env).len() implies http_configs_spec(env)[i].identifier
        != id by {
        assert(http_configs_spec(env)[i] == http_record_spec(env, ids[i]));
        if ids[i] == id {
            assert(ids.contains(id));
        }
    }
}

} // verus!
