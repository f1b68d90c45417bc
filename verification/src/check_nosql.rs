//! The key-value checker's decision logic: driver dispatch over a closed
//! set, the connection URL, the server-info parser, and the mapping from
//! a probe's outcome to the check result. The connection itself is the
//! caller's: it hands back what the probe came to.
use crate::models::{NoSqlCheckResult, NoSqlConfig};
use crate::strutil::{
    dec_digits, find_char, first_idx, lemma_first_idx, split_seq, split_str, str_eq, trim_seq,
    trim_str, u16_string,
};
use vstd::prelude::*;
use vstd::string::*;

verus! {

/// The closed set of key-value drivers: one is implemented, any other
/// driver string is rejected before any connection attempt.
#[derive(Debug, Clone, Copy, PartialEq, Eq, Structural)]
pub enum NoSqlDriverKind {
    Redis,
    Unsupported,
}

pub open spec fn nosql_driver_of(s: Seq<char>) -> NoSqlDriverKind {
    if s == "redis"@ {
        NoSqlDriverKind::Redis
    } else {
        NoSqlDriverKind::Unsupported
    }
}

pub fn classify_nosql_driver(driver: &str) -> (k: NoSqlDriverKind)
    ensures
        k == nosql_driver_of(driver@),
{
    if str_eq(driver, "redis") {
        NoSqlDriverKind::Redis
    } else {
        NoSqlDriverKind::Unsupported
    }
}

/// The immediate result for an unsupported driver: no connection is
/// attempted, the configured endpoint is echoed.
pub fn nosql_unsupported_result(config: &NoSqlConfig) -> (r: NoSqlCheckResult)
    ensures
        !r.success,
        r.driver@ == config.driver@,
        r.host@ == config.host@,
        r.port == config.port,
        r.info is None,
        r.error matches Some(e) && e@ == "Unsupported NoSQL driver: "@ + config.driver@,
{
    let mut msg = String::from_str("Unsupported NoSQL driver: ");
    msg.append(config.driver.as_str());
    NoSqlCheckResult {
        success: false,
        driver: config.driver.clone(),
        host: config.host.clone(),
        port: config.port,
        info: None,
        error: Some(msg),
    }
}

/// The connection URL of one instance, embedding the password when one
/// is configured.
pub fn redis_connection_string(config: &NoSqlConfig) -> (r: String)
    ensures
        match config.password {
            Some(p) => r@ == "redis://:"@ + p@ + "@"@ + config.host@ + ":"@ + dec_digits(
                config.port as int,
            ) + "/"@,
            None => r@ == "redis://"@ + config.host@ + ":"@ + dec_digits(config.port as int)
                + "/"@,
        },
{
    let port = u16_string(config.port);
    match &config.password {
        Some(p) => {
            let mut s = String::from_str("redis://:");
            s.append(p.as_str());
            s.append("@");
            s.append(config.host.as_str());
            s.append(":");
            s.append(port.as_str());
            s.append("/");
            s
        },
        None => {
            let mut s = String::from_str("redis://");
            s.append(config.host.as_str());
            s.append(":");
            s.append(port.as_str());
            s.append("/");
            s
        },
    }
}

/// Replaces the first binding of `k`, or appends one.
pub open spec fn upsert(m: Seq<(Seq<char>, Seq<char>)>, k: Seq<char>, v: Seq<char>) -> Seq<
    (Seq<char>, Seq<char>),
>
    decreases m.len(),
{
    if m.len() == 0 {
        seq![(k, v)]
    } else if m[0].0 == k {
        seq![(k, v)] + m.drop_first()
    } else {
        seq![m[0]] + upsert(m.drop_first(), k, v)
    }
}

proof fn lemma_upsert_found(m: Seq<(Seq<char>, Seq<char>)>, k: Seq<char>, v: Seq<char>, i: int)
    requires
        0 <= i < m.len(),
        m[i].0 == k,
        forall|j: int| 0 <= j < i ==> m[j].0 != k,
    ensures
        upsert(m, k, v) == m.update(i, (k, v)),
    decreases m.len(),
{
    if i == 0 {
        assert(upsert(m, k, v) =~= m.update(0, (k, v)));
    } else {
        assert(m[0].0 != k);
        assert forall|j: int| 0 <= j < i - 1 implies m.drop_first()[j].0 != k by {
            assert(m[j + 1].0 != k);
        }
        lemma_upsert_found(m.drop_first(), k, v, i - 1);
        assert(upsert(m, k, v) =~= m.update(i, (k, v)));
    }
}

proof fn lemma_upsert_absent(m: Seq<(Seq<char>, Seq<char>)>, k: Seq<char>, v: Seq<char>)
    requires
        forall|j: int| 0 <= j < m.len() ==> m[j].0 != k,
    ensures
        upsert(m, k, v) == m.push((k, v)),
    decreases m.len(),
{
    if m.len() == 0 {
        assert(upsert(m, k, v) =~= m.push((k, v)));
    } else {
        assert forall|j: int| 0 <= j < m.drop_first().len() implies m.drop_first()[j].0 != k by {
            assert(m[j + 1].0 != k);
        }
        lemma_upsert_absent(m.drop_first(), k, v);
        assert(upsert(m, k, v) =~= m.push((k, v)));
    }
}

fn find_key(m: &Vec<(String, String)>, k: &str) -> (r: usize)
    ensures
        r <= m.deep_view().len(),
        forall|j: int| 0 <= j < r ==> m.deep_view()[j].0 != k@,
        r < m.deep_view().len() ==> m.deep_view()[r as int].0 == k@,
{
    let n = m.len();
    let mut i: usize = 0;
    while i < n
        invariant
            n == m.len(),
            i <= n,
            forall|j: int| 0 <= j < i ==> m.deep_view()[j].0 != k@,
        decreases n - i,
    {
        if str_eq(m[i].0.as_str(), k) {
            assert(m.deep_view()[i as int].0 == k@);
            return i;
        }
        i = i + 1;
    }
    n
}

fn upsert_pair(m: &mut Vec<(String, String)>, k: String, v: String)
    ensures
        final(m).deep_view() == upsert(old(m).deep_view(), k@, v@),
{
    let ghost mv = old(m).deep_view();
    let ghost kv = k@;
    let ghost vv = v@;
    let i = find_key(m, k.as_str());
    if i < m.len() {
        proof {
            lemma_upsert_found(mv, kv, vv, i as int);
        }
        m.set(i, (k, v));
        proof {
            assert(m.deep_view() =~= mv.update(i as int, (kv, vv)));
        }
    } else {
        proof {
            lemma_upsert_absent(mv, kv, vv);
        }
        m.push((k, v));
        proof {
            assert(m.deep_view() =~= mv.push((kv, vv)));
        }
    }
}

/// What one line of the server-info text contributes: blank lines and
/// `#` section headers are skipped, any other line is split at its first
/// colon into a trimmed key and value; a line without a colon is skipped.
pub open spec fn info_line_apply(m: Seq<(Seq<char>, Seq<char>)>, line: Seq<char>) -> Seq<
    (Seq<char>, Seq<char>),
> {
    let t = trim_seq(line);
    if t.len() == 0 || t[0] == '#' {
        m
    } else {
        let i = first_idx(t, ':');
        if i < t.len() {
            upsert(m, trim_seq(t.take(i)), trim_seq(t.skip(i + 1)))
        } else {
            m
        }
    }
}

pub open spec fn redis_info_lines(lines: Seq<Seq<char>>) -> Seq<(Seq<char>, Seq<char>)>
    decreases lines.len(),
{
    if lines.len() == 0 {
        Seq::empty()
    } else {
        info_line_apply(redis_info_lines(lines.drop_last()), lines.last())
    }
}

/// The flat key/value map the multi-line server-info text parses to.
pub open spec fn redis_info_spec(s: Seq<char>) -> Seq<(Seq<char>, Seq<char>)> {
    redis_info_lines(split_seq(s, '\n'))
}

/// Parses the server-info text: each non-blank line outside a `#` section
/// header is split at its first colon into a trimmed key and value.
pub fn parse_redis_info(info_str: &str) -> (r: Vec<(String, String)>)
    ensures
        r.deep_view() == redis_info_spec(info_str@),
{
    let lines = split_str(info_str, '\n');
    let ghost linesv = lines.deep_view();
    let mut map: Vec<(String, String)> = Vec::new();
    let n = lines.len();
    proof {
        assert(linesv.take(0) =~= Seq::<Seq<char>>::empty());
    }
    let mut i: usize = 0;
    while i < n
        invariant
            n == lines.len(),
            linesv == lines.deep_view(),
            i <= n,
            map.deep_view() == redis_info_lines(linesv.take(i as int)),
        decreases n - i,
    {
        proof {
            assert(linesv.take(i + 1).drop_last() =~= linesv.take(i as int));
            assert(linesv.take(i + 1).last() == linesv[i as int]);
        }
        let line = trim_str(lines[i].as_str());
        let len = line.unicode_len();
        if len > 0 && line.get_char(0) != '#' {
            let j = find_char(line, ':');
            if j < len {
                proof {
                    lemma_first_idx(line@, ':');
                }
                let key = trim_str(line.substring_char(0, j));
                let value = trim_str(line.substring_char(j + 1, len));
                upsert_pair(&mut map, String::from_str(key), String::from_str(value));
            }
        }
        i = i + 1;
    }
    proof {
        assert(linesv.take(n as int) =~= linesv);
    }
    map
}

/// What the probe of one key-value instance came to.
pub enum RedisProbeOutcome {
    /// The client could not be created from the connection URL.
    ClientFailed(String),
    /// The connection manager could not be established.
    ManagerFailed(String),
    /// The liveness probe command failed after connecting.
    PingFailed(String),
    /// The liveness probe succeeded and the server-info command returned
    /// this text.
    InfoRetrieved(String),
    /// The liveness probe succeeded but the server-info command failed:
    /// still a success, with an empty info map.
    InfoUnavailable,
}

/// Builds the check result of one key-value instance from its probe's
/// outcome: any failure before the liveness probe's answer is terminal,
/// while a failed server-info command still counts as success with an
/// empty info map.
pub fn redis_outcome_result(config: &NoSqlConfig, outcome: RedisProbeOutcome) -> (r:
    NoSqlCheckResult)
    ensures
        r.driver@ == config.driver@,
        r.host@ == config.host@,
        r.port == config.port,
        match outcome {
            RedisProbeOutcome::ClientFailed(m) => !r.success && r.info is None && (
            r.error matches Some(e) && e@ == "Client creation failed: "@ + m@),
            RedisProbeOutcome::ManagerFailed(m) => !r.success && r.info is None && (
            r.error matches Some(e) && e@ == "Connection manager creation failed: "@ + m@),
            RedisProbeOutcome::PingFailed(m) => !r.success && r.info is None && (
            r.error matches Some(e) && e@ == "PING failed: "@ + m@),
            RedisProbeOutcome::InfoRetrieved(text) => r.success && r.error is None && (
            r.info matches Some(iv) && iv.deep_view() == redis_info_spec(text@)),
            RedisProbeOutcome::InfoUnavailable => r.success && r.error is None && (
            r.info matches Some(iv) && iv.deep_view() == Seq::<(Seq<char>, Seq<char>)>::empty()),
        },
{
    match outcome {
        RedisProbeOutcome::ClientFailed(m) => {
            let mut msg = String::from_str("Client creation failed: ");
            msg.append(m.as_str());
            NoSqlCheckResult {
                success: false,
                driver: config.driver.clone(),
                host: config.host.clone(),
                port: config.port,
                info: None,
                error: Some(msg),
            }
        },
        RedisProbeOutcome::ManagerFailed(m) => {
            let mut msg = String::from_str("Connection manager creation failed: ");
            msg.append(m.as_str());
            NoSqlCheckResult {
                success: false,
                driver: config.driver.clone(),
                host: config.host.clone(),
                port: config.port,
                info: None,
                error: Some(msg),
            }
        },
        RedisProbeOutcome::PingFailed(m) => {
            let mut msg = String::from_str("PING failed: ");
            msg.append(m.as_str());
            NoSqlCheckResult {
                success: false,
                driver: config.driver.clone(),
                host: config.host.clone(),
                port: config.port,
                info: None,
                error: Some(msg),
            }
        },
        RedisProbeOutcome::InfoRetrieved(text) => {
            let info = parse_redis_info(text.as_str());
            NoSqlCheckResult {
                success: true,
                driver: config.driver.clone(),
                host: config.host.clone(),
                port: config.port,
                info: Some(info),
                error: None,
            }
        },
        RedisProbeOutcome::InfoUnavailable => {
            let empty: Vec<(String, String)> = Vec::new();
            proof {
                assert(empty.deep_view() =~= Seq::<(Seq<char>, Seq<char>)>::empty());
            }
            NoSqlCheckResult {
                success: true,
                driver: config.driver.clone(),
                host: config.host.clone(),
                port: config.port,
                info: Some(empty),
                error: None,
            }
        },
    }
}

} // verus!
