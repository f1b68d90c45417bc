//! The sensitivity classifier: decides which namespace keys must have
//! their values redacted when echoed back in the report. Explicit names
//! match the upper-cased key exactly; regular-expression patterns search
//! the raw key; a malformed pattern is silently dropped. Without either
//! control entry no value is redacted.
use crate::strutil::{
    assoc_get, lookup_value, split_seq, split_str, str_eq, trim_seq, trim_str, upper_seq,
    upper_str,
};
use vstd::prelude::*;
use vstd::string::*;

verus! {

#[verifier::external_type_specification]
#[verifier::external_body]
pub struct ExRegex(regex::Regex);

/// Whether `regex::Regex::new` accepts a pattern; acceptance depends on
/// the pattern text alone.
pub uninterp spec fn regex_valid(p: Seq<char>) -> bool;

/// The pattern a compiled regex was built from, as `Regex::as_str`
/// returns it.
pub uninterp spec fn regex_source(r: regex::Regex) -> Seq<char>;

/// Whether a pattern finds a match anywhere in a text; for one pattern
/// and one text the answer never changes.
pub uninterp spec fn regex_match(p: Seq<char>, text: Seq<char>) -> bool;

/// Relies on regex::Regex::new: compiles a pattern, failing exactly on
/// the patterns the crate rejects, and the compiled value keeps the
/// pattern it was built from.
#[verifier::external_body]
fn regex_new(p: &str) -> (r: Option<regex::Regex>)
    ensures
        match r {
            Some(re) => regex_valid(p@) && regex_source(re) == p@,
            None => !regex_valid(p@),
        },
{
    regex::Regex::new(p).ok()
}

/// Relies on regex::Regex::is_match: an unanchored search whose outcome
/// depends only on the compiled pattern and the searched text.
#[verifier::external_body]
fn regex_is_match(re: &regex::Regex, text: &str) -> (b: bool)
    ensures
        b == regex_match(regex_source(*re), text@),
{
    re.is_match(text)
}

/// The parsed redaction controls: upper-cased explicit key names and the
/// compiled patterns.
pub struct SensitiveConfig {
    pub names: Vec<String>,
    pub patterns: Vec<regex::Regex>,
}

pub open spec fn pattern_sources(ps: Seq<regex::Regex>) -> Seq<Seq<char>> {
    ps.map_values(|r: regex::Regex| regex_source(r))
}

/// Trims each piece and drops the empty ones.
pub open spec fn clean_items(pieces: Seq<Seq<char>>) -> Seq<Seq<char>>
    decreases pieces.len(),
{
    if pieces.len() == 0 {
        Seq::empty()
    } else {
        let prev = clean_items(pieces.drop_last());
        let t = trim_seq(pieces.last());
        if t.len() > 0 {
            prev.push(t)
        } else {
            prev
        }
    }
}

/// Keeps the pattern texts that compile.
pub open spec fn valid_patterns(ts: Seq<Seq<char>>) -> Seq<Seq<char>>
    decreases ts.len(),
{
    if ts.len() == 0 {
        Seq::empty()
    } else {
        let prev = valid_patterns(ts.drop_last());
        if regex_valid(ts.last()) {
            prev.push(ts.last())
        } else {
            prev
        }
    }
}

pub open spec fn opt_text(v: Option<&str>) -> Option<Seq<char>> {
    match v {
        Some(s) => Some(s@),
        None => None,
    }
}

/// The explicit names of the comma-separated control value: each entry
/// trimmed, empties dropped, the rest upper-cased.
pub open spec fn upper_all(ts: Seq<Seq<char>>) -> Seq<Seq<char>> {
    ts.map_values(|t: Seq<char>| upper_seq(t))
}

pub open spec fn sensitive_names_spec(v: Option<Seq<char>>) -> Seq<Seq<char>> {
    match v {
        None => Seq::empty(),
        Some(s) => upper_all(clean_items(split_seq(s, ','))),
    }
}

/// The pattern texts of the comma-separated control value: each entry
/// trimmed, empties dropped, patterns that do not compile dropped.
pub open spec fn sensitive_patterns_spec(v: Option<Seq<char>>) -> Seq<Seq<char>> {
    match v {
        None => Seq::empty(),
        Some(s) => valid_patterns(clean_items(split_seq(s, ','))),
    }
}

/// Parses the two redaction control values into explicit names and
/// compiled patterns.
pub fn parse_sensitive_env_config(names_val: Option<&str>, patterns_val: Option<&str>) -> (r:
    SensitiveConfig)
    ensures
        r.names.deep_view() == sensitive_names_spec(opt_text(names_val)),
        pattern_sources(r.patterns@) == sensitive_patterns_spec(opt_text(patterns_val)),
{
    let mut names: Vec<String> = Vec::new();
    match names_val {
        Some(s) => {
            let pieces = split_str(s, ',');
            let ghost piecesv = pieces.deep_view();
            proof {
                assert(piecesv.take(0) =~= Seq::<Seq<char>>::empty());
            }
            let n = pieces.len();
            let mut k: usize = 0;
            while k < n
                invariant
                    n == pieces.len(),
                    piecesv == pieces.deep_view(),
                    k <= n,
                    names.deep_view() == upper_all(clean_items(piecesv.take(k as int))),
                decreases n - k,
            {
                proof {
                    assert(piecesv.take(k + 1).drop_last() =~= piecesv.take(k as int));
                    assert(piecesv.take(k + 1).last() == piecesv[k as int]);
                }
                let ghost cleaned = clean_items(piecesv.take(k as int));
                let t = trim_str(pieces[k].as_str());
                if t.unicode_len() > 0 {
                    let up = upper_str(t);
                    let ghost pre_dv = names.deep_view();
                    names.push(up);
                    proof {
                        assert(clean_items(piecesv.take(k + 1)) == cleaned.push(t@));
                        assert(cleaned.push(t@).drop_last() =~= cleaned);
                        assert(names.deep_view().len() == pre_dv.len() + 1);
                        assert forall|j: int| 0 <= j < pre_dv.len() implies names.deep_view()[j]
                            == pre_dv[j] by {}
                        assert(names.deep_view()[pre_dv.len() as int] == upper_seq(
                            trim_seq(piecesv[k as int]),
                        ));
                        assert(names.deep_view() =~= pre_dv.push(up@));
                        assert(upper_all(cleaned.push(t@)) =~= pre_dv.push(up@));
                    }
                } else {
                    proof {
                        assert(names.deep_view() =~= upper_all(clean_items(piecesv.take(k + 1))));
                    }
                }
                k = k + 1;
            }
            proof {
                assert(piecesv.take(n as int) =~= piecesv);
            }
        },
        None => {},
    }
    let mut patterns: Vec<regex::Regex> = Vec::new();
    match patterns_val {
        Some(s) => {
            let pieces = split_str(s, ',');
            let ghost piecesv = pieces.deep_view();
            proof {
                assert(piecesv.take(0) =~= Seq::<Seq<char>>::empty());
            }
            let n = pieces.len();
            let mut k: usize = 0;
            while k < n
                invariant
                    n == pieces.len(),
                    piecesv == pieces.deep_view(),
                    k <= n,
                    pattern_sources(patterns@) == valid_patterns(
                        clean_items(piecesv.take(k as int)),
                    ),
                decreases n - k,
            {
                proof {
                    assert(piecesv.take(k + 1).drop_last() =~= piecesv.take(k as int));
                    assert(piecesv.take(k + 1).last() == piecesv[k as int]);
                }
                let ghost cleaned = clean_items(piecesv.take(k as int));
                let t = trim_str(pieces[k].as_str());
                if t.unicode_len() > 0 {
                    proof {
                        assert(clean_items(piecesv.take(k + 1)) == cleaned.push(t@));
                        assert(cleaned.push(t@).drop_last() =~= cleaned);
                    }
                    match regex_new(t) {
                        Some(re) => {
                            let ghost pre = patterns@;
                            patterns.push(re);
                            proof {
                                assert(patterns@ == pre.push(re));
                                assert(pattern_sources(patterns@) =~= pattern_sources(pre).push(
                                    t@,
                                ));
                                assert(pattern_sources(patterns@) =~= valid_patterns(
                                    clean_items(piecesv.take(k + 1)),
                                ));
                            }
                        },
                        None => {
                            proof {
                                assert(pattern_sources(patterns@) =~= valid_patterns(
                                    clean_items(piecesv.take(k + 1)),
                                ));
                            }
                        },
                    }
                } else {
                    proof {
                        assert(clean_items(piecesv.take(k + 1)) == cleaned);
                    }
                }
                k = k + 1;
            }
            proof {
                assert(piecesv.take(n as int) =~= piecesv);
            }
        },
        None => {},
    }
    proof {
        assert(pattern_sources(Seq::<regex::Regex>::empty())
            =~= Seq::<Seq<char>>::empty());
    }
    SensitiveConfig { names, patterns }
}

/// A key is sensitive when its upper-cased form equals one of the
/// explicit names, or some pattern matches the raw key.
pub open spec fn is_sensitive_spec(
    key: Seq<char>,
    names: Seq<Seq<char>>,
    patterns: Seq<Seq<char>>,
) -> bool {
    names.contains(upper_seq(key)) || exists|i: int|
        0 <= i < patterns.len() && regex_match(patterns[i], key)
}

/// Decides whether one namespace key is sensitive.
pub fn is_sensitive(key: &str, config: &SensitiveConfig) -> (r: bool)
    ensures
        r == is_sensitive_spec(
            key@,
            config.names.deep_view(),
            pattern_sources(config.patterns@),
        ),
{
    let key_upper = upper_str(key);
    let n = config.names.len();
    let mut i: usize = 0;
    while i < n
        invariant
            n == config.names.len(),
            i <= n,
            key_upper@ == upper_seq(key@),
            forall|j: int| 0 <= j < i ==> config.names.deep_view()[j] != upper_seq(key@),
        decreases n - i,
    {
        if str_eq(config.names[i].as_str(), key_upper.as_str()) {
            assert(config.names.deep_view()[i as int] == upper_seq(key@));
            return true;
        }
        i = i + 1;
    }
    assert(!config.names.deep_view().contains(upper_seq(key@)));
    let m = config.patterns.len();
    let mut k: usize = 0;
    while k < m
        invariant
            m == config.patterns.len(),
            k <= m,
            forall|j: int|
                0 <= j < k ==> !regex_match(pattern_sources(config.patterns@)[j], key@),
        decreases m - k,
    {
        if regex_is_match(&config.patterns[k], key) {
            assert(regex_match(pattern_sources(config.patterns@)[k as int], key@));
            return true;
        }
        k = k + 1;
    }
    false
}

/// The placeholder that replaces a sensitive value in the snapshot.
pub open spec fn placeholder() -> Seq<char> {
    "(value is set)"@
}

pub open spec fn redacted_value(
    key: Seq<char>,
    value: Seq<char>,
    names: Seq<Seq<char>>,
    patterns: Seq<Seq<char>>,
) -> Seq<char> {
    if is_sensitive_spec(key, names, patterns) {
        placeholder()
    } else {
        value
    }
}

/// Redacts a snapshot: every key is kept, a sensitive key's value is
/// replaced by the placeholder, every other value passes through
/// unchanged.
pub fn redact_env_vars(env: &Vec<(String, String)>, config: &SensitiveConfig) -> (r: Vec<
    (String, String),
>)
    ensures
        r.deep_view().len() == env.deep_view().len(),
        forall|i: int|
            0 <= i < env.deep_view().len() ==> r.deep_view()[i].0 == env.deep_view()[i].0
                && r.deep_view()[i].1 == redacted_value(
                env.deep_view()[i].0,
                env.deep_view()[i].1,
                config.names.deep_view(),
                pattern_sources(config.patterns@),
            ),
{
    let n = env.len();
    let mut out: Vec<(String, String)> = Vec::new();
    let mut i: usize = 0;
    while i < n
        invariant
            n == env.len(),
            i <= n,
            out.len() == i,
            forall|j: int|
                0 <= j < i ==> out.deep_view()[j].0 == env.deep_view()[j].0
                    && out.deep_view()[j].1 == redacted_value(
                    env.deep_view()[j].0,
                    env.deep_view()[j].1,
                    config.names.deep_view(),
                    pattern_sources(config.patterns@),
                ),
        decreases n - i,
    {
        let key = env[i].0.clone();
        let value = if is_sensitive(key.as_str(), config) {
            String::from_str("(value is set)")
        } else {
            env[i].1.clone()
        };
        out.push((key, value));
        i = i + 1;
    }
    out
}

/// The explicit-name control entry of a snapshot.
pub open spec fn snapshot_names(env: Seq<(Seq<char>, Seq<char>)>) -> Seq<Seq<char>> {
    sensitive_names_spec(assoc_get(env, "SENSITIVE_ENVIRONMENTS"@))
}

/// The pattern control entry of a snapshot.
pub open spec fn snapshot_patterns(env: Seq<(Seq<char>, Seq<char>)>) -> Seq<Seq<char>> {
    sensitive_patterns_spec(assoc_get(env, "SENSITIVE_ENVIRONMENTS_REGEX"@))
}

/// Without either control entry nothing is sensitive, so every value
/// passes through the snapshot unchanged.
pub proof fn lemma_no_config_no_redaction(env: Seq<(Seq<char>, Seq<char>)>)
    requires
        assoc_get(env, "SENSITIVE_ENVIRONMENTS"@) is None,
        assoc_get(env, "SENSITIVE_ENVIRONMENTS_REGEX"@) is None,
    ensures
        forall|k: Seq<char>, v: Seq<char>|
            redacted_value(k, v, snapshot_names(env), snapshot_patterns(env)) == v,
{
    assert(snapshot_names(env) =~= Seq::<Seq<char>>::empty());
    assert(snapshot_patterns(env) =~= Seq::<Seq<char>>::empty());
    assert forall|k: Seq<char>, v: Seq<char>|
        redacted_value(k, v, snapshot_names(env), snapshot_patterns(env)) == v by {
        assert(!snapshot_names(env).contains(upper_seq(k)));
        assert(!is_sensitive_spec(k, snapshot_names(env), snapshot_patterns(env)));
    }
}

/// The redacted snapshot: the two control entries
/// `SENSITIVE_ENVIRONMENTS` and `SENSITIVE_ENVIRONMENTS_REGEX` configure
/// which keys are sensitive, and every sensitive value is replaced by the
/// placeholder. Without either entry every value passes through.
pub fn get_all_env_vars(env: &Vec<(String, String)>) -> (r: Vec<(String, String)>)
    ensures
        r.deep_view().len() == env.deep_view().len(),
        forall|i: int|
            0 <= i < env.deep_view().len() ==> r.deep_view()[i].0 == env.deep_view()[i].0
                && r.deep_view()[i].1 == redacted_value(
                env.deep_view()[i].0,
                env.deep_view()[i].1,
                snapshot_names(env.deep_view()),
                snapshot_patterns(env.deep_view()),
            ),
{
    let names_val = lookup_value(env, "SENSITIVE_ENVIRONMENTS");
    let patterns_val = lookup_value(env, "SENSITIVE_ENVIRONMENTS_REGEX");
    let names_ref: Option<&str> = match &names_val {
        Some(s) => Some(s.as_str()),
        None => None,
    };
    let patterns_ref: Option<&str> = match &patterns_val {
        Some(s) => Some(s.as_str()),
        None => None,
    };
    let config = parse_sensitive_env_config(names_ref, patterns_ref);
    redact_env_vars(env, &config)
}

} // verus!
