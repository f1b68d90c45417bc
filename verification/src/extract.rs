//! The configuration-extraction grammar: a namespace key of the form
//! `<PREFIX><IDENTIFIER>_<PARAM>` names one parameter of one backend
//! instance. The identifier runs up to the first underscore after the
//! prefix and so can never contain one; the parameter is everything after
//! that underscore, case-folded to lower case.
use crate::strutil::{
    find_char, first_idx, lemma_first_idx, lower_seq, lower_str, parse_u16, parse_u16_spec,
    str_eq,
};
use vstd::prelude::*;
use vstd::string::*;

verus! {

pub open spec fn has_prefix(k: Seq<char>, p: Seq<char>) -> bool {
    k.len() >= p.len() && k.take(p.len() as int) == p
}

/// A key is relevant to a kind when it starts with the kind's prefix and
/// the remainder still contains an underscore.
pub open spec fn key_matches(prefix: Seq<char>, k: Seq<char>) -> bool {
    has_prefix(k, prefix) && first_idx(k.skip(prefix.len() as int), '_') < k.len() - prefix.len()
}

/// The instance identifier carried by a matching key.
pub open spec fn ident_of(prefix: Seq<char>, k: Seq<char>) -> Seq<char> {
    let rest = k.skip(prefix.len() as int);
    rest.take(first_idx(rest, '_'))
}

/// The lower-cased parameter name carried by a matching key.
pub open spec fn param_of(prefix: Seq<char>, k: Seq<char>) -> Seq<char> {
    let rest = k.skip(prefix.len() as int);
    lower_seq(rest.skip(first_idx(rest, '_') + 1))
}

/// The extracted identifier never contains an underscore: everything from
/// the first underscore onward belongs to the parameter name, which may
/// itself contain further underscores.
pub proof fn lemma_identifier_no_underscore(prefix: Seq<char>, k: Seq<char>)
    requires
        key_matches(prefix, k),
    ensures
        forall|i: int| 0 <= i < ident_of(prefix, k).len() ==> ident_of(prefix, k)[i] != '_',
{
    let rest = k.skip(prefix.len() as int);
    lemma_first_idx(rest, '_');
}

/// Splits a key by the grammar: `Some` holds the identifier and the
/// lower-cased parameter name exactly when the key matches the prefix.
pub fn split_key(prefix: &str, key: &str) -> (r: Option<(String, String)>)
    ensures
        match r {
            Some(pair) => key_matches(prefix@, key@) && pair.0@ == ident_of(prefix@, key@)
                && pair.1@ == param_of(prefix@, key@),
            None => !key_matches(prefix@, key@),
        },
{
    let plen = prefix.unicode_len();
    let klen = key.unicode_len();
    if klen < plen {
        return None;
    }
    let head = key.substring_char(0, plen);
    if !str_eq(head, prefix) {
        return None;
    }
    let rest = key.substring_char(plen, klen);
    let rlen = klen - plen;
    let j = find_char(rest, '_');
    if j == rlen {
        return None;
    }
    proof {
        lemma_first_idx(rest@, '_');
    }
    let id = String::from_str(rest.substring_char(0, j));
    let param = lower_str(rest.substring_char(j + 1, rlen));
    Some((id, param))
}

/// The value of the last namespace entry that names (kind, identifier,
/// parameter); entries later in the snapshot override earlier ones.
pub open spec fn param_value(
    env: Seq<(Seq<char>, Seq<char>)>,
    prefix: Seq<char>,
    id: Seq<char>,
    param: Seq<char>,
) -> Option<Seq<char>>
    decreases env.len(),
{
    if env.len() == 0 {
        None
    } else {
        let e = env.last();
        if key_matches(prefix, e.0) && ident_of(prefix, e.0) == id && param_of(prefix, e.0)
            == param {
            Some(e.1)
        } else {
            param_value(env.drop_last(), prefix, id, param)
        }
    }
}

/// The identifiers of one kind, in order of first appearance in the
/// snapshot, each listed once.
pub open spec fn kind_ids(env: Seq<(Seq<char>, Seq<char>)>, prefix: Seq<char>) -> Seq<Seq<char>>
    decreases env.len(),
{
    if env.len() == 0 {
        Seq::empty()
    } else {
        let prev = kind_ids(env.drop_last(), prefix);
        let k = env.last().0;
        if key_matches(prefix, k) && !prev.contains(ident_of(prefix, k)) {
            prev.push(ident_of(prefix, k))
        } else {
            prev
        }
    }
}

fn contains_str(v: &Vec<String>, s: &str) -> (r: bool)
    ensures
        r == v.deep_view().contains(s@),
{
    let n = v.len();
    let mut i: usize = 0;
    while i < n
        invariant
            n == v.len(),
            i <= n,
            forall|j: int| 0 <= j < i ==> v.deep_view()[j] != s@,
        decreases n - i,
    {
        if str_eq(v[i].as_str(), s) {
            assert(v.deep_view()[i as int] == s@);
            return true;
        }
        i = i + 1;
    }
    assert(!v.deep_view().contains(s@));
    false
}

/// Collects a kind's identifiers in order of first appearance.
pub fn collect_ids(env: &Vec<(String, String)>, prefix: &str) -> (r: Vec<String>)
    ensures
        r.deep_view() == kind_ids(env.deep_view(), prefix@),
{
    let ghost envv = env.deep_view();
    let n = env.len();
    let mut ids: Vec<String> = Vec::new();
    proof {
        assert(envv.take(0) =~= Seq::<(Seq<char>, Seq<char>)>::empty());
    }
    let mut i: usize = 0;
    while i < n
        invariant
            n == env.len(),
            envv == env.deep_view(),
            i <= n,
            ids.deep_view() == kind_ids(envv.take(i as int), prefix@),
        decreases n - i,
    {
        proof {
            assert(envv.take(i + 1).drop_last() =~= envv.take(i as int));
            assert(envv.take(i + 1).last() == (env@[i as int].0@, env@[i as int].1@));
        }
        match split_key(prefix, env[i].0.as_str()) {
            Some(pair) => {
                if !contains_str(&ids, pair.0.as_str()) {
                    ids.push(pair.0);
                    proof {
                        assert(ids.deep_view() =~= kind_ids(envv.take(i + 1), prefix@));
                    }
                } else {
                    proof {
                        assert(ids.deep_view() =~= kind_ids(envv.take(i + 1), prefix@));
                    }
                }
            },
            None => {
                proof {
                    assert(ids.deep_view() =~= kind_ids(envv.take(i + 1), prefix@));
                }
            },
        }
        i = i + 1;
    }
    proof {
        assert(envv.take(n as int) =~= envv);
    }
    ids
}

/// Finds the value a kind's instance carries for one parameter, later
/// entries overriding earlier ones.
pub fn last_param_value(env: &Vec<(String, String)>, prefix: &str, id: &str, param: &str) -> (r:
    Option<String>)
    ensures
        r.deep_view() == param_value(env.deep_view(), prefix@, id@, param@),
{
    let ghost envv = env.deep_view();
    let n = env.len();
    let mut found: Option<String> = None;
    proof {
        assert(envv.take(0) =~= Seq::<(Seq<char>, Seq<char>)>::empty());
    }
    let mut i: usize = 0;
    while i < n
        invariant
            n == env.len(),
            envv == env.deep_view(),
            i <= n,
            found.deep_view() == param_value(envv.take(i as int), prefix@, id@, param@),
        decreases n - i,
    {
        proof {
            assert(envv.take(i + 1).drop_last() =~= envv.take(i as int));
            assert(envv.take(i + 1).last() == (env@[i as int].0@, env@[i as int].1@));
        }
        match split_key(prefix, env[i].0.as_str()) {
            Some(pair) => {
                if str_eq(pair.0.as_str(), id) && str_eq(pair.1.as_str(), param) {
                    found = Some(env[i].1.clone());
                }
            },
            None => {},
        }
        i = i + 1;
    }
    proof {
        assert(envv.take(n as int) =~= envv);
    }
    found
}

pub open spec fn or_default(v: Option<Seq<char>>, d: Seq<char>) -> Seq<char> {
    match v {
        Some(s) => s,
        None => d,
    }
}

/// A parameter's value, or the kind's default when the parameter is absent.
pub fn param_or_default(
    env: &Vec<(String, String)>,
    prefix: &str,
    id: &str,
    param: &str,
    default: &str,
) -> (r: String)
    ensures
        r@ == or_default(param_value(env.deep_view(), prefix@, id@, param@), default@),
{
    match last_param_value(env, prefix, id, param) {
        Some(v) => v,
        None => String::from_str(default),
    }
}

/// A port parameter that fails to parse as a sixteen-bit number falls back
/// to the kind's default port.
pub open spec fn port_spec(v: Option<Seq<char>>, d: u16) -> u16 {
    match v {
        None => d,
        Some(s) => match parse_u16_spec(s) {
            Some(n) => n,
            None => d,
        },
    }
}

pub fn port_or_default(env: &Vec<(String, String)>, prefix: &str, id: &str, default: u16) -> (r:
    u16)
    ensures
        r == port_spec(param_value(env.deep_view(), prefix@, id@, "port"@), default),
{
    match last_param_value(env, prefix, id, "port") {
        Some(v) => match parse_u16(v.as_str()) {
            Some(n) => n,
            None => default,
        },
        None => default,
    }
}

/// Whether an identifier's group carries the kind's mandatory field
/// (`None` for a kind without one).
pub open spec fn has_mandatory(
    env: Seq<(Seq<char>, Seq<char>)>,
    prefix: Seq<char>,
    id: Seq<char>,
    mandatory: Option<Seq<char>>,
) -> bool {
    match mandatory {
        None => true,
        Some(m) => param_value(env, prefix, id, m) is Some,
    }
}

/// The identifiers among `ids` whose group carries the mandatory field,
/// in order.
pub open spec fn configured_ids(
    ids: Seq<Seq<char>>,
    env: Seq<(Seq<char>, Seq<char>)>,
    prefix: Seq<char>,
    mandatory: Option<Seq<char>>,
) -> Seq<Seq<char>>
    decreases ids.len(),
{
    if ids.len() == 0 {
        Seq::empty()
    } else {
        let prev = configured_ids(ids.drop_last(), env, prefix, mandatory);
        if has_mandatory(env, prefix, ids.last(), mandatory) {
            prev.push(ids.last())
        } else {
            prev
        }
    }
}

/// An identifier stays in a kind's output exactly when the kind lists it
/// and its group carries the mandatory field.
pub proof fn lemma_configured_ids_iff(
    ids: Seq<Seq<char>>,
    env: Seq<(Seq<char>, Seq<char>)>,
    prefix: Seq<char>,
    m: Seq<char>,
    id: Seq<char>,
)
    ensures
        configured_ids(ids, env, prefix, Some(m)).contains(id) <==> (ids.contains(id)
            && param_value(env, prefix, id, m) is Some),
    decreases ids.len(),
{
    if ids.len() == 0 {
        assert(!configured_ids(ids, env, prefix, Some(m)).contains(id));
        assert(!ids.contains(id));
    } else {
        lemma_configured_ids_iff(ids.drop_last(), env, prefix, m, id);
        let prev = configured_ids(ids.drop_last(), env, prefix, Some(m));
        let out = configured_ids(ids, env, prefix, Some(m));
        if has_mandatory(env, prefix, ids.last(), Some(m)) {
            assert(out == prev.push(ids.last()));
            if out.contains(id) {
                let k = choose|k: int| 0 <= k < out.len() && out[k] == id;
                if k < prev.len() {
                    assert(prev[k] == id);
                    assert(prev.contains(id));
                    let w = choose|w: int|
                        0 <= w < ids.drop_last().len() && ids.drop_last()[w] == id;
                    assert(ids[w] == id);
                    assert(ids.contains(id));
                } else {
                    assert(id == ids.last());
                    assert(ids[ids.len() - 1] == id);
                    assert(ids.contains(id));
                }
            }
            if ids.contains(id) && param_value(env, prefix, id, m) is Some {
                if id == ids.last() {
                    assert(out[prev.len() as int] == id);
                    assert(out.contains(id));
                } else {
                    let w = choose|w: int| 0 <= w < ids.len() && ids[w] == id;
                    assert(w < ids.len() - 1);
                    assert(ids.drop_last()[w] == id);
                    assert(ids.drop_last().contains(id));
                    assert(prev.contains(id));
                    let k = choose|k: int| 0 <= k < prev.len() && prev[k] == id;
                    assert(out[k] == id);
                    assert(out.contains(id));
                }
            }
        } else {
            assert(out == prev);
            if out.contains(id) {
                let w = choose|w: int|
                    0 <= w < ids.drop_last().len() && ids.drop_last()[w] == id;
                assert(ids[w] == id);
                assert(ids.contains(id));
            }
            if ids.contains(id) && param_value(env, prefix, id, m) is Some {
                assert(id != ids.last());
                let w = choose|w: int| 0 <= w < ids.len() && ids[w] == id;
                assert(w < ids.len() - 1);
                assert(ids.drop_last()[w] == id);
                assert(ids.drop_last().contains(id));
            }
        }
    }
}

/// A group that lacks its kind's mandatory field yields no configuration
/// record: its identifier is dropped from the kind's output.
pub proof fn lemma_missing_mandatory_no_record(
    ids: Seq<Seq<char>>,
    env: Seq<(Seq<char>, Seq<char>)>,
    prefix: Seq<char>,
    m: Seq<char>,
    id: Seq<char>,
)
    requires
        param_value(env, prefix, id, m) is None,
    ensures
        !configured_ids(ids, env, prefix, Some(m)).contains(id),
    decreases ids.len(),
{
    if ids.len() == 0 {
    } else {
        lemma_missing_mandatory_no_record(ids.drop_last(), env, prefix, m, id);
        let prev = configured_ids(ids.drop_last(), env, prefix, Some(m));
        if has_mandatory(env, prefix, ids.last(), Some(m)) {
            assert(ids.last() != id);
            assert forall|j: int|
                0 <= j < prev.push(ids.last()).len() implies prev.push(ids.last())[j] != id by {
                if j < prev.len() {
                    assert(!prev.contains(id));
                }
            }
        }
    }
}

} // verus!
