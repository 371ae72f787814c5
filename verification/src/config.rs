//! The immutable process configuration, derived once at startup from a
//! snapshot of the environment.
//!
//! `STATIC_HTML_REPLACE_<PATTERN>=<REPLACEMENT>` variables become ordered
//! byte-substitution rules; `STATIC_RESPONSE_HEADER_<NAME>=<VALUE>`
//! variables become extra response headers, with `_` turned into `-` in the
//! name. The remaining `STATIC_*` variables each set one scalar option,
//! falling back to a default when absent or unparseable.

use vstd::prelude::*;
use vstd::string::{StrSliceExecFns, StringExecFns};
use vstd::utf8::encode_utf8;
use crate::parsenum::{
    parse_bool,
    parse_u16,
    parse_usize,
    spec_parse_bool,
    spec_parse_u16,
    spec_parse_usize,
};
use crate::strutil::{is_prefix, starts_with_prefix};

verus! {

pub const REPLACE_PREFIX: &'static str = "STATIC_HTML_REPLACE_";

pub const HEADER_PREFIX: &'static str = "STATIC_RESPONSE_HEADER_";

/// What `humantime::parse_duration` yields for an input, in whole seconds;
/// `None` when the text is not a valid duration.
pub uninterp spec fn parsed_duration_secs(s: Seq<char>) -> Option<u64>;

/// Relies on `humantime::parse_duration`: a human-readable duration such as
/// `10m` or `30s`, reduced to its whole seconds; a function of the text
/// alone.
#[verifier::external_body]
fn parse_duration_secs(s: &String) -> (r: Option<u64>)
    ensures
        match r {
            Some(n) => parsed_duration_secs(s@) == Some(n),
            None => parsed_duration_secs(s@) is None,
        },
{
    match humantime::parse_duration(s.as_str()) {
        Ok(d) => Some(d.as_secs()),
        Err(_) => None,
    }
}

/// The view of an environment snapshot.
pub open spec fn env_view(env: Seq<(String, String)>) -> Seq<(Seq<char>, Seq<char>)> {
    env.map_values(|kv: (String, String)| (kv.0@, kv.1@))
}

/// The first value bound to `key` in the snapshot.
pub open spec fn env_lookup(env: Seq<(Seq<char>, Seq<char>)>, key: Seq<char>) -> Option<Seq<char>>
    decreases env.len(),
{
    if env.len() == 0 {
        None
    } else if env[0].0 == key {
        Some(env[0].1)
    } else {
        env_lookup(env.skip(1), key)
    }
}

/// A header name as the environment spells it, with `_` turned into `-`.
pub open spec fn spec_hyphenate(s: Seq<char>) -> Seq<char> {
    Seq::new(
        s.len(),
        |i: int|
            if s[i] == '_' {
                '-'
            } else {
                s[i]
            },
    )
}

/// The ordered substitution rules drawn from `STATIC_HTML_REPLACE_*`
/// variables, in snapshot order.
pub open spec fn spec_html_replaces(env: Seq<(Seq<char>, Seq<char>)>) -> Seq<(Seq<u8>, Seq<u8>)>
    decreases env.len(),
{
    if env.len() == 0 {
        Seq::empty()
    } else {
        let init = spec_html_replaces(env.drop_last());
        let kv = env.last();
        if is_prefix(kv.0, REPLACE_PREFIX@) {
            init + seq![
                (encode_utf8(kv.0.skip(REPLACE_PREFIX@.len() as int)), encode_utf8(kv.1)),
            ]
        } else {
            init
        }
    }
}

/// The extra response headers drawn from `STATIC_RESPONSE_HEADER_*`
/// variables, in snapshot order, names hyphenated.
pub open spec fn spec_response_headers(env: Seq<(Seq<char>, Seq<char>)>) -> Seq<
    (Seq<char>, Seq<char>),
>
    decreases env.len(),
{
    if env.len() == 0 {
        Seq::empty()
    } else {
        let init = spec_response_headers(env.drop_last());
        let kv = env.last();
        if is_prefix(kv.0, HEADER_PREFIX@) {
            init + seq![(spec_hyphenate(kv.0.skip(HEADER_PREFIX@.len() as int)), kv.1)]
        } else {
            init
        }
    }
}

pub open spec fn spec_timeout_secs(env: Seq<(Seq<char>, Seq<char>)>) -> u64 {
    match env_lookup(env, "STATIC_TIMEOUT"@) {
        Some(v) => match parsed_duration_secs(v) {
            Some(n) => n,
            None => 30,
        },
        None => 30,
    }
}

pub open spec fn spec_compress_min_length(env: Seq<(Seq<char>, Seq<char>)>) -> u16 {
    match env_lookup(env, "STATIC_COMPRESS_MIN_LENGTH"@) {
        Some(v) => match spec_parse_u16(v) {
            Some(n) => n,
            None => 256,
        },
        None => 256,
    }
}

pub open spec fn spec_index_file(env: Seq<(Seq<char>, Seq<char>)>) -> Seq<char> {
    match env_lookup(env, "STATIC_INDEX_FILE"@) {
        Some(v) => v,
        None => "index.html"@,
    }
}

pub open spec fn spec_flag(env: Seq<(Seq<char>, Seq<char>)>, key: Seq<char>) -> bool {
    match env_lookup(env, key) {
        Some(v) => match spec_parse_bool(v) {
            Some(b) => b,
            None => false,
        },
        None => false,
    }
}

pub open spec fn spec_listen_addr(env: Seq<(Seq<char>, Seq<char>)>) -> Seq<char> {
    match env_lookup(env, "STATIC_LISTEN_ADDR"@) {
        Some(v) => v,
        None => "0.0.0.0:3000"@,
    }
}

pub open spec fn spec_cache_control(env: Seq<(Seq<char>, Seq<char>)>) -> Seq<char> {
    match env_lookup(env, "STATIC_CACHE_CONTROL"@) {
        Some(v) => v,
        None => "public, max-age=31536000, immutable"@,
    }
}

pub open spec fn spec_cache_size(env: Seq<(Seq<char>, Seq<char>)>) -> usize {
    match env_lookup(env, "STATIC_CACHE_SIZE"@) {
        Some(v) => match spec_parse_usize(v) {
            Some(n) => n,
            None => 1024,
        },
        None => 1024,
    }
}

pub open spec fn spec_cache_ttl_secs(env: Seq<(Seq<char>, Seq<char>)>) -> u64 {
    match env_lookup(env, "STATIC_CACHE_TTL"@) {
        Some(v) => match parsed_duration_secs(v) {
            Some(n) => n,
            None => 600,
        },
        None => 600,
    }
}

/// The process configuration, all recognized options enumerated.
pub struct Config {
    pub timeout_secs: u64,
    pub compress_min_length: u16,
    pub index_file: String,
    pub autoindex: bool,
    pub listen_addr: String,
    pub cache_control: String,
    pub fallback_index_404: bool,
    pub fallback_html_404: bool,
    pub html_replaces: Vec<(Vec<u8>, Vec<u8>)>,
    pub response_headers: Vec<(String, String)>,
    pub cache_size: usize,
    pub cache_ttl_secs: u64,
}

fn env_get(env: &Vec<(String, String)>, key: &str) -> (r: Option<String>)
    ensures
        match r {
            Some(v) => env_lookup(env_view(env@), key@) == Some(v@),
            None => env_lookup(env_view(env@), key@) is None,
        },
{
    let ghost whole = env_view(env@);
    let mut i: usize = 0;
    proof {
        assert(whole.skip(0) =~= whole);
    }
    while i < env.len()
        invariant
            0 <= i <= env@.len(),
            whole == env_view(env@),
            env_lookup(whole, key@) == env_lookup(whole.skip(i as int), key@),
        decreases env@.len() - i,
    {
        proof {
            assert(whole.skip(i as int)[0] == whole[i as int]);
            assert(whole.skip(i as int).skip(1) =~= whole.skip(i + 1));
        }
        if crate::parsenum::str_eq(env[i].0.as_str(), key) {
            return Some(env[i].1.clone());
        }
        i = i + 1;
    }
    proof {
        assert(whole.skip(whole.len() as int).len() == 0);
    }
    None
}

/// Turns `_` into `-` in a header name spelled as an environment variable.
pub fn hyphenate(s: &str) -> (r: String)
    ensures
        r@ == spec_hyphenate(s@),
{
    let n = s.unicode_len();
    let mut r = String::new();
    let mut i: usize = 0;
    while i < n
        invariant
            0 <= i <= n,
            n == s@.len(),
            r@ == spec_hyphenate(s@).take(i as int),
        decreases n - i,
    {
        if s.get_char(i) == '_' {
            r.append("-");
            proof {
                reveal_strlit("-");
            }
        } else {
            let piece = s.substring_char(i, i + 1);
            r.append(piece);
        }
        proof {
            assert(spec_hyphenate(s@).take(i + 1).drop_last() =~= spec_hyphenate(s@).take(i as int));
            assert(r@ =~= spec_hyphenate(s@).take(i + 1));
        }
        i = i + 1;
    }
    proof {
        assert(spec_hyphenate(s@).take(n as int) =~= spec_hyphenate(s@));
    }
    r
}

impl Config {
    /// Builds the configuration from a snapshot of the process environment,
    /// handed over as key/value pairs.
    pub fn new(env: Vec<(String, String)>) -> (r: Config)
        ensures
            r.timeout_secs == spec_timeout_secs(env_view(env@)),
            r.compress_min_length == spec_compress_min_length(env_view(env@)),
            r.index_file@ == spec_index_file(env_view(env@)),
            r.autoindex == spec_flag(env_view(env@), "STATIC_AUTOINDEX"@),
            r.listen_addr@ == spec_listen_addr(env_view(env@)),
            r.cache_control@ == spec_cache_control(env_view(env@)),
            r.fallback_index_404 == spec_flag(env_view(env@), "STATIC_FALLBACK_INDEX_404"@),
            r.fallback_html_404 == spec_flag(env_view(env@), "STATIC_FALLBACK_HTML_404"@),
            crate::substitute::rules_view(r.html_replaces@) == spec_html_replaces(env_view(env@)),
            crate::strutil::headers_view(r.response_headers@) == spec_response_headers(
                env_view(env@),
            ),
            r.cache_size == spec_cache_size(env_view(env@)),
            r.cache_ttl_secs == spec_cache_ttl_secs(env_view(env@)),
    {
        let ghost ev = env_view(env@);
        let mut html_replaces: Vec<(Vec<u8>, Vec<u8>)> = Vec::new();
        let mut response_headers: Vec<(String, String)> = Vec::new();
        let replace_plen = REPLACE_PREFIX.unicode_len();
        let header_plen = HEADER_PREFIX.unicode_len();
        let mut i: usize = 0;
        while i < env.len()
            invariant
                0 <= i <= env@.len(),
                ev == env_view(env@),
                replace_plen == REPLACE_PREFIX@.len(),
                header_plen == HEADER_PREFIX@.len(),
                crate::substitute::rules_view(html_replaces@) == spec_html_replaces(
                    ev.take(i as int),
                ),
                crate::strutil::headers_view(response_headers@) == spec_response_headers(
                    ev.take(i as int),
                ),
            decreases env@.len() - i,
        {
            proof {
                assert(ev.take(i + 1).drop_last() =~= ev.take(i as int));
                assert(ev.take(i + 1).last() == ev[i as int]);
            }
            let key = &env[i].0;
            let value = &env[i].1;
            let klen = key.as_str().unicode_len();
            if starts_with_prefix(key.as_str(), REPLACE_PREFIX) {
                let stripped = key.as_str().substring_char(replace_plen, klen);
                html_replaces.push((stripped.as_bytes_vec(), value.as_str().as_bytes_vec()));
                proof {
                    assert(!is_prefix(ev[i as int].0, HEADER_PREFIX@)) by {
                        reveal_strlit("STATIC_HTML_REPLACE_");
                        reveal_strlit("STATIC_RESPONSE_HEADER_");
                        if is_prefix(ev[i as int].0, HEADER_PREFIX@) {
                            assert(ev[i as int].0.subrange(0, REPLACE_PREFIX@.len() as int)[7]
                                == ev[i as int].0[7]);
                            assert(ev[i as int].0.subrange(0, HEADER_PREFIX@.len() as int)[7]
                                == ev[i as int].0[7]);
                        }
                    }
                    assert(stripped@ =~= ev[i as int].0.skip(REPLACE_PREFIX@.len() as int));
                    assert(crate::substitute::rules_view(html_replaces@) =~= spec_html_replaces(
                        ev.take(i + 1),
                    ));
                }
            } else if starts_with_prefix(key.as_str(), HEADER_PREFIX) {
                let stripped = key.as_str().substring_char(header_plen, klen);
                let name = hyphenate(stripped);
                response_headers.push((name, value.clone()));
                proof {
                    assert(stripped@ =~= ev[i as int].0.skip(HEADER_PREFIX@.len() as int));
                    assert(crate::strutil::headers_view(response_headers@)
                        =~= spec_response_headers(ev.take(i + 1)));
                }
            } else {
                proof {
                    assert(crate::substitute::rules_view(html_replaces@) =~= spec_html_replaces(
                        ev.take(i + 1),
                    ));
                    assert(crate::strutil::headers_view(response_headers@)
                        =~= spec_response_headers(ev.take(i + 1)));
                }
            }
            i = i + 1;
        }
        proof {
            assert(ev.take(env@.len() as int) =~= ev);
        }
        let timeout_secs: u64 = match env_get(&env, "STATIC_TIMEOUT") {
            Some(v) => match parse_duration_secs(&v) {
                Some(n) => n,
                None => 30,
            },
            None => 30,
        };
        let compress_min_length: u16 = match env_get(&env, "STATIC_COMPRESS_MIN_LENGTH") {
            Some(v) => match parse_u16(v.as_str()) {
                Some(n) => n,
                None => 256,
            },
            None => 256,
        };
        let index_file: String = match env_get(&env, "STATIC_INDEX_FILE") {
            Some(v) => v,
            None => "index.html".to_owned(),
        };
        let autoindex: bool = match env_get(&env, "STATIC_AUTOINDEX") {
            Some(v) => match parse_bool(v.as_str()) {
                Some(b) => b,
                None => false,
            },
            None => false,
        };
        let listen_addr: String = match env_get(&env, "STATIC_LISTEN_ADDR") {
            Some(v) => v,
            None => "0.0.0.0:3000".to_owned(),
        };
        let cache_control: String = match env_get(&env, "STATIC_CACHE_CONTROL") {
            Some(v) => v,
            None => "public, max-age=31536000, immutable".to_owned(),
        };
        let fallback_index_404: bool = match env_get(&env, "STATIC_FALLBACK_INDEX_404") {
            Some(v) => match parse_bool(v.as_str()) {
                Some(b) => b,
                None => false,
            },
            None => false,
        };
        let fallback_html_404: bool = match env_get(&env, "STATIC_FALLBACK_HTML_404") {
            Some(v) => match parse_bool(v.as_str()) {
                Some(b) => b,
                None => false,
            },
            None => false,
        };
        let cache_size: usize = match env_get(&env, "STATIC_CACHE_SIZE") {
            Some(v) => match parse_usize(v.as_str()) {
                Some(n) => n,
                None => 1024,
            },
            None => 1024,
        };
        let cache_ttl_secs: u64 = match env_get(&env, "STATIC_CACHE_TTL") {
            Some(v) => match parse_duration_secs(&v) {
                Some(n) => n,
                None => 600,
            },
            None => 600,
        };
        Config {
            timeout_secs,
            compress_min_length,
            index_file,
            autoindex,
            listen_addr,
            cache_control,
            fallback_index_404,
            fallback_html_404,
            html_replaces,
            response_headers,
            cache_size,
            cache_ttl_secs,
        }
    }
}

} // verus!
