//! Choosing and configuring the storage backend from the configured path.
//!
//! The scheme selects the backend kind; host and port become the endpoint;
//! the URL path becomes the backend root; query parameters carry
//! backend-specific options. Constructing the actual backend client is the
//! embedding program's job; everything decided here is plain values.

use vstd::prelude::*;
use vstd::string::StringExecFns;
use crate::error::Error;
use crate::strutil::{headers_view, is_prefix, starts_with_prefix};
use crate::textnum::{dec_of, u64_to_dec};

verus! {

/// The closed set of backend kinds, selected once at startup.
#[derive(PartialEq, Eq, Structural, Clone, Copy, Debug)]
pub enum BackendKind {
    S3,
    Ftp,
    Gridfs,
    Fs,
}

/// The backend kind for a configured path: `http(s)://` serves from an
/// object store, `ftp://` from FTP, `mongodb://` from a document-store
/// file collection, anything else from the local filesystem.
pub open spec fn spec_select_backend(u: Seq<char>) -> BackendKind {
    if is_prefix(u, "https://"@) || is_prefix(u, "http://"@) {
        BackendKind::S3
    } else if is_prefix(u, "ftp://"@) {
        BackendKind::Ftp
    } else if is_prefix(u, "mongodb://"@) {
        BackendKind::Gridfs
    } else {
        BackendKind::Fs
    }
}

/// Selects the backend kind from the configured path.
pub fn select_backend(url: &String) -> (r: BackendKind)
    ensures
        r == spec_select_backend(url@),
{
    if starts_with_prefix(url.as_str(), "https://") || starts_with_prefix(url.as_str(), "http://") {
        BackendKind::S3
    } else if starts_with_prefix(url.as_str(), "ftp://") {
        BackendKind::Ftp
    } else if starts_with_prefix(url.as_str(), "mongodb://") {
        BackendKind::Gridfs
    } else {
        BackendKind::Fs
    }
}

/// Whether `url::Url::parse` accepts an input.
pub uninterp spec fn url_parses(s: Seq<char>) -> bool;

/// The scheme of the parsed URL.
pub uninterp spec fn url_scheme(s: Seq<char>) -> Seq<char>;

/// The host of the parsed URL, empty when it has none.
pub uninterp spec fn url_host(s: Seq<char>) -> Seq<char>;

/// The explicit port of the parsed URL.
pub uninterp spec fn url_port(s: Seq<char>) -> Option<u16>;

/// The username of the parsed URL, empty when it has none.
pub uninterp spec fn url_username(s: Seq<char>) -> Seq<char>;

/// The password of the parsed URL.
pub uninterp spec fn url_password(s: Seq<char>) -> Option<Seq<char>>;

/// The path of the parsed URL.
pub uninterp spec fn url_path(s: Seq<char>) -> Seq<char>;

/// The decoded query pairs of the parsed URL, in order.
pub uninterp spec fn url_query_pairs(s: Seq<char>) -> Seq<(Seq<char>, Seq<char>)>;

/// The components of a parsed URL, as plain values.
pub struct RawUrlParts {
    pub scheme: String,
    pub host: String,
    pub port: Option<u16>,
    pub username: String,
    pub password: Option<String>,
    pub path: String,
    pub query: Vec<(String, String)>,
}

/// Relies on `url::Url::parse` and the accessors `scheme`, `host`, `port`,
/// `username`, `password`, `path` and `query_pairs` of the parsed URL: each
/// component is a function of the input text alone; a missing host reads as
/// empty.
#[verifier::external_body]
fn parse_url_parts(s: &String) -> (r: Option<RawUrlParts>)
    ensures
        match r {
            Some(p) => url_parses(s@) && p.scheme@ == url_scheme(s@) && p.host@ == url_host(s@)
                && p.port == url_port(s@) && p.username@ == url_username(s@) && (match p.password {
                Some(pw) => url_password(s@) == Some(pw@),
                None => url_password(s@) is None,
            }) && p.path@ == url_path(s@) && headers_view(p.query@) == url_query_pairs(s@),
            None => !url_parses(s@),
        },
{
    let u = url::Url::parse(s.as_str()).ok()?;
    Some(RawUrlParts {
        scheme: u.scheme().to_string(),
        host: u.host().map(|h| h.to_string()).unwrap_or_default(),
        port: u.port(),
        username: u.username().to_string(),
        password: u.password().map(|p| p.to_string()),
        path: u.path().to_string(),
        query: u.query_pairs().map(|(k, v)| (k.to_string(), v.to_string())).collect(),
    })
}

/// The connection parameters read from a storage URL.
pub struct StorageParams {
    pub user: String,
    pub password: Option<String>,
    pub endpoint: String,
    pub path: String,
    pub query: Vec<(String, String)>,
}

/// The endpoint assembled from a URL: `scheme://host`, with `:port` when a
/// port is given.
pub open spec fn spec_endpoint(s: Seq<char>) -> Seq<char> {
    let base = url_scheme(s) + "://"@ + url_host(s);
    match url_port(s) {
        Some(p) => base + ":"@ + dec_of(p as nat),
        None => base,
    }
}

/// Reads the connection parameters from a storage URL; a URL the parser
/// rejects fails with `ParseUrl` naming the offending text.
pub fn parse_params(url: &String) -> (r: Result<StorageParams, Error>)
    ensures
        match r {
            Ok(p) => url_parses(url@) && p.endpoint@ == spec_endpoint(url@) && p.user@
                == url_username(url@) && (match p.password {
                Some(pw) => url_password(url@) == Some(pw@),
                None => url_password(url@) is None,
            }) && p.path@ == url_path(url@) && headers_view(p.query@) == url_query_pairs(url@),
            Err(e) => !url_parses(url@) && (e matches Error::ParseUrl { message } && message@
                == url@),
        },
{
    match parse_url_parts(url) {
        Some(parts) => {
            let mut endpoint = parts.scheme;
            endpoint.append("://");
            endpoint.append(parts.host.as_str());
            if let Some(port) = parts.port {
                endpoint.append(":");
                endpoint.append(u64_to_dec(port as u64).as_str());
            }
            proof {
                assert(endpoint@ =~= spec_endpoint(url@));
            }
            Ok(
                StorageParams {
                    user: parts.username,
                    password: parts.password,
                    endpoint,
                    path: parts.path,
                    query: parts.query,
                },
            )
        },
        None => Err(Error::ParseUrl { message: url.clone() }),
    }
}

/// The value of the last query pair with the given key, as a map built by
/// later-wins insertion would hold it.
pub open spec fn query_lookup(q: Seq<(Seq<char>, Seq<char>)>, key: Seq<char>) -> Option<Seq<char>>
    decreases q.len(),
{
    if q.len() == 0 {
        None
    } else if q.last().0 == key {
        Some(q.last().1)
    } else {
        query_lookup(q.drop_last(), key)
    }
}

/// Looks up a query parameter, later duplicates winning.
pub fn query_get(q: &Vec<(String, String)>, key: &str) -> (r: Option<String>)
    ensures
        match r {
            Some(v) => query_lookup(headers_view(q@), key@) == Some(v@),
            None => query_lookup(headers_view(q@), key@) is None,
        },
{
    let ghost qv = headers_view(q@);
    let mut found: Option<String> = None;
    let mut i: usize = 0;
    proof {
        assert(qv.take(0).len() == 0);
    }
    while i < q.len()
        invariant
            0 <= i <= q@.len(),
            qv == headers_view(q@),
            match found {
                Some(v) => query_lookup(qv.take(i as int), key@) == Some(v@),
                None => query_lookup(qv.take(i as int), key@) is None,
            },
        decreases q@.len() - i,
    {
        proof {
            assert(qv.take(i + 1).drop_last() =~= qv.take(i as int));
            assert(qv.take(i + 1).last() == qv[i as int]);
        }
        if crate::parsenum::str_eq(q[i].0.as_str(), key) {
            found = Some(q[i].1.clone());
        }
        i = i + 1;
    }
    proof {
        assert(qv.take(q@.len() as int) =~= qv);
    }
    found
}

/// The options an object-store backend is built with: the endpoint, the URL
/// path as root when non-empty, and `bucket`, `region`, `access_key_id` and
/// `secret_access_key` from the query.
pub struct S3Options {
    pub endpoint: String,
    pub root: Option<String>,
    pub bucket: Option<String>,
    pub region: Option<String>,
    pub access_key_id: Option<String>,
    pub secret_access_key: Option<String>,
}

fn opt_view(o: &Option<String>) -> (r: Option<String>)
    ensures
        match r {
            Some(v) => o matches Some(ov) && ov@ == v@,
            None => o is None,
        },
{
    match o {
        Some(v) => Some(v.clone()),
        None => None,
    }
}

impl S3Options {
    /// Derives the object-store options from the parsed storage parameters.
    pub fn from_params(p: &StorageParams) -> (r: S3Options)
        ensures
            r.endpoint@ == p.endpoint@,
            match r.root {
                Some(v) => p.path@.len() > 0 && v@ == p.path@,
                None => p.path@.len() == 0,
            },
            match r.bucket {
                Some(v) => query_lookup(headers_view(p.query@), "bucket"@) == Some(v@),
                None => query_lookup(headers_view(p.query@), "bucket"@) is None,
            },
            match r.region {
                Some(v) => query_lookup(headers_view(p.query@), "region"@) == Some(v@),
                None => query_lookup(headers_view(p.query@), "region"@) is None,
            },
            match r.access_key_id {
                Some(v) => query_lookup(headers_view(p.query@), "access_key_id"@) == Some(v@),
                None => query_lookup(headers_view(p.query@), "access_key_id"@) is None,
            },
            match r.secret_access_key {
                Some(v) => query_lookup(headers_view(p.query@), "secret_access_key"@) == Some(v@),
                None => query_lookup(headers_view(p.query@), "secret_access_key"@) is None,
            },
    {
        let root = if p.path.as_str().unicode_len() > 0 {
            Some(p.path.clone())
        } else {
            None
        };
        S3Options {
            endpoint: p.endpoint.clone(),
            root,
            bucket: query_get(&p.query, "bucket"),
            region: query_get(&p.query, "region"),
            access_key_id: query_get(&p.query, "access_key_id"),
            secret_access_key: query_get(&p.query, "secret_access_key"),
        }
    }
}

/// The options an FTP backend is built with: the endpoint, the URL path as
/// root when non-empty, and the URL's user and password when given.
pub struct FtpOptions {
    pub endpoint: String,
    pub root: Option<String>,
    pub user: Option<String>,
    pub password: Option<String>,
}

impl FtpOptions {
    /// Derives the FTP options from the parsed storage parameters.
    pub fn from_params(p: &StorageParams) -> (r: FtpOptions)
        ensures
            r.endpoint@ == p.endpoint@,
            match r.root {
                Some(v) => p.path@.len() > 0 && v@ == p.path@,
                None => p.path@.len() == 0,
            },
            match r.user {
                Some(v) => p.user@.len() > 0 && v@ == p.user@,
                None => p.user@.len() == 0,
            },
            match r.password {
                Some(v) => p.password matches Some(pw) && pw@ == v@,
                None => p.password is None,
            },
    {
        let root = if p.path.as_str().unicode_len() > 0 {
            Some(p.path.clone())
        } else {
            None
        };
        let user = if p.user.as_str().unicode_len() > 0 {
            Some(p.user.clone())
        } else {
            None
        };
        FtpOptions { endpoint: p.endpoint.clone(), root, user, password: opt_view(&p.password) }
    }
}

} // verus!
