//! Content negotiation: deriving the response header set from backend
//! metadata and policy.
//!
//! The derived headers are, in order: `cache-control`, `content-type`,
//! `content-encoding` (only when the backend reports one), and `etag` (the
//! backend's value, or a weak ETag synthesized from size and modification
//! time).

use vstd::prelude::*;
use vstd::string::StringExecFns;
use crate::metadata::{MetaV, StorageMetadata};
use crate::strutil::{contains_sub, has_substring, headers_view};
use crate::textnum::{hex_of, u64_to_hex};

verus! {

/// Bodies below this size are read whole and eligible for caching; larger
/// non-HTML bodies are streamed.
pub const SMALL_BODY_THRESHOLD: u64 = 30 * 1024;

/// What `mime_guess` returns for a path.
pub uninterp spec fn guessed_mime(path: Seq<char>) -> Seq<char>;

/// Relies on `mime_guess::from_path`: the MIME type guessed from the path's
/// extension, with `application/octet-stream` when nothing matches; the
/// result is a function of the path text alone.
#[verifier::external_body]
fn mime_guess_path(path: &String) -> (r: String)
    ensures
        r@ == guessed_mime(path@),
{
    mime_guess::from_path(path.as_str()).first_or_octet_stream().to_string()
}

/// The negotiated content type: the backend-declared one, or the
/// extension-based guess when the backend declares none.
pub open spec fn spec_content_type(meta: MetaV, file: Seq<char>) -> Seq<char> {
    match meta.content_type {
        Some(ct) => ct,
        None => guessed_mime(file),
    }
}

/// A body is classified HTML when its content type mentions `text/html`.
pub open spec fn spec_is_html(ct: Seq<char>) -> bool {
    has_substring(ct, "text/html"@)
}

/// The negotiated cache-control value: `no-cache` for HTML, else the
/// backend's value, else the policy default.
pub open spec fn spec_cache_control(meta: MetaV, is_html: bool, default_cc: Seq<char>) -> Seq<
    char,
> {
    if is_html {
        "no-cache"@
    } else {
        match meta.cache_control {
            Some(cc) => cc,
            None => default_cc,
        }
    }
}

/// The synthesized weak ETag: `W/"{size:x}-{ts:x}"`.
pub open spec fn weak_etag(size: u64, ts: i64) -> Seq<char> {
    "W/\""@ + hex_of(size as nat) + "-"@ + hex_of(ts as nat) + "\""@
}

/// The negotiated ETag: the backend's, else a weak one synthesized from size
/// and a positive modification time, else none.
pub open spec fn spec_etag(meta: MetaV) -> Option<Seq<char>> {
    match meta.etag {
        Some(e) => Some(e),
        None => match meta.last_modified {
            Some(ts) => if ts > 0 {
                Some(weak_etag(meta.size, ts))
            } else {
                None
            },
            None => None,
        },
    }
}

/// The full negotiated header list for a non-directory object, in emission
/// order.
pub open spec fn negotiated_headers(meta: MetaV, file: Seq<char>, default_cc: Seq<char>) -> Seq<
    (Seq<char>, Seq<char>),
> {
    let ct = spec_content_type(meta, file);
    let with_ct = seq![("cache-control"@, spec_cache_control(meta, spec_is_html(ct), default_cc))]
        + seq![("content-type"@, ct)];
    let with_ce = match meta.content_encoding {
        Some(ce) => with_ct + seq![("content-encoding"@, ce)],
        None => with_ct,
    };
    match spec_etag(meta) {
        Some(e) => with_ce + seq![("etag"@, e)],
        None => with_ce,
    }
}

/// Derives the header set and the HTML classification for a non-directory
/// object at `file`.
pub fn negotiate(meta: &StorageMetadata, file: &String, default_cc: &String) -> (r: (
    Vec<(String, String)>,
    bool,
))
    ensures
        headers_view(r.0@) == negotiated_headers(meta@, file@, default_cc@),
        r.1 == spec_is_html(spec_content_type(meta@, file@)),
{
    let ct: String = match &meta.content_type {
        Some(c) => c.clone(),
        None => mime_guess_path(file),
    };
    let is_html = contains_sub(ct.as_str(), "text/html");
    let mut headers: Vec<(String, String)> = Vec::new();
    let cc: String = if is_html {
        "no-cache".to_owned()
    } else {
        match &meta.cache_control {
            Some(c) => c.clone(),
            None => default_cc.clone(),
        }
    };
    headers.push(("cache-control".to_owned(), cc));
    headers.push(("content-type".to_owned(), ct));
    if let Some(ce) = &meta.content_encoding {
        headers.push(("content-encoding".to_owned(), ce.clone()));
    }
    match &meta.etag {
        Some(e) => {
            headers.push(("etag".to_owned(), e.clone()));
        },
        None => {
            if let Some(ts) = meta.last_modified {
                if ts > 0 {
                    let mut etag = "W/\"".to_owned();
                    etag.append(u64_to_hex(meta.size).as_str());
                    etag.append("-");
                    etag.append(u64_to_hex(ts as u64).as_str());
                    etag.append("\"");
                    proof {
                        assert(etag@ =~= weak_etag(meta.size, ts));
                    }
                    headers.push(("etag".to_owned(), etag));
                }
            }
        },
    }
    proof {
        assert(headers_view(headers@) =~= negotiated_headers(meta@, file@, default_cc@));
    }
    (headers, is_html)
}

/// Whether a body of the given classification and size is read whole into
/// memory (HTML always is; other bodies only below the threshold).
pub fn should_buffer(is_html: bool, size: u64) -> (r: bool)
    ensures
        r == (is_html || size < SMALL_BODY_THRESHOLD),
{
    is_html || size < SMALL_BODY_THRESHOLD
}

/// For every path that resolves to an existing non-directory object, the
/// negotiated `content-type` header carries the backend-declared type, and
/// falls back to the extension-based guess exactly when the backend declares
/// none.
pub proof fn lemma_content_type_follows_backend(meta: MetaV, file: Seq<char>, default_cc: Seq<char>)
    ensures
        negotiated_headers(meta, file, default_cc)[1] == (
            "content-type"@,
            match meta.content_type {
                Some(ct) => ct,
                None => guessed_mime(file),
            },
        ),
{
}

} // verus!
