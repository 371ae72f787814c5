//! Request-path handling: percent-decoding with raw fallback, the lexical
//! path-traversal check, the fallback candidate list, and index-file
//! joining.

use vstd::prelude::*;
use vstd::string::{StrSliceExecFns, StringExecFns};
use crate::strutil::contains_char;

verus! {

/// What `urlencoding::decode` yields for an input, `None` when the decoded
/// bytes are not valid UTF-8.
pub uninterp spec fn percent_decoded(s: Seq<char>) -> Option<Seq<char>>;

/// Relies on `urlencoding::decode`: percent escapes are decoded bytewise,
/// a decode whose bytes are not valid UTF-8 fails, an input without `%` is
/// returned unchanged, and the result depends on the input text alone.
#[verifier::external_body]
fn percent_decode(s: &String) -> (r: Option<String>)
    ensures
        match r {
            Some(d) => percent_decoded(s@) == Some(d@) && (!s@.contains('%') ==> d@ == s@),
            None => percent_decoded(s@) is None && s@.contains('%'),
        },
{
    match urlencoding::decode(s.as_str()) {
        Ok(d) => Some(d.into_owned()),
        Err(_) => None,
    }
}

/// The request path after the single decode pass: the decoded text, or the
/// raw text when decoding fails.
pub open spec fn spec_decoded_path(s: Seq<char>) -> Seq<char> {
    match percent_decoded(s) {
        Some(d) => d,
        None => s,
    }
}

/// Percent-decodes the request path once; a failed decode falls back to the
/// raw, undecoded path instead of failing the request.
pub fn decode_path(file: String) -> (r: String)
    ensures
        r@ == spec_decoded_path(file@),
{
    match percent_decode(&file) {
        Some(d) => d,
        None => file,
    }
}

/// The logical file for a request path: everything after the leading `/`.
pub open spec fn spec_request_file(p: Seq<char>) -> Seq<char> {
    if p.len() == 0 {
        p
    } else {
        p.skip(1)
    }
}

/// Drops the leading slash of a request path.
pub fn request_file(path: &str) -> (r: String)
    ensures
        r@ == spec_request_file(path@),
{
    let n = path.unicode_len();
    if n == 0 {
        path.to_owned()
    } else {
        let rest = path.substring_char(1, n);
        proof {
            assert(rest@ =~= path@.skip(1));
        }
        rest.to_owned()
    }
}

/// One step of the lexical traversal scan. The state is the directory depth
/// so far, the length and dot-count of the segment being read, and whether
/// the path has already escaped the root.
pub open spec fn close_segment(st: (int, nat, nat, bool)) -> (int, nat, nat, bool) {
    let (depth, seg_len, seg_dots, escaped) = st;
    if seg_len == 2 && seg_dots == 2 {
        if depth == 0 {
            (depth, 0nat, 0nat, true)
        } else {
            (depth - 1, 0nat, 0nat, escaped)
        }
    } else if seg_len == 0 || (seg_len == 1 && seg_dots == 1) {
        (depth, 0nat, 0nat, escaped)
    } else {
        (depth + 1, 0nat, 0nat, escaped)
    }
}

pub open spec fn traverse_step(st: (int, nat, nat, bool), c: char) -> (int, nat, nat, bool) {
    if c == '/' {
        close_segment(st)
    } else {
        (st.0, st.1 + 1, st.2 + (if c == '.' {
            1nat
        } else {
            0nat
        }), st.3)
    }
}

pub open spec fn traverse_fold(p: Seq<char>) -> (int, nat, nat, bool)
    decreases p.len(),
{
    if p.len() == 0 {
        (0int, 0nat, 0nat, false)
    } else {
        traverse_step(traverse_fold(p.drop_last()), p.last())
    }
}

/// A path escapes the root when, scanning its `/`-separated segments left
/// to right with `..` stepping up, `.` and empty segments ignored, and any
/// other segment stepping down, the scan ever steps above the root.
pub open spec fn escapes_root(p: Seq<char>) -> bool {
    close_segment(traverse_fold(p)).3
}

/// The lexical path-traversal check: true when `..` segments would resolve
/// outside the storage root.
pub fn path_escapes_root(p: &String) -> (r: bool)
    ensures
        r == escapes_root(p@),
{
    let n = p.as_str().unicode_len();
    let mut depth: usize = 0;
    let mut seg_len: usize = 0;
    let mut seg_dots: usize = 0;
    let mut escaped: bool = false;
    let mut i: usize = 0;
    while i < n
        invariant
            0 <= i <= n,
            n == p@.len(),
            depth <= i,
            seg_len <= i,
            seg_dots <= seg_len,
            traverse_fold(p@.take(i as int)) == (depth as int, seg_len as nat, seg_dots as nat, escaped),
        decreases n - i,
    {
        let c = p.as_str().get_char(i);
        proof {
            assert(p@.take(i + 1).drop_last() =~= p@.take(i as int));
            assert(p@.take(i + 1).last() == p@[i as int]);
        }
        if c == '/' {
            if seg_len == 2 && seg_dots == 2 {
                if depth == 0 {
                    escaped = true;
                } else {
                    depth = depth - 1;
                }
            } else if seg_len == 0 || (seg_len == 1 && seg_dots == 1) {
            } else {
                depth = depth + 1;
            }
            seg_len = 0;
            seg_dots = 0;
        } else {
            seg_len = seg_len + 1;
            if c == '.' {
                seg_dots = seg_dots + 1;
            }
        }
        i = i + 1;
    }
    proof {
        assert(p@.take(n as int) =~= p@);
    }
    if seg_len == 2 && seg_dots == 2 {
        if depth == 0 {
            escaped = true;
        }
    }
    escaped
}

/// The view of a list of owned strings.
pub open spec fn strings_view(v: Seq<String>) -> Seq<Seq<char>> {
    v.map_values(|s: String| s@)
}

/// The ordered fallback candidates for a logical file: the exact path, then
/// the `.html`-suffixed path when that fallback is enabled, then the index
/// file when that fallback is enabled.
pub open spec fn spec_candidates(
    file: Seq<char>,
    index: Seq<char>,
    fallback_html: bool,
    fallback_index: bool,
) -> Seq<Seq<char>> {
    seq![file] + (if fallback_html {
        seq![file + ".html"@]
    } else {
        Seq::empty()
    }) + (if fallback_index {
        seq![index]
    } else {
        Seq::empty()
    })
}

/// Builds the candidate list tried in order by the resolver.
pub fn build_candidates(file: &String, index: &String, fallback_html: bool, fallback_index: bool)
    -> (r: Vec<String>)
    ensures
        strings_view(r@) == spec_candidates(file@, index@, fallback_html, fallback_index),
{
    let mut r: Vec<String> = Vec::new();
    r.push(file.clone());
    if fallback_html {
        r.push(file.clone().concat(".html"));
    }
    if fallback_index {
        r.push(index.clone());
    }
    proof {
        assert(strings_view(r@) =~= spec_candidates(file@, index@, fallback_html, fallback_index));
    }
    r
}

/// The re-targeted candidate for a directory: the directory path joined
/// with the index file name, inserting a `/` unless one is already there.
pub open spec fn spec_join_index(file: Seq<char>, index: Seq<char>) -> Seq<char> {
    if file.len() > 0 && file.last() == '/' {
        file + index
    } else {
        file + "/"@ + index
    }
}

/// Joins a directory candidate with the index file name.
pub fn join_index(file: &String, index: &String) -> (r: String)
    ensures
        r@ == spec_join_index(file@, index@),
{
    let mut r = file.clone();
    if !crate::strutil::ends_with_slash(file.as_str()) {
        r.append("/");
    }
    r.append(index.as_str());
    r
}

} // verus!
