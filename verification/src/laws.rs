//! Whole-resolution laws, proved over the resolver's transition relation.
//!
//! A `BackendModel` is an error-free backend: stat, list and read answer
//! from immutable maps, and a missing path answers not-found. `run_from`
//! replays the machine against such a backend until it finishes, which
//! makes chain-level statements — traversal rejection, fallback order, the
//! terminal not-found path — provable facts rather than narrative.

use vstd::prelude::*;
use crate::cache::lookup;
use crate::error::ErrorV;
use crate::metadata::{EntryV, MetaV};
use crate::negotiate::{
    negotiated_headers,
    spec_content_type,
    spec_is_html,
    SMALL_BODY_THRESHOLD,
};
use crate::response::FileInfoView;
use crate::path::{escapes_root, spec_candidates, spec_decoded_path, spec_join_index};
use crate::autoindex::spec_autoindex_page;
use vstd::utf8::encode_utf8;
use crate::substitute::apply_replacements;
use crate::serve::{
    autoindex_headers,
    begin_spec,
    init_spec,
    start_spec,
    step_spec,
    ActionV,
    CacheMap,
    EventV,
    ParamsView,
    PhaseV,
    ResolverView,
};

verus! {

/// An immutable, error-free backend: what each path's stat, read and list
/// would answer.
pub ghost struct BackendModel {
    pub nodes: Map<Seq<char>, MetaV>,
    pub contents: Map<Seq<char>, Seq<u8>>,
    pub listings: Map<Seq<char>, Seq<EntryV>>,
}

/// The event such a backend answers to an action; a path it does not hold
/// answers not-found.
pub open spec fn event_of(m: BackendModel, a: ActionV) -> EventV {
    match a {
        ActionV::Stat(p) => if m.nodes.dom().contains(p) {
            EventV::MetaOk(m.nodes[p])
        } else {
            EventV::Failed(ErrorV::NotFound(p))
        },
        ActionV::List(p) => if m.listings.dom().contains(p) {
            EventV::Listing(m.listings[p])
        } else {
            EventV::Failed(ErrorV::NotFound(p))
        },
        ActionV::Read(p) => if m.contents.dom().contains(p) {
            EventV::Data(m.contents[p])
        } else {
            EventV::Failed(ErrorV::NotFound(p))
        },
        _ => EventV::Failed(ErrorV::Unknown),
    }
}

pub open spec fn is_terminal(a: ActionV) -> bool {
    a is Done || a is Fail
}

pub open spec fn phase_rank(p: PhaseV) -> nat {
    match p {
        PhaseV::AwaitStat => 3nat,
        PhaseV::AwaitIndexStat => 2nat,
        PhaseV::AwaitList => 1nat,
        PhaseV::AwaitRead { .. } => 1nat,
        PhaseV::Finished => 0nat,
    }
}

pub open spec fn state_ok(s: ResolverView) -> bool {
    0 <= s.idx <= s.candidates.len()
}

/// A pending action fits the state it came from: the machine is mid-chain
/// and the action asks for what the phase awaits.
pub open spec fn action_fits(s: ResolverView, a: ActionV) -> bool {
    &&& s.idx < s.candidates.len()
    &&& match (s.phase, a) {
        (PhaseV::AwaitStat, ActionV::Stat(_)) => true,
        (PhaseV::AwaitIndexStat, ActionV::Stat(_)) => true,
        (PhaseV::AwaitList, ActionV::List(_)) => true,
        (PhaseV::AwaitRead { .. }, ActionV::Read(_)) => true,
        _ => false,
    }
}

pub open spec fn measure(s: ResolverView) -> nat {
    if 0 <= s.idx <= s.candidates.len() {
        ((s.candidates.len() - s.idx) * 4 + phase_rank(s.phase)) as nat
    } else {
        0
    }
}

/// Replays the machine against the backend until it finishes.
pub open spec fn run_from(
    m: BackendModel,
    s: ResolverView,
    a: ActionV,
    cache: CacheMap,
    now: u64,
) -> ActionV
    decreases measure(s),
    when state_ok(s) && (is_terminal(a) || action_fits(s, a))
    via run_from_decreases
{
    if is_terminal(a) {
        a
    } else {
        let (s2, a2) = step_spec(s, event_of(m, a), cache, now);
        run_from(m, s2, a2, cache, now)
    }
}

/// Every non-terminal transition keeps the state sound and strictly shrinks
/// the measure: the chain position never retreats and the phase only moves
/// forward within a candidate.
proof fn lemma_step_progress(m: BackendModel, s: ResolverView, a: ActionV, cache: CacheMap, now: u64)
    requires
        state_ok(s),
        action_fits(s, a),
    ensures
        ({
            let (s2, a2) = step_spec(s, event_of(m, a), cache, now);
            &&& state_ok(s2)
            &&& is_terminal(a2) || action_fits(s2, a2)
            &&& measure(s2) < measure(s)
        }),
{
}

#[via_fn]
proof fn run_from_decreases(m: BackendModel, s: ResolverView, a: ActionV, cache: CacheMap, now: u64) {
    if !is_terminal(a) {
        lemma_step_progress(m, s, a, cache, now);
    }
}

/// The outcome of one whole request against an error-free backend.
pub open spec fn resolve_request(
    m: BackendModel,
    params: ParamsView,
    fallback_html: bool,
    fallback_index: bool,
    cache: CacheMap,
    now: u64,
) -> ActionV {
    let (s0, a0) = start_spec(params, fallback_html, fallback_index, cache, now);
    run_from(m, s0, a0, cache, now)
}

/// The machine resolving exactly one candidate path, from a fresh state.
pub open spec fn candidate_state(p: ParamsView, c: Seq<char>) -> ResolverView {
    ResolverView {
        index: p.index,
        autoindex: p.autoindex,
        cache_control: p.cache_control,
        replaces: p.html_replaces,
        original: c,
        candidates: seq![c],
        idx: 0,
        current: c,
        phase: PhaseV::AwaitStat,
    }
}

/// The outcome of resolving one candidate path directly.
pub open spec fn resolve_candidate(
    m: BackendModel,
    p: ParamsView,
    c: Seq<char>,
    cache: CacheMap,
    now: u64,
) -> ActionV {
    let (t1, a1) = begin_spec(candidate_state(p, c), cache, now);
    run_from(m, t1, a1, cache, now)
}

/// Path-traversal rejection: a request path whose `..` segments would
/// resolve outside the root fails with `InvalidFile` at once — the
/// machine's very first action is terminal, so no backend call is ever
/// requested.
pub proof fn lemma_traversal_rejected(
    m: BackendModel,
    params: ParamsView,
    fallback_html: bool,
    fallback_index: bool,
    cache: CacheMap,
    now: u64,
)
    requires
        escapes_root(spec_decoded_path(params.file)),
    ensures
        start_spec(params, fallback_html, fallback_index, cache, now).1 == ActionV::Fail(
            ErrorV::InvalidFile(spec_decoded_path(params.file)),
        ),
        is_terminal(start_spec(params, fallback_html, fallback_index, cache, now).1),
        resolve_request(m, params, fallback_html, fallback_index, cache, now) == ActionV::Fail(
            ErrorV::InvalidFile(spec_decoded_path(params.file)),
        ),
{
}

/// A running chain whose policy, position and phase agree with a machine
/// standing on its last candidate finishes exactly as that machine does,
/// provided that machine succeeds: until it would have to fall back — which
/// the success rules out — both take identical transitions.
proof fn lemma_run_matches_last_candidate(
    m: BackendModel,
    s: ResolverView,
    t: ResolverView,
    a: ActionV,
    cache: CacheMap,
    now: u64,
)
    requires
        state_ok(s),
        state_ok(t),
        is_terminal(a) || (action_fits(s, a) && action_fits(t, a)),
        t.index == s.index,
        t.autoindex == s.autoindex,
        t.cache_control == s.cache_control,
        t.replaces == s.replaces,
        t.current == s.current,
        t.phase == s.phase,
        t.candidates.len() == t.idx + 1,
        run_from(m, t, a, cache, now) is Done,
    ensures
        run_from(m, s, a, cache, now) == run_from(m, t, a, cache, now),
    decreases measure(t),
{
    if is_terminal(a) {
    } else {
        let ev = event_of(m, a);
        let (s2, a2) = step_spec(s, ev, cache, now);
        let (t2, b2) = step_spec(t, ev, cache, now);
        lemma_step_progress(m, s, a, cache, now);
        lemma_step_progress(m, t, a, cache, now);
        assert(run_from(m, s, a, cache, now) == run_from(m, s2, a2, cache, now));
        assert(run_from(m, t, a, cache, now) == run_from(m, t2, b2, cache, now));
        if is_terminal(b2) {
            assert(run_from(m, t2, b2, cache, now) == b2);
            assert(b2 is Done);
            assert(a2 == b2);
            assert(run_from(m, s2, a2, cache, now) == a2);
        } else {
            assert(a2 == b2);
            assert(t2.current == s2.current && t2.phase == s2.phase);
            assert(t2.candidates.len() == t2.idx + 1);
            lemma_run_matches_last_candidate(m, s2, t2, a2, cache, now);
        }
    }
}

/// Fallback order, success half: with the `.html`-suffix fallback enabled,
/// when the exact path is absent from the backend and not freshly cached
/// and the suffixed candidate resolves successfully on its own, the whole
/// chain returns exactly that direct resolution.
pub proof fn lemma_fallback_order(
    m: BackendModel,
    params: ParamsView,
    fallback_index: bool,
    cache: CacheMap,
    now: u64,
)
    requires
        !escapes_root(spec_decoded_path(params.file)),
        !m.nodes.dom().contains(spec_decoded_path(params.file)),
        lookup(cache, spec_decoded_path(params.file), now) is None,
        resolve_candidate(m, params, spec_decoded_path(params.file) + ".html"@, cache, now)
            is Done,
    ensures
        resolve_request(m, params, true, fallback_index, cache, now) == resolve_candidate(
            m,
            params,
            spec_decoded_path(params.file) + ".html"@,
            cache,
            now,
        ),
{
    let d = spec_decoded_path(params.file);
    let suffixed = d + ".html"@;
    let s0 = init_spec(params, true, fallback_index);
    assert(s0.candidates[0] == d);
    assert(s0.candidates[1] == suffixed);
    let (s1, a1) = begin_spec(s0, cache, now);
    assert(a1 == ActionV::Stat(d));
    assert(resolve_request(m, params, true, fallback_index, cache, now) == run_from(
        m,
        s1,
        a1,
        cache,
        now,
    ));
    let ev1 = event_of(m, a1);
    assert(ev1 == EventV::Failed(ErrorV::NotFound(d)));
    let (s2, a2) = step_spec(s1, ev1, cache, now);
    lemma_step_progress(m, s1, a1, cache, now);
    assert(run_from(m, s1, a1, cache, now) == run_from(m, s2, a2, cache, now));
    let t0 = candidate_state(params, suffixed);
    let (t1, b1) = begin_spec(t0, cache, now);
    assert(resolve_candidate(m, params, suffixed, cache, now) == run_from(m, t1, b1, cache, now));
    match lookup(cache, suffixed, now) {
        Some(hb) => {
            assert(a2 == ActionV::Done(FileInfoView { headers: hb.0, body: hb.1 }));
            assert(b1 == a2);
            assert(run_from(m, s2, a2, cache, now) == a2);
            assert(run_from(m, t1, b1, cache, now) == b1);
        },
        None => {
            assert(a2 == ActionV::Stat(suffixed));
            assert(b1 == ActionV::Stat(suffixed));
            assert(s2.current == suffixed && t1.current == suffixed);
            assert(t1.candidates.len() == t1.idx + 1);
            lemma_run_matches_last_candidate(m, s2, t1, a2, cache, now);
        },
    }
}

/// A chain whose remaining candidates are all absent from the backend and
/// not freshly cached fails with not-found for the original request path.
proof fn lemma_exhaust_run(m: BackendModel, s: ResolverView, cache: CacheMap, now: u64)
    requires
        state_ok(s),
        s.idx < s.candidates.len(),
        s.phase == PhaseV::AwaitStat,
        s.current == s.candidates[s.idx],
        forall|j: int|
            s.idx <= j < s.candidates.len() ==> !m.nodes.dom().contains(#[trigger] s.candidates[j]),
        forall|j: int|
            s.idx <= j < s.candidates.len() ==> lookup(cache, #[trigger] s.candidates[j], now)
                is None,
    ensures
        run_from(m, s, ActionV::Stat(s.current), cache, now) == ActionV::Fail(
            ErrorV::NotFound(s.original),
        ),
    decreases s.candidates.len() - s.idx,
{
    let a = ActionV::Stat(s.current);
    let ev = event_of(m, a);
    assert(ev == EventV::Failed(ErrorV::NotFound(s.current)));
    let (s2, a2) = step_spec(s, ev, cache, now);
    lemma_step_progress(m, s, a, cache, now);
    assert(run_from(m, s, a, cache, now) == run_from(m, s2, a2, cache, now));
    if s.idx + 1 >= s.candidates.len() {
        assert(a2 == ActionV::Fail(ErrorV::NotFound(s.original)));
        assert(run_from(m, s2, a2, cache, now) == a2);
    } else {
        assert(lookup(cache, s.candidates[s.idx + 1], now) is None);
        assert(a2 == ActionV::Stat(s.candidates[s.idx + 1]));
        assert(s2.current == s2.candidates[s2.idx]);
        lemma_exhaust_run(m, s2, cache, now);
        assert(run_from(m, s2, a2, cache, now) == ActionV::Fail(ErrorV::NotFound(s2.original)));
    }
}

/// Fallback order, exhaustion half: when every candidate — the exact path
/// and whatever fallbacks are enabled — is absent from the backend and not
/// freshly cached, the chain's terminal error is not-found for the
/// *original* decoded request path, not for any fallback candidate.
pub proof fn lemma_not_found_names_original(
    m: BackendModel,
    params: ParamsView,
    fallback_html: bool,
    fallback_index: bool,
    cache: CacheMap,
    now: u64,
)
    requires
        !escapes_root(spec_decoded_path(params.file)),
        forall|j: int|
            0 <= j < spec_candidates(
                spec_decoded_path(params.file),
                params.index,
                fallback_html,
                fallback_index,
            ).len() ==> !m.nodes.dom().contains(
                #[trigger] spec_candidates(
                    spec_decoded_path(params.file),
                    params.index,
                    fallback_html,
                    fallback_index,
                )[j],
            ),
        forall|j: int|
            0 <= j < spec_candidates(
                spec_decoded_path(params.file),
                params.index,
                fallback_html,
                fallback_index,
            ).len() ==> lookup(
                cache,
                #[trigger] spec_candidates(
                    spec_decoded_path(params.file),
                    params.index,
                    fallback_html,
                    fallback_index,
                )[j],
                now,
            ) is None,
    ensures
        resolve_request(m, params, fallback_html, fallback_index, cache, now) == ActionV::Fail(
            ErrorV::NotFound(spec_decoded_path(params.file)),
        ),
{
    let d = spec_decoded_path(params.file);
    let s0 = init_spec(params, fallback_html, fallback_index);
    assert(s0.candidates[0] == d);
    assert(lookup(cache, s0.candidates[0], now) is None);
    let (s1, a1) = begin_spec(s0, cache, now);
    assert(a1 == ActionV::Stat(d));
    assert(resolve_request(m, params, fallback_html, fallback_index, cache, now) == run_from(
        m,
        s1,
        a1,
        cache,
        now,
    ));
    assert(s1.current == s1.candidates[s1.idx]);
    lemma_exhaust_run(m, s1, cache, now);
}

/// Content negotiation at the chain level: a candidate naming an existing
/// non-directory object resolves to a response carrying exactly the
/// negotiated headers — the backend-declared content type, or the
/// extension-based guess when the backend declares none — with the object's
/// bytes buffered (and substituted, for HTML) when the body is HTML or
/// below the small-body threshold, and left to be streamed otherwise.
pub proof fn lemma_file_resolution(
    m: BackendModel,
    p: ParamsView,
    c: Seq<char>,
    cache: CacheMap,
    now: u64,
)
    requires
        lookup(cache, c, now) is None,
        m.nodes.dom().contains(c),
        !m.nodes[c].is_dir,
        m.contents.dom().contains(c),
    ensures
        ({
            let meta = m.nodes[c];
            let headers = negotiated_headers(meta, c, p.cache_control);
            let is_html = spec_is_html(spec_content_type(meta, c));
            resolve_candidate(m, p, c, cache, now) == (if is_html || meta.size
                < SMALL_BODY_THRESHOLD {
                ActionV::Done(
                    FileInfoView {
                        headers,
                        body: Some(
                            if is_html {
                                apply_replacements(m.contents[c], p.html_replaces)
                            } else {
                                m.contents[c]
                            },
                        ),
                    },
                )
            } else {
                ActionV::Done(FileInfoView { headers, body: None })
            })
        }),
{
    let meta = m.nodes[c];
    let t0 = candidate_state(p, c);
    let (t1, a1) = begin_spec(t0, cache, now);
    assert(a1 == ActionV::Stat(c));
    assert(resolve_candidate(m, p, c, cache, now) == run_from(m, t1, a1, cache, now));
    let ev1 = event_of(m, a1);
    assert(ev1 == EventV::MetaOk(meta));
    let (t2, a2) = step_spec(t1, ev1, cache, now);
    lemma_step_progress(m, t1, a1, cache, now);
    assert(run_from(m, t1, a1, cache, now) == run_from(m, t2, a2, cache, now));
    let is_html = spec_is_html(spec_content_type(meta, c));
    if is_html || meta.size < SMALL_BODY_THRESHOLD {
        assert(a2 == ActionV::Read(c));
        let ev2 = event_of(m, a2);
        assert(ev2 == EventV::Data(m.contents[c]));
        let (t3, a3) = step_spec(t2, ev2, cache, now);
        lemma_step_progress(m, t2, a2, cache, now);
        assert(run_from(m, t2, a2, cache, now) == run_from(m, t3, a3, cache, now));
        assert(run_from(m, t3, a3, cache, now) == a3);
    } else {
        assert(run_from(m, t2, a2, cache, now) == a2);
    }
}

/// A directory candidate with autoindex enabled resolves to the rendered
/// listing page — HTML with `no-cache` — built from what the backend lists
/// for that directory.
pub proof fn lemma_autoindex_resolution(
    m: BackendModel,
    p: ParamsView,
    c: Seq<char>,
    cache: CacheMap,
    now: u64,
)
    requires
        lookup(cache, c, now) is None,
        m.nodes.dom().contains(c),
        m.nodes[c].is_dir,
        p.autoindex,
        m.listings.dom().contains(c),
    ensures
        resolve_candidate(m, p, c, cache, now) == ActionV::Done(
            FileInfoView {
                headers: autoindex_headers(),
                body: Some(encode_utf8(spec_autoindex_page(m.listings[c]))),
            },
        ),
{
    let t0 = candidate_state(p, c);
    let (t1, a1) = begin_spec(t0, cache, now);
    assert(a1 == ActionV::Stat(c));
    let ev1 = event_of(m, a1);
    let (t2, a2) = step_spec(t1, ev1, cache, now);
    lemma_step_progress(m, t1, a1, cache, now);
    assert(run_from(m, t1, a1, cache, now) == run_from(m, t2, a2, cache, now));
    assert(a2 == ActionV::List(c));
    let ev2 = event_of(m, a2);
    assert(ev2 == EventV::Listing(m.listings[c]));
    let (t3, a3) = step_spec(t2, ev2, cache, now);
    lemma_step_progress(m, t2, a2, cache, now);
    assert(run_from(m, t2, a2, cache, now) == run_from(m, t3, a3, cache, now));
    assert(run_from(m, t3, a3, cache, now) == a3);
}

/// A directory candidate without autoindex but with an index file name
/// re-targets to `dir/index` and resolves that object: the response is
/// negotiated for the re-targeted path, and its body is read when HTML or
/// small.
pub proof fn lemma_index_retarget_resolution(
    m: BackendModel,
    p: ParamsView,
    c: Seq<char>,
    cache: CacheMap,
    now: u64,
)
    requires
        lookup(cache, c, now) is None,
        m.nodes.dom().contains(c),
        m.nodes[c].is_dir,
        !p.autoindex,
        p.index.len() > 0,
        m.nodes.dom().contains(spec_join_index(c, p.index)),
        !m.nodes[spec_join_index(c, p.index)].is_dir,
        m.contents.dom().contains(spec_join_index(c, p.index)),
    ensures
        ({
            let t = spec_join_index(c, p.index);
            let meta = m.nodes[t];
            let headers = negotiated_headers(meta, t, p.cache_control);
            let is_html = spec_is_html(spec_content_type(meta, t));
            resolve_candidate(m, p, c, cache, now) == (if is_html || meta.size
                < SMALL_BODY_THRESHOLD {
                ActionV::Done(
                    FileInfoView {
                        headers,
                        body: Some(
                            if is_html {
                                apply_replacements(m.contents[t], p.html_replaces)
                            } else {
                                m.contents[t]
                            },
                        ),
                    },
                )
            } else {
                ActionV::Done(FileInfoView { headers, body: None })
            })
        }),
{
    let t = spec_join_index(c, p.index);
    let meta = m.nodes[t];
    let t0 = candidate_state(p, c);
    let (t1, a1) = begin_spec(t0, cache, now);
    assert(a1 == ActionV::Stat(c));
    let ev1 = event_of(m, a1);
    let (t2, a2) = step_spec(t1, ev1, cache, now);
    lemma_step_progress(m, t1, a1, cache, now);
    assert(run_from(m, t1, a1, cache, now) == run_from(m, t2, a2, cache, now));
    assert(a2 == ActionV::Stat(t));
    let ev2 = event_of(m, a2);
    assert(ev2 == EventV::MetaOk(meta));
    let (t3, a3) = step_spec(t2, ev2, cache, now);
    lemma_step_progress(m, t2, a2, cache, now);
    assert(run_from(m, t2, a2, cache, now) == run_from(m, t3, a3, cache, now));
    let is_html = spec_is_html(spec_content_type(meta, t));
    if is_html || meta.size < SMALL_BODY_THRESHOLD {
        assert(a3 == ActionV::Read(t));
        let ev3 = event_of(m, a3);
        assert(ev3 == EventV::Data(m.contents[t]));
        let (t4, a4) = step_spec(t3, ev3, cache, now);
        lemma_step_progress(m, t3, a3, cache, now);
        assert(run_from(m, t3, a3, cache, now) == run_from(m, t4, a4, cache, now));
        assert(run_from(m, t4, a4, cache, now) == a4);
    } else {
        assert(run_from(m, t3, a3, cache, now) == a3);
    }
}

/// Replay: a cache state that holds a stored response for a candidate, not
/// yet expired, answers a repeated resolution of that candidate with
/// byte-identical headers and body, before any backend call.
pub proof fn lemma_second_resolution_identical(
    m: BackendModel,
    p: ParamsView,
    c: Seq<char>,
    cache: CacheMap,
    expires_at: u64,
    headers: Seq<(Seq<char>, Seq<char>)>,
    body: Option<Seq<u8>>,
    now: u64,
)
    requires
        cache.contains_pair(c, (expires_at, headers, body)),
        now < expires_at,
    ensures
        resolve_candidate(m, p, c, cache, now) == ActionV::Done(FileInfoView { headers, body }),
{
}

} // verus!
