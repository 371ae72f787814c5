//! The content resolver: the fallback-chain state machine that turns a
//! logical request path into a response.
//!
//! The resolver never performs backend I/O itself. It hands the embedding
//! program an `Action` (stat, list or read a path, or finish), receives the
//! outcome back as an `Event`, and consults and fills the response cache as
//! it goes. One candidate path is tried after another: the exact path, the
//! `.html`-suffixed path, then the index file, the first success winning;
//! a not-found moves to the next candidate, any other failure aborts, and
//! an exhausted chain reports not-found for the originally requested path.

use vstd::prelude::*;
use crate::autoindex::{render_autoindex, spec_autoindex_page};
use crate::cache::{headers_declare_html, lookup, ResponseCache};
use crate::error::{errv_is_not_found, Error, ErrorV};
use crate::metadata::{entries_view, EntryV, MetaV, StorageEntry, StorageMetadata};
use crate::negotiate::{
    negotiate,
    negotiated_headers,
    spec_content_type,
    spec_is_html,
    SMALL_BODY_THRESHOLD,
};
use crate::path::{
    build_candidates,
    decode_path,
    escapes_root,
    join_index,
    path_escapes_root,
    spec_candidates,
    spec_decoded_path,
    spec_join_index,
    strings_view,
};
use crate::response::{FileInfo, FileInfoView};
use crate::strutil::headers_view;
use crate::substitute::{apply_html_replaces, apply_replacements, rules_view};
use vstd::utf8::encode_utf8;
use vstd::string::StrSliceExecFns;

verus! {

/// The per-request policy: the requested logical file and the serving
/// options derived from configuration.
#[derive(Clone, Default)]
pub struct StaticServeParams {
    pub file: String,
    pub index: String,
    pub autoindex: bool,
    pub cache_control: String,
    pub html_replaces: Vec<(Vec<u8>, Vec<u8>)>,
}

/// The mathematical shape of the per-request policy.
pub ghost struct ParamsView {
    pub file: Seq<char>,
    pub index: Seq<char>,
    pub autoindex: bool,
    pub cache_control: Seq<char>,
    pub html_replaces: Seq<(Seq<u8>, Seq<u8>)>,
}

impl View for StaticServeParams {
    type V = ParamsView;

    open spec fn view(&self) -> ParamsView {
        ParamsView {
            file: self.file@,
            index: self.index@,
            autoindex: self.autoindex,
            cache_control: self.cache_control@,
            html_replaces: rules_view(self.html_replaces@),
        }
    }
}

/// What the embedding program reports back for one backend call.
pub enum Event {
    MetaOk(StorageMetadata),
    Listing(Vec<StorageEntry>),
    Data(Vec<u8>),
    Failed(Error),
}

/// The mathematical shape of an event.
pub ghost enum EventV {
    MetaOk(MetaV),
    Listing(Seq<EntryV>),
    Data(Seq<u8>),
    Failed(ErrorV),
}

impl View for Event {
    type V = EventV;

    open spec fn view(&self) -> EventV {
        match self {
            Event::MetaOk(m) => EventV::MetaOk(m@),
            Event::Listing(es) => EventV::Listing(entries_view(es@)),
            Event::Data(b) => EventV::Data(b@),
            Event::Failed(e) => EventV::Failed(e@),
        }
    }
}

/// What the resolver asks for next, or how it finished.
pub enum Action {
    Stat(String),
    List(String),
    Read(String),
    Done(FileInfo),
    Fail(Error),
}

/// The mathematical shape of an action.
pub ghost enum ActionV {
    Stat(Seq<char>),
    List(Seq<char>),
    Read(Seq<char>),
    Done(FileInfoView),
    Fail(ErrorV),
}

impl View for Action {
    type V = ActionV;

    open spec fn view(&self) -> ActionV {
        match self {
            Action::Stat(p) => ActionV::Stat(p@),
            Action::List(p) => ActionV::List(p@),
            Action::Read(p) => ActionV::Read(p@),
            Action::Done(info) => ActionV::Done(info@),
            Action::Fail(e) => ActionV::Fail(e@),
        }
    }
}

pub enum Phase {
    AwaitStat,
    AwaitIndexStat,
    AwaitList,
    AwaitRead { headers: Vec<(String, String)>, is_html: bool },
    Finished,
}

/// The mathematical shape of the resolver's phase.
pub ghost enum PhaseV {
    AwaitStat,
    AwaitIndexStat,
    AwaitList,
    AwaitRead { headers: Seq<(Seq<char>, Seq<char>)>, is_html: bool },
    Finished,
}

impl View for Phase {
    type V = PhaseV;

    open spec fn view(&self) -> PhaseV {
        match self {
            Phase::AwaitStat => PhaseV::AwaitStat,
            Phase::AwaitIndexStat => PhaseV::AwaitIndexStat,
            Phase::AwaitList => PhaseV::AwaitList,
            Phase::AwaitRead { headers, is_html } => PhaseV::AwaitRead {
                headers: headers_view(headers@),
                is_html: *is_html,
            },
            Phase::Finished => PhaseV::Finished,
        }
    }
}

/// The full mathematical state of one resolution.
pub ghost struct ResolverView {
    pub index: Seq<char>,
    pub autoindex: bool,
    pub cache_control: Seq<char>,
    pub replaces: Seq<(Seq<u8>, Seq<u8>)>,
    pub original: Seq<char>,
    pub candidates: Seq<Seq<char>>,
    pub idx: int,
    pub current: Seq<char>,
    pub phase: PhaseV,
}

/// One in-flight resolution.
pub struct Resolver {
    index: String,
    autoindex: bool,
    cache_control: String,
    html_replaces: Vec<(Vec<u8>, Vec<u8>)>,
    original: String,
    candidates: Vec<String>,
    idx: usize,
    current: String,
    phase: Phase,
}

impl View for Resolver {
    type V = ResolverView;

    closed spec fn view(&self) -> ResolverView {
        ResolverView {
            index: self.index@,
            autoindex: self.autoindex,
            cache_control: self.cache_control@,
            replaces: rules_view(self.html_replaces@),
            original: self.original@,
            candidates: strings_view(self.candidates@),
            idx: self.idx as int,
            current: self.current@,
            phase: self.phase@,
        }
    }
}

/// The cache state as the machine reads it.
pub type CacheMap = Map<Seq<char>, (u64, Seq<(Seq<char>, Seq<char>)>, Option<Seq<u8>>)>;

/// The headers of an autoindex page: HTML that must not be cached.
pub open spec fn autoindex_headers() -> Seq<(Seq<char>, Seq<char>)> {
    seq![("content-type"@, "text/html"@), ("cache-control"@, "no-cache"@)]
}

pub open spec fn with_phase(s: ResolverView, p: PhaseV) -> ResolverView {
    ResolverView { phase: p, ..s }
}

/// Entering the candidate at `s.idx`: an exhausted chain fails with
/// not-found for the original path; a fresh cached response is returned
/// outright; otherwise the backend is asked to stat the candidate.
pub open spec fn begin_spec(s: ResolverView, cache: CacheMap, now: u64) -> (ResolverView, ActionV) {
    if s.idx >= s.candidates.len() {
        (with_phase(s, PhaseV::Finished), ActionV::Fail(ErrorV::NotFound(s.original)))
    } else {
        let cand = s.candidates[s.idx];
        match lookup(cache, cand, now) {
            Some(hb) => (
                ResolverView { current: cand, phase: PhaseV::Finished, ..s },
                ActionV::Done(FileInfoView { headers: hb.0, body: hb.1 }),
            ),
            None => (
                ResolverView { current: cand, phase: PhaseV::AwaitStat, ..s },
                ActionV::Stat(cand),
            ),
        }
    }
}

pub open spec fn advance_spec(s: ResolverView, cache: CacheMap, now: u64) -> (
    ResolverView,
    ActionV,
) {
    begin_spec(ResolverView { idx: s.idx + 1, ..s }, cache, now)
}

/// Negotiating a non-directory object: buffered bodies are read next,
/// larger non-HTML bodies finish at once and are streamed by the caller.
pub open spec fn negotiate_spec(s: ResolverView, meta: MetaV) -> (ResolverView, ActionV) {
    let ct = spec_content_type(meta, s.current);
    let is_html = spec_is_html(ct);
    let headers = negotiated_headers(meta, s.current, s.cache_control);
    if is_html || meta.size < SMALL_BODY_THRESHOLD {
        (
            ResolverView { phase: PhaseV::AwaitRead { headers, is_html }, ..s },
            ActionV::Read(s.current),
        )
    } else {
        (with_phase(s, PhaseV::Finished), ActionV::Done(FileInfoView { headers, body: None }))
    }
}

/// A backend failure: a not-found moves to the next candidate, anything
/// else aborts the chain with that error.
pub open spec fn fail_or_advance_spec(s: ResolverView, e: ErrorV, cache: CacheMap, now: u64) -> (
    ResolverView,
    ActionV,
) {
    if errv_is_not_found(e) {
        advance_spec(s, cache, now)
    } else {
        (with_phase(s, PhaseV::Finished), ActionV::Fail(e))
    }
}

/// Which events answer which phase.
pub open spec fn event_matches(phase: PhaseV, ev: EventV) -> bool {
    match phase {
        PhaseV::AwaitStat => ev is MetaOk || ev is Failed,
        PhaseV::AwaitIndexStat => ev is MetaOk || ev is Failed,
        PhaseV::AwaitList => ev is Listing || ev is Failed,
        PhaseV::AwaitRead { .. } => ev is Data || ev is Failed,
        PhaseV::Finished => false,
    }
}

/// The complete transition relation of the resolver, one event at a time.
pub open spec fn step_spec(s: ResolverView, ev: EventV, cache: CacheMap, now: u64) -> (
    ResolverView,
    ActionV,
) {
    match s.phase {
        PhaseV::AwaitStat => match ev {
            EventV::MetaOk(meta) => if meta.is_dir && s.autoindex {
                (with_phase(s, PhaseV::AwaitList), ActionV::List(s.current))
            } else if meta.is_dir && s.index.len() > 0 {
                let retargeted = spec_join_index(s.current, s.index);
                (
                    ResolverView { current: retargeted, phase: PhaseV::AwaitIndexStat, ..s },
                    ActionV::Stat(retargeted),
                )
            } else if meta.is_dir {
                advance_spec(s, cache, now)
            } else {
                negotiate_spec(s, meta)
            },
            EventV::Failed(e) => fail_or_advance_spec(s, e, cache, now),
            _ => (with_phase(s, PhaseV::Finished), ActionV::Fail(ErrorV::Unknown)),
        },
        PhaseV::AwaitIndexStat => match ev {
            EventV::MetaOk(meta) => negotiate_spec(s, meta),
            EventV::Failed(e) => fail_or_advance_spec(s, e, cache, now),
            _ => (with_phase(s, PhaseV::Finished), ActionV::Fail(ErrorV::Unknown)),
        },
        PhaseV::AwaitList => match ev {
            EventV::Listing(entries) => (
                with_phase(s, PhaseV::Finished),
                ActionV::Done(
                    FileInfoView {
                        headers: autoindex_headers(),
                        body: Some(encode_utf8(spec_autoindex_page(entries))),
                    },
                ),
            ),
            EventV::Failed(e) => fail_or_advance_spec(s, e, cache, now),
            _ => (with_phase(s, PhaseV::Finished), ActionV::Fail(ErrorV::Unknown)),
        },
        PhaseV::AwaitRead { headers, is_html } => match ev {
            EventV::Data(buf) => {
                let body = if is_html {
                    apply_replacements(buf, s.replaces)
                } else {
                    buf
                };
                (
                    with_phase(s, PhaseV::Finished),
                    ActionV::Done(FileInfoView { headers, body: Some(body) }),
                )
            },
            EventV::Failed(e) => fail_or_advance_spec(s, e, cache, now),
            _ => (with_phase(s, PhaseV::Finished), ActionV::Fail(ErrorV::Unknown)),
        },
        PhaseV::Finished => (s, ActionV::Fail(ErrorV::Unknown)),
    }
}

/// True for the one transition that writes to the cache: a buffered
/// non-HTML body arriving.
pub open spec fn spec_caches(phase: PhaseV, ev: EventV) -> bool {
    (phase matches PhaseV::AwaitRead { is_html: false, .. }) && ev is Data
}

/// The cache element such a transition stores.
pub open spec fn spec_cached_value(s: ResolverView, ev: EventV, now: u64, ttl: u64) -> (
    u64,
    Seq<(Seq<char>, Seq<char>)>,
    Option<Seq<u8>>,
) {
    match (s.phase, ev) {
        (PhaseV::AwaitRead { headers, .. }, EventV::Data(buf)) => (
            (now + ttl) as u64,
            headers,
            Some(buf),
        ),
        _ => (0u64, Seq::empty(), None),
    }
}

/// The initial state of a request, before the cache is consulted.
pub open spec fn init_spec(params: ParamsView, fallback_html: bool, fallback_index: bool)
    -> ResolverView {
    let decoded = spec_decoded_path(params.file);
    ResolverView {
        index: params.index,
        autoindex: params.autoindex,
        cache_control: params.cache_control,
        replaces: params.html_replaces,
        original: decoded,
        candidates: spec_candidates(decoded, params.index, fallback_html, fallback_index),
        idx: 0,
        current: decoded,
        phase: PhaseV::AwaitStat,
    }
}

/// Starting a request: the path is decoded once, a path whose `..` segments
/// escape the root fails before any backend call, and otherwise the first
/// candidate is entered.
pub open spec fn start_spec(
    params: ParamsView,
    fallback_html: bool,
    fallback_index: bool,
    cache: CacheMap,
    now: u64,
) -> (ResolverView, ActionV) {
    let s0 = init_spec(params, fallback_html, fallback_index);
    if escapes_root(s0.original) {
        (with_phase(s0, PhaseV::Finished), ActionV::Fail(ErrorV::InvalidFile(s0.original)))
    } else {
        begin_spec(s0, cache, now)
    }
}

impl Resolver {
    /// The executable state tracks a meaningful machine state: the chain
    /// position is in range while the machine runs, and headers waiting for
    /// a non-HTML body never declare an HTML content type (so they may be
    /// cached).
    pub open spec fn wf(&self) -> bool {
        &&& self@.idx <= self@.candidates.len()
        &&& (self@.phase is Finished || self@.idx < self@.candidates.len())
        &&& match self@.phase {
            PhaseV::AwaitRead { headers, is_html } => !is_html ==> !headers_declare_html(headers),
            _ => true,
        }
    }

    fn begin(&mut self, cache: &ResponseCache, now: u64) -> (r: Action)
        requires
            old(self)@.idx <= old(self)@.candidates.len(),
            cache.wf(),
        ensures
            (final(self)@, r@) == begin_spec(old(self)@, cache@, now),
            final(self).wf(),
    {
        if self.idx >= self.candidates.len() {
            self.phase = Phase::Finished;
            return Action::Fail(Error::NotFound { file: self.original.clone() });
        }
        let cand = self.candidates[self.idx].clone();
        self.current = cand;
        match cache.get(&self.current, now) {
            Some(info) => {
                self.phase = Phase::Finished;
                Action::Done(info)
            },
            None => {
                self.phase = Phase::AwaitStat;
                Action::Stat(self.current.clone())
            },
        }
    }

    /// Begins resolving one request: decodes the path, rejects lexical
    /// escape from the root before any backend call, builds the fallback
    /// candidates and enters the first one.
    pub fn start(
        params: StaticServeParams,
        fallback_html: bool,
        fallback_index: bool,
        cache: &ResponseCache,
        now: u64,
    ) -> (r: (Resolver, Action))
        requires
            cache.wf(),
        ensures
            (r.0@, r.1@) == start_spec(params@, fallback_html, fallback_index, cache@, now),
            r.0.wf(),
    {
        let decoded = decode_path(params.file);
        let candidates = build_candidates(&decoded, &params.index, fallback_html, fallback_index);
        let mut resolver = Resolver {
            index: params.index,
            autoindex: params.autoindex,
            cache_control: params.cache_control,
            html_replaces: params.html_replaces,
            original: decoded.clone(),
            current: decoded.clone(),
            candidates,
            idx: 0,
            phase: Phase::AwaitStat,
        };
        if path_escapes_root(&decoded) {
            resolver.phase = Phase::Finished;
            let err = Error::InvalidFile { message: decoded };
            return (resolver, Action::Fail(err));
        }
        let action = resolver.begin(cache, now);
        (resolver, action)
    }

    /// Feeds the outcome of the requested backend call into the machine and
    /// yields the next action. Exactly one transition writes to the cache:
    /// a buffered non-HTML body is stored under the (possibly re-targeted)
    /// candidate path with the configured TTL; every other transition
    /// leaves the cache untouched.
    pub fn step(&mut self, event: Event, cache: &mut ResponseCache, now: u64) -> (r: Action)
        requires
            old(self).wf(),
            !(old(self)@.phase is Finished),
            event_matches(old(self)@.phase, event@),
            old(cache).wf(),
            now + old(cache).spec_ttl_secs() <= u64::MAX,
        ensures
            (final(self)@, r@) == step_spec(old(self)@, event@, old(cache)@, now),
            final(self).wf(),
            final(cache).wf(),
            final(cache).spec_capacity() == old(cache).spec_capacity(),
            final(cache).spec_ttl_secs() == old(cache).spec_ttl_secs(),
            !spec_caches(old(self)@.phase, event@) ==> final(cache)@ == old(cache)@,
            spec_caches(old(self)@.phase, event@) ==> (forall|k: Seq<char>|
                #[trigger] final(cache)@.dom().contains(k) ==> ((k == old(self)@.current
                    && final(cache)@[k] == spec_cached_value(old(self)@, event@, now, old(cache).spec_ttl_secs()))
                    || old(cache)@.contains_pair(k, final(cache)@[k]))),
            (spec_caches(old(self)@.phase, event@) && old(cache).spec_capacity() > 0
                && old(cache).stored_weight() + 1 <= old(cache).spec_capacity())
                ==> final(cache)@.contains_pair(
                    old(self)@.current,
                    spec_cached_value(old(self)@, event@, now, old(cache).spec_ttl_secs()),
                ),
            final(cache).stored_weight() <= old(cache).stored_weight() + 1,
    {
        let mut phase = Phase::Finished;
        core::mem::swap(&mut phase, &mut self.phase);
        match phase {
            Phase::AwaitStat => match event {
                Event::MetaOk(meta) => {
                    if meta.is_dir && self.autoindex {
                        self.phase = Phase::AwaitList;
                        Action::List(self.current.clone())
                    } else if meta.is_dir && self.index.as_str().unicode_len() > 0 {
                        let retargeted = join_index(&self.current, &self.index);
                        self.current = retargeted;
                        self.phase = Phase::AwaitIndexStat;
                        Action::Stat(self.current.clone())
                    } else if meta.is_dir {
                        let n = self.candidates.len();
                        proof {
                            assert(self.idx < n);
                        }
                        self.idx = self.idx + 1;
                        self.begin(cache, now)
                    } else {
                        self.negotiate_step(&meta)
                    }
                },
                Event::Failed(e) => self.fail_or_advance(e, cache, now),
                _ => {
                    proof {
                        assert(false);
                    }
                    Action::Fail(Error::Unknown)
                },
            },
            Phase::AwaitIndexStat => match event {
                Event::MetaOk(meta) => self.negotiate_step(&meta),
                Event::Failed(e) => self.fail_or_advance(e, cache, now),
                _ => {
                    proof {
                        assert(false);
                    }
                    Action::Fail(Error::Unknown)
                },
            },
            Phase::AwaitList => match event {
                Event::Listing(entries) => {
                    let html = render_autoindex(&entries);
                    let mut headers: Vec<(String, String)> = Vec::new();
                    headers.push(("content-type".to_owned(), "text/html".to_owned()));
                    headers.push(("cache-control".to_owned(), "no-cache".to_owned()));
                    let info = FileInfo {
                        headers,
                        body: Some(html.as_str().as_bytes_vec()),
                    };
                    proof {
                        assert(headers_view(info.headers@) =~= autoindex_headers());
                    }
                    Action::Done(info)
                },
                Event::Failed(e) => self.fail_or_advance(e, cache, now),
                _ => {
                    proof {
                        assert(false);
                    }
                    Action::Fail(Error::Unknown)
                },
            },
            Phase::AwaitRead { headers, is_html } => match event {
                Event::Data(buf) => {
                    let body = if is_html {
                        apply_html_replaces(buf, &self.html_replaces)
                    } else {
                        buf
                    };
                    let info = FileInfo { headers, body: Some(body) };
                    if !is_html {
                        cache.put(&self.current, &info, now);
                    }
                    Action::Done(info)
                },
                Event::Failed(e) => self.fail_or_advance(e, cache, now),
                _ => {
                    proof {
                        assert(false);
                    }
                    Action::Fail(Error::Unknown)
                },
            },
            Phase::Finished => {
                proof {
                    assert(false);
                }
                Action::Fail(Error::Unknown)
            },
        }
    }

    /// The candidate path the machine is (or last was) working on; after a
    /// re-target this is the index file's path, the one a streamed body is
    /// read from.
    pub fn current_file(&self) -> (r: &String)
        ensures
            r@ == self@.current,
    {
        &self.current
    }

    fn negotiate_step(&mut self, meta: &StorageMetadata) -> (r: Action)
        requires
            old(self)@.idx < old(self)@.candidates.len(),
            old(self)@.phase is Finished,
        ensures
            ({
                let (s2, a) = negotiate_spec(old(self)@, meta@);
                &&& final(self)@ == s2
                &&& r@ == a
            }),
            final(self).wf(),
    {
        let (headers, is_html) = negotiate(meta, &self.current, &self.cache_control);
        if is_html || meta.size < SMALL_BODY_THRESHOLD {
            proof {
                if !is_html {
                    lemma_nonhtml_negotiated(meta@, self.current@, self.cache_control@);
                }
            }
            self.phase = Phase::AwaitRead { headers, is_html };
            Action::Read(self.current.clone())
        } else {
            let info = FileInfo { headers, body: None };
            Action::Done(info)
        }
    }

    fn fail_or_advance(&mut self, e: Error, cache: &ResponseCache, now: u64) -> (r: Action)
        requires
            old(self)@.idx < old(self)@.candidates.len(),
            old(self)@.phase is Finished,
            cache.wf(),
        ensures
            (final(self)@, r@) == fail_or_advance_spec(
                ResolverView { phase: old(self)@.phase, ..old(self)@ },
                e@,
                cache@,
                now,
            ),
            final(self).wf(),
    {
        if e.is_not_found() {
            let n = self.candidates.len();
            proof {
                assert(self.idx < n);
            }
            self.idx = self.idx + 1;
            self.begin(cache, now)
        } else {
            Action::Fail(e)
        }
    }
}

/// Headers negotiated for a non-HTML content type never declare an HTML
/// content type, so such a response may be cached.
pub proof fn lemma_nonhtml_negotiated(meta: MetaV, file: Seq<char>, cc: Seq<char>)
    requires
        !spec_is_html(spec_content_type(meta, file)),
    ensures
        !headers_declare_html(negotiated_headers(meta, file, cc)),
{
    let hs = negotiated_headers(meta, file, cc);
    reveal_strlit("cache-control");
    reveal_strlit("content-type");
    reveal_strlit("content-encoding");
    reveal_strlit("etag");
    assert forall|i: int| 0 <= i < hs.len() implies !((#[trigger] hs[i]).0 == "content-type"@
        && spec_is_html(hs[i].1)) by {
        if i == 0 {
            assert(hs[0].0 == "cache-control"@);
            assert("cache-control"@.len() != "content-type"@.len());
        } else if i == 1 {
            assert(hs[1].1 == spec_content_type(meta, file));
        } else {
            assert(hs[i].0 == "content-encoding"@ || hs[i].0 == "etag"@);
            assert("content-encoding"@.len() != "content-type"@.len());
            assert("etag"@.len() != "content-type"@.len());
        }
    }
}

} // verus!
