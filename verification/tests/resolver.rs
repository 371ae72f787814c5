use static_serve::cache::ResponseCache;
use static_serve::error::Error;
use static_serve::metadata::{StorageEntry, StorageMetadata};
use static_serve::serve::{Action, Event, Resolver, StaticServeParams};

fn file_meta(content_type: Option<&str>, size: u64, mtime: Option<i64>) -> StorageMetadata {
    StorageMetadata {
        is_dir: false,
        size,
        content_type: content_type.map(|s| s.to_string()),
        etag: None,
        last_modified: mtime,
        cache_control: None,
        content_encoding: None,
    }
}

fn dir_meta() -> StorageMetadata {
    StorageMetadata {
        is_dir: true,
        size: 0,
        content_type: None,
        etag: None,
        last_modified: None,
        cache_control: None,
        content_encoding: None,
    }
}

fn params(file: &str) -> StaticServeParams {
    StaticServeParams {
        file: file.to_string(),
        index: "index.html".to_string(),
        autoindex: false,
        cache_control: "public, max-age=60".to_string(),
        html_replaces: vec![],
    }
}

fn header<'a>(headers: &'a [(String, String)], name: &str) -> Option<&'a str> {
    headers
        .iter()
        .find(|(k, _)| k == name)
        .map(|(_, v)| v.as_str())
}

#[test]
fn exact_file_resolution_headers_and_body() {
    let cache = ResponseCache::new(16, 60);
    let (mut r, action) = Resolver::start(params("assets/app.css"), false, false, &cache, 1000);
    let mut cache = cache;
    match action {
        Action::Stat(p) => assert_eq!(p, "assets/app.css"),
        _ => panic!("expected a stat"),
    }
    let meta = file_meta(Some("text/css"), 10, Some(1700000000));
    let action = r.step(Event::MetaOk(meta), &mut cache, 1000);
    match action {
        Action::Read(p) => assert_eq!(p, "assets/app.css"),
        _ => panic!("expected a read"),
    }
    let action = r.step(Event::Data(b"bodybytes!".to_vec()), &mut cache, 1000);
    match action {
        Action::Done(info) => {
            assert_eq!(header(&info.headers, "content-type"), Some("text/css"));
            assert_eq!(header(&info.headers, "cache-control"), Some("public, max-age=60"));
            // size 10 = 0xa, 1700000000 = 0x6553f100
            assert_eq!(header(&info.headers, "etag"), Some("W/\"a-6553f100\""));
            assert_eq!(info.body.as_deref(), Some(b"bodybytes!".as_slice()));
        }
        _ => panic!("expected completion"),
    }
}

#[test]
fn backend_metadata_wins_over_synthesized() {
    let cache = ResponseCache::new(16, 60);
    let (mut r, _) = Resolver::start(params("a.bin"), false, false, &cache, 0);
    let mut cache = cache;
    let meta = StorageMetadata {
        is_dir: false,
        size: 5,
        content_type: Some("application/x-custom".to_string()),
        etag: Some("\"abc\"".to_string()),
        last_modified: Some(77),
        cache_control: Some("max-age=5".to_string()),
        content_encoding: Some("gzip".to_string()),
    };
    let _ = r.step(Event::MetaOk(meta), &mut cache, 0);
    let action = r.step(Event::Data(vec![1, 2, 3, 4, 5]), &mut cache, 0);
    match action {
        Action::Done(info) => {
            assert_eq!(header(&info.headers, "etag"), Some("\"abc\""));
            assert_eq!(header(&info.headers, "cache-control"), Some("max-age=5"));
            assert_eq!(header(&info.headers, "content-encoding"), Some("gzip"));
            assert_eq!(header(&info.headers, "content-type"), Some("application/x-custom"));
        }
        _ => panic!("expected completion"),
    }
}

#[test]
fn mime_guess_fallback_when_backend_silent() {
    let cache = ResponseCache::new(16, 60);
    let (mut r, _) = Resolver::start(params("style.css"), false, false, &cache, 0);
    let mut cache = cache;
    let _ = r.step(Event::MetaOk(file_meta(None, 4, None)), &mut cache, 0);
    let action = r.step(Event::Data(b"a{}\n".to_vec()), &mut cache, 0);
    match action {
        Action::Done(info) => {
            assert_eq!(header(&info.headers, "content-type"), Some("text/css"));
            // no etag source at all
            assert_eq!(header(&info.headers, "etag"), None);
        }
        _ => panic!("expected completion"),
    }
}

#[test]
fn fallback_html_suffix_order() {
    let cache = ResponseCache::new(16, 60);
    let (mut r, action) = Resolver::start(params("foo"), true, true, &cache, 0);
    let mut cache = cache;
    match action {
        Action::Stat(p) => assert_eq!(p, "foo"),
        _ => panic!("expected a stat"),
    }
    let action = r.step(
        Event::Failed(Error::NotFound { file: "foo".to_string() }),
        &mut cache,
        0,
    );
    match action {
        Action::Stat(p) => assert_eq!(p, "foo.html"),
        _ => panic!("expected the suffixed candidate"),
    }
    let _ = r.step(Event::MetaOk(file_meta(Some("text/html"), 2, None)), &mut cache, 0);
    let action = r.step(Event::Data(b"hi".to_vec()), &mut cache, 0);
    match action {
        Action::Done(info) => {
            assert_eq!(header(&info.headers, "cache-control"), Some("no-cache"));
            assert_eq!(info.body.as_deref(), Some(b"hi".as_slice()));
        }
        _ => panic!("expected completion"),
    }
}

#[test]
fn exhausted_chain_reports_original_path() {
    let cache = ResponseCache::new(16, 60);
    let (mut r, _) = Resolver::start(params("foo"), true, true, &cache, 0);
    let mut cache = cache;
    let nf = |p: &str| Event::Failed(Error::NotFound { file: p.to_string() });
    let a = r.step(nf("foo"), &mut cache, 0);
    match a {
        Action::Stat(p) => assert_eq!(p, "foo.html"),
        _ => panic!("expected the suffixed candidate"),
    }
    let a = r.step(nf("foo.html"), &mut cache, 0);
    match a {
        Action::Stat(p) => assert_eq!(p, "index.html"),
        _ => panic!("expected the index candidate"),
    }
    let a = r.step(nf("index.html"), &mut cache, 0);
    match a {
        Action::Fail(Error::NotFound { file }) => assert_eq!(file, "foo"),
        _ => panic!("expected not-found for the original path"),
    }
}

#[test]
fn non_not_found_error_aborts_chain() {
    let cache = ResponseCache::new(16, 60);
    let (mut r, _) = Resolver::start(params("foo"), true, true, &cache, 0);
    let mut cache = cache;
    let a = r.step(
        Event::Failed(Error::Backend {
            not_found: false,
            message: "io failure".to_string(),
        }),
        &mut cache,
        0,
    );
    match a {
        Action::Fail(Error::Backend { not_found, .. }) => assert!(!not_found),
        _ => panic!("expected the backend error to abort"),
    }
}

#[test]
fn traversal_rejected_before_any_backend_call() {
    let cache = ResponseCache::new(16, 60);
    let (_, action) = Resolver::start(params("../etc/passwd"), true, true, &cache, 0);
    match action {
        Action::Fail(Error::InvalidFile { message }) => assert_eq!(message, "../etc/passwd"),
        _ => panic!("expected rejection"),
    }
    // a dotted path that stays inside the root is fine
    let (_, action) = Resolver::start(params("a/../b"), false, false, &cache, 0);
    match action {
        Action::Stat(p) => assert_eq!(p, "a/../b"),
        _ => panic!("expected a stat"),
    }
    // and one that pops out of the root mid-way is not
    let (_, action) = Resolver::start(params("a/../../b"), false, false, &cache, 0);
    match action {
        Action::Fail(Error::InvalidFile { .. }) => {}
        _ => panic!("expected rejection"),
    }
}

#[test]
fn percent_decoding_applied_once_with_raw_fallback() {
    let cache = ResponseCache::new(16, 60);
    let (_, action) = Resolver::start(params("a%20b.txt"), false, false, &cache, 0);
    match action {
        Action::Stat(p) => assert_eq!(p, "a b.txt"),
        _ => panic!("expected a stat"),
    }
    // decoding to invalid UTF-8 falls back to the raw path
    let (_, action) = Resolver::start(params("a%ffb"), false, false, &cache, 0);
    match action {
        Action::Stat(p) => assert_eq!(p, "a%ffb"),
        _ => panic!("expected a stat of the raw path"),
    }
}

#[test]
fn cache_round_trip_and_expiry() {
    let mut cache = ResponseCache::new(16, 60);
    let (mut r, _) = Resolver::start(params("data.txt"), false, false, &cache, 100);
    let _ = r.step(Event::MetaOk(file_meta(Some("text/plain"), 5, None)), &mut cache, 100);
    let first = r.step(Event::Data(b"hello".to_vec()), &mut cache, 100);
    let (first_headers, first_body) = match first {
        Action::Done(info) => (info.headers, info.body),
        _ => panic!("expected completion"),
    };
    // before the TTL elapses the cache answers, byte-identical
    let (_, action) = Resolver::start(params("data.txt"), false, false, &cache, 159);
    match action {
        Action::Done(info) => {
            assert_eq!(info.headers, first_headers);
            assert_eq!(info.body, first_body);
        }
        _ => panic!("expected a cache hit"),
    }
    // at and after expiry it is a miss again
    let (_, action) = Resolver::start(params("data.txt"), false, false, &cache, 160);
    match action {
        Action::Stat(p) => assert_eq!(p, "data.txt"),
        _ => panic!("expected a miss"),
    }
}

#[test]
fn html_bodies_never_cached() {
    let mut cache = ResponseCache::new(16, 60);
    let (mut r, _) = Resolver::start(params("page.html"), false, false, &cache, 100);
    let _ = r.step(Event::MetaOk(file_meta(Some("text/html"), 4, None)), &mut cache, 100);
    let done = r.step(Event::Data(b"<p>!".to_vec()), &mut cache, 100);
    assert!(matches!(done, Action::Done(_)));
    // immediately afterwards the same path still misses the cache
    let (_, action) = Resolver::start(params("page.html"), false, false, &cache, 101);
    match action {
        Action::Stat(p) => assert_eq!(p, "page.html"),
        _ => panic!("html must not be cached"),
    }
}

#[test]
fn zero_capacity_disables_cache() {
    let mut cache = ResponseCache::new(0, 60);
    let (mut r, _) = Resolver::start(params("data.txt"), false, false, &cache, 100);
    let _ = r.step(Event::MetaOk(file_meta(Some("text/plain"), 5, None)), &mut cache, 100);
    let _ = r.step(Event::Data(b"hello".to_vec()), &mut cache, 100);
    let (_, action) = Resolver::start(params("data.txt"), false, false, &cache, 101);
    match action {
        Action::Stat(_) => {}
        _ => panic!("a zero-capacity cache must always miss"),
    }
}

#[test]
fn large_body_streams_and_is_not_cached() {
    let mut cache = ResponseCache::new(16, 60);
    let (mut r, _) = Resolver::start(params("big.bin"), false, false, &cache, 100);
    let meta = file_meta(Some("application/octet-stream"), 30 * 1024, None);
    let action = r.step(Event::MetaOk(meta), &mut cache, 100);
    match action {
        Action::Done(info) => assert!(info.body.is_none()),
        _ => panic!("a large body finishes unread"),
    }
    let (_, action) = Resolver::start(params("big.bin"), false, false, &cache, 101);
    assert!(matches!(action, Action::Stat(_)));
}

#[test]
fn directory_retargets_to_index_file() {
    let mut cache = ResponseCache::new(16, 60);
    let (mut r, _) = Resolver::start(params("docs"), false, false, &cache, 0);
    let action = r.step(Event::MetaOk(dir_meta()), &mut cache, 0);
    match action {
        Action::Stat(p) => assert_eq!(p, "docs/index.html"),
        _ => panic!("expected the re-targeted stat"),
    }
    // with a trailing slash no second separator is inserted
    let (mut r, _) = Resolver::start(params("docs/"), false, false, &cache, 0);
    let action = r.step(Event::MetaOk(dir_meta()), &mut cache, 0);
    match action {
        Action::Stat(p) => assert_eq!(p, "docs/index.html"),
        _ => panic!("expected the re-targeted stat"),
    }
}

#[test]
fn directory_without_index_or_autoindex_is_not_found() {
    let mut cache = ResponseCache::new(16, 60);
    let mut p = params("docs");
    p.index = String::new();
    let (mut r, _) = Resolver::start(p, false, false, &cache, 0);
    let action = r.step(Event::MetaOk(dir_meta()), &mut cache, 0);
    match action {
        Action::Fail(Error::NotFound { file }) => assert_eq!(file, "docs"),
        _ => panic!("expected not-found"),
    }
}

#[test]
fn autoindex_lists_visible_entries_only() {
    let mut cache = ResponseCache::new(16, 60);
    let mut p = params("docs");
    p.autoindex = true;
    let (mut r, _) = Resolver::start(p, false, false, &cache, 0);
    let action = r.step(Event::MetaOk(dir_meta()), &mut cache, 0);
    match &action {
        Action::List(p) => assert_eq!(p, "docs"),
        _ => panic!("expected a listing request"),
    }
    let entries = vec![
        StorageEntry {
            name: ".git".to_string(),
            path: "docs/.git".to_string(),
            metadata: dir_meta(),
        },
        StorageEntry {
            name: "a".to_string(),
            path: "docs/a".to_string(),
            metadata: file_meta(None, 1, None),
        },
        StorageEntry {
            name: "data.bin".to_string(),
            path: "docs/data.bin".to_string(),
            metadata: file_meta(None, 1024, Some(1700000000)),
        },
        StorageEntry {
            name: "sub".to_string(),
            path: "docs/sub".to_string(),
            metadata: dir_meta(),
        },
    ];
    let action = r.step(Event::Listing(entries), &mut cache, 0);
    match action {
        Action::Done(info) => {
            assert_eq!(header(&info.headers, "content-type"), Some("text/html"));
            assert_eq!(header(&info.headers, "cache-control"), Some("no-cache"));
            let html = String::from_utf8(info.body.expect("autoindex is buffered")).unwrap();
            assert!(html.contains(">data.bin</a>"));
            assert!(html.contains("1.0 KiB"));
            assert!(html.contains("1700000000"));
            assert!(html.contains("href=\"./docs/sub/\""));
            assert!(!html.contains(".git"));
            assert!(!html.contains(">a</a>"));
        }
        _ => panic!("expected the listing page"),
    }
    // autoindex pages are never cached
    let mut p = params("docs");
    p.autoindex = true;
    let (_, action) = Resolver::start(p, false, false, &cache, 1);
    assert!(matches!(action, Action::Stat(_)));
}

#[test]
fn substitutions_apply_to_html_in_order() {
    let mut cache = ResponseCache::new(16, 60);
    let mut p = params("page.html");
    p.html_replaces = vec![
        (b"A".to_vec(), b"B".to_vec()),
        (b"B".to_vec(), b"C".to_vec()),
    ];
    let (mut r, _) = Resolver::start(p, false, false, &cache, 0);
    let _ = r.step(Event::MetaOk(file_meta(Some("text/html"), 3, None)), &mut cache, 0);
    let action = r.step(Event::Data(b"xAy".to_vec()), &mut cache, 0);
    match action {
        Action::Done(info) => assert_eq!(info.body.as_deref(), Some(b"xCy".as_slice())),
        _ => panic!("expected completion"),
    }
}

#[test]
fn substitutions_skip_non_html_bodies() {
    let mut cache = ResponseCache::new(16, 60);
    let mut p = params("data.txt");
    p.html_replaces = vec![(b"A".to_vec(), b"B".to_vec())];
    let (mut r, _) = Resolver::start(p, false, false, &cache, 0);
    let _ = r.step(Event::MetaOk(file_meta(Some("text/plain"), 3, None)), &mut cache, 0);
    let action = r.step(Event::Data(b"xAy".to_vec()), &mut cache, 0);
    match action {
        Action::Done(info) => assert_eq!(info.body.as_deref(), Some(b"xAy".as_slice())),
        _ => panic!("expected completion"),
    }
}

#[test]
fn noop_substitutions_resolve_identical_bytes_twice() {
    let mut cache = ResponseCache::new(0, 60);
    let run = |cache: &mut ResponseCache| {
        let (mut r, _) = Resolver::start(params("data.txt"), false, false, cache, 0);
        let _ = r.step(Event::MetaOk(file_meta(Some("text/plain"), 5, None)), cache, 0);
        match r.step(Event::Data(b"hello".to_vec()), cache, 0) {
            Action::Done(info) => (info.headers, info.body),
            _ => panic!("expected completion"),
        }
    };
    let first = run(&mut cache);
    let second = run(&mut cache);
    assert_eq!(first, second);
}
