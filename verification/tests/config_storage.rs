use static_serve::config::Config;
use static_serve::error::Error;
use static_serve::storage::{parse_params, select_backend, BackendKind, FtpOptions, S3Options};

fn env(pairs: &[(&str, &str)]) -> Vec<(String, String)> {
    pairs
        .iter()
        .map(|(k, v)| (k.to_string(), v.to_string()))
        .collect()
}

#[test]
fn config_defaults_when_environment_is_empty() {
    let c = Config::new(vec![]);
    assert_eq!(c.timeout_secs, 30);
    assert_eq!(c.compress_min_length, 256);
    assert_eq!(c.index_file, "index.html");
    assert!(!c.autoindex);
    assert_eq!(c.listen_addr, "0.0.0.0:3000");
    assert_eq!(c.cache_control, "public, max-age=31536000, immutable");
    assert!(!c.fallback_index_404);
    assert!(!c.fallback_html_404);
    assert!(c.html_replaces.is_empty());
    assert!(c.response_headers.is_empty());
    assert_eq!(c.cache_size, 1024);
    assert_eq!(c.cache_ttl_secs, 600);
}

#[test]
fn config_reads_durations_flags_and_numbers() {
    let c = Config::new(env(&[
        ("STATIC_TIMEOUT", "1m 30s"),
        ("STATIC_CACHE_TTL", "5m"),
        ("STATIC_CACHE_SIZE", "64"),
        ("STATIC_COMPRESS_MIN_LENGTH", "512"),
        ("STATIC_AUTOINDEX", "true"),
        ("STATIC_FALLBACK_HTML_404", "true"),
        ("STATIC_FALLBACK_INDEX_404", "maybe"),
        ("STATIC_INDEX_FILE", "home.html"),
        ("STATIC_LISTEN_ADDR", "127.0.0.1:8080"),
        ("STATIC_CACHE_CONTROL", "no-store"),
    ]));
    assert_eq!(c.timeout_secs, 90);
    assert_eq!(c.cache_ttl_secs, 300);
    assert_eq!(c.cache_size, 64);
    assert_eq!(c.compress_min_length, 512);
    assert!(c.autoindex);
    assert!(c.fallback_html_404);
    assert!(!c.fallback_index_404, "an unparseable flag falls back to false");
    assert_eq!(c.index_file, "home.html");
    assert_eq!(c.listen_addr, "127.0.0.1:8080");
    assert_eq!(c.cache_control, "no-store");
}

#[test]
fn config_collects_replacements_and_headers() {
    let c = Config::new(env(&[
        ("STATIC_HTML_REPLACE_cdn.old", "cdn.new"),
        ("PATH", "/usr/bin"),
        ("STATIC_RESPONSE_HEADER_X_Frame_Options", "DENY"),
    ]));
    assert_eq!(
        c.html_replaces,
        vec![(b"cdn.old".to_vec(), b"cdn.new".to_vec())]
    );
    assert_eq!(
        c.response_headers,
        vec![("X-Frame-Options".to_string(), "DENY".to_string())]
    );
}

#[test]
fn backend_selection_by_scheme() {
    assert_eq!(select_backend(&"https://host/x".to_string()), BackendKind::S3);
    assert_eq!(select_backend(&"http://host/x".to_string()), BackendKind::S3);
    assert_eq!(select_backend(&"ftp://host/x".to_string()), BackendKind::Ftp);
    assert_eq!(
        select_backend(&"mongodb://host/db".to_string()),
        BackendKind::Gridfs
    );
    assert_eq!(select_backend(&"/var/www".to_string()), BackendKind::Fs);
}

#[test]
fn storage_url_parsing_and_s3_options() {
    let p = parse_params(&"https://host:9000/data?bucket=assets&region=us-east-1".to_string())
        .expect("well-formed url");
    assert_eq!(p.endpoint, "https://host:9000");
    assert_eq!(p.path, "/data");
    let s3 = S3Options::from_params(&p);
    assert_eq!(s3.endpoint, "https://host:9000");
    assert_eq!(s3.root.as_deref(), Some("/data"));
    assert_eq!(s3.bucket.as_deref(), Some("assets"));
    assert_eq!(s3.region.as_deref(), Some("us-east-1"));
    assert_eq!(s3.access_key_id, None);
    assert_eq!(s3.secret_access_key, None);
}

#[test]
fn storage_url_parsing_ftp_credentials() {
    let p = parse_params(&"ftp://user:pw@files.example.com/pub".to_string()).expect("well-formed");
    assert_eq!(p.endpoint, "ftp://files.example.com");
    let ftp = FtpOptions::from_params(&p);
    assert_eq!(ftp.user.as_deref(), Some("user"));
    assert_eq!(ftp.password.as_deref(), Some("pw"));
    assert_eq!(ftp.root.as_deref(), Some("/pub"));
}

#[test]
fn malformed_storage_url_is_a_config_error() {
    match parse_params(&"not a url".to_string()) {
        Err(Error::ParseUrl { message }) => assert_eq!(message, "not a url"),
        _ => panic!("expected a parse failure"),
    }
}

#[test]
fn duplicate_query_parameters_later_wins() {
    let p = parse_params(&"https://h/r?bucket=a&bucket=b".to_string()).expect("well-formed");
    let s3 = S3Options::from_params(&p);
    assert_eq!(s3.bucket.as_deref(), Some("b"));
}

#[test]
fn storage_url_without_port_or_path() {
    let p = parse_params(&"https://h".to_string()).expect("well-formed");
    assert_eq!(p.endpoint, "https://h");
    // the URL parser normalizes an absent path to `/`
    let s3 = S3Options::from_params(&p);
    assert_eq!(s3.root.as_deref(), Some("/"));
}
