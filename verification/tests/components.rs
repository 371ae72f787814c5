use static_serve::autoindex::size_cell;
use static_serve::error::Error;
use static_serve::metadata::StorageMetadata;
use static_serve::negotiate::negotiate;
use static_serve::parsenum::{parse_bool, parse_u16, parse_u64, parse_usize};
use static_serve::strutil::{contains_sub, ends_with_slash, starts_with_prefix};
use static_serve::substitute::apply_html_replaces;
use static_serve::textnum::{i64_to_dec, u64_to_dec, u64_to_hex};

fn meta(content_type: Option<&str>, size: u64) -> StorageMetadata {
    StorageMetadata {
        is_dir: false,
        size,
        content_type: content_type.map(|s| s.to_string()),
        etag: None,
        last_modified: None,
        cache_control: None,
        content_encoding: None,
    }
}

#[test]
fn decimal_and_hex_rendering() {
    assert_eq!(u64_to_dec(0), "0");
    assert_eq!(u64_to_dec(1234567890), "1234567890");
    assert_eq!(u64_to_hex(0), "0");
    assert_eq!(u64_to_hex(255), "ff");
    assert_eq!(u64_to_hex(0xdead_beef), "deadbeef");
    assert_eq!(i64_to_dec(-42), "-42");
    assert_eq!(i64_to_dec(1700000000), "1700000000");
    assert_eq!(i64_to_dec(i64::MIN), "-9223372036854775808");
}

#[test]
fn numeric_parsing_matches_std_rules() {
    assert_eq!(parse_u64("123"), Some(123));
    assert_eq!(parse_u64("+7"), Some(7));
    assert_eq!(parse_u64(""), None);
    assert_eq!(parse_u64("+"), None);
    assert_eq!(parse_u64("12a"), None);
    assert_eq!(parse_u64("18446744073709551615"), Some(u64::MAX));
    assert_eq!(parse_u64("18446744073709551616"), None);
    assert_eq!(parse_u16("65535"), Some(65535));
    assert_eq!(parse_u16("65536"), None);
    assert_eq!(parse_usize("1024"), Some(1024));
    assert_eq!(parse_bool("true"), Some(true));
    assert_eq!(parse_bool("false"), Some(false));
    assert_eq!(parse_bool("yes"), None);
}

#[test]
fn string_predicates() {
    assert!(contains_sub("application/text/html; x", "text/html"));
    assert!(!contains_sub("text/plain", "text/html"));
    assert!(contains_sub("abc", ""));
    assert!(starts_with_prefix("https://x", "https://"));
    assert!(!starts_with_prefix("http://x", "https://"));
    assert!(ends_with_slash("a/"));
    assert!(!ends_with_slash("a"));
    assert!(!ends_with_slash(""));
}

#[test]
fn replacement_is_global_and_ordered() {
    let rules = vec![(b"ab".to_vec(), b"X".to_vec())];
    assert_eq!(apply_html_replaces(b"ab-ab-ab".to_vec(), &rules), b"X-X-X");
    let chained = vec![
        (b"A".to_vec(), b"B".to_vec()),
        (b"B".to_vec(), b"C".to_vec()),
    ];
    assert_eq!(apply_html_replaces(b"A".to_vec(), &chained), b"C");
    let empty: Vec<(Vec<u8>, Vec<u8>)> = vec![];
    assert_eq!(apply_html_replaces(b"same".to_vec(), &empty), b"same");
    // rules with an empty pattern leave the body unchanged
    let degenerate = vec![(b"".to_vec(), b"Z".to_vec())];
    assert_eq!(apply_html_replaces(b"ok".to_vec(), &degenerate), b"ok");
}

#[test]
fn negotiation_guesses_type_from_extension() {
    let (headers, is_html) = negotiate(&meta(None, 3), &"a.json".to_string(), &"cc".to_string());
    assert!(!is_html);
    assert!(headers.iter().any(|(k, v)| k == "content-type" && v == "application/json"));
    let (headers, _) = negotiate(&meta(None, 3), &"noext".to_string(), &"cc".to_string());
    assert!(
        headers
            .iter()
            .any(|(k, v)| k == "content-type" && v == "application/octet-stream")
    );
}

#[test]
fn negotiation_classifies_html() {
    let (headers, is_html) = negotiate(
        &meta(Some("text/html; charset=utf-8"), 3),
        &"p".to_string(),
        &"cc".to_string(),
    );
    assert!(is_html);
    assert!(headers.iter().any(|(k, v)| k == "cache-control" && v == "no-cache"));
}

#[test]
fn human_readable_sizes() {
    assert_eq!(size_cell(&meta(None, 215)), "215 B");
    assert_eq!(size_cell(&meta(None, 1024)), "1.0 KiB");
    let dir = StorageMetadata {
        is_dir: true,
        size: 0,
        content_type: None,
        etag: None,
        last_modified: None,
        cache_control: None,
        content_encoding: None,
    };
    assert_eq!(size_cell(&dir), "");
}

#[test]
fn error_classification_and_status() {
    let nf = Error::NotFound { file: "x".to_string() };
    assert!(nf.is_not_found());
    assert_eq!(nf.status_code(), 404);
    assert_eq!(nf.message(), "File not found: x");

    let backend_nf = Error::Backend { not_found: true, message: "gone".to_string() };
    assert!(backend_nf.is_not_found());
    assert_eq!(backend_nf.status_code(), 404);

    let backend = Error::Backend { not_found: false, message: "io".to_string() };
    assert!(!backend.is_not_found());
    assert_eq!(backend.status_code(), 400);

    assert_eq!(Error::Unknown.status_code(), 500);
    assert_eq!(Error::Timeout.status_code(), 408);
    assert_eq!(
        Error::InvalidFile { message: "p".to_string() }.status_code(),
        400
    );
    assert_eq!(
        Error::ParseUrl { message: "u".to_string() }.message(),
        "Parse url error: u"
    );
}

#[test]
fn no_etag_synthesized_for_nonpositive_timestamp() {
    let mut m = meta(Some("text/plain"), 9);
    m.last_modified = Some(0);
    let (headers, _) = negotiate(&m, &"f".to_string(), &"cc".to_string());
    assert!(!headers.iter().any(|(k, _)| k == "etag"));
    m.last_modified = Some(-5);
    let (headers, _) = negotiate(&m, &"f".to_string(), &"cc".to_string());
    assert!(!headers.iter().any(|(k, _)| k == "etag"));
    m.last_modified = Some(1);
    let (headers, _) = negotiate(&m, &"f".to_string(), &"cc".to_string());
    assert!(headers.iter().any(|(k, v)| k == "etag" && v == "W/\"9-1\""));
}
