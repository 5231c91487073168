use axum::http::{HeaderMap, HeaderValue};
use n4dlapi::headers::header_str;
use n4dlapi::models::{Checksums, Download};
use n4dlapi::server::Route;
use n4dlapi::urls::{archive_link, archive_prefix, archive_url, publish_urls};

fn headers(pairs: &[(&'static str, &'static str)]) -> HeaderMap {
    let mut map = HeaderMap::new();
    for (name, value) in pairs {
        map.append(*name, HeaderValue::from_static(value));
    }
    map
}

#[test]
fn base_url_is_used_as_it_stands() {
    let h = headers(&[("host", "evil.example.com"), ("x-forwarded-proto", "https")]);
    assert_eq!(
        archive_url(&h, Some("https://dl.example.com/myapp"), "iOS/update/59.4/1.zip"),
        "https://dl.example.com/myapp/archive-root/iOS/update/59.4/1.zip"
    );
}

#[test]
fn links_do_not_depend_on_headers_with_a_base_url() {
    let a = headers(&[("host", "a.example.com")]);
    let b = headers(&[("host", "b.example.com"), ("x-forwarded-proto", "https")]);
    assert_eq!(
        archive_url(&a, Some("http://x"), "p/q"),
        archive_url(&b, Some("http://x"), "p/q")
    );
}

#[test]
fn host_and_scheme_come_from_the_request() {
    let h = headers(&[("Host", "dl.example.com:81"), ("X-Forwarded-Proto", "https")]);
    assert_eq!(
        archive_url(&h, None, "iOS/update/59.4/1.zip"),
        "https://dl.example.com:81/archive-root/iOS/update/59.4/1.zip"
    );
}

#[test]
fn host_and_scheme_have_defaults() {
    assert_eq!(
        archive_url(&HeaderMap::new(), None, "a.zip"),
        "http://localhost:8000/archive-root/a.zip"
    );
    assert_eq!(
        archive_url(&headers(&[("host", "h")]), None, "a.zip"),
        "http://h/archive-root/a.zip"
    );
}

#[test]
fn header_that_is_no_text_counts_as_absent() {
    let mut h = HeaderMap::new();
    h.insert("host", HeaderValue::from_bytes(b"h\xc3\xa4st").unwrap());
    h.insert("x-forwarded-proto", HeaderValue::from_static("https"));
    assert_eq!(
        archive_url(&h, None, "a.zip"),
        "https://localhost:8000/archive-root/a.zip"
    );
}

#[test]
fn tab_is_text_in_a_header() {
    let mut h = HeaderMap::new();
    h.insert("host", HeaderValue::from_bytes(b"a\tb").unwrap());
    assert_eq!(archive_url(&h, None, "x"), "http://a\tb/archive-root/x");
}

#[test]
fn first_host_counts() {
    let h = headers(&[("host", "first"), ("host", "second")]);
    assert_eq!(archive_url(&h, None, "x"), "http://first/archive-root/x");
}

#[test]
fn leading_slashes_are_dropped_and_others_kept() {
    let h = HeaderMap::new();
    assert_eq!(archive_url(&h, Some("b"), "/a//c/"), "b/archive-root/a//c/");
    assert_eq!(archive_url(&h, Some("b"), "///a"), "b/archive-root/a");
    assert_eq!(archive_url(&h, Some("b"), "///"), "b/archive-root/");
    assert_eq!(archive_url(&h, Some(""), ""), "/archive-root/");
}

#[test]
fn non_ascii_paths_are_kept() {
    let h = HeaderMap::new();
    assert_eq!(archive_url(&h, Some("b"), "/\u{30e9}\u{30d6}"), "b/archive-root/\u{30e9}\u{30d6}");
}

#[test]
fn publishing_keeps_all_but_the_urls() {
    let mut list: Vec<Download<u32>> = Vec::new();
    for i in 0..3u32 {
        list.push(Download {
            url: format!("/p/{}.zip", i),
            size: 10 + i as u64,
            checksums: Checksums { md5: format!("m{}", i), sha256: format!("s{}", i) },
            detail: 500 + i,
        });
    }
    publish_urls(&HeaderMap::new(), Some("http://x"), &mut list);
    assert_eq!(list.len(), 3);
    for i in 0..3usize {
        assert_eq!(list[i].url, format!("http://x/archive-root/p/{}.zip", i));
        assert_eq!(list[i].size, 10 + i as u64);
        assert_eq!(list[i].checksums.md5, format!("m{}", i));
        assert_eq!(list[i].checksums.sha256, format!("s{}", i));
        assert_eq!(list[i].detail, 500 + i as u32);
    }
}

#[test]
fn headers_are_read_as_they_were_sent() {
    let text = "attachment; filename=\"live_1.db_\" ~!";
    let mut h = HeaderMap::new();
    h.insert("x-some-thing", HeaderValue::from_str(text).unwrap());
    assert_eq!(header_str(&h, "x-some-thing"), Some(text));
    assert_eq!(header_str(&h, "x-some-other"), None);
    assert_eq!(header_str(&h, "not a name"), None);
}

#[test]
fn links_from_given_scheme_and_host() {
    assert_eq!(archive_link(None, Some("https"), Some("h"), "/a"), "https://h/archive-root/a");
    assert_eq!(archive_link(None, Some("https"), None, "a"), "https://localhost:8000/archive-root/a");
    assert_eq!(archive_link(None, None, Some(""), "a"), "http:///archive-root/a");
    assert_eq!(archive_link(Some("b"), Some("https"), Some("h"), "a"), "b/archive-root/a");
}

#[test]
fn links_lead_to_the_served_files() {
    let h = headers(&[("host", "dl.example.com")]);
    let served = format!("http://dl.example.com{}/a/b", Route::ArchiveFiles.template());
    assert_eq!(archive_url(&h, None, "a/b"), served);
    assert_eq!(archive_prefix(), "/archive-root");
}
