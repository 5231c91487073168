use axum::http::{HeaderMap, HeaderValue};
use n4dlapi::config::{find_endpoint, refusal_of, verify_api_access, Config, Endpoint, Visibility};
use n4dlapi::reply::{Body, Reply};
use n4dlapi::server::{admission, check_request, routes, Route};

fn visibility() -> Visibility {
    Visibility {
        publicinfo: None,
        update: None,
        batch: None,
        download: None,
        getdb: None,
        getfile: None,
        release_info: None,
    }
}

fn config(public: bool, shared_key: &str) -> Config {
    Config {
        public,
        shared_key: shared_key.to_string(),
        base_url: None,
        visibility: visibility(),
    }
}

fn sending(key: &str) -> HeaderMap {
    let mut headers = HeaderMap::new();
    headers.insert("DLAPI-Shared-Key", HeaderValue::from_str(key).unwrap());
    headers
}

fn assert_refused(refusal: Option<Reply>) {
    let reply = refusal.expect("the request should be refused");
    assert_eq!(reply.status, 404);
    match reply.body {
        Body::Error(e) => assert_eq!(e.detail, "Not found."),
        other => panic!("unexpected body {:?}", other),
    }
}

#[test]
fn endpoints_are_found_by_path() {
    assert_eq!(find_endpoint("/api/publicinfo"), Some(Endpoint::PublicInfo));
    assert_eq!(find_endpoint("/api/v1/update"), Some(Endpoint::Update));
    assert_eq!(find_endpoint("/api/v1/batch"), Some(Endpoint::Batch));
    assert_eq!(find_endpoint("/api/v1/download"), Some(Endpoint::Download));
    assert_eq!(find_endpoint("/api/v1/getfile"), Some(Endpoint::GetFile));
    assert_eq!(find_endpoint("/api/v1/release_info"), Some(Endpoint::ReleaseInfo));
    assert_eq!(find_endpoint("/api/v1/getdb/unit"), Some(Endpoint::GetDb));
    assert_eq!(find_endpoint("/api/v1/getdb"), None);
    assert_eq!(find_endpoint("/api/v1/updates"), None);
    assert_eq!(find_endpoint("/health"), None);
}

#[test]
fn closed_endpoint_without_key_is_refused() {
    let config = config(false, "secret");
    assert_refused(verify_api_access(&config, "/api/v1/update", &HeaderMap::new()));
}

#[test]
fn closed_endpoint_with_wrong_key_is_refused() {
    let config = config(false, "secret");
    assert_refused(verify_api_access(&config, "/api/v1/update", &sending("Secret")));
    assert_refused(verify_api_access(&config, "/api/v1/update", &sending("")));
    assert_refused(verify_api_access(&config, "/api/v1/update", &sending("secret2")));
}

#[test]
fn closed_endpoint_with_right_key_passes() {
    let config = config(false, "secret");
    assert!(verify_api_access(&config, "/api/v1/update", &sending("secret")).is_none());
    assert!(verify_api_access(&config, "/api/v1/getdb/live", &sending("secret")).is_none());
}

#[test]
fn key_that_is_no_text_counts_as_none() {
    let config = config(false, "secret");
    let mut headers = HeaderMap::new();
    headers.insert(
        "dlapi-shared-key",
        HeaderValue::from_bytes(b"secret\xff").unwrap(),
    );
    assert_refused(verify_api_access(&config, "/api/v1/update", &headers));
}

#[test]
fn first_of_several_keys_counts() {
    let config = config(false, "secret");
    let mut headers = HeaderMap::new();
    headers.append("dlapi-shared-key", HeaderValue::from_static("wrong"));
    headers.append("dlapi-shared-key", HeaderValue::from_static("secret"));
    assert_refused(verify_api_access(&config, "/api/v1/update", &headers));
    let mut headers = HeaderMap::new();
    headers.append("dlapi-shared-key", HeaderValue::from_static("secret"));
    headers.append("dlapi-shared-key", HeaderValue::from_static("wrong"));
    assert!(verify_api_access(&config, "/api/v1/update", &headers).is_none());
}

#[test]
fn empty_shared_key_makes_everything_public() {
    let mut config = config(false, "");
    config.visibility.getdb = Some(false);
    assert!(verify_api_access(&config, "/api/v1/update", &HeaderMap::new()).is_none());
    assert!(verify_api_access(&config, "/api/v1/getdb/live", &HeaderMap::new()).is_none());
    assert!(config.is_public_accessible());
}

#[test]
fn public_default_needs_no_key() {
    let config = config(true, "secret");
    assert!(verify_api_access(&config, "/api/v1/batch", &HeaderMap::new()).is_none());
    assert!(verify_api_access(&config, "/api/v1/batch", &sending("wrong")).is_none());
    assert!(config.is_public_accessible());
}

#[test]
fn endpoint_can_be_public_on_its_own() {
    let mut config = config(false, "secret");
    config.visibility.publicinfo = Some(true);
    assert!(verify_api_access(&config, "/api/publicinfo", &HeaderMap::new()).is_none());
    assert_refused(verify_api_access(&config, "/api/v1/update", &HeaderMap::new()));
    assert!(!config.is_public_accessible());
}

#[test]
fn endpoint_can_be_restricted_on_its_own() {
    let mut config = config(true, "secret");
    config.visibility.getdb = Some(false);
    assert_refused(verify_api_access(&config, "/api/v1/getdb/live", &HeaderMap::new()));
    assert!(verify_api_access(&config, "/api/v1/getdb/live", &sending("secret")).is_none());
    assert!(verify_api_access(&config, "/api/v1/update", &HeaderMap::new()).is_none());
}

#[test]
fn every_setting_reaches_its_endpoint() {
    let paths = [
        "/api/publicinfo",
        "/api/v1/update",
        "/api/v1/batch",
        "/api/v1/download",
        "/api/v1/getdb/x",
        "/api/v1/getfile",
        "/api/v1/release_info",
    ];
    for open in 0..paths.len() {
        let mut config = config(false, "secret");
        match open {
            0 => config.visibility.publicinfo = Some(true),
            1 => config.visibility.update = Some(true),
            2 => config.visibility.batch = Some(true),
            3 => config.visibility.download = Some(true),
            4 => config.visibility.getdb = Some(true),
            5 => config.visibility.getfile = Some(true),
            _ => config.visibility.release_info = Some(true),
        }
        for i in 0..paths.len() {
            assert_eq!(config.is_accessible(paths[i], None), i == open, "{}", paths[i]);
        }
    }
}

#[test]
fn refusals_by_a_given_key() {
    let config = config(false, "secret");
    assert!(refusal_of(&config, "/api/v1/batch", Some("secret")).is_none());
    assert_refused(refusal_of(&config, "/api/v1/batch", Some("")));
    assert_refused(refusal_of(&config, "/api/v1/batch", None));
}

#[test]
fn only_the_api_asks_for_the_key() {
    let config = config(false, "secret");
    for route in routes() {
        let by_key = admission(&route, &config, "/some/path", Some("wrong"));
        let by_headers = check_request(&route, &config, "/some/path", &HeaderMap::new());
        match route {
            Route::Api(_) => {
                assert_refused(by_key);
                assert_refused(by_headers);
            }
            Route::LegacyMicroDownload | Route::Health | Route::ArchiveFiles => {
                assert!(by_key.is_none());
                assert!(by_headers.is_none());
            }
        }
        assert!(admission(&route, &config, "/some/path", Some("secret")).is_none());
        assert!(check_request(&route, &config, "/some/path", &sending("secret")).is_none());
    }
}
