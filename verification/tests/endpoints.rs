use axum::http::{HeaderMap, HeaderValue};
use n4dlapi::catalog::GameVersion;
use n4dlapi::config::{Config, Visibility};
use n4dlapi::handlers::{
    batch_handler, batch_query, download_handler, download_query, getdb_handler, getdb_query,
    getfile_handler, getfile_query, health_handler, program_version, publicinfo_handler,
    release_info_handler, update_handler, update_query, v7_microdl_handler, v7_microdl_opened,
    v7_microdl_parts, v7_microdl_query, validate_platform, FileMetadata, Opened,
};
use n4dlapi::layout::{micro_file, package_dir};
use n4dlapi::models::{
    BatchDownloadRequest, Checksums, Download, DownloadRequest, MicroDownloadRequest,
    UpdateRequest, VersionModel,
};
use n4dlapi::reply::{bad_request, database_not_found, internal_error, not_found, Body, Reply};

fn config(base_url: Option<&str>) -> Config {
    Config {
        public: false,
        shared_key: "k".to_string(),
        base_url: base_url.map(|b| b.to_string()),
        visibility: Visibility {
            publicinfo: None,
            update: None,
            batch: None,
            download: None,
            getdb: None,
            getfile: None,
            release_info: None,
        },
    }
}

fn file<T>(url: &str, detail: T) -> Download<T> {
    Download {
        url: url.to_string(),
        size: 7,
        checksums: Checksums { md5: "m".to_string(), sha256: "s".to_string() },
        detail,
    }
}

fn failed<T>() -> Result<T, String> {
    Err("disk on fire".to_string())
}

fn assert_error(reply: &Reply, status: u16, detail: &str) {
    assert_eq!(reply.status, status);
    match &reply.body {
        Body::Error(e) => assert_eq!(e.detail, detail),
        other => panic!("unexpected body {:?}", other),
    }
}

#[test]
fn platforms() {
    assert_eq!(validate_platform(1), Some(0));
    assert_eq!(validate_platform(2), Some(1));
    assert_eq!(validate_platform(0), None);
    for p in 3..=255u8 {
        assert_eq!(validate_platform(p), None);
    }
}

#[test]
fn error_answers() {
    assert_error(&bad_request("why"), 400, "why");
    assert_error(&not_found(), 404, "Not found.");
    assert_error(&database_not_found(), 404, "Database not found");
    assert_error(&internal_error(), 500, "Internal server error");
}

#[test]
fn unknown_platforms_are_refused_before_anything_is_asked() {
    for platform in [0u8, 3, 255] {
        let update = update_query(UpdateRequest { version: "59.0".to_string(), platform });
        assert_error(&update.unwrap_err(), 400, "Invalid platform");
        let batch = batch_query(BatchDownloadRequest {
            package_type: 99,
            platform,
            exclude: vec![],
        });
        assert_error(&batch.unwrap_err(), 400, "Invalid platform");
        let download =
            download_query(DownloadRequest { package_type: 99, package_id: 1, platform });
        assert_error(&download.unwrap_err(), 400, "Invalid platform");
        let files = getfile_query(MicroDownloadRequest { files: vec![], platform });
        assert_error(&files.unwrap_err(), 400, "Invalid platform");
    }
}

#[test]
fn queries_carry_the_request_over() {
    let update = update_query(UpdateRequest { version: "59.0".to_string(), platform: 2 }).unwrap();
    assert_eq!((update.version.as_str(), update.platform), ("59.0", 1));
    let batch = batch_query(BatchDownloadRequest {
        package_type: 6,
        platform: 1,
        exclude: vec![578, 579],
    })
    .unwrap();
    assert_eq!((batch.package_type, batch.platform, batch.exclude), (6, 0, vec![578, 579]));
    let download =
        download_query(DownloadRequest { package_type: 0, package_id: 747, platform: 1 }).unwrap();
    assert_eq!((download.package_type, download.package_id, download.platform), (0, 747, 0));
}

#[test]
fn unknown_package_types_are_refused_before_anything_is_asked() {
    let batch =
        batch_query(BatchDownloadRequest { package_type: 7, platform: 1, exclude: vec![] });
    assert_error(&batch.unwrap_err(), 404, "Package type not found");
    let download = download_query(DownloadRequest { package_type: 7, package_id: 0, platform: 2 });
    assert_error(&download.unwrap_err(), 404, "Package not found");
}

#[test]
fn program_version_is_padded() {
    assert_eq!(program_version(), "2023.05.14");
}

#[test]
fn public_information() {
    let mut config = config(None);
    let latest = GameVersion { major: 59, minor: 4 };
    let reply = publicinfo_handler(&config, "abc123", Ok(latest));
    assert_eq!(reply.status, 200);
    match reply.body {
        Body::PublicInfo(info) => {
            assert!(!info.public_api);
            assert_eq!(info.dlapi_version, VersionModel { major: 1, minor: 1 });
            assert_eq!(info.serve_time_limit, 0);
            assert_eq!(info.game_version, "59.4");
            assert_eq!(
                info.application,
                vec![
                    ("NPPS4DLAPICommit".to_string(), "abc123".to_string()),
                    ("NPPS4DLAPIVersion".to_string(), "2023.05.14".to_string()),
                ]
            );
        }
        other => panic!("unexpected body {:?}", other),
    }
    config.public = true;
    match publicinfo_handler(&config, "", Ok(latest)).body {
        Body::PublicInfo(info) => assert!(info.public_api),
        other => panic!("unexpected body {:?}", other),
    }
    assert_error(
        &publicinfo_handler(&config, "abc", failed()),
        500,
        "Internal server error",
    );
}

#[test]
fn updates() {
    let config = config(Some("https://dl.example.com/myapp"));
    let found = vec![
        file("iOS/update/59.3/1.zip", "59.3".to_string()),
        file("iOS/update/59.4/1.zip", "59.4".to_string()),
    ];
    let reply = update_handler(&config, &HeaderMap::new(), Ok(found));
    assert_eq!(reply.status, 200);
    match reply.body {
        Body::Updates(list) => {
            assert_eq!(list.len(), 2);
            assert_eq!(
                list[0].url,
                "https://dl.example.com/myapp/archive-root/iOS/update/59.3/1.zip"
            );
            assert_eq!(
                list[1].url,
                "https://dl.example.com/myapp/archive-root/iOS/update/59.4/1.zip"
            );
            assert_eq!(list[0].detail, "59.3");
            assert_eq!(list[1].detail, "59.4");
            assert_eq!(list[1].size, 7);
        }
        other => panic!("unexpected body {:?}", other),
    }
    assert_error(
        &update_handler(&config, &HeaderMap::new(), failed()),
        500,
        "Internal server error",
    );
}

#[test]
fn batches() {
    let mut headers = HeaderMap::new();
    headers.insert("host", HeaderValue::from_static("me"));
    let found = Ok(Some(vec![file("/iOS/package/59.4/1/580/1.zip", 580u32)]));
    let reply = batch_handler(&config(None), &headers, found);
    assert_eq!(reply.status, 200);
    match reply.body {
        Body::Packages(list) => {
            assert_eq!(list.len(), 1);
            assert_eq!(list[0].url, "http://me/archive-root/iOS/package/59.4/1/580/1.zip");
            assert_eq!(list[0].detail, 580);
        }
        other => panic!("unexpected body {:?}", other),
    }
    assert_error(
        &batch_handler(&config(None), &headers, Ok(None)),
        404,
        "Package type not found",
    );
    assert_error(
        &batch_handler(&config(None), &headers, failed()),
        500,
        "Internal server error",
    );
}

#[test]
fn downloads() {
    let headers = HeaderMap::new();
    let found = Ok(Some(vec![file("a/1.zip", ()), file("a/2.zip", ())]));
    let reply = download_handler(&config(Some("b")), &headers, found);
    assert_eq!(reply.status, 200);
    match reply.body {
        Body::Files(list) => {
            let urls: Vec<&str> = list.iter().map(|d| d.url.as_str()).collect();
            assert_eq!(urls, vec!["b/archive-root/a/1.zip", "b/archive-root/a/2.zip"]);
        }
        other => panic!("unexpected body {:?}", other),
    }
    assert_error(
        &download_handler(&config(None), &headers, Ok(None)),
        404,
        "Package not found",
    );
    assert_error(
        &download_handler(&config(None), &headers, failed()),
        500,
        "Internal server error",
    );
}

#[test]
fn files_are_answered_one_by_one_in_order() {
    let request = MicroDownloadRequest {
        files: vec!["x".to_string(), "y".to_string(), "x".to_string()],
        platform: 1,
    };
    let mut queries = getfile_query(request).unwrap();
    assert_eq!(queries.platform, 0);
    let mut asked: Vec<String> = Vec::new();
    while let Some(path) = queries.next().map(|p| p.clone()) {
        assert!(queries.record(Ok(file(&format!("microdl/{}", path), ()))).is_none());
        asked.push(path);
    }
    assert_eq!(asked, vec!["x", "y", "x"]);
    let reply = getfile_handler(&config(Some("b")), &HeaderMap::new(), queries);
    assert_eq!(reply.status, 200);
    match reply.body {
        Body::Files(list) => {
            let urls: Vec<&str> = list.iter().map(|d| d.url.as_str()).collect();
            assert_eq!(
                urls,
                vec![
                    "b/archive-root/microdl/x",
                    "b/archive-root/microdl/y",
                    "b/archive-root/microdl/x",
                ]
            );
        }
        other => panic!("unexpected body {:?}", other),
    }
}

#[test]
fn one_failing_file_fails_the_request() {
    let request =
        MicroDownloadRequest { files: vec!["x".to_string(), "y".to_string()], platform: 2 };
    let mut queries = getfile_query(request).unwrap();
    assert!(queries.record(Ok(file("x", ()))).is_none());
    let failure = queries.record(failed()).unwrap();
    assert_error(&failure, 500, "Internal server error");
    assert_eq!(queries.found.len(), 1);
}

#[test]
fn no_files_give_an_empty_list() {
    let queries = getfile_query(MicroDownloadRequest { files: vec![], platform: 1 }).unwrap();
    assert_eq!(queries.found.len(), 0);
    assert!(queries.next().is_none());
    match getfile_handler(&config(None), &HeaderMap::new(), queries).body {
        Body::Files(list) => assert!(list.is_empty()),
        other => panic!("unexpected body {:?}", other),
    }
}

#[test]
fn release_information() {
    let keys = vec![
        ("423".to_string(), "UDKkj/dmBRbz+CIB+Ekqyg==".to_string()),
        ("1874".to_string(), "T18sDsU+81wLXTjCURNxJw==".to_string()),
    ];
    let reply = release_info_handler(Ok(keys.clone()));
    assert_eq!(reply.status, 200);
    match reply.body {
        Body::Object(fields) => assert_eq!(fields, keys),
        other => panic!("unexpected body {:?}", other),
    }
    assert_error(&release_info_handler(failed()), 500, "Internal server error");
}

#[test]
fn health() {
    let reply = health_handler(Ok(GameVersion { major: 59, minor: 4 }));
    assert_eq!(reply.status, 200);
    match reply.body {
        Body::Object(fields) => assert_eq!(
            fields,
            vec![
                ("status".to_string(), "ok".to_string()),
                ("gameVersion".to_string(), "59.4".to_string()),
            ]
        ),
        other => panic!("unexpected body {:?}", other),
    }
    let reply = health_handler(failed());
    assert_eq!(reply.status, 503);
    match reply.body {
        Body::Object(fields) => assert_eq!(
            fields,
            vec![
                ("status".to_string(), "degraded".to_string()),
                ("detail".to_string(), "disk on fire".to_string()),
            ]
        ),
        other => panic!("unexpected body {:?}", other),
    }
}

#[test]
fn database_lookups() {
    assert_eq!(getdb_query(Ok(Some(("path", 12u64)))).unwrap(), ("path", 12));
    assert_error(
        &getdb_query::<&str>(Ok(None)).unwrap_err(),
        404,
        "Database not found",
    );
    assert_error(
        &getdb_query::<&str>(failed()).unwrap_err(),
        500,
        "Internal server error",
    );
}

#[test]
fn databases_are_streamed() {
    let reply = getdb_handler("li\u{e9}ve\"\r\n_1", 1234, Opened::File(42u8)).unwrap();
    assert_eq!(reply.status, 200);
    assert_eq!(reply.file, 42);
    assert_eq!(reply.chunk_size, 256 * 1024);
    assert_eq!(
        reply.headers,
        vec![
            ("content-type".to_string(), "application/vnd.sqlite3".to_string()),
            ("content-length".to_string(), "1234".to_string()),
            (
                "content-disposition".to_string(),
                "attachment; filename=\"live_1.db_\"".to_string()
            ),
        ]
    );
    for (_, value) in &reply.headers {
        assert!(HeaderValue::from_str(value).is_ok());
    }
    assert_error(
        &getdb_handler::<u8>("live", 1, Opened::Missing).unwrap_err(),
        404,
        "Database not found",
    );
    assert_error(
        &getdb_handler::<u8>("live", 1, Opened::Failed).unwrap_err(),
        500,
        "Internal server error",
    );
}

#[test]
fn old_style_paths_are_mapped() {
    for platform in ["android", "Android", "ANDROID"] {
        assert_eq!(
            v7_microdl_query(platform, "59.4", "assets/x.texb").unwrap(),
            vec!["Android", "package", "59.4", "microdl", "assets/x.texb"]
        );
    }
    for platform in ["ios", "iOS", "IOS"] {
        assert_eq!(
            v7_microdl_query(platform, "v59.4", "/../a//b").unwrap(),
            vec!["iOS", "package", "59.4", "microdl", "a/b"]
        );
    }
    assert_eq!(
        v7_microdl_parts("ios", "", "a").unwrap(),
        vec!["iOS", "package", "", "microdl", "a"]
    );
}

#[test]
fn old_style_paths_reach_the_micro_download_files() {
    let version = GameVersion { major: 59, minor: 4 };
    let target = v7_microdl_query("iOS", &version.label(), "en//a.mp3").unwrap();
    assert_eq!(target.join("/"), micro_file(&package_dir("iOS", &version), "en/a.mp3"));
}

#[test]
fn old_style_versions_do_not_climb() {
    for version in ["..", ".", "a../", ".x.", "../", ""] {
        assert_eq!(
            v7_microdl_query("android", version, "a.png").unwrap(),
            vec!["Android", "package", "", "microdl", "a.png"],
            "{:?}",
            version
        );
    }
    let target = v7_microdl_query("android", "..", "../a.png").unwrap();
    let mut path = std::path::PathBuf::from("/r");
    path.extend(target);
    assert_eq!(path, std::path::PathBuf::from("/r/Android/package/microdl/a.png"));
    assert_eq!(
        v7_microdl_query("android", "../59.4", "a.png").unwrap(),
        vec!["Android", "package", "..59.4", "microdl", "a.png"]
    );
    assert_eq!(
        v7_microdl_query("android", "...", "a.png").unwrap(),
        vec!["Android", "package", "...", "microdl", "a.png"]
    );
}

#[test]
fn old_style_paths_that_lead_nowhere() {
    assert_error(&v7_microdl_query("windows", "59.4", "a").unwrap_err(), 404, "Not found.");
    assert_error(&v7_microdl_query("", "59.4", "a").unwrap_err(), 404, "Not found.");
    assert_error(&v7_microdl_query("\u{130}os", "59.4", "a").unwrap_err(), 404, "Not found.");
    assert_error(&v7_microdl_query("ios", "59.4", "../..").unwrap_err(), 404, "Not found.");
    assert_error(&v7_microdl_query("ios", "59.4", "").unwrap_err(), 404, "Not found.");
    assert_error(&v7_microdl_parts("iOS", "59.4", "a").unwrap_err(), 404, "Not found.");
}

#[test]
fn old_style_files_are_streamed() {
    assert_eq!(v7_microdl_opened(Opened::File(9u8)).unwrap(), 9);
    assert_error(&v7_microdl_opened::<u8>(Opened::Missing).unwrap_err(), 404, "Not found.");
    assert_error(
        &v7_microdl_opened::<u8>(Opened::Failed).unwrap_err(),
        500,
        "Internal server error",
    );
    let meta = FileMetadata { is_file: true, len: 0 };
    let reply = v7_microdl_handler(9u8, Some(meta)).unwrap();
    assert_eq!(reply.status, 200);
    assert_eq!(reply.file, 9);
    assert_eq!(reply.chunk_size, 262144);
    assert_eq!(
        reply.headers,
        vec![
            ("content-type".to_string(), "application/octet-stream".to_string()),
            ("content-length".to_string(), "0".to_string()),
        ]
    );
    let directory = FileMetadata { is_file: false, len: 4096 };
    assert_error(
        &v7_microdl_handler(9u8, Some(directory)).unwrap_err(),
        404,
        "Not found.",
    );
    assert_error(&v7_microdl_handler(9u8, None).unwrap_err(), 500, "Internal server error");
}
