use n4dlapi::catalog::{
    latest_version, missing_file, parse_version, updates_after, without_excluded, GameVersion,
};
use n4dlapi::paths::{clean_db_name, clean_version, database_file, platform_dir, sanitize_path};
use n4dlapi::layout::{
    archive_file, archive_list, database_path, id_list, micro_file, micro_list, package_dir,
    package_list, platform_dir_at, release_info_file, single_dir, update_dir, update_list,
};
use n4dlapi::server::{archive_root, config_file, default_log_filter, git_commit, listen_address, routes, CommandOutput, Method, Route, ServeArgs, BODY_LIMIT};
use n4dlapi::config::{find_endpoint, Endpoint};
use n4dlapi::text::{decimal_text, decimal_two_text, same_text, starts_with, trim_text};

fn v(major: u32, minor: u32) -> GameVersion {
    GameVersion { major, minor }
}

#[test]
fn database_names_keep_letters_digits_and_underscores() {
    assert_eq!(clean_db_name("game_mater1"), "game_mater1");
    assert_eq!(clean_db_name("../Live.db_?\"\r\n"), "Livedb_");
    assert_eq!(clean_db_name("\u{e9}t\u{e9}\u{ff11}"), "t");
    assert_eq!(clean_db_name(""), "");
    assert_eq!(clean_db_name(&clean_db_name("a-b/c")), "abc");
}

#[test]
fn database_files_end_in_db() {
    assert_eq!(database_file("live").as_deref(), Some("live.db_"));
    assert_eq!(database_file("../live").as_deref(), Some("live.db_"));
    assert_eq!(database_file("../.."), None);
}

#[test]
fn versions_keep_digits_and_dots() {
    assert_eq!(clean_version("59.4"), "59.4");
    assert_eq!(clean_version("v59.4-beta/1"), "59.41");
    assert_eq!(clean_version("abc"), "");
}

#[test]
fn platform_directories() {
    assert_eq!(platform_dir("android"), Some("Android"));
    assert_eq!(platform_dir("ios"), Some("iOS"));
    assert_eq!(platform_dir("Android"), None);
    assert_eq!(platform_dir(""), None);
}

#[test]
fn sanitized_paths() {
    assert_eq!(sanitize_path("assets/image/tx_foo.texb"), "assets/image/tx_foo.texb");
    assert_eq!(sanitize_path("/assets//image/"), "assets/image");
    assert_eq!(sanitize_path("../../etc/passwd"), "etc/passwd");
    assert_eq!(sanitize_path("a/../b/./c"), "a/b/c");
    assert_eq!(sanitize_path("a/.../b..c/.d"), "a/.../b..c/.d");
    assert_eq!(sanitize_path("../.././/"), "");
    assert_eq!(sanitize_path(""), "");
    assert_eq!(sanitize_path("\u{e9}/\u{30e9}"), "\u{e9}/\u{30e9}");
    let once = sanitize_path("x/..//y/");
    assert_eq!(sanitize_path(&once), once);
}

#[test]
fn decimals() {
    for n in [0u64, 1, 9, 10, 11, 99, 100, 12345, u64::MAX - 1, u64::MAX] {
        assert_eq!(decimal_text(n), n.to_string());
        assert_eq!(decimal_two_text(n), format!("{:02}", n));
    }
}

#[test]
fn texts_are_compared_by_characters() {
    assert!(same_text("", ""));
    assert!(same_text("\u{e9}a", "\u{e9}a"));
    assert!(!same_text("ab", "aB"));
    assert!(!same_text("ab", "abc"));
    assert!(starts_with("abc", "ab"));
    assert!(starts_with("abc", ""));
    assert!(!starts_with("ab", "abc"));
    assert!(!starts_with("abc", "bc"));
}

#[test]
fn trimming_agrees_with_the_standard_library() {
    for code in 0..0x11_0000u32 {
        if let Some(c) = char::from_u32(code) {
            if c.is_whitespace() || code < 0x400 || (0x1680..0x3100).contains(&code) {
                let text = format!("{}a{}b{}", c, c, c);
                assert_eq!(trim_text(&text), text.trim(), "{:x}", code);
            }
        }
    }
    assert_eq!(trim_text(" \t\n"), "");
    assert_eq!(trim_text(""), "");
}

#[test]
fn versions_are_written_and_read() {
    assert_eq!(v(59, 4).label(), "59.4");
    assert_eq!(parse_version("59.4"), Some(v(59, 4)));
    assert_eq!(parse_version("059.04"), Some(v(59, 4)));
    assert_eq!(parse_version("4294967295.0"), Some(v(4294967295, 0)));
    for w in [v(0, 0), v(1, 10), v(10, 1), v(u32::MAX, u32::MAX)] {
        assert_eq!(parse_version(&w.label()), Some(w));
    }
}

#[test]
fn versions_are_ordered_by_number() {
    assert!(v(59, 10).after(&v(59, 9)));
    assert!(v(60, 0).after(&v(59, 10)));
    assert!(v(60, 0).after(&v(59, 9)));
    assert!(!v(59, 9).after(&v(59, 10)));
    assert!(!v(59, 9).after(&v(60, 0)));
    assert!(!v(59, 9).after(&v(59, 9)));
}

#[test]
fn what_is_no_version() {
    for label in [
        "", ".", "59", "59.", ".4", "59.4.1", "59,4", " 59.4", "59.4 ", "-1.0", "+1.0", "a.b",
        "4294967296.0", "0.4294967296", "99999999999999999999999999.0",
    ] {
        assert_eq!(parse_version(label), None, "{:?}", label);
    }
}

#[test]
fn the_latest_version() {
    assert_eq!(latest_version(&vec![]), None);
    assert_eq!(latest_version(&vec![v(59, 4)]), Some(v(59, 4)));
    assert_eq!(
        latest_version(&vec![v(59, 4), v(9, 99), v(59, 10), v(59, 9)]),
        Some(v(59, 10))
    );
}

#[test]
fn updates_come_in_order() {
    let available = vec![v(59, 10), v(59, 2), v(60, 0), v(59, 4), v(59, 2), v(58, 0)];
    assert_eq!(
        updates_after(&available, &v(59, 0)),
        vec![v(59, 2), v(59, 4), v(59, 10), v(60, 0)]
    );
    assert_eq!(updates_after(&available, &v(59, 10)), vec![v(60, 0)]);
    assert_eq!(updates_after(&available, &v(60, 0)), vec![]);
    assert_eq!(updates_after(&vec![], &v(0, 0)), vec![]);
}

#[test]
fn updates_end_at_the_latest_version() {
    let available = vec![v(3, 1), v(2, 0), v(3, 0)];
    let updates = updates_after(&available, &v(2, 5));
    assert_eq!(updates.last().copied(), latest_version(&available));
}

#[test]
fn excluded_packages_are_skipped() {
    assert_eq!(without_excluded(&vec![578, 580, 579, 581], &vec![578, 579]), vec![580, 581]);
    assert_eq!(without_excluded(&vec![2, 1, 2], &vec![]), vec![2, 1, 2]);
    assert_eq!(without_excluded(&vec![2, 2], &vec![2]), Vec::<u32>::new());
}

#[test]
fn missing_files_have_no_bytes() {
    let entry = missing_file("a/b");
    assert_eq!(entry.url, "a/b");
    assert_eq!(entry.size, 0);
    assert_eq!(entry.checksums.md5, "d41d8cd98f00b204e9800998ecf8427e");
    assert_eq!(
        entry.checksums.sha256,
        "e3b0c44298fc1c149afbf4c8996fb92427ae41e4649b934ca495991b7852b855"
    );
}

#[test]
fn commits() {
    let said = |success: bool, stdout: &[u8]| {
        git_commit(Some(CommandOutput { success, stdout: stdout.to_vec() }))
    };
    assert_eq!(said(true, b"abc123\n"), "abc123");
    assert_eq!(said(true, b"  ab c\r\n"), "ab c");
    assert_eq!(said(true, "\u{e9}\n".as_bytes()), "\u{e9}");
    assert_eq!(said(false, b"abc123\n"), "unknown");
    assert_eq!(said(true, b" \n"), "unknown");
    assert_eq!(said(true, b""), "unknown");
    assert_eq!(said(true, b"abc\xff"), "unknown");
    assert_eq!(git_commit(None), "unknown");
}

#[test]
fn listen_addresses() {
    assert_eq!(listen_address(None), "127.0.0.1:8000");
    assert_eq!(listen_address(Some("0.0.0.0:80".to_string())), "0.0.0.0:80");
    assert_eq!(listen_address(Some(String::new())), "");
}

#[test]
fn request_bodies_are_limited() {
    assert_eq!(BODY_LIMIT, 64 * 1024 * 1024);
}

#[test]
fn cors_is_off_by_default() {
    let args = ServeArgs::default();
    assert!(!args.getdb_cors);
    for route in routes() {
        assert!(!route.has_wildcard_cors(&args));
    }
}

#[test]
fn cors_is_for_databases() {
    let args = ServeArgs { getdb_cors: true };
    for route in routes() {
        assert_eq!(route.has_wildcard_cors(&args), route == Route::Api(Endpoint::GetDb));
    }
}

#[test]
fn routes_and_their_guards() {
    let all = routes();
    let templates: Vec<&str> = all.iter().map(|r| r.template()).collect();
    assert_eq!(
        templates,
        vec![
            "/api/v1/getdb/{name}",
            "/api/publicinfo",
            "/api/v1/update",
            "/api/v1/batch",
            "/api/v1/download",
            "/api/v1/getfile",
            "/api/v1/release_info",
            "/v7/micro_download/{platform}/{version}/{*file_path}",
            "/health",
            "/archive-root",
        ]
    );
    for route in all {
        match route {
            Route::Api(endpoint) => {
                assert!(route.is_guarded());
                assert_eq!(find_endpoint(route.template()), Some(endpoint));
            }
            _ => {
                assert!(!route.is_guarded());
                assert_eq!(find_endpoint(route.template()), None);
            }
        }
    }
}

#[test]
fn routes_and_their_methods() {
    for route in routes() {
        let expected = match route.template() {
            "/api/v1/update" | "/api/v1/batch" | "/api/v1/download" | "/api/v1/getfile" => {
                Method::Post
            }
            _ => Method::Get,
        };
        assert_eq!(route.method(), expected, "{}", route.template());
    }
}

#[test]
fn settings_from_the_environment() {
    assert_eq!(config_file(None), "config.toml");
    assert_eq!(config_file(Some("/etc/n4.toml".to_string())), "/etc/n4.toml");
    assert_eq!(archive_root(Some("env"), Some("file")), Some("env"));
    assert_eq!(archive_root(Some("env"), None), Some("env"));
    assert_eq!(archive_root(None, Some("file")), Some("file"));
    assert_eq!(archive_root::<&str>(None, None), None);
    assert_eq!(default_log_filter(), "n4dlapi=info");
}

#[test]
fn places_in_the_archive() {
    let version = v(59, 4);
    assert_eq!(platform_dir_at(0), Some("iOS"));
    assert_eq!(platform_dir_at(1), Some("Android"));
    assert_eq!(platform_dir_at(2), None);
    assert_eq!(update_list("iOS"), "iOS/update/infov2.json");
    assert_eq!(update_dir("iOS", &version), "iOS/update/59.4");
    assert_eq!(package_list("iOS"), "iOS/package/info.json");
    let base = package_dir("Android", &version);
    assert_eq!(base, "Android/package/59.4");
    assert_eq!(id_list(&base, 1), "Android/package/59.4/1/info.json");
    assert_eq!(single_dir(&base, 1, 580), "Android/package/59.4/1/580");
    assert_eq!(archive_list("d"), "d/infov2.json");
    assert_eq!(archive_file(&update_dir("iOS", &version), "1.zip"), "iOS/update/59.4/1.zip");
    assert_eq!(database_path(&base, "live.db_"), "Android/package/59.4/db/live.db_");
    assert_eq!(micro_list(&base), "Android/package/59.4/microdl/info.json");
    assert_eq!(micro_file(&base, "en/a.mp3"), "Android/package/59.4/microdl/en/a.mp3");
    assert_eq!(release_info_file(), "release_info.json");
}
