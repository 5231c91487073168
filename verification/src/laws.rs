//! What holds of the library as a whole, stated over the same specification
//! functions as the contracts of the executable functions. The modules below
//! say the same of single calls and of pairs of calls: which results they can
//! give, over the arguments alone.

pub mod access;
pub mod answers;
pub mod links;
pub mod names;
pub mod places;
pub mod setup;
pub mod texts;
pub mod versions;

use crate::catalog;
use crate::catalog::GameVersion;
use crate::config;
use crate::config::{Config, Endpoint};
use crate::handlers;
use crate::headers;
use crate::layout;
use crate::models;
use crate::paths;
use crate::server;
use crate::server::{CommandOutput, Route, ServeArgs};
use crate::text;
use crate::urls;
use axum::http::{HeaderMap, HeaderValue};
use vstd::prelude::*;

verus! {

// ---- Access ----

/// Where no shared key is configured, every request passes.
pub proof fn without_a_key_all_is_public(config: Config, path: Seq<char>, key: Option<Seq<char>>)
    requires
        config.shared_key@.len() == 0,
    ensures
        config.grants(path, key),
{
}

/// Where a shared key is configured, an endpoint that is not public answers
/// exactly the requests that send this key.
pub proof fn a_closed_endpoint_asks_for_the_key(
    config: Config,
    path: Seq<char>,
    key: Option<Seq<char>>,
)
    requires
        config.shared_key@.len() > 0,
        !config.is_public(path),
    ensures
        config.grants(path, key) <==> key == Some(config.shared_key@),
{
}

/// An endpoint that is marked public answers every request, with the right
/// key, a wrong one or none.
pub proof fn a_public_endpoint_needs_no_key(config: Config, path: Seq<char>, key: Option<Seq<char>>)
    requires
        config.is_public(path),
    ensures
        config.grants(path, key),
{
}

/// What is set for an endpoint goes before the default, in both directions; the
/// default counts only where nothing is set.
pub proof fn a_setting_overrides_the_default(config: Config, path: Seq<char>, endpoint: Endpoint)
    requires
        config::endpoint_at(path) == Some(endpoint),
    ensures
        config.visibility.set_for(endpoint) == Some(true) ==> config.is_public(path),
        config.visibility.set_for(endpoint) == Some(false) ==> !config.is_public(path),
        config.visibility.set_for(endpoint) is None ==> config.is_public(path) == config.public,
{
}

/// A request that sends the configured key passes everywhere.
pub proof fn the_right_key_opens_everything(config: Config, path: Seq<char>)
    ensures
        config.grants(path, Some(config.shared_key@)),
{
}

// ---- Routes ----

/// The list of routes holds every route, and each once.
pub proof fn routes_are_complete(route: Route)
    ensures
        server::routes_view().contains(route),
        server::routes_view().no_duplicates(),
{
    let all = server::routes_view();
    match route {
        Route::Api(Endpoint::GetDb) => assert(all[0] == route),
        Route::Api(Endpoint::PublicInfo) => assert(all[1] == route),
        Route::Api(Endpoint::Update) => assert(all[2] == route),
        Route::Api(Endpoint::Batch) => assert(all[3] == route),
        Route::Api(Endpoint::Download) => assert(all[4] == route),
        Route::Api(Endpoint::GetFile) => assert(all[5] == route),
        Route::Api(Endpoint::ReleaseInfo) => assert(all[6] == route),
        Route::LegacyMicroDownload => assert(all[7] == route),
        Route::Health => assert(all[8] == route),
        Route::ArchiveFiles => assert(all[9] == route),
    }
}

/// The access check knows every guarded route by its path: a request that
/// reaches an endpoint is judged by the settings of that endpoint.
pub proof fn guarded_paths_are_known(endpoint: Endpoint)
    requires
        endpoint != Endpoint::GetDb,
    ensures
        config::endpoint_at(Route::Api(endpoint).template_view()) == Some(endpoint),
{
    reveal_strlit("/api/publicinfo");
    reveal_strlit("/api/v1/update");
    reveal_strlit("/api/v1/batch");
    reveal_strlit("/api/v1/download");
    reveal_strlit("/api/v1/getfile");
    reveal_strlit("/api/v1/release_info");
    assert("/api/v1/update"@[8] == 'u');
    assert("/api/v1/batch"@[8] == 'b');
    assert("/api/v1/download"@[8] == 'd');
    assert("/api/v1/getfile"@[8] == 'g');
    assert("/api/v1/release_info"@[8] == 'r');
    assert("/api/publicinfo"@[8] == 'l');
}

/// Whatever the name of a database is, asking for it is judged by the settings
/// of the database endpoint.
pub proof fn database_paths_are_known(name: Seq<char>)
    ensures
        config::endpoint_at("/api/v1/getdb/"@ + name) == Some(Endpoint::GetDb),
{
    reveal_strlit("/api/publicinfo");
    reveal_strlit("/api/v1/update");
    reveal_strlit("/api/v1/batch");
    reveal_strlit("/api/v1/download");
    reveal_strlit("/api/v1/getfile");
    reveal_strlit("/api/v1/release_info");
    reveal_strlit("/api/v1/getdb/");
    let path = "/api/v1/getdb/"@ + name;
    assert(path[8] == 'g');
    assert(path[11] == 'd');
    assert("/api/v1/update"@[8] == 'u');
    assert("/api/v1/batch"@[8] == 'b');
    assert("/api/v1/download"@[8] == 'd');
    assert("/api/v1/getfile"@[11] == 'f');
    assert("/api/v1/release_info"@[8] == 'r');
    assert("/api/publicinfo"@[8] == 'l');
    assert("/api/v1/getdb/"@ =~= path.subrange(0, "/api/v1/getdb/"@.len() as int));
}

/// Every route of the server, the archive's files among them, lets other
/// origins in exactly where this was asked for and the route serves databases;
/// by default none does.
pub proof fn cors_is_for_databases_on_demand(route: Route, args: ServeArgs)
    ensures
        route.wildcard_cors(args) <==> args.getdb_cors && route == Route::Api(Endpoint::GetDb),
        !Route::ArchiveFiles.wildcard_cors(args),
        !route.wildcard_cors(ServeArgs { getdb_cors: false }),
{
}

/// A request that the configuration does not grant reaches no endpoint of the
/// API. The probe, the old-style files and the archive's files answer it all
/// the same: they need no key.
pub proof fn the_key_guards_the_api_alone(
    config: Config,
    path: Seq<char>,
    key: Option<Seq<char>>,
    endpoint: Endpoint,
)
    ensures
        Route::Api(endpoint).admits(config, path, key) <==> config.grants(path, key),
        Route::Health.admits(config, path, key),
        Route::LegacyMicroDownload.admits(config, path, key),
        Route::ArchiveFiles.admits(config, path, key),
{
}

// ---- Links ----

/// With a configured base URL, links do not depend on the request headers.
pub proof fn links_ignore_headers(
    headers: HeaderMap<HeaderValue>,
    others: HeaderMap<HeaderValue>,
    base_url: Seq<char>,
    path: Seq<char>,
)
    ensures
        urls::archive_url_view(headers, Some(base_url), path) == urls::archive_url_view(
            others,
            Some(base_url),
            path,
        ),
        urls::archive_url_view(headers, Some(base_url), path) == base_url
            + urls::archive_prefix_view() + "/"@ + text::without_leading(path, '/'),
{
}

/// Links point at what is served: behind the base, each link continues with the
/// path of the route that serves the archive's files, a slash, and the path of
/// the file. Without a configured base URL the base is the host that the
/// request itself was sent to, so the link leads back to this server.
pub proof fn links_point_at_the_served_files(
    headers: HeaderMap<HeaderValue>,
    base_url: Option<Seq<char>>,
    path: Seq<char>,
)
    ensures
        urls::archive_url_view(headers, base_url, path) == urls::link_base(
            base_url,
            headers::header_text(headers, "x-forwarded-proto"@),
            headers::header_text(headers, "host"@),
        ) + Route::ArchiveFiles.template_view() + "/"@ + text::without_leading(path, '/'),
        base_url is None && headers::header_text(headers, "host"@) is Some
            ==> urls::archive_url_view(headers, base_url, path) == urls::text_or(
            headers::header_text(headers, "x-forwarded-proto"@),
            "http"@,
        ) + "://"@ + headers::header_text(headers, "host"@)->0
            + Route::ArchiveFiles.template_view() + "/"@ + text::without_leading(path, '/'),
{
}

/// What is left once a leading run is dropped does not begin with that
/// character and is the end of the text; what was dropped is that character
/// alone, so a text that does not begin with it stays whole.
pub proof fn leading_runs_are_dropped(s: Seq<char>, c: char)
    ensures
        text::without_leading(s, c).len() <= s.len(),
        text::without_leading(s, c) == s.skip(s.len() - text::without_leading(s, c).len()),
        text::without_leading(s, c).len() > 0 ==> text::without_leading(s, c)[0] != c,
        forall|i: int|
            0 <= i < s.len() - text::without_leading(s, c).len() ==> #[trigger] s[i] == c,
        s.len() == 0 || s[0] != c ==> text::without_leading(s, c) == s,
    decreases s.len(),
{
    if s.len() > 0 && s[0] == c {
        leading_runs_are_dropped(s.drop_first(), c);
        let rest = text::without_leading(s, c);
        assert(s.drop_first().skip(s.drop_first().len() - rest.len()) == s.skip(
            s.len() - rest.len(),
        ));
        assert forall|i: int| 0 <= i < s.len() - rest.len() implies #[trigger] s[i] == c by {
            if i > 0 {
                assert(s.drop_first()[i - 1] == c);
            }
        }
    } else {
        assert(s.skip(0) == s);
    }
}

/// It does not matter with how many slashes an archive path begins.
pub proof fn leading_slashes_do_not_matter(
    headers: HeaderMap<HeaderValue>,
    base_url: Option<Seq<char>>,
    path: Seq<char>,
)
    ensures
        urls::archive_url_view(headers, base_url, seq!['/'] + path) == urls::archive_url_view(
            headers,
            base_url,
            path,
        ),
{
    assert((seq!['/'] + path).drop_first() == path);
}

/// Publishing keeps the number and the order of the downloads and everything
/// of them but the URL.
pub proof fn publishing_changes_urls_only<V>(
    headers: HeaderMap<HeaderValue>,
    base_url: Option<Seq<char>>,
    downloads: Seq<models::DownloadView<V>>,
)
    ensures
        urls::published(headers, base_url, downloads).len() == downloads.len(),
        forall|i: int|
            0 <= i < downloads.len() ==> {
                let link = #[trigger] urls::published(headers, base_url, downloads)[i];
                &&& link.url == urls::archive_url_view(headers, base_url, downloads[i].url)
                &&& link.size == downloads[i].size
                &&& link.checksums == downloads[i].checksums
                &&& link.detail == downloads[i].detail
            },
{
}

// ---- Answers ----

/// The objects in the answers name each field once.
pub proof fn answers_name_each_field_once(
    config: Config,
    git_commit: Seq<char>,
    latest: GameVersion,
    why: Seq<char>,
)
    ensures
        models::names_are_distinct(
            handlers::public_info_view(config, git_commit, latest).application,
        ),
        models::names_are_distinct(handlers::healthy_view(latest)),
        models::names_are_distinct(handlers::degraded_view(why)),
{
    reveal_strlit("NPPS4DLAPICommit");
    reveal_strlit("NPPS4DLAPIVersion");
    reveal_strlit("status");
    reveal_strlit("gameVersion");
    reveal_strlit("detail");
    assert("NPPS4DLAPICommit"@.len() != "NPPS4DLAPIVersion"@.len());
    assert("status"@[0] != "gameVersion"@[0]);
    assert("status"@[0] != "detail"@[0]);
}

// ---- Names and paths ----

/// Filtering changes nothing where everything is kept.
proof fn lemma_filter_fixpoint<A>(s: Seq<A>, keep: spec_fn(A) -> bool)
    requires
        forall|i: int| 0 <= i < s.len() ==> keep(#[trigger] s[i]),
    ensures
        s.filter(keep) == s,
    decreases s.len(),
{
    reveal(Seq::filter);
    if s.len() > 0 {
        assert forall|i: int| 0 <= i < s.drop_last().len() implies keep(
            #[trigger] s.drop_last()[i],
        ) by {
            assert(keep(s[i]));
        }
        lemma_filter_fixpoint(s.drop_last(), keep);
        assert(keep(s[s.len() - 1]));
        assert(s.drop_last().push(s.last()) == s);
    }
}

/// A database name is made of `[a-zA-Z0-9_]` alone.
pub proof fn database_names_are_clean(name: Seq<char>)
    ensures
        forall|i: int|
            0 <= i < paths::db_name_view(name).len() ==> paths::is_db_name_char(
                #[trigger] paths::db_name_view(name)[i],
            ),
{
    let keep = |c: char| paths::is_db_name_char(c);
    assert forall|i: int| 0 <= i < paths::db_name_view(name).len() implies paths::is_db_name_char(
        #[trigger] paths::db_name_view(name)[i],
    ) by {
        name.lemma_filter_pred(keep, i);
    }
}

/// A clean database name stays as it is; cleaning twice is cleaning once.
pub proof fn clean_database_names_stay(name: Seq<char>)
    ensures
        (forall|i: int| 0 <= i < name.len() ==> paths::is_db_name_char(#[trigger] name[i]))
            ==> paths::db_name_view(name) == name,
        paths::db_name_view(paths::db_name_view(name)) == paths::db_name_view(name),
{
    let keep = |c: char| paths::is_db_name_char(c);
    if forall|i: int| 0 <= i < name.len() ==> paths::is_db_name_char(#[trigger] name[i]) {
        lemma_filter_fixpoint(name, keep);
    }
    database_names_are_clean(name);
    lemma_filter_fixpoint(paths::db_name_view(name), keep);
}

/// Visible ASCII characters and spaces: what may stand in any header value.
pub open spec fn is_visible(s: Seq<char>) -> bool {
    forall|i: int| 0 <= i < s.len() ==> ' ' <= #[trigger] s[i] <= '~'
}

/// Whatever name a client asks for, the header that carries it is made of
/// visible ASCII characters and spaces.
pub proof fn dispositions_are_visible(name: Seq<char>)
    ensures
        is_visible(handlers::disposition_view(name)),
{
    reveal_strlit("attachment; filename=\"");
    reveal_strlit(".db_\"");
    database_names_are_clean(name);
    let head = "attachment; filename=\""@;
    let clean = paths::db_name_view(name);
    let tail = ".db_\""@;
    let all = handlers::disposition_view(name);
    assert forall|i: int| 0 <= i < all.len() implies ' ' <= #[trigger] all[i] <= '~' by {
        if i < head.len() {
            assert(all[i] == head[i]);
        } else if i < head.len() + clean.len() {
            assert(all[i] == clean[i - head.len()]);
            assert(paths::is_db_name_char(clean[i - head.len()]));
        } else {
            assert(all[i] == tail[i - head.len() - clean.len()]);
        }
    }
}

/// Every header of a streamed file is made of visible ASCII characters and
/// spaces, for any name and any size.
pub proof fn file_headers_are_valid(name: Seq<char>, size: u64)
    ensures
        forall|i: int|
            0 <= i < handlers::database_headers(name, size).len() ==> is_visible(
                (#[trigger] handlers::database_headers(name, size)[i]).1,
            ),
        forall|i: int|
            0 <= i < handlers::asset_headers(size).len() ==> is_visible(
                (#[trigger] handlers::asset_headers(size)[i]).1,
            ),
{
    reveal_strlit("application/vnd.sqlite3");
    reveal_strlit("application/octet-stream");
    dispositions_are_visible(name);
    decimals_read_back(size as nat);
    assert(is_visible(text::decimal(size as nat)));
    assert(is_visible("application/vnd.sqlite3"@));
    assert(is_visible("application/octet-stream"@));
}

/// A visible text, sent as a header value byte by byte, is read as the same
/// text.
pub proof fn visible_texts_survive_headers(s: Seq<char>)
    requires
        is_visible(s),
    ensures
        headers::is_header_text(s.map_values(|c: char| c as u8)),
        headers::ascii_chars(s.map_values(|c: char| c as u8)) == s,
{
    let bytes = s.map_values(|c: char| c as u8);
    assert forall|i: int| 0 <= i < bytes.len() implies (32 <= #[trigger] bytes[i] < 127
        || bytes[i] == 9) by {
        assert(' ' <= s[i] <= '~');
    }
    assert forall|i: int| 0 <= i < s.len() implies #[trigger] headers::ascii_chars(bytes)[i]
        == s[i] by {
        assert(' ' <= s[i] <= '~');
    }
    assert(headers::ascii_chars(bytes) =~= s);
}

/// The version in an old-style path is made of digits and dots alone.
pub proof fn path_versions_are_clean(version: Seq<char>)
    ensures
        forall|i: int|
            0 <= i < paths::version_view(version).len() ==> paths::is_version_char(
                #[trigger] paths::version_view(version)[i],
            ),
{
    let keep = |c: char| paths::is_version_char(c);
    assert forall|i: int|
        0 <= i < paths::version_view(version).len() implies paths::is_version_char(
        #[trigger] paths::version_view(version)[i],
    ) by {
        version.lemma_filter_pred(keep, i);
    }
}

/// Digits and dots stay as they are; cleaning twice is cleaning once.
pub proof fn clean_versions_stay(version: Seq<char>)
    ensures
        (forall|i: int| 0 <= i < version.len() ==> paths::is_version_char(#[trigger] version[i]))
            ==> paths::version_view(version) == version,
        paths::version_view(paths::version_view(version)) == paths::version_view(version),
{
    let keep = |c: char| paths::is_version_char(c);
    if forall|i: int| 0 <= i < version.len() ==> paths::is_version_char(#[trigger] version[i]) {
        lemma_filter_fixpoint(version, keep);
    }
    path_versions_are_clean(version);
    lemma_filter_fixpoint(paths::version_view(version), keep);
}

/// No slash occurs in the text.
pub open spec fn slash_free(s: Seq<char>) -> bool {
    forall|i: int| 0 <= i < s.len() ==> #[trigger] s[i] != '/'
}

proof fn lemma_components_are_slash_free(path: Seq<char>)
    ensures
        paths::components(path).len() >= 1,
        forall|i: int|
            0 <= i < paths::components(path).len() ==> slash_free(
                #[trigger] paths::components(path)[i],
            ),
    decreases path.len(),
{
    if path.len() > 0 {
        lemma_components_are_slash_free(path.drop_last());
        let front = paths::components(path.drop_last());
        assert(slash_free(front[front.len() - 1]));
    }
}

proof fn lemma_components_of_one(s: Seq<char>)
    requires
        slash_free(s),
    ensures
        paths::components(s) == seq![s],
    decreases s.len(),
{
    if s.len() > 0 {
        lemma_components_of_one(s.drop_last());
        assert(s.drop_last().push(s.last()) == s);
        let front = paths::components(s.drop_last());
        assert(front.drop_last().push(front.last().push(s.last())) =~= seq![s]);
    } else {
        assert(s == Seq::<char>::empty());
    }
}

proof fn lemma_components_append(path: Seq<char>, s: Seq<char>)
    requires
        slash_free(s),
    ensures
        paths::components(path.push('/') + s) == paths::components(path).push(s),
    decreases s.len(),
{
    let whole = path.push('/') + s;
    if s.len() == 0 {
        assert(whole == path.push('/'));
        assert(whole.drop_last() == path);
        assert(s == Seq::<char>::empty());
    } else {
        lemma_components_append(path, s.drop_last());
        assert(whole.drop_last() == path.push('/') + s.drop_last());
        assert(whole.last() == s.last());
        let front = paths::components(whole.drop_last());
        assert(front.drop_last() == paths::components(path));
        assert(s.drop_last().push(s.last()) == s);
    }
}

proof fn lemma_components_of_joined(parts: Seq<Seq<char>>)
    requires
        parts.len() > 0,
        forall|i: int| 0 <= i < parts.len() ==> slash_free(#[trigger] parts[i]),
    ensures
        paths::components(paths::joined(parts)) == parts,
    decreases parts.len(),
{
    if parts.len() == 1 {
        lemma_components_of_one(parts[0]);
        assert(seq![parts[0]] =~= parts);
    } else {
        assert forall|i: int| 0 <= i < parts.drop_last().len() implies slash_free(
            #[trigger] parts.drop_last()[i],
        ) by {
            assert(slash_free(parts[i]));
        }
        lemma_components_of_joined(parts.drop_last());
        assert(slash_free(parts[parts.len() - 1]));
        lemma_components_append(paths::joined(parts.drop_last()), parts.last());
        assert(parts.drop_last().push(parts.last()) == parts);
    }
}

/// Joining the components of a path gives the path back.
pub proof fn components_join_to_the_path(path: Seq<char>)
    ensures
        paths::joined(paths::components(path)) == path,
    decreases path.len(),
{
    if path.len() == 0 {
        assert(path == Seq::<char>::empty());
    } else {
        let rest = path.drop_last();
        components_join_to_the_path(rest);
        lemma_components_are_slash_free(rest);
        let front = paths::components(rest);
        assert(rest.push(path.last()) == path);
        if path.last() == '/' {
            let all = front.push(Seq::empty());
            assert(all.drop_last() == front);
            assert(paths::joined(all) == paths::joined(front).push('/') + Seq::<char>::empty());
        } else {
            let all = front.drop_last().push(front.last().push(path.last()));
            assert(all.drop_last() == front.drop_last());
            if front.len() == 1 {
                assert(paths::joined(all) == front[0].push(path.last()));
            } else {
                assert(paths::joined(all) == paths::joined(front.drop_last()).push('/')
                    + front.last().push(path.last()));
                assert(paths::joined(front) == paths::joined(front.drop_last()).push('/')
                    + front.last());
                assert(paths::joined(all) =~= paths::joined(front).push(path.last()));
            }
        }
    }
}

proof fn lemma_plain_components(path: Seq<char>)
    ensures
        forall|i: int|
            0 <= i < paths::plain_components(path).len() ==> paths::is_plain(
                #[trigger] paths::plain_components(path)[i],
            ) && slash_free(paths::plain_components(path)[i]),
{
    let keep = |c: Seq<char>| paths::is_plain(c);
    let all = paths::components(path);
    let kept = paths::plain_components(path);
    lemma_components_are_slash_free(path);
    assert forall|i: int| 0 <= i < kept.len() implies paths::is_plain(#[trigger] kept[i])
        && slash_free(kept[i]) by {
        all.lemma_filter_pred(keep, i);
        assert(kept.contains(kept[i]));
        all.lemma_filter_contains_rev(keep, kept[i]);
    }
}

/// The components of a sanitized path are the plain components of the path, in
/// order: none is empty, `.` or `..`. Only a path without any plain component
/// becomes empty.
pub proof fn sanitized_components_are_plain(path: Seq<char>)
    ensures
        paths::plain_components(path).len() > 0 ==> paths::components(paths::sanitized(path))
            == paths::plain_components(path),
        forall|i: int|
            0 <= i < paths::plain_components(path).len() ==> paths::is_plain(
                #[trigger] paths::plain_components(path)[i],
            ),
        paths::sanitized(path).len() == 0 <==> paths::plain_components(path).len() == 0,
{
    lemma_plain_components(path);
    let kept = paths::plain_components(path);
    if kept.len() > 0 {
        lemma_components_of_joined(kept);
        assert(paths::is_plain(kept[kept.len() - 1]));
    }
}

/// No `..` is left in a sanitized path.
pub proof fn sanitized_paths_do_not_climb(path: Seq<char>)
    ensures
        forall|i: int|
            0 <= i < paths::components(paths::sanitized(path)).len() ==> #[trigger] paths::components(
                paths::sanitized(path),
            )[i] != ".."@,
{
    sanitized_components_are_plain(path);
    let clean = paths::sanitized(path);
    if paths::plain_components(path).len() == 0 {
        assert(clean == Seq::<char>::empty());
        assert(paths::components(clean) == seq![Seq::<char>::empty()]);
        reveal_strlit("..");
    }
}

/// A sanitized path is relative: it does not begin with a slash.
pub proof fn sanitized_paths_are_relative(path: Seq<char>)
    ensures
        paths::sanitized(path).len() > 0 ==> paths::sanitized(path)[0] != '/',
{
    lemma_plain_components(path);
    let kept = paths::plain_components(path);
    if kept.len() > 0 {
        lemma_joined_begins(kept);
        assert(paths::is_plain(kept[0]) && slash_free(kept[0]));
        assert(paths::joined(kept).subrange(0, kept[0].len() as int)[0] == kept[0][0]);
    }
}

proof fn lemma_joined_begins(parts: Seq<Seq<char>>)
    requires
        parts.len() > 0,
    ensures
        parts[0].is_prefix_of(paths::joined(parts)),
    decreases parts.len(),
{
    if parts.len() > 1 {
        lemma_joined_begins(parts.drop_last());
        let front = paths::joined(parts.drop_last());
        let whole = paths::joined(parts);
        assert(whole.subrange(0, parts[0].len() as int) =~= front.subrange(
            0,
            parts[0].len() as int,
        ));
    } else {
        assert(parts[0].subrange(0, parts[0].len() as int) =~= parts[0]);
    }
}

/// A path whose components are all plain stays as it is; sanitizing twice is
/// sanitizing once.
pub proof fn clean_paths_stay(path: Seq<char>)
    ensures
        (forall|i: int|
            0 <= i < paths::components(path).len() ==> paths::is_plain(
                #[trigger] paths::components(path)[i],
            )) ==> paths::sanitized(path) == path,
        paths::sanitized(paths::sanitized(path)) == paths::sanitized(path),
{
    let keep = |c: Seq<char>| paths::is_plain(c);
    if forall|i: int|
        0 <= i < paths::components(path).len() ==> paths::is_plain(
            #[trigger] paths::components(path)[i],
        ) {
        lemma_filter_fixpoint(paths::components(path), keep);
        components_join_to_the_path(path);
    }
    sanitized_components_are_plain(path);
    let kept = paths::plain_components(path);
    let clean = paths::sanitized(path);
    if kept.len() > 0 {
        lemma_filter_fixpoint(kept, keep);
    } else {
        assert(clean == Seq::<char>::empty());
        let one = seq![Seq::<char>::empty()];
        assert(paths::components(clean) == one);
        reveal(Seq::filter);
        assert(one.drop_last() == Seq::<Seq<char>>::empty());
        assert(one.drop_last().filter(keep) == Seq::<Seq<char>>::empty());
        assert(one.filter(keep) == Seq::<Seq<char>>::empty());
    }
}

/// The version part of an old-style path is the digits and dots of the version,
/// unless these come to `.` or `..`: then it is empty.
pub proof fn path_versions_do_not_climb(version: Seq<char>)
    ensures
        ({
            let v = paths::version_view(version);
            paths::sanitized(v) == if v == "."@ || v == ".."@ {
                Seq::<char>::empty()
            } else {
                v
            }
        }),
{
    let v = paths::version_view(version);
    let keep = |c: Seq<char>| paths::is_plain(c);
    path_versions_are_clean(version);
    assert(slash_free(v)) by {
        assert forall|i: int| 0 <= i < v.len() implies #[trigger] v[i] != '/' by {
            assert(paths::is_version_char(v[i]));
        }
    }
    lemma_components_of_one(v);
    let none = Seq::<Seq<char>>::empty();
    reveal(Seq::filter);
    assert(none.filter(keep) == none);
    text::lemma_filter_push(none, v, keep);
    assert(none.push(v) =~= seq![v]);
    if v.len() == 0 {
        assert(v == Seq::<char>::empty());
    }
}

/// What an old-style path opens lies below the archive root: no part begins
/// with a slash, and no part has a component `..`.
pub proof fn old_style_paths_stay_inside(
    lower: Seq<char>,
    version: Seq<char>,
    file_path: Seq<char>,
)
    requires
        handlers::v7_target_view(lower, version, file_path) is Some,
    ensures
        ({
            let parts = handlers::v7_target_view(lower, version, file_path)->0;
            &&& parts.len() == 5
            &&& forall|i: int|
                0 <= i < parts.len() ==> (#[trigger] parts[i]).len() == 0 || parts[i][0] != '/'
            &&& parts[4].len() > 0
            &&& forall|i: int, j: int|
                0 <= i < parts.len() && 0 <= j < paths::components(parts[i]).len()
                    ==> #[trigger] paths::components(parts[i])[j] != ".."@
        }),
{
    reveal_strlit("Android");
    reveal_strlit("iOS");
    reveal_strlit("package");
    reveal_strlit("microdl");
    reveal_strlit("..");
    sanitized_paths_are_relative(file_path);
    sanitized_paths_do_not_climb(file_path);
    sanitized_paths_are_relative(paths::version_view(version));
    sanitized_paths_do_not_climb(paths::version_view(version));
    let parts = handlers::v7_target_view(lower, version, file_path)->0;
    assert forall|i: int, j: int|
        0 <= i < parts.len() && 0 <= j < paths::components(
            parts[i],
        ).len() implies #[trigger] paths::components(parts[i])[j] != ".."@ by {
        if i != 2 && i != 4 {
            assert(slash_free(parts[i]));
            lemma_components_of_one(parts[i]);
            assert(parts[i].len() > 2);
        }
    }
}

// ---- Versions ----

/// The decimal form of a number is a number again, and the same.
pub proof fn decimals_read_back(n: nat)
    ensures
        catalog::is_number(text::decimal(n)),
        catalog::digits_value(text::decimal(n)) == n,
    decreases n,
{
    if n < 10 {
        assert(text::decimal(n).drop_last() == Seq::<char>::empty());
        assert(catalog::digits_value(Seq::<char>::empty()) == 0);
    } else {
        decimals_read_back(n / 10);
        assert(text::decimal(n).drop_last() == text::decimal(n / 10));
        let all = text::decimal(n);
        assert forall|i: int| 0 <= i < all.len() implies '0' <= #[trigger] all[i] <= '9' by {
            if i < all.len() - 1 {
                assert(all[i] == text::decimal(n / 10)[i]);
            }
        }
    }
}

/// Different numbers have different decimal forms.
pub proof fn decimals_are_distinct(a: nat, b: nat)
    requires
        text::decimal(a) == text::decimal(b),
    ensures
        a == b,
{
    decimals_read_back(a);
    decimals_read_back(b);
}

/// A version that is written can be read, and is the same.
pub proof fn versions_read_back(v: GameVersion)
    ensures
        catalog::writes_version(v.label_view(), v),
{
    reveal_strlit(".");
    let major = text::decimal(v.major as nat);
    let minor = text::decimal(v.minor as nat);
    let label = v.label_view();
    decimals_read_back(v.major as nat);
    decimals_read_back(v.minor as nat);
    assert(label.take(major.len() as int) =~= major);
    assert(label.skip(major.len() as int + 1) =~= minor);
    assert(catalog::writes_at(label, major.len() as int, v));
}

/// A text writes at most one version.
pub proof fn labels_are_unambiguous(label: Seq<char>, v: GameVersion, w: GameVersion)
    requires
        catalog::writes_version(label, v),
        catalog::writes_version(label, w),
    ensures
        v == w,
{
    let i = choose|i: int| catalog::writes_at(label, i, v);
    let j = choose|j: int| catalog::writes_at(label, j, w);
    catalog::lemma_dot_is_first(label, i, v, j);
}

/// Different versions are written differently.
pub proof fn labels_are_distinct(v: GameVersion, w: GameVersion)
    requires
        v.label_view() == w.label_view(),
    ensures
        v == w,
{
    versions_read_back(v);
    versions_read_back(w);
    labels_are_unambiguous(v.label_view(), v, w);
}

/// Every platform that a request can name has a directory in the archive, which
/// is also the one that old-style paths lead to under the platform's name.
pub proof fn known_platforms_have_a_directory(platform: u8)
    requires
        handlers::platform_index(platform) is Some,
    ensures
        layout::platform_dir_at_view(handlers::platform_index(platform)->0) is Some,
        platform == 1 ==> layout::platform_dir_at_view(handlers::platform_index(platform)->0)
            == paths::platform_dir_view("ios"@),
        platform == 2 ==> layout::platform_dir_at_view(handlers::platform_index(platform)->0)
            == paths::platform_dir_view("android"@),
{
    reveal_strlit("ios");
    reveal_strlit("android");
    assert("ios"@.len() != "android"@.len());
}

/// The written form of a version stays as it is in an old-style path.
pub proof fn labels_are_clean(v: GameVersion)
    ensures
        paths::sanitized(paths::version_view(v.label_view())) == v.label_view(),
{
    reveal_strlit(".");
    reveal_strlit("..");
    let major = text::decimal(v.major as nat);
    let minor = text::decimal(v.minor as nat);
    let label = v.label_view();
    decimals_read_back(v.major as nat);
    decimals_read_back(v.minor as nat);
    assert forall|i: int| 0 <= i < label.len() implies paths::is_version_char(
        #[trigger] label[i],
    ) by {
        if i < major.len() {
            assert(label[i] == major[i]);
        } else if i > major.len() {
            assert(label[i] == minor[i - major.len() - 1]);
        }
    }
    clean_versions_stay(label);
    path_versions_do_not_climb(label);
    assert(label.len() >= 3);
}

/// An old-style path for a version leads to the place of that version's
/// micro-download file in the archive.
pub proof fn old_style_paths_reach_the_file(
    lower: Seq<char>,
    v: GameVersion,
    file_path: Seq<char>,
)
    requires
        handlers::v7_target_view(lower, v.label_view(), file_path) is Some,
    ensures
        paths::joined(handlers::v7_target_view(lower, v.label_view(), file_path)->0)
            == layout::micro_file_view(
            layout::package_dir_view(paths::platform_dir_view(lower)->0, v),
            paths::sanitized(file_path),
        ),
{
    reveal_strlit("/package/");
    reveal_strlit("package");
    reveal_strlit("/microdl/");
    reveal_strlit("microdl");
    labels_are_clean(v);
    let dir = paths::platform_dir_view(lower)->0;
    let label = v.label_view();
    let file = paths::sanitized(file_path);
    let parts = handlers::v7_target_view(lower, label, file_path)->0;
    let p4 = parts.drop_last();
    let p3 = p4.drop_last();
    let p2 = p3.drop_last();
    let p1 = p2.drop_last();
    assert(paths::joined(p1) == dir);
    assert(paths::joined(p2) == dir.push('/') + "package"@);
    assert(paths::joined(p3) == paths::joined(p2).push('/') + label);
    assert(paths::joined(p4) == paths::joined(p3).push('/') + "microdl"@);
    assert(paths::joined(parts) == paths::joined(p4).push('/') + file);
    assert(paths::joined(p3) =~= dir + "/package/"@ + label);
    assert(paths::joined(parts) =~= dir + "/package/"@ + label + "/microdl/"@ + file);
}

/// Of two different versions exactly one comes after the other, and the order
/// carries over.
pub proof fn versions_are_ordered(u: GameVersion, v: GameVersion, w: GameVersion)
    ensures
        !u.is_after(u),
        u != v ==> u.is_after(v) != v.is_after(u),
        u.is_after(v) && v.is_after(w) ==> u.is_after(w),
{
}

/// An archive has one last version.
pub proof fn the_latest_version_is_one(
    versions: Seq<GameVersion>,
    v: GameVersion,
    w: GameVersion,
)
    requires
        catalog::is_latest(versions, v),
        catalog::is_latest(versions, w),
    ensures
        v == w,
{
    let i = versions.index_of(v);
    let j = versions.index_of(w);
    assert(!versions[i].is_after(w));
    assert(!versions[j].is_after(v));
}

/// A client that is behind is led up to the last version; a client that is
/// not gets nothing.
pub proof fn updates_lead_to_the_latest(
    available: Seq<GameVersion>,
    current: GameVersion,
    updates: Seq<GameVersion>,
    latest: GameVersion,
)
    requires
        catalog::is_update_list(available, current, updates),
        catalog::is_latest(available, latest),
    ensures
        latest.is_after(current) ==> updates.len() > 0 && updates.last() == latest,
        !latest.is_after(current) ==> updates.len() == 0,
{
    if latest.is_after(current) {
        assert(updates.contains(latest));
        let last = updates[updates.len() - 1];
        assert(updates.contains(last));
        let i = available.index_of(last);
        assert(!available[i].is_after(latest));
        let j = updates.index_of(latest);
        if j < updates.len() - 1 {
            assert(updates[updates.len() - 1].is_after(updates[j]));
        }
    } else if updates.len() > 0 {
        assert(updates.contains(updates[0]));
        let i = available.index_of(updates[0]);
        assert(!available[i].is_after(latest));
    }
}

/// Two ascending lists with the same versions are the same list, so what a
/// client is told depends on what is available and on nothing else.
pub proof fn update_lists_are_unique(
    available: Seq<GameVersion>,
    current: GameVersion,
    a: Seq<GameVersion>,
    b: Seq<GameVersion>,
)
    requires
        catalog::is_update_list(available, current, a),
        catalog::is_update_list(available, current, b),
    ensures
        a == b,
{
    assert forall|v: GameVersion| #[trigger] a.contains(v) <==> b.contains(v) by {}
    lemma_ascending_lists_agree(a, b);
}

proof fn lemma_ascending_lists_agree(a: Seq<GameVersion>, b: Seq<GameVersion>)
    requires
        catalog::is_ascending(a),
        catalog::is_ascending(b),
        forall|v: GameVersion| #[trigger] a.contains(v) <==> b.contains(v),
    ensures
        a == b,
    decreases a.len(),
{
    if a.len() == 0 {
        if b.len() > 0 {
            assert(b.contains(b[0]));
            assert(a.contains(b[0]));
        }
        assert(a =~= b);
    } else {
        assert(a.contains(a.last()));
        assert(b.len() > 0);
        assert(b.contains(b.last()));
        let i = a.index_of(b.last());
        let j = b.index_of(a.last());
        assert(a.contains(b.last()));
        if i < a.len() - 1 && j < b.len() - 1 {
            assert(a[a.len() - 1].is_after(a[i]));
            assert(b[b.len() - 1].is_after(b[j]));
        }
        assert(a.last() == b.last());
        let x = a.drop_last();
        let y = b.drop_last();
        assert forall|v: GameVersion| #[trigger] x.contains(v) <==> y.contains(v) by {
            if x.contains(v) {
                let k = x.index_of(v);
                assert(a[k] == v);
                assert(a.contains(v));
                assert(a[a.len() - 1].is_after(a[k]));
                let m = b.index_of(v);
                assert(b[m] == v);
                assert(y[m] == v);
            }
            if y.contains(v) {
                let k = y.index_of(v);
                assert(b[k] == v);
                assert(b.contains(v));
                assert(b[b.len() - 1].is_after(b[k]));
                let m = a.index_of(v);
                assert(a.contains(v));
                assert(a[m] == v);
                assert(x[m] == v);
            }
        }
        lemma_ascending_lists_agree(x, y);
        assert(a =~= x.push(a.last()));
        assert(b =~= y.push(b.last()));
    }
}

// ---- The server itself ----

proof fn lemma_trimmed_start(s: Seq<char>)
    ensures
        text::trimmed_start(s).len() > 0 ==> !text::is_white_space(text::trimmed_start(s)[0]),
    decreases s.len(),
{
    if s.len() > 0 && text::is_white_space(s[0]) {
        lemma_trimmed_start(s.drop_first());
    }
}

proof fn lemma_trimmed_end(s: Seq<char>)
    ensures
        text::trimmed_end(s).is_prefix_of(s),
        text::trimmed_end(s).len() > 0 ==> !text::is_white_space(text::trimmed_end(s).last()),
    decreases s.len(),
{
    if s.len() > 0 && text::is_white_space(s.last()) {
        lemma_trimmed_end(s.drop_last());
        let t = text::trimmed_end(s);
        assert(s.drop_last().subrange(0, t.len() as int) =~= s.subrange(0, t.len() as int));
    } else {
        assert(s.subrange(0, s.len() as int) =~= s);
    }
}

/// The commit that the server reports is never empty and has no white space
/// around it.
pub proof fn reported_commits_are_trimmed(output: Option<CommandOutput>)
    ensures
        server::commit_view(output).len() > 0,
        !text::is_white_space(server::commit_view(output)[0]),
        !text::is_white_space(server::commit_view(output).last()),
{
    reveal_strlit("unknown");
    if let Some(o) = output {
        if let Some(commit) = server::printed_text(o) {
            let start = text::trimmed_start(vstd::utf8::decode_utf8(o.stdout@));
            lemma_trimmed_start(vstd::utf8::decode_utf8(o.stdout@));
            lemma_trimmed_end(start);
            if commit.len() > 0 {
                assert(commit == start.subrange(0, commit.len() as int));
                assert(commit[0] == start[0]);
            }
        }
    }
}

} // verus!
