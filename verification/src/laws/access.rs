//! Who gets in, by the settings of each endpoint and the paths of requests.

use crate::config;
use crate::config::{Config, Endpoint, Visibility};
use crate::headers;
use crate::reply::{Body, Reply};
use crate::server;
use crate::server::Route;
use crate::urls;
use axum::http::{HeaderMap, HeaderValue};
use vstd::prelude::*;

verus! {

proof fn lemma_paths_differ()
    ensures
        "/api/publicinfo"@.len() == 15,
        "/api/v1/update"@.len() == 14,
        "/api/v1/batch"@.len() == 13,
        "/api/v1/download"@.len() == 16,
        "/api/v1/getfile"@.len() == 15,
        "/api/v1/release_info"@.len() == 20,
        "/api/v1/getdb/"@.len() == 14,
        "/api/publicinfo"@[8] == 'l',
        "/api/v1/update"@[8] == 'u',
        "/api/v1/batch"@[8] == 'b',
        "/api/v1/download"@[8] == 'd',
        "/api/v1/getfile"@[8] == 'g',
        "/api/v1/getfile"@[11] == 'f',
        "/api/v1/release_info"@[8] == 'r',
        "/api/v1/getdb/"@[8] == 'g',
        "/api/v1/getdb/"@[11] == 'd',
{
    reveal_strlit("/api/publicinfo");
    reveal_strlit("/api/v1/update");
    reveal_strlit("/api/v1/batch");
    reveal_strlit("/api/v1/download");
    reveal_strlit("/api/v1/getfile");
    reveal_strlit("/api/v1/release_info");
    reveal_strlit("/api/v1/getdb/");
}

/// An endpoint serves its own path and no other; the database endpoint serves
/// every path below its own.
pub proof fn paths_belong_to_one_endpoint(path: &str, name: Seq<char>, found: Option<Endpoint>)
    requires
        call_ensures(config::find_endpoint, (path,), found),
    ensures
        found == Some(Endpoint::PublicInfo) <==> path@ == "/api/publicinfo"@,
        found == Some(Endpoint::Update) <==> path@ == "/api/v1/update"@,
        found == Some(Endpoint::Batch) <==> path@ == "/api/v1/batch"@,
        found == Some(Endpoint::Download) <==> path@ == "/api/v1/download"@,
        found == Some(Endpoint::GetFile) <==> path@ == "/api/v1/getfile"@,
        found == Some(Endpoint::ReleaseInfo) <==> path@ == "/api/v1/release_info"@,
        path@ == "/api/v1/getdb/"@ + name ==> found == Some(Endpoint::GetDb),
        found == Some(Endpoint::GetDb) ==> path@ == "/api/v1/getdb/"@ + path@.skip(
            "/api/v1/getdb/"@.len() as int,
        ),
        found == config::endpoint_at(path@),
{
    lemma_paths_differ();
    let head = "/api/v1/getdb/"@;
    if path@ == head + name {
        assert(path@[8] == 'g' && path@[11] == 'd');
        assert(head =~= path@.subrange(0, head.len() as int));
    }
    if found == Some(Endpoint::GetDb) {
        assert(path@ =~= head + path@.skip(head.len() as int));
    }
}

/// Each endpoint has a setting of its own.
pub proof fn settings_are_kept_apart(v: Visibility, endpoint: Endpoint, set: Option<bool>)
    requires
        call_ensures(Visibility::get, (&v, endpoint), set),
    ensures
        endpoint == Endpoint::PublicInfo ==> set == v.publicinfo,
        endpoint == Endpoint::Update ==> set == v.update,
        endpoint == Endpoint::Batch ==> set == v.batch,
        endpoint == Endpoint::Download ==> set == v.download,
        endpoint == Endpoint::GetDb ==> set == v.getdb,
        endpoint == Endpoint::GetFile ==> set == v.getfile,
        endpoint == Endpoint::ReleaseInfo ==> set == v.release_info,
{
}

/// With a shared key configured, each endpoint is judged by its own setting, in
/// both directions: set to public it answers every request, set to closed it
/// answers exactly the requests that send the key, and where nothing is set the
/// default decides.
pub proof fn each_endpoint_is_judged_by_its_own_setting(
    config: Config,
    name: Seq<char>,
    key: Option<Seq<char>>,
)
    requires
        config.shared_key@.len() > 0,
    ensures
        config.visibility.publicinfo == Some(true) ==> config.grants("/api/publicinfo"@, key),
        config.visibility.publicinfo == Some(false) ==> (config.grants("/api/publicinfo"@, key)
            <==> key == Some(config.shared_key@)),
        config.visibility.publicinfo is None ==> (config.grants("/api/publicinfo"@, key)
            <==> config.public || key == Some(config.shared_key@)),
        config.visibility.update == Some(true) ==> config.grants("/api/v1/update"@, key),
        config.visibility.update == Some(false) ==> (config.grants("/api/v1/update"@, key)
            <==> key == Some(config.shared_key@)),
        config.visibility.update is None ==> (config.grants("/api/v1/update"@, key)
            <==> config.public || key == Some(config.shared_key@)),
        config.visibility.batch == Some(true) ==> config.grants("/api/v1/batch"@, key),
        config.visibility.batch == Some(false) ==> (config.grants("/api/v1/batch"@, key)
            <==> key == Some(config.shared_key@)),
        config.visibility.batch is None ==> (config.grants("/api/v1/batch"@, key)
            <==> config.public || key == Some(config.shared_key@)),
        config.visibility.download == Some(true) ==> config.grants("/api/v1/download"@, key),
        config.visibility.download == Some(false) ==> (config.grants("/api/v1/download"@, key)
            <==> key == Some(config.shared_key@)),
        config.visibility.download is None ==> (config.grants("/api/v1/download"@, key)
            <==> config.public || key == Some(config.shared_key@)),
        config.visibility.getfile == Some(true) ==> config.grants("/api/v1/getfile"@, key),
        config.visibility.getfile == Some(false) ==> (config.grants("/api/v1/getfile"@, key)
            <==> key == Some(config.shared_key@)),
        config.visibility.getfile is None ==> (config.grants("/api/v1/getfile"@, key)
            <==> config.public || key == Some(config.shared_key@)),
        config.visibility.release_info == Some(true) ==> config.grants(
            "/api/v1/release_info"@,
            key,
        ),
        config.visibility.release_info == Some(false) ==> (config.grants(
            "/api/v1/release_info"@,
            key,
        ) <==> key == Some(config.shared_key@)),
        config.visibility.release_info is None ==> (config.grants("/api/v1/release_info"@, key)
            <==> config.public || key == Some(config.shared_key@)),
        config.visibility.getdb == Some(true) ==> config.grants("/api/v1/getdb/"@ + name, key),
        config.visibility.getdb == Some(false) ==> (config.grants("/api/v1/getdb/"@ + name, key)
            <==> key == Some(config.shared_key@)),
        config.visibility.getdb is None ==> (config.grants("/api/v1/getdb/"@ + name, key)
            <==> config.public || key == Some(config.shared_key@)),
{
    lemma_paths_differ();
    let head = "/api/v1/getdb/"@;
    let path = head + name;
    assert(path[8] == 'g' && path[11] == 'd');
    assert(head =~= path.subrange(0, head.len() as int));
}

/// A path of no endpoint goes by the default.
pub proof fn other_paths_go_by_the_default(config: Config, path: Seq<char>, key: Option<Seq<char>>)
    requires
        config.shared_key@.len() > 0,
        path != "/api/publicinfo"@,
        path != "/api/v1/update"@,
        path != "/api/v1/batch"@,
        path != "/api/v1/download"@,
        path != "/api/v1/getfile"@,
        path != "/api/v1/release_info"@,
        !"/api/v1/getdb/"@.is_prefix_of(path),
    ensures
        config.grants(path, key) <==> config.public || key == Some(config.shared_key@),
{
}

/// Two configurations that agree on the default, on the key and on the setting
/// of one endpoint treat the requests for it alike, whatever they say of the
/// other endpoints.
pub proof fn other_settings_do_not_matter(a: Config, b: Config, path: Seq<char>, key: Option<
    Seq<char>,
>)
    requires
        a.public == b.public,
        a.shared_key@ == b.shared_key@,
        path == "/api/publicinfo"@ ==> a.visibility.publicinfo == b.visibility.publicinfo,
        path == "/api/v1/update"@ ==> a.visibility.update == b.visibility.update,
        path == "/api/v1/batch"@ ==> a.visibility.batch == b.visibility.batch,
        path == "/api/v1/download"@ ==> a.visibility.download == b.visibility.download,
        path == "/api/v1/getfile"@ ==> a.visibility.getfile == b.visibility.getfile,
        path == "/api/v1/release_info"@ ==> a.visibility.release_info == b.visibility.release_info,
        "/api/v1/getdb/"@.is_prefix_of(path) ==> a.visibility.getdb == b.visibility.getdb,
    ensures
        a.grants(path, key) <==> b.grants(path, key),
{
}

/// A request passes the check by its path and key exactly where the
/// configuration grants it; a refused one is told that nothing is there.
pub proof fn refusals_look_like_absence(
    config: Config,
    path: &str,
    key: Option<&str>,
    yes: bool,
    refusal: Option<Reply>,
)
    requires
        call_ensures(Config::is_accessible, (&config, path, key), yes),
        call_ensures(config::refusal_of, (&config, path, key), refusal),
    ensures
        key is None ==> (yes <==> config.grants(path@, None)),
        key is Some ==> (yes <==> config.grants(path@, Some(key->0@))),
        config.shared_key@.len() == 0 ==> yes,
        key is Some && key->0@ == config.shared_key@ ==> yes,
        refusal is None <==> yes,
        refusal matches Some(r) ==> {
            &&& r.status == 404
            &&& r.body matches Body::Error(e)
            &&& e.detail@ == "Not found."@
        },
{
    if let Some(r) = refusal {
        assert(r@.body is Error);
    }
}

/// The key that counts is the text of the header `dlapi-shared-key`, and a
/// refused request is told that nothing is there.
pub proof fn the_key_is_in_its_header(
    config: Config,
    path: &str,
    headers: HeaderMap<HeaderValue>,
    refusal: Option<Reply>,
)
    requires
        call_ensures(config::verify_api_access, (&config, path, &headers), refusal),
    ensures
        refusal is None <==> config.grants(
            path@,
            headers::header_text(headers, "dlapi-shared-key"@),
        ),
        refusal matches Some(r) ==> {
            &&& r.status == 404
            &&& r.body matches Body::Error(e)
            &&& e.detail@ == "Not found."@
        },
{
    if let Some(r) = refusal {
        assert(r@.body is Error);
    }
}

/// On its way to a route of the API a request is refused exactly where the
/// configuration does not grant it; the probe, the old-style files and the
/// archive's files are open to all.
pub proof fn routes_refuse_what_is_not_granted(
    route: Route,
    config: Config,
    path: &str,
    key: Option<&str>,
    headers: HeaderMap<HeaderValue>,
    by_key: Option<Reply>,
    by_headers: Option<Reply>,
    guarded: bool,
)
    requires
        call_ensures(server::admission, (&route, &config, path, key), by_key),
        call_ensures(server::check_request, (&route, &config, path, &headers), by_headers),
        call_ensures(Route::is_guarded, (&route,), guarded),
    ensures
        guarded <==> route is Api,
        route !is Api ==> by_key is None && by_headers is None,
        route is Api && key is None ==> (by_key is None <==> config.grants(path@, None)),
        route is Api && key is Some ==> (by_key is None <==> config.grants(
            path@,
            Some(key->0@),
        )),
        route is Api ==> (by_headers is None <==> config.grants(
            path@,
            headers::header_text(headers, "dlapi-shared-key"@),
        )),
        by_key matches Some(r) ==> {
            &&& r.status == 404
            &&& r.body matches Body::Error(e)
            &&& e.detail@ == "Not found."@
        },
        by_headers matches Some(r) ==> {
            &&& r.status == 404
            &&& r.body matches Body::Error(e)
            &&& e.detail@ == "Not found."@
        },
{
    if let Some(r) = by_key {
        assert(r@.body is Error);
    }
    if let Some(r) = by_headers {
        assert(r@.body is Error);
    }
}

/// The server calls itself public where endpoints are public by default or no
/// key is configured, and hands out the base URL as it is configured.
pub proof fn the_configuration_is_told_as_it_is(config: Config, yes: bool, base: Option<&str>)
    requires
        call_ensures(Config::is_public_accessible, (&config,), yes),
        call_ensures(Config::base_url, (&config,), base),
    ensures
        yes <==> config.public || config.shared_key@.len() == 0,
        config.base_url is None <==> base is None,
        config.base_url matches Some(b) ==> base->0@ == b@,
        config.base_url is None ==> config.base_url_view() is None,
        config.base_url matches Some(b) ==> config.base_url_view() == Some(b@),
        urls::option_view(base) == config.base_url_view(),
{
}

} // verus!
