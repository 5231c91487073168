//! How the server is set up, and what it says of itself.

use crate::config::Endpoint;
use crate::handlers;
use crate::laws::texts;
use crate::reply;
use crate::server;
use crate::server::{CommandOutput, Method, Route, ServeArgs};
use crate::text;
use crate::urls;
use vstd::prelude::*;
use vstd::utf8::*;

verus! {

/// Bodies are read up to 64 MiB, files are streamed in pieces of 256 KiB, and
/// the statuses are those of HTTP.
pub proof fn limits_and_statuses()
    ensures
        server::BODY_LIMIT == 64 * 1024 * 1024,
        handlers::STREAM_CHUNK == 256 * 1024,
        reply::OK == 200,
        reply::BAD_REQUEST == 400,
        reply::NOT_FOUND == 404,
        reply::INTERNAL_SERVER_ERROR == 500,
        reply::SERVICE_UNAVAILABLE == 503,
{
}

// ---- Routes ----

/// The routes are listed completely, and each once.
pub proof fn all_routes_are_listed(routes: Vec<Route>, route: Route)
    requires
        call_ensures(server::routes, (), routes),
    ensures
        routes@.contains(route),
        forall|i: int, j: int|
            0 <= i < j < routes@.len() ==> #[trigger] routes@[i] != #[trigger] routes@[j],
{
    crate::laws::routes_are_complete(route);
}

/// Each route has its path. The archive's files are served under the path that
/// links lead to.
pub proof fn routes_have_their_paths(route: Route, template: &'static str, prefix: &'static str)
    requires
        call_ensures(Route::template, (&route,), template),
        call_ensures(urls::archive_prefix, (), prefix),
    ensures
        route == Route::Api(Endpoint::PublicInfo) ==> template@ == "/api/publicinfo"@,
        route == Route::Api(Endpoint::Update) ==> template@ == "/api/v1/update"@,
        route == Route::Api(Endpoint::Batch) ==> template@ == "/api/v1/batch"@,
        route == Route::Api(Endpoint::Download) ==> template@ == "/api/v1/download"@,
        route == Route::Api(Endpoint::GetDb) ==> template@ == "/api/v1/getdb/{name}"@,
        route == Route::Api(Endpoint::GetFile) ==> template@ == "/api/v1/getfile"@,
        route == Route::Api(Endpoint::ReleaseInfo) ==> template@ == "/api/v1/release_info"@,
        route == Route::LegacyMicroDownload ==> template@
            == "/v7/micro_download/{platform}/{version}/{*file_path}"@,
        route == Route::Health ==> template@ == "/health"@,
        route == Route::ArchiveFiles ==> template@ == "/archive-root"@,
        prefix@ == "/archive-root"@,
{
}

/// The four endpoints whose requests have a body take `POST`, every other route
/// takes `GET`.
pub proof fn requests_with_a_body_are_posted(route: Route, method: Method)
    requires
        call_ensures(Route::method, (&route,), method),
    ensures
        method == Method::Post <==> route == Route::Api(Endpoint::Update) || route == Route::Api(
            Endpoint::Batch,
        ) || route == Route::Api(Endpoint::Download) || route == Route::Api(Endpoint::GetFile),
{
}

/// Other origins are let in for databases alone, and only where this was asked
/// for, which by default it is not.
pub proof fn other_origins_get_databases_on_demand(
    route: Route,
    args: ServeArgs,
    yes: bool,
    default: ServeArgs,
)
    requires
        call_ensures(Route::has_wildcard_cors, (&route, &args), yes),
        call_ensures(<ServeArgs as Default>::default, (), default),
    ensures
        yes <==> args.getdb_cors && route == Route::Api(Endpoint::GetDb),
        !default.getdb_cors,
{
}

// ---- The commit ----

/// What a successful command printed is reported from its first to its last
/// character that is not white space.
pub proof fn the_printed_commit_is_reported(
    output: CommandOutput,
    from: int,
    to: int,
    commit: String,
)
    requires
        call_ensures(server::git_commit, (Some(output),), commit),
        output.success,
        valid_utf8(output.stdout@),
        0 <= from < to <= decode_utf8(output.stdout@).len(),
        forall|i: int|
            0 <= i < from ==> text::is_white_space(#[trigger] decode_utf8(output.stdout@)[i]),
        forall|i: int|
            to <= i < decode_utf8(output.stdout@).len() ==> text::is_white_space(
                #[trigger] decode_utf8(output.stdout@)[i],
            ),
        !text::is_white_space(decode_utf8(output.stdout@)[from]),
        !text::is_white_space(decode_utf8(output.stdout@)[to - 1]),
    ensures
        commit@ == decode_utf8(output.stdout@).subrange(from, to),
{
    texts::the_inner_text_is_kept(decode_utf8(output.stdout@), from, to);
}

/// Where the command could not be run, failed, printed what is not text or
/// printed white space alone, the commit is unknown.
pub proof fn other_commits_are_unknown(output: Option<CommandOutput>, commit: String)
    requires
        call_ensures(server::git_commit, (output,), commit),
        output matches Some(o) ==> !o.success || !valid_utf8(o.stdout@) || forall|i: int|
            0 <= i < decode_utf8(o.stdout@).len() ==> text::is_white_space(
                #[trigger] decode_utf8(o.stdout@)[i],
            ),
    ensures
        commit@ == "unknown"@,
{
    if let Some(o) = output {
        if o.success && valid_utf8(o.stdout@) {
            let n = decode_utf8(o.stdout@).len() as int;
            texts::the_inner_text_is_kept(decode_utf8(o.stdout@), n, n);
        }
    }
}

// ---- Settings from the environment ----

/// What is set counts, and each setting has its default.
pub proof fn settings_have_defaults<P>(
    file: Option<String>,
    path: String,
    address: Option<String>,
    listens: String,
    environment: Option<P>,
    configured: Option<P>,
    root: Option<P>,
    filter: &'static str,
)
    requires
        call_ensures(server::config_file, (file,), path),
        call_ensures(server::listen_address, (address,), listens),
        call_ensures(server::archive_root::<P>, (environment, configured), root),
        call_ensures(server::default_log_filter, (), filter),
    ensures
        file matches Some(f) ==> path@ == f@,
        file is None ==> path@ == "config.toml"@,
        address matches Some(a) ==> listens@ == a@,
        address is None ==> listens@ == "127.0.0.1:8000"@,
        environment matches Some(p) ==> root == Some(p),
        environment is None ==> root == configured,
        filter@ == "n4dlapi=info"@,
{
}

} // verus!
