//! How the server is set up: its routes, its limits and what it says of itself.

use crate::config::{refusal_of, verify_api_access, Config, Endpoint};
use crate::headers;
use crate::reply::Reply;
use crate::reply;
use crate::text::trim_text;
use crate::text;
use crate::urls::archive_prefix;
use crate::urls;
use axum::http::{HeaderMap, HeaderValue};
use vstd::prelude::*;
use vstd::utf8::*;

verus! {

/// The largest request body that is read, in bytes.
pub const BODY_LIMIT: usize = 67108864;

/// Arguments of the `serve` command, which is also the default.
#[derive(Debug, Clone, Copy)]
pub struct ServeArgs {
    /// Let browser-based tools fetch game databases from other origins, with
    /// wildcard CORS on `/api/v1/getdb/{name}`.
    pub getdb_cors: bool,
}

impl Default for ServeArgs {
    fn default() -> (args: ServeArgs)
        ensures
            args == (ServeArgs { getdb_cors: false }),
    {
        ServeArgs { getdb_cors: false }
    }
}

// ---- Routes ----

/// The method that a route takes.
#[derive(Debug, Clone, Copy, PartialEq, Eq, Structural)]
pub enum Method {
    Get,
    Post,
}

/// A route of the server.
#[derive(Debug, Clone, Copy, PartialEq, Eq, Structural)]
pub enum Route {
    /// An endpoint of the API.
    Api(Endpoint),
    /// The old path format of micro-download files.
    LegacyMicroDownload,
    /// The probe for monitoring.
    Health,
    /// The files of the archive, all below the route's path.
    ArchiveFiles,
}

impl Route {
    /// The path of the route, with its parameters in braces.
    pub open spec fn template_view(self) -> Seq<char> {
        match self {
            Route::Api(Endpoint::PublicInfo) => "/api/publicinfo"@,
            Route::Api(Endpoint::Update) => "/api/v1/update"@,
            Route::Api(Endpoint::Batch) => "/api/v1/batch"@,
            Route::Api(Endpoint::Download) => "/api/v1/download"@,
            Route::Api(Endpoint::GetDb) => "/api/v1/getdb/{name}"@,
            Route::Api(Endpoint::GetFile) => "/api/v1/getfile"@,
            Route::Api(Endpoint::ReleaseInfo) => "/api/v1/release_info"@,
            Route::LegacyMicroDownload => "/v7/micro_download/{platform}/{version}/{*file_path}"@,
            Route::Health => "/health"@,
            Route::ArchiveFiles => urls::archive_prefix_view(),
        }
    }

    /// The path of the route, with its parameters in braces.
    pub fn template(&self) -> (template: &'static str)
        ensures
            template@ == self.template_view(),
    {
        match self {
            Route::Api(Endpoint::PublicInfo) => "/api/publicinfo",
            Route::Api(Endpoint::Update) => "/api/v1/update",
            Route::Api(Endpoint::Batch) => "/api/v1/batch",
            Route::Api(Endpoint::Download) => "/api/v1/download",
            Route::Api(Endpoint::GetDb) => "/api/v1/getdb/{name}",
            Route::Api(Endpoint::GetFile) => "/api/v1/getfile",
            Route::Api(Endpoint::ReleaseInfo) => "/api/v1/release_info",
            Route::LegacyMicroDownload => "/v7/micro_download/{platform}/{version}/{*file_path}",
            Route::Health => "/health",
            Route::ArchiveFiles => archive_prefix(),
        }
    }

    /// The method of the route: `POST` where the request has a body.
    pub open spec fn method_view(self) -> Method {
        match self {
            Route::Api(Endpoint::Update) => Method::Post,
            Route::Api(Endpoint::Batch) => Method::Post,
            Route::Api(Endpoint::Download) => Method::Post,
            Route::Api(Endpoint::GetFile) => Method::Post,
            _ => Method::Get,
        }
    }

    /// The method of the route: `POST` where the request has a body.
    pub fn method(&self) -> (method: Method)
        ensures
            method == self.method_view(),
    {
        match self {
            Route::Api(Endpoint::Update) => Method::Post,
            Route::Api(Endpoint::Batch) => Method::Post,
            Route::Api(Endpoint::Download) => Method::Post,
            Route::Api(Endpoint::GetFile) => Method::Post,
            _ => Method::Get,
        }
    }

    /// Requests are checked for access before they reach the route.
    pub open spec fn guarded(self) -> bool {
        self is Api
    }

    /// A request for `path` on this route that sends `key` reaches the route.
    pub open spec fn admits(self, config: Config, path: Seq<char>, key: Option<Seq<char>>) -> bool {
        !self.guarded() || config.grants(path, key)
    }

    /// Whether requests are checked for access before they reach the route.
    pub fn is_guarded(&self) -> (yes: bool)
        ensures
            yes == self.guarded(),
    {
        match self {
            Route::Api(_) => true,
            _ => false,
        }
    }

    /// Any origin may use the route.
    pub open spec fn wildcard_cors(self, args: ServeArgs) -> bool {
        args.getdb_cors && self == Route::Api(Endpoint::GetDb)
    }

    /// Whether any origin may use the route.
    pub fn has_wildcard_cors(&self, args: &ServeArgs) -> (yes: bool)
        ensures
            yes == self.wildcard_cors(*args),
    {
        match self {
            Route::Api(Endpoint::GetDb) => args.getdb_cors,
            _ => false,
        }
    }
}

/// All routes, each once.
pub open spec fn routes_view() -> Seq<Route> {
    seq![
        Route::Api(Endpoint::GetDb),
        Route::Api(Endpoint::PublicInfo),
        Route::Api(Endpoint::Update),
        Route::Api(Endpoint::Batch),
        Route::Api(Endpoint::Download),
        Route::Api(Endpoint::GetFile),
        Route::Api(Endpoint::ReleaseInfo),
        Route::LegacyMicroDownload,
        Route::Health,
        Route::ArchiveFiles,
    ]
}

/// All routes, each once.
pub fn routes() -> (routes: Vec<Route>)
    ensures
        routes@ == routes_view(),
{
    let mut routes: Vec<Route> = Vec::new();
    routes.push(Route::Api(Endpoint::GetDb));
    routes.push(Route::Api(Endpoint::PublicInfo));
    routes.push(Route::Api(Endpoint::Update));
    routes.push(Route::Api(Endpoint::Batch));
    routes.push(Route::Api(Endpoint::Download));
    routes.push(Route::Api(Endpoint::GetFile));
    routes.push(Route::Api(Endpoint::ReleaseInfo));
    routes.push(Route::LegacyMicroDownload);
    routes.push(Route::Health);
    routes.push(Route::ArchiveFiles);
    routes
}

/// The answer that keeps a request from its route, by the key that it sends, or
/// nothing where the route answers.
pub fn admission(route: &Route, config: &Config, path: &str, shared_key: Option<&str>) -> (refusal:
    Option<Reply>)
    ensures
        refusal is None <==> route.admits(*config, path@, urls::option_view(shared_key)),
        refusal is Some ==> refusal->0@ == reply::error_view(reply::NOT_FOUND, "Not found."@),
{
    if route.is_guarded() {
        refusal_of(config, path, shared_key)
    } else {
        None
    }
}

/// The answer that keeps a request from its route, by the key in its headers, or
/// nothing where the route answers.
pub fn check_request(
    route: &Route,
    config: &Config,
    path: &str,
    headers: &HeaderMap<HeaderValue>,
) -> (refusal: Option<Reply>)
    ensures
        refusal is None <==> route.admits(
            *config,
            path@,
            headers::header_text(*headers, "dlapi-shared-key"@),
        ),
        refusal is Some ==> refusal->0@ == reply::error_view(reply::NOT_FOUND, "Not found."@),
{
    if route.is_guarded() {
        verify_api_access(config, path, headers)
    } else {
        None
    }
}

// ---- What the server says of itself ----

/// What a finished command left behind.
#[derive(Debug)]
pub struct CommandOutput {
    pub success: bool,
    pub stdout: Vec<u8>,
}

/// What a successful command printed, without white space around it.
pub open spec fn printed_text(output: CommandOutput) -> Option<Seq<char>> {
    if output.success && valid_utf8(output.stdout@) {
        Some(text::trimmed(decode_utf8(output.stdout@)))
    } else {
        None
    }
}

/// The commit that the server reports: what the command printed, or `unknown`.
pub open spec fn commit_view(output: Option<CommandOutput>) -> Seq<char> {
    match output {
        Some(o) => match printed_text(o) {
            Some(commit) if commit.len() > 0 => commit,
            _ => "unknown"@,
        },
        None => "unknown"@,
    }
}

/// The commit that `git rev-parse` printed, or `unknown` where it could not be
/// run, failed, or printed nothing that is text.
pub fn git_commit(output: Option<CommandOutput>) -> (commit: String)
    ensures
        commit@ == commit_view(output),
{
    if let Some(o) = output {
        if o.success {
            if let Ok(printed) = String::from_utf8(o.stdout) {
                let commit = trim_text(printed.as_str());
                if !commit.as_str().is_empty() {
                    return commit;
                }
            }
        }
    }
    "unknown".to_owned()
}

// ---- Settings from the environment ----

/// The configuration file: the one that the environment names, or `config.toml`.
pub fn config_file(configured: Option<String>) -> (path: String)
    ensures
        match configured {
            Some(p) => path == p,
            None => path@ == "config.toml"@,
        },
{
    match configured {
        Some(path) => path,
        None => "config.toml".to_owned(),
    }
}

/// The root of the archive: the one that the environment names goes before the
/// one in the configuration file.
pub fn archive_root<P>(environment: Option<P>, configured: Option<P>) -> (root: Option<P>)
    ensures
        root == (if environment is Some {
            environment
        } else {
            configured
        }),
{
    match environment {
        Some(root) => Some(root),
        None => configured,
    }
}

/// What is logged where the environment sets no filter.
pub fn default_log_filter() -> (filter: &'static str)
    ensures
        filter@ == "n4dlapi=info"@,
{
    "n4dlapi=info"
}

/// The address to listen on: the configured one, or port 8000 of this machine.
pub fn listen_address(configured: Option<String>) -> (address: String)
    ensures
        match configured {
            Some(a) => address == a,
            None => address@ == "127.0.0.1:8000"@,
        },
{
    match configured {
        Some(address) => address,
        None => "127.0.0.1:8000".to_owned(),
    }
}

} // verus!
