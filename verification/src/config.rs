//! Who may use which endpoint.

use crate::headers::header_str;
use crate::headers;
use crate::reply::{not_found, Reply};
use crate::reply;
use crate::text::{same_text, starts_with};
use crate::urls;
use axum::http::{HeaderMap, HeaderValue};
use vstd::prelude::*;

verus! {

/// The endpoints whose visibility can be set one by one.
#[derive(Debug, Clone, Copy, PartialEq, Eq, Structural)]
pub enum Endpoint {
    PublicInfo,
    Update,
    Batch,
    Download,
    GetDb,
    GetFile,
    ReleaseInfo,
}

/// The endpoint that serves `path`.
pub open spec fn endpoint_at(path: Seq<char>) -> Option<Endpoint> {
    if path == "/api/publicinfo"@ {
        Some(Endpoint::PublicInfo)
    } else if path == "/api/v1/update"@ {
        Some(Endpoint::Update)
    } else if path == "/api/v1/batch"@ {
        Some(Endpoint::Batch)
    } else if path == "/api/v1/download"@ {
        Some(Endpoint::Download)
    } else if path == "/api/v1/getfile"@ {
        Some(Endpoint::GetFile)
    } else if path == "/api/v1/release_info"@ {
        Some(Endpoint::ReleaseInfo)
    } else if "/api/v1/getdb/"@.is_prefix_of(path) {
        Some(Endpoint::GetDb)
    } else {
        None
    }
}

/// Finds the endpoint that serves `path`.
pub fn find_endpoint(path: &str) -> (endpoint: Option<Endpoint>)
    ensures
        endpoint == endpoint_at(path@),
{
    if same_text(path, "/api/publicinfo") {
        Some(Endpoint::PublicInfo)
    } else if same_text(path, "/api/v1/update") {
        Some(Endpoint::Update)
    } else if same_text(path, "/api/v1/batch") {
        Some(Endpoint::Batch)
    } else if same_text(path, "/api/v1/download") {
        Some(Endpoint::Download)
    } else if same_text(path, "/api/v1/getfile") {
        Some(Endpoint::GetFile)
    } else if same_text(path, "/api/v1/release_info") {
        Some(Endpoint::ReleaseInfo)
    } else if starts_with(path, "/api/v1/getdb/") {
        Some(Endpoint::GetDb)
    } else {
        None
    }
}

/// The endpoints that are set to be public or not, whatever the default is.
#[derive(Debug, Clone, Copy)]
pub struct Visibility {
    pub publicinfo: Option<bool>,
    pub update: Option<bool>,
    pub batch: Option<bool>,
    pub download: Option<bool>,
    pub getdb: Option<bool>,
    pub getfile: Option<bool>,
    pub release_info: Option<bool>,
}

impl Visibility {
    /// What is set for `endpoint`, if anything is.
    pub open spec fn set_for(self, endpoint: Endpoint) -> Option<bool> {
        match endpoint {
            Endpoint::PublicInfo => self.publicinfo,
            Endpoint::Update => self.update,
            Endpoint::Batch => self.batch,
            Endpoint::Download => self.download,
            Endpoint::GetDb => self.getdb,
            Endpoint::GetFile => self.getfile,
            Endpoint::ReleaseInfo => self.release_info,
        }
    }

    /// What is set for `endpoint`, if anything is.
    pub fn get(&self, endpoint: Endpoint) -> (set: Option<bool>)
        ensures
            set == self.set_for(endpoint),
    {
        match endpoint {
            Endpoint::PublicInfo => self.publicinfo,
            Endpoint::Update => self.update,
            Endpoint::Batch => self.batch,
            Endpoint::Download => self.download,
            Endpoint::GetDb => self.getdb,
            Endpoint::GetFile => self.getfile,
            Endpoint::ReleaseInfo => self.release_info,
        }
    }
}

/// The part of the configuration that decides on requests and links.
#[derive(Debug)]
pub struct Config {
    /// Endpoints are public unless set otherwise.
    pub public: bool,
    /// What clients must send to use the other endpoints. Empty: no key is
    /// asked for and everything is public.
    pub shared_key: String,
    /// What download links start with.
    pub base_url: Option<String>,
    /// Settings of single endpoints.
    pub visibility: Visibility,
}

impl Config {
    /// The configured base URL.
    pub open spec fn base_url_view(self) -> Option<Seq<char>> {
        match self.base_url {
            Some(base) => Some(base@),
            None => None,
        }
    }

    /// `path` belongs to an endpoint that is public by its own setting, or by
    /// the default where it has none.
    pub open spec fn is_public(self, path: Seq<char>) -> bool {
        match endpoint_at(path) {
            Some(endpoint) => match self.visibility.set_for(endpoint) {
                Some(public) => public,
                None => self.public,
            },
            None => self.public,
        }
    }

    /// A request for `path` that sends `key` may pass.
    pub open spec fn grants(self, path: Seq<char>, key: Option<Seq<char>>) -> bool {
        ||| self.shared_key@.len() == 0
        ||| self.is_public(path)
        ||| key == Some(self.shared_key@)
    }

    /// The configured base URL, borrowed.
    pub fn base_url(&self) -> (base: Option<&str>)
        ensures
            urls::option_view(base) == self.base_url_view(),
    {
        match &self.base_url {
            Some(base) => Some(base.as_str()),
            None => None,
        }
    }

    /// Whether a request for `path` that sends `shared_key` may pass.
    pub fn is_accessible(&self, path: &str, shared_key: Option<&str>) -> (yes: bool)
        ensures
            yes == self.grants(path@, urls::option_view(shared_key)),
    {
        let public = match find_endpoint(path) {
            Some(endpoint) => match self.visibility.get(endpoint) {
                Some(public) => public,
                None => self.public,
            },
            None => self.public,
        };
        if self.shared_key.as_str().is_empty() || public {
            return true;
        }
        match shared_key {
            Some(key) => same_text(key, self.shared_key.as_str()),
            None => false,
        }
    }

    /// Whether endpoints can be used without a key, unless set otherwise.
    pub fn is_public_accessible(&self) -> (yes: bool)
        ensures
            yes == (self.public || self.shared_key@.len() == 0),
    {
        self.public || self.shared_key.as_str().is_empty()
    }
}

/// The answer that refuses a request for `path` that sends `shared_key`, or
/// nothing where it may pass.
pub fn refusal_of(config: &Config, path: &str, shared_key: Option<&str>) -> (refusal: Option<Reply>)
    ensures
        refusal is None <==> config.grants(path@, urls::option_view(shared_key)),
        refusal is Some ==> refusal->0@ == reply::error_view(reply::NOT_FOUND, "Not found."@),
{
    if config.is_accessible(path, shared_key) {
        None
    } else {
        Some(not_found())
    }
}

/// Checks a request before it reaches an endpoint, by the key in its headers:
/// the answer that refuses it, or nothing where it may pass.
pub fn verify_api_access(config: &Config, path: &str, headers: &HeaderMap<HeaderValue>) -> (refusal:
    Option<Reply>)
    ensures
        refusal is None <==> config.grants(
            path@,
            headers::header_text(*headers, "dlapi-shared-key"@),
        ),
        refusal is Some ==> refusal->0@ == reply::error_view(reply::NOT_FOUND, "Not found."@),
{
    proof {
        reveal_strlit("dlapi-shared-key");
    }
    refusal_of(config, path, header_str(headers, "dlapi-shared-key"))
}

} // verus!
