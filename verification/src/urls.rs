//! Download links: where a client fetches a file of the archive.

use crate::headers::header_str;
use crate::headers;
use crate::models::Download;
use crate::models;
use crate::text::skip_leading;
use crate::text;
use axum::http::{HeaderMap, HeaderValue};
use vstd::prelude::*;

verus! {

/// The characters of an optional string.
pub open spec fn option_view(text: Option<&str>) -> Option<Seq<char>> {
    match text {
        Some(t) => Some(t@),
        None => None,
    }
}

/// `text`, or `default` where there is none.
pub open spec fn text_or(text: Option<Seq<char>>, default: Seq<char>) -> Seq<char> {
    match text {
        Some(t) => t,
        None => default,
    }
}

/// What download links start with: the configured base URL, or else the scheme
/// and host that the request names.
pub open spec fn link_base(
    base_url: Option<Seq<char>>,
    scheme: Option<Seq<char>>,
    host: Option<Seq<char>>,
) -> Seq<char> {
    match base_url {
        Some(base) => base,
        None => text_or(scheme, "http"@) + "://"@ + text_or(host, "localhost:8000"@),
    }
}

/// The path under which the server offers the archive's files.
pub open spec fn archive_prefix_view() -> Seq<char> {
    "/archive-root"@
}

/// The path under which the server offers the archive's files.
pub fn archive_prefix() -> (prefix: &'static str)
    ensures
        prefix@ == archive_prefix_view(),
{
    "/archive-root"
}

/// The full URL of `path` under the archive root, for a request that names
/// `scheme` and `host`.
pub open spec fn archive_link_view(
    base_url: Option<Seq<char>>,
    scheme: Option<Seq<char>>,
    host: Option<Seq<char>>,
    path: Seq<char>,
) -> Seq<char> {
    link_base(base_url, scheme, host) + archive_prefix_view() + "/"@ + text::without_leading(
        path,
        '/',
    )
}

/// The full URL of `path` under the archive root, for a request with `headers`.
pub open spec fn archive_url_view(
    headers: HeaderMap<HeaderValue>,
    base_url: Option<Seq<char>>,
    path: Seq<char>,
) -> Seq<char> {
    archive_link_view(
        base_url,
        headers::header_text(headers, "x-forwarded-proto"@),
        headers::header_text(headers, "host"@),
        path,
    )
}

/// The same downloads, in the same order, with full URLs.
pub open spec fn published<V>(
    headers: HeaderMap<HeaderValue>,
    base_url: Option<Seq<char>>,
    downloads: Seq<models::DownloadView<V>>,
) -> Seq<models::DownloadView<V>> {
    downloads.map_values(
        |d: models::DownloadView<V>|
            models::DownloadView {
                url: archive_url_view(headers, base_url, d.url),
                size: d.size,
                checksums: d.checksums,
                detail: d.detail,
            },
    )
}

/// Builds the full URL of `path` under `/archive-root/`. A configured base URL
/// takes precedence over what the request names; without one the host defaults
/// to `localhost:8000` and the scheme to `http`.
pub fn archive_link(
    base_url: Option<&str>,
    scheme: Option<&str>,
    host: Option<&str>,
    path: &str,
) -> (url: String)
    ensures
        url@ == archive_link_view(
            option_view(base_url),
            option_view(scheme),
            option_view(host),
            path@,
        ),
{
    let clean = skip_leading(path, '/');
    let mut url = String::new();
    match base_url {
        Some(base) => {
            url.append(base);
            assert(url@ == base@);
        },
        None => {
            let scheme = match scheme {
                Some(scheme) => scheme,
                None => "http",
            };
            let host = match host {
                Some(host) => host,
                None => "localhost:8000",
            };
            url.append(scheme);
            url.append("://");
            url.append(host);
            assert(url@ == scheme@ + "://"@ + host@);
        },
    }
    url.append(archive_prefix());
    url.append("/");
    url.append(clean.as_str());
    url
}

/// Builds the full URL of `path` under `/archive-root/`, with the scheme and
/// host that the request headers name where no base URL is configured.
pub fn archive_url(headers: &HeaderMap<HeaderValue>, base_url: Option<&str>, path: &str) -> (url:
    String)
    ensures
        url@ == archive_url_view(*headers, option_view(base_url), path@),
{
    proof {
        reveal_strlit("host");
        reveal_strlit("x-forwarded-proto");
    }
    let host = header_str(headers, "host");
    let scheme = header_str(headers, "x-forwarded-proto");
    archive_link(base_url, scheme, host, path)
}

/// Turns the archive path in each download's `url` into a full URL and leaves
/// everything else as it is.
pub fn publish_urls<T: View>(
    headers: &HeaderMap<HeaderValue>,
    base_url: Option<&str>,
    downloads: &mut Vec<Download<T>>,
)
    ensures
        models::downloads_view(final(downloads)@) == published(
            *headers,
            option_view(base_url),
            models::downloads_view(old(downloads)@),
        ),
{
    let ghost before = downloads@;
    let ghost target = published(
        *headers,
        option_view(base_url),
        models::downloads_view(downloads@),
    );
    let mut i: usize = 0;
    while i < downloads.len()
        invariant
            i <= downloads@.len(),
            downloads@.len() == before.len(),
            target == published(*headers, option_view(base_url), models::downloads_view(before)),
            forall|j: int| 0 <= j < i ==> #[trigger] downloads@[j]@ == target[j],
            forall|j: int| i <= j < before.len() ==> #[trigger] downloads@[j] == before[j],
        decreases downloads@.len() - i,
    {
        let url = archive_url(headers, base_url, downloads[i].url.as_str());
        downloads[i].url = url;
        i = i + 1;
    }
    assert(models::downloads_view(downloads@) =~= target);
}

} // verus!
