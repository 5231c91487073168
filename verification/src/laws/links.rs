//! What download links are made of, and what a request's headers add to them.

use crate::headers;
use crate::laws::texts;
use crate::models::Download;
use crate::urls;
use axum::http::{HeaderMap, HeaderValue};
use vstd::prelude::*;

verus! {

// ---- Headers ----

/// A header is read exactly where it is present and its bytes are visible
/// ASCII, spaces or tabs; then it is read byte by byte.
pub proof fn headers_are_read_byte_by_byte(headers: HeaderMap<HeaderValue>, name: Seq<char>)
    ensures
        headers::header_text(headers, name) is Some <==> {
            &&& headers::header_values(headers).contains_key(name)
            &&& forall|i: int|
                #![trigger headers::header_values(headers)[name][i]]
                0 <= i < headers::header_values(headers)[name].len()
                    ==> headers::header_values(headers)[name][i] == 9 || (32
                    <= headers::header_values(headers)[name][i]
                    && headers::header_values(headers)[name][i] <= 126)
        },
        headers::header_text(headers, name) matches Some(value) ==> {
            &&& value.len() == headers::header_values(headers)[name].len()
            &&& forall|i: int|
                0 <= i < value.len() ==> (#[trigger] value[i]) as int == headers::header_values(
                    headers,
                )[name][i] as int
        },
{
}

/// Asking for a header gives its text, where it has one.
pub proof fn headers_are_looked_up_by_name(
    headers: HeaderMap<HeaderValue>,
    name: &str,
    value: Option<&str>,
)
    requires
        call_ensures(headers::header_str, (&headers, name), value),
    ensures
        value is Some <==> headers::header_text(headers, name@) is Some,
        value matches Some(v) ==> headers::header_text(headers, name@) == Some(v@),
{
}

/// A name is in lower case where none of its characters is one of `A` to `Z`.
pub proof fn lower_case_names_have_no_capitals(name: Seq<char>)
    ensures
        headers::is_lower_case_name(name) <==> forall|i: int|
            0 <= i < name.len() ==> (#[trigger] name[i]) as int <= 64 || name[i] as int >= 91,
{
}

// ---- Links ----

/// A link with a configured base is the base, `/archive-root/` and the path
/// without the slashes it begins with; every other character of the path is
/// kept. Neither the scheme nor the host of the request shows.
pub proof fn configured_links_keep_the_path(
    base: &str,
    scheme: Option<&str>,
    host: Option<&str>,
    path: &str,
    slashes: int,
    url: String,
)
    requires
        call_ensures(urls::archive_link, (Some(base), scheme, host, path), url),
        0 <= slashes <= path@.len(),
        forall|i: int| 0 <= i < slashes ==> #[trigger] path@[i] == '/',
        slashes < path@.len() ==> path@[slashes] != '/',
    ensures
        url@ == base@ + "/archive-root/"@ + path@.skip(slashes),
{
    reveal_strlit("/archive-root");
    reveal_strlit("/");
    reveal_strlit("/archive-root/");
    texts::the_run_decides_what_is_left(path@, '/', slashes);
    assert(url@ =~= base@ + "/archive-root/"@ + path@.skip(slashes));
}

/// A link without a configured base is the scheme, `://`, the host,
/// `/archive-root/` and the path without the slashes it begins with. A request
/// that names no scheme or host is given `http` or `localhost:8000`.
pub proof fn request_links_keep_the_path(
    scheme: Option<&str>,
    host: Option<&str>,
    path: &str,
    slashes: int,
    url: String,
)
    requires
        call_ensures(urls::archive_link, (None::<&str>, scheme, host, path), url),
        0 <= slashes <= path@.len(),
        forall|i: int| 0 <= i < slashes ==> #[trigger] path@[i] == '/',
        slashes < path@.len() ==> path@[slashes] != '/',
    ensures
        scheme is Some && host is Some ==> url@ == scheme->0@ + "://"@ + host->0@
            + "/archive-root/"@ + path@.skip(slashes),
        scheme is None && host is Some ==> url@ == "http://"@ + host->0@ + "/archive-root/"@
            + path@.skip(slashes),
        scheme is Some && host is None ==> url@ == scheme->0@
            + "://localhost:8000/archive-root/"@ + path@.skip(slashes),
        scheme is None && host is None ==> url@ == "http://localhost:8000/archive-root/"@
            + path@.skip(slashes),
{
    reveal_strlit("/archive-root");
    reveal_strlit("/");
    reveal_strlit("/archive-root/");
    reveal_strlit("http");
    reveal_strlit("://");
    reveal_strlit("http://");
    reveal_strlit("localhost:8000");
    reveal_strlit("://localhost:8000/archive-root/");
    reveal_strlit("http://localhost:8000/archive-root/");
    texts::the_run_decides_what_is_left(path@, '/', slashes);
    let rest = path@.skip(slashes);
    match (scheme, host) {
        (Some(s), Some(h)) => assert(url@ =~= s@ + "://"@ + h@ + "/archive-root/"@ + rest),
        (None, Some(h)) => assert(url@ =~= "http://"@ + h@ + "/archive-root/"@ + rest),
        (Some(s), None) => assert(url@ =~= s@ + "://localhost:8000/archive-root/"@ + rest),
        (None, None) => assert(url@ =~= "http://localhost:8000/archive-root/"@ + rest),
    }
}

/// The link for a request takes its scheme from the header `x-forwarded-proto`
/// and its host from the header `host`, where no base is configured, and keeps
/// the path but for the slashes it begins with.
pub proof fn links_follow_the_request(
    headers: HeaderMap<HeaderValue>,
    base: Option<Seq<char>>,
    scheme: Seq<char>,
    host: Seq<char>,
    path: Seq<char>,
    slashes: int,
)
    requires
        headers::header_text(headers, "x-forwarded-proto"@) matches Some(s) ==> scheme == s,
        headers::header_text(headers, "x-forwarded-proto"@) is None ==> scheme == "http"@,
        headers::header_text(headers, "host"@) matches Some(h) ==> host == h,
        headers::header_text(headers, "host"@) is None ==> host == "localhost:8000"@,
        0 <= slashes <= path.len(),
        forall|i: int| 0 <= i < slashes ==> #[trigger] path[i] == '/',
        slashes < path.len() ==> path[slashes] != '/',
    ensures
        base matches Some(b) ==> urls::archive_url_view(headers, base, path) == b
            + "/archive-root/"@ + path.skip(slashes),
        base is None ==> urls::archive_url_view(headers, base, path) == scheme + "://"@ + host
            + "/archive-root/"@ + path.skip(slashes),
{
    reveal_strlit("/archive-root");
    reveal_strlit("/");
    reveal_strlit("/archive-root/");
    texts::the_run_decides_what_is_left(path, '/', slashes);
    let url = urls::archive_url_view(headers, base, path);
    match base {
        Some(b) => assert(url =~= b + "/archive-root/"@ + path.skip(slashes)),
        None => assert(url =~= scheme + "://"@ + host + "/archive-root/"@ + path.skip(slashes)),
    }
}

/// Building the link for a request gives the link of its headers, the base and
/// the path.
pub proof fn links_are_built_for_the_request(
    headers: HeaderMap<HeaderValue>,
    base: Option<&str>,
    path: &str,
    url: String,
)
    requires
        call_ensures(urls::archive_url, (&headers, base, path), url),
    ensures
        base is None ==> url@ == urls::archive_url_view(headers, None, path@),
        base matches Some(b) ==> url@ == urls::archive_url_view(headers, Some(b@), path@),
{
}

/// Two paths that do not begin with a slash have the same link only where they
/// are the same path.
pub proof fn different_files_have_different_links(
    headers: HeaderMap<HeaderValue>,
    base: Option<Seq<char>>,
    a: Seq<char>,
    b: Seq<char>,
)
    requires
        a.len() == 0 || a[0] != '/',
        b.len() == 0 || b[0] != '/',
        urls::archive_url_view(headers, base, a) == urls::archive_url_view(headers, base, b),
    ensures
        a == b,
{
    let start = urls::archive_url_view(headers, base, Seq::empty());
    let n = start.len() as int;
    let x = urls::archive_url_view(headers, base, a);
    let y = urls::archive_url_view(headers, base, b);
    assert(x =~= start + a);
    assert(y =~= start + b);
    assert(a =~= x.skip(n));
    assert(b =~= y.skip(n));
}

/// Publishing turns each download's path into its link and changes nothing
/// else: not how many there are, not their order, nor any other field.
pub proof fn publishing_links_each_download<T: View>(
    headers: HeaderMap<HeaderValue>,
    base: Option<&str>,
    downloads: &mut Vec<Download<T>>,
)
    requires
        call_ensures(urls::publish_urls::<T>, (&headers, base, downloads), ()),
    ensures
        final(downloads)@.len() == old(downloads)@.len(),
        forall|i: int|
            0 <= i < old(downloads)@.len() ==> {
                let after = #[trigger] final(downloads)@[i];
                let before = old(downloads)@[i];
                &&& base is None ==> after.url@ == urls::archive_url_view(
                    headers,
                    None,
                    before.url@,
                )
                &&& base matches Some(b) ==> after.url@ == urls::archive_url_view(
                    headers,
                    Some(b@),
                    before.url@,
                )
                &&& after.size == before.size
                &&& after.checksums.md5@ == before.checksums.md5@
                &&& after.checksums.sha256@ == before.checksums.sha256@
                &&& after.detail@ == before.detail@
            },
{
    let a = crate::models::downloads_view(final(downloads)@);
    let b = crate::models::downloads_view(old(downloads)@);
    assert(a.len() == b.len());
    assert forall|i: int| 0 <= i < old(downloads)@.len() implies {
        let after = #[trigger] final(downloads)@[i];
        let before = old(downloads)@[i];
        &&& base is None ==> after.url@ == urls::archive_url_view(headers, None, before.url@)
        &&& base matches Some(b) ==> after.url@ == urls::archive_url_view(
            headers,
            Some(b@),
            before.url@,
        )
        &&& after.size == before.size
        &&& after.checksums.md5@ == before.checksums.md5@
        &&& after.checksums.sha256@ == before.checksums.sha256@
        &&& after.detail@ == before.detail@
    } by {
        assert(a[i] == final(downloads)@[i]@);
        assert(b[i] == old(downloads)@[i]@);
    }
}

} // verus!
