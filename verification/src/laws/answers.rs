//! What each endpoint asks for and answers, field by field.

use crate::catalog;
use crate::catalog::GameVersion;
use crate::config::Config;
use crate::handlers;
use crate::handlers::{
    BatchQuery, DownloadQuery, FileMetadata, FileQueries, FileReply, Opened, UpdateQuery,
};
use crate::laws;
use crate::models;
use crate::models::{
    BatchDownloadRequest, Download, DownloadRequest, Fields, MicroDownloadRequest, UpdateRequest,
};
use crate::paths;
use crate::reply;
use crate::reply::{Body, Reply};
use crate::text;
use crate::urls;
use axum::http::{HeaderMap, HeaderValue};
use vstd::prelude::*;

verus! {

// ---- Error answers ----

/// An error answer has the status and the message that it was given.
pub proof fn errors_carry_their_message(status: u16, detail: &str, answer: Reply)
    requires
        call_ensures(reply::error_reply, (status, detail), answer),
    ensures
        answer.status == status,
        answer.body matches Body::Error(e) && e.detail@ == detail@,
{
    assert(answer@.body is Error);
}

/// The named error answers: malformed requests are told why, and the others say
/// the same each time.
pub proof fn named_errors_say_what_they_say(
    msg: &str,
    malformed: Reply,
    absent: Reply,
    no_database: Reply,
    failed: Reply,
)
    requires
        call_ensures(reply::bad_request, (msg,), malformed),
        call_ensures(reply::not_found, (), absent),
        call_ensures(reply::database_not_found, (), no_database),
        call_ensures(reply::internal_error, (), failed),
    ensures
        malformed.status == 400,
        malformed.body matches Body::Error(e) && e.detail@ == msg@,
        absent.status == 404,
        absent.body matches Body::Error(e) && e.detail@ == "Not found."@,
        no_database.status == 404,
        no_database.body matches Body::Error(e) && e.detail@ == "Database not found"@,
        failed.status == 500,
        failed.body matches Body::Error(e) && e.detail@ == "Internal server error"@,
{
    assert(malformed@.body is Error);
    assert(absent@.body is Error);
    assert(no_database@.body is Error);
    assert(failed@.body is Error);
}

// ---- Requests ----

/// Requests name iOS as 1 and Android as 2; nothing else is a platform.
pub proof fn platforms_are_numbered_from_one(
    platform: u8,
    index: Option<usize>,
    known: Result<usize, Reply>,
)
    requires
        call_ensures(handlers::validate_platform, (platform,), index),
        call_ensures(handlers::known_platform, (platform,), known),
    ensures
        index is Some <==> 1 <= platform <= 2,
        index matches Some(i) ==> i + 1 == platform,
        known is Ok <==> 1 <= platform <= 2,
        known matches Ok(i) ==> i + 1 == platform,
        known matches Err(r) ==> r.status == 400 && (r.body matches Body::Error(e) && e.detail@
            == "Invalid platform"@),
{
    if let Err(r) = known {
        assert(r@.body is Error);
    }
}

/// A request for updates is passed on as it is where its platform is known, and
/// is malformed otherwise.
pub proof fn update_requests_are_passed_on(param: UpdateRequest, query: Result<UpdateQuery, Reply>)
    requires
        call_ensures(handlers::update_query, (param,), query),
    ensures
        query is Ok <==> 1 <= param.platform <= 2,
        query matches Ok(q) ==> q.platform + 1 == param.platform && q.version@ == param.version@,
        query matches Err(r) ==> r.status == 400 && (r.body matches Body::Error(e) && e.detail@
            == "Invalid platform"@),
{
    if let Err(r) = query {
        assert(r@.body is Error);
    }
}

/// A request for a batch is passed on as it is where its platform is known and
/// its package type is one of 0 to 6. The platform is looked at first.
pub proof fn batch_requests_are_passed_on(
    param: BatchDownloadRequest,
    query: Result<BatchQuery, Reply>,
)
    requires
        call_ensures(handlers::batch_query, (param,), query),
    ensures
        query is Ok <==> 1 <= param.platform <= 2 && param.package_type < 7,
        query matches Ok(q) ==> {
            &&& q.platform + 1 == param.platform
            &&& q.package_type == param.package_type
            &&& q.exclude@ == param.exclude@
        },
        query matches Err(r) ==> {
            &&& r.body is Error
            &&& !(1 <= param.platform <= 2) ==> r.status == 400 && r.body->Error_0.detail@
                == "Invalid platform"@
            &&& 1 <= param.platform <= 2 ==> r.status == 404 && r.body->Error_0.detail@
                == "Package type not found"@
        },
{
    if let Err(r) = query {
        assert(r@.body is Error);
    }
}

/// A request for a package is passed on as it is where its platform is known and
/// its package type is one of 0 to 6. The platform is looked at first.
pub proof fn download_requests_are_passed_on(
    param: DownloadRequest,
    query: Result<DownloadQuery, Reply>,
)
    requires
        call_ensures(handlers::download_query, (param,), query),
    ensures
        query is Ok <==> 1 <= param.platform <= 2 && param.package_type < 7,
        query matches Ok(q) ==> {
            &&& q.platform + 1 == param.platform
            &&& q.package_type == param.package_type
            &&& q.package_id == param.package_id
        },
        query matches Err(r) ==> {
            &&& r.body is Error
            &&& !(1 <= param.platform <= 2) ==> r.status == 400 && r.body->Error_0.detail@
                == "Invalid platform"@
            &&& 1 <= param.platform <= 2 ==> r.status == 404 && r.body->Error_0.detail@
                == "Package not found"@
        },
{
    if let Err(r) = query {
        assert(r@.body is Error);
    }
}

/// A request for files is passed on with all of its files and no answers yet,
/// where its platform is known.
pub proof fn file_requests_are_passed_on(
    param: MicroDownloadRequest,
    query: Result<FileQueries, Reply>,
)
    requires
        call_ensures(handlers::getfile_query, (param,), query),
    ensures
        query is Ok <==> 1 <= param.platform <= 2,
        query matches Ok(q) ==> {
            &&& q.platform + 1 == param.platform
            &&& q.files@ == param.files@
            &&& q.found@.len() == 0
        },
        query matches Err(r) ==> r.status == 400 && (r.body matches Body::Error(e) && e.detail@
            == "Invalid platform"@),
{
    if let Err(r) = query {
        assert(r@.body is Error);
    }
}

/// Files are looked up in order: the next one is the first that has no answer,
/// until each has one.
pub proof fn files_are_looked_up_in_order(queries: FileQueries, file: Option<&String>)
    requires
        call_ensures(FileQueries::next, (&queries,), file),
    ensures
        file is Some <==> queries.found@.len() < queries.files@.len(),
        file matches Some(f) ==> f@ == queries.files@[queries.found@.len() as int]@,
        queries.well_formed() <==> queries.found@.len() <= queries.files@.len(),
        queries.is_pending() <==> queries.found@.len() < queries.files@.len(),
{
}

/// An answer is added behind the earlier ones; a failure adds nothing and ends
/// the request. The files and the platform stay as they are.
pub proof fn answers_are_added_in_order(
    queries: &mut FileQueries,
    result: Result<Download<()>, String>,
    failure: Option<Reply>,
)
    requires
        call_ensures(FileQueries::record, (queries, result), failure),
    ensures
        final(queries).files@ == old(queries).files@,
        final(queries).platform == old(queries).platform,
        failure is None <==> result is Ok,
        result matches Ok(d) ==> final(queries).found@ == old(queries).found@.push(d),
        result is Err ==> final(queries).found@ == old(queries).found@,
        failure matches Some(r) ==> r.status == 500 && (r.body matches Body::Error(e) && e.detail@
            == "Internal server error"@),
{
    if let Some(r) = failure {
        assert(r@.body is Error);
    }
}

// ---- Lists of downloads ----

proof fn lemma_links_are_sent<T: View>(
    headers: HeaderMap<HeaderValue>,
    config: Config,
    list: Seq<Download<T>>,
    sent: Seq<Download<T>>,
)
    requires
        models::downloads_view(sent) == urls::published(
            headers,
            config.base_url_view(),
            models::downloads_view(list),
        ),
    ensures
        sent.len() == list.len(),
        forall|i: int|
            0 <= i < list.len() ==> {
                let after = #[trigger] sent[i];
                let before = list[i];
                &&& after.url@ == urls::archive_url_view(
                    headers,
                    config.base_url_view(),
                    before.url@,
                )
                &&& after.size == before.size
                &&& after.checksums.md5@ == before.checksums.md5@
                &&& after.checksums.sha256@ == before.checksums.sha256@
                &&& after.detail@ == before.detail@
            },
{
    let a = models::downloads_view(sent);
    let b = models::downloads_view(list);
    assert(a.len() == b.len());
    assert forall|i: int| 0 <= i < list.len() implies {
        let after = #[trigger] sent[i];
        let before = list[i];
        &&& after.url@ == urls::archive_url_view(headers, config.base_url_view(), before.url@)
        &&& after.size == before.size
        &&& after.checksums.md5@ == before.checksums.md5@
        &&& after.checksums.sha256@ == before.checksums.sha256@
        &&& after.detail@ == before.detail@
    } by {
        assert(a[i] == sent[i]@);
        assert(b[i] == list[i]@);
    }
}

/// The updates that were found are sent, all and in order, each with its link;
/// where the archive cannot be read, the answer says only that much.
pub proof fn updates_are_sent_with_links(
    config: Config,
    headers: HeaderMap<HeaderValue>,
    found: Result<Vec<Download<String>>, String>,
    answer: Reply,
)
    requires
        call_ensures(handlers::update_handler, (&config, &headers, found), answer),
    ensures
        found matches Ok(list) ==> {
            &&& answer.status == 200
            &&& answer.body matches Body::Updates(sent)
            &&& sent@.len() == list@.len()
            &&& forall|i: int|
                0 <= i < list@.len() ==> {
                    let after = #[trigger] sent@[i];
                    let before = list@[i];
                    &&& after.url@ == urls::archive_url_view(
                        headers,
                        config.base_url_view(),
                        before.url@,
                    )
                    &&& after.size == before.size
                    &&& after.checksums.md5@ == before.checksums.md5@
                    &&& after.checksums.sha256@ == before.checksums.sha256@
                    &&& after.detail@ == before.detail@
                }
        },
        found is Err ==> answer.status == 500 && (answer.body matches Body::Error(e) && e.detail@
            == "Internal server error"@),
{
    if let Ok(list) = found {
        assert(answer@.body is Updates);
        let sent = answer.body->Updates_0;
        lemma_links_are_sent(headers, config, list@, sent@);
    } else {
        assert(answer@.body is Error);
    }
}

/// The packages that were found are sent, all and in order, each with its link;
/// where the archive has no such type, nothing is there.
pub proof fn batches_are_sent_with_links(
    config: Config,
    headers: HeaderMap<HeaderValue>,
    found: Result<Option<Vec<Download<u32>>>, String>,
    answer: Reply,
)
    requires
        call_ensures(handlers::batch_handler, (&config, &headers, found), answer),
    ensures
        found matches Ok(Some(list)) ==> {
            &&& answer.status == 200
            &&& answer.body matches Body::Packages(sent)
            &&& sent@.len() == list@.len()
            &&& forall|i: int|
                0 <= i < list@.len() ==> {
                    let after = #[trigger] sent@[i];
                    let before = list@[i];
                    &&& after.url@ == urls::archive_url_view(
                        headers,
                        config.base_url_view(),
                        before.url@,
                    )
                    &&& after.size == before.size
                    &&& after.checksums.md5@ == before.checksums.md5@
                    &&& after.checksums.sha256@ == before.checksums.sha256@
                    &&& after.detail@ == before.detail@
                }
        },
        found matches Ok(None) ==> answer.status == 404 && (answer.body matches Body::Error(e)
            && e.detail@ == "Package type not found"@),
        found is Err ==> answer.status == 500 && (answer.body matches Body::Error(e) && e.detail@
            == "Internal server error"@),
{
    if let Ok(Some(list)) = found {
        assert(answer@.body is Packages);
        let sent = answer.body->Packages_0;
        lemma_links_are_sent(headers, config, list@, sent@);
    } else {
        assert(answer@.body is Error);
    }
}

/// The files of a package that were found are sent, all and in order, each with
/// its link; where the archive has no such package, nothing is there.
pub proof fn packages_are_sent_with_links(
    config: Config,
    headers: HeaderMap<HeaderValue>,
    found: Result<Option<Vec<Download<()>>>, String>,
    answer: Reply,
)
    requires
        call_ensures(handlers::download_handler, (&config, &headers, found), answer),
    ensures
        found matches Ok(Some(list)) ==> {
            &&& answer.status == 200
            &&& answer.body matches Body::Files(sent)
            &&& sent@.len() == list@.len()
            &&& forall|i: int|
                0 <= i < list@.len() ==> {
                    let after = #[trigger] sent@[i];
                    let before = list@[i];
                    &&& after.url@ == urls::archive_url_view(
                        headers,
                        config.base_url_view(),
                        before.url@,
                    )
                    &&& after.size == before.size
                    &&& after.checksums.md5@ == before.checksums.md5@
                    &&& after.checksums.sha256@ == before.checksums.sha256@
                    &&& after.detail@ == before.detail@
                }
        },
        found matches Ok(None) ==> answer.status == 404 && (answer.body matches Body::Error(e)
            && e.detail@ == "Package not found"@),
        found is Err ==> answer.status == 500 && (answer.body matches Body::Error(e) && e.detail@
            == "Internal server error"@),
{
    if let Ok(Some(list)) = found {
        assert(answer@.body is Files);
        let sent = answer.body->Files_0;
        lemma_links_are_sent(headers, config, list@, sent@);
    } else {
        assert(answer@.body is Error);
    }
}

/// The files that were looked up are sent, all and in order, each with its link.
pub proof fn files_are_sent_with_links(
    config: Config,
    headers: HeaderMap<HeaderValue>,
    queries: FileQueries,
    answer: Reply,
)
    requires
        call_ensures(handlers::getfile_handler, (&config, &headers, queries), answer),
    ensures
        answer.status == 200,
        answer.body is Files,
        answer.body->Files_0@.len() == queries.found@.len(),
        forall|i: int|
            0 <= i < queries.found@.len() ==> {
                let after = #[trigger] answer.body->Files_0@[i];
                let before = queries.found@[i];
                &&& after.url@ == urls::archive_url_view(
                    headers,
                    config.base_url_view(),
                    before.url@,
                )
                &&& after.size == before.size
                &&& after.checksums.md5@ == before.checksums.md5@
                &&& after.checksums.sha256@ == before.checksums.sha256@
            },
{
    assert(answer@.body is Files);
    lemma_links_are_sent(headers, config, queries.found@, answer.body->Files_0@);
}

// ---- Information ----

proof fn lemma_program_version()
    ensures
        handlers::program_version_view() == "2023.05.14"@,
{
    reveal_strlit(".");
    reveal_strlit("2023.05.14");
    reveal_with_fuel(text::decimal, 4);
    assert(text::decimal(2023) =~= seq!['2', '0', '2', '3']);
    assert(text::decimal_two(5) =~= seq!['0', '5']);
    assert(text::decimal_two(14) =~= seq!['1', '4']);
    assert(handlers::program_version_view() =~= "2023.05.14"@);
}

/// The program tells the day of its release.
pub proof fn the_release_is_a_day(version: String)
    requires
        call_ensures(handlers::program_version, (), version),
    ensures
        version@ == "2023.05.14"@,
{
    lemma_program_version();
}

/// The public information tells whether a key is needed, the version of the API,
/// the last game version, the commit and the release.
pub proof fn public_information_is_complete(
    config: Config,
    commit: &str,
    latest: Result<GameVersion, String>,
    v: GameVersion,
    label: String,
    answer: Reply,
)
    requires
        call_ensures(handlers::publicinfo_handler, (&config, commit, latest), answer),
        call_ensures(GameVersion::label, (&v,), label),
    ensures
        latest == Ok::<GameVersion, String>(v) ==> {
            &&& answer.status == 200
            &&& answer.body matches Body::PublicInfo(info)
            &&& info.public_api <==> config.public || config.shared_key@.len() == 0
            &&& info.dlapi_version.major == 1
            &&& info.dlapi_version.minor == 1
            &&& info.serve_time_limit == 0
            &&& info.game_version@ == label@
            &&& info.application@.len() == 2
            &&& info.application@[0].0@ == "NPPS4DLAPICommit"@
            &&& info.application@[0].1@ == commit@
            &&& info.application@[1].0@ == "NPPS4DLAPIVersion"@
            &&& info.application@[1].1@ == "2023.05.14"@
        },
        latest is Err ==> answer.status == 500 && (answer.body matches Body::Error(e) && e.detail@
            == "Internal server error"@),
{
    lemma_program_version();
    if latest is Ok {
        assert(answer@.body is PublicInfo);
        let sent = answer.body->PublicInfo_0;
        let fields = models::fields_view(sent.application@);
        assert(fields == answer@.body->PublicInfo_0.application);
        assert(fields.len() == sent.application@.len());
        assert(latest is Ok ==> fields.len() == 2);
        assert(fields[0] == (sent.application@[0].0@, sent.application@[0].1@));
        assert(fields[1] == (sent.application@[1].0@, sent.application@[1].1@));
    } else {
        assert(answer@.body is Error);
    }
}

/// The decryption keys that were found are sent as they are.
pub proof fn keys_are_sent_as_they_are(found: Result<Fields, String>, answer: Reply)
    requires
        call_ensures(handlers::release_info_handler, (found,), answer),
    ensures
        found matches Ok(keys) ==> {
            &&& answer.status == 200
            &&& answer.body matches Body::Object(sent)
            &&& sent@.len() == keys@.len()
            &&& forall|i: int|
                0 <= i < keys@.len() ==> (#[trigger] sent@[i]).0@ == keys@[i].0@ && sent@[i].1@
                    == keys@[i].1@
        },
        found is Err ==> answer.status == 500 && (answer.body matches Body::Error(e) && e.detail@
            == "Internal server error"@),
{
    if let Ok(keys) = found {
        assert(answer@.body is Object);
        let sent = answer.body->Object_0;
        let a = models::fields_view(sent@);
        let b = models::fields_view(keys@);
        assert(a == b);
        assert(a.len() == sent@.len() && b.len() == keys@.len());
        assert forall|i: int| 0 <= i < keys@.len() implies (#[trigger] sent@[i]).0@ == keys@[i].0@
            && sent@[i].1@ == keys@[i].1@ by {
            assert(a[i] == (sent@[i].0@, sent@[i].1@));
            assert(b[i] == (keys@[i].0@, keys@[i].1@));
        }
    } else {
        assert(answer@.body is Error);
    }
}

/// The probe says `ok` and the last game version, or `degraded` and why, with a
/// status that tells the two apart.
pub proof fn the_probe_tells_the_state(
    latest: Result<GameVersion, String>,
    v: GameVersion,
    label: String,
    answer: Reply,
)
    requires
        call_ensures(handlers::health_handler, (latest,), answer),
        call_ensures(GameVersion::label, (&v,), label),
    ensures
        answer.body is Object,
        answer.body->Object_0@.len() == 2,
        answer.body->Object_0@[0].0@ == "status"@,
        latest == Ok::<GameVersion, String>(v) ==> {
            &&& answer.status == 200
            &&& answer.body->Object_0@[0].1@ == "ok"@
            &&& answer.body->Object_0@[1].0@ == "gameVersion"@
            &&& answer.body->Object_0@[1].1@ == label@
        },
        latest matches Err(why) ==> {
            &&& answer.status == 503
            &&& answer.body->Object_0@[0].1@ == "degraded"@
            &&& answer.body->Object_0@[1].0@ == "detail"@
            &&& answer.body->Object_0@[1].1@ == why@
        },
{
    assert(answer@.body is Object);
    let sent = answer.body->Object_0;
    let fields = models::fields_view(sent@);
    assert(fields == answer@.body->Object_0);
    assert(fields.len() == sent@.len());
    assert(fields.len() == 2);
    assert(fields[0] == (sent@[0].0@, sent@[0].1@));
    assert(fields[1] == (sent@[1].0@, sent@[1].1@));
}

// ---- Files that are streamed ----

/// A database that was found is opened with its size; otherwise the answer says
/// whether there is none or the archive cannot be read.
pub proof fn found_databases_are_opened<P>(
    found: Result<Option<(P, u64)>, String>,
    target: Result<(P, u64), Reply>,
)
    requires
        call_ensures(handlers::getdb_query::<P>, (found,), target),
    ensures
        found matches Ok(Some(database)) ==> target is Ok && target->Ok_0.0 == database.0
            && target->Ok_0.1 == database.1,
        found matches Ok(None) ==> (target matches Err(r) && r.status == 404 && r.body is Error
            && r.body->Error_0.detail@ == "Database not found"@),
        found is Err ==> (target matches Err(r) && r.status == 500 && r.body is Error
            && r.body->Error_0.detail@ == "Internal server error"@),
{
    if let Err(r) = target {
        assert(r@.body is Error);
    }
}

/// The content length in the headers of a streamed file is a number, and the
/// size of the file, for every size.
pub proof fn content_lengths_are_the_size(name: Seq<char>, size: u64)
    ensures
        exists|i: int|
            0 <= i < handlers::database_headers(name, size).len()
                && #[trigger] handlers::database_headers(name, size)[i].0 == "content-length"@,
        forall|i: int|
            0 <= i < handlers::database_headers(name, size).len()
                && #[trigger] handlers::database_headers(name, size)[i].0 == "content-length"@ ==> {
                &&& catalog::is_number(handlers::database_headers(name, size)[i].1)
                &&& catalog::digits_value(handlers::database_headers(name, size)[i].1) == size
            },
        exists|i: int|
            0 <= i < handlers::asset_headers(size).len()
                && #[trigger] handlers::asset_headers(size)[i].0 == "content-length"@,
        forall|i: int|
            0 <= i < handlers::asset_headers(size).len()
                && #[trigger] handlers::asset_headers(size)[i].0 == "content-length"@ ==> {
                &&& catalog::is_number(handlers::asset_headers(size)[i].1)
                &&& catalog::digits_value(handlers::asset_headers(size)[i].1) == size
            },
{
    reveal_strlit("content-type");
    reveal_strlit("content-length");
    reveal_strlit("content-disposition");
    assert("content-type"@.len() == 12);
    assert("content-length"@.len() == 14);
    assert("content-disposition"@.len() == 19);
    laws::decimals_read_back(size as nat);
    assert(handlers::database_headers(name, size)[1].0 == "content-length"@);
    assert(handlers::asset_headers(size)[1].0 == "content-length"@);
}

/// A database that could be opened is streamed as it is, with its type, its size
/// and the name that it is saved under; one that could not is answered for.
pub proof fn databases_are_streamed_with_their_size<F>(
    name: &str,
    clean: String,
    size: u64,
    opened: Opened<F>,
    answer: Result<FileReply<F>, Reply>,
)
    requires
        call_ensures(handlers::getdb_handler::<F>, (name, size, opened), answer),
        call_ensures(paths::clean_db_name, (name,), clean),
    ensures
        opened matches Opened::File(f) ==> {
            &&& answer matches Ok(r)
            &&& r.status == 200
            &&& r.file == f
            &&& r.chunk_size == 256 * 1024
            &&& r.headers@.len() == 3
            &&& r.headers@[0].0@ == "content-type"@
            &&& r.headers@[0].1@ == "application/vnd.sqlite3"@
            &&& r.headers@[1].0@ == "content-length"@
            &&& catalog::is_number(r.headers@[1].1@)
            &&& catalog::digits_value(r.headers@[1].1@) == size
            &&& r.headers@[1].1@.len() > 1 ==> r.headers@[1].1@[0] != '0'
            &&& r.headers@[2].0@ == "content-disposition"@
            &&& r.headers@[2].1@ == "attachment; filename=\""@ + clean@ + ".db_\""@
        },
        opened is Missing ==> (answer matches Err(r) && r.status == 404 && r.body is Error
            && r.body->Error_0.detail@ == "Database not found"@),
        opened is Failed ==> (answer matches Err(r) && r.status == 500 && r.body is Error
            && r.body->Error_0.detail@ == "Internal server error"@),
{
    laws::decimals_read_back(size as nat);
    laws::texts::lemma_no_leading_zero(size as nat);
    match answer {
        Ok(r) => {
            let fields = models::fields_view(r.headers@);
            assert(fields.len() == r.headers@.len());
            if opened is File {
                assert(fields.len() == 3);
                assert(fields[0] == (r.headers@[0].0@, r.headers@[0].1@));
                assert(fields[1] == (r.headers@[1].0@, r.headers@[1].1@));
                assert(fields[2] == (r.headers@[2].0@, r.headers@[2].1@));
            }
        },
        Err(r) => assert(r@.body is Error),
    }
}

/// An old-style file that could be opened goes on; one that could not is
/// answered for.
pub proof fn opened_files_go_on<F>(opened: Opened<F>, file: Result<F, Reply>)
    requires
        call_ensures(handlers::v7_microdl_opened::<F>, (opened,), file),
    ensures
        opened matches Opened::File(f) ==> file is Ok && file->Ok_0 == f,
        opened is Missing ==> (file matches Err(r) && r.status == 404 && r.body is Error
            && r.body->Error_0.detail@ == "Not found."@),
        opened is Failed ==> (file matches Err(r) && r.status == 500 && r.body is Error
            && r.body->Error_0.detail@ == "Internal server error"@),
{
    if let Err(r) = file {
        assert(r@.body is Error);
    }
}

/// An old-style file is streamed as it is, with its type and its size, where it
/// is a file at all; a directory is not there.
pub proof fn old_style_files_are_streamed_with_their_size<F>(
    file: F,
    metadata: Option<FileMetadata>,
    answer: Result<FileReply<F>, Reply>,
)
    requires
        call_ensures(handlers::v7_microdl_handler::<F>, (file, metadata), answer),
    ensures
        answer is Ok <==> metadata is Some && metadata->0.is_file,
        answer matches Ok(r) ==> {
            &&& r.status == 200
            &&& r.file == file
            &&& r.chunk_size == 256 * 1024
            &&& r.headers@.len() == 2
            &&& r.headers@[0].0@ == "content-type"@
            &&& r.headers@[0].1@ == "application/octet-stream"@
            &&& r.headers@[1].0@ == "content-length"@
            &&& catalog::is_number(r.headers@[1].1@)
            &&& catalog::digits_value(r.headers@[1].1@) == metadata->0.len
            &&& r.headers@[1].1@.len() > 1 ==> r.headers@[1].1@[0] != '0'
        },
        metadata is Some && !metadata->0.is_file ==> (answer matches Err(r) && r.status == 404
            && r.body is Error && r.body->Error_0.detail@ == "Not found."@),
        metadata is None ==> (answer matches Err(r) && r.status == 500 && r.body is Error
            && r.body->Error_0.detail@ == "Internal server error"@),
{
    match answer {
        Ok(r) => {
            let meta = metadata->0;
            laws::decimals_read_back(meta.len as nat);
            laws::texts::lemma_no_leading_zero(meta.len as nat);
            let fields = models::fields_view(r.headers@);
            assert(fields.len() == r.headers@.len());
            assert(fields == handlers::asset_headers(meta.len));
            assert(fields.len() == 2);
            assert(fields[0] == (r.headers@[0].0@, r.headers@[0].1@));
            assert(fields[1] == (r.headers@[1].0@, r.headers@[1].1@));
        },
        Err(r) => assert(r@.body is Error),
    }
}

} // verus!
