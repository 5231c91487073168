//! What each endpoint asks of the archive and what it answers.
//!
//! An endpoint that consults the archive has two sides. Its query function
//! decides, from the request alone, what to ask for or which answer refuses the
//! request; nothing is read before it has agreed. Its handler turns what came
//! back into the answer.

use crate::catalog::GameVersion;
use crate::config::Config;
use crate::models::{
    BatchDownloadRequest, Download, DownloadRequest, Fields, MicroDownloadRequest, PublicInfoModel,
    UpdateRequest, VersionModel,
};
use crate::models;
use crate::paths::{clean_db_name, clean_version, platform_dir, sanitize_path};
use crate::paths;
use crate::reply::{
    bad_request, database_not_found, error_reply, internal_error, not_found, Body, Reply,
};
use crate::reply;
use crate::text::{decimal_text, decimal_two_text};
use crate::text;
use crate::urls::publish_urls;
use crate::urls;
use axum::http::{HeaderMap, HeaderValue};
use vstd::prelude::*;

verus! {

pub const DLAPI_MAJOR_VERSION: u32 = 1;

pub const DLAPI_MINOR_VERSION: u32 = 1;

/// The release of this program, as year, month and day.
pub const PROGRAM_YEAR: u32 = 2023;

pub const PROGRAM_MONTH: u32 = 5;

pub const PROGRAM_DAY: u32 = 14;

/// How much of a file is read at a time while it is streamed.
pub const STREAM_CHUNK: usize = 262144;

// ---- Platforms ----

/// The index of a platform, by its number in requests.
pub open spec fn platform_index(platform: u8) -> Option<usize> {
    if platform == 1 {
        Some(0)
    } else if platform == 2 {
        Some(1)
    } else {
        None
    }
}

/// Maps the platform number of a request (1 for iOS, 2 for Android) to a
/// zero-based index.
pub fn validate_platform(platform: u8) -> (index: Option<usize>)
    ensures
        index == platform_index(platform),
{
    match platform {
        1 => Some(0),
        2 => Some(1),
        _ => None,
    }
}

/// The answer to a request with an unknown platform.
pub open spec fn invalid_platform() -> reply::ReplyView {
    reply::error_view(reply::BAD_REQUEST, "Invalid platform"@)
}

/// The index of the platform, or the answer that refuses it.
pub fn known_platform(platform: u8) -> (index: Result<usize, Reply>)
    ensures
        match index {
            Ok(i) => platform_index(platform) == Some(i),
            Err(r) => platform_index(platform) is None && r@ == invalid_platform(),
        },
{
    match validate_platform(platform) {
        Some(i) => Ok(i),
        None => Err(bad_request("Invalid platform")),
    }
}

/// The packages have the types 0 to 6.
pub open spec fn is_package_type(package_type: u32) -> bool {
    package_type <= 6
}

/// The answer to a batch of an unknown package type.
pub open spec fn unknown_package_type() -> reply::ReplyView {
    reply::error_view(reply::NOT_FOUND, "Package type not found"@)
}

/// The answer to a download of an unknown package.
pub open spec fn unknown_package() -> reply::ReplyView {
    reply::error_view(reply::NOT_FOUND, "Package not found"@)
}

/// The answer when the archive cannot be read.
pub open spec fn archive_failure() -> reply::ReplyView {
    reply::error_view(reply::INTERNAL_SERVER_ERROR, "Internal server error"@)
}

// ---- Public information ----

/// The program's release, such as `2023.05.14`.
pub open spec fn program_version_view() -> Seq<char> {
    text::decimal(PROGRAM_YEAR as nat) + "."@ + text::decimal_two(PROGRAM_MONTH as nat) + "."@
        + text::decimal_two(PROGRAM_DAY as nat)
}

/// Writes the program's release.
pub fn program_version() -> (version: String)
    ensures
        version@ == program_version_view(),
{
    let mut version = decimal_text(PROGRAM_YEAR as u64);
    version.append(".");
    version.append(decimal_two_text(PROGRAM_MONTH as u64).as_str());
    version.append(".");
    version.append(decimal_two_text(PROGRAM_DAY as u64).as_str());
    version
}

/// What the public information endpoint tells of an archive whose last game
/// version is `latest`.
pub open spec fn public_info_view(
    config: Config,
    git_commit: Seq<char>,
    latest: GameVersion,
) -> models::PublicInfoView {
    models::PublicInfoView {
        public_api: config.public || config.shared_key@.len() == 0,
        dlapi_version: VersionModel { major: DLAPI_MAJOR_VERSION, minor: DLAPI_MINOR_VERSION },
        serve_time_limit: 0,
        game_version: latest.label_view(),
        application: seq![
            ("NPPS4DLAPICommit"@, git_commit),
            ("NPPS4DLAPIVersion"@, program_version_view()),
        ],
    }
}

/// `GET /api/publicinfo`
pub fn publicinfo_handler(
    config: &Config,
    git_commit: &str,
    latest: Result<GameVersion, String>,
) -> (answer: Reply)
    ensures
        answer@ == match latest {
            Ok(v) => (reply::ReplyView {
                status: reply::OK,
                body: reply::BodyView::PublicInfo(public_info_view(*config, git_commit@, v)),
            }),
            Err(_) => archive_failure(),
        },
{
    let version = match latest {
        Ok(version) => version,
        Err(_) => return internal_error(),
    };
    let mut application: Fields = Vec::new();
    application.push(("NPPS4DLAPICommit".to_owned(), git_commit.to_owned()));
    application.push(("NPPS4DLAPIVersion".to_owned(), program_version()));
    let info = PublicInfoModel {
        public_api: config.is_public_accessible(),
        dlapi_version: VersionModel { major: DLAPI_MAJOR_VERSION, minor: DLAPI_MINOR_VERSION },
        serve_time_limit: 0,
        game_version: version.label(),
        application,
    };
    assert(info@.application =~= public_info_view(*config, git_commit@, version).application);
    Reply { status: reply::OK, body: Body::PublicInfo(info) }
}

// ---- Updates ----

/// Asks for the updates after `version`.
#[derive(Debug)]
pub struct UpdateQuery {
    pub version: String,
    pub platform: usize,
}

/// What `POST /api/v1/update` asks of the archive.
pub fn update_query(param: UpdateRequest) -> (query: Result<UpdateQuery, Reply>)
    ensures
        match query {
            Ok(q) => platform_index(param.platform) == Some(q.platform) && q.version
                == param.version,
            Err(r) => platform_index(param.platform) is None && r@ == invalid_platform(),
        },
{
    match known_platform(param.platform) {
        Ok(platform) => Ok(UpdateQuery { version: param.version, platform }),
        Err(refusal) => Err(refusal),
    }
}

/// `POST /api/v1/update`
pub fn update_handler(
    config: &Config,
    headers: &HeaderMap<HeaderValue>,
    found: Result<Vec<Download<String>>, String>,
) -> (answer: Reply)
    ensures
        answer@ == match found {
            Ok(list) => (reply::ReplyView {
                status: reply::OK,
                body: reply::BodyView::Updates(
                    urls::published(
                        *headers,
                        config.base_url_view(),
                        models::downloads_view(list@),
                    ),
                ),
            }),
            Err(_) => archive_failure(),
        },
{
    match found {
        Ok(list) => {
            let mut downloads = list;
            publish_urls(headers, config.base_url(), &mut downloads);
            Reply { status: reply::OK, body: Body::Updates(downloads) }
        },
        Err(_) => internal_error(),
    }
}

// ---- Batches ----

/// Asks for the packages of one type but the excluded ones.
#[derive(Debug)]
pub struct BatchQuery {
    pub package_type: u32,
    pub platform: usize,
    pub exclude: Vec<u32>,
}

/// What `POST /api/v1/batch` asks of the archive.
pub fn batch_query(param: BatchDownloadRequest) -> (query: Result<BatchQuery, Reply>)
    ensures
        match query {
            Ok(q) => {
                &&& platform_index(param.platform) == Some(q.platform)
                &&& is_package_type(param.package_type)
                &&& q.package_type == param.package_type
                &&& q.exclude == param.exclude
            },
            Err(r) => if platform_index(param.platform) is None {
                r@ == invalid_platform()
            } else {
                !is_package_type(param.package_type) && r@ == unknown_package_type()
            },
        },
{
    let platform = match known_platform(param.platform) {
        Ok(platform) => platform,
        Err(refusal) => return Err(refusal),
    };
    if param.package_type > 6 {
        return Err(error_reply(reply::NOT_FOUND, "Package type not found"));
    }
    Ok(BatchQuery { package_type: param.package_type, platform, exclude: param.exclude })
}

/// `POST /api/v1/batch`
pub fn batch_handler(
    config: &Config,
    headers: &HeaderMap<HeaderValue>,
    found: Result<Option<Vec<Download<u32>>>, String>,
) -> (answer: Reply)
    ensures
        answer@ == match found {
            Ok(Some(list)) => (reply::ReplyView {
                status: reply::OK,
                body: reply::BodyView::Packages(
                    urls::published(
                        *headers,
                        config.base_url_view(),
                        models::downloads_view(list@),
                    ),
                ),
            }),
            Ok(None) => unknown_package_type(),
            Err(_) => archive_failure(),
        },
{
    match found {
        Ok(Some(list)) => {
            let mut downloads = list;
            publish_urls(headers, config.base_url(), &mut downloads);
            Reply { status: reply::OK, body: Body::Packages(downloads) }
        },
        Ok(None) => error_reply(reply::NOT_FOUND, "Package type not found"),
        Err(_) => internal_error(),
    }
}

// ---- Single packages ----

/// Asks for one package.
#[derive(Debug, Clone, Copy)]
pub struct DownloadQuery {
    pub package_type: u32,
    pub package_id: u32,
    pub platform: usize,
}

/// What `POST /api/v1/download` asks of the archive.
pub fn download_query(param: DownloadRequest) -> (query: Result<DownloadQuery, Reply>)
    ensures
        match query {
            Ok(q) => {
                &&& platform_index(param.platform) == Some(q.platform)
                &&& is_package_type(param.package_type)
                &&& q.package_type == param.package_type
                &&& q.package_id == param.package_id
            },
            Err(r) => if platform_index(param.platform) is None {
                r@ == invalid_platform()
            } else {
                !is_package_type(param.package_type) && r@ == unknown_package()
            },
        },
{
    let platform = match known_platform(param.platform) {
        Ok(platform) => platform,
        Err(refusal) => return Err(refusal),
    };
    if param.package_type > 6 {
        return Err(error_reply(reply::NOT_FOUND, "Package not found"));
    }
    Ok(
        DownloadQuery {
            package_type: param.package_type,
            package_id: param.package_id,
            platform,
        },
    )
}

/// `POST /api/v1/download`
pub fn download_handler(
    config: &Config,
    headers: &HeaderMap<HeaderValue>,
    found: Result<Option<Vec<Download<()>>>, String>,
) -> (answer: Reply)
    ensures
        answer@ == match found {
            Ok(Some(list)) => (reply::ReplyView {
                status: reply::OK,
                body: reply::BodyView::Files(
                    urls::published(
                        *headers,
                        config.base_url_view(),
                        models::downloads_view(list@),
                    ),
                ),
            }),
            Ok(None) => unknown_package(),
            Err(_) => archive_failure(),
        },
{
    match found {
        Ok(Some(list)) => {
            let mut downloads = list;
            publish_urls(headers, config.base_url(), &mut downloads);
            Reply { status: reply::OK, body: Body::Files(downloads) }
        },
        Ok(None) => error_reply(reply::NOT_FOUND, "Package not found"),
        Err(_) => internal_error(),
    }
}

// ---- Micro-download files ----

/// The files that a request names and what was found of them so far.
#[derive(Debug)]
pub struct FileQueries {
    pub files: Vec<String>,
    pub platform: usize,
    pub found: Vec<Download<()>>,
}

impl FileQueries {
    /// Answers come in the order of the files, at most one for each.
    pub open spec fn well_formed(self) -> bool {
        self.found@.len() <= self.files@.len()
    }

    /// A file has no answer yet.
    pub open spec fn is_pending(self) -> bool {
        self.found@.len() < self.files@.len()
    }

    /// The file to look up next, if one is left.
    pub fn next(&self) -> (file: Option<&String>)
        ensures
            match file {
                Some(f) => self.is_pending() && *f == self.files@[self.found@.len() as int],
                None => !self.is_pending(),
            },
    {
        if self.found.len() < self.files.len() {
            Some(&self.files[self.found.len()])
        } else {
            None
        }
    }

    /// Takes what came back for the next file. A failure ends the request with
    /// the answer that is returned.
    pub fn record(&mut self, result: Result<Download<()>, String>) -> (failure: Option<Reply>)
        ensures
            old(self).is_pending() ==> final(self).well_formed(),
            final(self).files == old(self).files,
            final(self).platform == old(self).platform,
            match result {
                Ok(d) => failure is None && final(self).found@ == old(self).found@.push(d),
                Err(_) => failure is Some && failure->0@ == archive_failure() && final(self).found
                    == old(self).found,
            },
    {
        match result {
            Ok(download) => {
                self.found.push(download);
                None
            },
            Err(_) => Some(internal_error()),
        }
    }
}

/// What `POST /api/v1/getfile` asks of the archive.
pub fn getfile_query(param: MicroDownloadRequest) -> (query: Result<FileQueries, Reply>)
    ensures
        match query {
            Ok(q) => {
                &&& platform_index(param.platform) == Some(q.platform)
                &&& q.files == param.files
                &&& q.found@.len() == 0
                &&& q.well_formed()
            },
            Err(r) => platform_index(param.platform) is None && r@ == invalid_platform(),
        },
{
    match known_platform(param.platform) {
        Ok(platform) => Ok(FileQueries { files: param.files, platform, found: Vec::new() }),
        Err(refusal) => Err(refusal),
    }
}

/// `POST /api/v1/getfile`: the answers found, one for each file once none is
/// pending.
pub fn getfile_handler(
    config: &Config,
    headers: &HeaderMap<HeaderValue>,
    queries: FileQueries,
) -> (answer: Reply)
    ensures
        answer@ == (reply::ReplyView {
            status: reply::OK,
            body: reply::BodyView::Files(
                urls::published(
                    *headers,
                    config.base_url_view(),
                    models::downloads_view(queries.found@),
                ),
            ),
        }),
        queries.well_formed() && !queries.is_pending() ==> answer@.body->Files_0.len()
            == queries.files@.len(),
{
    let mut downloads = queries.found;
    publish_urls(headers, config.base_url(), &mut downloads);
    Reply { status: reply::OK, body: Body::Files(downloads) }
}

// ---- Release information and health ----

/// `GET /api/v1/release_info`
pub fn release_info_handler(found: Result<Fields, String>) -> (answer: Reply)
    ensures
        answer@ == match found {
            Ok(keys) => (reply::ReplyView {
                status: reply::OK,
                body: reply::BodyView::Object(models::fields_view(keys@)),
            }),
            Err(_) => archive_failure(),
        },
{
    match found {
        Ok(keys) => Reply { status: reply::OK, body: Body::Object(keys) },
        Err(_) => internal_error(),
    }
}

/// What is told of an archive that can be read and ends at `latest`.
pub open spec fn healthy_view(latest: GameVersion) -> Seq<(Seq<char>, Seq<char>)> {
    seq![("status"@, "ok"@), ("gameVersion"@, latest.label_view())]
}

/// What is told of an archive that cannot be read, because of `why`.
pub open spec fn degraded_view(why: Seq<char>) -> Seq<(Seq<char>, Seq<char>)> {
    seq![("status"@, "degraded"@), ("detail"@, why)]
}

/// `GET /health`: whether the archive can be read, and if not, why.
pub fn health_handler(latest: Result<GameVersion, String>) -> (answer: Reply)
    ensures
        answer@ == match latest {
            Ok(v) => (reply::ReplyView {
                status: reply::OK,
                body: reply::BodyView::Object(healthy_view(v)),
            }),
            Err(why) => (reply::ReplyView {
                status: reply::SERVICE_UNAVAILABLE,
                body: reply::BodyView::Object(degraded_view(why@)),
            }),
        },
{
    let mut fields: Fields = Vec::new();
    match latest {
        Ok(version) => {
            fields.push(("status".to_owned(), "ok".to_owned()));
            fields.push(("gameVersion".to_owned(), version.label()));
            assert(models::fields_view(fields@) =~= healthy_view(version));
            Reply { status: reply::OK, body: Body::Object(fields) }
        },
        Err(why) => {
            fields.push(("status".to_owned(), "degraded".to_owned()));
            fields.push(("detail".to_owned(), why));
            assert(models::fields_view(fields@) =~= degraded_view(why@));
            Reply { status: reply::SERVICE_UNAVAILABLE, body: Body::Object(fields) }
        },
    }
}

// ---- Files that are streamed ----

/// What came of opening a file.
#[derive(Debug)]
pub enum Opened<F> {
    File(F),
    Missing,
    Failed,
}

/// A file to stream, with the headers that go before it.
#[derive(Debug)]
pub struct FileReply<F> {
    pub status: u16,
    pub headers: Fields,
    pub chunk_size: usize,
    pub file: F,
}

/// What `GET /api/v1/getdb/{name}` opens: the database that the archive found,
/// with its size.
pub fn getdb_query<P>(found: Result<Option<(P, u64)>, String>) -> (target: Result<(P, u64), Reply>)
    ensures
        match found {
            Ok(Some(database)) => target == Ok::<(P, u64), Reply>(database),
            Ok(None) => target is Err && target->Err_0@ == reply::error_view(
                reply::NOT_FOUND,
                "Database not found"@,
            ),
            Err(_) => target is Err && target->Err_0@ == archive_failure(),
        },
{
    match found {
        Ok(Some(database)) => Ok(database),
        Ok(None) => Err(database_not_found()),
        Err(_) => Err(internal_error()),
    }
}

/// The header that names the file a database is saved as.
pub open spec fn disposition_view(name: Seq<char>) -> Seq<char> {
    "attachment; filename=\""@ + paths::db_name_view(name) + ".db_\""@
}

/// Headers of a database of `size` bytes that was asked for as `name`.
pub open spec fn database_headers(name: Seq<char>, size: u64) -> Seq<(Seq<char>, Seq<char>)> {
    seq![
        ("content-type"@, "application/vnd.sqlite3"@),
        ("content-length"@, text::decimal(size as nat)),
        ("content-disposition"@, disposition_view(name)),
    ]
}

/// `GET /api/v1/getdb/{name}`, once the database was opened or not.
pub fn getdb_handler<F>(name: &str, size: u64, opened: Opened<F>) -> (answer: Result<
    FileReply<F>,
    Reply,
>)
    ensures
        match opened {
            Opened::File(f) => {
                &&& answer matches Ok(r)
                &&& r.status == reply::OK
                &&& models::fields_view(r.headers@) == database_headers(name@, size)
                &&& r.chunk_size == STREAM_CHUNK
                &&& r.file == f
            },
            Opened::Missing => answer is Err && answer->Err_0@ == reply::error_view(
                reply::NOT_FOUND,
                "Database not found"@,
            ),
            Opened::Failed => answer is Err && answer->Err_0@ == archive_failure(),
        },
{
    let file = match opened {
        Opened::File(file) => file,
        Opened::Missing => return Err(database_not_found()),
        Opened::Failed => return Err(internal_error()),
    };
    let mut disposition = "attachment; filename=\"".to_owned();
    disposition.append(clean_db_name(name).as_str());
    disposition.append(".db_\"");
    let mut headers: Fields = Vec::new();
    headers.push(("content-type".to_owned(), "application/vnd.sqlite3".to_owned()));
    headers.push(("content-length".to_owned(), decimal_text(size)));
    headers.push(("content-disposition".to_owned(), disposition));
    assert(models::fields_view(headers@) =~= database_headers(name@, size));
    Ok(FileReply { status: reply::OK, headers, chunk_size: STREAM_CHUNK, file })
}

/// Where below the archive root an old-style micro-download path leads: the
/// parts of the path, outermost first.
pub open spec fn v7_parts(dir: Seq<char>, version: Seq<char>, file: Seq<char>) -> Seq<Seq<char>> {
    seq![dir, "package"@, version, "microdl"@, file]
}

/// The views of a list of strings.
pub open spec fn texts_view(texts: Seq<String>) -> Seq<Seq<char>> {
    texts.map_values(|t: String| t@)
}

/// What a `v7` path opens, with the platform's name in lower case: a file below
/// the archive root, or nothing where the platform is unknown or no file is
/// named. Of the version only digits and dots count, and a version that comes
/// to `.` or `..` counts for nothing.
pub open spec fn v7_target_view(lower: Seq<char>, version: Seq<char>, file_path: Seq<char>) -> Option<
    Seq<Seq<char>>,
> {
    match paths::platform_dir_view(lower) {
        Some(dir) if paths::sanitized(file_path).len() > 0 => Some(
            v7_parts(
                dir,
                paths::sanitized(paths::version_view(version)),
                paths::sanitized(file_path),
            ),
        ),
        _ => None,
    }
}

/// `target` opens what `expected` says, or else answers that nothing is there.
pub open spec fn opens(target: Result<Vec<String>, Reply>, expected: Option<Seq<Seq<char>>>) -> bool {
    match expected {
        Some(parts) => target is Ok && texts_view(target->Ok_0@) == parts,
        None => target is Err && target->Err_0@ == reply::error_view(
            reply::NOT_FOUND,
            "Not found."@,
        ),
    }
}

/// What `GET /v7/micro_download/{platform}/{version}/{*file_path}` opens.
/// Capitals in the platform's name do not matter.
pub fn v7_microdl_query(platform: &str, version: &str, file_path: &str) -> (target: Result<
    Vec<String>,
    Reply,
>)
    ensures
        opens(
            target,
            v7_target_view(paths::lowercase_text(platform@), version@, file_path@),
        ),
        platform.is_ascii() ==> opens(
            target,
            v7_target_view(paths::ascii_lowered(platform@), version@, file_path@),
        ),
{
    let lower = platform.to_lowercase();
    v7_microdl_parts(lower.as_str(), version, file_path)
}

/// What a `v7` path opens, with the platform's name in lower case.
pub fn v7_microdl_parts(lower: &str, version: &str, file_path: &str) -> (target: Result<
    Vec<String>,
    Reply,
>)
    ensures
        opens(target, v7_target_view(lower@, version@, file_path@)),
{
    let dir = match platform_dir(lower) {
        Some(dir) => dir,
        None => return Err(not_found()),
    };
    let version_clean = sanitize_path(clean_version(version).as_str());
    let file = sanitize_path(file_path);
    if file.as_str().is_empty() {
        return Err(not_found());
    }
    let mut parts: Vec<String> = Vec::new();
    parts.push(dir.to_owned());
    parts.push("package".to_owned());
    parts.push(version_clean);
    parts.push("microdl".to_owned());
    parts.push(file);
    assert(texts_view(parts@) =~= v7_parts(
        dir@,
        paths::sanitized(paths::version_view(version@)),
        paths::sanitized(file_path@),
    ));
    Ok(parts)
}

/// What came of opening an old-style micro-download file: the file, or the
/// answer that ends the request.
pub fn v7_microdl_opened<F>(opened: Opened<F>) -> (file: Result<F, Reply>)
    ensures
        match opened {
            Opened::File(f) => file == Ok::<F, Reply>(f),
            Opened::Missing => file is Err && file->Err_0@ == reply::error_view(
                reply::NOT_FOUND,
                "Not found."@,
            ),
            Opened::Failed => file is Err && file->Err_0@ == archive_failure(),
        },
{
    match opened {
        Opened::File(file) => Ok(file),
        Opened::Missing => Err(not_found()),
        Opened::Failed => Err(internal_error()),
    }
}

/// What the file system tells of an open file.
#[derive(Debug, Clone, Copy)]
pub struct FileMetadata {
    pub is_file: bool,
    pub len: u64,
}

/// Headers of an old-style micro-download file of `len` bytes.
pub open spec fn asset_headers(len: u64) -> Seq<(Seq<char>, Seq<char>)> {
    seq![
        ("content-type"@, "application/octet-stream"@),
        ("content-length"@, text::decimal(len as nat)),
    ]
}

/// `GET /v7/micro_download/{platform}/{version}/{*file_path}`, for an open file
/// and its metadata, if that could be had.
pub fn v7_microdl_handler<F>(file: F, metadata: Option<FileMetadata>) -> (answer: Result<
    FileReply<F>,
    Reply,
>)
    ensures
        match metadata {
            Some(meta) if meta.is_file => {
                &&& answer matches Ok(r)
                &&& r.status == reply::OK
                &&& models::fields_view(r.headers@) == asset_headers(meta.len)
                &&& r.chunk_size == STREAM_CHUNK
                &&& r.file == file
            },
            Some(_) => answer is Err && answer->Err_0@ == reply::error_view(
                reply::NOT_FOUND,
                "Not found."@,
            ),
            None => answer is Err && answer->Err_0@ == archive_failure(),
        },
{
    let meta = match metadata {
        Some(meta) => meta,
        None => return Err(internal_error()),
    };
    if !meta.is_file {
        return Err(not_found());
    }
    let mut headers: Fields = Vec::new();
    headers.push(("content-type".to_owned(), "application/octet-stream".to_owned()));
    headers.push(("content-length".to_owned(), decimal_text(meta.len)));
    assert(models::fields_view(headers@) =~= asset_headers(meta.len));
    Ok(FileReply { status: reply::OK, headers, chunk_size: STREAM_CHUNK, file })
}

} // verus!
