//! Requests that the API accepts and the data that it answers with, each with
//! its view as mathematical values.

use vstd::prelude::*;

verus! {

/// The digests of one downloadable file, in hexadecimal.
#[derive(Debug)]
pub struct Checksums {
    pub md5: String,
    pub sha256: String,
}

pub struct ChecksumsView {
    pub md5: Seq<char>,
    pub sha256: Seq<char>,
}

impl View for Checksums {
    type V = ChecksumsView;

    open spec fn view(&self) -> ChecksumsView {
        ChecksumsView { md5: self.md5@, sha256: self.sha256@ }
    }
}

/// One downloadable file. `detail` is what an endpoint adds to the common
/// fields: the game version of an update, the package id in a batch.
#[derive(Debug)]
pub struct Download<T> {
    pub url: String,
    pub size: u64,
    pub checksums: Checksums,
    pub detail: T,
}

pub struct DownloadView<V> {
    pub url: Seq<char>,
    pub size: u64,
    pub checksums: ChecksumsView,
    pub detail: V,
}

impl<T: View> View for Download<T> {
    type V = DownloadView<T::V>;

    open spec fn view(&self) -> DownloadView<T::V> {
        DownloadView {
            url: self.url@,
            size: self.size,
            checksums: self.checksums@,
            detail: self.detail@,
        }
    }
}

/// The views of a list of downloads, in order.
pub open spec fn downloads_view<T: View>(downloads: Seq<Download<T>>) -> Seq<DownloadView<T::V>> {
    downloads.map_values(|d: Download<T>| d@)
}

/// A JSON object whose values are strings: names and values, in order.
pub type Fields = Vec<(String, String)>;

/// The names and values of an object, in order.
pub open spec fn fields_view(fields: Seq<(String, String)>) -> Seq<(Seq<char>, Seq<char>)> {
    fields.map_values(|f: (String, String)| (f.0@, f.1@))
}

/// No name occurs twice.
pub open spec fn names_are_distinct(fields: Seq<(Seq<char>, Seq<char>)>) -> bool {
    forall|i: int, j: int|
        0 <= i < j < fields.len() ==> (#[trigger] fields[i]).0 != (#[trigger] fields[j]).0
}

/// Body of every error answer.
#[derive(Debug)]
pub struct ErrorResponseModel {
    pub detail: String,
}

/// A version of the download API.
#[derive(Debug, Clone, Copy, PartialEq, Eq, Structural)]
pub struct VersionModel {
    pub major: u32,
    pub minor: u32,
}

/// Body of the public information endpoint.
#[derive(Debug)]
pub struct PublicInfoModel {
    pub public_api: bool,
    pub dlapi_version: VersionModel,
    pub serve_time_limit: u32,
    pub game_version: String,
    pub application: Fields,
}

pub struct PublicInfoView {
    pub public_api: bool,
    pub dlapi_version: VersionModel,
    pub serve_time_limit: u32,
    pub game_version: Seq<char>,
    pub application: Seq<(Seq<char>, Seq<char>)>,
}

impl View for PublicInfoModel {
    type V = PublicInfoView;

    open spec fn view(&self) -> PublicInfoView {
        PublicInfoView {
            public_api: self.public_api,
            dlapi_version: self.dlapi_version,
            serve_time_limit: self.serve_time_limit,
            game_version: self.game_version@,
            application: fields_view(self.application@),
        }
    }
}

/// Asks for every update after the client's `version`.
#[derive(Debug)]
pub struct UpdateRequest {
    pub version: String,
    pub platform: u8,
}

/// Asks for all packages of one type but the excluded ones.
#[derive(Debug)]
pub struct BatchDownloadRequest {
    pub package_type: u32,
    pub platform: u8,
    pub exclude: Vec<u32>,
}

/// Asks for one package.
#[derive(Debug)]
pub struct DownloadRequest {
    pub package_type: u32,
    pub package_id: u32,
    pub platform: u8,
}

/// Asks for single micro-download files.
#[derive(Debug)]
pub struct MicroDownloadRequest {
    pub files: Vec<String>,
    pub platform: u8,
}

} // verus!
