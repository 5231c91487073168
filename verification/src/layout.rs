//! Where things are in an archive, as paths relative to its root. The paths of
//! archives and micro-download files are also what download links are made of.

use crate::catalog::GameVersion;
use crate::text::decimal_text;
use crate::text;
use vstd::prelude::*;

verus! {

/// The directory of a platform, by the platform's index.
pub open spec fn platform_dir_at_view(index: usize) -> Option<Seq<char>> {
    if index == 0 {
        Some("iOS"@)
    } else if index == 1 {
        Some("Android"@)
    } else {
        None
    }
}

/// The directory of a platform, by the platform's index.
pub fn platform_dir_at(index: usize) -> (dir: Option<&'static str>)
    ensures
        match dir {
            Some(d) => platform_dir_at_view(index) == Some(d@),
            None => platform_dir_at_view(index) is None,
        },
{
    match index {
        0 => Some("iOS"),
        1 => Some("Android"),
        _ => None,
    }
}

/// The list of the update versions below a platform's directory.
pub open spec fn update_list_view(platform: Seq<char>) -> Seq<char> {
    platform + "/update/infov2.json"@
}

/// The list of the update versions below a platform's directory.
pub fn update_list(platform: &str) -> (path: String)
    ensures
        path@ == update_list_view(platform@),
{
    platform.to_owned().concat("/update/infov2.json")
}

/// The directory of one update.
pub open spec fn update_dir_view(platform: Seq<char>, version: GameVersion) -> Seq<char> {
    platform + "/update/"@ + version.label_view()
}

/// The directory of one update.
pub fn update_dir(platform: &str, version: &GameVersion) -> (path: String)
    ensures
        path@ == update_dir_view(platform@, *version),
{
    platform.to_owned().concat("/update/").concat(version.label().as_str())
}

/// The list of the package versions below a platform's directory.
pub open spec fn package_list_view(platform: Seq<char>) -> Seq<char> {
    platform + "/package/info.json"@
}

/// The list of the package versions below a platform's directory.
pub fn package_list(platform: &str) -> (path: String)
    ensures
        path@ == package_list_view(platform@),
{
    platform.to_owned().concat("/package/info.json")
}

/// The directory of one package version.
pub open spec fn package_dir_view(platform: Seq<char>, version: GameVersion) -> Seq<char> {
    platform + "/package/"@ + version.label_view()
}

/// The directory of one package version.
pub fn package_dir(platform: &str, version: &GameVersion) -> (path: String)
    ensures
        path@ == package_dir_view(platform@, *version),
{
    platform.to_owned().concat("/package/").concat(version.label().as_str())
}

/// The list of the package ids of one type, below a package version.
pub open spec fn id_list_view(package_dir: Seq<char>, package_type: u32) -> Seq<char> {
    package_dir + "/"@ + text::decimal(package_type as nat) + "/info.json"@
}

/// The list of the package ids of one type, below a package version.
pub fn id_list(package_dir: &str, package_type: u32) -> (path: String)
    ensures
        path@ == id_list_view(package_dir@, package_type),
{
    package_dir.to_owned().concat("/").concat(decimal_text(package_type as u64).as_str()).concat(
        "/info.json",
    )
}

/// The directory of one package, below a package version.
pub open spec fn single_dir_view(package_dir: Seq<char>, package_type: u32, id: u32) -> Seq<char> {
    package_dir + "/"@ + text::decimal(package_type as nat) + "/"@ + text::decimal(id as nat)
}

/// The directory of one package, below a package version.
pub fn single_dir(package_dir: &str, package_type: u32, id: u32) -> (path: String)
    ensures
        path@ == single_dir_view(package_dir@, package_type, id),
{
    package_dir.to_owned().concat("/").concat(decimal_text(package_type as u64).as_str()).concat(
        "/",
    ).concat(decimal_text(id as u64).as_str())
}

/// The list of the archives in a directory.
pub open spec fn archive_list_view(dir: Seq<char>) -> Seq<char> {
    dir + "/infov2.json"@
}

/// The list of the archives in a directory.
pub fn archive_list(dir: &str) -> (path: String)
    ensures
        path@ == archive_list_view(dir@),
{
    dir.to_owned().concat("/infov2.json")
}

/// An archive in a directory.
pub open spec fn archive_file_view(dir: Seq<char>, name: Seq<char>) -> Seq<char> {
    dir + "/"@ + name
}

/// An archive in a directory.
pub fn archive_file(dir: &str, name: &str) -> (path: String)
    ensures
        path@ == archive_file_view(dir@, name@),
{
    dir.to_owned().concat("/").concat(name)
}

/// A decrypted database, below a package version.
pub open spec fn database_path_view(package_dir: Seq<char>, file: Seq<char>) -> Seq<char> {
    package_dir + "/db/"@ + file
}

/// A decrypted database, below a package version.
pub fn database_path(package_dir: &str, file: &str) -> (path: String)
    ensures
        path@ == database_path_view(package_dir@, file@),
{
    package_dir.to_owned().concat("/db/").concat(file)
}

/// The list of the micro-download files, below a package version.
pub open spec fn micro_list_view(package_dir: Seq<char>) -> Seq<char> {
    package_dir + "/microdl/info.json"@
}

/// The list of the micro-download files, below a package version.
pub fn micro_list(package_dir: &str) -> (path: String)
    ensures
        path@ == micro_list_view(package_dir@),
{
    package_dir.to_owned().concat("/microdl/info.json")
}

/// A micro-download file, below a package version.
pub open spec fn micro_file_view(package_dir: Seq<char>, file: Seq<char>) -> Seq<char> {
    package_dir + "/microdl/"@ + file
}

/// A micro-download file, below a package version.
pub fn micro_file(package_dir: &str, file: &str) -> (path: String)
    ensures
        path@ == micro_file_view(package_dir@, file@),
{
    package_dir.to_owned().concat("/microdl/").concat(file)
}

/// The decryption keys of micro-download packages.
pub fn release_info_file() -> (path: &'static str)
    ensures
        path@ == "release_info.json"@,
{
    "release_info.json"
}

} // verus!
