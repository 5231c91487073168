//! Where things are in an archive, component by component.

use crate::catalog;
use crate::catalog::GameVersion;
use crate::laws;
use crate::laws::names;
use crate::layout;
use crate::paths;
use crate::text;
use vstd::prelude::*;

verus! {

/// The two platforms have the indices 0 and 1, and each its directory.
pub proof fn platforms_by_index(index: usize, dir: Option<&'static str>)
    requires
        call_ensures(layout::platform_dir_at, (index,), dir),
    ensures
        dir is Some <==> index < 2,
        index == 0 ==> dir->0@ == "iOS"@,
        index == 1 ==> dir->0@ == "Android"@,
{
}

proof fn lemma_number_is_one_component(n: nat)
    ensures
        !text::decimal(n).contains('/'),
        paths::components(text::decimal(n)) == seq![text::decimal(n)],
{
    laws::decimals_read_back(n);
    let digits = text::decimal(n);
    if digits.contains('/') {
        let i = digits.index_of('/');
        assert('0' <= digits[i] <= '9');
    }
    names::one_component_is_the_whole(digits);
}

proof fn lemma_label_is_one_component(v: GameVersion)
    ensures
        !v.label_view().contains('/'),
        paths::components(v.label_view()) == seq![v.label_view()],
{
    reveal_strlit(".");
    let label = v.label_view();
    let major = text::decimal(v.major as nat);
    let minor = text::decimal(v.minor as nat);
    lemma_number_is_one_component(v.major as nat);
    lemma_number_is_one_component(v.minor as nat);
    if label.contains('/') {
        let i = label.index_of('/');
        if i < major.len() {
            assert(major[i] == '/');
            assert(major.contains('/'));
        } else if i > major.len() {
            assert(minor[i - major.len() - 1] == '/');
            assert(minor.contains('/'));
        }
    }
    names::one_component_is_the_whole(label);
}

/// Two paths with a known slash-free name between them.
proof fn lemma_three(head: Seq<char>, name: Seq<char>, tail: Seq<char>)
    requires
        !name.contains('/'),
    ensures
        paths::components(head + "/"@ + name + "/"@ + tail) == paths::components(head).push(name)
            + paths::components(tail),
{
    names::one_component_is_the_whole(name);
    names::components_of_two_paths(head, name);
    names::components_of_two_paths(head + "/"@ + name, tail);
    assert(paths::components(head) + seq![name] =~= paths::components(head).push(name));
}

/// An archive lies in its directory under its own name: the path is the
/// directory, a slash and the name, whatever these are.
pub proof fn archives_lie_in_their_directory(dir: &str, name: &str, path: String)
    requires
        call_ensures(layout::archive_file, (dir, name), path),
    ensures
        path@.len() == dir@.len() + 1 + name@.len(),
        path@.take(dir@.len() as int) == dir@,
        path@[dir@.len() as int] == '/',
        path@.skip(dir@.len() as int + 1) == name@,
        paths::components(path@) == paths::components(dir@) + paths::components(name@),
        !name@.contains('/') ==> paths::components(path@) == paths::components(dir@).push(name@),
{
    reveal_strlit("/");
    assert(path@.take(dir@.len() as int) =~= dir@);
    assert(path@.skip(dir@.len() as int + 1) =~= name@);
    names::components_of_two_paths(dir@, name@);
    if !name@.contains('/') {
        names::one_component_is_the_whole(name@);
        assert(paths::components(path@) =~= paths::components(dir@).push(name@));
    }
}

/// Archives of different names in a directory have different paths.
pub proof fn archives_have_paths_of_their_own(
    dir: &str,
    a: &str,
    b: &str,
    path_a: String,
    path_b: String,
)
    requires
        call_ensures(layout::archive_file, (dir, a), path_a),
        call_ensures(layout::archive_file, (dir, b), path_b),
        path_a@ == path_b@,
    ensures
        a@ == b@,
{
    archives_lie_in_their_directory(dir, a, path_a);
    archives_lie_in_their_directory(dir, b, path_b);
}

/// The lists of updates and packages of a platform.
pub proof fn platforms_list_their_versions(platform: &str, updates: String, packages: String)
    requires
        call_ensures(layout::update_list, (platform,), updates),
        call_ensures(layout::package_list, (platform,), packages),
    ensures
        paths::components(updates@) == paths::components(platform@) + seq![
            "update"@,
            "infov2.json"@,
        ],
        paths::components(packages@) == paths::components(platform@) + seq![
            "package"@,
            "info.json"@,
        ],
        updates@ == platform@ + "/update/infov2.json"@,
        packages@ == platform@ + "/package/info.json"@,
{
    reveal_strlit("/");
    reveal_strlit("update");
    reveal_strlit("infov2.json");
    reveal_strlit("package");
    reveal_strlit("info.json");
    reveal_strlit("/update/infov2.json");
    reveal_strlit("/package/info.json");
    lemma_three(platform@, "update"@, "infov2.json"@);
    lemma_three(platform@, "package"@, "info.json"@);
    assert(updates@ =~= platform@ + "/"@ + "update"@ + "/"@ + "infov2.json"@);
    assert(packages@ =~= platform@ + "/"@ + "package"@ + "/"@ + "info.json"@);
    names::one_component_is_the_whole("infov2.json"@);
    names::one_component_is_the_whole("info.json"@);
    assert(paths::components(updates@) =~= paths::components(platform@) + seq![
        "update"@,
        "infov2.json"@,
    ]);
    assert(paths::components(packages@) =~= paths::components(platform@) + seq![
        "package"@,
        "info.json"@,
    ]);
}

/// An update and a package version have a directory each, below the platform's,
/// whose last component is the version as it is written.
pub proof fn versions_have_their_directories(
    platform: &str,
    v: GameVersion,
    label: String,
    update: String,
    package: String,
)
    requires
        call_ensures(GameVersion::label, (&v,), label),
        call_ensures(layout::update_dir, (platform, &v), update),
        call_ensures(layout::package_dir, (platform, &v), package),
    ensures
        paths::components(update@) == paths::components(platform@) + seq!["update"@, label@],
        paths::components(package@) == paths::components(platform@) + seq!["package"@, label@],
{
    reveal_strlit("/");
    reveal_strlit("update");
    reveal_strlit("package");
    reveal_strlit("/update/");
    reveal_strlit("/package/");
    lemma_label_is_one_component(v);
    lemma_three(platform@, "update"@, label@);
    lemma_three(platform@, "package"@, label@);
    assert(update@ =~= platform@ + "/"@ + "update"@ + "/"@ + label@);
    assert(package@ =~= platform@ + "/"@ + "package"@ + "/"@ + label@);
    assert(paths::components(update@) =~= paths::components(platform@) + seq!["update"@, label@]);
    assert(paths::components(package@) =~= paths::components(platform@) + seq![
        "package"@,
        label@,
    ]);
}

/// Different versions have different directories, for updates and for packages.
pub proof fn versions_do_not_share_a_directory(
    platform: &str,
    v: GameVersion,
    w: GameVersion,
    update_v: String,
    update_w: String,
    package_v: String,
    package_w: String,
)
    requires
        call_ensures(layout::update_dir, (platform, &v), update_v),
        call_ensures(layout::update_dir, (platform, &w), update_w),
        call_ensures(layout::package_dir, (platform, &v), package_v),
        call_ensures(layout::package_dir, (platform, &w), package_w),
    ensures
        update_v@ == update_w@ ==> v == w,
        package_v@ == package_w@ ==> v == w,
        update_v@ != package_w@,
{
    reveal_strlit("/update/");
    reveal_strlit("/package/");
    let p = platform@.len() as int;
    if update_v@ == update_w@ {
        let n = p + "/update/"@.len();
        assert(update_v@.skip(n) =~= v.label_view());
        assert(update_w@.skip(n) =~= w.label_view());
        laws::labels_are_distinct(v, w);
    }
    if package_v@ == package_w@ {
        let n = p + "/package/"@.len();
        assert(package_v@.skip(n) =~= v.label_view());
        assert(package_w@.skip(n) =~= w.label_view());
        laws::labels_are_distinct(v, w);
    }
    assert(update_v@[p + 1] == 'u');
    assert(package_w@[p + 1] == 'p');
}

/// The packages of a type are listed below the type, and each package has its
/// directory there: the components that follow are the type and the id, in
/// decimal.
pub proof fn packages_lie_below_their_type(
    dir: &str,
    package_type: u32,
    id: u32,
    type_text: String,
    id_text: String,
    list: String,
    single: String,
)
    requires
        call_ensures(text::decimal_text, (package_type as u64,), type_text),
        call_ensures(text::decimal_text, (id as u64,), id_text),
        call_ensures(layout::id_list, (dir, package_type), list),
        call_ensures(layout::single_dir, (dir, package_type, id), single),
    ensures
        paths::components(list@) == paths::components(dir@) + seq![type_text@, "info.json"@],
        paths::components(single@) == paths::components(dir@) + seq![type_text@, id_text@],
        ({
            let last = paths::components(single@).last();
            let before = paths::components(single@).drop_last().last();
            &&& catalog::is_number(last)
            &&& catalog::digits_value(last) == id
            &&& catalog::is_number(before)
            &&& catalog::digits_value(before) == package_type
        }),
{
    reveal_strlit("/");
    reveal_strlit("info.json");
    reveal_strlit("/info.json");
    lemma_number_is_one_component(package_type as nat);
    lemma_number_is_one_component(id as nat);
    laws::decimals_read_back(package_type as nat);
    laws::decimals_read_back(id as nat);
    lemma_three(dir@, type_text@, "info.json"@);
    lemma_three(dir@, type_text@, id_text@);
    assert(list@ =~= dir@ + "/"@ + type_text@ + "/"@ + "info.json"@);
    assert(single@ =~= dir@ + "/"@ + type_text@ + "/"@ + id_text@);
    names::one_component_is_the_whole("info.json"@);
    assert(paths::components(list@) =~= paths::components(dir@) + seq![
        type_text@,
        "info.json"@,
    ]);
    assert(paths::components(single@) =~= paths::components(dir@) + seq![type_text@, id_text@]);
    assert(paths::components(single@).drop_last().last() == type_text@);
}

/// Different packages have different directories.
pub proof fn packages_do_not_share_a_directory(
    dir: &str,
    type_a: u32,
    id_a: u32,
    type_b: u32,
    id_b: u32,
    a: String,
    b: String,
)
    requires
        call_ensures(layout::single_dir, (dir, type_a, id_a), a),
        call_ensures(layout::single_dir, (dir, type_b, id_b), b),
        a@ == b@,
    ensures
        type_a == type_b,
        id_a == id_b,
{
    reveal_strlit("/");
    let x = text::decimal(type_a as nat);
    let y = text::decimal(id_a as nat);
    let u = text::decimal(type_b as nat);
    let w = text::decimal(id_b as nat);
    lemma_number_is_one_component(type_a as nat);
    lemma_number_is_one_component(id_a as nat);
    lemma_number_is_one_component(type_b as nat);
    lemma_number_is_one_component(id_b as nat);
    lemma_three(dir@, x, y);
    lemma_three(dir@, u, w);
    let n = paths::components(dir@).len() as int;
    let left = paths::components(dir@).push(x) + seq![y];
    let right = paths::components(dir@).push(u) + seq![w];
    assert(left == right);
    assert(left[n] == x && right[n] == u);
    assert(left[n + 1] == y && right[n + 1] == w);
    laws::decimals_are_distinct(type_a as nat, type_b as nat);
    laws::decimals_are_distinct(id_a as nat, id_b as nat);
}

/// The lists of archives and of micro-download files lie in the directory that
/// they are of.
pub proof fn lists_lie_in_their_directory(dir: &str, archives: String, files: String)
    requires
        call_ensures(layout::archive_list, (dir,), archives),
        call_ensures(layout::micro_list, (dir,), files),
    ensures
        paths::components(archives@) == paths::components(dir@).push("infov2.json"@),
        paths::components(files@) == paths::components(dir@) + seq!["microdl"@, "info.json"@],
        archives@ == dir@ + "/infov2.json"@,
        files@ == dir@ + "/microdl/info.json"@,
{
    reveal_strlit("/");
    reveal_strlit("infov2.json");
    reveal_strlit("/infov2.json");
    reveal_strlit("microdl");
    reveal_strlit("info.json");
    reveal_strlit("/microdl/info.json");
    names::one_component_is_the_whole("infov2.json"@);
    names::one_component_is_the_whole("info.json"@);
    names::components_of_two_paths(dir@, "infov2.json"@);
    lemma_three(dir@, "microdl"@, "info.json"@);
    assert(archives@ =~= dir@ + "/"@ + "infov2.json"@);
    assert(files@ =~= dir@ + "/"@ + "microdl"@ + "/"@ + "info.json"@);
    assert(paths::components(archives@) =~= paths::components(dir@).push("infov2.json"@));
    assert(paths::components(files@) =~= paths::components(dir@) + seq!["microdl"@, "info.json"@]);
}

/// A database lies in `db` and a micro-download file in `microdl`, below the
/// package version, under the path that it has there; that path is the end of
/// the whole.
pub proof fn databases_and_files_lie_below_their_package(
    dir: &str,
    file: &str,
    database: String,
    micro: String,
)
    requires
        call_ensures(layout::database_path, (dir, file), database),
        call_ensures(layout::micro_file, (dir, file), micro),
    ensures
        paths::components(database@) == paths::components(dir@).push("db"@) + paths::components(
            file@,
        ),
        paths::components(micro@) == paths::components(dir@).push("microdl"@) + paths::components(
            file@,
        ),
        database@.len() == dir@.len() + 4 + file@.len(),
        database@.skip(dir@.len() as int + 4) == file@,
        micro@.len() == dir@.len() + 9 + file@.len(),
        micro@.skip(dir@.len() as int + 9) == file@,
{
    reveal_strlit("/");
    reveal_strlit("db");
    reveal_strlit("/db/");
    reveal_strlit("microdl");
    reveal_strlit("/microdl/");
    lemma_three(dir@, "db"@, file@);
    lemma_three(dir@, "microdl"@, file@);
    assert(database@ =~= dir@ + "/"@ + "db"@ + "/"@ + file@);
    assert(micro@ =~= dir@ + "/"@ + "microdl"@ + "/"@ + file@);
    assert(database@.skip(dir@.len() as int + 4) =~= file@);
    assert(micro@.skip(dir@.len() as int + 9) =~= file@);
}

/// The decryption keys are in one file at the root of the archive.
pub proof fn keys_lie_at_the_root(path: &'static str)
    requires
        call_ensures(layout::release_info_file, (), path),
    ensures
        path@ == "release_info.json"@,
        paths::components(path@) == seq!["release_info.json"@],
{
    reveal_strlit("release_info.json");
    names::one_component_is_the_whole("release_info.json"@);
}

} // verus!
