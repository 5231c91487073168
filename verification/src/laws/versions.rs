//! How versions are written, read, ordered and chosen, and which packages and
//! files are offered.

use crate::catalog;
use crate::catalog::GameVersion;
use crate::laws;
use crate::laws::names;
use crate::models::Download;
use crate::text;
use vstd::prelude::*;

verus! {

// ---- Writing and reading ----

/// A version is written as its major number, a dot and its minor number, both
/// in decimal.
pub proof fn labels_are_two_numbers(v: GameVersion, major: String, minor: String, label: String)
    requires
        call_ensures(text::decimal_text, (v.major as u64,), major),
        call_ensures(text::decimal_text, (v.minor as u64,), minor),
        call_ensures(GameVersion::label, (&v,), label),
    ensures
        label@ == major@ + "."@ + minor@,
        label@ == v.label_view(),
        catalog::digits_value(major@) == v.major,
        catalog::digits_value(minor@) == v.minor,
{
    laws::decimals_read_back(v.major as nat);
    laws::decimals_read_back(v.minor as nat);
}

/// Reading a version that was written gives it back.
pub proof fn written_versions_are_read_back(
    v: GameVersion,
    label: String,
    copy: &str,
    read: Option<GameVersion>,
)
    requires
        call_ensures(GameVersion::label, (&v,), label),
        copy@ == label@,
        call_ensures(catalog::parse_version, (copy,), read),
    ensures
        read == Some(v),
{
    laws::versions_read_back(v);
    assert(catalog::writes_version(copy@, v));
    if let Some(w) = read {
        laws::labels_are_unambiguous(copy@, v, w);
    }
}

/// Two runs of digits around a dot are read as the two numbers they mean, and as
/// no version where one of them is too large for its field.
pub proof fn two_numbers_around_a_dot_are_a_version(
    label: &str,
    major: Seq<char>,
    minor: Seq<char>,
    read: Option<GameVersion>,
)
    requires
        call_ensures(catalog::parse_version, (label,), read),
        label@ == major + "."@ + minor,
        catalog::is_number(major),
        catalog::is_number(minor),
    ensures
        read is Some <==> catalog::digits_value(major) <= u32::MAX && catalog::digits_value(minor)
            <= u32::MAX,
        read matches Some(v) ==> v.major == catalog::digits_value(major) && v.minor
            == catalog::digits_value(minor),
{
    reveal_strlit(".");
    let dot = major.len() as int;
    assert(label@.take(dot) =~= major);
    assert(label@.skip(dot + 1) =~= minor);
    if catalog::digits_value(major) <= u32::MAX && catalog::digits_value(minor) <= u32::MAX {
        let w = GameVersion {
            major: catalog::digits_value(major) as u32,
            minor: catalog::digits_value(minor) as u32,
        };
        assert(catalog::writes_at(label@, dot, w));
        assert(catalog::writes_version(label@, w));
    }
    if let Some(v) = read {
        let at = choose|at: int| catalog::writes_at(label@, at, v);
        catalog::lemma_dot_is_first(label@, at, v, dot);
    }
}

/// What is read as a version has a single dot, with one or more digits before
/// it and behind it.
pub proof fn only_two_numbers_around_a_dot_are_a_version(label: &str, read: Option<GameVersion>)
    requires
        call_ensures(catalog::parse_version, (label,), read),
        read is Some,
    ensures
        exists|dot: int|
            {
                &&& 0 < dot < label@.len() - 1
                &&& #[trigger] label@[dot] == '.'
                &&& forall|i: int|
                    0 <= i < label@.len() && i != dot ==> '0' <= #[trigger] label@[i] <= '9'
            },
{
    let v = read->0;
    let dot = choose|dot: int| catalog::writes_at(label@, dot, v);
    assert(label@[dot] == '.');
    assert forall|i: int| 0 <= i < label@.len() && i != dot implies '0' <= #[trigger] label@[i]
        <= '9' by {
        if i < dot {
            assert(label@.take(dot)[i] == label@[i]);
        } else {
            assert(label@.skip(dot + 1)[i - dot - 1] == label@[i]);
        }
    }
}

// ---- Choosing versions ----

/// A version comes after another where its major number is larger, or where that
/// is the same and its minor number is larger.
pub proof fn versions_are_compared_by_number(a: GameVersion, b: GameVersion, yes: bool)
    requires
        call_ensures(GameVersion::after, (&a, &b), yes),
    ensures
        yes <==> a.major * 0x1_0000_0000 + a.minor > b.major * 0x1_0000_0000 + b.minor,
        yes == a.is_after(b),
{
}

/// The last version of an archive is one of its versions, and none of them is
/// larger; only an archive without versions has none.
pub proof fn the_last_version_is_the_largest(
    versions: Vec<GameVersion>,
    latest: Option<GameVersion>,
)
    requires
        call_ensures(catalog::latest_version, (&versions,), latest),
    ensures
        latest is None <==> versions@.len() == 0,
        latest matches Some(v) ==> {
            &&& exists|i: int| 0 <= i < versions@.len() && #[trigger] versions@[i] == v
            &&& forall|i: int|
                0 <= i < versions@.len() ==> (#[trigger] versions@[i]).major < v.major || (
                versions@[i].major == v.major && versions@[i].minor <= v.minor)
        },
{
    if let Some(v) = latest {
        assert forall|i: int| 0 <= i < versions@.len() implies (#[trigger] versions@[i]).major
            < v.major || (versions@[i].major == v.major && versions@[i].minor <= v.minor) by {
            assert(!versions@[i].is_after(v));
        }
    }
}

/// A client is led through exactly the versions that it lacks, each once and in
/// ascending order.
pub proof fn updates_are_what_is_lacking_in_order(
    available: Vec<GameVersion>,
    current: GameVersion,
    updates: Vec<GameVersion>,
)
    requires
        call_ensures(catalog::updates_after, (&available, &current), updates),
    ensures
        forall|i: int, j: int|
            #![trigger updates@[i], updates@[j]]
            0 <= i < j < updates@.len() ==> updates@[i].major < updates@[j].major || (
            updates@[i].major == updates@[j].major && updates@[i].minor < updates@[j].minor),
        forall|v: GameVersion| #[trigger]
            updates@.contains(v) <==> (available@.contains(v) && (v.major > current.major || (
            v.major == current.major && v.minor > current.minor))),
{
    assert forall|i: int, j: int|
        #![trigger updates@[i], updates@[j]]
        0 <= i < j < updates@.len() implies updates@[i].major < updates@[j].major || (
    updates@[i].major == updates@[j].major && updates@[i].minor < updates@[j].minor) by {
        assert(updates@[j].is_after(updates@[i]));
    }
}

// ---- Packages and files ----

/// Packages are left out exactly where they are excluded: one package is kept or
/// not by itself, and two lists in a row keep what each of them keeps.
pub proof fn packages_are_excluded_one_by_one(
    ids: Vec<u32>,
    head: Vec<u32>,
    tail: Vec<u32>,
    exclude: Vec<u32>,
    kept: Vec<u32>,
    kept_head: Vec<u32>,
    kept_tail: Vec<u32>,
)
    requires
        ids@ == head@ + tail@,
        call_ensures(catalog::without_excluded, (&ids, &exclude), kept),
        call_ensures(catalog::without_excluded, (&head, &exclude), kept_head),
        call_ensures(catalog::without_excluded, (&tail, &exclude), kept_tail),
    ensures
        kept@ == kept_head@ + kept_tail@,
        forall|id: u32| #[trigger]
            kept@.contains(id) <==> ids@.contains(id) && !exclude@.contains(id),
        ids@.len() == 1 && !exclude@.contains(ids@[0]) ==> kept@ == ids@,
        ids@.len() == 1 && exclude@.contains(ids@[0]) ==> kept@.len() == 0,
{
    let keep = |id: u32| !exclude@.contains(id);
    Seq::filter_distributes_over_add(head@, tail@, keep);
    assert forall|id: u32| #[trigger] kept@.contains(id) <==> ids@.contains(id)
        && !exclude@.contains(id) by {
        if kept@.contains(id) {
            let k = kept@.index_of(id);
            ids@.lemma_filter_pred(keep, k);
            ids@.lemma_filter_contains_rev(keep, id);
        }
        if ids@.contains(id) && !exclude@.contains(id) {
            let k = ids@.index_of(id);
            assert(keep(ids@[k]));
            ids@.lemma_filter_contains(keep, k);
        }
    }
    if ids@.len() == 1 {
        assert(ids@ =~= seq![ids@[0]]);
        names::lemma_filter_one(ids@[0], keep);
    }
}

/// Where nothing is excluded every package is kept, in order.
pub proof fn without_exclusions_all_packages_are_kept(
    ids: Vec<u32>,
    exclude: Vec<u32>,
    kept: Vec<u32>,
)
    requires
        call_ensures(catalog::without_excluded, (&ids, &exclude), kept),
        forall|i: int| 0 <= i < ids@.len() ==> !exclude@.contains(#[trigger] ids@[i]),
    ensures
        kept@ == ids@,
{
    laws::lemma_filter_fixpoint(ids@, |id: u32| !exclude@.contains(id));
}

/// A file that is not there is told under the path it was asked for, as a file
/// of no bytes with the digests of no bytes.
pub proof fn missing_files_are_empty(path: &str, entry: Download<()>)
    requires
        call_ensures(catalog::missing_file, (path,), entry),
    ensures
        entry.url@ == path@,
        entry.size == 0,
        entry.checksums.md5@ == "d41d8cd98f00b204e9800998ecf8427e"@,
        entry.checksums.sha256@
            == "e3b0c44298fc1c149afbf4c8996fb92427ae41e4649b934ca495991b7852b855"@,
{
}

} // verus!
