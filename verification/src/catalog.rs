//! What an archive offers: game versions and their order, the updates a client
//! lacks, the packages it asks for.

use crate::models::{Checksums, Download};
use crate::models;
use crate::text::{chars_of, decimal_text};
use crate::text;
use vstd::prelude::*;

verus! {

/// A version of the game.
#[derive(Debug, Clone, Copy, PartialEq, Eq, Structural)]
pub struct GameVersion {
    pub major: u32,
    pub minor: u32,
}

impl GameVersion {
    /// The version as it is written, such as `59.4`.
    pub open spec fn label_view(self) -> Seq<char> {
        text::decimal(self.major as nat) + "."@ + text::decimal(self.minor as nat)
    }

    /// `self` comes after `other`.
    pub open spec fn is_after(self, other: GameVersion) -> bool {
        self.major > other.major || (self.major == other.major && self.minor > other.minor)
    }

    /// Writes the version.
    pub fn label(&self) -> (label: String)
        ensures
            label@ == self.label_view(),
    {
        let mut label = decimal_text(self.major as u64);
        label.append(".");
        label.append(decimal_text(self.minor as u64).as_str());
        label
    }

    /// Whether `self` comes after `other`.
    pub fn after(&self, other: &GameVersion) -> (yes: bool)
        ensures
            yes == self.is_after(*other),
    {
        self.major > other.major || (self.major == other.major && self.minor > other.minor)
    }
}

// ---- Reading a version ----

/// The number that a run of digits stands for.
pub open spec fn digits_value(digits: Seq<char>) -> nat
    decreases digits.len(),
{
    if digits.len() == 0 {
        0
    } else {
        (digits_value(digits.drop_last()) * 10 + (digits.last() as int - '0' as int)) as nat
    }
}

/// One or more decimal digits.
pub open spec fn is_number(digits: Seq<char>) -> bool {
    &&& digits.len() > 0
    &&& forall|i: int| 0 <= i < digits.len() ==> '0' <= #[trigger] digits[i] <= '9'
}

/// `label` writes the version `v`: two numbers around a dot that is at `dot`.
pub open spec fn writes_at(label: Seq<char>, dot: int, v: GameVersion) -> bool {
    &&& 0 <= dot < label.len()
    &&& label[dot] == '.'
    &&& is_number(label.take(dot))
    &&& is_number(label.skip(dot + 1))
    &&& digits_value(label.take(dot)) == v.major
    &&& digits_value(label.skip(dot + 1)) == v.minor
}

/// `label` writes the version `v`.
pub open spec fn writes_version(label: Seq<char>, v: GameVersion) -> bool {
    exists|dot: int| writes_at(label, dot, v)
}

/// `label` writes no version.
pub open spec fn writes_no_version(label: Seq<char>) -> bool {
    forall|v: GameVersion| !writes_version(label, v)
}

/// Digits that follow can only make a number larger.
proof fn lemma_value_grows(digits: Seq<char>, k: int)
    requires
        is_number(digits),
        0 <= k <= digits.len(),
    ensures
        digits_value(digits.take(k)) <= digits_value(digits),
    decreases digits.len() - k,
{
    if k == digits.len() {
        assert(digits.take(k) == digits);
    } else {
        lemma_value_grows(digits, k + 1);
        assert(digits.take(k + 1).drop_last() == digits.take(k));
        assert('0' <= digits[k] <= '9');
    }
}

/// Reads `chars[from..to]` as a number.
fn read_number(chars: &Vec<char>, from: usize, to: usize) -> (number: Option<u32>)
    requires
        from <= to <= chars@.len(),
    ensures
        match number {
            Some(n) => is_number(chars@.subrange(from as int, to as int)) && digits_value(
                chars@.subrange(from as int, to as int),
            ) == n,
            None => is_number(chars@.subrange(from as int, to as int)) ==> digits_value(
                chars@.subrange(from as int, to as int),
            ) > u32::MAX,
        },
{
    let ghost digits = chars@.subrange(from as int, to as int);
    if from == to {
        return None;
    }
    let mut value: u64 = 0;
    let mut i: usize = from;
    while i < to
        invariant
            from <= i <= to <= chars@.len(),
            digits == chars@.subrange(from as int, to as int),
            value <= u32::MAX,
            value == digits_value(digits.take(i - from)),
            forall|j: int| 0 <= j < i - from ==> '0' <= #[trigger] digits[j] <= '9',
        decreases to - i,
    {
        let c = chars[i];
        assert(digits[i - from] == c);
        if c < '0' || c > '9' {
            return None;
        }
        assert(digits.take(i - from + 1).drop_last() == digits.take(i - from));
        value = value * 10 + (c as u64 - '0' as u64);
        if value > u32::MAX as u64 {
            proof {
                if is_number(digits) {
                    lemma_value_grows(digits, i - from + 1);
                }
            }
            return None;
        }
        i = i + 1;
    }
    assert(digits.take(to - from) == digits);
    Some(value as u32)
}

/// A label has no other dot than the one between its two numbers.
pub proof fn lemma_dot_is_first(label: Seq<char>, dot: int, v: GameVersion, i: int)
    requires
        writes_at(label, dot, v),
        0 <= i < label.len(),
        label[i] == '.',
    ensures
        i == dot,
{
    if i < dot {
        assert(label.take(dot)[i] == '.');
    } else if i > dot {
        assert(label.skip(dot + 1)[i - dot - 1] == '.');
    }
}

/// Reads a version.
pub fn parse_version(label: &str) -> (version: Option<GameVersion>)
    ensures
        match version {
            Some(v) => writes_version(label@, v),
            None => forall|v: GameVersion| !writes_version(label@, v),
        },
        version is None ==> writes_no_version(label@),
{
    let chars = chars_of(label);
    let mut dot: usize = 0;
    while dot < chars.len() && chars[dot] != '.'
        invariant
            dot <= chars@.len(),
            chars@ == label@,
            forall|j: int| 0 <= j < dot ==> chars@[j] != '.',
        decreases chars@.len() - dot,
    {
        dot = dot + 1;
    }
    if dot == chars.len() {
        return None;
    }
    let end: usize = chars.len();
    assert(label@.take(dot as int) == chars@.subrange(0, dot as int));
    assert(label@.skip(dot + 1) == chars@.subrange(dot + 1, end as int));
    let major = read_number(&chars, 0, dot);
    let minor = read_number(&chars, dot + 1, end);
    let version = match (major, minor) {
        (Some(major), Some(minor)) => Some(GameVersion { major, minor }),
        _ => None,
    };
    proof {
        match version {
            Some(v) => {
                assert(writes_at(label@, dot as int, v));
            },
            None => {
                assert forall|v: GameVersion| !writes_version(label@, v) by {
                    if writes_version(label@, v) {
                        let at = choose|at: int| writes_at(label@, at, v);
                        lemma_dot_is_first(label@, at, v, dot as int);
                    }
                }
            },
        }
    }
    version
}

// ---- Choosing versions ----

/// `v` is the last of `versions`.
pub open spec fn is_latest(versions: Seq<GameVersion>, v: GameVersion) -> bool {
    &&& versions.contains(v)
    &&& forall|i: int| 0 <= i < versions.len() ==> !(#[trigger] versions[i]).is_after(v)
}

/// The last version of an archive, if it has any.
pub fn latest_version(versions: &Vec<GameVersion>) -> (latest: Option<GameVersion>)
    ensures
        match latest {
            Some(v) => is_latest(versions@, v),
            None => versions@.len() == 0,
        },
{
    if versions.len() == 0 {
        return None;
    }
    let mut best: GameVersion = versions[0];
    let mut i: usize = 1;
    while i < versions.len()
        invariant
            1 <= i <= versions@.len(),
            versions@.contains(best),
            forall|j: int| 0 <= j < i ==> !(#[trigger] versions@[j]).is_after(best),
        decreases versions@.len() - i,
    {
        if versions[i].after(&best) {
            best = versions[i];
        }
        i = i + 1;
    }
    Some(best)
}

/// Each version comes after the ones before it.
pub open spec fn is_ascending(versions: Seq<GameVersion>) -> bool {
    forall|i: int, j: int|
        0 <= i < j < versions.len() ==> (#[trigger] versions[j]).is_after(#[trigger] versions[i])
}

/// `updates` are the versions after `current`, oldest first.
pub open spec fn is_update_list(
    available: Seq<GameVersion>,
    current: GameVersion,
    updates: Seq<GameVersion>,
) -> bool {
    &&& is_ascending(updates)
    &&& forall|v: GameVersion| #[trigger]
        updates.contains(v) <==> (available.contains(v) && v.is_after(current))
}

/// Puts `v` where it belongs in an ascending list, unless it is there.
fn insert_version(list: &mut Vec<GameVersion>, v: GameVersion)
    requires
        is_ascending(old(list)@),
    ensures
        is_ascending(final(list)@),
        forall|w: GameVersion| #[trigger]
            final(list)@.contains(w) <==> (old(list)@.contains(w) || w == v),
{
    let mut at: usize = 0;
    while at < list.len() && v.after(&list[at])
        invariant
            at <= list@.len(),
            list@ == old(list)@,
            forall|j: int| 0 <= j < at ==> v.is_after(#[trigger] list@[j]),
        decreases list@.len() - at,
    {
        at = at + 1;
    }
    let ghost before = list@;
    if at < list.len() && list[at] == v {
        assert(before.contains(v));
        return ;
    }
    list.insert(at, v);
    proof {
        let after = list@;
        assert(after == before.insert(at as int, v));
        assert(after[at as int] == v);
        assert forall|w: GameVersion| #[trigger] after.contains(w) <==> (before.contains(w) || w
            == v) by {
            if before.contains(w) {
                let k = before.index_of(w);
                if k < at {
                    assert(after[k] == w);
                } else {
                    assert(after[k + 1] == w);
                }
            }
            if after.contains(w) && w != v {
                let k = after.index_of(w);
                if k < at {
                    assert(before[k] == w);
                } else {
                    assert(before[k - 1] == w);
                }
            }
        }
    }
}

/// The versions that a client at `current` lacks, oldest first.
pub fn updates_after(available: &Vec<GameVersion>, current: &GameVersion) -> (updates: Vec<
    GameVersion,
>)
    ensures
        is_update_list(available@, *current, updates@),
{
    let mut updates: Vec<GameVersion> = Vec::new();
    let mut i: usize = 0;
    while i < available.len()
        invariant
            i <= available@.len(),
            is_ascending(updates@),
            forall|v: GameVersion| #[trigger]
                updates@.contains(v) <==> (available@.take(i as int).contains(v) && v.is_after(
                    *current,
                )),
        decreases available@.len() - i,
    {
        let v = available[i];
        proof {
            let seen = available@.take(i as int);
            let next = available@.take(i + 1);
            assert(next == seen.push(v));
            assert(next[i as int] == v);
            assert forall|w: GameVersion| #[trigger] next.contains(w) <==> (seen.contains(w) || w
                == v) by {
                if seen.contains(w) {
                    assert(next[seen.index_of(w)] == w);
                }
                if next.contains(w) && w != v {
                    assert(seen[next.index_of(w)] == w);
                }
            }
        }
        if v.after(current) {
            insert_version(&mut updates, v);
        }
        i = i + 1;
    }
    assert(available@.take(available@.len() as int) == available@);
    updates
}

// ---- Packages and files ----

fn contains_id(ids: &Vec<u32>, id: u32) -> (yes: bool)
    ensures
        yes == ids@.contains(id),
{
    let mut i: usize = 0;
    while i < ids.len()
        invariant
            i <= ids@.len(),
            forall|j: int| 0 <= j < i ==> ids@[j] != id,
        decreases ids@.len() - i,
    {
        if ids[i] == id {
            return true;
        }
        i = i + 1;
    }
    false
}

/// The package ids that are not excluded, in order.
pub fn without_excluded(ids: &Vec<u32>, exclude: &Vec<u32>) -> (kept: Vec<u32>)
    ensures
        kept@ == ids@.filter(|id: u32| !exclude@.contains(id)),
{
    let ghost keep = |id: u32| !exclude@.contains(id);
    let mut kept: Vec<u32> = Vec::new();
    let mut i: usize = 0;
    proof {
        reveal(Seq::filter);
        assert(ids@.take(0).filter(keep) == Seq::<u32>::empty());
    }
    while i < ids.len()
        invariant
            i <= ids@.len(),
            keep == (|id: u32| !exclude@.contains(id)),
            kept@ == ids@.take(i as int).filter(keep),
        decreases ids@.len() - i,
    {
        proof {
            text::lemma_filter_push(ids@.take(i as int), ids@[i as int], keep);
            assert(ids@.take(i + 1) == ids@.take(i as int).push(ids@[i as int]));
        }
        if !contains_id(exclude, ids[i]) {
            kept.push(ids[i]);
        }
        i = i + 1;
    }
    assert(ids@.take(ids@.len() as int) == ids@);
    kept
}

/// The entry of a file that the archive does not have: no bytes, and the
/// digests of nothing.
pub fn missing_file(path: &str) -> (entry: Download<()>)
    ensures
        entry@ == (models::DownloadView {
            url: path@,
            size: 0,
            checksums: models::ChecksumsView {
                md5: "d41d8cd98f00b204e9800998ecf8427e"@,
                sha256: "e3b0c44298fc1c149afbf4c8996fb92427ae41e4649b934ca495991b7852b855"@,
            },
            detail: (),
        }),
{
    Download {
        url: path.to_owned(),
        size: 0,
        checksums: Checksums {
            md5: "d41d8cd98f00b204e9800998ecf8427e".to_owned(),
            sha256: "e3b0c44298fc1c149afbf4c8996fb92427ae41e4649b934ca495991b7852b855".to_owned(),
        },
        detail: (),
    }
}

} // verus!
