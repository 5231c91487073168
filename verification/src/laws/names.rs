//! What is kept of the names and paths that a request sends.

use crate::handlers;
use crate::laws;
use crate::paths;
use crate::reply::{Body, Reply};
use crate::text;
use vstd::prelude::*;

verus! {

// ---- Characters ----

pub(crate) proof fn lemma_filter_one<A>(x: A, keep: spec_fn(A) -> bool)
    ensures
        seq![x].filter(keep) == if keep(x) {
            seq![x]
        } else {
            Seq::empty()
        },
{
    reveal(Seq::filter);
    let none = Seq::<A>::empty();
    assert(none.filter(keep) == none);
    text::lemma_filter_push(none, x, keep);
    assert(none.push(x) =~= seq![x]);
}

/// A database name keeps the letters `a` to `z` and `A` to `Z`, the digits and
/// the underscore, and drops every other character; what is kept of two texts
/// in a row is what is kept of the one and then of the other.
pub proof fn database_names_keep_letters_digits_and_underscores(
    c: char,
    head: Seq<char>,
    tail: Seq<char>,
)
    ensures
        paths::db_name_view(Seq::empty()) == Seq::<char>::empty(),
        paths::db_name_view(seq![c]) == if (97 <= c as int <= 122) || (65 <= c as int <= 90) || (48
            <= c as int <= 57) || c as int == 95 {
            seq![c]
        } else {
            Seq::empty()
        },
        paths::db_name_view(head + tail) == paths::db_name_view(head) + paths::db_name_view(tail),
{
    let keep = |c: char| paths::is_db_name_char(c);
    lemma_filter_one(c, keep);
    Seq::filter_distributes_over_add(head, tail, keep);
    reveal(Seq::filter);
}

/// Cleaning a database name keeps what a database name keeps; two names in a row
/// are cleaned one by one.
pub proof fn names_are_cleaned_piece_by_piece(
    whole: &str,
    head: &str,
    tail: &str,
    clean: String,
    clean_head: String,
    clean_tail: String,
)
    requires
        whole@ == head@ + tail@,
        call_ensures(paths::clean_db_name, (whole,), clean),
        call_ensures(paths::clean_db_name, (head,), clean_head),
        call_ensures(paths::clean_db_name, (tail,), clean_tail),
    ensures
        clean@ == clean_head@ + clean_tail@,
        clean@ == paths::db_name_view(whole@),
{
    database_names_keep_letters_digits_and_underscores('a', head@, tail@);
}

/// A version keeps its digits and dots and drops every other character; what is
/// kept of two texts in a row is what is kept of the one and then of the other.
pub proof fn versions_keep_digits_and_dots(c: char, head: Seq<char>, tail: Seq<char>)
    ensures
        paths::version_view(Seq::empty()) == Seq::<char>::empty(),
        paths::version_view(seq![c]) == if (48 <= c as int <= 57) || c as int == 46 {
            seq![c]
        } else {
            Seq::empty()
        },
        paths::version_view(head + tail) == paths::version_view(head) + paths::version_view(tail),
{
    let keep = |c: char| paths::is_version_char(c);
    lemma_filter_one(c, keep);
    Seq::filter_distributes_over_add(head, tail, keep);
    reveal(Seq::filter);
}

/// Cleaning a version keeps what a version keeps; two texts in a row are cleaned
/// one by one.
pub proof fn versions_are_cleaned_piece_by_piece(
    whole: &str,
    head: &str,
    tail: &str,
    clean: String,
    clean_head: String,
    clean_tail: String,
)
    requires
        whole@ == head@ + tail@,
        call_ensures(paths::clean_version, (whole,), clean),
        call_ensures(paths::clean_version, (head,), clean_head),
        call_ensures(paths::clean_version, (tail,), clean_tail),
    ensures
        clean@ == clean_head@ + clean_tail@,
        clean@ == paths::version_view(whole@),
{
    versions_keep_digits_and_dots('0', head@, tail@);
}

/// A database has a file exactly where a letter, a digit or an underscore occurs
/// in its name, and the file is what is kept of the name, with `.db_` behind.
pub proof fn database_files_are_named_after_them(name: &str, clean: String, file: Option<String>)
    requires
        call_ensures(paths::clean_db_name, (name,), clean),
        call_ensures(paths::database_file, (name,), file),
    ensures
        file is Some <==> exists|i: int|
            #![trigger name@[i]]
            0 <= i < name@.len() && ((97 <= name@[i] as int <= 122) || (65 <= name@[i] as int <= 90)
                || (48 <= name@[i] as int <= 57) || name@[i] as int == 95),
        file matches Some(f) ==> f@ == clean@ + ".db_"@,
{
    let keep = |c: char| paths::is_db_name_char(c);
    if file is Some {
        assert(keep(clean@[0])) by {
            name@.lemma_filter_pred(keep, 0);
        }
        assert(clean@.contains(clean@[0]));
        name@.lemma_filter_contains_rev(keep, clean@[0]);
        let i = name@.index_of(clean@[0]);
        assert(paths::is_db_name_char(name@[i]));
    }
    if exists|i: int|
        #![trigger name@[i]]
        0 <= i < name@.len() && ((97 <= name@[i] as int <= 122) || (65 <= name@[i] as int <= 90)
            || (48 <= name@[i] as int <= 57) || name@[i] as int == 95) {
        let i = choose|i: int|
            #![trigger name@[i]]
            0 <= i < name@.len() && ((97 <= name@[i] as int <= 122) || (65 <= name@[i] as int <= 90)
                || (48 <= name@[i] as int <= 57) || name@[i] as int == 95);
        assert(keep(name@[i]));
        name@.lemma_filter_contains(keep, i);
    }
}

/// Lowering the ASCII capitals moves the codes 65 to 90 up by 32 and leaves
/// every other character and their order alone.
pub proof fn capitals_become_small_letters(s: Seq<char>)
    ensures
        paths::ascii_lowered(s).len() == s.len(),
        forall|i: int|
            0 <= i < s.len() ==> (#[trigger] paths::ascii_lowered(s)[i]) as int == if 65
                <= s[i] as int <= 90 {
                s[i] as int + 32
            } else {
                s[i] as int
            },
{
}

/// Two platforms have a directory, each its own.
pub proof fn two_platforms_have_a_directory(lower: &str, dir: Option<&'static str>)
    requires
        call_ensures(paths::platform_dir, (lower,), dir),
    ensures
        dir is Some <==> lower@ == "android"@ || lower@ == "ios"@,
        lower@ == "android"@ ==> dir->0@ == "Android"@,
        lower@ == "ios"@ ==> dir->0@ == "iOS"@,
{
    reveal_strlit("android");
    reveal_strlit("ios");
    assert("android"@.len() != "ios"@.len());
}

// ---- Components ----

/// The components of a path have no slash in them, and with a slash between each
/// two of them they are the path; no other texts are.
pub proof fn components_stand_between_the_slashes(path: Seq<char>, parts: Seq<Seq<char>>)
    ensures
        paths::components(path).len() > 0,
        forall|i: int|
            0 <= i < paths::components(path).len() ==> !(#[trigger] paths::components(
                path,
            )[i]).contains('/'),
        paths::joined(paths::components(path)) == path,
        parts.len() > 0 && paths::joined(parts) == path && (forall|i: int|
            0 <= i < parts.len() ==> !(#[trigger] parts[i]).contains('/'))
            ==> paths::components(path) == parts,
{
    laws::lemma_components_are_slash_free(path);
    laws::components_join_to_the_path(path);
    assert forall|i: int| 0 <= i < paths::components(path).len() implies !(
    #[trigger] paths::components(path)[i]).contains('/') by {
        assert(laws::slash_free(paths::components(path)[i]));
    }
    if parts.len() > 0 && paths::joined(parts) == path && (forall|i: int|
        0 <= i < parts.len() ==> !(#[trigger] parts[i]).contains('/')) {
        assert forall|i: int| 0 <= i < parts.len() implies laws::slash_free(
            #[trigger] parts[i],
        ) by {
            assert forall|j: int| 0 <= j < parts[i].len() implies #[trigger] parts[i][j] != '/' by {
                assert(!parts[i].contains('/'));
            }
        }
        laws::lemma_components_of_joined(parts);
    }
}

/// Joining puts one slash between each two parts and nothing else.
pub proof fn joining_puts_slashes_between(parts: Seq<Seq<char>>, last: Seq<char>)
    ensures
        paths::joined(Seq::empty()) == Seq::<char>::empty(),
        parts.len() == 0 ==> paths::joined(parts.push(last)) == last,
        parts.len() > 0 ==> paths::joined(parts.push(last)) == paths::joined(parts) + "/"@ + last,
{
    reveal_strlit("/");
    assert(parts.push(last).drop_last() == parts);
    if parts.len() > 0 {
        assert(paths::joined(parts.push(last)) =~= paths::joined(parts) + "/"@ + last);
    }
}

/// The components of two paths with a slash between them are those of the one
/// and then those of the other.
pub proof fn components_of_two_paths(head: Seq<char>, tail: Seq<char>)
    ensures
        paths::components(head + "/"@ + tail) == paths::components(head) + paths::components(tail),
    decreases tail.len(),
{
    reveal_strlit("/");
    let whole = head + "/"@ + tail;
    laws::lemma_components_are_slash_free(head);
    if tail.len() == 0 {
        assert(whole =~= head.push('/'));
        assert(whole.drop_last() =~= head);
        assert(paths::components(tail) =~= seq![Seq::<char>::empty()]);
        assert(paths::components(whole) =~= paths::components(head) + paths::components(tail));
    } else {
        let rest = tail.drop_last();
        components_of_two_paths(head, rest);
        laws::lemma_components_are_slash_free(rest);
        assert(whole.drop_last() =~= head + "/"@ + rest);
        assert(whole.last() == tail.last());
        let front = paths::components(whole.drop_last());
        assert(front.drop_last() =~= paths::components(head) + paths::components(rest).drop_last());
        assert(front.last() == paths::components(rest).last());
        assert(paths::components(whole) =~= paths::components(head) + paths::components(tail));
    }
}

/// A text without a slash is its own one component.
pub proof fn one_component_is_the_whole(s: Seq<char>)
    requires
        !s.contains('/'),
    ensures
        paths::components(s) == seq![s],
{
    assert(laws::slash_free(s)) by {
        assert forall|i: int| 0 <= i < s.len() implies #[trigger] s[i] != '/' by {
            assert(!s.contains('/'));
        }
    }
    laws::lemma_components_of_one(s);
}

// ---- Sanitizing ----

proof fn lemma_joined_two(a: Seq<Seq<char>>, b: Seq<Seq<char>>)
    requires
        a.len() > 0,
        b.len() > 0,
    ensures
        paths::joined(a + b) == paths::joined(a) + "/"@ + paths::joined(b),
    decreases b.len(),
{
    let front = b.drop_last();
    assert((a + b).drop_last() =~= a + front);
    assert(front.push(b.last()) =~= b);
    assert((a + front).push(b.last()) =~= a + b);
    joining_puts_slashes_between(a + front, b.last());
    joining_puts_slashes_between(front, b.last());
    if front.len() == 0 {
        assert(a + front =~= a);
    } else {
        lemma_joined_two(a, front);
        assert(paths::joined(a + b) =~= paths::joined(a) + "/"@ + paths::joined(b));
    }
}

/// What is left of a path without a slash: the path itself, unless it is empty,
/// `.` or `..`; then nothing is.
pub proof fn a_name_is_kept_unless_it_is_dots(name: &str, clean: String)
    requires
        call_ensures(paths::sanitize_path, (name,), clean),
        !name@.contains('/'),
    ensures
        name@ == "."@ || name@ == ".."@ ==> clean@ == Seq::<char>::empty(),
        name@ != "."@ && name@ != ".."@ ==> clean@ == name@,
{
    lemma_sanitized_one(name@);
}

proof fn lemma_sanitized_one(s: Seq<char>)
    requires
        !s.contains('/'),
    ensures
        s == "."@ || s == ".."@ ==> paths::sanitized(s) == Seq::<char>::empty(),
        s != "."@ && s != ".."@ ==> paths::sanitized(s) == s,
{
    let keep = |c: Seq<char>| paths::is_plain(c);
    one_component_is_the_whole(s);
    lemma_filter_one(s, keep);
    if s.len() == 0 {
        assert(s =~= Seq::<char>::empty());
    }
}

proof fn lemma_sanitized_two(head: Seq<char>, tail: Seq<char>)
    ensures
        paths::plain_components(head + "/"@ + tail) == paths::plain_components(head)
            + paths::plain_components(tail),
        paths::sanitized(head).len() == 0 ==> paths::sanitized(head + "/"@ + tail)
            == paths::sanitized(tail),
        paths::sanitized(tail).len() == 0 ==> paths::sanitized(head + "/"@ + tail)
            == paths::sanitized(head),
        paths::sanitized(head).len() > 0 && paths::sanitized(tail).len() > 0 ==> paths::sanitized(
            head + "/"@ + tail,
        ) == paths::sanitized(head) + "/"@ + paths::sanitized(tail),
{
    let keep = |c: Seq<char>| paths::is_plain(c);
    components_of_two_paths(head, tail);
    Seq::filter_distributes_over_add(paths::components(head), paths::components(tail), keep);
    laws::sanitized_components_are_plain(head);
    laws::sanitized_components_are_plain(tail);
    let a = paths::plain_components(head);
    let b = paths::plain_components(tail);
    if a.len() == 0 {
        assert(a + b =~= b);
    }
    if b.len() == 0 {
        assert(a + b =~= a);
    }
    if a.len() > 0 && b.len() > 0 {
        lemma_joined_two(a, b);
    }
}

/// Sanitizing works piece by piece: what is left of two paths with a slash
/// between them is what is left of the one, a slash, and what is left of the
/// other, or the one that is left where of the other nothing is.
pub proof fn paths_are_sanitized_piece_by_piece(
    whole: &str,
    head: &str,
    tail: &str,
    clean: String,
    clean_head: String,
    clean_tail: String,
)
    requires
        whole@ == head@ + "/"@ + tail@,
        call_ensures(paths::sanitize_path, (whole,), clean),
        call_ensures(paths::sanitize_path, (head,), clean_head),
        call_ensures(paths::sanitize_path, (tail,), clean_tail),
    ensures
        clean_head@.len() == 0 ==> clean@ == clean_tail@,
        clean_tail@.len() == 0 ==> clean@ == clean_head@,
        clean_head@.len() > 0 && clean_tail@.len() > 0 ==> clean@ == clean_head@ + "/"@
            + clean_tail@,
{
    lemma_sanitized_two(head@, tail@);
}

/// The same of the path that sanitizing stands for, whatever the two paths are.
pub proof fn sanitized_paths_are_made_of_pieces(name: Seq<char>, head: Seq<char>, tail: Seq<char>)
    requires
        !name.contains('/'),
    ensures
        name == "."@ || name == ".."@ ==> paths::sanitized(name) == Seq::<char>::empty(),
        name != "."@ && name != ".."@ ==> paths::sanitized(name) == name,
        paths::sanitized(head).len() == 0 ==> paths::sanitized(head + "/"@ + tail)
            == paths::sanitized(tail),
        paths::sanitized(tail).len() == 0 ==> paths::sanitized(head + "/"@ + tail)
            == paths::sanitized(head),
        paths::sanitized(head).len() > 0 && paths::sanitized(tail).len() > 0 ==> paths::sanitized(
            head + "/"@ + tail,
        ) == paths::sanitized(head) + "/"@ + paths::sanitized(tail),
{
    lemma_sanitized_one(name);
    lemma_sanitized_two(head, tail);
}

/// Something is left of a path exactly where one of its components is not
/// empty, `.` or `..`.
pub proof fn a_path_is_left_where_it_names_something(path: &str, clean: String)
    requires
        call_ensures(paths::sanitize_path, (path,), clean),
    ensures
        clean@.len() > 0 <==> exists|i: int|
            #![trigger paths::components(path@)[i]]
            0 <= i < paths::components(path@).len() && paths::components(path@)[i].len() > 0
                && paths::components(path@)[i] != "."@ && paths::components(path@)[i] != ".."@,
        clean@ == paths::sanitized(path@),
{
    lemma_something_is_left(path@);
}

proof fn lemma_something_is_left(path: Seq<char>)
    ensures
        paths::sanitized(path).len() > 0 <==> exists|i: int|
            #![trigger paths::components(path)[i]]
            0 <= i < paths::components(path).len() && paths::components(path)[i].len() > 0
                && paths::components(path)[i] != "."@ && paths::components(path)[i] != ".."@,
{
    let keep = |c: Seq<char>| paths::is_plain(c);
    let all = paths::components(path);
    let kept = paths::plain_components(path);
    laws::sanitized_components_are_plain(path);
    if kept.len() > 0 {
        assert(paths::is_plain(kept[0]));
        assert(kept.contains(kept[0]));
        all.lemma_filter_contains_rev(keep, kept[0]);
        let i = all.index_of(kept[0]);
        assert(all[i].len() > 0 && all[i] != "."@ && all[i] != ".."@);
    }
    if exists|i: int|
        #![trigger all[i]]
        0 <= i < all.len() && all[i].len() > 0 && all[i] != "."@ && all[i] != ".."@ {
        let i = choose|i: int|
            #![trigger all[i]]
            0 <= i < all.len() && all[i].len() > 0 && all[i] != "."@ && all[i] != ".."@;
        assert(keep(all[i]));
        all.lemma_filter_contains(keep, i);
    }
}

// ---- Old-style paths ----

/// An old-style path opens a file exactly where the platform is Android or iOS
/// and a component of the file path is not empty, `.` or `..`. What it opens is
/// below the platform's directory, in the package of the version's digits and
/// dots, at what is left of the file path.
pub proof fn old_style_paths_open_what_they_name(
    lower: Seq<char>,
    version: Seq<char>,
    file_path: Seq<char>,
)
    ensures
        handlers::v7_target_view(lower, version, file_path) is Some <==> (lower == "android"@
            || lower == "ios"@) && exists|i: int|
            #![trigger paths::components(file_path)[i]]
            0 <= i < paths::components(file_path).len() && paths::components(file_path)[i].len() > 0
                && paths::components(file_path)[i] != "."@ && paths::components(file_path)[i]
                != ".."@,
        handlers::v7_target_view(lower, version, file_path) matches Some(parts) ==> {
            &&& parts.len() == 5
            &&& lower == "android"@ ==> parts[0] == "Android"@
            &&& lower == "ios"@ ==> parts[0] == "iOS"@
            &&& parts[1] == "package"@
            &&& paths::version_view(version) == "."@ || paths::version_view(version) == ".."@
                ==> parts[2] == Seq::<char>::empty()
            &&& paths::version_view(version) != "."@ && paths::version_view(version) != ".."@
                ==> parts[2] == paths::version_view(version)
            &&& parts[3] == "microdl"@
            &&& parts[4] == paths::sanitized(file_path)
        },
{
    reveal_strlit("android");
    reveal_strlit("ios");
    assert("android"@.len() != "ios"@.len());
    lemma_something_is_left(file_path);
    laws::path_versions_do_not_climb(version);
}

/// The same of the call: it gives the parts of the path, or else answers that
/// nothing is there.
pub proof fn old_style_requests_open_what_they_name(
    lower: &str,
    version: &str,
    file_path: &str,
    clean: String,
    file: String,
    target: Result<Vec<String>, Reply>,
)
    requires
        call_ensures(handlers::v7_microdl_parts, (lower, version, file_path), target),
        call_ensures(paths::clean_version, (version,), clean),
        call_ensures(paths::sanitize_path, (file_path,), file),
    ensures
        target is Ok <==> (lower@ == "android"@ || lower@ == "ios"@) && exists|i: int|
            #![trigger paths::components(file_path@)[i]]
            0 <= i < paths::components(file_path@).len() && paths::components(file_path@)[i].len()
                > 0 && paths::components(file_path@)[i] != "."@ && paths::components(file_path@)[i]
                != ".."@,
        target matches Ok(parts) ==> {
            &&& parts@.len() == 5
            &&& lower@ == "android"@ ==> parts@[0]@ == "Android"@
            &&& lower@ == "ios"@ ==> parts@[0]@ == "iOS"@
            &&& parts@[1]@ == "package"@
            &&& clean@ == "."@ || clean@ == ".."@ ==> parts@[2]@ == Seq::<char>::empty()
            &&& clean@ != "."@ && clean@ != ".."@ ==> parts@[2]@ == clean@
            &&& parts@[3]@ == "microdl"@
            &&& parts@[4]@ == file@
        },
        target matches Err(r) ==> {
            &&& r.status == 404
            &&& r.body matches Body::Error(e)
            &&& e.detail@ == "Not found."@
        },
{
    old_style_paths_open_what_they_name(lower@, version@, file_path@);
    match target {
        Ok(parts) => {
            let views = handlers::texts_view(parts@);
            assert(views[0] == parts@[0]@);
            assert(views[1] == parts@[1]@);
            assert(views[2] == parts@[2]@);
            assert(views[3] == parts@[3]@);
            assert(views[4] == parts@[4]@);
        },
        Err(r) => assert(r@.body is Error),
    }
}

/// A platform's name is brought to lower case first and then treated as a
/// lower-case name; in ASCII that lowers the capitals and nothing else.
pub proof fn capitals_in_the_platform_do_not_matter(
    platform: &str,
    lower: &str,
    version: &str,
    file_path: &str,
    target: Result<Vec<String>, Reply>,
    expected: Result<Vec<String>, Reply>,
)
    requires
        call_ensures(handlers::v7_microdl_query, (platform, version, file_path), target),
        call_ensures(handlers::v7_microdl_parts, (lower, version, file_path), expected),
        lower@ == paths::lowercase_text(platform@) || (platform.is_ascii() && lower@
            == paths::ascii_lowered(platform@)),
    ensures
        target is Ok <==> expected is Ok,
        target is Ok ==> {
            &&& target->Ok_0@.len() == expected->Ok_0@.len()
            &&& forall|i: int|
                0 <= i < target->Ok_0@.len() ==> (#[trigger] target->Ok_0@[i])@
                    == expected->Ok_0@[i]@
        },
        target matches Err(r) ==> {
            &&& r.status == 404
            &&& r.body matches Body::Error(e)
            &&& e.detail@ == "Not found."@
        },
{
    match target {
        Ok(parts) => {
            let a = handlers::texts_view(parts@);
            let b = handlers::texts_view(expected->Ok_0@);
            assert(a == b);
            assert forall|i: int| 0 <= i < parts@.len() implies (#[trigger] parts@[i])@
                == expected->Ok_0@[i]@ by {
                assert(a[i] == parts@[i]@);
                assert(b[i] == expected->Ok_0@[i]@);
            }
        },
        Err(r) => assert(r@.body is Error),
    }
}

} // verus!
