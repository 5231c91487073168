//! Names and paths that come from a request, brought into a form that is safe
//! to use below the archive root or in a header.

use crate::text::same_text;
use crate::text;
use vstd::prelude::*;

verus! {

// ---- Lower case ----

/// The lower-case form of a text, by the Unicode rules.
pub uninterp spec fn lowercase_text(s: Seq<char>) -> Seq<char>;

/// An ASCII capital as its small letter, any other character as it is.
pub open spec fn ascii_lower(c: char) -> char {
    if 'A' <= c <= 'Z' {
        (c as u8 + 32) as u8 as char
    } else {
        c
    }
}

/// `s` with its ASCII capitals as small letters.
pub open spec fn ascii_lowered(s: Seq<char>) -> Seq<char> {
    s.map_values(|c: char| ascii_lower(c))
}

/// `str::to_lowercase` depends on the text alone. On ASCII text it turns the
/// capitals into small letters, one by one; what it does elsewhere is named
/// and not described.
pub assume_specification[ str::to_lowercase ](s: &str) -> (res: String)
    ensures
        res@ == lowercase_text(s@),
        s.is_ascii() ==> res@ == ascii_lowered(s@),
;

// ---- Platforms ----

/// The directory of a platform, by the platform's name in lower case.
pub open spec fn platform_dir_view(lower: Seq<char>) -> Option<Seq<char>> {
    if lower == "android"@ {
        Some("Android"@)
    } else if lower == "ios"@ {
        Some("iOS"@)
    } else {
        None
    }
}

/// The directory of a platform, by the platform's name in lower case.
pub fn platform_dir(lower: &str) -> (dir: Option<&'static str>)
    ensures
        match dir {
            Some(d) => platform_dir_view(lower@) == Some(d@),
            None => platform_dir_view(lower@) is None,
        },
{
    if same_text(lower, "android") {
        Some("Android")
    } else if same_text(lower, "ios") {
        Some("iOS")
    } else {
        None
    }
}

// ---- Filtered names ----

/// A character that may stand in a database name: `[a-zA-Z0-9_]`.
pub open spec fn is_db_name_char(c: char) -> bool {
    ||| 'a' <= c <= 'z'
    ||| 'A' <= c <= 'Z'
    ||| '0' <= c <= '9'
    ||| c == '_'
}

/// The database name that is left of `name`.
pub open spec fn db_name_view(name: Seq<char>) -> Seq<char> {
    name.filter(|c: char| is_db_name_char(c))
}

/// Keeps what may stand in a database name.
pub fn clean_db_name(name: &str) -> (clean: String)
    ensures
        clean@ == db_name_view(name@),
{
    let mut clean = String::new();
    let ghost keep = |c: char| is_db_name_char(c);
    proof {
        reveal(Seq::filter);
        assert(name@.take(0).filter(keep) == Seq::<char>::empty());
    }
    for c in it: name.chars()
        invariant
            it.seq() == name@,
            keep == (|c: char| is_db_name_char(c)),
            clean@ == name@.take(it.index()).filter(keep),
    {
        proof {
            text::lemma_filter_push(name@.take(it.index()), c, keep);
            assert(name@.take(it.index() + 1) == name@.take(it.index()).push(c));
        }
        if ('a' <= c && c <= 'z') || ('A' <= c && c <= 'Z') || ('0' <= c && c <= '9') || c == '_' {
            clean.push(c);
        }
    }
    assert(name@.take(name@.len() as int) == name@);
    clean
}

/// The file that holds the database asked for as `name`.
pub open spec fn database_file_view(name: Seq<char>) -> Option<Seq<char>> {
    if db_name_view(name).len() > 0 {
        Some(db_name_view(name) + ".db_"@)
    } else {
        None
    }
}

/// The file that holds the database asked for as `name`, unless nothing of the
/// name is left.
pub fn database_file(name: &str) -> (file: Option<String>)
    ensures
        match file {
            Some(f) => database_file_view(name@) == Some(f@),
            None => database_file_view(name@) is None,
        },
{
    let mut file = clean_db_name(name);
    if file.as_str().is_empty() {
        return None;
    }
    file.append(".db_");
    Some(file)
}

/// A character that may stand in a version: a digit or a dot.
pub open spec fn is_version_char(c: char) -> bool {
    '0' <= c <= '9' || c == '.'
}

/// The version that is left of `version`.
pub open spec fn version_view(version: Seq<char>) -> Seq<char> {
    version.filter(|c: char| is_version_char(c))
}

/// Keeps digits and dots.
pub fn clean_version(version: &str) -> (clean: String)
    ensures
        clean@ == version_view(version@),
{
    let mut clean = String::new();
    let ghost keep = |c: char| is_version_char(c);
    proof {
        reveal(Seq::filter);
        assert(version@.take(0).filter(keep) == Seq::<char>::empty());
    }
    for c in it: version.chars()
        invariant
            it.seq() == version@,
            keep == (|c: char| is_version_char(c)),
            clean@ == version@.take(it.index()).filter(keep),
    {
        proof {
            text::lemma_filter_push(version@.take(it.index()), c, keep);
            assert(version@.take(it.index() + 1) == version@.take(it.index()).push(c));
        }
        if ('0' <= c && c <= '9') || c == '.' {
            clean.push(c);
        }
    }
    assert(version@.take(version@.len() as int) == version@);
    clean
}

// ---- Relative paths ----

/// The components of a path: what stands between its slashes, empty
/// components included.
pub open spec fn components(path: Seq<char>) -> Seq<Seq<char>>
    decreases path.len(),
{
    if path.len() == 0 {
        seq![Seq::empty()]
    } else {
        let front = components(path.drop_last());
        if path.last() == '/' {
            front.push(Seq::empty())
        } else {
            front.drop_last().push(front.last().push(path.last()))
        }
    }
}

/// A component that names something: not empty, not `.` and not `..`.
pub open spec fn is_plain(component: Seq<char>) -> bool {
    &&& component.len() > 0
    &&& component != "."@
    &&& component != ".."@
}

/// The path with these components.
pub open spec fn joined(parts: Seq<Seq<char>>) -> Seq<char>
    decreases parts.len(),
{
    if parts.len() == 0 {
        Seq::empty()
    } else if parts.len() == 1 {
        parts[0]
    } else {
        joined(parts.drop_last()).push('/') + parts.last()
    }
}

/// The plain components of a path, in order.
pub open spec fn plain_components(path: Seq<char>) -> Seq<Seq<char>> {
    components(path).filter(|c: Seq<char>| is_plain(c))
}

/// The path made of the plain components alone.
pub open spec fn sanitized(path: Seq<char>) -> Seq<char> {
    joined(plain_components(path))
}

/// The components of a path with one more character.
proof fn lemma_components_push(path: Seq<char>, c: char)
    ensures
        components(path).len() >= 1,
        components(path.push(c)) == if c == '/' {
            components(path).push(Seq::empty())
        } else {
            components(path).drop_last().push(components(path).last().push(c))
        },
    decreases path.len(),
{
    assert(path.push(c).drop_last() == path);
    if path.len() > 0 {
        lemma_components_push(path.drop_last(), path.last());
        assert(path.drop_last().push(path.last()) == path);
    }
}

fn plain(component: &str) -> (yes: bool)
    ensures
        yes == is_plain(component@),
{
    !component.is_empty() && !same_text(component, ".") && !same_text(component, "..")
}

/// Appends a component to a path that has components already or not.
fn add_component(path: &mut String, bare: bool, component: &str, Ghost(parts): Ghost<
    Seq<Seq<char>>,
>)
    requires
        old(path)@ == joined(parts),
        bare == (parts.len() == 0),
    ensures
        final(path)@ == joined(parts.push(component@)),
{
    assert(parts.push(component@).drop_last() == parts);
    if !bare {
        path.push('/');
    }
    path.append(component);
    assert(path@ == joined(parts.push(component@)));
}

/// Normalises a path from a request: slashes are single, and the components
/// `.` and `..` are dropped, as is a leading or trailing slash.
pub fn sanitize_path(path: &str) -> (clean: String)
    ensures
        clean@ == sanitized(path@),
{
    let ghost keep = |c: Seq<char>| is_plain(c);
    let mut clean = String::new();
    let mut bare = true;
    let mut current = String::new();
    let ghost mut done: Seq<Seq<char>> = Seq::empty();
    proof {
        reveal(Seq::filter);
        assert(path@.take(0) == Seq::<char>::empty());
        assert(components(path@.take(0)) == done.push(current@));
        assert(done.filter(keep) == Seq::<Seq<char>>::empty());
    }
    for c in it: path.chars()
        invariant
            it.seq() == path@,
            keep == (|c: Seq<char>| is_plain(c)),
            components(path@.take(it.index())) == done.push(current@),
            clean@ == joined(done.filter(keep)),
            bare == (done.filter(keep).len() == 0),
    {
        proof {
            lemma_components_push(path@.take(it.index()), c);
            assert(path@.take(it.index() + 1) == path@.take(it.index()).push(c));
            assert(done.push(current@).drop_last() == done);
            text::lemma_filter_push(done, current@, keep);
        }
        if c == '/' {
            if plain(current.as_str()) {
                add_component(&mut clean, bare, current.as_str(), Ghost(done.filter(keep)));
                bare = false;
            }
            proof {
                done = done.push(current@);
            }
            current = String::new();
        } else {
            current.push(c);
        }
    }
    proof {
        assert(path@.take(path@.len() as int) == path@);
        text::lemma_filter_push(done, current@, keep);
    }
    if plain(current.as_str()) {
        add_component(&mut clean, bare, current.as_str(), Ghost(done.filter(keep)));
    }
    clean
}

} // verus!
