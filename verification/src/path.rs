//! Slash-separated paths as text.
use vstd::prelude::*;
use vstd::string::*;
use crate::image::text_view;
use crate::text::{chars_of, owned, replace_char, replaced, texts};

verus! {

/// `relative` below `base`. An absolute `relative` stands for itself, and a separator is put in
/// between only where `base` is not empty and does not end in one.
pub open spec fn joined_path(base: Seq<char>, relative: Seq<char>) -> Seq<char> {
    if relative.len() > 0 && relative[0] == '/' {
        relative
    } else if base.len() == 0 || base.last() == '/' {
        base + relative
    } else {
        base.push('/') + relative
    }
}

/// `name` as a single path component: every `/` and every `:` becomes `_`.
pub open spec fn flat_name(name: Seq<char>) -> Seq<char> {
    replaced(replaced(name, '/', '_'), ':', '_')
}

/// `key` as a file name: `/`, `:` and `\` become `_`.
pub open spec fn flat_key(key: Seq<char>) -> Seq<char> {
    replaced(flat_name(key), '\\', '_')
}

/// The text that the standard library's `Debug` writes for a path: the path in double quotes, with
/// the characters escaped that need it.
pub uninterp spec fn path_debug(path: Seq<char>) -> Seq<char>;

/// The path that the standard library's `Path::parent` gives for a path.
pub uninterp spec fn path_parent(path: Seq<char>) -> Option<Seq<char>>;

/// Formats `path` with the `Debug` implementation of the standard library's `Path`. The result is
/// named by `path_debug`; which characters it escapes is not stated.
#[verifier::external_body]
pub(crate) fn debug_path(path: &str) -> (r: String)
    ensures
        r@ == path_debug(path@),
{
    format!("{:?}", std::path::Path::new(path))
}

/// The standard library's `Path::parent` of `path`: the path without its last component, or `None`
/// for a root and for the empty path. The result is named by `path_parent`; how separators and `.`
/// components at the end are taken off is not stated.
#[verifier::external_body]
pub(crate) fn parent_of(path: &str) -> (r: Option<String>)
    ensures
        r is Some <==> path_parent(path@) is Some,
        r matches Some(p) ==> path_parent(path@) == Some(p@),
{
    match std::path::Path::new(path).parent() {
        Some(p) => Some(p.to_string_lossy().into_owned()),
        None => None,
    }
}

/// `relative` below `base`.
pub fn join_path(base: &str, relative: &str) -> (r: String)
    ensures
        r@ == joined_path(base@, relative@),
{
    let head = chars_of(base);
    let tail = chars_of(relative);
    if tail.len() > 0 && tail[0] == '/' {
        return owned(relative);
    }
    let mut r = owned(base);
    if head.len() > 0 && head[head.len() - 1] != '/' {
        r.push('/');
    }
    r.append(relative);
    r
}

/// `name` as a single path component.
pub fn flatten_name(name: &str) -> (r: String)
    ensures
        r@ == flat_name(name@),
{
    replace_char(replace_char(name, '/', '_').as_str(), ':', '_')
}

/// `key` as a file name.
pub fn flatten_key(key: &str) -> (r: String)
    ensures
        r@ == flat_key(key@),
{
    replace_char(flatten_name(key).as_str(), '\\', '_')
}

/// The first of `candidates` that `present` marks.
pub open spec fn first_present(candidates: Seq<Seq<char>>, present: Seq<bool>) -> Option<Seq<char>>
    decreases candidates.len(),
{
    if candidates.len() == 0 || present.len() == 0 {
        None
    } else if present[0] {
        Some(candidates[0])
    } else {
        first_present(candidates.skip(1), present.skip(1))
    }
}

/// The first of `candidates` that `present` marks.
pub fn choose_present(candidates: &Vec<String>, present: &Vec<bool>) -> (r: Option<String>)
    ensures
        text_view(r) == first_present(texts(*candidates), present@),
{
    let ghost all = texts(*candidates);
    let mut i: usize = 0;
    assert(all.skip(0) =~= all);
    assert(present@.skip(0) =~= present@);
    while i < candidates.len() && i < present.len()
        invariant
            i <= candidates@.len(),
            i <= present@.len(),
            all == texts(*candidates),
            first_present(all, present@) == first_present(
                all.skip(i as int),
                present@.skip(i as int),
            ),
        decreases candidates@.len() - i,
    {
        if present[i] {
            return Some(candidates[i].clone());
        }
        assert(all.skip(i as int).skip(1) =~= all.skip(i + 1));
        assert(present@.skip(i as int).skip(1) =~= present@.skip(i + 1));
        i = i + 1;
    }
    None
}

/// What is chosen is marked, and nothing before it is; nothing is chosen only if nothing is
/// marked.
pub proof fn first_present_is_first(candidates: Seq<Seq<char>>, present: Seq<bool>)
    requires
        candidates.len() == present.len(),
    ensures
        match first_present(candidates, present) {
            Some(path) => exists|i: int|
                0 <= i < present.len() && present[i] && #[trigger] candidates[i] == path && forall|
                    j: int,
                |
                    0 <= j < i ==> !#[trigger] present[j],
            None => forall|i: int| 0 <= i < present.len() ==> !#[trigger] present[i],
        },
    decreases candidates.len(),
{
    if candidates.len() > 0 {
        if present[0] {
            assert(candidates[0] == first_present(candidates, present)->0);
        } else {
            let c = candidates.skip(1);
            let p = present.skip(1);
            first_present_is_first(c, p);
            match first_present(c, p) {
                Some(path) => {
                    let i = choose|i: int|
                        0 <= i < p.len() && p[i] && #[trigger] c[i] == path && forall|j: int|
                            0 <= j < i ==> !#[trigger] p[j];
                    assert(candidates[i + 1] == path);
                    assert forall|j: int| 0 <= j < i + 1 implies !#[trigger] present[j] by {
                        if j > 0 {
                            assert(!p[j - 1]);
                        }
                    }
                },
                None => {
                    assert forall|i: int| 0 <= i < present.len() implies !#[trigger] present[i] by {
                        if i > 0 {
                            assert(!p[i - 1]);
                        }
                    }
                },
            }
        }
    }
}

/// A flattened name has as many characters as the name, and neither `/` nor `:`. A path that it is
/// joined to is where the joined path begins. The names `.` and `..` are flattened to themselves.
pub proof fn flat_name_is_one_component(base: Seq<char>, name: Seq<char>)
    ensures
        flat_name(name).len() == name.len(),
        !flat_name(name).contains('/'),
        !flat_name(name).contains(':'),
        base.is_prefix_of(joined_path(base, flat_name(name))),
{
    let flat = flat_name(name);
    assert forall|i: int| 0 <= i < flat.len() implies flat[i] != '/' && flat[i] != ':' by {}
    let joined = joined_path(base, flat);
    assert(base =~= joined.subrange(0, base.len() as int));
}

/// A flattened key has as many characters as the key, and no `/`, `:` or `\`.
pub proof fn flat_key_is_one_component(key: Seq<char>)
    ensures
        flat_key(key).len() == key.len(),
        !flat_key(key).contains('/'),
        !flat_key(key).contains(':'),
        !flat_key(key).contains('\\'),
{
    let flat = flat_key(key);
    assert forall|i: int| 0 <= i < flat.len() implies flat[i] != '/' && flat[i] != ':' && flat[i]
        != '\\' by {}
}

} // verus!
