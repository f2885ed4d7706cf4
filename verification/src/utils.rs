//! File names and paths that come from a client: a name is stripped of its
//! directories and of characters that file systems reject, and a path is
//! resolved so that it cannot leave its base directory.

use crate::text::{chars_of, string_of};
use vstd::prelude::*;

verus! {

/// One component of a path.
#[derive(Clone, Debug)]
pub enum PathPart {
    /// A drive or share prefix.
    Prefix,
    /// The root directory.
    RootDir,
    /// `.`
    CurDir,
    /// `..`
    ParentDir,
    /// A file or directory name.
    Normal(String),
}

/// A path component as a mathematical value.
pub enum PathPartView {
    Prefix,
    RootDir,
    CurDir,
    ParentDir,
    Normal(Seq<char>),
}

impl View for PathPart {
    type V = PathPartView;

    open spec fn view(&self) -> PathPartView {
        match self {
            PathPart::Prefix => PathPartView::Prefix,
            PathPart::RootDir => PathPartView::RootDir,
            PathPart::CurDir => PathPartView::CurDir,
            PathPart::ParentDir => PathPartView::ParentDir,
            PathPart::Normal(name) => PathPartView::Normal(name@),
        }
    }
}

/// The components of a list, each as a mathematical value.
pub open spec fn parts_view(parts: Seq<PathPart>) -> Seq<PathPartView> {
    parts.map_values(|part: PathPart| part@)
}

/// The final component of a path as the platform splits it, if it has one.
pub uninterp spec fn path_file_name(path: Seq<char>) -> Option<Seq<char>>;

/// The components of a path as the platform splits it.
pub uninterp spec fn path_parts(path: Seq<char>) -> Seq<PathPartView>;

/// A path extended by one component.
pub uninterp spec fn path_pushed(path: Seq<char>, part: Seq<char>) -> Seq<char>;

/// A path without its last component.
pub uninterp spec fn path_popped(path: Seq<char>) -> Seq<char>;

/// A path adjoined to a base path.
pub uninterp spec fn path_joined(base: Seq<char>, path: Seq<char>) -> Seq<char>;

/// Whether the components of `base` are the first components of `path`.
pub uninterp spec fn path_begins_with(path: Seq<char>, base: Seq<char>) -> bool;

/// `Path::file_name`: the final component of `path`, or `None` where the path
/// ends in `..` or has no component. Here it is only given its name. Not
/// proved here.
#[verifier::external_body]
fn file_name_of(path: &str) -> (name: Option<String>)
    ensures
        name is Some == path_file_name(path@) is Some,
        name is Some ==> name->0@ == path_file_name(path@)->0,
{
    std::path::Path::new(path).file_name().map(|name| name.to_string_lossy().into_owned())
}

/// `Path::components`: the components of `path`, first to last, each handed
/// out as a `PathPart` of the same kind. Here the list is only given its
/// name. Not proved here.
#[verifier::external_body]
fn components_of(path: &str) -> (parts: Vec<PathPart>)
    ensures
        parts_view(parts@) == path_parts(path@),
{
    std::path::Path::new(path).components().map(
        |part| match part {
            std::path::Component::Prefix(_) => PathPart::Prefix,
            std::path::Component::RootDir => PathPart::RootDir,
            std::path::Component::CurDir => PathPart::CurDir,
            std::path::Component::ParentDir => PathPart::ParentDir,
            std::path::Component::Normal(name) => PathPart::Normal(
                name.to_string_lossy().into_owned(),
            ),
        },
    ).collect()
}

/// `PathBuf::push`: `path` extended by `part`. Here the result is only given
/// its name. Not proved here.
#[verifier::external_body]
fn push_part(path: &str, part: &str) -> (longer: String)
    ensures
        longer@ == path_pushed(path@, part@),
{
    let mut buf = std::path::PathBuf::from(path);
    buf.push(part);
    buf.to_string_lossy().into_owned()
}

/// `PathBuf::pop`: `path` without its last component. Here the result is only
/// given its name. Not proved here.
#[verifier::external_body]
fn pop_part(path: &str) -> (shorter: String)
    ensures
        shorter@ == path_popped(path@),
{
    let mut buf = std::path::PathBuf::from(path);
    buf.pop();
    buf.to_string_lossy().into_owned()
}

/// `Path::join`: `path` adjoined to `base`. Here the result is only given its
/// name. Not proved here.
#[verifier::external_body]
fn join_paths(base: &str, path: &str) -> (full: String)
    ensures
        full@ == path_joined(base@, path@),
{
    std::path::Path::new(base).join(path).to_string_lossy().into_owned()
}

/// `Path::starts_with`: whether `base` is a prefix of `path`, component by
/// component. Here the answer is only given its name. Not proved here.
#[verifier::external_body]
fn begins_with(path: &str, base: &str) -> (inside: bool)
    ensures
        inside == path_begins_with(path@, base@),
{
    std::path::Path::new(path).starts_with(base)
}

/// Whether a file name may not hold `c`.
pub open spec fn forbidden_in_name(c: char) -> bool {
    c == '<' || c == '>' || c == ':' || c == '"' || c == '|' || c == '?' || c == '*'
}

/// `name` without the characters that a file name may not hold.
pub open spec fn without_forbidden(name: Seq<char>) -> Seq<char>
    decreases name.len(),
{
    if name.len() == 0 {
        seq![]
    } else if forbidden_in_name(name.last()) {
        without_forbidden(name.drop_last())
    } else {
        without_forbidden(name.drop_last()).push(name.last())
    }
}

/// The safe form of a path's final component: the component without its
/// forbidden characters, unless nothing is left of it but `.` or `..`.
pub open spec fn sanitized(file_name: Option<Seq<char>>) -> Option<Seq<char>> {
    match file_name {
        None => None,
        Some(name) => {
            let clean = without_forbidden(name);
            if clean.len() == 0 || clean == seq!['.'] || clean == seq!['.', '.'] {
                None
            } else {
                Some(clean)
            }
        },
    }
}

/// The text of an optional string.
pub open spec fn text_of(value: Option<String>) -> Option<Seq<char>> {
    match value {
        Some(text) => Some(text@),
        None => None,
    }
}

/// The relative path that `parts` resolve to, and its depth: a name goes one
/// level down, `..` one level up but never above the start, and prefixes,
/// roots and `.` are passed over.
pub open spec fn resolved(parts: Seq<PathPartView>) -> (Seq<char>, nat)
    decreases parts.len(),
{
    if parts.len() == 0 {
        (seq![], 0)
    } else {
        let (path, depth) = resolved(parts.drop_last());
        match parts.last() {
            PathPartView::Normal(name) => (path_pushed(path, name), depth + 1),
            PathPartView::ParentDir => if depth > 0 {
                (path_popped(path), (depth - 1) as nat)
            } else {
                (path, depth)
            },
            _ => (path, depth),
        }
    }
}

/// The path under `base` that the components `parts` lead to, if it lies
/// within `base`.
pub open spec fn confined(base: Seq<char>, parts: Seq<PathPartView>) -> Option<Seq<char>> {
    let full = path_joined(base, resolved(parts).0);
    if path_begins_with(full, base) {
        Some(full)
    } else {
        None
    }
}

/// The path under `base_dir` that `user_path` leads to: the base itself for
/// an empty path.
pub open spec fn validated(base_dir: Seq<char>, user_path: Seq<char>) -> Option<Seq<char>> {
    if user_path.len() == 0 {
        Some(base_dir)
    } else {
        confined(base_dir, path_parts(user_path))
    }
}

/// The safe form of a path's final component, given that component.
pub fn sanitize_file_name(file_name: Option<String>) -> (safe: Option<String>)
    ensures
        text_of(safe) == sanitized(text_of(file_name)),
{
    match file_name {
        None => None,
        Some(name) => {
            let chars = chars_of(name.as_str());
            let mut clean: Vec<char> = Vec::new();
            let mut i: usize = 0;
            while i < chars.len()
                invariant
                    i <= chars.len(),
                    clean@ == without_forbidden(chars@.subrange(0, i as int)),
                decreases chars.len() - i,
            {
                let c: char = chars[i];
                proof {
                    let next = chars@.subrange(0, i + 1);
                    assert(next.drop_last() =~= chars@.subrange(0, i as int));
                    assert(next.last() == c);
                }
                if !(c == '<' || c == '>' || c == ':' || c == '"' || c == '|' || c == '?' || c
                    == '*') {
                    clean.push(c);
                }
                i += 1;
            }
            assert(chars@.subrange(0, chars.len() as int) =~= chars@);
            let only_dots = (clean.len() == 1 && clean[0] == '.') || (clean.len() == 2 && clean[0]
                == '.' && clean[1] == '.');
            proof {
                assert(only_dots == (clean@ =~= seq!['.'] || clean@ =~= seq!['.', '.']));
            }
            if clean.len() == 0 || only_dots {
                None
            } else {
                Some(string_of(&clean))
            }
        },
    }
}

/// The safe file name in `filename`: its final path component without the
/// characters `<>:"|?*`. `None` where the path has no final component, or
/// where nothing is left of it but `.` or `..`.
pub fn sanitize_filename(filename: &str) -> (safe: Option<String>)
    ensures
        text_of(safe) == sanitized(path_file_name(filename@)),
{
    sanitize_file_name(file_name_of(filename))
}

/// The relative path that `parts` resolve to.
pub fn resolve_parts(parts: &Vec<PathPart>) -> (path: String)
    ensures
        path@ == resolved(parts_view(parts@)).0,
{
    let mut path = String::new();
    let mut depth: usize = 0;
    let mut i: usize = 0;
    while i < parts.len()
        invariant
            i <= parts.len(),
            depth <= i,
            (path@, depth as nat) == resolved(parts_view(parts@).subrange(0, i as int)),
        decreases parts.len() - i,
    {
        proof {
            let next = parts_view(parts@).subrange(0, i + 1);
            assert(next.drop_last() =~= parts_view(parts@).subrange(0, i as int));
            assert(next.last() == parts@[i as int]@);
        }
        match &parts[i] {
            PathPart::Normal(name) => {
                path = push_part(path.as_str(), name.as_str());
                depth += 1;
            },
            PathPart::ParentDir => {
                if depth > 0 {
                    path = pop_part(path.as_str());
                    depth -= 1;
                }
            },
            _ => {},
        }
        i += 1;
    }
    assert(parts_view(parts@).subrange(0, parts.len() as int) =~= parts_view(parts@));
    path
}

/// The path under `base_dir` that the components `parts` lead to, if it lies
/// within `base_dir`.
pub fn confine(base_dir: &str, parts: &Vec<PathPart>) -> (full: Option<String>)
    ensures
        text_of(full) == confined(base_dir@, parts_view(parts@)),
{
    let relative = resolve_parts(parts);
    let full = join_paths(base_dir, relative.as_str());
    if begins_with(full.as_str(), base_dir) {
        Some(full)
    } else {
        None
    }
}

/// The path under `base_dir` that `user_path` leads to, with every step that
/// would climb out of `base_dir` passed over. An empty `user_path` gives the
/// base itself.
pub fn validate_file_path(base_dir: &str, user_path: &str) -> (full: Option<String>)
    ensures
        text_of(full) == validated(base_dir@, user_path@),
{
    if user_path.is_empty() {
        return Some(base_dir.to_owned());
    }
    let parts = components_of(user_path);
    confine(base_dir, &parts)
}

} // verus!
