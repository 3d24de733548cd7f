//! Paths of the file system, as texts, and the search for the root directory
//! of a project.
//!
//! The search climbs from a file or directory towards the root of the file
//! system. Looking at the disk is left to the caller: at each step it reports
//! what the current path is and, for a directory, the names of its entries;
//! `search_step` decides where to go next.
use vstd::prelude::*;
use crate::text::text_eq;

verus! {

/// What `std::path::Path::parent` gives for `path`: the path without its last
/// component, or nothing for a root, a prefix or the empty path.
pub uninterp spec fn path_parent(path: Seq<char>) -> Option<Seq<char>>;

/// What `std::path::PathBuf::push` makes of `base` and `name`.
pub uninterp spec fn path_joined(base: Seq<char>, name: Seq<char>) -> Seq<char>;

/// Calls `std::path::Path::parent` on `path`. Claimed: the result is what
/// `path_parent` names (a parent of a path made from a `str` is valid UTF-8,
/// so turning it back into a `String` loses nothing).
#[verifier::external_body]
fn parent_of(path: &str) -> (result: Option<String>)
    ensures
        result.deep_view() == path_parent(path@),
{
    match std::path::Path::new(path).parent() {
        Some(parent) => Some(parent.to_string_lossy().into_owned()),
        None => None,
    }
}

/// Calls `std::path::PathBuf::push` to append `name` to `base`. Claimed: the
/// result is what `path_joined` names (joining two `str` gives valid UTF-8).
#[verifier::external_body]
fn join_path(base: &str, name: &str) -> (result: String)
    ensures
        result@ == path_joined(base@, name@),
{
    let mut path_buf = std::path::PathBuf::from(base);
    path_buf.push(name);
    path_buf.to_string_lossy().into_owned()
}

/// The prelude's directory first, then `input_directory` unless it is the
/// prelude's directory itself.
pub fn prelude_first(input_directory: &str, prelude_path: String) -> (result: Vec<String>)
    ensures
        result.len() == if input_directory@ == prelude_path@ { 1int } else { 2int },
        result[0]@ == prelude_path@,
        result.len() == 2 ==> result[1]@ == input_directory@,
{
    let mut result: Vec<String> = Vec::new();
    let same = text_eq(input_directory, prelude_path.as_str());
    result.push(prelude_path);
    if !same {
        result.push(input_directory.to_owned());
    }
    result
}

/// The prelude's directory: `prelude_dir_name` inside the compiler's own
/// directory `manifest_dir`.
pub fn get_default_prelude_path(manifest_dir: &str, prelude_dir_name: &str) -> (result: String)
    ensures
        result@ == path_joined(manifest_dir@, prelude_dir_name@),
{
    join_path(manifest_dir, prelude_dir_name)
}

/// What the file system holds at a path.
#[derive(Clone, Copy, Debug, PartialEq, Eq, Structural)]
pub enum PathKind {
    File,
    Directory,
    /// A directory whose entries cannot be listed.
    UnreadableDirectory,
    /// Nothing, or something that is neither a file nor a directory.
    Other,
}

/// Where the search for a root directory goes from a path.
#[derive(Debug)]
pub enum SearchStep {
    /// The path is the root directory.
    Found(String),
    /// Go on with the parent directory.
    Ascend(String),
    /// There is no root directory.
    NotFound,
}

/// `result` is the step that the search takes from `path`, of kind `kind`;
/// `found` tells whether the path is a directory that holds a root marker.
pub open spec fn is_search_step(result: SearchStep, path: Seq<char>, kind: PathKind, found: bool) -> bool {
    let climbs = kind == PathKind::File || (kind == PathKind::Directory && !found);
    match result {
        SearchStep::Found(p) => kind == PathKind::Directory && found && p@ == path,
        SearchStep::Ascend(p) => climbs && path_parent(path) == Some(p@),
        SearchStep::NotFound => !climbs && !(kind == PathKind::Directory && found)
            || climbs && path_parent(path) is None,
    }
}

/// `result` is the step that the search takes from `path`, of kind `kind`,
/// whose parent is `parent`; `found` tells whether the path is a directory that
/// holds a root marker.
pub open spec fn is_step_from(result: SearchStep, path: Seq<char>, kind: PathKind, found: bool, parent: Option<Seq<char>>) -> bool {
    let climbs = kind == PathKind::File || (kind == PathKind::Directory && !found);
    match result {
        SearchStep::Found(p) => kind == PathKind::Directory && found && p@ == path,
        SearchStep::Ascend(p) => climbs && parent == Some(p@),
        SearchStep::NotFound => !climbs && !(kind == PathKind::Directory && found)
            || climbs && parent is None,
    }
}

/// One step of the search: a directory that holds a root marker is the root;
/// from a file, or from a directory without one, the search climbs to the
/// parent; it stops on anything else.
pub fn search_step(path: &str, kind: PathKind, found: bool) -> (result: SearchStep)
    ensures
        is_search_step(result, path@, kind, found),
{
    if kind == PathKind::File || kind == PathKind::Directory {
        let parent = parent_of(path);
        step_from(path, kind, found, parent)
    } else {
        step_from(path, kind, found, None)
    }
}

/// One step of the search from `path`, whose parent is `parent`.
pub fn step_from(path: &str, kind: PathKind, found: bool, parent: Option<String>) -> (result: SearchStep)
    ensures
        is_step_from(result, path@, kind, found, parent.deep_view()),
{
    match kind {
        PathKind::Directory if found => SearchStep::Found(path.to_owned()),
        PathKind::File | PathKind::Directory => match parent {
            Some(parent) => SearchStep::Ascend(parent),
            None => SearchStep::NotFound,
        },
        _ => SearchStep::NotFound,
    }
}

/// `names` holds `name`.
pub open spec fn holds_name(names: Seq<Seq<char>>, name: Seq<char>) -> bool {
    exists|i: int| 0 <= i < names.len() && names[i] == name
}

/// Whether one of `names` is `name`.
pub fn contains_name(names: &Vec<String>, name: &str) -> (result: bool)
    ensures
        result == holds_name(names.deep_view(), name@),
{
    let ghost v = names.deep_view();
    let mut i: usize = 0;
    while i < names.len()
        invariant
            v == names.deep_view(),
            i <= names.len(),
            forall|j: int| 0 <= j < i ==> v[j] != name@,
        decreases names.len() - i,
    {
        if text_eq(names[i].as_str(), name) {
            proof {
                assert(v[i as int] == name@);
            }
            return true;
        }
        i = i + 1;
    }
    false
}

/// What the search saw at one path: the path, its kind, and whether it holds a
/// root marker.
pub type Observation = (Seq<char>, PathKind, bool);

/// The search climbs from this observation.
pub open spec fn climbs_from(o: Observation) -> bool {
    o.1 == PathKind::File || (o.1 == PathKind::Directory && !o.2)
}

/// `chain` is a run of the search: it starts at `chain[0]`, and each path
/// after the first is the parent of the one before, from which the search
/// climbed.
pub open spec fn is_search_run(chain: Seq<Observation>) -> bool {
    &&& chain.len() > 0
    &&& forall|i: int| 0 <= i < chain.len() - 1 ==> climbs_from(#[trigger] chain[i]) && path_parent(chain[i].0)
        == Some(chain[i + 1].0)
}

/// The whole search: a run of steps that climbs from the start ends, at its
/// last path, either on the nearest directory, climbing from the start, that
/// holds a root marker (every path before it was a file or a directory
/// without one), or on nothing, when it meets what is neither a file nor a
/// readable directory, or a path without a parent, before any such directory.
pub proof fn law_search_finds_nearest_root(chain: Seq<Observation>, last: SearchStep)
    requires
        is_search_run(chain),
        is_search_step(last, chain.last().0, chain.last().1, chain.last().2),
        !(last is Ascend),
    ensures
        forall|i: int| 0 <= i < chain.len() - 1 ==> !(#[trigger] chain[i].1 == PathKind::Directory && chain[i].2),
        last matches SearchStep::Found(root) ==> root@ == chain.last().0 && chain.last().1 == PathKind::Directory
            && chain.last().2,
        last is NotFound ==> {
            &&& !(chain.last().1 == PathKind::Directory && chain.last().2)
            &&& climbs_from(chain.last()) ==> path_parent(chain.last().0) is None
        },
{
    assert forall|i: int| 0 <= i < chain.len() - 1 implies !(#[trigger] chain[i].1 == PathKind::Directory && chain[i].2) by {
        assert(climbs_from(chain[i]));
    }
}

} // verus!
