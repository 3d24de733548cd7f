//! The search for the directory that holds a project's root file.
use vstd::prelude::*;
use crate::command_line::paths::{contains_name, holds_name, is_search_step, search_step, PathKind, SearchStep};

verus! {

/// One step of the search for the root directory from `file_or_dir_path`, of
/// kind `kind`, whose entries (for a directory) are named `entries`: the root
/// directory is the first one, climbing from the path, that holds a file named
/// `root_file_name`.
pub fn infer_root_directory(file_or_dir_path: &str, kind: PathKind, entries: &Vec<String>, root_file_name: &str) -> (result: SearchStep)
    ensures
        is_search_step(result, file_or_dir_path@, kind, holds_name(entries.deep_view(), root_file_name@)),
{
    let found = kind == PathKind::Directory && contains_name(entries, root_file_name);
    search_step(file_or_dir_path, kind, found)
}

} // verus!
