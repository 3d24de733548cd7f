//! The source directories that a compilation reads.
use vstd::prelude::*;
use crate::command_line::paths::{contains_name, get_default_prelude_path, holds_name, is_search_step, path_joined,
    prelude_first, search_step, PathKind, SearchStep};

verus! {

/// A directory of source files.
#[derive(Debug)]
pub struct SourceDirectoryDetails {
    pub path: String,
}

/// The prelude's directory first, then `input_directory` unless it is the
/// prelude's directory itself.
pub fn bundle_with_prelude(input_directory: &str, manifest_dir: &str, prelude_dir_name: &str) -> (result: Vec<SourceDirectoryDetails>)
    ensures
        ({
            let prelude = path_joined(manifest_dir@, prelude_dir_name@);
            &&& result.len() == if input_directory@ == prelude { 1int } else { 2int }
            &&& result[0].path@ == prelude
            &&& result.len() == 2 ==> result[1].path@ == input_directory@
        }),
{
    let prelude_path = get_default_prelude_path(manifest_dir, prelude_dir_name);
    let paths = prelude_first(input_directory, prelude_path);
    let mut result: Vec<SourceDirectoryDetails> = Vec::new();
    let mut i: usize = 0;
    while i < paths.len()
        invariant
            i <= paths.len(),
            result.len() == i,
            forall|j: int| 0 <= j < i ==> result[j].path@ == paths[j]@,
        decreases paths.len() - i,
    {
        result.push(SourceDirectoryDetails { path: paths[i].clone() });
        i = i + 1;
    }
    result
}

/// One step of the search for the root directory from `file_or_dir_path`, of
/// kind `kind`, whose entries (for a directory) are named `entries`: the root
/// directory is the first one, climbing from the path, that holds a file named
/// `root_file_name`.
pub fn infer_root_directory(file_or_dir_path: &str, kind: PathKind, entries: &Vec<String>, root_file_name: &str) -> (result: SearchStep)
    ensures
        is_search_step(result, file_or_dir_path@, kind, holds_name(entries.deep_view(), root_file_name@)),
{
    let found = kind == PathKind::Directory && contains_name(entries, root_file_name);
    search_step(file_or_dir_path, kind, found)
}

} // verus!
