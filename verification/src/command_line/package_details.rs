//! The packages that a compilation reads.
use vstd::prelude::*;
use crate::command_line::paths::{contains_name, get_default_prelude_path, holds_name, is_search_step, path_joined,
    prelude_first, search_step, PathKind, SearchStep};

verus! {

/// The root paths of the packages to read: the prelude's directory first,
/// then `input_directory` unless it is the prelude's directory itself.
pub fn bundle_with_prelude(input_directory: &str, manifest_dir: &str, prelude_dir_name: &str) -> (result: Vec<String>)
    ensures
        ({
            let prelude = path_joined(manifest_dir@, prelude_dir_name@);
            &&& result.len() == if input_directory@ == prelude { 1int } else { 2int }
            &&& result[0]@ == prelude
            &&& result.len() == 2 ==> result[1]@ == input_directory@
        }),
{
    let prelude_path = get_default_prelude_path(manifest_dir, prelude_dir_name);
    prelude_first(input_directory, prelude_path)
}

/// One step of the search for a package's root directory from `path`, of kind
/// `kind`, whose entries (for a directory) are named `entries`: the root
/// directory is the first one, climbing from the path, that holds an entry
/// named `root_file_name` or `src_dir_name`.
pub fn infer_root_directory(path: &str, kind: PathKind, entries: &Vec<String>, root_file_name: &str, src_dir_name: &str) -> (result: SearchStep)
    ensures
        is_search_step(result, path@, kind,
            holds_name(entries.deep_view(), root_file_name@) || holds_name(entries.deep_view(), src_dir_name@)),
{
    let found = kind == PathKind::Directory
        && (contains_name(entries, root_file_name) || contains_name(entries, src_dir_name));
    search_step(path, kind, found)
}

} // verus!
