//! Global variables: `let a = ...;` at the top level of a file.
use vstd::prelude::*;

verus! {

/// The errors of a global variable declaration.
#[derive(Clone, Copy, Debug, PartialEq, Eq, Structural)]
pub struct GlobalVarErrors {
    /// "cannot declare global variables as tuples": it does not declare exactly one name.
    pub tuple: bool,
    /// "duplicate global variable declaration": the name is taken.
    pub duplicate: bool,
}

/// The errors of a declaration of `var_count` names whose first name is
/// already a global variable or not.
pub fn global_var_errors(var_count: usize, already_declared: bool) -> (result: GlobalVarErrors)
    ensures
        result.tuple == (var_count != 1),
        result.duplicate == already_declared,
{
    GlobalVarErrors { tuple: var_count != 1, duplicate: already_declared }
}

} // verus!
