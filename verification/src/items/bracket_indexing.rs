//! Indexing with brackets: `a[i]`, read or assigned.
use vstd::prelude::*;
use crate::items::field_or_method_access::AccessKind;

verus! {

/// The built-in interface that an indexed type must offer.
#[derive(Clone, Copy, Debug, PartialEq, Eq, Structural)]
pub enum IndexInterface {
    GetAtIndex,
    /// The assigned value is put where the index's code leaves a placeholder.
    SetAtIndex,
}

/// The interface that indexing needs: reading gets, assigning sets.
pub fn bracket_interface(access: AccessKind) -> (result: IndexInterface)
    ensures
        result == match access {
            AccessKind::Get => IndexInterface::GetAtIndex,
            AccessKind::Assign => IndexInterface::SetAtIndex,
        },
{
    match access {
        AccessKind::Get => IndexInterface::GetAtIndex,
        AccessKind::Assign => IndexInterface::SetAtIndex,
    }
}

} // verus!
