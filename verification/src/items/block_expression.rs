//! Blocks: `{ a; b; c }`. Every item but the last, and any item followed by
//! `;`, is compiled for its effect and its value dropped; the last item gives
//! the block's value.
use vstd::prelude::*;

verus! {

/// How the item at `index` of a block of `len` items is compiled.
#[derive(Clone, Copy, Debug, PartialEq, Eq, Structural)]
pub struct BlockItemPlan {
    /// The block's type hint is passed on to the item.
    pub receives_hint: bool,
    /// The item's value is dropped, and the block's type becomes void.
    pub drops_value: bool,
}

/// How the item at `index` of a block of `len` items is compiled: only the last
/// one gets the block's type hint, and only the last one keeps its value,
/// unless it is followed by `;`.
pub fn block_item_plan(index: usize, len: usize, has_semicolon: bool) -> (result: BlockItemPlan)
    requires
        index < len,
    ensures
        result.receives_hint == (index == len - 1),
        result.drops_value == (index != len - 1 || has_semicolon),
{
    let is_last = index == len - 1;
    BlockItemPlan { receives_hint: is_last, drops_value: !is_last || has_semicolon }
}

/// Whether a block compiles: it fails exactly when its last item does not
/// compile; the other items may fail, each reporting its own error.
pub fn block_compiles(len: usize, last_item_compiles: bool) -> (result: bool)
    ensures
        result == (len == 0 || last_item_compiles),
{
    len == 0 || last_item_compiles
}

} // verus!
