//! The body of a function: WebAssembly written by hand, or a block of the language.
use vstd::prelude::*;

verus! {

/// A function's body, `W` being the item type of raw WebAssembly and `B` that
/// of a block.
pub enum FunctionBody<W, B> {
    WebAssembly(W),
    Block(B),
}

impl<W, B> FunctionBody<W, B> {
    /// Whether the body is raw WebAssembly.
    pub fn is_raw_wasm(&self) -> (result: bool)
        ensures
            result == (self is WebAssembly),
    {
        match self {
            FunctionBody::WebAssembly(_) => true,
            _ => false,
        }
    }
}

} // verus!
