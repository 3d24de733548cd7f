//! Casts: `value as Type`.
use vstd::prelude::*;
use crate::reader;
use crate::reader::{ItemLocation, Reader};

verus! {

/// The keyword `as` of a cast.
pub struct AsKeyword {
    pub location: ItemLocation,
    pub value: String,
}

impl AsKeyword {
    pub fn parse_item(reader: &mut Reader) -> (result: Option<Self>)
        requires
            old(reader).wf(),
        ensures
            final(reader).wf(),
            final(reader).same_text(old(reader)),
            final(reader).same_errors(old(reader)),
            match reader::token_item(old(reader).bytes(), old(reader).pos(), "as"@, old(reader).comment()) {
                Some((location_end, end)) => {
                    &&& result matches Some(item)
                    &&& item.value@ == "as"@
                    &&& item.location.file_path@ == old(reader).path()
                    &&& item.location.start == old(reader).pos()
                    &&& item.location.end == location_end
                    &&& final(reader).pos() == end
                },
                None => result is None && final(reader).pos() == old(reader).pos(),
            },
    {
        proof {
            reveal_strlit("as");
        }
        match reader.read_token_item("as") {
            Some((value, location)) => Some(AsKeyword { location, value }),
            None => None,
        }
    }
}

/// What a cast compiles to.
#[derive(Clone, Copy, Debug, PartialEq, Eq, Structural)]
pub enum CastPlan {
    /// Error: "expected identifier" after `as`.
    ExpectedType,
    /// The target type could not be read; an error was reported already.
    Nothing,
    /// The value takes the target type.
    Cast,
}

/// What a cast compiles to: `target_type` is nothing when no type follows
/// `as`, else whether the type could be read.
pub fn cast_plan(target_type: Option<bool>) -> (result: CastPlan)
    ensures
        result == match target_type {
            None => CastPlan::ExpectedType,
            Some(false) => CastPlan::Nothing,
            Some(true) => CastPlan::Cast,
        },
{
    match target_type {
        None => CastPlan::ExpectedType,
        Some(false) => CastPlan::Nothing,
        Some(true) => CastPlan::Cast,
    }
}

} // verus!
