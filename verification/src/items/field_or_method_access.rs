//! Field and method accesses: the dot that starts them, and the checks of a
//! function call.
use vstd::prelude::*;
use crate::reader;
use crate::reader::{ItemLocation, Reader};
use crate::items::identifier::{decimal, push_decimal};

verus! {

/// `.`, when it is not the start of `..`.
pub struct DotToken {
    pub location: ItemLocation,
    pub dot: String,
}

impl DotToken {
    /// Where the item's location ends and where the reader then stands: a dot,
    /// then blanks, then anything but another dot.
    pub open spec fn spec_parse(bytes: Seq<u8>, pos: int, comment: Option<Seq<u8>>) -> Option<(int, int)> {
        match reader::token_item(bytes, pos, "."@, comment) {
            Some((location_end, end)) => if end < bytes.len() && bytes[end] != 46 {
                Some((location_end, end))
            } else {
                None
            },
            None => None,
        }
    }

    pub fn parse_item(reader: &mut Reader) -> (result: Option<Self>)
        requires
            old(reader).wf(),
        ensures
            final(reader).wf(),
            final(reader).same_text(old(reader)),
            final(reader).error_state() == match reader::token_item(old(reader).bytes(), old(reader).pos(), "."@, old(reader).comment()) {
                Some((_, end)) => if end < old(reader).bytes().len() && old(reader).bytes()[end] != 46 {
                    old(reader).error_state()
                } else {
                    reader::record_expected(old(reader).error_state(), end, reader::slashed("[^.]"@))
                },
                None => old(reader).error_state(),
            },
            match Self::spec_parse(old(reader).bytes(), old(reader).pos(), old(reader).comment()) {
                Some((location_end, end)) => {
                    &&& result matches Some(item)
                    &&& item.dot@ == "."@
                    &&& item.location.file_path@ == old(reader).path()
                    &&& item.location.start == old(reader).pos()
                    &&& item.location.end == location_end
                    &&& final(reader).pos() == end
                },
                None => result is None && final(reader).pos() == old(reader).pos(),
            },
    {
        proof {
            reveal_strlit(".");
        }
        let start = reader.get_index();
        match reader.read_token_item(".") {
            Some((dot, location)) => {
                let here = reader.get_index();
                if here < reader.text_len() && reader.byte(here) != 46 {
                    Some(DotToken { location, dot })
                } else {
                    proof {
                        vstd::utf8::is_char_boundary_start_end_of_seq(old(reader).bytes());
                    }
                    reader.set_expected_regex("[^.]");
                    reader.set_index(start);
                    None
                }
            },
            None => None,
        }
    }
}

/// How a value is accessed.
#[derive(Clone, Copy, Debug, PartialEq, Eq, Structural)]
pub enum AccessKind {
    Get,
    /// The value is assigned to.
    Assign,
}

/// The function that a call reaches.
#[derive(Clone, Copy, Debug, PartialEq, Eq, Structural)]
pub enum CallKind {
    /// A function or method known by name.
    Named,
    /// A function value; `has_this_type` when it is a dynamic method.
    Anonymous { has_this_type: bool },
}

/// What a call compiles to.
#[derive(Clone, Copy, Debug, PartialEq, Eq, Structural)]
pub enum CallPlan {
    /// Error: "cannot set result of a function call".
    CannotSetResult,
    /// The call is compiled. `is_var_call` for a function value that is not a
    /// method: its argument and return types are taken as they are, without
    /// replacing the caller's type parameters.
    Call { is_var_call: bool },
}

/// What a call compiles to (see `call_plan`).
pub open spec fn spec_call_plan(access: AccessKind, call: CallKind) -> CallPlan {
    match access {
        AccessKind::Assign => CallPlan::CannotSetResult,
        AccessKind::Get => CallPlan::Call {
            is_var_call: call == (CallKind::Anonymous { has_this_type: false }),
        },
    }
}

/// What a call compiles to.
pub fn call_plan(access: AccessKind, call: CallKind) -> (result: CallPlan)
    ensures
        result == spec_call_plan(access, call),
{
    match access {
        AccessKind::Assign => CallPlan::CannotSetResult,
        AccessKind::Get => {
            let is_var_call = match call {
                CallKind::Named => false,
                CallKind::Anonymous { has_this_type } => !has_this_type,
            };
            CallPlan::Call { is_var_call }
        },
    }
}

/// The message for a call with `got` arguments to a function that takes
/// `expected`: "expected 2 arguments, got 1".
pub open spec fn argument_count_message(expected: nat, got: nat) -> Seq<char> {
    "expected "@ + decimal(expected) + " argument"@ + (if expected > 1 { "s"@ } else { Seq::empty() }) + ", got "@
        + decimal(got)
}

/// The error of a call with `got` arguments to a function that takes
/// `expected`: none when the counts are the same.
pub fn argument_count_error(expected: usize, got: usize) -> (result: Option<String>)
    ensures
        match result {
            Some(message) => expected != got && message@ == argument_count_message(expected as nat, got as nat),
            None => expected == got,
        },
{
    if expected == got {
        return None;
    }
    let mut message = String::from_str("expected ");
    push_decimal(&mut message, expected);
    message.append(" argument");
    if expected > 1 {
        message.append("s");
    }
    message.append(", got ");
    push_decimal(&mut message, got);
    Some(message)
}

/// What is reported of an argument, once compiled.
#[derive(Clone, Copy, Debug, PartialEq, Eq, Structural)]
pub enum ArgumentCheck {
    /// The argument is fine, or its type is unknown and an error was reported already.
    Accepted,
    /// Error: "cannot infer type".
    CannotInferType,
    /// Error: "expected `T`, got `U`".
    TypeMismatch,
}

/// What is reported of an argument whose type is undefined, ambiguous, or
/// assignable to the parameter's type.
pub fn argument_check(is_undefined: bool, is_ambiguous: bool, is_assignable: bool) -> (result: ArgumentCheck)
    ensures
        result == if is_undefined {
            ArgumentCheck::Accepted
        } else if is_ambiguous {
            ArgumentCheck::CannotInferType
        } else if !is_assignable {
            ArgumentCheck::TypeMismatch
        } else {
            ArgumentCheck::Accepted
        },
{
    if is_undefined {
        ArgumentCheck::Accepted
    } else if is_ambiguous {
        ArgumentCheck::CannotInferType
    } else if !is_assignable {
        ArgumentCheck::TypeMismatch
    } else {
        ArgumentCheck::Accepted
    }
}

/// The result of a call can never be assigned to, whatever is called; a call
/// that is read is always compiled, and takes its types as they are exactly
/// when it calls a function value that is not a method: a function known by
/// name, or a dynamic method, has its caller's type parameters replaced.
pub proof fn law_call_plans(call: CallKind)
    ensures
        spec_call_plan(AccessKind::Assign, call) == CallPlan::CannotSetResult,
        spec_call_plan(AccessKind::Get, call) is Call,
        spec_call_plan(AccessKind::Get, CallKind::Named) == (CallPlan::Call { is_var_call: false }),
        spec_call_plan(AccessKind::Get, call) == (CallPlan::Call { is_var_call: true })
            <==> call == (CallKind::Anonymous { has_this_type: false }),
{
}

} // verus!
