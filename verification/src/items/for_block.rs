//! `for` loops, over a range of integers (`for i in a..b`) or over an iterable
//! value (`for x in list`), with an optional index name (`for [i, x] in list`).
//!
//! Compiling the range bounds, the iterable and the body is left to the
//! caller, which hands over what the decisions read.
use vstd::prelude::*;

verus! {

/// The variable that holds the index of the current iteration.
#[derive(Clone, Copy, Debug, PartialEq, Eq, Structural)]
pub enum ForIndex {
    /// The loop names it.
    Named,
    /// A fresh name made for it.
    Fresh,
}

/// The loop that is compiled.
#[derive(Clone, Copy, Debug, PartialEq, Eq, Structural)]
pub enum ForKind {
    /// Counts from the range's start up to, not including, its end.
    Range,
    /// Walks over the iterable by its length and item pointer.
    Iterable,
}

/// What a `for` loop compiles to, and the errors it reports.
#[derive(Clone, Copy, Debug, PartialEq, Eq, Structural)]
pub struct ForPlan {
    pub index: ForIndex,
    /// The loop that is compiled; none when a part could not be compiled.
    pub kind: Option<ForKind>,
    /// Error: the range's start is not an integer.
    pub start_not_int: bool,
    /// Error: the range's end is not an integer.
    pub end_not_int: bool,
    /// Error: the body gives a value.
    pub body_not_void: bool,
}

/// What a `for` loop compiles to. `has_range_end` tells whether it is written
/// `a..b`; `start` and `end` are whether the start (or the iterable) and the
/// end compiled to an integer, nothing where they did not compile;
/// `item_names_ok` whether the item names could be declared; `iterable_matches`
/// whether the iterable's type is iterable; `body` whether the body compiled to
/// no value, nothing where it did not compile.
pub open spec fn spec_for_plan(
    has_index_name: bool,
    has_range_end: bool,
    start: Option<bool>,
    end: Option<bool>,
    item_names_ok: bool,
    iterable_matches: bool,
    body: Option<bool>,
) -> ForPlan {
    let index = if has_index_name { ForIndex::Named } else { ForIndex::Fresh };
    let nothing = ForPlan { index, kind: None, start_not_int: false, end_not_int: false, body_not_void: false };
    if has_range_end {
        match (start, end) {
            (Some(start_is_int), Some(end_is_int)) => {
                let checked = ForPlan { start_not_int: !start_is_int, end_not_int: !end_is_int, ..nothing };
                if item_names_ok && body is Some {
                    ForPlan { kind: Some(ForKind::Range), body_not_void: !body->0, ..checked }
                } else {
                    checked
                }
            },
            _ => nothing,
        }
    } else if start is Some && item_names_ok && iterable_matches && body is Some {
        ForPlan { kind: Some(ForKind::Iterable), body_not_void: !body->0, ..nothing }
    } else {
        nothing
    }
}

/// What a `for` loop compiles to (see `spec_for_plan`).
pub fn for_plan(
    has_index_name: bool,
    has_range_end: bool,
    start: Option<bool>,
    end: Option<bool>,
    item_names_ok: bool,
    iterable_matches: bool,
    body: Option<bool>,
) -> (result: ForPlan)
    ensures
        result == spec_for_plan(has_index_name, has_range_end, start, end, item_names_ok, iterable_matches, body),
{
    let index = if has_index_name { ForIndex::Named } else { ForIndex::Fresh };
    let mut plan = ForPlan { index, kind: None, start_not_int: false, end_not_int: false, body_not_void: false };
    if has_range_end {
        if let (Some(start_is_int), Some(end_is_int)) = (start, end) {
            plan.start_not_int = !start_is_int;
            plan.end_not_int = !end_is_int;
            if item_names_ok {
                if let Some(body_is_void) = body {
                    plan.kind = Some(ForKind::Range);
                    plan.body_not_void = !body_is_void;
                }
            }
        }
    } else if start.is_some() && item_names_ok && iterable_matches {
        if let Some(body_is_void) = body {
            plan.kind = Some(ForKind::Iterable);
            plan.body_not_void = !body_is_void;
        }
    }
    plan
}

/// A loop is compiled only when its body compiled, and a body that gives a
/// value is reported only then.
pub proof fn law_loop_needs_a_body(
    has_index_name: bool,
    has_range_end: bool,
    start: Option<bool>,
    end: Option<bool>,
    item_names_ok: bool,
    iterable_matches: bool,
    body: Option<bool>,
)
    ensures
        ({
            let plan = spec_for_plan(has_index_name, has_range_end, start, end, item_names_ok, iterable_matches, body);
            &&& plan.kind is Some ==> body is Some && item_names_ok
            &&& plan.body_not_void ==> plan.kind is Some
            &&& plan.kind == Some(ForKind::Range) <==> has_range_end && start is Some && end is Some && item_names_ok && body is Some
        }),
{
}

/// The index is the named one exactly when the loop names one. A range loop
/// reports each bound that is not an integer, once both compiled, and never
/// asks whether anything is iterable; a loop over an iterable is compiled
/// exactly when the iterable, the item names and the body compiled and the
/// iterable's type is iterable. Once compiled, a loop reports its body exactly
/// when the body gives a value.
pub proof fn law_for_plan_outcomes(
    has_index_name: bool,
    has_range_end: bool,
    start: Option<bool>,
    end: Option<bool>,
    item_names_ok: bool,
    iterable_matches: bool,
    body: Option<bool>,
)
    ensures
        ({
            let plan = spec_for_plan(has_index_name, has_range_end, start, end, item_names_ok, iterable_matches, body);
            &&& (plan.index == ForIndex::Named) == has_index_name
            &&& plan.kind == Some(ForKind::Iterable)
                <==> !has_range_end && start is Some && item_names_ok && iterable_matches && body is Some
            &&& plan.kind is Some ==> plan.body_not_void == (body == Some(false))
            &&& plan.start_not_int <==> has_range_end && start == Some(false) && end is Some
            &&& plan.end_not_int <==> has_range_end && end == Some(false) && start is Some
            &&& has_range_end ==> plan == spec_for_plan(has_index_name, has_range_end, start, end, item_names_ok,
                !iterable_matches, body)
        }),
{
}

} // verus!
