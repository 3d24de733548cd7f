//! Assignments: `a = b`, `a += b` and the like, or a bare variable path.
use vstd::prelude::*;
use crate::items::assignment_operator::{law_compound_assignment_text, spec_associated_binary_operator, AssignmentOperatorValue};
use crate::items::binary_operator::BinaryOperatorValue;

verus! {

/// What an assignment compiles to.
#[derive(Clone, Copy, Debug, PartialEq, Eq, Structural)]
pub enum AssignmentPlan {
    /// No value is assigned: the path is read.
    Read,
    /// Error: the value's type does not fit the assigned place.
    TypeMismatch,
    /// The value is stored.
    Store,
    /// The place is read, combined with the value by the operator, and the
    /// result is stored.
    StoreCombined(BinaryOperatorValue),
}

/// What an assignment compiles to: `operator` is nothing for a bare path;
/// `value_fits` tells whether the value's type can be assigned to the place.
pub open spec fn spec_assignment_plan(operator: Option<AssignmentOperatorValue>, value_fits: bool) -> AssignmentPlan {
    match operator {
        None => AssignmentPlan::Read,
        Some(op) => if !value_fits {
            AssignmentPlan::TypeMismatch
        } else {
            match spec_associated_binary_operator(op) {
                None => AssignmentPlan::Store,
                Some(binary) => AssignmentPlan::StoreCombined(binary),
            }
        },
    }
}

/// What an assignment compiles to (see `spec_assignment_plan`).
pub fn assignment_plan(operator: Option<AssignmentOperatorValue>, value_fits: bool) -> (result: AssignmentPlan)
    ensures
        result == spec_assignment_plan(operator, value_fits),
{
    match operator {
        None => AssignmentPlan::Read,
        Some(op) => {
            if !value_fits {
                AssignmentPlan::TypeMismatch
            } else {
                match op.associated_binary_operator() {
                    None => AssignmentPlan::Store,
                    Some(binary) => AssignmentPlan::StoreCombined(binary),
                }
            }
        },
    }
}

/// A bare path is read. Whenever a value is assigned, by `=` or by a compound
/// operator, and its type does not fit the place, the assignment is a type
/// mismatch and nothing is stored. A fitting value is stored as it is by `=`;
/// a compound operator such as `+=` combines the place with the value by the
/// binary operator whose text it starts with (`+` for `+=`).
pub proof fn law_assignment_plans(op: AssignmentOperatorValue, value_fits: bool)
    ensures
        spec_assignment_plan(None, value_fits) == AssignmentPlan::Read,
        spec_assignment_plan(Some(op), false) == AssignmentPlan::TypeMismatch,
        spec_assignment_plan(Some(AssignmentOperatorValue::Equal), true) == AssignmentPlan::Store,
        op != AssignmentOperatorValue::Equal ==> (spec_assignment_plan(Some(op), true) matches AssignmentPlan::StoreCombined(binary)
            && op.spec_text() == binary.spec_text() + "="@),
{
    if op != AssignmentOperatorValue::Equal {
        law_compound_assignment_text(op);
    }
}

} // verus!
