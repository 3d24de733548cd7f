//! Conditions of branches: any value that is not void can be tested.
use vstd::prelude::*;

verus! {

/// The kind of type that a condition's value has.
#[derive(Clone, Copy, Debug, PartialEq, Eq, Structural)]
pub enum ConditionType {
    Void,
    Bool,
    /// The type could not be determined; an error was reported already.
    Undefined,
    /// Any other type.
    Other,
}

/// How a condition's value becomes a boolean.
#[derive(Clone, Copy, Debug, PartialEq, Eq, Structural)]
pub enum BoolConversion {
    /// A void expression cannot be a condition.
    UnexpectedVoid,
    /// The value is a boolean already.
    AsIs,
    /// The condition holds when the value is not none.
    IsNotNone,
    /// Nothing is compiled and no error is reported.
    Nothing,
}

/// How a value of the type `ty` is tested as a condition (see `convert_to_bool`).
pub open spec fn spec_convert_to_bool(ty: ConditionType) -> BoolConversion {
    match ty {
        ConditionType::Void => BoolConversion::UnexpectedVoid,
        ConditionType::Bool => BoolConversion::AsIs,
        ConditionType::Other => BoolConversion::IsNotNone,
        ConditionType::Undefined => BoolConversion::Nothing,
    }
}

/// How a value of the type `ty` is tested as a condition.
pub fn convert_to_bool(ty: ConditionType) -> (result: BoolConversion)
    ensures
        result == spec_convert_to_bool(ty),
{
    if ty == ConditionType::Void {
        BoolConversion::UnexpectedVoid
    } else if ty == ConditionType::Bool {
        BoolConversion::AsIs
    } else if ty != ConditionType::Undefined {
        BoolConversion::IsNotNone
    } else {
        BoolConversion::Nothing
    }
}

/// Every value that is not void can be tested: a boolean as it is, any other
/// value by whether it is none; only a void value is an error, and a value
/// whose type is unknown is left alone, its error reported already. Distinct
/// kinds of types are tested in distinct ways.
pub proof fn law_conditions(ty: ConditionType, other: ConditionType)
    ensures
        spec_convert_to_bool(ty) == BoolConversion::UnexpectedVoid <==> ty == ConditionType::Void,
        spec_convert_to_bool(ty) == BoolConversion::AsIs <==> ty == ConditionType::Bool,
        spec_convert_to_bool(ty) == BoolConversion::Nothing <==> ty == ConditionType::Undefined,
        spec_convert_to_bool(ty) == spec_convert_to_bool(other) ==> ty == other,
{
}

} // verus!
