//! Control-flow statements: `return`, `check`, `break` and `continue`, each
//! with an optional expression.
//!
//! What such a statement compiles to depends on where it stands: inside a
//! function or not, what the function returns, how deep inside loops. `process`
//! makes that decision; compiling the expression is left to the caller.
use vstd::prelude::*;
use crate::items::action_keyword::{ActionKeyword, ActionKeywordWrapper};

verus! {

/// A control-flow statement; `E` is the type of its expression.
pub struct Action<E> {
    pub keyword: ActionKeywordWrapper,
    pub expression: Option<E>,
}

/// Where a statement stands.
#[derive(Clone, Copy, Debug, PartialEq, Eq, Structural)]
pub struct ActionScope {
    /// Inside a function: whether the function returns nothing.
    pub function_returns_void: Option<bool>,
    /// Inside a loop: how many blocks lie between the statement and the
    /// innermost loop.
    pub loop_depth: Option<usize>,
}

/// The type that the expression of a statement must have.
#[derive(Clone, Copy, Debug, PartialEq, Eq, Structural)]
pub enum ExpectedType {
    Void,
    ReturnType,
}

/// What a statement compiles to.
#[derive(Clone, Copy, Debug, PartialEq, Eq, Structural)]
pub enum ActionPlan {
    /// Return from a function that returns nothing, without a value.
    ReturnNothing,
    /// Compile the expression and check its type. Against the function's
    /// return type, its value is returned; against void, the expression's code
    /// stands alone and no return is emitted.
    ReturnExpression(ExpectedType),
    /// Compile the expression as a condition; return none from the function
    /// when it does not hold.
    CheckCondition,
    /// Jump out of as many blocks.
    Jump(usize),
    /// The keyword is not allowed where it stands.
    UnexpectedKeyword,
    /// The statement needs an expression and has none.
    ExpectedExpression,
    /// A value is missing: the function returns one.
    MissingReturnValue,
    /// The keyword takes no expression; the expression is still compiled.
    UnexpectedExpression,
    /// Nothing is compiled and no error is reported.
    Nothing,
}

/// What a statement with the keyword `keyword` compiles to in `scope`.
pub open spec fn spec_plan(keyword: ActionKeyword, has_expression: bool, scope: ActionScope) -> ActionPlan {
    match keyword {
        ActionKeyword::Return => match scope.function_returns_void {
            Some(true) => if has_expression {
                ActionPlan::ReturnExpression(ExpectedType::Void)
            } else {
                ActionPlan::ReturnNothing
            },
            Some(false) => if has_expression {
                ActionPlan::ReturnExpression(ExpectedType::ReturnType)
            } else {
                ActionPlan::MissingReturnValue
            },
            None => ActionPlan::UnexpectedKeyword,
        },
        ActionKeyword::Check => match scope.function_returns_void {
            Some(_) => if has_expression {
                ActionPlan::CheckCondition
            } else {
                ActionPlan::ExpectedExpression
            },
            None => ActionPlan::Nothing,
        },
        ActionKeyword::Break | ActionKeyword::Continue => if has_expression {
            ActionPlan::UnexpectedExpression
        } else {
            match scope.loop_depth {
                Some(depth) => if keyword == ActionKeyword::Break {
                    ActionPlan::Jump((depth + 1) as usize)
                } else {
                    ActionPlan::Jump(depth)
                },
                None => ActionPlan::UnexpectedKeyword,
            }
        },
    }
}

impl<E> Action<E> {
    /// What the statement compiles to in `scope`.
    pub fn process(&self, scope: ActionScope) -> (result: ActionPlan)
        requires
            scope.loop_depth matches Some(depth) ==> depth < usize::MAX,
        ensures
            result == spec_plan(self.keyword.value, self.expression is Some, scope),
    {
        let has_expression = self.expression.is_some();
        match self.keyword.value {
            ActionKeyword::Return => match scope.function_returns_void {
                Some(true) => if has_expression {
                    ActionPlan::ReturnExpression(ExpectedType::Void)
                } else {
                    ActionPlan::ReturnNothing
                },
                Some(false) => if has_expression {
                    ActionPlan::ReturnExpression(ExpectedType::ReturnType)
                } else {
                    ActionPlan::MissingReturnValue
                },
                None => ActionPlan::UnexpectedKeyword,
            },
            ActionKeyword::Check => match scope.function_returns_void {
                Some(_) => if has_expression {
                    ActionPlan::CheckCondition
                } else {
                    ActionPlan::ExpectedExpression
                },
                None => ActionPlan::Nothing,
            },
            ActionKeyword::Break | ActionKeyword::Continue => if has_expression {
                ActionPlan::UnexpectedExpression
            } else {
                match scope.loop_depth {
                    Some(depth) => match self.keyword.value {
                        ActionKeyword::Break => ActionPlan::Jump(depth + 1),
                        _ => ActionPlan::Jump(depth),
                    },
                    None => ActionPlan::UnexpectedKeyword,
                }
            },
        }
    }
}

/// `break` leaves the innermost loop's enclosing block, one level further than
/// `continue`, which goes back to the loop's start.
pub proof fn law_break_jumps_past_continue(depth: usize)
    requires
        depth < usize::MAX,
    ensures
        ({
            let scope = ActionScope { function_returns_void: None, loop_depth: Some(depth) };
            &&& spec_plan(ActionKeyword::Break, false, scope) == ActionPlan::Jump((depth + 1) as usize)
            &&& spec_plan(ActionKeyword::Continue, false, scope) == ActionPlan::Jump(depth)
        }),
{
}

/// Outside a loop, `break` and `continue` are errors whatever the function.
pub proof fn law_jumps_need_a_loop(keyword: ActionKeyword, function_returns_void: Option<bool>)
    requires
        keyword == ActionKeyword::Break || keyword == ActionKeyword::Continue,
    ensures
        ({
            let scope = ActionScope { function_returns_void, loop_depth: None };
            &&& spec_plan(keyword, false, scope) == ActionPlan::UnexpectedKeyword
            &&& spec_plan(keyword, true, scope) == ActionPlan::UnexpectedExpression
        }),
{
}

/// Inside any function, whatever it returns, `check` with an expression
/// compiles its condition, and `check` without one is an error; outside a
/// function, `check` compiles to nothing. Where the statement stands among
/// loops makes no difference, and neither does the function's return type.
pub proof fn law_check_in_function(has_expression: bool, scope: ActionScope, other: ActionScope)
    ensures
        scope.function_returns_void is Some ==>
            spec_plan(ActionKeyword::Check, true, scope) == ActionPlan::CheckCondition,
        scope.function_returns_void is Some ==>
            spec_plan(ActionKeyword::Check, false, scope) == ActionPlan::ExpectedExpression,
        scope.function_returns_void is None ==>
            spec_plan(ActionKeyword::Check, has_expression, scope) == ActionPlan::Nothing,
        (scope.function_returns_void is Some <==> other.function_returns_void is Some) ==>
            spec_plan(ActionKeyword::Check, has_expression, scope)
                == spec_plan(ActionKeyword::Check, has_expression, other),
{
}

/// `return` is an error outside a function. Inside one it returns a value
/// exactly when the function returns one: with an expression, that
/// expression's value; without one, a value is missing. In a function that
/// returns nothing, a bare `return` returns, and an expression is compiled
/// against void. Loops make no difference.
pub proof fn law_return_follows_function(has_expression: bool, scope: ActionScope, other: ActionScope)
    ensures
        scope.function_returns_void is None ==>
            spec_plan(ActionKeyword::Return, has_expression, scope) == ActionPlan::UnexpectedKeyword,
        scope.function_returns_void == Some(false) ==>
            spec_plan(ActionKeyword::Return, true, scope) == ActionPlan::ReturnExpression(ExpectedType::ReturnType),
        scope.function_returns_void == Some(false) ==>
            spec_plan(ActionKeyword::Return, false, scope) == ActionPlan::MissingReturnValue,
        scope.function_returns_void == Some(true) ==>
            spec_plan(ActionKeyword::Return, true, scope) == ActionPlan::ReturnExpression(ExpectedType::Void),
        scope.function_returns_void == Some(true) ==>
            spec_plan(ActionKeyword::Return, false, scope) == ActionPlan::ReturnNothing,
        scope.function_returns_void == other.function_returns_void ==>
            spec_plan(ActionKeyword::Return, has_expression, scope)
                == spec_plan(ActionKeyword::Return, has_expression, other),
{
}

/// `break` and `continue` depend only on the loops around them, never on the
/// function; given an expression, they are refused whatever the scope.
pub proof fn law_jumps_ignore_function(keyword: ActionKeyword, scope: ActionScope, other: ActionScope)
    requires
        keyword == ActionKeyword::Break || keyword == ActionKeyword::Continue,
    ensures
        spec_plan(keyword, true, scope) == ActionPlan::UnexpectedExpression,
        scope.loop_depth == other.loop_depth ==>
            spec_plan(keyword, false, scope) == spec_plan(keyword, false, other),
        scope.loop_depth is Some ==> spec_plan(keyword, false, scope) is Jump,
{
}

/// What a `return` with an expression gives once the expression is compiled.
#[derive(Clone, Copy, Debug, PartialEq, Eq, Structural)]
pub enum ReturnOutcome {
    /// The value is returned from the function.
    ReturnValue,
    /// The expression's code stands alone (a function that returns nothing).
    ExpressionOnly,
    /// Error: the value's type does not fit; nothing is compiled.
    TypeMismatch,
    /// The expression did not compile; nothing is compiled.
    Nothing,
}

/// What a `return` planned as `ReturnExpression(expected)` gives, once its
/// expression is compiled (see `return_outcome`).
pub open spec fn spec_return_outcome(expected: ExpectedType, compiled: Option<bool>) -> ReturnOutcome {
    match compiled {
        None => ReturnOutcome::Nothing,
        Some(false) => ReturnOutcome::TypeMismatch,
        Some(true) => if expected == ExpectedType::Void {
            ReturnOutcome::ExpressionOnly
        } else {
            ReturnOutcome::ReturnValue
        },
    }
}

/// What a `return` planned as `ReturnExpression(expected)` gives:
/// `compiled` is nothing where the expression did not compile, else whether
/// its type fits `expected` (is void, or is assignable to the return type).
pub fn return_outcome(expected: ExpectedType, compiled: Option<bool>) -> (result: ReturnOutcome)
    ensures
        result == spec_return_outcome(expected, compiled),
{
    match compiled {
        None => ReturnOutcome::Nothing,
        Some(false) => ReturnOutcome::TypeMismatch,
        Some(true) => match expected {
            ExpectedType::Void => ReturnOutcome::ExpressionOnly,
            ExpectedType::ReturnType => ReturnOutcome::ReturnValue,
        },
    }
}

/// A `return` with an expression, inside a function: when the expression
/// compiled with a type that fits, a function that returns a value returns it,
/// and one that returns nothing keeps only the expression's code; a type that
/// does not fit is a mismatch, and an expression that did not compile gives
/// nothing, whatever the function.
pub proof fn law_return_with_expression(returns_void: bool, loop_depth: Option<usize>, compiled: Option<bool>)
    ensures
        ({
            let scope = ActionScope { function_returns_void: Some(returns_void), loop_depth };
            &&& spec_plan(ActionKeyword::Return, true, scope) matches ActionPlan::ReturnExpression(expected)
            &&& spec_return_outcome(expected, compiled) == match compiled {
                Some(true) => if returns_void { ReturnOutcome::ExpressionOnly } else { ReturnOutcome::ReturnValue },
                Some(false) => ReturnOutcome::TypeMismatch,
                None => ReturnOutcome::Nothing,
            }
        }),
{
}

} // verus!
