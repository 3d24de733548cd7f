//! The expression that a variable path starts with.
use vstd::prelude::*;

verus! {

/// The kinds of expression that can start a variable path, in the order in
/// which the parser tries them.
#[derive(Clone, Copy, Debug, PartialEq, Eq, Structural)]
pub enum ParsedVarPathRoot {
    Macro,
    DebugMacro,
    VarDeclaration,
    Action,
    MatchBlock,
    IfBlock,
    IterFields,
    IterVariants,
    IterAncestors,
    WhileBlock,
    ForBlock,
    Block,
    NoneLiteral,
    BooleanLiteral,
    NumberLiteral,
    CharLiteral,
    StringLiteral,
    TemplateString,
    ArrayLiteral,
    StaticFieldOrMethod,
    ObjectLiteral,
    FunctionLiteral,
    Parenthesized,
    PrefixedVarRef,
    VarRef,
}

impl ParsedVarPathRoot {
    /// The text of the root as a keyword: none of them is one.
    pub fn as_str(&self) -> (result: &'static str)
        ensures
            result@ == Seq::<char>::empty(),
    {
        proof {
            reveal_strlit("");
        }
        ""
    }

    /// Whether the root is a plain reference to a variable.
    pub fn is_var_ref(&self) -> (result: bool)
        ensures
            result == (*self == ParsedVarPathRoot::VarRef),
    {
        match self {
            ParsedVarPathRoot::VarRef => true,
            _ => false,
        }
    }

    /// The error of an access to the root: only a plain reference to a
    /// variable can be assigned to.
    pub fn access_error(&self, is_assignment: bool) -> (result: Option<&'static str>)
        ensures
            match result {
                Some(message) => is_assignment && *self != ParsedVarPathRoot::VarRef
                    && message@ == "invalid assignment"@,
                None => !is_assignment || *self == ParsedVarPathRoot::VarRef,
            },
    {
        if is_assignment && !self.is_var_ref() {
            Some("invalid assignment")
        } else {
            None
        }
    }
}

} // verus!
