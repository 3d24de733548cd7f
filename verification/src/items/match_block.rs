//! `match` blocks: what value is matched, how each branch tests it, and what
//! type the branches give.
//!
//! Compiling the matched value and the branches is left to the caller, which
//! hands over what the decisions read: the kind of the matched type, the
//! variant that a branch names, whether the type has it.
use vstd::prelude::*;
use crate::items::if_block::count_fitting;
use crate::text::text_eq;

verus! {

/// The kinds of types.
#[derive(Clone, Copy, Debug, PartialEq, Eq, Structural)]
pub enum TypeCategory {
    /// A plain type, such as `bool` or `int`.
    Type,
    Class,
    Enum,
}

/// The type of the matched value.
#[derive(Clone, Copy, Debug, PartialEq, Eq, Structural)]
pub enum MatchSubject {
    /// The type could not be determined; an error was reported already.
    Undefined,
    /// A type that is not an actual type, such as a type parameter.
    NotActual,
    Actual { category: TypeCategory, is_bool: bool },
}

/// What a `match` does with its matched value.
#[derive(Clone, Copy, Debug, PartialEq, Eq, Structural)]
pub enum MatchSubjectCheck {
    /// Nothing is compiled and no error is reported.
    Nothing,
    /// Error: expected an enum or a class type.
    ExpectedEnumOrClass,
    /// Error: expected an enum type.
    ExpectedEnum,
    /// The branches are compiled, each tested as its category says.
    Branches(TypeCategory),
}

/// How a branch tests the matched value.
#[derive(Clone, Copy, Debug, PartialEq, Eq, Structural)]
pub enum BranchTest {
    /// The value is `false` or none.
    IsFalse,
    /// The value is `true`.
    IsTrue,
    /// The object is none.
    IsNone,
    /// The object is an instance of the branch's class; `binds_variable` when
    /// the branch names a variable for it.
    IsInstance { binds_variable: bool },
    /// The enum value is the none value.
    IsNoneVariant,
    /// The enum value is the branch's variant.
    IsVariant,
    /// Error: the type has no such variant.
    NoSuchVariant,
    /// Error: the branch does not name a variant.
    ExpectedVariantName,
    /// Error: the branch's type is not a class.
    NotAClass,
    /// The branch's type could not be read; an error was reported already.
    Nothing,
}

/// What a `match` does with a matched value of type `subject`.
pub open spec fn spec_match_subject_check(subject: MatchSubject) -> MatchSubjectCheck {
    match subject {
        MatchSubject::Undefined => MatchSubjectCheck::Nothing,
        MatchSubject::NotActual => MatchSubjectCheck::ExpectedEnum,
        MatchSubject::Actual { category, is_bool } => if category == TypeCategory::Enum
            || category == TypeCategory::Class || is_bool {
            MatchSubjectCheck::Branches(category)
        } else {
            MatchSubjectCheck::ExpectedEnumOrClass
        },
    }
}

/// How a branch tests a matched value of the category `category`.
/// `variant` is the branch's pattern when it is a single name, `none_literal`
/// the name of the none value; `enum_has_variant` tells whether the matched
/// enum has a variant of that name; `variant_type_is_object` whether the type
/// that the pattern names is a class (nothing when it names no type); and
/// `has_var_name` whether the branch names a variable.
pub open spec fn spec_branch_test(
    category: TypeCategory,
    variant: Option<Seq<char>>,
    none_literal: Seq<char>,
    enum_has_variant: bool,
    variant_type_is_object: Option<bool>,
    has_var_name: bool,
) -> BranchTest {
    match category {
        TypeCategory::Type => match variant {
            Some(name) => if name == none_literal || name == "false"@ {
                BranchTest::IsFalse
            } else if name == "true"@ {
                BranchTest::IsTrue
            } else {
                BranchTest::NoSuchVariant
            },
            None => BranchTest::ExpectedVariantName,
        },
        TypeCategory::Class => if variant == Some(none_literal) {
            BranchTest::IsNone
        } else {
            match variant_type_is_object {
                Some(true) => BranchTest::IsInstance { binds_variable: has_var_name },
                Some(false) => BranchTest::NotAClass,
                None => BranchTest::Nothing,
            }
        },
        TypeCategory::Enum => match variant {
            Some(name) => if name == none_literal {
                BranchTest::IsNoneVariant
            } else if enum_has_variant {
                BranchTest::IsVariant
            } else {
                BranchTest::NoSuchVariant
            },
            None => BranchTest::ExpectedVariantName,
        },
    }
}

/// What a `match` does with a matched value of type `subject`.
pub fn match_subject_check(subject: MatchSubject) -> (result: MatchSubjectCheck)
    ensures
        result == spec_match_subject_check(subject),
{
    match subject {
        MatchSubject::Undefined => MatchSubjectCheck::Nothing,
        MatchSubject::NotActual => MatchSubjectCheck::ExpectedEnum,
        MatchSubject::Actual { category, is_bool } => {
            if category == TypeCategory::Enum || category == TypeCategory::Class || is_bool {
                MatchSubjectCheck::Branches(category)
            } else {
                MatchSubjectCheck::ExpectedEnumOrClass
            }
        },
    }
}

/// How a branch tests the matched value (see `spec_branch_test`).
pub fn match_branch_test(
    category: TypeCategory,
    variant: Option<&str>,
    none_literal: &str,
    enum_has_variant: bool,
    variant_type_is_object: Option<bool>,
    has_var_name: bool,
) -> (result: BranchTest)
    ensures
        result == spec_branch_test(
            category,
            match variant {
                Some(v) => Some(v@),
                None => None,
            },
            none_literal@,
            enum_has_variant,
            variant_type_is_object,
            has_var_name,
        ),
{
    match category {
        TypeCategory::Type => match variant {
            Some(name) => {
                if text_eq(name, none_literal) || text_eq(name, "false") {
                    BranchTest::IsFalse
                } else if text_eq(name, "true") {
                    BranchTest::IsTrue
                } else {
                    BranchTest::NoSuchVariant
                }
            },
            None => BranchTest::ExpectedVariantName,
        },
        TypeCategory::Class => {
            let is_none = match variant {
                Some(name) => text_eq(name, none_literal),
                None => false,
            };
            if is_none {
                BranchTest::IsNone
            } else {
                match variant_type_is_object {
                    Some(true) => BranchTest::IsInstance { binds_variable: has_var_name },
                    Some(false) => BranchTest::NotAClass,
                    None => BranchTest::Nothing,
                }
            }
        },
        TypeCategory::Enum => match variant {
            Some(name) => {
                if text_eq(name, none_literal) {
                    BranchTest::IsNoneVariant
                } else if enum_has_variant {
                    BranchTest::IsVariant
                } else {
                    BranchTest::NoSuchVariant
                }
            },
            None => BranchTest::ExpectedVariantName,
        },
    }
}

/// What the branches give so far, after one more branch whose value was
/// compiled: the first branch sets the type; a later one must share a common
/// type with what came before, or its type is a mismatch.
#[derive(Clone, Copy, Debug, PartialEq, Eq, Structural)]
pub enum BranchTypeStep {
    /// The branch's type becomes the type of the branches.
    First,
    /// The common type becomes the type of the branches.
    Common,
    /// Error: the branch's type does not fit; the branch is left out.
    Mismatch,
}

/// The step for a branch, given whether a type was set before and whether the
/// branch's type has a common type with it.
pub fn branch_type_step(has_previous_type: bool, has_common_type: bool) -> (result: BranchTypeStep)
    ensures
        result == if !has_previous_type {
            BranchTypeStep::First
        } else if has_common_type {
            BranchTypeStep::Common
        } else {
            BranchTypeStep::Mismatch
        },
{
    if !has_previous_type {
        BranchTypeStep::First
    } else if has_common_type {
        BranchTypeStep::Common
    } else {
        BranchTypeStep::Mismatch
    }
}

/// A branch is compiled only when its test is one: the error outcomes and
/// `Nothing` leave the branch out.
pub open spec fn is_test(test: BranchTest) -> bool {
    match test {
        BranchTest::NoSuchVariant | BranchTest::ExpectedVariantName | BranchTest::NotAClass | BranchTest::Nothing => false,
        _ => true,
    }
}

/// A branch that names the none value always tests for it, whatever the kind
/// of the matched value, and binds no variable.
pub proof fn law_none_branch_is_a_test(category: TypeCategory, none_literal: Seq<char>, enum_has_variant: bool,
    variant_type_is_object: Option<bool>, has_var_name: bool)
    ensures
        is_test(spec_branch_test(category, Some(none_literal), none_literal, enum_has_variant, variant_type_is_object, has_var_name)),
        !(spec_branch_test(category, Some(none_literal), none_literal, enum_has_variant, variant_type_is_object, has_var_name) is IsInstance),
{
}

/// A matched value of an actual enum or class type is always accepted, and so
/// is one of type `bool`, whatever its kind; only a plain type other than
/// `bool` is refused, with the error that an enum or a class was expected. The
/// accepted branches are tested as the matched type's kind says.
pub proof fn law_matched_types(category: TypeCategory, is_bool: bool)
    ensures
        spec_match_subject_check(MatchSubject::Actual { category: TypeCategory::Enum, is_bool })
            == MatchSubjectCheck::Branches(TypeCategory::Enum),
        spec_match_subject_check(MatchSubject::Actual { category: TypeCategory::Class, is_bool })
            == MatchSubjectCheck::Branches(TypeCategory::Class),
        spec_match_subject_check(MatchSubject::Actual { category: TypeCategory::Type, is_bool: true })
            == MatchSubjectCheck::Branches(TypeCategory::Type),
        spec_match_subject_check(MatchSubject::Actual { category: TypeCategory::Type, is_bool: false })
            == MatchSubjectCheck::ExpectedEnumOrClass,
        spec_match_subject_check(MatchSubject::Actual { category, is_bool }) is Branches ==>
            spec_match_subject_check(MatchSubject::Actual { category, is_bool }) == MatchSubjectCheck::Branches(category),
        spec_match_subject_check(MatchSubject::NotActual) == MatchSubjectCheck::ExpectedEnum,
        spec_match_subject_check(MatchSubject::Undefined) == MatchSubjectCheck::Nothing,
{
}

/// On a `bool`, a branch `true` tests for true and a branch `false` for false;
/// on an enum, a branch that names a variant of the enum, other than the none
/// value, tests for that variant, and one that names no variant of it is an
/// error; on a class, a branch whose type is a class tests for an instance of
/// it and binds a variable exactly when it names one.
pub proof fn law_branch_tests(variant: Option<Seq<char>>, none_literal: Seq<char>, enum_has_variant: bool,
    variant_type_is_object: Option<bool>, has_var_name: bool)
    ensures
        none_literal != "true"@ ==>
            spec_branch_test(TypeCategory::Type, Some("true"@), none_literal, enum_has_variant,
                variant_type_is_object, has_var_name) == BranchTest::IsTrue,
        spec_branch_test(TypeCategory::Type, Some("false"@), none_literal, enum_has_variant,
            variant_type_is_object, has_var_name) == BranchTest::IsFalse,
        variant matches Some(name) && name != none_literal ==>
            spec_branch_test(TypeCategory::Enum, variant, none_literal, enum_has_variant,
                variant_type_is_object, has_var_name)
                == if enum_has_variant { BranchTest::IsVariant } else { BranchTest::NoSuchVariant },
        variant != Some(none_literal) && variant_type_is_object == Some(true) ==>
            spec_branch_test(TypeCategory::Class, variant, none_literal, enum_has_variant,
                variant_type_is_object, has_var_name) == (BranchTest::IsInstance { binds_variable: has_var_name }),
        variant is None ==>
            spec_branch_test(TypeCategory::Enum, variant, none_literal, enum_has_variant,
                variant_type_is_object, has_var_name) == BranchTest::ExpectedVariantName,
{
    reveal_strlit("true");
    reveal_strlit("false");
    assert("true"@ != "false"@) by {
        assert("true"@.len() != "false"@.len());
    }
}

/// The type of the branches after the first `n`: whether a branch has set it
/// (when none has, the block's type is void), and how many branches are
/// compiled into the block. `branches[i]` is nothing where the branch is left
/// out (its test is an error, or its value did not compile), else whether its
/// type has a common type with the type so far. The first compiled branch sets
/// the type, later ones widen it to the common type, and a branch without one
/// is a mismatch and is left out.
pub open spec fn match_branches_state(branches: Seq<Option<bool>>, n: int) -> (bool, nat)
    decreases n,
{
    if n <= 0 {
        (false, 0)
    } else {
        let (has_type, count) = match_branches_state(branches, n - 1);
        match branches[n - 1] {
            None => (has_type, count),
            Some(has_common_type) => if !has_type || has_common_type {
                (true, count + 1)
            } else {
                (has_type, count)
            },
        }
    }
}

/// The type of a `match` block's branches (see `match_branches_state`):
/// whether a branch set it, else it is void, and how many branches are
/// compiled into the block.
pub fn match_branch_types(branches: &Vec<Option<bool>>) -> (result: (bool, usize))
    ensures
        ({
            let state = match_branches_state(branches@, branches@.len() as int);
            result == (state.0, state.1 as usize)
        }),
{
    let mut has_type = false;
    let mut count: usize = 0;
    let mut i: usize = 0;
    while i < branches.len()
        invariant
            i <= branches.len(),
            count <= i,
            (has_type, count as nat) == match_branches_state(branches@, i as int),
        decreases branches.len() - i,
    {
        if let Some(has_common_type) = branches[i] {
            match branch_type_step(has_type, has_common_type) {
                BranchTypeStep::First | BranchTypeStep::Common => {
                    has_type = true;
                    count = count + 1;
                },
                BranchTypeStep::Mismatch => {},
            }
        }
        i = i + 1;
    }
    (has_type, count)
}

proof fn lemma_match_branches_counts(branches: Seq<Option<bool>>, n: int)
    requires
        0 <= n <= branches.len(),
    ensures
        match_branches_state(branches, n).0 <==> match_branches_state(branches, n).1 > 0,
        match_branches_state(branches, n).0 <==> exists|i: int| 0 <= i < n && branches[i] is Some,
        count_fitting(branches.subrange(0, n), true) <= match_branches_state(branches, n).1,
        match_branches_state(branches, n).1 <= count_fitting(branches.subrange(0, n), true)
            + count_fitting(branches.subrange(0, n), false),
        match_branches_state(branches, n).1 <= count_fitting(branches.subrange(0, n), true) + 1,
    decreases n,
{
    reveal(Seq::filter);
    if n > 0 {
        lemma_match_branches_counts(branches, n - 1);
        assert(branches.subrange(0, n).drop_last() =~= branches.subrange(0, n - 1));
        assert(branches.subrange(0, n).last() == branches[n - 1]);
        let t0 = count_fitting(branches.subrange(0, n - 1), true);
        let f0 = count_fitting(branches.subrange(0, n - 1), false);
        assert(count_fitting(branches.subrange(0, n), true) == t0 + if branches[n - 1] == Some(true) { 1nat } else { 0nat });
        assert(count_fitting(branches.subrange(0, n), false) == f0 + if branches[n - 1] == Some(false) { 1nat } else { 0nat });
        match branches[n - 1] {
            Some(b) => if b {
                assert(branches[n - 1] == Some(true));
            } else {
                assert(branches[n - 1] == Some(false));
            },
            None => {},
        }
        if branches[n - 1] is None {
            if exists|i: int| 0 <= i < n && branches[i] is Some {
                let i = choose|i: int| 0 <= i < n && branches[i] is Some;
                assert(0 <= i < n - 1);
            }
        }
    }
}

/// The branches of a `match` block have a type exactly when one of them is
/// compiled into the block, and that is so exactly when one of them compiled
/// at all. Every branch with a common type is compiled in;
/// among those without one, only the first compiled branch can be, as it sets
/// the type; a branch that is left out is never counted.
pub proof fn law_match_branch_counts(branches: Seq<Option<bool>>)
    ensures
        ({
            let state = match_branches_state(branches, branches.len() as int);
            &&& state.0 <==> state.1 > 0
            &&& state.0 <==> exists|i: int| 0 <= i < branches.len() && branches[i] is Some
            &&& count_fitting(branches, true) <= state.1
            &&& state.1 <= count_fitting(branches, true) + count_fitting(branches, false)
            &&& state.1 <= count_fitting(branches, true) + 1
        }),
{
    lemma_match_branches_counts(branches, branches.len() as int);
    assert(branches.subrange(0, branches.len() as int) =~= branches);
}

} // verus!
