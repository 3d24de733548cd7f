//! `if` / `else if` / `else` blocks: the type that the branches give.
use vstd::prelude::*;

verus! {

/// A branch after the first one.
#[derive(Clone, Copy, Debug, PartialEq, Eq, Structural)]
pub enum LaterBranch {
    ElseIf,
    Else,
}

/// What a later branch does to the type of the block.
#[derive(Clone, Copy, Debug, PartialEq, Eq, Structural)]
pub enum IfTypeStep {
    /// The common type of the branches becomes the type of the block.
    Common,
    /// The type of the block stays.
    Keep,
    /// Error: the branch's type does not fit the block's type.
    Mismatch,
}

/// What a later branch whose body compiled does to the type of the block,
/// given whether its type has a common type with the block's: an `else if`
/// widens the block's type to it, an `else` only has to fit.
pub fn if_type_step(branch: LaterBranch, has_common_type: bool) -> (result: IfTypeStep)
    ensures
        result == if !has_common_type {
            IfTypeStep::Mismatch
        } else if branch == LaterBranch::ElseIf {
            IfTypeStep::Common
        } else {
            IfTypeStep::Keep
        },
{
    if !has_common_type {
        IfTypeStep::Mismatch
    } else {
        match branch {
            LaterBranch::ElseIf => IfTypeStep::Common,
            LaterBranch::Else => IfTypeStep::Keep,
        }
    }
}

/// Whether a block is reported for a missing `else`: an `if` whose branches
/// give a value needs an `else` branch.
pub fn missing_else(has_else: bool, block_type_is_void: bool) -> (result: bool)
    ensures
        result == (!has_else && !block_type_is_void),
{
    !has_else && !block_type_is_void
}

/// What an `if` block compiles to.
#[derive(Clone, Copy, Debug, PartialEq, Eq, Structural)]
pub struct IfPlan {
    /// The block always compiles, whatever its branches do.
    pub compiles: bool,
    /// The block's type starts from the `if` branch's type when that branch
    /// compiled, else from void.
    pub starts_from_if_branch: bool,
    /// How many `else if` branches widened the block's type to a common type.
    pub widened: usize,
    /// How many branches were reported for a type that does not fit.
    pub mismatches: usize,
}

/// The widenings and mismatches of the first `n` `else if` branches:
/// `else_ifs[i]` is nothing where the branch's condition or body did not
/// compile, else whether its type has a common type with the block's.
pub open spec fn else_if_state(else_ifs: Seq<Option<bool>>, n: int) -> (nat, nat)
    decreases n,
{
    if n <= 0 {
        (0, 0)
    } else {
        let (widened, mismatches) = else_if_state(else_ifs, n - 1);
        match else_ifs[n - 1] {
            None => (widened, mismatches),
            Some(true) => (widened + 1, mismatches),
            Some(false) => (widened, mismatches + 1),
        }
    }
}

/// What an `if` block compiles to. `if_branch_compiled` tells whether the `if`
/// branch's condition and body compiled; `else_branch` is nothing without an
/// `else`, else nothing inside where its body did not compile, else whether its
/// type has a common type with the block's. The block's type is the `if`
/// branch's (or void), widened by each `else if` in turn; an `else` only has to
/// fit.
pub open spec fn spec_if_plan(if_branch_compiled: bool, else_ifs: Seq<Option<bool>>, else_branch: Option<Option<bool>>) -> IfPlan {
    let (widened, mismatches) = else_if_state(else_ifs, else_ifs.len() as int);
    IfPlan {
        compiles: true,
        starts_from_if_branch: if_branch_compiled,
        widened: widened as usize,
        mismatches: (mismatches + if else_branch == Some(Some(false)) { 1nat } else { 0nat }) as usize,
    }
}

/// What an `if` block compiles to (see `spec_if_plan`).
pub fn if_plan(if_branch_compiled: bool, else_ifs: &Vec<Option<bool>>, else_branch: Option<Option<bool>>) -> (result: IfPlan)
    requires
        else_ifs.len() < usize::MAX,
    ensures
        result == spec_if_plan(if_branch_compiled, else_ifs@, else_branch),
{
    let mut widened: usize = 0;
    let mut mismatches: usize = 0;
    let mut i: usize = 0;
    while i < else_ifs.len()
        invariant
            i <= else_ifs.len(),
            widened + mismatches <= i,
            (widened as nat, mismatches as nat) == else_if_state(else_ifs@, i as int),
        decreases else_ifs.len() - i,
    {
        if let Some(has_common_type) = else_ifs[i] {
            match if_type_step(LaterBranch::ElseIf, has_common_type) {
                IfTypeStep::Mismatch => {
                    mismatches = mismatches + 1;
                },
                _ => {
                    widened = widened + 1;
                },
            }
        }
        i = i + 1;
    }
    if let Some(Some(has_common_type)) = else_branch {
        if if_type_step(LaterBranch::Else, has_common_type) == IfTypeStep::Mismatch {
            mismatches = mismatches + 1;
        }
    }
    IfPlan { compiles: true, starts_from_if_branch: if_branch_compiled, widened, mismatches }
}

/// How many of `branches` are `Some(fits)`.
pub open spec fn count_fitting(branches: Seq<Option<bool>>, fits: bool) -> nat {
    branches.filter(|b: Option<bool>| b == Some(fits)).len()
}

proof fn lemma_else_if_counts(else_ifs: Seq<Option<bool>>, n: int)
    requires
        0 <= n <= else_ifs.len(),
    ensures
        else_if_state(else_ifs, n) == (count_fitting(else_ifs.subrange(0, n), true),
            count_fitting(else_ifs.subrange(0, n), false)),
    decreases n,
{
    reveal(Seq::filter);
    if n > 0 {
        lemma_else_if_counts(else_ifs, n - 1);
        assert(else_ifs.subrange(0, n).drop_last() =~= else_ifs.subrange(0, n - 1));
    }
}

/// An `if` block always compiles. Every `else if` whose condition and body
/// compiled either widens the block's type, when it has a common type with it,
/// or is reported as a mismatch; one that did not compile does neither. An
/// `else` is reported exactly when its type does not fit, and never widens the
/// type. Whether the `if` branch compiled changes nothing but where the type
/// starts from.
pub proof fn law_if_plan_counts(if_branch_compiled: bool, else_ifs: Seq<Option<bool>>,
    else_branch: Option<Option<bool>>)
    requires
        else_ifs.len() < usize::MAX,
    ensures
        ({
            let plan = spec_if_plan(if_branch_compiled, else_ifs, else_branch);
            let else_mismatch: nat = if else_branch == Some(Some(false)) { 1 } else { 0 };
            &&& plan.compiles
            &&& plan.starts_from_if_branch == if_branch_compiled
            &&& plan.widened as nat == count_fitting(else_ifs, true)
            &&& plan.mismatches as nat == count_fitting(else_ifs, false) + else_mismatch
        }),
        count_fitting(else_ifs, true) + count_fitting(else_ifs, false) <= else_ifs.len(),
{
    lemma_else_if_counts(else_ifs, else_ifs.len() as int);
    assert(else_ifs.subrange(0, else_ifs.len() as int) =~= else_ifs);
    lemma_else_if_bounded(else_ifs, else_ifs.len() as int);
}

proof fn lemma_else_if_bounded(else_ifs: Seq<Option<bool>>, n: int)
    requires
        0 <= n <= else_ifs.len(),
    ensures
        else_if_state(else_ifs, n).0 + else_if_state(else_ifs, n).1 <= n,
    decreases n,
{
    if n > 0 {
        lemma_else_if_bounded(else_ifs, n - 1);
    }
}

} // verus!
