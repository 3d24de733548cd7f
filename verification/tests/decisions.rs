use lotus_compiler::items::action::{return_outcome, ExpectedType, ReturnOutcome};
use lotus_compiler::items::array_literal::array_literal_items;
use lotus_compiler::items::binary_operator::{operand_check, BuiltinInterface, EqualityOperator, OperandCheck};
use lotus_compiler::items::as_operation::{cast_plan, CastPlan};
use lotus_compiler::items::assignment::{assignment_plan, AssignmentPlan};
use lotus_compiler::items::assignment_operator::AssignmentOperatorValue;
use lotus_compiler::items::binary_operator::BinaryOperatorValue;
use lotus_compiler::items::block_expression::{block_compiles, block_item_plan};
use lotus_compiler::items::bracket_indexing::{bracket_interface, IndexInterface};
use lotus_compiler::items::event_callback_declaration::{
    event_callback_plan, BodyPlan, BodyState, DeclaredCallback, EventCallbackPlan, EventCallbackRejection, PriorityPlan,
    TargetFieldError,
};
use lotus_compiler::items::field_or_method_access::{
    argument_check, argument_count_error, call_plan, AccessKind, ArgumentCheck, CallKind, CallPlan,
};
use lotus_compiler::items::for_block::{for_plan, ForIndex, ForKind, ForPlan};
use lotus_compiler::items::function_content::signature_errors_with_callbacks;
use lotus_compiler::items::function_or_method_content::{method_shape, signature_errors, SignatureError};
use lotus_compiler::items::global_var_declaration::global_var_errors;
use lotus_compiler::items::if_block::{if_plan, if_type_step, missing_else, IfPlan, IfTypeStep, LaterBranch};
use lotus_compiler::items::match_block::{
    branch_type_step, match_branch_test, match_branch_types, match_subject_check, BranchTest, BranchTypeStep, MatchSubject, MatchSubjectCheck,
    TypeCategory,
};

#[test]
fn match_decisions() {
    let enum_subject = MatchSubject::Actual { category: TypeCategory::Enum, is_bool: false };
    assert_eq!(match_subject_check(enum_subject), MatchSubjectCheck::Branches(TypeCategory::Enum));
    assert_eq!(match_subject_check(MatchSubject::Actual { category: TypeCategory::Type, is_bool: false }), MatchSubjectCheck::ExpectedEnumOrClass);
    assert_eq!(match_subject_check(MatchSubject::Actual { category: TypeCategory::Type, is_bool: true }), MatchSubjectCheck::Branches(TypeCategory::Type));
    assert_eq!(match_subject_check(MatchSubject::NotActual), MatchSubjectCheck::ExpectedEnum);
    assert_eq!(match_subject_check(MatchSubject::Undefined), MatchSubjectCheck::Nothing);
    assert_eq!(match_branch_test(TypeCategory::Type, Some("false"), "none", false, None, false), BranchTest::IsFalse);
    assert_eq!(match_branch_test(TypeCategory::Type, Some("none"), "none", false, None, false), BranchTest::IsFalse);
    assert_eq!(match_branch_test(TypeCategory::Type, Some("true"), "none", false, None, false), BranchTest::IsTrue);
    assert_eq!(match_branch_test(TypeCategory::Type, Some("maybe"), "none", false, None, false), BranchTest::NoSuchVariant);
    assert_eq!(match_branch_test(TypeCategory::Type, None, "none", false, None, false), BranchTest::ExpectedVariantName);
    assert_eq!(match_branch_test(TypeCategory::Class, Some("none"), "none", false, Some(true), true), BranchTest::IsNone);
    assert_eq!(match_branch_test(TypeCategory::Class, Some("Dog"), "none", false, Some(true), true), BranchTest::IsInstance { binds_variable: true });
    assert_eq!(match_branch_test(TypeCategory::Class, None, "none", false, Some(false), false), BranchTest::NotAClass);
    assert_eq!(match_branch_test(TypeCategory::Class, None, "none", false, None, false), BranchTest::Nothing);
    assert_eq!(match_branch_test(TypeCategory::Enum, Some("Red"), "none", true, None, false), BranchTest::IsVariant);
    assert_eq!(match_branch_test(TypeCategory::Enum, Some("Pink"), "none", false, None, false), BranchTest::NoSuchVariant);
    assert_eq!(match_branch_test(TypeCategory::Enum, Some("none"), "none", false, None, false), BranchTest::IsNoneVariant);
    assert_eq!(branch_type_step(false, false), BranchTypeStep::First);
    assert_eq!(branch_type_step(true, true), BranchTypeStep::Common);
    assert_eq!(branch_type_step(true, false), BranchTypeStep::Mismatch);
}

#[test]
fn signature_decisions() {
    assert_eq!(signature_errors(false, true, true, true, false, false),
        vec![SignatureError::RegularStatic, SignatureError::RegularDynamic, SignatureError::RegularAutogen]);
    assert_eq!(signature_errors(true, true, true, true, true, true),
        vec![SignatureError::DynamicWithParameters, SignatureError::DynamicRawWasm]);
    assert!(signature_errors(true, false, false, false, true, true).is_empty());
    assert_eq!(signature_errors_with_callbacks(true, true, false, false, true, false, true, true, false),
        vec![SignatureError::UnexpectedSignature, SignatureError::EventCallbackStatic,
            SignatureError::EventCallbackParameters, SignatureError::UndefinedEventType]);
    assert_eq!(signature_errors_with_callbacks(false, false, false, false, false, false, true, false, true),
        vec![SignatureError::RegularEventCallback]);
    assert_eq!(signature_errors_with_callbacks(false, false, true, false, false, false, false, false, false),
        vec![SignatureError::RegularDynamic, SignatureError::MissingSignature]);
    let shape = method_shape(true, false, true);
    assert!(shape.has_dynamic_index && shape.takes_self);
    let shape = method_shape(false, false, true);
    assert!(!shape.has_dynamic_index && !shape.takes_self);
}

#[test]
fn for_decisions() {
    let plan = for_plan(false, true, Some(true), Some(false), true, false, Some(false));
    assert_eq!(plan, ForPlan { index: ForIndex::Fresh, kind: Some(ForKind::Range), start_not_int: false, end_not_int: true, body_not_void: true });
    let plan = for_plan(true, false, Some(false), None, true, true, Some(true));
    assert_eq!(plan, ForPlan { index: ForIndex::Named, kind: Some(ForKind::Iterable), start_not_int: false, end_not_int: false, body_not_void: false });
    let plan = for_plan(true, false, Some(true), None, true, false, Some(true));
    assert_eq!(plan.kind, None);
    let plan = for_plan(false, true, None, Some(true), true, true, Some(true));
    assert_eq!(plan, ForPlan { index: ForIndex::Fresh, kind: None, start_not_int: false, end_not_int: false, body_not_void: false });
}

#[test]
fn event_callback_decisions() {
    assert_eq!(event_callback_plan(false, true, true, None, BodyState::Compiled, None),
        EventCallbackPlan::Rejected(EventCallbackRejection::ExpectedIdentifier));
    assert_eq!(event_callback_plan(true, false, true, None, BodyState::Compiled, None),
        EventCallbackPlan::Rejected(EventCallbackRejection::UndefinedType));
    assert_eq!(event_callback_plan(true, true, false, None, BodyState::Compiled, None),
        EventCallbackPlan::Rejected(EventCallbackRejection::NotAnEvent));
    assert_eq!(event_callback_plan(true, true, true, Some(Some(false)), BodyState::Compiled, Some(Some(true))),
        EventCallbackPlan::Declared(DeclaredCallback { priority: PriorityPlan::Expression, priority_not_int: true,
            body: BodyPlan::Compiled { checks_target: true }, target_field_error: None }));
    assert_eq!(event_callback_plan(true, true, true, None, BodyState::Compiled, Some(None)),
        EventCallbackPlan::Declared(DeclaredCallback { priority: PriorityPlan::Default, priority_not_int: false,
            body: BodyPlan::Compiled { checks_target: false }, target_field_error: Some(TargetFieldError::NoField) }));
    assert_eq!(event_callback_plan(true, true, true, Some(None), BodyState::Missing, Some(Some(false))),
        EventCallbackPlan::Declared(DeclaredCallback { priority: PriorityPlan::Empty, priority_not_int: false,
            body: BodyPlan::Missing, target_field_error: None }));
}

#[test]
fn call_decisions() {
    assert_eq!(argument_count_error(2, 2), None);
    assert_eq!(argument_count_error(2, 1), Some("expected 2 arguments, got 1".to_string()));
    assert_eq!(argument_count_error(1, 3), Some("expected 1 argument, got 3".to_string()));
    assert_eq!(argument_count_error(0, 10), Some("expected 0 argument, got 10".to_string()));
    assert_eq!(call_plan(AccessKind::Assign, CallKind::Named), CallPlan::CannotSetResult);
    assert_eq!(call_plan(AccessKind::Get, CallKind::Named), CallPlan::Call { is_var_call: false });
    assert_eq!(call_plan(AccessKind::Get, CallKind::Anonymous { has_this_type: false }), CallPlan::Call { is_var_call: true });
    assert_eq!(call_plan(AccessKind::Get, CallKind::Anonymous { has_this_type: true }), CallPlan::Call { is_var_call: false });
    assert_eq!(argument_check(true, true, false), ArgumentCheck::Accepted);
    assert_eq!(argument_check(false, true, true), ArgumentCheck::CannotInferType);
    assert_eq!(argument_check(false, false, false), ArgumentCheck::TypeMismatch);
    assert_eq!(argument_check(false, false, true), ArgumentCheck::Accepted);
}

#[test]
fn block_if_assignment_array_decisions() {
    let first = block_item_plan(0, 3, false);
    assert!(!first.receives_hint && first.drops_value);
    let last = block_item_plan(2, 3, false);
    assert!(last.receives_hint && !last.drops_value);
    assert!(block_item_plan(2, 3, true).drops_value);
    assert!(block_compiles(0, false));
    assert!(!block_compiles(2, false));
    assert_eq!(if_type_step(LaterBranch::ElseIf, true), IfTypeStep::Common);
    assert_eq!(if_type_step(LaterBranch::Else, true), IfTypeStep::Keep);
    assert_eq!(if_type_step(LaterBranch::Else, false), IfTypeStep::Mismatch);
    assert!(missing_else(false, false));
    assert!(!missing_else(false, true));
    assert!(!missing_else(true, false));
    assert_eq!(assignment_plan(None, false), AssignmentPlan::Read);
    assert_eq!(assignment_plan(Some(AssignmentOperatorValue::Equal), true), AssignmentPlan::Store);
    assert_eq!(assignment_plan(Some(AssignmentOperatorValue::PlusEqual), true), AssignmentPlan::StoreCombined(BinaryOperatorValue::Plus));
    assert_eq!(assignment_plan(Some(AssignmentOperatorValue::PlusEqual), false), AssignmentPlan::TypeMismatch);
    assert_eq!(array_literal_items(false, &vec![Some(false), Some(true), None, Some(true)]), Some(3));
    assert_eq!(array_literal_items(true, &vec![Some(false), Some(true)]), None);
    assert_eq!(array_literal_items(false, &vec![]), Some(0));
    assert_eq!(bracket_interface(AccessKind::Get), IndexInterface::GetAtIndex);
    assert_eq!(bracket_interface(AccessKind::Assign), IndexInterface::SetAtIndex);
    let errors = global_var_errors(2, true);
    assert!(errors.tuple && errors.duplicate);
    let errors = global_var_errors(1, false);
    assert!(!errors.tuple && !errors.duplicate);
}

#[test]
fn cast_decisions() {
    assert_eq!(cast_plan(None), CastPlan::ExpectedType);
    assert_eq!(cast_plan(Some(false)), CastPlan::Nothing);
    assert_eq!(cast_plan(Some(true)), CastPlan::Cast);
}

#[test]
fn operand_checks() {
    use_operand_checks();
}

fn use_operand_checks() {
    assert_eq!(operand_check(BinaryOperatorValue::Eq, false, true, false), OperandCheck::Equality(EqualityOperator::Equal));
    assert_eq!(operand_check(BinaryOperatorValue::Ne, false, false, true), OperandCheck::TypeMismatch);
    assert_eq!(operand_check(BinaryOperatorValue::DoubleAnd, false, false, false), OperandCheck::RightType);
    assert_eq!(operand_check(BinaryOperatorValue::DoubleOr, true, true, true), OperandCheck::CommonType);
    assert_eq!(operand_check(BinaryOperatorValue::DoubleOr, true, true, false), OperandCheck::TypeMismatch);
    assert_eq!(operand_check(BinaryOperatorValue::Lt, false, false, false), OperandCheck::Interface(BuiltinInterface::Lt));
}

#[test]
fn branch_type_folds() {
    assert_eq!(match_branch_types(&vec![]), (false, 0));
    assert_eq!(match_branch_types(&vec![None, Some(false), Some(false), Some(true), None]), (true, 2));
    let plan = if_plan(true, &vec![Some(true), None, Some(false), Some(true)], Some(Some(false)));
    assert_eq!(plan, IfPlan { compiles: true, starts_from_if_branch: true, widened: 2, mismatches: 2 });
    let plan = if_plan(false, &vec![], None);
    assert_eq!(plan, IfPlan { compiles: true, starts_from_if_branch: false, widened: 0, mismatches: 0 });
}

#[test]
fn return_outcomes() {
    assert_eq!(return_outcome(ExpectedType::ReturnType, Some(true)), ReturnOutcome::ReturnValue);
    assert_eq!(return_outcome(ExpectedType::ReturnType, Some(false)), ReturnOutcome::TypeMismatch);
    assert_eq!(return_outcome(ExpectedType::Void, Some(true)), ReturnOutcome::ExpressionOnly);
    assert_eq!(return_outcome(ExpectedType::Void, None), ReturnOutcome::Nothing);
}
