use lotus_compiler::items::action::{Action, ActionPlan, ActionScope, ExpectedType};
use lotus_compiler::items::action_keyword::{ActionKeyword, ActionKeywordWrapper};
use lotus_compiler::items::argument_list::{ArgumentList, ArgumentListContent, OtherArgument};
use lotus_compiler::items::as_operation::AsKeyword;
use lotus_compiler::items::assignment_operator::{AssignmentOperator, AssignmentOperatorValue};
use lotus_compiler::items::binary_operator::{
    BinaryOperator, BinaryOperatorValue, BuiltinInterface, EqualityOperator, OperatorKind, SelectiveOperator, TypeHint,
};
use lotus_compiler::items::boolean_literal::BooleanLiteral;
use lotus_compiler::items::brackets::{ClosingAngleBracket, ClosingRoundBracket, OpeningCurlyBracket, OpeningRoundBracket};
use lotus_compiler::items::branch::{convert_to_bool, BoolConversion, ConditionType};
use lotus_compiler::items::char_literal::{escape_char, CharLiteral};
use lotus_compiler::items::event_callback_qualifier::{EventCallbackQualifier, EventCallbackQualifierKeyword};
use lotus_compiler::items::field_or_method_access::DotToken;
use lotus_compiler::items::flex_keyword::FlexKeyword;
use lotus_compiler::items::function_body::FunctionBody;
use lotus_compiler::items::identifier::Identifier;
use lotus_compiler::items::macro_expression::{MacroExpression, MacroExpressionValue};
use lotus_compiler::items::macro_identifier::MacroIdentifier;
use lotus_compiler::items::macro_type::{MacroType, MacroTypeValue};
use lotus_compiler::items::macros::{Macro, MacroError, MacroName, MacroScope, MacroTarget, MainType};
use lotus_compiler::items::method_meta_qualifier::MethodMetaQualifier;
use lotus_compiler::items::var_path_root::ParsedVarPathRoot;
use lotus_compiler::reader::{ItemLocation, Reader};

fn reader(text: &str) -> Reader<'_> {
    Reader::new(text, "main.lt".to_string(), Some("//"))
}

#[test]
fn reader_skips_blanks_and_comments() {
    let mut r = reader("  // note\n\t x");
    r.eat_spaces();
    assert_eq!(r.get_index(), 12);
    let mut r = Reader::new("  // note", "f".to_string(), None);
    r.eat_spaces();
    assert_eq!(r.get_index(), 2);
    let mut r = reader("// a\n// b\n");
    r.eat_spaces();
    assert!(r.is_finished());
}

#[test]
fn reader_tokens_respect_word_boundaries() {
    let mut r = reader("returned");
    assert!(!r.read_string("return"));
    assert_eq!(r.get_index(), 0);
    let mut r = reader("return;");
    assert!(r.read_string("return"));
    assert_eq!(r.get_index(), 6);
    let mut r = reader("<<=");
    assert!(r.read_string("<<"));
    assert!(!r.read_string(""));
}

#[test]
fn item_locations_leave_out_trailing_blanks() {
    let mut r = reader("(  \n x");
    let b = OpeningRoundBracket::parse_item(&mut r).unwrap();
    assert_eq!(b.value, "(");
    assert_eq!(b.location.file_path, "main.lt");
    assert_eq!((b.location.start, b.location.end), (0, 1));
    assert_eq!(r.get_index(), 5);
    assert!(ClosingRoundBracket::parse_item(&mut r).is_none());
    assert_eq!(r.get_index(), 5);
}

#[test]
fn brackets_and_keywords() {
    let mut r = reader("{>as x");
    assert!(OpeningCurlyBracket::parse_item(&mut r).is_some());
    assert!(ClosingAngleBracket::parse_item(&mut r).is_some());
    let k = AsKeyword::parse_item(&mut r).unwrap();
    assert_eq!(k.value, "as");
    assert_eq!((k.location.start, k.location.end), (2, 4));
    assert_eq!(r.get_index(), 5);
    let mut r = reader("ask");
    assert!(AsKeyword::parse_item(&mut r).is_none());
}

#[test]
fn keyword_enums_parse_in_declaration_order() {
    let mut r = reader("<<= 1");
    let op = AssignmentOperator::parse_item(&mut r).unwrap();
    assert_eq!(op.value, AssignmentOperatorValue::ShlEqual);
    let mut r = reader("<= 1");
    assert_eq!(BinaryOperator::parse_item(&mut r).unwrap().value, BinaryOperatorValue::Le);
    let mut r = reader("<< 1");
    assert_eq!(BinaryOperator::parse_item(&mut r).unwrap().value, BinaryOperatorValue::Shl);
    let mut r = reader("&& b");
    let op = BinaryOperator::parse_item(&mut r).unwrap();
    assert_eq!(op.value, BinaryOperatorValue::DoubleAnd);
    assert_eq!((op.location.start, op.location.end), (0, 2));
    assert_eq!(r.get_index(), 3);
    let mut r = reader("== b");
    assert_eq!(AssignmentOperator::parse_item(&mut r).unwrap().value, AssignmentOperatorValue::Equal);
    let mut r = reader("continue;");
    assert_eq!(ActionKeywordWrapper::parse_item(&mut r).unwrap().value, ActionKeyword::Continue);
    let mut r = reader("checked");
    assert!(ActionKeywordWrapper::parse_item(&mut r).is_none());
    let mut r = reader("autogen fn");
    assert_eq!(MethodMetaQualifier::parse_item(&mut r), Some(MethodMetaQualifier::Autogen));
    assert_eq!(r.get_index(), 8);
}

#[test]
fn keyword_texts() {
    assert_eq!(BinaryOperatorValue::Ne.as_str(), "!=");
    assert_eq!(AssignmentOperatorValue::DoubleOrEqual.as_str(), "||=");
    assert_eq!(ActionKeyword::Break.as_str(), "break");
    assert_eq!(MacroExpressionValue::FieldDefaultExpression.as_str(), "FIELD_DEFAULT_EXPRESSION");
}

#[test]
fn every_operator_text_parses_back() {
    let ops = [
        BinaryOperatorValue::Plus, BinaryOperatorValue::Minus, BinaryOperatorValue::Mult, BinaryOperatorValue::Div,
        BinaryOperatorValue::Mod, BinaryOperatorValue::Shl, BinaryOperatorValue::Shr, BinaryOperatorValue::Xor,
        BinaryOperatorValue::DoubleAnd, BinaryOperatorValue::DoubleOr, BinaryOperatorValue::SingleAnd,
        BinaryOperatorValue::SingleOr, BinaryOperatorValue::Eq, BinaryOperatorValue::Ne, BinaryOperatorValue::Ge,
        BinaryOperatorValue::Gt, BinaryOperatorValue::Le, BinaryOperatorValue::Lt,
    ];
    for op in ops {
        let text = op.as_str();
        let mut r = reader(text);
        assert_eq!(BinaryOperatorValue::parse_item(&mut r), Some(op));
        assert!(r.is_finished());
    }
}

#[test]
fn compound_assignments_apply_their_operator() {
    assert_eq!(AssignmentOperatorValue::Equal.associated_binary_operator(), None);
    assert_eq!(AssignmentOperatorValue::PlusEqual.associated_binary_operator(), Some(BinaryOperatorValue::Plus));
    assert_eq!(AssignmentOperatorValue::ShrEqual.associated_binary_operator(), Some(BinaryOperatorValue::Shr));
    assert_eq!(AssignmentOperatorValue::SingleOrEqual.associated_binary_operator(), Some(BinaryOperatorValue::SingleOr));
    let op = AssignmentOperatorValue::XorEqual;
    assert_eq!(format!("{}=", op.associated_binary_operator().unwrap().as_str()), op.as_str());
}

#[test]
fn binary_operator_properties() {
    let location = ItemLocation { file_path: "f".to_string(), start: 3, end: 5 };
    let op = BinaryOperator::new(BinaryOperatorValue::DoubleOr, &location);
    assert_eq!((op.location.start, op.location.end), (3, 5));
    assert!(op.is_selective_operator());
    assert_eq!(op.get_priority(), 9);
    assert_eq!(op.get_type_hint(), None);
    assert_eq!(op.operator_kind(), OperatorKind::Selective(SelectiveOperator::Or));
    let op = BinaryOperator::new(BinaryOperatorValue::Shl, &location);
    assert!(!op.is_selective_operator());
    assert_eq!(op.get_priority(), 3);
    assert_eq!(op.get_type_hint(), Some(TypeHint::IntType));
    assert_eq!(op.operator_kind(), OperatorKind::BuiltinInterface(BuiltinInterface::Shl));
    let op = BinaryOperator::new(BinaryOperatorValue::Ne, &location);
    assert_eq!(op.get_priority(), 7);
    assert_eq!(op.get_type_hint(), Some(TypeHint::LeftType));
    assert_eq!(op.operator_kind(), OperatorKind::Equality(EqualityOperator::NotEqual));
    assert_eq!(EqualityOperator::NotEqual.method_name(), "__ne");
    assert_eq!(EqualityOperator::Equal.method_name(), "__eq");
    assert_eq!(BinaryOperatorValue::default(), BinaryOperatorValue::Plus);
    assert_eq!(BinaryOperator::new(BinaryOperatorValue::Mod, &location).get_priority(), 1);
}

#[test]
fn identifiers() {
    let mut r = reader("_élan2 = 3");
    let id = Identifier::parse_item(&mut r).unwrap();
    assert_eq!(id.as_str(), "_élan2");
    assert_eq!((id.location.start, id.location.end), (0, 7));
    assert_eq!(r.get_index(), 8);
    assert!(id.is("_élan2"));
    assert!(!id.is("élan2"));
    let mut r = reader("2x");
    assert!(Identifier::parse_item(&mut r).is_none());
    assert_eq!(r.get_index(), 0);
    let plain = Identifier::unlocated("self");
    assert_eq!(plain.to_string(), "self");
    assert_eq!(plain.as_string(), "self");
    assert!(plain.location.is_empty());
    let located = Identifier::new("x", &ItemLocation { file_path: "a.lt".to_string(), start: 1, end: 2 });
    assert_eq!(located.location.file_path, "a.lt");
    assert!(!located.location.is_empty());
}

#[test]
fn unique_identifiers_count_up() {
    let mut counter = 0usize;
    let a = Identifier::unique("index", &mut counter);
    let b = Identifier::unique("index", &mut counter);
    assert_eq!(a.as_str(), "index_u1");
    assert_eq!(b.as_str(), "index_u2");
    let mut counter = 9usize;
    assert_eq!(Identifier::unique("t", &mut counter).as_str(), "t_u10");
    let mut counter = 1234567usize;
    assert_eq!(Identifier::unique("", &mut counter).as_str(), "_u1234568");
    assert_eq!(counter, 1234568);
}

#[test]
fn boolean_literals() {
    let mut r = reader("true && x");
    let b = BooleanLiteral::parse_item(&mut r).unwrap();
    assert_eq!(b.value, "true");
    assert_eq!(b.process(), 1);
    assert_eq!(r.get_index(), 5);
    let mut r = reader("false");
    assert_eq!(BooleanLiteral::parse_item(&mut r).unwrap().process(), 0);
    let mut r = reader("trueish");
    assert_eq!(BooleanLiteral::parse_item(&mut r).unwrap().value, "true");
    assert_eq!(r.get_index(), 4);
    let mut r = reader("True");
    assert!(BooleanLiteral::parse_item(&mut r).is_none());
}

#[test]
fn char_literals() {
    let mut r = reader("'a' + 1");
    let c = CharLiteral::parse_item(&mut r).unwrap();
    assert_eq!(c.value, "'a'");
    assert_eq!(c.process(), Some('a'));
    assert_eq!((c.location.start, c.location.end, r.get_index()), (0, 3, 4));
    let mut r = reader(r"'\'' x");
    let c = CharLiteral::parse_item(&mut r).unwrap();
    assert_eq!(c.value, r"'\''");
    assert_eq!(c.process(), Some('\''));
    let mut r = reader(r"'\n'");
    assert_eq!(CharLiteral::parse_item(&mut r).unwrap().process(), Some('\n'));
    let mut r = reader(r"'\q'");
    assert_eq!(CharLiteral::parse_item(&mut r).unwrap().process(), None);
    let mut r = reader("'ab'");
    assert_eq!(CharLiteral::parse_item(&mut r).unwrap().process(), None);
    let mut r = reader("''");
    assert_eq!(CharLiteral::parse_item(&mut r).unwrap().process(), None);
    let mut r = reader("'é'");
    assert_eq!(CharLiteral::parse_item(&mut r).unwrap().process(), Some('é'));
    let mut r = reader("'abc");
    assert!(CharLiteral::parse_item(&mut r).is_none());
    assert_eq!(r.get_index(), 0);
    let mut r = reader("'\\\n'");
    assert!(CharLiteral::parse_item(&mut r).is_none());
}

#[test]
fn escapes() {
    assert_eq!(escape_char('0', '\''), Some('\0'));
    assert_eq!(escape_char('\\', '\''), Some('\\'));
    assert_eq!(escape_char('t', '\''), Some('\t'));
    assert_eq!(escape_char('n', '"'), Some('\n'));
    assert_eq!(escape_char('"', '"'), Some('"'));
    assert_eq!(escape_char('"', '\''), None);
    assert_eq!(escape_char('r', '\''), None);
}

#[test]
fn flex_keywords() {
    let mut r = reader("fro x");
    let k = FlexKeyword::parse_item(&mut r).unwrap();
    assert_eq!(k.keyword, "fro");
    assert_eq!(r.get_index(), 3);
    assert_eq!(k.process("for"), None);
    let mut r = reader("for_each1");
    let k = FlexKeyword::parse_item(&mut r).unwrap();
    assert_eq!(k.keyword, "for_each");
    assert_eq!(k.process("for_each"), Some("for_each"));
    let mut r = reader("1for");
    assert!(FlexKeyword::parse_item(&mut r).is_none());
}

#[test]
fn dots_that_are_not_ranges() {
    let mut r = reader(". name");
    let d = DotToken::parse_item(&mut r).unwrap();
    assert_eq!(d.dot, ".");
    assert_eq!((d.location.start, d.location.end, r.get_index()), (0, 1, 2));
    let mut r = reader("..5");
    assert!(DotToken::parse_item(&mut r).is_none());
    assert_eq!(r.get_index(), 0);
    let mut r = reader(". .");
    assert!(DotToken::parse_item(&mut r).is_none());
    let mut r = reader(".");
    assert!(DotToken::parse_item(&mut r).is_none());
}

#[test]
fn event_callback_qualifiers() {
    let mut r = reader("$on_click");
    let q = EventCallbackQualifierKeyword::parse_item(&mut r).unwrap();
    assert_eq!(q.process(), EventCallbackQualifier::TargetSelf);
    let mut r = reader("@on_click");
    assert_eq!(EventCallbackQualifierKeyword::parse_item(&mut r).unwrap().process(), EventCallbackQualifier::Standard);
}

fn scope(in_type: bool, fields: bool, variants: bool, ancestors: bool) -> MacroScope {
    MacroScope { in_type, in_iter_fields: fields, in_iter_variants: variants, in_iter_ancestors: ancestors }
}

#[test]
fn macros_read_their_scope() {
    let mut r = reader("# FIELD_NAME;");
    let m = Macro::parse_item(&mut r).unwrap();
    assert_eq!(m.name.as_str(), "FIELD_NAME");
    assert_eq!((m.location.start, m.location.end), (0, 12));
    assert_eq!(m.to_enum(), Some(MacroName::FieldName));
    assert_eq!(m.check_macro_context(scope(true, true, false, false)), Ok(MacroName::FieldName));
    assert_eq!(m.check_macro_context(scope(true, false, true, true)), Err(MacroError::OutsideIterFields));
    assert_eq!(m.check_macro_context(scope(false, true, true, true)), Err(MacroError::OutsideMethod));
    let name = m.process_as_name(scope(true, true, false, false), "width").unwrap();
    assert_eq!(name.as_str(), "width");
    assert_eq!((name.location.start, name.location.end), (0, 12));
    assert!(m.process_as_name(scope(true, false, false, false), "width").is_none());
    assert_eq!(m.process_as_value(scope(true, true, false, false)), Some(MacroName::FieldName));
    assert_eq!(m.process_as_type(scope(true, true, false, false)), None);

    let mut r = reader("#FIELD_TYPE");
    let m = Macro::parse_item(&mut r).unwrap();
    assert_eq!(m.process_as_type(scope(true, true, false, false)), Some(MacroName::FieldType));
    assert_eq!(m.process_as_value(scope(true, true, false, false)), None);

    let mut r = reader("#NOPE");
    let m = Macro::parse_item(&mut r).unwrap();
    assert_eq!(m.check_macro_context(scope(true, true, true, true)), Err(MacroError::Unknown));
    let mut r = reader("#ANCESTOR_ID");
    let m = Macro::parse_item(&mut r).unwrap();
    assert_eq!(m.check_macro_context(scope(true, false, false, false)), Err(MacroError::OutsideIterAncestors));
    let mut r = reader("#VARIANT_VALUE");
    let m = Macro::parse_item(&mut r).unwrap();
    assert_eq!(m.check_macro_context(scope(true, false, false, false)), Err(MacroError::OutsideIterVariants));
    let mut r = reader("#TYPE_ID");
    let m = Macro::parse_item(&mut r).unwrap();
    assert_eq!(m.process_as_value(scope(true, false, false, false)), Some(MacroName::TypeId));
    let mut r = reader("# 1");
    assert!(Macro::parse_item(&mut r).is_none());
    assert_eq!(r.get_index(), 0);
}

#[test]
fn macro_targets() {
    let mut r = reader("#VARIANT_COUNT");
    let m = MacroExpression::parse_item(&mut r).unwrap();
    assert_eq!(m.value, MacroExpressionValue::VariantCount);
    assert_eq!(m.process(), MacroTarget::CurrentType);
    let mut r = reader("#ANCESTOR_NAME");
    assert_eq!(MacroExpression::parse_item(&mut r).unwrap().process(), MacroTarget::CurrentAncestor);
    let mut r = reader("#WINDOW_TYPE");
    let t = MacroType::parse_item(&mut r).unwrap();
    assert_eq!(t.value, MacroTypeValue::WindowType);
    assert_eq!(t.process(), MacroTarget::Main(MainType::Window));
    let mut r = reader("#FIELD_NAME");
    assert_eq!(MacroIdentifier::parse_item(&mut r).unwrap().process(), MacroTarget::CurrentField);
    let mut r = reader("#FIELD_NAME");
    assert!(MacroType::parse_item(&mut r).is_none());
}

fn keyword(value: ActionKeyword) -> ActionKeywordWrapper {
    ActionKeywordWrapper { location: ItemLocation::empty(), value }
}

#[test]
fn action_plans() {
    let in_void_function = ActionScope { function_returns_void: Some(true), loop_depth: None };
    let in_function = ActionScope { function_returns_void: Some(false), loop_depth: Some(2) };
    let outside = ActionScope { function_returns_void: None, loop_depth: None };
    let ret = Action { keyword: keyword(ActionKeyword::Return), expression: None::<u32> };
    assert_eq!(ret.process(in_void_function), ActionPlan::ReturnNothing);
    assert_eq!(ret.process(in_function), ActionPlan::MissingReturnValue);
    assert_eq!(ret.process(outside), ActionPlan::UnexpectedKeyword);
    let ret_value = Action { keyword: keyword(ActionKeyword::Return), expression: Some(1u32) };
    assert_eq!(ret_value.process(in_void_function), ActionPlan::ReturnExpression(ExpectedType::Void));
    assert_eq!(ret_value.process(in_function), ActionPlan::ReturnExpression(ExpectedType::ReturnType));
    let check = Action { keyword: keyword(ActionKeyword::Check), expression: Some(1u32) };
    assert_eq!(check.process(in_function), ActionPlan::CheckCondition);
    assert_eq!(check.process(outside), ActionPlan::Nothing);
    let bare_check = Action { keyword: keyword(ActionKeyword::Check), expression: None::<u32> };
    assert_eq!(bare_check.process(in_function), ActionPlan::ExpectedExpression);
    let brk = Action { keyword: keyword(ActionKeyword::Break), expression: None::<u32> };
    let cont = Action { keyword: keyword(ActionKeyword::Continue), expression: None::<u32> };
    assert_eq!(brk.process(in_function), ActionPlan::Jump(3));
    assert_eq!(cont.process(in_function), ActionPlan::Jump(2));
    assert_eq!(brk.process(in_void_function), ActionPlan::UnexpectedKeyword);
    let brk_value = Action { keyword: keyword(ActionKeyword::Break), expression: Some(0u32) };
    assert_eq!(brk_value.process(in_function), ActionPlan::UnexpectedExpression);
}

fn other(expression: Option<&'static str>) -> OtherArgument<&'static str> {
    OtherArgument { location: ItemLocation::empty(), expression }
}

fn brackets() -> (OpeningRoundBracket, ClosingRoundBracket) {
    let mut r = reader("()");
    (OpeningRoundBracket::parse_item(&mut r).unwrap(), ClosingRoundBracket::parse_item(&mut r).unwrap())
}

#[test]
fn argument_lists() {
    let (opening_bracket, closing_bracket) = brackets();
    let empty: ArgumentList<&'static str> = ArgumentList { location: ItemLocation::empty(), opening_bracket, content: None, closing_bracket };
    assert_eq!(empty.len(), 0);
    assert_eq!(empty.get(0), None);
    let (opening_bracket, closing_bracket) = brackets();
    let list = ArgumentList {
        location: ItemLocation::empty(),
        opening_bracket,
        content: Some(ArgumentListContent { first_argument: "a", other_arguments: vec![other(None), other(Some("c"))] }),
        closing_bracket,
    };
    assert_eq!(list.len(), 3);
    assert_eq!(list.get(0), Some(Some(&"a")));
    assert_eq!(list.get(1), Some(None));
    assert_eq!(list.get(2), Some(Some(&"c")));
    assert_eq!(list.get(3), None);
    let mut iter = list.iter();
    let mut seen = vec![];
    while let Some(argument) = iter.next() {
        seen.push(argument.copied());
    }
    assert_eq!(seen, vec![Some("a"), None, Some("c")]);
    assert_eq!(iter.index, 3);
    assert_eq!(list.iter().count(), list.len());
    let mut partly = list.iter();
    partly.next();
    assert_eq!(partly.count(), 2);
}

#[test]
fn function_bodies() {
    let wasm: FunctionBody<u8, u16> = FunctionBody::WebAssembly(1);
    let block: FunctionBody<u8, u16> = FunctionBody::Block(2);
    assert!(wasm.is_raw_wasm());
    assert!(!block.is_raw_wasm());
}

#[test]
fn conditions() {
    assert_eq!(convert_to_bool(ConditionType::Void), BoolConversion::UnexpectedVoid);
    assert_eq!(convert_to_bool(ConditionType::Bool), BoolConversion::AsIs);
    assert_eq!(convert_to_bool(ConditionType::Other), BoolConversion::IsNotNone);
    assert_eq!(convert_to_bool(ConditionType::Undefined), BoolConversion::Nothing);
}

#[test]
fn var_path_roots() {
    assert_eq!(ParsedVarPathRoot::Block.as_str(), "");
    assert!(ParsedVarPathRoot::VarRef.is_var_ref());
    assert!(!ParsedVarPathRoot::PrefixedVarRef.is_var_ref());
    assert_eq!(ParsedVarPathRoot::ArrayLiteral.access_error(true), Some("invalid assignment"));
    assert_eq!(ParsedVarPathRoot::ArrayLiteral.access_error(false), None);
    assert_eq!(ParsedVarPathRoot::VarRef.access_error(true), None);
}

#[test]
fn locations() {
    let location = ItemLocation { file_path: "a.lt".to_string(), start: 4, end: 9 };
    assert_eq!(location.length(), 5);
    let end = location.get_end();
    assert_eq!((end.start, end.end), (9, 9));
    assert_eq!(end.file_path, "a.lt");
    assert!(ItemLocation::empty().is_empty());
}

#[test]
fn skipping_twice_moves_nowhere() {
    let mut r = reader(" \t// a\n  // b\nx // c");
    r.eat_spaces();
    let once = r.get_index();
    r.eat_spaces();
    assert_eq!(r.get_index(), once);
    assert_eq!(once, 14);
}

#[test]
fn every_assignment_and_macro_text_parses_back() {
    let ops = [
        AssignmentOperatorValue::Equal, AssignmentOperatorValue::PlusEqual, AssignmentOperatorValue::MinusEqual,
        AssignmentOperatorValue::MultEqual, AssignmentOperatorValue::DivEqual, AssignmentOperatorValue::ModEqual,
        AssignmentOperatorValue::ShlEqual, AssignmentOperatorValue::ShrEqual, AssignmentOperatorValue::XorEqual,
        AssignmentOperatorValue::DoubleAndEqual, AssignmentOperatorValue::DoubleOrEqual,
        AssignmentOperatorValue::SingleAndEqual, AssignmentOperatorValue::SingleOrEqual,
    ];
    for op in ops {
        let mut r = reader(op.as_str());
        assert_eq!(AssignmentOperatorValue::parse_item(&mut r), Some(op));
    }
    let values = [
        MacroExpressionValue::TypeId, MacroExpressionValue::TypeName, MacroExpressionValue::TypeShortName,
        MacroExpressionValue::FieldCount, MacroExpressionValue::FieldName, MacroExpressionValue::FieldDefaultExpression,
        MacroExpressionValue::VariantCount, MacroExpressionValue::VariantName, MacroExpressionValue::VariantValue,
        MacroExpressionValue::AncestorId, MacroExpressionValue::AncestorName,
    ];
    for value in values {
        let mut r = reader(value.as_str());
        assert_eq!(MacroExpressionValue::parse_item(&mut r), Some(value));
    }
}

#[test]
fn identifiers_of_a_given_length() {
    let mut r = reader("abc def");
    assert_eq!(r.identifier_match(), 3);
    let id = Identifier::parse_matched(&mut r, 2).unwrap();
    assert_eq!(id.as_str(), "ab");
    assert_eq!((id.location.start, id.location.end), (0, 2));
    assert_eq!(r.get_index(), 2);
    assert!(Identifier::parse_matched(&mut r, 0).is_none());
    assert_eq!(r.get_index(), 2);
    let mut r = reader("é x");
    assert_eq!(r.read_matched(2), Some("é".to_string()));
    assert_eq!(r.get_index(), 2);
}


#[test]
fn failures_record_what_was_expected() {
    let mut r = reader("returnx");
    assert!(ActionKeywordWrapper::parse_item(&mut r).is_none());
    let (index, expected) = r.get_error();
    assert_eq!(index, 0);
    assert_eq!(expected, vec!["\"return\"", "\"check\"", "\"break\"", "\"continue\"", "ActionKeyword"]);
    let mut r = reader("# 7");
    assert!(MacroType::parse_item(&mut r).is_none());
    let (index, expected) = r.get_error();
    assert_eq!(index, 2);
    assert_eq!(expected, vec!["\"FIELD_TYPE\"", "\"WORLD_TYPE\"", "\"USER_TYPE\"", "\"WINDOW_TYPE\"", "\"LOCAL_DATA_TYPE\"", "MacroTypeValue"]);
    let mut r = reader("x");
    assert!(Macro::parse_item(&mut r).is_none());
    assert_eq!(r.get_error(), (0, vec!["\"#\"".to_string()]));
    let mut r = reader("# 1");
    assert!(Macro::parse_item(&mut r).is_none());
    assert_eq!(r.get_error(), (2, vec!["identifier".to_string()]));
    let mut r = reader(". .");
    assert!(DotToken::parse_item(&mut r).is_none());
    assert_eq!(r.get_error(), (2, vec!["/[^.]/".to_string()]));
    let mut r = reader("+ 1");
    assert!(BinaryOperator::parse_item(&mut r).is_some());
    assert_eq!(r.get_error(), (0, Vec::<String>::new()));
    let mut r = reader("x");
    assert!(BinaryOperator::parse_item(&mut r).is_none());
    assert_eq!(r.get_error(), (0, vec!["binary operator".to_string()]));
    let mut r = reader("check");
    assert!(ActionKeywordWrapper::parse_item(&mut r).is_some());
    assert_eq!(r.get_error(), (0, vec!["\"return\"".to_string()]));
}

#[test]
fn errors_keep_the_furthest_failure() {
    let mut r = reader("ab  \n  ?");
    r.set_expected_string("early");
    r.set_index(7);
    r.set_expected_string("x");
    r.set_expected_regex("y+");
    r.set_index(1);
    r.set_expected_string("z");
    r.set_expected_string("");
    assert_eq!(r.get_error(), (4, vec!["\"x\"".to_string(), "/y+/".to_string()]));
}

#[test]
fn text_tokens_need_not_be_ascii() {
    let mut r = reader("éa b");
    assert!(r.read_string("éa"));
    assert_eq!(r.get_index(), 3);
    let mut r = reader("éx");
    assert!(r.read_string("é"));
    assert_eq!(r.get_index(), 2);
    let mut r = reader("ax");
    assert!(!r.read_string("a"));
}
