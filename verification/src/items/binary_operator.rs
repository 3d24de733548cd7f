//! Binary operators: how they are read, how tightly they bind and how they
//! are compiled.
use vstd::prelude::*;
use vstd::utf8::{encode_utf8, is_ascii_chars};
use crate::reader;
use crate::reader::{ItemLocation, Reader};

verus! {

/// A binary operator at its place in the source.
pub struct BinaryOperator {
    pub location: ItemLocation,
    pub value: BinaryOperatorValue,
}

impl BinaryOperator {
    /// The parsed value, where the item's location ends and where the reader then stands.
    pub open spec fn spec_parse(bytes: Seq<u8>, pos: int, comment: Option<Seq<u8>>) -> Option<(BinaryOperatorValue, int, int)> {
        match BinaryOperatorValue::spec_parse(bytes, pos, comment) {
            Some((value, after)) => {
                let end = reader::eat_spaces_from(bytes, after, comment);
                Some((value, reader::backtrack_blanks(bytes, end), end))
            },
            None => None,
        }
    }

    pub fn parse_item(reader: &mut Reader) -> (result: Option<Self>)
        requires
            old(reader).wf(),
        ensures
            final(reader).wf(),
            final(reader).same_text(old(reader)),
            final(reader).error_state() == ({
                let errors = BinaryOperatorValue::spec_parse_errors(old(reader).bytes(), old(reader).pos(), old(reader).error_state());
                if BinaryOperatorValue::spec_parse(old(reader).bytes(), old(reader).pos(), old(reader).comment()) is Some {
                    errors
                } else {
                    reader::record_expected(errors, old(reader).pos(), "binary operator"@)
                }
            }),
            match Self::spec_parse(old(reader).bytes(), old(reader).pos(), old(reader).comment()) {
                Some((value, location_end, end)) => {
                    &&& result matches Some(item)
                    &&& item.value == value
                    &&& item.location.file_path@ == old(reader).path()
                    &&& item.location.start == old(reader).pos()
                    &&& item.location.end == location_end
                    &&& final(reader).pos() == end
                },
                None => result is None && final(reader).pos() == old(reader).pos(),
            },
    {
        let start = reader.get_index();
        match BinaryOperatorValue::parse_item(reader) {
            Some(value) => {
                reader.eat_spaces();
                let location = reader.get_item_location(start);
                Some(BinaryOperator { location, value })
            },
            None => {
                reader.set_expected_entity(String::from_str("binary operator"));
                reader.set_index(start);
                None
            },
        }
    }
}

/// The binary operators of the language.
#[derive(Clone, Copy, Debug, PartialEq, Eq, Structural)]
pub enum BinaryOperatorValue {
    Plus,
    Minus,
    Mult,
    Div,
    Mod,
    Shl,
    Shr,
    Xor,
    DoubleAnd,
    DoubleOr,
    SingleAnd,
    SingleOr,
    Eq,
    Ne,
    Ge,
    Gt,
    Le,
    Lt,
}

impl BinaryOperatorValue {
    /// The text of the keyword.
    pub open spec fn spec_text(self) -> Seq<char> {
        match self {
            BinaryOperatorValue::Plus => "+"@,
            BinaryOperatorValue::Minus => "-"@,
            BinaryOperatorValue::Mult => "*"@,
            BinaryOperatorValue::Div => "/"@,
            BinaryOperatorValue::Mod => "%"@,
            BinaryOperatorValue::Shl => "<<"@,
            BinaryOperatorValue::Shr => ">>"@,
            BinaryOperatorValue::Xor => "^"@,
            BinaryOperatorValue::DoubleAnd => "&&"@,
            BinaryOperatorValue::DoubleOr => "||"@,
            BinaryOperatorValue::SingleAnd => "&"@,
            BinaryOperatorValue::SingleOr => "|"@,
            BinaryOperatorValue::Eq => "=="@,
            BinaryOperatorValue::Ne => "!="@,
            BinaryOperatorValue::Ge => ">="@,
            BinaryOperatorValue::Gt => ">"@,
            BinaryOperatorValue::Le => "<="@,
            BinaryOperatorValue::Lt => "<"@,
        }
    }

    /// The keyword that the parser reads at `pos`, tried in declaration order,
    /// and where the reader then stands.
    pub open spec fn spec_parse(bytes: Seq<u8>, pos: int, comment: Option<Seq<u8>>) -> Option<(Self, int)> {
        if reader::token_at(bytes, pos, "+"@) {
            Some((BinaryOperatorValue::Plus, reader::after_token(bytes, pos, "+"@, comment)))
        } else if reader::token_at(bytes, pos, "-"@) {
            Some((BinaryOperatorValue::Minus, reader::after_token(bytes, pos, "-"@, comment)))
        } else if reader::token_at(bytes, pos, "*"@) {
            Some((BinaryOperatorValue::Mult, reader::after_token(bytes, pos, "*"@, comment)))
        } else if reader::token_at(bytes, pos, "/"@) {
            Some((BinaryOperatorValue::Div, reader::after_token(bytes, pos, "/"@, comment)))
        } else if reader::token_at(bytes, pos, "%"@) {
            Some((BinaryOperatorValue::Mod, reader::after_token(bytes, pos, "%"@, comment)))
        } else if reader::token_at(bytes, pos, "<<"@) {
            Some((BinaryOperatorValue::Shl, reader::after_token(bytes, pos, "<<"@, comment)))
        } else if reader::token_at(bytes, pos, ">>"@) {
            Some((BinaryOperatorValue::Shr, reader::after_token(bytes, pos, ">>"@, comment)))
        } else if reader::token_at(bytes, pos, "^"@) {
            Some((BinaryOperatorValue::Xor, reader::after_token(bytes, pos, "^"@, comment)))
        } else if reader::token_at(bytes, pos, "&&"@) {
            Some((BinaryOperatorValue::DoubleAnd, reader::after_token(bytes, pos, "&&"@, comment)))
        } else if reader::token_at(bytes, pos, "||"@) {
            Some((BinaryOperatorValue::DoubleOr, reader::after_token(bytes, pos, "||"@, comment)))
        } else if reader::token_at(bytes, pos, "&"@) {
            Some((BinaryOperatorValue::SingleAnd, reader::after_token(bytes, pos, "&"@, comment)))
        } else if reader::token_at(bytes, pos, "|"@) {
            Some((BinaryOperatorValue::SingleOr, reader::after_token(bytes, pos, "|"@, comment)))
        } else if reader::token_at(bytes, pos, "=="@) {
            Some((BinaryOperatorValue::Eq, reader::after_token(bytes, pos, "=="@, comment)))
        } else if reader::token_at(bytes, pos, "!="@) {
            Some((BinaryOperatorValue::Ne, reader::after_token(bytes, pos, "!="@, comment)))
        } else if reader::token_at(bytes, pos, ">="@) {
            Some((BinaryOperatorValue::Ge, reader::after_token(bytes, pos, ">="@, comment)))
        } else if reader::token_at(bytes, pos, ">"@) {
            Some((BinaryOperatorValue::Gt, reader::after_token(bytes, pos, ">"@, comment)))
        } else if reader::token_at(bytes, pos, "<="@) {
            Some((BinaryOperatorValue::Le, reader::after_token(bytes, pos, "<="@, comment)))
        } else if reader::token_at(bytes, pos, "<"@) {
            Some((BinaryOperatorValue::Lt, reader::after_token(bytes, pos, "<"@, comment)))
        } else {
            None
        }
    }

    pub fn as_str(&self) -> (result: &'static str)
        ensures
            result@ == self.spec_text(),
    {
        match self {
            BinaryOperatorValue::Plus => "+",
            BinaryOperatorValue::Minus => "-",
            BinaryOperatorValue::Mult => "*",
            BinaryOperatorValue::Div => "/",
            BinaryOperatorValue::Mod => "%",
            BinaryOperatorValue::Shl => "<<",
            BinaryOperatorValue::Shr => ">>",
            BinaryOperatorValue::Xor => "^",
            BinaryOperatorValue::DoubleAnd => "&&",
            BinaryOperatorValue::DoubleOr => "||",
            BinaryOperatorValue::SingleAnd => "&",
            BinaryOperatorValue::SingleOr => "|",
            BinaryOperatorValue::Eq => "==",
            BinaryOperatorValue::Ne => "!=",
            BinaryOperatorValue::Ge => ">=",
            BinaryOperatorValue::Gt => ">",
            BinaryOperatorValue::Le => "<=",
            BinaryOperatorValue::Lt => "<",
        }
    }

    /// What the parser records of the keywords that it tried and missed at
    /// The parser records nothing of the keywords that it misses: the item has a name.
    pub open spec fn spec_parse_errors(bytes: Seq<u8>, pos: int, state: reader::ErrorState) -> reader::ErrorState {
        state
    }

    pub fn parse_item(reader: &mut Reader) -> (result: Option<Self>)
        requires
            old(reader).wf(),
        ensures
            final(reader).wf(),
            final(reader).same_text(old(reader)),
            final(reader).error_state() == Self::spec_parse_errors(old(reader).bytes(), old(reader).pos(), old(reader).error_state()),
            match Self::spec_parse(old(reader).bytes(), old(reader).pos(), old(reader).comment()) {
                Some((value, end)) => result == Some(value) && final(reader).pos() == end,
                None => result is None && final(reader).pos() == old(reader).pos(),
            },
    {
        proof {
            reveal_strlit("+");
            reveal_strlit("-");
            reveal_strlit("*");
            reveal_strlit("/");
            reveal_strlit("%");
            reveal_strlit("<<");
            reveal_strlit(">>");
            reveal_strlit("^");
            reveal_strlit("&&");
            reveal_strlit("||");
            reveal_strlit("&");
            reveal_strlit("|");
            reveal_strlit("==");
            reveal_strlit("!=");
            reveal_strlit(">=");
            reveal_strlit(">");
            reveal_strlit("<=");
            reveal_strlit("<");
        }
        if reader.read_string("+") {
            reader.eat_spaces();
            return Some(BinaryOperatorValue::Plus);
        }
        if reader.read_string("-") {
            reader.eat_spaces();
            return Some(BinaryOperatorValue::Minus);
        }
        if reader.read_string("*") {
            reader.eat_spaces();
            return Some(BinaryOperatorValue::Mult);
        }
        if reader.read_string("/") {
            reader.eat_spaces();
            return Some(BinaryOperatorValue::Div);
        }
        if reader.read_string("%") {
            reader.eat_spaces();
            return Some(BinaryOperatorValue::Mod);
        }
        if reader.read_string("<<") {
            reader.eat_spaces();
            return Some(BinaryOperatorValue::Shl);
        }
        if reader.read_string(">>") {
            reader.eat_spaces();
            return Some(BinaryOperatorValue::Shr);
        }
        if reader.read_string("^") {
            reader.eat_spaces();
            return Some(BinaryOperatorValue::Xor);
        }
        if reader.read_string("&&") {
            reader.eat_spaces();
            return Some(BinaryOperatorValue::DoubleAnd);
        }
        if reader.read_string("||") {
            reader.eat_spaces();
            return Some(BinaryOperatorValue::DoubleOr);
        }
        if reader.read_string("&") {
            reader.eat_spaces();
            return Some(BinaryOperatorValue::SingleAnd);
        }
        if reader.read_string("|") {
            reader.eat_spaces();
            return Some(BinaryOperatorValue::SingleOr);
        }
        if reader.read_string("==") {
            reader.eat_spaces();
            return Some(BinaryOperatorValue::Eq);
        }
        if reader.read_string("!=") {
            reader.eat_spaces();
            return Some(BinaryOperatorValue::Ne);
        }
        if reader.read_string(">=") {
            reader.eat_spaces();
            return Some(BinaryOperatorValue::Ge);
        }
        if reader.read_string(">") {
            reader.eat_spaces();
            return Some(BinaryOperatorValue::Gt);
        }
        if reader.read_string("<=") {
            reader.eat_spaces();
            return Some(BinaryOperatorValue::Le);
        }
        if reader.read_string("<") {
            reader.eat_spaces();
            return Some(BinaryOperatorValue::Lt);
        }
        None
    }
}

/// The operations that a type offers through built-in interfaces.
#[derive(Clone, Copy, Debug, PartialEq, Eq, Structural)]
pub enum BuiltinInterface {
    Add,
    Sub,
    Mul,
    Div,
    Mod,
    Shl,
    Shr,
    Xor,
    And,
    Or,
    Ge,
    Gt,
    Le,
    Lt,
}

/// `==` and `!=`.
#[derive(Clone, Copy, Debug, PartialEq, Eq, Structural)]
pub enum EqualityOperator {
    Equal,
    NotEqual,
}

/// `&&` and `||`, which evaluate their right operand only when needed.
#[derive(Clone, Copy, Debug, PartialEq, Eq, Structural)]
pub enum SelectiveOperator {
    And,
    Or,
}

/// How an operator is compiled.
#[derive(Clone, Copy, Debug, PartialEq, Eq, Structural)]
pub enum OperatorKind {
    /// A call of the left operand's equality method.
    Equality(EqualityOperator),
    /// A branch on whether the left operand is none.
    Selective(SelectiveOperator),
    /// A call of the left operand's built-in interface.
    BuiltinInterface(BuiltinInterface),
}

/// The type that the right operand is expected to have.
#[derive(Clone, Copy, Debug, PartialEq, Eq, Structural)]
pub enum TypeHint {
    /// The type of the left operand.
    LeftType,
    /// The integer type.
    IntType,
}

impl EqualityOperator {
    /// The name of the method that compares the operands.
    pub fn method_name(&self) -> (result: &'static str)
        ensures
            result@ == match self {
                EqualityOperator::Equal => "__eq"@,
                EqualityOperator::NotEqual => "__ne"@,
            },
    {
        match self {
            EqualityOperator::Equal => "__eq",
            EqualityOperator::NotEqual => "__ne",
        }
    }
}

impl Default for BinaryOperatorValue {
    fn default() -> (result: Self)
        ensures
            result == BinaryOperatorValue::Plus,
    {
        BinaryOperatorValue::Plus
    }
}

/// How tightly an operator binds: the lower, the tighter.
pub open spec fn spec_priority(value: BinaryOperatorValue) -> nat {
    match value {
        BinaryOperatorValue::Mult | BinaryOperatorValue::Div | BinaryOperatorValue::Mod => 1,
        BinaryOperatorValue::Plus | BinaryOperatorValue::Minus => 2,
        BinaryOperatorValue::Shl | BinaryOperatorValue::Shr => 3,
        BinaryOperatorValue::SingleAnd => 4,
        BinaryOperatorValue::SingleOr => 5,
        BinaryOperatorValue::Xor => 6,
        BinaryOperatorValue::Eq | BinaryOperatorValue::Ne | BinaryOperatorValue::Ge | BinaryOperatorValue::Gt
        | BinaryOperatorValue::Le | BinaryOperatorValue::Lt => 7,
        BinaryOperatorValue::DoubleAnd => 8,
        BinaryOperatorValue::DoubleOr => 9,
    }
}

/// The type that the right operand of `value` is expected to have.
pub open spec fn spec_type_hint(value: BinaryOperatorValue) -> Option<TypeHint> {
    match value {
        BinaryOperatorValue::DoubleAnd | BinaryOperatorValue::DoubleOr => None,
        BinaryOperatorValue::Shl | BinaryOperatorValue::Shr => Some(TypeHint::IntType),
        _ => Some(TypeHint::LeftType),
    }
}

/// How an operator is compiled.
pub open spec fn spec_operator_kind(value: BinaryOperatorValue) -> OperatorKind {
    match value {
        BinaryOperatorValue::Plus => OperatorKind::BuiltinInterface(BuiltinInterface::Add),
        BinaryOperatorValue::Minus => OperatorKind::BuiltinInterface(BuiltinInterface::Sub),
        BinaryOperatorValue::Mult => OperatorKind::BuiltinInterface(BuiltinInterface::Mul),
        BinaryOperatorValue::Div => OperatorKind::BuiltinInterface(BuiltinInterface::Div),
        BinaryOperatorValue::Mod => OperatorKind::BuiltinInterface(BuiltinInterface::Mod),
        BinaryOperatorValue::Shl => OperatorKind::BuiltinInterface(BuiltinInterface::Shl),
        BinaryOperatorValue::Shr => OperatorKind::BuiltinInterface(BuiltinInterface::Shr),
        BinaryOperatorValue::Xor => OperatorKind::BuiltinInterface(BuiltinInterface::Xor),
        BinaryOperatorValue::DoubleAnd => OperatorKind::Selective(SelectiveOperator::And),
        BinaryOperatorValue::DoubleOr => OperatorKind::Selective(SelectiveOperator::Or),
        BinaryOperatorValue::SingleAnd => OperatorKind::BuiltinInterface(BuiltinInterface::And),
        BinaryOperatorValue::SingleOr => OperatorKind::BuiltinInterface(BuiltinInterface::Or),
        BinaryOperatorValue::Eq => OperatorKind::Equality(EqualityOperator::Equal),
        BinaryOperatorValue::Ne => OperatorKind::Equality(EqualityOperator::NotEqual),
        BinaryOperatorValue::Ge => OperatorKind::BuiltinInterface(BuiltinInterface::Ge),
        BinaryOperatorValue::Gt => OperatorKind::BuiltinInterface(BuiltinInterface::Gt),
        BinaryOperatorValue::Le => OperatorKind::BuiltinInterface(BuiltinInterface::Le),
        BinaryOperatorValue::Lt => OperatorKind::BuiltinInterface(BuiltinInterface::Lt),
    }
}

impl BinaryOperator {
    /// The operator `value`, written at `location`.
    pub fn new(value: BinaryOperatorValue, location: &ItemLocation) -> (result: Self)
        ensures
            result.value == value,
            result.location.file_path@ == location.file_path@,
            result.location.start == location.start,
            result.location.end == location.end,
    {
        let location = ItemLocation { file_path: location.file_path.clone(), start: location.start, end: location.end };
        BinaryOperator { location, value }
    }

    /// Whether the right operand is evaluated only when needed (`&&`, `||`).
    pub fn is_selective_operator(&self) -> (result: bool)
        ensures
            result == (self.value == BinaryOperatorValue::DoubleAnd || self.value == BinaryOperatorValue::DoubleOr),
    {
        match &self.value {
            BinaryOperatorValue::DoubleAnd | BinaryOperatorValue::DoubleOr => true,
            _ => false,
        }
    }

    /// How tightly the operator binds: the lower, the tighter.
    pub fn get_priority(&self) -> (result: usize)
        ensures
            result == spec_priority(self.value),
    {
        match &self.value {
            BinaryOperatorValue::Mult | BinaryOperatorValue::Div | BinaryOperatorValue::Mod => 1,
            BinaryOperatorValue::Plus | BinaryOperatorValue::Minus => 2,
            BinaryOperatorValue::Shl | BinaryOperatorValue::Shr => 3,
            BinaryOperatorValue::SingleAnd => 4,
            BinaryOperatorValue::SingleOr => 5,
            BinaryOperatorValue::Xor => 6,
            BinaryOperatorValue::Eq | BinaryOperatorValue::Ne | BinaryOperatorValue::Ge | BinaryOperatorValue::Gt
            | BinaryOperatorValue::Le | BinaryOperatorValue::Lt => 7,
            BinaryOperatorValue::DoubleAnd => 8,
            BinaryOperatorValue::DoubleOr => 9,
        }
    }

    /// The type that the right operand is expected to have: none for `&&` and
    /// `||`, the integer type for shifts, the left operand's type otherwise.
    pub fn get_type_hint(&self) -> (result: Option<TypeHint>)
        ensures
            result == spec_type_hint(self.value),
    {
        match &self.value {
            BinaryOperatorValue::Plus => Some(TypeHint::LeftType),
            BinaryOperatorValue::Minus => Some(TypeHint::LeftType),
            BinaryOperatorValue::Mult => Some(TypeHint::LeftType),
            BinaryOperatorValue::Div => Some(TypeHint::LeftType),
            BinaryOperatorValue::Mod => Some(TypeHint::LeftType),
            BinaryOperatorValue::Shl => Some(TypeHint::IntType),
            BinaryOperatorValue::Shr => Some(TypeHint::IntType),
            BinaryOperatorValue::Xor => Some(TypeHint::LeftType),
            BinaryOperatorValue::DoubleAnd => None,
            BinaryOperatorValue::DoubleOr => None,
            BinaryOperatorValue::SingleAnd => Some(TypeHint::LeftType),
            BinaryOperatorValue::SingleOr => Some(TypeHint::LeftType),
            BinaryOperatorValue::Eq => Some(TypeHint::LeftType),
            BinaryOperatorValue::Ne => Some(TypeHint::LeftType),
            BinaryOperatorValue::Ge => Some(TypeHint::LeftType),
            BinaryOperatorValue::Gt => Some(TypeHint::LeftType),
            BinaryOperatorValue::Le => Some(TypeHint::LeftType),
            BinaryOperatorValue::Lt => Some(TypeHint::LeftType),
        }
    }

    /// How the operator is compiled.
    pub fn operator_kind(&self) -> (result: OperatorKind)
        ensures
            result == spec_operator_kind(self.value),
    {
        match &self.value {
            BinaryOperatorValue::Plus => OperatorKind::BuiltinInterface(BuiltinInterface::Add),
            BinaryOperatorValue::Minus => OperatorKind::BuiltinInterface(BuiltinInterface::Sub),
            BinaryOperatorValue::Mult => OperatorKind::BuiltinInterface(BuiltinInterface::Mul),
            BinaryOperatorValue::Div => OperatorKind::BuiltinInterface(BuiltinInterface::Div),
            BinaryOperatorValue::Mod => OperatorKind::BuiltinInterface(BuiltinInterface::Mod),
            BinaryOperatorValue::Shl => OperatorKind::BuiltinInterface(BuiltinInterface::Shl),
            BinaryOperatorValue::Shr => OperatorKind::BuiltinInterface(BuiltinInterface::Shr),
            BinaryOperatorValue::Xor => OperatorKind::BuiltinInterface(BuiltinInterface::Xor),
            BinaryOperatorValue::DoubleAnd => OperatorKind::Selective(SelectiveOperator::And),
            BinaryOperatorValue::DoubleOr => OperatorKind::Selective(SelectiveOperator::Or),
            BinaryOperatorValue::SingleAnd => OperatorKind::BuiltinInterface(BuiltinInterface::And),
            BinaryOperatorValue::SingleOr => OperatorKind::BuiltinInterface(BuiltinInterface::Or),
            BinaryOperatorValue::Eq => OperatorKind::Equality(EqualityOperator::Equal),
            BinaryOperatorValue::Ne => OperatorKind::Equality(EqualityOperator::NotEqual),
            BinaryOperatorValue::Ge => OperatorKind::BuiltinInterface(BuiltinInterface::Ge),
            BinaryOperatorValue::Gt => OperatorKind::BuiltinInterface(BuiltinInterface::Gt),
            BinaryOperatorValue::Le => OperatorKind::BuiltinInterface(BuiltinInterface::Le),
            BinaryOperatorValue::Lt => OperatorKind::BuiltinInterface(BuiltinInterface::Lt),
        }
    }
}

/// The operators that evaluate their right operand only when needed are
/// exactly those compiled as selective operators, and no hint is given for
/// their right operand.
pub proof fn law_selective_operators(value: BinaryOperatorValue)
    ensures
        (value == BinaryOperatorValue::DoubleAnd || value == BinaryOperatorValue::DoubleOr)
            <==> spec_operator_kind(value) is Selective,
        spec_operator_kind(value) is Selective ==> spec_priority(value) >= 8,
{
}

/// Operator precedence, from the tightest to the loosest binding: `*`, `/`
/// and `%`; then `+` and `-`; `<<` and `>>`; `&`; `|`; `^`; the comparisons
/// `==`, `!=`, `>=`, `>`, `<=` and `<`; `&&`; and last `||`. Operators of one
/// group bind alike; the multiplicative ones have priority 1, and each group
/// has the priority of the one before it plus one, so that in `1 + 2 * 3` the
/// product is taken first.
pub proof fn law_precedence_order(a: BinaryOperatorValue, b: BinaryOperatorValue)
    ensures
        (a == BinaryOperatorValue::Mult || a == BinaryOperatorValue::Div || a == BinaryOperatorValue::Mod) && (b == BinaryOperatorValue::Mult || b == BinaryOperatorValue::Div || b == BinaryOperatorValue::Mod)
            ==> spec_priority(a) == spec_priority(b),
        (a == BinaryOperatorValue::Plus || a == BinaryOperatorValue::Minus) && (b == BinaryOperatorValue::Plus || b == BinaryOperatorValue::Minus)
            ==> spec_priority(a) == spec_priority(b),
        (a == BinaryOperatorValue::Shl || a == BinaryOperatorValue::Shr) && (b == BinaryOperatorValue::Shl || b == BinaryOperatorValue::Shr)
            ==> spec_priority(a) == spec_priority(b),
        (a == BinaryOperatorValue::Eq || a == BinaryOperatorValue::Ne || a == BinaryOperatorValue::Ge || a == BinaryOperatorValue::Gt || a == BinaryOperatorValue::Le || a == BinaryOperatorValue::Lt) && (b == BinaryOperatorValue::Eq || b == BinaryOperatorValue::Ne || b == BinaryOperatorValue::Ge || b == BinaryOperatorValue::Gt || b == BinaryOperatorValue::Le || b == BinaryOperatorValue::Lt)
            ==> spec_priority(a) == spec_priority(b),
        (a == BinaryOperatorValue::Mult || a == BinaryOperatorValue::Div || a == BinaryOperatorValue::Mod) && (b == BinaryOperatorValue::Plus || b == BinaryOperatorValue::Minus)
            ==> spec_priority(b) == spec_priority(a) + 1,
        (a == BinaryOperatorValue::Plus || a == BinaryOperatorValue::Minus) && (b == BinaryOperatorValue::Shl || b == BinaryOperatorValue::Shr)
            ==> spec_priority(b) == spec_priority(a) + 1,
        (a == BinaryOperatorValue::Shl || a == BinaryOperatorValue::Shr) && (b == BinaryOperatorValue::SingleAnd)
            ==> spec_priority(b) == spec_priority(a) + 1,
        (a == BinaryOperatorValue::SingleAnd) && (b == BinaryOperatorValue::SingleOr)
            ==> spec_priority(b) == spec_priority(a) + 1,
        (a == BinaryOperatorValue::SingleOr) && (b == BinaryOperatorValue::Xor)
            ==> spec_priority(b) == spec_priority(a) + 1,
        (a == BinaryOperatorValue::Xor) && (b == BinaryOperatorValue::Eq || b == BinaryOperatorValue::Ne || b == BinaryOperatorValue::Ge || b == BinaryOperatorValue::Gt || b == BinaryOperatorValue::Le || b == BinaryOperatorValue::Lt)
            ==> spec_priority(b) == spec_priority(a) + 1,
        (a == BinaryOperatorValue::Eq || a == BinaryOperatorValue::Ne || a == BinaryOperatorValue::Ge || a == BinaryOperatorValue::Gt || a == BinaryOperatorValue::Le || a == BinaryOperatorValue::Lt) && (b == BinaryOperatorValue::DoubleAnd)
            ==> spec_priority(b) == spec_priority(a) + 1,
        (a == BinaryOperatorValue::DoubleAnd) && (b == BinaryOperatorValue::DoubleOr)
            ==> spec_priority(b) == spec_priority(a) + 1,
        (a == BinaryOperatorValue::Mult || a == BinaryOperatorValue::Div || a == BinaryOperatorValue::Mod) ==> spec_priority(a) == 1,
{
}

/// Each value is read back from its own text.
pub proof fn law_text_parses_back(value: BinaryOperatorValue, comment: Option<Seq<u8>>)
    ensures
        BinaryOperatorValue::spec_parse(encode_utf8(value.spec_text()), 0, comment) matches Some((v, _)) && v == value,
{
    reveal_strlit("+");
    reveal_strlit("-");
    reveal_strlit("*");
    reveal_strlit("/");
    reveal_strlit("%");
    reveal_strlit("<<");
    reveal_strlit(">>");
    reveal_strlit("^");
    reveal_strlit("&&");
    reveal_strlit("||");
    reveal_strlit("&");
    reveal_strlit("|");
    reveal_strlit("==");
    reveal_strlit("!=");
    reveal_strlit(">=");
    reveal_strlit(">");
    reveal_strlit("<=");
    reveal_strlit("<");
    let text = value.spec_text();
    assert(is_ascii_chars(text));
    match value {
        BinaryOperatorValue::Plus => {
            assert(is_ascii_chars("+"@));
            reader::lemma_ascii_token_at_start(text, "+"@);
            assert(text.subrange(0, text.len() as int) =~= text);
        },
        BinaryOperatorValue::Minus => {
            assert(is_ascii_chars("+"@));
            reader::lemma_ascii_token_at_start(text, "+"@);
            assert(text.subrange(0, 1)[0] != "+"@[0]);
            assert(is_ascii_chars("-"@));
            reader::lemma_ascii_token_at_start(text, "-"@);
            assert(text.subrange(0, text.len() as int) =~= text);
        },
        BinaryOperatorValue::Mult => {
            assert(is_ascii_chars("+"@));
            reader::lemma_ascii_token_at_start(text, "+"@);
            assert(text.subrange(0, 1)[0] != "+"@[0]);
            assert(is_ascii_chars("-"@));
            reader::lemma_ascii_token_at_start(text, "-"@);
            assert(text.subrange(0, 1)[0] != "-"@[0]);
            assert(is_ascii_chars("*"@));
            reader::lemma_ascii_token_at_start(text, "*"@);
            assert(text.subrange(0, text.len() as int) =~= text);
        },
        BinaryOperatorValue::Div => {
            assert(is_ascii_chars("+"@));
            reader::lemma_ascii_token_at_start(text, "+"@);
            assert(text.subrange(0, 1)[0] != "+"@[0]);
            assert(is_ascii_chars("-"@));
            reader::lemma_ascii_token_at_start(text, "-"@);
            assert(text.subrange(0, 1)[0] != "-"@[0]);
            assert(is_ascii_chars("*"@));
            reader::lemma_ascii_token_at_start(text, "*"@);
            assert(text.subrange(0, 1)[0] != "*"@[0]);
            assert(is_ascii_chars("/"@));
            reader::lemma_ascii_token_at_start(text, "/"@);
            assert(text.subrange(0, text.len() as int) =~= text);
        },
        BinaryOperatorValue::Mod => {
            assert(is_ascii_chars("+"@));
            reader::lemma_ascii_token_at_start(text, "+"@);
            assert(text.subrange(0, 1)[0] != "+"@[0]);
            assert(is_ascii_chars("-"@));
            reader::lemma_ascii_token_at_start(text, "-"@);
            assert(text.subrange(0, 1)[0] != "-"@[0]);
            assert(is_ascii_chars("*"@));
            reader::lemma_ascii_token_at_start(text, "*"@);
            assert(text.subrange(0, 1)[0] != "*"@[0]);
            assert(is_ascii_chars("/"@));
            reader::lemma_ascii_token_at_start(text, "/"@);
            assert(text.subrange(0, 1)[0] != "/"@[0]);
            assert(is_ascii_chars("%"@));
            reader::lemma_ascii_token_at_start(text, "%"@);
            assert(text.subrange(0, text.len() as int) =~= text);
        },
        BinaryOperatorValue::Shl => {
            assert(is_ascii_chars("+"@));
            reader::lemma_ascii_token_at_start(text, "+"@);
            assert(text.subrange(0, 1)[0] != "+"@[0]);
            assert(is_ascii_chars("-"@));
            reader::lemma_ascii_token_at_start(text, "-"@);
            assert(text.subrange(0, 1)[0] != "-"@[0]);
            assert(is_ascii_chars("*"@));
            reader::lemma_ascii_token_at_start(text, "*"@);
            assert(text.subrange(0, 1)[0] != "*"@[0]);
            assert(is_ascii_chars("/"@));
            reader::lemma_ascii_token_at_start(text, "/"@);
            assert(text.subrange(0, 1)[0] != "/"@[0]);
            assert(is_ascii_chars("%"@));
            reader::lemma_ascii_token_at_start(text, "%"@);
            assert(text.subrange(0, 1)[0] != "%"@[0]);
            assert(is_ascii_chars("<<"@));
            reader::lemma_ascii_token_at_start(text, "<<"@);
            assert(text.subrange(0, text.len() as int) =~= text);
        },
        BinaryOperatorValue::Shr => {
            assert(is_ascii_chars("+"@));
            reader::lemma_ascii_token_at_start(text, "+"@);
            assert(text.subrange(0, 1)[0] != "+"@[0]);
            assert(is_ascii_chars("-"@));
            reader::lemma_ascii_token_at_start(text, "-"@);
            assert(text.subrange(0, 1)[0] != "-"@[0]);
            assert(is_ascii_chars("*"@));
            reader::lemma_ascii_token_at_start(text, "*"@);
            assert(text.subrange(0, 1)[0] != "*"@[0]);
            assert(is_ascii_chars("/"@));
            reader::lemma_ascii_token_at_start(text, "/"@);
            assert(text.subrange(0, 1)[0] != "/"@[0]);
            assert(is_ascii_chars("%"@));
            reader::lemma_ascii_token_at_start(text, "%"@);
            assert(text.subrange(0, 1)[0] != "%"@[0]);
            assert(is_ascii_chars("<<"@));
            reader::lemma_ascii_token_at_start(text, "<<"@);
            assert(text.subrange(0, 2)[0] != "<<"@[0]);
            assert(is_ascii_chars(">>"@));
            reader::lemma_ascii_token_at_start(text, ">>"@);
            assert(text.subrange(0, text.len() as int) =~= text);
        },
        BinaryOperatorValue::Xor => {
            assert(is_ascii_chars("+"@));
            reader::lemma_ascii_token_at_start(text, "+"@);
            assert(text.subrange(0, 1)[0] != "+"@[0]);
            assert(is_ascii_chars("-"@));
            reader::lemma_ascii_token_at_start(text, "-"@);
            assert(text.subrange(0, 1)[0] != "-"@[0]);
            assert(is_ascii_chars("*"@));
            reader::lemma_ascii_token_at_start(text, "*"@);
            assert(text.subrange(0, 1)[0] != "*"@[0]);
            assert(is_ascii_chars("/"@));
            reader::lemma_ascii_token_at_start(text, "/"@);
            assert(text.subrange(0, 1)[0] != "/"@[0]);
            assert(is_ascii_chars("%"@));
            reader::lemma_ascii_token_at_start(text, "%"@);
            assert(text.subrange(0, 1)[0] != "%"@[0]);
            assert(is_ascii_chars("<<"@));
            reader::lemma_ascii_token_at_start(text, "<<"@);
            assert(is_ascii_chars(">>"@));
            reader::lemma_ascii_token_at_start(text, ">>"@);
            assert(is_ascii_chars("^"@));
            reader::lemma_ascii_token_at_start(text, "^"@);
            assert(text.subrange(0, text.len() as int) =~= text);
        },
        BinaryOperatorValue::DoubleAnd => {
            assert(is_ascii_chars("+"@));
            reader::lemma_ascii_token_at_start(text, "+"@);
            assert(text.subrange(0, 1)[0] != "+"@[0]);
            assert(is_ascii_chars("-"@));
            reader::lemma_ascii_token_at_start(text, "-"@);
            assert(text.subrange(0, 1)[0] != "-"@[0]);
            assert(is_ascii_chars("*"@));
            reader::lemma_ascii_token_at_start(text, "*"@);
            assert(text.subrange(0, 1)[0] != "*"@[0]);
            assert(is_ascii_chars("/"@));
            reader::lemma_ascii_token_at_start(text, "/"@);
            assert(text.subrange(0, 1)[0] != "/"@[0]);
            assert(is_ascii_chars("%"@));
            reader::lemma_ascii_token_at_start(text, "%"@);
            assert(text.subrange(0, 1)[0] != "%"@[0]);
            assert(is_ascii_chars("<<"@));
            reader::lemma_ascii_token_at_start(text, "<<"@);
            assert(text.subrange(0, 2)[0] != "<<"@[0]);
            assert(is_ascii_chars(">>"@));
            reader::lemma_ascii_token_at_start(text, ">>"@);
            assert(text.subrange(0, 2)[0] != ">>"@[0]);
            assert(is_ascii_chars("^"@));
            reader::lemma_ascii_token_at_start(text, "^"@);
            assert(text.subrange(0, 1)[0] != "^"@[0]);
            assert(is_ascii_chars("&&"@));
            reader::lemma_ascii_token_at_start(text, "&&"@);
            assert(text.subrange(0, text.len() as int) =~= text);
        },
        BinaryOperatorValue::DoubleOr => {
            assert(is_ascii_chars("+"@));
            reader::lemma_ascii_token_at_start(text, "+"@);
            assert(text.subrange(0, 1)[0] != "+"@[0]);
            assert(is_ascii_chars("-"@));
            reader::lemma_ascii_token_at_start(text, "-"@);
            assert(text.subrange(0, 1)[0] != "-"@[0]);
            assert(is_ascii_chars("*"@));
            reader::lemma_ascii_token_at_start(text, "*"@);
            assert(text.subrange(0, 1)[0] != "*"@[0]);
            assert(is_ascii_chars("/"@));
            reader::lemma_ascii_token_at_start(text, "/"@);
            assert(text.subrange(0, 1)[0] != "/"@[0]);
            assert(is_ascii_chars("%"@));
            reader::lemma_ascii_token_at_start(text, "%"@);
            assert(text.subrange(0, 1)[0] != "%"@[0]);
            assert(is_ascii_chars("<<"@));
            reader::lemma_ascii_token_at_start(text, "<<"@);
            assert(text.subrange(0, 2)[0] != "<<"@[0]);
            assert(is_ascii_chars(">>"@));
            reader::lemma_ascii_token_at_start(text, ">>"@);
            assert(text.subrange(0, 2)[0] != ">>"@[0]);
            assert(is_ascii_chars("^"@));
            reader::lemma_ascii_token_at_start(text, "^"@);
            assert(text.subrange(0, 1)[0] != "^"@[0]);
            assert(is_ascii_chars("&&"@));
            reader::lemma_ascii_token_at_start(text, "&&"@);
            assert(text.subrange(0, 2)[0] != "&&"@[0]);
            assert(is_ascii_chars("||"@));
            reader::lemma_ascii_token_at_start(text, "||"@);
            assert(text.subrange(0, text.len() as int) =~= text);
        },
        BinaryOperatorValue::SingleAnd => {
            assert(is_ascii_chars("+"@));
            reader::lemma_ascii_token_at_start(text, "+"@);
            assert(text.subrange(0, 1)[0] != "+"@[0]);
            assert(is_ascii_chars("-"@));
            reader::lemma_ascii_token_at_start(text, "-"@);
            assert(text.subrange(0, 1)[0] != "-"@[0]);
            assert(is_ascii_chars("*"@));
            reader::lemma_ascii_token_at_start(text, "*"@);
            assert(text.subrange(0, 1)[0] != "*"@[0]);
            assert(is_ascii_chars("/"@));
            reader::lemma_ascii_token_at_start(text, "/"@);
            assert(text.subrange(0, 1)[0] != "/"@[0]);
            assert(is_ascii_chars("%"@));
            reader::lemma_ascii_token_at_start(text, "%"@);
            assert(text.subrange(0, 1)[0] != "%"@[0]);
            assert(is_ascii_chars("<<"@));
            reader::lemma_ascii_token_at_start(text, "<<"@);
            assert(is_ascii_chars(">>"@));
            reader::lemma_ascii_token_at_start(text, ">>"@);
            assert(is_ascii_chars("^"@));
            reader::lemma_ascii_token_at_start(text, "^"@);
            assert(text.subrange(0, 1)[0] != "^"@[0]);
            assert(is_ascii_chars("&&"@));
            reader::lemma_ascii_token_at_start(text, "&&"@);
            assert(is_ascii_chars("||"@));
            reader::lemma_ascii_token_at_start(text, "||"@);
            assert(is_ascii_chars("&"@));
            reader::lemma_ascii_token_at_start(text, "&"@);
            assert(text.subrange(0, text.len() as int) =~= text);
        },
        BinaryOperatorValue::SingleOr => {
            assert(is_ascii_chars("+"@));
            reader::lemma_ascii_token_at_start(text, "+"@);
            assert(text.subrange(0, 1)[0] != "+"@[0]);
            assert(is_ascii_chars("-"@));
            reader::lemma_ascii_token_at_start(text, "-"@);
            assert(text.subrange(0, 1)[0] != "-"@[0]);
            assert(is_ascii_chars("*"@));
            reader::lemma_ascii_token_at_start(text, "*"@);
            assert(text.subrange(0, 1)[0] != "*"@[0]);
            assert(is_ascii_chars("/"@));
            reader::lemma_ascii_token_at_start(text, "/"@);
            assert(text.subrange(0, 1)[0] != "/"@[0]);
            assert(is_ascii_chars("%"@));
            reader::lemma_ascii_token_at_start(text, "%"@);
            assert(text.subrange(0, 1)[0] != "%"@[0]);
            assert(is_ascii_chars("<<"@));
            reader::lemma_ascii_token_at_start(text, "<<"@);
            assert(is_ascii_chars(">>"@));
            reader::lemma_ascii_token_at_start(text, ">>"@);
            assert(is_ascii_chars("^"@));
            reader::lemma_ascii_token_at_start(text, "^"@);
            assert(text.subrange(0, 1)[0] != "^"@[0]);
            assert(is_ascii_chars("&&"@));
            reader::lemma_ascii_token_at_start(text, "&&"@);
            assert(is_ascii_chars("||"@));
            reader::lemma_ascii_token_at_start(text, "||"@);
            assert(is_ascii_chars("&"@));
            reader::lemma_ascii_token_at_start(text, "&"@);
            assert(text.subrange(0, 1)[0] != "&"@[0]);
            assert(is_ascii_chars("|"@));
            reader::lemma_ascii_token_at_start(text, "|"@);
            assert(text.subrange(0, text.len() as int) =~= text);
        },
        BinaryOperatorValue::Eq => {
            assert(is_ascii_chars("+"@));
            reader::lemma_ascii_token_at_start(text, "+"@);
            assert(text.subrange(0, 1)[0] != "+"@[0]);
            assert(is_ascii_chars("-"@));
            reader::lemma_ascii_token_at_start(text, "-"@);
            assert(text.subrange(0, 1)[0] != "-"@[0]);
            assert(is_ascii_chars("*"@));
            reader::lemma_ascii_token_at_start(text, "*"@);
            assert(text.subrange(0, 1)[0] != "*"@[0]);
            assert(is_ascii_chars("/"@));
            reader::lemma_ascii_token_at_start(text, "/"@);
            assert(text.subrange(0, 1)[0] != "/"@[0]);
            assert(is_ascii_chars("%"@));
            reader::lemma_ascii_token_at_start(text, "%"@);
            assert(text.subrange(0, 1)[0] != "%"@[0]);
            assert(is_ascii_chars("<<"@));
            reader::lemma_ascii_token_at_start(text, "<<"@);
            assert(text.subrange(0, 2)[0] != "<<"@[0]);
            assert(is_ascii_chars(">>"@));
            reader::lemma_ascii_token_at_start(text, ">>"@);
            assert(text.subrange(0, 2)[0] != ">>"@[0]);
            assert(is_ascii_chars("^"@));
            reader::lemma_ascii_token_at_start(text, "^"@);
            assert(text.subrange(0, 1)[0] != "^"@[0]);
            assert(is_ascii_chars("&&"@));
            reader::lemma_ascii_token_at_start(text, "&&"@);
            assert(text.subrange(0, 2)[0] != "&&"@[0]);
            assert(is_ascii_chars("||"@));
            reader::lemma_ascii_token_at_start(text, "||"@);
            assert(text.subrange(0, 2)[0] != "||"@[0]);
            assert(is_ascii_chars("&"@));
            reader::lemma_ascii_token_at_start(text, "&"@);
            assert(text.subrange(0, 1)[0] != "&"@[0]);
            assert(is_ascii_chars("|"@));
            reader::lemma_ascii_token_at_start(text, "|"@);
            assert(text.subrange(0, 1)[0] != "|"@[0]);
            assert(is_ascii_chars("=="@));
            reader::lemma_ascii_token_at_start(text, "=="@);
            assert(text.subrange(0, text.len() as int) =~= text);
        },
        BinaryOperatorValue::Ne => {
            assert(is_ascii_chars("+"@));
            reader::lemma_ascii_token_at_start(text, "+"@);
            assert(text.subrange(0, 1)[0] != "+"@[0]);
            assert(is_ascii_chars("-"@));
            reader::lemma_ascii_token_at_start(text, "-"@);
            assert(text.subrange(0, 1)[0] != "-"@[0]);
            assert(is_ascii_chars("*"@));
            reader::lemma_ascii_token_at_start(text, "*"@);
            assert(text.subrange(0, 1)[0] != "*"@[0]);
            assert(is_ascii_chars("/"@));
            reader::lemma_ascii_token_at_start(text, "/"@);
            assert(text.subrange(0, 1)[0] != "/"@[0]);
            assert(is_ascii_chars("%"@));
            reader::lemma_ascii_token_at_start(text, "%"@);
            assert(text.subrange(0, 1)[0] != "%"@[0]);
            assert(is_ascii_chars("<<"@));
            reader::lemma_ascii_token_at_start(text, "<<"@);
            assert(text.subrange(0, 2)[0] != "<<"@[0]);
            assert(is_ascii_chars(">>"@));
            reader::lemma_ascii_token_at_start(text, ">>"@);
            assert(text.subrange(0, 2)[0] != ">>"@[0]);
            assert(is_ascii_chars("^"@));
            reader::lemma_ascii_token_at_start(text, "^"@);
            assert(text.subrange(0, 1)[0] != "^"@[0]);
            assert(is_ascii_chars("&&"@));
            reader::lemma_ascii_token_at_start(text, "&&"@);
            assert(text.subrange(0, 2)[0] != "&&"@[0]);
            assert(is_ascii_chars("||"@));
            reader::lemma_ascii_token_at_start(text, "||"@);
            assert(text.subrange(0, 2)[0] != "||"@[0]);
            assert(is_ascii_chars("&"@));
            reader::lemma_ascii_token_at_start(text, "&"@);
            assert(text.subrange(0, 1)[0] != "&"@[0]);
            assert(is_ascii_chars("|"@));
            reader::lemma_ascii_token_at_start(text, "|"@);
            assert(text.subrange(0, 1)[0] != "|"@[0]);
            assert(is_ascii_chars("=="@));
            reader::lemma_ascii_token_at_start(text, "=="@);
            assert(text.subrange(0, 2)[0] != "=="@[0]);
            assert(is_ascii_chars("!="@));
            reader::lemma_ascii_token_at_start(text, "!="@);
            assert(text.subrange(0, text.len() as int) =~= text);
        },
        BinaryOperatorValue::Ge => {
            assert(is_ascii_chars("+"@));
            reader::lemma_ascii_token_at_start(text, "+"@);
            assert(text.subrange(0, 1)[0] != "+"@[0]);
            assert(is_ascii_chars("-"@));
            reader::lemma_ascii_token_at_start(text, "-"@);
            assert(text.subrange(0, 1)[0] != "-"@[0]);
            assert(is_ascii_chars("*"@));
            reader::lemma_ascii_token_at_start(text, "*"@);
            assert(text.subrange(0, 1)[0] != "*"@[0]);
            assert(is_ascii_chars("/"@));
            reader::lemma_ascii_token_at_start(text, "/"@);
            assert(text.subrange(0, 1)[0] != "/"@[0]);
            assert(is_ascii_chars("%"@));
            reader::lemma_ascii_token_at_start(text, "%"@);
            assert(text.subrange(0, 1)[0] != "%"@[0]);
            assert(is_ascii_chars("<<"@));
            reader::lemma_ascii_token_at_start(text, "<<"@);
            assert(text.subrange(0, 2)[0] != "<<"@[0]);
            assert(is_ascii_chars(">>"@));
            reader::lemma_ascii_token_at_start(text, ">>"@);
            assert(text.subrange(0, 2)[1] != ">>"@[1]);
            assert(is_ascii_chars("^"@));
            reader::lemma_ascii_token_at_start(text, "^"@);
            assert(text.subrange(0, 1)[0] != "^"@[0]);
            assert(is_ascii_chars("&&"@));
            reader::lemma_ascii_token_at_start(text, "&&"@);
            assert(text.subrange(0, 2)[0] != "&&"@[0]);
            assert(is_ascii_chars("||"@));
            reader::lemma_ascii_token_at_start(text, "||"@);
            assert(text.subrange(0, 2)[0] != "||"@[0]);
            assert(is_ascii_chars("&"@));
            reader::lemma_ascii_token_at_start(text, "&"@);
            assert(text.subrange(0, 1)[0] != "&"@[0]);
            assert(is_ascii_chars("|"@));
            reader::lemma_ascii_token_at_start(text, "|"@);
            assert(text.subrange(0, 1)[0] != "|"@[0]);
            assert(is_ascii_chars("=="@));
            reader::lemma_ascii_token_at_start(text, "=="@);
            assert(text.subrange(0, 2)[0] != "=="@[0]);
            assert(is_ascii_chars("!="@));
            reader::lemma_ascii_token_at_start(text, "!="@);
            assert(text.subrange(0, 2)[0] != "!="@[0]);
            assert(is_ascii_chars(">="@));
            reader::lemma_ascii_token_at_start(text, ">="@);
            assert(text.subrange(0, text.len() as int) =~= text);
        },
        BinaryOperatorValue::Gt => {
            assert(is_ascii_chars("+"@));
            reader::lemma_ascii_token_at_start(text, "+"@);
            assert(text.subrange(0, 1)[0] != "+"@[0]);
            assert(is_ascii_chars("-"@));
            reader::lemma_ascii_token_at_start(text, "-"@);
            assert(text.subrange(0, 1)[0] != "-"@[0]);
            assert(is_ascii_chars("*"@));
            reader::lemma_ascii_token_at_start(text, "*"@);
            assert(text.subrange(0, 1)[0] != "*"@[0]);
            assert(is_ascii_chars("/"@));
            reader::lemma_ascii_token_at_start(text, "/"@);
            assert(text.subrange(0, 1)[0] != "/"@[0]);
            assert(is_ascii_chars("%"@));
            reader::lemma_ascii_token_at_start(text, "%"@);
            assert(text.subrange(0, 1)[0] != "%"@[0]);
            assert(is_ascii_chars("<<"@));
            reader::lemma_ascii_token_at_start(text, "<<"@);
            assert(is_ascii_chars(">>"@));
            reader::lemma_ascii_token_at_start(text, ">>"@);
            assert(is_ascii_chars("^"@));
            reader::lemma_ascii_token_at_start(text, "^"@);
            assert(text.subrange(0, 1)[0] != "^"@[0]);
            assert(is_ascii_chars("&&"@));
            reader::lemma_ascii_token_at_start(text, "&&"@);
            assert(is_ascii_chars("||"@));
            reader::lemma_ascii_token_at_start(text, "||"@);
            assert(is_ascii_chars("&"@));
            reader::lemma_ascii_token_at_start(text, "&"@);
            assert(text.subrange(0, 1)[0] != "&"@[0]);
            assert(is_ascii_chars("|"@));
            reader::lemma_ascii_token_at_start(text, "|"@);
            assert(text.subrange(0, 1)[0] != "|"@[0]);
            assert(is_ascii_chars("=="@));
            reader::lemma_ascii_token_at_start(text, "=="@);
            assert(is_ascii_chars("!="@));
            reader::lemma_ascii_token_at_start(text, "!="@);
            assert(is_ascii_chars(">="@));
            reader::lemma_ascii_token_at_start(text, ">="@);
            assert(is_ascii_chars(">"@));
            reader::lemma_ascii_token_at_start(text, ">"@);
            assert(text.subrange(0, text.len() as int) =~= text);
        },
        BinaryOperatorValue::Le => {
            assert(is_ascii_chars("+"@));
            reader::lemma_ascii_token_at_start(text, "+"@);
            assert(text.subrange(0, 1)[0] != "+"@[0]);
            assert(is_ascii_chars("-"@));
            reader::lemma_ascii_token_at_start(text, "-"@);
            assert(text.subrange(0, 1)[0] != "-"@[0]);
            assert(is_ascii_chars("*"@));
            reader::lemma_ascii_token_at_start(text, "*"@);
            assert(text.subrange(0, 1)[0] != "*"@[0]);
            assert(is_ascii_chars("/"@));
            reader::lemma_ascii_token_at_start(text, "/"@);
            assert(text.subrange(0, 1)[0] != "/"@[0]);
            assert(is_ascii_chars("%"@));
            reader::lemma_ascii_token_at_start(text, "%"@);
            assert(text.subrange(0, 1)[0] != "%"@[0]);
            assert(is_ascii_chars("<<"@));
            reader::lemma_ascii_token_at_start(text, "<<"@);
            assert(text.subrange(0, 2)[1] != "<<"@[1]);
            assert(is_ascii_chars(">>"@));
            reader::lemma_ascii_token_at_start(text, ">>"@);
            assert(text.subrange(0, 2)[0] != ">>"@[0]);
            assert(is_ascii_chars("^"@));
            reader::lemma_ascii_token_at_start(text, "^"@);
            assert(text.subrange(0, 1)[0] != "^"@[0]);
            assert(is_ascii_chars("&&"@));
            reader::lemma_ascii_token_at_start(text, "&&"@);
            assert(text.subrange(0, 2)[0] != "&&"@[0]);
            assert(is_ascii_chars("||"@));
            reader::lemma_ascii_token_at_start(text, "||"@);
            assert(text.subrange(0, 2)[0] != "||"@[0]);
            assert(is_ascii_chars("&"@));
            reader::lemma_ascii_token_at_start(text, "&"@);
            assert(text.subrange(0, 1)[0] != "&"@[0]);
            assert(is_ascii_chars("|"@));
            reader::lemma_ascii_token_at_start(text, "|"@);
            assert(text.subrange(0, 1)[0] != "|"@[0]);
            assert(is_ascii_chars("=="@));
            reader::lemma_ascii_token_at_start(text, "=="@);
            assert(text.subrange(0, 2)[0] != "=="@[0]);
            assert(is_ascii_chars("!="@));
            reader::lemma_ascii_token_at_start(text, "!="@);
            assert(text.subrange(0, 2)[0] != "!="@[0]);
            assert(is_ascii_chars(">="@));
            reader::lemma_ascii_token_at_start(text, ">="@);
            assert(text.subrange(0, 2)[0] != ">="@[0]);
            assert(is_ascii_chars(">"@));
            reader::lemma_ascii_token_at_start(text, ">"@);
            assert(text.subrange(0, 1)[0] != ">"@[0]);
            assert(is_ascii_chars("<="@));
            reader::lemma_ascii_token_at_start(text, "<="@);
            assert(text.subrange(0, text.len() as int) =~= text);
        },
        BinaryOperatorValue::Lt => {
            assert(is_ascii_chars("+"@));
            reader::lemma_ascii_token_at_start(text, "+"@);
            assert(text.subrange(0, 1)[0] != "+"@[0]);
            assert(is_ascii_chars("-"@));
            reader::lemma_ascii_token_at_start(text, "-"@);
            assert(text.subrange(0, 1)[0] != "-"@[0]);
            assert(is_ascii_chars("*"@));
            reader::lemma_ascii_token_at_start(text, "*"@);
            assert(text.subrange(0, 1)[0] != "*"@[0]);
            assert(is_ascii_chars("/"@));
            reader::lemma_ascii_token_at_start(text, "/"@);
            assert(text.subrange(0, 1)[0] != "/"@[0]);
            assert(is_ascii_chars("%"@));
            reader::lemma_ascii_token_at_start(text, "%"@);
            assert(text.subrange(0, 1)[0] != "%"@[0]);
            assert(is_ascii_chars("<<"@));
            reader::lemma_ascii_token_at_start(text, "<<"@);
            assert(is_ascii_chars(">>"@));
            reader::lemma_ascii_token_at_start(text, ">>"@);
            assert(is_ascii_chars("^"@));
            reader::lemma_ascii_token_at_start(text, "^"@);
            assert(text.subrange(0, 1)[0] != "^"@[0]);
            assert(is_ascii_chars("&&"@));
            reader::lemma_ascii_token_at_start(text, "&&"@);
            assert(is_ascii_chars("||"@));
            reader::lemma_ascii_token_at_start(text, "||"@);
            assert(is_ascii_chars("&"@));
            reader::lemma_ascii_token_at_start(text, "&"@);
            assert(text.subrange(0, 1)[0] != "&"@[0]);
            assert(is_ascii_chars("|"@));
            reader::lemma_ascii_token_at_start(text, "|"@);
            assert(text.subrange(0, 1)[0] != "|"@[0]);
            assert(is_ascii_chars("=="@));
            reader::lemma_ascii_token_at_start(text, "=="@);
            assert(is_ascii_chars("!="@));
            reader::lemma_ascii_token_at_start(text, "!="@);
            assert(is_ascii_chars(">="@));
            reader::lemma_ascii_token_at_start(text, ">="@);
            assert(is_ascii_chars(">"@));
            reader::lemma_ascii_token_at_start(text, ">"@);
            assert(text.subrange(0, 1)[0] != ">"@[0]);
            assert(is_ascii_chars("<="@));
            reader::lemma_ascii_token_at_start(text, "<="@);
            assert(is_ascii_chars("<"@));
            reader::lemma_ascii_token_at_start(text, "<"@);
            assert(text.subrange(0, text.len() as int) =~= text);
        },
    }
}

/// What an operator's operands give, given how their types relate.
#[derive(Clone, Copy, Debug, PartialEq, Eq, Structural)]
pub enum OperandCheck {
    /// The left operand's equality method is called; the result is a boolean.
    Equality(EqualityOperator),
    /// The result has the right operand's type (`&&`: none when the left one
    /// is none, else the right one).
    RightType,
    /// The result has the operands' common type (`||`).
    CommonType,
    /// Error: the right operand's type does not fit the left one's.
    TypeMismatch,
    /// The left operand's built-in interface checks and computes the result.
    Interface(BuiltinInterface),
}

/// What the operands of `value` give: `==` and `!=` need either operand's type
/// to be assignable to the other's; `&&` takes the right operand's type; `||`
/// needs a common type; every other operator goes through its interface.
pub open spec fn spec_operand_check(value: BinaryOperatorValue, right_fits_left: bool, left_fits_right: bool,
    has_common_type: bool) -> OperandCheck {
    match spec_operator_kind(value) {
        OperatorKind::Equality(op) => if right_fits_left || left_fits_right {
            OperandCheck::Equality(op)
        } else {
            OperandCheck::TypeMismatch
        },
        OperatorKind::Selective(SelectiveOperator::And) => OperandCheck::RightType,
        OperatorKind::Selective(SelectiveOperator::Or) => if has_common_type {
            OperandCheck::CommonType
        } else {
            OperandCheck::TypeMismatch
        },
        OperatorKind::BuiltinInterface(interface) => OperandCheck::Interface(interface),
    }
}

/// What the operands of `value` give (see `spec_operand_check`).
pub fn operand_check(value: BinaryOperatorValue, right_fits_left: bool, left_fits_right: bool, has_common_type: bool)
    -> (result: OperandCheck)
    ensures
        result == spec_operand_check(value, right_fits_left, left_fits_right, has_common_type),
{
    let operator = BinaryOperator { location: ItemLocation::empty(), value };
    match operator.operator_kind() {
        OperatorKind::Equality(op) => if right_fits_left || left_fits_right {
            OperandCheck::Equality(op)
        } else {
            OperandCheck::TypeMismatch
        },
        OperatorKind::Selective(SelectiveOperator::And) => OperandCheck::RightType,
        OperatorKind::Selective(SelectiveOperator::Or) => if has_common_type {
            OperandCheck::CommonType
        } else {
            OperandCheck::TypeMismatch
        },
        OperatorKind::BuiltinInterface(interface) => OperandCheck::Interface(interface),
    }
}

/// The symbol of the operator that a built-in interface implements.
pub open spec fn interface_symbol(interface: BuiltinInterface) -> Seq<char> {
    match interface {
        BuiltinInterface::Add => "+"@,
        BuiltinInterface::Sub => "-"@,
        BuiltinInterface::Mul => "*"@,
        BuiltinInterface::Div => "/"@,
        BuiltinInterface::Mod => "%"@,
        BuiltinInterface::Shl => "<<"@,
        BuiltinInterface::Shr => ">>"@,
        BuiltinInterface::Xor => "^"@,
        BuiltinInterface::And => "&"@,
        BuiltinInterface::Or => "|"@,
        BuiltinInterface::Ge => ">="@,
        BuiltinInterface::Gt => ">"@,
        BuiltinInterface::Le => "<="@,
        BuiltinInterface::Lt => "<"@,
    }
}

/// Each operator is compiled in its own way: through the built-in interface
/// of the same symbol (`+` through the interface of `+`), `==` and `!=`
/// through the equality and inequality methods, `&&` and `||` as the
/// selective `and` and `or`. No two operators are compiled alike.
pub proof fn law_operator_kinds(a: BinaryOperatorValue, b: BinaryOperatorValue)
    ensures
        spec_operator_kind(a) == spec_operator_kind(b) ==> a == b,
        spec_operator_kind(a) matches OperatorKind::BuiltinInterface(i) ==> a.spec_text() == interface_symbol(i),
        spec_operator_kind(a) == OperatorKind::Equality(EqualityOperator::Equal) ==> a.spec_text() == "=="@,
        spec_operator_kind(a) == OperatorKind::Equality(EqualityOperator::NotEqual) ==> a.spec_text() == "!="@,
        spec_operator_kind(a) == OperatorKind::Selective(SelectiveOperator::And) ==> a.spec_text() == "&&"@,
        spec_operator_kind(a) == OperatorKind::Selective(SelectiveOperator::Or) ==> a.spec_text() == "||"@,
{
}

/// `==` and `!=` accept operands when either type fits the other, and
/// which one fits does not matter; `&&` always accepts its operands and
/// gives the right one's type; `||` accepts them exactly when they have a
/// common type; every other operator leaves the check to the interface of
/// its own kind, whatever the operands' types.
pub proof fn law_operand_checks(value: BinaryOperatorValue, right_fits_left: bool, left_fits_right: bool,
    has_common_type: bool)
    ensures
        spec_operator_kind(value) matches OperatorKind::Equality(op) ==>
            spec_operand_check(value, right_fits_left, left_fits_right, has_common_type)
                == if right_fits_left || left_fits_right { OperandCheck::Equality(op) } else { OperandCheck::TypeMismatch },
        spec_operand_check(value, right_fits_left, left_fits_right, has_common_type)
            == spec_operand_check(value, left_fits_right, right_fits_left, has_common_type),
        value == BinaryOperatorValue::DoubleAnd ==>
            spec_operand_check(value, right_fits_left, left_fits_right, has_common_type) == OperandCheck::RightType,
        value == BinaryOperatorValue::DoubleOr ==>
            spec_operand_check(value, right_fits_left, left_fits_right, has_common_type)
                == if has_common_type { OperandCheck::CommonType } else { OperandCheck::TypeMismatch },
        spec_operator_kind(value) matches OperatorKind::BuiltinInterface(i) ==>
            spec_operand_check(value, right_fits_left, left_fits_right, has_common_type) == OperandCheck::Interface(i),
        spec_operand_check(value, right_fits_left, left_fits_right, has_common_type) is TypeMismatch ==>
            (value == BinaryOperatorValue::Eq || value == BinaryOperatorValue::Ne || value == BinaryOperatorValue::DoubleOr),
{
}

/// The right operand of a selective operator gets no type hint; that of a
/// shift is an integer, whatever the left operand; every other operator
/// expects both operands of one type.
pub proof fn law_type_hints(value: BinaryOperatorValue)
    ensures
        spec_type_hint(value) is None <==> spec_operator_kind(value) is Selective,
        spec_type_hint(value) == Some(TypeHint::IntType) <==> (spec_operator_kind(value)
            == OperatorKind::BuiltinInterface(BuiltinInterface::Shl) || spec_operator_kind(value)
            == OperatorKind::BuiltinInterface(BuiltinInterface::Shr)),
        spec_type_hint(value) == Some(TypeHint::IntType) ==> value.spec_text() == "<<"@ || value.spec_text() == ">>"@,
{
}

} // verus!
