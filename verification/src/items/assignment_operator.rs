//! Assignment operators: `=` and the compound ones, which apply a binary
//! operator before they store.
use vstd::prelude::*;
use vstd::utf8::{encode_utf8, is_ascii_chars};
use crate::reader;
use crate::items::binary_operator::BinaryOperatorValue;
use crate::reader::{ItemLocation, Reader};

verus! {

/// An assignment operator at its place in the source.
pub struct AssignmentOperator {
    pub location: ItemLocation,
    pub value: AssignmentOperatorValue,
}

impl AssignmentOperator {
    /// The parsed value, where the item's location ends and where the reader then stands.
    pub open spec fn spec_parse(bytes: Seq<u8>, pos: int, comment: Option<Seq<u8>>) -> Option<(AssignmentOperatorValue, int, int)> {
        match AssignmentOperatorValue::spec_parse(bytes, pos, comment) {
            Some((value, after)) => {
                let end = reader::eat_spaces_from(bytes, after, comment);
                Some((value, reader::backtrack_blanks(bytes, end), end))
            },
            None => None,
        }
    }

    pub fn parse_item(reader: &mut Reader) -> (result: Option<Self>)
        requires
            old(reader).wf(),
        ensures
            final(reader).wf(),
            final(reader).same_text(old(reader)),
            final(reader).error_state() == ({
                let errors = AssignmentOperatorValue::spec_parse_errors(old(reader).bytes(), old(reader).pos(), old(reader).error_state());
                if AssignmentOperatorValue::spec_parse(old(reader).bytes(), old(reader).pos(), old(reader).comment()) is Some {
                    errors
                } else {
                    reader::record_expected(errors, old(reader).pos(), "AssignmentOperatorValue"@)
                }
            }),
            match Self::spec_parse(old(reader).bytes(), old(reader).pos(), old(reader).comment()) {
                Some((value, location_end, end)) => {
                    &&& result matches Some(item)
                    &&& item.value == value
                    &&& item.location.file_path@ == old(reader).path()
                    &&& item.location.start == old(reader).pos()
                    &&& item.location.end == location_end
                    &&& final(reader).pos() == end
                },
                None => result is None && final(reader).pos() == old(reader).pos(),
            },
    {
        let start = reader.get_index();
        match AssignmentOperatorValue::parse_item(reader) {
            Some(value) => {
                reader.eat_spaces();
                let location = reader.get_item_location(start);
                Some(AssignmentOperator { location, value })
            },
            None => {
                reader.set_expected_entity(String::from_str("AssignmentOperatorValue"));
                reader.set_index(start);
                None
            },
        }
    }
}

/// The assignment operators: plain `=` and the compound ones.
#[derive(Clone, Copy, Debug, PartialEq, Eq, Structural)]
pub enum AssignmentOperatorValue {
    Equal,
    PlusEqual,
    MinusEqual,
    MultEqual,
    DivEqual,
    ModEqual,
    ShlEqual,
    ShrEqual,
    XorEqual,
    DoubleAndEqual,
    DoubleOrEqual,
    SingleAndEqual,
    SingleOrEqual,
}

impl AssignmentOperatorValue {
    /// The text of the keyword.
    pub open spec fn spec_text(self) -> Seq<char> {
        match self {
            AssignmentOperatorValue::Equal => "="@,
            AssignmentOperatorValue::PlusEqual => "+="@,
            AssignmentOperatorValue::MinusEqual => "-="@,
            AssignmentOperatorValue::MultEqual => "*="@,
            AssignmentOperatorValue::DivEqual => "/="@,
            AssignmentOperatorValue::ModEqual => "%="@,
            AssignmentOperatorValue::ShlEqual => "<<="@,
            AssignmentOperatorValue::ShrEqual => ">>="@,
            AssignmentOperatorValue::XorEqual => "^="@,
            AssignmentOperatorValue::DoubleAndEqual => "&&="@,
            AssignmentOperatorValue::DoubleOrEqual => "||="@,
            AssignmentOperatorValue::SingleAndEqual => "&="@,
            AssignmentOperatorValue::SingleOrEqual => "|="@,
        }
    }

    /// The keyword that the parser reads at `pos`, tried in declaration order,
    /// and where the reader then stands.
    pub open spec fn spec_parse(bytes: Seq<u8>, pos: int, comment: Option<Seq<u8>>) -> Option<(Self, int)> {
        if reader::token_at(bytes, pos, "="@) {
            Some((AssignmentOperatorValue::Equal, reader::after_token(bytes, pos, "="@, comment)))
        } else if reader::token_at(bytes, pos, "+="@) {
            Some((AssignmentOperatorValue::PlusEqual, reader::after_token(bytes, pos, "+="@, comment)))
        } else if reader::token_at(bytes, pos, "-="@) {
            Some((AssignmentOperatorValue::MinusEqual, reader::after_token(bytes, pos, "-="@, comment)))
        } else if reader::token_at(bytes, pos, "*="@) {
            Some((AssignmentOperatorValue::MultEqual, reader::after_token(bytes, pos, "*="@, comment)))
        } else if reader::token_at(bytes, pos, "/="@) {
            Some((AssignmentOperatorValue::DivEqual, reader::after_token(bytes, pos, "/="@, comment)))
        } else if reader::token_at(bytes, pos, "%="@) {
            Some((AssignmentOperatorValue::ModEqual, reader::after_token(bytes, pos, "%="@, comment)))
        } else if reader::token_at(bytes, pos, "<<="@) {
            Some((AssignmentOperatorValue::ShlEqual, reader::after_token(bytes, pos, "<<="@, comment)))
        } else if reader::token_at(bytes, pos, ">>="@) {
            Some((AssignmentOperatorValue::ShrEqual, reader::after_token(bytes, pos, ">>="@, comment)))
        } else if reader::token_at(bytes, pos, "^="@) {
            Some((AssignmentOperatorValue::XorEqual, reader::after_token(bytes, pos, "^="@, comment)))
        } else if reader::token_at(bytes, pos, "&&="@) {
            Some((AssignmentOperatorValue::DoubleAndEqual, reader::after_token(bytes, pos, "&&="@, comment)))
        } else if reader::token_at(bytes, pos, "||="@) {
            Some((AssignmentOperatorValue::DoubleOrEqual, reader::after_token(bytes, pos, "||="@, comment)))
        } else if reader::token_at(bytes, pos, "&="@) {
            Some((AssignmentOperatorValue::SingleAndEqual, reader::after_token(bytes, pos, "&="@, comment)))
        } else if reader::token_at(bytes, pos, "|="@) {
            Some((AssignmentOperatorValue::SingleOrEqual, reader::after_token(bytes, pos, "|="@, comment)))
        } else {
            None
        }
    }

    pub fn as_str(&self) -> (result: &'static str)
        ensures
            result@ == self.spec_text(),
    {
        match self {
            AssignmentOperatorValue::Equal => "=",
            AssignmentOperatorValue::PlusEqual => "+=",
            AssignmentOperatorValue::MinusEqual => "-=",
            AssignmentOperatorValue::MultEqual => "*=",
            AssignmentOperatorValue::DivEqual => "/=",
            AssignmentOperatorValue::ModEqual => "%=",
            AssignmentOperatorValue::ShlEqual => "<<=",
            AssignmentOperatorValue::ShrEqual => ">>=",
            AssignmentOperatorValue::XorEqual => "^=",
            AssignmentOperatorValue::DoubleAndEqual => "&&=",
            AssignmentOperatorValue::DoubleOrEqual => "||=",
            AssignmentOperatorValue::SingleAndEqual => "&=",
            AssignmentOperatorValue::SingleOrEqual => "|=",
        }
    }

    /// What the parser records of the keywords that it tried and missed at
    /// `pos` before the one it read (all of them when it read none).
    pub open spec fn spec_parse_errors(bytes: Seq<u8>, pos: int, state: reader::ErrorState) -> reader::ErrorState {
        if reader::token_at(bytes, pos, "="@) {
            state
        } else if reader::token_at(bytes, pos, "+="@) {
            reader::record_expected(state, pos, reader::quoted("="@))
        } else if reader::token_at(bytes, pos, "-="@) {
            reader::record_expected(reader::record_expected(state, pos, reader::quoted("="@)), pos, reader::quoted("+="@))
        } else if reader::token_at(bytes, pos, "*="@) {
            reader::record_expected(reader::record_expected(reader::record_expected(state, pos, reader::quoted("="@)), pos, reader::quoted("+="@)), pos, reader::quoted("-="@))
        } else if reader::token_at(bytes, pos, "/="@) {
            reader::record_expected(reader::record_expected(reader::record_expected(reader::record_expected(state, pos, reader::quoted("="@)), pos, reader::quoted("+="@)), pos, reader::quoted("-="@)), pos, reader::quoted("*="@))
        } else if reader::token_at(bytes, pos, "%="@) {
            reader::record_expected(reader::record_expected(reader::record_expected(reader::record_expected(reader::record_expected(state, pos, reader::quoted("="@)), pos, reader::quoted("+="@)), pos, reader::quoted("-="@)), pos, reader::quoted("*="@)), pos, reader::quoted("/="@))
        } else if reader::token_at(bytes, pos, "<<="@) {
            reader::record_expected(reader::record_expected(reader::record_expected(reader::record_expected(reader::record_expected(reader::record_expected(state, pos, reader::quoted("="@)), pos, reader::quoted("+="@)), pos, reader::quoted("-="@)), pos, reader::quoted("*="@)), pos, reader::quoted("/="@)), pos, reader::quoted("%="@))
        } else if reader::token_at(bytes, pos, ">>="@) {
            reader::record_expected(reader::record_expected(reader::record_expected(reader::record_expected(reader::record_expected(reader::record_expected(reader::record_expected(state, pos, reader::quoted("="@)), pos, reader::quoted("+="@)), pos, reader::quoted("-="@)), pos, reader::quoted("*="@)), pos, reader::quoted("/="@)), pos, reader::quoted("%="@)), pos, reader::quoted("<<="@))
        } else if reader::token_at(bytes, pos, "^="@) {
            reader::record_expected(reader::record_expected(reader::record_expected(reader::record_expected(reader::record_expected(reader::record_expected(reader::record_expected(reader::record_expected(state, pos, reader::quoted("="@)), pos, reader::quoted("+="@)), pos, reader::quoted("-="@)), pos, reader::quoted("*="@)), pos, reader::quoted("/="@)), pos, reader::quoted("%="@)), pos, reader::quoted("<<="@)), pos, reader::quoted(">>="@))
        } else if reader::token_at(bytes, pos, "&&="@) {
            reader::record_expected(reader::record_expected(reader::record_expected(reader::record_expected(reader::record_expected(reader::record_expected(reader::record_expected(reader::record_expected(reader::record_expected(state, pos, reader::quoted("="@)), pos, reader::quoted("+="@)), pos, reader::quoted("-="@)), pos, reader::quoted("*="@)), pos, reader::quoted("/="@)), pos, reader::quoted("%="@)), pos, reader::quoted("<<="@)), pos, reader::quoted(">>="@)), pos, reader::quoted("^="@))
        } else if reader::token_at(bytes, pos, "||="@) {
            reader::record_expected(reader::record_expected(reader::record_expected(reader::record_expected(reader::record_expected(reader::record_expected(reader::record_expected(reader::record_expected(reader::record_expected(reader::record_expected(state, pos, reader::quoted("="@)), pos, reader::quoted("+="@)), pos, reader::quoted("-="@)), pos, reader::quoted("*="@)), pos, reader::quoted("/="@)), pos, reader::quoted("%="@)), pos, reader::quoted("<<="@)), pos, reader::quoted(">>="@)), pos, reader::quoted("^="@)), pos, reader::quoted("&&="@))
        } else if reader::token_at(bytes, pos, "&="@) {
            reader::record_expected(reader::record_expected(reader::record_expected(reader::record_expected(reader::record_expected(reader::record_expected(reader::record_expected(reader::record_expected(reader::record_expected(reader::record_expected(reader::record_expected(state, pos, reader::quoted("="@)), pos, reader::quoted("+="@)), pos, reader::quoted("-="@)), pos, reader::quoted("*="@)), pos, reader::quoted("/="@)), pos, reader::quoted("%="@)), pos, reader::quoted("<<="@)), pos, reader::quoted(">>="@)), pos, reader::quoted("^="@)), pos, reader::quoted("&&="@)), pos, reader::quoted("||="@))
        } else if reader::token_at(bytes, pos, "|="@) {
            reader::record_expected(reader::record_expected(reader::record_expected(reader::record_expected(reader::record_expected(reader::record_expected(reader::record_expected(reader::record_expected(reader::record_expected(reader::record_expected(reader::record_expected(reader::record_expected(state, pos, reader::quoted("="@)), pos, reader::quoted("+="@)), pos, reader::quoted("-="@)), pos, reader::quoted("*="@)), pos, reader::quoted("/="@)), pos, reader::quoted("%="@)), pos, reader::quoted("<<="@)), pos, reader::quoted(">>="@)), pos, reader::quoted("^="@)), pos, reader::quoted("&&="@)), pos, reader::quoted("||="@)), pos, reader::quoted("&="@))
        } else {
            reader::record_expected(reader::record_expected(reader::record_expected(reader::record_expected(reader::record_expected(reader::record_expected(reader::record_expected(reader::record_expected(reader::record_expected(reader::record_expected(reader::record_expected(reader::record_expected(reader::record_expected(state, pos, reader::quoted("="@)), pos, reader::quoted("+="@)), pos, reader::quoted("-="@)), pos, reader::quoted("*="@)), pos, reader::quoted("/="@)), pos, reader::quoted("%="@)), pos, reader::quoted("<<="@)), pos, reader::quoted(">>="@)), pos, reader::quoted("^="@)), pos, reader::quoted("&&="@)), pos, reader::quoted("||="@)), pos, reader::quoted("&="@)), pos, reader::quoted("|="@))
        }
    }

    pub fn parse_item(reader: &mut Reader) -> (result: Option<Self>)
        requires
            old(reader).wf(),
        ensures
            final(reader).wf(),
            final(reader).same_text(old(reader)),
            final(reader).error_state() == Self::spec_parse_errors(old(reader).bytes(), old(reader).pos(), old(reader).error_state()),
            match Self::spec_parse(old(reader).bytes(), old(reader).pos(), old(reader).comment()) {
                Some((value, end)) => result == Some(value) && final(reader).pos() == end,
                None => result is None && final(reader).pos() == old(reader).pos(),
            },
    {
        proof {
            reveal_strlit("=");
            reveal_strlit("+=");
            reveal_strlit("-=");
            reveal_strlit("*=");
            reveal_strlit("/=");
            reveal_strlit("%=");
            reveal_strlit("<<=");
            reveal_strlit(">>=");
            reveal_strlit("^=");
            reveal_strlit("&&=");
            reveal_strlit("||=");
            reveal_strlit("&=");
            reveal_strlit("|=");
        }
        if reader.read_string("=") {
            reader.eat_spaces();
            return Some(AssignmentOperatorValue::Equal);
        }
        reader.set_expected_string("=");
        if reader.read_string("+=") {
            reader.eat_spaces();
            return Some(AssignmentOperatorValue::PlusEqual);
        }
        reader.set_expected_string("+=");
        if reader.read_string("-=") {
            reader.eat_spaces();
            return Some(AssignmentOperatorValue::MinusEqual);
        }
        reader.set_expected_string("-=");
        if reader.read_string("*=") {
            reader.eat_spaces();
            return Some(AssignmentOperatorValue::MultEqual);
        }
        reader.set_expected_string("*=");
        if reader.read_string("/=") {
            reader.eat_spaces();
            return Some(AssignmentOperatorValue::DivEqual);
        }
        reader.set_expected_string("/=");
        if reader.read_string("%=") {
            reader.eat_spaces();
            return Some(AssignmentOperatorValue::ModEqual);
        }
        reader.set_expected_string("%=");
        if reader.read_string("<<=") {
            reader.eat_spaces();
            return Some(AssignmentOperatorValue::ShlEqual);
        }
        reader.set_expected_string("<<=");
        if reader.read_string(">>=") {
            reader.eat_spaces();
            return Some(AssignmentOperatorValue::ShrEqual);
        }
        reader.set_expected_string(">>=");
        if reader.read_string("^=") {
            reader.eat_spaces();
            return Some(AssignmentOperatorValue::XorEqual);
        }
        reader.set_expected_string("^=");
        if reader.read_string("&&=") {
            reader.eat_spaces();
            return Some(AssignmentOperatorValue::DoubleAndEqual);
        }
        reader.set_expected_string("&&=");
        if reader.read_string("||=") {
            reader.eat_spaces();
            return Some(AssignmentOperatorValue::DoubleOrEqual);
        }
        reader.set_expected_string("||=");
        if reader.read_string("&=") {
            reader.eat_spaces();
            return Some(AssignmentOperatorValue::SingleAndEqual);
        }
        reader.set_expected_string("&=");
        if reader.read_string("|=") {
            reader.eat_spaces();
            return Some(AssignmentOperatorValue::SingleOrEqual);
        }
        reader.set_expected_string("|=");
        None
    }
}

/// The binary operator that a compound assignment applies: none for `=`.
pub open spec fn spec_associated_binary_operator(value: AssignmentOperatorValue) -> Option<BinaryOperatorValue> {
    match value {
            AssignmentOperatorValue::Equal => None,
            AssignmentOperatorValue::PlusEqual => Some(BinaryOperatorValue::Plus),
            AssignmentOperatorValue::MinusEqual => Some(BinaryOperatorValue::Minus),
            AssignmentOperatorValue::MultEqual => Some(BinaryOperatorValue::Mult),
            AssignmentOperatorValue::DivEqual => Some(BinaryOperatorValue::Div),
            AssignmentOperatorValue::ModEqual => Some(BinaryOperatorValue::Mod),
            AssignmentOperatorValue::ShlEqual => Some(BinaryOperatorValue::Shl),
            AssignmentOperatorValue::ShrEqual => Some(BinaryOperatorValue::Shr),
            AssignmentOperatorValue::XorEqual => Some(BinaryOperatorValue::Xor),
            AssignmentOperatorValue::DoubleAndEqual => Some(BinaryOperatorValue::DoubleAnd),
            AssignmentOperatorValue::DoubleOrEqual => Some(BinaryOperatorValue::DoubleOr),
            AssignmentOperatorValue::SingleAndEqual => Some(BinaryOperatorValue::SingleAnd),
            AssignmentOperatorValue::SingleOrEqual => Some(BinaryOperatorValue::SingleOr),
    }
}

impl AssignmentOperatorValue {
    /// The binary operator that the assignment applies before it stores: none for `=`.
    pub fn associated_binary_operator(&self) -> (result: Option<BinaryOperatorValue>)
        ensures
            result == spec_associated_binary_operator(*self),
    {
        match self {
            AssignmentOperatorValue::Equal => None,
            AssignmentOperatorValue::PlusEqual => Some(BinaryOperatorValue::Plus),
            AssignmentOperatorValue::MinusEqual => Some(BinaryOperatorValue::Minus),
            AssignmentOperatorValue::MultEqual => Some(BinaryOperatorValue::Mult),
            AssignmentOperatorValue::DivEqual => Some(BinaryOperatorValue::Div),
            AssignmentOperatorValue::ModEqual => Some(BinaryOperatorValue::Mod),
            AssignmentOperatorValue::ShlEqual => Some(BinaryOperatorValue::Shl),
            AssignmentOperatorValue::ShrEqual => Some(BinaryOperatorValue::Shr),
            AssignmentOperatorValue::XorEqual => Some(BinaryOperatorValue::Xor),
            AssignmentOperatorValue::DoubleAndEqual => Some(BinaryOperatorValue::DoubleAnd),
            AssignmentOperatorValue::DoubleOrEqual => Some(BinaryOperatorValue::DoubleOr),
            AssignmentOperatorValue::SingleAndEqual => Some(BinaryOperatorValue::SingleAnd),
            AssignmentOperatorValue::SingleOrEqual => Some(BinaryOperatorValue::SingleOr),
        }
    }
}

/// A compound assignment is written as its binary operator followed by `=`.
pub proof fn law_compound_assignment_text(value: AssignmentOperatorValue)
    requires
        value != AssignmentOperatorValue::Equal,
    ensures
        value.spec_text() == spec_associated_binary_operator(value)->0.spec_text() + "="@,
{
    reveal_strlit("=");
        reveal_strlit("+");
        reveal_strlit("+=");
        reveal_strlit("-");
        reveal_strlit("-=");
        reveal_strlit("*");
        reveal_strlit("*=");
        reveal_strlit("/");
        reveal_strlit("/=");
        reveal_strlit("%");
        reveal_strlit("%=");
        reveal_strlit("<<");
        reveal_strlit("<<=");
        reveal_strlit(">>");
        reveal_strlit(">>=");
        reveal_strlit("^");
        reveal_strlit("^=");
        reveal_strlit("&&");
        reveal_strlit("&&=");
        reveal_strlit("||");
        reveal_strlit("||=");
        reveal_strlit("&");
        reveal_strlit("&=");
        reveal_strlit("|");
        reveal_strlit("|=");
    assert(value.spec_text() =~= spec_associated_binary_operator(value)->0.spec_text() + "="@);
}

/// Each value is read back from its own text.
pub proof fn law_text_parses_back(value: AssignmentOperatorValue, comment: Option<Seq<u8>>)
    ensures
        AssignmentOperatorValue::spec_parse(encode_utf8(value.spec_text()), 0, comment) matches Some((v, _)) && v == value,
{
    reveal_strlit("=");
    reveal_strlit("+=");
    reveal_strlit("-=");
    reveal_strlit("*=");
    reveal_strlit("/=");
    reveal_strlit("%=");
    reveal_strlit("<<=");
    reveal_strlit(">>=");
    reveal_strlit("^=");
    reveal_strlit("&&=");
    reveal_strlit("||=");
    reveal_strlit("&=");
    reveal_strlit("|=");
    let text = value.spec_text();
    assert(is_ascii_chars(text));
    match value {
        AssignmentOperatorValue::Equal => {
            assert(is_ascii_chars("="@));
            reader::lemma_ascii_token_at_start(text, "="@);
            assert(text.subrange(0, text.len() as int) =~= text);
        },
        AssignmentOperatorValue::PlusEqual => {
            assert(is_ascii_chars("="@));
            reader::lemma_ascii_token_at_start(text, "="@);
            assert(text.subrange(0, 1)[0] != "="@[0]);
            assert(is_ascii_chars("+="@));
            reader::lemma_ascii_token_at_start(text, "+="@);
            assert(text.subrange(0, text.len() as int) =~= text);
        },
        AssignmentOperatorValue::MinusEqual => {
            assert(is_ascii_chars("="@));
            reader::lemma_ascii_token_at_start(text, "="@);
            assert(text.subrange(0, 1)[0] != "="@[0]);
            assert(is_ascii_chars("+="@));
            reader::lemma_ascii_token_at_start(text, "+="@);
            assert(text.subrange(0, 2)[0] != "+="@[0]);
            assert(is_ascii_chars("-="@));
            reader::lemma_ascii_token_at_start(text, "-="@);
            assert(text.subrange(0, text.len() as int) =~= text);
        },
        AssignmentOperatorValue::MultEqual => {
            assert(is_ascii_chars("="@));
            reader::lemma_ascii_token_at_start(text, "="@);
            assert(text.subrange(0, 1)[0] != "="@[0]);
            assert(is_ascii_chars("+="@));
            reader::lemma_ascii_token_at_start(text, "+="@);
            assert(text.subrange(0, 2)[0] != "+="@[0]);
            assert(is_ascii_chars("-="@));
            reader::lemma_ascii_token_at_start(text, "-="@);
            assert(text.subrange(0, 2)[0] != "-="@[0]);
            assert(is_ascii_chars("*="@));
            reader::lemma_ascii_token_at_start(text, "*="@);
            assert(text.subrange(0, text.len() as int) =~= text);
        },
        AssignmentOperatorValue::DivEqual => {
            assert(is_ascii_chars("="@));
            reader::lemma_ascii_token_at_start(text, "="@);
            assert(text.subrange(0, 1)[0] != "="@[0]);
            assert(is_ascii_chars("+="@));
            reader::lemma_ascii_token_at_start(text, "+="@);
            assert(text.subrange(0, 2)[0] != "+="@[0]);
            assert(is_ascii_chars("-="@));
            reader::lemma_ascii_token_at_start(text, "-="@);
            assert(text.subrange(0, 2)[0] != "-="@[0]);
            assert(is_ascii_chars("*="@));
            reader::lemma_ascii_token_at_start(text, "*="@);
            assert(text.subrange(0, 2)[0] != "*="@[0]);
            assert(is_ascii_chars("/="@));
            reader::lemma_ascii_token_at_start(text, "/="@);
            assert(text.subrange(0, text.len() as int) =~= text);
        },
        AssignmentOperatorValue::ModEqual => {
            assert(is_ascii_chars("="@));
            reader::lemma_ascii_token_at_start(text, "="@);
            assert(text.subrange(0, 1)[0] != "="@[0]);
            assert(is_ascii_chars("+="@));
            reader::lemma_ascii_token_at_start(text, "+="@);
            assert(text.subrange(0, 2)[0] != "+="@[0]);
            assert(is_ascii_chars("-="@));
            reader::lemma_ascii_token_at_start(text, "-="@);
            assert(text.subrange(0, 2)[0] != "-="@[0]);
            assert(is_ascii_chars("*="@));
            reader::lemma_ascii_token_at_start(text, "*="@);
            assert(text.subrange(0, 2)[0] != "*="@[0]);
            assert(is_ascii_chars("/="@));
            reader::lemma_ascii_token_at_start(text, "/="@);
            assert(text.subrange(0, 2)[0] != "/="@[0]);
            assert(is_ascii_chars("%="@));
            reader::lemma_ascii_token_at_start(text, "%="@);
            assert(text.subrange(0, text.len() as int) =~= text);
        },
        AssignmentOperatorValue::ShlEqual => {
            assert(is_ascii_chars("="@));
            reader::lemma_ascii_token_at_start(text, "="@);
            assert(text.subrange(0, 1)[0] != "="@[0]);
            assert(is_ascii_chars("+="@));
            reader::lemma_ascii_token_at_start(text, "+="@);
            assert(text.subrange(0, 2)[0] != "+="@[0]);
            assert(is_ascii_chars("-="@));
            reader::lemma_ascii_token_at_start(text, "-="@);
            assert(text.subrange(0, 2)[0] != "-="@[0]);
            assert(is_ascii_chars("*="@));
            reader::lemma_ascii_token_at_start(text, "*="@);
            assert(text.subrange(0, 2)[0] != "*="@[0]);
            assert(is_ascii_chars("/="@));
            reader::lemma_ascii_token_at_start(text, "/="@);
            assert(text.subrange(0, 2)[0] != "/="@[0]);
            assert(is_ascii_chars("%="@));
            reader::lemma_ascii_token_at_start(text, "%="@);
            assert(text.subrange(0, 2)[0] != "%="@[0]);
            assert(is_ascii_chars("<<="@));
            reader::lemma_ascii_token_at_start(text, "<<="@);
            assert(text.subrange(0, text.len() as int) =~= text);
        },
        AssignmentOperatorValue::ShrEqual => {
            assert(is_ascii_chars("="@));
            reader::lemma_ascii_token_at_start(text, "="@);
            assert(text.subrange(0, 1)[0] != "="@[0]);
            assert(is_ascii_chars("+="@));
            reader::lemma_ascii_token_at_start(text, "+="@);
            assert(text.subrange(0, 2)[0] != "+="@[0]);
            assert(is_ascii_chars("-="@));
            reader::lemma_ascii_token_at_start(text, "-="@);
            assert(text.subrange(0, 2)[0] != "-="@[0]);
            assert(is_ascii_chars("*="@));
            reader::lemma_ascii_token_at_start(text, "*="@);
            assert(text.subrange(0, 2)[0] != "*="@[0]);
            assert(is_ascii_chars("/="@));
            reader::lemma_ascii_token_at_start(text, "/="@);
            assert(text.subrange(0, 2)[0] != "/="@[0]);
            assert(is_ascii_chars("%="@));
            reader::lemma_ascii_token_at_start(text, "%="@);
            assert(text.subrange(0, 2)[0] != "%="@[0]);
            assert(is_ascii_chars("<<="@));
            reader::lemma_ascii_token_at_start(text, "<<="@);
            assert(text.subrange(0, 3)[0] != "<<="@[0]);
            assert(is_ascii_chars(">>="@));
            reader::lemma_ascii_token_at_start(text, ">>="@);
            assert(text.subrange(0, text.len() as int) =~= text);
        },
        AssignmentOperatorValue::XorEqual => {
            assert(is_ascii_chars("="@));
            reader::lemma_ascii_token_at_start(text, "="@);
            assert(text.subrange(0, 1)[0] != "="@[0]);
            assert(is_ascii_chars("+="@));
            reader::lemma_ascii_token_at_start(text, "+="@);
            assert(text.subrange(0, 2)[0] != "+="@[0]);
            assert(is_ascii_chars("-="@));
            reader::lemma_ascii_token_at_start(text, "-="@);
            assert(text.subrange(0, 2)[0] != "-="@[0]);
            assert(is_ascii_chars("*="@));
            reader::lemma_ascii_token_at_start(text, "*="@);
            assert(text.subrange(0, 2)[0] != "*="@[0]);
            assert(is_ascii_chars("/="@));
            reader::lemma_ascii_token_at_start(text, "/="@);
            assert(text.subrange(0, 2)[0] != "/="@[0]);
            assert(is_ascii_chars("%="@));
            reader::lemma_ascii_token_at_start(text, "%="@);
            assert(text.subrange(0, 2)[0] != "%="@[0]);
            assert(is_ascii_chars("<<="@));
            reader::lemma_ascii_token_at_start(text, "<<="@);
            assert(is_ascii_chars(">>="@));
            reader::lemma_ascii_token_at_start(text, ">>="@);
            assert(is_ascii_chars("^="@));
            reader::lemma_ascii_token_at_start(text, "^="@);
            assert(text.subrange(0, text.len() as int) =~= text);
        },
        AssignmentOperatorValue::DoubleAndEqual => {
            assert(is_ascii_chars("="@));
            reader::lemma_ascii_token_at_start(text, "="@);
            assert(text.subrange(0, 1)[0] != "="@[0]);
            assert(is_ascii_chars("+="@));
            reader::lemma_ascii_token_at_start(text, "+="@);
            assert(text.subrange(0, 2)[0] != "+="@[0]);
            assert(is_ascii_chars("-="@));
            reader::lemma_ascii_token_at_start(text, "-="@);
            assert(text.subrange(0, 2)[0] != "-="@[0]);
            assert(is_ascii_chars("*="@));
            reader::lemma_ascii_token_at_start(text, "*="@);
            assert(text.subrange(0, 2)[0] != "*="@[0]);
            assert(is_ascii_chars("/="@));
            reader::lemma_ascii_token_at_start(text, "/="@);
            assert(text.subrange(0, 2)[0] != "/="@[0]);
            assert(is_ascii_chars("%="@));
            reader::lemma_ascii_token_at_start(text, "%="@);
            assert(text.subrange(0, 2)[0] != "%="@[0]);
            assert(is_ascii_chars("<<="@));
            reader::lemma_ascii_token_at_start(text, "<<="@);
            assert(text.subrange(0, 3)[0] != "<<="@[0]);
            assert(is_ascii_chars(">>="@));
            reader::lemma_ascii_token_at_start(text, ">>="@);
            assert(text.subrange(0, 3)[0] != ">>="@[0]);
            assert(is_ascii_chars("^="@));
            reader::lemma_ascii_token_at_start(text, "^="@);
            assert(text.subrange(0, 2)[0] != "^="@[0]);
            assert(is_ascii_chars("&&="@));
            reader::lemma_ascii_token_at_start(text, "&&="@);
            assert(text.subrange(0, text.len() as int) =~= text);
        },
        AssignmentOperatorValue::DoubleOrEqual => {
            assert(is_ascii_chars("="@));
            reader::lemma_ascii_token_at_start(text, "="@);
            assert(text.subrange(0, 1)[0] != "="@[0]);
            assert(is_ascii_chars("+="@));
            reader::lemma_ascii_token_at_start(text, "+="@);
            assert(text.subrange(0, 2)[0] != "+="@[0]);
            assert(is_ascii_chars("-="@));
            reader::lemma_ascii_token_at_start(text, "-="@);
            assert(text.subrange(0, 2)[0] != "-="@[0]);
            assert(is_ascii_chars("*="@));
            reader::lemma_ascii_token_at_start(text, "*="@);
            assert(text.subrange(0, 2)[0] != "*="@[0]);
            assert(is_ascii_chars("/="@));
            reader::lemma_ascii_token_at_start(text, "/="@);
            assert(text.subrange(0, 2)[0] != "/="@[0]);
            assert(is_ascii_chars("%="@));
            reader::lemma_ascii_token_at_start(text, "%="@);
            assert(text.subrange(0, 2)[0] != "%="@[0]);
            assert(is_ascii_chars("<<="@));
            reader::lemma_ascii_token_at_start(text, "<<="@);
            assert(text.subrange(0, 3)[0] != "<<="@[0]);
            assert(is_ascii_chars(">>="@));
            reader::lemma_ascii_token_at_start(text, ">>="@);
            assert(text.subrange(0, 3)[0] != ">>="@[0]);
            assert(is_ascii_chars("^="@));
            reader::lemma_ascii_token_at_start(text, "^="@);
            assert(text.subrange(0, 2)[0] != "^="@[0]);
            assert(is_ascii_chars("&&="@));
            reader::lemma_ascii_token_at_start(text, "&&="@);
            assert(text.subrange(0, 3)[0] != "&&="@[0]);
            assert(is_ascii_chars("||="@));
            reader::lemma_ascii_token_at_start(text, "||="@);
            assert(text.subrange(0, text.len() as int) =~= text);
        },
        AssignmentOperatorValue::SingleAndEqual => {
            assert(is_ascii_chars("="@));
            reader::lemma_ascii_token_at_start(text, "="@);
            assert(text.subrange(0, 1)[0] != "="@[0]);
            assert(is_ascii_chars("+="@));
            reader::lemma_ascii_token_at_start(text, "+="@);
            assert(text.subrange(0, 2)[0] != "+="@[0]);
            assert(is_ascii_chars("-="@));
            reader::lemma_ascii_token_at_start(text, "-="@);
            assert(text.subrange(0, 2)[0] != "-="@[0]);
            assert(is_ascii_chars("*="@));
            reader::lemma_ascii_token_at_start(text, "*="@);
            assert(text.subrange(0, 2)[0] != "*="@[0]);
            assert(is_ascii_chars("/="@));
            reader::lemma_ascii_token_at_start(text, "/="@);
            assert(text.subrange(0, 2)[0] != "/="@[0]);
            assert(is_ascii_chars("%="@));
            reader::lemma_ascii_token_at_start(text, "%="@);
            assert(text.subrange(0, 2)[0] != "%="@[0]);
            assert(is_ascii_chars("<<="@));
            reader::lemma_ascii_token_at_start(text, "<<="@);
            assert(is_ascii_chars(">>="@));
            reader::lemma_ascii_token_at_start(text, ">>="@);
            assert(is_ascii_chars("^="@));
            reader::lemma_ascii_token_at_start(text, "^="@);
            assert(text.subrange(0, 2)[0] != "^="@[0]);
            assert(is_ascii_chars("&&="@));
            reader::lemma_ascii_token_at_start(text, "&&="@);
            assert(is_ascii_chars("||="@));
            reader::lemma_ascii_token_at_start(text, "||="@);
            assert(is_ascii_chars("&="@));
            reader::lemma_ascii_token_at_start(text, "&="@);
            assert(text.subrange(0, text.len() as int) =~= text);
        },
        AssignmentOperatorValue::SingleOrEqual => {
            assert(is_ascii_chars("="@));
            reader::lemma_ascii_token_at_start(text, "="@);
            assert(text.subrange(0, 1)[0] != "="@[0]);
            assert(is_ascii_chars("+="@));
            reader::lemma_ascii_token_at_start(text, "+="@);
            assert(text.subrange(0, 2)[0] != "+="@[0]);
            assert(is_ascii_chars("-="@));
            reader::lemma_ascii_token_at_start(text, "-="@);
            assert(text.subrange(0, 2)[0] != "-="@[0]);
            assert(is_ascii_chars("*="@));
            reader::lemma_ascii_token_at_start(text, "*="@);
            assert(text.subrange(0, 2)[0] != "*="@[0]);
            assert(is_ascii_chars("/="@));
            reader::lemma_ascii_token_at_start(text, "/="@);
            assert(text.subrange(0, 2)[0] != "/="@[0]);
            assert(is_ascii_chars("%="@));
            reader::lemma_ascii_token_at_start(text, "%="@);
            assert(text.subrange(0, 2)[0] != "%="@[0]);
            assert(is_ascii_chars("<<="@));
            reader::lemma_ascii_token_at_start(text, "<<="@);
            assert(is_ascii_chars(">>="@));
            reader::lemma_ascii_token_at_start(text, ">>="@);
            assert(is_ascii_chars("^="@));
            reader::lemma_ascii_token_at_start(text, "^="@);
            assert(text.subrange(0, 2)[0] != "^="@[0]);
            assert(is_ascii_chars("&&="@));
            reader::lemma_ascii_token_at_start(text, "&&="@);
            assert(is_ascii_chars("||="@));
            reader::lemma_ascii_token_at_start(text, "||="@);
            assert(is_ascii_chars("&="@));
            reader::lemma_ascii_token_at_start(text, "&="@);
            assert(text.subrange(0, 2)[0] != "&="@[0]);
            assert(is_ascii_chars("|="@));
            reader::lemma_ascii_token_at_start(text, "|="@);
            assert(text.subrange(0, text.len() as int) =~= text);
        },
    }
}

} // verus!
