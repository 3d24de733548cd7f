//! Macros that stand for a value, such as `#TYPE_ID`.
use vstd::prelude::*;
use vstd::utf8::{encode_utf8, is_ascii_chars};
use crate::reader;
use crate::reader::{ItemLocation, Reader};

verus! {

/// A macro that stands for a value, such as `#TYPE_ID`.
pub struct MacroExpression {
    pub location: ItemLocation,
    pub value: MacroExpressionValue,
}

impl MacroExpression {
    /// The parsed value, where the item's location ends and where the reader then stands.
    pub open spec fn spec_parse(bytes: Seq<u8>, pos: int, comment: Option<Seq<u8>>) -> Option<(MacroExpressionValue, int, int)> {
        if reader::token_at(bytes, pos, "#"@) {
            let p = reader::after_token(bytes, pos, "#"@, comment);
            match MacroExpressionValue::spec_parse(bytes, p, comment) {
                Some((value, after)) => {
                    let end = reader::eat_spaces_from(bytes, after, comment);
                    Some((value, reader::backtrack_blanks(bytes, end), end))
                },
                None => None,
            }
        } else {
            None
        }
    }

    pub fn parse_item(reader: &mut Reader) -> (result: Option<Self>)
        requires
            old(reader).wf(),
        ensures
            final(reader).wf(),
            final(reader).same_text(old(reader)),
            final(reader).error_state() == if reader::token_at(old(reader).bytes(), old(reader).pos(), "#"@) {
                let p = reader::after_token(old(reader).bytes(), old(reader).pos(), "#"@, old(reader).comment());
                let errors = MacroExpressionValue::spec_parse_errors(old(reader).bytes(), p, old(reader).error_state());
                if MacroExpressionValue::spec_parse(old(reader).bytes(), p, old(reader).comment()) is Some {
                    errors
                } else {
                    reader::record_expected(errors, p, "MacroExpressionValue"@)
                }
            } else {
                reader::record_expected(old(reader).error_state(), old(reader).pos(), reader::quoted("#"@))
            },
            match Self::spec_parse(old(reader).bytes(), old(reader).pos(), old(reader).comment()) {
                Some((value, location_end, end)) => {
                    &&& result matches Some(item)
                    &&& item.value == value
                    &&& item.location.file_path@ == old(reader).path()
                    &&& item.location.start == old(reader).pos()
                    &&& item.location.end == location_end
                    &&& final(reader).pos() == end
                },
                None => result is None && final(reader).pos() == old(reader).pos(),
            },
    {
        let start = reader.get_index();
        proof {
            reveal_strlit("#");
        }
        if !reader.read_string("#") {
            reader.set_expected_string("#");
            return None;
        }
        reader.eat_spaces();
        match MacroExpressionValue::parse_item(reader) {
            Some(value) => {
                reader.eat_spaces();
                let location = reader.get_item_location(start);
                Some(MacroExpression { location, value })
            },
            None => {
                reader.set_expected_entity(String::from_str("MacroExpressionValue"));
                reader.set_index(start);
                None
            },
        }
    }
}

/// The macros that stand for a value.
#[derive(Clone, Copy, Debug, PartialEq, Eq, Structural)]
pub enum MacroExpressionValue {
    TypeId,
    TypeName,
    TypeShortName,
    FieldCount,
    FieldName,
    FieldDefaultExpression,
    VariantCount,
    VariantName,
    VariantValue,
    AncestorId,
    AncestorName,
}

impl MacroExpressionValue {
    /// The text of the keyword.
    pub open spec fn spec_text(self) -> Seq<char> {
        match self {
            MacroExpressionValue::TypeId => "TYPE_ID"@,
            MacroExpressionValue::TypeName => "TYPE_NAME"@,
            MacroExpressionValue::TypeShortName => "TYPE_SHORT_NAME"@,
            MacroExpressionValue::FieldCount => "FIELD_COUNT"@,
            MacroExpressionValue::FieldName => "FIELD_NAME"@,
            MacroExpressionValue::FieldDefaultExpression => "FIELD_DEFAULT_EXPRESSION"@,
            MacroExpressionValue::VariantCount => "VARIANT_COUNT"@,
            MacroExpressionValue::VariantName => "VARIANT_NAME"@,
            MacroExpressionValue::VariantValue => "VARIANT_VALUE"@,
            MacroExpressionValue::AncestorId => "ANCESTOR_ID"@,
            MacroExpressionValue::AncestorName => "ANCESTOR_NAME"@,
        }
    }

    /// The keyword that the parser reads at `pos`, tried in declaration order,
    /// and where the reader then stands.
    pub open spec fn spec_parse(bytes: Seq<u8>, pos: int, comment: Option<Seq<u8>>) -> Option<(Self, int)> {
        if reader::token_at(bytes, pos, "TYPE_ID"@) {
            Some((MacroExpressionValue::TypeId, reader::after_token(bytes, pos, "TYPE_ID"@, comment)))
        } else if reader::token_at(bytes, pos, "TYPE_NAME"@) {
            Some((MacroExpressionValue::TypeName, reader::after_token(bytes, pos, "TYPE_NAME"@, comment)))
        } else if reader::token_at(bytes, pos, "TYPE_SHORT_NAME"@) {
            Some((MacroExpressionValue::TypeShortName, reader::after_token(bytes, pos, "TYPE_SHORT_NAME"@, comment)))
        } else if reader::token_at(bytes, pos, "FIELD_COUNT"@) {
            Some((MacroExpressionValue::FieldCount, reader::after_token(bytes, pos, "FIELD_COUNT"@, comment)))
        } else if reader::token_at(bytes, pos, "FIELD_NAME"@) {
            Some((MacroExpressionValue::FieldName, reader::after_token(bytes, pos, "FIELD_NAME"@, comment)))
        } else if reader::token_at(bytes, pos, "FIELD_DEFAULT_EXPRESSION"@) {
            Some((MacroExpressionValue::FieldDefaultExpression, reader::after_token(bytes, pos, "FIELD_DEFAULT_EXPRESSION"@, comment)))
        } else if reader::token_at(bytes, pos, "VARIANT_COUNT"@) {
            Some((MacroExpressionValue::VariantCount, reader::after_token(bytes, pos, "VARIANT_COUNT"@, comment)))
        } else if reader::token_at(bytes, pos, "VARIANT_NAME"@) {
            Some((MacroExpressionValue::VariantName, reader::after_token(bytes, pos, "VARIANT_NAME"@, comment)))
        } else if reader::token_at(bytes, pos, "VARIANT_VALUE"@) {
            Some((MacroExpressionValue::VariantValue, reader::after_token(bytes, pos, "VARIANT_VALUE"@, comment)))
        } else if reader::token_at(bytes, pos, "ANCESTOR_ID"@) {
            Some((MacroExpressionValue::AncestorId, reader::after_token(bytes, pos, "ANCESTOR_ID"@, comment)))
        } else if reader::token_at(bytes, pos, "ANCESTOR_NAME"@) {
            Some((MacroExpressionValue::AncestorName, reader::after_token(bytes, pos, "ANCESTOR_NAME"@, comment)))
        } else {
            None
        }
    }

    pub fn as_str(&self) -> (result: &'static str)
        ensures
            result@ == self.spec_text(),
    {
        match self {
            MacroExpressionValue::TypeId => "TYPE_ID",
            MacroExpressionValue::TypeName => "TYPE_NAME",
            MacroExpressionValue::TypeShortName => "TYPE_SHORT_NAME",
            MacroExpressionValue::FieldCount => "FIELD_COUNT",
            MacroExpressionValue::FieldName => "FIELD_NAME",
            MacroExpressionValue::FieldDefaultExpression => "FIELD_DEFAULT_EXPRESSION",
            MacroExpressionValue::VariantCount => "VARIANT_COUNT",
            MacroExpressionValue::VariantName => "VARIANT_NAME",
            MacroExpressionValue::VariantValue => "VARIANT_VALUE",
            MacroExpressionValue::AncestorId => "ANCESTOR_ID",
            MacroExpressionValue::AncestorName => "ANCESTOR_NAME",
        }
    }

    /// What the parser records of the keywords that it tried and missed at
    /// `pos` before the one it read (all of them when it read none).
    pub open spec fn spec_parse_errors(bytes: Seq<u8>, pos: int, state: reader::ErrorState) -> reader::ErrorState {
        if reader::token_at(bytes, pos, "TYPE_ID"@) {
            state
        } else if reader::token_at(bytes, pos, "TYPE_NAME"@) {
            reader::record_expected(state, pos, reader::quoted("TYPE_ID"@))
        } else if reader::token_at(bytes, pos, "TYPE_SHORT_NAME"@) {
            reader::record_expected(reader::record_expected(state, pos, reader::quoted("TYPE_ID"@)), pos, reader::quoted("TYPE_NAME"@))
        } else if reader::token_at(bytes, pos, "FIELD_COUNT"@) {
            reader::record_expected(reader::record_expected(reader::record_expected(state, pos, reader::quoted("TYPE_ID"@)), pos, reader::quoted("TYPE_NAME"@)), pos, reader::quoted("TYPE_SHORT_NAME"@))
        } else if reader::token_at(bytes, pos, "FIELD_NAME"@) {
            reader::record_expected(reader::record_expected(reader::record_expected(reader::record_expected(state, pos, reader::quoted("TYPE_ID"@)), pos, reader::quoted("TYPE_NAME"@)), pos, reader::quoted("TYPE_SHORT_NAME"@)), pos, reader::quoted("FIELD_COUNT"@))
        } else if reader::token_at(bytes, pos, "FIELD_DEFAULT_EXPRESSION"@) {
            reader::record_expected(reader::record_expected(reader::record_expected(reader::record_expected(reader::record_expected(state, pos, reader::quoted("TYPE_ID"@)), pos, reader::quoted("TYPE_NAME"@)), pos, reader::quoted("TYPE_SHORT_NAME"@)), pos, reader::quoted("FIELD_COUNT"@)), pos, reader::quoted("FIELD_NAME"@))
        } else if reader::token_at(bytes, pos, "VARIANT_COUNT"@) {
            reader::record_expected(reader::record_expected(reader::record_expected(reader::record_expected(reader::record_expected(reader::record_expected(state, pos, reader::quoted("TYPE_ID"@)), pos, reader::quoted("TYPE_NAME"@)), pos, reader::quoted("TYPE_SHORT_NAME"@)), pos, reader::quoted("FIELD_COUNT"@)), pos, reader::quoted("FIELD_NAME"@)), pos, reader::quoted("FIELD_DEFAULT_EXPRESSION"@))
        } else if reader::token_at(bytes, pos, "VARIANT_NAME"@) {
            reader::record_expected(reader::record_expected(reader::record_expected(reader::record_expected(reader::record_expected(reader::record_expected(reader::record_expected(state, pos, reader::quoted("TYPE_ID"@)), pos, reader::quoted("TYPE_NAME"@)), pos, reader::quoted("TYPE_SHORT_NAME"@)), pos, reader::quoted("FIELD_COUNT"@)), pos, reader::quoted("FIELD_NAME"@)), pos, reader::quoted("FIELD_DEFAULT_EXPRESSION"@)), pos, reader::quoted("VARIANT_COUNT"@))
        } else if reader::token_at(bytes, pos, "VARIANT_VALUE"@) {
            reader::record_expected(reader::record_expected(reader::record_expected(reader::record_expected(reader::record_expected(reader::record_expected(reader::record_expected(reader::record_expected(state, pos, reader::quoted("TYPE_ID"@)), pos, reader::quoted("TYPE_NAME"@)), pos, reader::quoted("TYPE_SHORT_NAME"@)), pos, reader::quoted("FIELD_COUNT"@)), pos, reader::quoted("FIELD_NAME"@)), pos, reader::quoted("FIELD_DEFAULT_EXPRESSION"@)), pos, reader::quoted("VARIANT_COUNT"@)), pos, reader::quoted("VARIANT_NAME"@))
        } else if reader::token_at(bytes, pos, "ANCESTOR_ID"@) {
            reader::record_expected(reader::record_expected(reader::record_expected(reader::record_expected(reader::record_expected(reader::record_expected(reader::record_expected(reader::record_expected(reader::record_expected(state, pos, reader::quoted("TYPE_ID"@)), pos, reader::quoted("TYPE_NAME"@)), pos, reader::quoted("TYPE_SHORT_NAME"@)), pos, reader::quoted("FIELD_COUNT"@)), pos, reader::quoted("FIELD_NAME"@)), pos, reader::quoted("FIELD_DEFAULT_EXPRESSION"@)), pos, reader::quoted("VARIANT_COUNT"@)), pos, reader::quoted("VARIANT_NAME"@)), pos, reader::quoted("VARIANT_VALUE"@))
        } else if reader::token_at(bytes, pos, "ANCESTOR_NAME"@) {
            reader::record_expected(reader::record_expected(reader::record_expected(reader::record_expected(reader::record_expected(reader::record_expected(reader::record_expected(reader::record_expected(reader::record_expected(reader::record_expected(state, pos, reader::quoted("TYPE_ID"@)), pos, reader::quoted("TYPE_NAME"@)), pos, reader::quoted("TYPE_SHORT_NAME"@)), pos, reader::quoted("FIELD_COUNT"@)), pos, reader::quoted("FIELD_NAME"@)), pos, reader::quoted("FIELD_DEFAULT_EXPRESSION"@)), pos, reader::quoted("VARIANT_COUNT"@)), pos, reader::quoted("VARIANT_NAME"@)), pos, reader::quoted("VARIANT_VALUE"@)), pos, reader::quoted("ANCESTOR_ID"@))
        } else {
            reader::record_expected(reader::record_expected(reader::record_expected(reader::record_expected(reader::record_expected(reader::record_expected(reader::record_expected(reader::record_expected(reader::record_expected(reader::record_expected(reader::record_expected(state, pos, reader::quoted("TYPE_ID"@)), pos, reader::quoted("TYPE_NAME"@)), pos, reader::quoted("TYPE_SHORT_NAME"@)), pos, reader::quoted("FIELD_COUNT"@)), pos, reader::quoted("FIELD_NAME"@)), pos, reader::quoted("FIELD_DEFAULT_EXPRESSION"@)), pos, reader::quoted("VARIANT_COUNT"@)), pos, reader::quoted("VARIANT_NAME"@)), pos, reader::quoted("VARIANT_VALUE"@)), pos, reader::quoted("ANCESTOR_ID"@)), pos, reader::quoted("ANCESTOR_NAME"@))
        }
    }

    pub fn parse_item(reader: &mut Reader) -> (result: Option<Self>)
        requires
            old(reader).wf(),
        ensures
            final(reader).wf(),
            final(reader).same_text(old(reader)),
            final(reader).error_state() == Self::spec_parse_errors(old(reader).bytes(), old(reader).pos(), old(reader).error_state()),
            match Self::spec_parse(old(reader).bytes(), old(reader).pos(), old(reader).comment()) {
                Some((value, end)) => result == Some(value) && final(reader).pos() == end,
                None => result is None && final(reader).pos() == old(reader).pos(),
            },
    {
        proof {
            reveal_strlit("TYPE_ID");
            reveal_strlit("TYPE_NAME");
            reveal_strlit("TYPE_SHORT_NAME");
            reveal_strlit("FIELD_COUNT");
            reveal_strlit("FIELD_NAME");
            reveal_strlit("FIELD_DEFAULT_EXPRESSION");
            reveal_strlit("VARIANT_COUNT");
            reveal_strlit("VARIANT_NAME");
            reveal_strlit("VARIANT_VALUE");
            reveal_strlit("ANCESTOR_ID");
            reveal_strlit("ANCESTOR_NAME");
        }
        if reader.read_string("TYPE_ID") {
            reader.eat_spaces();
            return Some(MacroExpressionValue::TypeId);
        }
        reader.set_expected_string("TYPE_ID");
        if reader.read_string("TYPE_NAME") {
            reader.eat_spaces();
            return Some(MacroExpressionValue::TypeName);
        }
        reader.set_expected_string("TYPE_NAME");
        if reader.read_string("TYPE_SHORT_NAME") {
            reader.eat_spaces();
            return Some(MacroExpressionValue::TypeShortName);
        }
        reader.set_expected_string("TYPE_SHORT_NAME");
        if reader.read_string("FIELD_COUNT") {
            reader.eat_spaces();
            return Some(MacroExpressionValue::FieldCount);
        }
        reader.set_expected_string("FIELD_COUNT");
        if reader.read_string("FIELD_NAME") {
            reader.eat_spaces();
            return Some(MacroExpressionValue::FieldName);
        }
        reader.set_expected_string("FIELD_NAME");
        if reader.read_string("FIELD_DEFAULT_EXPRESSION") {
            reader.eat_spaces();
            return Some(MacroExpressionValue::FieldDefaultExpression);
        }
        reader.set_expected_string("FIELD_DEFAULT_EXPRESSION");
        if reader.read_string("VARIANT_COUNT") {
            reader.eat_spaces();
            return Some(MacroExpressionValue::VariantCount);
        }
        reader.set_expected_string("VARIANT_COUNT");
        if reader.read_string("VARIANT_NAME") {
            reader.eat_spaces();
            return Some(MacroExpressionValue::VariantName);
        }
        reader.set_expected_string("VARIANT_NAME");
        if reader.read_string("VARIANT_VALUE") {
            reader.eat_spaces();
            return Some(MacroExpressionValue::VariantValue);
        }
        reader.set_expected_string("VARIANT_VALUE");
        if reader.read_string("ANCESTOR_ID") {
            reader.eat_spaces();
            return Some(MacroExpressionValue::AncestorId);
        }
        reader.set_expected_string("ANCESTOR_ID");
        if reader.read_string("ANCESTOR_NAME") {
            reader.eat_spaces();
            return Some(MacroExpressionValue::AncestorName);
        }
        reader.set_expected_string("ANCESTOR_NAME");
        None
    }
}

/// Each value is read back from its own text.
pub proof fn law_text_parses_back(value: MacroExpressionValue, comment: Option<Seq<u8>>)
    ensures
        MacroExpressionValue::spec_parse(encode_utf8(value.spec_text()), 0, comment) matches Some((v, _)) && v == value,
{
    reveal_strlit("TYPE_ID");
    reveal_strlit("TYPE_NAME");
    reveal_strlit("TYPE_SHORT_NAME");
    reveal_strlit("FIELD_COUNT");
    reveal_strlit("FIELD_NAME");
    reveal_strlit("FIELD_DEFAULT_EXPRESSION");
    reveal_strlit("VARIANT_COUNT");
    reveal_strlit("VARIANT_NAME");
    reveal_strlit("VARIANT_VALUE");
    reveal_strlit("ANCESTOR_ID");
    reveal_strlit("ANCESTOR_NAME");
    let text = value.spec_text();
    assert(is_ascii_chars(text));
    match value {
        MacroExpressionValue::TypeId => {
            assert(is_ascii_chars("TYPE_ID"@));
            reader::lemma_ascii_token_at_start(text, "TYPE_ID"@);
            assert(text.subrange(0, text.len() as int) =~= text);
        },
        MacroExpressionValue::TypeName => {
            assert(is_ascii_chars("TYPE_ID"@));
            reader::lemma_ascii_token_at_start(text, "TYPE_ID"@);
            assert(text.subrange(0, 7)[5] != "TYPE_ID"@[5]);
            assert(is_ascii_chars("TYPE_NAME"@));
            reader::lemma_ascii_token_at_start(text, "TYPE_NAME"@);
            assert(text.subrange(0, text.len() as int) =~= text);
        },
        MacroExpressionValue::TypeShortName => {
            assert(is_ascii_chars("TYPE_ID"@));
            reader::lemma_ascii_token_at_start(text, "TYPE_ID"@);
            assert(text.subrange(0, 7)[5] != "TYPE_ID"@[5]);
            assert(is_ascii_chars("TYPE_NAME"@));
            reader::lemma_ascii_token_at_start(text, "TYPE_NAME"@);
            assert(text.subrange(0, 9)[5] != "TYPE_NAME"@[5]);
            assert(is_ascii_chars("TYPE_SHORT_NAME"@));
            reader::lemma_ascii_token_at_start(text, "TYPE_SHORT_NAME"@);
            assert(text.subrange(0, text.len() as int) =~= text);
        },
        MacroExpressionValue::FieldCount => {
            assert(is_ascii_chars("TYPE_ID"@));
            reader::lemma_ascii_token_at_start(text, "TYPE_ID"@);
            assert(text.subrange(0, 7)[0] != "TYPE_ID"@[0]);
            assert(is_ascii_chars("TYPE_NAME"@));
            reader::lemma_ascii_token_at_start(text, "TYPE_NAME"@);
            assert(text.subrange(0, 9)[0] != "TYPE_NAME"@[0]);
            assert(is_ascii_chars("TYPE_SHORT_NAME"@));
            reader::lemma_ascii_token_at_start(text, "TYPE_SHORT_NAME"@);
            assert(is_ascii_chars("FIELD_COUNT"@));
            reader::lemma_ascii_token_at_start(text, "FIELD_COUNT"@);
            assert(text.subrange(0, text.len() as int) =~= text);
        },
        MacroExpressionValue::FieldName => {
            assert(is_ascii_chars("TYPE_ID"@));
            reader::lemma_ascii_token_at_start(text, "TYPE_ID"@);
            assert(text.subrange(0, 7)[0] != "TYPE_ID"@[0]);
            assert(is_ascii_chars("TYPE_NAME"@));
            reader::lemma_ascii_token_at_start(text, "TYPE_NAME"@);
            assert(text.subrange(0, 9)[0] != "TYPE_NAME"@[0]);
            assert(is_ascii_chars("TYPE_SHORT_NAME"@));
            reader::lemma_ascii_token_at_start(text, "TYPE_SHORT_NAME"@);
            assert(is_ascii_chars("FIELD_COUNT"@));
            reader::lemma_ascii_token_at_start(text, "FIELD_COUNT"@);
            assert(is_ascii_chars("FIELD_NAME"@));
            reader::lemma_ascii_token_at_start(text, "FIELD_NAME"@);
            assert(text.subrange(0, text.len() as int) =~= text);
        },
        MacroExpressionValue::FieldDefaultExpression => {
            assert(is_ascii_chars("TYPE_ID"@));
            reader::lemma_ascii_token_at_start(text, "TYPE_ID"@);
            assert(text.subrange(0, 7)[0] != "TYPE_ID"@[0]);
            assert(is_ascii_chars("TYPE_NAME"@));
            reader::lemma_ascii_token_at_start(text, "TYPE_NAME"@);
            assert(text.subrange(0, 9)[0] != "TYPE_NAME"@[0]);
            assert(is_ascii_chars("TYPE_SHORT_NAME"@));
            reader::lemma_ascii_token_at_start(text, "TYPE_SHORT_NAME"@);
            assert(text.subrange(0, 15)[0] != "TYPE_SHORT_NAME"@[0]);
            assert(is_ascii_chars("FIELD_COUNT"@));
            reader::lemma_ascii_token_at_start(text, "FIELD_COUNT"@);
            assert(text.subrange(0, 11)[6] != "FIELD_COUNT"@[6]);
            assert(is_ascii_chars("FIELD_NAME"@));
            reader::lemma_ascii_token_at_start(text, "FIELD_NAME"@);
            assert(text.subrange(0, 10)[6] != "FIELD_NAME"@[6]);
            assert(is_ascii_chars("FIELD_DEFAULT_EXPRESSION"@));
            reader::lemma_ascii_token_at_start(text, "FIELD_DEFAULT_EXPRESSION"@);
            assert(text.subrange(0, text.len() as int) =~= text);
        },
        MacroExpressionValue::VariantCount => {
            assert(is_ascii_chars("TYPE_ID"@));
            reader::lemma_ascii_token_at_start(text, "TYPE_ID"@);
            assert(text.subrange(0, 7)[0] != "TYPE_ID"@[0]);
            assert(is_ascii_chars("TYPE_NAME"@));
            reader::lemma_ascii_token_at_start(text, "TYPE_NAME"@);
            assert(text.subrange(0, 9)[0] != "TYPE_NAME"@[0]);
            assert(is_ascii_chars("TYPE_SHORT_NAME"@));
            reader::lemma_ascii_token_at_start(text, "TYPE_SHORT_NAME"@);
            assert(is_ascii_chars("FIELD_COUNT"@));
            reader::lemma_ascii_token_at_start(text, "FIELD_COUNT"@);
            assert(text.subrange(0, 11)[0] != "FIELD_COUNT"@[0]);
            assert(is_ascii_chars("FIELD_NAME"@));
            reader::lemma_ascii_token_at_start(text, "FIELD_NAME"@);
            assert(text.subrange(0, 10)[0] != "FIELD_NAME"@[0]);
            assert(is_ascii_chars("FIELD_DEFAULT_EXPRESSION"@));
            reader::lemma_ascii_token_at_start(text, "FIELD_DEFAULT_EXPRESSION"@);
            assert(is_ascii_chars("VARIANT_COUNT"@));
            reader::lemma_ascii_token_at_start(text, "VARIANT_COUNT"@);
            assert(text.subrange(0, text.len() as int) =~= text);
        },
        MacroExpressionValue::VariantName => {
            assert(is_ascii_chars("TYPE_ID"@));
            reader::lemma_ascii_token_at_start(text, "TYPE_ID"@);
            assert(text.subrange(0, 7)[0] != "TYPE_ID"@[0]);
            assert(is_ascii_chars("TYPE_NAME"@));
            reader::lemma_ascii_token_at_start(text, "TYPE_NAME"@);
            assert(text.subrange(0, 9)[0] != "TYPE_NAME"@[0]);
            assert(is_ascii_chars("TYPE_SHORT_NAME"@));
            reader::lemma_ascii_token_at_start(text, "TYPE_SHORT_NAME"@);
            assert(is_ascii_chars("FIELD_COUNT"@));
            reader::lemma_ascii_token_at_start(text, "FIELD_COUNT"@);
            assert(text.subrange(0, 11)[0] != "FIELD_COUNT"@[0]);
            assert(is_ascii_chars("FIELD_NAME"@));
            reader::lemma_ascii_token_at_start(text, "FIELD_NAME"@);
            assert(text.subrange(0, 10)[0] != "FIELD_NAME"@[0]);
            assert(is_ascii_chars("FIELD_DEFAULT_EXPRESSION"@));
            reader::lemma_ascii_token_at_start(text, "FIELD_DEFAULT_EXPRESSION"@);
            assert(is_ascii_chars("VARIANT_COUNT"@));
            reader::lemma_ascii_token_at_start(text, "VARIANT_COUNT"@);
            assert(is_ascii_chars("VARIANT_NAME"@));
            reader::lemma_ascii_token_at_start(text, "VARIANT_NAME"@);
            assert(text.subrange(0, text.len() as int) =~= text);
        },
        MacroExpressionValue::VariantValue => {
            assert(is_ascii_chars("TYPE_ID"@));
            reader::lemma_ascii_token_at_start(text, "TYPE_ID"@);
            assert(text.subrange(0, 7)[0] != "TYPE_ID"@[0]);
            assert(is_ascii_chars("TYPE_NAME"@));
            reader::lemma_ascii_token_at_start(text, "TYPE_NAME"@);
            assert(text.subrange(0, 9)[0] != "TYPE_NAME"@[0]);
            assert(is_ascii_chars("TYPE_SHORT_NAME"@));
            reader::lemma_ascii_token_at_start(text, "TYPE_SHORT_NAME"@);
            assert(is_ascii_chars("FIELD_COUNT"@));
            reader::lemma_ascii_token_at_start(text, "FIELD_COUNT"@);
            assert(text.subrange(0, 11)[0] != "FIELD_COUNT"@[0]);
            assert(is_ascii_chars("FIELD_NAME"@));
            reader::lemma_ascii_token_at_start(text, "FIELD_NAME"@);
            assert(text.subrange(0, 10)[0] != "FIELD_NAME"@[0]);
            assert(is_ascii_chars("FIELD_DEFAULT_EXPRESSION"@));
            reader::lemma_ascii_token_at_start(text, "FIELD_DEFAULT_EXPRESSION"@);
            assert(is_ascii_chars("VARIANT_COUNT"@));
            reader::lemma_ascii_token_at_start(text, "VARIANT_COUNT"@);
            assert(text.subrange(0, 13)[8] != "VARIANT_COUNT"@[8]);
            assert(is_ascii_chars("VARIANT_NAME"@));
            reader::lemma_ascii_token_at_start(text, "VARIANT_NAME"@);
            assert(text.subrange(0, 12)[8] != "VARIANT_NAME"@[8]);
            assert(is_ascii_chars("VARIANT_VALUE"@));
            reader::lemma_ascii_token_at_start(text, "VARIANT_VALUE"@);
            assert(text.subrange(0, text.len() as int) =~= text);
        },
        MacroExpressionValue::AncestorId => {
            assert(is_ascii_chars("TYPE_ID"@));
            reader::lemma_ascii_token_at_start(text, "TYPE_ID"@);
            assert(text.subrange(0, 7)[0] != "TYPE_ID"@[0]);
            assert(is_ascii_chars("TYPE_NAME"@));
            reader::lemma_ascii_token_at_start(text, "TYPE_NAME"@);
            assert(text.subrange(0, 9)[0] != "TYPE_NAME"@[0]);
            assert(is_ascii_chars("TYPE_SHORT_NAME"@));
            reader::lemma_ascii_token_at_start(text, "TYPE_SHORT_NAME"@);
            assert(is_ascii_chars("FIELD_COUNT"@));
            reader::lemma_ascii_token_at_start(text, "FIELD_COUNT"@);
            assert(text.subrange(0, 11)[0] != "FIELD_COUNT"@[0]);
            assert(is_ascii_chars("FIELD_NAME"@));
            reader::lemma_ascii_token_at_start(text, "FIELD_NAME"@);
            assert(text.subrange(0, 10)[0] != "FIELD_NAME"@[0]);
            assert(is_ascii_chars("FIELD_DEFAULT_EXPRESSION"@));
            reader::lemma_ascii_token_at_start(text, "FIELD_DEFAULT_EXPRESSION"@);
            assert(is_ascii_chars("VARIANT_COUNT"@));
            reader::lemma_ascii_token_at_start(text, "VARIANT_COUNT"@);
            assert(is_ascii_chars("VARIANT_NAME"@));
            reader::lemma_ascii_token_at_start(text, "VARIANT_NAME"@);
            assert(is_ascii_chars("VARIANT_VALUE"@));
            reader::lemma_ascii_token_at_start(text, "VARIANT_VALUE"@);
            assert(is_ascii_chars("ANCESTOR_ID"@));
            reader::lemma_ascii_token_at_start(text, "ANCESTOR_ID"@);
            assert(text.subrange(0, text.len() as int) =~= text);
        },
        MacroExpressionValue::AncestorName => {
            assert(is_ascii_chars("TYPE_ID"@));
            reader::lemma_ascii_token_at_start(text, "TYPE_ID"@);
            assert(text.subrange(0, 7)[0] != "TYPE_ID"@[0]);
            assert(is_ascii_chars("TYPE_NAME"@));
            reader::lemma_ascii_token_at_start(text, "TYPE_NAME"@);
            assert(text.subrange(0, 9)[0] != "TYPE_NAME"@[0]);
            assert(is_ascii_chars("TYPE_SHORT_NAME"@));
            reader::lemma_ascii_token_at_start(text, "TYPE_SHORT_NAME"@);
            assert(is_ascii_chars("FIELD_COUNT"@));
            reader::lemma_ascii_token_at_start(text, "FIELD_COUNT"@);
            assert(text.subrange(0, 11)[0] != "FIELD_COUNT"@[0]);
            assert(is_ascii_chars("FIELD_NAME"@));
            reader::lemma_ascii_token_at_start(text, "FIELD_NAME"@);
            assert(text.subrange(0, 10)[0] != "FIELD_NAME"@[0]);
            assert(is_ascii_chars("FIELD_DEFAULT_EXPRESSION"@));
            reader::lemma_ascii_token_at_start(text, "FIELD_DEFAULT_EXPRESSION"@);
            assert(is_ascii_chars("VARIANT_COUNT"@));
            reader::lemma_ascii_token_at_start(text, "VARIANT_COUNT"@);
            assert(text.subrange(0, 13)[0] != "VARIANT_COUNT"@[0]);
            assert(is_ascii_chars("VARIANT_NAME"@));
            reader::lemma_ascii_token_at_start(text, "VARIANT_NAME"@);
            assert(text.subrange(0, 12)[0] != "VARIANT_NAME"@[0]);
            assert(is_ascii_chars("VARIANT_VALUE"@));
            reader::lemma_ascii_token_at_start(text, "VARIANT_VALUE"@);
            assert(text.subrange(0, 13)[0] != "VARIANT_VALUE"@[0]);
            assert(is_ascii_chars("ANCESTOR_ID"@));
            reader::lemma_ascii_token_at_start(text, "ANCESTOR_ID"@);
            assert(text.subrange(0, 11)[9] != "ANCESTOR_ID"@[9]);
            assert(is_ascii_chars("ANCESTOR_NAME"@));
            reader::lemma_ascii_token_at_start(text, "ANCESTOR_NAME"@);
            assert(text.subrange(0, text.len() as int) =~= text);
        },
    }
}

} // verus!
