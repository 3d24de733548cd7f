//! Macros that stand for a name, such as `#FIELD_NAME`.
use vstd::prelude::*;
use vstd::utf8::{encode_utf8, is_ascii_chars};
use crate::reader;
use crate::reader::{ItemLocation, Reader};

verus! {

/// A macro that stands for a name, such as `#FIELD_NAME`.
pub struct MacroIdentifier {
    pub location: ItemLocation,
    pub value: MacroIdentifierValue,
}

impl MacroIdentifier {
    /// The parsed value, where the item's location ends and where the reader then stands.
    pub open spec fn spec_parse(bytes: Seq<u8>, pos: int, comment: Option<Seq<u8>>) -> Option<(MacroIdentifierValue, int, int)> {
        if reader::token_at(bytes, pos, "#"@) {
            let p = reader::after_token(bytes, pos, "#"@, comment);
            match MacroIdentifierValue::spec_parse(bytes, p, comment) {
                Some((value, after)) => {
                    let end = reader::eat_spaces_from(bytes, after, comment);
                    Some((value, reader::backtrack_blanks(bytes, end), end))
                },
                None => None,
            }
        } else {
            None
        }
    }

    pub fn parse_item(reader: &mut Reader) -> (result: Option<Self>)
        requires
            old(reader).wf(),
        ensures
            final(reader).wf(),
            final(reader).same_text(old(reader)),
            final(reader).error_state() == if reader::token_at(old(reader).bytes(), old(reader).pos(), "#"@) {
                let p = reader::after_token(old(reader).bytes(), old(reader).pos(), "#"@, old(reader).comment());
                let errors = MacroIdentifierValue::spec_parse_errors(old(reader).bytes(), p, old(reader).error_state());
                if MacroIdentifierValue::spec_parse(old(reader).bytes(), p, old(reader).comment()) is Some {
                    errors
                } else {
                    reader::record_expected(errors, p, "MacroIdentifierValue"@)
                }
            } else {
                reader::record_expected(old(reader).error_state(), old(reader).pos(), reader::quoted("#"@))
            },
            match Self::spec_parse(old(reader).bytes(), old(reader).pos(), old(reader).comment()) {
                Some((value, location_end, end)) => {
                    &&& result matches Some(item)
                    &&& item.value == value
                    &&& item.location.file_path@ == old(reader).path()
                    &&& item.location.start == old(reader).pos()
                    &&& item.location.end == location_end
                    &&& final(reader).pos() == end
                },
                None => result is None && final(reader).pos() == old(reader).pos(),
            },
    {
        let start = reader.get_index();
        proof {
            reveal_strlit("#");
        }
        if !reader.read_string("#") {
            reader.set_expected_string("#");
            return None;
        }
        reader.eat_spaces();
        match MacroIdentifierValue::parse_item(reader) {
            Some(value) => {
                reader.eat_spaces();
                let location = reader.get_item_location(start);
                Some(MacroIdentifier { location, value })
            },
            None => {
                reader.set_expected_entity(String::from_str("MacroIdentifierValue"));
                reader.set_index(start);
                None
            },
        }
    }
}

/// The macros that stand for a name.
#[derive(Clone, Copy, Debug, PartialEq, Eq, Structural)]
pub enum MacroIdentifierValue {
    FieldName,
    WorldType,
    UserType,
    WindowType,
    LocalDataType,
}

impl MacroIdentifierValue {
    /// The text of the keyword.
    pub open spec fn spec_text(self) -> Seq<char> {
        match self {
            MacroIdentifierValue::FieldName => "FIELD_NAME"@,
            MacroIdentifierValue::WorldType => "WORLD_TYPE"@,
            MacroIdentifierValue::UserType => "USER_TYPE"@,
            MacroIdentifierValue::WindowType => "WINDOW_TYPE"@,
            MacroIdentifierValue::LocalDataType => "LOCAL_DATA_TYPE"@,
        }
    }

    /// The keyword that the parser reads at `pos`, tried in declaration order,
    /// and where the reader then stands.
    pub open spec fn spec_parse(bytes: Seq<u8>, pos: int, comment: Option<Seq<u8>>) -> Option<(Self, int)> {
        if reader::token_at(bytes, pos, "FIELD_NAME"@) {
            Some((MacroIdentifierValue::FieldName, reader::after_token(bytes, pos, "FIELD_NAME"@, comment)))
        } else if reader::token_at(bytes, pos, "WORLD_TYPE"@) {
            Some((MacroIdentifierValue::WorldType, reader::after_token(bytes, pos, "WORLD_TYPE"@, comment)))
        } else if reader::token_at(bytes, pos, "USER_TYPE"@) {
            Some((MacroIdentifierValue::UserType, reader::after_token(bytes, pos, "USER_TYPE"@, comment)))
        } else if reader::token_at(bytes, pos, "WINDOW_TYPE"@) {
            Some((MacroIdentifierValue::WindowType, reader::after_token(bytes, pos, "WINDOW_TYPE"@, comment)))
        } else if reader::token_at(bytes, pos, "LOCAL_DATA_TYPE"@) {
            Some((MacroIdentifierValue::LocalDataType, reader::after_token(bytes, pos, "LOCAL_DATA_TYPE"@, comment)))
        } else {
            None
        }
    }

    pub fn as_str(&self) -> (result: &'static str)
        ensures
            result@ == self.spec_text(),
    {
        match self {
            MacroIdentifierValue::FieldName => "FIELD_NAME",
            MacroIdentifierValue::WorldType => "WORLD_TYPE",
            MacroIdentifierValue::UserType => "USER_TYPE",
            MacroIdentifierValue::WindowType => "WINDOW_TYPE",
            MacroIdentifierValue::LocalDataType => "LOCAL_DATA_TYPE",
        }
    }

    /// What the parser records of the keywords that it tried and missed at
    /// `pos` before the one it read (all of them when it read none).
    pub open spec fn spec_parse_errors(bytes: Seq<u8>, pos: int, state: reader::ErrorState) -> reader::ErrorState {
        if reader::token_at(bytes, pos, "FIELD_NAME"@) {
            state
        } else if reader::token_at(bytes, pos, "WORLD_TYPE"@) {
            reader::record_expected(state, pos, reader::quoted("FIELD_NAME"@))
        } else if reader::token_at(bytes, pos, "USER_TYPE"@) {
            reader::record_expected(reader::record_expected(state, pos, reader::quoted("FIELD_NAME"@)), pos, reader::quoted("WORLD_TYPE"@))
        } else if reader::token_at(bytes, pos, "WINDOW_TYPE"@) {
            reader::record_expected(reader::record_expected(reader::record_expected(state, pos, reader::quoted("FIELD_NAME"@)), pos, reader::quoted("WORLD_TYPE"@)), pos, reader::quoted("USER_TYPE"@))
        } else if reader::token_at(bytes, pos, "LOCAL_DATA_TYPE"@) {
            reader::record_expected(reader::record_expected(reader::record_expected(reader::record_expected(state, pos, reader::quoted("FIELD_NAME"@)), pos, reader::quoted("WORLD_TYPE"@)), pos, reader::quoted("USER_TYPE"@)), pos, reader::quoted("WINDOW_TYPE"@))
        } else {
            reader::record_expected(reader::record_expected(reader::record_expected(reader::record_expected(reader::record_expected(state, pos, reader::quoted("FIELD_NAME"@)), pos, reader::quoted("WORLD_TYPE"@)), pos, reader::quoted("USER_TYPE"@)), pos, reader::quoted("WINDOW_TYPE"@)), pos, reader::quoted("LOCAL_DATA_TYPE"@))
        }
    }

    pub fn parse_item(reader: &mut Reader) -> (result: Option<Self>)
        requires
            old(reader).wf(),
        ensures
            final(reader).wf(),
            final(reader).same_text(old(reader)),
            final(reader).error_state() == Self::spec_parse_errors(old(reader).bytes(), old(reader).pos(), old(reader).error_state()),
            match Self::spec_parse(old(reader).bytes(), old(reader).pos(), old(reader).comment()) {
                Some((value, end)) => result == Some(value) && final(reader).pos() == end,
                None => result is None && final(reader).pos() == old(reader).pos(),
            },
    {
        proof {
            reveal_strlit("FIELD_NAME");
            reveal_strlit("WORLD_TYPE");
            reveal_strlit("USER_TYPE");
            reveal_strlit("WINDOW_TYPE");
            reveal_strlit("LOCAL_DATA_TYPE");
        }
        if reader.read_string("FIELD_NAME") {
            reader.eat_spaces();
            return Some(MacroIdentifierValue::FieldName);
        }
        reader.set_expected_string("FIELD_NAME");
        if reader.read_string("WORLD_TYPE") {
            reader.eat_spaces();
            return Some(MacroIdentifierValue::WorldType);
        }
        reader.set_expected_string("WORLD_TYPE");
        if reader.read_string("USER_TYPE") {
            reader.eat_spaces();
            return Some(MacroIdentifierValue::UserType);
        }
        reader.set_expected_string("USER_TYPE");
        if reader.read_string("WINDOW_TYPE") {
            reader.eat_spaces();
            return Some(MacroIdentifierValue::WindowType);
        }
        reader.set_expected_string("WINDOW_TYPE");
        if reader.read_string("LOCAL_DATA_TYPE") {
            reader.eat_spaces();
            return Some(MacroIdentifierValue::LocalDataType);
        }
        reader.set_expected_string("LOCAL_DATA_TYPE");
        None
    }
}

/// Each value is read back from its own text.
pub proof fn law_text_parses_back(value: MacroIdentifierValue, comment: Option<Seq<u8>>)
    ensures
        MacroIdentifierValue::spec_parse(encode_utf8(value.spec_text()), 0, comment) matches Some((v, _)) && v == value,
{
    reveal_strlit("FIELD_NAME");
    reveal_strlit("WORLD_TYPE");
    reveal_strlit("USER_TYPE");
    reveal_strlit("WINDOW_TYPE");
    reveal_strlit("LOCAL_DATA_TYPE");
    let text = value.spec_text();
    assert(is_ascii_chars(text));
    match value {
        MacroIdentifierValue::FieldName => {
            assert(is_ascii_chars("FIELD_NAME"@));
            reader::lemma_ascii_token_at_start(text, "FIELD_NAME"@);
            assert(text.subrange(0, text.len() as int) =~= text);
        },
        MacroIdentifierValue::WorldType => {
            assert(is_ascii_chars("FIELD_NAME"@));
            reader::lemma_ascii_token_at_start(text, "FIELD_NAME"@);
            assert(text.subrange(0, 10)[0] != "FIELD_NAME"@[0]);
            assert(is_ascii_chars("WORLD_TYPE"@));
            reader::lemma_ascii_token_at_start(text, "WORLD_TYPE"@);
            assert(text.subrange(0, text.len() as int) =~= text);
        },
        MacroIdentifierValue::UserType => {
            assert(is_ascii_chars("FIELD_NAME"@));
            reader::lemma_ascii_token_at_start(text, "FIELD_NAME"@);
            assert(is_ascii_chars("WORLD_TYPE"@));
            reader::lemma_ascii_token_at_start(text, "WORLD_TYPE"@);
            assert(is_ascii_chars("USER_TYPE"@));
            reader::lemma_ascii_token_at_start(text, "USER_TYPE"@);
            assert(text.subrange(0, text.len() as int) =~= text);
        },
        MacroIdentifierValue::WindowType => {
            assert(is_ascii_chars("FIELD_NAME"@));
            reader::lemma_ascii_token_at_start(text, "FIELD_NAME"@);
            assert(text.subrange(0, 10)[0] != "FIELD_NAME"@[0]);
            assert(is_ascii_chars("WORLD_TYPE"@));
            reader::lemma_ascii_token_at_start(text, "WORLD_TYPE"@);
            assert(text.subrange(0, 10)[1] != "WORLD_TYPE"@[1]);
            assert(is_ascii_chars("USER_TYPE"@));
            reader::lemma_ascii_token_at_start(text, "USER_TYPE"@);
            assert(text.subrange(0, 9)[0] != "USER_TYPE"@[0]);
            assert(is_ascii_chars("WINDOW_TYPE"@));
            reader::lemma_ascii_token_at_start(text, "WINDOW_TYPE"@);
            assert(text.subrange(0, text.len() as int) =~= text);
        },
        MacroIdentifierValue::LocalDataType => {
            assert(is_ascii_chars("FIELD_NAME"@));
            reader::lemma_ascii_token_at_start(text, "FIELD_NAME"@);
            assert(text.subrange(0, 10)[0] != "FIELD_NAME"@[0]);
            assert(is_ascii_chars("WORLD_TYPE"@));
            reader::lemma_ascii_token_at_start(text, "WORLD_TYPE"@);
            assert(text.subrange(0, 10)[0] != "WORLD_TYPE"@[0]);
            assert(is_ascii_chars("USER_TYPE"@));
            reader::lemma_ascii_token_at_start(text, "USER_TYPE"@);
            assert(text.subrange(0, 9)[0] != "USER_TYPE"@[0]);
            assert(is_ascii_chars("WINDOW_TYPE"@));
            reader::lemma_ascii_token_at_start(text, "WINDOW_TYPE"@);
            assert(text.subrange(0, 11)[0] != "WINDOW_TYPE"@[0]);
            assert(is_ascii_chars("LOCAL_DATA_TYPE"@));
            reader::lemma_ascii_token_at_start(text, "LOCAL_DATA_TYPE"@);
            assert(text.subrange(0, text.len() as int) =~= text);
        },
    }
}

} // verus!
