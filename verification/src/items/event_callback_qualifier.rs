//! The sign that starts an event callback declaration.
use vstd::prelude::*;
use vstd::utf8::{encode_utf8, is_ascii_chars};
use crate::reader;
use crate::reader::{ItemLocation, Reader};

verus! {

/// The sign that starts an event callback declaration.
pub struct EventCallbackQualifierKeyword {
    pub location: ItemLocation,
    pub value: EventCallbackQualifierKeywordValue,
}

impl EventCallbackQualifierKeyword {
    /// The parsed value, where the item's location ends and where the reader then stands.
    pub open spec fn spec_parse(bytes: Seq<u8>, pos: int, comment: Option<Seq<u8>>) -> Option<(EventCallbackQualifierKeywordValue, int, int)> {
        match EventCallbackQualifierKeywordValue::spec_parse(bytes, pos, comment) {
            Some((value, after)) => {
                let end = reader::eat_spaces_from(bytes, after, comment);
                Some((value, reader::backtrack_blanks(bytes, end), end))
            },
            None => None,
        }
    }

    pub fn parse_item(reader: &mut Reader) -> (result: Option<Self>)
        requires
            old(reader).wf(),
        ensures
            final(reader).wf(),
            final(reader).same_text(old(reader)),
            final(reader).error_state() == ({
                let errors = EventCallbackQualifierKeywordValue::spec_parse_errors(old(reader).bytes(), old(reader).pos(), old(reader).error_state());
                if EventCallbackQualifierKeywordValue::spec_parse(old(reader).bytes(), old(reader).pos(), old(reader).comment()) is Some {
                    errors
                } else {
                    reader::record_expected(errors, old(reader).pos(), "EventCallbackQualifierKeywordValue"@)
                }
            }),
            match Self::spec_parse(old(reader).bytes(), old(reader).pos(), old(reader).comment()) {
                Some((value, location_end, end)) => {
                    &&& result matches Some(item)
                    &&& item.value == value
                    &&& item.location.file_path@ == old(reader).path()
                    &&& item.location.start == old(reader).pos()
                    &&& item.location.end == location_end
                    &&& final(reader).pos() == end
                },
                None => result is None && final(reader).pos() == old(reader).pos(),
            },
    {
        let start = reader.get_index();
        match EventCallbackQualifierKeywordValue::parse_item(reader) {
            Some(value) => {
                reader.eat_spaces();
                let location = reader.get_item_location(start);
                Some(EventCallbackQualifierKeyword { location, value })
            },
            None => {
                reader.set_expected_entity(String::from_str("EventCallbackQualifierKeywordValue"));
                reader.set_index(start);
                None
            },
        }
    }
}

/// Which events an event callback receives.
#[derive(Clone, Copy, Debug, PartialEq, Eq, Structural)]
pub enum EventCallbackQualifier {
    /// Every event of the callback's event type.
    Standard,
    /// The events whose target is the object itself.
    TargetSelf,
}

impl EventCallbackQualifierKeyword {
    /// The qualifier that the keyword stands for.
    pub fn process(&self) -> (result: EventCallbackQualifier)
        ensures
            result == match self.value {
                EventCallbackQualifierKeywordValue::Standard => EventCallbackQualifier::Standard,
                EventCallbackQualifierKeywordValue::TargetSelf => EventCallbackQualifier::TargetSelf,
            },
    {
        match &self.value {
            EventCallbackQualifierKeywordValue::Standard => EventCallbackQualifier::Standard,
            EventCallbackQualifierKeywordValue::TargetSelf => EventCallbackQualifier::TargetSelf,
        }
    }
}

/// `@` declares a callback for every event of a type, `$` one for the events
/// that target the object itself.
#[derive(Clone, Copy, Debug, PartialEq, Eq, Structural)]
pub enum EventCallbackQualifierKeywordValue {
    Standard,
    TargetSelf,
}

impl EventCallbackQualifierKeywordValue {
    /// The text of the keyword.
    pub open spec fn spec_text(self) -> Seq<char> {
        match self {
            EventCallbackQualifierKeywordValue::Standard => "@"@,
            EventCallbackQualifierKeywordValue::TargetSelf => "$"@,
        }
    }

    /// The keyword that the parser reads at `pos`, tried in declaration order,
    /// and where the reader then stands.
    pub open spec fn spec_parse(bytes: Seq<u8>, pos: int, comment: Option<Seq<u8>>) -> Option<(Self, int)> {
        if reader::token_at(bytes, pos, "@"@) {
            Some((EventCallbackQualifierKeywordValue::Standard, reader::after_token(bytes, pos, "@"@, comment)))
        } else if reader::token_at(bytes, pos, "$"@) {
            Some((EventCallbackQualifierKeywordValue::TargetSelf, reader::after_token(bytes, pos, "$"@, comment)))
        } else {
            None
        }
    }

    pub fn as_str(&self) -> (result: &'static str)
        ensures
            result@ == self.spec_text(),
    {
        match self {
            EventCallbackQualifierKeywordValue::Standard => "@",
            EventCallbackQualifierKeywordValue::TargetSelf => "$",
        }
    }

    /// What the parser records of the keywords that it tried and missed at
    /// `pos` before the one it read (all of them when it read none).
    pub open spec fn spec_parse_errors(bytes: Seq<u8>, pos: int, state: reader::ErrorState) -> reader::ErrorState {
        if reader::token_at(bytes, pos, "@"@) {
            state
        } else if reader::token_at(bytes, pos, "$"@) {
            reader::record_expected(state, pos, reader::quoted("@"@))
        } else {
            reader::record_expected(reader::record_expected(state, pos, reader::quoted("@"@)), pos, reader::quoted("$"@))
        }
    }

    pub fn parse_item(reader: &mut Reader) -> (result: Option<Self>)
        requires
            old(reader).wf(),
        ensures
            final(reader).wf(),
            final(reader).same_text(old(reader)),
            final(reader).error_state() == Self::spec_parse_errors(old(reader).bytes(), old(reader).pos(), old(reader).error_state()),
            match Self::spec_parse(old(reader).bytes(), old(reader).pos(), old(reader).comment()) {
                Some((value, end)) => result == Some(value) && final(reader).pos() == end,
                None => result is None && final(reader).pos() == old(reader).pos(),
            },
    {
        proof {
            reveal_strlit("@");
            reveal_strlit("$");
        }
        if reader.read_string("@") {
            reader.eat_spaces();
            return Some(EventCallbackQualifierKeywordValue::Standard);
        }
        reader.set_expected_string("@");
        if reader.read_string("$") {
            reader.eat_spaces();
            return Some(EventCallbackQualifierKeywordValue::TargetSelf);
        }
        reader.set_expected_string("$");
        None
    }
}

/// Each value is read back from its own text.
pub proof fn law_text_parses_back(value: EventCallbackQualifierKeywordValue, comment: Option<Seq<u8>>)
    ensures
        EventCallbackQualifierKeywordValue::spec_parse(encode_utf8(value.spec_text()), 0, comment) matches Some((v, _)) && v == value,
{
    reveal_strlit("@");
    reveal_strlit("$");
    let text = value.spec_text();
    assert(is_ascii_chars(text));
    match value {
        EventCallbackQualifierKeywordValue::Standard => {
            assert(is_ascii_chars("@"@));
            reader::lemma_ascii_token_at_start(text, "@"@);
            assert(text.subrange(0, text.len() as int) =~= text);
        },
        EventCallbackQualifierKeywordValue::TargetSelf => {
            assert(is_ascii_chars("@"@));
            reader::lemma_ascii_token_at_start(text, "@"@);
            assert(text.subrange(0, 1)[0] != "@"@[0]);
            assert(is_ascii_chars("$"@));
            reader::lemma_ascii_token_at_start(text, "$"@);
            assert(text.subrange(0, text.len() as int) =~= text);
        },
    }
}

} // verus!
