//! The keywords that start a control-flow statement.
use vstd::prelude::*;
use vstd::utf8::{encode_utf8, is_ascii_chars};
use crate::reader;
use crate::reader::{ItemLocation, Reader};

verus! {

/// A control-flow keyword at its place in the source.
pub struct ActionKeywordWrapper {
    pub location: ItemLocation,
    pub value: ActionKeyword,
}

impl ActionKeywordWrapper {
    /// The parsed value, where the item's location ends and where the reader then stands.
    pub open spec fn spec_parse(bytes: Seq<u8>, pos: int, comment: Option<Seq<u8>>) -> Option<(ActionKeyword, int, int)> {
        match ActionKeyword::spec_parse(bytes, pos, comment) {
            Some((value, after)) => {
                let end = reader::eat_spaces_from(bytes, after, comment);
                Some((value, reader::backtrack_blanks(bytes, end), end))
            },
            None => None,
        }
    }

    pub fn parse_item(reader: &mut Reader) -> (result: Option<Self>)
        requires
            old(reader).wf(),
        ensures
            final(reader).wf(),
            final(reader).same_text(old(reader)),
            final(reader).error_state() == ({
                let errors = ActionKeyword::spec_parse_errors(old(reader).bytes(), old(reader).pos(), old(reader).error_state());
                if ActionKeyword::spec_parse(old(reader).bytes(), old(reader).pos(), old(reader).comment()) is Some {
                    errors
                } else {
                    reader::record_expected(errors, old(reader).pos(), "ActionKeyword"@)
                }
            }),
            match Self::spec_parse(old(reader).bytes(), old(reader).pos(), old(reader).comment()) {
                Some((value, location_end, end)) => {
                    &&& result matches Some(item)
                    &&& item.value == value
                    &&& item.location.file_path@ == old(reader).path()
                    &&& item.location.start == old(reader).pos()
                    &&& item.location.end == location_end
                    &&& final(reader).pos() == end
                },
                None => result is None && final(reader).pos() == old(reader).pos(),
            },
    {
        let start = reader.get_index();
        match ActionKeyword::parse_item(reader) {
            Some(value) => {
                reader.eat_spaces();
                let location = reader.get_item_location(start);
                Some(ActionKeywordWrapper { location, value })
            },
            None => {
                reader.set_expected_entity(String::from_str("ActionKeyword"));
                reader.set_index(start);
                None
            },
        }
    }
}

/// The keywords that start an action: leaving a function or a loop.
#[derive(Clone, Copy, Debug, PartialEq, Eq, Structural)]
pub enum ActionKeyword {
    Return,
    Check,
    Break,
    Continue,
}

impl ActionKeyword {
    /// The text of the keyword.
    pub open spec fn spec_text(self) -> Seq<char> {
        match self {
            ActionKeyword::Return => "return"@,
            ActionKeyword::Check => "check"@,
            ActionKeyword::Break => "break"@,
            ActionKeyword::Continue => "continue"@,
        }
    }

    /// The keyword that the parser reads at `pos`, tried in declaration order,
    /// and where the reader then stands.
    pub open spec fn spec_parse(bytes: Seq<u8>, pos: int, comment: Option<Seq<u8>>) -> Option<(Self, int)> {
        if reader::token_at(bytes, pos, "return"@) {
            Some((ActionKeyword::Return, reader::after_token(bytes, pos, "return"@, comment)))
        } else if reader::token_at(bytes, pos, "check"@) {
            Some((ActionKeyword::Check, reader::after_token(bytes, pos, "check"@, comment)))
        } else if reader::token_at(bytes, pos, "break"@) {
            Some((ActionKeyword::Break, reader::after_token(bytes, pos, "break"@, comment)))
        } else if reader::token_at(bytes, pos, "continue"@) {
            Some((ActionKeyword::Continue, reader::after_token(bytes, pos, "continue"@, comment)))
        } else {
            None
        }
    }

    pub fn as_str(&self) -> (result: &'static str)
        ensures
            result@ == self.spec_text(),
    {
        match self {
            ActionKeyword::Return => "return",
            ActionKeyword::Check => "check",
            ActionKeyword::Break => "break",
            ActionKeyword::Continue => "continue",
        }
    }

    /// What the parser records of the keywords that it tried and missed at
    /// `pos` before the one it read (all of them when it read none).
    pub open spec fn spec_parse_errors(bytes: Seq<u8>, pos: int, state: reader::ErrorState) -> reader::ErrorState {
        if reader::token_at(bytes, pos, "return"@) {
            state
        } else if reader::token_at(bytes, pos, "check"@) {
            reader::record_expected(state, pos, reader::quoted("return"@))
        } else if reader::token_at(bytes, pos, "break"@) {
            reader::record_expected(reader::record_expected(state, pos, reader::quoted("return"@)), pos, reader::quoted("check"@))
        } else if reader::token_at(bytes, pos, "continue"@) {
            reader::record_expected(reader::record_expected(reader::record_expected(state, pos, reader::quoted("return"@)), pos, reader::quoted("check"@)), pos, reader::quoted("break"@))
        } else {
            reader::record_expected(reader::record_expected(reader::record_expected(reader::record_expected(state, pos, reader::quoted("return"@)), pos, reader::quoted("check"@)), pos, reader::quoted("break"@)), pos, reader::quoted("continue"@))
        }
    }

    pub fn parse_item(reader: &mut Reader) -> (result: Option<Self>)
        requires
            old(reader).wf(),
        ensures
            final(reader).wf(),
            final(reader).same_text(old(reader)),
            final(reader).error_state() == Self::spec_parse_errors(old(reader).bytes(), old(reader).pos(), old(reader).error_state()),
            match Self::spec_parse(old(reader).bytes(), old(reader).pos(), old(reader).comment()) {
                Some((value, end)) => result == Some(value) && final(reader).pos() == end,
                None => result is None && final(reader).pos() == old(reader).pos(),
            },
    {
        proof {
            reveal_strlit("return");
            reveal_strlit("check");
            reveal_strlit("break");
            reveal_strlit("continue");
        }
        if reader.read_string("return") {
            reader.eat_spaces();
            return Some(ActionKeyword::Return);
        }
        reader.set_expected_string("return");
        if reader.read_string("check") {
            reader.eat_spaces();
            return Some(ActionKeyword::Check);
        }
        reader.set_expected_string("check");
        if reader.read_string("break") {
            reader.eat_spaces();
            return Some(ActionKeyword::Break);
        }
        reader.set_expected_string("break");
        if reader.read_string("continue") {
            reader.eat_spaces();
            return Some(ActionKeyword::Continue);
        }
        reader.set_expected_string("continue");
        None
    }
}

/// Each value is read back from its own text.
pub proof fn law_text_parses_back(value: ActionKeyword, comment: Option<Seq<u8>>)
    ensures
        ActionKeyword::spec_parse(encode_utf8(value.spec_text()), 0, comment) matches Some((v, _)) && v == value,
{
    reveal_strlit("return");
    reveal_strlit("check");
    reveal_strlit("break");
    reveal_strlit("continue");
    let text = value.spec_text();
    assert(is_ascii_chars(text));
    match value {
        ActionKeyword::Return => {
            assert(is_ascii_chars("return"@));
            reader::lemma_ascii_token_at_start(text, "return"@);
            assert(text.subrange(0, text.len() as int) =~= text);
        },
        ActionKeyword::Check => {
            assert(is_ascii_chars("return"@));
            reader::lemma_ascii_token_at_start(text, "return"@);
            assert(is_ascii_chars("check"@));
            reader::lemma_ascii_token_at_start(text, "check"@);
            assert(text.subrange(0, text.len() as int) =~= text);
        },
        ActionKeyword::Break => {
            assert(is_ascii_chars("return"@));
            reader::lemma_ascii_token_at_start(text, "return"@);
            assert(is_ascii_chars("check"@));
            reader::lemma_ascii_token_at_start(text, "check"@);
            assert(text.subrange(0, 5)[0] != "check"@[0]);
            assert(is_ascii_chars("break"@));
            reader::lemma_ascii_token_at_start(text, "break"@);
            assert(text.subrange(0, text.len() as int) =~= text);
        },
        ActionKeyword::Continue => {
            assert(is_ascii_chars("return"@));
            reader::lemma_ascii_token_at_start(text, "return"@);
            assert(text.subrange(0, 6)[0] != "return"@[0]);
            assert(is_ascii_chars("check"@));
            reader::lemma_ascii_token_at_start(text, "check"@);
            assert(text.subrange(0, 5)[1] != "check"@[1]);
            assert(is_ascii_chars("break"@));
            reader::lemma_ascii_token_at_start(text, "break"@);
            assert(text.subrange(0, 5)[0] != "break"@[0]);
            assert(is_ascii_chars("continue"@));
            reader::lemma_ascii_token_at_start(text, "continue"@);
            assert(text.subrange(0, text.len() as int) =~= text);
        },
    }
}

} // verus!
