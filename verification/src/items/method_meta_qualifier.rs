//! The qualifier of methods that the compiler writes itself.
use vstd::prelude::*;
use vstd::utf8::{encode_utf8, is_ascii_chars};
use crate::reader;
use crate::reader::Reader;

verus! {

/// `autogen` marks a method that the compiler may replace by one declared later.
#[derive(Clone, Copy, Debug, PartialEq, Eq, Structural)]
pub enum MethodMetaQualifier {
    Autogen,
}

impl MethodMetaQualifier {
    /// The text of the keyword.
    pub open spec fn spec_text(self) -> Seq<char> {
        match self {
            MethodMetaQualifier::Autogen => "autogen"@,
        }
    }

    /// The keyword that the parser reads at `pos`, tried in declaration order,
    /// and where the reader then stands.
    pub open spec fn spec_parse(bytes: Seq<u8>, pos: int, comment: Option<Seq<u8>>) -> Option<(Self, int)> {
        if reader::token_at(bytes, pos, "autogen"@) {
            Some((MethodMetaQualifier::Autogen, reader::after_token(bytes, pos, "autogen"@, comment)))
        } else {
            None
        }
    }

    pub fn as_str(&self) -> (result: &'static str)
        ensures
            result@ == self.spec_text(),
    {
        match self {
            MethodMetaQualifier::Autogen => "autogen",
        }
    }

    /// What the parser records of the keywords that it tried and missed at
    /// `pos` before the one it read (all of them when it read none).
    pub open spec fn spec_parse_errors(bytes: Seq<u8>, pos: int, state: reader::ErrorState) -> reader::ErrorState {
        if reader::token_at(bytes, pos, "autogen"@) {
            state
        } else {
            reader::record_expected(state, pos, reader::quoted("autogen"@))
        }
    }

    pub fn parse_item(reader: &mut Reader) -> (result: Option<Self>)
        requires
            old(reader).wf(),
        ensures
            final(reader).wf(),
            final(reader).same_text(old(reader)),
            final(reader).error_state() == Self::spec_parse_errors(old(reader).bytes(), old(reader).pos(), old(reader).error_state()),
            match Self::spec_parse(old(reader).bytes(), old(reader).pos(), old(reader).comment()) {
                Some((value, end)) => result == Some(value) && final(reader).pos() == end,
                None => result is None && final(reader).pos() == old(reader).pos(),
            },
    {
        proof {
            reveal_strlit("autogen");
        }
        if reader.read_string("autogen") {
            reader.eat_spaces();
            return Some(MethodMetaQualifier::Autogen);
        }
        reader.set_expected_string("autogen");
        None
    }
}

/// Each value is read back from its own text.
pub proof fn law_text_parses_back(value: MethodMetaQualifier, comment: Option<Seq<u8>>)
    ensures
        MethodMetaQualifier::spec_parse(encode_utf8(value.spec_text()), 0, comment) matches Some((v, _)) && v == value,
{
    reveal_strlit("autogen");
    let text = value.spec_text();
    assert(is_ascii_chars(text));
    match value {
        MethodMetaQualifier::Autogen => {
            assert(is_ascii_chars("autogen"@));
            reader::lemma_ascii_token_at_start(text, "autogen"@);
            assert(text.subrange(0, text.len() as int) =~= text);
        },
    }
}

} // verus!
