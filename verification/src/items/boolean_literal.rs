//! The literals `true` and `false`.
use vstd::prelude::*;
use crate::reader;
use crate::reader::{ItemLocation, Reader};
use crate::text::text_eq;

verus! {

/// `true` or `false`, as written.
pub struct BooleanLiteral {
    pub location: ItemLocation,
    pub value: String,
}

impl BooleanLiteral {
    /// The literal that the parser reads at `pos`: `true` or `false`, as a
    /// prefix of what stands there, with where its location ends and where the
    /// reader then stands.
    pub open spec fn spec_parse(bytes: Seq<u8>, pos: int, comment: Option<Seq<u8>>) -> Option<(Seq<char>, int, int)> {
        let text = if reader::starts_with_at(bytes, pos, vstd::utf8::encode_utf8("true"@)) {
            Some("true"@)
        } else if reader::starts_with_at(bytes, pos, vstd::utf8::encode_utf8("false"@)) {
            Some("false"@)
        } else {
            None
        };
        match text {
            Some(t) => {
                let end = reader::eat_spaces_from(bytes, pos + vstd::utf8::encode_utf8(t).len(), comment);
                Some((t, reader::backtrack_blanks(bytes, end), end))
            },
            None => None,
        }
    }

    pub fn parse_item(reader: &mut Reader) -> (result: Option<Self>)
        requires
            old(reader).wf(),
        ensures
            final(reader).wf(),
            final(reader).same_text(old(reader)),
            final(reader).same_errors(old(reader)),
            match Self::spec_parse(old(reader).bytes(), old(reader).pos(), old(reader).comment()) {
                Some((text, location_end, end)) => {
                    &&& result matches Some(item)
                    &&& item.value@ == text
                    &&& item.location.file_path@ == old(reader).path()
                    &&& item.location.start == old(reader).pos()
                    &&& item.location.end == location_end
                    &&& final(reader).pos() == end
                },
                None => result is None && final(reader).pos() == old(reader).pos(),
            },
    {
        proof {
            reveal_strlit("true");
            reveal_strlit("false");
        }
        let start = reader.get_index();
        let value = if reader.starts_with("true") {
            "true"
        } else if reader.starts_with("false") {
            "false"
        } else {
            return None;
        };
        reader.skip_text(value);
        reader.eat_spaces();
        let location = reader.get_item_location(start);
        Some(BooleanLiteral { location, value: value.to_owned() })
    }

    /// The value of the literal: 1 for `true`, 0 for `false`.
    pub fn process(&self) -> (result: i32)
        requires
            self.value@ == "true"@ || self.value@ == "false"@,
        ensures
            result == if self.value@ == "true"@ { 1i32 } else { 0i32 },
    {
        if text_eq(self.value.as_str(), "true") {
            1
        } else {
            0
        }
    }
}

} // verus!
