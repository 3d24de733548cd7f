//! The brackets of the language, each an item of its own.
use vstd::prelude::*;
use crate::reader;
use crate::reader::{ItemLocation, Reader};

verus! {

/// `(`
pub struct OpeningRoundBracket {
    pub location: ItemLocation,
    pub value: String,
}

impl OpeningRoundBracket {
    pub fn parse_item(reader: &mut Reader) -> (result: Option<Self>)
        requires
            old(reader).wf(),
        ensures
            final(reader).wf(),
            final(reader).same_text(old(reader)),
            final(reader).same_errors(old(reader)),
            match reader::token_item(old(reader).bytes(), old(reader).pos(), "("@, old(reader).comment()) {
                Some((location_end, end)) => {
                    &&& result matches Some(item)
                    &&& item.value@ == "("@
                    &&& item.location.file_path@ == old(reader).path()
                    &&& item.location.start == old(reader).pos()
                    &&& item.location.end == location_end
                    &&& final(reader).pos() == end
                },
                None => result is None && final(reader).pos() == old(reader).pos(),
            },
    {
        proof {
            reveal_strlit("(");
        }
        match reader.read_token_item("(") {
            Some((value, location)) => Some(OpeningRoundBracket { location, value }),
            None => None,
        }
    }
}

/// `)`
pub struct ClosingRoundBracket {
    pub location: ItemLocation,
    pub value: String,
}

impl ClosingRoundBracket {
    pub fn parse_item(reader: &mut Reader) -> (result: Option<Self>)
        requires
            old(reader).wf(),
        ensures
            final(reader).wf(),
            final(reader).same_text(old(reader)),
            final(reader).same_errors(old(reader)),
            match reader::token_item(old(reader).bytes(), old(reader).pos(), ")"@, old(reader).comment()) {
                Some((location_end, end)) => {
                    &&& result matches Some(item)
                    &&& item.value@ == ")"@
                    &&& item.location.file_path@ == old(reader).path()
                    &&& item.location.start == old(reader).pos()
                    &&& item.location.end == location_end
                    &&& final(reader).pos() == end
                },
                None => result is None && final(reader).pos() == old(reader).pos(),
            },
    {
        proof {
            reveal_strlit(")");
        }
        match reader.read_token_item(")") {
            Some((value, location)) => Some(ClosingRoundBracket { location, value }),
            None => None,
        }
    }
}

/// `{`
pub struct OpeningCurlyBracket {
    pub location: ItemLocation,
    pub value: String,
}

impl OpeningCurlyBracket {
    pub fn parse_item(reader: &mut Reader) -> (result: Option<Self>)
        requires
            old(reader).wf(),
        ensures
            final(reader).wf(),
            final(reader).same_text(old(reader)),
            final(reader).same_errors(old(reader)),
            match reader::token_item(old(reader).bytes(), old(reader).pos(), "{"@, old(reader).comment()) {
                Some((location_end, end)) => {
                    &&& result matches Some(item)
                    &&& item.value@ == "{"@
                    &&& item.location.file_path@ == old(reader).path()
                    &&& item.location.start == old(reader).pos()
                    &&& item.location.end == location_end
                    &&& final(reader).pos() == end
                },
                None => result is None && final(reader).pos() == old(reader).pos(),
            },
    {
        proof {
            reveal_strlit("{");
        }
        match reader.read_token_item("{") {
            Some((value, location)) => Some(OpeningCurlyBracket { location, value }),
            None => None,
        }
    }
}

/// `}`
pub struct ClosingCurlyBracket {
    pub location: ItemLocation,
    pub value: String,
}

impl ClosingCurlyBracket {
    pub fn parse_item(reader: &mut Reader) -> (result: Option<Self>)
        requires
            old(reader).wf(),
        ensures
            final(reader).wf(),
            final(reader).same_text(old(reader)),
            final(reader).same_errors(old(reader)),
            match reader::token_item(old(reader).bytes(), old(reader).pos(), "}"@, old(reader).comment()) {
                Some((location_end, end)) => {
                    &&& result matches Some(item)
                    &&& item.value@ == "}"@
                    &&& item.location.file_path@ == old(reader).path()
                    &&& item.location.start == old(reader).pos()
                    &&& item.location.end == location_end
                    &&& final(reader).pos() == end
                },
                None => result is None && final(reader).pos() == old(reader).pos(),
            },
    {
        proof {
            reveal_strlit("}");
        }
        match reader.read_token_item("}") {
            Some((value, location)) => Some(ClosingCurlyBracket { location, value }),
            None => None,
        }
    }
}

/// `[`
pub struct OpeningSquareBracket {
    pub location: ItemLocation,
    pub value: String,
}

impl OpeningSquareBracket {
    pub fn parse_item(reader: &mut Reader) -> (result: Option<Self>)
        requires
            old(reader).wf(),
        ensures
            final(reader).wf(),
            final(reader).same_text(old(reader)),
            final(reader).same_errors(old(reader)),
            match reader::token_item(old(reader).bytes(), old(reader).pos(), "["@, old(reader).comment()) {
                Some((location_end, end)) => {
                    &&& result matches Some(item)
                    &&& item.value@ == "["@
                    &&& item.location.file_path@ == old(reader).path()
                    &&& item.location.start == old(reader).pos()
                    &&& item.location.end == location_end
                    &&& final(reader).pos() == end
                },
                None => result is None && final(reader).pos() == old(reader).pos(),
            },
    {
        proof {
            reveal_strlit("[");
        }
        match reader.read_token_item("[") {
            Some((value, location)) => Some(OpeningSquareBracket { location, value }),
            None => None,
        }
    }
}

/// `]`
pub struct ClosingSquareBracket {
    pub location: ItemLocation,
    pub value: String,
}

impl ClosingSquareBracket {
    pub fn parse_item(reader: &mut Reader) -> (result: Option<Self>)
        requires
            old(reader).wf(),
        ensures
            final(reader).wf(),
            final(reader).same_text(old(reader)),
            final(reader).same_errors(old(reader)),
            match reader::token_item(old(reader).bytes(), old(reader).pos(), "]"@, old(reader).comment()) {
                Some((location_end, end)) => {
                    &&& result matches Some(item)
                    &&& item.value@ == "]"@
                    &&& item.location.file_path@ == old(reader).path()
                    &&& item.location.start == old(reader).pos()
                    &&& item.location.end == location_end
                    &&& final(reader).pos() == end
                },
                None => result is None && final(reader).pos() == old(reader).pos(),
            },
    {
        proof {
            reveal_strlit("]");
        }
        match reader.read_token_item("]") {
            Some((value, location)) => Some(ClosingSquareBracket { location, value }),
            None => None,
        }
    }
}

/// `<`
pub struct OpeningAngleBracket {
    pub location: ItemLocation,
    pub value: String,
}

impl OpeningAngleBracket {
    pub fn parse_item(reader: &mut Reader) -> (result: Option<Self>)
        requires
            old(reader).wf(),
        ensures
            final(reader).wf(),
            final(reader).same_text(old(reader)),
            final(reader).same_errors(old(reader)),
            match reader::token_item(old(reader).bytes(), old(reader).pos(), "<"@, old(reader).comment()) {
                Some((location_end, end)) => {
                    &&& result matches Some(item)
                    &&& item.value@ == "<"@
                    &&& item.location.file_path@ == old(reader).path()
                    &&& item.location.start == old(reader).pos()
                    &&& item.location.end == location_end
                    &&& final(reader).pos() == end
                },
                None => result is None && final(reader).pos() == old(reader).pos(),
            },
    {
        proof {
            reveal_strlit("<");
        }
        match reader.read_token_item("<") {
            Some((value, location)) => Some(OpeningAngleBracket { location, value }),
            None => None,
        }
    }
}

/// `>`
pub struct ClosingAngleBracket {
    pub location: ItemLocation,
    pub value: String,
}

impl ClosingAngleBracket {
    pub fn parse_item(reader: &mut Reader) -> (result: Option<Self>)
        requires
            old(reader).wf(),
        ensures
            final(reader).wf(),
            final(reader).same_text(old(reader)),
            final(reader).same_errors(old(reader)),
            match reader::token_item(old(reader).bytes(), old(reader).pos(), ">"@, old(reader).comment()) {
                Some((location_end, end)) => {
                    &&& result matches Some(item)
                    &&& item.value@ == ">"@
                    &&& item.location.file_path@ == old(reader).path()
                    &&& item.location.start == old(reader).pos()
                    &&& item.location.end == location_end
                    &&& final(reader).pos() == end
                },
                None => result is None && final(reader).pos() == old(reader).pos(),
            },
    {
        proof {
            reveal_strlit(">");
        }
        match reader.read_token_item(">") {
            Some((value, location)) => Some(ClosingAngleBracket { location, value }),
            None => None,
        }
    }
}

} // verus!
