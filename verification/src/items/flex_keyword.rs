//! A keyword read as any word, so that a misspelt keyword is still an item.
use vstd::prelude::*;
use crate::reader;
use crate::reader::{ItemLocation, Reader};
use crate::text::text_eq;

verus! {

/// A word of ASCII letters and `_`, read where a keyword is expected.
pub struct FlexKeyword {
    pub keyword: String,
    pub location: ItemLocation,
}

/// An ASCII letter or `_`.
pub open spec fn is_word_byte(b: u8) -> bool {
    (97 <= b <= 122) || (65 <= b <= 90) || b == 95
}

/// Where the run of ASCII letters and `_` that starts at `pos` ends.
pub open spec fn word_end(bytes: Seq<u8>, pos: int) -> int
    decreases bytes.len() - pos,
{
    if 0 <= pos < bytes.len() && is_word_byte(bytes[pos]) {
        word_end(bytes, pos + 1)
    } else {
        pos
    }
}

proof fn lemma_word_end(bytes: Seq<u8>, pos: int)
    requires
        0 <= pos <= bytes.len(),
    ensures
        pos <= word_end(bytes, pos) <= bytes.len(),
        forall|i: int| pos <= i < word_end(bytes, pos) ==> is_word_byte(#[trigger] bytes[i]),
    decreases bytes.len() - pos,
{
    if pos < bytes.len() && is_word_byte(bytes[pos]) {
        lemma_word_end(bytes, pos + 1);
    }
}

impl FlexKeyword {
    /// Reads a word; the blanks after it are left to the next item.
    pub fn parse_item(reader: &mut Reader) -> (result: Option<Self>)
        requires
            old(reader).wf(),
        ensures
            final(reader).wf(),
            final(reader).same_text(old(reader)),
            final(reader).same_errors(old(reader)),
            ({
                let end = word_end(old(reader).bytes(), old(reader).pos());
                if end > old(reader).pos() {
                    &&& result matches Some(item)
                    &&& vstd::utf8::encode_utf8(item.keyword@) == old(reader).bytes().subrange(old(reader).pos(), end)
                    &&& item.location.file_path@ == old(reader).path()
                    &&& item.location.start == old(reader).pos()
                    &&& item.location.end == reader::backtrack_blanks(old(reader).bytes(), end)
                    &&& final(reader).pos() == end
                } else {
                    result is None && final(reader).pos() == old(reader).pos()
                }
            }),
    {
        let ghost bytes = reader.bytes();
        let start = reader.get_index();
        let len = reader.text_len();
        let mut end = start;
        proof {
            lemma_word_end(bytes, start as int);
        }
        while end < len && is_word(reader.byte(end))
            invariant
                reader.wf(),
                bytes == reader.bytes(),
                len == bytes.len(),
                reader.pos() == start,
                start <= end <= word_end(bytes, start as int),
                word_end(bytes, end as int) == word_end(bytes, start as int),
                forall|i: int| start <= i < end ==> is_word_byte(#[trigger] bytes[i]),
            decreases len - end,
        {
            proof {
                lemma_word_end(bytes, end + 1);
            }
            end = end + 1;
        }
        if end == start {
            return None;
        }
        proof {
            assert forall|i: int| start <= i < start + (end - start) implies bytes[i] < 128 by {
                assert(is_word_byte(bytes[i]));
            }
            reader::lemma_boundary_after_ascii_run(bytes, start as int, (end - start) as int);
        }
        let keyword = reader.advance_to(end);
        let location = reader.get_item_location(start);
        Some(FlexKeyword { keyword, location })
    }

    /// `keyword` when the word read is that keyword.
    pub fn process<'a>(&self, keyword: &'a str) -> (result: Option<&'a str>)
        ensures
            match result {
                Some(k) => k == keyword && self.keyword@ == keyword@,
                None => self.keyword@ != keyword@,
            },
    {
        if text_eq(self.keyword.as_str(), keyword) {
            Some(keyword)
        } else {
            None
        }
    }
}

fn is_word(b: u8) -> (result: bool)
    ensures
        result == is_word_byte(b),
{
    (97 <= b && b <= 122) || (65 <= b && b <= 90) || b == 95
}

} // verus!
