//! Character literals: a character, or a backslash and an escape letter,
//! between single quotes.
use vstd::prelude::*;
use vstd::utf8::*;
use crate::reader;
use crate::reader::{ItemLocation, Reader};

verus! {

/// A character literal, quotes included, as written.
pub struct CharLiteral {
    pub location: ItemLocation,
    pub value: String,
}

/// Where a character literal whose opening quote stands before `p` ends: just
/// after its closing quote. A backslash takes the character after it, which
/// must not be a line break; any other byte but a quote belongs to the literal.
pub open spec fn char_literal_close(bytes: Seq<u8>, p: int) -> Option<int>
    decreases bytes.len() - p,
{
    if p < 0 || p >= bytes.len() {
        None
    } else if bytes[p] == 39 {
        Some(p + 1)
    } else if bytes[p] == 92 {
        if p + 1 < bytes.len() && bytes[p + 1] != 10 {
            char_literal_close(bytes, p + 2)
        } else {
            None
        }
    } else {
        char_literal_close(bytes, p + 1)
    }
}

/// Where the character literal that starts at `pos` ends, if one does.
pub open spec fn char_literal_end(bytes: Seq<u8>, pos: int) -> Option<int> {
    if 0 <= pos < bytes.len() && bytes[pos] == 39 {
        char_literal_close(bytes, pos + 1)
    } else {
        None
    }
}

/// The character that follows a backslash in a literal quoted with `quote`.
pub open spec fn spec_escape_char(c: char, quote: char) -> Option<char> {
    if c == quote {
        Some(quote)
    } else if c == '0' {
        Some('\0')
    } else if c == '\\' {
        Some('\\')
    } else if c == 't' {
        Some('\t')
    } else if c == 'n' {
        Some('\n')
    } else {
        None
    }
}

/// The character that a literal, quotes included, stands for.
pub open spec fn char_value(value: Seq<char>) -> Option<char> {
    let content = value.subrange(1, value.len() - 1);
    if content.len() == 1 {
        Some(content[0])
    } else if content.len() == 2 && content[0] == '\\' {
        spec_escape_char(content[1], '\'')
    } else {
        None
    }
}

proof fn lemma_char_literal_close(bytes: Seq<u8>, p: int)
    requires
        valid_utf8(bytes),
        0 <= p <= bytes.len(),
    ensures
        char_literal_close(bytes, p) matches Some(end) ==> p < end <= bytes.len() && bytes[end - 1] == 39,
    decreases bytes.len() - p,
{
    if p < bytes.len() && bytes[p] != 39 {
        if bytes[p] == 92 {
            if p + 1 < bytes.len() && bytes[p + 1] != 10 {
                lemma_char_literal_close(bytes, p + 2);
            }
        } else {
            lemma_char_literal_close(bytes, p + 1);
        }
    }
}

/// The character that follows a backslash in a literal quoted with `quote`.
pub fn escape_char(c: char, quote: char) -> (result: Option<char>)
    ensures
        result == spec_escape_char(c, quote),
{
    if c == quote {
        return Some(quote);
    }
    match c {
        '0' => Some('\0'),
        '\\' => Some('\\'),
        't' => Some('\t'),
        'n' => Some('\n'),
        _ => None,
    }
}

impl CharLiteral {
    pub fn parse_item(reader: &mut Reader) -> (result: Option<Self>)
        requires
            old(reader).wf(),
        ensures
            final(reader).wf(),
            final(reader).same_text(old(reader)),
            final(reader).same_errors(old(reader)),
            match char_literal_end(old(reader).bytes(), old(reader).pos()) {
                Some(literal_end) => {
                    let end = reader::eat_spaces_from(old(reader).bytes(), literal_end, old(reader).comment());
                    &&& result matches Some(item)
                    &&& encode_utf8(item.value@) == old(reader).bytes().subrange(old(reader).pos(), literal_end)
                    &&& item.location.file_path@ == old(reader).path()
                    &&& item.location.start == old(reader).pos()
                    &&& item.location.end == reader::backtrack_blanks(old(reader).bytes(), end)
                    &&& final(reader).pos() == end
                },
                None => result is None && final(reader).pos() == old(reader).pos(),
            },
    {
        let ghost bytes = reader.bytes();
        let start = reader.get_index();
        if reader.is_finished() || reader.byte(start) != 39 {
            return None;
        }
        let len = reader.text_len();
        let mut p = start + 1;
        loop
            invariant_except_break
                char_literal_end(bytes, start as int) == char_literal_close(bytes, p as int),
            invariant
                reader.wf(),
                bytes == reader.bytes(),
                reader.pos() == start,
                len == bytes.len(),
                start < p <= bytes.len(),
                bytes[start as int] == 39,
            ensures
                char_literal_end(bytes, start as int) == Some(p as int),
                bytes[p - 1] == 39,
            decreases bytes.len() - p,
        {
            if p >= len {
                return None;
            }
            let b = reader.byte(p);
            if b == 39 {
                p = p + 1;
                break;
            }
            if b == 92 {
                if p + 1 < len && reader.byte(p + 1) != 10 {
                    p = p + 2;
                } else {
                    return None;
                }
            } else {
                p = p + 1;
            }
        }
        proof {
            reader::lemma_boundary_at_ascii(bytes, p - 1);
            reader::lemma_boundary_after_ascii(bytes, p - 1);
        }
        let value = reader.advance_to(p);
        reader.eat_spaces();
        let location = reader.get_item_location(start);
        Some(CharLiteral { location, value })
    }

    /// The character that the literal stands for; none for a literal that holds
    /// no character, more than one, or an unknown escape.
    pub fn process(&self) -> (result: Option<char>)
        requires
            self.value@.len() >= 2,
        ensures
            result == char_value(self.value@),
    {
        let n = self.value.as_str().unicode_len();
        let content_len = n - 2;
        if content_len == 1 {
            Some(self.value.as_str().get_char(1))
        } else if content_len == 2 && self.value.as_str().get_char(1) == '\\' {
            escape_char(self.value.as_str().get_char(2), '\'')
        } else {
            None
        }
    }
}

/// A literal that holds one character stands for that character, whatever it
/// is; one that holds a backslash and a letter stands for what the escape
/// gives, and nothing longer stands for a character.
pub proof fn law_char_values(open_quote: char, c: char, close_quote: char, d: char, e: char)
    ensures
        char_value(seq![open_quote, c, close_quote]) == Some(c),
        char_value(seq![open_quote, '\\', c, close_quote]) == spec_escape_char(c, '\''),
        char_value(seq![open_quote, c, d, e, close_quote]) is None,
{
    assert(seq![open_quote, c, close_quote].subrange(1, 2) =~= seq![c]);
    assert(seq![open_quote, '\\', c, close_quote].subrange(1, 3) =~= seq!['\\', c]);
    assert(seq![open_quote, c, d, e, close_quote].subrange(1, 4).len() == 3);
}

/// The quote of a literal, written after a backslash, stands for itself, and
/// so does a backslash; distinct escape letters stand for distinct
/// characters (unless the quote is itself one of the characters that an escape
/// gives), only the quote, `0`, `\\`, `t` and `n` are escapes, and only the
/// quote and the backslash stand for themselves.
pub proof fn law_escapes(c: char, d: char, quote: char)
    ensures
        spec_escape_char(quote, quote) == Some(quote),
        spec_escape_char('\\', quote) == Some('\\'),
        quote != '\0' && quote != '\t' && quote != '\n' && spec_escape_char(c, quote) is Some
            && spec_escape_char(c, quote) == spec_escape_char(d, quote) ==> c == d,
        spec_escape_char(c, quote) is Some ==> c == quote || c == '0' || c == '\\' || c == 't' || c == 'n',
        spec_escape_char(c, quote) is Some ==> (spec_escape_char(c, quote) == Some(c) <==> c == quote || c == '\\'),
{
}

} // verus!
