//! Names: of variables, functions, types, fields and the like.
use vstd::prelude::*;
use crate::reader;
use crate::reader::{identifier_length_at, ItemLocation, Reader};
use crate::text::text_eq;

verus! {

/// A name, with where it was written.
pub struct Identifier {
    pub location: ItemLocation,
    pub value: String,
}

/// The decimal digit `d`.
pub open spec fn digit_char(d: nat) -> char {
    if d == 0 { '0' } else if d == 1 { '1' } else if d == 2 { '2' } else if d == 3 { '3' } else if d == 4 {
        '4'
    } else if d == 5 { '5' } else if d == 6 { '6' } else if d == 7 { '7' } else if d == 8 { '8' } else { '9' }
}

/// `n` written in decimal, without leading zeros.
pub open spec fn decimal(n: nat) -> Seq<char>
    decreases n,
{
    if n < 10 {
        seq![digit_char(n)]
    } else {
        decimal(n / 10).push(digit_char(n % 10))
    }
}

/// Appends the digit `d` to `text`.
fn push_digit(text: &mut String, d: usize)
    requires
        d < 10,
    ensures
        final(text)@ == old(text)@.push(digit_char(d as nat)),
{
    let digit = match d {
        0 => "0",
        1 => "1",
        2 => "2",
        3 => "3",
        4 => "4",
        5 => "5",
        6 => "6",
        7 => "7",
        8 => "8",
        _ => "9",
    };
    proof {
        reveal_strlit("0");
        reveal_strlit("1");
        reveal_strlit("2");
        reveal_strlit("3");
        reveal_strlit("4");
        reveal_strlit("5");
        reveal_strlit("6");
        reveal_strlit("7");
        reveal_strlit("8");
        reveal_strlit("9");
        assert(digit@ =~= seq![digit_char(d as nat)]);
    }
    text.append(digit);
}

/// Appends `n`, written in decimal, to `text`.
pub(crate) fn push_decimal(text: &mut String, n: usize)
    ensures
        final(text)@ == old(text)@ + decimal(n as nat),
    decreases n,
{
    if n >= 10 {
        push_decimal(text, n / 10);
    }
    push_digit(text, n % 10);
    proof {
        if n >= 10 {
            assert(old(text)@ + decimal(n as nat) =~= old(text)@ + decimal((n / 10) as nat) + seq![digit_char((n % 10) as nat)]);
        } else {
            assert(decimal(n as nat) =~= seq![digit_char((n % 10) as nat)]);
        }
    }
}

impl Identifier {
    /// The identifier that the parser reads at `pos` (its text, where its
    /// location ends and where the reader then stands), given the length of the
    /// match of the identifier pattern there.
    pub open spec fn spec_parse(bytes: Seq<u8>, pos: int, comment: Option<Seq<u8>>, match_length: int) -> Option<(Seq<u8>, int, int)> {
        if match_length > 0 {
            let end = reader::eat_spaces_from(bytes, pos + match_length, comment);
            Some((bytes.subrange(pos, pos + match_length), reader::backtrack_blanks(bytes, end), end))
        } else {
            None
        }
    }

    /// Reads an identifier: an ASCII letter or `_`, then word characters.
    pub fn parse_item(reader: &mut Reader) -> (result: Option<Self>)
        requires
            old(reader).wf(),
        ensures
            final(reader).wf(),
            final(reader).same_text(old(reader)),
            final(reader).same_errors(old(reader)),
            match Self::spec_parse(old(reader).bytes(), old(reader).pos(), old(reader).comment(),
                identifier_length_at(old(reader).bytes(), old(reader).pos())) {
                Some((text, location_end, end)) => {
                    &&& result matches Some(item)
                    &&& vstd::utf8::encode_utf8(item.value@) == text
                    &&& item.location.file_path@ == old(reader).path()
                    &&& item.location.start == old(reader).pos()
                    &&& item.location.end == location_end
                    &&& final(reader).pos() == end
                },
                None => result is None && final(reader).pos() == old(reader).pos(),
            },
    {
        let match_length = reader.identifier_match();
        Self::parse_matched(reader, match_length)
    }

    /// Reads an identifier whose text is the `match_length` bytes at the
    /// current position, then the blanks after it.
    pub fn parse_matched(reader: &mut Reader, match_length: usize) -> (result: Option<Self>)
        requires
            old(reader).wf(),
            old(reader).pos() + match_length <= old(reader).bytes().len(),
            vstd::utf8::is_char_boundary(old(reader).bytes(), old(reader).pos() + match_length),
        ensures
            final(reader).wf(),
            final(reader).same_text(old(reader)),
            final(reader).same_errors(old(reader)),
            match Self::spec_parse(old(reader).bytes(), old(reader).pos(), old(reader).comment(), match_length as int) {
                Some((text, location_end, end)) => {
                    &&& result matches Some(item)
                    &&& vstd::utf8::encode_utf8(item.value@) == text
                    &&& item.location.file_path@ == old(reader).path()
                    &&& item.location.start == old(reader).pos()
                    &&& item.location.end == location_end
                    &&& final(reader).pos() == end
                },
                None => result is None && final(reader).pos() == old(reader).pos(),
            },
    {
        let start = reader.get_index();
        match reader.read_matched(match_length) {
            Some(value) => {
                reader.eat_spaces();
                let location = reader.get_item_location(start);
                Some(Identifier { location, value })
            },
            None => None,
        }
    }

    /// The name `name`, written at `location`.
    pub fn new(name: &str, location: &ItemLocation) -> (result: Self)
        ensures
            result.value@ == name@,
            result.location.file_path@ == location.file_path@,
            result.location.start == location.start,
            result.location.end == location.end,
    {
        let location = ItemLocation { file_path: location.file_path.clone(), start: location.start, end: location.end };
        Identifier { location, value: name.to_owned() }
    }

    /// A fresh name made from `name` and the next value of `counter`, which
    /// counts the names made so far.
    pub fn unique(name: &str, counter: &mut usize) -> (result: Self)
        requires
            *old(counter) < usize::MAX,
        ensures
            *final(counter) == *old(counter) + 1,
            result.value@ == name@ + "_u"@ + decimal(*final(counter) as nat),
            result.location.file_path@.len() == 0,
            result.location.start == 0,
            result.location.end == 0,
    {
        *counter = *counter + 1;
        let mut value = name.to_owned();
        value.append("_u");
        push_decimal(&mut value, *counter);
        Identifier { location: ItemLocation::empty(), value }
    }

    /// The name `name`, written nowhere.
    pub fn unlocated(name: &str) -> (result: Self)
        ensures
            result.value@ == name@,
            result.location.file_path@.len() == 0,
            result.location.start == 0,
            result.location.end == 0,
    {
        Identifier { location: ItemLocation::empty(), value: name.to_owned() }
    }

    /// Whether the name is `value`.
    pub fn is(&self, value: &str) -> (result: bool)
        ensures
            result == (self.value@ == value@),
    {
        text_eq(self.value.as_str(), value)
    }

    pub fn as_str(&self) -> (result: &str)
        ensures
            result@ == self.value@,
    {
        self.value.as_str()
    }

    pub fn as_string(&self) -> (result: &String)
        ensures
            result@ == self.value@,
    {
        &self.value
    }

    pub fn to_string(&self) -> (result: String)
        ensures
            result@ == self.value@,
    {
        self.value.clone()
    }
}

proof fn lemma_decimal_len(n: nat)
    ensures
        decimal(n).len() >= 1,
        n >= 10 ==> decimal(n).len() >= 2,
    decreases n,
{
    if n >= 10 {
        lemma_decimal_len(n / 10);
    }
}

proof fn lemma_digit_char_injective(a: nat, b: nat)
    requires
        a < 10,
        b < 10,
        digit_char(a) == digit_char(b),
    ensures
        a == b,
{
}

/// Different numbers are written differently.
proof fn lemma_decimal_injective(a: nat, b: nat)
    requires
        decimal(a) == decimal(b),
    ensures
        a == b,
    decreases a,
{
    lemma_decimal_len(a);
    lemma_decimal_len(b);
    if a < 10 && b < 10 {
        assert(decimal(a)[0] == digit_char(a));
        assert(decimal(b)[0] == digit_char(b));
        lemma_digit_char_injective(a, b);
    } else if a >= 10 && b >= 10 {
        let da = decimal(a);
        assert(da.last() == digit_char(a % 10));
        assert(decimal(b).last() == digit_char(b % 10));
        lemma_digit_char_injective(a % 10, b % 10);
        assert(decimal(a / 10) =~= da.drop_last());
        assert(decimal(b / 10) =~= decimal(b).drop_last());
        lemma_decimal_injective(a / 10, b / 10);
    }
}

/// The names that `unique` makes from one name with different counter values
/// are different.
pub proof fn law_unique_names_differ(name: Seq<char>, a: nat, b: nat)
    requires
        a != b,
    ensures
        name + "_u"@ + decimal(a) != name + "_u"@ + decimal(b),
{
    let prefix = name + "_u"@;
    if prefix + decimal(a) == prefix + decimal(b) {
        assert((prefix + decimal(a)).subrange(prefix.len() as int, (prefix + decimal(a)).len() as int) =~= decimal(a));
        assert((prefix + decimal(b)).subrange(prefix.len() as int, (prefix + decimal(b)).len() as int) =~= decimal(b));
        lemma_decimal_injective(a, b);
    }
}

} // verus!
