//! The source reader that every grammar item of the language is parsed with.
//!
//! A `Reader` walks over the UTF-8 bytes of a source text. It skips blanks and
//! line comments between items, reads literal tokens (a token made of letters,
//! digits and `_` must not be directly followed by such a character) and
//! records where each item starts and ends. It also keeps the furthest
//! position at which an item was missing, and what was expected there, from
//! which `get_error` gives the parse error to show.
use vstd::prelude::*;
use vstd::utf8::*;
use vstd::string::*;

verus! {

broadcast use vstd::utf8::group_utf8_lib;

/// `' '`, `'\r'`, `'\n'` and `'\t'` separate items.
pub open spec fn is_space_byte(b: u8) -> bool {
    b == 32 || b == 13 || b == 10 || b == 9
}

/// ASCII letters, digits and `_`.
pub open spec fn is_alnum_byte(b: u8) -> bool {
    (48 <= b <= 57) || (97 <= b <= 122) || (65 <= b <= 90) || b == 95
}

/// The byte at `i`, or `0` past the end of the text.
pub open spec fn byte_at(bytes: Seq<u8>, i: int) -> u8 {
    if 0 <= i < bytes.len() {
        bytes[i]
    } else {
        0
    }
}

/// `lit` occurs in `bytes` at `pos`.
pub open spec fn starts_with_at(bytes: Seq<u8>, pos: int, lit: Seq<u8>) -> bool {
    &&& 0 <= pos
    &&& pos + lit.len() <= bytes.len()
    &&& bytes.subrange(pos, pos + lit.len()) == lit
}

pub open spec fn all_alnum(lit: Seq<u8>) -> bool {
    forall|i: int| 0 <= i < lit.len() ==> #[trigger] is_alnum_byte(lit[i])
}

/// Whether the literal token `lit` can be read at `pos`: it must occur there, be
/// non-empty, and a token made only of letters, digits and `_` must not be
/// followed by such a character.
pub open spec fn reads_token(bytes: Seq<u8>, pos: int, lit: Seq<u8>) -> bool {
    &&& lit.len() > 0
    &&& starts_with_at(bytes, pos, lit)
    &&& !(all_alnum(lit) && is_alnum_byte(byte_at(bytes, pos + lit.len())))
}

/// The keyword or punctuation `text` can be read at `pos`.
pub open spec fn token_at(bytes: Seq<u8>, pos: int, text: Seq<char>) -> bool {
    reads_token(bytes, pos, encode_utf8(text))
}

/// Where the reader stands after reading `text` at `pos` and the blanks and
/// comments that follow it.
pub open spec fn after_token(bytes: Seq<u8>, pos: int, text: Seq<char>, comment: Option<Seq<u8>>) -> int {
    eat_spaces_from(bytes, pos + encode_utf8(text).len(), comment)
}

/// Where an item made of the token `text` at `pos` ends, blanks excluded, and
/// where the reader then stands.
pub open spec fn token_item(bytes: Seq<u8>, pos: int, text: Seq<char>, comment: Option<Seq<u8>>) -> Option<(int, int)> {
    if token_at(bytes, pos, text) {
        let end = after_token(bytes, pos, text, comment);
        Some((backtrack_blanks(bytes, end), end))
    } else {
        None
    }
}

/// The first position at or after `pos` that does not hold a blank.
pub open spec fn skip_blanks(bytes: Seq<u8>, pos: int) -> int
    decreases bytes.len() - pos,
{
    if 0 <= pos < bytes.len() && is_space_byte(bytes[pos]) {
        skip_blanks(bytes, pos + 1)
    } else {
        pos
    }
}

/// The first position at or after `pos` that holds a line break, or the end.
pub open spec fn skip_line(bytes: Seq<u8>, pos: int) -> int
    decreases bytes.len() - pos,
{
    if 0 <= pos < bytes.len() && bytes[pos] != 10 {
        skip_line(bytes, pos + 1)
    } else {
        pos
    }
}

/// Where the reader stands after skipping blanks and line comments from `pos`.
pub open spec fn eat_spaces_from(bytes: Seq<u8>, pos: int, comment: Option<Seq<u8>>) -> int
    decreases bytes.len() - pos,
{
    let p = skip_blanks(bytes, pos);
    if 0 <= pos <= p < bytes.len() && comment is Some && starts_with_at(bytes, p, comment->0)
        && pos < skip_line(bytes, p) {
        proof {
            lemma_skip_line(bytes, p);
        }
        eat_spaces_from(bytes, skip_line(bytes, p), comment)
    } else {
        p
    }
}

/// The end of an item that stops at `pos`: blanks just before `pos` do not belong to it.
pub open spec fn backtrack_blanks(bytes: Seq<u8>, pos: int) -> int
    decreases pos,
{
    if 0 < pos <= bytes.len() && is_space_byte(bytes[pos - 1]) {
        backtrack_blanks(bytes, pos - 1)
    } else {
        pos
    }
}

pub proof fn lemma_skip_blanks(bytes: Seq<u8>, pos: int)
    requires
        0 <= pos <= bytes.len(),
    ensures
        pos <= skip_blanks(bytes, pos) <= bytes.len(),
        skip_blanks(bytes, pos) < bytes.len() ==> !is_space_byte(
            bytes[skip_blanks(bytes, pos)],
        ),
        forall|i: int| pos <= i < skip_blanks(bytes, pos) ==> is_space_byte(#[trigger] bytes[i]),
    decreases bytes.len() - pos,
{
    if pos < bytes.len() && is_space_byte(bytes[pos]) {
        lemma_skip_blanks(bytes, pos + 1);
    }
}

pub proof fn lemma_skip_line(bytes: Seq<u8>, pos: int)
    requires
        0 <= pos <= bytes.len(),
    ensures
        pos <= skip_line(bytes, pos) <= bytes.len(),
        skip_line(bytes, pos) < bytes.len() ==> bytes[skip_line(bytes, pos)] == 10,
    decreases bytes.len() - pos,
{
    if pos < bytes.len() && bytes[pos] != 10 {
        lemma_skip_line(bytes, pos + 1);
    }
}

pub proof fn lemma_eat_spaces(bytes: Seq<u8>, pos: int, comment: Option<Seq<u8>>)
    requires
        0 <= pos <= bytes.len(),
    ensures
        pos <= eat_spaces_from(bytes, pos, comment) <= bytes.len(),
    decreases bytes.len() - pos,
{
    lemma_skip_blanks(bytes, pos);
    let p = skip_blanks(bytes, pos);
    if 0 <= pos <= p < bytes.len() && comment is Some && starts_with_at(bytes, p, comment->0)
        && pos < skip_line(bytes, p) {
        lemma_skip_line(bytes, p);
        lemma_eat_spaces(bytes, skip_line(bytes, p), comment);
    }
}

/// Where skipping stops, nothing is left to skip: no blank and no comment.
pub proof fn lemma_eat_spaces_stops(bytes: Seq<u8>, pos: int, comment: Option<Seq<u8>>)
    requires
        0 <= pos <= bytes.len(),
        comment matches Some(c) ==> c.len() > 0,
    ensures
        ({
            let q = eat_spaces_from(bytes, pos, comment);
            &&& skip_blanks(bytes, q) == q
            &&& !(q < bytes.len() && comment is Some && starts_with_at(bytes, q, comment->0))
        }),
    decreases bytes.len() - pos,
{
    lemma_skip_blanks(bytes, pos);
    let p = skip_blanks(bytes, pos);
    if p < bytes.len() && comment is Some && starts_with_at(bytes, p, comment->0) {
        lemma_skip_line(bytes, p);
        let c = comment->0;
        assert(bytes[p] == bytes.subrange(p, p + c.len())[0]);
        assert(bytes[p] == c[0]);
        assert(!is_space_byte(bytes[p]));
        assert(bytes[p] != 10);
        assert(p < skip_line(bytes, p)) by {
            reveal_with_fuel(skip_line, 2);
        }
        lemma_eat_spaces_stops(bytes, skip_line(bytes, p), comment);
    } else {
        if p < bytes.len() {
            assert(!is_space_byte(bytes[p]));
        }
    }
}

/// Skipping blanks and comments a second time moves nowhere.
pub proof fn law_eat_spaces_idempotent(bytes: Seq<u8>, pos: int, comment: Option<Seq<u8>>)
    requires
        0 <= pos <= bytes.len(),
        comment matches Some(c) ==> c.len() > 0,
    ensures
        eat_spaces_from(bytes, eat_spaces_from(bytes, pos, comment), comment) == eat_spaces_from(bytes, pos, comment),
{
    lemma_eat_spaces(bytes, pos, comment);
    lemma_eat_spaces_stops(bytes, pos, comment);
}

/// A character boundary followed by a whole UTF-8 text leads to another one.
pub proof fn lemma_boundary_after_valid(bytes: Seq<u8>, p: int, text: Seq<u8>)
    requires
        valid_utf8(bytes),
        valid_utf8(text),
        0 <= p,
        p + text.len() <= bytes.len(),
        is_char_boundary(bytes, p),
        bytes.subrange(p, p + text.len()) == text,
    ensures
        is_char_boundary(bytes, p + text.len()),
    decreases bytes.len(),
{
    if text.len() == 0 {
    } else if p == 0 {
        let l = length_of_first_scalar(bytes);
        assert(bytes[0] == text[0]) by {
            assert(bytes.subrange(p, p + text.len())[0] == bytes[0]);
        }
        assert(length_of_first_scalar(text) == l);
        assert(valid_first_scalar(text));
        let rest = pop_first_scalar(bytes);
        let text_rest = pop_first_scalar(text);
        assert(valid_utf8(rest));
        assert(valid_utf8(text_rest));
        assert(rest.subrange(0, text_rest.len() as int) =~= text_rest) by {
            assert forall|i: int| 0 <= i < text_rest.len() implies rest.subrange(0, text_rest.len() as int)[i] == text_rest[i] by {
                assert(bytes.subrange(p, p + text.len())[i + l] == text[i + l]);
            }
        }
        is_char_boundary_start_end_of_seq(rest);
        lemma_boundary_after_valid(rest, 0, text_rest);
    } else {
        let l = length_of_first_scalar(bytes);
        let rest = pop_first_scalar(bytes);
        assert(valid_utf8(rest));
        assert(is_char_boundary(rest, p - l));
        assert(p - l >= 0);
        assert(rest.subrange(p - l, p - l + text.len()) =~= text) by {
            assert forall|i: int| 0 <= i < text.len() implies rest.subrange(p - l, p - l + text.len())[i] == text[i] by {
                assert(bytes.subrange(p, p + text.len())[i] == text[i]);
            }
        }
        lemma_boundary_after_valid(rest, p - l, text);
    }
}

/// A position right after an ASCII character of a UTF-8 text is a character boundary.
pub proof fn lemma_boundary_after_ascii(bytes: Seq<u8>, i: int)
    requires
        valid_utf8(bytes),
        0 <= i < bytes.len(),
        is_char_boundary(bytes, i),
        bytes[i] < 128,
    ensures
        is_char_boundary(bytes, i + 1),
    decreases bytes.len(),
{
    reveal_with_fuel(is_char_boundary, 2);
    if i == 0 {
        assert(length_of_first_scalar(bytes) == 1);
        assert(is_char_boundary(pop_first_scalar(bytes), 0));
    } else {
        let rest = pop_first_scalar(bytes);
        let l = length_of_first_scalar(bytes);
        assert(rest.len() == bytes.len() - l);
        assert(rest[i - l] == bytes[i]);
        lemma_boundary_after_ascii(rest, i - l);
    }
}

pub proof fn lemma_boundary_after_ascii_run(bytes: Seq<u8>, i: int, k: int)
    requires
        valid_utf8(bytes),
        0 <= i,
        0 <= k,
        i + k <= bytes.len(),
        is_char_boundary(bytes, i),
        forall|j: int| i <= j < i + k ==> bytes[j] < 128,
    ensures
        is_char_boundary(bytes, i + k),
    decreases k,
{
    if k > 0 {
        lemma_boundary_after_ascii_run(bytes, i, k - 1);
        lemma_boundary_after_ascii(bytes, i + k - 1);
    }
}

/// A character boundary stays one in a prefix of the text that ends on a boundary.
pub proof fn lemma_boundary_in_prefix(bytes: Seq<u8>, i: int, j: int)
    requires
        valid_utf8(bytes),
        0 <= i <= j <= bytes.len(),
        is_char_boundary(bytes, i),
        is_char_boundary(bytes, j),
    ensures
        valid_utf8(bytes.subrange(0, j)),
        is_char_boundary(bytes.subrange(0, j), i),
{
    valid_utf8_split(bytes, j);
    let prefix = bytes.subrange(0, j);
    if i == j {
        is_char_boundary_start_end_of_seq(prefix);
    } else {
        is_char_boundary_iff_not_is_continuation_byte(bytes, i);
        is_char_boundary_iff_not_is_continuation_byte(prefix, i);
    }
}

/// Any position holding an ASCII byte, and the end, are character boundaries.
pub proof fn lemma_boundary_at_ascii(bytes: Seq<u8>, i: int)
    requires
        valid_utf8(bytes),
        0 <= i <= bytes.len(),
        i == bytes.len() || bytes[i] < 128,
    ensures
        is_char_boundary(bytes, i),
{
    if i < bytes.len() {
        is_char_boundary_iff_not_is_continuation_byte(bytes, i);
    } else {
        is_char_boundary_start_end_of_seq(bytes);
    }
}

/// A letter, digit or `_` of ASCII.
pub open spec fn is_alnum_char(c: char) -> bool {
    ('0' <= c <= '9') || ('a' <= c <= 'z') || ('A' <= c <= 'Z') || c == '_'
}

/// Over the bytes of an ASCII text, the ASCII token `lit` can be read at the
/// start exactly when it is a non-empty prefix of the text that, if it is a
/// word, is not followed by a letter, digit or `_`.
pub proof fn lemma_ascii_token_at_start(text: Seq<char>, lit: Seq<char>)
    requires
        is_ascii_chars(text),
        is_ascii_chars(lit),
    ensures
        token_at(encode_utf8(text), 0, lit) <==> {
            &&& lit.len() > 0
            &&& lit.len() <= text.len()
            &&& text.subrange(0, lit.len() as int) == lit
            &&& !((forall|i: int| 0 <= i < lit.len() ==> #[trigger] is_alnum_char(lit[i])) && lit.len() < text.len()
                && is_alnum_char(text[lit.len() as int]))
        },
{
    let bytes = encode_utf8(text);
    let lb = encode_utf8(lit);
    is_ascii_chars_encode_utf8(text);
    is_ascii_chars_encode_utf8(lit);
    is_ascii_chars_nat_bound(text);
    is_ascii_chars_nat_bound(lit);
    assert forall|i: int| 0 <= i < lit.len() implies (is_alnum_byte(#[trigger] lb[i]) <==> is_alnum_char(lit[i])) by {
        assert(lit[i] as u8 == lb[i]);
        assert((lit[i] as nat) < 128);
    }
    if lit.len() < text.len() {
        assert(text[lit.len() as int] as u8 == bytes[lit.len() as int]);
        assert((text[lit.len() as int] as nat) < 128);
        assert(is_alnum_byte(byte_at(bytes, lit.len() as int)) <==> is_alnum_char(text[lit.len() as int]));
    }
    if lit.len() <= text.len() {
        if bytes.subrange(0, lb.len() as int) == lb {
            assert forall|i: int| 0 <= i < lit.len() implies text.subrange(0, lit.len() as int)[i] == lit[i] by {
                assert(bytes.subrange(0, lb.len() as int)[i] == lb[i]);
                assert(text[i] as u8 == bytes[i]);
                assert(lit[i] as u8 == lb[i]);
                assert((text[i] as nat) < 128);
                assert((lit[i] as nat) < 128);
            }
            assert(text.subrange(0, lit.len() as int) =~= lit);
        }
        if text.subrange(0, lit.len() as int) == lit {
            assert forall|i: int| 0 <= i < lb.len() implies bytes.subrange(0, lb.len() as int)[i] == lb[i] by {
                assert(text.subrange(0, lit.len() as int)[i] == lit[i]);
                assert(text[i] as u8 == bytes[i]);
                assert(lit[i] as u8 == lb[i]);
            }
            assert(bytes.subrange(0, lb.len() as int) =~= lb);
        }
    }
}

/// The length in bytes of what `parsable`'s reader matches of the regular
/// expression `pattern` at the start of `text` (0 when nothing matches).
pub uninterp spec fn regex_match_length(pattern: Seq<char>, text: Seq<char>) -> int;

/// The pattern of identifiers: an ASCII letter or `_`, then word characters.
pub const IDENTIFIER_PATTERN: &'static str = r"[a-zA-Z_][_\w\d]*";

/// Calls `parsable::StringReader::read_regex` with `pattern` on a reader over
/// `text`. Claimed: the length of the match is what `regex_match_length` names,
/// it fits in the text and ends on a character boundary (a match of a regular
/// expression over a `str` always does). What the pattern matches is left to
/// the `regex` crate and is not stated here. `read_regex` unwraps the
/// compilation of the pattern, so the pattern must be a valid one.
#[verifier::external_body]
fn regex_match_len(pattern: &'static str, text: &str) -> (n: usize)
    requires
        pattern@ == IDENTIFIER_PATTERN@,
    ensures
        n == regex_match_length(pattern@, text@),
        n <= text.spec_bytes().len(),
        is_char_boundary(text.spec_bytes(), n as int),
{
    let mut reader = parsable::StringReader::new(text.to_string(), parsable::ParseOptions::default());
    match reader.read_regex(pattern) {
        Some(matched) => matched.len(),
        None => 0,
    }
}

/// An ASCII byte that no identifier holds: neither a letter, a digit nor `_`.
pub open spec fn ends_words(b: u8) -> bool {
    b < 128 && !is_alnum_byte(b)
}

/// The first position at or after `pos` that holds an ASCII byte that no
/// identifier holds, or the end: no identifier read at `pos` goes past it.
pub open spec fn word_window_end(bytes: Seq<u8>, pos: int) -> int
    decreases bytes.len() - pos,
{
    if 0 <= pos < bytes.len() && !ends_words(bytes[pos]) {
        word_window_end(bytes, pos + 1)
    } else {
        pos
    }
}

/// The length of the identifier that the parser reads at `pos`. The pattern
/// is matched on the text up to `word_window_end` only: its classes `\w` and
/// `\d` hold no ASCII character but letters, digits and `_`, so no match of
/// it on the rest of the text crosses that byte, and the match is the same.
pub open spec fn identifier_length_at(bytes: Seq<u8>, pos: int) -> int {
    regex_match_length(IDENTIFIER_PATTERN@, decode_utf8(bytes.subrange(pos, word_window_end(bytes, pos))))
}

proof fn lemma_word_window_end(bytes: Seq<u8>, pos: int)
    requires
        0 <= pos <= bytes.len(),
    ensures
        pos <= word_window_end(bytes, pos) <= bytes.len(),
        word_window_end(bytes, pos) == bytes.len() || ends_words(bytes[word_window_end(bytes, pos)]),
    decreases bytes.len() - pos,
{
    if pos < bytes.len() && !ends_words(bytes[pos]) {
        lemma_word_window_end(bytes, pos + 1);
    }
}

/// Where an item sits in a source file: byte offsets `start..end`.
pub struct ItemLocation {
    pub file_path: String,
    pub start: usize,
    pub end: usize,
}

impl ItemLocation {
    /// A location in no file, as given to items that the compiler makes itself.
    pub fn empty() -> (result: Self)
        ensures
            result.file_path@ == Seq::<char>::empty(),
            result.start == 0,
            result.end == 0,
    {
        ItemLocation { file_path: String::new(), start: 0, end: 0 }
    }

    /// A location is empty when it belongs to no file.
    pub fn is_empty(&self) -> (result: bool)
        ensures
            result == (self.file_path@.len() == 0),
    {
        self.file_path.as_str().is_empty()
    }

    pub fn length(&self) -> (result: usize)
        requires
            self.start <= self.end,
        ensures
            result == self.end - self.start,
    {
        self.end - self.start
    }

    /// The empty location at the end of this one.
    pub fn get_end(&self) -> (result: Self)
        ensures
            result.file_path@ == self.file_path@,
            result.start == self.end,
            result.end == self.end,
    {
        ItemLocation { file_path: self.file_path.clone(), start: self.end, end: self.end }
    }
}

/// The reader over one source text.
pub struct Reader<'a> {
    content: &'a str,
    comment_token: Option<&'a str>,
    file_path: String,
    index: usize,
    /// The furthest position at which an expected item was missing.
    error_index: usize,
    /// What was expected there, in the order in which it was missed.
    expected: Vec<String>,
}

/// What the reader keeps of the furthest failure: its position and what was
/// expected there.
pub type ErrorState = (int, Seq<Seq<char>>);

/// The error state after `entity` was expected and missing at `pos`: a failure
/// at the furthest position so far adds to what was expected there, one
/// further on replaces it, one before it is forgotten.
pub open spec fn record_expected(state: ErrorState, pos: int, entity: Seq<char>) -> ErrorState {
    if pos == state.0 {
        (state.0, state.1.push(entity))
    } else if pos > state.0 {
        (pos, seq![entity])
    } else {
        state
    }
}

/// A literal as an expected item is shown between double quotes.
pub open spec fn quoted(text: Seq<char>) -> Seq<char> {
    seq!['"'] + text + seq!['"']
}

/// A regular expression as an expected item is shown between slashes.
pub open spec fn slashed(text: Seq<char>) -> Seq<char> {
    seq!['/'] + text + seq!['/']
}

/// Where a parse error is shown: the furthest failure, moved back over the
/// blanks before it and, when it moved, on again over the spaces and tabs
/// that start the line it lands on.
pub open spec fn error_position(bytes: Seq<u8>, error_index: int) -> int {
    let back = backtrack_blanks(bytes, error_index);
    if back < error_index {
        skip_inline_spaces(bytes, back)
    } else {
        error_index
    }
}

/// The first position at or after `pos` that does not hold a space or a tab.
pub open spec fn skip_inline_spaces(bytes: Seq<u8>, pos: int) -> int
    decreases bytes.len() - pos,
{
    if 0 <= pos < bytes.len() && (bytes[pos] == 32 || bytes[pos] == 9) {
        skip_inline_spaces(bytes, pos + 1)
    } else {
        pos
    }
}

impl<'a> Reader<'a> {
    /// The furthest failure and what was expected there.
    pub closed spec fn error_state(&self) -> ErrorState {
        (self.error_index as int, self.expected.deep_view())
    }

    pub closed spec fn bytes(&self) -> Seq<u8> {
        self.content.spec_bytes()
    }

    /// The characters of the source text.
    pub closed spec fn text(&self) -> Seq<char> {
        self.content@
    }

    pub closed spec fn comment(&self) -> Option<Seq<u8>> {
        match self.comment_token {
            Some(c) => Some(c.spec_bytes()),
            None => None,
        }
    }

    pub closed spec fn path(&self) -> Seq<char> {
        self.file_path@
    }

    pub closed spec fn pos(&self) -> int {
        self.index as int
    }

    /// The reader stands on a character boundary of its text.
    pub open spec fn wf(&self) -> bool {
        &&& self.bytes() == encode_utf8(self.text())
        &&& valid_utf8(self.bytes())
        &&& 0 <= self.pos() <= self.bytes().len()
        &&& self.error_state().0 <= self.bytes().len()
        &&& is_char_boundary(self.bytes(), self.pos())
        &&& match self.comment() {
            Some(c) => c.len() > 0,
            None => true,
        }
    }

    pub open spec fn same_text(&self, other: &Reader) -> bool {
        &&& self.bytes() == other.bytes()
        &&& self.text() == other.text()
        &&& self.comment() == other.comment()
        &&& self.path() == other.path()
    }

    /// The two readers keep the same failure.
    pub open spec fn same_errors(&self, other: &Reader) -> bool {
        self.error_state() == other.error_state()
    }

    /// A reader at the start of `content`, which is a file at `file_path`.
    /// Comments start with `comment_token` and run to the end of the line;
    /// the token must not be empty (an empty one would make every position
    /// the start of a comment).
    pub fn new(content: &'a str, file_path: String, comment_token: Option<&'a str>) -> (result: Self)
        requires
            match comment_token {
                Some(c) => c@.len() > 0,
                None => true,
            },
        ensures
            result.wf(),
            result.bytes() == content.spec_bytes(),
            result.text() == content@,
            result.comment() == (match comment_token {
                Some(c) => Some(c.spec_bytes()),
                None => None::<Seq<u8>>,
            }),
            result.path() == file_path@,
            result.pos() == 0,
            result.error_state() == (0int, Seq::<Seq<char>>::empty()),
    {
        proof {
            encode_utf8_valid_utf8(content@);
            is_char_boundary_start_end_of_seq(content.spec_bytes());
            if let Some(c) = comment_token {
                assert(c.spec_bytes().len() > 0) by {
                    reveal_with_fuel(encode_utf8, 2);
                    assert(c@.len() > 0);
                    assert(encode_utf8(c@) == encode_scalar(c@[0] as u32) + encode_utf8(c@.drop_first()));
                }
            }
        }
        let result = Reader { content, comment_token, file_path, index: 0, error_index: 0, expected: Vec::new() };
        proof {
            assert(result.expected.deep_view() =~= Seq::<Seq<char>>::empty());
        }
        result
    }

    pub fn get_index(&self) -> (result: usize)
        ensures
            result == self.pos(),
    {
        self.index
    }

    /// The length of the text in bytes.
    pub fn text_len(&self) -> (result: usize)
        ensures
            result == self.bytes().len(),
    {
        self.content.as_bytes().len()
    }

    /// Whether the whole text has been read.
    pub fn is_finished(&self) -> (result: bool)
        requires
            self.wf(),
        ensures
            result == (self.pos() == self.bytes().len()),
    {
        self.index == self.content.as_bytes().len()
    }

    /// Goes back to a position read earlier.
    pub fn set_index(&mut self, index: usize)
        requires
            old(self).wf(),
            index <= old(self).bytes().len(),
            is_char_boundary(old(self).bytes(), index as int),
        ensures
            final(self).wf(),
            final(self).same_text(old(self)),
            final(self).same_errors(old(self)),
            final(self).pos() == index,
    {
        self.index = index;
    }

    /// The byte at `i`, or `0` past the end of the text.
    pub fn byte(&self, i: usize) -> (result: u8)
        requires
            self.wf(),
        ensures
            result == byte_at(self.bytes(), i as int),
    {
        let bytes = self.content.as_bytes();
        if i < bytes.len() {
            bytes[i]
        } else {
            0
        }
    }

    /// Skips blanks and line comments.
    pub fn eat_spaces(&mut self)
        requires
            old(self).wf(),
        ensures
            final(self).wf(),
            final(self).same_text(old(self)),
            final(self).same_errors(old(self)),
            final(self).pos() == eat_spaces_from(old(self).bytes(), old(self).pos(), old(self).comment()),
    {
        let ghost bytes = self.bytes();
        let ghost comment = self.comment();
        let ghost start = self.pos();
        let len = self.content.as_bytes().len();
        loop
            invariant
                self.wf(),
                bytes == self.bytes(),
                comment == self.comment(),
                self.comment_token == old(self).comment_token,
                self.content == old(self).content,
                self.file_path == old(self).file_path,
                self.error_index == old(self).error_index,
                self.expected == old(self).expected,
                len == bytes.len(),
                start <= self.pos(),
                start == old(self).pos(),
                bytes == old(self).bytes(),
                comment == old(self).comment(),
                eat_spaces_from(bytes, start, comment) == eat_spaces_from(bytes, self.pos(), comment),
            decreases bytes.len() - self.pos(),
        {
            let ghost round_start = self.pos();
            proof {
                lemma_skip_blanks(bytes, round_start);
            }
            while self.index < len && is_space(self.byte(self.index))
                invariant
                    self.wf(),
                    bytes == self.bytes(),
                    comment == self.comment(),
                    self.comment_token == old(self).comment_token,
                    self.content == old(self).content,
                    self.file_path == old(self).file_path,
                self.error_index == old(self).error_index,
                self.expected == old(self).expected,
                    len == bytes.len(),
                    round_start <= self.pos() <= skip_blanks(bytes, round_start),
                    skip_blanks(bytes, self.pos()) == skip_blanks(bytes, round_start),
                decreases bytes.len() - self.pos(),
            {
                proof {
                    lemma_boundary_after_ascii(bytes, self.pos());
                    lemma_skip_blanks(bytes, self.pos() + 1);
                }
                self.index = self.index + 1;
            }
            let p = self.index;
            let mut in_comment = false;
            if let Some(token) = self.comment_token {
                in_comment = self.starts_with(token);
            }
            if !in_comment {
                proof {
                    assert(p as int == skip_blanks(bytes, round_start));
                    assert(eat_spaces_from(bytes, round_start, comment) == p);
                }
                return;
            }
            proof {
                lemma_skip_line(bytes, p as int);
                assert(bytes.subrange(p as int, p + comment->0.len())[0] == comment->0[0]);
            }
            let mut q = p + 1;
            while q < len && self.byte(q) != 10
                invariant
                    self.wf(),
                    bytes == self.bytes(),
                    len == bytes.len(),
                    p < q <= skip_line(bytes, p as int),
                    skip_line(bytes, q as int) == skip_line(bytes, p as int),
                decreases bytes.len() - q,
            {
                proof {
                    lemma_skip_line(bytes, q + 1);
                }
                q = q + 1;
            }
            proof {
                lemma_boundary_at_ascii(bytes, q as int);
            }
            self.index = q;
        }
    }

    /// Reads the literal token `lit` if it stands at the current position.
    pub fn read_string(&mut self, lit: &str) -> (result: bool)
        requires
            old(self).wf(),
        ensures
            final(self).wf(),
            final(self).same_text(old(self)),
            final(self).same_errors(old(self)),
            result == reads_token(old(self).bytes(), old(self).pos(), lit.spec_bytes()),
            final(self).pos() == if result {
                old(self).pos() + lit.spec_bytes().len()
            } else {
                old(self).pos()
            },
    {
        let lit_bytes = lit.as_bytes();
        let n = lit_bytes.len();
        if n == 0 {
            return false;
        }
        if !self.starts_with(lit) {
            return false;
        }
        let total = self.content.as_bytes().len();
        assert(self.index + n <= total);
        let mut alnum = true;
        let mut k: usize = 0;
        while k < n
            invariant
                lit_bytes@ == lit.spec_bytes(),
                n == lit_bytes@.len(),
                k <= n,
                alnum == (forall|j: int| 0 <= j < k ==> #[trigger] is_alnum_byte(lit_bytes@[j])),
            decreases n - k,
        {
            alnum = alnum && is_alnum(lit_bytes[k]);
            k = k + 1;
        }
        proof {
            assert(alnum == all_alnum(lit_bytes@));
        }
        if alnum && is_alnum(self.byte(self.index + n)) {
            return false;
        }
        self.skip_text(lit);
        true
    }

    /// Moves past the text `lit`, which stands at the current position.
    pub fn skip_text(&mut self, lit: &str)
        requires
            old(self).wf(),
            starts_with_at(old(self).bytes(), old(self).pos(), lit.spec_bytes()),
        ensures
            final(self).wf(),
            final(self).same_text(old(self)),
            final(self).same_errors(old(self)),
            final(self).pos() == old(self).pos() + lit.spec_bytes().len(),
    {
        let n = lit.as_bytes().len();
        let total = self.content.as_bytes().len();
        assert(self.index + n <= total);
        proof {
            encode_utf8_valid_utf8(lit@);
            lemma_boundary_after_valid(self.bytes(), self.pos(), lit.spec_bytes());
        }
        self.index = self.index + n;
    }

    /// The location of an item that started at `start` and ends at the current
    /// position, blanks before the current position excluded.
    pub fn get_item_location(&self, start: usize) -> (result: ItemLocation)
        requires
            self.wf(),
        ensures
            result.file_path@ == self.path(),
            result.start == start,
            result.end == backtrack_blanks(self.bytes(), self.pos()),
    {
        let bytes = self.content.as_bytes();
        let mut end = self.index;
        while end > 0 && is_space(bytes[end - 1])
            invariant
                bytes@ == self.bytes(),
                end <= self.pos() <= bytes@.len(),
                backtrack_blanks(bytes@, end as int) == backtrack_blanks(bytes@, self.pos()),
            decreases end,
        {
            end = end - 1;
        }
        ItemLocation { file_path: self.file_path.clone(), start, end }
    }

    /// The length of the identifier that stands at the current position (0 when
    /// there is none): an ASCII letter or `_`, then any number of word
    /// characters (Unicode letters, marks, digits and connector punctuation).
    pub fn identifier_match(&self) -> (result: usize)
        requires
            self.wf(),
        ensures
            result == identifier_length_at(self.bytes(), self.pos()),
            self.pos() + result <= self.bytes().len(),
            is_char_boundary(self.bytes(), self.pos() + result),
    {
        let ghost bytes = self.bytes();
        let len = self.content.as_bytes().len();
        let mut k = self.index;
        proof {
            lemma_word_window_end(bytes, self.pos());
        }
        while k < len && !ends_word(self.byte(k))
            invariant
                self.wf(),
                bytes == self.bytes(),
                len == bytes.len(),
                self.pos() <= k <= word_window_end(bytes, self.pos()),
                word_window_end(bytes, k as int) == word_window_end(bytes, self.pos()),
            decreases len - k,
        {
            proof {
                lemma_word_window_end(bytes, k + 1);
            }
            k = k + 1;
        }
        proof {
            lemma_boundary_at_ascii(bytes, k as int);
            lemma_boundary_in_prefix(bytes, self.pos(), k as int);
        }
        let (before, _) = self.content.split_at(k);
        let (_, window) = before.split_at(self.index);
        proof {
            assert(window.spec_bytes() =~= bytes.subrange(self.pos(), k as int));
            encode_utf8_decode_utf8(window@);
        }
        let n = regex_match_len(IDENTIFIER_PATTERN, window);
        proof {
            let w = window.spec_bytes();
            encode_utf8_valid_utf8(window@);
            if n < w.len() {
                is_char_boundary_iff_not_is_continuation_byte(w, n as int);
                assert(w[n as int] == bytes[self.pos() + n]);
                is_char_boundary_iff_not_is_continuation_byte(bytes, self.pos() + n);
            }
        }
        n
    }

    /// Reads the `n` bytes at the current position, if `n` is not 0.
    pub fn read_matched(&mut self, n: usize) -> (result: Option<String>)
        requires
            old(self).wf(),
            old(self).pos() + n <= old(self).bytes().len(),
            is_char_boundary(old(self).bytes(), old(self).pos() + n),
        ensures
            final(self).wf(),
            final(self).same_text(old(self)),
            final(self).same_errors(old(self)),
            if n > 0 {
                &&& result matches Some(value)
                &&& encode_utf8(value@) == old(self).bytes().subrange(old(self).pos(), old(self).pos() + n)
                &&& final(self).pos() == old(self).pos() + n
            } else {
                result is None && final(self).pos() == old(self).pos()
            },
    {
        if n == 0 {
            return None;
        }
        let total = self.content.as_bytes().len();
        assert(self.index + n <= total);
        let end = self.index + n;
        let value = self.advance_to(end);
        Some(value)
    }

    /// Reads an identifier.
    pub fn read_identifier(&mut self) -> (result: Option<String>)
        requires
            old(self).wf(),
        ensures
            final(self).wf(),
            final(self).same_text(old(self)),
            final(self).same_errors(old(self)),
            ({
                let n = identifier_length_at(old(self).bytes(), old(self).pos());
                if n > 0 {
                    &&& result matches Some(value)
                    &&& encode_utf8(value@) == old(self).bytes().subrange(old(self).pos(), old(self).pos() + n)
                    &&& final(self).pos() == old(self).pos() + n
                } else {
                    result is None && final(self).pos() == old(self).pos()
                }
            }),
    {
        let n = self.identifier_match();
        self.read_matched(n)
    }

    /// Reads an item made of the literal token `lit` and the blanks after it:
    /// the token's text and the item's location.
    pub fn read_token_item(&mut self, lit: &str) -> (result: Option<(String, ItemLocation)>)
        requires
            old(self).wf(),
        ensures
            final(self).wf(),
            final(self).same_text(old(self)),
            final(self).same_errors(old(self)),
            match token_item(old(self).bytes(), old(self).pos(), lit@, old(self).comment()) {
                Some((location_end, end)) => {
                    &&& result matches Some((value, location))
                    &&& value@ == lit@
                    &&& location.file_path@ == old(self).path()
                    &&& location.start == old(self).pos()
                    &&& location.end == location_end
                    &&& final(self).pos() == end
                },
                None => result is None && final(self).pos() == old(self).pos(),
            },
    {
        let start = self.index;
        if !self.read_string(lit) {
            return None;
        }
        self.eat_spaces();
        let location = self.get_item_location(start);
        Some((lit.to_owned(), location))
    }

    /// The text from the current position to `end`; the reader moves to `end`.
    pub fn advance_to(&mut self, end: usize) -> (result: String)
        requires
            old(self).wf(),
            old(self).pos() <= end <= old(self).bytes().len(),
            is_char_boundary(old(self).bytes(), end as int),
        ensures
            final(self).wf(),
            final(self).same_text(old(self)),
            final(self).same_errors(old(self)),
            final(self).pos() == end,
            encode_utf8(result@) == old(self).bytes().subrange(old(self).pos(), end as int),
    {
        let (before_end, _) = self.content.split_at(end);
        proof {
            lemma_boundary_in_prefix(self.bytes(), self.pos(), end as int);
        }
        let (_, taken) = before_end.split_at(self.index);
        proof {
            assert(taken.spec_bytes() =~= self.bytes().subrange(self.pos(), end as int));
        }
        let value = taken.to_owned();
        self.index = end;
        value
    }

    /// Records that `entity` was expected and missing at the current position.
    pub fn set_expected_entity(&mut self, entity: String)
        requires
            old(self).wf(),
        ensures
            final(self).wf(),
            final(self).same_text(old(self)),
            final(self).pos() == old(self).pos(),
            final(self).error_state() == record_expected(old(self).error_state(), old(self).pos(), entity@),
    {
        if self.index == self.error_index {
            let ghost before = self.expected.deep_view();
            self.expected.push(entity);
            proof {
                assert(self.expected.deep_view() =~= before.push(entity@));
            }
        } else if self.index > self.error_index {
            let mut expected: Vec<String> = Vec::new();
            expected.push(entity);
            self.expected = expected;
            self.error_index = self.index;
            proof {
                assert(self.expected.deep_view() =~= seq![entity@]);
            }
        }
    }

    /// Records that the literal `expected` was missing at the current
    /// position; an empty literal is not recorded.
    pub fn set_expected_string(&mut self, expected: &str)
        requires
            old(self).wf(),
        ensures
            final(self).wf(),
            final(self).same_text(old(self)),
            final(self).pos() == old(self).pos(),
            final(self).error_state() == if expected@.len() == 0 {
                old(self).error_state()
            } else {
                record_expected(old(self).error_state(), old(self).pos(), quoted(expected@))
            },
    {
        if expected.unicode_len() != 0 {
            let mut entity = String::from_str("\"");
            entity.append(expected);
            entity.append("\"");
            proof {
                reveal_strlit("\"");
                assert(entity@ =~= quoted(expected@));
            }
            self.set_expected_entity(entity);
        }
    }

    /// Records that the regular expression `pattern` was not matched at the
    /// current position.
    pub fn set_expected_regex(&mut self, pattern: &str)
        requires
            old(self).wf(),
        ensures
            final(self).wf(),
            final(self).same_text(old(self)),
            final(self).pos() == old(self).pos(),
            final(self).error_state() == record_expected(old(self).error_state(), old(self).pos(), slashed(pattern@)),
    {
        let mut entity = String::from_str("/");
        entity.append(pattern);
        entity.append("/");
        proof {
            reveal_strlit("/");
            assert(entity@ =~= slashed(pattern@));
        }
        self.set_expected_entity(entity);
    }

    /// The parse error to show: where it stands and what was expected there.
    pub fn get_error(&self) -> (result: (usize, Vec<String>))
        requires
            self.wf(),
        ensures
            result.0 == error_position(self.bytes(), self.error_state().0),
            result.1.deep_view() == self.error_state().1,
    {
        let bytes = self.content.as_bytes();
        let mut error_index = self.error_index;
        let mut backtracked = false;
        while error_index > 0 && is_space(bytes[error_index - 1])
            invariant
                bytes@ == self.bytes(),
                error_index <= self.error_state().0 <= bytes@.len(),
                backtrack_blanks(bytes@, error_index as int) == backtrack_blanks(bytes@, self.error_state().0),
                backtracked == (error_index < self.error_state().0),
            decreases error_index,
        {
            error_index = error_index - 1;
            backtracked = true;
        }
        if backtracked {
            while error_index < bytes.len() && (bytes[error_index] == 32 || bytes[error_index] == 9)
                invariant
                    bytes@ == self.bytes(),
                    error_index <= bytes@.len(),
                    skip_inline_spaces(bytes@, error_index as int) == error_position(bytes@, self.error_state().0),
                decreases bytes@.len() - error_index,
            {
                error_index = error_index + 1;
            }
        }
        let expected = clone_texts(&self.expected);
        (error_index, expected)
    }

    /// Whether `lit` occurs at the current position.
    pub fn starts_with(&self, lit: &str) -> (result: bool)
        requires
            self.wf(),
        ensures
            result == starts_with_at(self.bytes(), self.pos(), lit.spec_bytes()),
    {
        let bytes = self.content.as_bytes();
        let lit_bytes = lit.as_bytes();
        if lit_bytes.len() > bytes.len() - self.index {
            return false;
        }
        let mut k: usize = 0;
        while k < lit_bytes.len()
            invariant
                bytes@ == self.bytes(),
                lit_bytes@ == lit.spec_bytes(),
                self.index + lit_bytes.len() <= bytes.len(),
                k <= lit_bytes.len(),
                forall|j: int| 0 <= j < k ==> bytes@[self.index + j] == lit_bytes@[j],
            decreases lit_bytes.len() - k,
        {
            if bytes[self.index + k] != lit_bytes[k] {
                proof {
                    assert(self.bytes().subrange(self.pos(), self.pos() + lit_bytes@.len())[k as int]
                        != lit_bytes@[k as int]);
                }
                return false;
            }
            k = k + 1;
        }
        proof {
            assert(self.bytes().subrange(self.pos(), self.pos() + lit_bytes@.len()) =~= lit_bytes@);
        }
        true
    }
}

/// A copy of `texts`.
fn clone_texts(texts: &Vec<String>) -> (result: Vec<String>)
    ensures
        result.deep_view() == texts.deep_view(),
{
    let mut result: Vec<String> = Vec::new();
    let mut i: usize = 0;
    while i < texts.len()
        invariant
            i <= texts.len(),
            result.len() == i,
            result.deep_view() == texts.deep_view().subrange(0, i as int),
        decreases texts.len() - i,
    {
        let ghost before = result@;
        let ghost before_deep = result.deep_view();
        let text = texts[i].clone();
        result.push(text);
        proof {
            assert(result@ == before.push(text));
            assert forall|j: int| 0 <= j < i + 1 implies #[trigger] result.deep_view()[j] == texts.deep_view()[j] by {
                if j < i {
                    assert(result@[j] == before[j]);
                    assert(before_deep[j] == before[j].deep_view());
                    assert(before_deep[j] == texts.deep_view().subrange(0, i as int)[j]);
                } else {
                    assert(result@[j] == text);
                    assert(text == texts@[i as int]);
                }
            }
            assert(result.deep_view() =~= texts.deep_view().subrange(0, i + 1));
        }
        i = i + 1;
    }
    proof {
        assert(texts.deep_view().subrange(0, texts.len() as int) =~= texts.deep_view());
    }
    result
}

fn is_alnum(b: u8) -> (result: bool)
    ensures
        result == is_alnum_byte(b),
{
    (48 <= b && b <= 57) || (97 <= b && b <= 122) || (65 <= b && b <= 90) || b == 95
}

fn ends_word(b: u8) -> (result: bool)
    ensures
        result == ends_words(b),
{
    b < 128 && !is_alnum(b)
}

fn is_space(b: u8) -> (result: bool)
    ensures
        result == is_space_byte(b),
{
    b == 32 || b == 13 || b == 10 || b == 9
}

} // verus!
