//! Byte patterns with wildcards: their text form, and the search for the
//! first place in a buffer where one matches.
//!
//! A pattern is written as tokens separated by ASCII whitespace. A token of
//! two hexadecimal digits stands for that byte, the token `?` for any byte:
//! `"E8 ? ? ? ? 8B E8"`.

use vstd::prelude::*;
use vstd::string::is_ascii_spec_bytes;

verus! {

/// The most matchers a pattern may have. The scanner reads the buffer in
/// chunks of 2048 bytes and takes no pattern that is longer than half a chunk.
pub const MAX_PATTERN_LEN: usize = 1024;

/// One position of a pattern.
#[derive(Clone, Copy, Debug, PartialEq, Eq, Structural)]
pub enum Matcher {
    /// Matches the given byte and no other.
    Exact(u8),
    /// Matches every byte.
    Any,
}

/// Why a pattern text was not compiled.
#[derive(Clone, Copy, Debug, PartialEq, Eq, Structural)]
pub enum PatternError {
    /// A token is neither `?` nor two hexadecimal digits.
    MalformedToken,
    /// The text holds more than `MAX_PATTERN_LEN` tokens.
    TooLong,
}

impl Matcher {
    /// Whether this matcher lets `byte` pass.
    pub open spec fn accepts(self, byte: u8) -> bool {
        match self {
            Matcher::Exact(wanted) => wanted == byte,
            Matcher::Any => true,
        }
    }

    /// Tests one byte against this matcher.
    pub fn matches(&self, byte: u8) -> (accepted: bool)
        ensures
            accepted == self.accepts(byte),
    {
        match self {
            Matcher::Exact(wanted) => *wanted == byte,
            Matcher::Any => true,
        }
    }
}

/// Whether `c` separates tokens: space, tab, line feed, form feed or
/// carriage return.
pub open spec fn is_separator(c: char) -> bool {
    c == ' ' || c == '\t' || c == '\n' || c == '\x0C' || c == '\r'
}

/// The value of a hexadecimal digit, in either case.
pub open spec fn hex_value(c: char) -> Option<int> {
    if '0' <= c <= '9' {
        Some(c as int - '0' as int)
    } else if 'a' <= c <= 'f' {
        Some(c as int - 'a' as int + 10)
    } else if 'A' <= c <= 'F' {
        Some(c as int - 'A' as int + 10)
    } else {
        None
    }
}

/// The matcher that one token stands for, if it is well formed.
pub open spec fn token_matcher(token: Seq<char>) -> Option<Matcher> {
    if token.len() == 1 && token[0] == '?' {
        Some(Matcher::Any)
    } else if token.len() == 2 && hex_value(token[0]) is Some && hex_value(token[1]) is Some {
        Some(Matcher::Exact((16 * hex_value(token[0])->0 + hex_value(token[1])->0) as u8))
    } else {
        None
    }
}

/// The number of characters from `from` up to the next separator or the end
/// of the text.
pub open spec fn token_len(text: Seq<char>, from: int) -> nat
    decreases text.len() - from,
{
    if from < 0 || from >= text.len() || is_separator(text[from]) {
        0
    } else {
        1 + token_len(text, from + 1)
    }
}

/// A token ends inside the text.
pub proof fn lemma_token_len_bound(text: Seq<char>, from: int)
    requires
        0 <= from <= text.len(),
    ensures
        from + token_len(text, from) <= text.len(),
    decreases text.len() - from,
{
    if from < text.len() && !is_separator(text[from]) {
        lemma_token_len_bound(text, from + 1);
    }
}

/// `matchers` in front of what the rest of a text stands for.
pub open spec fn followed_by(matchers: Seq<Matcher>, rest: Option<Seq<Matcher>>) -> Option<
    Seq<Matcher>,
> {
    match rest {
        Some(more) => Some(matchers + more),
        None => None,
    }
}

/// The matchers that the tokens of `text` from position `from` on stand for,
/// in order; `None` where one of them is malformed.
pub open spec fn matchers_from(text: Seq<char>, from: int) -> Option<Seq<Matcher>>
    decreases text.len() - from,
{
    if from < 0 || from >= text.len() {
        Some(Seq::empty())
    } else if is_separator(text[from]) {
        matchers_from(text, from + 1)
    } else {
        let end = from + 1 + token_len(text, from + 1);
        proof {
            lemma_token_len_bound(text, from + 1);
        }
        match token_matcher(text.subrange(from, end)) {
            Some(matcher) => followed_by(seq![matcher], matchers_from(text, end)),
            None => None,
        }
    }
}

/// The length of a token that runs from `from` up to `end`.
pub proof fn lemma_token_len(text: Seq<char>, from: int, end: int)
    requires
        0 <= from <= end <= text.len(),
        forall|i: int| from <= i < end ==> !is_separator(#[trigger] text[i]),
        end < text.len() ==> is_separator(text[end]),
    ensures
        token_len(text, from) == end - from,
    decreases end - from,
{
    if from < end {
        lemma_token_len(text, from + 1, end);
    }
}

/// A token that runs from `from` up to `end` gives its matcher, and the text
/// from `end` on gives the rest.
pub proof fn lemma_token(text: Seq<char>, from: int, end: int)
    requires
        0 <= from < end <= text.len(),
        forall|i: int| from <= i < end ==> !is_separator(#[trigger] text[i]),
        end < text.len() ==> is_separator(text[end]),
    ensures
        matchers_from(text, from) == match token_matcher(text.subrange(from, end)) {
            Some(matcher) => followed_by(seq![matcher], matchers_from(text, end)),
            None => None,
        },
{
    lemma_token_len(text, from + 1, end);
}

/// What a pattern text compiles to.
pub open spec fn parse_pattern(text: Seq<char>) -> Result<Seq<Matcher>, PatternError> {
    match matchers_from(text, 0) {
        None => Err(PatternError::MalformedToken),
        Some(matchers) => if matchers.len() > MAX_PATTERN_LEN {
            Err(PatternError::TooLong)
        } else {
            Ok(matchers)
        },
    }
}

/// Whether every matcher of `pattern` accepts the byte of `buffer` that lies
/// under it when the pattern is laid down at offset `at`. The pattern has to
/// lie inside the buffer with all its length.
pub open spec fn matches_at(buffer: Seq<u8>, pattern: Seq<Matcher>, at: int) -> bool {
    &&& 0 <= at
    &&& at + pattern.len() <= buffer.len()
    &&& forall|j: int| 0 <= j < pattern.len() ==> (#[trigger] pattern[j]).accepts(buffer[at + j])
}

/// Whether the pattern matches somewhere in the buffer.
pub open spec fn has_match(buffer: Seq<u8>, pattern: Seq<Matcher>) -> bool {
    exists|at: int| matches_at(buffer, pattern, at)
}

/// Whether `at` is the lowest offset at which the pattern matches.
pub open spec fn is_first_match(buffer: Seq<u8>, pattern: Seq<Matcher>, at: int) -> bool {
    &&& matches_at(buffer, pattern, at)
    &&& forall|before: int| 0 <= before < at ==> !matches_at(buffer, pattern, before)
}

/// The lowest offset at which the pattern matches, if it matches at all.
pub open spec fn first_match(buffer: Seq<u8>, pattern: Seq<Matcher>) -> Option<int> {
    if has_match(buffer, pattern) {
        Some(choose|at: int| is_first_match(buffer, pattern, at))
    } else {
        None
    }
}

/// Where a pattern matches, it has a lowest match, at or below any given one.
pub proof fn lemma_lowest_match(buffer: Seq<u8>, pattern: Seq<Matcher>, at: int)
    requires
        matches_at(buffer, pattern, at),
    ensures
        exists|lowest: int| lowest <= at && is_first_match(buffer, pattern, lowest),
    decreases at,
{
    if exists|before: int| 0 <= before < at && matches_at(buffer, pattern, before) {
        let before = choose|before: int| 0 <= before < at && matches_at(buffer, pattern, before);
        lemma_lowest_match(buffer, pattern, before);
    } else {
        assert(is_first_match(buffer, pattern, at));
    }
}

/// The lowest match is unique, and `first_match` names it.
pub proof fn lemma_first_match(buffer: Seq<u8>, pattern: Seq<Matcher>, at: int)
    requires
        is_first_match(buffer, pattern, at),
    ensures
        first_match(buffer, pattern) == Some(at),
{
    assert(has_match(buffer, pattern));
    let chosen = choose|other: int| is_first_match(buffer, pattern, other);
    assert(chosen == at) by {
        if chosen < at {
            assert(!matches_at(buffer, pattern, chosen));
        }
        if at < chosen {
            assert(!matches_at(buffer, pattern, at));
        }
    }
}

/// `first_match` is `None` exactly where no offset qualifies, and otherwise
/// the lowest offset that does.
pub proof fn lemma_first_match_is_lowest(buffer: Seq<u8>, pattern: Seq<Matcher>)
    ensures
        match first_match(buffer, pattern) {
            Some(at) => is_first_match(buffer, pattern, at),
            None => forall|at: int| !matches_at(buffer, pattern, at),
        },
{
    if has_match(buffer, pattern) {
        let at = choose|at: int| matches_at(buffer, pattern, at);
        lemma_lowest_match(buffer, pattern, at);
    }
}

/// A wildcard asks nothing of the byte under it: a match stays a match when
/// the bytes under the wildcards are replaced by any others.
pub proof fn law_wildcards_accept_any_byte(
    buffer: Seq<u8>,
    other: Seq<u8>,
    pattern: Seq<Matcher>,
    at: int,
)
    requires
        matches_at(buffer, pattern, at),
        other.len() == buffer.len(),
        forall|j: int|
            0 <= j < pattern.len() && (#[trigger] pattern[j]) is Exact ==> other[at + j]
                == buffer[at + j],
    ensures
        matches_at(other, pattern, at),
{
    assert forall|j: int| 0 <= j < pattern.len() implies (#[trigger] pattern[j]).accepts(
        other[at + j],
    ) by {
        assert(pattern[j].accepts(buffer[at + j]));
    }
}

/// Where all the wildcards of a pattern stand behind its `fixed` first
/// matchers, the lowest match does not depend on the bytes under them: it is
/// the same in every buffer that differs only there.
pub proof fn law_lowest_match_ignores_trailing_wildcards(
    buffer: Seq<u8>,
    other: Seq<u8>,
    pattern: Seq<Matcher>,
    at: int,
    fixed: int,
)
    requires
        is_first_match(buffer, pattern, at),
        0 <= fixed <= pattern.len(),
        forall|j: int| fixed <= j < pattern.len() ==> (#[trigger] pattern[j]) is Any,
        other.len() == buffer.len(),
        forall|place: int|
            0 <= place < buffer.len() && !(at + fixed <= place < at + pattern.len())
                ==> #[trigger] other[place] == buffer[place],
    ensures
        is_first_match(other, pattern, at),
{
    assert forall|j: int| 0 <= j < pattern.len() implies (#[trigger] pattern[j]).accepts(
        other[at + j],
    ) by {
        assert(pattern[j].accepts(buffer[at + j]));
        if j < fixed {
            assert(other[at + j] == buffer[at + j]);
        }
    }
    assert forall|before: int| 0 <= before < at implies !matches_at(other, pattern, before) by {
        if matches_at(other, pattern, before) {
            assert forall|j: int| 0 <= j < pattern.len() implies (#[trigger] pattern[j]).accepts(
                buffer[before + j],
            ) by {
                assert(pattern[j].accepts(other[before + j]));
                if j < fixed {
                    assert(other[before + j] == buffer[before + j]);
                }
            }
            assert(matches_at(buffer, pattern, before));
        }
    }
}

/// A text with a character outside ASCII holds a malformed token.
proof fn lemma_non_ascii_is_malformed(text: Seq<char>, from: int, at: int)
    requires
        0 <= from <= at < text.len(),
        !('\0' <= text[at] <= '\u{7f}'),
    ensures
        matchers_from(text, from) is None,
    decreases text.len() - from,
{
    if is_separator(text[from]) {
        lemma_non_ascii_is_malformed(text, from + 1, at);
    } else {
        let end = from + 1 + token_len(text, from + 1);
        lemma_token_len_bound(text, from + 1);
        if at < end {
            let token = text.subrange(from, end);
            assert(token[at - from] == text[at]);
        } else {
            lemma_non_ascii_is_malformed(text, end, at);
        }
    }
}

/// The value of the hexadecimal digit whose ASCII code is `code`.
fn hex_digit(code: u8) -> (value: Option<u8>)
    ensures
        match value {
            Some(digit) => hex_value(code as char) == Some(digit as int),
            None => hex_value(code as char) is None,
        },
{
    if 0x30 <= code && code <= 0x39 {
        Some(code - 0x30)
    } else if 0x61 <= code && code <= 0x66 {
        Some(code - 0x61 + 10)
    } else if 0x41 <= code && code <= 0x46 {
        Some(code - 0x41 + 10)
    } else {
        None
    }
}

/// The error type of the `patternscan` crate. Nothing of its contents is used.
#[verifier::external_type_specification]
#[verifier::external_body]
pub struct ExScanFailure(patternscan::Error);

/// The offset that an answer of the scanner carries, if it carries one.
pub open spec fn reported_offset(found: Result<Option<usize>, patternscan::Error>) -> Option<int> {
    match found {
        Ok(Some(at)) => Some(at as int),
        _ => None,
    }
}

/// `patternscan::scan_first_match` on an in-memory buffer.
///
/// The crate searches in chunks, and where the pattern matches nowhere it may
/// still report an offset: a window that runs over the end of the data is
/// compared with what the chunk buffer held before. So this contract claims
/// only what the crate's search gives on a pattern text of this module's
/// grammar with 1 to `MAX_PATTERN_LEN` tokens: where the pattern matches
/// inside the buffer, the call succeeds and returns the lowest such offset.
/// Of a buffer without a match it claims nothing.
#[verifier::external_body]
fn scan_first_match(
    buffer: &[u8],
    pattern: &str,
) -> (found: Result<Option<usize>, patternscan::Error>)
    requires
        parse_pattern(pattern@) matches Ok(matchers) && matchers.len() >= 1,
    ensures
        parse_pattern(pattern@) matches Ok(matchers) ==> (has_match(buffer@, matchers)
            ==> reported_offset(found) == first_match(buffer@, matchers)),
{
    patternscan::scan_first_match(std::io::Cursor::new(buffer), pattern)
}

/// A compiled pattern: the matchers, and the text that they were read from.
#[derive(Debug)]
pub struct BytePattern {
    text: String,
    matchers: Vec<Matcher>,
}

impl View for BytePattern {
    type V = Seq<Matcher>;

    closed spec fn view(&self) -> Seq<Matcher> {
        self.matchers@
    }
}

impl BytePattern {
    /// The text that the pattern was compiled from.
    pub closed spec fn source(&self) -> Seq<char> {
        self.text@
    }

    /// A pattern holds what its text stands for, and no more matchers than
    /// the scanner takes.
    pub open spec fn wf(&self) -> bool {
        parse_pattern(self.source()) == Ok::<Seq<Matcher>, PatternError>(self@)
    }

    #[verifier::type_invariant]
    spec fn well_formed(&self) -> bool {
        self.wf()
    }

    /// Compiles a pattern text. The text is split at ASCII whitespace; each
    /// token has to be `?` or two hexadecimal digits, and there may be at most
    /// `MAX_PATTERN_LEN` of them.
    pub fn compile(text: &str) -> (compiled: Result<BytePattern, PatternError>)
        ensures
            match compiled {
                Ok(pattern) => {
                    &&& parse_pattern(text@) == Ok::<Seq<Matcher>, PatternError>(pattern@)
                    &&& pattern.source() == text@
                    &&& pattern.wf()
                },
                Err(error) => parse_pattern(text@) == Err::<Seq<Matcher>, PatternError>(error),
            },
    {
        if !text.is_ascii() {
            proof {
                let at = choose|at: int|
                    0 <= at < text@.len() && !('\0' <= #[trigger] text@[at] <= '\u{7f}');
                lemma_non_ascii_is_malformed(text@, 0, at);
            }
            return Err(PatternError::MalformedToken);
        }
        let codes = text.as_bytes();
        proof {
            is_ascii_spec_bytes(text);
        }
        let ghost chars = text@;
        let count = codes.len();
        let mut matchers: Vec<Matcher> = Vec::new();
        let mut at: usize = 0;
        assert(matchers@ + Seq::<Matcher>::empty() =~= matchers@);
        while at < count
            invariant
                at <= count == chars.len() == codes@.len(),
                chars == text@,
                forall|i: int| 0 <= i < count ==> chars[i] == (#[trigger] codes@[i]) as char,
                matchers_from(chars, 0) == followed_by(
                    matchers@,
                    matchers_from(chars, at as int),
                ),
            decreases count - at,
        {
            let first = codes[at];
            if first == 0x20 || first == 0x09 || first == 0x0A || first == 0x0C || first == 0x0D {
                at += 1;
            } else {
                let mut end: usize = at + 1;
                while end < count && !(codes[end] == 0x20 || codes[end] == 0x09 || codes[end]
                    == 0x0A || codes[end] == 0x0C || codes[end] == 0x0D)
                    invariant
                        at < end <= count == chars.len() == codes@.len(),
                        forall|i: int| 0 <= i < count ==> chars[i] == (#[trigger] codes@[i]) as char,
                        at + 1 + token_len(chars, at + 1) == end + token_len(chars, end as int),
                    decreases count - end,
                {
                    end += 1;
                }
                let ghost token = chars.subrange(at as int, end as int);
                let ghost rest = matchers_from(chars, end as int);
                assert(token[0] == chars[at as int]);
                let matcher = if end - at == 1 && first == 0x3F {
                    Matcher::Any
                } else if end - at == 2 {
                    assert(token[1] == chars[at + 1]);
                    match (hex_digit(first), hex_digit(codes[at + 1])) {
                        (Some(high), Some(low)) => Matcher::Exact(high * 16 + low),
                        _ => {
                            return Err(PatternError::MalformedToken);
                        },
                    }
                } else {
                    return Err(PatternError::MalformedToken);
                };
                assert(token_matcher(token) == Some(matcher));
                proof {
                    if rest is Some {
                        assert(matchers@.push(matcher) + rest->0 =~= matchers@ + (seq![matcher]
                            + rest->0));
                    }
                }
                matchers.push(matcher);
                at = end;
            }
        }
        if matchers.len() > MAX_PATTERN_LEN {
            return Err(PatternError::TooLong);
        }
        Ok(BytePattern { text: text.to_owned(), matchers })
    }

    /// The number of matchers.
    pub fn len(&self) -> (count: usize)
        ensures
            count == self@.len(),
    {
        self.matchers.len()
    }

    /// The matchers, in their order.
    pub fn matchers(&self) -> (matchers: &[Matcher])
        ensures
            matchers@ == self@,
    {
        self.matchers.as_slice()
    }

    /// Tests whether the pattern matches the bytes of `buffer` that start at
    /// offset `at`.
    pub fn matches_at(&self, buffer: &[u8], at: usize) -> (matched: bool)
        ensures
            matched == matches_at(buffer@, self@, at as int),
    {
        let count = self.matchers.len();
        if at > buffer.len() || buffer.len() - at < count {
            return false;
        }
        let mut j: usize = 0;
        while j < count
            invariant
                j <= count == self@.len(),
                at + count <= buffer@.len() <= usize::MAX,
                forall|k: int| 0 <= k < j ==> (#[trigger] self@[k]).accepts(buffer@[at + k]),
            decreases count - j,
        {
            if !self.matchers[j].matches(buffer[at + j]) {
                return false;
            }
            j += 1;
        }
        true
    }

    /// Finds the lowest offset of `buffer` at which every matcher accepts the
    /// byte under it. An offset where the pattern would run over the end of
    /// the buffer never qualifies; the empty pattern matches at offset 0.
    pub fn scan(&self, buffer: &[u8]) -> (found: Option<usize>)
        ensures
            match found {
                Some(at) => {
                    &&& is_first_match(buffer@, self@, at as int)
                    &&& first_match(buffer@, self@) == Some(at as int)
                },
                None => {
                    &&& forall|at: int| !matches_at(buffer@, self@, at)
                    &&& first_match(buffer@, self@) is None
                },
            },
    {
        proof {
            use_type_invariant(self);
            lemma_first_match_is_lowest(buffer@, self@);
        }
        if self.matchers.len() == 0 {
            assert(is_first_match(buffer@, self@, 0));
            proof {
                lemma_first_match(buffer@, self@, 0);
            }
            return Some(0);
        }
        let candidate = match scan_first_match(buffer, self.text.as_str()) {
            Ok(Some(at)) => at,
            _ => {
                return None;
            },
        };
        if self.matches_at(buffer, candidate) {
            proof {
                lemma_lowest_match(buffer@, self@, candidate as int);
            }
            Some(candidate)
        } else {
            None
        }
    }
}

} // verus!
