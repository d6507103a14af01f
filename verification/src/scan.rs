use vstd::prelude::*;
use crate::frontend_error::FrontendError;
use crate::token::{Lexeme, TokenKind, clean_lexeme};
use crate::unicode::{ident_head, ident_tail, whitespace};

verus! {

/// What one read of the scanner gives, as contracts see it: a lexeme or the
/// reason there is none.
pub type Outcome = Result<Lexeme, FrontendError>;

/// Where a scan stands in its buffer: the index of the next character to
/// read, the index at which the pending match began, and the line and
/// offset of that beginning.
pub struct Scan {
    pub current: int,
    pub last: int,
    pub line: int,
    pub offset: int,
}

/// The scan of a fresh buffer.
pub open spec fn start() -> Scan {
    Scan { current: 0, last: 0, line: 1, offset: 0 }
}

/// A scan that can arise on a buffer of `len` characters.
pub open spec fn valid_scan(len: int, s: Scan) -> bool {
    &&& 0 <= s.last <= s.current <= len
    &&& 1 <= s.line <= s.last + 1
    &&& 0 <= s.offset <= s.last
}

/// Characters left to read.
pub open spec fn remaining(input: Seq<char>, s: Scan) -> nat {
    if 0 <= s.current < input.len() {
        (input.len() - s.current) as nat
    } else {
        0
    }
}

/// How many newlines `text` holds.
pub open spec fn newlines(text: Seq<char>) -> nat
    decreases text.len(),
{
    if text.len() == 0 {
        0
    } else {
        newlines(text.drop_last()) + if text.last() == '\n' { 1nat } else { 0nat }
    }
}

/// The offset in its line reached by reading `text` from `offset` on: the
/// count of characters behind the last newline, or all of them added to
/// `offset` where there is none.
pub open spec fn column_after(text: Seq<char>, offset: int) -> int
    decreases text.len(),
{
    if text.len() == 0 {
        offset
    } else if text.last() == '\n' {
        0
    } else {
        column_after(text.drop_last(), offset) + 1
    }
}

/// The scan after one character `c` was discarded.
pub open spec fn skip_one(s: Scan, c: char) -> Scan {
    Scan {
        current: s.current + 1,
        last: s.last + 1,
        line: s.line + if c == '\n' { 1int } else { 0int },
        offset: if c == '\n' { 0 } else { s.offset + 1 },
    }
}

/// The scan after the characters from `s.current` up to `end` were discarded:
/// the pending match moves along with the cursor.
pub open spec fn skipped(input: Seq<char>, s: Scan, end: int) -> Scan {
    let text = input.subrange(s.current, end);
    Scan {
        current: end,
        last: s.last + text.len(),
        line: s.line + newlines(text),
        offset: column_after(text, s.offset),
    }
}

/// The scan after the match from `s.last` up to `end` became a token: a match
/// with newlines in it starts the next token at offset 0 of a later line.
pub open spec fn advanced(input: Seq<char>, s: Scan, end: int) -> Scan {
    let text = input.subrange(s.last, end);
    Scan {
        current: end,
        last: end,
        line: s.line + newlines(text),
        offset: if newlines(text) > 0 { 0 } else { s.offset + text.len() },
    }
}

/// A token of `kind` made of the match from `s.last` up to `end`.
pub open spec fn emit(input: Seq<char>, s: Scan, end: int, kind: TokenKind) -> (Scan, Outcome) {
    let raw = Lexeme { kind: kind, text: input.subrange(s.last, end), line: s.line, offset: s.offset };
    (advanced(input, s, end), Ok(clean_lexeme(raw)))
}

/// A failure noticed with the cursor at `at`; the pending match stays open.
pub open spec fn fail(s: Scan, at: int, e: FrontendError) -> (Scan, Outcome) {
    (Scan { current: at, ..s }, Err(e))
}

/// Length of the run of whitespace that starts at `i`.
pub open spec fn blank_len(input: Seq<char>, i: int) -> nat
    decreases input.len() - i,
{
    if 0 <= i < input.len() && whitespace(input[i]) {
        1 + blank_len(input, i + 1)
    } else {
        0
    }
}

/// Length of the rest of a comment from `i` on: up to and with the first
/// newline, or up to the end of the input.
pub open spec fn comment_len(input: Seq<char>, i: int) -> nat
    decreases input.len() - i,
{
    if 0 <= i < input.len() {
        if input[i] == '\n' {
            1
        } else {
            1 + comment_len(input, i + 1)
        }
    } else {
        0
    }
}

/// Length of the run of identifier-head characters that starts at `i`.
pub open spec fn head_len(input: Seq<char>, i: int) -> nat
    decreases input.len() - i,
{
    if 0 <= i < input.len() && ident_head(input[i]) {
        1 + head_len(input, i + 1)
    } else {
        0
    }
}

/// Length of the run of identifier-tail characters that starts at `i`.
pub open spec fn tail_len(input: Seq<char>, i: int) -> nat
    decreases input.len() - i,
{
    if 0 <= i < input.len() && ident_tail(input[i]) {
        1 + tail_len(input, i + 1)
    } else {
        0
    }
}

/// Where the identifier that starts at `i` ends: a run of head characters,
/// then a run of tail characters.
pub open spec fn word_end(input: Seq<char>, i: int) -> int {
    let head = i + head_len(input, i);
    head + tail_len(input, head)
}

/// The body of a literal read from `i` on, just behind its opening quote:
/// `Ok` with the index behind the closing quote, or `Err` with the index at
/// which the scan gave up. A backslash must be followed by a quote or a
/// backslash, and the input must not end before the closing quote.
pub open spec fn literal_scan(input: Seq<char>, i: int) -> Result<int, int>
    decreases input.len() - i,
{
    if 0 <= i < input.len() {
        if input[i] == '"' {
            Ok(i + 1)
        } else if input[i] == '\\' {
            if i + 1 < input.len() && (input[i + 1] == '"' || input[i + 1] == '\\') {
                literal_scan(input, i + 2)
            } else {
                Err(i + 1)
            }
        } else {
            literal_scan(input, i + 1)
        }
    } else {
        Err(i)
    }
}

/// The spelling of the empty symbol.
pub open spec fn none_word() -> Seq<char> {
    seq!['N', 'o', 'n', 'e']
}

/// The spelling of the import keyword.
pub open spec fn use_word() -> Seq<char> {
    seq!['u', 's', 'e']
}

/// The kind of an identifier: two spellings are reserved.
pub open spec fn word_kind(text: Seq<char>) -> TokenKind {
    if text == none_word() {
        TokenKind::Epsilon
    } else if text == use_word() {
        TokenKind::Use
    } else {
        TokenKind::Name
    }
}

/// What the first character of a token decides.
pub enum Lead {
    Or,
    OpenBrace,
    CloseBrace,
    Quote,
    Epsilon,
    Dash,
    Endl,
    Colon,
    Hash,
    QMark,
    Word,
    Blank,
    Unknown,
}

/// The lead that `c` is: the marks first, then identifiers, then whitespace.
pub open spec fn lead_of(c: char) -> Lead {
    if c == '|' {
        Lead::Or
    } else if c == '{' {
        Lead::OpenBrace
    } else if c == '}' {
        Lead::CloseBrace
    } else if c == '"' {
        Lead::Quote
    } else if c == '\u{3f5}' {
        Lead::Epsilon
    } else if c == '-' {
        Lead::Dash
    } else if c == ';' {
        Lead::Endl
    } else if c == ':' {
        Lead::Colon
    } else if c == '#' {
        Lead::Hash
    } else if c == '?' {
        Lead::QMark
    } else if ident_head(c) {
        Lead::Word
    } else if whitespace(c) {
        Lead::Blank
    } else {
        Lead::Unknown
    }
}

/// One read of the scanner: the scan it leaves and what it gives.
/// Comments and whitespace are passed over; a failure leaves the pending
/// match open, so that the next token's text begins where the last token
/// ended or the last discarded character stood.
pub open spec fn lex(input: Seq<char>, s: Scan) -> (Scan, Outcome)
    decreases remaining(input, s),
{
    if 0 <= s.current < input.len() {
        let next = s.current + 1;
        match lead_of(input[s.current]) {
            Lead::Or => emit(input, s, next, TokenKind::Or),
            Lead::OpenBrace => emit(input, s, next, TokenKind::OpenBrace),
            Lead::CloseBrace => emit(input, s, next, TokenKind::CloseBrace),
            Lead::Quote => match literal_scan(input, next) {
                Ok(end) => emit(input, s, end, TokenKind::Literal),
                Err(at) => fail(s, at, FrontendError::ExpectedEscapeSequence),
            },
            Lead::Epsilon => emit(input, s, next, TokenKind::Epsilon),
            Lead::Dash => if next >= input.len() {
                fail(s, next, FrontendError::ExpectedMoreInput)
            } else if input[next] == '>' {
                emit(input, s, next + 1, TokenKind::Arrow)
            } else {
                fail(s, next, FrontendError::ExpectedArrowTip)
            },
            Lead::Endl => emit(input, s, next, TokenKind::Endl),
            Lead::Colon => if next >= input.len() {
                fail(s, next, FrontendError::ExpectedMoreInput)
            } else if input[next] == ':' {
                emit(input, s, next + 1, TokenKind::PathSeperator)
            } else {
                fail(s, next, FrontendError::ExpectedColon)
            },
            Lead::Hash => lex(input, skipped(input, s, next + comment_len(input, next))),
            Lead::QMark => emit(input, s, next, TokenKind::QMark),
            Lead::Word => {
                let end = word_end(input, s.current);
                emit(input, s, end, word_kind(input.subrange(s.last, end)))
            },
            Lead::Blank => lex(input, skipped(input, s, next + blank_len(input, next))),
            Lead::Unknown => (s, Err(FrontendError::UnrecognizedInput)),
        }
    } else {
        (s, Err(FrontendError::EOI))
    }
}

/// A run of whitespace ends within the input.
pub proof fn lemma_blank_len_bound(input: Seq<char>, i: int)
    requires
        0 <= i <= input.len(),
    ensures
        i + blank_len(input, i) <= input.len(),
    decreases input.len() - i,
{
    if i < input.len() && whitespace(input[i]) {
        lemma_blank_len_bound(input, i + 1);
    }
}

/// A comment ends within the input.
pub proof fn lemma_comment_len_bound(input: Seq<char>, i: int)
    requires
        0 <= i <= input.len(),
    ensures
        i + comment_len(input, i) <= input.len(),
    decreases input.len() - i,
{
    if i < input.len() && input[i] != '\n' {
        lemma_comment_len_bound(input, i + 1);
    }
}

/// A literal is closed behind its first character and within the input;
/// a broken one breaks off within the input.
pub proof fn lemma_literal_scan_bound(input: Seq<char>, i: int)
    requires
        0 <= i <= input.len(),
    ensures
        match literal_scan(input, i) {
            Ok(end) => i < end <= input.len(),
            Err(at) => i <= at <= input.len(),
        },
    decreases input.len() - i,
{
    if i < input.len() {
        if input[i] == '"' {
        } else if input[i] == '\\' {
            if i + 1 < input.len() && (input[i + 1] == '"' || input[i + 1] == '\\') {
                lemma_literal_scan_bound(input, i + 2);
            }
        } else {
            lemma_literal_scan_bound(input, i + 1);
        }
    }
}

/// An identifier ends within the input, and behind its first character
/// where it has one.
pub proof fn lemma_word_end_bound(input: Seq<char>, i: int)
    requires
        0 <= i <= input.len(),
    ensures
        i <= word_end(input, i) <= input.len(),
        i < input.len() && ident_head(input[i]) ==> i < word_end(input, i),
{
    lemma_head_len_bound(input, i);
    lemma_tail_len_bound(input, i + head_len(input, i));
}

/// The head of an identifier ends within the input.
pub proof fn lemma_head_len_bound(input: Seq<char>, i: int)
    requires
        0 <= i <= input.len(),
    ensures
        i + head_len(input, i) <= input.len(),
    decreases input.len() - i,
{
    if i < input.len() && ident_head(input[i]) {
        lemma_head_len_bound(input, i + 1);
    }
}

/// The tail of an identifier ends within the input.
pub proof fn lemma_tail_len_bound(input: Seq<char>, i: int)
    requires
        0 <= i <= input.len(),
    ensures
        i + tail_len(input, i) <= input.len(),
    decreases input.len() - i,
{
    if i < input.len() && ident_tail(input[i]) {
        lemma_tail_len_bound(input, i + 1);
    }
}

/// A text holds no more newlines than characters.
pub proof fn lemma_newlines_bound(text: Seq<char>)
    ensures
        newlines(text) <= text.len(),
    decreases text.len(),
{
    if text.len() > 0 {
        lemma_newlines_bound(text.drop_last());
    }
}

/// Discarding one more character: a newline starts a line, any other
/// character moves the offset on by one.
pub proof fn lemma_skipped_extend(input: Seq<char>, s: Scan, end: int)
    requires
        0 <= s.current <= end < input.len(),
    ensures
        skipped(input, s, end + 1) == skip_one(skipped(input, s, end), input[end]),
        skipped(input, s, s.current) == s,
{
    let longer = input.subrange(s.current, end + 1);
    assert(longer.drop_last() =~= input.subrange(s.current, end));
    assert(longer.last() == input[end]);
    assert(input.subrange(s.current, s.current).len() == 0);
}

/// A read never moves the cursor back, and a read that gives a token moves
/// it on by at least one character.
pub proof fn lemma_lex_moves(input: Seq<char>, s: Scan)
    ensures
        remaining(input, lex(input, s).0) + (if lex(input, s).1 is Ok { 1nat } else { 0nat })
            <= remaining(input, s),
    decreases remaining(input, s),
{
    if 0 <= s.current < input.len() {
        let next = s.current + 1;
        lemma_literal_scan_bound(input, next);
        lemma_word_end_bound(input, s.current);
        match lead_of(input[s.current]) {
            Lead::Hash => {
                lemma_comment_len_bound(input, next);
                lemma_lex_moves(input, skipped(input, s, next + comment_len(input, next)));
            },
            Lead::Blank => {
                lemma_blank_len_bound(input, next);
                lemma_lex_moves(input, skipped(input, s, next + blank_len(input, next)));
            },
            _ => {},
        }
    }
}

} // verus!
