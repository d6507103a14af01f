use vstd::prelude::*;
use vstd::slice::*;
use crate::frontend_error::FrontendError;
use crate::scan::{
    Outcome, Scan, advanced, blank_len, comment_len, head_len, lemma_newlines_bound,
    lemma_skipped_extend, lex, literal_scan, newlines, none_word, remaining, skip_one, skipped,
    start, tail_len, use_word, valid_scan, word_end, word_kind,
};
use crate::token::{Span, Token, TokenData, TokenKind};
use crate::unicode::{ident_head, ident_tail, is_alphabetic, is_alphanumeric, is_whitespace, whitespace};

verus! {

/// What one read of the scanner gives: a token or the reason there is none.
pub type LexicalResult<'a> = Result<Token<'a>, FrontendError>;

/// A `LexicalResult` as contracts see it.
pub open spec fn outcome_of(r: LexicalResult) -> Outcome {
    match r {
        Ok(token) => Ok(token@),
        Err(e) => Err(e),
    }
}

fn count_newlines(text: &[char]) -> (n: usize)
    ensures
        n == newlines(text@),
{
    let mut n: usize = 0;
    let mut i: usize = 0;
    while i < text.len()
        invariant
            i <= text@.len(),
            n <= i,
            n == newlines(text@.subrange(0, i as int)),
        decreases text@.len() - i,
    {
        proof {
            assert(text@.subrange(0, i + 1).drop_last() =~= text@.subrange(0, i as int));
        }
        if text[i] == '\n' {
            n = n + 1;
        }
        i = i + 1;
    }
    proof {
        assert(text@.subrange(0, i as int) =~= text@);
    }
    n
}

fn keyword_kind(text: &[char]) -> (kind: TokenKind)
    ensures
        kind == word_kind(text@),
{
    if text.len() == 4 && text[0] == 'N' && text[1] == 'o' && text[2] == 'n' && text[3] == 'e' {
        proof {
            assert(text@ =~= none_word());
        }
        TokenKind::Epsilon
    } else if text.len() == 3 && text[0] == 'u' && text[1] == 's' && text[2] == 'e' {
        proof {
            assert(text@ =~= use_word());
            assert(none_word().len() == 4);
        }
        TokenKind::Use
    } else {
        proof {
            if text@ == none_word() {
                assert(none_word().len() == 4);
                assert(none_word()[0] == 'N' && none_word()[1] == 'o' && none_word()[2] == 'n' && none_word()[3] == 'e');
            }
            if text@ == use_word() {
                assert(use_word().len() == 3);
                assert(use_word()[0] == 'u' && use_word()[1] == 's' && use_word()[2] == 'e');
            }
        }
        TokenKind::Name
    }
}

/// A forward-only scanner over a borrowed buffer of characters. It gives one
/// token per read and remembers the last outcome.
pub struct Lexer<'a> {
    input: &'a [char],
    current: usize,
    last: usize,
    end: usize,
    line: usize,
    offset: usize,
    current_token: LexicalResult<'a>,
}

impl<'a> Lexer<'a> {
    /// The characters of the buffer.
    pub closed spec fn source(&self) -> Seq<char> {
        self.input@
    }

    /// Where the scanner stands.
    pub closed spec fn scan(&self) -> Scan {
        Scan {
            current: self.current as int,
            last: self.last as int,
            line: self.line as int,
            offset: self.offset as int,
        }
    }

    /// The outcome of the latest read.
    pub closed spec fn latest(&self) -> LexicalResult<'a> {
        self.current_token
    }

    /// The scanner stands at a valid scan of its buffer, and its positions fit
    /// the machine.
    pub closed spec fn wf(&self) -> bool {
        &&& self.end == self.input@.len()
        &&& self.end < usize::MAX
        &&& valid_scan(self.end as int, self.scan())
    }

    spec fn frame(&self, before: &Lexer<'a>) -> bool {
        &&& self.input == before.input
        &&& self.end == before.end
        &&& self.current_token == before.current_token
    }

    spec fn cursor_only(&self, before: &Lexer<'a>) -> bool {
        &&& self.frame(before)
        &&& self.last == before.last
        &&& self.line == before.line
        &&& self.offset == before.offset
    }

    /// A scanner at the start of `input`: line 1, offset 0, nothing read yet.
    pub fn new(input: &'a [char]) -> (lexer: Lexer<'a>)
        requires
            input@.len() < usize::MAX,
        ensures
            lexer.wf(),
            lexer.source() == input@,
            lexer.scan() == start(),
            lexer.latest() == Err::<Token<'a>, FrontendError>(FrontendError::Default),
    {
        Lexer {
            input: input,
            current: 0,
            last: 0,
            end: input.len(),
            line: 1,
            offset: 0,
            current_token: Err(FrontendError::Default),
        }
    }

    fn current(&self) -> (c: Option<char>)
        requires
            self.wf(),
        ensures
            match c {
                Some(c) => self.current < self.end && c == self.input@[self.current as int],
                None => self.current >= self.end,
            },
    {
        if self.current < self.end {
            Some(self.input[self.current])
        } else {
            None
        }
    }

    fn step(&mut self)
        requires
            old(self).wf(),
            old(self).current < old(self).end,
        ensures
            final(self).wf(),
            final(self).cursor_only(old(self)),
            final(self).current == old(self).current + 1,
    {
        self.current = self.current + 1;
    }

    /// Discards the character under the cursor.
    fn skip(&mut self)
        requires
            old(self).wf(),
            old(self).current < old(self).end,
        ensures
            final(self).wf(),
            final(self).frame(old(self)),
            final(self).scan() == skip_one(old(self).scan(), old(self).input@[old(self).current as int]),
    {
        let c = self.input[self.current];
        self.current = self.current + 1;
        self.last = self.last + 1;
        if c == '\n' {
            self.line = self.line + 1;
            self.offset = 0;
        } else {
            self.offset = self.offset + 1;
        }
    }

    fn current_match(&self) -> (text: &'a [char])
        requires
            self.wf(),
        ensures
            text@ == self.input@.subrange(self.last as int, self.current as int),
    {
        slice_subrange(self.input, self.last, self.current)
    }

    /// Turns the pending match into the data of a token and moves the
    /// position past it.
    fn accept(&mut self) -> (data: TokenData<'a>)
        requires
            old(self).wf(),
        ensures
            final(self).wf(),
            final(self).frame(old(self)),
            data@ == (Span {
                text: old(self).input@.subrange(old(self).last as int, old(self).current as int),
                line: old(self).line as int,
                offset: old(self).offset as int,
            }),
            final(self).scan() == advanced(old(self).input@, old(self).scan(), old(self).current as int),
    {
        let slice = self.current_match();
        let line_inc = count_newlines(slice);
        proof {
            lemma_newlines_bound(slice@);
        }
        let out = TokenData::new(slice, self.line, self.offset);
        self.last = self.current;
        if line_inc > 0 {
            self.line = self.line + line_inc;
            self.offset = 0;
        } else {
            self.offset = self.offset + slice.len();
        }
        out
    }

    fn at_blank(&self) -> (b: bool)
        requires
            self.wf(),
        ensures
            b == (self.current < self.end && whitespace(self.input@[self.current as int])),
    {
        match self.current() {
            Some(c) => is_whitespace(c),
            None => false,
        }
    }

    fn at_comment_text(&self) -> (b: bool)
        requires
            self.wf(),
        ensures
            b == (self.current < self.end && self.input@[self.current as int] != '\n'),
    {
        match self.current() {
            Some(c) => c != '\n',
            None => false,
        }
    }

    fn at_head(&self) -> (b: bool)
        requires
            self.wf(),
        ensures
            b == (self.current < self.end && ident_head(self.input@[self.current as int])),
    {
        match self.current() {
            Some(c) => is_alphabetic(c) || c == '_',
            None => false,
        }
    }

    fn at_tail(&self) -> (b: bool)
        requires
            self.wf(),
        ensures
            b == (self.current < self.end && ident_tail(self.input@[self.current as int])),
    {
        match self.current() {
            Some(c) => is_alphanumeric(c) || c == '_',
            None => false,
        }
    }

    /// Discards the run of whitespace under the cursor.
    fn skip_blank(&mut self)
        requires
            old(self).wf(),
        ensures
            final(self).wf(),
            final(self).frame(old(self)),
            final(self).scan() == skipped(
                old(self).input@,
                old(self).scan(),
                old(self).current + blank_len(old(self).input@, old(self).current as int),
            ),
    {
        let ghost s0 = self.scan();
        let ghost src = self.input@;
        let ghost before = *self;
        proof {
            assert(src.subrange(s0.current, s0.current).len() == 0);
        }
        while self.at_blank()
            invariant
                self.wf(),
                self.frame(&before),
                src == self.input@,
                0 <= s0.current <= self.current <= self.end,
                self.scan() == skipped(src, s0, self.current as int),
                s0.current + blank_len(src, s0.current) == self.current + blank_len(
                    src,
                    self.current as int,
                ),
            decreases self.end - self.current,
        {
            proof {
                lemma_skipped_extend(src, s0, self.current as int);
            }
            self.skip();
        }
    }

    /// Discards a comment: the cursor stands on its `#`.
    fn skip_comment(&mut self)
        requires
            old(self).wf(),
            old(self).current < old(self).end,
        ensures
            final(self).wf(),
            final(self).frame(old(self)),
            final(self).scan() == skipped(
                old(self).input@,
                old(self).scan(),
                old(self).current + 1 + comment_len(old(self).input@, old(self).current + 1),
            ),
    {
        let ghost s0 = self.scan();
        let ghost src = self.input@;
        let ghost before = *self;
        proof {
            lemma_skipped_extend(src, s0, s0.current);
        }
        self.skip();
        while self.at_comment_text()
            invariant
                self.wf(),
                self.frame(&before),
                src == self.input@,
                0 <= s0.current < self.current <= self.end,
                self.scan() == skipped(src, s0, self.current as int),
                s0.current + 1 + comment_len(src, s0.current + 1) == self.current + comment_len(
                    src,
                    self.current as int,
                ),
            decreases self.end - self.current,
        {
            proof {
                lemma_skipped_extend(src, s0, self.current as int);
            }
            self.skip();
        }
        if self.current < self.end {
            proof {
                lemma_skipped_extend(src, s0, self.current as int);
            }
            self.skip();
        }
    }

    /// Moves the cursor over an identifier.
    fn scan_word(&mut self)
        requires
            old(self).wf(),
        ensures
            final(self).wf(),
            final(self).cursor_only(old(self)),
            final(self).current == word_end(old(self).input@, old(self).current as int),
    {
        let ghost from = self.current as int;
        let ghost src = self.input@;
        let ghost before = *self;
        while self.at_head()
            invariant
                self.wf(),
                self.cursor_only(&before),
                src == self.input@,
                from <= self.current <= self.end,
                from + head_len(src, from) == self.current + head_len(src, self.current as int),
            decreases self.end - self.current,
        {
            self.step();
        }
        let ghost head = self.current as int;
        while self.at_tail()
            invariant
                self.wf(),
                self.cursor_only(&before),
                src == self.input@,
                head <= self.current <= self.end,
                head + tail_len(src, head) == self.current + tail_len(src, self.current as int),
            decreases self.end - self.current,
        {
            self.step();
        }
    }

    /// Moves the cursor over the body of a literal and its closing quote, or
    /// to the place where the body breaks off. Tells whether it was closed.
    fn scan_literal(&mut self) -> (closed: bool)
        requires
            old(self).wf(),
        ensures
            final(self).wf(),
            final(self).cursor_only(old(self)),
            closed ==> final(self).current > old(self).current,
            match literal_scan(old(self).input@, old(self).current as int) {
                Ok(end) => closed && final(self).current == end,
                Err(at) => !closed && final(self).current == at,
            },
    {
        let ghost from = self.current as int;
        let ghost src = self.input@;
        let ghost before = *self;
        loop
            invariant
                self.wf(),
                self.cursor_only(&before),
                before == *old(self),
                from == old(self).current,
                src == self.input@,
                from <= self.current <= self.end,
                literal_scan(src, from) == literal_scan(src, self.current as int),
            decreases self.end - self.current,
        {
            match self.current() {
                None => {
                    return false;
                },
                Some(c) => {
                    if c == '"' {
                        self.step();
                        return true;
                    } else if c == '\\' {
                        self.step();
                        match self.current() {
                            Some(escaped) => {
                                if escaped == '"' || escaped == '\\' {
                                    self.step();
                                } else {
                                    return false;
                                }
                            },
                            None => {
                                return false;
                            },
                        }
                    } else {
                        self.step();
                    }
                },
            }
        }
    }

    /// The outcome of the latest read, or `Default` before the first.
    pub fn current_out(&self) -> (r: LexicalResult<'a>)
        ensures
            r == self.latest(),
    {
        self.current_token
    }

    /// Reads the next token.
    pub fn next(&mut self) -> (r: LexicalResult<'a>)
        requires
            old(self).wf(),
        ensures
            final(self).wf(),
            final(self).source() == old(self).source(),
            final(self).latest() == r,
            (final(self).scan(), outcome_of(r)) == lex(old(self).source(), old(self).scan()),
        decreases remaining(old(self).source(), old(self).scan()),
    {
        let tok: LexicalResult<'a> = match self.current() {
            None => Err(FrontendError::EOI),
            Some(c) => {
                if c == '|' {
                    self.step();
                    Ok(Token::Or(self.accept()))
                } else if c == '{' {
                    self.step();
                    Ok(Token::OpenBrace(self.accept()))
                } else if c == '}' {
                    self.step();
                    Ok(Token::CloseBrace(self.accept()))
                } else if c == '"' {
                    self.step();
                    if self.scan_literal() {
                        let quoted = Token::Literal(self.accept());
                        Ok(quoted.clean())
                    } else {
                        Err(FrontendError::ExpectedEscapeSequence)
                    }
                } else if c == '\u{3f5}' {
                    self.step();
                    Ok(Token::Epsilon(self.accept()))
                } else if c == '-' {
                    self.step();
                    match self.current() {
                        Some(look) => {
                            if look == '>' {
                                self.step();
                                Ok(Token::Arrow(self.accept()))
                            } else {
                                Err(FrontendError::ExpectedArrowTip)
                            }
                        },
                        None => Err(FrontendError::ExpectedMoreInput),
                    }
                } else if c == ';' {
                    self.step();
                    Ok(Token::Endl(self.accept()))
                } else if c == ':' {
                    self.step();
                    match self.current() {
                        Some(look) => {
                            if look == ':' {
                                self.step();
                                Ok(Token::PathSeperator(self.accept()))
                            } else {
                                Err(FrontendError::ExpectedColon)
                            }
                        },
                        None => Err(FrontendError::ExpectedMoreInput),
                    }
                } else if c == '#' {
                    self.skip_comment();
                    self.next()
                } else if c == '?' {
                    self.step();
                    Ok(Token::QMark(self.accept()))
                } else if is_alphabetic(c) || c == '_' {
                    self.scan_word();
                    let kind = keyword_kind(self.current_match());
                    let data = self.accept();
                    match kind {
                        TokenKind::Epsilon => Ok(Token::Epsilon(data)),
                        TokenKind::Use => Ok(Token::Use(data)),
                        _ => Ok(Token::Name(data)),
                    }
                } else if is_whitespace(c) {
                    self.skip_blank();
                    self.next()
                } else {
                    Err(FrontendError::UnrecognizedInput)
                }
            },
        };
        self.current_token = tok;
        tok
    }
}

} // verus!
