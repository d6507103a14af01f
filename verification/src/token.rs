use vstd::prelude::*;
use vstd::slice::*;
use vstd::string::*;
use crate::text::{decimal, push_chars, push_decimal};

verus! {

/// The kinds of token that the language has.
#[derive(Debug, Clone, Copy, PartialEq, Eq, Structural)]
pub enum TokenKind {
    Name,
    Arrow,
    Or,
    Endl,
    Epsilon,
    Literal,
    Use,
    PathSeperator,
    OpenBrace,
    CloseBrace,
    QMark,
}

/// What a `TokenData` stands for: the matched text and where it began.
pub struct Span {
    pub text: Seq<char>,
    pub line: int,
    pub offset: int,
}

/// What a `Token` stands for: its kind and its span.
pub struct Lexeme {
    pub kind: TokenKind,
    pub text: Seq<char>,
    pub line: int,
    pub offset: int,
}

/// How each kind of token is called when it is shown.
pub open spec fn kind_label(kind: TokenKind) -> Seq<char> {
    match kind {
        TokenKind::Name => "Name"@,
        TokenKind::Arrow => "Arrow"@,
        TokenKind::Or => "Or"@,
        TokenKind::Endl => "Endline"@,
        TokenKind::Epsilon => "Epsilon"@,
        TokenKind::Literal => "Literal"@,
        TokenKind::Use => "Use"@,
        TokenKind::PathSeperator => "Path Seperator"@,
        TokenKind::OpenBrace => "Open Brace"@,
        TokenKind::CloseBrace => "Close Brace"@,
        TokenKind::QMark => "Question Mark"@,
    }
}

/// A span as it is shown: its exact text, its line and its offset.
pub open spec fn span_text(span: Span) -> Seq<char> {
    "value: '"@ + span.text + "', line: "@ + decimal(span.line as nat) + ", offset: "@ + decimal(
        span.offset as nat,
    )
}

/// A lexeme as it is shown: the name of its kind, then its span.
pub open spec fn lexeme_text(l: Lexeme) -> Seq<char> {
    kind_label(l.kind) + ": "@ + span_text(
        Span { text: l.text, line: l.line, offset: l.offset },
    )
}

/// A literal's text without its first and last character; any other lexeme
/// as it is.
pub open spec fn clean_lexeme(l: Lexeme) -> Lexeme {
    if l.kind == TokenKind::Literal {
        Lexeme { text: l.text.subrange(1, l.text.len() - 1), ..l }
    } else {
        l
    }
}

/// The matched text, borrowed from the scanned buffer, with the 1-based line
/// and the 0-based offset in that line at which it starts.
#[derive(Debug, Clone, Copy)]
pub struct TokenData<'a> {
    value: &'a [char],
    line: usize,
    offset: usize,
}

impl<'a> View for TokenData<'a> {
    type V = Span;

    closed spec fn view(&self) -> Span {
        Span { text: self.value@, line: self.line as int, offset: self.offset as int }
    }
}

impl<'a> TokenData<'a> {
    /// Data for the text `value`, read at `line` and `offset`.
    pub fn new(value: &'a [char], line: usize, offset: usize) -> (data: TokenData<'a>)
        ensures
            data@ == (Span { text: value@, line: line as int, offset: offset as int }),
            data.text() == value,
    {
        TokenData { value: value, line: line, offset: offset }
    }

    /// The borrowed text itself.
    pub closed spec fn text(&self) -> &'a [char] {
        self.value
    }

    pub fn value(&self) -> (value: &'a [char])
        ensures
            value@ == self@.text,
            value == self.text(),
    {
        self.value
    }

    pub fn line(&self) -> (line: usize)
        ensures
            line == self@.line,
    {
        self.line
    }

    pub fn offset(&self) -> (offset: usize)
        ensures
            offset == self@.offset,
    {
        self.offset
    }

    /// The text to display for this data.
    pub fn to_string(&self) -> (text: String)
        ensures
            text@ == span_text(self@),
    {
        let mut text = String::from_str("value: '");
        push_chars(&mut text, self.value);
        text.append("', line: ");
        push_decimal(&mut text, self.line);
        text.append(", offset: ");
        push_decimal(&mut text, self.offset);
        text
    }
}

#[derive(Debug, Clone, Copy)]
/// A token: its kind, and the text and position it was read at.
pub enum Token<'a> {
    Name(TokenData<'a>),
    Arrow(TokenData<'a>),
    Or(TokenData<'a>),
    Endl(TokenData<'a>),
    Epsilon(TokenData<'a>),
    Literal(TokenData<'a>),
    Use(TokenData<'a>),
    PathSeperator(TokenData<'a>),
    OpenBrace(TokenData<'a>),
    CloseBrace(TokenData<'a>),
    QMark(TokenData<'a>),
}

impl<'a> View for Token<'a> {
    type V = Lexeme;

    open spec fn view(&self) -> Lexeme {
        let span = self.span();
        Lexeme { kind: self.spec_kind(), text: span.text, line: span.line, offset: span.offset }
    }
}

impl<'a> Token<'a> {
    /// The kind of this token.
    pub open spec fn spec_kind(&self) -> TokenKind {
        match *self {
            Token::Name(_) => TokenKind::Name,
            Token::Arrow(_) => TokenKind::Arrow,
            Token::Or(_) => TokenKind::Or,
            Token::Endl(_) => TokenKind::Endl,
            Token::Epsilon(_) => TokenKind::Epsilon,
            Token::Literal(_) => TokenKind::Literal,
            Token::Use(_) => TokenKind::Use,
            Token::PathSeperator(_) => TokenKind::PathSeperator,
            Token::OpenBrace(_) => TokenKind::OpenBrace,
            Token::CloseBrace(_) => TokenKind::CloseBrace,
            Token::QMark(_) => TokenKind::QMark,
        }
    }

    /// The data that this token wraps.
    pub open spec fn spec_data(&self) -> TokenData<'a> {
        match *self {
            Token::Name(d) => d,
            Token::Arrow(d) => d,
            Token::Or(d) => d,
            Token::Endl(d) => d,
            Token::Epsilon(d) => d,
            Token::Literal(d) => d,
            Token::Use(d) => d,
            Token::PathSeperator(d) => d,
            Token::OpenBrace(d) => d,
            Token::CloseBrace(d) => d,
            Token::QMark(d) => d,
        }
    }

    /// The text and position of this token.
    pub open spec fn span(&self) -> Span {
        self.spec_data()@
    }

    #[verifier::when_used_as_spec(spec_kind)]
    pub fn kind(&self) -> (kind: TokenKind)
        ensures
            kind == self.spec_kind(),
    {
        match *self {
            Token::Name(_) => TokenKind::Name,
            Token::Arrow(_) => TokenKind::Arrow,
            Token::Or(_) => TokenKind::Or,
            Token::Endl(_) => TokenKind::Endl,
            Token::Epsilon(_) => TokenKind::Epsilon,
            Token::Literal(_) => TokenKind::Literal,
            Token::Use(_) => TokenKind::Use,
            Token::PathSeperator(_) => TokenKind::PathSeperator,
            Token::OpenBrace(_) => TokenKind::OpenBrace,
            Token::CloseBrace(_) => TokenKind::CloseBrace,
            Token::QMark(_) => TokenKind::QMark,
        }
    }

    #[verifier::when_used_as_spec(spec_data)]
    pub fn data(&self) -> (data: TokenData<'a>)
        ensures
            data == self.spec_data(),
    {
        match *self {
            Token::Name(d) => d,
            Token::Arrow(d) => d,
            Token::Or(d) => d,
            Token::Endl(d) => d,
            Token::Epsilon(d) => d,
            Token::Literal(d) => d,
            Token::Use(d) => d,
            Token::PathSeperator(d) => d,
            Token::OpenBrace(d) => d,
            Token::CloseBrace(d) => d,
            Token::QMark(d) => d,
        }
    }

    /// The text to display for this token.
    pub fn to_string(&self) -> (text: String)
        ensures
            text@ == lexeme_text(self@),
    {
        let label = match *self {
            Token::Name(_) => "Name",
            Token::Arrow(_) => "Arrow",
            Token::Or(_) => "Or",
            Token::Endl(_) => "Endline",
            Token::Epsilon(_) => "Epsilon",
            Token::Literal(_) => "Literal",
            Token::Use(_) => "Use",
            Token::PathSeperator(_) => "Path Seperator",
            Token::OpenBrace(_) => "Open Brace",
            Token::CloseBrace(_) => "Close Brace",
            Token::QMark(_) => "Question Mark",
        };
        let shown = self.data().to_string();
        let mut text = String::from_str(label);
        text.append(": ");
        text.append(shown.as_str());
        text
    }

    /// Strips the quote marks of a literal: its text loses its first and its
    /// last character and keeps its position. Other tokens pass unchanged.
    pub fn clean(self) -> (cleaned: Token<'a>)
        requires
            self.spec_kind() == TokenKind::Literal ==> self@.text.len() >= 2,
        ensures
            cleaned@ == clean_lexeme(self@),
            self.spec_kind() != TokenKind::Literal ==> cleaned == self,
    {
        match self {
            Token::Literal(data) => {
                let value = data.value();
                let inner = slice_subrange(value, 1, value.len() - 1);
                Token::Literal(TokenData::new(inner, data.line(), data.offset()))
            },
            _ => self,
        }
    }
}

} // verus!
