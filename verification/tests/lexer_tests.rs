use gideon::frontend_error::FrontendError;
use gideon::lexer::Lexer;
use gideon::token::{Token, TokenData, TokenKind};

fn chars(text: &str) -> Vec<char> {
    text.chars().collect()
}

fn text_of(token: &Token) -> String {
    token.data().value().iter().collect()
}

fn expect_token(lexer: &mut Lexer, kind: TokenKind, text: &str, line: usize, offset: usize) {
    let token = lexer.next().expect("a token");
    assert_eq!(token.kind(), kind);
    assert_eq!(text_of(&token), text);
    assert_eq!(token.data().line(), line);
    assert_eq!(token.data().offset(), offset);
}

#[test]
fn empty_input_is_end_of_input() {
    let input = chars("");
    let mut lexer = Lexer::new(&input);
    assert_eq!(lexer.next().unwrap_err(), FrontendError::EOI);
    assert_eq!(lexer.next().unwrap_err(), FrontendError::EOI);
}

#[test]
fn blanks_and_comments_give_only_end_of_input() {
    let input = chars("  \n\t # a comment -> \"x\"\n\n# another without newline");
    let mut lexer = Lexer::new(&input);
    assert_eq!(lexer.next().unwrap_err(), FrontendError::EOI);
    assert_eq!(lexer.next().unwrap_err(), FrontendError::EOI);
}

#[test]
fn current_out_starts_as_default_and_follows_reads() {
    let input = chars("A ;");
    let mut lexer = Lexer::new(&input);
    assert_eq!(lexer.current_out().unwrap_err(), FrontendError::Default);
    let first = lexer.next().unwrap();
    let again = lexer.current_out().unwrap();
    assert_eq!(first.kind(), again.kind());
    assert_eq!(text_of(&first), text_of(&again));
    let second = lexer.next().unwrap();
    assert_eq!(second.kind(), TokenKind::Endl);
    assert_eq!(lexer.current_out().unwrap().kind(), TokenKind::Endl);
    assert_eq!(lexer.next().unwrap_err(), FrontendError::EOI);
    assert_eq!(lexer.current_out().unwrap_err(), FrontendError::EOI);
}

#[test]
fn every_token_keeps_its_text_and_position() {
    let input = chars("A -> \"x\" ;");
    let mut lexer = Lexer::new(&input);
    expect_token(&mut lexer, TokenKind::Name, "A", 1, 0);
    expect_token(&mut lexer, TokenKind::Arrow, "->", 1, 2);
    expect_token(&mut lexer, TokenKind::Literal, "x", 1, 5);
    expect_token(&mut lexer, TokenKind::Endl, ";", 1, 9);
    assert_eq!(lexer.next().unwrap_err(), FrontendError::EOI);
}

#[test]
fn single_character_tokens() {
    let input = chars("|{}\u{3f5};?");
    let mut lexer = Lexer::new(&input);
    expect_token(&mut lexer, TokenKind::Or, "|", 1, 0);
    expect_token(&mut lexer, TokenKind::OpenBrace, "{", 1, 1);
    expect_token(&mut lexer, TokenKind::CloseBrace, "}", 1, 2);
    expect_token(&mut lexer, TokenKind::Epsilon, "\u{3f5}", 1, 3);
    expect_token(&mut lexer, TokenKind::Endl, ";", 1, 4);
    expect_token(&mut lexer, TokenKind::QMark, "?", 1, 5);
}

#[test]
fn path_separator_needs_two_colons() {
    let input = chars("::");
    let mut lexer = Lexer::new(&input);
    expect_token(&mut lexer, TokenKind::PathSeperator, "::", 1, 0);

    let input = chars(":a");
    let mut lexer = Lexer::new(&input);
    assert_eq!(lexer.next().unwrap_err(), FrontendError::ExpectedColon);

    let input = chars(":");
    let mut lexer = Lexer::new(&input);
    assert_eq!(lexer.next().unwrap_err(), FrontendError::ExpectedMoreInput);
}

#[test]
fn dash_needs_arrow_tip() {
    let input = chars("->");
    let mut lexer = Lexer::new(&input);
    expect_token(&mut lexer, TokenKind::Arrow, "->", 1, 0);

    let input = chars("-x");
    let mut lexer = Lexer::new(&input);
    assert_eq!(lexer.next().unwrap_err(), FrontendError::ExpectedArrowTip);

    let input = chars("- >");
    let mut lexer = Lexer::new(&input);
    assert_eq!(lexer.next().unwrap_err(), FrontendError::ExpectedArrowTip);

    let input = chars("-");
    let mut lexer = Lexer::new(&input);
    assert_eq!(lexer.next().unwrap_err(), FrontendError::ExpectedMoreInput);
}

#[test]
fn failed_read_leaves_its_characters_in_the_match() {
    let input = chars("-a");
    let mut lexer = Lexer::new(&input);
    assert_eq!(lexer.next().unwrap_err(), FrontendError::ExpectedArrowTip);
    expect_token(&mut lexer, TokenKind::Name, "-a", 1, 0);
}

#[test]
fn escapes_in_literals() {
    let input = chars("\"a\\\"b\\\\c\"");
    let mut lexer = Lexer::new(&input);
    expect_token(&mut lexer, TokenKind::Literal, "a\\\"b\\\\c", 1, 0);
    assert_eq!(lexer.next().unwrap_err(), FrontendError::EOI);

    let input = chars("\"\"");
    let mut lexer = Lexer::new(&input);
    expect_token(&mut lexer, TokenKind::Literal, "", 1, 0);
}

#[test]
fn other_escapes_are_refused() {
    let input = chars("\"a\\nb\"");
    let mut lexer = Lexer::new(&input);
    assert_eq!(lexer.next().unwrap_err(), FrontendError::ExpectedEscapeSequence);

    let input = chars("\"a\\");
    let mut lexer = Lexer::new(&input);
    assert_eq!(lexer.next().unwrap_err(), FrontendError::ExpectedEscapeSequence);
}

#[test]
fn unterminated_literal_is_refused() {
    let input = chars("\"abc");
    let mut lexer = Lexer::new(&input);
    assert_eq!(lexer.next().unwrap_err(), FrontendError::ExpectedEscapeSequence);
    assert_eq!(lexer.next().unwrap_err(), FrontendError::EOI);
}

#[test]
fn none_is_epsilon_and_use_is_keyword() {
    let input = chars("None use Nonesuch user _None x1_y2");
    let mut lexer = Lexer::new(&input);
    expect_token(&mut lexer, TokenKind::Epsilon, "None", 1, 0);
    expect_token(&mut lexer, TokenKind::Use, "use", 1, 5);
    expect_token(&mut lexer, TokenKind::Name, "Nonesuch", 1, 9);
    expect_token(&mut lexer, TokenKind::Name, "user", 1, 18);
    expect_token(&mut lexer, TokenKind::Name, "_None", 1, 23);
    expect_token(&mut lexer, TokenKind::Name, "x1_y2", 1, 29);
    assert_eq!(lexer.next().unwrap_err(), FrontendError::EOI);
}

#[test]
fn identifiers_follow_unicode_classes() {
    let input = chars("\u{e9}t\u{e9}\u{663}\u{3000}b");
    let mut lexer = Lexer::new(&input);
    expect_token(&mut lexer, TokenKind::Name, "\u{e9}t\u{e9}\u{663}", 1, 0);
    expect_token(&mut lexer, TokenKind::Name, "b", 1, 5);
}

#[test]
fn a_digit_cannot_start_a_token() {
    let input = chars("1a");
    let mut lexer = Lexer::new(&input);
    assert_eq!(lexer.next().unwrap_err(), FrontendError::UnrecognizedInput);
    assert_eq!(lexer.next().unwrap_err(), FrontendError::UnrecognizedInput);
}

#[test]
fn unrecognized_character() {
    let input = chars("A @");
    let mut lexer = Lexer::new(&input);
    expect_token(&mut lexer, TokenKind::Name, "A", 1, 0);
    assert_eq!(lexer.next().unwrap_err(), FrontendError::UnrecognizedInput);
}

#[test]
fn newlines_in_whitespace_move_the_line() {
    let input = chars("A\nB\n\n  C \n D");
    let mut lexer = Lexer::new(&input);
    expect_token(&mut lexer, TokenKind::Name, "A", 1, 0);
    expect_token(&mut lexer, TokenKind::Name, "B", 2, 0);
    expect_token(&mut lexer, TokenKind::Name, "C", 4, 2);
    expect_token(&mut lexer, TokenKind::Name, "D", 5, 1);
}

#[test]
fn comment_ends_with_its_line() {
    let input = chars("A # B -> C\n  D #E");
    let mut lexer = Lexer::new(&input);
    expect_token(&mut lexer, TokenKind::Name, "A", 1, 0);
    expect_token(&mut lexer, TokenKind::Name, "D", 2, 2);
    assert_eq!(lexer.next().unwrap_err(), FrontendError::EOI);
}

#[test]
fn literal_over_two_lines_moves_next_token_to_offset_zero() {
    let input = chars("\"a\nb\"X");
    let mut lexer = Lexer::new(&input);
    expect_token(&mut lexer, TokenKind::Literal, "a\nb", 1, 0);
    expect_token(&mut lexer, TokenKind::Name, "X", 2, 0);

    let input = chars("  \"a\n\nb\" X");
    let mut lexer = Lexer::new(&input);
    expect_token(&mut lexer, TokenKind::Literal, "a\n\nb", 1, 2);
    expect_token(&mut lexer, TokenKind::Name, "X", 3, 1);
}

#[test]
fn clean_strips_the_quotes_of_a_literal_only() {
    let quoted = chars("\"xy\"");
    let literal = Token::Literal(TokenData::new(&quoted, 3, 7)).clean();
    assert_eq!(literal.kind(), TokenKind::Literal);
    assert_eq!(text_of(&literal), "xy");
    assert_eq!(literal.data().line(), 3);
    assert_eq!(literal.data().offset(), 7);

    let name = Token::Name(TokenData::new(&quoted, 1, 0)).clean();
    assert_eq!(name.kind(), TokenKind::Name);
    assert_eq!(text_of(&name), "\"xy\"");
}

#[test]
fn token_data_keeps_what_it_was_made_of() {
    let text = chars("abc");
    let data = TokenData::new(&text[1..], 4, 9);
    assert_eq!(data.value(), &['b', 'c'][..]);
    assert_eq!(data.line(), 4);
    assert_eq!(data.offset(), 9);
}

#[test]
fn descriptions_and_messages() {
    assert_eq!(FrontendError::EOI.description(), "end of input");
    assert_eq!(FrontendError::Default.description(), "default");
    assert_eq!(FrontendError::ExpectedArrowTip.description(), "expected '>'");
    assert_eq!(FrontendError::ExpectedMoreInput.description(), "expected more input");
    assert_eq!(FrontendError::ExpectedEscapeSequence.description(), "expected escape sequence");
    assert_eq!(FrontendError::ExpectedIdentifier.description(), "expected identifer");
    assert_eq!(FrontendError::UnrecognizedInput.description(), "unrecognized input");
    assert_eq!(FrontendError::ExpectedColon.description(), "expected ':'");
    assert_eq!(
        FrontendError::ExpectedProdStartOrUse.description(),
        "expected production name or 'use'"
    );
    assert_eq!(FrontendError::ExpectedName.description(), "expected Name");
    assert_eq!(FrontendError::ExpectedArrow.description(), "expected ->");
    assert_eq!(FrontendError::ExpectedEndl.description(), "expected endline");
    assert_eq!(FrontendError::ExpectedUse.description(), "expected 'use'");
    assert_eq!(FrontendError::ExpectedCloseCurlyBrace.description(), "expected '}'");
    assert_eq!(
        FrontendError::ExpectedPart.description(),
        "expected one of: LITERAL, LEXICAL RULE NAME, NAME, EPSILON"
    );
    assert_eq!(FrontendError::ExpectedArrowTip.to_string(), "Lexical Error: expected '>'");
    assert_eq!(FrontendError::ExpectedEndl.to_string(), "Lexical Error: expected endline");
}

#[test]
fn tokens_are_shown_with_kind_text_and_position() {
    let input = chars("A\n  ::  \"lit\"");
    let mut lexer = Lexer::new(&input);
    assert_eq!(lexer.next().unwrap().to_string(), "Name: value: 'A', line: 1, offset: 0");
    let sep = lexer.next().unwrap();
    assert_eq!(sep.to_string(), "Path Seperator: value: '::', line: 2, offset: 2");
    assert_eq!(sep.data().to_string(), "value: '::', line: 2, offset: 2");
    assert_eq!(lexer.next().unwrap().to_string(), "Literal: value: 'lit', line: 2, offset: 6");

    let text = chars("x");
    let far = Token::Endl(TokenData::new(&text, 120, 4096));
    assert_eq!(far.to_string(), "Endline: value: 'x', line: 120, offset: 4096");
    assert_eq!(Token::Arrow(TokenData::new(&text, 10, 9)).to_string(), "Arrow: value: 'x', line: 10, offset: 9");
    assert_eq!(Token::Or(TokenData::new(&text, 1, 0)).to_string(), "Or: value: 'x', line: 1, offset: 0");
    assert_eq!(Token::Epsilon(TokenData::new(&text, 1, 0)).to_string(), "Epsilon: value: 'x', line: 1, offset: 0");
    assert_eq!(Token::Use(TokenData::new(&text, 1, 0)).to_string(), "Use: value: 'x', line: 1, offset: 0");
    assert_eq!(Token::OpenBrace(TokenData::new(&text, 1, 0)).to_string(), "Open Brace: value: 'x', line: 1, offset: 0");
    assert_eq!(Token::CloseBrace(TokenData::new(&text, 1, 0)).to_string(), "Close Brace: value: 'x', line: 1, offset: 0");
    assert_eq!(Token::QMark(TokenData::new(&text, 1, 0)).to_string(), "Question Mark: value: 'x', line: 1, offset: 0");
}
