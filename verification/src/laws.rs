use vstd::prelude::*;
use crate::frontend_error::FrontendError;
use crate::scan::{
    Lead, Scan, blank_len, comment_len, lead_of, lemma_blank_len_bound, lemma_comment_len_bound,
    lemma_literal_scan_bound, lemma_word_end_bound, lex, literal_scan, newlines, none_word,
    remaining, skipped, use_word, word_end,
};
use crate::grammar::{
    Feed, body_of, fuel, lemma_grammar, lemma_pull, parse_of, path_of, production_of, pull,
    starts_decl, stash, union_of,
};
use crate::syntax_tree::GrammarView;
use crate::scan::Outcome;
use crate::token::{Lexeme, TokenKind};

verus! {

/// From `i` on the input holds nothing but comments and runs of whitespace.
pub open spec fn only_blank(input: Seq<char>, i: int) -> bool
    decreases (if 0 <= i < input.len() { input.len() - i } else { 0 }),
{
    if 0 <= i < input.len() {
        match lead_of(input[i]) {
            Lead::Hash => only_blank(input, i + 1 + comment_len(input, i + 1)),
            Lead::Blank => only_blank(input, i + 1 + blank_len(input, i + 1)),
            _ => false,
        }
    } else {
        true
    }
}

/// The body of a literal in which every backslash is followed by a quote or
/// a backslash and no quote stands unescaped.
pub open spec fn well_escaped(body: Seq<char>) -> bool
    decreases body.len(),
{
    if body.len() == 0 {
        true
    } else if body[0] == '"' {
        false
    } else if body[0] == '\\' {
        body.len() >= 2 && (body[1] == '"' || body[1] == '\\') && well_escaped(body.skip(2))
    } else {
        well_escaped(body.skip(1))
    }
}

/// Input that holds only whitespace and comments gives end of input, and
/// leaves nothing to read.
pub proof fn law_blank_input_gives_end(input: Seq<char>, s: Scan)
    requires
        only_blank(input, s.current),
    ensures
        lex(input, s).1 == Err::<Lexeme, FrontendError>(FrontendError::EOI),
        remaining(input, lex(input, s).0) == 0,
    decreases remaining(input, s),
{
    if 0 <= s.current < input.len() {
        let next = s.current + 1;
        match lead_of(input[s.current]) {
            Lead::Hash => {
                lemma_comment_len_bound(input, next);
                law_blank_input_gives_end(input, skipped(input, s, next + comment_len(input, next)));
            },
            Lead::Blank => {
                lemma_blank_len_bound(input, next);
                law_blank_input_gives_end(input, skipped(input, s, next + blank_len(input, next)));
            },
            _ => {},
        }
    }
}

/// Once nothing is left to read, every read gives end of input and changes
/// nothing.
pub proof fn law_end_is_final(input: Seq<char>, s: Scan)
    requires
        remaining(input, s) == 0,
    ensures
        lex(input, s) == (s, Err::<Lexeme, FrontendError>(FrontendError::EOI)),
{
}

/// How many characters of the buffer a lexeme was made of: a literal has
/// lost its two quote marks.
pub open spec fn raw_len(l: Lexeme) -> int {
    l.text.len() + if l.kind == TokenKind::Literal { 2int } else { 0int }
}

/// A token's text is the part of the buffer that it was read from, which
/// ends where the scan then stands and does not reach back over an earlier
/// token; a literal's text is that part without its first and its last
/// character. The scan moves on by the newlines in that part: with any, the
/// next token starts at offset 0 of a later line, with none, behind this one
/// on its line.
pub proof fn law_token_text_is_substring(input: Seq<char>, s: Scan)
    requires
        0 <= s.last <= s.current <= input.len(),
    ensures
        match lex(input, s).1 {
            Ok(l) => {
                let after = lex(input, s).0;
                let from = after.current - raw_len(l);
                let trim = if l.kind == TokenKind::Literal { 1int } else { 0int };
                let raw = input.subrange(from, after.current);
                &&& s.last <= from <= from + trim <= after.current - trim <= input.len()
                &&& l.text == input.subrange(from + trim, after.current - trim)
                &&& after.last == after.current
                &&& after.line == l.line + newlines(raw)
                &&& after.offset == if newlines(raw) > 0 { 0 } else { l.offset + raw.len() }
            },
            Err(_) => true,
        },
    decreases remaining(input, s),
{
    if 0 <= s.current < input.len() {
        let next = s.current + 1;
        lemma_literal_scan_bound(input, next);
        lemma_word_end_bound(input, s.current);
        match lead_of(input[s.current]) {
            Lead::Hash => {
                lemma_comment_len_bound(input, next);
                law_token_text_is_substring(
                    input,
                    skipped(input, s, next + comment_len(input, next)),
                );
            },
            Lead::Blank => {
                lemma_blank_len_bound(input, next);
                law_token_text_is_substring(input, skipped(input, s, next + blank_len(input, next)));
            },
            Lead::Quote => {
                match literal_scan(input, next) {
                    Ok(end) => {
                        let raw = input.subrange(s.last, end);
                        assert(raw.subrange(1, raw.len() - 1) =~= input.subrange(
                            s.last + 1,
                            end - 1,
                        ));
                    },
                    Err(_) => {},
                }
            },
            _ => {},
        }
    }
}

proof fn lemma_escaped_prefix(input: Seq<char>, i: int, j: int)
    requires
        0 <= i <= j <= input.len(),
        well_escaped(input.subrange(i, j)),
    ensures
        literal_scan(input, i) == literal_scan(input, j),
    decreases j - i,
{
    let body = input.subrange(i, j);
    if i < j {
        assert(body[0] == input[i]);
        if body[0] == '\\' {
            assert(body[1] == input[i + 1]);
            assert(body.skip(2) =~= input.subrange(i + 2, j));
            lemma_escaped_prefix(input, i + 2, j);
        } else {
            assert(body.skip(1) =~= input.subrange(i + 1, j));
            lemma_escaped_prefix(input, i + 1, j);
        }
    }
}

/// A literal whose body holds only plain characters and the escape pairs
/// `\"` and `\\` is read as one token: the text between its quotes.
pub proof fn law_escaped_literal_is_read(input: Seq<char>, s: Scan, close: int)
    requires
        0 <= s.last <= s.current < close < input.len(),
        input[s.current] == '"',
        input[close] == '"',
        well_escaped(input.subrange(s.current + 1, close)),
    ensures
        lex(input, s).1 == Ok::<Lexeme, FrontendError>(
            Lexeme {
                kind: TokenKind::Literal,
                text: input.subrange(s.last + 1, close),
                line: s.line,
                offset: s.offset,
            },
        ),
{
    lemma_escaped_prefix(input, s.current + 1, close);
    let raw = input.subrange(s.last, close + 1);
    assert(raw.subrange(1, raw.len() - 1) =~= input.subrange(s.last + 1, close));
}

/// A backslash in a literal that is followed by anything but a quote or a
/// backslash, or by nothing, fails the read.
pub proof fn law_other_escape_fails(input: Seq<char>, s: Scan, slash: int)
    requires
        0 <= s.current < slash < input.len(),
        input[s.current] == '"',
        input[slash] == '\\',
        well_escaped(input.subrange(s.current + 1, slash)),
        !(slash + 1 < input.len() && (input[slash + 1] == '"' || input[slash + 1] == '\\')),
    ensures
        lex(input, s).1 == Err::<Lexeme, FrontendError>(FrontendError::ExpectedEscapeSequence),
{
    lemma_escaped_prefix(input, s.current + 1, slash);
}

/// A literal that the input ends in fails the read.
pub proof fn law_open_literal_fails(input: Seq<char>, s: Scan)
    requires
        0 <= s.current < input.len(),
        input[s.current] == '"',
        well_escaped(input.subrange(s.current + 1, input.len() as int)),
    ensures
        lex(input, s).1 == Err::<Lexeme, FrontendError>(FrontendError::ExpectedEscapeSequence),
{
    lemma_escaped_prefix(input, s.current + 1, input.len() as int);
}

/// An identifier spelled `None` is the empty symbol, never a name.
pub proof fn law_none_is_epsilon(input: Seq<char>, s: Scan)
    requires
        0 <= s.last <= s.current < input.len(),
        lead_of(input[s.current]) == Lead::Word,
        input.subrange(s.last, word_end(input, s.current)) == none_word(),
    ensures
        lex(input, s).1 == Ok::<Lexeme, FrontendError>(
            Lexeme {
                kind: TokenKind::Epsilon,
                text: none_word(),
                line: s.line,
                offset: s.offset,
            },
        ),
{
    assert(none_word().len() == 4);
    assert(none_word()[0] == 'N');
    assert(use_word().len() == 3);
}

/// An identifier spelled `use` is the keyword, never a name.
pub proof fn law_use_is_keyword(input: Seq<char>, s: Scan)
    requires
        0 <= s.last <= s.current < input.len(),
        lead_of(input[s.current]) == Lead::Word,
        input.subrange(s.last, word_end(input, s.current)) == use_word(),
    ensures
        lex(input, s).1 == Ok::<Lexeme, FrontendError>(
            Lexeme { kind: TokenKind::Use, text: use_word(), line: s.line, offset: s.offset },
        ),
{
    assert(none_word().len() == 4);
    assert(use_word().len() == 3);
}

/// Any other identifier is a name.
pub proof fn law_other_word_is_name(input: Seq<char>, s: Scan)
    requires
        0 <= s.last <= s.current < input.len(),
        lead_of(input[s.current]) == Lead::Word,
        input.subrange(s.last, word_end(input, s.current)) != none_word(),
        input.subrange(s.last, word_end(input, s.current)) != use_word(),
    ensures
        lex(input, s).1 == Ok::<Lexeme, FrontendError>(
            Lexeme {
                kind: TokenKind::Name,
                text: input.subrange(s.last, word_end(input, s.current)),
                line: s.line,
                offset: s.offset,
            },
        ),
{
}

/// `-` makes an arrow only with `>` behind it: before any other character
/// the read fails for want of the tip, and at the end of the input for want
/// of more input.
pub proof fn law_dash_needs_tip(input: Seq<char>, s: Scan)
    requires
        0 <= s.current < input.len(),
        input[s.current] == '-',
    ensures
        s.current + 1 == input.len() ==> lex(input, s).1 == Err::<Lexeme, FrontendError>(
            FrontendError::ExpectedMoreInput,
        ),
        s.current + 1 < input.len() && input[s.current + 1] != '>' ==> lex(input, s).1 == Err::<
            Lexeme,
            FrontendError,
        >(FrontendError::ExpectedArrowTip),
        s.current + 1 < input.len() && input[s.current + 1] == '>' ==> lex(input, s).1 is Ok
            && lex(input, s).1->Ok_0.kind == TokenKind::Arrow,
{
}

/// The scanner fails in six ways only: the placeholder and the failures of
/// the parser never come from a read.
pub proof fn law_scanner_failures(input: Seq<char>, s: Scan)
    ensures
        match lex(input, s).1 {
            Ok(_) => true,
            Err(e) => e == FrontendError::EOI || e == FrontendError::ExpectedArrowTip || e
                == FrontendError::ExpectedMoreInput || e == FrontendError::ExpectedEscapeSequence
                || e == FrontendError::UnrecognizedInput || e == FrontendError::ExpectedColon,
        },
    decreases remaining(input, s),
{
    if 0 <= s.current < input.len() {
        let next = s.current + 1;
        match lead_of(input[s.current]) {
            Lead::Hash => {
                lemma_comment_len_bound(input, next);
                law_scanner_failures(input, skipped(input, s, next + comment_len(input, next)));
            },
            Lead::Blank => {
                lemma_blank_len_bound(input, next);
                law_scanner_failures(input, skipped(input, s, next + blank_len(input, next)));
            },
            _ => {},
        }
    }
}

/// An outcome that was put back is the next one pulled, and pulling it
/// leaves the scan where it stood.
pub proof fn law_put_back_is_pulled_again(input: Seq<char>, t: Outcome, f: Feed)
    ensures
        pull(input, stash(t, f)) == (t, Feed { pending: None, scan: f.scan }),
{
}

/// A parse takes tokens and never gives them back: what the feed can still
/// give after it is no more than before.
pub proof fn law_parse_uses_up_the_feed(input: Seq<char>, f: Feed)
    ensures
        fuel(input, parse_of(input, f).1) <= fuel(input, f),
{
    lemma_pull(input, f);
    lemma_grammar(input, pull(input, f).0, pull(input, f).1);
}

/// The one failure that a parse returns as such comes from its first token:
/// the parse gives a tree exactly when that token is a name or `use`; another
/// token is refused as the start of a declaration, and a failed read is
/// returned as it is.
pub proof fn law_only_the_first_token_is_fatal(input: Seq<char>, f: Feed)
    ensures
        parse_of(input, f).0 is Ok <==> starts_decl(pull(input, f).0),
        match pull(input, f).0 {
            Ok(l) => l.kind != TokenKind::Name && l.kind != TokenKind::Use ==> parse_of(input, f)
                == (
                Err::<GrammarView, FrontendError>(FrontendError::ExpectedProdStartOrUse),
                pull(input, f).1,
            ),
            Err(e) => parse_of(input, f) == (Err::<GrammarView, FrontendError>(e), pull(input, f).1),
        },
{
}

/// Inside a declaration no failure is fatal: a production, a path, a union
/// and a body are always built, whatever tokens they are given, and keep the
/// failures in their fields.
pub proof fn law_rules_build_their_node(input: Seq<char>, cur: Outcome, f: Feed)
    ensures
        production_of(input, cur, f).0 is Ok,
        path_of(input, cur, f).0 is Ok,
        union_of(input, cur, f).0 is Ok,
        body_of(input, cur, f).0 is Ok,
{
}

} // verus!
