use vstd::prelude::*;
use crate::frontend_error::FrontendError;
use crate::grammar::{
    Feed, body_of, budget, fuel, grammar_of, lemma_body, lemma_nullable, lemma_part, lemma_path,
    lemma_production, lemma_pull, nullable_of, obody_of, parse_of, part_of, path_item_list_of,
    path_of, production_of, pull, rbody_of, require, rgrammar_of, starts_decl, starts_part,
    union_of,
};
use crate::lexer::{Lexer, LexicalResult, outcome_of};
use crate::scan::start;
use crate::syntax_tree::{
    Body, Grammar, Nullable, OBody, ONullable, Part, Path, PathItemList, Prod, Recursive, Union,
    body_outcome, grammar_outcome, obody_view, onullable_view, part_outcome,
    path_list_view, path_outcome, prod_outcome, rbody_view, rgrammar_view, union_outcome,
};
use crate::token::{Token, TokenKind};

verus! {

/// A node or the reason it could not be built.
pub type SyntaxResult<T> = Result<T, FrontendError>;

/// Checks a token that a rule requires.
fn expect<'a>(current: LexicalResult<'a>, kind: TokenKind, err: FrontendError) -> (r: LexicalResult<'a>)
    ensures
        outcome_of(r) == require(outcome_of(current), kind, err),
        r is Ok ==> r == current,
{
    match current {
        Ok(token) => {
            if token.kind() == kind {
                Ok(token)
            } else {
                Err(err)
            }
        },
        Err(e) => Err(e),
    }
}

fn can_start_part<'a>(current: &LexicalResult<'a>) -> (b: bool)
    ensures
        b == starts_part(outcome_of(*current)),
{
    match current {
        Ok(token) => {
            let kind = token.kind();
            kind == TokenKind::Literal || kind == TokenKind::Name || kind == TokenKind::Epsilon
                || kind == TokenKind::OpenBrace
        },
        Err(_) => false,
    }
}

fn can_start_decl<'a>(current: &LexicalResult<'a>) -> (b: bool)
    ensures
        b == starts_decl(outcome_of(*current)),
{
    match current {
        Ok(token) => {
            let kind = token.kind();
            kind == TokenKind::Name || kind == TokenKind::Use
        },
        Err(_) => false,
    }
}

/// A predictive parser over a scanner, with one slot in which an outcome that
/// was read too early waits to be read again.
pub struct Parser<'a> {
    lexer: Lexer<'a>,
    cache: Option<LexicalResult<'a>>,
}

impl<'a> Parser<'a> {
    /// The characters being parsed.
    pub closed spec fn source(&self) -> Seq<char> {
        self.lexer.source()
    }

    /// Where the next token comes from.
    pub closed spec fn feed(&self) -> Feed {
        Feed {
            pending: match self.cache {
                Some(r) => Some(outcome_of(r)),
                None => None,
            },
            scan: self.lexer.scan(),
        }
    }

    /// The slot holds nothing but the scanner's latest outcome.
    pub closed spec fn wf(&self) -> bool {
        &&& self.lexer.wf()
        &&& match self.cache {
            Some(r) => r == self.lexer.latest(),
            None => true,
        }
    }

    /// `current` was just read and nothing waits in the slot.
    spec fn fresh(&self, current: LexicalResult<'a>) -> bool {
        &&& self.wf()
        &&& self.cache is None
        &&& current == self.lexer.latest()
    }

    /// A parser at the start of `input`, with nothing put back.
    pub fn new(input: &'a [char]) -> (parser: Self)
        requires
            input@.len() < usize::MAX,
        ensures
            parser.wf(),
            parser.source() == input@,
            parser.feed() == (Feed { pending: None, scan: start() }),
    {
        Parser { lexer: Lexer::new(input), cache: None }
    }

    /// Parses the declarations of the source. The one failure returned as
    /// such is a first token that can start none; every later failure stands
    /// in the field of the tree that asked for the token.
    pub fn parse(&mut self) -> (tree: SyntaxResult<Grammar<'a>>)
        requires
            old(self).wf(),
        ensures
            final(self).wf(),
            final(self).source() == old(self).source(),
            (grammar_outcome(tree), final(self).feed()) == parse_of(
                old(self).source(),
                old(self).feed(),
            ),
    {
        let first = self.next();
        self.parse_grammar(first)
    }

    fn next(&mut self) -> (r: LexicalResult<'a>)
        requires
            old(self).wf(),
        ensures
            final(self).fresh(r),
            final(self).source() == old(self).source(),
            (outcome_of(r), final(self).feed()) == pull(old(self).source(), old(self).feed()),
    {
        match self.cache {
            Some(cached) => {
                self.cache = None;
                cached
            },
            None => self.lexer.next(),
        }
    }

    fn cache_last(&mut self)
        requires
            old(self).wf(),
        ensures
            final(self).wf(),
            final(self).lexer == old(self).lexer,
            final(self).cache == Some(old(self).lexer.latest()),
    {
        self.cache = Some(self.lexer.current_out());
    }

    fn parse_grammar(&mut self, current: LexicalResult<'a>) -> (r: SyntaxResult<Grammar<'a>>)
        requires
            old(self).fresh(current),
        ensures
            final(self).wf(),
            final(self).source() == old(self).source(),
            (grammar_outcome(r), final(self).feed()) == grammar_of(
                old(self).source(),
                outcome_of(current),
                old(self).feed(),
            ),
        decreases 2 * fuel(old(self).source(), old(self).feed()) + 1,
    {
        let ghost src = self.source();
        let ghost f = self.feed();
        match current {
            Ok(token) => {
                let kind = token.kind();
                if kind == TokenKind::Name {
                    let prod = self.parse_production(current);
                    let ghost f1 = self.feed();
                    let more = self.next();
                    proof {
                        lemma_production(src, outcome_of(current), f);
                        lemma_pull(src, f1);
                    }
                    let rest = self.parse_rgrammar(more);
                    Ok(Grammar::ProdDecl(prod, rest))
                } else if kind == TokenKind::Use {
                    let path = self.parse_path(current);
                    let ghost f1 = self.feed();
                    let more = self.next();
                    proof {
                        lemma_path(src, outcome_of(current), f);
                        lemma_pull(src, f1);
                    }
                    let rest = self.parse_rgrammar(more);
                    Ok(Grammar::PathDecl(path, rest))
                } else {
                    Err(FrontendError::ExpectedProdStartOrUse)
                }
            },
            Err(e) => Err(e),
        }
    }

    fn parse_rgrammar(&mut self, current: LexicalResult<'a>) -> (r: Recursive<
        SyntaxResult<Grammar<'a>>,
    >)
        requires
            old(self).fresh(current),
        ensures
            final(self).wf(),
            final(self).source() == old(self).source(),
            (rgrammar_view(r), final(self).feed()) == rgrammar_of(
                old(self).source(),
                outcome_of(current),
                old(self).feed(),
            ),
        decreases 2 * budget(old(self).source(), outcome_of(current), old(self).feed()),
    {
        if can_start_decl(&current) {
            self.cache_last();
            let again = self.next();
            Box::new(Some(self.parse_grammar(again)))
        } else {
            self.cache_last();
            Box::new(None)
        }
    }

    fn parse_production(&mut self, current: LexicalResult<'a>) -> (r: SyntaxResult<Prod<'a>>)
        requires
            old(self).fresh(current),
        ensures
            final(self).wf(),
            final(self).source() == old(self).source(),
            (prod_outcome(r), final(self).feed()) == production_of(
                old(self).source(),
                outcome_of(current),
                old(self).feed(),
            ),
    {
        let name = expect(current, TokenKind::Name, FrontendError::ExpectedName);
        let mark = self.next();
        let nullable = self.parse_nullable(mark);
        let after = self.next();
        let arrow = expect(after, TokenKind::Arrow, FrontendError::ExpectedArrow);
        let first = self.next();
        let u = self.parse_union(first);
        let last = self.next();
        let endl = expect(last, TokenKind::Endl, FrontendError::ExpectedEndl);
        Ok(Prod::new(name, nullable, arrow, u, endl))
    }

    fn parse_nullable(&mut self, current: LexicalResult<'a>) -> (r: SyntaxResult<ONullable<'a>>)
        requires
            old(self).fresh(current),
        ensures
            final(self).wf(),
            final(self).source() == old(self).source(),
            (onullable_view(r), final(self).feed()) == nullable_of(
                outcome_of(current),
                old(self).feed(),
            ),
    {
        match current {
            Ok(token) => {
                if token.kind() == TokenKind::QMark {
                    Ok(Some(Ok(Nullable::new(Ok(token)))))
                } else {
                    self.cache_last();
                    Ok(None)
                }
            },
            Err(e) => Err(e),
        }
    }

    fn parse_union(&mut self, current: LexicalResult<'a>) -> (r: SyntaxResult<Union<'a>>)
        requires
            old(self).fresh(current),
        ensures
            final(self).wf(),
            final(self).source() == old(self).source(),
            (union_outcome(r), final(self).feed()) == union_of(
                old(self).source(),
                outcome_of(current),
                old(self).feed(),
            ),
        decreases 2 * fuel(old(self).source(), old(self).feed()) + 1,
    {
        let ghost src = self.source();
        let ghost f = self.feed();
        let body = self.parse_body(current);
        let ghost f1 = self.feed();
        let bar = self.next();
        proof {
            lemma_body(src, outcome_of(current), f);
            lemma_pull(src, f1);
        }
        let obody = self.parse_obody(bar);
        Ok(Union::new(body, obody))
    }

    fn parse_body(&mut self, current: LexicalResult<'a>) -> (r: SyntaxResult<Body<'a>>)
        requires
            old(self).fresh(current),
        ensures
            final(self).wf(),
            final(self).source() == old(self).source(),
            (body_outcome(r), final(self).feed()) == body_of(
                old(self).source(),
                outcome_of(current),
                old(self).feed(),
            ),
        decreases 2 * fuel(old(self).source(), old(self).feed()) + 1,
    {
        let ghost src = self.source();
        let ghost f = self.feed();
        let part = self.parse_part(current);
        let ghost f1 = self.feed();
        let mark = self.next();
        let ghost f2 = self.feed();
        let nullable = self.parse_nullable(mark);
        let ghost f3 = self.feed();
        let more = self.next();
        proof {
            lemma_part(src, outcome_of(current), f);
            lemma_pull(src, f1);
            lemma_nullable(src, outcome_of(mark), f2);
            lemma_pull(src, f3);
        }
        let rbody = self.parse_rbody(more);
        Ok(Body::new(part, nullable, rbody))
    }

    fn parse_rbody(&mut self, current: LexicalResult<'a>) -> (r: Recursive<SyntaxResult<Body<'a>>>)
        requires
            old(self).fresh(current),
        ensures
            final(self).wf(),
            final(self).source() == old(self).source(),
            (rbody_view(r), final(self).feed()) == rbody_of(
                old(self).source(),
                outcome_of(current),
                old(self).feed(),
            ),
        decreases 2 * budget(old(self).source(), outcome_of(current), old(self).feed()),
    {
        if can_start_part(&current) {
            self.cache_last();
            let again = self.next();
            Box::new(Some(self.parse_body(again)))
        } else {
            self.cache_last();
            Box::new(None)
        }
    }

    fn parse_obody(&mut self, current: LexicalResult<'a>) -> (r: Recursive<SyntaxResult<OBody<'a>>>)
        requires
            old(self).fresh(current),
        ensures
            final(self).wf(),
            final(self).source() == old(self).source(),
            (obody_view(r), final(self).feed()) == obody_of(
                old(self).source(),
                outcome_of(current),
                old(self).feed(),
            ),
        decreases 2 * budget(old(self).source(), outcome_of(current), old(self).feed()),
    {
        let ghost src = self.source();
        let ghost f = self.feed();
        let or = match current {
            Ok(token) => {
                if token.kind() == TokenKind::Or {
                    current
                } else {
                    self.cache_last();
                    return Box::new(None);
                }
            },
            Err(_) => {
                self.cache_last();
                return Box::new(None);
            },
        };
        let first = self.next();
        proof {
            lemma_pull(src, f);
        }
        let u = self.parse_union(first);
        Box::new(Some(Ok(OBody::new(or, u))))
    }

    fn parse_part(&mut self, current: LexicalResult<'a>) -> (r: SyntaxResult<Part<'a>>)
        requires
            old(self).fresh(current),
        ensures
            final(self).wf(),
            final(self).source() == old(self).source(),
            (part_outcome(r), final(self).feed()) == part_of(
                old(self).source(),
                outcome_of(current),
                old(self).feed(),
            ),
    {
        match current {
            Ok(token) => {
                match token {
                    Token::Literal(_) => Ok(Part::Literal(current)),
                    Token::Name(_) => Ok(Part::Name(current)),
                    Token::Epsilon(_) => Ok(Part::Epsilon(current)),
                    Token::OpenBrace(_) => {
                        let inner = self.next();
                        let name = expect(inner, TokenKind::Name, FrontendError::ExpectedName);
                        let closing = self.next();
                        let cbrace = expect(
                            closing,
                            TokenKind::CloseBrace,
                            FrontendError::ExpectedCloseCurlyBrace,
                        );
                        Ok(Part::LexicalRuleName(current, name, cbrace))
                    },
                    _ => Err(FrontendError::ExpectedPart),
                }
            },
            Err(e) => Err(e),
        }
    }

    fn parse_path(&mut self, current: LexicalResult<'a>) -> (r: SyntaxResult<Path<'a>>)
        requires
            old(self).fresh(current),
        ensures
            final(self).wf(),
            final(self).source() == old(self).source(),
            (path_outcome(r), final(self).feed()) == path_of(
                old(self).source(),
                outcome_of(current),
                old(self).feed(),
            ),
    {
        let kuse = expect(current, TokenKind::Use, FrontendError::ExpectedUse);
        let second = self.next();
        let name = expect(second, TokenKind::Name, FrontendError::ExpectedName);
        let more = self.next();
        let path_item_list = self.parse_path_item_list(more);
        let last = self.next();
        let endl = expect(last, TokenKind::Endl, FrontendError::ExpectedEndl);
        Ok(Path::new(kuse, name, path_item_list, endl))
    }

    fn parse_path_item_list(&mut self, current: LexicalResult<'a>) -> (r: Recursive<
        SyntaxResult<PathItemList<'a>>,
    >)
        requires
            old(self).fresh(current),
        ensures
            final(self).wf(),
            final(self).source() == old(self).source(),
            (path_list_view(r), final(self).feed()) == path_item_list_of(
                old(self).source(),
                outcome_of(current),
                old(self).feed(),
            ),
        decreases budget(old(self).source(), outcome_of(current), old(self).feed()),
    {
        let ghost src = self.source();
        let ghost f = self.feed();
        let path_seperator = match current {
            Ok(token) => {
                if token.kind() == TokenKind::PathSeperator {
                    current
                } else {
                    self.cache_last();
                    return Box::new(None);
                }
            },
            Err(_) => {
                self.cache_last();
                return Box::new(None);
            },
        };
        let second = self.next();
        let ghost f1 = self.feed();
        let name = expect(second, TokenKind::Name, FrontendError::ExpectedName);
        let more = self.next();
        proof {
            lemma_pull(src, f);
            lemma_pull(src, f1);
        }
        let path_item_list = self.parse_path_item_list(more);
        Box::new(Some(Ok(PathItemList::new(path_seperator, name, path_item_list))))
    }
}

} // verus!
