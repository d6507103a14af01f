use vstd::prelude::*;
use crate::frontend_error::FrontendError;
use crate::grammar::{
    Feed, body_of, budget, fuel, grammar_of, is_kind, lemma_body, lemma_nullable, lemma_part,
    lemma_path, lemma_production, lemma_pull, nullable_of, parse_of, part_of, path_item_list_of,
    path_of, production_of, pull, starts_decl, starts_part, union_of,
};
use crate::laws::law_scanner_failures;
use crate::scan::Outcome;
use crate::syntax_tree::{
    BodyView, GrammarView, ONullableView, PartView, PathItemListView, PathView, ProdView,
    UnionView,
};
use crate::token::TokenKind;

verus! {

/// The two tags that nothing gives: the placeholder of a scanner that has
/// not read yet, and the failure of an identifier to start.
pub open spec fn never_given(e: FrontendError) -> bool {
    e == FrontendError::Default || e == FrontendError::ExpectedIdentifier
}

/// The outcome of a token is the failure `e`.
pub open spec fn token_fails(t: Outcome, e: FrontendError) -> bool {
    match t {
        Ok(_) => false,
        Err(x) => x == e,
    }
}

/// `e` is the outcome of the marker or of its token.
pub open spec fn marker_fails(n: ONullableView, e: FrontendError) -> bool {
    match n {
        Ok(Some(Ok(marker))) => token_fails(marker.qmark, e),
        Ok(Some(Err(x))) => x == e,
        Ok(None) => false,
        Err(x) => x == e,
    }
}

/// `e` is the outcome of the part or of one of its tokens.
pub open spec fn part_fails(p: Result<PartView, FrontendError>, e: FrontendError) -> bool {
    match p {
        Ok(PartView::Literal(t)) => token_fails(t, e),
        Ok(PartView::LexicalRuleName(open, name, close)) => token_fails(open, e) || token_fails(
            name,
            e,
        ) || token_fails(close, e),
        Ok(PartView::Name(t)) => token_fails(t, e),
        Ok(PartView::Epsilon(t)) => token_fails(t, e),
        Err(x) => x == e,
    }
}

/// `e` stands somewhere in the body or in the bodies behind it.
pub open spec fn body_fails(b: Result<BodyView, FrontendError>, e: FrontendError) -> bool
    decreases b,
{
    match b {
        Ok(body) => part_fails(body.part, e) || marker_fails(body.nullable, e) || match *body.rbody {
            Some(rest) => body_fails(rest, e),
            None => false,
        },
        Err(x) => x == e,
    }
}

/// `e` stands somewhere in the union or in its alternatives.
pub open spec fn union_fails(u: Result<UnionView, FrontendError>, e: FrontendError) -> bool
    decreases u,
{
    match u {
        Ok(union) => body_fails(union.body, e) || match *union.obody {
            Some(Ok(arm)) => token_fails(arm.or, e) || union_fails(arm.union, e),
            Some(Err(x)) => x == e,
            None => false,
        },
        Err(x) => x == e,
    }
}

/// `e` stands somewhere in the segments of a path.
pub open spec fn path_list_fails(
    l: Box<Option<Result<PathItemListView, FrontendError>>>,
    e: FrontendError,
) -> bool
    decreases l,
{
    match *l {
        Some(Ok(list)) => token_fails(list.pathsep, e) || token_fails(list.name, e)
            || path_list_fails(list.list, e),
        Some(Err(x)) => x == e,
        None => false,
    }
}

/// `e` is the outcome of the production or stands in one of its fields.
pub open spec fn prod_fails(p: Result<ProdView, FrontendError>, e: FrontendError) -> bool {
    match p {
        Ok(prod) => token_fails(prod.name, e) || marker_fails(prod.nullable, e) || token_fails(
            prod.arrow,
            e,
        ) || union_fails(prod.union, e) || token_fails(prod.endl, e),
        Err(x) => x == e,
    }
}

/// `e` is the outcome of the path or stands in one of its fields.
pub open spec fn path_fails(p: Result<PathView, FrontendError>, e: FrontendError) -> bool {
    match p {
        Ok(path) => token_fails(path.kuse, e) || token_fails(path.name, e) || path_list_fails(
            path.list,
            e,
        ) || token_fails(path.endl, e),
        Err(x) => x == e,
    }
}

/// Whether `e` stands anywhere in the tree: as its own outcome or in a field
/// of one of its nodes.
pub open spec fn grammar_fails(g: Result<GrammarView, FrontendError>, e: FrontendError) -> bool
    decreases g,
{
    match g {
        Ok(GrammarView::ProdDecl(prod, rest)) => prod_fails(prod, e) || match *rest {
            Some(more) => grammar_fails(more, e),
            None => false,
        },
        Ok(GrammarView::PathDecl(path, rest)) => path_fails(path, e) || match *rest {
            Some(more) => grammar_fails(more, e),
            None => false,
        },
        Err(x) => x == e,
    }
}

/// Nothing that failed with `e` waits to be read again.
pub open spec fn keeps_out(f: Feed, e: FrontendError) -> bool {
    match f.pending {
        Some(t) => !token_fails(t, e),
        None => true,
    }
}

proof fn lemma_pull_keeps_out(input: Seq<char>, f: Feed, e: FrontendError)
    requires
        never_given(e),
        keeps_out(f, e),
    ensures
        !token_fails(pull(input, f).0, e),
        keeps_out(pull(input, f).1, e),
{
    law_scanner_failures(input, f.scan);
}

proof fn lemma_part_keeps_out(input: Seq<char>, cur: Outcome, f: Feed, e: FrontendError)
    requires
        never_given(e),
        !token_fails(cur, e),
        keeps_out(f, e),
    ensures
        !part_fails(part_of(input, cur, f).0, e),
        keeps_out(part_of(input, cur, f).1, e),
{
    lemma_pull_keeps_out(input, f, e);
    lemma_pull_keeps_out(input, pull(input, f).1, e);
}

proof fn lemma_body_keeps_out(input: Seq<char>, cur: Outcome, f: Feed, e: FrontendError)
    requires
        never_given(e),
        !token_fails(cur, e),
        keeps_out(f, e),
    ensures
        !body_fails(body_of(input, cur, f).0, e),
        keeps_out(body_of(input, cur, f).1, e),
    decreases 2 * fuel(input, f) + 1,
{
    let (part, f1) = part_of(input, cur, f);
    let (mark, f2) = pull(input, f1);
    let (nullable, f3) = nullable_of(mark, f2);
    let (more, f4) = pull(input, f3);
    lemma_part(input, cur, f);
    lemma_pull(input, f1);
    lemma_nullable(input, mark, f2);
    lemma_pull(input, f3);
    lemma_part_keeps_out(input, cur, f, e);
    lemma_pull_keeps_out(input, f1, e);
    lemma_pull_keeps_out(input, f3, e);
    if starts_part(more) {
        lemma_body_keeps_out(input, more, f4, e);
    }
}

proof fn lemma_union_keeps_out(input: Seq<char>, cur: Outcome, f: Feed, e: FrontendError)
    requires
        never_given(e),
        !token_fails(cur, e),
        keeps_out(f, e),
    ensures
        !union_fails(union_of(input, cur, f).0, e),
        keeps_out(union_of(input, cur, f).1, e),
    decreases 2 * fuel(input, f) + 1,
{
    let (body, f1) = body_of(input, cur, f);
    let (bar, f2) = pull(input, f1);
    lemma_body(input, cur, f);
    lemma_pull(input, f1);
    lemma_body_keeps_out(input, cur, f, e);
    lemma_pull_keeps_out(input, f1, e);
    if is_kind(bar, TokenKind::Or) {
        let (first, f3) = pull(input, f2);
        lemma_pull(input, f2);
        lemma_pull_keeps_out(input, f2, e);
        lemma_union_keeps_out(input, first, f3, e);
    }
}

proof fn lemma_production_keeps_out(input: Seq<char>, cur: Outcome, f: Feed, e: FrontendError)
    requires
        never_given(e),
        !token_fails(cur, e),
        keeps_out(f, e),
    ensures
        !prod_fails(production_of(input, cur, f).0, e),
        keeps_out(production_of(input, cur, f).1, e),
{
    let (mark, f1) = pull(input, f);
    let (nullable, f2) = nullable_of(mark, f1);
    let (arrow, f3) = pull(input, f2);
    let (first, f4) = pull(input, f3);
    let (union, f5) = union_of(input, first, f4);
    lemma_pull_keeps_out(input, f, e);
    lemma_pull_keeps_out(input, f2, e);
    lemma_pull_keeps_out(input, f3, e);
    lemma_union_keeps_out(input, first, f4, e);
    lemma_pull_keeps_out(input, f5, e);
}

proof fn lemma_path_list_keeps_out(input: Seq<char>, cur: Outcome, f: Feed, e: FrontendError)
    requires
        never_given(e),
        !token_fails(cur, e),
        keeps_out(f, e),
    ensures
        !path_list_fails(path_item_list_of(input, cur, f).0, e),
        keeps_out(path_item_list_of(input, cur, f).1, e),
    decreases budget(input, cur, f),
{
    if is_kind(cur, TokenKind::PathSeperator) {
        let (name, f1) = pull(input, f);
        let (more, f2) = pull(input, f1);
        lemma_pull(input, f);
        lemma_pull(input, f1);
        lemma_pull_keeps_out(input, f, e);
        lemma_pull_keeps_out(input, f1, e);
        lemma_path_list_keeps_out(input, more, f2, e);
    }
}

proof fn lemma_path_keeps_out(input: Seq<char>, cur: Outcome, f: Feed, e: FrontendError)
    requires
        never_given(e),
        !token_fails(cur, e),
        keeps_out(f, e),
    ensures
        !path_fails(path_of(input, cur, f).0, e),
        keeps_out(path_of(input, cur, f).1, e),
{
    let (name, f1) = pull(input, f);
    let (more, f2) = pull(input, f1);
    let (list, f3) = path_item_list_of(input, more, f2);
    lemma_pull_keeps_out(input, f, e);
    lemma_pull_keeps_out(input, f1, e);
    lemma_path_list_keeps_out(input, more, f2, e);
    lemma_pull_keeps_out(input, f3, e);
}

proof fn lemma_grammar_keeps_out(input: Seq<char>, cur: Outcome, f: Feed, e: FrontendError)
    requires
        never_given(e),
        !token_fails(cur, e),
        keeps_out(f, e),
    ensures
        !grammar_fails(grammar_of(input, cur, f).0, e),
        keeps_out(grammar_of(input, cur, f).1, e),
    decreases 2 * fuel(input, f) + 1,
{
    if is_kind(cur, TokenKind::Name) {
        let (prod, f1) = production_of(input, cur, f);
        let (more, f2) = pull(input, f1);
        lemma_production(input, cur, f);
        lemma_pull(input, f1);
        lemma_production_keeps_out(input, cur, f, e);
        lemma_pull_keeps_out(input, f1, e);
        if starts_decl(more) {
            lemma_grammar_keeps_out(input, more, f2, e);
        }
    } else if is_kind(cur, TokenKind::Use) {
        let (path, f1) = path_of(input, cur, f);
        let (more, f2) = pull(input, f1);
        lemma_path(input, cur, f);
        lemma_pull(input, f1);
        lemma_path_keeps_out(input, cur, f, e);
        lemma_pull_keeps_out(input, f1, e);
        if starts_decl(more) {
            lemma_grammar_keeps_out(input, more, f2, e);
        }
    }
}

/// The placeholder never surfaces in a parse, and neither does the failure
/// of an identifier to start: neither is the outcome of the parse nor stands
/// in any field of its tree, and neither is left waiting to be read.
pub proof fn law_placeholder_never_surfaces(input: Seq<char>, f: Feed, e: FrontendError)
    requires
        never_given(e),
        keeps_out(f, e),
    ensures
        !grammar_fails(parse_of(input, f).0, e),
        keeps_out(parse_of(input, f).1, e),
{
    lemma_pull_keeps_out(input, f, e);
    lemma_grammar_keeps_out(input, pull(input, f).0, pull(input, f).1, e);
}

} // verus!
