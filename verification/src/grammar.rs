use vstd::prelude::*;
use crate::frontend_error::FrontendError;
use crate::scan::{Outcome, Scan, lemma_lex_moves, lex, remaining};
use crate::syntax_tree::{
    BodyView, GrammarView, NullableView, OBodyView, ONullableView, PartView, PathItemListView,
    PathView, ProdView, UnionView,
};
use crate::token::TokenKind;

verus! {

/// Where the parser's tokens come from: a scan of the buffer and at most one
/// outcome that was read and put back.
pub struct Feed {
    pub pending: Option<Outcome>,
    pub scan: Scan,
}

/// 1 for a token, 0 for a failure.
pub open spec fn is_token(t: Outcome) -> nat {
    if t is Ok {
        1
    } else {
        0
    }
}

/// A token of the given kind.
pub open spec fn is_kind(t: Outcome, kind: TokenKind) -> bool {
    t is Ok && t->Ok_0.kind == kind
}

/// The next outcome: the one put back, if there is one, else a fresh read.
pub open spec fn pull(input: Seq<char>, f: Feed) -> (Outcome, Feed) {
    match f.pending {
        Some(t) => (t, Feed { pending: None, scan: f.scan }),
        None => {
            let (scan, t) = lex(input, f.scan);
            (t, Feed { pending: None, scan: scan })
        },
    }
}

/// Puts `t` back, to be pulled next.
pub open spec fn stash(t: Outcome, f: Feed) -> Feed {
    Feed { pending: Some(t), scan: f.scan }
}

/// A bound on the tokens that the feed can still give: the characters left,
/// and one more for a token that was put back.
pub open spec fn fuel(input: Seq<char>, f: Feed) -> nat {
    remaining(input, f.scan) + match f.pending {
        Some(t) => is_token(t),
        None => 0,
    }
}

/// The bound as it was before `t` was pulled.
pub open spec fn budget(input: Seq<char>, t: Outcome, f: Feed) -> nat {
    fuel(input, f) + is_token(t)
}

/// A required token: itself if it has the kind asked for, `err` if it has
/// another, and the scanner's own error if it is none.
pub open spec fn require(t: Outcome, kind: TokenKind, err: FrontendError) -> Outcome {
    match t {
        Ok(l) => if l.kind == kind {
            t
        } else {
            Err(err)
        },
        Err(e) => Err(e),
    }
}

/// Nullable -> "?"? : another token is put back; a failed read stays taken.
pub open spec fn nullable_of(cur: Outcome, f: Feed) -> (ONullableView, Feed) {
    match cur {
        Ok(l) => if l.kind == TokenKind::QMark {
            (Ok(Some(Ok(NullableView { qmark: cur }))), f)
        } else {
            (Ok(None), stash(cur, f))
        },
        Err(e) => (Err(e), f),
    }
}

/// Part -> LITERAL | "{" NAME "}" | NAME | EPSILON
pub open spec fn part_of(input: Seq<char>, cur: Outcome, f: Feed) -> (
    Result<PartView, FrontendError>,
    Feed,
) {
    match cur {
        Ok(l) => match l.kind {
            TokenKind::Literal => (Ok(PartView::Literal(cur)), f),
            TokenKind::Name => (Ok(PartView::Name(cur)), f),
            TokenKind::Epsilon => (Ok(PartView::Epsilon(cur)), f),
            TokenKind::OpenBrace => {
                let (name, f1) = pull(input, f);
                let (close, f2) = pull(input, f1);
                (
                    Ok(
                        PartView::LexicalRuleName(
                            cur,
                            require(name, TokenKind::Name, FrontendError::ExpectedName),
                            require(
                                close,
                                TokenKind::CloseBrace,
                                FrontendError::ExpectedCloseCurlyBrace,
                            ),
                        ),
                    ),
                    f2,
                )
            },
            _ => (Err(FrontendError::ExpectedPart), f),
        },
        Err(e) => (Err(e), f),
    }
}

/// Whether a body goes on with `t`.
pub open spec fn starts_part(t: Outcome) -> bool {
    is_kind(t, TokenKind::Literal) || is_kind(t, TokenKind::Name) || is_kind(t, TokenKind::Epsilon)
        || is_kind(t, TokenKind::OpenBrace)
}

/// Whether the declarations go on with `t`.
pub open spec fn starts_decl(t: Outcome) -> bool {
    is_kind(t, TokenKind::Name) || is_kind(t, TokenKind::Use)
}

/// A pull costs what it gives: a token takes one from the bound.
pub proof fn lemma_pull(input: Seq<char>, f: Feed)
    ensures
        budget(input, pull(input, f).0, pull(input, f).1) <= fuel(input, f),
        pull(input, f).1.pending is None,
{
    if f.pending is None {
        lemma_lex_moves(input, f.scan);
    }
}

/// A part gives nothing back.
pub proof fn lemma_part(input: Seq<char>, cur: Outcome, f: Feed)
    ensures
        fuel(input, part_of(input, cur, f).1) <= fuel(input, f),
{
    lemma_pull(input, f);
    lemma_pull(input, pull(input, f).1);
}

/// A marker gives back at most the outcome it was handed.
pub proof fn lemma_nullable(input: Seq<char>, cur: Outcome, f: Feed)
    ensures
        fuel(input, nullable_of(cur, f).1) <= budget(input, cur, f),
{
}

/// Body -> Part "?"? Body?
pub open spec fn body_of(input: Seq<char>, cur: Outcome, f: Feed) -> (
    Result<BodyView, FrontendError>,
    Feed,
)
    decreases 2 * fuel(input, f) + 1,
{
    let (part, f1) = part_of(input, cur, f);
    let (mark, f2) = pull(input, f1);
    let (nullable, f3) = nullable_of(mark, f2);
    let (more, f4) = pull(input, f3);
    proof {
        lemma_part(input, cur, f);
        lemma_pull(input, f1);
        lemma_nullable(input, mark, f2);
        lemma_pull(input, f3);
    }
    let (rbody, f5) = rbody_of(input, more, f4);
    (Ok(BodyView { part: part, nullable: nullable, rbody: rbody }), f5)
}

/// The rest of a body: another body where `cur` can start a part, else
/// nothing, with `cur` put back.
pub open spec fn rbody_of(input: Seq<char>, cur: Outcome, f: Feed) -> (
    Box<Option<Result<BodyView, FrontendError>>>,
    Feed,
)
    decreases 2 * budget(input, cur, f),
{
    if starts_part(cur) {
        let (body, f1) = body_of(input, cur, f);
        (Box::new(Some(body)), f1)
    } else {
        (Box::new(None), stash(cur, f))
    }
}

/// A body gives nothing back.
pub proof fn lemma_body(input: Seq<char>, cur: Outcome, f: Feed)
    ensures
        fuel(input, body_of(input, cur, f).1) <= fuel(input, f),
    decreases 2 * fuel(input, f) + 1,
{
    let (part, f1) = part_of(input, cur, f);
    let (mark, f2) = pull(input, f1);
    let (nullable, f3) = nullable_of(mark, f2);
    let (more, f4) = pull(input, f3);
    lemma_part(input, cur, f);
    lemma_pull(input, f1);
    lemma_nullable(input, mark, f2);
    lemma_pull(input, f3);
    lemma_rbody(input, more, f4);
}

/// The rest of a body gives back at most the outcome it was handed.
pub proof fn lemma_rbody(input: Seq<char>, cur: Outcome, f: Feed)
    ensures
        fuel(input, rbody_of(input, cur, f).1) <= budget(input, cur, f),
    decreases 2 * budget(input, cur, f),
{
    if starts_part(cur) {
        lemma_body(input, cur, f);
    }
}

/// Union -> Body ("|" Union)?
pub open spec fn union_of(input: Seq<char>, cur: Outcome, f: Feed) -> (
    Result<UnionView, FrontendError>,
    Feed,
)
    decreases 2 * fuel(input, f) + 1,
{
    let (body, f1) = body_of(input, cur, f);
    let (bar, f2) = pull(input, f1);
    proof {
        lemma_body(input, cur, f);
        lemma_pull(input, f1);
    }
    let (obody, f3) = obody_of(input, bar, f2);
    (Ok(UnionView { body: body, obody: obody }), f3)
}

/// One more alternative where `cur` is `|`, else nothing, with `cur` put
/// back.
pub open spec fn obody_of(input: Seq<char>, cur: Outcome, f: Feed) -> (
    Box<Option<Result<OBodyView, FrontendError>>>,
    Feed,
)
    decreases 2 * budget(input, cur, f),
{
    if is_kind(cur, TokenKind::Or) {
        let (first, f1) = pull(input, f);
        proof {
            lemma_pull(input, f);
        }
        let (union, f2) = union_of(input, first, f1);
        (Box::new(Some(Ok(OBodyView { or: cur, union: union }))), f2)
    } else {
        (Box::new(None), stash(cur, f))
    }
}

/// A union gives nothing back.
pub proof fn lemma_union(input: Seq<char>, cur: Outcome, f: Feed)
    ensures
        fuel(input, union_of(input, cur, f).1) <= fuel(input, f),
    decreases 2 * fuel(input, f) + 1,
{
    let (body, f1) = body_of(input, cur, f);
    let (bar, f2) = pull(input, f1);
    lemma_body(input, cur, f);
    lemma_pull(input, f1);
    lemma_obody(input, bar, f2);
}

/// An alternative gives back at most the outcome it was handed.
pub proof fn lemma_obody(input: Seq<char>, cur: Outcome, f: Feed)
    ensures
        fuel(input, obody_of(input, cur, f).1) <= budget(input, cur, f),
    decreases 2 * budget(input, cur, f),
{
    if is_kind(cur, TokenKind::Or) {
        let (first, f1) = pull(input, f);
        lemma_pull(input, f);
        lemma_union(input, first, f1);
    }
}

/// Prod -> NAME "?"? "->" Union ";" : every field keeps its own outcome, and
/// a field that failed does not stop the fields behind it.
pub open spec fn production_of(input: Seq<char>, cur: Outcome, f: Feed) -> (
    Result<ProdView, FrontendError>,
    Feed,
) {
    let (mark, f1) = pull(input, f);
    let (nullable, f2) = nullable_of(mark, f1);
    let (arrow, f3) = pull(input, f2);
    let (first, f4) = pull(input, f3);
    let (union, f5) = union_of(input, first, f4);
    let (endl, f6) = pull(input, f5);
    (
        Ok(
            ProdView {
                name: require(cur, TokenKind::Name, FrontendError::ExpectedName),
                nullable: nullable,
                arrow: require(arrow, TokenKind::Arrow, FrontendError::ExpectedArrow),
                union: union,
                endl: require(endl, TokenKind::Endl, FrontendError::ExpectedEndl),
            },
        ),
        f6,
    )
}

/// A production gives nothing back.
pub proof fn lemma_production(input: Seq<char>, cur: Outcome, f: Feed)
    ensures
        fuel(input, production_of(input, cur, f).1) <= fuel(input, f),
{
    let (mark, f1) = pull(input, f);
    let (nullable, f2) = nullable_of(mark, f1);
    let (arrow, f3) = pull(input, f2);
    let (first, f4) = pull(input, f3);
    let (union, f5) = union_of(input, first, f4);
    lemma_pull(input, f);
    lemma_nullable(input, mark, f1);
    lemma_pull(input, f2);
    lemma_pull(input, f3);
    lemma_union(input, first, f4);
    lemma_pull(input, f5);
}

/// PathItemList -> "::" NAME PathItemList? : nothing, with `cur` put back,
/// where `cur` is not `::`.
pub open spec fn path_item_list_of(input: Seq<char>, cur: Outcome, f: Feed) -> (
    Box<Option<Result<PathItemListView, FrontendError>>>,
    Feed,
)
    decreases budget(input, cur, f),
{
    if is_kind(cur, TokenKind::PathSeperator) {
        let (name, f1) = pull(input, f);
        let (more, f2) = pull(input, f1);
        proof {
            lemma_pull(input, f);
            lemma_pull(input, f1);
        }
        let (list, f3) = path_item_list_of(input, more, f2);
        (
            Box::new(
                Some(
                    Ok(
                        PathItemListView {
                            pathsep: cur,
                            name: require(name, TokenKind::Name, FrontendError::ExpectedName),
                            list: list,
                        },
                    ),
                ),
            ),
            f3,
        )
    } else {
        (Box::new(None), stash(cur, f))
    }
}

/// The segments of a path give back at most the outcome they were handed.
pub proof fn lemma_path_item_list(input: Seq<char>, cur: Outcome, f: Feed)
    ensures
        fuel(input, path_item_list_of(input, cur, f).1) <= budget(input, cur, f),
    decreases budget(input, cur, f),
{
    if is_kind(cur, TokenKind::PathSeperator) {
        let (name, f1) = pull(input, f);
        let (more, f2) = pull(input, f1);
        lemma_pull(input, f);
        lemma_pull(input, f1);
        lemma_path_item_list(input, more, f2);
    }
}

/// Path -> "use" NAME ("::" NAME)* ";"
pub open spec fn path_of(input: Seq<char>, cur: Outcome, f: Feed) -> (
    Result<PathView, FrontendError>,
    Feed,
) {
    let (name, f1) = pull(input, f);
    let (more, f2) = pull(input, f1);
    let (list, f3) = path_item_list_of(input, more, f2);
    let (endl, f4) = pull(input, f3);
    (
        Ok(
            PathView {
                kuse: require(cur, TokenKind::Use, FrontendError::ExpectedUse),
                name: require(name, TokenKind::Name, FrontendError::ExpectedName),
                list: list,
                endl: require(endl, TokenKind::Endl, FrontendError::ExpectedEndl),
            },
        ),
        f4,
    )
}

/// A path gives nothing back.
pub proof fn lemma_path(input: Seq<char>, cur: Outcome, f: Feed)
    ensures
        fuel(input, path_of(input, cur, f).1) <= fuel(input, f),
{
    let (name, f1) = pull(input, f);
    let (more, f2) = pull(input, f1);
    let (list, f3) = path_item_list_of(input, more, f2);
    lemma_pull(input, f);
    lemma_pull(input, f1);
    lemma_path_item_list(input, more, f2);
    lemma_pull(input, f3);
}

/// Grammar -> (Prod | Path) Grammar? : a first token that starts neither is
/// the one failure that the whole parse returns.
pub open spec fn grammar_of(input: Seq<char>, cur: Outcome, f: Feed) -> (
    Result<GrammarView, FrontendError>,
    Feed,
)
    decreases 2 * fuel(input, f) + 1,
{
    match cur {
        Ok(l) => if l.kind == TokenKind::Name {
            let (prod, f1) = production_of(input, cur, f);
            let (more, f2) = pull(input, f1);
            proof {
                lemma_production(input, cur, f);
                lemma_pull(input, f1);
            }
            let (rest, f3) = rgrammar_of(input, more, f2);
            (Ok(GrammarView::ProdDecl(prod, rest)), f3)
        } else if l.kind == TokenKind::Use {
            let (path, f1) = path_of(input, cur, f);
            let (more, f2) = pull(input, f1);
            proof {
                lemma_path(input, cur, f);
                lemma_pull(input, f1);
            }
            let (rest, f3) = rgrammar_of(input, more, f2);
            (Ok(GrammarView::PathDecl(path, rest)), f3)
        } else {
            (Err(FrontendError::ExpectedProdStartOrUse), f)
        },
        Err(e) => (Err(e), f),
    }
}

/// The rest of the declarations: more of them where `cur` starts one, else
/// nothing, with `cur` put back and its failure, if it is one, dropped.
pub open spec fn rgrammar_of(input: Seq<char>, cur: Outcome, f: Feed) -> (
    Box<Option<Result<GrammarView, FrontendError>>>,
    Feed,
)
    decreases 2 * budget(input, cur, f),
{
    if starts_decl(cur) {
        let (grammar, f1) = grammar_of(input, cur, f);
        (Box::new(Some(grammar)), f1)
    } else {
        (Box::new(None), stash(cur, f))
    }
}

/// The declarations give nothing back.
pub proof fn lemma_grammar(input: Seq<char>, cur: Outcome, f: Feed)
    ensures
        fuel(input, grammar_of(input, cur, f).1) <= fuel(input, f),
    decreases 2 * fuel(input, f) + 1,
{
    if is_kind(cur, TokenKind::Name) {
        let (prod, f1) = production_of(input, cur, f);
        let (more, f2) = pull(input, f1);
        lemma_production(input, cur, f);
        lemma_pull(input, f1);
        lemma_rgrammar(input, more, f2);
    } else if is_kind(cur, TokenKind::Use) {
        let (path, f1) = path_of(input, cur, f);
        let (more, f2) = pull(input, f1);
        lemma_path(input, cur, f);
        lemma_pull(input, f1);
        lemma_rgrammar(input, more, f2);
    }
}

/// The rest of the declarations gives back at most the outcome it was handed.
pub proof fn lemma_rgrammar(input: Seq<char>, cur: Outcome, f: Feed)
    ensures
        fuel(input, rgrammar_of(input, cur, f).1) <= budget(input, cur, f),
    decreases 2 * budget(input, cur, f),
{
    if starts_decl(cur) {
        lemma_grammar(input, cur, f);
    }
}

/// A whole parse: the first token decides.
pub open spec fn parse_of(input: Seq<char>, f: Feed) -> (Result<GrammarView, FrontendError>, Feed) {
    let (first, f1) = pull(input, f);
    grammar_of(input, first, f1)
}

} // verus!
