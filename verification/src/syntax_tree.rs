use vstd::prelude::*;
use crate::frontend_error::FrontendError;
use crate::lexer::{LexicalResult, outcome_of};
use crate::parser::SyntaxResult;
use crate::scan::Outcome;

verus! {

/// The rest of a repetition: the next node, or nothing where it ends.
pub type Recursive<T> = Box<Option<T>>;

/// An optional `?` marker: absent, present, or failed.
pub type ONullable<'a> = Option<SyntaxResult<Nullable<'a>>>;

/// `?` behind a symbol.
#[derive(Debug)]
pub struct Nullable<'a> {
    pub qmark: LexicalResult<'a>,
}

/// What a `Nullable` stands for.
pub struct NullableView {
    pub qmark: Outcome,
}

/// What an optional marker stands for.
pub type ONullableView = Result<Option<Result<NullableView, FrontendError>>, FrontendError>;

/// The atomic symbol of a body.
#[derive(Debug)]
pub enum Part<'a> {
    Literal(LexicalResult<'a>),
    LexicalRuleName(LexicalResult<'a>, LexicalResult<'a>, LexicalResult<'a>),
    Name(LexicalResult<'a>),
    Epsilon(LexicalResult<'a>),
}

/// What a `Part` stands for.
pub enum PartView {
    Literal(Outcome),
    LexicalRuleName(Outcome, Outcome, Outcome),
    Name(Outcome),
    Epsilon(Outcome),
}

/// One or more parts in a row, each with its own marker.
#[derive(Debug)]
pub struct Body<'a> {
    pub part: SyntaxResult<Part<'a>>,
    pub nullable: SyntaxResult<ONullable<'a>>,
    pub rbody: Recursive<SyntaxResult<Body<'a>>>,
}

/// What a `Body` stands for.
pub struct BodyView {
    pub part: Result<PartView, FrontendError>,
    pub nullable: ONullableView,
    pub rbody: Box<Option<Result<BodyView, FrontendError>>>,
}

/// One alternative and the alternatives behind it.
#[derive(Debug)]
pub struct Union<'a> {
    pub body: SyntaxResult<Body<'a>>,
    pub obody: Recursive<SyntaxResult<OBody<'a>>>,
}

/// `|` and what follows it.
#[derive(Debug)]
pub struct OBody<'a> {
    pub or: LexicalResult<'a>,
    pub union: SyntaxResult<Union<'a>>,
}

/// What a `Union` stands for.
pub struct UnionView {
    pub body: Result<BodyView, FrontendError>,
    pub obody: Box<Option<Result<OBodyView, FrontendError>>>,
}

/// What an `OBody` stands for.
pub struct OBodyView {
    pub or: Outcome,
    pub union: Result<UnionView, FrontendError>,
}

/// A production: `NAME "?"? "->" Union ";"`.
#[derive(Debug)]
pub struct Prod<'a> {
    pub name: LexicalResult<'a>,
    pub nullable: SyntaxResult<ONullable<'a>>,
    pub arrow: LexicalResult<'a>,
    pub union: SyntaxResult<Union<'a>>,
    pub endl: LexicalResult<'a>,
}

/// What a `Prod` stands for.
pub struct ProdView {
    pub name: Outcome,
    pub nullable: ONullableView,
    pub arrow: Outcome,
    pub union: Result<UnionView, FrontendError>,
    pub endl: Outcome,
}

/// One `"::" NAME` segment of a path and the segments behind it.
#[derive(Debug)]
pub struct PathItemList<'a> {
    pub pathsep: LexicalResult<'a>,
    pub name: LexicalResult<'a>,
    pub list: Recursive<SyntaxResult<PathItemList<'a>>>,
}

/// What a `PathItemList` stands for.
pub struct PathItemListView {
    pub pathsep: Outcome,
    pub name: Outcome,
    pub list: Box<Option<Result<PathItemListView, FrontendError>>>,
}

/// An import: `"use" NAME ("::" NAME)* ";"`.
#[derive(Debug)]
pub struct Path<'a> {
    pub kuse: LexicalResult<'a>,
    pub name: LexicalResult<'a>,
    pub list: Recursive<SyntaxResult<PathItemList<'a>>>,
    pub endl: LexicalResult<'a>,
}

/// What a `Path` stands for.
pub struct PathView {
    pub kuse: Outcome,
    pub name: Outcome,
    pub list: Box<Option<Result<PathItemListView, FrontendError>>>,
    pub endl: Outcome,
}

/// The declarations of a source text, in their order.
#[derive(Debug)]
pub enum Grammar<'a> {
    ProdDecl(SyntaxResult<Prod<'a>>, Recursive<SyntaxResult<Grammar<'a>>>),
    PathDecl(SyntaxResult<Path<'a>>, Recursive<SyntaxResult<Grammar<'a>>>),
}

/// What a `Grammar` stands for.
pub enum GrammarView {
    ProdDecl(Result<ProdView, FrontendError>, Box<Option<Result<GrammarView, FrontendError>>>),
    PathDecl(Result<PathView, FrontendError>, Box<Option<Result<GrammarView, FrontendError>>>),
}

pub open spec fn onullable_view(n: SyntaxResult<ONullable>) -> ONullableView {
    match n {
        Ok(Some(Ok(marker))) => Ok(Some(Ok(marker@))),
        Ok(Some(Err(e))) => Ok(Some(Err(e))),
        Ok(None) => Ok(None),
        Err(e) => Err(e),
    }
}

pub open spec fn part_outcome(p: SyntaxResult<Part>) -> Result<PartView, FrontendError> {
    match p {
        Ok(part) => Ok(part@),
        Err(e) => Err(e),
    }
}

pub open spec fn body_view(b: Body) -> BodyView
    decreases b,
{
    BodyView {
        part: part_outcome(b.part),
        nullable: onullable_view(b.nullable),
        rbody: match *b.rbody {
            Some(Ok(rest)) => Box::new(Some(Ok(body_view(rest)))),
            Some(Err(e)) => Box::new(Some(Err(e))),
            None => Box::new(None),
        },
    }
}

pub open spec fn body_outcome(b: SyntaxResult<Body>) -> Result<BodyView, FrontendError> {
    match b {
        Ok(body) => Ok(body@),
        Err(e) => Err(e),
    }
}

pub open spec fn rbody_view(r: Recursive<SyntaxResult<Body>>) -> Box<Option<Result<BodyView, FrontendError>>> {
    match *r {
        Some(b) => Box::new(Some(body_outcome(b))),
        None => Box::new(None),
    }
}

pub open spec fn union_view(u: Union) -> UnionView
    decreases u,
{
    UnionView {
        body: body_outcome(u.body),
        obody: match *u.obody {
            Some(Ok(arm)) => Box::new(Some(Ok(OBodyView {
                or: outcome_of(arm.or),
                union: match arm.union {
                    Ok(rest) => Ok(union_view(rest)),
                    Err(e) => Err(e),
                },
            }))),
            Some(Err(e)) => Box::new(Some(Err(e))),
            None => Box::new(None),
        },
    }
}

pub open spec fn union_outcome(u: SyntaxResult<Union>) -> Result<UnionView, FrontendError> {
    match u {
        Ok(union) => Ok(union@),
        Err(e) => Err(e),
    }
}

pub open spec fn obody_view(r: Recursive<SyntaxResult<OBody>>) -> Box<Option<Result<OBodyView, FrontendError>>> {
    match *r {
        Some(Ok(arm)) => Box::new(Some(Ok(arm@))),
        Some(Err(e)) => Box::new(Some(Err(e))),
        None => Box::new(None),
    }
}

pub open spec fn prod_outcome(p: SyntaxResult<Prod>) -> Result<ProdView, FrontendError> {
    match p {
        Ok(prod) => Ok(prod@),
        Err(e) => Err(e),
    }
}

pub open spec fn path_item_list_view(l: PathItemList) -> PathItemListView
    decreases l,
{
    PathItemListView {
        pathsep: outcome_of(l.pathsep),
        name: outcome_of(l.name),
        list: match *l.list {
            Some(Ok(rest)) => Box::new(Some(Ok(path_item_list_view(rest)))),
            Some(Err(e)) => Box::new(Some(Err(e))),
            None => Box::new(None),
        },
    }
}

pub open spec fn path_list_view(r: Recursive<SyntaxResult<PathItemList>>) -> Box<Option<Result<PathItemListView, FrontendError>>> {
    match *r {
        Some(Ok(list)) => Box::new(Some(Ok(list@))),
        Some(Err(e)) => Box::new(Some(Err(e))),
        None => Box::new(None),
    }
}

pub open spec fn path_outcome(p: SyntaxResult<Path>) -> Result<PathView, FrontendError> {
    match p {
        Ok(path) => Ok(path@),
        Err(e) => Err(e),
    }
}

pub open spec fn grammar_view(g: Grammar) -> GrammarView
    decreases g,
{
    match g {
        Grammar::ProdDecl(prod, rest) => GrammarView::ProdDecl(
            prod_outcome(prod),
            match *rest {
                Some(Ok(next)) => Box::new(Some(Ok(grammar_view(next)))),
                Some(Err(e)) => Box::new(Some(Err(e))),
                None => Box::new(None),
            },
        ),
        Grammar::PathDecl(path, rest) => GrammarView::PathDecl(
            path_outcome(path),
            match *rest {
                Some(Ok(next)) => Box::new(Some(Ok(grammar_view(next)))),
                Some(Err(e)) => Box::new(Some(Err(e))),
                None => Box::new(None),
            },
        ),
    }
}

pub open spec fn grammar_outcome(g: SyntaxResult<Grammar>) -> Result<GrammarView, FrontendError> {
    match g {
        Ok(grammar) => Ok(grammar@),
        Err(e) => Err(e),
    }
}

pub open spec fn rgrammar_view(r: Recursive<SyntaxResult<Grammar>>) -> Box<Option<Result<GrammarView, FrontendError>>> {
    match *r {
        Some(g) => Box::new(Some(grammar_outcome(g))),
        None => Box::new(None),
    }
}

impl<'a> View for Nullable<'a> {
    type V = NullableView;

    open spec fn view(&self) -> NullableView {
        NullableView { qmark: outcome_of(self.qmark) }
    }
}

impl<'a> View for Part<'a> {
    type V = PartView;

    open spec fn view(&self) -> PartView {
        match *self {
            Part::Literal(t) => PartView::Literal(outcome_of(t)),
            Part::LexicalRuleName(open, name, close) => PartView::LexicalRuleName(
                outcome_of(open),
                outcome_of(name),
                outcome_of(close),
            ),
            Part::Name(t) => PartView::Name(outcome_of(t)),
            Part::Epsilon(t) => PartView::Epsilon(outcome_of(t)),
        }
    }
}

impl<'a> View for Body<'a> {
    type V = BodyView;

    open spec fn view(&self) -> BodyView {
        body_view(*self)
    }
}

impl<'a> View for Union<'a> {
    type V = UnionView;

    open spec fn view(&self) -> UnionView {
        union_view(*self)
    }
}

impl<'a> View for OBody<'a> {
    type V = OBodyView;

    open spec fn view(&self) -> OBodyView {
        OBodyView { or: outcome_of(self.or), union: union_outcome(self.union) }
    }
}

impl<'a> View for Prod<'a> {
    type V = ProdView;

    open spec fn view(&self) -> ProdView {
        ProdView {
            name: outcome_of(self.name),
            nullable: onullable_view(self.nullable),
            arrow: outcome_of(self.arrow),
            union: union_outcome(self.union),
            endl: outcome_of(self.endl),
        }
    }
}

impl<'a> View for PathItemList<'a> {
    type V = PathItemListView;

    open spec fn view(&self) -> PathItemListView {
        path_item_list_view(*self)
    }
}

impl<'a> View for Path<'a> {
    type V = PathView;

    open spec fn view(&self) -> PathView {
        PathView {
            kuse: outcome_of(self.kuse),
            name: outcome_of(self.name),
            list: path_list_view(self.list),
            endl: outcome_of(self.endl),
        }
    }
}

impl<'a> View for Grammar<'a> {
    type V = GrammarView;

    open spec fn view(&self) -> GrammarView {
        grammar_view(*self)
    }
}

impl<'a> Nullable<'a> {
    pub fn new(qmark: LexicalResult<'a>) -> (node: Self)
        ensures
            node.qmark == qmark,
    {
        Nullable { qmark: qmark }
    }
}

impl<'a> Body<'a> {
    pub fn new(
        part: SyntaxResult<Part<'a>>,
        nullable: SyntaxResult<ONullable<'a>>,
        rbody: Recursive<SyntaxResult<Body<'a>>>,
    ) -> (node: Self)
        ensures
            node.part == part,
            node.nullable == nullable,
            node.rbody == rbody,
            node@ == (BodyView {
                part: part_outcome(part),
                nullable: onullable_view(nullable),
                rbody: rbody_view(rbody),
            }),
    {
        Body { part: part, nullable: nullable, rbody: rbody }
    }
}

impl<'a> Union<'a> {
    pub fn new(body: SyntaxResult<Body<'a>>, obody: Recursive<SyntaxResult<OBody<'a>>>) -> (node: Self)
        ensures
            node.body == body,
            node.obody == obody,
            node@ == (UnionView { body: body_outcome(body), obody: obody_view(obody) }),
    {
        Union { body: body, obody: obody }
    }
}

impl<'a> OBody<'a> {
    pub fn new(or: LexicalResult<'a>, union: SyntaxResult<Union<'a>>) -> (node: Self)
        ensures
            node.or == or,
            node.union == union,
    {
        OBody { or: or, union: union }
    }
}

impl<'a> Prod<'a> {
    pub fn new(
        name: LexicalResult<'a>,
        nullable: SyntaxResult<ONullable<'a>>,
        arrow: LexicalResult<'a>,
        union: SyntaxResult<Union<'a>>,
        endl: LexicalResult<'a>,
    ) -> (node: Self)
        ensures
            node.name == name,
            node.nullable == nullable,
            node.arrow == arrow,
            node.union == union,
            node.endl == endl,
    {
        Prod { name: name, nullable: nullable, arrow: arrow, union: union, endl: endl }
    }
}

impl<'a> PathItemList<'a> {
    pub fn new(
        pathsep: LexicalResult<'a>,
        name: LexicalResult<'a>,
        list: Recursive<SyntaxResult<PathItemList<'a>>>,
    ) -> (node: Self)
        ensures
            node.pathsep == pathsep,
            node.name == name,
            node.list == list,
            node@ == (PathItemListView {
                pathsep: outcome_of(pathsep),
                name: outcome_of(name),
                list: path_list_view(list),
            }),
    {
        PathItemList { pathsep: pathsep, name: name, list: list }
    }
}

impl<'a> Path<'a> {
    pub fn new(
        kuse: LexicalResult<'a>,
        name: LexicalResult<'a>,
        list: Recursive<SyntaxResult<PathItemList<'a>>>,
        endl: LexicalResult<'a>,
    ) -> (node: Self)
        ensures
            node.kuse == kuse,
            node.name == name,
            node.list == list,
            node.endl == endl,
    {
        Path { kuse: kuse, name: name, list: list, endl: endl }
    }
}

} // verus!
