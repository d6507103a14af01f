use gideon::frontend_error::FrontendError;
use gideon::lexer::LexicalResult;
use gideon::parser::Parser;
use gideon::syntax_tree::{Body, Grammar, Part, PathItemList, Prod, Union};
use gideon::token::TokenKind;

fn source(text: &str) -> Vec<char> {
    text.chars().collect()
}

fn is_token(outcome: &LexicalResult, kind: TokenKind, text: &str) -> bool {
    match outcome {
        Ok(token) => {
            let found: String = token.data().value().iter().collect();
            token.kind() == kind && found == text
        }
        Err(_) => false,
    }
}

fn is_error(outcome: &LexicalResult, error: FrontendError) -> bool {
    match outcome {
        Ok(_) => false,
        Err(e) => *e == error,
    }
}

fn only_prod<'a, 'b>(tree: &'b Result<Grammar<'a>, FrontendError>) -> &'b Prod<'a> {
    match tree {
        Ok(Grammar::ProdDecl(Ok(prod), rest)) => {
            assert!(rest.is_none());
            prod
        }
        other => panic!("not a single production: {:?}", other),
    }
}

fn union_of<'a, 'b>(prod: &'b Prod<'a>) -> &'b Union<'a> {
    prod.union.as_ref().expect("a union")
}

fn body_of<'a, 'b>(union: &'b Union<'a>) -> &'b Body<'a> {
    union.body.as_ref().expect("a body")
}

fn name_part(body: &Body, text: &str) -> bool {
    match &body.part {
        Ok(Part::Name(name)) => is_token(name, TokenKind::Name, text),
        _ => false,
    }
}

#[test]
fn production_with_one_literal() {
    let input = source("A -> \"x\" ;");
    let mut parser = Parser::new(&input);
    let tree = parser.parse();
    let prod = only_prod(&tree);
    assert!(is_token(&prod.name, TokenKind::Name, "A"));
    assert!(matches!(prod.nullable, Ok(None)));
    assert!(is_token(&prod.arrow, TokenKind::Arrow, "->"));
    assert!(is_token(&prod.endl, TokenKind::Endl, ";"));
    let union = union_of(prod);
    assert!(union.obody.is_none());
    let body = body_of(union);
    match &body.part {
        Ok(Part::Literal(literal)) => assert!(is_token(literal, TokenKind::Literal, "x")),
        other => panic!("not a literal: {:?}", other),
    }
    assert!(matches!(body.nullable, Ok(None)));
    assert!(body.rbody.is_none());
}

#[test]
fn alternatives_nest_to_the_right() {
    let input = source("A -> B | C ;");
    let mut parser = Parser::new(&input);
    let tree = parser.parse();
    let prod = only_prod(&tree);
    let union = union_of(prod);
    let first = body_of(union);
    assert!(name_part(first, "B"));
    assert!(first.rbody.is_none());
    let arm = match &*union.obody {
        Some(Ok(arm)) => arm,
        other => panic!("no alternative: {:?}", other),
    };
    assert!(is_token(&arm.or, TokenKind::Or, "|"));
    let inner = arm.union.as_ref().expect("a union");
    assert!(name_part(body_of(inner), "C"));
    assert!(inner.obody.is_none());
    assert!(is_token(&prod.endl, TokenKind::Endl, ";"));
}

#[test]
fn path_with_two_segments() {
    let input = source("use a::b::c ;");
    let mut parser = Parser::new(&input);
    let tree = parser.parse();
    let path = match &tree {
        Ok(Grammar::PathDecl(Ok(path), rest)) => {
            assert!(rest.is_none());
            path
        }
        other => panic!("not a path: {:?}", other),
    };
    assert!(is_token(&path.kuse, TokenKind::Use, "use"));
    assert!(is_token(&path.name, TokenKind::Name, "a"));
    assert!(is_token(&path.endl, TokenKind::Endl, ";"));
    let first: &PathItemList = match &*path.list {
        Some(Ok(list)) => list,
        other => panic!("no segment: {:?}", other),
    };
    assert!(is_token(&first.pathsep, TokenKind::PathSeperator, "::"));
    assert!(is_token(&first.name, TokenKind::Name, "b"));
    let second = match &*first.list {
        Some(Ok(list)) => list,
        other => panic!("no second segment: {:?}", other),
    };
    assert!(is_token(&second.pathsep, TokenKind::PathSeperator, "::"));
    assert!(is_token(&second.name, TokenKind::Name, "c"));
    assert!(second.list.is_none());
}

#[test]
fn path_without_segments() {
    let input = source("use a;");
    let mut parser = Parser::new(&input);
    let tree = parser.parse();
    match &tree {
        Ok(Grammar::PathDecl(Ok(path), rest)) => {
            assert!(rest.is_none());
            assert!(is_token(&path.name, TokenKind::Name, "a"));
            assert!(path.list.is_none());
            assert!(is_token(&path.endl, TokenKind::Endl, ";"));
        }
        other => panic!("not a path: {:?}", other),
    }
}

#[test]
fn truncated_production_keeps_its_fields() {
    let input = source("A ->");
    let mut parser = Parser::new(&input);
    let tree = parser.parse();
    let prod = only_prod(&tree);
    assert!(is_token(&prod.name, TokenKind::Name, "A"));
    assert!(is_token(&prod.arrow, TokenKind::Arrow, "->"));
    let body = body_of(union_of(prod));
    assert!(matches!(body.part, Err(FrontendError::EOI)));
    assert!(matches!(body.nullable, Err(FrontendError::EOI)));
    assert!(body.rbody.is_none());
    assert!(union_of(prod).obody.is_none());
    assert!(is_error(&prod.endl, FrontendError::EOI));
}

#[test]
fn missing_endline_is_marked_in_its_field() {
    let input = source("A -> B | ");
    let mut parser = Parser::new(&input);
    let tree = parser.parse();
    let prod = only_prod(&tree);
    assert!(is_error(&prod.endl, FrontendError::EOI));

    let input = source("A -> B }");
    let mut parser = Parser::new(&input);
    let tree = parser.parse();
    let prod = only_prod(&tree);
    assert!(name_part(body_of(union_of(prod)), "B"));
    assert!(is_error(&prod.endl, FrontendError::ExpectedEndl));
}

#[test]
fn first_token_must_start_a_declaration() {
    let input = source("; A -> B ;");
    let mut parser = Parser::new(&input);
    assert!(matches!(parser.parse(), Err(FrontendError::ExpectedProdStartOrUse)));

    let input = source("");
    let mut parser = Parser::new(&input);
    assert!(matches!(parser.parse(), Err(FrontendError::EOI)));

    let input = source("@");
    let mut parser = Parser::new(&input);
    assert!(matches!(parser.parse(), Err(FrontendError::UnrecognizedInput)));
}

#[test]
fn declarations_follow_each_other() {
    let input = source("use a::b;\n# rules\nA -> B C ;\nD? -> None ;");
    let mut parser = Parser::new(&input);
    let tree = parser.parse();
    let rest = match &tree {
        Ok(Grammar::PathDecl(Ok(path), rest)) => {
            assert!(is_token(&path.name, TokenKind::Name, "a"));
            rest
        }
        other => panic!("not a path first: {:?}", other),
    };
    let rest = match &**rest {
        Some(Ok(Grammar::ProdDecl(Ok(prod), rest))) => {
            assert!(is_token(&prod.name, TokenKind::Name, "A"));
            let body = body_of(union_of(prod));
            assert!(name_part(body, "B"));
            match &*body.rbody {
                Some(Ok(next)) => {
                    assert!(name_part(next, "C"));
                    assert!(next.rbody.is_none());
                }
                other => panic!("no second part: {:?}", other),
            }
            rest
        }
        other => panic!("no second declaration: {:?}", other),
    };
    match &**rest {
        Some(Ok(Grammar::ProdDecl(Ok(prod), rest))) => {
            assert!(is_token(&prod.name, TokenKind::Name, "D"));
            match &prod.nullable {
                Ok(Some(Ok(marker))) => assert!(is_token(&marker.qmark, TokenKind::QMark, "?")),
                other => panic!("no marker: {:?}", other),
            }
            match &body_of(union_of(prod)).part {
                Ok(Part::Epsilon(e)) => assert!(is_token(e, TokenKind::Epsilon, "None")),
                other => panic!("not epsilon: {:?}", other),
            }
            assert!(rest.is_none());
        }
        other => panic!("no third declaration: {:?}", other),
    }
}

#[test]
fn repetition_ends_silently_at_a_token_that_starts_nothing() {
    let input = source("A -> B ; | C");
    let mut parser = Parser::new(&input);
    let tree = parser.parse();
    let prod = only_prod(&tree);
    assert!(is_token(&prod.endl, TokenKind::Endl, ";"));
}

#[test]
fn lexical_rule_reference_and_markers() {
    let input = source("A -> {num}? \"+\" ;");
    let mut parser = Parser::new(&input);
    let tree = parser.parse();
    let prod = only_prod(&tree);
    let body = body_of(union_of(prod));
    match &body.part {
        Ok(Part::LexicalRuleName(open, name, close)) => {
            assert!(is_token(open, TokenKind::OpenBrace, "{"));
            assert!(is_token(name, TokenKind::Name, "num"));
            assert!(is_token(close, TokenKind::CloseBrace, "}"));
        }
        other => panic!("not a rule reference: {:?}", other),
    }
    assert!(matches!(body.nullable, Ok(Some(Ok(_)))));
    match &*body.rbody {
        Some(Ok(next)) => match &next.part {
            Ok(Part::Literal(l)) => assert!(is_token(l, TokenKind::Literal, "+")),
            other => panic!("not a literal: {:?}", other),
        },
        other => panic!("no second part: {:?}", other),
    }
}

#[test]
fn broken_rule_reference_marks_its_fields() {
    let input = source("A -> { ; x ;");
    let mut parser = Parser::new(&input);
    let tree = parser.parse();
    let prod = only_prod(&tree);
    let body = body_of(union_of(prod));
    match &body.part {
        Ok(Part::LexicalRuleName(open, name, close)) => {
            assert!(is_token(open, TokenKind::OpenBrace, "{"));
            assert!(is_error(name, FrontendError::ExpectedName));
            assert!(is_error(close, FrontendError::ExpectedCloseCurlyBrace));
        }
        other => panic!("not a rule reference: {:?}", other),
    }
    assert!(is_token(&prod.endl, TokenKind::Endl, ";"));
}

#[test]
fn scanner_failure_stands_in_the_field_that_asked() {
    let input = source("A -> {@");
    let mut parser = Parser::new(&input);
    let tree = parser.parse();
    let prod = only_prod(&tree);
    match &body_of(union_of(prod)).part {
        Ok(Part::LexicalRuleName(open, name, close)) => {
            assert!(is_token(open, TokenKind::OpenBrace, "{"));
            assert!(is_error(name, FrontendError::UnrecognizedInput));
            assert!(is_error(close, FrontendError::UnrecognizedInput));
        }
        other => panic!("not a rule reference: {:?}", other),
    }
    assert!(is_error(&prod.endl, FrontendError::UnrecognizedInput));
}

#[test]
fn missing_arrow_and_part() {
    let input = source("A B ;");
    let mut parser = Parser::new(&input);
    let tree = parser.parse();
    let prod = only_prod(&tree);
    assert!(matches!(prod.nullable, Ok(None)));
    assert!(is_error(&prod.arrow, FrontendError::ExpectedArrow));
    let body = body_of(union_of(prod));
    assert!(matches!(body.part, Err(FrontendError::ExpectedPart)));
    assert!(matches!(body.nullable, Err(FrontendError::EOI)));
    assert!(is_error(&prod.endl, FrontendError::EOI));
}

#[test]
fn path_fields_fail_one_by_one() {
    let input = source("use ; ;");
    let mut parser = Parser::new(&input);
    let tree = parser.parse();
    match &tree {
        Ok(Grammar::PathDecl(Ok(path), rest)) => {
            assert!(is_token(&path.kuse, TokenKind::Use, "use"));
            assert!(is_error(&path.name, FrontendError::ExpectedName));
            assert!(path.list.is_none());
            assert!(is_token(&path.endl, TokenKind::Endl, ";"));
            assert!(rest.is_none());
        }
        other => panic!("not a path: {:?}", other),
    }

    let input = source("use a:: ; b");
    let mut parser = Parser::new(&input);
    let tree = parser.parse();
    match &tree {
        Ok(Grammar::PathDecl(Ok(path), _)) => {
            match &*path.list {
                Some(Ok(list)) => {
                    assert!(is_error(&list.name, FrontendError::ExpectedName));
                    assert!(list.list.is_none());
                }
                other => panic!("no segment: {:?}", other),
            }
            assert!(is_error(&path.endl, FrontendError::ExpectedEndl));
        }
        other => panic!("not a path: {:?}", other),
    }
}

#[test]
fn same_input_gives_same_tree() {
    let input = source("A -> B | {c}? \"d\" ;\nuse x::y;");
    let mut first = Parser::new(&input);
    let mut second = Parser::new(&input);
    assert_eq!(format!("{:?}", first.parse()), format!("{:?}", second.parse()));
}
