use rubic::ast;
use rubic::parse::parser::Parser;

fn parse(s: &str) -> ast::Program {
    Parser::new(s.chars().collect()).parse().expect("failed to parse")
}

#[test]
fn can_parse_single_empty_class() {
    assert_eq!(parse("class Abc\nend"), ast::Program {
        items: vec![ast::Class::new("Abc").into()]
    });
}

#[test]
fn can_parse_multiple_empty_classes() {
    assert_eq!(parse("class Abc\nend\nclass Def\nend"), ast::Program {
        items: vec![ast::Class::new("Abc").into(), ast::Class::new("Def").into()],
    });
}

#[test]
fn can_parse_classes_with_semicolons() {
    assert_eq!(parse("class Abc;end"), ast::Program {
        items: vec![ast::Class::new("Abc").into()],
    });
}

#[test]
fn can_parse_nested_classes() {
    assert_eq!(parse("class Abc; class Def; end; end"), ast::Program {
        items: vec![ast::Class {
            name: "Abc".to_owned(),
            items: vec![ast::Class::new("Def").into()],
            superclass: None,
        }.into()]
    });
}

#[test]
fn can_parse_single_empty_module() {
    assert_eq!(parse("module Abc\nend"), ast::Program {
        items: vec![ast::Module::new("Abc").into()]
    });
}

#[test]
fn can_parse_nested_modules() {
    assert_eq!(parse("module Abc; module Def; end; end"), ast::Program {
        items: vec![ast::Module {
            name: "Abc".to_owned(),
            items: vec![ast::Module::new("Def").into()],
        }.into()]
    });
}

#[test]
fn can_parse_simple_function() {
    assert_eq!(parse("def abc; end"), ast::Program {
        items: vec![ast::Function {
            name: "abc".to_owned(),
            parameters: vec![],
            statements: vec![],
        }.into()]
    });
}

#[test]
fn can_parse_path() {
    assert_eq!(parse("Abc::def.obt"), ast::Program {
        items: vec![ast::Stmt::Expr(ast::CallExpr {
            callee: ast::Path {
                parts: vec![
                    ast::PathSegment {
                        kind: ast::PathSegmentKind::Constant(ast::Constant("Abc".to_owned())),
                        separator: ast::PathSeparator::Root,
                    },
                    ast::PathSegment {
                        kind: ast::PathSegmentKind::Identifier(ast::Identifier("def".to_owned())),
                        separator: ast::PathSeparator::DoubleColon,
                    },
                    ast::PathSegment {
                        kind: ast::PathSegmentKind::Identifier(ast::Identifier("obt".to_owned())),
                        separator: ast::PathSeparator::Dot,
                    },
                ],
            },
            arguments: Vec::new(),
        }.into()).into()]
    });
}
