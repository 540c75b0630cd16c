use rubic::ast::{
    CallExpr, Class, Constant, Expr, Function, Identifier, Item, Module, Path, PathSegmentKind,
    Program, Stmt, StringLiteral,
};
use rubic::parse::{Error, Parser};

#[test]
fn a_new_program_is_empty() {
    assert_eq!(Program::new(), Program { items: vec![] });
}

#[test]
fn a_new_module_is_empty() {
    assert_eq!(Module::new("Abc"), Module { name: "Abc".to_owned(), items: vec![] });
}

#[test]
fn a_new_class_is_empty_and_has_no_parent() {
    assert_eq!(
        Class::new("Abc"),
        Class { name: "Abc".to_owned(), items: vec![], superclass: None }
    );
}

#[test]
fn an_uppercase_first_character_makes_a_constant() {
    assert_eq!(
        PathSegmentKind::new("Abc".to_owned()),
        PathSegmentKind::Constant(Constant("Abc".to_owned()))
    );
    assert_eq!(
        PathSegmentKind::new("A".to_owned()),
        PathSegmentKind::Constant(Constant("A".to_owned()))
    );
    assert_eq!(
        PathSegmentKind::new("Ärger".to_owned()),
        PathSegmentKind::Constant(Constant("Ärger".to_owned()))
    );
}

#[test]
fn any_other_first_character_makes_an_identifier() {
    assert_eq!(
        PathSegmentKind::new("abc".to_owned()),
        PathSegmentKind::Identifier(Identifier("abc".to_owned()))
    );
    assert_eq!(
        PathSegmentKind::new("aBC".to_owned()),
        PathSegmentKind::Identifier(Identifier("aBC".to_owned()))
    );
    assert_eq!(
        PathSegmentKind::new("_Abc".to_owned()),
        PathSegmentKind::Identifier(Identifier("_Abc".to_owned()))
    );
    assert_eq!(
        PathSegmentKind::new("ärger".to_owned()),
        PathSegmentKind::Identifier(Identifier("ärger".to_owned()))
    );
}

#[test]
fn a_name_without_characters_is_an_identifier() {
    assert_eq!(
        PathSegmentKind::new(String::new()),
        PathSegmentKind::Identifier(Identifier(String::new()))
    );
}

#[test]
fn classify_goes_by_the_flag_alone() {
    assert_eq!(
        PathSegmentKind::classify("abc".to_owned(), true),
        PathSegmentKind::Constant(Constant("abc".to_owned()))
    );
    assert_eq!(
        PathSegmentKind::classify("Abc".to_owned(), false),
        PathSegmentKind::Identifier(Identifier("Abc".to_owned()))
    );
    assert_eq!(
        PathSegmentKind::classify(String::new(), false),
        PathSegmentKind::Identifier(Identifier(String::new()))
    );
}

#[test]
fn declarations_and_statements_are_items() {
    let class: Item = Class::new("A").into();
    assert_eq!(class, Item::Class(Class::new("A")));
    let module: Item = Module::new("A").into();
    assert_eq!(module, Item::Module(Module::new("A")));
    let function: Item =
        Function { name: "f".to_owned(), parameters: vec![], statements: vec![] }.into();
    assert_eq!(
        function,
        Item::Function(Function { name: "f".to_owned(), parameters: vec![], statements: vec![] })
    );
    let stmt: Item = Stmt::Expr(StringLiteral { value: "s".to_owned() }.into()).into();
    assert_eq!(
        stmt,
        Item::Stmt(Stmt::Expr(Expr::StringLiteral(StringLiteral { value: "s".to_owned() })))
    );
}

#[test]
fn calls_and_string_literals_are_expressions() {
    let call: Expr = CallExpr { callee: Path { parts: vec![] }, arguments: vec![] }.into();
    assert_eq!(call, Expr::Call(CallExpr { callee: Path { parts: vec![] }, arguments: vec![] }));
    let literal: Expr = StringLiteral { value: "s".to_owned() }.into();
    assert_eq!(literal, Expr::StringLiteral(StringLiteral { value: "s".to_owned() }));
}

#[test]
fn a_copy_of_a_tree_equals_the_tree() {
    let tree = Parser::new(
        "module A\n  class B\n    def c(d, e = \"f\", g = H::i)\n      J::k.l \"m\", \"n\"\n      \"o\"\n    end\n  end\nend\nrun;\n"
            .chars()
            .collect(),
    )
    .parse()
    .expect("failed to parse");
    assert_eq!(tree.items.len(), 2);
    assert_eq!(tree.clone(), tree);
    for item in &tree.items {
        assert_eq!(&item.clone(), item);
    }
}

#[test]
fn a_copy_of_an_error_equals_the_error() {
    let unexpected = Parser::new("class".chars().collect()).parse().expect_err("parsed");
    assert_eq!(unexpected.clone(), unexpected);
    let lexical = Parser::new("?".chars().collect()).parse().expect_err("parsed");
    assert_eq!(lexical.clone(), lexical);
    let io = Error::Io { message: "no such file".to_owned() };
    assert_eq!(io.clone(), io);
}
