use rubic::ast::{
    Argument, CallExpr, Class, Constant, Expr, Function, Identifier, Item, Module, Parameter, Path,
    PathSegment, PathSegmentKind, PathSeparator, Program, Stmt, StringLiteral,
};
use rubic::parse::{Error, LexError, LexErrorKind, Parser, Token};

fn run(s: &str) -> Result<Program, Error> {
    Parser::new(s.chars().collect()).parse()
}

fn items(s: &str) -> Vec<Item> {
    run(s).expect("failed to parse").items
}

fn error(s: &str) -> Error {
    run(s).expect_err("parsed")
}

fn word(text: &str) -> Token {
    Token::Word(text.to_owned())
}

fn unexpected(found: Token, expected: Vec<Token>) -> Error {
    Error::UnexpectedToken { found, expected }
}

fn word_expected(found: Token) -> Error {
    unexpected(found, vec![word("word")])
}

fn terminator_expected(found: Token) -> Error {
    unexpected(found, vec![word("terminator")])
}

fn expression_expected(found: Token) -> Error {
    unexpected(found, vec![word("word"), Token::String("string".to_owned())])
}

fn class(name: &str, items: Vec<Item>) -> Item {
    Item::Class(Class { name: name.to_owned(), items, superclass: None })
}

fn module(name: &str, items: Vec<Item>) -> Item {
    Item::Module(Module { name: name.to_owned(), items })
}

fn function(name: &str, parameters: Vec<Parameter>, statements: Vec<Stmt>) -> Item {
    Item::Function(Function { name: name.to_owned(), parameters, statements })
}

fn constant(separator: PathSeparator, name: &str) -> PathSegment {
    PathSegment { kind: PathSegmentKind::Constant(Constant(name.to_owned())), separator }
}

fn identifier(separator: PathSeparator, name: &str) -> PathSegment {
    PathSegment { kind: PathSegmentKind::Identifier(Identifier(name.to_owned())), separator }
}

fn call(parts: Vec<PathSegment>, arguments: Vec<Expr>) -> Expr {
    Expr::Call(CallExpr {
        callee: Path { parts },
        arguments: arguments.into_iter().map(Argument::Positional).collect(),
    })
}

fn simple_call(name: &str, arguments: Vec<Expr>) -> Expr {
    call(vec![identifier(PathSeparator::Root, name)], arguments)
}

fn literal(value: &str) -> Expr {
    Expr::StringLiteral(StringLiteral { value: value.to_owned() })
}

fn parameter(name: &str, default: Option<Expr>) -> Parameter {
    Parameter { name: name.to_owned(), default: default.map(Box::new) }
}

fn depth(items: &[Item]) -> usize {
    items
        .iter()
        .map(|item| match item {
            Item::Class(class) => 1 + depth(&class.items),
            Item::Module(module) => 1 + depth(&module.items),
            _ => 1,
        })
        .max()
        .unwrap_or(0)
}

#[test]
fn an_empty_program_has_no_items() {
    assert_eq!(run(""), Ok(Program { items: vec![] }));
    assert_eq!(run("\n\n  \n"), Ok(Program { items: vec![] }));
    assert_eq!(run("# nothing here"), Ok(Program { items: vec![] }));
}

#[test]
fn a_class_has_no_parent() {
    assert_eq!(
        run("class Abc\nend"),
        Ok(Program {
            items: vec![Item::Class(Class {
                name: "Abc".to_owned(),
                items: vec![],
                superclass: None
            })]
        })
    );
}

#[test]
fn line_breaks_and_semicolons_end_a_header_alike() {
    assert_eq!(run("class Abc\nend"), run("class Abc;end"));
    assert_eq!(run("module Abc\nend\n"), run("module Abc;end;"));
    assert_eq!(run("def abc\nend"), run("def abc; end"));
    assert_eq!(
        run("class A\nclass B\nend\nend\nmodule C\nend\n"),
        run("class A;class B;end;end;module C;end;")
    );
}

#[test]
fn line_breaks_and_semicolons_are_interchangeable() {
    assert_eq!(
        run("module A\nclass B\ndef c(d = \"e\")\nF::g.h \"i\", \"j\"\n\"k\"\nl\nend\nend\nm\nend\n"),
        run("module A;class B;def c(d = \"e\");F::g.h \"i\", \"j\";\"k\";l;end;end;m;end;")
    );
    assert_eq!(run("foo \"a\"\nbar\n\"c\""), run("foo \"a\";bar;\"c\""));
    assert_eq!(run("class A\nend end"), run("class A;end end"));
    assert_eq!(error("class A\nend end"), terminator_expected(word("end")));
    assert_eq!(error("class\nA"), word_expected(Token::EndOfLine));
    assert_eq!(error("class;A"), word_expected(Token::Symbol(";")));
}

#[test]
fn blank_lines_between_declarations_change_nothing() {
    let dense = run("class Abc\nend\nclass Def\nend");
    assert_eq!(dense, Ok(Program { items: vec![class("Abc", vec![]), class("Def", vec![])] }));
    assert_eq!(run("class Abc\nend\n\nclass Def\nend"), dense);
    assert_eq!(run("class Abc\nend\n\n\n\n\nclass Def\nend"), dense);
    assert_eq!(run("\n\nclass Abc\nend\n  \n\t\nclass Def\nend\n\n"), dense);
    assert_eq!(run("class Abc;end;\n\nclass Def;end\n"), dense);
    assert_eq!(run("class Abc\n\n\nend\n# a comment\n\nclass Def\n\nend"), dense);
}

#[test]
fn blank_lines_inside_a_block_change_nothing() {
    let dense = run("module A\nclass B\nend\nclass C\nend\nend");
    assert_eq!(
        dense,
        Ok(Program { items: vec![module("A", vec![class("B", vec![]), class("C", vec![])])] })
    );
    assert_eq!(run("module A\n\n\nclass B\nend\n\n\nclass C\nend\n\n\nend"), dense);
    assert_eq!(run("module A;\nclass B;end;\n\nclass C;end;\nend"), dense);
}

#[test]
fn items_keep_the_order_of_the_source() {
    assert_eq!(
        items("module B; end\nclass A; end\ndef c; end\nmodule A; end"),
        vec![
            module("B", vec![]),
            class("A", vec![]),
            function("c", vec![], vec![]),
            module("A", vec![]),
        ]
    );
}

#[test]
fn declarations_nest_as_deep_as_the_source() {
    let flat = items("class A; end; module B; end; class C; end");
    assert_eq!(flat.len(), 3);
    assert_eq!(depth(&flat), 1);

    let nested = items("module A; class B; module C; class D; end; end; end; end");
    assert_eq!(nested.len(), 1);
    assert_eq!(depth(&nested), 4);
    assert_eq!(
        nested,
        vec![module("A", vec![class("B", vec![module("C", vec![class("D", vec![])])])])]
    );

    let mixed = items("class A\nclass B\nend\nclass C\nmodule D\nend\nend\nend\nmodule E\nend");
    assert_eq!(mixed.len(), 2);
    assert_eq!(depth(&mixed), 3);
    assert_eq!(
        mixed,
        vec![
            class("A", vec![class("B", vec![]), class("C", vec![module("D", vec![])])]),
            module("E", vec![]),
        ]
    );
}

#[test]
fn a_keyword_may_be_a_name() {
    assert_eq!(items("class end\nend"), vec![class("end", vec![])]);
    assert_eq!(items("module class; end"), vec![module("class", vec![])]);
    assert_eq!(items("def def; end"), vec![function("def", vec![], vec![])]);
}

#[test]
fn a_keyword_is_a_plain_word_inside_a_path() {
    assert_eq!(
        items("foo.class"),
        vec![Item::Stmt(Stmt::Expr(call(
            vec![
                identifier(PathSeparator::Root, "foo"),
                identifier(PathSeparator::Dot, "class"),
            ],
            vec![]
        )))]
    );
}

#[test]
fn every_segment_is_classified_by_its_own_first_character() {
    assert_eq!(
        items("Abc::def.obt"),
        vec![Item::Stmt(Stmt::Expr(call(
            vec![
                constant(PathSeparator::Root, "Abc"),
                identifier(PathSeparator::DoubleColon, "def"),
                identifier(PathSeparator::Dot, "obt"),
            ],
            vec![]
        )))]
    );
    assert_eq!(
        items("abc.Def::ghi::Jkl.mno"),
        vec![Item::Stmt(Stmt::Expr(call(
            vec![
                identifier(PathSeparator::Root, "abc"),
                constant(PathSeparator::Dot, "Def"),
                identifier(PathSeparator::DoubleColon, "ghi"),
                constant(PathSeparator::DoubleColon, "Jkl"),
                identifier(PathSeparator::Dot, "mno"),
            ],
            vec![]
        )))]
    );
    assert_eq!(
        items("_Abc.aBC.École"),
        vec![Item::Stmt(Stmt::Expr(call(
            vec![
                identifier(PathSeparator::Root, "_Abc"),
                identifier(PathSeparator::Dot, "aBC"),
                constant(PathSeparator::Dot, "École"),
            ],
            vec![]
        )))]
    );
}

#[test]
fn a_path_needs_a_word_after_a_separator() {
    assert_eq!(error("Abc::"), word_expected(Token::EndOfFile));
    assert_eq!(error("abc.;"), word_expected(Token::Symbol(";")));
    assert_eq!(error("abc..d"), word_expected(Token::Symbol(".")));
    assert_eq!(error("abc.\"d\""), word_expected(Token::String("d".to_owned())));
}

#[test]
fn a_truncated_class_is_an_error() {
    assert_eq!(error("class"), word_expected(Token::EndOfFile));
    assert_eq!(error("module"), word_expected(Token::EndOfFile));
    assert_eq!(error("def"), word_expected(Token::EndOfFile));
}

#[test]
fn a_block_without_its_end_is_an_error() {
    assert_eq!(error("class Abc\n"), expression_expected(Token::EndOfFile));
    assert_eq!(error("class Abc"), expression_expected(Token::EndOfFile));
    assert_eq!(error("module Abc; class Def; end;"), expression_expected(Token::EndOfFile));
    assert_eq!(error("def abc\n"), expression_expected(Token::EndOfFile));
    assert_eq!(error("def abc\nfoo\n"), expression_expected(Token::EndOfFile));
}

#[test]
fn an_end_outside_a_block_is_a_plain_word() {
    assert_eq!(items("end"), vec![Item::Stmt(Stmt::Expr(simple_call("end", vec![])))]);
    assert_eq!(
        items("class Abc; end; end; class Def; end"),
        vec![
            class("Abc", vec![]),
            Item::Stmt(Stmt::Expr(simple_call("end", vec![]))),
            class("Def", vec![]),
        ]
    );
}

#[test]
fn a_name_has_to_be_a_word() {
    assert_eq!(error("class \"Abc\"; end"), word_expected(Token::String("Abc".to_owned())));
    assert_eq!(error("module ; end"), word_expected(Token::Symbol(";")));
    assert_eq!(error("class\nAbc; end"), word_expected(Token::EndOfLine));
    assert_eq!(error("def\nabc; end"), word_expected(Token::EndOfLine));
}

#[test]
fn a_header_ends_with_a_terminator() {
    assert_eq!(error("class Abc end"), terminator_expected(word("end")));
    assert_eq!(error("module Abc Def; end"), terminator_expected(word("Def")));
    assert_eq!(error("class Abc.Def; end"), terminator_expected(Token::Symbol(".")));
    assert_eq!(error("def abc end"), terminator_expected(word("end")));
}

#[test]
fn an_item_ends_with_a_terminator() {
    assert_eq!(error("class Abc; end class Def; end"), terminator_expected(word("class")));
    assert_eq!(error("class Abc; end, class Def; end"), terminator_expected(Token::Symbol(",")));
}

#[test]
fn a_string_literal_is_an_item() {
    assert_eq!(items("\"hi\""), vec![Item::Stmt(Stmt::Expr(literal("hi")))]);
    assert_eq!(items("\"hi\"\n"), vec![Item::Stmt(Stmt::Expr(literal("hi")))]);
    assert_eq!(
        items("\"a\"; 'b'\nclass Abc\n  \"c\"\nend"),
        vec![
            Item::Stmt(Stmt::Expr(literal("a"))),
            Item::Stmt(Stmt::Expr(literal("b"))),
            class("Abc", vec![Item::Stmt(Stmt::Expr(literal("c")))]),
        ]
    );
}

#[test]
fn an_item_starts_with_a_word_or_a_string_literal() {
    assert_eq!(error("(a)"), expression_expected(Token::Symbol("(")));
    assert_eq!(error(", foo"), expression_expected(Token::Symbol(",")));
    assert_eq!(error("class Abc; = ; end"), expression_expected(Token::Symbol("=")));
    assert_eq!(error("\"a\" \"b\""), terminator_expected(Token::String("b".to_owned())));
}

#[test]
fn semicolons_that_end_nothing_change_nothing() {
    assert_eq!(run(";"), Ok(Program { items: vec![] }));
    assert_eq!(run(";;\n;\n"), Ok(Program { items: vec![] }));
    assert_eq!(run("class Abc; ; end"), run("class Abc; end"));
    assert_eq!(run(";class Abc;; class Def;;;end;;end;;"), run("class Abc; class Def; end; end"));
    assert_eq!(run("foo;;bar"), run("foo;bar"));
    assert_eq!(run("foo\n;bar;\n;"), run("foo\nbar"));
    assert_eq!(run("def f;; run;; \"a\";\n; end"), run("def f; run; \"a\"; end"));
    assert!(run("foo;;bar").is_ok());
}

#[test]
fn a_function_holds_its_statements() {
    assert_eq!(
        items("def run\n  setup\n  Engine::start \"fast\"\n  \"done\"\nend"),
        vec![function(
            "run",
            vec![],
            vec![
                Stmt::Expr(simple_call("setup", vec![])),
                Stmt::Expr(call(
                    vec![
                        constant(PathSeparator::Root, "Engine"),
                        identifier(PathSeparator::DoubleColon, "start"),
                    ],
                    vec![literal("fast")]
                )),
                Stmt::Expr(literal("done")),
            ]
        )]
    );
    assert_eq!(
        items("def run; setup; start; end"),
        vec![function(
            "run",
            vec![],
            vec![Stmt::Expr(simple_call("setup", vec![])), Stmt::Expr(simple_call("start", vec![]))]
        )]
    );
}

#[test]
fn a_function_may_stand_inside_a_class() {
    assert_eq!(
        items("class Abc\n  def run\n    go\n  end\nend"),
        vec![class(
            "Abc",
            vec![function("run", vec![], vec![Stmt::Expr(simple_call("go", vec![]))])]
        )]
    );
}

#[test]
fn a_declaration_is_no_statement() {
    assert_eq!(
        items("def run\n  class\nend"),
        vec![function("run", vec![], vec![Stmt::Expr(simple_call("class", vec![]))])]
    );
}

#[test]
fn a_function_may_declare_parameters() {
    assert_eq!(items("def abc(); end"), vec![function("abc", vec![], vec![])]);
    assert_eq!(
        items("def abc(a); end"),
        vec![function("abc", vec![parameter("a", None)], vec![])]
    );
    assert_eq!(
        items("def abc(a, b = \"x\", c = Config::default.size)\nend"),
        vec![function(
            "abc",
            vec![
                parameter("a", None),
                parameter("b", Some(literal("x"))),
                parameter(
                    "c",
                    Some(call(
                        vec![
                            constant(PathSeparator::Root, "Config"),
                            identifier(PathSeparator::DoubleColon, "default"),
                            identifier(PathSeparator::Dot, "size"),
                        ],
                        vec![]
                    ))
                ),
            ],
            vec![]
        )]
    );
}

#[test]
fn a_parameter_list_has_to_be_well_formed() {
    assert_eq!(
        error("def abc(a b); end"),
        unexpected(word("b"), vec![Token::Symbol(","), Token::Symbol(")")])
    );
    assert_eq!(
        error("def abc(a; end"),
        unexpected(Token::Symbol(";"), vec![Token::Symbol(","), Token::Symbol(")")])
    );
    assert_eq!(
        error("def abc(a"),
        unexpected(Token::EndOfFile, vec![Token::Symbol(","), Token::Symbol(")")])
    );
    assert_eq!(error("def abc(a, ); end"), word_expected(Token::Symbol(")")));
    assert_eq!(error("def abc(, a); end"), word_expected(Token::Symbol(",")));
    assert_eq!(error("def abc(\"a\"); end"), word_expected(Token::String("a".to_owned())));
    assert_eq!(error("def abc(a = ); end"), expression_expected(Token::Symbol(")")));
    assert_eq!(error("def abc(a = =); end"), expression_expected(Token::Symbol("=")));
    assert_eq!(error("def abc(a) b; end"), terminator_expected(word("b")));
}

#[test]
fn a_call_takes_arguments_up_to_the_terminator() {
    assert_eq!(
        items("puts \"a\" \"b\", \"c\""),
        vec![Item::Stmt(Stmt::Expr(simple_call(
            "puts",
            vec![literal("a"), literal("b"), literal("c")]
        )))]
    );
    assert_eq!(
        items("puts \"a\";"),
        vec![Item::Stmt(Stmt::Expr(simple_call("puts", vec![literal("a")])))]
    );
}

#[test]
fn an_argument_that_is_a_call_takes_the_arguments_after_it() {
    assert_eq!(
        items("puts format \"a\", \"b\""),
        vec![Item::Stmt(Stmt::Expr(simple_call(
            "puts",
            vec![simple_call("format", vec![literal("a"), literal("b")])]
        )))]
    );
}

#[test]
fn a_comma_stands_between_two_arguments_only() {
    assert_eq!(error("puts \"a\",\n"), expression_expected(Token::EndOfLine));
    assert_eq!(error("puts \"a\","), expression_expected(Token::EndOfFile));
    assert_eq!(error("puts \"a\",, \"b\""), expression_expected(Token::Symbol(",")));
    assert_eq!(error("puts , \"a\""), terminator_expected(Token::Symbol(",")));
}

#[test]
fn arguments_may_be_calls() {
    assert_eq!(
        items("puts a, b"),
        vec![Item::Stmt(Stmt::Expr(simple_call(
            "puts",
            vec![simple_call("a", vec![]), simple_call("b", vec![])]
        )))]
    );
    assert_eq!(
        items("puts A::b, \"c\", d.e\nf"),
        vec![
            Item::Stmt(Stmt::Expr(simple_call(
                "puts",
                vec![
                    call(
                        vec![
                            constant(PathSeparator::Root, "A"),
                            identifier(PathSeparator::DoubleColon, "b"),
                        ],
                        vec![]
                    ),
                    literal("c"),
                    call(
                        vec![
                            identifier(PathSeparator::Root, "d"),
                            identifier(PathSeparator::Dot, "e"),
                        ],
                        vec![]
                    ),
                ]
            ))),
            Item::Stmt(Stmt::Expr(simple_call("f", vec![]))),
        ]
    );
    assert_eq!(
        items("puts a b, c"),
        vec![Item::Stmt(Stmt::Expr(simple_call(
            "puts",
            vec![simple_call("a", vec![simple_call("b", vec![]), simple_call("c", vec![])])]
        )))]
    );
}

#[test]
fn what_is_no_expression_ends_the_arguments() {
    assert_eq!(error("foo )"), terminator_expected(Token::Symbol(")")));
    assert_eq!(error("foo = \"a\""), terminator_expected(Token::Symbol("=")));
    assert_eq!(error("foo \"a\" ("), terminator_expected(Token::Symbol("(")));
    assert_eq!(error("def f; foo \"a\" ); end"), terminator_expected(Token::Symbol(")")));
}

#[test]
fn one_terminator_follows_a_statement() {
    let two = vec![
        Item::Stmt(Stmt::Expr(simple_call("foo", vec![]))),
        Item::Stmt(Stmt::Expr(simple_call("bar", vec![]))),
    ];
    assert_eq!(items("foo\nbar"), two);
    assert_eq!(items("foo;bar"), two);
    assert_eq!(items("foo\nbar\n"), two);
    assert_eq!(items("foo;\nbar;\n"), two);
    assert_eq!(items("foo\n\n\nbar"), two);
    assert_eq!(
        items("setup\nclass Abc\n  run\n  stop\nend\nfinish"),
        vec![
            Item::Stmt(Stmt::Expr(simple_call("setup", vec![]))),
            class(
                "Abc",
                vec![
                    Item::Stmt(Stmt::Expr(simple_call("run", vec![]))),
                    Item::Stmt(Stmt::Expr(simple_call("stop", vec![]))),
                ]
            ),
            Item::Stmt(Stmt::Expr(simple_call("finish", vec![]))),
        ]
    );
}

#[test]
fn the_arguments_of_a_call_end_at_the_terminator() {
    assert_eq!(
        items("puts \"a\"\nputs \"b\"\n"),
        vec![
            Item::Stmt(Stmt::Expr(simple_call("puts", vec![literal("a")]))),
            Item::Stmt(Stmt::Expr(simple_call("puts", vec![literal("b")]))),
        ]
    );
    assert_eq!(
        items("puts format \"a\"\nbar\n"),
        vec![
            Item::Stmt(Stmt::Expr(simple_call(
                "puts",
                vec![simple_call("format", vec![literal("a")])]
            ))),
            Item::Stmt(Stmt::Expr(simple_call("bar", vec![]))),
        ]
    );
    assert_eq!(
        items("puts \"a\", format; bar"),
        vec![
            Item::Stmt(Stmt::Expr(simple_call(
                "puts",
                vec![literal("a"), simple_call("format", vec![])]
            ))),
            Item::Stmt(Stmt::Expr(simple_call("bar", vec![]))),
        ]
    );
}

#[test]
fn one_terminator_follows_a_statement_in_a_function() {
    assert_eq!(
        items("def f; run ; \"a\" ; end"),
        vec![function(
            "f",
            vec![],
            vec![Stmt::Expr(simple_call("run", vec![])), Stmt::Expr(literal("a"))]
        )]
    );
    assert_eq!(
        items("def f\n  puts g \"a\"\n\n  \"b\"\n  h\nend"),
        vec![function(
            "f",
            vec![],
            vec![
                Stmt::Expr(simple_call("puts", vec![simple_call("g", vec![literal("a")])])),
                Stmt::Expr(literal("b")),
                Stmt::Expr(simple_call("h", vec![])),
            ]
        )]
    );
    assert_eq!(
        error("def f; \"a\" \"b\"; end"),
        terminator_expected(Token::String("b".to_owned()))
    );
    assert_eq!(error("def f; \"a\" end"), terminator_expected(word("end")));
}

#[test]
fn a_lexical_error_ends_the_parse() {
    assert_eq!(
        error("class Abc\n  @\nend"),
        Error::LexError(LexError { kind: LexErrorKind::UnrecognizedCharacter('@'), position: 12 })
    );
    assert_eq!(
        error("def abc\n  puts \"abc\nend"),
        Error::LexError(LexError { kind: LexErrorKind::UnterminatedString, position: 15 })
    );
    assert_eq!(
        error("class Abc; end; 7"),
        Error::LexError(LexError { kind: LexErrorKind::UnrecognizedCharacter('7'), position: 16 })
    );
    assert_eq!(
        error("a.b:c"),
        Error::LexError(LexError { kind: LexErrorKind::UnrecognizedCharacter(':'), position: 3 })
    );
}

#[test]
fn the_first_error_is_the_one_reported() {
    assert_eq!(error("class ; @"), word_expected(Token::Symbol(";")));
    assert_eq!(
        error("@ class ;"),
        Error::LexError(LexError { kind: LexErrorKind::UnrecognizedCharacter('@'), position: 0 })
    );
}

#[test]
fn parsing_twice_gives_the_same_tree() {
    let input = "module A\n  class B\n    def c(d = \"e\")\n      F::g.h \"i\", \"j\"\n    end\n  end\nend\n";
    let first = run(input);
    assert!(first.is_ok());
    assert_eq!(first, run(input));
    let broken = "module A\n  class B\n    def c(d = \"e\"\n";
    let first = run(broken);
    assert!(first.is_err());
    assert_eq!(first, run(broken));
}

#[test]
fn an_input_failure_is_an_error_too() {
    let error = Error::Io { message: "no such file".to_owned() };
    assert_eq!(error, Error::Io { message: "no such file".to_owned() });
    assert_ne!(error, Error::Io { message: "permission denied".to_owned() });
}
