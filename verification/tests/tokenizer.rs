use rubic::parse::{LexError, LexErrorKind, Token, Tokenizer};

fn tokens(s: &str) -> Vec<Token> {
    Tokenizer::new(s.chars().collect()).collect().expect("failed to tokenize")
}

fn lex_error(s: &str) -> LexError {
    Tokenizer::new(s.chars().collect()).collect().expect_err("tokenized")
}

fn word(text: &str) -> Token {
    Token::Word(text.to_owned())
}

fn string(text: &str) -> Token {
    Token::String(text.to_owned())
}

#[test]
fn empty_input_has_no_tokens() {
    assert_eq!(tokens(""), vec![]);
    assert_eq!(tokens("   \t "), vec![]);
}

#[test]
fn end_of_file_repeats_for_ever() {
    let mut tokenizer = Tokenizer::new("a".chars().collect());
    assert_eq!(tokenizer.next(), Ok(word("a")));
    assert_eq!(tokenizer.next(), Ok(Token::EndOfFile));
    assert_eq!(tokenizer.next(), Ok(Token::EndOfFile));
    assert_eq!(tokenizer.next(), Ok(Token::EndOfFile));
}

#[test]
fn tokenizes_a_class() {
    assert_eq!(
        tokens("class Abc\nend"),
        vec![word("class"), word("Abc"), Token::EndOfLine, word("end")]
    );
}

#[test]
fn keywords_are_plain_words() {
    assert_eq!(
        tokens("class module def end"),
        vec![word("class"), word("module"), word("def"), word("end")]
    );
}

#[test]
fn tokenizes_a_path() {
    assert_eq!(
        tokens("Abc::def.obt"),
        vec![word("Abc"), Token::Symbol("::"), word("def"), Token::Symbol("."), word("obt")]
    );
}

#[test]
fn tokenizes_every_symbol() {
    assert_eq!(
        tokens(":: . ; ( ) , ="),
        vec![
            Token::Symbol("::"),
            Token::Symbol("."),
            Token::Symbol(";"),
            Token::Symbol("("),
            Token::Symbol(")"),
            Token::Symbol(","),
            Token::Symbol("="),
        ]
    );
}

#[test]
fn symbols_need_no_space_around_them() {
    assert_eq!(
        tokens("f(a,b=c);"),
        vec![
            word("f"),
            Token::Symbol("("),
            word("a"),
            Token::Symbol(","),
            word("b"),
            Token::Symbol("="),
            word("c"),
            Token::Symbol(")"),
            Token::Symbol(";"),
        ]
    );
}

#[test]
fn double_colon_is_preferred_to_what_is_shorter() {
    assert_eq!(tokens("a::b"), vec![word("a"), Token::Symbol("::"), word("b")]);
    assert_eq!(
        tokens("a::::b"),
        vec![word("a"), Token::Symbol("::"), Token::Symbol("::"), word("b")]
    );
}

#[test]
fn a_single_colon_is_not_recognized() {
    assert_eq!(
        lex_error("a:b"),
        LexError { kind: LexErrorKind::UnrecognizedCharacter(':'), position: 1 }
    );
    assert_eq!(
        lex_error("a:::b"),
        LexError { kind: LexErrorKind::UnrecognizedCharacter(':'), position: 3 }
    );
}

#[test]
fn words_hold_letters_digits_and_underscores() {
    assert_eq!(tokens("a1_b2 _x __ x_"), vec![word("a1_b2"), word("_x"), word("__"), word("x_")]);
}

#[test]
fn a_word_does_not_start_with_a_digit() {
    assert_eq!(
        lex_error("1a"),
        LexError { kind: LexErrorKind::UnrecognizedCharacter('1'), position: 0 }
    );
    assert_eq!(
        lex_error("ab 42"),
        LexError { kind: LexErrorKind::UnrecognizedCharacter('4'), position: 3 }
    );
}

#[test]
fn words_may_hold_letters_of_any_script() {
    assert_eq!(tokens("héllo Ünï 京都"), vec![word("héllo"), word("Ünï"), word("京都")]);
}

#[test]
fn what_is_no_letter_starts_no_word() {
    assert_eq!(
        lex_error("a → b"),
        LexError { kind: LexErrorKind::UnrecognizedCharacter('→'), position: 2 }
    );
    assert_eq!(
        lex_error("@x"),
        LexError { kind: LexErrorKind::UnrecognizedCharacter('@'), position: 0 }
    );
}

#[test]
fn a_line_break_is_a_token() {
    assert_eq!(tokens("a\nb"), vec![word("a"), Token::EndOfLine, word("b")]);
    assert_eq!(tokens("\na\n"), vec![Token::EndOfLine, word("a"), Token::EndOfLine]);
}

#[test]
fn a_run_of_line_breaks_is_one_token() {
    assert_eq!(tokens("a\n\n\nb"), vec![word("a"), Token::EndOfLine, word("b")]);
    assert_eq!(tokens("a\n\n\n\n\n\n"), vec![word("a"), Token::EndOfLine]);
}

#[test]
fn blank_space_and_comments_do_not_break_a_run_of_line_breaks() {
    assert_eq!(tokens("a\n  \n\t\n b"), vec![word("a"), Token::EndOfLine, word("b")]);
    assert_eq!(tokens("a\n# one\n  # two\n\nb"), vec![word("a"), Token::EndOfLine, word("b")]);
}

#[test]
fn carriage_returns_are_blank_space() {
    assert_eq!(tokens("a\r\nb\r\n"), vec![word("a"), Token::EndOfLine, word("b"), Token::EndOfLine]);
}

#[test]
fn a_comment_runs_to_the_end_of_its_line() {
    assert_eq!(tokens("a # b c\nd"), vec![word("a"), Token::EndOfLine, word("d")]);
    assert_eq!(tokens("a # b c"), vec![word("a")]);
    assert_eq!(tokens("# only"), vec![]);
    assert_eq!(tokens("a#b"), vec![word("a")]);
}

#[test]
fn a_string_literal_gives_its_text() {
    assert_eq!(tokens("\"hi there\""), vec![string("hi there")]);
    assert_eq!(tokens("'hi there'"), vec![string("hi there")]);
    assert_eq!(tokens("\"\""), vec![string("")]);
    assert_eq!(tokens("x \"a\" 'b' y"), vec![word("x"), string("a"), string("b"), word("y")]);
}

#[test]
fn a_string_literal_ends_at_a_quote_of_its_own_kind() {
    assert_eq!(tokens("\"it's\""), vec![string("it's")]);
    assert_eq!(tokens("'say \"hi\"'"), vec![string("say \"hi\"")]);
}

#[test]
fn a_string_literal_may_hold_line_breaks_and_hashes() {
    assert_eq!(tokens("\"a\nb\""), vec![string("a\nb")]);
    assert_eq!(tokens("\"a # b\" c"), vec![string("a # b"), word("c")]);
}

#[test]
fn escapes_are_decoded() {
    assert_eq!(tokens("\"a\\nb\""), vec![string("a\nb")]);
    assert_eq!(tokens("\"a\\tb\""), vec![string("a\tb")]);
    assert_eq!(tokens("\"a\\rb\""), vec![string("a\rb")]);
    assert_eq!(tokens("\"a\\0b\""), vec![string("a\0b")]);
    assert_eq!(tokens("\"a\\\\b\""), vec![string("a\\b")]);
    assert_eq!(tokens("\"a\\\"b\""), vec![string("a\"b")]);
    assert_eq!(tokens("'a\\'b'"), vec![string("a'b")]);
    assert_eq!(tokens("\"a\\qb\""), vec![string("aqb")]);
}

#[test]
fn a_string_literal_has_to_end() {
    assert_eq!(
        lex_error("\"abc"),
        LexError { kind: LexErrorKind::UnterminatedString, position: 0 }
    );
    assert_eq!(
        lex_error("x 'abc\" y"),
        LexError { kind: LexErrorKind::UnterminatedString, position: 2 }
    );
    assert_eq!(
        lex_error("\"abc\\"),
        LexError { kind: LexErrorKind::UnterminatedString, position: 0 }
    );
    assert_eq!(
        lex_error("\"abc\\\""),
        LexError { kind: LexErrorKind::UnterminatedString, position: 0 }
    );
}

#[test]
fn a_lexical_error_comes_after_the_tokens_before_it() {
    let mut tokenizer = Tokenizer::new("a ; @ b".chars().collect());
    assert_eq!(tokenizer.next(), Ok(word("a")));
    assert_eq!(tokenizer.next(), Ok(Token::Symbol(";")));
    let error = LexError { kind: LexErrorKind::UnrecognizedCharacter('@'), position: 4 };
    assert_eq!(tokenizer.next(), Err(error));
    assert_eq!(tokenizer.next(), Err(error));
}

#[test]
fn tokenizing_twice_gives_the_same_tokens() {
    let input = "class Abc; def f(a = \"x\"); A::b.c 'y'; end; end";
    assert_eq!(tokens(input), tokens(input));
}

#[test]
fn terminators_are_line_breaks_semicolons_and_the_end() {
    assert!(Token::EndOfLine.is_terminator());
    assert!(Token::Symbol(";").is_terminator());
    assert!(Token::EndOfFile.is_terminator());
    assert!(!Token::Symbol(",").is_terminator());
    assert!(!Token::Symbol("::").is_terminator());
    assert!(!word(";").is_terminator());
    assert!(!string(";").is_terminator());
}

#[test]
fn line_breaks_and_semicolons_stand_in_the_input() {
    assert!(Token::EndOfLine.is_break());
    assert!(Token::Symbol(";").is_break());
    assert!(!Token::EndOfFile.is_break());
    assert!(!Token::Symbol(",").is_break());
    assert!(!word(";").is_break());
}

#[test]
fn keyword_tokens() {
    assert_eq!(Token::class(), word("class"));
    assert_eq!(Token::module(), word("module"));
    assert_eq!(Token::def(), word("def"));
    assert_eq!(Token::end(), word("end"));
    assert_eq!(Token::left_paren(), Token::Symbol("("));
}

#[test]
fn tokens_compare_by_kind_and_text() {
    assert!(word("a").same_as(&word("a")));
    assert!(!word("a").same_as(&word("b")));
    assert!(!word("a").same_as(&string("a")));
    assert!(!word(";").same_as(&Token::Symbol(";")));
    assert!(Token::Symbol(";").same_as(&Token::Symbol(";")));
    assert!(Token::EndOfFile.same_as(&Token::EndOfFile));
    assert!(!Token::EndOfFile.same_as(&Token::EndOfLine));
    assert!(word("end").is_word("end"));
    assert!(!word("end").is_word("en"));
    assert!(!string("end").is_word("end"));
    assert!(Token::Symbol("(").is_symbol("("));
    assert!(!Token::Symbol("(").is_symbol(")"));
    assert_eq!(word("a").clone(), word("a"));
    assert_eq!(Token::Symbol("::").clone(), Token::Symbol("::"));
}
