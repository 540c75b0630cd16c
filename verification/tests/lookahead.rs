use rubic::parse::{LexError, LexErrorKind, Lookahead, Token, Tokenizer};

fn lookahead(s: &str) -> Lookahead {
    Lookahead::new(Tokenizer::new(s.chars().collect()))
}

fn word(text: &str) -> Token {
    Token::Word(text.to_owned())
}

#[test]
fn peek_does_not_read() {
    let mut tokens = lookahead("a b");
    assert_eq!(tokens.peek(), Ok(word("a")));
    assert_eq!(tokens.peek(), Ok(word("a")));
    assert_eq!(tokens.peek(), Ok(word("a")));
    assert_eq!(tokens.next(), Ok(word("a")));
    assert_eq!(tokens.peek(), Ok(word("b")));
    assert_eq!(tokens.next(), Ok(word("b")));
}

#[test]
fn next_reads_with_or_without_a_peek_before_it() {
    let mut tokens = lookahead("a ; b\nc");
    assert_eq!(tokens.next(), Ok(word("a")));
    assert_eq!(tokens.peek(), Ok(Token::Symbol(";")));
    assert_eq!(tokens.next(), Ok(Token::Symbol(";")));
    assert_eq!(tokens.next(), Ok(word("b")));
    assert_eq!(tokens.next(), Ok(Token::EndOfLine));
    assert_eq!(tokens.peek(), Ok(word("c")));
    assert_eq!(tokens.next(), Ok(word("c")));
    assert_eq!(tokens.next(), Ok(Token::EndOfFile));
}

#[test]
fn the_end_of_the_input_never_ends() {
    let mut tokens = lookahead("a");
    assert_eq!(tokens.next(), Ok(word("a")));
    assert_eq!(tokens.peek(), Ok(Token::EndOfFile));
    assert_eq!(tokens.next(), Ok(Token::EndOfFile));
    assert_eq!(tokens.next(), Ok(Token::EndOfFile));
    assert_eq!(tokens.peek(), Ok(Token::EndOfFile));
    assert_eq!(tokens.next(), Ok(Token::EndOfFile));

    let mut empty = lookahead("");
    assert_eq!(empty.next(), Ok(Token::EndOfFile));
    assert_eq!(empty.peek(), Ok(Token::EndOfFile));
    assert_eq!(empty.next(), Ok(Token::EndOfFile));
}

#[test]
fn a_lexical_error_stays() {
    let error = LexError { kind: LexErrorKind::UnrecognizedCharacter('?'), position: 2 };
    let mut tokens = lookahead("a ? b");
    assert_eq!(tokens.next(), Ok(word("a")));
    assert_eq!(tokens.peek(), Err(error));
    assert_eq!(tokens.next(), Err(error));
    assert_eq!(tokens.next(), Err(error));
    assert_eq!(tokens.peek(), Err(error));

    let mut tokens = lookahead("a ? b");
    assert_eq!(tokens.next(), Ok(word("a")));
    assert_eq!(tokens.next(), Err(error));
    assert_eq!(tokens.peek(), Err(error));
}

#[test]
fn a_lookahead_yields_what_its_tokenizer_yields() {
    let input = "class Abc; def f(a = \"x\"); A::b.c 'y'; end; end";
    let expected = Tokenizer::new(input.chars().collect()).collect().expect("failed to tokenize");
    let mut tokens = lookahead(input);
    for token in expected {
        assert_eq!(tokens.peek(), Ok(token.clone()));
        assert_eq!(tokens.next(), Ok(token));
    }
    assert_eq!(tokens.next(), Ok(Token::EndOfFile));
}
