use rubic::parse::expect::{something, terminator, word};
use rubic::parse::{Error, Token};

#[test]
fn something_gives_the_token() {
    assert_eq!(something(Some(Token::EndOfLine)), Ok(Token::EndOfLine));
    assert_eq!(something(Some(Token::Word("a".to_owned()))), Ok(Token::Word("a".to_owned())));
}

#[test]
fn word_gives_the_text_of_a_word() {
    assert_eq!(word(Some(Token::Word("abc".to_owned()))), Ok("abc".to_owned()));
    assert_eq!(word(Some(Token::Word("class".to_owned()))), Ok("class".to_owned()));
}

#[test]
fn word_refuses_what_is_no_word() {
    for token in [
        Token::String("abc".to_owned()),
        Token::Symbol(";"),
        Token::EndOfLine,
        Token::EndOfFile,
    ] {
        assert_eq!(
            word(Some(token.clone())),
            Err(Error::UnexpectedToken {
                found: token,
                expected: vec![Token::Word("word".to_owned())],
            })
        );
    }
}

#[test]
fn terminator_takes_what_ends_a_statement() {
    assert_eq!(terminator(None), Ok(()));
    assert_eq!(terminator(Some(Token::EndOfLine)), Ok(()));
    assert_eq!(terminator(Some(Token::Symbol(";"))), Ok(()));
    assert_eq!(terminator(Some(Token::EndOfFile)), Ok(()));
}

#[test]
fn terminator_refuses_anything_else() {
    for token in [
        Token::Word("end".to_owned()),
        Token::String(";".to_owned()),
        Token::Symbol(","),
        Token::Symbol("."),
    ] {
        assert_eq!(
            terminator(Some(token.clone())),
            Err(Error::UnexpectedToken {
                found: token,
                expected: vec![Token::Word("terminator".to_owned())],
            })
        );
    }
}
