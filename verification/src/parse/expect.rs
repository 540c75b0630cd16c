//! Utilities for reading tokens.

use super::error::{Error, ErrorModel};
use super::token::Token;
use vstd::prelude::*;

verus! {

/// Some token, whatever it is.
pub fn something(token: Option<Token>) -> (result: Result<Token, Error>)
    requires
        token is Some,
    ensures
        result == Ok::<Token, Error>(token.unwrap()),
{
    match token {
        Some(token) => Ok(token),
        None => unreached(),
    }
}

/// A word: gives its text, and refuses any other token.
pub fn word(token: Option<Token>) -> (result: Result<String, Error>)
    requires
        token is Some,
    ensures
        match token.unwrap() {
            Token::Word(text) => result == Ok::<String, Error>(text),
            other => result matches Err(error) && error@ == ErrorModel::word_expected(other@),
        },
{
    match something(token) {
        Ok(Token::Word(text)) => Ok(text),
        Ok(other) => Err(Error::word_expected(other)),
        Err(error) => Err(error),
    }
}

/// A terminating line break or semicolon. The end of the input, and the
/// absence of a token, end a statement too.
pub fn terminator(token: Option<Token>) -> (result: Result<(), Error>)
    ensures
        match token {
            None => result is Ok,
            Some(token) => if token@.is_terminator() {
                result is Ok
            } else {
                result matches Err(error) && error@ == ErrorModel::terminator_expected(token@)
            },
        },
{
    match token {
        None => Ok(()),
        Some(token) => if token.is_terminator() {
            Ok(())
        } else {
            Err(Error::terminator_expected(token))
        },
    }
}

} // verus!
