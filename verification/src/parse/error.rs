//! What can go wrong while reading a program.

use super::token::{token_views, Token, TokenModel};
use vstd::prelude::*;
use vstd::std_specs::convert::FromSpecImpl;

verus! {

/// Why the tokenizer could not produce a token.
#[derive(Copy, Clone, Debug, PartialEq, Eq)]
pub enum LexErrorKind {
    /// A character that starts no token.
    UnrecognizedCharacter(char),
    /// A string literal whose closing quote is missing.
    UnterminatedString,
}

/// A lexical error: what is wrong, and where.
#[derive(Copy, Clone, Debug, PartialEq, Eq)]
pub struct LexError {
    pub kind: LexErrorKind,
    /// The index, in the input, of the offending character; for an
    /// unterminated string, of its opening quote.
    pub position: usize,
}

/// An error of the front end.
#[derive(Debug, PartialEq, Eq)]
pub enum Error {
    /// A token that the grammar does not allow where it stands. `expected`
    /// lists what would have been accepted: a concrete token, or a word that
    /// describes a class of tokens.
    UnexpectedToken { found: Token, expected: Vec<Token> },
    /// The tokenizer could not produce a token.
    LexError(LexError),
    /// A failure of the caller's input source, carried as its message.
    Io { message: String },
}

/// The mathematical value of a [`LexError`].
pub struct LexFailure {
    pub kind: LexErrorKind,
    pub position: int,
}

/// The mathematical value of an [`Error`].
pub enum ErrorModel {
    UnexpectedToken { found: TokenModel, expected: Seq<TokenModel> },
    LexError(LexFailure),
    Io { message: Seq<char> },
}

impl View for LexError {
    type V = LexFailure;

    open spec fn view(&self) -> LexFailure {
        LexFailure { kind: self.kind, position: self.position as int }
    }
}

impl View for Error {
    type V = ErrorModel;

    open spec fn view(&self) -> ErrorModel {
        match self {
            Error::UnexpectedToken { found, expected } => ErrorModel::UnexpectedToken {
                found: found@,
                expected: token_views(expected@),
            },
            Error::LexError(error) => ErrorModel::LexError(error@),
            Error::Io { message } => ErrorModel::Io { message: message@ },
        }
    }
}

impl ErrorModel {
    /// The error for a token `found` where some word was needed.
    pub open spec fn word_expected(found: TokenModel) -> ErrorModel {
        ErrorModel::UnexpectedToken { found, expected: seq![TokenModel::Word("word"@)] }
    }

    /// The error for a token `found` where a terminator was needed.
    pub open spec fn terminator_expected(found: TokenModel) -> ErrorModel {
        ErrorModel::UnexpectedToken { found, expected: seq![TokenModel::Word("terminator"@)] }
    }

    /// The error for a token `found` where an expression had to start.
    pub open spec fn expression_expected(found: TokenModel) -> ErrorModel {
        ErrorModel::UnexpectedToken {
            found,
            expected: seq![TokenModel::Word("word"@), TokenModel::String("string"@)],
        }
    }

    /// The error for a token `found` where a parameter list had to go on or end.
    pub open spec fn parameter_end_expected(found: TokenModel) -> ErrorModel {
        ErrorModel::UnexpectedToken {
            found,
            expected: seq![TokenModel::Symbol(","@), TokenModel::Symbol(")"@)],
        }
    }
}

impl Error {
    /// The error for a token `found` where some word was needed.
    pub fn word_expected(found: Token) -> (error: Error)
        ensures
            error@ == ErrorModel::word_expected(found@),
    {
        let expected = vec![Token::Word("word".to_owned())];
        assert(token_views(expected@) =~= seq![TokenModel::Word("word"@)]);
        Error::UnexpectedToken { found, expected }
    }

    /// The error for a token `found` where a terminator was needed.
    pub fn terminator_expected(found: Token) -> (error: Error)
        ensures
            error@ == ErrorModel::terminator_expected(found@),
    {
        let expected = vec![Token::Word("terminator".to_owned())];
        assert(token_views(expected@) =~= seq![TokenModel::Word("terminator"@)]);
        Error::UnexpectedToken { found, expected }
    }

    /// The error for a token `found` where an expression had to start.
    pub fn expression_expected(found: Token) -> (error: Error)
        ensures
            error@ == ErrorModel::expression_expected(found@),
    {
        let expected = vec![Token::Word("word".to_owned()), Token::String("string".to_owned())];
        assert(token_views(expected@) =~= seq![
            TokenModel::Word("word"@),
            TokenModel::String("string"@),
        ]);
        Error::UnexpectedToken { found, expected }
    }

    /// The error for a token `found` where a parameter list had to go on or end.
    pub fn parameter_end_expected(found: Token) -> (error: Error)
        ensures
            error@ == ErrorModel::parameter_end_expected(found@),
    {
        let expected = vec![Token::Symbol(","), Token::Symbol(")")];
        assert(token_views(expected@) =~= seq![
            TokenModel::Symbol(","@),
            TokenModel::Symbol(")"@),
        ]);
        Error::UnexpectedToken { found, expected }
    }
}

impl From<LexError> for Error {
    fn from(error: LexError) -> (lifted: Error) {
        Error::LexError(error)
    }
}

impl FromSpecImpl<LexError> for Error {
    open spec fn obeys_from_spec() -> bool {
        true
    }

    open spec fn from_spec(error: LexError) -> Error {
        Error::LexError(error)
    }
}

impl Clone for Error {
    fn clone(&self) -> (copy: Error)
        ensures
            copy@ == self@,
    {
        match self {
            Error::UnexpectedToken { found, expected } => {
                let mut list: Vec<Token> = Vec::new();
                let mut i: usize = 0;
                while i < expected.len()
                    invariant
                        i <= expected.len(),
                        list.len() == i,
                        forall|j: int| 0 <= j < i ==> list[j] == expected[j],
                    decreases expected.len() - i,
                {
                    list.push(expected[i].clone());
                    i += 1;
                }
                assert(token_views(list@) =~= token_views(expected@));
                Error::UnexpectedToken { found: found.clone(), expected: list }
            },
            Error::LexError(error) => Error::LexError(*error),
            Error::Io { message } => Error::Io { message: message.clone() },
        }
    }
}

} // verus!
