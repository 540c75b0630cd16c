//! One token of lookahead: a buffer in front of the tokenizer.

use super::error::LexError;
use super::stream::{lemma_unread_tail, lexeme_view, TokenStream};
use super::token::Token;
use super::tokenizer::Tokenizer;
use vstd::prelude::*;

verus! {

/// A tokenizer behind a buffer of one token: the next token can be looked at
/// before it is read.
///
/// Its value is the stream of tokens that it has yet to yield; what is in
/// the buffer has not been yielded.
pub struct Lookahead {
    tokenizer: Tokenizer,
    peeked: Option<Result<Token, LexError>>,
}

impl View for Lookahead {
    type V = TokenStream;

    closed spec fn view(&self) -> TokenStream {
        match self.peeked {
            Some(lexeme) => TokenStream::unread(lexeme_view(lexeme), self.tokenizer@),
            None => self.tokenizer@,
        }
    }
}

impl Lookahead {
    /// Puts an empty buffer in front of `tokenizer`.
    pub fn new(tokenizer: Tokenizer) -> (tokens: Lookahead)
        ensures
            tokens@ == tokenizer@,
    {
        Lookahead { tokenizer, peeked: None }
    }

    /// Looks at the next token without reading it.
    pub fn peek(&mut self) -> (lexeme: Result<Token, LexError>)
        ensures
            lexeme_view(lexeme) == old(self)@.head(),
            final(self)@ == old(self)@,
    {
        let lexeme = match self.peeked.take() {
            Some(lexeme) => lexeme,
            None => self.tokenizer.next(),
        };
        let copy = match &lexeme {
            Ok(token) => Ok(token.clone()),
            Err(error) => Err(*error),
        };
        self.peeked = Some(lexeme);
        copy
    }

    /// Reads the next token.
    ///
    /// The end of the input, and a lexical error, stay in the buffer: they
    /// are what every later call yields.
    pub fn next(&mut self) -> (lexeme: Result<Token, LexError>)
        ensures
            lexeme_view(lexeme) == old(self)@.head(),
            final(self)@ == old(self)@.tail(),
    {
        match self.peeked.take() {
            None => self.tokenizer.next(),
            Some(Ok(Token::EndOfFile)) => {
                self.peeked = Some(Ok(Token::EndOfFile));
                Ok(Token::EndOfFile)
            },
            Some(Err(error)) => {
                self.peeked = Some(Err(error));
                Err(error)
            },
            Some(Ok(token)) => {
                proof {
                    lemma_unread_tail(token@, self.tokenizer@);
                }
                Ok(token)
            },
        }
    }
}

} // verus!
