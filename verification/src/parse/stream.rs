//! The mathematical model of what a tokenizer yields.

use super::error::{LexError, LexFailure};
use super::token::{Token, TokenModel};
use vstd::prelude::*;

verus! {

/// What one pull on a tokenizer gives: a token, or the lexical error that
/// stands in its way.
pub type Lexeme = Result<TokenModel, LexFailure>;

/// The value of what one pull on a tokenizer gave.
pub open spec fn lexeme_view(lexeme: Result<Token, LexError>) -> Lexeme {
    match lexeme {
        Ok(token) => Ok(token@),
        Err(error) => Err(error@),
    }
}

/// Everything that a tokenizer will yield from some point on: the tokens
/// that come first, and what then repeats for ever, which is `EndOfFile`, or,
/// where the input cannot be read further, a lexical error.
pub struct TokenStream {
    /// The tokens before the end of the input or the first lexical error.
    pub tokens: Seq<TokenModel>,
    /// The error that ends the stream, if one does.
    pub failure: Option<LexFailure>,
}

impl TokenStream {
    /// The stream of an input that is used up.
    pub open spec fn exhausted() -> TokenStream {
        TokenStream { tokens: Seq::empty(), failure: None }
    }

    /// The stream of an input that cannot be read further.
    pub open spec fn failed(failure: LexFailure) -> TokenStream {
        TokenStream { tokens: Seq::empty(), failure: Some(failure) }
    }

    /// The stream that yields `token` and then goes on as `rest`.
    pub open spec fn cons(token: TokenModel, rest: TokenStream) -> TokenStream {
        TokenStream { tokens: seq![token] + rest.tokens, failure: rest.failure }
    }

    /// The stream that yields `tokens`, and then `EndOfFile` for ever.
    pub open spec fn of(tokens: Seq<TokenModel>) -> TokenStream {
        TokenStream { tokens, failure: None }
    }

    /// The number of tokens before the stream starts to repeat.
    pub open spec fn len(self) -> nat {
        self.tokens.len()
    }

    /// What the next pull gives.
    pub open spec fn head(self) -> Lexeme {
        if self.tokens.len() > 0 {
            Ok(self.tokens[0])
        } else {
            match self.failure {
                Some(failure) => Err(failure),
                None => Ok(TokenModel::EndOfFile),
            }
        }
    }

    /// The stream after one pull.
    pub open spec fn tail(self) -> TokenStream {
        if self.tokens.len() > 0 {
            TokenStream { tokens: self.tokens.drop_first(), failure: self.failure }
        } else {
            self
        }
    }

    /// The stream whose next pull gave `lexeme` and left `rest`, for a
    /// tokenizer that reports the end of its input, and a lexical error,
    /// without moving.
    pub open spec fn unread(lexeme: Lexeme, rest: TokenStream) -> TokenStream {
        match lexeme {
            Ok(TokenModel::EndOfFile) => TokenStream::exhausted(),
            Ok(token) => TokenStream::cons(token, rest),
            Err(failure) => TokenStream::failed(failure),
        }
    }
}

/// After a token other than `EndOfFile` is pulled from `unread(Ok(token),
/// rest)`, the stream is `rest`.
pub proof fn lemma_unread_tail(token: TokenModel, rest: TokenStream)
    requires
        token != TokenModel::EndOfFile,
    ensures
        TokenStream::unread(Ok(token), rest).tail() == rest,
        TokenStream::unread(Ok(token), rest).len() == rest.len() + 1,
{
    assert(TokenStream::unread(Ok(token), rest).tail().tokens =~= rest.tokens);
}

} // verus!
