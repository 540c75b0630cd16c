//! From characters to tokens, and from tokens to a syntax tree.

pub mod error;
pub mod expect;
pub mod grammar;
pub mod lexical;
pub mod lookahead;
pub mod parser;
pub mod stream;
pub mod token;
pub mod tokenizer;

pub use self::error::{Error, LexError, LexErrorKind};
pub use self::lookahead::Lookahead;
pub use self::parser::Parser;
pub use self::token::Token;
pub use self::tokenizer::Tokenizer;
