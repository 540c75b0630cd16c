//! The token model: what the tokenizer hands to the parser.

use vstd::prelude::*;

verus! {

/// One lexical unit.
///
/// Whether a `Word` is a keyword is decided by the parser, from where the word stands.
#[derive(Debug, PartialEq, Eq)]
pub enum Token {
    /// An identifier or a bare keyword.
    Word(String),
    /// The decoded contents of a quoted literal.
    String(String),
    /// Punctuation, such as `.`, `::`, `;` or `(`.
    Symbol(&'static str),
    /// A statement terminator that a line break produced.
    EndOfLine,
    /// The end of the input; it repeats for ever once the input is used up.
    EndOfFile,
}

/// The mathematical value of a [`Token`]: its texts are sequences of characters.
pub enum TokenModel {
    Word(Seq<char>),
    String(Seq<char>),
    Symbol(Seq<char>),
    EndOfLine,
    EndOfFile,
}

impl View for Token {
    type V = TokenModel;

    open spec fn view(&self) -> TokenModel {
        match self {
            Token::Word(text) => TokenModel::Word(text@),
            Token::String(text) => TokenModel::String(text@),
            Token::Symbol(text) => TokenModel::Symbol(text@),
            Token::EndOfLine => TokenModel::EndOfLine,
            Token::EndOfFile => TokenModel::EndOfFile,
        }
    }
}

impl Clone for Token {
    fn clone(&self) -> (copy: Token)
        ensures
            copy == *self,
    {
        match self {
            Token::Word(text) => Token::Word(text.clone()),
            Token::String(text) => Token::String(text.clone()),
            Token::Symbol(text) => Token::Symbol(*text),
            Token::EndOfLine => Token::EndOfLine,
            Token::EndOfFile => Token::EndOfFile,
        }
    }
}

impl TokenModel {
    /// Whether the token is a terminator that stands in the input: a line
    /// break or a semicolon.
    pub open spec fn is_break(self) -> bool {
        self == TokenModel::EndOfLine || self == TokenModel::Symbol(";"@)
    }

    /// Whether an expression may start with the token: with a word or with
    /// a string literal.
    pub open spec fn starts_expression(self) -> bool {
        self is Word || self is String
    }

    /// Whether the token may end a statement or a declaration header: a line
    /// break, a semicolon, or the end of the input.
    pub open spec fn is_terminator(self) -> bool {
        self.is_break() || self == TokenModel::EndOfFile
    }
}

/// Whether `text` reads exactly as `literal`.
pub fn text_is(text: &str, literal: &str) -> (same: bool)
    ensures
        same == (text@ == literal@),
{
    let a = text.to_owned();
    let b = literal.to_owned();
    a == b
}

/// The values of a list of tokens, in order.
pub open spec fn token_views(tokens: Seq<Token>) -> Seq<TokenModel> {
    Seq::new(tokens.len(), |i: int| tokens[i]@)
}

impl Token {
    /// The keyword that opens a class.
    pub fn class() -> (token: Token)
        ensures
            token@ == TokenModel::Word("class"@),
    {
        Token::Word("class".to_owned())
    }

    /// The keyword that opens a module.
    pub fn module() -> (token: Token)
        ensures
            token@ == TokenModel::Word("module"@),
    {
        Token::Word("module".to_owned())
    }

    /// The keyword that opens a function.
    pub fn def() -> (token: Token)
        ensures
            token@ == TokenModel::Word("def"@),
    {
        Token::Word("def".to_owned())
    }

    /// The keyword that closes a class, a module or a function.
    pub fn end() -> (token: Token)
        ensures
            token@ == TokenModel::Word("end"@),
    {
        Token::Word("end".to_owned())
    }

    /// The symbol that opens a parameter list.
    pub fn left_paren() -> (token: Token)
        ensures
            token@ == TokenModel::Symbol("("@),
    {
        Token::Symbol("(")
    }

    /// Whether the token is the same as `other`.
    pub fn same_as(&self, other: &Token) -> (yes: bool)
        ensures
            yes == (self@ == other@),
    {
        match (self, other) {
            (Token::Word(a), Token::Word(b)) => text_is(a.as_str(), b.as_str()),
            (Token::String(a), Token::String(b)) => text_is(a.as_str(), b.as_str()),
            (Token::Symbol(a), Token::Symbol(b)) => text_is(a, b),
            (Token::EndOfLine, Token::EndOfLine) => true,
            (Token::EndOfFile, Token::EndOfFile) => true,
            _ => false,
        }
    }

    /// Whether the token is the word `text`.
    pub fn is_word(&self, text: &str) -> (yes: bool)
        ensures
            yes == (self@ == TokenModel::Word(text@)),
    {
        match self {
            Token::Word(word) => text_is(word.as_str(), text),
            _ => false,
        }
    }

    /// Whether the token is the symbol `text`.
    pub fn is_symbol(&self, text: &str) -> (yes: bool)
        ensures
            yes == (self@ == TokenModel::Symbol(text@)),
    {
        match self {
            Token::Symbol(symbol) => text_is(symbol, text),
            _ => false,
        }
    }

    /// Whether an expression may start with the token.
    pub fn starts_expression(&self) -> (yes: bool)
        ensures
            yes == self@.starts_expression(),
    {
        match self {
            Token::Word(_) => true,
            Token::String(_) => true,
            _ => false,
        }
    }

    /// Whether the token is a line break or a semicolon.
    pub fn is_break(&self) -> (yes: bool)
        ensures
            yes == self@.is_break(),
    {
        match self {
            Token::EndOfLine => true,
            Token::Symbol(text) => text_is(text, ";"),
            _ => false,
        }
    }

    /// Whether the token may end a statement or a declaration header.
    pub fn is_terminator(&self) -> (yes: bool)
        ensures
            yes == self@.is_terminator(),
    {
        match self {
            Token::EndOfLine => true,
            Token::EndOfFile => true,
            Token::Symbol(text) => text_is(text, ";"),
            _ => false,
        }
    }
}

} // verus!
