//! The tokenizer: a scanner that is pulled for one token at a time.

use super::error::{LexError, LexErrorKind};
use super::lexical;
use super::lexical::{
    blank_end, comment_end, is_space, is_word_part, is_word_start, lemma_blank_end_idempotent,
    line_end, scan, string_scan, symbol_at, tokenize, tokens_from, unescape, word_end,
};
use super::stream::{lexeme_view, TokenStream};
use super::token::{token_views, Token};
use crate::text::{is_alphabetic, push_char};
use vstd::prelude::*;

verus! {

/// A scanner over the characters of a program.
///
/// Its value is the stream of tokens that it has yet to yield.
pub struct Tokenizer {
    chars: Vec<char>,
    position: usize,
}

impl View for Tokenizer {
    type V = TokenStream;

    closed spec fn view(&self) -> TokenStream {
        tokens_from(self.chars@, self.position as int)
    }
}

/// Whether `c` is blank space inside a line.
fn space(c: char) -> (yes: bool)
    ensures
        yes == is_space(c),
{
    c == ' ' || c == '\t' || c == '\r'
}

/// Whether `c` may start a word, where `letter` says whether it is a letter.
pub fn starts_word(c: char, letter: bool) -> (yes: bool)
    ensures
        yes == lexical::starts_word(c, letter),
{
    c == '_' || letter
}

/// Whether `c` may continue a word, where `letter` says whether it is a
/// letter.
pub fn continues_word(c: char, letter: bool) -> (yes: bool)
    ensures
        yes == lexical::continues_word(c, letter),
{
    starts_word(c, letter) || ('0' <= c && c <= '9')
}

/// Whether `c` may start a word.
fn word_start(c: char) -> (yes: bool)
    ensures
        yes == is_word_start(c),
{
    starts_word(c, is_alphabetic(c))
}

/// Whether `c` may continue a word.
fn word_part(c: char) -> (yes: bool)
    ensures
        yes == is_word_part(c),
{
    continues_word(c, is_alphabetic(c))
}

/// The character that `c` stands for after a backslash.
fn unescaped(c: char) -> (decoded: char)
    ensures
        decoded == unescape(c),
{
    if c == 'n' {
        '\n'
    } else if c == 't' {
        '\t'
    } else if c == 'r' {
        '\r'
    } else if c == '0' {
        '\0'
    } else {
        c
    }
}

impl Tokenizer {
    /// The tokenizer stands inside its input, or at its end.
    #[verifier::type_invariant]
    spec fn inside(&self) -> bool {
        self.position <= self.chars.len()
    }

    /// A tokenizer at the start of `input`.
    pub fn new(input: Vec<char>) -> (tokenizer: Tokenizer)
        ensures
            tokenizer@ == tokenize(input@),
    {
        Tokenizer { chars: input, position: 0 }
    }

    /// The end of the comment that holds index `from`.
    fn skip_comment(&self, from: usize) -> (end: usize)
        requires
            from <= self.chars.len(),
        ensures
            end == comment_end(self.chars@, from as int),
            from <= end <= self.chars.len(),
    {
        let mut i = from;
        while i < self.chars.len() && self.chars[i] != '\n'
            invariant
                from <= i <= self.chars.len(),
                comment_end(self.chars@, from as int) == comment_end(self.chars@, i as int),
            decreases self.chars.len() - i,
        {
            i += 1;
        }
        i
    }

    /// The first index from `from` on that holds neither blank space nor a
    /// comment.
    fn skip_blank(&self, from: usize) -> (end: usize)
        requires
            from <= self.chars.len(),
        ensures
            end == blank_end(self.chars@, from as int),
            from <= end <= self.chars.len(),
    {
        let mut i = from;
        loop
            invariant
                from <= i <= self.chars.len(),
                blank_end(self.chars@, from as int) == blank_end(self.chars@, i as int),
            ensures
                i == blank_end(self.chars@, from as int),
            decreases self.chars.len() - i,
        {
            if i < self.chars.len() && space(self.chars[i]) {
                i += 1;
            } else if i < self.chars.len() && self.chars[i] == '#' {
                i = self.skip_comment(i + 1);
            } else {
                break ;
            }
        }
        i
    }

    /// The first index from `from` on that holds neither blank space, nor a
    /// comment, nor a line break.
    fn skip_lines(&self, from: usize) -> (end: usize)
        requires
            from <= self.chars.len(),
        ensures
            end == line_end(self.chars@, from as int),
            from <= end <= self.chars.len(),
    {
        let mut i = self.skip_blank(from);
        proof {
            lemma_blank_end_idempotent(self.chars@, from as int);
        }
        while i < self.chars.len() && self.chars[i] == '\n'
            invariant
                from <= i <= self.chars.len(),
                i == blank_end(self.chars@, i as int),
                line_end(self.chars@, from as int) == line_end(self.chars@, i as int),
            decreases self.chars.len() - i,
        {
            let ghost before = i as int;
            i = self.skip_blank(i + 1);
            proof {
                lemma_blank_end_idempotent(self.chars@, before + 1);
                assert(line_end(self.chars@, before + 1) == line_end(self.chars@, i as int));
            }
        }
        i
    }

    /// Reads the word that starts at index `start`: its text, and the index
    /// after it.
    fn read_word(&self, start: usize) -> (word: (String, usize))
        requires
            start < self.chars.len(),
        ensures
            word.1 == word_end(self.chars@, start + 1),
            word.0@ == self.chars@.subrange(start as int, word.1 as int),
            start < word.1 <= self.chars.len(),
    {
        let mut text = String::new();
        push_char(&mut text, self.chars[start]);
        let mut i = start + 1;
        while i < self.chars.len() && word_part(self.chars[i])
            invariant
                start < i <= self.chars.len(),
                text@ == self.chars@.subrange(start as int, i as int),
                word_end(self.chars@, start + 1) == word_end(self.chars@, i as int),
            decreases self.chars.len() - i,
        {
            push_char(&mut text, self.chars[i]);
            i += 1;
        }
        (text, i)
    }

    /// Reads a string literal from index `from`, which follows its opening
    /// `quote`: its text, and the index after its closing quote.
    fn read_string(&self, from: usize, quote: char) -> (literal: Option<(String, usize)>)
        requires
            from <= self.chars.len(),
        ensures
            match literal {
                Some((text, end)) => string_scan(self.chars@, from as int, quote, Seq::empty())
                    == Some((text@, end as int)) && from < end <= self.chars.len(),
                None => string_scan(self.chars@, from as int, quote, Seq::empty()) is None,
            },
    {
        let mut text = String::new();
        let mut i = from;
        loop
            invariant
                from <= i <= self.chars.len(),
                string_scan(self.chars@, from as int, quote, Seq::empty()) == string_scan(
                    self.chars@,
                    i as int,
                    quote,
                    text@,
                ),
            decreases self.chars.len() - i,
        {
            if i >= self.chars.len() {
                return None;
            }
            let c = self.chars[i];
            if c == quote {
                return Some((text, i + 1));
            }
            if c == '\\' {
                if i + 1 >= self.chars.len() {
                    return None;
                }
                push_char(&mut text, unescaped(self.chars[i + 1]));
                i += 2;
            } else {
                push_char(&mut text, c);
                i += 1;
            }
        }
    }

    /// The symbol that starts at index `start`, with the index after it.
    fn read_symbol(&self, start: usize) -> (symbol: Option<(&'static str, usize)>)
        requires
            start < self.chars.len(),
        ensures
            match symbol {
                Some((text, end)) => symbol_at(self.chars@, start as int) == Some(
                    (text@, end as int),
                ) && start < end <= self.chars.len(),
                None => symbol_at(self.chars@, start as int) is None,
            },
    {
        let c = self.chars[start];
        if c == ':' && start + 1 < self.chars.len() && self.chars[start + 1] == ':' {
            Some(("::", start + 2))
        } else if c == '.' {
            Some((".", start + 1))
        } else if c == ';' {
            Some((";", start + 1))
        } else if c == '(' {
            Some(("(", start + 1))
        } else if c == ')' {
            Some((")", start + 1))
        } else if c == ',' {
            Some((",", start + 1))
        } else if c == '=' {
            Some(("=", start + 1))
        } else {
            None
        }
    }

    /// The step that the tokenizer takes from where it stands: what it
    /// yields, and the index from which the next step starts.
    fn scan(&self) -> (step: (Result<Token, LexError>, usize))
        requires
            self.position <= self.chars.len(),
        ensures
            lexeme_view(step.0) == scan(self.chars@, self.position as int).lexeme,
            step.1 == scan(self.chars@, self.position as int).end,
            self.position <= step.1 <= self.chars.len(),
            step.0 matches Ok(Token::Word(text)) ==> text@.len() > 0,
    {
        let start = self.skip_blank(self.position);
        if start >= self.chars.len() {
            return (Ok(Token::EndOfFile), self.position);
        }
        let c = self.chars[start];
        if c == '\n' {
            return (Ok(Token::EndOfLine), self.skip_lines(start + 1));
        }
        if c == '"' || c == '\'' {
            return match self.read_string(start + 1, c) {
                Some((text, end)) => (Ok(Token::String(text)), end),
                None => (
                    Err(LexError { kind: LexErrorKind::UnterminatedString, position: start }),
                    self.position,
                ),
            };
        }
        if let Some((text, end)) = self.read_symbol(start) {
            return (Ok(Token::Symbol(text)), end);
        }
        if word_start(c) {
            let (text, end) = self.read_word(start);
            return (Ok(Token::Word(text)), end);
        }
        (
            Err(LexError { kind: LexErrorKind::UnrecognizedCharacter(c), position: start }),
            self.position,
        )
    }

    /// Yields the next token, or the lexical error that stands in its way.
    ///
    /// Once the input is used up, every call yields `EndOfFile`; a lexical
    /// error, too, is yielded again by every later call.
    pub fn next(&mut self) -> (lexeme: Result<Token, LexError>)
        ensures
            lexeme_view(lexeme) == old(self)@.head(),
            final(self)@ == old(self)@.tail(),
            old(self)@ == TokenStream::unread(lexeme_view(lexeme), final(self)@),
            lexeme matches Ok(Token::Word(text)) ==> text@.len() > 0,
    {
        proof {
            use_type_invariant(&*self);
        }
        let (lexeme, end) = self.scan();
        match &lexeme {
            Ok(Token::EndOfFile) => {},
            Ok(_) => {
                assert(old(self)@.tail().tokens =~= tokens_from(self.chars@, end as int).tokens);
                self.position = end;
            },
            Err(_) => {},
        }
        lexeme
    }

    /// Yields every token up to the end of the input, or the lexical error
    /// that stands in the way.
    pub fn collect(self) -> (all: Result<Vec<Token>, LexError>)
        ensures
            match all {
                Ok(tokens) => self@ == TokenStream::of(token_views(tokens@)),
                Err(error) => self@.failure == Some(error@),
            },
    {
        let mut rest = self;
        let mut tokens: Vec<Token> = Vec::new();
        loop
            invariant
                self@.tokens == token_views(tokens@) + rest@.tokens,
                self@.failure == rest@.failure,
            decreases rest@.len(),
        {
            match rest.next() {
                Ok(Token::EndOfFile) => {
                    return Ok(tokens);
                },
                Ok(token) => {
                    tokens.push(token);
                },
                Err(error) => {
                    return Err(error);
                },
            }
        }
    }
}

} // verus!
