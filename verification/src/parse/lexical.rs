//! The lexical grammar: how a sequence of characters divides into tokens.
//!
//! Between tokens, spaces, tabs and carriage returns are skipped, and so is a
//! comment, which runs from a `#` to the end of its line. A line break is not
//! skipped: it gives an `EndOfLine` token, one for a whole run of line breaks
//! with whatever blank space and comments stand between them. A quote opens a
//! string literal, which runs to the next quote of the same kind that no
//! backslash escapes; the characters in between are its text, line breaks and
//! `#` included.

use super::error::{LexErrorKind, LexFailure};
use super::stream::{Lexeme, TokenStream};
use super::token::TokenModel;
use crate::text::unicode_alphabetic;
use vstd::prelude::*;

verus! {

/// Blank space inside a line.
pub open spec fn is_space(c: char) -> bool {
    c == ' ' || c == '\t' || c == '\r'
}

/// A decimal digit.
pub open spec fn is_digit(c: char) -> bool {
    '0' <= c && c <= '9'
}

/// Whether `c` may start a word, where `letter` says whether it is a letter:
/// a letter or an underscore may.
pub open spec fn starts_word(c: char, letter: bool) -> bool {
    c == '_' || letter
}

/// Whether `c` may continue a word, where `letter` says whether it is a
/// letter: a letter, a digit or an underscore may.
pub open spec fn continues_word(c: char, letter: bool) -> bool {
    starts_word(c, letter) || is_digit(c)
}

/// A character that may start a word. The letters are the characters that
/// Unicode calls alphabetic.
pub open spec fn is_word_start(c: char) -> bool {
    starts_word(c, unicode_alphabetic(c))
}

/// A character that may continue a word.
pub open spec fn is_word_part(c: char) -> bool {
    continues_word(c, unicode_alphabetic(c))
}

/// A character that opens, and closes, a string literal.
pub open spec fn is_quote(c: char) -> bool {
    c == '"' || c == '\''
}

/// The character that `c` stands for when it follows a backslash in a string
/// literal.
pub open spec fn unescape(c: char) -> char {
    if c == 'n' {
        '\n'
    } else if c == 't' {
        '\t'
    } else if c == 'r' {
        '\r'
    } else if c == '0' {
        '\0'
    } else {
        c
    }
}

/// Where the comment that holds index `i` ends: the index of the next line
/// break, or the end of the input.
pub open spec fn comment_end(s: Seq<char>, i: int) -> int
    decreases s.len() - i,
{
    if 0 <= i < s.len() && s[i] != '\n' {
        comment_end(s, i + 1)
    } else {
        i
    }
}

/// The first index from `i` on that holds neither blank space nor a comment.
pub open spec fn blank_end(s: Seq<char>, i: int) -> int
    decreases s.len() - i,
{
    if 0 <= i < s.len() && is_space(s[i]) {
        blank_end(s, i + 1)
    } else if 0 <= i < s.len() && s[i] == '#' {
        proof {
            lemma_comment_end_bounds(s, i + 1);
        }
        blank_end(s, comment_end(s, i + 1))
    } else {
        i
    }
}

/// The first index from `i` on that holds neither blank space, nor a
/// comment, nor a line break.
pub open spec fn line_end(s: Seq<char>, i: int) -> int
    decreases s.len() - i,
{
    let j = blank_end(s, i);
    if 0 <= j < s.len() && s[j] == '\n' {
        proof {
            lemma_blank_end_bounds(s, i);
        }
        line_end(s, j + 1)
    } else {
        j
    }
}

/// The first index from `i` on that does not continue a word.
pub open spec fn word_end(s: Seq<char>, i: int) -> int
    decreases s.len() - i,
{
    if 0 <= i < s.len() && is_word_part(s[i]) {
        word_end(s, i + 1)
    } else {
        i
    }
}

/// Reads the rest of a string literal from index `i`, with `text` read so
/// far: the whole text, and the index after the closing `quote`. `None` where
/// the input ends before the literal does.
pub open spec fn string_scan(s: Seq<char>, i: int, quote: char, text: Seq<char>) -> Option<
    (Seq<char>, int),
>
    decreases s.len() - i,
{
    if !(0 <= i < s.len()) {
        None
    } else if s[i] == quote {
        Some((text, i + 1))
    } else if s[i] == '\\' {
        if i + 1 < s.len() {
            string_scan(s, i + 2, quote, text.push(unescape(s[i + 1])))
        } else {
            None
        }
    } else {
        string_scan(s, i + 1, quote, text.push(s[i]))
    }
}

/// The symbol that starts at index `i`, with the index after it. Of two
/// symbols that start there, the longer one is taken.
pub open spec fn symbol_at(s: Seq<char>, i: int) -> Option<(Seq<char>, int)> {
    let c = s[i];
    if c == ':' && i + 1 < s.len() && s[i + 1] == ':' {
        Some(("::"@, i + 2))
    } else if c == '.' {
        Some(("."@, i + 1))
    } else if c == ';' {
        Some((";"@, i + 1))
    } else if c == '(' {
        Some(("("@, i + 1))
    } else if c == ')' {
        Some((")"@, i + 1))
    } else if c == ','{
        Some((","@, i + 1))
    } else if c == '=' {
        Some(("="@, i + 1))
    } else {
        None
    }
}

/// One step of the tokenizer.
pub struct Scan {
    /// What the step yields.
    pub lexeme: Lexeme,
    /// The index from which the next step starts.
    pub end: int,
}

/// The step that the tokenizer takes from index `i`. At the end of the input,
/// and at a lexical error, it does not move on.
pub open spec fn scan(s: Seq<char>, i: int) -> Scan {
    let start = blank_end(s, i);
    if !(0 <= start < s.len()) {
        Scan { lexeme: Ok(TokenModel::EndOfFile), end: i }
    } else if s[start] == '\n' {
        Scan { lexeme: Ok(TokenModel::EndOfLine), end: line_end(s, start + 1) }
    } else if is_quote(s[start]) {
        match string_scan(s, start + 1, s[start], Seq::empty()) {
            Some((text, end)) => Scan { lexeme: Ok(TokenModel::String(text)), end },
            None => Scan {
                lexeme: Err(
                    LexFailure { kind: LexErrorKind::UnterminatedString, position: start },
                ),
                end: i,
            },
        }
    } else if symbol_at(s, start) is Some {
        Scan {
            lexeme: Ok(TokenModel::Symbol(symbol_at(s, start).unwrap().0)),
            end: symbol_at(s, start).unwrap().1,
        }
    } else if is_word_start(s[start]) {
        Scan {
            lexeme: Ok(TokenModel::Word(s.subrange(start, word_end(s, start + 1)))),
            end: word_end(s, start + 1),
        }
    } else {
        Scan {
            lexeme: Err(
                LexFailure {
                    kind: LexErrorKind::UnrecognizedCharacter(s[start]),
                    position: start,
                },
            ),
            end: i,
        }
    }
}

/// What a tokenizer yields from index `i` of `s` on.
pub open spec fn tokens_from(s: Seq<char>, i: int) -> TokenStream
    decreases s.len() - i,
{
    let step = scan(s, i);
    match step.lexeme {
        Ok(TokenModel::EndOfFile) => TokenStream::exhausted(),
        Ok(token) => {
            proof {
                lemma_scan_advances(s, i);
            }
            TokenStream::cons(token, tokens_from(s, step.end))
        },
        Err(failure) => TokenStream::failed(failure),
    }
}

/// What a tokenizer yields for the input `s`.
pub open spec fn tokenize(s: Seq<char>) -> TokenStream {
    tokens_from(s, 0)
}

/// A comment that starts inside the input ends inside it, and not before
/// its start.
pub proof fn lemma_comment_end_bounds(s: Seq<char>, i: int)
    requires
        0 <= i <= s.len(),
    ensures
        i <= comment_end(s, i) <= s.len(),
    decreases s.len() - i,
{
    if i < s.len() && s[i] != '\n' {
        lemma_comment_end_bounds(s, i + 1);
    }
}

/// Skipping blank space stays inside the input and never goes back.
pub proof fn lemma_blank_end_bounds(s: Seq<char>, i: int)
    requires
        0 <= i <= s.len(),
    ensures
        i <= blank_end(s, i) <= s.len(),
    decreases s.len() - i,
{
    if i < s.len() && is_space(s[i]) {
        lemma_blank_end_bounds(s, i + 1);
    } else if i < s.len() && s[i] == '#' {
        lemma_comment_end_bounds(s, i + 1);
        lemma_blank_end_bounds(s, comment_end(s, i + 1));
    }
}

/// Skipping blank lines stays inside the input and never goes back.
pub proof fn lemma_line_end_bounds(s: Seq<char>, i: int)
    requires
        0 <= i <= s.len(),
    ensures
        i <= line_end(s, i) <= s.len(),
    decreases s.len() - i,
{
    lemma_blank_end_bounds(s, i);
    let j = blank_end(s, i);
    if j < s.len() && s[j] == '\n' {
        lemma_line_end_bounds(s, j + 1);
    }
}

/// A word that starts inside the input ends inside it, and not before its
/// start.
pub proof fn lemma_word_end_bounds(s: Seq<char>, i: int)
    requires
        0 <= i <= s.len(),
    ensures
        i <= word_end(s, i) <= s.len(),
    decreases s.len() - i,
{
    if i < s.len() && is_word_part(s[i]) {
        lemma_word_end_bounds(s, i + 1);
    }
}

/// A string literal that closes does so inside the input, after the index
/// from which it is read.
pub proof fn lemma_string_scan_bounds(s: Seq<char>, i: int, quote: char, text: Seq<char>)
    requires
        0 <= i <= s.len(),
    ensures
        string_scan(s, i, quote, text) matches Some((_, end)) ==> i < end <= s.len(),
    decreases s.len() - i,
{
    if i < s.len() && s[i] != quote {
        if s[i] == '\\' {
            if i + 1 < s.len() {
                lemma_string_scan_bounds(s, i + 2, quote, text.push(unescape(s[i + 1])));
            }
        } else {
            lemma_string_scan_bounds(s, i + 1, quote, text.push(s[i]));
        }
    }
}

/// A step that yields a token other than `EndOfFile` moves on, and stays
/// inside the input; a word that it yields is not empty.
pub proof fn lemma_scan_advances(s: Seq<char>, i: int)
    ensures
        scan(s, i).lexeme matches Ok(token) && token != TokenModel::EndOfFile ==> i < scan(
            s,
            i,
        ).end <= s.len(),
        scan(s, i).lexeme matches Ok(TokenModel::Word(text)) ==> text.len() > 0,
{
    if 0 <= i <= s.len() {
        lemma_blank_end_bounds(s, i);
        let start = blank_end(s, i);
        if start < s.len() {
            lemma_line_end_bounds(s, start + 1);
            lemma_string_scan_bounds(s, start + 1, s[start], Seq::empty());
            lemma_word_end_bounds(s, start + 1);
        }
    }
}

/// Skipping blank space a second time skips nothing more.
pub proof fn lemma_blank_end_idempotent(s: Seq<char>, i: int)
    requires
        0 <= i <= s.len(),
    ensures
        blank_end(s, blank_end(s, i)) == blank_end(s, i),
    decreases s.len() - i,
{
    if i < s.len() && is_space(s[i]) {
        lemma_blank_end_idempotent(s, i + 1);
    } else if i < s.len() && s[i] == '#' {
        lemma_comment_end_bounds(s, i + 1);
        lemma_blank_end_idempotent(s, comment_end(s, i + 1));
    }
}

} // verus!
