//! Blank lines in the source: blank space and line breaks that follow a line
//! break between two tokens change nothing of what the tokenizer yields.

use super::rest::{lemma_items_rest, lemma_skip_terminators_rest};
use crate::parse::error::LexFailure;
use crate::parse::grammar::{lemma_items_end, parse_items, parse_program, skip_terminators};
use crate::parse::lexical::{
    blank_end, comment_end, is_quote, is_space, is_word_part, lemma_blank_end_bounds,
    lemma_comment_end_bounds, lemma_line_end_bounds, lemma_scan_advances,
    lemma_string_scan_bounds, lemma_word_end_bounds, line_end, scan, string_scan, symbol_at,
    tokenize, tokens_from, unescape, word_end, Scan,
};
use crate::parse::stream::TokenStream;
use crate::parse::token::TokenModel;
use vstd::prelude::*;

verus! {

/// Whether `a` and `b` hold the same characters before index `end`.
pub open spec fn same_before(a: Seq<char>, b: Seq<char>, end: int) -> bool {
    &&& 0 <= end <= a.len()
    &&& end <= b.len()
    &&& forall|q: int| 0 <= q < end ==> a[q] == b[q]
}

/// Whether `b` holds, from index `from + by` on, what `a` holds from index
/// `from` on.
pub open spec fn moved_after(a: Seq<char>, b: Seq<char>, from: int, by: nat) -> bool {
    &&& 0 <= from
    &&& b.len() == a.len() + by
    &&& forall|q: int| from <= q < a.len() ==> b[q + by] == a[q]
}

proof fn lemma_comment_end_same(a: Seq<char>, b: Seq<char>, end: int, p: int)
    requires
        same_before(a, b, end),
        0 <= p,
        comment_end(a, p) < end,
    ensures
        comment_end(b, p) == comment_end(a, p),
    decreases a.len() - p,
{
    if p < a.len() && a[p] != '\n' {
        lemma_comment_end_bounds(a, p + 1);
        lemma_comment_end_same(a, b, end, p + 1);
    }
}

proof fn lemma_blank_end_same(a: Seq<char>, b: Seq<char>, end: int, p: int)
    requires
        same_before(a, b, end),
        0 <= p,
        blank_end(a, p) < end,
    ensures
        blank_end(b, p) == blank_end(a, p),
    decreases a.len() - p,
{
    if p < a.len() && is_space(a[p]) {
        lemma_blank_end_bounds(a, p + 1);
        lemma_blank_end_same(a, b, end, p + 1);
    } else if p < a.len() && a[p] == '#' {
        lemma_comment_end_bounds(a, p + 1);
        lemma_blank_end_bounds(a, comment_end(a, p + 1));
        lemma_comment_end_same(a, b, end, p + 1);
        lemma_blank_end_same(a, b, end, comment_end(a, p + 1));
    }
}

proof fn lemma_line_end_same(a: Seq<char>, b: Seq<char>, end: int, p: int)
    requires
        same_before(a, b, end),
        0 <= p <= a.len(),
        line_end(a, p) < end,
    ensures
        line_end(b, p) == line_end(a, p),
    decreases a.len() - p,
{
    lemma_blank_end_bounds(a, p);
    let j = blank_end(a, p);
    if j < a.len() && a[j] == '\n' {
        lemma_line_end_bounds(a, j + 1);
        lemma_blank_end_same(a, b, end, p);
        lemma_line_end_same(a, b, end, j + 1);
    } else {
        lemma_blank_end_same(a, b, end, p);
    }
}

proof fn lemma_word_end_same(a: Seq<char>, b: Seq<char>, end: int, p: int)
    requires
        same_before(a, b, end),
        0 <= p,
        word_end(a, p) < end,
    ensures
        word_end(b, p) == word_end(a, p),
    decreases a.len() - p,
{
    if p < a.len() && is_word_part(a[p]) {
        lemma_word_end_bounds(a, p + 1);
        lemma_word_end_same(a, b, end, p + 1);
    }
}

proof fn lemma_string_scan_same(
    a: Seq<char>,
    b: Seq<char>,
    end: int,
    p: int,
    quote: char,
    text: Seq<char>,
)
    requires
        same_before(a, b, end),
        0 <= p <= a.len(),
        string_scan(a, p, quote, text) matches Some((_, after)) && after <= end,
    ensures
        string_scan(b, p, quote, text) == string_scan(a, p, quote, text),
    decreases a.len() - p,
{
    if a[p] == quote {
    } else if a[p] == '\\' {
        lemma_string_scan_bounds(a, p + 2, quote, text.push(unescape(a[p + 1])));
        lemma_string_scan_same(a, b, end, p + 2, quote, text.push(unescape(a[p + 1])));
    } else {
        lemma_string_scan_bounds(a, p + 1, quote, text.push(a[p]));
        lemma_string_scan_same(a, b, end, p + 1, quote, text.push(a[p]));
    }
}

/// A step that ends before the index up to which two inputs are the same is
/// the same step on both.
proof fn lemma_scan_same(a: Seq<char>, b: Seq<char>, end: int, p: int)
    requires
        same_before(a, b, end),
        0 <= p,
        scan(a, p).lexeme matches Ok(token) && token != TokenModel::EndOfFile,
        scan(a, p).end < end,
    ensures
        scan(b, p) == scan(a, p),
{
    let start = blank_end(a, p);
    if a[start] == '\n' {
        lemma_line_end_bounds(a, start + 1);
        lemma_blank_end_same(a, b, end, p);
        lemma_line_end_same(a, b, end, start + 1);
    } else if is_quote(a[start]) {
        lemma_string_scan_bounds(a, start + 1, a[start], Seq::empty());
        lemma_blank_end_same(a, b, end, p);
        lemma_string_scan_same(a, b, end, start + 1, a[start], Seq::empty());
    } else if symbol_at(a, start) is Some {
        lemma_blank_end_same(a, b, end, p);
    } else {
        lemma_word_end_bounds(a, start + 1);
        lemma_blank_end_same(a, b, end, p);
        lemma_word_end_same(a, b, end, start + 1);
        assert(a.subrange(start, word_end(a, start + 1)) =~= b.subrange(
            start,
            word_end(b, start + 1),
        ));
    }
}

/// A failure, `by` characters further on.
pub open spec fn moved_failure(failure: Option<LexFailure>, by: nat) -> Option<LexFailure> {
    match failure {
        Some(failure) => Some(
            LexFailure { kind: failure.kind, position: failure.position + by },
        ),
        None => None,
    }
}

/// A step of the tokenizer, `by` characters further on.
pub open spec fn moved_scan(step: Scan, by: nat) -> Scan {
    Scan {
        lexeme: match step.lexeme {
            Ok(token) => Ok(token),
            Err(failure) => Err(
                LexFailure { kind: failure.kind, position: failure.position + by },
            ),
        },
        end: step.end + by,
    }
}

/// A stream of tokens, read `by` characters further on.
pub open spec fn moved_stream(ts: TokenStream, by: nat) -> TokenStream {
    TokenStream { tokens: ts.tokens, failure: moved_failure(ts.failure, by) }
}

proof fn lemma_comment_end_moved(a: Seq<char>, b: Seq<char>, from: int, by: nat, p: int)
    requires
        moved_after(a, b, from, by),
        from <= p,
    ensures
        comment_end(b, p + by) == comment_end(a, p) + by,
    decreases a.len() - p,
{
    if p < a.len() {
        if a[p] != '\n' {
            lemma_comment_end_moved(a, b, from, by, p + 1);
        }
    }
}

proof fn lemma_blank_end_moved(a: Seq<char>, b: Seq<char>, from: int, by: nat, p: int)
    requires
        moved_after(a, b, from, by),
        from <= p,
    ensures
        blank_end(b, p + by) == blank_end(a, p) + by,
    decreases a.len() - p,
{
    if p < a.len() {
        if is_space(a[p]) {
            lemma_blank_end_moved(a, b, from, by, p + 1);
        } else if a[p] == '#' {
            lemma_comment_end_bounds(a, p + 1);
            lemma_comment_end_moved(a, b, from, by, p + 1);
            lemma_blank_end_moved(a, b, from, by, comment_end(a, p + 1));
        }
    }
}

proof fn lemma_line_end_moved(a: Seq<char>, b: Seq<char>, from: int, by: nat, p: int)
    requires
        moved_after(a, b, from, by),
        from <= p,
    ensures
        line_end(b, p + by) == line_end(a, p) + by,
    decreases a.len() - p,
{
    lemma_blank_end_moved(a, b, from, by, p);
    let j = blank_end(a, p);
    if p <= a.len() {
        lemma_blank_end_bounds(a, p);
    }
    if 0 <= j < a.len() {
        if a[j] == '\n' {
            lemma_line_end_moved(a, b, from, by, j + 1);
        }
    }
}

proof fn lemma_word_end_moved(a: Seq<char>, b: Seq<char>, from: int, by: nat, p: int)
    requires
        moved_after(a, b, from, by),
        from <= p,
    ensures
        word_end(b, p + by) == word_end(a, p) + by,
    decreases a.len() - p,
{
    if p < a.len() {
        if is_word_part(a[p]) {
            lemma_word_end_moved(a, b, from, by, p + 1);
        }
    }
}

proof fn lemma_string_scan_moved(
    a: Seq<char>,
    b: Seq<char>,
    from: int,
    by: nat,
    p: int,
    quote: char,
    text: Seq<char>,
)
    requires
        moved_after(a, b, from, by),
        from <= p,
    ensures
        string_scan(b, p + by, quote, text) == match string_scan(a, p, quote, text) {
            Some((read, end)) => Some((read, end + by)),
            None => None,
        },
    decreases a.len() - p,
{
    if p < a.len() {
        if a[p] == quote {
        } else if a[p] == '\\' {
            if p + 1 < a.len() {
                lemma_string_scan_moved(
                    a,
                    b,
                    from,
                    by,
                    p + 2,
                    quote,
                    text.push(unescape(a[p + 1])),
                );
            }
        } else {
            lemma_string_scan_moved(a, b, from, by, p + 1, quote, text.push(a[p]));
        }
    }
}

/// From where one input holds what another holds `by` characters earlier,
/// the tokenizer takes the same steps on both, `by` characters apart.
proof fn lemma_scan_moved(a: Seq<char>, b: Seq<char>, from: int, by: nat, p: int)
    requires
        moved_after(a, b, from, by),
        from <= p,
    ensures
        scan(b, p + by) == moved_scan(scan(a, p), by),
{
    lemma_blank_end_moved(a, b, from, by, p);
    let start = blank_end(a, p);
    if p <= a.len() {
        lemma_blank_end_bounds(a, p);
    }
    if 0 <= start < a.len() {
        lemma_line_end_moved(a, b, from, by, start + 1);
        lemma_string_scan_moved(a, b, from, by, start + 1, a[start], Seq::empty());
        lemma_word_end_moved(a, b, from, by, start + 1);
        lemma_word_end_bounds(a, start + 1);
        let word = a.subrange(start, word_end(a, start + 1));
        let moved = b.subrange(start + by, word_end(b, start + 1 + by));
        assert(word =~= moved);
    }
}

/// From where one input holds what another holds `by` characters earlier,
/// the tokenizer yields the same tokens on both.
proof fn lemma_tokens_moved(a: Seq<char>, b: Seq<char>, from: int, by: nat, p: int)
    requires
        moved_after(a, b, from, by),
        from <= p,
    ensures
        tokens_from(b, p + by) == moved_stream(tokens_from(a, p), by),
    decreases a.len() - p,
{
    lemma_scan_moved(a, b, from, by, p);
    lemma_scan_advances(a, p);
    match scan(a, p).lexeme {
        Ok(TokenModel::EndOfFile) => {},
        Ok(token) => {
            lemma_tokens_moved(a, b, from, by, scan(a, p).end);
        },
        Err(failure) => {},
    }
}

/// Whether `blank` holds nothing but blank space and line breaks.
pub open spec fn is_blank(blank: Seq<char>) -> bool {
    forall|k: int| 0 <= k < blank.len() ==> is_space(#[trigger] blank[k]) || blank[k] == '\n'
}

/// `s` with `blank` put in at index `at`.
pub open spec fn with_blank(s: Seq<char>, at: int, blank: Seq<char>) -> Seq<char> {
    s.subrange(0, at) + blank + s.subrange(at, s.len() as int)
}

/// Whether the tokenizer, on its way from index `from`, comes to stand at
/// index `to`: whether a token starts to be read there.
pub open spec fn comes_to(s: Seq<char>, from: int, to: int) -> bool
    decreases s.len() - from,
{
    if from == to {
        true
    } else {
        match scan(s, from).lexeme {
            Ok(TokenModel::EndOfFile) => false,
            Ok(token) => {
                proof {
                    lemma_scan_advances(s, from);
                }
                comes_to(s, scan(s, from).end, to)
            },
            Err(failure) => false,
        }
    }
}

/// The tokenizer never goes back.
proof fn lemma_comes_to_later(s: Seq<char>, from: int, to: int)
    requires
        comes_to(s, from, to),
    ensures
        from <= to,
    decreases s.len() - from,
{
    if from != to {
        lemma_scan_advances(s, from);
        lemma_comes_to_later(s, scan(s, from).end, to);
    }
}

/// A run of blank space and line breaks after a line break is skipped as a
/// whole.
proof fn lemma_line_end_run(b: Seq<char>, at: int, count: nat)
    requires
        0 <= at,
        at + count <= b.len(),
        forall|q: int| at <= q < at + count ==> is_space(#[trigger] b[q]) || b[q] == '\n',
    ensures
        line_end(b, at) == line_end(b, at + count),
    decreases count,
{
    if count > 0 {
        lemma_line_end_run(b, at + 1, (count - 1) as nat);
    }
}

/// Up to the line break after which the line breaks were put in, the
/// tokenizer yields the same tokens as without them.
proof fn lemma_tokens_same(
    s: Seq<char>,
    longer: Seq<char>,
    at: int,
    count: nat,
    from: int,
    to: int,
)
    requires
        same_before(s, longer, at),
        0 <= from,
        to < at,
        comes_to(s, from, to),
        tokens_from(longer, to) == moved_stream(tokens_from(s, to), count),
    ensures
        tokens_from(longer, from) == moved_stream(tokens_from(s, from), count),
    decreases s.len() - from,
{
    if from != to {
        lemma_scan_advances(s, from);
        let next = scan(s, from).end;
        lemma_comes_to_later(s, next, to);
        lemma_scan_same(s, longer, at, from);
        lemma_tokens_same(s, longer, at, count, next, to);
    }
}

/// Blank lines in the source change nothing of what the tokenizer yields:
/// where the tokenizer, between two tokens, meets a line break, any blank
/// space and further line breaks right after it give the same tokens. Only a
/// lexical error further on is found that many characters later.
pub proof fn lemma_blank_lines_collapse(s: Seq<char>, at: int, blank: Seq<char>)
    requires
        comes_to(s, 0, at),
        scan(s, at).lexeme == Ok::<TokenModel, LexFailure>(TokenModel::EndOfLine),
        is_blank(blank),
    ensures
        tokenize(with_blank(s, blank_end(s, at) + 1, blank)) == moved_stream(
            tokenize(s),
            blank.len(),
        ),
{
    lemma_blank_end_bounds(s, at);
    let count = blank.len();
    let line_break = blank_end(s, at);
    let after = line_break + 1;
    let longer = with_blank(s, after, blank);
    lemma_line_end_run(longer, after, count);
    lemma_line_end_moved(s, longer, after, count, after);
    lemma_blank_end_same(s, longer, after, at);
    lemma_line_end_bounds(s, after);
    let end = line_end(s, after);
    lemma_tokens_moved(s, longer, after, count, end);
    lemma_tokens_same(s, longer, after, count, 0, at);
}

/// `EndOfFile` is never among the tokens that come before the end.
proof fn lemma_no_end_among_tokens(s: Seq<char>, from: int, k: int)
    requires
        0 <= k < tokens_from(s, from).len(),
    ensures
        tokens_from(s, from).tokens[k] != TokenModel::EndOfFile,
    decreases s.len() - from,
{
    lemma_scan_advances(s, from);
    if k > 0 {
        lemma_no_end_among_tokens(s, scan(s, from).end, k - 1);
    }
}

/// A program is read whole or not at all: where the input holds a lexical
/// error, the parser fails.
pub proof fn lemma_program_needs_every_token(s: Seq<char>)
    ensures
        parse_program(tokenize(s)) is Ok ==> tokenize(s).failure is None,
{
    let ts = tokenize(s);
    let end = TokenModel::EndOfFile;
    if let Ok((items, rest)) = parse_items(skip_terminators(ts), end) {
        lemma_items_end(skip_terminators(ts), end);
        lemma_items_rest(skip_terminators(ts), end);
        lemma_skip_terminators_rest(ts);
        if rest.len() > 0 {
            lemma_no_end_among_tokens(s, 0, ts.len() - rest.len());
        }
    }
}

/// Blank lines in the source do not change the program: with any blank
/// space and further line breaks after a line break that the tokenizer meets
/// between two tokens, the parser gives the same items, or fails as it fails
/// without them.
pub proof fn lemma_blank_lines_change_no_program(s: Seq<char>, at: int, blank: Seq<char>)
    requires
        comes_to(s, 0, at),
        scan(s, at).lexeme == Ok::<TokenModel, LexFailure>(TokenModel::EndOfLine),
        is_blank(blank),
    ensures
        ({
            let longer = with_blank(s, blank_end(s, at) + 1, blank);
            &&& parse_program(tokenize(longer)) is Ok <==> parse_program(tokenize(s)) is Ok
            &&& parse_program(tokenize(s)) is Ok ==> parse_program(tokenize(longer))
                == parse_program(tokenize(s))
        }),
{
    let longer = with_blank(s, blank_end(s, at) + 1, blank);
    lemma_blank_lines_collapse(s, at, blank);
    lemma_program_needs_every_token(s);
    lemma_program_needs_every_token(longer);
}

} // verus!
