//! The arguments of a call end at the latest where a terminator is reached:
//! no expression reads a line break or a semicolon, or anything after one.

use super::rest::{
    lemma_argument_list_rest, lemma_arguments_rest, lemma_expression_rest, lemma_path_rest,
    lemma_rest_of_rest, lemma_rest_of_tail,
};
use crate::parse::grammar::{
    expect_word, lemma_expression_consumes, lemma_path_consumes, lookahead, parse_argument,
    parse_argument_list, parse_arguments, parse_expression, parse_path, parse_path_tail,
    parse_statement, separator_of,
};
use crate::parse::stream::TokenStream;
use crate::parse::token::TokenModel;
use vstd::prelude::*;

verus! {

/// Whether no line break and no semicolon is among the tokens of `whole`
/// that were read before `rest` was left.
pub open spec fn reads_no_break(whole: TokenStream, rest: TokenStream) -> bool {
    forall|i: int| 0 <= i < whole.len() - rest.len() ==> !(#[trigger] whole.tokens[i]).is_break()
}

/// What holds of two steps holds of both together.
proof fn lemma_reads_no_break_twice(whole: TokenStream, middle: TokenStream, rest: TokenStream)
    requires
        middle.is_rest_of(whole),
        rest.is_rest_of(middle),
        reads_no_break(whole, middle),
        reads_no_break(middle, rest),
    ensures
        reads_no_break(whole, rest),
{
    let read = whole.len() - middle.len();
    assert forall|i: int| 0 <= i < whole.len() - rest.len() implies !(
    #[trigger] whole.tokens[i]).is_break() by {
        if i >= read {
            assert(middle.tokens[i - read] == whole.tokens[i]);
        }
    }
}

/// A token that is no terminator is read without one.
proof fn lemma_reads_no_break_once(ts: TokenStream)
    requires
        ts.head() matches Ok(token) && !token.is_break(),
    ensures
        reads_no_break(ts, ts.tail()),
        reads_no_break(ts, ts),
{
}

/// The symbols of paths and arguments are no terminators.
proof fn lemma_symbols_are_no_breaks()
    ensures
        !TokenModel::Symbol(","@).is_break(),
        !TokenModel::Symbol("::"@).is_break(),
        !TokenModel::Symbol("."@).is_break(),
{
    reveal_strlit(";");
    reveal_strlit(",");
    reveal_strlit("::");
    reveal_strlit(".");
    assert(";"@[0] == ';' && ","@[0] == ',' && "."@[0] == '.');
    assert("::"@.len() == 2 && ";"@.len() == 1);
}

/// A path reads no terminator.
proof fn lemma_path_reads_no_break(ts: TokenStream)
    ensures
        parse_path_tail(ts) matches Ok((_, rest)) ==> reads_no_break(ts, rest),
        parse_path(ts) matches Ok((_, rest)) ==> reads_no_break(ts, rest),
    decreases ts.len(),
{
    lemma_symbols_are_no_breaks();
    lemma_rest_of_tail(ts);
    if separator_of(ts.head()) is Some {
        lemma_reads_no_break_once(ts);
        if let Ok((text, after)) = expect_word(ts.tail()) {
            lemma_rest_of_tail(ts.tail());
            lemma_reads_no_break_once(ts.tail());
            lemma_reads_no_break_twice(ts, ts.tail(), after);
            lemma_rest_of_rest(after, ts.tail(), ts);
            lemma_path_reads_no_break(after);
            lemma_path_rest(after);
            if let Ok((more, rest)) = parse_path_tail(after) {
                lemma_reads_no_break_twice(ts, after, rest);
            }
        }
    }
    if let Ok((text, after)) = expect_word(ts) {
        lemma_reads_no_break_once(ts);
        lemma_path_reads_no_break(after);
        lemma_path_rest(after);
        if let Ok((more, rest)) = parse_path_tail(after) {
            lemma_reads_no_break_twice(ts, after, rest);
        }
    }
}

/// The arguments of a call end at the latest where a terminator is reached:
/// an expression reads no line break and no semicolon. So a call that is an
/// argument leaves the terminator to the statement around it, and no list of
/// arguments goes on into the next line.
pub proof fn lemma_expression_reads_no_terminator(ts: TokenStream)
    ensures
        parse_expression(ts) matches Ok((_, rest)) ==> reads_no_break(ts, rest),
        parse_argument(ts) matches Ok((_, rest)) ==> reads_no_break(ts, rest),
        parse_statement(ts) matches Ok((_, rest)) ==> reads_no_break(ts, rest),
    decreases ts.len(), 0nat,
{
    if let Ok(token) = lookahead(ts) {
        if token is Word {
            if let Ok((callee, after)) = parse_path(ts) {
                lemma_path_consumes(ts);
                lemma_path_reads_no_break(ts);
                lemma_path_rest(ts);
                lemma_arguments_read_no_terminator(after);
                lemma_arguments_rest(after);
                if let Ok((arguments, rest)) = parse_arguments(after) {
                    lemma_reads_no_break_twice(ts, after, rest);
                }
            }
        } else if token is String {
            lemma_reads_no_break_once(ts);
        }
    }
}

/// The arguments of a call read no terminator.
pub proof fn lemma_arguments_read_no_terminator(ts: TokenStream)
    ensures
        parse_arguments(ts) matches Ok((_, rest)) ==> reads_no_break(ts, rest),
    decreases ts.len(), 3nat,
{
    if let Ok(token) = lookahead(ts) {
        if token.starts_expression() {
            lemma_argument_list_reads_no_terminator(ts);
        }
    }
}

/// A list of arguments reads no terminator.
pub proof fn lemma_argument_list_reads_no_terminator(ts: TokenStream)
    ensures
        parse_argument_list(ts) matches Ok((_, rest)) ==> reads_no_break(ts, rest),
    decreases ts.len(), 2nat,
{
    lemma_symbols_are_no_breaks();
    lemma_expression_reads_no_terminator(ts);
    lemma_expression_consumes(ts);
    lemma_expression_rest(ts);
    if let Ok((argument, after)) = parse_argument(ts) {
        if let Ok(token) = lookahead(after) {
            if after.len() >= ts.len() {
            } else if token == TokenModel::Symbol(","@) {
                lemma_rest_of_tail(after);
                lemma_reads_no_break_once(after);
                lemma_reads_no_break_twice(ts, after, after.tail());
                lemma_argument_list_reads_no_terminator(after.tail());
                lemma_argument_list_rest(after.tail());
                if let Ok((more, rest)) = parse_argument_list(after.tail()) {
                    lemma_reads_no_break_twice(after, after.tail(), rest);
                    lemma_rest_of_rest(rest, after.tail(), after);
                    lemma_reads_no_break_twice(ts, after, rest);
                }
            } else if token.starts_expression() {
                lemma_argument_list_reads_no_terminator(after);
                lemma_argument_list_rest(after);
                if let Ok((more, rest)) = parse_argument_list(after) {
                    lemma_reads_no_break_twice(ts, after, rest);
                }
            }
        }
    }
}

} // verus!
