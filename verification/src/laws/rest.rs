//! Every rule of the grammar reads tokens from the front of the stream and
//! leaves the rest as it was.

use crate::parse::error::ErrorModel;
use crate::parse::grammar::{
    expect_terminator, expect_word, lemma_expression_consumes, lemma_item_consumes,
    lemma_path_consumes, lookahead, parse_argument, parse_argument_list, parse_arguments,
    parse_block, parse_class, parse_class_like, parse_default, parse_expression, parse_function,
    parse_function_parameters, parse_item, parse_items, parse_module, parse_parameter,
    parse_parameter_list, parse_path, parse_path_tail, parse_statement, parse_statements,
    parse_terminated_statement, separator_of, skip_terminators,
};
use crate::parse::stream::TokenStream;
use crate::parse::token::TokenModel;
use vstd::prelude::*;

verus! {

impl TokenStream {
    /// Whether this stream is what is left of `whole` when some of its
    /// tokens have been read.
    pub open spec fn is_rest_of(self, whole: TokenStream) -> bool {
        &&& self.failure == whole.failure
        &&& self.len() <= whole.len()
        &&& self.tokens == whole.tokens.skip(whole.len() - self.len())
    }
}

/// A stream is the rest of itself, and so is what is left after one pull.
pub proof fn lemma_rest_of_tail(ts: TokenStream)
    ensures
        ts.is_rest_of(ts),
        ts.tail().is_rest_of(ts),
{
    assert(ts.tokens =~= ts.tokens.skip(0));
}

/// The rest of a rest is a rest.
pub proof fn lemma_rest_of_rest(last: TokenStream, middle: TokenStream, whole: TokenStream)
    requires
        last.is_rest_of(middle),
        middle.is_rest_of(whole),
    ensures
        last.is_rest_of(whole),
{
    assert(last.tokens =~= whole.tokens.skip(whole.len() - last.len()));
}

/// What is left after blank terminators are skipped is a rest.
pub proof fn lemma_skip_terminators_rest(ts: TokenStream)
    ensures
        skip_terminators(ts).is_rest_of(ts),
    decreases ts.len(),
{
    lemma_rest_of_tail(ts);
    if ts.len() > 0 && ts.tokens[0].is_break() {
        lemma_skip_terminators_rest(ts.tail());
        lemma_rest_of_rest(skip_terminators(ts.tail()), ts.tail(), ts);
    }
}

/// What the rules for paths leave is a rest.
pub proof fn lemma_path_rest(ts: TokenStream)
    ensures
        parse_path_tail(ts) matches Ok((_, rest)) ==> rest.is_rest_of(ts),
        parse_path(ts) matches Ok((_, rest)) ==> rest.is_rest_of(ts),
    decreases ts.len(),
{
    lemma_rest_of_tail(ts);
    if separator_of(ts.head()) is Some {
        if let Ok((text, after)) = expect_word(ts.tail()) {
            lemma_path_rest(after);
            if let Ok((more, rest)) = parse_path_tail(after) {
                lemma_rest_of_rest(rest, after, ts.tail());
                lemma_rest_of_rest(rest, ts.tail(), ts);
            }
        }
    }
    if let Ok((text, after)) = expect_word(ts) {
        lemma_path_rest(after);
        if let Ok((more, rest)) = parse_path_tail(after) {
            lemma_rest_of_rest(rest, after, ts);
        }
    }
}

/// What the rules for expressions leave is a rest.
pub proof fn lemma_expression_rest(ts: TokenStream)
    ensures
        parse_expression(ts) matches Ok((_, rest)) ==> rest.is_rest_of(ts),
        parse_argument(ts) matches Ok((_, rest)) ==> rest.is_rest_of(ts),
        parse_statement(ts) matches Ok((_, rest)) ==> rest.is_rest_of(ts),
        parse_terminated_statement(ts) matches Ok((_, rest)) ==> rest.is_rest_of(ts),
    decreases ts.len(), 0nat,
{
    lemma_rest_of_tail(ts);
    if let Ok(TokenModel::Word(_)) = lookahead(ts) {
        if let Ok((callee, after)) = parse_path(ts) {
            lemma_path_consumes(ts);
            lemma_path_rest(ts);
            lemma_arguments_rest(after);
            if let Ok((arguments, rest)) = parse_arguments(after) {
                lemma_rest_of_rest(rest, after, ts);
            }
        }
    }
    if let Ok((statement, after)) = parse_statement(ts) {
        lemma_rest_of_tail(after);
        lemma_rest_of_rest(after.tail(), after, ts);
    }
}

/// What the arguments of a call leave is a rest.
pub proof fn lemma_arguments_rest(ts: TokenStream)
    ensures
        parse_arguments(ts) matches Ok((_, rest)) ==> rest.is_rest_of(ts),
    decreases ts.len(), 3nat,
{
    lemma_rest_of_tail(ts);
    if let Ok(token) = lookahead(ts) {
        if token.starts_expression() {
            lemma_argument_list_rest(ts);
        }
    }
}

/// What a list of arguments leaves is a rest.
pub proof fn lemma_argument_list_rest(ts: TokenStream)
    ensures
        parse_argument_list(ts) matches Ok((_, rest)) ==> rest.is_rest_of(ts),
    decreases ts.len(), 2nat,
{
    lemma_expression_rest(ts);
    if let Ok((argument, after)) = parse_argument(ts) {
        if let Ok(token) = lookahead(after) {
            if after.len() >= ts.len() {
            } else if token == TokenModel::Symbol(","@) {
                lemma_rest_of_tail(after);
                lemma_argument_list_rest(after.tail());
                if let Ok((more, rest)) = parse_argument_list(after.tail()) {
                    lemma_rest_of_rest(rest, after.tail(), after);
                    lemma_rest_of_rest(rest, after, ts);
                }
            } else if token.starts_expression() {
                lemma_argument_list_rest(after);
                if let Ok((more, rest)) = parse_argument_list(after) {
                    lemma_rest_of_rest(rest, after, ts);
                }
            }
        }
    }
}

/// What the statements of a function body leave is a rest.
pub proof fn lemma_statements_rest(ts: TokenStream)
    ensures
        parse_statements(ts) matches Ok((_, rest)) ==> rest.is_rest_of(ts),
    decreases ts.len(),
{
    lemma_rest_of_tail(ts);
    if let Ok(token) = lookahead(ts) {
        if token != TokenModel::Word("end"@) {
            if let Ok((statement, after)) = parse_terminated_statement(ts) {
                lemma_expression_consumes(ts);
                lemma_expression_rest(ts);
                lemma_skip_terminators_rest(after);
                lemma_statements_rest(skip_terminators(after));
                if let Ok((more, rest)) = parse_statements(skip_terminators(after)) {
                    lemma_rest_of_rest(rest, skip_terminators(after), after);
                    lemma_rest_of_rest(rest, after, ts);
                }
            }
        }
    }
}

/// What the rules for parameters leave is a rest.
pub proof fn lemma_parameter_rest(ts: TokenStream)
    ensures
        parse_default(ts) matches Ok((_, rest)) ==> rest.is_rest_of(ts),
        parse_parameter(ts) matches Ok((_, rest)) ==> rest.is_rest_of(ts),
{
    if let Ok((name, after)) = expect_word(ts) {
        lemma_path_rest(after.tail());
        if let Ok((value, rest)) = parse_default(after.tail()) {
            lemma_rest_of_rest(rest, after.tail(), after);
            lemma_rest_of_rest(rest, after, ts);
        }
    }
}

/// What a list of parameters leaves is a rest.
pub proof fn lemma_parameter_list_rest(ts: TokenStream)
    ensures
        parse_parameter_list(ts) matches Ok((_, rest)) ==> rest.is_rest_of(ts),
    decreases ts.len(),
{
    lemma_parameter_rest(ts);
    if let Ok((parameter, after)) = parse_parameter(ts) {
        lemma_rest_of_tail(after);
        lemma_rest_of_rest(after.tail(), after, ts);
        if lookahead(after) == Ok::<TokenModel, ErrorModel>(TokenModel::Symbol(")"@)) {
        } else if lookahead(after) == Ok::<TokenModel, ErrorModel>(TokenModel::Symbol(","@)) {
            lemma_parameter_list_rest(after.tail());
            if let Ok((more, rest)) = parse_parameter_list(after.tail()) {
                lemma_rest_of_rest(rest, after.tail(), ts);
            }
        }
    }
}

/// What a function after its `def` leaves is a rest.
pub proof fn lemma_function_rest(ts: TokenStream)
    ensures
        parse_function_parameters(ts) matches Ok((_, rest)) ==> rest.is_rest_of(ts),
        parse_function(ts) matches Ok((_, rest)) ==> rest.is_rest_of(ts),
{
    lemma_rest_of_tail(ts);
    lemma_rest_of_tail(ts.tail());
    lemma_rest_of_rest(ts.tail().tail(), ts.tail(), ts);
    lemma_parameter_list_rest(ts.tail());
    if let Ok((list, rest)) = parse_parameter_list(ts.tail()) {
        lemma_rest_of_rest(rest, ts.tail(), ts);
    }
    if let Ok((name, after_name)) = expect_word(ts) {
        lemma_rest_of_tail(after_name.tail());
        lemma_rest_of_rest(after_name.tail().tail(), after_name.tail(), after_name);
        lemma_parameter_list_rest(after_name.tail());
        if let Ok((list, rest)) = parse_parameter_list(after_name.tail()) {
            lemma_rest_of_rest(rest, after_name.tail(), after_name);
        }
        if let Ok((parameters, after_parameters)) = parse_function_parameters(after_name) {
            lemma_rest_of_rest(after_parameters, after_name, ts);
            if let Ok((_, body)) = expect_terminator(after_parameters) {
                lemma_rest_of_tail(after_parameters);
                lemma_rest_of_rest(body, after_parameters, ts);
                lemma_skip_terminators_rest(body);
                lemma_rest_of_rest(skip_terminators(body), body, ts);
                lemma_statements_rest(skip_terminators(body));
                if let Ok((statements, at_end)) = parse_statements(skip_terminators(body)) {
                    lemma_rest_of_rest(at_end, skip_terminators(body), ts);
                    lemma_rest_of_tail(at_end);
                    lemma_rest_of_rest(at_end.tail(), at_end, ts);
                }
            }
        }
    }
}

/// What an item leaves is a rest.
pub proof fn lemma_item_rest(ts: TokenStream)
    ensures
        parse_item(ts) matches Ok((_, rest)) ==> rest.is_rest_of(ts),
    decreases ts.len(), 0nat,
{
    lemma_rest_of_tail(ts);
    if let Ok(token) = lookahead(ts) {
        if token == TokenModel::Word("class"@) || token == TokenModel::Word("module"@) {
            lemma_class_like_rest(ts.tail());
            if let Ok((class, after)) = parse_class_like(ts.tail()) {
                lemma_rest_of_rest(after, ts.tail(), ts);
                lemma_rest_of_tail(after);
                lemma_rest_of_rest(after.tail(), after, ts);
            }
        } else if token == TokenModel::Word("def"@) {
            lemma_function_rest(ts.tail());
            if let Ok((function, after)) = parse_function(ts.tail()) {
                lemma_rest_of_rest(after, ts.tail(), ts);
                lemma_rest_of_tail(after);
                lemma_rest_of_rest(after.tail(), after, ts);
            }
        } else {
            lemma_expression_rest(ts);
        }
    }
}

/// What a list of items leaves is a rest.
pub proof fn lemma_items_rest(ts: TokenStream, closer: TokenModel)
    ensures
        parse_items(ts, closer) matches Ok((_, rest)) ==> rest.is_rest_of(ts),
    decreases ts.len(), 1nat,
{
    lemma_rest_of_tail(ts);
    if let Ok(token) = lookahead(ts) {
        if token != closer {
            lemma_item_consumes(ts);
            lemma_item_rest(ts);
            if let Ok((item, after)) = parse_item(ts) {
                lemma_skip_terminators_rest(after);
                lemma_items_rest(skip_terminators(after), closer);
                if let Ok((more, rest)) = parse_items(skip_terminators(after), closer) {
                    lemma_rest_of_rest(rest, skip_terminators(after), after);
                    lemma_rest_of_rest(rest, after, ts);
                }
            }
        }
    }
}

/// What a class or a module after its keyword leaves is a rest.
pub proof fn lemma_class_like_rest(ts: TokenStream)
    ensures
        parse_class_like(ts) matches Ok((_, rest)) ==> rest.is_rest_of(ts),
        parse_class(ts) matches Ok((_, rest)) ==> rest.is_rest_of(ts),
        parse_module(ts) matches Ok((_, rest)) ==> rest.is_rest_of(ts),
    decreases ts.len(), 3nat,
{
    if let Ok((name, after_name)) = expect_word(ts) {
        lemma_rest_of_tail(after_name);
        if let Ok((_, body)) = expect_terminator(after_name) {
            lemma_rest_of_rest(body, after_name, ts);
            lemma_block_rest(body);
            if let Ok((items, rest)) = parse_block(body) {
                lemma_rest_of_rest(rest, body, ts);
            }
        }
    }
}

/// What a block leaves is a rest.
pub proof fn lemma_block_rest(ts: TokenStream)
    ensures
        parse_block(ts) matches Ok((_, rest)) ==> rest.is_rest_of(ts),
    decreases ts.len(), 2nat,
{
    lemma_skip_terminators_rest(ts);
    lemma_items_rest(skip_terminators(ts), TokenModel::Word("end"@));
    if let Ok((items, at_end)) = parse_items(skip_terminators(ts), TokenModel::Word("end"@)) {
        lemma_rest_of_rest(at_end, skip_terminators(ts), ts);
        lemma_rest_of_tail(at_end);
        lemma_rest_of_rest(at_end.tail(), at_end, ts);
    }
}

} // verus!
