//! The two terminators are interchangeable: which of a line break and a
//! semicolon stands where in the tokens makes no difference to what the
//! parser gives.

use crate::parse::error::ErrorModel;
use crate::parse::grammar::{
    expect_terminator, expect_word, lemma_expression_consumes, lemma_item_consumes,
    lemma_parameter_consumes, lemma_path_consumes, lemma_skip_terminators_len, lookahead,
    parse_argument, parse_argument_list, parse_arguments, parse_block, parse_class,
    parse_class_like, parse_default, parse_expression, parse_function,
    parse_function_parameters, parse_item, parse_items, parse_module, parse_parameter,
    parse_parameter_list, parse_path, parse_path_tail, parse_program, parse_statement,
    parse_statements, parse_terminated_statement, separator_of, skip_terminators, Parsed,
};
use crate::parse::lexical::tokenize;
use crate::parse::stream::TokenStream;
use crate::parse::token::TokenModel;
use vstd::prelude::*;

verus! {

/// The token, with a line break in the place of a semicolon.
pub open spec fn as_line_break(token: TokenModel) -> TokenModel {
    if token == TokenModel::Symbol(";"@) {
        TokenModel::EndOfLine
    } else {
        token
    }
}

/// Whether two streams differ at most in which of the two terminators stands
/// where.
pub open spec fn alike(a: TokenStream, b: TokenStream) -> bool {
    &&& a.failure == b.failure
    &&& a.len() == b.len()
    &&& forall|i: int|
        0 <= i < a.len() ==> as_line_break(#[trigger] a.tokens[i]) == as_line_break(b.tokens[i])
}

/// Whether two errors differ at most in which of the two terminators was
/// found.
pub open spec fn alike_errors(a: ErrorModel, b: ErrorModel) -> bool {
    match (a, b) {
        (
            ErrorModel::UnexpectedToken { found, expected },
            ErrorModel::UnexpectedToken { found: other, expected: same },
        ) => as_line_break(found) == as_line_break(other) && expected == same,
        _ => a == b,
    }
}

/// Whether a rule gave the same for two streams: the same value and rests
/// that are alike, or errors that are alike.
pub open spec fn alike_parsed<T>(a: Parsed<T>, b: Parsed<T>) -> bool {
    match (a, b) {
        (Ok((value, rest)), Ok((same, other))) => value == same && alike(rest, other),
        (Err(error), Err(other)) => alike_errors(error, other),
        _ => false,
    }
}

/// The symbols and the terminators are different tokens.
proof fn lemma_symbols_differ()
    ensures
        !TokenModel::Symbol("("@).is_break(),
        !TokenModel::Symbol(")"@).is_break(),
        !TokenModel::Symbol(","@).is_break(),
        !TokenModel::Symbol("="@).is_break(),
        !TokenModel::Symbol("::"@).is_break(),
        !TokenModel::Symbol("."@).is_break(),
{
    reveal_strlit(";");
    reveal_strlit("(");
    reveal_strlit(")");
    reveal_strlit(",");
    reveal_strlit("=");
    reveal_strlit("::");
    reveal_strlit(".");
    assert(";"@[0] == ';' && "("@[0] == '(' && ")"@[0] == ')' && ","@[0] == ',');
    assert("="@[0] == '=' && "."@[0] == '.' && "::"@.len() == 2 && ";"@.len() == 1);
}

/// Streams that are alike give tokens that are alike, and stay alike.
proof fn lemma_alike_step(a: TokenStream, b: TokenStream)
    requires
        alike(a, b),
    ensures
        alike(a.tail(), b.tail()),
        match (lookahead(a), lookahead(b)) {
            (Ok(token), Ok(other)) => as_line_break(token) == as_line_break(other),
            (Err(error), Err(other)) => error == other,
            _ => false,
        },
        separator_of(a.head()) == separator_of(b.head()),
{
    lemma_symbols_differ();
    if a.len() > 0 {
        assert(as_line_break(a.tokens[0]) == as_line_break(b.tokens[0]));
        assert forall|i: int| 0 <= i < a.tail().len() implies as_line_break(
            #[trigger] a.tail().tokens[i],
        ) == as_line_break(b.tail().tokens[i]) by {
            assert(as_line_break(a.tokens[i + 1]) == as_line_break(b.tokens[i + 1]));
        }
    }
}

/// Skipping blank terminators keeps streams alike.
proof fn lemma_skip_alike(a: TokenStream, b: TokenStream)
    requires
        alike(a, b),
    ensures
        alike(skip_terminators(a), skip_terminators(b)),
    decreases a.len(),
{
    lemma_alike_step(a, b);
    if a.len() > 0 && a.tokens[0].is_break() {
        lemma_skip_alike(a.tail(), b.tail());
    }
}

/// The rules for single tokens give the same.
proof fn lemma_expect_alike(a: TokenStream, b: TokenStream)
    requires
        alike(a, b),
    ensures
        alike_parsed(expect_word(a), expect_word(b)),
        alike_parsed(expect_terminator(a), expect_terminator(b)),
{
    lemma_alike_step(a, b);
}

/// The rules for paths give the same.
proof fn lemma_path_alike(a: TokenStream, b: TokenStream)
    requires
        alike(a, b),
    ensures
        alike_parsed(parse_path_tail(a), parse_path_tail(b)),
        alike_parsed(parse_path(a), parse_path(b)),
    decreases a.len(),
{
    lemma_alike_step(a, b);
    lemma_expect_alike(a, b);
    if separator_of(a.head()) is Some {
        lemma_expect_alike(a.tail(), b.tail());
        if let Ok((text, after)) = expect_word(a.tail()) {
            if let Ok((same, other)) = expect_word(b.tail()) {
                lemma_path_alike(after, other);
            }
        }
    }
    if let Ok((text, after)) = expect_word(a) {
        if let Ok((same, other)) = expect_word(b) {
            lemma_path_alike(after, other);
        }
    }
}

/// The rules for expressions give the same.
proof fn lemma_expression_alike(a: TokenStream, b: TokenStream)
    requires
        alike(a, b),
    ensures
        alike_parsed(parse_expression(a), parse_expression(b)),
        alike_parsed(parse_argument(a), parse_argument(b)),
        alike_parsed(parse_statement(a), parse_statement(b)),
        alike_parsed(parse_terminated_statement(a), parse_terminated_statement(b)),
    decreases a.len(), 0nat,
{
    lemma_alike_step(a, b);
    lemma_path_alike(a, b);
    if let Ok(TokenModel::Word(_)) = lookahead(a) {
        if let Ok((callee, after)) = parse_path(a) {
            if let Ok((same, other)) = parse_path(b) {
                lemma_path_consumes(a);
                lemma_arguments_alike(after, other);
            }
        }
    }
    if let Ok((statement, after)) = parse_statement(a) {
        if let Ok((same, other)) = parse_statement(b) {
            lemma_expect_alike(after, other);
        }
    }
}

/// The arguments of a call are the same.
proof fn lemma_arguments_alike(a: TokenStream, b: TokenStream)
    requires
        alike(a, b),
    ensures
        alike_parsed(parse_arguments(a), parse_arguments(b)),
    decreases a.len(), 3nat,
{
    lemma_alike_step(a, b);
    if let Ok(token) = lookahead(a) {
        if token.starts_expression() {
            lemma_argument_list_alike(a, b);
        }
    }
}

/// A list of arguments is the same.
proof fn lemma_argument_list_alike(a: TokenStream, b: TokenStream)
    requires
        alike(a, b),
    ensures
        alike_parsed(parse_argument_list(a), parse_argument_list(b)),
    decreases a.len(), 2nat,
{
    lemma_symbols_differ();
    lemma_expression_alike(a, b);
    lemma_expression_consumes(a);
    lemma_expression_consumes(b);
    if let Ok((argument, after)) = parse_argument(a) {
        if let Ok((same, other)) = parse_argument(b) {
            lemma_alike_step(after, other);
            if let Ok(token) = lookahead(after) {
                if after.len() >= a.len() {
                } else if token == TokenModel::Symbol(","@) {
                    lemma_argument_list_alike(after.tail(), other.tail());
                } else if token.starts_expression() {
                    lemma_argument_list_alike(after, other);
                }
            }
        }
    }
}

/// The statements of a function body are the same.
proof fn lemma_statements_alike(a: TokenStream, b: TokenStream)
    requires
        alike(a, b),
    ensures
        alike_parsed(parse_statements(a), parse_statements(b)),
    decreases a.len(),
{
    lemma_alike_step(a, b);
    lemma_expression_alike(a, b);
    if let Ok(token) = lookahead(a) {
        if token != TokenModel::Word("end"@) {
            if let Ok((statement, after)) = parse_terminated_statement(a) {
                if let Ok((same, other)) = parse_terminated_statement(b) {
                    lemma_expression_consumes(a);
                    lemma_skip_terminators_len(after);
                    lemma_skip_alike(after, other);
                    lemma_statements_alike(skip_terminators(after), skip_terminators(other));
                }
            }
        }
    }
}

/// The rules for parameters give the same.
proof fn lemma_parameter_alike(a: TokenStream, b: TokenStream)
    requires
        alike(a, b),
    ensures
        alike_parsed(parse_default(a), parse_default(b)),
        alike_parsed(parse_parameter(a), parse_parameter(b)),
{
    lemma_symbols_differ();
    lemma_alike_step(a, b);
    lemma_path_alike(a, b);
    lemma_expect_alike(a, b);
    if let Ok((name, after)) = expect_word(a) {
        if let Ok((same, other)) = expect_word(b) {
            lemma_alike_step(after, other);
            lemma_alike_step(after.tail(), other.tail());
            lemma_path_alike(after.tail(), other.tail());
        }
    }
}

/// A list of parameters is the same.
proof fn lemma_parameter_list_alike(a: TokenStream, b: TokenStream)
    requires
        alike(a, b),
    ensures
        alike_parsed(parse_parameter_list(a), parse_parameter_list(b)),
    decreases a.len(),
{
    lemma_symbols_differ();
    lemma_parameter_alike(a, b);
    lemma_parameter_consumes(a);
    if let Ok((parameter, after)) = parse_parameter(a) {
        if let Ok((same, other)) = parse_parameter(b) {
            lemma_alike_step(after, other);
            if lookahead(after) == Ok::<TokenModel, ErrorModel>(TokenModel::Symbol(","@)) {
                lemma_parameter_list_alike(after.tail(), other.tail());
            }
        }
    }
}

/// A function after its `def` is the same.
proof fn lemma_function_alike(a: TokenStream, b: TokenStream)
    requires
        alike(a, b),
    ensures
        alike_parsed(parse_function_parameters(a), parse_function_parameters(b)),
        alike_parsed(parse_function(a), parse_function(b)),
{
    lemma_symbols_differ();
    lemma_alike_step(a, b);
    lemma_alike_step(a.tail(), b.tail());
    lemma_alike_step(a.tail().tail(), b.tail().tail());
    lemma_parameter_list_alike(a.tail(), b.tail());
    lemma_expect_alike(a, b);
    if let Ok((name, after_name)) = expect_word(a) {
        if let Ok((same, other_name)) = expect_word(b) {
            lemma_alike_step(after_name, other_name);
            lemma_alike_step(after_name.tail(), other_name.tail());
            lemma_alike_step(after_name.tail().tail(), other_name.tail().tail());
            lemma_parameter_list_alike(after_name.tail(), other_name.tail());
            if let Ok((parameters, after)) = parse_function_parameters(after_name) {
                if let Ok((same, other)) = parse_function_parameters(other_name) {
                    lemma_expect_alike(after, other);
                    lemma_alike_step(after, other);
                    lemma_skip_alike(after.tail(), other.tail());
                    lemma_statements_alike(
                        skip_terminators(after.tail()),
                        skip_terminators(other.tail()),
                    );
                    if let Ok((statements, at_end)) = parse_statements(
                        skip_terminators(after.tail()),
                    ) {
                        if let Ok((same, other_end)) = parse_statements(
                            skip_terminators(other.tail()),
                        ) {
                            lemma_alike_step(at_end, other_end);
                        }
                    }
                }
            }
        }
    }
}

/// An item is the same.
proof fn lemma_item_alike(a: TokenStream, b: TokenStream)
    requires
        alike(a, b),
    ensures
        alike_parsed(parse_item(a), parse_item(b)),
    decreases a.len(), 0nat,
{
    lemma_alike_step(a, b);
    if let Ok(token) = lookahead(a) {
        if token == TokenModel::Word("class"@) || token == TokenModel::Word("module"@) {
            lemma_class_like_alike(a.tail(), b.tail());
            if let Ok((class, after)) = parse_class_like(a.tail()) {
                if let Ok((same, other)) = parse_class_like(b.tail()) {
                    lemma_expect_alike(after, other);
                }
            }
        } else if token == TokenModel::Word("def"@) {
            lemma_function_alike(a.tail(), b.tail());
            if let Ok((function, after)) = parse_function(a.tail()) {
                if let Ok((same, other)) = parse_function(b.tail()) {
                    lemma_expect_alike(after, other);
                }
            }
        } else {
            lemma_expression_alike(a, b);
        }
    }
}

/// A list of items is the same.
proof fn lemma_items_alike(a: TokenStream, b: TokenStream, closer: TokenModel)
    requires
        alike(a, b),
        !closer.is_break(),
    ensures
        alike_parsed(parse_items(a, closer), parse_items(b, closer)),
    decreases a.len(), 1nat,
{
    lemma_alike_step(a, b);
    if let Ok(token) = lookahead(a) {
        if token != closer {
            lemma_item_consumes(a);
            lemma_item_consumes(b);
            lemma_item_alike(a, b);
            if let Ok((item, after)) = parse_item(a) {
                if let Ok((same, other)) = parse_item(b) {
                    lemma_skip_terminators_len(after);
                    lemma_skip_alike(after, other);
                    lemma_items_alike(skip_terminators(after), skip_terminators(other), closer);
                }
            }
        }
    }
}

/// A class or a module after its keyword is the same.
proof fn lemma_class_like_alike(a: TokenStream, b: TokenStream)
    requires
        alike(a, b),
    ensures
        alike_parsed(parse_class_like(a), parse_class_like(b)),
        alike_parsed(parse_class(a), parse_class(b)),
        alike_parsed(parse_module(a), parse_module(b)),
    decreases a.len(), 3nat,
{
    lemma_expect_alike(a, b);
    if let Ok((name, after_name)) = expect_word(a) {
        if let Ok((same, other_name)) = expect_word(b) {
            lemma_expect_alike(after_name, other_name);
            if let Ok((_, body)) = expect_terminator(after_name) {
                if let Ok((_, other)) = expect_terminator(other_name) {
                    lemma_block_alike(body, other);
                }
            }
        }
    }
}

/// A block is the same.
proof fn lemma_block_alike(a: TokenStream, b: TokenStream)
    requires
        alike(a, b),
    ensures
        alike_parsed(parse_block(a), parse_block(b)),
    decreases a.len(), 2nat,
{
    let end = TokenModel::Word("end"@);
    lemma_skip_terminators_len(a);
    lemma_skip_alike(a, b);
    lemma_items_alike(skip_terminators(a), skip_terminators(b), end);
    if let Ok((items, at_end)) = parse_items(skip_terminators(a), end) {
        if let Ok((same, other)) = parse_items(skip_terminators(b), end) {
            lemma_alike_step(at_end, other);
        }
    }
}

/// The two terminators are interchangeable: where the tokens of two
/// programs differ only in which terminator stands where, a line break or a
/// semicolon, the parser gives the same tree for both, or fails on both, with
/// the same error but for the terminator that it names.
pub proof fn lemma_terminators_are_interchangeable(a: TokenStream, b: TokenStream)
    requires
        alike(a, b),
    ensures
        match (parse_program(a), parse_program(b)) {
            (Ok(tree), Ok(other)) => tree == other,
            (Err(error), Err(other)) => alike_errors(error, other),
            _ => false,
        },
{
    lemma_skip_alike(a, b);
    lemma_items_alike(skip_terminators(a), skip_terminators(b), TokenModel::EndOfFile);
}

/// So two inputs whose tokens differ only in which terminator stands
/// where are the same program.
pub proof fn lemma_terminators_are_interchangeable_in_source(first: Seq<char>, second: Seq<char>)
    requires
        alike(tokenize(first), tokenize(second)),
    ensures
        match (parse_program(tokenize(first)), parse_program(tokenize(second))) {
            (Ok(tree), Ok(other)) => tree == other,
            (Err(error), Err(other)) => alike_errors(error, other),
            _ => false,
        },
{
    lemma_terminators_are_interchangeable(tokenize(first), tokenize(second));
}

} // verus!
