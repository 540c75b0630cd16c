//! The grammar, as functions on token streams.
//!
//! ```text
//! Program    := Item* EndOfFile
//! Item       := (ClassDecl | ModuleDecl | FuncDecl | Stmt) Terminator
//! ClassDecl  := "class" Word Terminator Item* "end"
//! ModuleDecl := "module" Word Terminator Item* "end"
//! FuncDecl   := "def" Word ParamList? Terminator (Stmt Terminator)* "end"
//! ParamList  := "(" (Param ("," Param)*)? ")"
//! Param      := Word ("=" (StringLiteral | Path))?
//! Stmt       := Expr
//! Expr       := CallExpr | StringLiteral
//! CallExpr   := Path (Expr (","? Expr)*)?
//! Path       := Word (("." | "::") Word)*
//! Terminator := EndOfLine | ";" | EndOfFile
//! ```
//!
//! A call has arguments where an expression comes next after its path, and
//! as many as follow one another, with or without a comma between two. They
//! never reach past a terminator, which is not one of them: it ends the
//! statement or the item that the call stands in. So one terminator follows
//! every item and every statement.
//!
//! Blank terminators, that is line breaks and semicolons that end nothing,
//! are skipped before the first item of a program or a block and after every
//! item, and likewise around the statements of a function. So the two
//! terminators are interchangeable wherever they stand. A word is a keyword
//! only where an item starts.
//!
//! Each function takes the stream that is still to be read and gives either
//! what it has read, with the stream that is left, or the first error.

use super::error::{ErrorModel, LexFailure};
use super::stream::TokenStream;
use super::token::TokenModel;
use crate::ast::{
    ArgumentModel, CallExprModel, ClassModel, ExprModel, FunctionModel, ItemModel, ModuleModel,
    ParameterModel, PathModel, PathSegmentKindModel, PathSegmentModel, PathSeparator,
    ProgramModel, StmtModel,
};
use vstd::prelude::*;

verus! {

/// What a rule of the grammar gives: what it has read and the stream that is
/// left, or the first error.
pub type Parsed<T> = Result<(T, TokenStream), ErrorModel>;

/// The name and the items of a class or a module.
pub struct ClassLikeModel {
    pub name: Seq<char>,
    pub items: Seq<ItemModel>,
}

/// `parsed`, with `first` put before what it has read.
pub open spec fn prepend<T>(first: T, parsed: Parsed<Seq<T>>) -> Parsed<Seq<T>> {
    extend(seq![first], parsed)
}

/// `parsed`, with `before` put before what it has read.
pub open spec fn extend<T>(before: Seq<T>, parsed: Parsed<Seq<T>>) -> Parsed<Seq<T>> {
    match parsed {
        Ok((items, rest)) => Ok((before + items, rest)),
        Err(error) => Err(error),
    }
}

/// What the parser sees when it looks at the next token: the token, or the
/// lexical error in its place.
pub open spec fn lookahead(ts: TokenStream) -> Result<TokenModel, ErrorModel> {
    match ts.head() {
        Ok(token) => Ok(token),
        Err(failure) => Err(ErrorModel::LexError(failure)),
    }
}

/// The stream without the blank terminators that it starts with: the line
/// breaks and semicolons that end nothing.
pub open spec fn skip_terminators(ts: TokenStream) -> TokenStream
    decreases ts.len(),
{
    if ts.len() > 0 && ts.tokens[0].is_break() {
        skip_terminators(ts.tail())
    } else {
        ts
    }
}

/// Reads one token, which has to be a word, and gives its text.
pub open spec fn expect_word(ts: TokenStream) -> Parsed<Seq<char>> {
    match lookahead(ts) {
        Err(error) => Err(error),
        Ok(TokenModel::Word(text)) => Ok((text, ts.tail())),
        Ok(token) => Err(ErrorModel::word_expected(token)),
    }
}

/// Reads one token, which has to be a terminator.
pub open spec fn expect_terminator(ts: TokenStream) -> Parsed<()> {
    match lookahead(ts) {
        Err(error) => Err(error),
        Ok(token) => if token.is_terminator() {
            Ok(((), ts.tail()))
        } else {
            Err(ErrorModel::terminator_expected(token))
        },
    }
}

/// The separator that a lexeme stands for, if it is one.
pub open spec fn separator_of(lexeme: Result<TokenModel, LexFailure>) -> Option<PathSeparator> {
    if lexeme == Ok::<TokenModel, LexFailure>(TokenModel::Symbol("::"@)) {
        Some(PathSeparator::DoubleColon)
    } else if lexeme == Ok::<TokenModel, LexFailure>(TokenModel::Symbol("."@)) {
        Some(PathSeparator::Dot)
    } else {
        None
    }
}

/// The segment for the name `text` after `separator`.
pub open spec fn segment(separator: PathSeparator, text: Seq<char>) -> PathSegmentModel {
    PathSegmentModel { kind: PathSegmentKindModel::of(text), separator }
}

/// Reads the segments of a path after its first: as long as a separator
/// comes next, the separator and a word.
pub open spec fn parse_path_tail(ts: TokenStream) -> Parsed<Seq<PathSegmentModel>>
    decreases ts.len(),
{
    match separator_of(ts.head()) {
        None => Ok((Seq::empty(), ts)),
        Some(separator) => match expect_word(ts.tail()) {
            Err(error) => Err(error),
            Ok((text, rest)) => prepend(segment(separator, text), parse_path_tail(rest)),
        },
    }
}

/// Reads a path: a word, and as many pairs of a separator and a word as
/// follow it.
pub open spec fn parse_path(ts: TokenStream) -> Parsed<PathModel> {
    match expect_word(ts) {
        Err(error) => Err(error),
        Ok((text, rest)) => match parse_path_tail(rest) {
            Err(error) => Err(error),
            Ok((more, rest)) => Ok(
                (PathModel { parts: seq![segment(PathSeparator::Root, text)] + more }, rest),
            ),
        },
    }
}

/// Reads an expression: a path with its arguments, or a string literal.
pub open spec fn parse_expression(ts: TokenStream) -> Parsed<ExprModel>
    decreases ts.len(), 0nat,
{
    match lookahead(ts) {
        Err(error) => Err(error),
        Ok(TokenModel::Word(_)) => match parse_path(ts) {
            Err(error) => Err(error),
            Ok((callee, rest)) => {
                proof {
                    lemma_path_consumes(ts);
                }
                match parse_arguments(rest) {
                    Err(error) => Err(error),
                    Ok((arguments, rest)) => Ok(
                        (ExprModel::Call(CallExprModel { callee, arguments }), rest),
                    ),
                }
            },
        },
        Ok(TokenModel::String(text)) => Ok((ExprModel::StringLiteral(text), ts.tail())),
        Ok(token) => Err(ErrorModel::expression_expected(token)),
    }
}

/// Reads the arguments of a call: those that follow if an expression comes
/// next, and none if anything else does, which is left unread.
pub open spec fn parse_arguments(ts: TokenStream) -> Parsed<Seq<ArgumentModel>>
    decreases ts.len(), 3nat,
{
    match lookahead(ts) {
        Err(error) => Err(error),
        Ok(token) => if token.starts_expression() {
            parse_argument_list(ts)
        } else {
            Ok((Seq::empty(), ts))
        },
    }
}

/// Reads one argument or more: an expression, and as many more as
/// follow, each after a comma or right after the one before it. After a
/// comma an argument has to follow. What comes after the last argument is
/// left unread.
///
/// The test that an argument has used up a token never fails (see
/// `lemma_expression_consumes`); the definition needs it to be well founded.
pub open spec fn parse_argument_list(ts: TokenStream) -> Parsed<Seq<ArgumentModel>>
    decreases ts.len(), 2nat,
{
    match parse_argument(ts) {
        Err(error) => Err(error),
        Ok((argument, rest)) => match lookahead(rest) {
            Err(error) => Err(error),
            Ok(token) => if rest.len() >= ts.len() {
                Ok((seq![argument], rest))
            } else if token == TokenModel::Symbol(","@) {
                prepend(argument, parse_argument_list(rest.tail()))
            } else if token.starts_expression() {
                prepend(argument, parse_argument_list(rest))
            } else {
                Ok((seq![argument], rest))
            },
        },
    }
}

/// Reads one argument: an expression.
pub open spec fn parse_argument(ts: TokenStream) -> Parsed<ArgumentModel>
    decreases ts.len(), 1nat,
{
    match parse_expression(ts) {
        Err(error) => Err(error),
        Ok((value, rest)) => Ok((ArgumentModel::Positional(value), rest)),
    }
}

/// Reads a statement: an expression.
pub open spec fn parse_statement(ts: TokenStream) -> Parsed<StmtModel> {
    match parse_expression(ts) {
        Err(error) => Err(error),
        Ok((expr, rest)) => Ok((StmtModel::Expr(expr), rest)),
    }
}

/// Reads a statement and the terminator after it.
pub open spec fn parse_terminated_statement(ts: TokenStream) -> Parsed<StmtModel> {
    match parse_statement(ts) {
        Err(error) => Err(error),
        Ok((statement, rest)) => match expect_terminator(rest) {
            Err(error) => Err(error),
            Ok((_, rest)) => Ok((statement, rest)),
        },
    }
}

/// Reads the statements of a function body, each with its terminator and
/// the blank terminators after it, up to the `end`, which is left unread.
pub open spec fn parse_statements(ts: TokenStream) -> Parsed<Seq<StmtModel>>
    decreases ts.len(),
{
    match lookahead(ts) {
        Err(error) => Err(error),
        Ok(token) => if token == TokenModel::Word("end"@) {
            Ok((Seq::empty(), ts))
        } else {
            match parse_terminated_statement(ts) {
                Err(error) => Err(error),
                Ok((statement, rest)) => {
                    proof {
                        lemma_expression_consumes(ts);
                        lemma_skip_terminators_len(rest);
                    }
                    prepend(statement, parse_statements(skip_terminators(rest)))
                },
            }
        },
    }
}

/// Reads the default value of a parameter: a string literal, or a path,
/// which stands for a call without arguments.
pub open spec fn parse_default(ts: TokenStream) -> Parsed<ExprModel> {
    match lookahead(ts) {
        Err(error) => Err(error),
        Ok(TokenModel::Word(_)) => match parse_path(ts) {
            Err(error) => Err(error),
            Ok((callee, rest)) => Ok(
                (ExprModel::Call(CallExprModel { callee, arguments: Seq::empty() }), rest),
            ),
        },
        Ok(TokenModel::String(text)) => Ok((ExprModel::StringLiteral(text), ts.tail())),
        Ok(token) => Err(ErrorModel::expression_expected(token)),
    }
}

/// Reads one parameter: a name and, after a `=`, its default value.
pub open spec fn parse_parameter(ts: TokenStream) -> Parsed<ParameterModel> {
    match expect_word(ts) {
        Err(error) => Err(error),
        Ok((name, rest)) => if rest.head() == Ok::<TokenModel, LexFailure>(
            TokenModel::Symbol("="@),
        ) {
            match parse_default(rest.tail()) {
                Err(error) => Err(error),
                Ok((value, rest)) => Ok((ParameterModel { name, default: Some(value) }, rest)),
            }
        } else {
            Ok((ParameterModel { name, default: None }, rest))
        },
    }
}

/// Reads one parameter or more, with a comma between two, and the `)` that
/// ends them.
pub open spec fn parse_parameter_list(ts: TokenStream) -> Parsed<Seq<ParameterModel>>
    decreases ts.len(),
{
    match parse_parameter(ts) {
        Err(error) => Err(error),
        Ok((parameter, rest)) => match lookahead(rest) {
            Err(error) => Err(error),
            Ok(token) => if token == TokenModel::Symbol(")"@) {
                Ok((seq![parameter], rest.tail()))
            } else if token == TokenModel::Symbol(","@) {
                proof {
                    lemma_parameter_consumes(ts);
                }
                prepend(parameter, parse_parameter_list(rest.tail()))
            } else {
                Err(ErrorModel::parameter_end_expected(token))
            },
        },
    }
}

/// Reads the parameter list of a function, if one comes next: what stands
/// between `(` and `)`. Without a `(`, nothing is read.
pub open spec fn parse_function_parameters(ts: TokenStream) -> Parsed<Seq<ParameterModel>> {
    match lookahead(ts) {
        Err(error) => Err(error),
        Ok(token) => if token == TokenModel::Symbol("("@) {
            if ts.tail().head() == Ok::<TokenModel, LexFailure>(TokenModel::Symbol(")"@)) {
                Ok((Seq::empty(), ts.tail().tail()))
            } else {
                parse_parameter_list(ts.tail())
            }
        } else {
            Ok((Seq::empty(), ts))
        },
    }
}

/// Reads a function after its `def`: the name, the parameters, a terminator,
/// the statements and the `end`.
pub open spec fn parse_function(ts: TokenStream) -> Parsed<FunctionModel> {
    match expect_word(ts) {
        Err(error) => Err(error),
        Ok((name, rest)) => match parse_function_parameters(rest) {
            Err(error) => Err(error),
            Ok((parameters, rest)) => match expect_terminator(rest) {
                Err(error) => Err(error),
                Ok((_, rest)) => match parse_statements(skip_terminators(rest)) {
                    Err(error) => Err(error),
                    Ok((statements, rest)) => Ok(
                        (FunctionModel { name, parameters, statements }, rest.tail()),
                    ),
                },
            },
        },
    }
}

/// Reads items, with the blank terminators after each, up to the token `closer`,
/// which is left unread.
///
/// The test that an item has used up a token never fails (see
/// `lemma_item_consumes`); the definition needs it to be well founded.
pub open spec fn parse_items(ts: TokenStream, closer: TokenModel) -> Parsed<Seq<ItemModel>>
    decreases ts.len(), 1nat,
{
    match lookahead(ts) {
        Err(error) => Err(error),
        Ok(token) => if token == closer {
            Ok((Seq::empty(), ts))
        } else {
            match parse_item(ts) {
                Err(error) => Err(error),
                Ok((item, rest)) => if rest.len() < ts.len() {
                    proof {
                        lemma_skip_terminators_len(rest);
                    }
                    prepend(item, parse_items(skip_terminators(rest), closer))
                } else {
                    Ok((seq![item], rest))
                },
            }
        },
    }
}

/// Reads one item and the terminator after it. The item is a class, a
/// module or a function where the word that comes next says so, and a
/// statement for any other token.
pub open spec fn parse_item(ts: TokenStream) -> Parsed<ItemModel>
    decreases ts.len(), 0nat,
{
    match lookahead(ts) {
        Err(error) => Err(error),
        Ok(token) => {
            let item: Parsed<ItemModel> = if token == TokenModel::Word("class"@) {
                match parse_class(ts.tail()) {
                    Err(error) => Err(error),
                    Ok((class, rest)) => Ok((ItemModel::Class(class), rest)),
                }
            } else if token == TokenModel::Word("module"@) {
                match parse_module(ts.tail()) {
                    Err(error) => Err(error),
                    Ok((module, rest)) => Ok((ItemModel::Module(module), rest)),
                }
            } else if token == TokenModel::Word("def"@) {
                match parse_function(ts.tail()) {
                    Err(error) => Err(error),
                    Ok((function, rest)) => Ok((ItemModel::Function(function), rest)),
                }
            } else {
                match parse_statement(ts) {
                    Err(error) => Err(error),
                    Ok((statement, rest)) => Ok((ItemModel::Stmt(statement), rest)),
                }
            };
            match item {
                Err(error) => Err(error),
                Ok((item, rest)) => match expect_terminator(rest) {
                    Err(error) => Err(error),
                    Ok((_, rest)) => Ok((item, rest)),
                },
            }
        },
    }
}

/// Reads a class after its keyword. No rule of the grammar gives it a
/// parent class.
pub open spec fn parse_class(ts: TokenStream) -> Parsed<ClassModel>
    decreases ts.len(), 4nat,
{
    match parse_class_like(ts) {
        Err(error) => Err(error),
        Ok((class, rest)) => Ok(
            (ClassModel { name: class.name, items: class.items, superclass: None }, rest),
        ),
    }
}

/// Reads a module after its keyword.
pub open spec fn parse_module(ts: TokenStream) -> Parsed<ModuleModel>
    decreases ts.len(), 4nat,
{
    match parse_class_like(ts) {
        Err(error) => Err(error),
        Ok((module, rest)) => Ok((ModuleModel { name: module.name, items: module.items }, rest)),
    }
}

/// Reads a class or a module after its keyword: the name, a terminator, and
/// the block.
pub open spec fn parse_class_like(ts: TokenStream) -> Parsed<ClassLikeModel>
    decreases ts.len(), 3nat,
{
    match expect_word(ts) {
        Err(error) => Err(error),
        Ok((name, rest)) => match expect_terminator(rest) {
            Err(error) => Err(error),
            Ok((_, rest)) => match parse_block(rest) {
                Err(error) => Err(error),
                Ok((items, rest)) => Ok((ClassLikeModel { name, items }, rest)),
            },
        },
    }
}

/// Reads a block: the items up to an `end`, with the blank terminators
/// around them, and the `end`.
pub open spec fn parse_block(ts: TokenStream) -> Parsed<Seq<ItemModel>>
    decreases ts.len(), 2nat,
{
    proof {
        lemma_skip_terminators_len(ts);
    }
    match parse_items(skip_terminators(ts), TokenModel::Word("end"@)) {
        Err(error) => Err(error),
        Ok((items, rest)) => Ok((items, rest.tail())),
    }
}

/// Reads a whole program: its items, up to the end of the input.
pub open spec fn parse_program(ts: TokenStream) -> Result<ProgramModel, ErrorModel> {
    match parse_items(skip_terminators(ts), TokenModel::EndOfFile) {
        Err(error) => Err(error),
        Ok((items, _)) => Ok(ProgramModel { items }),
    }
}

/// Skipping blank terminators never makes a stream longer, and leaves none
/// at the front.
pub proof fn lemma_skip_terminators_len(ts: TokenStream)
    ensures
        skip_terminators(ts).len() <= ts.len(),
        skip_terminators(ts).head() matches Ok(token) ==> !token.is_break(),
    decreases ts.len(),
{
    if ts.len() > 0 && ts.tokens[0].is_break() {
        lemma_skip_terminators_len(ts.tail());
    }
}

/// What follows the first segment of a path never makes the stream longer.
pub proof fn lemma_path_tail_consumes(ts: TokenStream)
    ensures
        parse_path_tail(ts) matches Ok((_, rest)) ==> rest.len() <= ts.len(),
    decreases ts.len(),
{
    if separator_of(ts.head()) is Some {
        if let Ok((text, rest)) = expect_word(ts.tail()) {
            lemma_path_tail_consumes(rest);
        }
    }
}

/// A path uses up at least one token.
pub proof fn lemma_path_consumes(ts: TokenStream)
    ensures
        parse_path(ts) matches Ok((_, rest)) ==> rest.len() < ts.len(),
{
    if let Ok((text, rest)) = expect_word(ts) {
        lemma_path_tail_consumes(rest);
    }
}

/// An expression, and so an argument and a statement, uses up at least one
/// token.
pub proof fn lemma_expression_consumes(ts: TokenStream)
    ensures
        parse_expression(ts) matches Ok((_, rest)) ==> rest.len() < ts.len(),
        parse_argument(ts) matches Ok((_, rest)) ==> rest.len() < ts.len(),
        parse_statement(ts) matches Ok((_, rest)) ==> rest.len() < ts.len(),
        parse_terminated_statement(ts) matches Ok((_, rest)) ==> rest.len() < ts.len(),
    decreases ts.len(), 0nat,
{
    if let Ok(TokenModel::Word(_)) = lookahead(ts) {
        if let Ok((callee, rest)) = parse_path(ts) {
            lemma_path_consumes(ts);
            lemma_arguments_consume(rest);
        }
    }
}

/// The arguments of a call never make the stream longer.
pub proof fn lemma_arguments_consume(ts: TokenStream)
    ensures
        parse_arguments(ts) matches Ok((_, rest)) ==> rest.len() <= ts.len(),
    decreases ts.len(), 3nat,
{
    if let Ok(token) = lookahead(ts) {
        if token.starts_expression() {
            lemma_argument_list_consumes(ts);
        }
    }
}

/// A list of arguments uses up at least one token.
pub proof fn lemma_argument_list_consumes(ts: TokenStream)
    ensures
        parse_argument_list(ts) matches Ok((_, rest)) ==> rest.len() < ts.len(),
    decreases ts.len(), 2nat,
{
    lemma_expression_consumes(ts);
    if let Ok((argument, rest)) = parse_argument(ts) {
        if let Ok(token) = lookahead(rest) {
            if rest.len() >= ts.len() {
            } else if token == TokenModel::Symbol(","@) {
                lemma_argument_list_consumes(rest.tail());
            } else if token.starts_expression() {
                lemma_argument_list_consumes(rest);
            }
        }
    }
}

/// The statements of a function body never make the stream longer.
pub proof fn lemma_statements_consume(ts: TokenStream)
    ensures
        parse_statements(ts) matches Ok((_, rest)) ==> rest.len() <= ts.len(),
    decreases ts.len(),
{
    if let Ok(token) = lookahead(ts) {
        if token != TokenModel::Word("end"@) {
            if let Ok((statement, rest)) = parse_terminated_statement(ts) {
                lemma_expression_consumes(ts);
                lemma_skip_terminators_len(rest);
                lemma_statements_consume(skip_terminators(rest));
            }
        }
    }
}

/// A list of parameters uses up at least one token.
pub proof fn lemma_parameter_list_consumes(ts: TokenStream)
    ensures
        parse_parameter_list(ts) matches Ok((_, rest)) ==> rest.len() < ts.len(),
    decreases ts.len(),
{
    lemma_parameter_consumes(ts);
    if let Ok((parameter, rest)) = parse_parameter(ts) {
        if lookahead(rest) == Ok::<TokenModel, ErrorModel>(TokenModel::Symbol(")"@)) {
        } else if lookahead(rest) == Ok::<TokenModel, ErrorModel>(TokenModel::Symbol(","@)) {
            lemma_parameter_list_consumes(rest.tail());
        }
    }
}

/// The parameter list of a function never makes the stream longer.
pub proof fn lemma_function_parameters_consume(ts: TokenStream)
    ensures
        parse_function_parameters(ts) matches Ok((_, rest)) ==> rest.len() <= ts.len(),
{
    if lookahead(ts) == Ok::<TokenModel, ErrorModel>(TokenModel::Symbol("("@)) {
        lemma_parameter_list_consumes(ts.tail());
    }
}

/// A function after its `def` uses up at least one token.
pub proof fn lemma_function_consumes(ts: TokenStream)
    ensures
        parse_function(ts) matches Ok((_, rest)) ==> rest.len() < ts.len(),
{
    if let Ok((name, after_name)) = expect_word(ts) {
        lemma_function_parameters_consume(after_name);
        if let Ok((parameters, after_parameters)) = parse_function_parameters(after_name) {
            if let Ok((_, body)) = expect_terminator(after_parameters) {
                lemma_skip_terminators_len(body);
                lemma_statements_consume(skip_terminators(body));
            }
        }
    }
}

/// An item uses up at least one token; a list of items, and a class or a
/// module after its keyword, never make the stream longer.
pub proof fn lemma_item_consumes(ts: TokenStream)
    ensures
        parse_item(ts) matches Ok((_, rest)) ==> rest.len() < ts.len(),
    decreases ts.len(), 0nat,
{
    if let Ok(token) = lookahead(ts) {
        if token == TokenModel::Word("class"@) || token == TokenModel::Word("module"@) {
            lemma_class_like_consumes(ts.tail());
        } else if token == TokenModel::Word("def"@) {
            lemma_function_consumes(ts.tail());
        } else {
            lemma_expression_consumes(ts);
        }
    }
}

/// A list of items never makes the stream longer.
pub proof fn lemma_items_consume(ts: TokenStream, closer: TokenModel)
    ensures
        parse_items(ts, closer) matches Ok((_, rest)) ==> rest.len() <= ts.len(),
    decreases ts.len(), 1nat,
{
    if let Ok(token) = lookahead(ts) {
        if token != closer {
            lemma_item_consumes(ts);
            if let Ok((item, rest)) = parse_item(ts) {
                lemma_skip_terminators_len(rest);
                lemma_items_consume(skip_terminators(rest), closer);
            }
        }
    }
}

/// A class or a module after its keyword uses up at least one token.
pub proof fn lemma_class_like_consumes(ts: TokenStream)
    ensures
        parse_class_like(ts) matches Ok((_, rest)) ==> rest.len() < ts.len(),
        parse_class(ts) matches Ok((_, rest)) ==> rest.len() < ts.len(),
        parse_module(ts) matches Ok((_, rest)) ==> rest.len() < ts.len(),
    decreases ts.len(), 3nat,
{
    if let Ok((name, rest)) = expect_word(ts) {
        if let Ok((_, rest)) = expect_terminator(rest) {
            lemma_block_consumes(rest);
        }
    }
}

/// A block never makes the stream longer.
pub proof fn lemma_block_consumes(ts: TokenStream)
    ensures
        parse_block(ts) matches Ok((_, rest)) ==> rest.len() <= ts.len(),
    decreases ts.len(), 2nat,
{
    lemma_skip_terminators_len(ts);
    lemma_items_consume(skip_terminators(ts), TokenModel::Word("end"@));
}

/// A parameter uses up at least one token.
pub proof fn lemma_parameter_consumes(ts: TokenStream)
    ensures
        parse_parameter(ts) matches Ok((_, rest)) ==> rest.len() < ts.len(),
{
    if let Ok((name, rest)) = expect_word(ts) {
        if rest.head() == Ok::<TokenModel, LexFailure>(TokenModel::Symbol("="@)) {
            lemma_path_consumes(rest.tail());
        }
    }
}

/// Where the statements of a function body were read, `end` comes next.
pub proof fn lemma_statements_end(ts: TokenStream)
    ensures
        parse_statements(ts) matches Ok((_, rest)) ==> lookahead(rest) == Ok::<
            TokenModel,
            ErrorModel,
        >(TokenModel::Word("end"@)),
    decreases ts.len(),
{
    if let Ok(token) = lookahead(ts) {
        if token != TokenModel::Word("end"@) {
            lemma_expression_consumes(ts);
            if let Ok((statement, rest)) = parse_terminated_statement(ts) {
                lemma_skip_terminators_len(rest);
                lemma_statements_end(skip_terminators(rest));
            }
        }
    }
}

/// Where a list of items was read up to `closer`, `closer` comes next.
pub proof fn lemma_items_end(ts: TokenStream, closer: TokenModel)
    ensures
        parse_items(ts, closer) matches Ok((_, rest)) ==> lookahead(rest) == Ok::<
            TokenModel,
            ErrorModel,
        >(closer),
    decreases ts.len(),
{
    if let Ok(token) = lookahead(ts) {
        if token != closer {
            lemma_item_consumes(ts);
            if let Ok((item, rest)) = parse_item(ts) {
                lemma_skip_terminators_len(rest);
                lemma_items_end(skip_terminators(rest), closer);
            }
        }
    }
}

} // verus!
