//! The parser: recursive descent over the tokens, one token of lookahead.

use super::error::{Error, ErrorModel};
use super::expect;
use super::grammar::{
    expect_word, extend, lemma_expression_consumes, lemma_item_consumes, lemma_items_end,
    lemma_parameter_consumes, lemma_path_consumes, lemma_skip_terminators_len, lemma_statements_end,
    lookahead, parse_argument, parse_argument_list, parse_arguments, parse_block, parse_class,
    parse_class_like, parse_default, parse_expression, parse_function, parse_function_parameters,
    parse_item, parse_items, parse_module, parse_parameter, parse_parameter_list, parse_path,
    parse_path_tail, parse_program, parse_statement, parse_statements, segment, skip_terminators,
    ClassLikeModel, Parsed,
};
use super::lexical::tokenize;
use super::lookahead::Lookahead;
use super::stream::TokenStream;
use super::token::{Token, TokenModel};
use super::tokenizer::Tokenizer;
use crate::ast::{
    argument_views, item_views, parameter_views, segment_views, statement_views, Argument,
    ArgumentModel, CallExpr, Class, Expr, Function, Item, ItemModel, Module, Parameter,
    ParameterModel, Path, PathModel, PathSegment, PathSegmentKind, PathSegmentModel,
    PathSeparator, Program, Stmt, StmtModel, StringLiteral,
};
use vstd::prelude::*;

verus! {

/// A parser.
///
/// It owns its tokenizer, behind a buffer of one token. Its value is the
/// stream of tokens that it has yet to read.
pub struct Parser {
    tokens: Lookahead,
}

/// Something kind-of like a class (i.e. a module).
pub struct ClassLike {
    name: String,
    items: Vec<Item>,
}

impl View for Parser {
    type V = TokenStream;

    closed spec fn view(&self) -> TokenStream {
        self.tokens@
    }
}

impl View for ClassLike {
    type V = ClassLikeModel;

    closed spec fn view(&self) -> ClassLikeModel {
        ClassLikeModel { name: self.name@, items: item_views(self.items@) }
    }
}

/// The value of what a parsing function returns.
pub open spec fn outcome<T: View>(result: Result<T, Error>) -> Result<T::V, ErrorModel> {
    match result {
        Ok(value) => Ok(value@),
        Err(error) => Err(error@),
    }
}

/// The value of what a parsing function returns that reads a list, whose
/// elements have the values `views`.
pub open spec fn list_outcome<T, M>(
    result: Result<Vec<T>, Error>,
    views: spec_fn(Seq<T>) -> Seq<M>,
) -> Result<Seq<M>, ErrorModel> {
    match result {
        Ok(list) => Ok(views(list@)),
        Err(error) => Err(error@),
    }
}

/// Whether a parsing function that returned `result`, and left the stream
/// `rest`, did what the rule `parsed` says: on success the same value and
/// the same rest, on failure the same error.
pub open spec fn gives<M>(
    parsed: Parsed<M>,
    result: Result<M, ErrorModel>,
    rest: TokenStream,
) -> bool {
    match result {
        Ok(value) => parsed == Ok::<(M, TokenStream), ErrorModel>((value, rest)),
        Err(error) => parsed == Err::<(M, TokenStream), ErrorModel>(error),
    }
}

/// What `parse_path` has yet to do when it has read the segments `before`
/// and the separator `separator`.
spec fn path_from(
    ts: TokenStream,
    separator: PathSeparator,
    before: Seq<PathSegmentModel>,
) -> Parsed<PathModel> {
    match expect_word(ts) {
        Err(error) => Err(error),
        Ok((text, rest)) => match parse_path_tail(rest) {
            Err(error) => Err(error),
            Ok((more, rest)) => Ok(
                (PathModel { parts: before + seq![segment(separator, text)] + more }, rest),
            ),
        },
    }
}

impl Parser {
    /// Creates a new parser.
    pub fn new(input: Vec<char>) -> (parser: Parser)
        ensures
            parser@ == tokenize(input@),
    {
        Parser { tokens: Lookahead::new(Tokenizer::new(input)) }
    }

    /// Looks at the next token without reading it.
    fn peek(&mut self) -> (token: Result<Token, Error>)
        ensures
            outcome(token) == lookahead(old(self)@),
            final(self)@ == old(self)@,
    {
        match self.tokens.peek() {
            Ok(token) => Ok(token),
            Err(error) => Err(Error::LexError(error)),
        }
    }

    /// Reads the next token.
    fn next(&mut self) -> (token: Result<Token, Error>)
        ensures
            outcome(token) == lookahead(old(self)@),
            final(self)@ == old(self)@.tail(),
    {
        match self.tokens.next() {
            Ok(token) => Ok(token),
            Err(error) => Err(Error::LexError(error)),
        }
    }

    /// Reads the next token, whatever it is.
    fn eat(&mut self) -> (token: Result<Token, Error>)
        ensures
            outcome(token) == lookahead(old(self)@),
            final(self)@ == old(self)@.tail(),
    {
        self.next()
    }

    /// Reads the next token, which the caller knows to be `token`.
    fn eat_assert(&mut self, token: &Token)
        requires
            lookahead(old(self)@) == Ok::<TokenModel, ErrorModel>(token@),
        ensures
            final(self)@ == old(self)@.tail(),
    {
        let _ = self.next();
    }

    /// Checks if we've reached the end of file yet.
    fn is_eof(&mut self) -> (yes: bool)
        ensures
            yes == (lookahead(old(self)@) == Ok::<TokenModel, ErrorModel>(TokenModel::EndOfFile)),
            final(self)@ == old(self)@,
    {
        match self.peek() {
            Ok(Token::EndOfFile) => true,
            _ => false,
        }
    }

    /// Skips the blank terminators that come next: line breaks and
    /// semicolons that end nothing.
    fn eat_whitespace(&mut self)
        ensures
            final(self)@ == skip_terminators(old(self)@),
    {
        loop
            invariant
                skip_terminators(self@) == skip_terminators(old(self)@),
            ensures
                self@ == skip_terminators(old(self)@),
            decreases self@.len(),
        {
            let blank = match self.peek() {
                Ok(token) => token.is_break(),
                Err(_) => false,
            };
            if !blank {
                break ;
            }
            let _ = self.eat();
        }
    }

    /// Reads a path.
    fn parse_path(&mut self) -> (result: Result<Path, Error>)
        ensures
            gives(parse_path(old(self)@), outcome(result), final(self)@),
    {
        let mut segments: Vec<PathSegment> = Vec::new();
        let mut last_separator = PathSeparator::Root;
        loop
            invariant_except_break
                parse_path(old(self)@) == path_from(
                    self@,
                    last_separator,
                    segment_views(segments@),
                ),
            ensures
                parse_path(old(self)@) == Ok::<(PathModel, TokenStream), ErrorModel>(
                    (PathModel { parts: segment_views(segments@) }, self@),
                ),
            decreases self@.len(),
        {
            let ghost read = segment_views(segments@);
            // Read the next word and push it to the list.
            let word = expect::word(Some(self.next()?))?;
            let ghost text = word@;
            segments.push(
                PathSegment { separator: last_separator, kind: PathSegmentKind::new(word) },
            );
            assert(segment_views(segments@) =~= read + seq![segment(last_separator, text)]);
            let token = self.peek();
            let separator = match &token {
                Ok(token) => if token.is_symbol("::") {
                    Some(PathSeparator::DoubleColon)
                } else if token.is_symbol(".") {
                    Some(PathSeparator::Dot)
                } else {
                    None
                },
                Err(_) => None,
            };
            match separator {
                Some(separator) => {
                    proof {
                        let after = self@.tail();
                        if let Ok((next_text, rest)) = expect_word(after) {
                            if let Ok((more, rest)) = parse_path_tail(rest) {
                                assert(read + seq![segment(last_separator, text)] + (seq![
                                    segment(separator, next_text),
                                ] + more) =~= segment_views(segments@) + seq![
                                    segment(separator, next_text),
                                ] + more);
                            }
                        }
                    }
                    last_separator = separator;
                    let _ = self.eat();
                },
                None => {
                    // We've finished parsing.
                    break ;
                },
            }
        }
        Ok(Path { parts: segments })
    }

    /// Reads a string literal, which the caller knows to come next.
    fn parse_string_expression(&mut self) -> (result: Result<StringLiteral, Error>)
        requires
            lookahead(old(self)@) matches Ok(TokenModel::String(_)),
        ensures
            result matches Ok(literal) && lookahead(old(self)@) == Ok::<TokenModel, ErrorModel>(
                TokenModel::String(literal@),
            ),
            final(self)@ == old(self)@.tail(),
    {
        match self.next() {
            Ok(Token::String(value)) => Ok(StringLiteral { value }),
            _ => unreached(),
        }
    }

    /// Reads an expression.
    fn parse_expression(&mut self) -> (result: Result<Expr, Error>)
        ensures
            gives(parse_expression(old(self)@), outcome(result), final(self)@),
        decreases old(self)@.len(), 0nat,
    {
        match expect::something(Some(self.peek()?))? {
            Token::Word(_) => {
                let path = self.parse_path()?;
                proof {
                    lemma_path_consumes(old(self)@);
                }
                let arguments = self.parse_arguments()?;
                Ok(Expr::Call(CallExpr { callee: path, arguments }))
            },
            Token::String(_) => match self.parse_string_expression() {
                Ok(literal) => Ok(Expr::StringLiteral(literal)),
                Err(error) => Err(error),
            },
            token => Err(Error::expression_expected(token)),
        }
    }

    /// Reads the arguments of a call.
    fn parse_arguments(&mut self) -> (result: Result<Vec<Argument>, Error>)
        ensures
            gives(
                parse_arguments(old(self)@),
                list_outcome(result, |list: Seq<Argument>| argument_views(list)),
                final(self)@,
            ),
        decreases old(self)@.len(), 3nat,
    {
        self.until_terminator()
    }

    /// Reads one argument.
    fn parse_argument(&mut self) -> (result: Result<Argument, Error>)
        ensures
            gives(parse_argument(old(self)@), outcome(result), final(self)@),
        decreases old(self)@.len(), 1nat,
    {
        let value = self.parse_expression()?;
        Ok(Argument::Positional(value))
    }

    /// Reads the arguments of a call: expressions for as long as one comes
    /// next, or a comma and one. They end at the latest where a terminator
    /// comes next, which is left unread: it ends the statement, or the item,
    /// that the call stands in.
    fn until_terminator(&mut self) -> (result: Result<Vec<Argument>, Error>)
        ensures
            gives(
                parse_arguments(old(self)@),
                list_outcome(result, |list: Seq<Argument>| argument_views(list)),
                final(self)@,
            ),
        decreases old(self)@.len(), 2nat,
    {
        let mut arguments: Vec<Argument> = Vec::new();
        if self.peek()?.starts_expression() {
            loop
                invariant_except_break
                    self@.len() <= old(self)@.len(),
                    parse_argument_list(old(self)@) == extend(
                        argument_views(arguments@),
                        parse_argument_list(self@),
                    ),
                invariant
                    lookahead(old(self)@) matches Ok(token) && token.starts_expression(),
                ensures
                    parse_argument_list(old(self)@) == Ok::<
                        (Seq<ArgumentModel>, TokenStream),
                        ErrorModel,
                    >((argument_views(arguments@), self@)),
                decreases self@.len(),
            {
                let ghost before = self@;
                let ghost read = argument_views(arguments@);
                let argument = self.parse_argument()?;
                proof {
                    lemma_expression_consumes(before);
                }
                arguments.push(argument);
                let token = self.peek()?;
                proof {
                    let after = if token@ == TokenModel::Symbol(","@) {
                        self@.tail()
                    } else {
                        self@
                    };
                    assert(read + seq![argument@] =~= argument_views(arguments@));
                    if let Ok((list, rest)) = parse_argument_list(after) {
                        assert(read + (seq![argument@] + list) =~= argument_views(arguments@)
                            + list);
                    }
                }
                if token.is_symbol(",") {
                    let _ = self.eat();
                } else if !token.starts_expression() {
                    break ;
                }
            }
        }
        assert(lookahead(old(self)@) matches Ok(token) && !token.starts_expression()
            ==> argument_views(arguments@) =~= Seq::empty());
        Ok(arguments)
    }

    /// Parses a statement.
    fn parse_statement(&mut self) -> (result: Result<Stmt, Error>)
        ensures
            gives(parse_statement(old(self)@), outcome(result), final(self)@),
    {
        let expr = self.parse_expression()?;
        Ok(Stmt::Expr(expr))
    }

    /// Reads statements, each with the terminator after it, and the blank
    /// terminators around them, until `end` comes next.
    fn parse_statements(&mut self) -> (result: Result<Vec<Stmt>, Error>)
        ensures
            gives(
                parse_statements(skip_terminators(old(self)@)),
                list_outcome(result, |list: Seq<Stmt>| statement_views(list)),
                final(self)@,
            ),
    {
        let mut statements: Vec<Stmt> = Vec::new();
        self.eat_whitespace();
        loop
            invariant_except_break
                parse_statements(skip_terminators(old(self)@)) == extend(
                    statement_views(statements@),
                    parse_statements(self@),
                ),
            ensures
                parse_statements(skip_terminators(old(self)@)) == Ok::<
                    (Seq<StmtModel>, TokenStream),
                    ErrorModel,
                >((statement_views(statements@), self@)),
            decreases self@.len(),
        {
            if self.peek()?.is_word("end") {
                break ;
            }
            let ghost before = self@;
            let ghost read = statement_views(statements@);
            let statement = self.parse_statement()?;
            expect::terminator(Some(self.next()?))?;
            proof {
                lemma_expression_consumes(before);
                lemma_skip_terminators_len(self@);
                if let Ok((list, rest)) = parse_statements(skip_terminators(self@)) {
                    assert(read + (seq![statement@] + list) =~= (read + seq![statement@]) + list);
                }
            }
            statements.push(statement);
            assert(statement_views(statements@) =~= read + seq![statement@]);
            self.eat_whitespace();
        }
        Ok(statements)
    }

    /// Reads the default value of a parameter.
    fn parse_default(&mut self) -> (result: Result<Expr, Error>)
        ensures
            gives(parse_default(old(self)@), outcome(result), final(self)@),
    {
        match expect::something(Some(self.peek()?))? {
            Token::Word(_) => {
                let callee = self.parse_path()?;
                let call = CallExpr { callee, arguments: Vec::new() };
                assert(call@.arguments =~= Seq::empty());
                Ok(Expr::Call(call))
            },
            Token::String(_) => match self.parse_string_expression() {
                Ok(literal) => Ok(Expr::StringLiteral(literal)),
                Err(error) => Err(error),
            },
            token => Err(Error::expression_expected(token)),
        }
    }

    /// Reads one parameter.
    fn parse_parameter(&mut self) -> (result: Result<Parameter, Error>)
        ensures
            gives(parse_parameter(old(self)@), outcome(result), final(self)@),
    {
        let name = expect::word(Some(self.next()?))?;
        let has_default = match self.peek() {
            Ok(token) => token.is_symbol("="),
            Err(_) => false,
        };
        if has_default {
            let _ = self.eat();
            let value = self.parse_default()?;
            Ok(Parameter { name, default: Some(Box::new(value)) })
        } else {
            Ok(Parameter { name, default: None })
        }
    }

    /// Reads the parameter list of a function, if one comes next.
    fn parse_function_parameters(&mut self) -> (result: Result<Vec<Parameter>, Error>)
        ensures
            gives(
                parse_function_parameters(old(self)@),
                list_outcome(result, |list: Seq<Parameter>| parameter_views(list)),
                final(self)@,
            ),
    {
        let peeked_token = expect::something(Some(self.peek()?))?;
        let mut parameters: Vec<Parameter> = Vec::new();
        // Check if there is a parameter list.
        if !peeked_token.is_symbol("(") {
            // No parameters.
            assert(parameter_views(parameters@) =~= Seq::empty());
            return Ok(parameters);
        }
        self.eat_assert(&Token::left_paren());
        let closed = match self.peek() {
            Ok(token) => token.is_symbol(")"),
            Err(_) => false,
        };
        if closed {
            let _ = self.eat();
            return Ok(parameters);
        }
        loop
            invariant_except_break
                parse_parameter_list(old(self)@.tail()) == extend(
                    parameter_views(parameters@),
                    parse_parameter_list(self@),
                ),
            invariant
                parse_function_parameters(old(self)@) == parse_parameter_list(old(self)@.tail()),
            ensures
                parse_parameter_list(old(self)@.tail()) == Ok::<
                    (Seq<ParameterModel>, TokenStream),
                    ErrorModel,
                >((parameter_views(parameters@), self@)),
            decreases self@.len(),
        {
            let ghost before = self@;
            let ghost read = parameter_views(parameters@);
            let parameter = self.parse_parameter()?;
            proof {
                lemma_parameter_consumes(before);
            }
            parameters.push(parameter);
            assert(parameter_views(parameters@) =~= read + seq![parameter@]);
            proof {
                if let Ok((list, rest)) = parse_parameter_list(self@.tail()) {
                    assert(read + (seq![parameter@] + list) =~= parameter_views(parameters@)
                        + list);
                }
            }
            let token = self.next()?;
            if token.is_symbol(")") {
                break ;
            }
            if !token.is_symbol(",") {
                return Err(Error::parameter_end_expected(token));
            }
        }
        Ok(parameters)
    }

    /// Parses a function.
    fn parse_function(&mut self) -> (result: Result<Function, Error>)
        requires
            lookahead(old(self)@) == Ok::<TokenModel, ErrorModel>(TokenModel::Word("def"@)),
        ensures
            gives(parse_function(old(self)@.tail()), outcome(result), final(self)@),
    {
        self.eat_assert(&Token::def());
        let name = expect::word(Some(self.next()?))?;
        let parameters = self.parse_function_parameters()?;
        // Expect new line or semicolon after parameters.
        expect::terminator(Some(self.next()?))?;
        let ghost body = self@;
        let statements = self.parse_statements()?;
        proof {
            lemma_statements_end(skip_terminators(body));
        }
        self.eat_assert(&Token::end());
        Ok(Function { name, parameters, statements })
    }

    /// Reads items, and the blank terminators around them, until `closer` comes
    /// next. The closer is no line break and no semicolon: these are
    /// skipped before it is looked for.
    fn until(&mut self, closer: &Token) -> (result: Result<Vec<Item>, Error>)
        requires
            !closer@.is_break(),
        ensures
            gives(
                parse_items(skip_terminators(old(self)@), closer@),
                list_outcome(result, |list: Seq<Item>| item_views(list)),
                final(self)@,
            ),
        decreases old(self)@.len(), 3nat,
    {
        let mut items: Vec<Item> = Vec::new();
        self.eat_whitespace();
        proof {
            lemma_skip_terminators_len(old(self)@);
        }
        loop
            invariant_except_break
                self@.len() <= old(self)@.len(),
                parse_items(skip_terminators(old(self)@), closer@) == extend(
                    item_views(items@),
                    parse_items(self@, closer@),
                ),
            ensures
                parse_items(skip_terminators(old(self)@), closer@) == Ok::<
                    (Seq<ItemModel>, TokenStream),
                    ErrorModel,
                >((item_views(items@), self@)),
            decreases self@.len(),
        {
            if self.peek()?.same_as(closer) {
                break ;
            }
            let ghost before = self@;
            let ghost read = item_views(items@);
            let item = self.parse_item()?;
            proof {
                lemma_item_consumes(before);
                lemma_skip_terminators_len(self@);
                if let Ok((list, rest)) = parse_items(skip_terminators(self@), closer@) {
                    assert(read + (seq![item@] + list) =~= (read + seq![item@]) + list);
                }
            }
            items.push(item);
            assert(item_views(items@) =~= read + seq![item@]);
            self.eat_whitespace();
        }
        Ok(items)
    }

    /// Reads items until `end` comes next, and then the `end`.
    fn until_end(&mut self) -> (result: Result<Vec<Item>, Error>)
        ensures
            gives(
                parse_block(old(self)@),
                list_outcome(result, |list: Seq<Item>| item_views(list)),
                final(self)@,
            ),
        decreases old(self)@.len(), 4nat,
    {
        let end = Token::end();
        let items = self.until(&end)?;
        proof {
            lemma_items_end(skip_terminators(old(self)@), end@);
        }
        self.eat_assert(&end);
        Ok(items)
    }

    /// Parses something which looks like a class (and ends with an `end`).
    fn parse_class_like_thing(&mut self) -> (result: Result<ClassLike, Error>)
        ensures
            gives(parse_class_like(old(self)@), outcome(result), final(self)@),
        decreases old(self)@.len(), 0nat,
    {
        let name = expect::word(Some(self.next()?))?;
        expect::terminator(Some(self.next()?))?;
        let items = self.until_end()?;
        Ok(ClassLike { name, items })
    }

    /// Parses a class definition.
    fn parse_class(&mut self) -> (result: Result<Class, Error>)
        requires
            lookahead(old(self)@) == Ok::<TokenModel, ErrorModel>(TokenModel::Word("class"@)),
        ensures
            gives(parse_class(old(self)@.tail()), outcome(result), final(self)@),
        decreases old(self)@.len(), 1nat,
    {
        self.eat_assert(&Token::class());
        let class_like = self.parse_class_like_thing()?;
        Ok(Class { name: class_like.name, items: class_like.items, superclass: None })
    }

    /// Parses a module definition.
    fn parse_module(&mut self) -> (result: Result<Module, Error>)
        requires
            lookahead(old(self)@) == Ok::<TokenModel, ErrorModel>(TokenModel::Word("module"@)),
        ensures
            gives(parse_module(old(self)@.tail()), outcome(result), final(self)@),
        decreases old(self)@.len(), 1nat,
    {
        self.eat_assert(&Token::module());
        let class_like = self.parse_class_like_thing()?;
        Ok(Module { name: class_like.name, items: class_like.items })
    }

    /// Reads one item and the terminator after it.
    fn parse_item(&mut self) -> (result: Result<Item, Error>)
        ensures
            gives(parse_item(old(self)@), outcome(result), final(self)@),
        decreases old(self)@.len(), 2nat,
    {
        let token = self.peek()?;
        let item = if token.is_word("class") {
            Item::Class(self.parse_class()?)
        } else if token.is_word("module") {
            Item::Module(self.parse_module()?)
        } else if token.is_word("def") {
            Item::Function(self.parse_function()?)
        } else {
            Item::Stmt(self.parse_statement()?)
        };
        expect::terminator(Some(self.next()?))?;
        Ok(item)
    }

    /// Parses the program.
    pub fn parse(self) -> (result: Result<Program, Error>)
        ensures
            outcome(result) == parse_program(self@),
    {
        let mut parser = self;
        let mut items: Vec<Item> = Vec::new();
        parser.eat_whitespace();
        loop
            invariant_except_break
                parse_items(skip_terminators(self@), TokenModel::EndOfFile) == extend(
                    item_views(items@),
                    parse_items(parser@, TokenModel::EndOfFile),
                ),
            ensures
                parse_items(skip_terminators(self@), TokenModel::EndOfFile) matches Ok((list, _))
                    && list == item_views(items@),
            decreases parser@.len(),
        {
            if parser.is_eof() {
                break ;
            }
            let ghost before = parser@;
            let ghost read = item_views(items@);
            let item = parser.parse_item()?;
            proof {
                lemma_item_consumes(before);
                lemma_skip_terminators_len(parser@);
                if let Ok((list, rest)) = parse_items(
                    skip_terminators(parser@),
                    TokenModel::EndOfFile,
                ) {
                    assert(read + (seq![item@] + list) =~= (read + seq![item@]) + list);
                }
            }
            items.push(item);
            assert(item_views(items@) =~= read + seq![item@]);
            parser.eat_whitespace();
        }
        Ok(Program { items })
    }
}

} // verus!
