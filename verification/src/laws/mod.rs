//! What holds of the tokenizer and of the grammar as a whole.

pub mod arguments;
pub mod blank_lines;
pub mod nesting;
pub mod rest;
pub mod terminators;

use crate::ast::{
    CallExprModel, ExprModel, ItemModel, PathModel, PathSegmentKindModel, PathSegmentModel,
    PathSeparator, Program, StmtModel,
};
use crate::parse::error::{Error, ErrorModel};
use crate::parse::grammar::{
    expect_word, parse_block, parse_expression, parse_item, parse_items, parse_path,
    parse_path_tail, parse_program, segment, separator_of, skip_terminators,
};
use crate::parse::lexical::tokenize;
use crate::parse::parser::outcome;
use crate::parse::stream::TokenStream;
use crate::parse::token::TokenModel;
use vstd::prelude::*;

verus! {

/// The text of a token that is a word.
pub open spec fn word_text(token: TokenModel) -> Seq<char> {
    match token {
        TokenModel::Word(text) => text,
        _ => Seq::empty(),
    }
}

/// Whether `blank` holds nothing but line breaks and semicolons.
pub open spec fn all_breaks(blank: Seq<TokenModel>) -> bool {
    forall|i: int| 0 <= i < blank.len() ==> (#[trigger] blank[i]).is_break()
}

impl TokenStream {
    /// The stream that yields `tokens` and then goes on as `rest`.
    pub open spec fn prefixed(tokens: Seq<TokenModel>, rest: TokenStream) -> TokenStream {
        TokenStream { tokens: tokens + rest.tokens, failure: rest.failure }
    }
}

/// Parsing is deterministic: whatever two runs of the parser return for the
/// same input, they return the same tree, or the same error.
pub proof fn lemma_parse_is_deterministic(
    input: Seq<char>,
    first: Result<Program, Error>,
    second: Result<Program, Error>,
)
    requires
        outcome(first) == parse_program(tokenize(input)),
        outcome(second) == parse_program(tokenize(input)),
    ensures
        outcome(first) == outcome(second),
        first is Ok <==> second is Ok,
        first matches Ok(tree) ==> second matches Ok(other) && tree@ == other@,
{
}

/// The call of the one-word path `name` without arguments.
pub open spec fn bare_call(name: Seq<char>) -> ExprModel {
    ExprModel::Call(
        CallExprModel {
            callee: PathModel { parts: seq![segment(PathSeparator::Root, name)] },
            arguments: Seq::empty(),
        },
    )
}

/// One terminator follows a statement, where it stands as an item too: a
/// word that is no keyword, with a terminator after it, is a call without
/// arguments, and a string literal with a terminator after it is a statement
/// of its own; in either case what stands after that one terminator is left
/// to be read next.
pub proof fn lemma_statement_takes_one_terminator(
    name: Seq<char>,
    text: Seq<char>,
    terminator: TokenModel,
    rest: TokenStream,
)
    requires
        name != "class"@ && name != "module"@ && name != "def"@,
        terminator.is_break(),
    ensures
        parse_item(
            TokenStream::cons(TokenModel::Word(name), TokenStream::cons(terminator, rest)),
        ) == Ok::<(ItemModel, TokenStream), ErrorModel>(
            (ItemModel::Stmt(StmtModel::Expr(bare_call(name))), rest),
        ),
        parse_item(
            TokenStream::cons(TokenModel::String(text), TokenStream::cons(terminator, rest)),
        ) == Ok::<(ItemModel, TokenStream), ErrorModel>(
            (ItemModel::Stmt(StmtModel::Expr(ExprModel::StringLiteral(text))), rest),
        ),
{
    reveal_strlit(";");
    reveal_strlit("::");
    reveal_strlit(".");
    assert("::"@.len() == 2 && ";"@.len() == 1);
    assert(";"@[0] == ';' && "."@[0] == '.');
    let after = TokenStream::cons(terminator, rest);
    let call = TokenStream::cons(TokenModel::Word(name), after);
    let literal = TokenStream::cons(TokenModel::String(text), after);
    assert(after.tail().tokens =~= rest.tokens);
    assert(call.tail().tokens =~= after.tokens);
    assert(literal.tail().tokens =~= after.tokens);
    assert(separator_of(after.head()) is None);
    assert(parse_path_tail(after) == Ok::<(Seq<PathSegmentModel>, TokenStream), ErrorModel>(
        (Seq::empty(), after),
    ));
    assert(seq![segment(PathSeparator::Root, name)] + Seq::<PathSegmentModel>::empty()
        =~= seq![segment(PathSeparator::Root, name)]);
    assert(parse_expression(call) == Ok::<(ExprModel, TokenStream), ErrorModel>(
        (bare_call(name), after),
    ));
    assert(parse_expression(literal) == Ok::<(ExprModel, TokenStream), ErrorModel>(
        (ExprModel::StringLiteral(text), after),
    ));
}

/// Blank terminators at the front of a stream are skipped with those
/// that follow them.
pub proof fn lemma_skip_blank(blank: Seq<TokenModel>, rest: TokenStream)
    requires
        all_breaks(blank),
    ensures
        skip_terminators(TokenStream::prefixed(blank, rest)) == skip_terminators(rest),
    decreases blank.len(),
{
    let ts = TokenStream::prefixed(blank, rest);
    if blank.len() > 0 {
        assert(blank[0].is_break());
        assert(ts.tail().tokens =~= TokenStream::prefixed(blank.drop_first(), rest).tokens);
        lemma_skip_blank(blank.drop_first(), rest);
    } else {
        assert(ts.tokens =~= rest.tokens);
    }
}

/// Blank lines between items do not matter, nor do semicolons that end
/// nothing: before the first item of a program or of a block, and after any
/// item, that is wherever the items that follow are read, any run of line
/// breaks and semicolons may stand without a change to what is read.
pub proof fn lemma_blank_lines_between_items(
    blank: Seq<TokenModel>,
    rest: TokenStream,
    closer: TokenModel,
)
    requires
        all_breaks(blank),
    ensures
        parse_program(TokenStream::prefixed(blank, rest)) == parse_program(rest),
        parse_block(TokenStream::prefixed(blank, rest)) == parse_block(rest),
        parse_items(skip_terminators(TokenStream::prefixed(blank, rest)), closer) == parse_items(
            skip_terminators(rest),
            closer,
        ),
{
    lemma_skip_blank(blank, rest);
}

/// The `i`th segment of the path that starts a stream, read off the tokens:
/// its name is the word at index `2 * i`, and its separator is what stands
/// before that word.
pub open spec fn segment_at(tokens: Seq<TokenModel>, i: int) -> PathSegmentModel {
    PathSegmentModel {
        kind: PathSegmentKindModel::of(word_text(tokens[2 * i])),
        separator: if i == 0 {
            PathSeparator::Root
        } else if tokens[2 * i - 1] == TokenModel::Symbol("::"@) {
            PathSeparator::DoubleColon
        } else {
            PathSeparator::Dot
        },
    }
}

/// What follows the first segment of a path is read pair by pair.
proof fn lemma_path_tail_segments(ts: TokenStream)
    ensures
        parse_path_tail(ts) matches Ok((parts, rest)) ==> {
            &&& ts.len() == 2 * parts.len() + rest.len()
            &&& rest.tokens == ts.tokens.skip(2 * parts.len() as int)
            &&& rest.failure == ts.failure
            &&& forall|i: int|
                0 <= i < parts.len() ==> {
                    &&& separator_of(Ok(ts.tokens[2 * i])) == Some(
                        (#[trigger] parts[i]).separator,
                    )
                    &&& ts.tokens[2 * i + 1] is Word
                    &&& parts[i].kind == PathSegmentKindModel::of(
                        word_text(ts.tokens[2 * i + 1]),
                    )
                }
        },
    decreases ts.len(),
{
    if let Some(separator) = separator_of(ts.head()) {
        if let Ok((text, after)) = expect_word(ts.tail()) {
            lemma_path_tail_segments(after);
        }
    }
}

/// Every segment of a path is classified on its own, by the case of the
/// first character of its own name: a path that is read from a stream has
/// one segment for each of its words; the segment of a word is a constant
/// where the word starts with an uppercase character and an identifier where
/// it does not, whatever the other segments are; the first segment has the
/// separator `Root`, and every other one the separator that stands before
/// its word.
pub proof fn lemma_path_segments(ts: TokenStream)
    ensures
        parse_path(ts) matches Ok((path, rest)) ==> {
            &&& path.parts.len() >= 1
            &&& ts.len() == 2 * path.parts.len() - 1 + rest.len()
            &&& rest.tokens == ts.tokens.skip(2 * path.parts.len() - 1)
            &&& forall|i: int|
                0 <= i < path.parts.len() ==> {
                    &&& ts.tokens[2 * i] is Word
                    &&& i > 0 ==> separator_of(Ok(ts.tokens[2 * i - 1])) is Some
                    &&& #[trigger] path.parts[i] == segment_at(ts.tokens, i)
                }
        },
{
    if let Ok((text, after)) = expect_word(ts) {
        lemma_path_tail_segments(after);
    }
}

} // verus!
