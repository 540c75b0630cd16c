//! Programs made of nothing but nested classes and modules: what such a
//! program looks like as tokens, and that the parser gives back its
//! declarations, one for one and at the same depth.

use super::{all_breaks, lemma_skip_blank};
use crate::ast::{ClassModel, ItemModel, ModuleModel, ProgramModel};
use crate::parse::error::{ErrorModel, LexFailure};
use crate::parse::grammar::{
    extend, lookahead, parse_item, parse_items, parse_program, skip_terminators,
};
use crate::parse::lexical::tokenize;
use crate::parse::stream::TokenStream;
use crate::parse::token::TokenModel;
use vstd::prelude::*;

verus! {

/// A class or a module that holds nothing but classes and modules, as it
/// stands in the source.
pub struct Declaration {
    /// Whether it is a module; it is a class if not.
    pub module: bool,
    /// Its name.
    pub name: Seq<char>,
    /// The terminator after its name.
    pub opener: TokenModel,
    /// The blank terminators after that terminator.
    pub lead: Seq<TokenModel>,
    /// The declarations inside it.
    pub body: Seq<Declaration>,
    /// The terminator after its `end`.
    pub closer: TokenModel,
    /// The blank terminators after that terminator.
    pub trail: Seq<TokenModel>,
}

/// The keyword that opens a declaration.
pub open spec fn keyword(declaration: Declaration) -> TokenModel {
    if declaration.module {
        TokenModel::Word("module"@)
    } else {
        TokenModel::Word("class"@)
    }
}

/// Whether the terminators of a declaration, and of all that are inside it,
/// and what stands as blank after them, are line breaks and semicolons.
pub open spec fn well_formed(declaration: Declaration) -> bool
    decreases declaration,
{
    &&& declaration.opener.is_break()
    &&& declaration.closer.is_break()
    &&& all_breaks(declaration.lead)
    &&& all_breaks(declaration.trail)
    &&& forall|i: int|
        0 <= i < declaration.body.len() ==> well_formed(#[trigger] declaration.body[i])
}

/// Whether every declaration of a list is well formed.
pub open spec fn all_well_formed(declarations: Seq<Declaration>) -> bool {
    forall|i: int| 0 <= i < declarations.len() ==> well_formed(#[trigger] declarations[i])
}

/// The tokens of a declaration, from its keyword to its `end`.
pub open spec fn declaration_tokens(declaration: Declaration) -> Seq<TokenModel>
    decreases declaration, 0nat,
{
    seq![keyword(declaration), TokenModel::Word(declaration.name), declaration.opener]
        + declaration.lead + list_tokens(declaration.body, declaration.body.len())
        + seq![TokenModel::Word("end"@)]
}

/// The tokens of the first `count` declarations of a list, each with its
/// terminator and the blank terminators after it.
pub open spec fn list_tokens(declarations: Seq<Declaration>, count: nat) -> Seq<TokenModel>
    decreases declarations, count,
{
    if count == 0 || count > declarations.len() {
        Seq::empty()
    } else {
        let last = declarations[count - 1];
        list_tokens(declarations, (count - 1) as nat) + declaration_tokens(last) + seq![
            last.closer,
        ] + last.trail
    }
}

/// The item that a declaration declares.
pub open spec fn declared_item(declaration: Declaration) -> ItemModel
    decreases declaration, 0nat,
{
    if declaration.module {
        ItemModel::Module(
            ModuleModel { name: declaration.name, items: declared_items(declaration.body) },
        )
    } else {
        ItemModel::Class(
            ClassModel {
                name: declaration.name,
                items: declared_items(declaration.body),
                superclass: None,
            },
        )
    }
}

/// The items that a list of declarations declares, in order.
pub open spec fn declared_items(declarations: Seq<Declaration>) -> Seq<ItemModel>
    decreases declarations, 1nat,
{
    Seq::new(
        declarations.len(),
        |i: int|
            if 0 <= i < declarations.len() {
                declared_item(declarations[i])
            } else {
                arbitrary()
            },
    )
}

/// How deep the first `count` declarations of a list nest: 0 for none, and
/// otherwise one more than the deepest of them nests inside.
pub open spec fn source_depth(declarations: Seq<Declaration>, count: nat) -> nat
    decreases declarations, count,
{
    if count == 0 || count > declarations.len() {
        0
    } else {
        let last = declarations[count - 1];
        let inside = 1 + source_depth(last.body, last.body.len());
        let before = source_depth(declarations, (count - 1) as nat);
        if inside > before {
            inside
        } else {
            before
        }
    }
}

/// How deep the first `count` items of a list nest: 0 for none, and
/// otherwise one more than the deepest of them nests inside. Only classes
/// and modules have items inside.
pub open spec fn nesting_depth(items: Seq<ItemModel>, count: nat) -> nat
    decreases items, count,
{
    if count == 0 || count > items.len() {
        0
    } else {
        let inside = match items[count - 1] {
            ItemModel::Class(class) => 1 + nesting_depth(class.items, class.items.len()),
            ItemModel::Module(module) => 1 + nesting_depth(module.items, module.items.len()),
            _ => 1,
        };
        let before = nesting_depth(items, (count - 1) as nat);
        if inside > before {
            inside
        } else {
            before
        }
    }
}

/// The tokens of a program whose items are `declarations`, after the blank
/// terminators `lead`.
pub open spec fn program_tokens(declarations: Seq<Declaration>, lead: Seq<TokenModel>) -> Seq<
    TokenModel,
> {
    lead + list_tokens(declarations, declarations.len())
}

/// The same tokens, without the terminator and the blank terminators after
/// the last `end`: the input ends there.
pub open spec fn program_tokens_unterminated(
    declarations: Seq<Declaration>,
    lead: Seq<TokenModel>,
) -> Seq<TokenModel> {
    lead + list_tokens(declarations, (declarations.len() - 1) as nat)
        + declaration_tokens(declarations.last())
}

/// The keywords of declarations are different words.
proof fn lemma_keywords_differ()
    ensures
        "class"@ != "module"@,
        "class"@ != "end"@,
        "module"@ != "end"@,
        "class"@.len() == 5,
        "module"@.len() == 6,
        "end"@.len() == 3,
{
    reveal_strlit("class");
    reveal_strlit("module");
    reveal_strlit("end");
    assert("module"@.len() == 6);
    assert("end"@.len() == 3);
}

/// A stream gives its first token, and then the rest.
proof fn lemma_cons(token: TokenModel, rest: TokenStream)
    ensures
        TokenStream::cons(token, rest).head() == Ok::<TokenModel, LexFailure>(token),
        TokenStream::cons(token, rest).tail() == rest,
        lookahead(TokenStream::cons(token, rest)) == Ok::<TokenModel, ErrorModel>(token),
{
    assert(TokenStream::cons(token, rest).tail().tokens =~= rest.tokens);
}

/// A declaration is read back as the item that it declares, whatever
/// follows it, if only a terminator comes next.
proof fn lemma_declaration_is_read(declaration: Declaration, after: TokenStream)
    requires
        well_formed(declaration),
        lookahead(after) matches Ok(token) && token.is_terminator(),
    ensures
        parse_item(TokenStream::prefixed(declaration_tokens(declaration), after)) == Ok::<
            (ItemModel, TokenStream),
            ErrorModel,
        >((declared_item(declaration), after.tail())),
    decreases declaration, 0nat,
{
    lemma_keywords_differ();
    let body = declaration.body;
    let end = TokenModel::Word("end"@);
    let at_end = TokenStream::cons(end, after);
    let at_body = TokenStream::prefixed(list_tokens(body, body.len()), at_end);
    let at_lead = TokenStream::prefixed(declaration.lead, at_body);
    let at_opener = TokenStream::cons(declaration.opener, at_lead);
    let at_name = TokenStream::cons(TokenModel::Word(declaration.name), at_opener);
    let whole = TokenStream::cons(keyword(declaration), at_name);
    assert(whole.tokens =~= declaration_tokens(declaration) + after.tokens);
    lemma_cons(keyword(declaration), at_name);
    lemma_cons(TokenModel::Word(declaration.name), at_opener);
    lemma_cons(declaration.opener, at_lead);
    lemma_cons(end, after);
    lemma_skip_blank(declaration.lead, at_body);
    lemma_list_is_read(body, body.len(), at_end, end);
    assert(declared_items(body).take(body.len() as int) + Seq::<ItemModel>::empty()
        =~= declared_items(body));
}

/// The first `count` declarations of a list are read back as the items
/// that they declare; what follows them is read as if they were not there.
proof fn lemma_list_is_read(
    declarations: Seq<Declaration>,
    count: nat,
    after: TokenStream,
    closer: TokenModel,
)
    requires
        all_well_formed(declarations),
        count <= declarations.len(),
        closer == TokenModel::EndOfFile || closer == TokenModel::Word("end"@),
    ensures
        parse_items(
            skip_terminators(TokenStream::prefixed(list_tokens(declarations, count), after)),
            closer,
        ) == extend(
            declared_items(declarations).take(count as int),
            parse_items(skip_terminators(after), closer),
        ),
    decreases declarations, count,
{
    lemma_keywords_differ();
    let items = declared_items(declarations);
    if count > 0 {
        let last = declarations[count - 1];
        let at_trail = TokenStream::prefixed(last.trail, after);
        let at_closer = TokenStream::cons(last.closer, at_trail);
        let at_last = TokenStream::prefixed(declaration_tokens(last), at_closer);
        assert(TokenStream::prefixed(list_tokens(declarations, count), after).tokens
            =~= TokenStream::prefixed(
            list_tokens(declarations, (count - 1) as nat),
            at_last,
        ).tokens);
        lemma_list_is_read(declarations, (count - 1) as nat, at_last, closer);
        lemma_cons(last.closer, at_trail);
        lemma_declaration_is_read(last, at_closer);
        lemma_skip_blank(last.trail, after);
        if let Ok((list, rest)) = parse_items(skip_terminators(after), closer) {
            assert(items.take(count - 1) + (seq![declared_item(last)] + list) =~= items.take(
                count as int,
            ) + list);
        }
    }
}

/// The items that declarations declare nest as deep as the declarations.
proof fn lemma_depth_is_kept(declarations: Seq<Declaration>, count: nat)
    requires
        count <= declarations.len(),
    ensures
        nesting_depth(declared_items(declarations), count) == source_depth(declarations, count),
    decreases declarations, count,
{
    if count > 0 {
        let last = declarations[count - 1];
        lemma_depth_is_kept(declarations, (count - 1) as nat);
        lemma_depth_is_kept(last.body, last.body.len());
    }
}

/// The tokens of a program that is made of the given declarations are
/// read back as these declarations, whether or not a terminator follows the
/// last `end`.
pub proof fn lemma_declarations_are_read(declarations: Seq<Declaration>, lead: Seq<TokenModel>)
    requires
        all_well_formed(declarations),
        all_breaks(lead),
    ensures
        parse_program(TokenStream::of(program_tokens(declarations, lead))) == Ok::<
            ProgramModel,
            ErrorModel,
        >(ProgramModel { items: declared_items(declarations) }),
        declarations.len() > 0 ==> parse_program(
            TokenStream::of(program_tokens_unterminated(declarations, lead)),
        ) == Ok::<ProgramModel, ErrorModel>(ProgramModel { items: declared_items(declarations) }),
{
    let all = declarations.len();
    let items = declared_items(declarations);
    let end = TokenStream::exhausted();
    let at_list = TokenStream::prefixed(list_tokens(declarations, all), end);
    lemma_skip_blank(lead, at_list);
    lemma_list_is_read(declarations, all, end, TokenModel::EndOfFile);
    assert(items.take(all as int) + Seq::<ItemModel>::empty() =~= items);
    if all > 0 {
        let count = (all - 1) as nat;
        let last = declarations.last();
        let at_last = TokenStream::prefixed(declaration_tokens(last), end);
        let at_list = TokenStream::prefixed(list_tokens(declarations, count), at_last);
        assert(TokenStream::of(program_tokens_unterminated(declarations, lead)).tokens
            =~= TokenStream::prefixed(lead, at_list).tokens);
        lemma_skip_blank(lead, at_list);
        lemma_list_is_read(declarations, count, at_last, TokenModel::EndOfFile);
        lemma_declaration_is_read(last, end);
        assert(items.take(count as int) + (seq![declared_item(last)] + Seq::<
            ItemModel,
        >::empty()) =~= items);
    }
}

/// Whether `input` is a program that is made of nothing but the given
/// declarations, after the blank terminators `lead`: whether the tokenizer
/// yields their tokens for it, with or without a terminator after the last
/// `end`.
pub open spec fn declares(
    input: Seq<char>,
    declarations: Seq<Declaration>,
    lead: Seq<TokenModel>,
) -> bool {
    ||| tokenize(input) == TokenStream::of(program_tokens(declarations, lead))
    ||| declarations.len() > 0 && tokenize(input) == TokenStream::of(
        program_tokens_unterminated(declarations, lead),
    )
}

/// A program that is made of nothing but nested classes and modules is read
/// back as it was written: the parser gives one item for each declaration at
/// the top, in order, each with its kind, its name and, inside it, the items
/// of the declarations inside it. So the program has as many items as the
/// source has declarations at the top, and its items nest as deep as the
/// declarations of the source. Which of the two terminators stands where, and
/// how many blank lines or semicolons follow it, makes no difference.
pub proof fn lemma_nested_declarations(
    input: Seq<char>,
    declarations: Seq<Declaration>,
    lead: Seq<TokenModel>,
)
    requires
        all_well_formed(declarations),
        all_breaks(lead),
        declares(input, declarations, lead),
    ensures
        parse_program(tokenize(input)) matches Ok(program) && {
            &&& program.items == declared_items(declarations)
            &&& program.items.len() == declarations.len()
            &&& nesting_depth(program.items, program.items.len()) == source_depth(
                declarations,
                declarations.len(),
            )
        },
{
    lemma_declarations_are_read(declarations, lead);
    lemma_depth_is_kept(declarations, declarations.len());
}

} // verus!
