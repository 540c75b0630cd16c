//! The syntax tree: programs, items, and what items are made of.

pub mod expr;
pub mod stmt;

pub use self::expr::{CallExpr, CallExprModel, Expr, ExprModel, StringLiteral};
pub use self::stmt::{statement_views, Stmt, StmtModel};

use crate::text::is_uppercase;
use crate::text::unicode_uppercase;
use vstd::prelude::*;
use vstd::std_specs::convert::FromSpecImpl;
use vstd::string::StrSliceExecFns;

verus! {

/// A program: its items, in the order in which the source declares them.
#[derive(Debug, PartialEq, Eq)]
pub struct Program {
    pub items: Vec<Item>,
}

/// An item: a declaration, or a statement.
#[derive(Debug, PartialEq, Eq)]
pub enum Item {
    Module(Module),
    Class(Class),
    Function(Function),
    Stmt(Stmt),
}

/// A module.
#[derive(Debug, PartialEq, Eq)]
pub struct Module {
    /// The name of the module.
    pub name: String,
    /// The items contained in the module.
    pub items: Vec<Item>,
}

/// A class.
#[derive(Debug, PartialEq, Eq)]
pub struct Class {
    /// The name of the class.
    pub name: String,
    /// The items contained in the class.
    pub items: Vec<Item>,
    /// The parent class.
    pub superclass: Option<Path>,
}

/// A function.
#[derive(Debug, PartialEq, Eq)]
pub struct Function {
    /// The name of the function.
    pub name: String,
    /// The parameters of the function.
    pub parameters: Vec<Parameter>,
    /// The statements in the function.
    pub statements: Vec<Stmt>,
}

/// An identifier: a name that does not start with an uppercase letter.
#[derive(Debug, PartialEq, Eq)]
pub struct Identifier(pub String);

/// A constant: a name that starts with an uppercase letter.
#[derive(Debug, PartialEq, Eq)]
pub struct Constant(pub String);

/// A list of names joined by `.` or `::`, such as `my.object.do_thing`.
#[derive(Debug, PartialEq, Eq)]
pub struct Path {
    /// The parts that make up the path.
    pub parts: Vec<PathSegment>,
}

/// One name of a path, with the separator that stands before it.
#[derive(Debug, PartialEq, Eq)]
pub struct PathSegment {
    pub kind: PathSegmentKind,
    pub separator: PathSeparator,
}

/// The name in a path segment, classified by the case of its first character.
#[derive(Debug, PartialEq, Eq)]
pub enum PathSegmentKind {
    Constant(Constant),
    Identifier(Identifier),
}

/// What separates a path segment from the one before it.
#[derive(Copy, Clone, Debug, PartialEq, Eq)]
pub enum PathSeparator {
    /// The root part of a path.
    /// Only the very first segment has it.
    Root,
    Dot,
    DoubleColon,
}

/// An argument of a call.
#[derive(Debug, PartialEq, Eq)]
pub enum Argument {
    /// A standard positional argument.
    Positional(Expr),
}

/// A parameter of a function.
#[derive(Debug, PartialEq, Eq)]
pub struct Parameter {
    pub name: String,
    pub default: Option<Box<Expr>>,
}

/// The mathematical value of a [`Program`].
pub struct ProgramModel {
    pub items: Seq<ItemModel>,
}

/// The mathematical value of an [`Item`].
pub enum ItemModel {
    Module(ModuleModel),
    Class(ClassModel),
    Function(FunctionModel),
    Stmt(StmtModel),
}

/// The mathematical value of a [`Module`].
pub struct ModuleModel {
    pub name: Seq<char>,
    pub items: Seq<ItemModel>,
}

/// The mathematical value of a [`Class`].
pub struct ClassModel {
    pub name: Seq<char>,
    pub items: Seq<ItemModel>,
    pub superclass: Option<PathModel>,
}

/// The mathematical value of a [`Function`].
pub struct FunctionModel {
    pub name: Seq<char>,
    pub parameters: Seq<ParameterModel>,
    pub statements: Seq<StmtModel>,
}

/// The mathematical value of a [`Path`].
pub struct PathModel {
    pub parts: Seq<PathSegmentModel>,
}

/// The mathematical value of a [`PathSegment`].
pub struct PathSegmentModel {
    pub kind: PathSegmentKindModel,
    pub separator: PathSeparator,
}

/// The mathematical value of a [`PathSegmentKind`].
pub enum PathSegmentKindModel {
    Constant(Seq<char>),
    Identifier(Seq<char>),
}

/// The mathematical value of an [`Argument`].
pub enum ArgumentModel {
    Positional(ExprModel),
}

/// The mathematical value of a [`Parameter`].
pub struct ParameterModel {
    pub name: Seq<char>,
    pub default: Option<ExprModel>,
}

impl View for Program {
    type V = ProgramModel;

    open spec fn view(&self) -> ProgramModel {
        ProgramModel { items: item_views(self.items@) }
    }
}

impl View for Item {
    type V = ItemModel;

    open spec fn view(&self) -> ItemModel
        decreases self,
    {
        match self {
            Item::Module(module) => ItemModel::Module(module@),
            Item::Class(class) => ItemModel::Class(class@),
            Item::Function(function) => ItemModel::Function(function@),
            Item::Stmt(stmt) => ItemModel::Stmt(stmt@),
        }
    }
}

impl View for Module {
    type V = ModuleModel;

    open spec fn view(&self) -> ModuleModel
        decreases self,
    {
        ModuleModel { name: self.name@, items: item_views(self.items@) }
    }
}

impl View for Class {
    type V = ClassModel;

    open spec fn view(&self) -> ClassModel
        decreases self,
    {
        ClassModel {
            name: self.name@,
            items: item_views(self.items@),
            superclass: match self.superclass {
                Some(path) => Some(path@),
                None => None,
            },
        }
    }
}

impl View for Function {
    type V = FunctionModel;

    open spec fn view(&self) -> FunctionModel {
        FunctionModel {
            name: self.name@,
            parameters: parameter_views(self.parameters@),
            statements: statement_views(self.statements@),
        }
    }
}

impl View for Identifier {
    type V = Seq<char>;

    open spec fn view(&self) -> Seq<char> {
        self.0@
    }
}

impl View for Constant {
    type V = Seq<char>;

    open spec fn view(&self) -> Seq<char> {
        self.0@
    }
}

impl View for Path {
    type V = PathModel;

    open spec fn view(&self) -> PathModel {
        PathModel { parts: segment_views(self.parts@) }
    }
}

impl View for PathSegment {
    type V = PathSegmentModel;

    open spec fn view(&self) -> PathSegmentModel {
        PathSegmentModel { kind: self.kind@, separator: self.separator }
    }
}

impl View for PathSegmentKind {
    type V = PathSegmentKindModel;

    open spec fn view(&self) -> PathSegmentKindModel {
        match self {
            PathSegmentKind::Constant(name) => PathSegmentKindModel::Constant(name@),
            PathSegmentKind::Identifier(name) => PathSegmentKindModel::Identifier(name@),
        }
    }
}

impl View for Argument {
    type V = ArgumentModel;

    open spec fn view(&self) -> ArgumentModel
        decreases self,
    {
        match self {
            Argument::Positional(value) => ArgumentModel::Positional(value@),
        }
    }
}

impl View for Parameter {
    type V = ParameterModel;

    open spec fn view(&self) -> ParameterModel {
        ParameterModel {
            name: self.name@,
            default: match self.default {
                Some(value) => Some(value@),
                None => None,
            },
        }
    }
}

/// The values of a list of items, in order.
pub open spec fn item_views(items: Seq<Item>) -> Seq<ItemModel>
    decreases items,
{
    Seq::new(
        items.len(),
        |i: int|
            if 0 <= i < items.len() {
                items[i]@
            } else {
                arbitrary()
            },
    )
}

/// The values of the segments of a path, in order.
pub open spec fn segment_views(parts: Seq<PathSegment>) -> Seq<PathSegmentModel> {
    Seq::new(parts.len(), |i: int| parts[i]@)
}

/// The values of the arguments of a call, in order.
pub open spec fn argument_views(arguments: Seq<Argument>) -> Seq<ArgumentModel>
    decreases arguments,
{
    Seq::new(
        arguments.len(),
        |i: int|
            if 0 <= i < arguments.len() {
                arguments[i]@
            } else {
                arbitrary()
            },
    )
}

/// The values of the parameters of a function, in order.
pub open spec fn parameter_views(parameters: Seq<Parameter>) -> Seq<ParameterModel> {
    Seq::new(parameters.len(), |i: int| parameters[i]@)
}

impl PathSegmentKindModel {
    /// The kind of the segment that `text` names: a constant if `uppercase`
    /// holds of its first character, an identifier otherwise.
    pub open spec fn classify(text: Seq<char>, uppercase: bool) -> PathSegmentKindModel {
        if uppercase {
            PathSegmentKindModel::Constant(text)
        } else {
            PathSegmentKindModel::Identifier(text)
        }
    }

    /// The kind of the segment that `text` names, by the case of its first
    /// character. A name without characters has no uppercase first character.
    pub open spec fn of(text: Seq<char>) -> PathSegmentKindModel {
        Self::classify(text, text.len() > 0 && unicode_uppercase(text[0]))
    }
}

impl Program {
    /// A program without items.
    pub fn new() -> (program: Program)
        ensures
            program@ == (ProgramModel { items: Seq::empty() }),
    {
        let program = Program { items: Vec::new() };
        assert(program@.items =~= Seq::empty());
        program
    }
}

impl Module {
    /// An empty module called `name`.
    pub fn new(name: &str) -> (module: Module)
        ensures
            module@ == (ModuleModel { name: name@, items: Seq::empty() }),
    {
        let module = Module { name: name.to_owned(), items: Vec::new() };
        assert(module@.items =~= Seq::empty());
        module
    }
}

impl Class {
    /// An empty class called `name`, without a parent class.
    pub fn new(name: &str) -> (class: Class)
        ensures
            class@ == (ClassModel { name: name@, items: Seq::empty(), superclass: None }),
    {
        let class = Class { name: name.to_owned(), items: Vec::new(), superclass: None };
        assert(class@.items =~= Seq::empty());
        class
    }
}

impl PathSegmentKind {
    /// Classifies a name by the case of its first character. A name without
    /// characters has no uppercase first character.
    pub fn new(text: String) -> (kind: PathSegmentKind)
        ensures
            kind@ == PathSegmentKindModel::of(text@),
    {
        let uppercase = text.as_str().unicode_len() > 0 && is_uppercase(
            text.as_str().get_char(0),
        );
        PathSegmentKind::classify(text, uppercase)
    }

    /// A constant called `text` if `uppercase` is set, an identifier called
    /// `text` if not.
    pub fn classify(text: String, uppercase: bool) -> (kind: PathSegmentKind)
        ensures
            kind@ == PathSegmentKindModel::classify(text@, uppercase),
    {
        if uppercase {
            PathSegmentKind::Constant(Constant(text))
        } else {
            PathSegmentKind::Identifier(Identifier(text))
        }
    }
}

impl From<Class> for Item {
    fn from(class: Class) -> (item: Item) {
        Item::Class(class)
    }
}

impl FromSpecImpl<Class> for Item {
    open spec fn obeys_from_spec() -> bool {
        true
    }

    open spec fn from_spec(class: Class) -> Item {
        Item::Class(class)
    }
}

impl From<Module> for Item {
    fn from(module: Module) -> (item: Item) {
        Item::Module(module)
    }
}

impl FromSpecImpl<Module> for Item {
    open spec fn obeys_from_spec() -> bool {
        true
    }

    open spec fn from_spec(module: Module) -> Item {
        Item::Module(module)
    }
}

impl From<Function> for Item {
    fn from(function: Function) -> (item: Item) {
        Item::Function(function)
    }
}

impl FromSpecImpl<Function> for Item {
    open spec fn obeys_from_spec() -> bool {
        true
    }

    open spec fn from_spec(function: Function) -> Item {
        Item::Function(function)
    }
}

impl From<Stmt> for Item {
    fn from(stmt: Stmt) -> (item: Item) {
        Item::Stmt(stmt)
    }
}

impl FromSpecImpl<Stmt> for Item {
    open spec fn obeys_from_spec() -> bool {
        true
    }

    open spec fn from_spec(stmt: Stmt) -> Item {
        Item::Stmt(stmt)
    }
}

/// A copy of a list of items.
fn clone_items(items: &Vec<Item>) -> (copy: Vec<Item>)
    ensures
        item_views(copy@) == item_views(items@),
    decreases items,
{
    let mut copy: Vec<Item> = Vec::new();
    let mut i: usize = 0;
    while i < items.len()
        invariant
            i <= items.len(),
            copy.len() == i,
            forall|j: int| 0 <= j < i ==> copy[j]@ == items[j]@,
        decreases items.len() - i,
    {
        copy.push(items[i].clone());
        i += 1;
    }
    copy
}

impl Clone for Program {
    fn clone(&self) -> (copy: Program)
        ensures
            copy@ == self@,
    {
        Program { items: clone_items(&self.items) }
    }
}

impl Clone for Item {
    fn clone(&self) -> (copy: Item)
        ensures
            copy@ == self@,
        decreases self,
    {
        match self {
            Item::Module(module) => Item::Module(module.clone()),
            Item::Class(class) => Item::Class(class.clone()),
            Item::Function(function) => Item::Function(function.clone()),
            Item::Stmt(stmt) => Item::Stmt(stmt.clone()),
        }
    }
}

impl Clone for Module {
    fn clone(&self) -> (copy: Module)
        ensures
            copy@ == self@,
        decreases self,
    {
        Module { name: self.name.clone(), items: clone_items(&self.items) }
    }
}

impl Clone for Class {
    fn clone(&self) -> (copy: Class)
        ensures
            copy@ == self@,
        decreases self,
    {
        Class {
            name: self.name.clone(),
            items: clone_items(&self.items),
            superclass: match &self.superclass {
                Some(path) => Some(path.clone()),
                None => None,
            },
        }
    }
}

impl Clone for Function {
    fn clone(&self) -> (copy: Function)
        ensures
            copy@ == self@,
    {
        let mut parameters: Vec<Parameter> = Vec::new();
        let mut i: usize = 0;
        while i < self.parameters.len()
            invariant
                i <= self.parameters.len(),
                parameters.len() == i,
                forall|j: int| 0 <= j < i ==> parameters[j]@ == self.parameters[j]@,
            decreases self.parameters.len() - i,
        {
            parameters.push(self.parameters[i].clone());
            i += 1;
        }
        let mut statements: Vec<Stmt> = Vec::new();
        let mut i: usize = 0;
        while i < self.statements.len()
            invariant
                i <= self.statements.len(),
                statements.len() == i,
                forall|j: int| 0 <= j < i ==> statements[j]@ == self.statements[j]@,
            decreases self.statements.len() - i,
        {
            statements.push(self.statements[i].clone());
            i += 1;
        }
        assert(parameter_views(parameters@) =~= parameter_views(self.parameters@));
        assert(statement_views(statements@) =~= statement_views(self.statements@));
        Function { name: self.name.clone(), parameters, statements }
    }
}

impl Clone for Identifier {
    fn clone(&self) -> (copy: Identifier)
        ensures
            copy@ == self@,
    {
        Identifier(self.0.clone())
    }
}

impl Clone for Constant {
    fn clone(&self) -> (copy: Constant)
        ensures
            copy@ == self@,
    {
        Constant(self.0.clone())
    }
}

impl Clone for Path {
    fn clone(&self) -> (copy: Path)
        ensures
            copy@ == self@,
    {
        let mut parts: Vec<PathSegment> = Vec::new();
        let mut i: usize = 0;
        while i < self.parts.len()
            invariant
                i <= self.parts.len(),
                parts.len() == i,
                forall|j: int| 0 <= j < i ==> parts[j]@ == self.parts[j]@,
            decreases self.parts.len() - i,
        {
            parts.push(self.parts[i].clone());
            i += 1;
        }
        assert(segment_views(parts@) =~= segment_views(self.parts@));
        Path { parts }
    }
}

impl Clone for PathSegment {
    fn clone(&self) -> (copy: PathSegment)
        ensures
            copy@ == self@,
    {
        PathSegment { kind: self.kind.clone(), separator: self.separator }
    }
}

impl Clone for PathSegmentKind {
    fn clone(&self) -> (copy: PathSegmentKind)
        ensures
            copy@ == self@,
    {
        match self {
            PathSegmentKind::Constant(name) => PathSegmentKind::Constant(name.clone()),
            PathSegmentKind::Identifier(name) => PathSegmentKind::Identifier(name.clone()),
        }
    }
}

impl Clone for Argument {
    fn clone(&self) -> (copy: Argument)
        ensures
            copy@ == self@,
        decreases self,
    {
        match self {
            Argument::Positional(value) => Argument::Positional(value.clone()),
        }
    }
}

impl Clone for Parameter {
    fn clone(&self) -> (copy: Parameter)
        ensures
            copy@ == self@,
    {
        Parameter {
            name: self.name.clone(),
            default: match &self.default {
                Some(value) => {
                    let value: &Expr = value;
                    Some(Box::new(value.clone()))
                },
                None => None,
            },
        }
    }
}

} // verus!
