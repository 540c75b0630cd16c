//! Expressions.

use vstd::prelude::*;
use vstd::std_specs::convert::FromSpecImpl;
use super::{argument_views, Argument, ArgumentModel, Path, PathModel};

verus! {

/// An expression.
#[derive(Debug, PartialEq, Eq)]
pub enum Expr {
    Call(CallExpr),
    StringLiteral(StringLiteral),
}

/// A call: the path that is called, and what it is called with.
#[derive(Debug, PartialEq, Eq)]
pub struct CallExpr {
    pub callee: Path,
    pub arguments: Vec<Argument>,
}

/// A plain string literal.
#[derive(Debug, PartialEq, Eq)]
pub struct StringLiteral {
    pub value: String,
}

/// The mathematical value of an [`Expr`].
pub enum ExprModel {
    Call(CallExprModel),
    StringLiteral(Seq<char>),
}

/// The mathematical value of a [`CallExpr`].
pub struct CallExprModel {
    pub callee: PathModel,
    pub arguments: Seq<ArgumentModel>,
}

impl View for StringLiteral {
    type V = Seq<char>;

    open spec fn view(&self) -> Seq<char> {
        self.value@
    }
}

impl View for Expr {
    type V = ExprModel;

    open spec fn view(&self) -> ExprModel
        decreases self,
    {
        match self {
            Expr::Call(call) => ExprModel::Call(call@),
            Expr::StringLiteral(literal) => ExprModel::StringLiteral(literal@),
        }
    }
}

impl View for CallExpr {
    type V = CallExprModel;

    open spec fn view(&self) -> CallExprModel
        decreases self,
    {
        CallExprModel { callee: self.callee@, arguments: argument_views(self.arguments@) }
    }
}

impl From<CallExpr> for Expr {
    fn from(call: CallExpr) -> (expr: Expr) {
        Expr::Call(call)
    }
}

impl FromSpecImpl<CallExpr> for Expr {
    open spec fn obeys_from_spec() -> bool {
        true
    }

    open spec fn from_spec(call: CallExpr) -> Expr {
        Expr::Call(call)
    }
}

impl From<StringLiteral> for Expr {
    fn from(literal: StringLiteral) -> (expr: Expr) {
        Expr::StringLiteral(literal)
    }
}

impl FromSpecImpl<StringLiteral> for Expr {
    open spec fn obeys_from_spec() -> bool {
        true
    }

    open spec fn from_spec(literal: StringLiteral) -> Expr {
        Expr::StringLiteral(literal)
    }
}

impl Clone for Expr {
    fn clone(&self) -> (copy: Expr)
        ensures
            copy@ == self@,
        decreases self,
    {
        match self {
            Expr::Call(call) => Expr::Call(call.clone()),
            Expr::StringLiteral(literal) => Expr::StringLiteral(literal.clone()),
        }
    }
}

impl Clone for CallExpr {
    fn clone(&self) -> (copy: CallExpr)
        ensures
            copy@ == self@,
        decreases self,
    {
        let mut arguments: Vec<Argument> = Vec::new();
        let mut i: usize = 0;
        while i < self.arguments.len()
            invariant
                i <= self.arguments.len(),
                arguments.len() == i,
                forall|j: int| 0 <= j < i ==> arguments[j]@ == self.arguments[j]@,
            decreases self.arguments.len() - i,
        {
            arguments.push(self.arguments[i].clone());
            i += 1;
        }
        assert(argument_views(arguments@) =~= argument_views(self.arguments@));
        CallExpr { callee: self.callee.clone(), arguments }
    }
}

impl Clone for StringLiteral {
    fn clone(&self) -> (copy: StringLiteral)
        ensures
            copy@ == self@,
    {
        StringLiteral { value: self.value.clone() }
    }
}

} // verus!
