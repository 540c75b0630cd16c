//! Statements.

use vstd::prelude::*;
use super::expr::{Expr, ExprModel};

verus! {

/// A statement. The only kind is a bare expression.
#[derive(Debug, PartialEq, Eq)]
pub enum Stmt {
    Expr(Expr),
}

/// The mathematical value of a [`Stmt`].
pub enum StmtModel {
    Expr(ExprModel),
}

impl View for Stmt {
    type V = StmtModel;

    open spec fn view(&self) -> StmtModel {
        match self {
            Stmt::Expr(expr) => StmtModel::Expr(expr@),
        }
    }
}

/// The values of the statements of a body, in order.
pub open spec fn statement_views(statements: Seq<Stmt>) -> Seq<StmtModel> {
    Seq::new(statements.len(), |i: int| statements[i]@)
}

impl Clone for Stmt {
    fn clone(&self) -> (copy: Stmt)
        ensures
            copy@ == self@,
    {
        match self {
            Stmt::Expr(expr) => Stmt::Expr(expr.clone()),
        }
    }
}

} // verus!
