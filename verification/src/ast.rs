//! The tree-shaped expression AST handed over by the source parser.

use vstd::prelude::*;

verus! {

/// A parsed surface-syntax expression.  Literals arrive as their source
/// text; the lowering pass turns them into machine integers.
#[derive(Debug, PartialEq, Eq)]
pub enum Expr {
    Ident(String),
    Call { ident: Box<Expr>, args: Vec<Expr> },
    Lit(String),
    Function { name: Box<Expr>, function_ty: Box<Expr>, body: Vec<Expr> },
    FunctionType { params: Vec<(Expr, Expr)>, ret_ty: Box<Expr> },
    Assign((Box<Expr>, Box<Expr>), Box<Expr>),
    GlobalDataAddr(Box<Expr>),
}

/// A parsed statement: either a bare expression or a function declaration.
pub enum Stmt {
    Expr(Expr),
    Function { name: Expr, params: Vec<Expr>, ret_ty: Expr, body: Vec<Stmt> },
}

} // verus!
