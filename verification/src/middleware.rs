//! Lowering: from the tree-shaped AST to a flat, call-marshaling-aware
//! sequence.
//!
//! The lowering walks a statement list and makes call argument preparation
//! explicit: every call is immediately preceded by a [`Expression::BeforeCall`]
//! marker carrying its argument count, a call in tail position becomes a
//! [`Expression::ReturnCall`], and a call nested in argument position is
//! wrapped in a [`Expression::Block`] holding its own marker/call pair so
//! that its temp-slot result can be copied into the enclosing call's
//! argument slot.
//!
//! Shape mismatches (a call or assignment whose target is not an
//! identifier, an unparsable literal, a global data address) are reported
//! as [`CompileError`]s; [`expr_err`] and [`seq_err_from`] say exactly
//! which error comes first for any input.

use vstd::prelude::*;

verus! {

use crate::ast::Expr;
use crate::errors::CompileError;
use crate::literal::lit_val;
use crate::literal::parse_i64;
use vstd::string::StringSliceAdditionalSpecFns;
use vstd::utf8::encode_utf8;

/// A lowered statement sequence.
#[derive(Debug, PartialEq, Eq)]
pub struct Expressions(pub Vec<Expression>);

/// One lowered expression; each one compiles to exactly one unit of native
/// code.
#[derive(Debug, PartialEq, Eq)]
pub enum Expression {
    Lit(i64),
    Ident(String),
    Call { ident: Box<Expression>, args: Expressions },
    ReturnCall { ident: Box<Expression>, args: Expressions },
    FFICall { ident: Box<Expression>, args: Expressions },
    BeforeCall(usize),
    Assign((Box<Expression>, Box<Expression>), Box<Expression>),
    Function { name: Box<Expression>, function_ty: Box<Expression>, body: Expressions },
    FunctionType { params: Vec<(Expression, Expression)>, ret_ty: Box<Expression> },
    Block(Expressions),
}

/// The first lowering error in `e`, in left-to-right traversal order, or
/// `None` when `e` lowers cleanly.
pub open spec fn expr_err(e: Expr) -> Option<CompileError>
    decreases e, 0int,
{
    match e {
        Expr::Ident(_) => None,
        Expr::Lit(s) => if lit_val(encode_utf8(s@)) is Some {
            None
        } else {
            Some(CompileError::BadLiteral)
        },
        Expr::Call { ident, args } => if !(*ident matches Expr::Ident(_)) {
            Some(CompileError::NotAnIdentifier)
        } else {
            seq_err_from(args@, 0)
        },
        Expr::Function { name, function_ty, body } => if expr_err(*name) is Some {
            expr_err(*name)
        } else if expr_err(*function_ty) is Some {
            expr_err(*function_ty)
        } else {
            seq_err_from(body@, 0)
        },
        Expr::FunctionType { params, ret_ty } => if params_err_from(params@, 0) is Some {
            params_err_from(params@, 0)
        } else {
            expr_err(*ret_ty)
        },
        Expr::Assign((target, ty), value) => if !(*target matches Expr::Ident(_)) {
            Some(CompileError::NotAnIdentifier)
        } else if expr_err(*ty) is Some {
            expr_err(*ty)
        } else {
            expr_err(*value)
        },
        Expr::GlobalDataAddr(_) => Some(CompileError::Unsupported),
    }
}

/// The first lowering error among the elements of `s` from index `i` on.
pub open spec fn seq_err_from(s: Seq<Expr>, i: int) -> Option<CompileError>
    decreases s, s.len() - i,
{
    if i < 0 || i >= s.len() {
        None
    } else if expr_err(s[i]) is Some {
        expr_err(s[i])
    } else {
        seq_err_from(s, i + 1)
    }
}

/// The first lowering error among the parameter pairs of a function type
/// from index `i` on.
pub open spec fn params_err_from(s: Seq<(Expr, Expr)>, i: int) -> Option<CompileError>
    decreases s, s.len() - i,
{
    if i < 0 || i >= s.len() {
        None
    } else if expr_err(s[i].0) is Some {
        expr_err(s[i].0)
    } else if expr_err(s[i].1) is Some {
        expr_err(s[i].1)
    } else {
        params_err_from(s, i + 1)
    }
}

/// `e` lowers, in expression position, to exactly `r`.
///
/// A call in expression position becomes a block holding its own
/// `BeforeCall` marker and the call itself.
pub open spec fn lowers_to(e: Expr, r: Expression) -> bool
    decreases e, 1int,
{
    match e {
        Expr::Ident(n) => r matches Expression::Ident(m) && m@ == n@,
        Expr::Lit(s) => r matches Expression::Lit(v) && lit_val(encode_utf8(s@)) == Some(v),
        Expr::Call { ident, args } => r matches Expression::Block(inner)
            && inner.0@.len() == 2
            && (inner.0@[0] matches Expression::BeforeCall(n) && n == args@.len())
            && call_lowers_to(*ident, args@, inner.0@[1], false),
        Expr::Function { name, function_ty, body } => r matches Expression::Function {
            name: rname,
            function_ty: rty,
            body: rbody,
        } && lowers_to(*name, *rname) && lowers_to(*function_ty, *rty) && stmts_lower_to(
            body@,
            0,
            rbody.0@,
        ),
        Expr::FunctionType { params, ret_ty } => r matches Expression::FunctionType {
            params: rparams,
            ret_ty: rret,
        } && params_lower_to(params@, 0, rparams@) && lowers_to(*ret_ty, *rret),
        Expr::Assign((target, ty), value) => {
            &&& *target matches Expr::Ident(_)
            &&& r matches Expression::Assign(
                (rtarget, rty),
                rvalue,
            ) && lowers_to(*target, *rtarget) && lowers_to(*ty, *rty) && lowers_to(*value, *rvalue)
        },
        Expr::GlobalDataAddr(_) => false,
    }
}

/// The call `ident(args)` lowers to the single lowered expression `r`: a
/// `ReturnCall` in tail position, a `Call` otherwise.
pub open spec fn call_lowers_to(ident: Expr, args: Seq<Expr>, r: Expression, tail: bool) -> bool
    decreases args, args.len() + 1,
{
    &&& ident matches Expr::Ident(n) && {
        let rident = if tail {
            spec_return_call_ident(r)
        } else {
            spec_call_ident(r)
        };
        let rargs = if tail {
            spec_return_call_args(r)
        } else {
            spec_call_args(r)
        };
        &&& if tail {
            r matches Expression::ReturnCall { .. }
        } else {
            r matches Expression::Call { .. }
        }
        &&& rident matches Expression::Ident(m) && m@ == n@
        &&& rargs.len() == args.len()
        &&& args_lower_to(args, 0, rargs)
    }
}

/// The `ident` field of a lowered `Call`.
pub open spec fn spec_call_ident(r: Expression) -> Expression {
    *r->Call_ident
}

/// The argument list of a lowered `Call`.
pub open spec fn spec_call_args(r: Expression) -> Seq<Expression> {
    r->Call_args.0@
}

/// The `ident` field of a lowered `ReturnCall`.
pub open spec fn spec_return_call_ident(r: Expression) -> Expression {
    *r->ReturnCall_ident
}

/// The argument list of a lowered `ReturnCall`.
pub open spec fn spec_return_call_args(r: Expression) -> Seq<Expression> {
    r->ReturnCall_args.0@
}

/// The argument expressions of `s` from index `i` on lower pointwise to
/// `r`: one lowered expression per argument.
pub open spec fn args_lower_to(s: Seq<Expr>, i: int, r: Seq<Expression>) -> bool
    decreases s, s.len() - i,
{
    if i < 0 || i > s.len() {
        false
    } else if i == s.len() {
        r.len() == 0
    } else {
        r.len() == s.len() - i && lowers_to(s[i], r[0]) && args_lower_to(s, i + 1, r.skip(1))
    }
}

/// The statements of `s` from index `i` on lower to the flat sequence `r`.
///
/// A call statement contributes its `BeforeCall` marker and the call
/// itself — a `ReturnCall` when it is the last statement of the body —
/// and every other statement contributes one lowered expression.
pub open spec fn stmts_lower_to(s: Seq<Expr>, i: int, r: Seq<Expression>) -> bool
    decreases s, s.len() - i,
{
    if i < 0 || i > s.len() {
        false
    } else if i == s.len() {
        r.len() == 0
    } else {
        match s[i] {
            Expr::Call { ident, args } => {
                &&& r.len() >= 2
                &&& r[0] matches Expression::BeforeCall(n) && n == args@.len()
                &&& call_lowers_to(*ident, args@, r[1], i == s.len() - 1)
                &&& stmts_lower_to(s, i + 1, r.skip(2))
            },
            _ => {
                &&& r.len() >= 1
                &&& lowers_to(s[i], r[0])
                &&& stmts_lower_to(s, i + 1, r.skip(1))
            },
        }
    }
}

/// The parameter pairs of `s` from index `i` on lower pointwise to `r`.
pub open spec fn params_lower_to(s: Seq<(Expr, Expr)>, i: int, r: Seq<(Expression, Expression)>) -> bool
    decreases s, s.len() - i,
{
    if i < 0 || i > s.len() {
        false
    } else if i == s.len() {
        r.len() == 0
    } else {
        r.len() == s.len() - i && lowers_to(s[i].0, r[0].0) && lowers_to(s[i].1, r[0].1)
            && params_lower_to(s, i + 1, r.skip(1))
    }
}

impl Expression {
    /// Lower one expression in expression position.
    pub fn lower(e: &Expr) -> (r: Result<Expression, CompileError>)
        ensures
            r matches Ok(x) ==> expr_err(*e) is None && lowers_to(*e, x),
            r matches Err(er) ==> expr_err(*e) == Some(er),
        decreases *e, 0int,
    {
        match e {
            Expr::Ident(n) => Ok(Expression::Ident(n.clone())),
            Expr::Lit(s) => {
                let v = parse_i64(s.as_str())?;
                Ok(Expression::Lit(v))
            },
            Expr::Call { ident, args } => {
                let (before, call) = lower_call(ident, args, false)?;
                Ok(Expression::Block(Expressions(vec![before, call])))
            },
            Expr::Function { name, function_ty, body } => {
                let lname = Expression::lower(name)?;
                let lty = Expression::lower(function_ty)?;
                let lbody = lower_stmts_from(body, 0)?;
                Ok(
                    Expression::Function {
                        name: Box::new(lname),
                        function_ty: Box::new(lty),
                        body: Expressions(lbody),
                    },
                )
            },
            Expr::FunctionType { params, ret_ty } => {
                let lparams = lower_params_from(params, 0)?;
                let lret = Expression::lower(ret_ty)?;
                Ok(Expression::FunctionType { params: lparams, ret_ty: Box::new(lret) })
            },
            Expr::Assign((target, ty), value) => {
                if !matches!(&**target, Expr::Ident(_)) {
                    return Err(CompileError::NotAnIdentifier);
                }
                let ltarget = Expression::lower(target)?;
                let lty = Expression::lower(ty)?;
                let lvalue = Expression::lower(value)?;
                Ok(
                    Expression::Assign(
                        (Box::new(ltarget), Box::new(lty)),
                        Box::new(lvalue),
                    ),
                )
            },
            Expr::GlobalDataAddr(_) => Err(CompileError::Unsupported),
        }
    }
}

impl Expressions {
    /// Lower a whole statement list, making call argument preparation
    /// explicit.
    pub fn lower(body: &Vec<Expr>) -> (r: Result<Expressions, CompileError>)
        ensures
            r matches Ok(x) ==> seq_err_from(body@, 0) is None && stmts_lower_to(body@, 0, x.0@),
            r matches Err(er) ==> seq_err_from(body@, 0) == Some(er),
    {
        let out = lower_stmts_from(body, 0)?;
        Ok(Expressions(out))
    }
}

/// Lower the call `ident(args)` into its marker and call pair.
fn lower_call(ident: &Box<Expr>, args: &Vec<Expr>, tail: bool) -> (r: Result<
    (Expression, Expression),
    CompileError,
>)
    ensures
        r matches Ok(x) ==> {
            &&& expr_err(Expr::Call { ident: *ident, args: *args }) is None
            &&& x.0 matches Expression::BeforeCall(n) && n == args@.len()
            &&& call_lowers_to(**ident, args@, x.1, tail)
        },
        r matches Err(er) ==> expr_err(Expr::Call { ident: *ident, args: *args }) == Some(er),
    decreases args@, args@.len() + 1,
{
    let name: String = match &**ident {
        Expr::Ident(n) => n.clone(),
        _ => {
            return Err(CompileError::NotAnIdentifier);
        },
    };
    let largs = lower_args_from(args, 0)?;
    let before = Expression::BeforeCall(args.len());
    let lident = Box::new(Expression::Ident(name));
    let call = if tail {
        Expression::ReturnCall { ident: lident, args: Expressions(largs) }
    } else {
        Expression::Call { ident: lident, args: Expressions(largs) }
    };
    Ok((before, call))
}

/// Lower the argument expressions of `args` from index `i` on, one lowered
/// expression per argument.
fn lower_args_from(args: &Vec<Expr>, i: usize) -> (r: Result<Vec<Expression>, CompileError>)
    requires
        i <= args@.len(),
    ensures
        r matches Ok(x) ==> seq_err_from(args@, i as int) is None && args_lower_to(
            args@,
            i as int,
            x@,
        ),
        r matches Err(er) ==> seq_err_from(args@, i as int) == Some(er),
    decreases args@, args@.len() - i,
{
    if i == args.len() {
        return Ok(Vec::new());
    }
    let first = Expression::lower(&args[i])?;
    let mut rest = lower_args_from(args, i + 1)?;
    let ghost rest0 = rest@;
    let mut out: Vec<Expression> = Vec::new();
    out.push(first);
    out.append(&mut rest);
    proof {
        assert(out@.skip(1) =~= rest0);
    }
    Ok(out)
}

/// Lower the statements of `body` from index `i` on into the flat lowered
/// sequence.
fn lower_stmts_from(body: &Vec<Expr>, i: usize) -> (r: Result<Vec<Expression>, CompileError>)
    requires
        i <= body@.len(),
    ensures
        r matches Ok(x) ==> seq_err_from(body@, i as int) is None && stmts_lower_to(
            body@,
            i as int,
            x@,
        ),
        r matches Err(er) ==> seq_err_from(body@, i as int) == Some(er),
    decreases body@, body@.len() - i,
{
    if i == body.len() {
        return Ok(Vec::new());
    }
    let mut out: Vec<Expression> = Vec::new();
    let ghost mut consumed: int = 0;
    match &body[i] {
        Expr::Call { ident, args } => {
            let tail = i == body.len() - 1;
            let (before, call) = lower_call(ident, args, tail)?;
            out.push(before);
            out.push(call);
            proof {
                consumed = 2;
            }
        },
        _ => {
            let first = Expression::lower(&body[i])?;
            out.push(first);
            proof {
                consumed = 1;
            }
        },
    }
    let mut rest = lower_stmts_from(body, i + 1)?;
    let ghost rest0 = rest@;
    out.append(&mut rest);
    proof {
        assert(out@.skip(consumed) =~= rest0);
    }
    Ok(out)
}

/// A lowered call expression, in either position.
pub open spec fn is_call_expr(e: Expression) -> bool {
    e matches Expression::Call { .. } || e matches Expression::ReturnCall { .. }
}

/// The argument count of a lowered call.
pub open spec fn call_argc(e: Expression) -> int {
    if e matches Expression::Call { .. } {
        e->Call_args.0@.len() as int
    } else {
        e->ReturnCall_args.0@.len() as int
    }
}

/// Call marshaling is explicit: in a lowered sequence, every call is
/// immediately preceded by exactly one `BeforeCall` marker carrying the
/// call's argument count, and every marker is immediately followed by the
/// call it serves.
pub open spec fn calls_marked(r: Seq<Expression>) -> bool {
    &&& forall|j: int|
        0 <= j < r.len() && is_call_expr(#[trigger] r[j]) ==> j >= 1 && (r[j
            - 1] matches Expression::BeforeCall(_)) && (r[j - 1])->BeforeCall_0 == call_argc(r[j])
    &&& forall|j: int|
        0 <= j < r.len() && (#[trigger] r[j] matches Expression::BeforeCall(_)) ==> j + 1 < r.len()
            && is_call_expr(r[j + 1]) && r[j]->BeforeCall_0 == call_argc(r[j + 1])
}

/// An expression lowered in expression position is never a bare call or a
/// bare marker: calls in expression position come wrapped in their own
/// block.
pub proof fn lemma_lowered_not_call(e: Expr, x: Expression)
    requires
        lowers_to(e, x),
    ensures
        !is_call_expr(x),
        !(x matches Expression::BeforeCall(_)),
{
}

/// The argument-buffer marking law: every statement sequence the lowering
/// produces pairs each call with exactly one matching `BeforeCall`, the
/// marker directly before the call.
pub proof fn lemma_lowering_marks_calls(s: Seq<Expr>, i: int, r: Seq<Expression>)
    requires
        stmts_lower_to(s, i, r),
    ensures
        calls_marked(r),
    decreases s, s.len() - i,
{
    if 0 <= i < s.len() {
        match s[i] {
            Expr::Call { ident, args } => {
                lemma_lowering_marks_calls(s, i + 1, r.skip(2));
                let c = r[1];
                assert(call_lowers_to(*ident, args@, c, i == s.len() - 1));
                if i == s.len() - 1 {
                    assert(c matches Expression::ReturnCall { .. });
                    assert(spec_return_call_args(c).len() == args@.len());
                } else {
                    assert(c matches Expression::Call { .. });
                    assert(spec_call_args(c).len() == args@.len());
                }
                assert(is_call_expr(c) && call_argc(c) == args@.len());
                assert forall|j: int|
                    0 <= j < r.len() && is_call_expr(#[trigger] r[j]) implies j >= 1 && (r[j
                    - 1] matches Expression::BeforeCall(_)) && (r[j - 1])->BeforeCall_0
                    == call_argc(r[j]) by {
                    if j >= 2 {
                        assert(r[j] == r.skip(2)[j - 2]);
                        if j >= 3 {
                            assert(r[j - 1] == r.skip(2)[j - 3]);
                        }
                    }
                }
                assert forall|j: int|
                    0 <= j < r.len() && (#[trigger] r[j] matches Expression::BeforeCall(_)) implies
                    j + 1 < r.len() && is_call_expr(r[j + 1]) && r[j]->BeforeCall_0 == call_argc(
                    r[j + 1]) by {
                    if j >= 2 {
                        assert(r[j] == r.skip(2)[j - 2]);
                        assert(r.skip(2)[j - 2 + 1] == r[j + 1]);
                    }
                }
            },
            _ => {
                lemma_lowering_marks_calls(s, i + 1, r.skip(1));
                lemma_lowered_not_call(s[i], r[0]);
                assert forall|j: int|
                    0 <= j < r.len() && is_call_expr(#[trigger] r[j]) implies j >= 1 && (r[j
                    - 1] matches Expression::BeforeCall(_)) && (r[j - 1])->BeforeCall_0
                    == call_argc(r[j]) by {
                    assert(r[j] == r.skip(1)[j - 1]);
                    if j >= 2 {
                        assert(r[j - 1] == r.skip(1)[j - 2]);
                    }
                }
                assert forall|j: int|
                    0 <= j < r.len() && (#[trigger] r[j] matches Expression::BeforeCall(_)) implies
                    j + 1 < r.len() && is_call_expr(r[j + 1]) && r[j]->BeforeCall_0 == call_argc(
                    r[j + 1]) by {
                    assert(r[j] == r.skip(1)[j - 1]);
                    assert(r.skip(1)[j - 1 + 1] == r[j + 1]);
                }
            },
        }
    }
}

/// Lower the parameter pairs of a function type from index `i` on.
fn lower_params_from(params: &Vec<(Expr, Expr)>, i: usize) -> (r: Result<
    Vec<(Expression, Expression)>,
    CompileError,
>)
    requires
        i <= params@.len(),
    ensures
        r matches Ok(x) ==> params_err_from(params@, i as int) is None && params_lower_to(
            params@,
            i as int,
            x@,
        ),
        r matches Err(er) ==> params_err_from(params@, i as int) == Some(er),
    decreases params@, params@.len() - i,
{
    if i == params.len() {
        return Ok(Vec::new());
    }
    let p0 = Expression::lower(&params[i].0)?;
    let p1 = Expression::lower(&params[i].1)?;
    let mut rest = lower_params_from(params, i + 1)?;
    let ghost rest0 = rest@;
    let mut out: Vec<(Expression, Expression)> = Vec::new();
    out.push((p0, p1));
    out.append(&mut rest);
    proof {
        assert(out@.skip(1) =~= rest0);
    }
    Ok(out)
}

} // verus!
