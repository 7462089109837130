//! Per-function translation: each lowered expression becomes exactly one
//! unit of native code ("block"), addressable by its dense, 0-based index.
//!
//! A block reads what it needs from the process context, delivers its value
//! to the temp slot or — when it computes a call argument — directly into
//! the pending call's argument buffer, and unconditionally hands control
//! back to the dispatcher with the next block index.  No block falls
//! through to another, which is what makes a compiled function
//! interruptible between any two lowered expressions.
//!
//! [`plan_expr`] is the mathematical account of the translation; the
//! executable translator is proved to produce exactly the action sequence
//! it describes, or the first [`CompileError`] the input forces.

use vstd::prelude::*;

verus! {

use crate::errors::CompileError;
use crate::middleware::Expression;
use crate::registry::reg_lookup;
use crate::registry::RegView;
use crate::registry::Registry;
use crate::symbols::symbol_spec;

/// Where a block delivers the value it produces: the process context's
/// temp slot (the default), or slot `i` of the argument buffer of the call
/// currently under construction.
#[derive(Debug, Clone, Copy, PartialEq, Eq, Structural)]
pub enum Dest {
    Temp,
    Arg(usize),
}

/// The action of one unit of generated code.  Every action additionally
/// returns control to the dispatcher with the index one past its own.
#[derive(Debug, Clone, Copy, PartialEq, Eq, Structural)]
pub enum Action {
    /// Materialize the immediate `value` and deliver it to `dest`.
    Lit { value: i64, dest: Dest },
    /// Load variable slot `slot` from the vars buffer and deliver it to
    /// `dest`.
    LoadVar { slot: usize, dest: Dest },
    /// Allocate an argument buffer of `argc` slots for the upcoming call
    /// and make it the innermost pending buffer, chained behind any
    /// enclosing call's (`BeforeCall`).
    AllocArgs { argc: usize },
    /// Call function `func` on the innermost buffered arguments, release
    /// that buffer — uncovering the enclosing call's, if one is pending —
    /// and store the result (when `returns > 0`) in the temp slot.
    Call { func: usize, argc: usize, returns: usize, tail: bool },
    /// Grow the vars buffer by one slot holding the temp value; when the
    /// assignment itself computes a call argument, also copy the value into
    /// argument slot `arg`.
    AppendVar { arg: Option<usize> },
    /// End of a block wrapper: when the block computes a call argument,
    /// copy the temp value (the block's last result) into argument slot
    /// `arg`.
    BlockEnd { arg: Option<usize> },
}

/// The number of `AppendVar` blocks — one per `Assign` in the translated
/// body — in `acts` from index `i` on.
pub open spec fn append_count(acts: Seq<Action>, i: int) -> int
    decreases acts.len() - i,
{
    if i < 0 || i >= acts.len() {
        0
    } else {
        (if acts[i] matches Action::AppendVar { .. } {
            1int
        } else {
            0int
        }) + append_count(acts, i + 1)
    }
}

/// A count of blocks is never negative.
pub proof fn lemma_append_count_nonneg(acts: Seq<Action>, i: int)
    ensures
        append_count(acts, i) >= 0,
    decreases acts.len() - i,
{
    if 0 <= i < acts.len() {
        lemma_append_count_nonneg(acts, i + 1);
    }
}

/// The name-to-slot bindings of one function translation, in binding
/// order; a later binding of the same name shadows the earlier one.
pub type VarsView = Seq<(Seq<char>, usize)>;

/// The slot the name `key` is bound to: that of the latest binding.
pub open spec fn var_lookup(s: VarsView, key: Seq<char>) -> Option<usize>
    decreases s.len(),
{
    if s.len() == 0 {
        None
    } else if s.last().0 == key {
        Some(s.last().1)
    } else {
        var_lookup(s.drop_last(), key)
    }
}

/// The slot a call-argument destination copies into, if any.
pub open spec fn arg_of(mode: Dest) -> Option<usize> {
    match mode {
        Dest::Temp => None,
        Dest::Arg(i) => Some(i),
    }
}

/// The blocks one lowered expression plans to, and the variable bindings
/// it leaves behind.
///
/// This is the translation contract: literals and variable loads deliver
/// to `mode`; an assignment plans its value in temp mode, appends one vars
/// slot and binds its name to that slot; a call plans each argument into
/// argument-slot mode and then the call itself; a block plans its contents
/// in temp mode and finally routes the temp value per `mode`.  Nested
/// function definitions, function types and foreign calls are not
/// supported; an unbound variable, an unregistered callee, or a call whose
/// argument count differs from the callee's declared parameter count is a
/// compile-time error.
pub open spec fn plan_expr(e: Expression, mode: Dest, vars: VarsView, reg: RegView) -> Result<
    (Seq<Action>, VarsView),
    CompileError,
>
    decreases e, 0int,
{
    match e {
        Expression::Lit(v) => Ok((seq![Action::Lit { value: v, dest: mode }], vars)),
        Expression::Ident(n) => match var_lookup(vars, n@) {
            Some(slot) => Ok((seq![Action::LoadVar { slot, dest: mode }], vars)),
            None => Err(CompileError::UnknownVariable),
        },
        Expression::BeforeCall(n) => Ok((seq![Action::AllocArgs { argc: n }], vars)),
        Expression::Call { ident, args } => plan_call(*ident, args.0@, false, vars, reg),
        Expression::ReturnCall { ident, args } => plan_call(*ident, args.0@, true, vars, reg),
        Expression::FFICall { .. } => Err(CompileError::Unsupported),
        Expression::Assign((target, _ty), value) => if !(*target matches Expression::Ident(_)) {
            Err(CompileError::NotAnIdentifier)
        } else {
            match plan_expr(*value, Dest::Temp, vars, reg) {
                Err(er) => Err(er),
                Ok((acts, vars2)) => Ok(
                    (
                        acts.push(Action::AppendVar { arg: arg_of(mode) }),
                        vars2.push(((*target)->Ident_0@, vars2.len() as usize)),
                    ),
                ),
            }
        },
        Expression::Function { .. } => Err(CompileError::Unsupported),
        Expression::FunctionType { .. } => Err(CompileError::Unsupported),
        Expression::Block(body) => match plan_seq(body.0@, 0, vars, reg) {
            Err(er) => Err(er),
            Ok((acts, vars2)) => Ok((acts.push(Action::BlockEnd { arg: arg_of(mode) }), vars2)),
        },
    }
}

/// Plan a call: the callee must be a registered identifier and the
/// argument count must match its declared parameter count; each argument
/// is planned into its argument slot, then the call block follows.
pub open spec fn plan_call(
    ident: Expression,
    args: Seq<Expression>,
    tail: bool,
    vars: VarsView,
    reg: RegView,
) -> Result<(Seq<Action>, VarsView), CompileError>
    decreases args, args.len() + 1,
{
    if !(ident matches Expression::Ident(_)) {
        Err(CompileError::NotAnIdentifier)
    } else {
        match reg_lookup(reg, symbol_spec(ident->Ident_0@)) {
            None => Err(CompileError::UnknownFunction),
            Some(info) => if args.len() != info.params {
                Err(CompileError::ArityMismatch)
            } else {
                match plan_args(args, 0, vars, reg) {
                    Err(er) => Err(er),
                    Ok((acts, vars2)) => Ok(
                        (
                            acts.push(
                                Action::Call {
                                    func: info.id,
                                    argc: args.len() as usize,
                                    returns: info.returns,
                                    tail,
                                },
                            ),
                            vars2,
                        ),
                    ),
                }
            },
        }
    }
}

/// Plan the argument expressions from index `i` on, each delivering into
/// its own argument slot.
pub open spec fn plan_args(args: Seq<Expression>, i: int, vars: VarsView, reg: RegView) -> Result<
    (Seq<Action>, VarsView),
    CompileError,
>
    decreases args, args.len() - i,
{
    if i < 0 || i >= args.len() {
        Ok((Seq::empty(), vars))
    } else {
        match plan_expr(args[i], Dest::Arg(i as usize), vars, reg) {
            Err(er) => Err(er),
            Ok((acts, vars2)) => match plan_args(args, i + 1, vars2, reg) {
                Err(er) => Err(er),
                Ok((acts2, vars3)) => Ok((acts + acts2, vars3)),
            },
        }
    }
}

/// Plan a statement sequence from index `i` on, each statement delivering
/// to the temp slot.
pub open spec fn plan_seq(body: Seq<Expression>, i: int, vars: VarsView, reg: RegView) -> Result<
    (Seq<Action>, VarsView),
    CompileError,
>
    decreases body, body.len() - i,
{
    if i < 0 || i >= body.len() {
        Ok((Seq::empty(), vars))
    } else {
        match plan_expr(body[i], Dest::Temp, vars, reg) {
            Err(er) => Err(er),
            Ok((acts, vars2)) => match plan_seq(body, i + 1, vars2, reg) {
                Err(er) => Err(er),
                Ok((acts2, vars3)) => Ok((acts + acts2, vars3)),
            },
        }
    }
}

/// The mutable state of one function translation: name-to-slot bindings,
/// the slot and block counters, and the current translation mode.  Created
/// fresh per function and discarded after its code is planned.
#[derive(Debug)]
pub struct TranslationContext {
    pub variables: Vec<(String, usize)>,
    pub var_counter: usize,
    pub block_counter: usize,
    pub tr_type: Dest,
}

impl TranslationContext {
    /// The bindings as the specification sees them.
    pub open spec fn vars_view(self) -> VarsView {
        self.variables@.map_values(|p: (String, usize)| (p.0@, p.1))
    }

    /// The slot counter counts the bindings.
    pub open spec fn wf(self) -> bool {
        self.var_counter == self.variables@.len()
    }

    /// A fresh context: no bindings, counters at zero, results to the temp
    /// slot.
    pub fn new() -> (r: TranslationContext)
        ensures
            r.wf(),
            r.vars_view() == Seq::<(Seq<char>, usize)>::empty(),
            r.block_counter == 0,
            r.tr_type == Dest::Temp,
    {
        let r = TranslationContext {
            variables: Vec::new(),
            var_counter: 0,
            block_counter: 0,
            tr_type: Dest::Temp,
        };
        proof {
            assert(r.vars_view() =~= Seq::<(Seq<char>, usize)>::empty());
        }
        r
    }

    /// Bind `name` to `slot` for all subsequent lookups.
    pub(crate) fn bind(&mut self, name: &String, slot: usize)
        requires
            old(self).wf(),
        ensures
            final(self).wf(),
            final(self).vars_view() == old(self).vars_view().push((name@, slot)),
            final(self).var_counter == old(self).var_counter + 1,
            final(self).block_counter == old(self).block_counter,
            final(self).tr_type == old(self).tr_type,
    {
        self.variables.push((name.clone(), slot));
        self.var_counter = self.variables.len();
        proof {
            assert(self.vars_view() =~= old(self).vars_view().push((name@, slot)));
        }
    }

    /// The slot `name` is bound to, latest binding winning.
    pub(crate) fn lookup(&self, name: &String) -> (r: Option<usize>)
        ensures
            r == var_lookup(self.vars_view(), name@),
    {
        let n = self.variables.len();
        let mut j: usize = n;
        proof {
            assert(self.vars_view().take(n as int) =~= self.vars_view());
        }
        while j > 0
            invariant
                j <= n,
                n == self.variables@.len(),
                n == self.vars_view().len(),
                var_lookup(self.vars_view(), name@) == var_lookup(
                    self.vars_view().take(j as int),
                    name@,
                ),
            decreases j,
        {
            j = j - 1;
            proof {
                assert(self.vars_view().take(j as int + 1).last() == self.vars_view()[j as int]);
                assert(self.vars_view()[j as int].0 == self.variables@[j as int].0@);
                assert(self.vars_view()[j as int].1 == self.variables@[j as int].1);
                assert(self.vars_view().take(j as int + 1).drop_last() =~= self.vars_view().take(
                    j as int,
                ));
            }
            if self.variables[j].0 == *name {
                return Some(self.variables[j].1);
            }
        }
        proof {
            assert(self.vars_view().take(0) =~= Seq::<(Seq<char>, usize)>::empty());
        }
        None
    }
}

/// Translate one lowered expression into the blocks `plan_expr` assigns
/// it, appending them to `out` in dense index order.
pub fn plan_expression(
    e: &Expression,
    reg: &Registry,
    ctx: &mut TranslationContext,
    out: &mut Vec<Action>,
) -> (r: Result<(), CompileError>)
    requires
        old(ctx).wf(),
        old(ctx).block_counter == old(out)@.len(),
    ensures
        final(ctx).wf(),
        final(ctx).block_counter == final(out)@.len(),
        r matches Ok(_) ==> {
            &&& plan_expr(*e, old(ctx).tr_type, old(ctx).vars_view(), reg@) matches Ok(pr)
                && final(out)@ == old(out)@ + pr.0 && final(ctx).vars_view() == pr.1
            &&& final(ctx).tr_type == old(ctx).tr_type
        },
        r matches Err(er) ==> plan_expr(*e, old(ctx).tr_type, old(ctx).vars_view(), reg@) == Err::<
            (Seq<Action>, VarsView),
            CompileError,
        >(er),
    decreases *e, 0int,
{
    match e {
        Expression::Lit(v) => {
            out.push(Action::Lit { value: *v, dest: ctx.tr_type });
            ctx.block_counter = out.len();
            proof {
                let pr = plan_expr(*e, old(ctx).tr_type, old(ctx).vars_view(), reg@)->Ok_0;
                assert(out@ =~= old(out)@ + pr.0);
            }
            Ok(())
        },
        Expression::Ident(n) => {
            match ctx.lookup(n) {
                Some(slot) => {
                    out.push(Action::LoadVar { slot, dest: ctx.tr_type });
                    ctx.block_counter = out.len();
                    proof {
                        let pr = plan_expr(*e, old(ctx).tr_type, old(ctx).vars_view(), reg@)->Ok_0;
                        assert(out@ =~= old(out)@ + pr.0);
                    }
                    Ok(())
                },
                None => Err(CompileError::UnknownVariable),
            }
        },
        Expression::BeforeCall(n) => {
            out.push(Action::AllocArgs { argc: *n });
            ctx.block_counter = out.len();
            proof {
                let pr = plan_expr(*e, old(ctx).tr_type, old(ctx).vars_view(), reg@)->Ok_0;
                assert(out@ =~= old(out)@ + pr.0);
            }
            Ok(())
        },
        Expression::Call { ident, args } => plan_call_blocks(ident, &args.0, false, reg, ctx, out),
        Expression::ReturnCall { ident, args } => plan_call_blocks(
            ident,
            &args.0,
            true,
            reg,
            ctx,
            out,
        ),
        Expression::FFICall { .. } => Err(CompileError::Unsupported),
        Expression::Assign((target, _ty), value) => {
            let name: String = match &**target {
                Expression::Ident(n) => n.clone(),
                _ => {
                    return Err(CompileError::NotAnIdentifier);
                },
            };
            let saved = ctx.tr_type;
            ctx.tr_type = Dest::Temp;
            let planned = plan_expression(value, reg, ctx, out);
            ctx.tr_type = saved;
            match planned {
                Ok(_) => {},
                Err(er) => {
                    return Err(er);
                },
            }
            let arg = match saved {
                Dest::Temp => None,
                Dest::Arg(i) => Some(i),
            };
            out.push(Action::AppendVar { arg });
            ctx.block_counter = out.len();
            let slot = ctx.var_counter;
            ctx.bind(&name, slot);
            proof {
                let pr = plan_expr(*e, old(ctx).tr_type, old(ctx).vars_view(), reg@)->Ok_0;
                assert(out@ =~= old(out)@ + pr.0);
                assert(ctx.vars_view() =~= pr.1);
            }
            Ok(())
        },
        Expression::Function { .. } => Err(CompileError::Unsupported),
        Expression::FunctionType { .. } => Err(CompileError::Unsupported),
        Expression::Block(body) => {
            let saved = ctx.tr_type;
            ctx.tr_type = Dest::Temp;
            let planned = plan_sequence(&body.0, 0, reg, ctx, out);
            ctx.tr_type = saved;
            match planned {
                Ok(_) => {},
                Err(er) => {
                    return Err(er);
                },
            }
            let arg = match saved {
                Dest::Temp => None,
                Dest::Arg(i) => Some(i),
            };
            out.push(Action::BlockEnd { arg });
            ctx.block_counter = out.len();
            proof {
                let pr = plan_expr(*e, old(ctx).tr_type, old(ctx).vars_view(), reg@)->Ok_0;
                assert(out@ =~= old(out)@ + pr.0);
            }
            Ok(())
        },
    }
}

/// Translate a call: resolve the callee through the registry, check the
/// argument count against its declared parameters, plan each argument into
/// its argument slot, then append the call block.
fn plan_call_blocks(
    ident: &Box<Expression>,
    args: &Vec<Expression>,
    tail: bool,
    reg: &Registry,
    ctx: &mut TranslationContext,
    out: &mut Vec<Action>,
) -> (r: Result<(), CompileError>)
    requires
        old(ctx).wf(),
        old(ctx).block_counter == old(out)@.len(),
    ensures
        final(ctx).wf(),
        final(ctx).block_counter == final(out)@.len(),
        r matches Ok(_) ==> {
            &&& plan_call(**ident, args@, tail, old(ctx).vars_view(), reg@) matches Ok(pr)
                && final(out)@ == old(out)@ + pr.0 && final(ctx).vars_view() == pr.1
            &&& final(ctx).tr_type == old(ctx).tr_type
        },
        r matches Err(er) ==> plan_call(**ident, args@, tail, old(ctx).vars_view(), reg@) == Err::<
            (Seq<Action>, VarsView),
            CompileError,
        >(er),
    decreases args@, args@.len() + 1,
{
    let name: String = match &**ident {
        Expression::Ident(n) => n.clone(),
        _ => {
            return Err(CompileError::NotAnIdentifier);
        },
    };
    let info = match reg.resolve(name.as_str()) {
        Some(info) => info,
        None => {
            return Err(CompileError::UnknownFunction);
        },
    };
    if args.len() != info.params {
        return Err(CompileError::ArityMismatch);
    }
    let saved = ctx.tr_type;
    let planned = plan_arguments(args, 0, reg, ctx, out);
    ctx.tr_type = saved;
    match planned {
        Ok(_) => {},
        Err(er) => {
            return Err(er);
        },
    }
    out.push(Action::Call { func: info.id, argc: args.len(), returns: info.returns, tail });
    ctx.block_counter = out.len();
    proof {
        let pr = plan_call(**ident, args@, tail, old(ctx).vars_view(), reg@)->Ok_0;
        assert(out@ =~= old(out)@ + pr.0);
    }
    Ok(())
}

/// Plan the argument expressions from index `i` on, each into its own
/// argument slot.
fn plan_arguments(
    args: &Vec<Expression>,
    i: usize,
    reg: &Registry,
    ctx: &mut TranslationContext,
    out: &mut Vec<Action>,
) -> (r: Result<(), CompileError>)
    requires
        i <= args@.len(),
        old(ctx).wf(),
        old(ctx).block_counter == old(out)@.len(),
    ensures
        final(ctx).wf(),
        final(ctx).block_counter == final(out)@.len(),
        r matches Ok(_) ==> {
            &&& plan_args(args@, i as int, old(ctx).vars_view(), reg@) matches Ok(pr)
                && final(out)@ == old(out)@ + pr.0 && final(ctx).vars_view() == pr.1
        },
        r matches Err(er) ==> plan_args(args@, i as int, old(ctx).vars_view(), reg@) == Err::<
            (Seq<Action>, VarsView),
            CompileError,
        >(er),
    decreases args@, args@.len() - i,
{
    if i >= args.len() {
        proof {
            let pr = plan_args(args@, i as int, old(ctx).vars_view(), reg@)->Ok_0;
            assert(out@ =~= old(out)@ + pr.0);
        }
        return Ok(());
    }
    ctx.tr_type = Dest::Arg(i);
    let planned = plan_expression(&args[i], reg, ctx, out);
    match planned {
        Ok(_) => {},
        Err(er) => {
            return Err(er);
        },
    }
    let rest = plan_arguments(args, i + 1, reg, ctx, out);
    match rest {
        Ok(_) => {},
        Err(er) => {
            return Err(er);
        },
    }
    proof {
        let pr = plan_args(args@, i as int, old(ctx).vars_view(), reg@)->Ok_0;
        assert(out@ =~= old(out)@ + pr.0);
    }
    Ok(())
}

/// Plan a statement sequence from index `i` on, each statement delivering
/// to the temp slot.
pub fn plan_sequence(
    body: &Vec<Expression>,
    i: usize,
    reg: &Registry,
    ctx: &mut TranslationContext,
    out: &mut Vec<Action>,
) -> (r: Result<(), CompileError>)
    requires
        i <= body@.len(),
        old(ctx).wf(),
        old(ctx).block_counter == old(out)@.len(),
    ensures
        final(ctx).wf(),
        final(ctx).block_counter == final(out)@.len(),
        r matches Ok(_) ==> {
            &&& plan_seq(body@, i as int, old(ctx).vars_view(), reg@) matches Ok(pr)
                && final(out)@ == old(out)@ + pr.0 && final(ctx).vars_view() == pr.1
        },
        r matches Err(er) ==> plan_seq(body@, i as int, old(ctx).vars_view(), reg@) == Err::<
            (Seq<Action>, VarsView),
            CompileError,
        >(er),
    decreases body@, body@.len() - i,
{
    if i >= body.len() {
        proof {
            let pr = plan_seq(body@, i as int, old(ctx).vars_view(), reg@)->Ok_0;
            assert(out@ =~= old(out)@ + pr.0);
        }
        return Ok(());
    }
    ctx.tr_type = Dest::Temp;
    let planned = plan_expression(&body[i], reg, ctx, out);
    match planned {
        Ok(_) => {},
        Err(er) => {
            return Err(er);
        },
    }
    let rest = plan_sequence(body, i + 1, reg, ctx, out);
    match rest {
        Ok(_) => {},
        Err(er) => {
            return Err(er);
        },
    }
    proof {
        let pr = plan_seq(body@, i as int, old(ctx).vars_view(), reg@)->Ok_0;
        assert(out@ =~= old(out)@ + pr.0);
    }
    Ok(())
}

/// Every bound slot is its binding's position: parameter `j` sits at slot
/// `j`, and each assignment at the slot its own append creates.
pub open spec fn slots_are_positions(vars: VarsView) -> bool {
    forall|j: int| 0 <= j < vars.len() ==> #[trigger] vars[j].1 == j
}

/// Appends counted past a concatenation's first part are the second
/// part's.
proof fn lemma_append_count_offset(a: Seq<Action>, b: Seq<Action>, i: int)
    requires
        0 <= i,
    ensures
        append_count(a + b, a.len() + i) == append_count(b, i),
    decreases b.len() - i,
{
    if i < b.len() {
        assert((a + b)[a.len() + i] == b[i]);
        lemma_append_count_offset(a, b, i + 1);
    }
}

/// Appends in a concatenation are the parts' appends, summed.
pub proof fn lemma_append_count_concat(a: Seq<Action>, b: Seq<Action>, i: int)
    requires
        0 <= i <= a.len(),
    ensures
        append_count(a + b, i) == append_count(a, i) + append_count(b, 0),
    decreases a.len() - i,
{
    if i == a.len() {
        lemma_append_count_offset(a, b, 0);
    } else {
        assert((a + b)[i] == a[i]);
        lemma_append_count_concat(a, b, i + 1);
    }
}

/// Appends in a sequence extended by one block.
pub proof fn lemma_append_count_push(a: Seq<Action>, x: Action)
    ensures
        append_count(a.push(x), 0) == append_count(a, 0) + (
        if x matches Action::AppendVar { .. } {
            1int
        } else {
            0int
        }),
{
    assert(a.push(x) =~= a + seq![x]);
    lemma_append_count_concat(a, seq![x], 0);
    assert(append_count(seq![x], 1) == 0);
    assert(append_count(seq![x], 0) == (if x matches Action::AppendVar { .. } {
        1int
    } else {
        0int
    }));
}

/// Planning only appends bindings: the bindings a translation leaves
/// behind extend the ones it started from by exactly one per `AppendVar`
/// block it plans, and every new slot is its binding's position.
pub proof fn lemma_plan_expr_bindings(e: Expression, mode: Dest, vars: VarsView, reg: RegView)
    requires
        plan_expr(e, mode, vars, reg) matches Ok(_),
    ensures
        plan_expr(e, mode, vars, reg) matches Ok(pr) && {
            &&& pr.1.len() == vars.len() + append_count(pr.0, 0)
            &&& pr.1.take(vars.len() as int) == vars
            &&& slots_are_positions(vars) && pr.1.len() <= usize::MAX ==> slots_are_positions(
                pr.1,
            )
        },
    decreases e, 2int,
{
    let pr = plan_expr(e, mode, vars, reg)->Ok_0;
    match e {
        Expression::Lit(_) => {
            assert(append_count(pr.0, 1) == 0);
            assert(pr.1.take(vars.len() as int) =~= vars);
        },
        Expression::Ident(_) => {
            assert(append_count(pr.0, 1) == 0);
            assert(pr.1.take(vars.len() as int) =~= vars);
        },
        Expression::BeforeCall(_) => {
            assert(append_count(pr.0, 1) == 0);
            assert(pr.1.take(vars.len() as int) =~= vars);
        },
        Expression::Call { ident, args } => {
            lemma_plan_call_bindings(*ident, args.0@, false, vars, reg);
        },
        Expression::ReturnCall { ident, args } => {
            lemma_plan_call_bindings(*ident, args.0@, true, vars, reg);
        },
        Expression::FFICall { .. } => {},
        Expression::Assign((_target, _ty), value) => {
            lemma_plan_expr_bindings(*value, Dest::Temp, vars, reg);
            let sub = plan_expr(*value, Dest::Temp, vars, reg)->Ok_0;
            lemma_append_count_push(sub.0, Action::AppendVar { arg: arg_of(mode) });
            lemma_append_count_nonneg(sub.0, 0);
            assert(pr.1.take(vars.len() as int) =~= vars);
            if slots_are_positions(vars) && pr.1.len() <= usize::MAX {
                assert forall|j: int| 0 <= j < pr.1.len() implies #[trigger] pr.1[j].1 == j by {
                    if j < sub.1.len() {
                        assert(pr.1[j] == sub.1[j]);
                    } else {
                        assert(pr.1[j].1 == sub.1.len() as usize);
                    }
                }
            }
        },
        Expression::Function { .. } => {},
        Expression::FunctionType { .. } => {},
        Expression::Block(body) => {
            lemma_plan_seq_bindings(body.0@, 0, vars, reg);
            let sub = plan_seq(body.0@, 0, vars, reg)->Ok_0;
            lemma_append_count_push(sub.0, Action::BlockEnd { arg: arg_of(mode) });
        },
    }
}

/// Binding discipline of a planned call: only its arguments bind.
pub proof fn lemma_plan_call_bindings(
    ident: Expression,
    args: Seq<Expression>,
    tail: bool,
    vars: VarsView,
    reg: RegView,
)
    requires
        plan_call(ident, args, tail, vars, reg) matches Ok(_),
    ensures
        plan_call(ident, args, tail, vars, reg) matches Ok(pr) && {
            &&& pr.1.len() == vars.len() + append_count(pr.0, 0)
            &&& pr.1.take(vars.len() as int) == vars
            &&& slots_are_positions(vars) && pr.1.len() <= usize::MAX ==> slots_are_positions(
                pr.1,
            )
        },
    decreases args, args.len() + 2,
{
    lemma_plan_args_bindings(args, 0, vars, reg);
    let sub = plan_args(args, 0, vars, reg)->Ok_0;
    let info = reg_lookup(reg, symbol_spec(ident->Ident_0@))->Some_0;
    lemma_append_count_push(
        sub.0,
        Action::Call { func: info.id, argc: args.len() as usize, returns: info.returns, tail },
    );
}

/// Binding discipline of a planned argument list.
pub proof fn lemma_plan_args_bindings(args: Seq<Expression>, i: int, vars: VarsView, reg: RegView)
    requires
        plan_args(args, i, vars, reg) matches Ok(_),
    ensures
        plan_args(args, i, vars, reg) matches Ok(pr) && {
            &&& pr.1.len() == vars.len() + append_count(pr.0, 0)
            &&& pr.1.take(vars.len() as int) == vars
            &&& slots_are_positions(vars) && pr.1.len() <= usize::MAX ==> slots_are_positions(
                pr.1,
            )
        },
    decreases args, args.len() - i,
{
    let pr = plan_args(args, i, vars, reg)->Ok_0;
    if i < 0 || i >= args.len() {
        assert(pr.1.take(vars.len() as int) =~= vars);
    } else {
        lemma_plan_expr_bindings(args[i], Dest::Arg(i as usize), vars, reg);
        let sub = plan_expr(args[i], Dest::Arg(i as usize), vars, reg)->Ok_0;
        lemma_plan_args_bindings(args, i + 1, sub.1, reg);
        let sub2 = plan_args(args, i + 1, sub.1, reg)->Ok_0;
        lemma_append_count_concat(sub.0, sub2.0, 0);
        lemma_append_count_nonneg(sub.0, 0);
        lemma_append_count_nonneg(sub2.0, 0);
        assert forall|k: int| 0 <= k < vars.len() implies pr.1[k] == vars[k] by {
            assert(sub2.1.take(sub.1.len() as int)[k] == sub.1[k]);
            assert(sub.1.take(vars.len() as int)[k] == vars[k]);
        }
        assert(pr.1.take(vars.len() as int) =~= vars);
    }
}

/// Binding discipline of a planned statement sequence.
pub proof fn lemma_plan_seq_bindings(body: Seq<Expression>, i: int, vars: VarsView, reg: RegView)
    requires
        plan_seq(body, i, vars, reg) matches Ok(_),
    ensures
        plan_seq(body, i, vars, reg) matches Ok(pr) && {
            &&& pr.1.len() == vars.len() + append_count(pr.0, 0)
            &&& pr.1.take(vars.len() as int) == vars
            &&& slots_are_positions(vars) && pr.1.len() <= usize::MAX ==> slots_are_positions(
                pr.1,
            )
        },
    decreases body, body.len() - i,
{
    let pr = plan_seq(body, i, vars, reg)->Ok_0;
    if i < 0 || i >= body.len() {
        assert(pr.1.take(vars.len() as int) =~= vars);
    } else {
        lemma_plan_expr_bindings(body[i], Dest::Temp, vars, reg);
        let sub = plan_expr(body[i], Dest::Temp, vars, reg)->Ok_0;
        lemma_plan_seq_bindings(body, i + 1, sub.1, reg);
        let sub2 = plan_seq(body, i + 1, sub.1, reg)->Ok_0;
        lemma_append_count_concat(sub.0, sub2.0, 0);
        lemma_append_count_nonneg(sub.0, 0);
        lemma_append_count_nonneg(sub2.0, 0);
        assert forall|k: int| 0 <= k < vars.len() implies pr.1[k] == vars[k] by {
            assert(sub2.1.take(sub.1.len() as int)[k] == sub.1[k]);
            assert(sub.1.take(vars.len() as int)[k] == vars[k]);
        }
        assert(pr.1.take(vars.len() as int) =~= vars);
    }
}

/// A name the bindings resolve names a live slot.
pub proof fn lemma_var_lookup_in_range(vars: VarsView, name: Seq<char>)
    requires
        slots_are_positions(vars),
        var_lookup(vars, name) is Some,
    ensures
        var_lookup(vars, name)->Some_0 < vars.len(),
    decreases vars.len(),
{
    if vars.len() > 0 && !(vars.last().0 == name) {
        assert(slots_are_positions(vars.drop_last()));
        lemma_var_lookup_in_range(vars.drop_last(), name);
    }
}

/// Lookup resolves a name to its newest binding: the slot found is a
/// binding of that very name, and no later binding carries it.
pub proof fn lemma_var_lookup_latest(vars: VarsView, name: Seq<char>)
    requires
        slots_are_positions(vars),
        var_lookup(vars, name) is Some,
    ensures
        ({
            let s = var_lookup(vars, name)->Some_0 as int;
            &&& 0 <= s < vars.len()
            &&& vars[s].0 == name
            &&& forall|k: int| s < k < vars.len() ==> (#[trigger] vars[k]).0 != name
        }),
    decreases vars.len(),
{
    lemma_var_lookup_in_range(vars, name);
    if vars.last().0 == name {
        assert(vars.last().1 == vars.len() - 1);
    } else {
        assert(slots_are_positions(vars.drop_last()));
        lemma_var_lookup_latest(vars.drop_last(), name);
        let s = var_lookup(vars, name)->Some_0 as int;
        assert(vars.drop_last()[s] == vars[s]);
        assert forall|k: int| s < k < vars.len() implies (#[trigger] vars[k]).0 != name by {
            if k < vars.len() - 1 {
                assert(vars[k] == vars.drop_last()[k]);
            }
        }
    }
}

} // verus!
