//! Whole-function and whole-module translation.
//!
//! A function declaration is translated into a [`FunctionUnit`]: its
//! hashed symbol, its arities, and the dense block plan of its body, with
//! parameter names pre-bound to the first variable slots.  A module is
//! translated in two passes: every declaration is entered into the symbol
//! registry first — so call sites resolve forward and mutual references —
//! and only then is each body translated.

use vstd::prelude::*;

verus! {

use crate::errors::CompileError;
use crate::middleware::Expression;
use crate::middleware::Expressions;
use crate::plan::plan_seq;
use crate::plan::Action;
use crate::plan::TranslationContext;
use crate::plan::VarsView;
use crate::plan::plan_sequence;
use crate::registry::FuncInfo;
use crate::registry::RegView;
use crate::registry::Registry;
use crate::symbols::symbol_of;
use crate::symbols::symbol_spec;

/// The fixed runtime-support functions every module imports, in function
/// table order.
#[derive(Debug, Clone, Copy, PartialEq, Eq, Structural)]
pub enum ExternalFn {
    /// `stdprint(v)`: print one value; no result.
    StdPrint,
    /// `add(a, b)`: the sum of two values.
    Add,
    /// `now()`: an opaque timing handle.
    Now,
    /// `elapsed(h)`: microseconds since the handle `h` was made.
    Elapsed,
}

/// What a function's code is: an imported runtime-support function, or the
/// block plan of a translated source function.
#[derive(Debug)]
pub enum FuncBody {
    External(ExternalFn),
    Defined(Vec<Action>),
}

/// One function of a compiled module.
#[derive(Debug)]
pub struct FunctionUnit {
    /// The source name.
    pub name: String,
    /// The hashed linker symbol.
    pub symbol: String,
    /// Number of value parameters.
    pub params: usize,
    /// Number of results: 0 or 1.
    pub returns: usize,
    /// The function's code.
    pub body: FuncBody,
}

/// A translated module: a dense function table (runtime imports first,
/// then one entry per source function, in declaration order) and the
/// registry that maps hashed symbols to table ids.
#[derive(Debug)]
pub struct CompiledModule {
    pub funcs: Vec<FunctionUnit>,
    pub registry: Registry,
}

/// The declared parameter pairs of a function type.  Declarations whose
/// type is of any other shape are rejected before this is consulted.
pub open spec fn param_list(fty: Expression) -> Seq<(Expression, Expression)> {
    if fty matches Expression::FunctionType { .. } {
        fty->FunctionType_params@
    } else {
        Seq::empty()
    }
}

/// The first parameter from index `i` on whose name is not an identifier.
pub open spec fn param_names_err(params: Seq<(Expression, Expression)>, i: int) -> Option<
    CompileError,
>
    decreases params.len() - i,
{
    if i < 0 || i >= params.len() {
        None
    } else if !(params[i].0 matches Expression::Ident(_)) {
        Some(CompileError::NotAnIdentifier)
    } else {
        param_names_err(params, i + 1)
    }
}

/// The initial bindings of a function translation: parameter `j` bound to
/// variable slot `j`.
pub open spec fn param_vars(params: Seq<(Expression, Expression)>) -> VarsView {
    Seq::new(params.len(), |j: int| ((params[j].0)->Ident_0@, j as usize))
}

/// What translating one function declaration yields: its name, its
/// parameter count, and its body's block plan — or the first error the
/// declaration forces.  A declaration that is not a function, or whose
/// declared type is not a function type, is `NotAFunction`; a name that is
/// not an identifier is `NotAnIdentifier`.
pub open spec fn plan_function(e: Expression, reg: RegView) -> Result<
    (Seq<char>, int, Seq<Action>),
    CompileError,
> {
    if !(e matches Expression::Function { .. }) {
        Err(CompileError::NotAFunction)
    } else if !(*e->Function_name matches Expression::Ident(_)) {
        Err(CompileError::NotAnIdentifier)
    } else if !(*e->Function_function_ty matches Expression::FunctionType { .. }) {
        Err(CompileError::NotAFunction)
    } else {
        let name = (*e->Function_name)->Ident_0@;
        let params = param_list(*e->Function_function_ty);
        match param_names_err(params, 0) {
            Some(er) => Err(er),
            None => match plan_seq(e->Function_body.0@, 0, param_vars(params), reg) {
                Err(er) => Err(er),
                Ok((acts, _)) => Ok((name, params.len() as int, acts)),
            },
        }
    }
}

/// Translate one function declaration into its block plan, with parameter
/// names bound to the first variable slots.
#[verifier::loop_isolation(false)]
pub fn translate_function(e: &Expression, reg: &Registry) -> (r: Result<
    FunctionUnit,
    CompileError,
>)
    ensures
        r matches Ok(u) ==> {
            &&& plan_function(*e, reg@) matches Ok(t) && (u.name@ == t.0 && u.params == t.1 && (
            u.body matches FuncBody::Defined(a) && a@ == t.2))
            &&& u.symbol@ == symbol_spec(u.name@)
            &&& u.returns == 1
        },
        r matches Err(er) ==> plan_function(*e, reg@) == Err::<
            (Seq<char>, int, Seq<Action>),
            CompileError,
        >(er),
{
    let (name, function_ty, body): (&Box<Expression>, &Box<Expression>, &Expressions) = match e {
        Expression::Function { name, function_ty, body } => (name, function_ty, body),
        _ => {
            return Err(CompileError::NotAFunction);
        },
    };
    let fname: String = match &**name {
        Expression::Ident(n) => n.clone(),
        _ => {
            return Err(CompileError::NotAnIdentifier);
        },
    };
    let params: &Vec<(Expression, Expression)> = match &**function_ty {
        Expression::FunctionType { params, .. } => params,
        _ => {
            return Err(CompileError::NotAFunction);
        },
    };
    proof {
        assert(params@ == param_list(*e->Function_function_ty));
    }
    let mut ctx = TranslationContext::new();
    let k = params.len();
    let mut j: usize = 0;
    proof {
        assert(ctx.vars_view() =~= param_vars(params@).take(0));
    }
    while j < k
        invariant
            j <= k,
            k == params@.len(),
            param_names_err(params@, 0) == param_names_err(params@, j as int),
            ctx.wf(),
            ctx.var_counter == j,
            ctx.block_counter == 0,
            ctx.tr_type == crate::plan::Dest::Temp,
            ctx.vars_view() == param_vars(params@).take(j as int),
        decreases k - j,
    {
        let pname: String = match &params[j].0 {
            Expression::Ident(n) => n.clone(),
            _ => {
                return Err(CompileError::NotAnIdentifier);
            },
        };
        ctx.bind(&pname, j);
        j = j + 1;
        proof {
            assert(ctx.vars_view() =~= param_vars(params@).take(j as int));
        }
    }
    proof {
        assert(param_vars(params@).take(k as int) =~= param_vars(params@));
    }
    let mut actions: Vec<Action> = Vec::new();
    match plan_sequence(&body.0, 0, reg, &mut ctx, &mut actions) {
        Ok(_) => {},
        Err(er) => {
            return Err(er);
        },
    }
    let symbol = symbol_of(fname.as_str());
    Ok(FunctionUnit { name: fname, symbol, params: k, returns: 1, body: FuncBody::Defined(actions) })
}

/// The registry contents after declaring the runtime-support functions:
/// print, add, and the two timing primitives, at table ids 0 to 3.
pub open spec fn builtin_reg() -> RegView {
    seq![
        (symbol_spec("stdprint"@), FuncInfo { id: 0, params: 1, returns: 0 }),
        (symbol_spec("add"@), FuncInfo { id: 1, params: 2, returns: 1 }),
        (symbol_spec("now"@), FuncInfo { id: 2, params: 0, returns: 1 }),
        (symbol_spec("elapsed"@), FuncInfo { id: 3, params: 1, returns: 1 }),
    ]
}

/// The first four entries of a module's function table are the
/// runtime-support imports, with their fixed arities.
pub open spec fn builtin_units_ok(funcs: Seq<FunctionUnit>) -> bool {
    &&& funcs.len() >= 4
    &&& funcs[0].name@ == "stdprint"@
    &&& funcs[0].symbol@ == symbol_spec("stdprint"@)
    &&& funcs[0].params == 1
    &&& funcs[0].returns == 0
    &&& funcs[0].body matches FuncBody::External(ExternalFn::StdPrint)
    &&& funcs[1].name@ == "add"@
    &&& funcs[1].symbol@ == symbol_spec("add"@)
    &&& funcs[1].params == 2
    &&& funcs[1].returns == 1
    &&& funcs[1].body matches FuncBody::External(ExternalFn::Add)
    &&& funcs[2].name@ == "now"@
    &&& funcs[2].symbol@ == symbol_spec("now"@)
    &&& funcs[2].params == 0
    &&& funcs[2].returns == 1
    &&& funcs[2].body matches FuncBody::External(ExternalFn::Now)
    &&& funcs[3].name@ == "elapsed"@
    &&& funcs[3].symbol@ == symbol_spec("elapsed"@)
    &&& funcs[3].params == 1
    &&& funcs[3].returns == 1
    &&& funcs[3].body matches FuncBody::External(ExternalFn::Elapsed)
}

/// Declare the runtime-support functions in the registry and the function
/// table, so source code can call them like any other function.
pub fn declare_runtime_functions(reg: &mut Registry, funcs: &mut Vec<FunctionUnit>)
    requires
        old(reg)@.len() == 0,
        old(funcs)@.len() == 0,
    ensures
        final(reg)@ == builtin_reg(),
        final(funcs)@.len() == 4,
        builtin_units_ok(final(funcs)@),
{
    reg.register("stdprint", 0, 1, 0);
    funcs.push(
        FunctionUnit {
            name: "stdprint".to_owned(),
            symbol: symbol_of("stdprint"),
            params: 1,
            returns: 0,
            body: FuncBody::External(ExternalFn::StdPrint),
        },
    );
    reg.register("add", 1, 2, 1);
    funcs.push(
        FunctionUnit {
            name: "add".to_owned(),
            symbol: symbol_of("add"),
            params: 2,
            returns: 1,
            body: FuncBody::External(ExternalFn::Add),
        },
    );
    reg.register("now", 2, 0, 1);
    funcs.push(
        FunctionUnit {
            name: "now".to_owned(),
            symbol: symbol_of("now"),
            params: 0,
            returns: 1,
            body: FuncBody::External(ExternalFn::Now),
        },
    );
    reg.register("elapsed", 3, 1, 1);
    funcs.push(
        FunctionUnit {
            name: "elapsed".to_owned(),
            symbol: symbol_of("elapsed"),
            params: 1,
            returns: 1,
            body: FuncBody::External(ExternalFn::Elapsed),
        },
    );
    proof {
        assert(reg@ =~= builtin_reg());
    }
}

/// The registry contents after declaring the functions of `stmts` from
/// index `i` on, over the declarations `reg0` already holds: each
/// declaration must be a function, named by an identifier, whose declared
/// type is a function type, and gets table id `4 + i` — independent of
/// translation order, which is what permits forward references.
pub open spec fn declared_reg(stmts: Seq<Expression>, i: int, reg0: RegView) -> Result<
    RegView,
    CompileError,
>
    decreases stmts.len() - i,
{
    if i < 0 || i >= stmts.len() {
        Ok(reg0)
    } else if !(stmts[i] matches Expression::Function { .. }) {
        Err(CompileError::NotAFunction)
    } else if !(*stmts[i]->Function_name matches Expression::Ident(_)) {
        Err(CompileError::NotAnIdentifier)
    } else if !(*stmts[i]->Function_function_ty matches Expression::FunctionType { .. }) {
        Err(CompileError::NotAFunction)
    } else {
        declared_reg(
            stmts,
            i + 1,
            reg0.push(
                (
                    symbol_spec((*stmts[i]->Function_name)->Ident_0@),
                    FuncInfo {
                        id: (4 + i) as usize,
                        params: param_list(*stmts[i]->Function_function_ty).len() as usize,
                        returns: 1,
                    },
                ),
            ),
        )
    }
}

/// The first translation error among the declarations from index `i` on,
/// resolved against the fully populated registry `reg`.
pub open spec fn first_plan_err(stmts: Seq<Expression>, i: int, reg: RegView) -> Option<
    CompileError,
>
    decreases stmts.len() - i,
{
    if i < 0 || i >= stmts.len() {
        None
    } else {
        match plan_function(stmts[i], reg) {
            Err(er) => Some(er),
            Ok(_) => first_plan_err(stmts, i + 1, reg),
        }
    }
}

/// Table entry `u` is the translation of the declaration `e` against the
/// registry `reg`.
pub open spec fn defined_unit_ok(u: FunctionUnit, e: Expression, reg: RegView) -> bool {
    &&& plan_function(e, reg) matches Ok(t) && (u.name@ == t.0 && u.params == t.1 && (
    u.body matches FuncBody::Defined(a) && a@ == t.2))
    &&& u.symbol@ == symbol_spec(u.name@)
    &&& u.returns == 1
}

/// Translate a lowered module: declare the runtime imports and every
/// source function in the registry, then translate each function body
/// against it.  The resulting function table holds the four imports at ids
/// 0 to 3 and the `j`-th source function at id `4 + j`.
#[verifier::loop_isolation(false)]
pub fn translate_module(exprs: &Expressions) -> (r: Result<CompiledModule, CompileError>)
    requires
        exprs.0@.len() + 4 <= usize::MAX,
    ensures
        r matches Ok(m) ==> {
            &&& declared_reg(exprs.0@, 0, builtin_reg()) matches Ok(rv) && (m.registry@ == rv && (
            first_plan_err(exprs.0@, 0, rv) is None) && (forall|j: int|
                0 <= j < exprs.0@.len() ==> defined_unit_ok(
                    #[trigger] m.funcs@[4 + j],
                    exprs.0@[j],
                    rv,
                )))
            &&& m.funcs@.len() == 4 + exprs.0@.len()
            &&& builtin_units_ok(m.funcs@)
        },
        r matches Err(er) ==> {
            ||| declared_reg(exprs.0@, 0, builtin_reg()) == Err::<RegView, CompileError>(er)
            ||| declared_reg(exprs.0@, 0, builtin_reg()) matches Ok(rv) && first_plan_err(
                exprs.0@,
                0,
                rv,
            ) == Some(er)
        },
{
    let stmts = &exprs.0;
    let n = stmts.len();
    let mut registry = Registry::new();
    let mut funcs: Vec<FunctionUnit> = Vec::new();
    declare_runtime_functions(&mut registry, &mut funcs);
    let mut i: usize = 0;
    while i < n
        invariant
            i <= n,
            declared_reg(stmts@, 0, builtin_reg()) == declared_reg(stmts@, i as int, registry@),
        decreases n - i,
    {
        match &stmts[i] {
            Expression::Function { name, function_ty, .. } => {
                let fname: String = match &**name {
                    Expression::Ident(nm) => nm.clone(),
                    _ => {
                        return Err(CompileError::NotAnIdentifier);
                    },
                };
                let k: usize = match &**function_ty {
                    Expression::FunctionType { params, .. } => params.len(),
                    _ => {
                        return Err(CompileError::NotAFunction);
                    },
                };
                proof {
                    assert(k == param_list(*stmts@[i as int]->Function_function_ty).len());
                }
                registry.register(fname.as_str(), 4 + i, k, 1);
            },
            _ => {
                return Err(CompileError::NotAFunction);
            },
        }
        i = i + 1;
    }
    let ghost rv = registry@;
    proof {
        assert(declared_reg(stmts@, 0, builtin_reg()) == Ok::<RegView, CompileError>(rv));
    }
    let mut i: usize = 0;
    while i < n
        invariant
            i <= n,
            funcs@.len() == 4 + i,
            registry@ == rv,
            builtin_units_ok(funcs@),
            first_plan_err(stmts@, 0, rv) == first_plan_err(stmts@, i as int, rv),
            forall|j: int|
                0 <= j < i ==> defined_unit_ok(#[trigger] funcs@[4 + j], stmts@[j], rv),
        decreases n - i,
    {
        let u = match translate_function(&stmts[i], &registry) {
            Ok(u) => u,
            Err(er) => {
                return Err(er);
            },
        };
        funcs.push(u);
        i = i + 1;
    }
    Ok(CompiledModule { funcs, registry })
}

impl CompiledModule {
    /// Resolve a source name to its callee facts through the registry.
    pub fn resolve(&self, name: &str) -> (r: Option<FuncInfo>)
        ensures
            r == crate::registry::reg_lookup(self.registry@, symbol_spec(name@)),
    {
        self.registry.resolve(name)
    }
}

} // verus!
