use unicorn::ast::Expr;
use unicorn::errors::CompileError;
use unicorn::interp::{create_process, drive, plans_fit, run_module, step, Outcome, StepResult, TrapReason};
use unicorn::middleware::Expressions;
use unicorn::plan::Action;
use unicorn::translator::{translate_module, CompiledModule, FuncBody};

fn ident(name: &str) -> Expr {
    Expr::Ident(name.to_string())
}

fn lit(text: &str) -> Expr {
    Expr::Lit(text.to_string())
}

fn call(name: &str, args: Vec<Expr>) -> Expr {
    Expr::Call { ident: Box::new(ident(name)), args }
}

fn assign(name: &str, ty: &str, value: Expr) -> Expr {
    Expr::Assign((Box::new(ident(name)), Box::new(ident(ty))), Box::new(value))
}

fn function(name: &str, params: Vec<(&str, &str)>, ret: &str, body: Vec<Expr>) -> Expr {
    Expr::Function {
        name: Box::new(ident(name)),
        function_ty: Box::new(Expr::FunctionType {
            params: params.into_iter().map(|(p, t)| (ident(p), ident(t))).collect(),
            ret_ty: Box::new(ident(ret)),
        }),
        body,
    }
}

fn compile(stmts: Vec<Expr>) -> CompiledModule {
    let lowered = Expressions::lower(&stmts).unwrap();
    let m = translate_module(&lowered).unwrap();
    assert!(plans_fit(&m));
    m
}

fn main_plan(m: &CompiledModule) -> &Vec<Action> {
    let info = m.resolve("main").unwrap();
    match &m.funcs[info.id].body {
        FuncBody::Defined(actions) => actions,
        FuncBody::External(_) => panic!("main must be a defined function"),
    }
}

#[test]
fn literal_round_trip() {
    // Compiling `main: -> i64 { 20; }` and executing the result yields 20.
    let m = compile(vec![function("main", vec![], "i64", vec![lit("20")])]);
    let (outcome, output) = run_module(&m, "main", 16).unwrap();
    assert_eq!(outcome, Outcome::Done(20));
    assert_eq!(output, Vec::<i64>::new());
}

#[test]
fn call_marshaling_prints_fifty() {
    // foo: a(i64) b(i64) -> i64 { add { a b } }
    // main: -> i64 { let r: i64 = foo { 20 30 }; stdprint { r } }
    let foo = function(
        "foo",
        vec![("a", "i64"), ("b", "i64")],
        "i64",
        vec![call("add", vec![ident("a"), ident("b")])],
    );
    let main = function(
        "main",
        vec![],
        "i64",
        vec![
            assign("r", "i64", call("foo", vec![lit("20"), lit("30")])),
            call("stdprint", vec![ident("r")]),
        ],
    );
    let m = compile(vec![foo, main]);
    let (outcome, output) = run_module(&m, "main", 16).unwrap();
    assert_eq!(output, vec![50]);
    assert_eq!(outcome, Outcome::Done(50));
}

#[test]
fn forward_reference_resolves() {
    // main calls foo, which is declared after it.
    let main = function("main", vec![], "i64", vec![call("foo", vec![lit("5")])]);
    let foo = function("foo", vec![("a", "i64")], "i64", vec![ident("a")]);
    let m = compile(vec![main, foo]);
    let (outcome, _) = run_module(&m, "main", 16).unwrap();
    assert_eq!(outcome, Outcome::Done(5));
}

#[test]
fn vars_buffer_grows_one_slot_per_assign() {
    // Two assignments: after full execution the vars buffer holds exactly
    // two slots, and each name reads back the value it was assigned.
    let main = function(
        "main",
        vec![],
        "i64",
        vec![assign("a", "i64", lit("20")), assign("b", "i64", lit("30")), ident("a")],
    );
    let m = compile(vec![main]);
    let plan = main_plan(&m);
    let mut proc = create_process(Vec::new());
    let mut output = Vec::new();
    let (outcome, _) = drive(&m, plan, &mut proc, &mut output, 16);
    assert_eq!(outcome, Outcome::Done(20));
    assert_eq!(proc.vars, vec![20, 30]);
}

#[test]
fn rebinding_reads_the_last_assignment() {
    // The buffer still grows by one slot per assign; the name reads back
    // the value it was last assigned.
    let main = function(
        "main",
        vec![],
        "i64",
        vec![assign("a", "i64", lit("20")), assign("a", "i64", lit("30")), ident("a")],
    );
    let m = compile(vec![main]);
    let plan = main_plan(&m);
    let mut proc = create_process(Vec::new());
    let mut output = Vec::new();
    let (outcome, _) = drive(&m, plan, &mut proc, &mut output, 16);
    assert_eq!(outcome, Outcome::Done(30));
    assert_eq!(proc.vars, vec![20, 30]);
}

#[test]
fn dispatch_traps_outside_declared_range() {
    let m = compile(vec![function("main", vec![], "i64", vec![lit("20")])]);
    let plan = main_plan(&m);
    let mut proc = create_process(Vec::new());
    let mut output = Vec::new();
    let beyond = (plan.len() + 1) as i64;
    assert_eq!(
        step(&m, plan, beyond, &mut proc, &mut output, 16),
        StepResult::Trapped(TrapReason::DispatchMiss)
    );
    assert_eq!(
        step(&m, plan, -2, &mut proc, &mut output, 16),
        StepResult::Trapped(TrapReason::DispatchMiss)
    );
    // The reserved terminal index returns the completion sentinel.
    assert_eq!(
        step(&m, plan, plan.len() as i64, &mut proc, &mut output, 16),
        StepResult::Next(-1)
    );
}

#[test]
fn stepping_index_by_index_matches_the_driver() {
    // Reentrancy: driving the compiled function one invocation at a time,
    // from 0 to completion, visits the block indices in plan order and
    // reaches the same final state as the driver loop.
    let main = function(
        "main",
        vec![],
        "i64",
        vec![assign("a", "i64", lit("20")), call("stdprint", vec![ident("a")])],
    );
    let m = compile(vec![main]);
    let plan = main_plan(&m);

    let mut proc = create_process(Vec::new());
    let mut output = Vec::new();
    let mut visited = Vec::new();
    let mut idx: i64 = 0;
    loop {
        visited.push(idx);
        match step(&m, plan, idx, &mut proc, &mut output, 16) {
            StepResult::Next(-1) => break,
            StepResult::Next(next) => idx = next,
            other => panic!("unexpected step result {other:?}"),
        }
    }
    let expected: Vec<i64> = (0..=plan.len() as i64).collect();
    assert_eq!(visited, expected);

    let mut proc2 = create_process(Vec::new());
    let mut output2 = Vec::new();
    let (outcome, _) = drive(&m, plan, &mut proc2, &mut output2, 16);
    assert_eq!(outcome, Outcome::Done(proc.temp));
    assert_eq!(output2, output);
    assert_eq!(proc2.vars, proc.vars);
}

#[test]
fn every_call_is_marked_and_buffer_freed_once() {
    // Argument-buffer lifecycle, on the lowered sequence: each call is
    // immediately preceded by its marker, with the matching count.
    let main = function(
        "main",
        vec![],
        "i64",
        vec![
            assign("r", "i64", call("add", vec![lit("1"), lit("2")])),
            call("stdprint", vec![ident("r")]),
        ],
    );
    let lowered = Expressions::lower(&vec![main]).unwrap();
    let body = match &lowered.0[0] {
        unicorn::middleware::Expression::Function { body, .. } => &body.0,
        other => panic!("expected a function, got {other:?}"),
    };
    for (j, e) in body.iter().enumerate() {
        let argc = match e {
            unicorn::middleware::Expression::Call { args, .. } => Some(args.0.len()),
            unicorn::middleware::Expression::ReturnCall { args, .. } => Some(args.0.len()),
            _ => None,
        };
        if let Some(argc) = argc {
            assert!(j >= 1);
            assert_eq!(body[j - 1], unicorn::middleware::Expression::BeforeCall(argc));
        }
    }
    // And in execution, the buffer is gone right after the call: the
    // process ends with no call-args buffer held.
    let m = compile(vec![function(
        "main",
        vec![],
        "i64",
        vec![call("add", vec![lit("1"), lit("2")])],
    )]);
    let plan = main_plan(&m);
    let mut proc = create_process(Vec::new());
    let mut output = Vec::new();
    let (outcome, _) = drive(&m, plan, &mut proc, &mut output, 16);
    assert_eq!(outcome, Outcome::Done(3));
    assert!(proc.call_args.is_empty());
}

#[test]
fn nested_call_argument_feeds_the_outer_buffer() {
    // A call nested in another call's argument builds its own buffer on
    // top of the outer one; once it runs, its result is copied into the
    // outer call's argument slot: add(add(1, 2), 3) is 6.
    let main = function(
        "main",
        vec![],
        "i64",
        vec![call("add", vec![call("add", vec![lit("1"), lit("2")]), lit("3")])],
    );
    let m = compile(vec![main]);
    let (outcome, _) = run_module(&m, "main", 16).unwrap();
    assert_eq!(outcome, Outcome::Done(6));
}

#[test]
fn doubly_nested_call_arguments_resolve() {
    // Two levels of nesting chain three pending buffers:
    // add(add(add(1, 2), 3), 4) is 10.
    let main = function(
        "main",
        vec![],
        "i64",
        vec![call(
            "add",
            vec![call("add", vec![call("add", vec![lit("1"), lit("2")]), lit("3")]), lit("4")],
        )],
    );
    let m = compile(vec![main]);
    let (outcome, _) = run_module(&m, "main", 16).unwrap();
    assert_eq!(outcome, Outcome::Done(10));
}

#[test]
fn recursion_exhausts_the_budget() {
    let main = function("main", vec![], "i64", vec![call("main", vec![])]);
    let m = compile(vec![main]);
    let (outcome, _) = run_module(&m, "main", 8).unwrap();
    assert_eq!(outcome, Outcome::OutOfFuel);
}

#[test]
fn timing_primitives_yield_the_model_zero() {
    let main = function("main", vec![], "i64", vec![call("now", vec![])]);
    let m = compile(vec![main]);
    let (outcome, _) = run_module(&m, "main", 16).unwrap();
    assert_eq!(outcome, Outcome::Done(0));
}

#[test]
fn add_wraps_on_overflow() {
    let main = function(
        "main",
        vec![],
        "i64",
        vec![call("add", vec![lit("9223372036854775807"), lit("1")])],
    );
    let m = compile(vec![main]);
    let (outcome, _) = run_module(&m, "main", 16).unwrap();
    assert_eq!(outcome, Outcome::Done(i64::MIN));
}

#[test]
fn unknown_variable_is_a_compile_error() {
    let main = function("main", vec![], "i64", vec![ident("x")]);
    let lowered = Expressions::lower(&vec![main]).unwrap();
    assert_eq!(translate_module(&lowered).err(), Some(CompileError::UnknownVariable));
}

#[test]
fn unknown_callee_is_a_compile_error() {
    let main = function("main", vec![], "i64", vec![call("nope", vec![])]);
    let lowered = Expressions::lower(&vec![main]).unwrap();
    assert_eq!(translate_module(&lowered).err(), Some(CompileError::UnknownFunction));
}

#[test]
fn top_level_non_function_is_rejected() {
    let lowered = Expressions::lower(&vec![lit("1")]).unwrap();
    assert_eq!(translate_module(&lowered).err(), Some(CompileError::NotAFunction));
}

#[test]
fn non_function_type_declaration_is_rejected() {
    // A declaration whose declared type is a bare identifier, not a
    // function type.
    let f = Expr::Function {
        name: Box::new(ident("main")),
        function_ty: Box::new(ident("i64")),
        body: vec![lit("1")],
    };
    let lowered = Expressions::lower(&vec![f]).unwrap();
    assert_eq!(translate_module(&lowered).err(), Some(CompileError::NotAFunction));
}

#[test]
fn arity_mismatch_is_a_compile_error() {
    // `add` takes two values; a one-argument call is rejected while
    // planning, not left for a runtime trap.
    let main = function("main", vec![], "i64", vec![call("add", vec![lit("1")])]);
    let lowered = Expressions::lower(&vec![main]).unwrap();
    assert_eq!(translate_module(&lowered).err(), Some(CompileError::ArityMismatch));
}

#[test]
fn declared_function_arity_binds_its_callers() {
    // A call to a source function with too many arguments is rejected the
    // same way.
    let foo = function("foo", vec![("a", "i64")], "i64", vec![ident("a")]);
    let main = function("main", vec![], "i64", vec![call("foo", vec![lit("1"), lit("2")])]);
    let lowered = Expressions::lower(&vec![foo, main]).unwrap();
    assert_eq!(translate_module(&lowered).err(), Some(CompileError::ArityMismatch));
}

#[test]
fn nested_function_definition_is_unsupported() {
    let inner = function("buzz", vec![], "nil", vec![]);
    let main = function("main", vec![], "i64", vec![inner, lit("1")]);
    let lowered = Expressions::lower(&vec![main]).unwrap();
    assert_eq!(translate_module(&lowered).err(), Some(CompileError::Unsupported));
}

#[test]
fn parameters_bind_to_the_first_slots() {
    // A parameter is readable like any assigned variable.
    let foo = function("foo", vec![("a", "i64")], "i64", vec![ident("a")]);
    let main = function("main", vec![], "i64", vec![call("foo", vec![lit("11")])]);
    let m = compile(vec![foo, main]);
    let (outcome, _) = run_module(&m, "main", 16).unwrap();
    assert_eq!(outcome, Outcome::Done(11));
}

#[test]
fn missing_entry_function_is_reported() {
    let foo = function("foo", vec![], "i64", vec![lit("1")]);
    let m = compile(vec![foo]);
    assert_eq!(run_module(&m, "main", 16), Err(CompileError::UnknownFunction));
}

#[test]
fn runtime_import_is_no_entry_function() {
    // A runtime import resolves through the registry but has no block
    // plan to drive.
    let m = compile(vec![function("main", vec![], "i64", vec![lit("1")])]);
    assert_eq!(run_module(&m, "stdprint", 16), Err(CompileError::Unsupported));
}
