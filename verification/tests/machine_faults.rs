use unicorn::interp::{create_process, drive, Outcome, TrapReason};
use unicorn::middleware::Expressions;
use unicorn::plan::{Action, Dest};
use unicorn::translator::{translate_module, CompiledModule};

fn empty_module() -> CompiledModule {
    // Just the runtime imports.
    translate_module(&Expressions(vec![])).unwrap()
}

fn run(plan: Vec<Action>) -> Outcome {
    let m = empty_module();
    let mut proc = create_process(Vec::new());
    let mut output = Vec::new();
    let (outcome, _) = drive(&m, &plan, &mut proc, &mut output, 8);
    outcome
}

#[test]
fn loading_a_missing_slot_traps() {
    let outcome = run(vec![Action::LoadVar { slot: 5, dest: Dest::Temp }]);
    assert_eq!(outcome, Outcome::Trapped(TrapReason::VarOutOfRange));
}

#[test]
fn writing_an_argument_without_a_buffer_traps() {
    let outcome = run(vec![Action::Lit { value: 1, dest: Dest::Arg(0) }]);
    assert_eq!(outcome, Outcome::Trapped(TrapReason::NoArgBuffer));
}

#[test]
fn writing_outside_the_buffer_traps() {
    let outcome = run(vec![
        Action::AllocArgs { argc: 1 },
        Action::Lit { value: 1, dest: Dest::Arg(3) },
    ]);
    assert_eq!(outcome, Outcome::Trapped(TrapReason::ArgOutOfRange));
}

#[test]
fn calling_outside_the_function_table_traps() {
    let outcome = run(vec![
        Action::AllocArgs { argc: 0 },
        Action::Call { func: 99, argc: 0, returns: 1, tail: false },
    ]);
    assert_eq!(outcome, Outcome::Trapped(TrapReason::BadFunction));
}

#[test]
fn calling_with_the_wrong_arity_traps() {
    // Function 1 is the `add` import, which takes two values.
    let outcome = run(vec![
        Action::AllocArgs { argc: 1 },
        Action::Lit { value: 1, dest: Dest::Arg(0) },
        Action::Call { func: 1, argc: 1, returns: 1, tail: false },
    ]);
    assert_eq!(outcome, Outcome::Trapped(TrapReason::ArityMismatch));
}

#[test]
fn an_empty_plan_finishes_at_once() {
    let outcome = run(vec![]);
    assert_eq!(outcome, Outcome::Done(0));
}

#[test]
fn buffers_stack_innermost_first() {
    // Two pending buffers: argument writes land in the innermost, and its
    // call releases exactly it, uncovering the outer buffer for the
    // enclosing call.  Function 0 is the `stdprint` import.
    let m = empty_module();
    let mut proc = create_process(Vec::new());
    let mut output = Vec::new();
    let plan = vec![
        Action::AllocArgs { argc: 1 },
        Action::AllocArgs { argc: 1 },
        Action::Lit { value: 5, dest: Dest::Arg(0) },
        Action::Call { func: 0, argc: 1, returns: 0, tail: false },
        Action::Lit { value: 7, dest: Dest::Arg(0) },
        Action::Call { func: 0, argc: 1, returns: 0, tail: false },
    ];
    let (outcome, _) = drive(&m, &plan, &mut proc, &mut output, 8);
    assert_eq!(outcome, Outcome::Done(0));
    assert_eq!(output, vec![5, 7]);
    assert!(proc.call_args.is_empty());
}
