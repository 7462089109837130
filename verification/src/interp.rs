//! The process-execution model: process context, block dispatch, and the
//! driver loop.
//!
//! A compiled function is a dense table of blocks.  Invoking it with a
//! block index runs exactly one block and returns the next index; the
//! terminal index returns the sentinel `-1`, and any index outside the
//! declared range traps rather than falling into the dispatch table.  The
//! driver ([`drive`]) is the trampoline that repeatedly re-invokes the
//! function with the returned index until the sentinel appears, then reads
//! the temp slot as the program's result.
//!
//! [`run_plan`] is the direct structural traversal of a block plan — the
//! mathematical account of what executing a compiled function does to a
//! process context.  [`drive`] is proved to agree with it, which is the
//! reentrancy-equivalence law: driving index-by-index visits the same
//! blocks, in the same order, as the structural traversal.
//!
//! Faults of generated code (an out-of-range index, a write through an
//! empty call-args field, an out-of-range slot) are modeled as
//! [`TrapReason`] traps: fatal, non-recoverable termination of the running
//! process.  Heap exhaustion is the one generated-code fault the model
//! leaves out: the model's allocation always succeeds, where native code
//! executes a checked allocation that traps on failure.  The timing
//! primitives are modeled as returning zero; natively they resolve to the
//! linked runtime.

use vstd::prelude::*;

verus! {

use crate::plan::append_count;
use crate::plan::lemma_append_count_nonneg;
use crate::plan::Action;
use crate::plan::Dest;
use crate::translator::CompiledModule;
use crate::translator::ExternalFn;
use crate::translator::FuncBody;
use crate::translator::FunctionUnit;
use vstd::wrapping::i64_specs;

/// The sentinel index a compiled function returns when it has run to
/// completion.
pub const DONE_INDEX: i64 = -1;

/// A process context: the heap-resident state of one running process.
/// `vars` is the growable array of variable slots, `temp` the single-slot
/// scratch holding the most recently produced value, and `call_args` the
/// transient buffers of the calls currently being constructed, innermost
/// last — non-empty only while some call's arguments are being populated.
/// Natively the pending buffers chain through one hidden trailing slot
/// each, the context's single call-args field holding the innermost; that
/// chain is this stack, and it is what lets a call nested in another
/// call's argument build its own buffer without losing the outer one.
#[derive(Debug)]
pub struct Process {
    pub vars: Vec<i64>,
    pub temp: i64,
    pub call_args: Vec<Vec<i64>>,
}

/// The mathematical content of a process context.
pub struct ProcV {
    pub vars: Seq<i64>,
    pub temp: i64,
    pub call_args: Seq<Seq<i64>>,
}

impl View for Process {
    type V = ProcV;

    open spec fn view(&self) -> ProcV {
        ProcV {
            vars: self.vars@,
            temp: self.temp,
            call_args: self.call_args@.map_values(|buf: Vec<i64>| buf@),
        }
    }
}

/// Why generated code traps: fatal, non-recoverable faults of a running
/// process, deliberately outside the compiler's own error channel.
#[derive(Debug, Clone, Copy, PartialEq, Eq, Structural)]
pub enum TrapReason {
    /// A block index outside the declared range reached the dispatcher.
    DispatchMiss,
    /// A write through the call-args field while no buffer is allocated.
    NoArgBuffer,
    /// An argument slot outside the allocated buffer.
    ArgOutOfRange,
    /// A variable slot outside the vars buffer.
    VarOutOfRange,
    /// A call whose buffered arguments do not match the callee's
    /// parameter count.
    ArityMismatch,
    /// A callee id outside the module's function table.
    BadFunction,
}

/// What one invocation of a compiled function yields: the next block
/// index, a trap, or an exhausted call-depth budget.
#[derive(Debug, Clone, Copy, PartialEq, Eq, Structural)]
pub enum StepResult {
    Next(i64),
    Trapped(TrapReason),
    OutOfFuel,
}

/// What driving a process to completion yields: the program's result (the
/// final temp value), a trap, or an exhausted call-depth budget.
#[derive(Debug, Clone, Copy, PartialEq, Eq, Structural)]
pub enum Outcome {
    Done(i64),
    Trapped(TrapReason),
    OutOfFuel,
}

/// What one block does to the process, in the model.
pub enum BlockOut {
    Stepped(ProcV, Seq<i64>),
    BTrapped(TrapReason),
    BExhausted,
}

/// What running a plan to its end does, in the model.
pub enum SpecRun {
    Finished(ProcV, Seq<i64>),
    RTrapped(TrapReason),
    RExhausted,
}

/// The parameter count of a runtime import.
pub open spec fn external_params(x: ExternalFn) -> usize {
    match x {
        ExternalFn::StdPrint => 1,
        ExternalFn::Add => 2,
        ExternalFn::Now => 0,
        ExternalFn::Elapsed => 1,
    }
}

/// The result count of a runtime import.
pub open spec fn external_returns(x: ExternalFn) -> usize {
    match x {
        ExternalFn::StdPrint => 0,
        ExternalFn::Add => 1,
        ExternalFn::Now => 1,
        ExternalFn::Elapsed => 1,
    }
}

/// A function table the machine can run: every import is declared with its
/// real arities, and every block plan is short enough for its indices to
/// ride in the 64-bit index register.
pub open spec fn module_wf(funcs: Seq<FunctionUnit>) -> bool {
    forall|j: int|
        0 <= j < funcs.len() ==> match #[trigger] funcs[j].body {
            FuncBody::Defined(b) => b@.len() < i64::MAX,
            FuncBody::External(x) => funcs[j].params == external_params(x) && funcs[j].returns
                == external_returns(x),
        }
}

/// Deliver the value `v` to `dest`: the temp slot, or slot `i` of the
/// innermost pending call-args buffer — a fault if no buffer is allocated
/// or the slot is outside it.
pub open spec fn write_dest(p: ProcV, dest: Dest, v: i64) -> Result<ProcV, TrapReason> {
    match dest {
        Dest::Temp => Ok(ProcV { temp: v, ..p }),
        Dest::Arg(i) => if p.call_args.len() == 0 {
            Err(TrapReason::NoArgBuffer)
        } else {
            let buf = p.call_args.last();
            if i < buf.len() {
                Ok(
                    ProcV {
                        call_args: p.call_args.update(
                            p.call_args.len() - 1,
                            buf.update(i as int, v),
                        ),
                        ..p
                    },
                )
            } else {
                Err(TrapReason::ArgOutOfRange)
            }
        },
    }
}

/// The effect of one non-call block on the process context.
///
/// A call block is stepped by [`block_step`], which threads the function
/// table and the step budget; routing one through here faults.
pub open spec fn apply_simple(a: Action, p: ProcV) -> Result<ProcV, TrapReason> {
    match a {
        Action::Lit { value, dest } => write_dest(p, dest, value),
        Action::LoadVar { slot, dest } => if slot < p.vars.len() {
            write_dest(p, dest, p.vars[slot as int])
        } else {
            Err(TrapReason::VarOutOfRange)
        },
        Action::AllocArgs { argc } => Ok(
            ProcV { call_args: p.call_args.push(Seq::new(argc as nat, |k: int| 0i64)), ..p },
        ),
        Action::AppendVar { arg } => {
            let p2 = ProcV { vars: p.vars.push(p.temp), ..p };
            match arg {
                None => Ok(p2),
                Some(i) => write_dest(p2, Dest::Arg(i), p.temp),
            }
        },
        Action::BlockEnd { arg } => match arg {
            None => Ok(p),
            Some(i) => write_dest(p, Dest::Arg(i), p.temp),
        },
        Action::Call { .. } => Err(TrapReason::BadFunction),
    }
}

/// The effect of one block on the process context and the output trace.
///
/// A call consumes the innermost pending argument buffer — one must be
/// present and hold at least the call's argument count — releases it,
/// uncovering the enclosing call's buffer if any, and runs the callee: a
/// runtime import by its fixed meaning (print appends to the output
/// trace, add sums, the timing primitives yield the model's zero), or a
/// defined function as a fresh process whose vars buffer starts as the
/// marshaled arguments, driven to completion on a smaller call-depth
/// budget, its final temp value becoming the caller's.
pub open spec fn block_step(
    m: Seq<FunctionUnit>,
    a: Action,
    p: ProcV,
    out: Seq<i64>,
    fuel: nat,
) -> BlockOut
    decreases fuel, 0int, 0int,
{
    if !(a matches Action::Call { .. }) {
        match apply_simple(a, p) {
            Ok(p2) => BlockOut::Stepped(p2, out),
            Err(t) => BlockOut::BTrapped(t),
        }
    } else {
        let func = a->Call_func;
        let argc = a->Call_argc;
        if p.call_args.len() == 0 {
            BlockOut::BTrapped(TrapReason::NoArgBuffer)
        } else {
            let buf = p.call_args.last();
            if argc > buf.len() {
                BlockOut::BTrapped(TrapReason::ArgOutOfRange)
            } else {
                let args = buf.take(argc as int);
                let p2 = ProcV { call_args: p.call_args.drop_last(), ..p };
                if func >= m.len() {
                    BlockOut::BTrapped(TrapReason::BadFunction)
                } else if args.len() != m[func as int].params {
                    BlockOut::BTrapped(TrapReason::ArityMismatch)
                } else {
                    match m[func as int].body {
                        FuncBody::External(x) => match x {
                            ExternalFn::StdPrint => BlockOut::Stepped(p2, out.push(args[0])),
                            ExternalFn::Add => BlockOut::Stepped(
                                ProcV { temp: i64_specs::wrapping_add(args[0], args[1]), ..p2 },
                                out,
                            ),
                            ExternalFn::Now => BlockOut::Stepped(ProcV { temp: 0, ..p2 }, out),
                            ExternalFn::Elapsed => BlockOut::Stepped(ProcV { temp: 0, ..p2 }, out),
                        },
                        FuncBody::Defined(body) => if fuel == 0 {
                            BlockOut::BExhausted
                        } else {
                            let callee = ProcV { vars: args, temp: 0, call_args: Seq::empty() };
                            match run_plan(m, body@, 0, callee, out, (fuel - 1) as nat) {
                                SpecRun::Finished(pc, out2) => BlockOut::Stepped(
                                    ProcV { temp: pc.temp, ..p2 },
                                    out2,
                                ),
                                SpecRun::RTrapped(t) => BlockOut::BTrapped(t),
                                SpecRun::RExhausted => BlockOut::BExhausted,
                            }
                        },
                    }
                }
            }
        }
    }
}

/// The direct structural traversal of a block plan: run the blocks from
/// index `i` on, in order, each handing the state to the next.  This is
/// the reference against which the index-by-index driver is proved.
pub open spec fn run_plan(
    m: Seq<FunctionUnit>,
    acts: Seq<Action>,
    i: int,
    p: ProcV,
    out: Seq<i64>,
    fuel: nat,
) -> SpecRun
    decreases fuel, acts.len() - i + 1, 1int,
{
    if i < 0 || i >= acts.len() {
        SpecRun::Finished(p, out)
    } else {
        match block_step(m, acts[i], p, out, fuel) {
            BlockOut::Stepped(p2, out2) => run_plan(m, acts, i + 1, p2, out2, fuel),
            BlockOut::BTrapped(t) => SpecRun::RTrapped(t),
            BlockOut::BExhausted => SpecRun::RExhausted,
        }
    }
}

/// The process context a no-argument invocation starts from: an empty
/// vars buffer, a zeroed temp slot, and no call-args buffer.
pub open spec fn fresh_proc() -> ProcV {
    ProcV { vars: Seq::empty(), temp: 0, call_args: Seq::empty() }
}

/// Create a process context for a function invocation: the vars buffer
/// starts as the marshaled argument values, the temp slot is zeroed, and
/// no call-args buffer is allocated.
pub fn create_process(args: Vec<i64>) -> (r: Process)
    ensures
        r@.vars == args@,
        r@.temp == 0,
        r@.call_args == Seq::<Seq<i64>>::empty(),
{
    let r = Process { vars: args, temp: 0, call_args: Vec::new() };
    proof {
        assert(r@.call_args =~= Seq::<Seq<i64>>::empty());
    }
    r
}

/// A zeroed argument buffer of `n` slots, as checked allocation returns
/// it.
fn zero_buffer(n: usize) -> (r: Vec<i64>)
    ensures
        r@ == Seq::new(n as nat, |k: int| 0i64),
{
    let mut v: Vec<i64> = Vec::new();
    let mut j: usize = 0;
    while j < n
        invariant
            j <= n,
            v@ == Seq::new(j as nat, |k: int| 0i64),
        decreases n - j,
    {
        v.push(0);
        j = j + 1;
        proof {
            assert(v@ =~= Seq::new(j as nat, |k: int| 0i64));
        }
    }
    v
}

/// Deliver `v` to `dest` on the live process.
fn write_value(proc: &mut Process, dest: Dest, v: i64) -> (r: Result<(), TrapReason>)
    ensures
        r matches Ok(_) ==> write_dest(old(proc)@, dest, v) matches Ok(p2) && final(proc)@ == p2,
        r matches Err(t) ==> write_dest(old(proc)@, dest, v) == Err::<ProcV, TrapReason>(t),
{
    match dest {
        Dest::Temp => {
            proc.temp = v;
            Ok(())
        },
        Dest::Arg(i) => {
            let depth = proc.call_args.len();
            if depth == 0 {
                return Err(TrapReason::NoArgBuffer);
            }
            let mut buf = match proc.call_args.pop() {
                Some(buf) => buf,
                None => {
                    return Err(TrapReason::NoArgBuffer);
                },
            };
            if i < buf.len() {
                buf.set(i, v);
                proc.call_args.push(buf);
                proof {
                    assert(proc@.call_args =~~= old(proc)@.call_args.update(
                        old(proc)@.call_args.len() - 1,
                        old(proc)@.call_args.last().update(i as int, v),
                    ));
                }
                Ok(())
            } else {
                proc.call_args.push(buf);
                Err(TrapReason::ArgOutOfRange)
            }
        },
    }
}

/// One invocation of a compiled function: run the block `index` names and
/// return the next index — `-1` from the reserved terminal index — or
/// trap on an index outside `[0, plan.len()]`, the dispatch-safety
/// guarantee.
pub fn step(
    m: &CompiledModule,
    plan: &Vec<Action>,
    index: i64,
    proc: &mut Process,
    out: &mut Vec<i64>,
    fuel: u64,
) -> (r: StepResult)
    requires
        plan@.len() < i64::MAX,
        module_wf(m.funcs@),
    ensures
        index < 0 || index > plan@.len() ==> r == StepResult::Trapped(TrapReason::DispatchMiss)
            && final(proc)@ == old(proc)@ && final(out)@ == old(out)@,
        index == plan@.len() ==> r == StepResult::Next(DONE_INDEX) && final(proc)@ == old(proc)@
            && final(out)@ == old(out)@,
        0 <= index < plan@.len() ==> match block_step(
            m.funcs@,
            plan@[index as int],
            old(proc)@,
            old(out)@,
            fuel as nat,
        ) {
            BlockOut::Stepped(p2, o2) => r == StepResult::Next((index + 1) as i64) && final(proc)@ == p2
                && final(out)@ == o2,
            BlockOut::BTrapped(t) => r == StepResult::Trapped(t),
            BlockOut::BExhausted => r == StepResult::OutOfFuel,
        },
    decreases fuel, 0int,
{
    if index < 0 {
        return StepResult::Trapped(TrapReason::DispatchMiss);
    }
    if index > plan.len() as i64 {
        return StepResult::Trapped(TrapReason::DispatchMiss);
    }
    if index == plan.len() as i64 {
        return StepResult::Next(DONE_INDEX);
    }
    let idx = index as usize;
    let next = index + 1;
    match &plan[idx] {
        Action::Lit { value, dest } => match write_value(proc, *dest, *value) {
            Ok(_) => StepResult::Next(next),
            Err(t) => StepResult::Trapped(t),
        },
        Action::LoadVar { slot, dest } => {
            if *slot < proc.vars.len() {
                let v = proc.vars[*slot];
                match write_value(proc, *dest, v) {
                    Ok(_) => StepResult::Next(next),
                    Err(t) => StepResult::Trapped(t),
                }
            } else {
                StepResult::Trapped(TrapReason::VarOutOfRange)
            }
        },
        Action::AllocArgs { argc } => {
            let buf = zero_buffer(*argc);
            proc.call_args.push(buf);
            proof {
                assert(proc@.call_args =~~= old(proc)@.call_args.push(
                    Seq::new(*argc as nat, |k: int| 0i64),
                ));
            }
            StepResult::Next(next)
        },
        Action::AppendVar { arg } => {
            let v = proc.temp;
            proc.vars.push(v);
            match arg {
                None => StepResult::Next(next),
                Some(i) => match write_value(proc, Dest::Arg(*i), v) {
                    Ok(_) => StepResult::Next(next),
                    Err(t) => StepResult::Trapped(t),
                },
            }
        },
        Action::BlockEnd { arg } => match arg {
            None => StepResult::Next(next),
            Some(i) => {
                let v = proc.temp;
                match write_value(proc, Dest::Arg(*i), v) {
                    Ok(_) => StepResult::Next(next),
                    Err(t) => StepResult::Trapped(t),
                }
            },
        },
        Action::Call { func, argc, .. } => {
            let depth = proc.call_args.len();
            if depth == 0 {
                return StepResult::Trapped(TrapReason::NoArgBuffer);
            }
            let mut buf = match proc.call_args.pop() {
                Some(buf) => buf,
                None => {
                    return StepResult::Trapped(TrapReason::NoArgBuffer);
                },
            };
            proof {
                assert(proc@.call_args =~~= old(proc)@.call_args.drop_last());
                assert(buf@ == old(proc)@.call_args.last());
            }
            if *argc > buf.len() {
                return StepResult::Trapped(TrapReason::ArgOutOfRange);
            }
            buf.truncate(*argc);
            proof {
                assert(buf@ =~= old(proc)@.call_args.last().take(*argc as int));
            }
            if *func >= m.funcs.len() {
                return StepResult::Trapped(TrapReason::BadFunction);
            }
            if buf.len() != m.funcs[*func].params {
                return StepResult::Trapped(TrapReason::ArityMismatch);
            }
            proof {
                assert(module_wf(m.funcs@) && 0 <= *func < m.funcs@.len());
            }
            match &m.funcs[*func].body {
                FuncBody::External(x) => match x {
                    ExternalFn::StdPrint => {
                        out.push(buf[0]);
                        StepResult::Next(next)
                    },
                    ExternalFn::Add => {
                        proc.temp = buf[0].wrapping_add(buf[1]);
                        StepResult::Next(next)
                    },
                    ExternalFn::Now => {
                        proc.temp = 0;
                        StepResult::Next(next)
                    },
                    ExternalFn::Elapsed => {
                        proc.temp = 0;
                        StepResult::Next(next)
                    },
                },
                FuncBody::Defined(body) => {
                    if fuel == 0 {
                        return StepResult::OutOfFuel;
                    }
                    let mut callee = create_process(buf);
                    let (res, _vis) = drive(m, body, &mut callee, out, fuel - 1);
                    match res {
                        Outcome::Done(v) => {
                            proc.temp = v;
                            StepResult::Next(next)
                        },
                        Outcome::Trapped(t) => StepResult::Trapped(t),
                        Outcome::OutOfFuel => StepResult::OutOfFuel,
                    }
                },
            }
        },
    }
}

/// The driver loop: invoke the compiled function with block index 0, then
/// repeatedly with each returned index, until the sentinel `-1` signals
/// completion; the temp slot then holds the program's result.
///
/// This is the trampoline that makes reentry work — the function always
/// returns after one block, one reduction of the process's budget, and
/// the driver alone sequences the steps.  The contract is the
/// reentrancy-equivalence law: what the driver produces is exactly
/// [`run_plan`], the direct structural traversal of the block plan, and
/// (the ghost trace) a completed drive visits the block indices `0, 1,
/// ..., plan.len()`, each exactly once, in order.
pub fn drive(
    m: &CompiledModule,
    plan: &Vec<Action>,
    proc: &mut Process,
    out: &mut Vec<i64>,
    fuel: u64,
) -> (r: (Outcome, Ghost<Seq<int>>))
    requires
        plan@.len() < i64::MAX,
        module_wf(m.funcs@),
    ensures
        r.0 matches Outcome::Done(v) ==> run_plan(
            m.funcs@,
            plan@,
            0,
            old(proc)@,
            old(out)@,
            fuel as nat,
        ) == SpecRun::Finished(final(proc)@, final(out)@) && v == final(proc)@.temp && r.1@
            == Seq::new(plan@.len() + 1, |k: int| k),
        r.0 matches Outcome::Trapped(t) ==> run_plan(
            m.funcs@,
            plan@,
            0,
            old(proc)@,
            old(out)@,
            fuel as nat,
        ) == SpecRun::RTrapped(t),
        r.0 matches Outcome::OutOfFuel ==> run_plan(
            m.funcs@,
            plan@,
            0,
            old(proc)@,
            old(out)@,
            fuel as nat,
        ) == SpecRun::RExhausted,
    decreases fuel, 1int,
{
    let mut idx: i64 = 0;
    let ghost mut visited: Seq<int> = Seq::empty();
    loop
        invariant
            plan@.len() < i64::MAX,
            module_wf(m.funcs@),
            0 <= idx <= plan@.len(),
            visited == Seq::new(idx as nat, |k: int| k),
            run_plan(m.funcs@, plan@, 0, old(proc)@, old(out)@, fuel as nat) == run_plan(
                m.funcs@,
                plan@,
                idx as int,
                proc@,
                out@,
                fuel as nat,
            ),
        decreases plan@.len() - idx,
    {
        proof {
            visited = visited.push(idx as int);
            assert(visited =~= Seq::new((idx + 1) as nat, |k: int| k));
        }
        match step(m, plan, idx, proc, out, fuel) {
            StepResult::Next(next) => {
                if next == DONE_INDEX {
                    let v = proc.temp;
                    return (Outcome::Done(v), Ghost(visited));
                }
                idx = next;
            },
            StepResult::Trapped(t) => {
                return (Outcome::Trapped(t), Ghost(visited));
            },
            StepResult::OutOfFuel => {
                return (Outcome::OutOfFuel, Ghost(visited));
            },
        }
    }
}

/// Run a compiled module: resolve the exported entry function through the
/// registry, create its process with no arguments, and drive it to
/// completion.  Returns the final temp value and the output trace.
///
/// The entry name must resolve, through the registry, to a defined
/// function of the table: an unregistered name is `UnknownFunction`, and a
/// resolved id outside the table or naming a runtime import is
/// `Unsupported`.  What a successful run returns is exactly [`run_plan`],
/// the structural traversal of the entry function's block plan over a
/// fresh process and an empty output trace.
pub fn run_module(m: &CompiledModule, entry: &str, fuel: u64) -> (r: Result<
    (Outcome, Vec<i64>),
    crate::errors::CompileError,
>)
    requires
        module_wf(m.funcs@),
    ensures
        r matches Err(e) ==> {
            ||| crate::registry::reg_lookup(
                m.registry@,
                crate::symbols::symbol_spec(entry@),
            ) is None && e == crate::errors::CompileError::UnknownFunction
            ||| crate::registry::reg_lookup(
                m.registry@,
                crate::symbols::symbol_spec(entry@),
            ) matches Some(info) && (info.id >= m.funcs@.len() || m.funcs@[info.id as int].body
                matches FuncBody::External(_)) && e == crate::errors::CompileError::Unsupported
        },
        r matches Ok(ro) ==> {
            &&& crate::registry::reg_lookup(
                m.registry@,
                crate::symbols::symbol_spec(entry@),
            ) matches Some(info) && ({
                &&& info.id < m.funcs@.len()
                &&& m.funcs@[info.id as int].body matches FuncBody::Defined(body) && (match
                    run_plan(m.funcs@, body@, 0, fresh_proc(), Seq::empty(), fuel as nat) {
                    SpecRun::Finished(p1, o1) => ro.0 == Outcome::Done(p1.temp) && ro.1@ == o1,
                    SpecRun::RTrapped(t) => ro.0 == Outcome::Trapped(t),
                    SpecRun::RExhausted => ro.0 == Outcome::OutOfFuel,
                })
            })
        },
{
    let info = match m.resolve(entry) {
        Some(info) => info,
        None => {
            return Err(crate::errors::CompileError::UnknownFunction);
        },
    };
    if info.id >= m.funcs.len() {
        return Err(crate::errors::CompileError::Unsupported);
    }
    let plan: &Vec<Action> = match &m.funcs[info.id].body {
        FuncBody::Defined(body) => body,
        FuncBody::External(_) => {
            return Err(crate::errors::CompileError::Unsupported);
        },
    };
    proof {
        assert(m.funcs@[info.id as int].body matches FuncBody::Defined(b) && b@.len() < i64::MAX);
    }
    let mut proc = create_process(Vec::new());
    let mut out: Vec<i64> = Vec::new();
    proof {
        assert(proc@.vars =~= fresh_proc().vars);
        assert(proc@ == fresh_proc());
        assert(out@ =~= Seq::<i64>::empty());
    }
    let (res, _vis) = drive(m, plan, &mut proc, &mut out, fuel);
    Ok((res, out))
}

/// One block leaves the vars buffer alone, except that an `AppendVar`
/// block appends exactly the temp value.
pub proof fn lemma_block_vars(m: Seq<FunctionUnit>, a: Action, p: ProcV, out: Seq<i64>, fuel: nat)
    ensures
        block_step(m, a, p, out, fuel) matches BlockOut::Stepped(p2, _) ==> if a
            matches Action::AppendVar { .. } {
            p2.vars == p.vars.push(p.temp)
        } else {
            p2.vars == p.vars
        },
{
}

/// The vars-buffer law: a run that completes grows the vars buffer by
/// exactly one slot per `AppendVar` block — that is, per `Assign`
/// statement of the translated body — and never shrinks or rewrites the
/// slots it started with.  Since the translation binds each assigned name
/// to the slot its own `AppendVar` fills, and that slot is written exactly
/// once, looking a name up after the run yields the value it was last
/// assigned.
pub proof fn lemma_vars_growth(
    m: Seq<FunctionUnit>,
    acts: Seq<Action>,
    i: int,
    p: ProcV,
    out: Seq<i64>,
    fuel: nat,
    p2: ProcV,
    out2: Seq<i64>,
)
    requires
        run_plan(m, acts, i, p, out, fuel) == SpecRun::Finished(p2, out2),
    ensures
        p2.vars.len() == p.vars.len() + append_count(acts, i),
        p2.vars.take(p.vars.len() as int) == p.vars,
    decreases fuel, acts.len() - i + 1, 1int,
{
    if i < 0 || i >= acts.len() {
        assert(p.vars.take(p.vars.len() as int) =~= p.vars);
    } else {
        match block_step(m, acts[i], p, out, fuel) {
            BlockOut::Stepped(pm, om) => {
                lemma_block_vars(m, acts[i], p, out, fuel);
                assert(run_plan(m, acts, i + 1, pm, om, fuel) == SpecRun::Finished(p2, out2));
                lemma_vars_growth(m, acts, i + 1, pm, om, fuel, p2, out2);
                lemma_append_count_nonneg(acts, i + 1);
                assert(p2.vars.len() >= pm.vars.len());
                assert(pm.vars.len() >= p.vars.len());
                assert(p2.vars.take(pm.vars.len() as int) == pm.vars);
                assert forall|k: int| 0 <= k < p.vars.len() implies p2.vars[k] == p.vars[k] by {
                    assert(p2.vars.take(pm.vars.len() as int)[k] == pm.vars[k]);
                    assert(p2.vars.take(pm.vars.len() as int)[k] == p2.vars[k]);
                    assert(pm.vars[k] == p.vars[k]);
                }
                assert(p2.vars.take(p.vars.len() as int) =~= p.vars);
            },
            BlockOut::BTrapped(_) => {},
            BlockOut::BExhausted => {},
        }
    }
}

/// The value the run installs in vars slot `j`: the temp value consumed
/// by the one `AppendVar` block that grows the vars buffer from `j` to
/// `j + 1` slots — per the translation contract, the value the
/// assignment's own expression just produced.  Zero when the run never
/// creates slot `j`.
pub open spec fn appended_value(
    m: Seq<FunctionUnit>,
    acts: Seq<Action>,
    i: int,
    p: ProcV,
    out: Seq<i64>,
    fuel: nat,
    j: int,
) -> i64
    decreases acts.len() - i + 1,
{
    if i < 0 || i >= acts.len() {
        0
    } else {
        match block_step(m, acts[i], p, out, fuel) {
            BlockOut::Stepped(p2, o2) => if (acts[i] matches Action::AppendVar { .. })
                && p.vars.len() == j {
                p.temp
            } else {
                appended_value(m, acts, i + 1, p2, o2, fuel, j)
            },
            BlockOut::BTrapped(_) => 0,
            BlockOut::BExhausted => 0,
        }
    }
}

/// Every slot a completed run creates still holds, at the end, exactly
/// the value its own `AppendVar` block installed: no later block rewrites
/// an existing slot.
pub proof fn lemma_slots_hold_appended_values(
    m: Seq<FunctionUnit>,
    acts: Seq<Action>,
    i: int,
    p: ProcV,
    out: Seq<i64>,
    fuel: nat,
    p1: ProcV,
    out1: Seq<i64>,
)
    requires
        run_plan(m, acts, i, p, out, fuel) == SpecRun::Finished(p1, out1),
    ensures
        forall|j: int|
            p.vars.len() <= j < p1.vars.len() ==> p1.vars[j] == appended_value(
                m,
                acts,
                i,
                p,
                out,
                fuel,
                j,
            ),
    decreases acts.len() - i + 1,
{
    if 0 <= i < acts.len() {
        match block_step(m, acts[i], p, out, fuel) {
            BlockOut::Stepped(p2, o2) => {
                lemma_block_vars(m, acts[i], p, out, fuel);
                lemma_slots_hold_appended_values(m, acts, i + 1, p2, o2, fuel, p1, out1);
                lemma_vars_growth(m, acts, i + 1, p2, o2, fuel, p1, out1);
                assert forall|j: int|
                    p.vars.len() <= j < p1.vars.len() implies p1.vars[j] == appended_value(
                    m,
                    acts,
                    i,
                    p,
                    out,
                    fuel,
                    j,
                ) by {
                    if (acts[i] matches Action::AppendVar { .. }) && j == p.vars.len() {
                        assert(p2.vars == p.vars.push(p.temp));
                        assert(p1.vars.take(p2.vars.len() as int)[j] == p2.vars[j]);
                        assert(p1.vars[j] == p.temp);
                    } else {
                        assert(p2.vars.len() <= j);
                    }
                }
            },
            BlockOut::BTrapped(_) => {},
            BlockOut::BExhausted => {},
        }
    }
}

/// The argument-buffer lifecycle law, per block: `AllocArgs` pushes
/// exactly one fresh buffer, for the call it precedes; the blocks that
/// populate it (a literal, a load, an assignment, a block end) leave the
/// pending buffers in place; and a call — the only block that releases
/// one — finds its own buffer innermost and releases exactly it, right
/// after consuming the arguments it holds, uncovering the enclosing
/// call's buffer if one is pending.
pub proof fn lemma_buffer_lifecycle(
    m: Seq<FunctionUnit>,
    a: Action,
    p: ProcV,
    out: Seq<i64>,
    fuel: nat,
)
    ensures
        block_step(m, a, p, out, fuel) matches BlockOut::Stepped(p2, _) ==> match a {
            Action::AllocArgs { argc } => p2.call_args == p.call_args.push(
                Seq::new(argc as nat, |k: int| 0i64),
            ),
            Action::Call { .. } => p.call_args.len() > 0 && p2.call_args == p.call_args.drop_last(),
            _ => p2.call_args.len() == p.call_args.len(),
        },
{
}

/// The name-resolution law, joining the translation's binding discipline
/// to the machine's vars growth: after a completed run of a translated
/// body, the vars buffer holds exactly one live slot per binding, so
/// every name the translation bound — each parameter, and each assigned
/// name at the slot of its last assignment, which that assignment's
/// append filled and no later block rewrote — resolves to a live slot.
pub proof fn lemma_bound_names_resolve(
    m: Seq<FunctionUnit>,
    body: Seq<crate::middleware::Expression>,
    vars0: crate::plan::VarsView,
    reg: crate::registry::RegView,
    p0: ProcV,
    out: Seq<i64>,
    fuel: nat,
    p1: ProcV,
    out1: Seq<i64>,
)
    requires
        crate::plan::plan_seq(body, 0, vars0, reg) matches Ok(_),
        run_plan(
            m,
            crate::plan::plan_seq(body, 0, vars0, reg)->Ok_0.0,
            0,
            p0,
            out,
            fuel,
        ) == SpecRun::Finished(p1, out1),
        p0.vars.len() == vars0.len(),
        p1.vars.len() <= usize::MAX,
        crate::plan::slots_are_positions(vars0),
    ensures
        ({
            let pr = crate::plan::plan_seq(body, 0, vars0, reg)->Ok_0;
            &&& p1.vars.len() == pr.1.len()
            &&& forall|name: Seq<char>|
                crate::plan::var_lookup(pr.1, name) is Some ==> crate::plan::var_lookup(
                    pr.1,
                    name,
                )->Some_0 < p1.vars.len()
        }),
{
    let pr = crate::plan::plan_seq(body, 0, vars0, reg)->Ok_0;
    crate::plan::lemma_plan_seq_bindings(body, 0, vars0, reg);
    lemma_vars_growth(m, pr.0, 0, p0, out, fuel, p1, out1);
    assert forall|name: Seq<char>|
        crate::plan::var_lookup(pr.1, name) is Some implies crate::plan::var_lookup(
        pr.1,
        name,
    )->Some_0 < p1.vars.len() by {
        crate::plan::lemma_var_lookup_in_range(pr.1, name);
    }
}

/// Running past a concatenation's first fragment is running the second.
proof fn lemma_run_plan_shift(
    m: Seq<FunctionUnit>,
    a: Seq<Action>,
    b: Seq<Action>,
    j: int,
    p: ProcV,
    out: Seq<i64>,
    fuel: nat,
)
    requires
        0 <= j,
    ensures
        run_plan(m, a + b, a.len() + j, p, out, fuel) == run_plan(m, b, j, p, out, fuel),
    decreases fuel, b.len() - j + 1, 2int,
{
    if j < b.len() {
        assert((a + b)[a.len() + j] == b[j]);
        match block_step(m, b[j], p, out, fuel) {
            BlockOut::Stepped(p2, o2) => {
                lemma_run_plan_shift(m, a, b, j + 1, p2, o2, fuel);
            },
            BlockOut::BTrapped(_) => {},
            BlockOut::BExhausted => {},
        }
    }
}

/// Running a concatenation splits: the first fragment runs to its end,
/// and the second continues from the state it leaves.
pub proof fn lemma_run_plan_concat(
    m: Seq<FunctionUnit>,
    a: Seq<Action>,
    b: Seq<Action>,
    i: int,
    p: ProcV,
    out: Seq<i64>,
    fuel: nat,
)
    requires
        0 <= i <= a.len(),
    ensures
        run_plan(m, a + b, i, p, out, fuel) == match run_plan(m, a, i, p, out, fuel) {
            SpecRun::Finished(p1, o1) => run_plan(m, b, 0, p1, o1, fuel),
            SpecRun::RTrapped(t) => SpecRun::RTrapped(t),
            SpecRun::RExhausted => SpecRun::RExhausted,
        },
    decreases fuel, a.len() - i + 1, 2int,
{
    if i == a.len() {
        lemma_run_plan_shift(m, a, b, 0, p, out, fuel);
    } else {
        assert((a + b)[i] == a[i]);
        match block_step(m, a[i], p, out, fuel) {
            BlockOut::Stepped(p2, o2) => {
                lemma_run_plan_concat(m, a, b, i + 1, p2, o2, fuel);
            },
            BlockOut::BTrapped(_) => {},
            BlockOut::BExhausted => {},
        }
    }
}

/// The last-assignment law, per assignment: running an assignment's plan
/// first runs its value expression, then appends exactly the value that
/// expression produced — the temp it left behind — as the newest vars
/// slot, and binds the target name to that slot.  With the append-only
/// law ([`lemma_vars_growth`]) the slot still holds that value when any
/// enclosing run completes, and [`var_lookup`] resolves a name to its
/// latest binding, so looking a name up yields the value it was last
/// assigned.
pub proof fn lemma_assign_binds_its_value(
    m: Seq<FunctionUnit>,
    e: crate::middleware::Expression,
    mode: Dest,
    vars: crate::plan::VarsView,
    reg: crate::registry::RegView,
    p0: ProcV,
    out0: Seq<i64>,
    fuel: nat,
    p1: ProcV,
    out1: Seq<i64>,
)
    requires
        e matches crate::middleware::Expression::Assign(_, _),
        crate::plan::plan_expr(e, mode, vars, reg) matches Ok(_),
        run_plan(
            m,
            crate::plan::plan_expr(e, mode, vars, reg)->Ok_0.0,
            0,
            p0,
            out0,
            fuel,
        ) == SpecRun::Finished(p1, out1),
        p0.vars.len() == vars.len(),
        p1.vars.len() <= usize::MAX,
    ensures
        ({
            let pr = crate::plan::plan_expr(e, mode, vars, reg)->Ok_0;
            let name = (*(e->Assign_0.0))->Ident_0@;
            let sub = crate::plan::plan_expr(*e->Assign_1, Dest::Temp, vars, reg)->Ok_0;
            &&& run_plan(m, sub.0, 0, p0, out0, fuel) matches SpecRun::Finished(pv, ov) && (
            p1.vars == pv.vars.push(pv.temp) && p1.temp == pv.temp)
            &&& p1.vars.len() >= 1
            &&& crate::plan::var_lookup(pr.1, name) == Some((p1.vars.len() - 1) as usize)
            &&& p1.vars.last() == p1.temp
        }),
{
    let pr = crate::plan::plan_expr(e, mode, vars, reg)->Ok_0;
    let name = (*(e->Assign_0.0))->Ident_0@;
    let value = *e->Assign_1;
    let sub = crate::plan::plan_expr(value, Dest::Temp, vars, reg)->Ok_0;
    let av = Action::AppendVar { arg: crate::plan::arg_of(mode) };
    assert(pr.0 =~= sub.0 + seq![av]);
    lemma_run_plan_concat(m, sub.0, seq![av], 0, p0, out0, fuel);
    match run_plan(m, sub.0, 0, p0, out0, fuel) {
        SpecRun::Finished(pv, ov) => {
            crate::plan::lemma_plan_expr_bindings(value, Dest::Temp, vars, reg);
            lemma_vars_growth(m, sub.0, 0, p0, out0, fuel, pv, ov);
            assert(pv.vars.len() == sub.1.len());
            match block_step(m, av, pv, ov, fuel) {
                BlockOut::Stepped(pa, oa) => {
                    assert(pa.vars == pv.vars.push(pv.temp));
                    assert(pa.temp == pv.temp);
                    assert(run_plan(m, seq![av], 1, pa, oa, fuel) == SpecRun::Finished(pa, oa));
                },
                BlockOut::BTrapped(_) => {},
                BlockOut::BExhausted => {},
            }
            assert(pr.1 == sub.1.push((name, sub.1.len() as usize)));
            assert(pr.1.last() == (name, sub.1.len() as usize));
            assert(crate::plan::var_lookup(pr.1, name) == Some(sub.1.len() as usize));
        },
        SpecRun::RTrapped(_) => {},
        SpecRun::RExhausted => {},
    }
}

/// The last-assignment law, composed over a whole body: a completed run
/// of a planned statement sequence leaves every name the translation
/// bound resolving to its newest binding — re-assignment binds a fresh
/// slot, and later lookups read only the newest — and that slot still
/// holds exactly the value installed when the binding was made: for a
/// name bound by one of the body's assignments, the value that
/// assignment's own `AppendVar` block appended (the value its expression
/// produced, see [`lemma_assign_binds_its_value`]); for a name bound
/// before the body — a parameter — its original marshaled value.
pub proof fn lemma_each_name_reads_its_last_assignment(
    m: Seq<FunctionUnit>,
    body: Seq<crate::middleware::Expression>,
    vars0: crate::plan::VarsView,
    reg: crate::registry::RegView,
    p0: ProcV,
    out: Seq<i64>,
    fuel: nat,
    p1: ProcV,
    out1: Seq<i64>,
)
    requires
        crate::plan::plan_seq(body, 0, vars0, reg) matches Ok(_),
        run_plan(
            m,
            crate::plan::plan_seq(body, 0, vars0, reg)->Ok_0.0,
            0,
            p0,
            out,
            fuel,
        ) == SpecRun::Finished(p1, out1),
        p0.vars.len() == vars0.len(),
        p1.vars.len() <= usize::MAX,
        crate::plan::slots_are_positions(vars0),
    ensures
        ({
            let pr = crate::plan::plan_seq(body, 0, vars0, reg)->Ok_0;
            &&& pr.1.len() == p1.vars.len()
            &&& forall|nm: Seq<char>|
                #[trigger] crate::plan::var_lookup(pr.1, nm) is Some ==> {
                    let s = crate::plan::var_lookup(pr.1, nm)->Some_0 as int;
                    &&& s < p1.vars.len()
                    &&& pr.1[s].0 == nm
                    &&& (forall|k: int| s < k < pr.1.len() ==> (#[trigger] pr.1[k]).0 != nm)
                    &&& vars0.len() <= s ==> p1.vars[s] == appended_value(
                        m,
                        pr.0,
                        0,
                        p0,
                        out,
                        fuel,
                        s,
                    )
                    &&& s < vars0.len() ==> p1.vars[s] == p0.vars[s]
                }
        }),
{
    let pr = crate::plan::plan_seq(body, 0, vars0, reg)->Ok_0;
    crate::plan::lemma_plan_seq_bindings(body, 0, vars0, reg);
    lemma_vars_growth(m, pr.0, 0, p0, out, fuel, p1, out1);
    lemma_slots_hold_appended_values(m, pr.0, 0, p0, out, fuel, p1, out1);
    assert forall|nm: Seq<char>| #[trigger] crate::plan::var_lookup(pr.1, nm) is Some implies {
        let s = crate::plan::var_lookup(pr.1, nm)->Some_0 as int;
        &&& s < p1.vars.len()
        &&& pr.1[s].0 == nm
        &&& (forall|k: int| s < k < pr.1.len() ==> (#[trigger] pr.1[k]).0 != nm)
        &&& vars0.len() <= s ==> p1.vars[s] == appended_value(m, pr.0, 0, p0, out, fuel, s)
        &&& s < vars0.len() ==> p1.vars[s] == p0.vars[s]
    } by {
        crate::plan::lemma_var_lookup_latest(pr.1, nm);
        let s = crate::plan::var_lookup(pr.1, nm)->Some_0 as int;
        if s < vars0.len() {
            lemma_append_count_nonneg(pr.0, 0);
            assert(0 <= s < p0.vars.len() <= p1.vars.len());
            assert(p1.vars.take(p0.vars.len() as int)[s] == p0.vars[s]);
            assert(p1.vars.take(p0.vars.len() as int)[s] == p1.vars[s]);
        }
    }
}

/// Check, once per module, that the machine can run it: see [`module_wf`].
/// Holds of every table [`crate::translator::translate_module`] builds,
/// short of plans long enough to overflow the index register.
pub fn plans_fit(m: &CompiledModule) -> (r: bool)
    ensures
        r == module_wf(m.funcs@),
{
    let n = m.funcs.len();
    let mut j: usize = 0;
    while j < n
        invariant
            j <= n,
            n == m.funcs@.len(),
            forall|k: int|
                0 <= k < j ==> match #[trigger] m.funcs@[k].body {
                    FuncBody::Defined(b) => b@.len() < i64::MAX,
                    FuncBody::External(x) => m.funcs@[k].params == external_params(x)
                        && m.funcs@[k].returns == external_returns(x),
                },
        decreases n - j,
    {
        let ok = match &m.funcs[j].body {
            FuncBody::Defined(b) => (b.len() as u64) < (i64::MAX as u64),
            FuncBody::External(x) => {
                let (p, r): (usize, usize) = match x {
                    ExternalFn::StdPrint => (1, 0),
                    ExternalFn::Add => (2, 1),
                    ExternalFn::Now => (0, 1),
                    ExternalFn::Elapsed => (1, 1),
                };
                m.funcs[j].params == p && m.funcs[j].returns == r
            },
        };
        if !ok {
            return false;
        }
        j = j + 1;
    }
    true
}

} // verus!
