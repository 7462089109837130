//! Native-code emission: realize a translated module as machine code.
//!
//! Each [`crate::translator::FunctionUnit`] becomes one native function
//! with signature `(block_index, process_ctx_ptr, runtime_ptr) ->
//! next_block_index`: a multi-way branch keyed on the block index routes
//! to one unit of code per planned [`Action`], a reserved terminal index
//! returns the sentinel `-1`, and indices outside the declared set route
//! to a fatal trap.  An exported `main` driver allocates the runtime and
//! the first process and trampolines it to completion.
//!
//! What to emit is decided entirely by the verified translation
//! ([`crate::translator::translate_module`]); this module only walks the
//! plan and hands each decision to the code-emission library through the
//! trusted wrappers below.

use vstd::prelude::*;

verus! {

use crate::errors::CompileError;
use crate::plan::Action;
use crate::plan::Dest;

// The fixed byte layout of the process context (see
// `process_context_layout`, which derives it from the field list).
pub const PROCESS_CTX_VARS: i32 = 0;

pub const PROCESS_CTX_VARS_LEN: i32 = 8;

pub const PROCESS_CTX_FUNC_ADDR: i32 = 16;

pub const PROCESS_CTX_TEMP_VAL: i32 = 24;

pub const PROCESS_CTX_DEPENDENCIES: i32 = 32;

pub const PROCESS_CTX_CALL_ARGS_TEMP: i32 = 40;

pub const PROCESS_CTX_BUFFER_SIZE: i64 = 48;

pub const RUNTIME_BUFFER_SIZE: i64 = 40;

/// The process context layout of the data model, computed by the layout
/// engine: six pointer-sized fields at the byte offsets the emission
/// constants name, 48 bytes in all.
#[verifier::rlimit(50)]
pub fn process_context_layout() -> (r: crate::layout::TypeDef)
    ensures
        r.wf(),
        r.fields@.len() == 6,
        r.fields@[0].offset == PROCESS_CTX_VARS,
        r.fields@[1].offset == PROCESS_CTX_VARS_LEN,
        r.fields@[2].offset == PROCESS_CTX_FUNC_ADDR,
        r.fields@[3].offset == PROCESS_CTX_TEMP_VAL,
        r.fields@[4].offset == PROCESS_CTX_DEPENDENCIES,
        r.fields@[5].offset == PROCESS_CTX_CALL_ARGS_TEMP,
        r.size == PROCESS_CTX_BUFFER_SIZE,
{
    let mut fields: Vec<crate::layout::Field> = Vec::new();
    fields.push(crate::layout::Field::new("vars", crate::layout::ValueType::I64));
    fields.push(crate::layout::Field::new("vars_len", crate::layout::ValueType::I64));
    fields.push(crate::layout::Field::new("func_addr", crate::layout::ValueType::I64));
    fields.push(crate::layout::Field::new("temp_val", crate::layout::ValueType::I64));
    fields.push(crate::layout::Field::new("dependencies", crate::layout::ValueType::I64));
    fields.push(crate::layout::Field::new("call_args_temp", crate::layout::ValueType::I64));
    proof {
        assert(fields@.len() == 6);
        assert(forall|i: int| 0 <= i < 6 ==> #[trigger] fields@[i].ty == crate::layout::ValueType::I64);
    }
    let ty = crate::layout::TypeDef::new("process_ctx", fields);
    proof {
        assert(forall|i: int|
            0 <= i < 6 ==> #[trigger] ty.fields@[i].ty == crate::layout::ValueType::I64);
        assert(crate::layout::field_end(ty.fields@, 0) == 0);
        assert(ty.fields@[0].offset == 0);
        assert(crate::layout::field_end(ty.fields@, 1) == 8);
        assert(ty.fields@[1].offset == 8);
        assert(crate::layout::field_end(ty.fields@, 2) == 16);
        assert(ty.fields@[2].offset == 16);
        assert(crate::layout::field_end(ty.fields@, 3) == 24);
        assert(ty.fields@[3].offset == 24);
        assert(crate::layout::field_end(ty.fields@, 4) == 32);
        assert(ty.fields@[4].offset == 32);
        assert(crate::layout::field_end(ty.fields@, 5) == 40);
        assert(ty.fields@[5].offset == 40);
        assert(crate::layout::field_end(ty.fields@, 6) == 48);
        assert(crate::layout::struct_align_of(ty.fields@, 0) == 1);
        assert(crate::layout::struct_align_of(ty.fields@, 1) == 8);
        assert(crate::layout::struct_align_of(ty.fields@, 2) == 8);
        assert(crate::layout::struct_align_of(ty.fields@, 3) == 8);
        assert(crate::layout::struct_align_of(ty.fields@, 4) == 8);
        assert(crate::layout::struct_align_of(ty.fields@, 5) == 8);
        assert(crate::layout::struct_align_of(ty.fields@, 6) == 8);
        assert(ty.align == 8);
        assert(ty.wf());
        assert(((48int + 8 - 1) / 8) * 8 == 48) by (nonlinear_arith);
        assert(crate::layout::align_up_spec(48, 8) == 48);
        assert(ty.size == crate::layout::align_up_spec(
            crate::layout::field_end(ty.fields@, ty.fields@.len() as int),
            ty.align as int,
        ));
        assert(ty.size == 48);
    }
    ty
}

#[verifier::external_type_specification]
#[verifier::external_body]
pub struct ExObjectModule(cranelift_object::ObjectModule);

#[verifier::external_type_specification]
#[verifier::external_body]
pub struct ExFunctionBuilder<'a>(cranelift_frontend::FunctionBuilder<'a>);

#[verifier::external_type_specification]
#[verifier::external_body]
pub struct ExFunctionBuilderContext(cranelift_frontend::FunctionBuilderContext);

#[verifier::external_type_specification]
#[verifier::external_body]
pub struct ExContext(cranelift_codegen::Context);

#[verifier::external_type_specification]
#[verifier::external_body]
pub struct ExValue(cranelift_codegen::ir::Value);

#[verifier::external_type_specification]
#[verifier::external_body]
pub struct ExBlock(cranelift_codegen::ir::Block);

#[verifier::external_type_specification]
#[verifier::external_body]
pub struct ExVariable(cranelift_frontend::Variable);

#[verifier::external_type_specification]
#[verifier::external_body]
pub struct ExType(cranelift_codegen::ir::types::Type);

#[verifier::external_type_specification]
#[verifier::external_body]
pub struct ExSignature(cranelift_codegen::ir::Signature);

#[verifier::external_type_specification]
#[verifier::external_body]
pub struct ExSigRef(cranelift_codegen::ir::SigRef);

#[verifier::external_type_specification]
#[verifier::external_body]
pub struct ExFuncRef(cranelift_codegen::ir::FuncRef);

#[verifier::external_type_specification]
#[verifier::external_body]
pub struct ExFuncId(cranelift_module::FuncId);

#[verifier::external_type_specification]
#[verifier::external_body]
pub struct ExSwitch(cranelift_frontend::Switch);

/// Relies on cranelift_object::ObjectModule::new, ObjectBuilder::new,
/// cranelift_native::builder, and the settings builder: a fresh object
/// module targeting the host machine, `None` when the host has no native
/// backend or a setup step refuses its input.  One wrapper holds the whole
/// chain because its intermediates (the ISA builder, the boxed target ISA)
/// are trait objects no Verus signature can carry.
#[verifier::external_body]
fn new_object_module() -> Option<cranelift_object::ObjectModule> {
    let mut flag_builder = cranelift_codegen::settings::builder();
    cranelift_codegen::settings::Configurable::set(
        &mut flag_builder,
        "use_colocated_libcalls",
        "false",
    ).ok()?;
    cranelift_codegen::settings::Configurable::set(&mut flag_builder, "is_pic", "false").ok()?;
    let isa_builder = cranelift_native::builder().ok()?;
    let isa = isa_builder.finish(cranelift_codegen::settings::Flags::new(flag_builder)).ok()?;
    let builder = cranelift_object::ObjectBuilder::new(
        isa,
        "module",
        cranelift_module::default_libcall_names(),
    ).ok()?;
    Some(cranelift_object::ObjectModule::new(builder))
}

/// Relies on Module::target_config: the pointer type of the target ISA.
#[verifier::external_body]
fn pointer_type(module: &cranelift_object::ObjectModule) -> cranelift_codegen::ir::types::Type {
    cranelift_module::Module::target_config(module).pointer_type()
}

/// Relies on Module::make_signature: an empty signature in the module's
/// default calling convention.
#[verifier::external_body]
fn make_signature(module: &cranelift_object::ObjectModule) -> cranelift_codegen::ir::Signature {
    cranelift_module::Module::make_signature(module)
}

/// Relies on AbiParam::new: append one value parameter to a signature.
#[verifier::external_body]
fn sig_push_param(
    sig: &mut cranelift_codegen::ir::Signature,
    ty: cranelift_codegen::ir::types::Type,
) {
    sig.params.push(cranelift_codegen::ir::AbiParam::new(ty));
}

/// Relies on AbiParam::new: append one value result to a signature.
#[verifier::external_body]
fn sig_push_return(
    sig: &mut cranelift_codegen::ir::Signature,
    ty: cranelift_codegen::ir::types::Type,
) {
    sig.returns.push(cranelift_codegen::ir::AbiParam::new(ty));
}

/// Relies on Module::declare_function: enter a function by name and
/// linkage (import or export) into the module, yielding its id; `None`
/// when the module refuses the declaration.
#[verifier::external_body]
fn declare_function(
    module: &mut cranelift_object::ObjectModule,
    name: &str,
    import: bool,
    sig: &cranelift_codegen::ir::Signature,
) -> Option<cranelift_module::FuncId> {
    let linkage = if import {
        cranelift_module::Linkage::Import
    } else {
        cranelift_module::Linkage::Export
    };
    cranelift_module::Module::declare_function(module, name, linkage, sig).ok()
}

/// Relies on Module::define_function: attach the code built in `ctx` to
/// the declared function; `false` when the module refuses it.
#[verifier::external_body]
fn define_function(
    module: &mut cranelift_object::ObjectModule,
    id: cranelift_module::FuncId,
    ctx: &mut cranelift_codegen::Context,
) -> bool {
    cranelift_module::Module::define_function(module, id, ctx).is_ok()
}

/// Relies on Module::make_context: a fresh per-function compilation
/// context.
#[verifier::external_body]
fn make_context(module: &cranelift_object::ObjectModule) -> cranelift_codegen::Context {
    cranelift_module::Module::make_context(module)
}

/// Relies on Module::clear_context: reset the per-function context for
/// the next function.
#[verifier::external_body]
fn clear_context(module: &cranelift_object::ObjectModule, ctx: &mut cranelift_codegen::Context) {
    cranelift_module::Module::clear_context(module, ctx)
}

/// Relies on Module::declare_func_in_func: make a declared function
/// referencable from the function being built.
#[verifier::external_body]
fn declare_func_in_func(
    module: &mut cranelift_object::ObjectModule,
    id: cranelift_module::FuncId,
    builder: &mut cranelift_frontend::FunctionBuilder<'_>,
) -> cranelift_codegen::ir::FuncRef {
    cranelift_module::Module::declare_func_in_func(module, id, builder.func)
}

/// Relies on ObjectModule::finish and ObjectProduct::emit: serialize the
/// finished module to relocatable object bytes, `None` when the object
/// writer refuses the module.  One wrapper holds both calls: the
/// intermediate product exists only between them.
#[verifier::external_body]
fn finish_object(module: cranelift_object::ObjectModule) -> Option<Vec<u8>> {
    module.finish().emit().ok()
}

/// Relies on FunctionBuilderContext::new.
#[verifier::external_body]
fn new_builder_context() -> cranelift_frontend::FunctionBuilderContext {
    cranelift_frontend::FunctionBuilderContext::new()
}

/// Relies on FunctionBuilder::new, over the context's function under
/// construction.
#[verifier::external_body]
fn new_function_builder<'a>(
    ctx: &'a mut cranelift_codegen::Context,
    fbc: &'a mut cranelift_frontend::FunctionBuilderContext,
) -> cranelift_frontend::FunctionBuilder<'a> {
    cranelift_frontend::FunctionBuilder::new(&mut ctx.func, fbc)
}

/// Relies on FunctionBuilder::finalize, which in this library version
/// takes the target configuration (via Module::target_config).
#[verifier::external_body]
fn finalize_builder(
    builder: cranelift_frontend::FunctionBuilder<'_>,
    module: &cranelift_object::ObjectModule,
) {
    builder.finalize(cranelift_module::Module::target_config(module))
}

/// Relies on the builder's signature being the function's: append one
/// value parameter to the function under construction.
#[verifier::external_body]
fn func_sig_push_param(
    builder: &mut cranelift_frontend::FunctionBuilder<'_>,
    ty: cranelift_codegen::ir::types::Type,
) {
    builder.func.signature.params.push(cranelift_codegen::ir::AbiParam::new(ty));
}

/// Relies on the builder's signature being the function's: append one
/// value result to the function under construction.
#[verifier::external_body]
fn func_sig_push_return(
    builder: &mut cranelift_frontend::FunctionBuilder<'_>,
    ty: cranelift_codegen::ir::types::Type,
) {
    builder.func.signature.returns.push(cranelift_codegen::ir::AbiParam::new(ty));
}

/// Relies on Signature::clone: the signature of the function under
/// construction.
#[verifier::external_body]
fn func_sig_clone(
    builder: &cranelift_frontend::FunctionBuilder<'_>,
) -> cranelift_codegen::ir::Signature {
    builder.func.signature.clone()
}

/// Relies on FunctionBuilder::create_block.
#[verifier::external_body]
fn create_block(
    builder: &mut cranelift_frontend::FunctionBuilder<'_>,
) -> cranelift_codegen::ir::Block {
    builder.create_block()
}

/// Relies on FunctionBuilder::switch_to_block.
#[verifier::external_body]
fn switch_to_block(
    builder: &mut cranelift_frontend::FunctionBuilder<'_>,
    block: cranelift_codegen::ir::Block,
) {
    builder.switch_to_block(block)
}

/// Relies on FunctionBuilder::seal_block.
#[verifier::external_body]
fn seal_block(
    builder: &mut cranelift_frontend::FunctionBuilder<'_>,
    block: cranelift_codegen::ir::Block,
) {
    builder.seal_block(block)
}

/// Relies on FunctionBuilder::seal_all_blocks.
#[verifier::external_body]
fn seal_all_blocks(builder: &mut cranelift_frontend::FunctionBuilder<'_>) {
    builder.seal_all_blocks()
}

/// Relies on FunctionBuilder::append_block_param.
#[verifier::external_body]
fn append_block_param(
    builder: &mut cranelift_frontend::FunctionBuilder<'_>,
    block: cranelift_codegen::ir::Block,
    ty: cranelift_codegen::ir::types::Type,
) -> cranelift_codegen::ir::Value {
    builder.append_block_param(block, ty)
}

/// Relies on FunctionBuilder::block_params: the `i`-th parameter of a
/// block, `None` when the block has no such parameter.
#[verifier::external_body]
fn block_param(
    builder: &cranelift_frontend::FunctionBuilder<'_>,
    block: cranelift_codegen::ir::Block,
    i: usize,
) -> Option<cranelift_codegen::ir::Value> {
    builder.block_params(block).get(i).copied()
}

/// Relies on FunctionBuilder::declare_var.
#[verifier::external_body]
fn declare_var(
    builder: &mut cranelift_frontend::FunctionBuilder<'_>,
    ty: cranelift_codegen::ir::types::Type,
) -> cranelift_frontend::Variable {
    builder.declare_var(ty)
}

/// Relies on FunctionBuilder::try_def_var and current_block: define a
/// declared variable, `false` when the builder has no current block, the
/// variable is undeclared, or the value's type mismatches.
#[verifier::external_body]
fn def_var(
    builder: &mut cranelift_frontend::FunctionBuilder<'_>,
    var: cranelift_frontend::Variable,
    val: cranelift_codegen::ir::Value,
) -> bool {
    if builder.current_block().is_none() {
        return false;
    }
    builder.try_def_var(var, val).is_ok()
}

/// Relies on FunctionBuilder::try_use_var and current_block: the current
/// value of a declared variable, `None` when the builder has no current
/// block or the variable is undeclared.
#[verifier::external_body]
fn use_var(
    builder: &mut cranelift_frontend::FunctionBuilder<'_>,
    var: cranelift_frontend::Variable,
) -> Option<cranelift_codegen::ir::Value> {
    if builder.current_block().is_none() {
        return None;
    }
    builder.try_use_var(var).ok()
}

/// Relies on FunctionBuilder::import_signature.
#[verifier::external_body]
fn import_signature(
    builder: &mut cranelift_frontend::FunctionBuilder<'_>,
    sig: cranelift_codegen::ir::Signature,
) -> cranelift_codegen::ir::SigRef {
    builder.import_signature(sig)
}

/// Relies on InstBuilder::iconst and FunctionBuilder::current_block:
/// materialize a 64-bit immediate; `None` when the builder has no current
/// block to insert into (`ins` would refuse).
#[verifier::external_body]
fn ins_iconst(
    builder: &mut cranelift_frontend::FunctionBuilder<'_>,
    ty: cranelift_codegen::ir::types::Type,
    v: i64,
) -> Option<cranelift_codegen::ir::Value> {
    builder.current_block()?;
    Some(cranelift_codegen::ir::InstBuilder::iconst(builder.ins(), ty, v))
}

/// Relies on InstBuilder::load, with default memory flags; `None` when the
/// builder has no current block.
#[verifier::external_body]
fn ins_load(
    builder: &mut cranelift_frontend::FunctionBuilder<'_>,
    ty: cranelift_codegen::ir::types::Type,
    addr: cranelift_codegen::ir::Value,
    offset: i32,
) -> Option<cranelift_codegen::ir::Value> {
    builder.current_block()?;
    Some(cranelift_codegen::ir::InstBuilder::load(
        builder.ins(),
        ty,
        cranelift_codegen::ir::MemFlagsData::new(),
        addr,
        offset,
    ))
}

/// Relies on InstBuilder::store, with default memory flags; `false` when
/// the builder has no current block.
#[verifier::external_body]
fn ins_store(
    builder: &mut cranelift_frontend::FunctionBuilder<'_>,
    val: cranelift_codegen::ir::Value,
    addr: cranelift_codegen::ir::Value,
    offset: i32,
) -> bool {
    if builder.current_block().is_none() {
        return false;
    }
    cranelift_codegen::ir::InstBuilder::store(
        builder.ins(),
        cranelift_codegen::ir::MemFlagsData::new(),
        val,
        addr,
        offset,
    );
    true
}

/// Relies on InstBuilder::iadd; `None` when the builder has no current
/// block.
#[verifier::external_body]
fn ins_iadd(
    builder: &mut cranelift_frontend::FunctionBuilder<'_>,
    a: cranelift_codegen::ir::Value,
    b: cranelift_codegen::ir::Value,
) -> Option<cranelift_codegen::ir::Value> {
    builder.current_block()?;
    Some(cranelift_codegen::ir::InstBuilder::iadd(builder.ins(), a, b))
}

/// Relies on InstBuilder::iadd_imm_s (sign-extending the immediate);
/// `None` when the builder has no current block.
#[verifier::external_body]
fn ins_iadd_imm(
    builder: &mut cranelift_frontend::FunctionBuilder<'_>,
    a: cranelift_codegen::ir::Value,
    b: i64,
) -> Option<cranelift_codegen::ir::Value> {
    builder.current_block()?;
    Some(cranelift_codegen::ir::InstBuilder::iadd_imm_s(builder.ins(), a, b))
}

/// Relies on InstBuilder::imul_imm_s (sign-extending the immediate);
/// `None` when the builder has no current block.
#[verifier::external_body]
fn ins_imul_imm(
    builder: &mut cranelift_frontend::FunctionBuilder<'_>,
    a: cranelift_codegen::ir::Value,
    b: i64,
) -> Option<cranelift_codegen::ir::Value> {
    builder.current_block()?;
    Some(cranelift_codegen::ir::InstBuilder::imul_imm_s(builder.ins(), a, b))
}

/// Relies on InstBuilder::icmp_imm_s with the equality condition; `None`
/// when the builder has no current block.
#[verifier::external_body]
fn ins_icmp_imm_equal(
    builder: &mut cranelift_frontend::FunctionBuilder<'_>,
    a: cranelift_codegen::ir::Value,
    b: i64,
) -> Option<cranelift_codegen::ir::Value> {
    builder.current_block()?;
    Some(cranelift_codegen::ir::InstBuilder::icmp_imm_s(
        builder.ins(),
        cranelift_codegen::ir::condcodes::IntCC::Equal,
        a,
        b,
    ))
}

/// Relies on InstBuilder::icmp_imm_s with the inequality condition; `None`
/// when the builder has no current block.
#[verifier::external_body]
fn ins_icmp_imm_not_equal(
    builder: &mut cranelift_frontend::FunctionBuilder<'_>,
    a: cranelift_codegen::ir::Value,
    b: i64,
) -> Option<cranelift_codegen::ir::Value> {
    builder.current_block()?;
    Some(cranelift_codegen::ir::InstBuilder::icmp_imm_s(
        builder.ins(),
        cranelift_codegen::ir::condcodes::IntCC::NotEqual,
        a,
        b,
    ))
}

/// Relies on InstBuilder::jump, with no block arguments; `false` when the
/// builder has no current block.
#[verifier::external_body]
fn ins_jump(
    builder: &mut cranelift_frontend::FunctionBuilder<'_>,
    block: cranelift_codegen::ir::Block,
) -> bool {
    if builder.current_block().is_none() {
        return false;
    }
    cranelift_codegen::ir::InstBuilder::jump(builder.ins(), block, &[]);
    true
}

/// Relies on InstBuilder::jump, passing one block argument; `false` when
/// the builder has no current block.
#[verifier::external_body]
fn ins_jump_arg1(
    builder: &mut cranelift_frontend::FunctionBuilder<'_>,
    block: cranelift_codegen::ir::Block,
    arg: cranelift_codegen::ir::Value,
) -> bool {
    if builder.current_block().is_none() {
        return false;
    }
    cranelift_codegen::ir::InstBuilder::jump(
        builder.ins(),
        block,
        &[cranelift_codegen::ir::BlockArg::Value(arg)],
    );
    true
}

/// Relies on InstBuilder::brif, with no block arguments; `false` when the
/// builder has no current block.
#[verifier::external_body]
fn ins_brif(
    builder: &mut cranelift_frontend::FunctionBuilder<'_>,
    cond: cranelift_codegen::ir::Value,
    then_block: cranelift_codegen::ir::Block,
    else_block: cranelift_codegen::ir::Block,
) -> bool {
    if builder.current_block().is_none() {
        return false;
    }
    cranelift_codegen::ir::InstBuilder::brif(builder.ins(), cond, then_block, &[], else_block, &[]);
    true
}

/// Relies on InstBuilder::brif, passing one block argument to the else
/// branch — the shape of the checked-allocation branch; `false` when the
/// builder has no current block.
#[verifier::external_body]
fn ins_brif_else_arg1(
    builder: &mut cranelift_frontend::FunctionBuilder<'_>,
    cond: cranelift_codegen::ir::Value,
    then_block: cranelift_codegen::ir::Block,
    else_block: cranelift_codegen::ir::Block,
    else_arg: cranelift_codegen::ir::Value,
) -> bool {
    if builder.current_block().is_none() {
        return false;
    }
    cranelift_codegen::ir::InstBuilder::brif(
        builder.ins(),
        cond,
        then_block,
        &[],
        else_block,
        &[cranelift_codegen::ir::BlockArg::Value(else_arg)],
    );
    true
}

/// Relies on InstBuilder::return_, with one return value; `false` when
/// the builder has no current block.
#[verifier::external_body]
fn ins_return1(
    builder: &mut cranelift_frontend::FunctionBuilder<'_>,
    val: cranelift_codegen::ir::Value,
) -> bool {
    if builder.current_block().is_none() {
        return false;
    }
    cranelift_codegen::ir::InstBuilder::return_(builder.ins(), &[val]);
    true
}

/// Relies on InstBuilder::func_addr; `None` when the builder has no
/// current block.
#[verifier::external_body]
fn ins_func_addr(
    builder: &mut cranelift_frontend::FunctionBuilder<'_>,
    ty: cranelift_codegen::ir::types::Type,
    fref: cranelift_codegen::ir::FuncRef,
) -> Option<cranelift_codegen::ir::Value> {
    builder.current_block()?;
    Some(cranelift_codegen::ir::InstBuilder::func_addr(builder.ins(), ty, fref))
}

/// Relies on InstBuilder::call and FunctionBuilder::inst_results: a direct
/// call on the given arguments.  The outer `None` means the builder had no
/// current block and nothing was inserted; the inner option is the call's
/// first result, if it has one.
#[verifier::external_body]
fn ins_call(
    builder: &mut cranelift_frontend::FunctionBuilder<'_>,
    fref: cranelift_codegen::ir::FuncRef,
    args: &Vec<cranelift_codegen::ir::Value>,
) -> Option<Option<cranelift_codegen::ir::Value>> {
    builder.current_block()?;
    let call = cranelift_codegen::ir::InstBuilder::call(builder.ins(), fref, args.as_slice());
    Some(builder.inst_results(call).first().copied())
}

/// Relies on InstBuilder::call_indirect and FunctionBuilder::inst_results:
/// an indirect call through a function address.  The outer `None` means
/// the builder had no current block and nothing was inserted; the inner
/// option is the call's first result, if it has one.
#[verifier::external_body]
fn ins_call_indirect(
    builder: &mut cranelift_frontend::FunctionBuilder<'_>,
    sig: cranelift_codegen::ir::SigRef,
    callee: cranelift_codegen::ir::Value,
    args: &Vec<cranelift_codegen::ir::Value>,
) -> Option<Option<cranelift_codegen::ir::Value>> {
    builder.current_block()?;
    let call = cranelift_codegen::ir::InstBuilder::call_indirect(
        builder.ins(),
        sig,
        callee,
        args.as_slice(),
    );
    Some(builder.inst_results(call).first().copied())
}

/// Relies on InstBuilder::trap and TrapCode::user: plant a user trap with
/// the given code, `false` when the builder has no current block.
/// TrapCode::user refuses zero and the reserved top range (251 and
/// above), so those codes are excluded here; every code
/// [`crate::trap::CompilerTrapCode::code`] yields is accepted.
#[verifier::external_body]
fn ins_trap_user(builder: &mut cranelift_frontend::FunctionBuilder<'_>, code: u8) -> bool
    requires
        1 <= code < 251,
{
    if builder.current_block().is_none() {
        return false;
    }
    cranelift_codegen::ir::InstBuilder::trap(
        builder.ins(),
        cranelift_codegen::ir::TrapCode::user(code).unwrap(),
    );
    true
}

/// Relies on InstBuilder::trap with TrapCode::HEAP_OUT_OF_BOUNDS: the
/// heap-exhaustion trap of the checked-allocation pattern; `false` when
/// the builder has no current block.
#[verifier::external_body]
fn ins_trap_heap_oob(builder: &mut cranelift_frontend::FunctionBuilder<'_>) -> bool {
    if builder.current_block().is_none() {
        return false;
    }
    cranelift_codegen::ir::InstBuilder::trap(
        builder.ins(),
        cranelift_codegen::ir::TrapCode::HEAP_OUT_OF_BOUNDS,
    );
    true
}

/// Relies on Switch::new.
#[verifier::external_body]
fn switch_new() -> cranelift_frontend::Switch {
    cranelift_frontend::Switch::new()
}

/// Relies on Switch::set_entry and Switch::entries: route one block index
/// to its block, `false` — with the switch unchanged — when the index
/// already has an entry (set_entry refuses a duplicate).
#[verifier::external_body]
fn switch_set_entry(
    switch: &mut cranelift_frontend::Switch,
    index: u64,
    block: cranelift_codegen::ir::Block,
) -> bool {
    if switch.entries().contains_key(&(index as u128)) {
        return false;
    }
    switch.set_entry(index as u128, block);
    true
}

/// Relies on Switch::emit: realize the dense index-to-block map as a
/// multi-way branch on the given value, routing all other indices to the
/// trap block; `false` — with nothing inserted — when the builder has no
/// current block or the largest entry does not fit the switched value's
/// type (emit refuses both).
#[verifier::external_body]
fn switch_emit(
    switch: cranelift_frontend::Switch,
    builder: &mut cranelift_frontend::FunctionBuilder<'_>,
    val: cranelift_codegen::ir::Value,
    otherwise: cranelift_codegen::ir::Block,
) -> bool {
    if builder.current_block().is_none() {
        return false;
    }
    let max = switch.entries().keys().max().copied().unwrap_or(0);
    if max > builder.func.dfg.value_type(val).bounds(false).1 {
        return false;
    }
    switch.emit(builder, val, otherwise);
    true
}

/// An emission step that had to produce a value: `None` means the builder
/// refused it (no current block), and the module is refused with
/// `Unsupported`.
fn emitted_value(v: Option<cranelift_codegen::ir::Value>) -> (r: Result<
    cranelift_codegen::ir::Value,
    CompileError,
>)
    ensures
        r matches Err(er) ==> er == CompileError::Unsupported,
{
    match v {
        Some(x) => Ok(x),
        None => Err(CompileError::Unsupported),
    }
}

/// An emission step that had to be inserted: `false` means the builder or
/// the switch refused it, and the module is refused with `Unsupported`.
fn emitted(ok: bool) -> (r: Result<(), CompileError>)
    ensures
        r matches Err(er) ==> er == CompileError::Unsupported,
{
    if ok {
        Ok(())
    } else {
        Err(CompileError::Unsupported)
    }
}

/// The byte offset of slot `k` in an 8-byte-slot buffer; fails on a slot
/// too large for an addressing offset.
fn slot_offset(k: usize) -> (r: Result<i32, CompileError>)
    ensures
        r matches Ok(v) ==> v == k * 8 && k <= 0x0FFF_FFFF,
        r matches Err(er) ==> k > 0x0FFF_FFFF && er == CompileError::Unsupported,
{
    if k > 0x0FFF_FFFF {
        Err(CompileError::Unsupported)
    } else {
        Ok((k * 8) as i32)
    }
}

/// A plan-side count as a 64-bit immediate; fails when it cannot ride in
/// one.
fn to_imm(n: usize) -> (r: Result<i64, CompileError>)
    ensures
        r matches Ok(v) ==> v == n,
        r matches Err(er) ==> n > 0x7FFF_FFFF_FFFF_FFFF && er == CompileError::Unsupported,
{
    let v = n as u64;
    if v > 0x7FFF_FFFF_FFFF_FFFF {
        Err(CompileError::Unsupported)
    } else {
        Ok(v as i64)
    }
}

/// Every call block of a plan names a function inside a table of `n`
/// entries.
pub open spec fn calls_in_table(acts: Seq<Action>, n: int) -> bool {
    forall|i: int|
        0 <= i < acts.len() ==> ((#[trigger] acts[i]) matches Action::Call { .. } ==> acts[i]->Call_func < n)
}

/// The checked-allocation pattern: call `malloc` with `size`, trap with
/// the heap-exhaustion code if the result is null, otherwise continue at
/// `after`, whose single block parameter receives the fresh pointer.
/// Fails only when the emission library refuses a declaration or a call.
pub fn call_malloc(
    module: &mut cranelift_object::ObjectModule,
    builder: &mut cranelift_frontend::FunctionBuilder<'_>,
    size: cranelift_codegen::ir::Value,
    after: cranelift_codegen::ir::Block,
) -> (r: Result<(), CompileError>)
    ensures
        r matches Err(er) ==> er == CompileError::Unsupported,
{
    let ty = pointer_type(module);
    let mut sig = make_signature(module);
    sig_push_param(&mut sig, ty);
    sig_push_return(&mut sig, ty);
    let id = match declare_function(module, "malloc", true, &sig) {
        Some(id) => id,
        None => {
            return Err(CompileError::Unsupported);
        },
    };
    let fref = declare_func_in_func(module, id, builder);
    let mut args: Vec<cranelift_codegen::ir::Value> = Vec::new();
    args.push(size);
    let ptr = match ins_call(builder, fref, &args) {
        Some(Some(ptr)) => ptr,
        _ => {
            return Err(CompileError::Unsupported);
        },
    };
    let cond_block = create_block(builder);
    append_block_param(builder, cond_block, ty);
    let trap_block = create_block(builder);
    emitted(ins_jump_arg1(builder, cond_block, ptr))?;
    switch_to_block(builder, cond_block);
    seal_block(builder, cond_block);
    let p = emitted_value(block_param(builder, cond_block, 0))?;
    let is_null = emitted_value(ins_icmp_imm_equal(builder, p, 0))?;
    emitted(ins_brif_else_arg1(builder, is_null, trap_block, after, p))?;
    switch_to_block(builder, trap_block);
    seal_block(builder, trap_block);
    emitted(ins_trap_heap_oob(builder))?;
    Ok(())
}

/// The checked-reallocation variant of the pattern, used to grow the vars
/// buffer: call `realloc` with the old pointer and the new size, trap on
/// failure, continue at `after` with the new pointer.
pub fn call_realloc(
    module: &mut cranelift_object::ObjectModule,
    builder: &mut cranelift_frontend::FunctionBuilder<'_>,
    old_ptr: cranelift_codegen::ir::Value,
    size: cranelift_codegen::ir::Value,
    after: cranelift_codegen::ir::Block,
) -> (r: Result<(), CompileError>)
    ensures
        r matches Err(er) ==> er == CompileError::Unsupported,
{
    let ty = pointer_type(module);
    let mut sig = make_signature(module);
    sig_push_param(&mut sig, ty);
    sig_push_param(&mut sig, ty);
    sig_push_return(&mut sig, ty);
    let id = match declare_function(module, "realloc", true, &sig) {
        Some(id) => id,
        None => {
            return Err(CompileError::Unsupported);
        },
    };
    let fref = declare_func_in_func(module, id, builder);
    let mut args: Vec<cranelift_codegen::ir::Value> = Vec::new();
    args.push(old_ptr);
    args.push(size);
    let ptr = match ins_call(builder, fref, &args) {
        Some(Some(ptr)) => ptr,
        _ => {
            return Err(CompileError::Unsupported);
        },
    };
    let cond_block = create_block(builder);
    append_block_param(builder, cond_block, ty);
    let trap_block = create_block(builder);
    emitted(ins_jump_arg1(builder, cond_block, ptr))?;
    switch_to_block(builder, cond_block);
    seal_block(builder, cond_block);
    let p = emitted_value(block_param(builder, cond_block, 0))?;
    let is_null = emitted_value(ins_icmp_imm_equal(builder, p, 0))?;
    emitted(ins_brif_else_arg1(builder, is_null, trap_block, after, p))?;
    switch_to_block(builder, trap_block);
    seal_block(builder, trap_block);
    emitted(ins_trap_heap_oob(builder))?;
    Ok(())
}

/// Release a transient buffer: a direct call to `free`.
pub fn call_free(
    module: &mut cranelift_object::ObjectModule,
    builder: &mut cranelift_frontend::FunctionBuilder<'_>,
    ptr: cranelift_codegen::ir::Value,
) -> (r: Result<(), CompileError>)
    ensures
        r matches Err(er) ==> er == CompileError::Unsupported,
{
    let ty = pointer_type(module);
    let mut sig = make_signature(module);
    sig_push_param(&mut sig, ty);
    sig_push_return(&mut sig, ty);
    let id = match declare_function(module, "free", true, &sig) {
        Some(id) => id,
        None => {
            return Err(CompileError::Unsupported);
        },
    };
    let fref = declare_func_in_func(module, id, builder);
    let mut args: Vec<cranelift_codegen::ir::Value> = Vec::new();
    args.push(ptr);
    emitted(ins_call(builder, fref, &args).is_some())?;
    Ok(())
}

/// Print one value through the runtime-support import `stdprint`.
pub fn call_stdprint(
    module: &mut cranelift_object::ObjectModule,
    builder: &mut cranelift_frontend::FunctionBuilder<'_>,
    value: cranelift_codegen::ir::Value,
) -> (r: Result<(), CompileError>)
    ensures
        r matches Err(er) ==> er == CompileError::Unsupported,
{
    let ty = pointer_type(module);
    let mut sig = make_signature(module);
    sig_push_param(&mut sig, ty);
    sig_push_return(&mut sig, ty);
    let id = match declare_function(module, "stdprint", true, &sig) {
        Some(id) => id,
        None => {
            return Err(CompileError::Unsupported);
        },
    };
    let fref = declare_func_in_func(module, id, builder);
    let mut args: Vec<cranelift_codegen::ir::Value> = Vec::new();
    args.push(value);
    emitted(ins_call(builder, fref, &args).is_some())?;
    Ok(())
}

/// Emit the process-creation sequence: a checked allocation of the
/// 48-byte process context, an empty vars buffer, zeroed length and temp
/// slots, and the target function's address stored for the driver.
pub fn create_process(
    module: &mut cranelift_object::ObjectModule,
    builder: &mut cranelift_frontend::FunctionBuilder<'_>,
    func_id: cranelift_module::FuncId,
) -> (r: Result<cranelift_codegen::ir::Value, CompileError>)
    ensures
        r matches Err(er) ==> er == CompileError::Unsupported,
{
    let ty = pointer_type(module);
    let size = emitted_value(ins_iconst(builder, ty, PROCESS_CTX_BUFFER_SIZE))?;
    let after_ctx = create_block(builder);
    append_block_param(builder, after_ctx, ty);
    call_malloc(module, builder, size, after_ctx)?;
    switch_to_block(builder, after_ctx);
    seal_block(builder, after_ctx);
    let ctx_ptr = emitted_value(block_param(builder, after_ctx, 0))?;
    let zero_size = emitted_value(ins_iconst(builder, ty, 0))?;
    let after_vars = create_block(builder);
    append_block_param(builder, after_vars, ty);
    call_malloc(module, builder, zero_size, after_vars)?;
    switch_to_block(builder, after_vars);
    seal_block(builder, after_vars);
    let vars_ptr = emitted_value(block_param(builder, after_vars, 0))?;
    let zero = emitted_value(ins_iconst(builder, ty, 0))?;
    emitted(ins_store(builder, vars_ptr, ctx_ptr, PROCESS_CTX_VARS))?;
    emitted(ins_store(builder, zero, ctx_ptr, PROCESS_CTX_VARS_LEN))?;
    emitted(ins_store(builder, zero, ctx_ptr, PROCESS_CTX_TEMP_VAL))?;
    emitted(ins_store(builder, zero, ctx_ptr, PROCESS_CTX_DEPENDENCIES))?;
    emitted(ins_store(builder, zero, ctx_ptr, PROCESS_CTX_CALL_ARGS_TEMP))?;
    let fref = declare_func_in_func(module, func_id, builder);
    let addr = emitted_value(ins_func_addr(builder, ty, fref))?;
    emitted(ins_store(builder, addr, ctx_ptr, PROCESS_CTX_FUNC_ADDR))?;
    Ok(ctx_ptr)
}

/// Emit the trampoline: repeatedly invoke the function stored in the
/// process context with the returned block index, starting at 0, until
/// the sentinel `-1`; the builder is left in the loop's exit block.
fn emit_drive_loop(
    module: &mut cranelift_object::ObjectModule,
    builder: &mut cranelift_frontend::FunctionBuilder<'_>,
    ctx_ptr: cranelift_codegen::ir::Value,
    runtime_ptr: cranelift_codegen::ir::Value,
) -> (r: Result<(), CompileError>)
    ensures
        r matches Err(er) ==> er == CompileError::Unsupported,
{
    let ty = pointer_type(module);
    let mut sig = make_signature(module);
    sig_push_param(&mut sig, ty);
    sig_push_param(&mut sig, ty);
    sig_push_param(&mut sig, ty);
    sig_push_return(&mut sig, ty);
    let sig_ref = import_signature(builder, sig);
    let next_var = declare_var(builder, ty);
    let while_entry = create_block(builder);
    let condition = create_block(builder);
    let action = create_block(builder);
    let exit = create_block(builder);
    emitted(ins_jump(builder, while_entry))?;
    switch_to_block(builder, while_entry);
    seal_block(builder, while_entry);
    let zero = emitted_value(ins_iconst(builder, ty, 0))?;
    emitted(def_var(builder, next_var, zero))?;
    emitted(ins_jump(builder, condition))?;
    switch_to_block(builder, condition);
    let next = emitted_value(use_var(builder, next_var))?;
    let cond = emitted_value(ins_icmp_imm_not_equal(builder, next, -1))?;
    emitted(ins_brif(builder, cond, action, exit))?;
    switch_to_block(builder, action);
    seal_block(builder, action);
    let callee = emitted_value(ins_load(builder, ty, ctx_ptr, PROCESS_CTX_FUNC_ADDR))?;
    let next2 = emitted_value(use_var(builder, next_var))?;
    let mut args: Vec<cranelift_codegen::ir::Value> = Vec::new();
    args.push(next2);
    args.push(ctx_ptr);
    args.push(runtime_ptr);
    let res = match ins_call_indirect(builder, sig_ref, callee, &args) {
        Some(Some(res)) => res,
        _ => {
            return Err(CompileError::Unsupported);
        },
    };
    emitted(def_var(builder, next_var, res))?;
    emitted(ins_jump(builder, condition))?;
    seal_block(builder, condition);
    switch_to_block(builder, exit);
    seal_block(builder, exit);
    Ok(())
}

/// Emit the one unit of code a planned action names, as block `i` of the
/// dispatch table: the unit does its work and unconditionally returns the
/// next block index, `i + 1`.
fn emit_action(
    module: &mut cranelift_object::ObjectModule,
    builder: &mut cranelift_frontend::FunctionBuilder<'_>,
    m: &crate::translator::CompiledModule,
    ids: &Vec<cranelift_module::FuncId>,
    a: &Action,
    i: usize,
    ctx_var: cranelift_frontend::Variable,
    runtime_var: cranelift_frontend::Variable,
) -> (r: Result<cranelift_codegen::ir::Block, CompileError>)
    requires
        i < usize::MAX,
    ensures
        r matches Err(er) ==> {
            &&& er == CompileError::Unsupported || er == CompileError::UnknownFunction
            &&& er == CompileError::UnknownFunction ==> {
                &&& *a matches Action::Call { .. } && ((*a)->Call_func >= ids@.len() || (
                *a)->Call_func >= m.funcs@.len())
            }
        },
{
    let ty = pointer_type(module);
    let b = create_block(builder);
    switch_to_block(builder, b);
    let ctx_ptr = emitted_value(use_var(builder, ctx_var))?;
    match a {
        Action::Lit { value, dest } => {
            let imm = emitted_value(ins_iconst(builder, ty, *value))?;
            emit_write_dest(builder, ty, ctx_ptr, *dest, imm)?;
        },
        Action::LoadVar { slot, dest } => {
            let vars_ptr = emitted_value(ins_load(builder, ty, ctx_ptr, PROCESS_CTX_VARS))?;
            let idx = emitted_value(ins_iconst(builder, ty, to_imm(*slot)?))?;
            let offset = emitted_value(ins_imul_imm(builder, idx, 8))?;
            let addr = emitted_value(ins_iadd(builder, vars_ptr, offset))?;
            let val = emitted_value(ins_load(builder, ty, addr, 0))?;
            emit_write_dest(builder, ty, ctx_ptr, *dest, val)?;
        },
        Action::AllocArgs { argc } => {
            // One hidden trailing slot holds the enclosing call's pending
            // buffer, so nested calls chain their buffers through the
            // context's single call-args field, innermost first.
            let arg_bytes = slot_offset(*argc)?;
            let size = emitted_value(ins_iconst(builder, ty, arg_bytes as i64 + 8))?;
            let after = create_block(builder);
            append_block_param(builder, after, ty);
            call_malloc(module, builder, size, after)?;
            switch_to_block(builder, after);
            let args_ptr = emitted_value(block_param(builder, after, 0))?;
            let ctx_ptr2 = emitted_value(use_var(builder, ctx_var))?;
            let prev = emitted_value(ins_load(builder, ty, ctx_ptr2, PROCESS_CTX_CALL_ARGS_TEMP))?;
            emitted(ins_store(builder, prev, args_ptr, arg_bytes))?;
            emitted(ins_store(builder, args_ptr, ctx_ptr2, PROCESS_CTX_CALL_ARGS_TEMP))?;
        },
        Action::AppendVar { arg } => {
            let old_vars = emitted_value(ins_load(builder, ty, ctx_ptr, PROCESS_CTX_VARS))?;
            let old_len = emitted_value(ins_load(builder, ty, ctx_ptr, PROCESS_CTX_VARS_LEN))?;
            let new_len = emitted_value(ins_iadd_imm(builder, old_len, 1))?;
            let new_size = emitted_value(ins_imul_imm(builder, new_len, 8))?;
            let after = create_block(builder);
            append_block_param(builder, after, ty);
            call_realloc(module, builder, old_vars, new_size, after)?;
            switch_to_block(builder, after);
            let new_ptr = emitted_value(block_param(builder, after, 0))?;
            let ctx_ptr2 = emitted_value(use_var(builder, ctx_var))?;
            let new_len2 = emitted_value(ins_load(builder, ty, ctx_ptr2, PROCESS_CTX_VARS_LEN))?;
            let new_len3 = emitted_value(ins_iadd_imm(builder, new_len2, 1))?;
            emitted(ins_store(builder, new_ptr, ctx_ptr2, PROCESS_CTX_VARS))?;
            emitted(ins_store(builder, new_len3, ctx_ptr2, PROCESS_CTX_VARS_LEN))?;
            let last_i = emitted_value(ins_iadd_imm(builder, new_len3, -1))?;
            let offset = emitted_value(ins_imul_imm(builder, last_i, 8))?;
            let addr = emitted_value(ins_iadd(builder, new_ptr, offset))?;
            let val = emitted_value(ins_load(builder, ty, ctx_ptr2, PROCESS_CTX_TEMP_VAL))?;
            emitted(ins_store(builder, val, addr, 0))?;
            match arg {
                None => {},
                Some(k) => {
                    let args_ptr = emitted_value(
                        ins_load(builder, ty, ctx_ptr2, PROCESS_CTX_CALL_ARGS_TEMP),
                    )?;
                    emitted(ins_store(builder, val, args_ptr, slot_offset(*k)?))?;
                },
            }
        },
        Action::BlockEnd { arg } => {
            match arg {
                None => {},
                Some(k) => {
                    let val = emitted_value(ins_load(builder, ty, ctx_ptr, PROCESS_CTX_TEMP_VAL))?;
                    let args_ptr = emitted_value(
                        ins_load(builder, ty, ctx_ptr, PROCESS_CTX_CALL_ARGS_TEMP),
                    )?;
                    emitted(ins_store(builder, val, args_ptr, slot_offset(*k)?))?;
                },
            }
        },
        Action::Call { func, argc, returns: rets, tail: _ } => {
            let args_ptr = emitted_value(
                ins_load(builder, ty, ctx_ptr, PROCESS_CTX_CALL_ARGS_TEMP),
            )?;
            if *func >= ids.len() || *func >= m.funcs.len() {
                return Err(CompileError::UnknownFunction);
            }
            let fref = declare_func_in_func(module, ids[*func], builder);
            let callee_addr = emitted_value(ins_func_addr(builder, ty, fref))?;
            match &m.funcs[*func].body {
                crate::translator::FuncBody::External(_) => {
                    let mut sig = make_signature(module);
                    let mut k: usize = 0;
                    while k < *argc
                        decreases *argc - k,
                    {
                        sig_push_param(&mut sig, ty);
                        k = k + 1;
                    }
                    if *rets > 0 {
                        sig_push_return(&mut sig, ty);
                    }
                    let sig_ref = import_signature(builder, sig);
                    let mut vals: Vec<cranelift_codegen::ir::Value> = Vec::new();
                    let mut k: usize = 0;
                    while k < *argc
                        decreases *argc - k,
                    {
                        let v = emitted_value(ins_load(builder, ty, args_ptr, slot_offset(k)?))?;
                        vals.push(v);
                        k = k + 1;
                    }
                    let res = match ins_call_indirect(builder, sig_ref, callee_addr, &vals) {
                        Some(res) => res,
                        None => {
                            return Err(CompileError::Unsupported);
                        },
                    };
                    // Uncover the enclosing call's buffer (the hidden
                    // trailing slot) before releasing this one.
                    let prev = emitted_value(ins_load(builder, ty, args_ptr, slot_offset(*argc)?))?;
                    call_free(module, builder, args_ptr)?;
                    let ctx_ptr2 = emitted_value(use_var(builder, ctx_var))?;
                    emitted(ins_store(builder, prev, ctx_ptr2, PROCESS_CTX_CALL_ARGS_TEMP))?;
                    match res {
                        Some(res) => {
                            emitted(ins_store(builder, res, ctx_ptr2, PROCESS_CTX_TEMP_VAL))?;
                        },
                        None => {},
                    }
                },
                crate::translator::FuncBody::Defined(_) => {
                    // A defined callee runs as a fresh process: its vars
                    // buffer starts as the marshaled argument buffer
                    // (donated, so the caller does not free it; the hidden
                    // trailing slot lies beyond the callee's vars length),
                    // and the caller trampolines it to completion and
                    // takes its final temp value as the call's result.
                    let size = emitted_value(ins_iconst(builder, ty, PROCESS_CTX_BUFFER_SIZE))?;
                    let after = create_block(builder);
                    append_block_param(builder, after, ty);
                    call_malloc(module, builder, size, after)?;
                    switch_to_block(builder, after);
                    let callee_ctx = emitted_value(block_param(builder, after, 0))?;
                    let argc_imm = emitted_value(ins_iconst(builder, ty, to_imm(*argc)?))?;
                    let zero = emitted_value(ins_iconst(builder, ty, 0))?;
                    // Uncover the enclosing call's buffer before donating
                    // this one.
                    let prev = emitted_value(ins_load(builder, ty, args_ptr, slot_offset(*argc)?))?;
                    emitted(ins_store(builder, args_ptr, callee_ctx, PROCESS_CTX_VARS))?;
                    emitted(ins_store(builder, argc_imm, callee_ctx, PROCESS_CTX_VARS_LEN))?;
                    emitted(ins_store(builder, zero, callee_ctx, PROCESS_CTX_TEMP_VAL))?;
                    emitted(ins_store(builder, zero, callee_ctx, PROCESS_CTX_DEPENDENCIES))?;
                    emitted(ins_store(builder, zero, callee_ctx, PROCESS_CTX_CALL_ARGS_TEMP))?;
                    emitted(ins_store(builder, callee_addr, callee_ctx, PROCESS_CTX_FUNC_ADDR))?;
                    let ctx_ptr2 = emitted_value(use_var(builder, ctx_var))?;
                    emitted(ins_store(builder, prev, ctx_ptr2, PROCESS_CTX_CALL_ARGS_TEMP))?;
                    let runtime_ptr = emitted_value(use_var(builder, runtime_var))?;
                    emit_drive_loop(module, builder, callee_ctx, runtime_ptr)?;
                    let res = emitted_value(ins_load(builder, ty, callee_ctx, PROCESS_CTX_TEMP_VAL))?;
                    let ctx_ptr3 = emitted_value(use_var(builder, ctx_var))?;
                    emitted(ins_store(builder, res, ctx_ptr3, PROCESS_CTX_TEMP_VAL))?;
                },
            }
        },
    }
    let next = emitted_value(ins_iconst(builder, ty, to_imm(i + 1)?))?;
    emitted(ins_return1(builder, next))?;
    Ok(b)
}

/// Deliver a value per the block's destination: the temp slot, or slot
/// `k` of the call-args buffer.
fn emit_write_dest(
    builder: &mut cranelift_frontend::FunctionBuilder<'_>,
    ty: cranelift_codegen::ir::types::Type,
    ctx_ptr: cranelift_codegen::ir::Value,
    dest: Dest,
    val: cranelift_codegen::ir::Value,
) -> (r: Result<(), CompileError>)
    ensures
        r matches Err(er) ==> er == CompileError::Unsupported,
{
    match dest {
        Dest::Temp => {
            emitted(ins_store(builder, val, ctx_ptr, PROCESS_CTX_TEMP_VAL))?;
            Ok(())
        },
        Dest::Arg(k) => {
            let args_ptr = emitted_value(
                ins_load(builder, ty, ctx_ptr, PROCESS_CTX_CALL_ARGS_TEMP),
            )?;
            emitted(ins_store(builder, val, args_ptr, slot_offset(k)?))?;
            Ok(())
        },
    }
}

/// The compiler backend: an object module under construction.
pub struct Compiler {
    pub module: cranelift_object::ObjectModule,
}

impl Compiler {
    /// A compiler over a fresh object module targeting the host machine;
    /// `None` when the host has no native backend.
    pub fn new() -> Option<Compiler> {
        match new_object_module() {
            Some(module) => Some(Compiler { module }),
            None => None,
        }
    }

    /// Compile a parsed program: lower it, translate it, emit it, and
    /// serialize the finished module to relocatable object bytes.
    ///
    /// Compile-time failures use the `Result` channel: the first lowering
    /// error of the input comes back as-is, and past a clean lowering the
    /// first declaration or translation error of the lowered module does;
    /// what remains — `Unsupported` or `UnknownFunction` — is an emission
    /// failure (see [`Compiler::translate`]).  Success owes a clean
    /// lowering, a clean translation, and a registered entry function.
    pub fn compile(self, exprs: &Vec<crate::ast::Expr>) -> (r: Result<Vec<u8>, CompileError>)
        ensures
            r matches Err(er) ==> {
                ||| crate::middleware::seq_err_from(exprs@, 0) == Some(er)
                ||| {
                    &&& crate::middleware::seq_err_from(exprs@, 0) is None
                    &&& exists|low: Seq<crate::middleware::Expression>|
                        {
                            &&& #[trigger] crate::middleware::stmts_lower_to(exprs@, 0, low)
                            &&& {
                                ||| crate::translator::declared_reg(
                                    low,
                                    0,
                                    crate::translator::builtin_reg(),
                                ) == Err::<crate::registry::RegView, CompileError>(er)
                                ||| crate::translator::declared_reg(
                                    low,
                                    0,
                                    crate::translator::builtin_reg(),
                                ) matches Ok(rv) && crate::translator::first_plan_err(low, 0, rv)
                                    == Some(er)
                                ||| er == CompileError::Unsupported || er
                                    == CompileError::UnknownFunction
                            }
                        }
                }
            },
            r is Ok ==> {
                &&& crate::middleware::seq_err_from(exprs@, 0) is None
                &&& exists|low: Seq<crate::middleware::Expression>|
                    {
                        &&& #[trigger] crate::middleware::stmts_lower_to(exprs@, 0, low)
                        &&& crate::translator::declared_reg(
                            low,
                            0,
                            crate::translator::builtin_reg(),
                        ) matches Ok(rv) && crate::translator::first_plan_err(low, 0, rv) is None
                            && crate::registry::reg_lookup(
                            rv,
                            crate::symbols::symbol_spec("main"@),
                        ) is Some
                    }
            },
    {
        let lowered = match crate::middleware::Expressions::lower(exprs) {
            Ok(l) => l,
            Err(er) => {
                return Err(er);
            },
        };
        if lowered.0.len() > usize::MAX - 4 {
            return Err(CompileError::Unsupported);
        }
        let plan = match crate::translator::translate_module(&lowered) {
            Ok(p) => p,
            Err(er) => {
                return Err(er);
            },
        };
        let mut c = self;
        match c.translate(&plan) {
            Ok(_) => {},
            Err(er) => {
                return Err(er);
            },
        }
        match finish_object(c.module) {
            Some(bytes) => Ok(bytes),
            None => Err(CompileError::Unsupported),
        }
    }

    /// Emit every function of a translated module, then the exported
    /// `main` driver.
    ///
    /// Of the library's own checks: emission succeeds only for a module
    /// whose registry resolves `main` inside the function table, and
    /// `UnknownFunction` arises only when that resolution fails or a
    /// planned call names an id outside the table.  The remaining
    /// `Unsupported` failures are the emission library's refusals.
    pub fn translate(&mut self, m: &crate::translator::CompiledModule) -> (r: Result<
        (),
        CompileError,
    >)
        ensures
            r matches Err(er) ==> {
                &&& er == CompileError::Unsupported || er == CompileError::UnknownFunction
                &&& er == CompileError::UnknownFunction ==> {
                    ||| !(crate::registry::reg_lookup(
                        m.registry@,
                        crate::symbols::symbol_spec("main"@),
                    ) matches Some(info) && info.id < m.funcs@.len())
                    ||| exists|k: int|
                        {
                            &&& 0 <= k < m.funcs@.len()
                            &&& (#[trigger] m.funcs@[k]).body
                                matches crate::translator::FuncBody::Defined(a) && (
                            !calls_in_table(a@, m.funcs@.len() as int))
                        }
                }
            },
            r is Ok ==> {
                &&& crate::registry::reg_lookup(
                    m.registry@,
                    crate::symbols::symbol_spec("main"@),
                ) matches Some(info) && (info.id < m.funcs@.len())
            },
    {
        let ty = pointer_type(&self.module);
        let mut ids: Vec<cranelift_module::FuncId> = Vec::new();
        let n = m.funcs.len();
        let mut j: usize = 0;
        while j < n
            invariant
                j <= n,
                n == m.funcs@.len(),
                ids@.len() == j,
            decreases n - j,
        {
            let unit = &m.funcs[j];
            let mut sig = make_signature(&self.module);
            let id = match &unit.body {
                crate::translator::FuncBody::External(_) => {
                    let mut k: usize = 0;
                    while k < unit.params
                        decreases unit.params - k,
                    {
                        sig_push_param(&mut sig, ty);
                        k = k + 1;
                    }
                    if unit.returns > 0 {
                        sig_push_return(&mut sig, ty);
                    }
                    declare_function(&mut self.module, unit.name.as_str(), true, &sig)
                },
                crate::translator::FuncBody::Defined(_) => {
                    sig_push_param(&mut sig, ty);
                    sig_push_param(&mut sig, ty);
                    sig_push_param(&mut sig, ty);
                    sig_push_return(&mut sig, ty);
                    declare_function(&mut self.module, unit.symbol.as_str(), false, &sig)
                },
            };
            match id {
                Some(id) => {
                    ids.push(id);
                },
                None => {
                    return Err(CompileError::Unsupported);
                },
            }
            j = j + 1;
        }
        let mut fbc = new_builder_context();
        let mut ctx = make_context(&self.module);
        let mut j: usize = 0;
        while j < n
            invariant
                n == m.funcs@.len(),
                ids@.len() == n,
            decreases n - j,
        {
            let is_defined = match &m.funcs[j].body {
                crate::translator::FuncBody::Defined(_) => true,
                crate::translator::FuncBody::External(_) => false,
            };
            if is_defined {
                match self.translate_function(m, j, &ids, &mut fbc, &mut ctx) {
                    Ok(_) => {},
                    Err(er) => {
                        proof {
                            if er == CompileError::UnknownFunction {
                                assert((m.funcs@[j as int]).body
                                    matches crate::translator::FuncBody::Defined(a) && (
                                !calls_in_table(a@, m.funcs@.len() as int)));
                            }
                        }
                        return Err(er);
                    },
                }
            }
            j = j + 1;
        }
        self.emit_driver(m, &ids, &mut fbc, &mut ctx)
    }

    /// Emit one translated function as a block-indexed native state
    /// machine: one unit of code per planned action, a terminal index
    /// returning the sentinel `-1`, and a trap for indices outside the
    /// declared set.
    ///
    /// Of the library's own checks: a runtime import has no body to emit
    /// and is refused outright; a plan too long for the dispatch index is
    /// refused; and `UnknownFunction` arises only from a planned call
    /// whose id lies outside the function table.  The remaining
    /// `Unsupported` failures are the emission library's refusals.
    pub fn translate_function(
        &mut self,
        m: &crate::translator::CompiledModule,
        j: usize,
        ids: &Vec<cranelift_module::FuncId>,
        fbc: &mut cranelift_frontend::FunctionBuilderContext,
        ctx: &mut cranelift_codegen::Context,
    ) -> (r: Result<(), CompileError>)
        requires
            j < ids@.len(),
            j < m.funcs@.len(),
            ids@.len() == m.funcs@.len(),
        ensures
            m.funcs@[j as int].body matches crate::translator::FuncBody::External(_) ==> r == Err::<
                (),
                CompileError,
            >(CompileError::Unsupported),
            (m.funcs@[j as int].body matches crate::translator::FuncBody::Defined(a) && (a@.len()
                >= usize::MAX - 1 || a@.len() >= 0xFFFF_FFFF)) ==> r == Err::<
                (),
                CompileError,
            >(CompileError::Unsupported),
            r matches Err(er) ==> {
                &&& er == CompileError::Unsupported || er == CompileError::UnknownFunction
                &&& er == CompileError::UnknownFunction ==> {
                    &&& m.funcs@[j as int].body matches crate::translator::FuncBody::Defined(a)
                        && (!calls_in_table(a@, m.funcs@.len() as int))
                }
            },
    {
        let ty = pointer_type(&self.module);
        let actions: &Vec<Action> = match &m.funcs[j].body {
            crate::translator::FuncBody::Defined(actions) => actions,
            crate::translator::FuncBody::External(_) => {
                return Err(CompileError::Unsupported);
            },
        };
        let n = actions.len();
        if n >= usize::MAX - 1 || n as u64 >= 0xFFFF_FFFF {
            return Err(CompileError::Unsupported);
        }
        {
            let mut builder = new_function_builder(ctx, fbc);
            func_sig_push_param(&mut builder, ty);
            func_sig_push_param(&mut builder, ty);
            func_sig_push_param(&mut builder, ty);
            func_sig_push_return(&mut builder, ty);
            let block0 = create_block(&mut builder);
            let switch_block = create_block(&mut builder);
            let trap_block = create_block(&mut builder);
            let block_index = append_block_param(&mut builder, block0, ty);
            let ctx_param = append_block_param(&mut builder, block0, ty);
            let runtime_param = append_block_param(&mut builder, block0, ty);
            switch_to_block(&mut builder, block0);
            let ctx_var = declare_var(&mut builder, ty);
            emitted(def_var(&mut builder, ctx_var, ctx_param))?;
            let runtime_var = declare_var(&mut builder, ty);
            emitted(def_var(&mut builder, runtime_var, runtime_param))?;
            emitted(ins_jump(&mut builder, switch_block))?;
            let mut switch = switch_new();
            let mut i: usize = 0;
            while i < n
                invariant
                    n == actions@.len(),
                    n < usize::MAX - 1,
                    n < 0xFFFF_FFFF,
                    ids@.len() == m.funcs@.len(),
                    m.funcs@[j as int].body matches crate::translator::FuncBody::Defined(a) && a@
                        == actions@,
                decreases n - i,
            {
                let b = match emit_action(
                    &mut self.module,
                    &mut builder,
                    m,
                    ids,
                    &actions[i],
                    i,
                    ctx_var,
                    runtime_var,
                ) {
                    Ok(b) => b,
                    Err(er) => {
                        proof {
                            if er == CompileError::UnknownFunction {
                                assert(actions@[i as int] matches Action::Call { .. }
                                    && actions@[i as int]->Call_func >= m.funcs@.len());
                                assert(!calls_in_table(actions@, m.funcs@.len() as int));
                            }
                        }
                        return Err(er);
                    },
                };
                emitted(switch_set_entry(&mut switch, i as u64, b))?;
                i = i + 1;
            }
            let final_block = create_block(&mut builder);
            switch_to_block(&mut builder, final_block);
            let neg = emitted_value(ins_iconst(&mut builder, ty, -1))?;
            emitted(ins_return1(&mut builder, neg))?;
            emitted(switch_set_entry(&mut switch, n as u64, final_block))?;
            switch_to_block(&mut builder, switch_block);
            emitted(switch_emit(switch, &mut builder, block_index, trap_block))?;
            switch_to_block(&mut builder, trap_block);
            let trap = crate::trap::CompilerTrapCode::EndOfBlocks;
            emitted(ins_trap_user(&mut builder, trap.code()))?;
            seal_all_blocks(&mut builder);
            finalize_builder(builder, &self.module);
        }
        if !define_function(&mut self.module, ids[j], ctx) {
            return Err(CompileError::Unsupported);
        }
        clear_context(&self.module, ctx);
        Ok(())
    }

    /// Emit the exported `main` driver: allocate the runtime's process
    /// array and the first process for the program's entry function, then
    /// trampoline it to completion and return its temp value.
    ///
    /// `UnknownFunction` arises exactly when the registry resolves no
    /// entry function inside the declared table; all other failures are
    /// the emission library's refusals.
    fn emit_driver(
        &mut self,
        m: &crate::translator::CompiledModule,
        ids: &Vec<cranelift_module::FuncId>,
        fbc: &mut cranelift_frontend::FunctionBuilderContext,
        ctx: &mut cranelift_codegen::Context,
    ) -> (r: Result<(), CompileError>)
        ensures
            r matches Err(er) ==> {
                &&& er == CompileError::Unsupported || er == CompileError::UnknownFunction
                &&& er == CompileError::UnknownFunction ==> !(crate::registry::reg_lookup(
                    m.registry@,
                    crate::symbols::symbol_spec("main"@),
                ) matches Some(info) && info.id < ids@.len())
            },
            r is Ok ==> {
                &&& crate::registry::reg_lookup(
                    m.registry@,
                    crate::symbols::symbol_spec("main"@),
                ) matches Some(info) && (info.id < ids@.len())
            },
    {
        let ty = pointer_type(&self.module);
        let info = match m.resolve("main") {
            Some(info) => info,
            None => {
                return Err(CompileError::UnknownFunction);
            },
        };
        if info.id >= ids.len() {
            return Err(CompileError::UnknownFunction);
        }
        let main_fid = ids[info.id];
        let main_id;
        {
            let mut builder = new_function_builder(ctx, fbc);
            func_sig_push_return(&mut builder, ty);
            let entry = create_block(&mut builder);
            switch_to_block(&mut builder, entry);
            seal_block(&mut builder, entry);
            let runtime_size = emitted_value(ins_iconst(&mut builder, ty, RUNTIME_BUFFER_SIZE))?;
            let after_rt = create_block(&mut builder);
            append_block_param(&mut builder, after_rt, ty);
            call_malloc(&mut self.module, &mut builder, runtime_size, after_rt)?;
            switch_to_block(&mut builder, after_rt);
            seal_block(&mut builder, after_rt);
            let runtime_ptr = emitted_value(block_param(&builder, after_rt, 0))?;
            // Zero-fill the runtime's process-pointer slots: the array is
            // the extension point for concurrent processes, and only slot
            // 0 is exercised by this driver.
            let zero = emitted_value(ins_iconst(&mut builder, ty, 0))?;
            let mut slot: usize = 0;
            while slot < 5
                invariant
                    crate::registry::reg_lookup(
                        m.registry@,
                        crate::symbols::symbol_spec("main"@),
                    ) matches Some(rinfo) && rinfo.id < ids@.len(),
                decreases 5 - slot,
            {
                emitted(ins_store(&mut builder, zero, runtime_ptr, slot_offset(slot)?))?;
                slot = slot + 1;
            }
            let ctx_ptr = create_process(&mut self.module, &mut builder, main_fid)?;
            emitted(ins_store(&mut builder, ctx_ptr, runtime_ptr, 0))?;
            emit_drive_loop(&mut self.module, &mut builder, ctx_ptr, runtime_ptr)?;
            let ret = emitted_value(ins_load(&mut builder, ty, ctx_ptr, PROCESS_CTX_TEMP_VAL))?;
            emitted(ins_return1(&mut builder, ret))?;
            seal_all_blocks(&mut builder);
            let sig = func_sig_clone(&builder);
            main_id = match declare_function(&mut self.module, "main", false, &sig) {
                Some(id) => id,
                None => {
                    return Err(CompileError::Unsupported);
                },
            };
            finalize_builder(builder, &self.module);
        }
        if !define_function(&mut self.module, main_id, ctx) {
            return Err(CompileError::Unsupported);
        }
        clear_context(&self.module, ctx);
        Ok(())
    }
}

} // verus!
