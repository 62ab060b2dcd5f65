//! Trap and exit emitters: undefined-opcode and general-protection
//! faults, the task-switch precheck, register-cache spill and reload,
//! and the telemetry hooks.
//!
//! Profiling and debug tracing are zero-cost when disabled: this build
//! disables telemetry, so the two hook emitters emit no bytecode.  They
//! can never change the semantics of emitted code.

use vstd::prelude::*;
use crate::arch;
use crate::layout;
use crate::layout::{creg_off, reg32_off};
use crate::builder::{
    CodeBuilder, HostLocal, emitted, locals_same, lemma_push_onto_app, lemma_if_bracket_noelse,
};
use crate::ctx::{JitContext, ctx_emits};
use crate::isa::{
    BlockKind, HostFn, InstrV, arg_kinds, ret_kind, lemma_cast_roundtrip_u32, lemma_low12_bound,
};
use crate::emit_basic::{
    code_set_previous_eip_low_bits, gen_set_previous_eip_offset_from_eip_with_low_bits,
    gen_fn0_const, gen_fn1_const, gen_call_fn1_ret_f64,
};
use crate::emit_mem::{BitSize, code_safe_read, gen_safe_read32, gen_safe_read64};

verus! {

/// Telemetry: count one occurrence of profiler statistic `stat`.
/// Telemetry is disabled in this build, so no bytecode is emitted.
pub fn gen_profiler_stat_increment(builder: &mut CodeBuilder, stat: u32)
    requires
        old(builder).wf(),
    ensures
        final(builder).wf(),
        final(builder).frames_v() == old(builder).frames_v(),
        final(builder).next_local() == old(builder).next_local(),
        final(builder).free_list() == old(builder).free_list(),
        locals_same(*old(builder), *final(builder)),
        final(builder).depth() == old(builder).depth(),
{
}

/// Telemetry: record that the translation unit exits at `address`.
/// Telemetry is disabled in this build, so no bytecode is emitted.
pub fn gen_debug_track_jit_exit(builder: &mut CodeBuilder, address: u32)
    requires
        old(builder).wf(),
    ensures
        final(builder).wf(),
        final(builder).frames_v() == old(builder).frames_v(),
        final(builder).next_local() == old(builder).next_local(),
        final(builder).free_list() == old(builder).free_list(),
        locals_same(*old(builder), *final(builder)),
        final(builder).depth() == old(builder).depth(),
{
}

/// Spill register local `i` to its cell in the state block.
pub open spec fn code_spill_one(i: u32) -> Seq<InstrV> {
    seq![
        InstrV::ConstI32(reg32_off(i) as u32),
        InstrV::GetLocal(i),
        InstrV::StoreI32(0),
    ]
}

/// Spill the first `n` register locals to the state block.
pub open spec fn code_spill_regs(n: nat) -> Seq<InstrV>
    decreases n,
{
    if n == 0 {
        Seq::<InstrV>::empty()
    } else {
        code_spill_regs((n - 1) as nat) + code_spill_one((n - 1) as u32)
    }
}

/// Reload register local `i` from its cell in the state block.
pub open spec fn code_reload_one(i: u32) -> Seq<InstrV> {
    seq![
        InstrV::ConstI32(reg32_off(i) as u32),
        InstrV::LoadI32(0),
        InstrV::SetLocal(i),
    ]
}

/// Reload the first `n` register locals from the state block.
pub open spec fn code_reload_regs(n: nat) -> Seq<InstrV>
    decreases n,
{
    if n == 0 {
        Seq::<InstrV>::empty()
    } else {
        code_reload_regs((n - 1) as nat) + code_reload_one((n - 1) as u32)
    }
}

/// Spill the eight register locals to the in-memory register cells.
/// Required before any helper that reads the registers from memory.
pub fn gen_move_registers_from_locals_to_memory(ctx: &mut JitContext)
    requires
        old(ctx).wf(),
    ensures
        final(ctx).wf(),
        ctx_emits(*old(ctx), *final(ctx), code_spill_regs(8)),
        final(ctx).builder.next_local() == old(ctx).builder.next_local(),
{
    let ghost pre = *ctx;
    let ghost b0 = pre.builder;
    proof {
        crate::builder::lemma_push_onto_empty(b0.frames_v());
    }
    let mut i: u32 = 0;
    while i < 8
        invariant
            pre.wf(),
            ctx.wf(),
            i <= 8,
            emitted(b0, ctx.builder, code_spill_regs(i as nat)),
            ctx.builder.next_local() == b0.next_local(),
            ctx.builder.free_list() == b0.free_list(),
            ctx.builder.depth() == b0.depth(),
            ctx.register_locals == pre.register_locals,
            ctx.start_of_current_instruction == pre.start_of_current_instruction,
            ctx.current_brtable_depth == pre.current_brtable_depth,
            ctx.cpu == pre.cpu,
            b0.frames_v().len() >= 1,
        decreases 8 - i,
    {
        let ghost acc = code_spill_regs(i as nat);
        let off = layout::get_reg32_offset(i);
        proof {
            lemma_cast_roundtrip_u32(off);
        }
        ctx.builder.const_i32(off as i32);
        let l = ctx.register_locals[i as usize];
        ctx.builder.get_local(&l);
        ctx.builder.store_aligned_i32(0);
        proof {
            let fs = b0.frames_v();
            lemma_push_onto_app(fs, acc, seq![InstrV::ConstI32(reg32_off(i) as u32)]);
            lemma_push_onto_app(fs, acc + seq![InstrV::ConstI32(reg32_off(i) as u32)], seq![InstrV::GetLocal(i)]);
            lemma_push_onto_app(fs, acc + seq![InstrV::ConstI32(reg32_off(i) as u32)] + seq![InstrV::GetLocal(i)], seq![InstrV::StoreI32(0)]);
            assert(acc + seq![InstrV::ConstI32(reg32_off(i) as u32)] + seq![InstrV::GetLocal(i)] + seq![InstrV::StoreI32(0)] =~= acc + code_spill_one(i));
            assert(acc + code_spill_one(i) =~= code_spill_regs((i + 1) as nat));
        }
        i = i + 1;
    }
}

/// Reload the eight register locals from the in-memory register cells.
/// Required after any helper that may have mutated them.
pub fn gen_move_registers_from_memory_to_locals(ctx: &mut JitContext)
    requires
        old(ctx).wf(),
    ensures
        final(ctx).wf(),
        ctx_emits(*old(ctx), *final(ctx), code_reload_regs(8)),
        final(ctx).builder.next_local() == old(ctx).builder.next_local(),
{
    let ghost pre = *ctx;
    let ghost b0 = pre.builder;
    proof {
        crate::builder::lemma_push_onto_empty(b0.frames_v());
    }
    let mut i: u32 = 0;
    while i < 8
        invariant
            pre.wf(),
            ctx.wf(),
            i <= 8,
            emitted(b0, ctx.builder, code_reload_regs(i as nat)),
            ctx.builder.next_local() == b0.next_local(),
            ctx.builder.free_list() == b0.free_list(),
            ctx.builder.depth() == b0.depth(),
            ctx.register_locals == pre.register_locals,
            ctx.start_of_current_instruction == pre.start_of_current_instruction,
            ctx.current_brtable_depth == pre.current_brtable_depth,
            ctx.cpu == pre.cpu,
            b0.frames_v().len() >= 1,
        decreases 8 - i,
    {
        let ghost acc = code_reload_regs(i as nat);
        let off = layout::get_reg32_offset(i);
        proof {
            lemma_cast_roundtrip_u32(off);
        }
        ctx.builder.const_i32(off as i32);
        ctx.builder.load_aligned_i32_from_stack(0);
        let l = ctx.register_locals[i as usize];
        ctx.builder.set_local(&l);
        proof {
            let fs = b0.frames_v();
            lemma_push_onto_app(fs, acc, seq![InstrV::ConstI32(reg32_off(i) as u32)]);
            lemma_push_onto_app(fs, acc + seq![InstrV::ConstI32(reg32_off(i) as u32)], seq![InstrV::LoadI32(0)]);
            lemma_push_onto_app(fs, acc + seq![InstrV::ConstI32(reg32_off(i) as u32)] + seq![InstrV::LoadI32(0)], seq![InstrV::SetLocal(i)]);
            assert(acc + seq![InstrV::ConstI32(reg32_off(i) as u32)] + seq![InstrV::LoadI32(0)] + seq![InstrV::SetLocal(i)] =~= acc + code_reload_one(i));
            assert(acc + code_reload_one(i) =~= code_reload_regs((i + 1) as nat));
        }
        i = i + 1;
    }
}

/// Code of [`gen_trigger_ud`]: spill the register cache, restore a fault
/// instruction pointer, call the undefined-opcode helper, and return
/// from the translation unit.
pub open spec fn code_trigger_ud(start_low: u32) -> Seq<InstrV> {
    code_spill_regs(8) + code_set_previous_eip_low_bits(start_low) + seq![
        InstrV::Call(HostFn::TriggerUd),
        InstrV::Ret,
    ]
}

/// Emit an undefined-opcode trap.
pub fn gen_trigger_ud(ctx: &mut JitContext)
    requires
        old(ctx).wf(),
    ensures
        final(ctx).wf(),
        ctx_emits(
            *old(ctx),
            *final(ctx),
            code_trigger_ud((old(ctx).start_of_current_instruction & 0xFFF) as u32),
        ),
        final(ctx).builder.next_local() == old(ctx).builder.next_local(),
{
    let ghost pre = *ctx;
    let ghost b0 = pre.builder;
    let ghost start_low = (pre.start_of_current_instruction & 0xFFF) as u32;
    gen_move_registers_from_locals_to_memory(ctx);
    let low = (ctx.start_of_current_instruction & 0xFFF) as i32;
    proof {
        lemma_low12_bound(pre.start_of_current_instruction);
    }
    gen_set_previous_eip_offset_from_eip_with_low_bits(&mut ctx.builder, low);
    proof {
        lemma_push_onto_app(b0.frames_v(), code_spill_regs(8), code_set_previous_eip_low_bits(start_low));
    }
    let ghost acc = code_spill_regs(8) + code_set_previous_eip_low_bits(start_low);
    gen_fn0_const(&mut ctx.builder, HostFn::TriggerUd);
    gen_debug_track_jit_exit(&mut ctx.builder, ctx.start_of_current_instruction);
    ctx.builder.return_();
    proof {
        lemma_push_onto_app(b0.frames_v(), acc, seq![InstrV::Call(HostFn::TriggerUd)]);
        lemma_push_onto_app(b0.frames_v(), acc + seq![InstrV::Call(HostFn::TriggerUd)], seq![InstrV::Ret]);
        assert((acc + seq![InstrV::Call(HostFn::TriggerUd)]) + seq![InstrV::Ret] =~= code_trigger_ud(start_low));
    }
}

/// Code of [`gen_trigger_gp`]: like the undefined-opcode trap, with the
/// error code as helper argument.
pub open spec fn code_trigger_gp(error_code: u32, start_low: u32) -> Seq<InstrV> {
    code_spill_regs(8) + code_set_previous_eip_low_bits(start_low) + seq![
        InstrV::ConstI32(error_code),
        InstrV::Call(HostFn::TriggerGp),
        InstrV::Ret,
    ]
}

/// Emit a general-protection trap with error code `error_code`.
pub fn gen_trigger_gp(ctx: &mut JitContext, error_code: u32)
    requires
        old(ctx).wf(),
    ensures
        final(ctx).wf(),
        ctx_emits(
            *old(ctx),
            *final(ctx),
            code_trigger_gp(error_code, (old(ctx).start_of_current_instruction & 0xFFF) as u32),
        ),
        final(ctx).builder.next_local() == old(ctx).builder.next_local(),
{
    let ghost pre = *ctx;
    let ghost b0 = pre.builder;
    let ghost start_low = (pre.start_of_current_instruction & 0xFFF) as u32;
    gen_move_registers_from_locals_to_memory(ctx);
    let low = (ctx.start_of_current_instruction & 0xFFF) as i32;
    proof {
        lemma_low12_bound(pre.start_of_current_instruction);
    }
    gen_set_previous_eip_offset_from_eip_with_low_bits(&mut ctx.builder, low);
    proof {
        lemma_push_onto_app(b0.frames_v(), code_spill_regs(8), code_set_previous_eip_low_bits(start_low));
    }
    let ghost acc = code_spill_regs(8) + code_set_previous_eip_low_bits(start_low);
    gen_fn1_const(&mut ctx.builder, HostFn::TriggerGp, error_code);
    gen_debug_track_jit_exit(&mut ctx.builder, ctx.start_of_current_instruction);
    ctx.builder.return_();
    proof {
        lemma_push_onto_app(b0.frames_v(), acc, seq![InstrV::ConstI32(error_code), InstrV::Call(HostFn::TriggerGp)]);
        lemma_push_onto_app(b0.frames_v(), acc + seq![InstrV::ConstI32(error_code), InstrV::Call(HostFn::TriggerGp)], seq![InstrV::Ret]);
        assert((acc + seq![InstrV::ConstI32(error_code), InstrV::Call(HostFn::TriggerGp)]) + seq![InstrV::Ret] =~= code_trigger_gp(error_code, start_low));
    }
}

/// Code of the task-switch precheck: when `CR0 & (CR0_EM | CR0_TS)` is
/// nonzero, restore a fault instruction pointer, spill the register
/// cache, call the given helper and return from the translation unit.
pub open spec fn code_task_switch_test(f: HostFn, start_low: u32) -> Seq<InstrV> {
    seq![
        InstrV::LoadU8At(creg_off(0) as u32),
        InstrV::ConstI32((arch::CR0_EM | arch::CR0_TS) as u32),
        InstrV::AndI32,
        InstrV::IfBlock {
            kind: BlockKind::NoRes,
            then_code: code_set_previous_eip_low_bits(start_low) + code_spill_regs(8) + seq![
                InstrV::Call(f),
                InstrV::Ret,
            ],
            else_code: Seq::<InstrV>::empty(),
        },
    ]
}

fn gen_task_switch_test_body(ctx: &mut JitContext, f: HostFn)
    requires
        old(ctx).wf(),
        arg_kinds(f).len() == 0,
        ret_kind(f) is None,
    ensures
        final(ctx).wf(),
        ctx_emits(
            *old(ctx),
            *final(ctx),
            code_task_switch_test(f, (old(ctx).start_of_current_instruction & 0xFFF) as u32),
        ),
        final(ctx).builder.next_local() == old(ctx).builder.next_local(),
{
    let ghost pre = *ctx;
    let ghost b0 = pre.builder;
    let ghost start_low = (pre.start_of_current_instruction & 0xFFF) as u32;

    let cr0_offset = layout::get_creg_offset(0);
    ctx.builder.load_u8(cr0_offset);
    ctx.builder.const_i32((arch::CR0_EM | arch::CR0_TS) as i32);
    ctx.builder.and_i32();
    proof {
        assert(((0xCi32) as u32) == 0xCu32);
        assert((arch::CR0_EM | arch::CR0_TS) == 0xCu32) by (bit_vector);
        let fs = b0.frames_v();
        let c1 = InstrV::LoadU8At(creg_off(0) as u32);
        let c2 = InstrV::ConstI32((arch::CR0_EM | arch::CR0_TS) as u32);
        lemma_push_onto_app(fs, seq![c1], seq![c2]);
        assert(seq![c1] + seq![c2] =~= seq![c1, c2]);
        lemma_push_onto_app(fs, seq![c1, c2], seq![InstrV::AndI32]);
        assert(seq![c1, c2] + seq![InstrV::AndI32] =~= seq![c1, c2, InstrV::AndI32]);
        assert(emitted(b0, ctx.builder, seq![c1, c2, InstrV::AndI32]));
    }
    let ghost b_cond = ctx.builder;

    ctx.builder.if_void();
    let ghost b_if = ctx.builder;

    gen_debug_track_jit_exit(&mut ctx.builder, ctx.start_of_current_instruction);
    let low = (ctx.start_of_current_instruction & 0xFFF) as i32;
    proof {
        lemma_low12_bound(pre.start_of_current_instruction);
    }
    gen_set_previous_eip_offset_from_eip_with_low_bits(&mut ctx.builder, low);
    gen_move_registers_from_locals_to_memory(ctx);
    proof {
        lemma_push_onto_app(b_if.frames_v(), code_set_previous_eip_low_bits(start_low), code_spill_regs(8));
    }
    let ghost acc = code_set_previous_eip_low_bits(start_low) + code_spill_regs(8);
    gen_fn0_const(&mut ctx.builder, f);
    ctx.builder.return_();
    proof {
        lemma_push_onto_app(b_if.frames_v(), acc, seq![InstrV::Call(f)]);
        lemma_push_onto_app(b_if.frames_v(), acc + seq![InstrV::Call(f)], seq![InstrV::Ret]);
        assert((acc + seq![InstrV::Call(f)]) + seq![InstrV::Ret] =~= acc + seq![InstrV::Call(f), InstrV::Ret]);
    }
    let ghost b_then = ctx.builder;
    ctx.builder.block_end();
    proof {
        lemma_if_bracket_noelse(
            b_cond,
            b_if,
            b_then,
            ctx.builder,
            BlockKind::NoRes,
            code_set_previous_eip_low_bits(start_low) + code_spill_regs(8) + seq![
                InstrV::Call(f),
                InstrV::Ret,
            ],
        );
        lemma_push_onto_app(
            b0.frames_v(),
            seq![
                InstrV::LoadU8At(creg_off(0) as u32),
                InstrV::ConstI32((arch::CR0_EM | arch::CR0_TS) as u32),
                InstrV::AndI32,
            ],
            seq![code_task_switch_test(f, start_low)[3]],
        );
        assert(seq![
            InstrV::LoadU8At(creg_off(0) as u32),
            InstrV::ConstI32((arch::CR0_EM | arch::CR0_TS) as u32),
            InstrV::AndI32,
        ] + seq![code_task_switch_test(f, start_low)[3]] =~= code_task_switch_test(f, start_low));
        assert(ctx_emits(pre, *ctx, code_task_switch_test(f, start_low)));
    }
}

/// Emit the task-switch precheck guarding an ordinary FPU instruction.
pub fn gen_task_switch_test(ctx: &mut JitContext)
    requires
        old(ctx).wf(),
    ensures
        final(ctx).wf(),
        ctx_emits(
            *old(ctx),
            *final(ctx),
            code_task_switch_test(
                HostFn::TaskSwitchTest,
                (old(ctx).start_of_current_instruction & 0xFFF) as u32,
            ),
        ),
        final(ctx).builder.next_local() == old(ctx).builder.next_local(),
{
    gen_task_switch_test_body(ctx, HostFn::TaskSwitchTest);
}

/// Emit the task-switch precheck guarding an MMX instruction.
pub fn gen_task_switch_test_mmx(ctx: &mut JitContext)
    requires
        old(ctx).wf(),
    ensures
        final(ctx).wf(),
        ctx_emits(
            *old(ctx),
            *final(ctx),
            code_task_switch_test(
                HostFn::TaskSwitchTestMmx,
                (old(ctx).start_of_current_instruction & 0xFFF) as u32,
            ),
        ),
        final(ctx).builder.next_local() == old(ctx).builder.next_local(),
{
    gen_task_switch_test_body(ctx, HostFn::TaskSwitchTestMmx);
}

/// Code of [`gen_fpu_get_sti`]: fetch FPU stack entry `i` as an f64.
pub open spec fn code_fpu_get_sti(i: u32) -> Seq<InstrV> {
    seq![InstrV::ConstI32(i), InstrV::Call(HostFn::FpuGetSti)]
}

/// Emit a call fetching FPU stack entry `i` as an f64.
pub fn gen_fpu_get_sti(ctx: &mut JitContext, i: u32)
    requires
        old(ctx).wf(),
    ensures
        final(ctx).wf(),
        ctx_emits(*old(ctx), *final(ctx), code_fpu_get_sti(i)),
        final(ctx).builder.next_local() == old(ctx).builder.next_local(),
{
    proof {
        lemma_cast_roundtrip_u32(i);
    }
    ctx.builder.const_i32(i as i32);
    gen_call_fn1_ret_f64(&mut ctx.builder, HostFn::FpuGetSti);
    proof {
        lemma_push_onto_app(old(ctx).builder.frames_v(), seq![InstrV::ConstI32(i)], seq![InstrV::Call(HostFn::FpuGetSti)]);
        assert(seq![InstrV::ConstI32(i)] + seq![InstrV::Call(HostFn::FpuGetSti)] =~= code_fpu_get_sti(i));
    }
}

/// Code of [`gen_fpu_load_m32`] after the guarded read: reinterpret the
/// loaded bits as f32 and widen to f64.
pub open spec fn code_fpu_m32_tail() -> Seq<InstrV> {
    seq![InstrV::I32AsF32, InstrV::F32ToF64]
}

/// Emit a load of an m32 float operand from the virtual address in
/// `address_local`, leaving it on the stack as an f64.
pub fn gen_fpu_load_m32(ctx: &mut JitContext, address_local: &HostLocal)
    requires
        old(ctx).wf(),
        old(ctx).builder.is_live(address_local.idx),
        old(ctx).builder.room(2),
        old(ctx).current_brtable_depth >= 2,
    ensures
        final(ctx).wf(),
        exists|e: u32, v: u32|
            !old(ctx).builder.is_live(e) && ctx_emits(
                *old(ctx),
                *final(ctx),
                #[trigger] code_safe_read(
                    BitSize::Dword,
                    old(ctx).cpu.cpl3,
                    address_local.idx,
                    e,
                    v,
                    0,
                    (old(ctx).start_of_current_instruction & 0xFFF) as u32,
                    old(ctx).current_brtable_depth,
                ) + code_fpu_m32_tail(),
            ),
        final(ctx).builder.next_local() <= old(ctx).builder.next_local() + 2,
{
    let ghost pre = *ctx;
    let ghost b0 = pre.builder;
    let ghost start_low = (pre.start_of_current_instruction & 0xFFF) as u32;
    let ghost depth = pre.current_brtable_depth;
    let ghost a = address_local.idx;
    gen_safe_read32(ctx, address_local);
    proof {
        let (e0, v0) = choose|e0: u32, v0: u32|
            !b0.is_live(e0) && ctx_emits(
                pre,
                *ctx,
                #[trigger] code_safe_read(BitSize::Dword, pre.cpu.cpl3, a, e0, v0, 0, start_low, depth),
            );
        assert(code_safe_read(BitSize::Dword, pre.cpu.cpl3, a, e0, v0, 0, start_low, depth)
            == code_safe_read(BitSize::Dword, pre.cpu.cpl3, a, e0, e0, 0, start_low, depth));
    }
    let ghost e = choose|e: u32|
        !b0.is_live(e) && emitted(
            b0,
            ctx.builder,
            #[trigger] code_safe_read(BitSize::Dword, pre.cpu.cpl3, a, e, e, 0, start_low, depth),
        );
    ctx.builder.reinterpret_i32_as_f32();
    ctx.builder.promote_f32_to_f64();
    proof {
        let rd = code_safe_read(BitSize::Dword, pre.cpu.cpl3, a, e, e, 0, start_low, depth);
        lemma_push_onto_app(b0.frames_v(), rd, seq![InstrV::I32AsF32]);
        lemma_push_onto_app(b0.frames_v(), rd + seq![InstrV::I32AsF32], seq![InstrV::F32ToF64]);
        assert((rd + seq![InstrV::I32AsF32]) + seq![InstrV::F32ToF64] =~= rd + code_fpu_m32_tail());
        assert(ctx_emits(pre, *ctx, rd + code_fpu_m32_tail()));
    }
}

/// Emit a load of an m64 float operand from the virtual address in
/// `address_local`, leaving it on the stack as an f64.
pub fn gen_fpu_load_m64(ctx: &mut JitContext, address_local: &HostLocal)
    requires
        old(ctx).wf(),
        old(ctx).builder.is_live(address_local.idx),
        old(ctx).builder.room(2),
        old(ctx).current_brtable_depth >= 2,
    ensures
        final(ctx).wf(),
        exists|e: u32, v: u32|
            !old(ctx).builder.is_live(e) && ctx_emits(
                *old(ctx),
                *final(ctx),
                #[trigger] code_safe_read(
                    BitSize::Qword,
                    old(ctx).cpu.cpl3,
                    address_local.idx,
                    e,
                    v,
                    0,
                    (old(ctx).start_of_current_instruction & 0xFFF) as u32,
                    old(ctx).current_brtable_depth,
                ) + seq![InstrV::I64AsF64],
            ),
        final(ctx).builder.next_local() <= old(ctx).builder.next_local() + 2,
{
    let ghost pre = *ctx;
    let ghost b0 = pre.builder;
    let ghost start_low = (pre.start_of_current_instruction & 0xFFF) as u32;
    let ghost depth = pre.current_brtable_depth;
    let ghost a = address_local.idx;
    gen_safe_read64(ctx, address_local);
    proof {
        let (e0, v0) = choose|e0: u32, v0: u32|
            !b0.is_live(e0) && ctx_emits(
                pre,
                *ctx,
                #[trigger] code_safe_read(BitSize::Qword, pre.cpu.cpl3, a, e0, v0, 0, start_low, depth),
            );
        assert(code_safe_read(BitSize::Qword, pre.cpu.cpl3, a, e0, v0, 0, start_low, depth)
            == code_safe_read(BitSize::Qword, pre.cpu.cpl3, a, e0, e0, 0, start_low, depth));
    }
    let ghost e = choose|e: u32|
        !b0.is_live(e) && emitted(
            b0,
            ctx.builder,
            #[trigger] code_safe_read(BitSize::Qword, pre.cpu.cpl3, a, e, e, 0, start_low, depth),
        );
    ctx.builder.reinterpret_i64_as_f64();
    proof {
        let rd = code_safe_read(BitSize::Qword, pre.cpu.cpl3, a, e, e, 0, start_low, depth);
        lemma_push_onto_app(b0.frames_v(), rd, seq![InstrV::I64AsF64]);
        assert(ctx_emits(pre, *ctx, rd + seq![InstrV::I64AsF64]));
    }
}

} // verus!
