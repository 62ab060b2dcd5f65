//! Small-primitive, register-access and typed-call emitters.
//!
//! Every emitter's contract pins down the exact bytecode it appends
//! (through [`ctx_emits`] or [`emitted`]) and states that the emitter
//! leaves the scratch-local arena as it found it.

use vstd::prelude::*;
use crate::arch;
use crate::layout;
use crate::layout::{seg_off, sreg_off};
use crate::builder::{CodeBuilder, HostLocal, emitted, locals_same, lemma_push_onto_app};
use crate::ctx::{JitContext, ctx_emits};
use crate::isa::{HostFn, InstrV, ValKind, arg_kinds, ret_kind, lemma_cast_roundtrip_u32};

verus! {

/// Code of [`gen_add_cs_offset`]: add the CS base to the stack top.
pub open spec fn code_add_cs_offset() -> Seq<InstrV> {
    seq![InstrV::LoadI32At(seg_off(arch::CS) as u32), InstrV::AddI32]
}

/// Add the linear base of CS to the address on the stack.
pub fn gen_add_cs_offset(ctx: &mut JitContext)
    requires
        old(ctx).wf(),
    ensures
        final(ctx).wf(),
        ctx_emits(*old(ctx), *final(ctx), code_add_cs_offset()),
        final(ctx).builder.next_local() == old(ctx).builder.next_local(),
{
    ctx.builder.load_aligned_i32(layout::get_seg_offset(arch::CS));
    ctx.builder.add_i32();
    proof {
        let ghost fs = old(ctx).builder.frames_v();
        lemma_push_onto_app(fs, seq![InstrV::LoadI32At(seg_off(arch::CS) as u32)], seq![InstrV::AddI32]);
        assert(seq![InstrV::LoadI32At(seg_off(arch::CS) as u32)] + seq![InstrV::AddI32] =~= seq![InstrV::LoadI32At(seg_off(arch::CS) as u32), InstrV::AddI32]);
        assert(seq![InstrV::LoadI32At(seg_off(arch::CS) as u32), InstrV::AddI32] =~= code_add_cs_offset());
    }
}

/// Code of [`gen_set_previous_eip_offset_from_eip`].
pub open spec fn code_set_previous_eip_offset_from_eip(n: u32) -> Seq<InstrV> {
    if n == 0 {
        seq![
            InstrV::ConstI32(layout::PREVIOUS_IP),
            InstrV::LoadI32At(layout::INSTRUCTION_POINTER),
            InstrV::StoreI32(0),
        ]
    } else {
        seq![
            InstrV::ConstI32(layout::PREVIOUS_IP),
            InstrV::LoadI32At(layout::INSTRUCTION_POINTER),
            InstrV::ConstI32(n),
            InstrV::AddI32,
            InstrV::StoreI32(0),
        ]
    }
}

/// Store `instruction_pointer + n` into the previous-instruction-pointer
/// cell.
pub fn gen_set_previous_eip_offset_from_eip(builder: &mut CodeBuilder, n: u32)
    requires
        old(builder).wf(),
    ensures
        final(builder).wf(),
        emitted(*old(builder), *final(builder), code_set_previous_eip_offset_from_eip(n)),
        final(builder).next_local() == old(builder).next_local(),
        final(builder).free_list() == old(builder).free_list(),
        locals_same(*old(builder), *final(builder)),
        final(builder).depth() == old(builder).depth(),
{
    proof {
        assert(((n as i32) as u32) == n) by (bit_vector);
    }
    builder.const_i32(layout::PREVIOUS_IP as i32);
    builder.load_aligned_i32(layout::INSTRUCTION_POINTER);
    if n != 0 {
        builder.const_i32(n as i32);
        builder.add_i32();
        builder.store_aligned_i32(0);
    proof {
            let ghost fs = old(builder).frames_v();
            lemma_push_onto_app(fs, seq![InstrV::ConstI32(layout::PREVIOUS_IP)], seq![InstrV::LoadI32At(layout::INSTRUCTION_POINTER)]);
            assert(seq![InstrV::ConstI32(layout::PREVIOUS_IP)] + seq![InstrV::LoadI32At(layout::INSTRUCTION_POINTER)] =~= seq![InstrV::ConstI32(layout::PREVIOUS_IP), InstrV::LoadI32At(layout::INSTRUCTION_POINTER)]);
            lemma_push_onto_app(fs, seq![InstrV::ConstI32(layout::PREVIOUS_IP), InstrV::LoadI32At(layout::INSTRUCTION_POINTER)], seq![InstrV::ConstI32(n)]);
            assert(seq![InstrV::ConstI32(layout::PREVIOUS_IP), InstrV::LoadI32At(layout::INSTRUCTION_POINTER)] + seq![InstrV::ConstI32(n)] =~= seq![InstrV::ConstI32(layout::PREVIOUS_IP), InstrV::LoadI32At(layout::INSTRUCTION_POINTER), InstrV::ConstI32(n)]);
            lemma_push_onto_app(fs, seq![InstrV::ConstI32(layout::PREVIOUS_IP), InstrV::LoadI32At(layout::INSTRUCTION_POINTER), InstrV::ConstI32(n)], seq![InstrV::AddI32]);
            assert(seq![InstrV::ConstI32(layout::PREVIOUS_IP), InstrV::LoadI32At(layout::INSTRUCTION_POINTER), InstrV::ConstI32(n)] + seq![InstrV::AddI32] =~= seq![InstrV::ConstI32(layout::PREVIOUS_IP), InstrV::LoadI32At(layout::INSTRUCTION_POINTER), InstrV::ConstI32(n), InstrV::AddI32]);
            lemma_push_onto_app(fs, seq![InstrV::ConstI32(layout::PREVIOUS_IP), InstrV::LoadI32At(layout::INSTRUCTION_POINTER), InstrV::ConstI32(n), InstrV::AddI32], seq![InstrV::StoreI32(0)]);
            assert(seq![InstrV::ConstI32(layout::PREVIOUS_IP), InstrV::LoadI32At(layout::INSTRUCTION_POINTER), InstrV::ConstI32(n), InstrV::AddI32] + seq![InstrV::StoreI32(0)] =~= seq![InstrV::ConstI32(layout::PREVIOUS_IP), InstrV::LoadI32At(layout::INSTRUCTION_POINTER), InstrV::ConstI32(n), InstrV::AddI32, InstrV::StoreI32(0)]);
            assert(seq![InstrV::ConstI32(layout::PREVIOUS_IP), InstrV::LoadI32At(layout::INSTRUCTION_POINTER), InstrV::ConstI32(n), InstrV::AddI32, InstrV::StoreI32(0)] =~= code_set_previous_eip_offset_from_eip(n));
    }
    } else {
        builder.store_aligned_i32(0);
    proof {
            let ghost fs = old(builder).frames_v();
            lemma_push_onto_app(fs, seq![InstrV::ConstI32(layout::PREVIOUS_IP)], seq![InstrV::LoadI32At(layout::INSTRUCTION_POINTER)]);
            assert(seq![InstrV::ConstI32(layout::PREVIOUS_IP)] + seq![InstrV::LoadI32At(layout::INSTRUCTION_POINTER)] =~= seq![InstrV::ConstI32(layout::PREVIOUS_IP), InstrV::LoadI32At(layout::INSTRUCTION_POINTER)]);
            lemma_push_onto_app(fs, seq![InstrV::ConstI32(layout::PREVIOUS_IP), InstrV::LoadI32At(layout::INSTRUCTION_POINTER)], seq![InstrV::StoreI32(0)]);
            assert(seq![InstrV::ConstI32(layout::PREVIOUS_IP), InstrV::LoadI32At(layout::INSTRUCTION_POINTER)] + seq![InstrV::StoreI32(0)] =~= seq![InstrV::ConstI32(layout::PREVIOUS_IP), InstrV::LoadI32At(layout::INSTRUCTION_POINTER), InstrV::StoreI32(0)]);
            assert(seq![InstrV::ConstI32(layout::PREVIOUS_IP), InstrV::LoadI32At(layout::INSTRUCTION_POINTER), InstrV::StoreI32(0)] =~= code_set_previous_eip_offset_from_eip(n));
    }
    }
}

/// Code of [`gen_set_previous_eip_offset_from_eip_with_low_bits`]:
/// `previous_ip = instruction_pointer & ~0xFFF | low_bits`.
pub open spec fn code_set_previous_eip_low_bits(low_bits: u32) -> Seq<InstrV> {
    seq![
        InstrV::ConstI32(layout::PREVIOUS_IP),
        InstrV::LoadI32At(layout::INSTRUCTION_POINTER),
        InstrV::ConstI32(0xFFFF_F000),
        InstrV::AndI32,
        InstrV::ConstI32(low_bits),
        InstrV::OrI32,
        InstrV::StoreI32(0),
    ]
}

/// Store `instruction_pointer & ~0xFFF | low_bits` into the
/// previous-instruction-pointer cell, restoring a usable fault address
/// whose high 20 bits come from the live instruction pointer.
pub fn gen_set_previous_eip_offset_from_eip_with_low_bits(builder: &mut CodeBuilder, low_bits: i32)
    requires
        old(builder).wf(),
    ensures
        final(builder).wf(),
        emitted(*old(builder), *final(builder), code_set_previous_eip_low_bits(low_bits as u32)),
        final(builder).next_local() == old(builder).next_local(),
        final(builder).free_list() == old(builder).free_list(),
        locals_same(*old(builder), *final(builder)),
        final(builder).depth() == old(builder).depth(),
{
    proof {
        assert(((!0xFFFi32) as u32) == 0xFFFF_F000u32) by (bit_vector);
    }
    builder.const_i32(layout::PREVIOUS_IP as i32);
    builder.load_aligned_i32(layout::INSTRUCTION_POINTER);
    builder.const_i32(!0xFFF);
    builder.and_i32();
    builder.const_i32(low_bits);
    builder.or_i32();
    builder.store_aligned_i32(0);
    proof {
        let ghost fs = old(builder).frames_v();
        lemma_push_onto_app(fs, seq![InstrV::ConstI32(layout::PREVIOUS_IP)], seq![InstrV::LoadI32At(layout::INSTRUCTION_POINTER)]);
        assert(seq![InstrV::ConstI32(layout::PREVIOUS_IP)] + seq![InstrV::LoadI32At(layout::INSTRUCTION_POINTER)] =~= seq![InstrV::ConstI32(layout::PREVIOUS_IP), InstrV::LoadI32At(layout::INSTRUCTION_POINTER)]);
        lemma_push_onto_app(fs, seq![InstrV::ConstI32(layout::PREVIOUS_IP), InstrV::LoadI32At(layout::INSTRUCTION_POINTER)], seq![InstrV::ConstI32(0xFFFF_F000)]);
        assert(seq![InstrV::ConstI32(layout::PREVIOUS_IP), InstrV::LoadI32At(layout::INSTRUCTION_POINTER)] + seq![InstrV::ConstI32(0xFFFF_F000)] =~= seq![InstrV::ConstI32(layout::PREVIOUS_IP), InstrV::LoadI32At(layout::INSTRUCTION_POINTER), InstrV::ConstI32(0xFFFF_F000)]);
        lemma_push_onto_app(fs, seq![InstrV::ConstI32(layout::PREVIOUS_IP), InstrV::LoadI32At(layout::INSTRUCTION_POINTER), InstrV::ConstI32(0xFFFF_F000)], seq![InstrV::AndI32]);
        assert(seq![InstrV::ConstI32(layout::PREVIOUS_IP), InstrV::LoadI32At(layout::INSTRUCTION_POINTER), InstrV::ConstI32(0xFFFF_F000)] + seq![InstrV::AndI32] =~= seq![InstrV::ConstI32(layout::PREVIOUS_IP), InstrV::LoadI32At(layout::INSTRUCTION_POINTER), InstrV::ConstI32(0xFFFF_F000), InstrV::AndI32]);
        lemma_push_onto_app(fs, seq![InstrV::ConstI32(layout::PREVIOUS_IP), InstrV::LoadI32At(layout::INSTRUCTION_POINTER), InstrV::ConstI32(0xFFFF_F000), InstrV::AndI32], seq![InstrV::ConstI32(low_bits as u32)]);
        assert(seq![InstrV::ConstI32(layout::PREVIOUS_IP), InstrV::LoadI32At(layout::INSTRUCTION_POINTER), InstrV::ConstI32(0xFFFF_F000), InstrV::AndI32] + seq![InstrV::ConstI32(low_bits as u32)] =~= seq![InstrV::ConstI32(layout::PREVIOUS_IP), InstrV::LoadI32At(layout::INSTRUCTION_POINTER), InstrV::ConstI32(0xFFFF_F000), InstrV::AndI32, InstrV::ConstI32(low_bits as u32)]);
        lemma_push_onto_app(fs, seq![InstrV::ConstI32(layout::PREVIOUS_IP), InstrV::LoadI32At(layout::INSTRUCTION_POINTER), InstrV::ConstI32(0xFFFF_F000), InstrV::AndI32, InstrV::ConstI32(low_bits as u32)], seq![InstrV::OrI32]);
        assert(seq![InstrV::ConstI32(layout::PREVIOUS_IP), InstrV::LoadI32At(layout::INSTRUCTION_POINTER), InstrV::ConstI32(0xFFFF_F000), InstrV::AndI32, InstrV::ConstI32(low_bits as u32)] + seq![InstrV::OrI32] =~= seq![InstrV::ConstI32(layout::PREVIOUS_IP), InstrV::LoadI32At(layout::INSTRUCTION_POINTER), InstrV::ConstI32(0xFFFF_F000), InstrV::AndI32, InstrV::ConstI32(low_bits as u32), InstrV::OrI32]);
        lemma_push_onto_app(fs, seq![InstrV::ConstI32(layout::PREVIOUS_IP), InstrV::LoadI32At(layout::INSTRUCTION_POINTER), InstrV::ConstI32(0xFFFF_F000), InstrV::AndI32, InstrV::ConstI32(low_bits as u32), InstrV::OrI32], seq![InstrV::StoreI32(0)]);
        assert(seq![InstrV::ConstI32(layout::PREVIOUS_IP), InstrV::LoadI32At(layout::INSTRUCTION_POINTER), InstrV::ConstI32(0xFFFF_F000), InstrV::AndI32, InstrV::ConstI32(low_bits as u32), InstrV::OrI32] + seq![InstrV::StoreI32(0)] =~= seq![InstrV::ConstI32(layout::PREVIOUS_IP), InstrV::LoadI32At(layout::INSTRUCTION_POINTER), InstrV::ConstI32(0xFFFF_F000), InstrV::AndI32, InstrV::ConstI32(low_bits as u32), InstrV::OrI32, InstrV::StoreI32(0)]);
        assert(seq![InstrV::ConstI32(layout::PREVIOUS_IP), InstrV::LoadI32At(layout::INSTRUCTION_POINTER), InstrV::ConstI32(0xFFFF_F000), InstrV::AndI32, InstrV::ConstI32(low_bits as u32), InstrV::OrI32, InstrV::StoreI32(0)] =~= code_set_previous_eip_low_bits(low_bits as u32));
    }
}

/// Code of [`gen_increment_instruction_pointer`].
pub open spec fn code_increment_instruction_pointer(n: u32) -> Seq<InstrV> {
    seq![
        InstrV::ConstI32(layout::INSTRUCTION_POINTER),
        InstrV::LoadI32At(layout::INSTRUCTION_POINTER),
        InstrV::ConstI32(n),
        InstrV::AddI32,
        InstrV::StoreI32(0),
    ]
}

/// Advance the instruction pointer by `n` bytes.
pub fn gen_increment_instruction_pointer(builder: &mut CodeBuilder, n: u32)
    requires
        old(builder).wf(),
    ensures
        final(builder).wf(),
        emitted(*old(builder), *final(builder), code_increment_instruction_pointer(n)),
        final(builder).next_local() == old(builder).next_local(),
        final(builder).free_list() == old(builder).free_list(),
        locals_same(*old(builder), *final(builder)),
        final(builder).depth() == old(builder).depth(),
{
    proof {
        assert(((n as i32) as u32) == n) by (bit_vector);
    }
    builder.const_i32(layout::INSTRUCTION_POINTER as i32);
    builder.load_aligned_i32(layout::INSTRUCTION_POINTER);
    builder.const_i32(n as i32);
    builder.add_i32();
    builder.store_aligned_i32(0);
    proof {
        let ghost fs = old(builder).frames_v();
        lemma_push_onto_app(fs, seq![InstrV::ConstI32(layout::INSTRUCTION_POINTER)], seq![InstrV::LoadI32At(layout::INSTRUCTION_POINTER)]);
        assert(seq![InstrV::ConstI32(layout::INSTRUCTION_POINTER)] + seq![InstrV::LoadI32At(layout::INSTRUCTION_POINTER)] =~= seq![InstrV::ConstI32(layout::INSTRUCTION_POINTER), InstrV::LoadI32At(layout::INSTRUCTION_POINTER)]);
        lemma_push_onto_app(fs, seq![InstrV::ConstI32(layout::INSTRUCTION_POINTER), InstrV::LoadI32At(layout::INSTRUCTION_POINTER)], seq![InstrV::ConstI32(n)]);
        assert(seq![InstrV::ConstI32(layout::INSTRUCTION_POINTER), InstrV::LoadI32At(layout::INSTRUCTION_POINTER)] + seq![InstrV::ConstI32(n)] =~= seq![InstrV::ConstI32(layout::INSTRUCTION_POINTER), InstrV::LoadI32At(layout::INSTRUCTION_POINTER), InstrV::ConstI32(n)]);
        lemma_push_onto_app(fs, seq![InstrV::ConstI32(layout::INSTRUCTION_POINTER), InstrV::LoadI32At(layout::INSTRUCTION_POINTER), InstrV::ConstI32(n)], seq![InstrV::AddI32]);
        assert(seq![InstrV::ConstI32(layout::INSTRUCTION_POINTER), InstrV::LoadI32At(layout::INSTRUCTION_POINTER), InstrV::ConstI32(n)] + seq![InstrV::AddI32] =~= seq![InstrV::ConstI32(layout::INSTRUCTION_POINTER), InstrV::LoadI32At(layout::INSTRUCTION_POINTER), InstrV::ConstI32(n), InstrV::AddI32]);
        lemma_push_onto_app(fs, seq![InstrV::ConstI32(layout::INSTRUCTION_POINTER), InstrV::LoadI32At(layout::INSTRUCTION_POINTER), InstrV::ConstI32(n), InstrV::AddI32], seq![InstrV::StoreI32(0)]);
        assert(seq![InstrV::ConstI32(layout::INSTRUCTION_POINTER), InstrV::LoadI32At(layout::INSTRUCTION_POINTER), InstrV::ConstI32(n), InstrV::AddI32] + seq![InstrV::StoreI32(0)] =~= seq![InstrV::ConstI32(layout::INSTRUCTION_POINTER), InstrV::LoadI32At(layout::INSTRUCTION_POINTER), InstrV::ConstI32(n), InstrV::AddI32, InstrV::StoreI32(0)]);
        assert(seq![InstrV::ConstI32(layout::INSTRUCTION_POINTER), InstrV::LoadI32At(layout::INSTRUCTION_POINTER), InstrV::ConstI32(n), InstrV::AddI32, InstrV::StoreI32(0)] =~= code_increment_instruction_pointer(n));
    }
}

/// Add `n` to the instruction pointer (a relative jump, without touching
/// the previous-instruction-pointer cell).
pub fn gen_relative_jump(builder: &mut CodeBuilder, n: i32)
    requires
        old(builder).wf(),
    ensures
        final(builder).wf(),
        emitted(*old(builder), *final(builder), code_increment_instruction_pointer(n as u32)),
        final(builder).next_local() == old(builder).next_local(),
        final(builder).free_list() == old(builder).free_list(),
        locals_same(*old(builder), *final(builder)),
        final(builder).depth() == old(builder).depth(),
{
    builder.const_i32(layout::INSTRUCTION_POINTER as i32);
    builder.load_aligned_i32(layout::INSTRUCTION_POINTER);
    builder.const_i32(n);
    builder.add_i32();
    builder.store_aligned_i32(0);
    proof {
        let ghost fs = old(builder).frames_v();
        lemma_push_onto_app(fs, seq![InstrV::ConstI32(layout::INSTRUCTION_POINTER)], seq![InstrV::LoadI32At(layout::INSTRUCTION_POINTER)]);
        assert(seq![InstrV::ConstI32(layout::INSTRUCTION_POINTER)] + seq![InstrV::LoadI32At(layout::INSTRUCTION_POINTER)] =~= seq![InstrV::ConstI32(layout::INSTRUCTION_POINTER), InstrV::LoadI32At(layout::INSTRUCTION_POINTER)]);
        lemma_push_onto_app(fs, seq![InstrV::ConstI32(layout::INSTRUCTION_POINTER), InstrV::LoadI32At(layout::INSTRUCTION_POINTER)], seq![InstrV::ConstI32(n as u32)]);
        assert(seq![InstrV::ConstI32(layout::INSTRUCTION_POINTER), InstrV::LoadI32At(layout::INSTRUCTION_POINTER)] + seq![InstrV::ConstI32(n as u32)] =~= seq![InstrV::ConstI32(layout::INSTRUCTION_POINTER), InstrV::LoadI32At(layout::INSTRUCTION_POINTER), InstrV::ConstI32(n as u32)]);
        lemma_push_onto_app(fs, seq![InstrV::ConstI32(layout::INSTRUCTION_POINTER), InstrV::LoadI32At(layout::INSTRUCTION_POINTER), InstrV::ConstI32(n as u32)], seq![InstrV::AddI32]);
        assert(seq![InstrV::ConstI32(layout::INSTRUCTION_POINTER), InstrV::LoadI32At(layout::INSTRUCTION_POINTER), InstrV::ConstI32(n as u32)] + seq![InstrV::AddI32] =~= seq![InstrV::ConstI32(layout::INSTRUCTION_POINTER), InstrV::LoadI32At(layout::INSTRUCTION_POINTER), InstrV::ConstI32(n as u32), InstrV::AddI32]);
        lemma_push_onto_app(fs, seq![InstrV::ConstI32(layout::INSTRUCTION_POINTER), InstrV::LoadI32At(layout::INSTRUCTION_POINTER), InstrV::ConstI32(n as u32), InstrV::AddI32], seq![InstrV::StoreI32(0)]);
        assert(seq![InstrV::ConstI32(layout::INSTRUCTION_POINTER), InstrV::LoadI32At(layout::INSTRUCTION_POINTER), InstrV::ConstI32(n as u32), InstrV::AddI32] + seq![InstrV::StoreI32(0)] =~= seq![InstrV::ConstI32(layout::INSTRUCTION_POINTER), InstrV::LoadI32At(layout::INSTRUCTION_POINTER), InstrV::ConstI32(n as u32), InstrV::AddI32, InstrV::StoreI32(0)]);
        assert(seq![InstrV::ConstI32(layout::INSTRUCTION_POINTER), InstrV::LoadI32At(layout::INSTRUCTION_POINTER), InstrV::ConstI32(n as u32), InstrV::AddI32, InstrV::StoreI32(0)] =~= code_increment_instruction_pointer(n as u32));
    }
}

/// Code of [`gen_set_eip`]: store a local into the instruction pointer.
pub open spec fn code_set_eip(x: u32) -> Seq<InstrV> {
    seq![
        InstrV::ConstI32(layout::INSTRUCTION_POINTER),
        InstrV::GetLocal(x),
        InstrV::StoreI32(0),
    ]
}

/// Store local `from` into the instruction pointer.
pub fn gen_set_eip(ctx: &mut JitContext, from: &HostLocal)
    requires
        old(ctx).wf(),
        old(ctx).builder.is_live(from.idx),
    ensures
        final(ctx).wf(),
        ctx_emits(*old(ctx), *final(ctx), code_set_eip(from.idx)),
        final(ctx).builder.next_local() == old(ctx).builder.next_local(),
{
    ctx.builder.const_i32(layout::INSTRUCTION_POINTER as i32);
    ctx.builder.get_local(from);
    ctx.builder.store_aligned_i32(0);
    proof {
        let ghost fs = old(ctx).builder.frames_v();
        lemma_push_onto_app(fs, seq![InstrV::ConstI32(layout::INSTRUCTION_POINTER)], seq![InstrV::GetLocal(from.idx)]);
        assert(seq![InstrV::ConstI32(layout::INSTRUCTION_POINTER)] + seq![InstrV::GetLocal(from.idx)] =~= seq![InstrV::ConstI32(layout::INSTRUCTION_POINTER), InstrV::GetLocal(from.idx)]);
        lemma_push_onto_app(fs, seq![InstrV::ConstI32(layout::INSTRUCTION_POINTER), InstrV::GetLocal(from.idx)], seq![InstrV::StoreI32(0)]);
        assert(seq![InstrV::ConstI32(layout::INSTRUCTION_POINTER), InstrV::GetLocal(from.idx)] + seq![InstrV::StoreI32(0)] =~= seq![InstrV::ConstI32(layout::INSTRUCTION_POINTER), InstrV::GetLocal(from.idx), InstrV::StoreI32(0)]);
        assert(seq![InstrV::ConstI32(layout::INSTRUCTION_POINTER), InstrV::GetLocal(from.idx), InstrV::StoreI32(0)] =~= code_set_eip(from.idx));
    }
}

/// Code of [`gen_increment_variable`].
pub open spec fn code_increment_variable(variable_address: u32, n: u32) -> Seq<InstrV> {
    seq![
        InstrV::ConstI32(variable_address),
        InstrV::LoadI32At(variable_address),
        InstrV::ConstI32(n),
        InstrV::AddI32,
        InstrV::StoreI32(0),
    ]
}

/// Add the constant `n` to the 32-bit variable at `variable_address`.
pub fn gen_increment_variable(builder: &mut CodeBuilder, variable_address: u32, n: i32)
    requires
        old(builder).wf(),
    ensures
        final(builder).wf(),
        emitted(
            *old(builder),
            *final(builder),
            code_increment_variable(variable_address, n as u32),
        ),
        final(builder).next_local() == old(builder).next_local(),
        final(builder).free_list() == old(builder).free_list(),
        locals_same(*old(builder), *final(builder)),
        final(builder).depth() == old(builder).depth(),
{
    builder.increment_variable(variable_address, n);
    proof {
        assert(seq![
            InstrV::ConstI32(variable_address),
            InstrV::LoadI32At(variable_address),
            InstrV::ConstI32(n as u32),
            InstrV::AddI32,
            InstrV::StoreI32(0),
        ] =~= code_increment_variable(variable_address, n as u32));
    }
}

/// Add `n` to the 64-bit-truncated timestamp counter variable.
pub fn gen_increment_timestamp_counter(builder: &mut CodeBuilder, n: i32)
    requires
        old(builder).wf(),
    ensures
        final(builder).wf(),
        emitted(
            *old(builder),
            *final(builder),
            code_increment_variable(layout::TIMESTAMP_COUNTER, n as u32),
        ),
        final(builder).next_local() == old(builder).next_local(),
        final(builder).free_list() == old(builder).free_list(),
        locals_same(*old(builder), *final(builder)),
        final(builder).depth() == old(builder).depth(),
{
    gen_increment_variable(builder, layout::TIMESTAMP_COUNTER, n);
}

/// Add 1 to the 32-bit variable at `addr`.
pub fn gen_increment_mem32(builder: &mut CodeBuilder, addr: u32)
    requires
        old(builder).wf(),
    ensures
        final(builder).wf(),
        emitted(*old(builder), *final(builder), code_increment_variable(addr, 1)),
        final(builder).next_local() == old(builder).next_local(),
        final(builder).free_list() == old(builder).free_list(),
        locals_same(*old(builder), *final(builder)),
        final(builder).depth() == old(builder).depth(),
{
    builder.increment_mem32(addr);
    proof {
        assert(seq![
            InstrV::ConstI32(addr),
            InstrV::LoadI32At(addr),
            InstrV::ConstI32(1),
            InstrV::AddI32,
            InstrV::StoreI32(0),
        ] =~= code_increment_variable(addr, 1));
    }
}

/// Code of [`gen_get_reg8`]: read an 8-bit subregister out of the
/// register cache onto the stack.
pub open spec fn code_get_reg8(r: u32) -> Seq<InstrV> {
    if r < 4 {
        seq![InstrV::GetLocal(r), InstrV::ConstI32(0xFF), InstrV::AndI32]
    } else {
        seq![
            InstrV::GetLocal((r - 4) as u32),
            InstrV::ConstI32(8),
            InstrV::ShrUI32,
            InstrV::ConstI32(0xFF),
            InstrV::AndI32,
        ]
    }
}

/// Push the 8-bit register `r` (AL..BL for 0..=3, AH..BH for 4..=7).
pub fn gen_get_reg8(ctx: &mut JitContext, r: u32)
    requires
        old(ctx).wf(),
        r < 8,
    ensures
        final(ctx).wf(),
        ctx_emits(*old(ctx), *final(ctx), code_get_reg8(r)),
        final(ctx).builder.next_local() == old(ctx).builder.next_local(),
{
    if r < 4 {
        let l = ctx.register_locals[r as usize];
        ctx.builder.get_local(&l);
        ctx.builder.const_i32(0xFF);
        ctx.builder.and_i32();
    proof {
            let ghost fs = old(ctx).builder.frames_v();
            lemma_push_onto_app(fs, seq![InstrV::GetLocal(r)], seq![InstrV::ConstI32(0xFF)]);
            assert(seq![InstrV::GetLocal(r)] + seq![InstrV::ConstI32(0xFF)] =~= seq![InstrV::GetLocal(r), InstrV::ConstI32(0xFF)]);
            lemma_push_onto_app(fs, seq![InstrV::GetLocal(r), InstrV::ConstI32(0xFF)], seq![InstrV::AndI32]);
            assert(seq![InstrV::GetLocal(r), InstrV::ConstI32(0xFF)] + seq![InstrV::AndI32] =~= seq![InstrV::GetLocal(r), InstrV::ConstI32(0xFF), InstrV::AndI32]);
            assert(seq![InstrV::GetLocal(r), InstrV::ConstI32(0xFF), InstrV::AndI32] =~= code_get_reg8(r));
    }
    } else {
        let l = ctx.register_locals[(r - 4) as usize];
        ctx.builder.get_local(&l);
        ctx.builder.const_i32(8);
        ctx.builder.shr_u_i32();
        ctx.builder.const_i32(0xFF);
        ctx.builder.and_i32();
    proof {
            let ghost fs = old(ctx).builder.frames_v();
            lemma_push_onto_app(fs, seq![InstrV::GetLocal((r - 4) as u32)], seq![InstrV::ConstI32(8)]);
            assert(seq![InstrV::GetLocal((r - 4) as u32)] + seq![InstrV::ConstI32(8)] =~= seq![InstrV::GetLocal((r - 4) as u32), InstrV::ConstI32(8)]);
            lemma_push_onto_app(fs, seq![InstrV::GetLocal((r - 4) as u32), InstrV::ConstI32(8)], seq![InstrV::ShrUI32]);
            assert(seq![InstrV::GetLocal((r - 4) as u32), InstrV::ConstI32(8)] + seq![InstrV::ShrUI32] =~= seq![InstrV::GetLocal((r - 4) as u32), InstrV::ConstI32(8), InstrV::ShrUI32]);
            lemma_push_onto_app(fs, seq![InstrV::GetLocal((r - 4) as u32), InstrV::ConstI32(8), InstrV::ShrUI32], seq![InstrV::ConstI32(0xFF)]);
            assert(seq![InstrV::GetLocal((r - 4) as u32), InstrV::ConstI32(8), InstrV::ShrUI32] + seq![InstrV::ConstI32(0xFF)] =~= seq![InstrV::GetLocal((r - 4) as u32), InstrV::ConstI32(8), InstrV::ShrUI32, InstrV::ConstI32(0xFF)]);
            lemma_push_onto_app(fs, seq![InstrV::GetLocal((r - 4) as u32), InstrV::ConstI32(8), InstrV::ShrUI32, InstrV::ConstI32(0xFF)], seq![InstrV::AndI32]);
            assert(seq![InstrV::GetLocal((r - 4) as u32), InstrV::ConstI32(8), InstrV::ShrUI32, InstrV::ConstI32(0xFF)] + seq![InstrV::AndI32] =~= seq![InstrV::GetLocal((r - 4) as u32), InstrV::ConstI32(8), InstrV::ShrUI32, InstrV::ConstI32(0xFF), InstrV::AndI32]);
            assert(seq![InstrV::GetLocal((r - 4) as u32), InstrV::ConstI32(8), InstrV::ShrUI32, InstrV::ConstI32(0xFF), InstrV::AndI32] =~= code_get_reg8(r));
    }
    }
}

/// Code of [`gen_get_reg16`].
pub open spec fn code_get_reg16(r: u32) -> Seq<InstrV> {
    seq![InstrV::GetLocal(r), InstrV::ConstI32(0xFFFF), InstrV::AndI32]
}

/// Push the 16-bit register `r`.
pub fn gen_get_reg16(ctx: &mut JitContext, r: u32)
    requires
        old(ctx).wf(),
        r < 8,
    ensures
        final(ctx).wf(),
        ctx_emits(*old(ctx), *final(ctx), code_get_reg16(r)),
        final(ctx).builder.next_local() == old(ctx).builder.next_local(),
{
    let l = ctx.register_locals[r as usize];
    ctx.builder.get_local(&l);
    ctx.builder.const_i32(0xFFFF);
    ctx.builder.and_i32();
    proof {
        let ghost fs = old(ctx).builder.frames_v();
        lemma_push_onto_app(fs, seq![InstrV::GetLocal(r)], seq![InstrV::ConstI32(0xFFFF)]);
        assert(seq![InstrV::GetLocal(r)] + seq![InstrV::ConstI32(0xFFFF)] =~= seq![InstrV::GetLocal(r), InstrV::ConstI32(0xFFFF)]);
        lemma_push_onto_app(fs, seq![InstrV::GetLocal(r), InstrV::ConstI32(0xFFFF)], seq![InstrV::AndI32]);
        assert(seq![InstrV::GetLocal(r), InstrV::ConstI32(0xFFFF)] + seq![InstrV::AndI32] =~= seq![InstrV::GetLocal(r), InstrV::ConstI32(0xFFFF), InstrV::AndI32]);
        assert(seq![InstrV::GetLocal(r), InstrV::ConstI32(0xFFFF), InstrV::AndI32] =~= code_get_reg16(r));
    }
}

/// Code of [`gen_get_reg32`].
pub open spec fn code_get_reg32(r: u32) -> Seq<InstrV> {
    seq![InstrV::GetLocal(r)]
}

/// Push the 32-bit register `r`.
pub fn gen_get_reg32(ctx: &mut JitContext, r: u32)
    requires
        old(ctx).wf(),
        r < 8,
    ensures
        final(ctx).wf(),
        ctx_emits(*old(ctx), *final(ctx), code_get_reg32(r)),
        final(ctx).builder.next_local() == old(ctx).builder.next_local(),
{
    let l = ctx.register_locals[r as usize];
    ctx.builder.get_local(&l);
}

/// Code of [`gen_set_reg8`]: merge the stack top into an 8-bit
/// subregister of the register cache.
pub open spec fn code_set_reg8(r: u32) -> Seq<InstrV> {
    if r < 4 {
        seq![
            InstrV::ConstI32(0xFF),
            InstrV::AndI32,
            InstrV::GetLocal(r),
            InstrV::ConstI32(0xFFFF_FF00),
            InstrV::AndI32,
            InstrV::OrI32,
            InstrV::SetLocal(r),
        ]
    } else {
        seq![
            InstrV::ConstI32(8),
            InstrV::ShlI32,
            InstrV::ConstI32(0xFF00),
            InstrV::AndI32,
            InstrV::GetLocal((r - 4) as u32),
            InstrV::ConstI32(0xFFFF_00FF),
            InstrV::AndI32,
            InstrV::OrI32,
            InstrV::SetLocal((r - 4) as u32),
        ]
    }
}

/// Pop the stack top into the 8-bit register `r`, preserving the other
/// bits of the underlying 32-bit register.
pub fn gen_set_reg8(ctx: &mut JitContext, r: u32)
    requires
        old(ctx).wf(),
        r < 8,
    ensures
        final(ctx).wf(),
        ctx_emits(*old(ctx), *final(ctx), code_set_reg8(r)),
        final(ctx).builder.next_local() == old(ctx).builder.next_local(),
{
    if r < 4 {
        // reg32[r] = stack_value & 0xFF | reg32[r] & ~0xFF
        let l = ctx.register_locals[r as usize];
        proof {
            assert(((!0xFFi32) as u32) == 0xFFFF_FF00u32) by (bit_vector);
        }
        ctx.builder.const_i32(0xFF);
        ctx.builder.and_i32();
        ctx.builder.get_local(&l);
        ctx.builder.const_i32(!0xFF);
        ctx.builder.and_i32();
        ctx.builder.or_i32();
        ctx.builder.set_local(&l);
    proof {
            let ghost fs = old(ctx).builder.frames_v();
            lemma_push_onto_app(fs, seq![InstrV::ConstI32(0xFF)], seq![InstrV::AndI32]);
            assert(seq![InstrV::ConstI32(0xFF)] + seq![InstrV::AndI32] =~= seq![InstrV::ConstI32(0xFF), InstrV::AndI32]);
            lemma_push_onto_app(fs, seq![InstrV::ConstI32(0xFF), InstrV::AndI32], seq![InstrV::GetLocal(r)]);
            assert(seq![InstrV::ConstI32(0xFF), InstrV::AndI32] + seq![InstrV::GetLocal(r)] =~= seq![InstrV::ConstI32(0xFF), InstrV::AndI32, InstrV::GetLocal(r)]);
            lemma_push_onto_app(fs, seq![InstrV::ConstI32(0xFF), InstrV::AndI32, InstrV::GetLocal(r)], seq![InstrV::ConstI32(0xFFFF_FF00)]);
            assert(seq![InstrV::ConstI32(0xFF), InstrV::AndI32, InstrV::GetLocal(r)] + seq![InstrV::ConstI32(0xFFFF_FF00)] =~= seq![InstrV::ConstI32(0xFF), InstrV::AndI32, InstrV::GetLocal(r), InstrV::ConstI32(0xFFFF_FF00)]);
            lemma_push_onto_app(fs, seq![InstrV::ConstI32(0xFF), InstrV::AndI32, InstrV::GetLocal(r), InstrV::ConstI32(0xFFFF_FF00)], seq![InstrV::AndI32]);
            assert(seq![InstrV::ConstI32(0xFF), InstrV::AndI32, InstrV::GetLocal(r), InstrV::ConstI32(0xFFFF_FF00)] + seq![InstrV::AndI32] =~= seq![InstrV::ConstI32(0xFF), InstrV::AndI32, InstrV::GetLocal(r), InstrV::ConstI32(0xFFFF_FF00), InstrV::AndI32]);
            lemma_push_onto_app(fs, seq![InstrV::ConstI32(0xFF), InstrV::AndI32, InstrV::GetLocal(r), InstrV::ConstI32(0xFFFF_FF00), InstrV::AndI32], seq![InstrV::OrI32]);
            assert(seq![InstrV::ConstI32(0xFF), InstrV::AndI32, InstrV::GetLocal(r), InstrV::ConstI32(0xFFFF_FF00), InstrV::AndI32] + seq![InstrV::OrI32] =~= seq![InstrV::ConstI32(0xFF), InstrV::AndI32, InstrV::GetLocal(r), InstrV::ConstI32(0xFFFF_FF00), InstrV::AndI32, InstrV::OrI32]);
            lemma_push_onto_app(fs, seq![InstrV::ConstI32(0xFF), InstrV::AndI32, InstrV::GetLocal(r), InstrV::ConstI32(0xFFFF_FF00), InstrV::AndI32, InstrV::OrI32], seq![InstrV::SetLocal(r)]);
            assert(seq![InstrV::ConstI32(0xFF), InstrV::AndI32, InstrV::GetLocal(r), InstrV::ConstI32(0xFFFF_FF00), InstrV::AndI32, InstrV::OrI32] + seq![InstrV::SetLocal(r)] =~= seq![InstrV::ConstI32(0xFF), InstrV::AndI32, InstrV::GetLocal(r), InstrV::ConstI32(0xFFFF_FF00), InstrV::AndI32, InstrV::OrI32, InstrV::SetLocal(r)]);
            assert(seq![InstrV::ConstI32(0xFF), InstrV::AndI32, InstrV::GetLocal(r), InstrV::ConstI32(0xFFFF_FF00), InstrV::AndI32, InstrV::OrI32, InstrV::SetLocal(r)] =~= code_set_reg8(r));
    }
    } else {
        // reg32[r - 4] = stack_value << 8 & 0xFF00 | reg32[r - 4] & ~0xFF00
        let l = ctx.register_locals[(r - 4) as usize];
        proof {
            assert(((!0xFF00i32) as u32) == 0xFFFF_00FFu32) by (bit_vector);
        }
        ctx.builder.const_i32(8);
        ctx.builder.shl_i32();
        ctx.builder.const_i32(0xFF00);
        ctx.builder.and_i32();
        ctx.builder.get_local(&l);
        ctx.builder.const_i32(!0xFF00);
        ctx.builder.and_i32();
        ctx.builder.or_i32();
        ctx.builder.set_local(&l);
    proof {
            let ghost fs = old(ctx).builder.frames_v();
            lemma_push_onto_app(fs, seq![InstrV::ConstI32(8)], seq![InstrV::ShlI32]);
            assert(seq![InstrV::ConstI32(8)] + seq![InstrV::ShlI32] =~= seq![InstrV::ConstI32(8), InstrV::ShlI32]);
            lemma_push_onto_app(fs, seq![InstrV::ConstI32(8), InstrV::ShlI32], seq![InstrV::ConstI32(0xFF00)]);
            assert(seq![InstrV::ConstI32(8), InstrV::ShlI32] + seq![InstrV::ConstI32(0xFF00)] =~= seq![InstrV::ConstI32(8), InstrV::ShlI32, InstrV::ConstI32(0xFF00)]);
            lemma_push_onto_app(fs, seq![InstrV::ConstI32(8), InstrV::ShlI32, InstrV::ConstI32(0xFF00)], seq![InstrV::AndI32]);
            assert(seq![InstrV::ConstI32(8), InstrV::ShlI32, InstrV::ConstI32(0xFF00)] + seq![InstrV::AndI32] =~= seq![InstrV::ConstI32(8), InstrV::ShlI32, InstrV::ConstI32(0xFF00), InstrV::AndI32]);
            lemma_push_onto_app(fs, seq![InstrV::ConstI32(8), InstrV::ShlI32, InstrV::ConstI32(0xFF00), InstrV::AndI32], seq![InstrV::GetLocal((r - 4) as u32)]);
            assert(seq![InstrV::ConstI32(8), InstrV::ShlI32, InstrV::ConstI32(0xFF00), InstrV::AndI32] + seq![InstrV::GetLocal((r - 4) as u32)] =~= seq![InstrV::ConstI32(8), InstrV::ShlI32, InstrV::ConstI32(0xFF00), InstrV::AndI32, InstrV::GetLocal((r - 4) as u32)]);
            lemma_push_onto_app(fs, seq![InstrV::ConstI32(8), InstrV::ShlI32, InstrV::ConstI32(0xFF00), InstrV::AndI32, InstrV::GetLocal((r - 4) as u32)], seq![InstrV::ConstI32(0xFFFF_00FF)]);
            assert(seq![InstrV::ConstI32(8), InstrV::ShlI32, InstrV::ConstI32(0xFF00), InstrV::AndI32, InstrV::GetLocal((r - 4) as u32)] + seq![InstrV::ConstI32(0xFFFF_00FF)] =~= seq![InstrV::ConstI32(8), InstrV::ShlI32, InstrV::ConstI32(0xFF00), InstrV::AndI32, InstrV::GetLocal((r - 4) as u32), InstrV::ConstI32(0xFFFF_00FF)]);
            lemma_push_onto_app(fs, seq![InstrV::ConstI32(8), InstrV::ShlI32, InstrV::ConstI32(0xFF00), InstrV::AndI32, InstrV::GetLocal((r - 4) as u32), InstrV::ConstI32(0xFFFF_00FF)], seq![InstrV::AndI32]);
            assert(seq![InstrV::ConstI32(8), InstrV::ShlI32, InstrV::ConstI32(0xFF00), InstrV::AndI32, InstrV::GetLocal((r - 4) as u32), InstrV::ConstI32(0xFFFF_00FF)] + seq![InstrV::AndI32] =~= seq![InstrV::ConstI32(8), InstrV::ShlI32, InstrV::ConstI32(0xFF00), InstrV::AndI32, InstrV::GetLocal((r - 4) as u32), InstrV::ConstI32(0xFFFF_00FF), InstrV::AndI32]);
            lemma_push_onto_app(fs, seq![InstrV::ConstI32(8), InstrV::ShlI32, InstrV::ConstI32(0xFF00), InstrV::AndI32, InstrV::GetLocal((r - 4) as u32), InstrV::ConstI32(0xFFFF_00FF), InstrV::AndI32], seq![InstrV::OrI32]);
            assert(seq![InstrV::ConstI32(8), InstrV::ShlI32, InstrV::ConstI32(0xFF00), InstrV::AndI32, InstrV::GetLocal((r - 4) as u32), InstrV::ConstI32(0xFFFF_00FF), InstrV::AndI32] + seq![InstrV::OrI32] =~= seq![InstrV::ConstI32(8), InstrV::ShlI32, InstrV::ConstI32(0xFF00), InstrV::AndI32, InstrV::GetLocal((r - 4) as u32), InstrV::ConstI32(0xFFFF_00FF), InstrV::AndI32, InstrV::OrI32]);
            lemma_push_onto_app(fs, seq![InstrV::ConstI32(8), InstrV::ShlI32, InstrV::ConstI32(0xFF00), InstrV::AndI32, InstrV::GetLocal((r - 4) as u32), InstrV::ConstI32(0xFFFF_00FF), InstrV::AndI32, InstrV::OrI32], seq![InstrV::SetLocal((r - 4) as u32)]);
            assert(seq![InstrV::ConstI32(8), InstrV::ShlI32, InstrV::ConstI32(0xFF00), InstrV::AndI32, InstrV::GetLocal((r - 4) as u32), InstrV::ConstI32(0xFFFF_00FF), InstrV::AndI32, InstrV::OrI32] + seq![InstrV::SetLocal((r - 4) as u32)] =~= seq![InstrV::ConstI32(8), InstrV::ShlI32, InstrV::ConstI32(0xFF00), InstrV::AndI32, InstrV::GetLocal((r - 4) as u32), InstrV::ConstI32(0xFFFF_00FF), InstrV::AndI32, InstrV::OrI32, InstrV::SetLocal((r - 4) as u32)]);
            assert(seq![InstrV::ConstI32(8), InstrV::ShlI32, InstrV::ConstI32(0xFF00), InstrV::AndI32, InstrV::GetLocal((r - 4) as u32), InstrV::ConstI32(0xFFFF_00FF), InstrV::AndI32, InstrV::OrI32, InstrV::SetLocal((r - 4) as u32)] =~= code_set_reg8(r));
    }
    }
}

/// Code of [`gen_set_reg16`].
pub open spec fn code_set_reg16(r: u32) -> Seq<InstrV> {
    seq![
        InstrV::ConstI32(0xFFFF),
        InstrV::AndI32,
        InstrV::GetLocal(r),
        InstrV::ConstI32(0xFFFF_0000),
        InstrV::AndI32,
        InstrV::OrI32,
        InstrV::SetLocal(r),
    ]
}

/// Pop the stack top into the 16-bit register `r`, preserving the high
/// half of the underlying 32-bit register.
pub fn gen_set_reg16(ctx: &mut JitContext, r: u32)
    requires
        old(ctx).wf(),
        r < 8,
    ensures
        final(ctx).wf(),
        ctx_emits(*old(ctx), *final(ctx), code_set_reg16(r)),
        final(ctx).builder.next_local() == old(ctx).builder.next_local(),
{
    // reg32[r] = v & 0xFFFF | reg32[r] & ~0xFFFF
    let l = ctx.register_locals[r as usize];
    proof {
        assert(((!0xFFFFi32) as u32) == 0xFFFF_0000u32) by (bit_vector);
    }
    ctx.builder.const_i32(0xFFFF);
    ctx.builder.and_i32();
    ctx.builder.get_local(&l);
    ctx.builder.const_i32(!0xFFFF);
    ctx.builder.and_i32();
    ctx.builder.or_i32();
    ctx.builder.set_local(&l);
    proof {
        let ghost fs = old(ctx).builder.frames_v();
        lemma_push_onto_app(fs, seq![InstrV::ConstI32(0xFFFF)], seq![InstrV::AndI32]);
        assert(seq![InstrV::ConstI32(0xFFFF)] + seq![InstrV::AndI32] =~= seq![InstrV::ConstI32(0xFFFF), InstrV::AndI32]);
        lemma_push_onto_app(fs, seq![InstrV::ConstI32(0xFFFF), InstrV::AndI32], seq![InstrV::GetLocal(r)]);
        assert(seq![InstrV::ConstI32(0xFFFF), InstrV::AndI32] + seq![InstrV::GetLocal(r)] =~= seq![InstrV::ConstI32(0xFFFF), InstrV::AndI32, InstrV::GetLocal(r)]);
        lemma_push_onto_app(fs, seq![InstrV::ConstI32(0xFFFF), InstrV::AndI32, InstrV::GetLocal(r)], seq![InstrV::ConstI32(0xFFFF_0000)]);
        assert(seq![InstrV::ConstI32(0xFFFF), InstrV::AndI32, InstrV::GetLocal(r)] + seq![InstrV::ConstI32(0xFFFF_0000)] =~= seq![InstrV::ConstI32(0xFFFF), InstrV::AndI32, InstrV::GetLocal(r), InstrV::ConstI32(0xFFFF_0000)]);
        lemma_push_onto_app(fs, seq![InstrV::ConstI32(0xFFFF), InstrV::AndI32, InstrV::GetLocal(r), InstrV::ConstI32(0xFFFF_0000)], seq![InstrV::AndI32]);
        assert(seq![InstrV::ConstI32(0xFFFF), InstrV::AndI32, InstrV::GetLocal(r), InstrV::ConstI32(0xFFFF_0000)] + seq![InstrV::AndI32] =~= seq![InstrV::ConstI32(0xFFFF), InstrV::AndI32, InstrV::GetLocal(r), InstrV::ConstI32(0xFFFF_0000), InstrV::AndI32]);
        lemma_push_onto_app(fs, seq![InstrV::ConstI32(0xFFFF), InstrV::AndI32, InstrV::GetLocal(r), InstrV::ConstI32(0xFFFF_0000), InstrV::AndI32], seq![InstrV::OrI32]);
        assert(seq![InstrV::ConstI32(0xFFFF), InstrV::AndI32, InstrV::GetLocal(r), InstrV::ConstI32(0xFFFF_0000), InstrV::AndI32] + seq![InstrV::OrI32] =~= seq![InstrV::ConstI32(0xFFFF), InstrV::AndI32, InstrV::GetLocal(r), InstrV::ConstI32(0xFFFF_0000), InstrV::AndI32, InstrV::OrI32]);
        lemma_push_onto_app(fs, seq![InstrV::ConstI32(0xFFFF), InstrV::AndI32, InstrV::GetLocal(r), InstrV::ConstI32(0xFFFF_0000), InstrV::AndI32, InstrV::OrI32], seq![InstrV::SetLocal(r)]);
        assert(seq![InstrV::ConstI32(0xFFFF), InstrV::AndI32, InstrV::GetLocal(r), InstrV::ConstI32(0xFFFF_0000), InstrV::AndI32, InstrV::OrI32] + seq![InstrV::SetLocal(r)] =~= seq![InstrV::ConstI32(0xFFFF), InstrV::AndI32, InstrV::GetLocal(r), InstrV::ConstI32(0xFFFF_0000), InstrV::AndI32, InstrV::OrI32, InstrV::SetLocal(r)]);
        assert(seq![InstrV::ConstI32(0xFFFF), InstrV::AndI32, InstrV::GetLocal(r), InstrV::ConstI32(0xFFFF_0000), InstrV::AndI32, InstrV::OrI32, InstrV::SetLocal(r)] =~= code_set_reg16(r));
    }
}

/// Code of [`gen_set_reg32`].
pub open spec fn code_set_reg32(r: u32) -> Seq<InstrV> {
    seq![InstrV::SetLocal(r)]
}

/// Pop the stack top into the 32-bit register `r`.
pub fn gen_set_reg32(ctx: &mut JitContext, r: u32)
    requires
        old(ctx).wf(),
        r < 8,
    ensures
        final(ctx).wf(),
        ctx_emits(*old(ctx), *final(ctx), code_set_reg32(r)),
        final(ctx).builder.next_local() == old(ctx).builder.next_local(),
{
    let l = ctx.register_locals[r as usize];
    ctx.builder.set_local(&l);
}

/// Code of [`gen_get_sreg`].
pub open spec fn code_get_sreg(r: u32) -> Seq<InstrV> {
    seq![InstrV::LoadU16At(sreg_off(r) as u32)]
}

/// Push the 16-bit selector of segment register `r`.
pub fn gen_get_sreg(ctx: &mut JitContext, r: u32)
    requires
        old(ctx).wf(),
        r < 6,
    ensures
        final(ctx).wf(),
        ctx_emits(*old(ctx), *final(ctx), code_get_sreg(r)),
        final(ctx).builder.next_local() == old(ctx).builder.next_local(),
{
    ctx.builder.load_aligned_u16(layout::get_sreg_offset(r));
}

/// Code of the sign-extension helpers: two shifts by `sh`.
pub open spec fn code_sign_extend(sh: u32) -> Seq<InstrV> {
    seq![
        InstrV::ConstI32(sh),
        InstrV::ShlI32,
        InstrV::ConstI32(sh),
        InstrV::ShrSI32,
    ]
}

/// Sign-extend a byte value on the stack to 32 bits.
pub fn sign_extend_i8(builder: &mut CodeBuilder)
    requires
        old(builder).wf(),
    ensures
        final(builder).wf(),
        emitted(*old(builder), *final(builder), code_sign_extend(24)),
        final(builder).next_local() == old(builder).next_local(),
        final(builder).free_list() == old(builder).free_list(),
        locals_same(*old(builder), *final(builder)),
        final(builder).depth() == old(builder).depth(),
{
    builder.const_i32(24);
    builder.shl_i32();
    builder.const_i32(24);
    builder.shr_s_i32();
    proof {
        let ghost fs = old(builder).frames_v();
        lemma_push_onto_app(fs, seq![InstrV::ConstI32(24)], seq![InstrV::ShlI32]);
        assert(seq![InstrV::ConstI32(24)] + seq![InstrV::ShlI32] =~= seq![InstrV::ConstI32(24), InstrV::ShlI32]);
        lemma_push_onto_app(fs, seq![InstrV::ConstI32(24), InstrV::ShlI32], seq![InstrV::ConstI32(24)]);
        assert(seq![InstrV::ConstI32(24), InstrV::ShlI32] + seq![InstrV::ConstI32(24)] =~= seq![InstrV::ConstI32(24), InstrV::ShlI32, InstrV::ConstI32(24)]);
        lemma_push_onto_app(fs, seq![InstrV::ConstI32(24), InstrV::ShlI32, InstrV::ConstI32(24)], seq![InstrV::ShrSI32]);
        assert(seq![InstrV::ConstI32(24), InstrV::ShlI32, InstrV::ConstI32(24)] + seq![InstrV::ShrSI32] =~= seq![InstrV::ConstI32(24), InstrV::ShlI32, InstrV::ConstI32(24), InstrV::ShrSI32]);
        assert(seq![InstrV::ConstI32(24), InstrV::ShlI32, InstrV::ConstI32(24), InstrV::ShrSI32] =~= code_sign_extend(24));
    }
}

/// Sign-extend a two-byte value on the stack to 32 bits.
pub fn sign_extend_i16(builder: &mut CodeBuilder)
    requires
        old(builder).wf(),
    ensures
        final(builder).wf(),
        emitted(*old(builder), *final(builder), code_sign_extend(16)),
        final(builder).next_local() == old(builder).next_local(),
        final(builder).free_list() == old(builder).free_list(),
        locals_same(*old(builder), *final(builder)),
        final(builder).depth() == old(builder).depth(),
{
    builder.const_i32(16);
    builder.shl_i32();
    builder.const_i32(16);
    builder.shr_s_i32();
    proof {
        let ghost fs = old(builder).frames_v();
        lemma_push_onto_app(fs, seq![InstrV::ConstI32(16)], seq![InstrV::ShlI32]);
        assert(seq![InstrV::ConstI32(16)] + seq![InstrV::ShlI32] =~= seq![InstrV::ConstI32(16), InstrV::ShlI32]);
        lemma_push_onto_app(fs, seq![InstrV::ConstI32(16), InstrV::ShlI32], seq![InstrV::ConstI32(16)]);
        assert(seq![InstrV::ConstI32(16), InstrV::ShlI32] + seq![InstrV::ConstI32(16)] =~= seq![InstrV::ConstI32(16), InstrV::ShlI32, InstrV::ConstI32(16)]);
        lemma_push_onto_app(fs, seq![InstrV::ConstI32(16), InstrV::ShlI32, InstrV::ConstI32(16)], seq![InstrV::ShrSI32]);
        assert(seq![InstrV::ConstI32(16), InstrV::ShlI32, InstrV::ConstI32(16)] + seq![InstrV::ShrSI32] =~= seq![InstrV::ConstI32(16), InstrV::ShlI32, InstrV::ConstI32(16), InstrV::ShrSI32]);
        assert(seq![InstrV::ConstI32(16), InstrV::ShlI32, InstrV::ConstI32(16), InstrV::ShrSI32] =~= code_sign_extend(16));
    }
}

/// Code of [`gen_get_real_eip`]: the instruction pointer minus the CS
/// base.
pub open spec fn code_get_real_eip() -> Seq<InstrV> {
    seq![
        InstrV::LoadI32At(layout::INSTRUCTION_POINTER),
        InstrV::LoadI32At(seg_off(arch::CS) as u32),
        InstrV::SubI32,
    ]
}

/// Push the CS-relative instruction pointer.
pub fn gen_get_real_eip(ctx: &mut JitContext)
    requires
        old(ctx).wf(),
    ensures
        final(ctx).wf(),
        ctx_emits(*old(ctx), *final(ctx), code_get_real_eip()),
        final(ctx).builder.next_local() == old(ctx).builder.next_local(),
{
    ctx.builder.load_aligned_i32(layout::INSTRUCTION_POINTER);
    ctx.builder.load_aligned_i32(layout::get_seg_offset(arch::CS));
    ctx.builder.sub_i32();
    proof {
        let ghost fs = old(ctx).builder.frames_v();
        lemma_push_onto_app(fs, seq![InstrV::LoadI32At(layout::INSTRUCTION_POINTER)], seq![InstrV::LoadI32At(seg_off(arch::CS) as u32)]);
        assert(seq![InstrV::LoadI32At(layout::INSTRUCTION_POINTER)] + seq![InstrV::LoadI32At(seg_off(arch::CS) as u32)] =~= seq![InstrV::LoadI32At(layout::INSTRUCTION_POINTER), InstrV::LoadI32At(seg_off(arch::CS) as u32)]);
        lemma_push_onto_app(fs, seq![InstrV::LoadI32At(layout::INSTRUCTION_POINTER), InstrV::LoadI32At(seg_off(arch::CS) as u32)], seq![InstrV::SubI32]);
        assert(seq![InstrV::LoadI32At(layout::INSTRUCTION_POINTER), InstrV::LoadI32At(seg_off(arch::CS) as u32)] + seq![InstrV::SubI32] =~= seq![InstrV::LoadI32At(layout::INSTRUCTION_POINTER), InstrV::LoadI32At(seg_off(arch::CS) as u32), InstrV::SubI32]);
        assert(seq![InstrV::LoadI32At(layout::INSTRUCTION_POINTER), InstrV::LoadI32At(seg_off(arch::CS) as u32), InstrV::SubI32] =~= code_get_real_eip());
    }
}

/// Code of [`gen_jmp_rel16`], with `x` naming the scratch local that
/// caches the CS base:
/// `instruction_pointer = cs_base + ((instruction_pointer - cs_base + rel16) & 0xFFFF)`.
pub open spec fn code_jmp_rel16(rel16: u16, x: u32) -> Seq<InstrV> {
    seq![
        InstrV::LoadI32At(seg_off(arch::CS) as u32),
        InstrV::SetLocal(x),
        InstrV::ConstI32(layout::INSTRUCTION_POINTER),
        InstrV::LoadI32At(layout::INSTRUCTION_POINTER),
        InstrV::GetLocal(x),
        InstrV::SubI32,
        InstrV::ConstI32(rel16 as u32),
        InstrV::AddI32,
        InstrV::ConstI32(0xFFFF),
        InstrV::AndI32,
        InstrV::GetLocal(x),
        InstrV::AddI32,
        InstrV::StoreI32(0),
    ]
}

/// Add `rel16` to the CS-relative instruction pointer, wrapping at 16
/// bits before rebasing on CS.
pub fn gen_jmp_rel16(builder: &mut CodeBuilder, rel16: u16)
    requires
        old(builder).wf(),
        old(builder).room(1),
    ensures
        final(builder).wf(),
        exists|x: u32|
            !old(builder).is_live(x) && emitted(
                *old(builder),
                *final(builder),
                #[trigger] code_jmp_rel16(rel16, x),
            ),
        locals_same(*old(builder), *final(builder)),
        final(builder).depth() == old(builder).depth(),
        final(builder).next_local() <= old(builder).next_local() + 1,
{
    let ghost b0 = *builder;
    builder.load_aligned_i32(layout::get_seg_offset(arch::CS));
    let local = builder.set_new_local();
    builder.const_i32(layout::INSTRUCTION_POINTER as i32);
    builder.load_aligned_i32(layout::INSTRUCTION_POINTER);
    builder.get_local(&local);
    builder.sub_i32();
    builder.const_i32(rel16 as i32);
    builder.add_i32();
    builder.const_i32(0xFFFF);
    builder.and_i32();
    builder.get_local(&local);
    builder.add_i32();
    builder.store_aligned_i32(0);
    let ghost x = local.idx;
    builder.free_local(local);
    proof {
        let ghost fs = old(builder).frames_v();
        lemma_push_onto_app(fs, seq![InstrV::LoadI32At(seg_off(arch::CS) as u32)], seq![InstrV::SetLocal(x)]);
        assert(seq![InstrV::LoadI32At(seg_off(arch::CS) as u32)] + seq![InstrV::SetLocal(x)] =~= seq![InstrV::LoadI32At(seg_off(arch::CS) as u32), InstrV::SetLocal(x)]);
        lemma_push_onto_app(fs, seq![InstrV::LoadI32At(seg_off(arch::CS) as u32), InstrV::SetLocal(x)], seq![InstrV::ConstI32(layout::INSTRUCTION_POINTER)]);
        assert(seq![InstrV::LoadI32At(seg_off(arch::CS) as u32), InstrV::SetLocal(x)] + seq![InstrV::ConstI32(layout::INSTRUCTION_POINTER)] =~= seq![InstrV::LoadI32At(seg_off(arch::CS) as u32), InstrV::SetLocal(x), InstrV::ConstI32(layout::INSTRUCTION_POINTER)]);
        lemma_push_onto_app(fs, seq![InstrV::LoadI32At(seg_off(arch::CS) as u32), InstrV::SetLocal(x), InstrV::ConstI32(layout::INSTRUCTION_POINTER)], seq![InstrV::LoadI32At(layout::INSTRUCTION_POINTER)]);
        assert(seq![InstrV::LoadI32At(seg_off(arch::CS) as u32), InstrV::SetLocal(x), InstrV::ConstI32(layout::INSTRUCTION_POINTER)] + seq![InstrV::LoadI32At(layout::INSTRUCTION_POINTER)] =~= seq![InstrV::LoadI32At(seg_off(arch::CS) as u32), InstrV::SetLocal(x), InstrV::ConstI32(layout::INSTRUCTION_POINTER), InstrV::LoadI32At(layout::INSTRUCTION_POINTER)]);
        lemma_push_onto_app(fs, seq![InstrV::LoadI32At(seg_off(arch::CS) as u32), InstrV::SetLocal(x), InstrV::ConstI32(layout::INSTRUCTION_POINTER), InstrV::LoadI32At(layout::INSTRUCTION_POINTER)], seq![InstrV::GetLocal(x)]);
        assert(seq![InstrV::LoadI32At(seg_off(arch::CS) as u32), InstrV::SetLocal(x), InstrV::ConstI32(layout::INSTRUCTION_POINTER), InstrV::LoadI32At(layout::INSTRUCTION_POINTER)] + seq![InstrV::GetLocal(x)] =~= seq![InstrV::LoadI32At(seg_off(arch::CS) as u32), InstrV::SetLocal(x), InstrV::ConstI32(layout::INSTRUCTION_POINTER), InstrV::LoadI32At(layout::INSTRUCTION_POINTER), InstrV::GetLocal(x)]);
        lemma_push_onto_app(fs, seq![InstrV::LoadI32At(seg_off(arch::CS) as u32), InstrV::SetLocal(x), InstrV::ConstI32(layout::INSTRUCTION_POINTER), InstrV::LoadI32At(layout::INSTRUCTION_POINTER), InstrV::GetLocal(x)], seq![InstrV::SubI32]);
        assert(seq![InstrV::LoadI32At(seg_off(arch::CS) as u32), InstrV::SetLocal(x), InstrV::ConstI32(layout::INSTRUCTION_POINTER), InstrV::LoadI32At(layout::INSTRUCTION_POINTER), InstrV::GetLocal(x)] + seq![InstrV::SubI32] =~= seq![InstrV::LoadI32At(seg_off(arch::CS) as u32), InstrV::SetLocal(x), InstrV::ConstI32(layout::INSTRUCTION_POINTER), InstrV::LoadI32At(layout::INSTRUCTION_POINTER), InstrV::GetLocal(x), InstrV::SubI32]);
        lemma_push_onto_app(fs, seq![InstrV::LoadI32At(seg_off(arch::CS) as u32), InstrV::SetLocal(x), InstrV::ConstI32(layout::INSTRUCTION_POINTER), InstrV::LoadI32At(layout::INSTRUCTION_POINTER), InstrV::GetLocal(x), InstrV::SubI32], seq![InstrV::ConstI32(rel16 as u32)]);
        assert(seq![InstrV::LoadI32At(seg_off(arch::CS) as u32), InstrV::SetLocal(x), InstrV::ConstI32(layout::INSTRUCTION_POINTER), InstrV::LoadI32At(layout::INSTRUCTION_POINTER), InstrV::GetLocal(x), InstrV::SubI32] + seq![InstrV::ConstI32(rel16 as u32)] =~= seq![InstrV::LoadI32At(seg_off(arch::CS) as u32), InstrV::SetLocal(x), InstrV::ConstI32(layout::INSTRUCTION_POINTER), InstrV::LoadI32At(layout::INSTRUCTION_POINTER), InstrV::GetLocal(x), InstrV::SubI32, InstrV::ConstI32(rel16 as u32)]);
        lemma_push_onto_app(fs, seq![InstrV::LoadI32At(seg_off(arch::CS) as u32), InstrV::SetLocal(x), InstrV::ConstI32(layout::INSTRUCTION_POINTER), InstrV::LoadI32At(layout::INSTRUCTION_POINTER), InstrV::GetLocal(x), InstrV::SubI32, InstrV::ConstI32(rel16 as u32)], seq![InstrV::AddI32]);
        assert(seq![InstrV::LoadI32At(seg_off(arch::CS) as u32), InstrV::SetLocal(x), InstrV::ConstI32(layout::INSTRUCTION_POINTER), InstrV::LoadI32At(layout::INSTRUCTION_POINTER), InstrV::GetLocal(x), InstrV::SubI32, InstrV::ConstI32(rel16 as u32)] + seq![InstrV::AddI32] =~= seq![InstrV::LoadI32At(seg_off(arch::CS) as u32), InstrV::SetLocal(x), InstrV::ConstI32(layout::INSTRUCTION_POINTER), InstrV::LoadI32At(layout::INSTRUCTION_POINTER), InstrV::GetLocal(x), InstrV::SubI32, InstrV::ConstI32(rel16 as u32), InstrV::AddI32]);
        lemma_push_onto_app(fs, seq![InstrV::LoadI32At(seg_off(arch::CS) as u32), InstrV::SetLocal(x), InstrV::ConstI32(layout::INSTRUCTION_POINTER), InstrV::LoadI32At(layout::INSTRUCTION_POINTER), InstrV::GetLocal(x), InstrV::SubI32, InstrV::ConstI32(rel16 as u32), InstrV::AddI32], seq![InstrV::ConstI32(0xFFFF)]);
        assert(seq![InstrV::LoadI32At(seg_off(arch::CS) as u32), InstrV::SetLocal(x), InstrV::ConstI32(layout::INSTRUCTION_POINTER), InstrV::LoadI32At(layout::INSTRUCTION_POINTER), InstrV::GetLocal(x), InstrV::SubI32, InstrV::ConstI32(rel16 as u32), InstrV::AddI32] + seq![InstrV::ConstI32(0xFFFF)] =~= seq![InstrV::LoadI32At(seg_off(arch::CS) as u32), InstrV::SetLocal(x), InstrV::ConstI32(layout::INSTRUCTION_POINTER), InstrV::LoadI32At(layout::INSTRUCTION_POINTER), InstrV::GetLocal(x), InstrV::SubI32, InstrV::ConstI32(rel16 as u32), InstrV::AddI32, InstrV::ConstI32(0xFFFF)]);
        lemma_push_onto_app(fs, seq![InstrV::LoadI32At(seg_off(arch::CS) as u32), InstrV::SetLocal(x), InstrV::ConstI32(layout::INSTRUCTION_POINTER), InstrV::LoadI32At(layout::INSTRUCTION_POINTER), InstrV::GetLocal(x), InstrV::SubI32, InstrV::ConstI32(rel16 as u32), InstrV::AddI32, InstrV::ConstI32(0xFFFF)], seq![InstrV::AndI32]);
        assert(seq![InstrV::LoadI32At(seg_off(arch::CS) as u32), InstrV::SetLocal(x), InstrV::ConstI32(layout::INSTRUCTION_POINTER), InstrV::LoadI32At(layout::INSTRUCTION_POINTER), InstrV::GetLocal(x), InstrV::SubI32, InstrV::ConstI32(rel16 as u32), InstrV::AddI32, InstrV::ConstI32(0xFFFF)] + seq![InstrV::AndI32] =~= seq![InstrV::LoadI32At(seg_off(arch::CS) as u32), InstrV::SetLocal(x), InstrV::ConstI32(layout::INSTRUCTION_POINTER), InstrV::LoadI32At(layout::INSTRUCTION_POINTER), InstrV::GetLocal(x), InstrV::SubI32, InstrV::ConstI32(rel16 as u32), InstrV::AddI32, InstrV::ConstI32(0xFFFF), InstrV::AndI32]);
        lemma_push_onto_app(fs, seq![InstrV::LoadI32At(seg_off(arch::CS) as u32), InstrV::SetLocal(x), InstrV::ConstI32(layout::INSTRUCTION_POINTER), InstrV::LoadI32At(layout::INSTRUCTION_POINTER), InstrV::GetLocal(x), InstrV::SubI32, InstrV::ConstI32(rel16 as u32), InstrV::AddI32, InstrV::ConstI32(0xFFFF), InstrV::AndI32], seq![InstrV::GetLocal(x)]);
        assert(seq![InstrV::LoadI32At(seg_off(arch::CS) as u32), InstrV::SetLocal(x), InstrV::ConstI32(layout::INSTRUCTION_POINTER), InstrV::LoadI32At(layout::INSTRUCTION_POINTER), InstrV::GetLocal(x), InstrV::SubI32, InstrV::ConstI32(rel16 as u32), InstrV::AddI32, InstrV::ConstI32(0xFFFF), InstrV::AndI32] + seq![InstrV::GetLocal(x)] =~= seq![InstrV::LoadI32At(seg_off(arch::CS) as u32), InstrV::SetLocal(x), InstrV::ConstI32(layout::INSTRUCTION_POINTER), InstrV::LoadI32At(layout::INSTRUCTION_POINTER), InstrV::GetLocal(x), InstrV::SubI32, InstrV::ConstI32(rel16 as u32), InstrV::AddI32, InstrV::ConstI32(0xFFFF), InstrV::AndI32, InstrV::GetLocal(x)]);
        lemma_push_onto_app(fs, seq![InstrV::LoadI32At(seg_off(arch::CS) as u32), InstrV::SetLocal(x), InstrV::ConstI32(layout::INSTRUCTION_POINTER), InstrV::LoadI32At(layout::INSTRUCTION_POINTER), InstrV::GetLocal(x), InstrV::SubI32, InstrV::ConstI32(rel16 as u32), InstrV::AddI32, InstrV::ConstI32(0xFFFF), InstrV::AndI32, InstrV::GetLocal(x)], seq![InstrV::AddI32]);
        assert(seq![InstrV::LoadI32At(seg_off(arch::CS) as u32), InstrV::SetLocal(x), InstrV::ConstI32(layout::INSTRUCTION_POINTER), InstrV::LoadI32At(layout::INSTRUCTION_POINTER), InstrV::GetLocal(x), InstrV::SubI32, InstrV::ConstI32(rel16 as u32), InstrV::AddI32, InstrV::ConstI32(0xFFFF), InstrV::AndI32, InstrV::GetLocal(x)] + seq![InstrV::AddI32] =~= seq![InstrV::LoadI32At(seg_off(arch::CS) as u32), InstrV::SetLocal(x), InstrV::ConstI32(layout::INSTRUCTION_POINTER), InstrV::LoadI32At(layout::INSTRUCTION_POINTER), InstrV::GetLocal(x), InstrV::SubI32, InstrV::ConstI32(rel16 as u32), InstrV::AddI32, InstrV::ConstI32(0xFFFF), InstrV::AndI32, InstrV::GetLocal(x), InstrV::AddI32]);
        lemma_push_onto_app(fs, seq![InstrV::LoadI32At(seg_off(arch::CS) as u32), InstrV::SetLocal(x), InstrV::ConstI32(layout::INSTRUCTION_POINTER), InstrV::LoadI32At(layout::INSTRUCTION_POINTER), InstrV::GetLocal(x), InstrV::SubI32, InstrV::ConstI32(rel16 as u32), InstrV::AddI32, InstrV::ConstI32(0xFFFF), InstrV::AndI32, InstrV::GetLocal(x), InstrV::AddI32], seq![InstrV::StoreI32(0)]);
        assert(seq![InstrV::LoadI32At(seg_off(arch::CS) as u32), InstrV::SetLocal(x), InstrV::ConstI32(layout::INSTRUCTION_POINTER), InstrV::LoadI32At(layout::INSTRUCTION_POINTER), InstrV::GetLocal(x), InstrV::SubI32, InstrV::ConstI32(rel16 as u32), InstrV::AddI32, InstrV::ConstI32(0xFFFF), InstrV::AndI32, InstrV::GetLocal(x), InstrV::AddI32] + seq![InstrV::StoreI32(0)] =~= seq![InstrV::LoadI32At(seg_off(arch::CS) as u32), InstrV::SetLocal(x), InstrV::ConstI32(layout::INSTRUCTION_POINTER), InstrV::LoadI32At(layout::INSTRUCTION_POINTER), InstrV::GetLocal(x), InstrV::SubI32, InstrV::ConstI32(rel16 as u32), InstrV::AddI32, InstrV::ConstI32(0xFFFF), InstrV::AndI32, InstrV::GetLocal(x), InstrV::AddI32, InstrV::StoreI32(0)]);
        assert(seq![InstrV::LoadI32At(seg_off(arch::CS) as u32), InstrV::SetLocal(x), InstrV::ConstI32(layout::INSTRUCTION_POINTER), InstrV::LoadI32At(layout::INSTRUCTION_POINTER), InstrV::GetLocal(x), InstrV::SubI32, InstrV::ConstI32(rel16 as u32), InstrV::AddI32, InstrV::ConstI32(0xFFFF), InstrV::AndI32, InstrV::GetLocal(x), InstrV::AddI32, InstrV::StoreI32(0)] =~= code_jmp_rel16(rel16, x));        assert(!b0.is_live(x) && emitted(b0, *builder, code_jmp_rel16(rel16, x)));
    }
}

/// Code of [`gen_set_reg8_r`]: `reg8[dest] = reg8[src]`.
pub open spec fn code_set_reg8_r(dest: u32, src: u32) -> Seq<InstrV> {
    code_get_reg8(src) + code_set_reg8(dest)
}

/// Copy 8-bit register `src` into 8-bit register `dest`.
pub fn gen_set_reg8_r(ctx: &mut JitContext, dest: u32, src: u32)
    requires
        old(ctx).wf(),
        dest < 8,
        src < 8,
    ensures
        final(ctx).wf(),
        ctx_emits(*old(ctx), *final(ctx), code_set_reg8_r(dest, src)),
        final(ctx).builder.next_local() == old(ctx).builder.next_local(),
{
    gen_get_reg8(ctx, src);
    gen_set_reg8(ctx, dest);
    proof {
        lemma_push_onto_app(old(ctx).builder.frames_v(), code_get_reg8(src), code_set_reg8(dest));
    }
}

/// Code of [`gen_set_reg16_r`]: `reg16[dest] = reg16[src]`.
pub open spec fn code_set_reg16_r(dest: u32, src: u32) -> Seq<InstrV> {
    code_get_reg16(src) + code_set_reg16(dest)
}

/// Copy 16-bit register `src` into 16-bit register `dest`.
pub fn gen_set_reg16_r(ctx: &mut JitContext, dest: u32, src: u32)
    requires
        old(ctx).wf(),
        dest < 8,
        src < 8,
    ensures
        final(ctx).wf(),
        ctx_emits(*old(ctx), *final(ctx), code_set_reg16_r(dest, src)),
        final(ctx).builder.next_local() == old(ctx).builder.next_local(),
{
    gen_get_reg16(ctx, src);
    gen_set_reg16(ctx, dest);
    proof {
        lemma_push_onto_app(old(ctx).builder.frames_v(), code_get_reg16(src), code_set_reg16(dest));
    }
}

/// Code of [`gen_set_reg32_r`]: `reg32[dest] = reg32[src]`.
pub open spec fn code_set_reg32_r(dest: u32, src: u32) -> Seq<InstrV> {
    code_get_reg32(src) + code_set_reg32(dest)
}

/// Copy 32-bit register `src` into 32-bit register `dest`.
pub fn gen_set_reg32_r(ctx: &mut JitContext, dest: u32, src: u32)
    requires
        old(ctx).wf(),
        dest < 8,
        src < 8,
    ensures
        final(ctx).wf(),
        ctx_emits(*old(ctx), *final(ctx), code_set_reg32_r(dest, src)),
        final(ctx).builder.next_local() == old(ctx).builder.next_local(),
{
    gen_get_reg32(ctx, src);
    gen_set_reg32(ctx, dest);
    proof {
        lemma_push_onto_app(old(ctx).builder.frames_v(), code_get_reg32(src), code_set_reg32(dest));
    }
}

// Typed function-call emitters: one variant for each helper
// signature the emitted code needs.  Each requires the named helper to
// have exactly the signature the variant encodes, and emits the call
// (with any literal arguments pushed first).

/// Call the no-argument, no-result helper `f`.
pub fn gen_fn0_const(builder: &mut CodeBuilder, f: HostFn)
    requires
        old(builder).wf(),
        arg_kinds(f).len() == 0,
        ret_kind(f) is None,
    ensures
        final(builder).wf(),
        emitted(*old(builder), *final(builder), seq![InstrV::Call(f)]),
        final(builder).next_local() == old(builder).next_local(),
        final(builder).free_list() == old(builder).free_list(),
        locals_same(*old(builder), *final(builder)),
        final(builder).depth() == old(builder).depth(),
{
    builder.call_fn(f);
}

/// Call the no-argument helper `f` returning an i32.
pub fn gen_fn0_const_ret(builder: &mut CodeBuilder, f: HostFn)
    requires
        old(builder).wf(),
        arg_kinds(f).len() == 0,
        ret_kind(f) == Some(ValKind::K32),
    ensures
        final(builder).wf(),
        emitted(*old(builder), *final(builder), seq![InstrV::Call(f)]),
        final(builder).next_local() == old(builder).next_local(),
        final(builder).free_list() == old(builder).free_list(),
        locals_same(*old(builder), *final(builder)),
        final(builder).depth() == old(builder).depth(),
{
    builder.call_fn(f);
}

/// Call helper `f` with the literal argument `arg0`.
pub fn gen_fn1_const(builder: &mut CodeBuilder, f: HostFn, arg0: u32)
    requires
        old(builder).wf(),
        arg_kinds(f) == seq![ValKind::K32],
        ret_kind(f) is None,
    ensures
        final(builder).wf(),
        emitted(*old(builder), *final(builder), seq![InstrV::ConstI32(arg0), InstrV::Call(f)]),
        final(builder).next_local() == old(builder).next_local(),
        final(builder).free_list() == old(builder).free_list(),
        locals_same(*old(builder), *final(builder)),
        final(builder).depth() == old(builder).depth(),
{
    proof {
        lemma_cast_roundtrip_u32(arg0);
    }
    builder.const_i32(arg0 as i32);
    builder.call_fn(f);
    proof {
        let ghost fs = old(builder).frames_v();
        lemma_push_onto_app(fs, seq![InstrV::ConstI32(arg0)], seq![InstrV::Call(f)]);
        assert(seq![InstrV::ConstI32(arg0)] + seq![InstrV::Call(f)] =~= seq![InstrV::ConstI32(arg0), InstrV::Call(f)]);
    }
}

/// Call helper `f` with the literal arguments `arg0` and `arg1`.
pub fn gen_fn2_const(builder: &mut CodeBuilder, f: HostFn, arg0: u32, arg1: u32)
    requires
        old(builder).wf(),
        arg_kinds(f) == seq![ValKind::K32, ValKind::K32],
        ret_kind(f) is None,
    ensures
        final(builder).wf(),
        emitted(*old(builder), *final(builder), seq![InstrV::ConstI32(arg0), InstrV::ConstI32(arg1), InstrV::Call(f)]),
        final(builder).next_local() == old(builder).next_local(),
        final(builder).free_list() == old(builder).free_list(),
        locals_same(*old(builder), *final(builder)),
        final(builder).depth() == old(builder).depth(),
{
    proof {
        lemma_cast_roundtrip_u32(arg0);
        lemma_cast_roundtrip_u32(arg1);
    }
    builder.const_i32(arg0 as i32);
    builder.const_i32(arg1 as i32);
    builder.call_fn(f);
    proof {
        let ghost fs = old(builder).frames_v();
        lemma_push_onto_app(fs, seq![InstrV::ConstI32(arg0)], seq![InstrV::ConstI32(arg1)]);
        assert(seq![InstrV::ConstI32(arg0)] + seq![InstrV::ConstI32(arg1)] =~= seq![InstrV::ConstI32(arg0), InstrV::ConstI32(arg1)]);
        lemma_push_onto_app(fs, seq![InstrV::ConstI32(arg0), InstrV::ConstI32(arg1)], seq![InstrV::Call(f)]);
        assert(seq![InstrV::ConstI32(arg0), InstrV::ConstI32(arg1)] + seq![InstrV::Call(f)] =~= seq![InstrV::ConstI32(arg0), InstrV::ConstI32(arg1), InstrV::Call(f)]);
    }
}

/// Call helper `f` with three literal arguments.
pub fn gen_fn3_const(builder: &mut CodeBuilder, f: HostFn, arg0: u32, arg1: u32, arg2: u32)
    requires
        old(builder).wf(),
        arg_kinds(f) == seq![ValKind::K32, ValKind::K32, ValKind::K32],
        ret_kind(f) is None,
    ensures
        final(builder).wf(),
        emitted(*old(builder), *final(builder), seq![InstrV::ConstI32(arg0), InstrV::ConstI32(arg1), InstrV::ConstI32(arg2), InstrV::Call(f)]),
        final(builder).next_local() == old(builder).next_local(),
        final(builder).free_list() == old(builder).free_list(),
        locals_same(*old(builder), *final(builder)),
        final(builder).depth() == old(builder).depth(),
{
    proof {
        lemma_cast_roundtrip_u32(arg0);
        lemma_cast_roundtrip_u32(arg1);
        lemma_cast_roundtrip_u32(arg2);
    }
    builder.const_i32(arg0 as i32);
    builder.const_i32(arg1 as i32);
    builder.const_i32(arg2 as i32);
    builder.call_fn(f);
    proof {
        let ghost fs = old(builder).frames_v();
        lemma_push_onto_app(fs, seq![InstrV::ConstI32(arg0)], seq![InstrV::ConstI32(arg1)]);
        assert(seq![InstrV::ConstI32(arg0)] + seq![InstrV::ConstI32(arg1)] =~= seq![InstrV::ConstI32(arg0), InstrV::ConstI32(arg1)]);
        lemma_push_onto_app(fs, seq![InstrV::ConstI32(arg0), InstrV::ConstI32(arg1)], seq![InstrV::ConstI32(arg2)]);
        assert(seq![InstrV::ConstI32(arg0), InstrV::ConstI32(arg1)] + seq![InstrV::ConstI32(arg2)] =~= seq![InstrV::ConstI32(arg0), InstrV::ConstI32(arg1), InstrV::ConstI32(arg2)]);
        lemma_push_onto_app(fs, seq![InstrV::ConstI32(arg0), InstrV::ConstI32(arg1), InstrV::ConstI32(arg2)], seq![InstrV::Call(f)]);
        assert(seq![InstrV::ConstI32(arg0), InstrV::ConstI32(arg1), InstrV::ConstI32(arg2)] + seq![InstrV::Call(f)] =~= seq![InstrV::ConstI32(arg0), InstrV::ConstI32(arg1), InstrV::ConstI32(arg2), InstrV::Call(f)]);
    }
}

/// Call helper `f` on one i32 argument already on the stack.
pub fn gen_call_fn1(builder: &mut CodeBuilder, f: HostFn)
    requires
        old(builder).wf(),
        arg_kinds(f) == seq![ValKind::K32],
        ret_kind(f) is None,
    ensures
        final(builder).wf(),
        emitted(*old(builder), *final(builder), seq![InstrV::Call(f)]),
        final(builder).next_local() == old(builder).next_local(),
        final(builder).free_list() == old(builder).free_list(),
        locals_same(*old(builder), *final(builder)),
        final(builder).depth() == old(builder).depth(),
{
    builder.call_fn(f);
}

/// Call helper `f` on one i32 argument already on the stack; it returns an i32.
pub fn gen_call_fn1_ret(builder: &mut CodeBuilder, f: HostFn)
    requires
        old(builder).wf(),
        arg_kinds(f) == seq![ValKind::K32],
        ret_kind(f) == Some(ValKind::K32),
    ensures
        final(builder).wf(),
        emitted(*old(builder), *final(builder), seq![InstrV::Call(f)]),
        final(builder).next_local() == old(builder).next_local(),
        final(builder).free_list() == old(builder).free_list(),
        locals_same(*old(builder), *final(builder)),
        final(builder).depth() == old(builder).depth(),
{
    builder.call_fn(f);
}

/// Call helper `f` on one i32 argument already on the stack; it returns an f64.
pub fn gen_call_fn1_ret_f64(builder: &mut CodeBuilder, f: HostFn)
    requires
        old(builder).wf(),
        arg_kinds(f) == seq![ValKind::K32],
        ret_kind(f) == Some(ValKind::KF64),
    ensures
        final(builder).wf(),
        emitted(*old(builder), *final(builder), seq![InstrV::Call(f)]),
        final(builder).next_local() == old(builder).next_local(),
        final(builder).free_list() == old(builder).free_list(),
        locals_same(*old(builder), *final(builder)),
        final(builder).depth() == old(builder).depth(),
{
    builder.call_fn(f);
}

/// Call helper `f` on one f64 argument already on the stack; it returns an i32.
pub fn gen_call_fn1_f64_ret_i32(builder: &mut CodeBuilder, f: HostFn)
    requires
        old(builder).wf(),
        arg_kinds(f) == seq![ValKind::KF64],
        ret_kind(f) == Some(ValKind::K32),
    ensures
        final(builder).wf(),
        emitted(*old(builder), *final(builder), seq![InstrV::Call(f)]),
        final(builder).next_local() == old(builder).next_local(),
        final(builder).free_list() == old(builder).free_list(),
        locals_same(*old(builder), *final(builder)),
        final(builder).depth() == old(builder).depth(),
{
    builder.call_fn(f);
}

/// Call helper `f` on one f64 argument already on the stack; it returns an i64.
pub fn gen_call_fn1_f64_ret_i64(builder: &mut CodeBuilder, f: HostFn)
    requires
        old(builder).wf(),
        arg_kinds(f) == seq![ValKind::KF64],
        ret_kind(f) == Some(ValKind::K64),
    ensures
        final(builder).wf(),
        emitted(*old(builder), *final(builder), seq![InstrV::Call(f)]),
        final(builder).next_local() == old(builder).next_local(),
        final(builder).free_list() == old(builder).free_list(),
        locals_same(*old(builder), *final(builder)),
        final(builder).depth() == old(builder).depth(),
{
    builder.call_fn(f);
}

/// Call helper `f` on one i32 argument already on the stack; it returns an i64.
pub fn gen_call_fn1_ret_i64(builder: &mut CodeBuilder, f: HostFn)
    requires
        old(builder).wf(),
        arg_kinds(f) == seq![ValKind::K32],
        ret_kind(f) == Some(ValKind::K64),
    ensures
        final(builder).wf(),
        emitted(*old(builder), *final(builder), seq![InstrV::Call(f)]),
        final(builder).next_local() == old(builder).next_local(),
        final(builder).free_list() == old(builder).free_list(),
        locals_same(*old(builder), *final(builder)),
        final(builder).depth() == old(builder).depth(),
{
    builder.call_fn(f);
}

/// Call helper `f` on one f64 argument already on the stack.
pub fn gen_call_fn1_f64(builder: &mut CodeBuilder, f: HostFn)
    requires
        old(builder).wf(),
        arg_kinds(f) == seq![ValKind::KF64],
        ret_kind(f) is None,
    ensures
        final(builder).wf(),
        emitted(*old(builder), *final(builder), seq![InstrV::Call(f)]),
        final(builder).next_local() == old(builder).next_local(),
        final(builder).free_list() == old(builder).free_list(),
        locals_same(*old(builder), *final(builder)),
        final(builder).depth() == old(builder).depth(),
{
    builder.call_fn(f);
}

/// Call helper `f` on two i32 arguments already on the stack.
pub fn gen_call_fn2(builder: &mut CodeBuilder, f: HostFn)
    requires
        old(builder).wf(),
        arg_kinds(f) == seq![ValKind::K32, ValKind::K32],
        ret_kind(f) is None,
    ensures
        final(builder).wf(),
        emitted(*old(builder), *final(builder), seq![InstrV::Call(f)]),
        final(builder).next_local() == old(builder).next_local(),
        final(builder).free_list() == old(builder).free_list(),
        locals_same(*old(builder), *final(builder)),
        final(builder).depth() == old(builder).depth(),
{
    builder.call_fn(f);
}

/// Call helper `f` on an i32 and an f64 already on the stack.
pub fn gen_call_fn2_i32_f64(builder: &mut CodeBuilder, f: HostFn)
    requires
        old(builder).wf(),
        arg_kinds(f) == seq![ValKind::K32, ValKind::KF64],
        ret_kind(f) is None,
    ensures
        final(builder).wf(),
        emitted(*old(builder), *final(builder), seq![InstrV::Call(f)]),
        final(builder).next_local() == old(builder).next_local(),
        final(builder).free_list() == old(builder).free_list(),
        locals_same(*old(builder), *final(builder)),
        final(builder).depth() == old(builder).depth(),
{
    builder.call_fn(f);
}

/// Call helper `f` on an i32 and an i64 already on the stack.
pub fn gen_call_fn2_i32_i64(builder: &mut CodeBuilder, f: HostFn)
    requires
        old(builder).wf(),
        arg_kinds(f) == seq![ValKind::K32, ValKind::K64],
        ret_kind(f) is None,
    ensures
        final(builder).wf(),
        emitted(*old(builder), *final(builder), seq![InstrV::Call(f)]),
        final(builder).next_local() == old(builder).next_local(),
        final(builder).free_list() == old(builder).free_list(),
        locals_same(*old(builder), *final(builder)),
        final(builder).depth() == old(builder).depth(),
{
    builder.call_fn(f);
}

/// Call helper `f` on two i32 arguments already on the stack; it returns an i32.
pub fn gen_call_fn2_ret(builder: &mut CodeBuilder, f: HostFn)
    requires
        old(builder).wf(),
        arg_kinds(f) == seq![ValKind::K32, ValKind::K32],
        ret_kind(f) == Some(ValKind::K32),
    ensures
        final(builder).wf(),
        emitted(*old(builder), *final(builder), seq![InstrV::Call(f)]),
        final(builder).next_local() == old(builder).next_local(),
        final(builder).free_list() == old(builder).free_list(),
        locals_same(*old(builder), *final(builder)),
        final(builder).depth() == old(builder).depth(),
{
    builder.call_fn(f);
}

/// Call helper `f` on three i32 arguments already on the stack.
pub fn gen_call_fn3(builder: &mut CodeBuilder, f: HostFn)
    requires
        old(builder).wf(),
        arg_kinds(f) == seq![ValKind::K32, ValKind::K32, ValKind::K32],
        ret_kind(f) is None,
    ensures
        final(builder).wf(),
        emitted(*old(builder), *final(builder), seq![InstrV::Call(f)]),
        final(builder).next_local() == old(builder).next_local(),
        final(builder).free_list() == old(builder).free_list(),
        locals_same(*old(builder), *final(builder)),
        final(builder).depth() == old(builder).depth(),
{
    builder.call_fn(f);
}

/// Call helper `f` on an i32 and two i64 values already on the stack.
pub fn gen_call_fn3_i32_i64_i64(builder: &mut CodeBuilder, f: HostFn)
    requires
        old(builder).wf(),
        arg_kinds(f) == seq![ValKind::K32, ValKind::K64, ValKind::K64],
        ret_kind(f) is None,
    ensures
        final(builder).wf(),
        emitted(*old(builder), *final(builder), seq![InstrV::Call(f)]),
        final(builder).next_local() == old(builder).next_local(),
        final(builder).free_list() == old(builder).free_list(),
        locals_same(*old(builder), *final(builder)),
        final(builder).depth() == old(builder).depth(),
{
    builder.call_fn(f);
}

/// Call helper `f` on three i32 arguments already on the stack; it returns an i32.
pub fn gen_call_fn3_ret(builder: &mut CodeBuilder, f: HostFn)
    requires
        old(builder).wf(),
        arg_kinds(f) == seq![ValKind::K32, ValKind::K32, ValKind::K32],
        ret_kind(f) == Some(ValKind::K32),
    ensures
        final(builder).wf(),
        emitted(*old(builder), *final(builder), seq![InstrV::Call(f)]),
        final(builder).next_local() == old(builder).next_local(),
        final(builder).free_list() == old(builder).free_list(),
        locals_same(*old(builder), *final(builder)),
        final(builder).depth() == old(builder).depth(),
{
    builder.call_fn(f);
}

/// Call helper `f` on a resolved operand address already on the stack.
pub fn gen_modrm_fn0(builder: &mut CodeBuilder, f: HostFn)
    requires
        old(builder).wf(),
        arg_kinds(f) == seq![ValKind::K32],
        ret_kind(f) is None,
    ensures
        final(builder).wf(),
        emitted(*old(builder), *final(builder), seq![InstrV::Call(f)]),
        final(builder).next_local() == old(builder).next_local(),
        final(builder).free_list() == old(builder).free_list(),
        locals_same(*old(builder), *final(builder)),
        final(builder).depth() == old(builder).depth(),
{
    builder.call_fn(f);
}

/// Call helper `f` on a resolved operand address already on the stack, with one literal argument.
pub fn gen_modrm_fn1(builder: &mut CodeBuilder, f: HostFn, arg0: u32)
    requires
        old(builder).wf(),
        arg_kinds(f) == seq![ValKind::K32, ValKind::K32],
        ret_kind(f) is None,
    ensures
        final(builder).wf(),
        emitted(*old(builder), *final(builder), seq![InstrV::ConstI32(arg0), InstrV::Call(f)]),
        final(builder).next_local() == old(builder).next_local(),
        final(builder).free_list() == old(builder).free_list(),
        locals_same(*old(builder), *final(builder)),
        final(builder).depth() == old(builder).depth(),
{
    proof {
        lemma_cast_roundtrip_u32(arg0);
    }
    builder.const_i32(arg0 as i32);
    builder.call_fn(f);
    proof {
        let ghost fs = old(builder).frames_v();
        lemma_push_onto_app(fs, seq![InstrV::ConstI32(arg0)], seq![InstrV::Call(f)]);
        assert(seq![InstrV::ConstI32(arg0)] + seq![InstrV::Call(f)] =~= seq![InstrV::ConstI32(arg0), InstrV::Call(f)]);
    }
}

/// Call helper `f` on a resolved operand address already on the stack, with two literal arguments.
pub fn gen_modrm_fn2(builder: &mut CodeBuilder, f: HostFn, arg0: u32, arg1: u32)
    requires
        old(builder).wf(),
        arg_kinds(f) == seq![ValKind::K32, ValKind::K32, ValKind::K32],
        ret_kind(f) is None,
    ensures
        final(builder).wf(),
        emitted(*old(builder), *final(builder), seq![InstrV::ConstI32(arg0), InstrV::ConstI32(arg1), InstrV::Call(f)]),
        final(builder).next_local() == old(builder).next_local(),
        final(builder).free_list() == old(builder).free_list(),
        locals_same(*old(builder), *final(builder)),
        final(builder).depth() == old(builder).depth(),
{
    proof {
        lemma_cast_roundtrip_u32(arg0);
        lemma_cast_roundtrip_u32(arg1);
    }
    builder.const_i32(arg0 as i32);
    builder.const_i32(arg1 as i32);
    builder.call_fn(f);
    proof {
        let ghost fs = old(builder).frames_v();
        lemma_push_onto_app(fs, seq![InstrV::ConstI32(arg0)], seq![InstrV::ConstI32(arg1)]);
        assert(seq![InstrV::ConstI32(arg0)] + seq![InstrV::ConstI32(arg1)] =~= seq![InstrV::ConstI32(arg0), InstrV::ConstI32(arg1)]);
        lemma_push_onto_app(fs, seq![InstrV::ConstI32(arg0), InstrV::ConstI32(arg1)], seq![InstrV::Call(f)]);
        assert(seq![InstrV::ConstI32(arg0), InstrV::ConstI32(arg1)] + seq![InstrV::Call(f)] =~= seq![InstrV::ConstI32(arg0), InstrV::ConstI32(arg1), InstrV::Call(f)]);
    }
}

} // verus!
