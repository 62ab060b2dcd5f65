//! Lazy-flag emitters.
//!
//! Flags are computed lazily: a flag-writing instruction records its
//! operands and result in the `LAST_*` cells and sets the corresponding
//! bits in `FLAGS_CHANGED`.  Reading a flag tests the `FLAGS_CHANGED`
//! bit: when set, the flag is recomputed from the recorded state by a
//! branchless formula; otherwise the architectural bit in `FLAGS` is
//! returned.  Six of the sixteen conditional predicates are materialized
//! inline from CF and ZF; the other ten call named helper functions.
//! The LOOP family decrements CX or ECX under the address-size attribute
//! and composes with ZF.

use vstd::prelude::*;
use crate::arch;
use crate::layout;
use crate::builder::{CodeBuilder, HostLocal, emitted, locals_same, lemma_push_onto_app};
use crate::ctx::{JitContext, ctx_emits};
use crate::isa::{BlockKind, HostFn, InstrV, lemma_cast_roundtrip_u32};
use crate::emit_basic::{
    code_get_reg16, code_get_reg32, code_set_reg16, code_set_reg32, gen_get_reg16, gen_get_reg32,
    gen_set_reg16, gen_set_reg32, gen_fn0_const_ret,
};

verus! {

/// Code of [`gen_getzf`], with `x` naming the scratch local caching
/// `LAST_RESULT`.  When `FLAGS_CHANGED` has the zero bit, ZF is
/// recomputed as `((~r) & (r - 1)) >> LAST_OP_SIZE & 1` (the sign bit of
/// the op-width-sized value of `(~r) & (r - 1)`, a branchless "all bits
/// at and below the width are zero" test); otherwise the architectural
/// bit is read from `FLAGS`.
pub open spec fn code_getzf(x: u32) -> Seq<InstrV> {
    seq![
        InstrV::LoadI32At(layout::FLAGS_CHANGED),
        InstrV::ConstI32(arch::FLAG_ZERO),
        InstrV::AndI32,
        InstrV::IfBlock {
            kind: BlockKind::ResI32,
            then_code: seq![
                InstrV::LoadI32At(layout::LAST_RESULT),
                InstrV::TeeLocal(x),
                InstrV::ConstI32(0xFFFF_FFFF),
                InstrV::XorI32,
                InstrV::GetLocal(x),
                InstrV::ConstI32(1),
                InstrV::SubI32,
                InstrV::AndI32,
                InstrV::LoadI32At(layout::LAST_OP_SIZE),
                InstrV::ShrUI32,
                InstrV::ConstI32(1),
                InstrV::AndI32,
            ],
            else_code: seq![
                InstrV::LoadI32At(layout::FLAGS),
                InstrV::ConstI32(arch::FLAG_ZERO),
                InstrV::AndI32,
            ],
        },
    ]
}

/// Emit code leaving the zero flag (materialized from the lazy-flag
/// state when stale) on the stack.
pub fn gen_getzf(builder: &mut CodeBuilder)
    requires
        old(builder).wf(),
        old(builder).room(1),
    ensures
        final(builder).wf(),
        exists|x: u32|
            !old(builder).is_live(x) && emitted(
                *old(builder),
                *final(builder),
                #[trigger] code_getzf(x),
            ),
        locals_same(*old(builder), *final(builder)),
        final(builder).depth() == old(builder).depth(),
        final(builder).next_local() <= old(builder).next_local() + 1,
{
    let ghost b0 = *builder;
    builder.load_aligned_i32(layout::FLAGS_CHANGED);
    builder.const_i32(arch::FLAG_ZERO as i32);
    builder.and_i32();
    proof {
        let fs = b0.frames_v();
        lemma_push_onto_app(fs, seq![InstrV::LoadI32At(layout::FLAGS_CHANGED)], seq![InstrV::ConstI32(arch::FLAG_ZERO)]);
        assert(seq![InstrV::LoadI32At(layout::FLAGS_CHANGED)] + seq![InstrV::ConstI32(arch::FLAG_ZERO)] =~= seq![InstrV::LoadI32At(layout::FLAGS_CHANGED), InstrV::ConstI32(arch::FLAG_ZERO)]);
        lemma_push_onto_app(fs, seq![InstrV::LoadI32At(layout::FLAGS_CHANGED), InstrV::ConstI32(arch::FLAG_ZERO)], seq![InstrV::AndI32]);
        assert(seq![InstrV::LoadI32At(layout::FLAGS_CHANGED), InstrV::ConstI32(arch::FLAG_ZERO)] + seq![InstrV::AndI32] =~= seq![InstrV::LoadI32At(layout::FLAGS_CHANGED), InstrV::ConstI32(arch::FLAG_ZERO), InstrV::AndI32]);
    }
    let ghost b_cond = *builder;
    builder.if_i32();
    let ghost b_if = *builder;

    builder.load_aligned_i32(layout::LAST_RESULT);
    let last_result = builder.tee_new_local();
    let ghost x = last_result.idx;
    builder.const_i32(-1);
    builder.xor_i32();
    builder.get_local(&last_result);
    builder.free_local(last_result);
    builder.const_i32(1);
    builder.sub_i32();
    builder.and_i32();
    builder.load_aligned_i32(layout::LAST_OP_SIZE);
    builder.shr_u_i32();
    builder.const_i32(1);
    builder.and_i32();
    proof {
        assert(((-1i32) as u32) == 0xFFFF_FFFFu32) by (bit_vector);
        let fs = b_if.frames_v();
        lemma_push_onto_app(fs, seq![InstrV::LoadI32At(layout::LAST_RESULT)], seq![InstrV::TeeLocal(x)]);
        assert(seq![InstrV::LoadI32At(layout::LAST_RESULT)] + seq![InstrV::TeeLocal(x)] =~= seq![InstrV::LoadI32At(layout::LAST_RESULT), InstrV::TeeLocal(x)]);
        lemma_push_onto_app(fs, seq![InstrV::LoadI32At(layout::LAST_RESULT), InstrV::TeeLocal(x)], seq![InstrV::ConstI32(0xFFFF_FFFF)]);
        assert(seq![InstrV::LoadI32At(layout::LAST_RESULT), InstrV::TeeLocal(x)] + seq![InstrV::ConstI32(0xFFFF_FFFF)] =~= seq![InstrV::LoadI32At(layout::LAST_RESULT), InstrV::TeeLocal(x), InstrV::ConstI32(0xFFFF_FFFF)]);
        lemma_push_onto_app(fs, seq![InstrV::LoadI32At(layout::LAST_RESULT), InstrV::TeeLocal(x), InstrV::ConstI32(0xFFFF_FFFF)], seq![InstrV::XorI32]);
        assert(seq![InstrV::LoadI32At(layout::LAST_RESULT), InstrV::TeeLocal(x), InstrV::ConstI32(0xFFFF_FFFF)] + seq![InstrV::XorI32] =~= seq![InstrV::LoadI32At(layout::LAST_RESULT), InstrV::TeeLocal(x), InstrV::ConstI32(0xFFFF_FFFF), InstrV::XorI32]);
        lemma_push_onto_app(fs, seq![InstrV::LoadI32At(layout::LAST_RESULT), InstrV::TeeLocal(x), InstrV::ConstI32(0xFFFF_FFFF), InstrV::XorI32], seq![InstrV::GetLocal(x)]);
        assert(seq![InstrV::LoadI32At(layout::LAST_RESULT), InstrV::TeeLocal(x), InstrV::ConstI32(0xFFFF_FFFF), InstrV::XorI32] + seq![InstrV::GetLocal(x)] =~= seq![InstrV::LoadI32At(layout::LAST_RESULT), InstrV::TeeLocal(x), InstrV::ConstI32(0xFFFF_FFFF), InstrV::XorI32, InstrV::GetLocal(x)]);
        lemma_push_onto_app(fs, seq![InstrV::LoadI32At(layout::LAST_RESULT), InstrV::TeeLocal(x), InstrV::ConstI32(0xFFFF_FFFF), InstrV::XorI32, InstrV::GetLocal(x)], seq![InstrV::ConstI32(1)]);
        assert(seq![InstrV::LoadI32At(layout::LAST_RESULT), InstrV::TeeLocal(x), InstrV::ConstI32(0xFFFF_FFFF), InstrV::XorI32, InstrV::GetLocal(x)] + seq![InstrV::ConstI32(1)] =~= seq![InstrV::LoadI32At(layout::LAST_RESULT), InstrV::TeeLocal(x), InstrV::ConstI32(0xFFFF_FFFF), InstrV::XorI32, InstrV::GetLocal(x), InstrV::ConstI32(1)]);
        lemma_push_onto_app(fs, seq![InstrV::LoadI32At(layout::LAST_RESULT), InstrV::TeeLocal(x), InstrV::ConstI32(0xFFFF_FFFF), InstrV::XorI32, InstrV::GetLocal(x), InstrV::ConstI32(1)], seq![InstrV::SubI32]);
        assert(seq![InstrV::LoadI32At(layout::LAST_RESULT), InstrV::TeeLocal(x), InstrV::ConstI32(0xFFFF_FFFF), InstrV::XorI32, InstrV::GetLocal(x), InstrV::ConstI32(1)] + seq![InstrV::SubI32] =~= seq![InstrV::LoadI32At(layout::LAST_RESULT), InstrV::TeeLocal(x), InstrV::ConstI32(0xFFFF_FFFF), InstrV::XorI32, InstrV::GetLocal(x), InstrV::ConstI32(1), InstrV::SubI32]);
        lemma_push_onto_app(fs, seq![InstrV::LoadI32At(layout::LAST_RESULT), InstrV::TeeLocal(x), InstrV::ConstI32(0xFFFF_FFFF), InstrV::XorI32, InstrV::GetLocal(x), InstrV::ConstI32(1), InstrV::SubI32], seq![InstrV::AndI32]);
        assert(seq![InstrV::LoadI32At(layout::LAST_RESULT), InstrV::TeeLocal(x), InstrV::ConstI32(0xFFFF_FFFF), InstrV::XorI32, InstrV::GetLocal(x), InstrV::ConstI32(1), InstrV::SubI32] + seq![InstrV::AndI32] =~= seq![InstrV::LoadI32At(layout::LAST_RESULT), InstrV::TeeLocal(x), InstrV::ConstI32(0xFFFF_FFFF), InstrV::XorI32, InstrV::GetLocal(x), InstrV::ConstI32(1), InstrV::SubI32, InstrV::AndI32]);
        lemma_push_onto_app(fs, seq![InstrV::LoadI32At(layout::LAST_RESULT), InstrV::TeeLocal(x), InstrV::ConstI32(0xFFFF_FFFF), InstrV::XorI32, InstrV::GetLocal(x), InstrV::ConstI32(1), InstrV::SubI32, InstrV::AndI32], seq![InstrV::LoadI32At(layout::LAST_OP_SIZE)]);
        assert(seq![InstrV::LoadI32At(layout::LAST_RESULT), InstrV::TeeLocal(x), InstrV::ConstI32(0xFFFF_FFFF), InstrV::XorI32, InstrV::GetLocal(x), InstrV::ConstI32(1), InstrV::SubI32, InstrV::AndI32] + seq![InstrV::LoadI32At(layout::LAST_OP_SIZE)] =~= seq![InstrV::LoadI32At(layout::LAST_RESULT), InstrV::TeeLocal(x), InstrV::ConstI32(0xFFFF_FFFF), InstrV::XorI32, InstrV::GetLocal(x), InstrV::ConstI32(1), InstrV::SubI32, InstrV::AndI32, InstrV::LoadI32At(layout::LAST_OP_SIZE)]);
        lemma_push_onto_app(fs, seq![InstrV::LoadI32At(layout::LAST_RESULT), InstrV::TeeLocal(x), InstrV::ConstI32(0xFFFF_FFFF), InstrV::XorI32, InstrV::GetLocal(x), InstrV::ConstI32(1), InstrV::SubI32, InstrV::AndI32, InstrV::LoadI32At(layout::LAST_OP_SIZE)], seq![InstrV::ShrUI32]);
        assert(seq![InstrV::LoadI32At(layout::LAST_RESULT), InstrV::TeeLocal(x), InstrV::ConstI32(0xFFFF_FFFF), InstrV::XorI32, InstrV::GetLocal(x), InstrV::ConstI32(1), InstrV::SubI32, InstrV::AndI32, InstrV::LoadI32At(layout::LAST_OP_SIZE)] + seq![InstrV::ShrUI32] =~= seq![InstrV::LoadI32At(layout::LAST_RESULT), InstrV::TeeLocal(x), InstrV::ConstI32(0xFFFF_FFFF), InstrV::XorI32, InstrV::GetLocal(x), InstrV::ConstI32(1), InstrV::SubI32, InstrV::AndI32, InstrV::LoadI32At(layout::LAST_OP_SIZE), InstrV::ShrUI32]);
        lemma_push_onto_app(fs, seq![InstrV::LoadI32At(layout::LAST_RESULT), InstrV::TeeLocal(x), InstrV::ConstI32(0xFFFF_FFFF), InstrV::XorI32, InstrV::GetLocal(x), InstrV::ConstI32(1), InstrV::SubI32, InstrV::AndI32, InstrV::LoadI32At(layout::LAST_OP_SIZE), InstrV::ShrUI32], seq![InstrV::ConstI32(1)]);
        assert(seq![InstrV::LoadI32At(layout::LAST_RESULT), InstrV::TeeLocal(x), InstrV::ConstI32(0xFFFF_FFFF), InstrV::XorI32, InstrV::GetLocal(x), InstrV::ConstI32(1), InstrV::SubI32, InstrV::AndI32, InstrV::LoadI32At(layout::LAST_OP_SIZE), InstrV::ShrUI32] + seq![InstrV::ConstI32(1)] =~= seq![InstrV::LoadI32At(layout::LAST_RESULT), InstrV::TeeLocal(x), InstrV::ConstI32(0xFFFF_FFFF), InstrV::XorI32, InstrV::GetLocal(x), InstrV::ConstI32(1), InstrV::SubI32, InstrV::AndI32, InstrV::LoadI32At(layout::LAST_OP_SIZE), InstrV::ShrUI32, InstrV::ConstI32(1)]);
        lemma_push_onto_app(fs, seq![InstrV::LoadI32At(layout::LAST_RESULT), InstrV::TeeLocal(x), InstrV::ConstI32(0xFFFF_FFFF), InstrV::XorI32, InstrV::GetLocal(x), InstrV::ConstI32(1), InstrV::SubI32, InstrV::AndI32, InstrV::LoadI32At(layout::LAST_OP_SIZE), InstrV::ShrUI32, InstrV::ConstI32(1)], seq![InstrV::AndI32]);
        assert(seq![InstrV::LoadI32At(layout::LAST_RESULT), InstrV::TeeLocal(x), InstrV::ConstI32(0xFFFF_FFFF), InstrV::XorI32, InstrV::GetLocal(x), InstrV::ConstI32(1), InstrV::SubI32, InstrV::AndI32, InstrV::LoadI32At(layout::LAST_OP_SIZE), InstrV::ShrUI32, InstrV::ConstI32(1)] + seq![InstrV::AndI32] =~= seq![InstrV::LoadI32At(layout::LAST_RESULT), InstrV::TeeLocal(x), InstrV::ConstI32(0xFFFF_FFFF), InstrV::XorI32, InstrV::GetLocal(x), InstrV::ConstI32(1), InstrV::SubI32, InstrV::AndI32, InstrV::LoadI32At(layout::LAST_OP_SIZE), InstrV::ShrUI32, InstrV::ConstI32(1), InstrV::AndI32]);
    }
    let ghost b_fast = *builder;

    builder.else_();
    let ghost b_else = *builder;
    builder.load_aligned_i32(layout::FLAGS);
    builder.const_i32(arch::FLAG_ZERO as i32);
    builder.and_i32();
    proof {
        let fs = b_else.frames_v();
        lemma_push_onto_app(fs, seq![InstrV::LoadI32At(layout::FLAGS)], seq![InstrV::ConstI32(arch::FLAG_ZERO)]);
        assert(seq![InstrV::LoadI32At(layout::FLAGS)] + seq![InstrV::ConstI32(arch::FLAG_ZERO)] =~= seq![InstrV::LoadI32At(layout::FLAGS), InstrV::ConstI32(arch::FLAG_ZERO)]);
        lemma_push_onto_app(fs, seq![InstrV::LoadI32At(layout::FLAGS), InstrV::ConstI32(arch::FLAG_ZERO)], seq![InstrV::AndI32]);
        assert(seq![InstrV::LoadI32At(layout::FLAGS), InstrV::ConstI32(arch::FLAG_ZERO)] + seq![InstrV::AndI32] =~= seq![InstrV::LoadI32At(layout::FLAGS), InstrV::ConstI32(arch::FLAG_ZERO), InstrV::AndI32]);
    }
    let ghost b_slow = *builder;
    builder.block_end();
    proof {
        crate::builder::lemma_if_bracket(
            b_cond,
            b_if,
            b_fast,
            b_else,
            b_slow,
            *builder,
            BlockKind::ResI32,
            seq![
                InstrV::LoadI32At(layout::LAST_RESULT),
                InstrV::TeeLocal(x),
                InstrV::ConstI32(0xFFFF_FFFF),
                InstrV::XorI32,
                InstrV::GetLocal(x),
                InstrV::ConstI32(1),
                InstrV::SubI32,
                InstrV::AndI32,
                InstrV::LoadI32At(layout::LAST_OP_SIZE),
                InstrV::ShrUI32,
                InstrV::ConstI32(1),
                InstrV::AndI32,
            ],
            seq![
                InstrV::LoadI32At(layout::FLAGS),
                InstrV::ConstI32(arch::FLAG_ZERO),
                InstrV::AndI32,
            ],
        );
        lemma_push_onto_app(
            b0.frames_v(),
            seq![
                InstrV::LoadI32At(layout::FLAGS_CHANGED),
                InstrV::ConstI32(arch::FLAG_ZERO),
                InstrV::AndI32,
            ],
            seq![code_getzf(x)[3]],
        );
        assert(seq![
            InstrV::LoadI32At(layout::FLAGS_CHANGED),
            InstrV::ConstI32(arch::FLAG_ZERO),
            InstrV::AndI32,
        ] + seq![code_getzf(x)[3]] =~= code_getzf(x));
        assert(!b0.is_live(x) && emitted(b0, *builder, code_getzf(x)));
    }
}

/// Code of [`gen_getcf`], with `x1` and `x2` naming the scratch locals
/// caching `LAST_OP1` and `LAST_OP2`.  When `FLAGS_CHANGED` has the
/// carry bit, CF is recomputed as
/// `((((op1 ^ op2) & (op2 ^ add_result)) ^ op1) >> LAST_OP_SIZE) & 1`;
/// the identity holds for both addition and subtraction because the
/// emitters store `LAST_ADD_RESULT` accordingly.  Otherwise the
/// architectural bit is read from `FLAGS`.
pub open spec fn code_getcf(x1: u32, x2: u32) -> Seq<InstrV> {
    seq![
        InstrV::LoadI32At(layout::FLAGS_CHANGED),
        InstrV::ConstI32(arch::FLAG_CARRY),
        InstrV::AndI32,
        InstrV::IfBlock {
            kind: BlockKind::ResI32,
            then_code: seq![
                InstrV::LoadI32At(layout::LAST_OP1),
                InstrV::TeeLocal(x1),
                InstrV::LoadI32At(layout::LAST_OP2),
                InstrV::TeeLocal(x2),
                InstrV::XorI32,
                InstrV::GetLocal(x2),
                InstrV::LoadI32At(layout::LAST_ADD_RESULT),
                InstrV::XorI32,
                InstrV::AndI32,
                InstrV::GetLocal(x1),
                InstrV::XorI32,
                InstrV::LoadI32At(layout::LAST_OP_SIZE),
                InstrV::ShrUI32,
                InstrV::ConstI32(1),
                InstrV::AndI32,
            ],
            else_code: seq![
                InstrV::LoadI32At(layout::FLAGS),
                InstrV::ConstI32(arch::FLAG_CARRY),
                InstrV::AndI32,
            ],
        },
    ]
}

/// Emit code leaving the carry flag (materialized from the lazy-flag
/// state when stale) on the stack.
pub fn gen_getcf(builder: &mut CodeBuilder)
    requires
        old(builder).wf(),
        old(builder).room(2),
    ensures
        final(builder).wf(),
        exists|x1: u32, x2: u32|
            !old(builder).is_live(x1) && !old(builder).is_live(x2) && x1 != x2 && emitted(
                *old(builder),
                *final(builder),
                #[trigger] code_getcf(x1, x2),
            ),
        locals_same(*old(builder), *final(builder)),
        final(builder).depth() == old(builder).depth(),
        final(builder).next_local() <= old(builder).next_local() + 2,
{
    let ghost b0 = *builder;
    builder.load_aligned_i32(layout::FLAGS_CHANGED);
    builder.const_i32(arch::FLAG_CARRY as i32);
    builder.and_i32();
    proof {
        let fs = b0.frames_v();
        lemma_push_onto_app(fs, seq![InstrV::LoadI32At(layout::FLAGS_CHANGED)], seq![InstrV::ConstI32(arch::FLAG_CARRY)]);
        assert(seq![InstrV::LoadI32At(layout::FLAGS_CHANGED)] + seq![InstrV::ConstI32(arch::FLAG_CARRY)] =~= seq![InstrV::LoadI32At(layout::FLAGS_CHANGED), InstrV::ConstI32(arch::FLAG_CARRY)]);
        lemma_push_onto_app(fs, seq![InstrV::LoadI32At(layout::FLAGS_CHANGED), InstrV::ConstI32(arch::FLAG_CARRY)], seq![InstrV::AndI32]);
        assert(seq![InstrV::LoadI32At(layout::FLAGS_CHANGED), InstrV::ConstI32(arch::FLAG_CARRY)] + seq![InstrV::AndI32] =~= seq![InstrV::LoadI32At(layout::FLAGS_CHANGED), InstrV::ConstI32(arch::FLAG_CARRY), InstrV::AndI32]);
    }
    let ghost b_cond = *builder;
    builder.if_i32();
    let ghost b_if = *builder;

    builder.load_aligned_i32(layout::LAST_OP1);
    let last_op1 = builder.tee_new_local();
    let ghost x1 = last_op1.idx;
    builder.load_aligned_i32(layout::LAST_OP2);
    let last_op2 = builder.tee_new_local();
    let ghost x2 = last_op2.idx;
    builder.xor_i32();
    builder.get_local(&last_op2);
    builder.load_aligned_i32(layout::LAST_ADD_RESULT);
    builder.xor_i32();
    builder.and_i32();
    builder.get_local(&last_op1);
    builder.xor_i32();
    builder.free_local(last_op1);
    builder.free_local(last_op2);
    builder.load_aligned_i32(layout::LAST_OP_SIZE);
    builder.shr_u_i32();
    builder.const_i32(1);
    builder.and_i32();
    proof {
        let fs = b_if.frames_v();
        lemma_push_onto_app(fs, seq![InstrV::LoadI32At(layout::LAST_OP1)], seq![InstrV::TeeLocal(x1)]);
        assert(seq![InstrV::LoadI32At(layout::LAST_OP1)] + seq![InstrV::TeeLocal(x1)] =~= seq![InstrV::LoadI32At(layout::LAST_OP1), InstrV::TeeLocal(x1)]);
        lemma_push_onto_app(fs, seq![InstrV::LoadI32At(layout::LAST_OP1), InstrV::TeeLocal(x1)], seq![InstrV::LoadI32At(layout::LAST_OP2)]);
        assert(seq![InstrV::LoadI32At(layout::LAST_OP1), InstrV::TeeLocal(x1)] + seq![InstrV::LoadI32At(layout::LAST_OP2)] =~= seq![InstrV::LoadI32At(layout::LAST_OP1), InstrV::TeeLocal(x1), InstrV::LoadI32At(layout::LAST_OP2)]);
        lemma_push_onto_app(fs, seq![InstrV::LoadI32At(layout::LAST_OP1), InstrV::TeeLocal(x1), InstrV::LoadI32At(layout::LAST_OP2)], seq![InstrV::TeeLocal(x2)]);
        assert(seq![InstrV::LoadI32At(layout::LAST_OP1), InstrV::TeeLocal(x1), InstrV::LoadI32At(layout::LAST_OP2)] + seq![InstrV::TeeLocal(x2)] =~= seq![InstrV::LoadI32At(layout::LAST_OP1), InstrV::TeeLocal(x1), InstrV::LoadI32At(layout::LAST_OP2), InstrV::TeeLocal(x2)]);
        lemma_push_onto_app(fs, seq![InstrV::LoadI32At(layout::LAST_OP1), InstrV::TeeLocal(x1), InstrV::LoadI32At(layout::LAST_OP2), InstrV::TeeLocal(x2)], seq![InstrV::XorI32]);
        assert(seq![InstrV::LoadI32At(layout::LAST_OP1), InstrV::TeeLocal(x1), InstrV::LoadI32At(layout::LAST_OP2), InstrV::TeeLocal(x2)] + seq![InstrV::XorI32] =~= seq![InstrV::LoadI32At(layout::LAST_OP1), InstrV::TeeLocal(x1), InstrV::LoadI32At(layout::LAST_OP2), InstrV::TeeLocal(x2), InstrV::XorI32]);
        lemma_push_onto_app(fs, seq![InstrV::LoadI32At(layout::LAST_OP1), InstrV::TeeLocal(x1), InstrV::LoadI32At(layout::LAST_OP2), InstrV::TeeLocal(x2), InstrV::XorI32], seq![InstrV::GetLocal(x2)]);
        assert(seq![InstrV::LoadI32At(layout::LAST_OP1), InstrV::TeeLocal(x1), InstrV::LoadI32At(layout::LAST_OP2), InstrV::TeeLocal(x2), InstrV::XorI32] + seq![InstrV::GetLocal(x2)] =~= seq![InstrV::LoadI32At(layout::LAST_OP1), InstrV::TeeLocal(x1), InstrV::LoadI32At(layout::LAST_OP2), InstrV::TeeLocal(x2), InstrV::XorI32, InstrV::GetLocal(x2)]);
        lemma_push_onto_app(fs, seq![InstrV::LoadI32At(layout::LAST_OP1), InstrV::TeeLocal(x1), InstrV::LoadI32At(layout::LAST_OP2), InstrV::TeeLocal(x2), InstrV::XorI32, InstrV::GetLocal(x2)], seq![InstrV::LoadI32At(layout::LAST_ADD_RESULT)]);
        assert(seq![InstrV::LoadI32At(layout::LAST_OP1), InstrV::TeeLocal(x1), InstrV::LoadI32At(layout::LAST_OP2), InstrV::TeeLocal(x2), InstrV::XorI32, InstrV::GetLocal(x2)] + seq![InstrV::LoadI32At(layout::LAST_ADD_RESULT)] =~= seq![InstrV::LoadI32At(layout::LAST_OP1), InstrV::TeeLocal(x1), InstrV::LoadI32At(layout::LAST_OP2), InstrV::TeeLocal(x2), InstrV::XorI32, InstrV::GetLocal(x2), InstrV::LoadI32At(layout::LAST_ADD_RESULT)]);
        lemma_push_onto_app(fs, seq![InstrV::LoadI32At(layout::LAST_OP1), InstrV::TeeLocal(x1), InstrV::LoadI32At(layout::LAST_OP2), InstrV::TeeLocal(x2), InstrV::XorI32, InstrV::GetLocal(x2), InstrV::LoadI32At(layout::LAST_ADD_RESULT)], seq![InstrV::XorI32]);
        assert(seq![InstrV::LoadI32At(layout::LAST_OP1), InstrV::TeeLocal(x1), InstrV::LoadI32At(layout::LAST_OP2), InstrV::TeeLocal(x2), InstrV::XorI32, InstrV::GetLocal(x2), InstrV::LoadI32At(layout::LAST_ADD_RESULT)] + seq![InstrV::XorI32] =~= seq![InstrV::LoadI32At(layout::LAST_OP1), InstrV::TeeLocal(x1), InstrV::LoadI32At(layout::LAST_OP2), InstrV::TeeLocal(x2), InstrV::XorI32, InstrV::GetLocal(x2), InstrV::LoadI32At(layout::LAST_ADD_RESULT), InstrV::XorI32]);
        lemma_push_onto_app(fs, seq![InstrV::LoadI32At(layout::LAST_OP1), InstrV::TeeLocal(x1), InstrV::LoadI32At(layout::LAST_OP2), InstrV::TeeLocal(x2), InstrV::XorI32, InstrV::GetLocal(x2), InstrV::LoadI32At(layout::LAST_ADD_RESULT), InstrV::XorI32], seq![InstrV::AndI32]);
        assert(seq![InstrV::LoadI32At(layout::LAST_OP1), InstrV::TeeLocal(x1), InstrV::LoadI32At(layout::LAST_OP2), InstrV::TeeLocal(x2), InstrV::XorI32, InstrV::GetLocal(x2), InstrV::LoadI32At(layout::LAST_ADD_RESULT), InstrV::XorI32] + seq![InstrV::AndI32] =~= seq![InstrV::LoadI32At(layout::LAST_OP1), InstrV::TeeLocal(x1), InstrV::LoadI32At(layout::LAST_OP2), InstrV::TeeLocal(x2), InstrV::XorI32, InstrV::GetLocal(x2), InstrV::LoadI32At(layout::LAST_ADD_RESULT), InstrV::XorI32, InstrV::AndI32]);
        lemma_push_onto_app(fs, seq![InstrV::LoadI32At(layout::LAST_OP1), InstrV::TeeLocal(x1), InstrV::LoadI32At(layout::LAST_OP2), InstrV::TeeLocal(x2), InstrV::XorI32, InstrV::GetLocal(x2), InstrV::LoadI32At(layout::LAST_ADD_RESULT), InstrV::XorI32, InstrV::AndI32], seq![InstrV::GetLocal(x1)]);
        assert(seq![InstrV::LoadI32At(layout::LAST_OP1), InstrV::TeeLocal(x1), InstrV::LoadI32At(layout::LAST_OP2), InstrV::TeeLocal(x2), InstrV::XorI32, InstrV::GetLocal(x2), InstrV::LoadI32At(layout::LAST_ADD_RESULT), InstrV::XorI32, InstrV::AndI32] + seq![InstrV::GetLocal(x1)] =~= seq![InstrV::LoadI32At(layout::LAST_OP1), InstrV::TeeLocal(x1), InstrV::LoadI32At(layout::LAST_OP2), InstrV::TeeLocal(x2), InstrV::XorI32, InstrV::GetLocal(x2), InstrV::LoadI32At(layout::LAST_ADD_RESULT), InstrV::XorI32, InstrV::AndI32, InstrV::GetLocal(x1)]);
        lemma_push_onto_app(fs, seq![InstrV::LoadI32At(layout::LAST_OP1), InstrV::TeeLocal(x1), InstrV::LoadI32At(layout::LAST_OP2), InstrV::TeeLocal(x2), InstrV::XorI32, InstrV::GetLocal(x2), InstrV::LoadI32At(layout::LAST_ADD_RESULT), InstrV::XorI32, InstrV::AndI32, InstrV::GetLocal(x1)], seq![InstrV::XorI32]);
        assert(seq![InstrV::LoadI32At(layout::LAST_OP1), InstrV::TeeLocal(x1), InstrV::LoadI32At(layout::LAST_OP2), InstrV::TeeLocal(x2), InstrV::XorI32, InstrV::GetLocal(x2), InstrV::LoadI32At(layout::LAST_ADD_RESULT), InstrV::XorI32, InstrV::AndI32, InstrV::GetLocal(x1)] + seq![InstrV::XorI32] =~= seq![InstrV::LoadI32At(layout::LAST_OP1), InstrV::TeeLocal(x1), InstrV::LoadI32At(layout::LAST_OP2), InstrV::TeeLocal(x2), InstrV::XorI32, InstrV::GetLocal(x2), InstrV::LoadI32At(layout::LAST_ADD_RESULT), InstrV::XorI32, InstrV::AndI32, InstrV::GetLocal(x1), InstrV::XorI32]);
        lemma_push_onto_app(fs, seq![InstrV::LoadI32At(layout::LAST_OP1), InstrV::TeeLocal(x1), InstrV::LoadI32At(layout::LAST_OP2), InstrV::TeeLocal(x2), InstrV::XorI32, InstrV::GetLocal(x2), InstrV::LoadI32At(layout::LAST_ADD_RESULT), InstrV::XorI32, InstrV::AndI32, InstrV::GetLocal(x1), InstrV::XorI32], seq![InstrV::LoadI32At(layout::LAST_OP_SIZE)]);
        assert(seq![InstrV::LoadI32At(layout::LAST_OP1), InstrV::TeeLocal(x1), InstrV::LoadI32At(layout::LAST_OP2), InstrV::TeeLocal(x2), InstrV::XorI32, InstrV::GetLocal(x2), InstrV::LoadI32At(layout::LAST_ADD_RESULT), InstrV::XorI32, InstrV::AndI32, InstrV::GetLocal(x1), InstrV::XorI32] + seq![InstrV::LoadI32At(layout::LAST_OP_SIZE)] =~= seq![InstrV::LoadI32At(layout::LAST_OP1), InstrV::TeeLocal(x1), InstrV::LoadI32At(layout::LAST_OP2), InstrV::TeeLocal(x2), InstrV::XorI32, InstrV::GetLocal(x2), InstrV::LoadI32At(layout::LAST_ADD_RESULT), InstrV::XorI32, InstrV::AndI32, InstrV::GetLocal(x1), InstrV::XorI32, InstrV::LoadI32At(layout::LAST_OP_SIZE)]);
        lemma_push_onto_app(fs, seq![InstrV::LoadI32At(layout::LAST_OP1), InstrV::TeeLocal(x1), InstrV::LoadI32At(layout::LAST_OP2), InstrV::TeeLocal(x2), InstrV::XorI32, InstrV::GetLocal(x2), InstrV::LoadI32At(layout::LAST_ADD_RESULT), InstrV::XorI32, InstrV::AndI32, InstrV::GetLocal(x1), InstrV::XorI32, InstrV::LoadI32At(layout::LAST_OP_SIZE)], seq![InstrV::ShrUI32]);
        assert(seq![InstrV::LoadI32At(layout::LAST_OP1), InstrV::TeeLocal(x1), InstrV::LoadI32At(layout::LAST_OP2), InstrV::TeeLocal(x2), InstrV::XorI32, InstrV::GetLocal(x2), InstrV::LoadI32At(layout::LAST_ADD_RESULT), InstrV::XorI32, InstrV::AndI32, InstrV::GetLocal(x1), InstrV::XorI32, InstrV::LoadI32At(layout::LAST_OP_SIZE)] + seq![InstrV::ShrUI32] =~= seq![InstrV::LoadI32At(layout::LAST_OP1), InstrV::TeeLocal(x1), InstrV::LoadI32At(layout::LAST_OP2), InstrV::TeeLocal(x2), InstrV::XorI32, InstrV::GetLocal(x2), InstrV::LoadI32At(layout::LAST_ADD_RESULT), InstrV::XorI32, InstrV::AndI32, InstrV::GetLocal(x1), InstrV::XorI32, InstrV::LoadI32At(layout::LAST_OP_SIZE), InstrV::ShrUI32]);
        lemma_push_onto_app(fs, seq![InstrV::LoadI32At(layout::LAST_OP1), InstrV::TeeLocal(x1), InstrV::LoadI32At(layout::LAST_OP2), InstrV::TeeLocal(x2), InstrV::XorI32, InstrV::GetLocal(x2), InstrV::LoadI32At(layout::LAST_ADD_RESULT), InstrV::XorI32, InstrV::AndI32, InstrV::GetLocal(x1), InstrV::XorI32, InstrV::LoadI32At(layout::LAST_OP_SIZE), InstrV::ShrUI32], seq![InstrV::ConstI32(1)]);
        assert(seq![InstrV::LoadI32At(layout::LAST_OP1), InstrV::TeeLocal(x1), InstrV::LoadI32At(layout::LAST_OP2), InstrV::TeeLocal(x2), InstrV::XorI32, InstrV::GetLocal(x2), InstrV::LoadI32At(layout::LAST_ADD_RESULT), InstrV::XorI32, InstrV::AndI32, InstrV::GetLocal(x1), InstrV::XorI32, InstrV::LoadI32At(layout::LAST_OP_SIZE), InstrV::ShrUI32] + seq![InstrV::ConstI32(1)] =~= seq![InstrV::LoadI32At(layout::LAST_OP1), InstrV::TeeLocal(x1), InstrV::LoadI32At(layout::LAST_OP2), InstrV::TeeLocal(x2), InstrV::XorI32, InstrV::GetLocal(x2), InstrV::LoadI32At(layout::LAST_ADD_RESULT), InstrV::XorI32, InstrV::AndI32, InstrV::GetLocal(x1), InstrV::XorI32, InstrV::LoadI32At(layout::LAST_OP_SIZE), InstrV::ShrUI32, InstrV::ConstI32(1)]);
        lemma_push_onto_app(fs, seq![InstrV::LoadI32At(layout::LAST_OP1), InstrV::TeeLocal(x1), InstrV::LoadI32At(layout::LAST_OP2), InstrV::TeeLocal(x2), InstrV::XorI32, InstrV::GetLocal(x2), InstrV::LoadI32At(layout::LAST_ADD_RESULT), InstrV::XorI32, InstrV::AndI32, InstrV::GetLocal(x1), InstrV::XorI32, InstrV::LoadI32At(layout::LAST_OP_SIZE), InstrV::ShrUI32, InstrV::ConstI32(1)], seq![InstrV::AndI32]);
        assert(seq![InstrV::LoadI32At(layout::LAST_OP1), InstrV::TeeLocal(x1), InstrV::LoadI32At(layout::LAST_OP2), InstrV::TeeLocal(x2), InstrV::XorI32, InstrV::GetLocal(x2), InstrV::LoadI32At(layout::LAST_ADD_RESULT), InstrV::XorI32, InstrV::AndI32, InstrV::GetLocal(x1), InstrV::XorI32, InstrV::LoadI32At(layout::LAST_OP_SIZE), InstrV::ShrUI32, InstrV::ConstI32(1)] + seq![InstrV::AndI32] =~= seq![InstrV::LoadI32At(layout::LAST_OP1), InstrV::TeeLocal(x1), InstrV::LoadI32At(layout::LAST_OP2), InstrV::TeeLocal(x2), InstrV::XorI32, InstrV::GetLocal(x2), InstrV::LoadI32At(layout::LAST_ADD_RESULT), InstrV::XorI32, InstrV::AndI32, InstrV::GetLocal(x1), InstrV::XorI32, InstrV::LoadI32At(layout::LAST_OP_SIZE), InstrV::ShrUI32, InstrV::ConstI32(1), InstrV::AndI32]);
    }
    let ghost b_fast = *builder;

    builder.else_();
    let ghost b_else = *builder;
    builder.load_aligned_i32(layout::FLAGS);
    builder.const_i32(arch::FLAG_CARRY as i32);
    builder.and_i32();
    proof {
        let fs = b_else.frames_v();
        lemma_push_onto_app(fs, seq![InstrV::LoadI32At(layout::FLAGS)], seq![InstrV::ConstI32(arch::FLAG_CARRY)]);
        assert(seq![InstrV::LoadI32At(layout::FLAGS)] + seq![InstrV::ConstI32(arch::FLAG_CARRY)] =~= seq![InstrV::LoadI32At(layout::FLAGS), InstrV::ConstI32(arch::FLAG_CARRY)]);
        lemma_push_onto_app(fs, seq![InstrV::LoadI32At(layout::FLAGS), InstrV::ConstI32(arch::FLAG_CARRY)], seq![InstrV::AndI32]);
        assert(seq![InstrV::LoadI32At(layout::FLAGS), InstrV::ConstI32(arch::FLAG_CARRY)] + seq![InstrV::AndI32] =~= seq![InstrV::LoadI32At(layout::FLAGS), InstrV::ConstI32(arch::FLAG_CARRY), InstrV::AndI32]);
    }
    let ghost b_slow = *builder;
    builder.block_end();
    proof {
        crate::builder::lemma_if_bracket(
            b_cond,
            b_if,
            b_fast,
            b_else,
            b_slow,
            *builder,
            BlockKind::ResI32,
            seq![
                InstrV::LoadI32At(layout::LAST_OP1),
                InstrV::TeeLocal(x1),
                InstrV::LoadI32At(layout::LAST_OP2),
                InstrV::TeeLocal(x2),
                InstrV::XorI32,
                InstrV::GetLocal(x2),
                InstrV::LoadI32At(layout::LAST_ADD_RESULT),
                InstrV::XorI32,
                InstrV::AndI32,
                InstrV::GetLocal(x1),
                InstrV::XorI32,
                InstrV::LoadI32At(layout::LAST_OP_SIZE),
                InstrV::ShrUI32,
                InstrV::ConstI32(1),
                InstrV::AndI32,
            ],
            seq![
                InstrV::LoadI32At(layout::FLAGS),
                InstrV::ConstI32(arch::FLAG_CARRY),
                InstrV::AndI32,
            ],
        );
        lemma_push_onto_app(
            b0.frames_v(),
            seq![
                InstrV::LoadI32At(layout::FLAGS_CHANGED),
                InstrV::ConstI32(arch::FLAG_CARRY),
                InstrV::AndI32,
            ],
            seq![code_getcf(x1, x2)[3]],
        );
        assert(seq![
            InstrV::LoadI32At(layout::FLAGS_CHANGED),
            InstrV::ConstI32(arch::FLAG_CARRY),
            InstrV::AndI32,
        ] + seq![code_getcf(x1, x2)[3]] =~= code_getcf(x1, x2));
        assert(!b0.is_live(x1) && !b0.is_live(x2) && x1 != x2 && emitted(
            b0,
            *builder,
            code_getcf(x1, x2),
        ));
    }
}

/// Code of [`gen_test_be`]: `CF | ZF`.
pub open spec fn code_test_be(x1: u32, x2: u32, x3: u32) -> Seq<InstrV> {
    code_getcf(x1, x2) + code_getzf(x3) + seq![InstrV::OrI32]
}

/// Emit code leaving the below-or-equal predicate (`CF | ZF`) on the
/// stack.
pub fn gen_test_be(builder: &mut CodeBuilder)
    requires
        old(builder).wf(),
        old(builder).room(3),
    ensures
        final(builder).wf(),
        exists|x1: u32, x2: u32, x3: u32|
            emitted(*old(builder), *final(builder), #[trigger] code_test_be(x1, x2, x3)),
        locals_same(*old(builder), *final(builder)),
        final(builder).depth() == old(builder).depth(),
        final(builder).next_local() <= old(builder).next_local() + 3,
{
    let ghost b0 = *builder;
    gen_getcf(builder);
    proof {
        let (x1, x2) = choose|x1: u32, x2: u32|
            !b0.is_live(x1) && !b0.is_live(x2) && x1 != x2 && emitted(
                b0,
                *builder,
                #[trigger] code_getcf(x1, x2),
            );
        assert(emitted(b0, *builder, code_getcf(x1, x2)));
    }
    let ghost (x1, x2) = choose|x1: u32, x2: u32| emitted(b0, *builder, #[trigger] code_getcf(x1, x2));
    let ghost b1 = *builder;
    gen_getzf(builder);
    proof {
        let x3 = choose|x3: u32| !b1.is_live(x3) && emitted(b1, *builder, #[trigger] code_getzf(x3));
        lemma_push_onto_app(b0.frames_v(), code_getcf(x1, x2), code_getzf(x3));
    }
    let ghost x3 = choose|x3: u32|
        emitted(b0, *builder, code_getcf(x1, x2) + #[trigger] code_getzf(x3));
    builder.or_i32();
    proof {
        lemma_push_onto_app(b0.frames_v(), code_getcf(x1, x2) + code_getzf(x3), seq![InstrV::OrI32]);
        assert(emitted(b0, *builder, code_test_be(x1, x2, x3)));
    }
}

/// Code of [`gen_test_loop`]: decrement CX or ECX under the address-size
/// attribute and leave the decremented counter on the stack.
pub open spec fn code_test_loop(asize_32: bool) -> Seq<InstrV> {
    if asize_32 {
        code_get_reg32(arch::ECX) + seq![InstrV::ConstI32(1), InstrV::SubI32] + code_set_reg32(
            arch::ECX,
        ) + code_get_reg32(arch::ECX)
    } else {
        code_get_reg16(arch::CX) + seq![InstrV::ConstI32(1), InstrV::SubI32] + code_set_reg16(
            arch::CX,
        ) + code_get_reg16(arch::CX)
    }
}

/// Emit the LOOP counter step: decrement CX/ECX and leave the new value
/// on the stack.
pub fn gen_test_loop(ctx: &mut JitContext, is_asize_32: bool)
    requires
        old(ctx).wf(),
    ensures
        final(ctx).wf(),
        ctx_emits(*old(ctx), *final(ctx), code_test_loop(is_asize_32)),
        final(ctx).builder.next_local() == old(ctx).builder.next_local(),
{
    let ghost pre = *ctx;
    let ghost b0 = pre.builder;
    if is_asize_32 {
        gen_get_reg32(ctx, arch::ECX);
    } else {
        gen_get_reg16(ctx, arch::CX);
    }
    let ghost g = if is_asize_32 {
        code_get_reg32(arch::ECX)
    } else {
        code_get_reg16(arch::CX)
    };
    ctx.builder.const_i32(1);
    ctx.builder.sub_i32();
    proof {
        lemma_push_onto_app(b0.frames_v(), g, seq![InstrV::ConstI32(1)]);
        lemma_push_onto_app(b0.frames_v(), g + seq![InstrV::ConstI32(1)], seq![InstrV::SubI32]);
        assert((g + seq![InstrV::ConstI32(1)]) + seq![InstrV::SubI32] =~= g + seq![InstrV::ConstI32(1), InstrV::SubI32]);
    }
    let ghost acc2 = g + seq![InstrV::ConstI32(1), InstrV::SubI32];
    if is_asize_32 {
        gen_set_reg32(ctx, arch::ECX);
        gen_get_reg32(ctx, arch::ECX);
        proof {
            lemma_push_onto_app(b0.frames_v(), acc2, code_set_reg32(arch::ECX));
            lemma_push_onto_app(b0.frames_v(), acc2 + code_set_reg32(arch::ECX), code_get_reg32(arch::ECX));
            assert((acc2 + code_set_reg32(arch::ECX)) + code_get_reg32(arch::ECX) =~= code_test_loop(is_asize_32));
        }
    } else {
        gen_set_reg16(ctx, arch::ECX);
        gen_get_reg16(ctx, arch::CX);
        proof {
            lemma_push_onto_app(b0.frames_v(), acc2, code_set_reg16(arch::CX));
            lemma_push_onto_app(b0.frames_v(), acc2 + code_set_reg16(arch::CX), code_get_reg16(arch::CX));
            assert((acc2 + code_set_reg16(arch::CX)) + code_get_reg16(arch::CX) =~= code_test_loop(is_asize_32));
        }
    }
}

/// Code of [`gen_test_loopnz`]: counter nonzero and ZF clear.
pub open spec fn code_test_loopnz(asize_32: bool, x: u32) -> Seq<InstrV> {
    code_test_loop(asize_32) + seq![InstrV::EqzI32] + code_getzf(x) + seq![
        InstrV::OrI32,
        InstrV::EqzI32,
    ]
}

/// Emit the LOOPNZ predicate: counter nonzero and ZF clear.
pub fn gen_test_loopnz(ctx: &mut JitContext, is_asize_32: bool)
    requires
        old(ctx).wf(),
        old(ctx).builder.room(1),
    ensures
        final(ctx).wf(),
        exists|x: u32| ctx_emits(*old(ctx), *final(ctx), #[trigger] code_test_loopnz(is_asize_32, x)),
        final(ctx).builder.next_local() <= old(ctx).builder.next_local() + 1,
{
    let ghost pre = *ctx;
    let ghost b0 = pre.builder;
    gen_test_loop(ctx, is_asize_32);
    ctx.builder.eqz_i32();
    proof {
        lemma_push_onto_app(b0.frames_v(), code_test_loop(is_asize_32), seq![InstrV::EqzI32]);
    }
    let ghost acc1 = code_test_loop(is_asize_32) + seq![InstrV::EqzI32];
    let ghost b1 = ctx.builder;
    gen_getzf(&mut ctx.builder);
    proof {
        let x = choose|x: u32| !b1.is_live(x) && emitted(b1, ctx.builder, #[trigger] code_getzf(x));
        lemma_push_onto_app(b0.frames_v(), acc1, code_getzf(x));
    }
    let ghost x = choose|x: u32| emitted(b0, ctx.builder, acc1 + #[trigger] code_getzf(x));
    let ghost acc2 = acc1 + code_getzf(x);
    ctx.builder.or_i32();
    ctx.builder.eqz_i32();
    proof {
        lemma_push_onto_app(b0.frames_v(), acc2, seq![InstrV::OrI32]);
        lemma_push_onto_app(b0.frames_v(), acc2 + seq![InstrV::OrI32], seq![InstrV::EqzI32]);
        assert((acc2 + seq![InstrV::OrI32]) + seq![InstrV::EqzI32] =~= acc2 + seq![InstrV::OrI32, InstrV::EqzI32]);
        assert(acc2 + seq![InstrV::OrI32, InstrV::EqzI32] =~= code_test_loopnz(is_asize_32, x));
        assert(ctx_emits(pre, *ctx, code_test_loopnz(is_asize_32, x)));
    }
}

/// Code of [`gen_test_loopz`]: counter nonzero and ZF set.
pub open spec fn code_test_loopz(asize_32: bool, x: u32) -> Seq<InstrV> {
    code_test_loop(asize_32) + seq![InstrV::EqzI32] + code_getzf(x) + seq![
        InstrV::EqzI32,
        InstrV::OrI32,
        InstrV::EqzI32,
    ]
}

/// Emit the LOOPZ predicate: counter nonzero and ZF set.
pub fn gen_test_loopz(ctx: &mut JitContext, is_asize_32: bool)
    requires
        old(ctx).wf(),
        old(ctx).builder.room(1),
    ensures
        final(ctx).wf(),
        exists|x: u32| ctx_emits(*old(ctx), *final(ctx), #[trigger] code_test_loopz(is_asize_32, x)),
        final(ctx).builder.next_local() <= old(ctx).builder.next_local() + 1,
{
    let ghost pre = *ctx;
    let ghost b0 = pre.builder;
    gen_test_loop(ctx, is_asize_32);
    ctx.builder.eqz_i32();
    proof {
        lemma_push_onto_app(b0.frames_v(), code_test_loop(is_asize_32), seq![InstrV::EqzI32]);
    }
    let ghost acc1 = code_test_loop(is_asize_32) + seq![InstrV::EqzI32];
    let ghost b1 = ctx.builder;
    gen_getzf(&mut ctx.builder);
    proof {
        let x = choose|x: u32| !b1.is_live(x) && emitted(b1, ctx.builder, #[trigger] code_getzf(x));
        lemma_push_onto_app(b0.frames_v(), acc1, code_getzf(x));
    }
    let ghost x = choose|x: u32| emitted(b0, ctx.builder, acc1 + #[trigger] code_getzf(x));
    let ghost acc2 = acc1 + code_getzf(x);
    ctx.builder.eqz_i32();
    ctx.builder.or_i32();
    ctx.builder.eqz_i32();
    proof {
        lemma_push_onto_app(b0.frames_v(), acc2, seq![InstrV::EqzI32]);
        lemma_push_onto_app(b0.frames_v(), acc2 + seq![InstrV::EqzI32], seq![InstrV::OrI32]);
        assert((acc2 + seq![InstrV::EqzI32]) + seq![InstrV::OrI32] =~= acc2 + seq![InstrV::EqzI32, InstrV::OrI32]);
        lemma_push_onto_app(b0.frames_v(), acc2 + seq![InstrV::EqzI32, InstrV::OrI32], seq![InstrV::EqzI32]);
        assert((acc2 + seq![InstrV::EqzI32, InstrV::OrI32]) + seq![InstrV::EqzI32] =~= acc2 + seq![InstrV::EqzI32, InstrV::OrI32, InstrV::EqzI32]);
        assert(acc2 + seq![InstrV::EqzI32, InstrV::OrI32, InstrV::EqzI32] =~= code_test_loopz(is_asize_32, x));
        assert(ctx_emits(pre, *ctx, code_test_loopz(is_asize_32, x)));
    }
}

/// Code of [`gen_test_jcxz`]: the counter register is zero.
pub open spec fn code_test_jcxz(asize_32: bool) -> Seq<InstrV> {
    (if asize_32 {
        code_get_reg32(arch::ECX)
    } else {
        code_get_reg16(arch::CX)
    }) + seq![InstrV::EqzI32]
}

/// Emit the JCXZ predicate: CX or ECX is zero.
pub fn gen_test_jcxz(ctx: &mut JitContext, is_asize_32: bool)
    requires
        old(ctx).wf(),
    ensures
        final(ctx).wf(),
        ctx_emits(*old(ctx), *final(ctx), code_test_jcxz(is_asize_32)),
        final(ctx).builder.next_local() == old(ctx).builder.next_local(),
{
    let ghost pre = *ctx;
    let ghost b0 = pre.builder;
    if is_asize_32 {
        gen_get_reg32(ctx, arch::ECX);
    } else {
        gen_get_reg16(ctx, arch::CX);
    }
    let ghost g = if is_asize_32 {
        code_get_reg32(arch::ECX)
    } else {
        code_get_reg16(arch::CX)
    };
    ctx.builder.eqz_i32();
    proof {
        lemma_push_onto_app(b0.frames_v(), g, seq![InstrV::EqzI32]);
    }
}

/// The helper function implementing condition nibble `n` of the x86
/// conditional encoding.
pub open spec fn cond_fn(n: u32) -> HostFn {
    if n == 0 {
        HostFn::TestO
    } else if n == 1 {
        HostFn::TestNo
    } else if n == 2 {
        HostFn::TestB
    } else if n == 3 {
        HostFn::TestNb
    } else if n == 4 {
        HostFn::TestZ
    } else if n == 5 {
        HostFn::TestNz
    } else if n == 6 {
        HostFn::TestBe
    } else if n == 7 {
        HostFn::TestNbe
    } else if n == 8 {
        HostFn::TestS
    } else if n == 9 {
        HostFn::TestNs
    } else if n == 10 {
        HostFn::TestP
    } else if n == 11 {
        HostFn::TestNp
    } else if n == 12 {
        HostFn::TestL
    } else if n == 13 {
        HostFn::TestNl
    } else if n == 14 {
        HostFn::TestLe
    } else {
        HostFn::TestNle
    }
}

/// The inline code for condition nibbles 2 through 7, which are
/// materialized from CF and ZF instead of calling a helper.
pub open spec fn code_condition_inline(n: u32, x1: u32, x2: u32, x3: u32) -> Seq<InstrV> {
    if n == 2 {
        code_getcf(x1, x2)
    } else if n == 3 {
        code_getcf(x1, x2) + seq![InstrV::EqzI32]
    } else if n == 4 {
        code_getzf(x3)
    } else if n == 5 {
        code_getzf(x3) + seq![InstrV::EqzI32]
    } else if n == 6 {
        code_test_be(x1, x2, x3)
    } else {
        code_test_be(x1, x2, x3) + seq![InstrV::EqzI32]
    }
}

/// Emit the predicate of condition code `condition`: a short jcc
/// condition (high nibble 0x0, 0x7 or 0x8, where the low nibble selects
/// the x86 condition), or one of the LOOP family (0xE0 through 0xE3).
pub fn gen_condition_fn(ctx: &mut JitContext, condition: u8)
    requires
        old(ctx).wf(),
        old(ctx).builder.room(3),
        (condition & 0xF0 == 0x00 || condition & 0xF0 == 0x70 || condition & 0xF0 == 0x80) || (
        0xE0 <= condition <= 0xE3),
    ensures
        final(ctx).wf(),
        (condition & 0xF0 == 0x00 || condition & 0xF0 == 0x70 || condition & 0xF0 == 0x80) ==> {
            let n = (condition & 0xF) as u32;
            if 2 <= n <= 7 {
                exists|x1: u32, x2: u32, x3: u32|
                    ctx_emits(*old(ctx), *final(ctx), #[trigger] code_condition_inline(n, x1, x2, x3))
            } else {
                ctx_emits(*old(ctx), *final(ctx), seq![InstrV::Call(cond_fn(n))])
            }
        },
        condition == 0xE0 ==> exists|x: u32|
            ctx_emits(*old(ctx), *final(ctx), #[trigger] code_test_loopnz(old(ctx).cpu.asize_32, x)),
        condition == 0xE1 ==> exists|x: u32|
            ctx_emits(*old(ctx), *final(ctx), #[trigger] code_test_loopz(old(ctx).cpu.asize_32, x)),
        condition == 0xE2 ==> ctx_emits(*old(ctx), *final(ctx), code_test_loop(old(ctx).cpu.asize_32)),
        condition == 0xE3 ==> ctx_emits(*old(ctx), *final(ctx), code_test_jcxz(old(ctx).cpu.asize_32)),
        final(ctx).builder.next_local() <= old(ctx).builder.next_local() + 3,
{
    let ghost pre = *ctx;
    let ghost b0 = pre.builder;
    if condition & 0xF0 == 0x00 || condition & 0xF0 == 0x70 || condition & 0xF0 == 0x80 {
        let n = condition & 0xF;
        proof {
            assert((condition & 0xF) < 16) by (bit_vector);
            assert((condition & 0xF0 == 0x00 || condition & 0xF0 == 0x70 || condition & 0xF0
                == 0x80) ==> !(0xE0 <= condition && condition <= 0xE3)) by (bit_vector);
        }
        if n == 2 {
            gen_getcf(&mut ctx.builder);
            proof {
                let (x1, x2) = choose|x1: u32, x2: u32|
                    !b0.is_live(x1) && !b0.is_live(x2) && x1 != x2 && emitted(
                        b0,
                        ctx.builder,
                        #[trigger] code_getcf(x1, x2),
                    );
                assert(ctx_emits(pre, *ctx, code_condition_inline(2, x1, x2, 0)));
            }
        } else if n == 3 {
            gen_getcf(&mut ctx.builder);
            let ghost b1 = ctx.builder;
            ctx.builder.eqz_i32();
            proof {
                let (x1, x2) = choose|x1: u32, x2: u32|
                    !b0.is_live(x1) && !b0.is_live(x2) && x1 != x2 && emitted(
                        b0,
                        b1,
                        #[trigger] code_getcf(x1, x2),
                    );
                lemma_push_onto_app(b0.frames_v(), code_getcf(x1, x2), seq![InstrV::EqzI32]);
                assert(ctx_emits(pre, *ctx, code_condition_inline(3, x1, x2, 0)));
            }
        } else if n == 4 {
            gen_getzf(&mut ctx.builder);
            proof {
                let x3 = choose|x3: u32|
                    !b0.is_live(x3) && emitted(b0, ctx.builder, #[trigger] code_getzf(x3));
                assert(ctx_emits(pre, *ctx, code_condition_inline(4, 0, 0, x3)));
            }
        } else if n == 5 {
            gen_getzf(&mut ctx.builder);
            let ghost b1 = ctx.builder;
            ctx.builder.eqz_i32();
            proof {
                let x3 = choose|x3: u32|
                    !b0.is_live(x3) && emitted(b0, b1, #[trigger] code_getzf(x3));
                lemma_push_onto_app(b0.frames_v(), code_getzf(x3), seq![InstrV::EqzI32]);
                assert(ctx_emits(pre, *ctx, code_condition_inline(5, 0, 0, x3)));
            }
        } else if n == 6 {
            gen_test_be(&mut ctx.builder);
            proof {
                let (x1, x2, x3) = choose|x1: u32, x2: u32, x3: u32|
                    emitted(b0, ctx.builder, #[trigger] code_test_be(x1, x2, x3));
                assert(ctx_emits(pre, *ctx, code_condition_inline(6, x1, x2, x3)));
            }
        } else if n == 7 {
            gen_test_be(&mut ctx.builder);
            let ghost b1 = ctx.builder;
            ctx.builder.eqz_i32();
            proof {
                let (x1, x2, x3) = choose|x1: u32, x2: u32, x3: u32|
                    emitted(b0, b1, #[trigger] code_test_be(x1, x2, x3));
                lemma_push_onto_app(b0.frames_v(), code_test_be(x1, x2, x3), seq![InstrV::EqzI32]);
                assert(ctx_emits(pre, *ctx, code_condition_inline(7, x1, x2, x3)));
            }
        } else {
            let f = if n == 0 {
                HostFn::TestO
            } else if n == 1 {
                HostFn::TestNo
            } else if n == 8 {
                HostFn::TestS
            } else if n == 9 {
                HostFn::TestNs
            } else if n == 10 {
                HostFn::TestP
            } else if n == 11 {
                HostFn::TestNp
            } else if n == 12 {
                HostFn::TestL
            } else if n == 13 {
                HostFn::TestNl
            } else if n == 14 {
                HostFn::TestLe
            } else {
                HostFn::TestNle
            };
            gen_fn0_const_ret(&mut ctx.builder, f);
            proof {
                assert(f == cond_fn((condition & 0xF) as u32));
            }
        }
    } else {
        // the LOOP family: loopnz, loopz, loop, jcxz
        if condition == 0xE0 {
            let a = ctx.cpu.asize_32();
            gen_test_loopnz(ctx, a);
        } else if condition == 0xE1 {
            let a = ctx.cpu.asize_32();
            gen_test_loopz(ctx, a);
        } else if condition == 0xE2 {
            let a = ctx.cpu.asize_32();
            gen_test_loop(ctx, a);
        } else {
            let a = ctx.cpu.asize_32();
            gen_test_jcxz(ctx, a);
        }
    }
}

/// A source operand for the lazy-flag state: a named local or an
/// immediate.
pub enum LocalOrImmediate {
    WasmLocal(HostLocal),
    Immediate(i32),
}

/// The instruction pushing a [`LocalOrImmediate`].
pub open spec fn push_src(source: LocalOrImmediate) -> InstrV {
    match source {
        LocalOrImmediate::WasmLocal(l) => InstrV::GetLocal(l.idx),
        LocalOrImmediate::Immediate(i) => InstrV::ConstI32(i as u32),
    }
}

/// Code storing a local into the 32-bit state cell at `addr`.
pub open spec fn code_set_cell_local(addr: u32, x: u32) -> Seq<InstrV> {
    seq![InstrV::ConstI32(addr), InstrV::GetLocal(x), InstrV::StoreI32(0)]
}

/// Code storing a constant into the 32-bit state cell at `addr`.
pub open spec fn code_set_cell_const(addr: u32, v: u32) -> Seq<InstrV> {
    seq![InstrV::ConstI32(addr), InstrV::ConstI32(v), InstrV::StoreI32(0)]
}

fn gen_set_cell_local(builder: &mut CodeBuilder, addr: u32, source: &HostLocal)
    requires
        old(builder).wf(),
        old(builder).is_live(source.idx),
    ensures
        final(builder).wf(),
        emitted(*old(builder), *final(builder), code_set_cell_local(addr, source.idx)),
        final(builder).next_local() == old(builder).next_local(),
        final(builder).free_list() == old(builder).free_list(),
        locals_same(*old(builder), *final(builder)),
        final(builder).depth() == old(builder).depth(),
{
    proof {
        lemma_cast_roundtrip_u32(addr);
    }
    builder.const_i32(addr as i32);
    builder.get_local(source);
    builder.store_aligned_i32(0);
    proof {
        lemma_push_onto_app(old(builder).frames_v(), seq![InstrV::ConstI32(addr)], seq![InstrV::GetLocal(source.idx)]);
        assert(seq![InstrV::ConstI32(addr)] + seq![InstrV::GetLocal(source.idx)] =~= seq![InstrV::ConstI32(addr), InstrV::GetLocal(source.idx)]);
        lemma_push_onto_app(old(builder).frames_v(), seq![InstrV::ConstI32(addr), InstrV::GetLocal(source.idx)], seq![InstrV::StoreI32(0)]);
        assert(seq![InstrV::ConstI32(addr), InstrV::GetLocal(source.idx)] + seq![InstrV::StoreI32(0)] =~= code_set_cell_local(addr, source.idx));
    }
}

fn gen_set_cell_const(builder: &mut CodeBuilder, addr: u32, v: i32)
    requires
        old(builder).wf(),
    ensures
        final(builder).wf(),
        emitted(*old(builder), *final(builder), code_set_cell_const(addr, v as u32)),
        final(builder).next_local() == old(builder).next_local(),
        final(builder).free_list() == old(builder).free_list(),
        locals_same(*old(builder), *final(builder)),
        final(builder).depth() == old(builder).depth(),
{
    proof {
        lemma_cast_roundtrip_u32(addr);
    }
    builder.const_i32(addr as i32);
    builder.const_i32(v);
    builder.store_aligned_i32(0);
    proof {
        lemma_push_onto_app(old(builder).frames_v(), seq![InstrV::ConstI32(addr)], seq![InstrV::ConstI32(v as u32)]);
        assert(seq![InstrV::ConstI32(addr)] + seq![InstrV::ConstI32(v as u32)] =~= seq![InstrV::ConstI32(addr), InstrV::ConstI32(v as u32)]);
        lemma_push_onto_app(old(builder).frames_v(), seq![InstrV::ConstI32(addr), InstrV::ConstI32(v as u32)], seq![InstrV::StoreI32(0)]);
        assert(seq![InstrV::ConstI32(addr), InstrV::ConstI32(v as u32)] + seq![InstrV::StoreI32(0)] =~= code_set_cell_const(addr, v as u32));
    }
}

/// Record the first operand of the last flag-writing operation.
pub fn gen_set_last_op1(builder: &mut CodeBuilder, source: &HostLocal)
    requires
        old(builder).wf(),
        old(builder).is_live(source.idx),
    ensures
        final(builder).wf(),
        emitted(*old(builder), *final(builder), code_set_cell_local(layout::LAST_OP1, source.idx)),
        final(builder).next_local() == old(builder).next_local(),
        locals_same(*old(builder), *final(builder)),
        final(builder).depth() == old(builder).depth(),
{
    gen_set_cell_local(builder, layout::LAST_OP1, source);
}

/// Record the second operand of the last flag-writing operation.
pub fn gen_set_last_op2(builder: &mut CodeBuilder, source: &LocalOrImmediate)
    requires
        old(builder).wf(),
        (source is WasmLocal) ==> old(builder).is_live(source->WasmLocal_0.idx),
    ensures
        final(builder).wf(),
        emitted(
            *old(builder),
            *final(builder),
            seq![InstrV::ConstI32(layout::LAST_OP2), push_src(*source), InstrV::StoreI32(0)],
        ),
        final(builder).next_local() == old(builder).next_local(),
        locals_same(*old(builder), *final(builder)),
        final(builder).depth() == old(builder).depth(),
{
    match source {
        LocalOrImmediate::WasmLocal(l) => {
            gen_set_cell_local(builder, layout::LAST_OP2, l);
        },
        LocalOrImmediate::Immediate(i) => {
            gen_set_cell_const(builder, layout::LAST_OP2, *i);
        },
    }
}

/// Record the addition-form result of the last flag-writing operation.
pub fn gen_set_last_add_result(builder: &mut CodeBuilder, source: &HostLocal)
    requires
        old(builder).wf(),
        old(builder).is_live(source.idx),
    ensures
        final(builder).wf(),
        emitted(
            *old(builder),
            *final(builder),
            code_set_cell_local(layout::LAST_ADD_RESULT, source.idx),
        ),
        final(builder).next_local() == old(builder).next_local(),
        locals_same(*old(builder), *final(builder)),
        final(builder).depth() == old(builder).depth(),
{
    gen_set_cell_local(builder, layout::LAST_ADD_RESULT, source);
}

/// Record the result of the last flag-writing operation.
pub fn gen_set_last_result(builder: &mut CodeBuilder, source: &HostLocal)
    requires
        old(builder).wf(),
        old(builder).is_live(source.idx),
    ensures
        final(builder).wf(),
        emitted(
            *old(builder),
            *final(builder),
            code_set_cell_local(layout::LAST_RESULT, source.idx),
        ),
        final(builder).next_local() == old(builder).next_local(),
        locals_same(*old(builder), *final(builder)),
        final(builder).depth() == old(builder).depth(),
{
    gen_set_cell_local(builder, layout::LAST_RESULT, source);
}

/// Record the bit index of the sign bit of the last flag-writing
/// operation (7, 15 or 31).
pub fn gen_set_last_op_size(builder: &mut CodeBuilder, value: i32)
    requires
        old(builder).wf(),
    ensures
        final(builder).wf(),
        emitted(
            *old(builder),
            *final(builder),
            code_set_cell_const(layout::LAST_OP_SIZE, value as u32),
        ),
        final(builder).next_local() == old(builder).next_local(),
        locals_same(*old(builder), *final(builder)),
        final(builder).depth() == old(builder).depth(),
{
    gen_set_cell_const(builder, layout::LAST_OP_SIZE, value);
}

/// Mark which flags must be recomputed from the recorded state.
pub fn gen_set_flags_changed(builder: &mut CodeBuilder, value: i32)
    requires
        old(builder).wf(),
    ensures
        final(builder).wf(),
        emitted(
            *old(builder),
            *final(builder),
            code_set_cell_const(layout::FLAGS_CHANGED, value as u32),
        ),
        final(builder).next_local() == old(builder).next_local(),
        locals_same(*old(builder), *final(builder)),
        final(builder).depth() == old(builder).depth(),
{
    gen_set_cell_const(builder, layout::FLAGS_CHANGED, value);
}

/// Code of [`gen_set_flags_bits`]: or bits into the architectural flags.
pub open spec fn code_set_flags_bits(bits_to_set: u32) -> Seq<InstrV> {
    seq![
        InstrV::ConstI32(layout::FLAGS),
        InstrV::LoadI32At(layout::FLAGS),
        InstrV::ConstI32(bits_to_set),
        InstrV::OrI32,
        InstrV::StoreI32(0),
    ]
}

/// Set bits in the architectural flags word.
pub fn gen_set_flags_bits(builder: &mut CodeBuilder, bits_to_set: i32)
    requires
        old(builder).wf(),
    ensures
        final(builder).wf(),
        emitted(*old(builder), *final(builder), code_set_flags_bits(bits_to_set as u32)),
        final(builder).next_local() == old(builder).next_local(),
        locals_same(*old(builder), *final(builder)),
        final(builder).depth() == old(builder).depth(),
{
    builder.const_i32(layout::FLAGS as i32);
    builder.load_aligned_i32(layout::FLAGS);
    builder.const_i32(bits_to_set);
    builder.or_i32();
    builder.store_aligned_i32(0);
    proof {
        let fs = old(builder).frames_v();
        lemma_push_onto_app(fs, seq![InstrV::ConstI32(layout::FLAGS)], seq![InstrV::LoadI32At(layout::FLAGS)]);
        assert(seq![InstrV::ConstI32(layout::FLAGS)] + seq![InstrV::LoadI32At(layout::FLAGS)] =~= seq![InstrV::ConstI32(layout::FLAGS), InstrV::LoadI32At(layout::FLAGS)]);
        lemma_push_onto_app(fs, seq![InstrV::ConstI32(layout::FLAGS), InstrV::LoadI32At(layout::FLAGS)], seq![InstrV::ConstI32(bits_to_set as u32)]);
        assert(seq![InstrV::ConstI32(layout::FLAGS), InstrV::LoadI32At(layout::FLAGS)] + seq![InstrV::ConstI32(bits_to_set as u32)] =~= seq![InstrV::ConstI32(layout::FLAGS), InstrV::LoadI32At(layout::FLAGS), InstrV::ConstI32(bits_to_set as u32)]);
        lemma_push_onto_app(fs, seq![InstrV::ConstI32(layout::FLAGS), InstrV::LoadI32At(layout::FLAGS), InstrV::ConstI32(bits_to_set as u32)], seq![InstrV::OrI32]);
        assert(seq![InstrV::ConstI32(layout::FLAGS), InstrV::LoadI32At(layout::FLAGS), InstrV::ConstI32(bits_to_set as u32)] + seq![InstrV::OrI32] =~= seq![InstrV::ConstI32(layout::FLAGS), InstrV::LoadI32At(layout::FLAGS), InstrV::ConstI32(bits_to_set as u32), InstrV::OrI32]);
        lemma_push_onto_app(fs, seq![InstrV::ConstI32(layout::FLAGS), InstrV::LoadI32At(layout::FLAGS), InstrV::ConstI32(bits_to_set as u32), InstrV::OrI32], seq![InstrV::StoreI32(0)]);
        assert(seq![InstrV::ConstI32(layout::FLAGS), InstrV::LoadI32At(layout::FLAGS), InstrV::ConstI32(bits_to_set as u32), InstrV::OrI32] + seq![InstrV::StoreI32(0)] =~= code_set_flags_bits(bits_to_set as u32));
    }
}

/// Code of [`gen_clear_flags_bits`]: clear bits in the architectural
/// flags.
pub open spec fn code_clear_flags_bits(mask_kept: u32) -> Seq<InstrV> {
    seq![
        InstrV::ConstI32(layout::FLAGS),
        InstrV::LoadI32At(layout::FLAGS),
        InstrV::ConstI32(mask_kept),
        InstrV::AndI32,
        InstrV::StoreI32(0),
    ]
}

/// Clear bits in the architectural flags word.
pub fn gen_clear_flags_bits(builder: &mut CodeBuilder, bits_to_clear: i32)
    requires
        old(builder).wf(),
    ensures
        final(builder).wf(),
        emitted(*old(builder), *final(builder), code_clear_flags_bits((!bits_to_clear) as u32)),
        final(builder).next_local() == old(builder).next_local(),
        locals_same(*old(builder), *final(builder)),
        final(builder).depth() == old(builder).depth(),
{
    builder.const_i32(layout::FLAGS as i32);
    builder.load_aligned_i32(layout::FLAGS);
    builder.const_i32(!bits_to_clear);
    builder.and_i32();
    builder.store_aligned_i32(0);
    proof {
        let fs = old(builder).frames_v();
        let mk = (!bits_to_clear) as u32;
        lemma_push_onto_app(fs, seq![InstrV::ConstI32(layout::FLAGS)], seq![InstrV::LoadI32At(layout::FLAGS)]);
        assert(seq![InstrV::ConstI32(layout::FLAGS)] + seq![InstrV::LoadI32At(layout::FLAGS)] =~= seq![InstrV::ConstI32(layout::FLAGS), InstrV::LoadI32At(layout::FLAGS)]);
        lemma_push_onto_app(fs, seq![InstrV::ConstI32(layout::FLAGS), InstrV::LoadI32At(layout::FLAGS)], seq![InstrV::ConstI32(mk)]);
        assert(seq![InstrV::ConstI32(layout::FLAGS), InstrV::LoadI32At(layout::FLAGS)] + seq![InstrV::ConstI32(mk)] =~= seq![InstrV::ConstI32(layout::FLAGS), InstrV::LoadI32At(layout::FLAGS), InstrV::ConstI32(mk)]);
        lemma_push_onto_app(fs, seq![InstrV::ConstI32(layout::FLAGS), InstrV::LoadI32At(layout::FLAGS), InstrV::ConstI32(mk)], seq![InstrV::AndI32]);
        assert(seq![InstrV::ConstI32(layout::FLAGS), InstrV::LoadI32At(layout::FLAGS), InstrV::ConstI32(mk)] + seq![InstrV::AndI32] =~= seq![InstrV::ConstI32(layout::FLAGS), InstrV::LoadI32At(layout::FLAGS), InstrV::ConstI32(mk), InstrV::AndI32]);
        lemma_push_onto_app(fs, seq![InstrV::ConstI32(layout::FLAGS), InstrV::LoadI32At(layout::FLAGS), InstrV::ConstI32(mk), InstrV::AndI32], seq![InstrV::StoreI32(0)]);
        assert(seq![InstrV::ConstI32(layout::FLAGS), InstrV::LoadI32At(layout::FLAGS), InstrV::ConstI32(mk), InstrV::AndI32] + seq![InstrV::StoreI32(0)] =~= code_clear_flags_bits(mk));
    }
}

} // verus!
