//! Stack operation emitters: push, pop, stack-pointer adjustment and
//! `LEAVE`, parameterized on the stack-size attribute and on whether the
//! stack segment is flat.
//!
//! The effective address is the raw stack pointer under flat segmented
//! addressing, or the SS base plus the (16-bit masked, when `ssize_32` is
//! false) stack pointer otherwise.  A push pre-decrements the stack
//! pointer, a pop post-increments it.  When the stack is 32-bit and flat,
//! push passes the decremented ESP directly as the address local, saving
//! the address materialization on a hot path.

use vstd::prelude::*;
use crate::arch;
use crate::layout;
use crate::layout::seg_off;
use crate::builder::{HostLocal, emitted, lemma_push_onto_app};
use crate::ctx::{JitContext, ctx_emits};
use crate::isa::{InstrV, lemma_cast_roundtrip_u32};
use crate::emit_basic::{
    code_get_reg16, code_get_reg32, code_set_reg16, code_set_reg32, gen_get_reg16, gen_get_reg32,
    gen_set_reg16, gen_set_reg32,
};
use crate::emit_mem::{
    BitSize, WriteValV, code_safe_read, code_safe_write, gen_safe_read16, gen_safe_read32,
    gen_safe_write16, gen_safe_write32,
};

verus! {

/// Rebase an address on the SS segment, unless segmentation is flat.
pub open spec fn code_seg_add(flat: bool, r: u32) -> Seq<InstrV> {
    if flat {
        Seq::<InstrV>::empty()
    } else {
        seq![InstrV::LoadI32At(seg_off(r) as u32), InstrV::AddI32]
    }
}

/// Code of [`gen_pop16_ss16`]: read 16 bits at `SS:SP`, then `SP += 2`.
pub open spec fn code_pop16_ss16(
    cpl3: bool,
    flat: bool,
    addr_l: u32,
    e: u32,
    start_low: u32,
    depth: u32,
) -> Seq<InstrV> {
    code_get_reg16(arch::SP) + code_seg_add(flat, arch::SS) + seq![InstrV::SetLocal(addr_l)]
        + code_safe_read(BitSize::Word, cpl3, addr_l, e, e, 0, start_low, depth) + code_get_reg16(
        arch::SP,
    ) + seq![InstrV::ConstI32(2), InstrV::AddI32] + code_set_reg16(arch::SP)
}

/// Code of [`gen_pop16_ss32`]: read 16 bits at `SS:ESP`, then `ESP += 2`.
pub open spec fn code_pop16_ss32(
    cpl3: bool,
    flat: bool,
    addr_l: u32,
    e: u32,
    start_low: u32,
    depth: u32,
) -> Seq<InstrV> {
    code_get_reg32(arch::ESP) + code_seg_add(flat, arch::SS) + seq![InstrV::SetLocal(addr_l)]
        + code_safe_read(BitSize::Word, cpl3, addr_l, e, e, 0, start_low, depth) + code_get_reg32(
        arch::ESP,
    ) + seq![InstrV::ConstI32(2), InstrV::AddI32] + code_set_reg32(arch::ESP)
}

/// Code of [`gen_pop32s_ss16`]: read 32 bits at `SS:SP`, then `SP += 4`.
pub open spec fn code_pop32s_ss16(
    cpl3: bool,
    flat: bool,
    addr_l: u32,
    e: u32,
    start_low: u32,
    depth: u32,
) -> Seq<InstrV> {
    code_get_reg16(arch::SP) + code_seg_add(flat, arch::SS) + seq![InstrV::SetLocal(addr_l)]
        + code_safe_read(BitSize::Dword, cpl3, addr_l, e, e, 0, start_low, depth) + code_get_reg16(
        arch::SP,
    ) + seq![InstrV::ConstI32(4), InstrV::AddI32] + code_set_reg16(arch::SP)
}

/// Code of [`gen_pop32s_ss32`] when segmentation is not flat.
pub open spec fn code_pop32s_ss32_seg(
    cpl3: bool,
    addr_l: u32,
    e: u32,
    start_low: u32,
    depth: u32,
) -> Seq<InstrV> {
    code_get_reg32(arch::ESP) + code_seg_add(false, arch::SS) + seq![InstrV::SetLocal(addr_l)]
        + code_safe_read(BitSize::Dword, cpl3, addr_l, e, e, 0, start_low, depth) + code_get_reg32(
        arch::ESP,
    ) + seq![InstrV::ConstI32(4), InstrV::AddI32] + code_set_reg32(arch::ESP)
}

/// Code of [`gen_pop32s_ss32`] when segmentation is flat: the ESP
/// register local itself serves as the address local.
pub open spec fn code_pop32s_ss32_flat(cpl3: bool, e: u32, start_low: u32, depth: u32) -> Seq<
    InstrV,
> {
    code_safe_read(BitSize::Dword, cpl3, arch::ESP, e, e, 0, start_low, depth) + code_get_reg32(
        arch::ESP,
    ) + seq![InstrV::ConstI32(4), InstrV::AddI32] + code_set_reg32(arch::ESP)
}

/// Emit POP of a 16-bit value under a 16-bit stack-size attribute.
pub fn gen_pop16_ss16(ctx: &mut JitContext)
    requires
        old(ctx).wf(),
        old(ctx).builder.room(3),
        old(ctx).current_brtable_depth >= 2,
    ensures
        final(ctx).wf(),
        exists|addr_l: u32, e: u32|
            !old(ctx).builder.is_live(addr_l) && !old(ctx).builder.is_live(e) && addr_l != e
                && ctx_emits(
                *old(ctx),
                *final(ctx),
                #[trigger] code_pop16_ss16(
                    old(ctx).cpu.cpl3,
                    old(ctx).cpu.has_flat_segmentation,
                    addr_l,
                    e,
                    (old(ctx).start_of_current_instruction & 0xFFF) as u32,
                    old(ctx).current_brtable_depth,
                ),
            ),
        final(ctx).builder.next_local() <= old(ctx).builder.next_local() + 3,
{
    let ghost pre = *ctx;
    let ghost b0 = pre.builder;
    let ghost start_low = (pre.start_of_current_instruction & 0xFFF) as u32;
    let ghost depth = pre.current_brtable_depth;
    let ghost flat = pre.cpu.has_flat_segmentation;

    // sp = segment_offsets[SS] + reg16[SP] (or just reg16[SP] when flat)
    gen_get_reg16(ctx, arch::SP);
    if !ctx.cpu.has_flat_segmentation() {
        ctx.builder.load_aligned_i32(layout::get_seg_offset(arch::SS));
        ctx.builder.add_i32();
        proof {
            lemma_push_onto_app(b0.frames_v(), code_get_reg16(arch::SP), seq![InstrV::LoadI32At(seg_off(arch::SS) as u32)]);
            lemma_push_onto_app(b0.frames_v(), code_get_reg16(arch::SP) + seq![InstrV::LoadI32At(seg_off(arch::SS) as u32)], seq![InstrV::AddI32]);
            assert((code_get_reg16(arch::SP) + seq![InstrV::LoadI32At(seg_off(arch::SS) as u32)]) + seq![InstrV::AddI32] =~= code_get_reg16(arch::SP) + code_seg_add(flat, arch::SS));
        }
    } else {
        proof {
            assert(code_get_reg16(arch::SP) + code_seg_add(flat, arch::SS) =~= code_get_reg16(arch::SP));
        }
    }
    let ghost acc1 = code_get_reg16(arch::SP) + code_seg_add(flat, arch::SS);
    // result = safe_read16(sp)
    let address_local = ctx.builder.set_new_local();
    let ghost addr_l = address_local.idx;
    proof {
        lemma_push_onto_app(b0.frames_v(), acc1, seq![InstrV::SetLocal(addr_l)]);
    }
    let ghost acc2 = acc1 + seq![InstrV::SetLocal(addr_l)];
    let ghost b2 = ctx.builder;
    gen_safe_read16(ctx, &address_local);
    proof {
        let (e, v) = choose|e: u32, v: u32|
            !b2.is_live(e) && ctx_emits(
                JitContext { builder: b2, ..pre },
                *ctx,
                #[trigger] code_safe_read(BitSize::Word, pre.cpu.cpl3, addr_l, e, v, 0, start_low, depth),
            );
        assert(code_safe_read(BitSize::Word, pre.cpu.cpl3, addr_l, e, v, 0, start_low, depth)
            == code_safe_read(BitSize::Word, pre.cpu.cpl3, addr_l, e, e, 0, start_low, depth));
        lemma_push_onto_app(b0.frames_v(), acc2, code_safe_read(BitSize::Word, pre.cpu.cpl3, addr_l, e, e, 0, start_low, depth));
        assert(emitted(b0, ctx.builder, acc2 + code_safe_read(BitSize::Word, pre.cpu.cpl3, addr_l, e, e, 0, start_low, depth)));
    }
    ctx.builder.free_local(address_local);
    let ghost e = choose|e: u32|
        !b2.is_live(e) && emitted(
            b0,
            ctx.builder,
            acc2 + code_safe_read(BitSize::Word, pre.cpu.cpl3, addr_l, e, e, 0, start_low, depth),
        );
    let ghost acc3 = acc2 + code_safe_read(BitSize::Word, pre.cpu.cpl3, addr_l, e, e, 0, start_low, depth);
    // reg16[SP] += 2
    gen_get_reg16(ctx, arch::SP);
    proof {
        lemma_push_onto_app(b0.frames_v(), acc3, code_get_reg16(arch::SP));
    }
    let ghost acc4 = acc3 + code_get_reg16(arch::SP);
    ctx.builder.const_i32(2);
    ctx.builder.add_i32();
    proof {
        lemma_push_onto_app(b0.frames_v(), acc4, seq![InstrV::ConstI32(2)]);
        lemma_push_onto_app(b0.frames_v(), acc4 + seq![InstrV::ConstI32(2)], seq![InstrV::AddI32]);
        assert((acc4 + seq![InstrV::ConstI32(2)]) + seq![InstrV::AddI32] =~= acc4 + seq![InstrV::ConstI32(2), InstrV::AddI32]);
    }
    let ghost acc5 = acc4 + seq![InstrV::ConstI32(2), InstrV::AddI32];
    gen_set_reg16(ctx, arch::SP);
    proof {
        lemma_push_onto_app(b0.frames_v(), acc5, code_set_reg16(arch::SP));
        assert(acc5 + code_set_reg16(arch::SP) =~= code_pop16_ss16(pre.cpu.cpl3, flat, addr_l, e, start_low, depth));
        assert(!b0.is_live(addr_l) && !b0.is_live(e) && addr_l != e && ctx_emits(
            pre,
            *ctx,
            code_pop16_ss16(pre.cpu.cpl3, flat, addr_l, e, start_low, depth),
        ));
    }
    // return value is already on the stack
}

/// Emit POP of a 16-bit value under a 32-bit stack-size attribute.
pub fn gen_pop16_ss32(ctx: &mut JitContext)
    requires
        old(ctx).wf(),
        old(ctx).builder.room(3),
        old(ctx).current_brtable_depth >= 2,
    ensures
        final(ctx).wf(),
        exists|addr_l: u32, e: u32|
            !old(ctx).builder.is_live(addr_l) && !old(ctx).builder.is_live(e) && addr_l != e
                && ctx_emits(
                *old(ctx),
                *final(ctx),
                #[trigger] code_pop16_ss32(
                    old(ctx).cpu.cpl3,
                    old(ctx).cpu.has_flat_segmentation,
                    addr_l,
                    e,
                    (old(ctx).start_of_current_instruction & 0xFFF) as u32,
                    old(ctx).current_brtable_depth,
                ),
            ),
        final(ctx).builder.next_local() <= old(ctx).builder.next_local() + 3,
{
    let ghost pre = *ctx;
    let ghost b0 = pre.builder;
    let ghost start_low = (pre.start_of_current_instruction & 0xFFF) as u32;
    let ghost depth = pre.current_brtable_depth;
    let ghost flat = pre.cpu.has_flat_segmentation;

    // address = segment_offsets[SS] + stack pointer (or the raw stack
    // pointer when flat)
    gen_get_reg32(ctx, arch::ESP);
    if !ctx.cpu.has_flat_segmentation() {
        ctx.builder.load_aligned_i32(layout::get_seg_offset(arch::SS));
        ctx.builder.add_i32();
        proof {
            lemma_push_onto_app(b0.frames_v(), code_get_reg32(arch::ESP), seq![InstrV::LoadI32At(seg_off(arch::SS) as u32)]);
            lemma_push_onto_app(b0.frames_v(), code_get_reg32(arch::ESP) + seq![InstrV::LoadI32At(seg_off(arch::SS) as u32)], seq![InstrV::AddI32]);
            assert((code_get_reg32(arch::ESP) + seq![InstrV::LoadI32At(seg_off(arch::SS) as u32)]) + seq![InstrV::AddI32] =~= code_get_reg32(arch::ESP) + code_seg_add(flat, arch::SS));
        }
    } else {
        proof {
            assert(code_get_reg32(arch::ESP) + code_seg_add(flat, arch::SS) =~= code_get_reg32(arch::ESP));
        }
    }
    let ghost acc1 = code_get_reg32(arch::ESP) + code_seg_add(flat, arch::SS);
    // result = safe_read16(address)
    let address_local = ctx.builder.set_new_local();
    let ghost addr_l = address_local.idx;
    proof {
        lemma_push_onto_app(b0.frames_v(), acc1, seq![InstrV::SetLocal(addr_l)]);
    }
    let ghost acc2 = acc1 + seq![InstrV::SetLocal(addr_l)];
    let ghost b2 = ctx.builder;
    gen_safe_read16(ctx, &address_local);
    proof {
        let (e, v) = choose|e: u32, v: u32|
            !b2.is_live(e) && ctx_emits(
                JitContext { builder: b2, ..pre },
                *ctx,
                #[trigger] code_safe_read(BitSize::Word, pre.cpu.cpl3, addr_l, e, v, 0, start_low, depth),
            );
        assert(code_safe_read(BitSize::Word, pre.cpu.cpl3, addr_l, e, v, 0, start_low, depth)
            == code_safe_read(BitSize::Word, pre.cpu.cpl3, addr_l, e, e, 0, start_low, depth));
        lemma_push_onto_app(b0.frames_v(), acc2, code_safe_read(BitSize::Word, pre.cpu.cpl3, addr_l, e, e, 0, start_low, depth));
        assert(emitted(b0, ctx.builder, acc2 + code_safe_read(BitSize::Word, pre.cpu.cpl3, addr_l, e, e, 0, start_low, depth)));
    }
    ctx.builder.free_local(address_local);
    let ghost e = choose|e: u32|
        !b2.is_live(e) && emitted(
            b0,
            ctx.builder,
            acc2 + code_safe_read(BitSize::Word, pre.cpu.cpl3, addr_l, e, e, 0, start_low, depth),
        );
    let ghost acc3 = acc2 + code_safe_read(BitSize::Word, pre.cpu.cpl3, addr_l, e, e, 0, start_low, depth);
    // stack pointer += 2
    gen_get_reg32(ctx, arch::ESP);
    proof {
        lemma_push_onto_app(b0.frames_v(), acc3, code_get_reg32(arch::ESP));
    }
    let ghost acc4 = acc3 + code_get_reg32(arch::ESP);
    ctx.builder.const_i32(2);
    ctx.builder.add_i32();
    proof {
        lemma_push_onto_app(b0.frames_v(), acc4, seq![InstrV::ConstI32(2)]);
        lemma_push_onto_app(b0.frames_v(), acc4 + seq![InstrV::ConstI32(2)], seq![InstrV::AddI32]);
        assert((acc4 + seq![InstrV::ConstI32(2)]) + seq![InstrV::AddI32] =~= acc4 + seq![InstrV::ConstI32(2), InstrV::AddI32]);
    }
    let ghost acc5 = acc4 + seq![InstrV::ConstI32(2), InstrV::AddI32];
    gen_set_reg32(ctx, arch::ESP);
    proof {
        lemma_push_onto_app(b0.frames_v(), acc5, code_set_reg32(arch::ESP));
        assert(acc5 + code_set_reg32(arch::ESP) =~= code_pop16_ss32(pre.cpu.cpl3, flat, addr_l, e, start_low, depth));
        assert(!b0.is_live(addr_l) && !b0.is_live(e) && addr_l != e && ctx_emits(
            pre,
            *ctx,
            code_pop16_ss32(pre.cpu.cpl3, flat, addr_l, e, start_low, depth),
        ));
    }
    // return value is already on the stack
}

/// Emit POP of a 32-bit value under a 16-bit stack-size attribute.
pub fn gen_pop32s_ss16(ctx: &mut JitContext)
    requires
        old(ctx).wf(),
        old(ctx).builder.room(3),
        old(ctx).current_brtable_depth >= 2,
    ensures
        final(ctx).wf(),
        exists|addr_l: u32, e: u32|
            !old(ctx).builder.is_live(addr_l) && !old(ctx).builder.is_live(e) && addr_l != e
                && ctx_emits(
                *old(ctx),
                *final(ctx),
                #[trigger] code_pop32s_ss16(
                    old(ctx).cpu.cpl3,
                    old(ctx).cpu.has_flat_segmentation,
                    addr_l,
                    e,
                    (old(ctx).start_of_current_instruction & 0xFFF) as u32,
                    old(ctx).current_brtable_depth,
                ),
            ),
        final(ctx).builder.next_local() <= old(ctx).builder.next_local() + 3,
{
    let ghost pre = *ctx;
    let ghost b0 = pre.builder;
    let ghost start_low = (pre.start_of_current_instruction & 0xFFF) as u32;
    let ghost depth = pre.current_brtable_depth;
    let ghost flat = pre.cpu.has_flat_segmentation;

    // address = segment_offsets[SS] + stack pointer (or the raw stack
    // pointer when flat)
    gen_get_reg16(ctx, arch::SP);
    if !ctx.cpu.has_flat_segmentation() {
        ctx.builder.load_aligned_i32(layout::get_seg_offset(arch::SS));
        ctx.builder.add_i32();
        proof {
            lemma_push_onto_app(b0.frames_v(), code_get_reg16(arch::SP), seq![InstrV::LoadI32At(seg_off(arch::SS) as u32)]);
            lemma_push_onto_app(b0.frames_v(), code_get_reg16(arch::SP) + seq![InstrV::LoadI32At(seg_off(arch::SS) as u32)], seq![InstrV::AddI32]);
            assert((code_get_reg16(arch::SP) + seq![InstrV::LoadI32At(seg_off(arch::SS) as u32)]) + seq![InstrV::AddI32] =~= code_get_reg16(arch::SP) + code_seg_add(flat, arch::SS));
        }
    } else {
        proof {
            assert(code_get_reg16(arch::SP) + code_seg_add(flat, arch::SS) =~= code_get_reg16(arch::SP));
        }
    }
    let ghost acc1 = code_get_reg16(arch::SP) + code_seg_add(flat, arch::SS);
    // result = safe_read32(address)
    let address_local = ctx.builder.set_new_local();
    let ghost addr_l = address_local.idx;
    proof {
        lemma_push_onto_app(b0.frames_v(), acc1, seq![InstrV::SetLocal(addr_l)]);
    }
    let ghost acc2 = acc1 + seq![InstrV::SetLocal(addr_l)];
    let ghost b2 = ctx.builder;
    gen_safe_read32(ctx, &address_local);
    proof {
        let (e, v) = choose|e: u32, v: u32|
            !b2.is_live(e) && ctx_emits(
                JitContext { builder: b2, ..pre },
                *ctx,
                #[trigger] code_safe_read(BitSize::Dword, pre.cpu.cpl3, addr_l, e, v, 0, start_low, depth),
            );
        assert(code_safe_read(BitSize::Dword, pre.cpu.cpl3, addr_l, e, v, 0, start_low, depth)
            == code_safe_read(BitSize::Dword, pre.cpu.cpl3, addr_l, e, e, 0, start_low, depth));
        lemma_push_onto_app(b0.frames_v(), acc2, code_safe_read(BitSize::Dword, pre.cpu.cpl3, addr_l, e, e, 0, start_low, depth));
        assert(emitted(b0, ctx.builder, acc2 + code_safe_read(BitSize::Dword, pre.cpu.cpl3, addr_l, e, e, 0, start_low, depth)));
    }
    ctx.builder.free_local(address_local);
    let ghost e = choose|e: u32|
        !b2.is_live(e) && emitted(
            b0,
            ctx.builder,
            acc2 + code_safe_read(BitSize::Dword, pre.cpu.cpl3, addr_l, e, e, 0, start_low, depth),
        );
    let ghost acc3 = acc2 + code_safe_read(BitSize::Dword, pre.cpu.cpl3, addr_l, e, e, 0, start_low, depth);
    // stack pointer += 4
    gen_get_reg16(ctx, arch::SP);
    proof {
        lemma_push_onto_app(b0.frames_v(), acc3, code_get_reg16(arch::SP));
    }
    let ghost acc4 = acc3 + code_get_reg16(arch::SP);
    ctx.builder.const_i32(4);
    ctx.builder.add_i32();
    proof {
        lemma_push_onto_app(b0.frames_v(), acc4, seq![InstrV::ConstI32(4)]);
        lemma_push_onto_app(b0.frames_v(), acc4 + seq![InstrV::ConstI32(4)], seq![InstrV::AddI32]);
        assert((acc4 + seq![InstrV::ConstI32(4)]) + seq![InstrV::AddI32] =~= acc4 + seq![InstrV::ConstI32(4), InstrV::AddI32]);
    }
    let ghost acc5 = acc4 + seq![InstrV::ConstI32(4), InstrV::AddI32];
    gen_set_reg16(ctx, arch::SP);
    proof {
        lemma_push_onto_app(b0.frames_v(), acc5, code_set_reg16(arch::SP));
        assert(acc5 + code_set_reg16(arch::SP) =~= code_pop32s_ss16(pre.cpu.cpl3, flat, addr_l, e, start_low, depth));
        assert(!b0.is_live(addr_l) && !b0.is_live(e) && addr_l != e && ctx_emits(
            pre,
            *ctx,
            code_pop32s_ss16(pre.cpu.cpl3, flat, addr_l, e, start_low, depth),
        ));
    }
    // return value is already on the stack
}

/// Emit POP of a 32-bit value under a 32-bit stack-size attribute.  When
/// segmentation is flat the ESP register local itself serves as the
/// address local.
pub fn gen_pop32s_ss32(ctx: &mut JitContext)
    requires
        old(ctx).wf(),
        old(ctx).builder.room(3),
        old(ctx).current_brtable_depth >= 2,
    ensures
        final(ctx).wf(),
        old(ctx).cpu.has_flat_segmentation ==> exists|e: u32|
            !old(ctx).builder.is_live(e) && ctx_emits(
                *old(ctx),
                *final(ctx),
                #[trigger] code_pop32s_ss32_flat(
                    old(ctx).cpu.cpl3,
                    e,
                    (old(ctx).start_of_current_instruction & 0xFFF) as u32,
                    old(ctx).current_brtable_depth,
                ),
            ),
        !old(ctx).cpu.has_flat_segmentation ==> exists|addr_l: u32, e: u32|
            !old(ctx).builder.is_live(addr_l) && !old(ctx).builder.is_live(e) && addr_l != e
                && ctx_emits(
                *old(ctx),
                *final(ctx),
                #[trigger] code_pop32s_ss32_seg(
                    old(ctx).cpu.cpl3,
                    addr_l,
                    e,
                    (old(ctx).start_of_current_instruction & 0xFFF) as u32,
                    old(ctx).current_brtable_depth,
                ),
            ),
        final(ctx).builder.next_local() <= old(ctx).builder.next_local() + 3,
{
    let ghost pre = *ctx;
    let ghost b0 = pre.builder;
    let ghost start_low = (pre.start_of_current_instruction & 0xFFF) as u32;
    let ghost depth = pre.current_brtable_depth;

    if !ctx.cpu.has_flat_segmentation() {
        gen_get_reg32(ctx, arch::ESP);
        ctx.builder.load_aligned_i32(layout::get_seg_offset(arch::SS));
        ctx.builder.add_i32();
        proof {
            lemma_push_onto_app(b0.frames_v(), code_get_reg32(arch::ESP), seq![InstrV::LoadI32At(seg_off(arch::SS) as u32)]);
            lemma_push_onto_app(b0.frames_v(), code_get_reg32(arch::ESP) + seq![InstrV::LoadI32At(seg_off(arch::SS) as u32)], seq![InstrV::AddI32]);
            assert((code_get_reg32(arch::ESP) + seq![InstrV::LoadI32At(seg_off(arch::SS) as u32)]) + seq![InstrV::AddI32] =~= code_get_reg32(arch::ESP) + code_seg_add(false, arch::SS));
        }
        let ghost acc1 = code_get_reg32(arch::ESP) + code_seg_add(false, arch::SS);
        let address_local = ctx.builder.set_new_local();
        let ghost addr_l = address_local.idx;
        proof {
            lemma_push_onto_app(b0.frames_v(), acc1, seq![InstrV::SetLocal(addr_l)]);
        }
        let ghost acc2 = acc1 + seq![InstrV::SetLocal(addr_l)];
        let ghost b2 = ctx.builder;
        gen_safe_read32(ctx, &address_local);
        proof {
            let (e, v) = choose|e: u32, v: u32|
                !b2.is_live(e) && ctx_emits(
                    JitContext { builder: b2, ..pre },
                    *ctx,
                    #[trigger] code_safe_read(BitSize::Dword, pre.cpu.cpl3, addr_l, e, v, 0, start_low, depth),
                );
            assert(code_safe_read(BitSize::Dword, pre.cpu.cpl3, addr_l, e, v, 0, start_low, depth)
                == code_safe_read(BitSize::Dword, pre.cpu.cpl3, addr_l, e, e, 0, start_low, depth));
            lemma_push_onto_app(b0.frames_v(), acc2, code_safe_read(BitSize::Dword, pre.cpu.cpl3, addr_l, e, e, 0, start_low, depth));
            assert(emitted(b0, ctx.builder, acc2 + code_safe_read(BitSize::Dword, pre.cpu.cpl3, addr_l, e, e, 0, start_low, depth)));
        }
        ctx.builder.free_local(address_local);
        let ghost e = choose|e: u32|
            !b2.is_live(e) && emitted(
                b0,
                ctx.builder,
                acc2 + code_safe_read(BitSize::Dword, pre.cpu.cpl3, addr_l, e, e, 0, start_low, depth),
            );
        let ghost acc3 = acc2 + code_safe_read(BitSize::Dword, pre.cpu.cpl3, addr_l, e, e, 0, start_low, depth);
        gen_get_reg32(ctx, arch::ESP);
        proof {
            lemma_push_onto_app(b0.frames_v(), acc3, code_get_reg32(arch::ESP));
        }
        let ghost acc4 = acc3 + code_get_reg32(arch::ESP);
        ctx.builder.const_i32(4);
        ctx.builder.add_i32();
        proof {
            lemma_push_onto_app(b0.frames_v(), acc4, seq![InstrV::ConstI32(4)]);
            lemma_push_onto_app(b0.frames_v(), acc4 + seq![InstrV::ConstI32(4)], seq![InstrV::AddI32]);
            assert((acc4 + seq![InstrV::ConstI32(4)]) + seq![InstrV::AddI32] =~= acc4 + seq![InstrV::ConstI32(4), InstrV::AddI32]);
        }
        let ghost acc5 = acc4 + seq![InstrV::ConstI32(4), InstrV::AddI32];
        gen_set_reg32(ctx, arch::ESP);
        proof {
            lemma_push_onto_app(b0.frames_v(), acc5, code_set_reg32(arch::ESP));
            assert(acc5 + code_set_reg32(arch::ESP) =~= code_pop32s_ss32_seg(pre.cpu.cpl3, addr_l, e, start_low, depth));
        }
    } else {
        let reg = ctx.register_locals[arch::ESP as usize];
        let ghost b2 = ctx.builder;
        gen_safe_read32(ctx, &reg);
        proof {
            let (e, v) = choose|e: u32, v: u32|
                !b2.is_live(e) && ctx_emits(
                    JitContext { builder: b2, ..pre },
                    *ctx,
                    #[trigger] code_safe_read(BitSize::Dword, pre.cpu.cpl3, arch::ESP, e, v, 0, start_low, depth),
                );
            assert(code_safe_read(BitSize::Dword, pre.cpu.cpl3, arch::ESP, e, v, 0, start_low, depth)
                == code_safe_read(BitSize::Dword, pre.cpu.cpl3, arch::ESP, e, e, 0, start_low, depth));
        }
        let ghost e = choose|e: u32|
            !b2.is_live(e) && emitted(
                b0,
                ctx.builder,
                code_safe_read(BitSize::Dword, pre.cpu.cpl3, arch::ESP, e, e, 0, start_low, depth),
            );
        let ghost acc3 = code_safe_read(BitSize::Dword, pre.cpu.cpl3, arch::ESP, e, e, 0, start_low, depth);
        gen_get_reg32(ctx, arch::ESP);
        proof {
            lemma_push_onto_app(b0.frames_v(), acc3, code_get_reg32(arch::ESP));
        }
        let ghost acc4 = acc3 + code_get_reg32(arch::ESP);
        ctx.builder.const_i32(4);
        ctx.builder.add_i32();
        proof {
            lemma_push_onto_app(b0.frames_v(), acc4, seq![InstrV::ConstI32(4)]);
            lemma_push_onto_app(b0.frames_v(), acc4 + seq![InstrV::ConstI32(4)], seq![InstrV::AddI32]);
            assert((acc4 + seq![InstrV::ConstI32(4)]) + seq![InstrV::AddI32] =~= acc4 + seq![InstrV::ConstI32(4), InstrV::AddI32]);
        }
        let ghost acc5 = acc4 + seq![InstrV::ConstI32(4), InstrV::AddI32];
        gen_set_reg32(ctx, arch::ESP);
        proof {
            lemma_push_onto_app(b0.frames_v(), acc5, code_set_reg32(arch::ESP));
            assert(acc5 + code_set_reg32(arch::ESP) =~= code_pop32s_ss32_flat(pre.cpu.cpl3, e, start_low, depth));
        }
    }
}

/// Emit POP of a 16-bit value, dispatching on the stack-size attribute.
pub fn gen_pop16(ctx: &mut JitContext)
    requires
        old(ctx).wf(),
        old(ctx).builder.room(3),
        old(ctx).current_brtable_depth >= 2,
    ensures
        final(ctx).wf(),
        old(ctx).cpu.ssize_32 ==> exists|addr_l: u32, e: u32|
            !old(ctx).builder.is_live(addr_l) && !old(ctx).builder.is_live(e) && addr_l != e
                && ctx_emits(
                *old(ctx),
                *final(ctx),
                #[trigger] code_pop16_ss32(
                    old(ctx).cpu.cpl3,
                    old(ctx).cpu.has_flat_segmentation,
                    addr_l,
                    e,
                    (old(ctx).start_of_current_instruction & 0xFFF) as u32,
                    old(ctx).current_brtable_depth,
                ),
            ),
        !old(ctx).cpu.ssize_32 ==> exists|addr_l: u32, e: u32|
            !old(ctx).builder.is_live(addr_l) && !old(ctx).builder.is_live(e) && addr_l != e
                && ctx_emits(
                *old(ctx),
                *final(ctx),
                #[trigger] code_pop16_ss16(
                    old(ctx).cpu.cpl3,
                    old(ctx).cpu.has_flat_segmentation,
                    addr_l,
                    e,
                    (old(ctx).start_of_current_instruction & 0xFFF) as u32,
                    old(ctx).current_brtable_depth,
                ),
            ),
        final(ctx).builder.next_local() <= old(ctx).builder.next_local() + 3,
{
    if ctx.cpu.ssize_32() {
        gen_pop16_ss32(ctx);
    } else {
        gen_pop16_ss16(ctx);
    }
}

/// Emit POP of a 32-bit value, dispatching on the stack-size attribute.
pub fn gen_pop32s(ctx: &mut JitContext)
    requires
        old(ctx).wf(),
        old(ctx).builder.room(3),
        old(ctx).current_brtable_depth >= 2,
    ensures
        final(ctx).wf(),
        !old(ctx).cpu.ssize_32 ==> exists|addr_l: u32, e: u32|
            !old(ctx).builder.is_live(addr_l) && !old(ctx).builder.is_live(e) && addr_l != e
                && ctx_emits(
                *old(ctx),
                *final(ctx),
                #[trigger] code_pop32s_ss16(
                    old(ctx).cpu.cpl3,
                    old(ctx).cpu.has_flat_segmentation,
                    addr_l,
                    e,
                    (old(ctx).start_of_current_instruction & 0xFFF) as u32,
                    old(ctx).current_brtable_depth,
                ),
            ),
        old(ctx).cpu.ssize_32 && old(ctx).cpu.has_flat_segmentation ==> exists|e: u32|
            !old(ctx).builder.is_live(e) && ctx_emits(
                *old(ctx),
                *final(ctx),
                #[trigger] code_pop32s_ss32_flat(
                    old(ctx).cpu.cpl3,
                    e,
                    (old(ctx).start_of_current_instruction & 0xFFF) as u32,
                    old(ctx).current_brtable_depth,
                ),
            ),
        old(ctx).cpu.ssize_32 && !old(ctx).cpu.has_flat_segmentation ==> exists|addr_l: u32, e: u32|
            !old(ctx).builder.is_live(addr_l) && !old(ctx).builder.is_live(e) && addr_l != e
                && ctx_emits(
                *old(ctx),
                *final(ctx),
                #[trigger] code_pop32s_ss32_seg(
                    old(ctx).cpu.cpl3,
                    addr_l,
                    e,
                    (old(ctx).start_of_current_instruction & 0xFFF) as u32,
                    old(ctx).current_brtable_depth,
                ),
            ),
        final(ctx).builder.next_local() <= old(ctx).builder.next_local() + 3,
{
    if ctx.cpu.ssize_32() {
        gen_pop32s_ss32(ctx);
    } else {
        gen_pop32s_ss16(ctx);
    }
}

/// Code of [`gen_adjust_stack_reg`].
pub open spec fn code_adjust_stack_reg(ssize_32: bool, offset: u32) -> Seq<InstrV> {
    if ssize_32 {
        code_get_reg32(arch::ESP) + seq![InstrV::ConstI32(offset), InstrV::AddI32]
            + code_set_reg32(arch::ESP)
    } else {
        code_get_reg16(arch::SP) + seq![InstrV::ConstI32(offset), InstrV::AddI32]
            + code_set_reg16(arch::SP)
    }
}

/// Add `offset` to the stack pointer under the stack-size attribute.
pub fn gen_adjust_stack_reg(ctx: &mut JitContext, offset: u32)
    requires
        old(ctx).wf(),
    ensures
        final(ctx).wf(),
        ctx_emits(*old(ctx), *final(ctx), code_adjust_stack_reg(old(ctx).cpu.ssize_32, offset)),
        final(ctx).builder.next_local() == old(ctx).builder.next_local(),
{
    let ghost pre = *ctx;
    let ghost b0 = pre.builder;
    proof {
        lemma_cast_roundtrip_u32(offset);
    }
    if ctx.cpu.ssize_32() {
        gen_get_reg32(ctx, arch::ESP);
        ctx.builder.const_i32(offset as i32);
        ctx.builder.add_i32();
        proof {
            lemma_push_onto_app(b0.frames_v(), code_get_reg32(arch::ESP), seq![InstrV::ConstI32(offset)]);
            lemma_push_onto_app(b0.frames_v(), code_get_reg32(arch::ESP) + seq![InstrV::ConstI32(offset)], seq![InstrV::AddI32]);
            assert((code_get_reg32(arch::ESP) + seq![InstrV::ConstI32(offset)]) + seq![InstrV::AddI32] =~= code_get_reg32(arch::ESP) + seq![InstrV::ConstI32(offset), InstrV::AddI32]);
        }
        gen_set_reg32(ctx, arch::ESP);
        proof {
            lemma_push_onto_app(b0.frames_v(), code_get_reg32(arch::ESP) + seq![InstrV::ConstI32(offset), InstrV::AddI32], code_set_reg32(arch::ESP));
        }
    } else {
        gen_get_reg16(ctx, arch::SP);
        ctx.builder.const_i32(offset as i32);
        ctx.builder.add_i32();
        proof {
            lemma_push_onto_app(b0.frames_v(), code_get_reg16(arch::SP), seq![InstrV::ConstI32(offset)]);
            lemma_push_onto_app(b0.frames_v(), code_get_reg16(arch::SP) + seq![InstrV::ConstI32(offset)], seq![InstrV::AddI32]);
            assert((code_get_reg16(arch::SP) + seq![InstrV::ConstI32(offset)]) + seq![InstrV::AddI32] =~= code_get_reg16(arch::SP) + seq![InstrV::ConstI32(offset), InstrV::AddI32]);
        }
        gen_set_reg16(ctx, arch::SP);
        proof {
            lemma_push_onto_app(b0.frames_v(), code_get_reg16(arch::SP) + seq![InstrV::ConstI32(offset), InstrV::AddI32], code_set_reg16(arch::SP));
        }
    }
}

/// Code of [`gen_push16`] when the stack pointer must be masked or
/// rebased: materialize the effective address in `sp_l`.
pub open spec fn code_push16_long(
    cpl3: bool,
    ssize_32: bool,
    flat: bool,
    value_l: u32,
    new_sp: u32,
    sp_l: u32,
    e: u32,
    start_low: u32,
    depth: u32,
) -> Seq<InstrV> {
    (if ssize_32 {
        code_get_reg32(arch::ESP)
    } else {
        code_get_reg16(arch::SP)
    }) + seq![InstrV::ConstI32(2), InstrV::SubI32, InstrV::TeeLocal(new_sp)] + (if !ssize_32 {
        seq![InstrV::ConstI32(0xFFFF), InstrV::AndI32]
    } else {
        Seq::<InstrV>::empty()
    }) + code_seg_add(flat, arch::SS) + seq![InstrV::SetLocal(sp_l)] + code_safe_write(
        BitSize::Word,
        cpl3,
        sp_l,
        e,
        WriteValV::VI32(value_l),
        e,
        start_low,
        depth,
    ) + seq![InstrV::GetLocal(new_sp)] + (if ssize_32 {
        code_set_reg32(arch::ESP)
    } else {
        code_set_reg16(arch::SP)
    })
}

/// Code of [`gen_push16`] on the hot path (32-bit flat stack): the
/// decremented ESP is itself the address local.
pub open spec fn code_push16_short(
    cpl3: bool,
    value_l: u32,
    new_sp: u32,
    e: u32,
    start_low: u32,
    depth: u32,
) -> Seq<InstrV> {
    code_get_reg32(arch::ESP) + seq![InstrV::ConstI32(2), InstrV::SubI32, InstrV::TeeLocal(new_sp)]
        + code_safe_write(BitSize::Word, cpl3, new_sp, e, WriteValV::VI32(value_l), e, start_low, depth)
        + code_set_reg32(arch::ESP)
}

/// Emit PUSH of the 16-bit value in `value_local`: pre-decrement the
/// stack pointer by 2, write the value at the effective stack address,
/// then commit the new stack pointer.
#[verifier::rlimit(30)]
pub fn gen_push16(ctx: &mut JitContext, value_local: &HostLocal)
    requires
        old(ctx).wf(),
        old(ctx).builder.is_live(value_local.idx),
        old(ctx).builder.room(4),
        old(ctx).current_brtable_depth >= 2,
    ensures
        final(ctx).wf(),
        old(ctx).cpu.ssize_32 && old(ctx).cpu.has_flat_segmentation ==> exists|new_sp: u32, e: u32|
            !old(ctx).builder.is_live(new_sp) && !old(ctx).builder.is_live(e) && new_sp != e
                && ctx_emits(
                *old(ctx),
                *final(ctx),
                #[trigger] code_push16_short(
                    old(ctx).cpu.cpl3,
                    value_local.idx,
                    new_sp,
                    e,
                    (old(ctx).start_of_current_instruction & 0xFFF) as u32,
                    old(ctx).current_brtable_depth,
                ),
            ),
        !(old(ctx).cpu.ssize_32 && old(ctx).cpu.has_flat_segmentation) ==> exists|
            new_sp: u32,
            sp_l: u32,
            e: u32,
        |
            !old(ctx).builder.is_live(new_sp) && !old(ctx).builder.is_live(sp_l) && !old(
                ctx,
            ).builder.is_live(e) && new_sp != sp_l && new_sp != e && sp_l != e && ctx_emits(
                *old(ctx),
                *final(ctx),
                #[trigger] code_push16_long(
                    old(ctx).cpu.cpl3,
                    old(ctx).cpu.ssize_32,
                    old(ctx).cpu.has_flat_segmentation,
                    value_local.idx,
                    new_sp,
                    sp_l,
                    e,
                    (old(ctx).start_of_current_instruction & 0xFFF) as u32,
                    old(ctx).current_brtable_depth,
                ),
            ),
        final(ctx).builder.next_local() <= old(ctx).builder.next_local() + 4,
{
    let ghost pre = *ctx;
    let ghost b0 = pre.builder;
    let ghost start_low = (pre.start_of_current_instruction & 0xFFF) as u32;
    let ghost depth = pre.current_brtable_depth;
    let ghost flat = pre.cpu.has_flat_segmentation;
    let ghost s32 = pre.cpu.ssize_32;
    let ghost val_l = value_local.idx;

    if ctx.cpu.ssize_32() {
        gen_get_reg32(ctx, arch::ESP);
    } else {
        gen_get_reg16(ctx, arch::SP);
    }
    let ghost acc0 = if s32 {
        code_get_reg32(arch::ESP)
    } else {
        code_get_reg16(arch::SP)
    };

    ctx.builder.const_i32(2);
    ctx.builder.sub_i32();
    proof {
        lemma_push_onto_app(b0.frames_v(), acc0, seq![InstrV::ConstI32(2)]);
        lemma_push_onto_app(b0.frames_v(), acc0 + seq![InstrV::ConstI32(2)], seq![InstrV::SubI32]);
        assert((acc0 + seq![InstrV::ConstI32(2)]) + seq![InstrV::SubI32] =~= acc0 + seq![InstrV::ConstI32(2), InstrV::SubI32]);
    }
    let ghost acc1 = acc0 + seq![InstrV::ConstI32(2), InstrV::SubI32];

    if !ctx.cpu.ssize_32() || !ctx.cpu.has_flat_segmentation() {
        let reg_updated_local = ctx.builder.tee_new_local();
        let ghost new_sp = reg_updated_local.idx;
        proof {
            lemma_push_onto_app(b0.frames_v(), acc1, seq![InstrV::TeeLocal(new_sp)]);
        }
        let ghost acc2 = acc1 + seq![InstrV::TeeLocal(new_sp)];
        if !ctx.cpu.ssize_32() {
            ctx.builder.const_i32(0xFFFF);
            ctx.builder.and_i32();
            proof {
                lemma_push_onto_app(b0.frames_v(), acc2, seq![InstrV::ConstI32(0xFFFF)]);
                lemma_push_onto_app(b0.frames_v(), acc2 + seq![InstrV::ConstI32(0xFFFF)], seq![InstrV::AndI32]);
                assert((acc2 + seq![InstrV::ConstI32(0xFFFF)]) + seq![InstrV::AndI32] =~= acc2 + seq![InstrV::ConstI32(0xFFFF), InstrV::AndI32]);
            }
        }
        let ghost acc3 = acc2 + if !s32 {
            seq![InstrV::ConstI32(0xFFFF), InstrV::AndI32]
        } else {
            Seq::<InstrV>::empty()
        };
        proof {
            if s32 {
                assert(acc3 =~= acc2);
            }
        }
        if !ctx.cpu.has_flat_segmentation() {
            ctx.builder.load_aligned_i32(layout::get_seg_offset(arch::SS));
            ctx.builder.add_i32();
            proof {
                lemma_push_onto_app(b0.frames_v(), acc3, seq![InstrV::LoadI32At(seg_off(arch::SS) as u32)]);
                lemma_push_onto_app(b0.frames_v(), acc3 + seq![InstrV::LoadI32At(seg_off(arch::SS) as u32)], seq![InstrV::AddI32]);
                assert((acc3 + seq![InstrV::LoadI32At(seg_off(arch::SS) as u32)]) + seq![InstrV::AddI32] =~= acc3 + code_seg_add(false, arch::SS));
            }
        }
        let ghost acc4 = acc3 + code_seg_add(flat, arch::SS);
        proof {
            if flat {
                assert(acc4 =~= acc3);
            }
        }
        let sp_local = ctx.builder.set_new_local();
        let ghost sp_l = sp_local.idx;
        proof {
            lemma_push_onto_app(b0.frames_v(), acc4, seq![InstrV::SetLocal(sp_l)]);
        }
        let ghost acc5 = acc4 + seq![InstrV::SetLocal(sp_l)];
        let ghost b5 = ctx.builder;
        gen_safe_write16(ctx, &sp_local, value_local);
        proof {
            let (e, s) = choose|e: u32, s: u32|
                !b5.is_live(e) && ctx_emits(
                    JitContext { builder: b5, ..pre },
                    *ctx,
                    #[trigger] code_safe_write(BitSize::Word, pre.cpu.cpl3, sp_l, e, WriteValV::VI32(val_l), s, start_low, depth),
                );
            assert(code_safe_write(BitSize::Word, pre.cpu.cpl3, sp_l, e, WriteValV::VI32(val_l), s, start_low, depth)
                == code_safe_write(BitSize::Word, pre.cpu.cpl3, sp_l, e, WriteValV::VI32(val_l), e, start_low, depth));
            lemma_push_onto_app(b0.frames_v(), acc5, code_safe_write(BitSize::Word, pre.cpu.cpl3, sp_l, e, WriteValV::VI32(val_l), e, start_low, depth));
        }
        ctx.builder.free_local(sp_local);
        let ghost e = choose|e: u32|
            !b5.is_live(e) && emitted(
                b0,
                ctx.builder,
                acc5 + code_safe_write(BitSize::Word, pre.cpu.cpl3, sp_l, e, WriteValV::VI32(val_l), e, start_low, depth),
            );
        let ghost acc6 = acc5 + code_safe_write(BitSize::Word, pre.cpu.cpl3, sp_l, e, WriteValV::VI32(val_l), e, start_low, depth);
        ctx.builder.get_local(&reg_updated_local);
        proof {
            lemma_push_onto_app(b0.frames_v(), acc6, seq![InstrV::GetLocal(new_sp)]);
        }
        let ghost acc7 = acc6 + seq![InstrV::GetLocal(new_sp)];
        if ctx.cpu.ssize_32() {
            gen_set_reg32(ctx, arch::ESP);
        } else {
            gen_set_reg16(ctx, arch::SP);
        }
        ctx.builder.free_local(reg_updated_local);
        proof {
            let setr = if s32 {
                code_set_reg32(arch::ESP)
            } else {
                code_set_reg16(arch::SP)
            };
            lemma_push_onto_app(b0.frames_v(), acc7, setr);
            assert(acc7 + setr =~= code_push16_long(pre.cpu.cpl3, s32, flat, val_l, new_sp, sp_l, e, start_low, depth));
            assert(ctx_emits(pre, *ctx, code_push16_long(pre.cpu.cpl3, s32, flat, val_l, new_sp, sp_l, e, start_low, depth)));
        }
    } else {
        // hot path: the address written to equals the new stack pointer
        let reg_updated_local = ctx.builder.tee_new_local();
        let ghost new_sp = reg_updated_local.idx;
        proof {
            lemma_push_onto_app(b0.frames_v(), acc1, seq![InstrV::TeeLocal(new_sp)]);
        }
        let ghost acc2 = acc1 + seq![InstrV::TeeLocal(new_sp)];
        let ghost b2 = ctx.builder;
        gen_safe_write16(ctx, &reg_updated_local, value_local);
        proof {
            let (e, s) = choose|e: u32, s: u32|
                !b2.is_live(e) && ctx_emits(
                    JitContext { builder: b2, ..pre },
                    *ctx,
                    #[trigger] code_safe_write(BitSize::Word, pre.cpu.cpl3, new_sp, e, WriteValV::VI32(val_l), s, start_low, depth),
                );
            assert(code_safe_write(BitSize::Word, pre.cpu.cpl3, new_sp, e, WriteValV::VI32(val_l), s, start_low, depth)
                == code_safe_write(BitSize::Word, pre.cpu.cpl3, new_sp, e, WriteValV::VI32(val_l), e, start_low, depth));
            lemma_push_onto_app(b0.frames_v(), acc2, code_safe_write(BitSize::Word, pre.cpu.cpl3, new_sp, e, WriteValV::VI32(val_l), e, start_low, depth));
        }
        let ghost e = choose|e: u32|
            !b2.is_live(e) && emitted(
                b0,
                ctx.builder,
                acc2 + code_safe_write(BitSize::Word, pre.cpu.cpl3, new_sp, e, WriteValV::VI32(val_l), e, start_low, depth),
            );
        let ghost acc3 = acc2 + code_safe_write(BitSize::Word, pre.cpu.cpl3, new_sp, e, WriteValV::VI32(val_l), e, start_low, depth);
        gen_set_reg32(ctx, arch::ESP);
        ctx.builder.free_local(reg_updated_local);
        proof {
            lemma_push_onto_app(b0.frames_v(), acc3, code_set_reg32(arch::ESP));
            assert(acc3 + code_set_reg32(arch::ESP) =~= code_push16_short(pre.cpu.cpl3, val_l, new_sp, e, start_low, depth));
            assert(ctx_emits(pre, *ctx, code_push16_short(pre.cpu.cpl3, val_l, new_sp, e, start_low, depth)));
        }
    }
}

/// Code of [`gen_push32`] when the stack pointer must be masked or
/// rebased: materialize the effective address in `sp_l`.
pub open spec fn code_push32_long(
    cpl3: bool,
    ssize_32: bool,
    flat: bool,
    value_l: u32,
    new_sp: u32,
    sp_l: u32,
    e: u32,
    start_low: u32,
    depth: u32,
) -> Seq<InstrV> {
    (if ssize_32 {
        code_get_reg32(arch::ESP)
    } else {
        code_get_reg16(arch::SP)
    }) + seq![InstrV::ConstI32(4), InstrV::SubI32, InstrV::TeeLocal(new_sp)] + (if !ssize_32 {
        seq![InstrV::ConstI32(0xFFFF), InstrV::AndI32]
    } else {
        Seq::<InstrV>::empty()
    }) + code_seg_add(flat, arch::SS) + seq![InstrV::SetLocal(sp_l)] + code_safe_write(
        BitSize::Dword,
        cpl3,
        sp_l,
        e,
        WriteValV::VI32(value_l),
        e,
        start_low,
        depth,
    ) + seq![InstrV::GetLocal(new_sp)] + (if ssize_32 {
        code_set_reg32(arch::ESP)
    } else {
        code_set_reg16(arch::SP)
    })
}

/// Code of [`gen_push32`] on the hot path (32-bit flat stack): the
/// decremented ESP is itself the address local.
pub open spec fn code_push32_short(
    cpl3: bool,
    value_l: u32,
    new_sp: u32,
    e: u32,
    start_low: u32,
    depth: u32,
) -> Seq<InstrV> {
    code_get_reg32(arch::ESP) + seq![InstrV::ConstI32(4), InstrV::SubI32, InstrV::TeeLocal(new_sp)]
        + code_safe_write(BitSize::Dword, cpl3, new_sp, e, WriteValV::VI32(value_l), e, start_low, depth)
        + code_set_reg32(arch::ESP)
}

/// Emit PUSH of the 32-bit value in `value_local`: pre-decrement the
/// stack pointer by 4, write the value at the effective stack address,
/// then commit the new stack pointer.
#[verifier::rlimit(30)]
pub fn gen_push32(ctx: &mut JitContext, value_local: &HostLocal)
    requires
        old(ctx).wf(),
        old(ctx).builder.is_live(value_local.idx),
        old(ctx).builder.room(4),
        old(ctx).current_brtable_depth >= 2,
    ensures
        final(ctx).wf(),
        old(ctx).cpu.ssize_32 && old(ctx).cpu.has_flat_segmentation ==> exists|new_sp: u32, e: u32|
            !old(ctx).builder.is_live(new_sp) && !old(ctx).builder.is_live(e) && new_sp != e
                && ctx_emits(
                *old(ctx),
                *final(ctx),
                #[trigger] code_push32_short(
                    old(ctx).cpu.cpl3,
                    value_local.idx,
                    new_sp,
                    e,
                    (old(ctx).start_of_current_instruction & 0xFFF) as u32,
                    old(ctx).current_brtable_depth,
                ),
            ),
        !(old(ctx).cpu.ssize_32 && old(ctx).cpu.has_flat_segmentation) ==> exists|
            new_sp: u32,
            sp_l: u32,
            e: u32,
        |
            !old(ctx).builder.is_live(new_sp) && !old(ctx).builder.is_live(sp_l) && !old(
                ctx,
            ).builder.is_live(e) && new_sp != sp_l && new_sp != e && sp_l != e && ctx_emits(
                *old(ctx),
                *final(ctx),
                #[trigger] code_push32_long(
                    old(ctx).cpu.cpl3,
                    old(ctx).cpu.ssize_32,
                    old(ctx).cpu.has_flat_segmentation,
                    value_local.idx,
                    new_sp,
                    sp_l,
                    e,
                    (old(ctx).start_of_current_instruction & 0xFFF) as u32,
                    old(ctx).current_brtable_depth,
                ),
            ),
        final(ctx).builder.next_local() <= old(ctx).builder.next_local() + 4,
{
    let ghost pre = *ctx;
    let ghost b0 = pre.builder;
    let ghost start_low = (pre.start_of_current_instruction & 0xFFF) as u32;
    let ghost depth = pre.current_brtable_depth;
    let ghost flat = pre.cpu.has_flat_segmentation;
    let ghost s32 = pre.cpu.ssize_32;
    let ghost val_l = value_local.idx;

    if ctx.cpu.ssize_32() {
        gen_get_reg32(ctx, arch::ESP);
    } else {
        gen_get_reg16(ctx, arch::SP);
    }
    let ghost acc0 = if s32 {
        code_get_reg32(arch::ESP)
    } else {
        code_get_reg16(arch::SP)
    };

    ctx.builder.const_i32(4);
    ctx.builder.sub_i32();
    proof {
        lemma_push_onto_app(b0.frames_v(), acc0, seq![InstrV::ConstI32(4)]);
        lemma_push_onto_app(b0.frames_v(), acc0 + seq![InstrV::ConstI32(4)], seq![InstrV::SubI32]);
        assert((acc0 + seq![InstrV::ConstI32(4)]) + seq![InstrV::SubI32] =~= acc0 + seq![InstrV::ConstI32(4), InstrV::SubI32]);
    }
    let ghost acc1 = acc0 + seq![InstrV::ConstI32(4), InstrV::SubI32];

    if !ctx.cpu.ssize_32() || !ctx.cpu.has_flat_segmentation() {
        let reg_updated_local = ctx.builder.tee_new_local();
        let ghost new_sp = reg_updated_local.idx;
        proof {
            lemma_push_onto_app(b0.frames_v(), acc1, seq![InstrV::TeeLocal(new_sp)]);
        }
        let ghost acc2 = acc1 + seq![InstrV::TeeLocal(new_sp)];
        if !ctx.cpu.ssize_32() {
            ctx.builder.const_i32(0xFFFF);
            ctx.builder.and_i32();
            proof {
                lemma_push_onto_app(b0.frames_v(), acc2, seq![InstrV::ConstI32(0xFFFF)]);
                lemma_push_onto_app(b0.frames_v(), acc2 + seq![InstrV::ConstI32(0xFFFF)], seq![InstrV::AndI32]);
                assert((acc2 + seq![InstrV::ConstI32(0xFFFF)]) + seq![InstrV::AndI32] =~= acc2 + seq![InstrV::ConstI32(0xFFFF), InstrV::AndI32]);
            }
        }
        let ghost acc3 = acc2 + if !s32 {
            seq![InstrV::ConstI32(0xFFFF), InstrV::AndI32]
        } else {
            Seq::<InstrV>::empty()
        };
        proof {
            if s32 {
                assert(acc3 =~= acc2);
            }
        }
        if !ctx.cpu.has_flat_segmentation() {
            ctx.builder.load_aligned_i32(layout::get_seg_offset(arch::SS));
            ctx.builder.add_i32();
            proof {
                lemma_push_onto_app(b0.frames_v(), acc3, seq![InstrV::LoadI32At(seg_off(arch::SS) as u32)]);
                lemma_push_onto_app(b0.frames_v(), acc3 + seq![InstrV::LoadI32At(seg_off(arch::SS) as u32)], seq![InstrV::AddI32]);
                assert((acc3 + seq![InstrV::LoadI32At(seg_off(arch::SS) as u32)]) + seq![InstrV::AddI32] =~= acc3 + code_seg_add(false, arch::SS));
            }
        }
        let ghost acc4 = acc3 + code_seg_add(flat, arch::SS);
        proof {
            if flat {
                assert(acc4 =~= acc3);
            }
        }
        let sp_local = ctx.builder.set_new_local();
        let ghost sp_l = sp_local.idx;
        proof {
            lemma_push_onto_app(b0.frames_v(), acc4, seq![InstrV::SetLocal(sp_l)]);
        }
        let ghost acc5 = acc4 + seq![InstrV::SetLocal(sp_l)];
        let ghost b5 = ctx.builder;
        gen_safe_write32(ctx, &sp_local, value_local);
        proof {
            let (e, s) = choose|e: u32, s: u32|
                !b5.is_live(e) && ctx_emits(
                    JitContext { builder: b5, ..pre },
                    *ctx,
                    #[trigger] code_safe_write(BitSize::Dword, pre.cpu.cpl3, sp_l, e, WriteValV::VI32(val_l), s, start_low, depth),
                );
            assert(code_safe_write(BitSize::Dword, pre.cpu.cpl3, sp_l, e, WriteValV::VI32(val_l), s, start_low, depth)
                == code_safe_write(BitSize::Dword, pre.cpu.cpl3, sp_l, e, WriteValV::VI32(val_l), e, start_low, depth));
            lemma_push_onto_app(b0.frames_v(), acc5, code_safe_write(BitSize::Dword, pre.cpu.cpl3, sp_l, e, WriteValV::VI32(val_l), e, start_low, depth));
        }
        ctx.builder.free_local(sp_local);
        let ghost e = choose|e: u32|
            !b5.is_live(e) && emitted(
                b0,
                ctx.builder,
                acc5 + code_safe_write(BitSize::Dword, pre.cpu.cpl3, sp_l, e, WriteValV::VI32(val_l), e, start_low, depth),
            );
        let ghost acc6 = acc5 + code_safe_write(BitSize::Dword, pre.cpu.cpl3, sp_l, e, WriteValV::VI32(val_l), e, start_low, depth);
        ctx.builder.get_local(&reg_updated_local);
        proof {
            lemma_push_onto_app(b0.frames_v(), acc6, seq![InstrV::GetLocal(new_sp)]);
        }
        let ghost acc7 = acc6 + seq![InstrV::GetLocal(new_sp)];
        if ctx.cpu.ssize_32() {
            gen_set_reg32(ctx, arch::ESP);
        } else {
            gen_set_reg16(ctx, arch::SP);
        }
        ctx.builder.free_local(reg_updated_local);
        proof {
            let setr = if s32 {
                code_set_reg32(arch::ESP)
            } else {
                code_set_reg16(arch::SP)
            };
            lemma_push_onto_app(b0.frames_v(), acc7, setr);
            assert(acc7 + setr =~= code_push32_long(pre.cpu.cpl3, s32, flat, val_l, new_sp, sp_l, e, start_low, depth));
            assert(ctx_emits(pre, *ctx, code_push32_long(pre.cpu.cpl3, s32, flat, val_l, new_sp, sp_l, e, start_low, depth)));
        }
    } else {
        // hot path: the address written to equals the new stack pointer
        let reg_updated_local = ctx.builder.tee_new_local();
        let ghost new_sp = reg_updated_local.idx;
        proof {
            lemma_push_onto_app(b0.frames_v(), acc1, seq![InstrV::TeeLocal(new_sp)]);
        }
        let ghost acc2 = acc1 + seq![InstrV::TeeLocal(new_sp)];
        let ghost b2 = ctx.builder;
        gen_safe_write32(ctx, &reg_updated_local, value_local);
        proof {
            let (e, s) = choose|e: u32, s: u32|
                !b2.is_live(e) && ctx_emits(
                    JitContext { builder: b2, ..pre },
                    *ctx,
                    #[trigger] code_safe_write(BitSize::Dword, pre.cpu.cpl3, new_sp, e, WriteValV::VI32(val_l), s, start_low, depth),
                );
            assert(code_safe_write(BitSize::Dword, pre.cpu.cpl3, new_sp, e, WriteValV::VI32(val_l), s, start_low, depth)
                == code_safe_write(BitSize::Dword, pre.cpu.cpl3, new_sp, e, WriteValV::VI32(val_l), e, start_low, depth));
            lemma_push_onto_app(b0.frames_v(), acc2, code_safe_write(BitSize::Dword, pre.cpu.cpl3, new_sp, e, WriteValV::VI32(val_l), e, start_low, depth));
        }
        let ghost e = choose|e: u32|
            !b2.is_live(e) && emitted(
                b0,
                ctx.builder,
                acc2 + code_safe_write(BitSize::Dword, pre.cpu.cpl3, new_sp, e, WriteValV::VI32(val_l), e, start_low, depth),
            );
        let ghost acc3 = acc2 + code_safe_write(BitSize::Dword, pre.cpu.cpl3, new_sp, e, WriteValV::VI32(val_l), e, start_low, depth);
        gen_set_reg32(ctx, arch::ESP);
        ctx.builder.free_local(reg_updated_local);
        proof {
            lemma_push_onto_app(b0.frames_v(), acc3, code_set_reg32(arch::ESP));
            assert(acc3 + code_set_reg32(arch::ESP) =~= code_push32_short(pre.cpu.cpl3, val_l, new_sp, e, start_low, depth));
            assert(ctx_emits(pre, *ctx, code_push32_short(pre.cpu.cpl3, val_l, new_sp, e, start_low, depth)));
        }
    }
}

/// Code of [`gen_leave`]: `[e]bp = read at SS:[e]bp`, then
/// `[e]sp = old [e]bp + width` -- the old frame pointer provides the new
/// stack pointer, so the order matters.
pub open spec fn code_leave(
    cpl3: bool,
    ssize_32: bool,
    flat: bool,
    os32: bool,
    old_vbp: u32,
    addr_l: u32,
    e: u32,
    start_low: u32,
    depth: u32,
) -> Seq<InstrV> {
    (if ssize_32 {
        code_get_reg32(arch::EBP)
    } else {
        code_get_reg16(arch::BP)
    }) + seq![InstrV::TeeLocal(old_vbp)] + code_seg_add(flat, arch::SS) + seq![
        InstrV::SetLocal(addr_l),
    ] + code_safe_read(
        if os32 {
            BitSize::Dword
        } else {
            BitSize::Word
        },
        cpl3,
        addr_l,
        e,
        e,
        0,
        start_low,
        depth,
    ) + (if os32 {
        code_set_reg32(arch::EBP)
    } else {
        code_set_reg16(arch::BP)
    }) + seq![
        InstrV::GetLocal(old_vbp),
        InstrV::ConstI32(
            if os32 {
                4
            } else {
                2
            },
        ),
        InstrV::AddI32,
    ] + (if ssize_32 {
        code_set_reg32(arch::ESP)
    } else {
        code_set_reg16(arch::SP)
    })
}

/// Emit LEAVE: restore the frame pointer from the stack frame it points
/// at, then point the stack pointer just above the restored slot.
#[verifier::rlimit(30)]
pub fn gen_leave(ctx: &mut JitContext, os32: bool)
    requires
        old(ctx).wf(),
        old(ctx).builder.room(4),
        old(ctx).current_brtable_depth >= 2,
    ensures
        final(ctx).wf(),
        exists|old_vbp: u32, addr_l: u32, e: u32|
            !old(ctx).builder.is_live(old_vbp) && !old(ctx).builder.is_live(addr_l) && !old(
                ctx,
            ).builder.is_live(e) && old_vbp != addr_l && old_vbp != e && addr_l != e && ctx_emits(
                *old(ctx),
                *final(ctx),
                #[trigger] code_leave(
                    old(ctx).cpu.cpl3,
                    old(ctx).cpu.ssize_32,
                    old(ctx).cpu.has_flat_segmentation,
                    os32,
                    old_vbp,
                    addr_l,
                    e,
                    (old(ctx).start_of_current_instruction & 0xFFF) as u32,
                    old(ctx).current_brtable_depth,
                ),
            ),
        final(ctx).builder.next_local() <= old(ctx).builder.next_local() + 4,
{
    let ghost pre = *ctx;
    let ghost b0 = pre.builder;
    let ghost start_low = (pre.start_of_current_instruction & 0xFFF) as u32;
    let ghost depth = pre.current_brtable_depth;
    let ghost flat = pre.cpu.has_flat_segmentation;
    let ghost s32 = pre.cpu.ssize_32;
    let ghost w: BitSize = if os32 {
        BitSize::Dword
    } else {
        BitSize::Word
    };

    // [e]bp = read at SS:[e]bp
    if ctx.cpu.ssize_32() {
        gen_get_reg32(ctx, arch::EBP);
    } else {
        gen_get_reg16(ctx, arch::BP);
    }
    let ghost acc0 = if s32 {
        code_get_reg32(arch::EBP)
    } else {
        code_get_reg16(arch::BP)
    };

    let old_vbp = ctx.builder.tee_new_local();
    let ghost vbp = old_vbp.idx;
    proof {
        lemma_push_onto_app(b0.frames_v(), acc0, seq![InstrV::TeeLocal(vbp)]);
    }
    let ghost acc1 = acc0 + seq![InstrV::TeeLocal(vbp)];

    if !ctx.cpu.has_flat_segmentation() {
        ctx.builder.load_aligned_i32(layout::get_seg_offset(arch::SS));
        ctx.builder.add_i32();
        proof {
            lemma_push_onto_app(b0.frames_v(), acc1, seq![InstrV::LoadI32At(seg_off(arch::SS) as u32)]);
            lemma_push_onto_app(b0.frames_v(), acc1 + seq![InstrV::LoadI32At(seg_off(arch::SS) as u32)], seq![InstrV::AddI32]);
            assert((acc1 + seq![InstrV::LoadI32At(seg_off(arch::SS) as u32)]) + seq![InstrV::AddI32] =~= acc1 + code_seg_add(false, arch::SS));
        }
    }
    let ghost acc2 = acc1 + code_seg_add(flat, arch::SS);
    proof {
        if flat {
            assert(acc2 =~= acc1);
        }
    }

    let address_local = ctx.builder.set_new_local();
    let ghost addr_l = address_local.idx;
    proof {
        lemma_push_onto_app(b0.frames_v(), acc2, seq![InstrV::SetLocal(addr_l)]);
    }
    let ghost acc3 = acc2 + seq![InstrV::SetLocal(addr_l)];
    let ghost b3 = ctx.builder;
    if os32 {
        gen_safe_read32(ctx, &address_local);
    } else {
        gen_safe_read16(ctx, &address_local);
    }
    proof {
        let (e, v) = choose|e: u32, v: u32|
            !b3.is_live(e) && ctx_emits(
                JitContext { builder: b3, ..pre },
                *ctx,
                #[trigger] code_safe_read(w, pre.cpu.cpl3, addr_l, e, v, 0, start_low, depth),
            );
        assert(code_safe_read(w, pre.cpu.cpl3, addr_l, e, v, 0, start_low, depth)
            == code_safe_read(w, pre.cpu.cpl3, addr_l, e, e, 0, start_low, depth));
        lemma_push_onto_app(b0.frames_v(), acc3, code_safe_read(w, pre.cpu.cpl3, addr_l, e, e, 0, start_low, depth));
    }
    ctx.builder.free_local(address_local);
    let ghost e = choose|e: u32|
        !b3.is_live(e) && emitted(
            b0,
            ctx.builder,
            acc3 + code_safe_read(w, pre.cpu.cpl3, addr_l, e, e, 0, start_low, depth),
        );
    let ghost acc4a = acc3 + code_safe_read(w, pre.cpu.cpl3, addr_l, e, e, 0, start_low, depth);
    if os32 {
        gen_set_reg32(ctx, arch::EBP);
    } else {
        gen_set_reg16(ctx, arch::BP);
    }
    proof {
        lemma_push_onto_app(
            b0.frames_v(),
            acc4a,
            if os32 {
                code_set_reg32(arch::EBP)
            } else {
                code_set_reg16(arch::BP)
            },
        );
    }
    let ghost acc4 = acc4a + (
    if os32 {
        code_set_reg32(arch::EBP)
    } else {
        code_set_reg16(arch::BP)
    });

    // [e]sp = [e]bp + width
    ctx.builder.get_local(&old_vbp);
    proof {
        lemma_push_onto_app(b0.frames_v(), acc4, seq![InstrV::GetLocal(vbp)]);
    }
    let ghost acc5 = acc4 + seq![InstrV::GetLocal(vbp)];
    if os32 {
        ctx.builder.const_i32(4);
    } else {
        ctx.builder.const_i32(2);
    }
    ctx.builder.add_i32();
    let ghost inc: u32 = if os32 {
        4
    } else {
        2
    };
    proof {
        lemma_push_onto_app(b0.frames_v(), acc5, seq![InstrV::ConstI32(inc)]);
        lemma_push_onto_app(b0.frames_v(), acc5 + seq![InstrV::ConstI32(inc)], seq![InstrV::AddI32]);
        assert((acc5 + seq![InstrV::ConstI32(inc)]) + seq![InstrV::AddI32] =~= acc5 + seq![InstrV::ConstI32(inc), InstrV::AddI32]);
    }
    let ghost acc6 = acc5 + seq![InstrV::ConstI32(inc), InstrV::AddI32];
    if ctx.cpu.ssize_32() {
        gen_set_reg32(ctx, arch::ESP);
    } else {
        gen_set_reg16(ctx, arch::SP);
    }
    ctx.builder.free_local(old_vbp);
    proof {
        let setr = if s32 {
            code_set_reg32(arch::ESP)
        } else {
            code_set_reg16(arch::SP)
        };
        lemma_push_onto_app(b0.frames_v(), acc6, setr);
        assert(acc6 + setr =~= code_leave(pre.cpu.cpl3, s32, flat, os32, vbp, addr_l, e, start_low, depth));
        assert(ctx_emits(pre, *ctx, code_leave(pre.cpu.cpl3, s32, flat, os32, vbp, addr_l, e, start_low, depth)));
    }
}

} // verus!
