//! The TLB memory-access emitter: inline fast paths, structured bail-outs
//! to slow-path helpers, and page-fault propagation.
//!
//! Three flavours share the template: read, write, and read-modify-write.
//! Each probes the TLB entry for the page of the virtual address, checks
//! the status bits against a mask (reads exclude `READONLY`, `GLOBAL` and
//! `HAS_CODE` because those do not block reads; writes keep `READONLY`
//! and `HAS_CODE` in the mask so either forces the slow path), checks
//! that the access does not cross a page boundary, and then either
//! performs the access inline against guest physical memory or calls the
//! width-specific slow-path helper, testing the page-fault byte
//! afterwards and breaking out to the translation unit's page-fault
//! catcher when it is set.

use vstd::prelude::*;
use crate::arch;
use crate::layout;
use crate::builder::{
    CodeBuilder, HostLocal, HostLocalI64, emitted, locals_same, lemma_push_onto_app,
    lemma_if_bracket, lemma_if_bracket_noelse, FrameV,
};
use crate::ctx::{JitContext, ctx_emits};
use crate::isa::{BlockKind, HostFn, InstrV, lemma_cast_roundtrip_u32, lemma_low12_bound};
use crate::emit_basic::{
    code_set_previous_eip_low_bits, gen_set_previous_eip_offset_from_eip_with_low_bits,
    gen_call_fn1_ret, gen_call_fn1_ret_i64, gen_call_fn2, gen_call_fn2_i32_i64,
    gen_call_fn3_i32_i64_i64,
};
use crate::emit_trap::gen_debug_track_jit_exit;

verus! {

/// The scratch-buffer offset of a 128-bit access, or 0 when the access
/// has none.
pub open spec fn opt_or_zero(o: Option<u32>) -> u32 {
    match o {
        Some(w) => w,
        None => 0,
    }
}

/// Width of one guest memory access.
#[derive(Clone, Copy, PartialEq, Eq, Structural, Debug)]
pub enum BitSize {
    Byte,
    Word,
    Dword,
    Qword,
    Dqword,
}

/// Access width in bytes.
pub open spec fn width_bytes(bits: BitSize) -> u32 {
    match bits {
        BitSize::Byte => 1,
        BitSize::Word => 2,
        BitSize::Dword => 4,
        BitSize::Qword => 8,
        BitSize::Dqword => 16,
    }
}

impl BitSize {
    /// Access width in bytes.
    pub fn bytes(self) -> (w: u32)
        ensures
            w == width_bytes(self),
    {
        match self {
            BitSize::Byte => 1,
            BitSize::Word => 2,
            BitSize::Dword => 4,
            BitSize::Qword => 8,
            BitSize::Dqword => 16,
        }
    }
}

/// The status mask a read probes with: `READONLY`, `GLOBAL` and
/// `HAS_CODE` are excluded because they do not block reads; `NO_USER`
/// matters only at CPL 3.
pub open spec fn read_status_mask(cpl3: bool) -> u32 {
    0xFFF & !arch::TLB_READONLY & !arch::TLB_GLOBAL & !arch::TLB_HAS_CODE & !(
    if cpl3 {
        0
    } else {
        arch::TLB_NO_USER
    })
}

/// The status mask a write (and a read-modify-write) probes with:
/// `READONLY` and `HAS_CODE` stay in the mask, so either forces the slow
/// path.
pub open spec fn write_status_mask(cpl3: bool) -> u32 {
    0xFFF & !arch::TLB_GLOBAL & !(
    if cpl3 {
        0
    } else {
        arch::TLB_NO_USER
    })
}

/// The TLB probe: fetch the entry for the page of the address held in
/// local `addr_l`, cache it in local `e`, and leave
/// `(entry & mask) == TLB_VALID` on the stack.
pub open spec fn code_tlb_probe(mask: u32, addr_l: u32, e: u32) -> Seq<InstrV> {
    seq![
        InstrV::GetLocal(addr_l),
        InstrV::ConstI32(12),
        InstrV::ShrUI32,
        InstrV::ConstI32(2),
        InstrV::ShlI32,
        InstrV::LoadI32(layout::TLB_DATA),
        InstrV::TeeLocal(e),
        InstrV::ConstI32(mask),
        InstrV::AndI32,
        InstrV::ConstI32(arch::TLB_VALID),
        InstrV::EqI32,
    ]
}

/// The page-boundary check for accesses wider than one byte: and the
/// probe result with `(addr & 0xFFF) <= 0x1000 - width`.
pub open spec fn code_page_fit(addr_l: u32, w: u32) -> Seq<InstrV> {
    seq![
        InstrV::GetLocal(addr_l),
        InstrV::ConstI32(0xFFF),
        InstrV::AndI32,
        InstrV::ConstI32((0x1000 - w) as u32),
        InstrV::LeSI32,
        InstrV::AndI32,
    ]
}

/// The whole fast-path predicate for an access of width `bits`.
pub open spec fn code_probe(mask: u32, addr_l: u32, e: u32, bits: BitSize) -> Seq<InstrV> {
    code_tlb_probe(mask, addr_l, e) + if bits is Byte {
        Seq::<InstrV>::empty()
    } else {
        code_page_fit(addr_l, width_bytes(bits))
    }
}

/// Compute the guest-physical offset: `(entry & ~0xFFF) ^ addr`.
pub open spec fn code_phys(e: u32, addr_l: u32) -> Seq<InstrV> {
    seq![
        InstrV::GetLocal(e),
        InstrV::ConstI32(0xFFFF_F000),
        InstrV::AndI32,
        InstrV::GetLocal(addr_l),
        InstrV::XorI32,
    ]
}

/// The fast-path body of a read: an inline access to guest physical
/// memory.  A 128-bit read splits into two 64-bit reads written to the
/// caller's scratch buffer at `wtw` through scratch local `v`.
pub open spec fn code_fast_read(bits: BitSize, addr_l: u32, e: u32, v: u32, wtw: u32) -> Seq<
    InstrV,
> {
    code_phys(e, addr_l) + match bits {
        BitSize::Byte => seq![InstrV::LoadU8(layout::MEM8)],
        BitSize::Word => seq![InstrV::LoadU16(layout::MEM8)],
        BitSize::Dword => seq![InstrV::LoadI32(layout::MEM8)],
        BitSize::Qword => seq![InstrV::LoadI64(layout::MEM8)],
        BitSize::Dqword => seq![
            InstrV::SetLocal(v),
            InstrV::ConstI32(0),
            InstrV::GetLocal(v),
            InstrV::LoadI64(layout::MEM8),
            InstrV::StoreI64(wtw),
            InstrV::ConstI32(0),
            InstrV::GetLocal(v),
            InstrV::LoadI64((layout::MEM8 + 8) as u32),
            InstrV::StoreI64((wtw + 8) as u32),
        ],
    }
}

/// The slow-path helper for a read of width `bits`.
pub open spec fn read_slow_fn(bits: BitSize) -> HostFn {
    match bits {
        BitSize::Byte => HostFn::SafeRead8Slow,
        BitSize::Word => HostFn::SafeRead16Slow,
        BitSize::Dword => HostFn::SafeRead32Slow,
        BitSize::Qword => HostFn::SafeRead64Slow,
        BitSize::Dqword => HostFn::SafeRead128Slow,
    }
}

/// The bail-out sequence: restore a fault instruction pointer whose low
/// 12 bits are the translated instruction's, then break out to the
/// translation unit's page-fault catcher.
pub open spec fn code_bailout(start_low: u32, depth: u32) -> Seq<InstrV> {
    code_set_previous_eip_low_bits(start_low) + seq![InstrV::Br(depth)]
}

/// Test the page-fault byte after a slow-path call and bail out when it
/// is set.
pub open spec fn code_pf_check(start_low: u32, depth: u32) -> Seq<InstrV> {
    seq![
        InstrV::LoadU8At(layout::PAGE_FAULT),
        InstrV::IfBlock {
            kind: BlockKind::NoRes,
            then_code: code_bailout(start_low, depth),
            else_code: Seq::<InstrV>::empty(),
        },
    ]
}

/// The slow-path body of a read: call the width-specific helper on the
/// virtual address (plus the scratch-buffer offset for 128 bits), then
/// check the page-fault byte.
pub open spec fn code_slow_read(bits: BitSize, addr_l: u32, wtw: u32, start_low: u32, depth: u32) -> Seq<
    InstrV,
> {
    seq![InstrV::GetLocal(addr_l)] + (if bits is Dqword {
        seq![InstrV::ConstI32(wtw)]
    } else {
        Seq::<InstrV>::empty()
    }) + seq![InstrV::Call(read_slow_fn(bits))] + code_pf_check(start_low, depth)
}

/// Result type of the structured if for a read of width `bits`: i64 for
/// 64-bit reads, nothing for 128-bit reads (materialized through the
/// scratch buffer), i32 otherwise.
pub open spec fn read_block_kind(bits: BitSize) -> BlockKind {
    match bits {
        BitSize::Qword => BlockKind::ResI64,
        BitSize::Dqword => BlockKind::NoRes,
        _ => BlockKind::ResI32,
    }
}

/// The complete code of a guarded read of width `bits`: probe, then one
/// structured if holding the fast path and the slow path.  `e` and `v`
/// name the scratch locals.
pub open spec fn code_safe_read(
    bits: BitSize,
    cpl3: bool,
    addr_l: u32,
    e: u32,
    v: u32,
    wtw: u32,
    start_low: u32,
    depth: u32,
) -> Seq<InstrV> {
    code_probe(read_status_mask(cpl3), addr_l, e, bits) + seq![
        InstrV::IfBlock {
            kind: read_block_kind(bits),
            then_code: code_fast_read(bits, addr_l, e, v, wtw),
            else_code: code_slow_read(bits, addr_l, wtw, start_low, depth),
        },
    ]
}

/// Emit a guarded read of width `bits` from the virtual address held in
/// `address_local`, leaving the value on the stack (or in the scratch
/// buffer for 128 bits).
#[verifier::rlimit(60)]
fn gen_safe_read(ctx: &mut JitContext, bits: BitSize, address_local: &HostLocal, where_to_write: Option<u32>)
    requires
        old(ctx).wf(),
        old(ctx).builder.is_live(address_local.idx),
        old(ctx).builder.room(2),
        old(ctx).current_brtable_depth >= 2,
        (where_to_write is Some) <==> (bits is Dqword),
        opt_or_zero(where_to_write) <= 0xFFFF_FF00,
    ensures
        final(ctx).wf(),
        exists|e: u32, v: u32|
            {
                &&& !old(ctx).builder.is_live(e)
                &&& (bits is Dqword ==> !old(ctx).builder.is_live(v) && e != v)
                &&& ctx_emits(
                    *old(ctx),
                    *final(ctx),
                    #[trigger] code_safe_read(
                        bits,
                        old(ctx).cpu.cpl3,
                        address_local.idx,
                        e,
                        v,
                        opt_or_zero(where_to_write),
                        (old(ctx).start_of_current_instruction & 0xFFF) as u32,
                        old(ctx).current_brtable_depth,
                    ),
                )
            },
        final(ctx).builder.next_local() <= old(ctx).builder.next_local() + 2,
{
    let ghost pre = *ctx;
    let ghost b0 = ctx.builder;
    let ghost a = address_local.idx;
    let ghost start_low = (pre.start_of_current_instruction & 0xFFF) as u32;
    let ghost depth = pre.current_brtable_depth;
    let ghost mask_g = read_status_mask(pre.cpu.cpl3);

    ctx.builder.get_local(address_local);
    // page index of the virtual address
    ctx.builder.const_i32(12);
    ctx.builder.shr_u_i32();
    // scale to a byte index into the TLB array
    ctx.builder.const_i32(2);
    ctx.builder.shl_i32();
    // entry = tlb_data[page]
    ctx.builder.load_aligned_i32_from_stack(layout::TLB_DATA);
    let entry_local = ctx.builder.tee_new_local();
    let ghost e = entry_local.idx;

    let mask: u32 = 0xFFF & !arch::TLB_READONLY & !arch::TLB_GLOBAL & !arch::TLB_HAS_CODE & !(
    if ctx.cpu.cpl3() {
        0
    } else {
        arch::TLB_NO_USER
    });
    proof {
        lemma_cast_roundtrip_u32(mask);
    }
    ctx.builder.const_i32(mask as i32);
    ctx.builder.and_i32();
    ctx.builder.const_i32(arch::TLB_VALID as i32);
    ctx.builder.eq_i32();
    proof {
        let fs = b0.frames_v();
        lemma_push_onto_app(fs, seq![InstrV::GetLocal(a)], seq![InstrV::ConstI32(12)]);
        assert(seq![InstrV::GetLocal(a)] + seq![InstrV::ConstI32(12)] =~= seq![InstrV::GetLocal(a), InstrV::ConstI32(12)]);
        lemma_push_onto_app(fs, seq![InstrV::GetLocal(a), InstrV::ConstI32(12)], seq![InstrV::ShrUI32]);
        assert(seq![InstrV::GetLocal(a), InstrV::ConstI32(12)] + seq![InstrV::ShrUI32] =~= seq![InstrV::GetLocal(a), InstrV::ConstI32(12), InstrV::ShrUI32]);
        lemma_push_onto_app(fs, seq![InstrV::GetLocal(a), InstrV::ConstI32(12), InstrV::ShrUI32], seq![InstrV::ConstI32(2)]);
        assert(seq![InstrV::GetLocal(a), InstrV::ConstI32(12), InstrV::ShrUI32] + seq![InstrV::ConstI32(2)] =~= seq![InstrV::GetLocal(a), InstrV::ConstI32(12), InstrV::ShrUI32, InstrV::ConstI32(2)]);
        lemma_push_onto_app(fs, seq![InstrV::GetLocal(a), InstrV::ConstI32(12), InstrV::ShrUI32, InstrV::ConstI32(2)], seq![InstrV::ShlI32]);
        assert(seq![InstrV::GetLocal(a), InstrV::ConstI32(12), InstrV::ShrUI32, InstrV::ConstI32(2)] + seq![InstrV::ShlI32] =~= seq![InstrV::GetLocal(a), InstrV::ConstI32(12), InstrV::ShrUI32, InstrV::ConstI32(2), InstrV::ShlI32]);
        lemma_push_onto_app(fs, seq![InstrV::GetLocal(a), InstrV::ConstI32(12), InstrV::ShrUI32, InstrV::ConstI32(2), InstrV::ShlI32], seq![InstrV::LoadI32(layout::TLB_DATA)]);
        assert(seq![InstrV::GetLocal(a), InstrV::ConstI32(12), InstrV::ShrUI32, InstrV::ConstI32(2), InstrV::ShlI32] + seq![InstrV::LoadI32(layout::TLB_DATA)] =~= seq![InstrV::GetLocal(a), InstrV::ConstI32(12), InstrV::ShrUI32, InstrV::ConstI32(2), InstrV::ShlI32, InstrV::LoadI32(layout::TLB_DATA)]);
        lemma_push_onto_app(fs, seq![InstrV::GetLocal(a), InstrV::ConstI32(12), InstrV::ShrUI32, InstrV::ConstI32(2), InstrV::ShlI32, InstrV::LoadI32(layout::TLB_DATA)], seq![InstrV::TeeLocal(e)]);
        assert(seq![InstrV::GetLocal(a), InstrV::ConstI32(12), InstrV::ShrUI32, InstrV::ConstI32(2), InstrV::ShlI32, InstrV::LoadI32(layout::TLB_DATA)] + seq![InstrV::TeeLocal(e)] =~= seq![InstrV::GetLocal(a), InstrV::ConstI32(12), InstrV::ShrUI32, InstrV::ConstI32(2), InstrV::ShlI32, InstrV::LoadI32(layout::TLB_DATA), InstrV::TeeLocal(e)]);
        lemma_push_onto_app(fs, seq![InstrV::GetLocal(a), InstrV::ConstI32(12), InstrV::ShrUI32, InstrV::ConstI32(2), InstrV::ShlI32, InstrV::LoadI32(layout::TLB_DATA), InstrV::TeeLocal(e)], seq![InstrV::ConstI32(mask_g)]);
        assert(seq![InstrV::GetLocal(a), InstrV::ConstI32(12), InstrV::ShrUI32, InstrV::ConstI32(2), InstrV::ShlI32, InstrV::LoadI32(layout::TLB_DATA), InstrV::TeeLocal(e)] + seq![InstrV::ConstI32(mask_g)] =~= seq![InstrV::GetLocal(a), InstrV::ConstI32(12), InstrV::ShrUI32, InstrV::ConstI32(2), InstrV::ShlI32, InstrV::LoadI32(layout::TLB_DATA), InstrV::TeeLocal(e), InstrV::ConstI32(mask_g)]);
        lemma_push_onto_app(fs, seq![InstrV::GetLocal(a), InstrV::ConstI32(12), InstrV::ShrUI32, InstrV::ConstI32(2), InstrV::ShlI32, InstrV::LoadI32(layout::TLB_DATA), InstrV::TeeLocal(e), InstrV::ConstI32(mask_g)], seq![InstrV::AndI32]);
        assert(seq![InstrV::GetLocal(a), InstrV::ConstI32(12), InstrV::ShrUI32, InstrV::ConstI32(2), InstrV::ShlI32, InstrV::LoadI32(layout::TLB_DATA), InstrV::TeeLocal(e), InstrV::ConstI32(mask_g)] + seq![InstrV::AndI32] =~= seq![InstrV::GetLocal(a), InstrV::ConstI32(12), InstrV::ShrUI32, InstrV::ConstI32(2), InstrV::ShlI32, InstrV::LoadI32(layout::TLB_DATA), InstrV::TeeLocal(e), InstrV::ConstI32(mask_g), InstrV::AndI32]);
        lemma_push_onto_app(fs, seq![InstrV::GetLocal(a), InstrV::ConstI32(12), InstrV::ShrUI32, InstrV::ConstI32(2), InstrV::ShlI32, InstrV::LoadI32(layout::TLB_DATA), InstrV::TeeLocal(e), InstrV::ConstI32(mask_g), InstrV::AndI32], seq![InstrV::ConstI32(arch::TLB_VALID)]);
        assert(seq![InstrV::GetLocal(a), InstrV::ConstI32(12), InstrV::ShrUI32, InstrV::ConstI32(2), InstrV::ShlI32, InstrV::LoadI32(layout::TLB_DATA), InstrV::TeeLocal(e), InstrV::ConstI32(mask_g), InstrV::AndI32] + seq![InstrV::ConstI32(arch::TLB_VALID)] =~= seq![InstrV::GetLocal(a), InstrV::ConstI32(12), InstrV::ShrUI32, InstrV::ConstI32(2), InstrV::ShlI32, InstrV::LoadI32(layout::TLB_DATA), InstrV::TeeLocal(e), InstrV::ConstI32(mask_g), InstrV::AndI32, InstrV::ConstI32(arch::TLB_VALID)]);
        lemma_push_onto_app(fs, seq![InstrV::GetLocal(a), InstrV::ConstI32(12), InstrV::ShrUI32, InstrV::ConstI32(2), InstrV::ShlI32, InstrV::LoadI32(layout::TLB_DATA), InstrV::TeeLocal(e), InstrV::ConstI32(mask_g), InstrV::AndI32, InstrV::ConstI32(arch::TLB_VALID)], seq![InstrV::EqI32]);
        assert(seq![InstrV::GetLocal(a), InstrV::ConstI32(12), InstrV::ShrUI32, InstrV::ConstI32(2), InstrV::ShlI32, InstrV::LoadI32(layout::TLB_DATA), InstrV::TeeLocal(e), InstrV::ConstI32(mask_g), InstrV::AndI32, InstrV::ConstI32(arch::TLB_VALID)] + seq![InstrV::EqI32] =~= seq![InstrV::GetLocal(a), InstrV::ConstI32(12), InstrV::ShrUI32, InstrV::ConstI32(2), InstrV::ShlI32, InstrV::LoadI32(layout::TLB_DATA), InstrV::TeeLocal(e), InstrV::ConstI32(mask_g), InstrV::AndI32, InstrV::ConstI32(arch::TLB_VALID), InstrV::EqI32]);
        assert(seq![InstrV::GetLocal(a), InstrV::ConstI32(12), InstrV::ShrUI32, InstrV::ConstI32(2), InstrV::ShlI32, InstrV::LoadI32(layout::TLB_DATA), InstrV::TeeLocal(e), InstrV::ConstI32(mask_g), InstrV::AndI32, InstrV::ConstI32(arch::TLB_VALID), InstrV::EqI32] =~= code_tlb_probe(mask_g, a, e));
        assert(emitted(b0, ctx.builder, code_tlb_probe(mask_g, a, e)));
    }
    let ghost b_probe0 = ctx.builder;

    if bits.bytes() > 1 {
        let w = bits.bytes();
        ctx.builder.get_local(address_local);
        ctx.builder.const_i32(0xFFF);
        ctx.builder.and_i32();
        ctx.builder.const_i32(0x1000 - w as i32);
        ctx.builder.le_i32();
        ctx.builder.and_i32();
        proof {
            let fs = b_probe0.frames_v();
            let wg = width_bytes(bits);
            assert(((0x1000 - wg as i32) as u32) == (0x1000 - wg) as u32);
            lemma_push_onto_app(fs, seq![InstrV::GetLocal(a)], seq![InstrV::ConstI32(0xFFF)]);
            assert(seq![InstrV::GetLocal(a)] + seq![InstrV::ConstI32(0xFFF)] =~= seq![InstrV::GetLocal(a), InstrV::ConstI32(0xFFF)]);
            lemma_push_onto_app(fs, seq![InstrV::GetLocal(a), InstrV::ConstI32(0xFFF)], seq![InstrV::AndI32]);
            assert(seq![InstrV::GetLocal(a), InstrV::ConstI32(0xFFF)] + seq![InstrV::AndI32] =~= seq![InstrV::GetLocal(a), InstrV::ConstI32(0xFFF), InstrV::AndI32]);
            lemma_push_onto_app(fs, seq![InstrV::GetLocal(a), InstrV::ConstI32(0xFFF), InstrV::AndI32], seq![InstrV::ConstI32((0x1000 - wg) as u32)]);
            assert(seq![InstrV::GetLocal(a), InstrV::ConstI32(0xFFF), InstrV::AndI32] + seq![InstrV::ConstI32((0x1000 - wg) as u32)] =~= seq![InstrV::GetLocal(a), InstrV::ConstI32(0xFFF), InstrV::AndI32, InstrV::ConstI32((0x1000 - wg) as u32)]);
            lemma_push_onto_app(fs, seq![InstrV::GetLocal(a), InstrV::ConstI32(0xFFF), InstrV::AndI32, InstrV::ConstI32((0x1000 - wg) as u32)], seq![InstrV::LeSI32]);
            assert(seq![InstrV::GetLocal(a), InstrV::ConstI32(0xFFF), InstrV::AndI32, InstrV::ConstI32((0x1000 - wg) as u32)] + seq![InstrV::LeSI32] =~= seq![InstrV::GetLocal(a), InstrV::ConstI32(0xFFF), InstrV::AndI32, InstrV::ConstI32((0x1000 - wg) as u32), InstrV::LeSI32]);
            lemma_push_onto_app(fs, seq![InstrV::GetLocal(a), InstrV::ConstI32(0xFFF), InstrV::AndI32, InstrV::ConstI32((0x1000 - wg) as u32), InstrV::LeSI32], seq![InstrV::AndI32]);
            assert(seq![InstrV::GetLocal(a), InstrV::ConstI32(0xFFF), InstrV::AndI32, InstrV::ConstI32((0x1000 - wg) as u32), InstrV::LeSI32] + seq![InstrV::AndI32] =~= seq![InstrV::GetLocal(a), InstrV::ConstI32(0xFFF), InstrV::AndI32, InstrV::ConstI32((0x1000 - wg) as u32), InstrV::LeSI32, InstrV::AndI32]);
            assert(seq![InstrV::GetLocal(a), InstrV::ConstI32(0xFFF), InstrV::AndI32, InstrV::ConstI32((0x1000 - wg) as u32), InstrV::LeSI32, InstrV::AndI32] =~= code_page_fit(a, wg));
            assert(emitted(b_probe0, ctx.builder, code_page_fit(a, wg)));
            lemma_push_onto_app(b0.frames_v(), code_tlb_probe(mask_g, a, e), code_page_fit(a, wg));
            assert(emitted(b0, ctx.builder, code_probe(mask_g, a, e, bits)));
        }
    } else {
        proof {
            assert(code_tlb_probe(mask_g, a, e) + Seq::<InstrV>::empty() =~= code_tlb_probe(
                mask_g,
                a,
                e,
            ));
            assert(emitted(b0, ctx.builder, code_probe(mask_g, a, e, bits)));
        }
    }
    let ghost b_probe = ctx.builder;

    // if (can_use_fast_path) { inline access } else { slow path }
    match bits {
        BitSize::Dqword => ctx.builder.if_void(),
        BitSize::Qword => ctx.builder.if_i64(),
        _ => ctx.builder.if_i32(),
    }
    let ghost b_if = ctx.builder;

    ctx.builder.get_local(&entry_local);
    ctx.builder.const_i32(!0xFFF);
    ctx.builder.and_i32();
    ctx.builder.get_local(address_local);
    ctx.builder.xor_i32();
    proof {
        assert(((!0xFFFi32) as u32) == 0xFFFF_F000u32) by (bit_vector);
        let fs = b_if.frames_v();
        lemma_push_onto_app(fs, seq![InstrV::GetLocal(e)], seq![InstrV::ConstI32(0xFFFF_F000)]);
        assert(seq![InstrV::GetLocal(e)] + seq![InstrV::ConstI32(0xFFFF_F000)] =~= seq![InstrV::GetLocal(e), InstrV::ConstI32(0xFFFF_F000)]);
        lemma_push_onto_app(fs, seq![InstrV::GetLocal(e), InstrV::ConstI32(0xFFFF_F000)], seq![InstrV::AndI32]);
        assert(seq![InstrV::GetLocal(e), InstrV::ConstI32(0xFFFF_F000)] + seq![InstrV::AndI32] =~= seq![InstrV::GetLocal(e), InstrV::ConstI32(0xFFFF_F000), InstrV::AndI32]);
        lemma_push_onto_app(fs, seq![InstrV::GetLocal(e), InstrV::ConstI32(0xFFFF_F000), InstrV::AndI32], seq![InstrV::GetLocal(a)]);
        assert(seq![InstrV::GetLocal(e), InstrV::ConstI32(0xFFFF_F000), InstrV::AndI32] + seq![InstrV::GetLocal(a)] =~= seq![InstrV::GetLocal(e), InstrV::ConstI32(0xFFFF_F000), InstrV::AndI32, InstrV::GetLocal(a)]);
        lemma_push_onto_app(fs, seq![InstrV::GetLocal(e), InstrV::ConstI32(0xFFFF_F000), InstrV::AndI32, InstrV::GetLocal(a)], seq![InstrV::XorI32]);
        assert(seq![InstrV::GetLocal(e), InstrV::ConstI32(0xFFFF_F000), InstrV::AndI32, InstrV::GetLocal(a)] + seq![InstrV::XorI32] =~= seq![InstrV::GetLocal(e), InstrV::ConstI32(0xFFFF_F000), InstrV::AndI32, InstrV::GetLocal(a), InstrV::XorI32]);
        assert(seq![InstrV::GetLocal(e), InstrV::ConstI32(0xFFFF_F000), InstrV::AndI32, InstrV::GetLocal(a), InstrV::XorI32] =~= code_phys(e, a));
        assert(emitted(b_if, ctx.builder, code_phys(e, a)));
    }
    let ghost b_phys = ctx.builder;
    let ghost wtw_g: u32 = if where_to_write is Some {
        where_to_write->0
    } else {
        0
    };
    let ghost v_g: u32;

    match bits {
        BitSize::Byte => {
            ctx.builder.load_u8_from_stack(layout::MEM8);
            proof {
                v_g = e;
                lemma_push_onto_app(b_if.frames_v(), code_phys(e, a), seq![InstrV::LoadU8(layout::MEM8)]);
            }
        },
        BitSize::Word => {
            ctx.builder.load_unaligned_u16_from_stack(layout::MEM8);
            proof {
                v_g = e;
                lemma_push_onto_app(b_if.frames_v(), code_phys(e, a), seq![InstrV::LoadU16(layout::MEM8)]);
            }
        },
        BitSize::Dword => {
            ctx.builder.load_unaligned_i32_from_stack(layout::MEM8);
            proof {
                v_g = e;
                lemma_push_onto_app(b_if.frames_v(), code_phys(e, a), seq![InstrV::LoadI32(layout::MEM8)]);
            }
        },
        BitSize::Qword => {
            ctx.builder.load_unaligned_i64_from_stack(layout::MEM8);
            proof {
                v_g = e;
                lemma_push_onto_app(b_if.frames_v(), code_phys(e, a), seq![InstrV::LoadI64(layout::MEM8)]);
            }
        },
        BitSize::Dqword => {
            let wtw = match where_to_write {
                Some(w) => w,
                None => 0,
            };
            let virt_address_local = ctx.builder.set_new_local();
            proof {
                v_g = virt_address_local.idx;
            }
            let ghost v = virt_address_local.idx;
            ctx.builder.const_i32(0);
            ctx.builder.get_local(&virt_address_local);
            ctx.builder.load_unaligned_i64_from_stack(layout::MEM8);
            ctx.builder.store_unaligned_i64(wtw);
            ctx.builder.const_i32(0);
            ctx.builder.get_local(&virt_address_local);
            ctx.builder.load_unaligned_i64_from_stack(layout::MEM8 + 8);
            ctx.builder.store_unaligned_i64(wtw + 8);
            ctx.builder.free_local(virt_address_local);
            proof {
                let fs = b_phys.frames_v();
                lemma_push_onto_app(fs, seq![InstrV::SetLocal(v)], seq![InstrV::ConstI32(0)]);
                assert(seq![InstrV::SetLocal(v)] + seq![InstrV::ConstI32(0)] =~= seq![InstrV::SetLocal(v), InstrV::ConstI32(0)]);
                lemma_push_onto_app(fs, seq![InstrV::SetLocal(v), InstrV::ConstI32(0)], seq![InstrV::GetLocal(v)]);
                assert(seq![InstrV::SetLocal(v), InstrV::ConstI32(0)] + seq![InstrV::GetLocal(v)] =~= seq![InstrV::SetLocal(v), InstrV::ConstI32(0), InstrV::GetLocal(v)]);
                lemma_push_onto_app(fs, seq![InstrV::SetLocal(v), InstrV::ConstI32(0), InstrV::GetLocal(v)], seq![InstrV::LoadI64(layout::MEM8)]);
                assert(seq![InstrV::SetLocal(v), InstrV::ConstI32(0), InstrV::GetLocal(v)] + seq![InstrV::LoadI64(layout::MEM8)] =~= seq![InstrV::SetLocal(v), InstrV::ConstI32(0), InstrV::GetLocal(v), InstrV::LoadI64(layout::MEM8)]);
                lemma_push_onto_app(fs, seq![InstrV::SetLocal(v), InstrV::ConstI32(0), InstrV::GetLocal(v), InstrV::LoadI64(layout::MEM8)], seq![InstrV::StoreI64(wtw_g)]);
                assert(seq![InstrV::SetLocal(v), InstrV::ConstI32(0), InstrV::GetLocal(v), InstrV::LoadI64(layout::MEM8)] + seq![InstrV::StoreI64(wtw_g)] =~= seq![InstrV::SetLocal(v), InstrV::ConstI32(0), InstrV::GetLocal(v), InstrV::LoadI64(layout::MEM8), InstrV::StoreI64(wtw_g)]);
                lemma_push_onto_app(fs, seq![InstrV::SetLocal(v), InstrV::ConstI32(0), InstrV::GetLocal(v), InstrV::LoadI64(layout::MEM8), InstrV::StoreI64(wtw_g)], seq![InstrV::ConstI32(0)]);
                assert(seq![InstrV::SetLocal(v), InstrV::ConstI32(0), InstrV::GetLocal(v), InstrV::LoadI64(layout::MEM8), InstrV::StoreI64(wtw_g)] + seq![InstrV::ConstI32(0)] =~= seq![InstrV::SetLocal(v), InstrV::ConstI32(0), InstrV::GetLocal(v), InstrV::LoadI64(layout::MEM8), InstrV::StoreI64(wtw_g), InstrV::ConstI32(0)]);
                lemma_push_onto_app(fs, seq![InstrV::SetLocal(v), InstrV::ConstI32(0), InstrV::GetLocal(v), InstrV::LoadI64(layout::MEM8), InstrV::StoreI64(wtw_g), InstrV::ConstI32(0)], seq![InstrV::GetLocal(v)]);
                assert(seq![InstrV::SetLocal(v), InstrV::ConstI32(0), InstrV::GetLocal(v), InstrV::LoadI64(layout::MEM8), InstrV::StoreI64(wtw_g), InstrV::ConstI32(0)] + seq![InstrV::GetLocal(v)] =~= seq![InstrV::SetLocal(v), InstrV::ConstI32(0), InstrV::GetLocal(v), InstrV::LoadI64(layout::MEM8), InstrV::StoreI64(wtw_g), InstrV::ConstI32(0), InstrV::GetLocal(v)]);
                lemma_push_onto_app(fs, seq![InstrV::SetLocal(v), InstrV::ConstI32(0), InstrV::GetLocal(v), InstrV::LoadI64(layout::MEM8), InstrV::StoreI64(wtw_g), InstrV::ConstI32(0), InstrV::GetLocal(v)], seq![InstrV::LoadI64((layout::MEM8 + 8) as u32)]);
                assert(seq![InstrV::SetLocal(v), InstrV::ConstI32(0), InstrV::GetLocal(v), InstrV::LoadI64(layout::MEM8), InstrV::StoreI64(wtw_g), InstrV::ConstI32(0), InstrV::GetLocal(v)] + seq![InstrV::LoadI64((layout::MEM8 + 8) as u32)] =~= seq![InstrV::SetLocal(v), InstrV::ConstI32(0), InstrV::GetLocal(v), InstrV::LoadI64(layout::MEM8), InstrV::StoreI64(wtw_g), InstrV::ConstI32(0), InstrV::GetLocal(v), InstrV::LoadI64((layout::MEM8 + 8) as u32)]);
                lemma_push_onto_app(fs, seq![InstrV::SetLocal(v), InstrV::ConstI32(0), InstrV::GetLocal(v), InstrV::LoadI64(layout::MEM8), InstrV::StoreI64(wtw_g), InstrV::ConstI32(0), InstrV::GetLocal(v), InstrV::LoadI64((layout::MEM8 + 8) as u32)], seq![InstrV::StoreI64((wtw_g + 8) as u32)]);
                assert(seq![InstrV::SetLocal(v), InstrV::ConstI32(0), InstrV::GetLocal(v), InstrV::LoadI64(layout::MEM8), InstrV::StoreI64(wtw_g), InstrV::ConstI32(0), InstrV::GetLocal(v), InstrV::LoadI64((layout::MEM8 + 8) as u32)] + seq![InstrV::StoreI64((wtw_g + 8) as u32)] =~= seq![InstrV::SetLocal(v), InstrV::ConstI32(0), InstrV::GetLocal(v), InstrV::LoadI64(layout::MEM8), InstrV::StoreI64(wtw_g), InstrV::ConstI32(0), InstrV::GetLocal(v), InstrV::LoadI64((layout::MEM8 + 8) as u32), InstrV::StoreI64((wtw_g + 8) as u32)]);
                lemma_push_onto_app(b_if.frames_v(), code_phys(e, a), seq![
                    InstrV::SetLocal(v),
                    InstrV::ConstI32(0),
                    InstrV::GetLocal(v),
                    InstrV::LoadI64(layout::MEM8),
                    InstrV::StoreI64(wtw_g),
                    InstrV::ConstI32(0),
                    InstrV::GetLocal(v),
                    InstrV::LoadI64((layout::MEM8 + 8) as u32),
                    InstrV::StoreI64((wtw_g + 8) as u32),
                ]);
            }
        },
    }
    proof {
        assert(emitted(b_if, ctx.builder, code_fast_read(bits, a, e, v_g, wtw_g)));
    }
    let ghost b_fast = ctx.builder;

    ctx.builder.else_();
    let ghost b_else = ctx.builder;

    ctx.builder.get_local(address_local);
    let ghost b_s0 = ctx.builder;
    match bits {
        BitSize::Byte => {
            gen_call_fn1_ret(&mut ctx.builder, HostFn::SafeRead8Slow);
        },
        BitSize::Word => {
            gen_call_fn1_ret(&mut ctx.builder, HostFn::SafeRead16Slow);
        },
        BitSize::Dword => {
            gen_call_fn1_ret(&mut ctx.builder, HostFn::SafeRead32Slow);
        },
        BitSize::Qword => {
            gen_call_fn1_ret_i64(&mut ctx.builder, HostFn::SafeRead64Slow);
        },
        BitSize::Dqword => {
            let wtw = match where_to_write {
                Some(w) => w,
                None => 0,
            };
            proof {
                lemma_cast_roundtrip_u32(wtw);
            }
            ctx.builder.const_i32(wtw as i32);
            gen_call_fn2(&mut ctx.builder, HostFn::SafeRead128Slow);
            proof {
                lemma_push_onto_app(b_s0.frames_v(), seq![InstrV::ConstI32(wtw_g)], seq![InstrV::Call(HostFn::SafeRead128Slow)]);
            }
        },
    }
    proof {
        if bits is Dqword {
            lemma_push_onto_app(b_else.frames_v(), seq![InstrV::GetLocal(a)], seq![InstrV::ConstI32(wtw_g), InstrV::Call(read_slow_fn(bits))]);
            assert(seq![InstrV::GetLocal(a)] + seq![InstrV::ConstI32(wtw_g), InstrV::Call(read_slow_fn(bits))] =~= seq![InstrV::GetLocal(a), InstrV::ConstI32(wtw_g), InstrV::Call(read_slow_fn(bits))]);
            assert(seq![InstrV::ConstI32(wtw_g)] + seq![InstrV::Call(read_slow_fn(bits))] =~= seq![InstrV::ConstI32(wtw_g), InstrV::Call(read_slow_fn(bits))]);
        } else {
            lemma_push_onto_app(b_else.frames_v(), seq![InstrV::GetLocal(a)], seq![InstrV::Call(read_slow_fn(bits))]);
            assert(seq![InstrV::GetLocal(a)] + seq![InstrV::Call(read_slow_fn(bits))] =~= seq![InstrV::GetLocal(a), InstrV::Call(read_slow_fn(bits))]);
        }
    }
    let ghost b_call = ctx.builder;

    ctx.builder.load_u8(layout::PAGE_FAULT);
    let ghost b_pf = ctx.builder;

    ctx.builder.if_void();
    let ghost bi1 = ctx.builder;
    gen_debug_track_jit_exit(&mut ctx.builder, ctx.start_of_current_instruction);
    let low = (ctx.start_of_current_instruction & 0xFFF) as i32;
    gen_set_previous_eip_offset_from_eip_with_low_bits(&mut ctx.builder, low);
    // -2 for the exit-with-pagefault block, +2 for leaving the two nested
    // ifs opened by this emitter
    let br_offset = ctx.current_brtable_depth - 2 + 2;
    ctx.builder.br(br_offset);
    proof {
        lemma_low12_bound(pre.start_of_current_instruction);
        assert(((low as u32)) == start_low);
        lemma_push_onto_app(bi1.frames_v(), code_set_previous_eip_low_bits(start_low), seq![InstrV::Br(depth)]);
        assert(emitted(bi1, ctx.builder, code_bailout(start_low, depth)));
    }
    let ghost bi2 = ctx.builder;
    ctx.builder.block_end();
    let ghost bi3 = ctx.builder;
    proof {
        lemma_if_bracket_noelse(b_pf, bi1, bi2, bi3, BlockKind::NoRes, code_bailout(start_low, depth));
        // slow body: address (+ scratch offset), call, page-fault check
        lemma_push_onto_app(b_else.frames_v(), (if bits is Dqword { seq![InstrV::GetLocal(a), InstrV::ConstI32(wtw_g), InstrV::Call(read_slow_fn(bits))] } else { seq![InstrV::GetLocal(a), InstrV::Call(read_slow_fn(bits))] }), seq![InstrV::LoadU8At(layout::PAGE_FAULT)]);
        lemma_push_onto_app(
            b_else.frames_v(),
            (if bits is Dqword { seq![InstrV::GetLocal(a), InstrV::ConstI32(wtw_g), InstrV::Call(read_slow_fn(bits))] } else { seq![InstrV::GetLocal(a), InstrV::Call(read_slow_fn(bits))] }) + seq![InstrV::LoadU8At(layout::PAGE_FAULT)],
            seq![
                InstrV::IfBlock {
                    kind: BlockKind::NoRes,
                    then_code: code_bailout(start_low, depth),
                    else_code: Seq::<InstrV>::empty(),
                },
            ],
        );
        assert((if bits is Dqword { seq![InstrV::GetLocal(a), InstrV::ConstI32(wtw_g), InstrV::Call(read_slow_fn(bits))] } else { seq![InstrV::GetLocal(a), InstrV::Call(read_slow_fn(bits))] }) + seq![InstrV::LoadU8At(layout::PAGE_FAULT)] + seq![
            InstrV::IfBlock {
                kind: BlockKind::NoRes,
                then_code: code_bailout(start_low, depth),
                else_code: Seq::<InstrV>::empty(),
            },
        ] =~= code_slow_read(bits, a, wtw_g, start_low, depth));
        assert(emitted(b_else, bi3, code_slow_read(bits, a, wtw_g, start_low, depth)));
    }
    ctx.builder.block_end();
    proof {
        lemma_if_bracket(
            b_probe,
            b_if,
            b_fast,
            b_else,
            bi3,
            ctx.builder,
            read_block_kind(bits),
            code_fast_read(bits, a, e, v_g, wtw_g),
            code_slow_read(bits, a, wtw_g, start_low, depth),
        );
        lemma_push_onto_app(
            b0.frames_v(),
            code_probe(mask_g, a, e, bits),
            seq![
                InstrV::IfBlock {
                    kind: read_block_kind(bits),
                    then_code: code_fast_read(bits, a, e, v_g, wtw_g),
                    else_code: code_slow_read(bits, a, wtw_g, start_low, depth),
                },
            ],
        );
    }
    ctx.builder.free_local(entry_local);
    proof {
        assert(emitted(b0, ctx.builder, code_safe_read(bits, pre.cpu.cpl3, a, e, v_g, wtw_g, start_low, depth)));
        assert(forall|y: u32| pre.builder.is_live(y) == #[trigger] ctx.builder.is_live(y));
        assert(ctx_emits(pre, *ctx, code_safe_read(bits, pre.cpu.cpl3, a, e, v_g, wtw_g, start_low, depth)));
    }
}

/// Emit a guarded 8-bit read.
pub fn gen_safe_read8(ctx: &mut JitContext, address_local: &HostLocal)
    requires
        old(ctx).wf(),
        old(ctx).builder.is_live(address_local.idx),
        old(ctx).builder.room(2),
        old(ctx).current_brtable_depth >= 2,
    ensures
        final(ctx).wf(),
        exists|e: u32|
            !old(ctx).builder.is_live(e) && ctx_emits(
                *old(ctx),
                *final(ctx),
                #[trigger] code_safe_read(
                    BitSize::Byte,
                    old(ctx).cpu.cpl3,
                    address_local.idx,
                    e,
                    e,
                    0,
                    (old(ctx).start_of_current_instruction & 0xFFF) as u32,
                    old(ctx).current_brtable_depth,
                ),
            ),
        final(ctx).builder.next_local() <= old(ctx).builder.next_local() + 2,
{
    gen_safe_read(ctx, BitSize::Byte, address_local, None);
    proof {
        let (e, v) = choose|e: u32, v: u32|
            {
                &&& !old(ctx).builder.is_live(e)
                &&& (BitSize::Byte is Dqword ==> !old(ctx).builder.is_live(v) && e != v)
                &&& ctx_emits(
                    *old(ctx),
                    *ctx,
                    #[trigger] code_safe_read(
                        BitSize::Byte,
                        old(ctx).cpu.cpl3,
                        address_local.idx,
                        e,
                        v,
                        0,
                        (old(ctx).start_of_current_instruction & 0xFFF) as u32,
                        old(ctx).current_brtable_depth,
                    ),
                )
            };
        assert(code_safe_read(
            BitSize::Byte,
            old(ctx).cpu.cpl3,
            address_local.idx,
            e,
            e,
            0,
            (old(ctx).start_of_current_instruction & 0xFFF) as u32,
            old(ctx).current_brtable_depth,
        ) == code_safe_read(
            BitSize::Byte,
            old(ctx).cpu.cpl3,
            address_local.idx,
            e,
            v,
            0,
            (old(ctx).start_of_current_instruction & 0xFFF) as u32,
            old(ctx).current_brtable_depth,
        ));
    }
}

/// The value operand of a guarded write, by name of the local(s) holding
/// it.
pub enum WriteValV {
    VI32(u32),
    VI64(u32),
    VTwo(u32, u32),
}

/// The value operand of a guarded write: one i32 local, one i64 local,
/// or two i64 locals for a 128-bit store.
pub enum GenSafeWriteValue {
    I32(HostLocal),
    I64(HostLocalI64),
    TwoI64s(HostLocalI64, HostLocalI64),
}

pub open spec fn wval_view(v: GenSafeWriteValue) -> WriteValV {
    match v {
        GenSafeWriteValue::I32(l) => WriteValV::VI32(l.idx),
        GenSafeWriteValue::I64(l) => WriteValV::VI64(l.idx),
        GenSafeWriteValue::TwoI64s(l1, l2) => WriteValV::VTwo(l1.idx, l2.idx),
    }
}

/// A value operand fits the access width: i32 up to 32 bits, i64 for 64
/// bits, a pair of i64 locals for 128 bits.
pub open spec fn wval_matches(bits: BitSize, v: WriteValV) -> bool {
    match v {
        WriteValV::VI32(_) => bits is Byte || bits is Word || bits is Dword,
        WriteValV::VI64(_) => bits is Qword,
        WriteValV::VTwo(_, _) => bits is Dqword,
    }
}

/// All locals of a value operand are live in `b`.
pub open spec fn wval_live(b: CodeBuilder, v: WriteValV) -> bool {
    match v {
        WriteValV::VI32(x) => b.is_live(x),
        WriteValV::VI64(x) => b.is_live(x),
        WriteValV::VTwo(x1, x2) => b.is_live(x1) && b.is_live(x2),
    }
}

/// The store instruction of the fast path for widths up to 64 bits.
pub open spec fn store_op(bits: BitSize) -> InstrV {
    match bits {
        BitSize::Byte => InstrV::StoreU8(layout::MEM8),
        BitSize::Word => InstrV::StoreU16(layout::MEM8),
        BitSize::Dword => InstrV::StoreI32(layout::MEM8),
        _ => InstrV::StoreI64(layout::MEM8),
    }
}

/// The fast-path body of a write: compute the physical offset and store
/// the value inline.  A 128-bit store caches the offset in scratch local
/// `s` and performs two 64-bit stores.
pub open spec fn code_fast_write(bits: BitSize, addr_l: u32, e: u32, val: WriteValV, s: u32) -> Seq<
    InstrV,
> {
    code_phys(e, addr_l) + match val {
        WriteValV::VI32(x) => seq![InstrV::GetLocal(x), store_op(bits)],
        WriteValV::VI64(x) => seq![InstrV::GetLocalI64(x), store_op(bits)],
        WriteValV::VTwo(x1, x2) => seq![
            InstrV::TeeLocal(s),
            InstrV::GetLocalI64(x1),
            InstrV::StoreI64(layout::MEM8),
            InstrV::GetLocal(s),
            InstrV::GetLocalI64(x2),
            InstrV::StoreI64((layout::MEM8 + 8) as u32),
        ],
    }
}

/// The slow-path helper for a write of width `bits`.
pub open spec fn write_slow_fn(bits: BitSize) -> HostFn {
    match bits {
        BitSize::Byte => HostFn::SafeWrite8Slow,
        BitSize::Word => HostFn::SafeWrite16Slow,
        BitSize::Dword => HostFn::SafeWrite32Slow,
        BitSize::Qword => HostFn::SafeWrite64Slow,
        BitSize::Dqword => HostFn::SafeWrite128Slow,
    }
}

/// Push the value operand for a slow-path call.
pub open spec fn code_push_wval(val: WriteValV) -> Seq<InstrV> {
    match val {
        WriteValV::VI32(x) => seq![InstrV::GetLocal(x)],
        WriteValV::VI64(x) => seq![InstrV::GetLocalI64(x)],
        WriteValV::VTwo(x1, x2) => seq![InstrV::GetLocalI64(x1), InstrV::GetLocalI64(x2)],
    }
}

/// The slow-path body of a write: call the width-specific helper on the
/// virtual address and the value, then check the page-fault byte.
pub open spec fn code_slow_write(
    bits: BitSize,
    addr_l: u32,
    val: WriteValV,
    start_low: u32,
    depth: u32,
) -> Seq<InstrV> {
    seq![InstrV::GetLocal(addr_l)] + code_push_wval(val) + seq![InstrV::Call(write_slow_fn(bits))]
        + code_pf_check(start_low, depth)
}

/// The complete code of a guarded write of width `bits`.
pub open spec fn code_safe_write(
    bits: BitSize,
    cpl3: bool,
    addr_l: u32,
    e: u32,
    val: WriteValV,
    s: u32,
    start_low: u32,
    depth: u32,
) -> Seq<InstrV> {
    code_probe(write_status_mask(cpl3), addr_l, e, bits) + seq![
        InstrV::IfBlock {
            kind: BlockKind::NoRes,
            then_code: code_fast_write(bits, addr_l, e, val, s),
            else_code: code_slow_write(bits, addr_l, val, start_low, depth),
        },
    ]
}

/// Emit a guarded write of width `bits` of the value in `value_local` to
/// the virtual address held in `address_local`.
#[verifier::rlimit(60)]
fn gen_safe_write(ctx: &mut JitContext, bits: BitSize, address_local: &HostLocal, value_local: GenSafeWriteValue)
    requires
        old(ctx).wf(),
        old(ctx).builder.is_live(address_local.idx),
        wval_live(old(ctx).builder, wval_view(value_local)),
        wval_matches(bits, wval_view(value_local)),
        old(ctx).builder.room(2),
        old(ctx).current_brtable_depth >= 2,
    ensures
        final(ctx).wf(),
        exists|e: u32, s: u32|
            {
                &&& !old(ctx).builder.is_live(e)
                &&& (bits is Dqword ==> !old(ctx).builder.is_live(s) && e != s)
                &&& ctx_emits(
                    *old(ctx),
                    *final(ctx),
                    #[trigger] code_safe_write(
                        bits,
                        old(ctx).cpu.cpl3,
                        address_local.idx,
                        e,
                        wval_view(value_local),
                        s,
                        (old(ctx).start_of_current_instruction & 0xFFF) as u32,
                        old(ctx).current_brtable_depth,
                    ),
                )
            },
        final(ctx).builder.next_local() <= old(ctx).builder.next_local() + 2,
{
    let ghost pre = *ctx;
    let ghost b0 = ctx.builder;
    let ghost a = address_local.idx;
    let ghost val = wval_view(value_local);
    let ghost start_low = (pre.start_of_current_instruction & 0xFFF) as u32;
    let ghost depth = pre.current_brtable_depth;
    let ghost mask_g = write_status_mask(pre.cpu.cpl3);

    ctx.builder.get_local(address_local);
    // page index of the virtual address
    ctx.builder.const_i32(12);
    ctx.builder.shr_u_i32();
    // scale to a byte index into the TLB array
    ctx.builder.const_i32(2);
    ctx.builder.shl_i32();
    // entry = tlb_data[page]
    ctx.builder.load_aligned_i32_from_stack(layout::TLB_DATA);
    let entry_local = ctx.builder.tee_new_local();
    let ghost e = entry_local.idx;

    let mask: u32 = 0xFFF & !arch::TLB_GLOBAL & !(
    if ctx.cpu.cpl3() {
        0
    } else {
        arch::TLB_NO_USER
    });
    proof {
        lemma_cast_roundtrip_u32(mask);
    }
    ctx.builder.const_i32(mask as i32);
    ctx.builder.and_i32();
    ctx.builder.const_i32(arch::TLB_VALID as i32);
    ctx.builder.eq_i32();
    proof {
        let fs = b0.frames_v();
        lemma_push_onto_app(fs, seq![InstrV::GetLocal(a)], seq![InstrV::ConstI32(12)]);
        assert(seq![InstrV::GetLocal(a)] + seq![InstrV::ConstI32(12)] =~= seq![InstrV::GetLocal(a), InstrV::ConstI32(12)]);
        lemma_push_onto_app(fs, seq![InstrV::GetLocal(a), InstrV::ConstI32(12)], seq![InstrV::ShrUI32]);
        assert(seq![InstrV::GetLocal(a), InstrV::ConstI32(12)] + seq![InstrV::ShrUI32] =~= seq![InstrV::GetLocal(a), InstrV::ConstI32(12), InstrV::ShrUI32]);
        lemma_push_onto_app(fs, seq![InstrV::GetLocal(a), InstrV::ConstI32(12), InstrV::ShrUI32], seq![InstrV::ConstI32(2)]);
        assert(seq![InstrV::GetLocal(a), InstrV::ConstI32(12), InstrV::ShrUI32] + seq![InstrV::ConstI32(2)] =~= seq![InstrV::GetLocal(a), InstrV::ConstI32(12), InstrV::ShrUI32, InstrV::ConstI32(2)]);
        lemma_push_onto_app(fs, seq![InstrV::GetLocal(a), InstrV::ConstI32(12), InstrV::ShrUI32, InstrV::ConstI32(2)], seq![InstrV::ShlI32]);
        assert(seq![InstrV::GetLocal(a), InstrV::ConstI32(12), InstrV::ShrUI32, InstrV::ConstI32(2)] + seq![InstrV::ShlI32] =~= seq![InstrV::GetLocal(a), InstrV::ConstI32(12), InstrV::ShrUI32, InstrV::ConstI32(2), InstrV::ShlI32]);
        lemma_push_onto_app(fs, seq![InstrV::GetLocal(a), InstrV::ConstI32(12), InstrV::ShrUI32, InstrV::ConstI32(2), InstrV::ShlI32], seq![InstrV::LoadI32(layout::TLB_DATA)]);
        assert(seq![InstrV::GetLocal(a), InstrV::ConstI32(12), InstrV::ShrUI32, InstrV::ConstI32(2), InstrV::ShlI32] + seq![InstrV::LoadI32(layout::TLB_DATA)] =~= seq![InstrV::GetLocal(a), InstrV::ConstI32(12), InstrV::ShrUI32, InstrV::ConstI32(2), InstrV::ShlI32, InstrV::LoadI32(layout::TLB_DATA)]);
        lemma_push_onto_app(fs, seq![InstrV::GetLocal(a), InstrV::ConstI32(12), InstrV::ShrUI32, InstrV::ConstI32(2), InstrV::ShlI32, InstrV::LoadI32(layout::TLB_DATA)], seq![InstrV::TeeLocal(e)]);
        assert(seq![InstrV::GetLocal(a), InstrV::ConstI32(12), InstrV::ShrUI32, InstrV::ConstI32(2), InstrV::ShlI32, InstrV::LoadI32(layout::TLB_DATA)] + seq![InstrV::TeeLocal(e)] =~= seq![InstrV::GetLocal(a), InstrV::ConstI32(12), InstrV::ShrUI32, InstrV::ConstI32(2), InstrV::ShlI32, InstrV::LoadI32(layout::TLB_DATA), InstrV::TeeLocal(e)]);
        lemma_push_onto_app(fs, seq![InstrV::GetLocal(a), InstrV::ConstI32(12), InstrV::ShrUI32, InstrV::ConstI32(2), InstrV::ShlI32, InstrV::LoadI32(layout::TLB_DATA), InstrV::TeeLocal(e)], seq![InstrV::ConstI32(mask_g)]);
        assert(seq![InstrV::GetLocal(a), InstrV::ConstI32(12), InstrV::ShrUI32, InstrV::ConstI32(2), InstrV::ShlI32, InstrV::LoadI32(layout::TLB_DATA), InstrV::TeeLocal(e)] + seq![InstrV::ConstI32(mask_g)] =~= seq![InstrV::GetLocal(a), InstrV::ConstI32(12), InstrV::ShrUI32, InstrV::ConstI32(2), InstrV::ShlI32, InstrV::LoadI32(layout::TLB_DATA), InstrV::TeeLocal(e), InstrV::ConstI32(mask_g)]);
        lemma_push_onto_app(fs, seq![InstrV::GetLocal(a), InstrV::ConstI32(12), InstrV::ShrUI32, InstrV::ConstI32(2), InstrV::ShlI32, InstrV::LoadI32(layout::TLB_DATA), InstrV::TeeLocal(e), InstrV::ConstI32(mask_g)], seq![InstrV::AndI32]);
        assert(seq![InstrV::GetLocal(a), InstrV::ConstI32(12), InstrV::ShrUI32, InstrV::ConstI32(2), InstrV::ShlI32, InstrV::LoadI32(layout::TLB_DATA), InstrV::TeeLocal(e), InstrV::ConstI32(mask_g)] + seq![InstrV::AndI32] =~= seq![InstrV::GetLocal(a), InstrV::ConstI32(12), InstrV::ShrUI32, InstrV::ConstI32(2), InstrV::ShlI32, InstrV::LoadI32(layout::TLB_DATA), InstrV::TeeLocal(e), InstrV::ConstI32(mask_g), InstrV::AndI32]);
        lemma_push_onto_app(fs, seq![InstrV::GetLocal(a), InstrV::ConstI32(12), InstrV::ShrUI32, InstrV::ConstI32(2), InstrV::ShlI32, InstrV::LoadI32(layout::TLB_DATA), InstrV::TeeLocal(e), InstrV::ConstI32(mask_g), InstrV::AndI32], seq![InstrV::ConstI32(arch::TLB_VALID)]);
        assert(seq![InstrV::GetLocal(a), InstrV::ConstI32(12), InstrV::ShrUI32, InstrV::ConstI32(2), InstrV::ShlI32, InstrV::LoadI32(layout::TLB_DATA), InstrV::TeeLocal(e), InstrV::ConstI32(mask_g), InstrV::AndI32] + seq![InstrV::ConstI32(arch::TLB_VALID)] =~= seq![InstrV::GetLocal(a), InstrV::ConstI32(12), InstrV::ShrUI32, InstrV::ConstI32(2), InstrV::ShlI32, InstrV::LoadI32(layout::TLB_DATA), InstrV::TeeLocal(e), InstrV::ConstI32(mask_g), InstrV::AndI32, InstrV::ConstI32(arch::TLB_VALID)]);
        lemma_push_onto_app(fs, seq![InstrV::GetLocal(a), InstrV::ConstI32(12), InstrV::ShrUI32, InstrV::ConstI32(2), InstrV::ShlI32, InstrV::LoadI32(layout::TLB_DATA), InstrV::TeeLocal(e), InstrV::ConstI32(mask_g), InstrV::AndI32, InstrV::ConstI32(arch::TLB_VALID)], seq![InstrV::EqI32]);
        assert(seq![InstrV::GetLocal(a), InstrV::ConstI32(12), InstrV::ShrUI32, InstrV::ConstI32(2), InstrV::ShlI32, InstrV::LoadI32(layout::TLB_DATA), InstrV::TeeLocal(e), InstrV::ConstI32(mask_g), InstrV::AndI32, InstrV::ConstI32(arch::TLB_VALID)] + seq![InstrV::EqI32] =~= seq![InstrV::GetLocal(a), InstrV::ConstI32(12), InstrV::ShrUI32, InstrV::ConstI32(2), InstrV::ShlI32, InstrV::LoadI32(layout::TLB_DATA), InstrV::TeeLocal(e), InstrV::ConstI32(mask_g), InstrV::AndI32, InstrV::ConstI32(arch::TLB_VALID), InstrV::EqI32]);
        assert(seq![InstrV::GetLocal(a), InstrV::ConstI32(12), InstrV::ShrUI32, InstrV::ConstI32(2), InstrV::ShlI32, InstrV::LoadI32(layout::TLB_DATA), InstrV::TeeLocal(e), InstrV::ConstI32(mask_g), InstrV::AndI32, InstrV::ConstI32(arch::TLB_VALID), InstrV::EqI32] =~= code_tlb_probe(mask_g, a, e));
        assert(emitted(b0, ctx.builder, code_tlb_probe(mask_g, a, e)));
    }
    let ghost b_probe0 = ctx.builder;

    if bits.bytes() > 1 {
        let w = bits.bytes();
        ctx.builder.get_local(address_local);
        ctx.builder.const_i32(0xFFF);
        ctx.builder.and_i32();
        ctx.builder.const_i32(0x1000 - w as i32);
        ctx.builder.le_i32();
        ctx.builder.and_i32();
        proof {
            let wg = width_bytes(bits);
            assert(((0x1000 - wg as i32) as u32) == (0x1000 - wg) as u32);
            let fs = b_probe0.frames_v();
            lemma_push_onto_app(fs, seq![InstrV::GetLocal(a)], seq![InstrV::ConstI32(0xFFF)]);
            assert(seq![InstrV::GetLocal(a)] + seq![InstrV::ConstI32(0xFFF)] =~= seq![InstrV::GetLocal(a), InstrV::ConstI32(0xFFF)]);
            lemma_push_onto_app(fs, seq![InstrV::GetLocal(a), InstrV::ConstI32(0xFFF)], seq![InstrV::AndI32]);
            assert(seq![InstrV::GetLocal(a), InstrV::ConstI32(0xFFF)] + seq![InstrV::AndI32] =~= seq![InstrV::GetLocal(a), InstrV::ConstI32(0xFFF), InstrV::AndI32]);
            lemma_push_onto_app(fs, seq![InstrV::GetLocal(a), InstrV::ConstI32(0xFFF), InstrV::AndI32], seq![InstrV::ConstI32((0x1000 - wg) as u32)]);
            assert(seq![InstrV::GetLocal(a), InstrV::ConstI32(0xFFF), InstrV::AndI32] + seq![InstrV::ConstI32((0x1000 - wg) as u32)] =~= seq![InstrV::GetLocal(a), InstrV::ConstI32(0xFFF), InstrV::AndI32, InstrV::ConstI32((0x1000 - wg) as u32)]);
            lemma_push_onto_app(fs, seq![InstrV::GetLocal(a), InstrV::ConstI32(0xFFF), InstrV::AndI32, InstrV::ConstI32((0x1000 - wg) as u32)], seq![InstrV::LeSI32]);
            assert(seq![InstrV::GetLocal(a), InstrV::ConstI32(0xFFF), InstrV::AndI32, InstrV::ConstI32((0x1000 - wg) as u32)] + seq![InstrV::LeSI32] =~= seq![InstrV::GetLocal(a), InstrV::ConstI32(0xFFF), InstrV::AndI32, InstrV::ConstI32((0x1000 - wg) as u32), InstrV::LeSI32]);
            lemma_push_onto_app(fs, seq![InstrV::GetLocal(a), InstrV::ConstI32(0xFFF), InstrV::AndI32, InstrV::ConstI32((0x1000 - wg) as u32), InstrV::LeSI32], seq![InstrV::AndI32]);
            assert(seq![InstrV::GetLocal(a), InstrV::ConstI32(0xFFF), InstrV::AndI32, InstrV::ConstI32((0x1000 - wg) as u32), InstrV::LeSI32] + seq![InstrV::AndI32] =~= seq![InstrV::GetLocal(a), InstrV::ConstI32(0xFFF), InstrV::AndI32, InstrV::ConstI32((0x1000 - wg) as u32), InstrV::LeSI32, InstrV::AndI32]);
            assert(seq![InstrV::GetLocal(a), InstrV::ConstI32(0xFFF), InstrV::AndI32, InstrV::ConstI32((0x1000 - wg) as u32), InstrV::LeSI32, InstrV::AndI32] =~= code_page_fit(a, wg));
            assert(emitted(b_probe0, ctx.builder, code_page_fit(a, wg)));
            lemma_push_onto_app(b0.frames_v(), code_tlb_probe(mask_g, a, e), code_page_fit(a, wg));
            assert(emitted(b0, ctx.builder, code_probe(mask_g, a, e, bits)));
        }
    } else {
        proof {
            assert(code_tlb_probe(mask_g, a, e) + Seq::<InstrV>::empty() =~= code_tlb_probe(
                mask_g,
                a,
                e,
            ));
            assert(emitted(b0, ctx.builder, code_probe(mask_g, a, e, bits)));
        }
    }
    let ghost b_probe = ctx.builder;

    // if (can_use_fast_path) { phys = entry & ~0xFFF ^ addr; mem8[phys] = value }
    ctx.builder.if_void();
    let ghost b_if = ctx.builder;

    ctx.builder.get_local(&entry_local);
    ctx.builder.const_i32(!0xFFF);
    ctx.builder.and_i32();
    ctx.builder.get_local(address_local);
    ctx.builder.xor_i32();
    proof {
        assert(((!0xFFFi32) as u32) == 0xFFFF_F000u32) by (bit_vector);
        let fs = b_if.frames_v();
        lemma_push_onto_app(fs, seq![InstrV::GetLocal(e)], seq![InstrV::ConstI32(0xFFFF_F000)]);
        assert(seq![InstrV::GetLocal(e)] + seq![InstrV::ConstI32(0xFFFF_F000)] =~= seq![InstrV::GetLocal(e), InstrV::ConstI32(0xFFFF_F000)]);
        lemma_push_onto_app(fs, seq![InstrV::GetLocal(e), InstrV::ConstI32(0xFFFF_F000)], seq![InstrV::AndI32]);
        assert(seq![InstrV::GetLocal(e), InstrV::ConstI32(0xFFFF_F000)] + seq![InstrV::AndI32] =~= seq![InstrV::GetLocal(e), InstrV::ConstI32(0xFFFF_F000), InstrV::AndI32]);
        lemma_push_onto_app(fs, seq![InstrV::GetLocal(e), InstrV::ConstI32(0xFFFF_F000), InstrV::AndI32], seq![InstrV::GetLocal(a)]);
        assert(seq![InstrV::GetLocal(e), InstrV::ConstI32(0xFFFF_F000), InstrV::AndI32] + seq![InstrV::GetLocal(a)] =~= seq![InstrV::GetLocal(e), InstrV::ConstI32(0xFFFF_F000), InstrV::AndI32, InstrV::GetLocal(a)]);
        lemma_push_onto_app(fs, seq![InstrV::GetLocal(e), InstrV::ConstI32(0xFFFF_F000), InstrV::AndI32, InstrV::GetLocal(a)], seq![InstrV::XorI32]);
        assert(seq![InstrV::GetLocal(e), InstrV::ConstI32(0xFFFF_F000), InstrV::AndI32, InstrV::GetLocal(a)] + seq![InstrV::XorI32] =~= seq![InstrV::GetLocal(e), InstrV::ConstI32(0xFFFF_F000), InstrV::AndI32, InstrV::GetLocal(a), InstrV::XorI32]);
        assert(seq![InstrV::GetLocal(e), InstrV::ConstI32(0xFFFF_F000), InstrV::AndI32, InstrV::GetLocal(a), InstrV::XorI32] =~= code_phys(e, a));
        assert(emitted(b_if, ctx.builder, code_phys(e, a)));
    }
    let ghost b_phys = ctx.builder;
    let ghost s_g: u32;

    match value_local {
        GenSafeWriteValue::I32(l) => {
            ctx.builder.get_local(&l);
            match bits {
                BitSize::Byte => ctx.builder.store_u8(layout::MEM8),
                BitSize::Word => ctx.builder.store_unaligned_u16(layout::MEM8),
                _ => ctx.builder.store_unaligned_i32(layout::MEM8),
            }
            proof {
                s_g = e;
                let fs = b_phys.frames_v();
                lemma_push_onto_app(fs, seq![InstrV::GetLocal(val->VI32_0)], seq![store_op(bits)]);
                assert(seq![InstrV::GetLocal(val->VI32_0)] + seq![store_op(bits)] =~= seq![InstrV::GetLocal(val->VI32_0), store_op(bits)]);
                lemma_push_onto_app(b_if.frames_v(), code_phys(e, a), seq![InstrV::GetLocal(val->VI32_0), store_op(bits)]);
            }
        },
        GenSafeWriteValue::I64(l) => {
            ctx.builder.get_local_i64(&l);
            ctx.builder.store_unaligned_i64(layout::MEM8);
            proof {
                s_g = e;
                let fs = b_phys.frames_v();
                lemma_push_onto_app(fs, seq![InstrV::GetLocalI64(val->VI64_0)], seq![store_op(bits)]);
                assert(seq![InstrV::GetLocalI64(val->VI64_0)] + seq![store_op(bits)] =~= seq![InstrV::GetLocalI64(val->VI64_0), store_op(bits)]);
                lemma_push_onto_app(b_if.frames_v(), code_phys(e, a), seq![InstrV::GetLocalI64(val->VI64_0), store_op(bits)]);
            }
        },
        GenSafeWriteValue::TwoI64s(l1, l2) => {
            let virt_address_local = ctx.builder.tee_new_local();
            proof {
                s_g = virt_address_local.idx;
            }
            let ghost s = virt_address_local.idx;
            ctx.builder.get_local_i64(&l1);
            ctx.builder.store_unaligned_i64(layout::MEM8);
            ctx.builder.get_local(&virt_address_local);
            ctx.builder.get_local_i64(&l2);
            ctx.builder.store_unaligned_i64(layout::MEM8 + 8);
            ctx.builder.free_local(virt_address_local);
            proof {
                let fs = b_phys.frames_v();
                lemma_push_onto_app(fs, seq![InstrV::TeeLocal(s)], seq![InstrV::GetLocalI64(val->VTwo_0)]);
                assert(seq![InstrV::TeeLocal(s)] + seq![InstrV::GetLocalI64(val->VTwo_0)] =~= seq![InstrV::TeeLocal(s), InstrV::GetLocalI64(val->VTwo_0)]);
                lemma_push_onto_app(fs, seq![InstrV::TeeLocal(s), InstrV::GetLocalI64(val->VTwo_0)], seq![InstrV::StoreI64(layout::MEM8)]);
                assert(seq![InstrV::TeeLocal(s), InstrV::GetLocalI64(val->VTwo_0)] + seq![InstrV::StoreI64(layout::MEM8)] =~= seq![InstrV::TeeLocal(s), InstrV::GetLocalI64(val->VTwo_0), InstrV::StoreI64(layout::MEM8)]);
                lemma_push_onto_app(fs, seq![InstrV::TeeLocal(s), InstrV::GetLocalI64(val->VTwo_0), InstrV::StoreI64(layout::MEM8)], seq![InstrV::GetLocal(s)]);
                assert(seq![InstrV::TeeLocal(s), InstrV::GetLocalI64(val->VTwo_0), InstrV::StoreI64(layout::MEM8)] + seq![InstrV::GetLocal(s)] =~= seq![InstrV::TeeLocal(s), InstrV::GetLocalI64(val->VTwo_0), InstrV::StoreI64(layout::MEM8), InstrV::GetLocal(s)]);
                lemma_push_onto_app(fs, seq![InstrV::TeeLocal(s), InstrV::GetLocalI64(val->VTwo_0), InstrV::StoreI64(layout::MEM8), InstrV::GetLocal(s)], seq![InstrV::GetLocalI64(val->VTwo_1)]);
                assert(seq![InstrV::TeeLocal(s), InstrV::GetLocalI64(val->VTwo_0), InstrV::StoreI64(layout::MEM8), InstrV::GetLocal(s)] + seq![InstrV::GetLocalI64(val->VTwo_1)] =~= seq![InstrV::TeeLocal(s), InstrV::GetLocalI64(val->VTwo_0), InstrV::StoreI64(layout::MEM8), InstrV::GetLocal(s), InstrV::GetLocalI64(val->VTwo_1)]);
                lemma_push_onto_app(fs, seq![InstrV::TeeLocal(s), InstrV::GetLocalI64(val->VTwo_0), InstrV::StoreI64(layout::MEM8), InstrV::GetLocal(s), InstrV::GetLocalI64(val->VTwo_1)], seq![InstrV::StoreI64((layout::MEM8 + 8) as u32)]);
                assert(seq![InstrV::TeeLocal(s), InstrV::GetLocalI64(val->VTwo_0), InstrV::StoreI64(layout::MEM8), InstrV::GetLocal(s), InstrV::GetLocalI64(val->VTwo_1)] + seq![InstrV::StoreI64((layout::MEM8 + 8) as u32)] =~= seq![InstrV::TeeLocal(s), InstrV::GetLocalI64(val->VTwo_0), InstrV::StoreI64(layout::MEM8), InstrV::GetLocal(s), InstrV::GetLocalI64(val->VTwo_1), InstrV::StoreI64((layout::MEM8 + 8) as u32)]);
                lemma_push_onto_app(b_if.frames_v(), code_phys(e, a), seq![InstrV::TeeLocal(s), InstrV::GetLocalI64(val->VTwo_0), InstrV::StoreI64(layout::MEM8), InstrV::GetLocal(s), InstrV::GetLocalI64(val->VTwo_1), InstrV::StoreI64((layout::MEM8 + 8) as u32)]);
            }
        },
    }
    proof {
        assert(emitted(b_if, ctx.builder, code_fast_write(bits, a, e, val, s_g)));
    }
    let ghost b_fast = ctx.builder;

    ctx.builder.else_();
    let ghost b_else = ctx.builder;

    ctx.builder.get_local(address_local);
    match value_local {
        GenSafeWriteValue::I32(l) => {
            ctx.builder.get_local(&l);
            proof {
                lemma_push_onto_app(b_else.frames_v(), seq![InstrV::GetLocal(a)], seq![InstrV::GetLocal(val->VI32_0)]);
            }
        },
        GenSafeWriteValue::I64(l) => {
            ctx.builder.get_local_i64(&l);
            proof {
                lemma_push_onto_app(b_else.frames_v(), seq![InstrV::GetLocal(a)], seq![InstrV::GetLocalI64(val->VI64_0)]);
            }
        },
        GenSafeWriteValue::TwoI64s(l1, l2) => {
            ctx.builder.get_local_i64(&l1);
            ctx.builder.get_local_i64(&l2);
            proof {
                lemma_push_onto_app(b_else.frames_v(), seq![InstrV::GetLocal(a)], seq![InstrV::GetLocalI64(val->VTwo_0)]);
                lemma_push_onto_app(b_else.frames_v(), seq![InstrV::GetLocal(a), InstrV::GetLocalI64(val->VTwo_0)], seq![InstrV::GetLocalI64(val->VTwo_1)]);
                assert(seq![InstrV::GetLocal(a)] + seq![InstrV::GetLocalI64(val->VTwo_0)] =~= seq![InstrV::GetLocal(a), InstrV::GetLocalI64(val->VTwo_0)]);
            }
        },
    }
    proof {
        if val is VTwo {
            assert((seq![InstrV::GetLocal(a)] + seq![InstrV::GetLocalI64(val->VTwo_0)])
                + seq![InstrV::GetLocalI64(val->VTwo_1)] =~= seq![InstrV::GetLocal(a)] + seq![
                InstrV::GetLocalI64(val->VTwo_0),
                InstrV::GetLocalI64(val->VTwo_1),
            ]);
        }
        assert(emitted(b_else, ctx.builder, seq![InstrV::GetLocal(a)] + code_push_wval(val)));
    }
    let ghost b_args = ctx.builder;
    match bits {
        BitSize::Byte => gen_call_fn2(&mut ctx.builder, HostFn::SafeWrite8Slow),
        BitSize::Word => gen_call_fn2(&mut ctx.builder, HostFn::SafeWrite16Slow),
        BitSize::Dword => gen_call_fn2(&mut ctx.builder, HostFn::SafeWrite32Slow),
        BitSize::Qword => gen_call_fn2_i32_i64(&mut ctx.builder, HostFn::SafeWrite64Slow),
        BitSize::Dqword => gen_call_fn3_i32_i64_i64(&mut ctx.builder, HostFn::SafeWrite128Slow),
    }
    proof {
        lemma_push_onto_app(b_else.frames_v(), seq![InstrV::GetLocal(a)] + code_push_wval(val), seq![InstrV::Call(write_slow_fn(bits))]);
    }
    let ghost b_call = ctx.builder;

    ctx.builder.load_u8(layout::PAGE_FAULT);
    proof {
        lemma_push_onto_app(b_else.frames_v(), seq![InstrV::GetLocal(a)] + code_push_wval(val) + seq![InstrV::Call(write_slow_fn(bits))], seq![InstrV::LoadU8At(layout::PAGE_FAULT)]);
    }
    let ghost b_pf = ctx.builder;

    ctx.builder.if_void();
    let ghost bi1 = ctx.builder;
    gen_debug_track_jit_exit(&mut ctx.builder, ctx.start_of_current_instruction);
    let low = (ctx.start_of_current_instruction & 0xFFF) as i32;
    gen_set_previous_eip_offset_from_eip_with_low_bits(&mut ctx.builder, low);
    // -2 for the exit-with-pagefault block, +2 for leaving the two nested
    // ifs opened by this emitter
    let br_offset = ctx.current_brtable_depth - 2 + 2;
    ctx.builder.br(br_offset);
    proof {
        lemma_low12_bound(pre.start_of_current_instruction);
        assert(((low as u32)) == start_low);
        lemma_push_onto_app(bi1.frames_v(), code_set_previous_eip_low_bits(start_low), seq![InstrV::Br(depth)]);
        assert(emitted(bi1, ctx.builder, code_bailout(start_low, depth)));
    }
    let ghost bi2 = ctx.builder;
    ctx.builder.block_end();
    let ghost bi3 = ctx.builder;
    proof {
        lemma_if_bracket_noelse(b_pf, bi1, bi2, bi3, BlockKind::NoRes, code_bailout(start_low, depth));
        lemma_push_onto_app(
            b_else.frames_v(),
            seq![InstrV::GetLocal(a)] + code_push_wval(val) + seq![InstrV::Call(write_slow_fn(bits))] + seq![InstrV::LoadU8At(layout::PAGE_FAULT)],
            seq![
                InstrV::IfBlock {
                    kind: BlockKind::NoRes,
                    then_code: code_bailout(start_low, depth),
                    else_code: Seq::<InstrV>::empty(),
                },
            ],
        );
        assert(seq![InstrV::GetLocal(a)] + code_push_wval(val) + seq![InstrV::Call(write_slow_fn(bits))] + seq![InstrV::LoadU8At(layout::PAGE_FAULT)] + seq![
            InstrV::IfBlock {
                kind: BlockKind::NoRes,
                then_code: code_bailout(start_low, depth),
                else_code: Seq::<InstrV>::empty(),
            },
        ] =~= code_slow_write(bits, a, val, start_low, depth));
        assert(emitted(b_else, bi3, code_slow_write(bits, a, val, start_low, depth)));
    }
    ctx.builder.block_end();
    proof {
        lemma_if_bracket(
            b_probe,
            b_if,
            b_fast,
            b_else,
            bi3,
            ctx.builder,
            BlockKind::NoRes,
            code_fast_write(bits, a, e, val, s_g),
            code_slow_write(bits, a, val, start_low, depth),
        );
        lemma_push_onto_app(
            b0.frames_v(),
            code_probe(mask_g, a, e, bits),
            seq![
                InstrV::IfBlock {
                    kind: BlockKind::NoRes,
                    then_code: code_fast_write(bits, a, e, val, s_g),
                    else_code: code_slow_write(bits, a, val, start_low, depth),
                },
            ],
        );
    }
    ctx.builder.free_local(entry_local);
    proof {
        assert(emitted(b0, ctx.builder, code_safe_write(bits, pre.cpu.cpl3, a, e, val, s_g, start_low, depth)));
        assert(forall|y: u32| pre.builder.is_live(y) == #[trigger] ctx.builder.is_live(y));
        assert(ctx_emits(pre, *ctx, code_safe_write(bits, pre.cpu.cpl3, a, e, val, s_g, start_low, depth)));
    }
}

/// Emit a guarded 8-bit write of the value in `value_local`.
pub fn gen_safe_write8(ctx: &mut JitContext, address_local: &HostLocal, value_local: &HostLocal)
    requires
        old(ctx).wf(),
        old(ctx).builder.is_live(address_local.idx),
        old(ctx).builder.is_live(value_local.idx),
        old(ctx).builder.room(2),
        old(ctx).current_brtable_depth >= 2,
    ensures
        final(ctx).wf(),
        exists|e: u32, s: u32|
            !old(ctx).builder.is_live(e) && ctx_emits(
                *old(ctx),
                *final(ctx),
                #[trigger] code_safe_write(
                    BitSize::Byte,
                    old(ctx).cpu.cpl3,
                    address_local.idx,
                    e,
                    WriteValV::VI32(value_local.idx),
                    s,
                    (old(ctx).start_of_current_instruction & 0xFFF) as u32,
                    old(ctx).current_brtable_depth,
                ),
            ),
        final(ctx).builder.next_local() <= old(ctx).builder.next_local() + 2,
{
    gen_safe_write(ctx, BitSize::Byte, address_local, GenSafeWriteValue::I32(*value_local));
}

/// Emit a guarded 16-bit write of the value in `value_local`.
pub fn gen_safe_write16(ctx: &mut JitContext, address_local: &HostLocal, value_local: &HostLocal)
    requires
        old(ctx).wf(),
        old(ctx).builder.is_live(address_local.idx),
        old(ctx).builder.is_live(value_local.idx),
        old(ctx).builder.room(2),
        old(ctx).current_brtable_depth >= 2,
    ensures
        final(ctx).wf(),
        exists|e: u32, s: u32|
            !old(ctx).builder.is_live(e) && ctx_emits(
                *old(ctx),
                *final(ctx),
                #[trigger] code_safe_write(
                    BitSize::Word,
                    old(ctx).cpu.cpl3,
                    address_local.idx,
                    e,
                    WriteValV::VI32(value_local.idx),
                    s,
                    (old(ctx).start_of_current_instruction & 0xFFF) as u32,
                    old(ctx).current_brtable_depth,
                ),
            ),
        final(ctx).builder.next_local() <= old(ctx).builder.next_local() + 2,
{
    gen_safe_write(ctx, BitSize::Word, address_local, GenSafeWriteValue::I32(*value_local));
}

/// Emit a guarded 32-bit write of the value in `value_local`.
pub fn gen_safe_write32(ctx: &mut JitContext, address_local: &HostLocal, value_local: &HostLocal)
    requires
        old(ctx).wf(),
        old(ctx).builder.is_live(address_local.idx),
        old(ctx).builder.is_live(value_local.idx),
        old(ctx).builder.room(2),
        old(ctx).current_brtable_depth >= 2,
    ensures
        final(ctx).wf(),
        exists|e: u32, s: u32|
            !old(ctx).builder.is_live(e) && ctx_emits(
                *old(ctx),
                *final(ctx),
                #[trigger] code_safe_write(
                    BitSize::Dword,
                    old(ctx).cpu.cpl3,
                    address_local.idx,
                    e,
                    WriteValV::VI32(value_local.idx),
                    s,
                    (old(ctx).start_of_current_instruction & 0xFFF) as u32,
                    old(ctx).current_brtable_depth,
                ),
            ),
        final(ctx).builder.next_local() <= old(ctx).builder.next_local() + 2,
{
    gen_safe_write(ctx, BitSize::Dword, address_local, GenSafeWriteValue::I32(*value_local));
}

/// Emit a guarded 64-bit write of the value in `value_local`.
pub fn gen_safe_write64(ctx: &mut JitContext, address_local: &HostLocal, value_local: &HostLocalI64)
    requires
        old(ctx).wf(),
        old(ctx).builder.is_live(address_local.idx),
        old(ctx).builder.is_live(value_local.idx),
        old(ctx).builder.room(2),
        old(ctx).current_brtable_depth >= 2,
    ensures
        final(ctx).wf(),
        exists|e: u32, s: u32|
            !old(ctx).builder.is_live(e) && ctx_emits(
                *old(ctx),
                *final(ctx),
                #[trigger] code_safe_write(
                    BitSize::Qword,
                    old(ctx).cpu.cpl3,
                    address_local.idx,
                    e,
                    WriteValV::VI64(value_local.idx),
                    s,
                    (old(ctx).start_of_current_instruction & 0xFFF) as u32,
                    old(ctx).current_brtable_depth,
                ),
            ),
        final(ctx).builder.next_local() <= old(ctx).builder.next_local() + 2,
{
    gen_safe_write(ctx, BitSize::Qword, address_local, GenSafeWriteValue::I64(*value_local));
}

/// Emit a guarded 128-bit write of the pair of 64-bit values in
/// `value_local_low` and `value_local_high`.
pub fn gen_safe_write128(
    ctx: &mut JitContext,
    address_local: &HostLocal,
    value_local_low: &HostLocalI64,
    value_local_high: &HostLocalI64,
)
    requires
        old(ctx).wf(),
        old(ctx).builder.is_live(address_local.idx),
        old(ctx).builder.is_live(value_local_low.idx),
        old(ctx).builder.is_live(value_local_high.idx),
        old(ctx).builder.room(2),
        old(ctx).current_brtable_depth >= 2,
    ensures
        final(ctx).wf(),
        exists|e: u32, s: u32|
            {
                &&& !old(ctx).builder.is_live(e)
                &&& !old(ctx).builder.is_live(s)
                &&& e != s
                &&& ctx_emits(
                    *old(ctx),
                    *final(ctx),
                    #[trigger] code_safe_write(
                        BitSize::Dqword,
                        old(ctx).cpu.cpl3,
                        address_local.idx,
                        e,
                        WriteValV::VTwo(value_local_low.idx, value_local_high.idx),
                        s,
                        (old(ctx).start_of_current_instruction & 0xFFF) as u32,
                        old(ctx).current_brtable_depth,
                    ),
                )
            },
        final(ctx).builder.next_local() <= old(ctx).builder.next_local() + 2,
{
    gen_safe_write(
        ctx,
        BitSize::Dqword,
        address_local,
        GenSafeWriteValue::TwoI64s(*value_local_low, *value_local_high),
    );
}

/// Emit a guarded 16-bit read.
pub fn gen_safe_read16(ctx: &mut JitContext, address_local: &HostLocal)
    requires
        old(ctx).wf(),
        old(ctx).builder.is_live(address_local.idx),
        old(ctx).builder.room(2),
        old(ctx).current_brtable_depth >= 2,
    ensures
        final(ctx).wf(),
        exists|e: u32, v: u32|
            !old(ctx).builder.is_live(e) && ctx_emits(
                *old(ctx),
                *final(ctx),
                #[trigger] code_safe_read(
                    BitSize::Word,
                    old(ctx).cpu.cpl3,
                    address_local.idx,
                    e,
                    v,
                    0,
                    (old(ctx).start_of_current_instruction & 0xFFF) as u32,
                    old(ctx).current_brtable_depth,
                ),
            ),
        final(ctx).builder.next_local() <= old(ctx).builder.next_local() + 2,
{
    gen_safe_read(ctx, BitSize::Word, address_local, None);
}

/// Emit a guarded 32-bit read.
pub fn gen_safe_read32(ctx: &mut JitContext, address_local: &HostLocal)
    requires
        old(ctx).wf(),
        old(ctx).builder.is_live(address_local.idx),
        old(ctx).builder.room(2),
        old(ctx).current_brtable_depth >= 2,
    ensures
        final(ctx).wf(),
        exists|e: u32, v: u32|
            !old(ctx).builder.is_live(e) && ctx_emits(
                *old(ctx),
                *final(ctx),
                #[trigger] code_safe_read(
                    BitSize::Dword,
                    old(ctx).cpu.cpl3,
                    address_local.idx,
                    e,
                    v,
                    0,
                    (old(ctx).start_of_current_instruction & 0xFFF) as u32,
                    old(ctx).current_brtable_depth,
                ),
            ),
        final(ctx).builder.next_local() <= old(ctx).builder.next_local() + 2,
{
    gen_safe_read(ctx, BitSize::Dword, address_local, None);
}

/// Emit a guarded 64-bit read.
pub fn gen_safe_read64(ctx: &mut JitContext, address_local: &HostLocal)
    requires
        old(ctx).wf(),
        old(ctx).builder.is_live(address_local.idx),
        old(ctx).builder.room(2),
        old(ctx).current_brtable_depth >= 2,
    ensures
        final(ctx).wf(),
        exists|e: u32, v: u32|
            !old(ctx).builder.is_live(e) && ctx_emits(
                *old(ctx),
                *final(ctx),
                #[trigger] code_safe_read(
                    BitSize::Qword,
                    old(ctx).cpu.cpl3,
                    address_local.idx,
                    e,
                    v,
                    0,
                    (old(ctx).start_of_current_instruction & 0xFFF) as u32,
                    old(ctx).current_brtable_depth,
                ),
            ),
        final(ctx).builder.next_local() <= old(ctx).builder.next_local() + 2,
{
    gen_safe_read(ctx, BitSize::Qword, address_local, None);
}

/// Emit a guarded 128-bit read materialized through the caller's scratch
/// buffer at `where_to_write`.
pub fn gen_safe_read128(ctx: &mut JitContext, address_local: &HostLocal, where_to_write: u32)
    requires
        old(ctx).wf(),
        old(ctx).builder.is_live(address_local.idx),
        old(ctx).builder.room(2),
        old(ctx).current_brtable_depth >= 2,
        where_to_write <= 0xFFFF_FF00,
    ensures
        final(ctx).wf(),
        exists|e: u32, v: u32|
            {
                &&& !old(ctx).builder.is_live(e)
                &&& !old(ctx).builder.is_live(v)
                &&& e != v
                &&& ctx_emits(
                    *old(ctx),
                    *final(ctx),
                    #[trigger] code_safe_read(
                        BitSize::Dqword,
                        old(ctx).cpu.cpl3,
                        address_local.idx,
                        e,
                        v,
                        where_to_write,
                        (old(ctx).start_of_current_instruction & 0xFFF) as u32,
                        old(ctx).current_brtable_depth,
                    ),
                )
            },
        final(ctx).builder.next_local() <= old(ctx).builder.next_local() + 2,
{
    gen_safe_read(ctx, BitSize::Dqword, address_local, Some(where_to_write));
}

/// The scratch locals threaded from the read side of a read-modify-write
/// to its write side: the cached TLB entry, the fast-path eligibility
/// flag, and the cached physical address.
pub struct RmwGuard {
    pub entry: HostLocal,
    pub can_use_fast_path: HostLocal,
    pub phys_addr: HostLocal,
}

/// The slow-path helper of the read side of a read-modify-write.
pub open spec fn rmw_slow_fn(bits: BitSize) -> HostFn {
    match bits {
        BitSize::Byte => HostFn::SafeReadWrite8Slow,
        BitSize::Word => HostFn::SafeReadWrite16Slow,
        _ => HostFn::SafeReadWrite32Slow,
    }
}

/// The load instruction of a read-modify-write fast path.
pub open spec fn load_op(bits: BitSize) -> InstrV {
    match bits {
        BitSize::Byte => InstrV::LoadU8(layout::MEM8),
        BitSize::Word => InstrV::LoadU16(layout::MEM8),
        _ => InstrV::LoadI32(layout::MEM8),
    }
}

/// The access width in bits, as passed to the defensive bug handler.
pub open spec fn bits_n(bits: BitSize) -> u32 {
    match bits {
        BitSize::Byte => 8,
        BitSize::Word => 16,
        _ => 32,
    }
}

/// Fast read side of a read-modify-write: compute the physical offset,
/// cache it in `phys_l` for the write side, and load inline.
pub open spec fn code_rmw_fast_read(bits: BitSize, addr_l: u32, e: u32, phys_l: u32) -> Seq<InstrV> {
    code_phys(e, addr_l) + seq![InstrV::TeeLocal(phys_l), load_op(bits)]
}

/// Slow read side of a read-modify-write: one helper call that validates
/// the mapping for both sides, then the page-fault check.
pub open spec fn code_rmw_slow_read(bits: BitSize, addr_l: u32, start_low: u32, depth: u32) -> Seq<
    InstrV,
> {
    seq![InstrV::GetLocal(addr_l), InstrV::Call(rmw_slow_fn(bits))] + code_pf_check(
        start_low,
        depth,
    )
}

/// The complete read side of a read-modify-write: the probe uses the
/// write mask (so a read-only or code page forces the slow path for both
/// sides), its result is cached in `cfp` and consumed again by the write
/// side.
pub open spec fn code_safe_read_write_start(
    bits: BitSize,
    cpl3: bool,
    addr_l: u32,
    e: u32,
    cfp: u32,
    phys_l: u32,
    start_low: u32,
    depth: u32,
) -> Seq<InstrV> {
    code_probe(write_status_mask(cpl3), addr_l, e, bits) + seq![
        InstrV::TeeLocal(cfp),
        InstrV::IfBlock {
            kind: BlockKind::ResI32,
            then_code: code_rmw_fast_read(bits, addr_l, e, phys_l),
            else_code: code_rmw_slow_read(bits, addr_l, start_low, depth),
        },
    ]
}

/// The write side of a read-modify-write: stash the transformed value,
/// then either store to the physical address cached by the read side, or
/// call the write helper.  A page fault on that slow-path write is
/// impossible (the read side already validated the mapping), so its
/// page-fault branch calls the defensive bug handler instead of bailing
/// out.
pub open spec fn code_safe_read_write_end(
    bits: BitSize,
    addr_l: u32,
    cfp: u32,
    phys_l: u32,
    value_l: u32,
) -> Seq<InstrV> {
    seq![
        InstrV::SetLocal(value_l),
        InstrV::GetLocal(cfp),
        InstrV::IfBlock {
            kind: BlockKind::NoRes,
            then_code: seq![
                InstrV::GetLocal(phys_l),
                InstrV::GetLocal(value_l),
                store_op(bits),
            ],
            else_code: seq![
                InstrV::GetLocal(addr_l),
                InstrV::GetLocal(value_l),
                InstrV::Call(write_slow_fn(bits)),
                InstrV::LoadU8At(layout::PAGE_FAULT),
                InstrV::IfBlock {
                    kind: BlockKind::NoRes,
                    then_code: seq![
                        InstrV::ConstI32(bits_n(bits)),
                        InstrV::GetLocal(addr_l),
                        InstrV::Call(HostFn::BugReadWritePageFault),
                    ],
                    else_code: Seq::<InstrV>::empty(),
                },
            ],
        },
    ]
}

/// Emit the read side of a guarded read-modify-write: probe the TLB once
/// with the write mask, read the current value onto the stack, and hand
/// back the scratch locals the write side must consume.
#[verifier::rlimit(60)]
pub fn gen_safe_read_write_start(ctx: &mut JitContext, bits: BitSize, address_local: &HostLocal) -> (r: RmwGuard)
    requires
        old(ctx).wf(),
        old(ctx).builder.is_live(address_local.idx),
        old(ctx).builder.room(3),
        old(ctx).current_brtable_depth >= 2,
        bits is Byte || bits is Word || bits is Dword,
    ensures
        final(ctx).wf(),
        emitted(
            old(ctx).builder,
            final(ctx).builder,
            code_safe_read_write_start(
                bits,
                old(ctx).cpu.cpl3,
                address_local.idx,
                r.entry.idx,
                r.can_use_fast_path.idx,
                r.phys_addr.idx,
                (old(ctx).start_of_current_instruction & 0xFFF) as u32,
                old(ctx).current_brtable_depth,
            ),
        ),
        final(ctx).builder.depth() == old(ctx).builder.depth(),
        final(ctx).register_locals == old(ctx).register_locals,
        final(ctx).start_of_current_instruction == old(ctx).start_of_current_instruction,
        final(ctx).current_brtable_depth == old(ctx).current_brtable_depth,
        final(ctx).cpu == old(ctx).cpu,
        !old(ctx).builder.is_live(r.entry.idx),
        !old(ctx).builder.is_live(r.can_use_fast_path.idx),
        !old(ctx).builder.is_live(r.phys_addr.idx),
        r.entry.idx != r.can_use_fast_path.idx,
        r.entry.idx != r.phys_addr.idx,
        r.can_use_fast_path.idx != r.phys_addr.idx,
        final(ctx).builder.is_live(r.entry.idx),
        final(ctx).builder.is_live(r.can_use_fast_path.idx),
        final(ctx).builder.is_live(r.phys_addr.idx),
        forall|y: u32|
            y != r.entry.idx && y != r.can_use_fast_path.idx && y != r.phys_addr.idx ==> old(
                ctx,
            ).builder.is_live(y) == #[trigger] final(ctx).builder.is_live(y),
        final(ctx).builder.next_local() <= old(ctx).builder.next_local() + 3,
{
    let ghost pre = *ctx;
    let ghost b0 = ctx.builder;
    let ghost a = address_local.idx;
    let ghost start_low = (pre.start_of_current_instruction & 0xFFF) as u32;
    let ghost depth = pre.current_brtable_depth;
    let ghost mask_g = write_status_mask(pre.cpu.cpl3);

    ctx.builder.get_local(address_local);
    // page index of the virtual address
    ctx.builder.const_i32(12);
    ctx.builder.shr_u_i32();
    // scale to a byte index into the TLB array
    ctx.builder.const_i32(2);
    ctx.builder.shl_i32();
    // entry = tlb_data[page]
    ctx.builder.load_aligned_i32_from_stack(layout::TLB_DATA);
    let entry_local = ctx.builder.tee_new_local();
    let ghost e = entry_local.idx;

    let mask: u32 = 0xFFF & !arch::TLB_GLOBAL & !(
    if ctx.cpu.cpl3() {
        0
    } else {
        arch::TLB_NO_USER
    });
    proof {
        lemma_cast_roundtrip_u32(mask);
    }
    ctx.builder.const_i32(mask as i32);
    ctx.builder.and_i32();
    ctx.builder.const_i32(arch::TLB_VALID as i32);
    ctx.builder.eq_i32();
    proof {
        let fs = b0.frames_v();
        lemma_push_onto_app(fs, seq![InstrV::GetLocal(a)], seq![InstrV::ConstI32(12)]);
        assert(seq![InstrV::GetLocal(a)] + seq![InstrV::ConstI32(12)] =~= seq![InstrV::GetLocal(a), InstrV::ConstI32(12)]);
        lemma_push_onto_app(fs, seq![InstrV::GetLocal(a), InstrV::ConstI32(12)], seq![InstrV::ShrUI32]);
        assert(seq![InstrV::GetLocal(a), InstrV::ConstI32(12)] + seq![InstrV::ShrUI32] =~= seq![InstrV::GetLocal(a), InstrV::ConstI32(12), InstrV::ShrUI32]);
        lemma_push_onto_app(fs, seq![InstrV::GetLocal(a), InstrV::ConstI32(12), InstrV::ShrUI32], seq![InstrV::ConstI32(2)]);
        assert(seq![InstrV::GetLocal(a), InstrV::ConstI32(12), InstrV::ShrUI32] + seq![InstrV::ConstI32(2)] =~= seq![InstrV::GetLocal(a), InstrV::ConstI32(12), InstrV::ShrUI32, InstrV::ConstI32(2)]);
        lemma_push_onto_app(fs, seq![InstrV::GetLocal(a), InstrV::ConstI32(12), InstrV::ShrUI32, InstrV::ConstI32(2)], seq![InstrV::ShlI32]);
        assert(seq![InstrV::GetLocal(a), InstrV::ConstI32(12), InstrV::ShrUI32, InstrV::ConstI32(2)] + seq![InstrV::ShlI32] =~= seq![InstrV::GetLocal(a), InstrV::ConstI32(12), InstrV::ShrUI32, InstrV::ConstI32(2), InstrV::ShlI32]);
        lemma_push_onto_app(fs, seq![InstrV::GetLocal(a), InstrV::ConstI32(12), InstrV::ShrUI32, InstrV::ConstI32(2), InstrV::ShlI32], seq![InstrV::LoadI32(layout::TLB_DATA)]);
        assert(seq![InstrV::GetLocal(a), InstrV::ConstI32(12), InstrV::ShrUI32, InstrV::ConstI32(2), InstrV::ShlI32] + seq![InstrV::LoadI32(layout::TLB_DATA)] =~= seq![InstrV::GetLocal(a), InstrV::ConstI32(12), InstrV::ShrUI32, InstrV::ConstI32(2), InstrV::ShlI32, InstrV::LoadI32(layout::TLB_DATA)]);
        lemma_push_onto_app(fs, seq![InstrV::GetLocal(a), InstrV::ConstI32(12), InstrV::ShrUI32, InstrV::ConstI32(2), InstrV::ShlI32, InstrV::LoadI32(layout::TLB_DATA)], seq![InstrV::TeeLocal(e)]);
        assert(seq![InstrV::GetLocal(a), InstrV::ConstI32(12), InstrV::ShrUI32, InstrV::ConstI32(2), InstrV::ShlI32, InstrV::LoadI32(layout::TLB_DATA)] + seq![InstrV::TeeLocal(e)] =~= seq![InstrV::GetLocal(a), InstrV::ConstI32(12), InstrV::ShrUI32, InstrV::ConstI32(2), InstrV::ShlI32, InstrV::LoadI32(layout::TLB_DATA), InstrV::TeeLocal(e)]);
        lemma_push_onto_app(fs, seq![InstrV::GetLocal(a), InstrV::ConstI32(12), InstrV::ShrUI32, InstrV::ConstI32(2), InstrV::ShlI32, InstrV::LoadI32(layout::TLB_DATA), InstrV::TeeLocal(e)], seq![InstrV::ConstI32(mask_g)]);
        assert(seq![InstrV::GetLocal(a), InstrV::ConstI32(12), InstrV::ShrUI32, InstrV::ConstI32(2), InstrV::ShlI32, InstrV::LoadI32(layout::TLB_DATA), InstrV::TeeLocal(e)] + seq![InstrV::ConstI32(mask_g)] =~= seq![InstrV::GetLocal(a), InstrV::ConstI32(12), InstrV::ShrUI32, InstrV::ConstI32(2), InstrV::ShlI32, InstrV::LoadI32(layout::TLB_DATA), InstrV::TeeLocal(e), InstrV::ConstI32(mask_g)]);
        lemma_push_onto_app(fs, seq![InstrV::GetLocal(a), InstrV::ConstI32(12), InstrV::ShrUI32, InstrV::ConstI32(2), InstrV::ShlI32, InstrV::LoadI32(layout::TLB_DATA), InstrV::TeeLocal(e), InstrV::ConstI32(mask_g)], seq![InstrV::AndI32]);
        assert(seq![InstrV::GetLocal(a), InstrV::ConstI32(12), InstrV::ShrUI32, InstrV::ConstI32(2), InstrV::ShlI32, InstrV::LoadI32(layout::TLB_DATA), InstrV::TeeLocal(e), InstrV::ConstI32(mask_g)] + seq![InstrV::AndI32] =~= seq![InstrV::GetLocal(a), InstrV::ConstI32(12), InstrV::ShrUI32, InstrV::ConstI32(2), InstrV::ShlI32, InstrV::LoadI32(layout::TLB_DATA), InstrV::TeeLocal(e), InstrV::ConstI32(mask_g), InstrV::AndI32]);
        lemma_push_onto_app(fs, seq![InstrV::GetLocal(a), InstrV::ConstI32(12), InstrV::ShrUI32, InstrV::ConstI32(2), InstrV::ShlI32, InstrV::LoadI32(layout::TLB_DATA), InstrV::TeeLocal(e), InstrV::ConstI32(mask_g), InstrV::AndI32], seq![InstrV::ConstI32(arch::TLB_VALID)]);
        assert(seq![InstrV::GetLocal(a), InstrV::ConstI32(12), InstrV::ShrUI32, InstrV::ConstI32(2), InstrV::ShlI32, InstrV::LoadI32(layout::TLB_DATA), InstrV::TeeLocal(e), InstrV::ConstI32(mask_g), InstrV::AndI32] + seq![InstrV::ConstI32(arch::TLB_VALID)] =~= seq![InstrV::GetLocal(a), InstrV::ConstI32(12), InstrV::ShrUI32, InstrV::ConstI32(2), InstrV::ShlI32, InstrV::LoadI32(layout::TLB_DATA), InstrV::TeeLocal(e), InstrV::ConstI32(mask_g), InstrV::AndI32, InstrV::ConstI32(arch::TLB_VALID)]);
        lemma_push_onto_app(fs, seq![InstrV::GetLocal(a), InstrV::ConstI32(12), InstrV::ShrUI32, InstrV::ConstI32(2), InstrV::ShlI32, InstrV::LoadI32(layout::TLB_DATA), InstrV::TeeLocal(e), InstrV::ConstI32(mask_g), InstrV::AndI32, InstrV::ConstI32(arch::TLB_VALID)], seq![InstrV::EqI32]);
        assert(seq![InstrV::GetLocal(a), InstrV::ConstI32(12), InstrV::ShrUI32, InstrV::ConstI32(2), InstrV::ShlI32, InstrV::LoadI32(layout::TLB_DATA), InstrV::TeeLocal(e), InstrV::ConstI32(mask_g), InstrV::AndI32, InstrV::ConstI32(arch::TLB_VALID)] + seq![InstrV::EqI32] =~= seq![InstrV::GetLocal(a), InstrV::ConstI32(12), InstrV::ShrUI32, InstrV::ConstI32(2), InstrV::ShlI32, InstrV::LoadI32(layout::TLB_DATA), InstrV::TeeLocal(e), InstrV::ConstI32(mask_g), InstrV::AndI32, InstrV::ConstI32(arch::TLB_VALID), InstrV::EqI32]);
        assert(seq![InstrV::GetLocal(a), InstrV::ConstI32(12), InstrV::ShrUI32, InstrV::ConstI32(2), InstrV::ShlI32, InstrV::LoadI32(layout::TLB_DATA), InstrV::TeeLocal(e), InstrV::ConstI32(mask_g), InstrV::AndI32, InstrV::ConstI32(arch::TLB_VALID), InstrV::EqI32] =~= code_tlb_probe(mask_g, a, e));
        assert(emitted(b0, ctx.builder, code_tlb_probe(mask_g, a, e)));
    }
    let ghost b_probe0 = ctx.builder;

    if bits.bytes() > 1 {
        let w = bits.bytes();
        ctx.builder.get_local(address_local);
        ctx.builder.const_i32(0xFFF);
        ctx.builder.and_i32();
        ctx.builder.const_i32(0x1000 - w as i32);
        ctx.builder.le_i32();
        ctx.builder.and_i32();
        proof {
            let wg = width_bytes(bits);
            assert(((0x1000 - wg as i32) as u32) == (0x1000 - wg) as u32);
            let fs = b_probe0.frames_v();
            lemma_push_onto_app(fs, seq![InstrV::GetLocal(a)], seq![InstrV::ConstI32(0xFFF)]);
            assert(seq![InstrV::GetLocal(a)] + seq![InstrV::ConstI32(0xFFF)] =~= seq![InstrV::GetLocal(a), InstrV::ConstI32(0xFFF)]);
            lemma_push_onto_app(fs, seq![InstrV::GetLocal(a), InstrV::ConstI32(0xFFF)], seq![InstrV::AndI32]);
            assert(seq![InstrV::GetLocal(a), InstrV::ConstI32(0xFFF)] + seq![InstrV::AndI32] =~= seq![InstrV::GetLocal(a), InstrV::ConstI32(0xFFF), InstrV::AndI32]);
            lemma_push_onto_app(fs, seq![InstrV::GetLocal(a), InstrV::ConstI32(0xFFF), InstrV::AndI32], seq![InstrV::ConstI32((0x1000 - wg) as u32)]);
            assert(seq![InstrV::GetLocal(a), InstrV::ConstI32(0xFFF), InstrV::AndI32] + seq![InstrV::ConstI32((0x1000 - wg) as u32)] =~= seq![InstrV::GetLocal(a), InstrV::ConstI32(0xFFF), InstrV::AndI32, InstrV::ConstI32((0x1000 - wg) as u32)]);
            lemma_push_onto_app(fs, seq![InstrV::GetLocal(a), InstrV::ConstI32(0xFFF), InstrV::AndI32, InstrV::ConstI32((0x1000 - wg) as u32)], seq![InstrV::LeSI32]);
            assert(seq![InstrV::GetLocal(a), InstrV::ConstI32(0xFFF), InstrV::AndI32, InstrV::ConstI32((0x1000 - wg) as u32)] + seq![InstrV::LeSI32] =~= seq![InstrV::GetLocal(a), InstrV::ConstI32(0xFFF), InstrV::AndI32, InstrV::ConstI32((0x1000 - wg) as u32), InstrV::LeSI32]);
            lemma_push_onto_app(fs, seq![InstrV::GetLocal(a), InstrV::ConstI32(0xFFF), InstrV::AndI32, InstrV::ConstI32((0x1000 - wg) as u32), InstrV::LeSI32], seq![InstrV::AndI32]);
            assert(seq![InstrV::GetLocal(a), InstrV::ConstI32(0xFFF), InstrV::AndI32, InstrV::ConstI32((0x1000 - wg) as u32), InstrV::LeSI32] + seq![InstrV::AndI32] =~= seq![InstrV::GetLocal(a), InstrV::ConstI32(0xFFF), InstrV::AndI32, InstrV::ConstI32((0x1000 - wg) as u32), InstrV::LeSI32, InstrV::AndI32]);
            assert(seq![InstrV::GetLocal(a), InstrV::ConstI32(0xFFF), InstrV::AndI32, InstrV::ConstI32((0x1000 - wg) as u32), InstrV::LeSI32, InstrV::AndI32] =~= code_page_fit(a, wg));
            assert(emitted(b_probe0, ctx.builder, code_page_fit(a, wg)));
            lemma_push_onto_app(b0.frames_v(), code_tlb_probe(mask_g, a, e), code_page_fit(a, wg));
            assert(emitted(b0, ctx.builder, code_probe(mask_g, a, e, bits)));
        }
    } else {
        proof {
            assert(code_tlb_probe(mask_g, a, e) + Seq::<InstrV>::empty() =~= code_tlb_probe(
                mask_g,
                a,
                e,
            ));
            assert(emitted(b0, ctx.builder, code_probe(mask_g, a, e, bits)));
        }
    }

    // can_use_fast_path = predicate; also consumed by the write side
    let can_use_fast_path_local = ctx.builder.tee_new_local();
    let ghost cfp = can_use_fast_path_local.idx;
    proof {
        lemma_push_onto_app(b0.frames_v(), code_probe(mask_g, a, e, bits), seq![InstrV::TeeLocal(cfp)]);
    }
    let ghost b_probe = ctx.builder;

    ctx.builder.if_i32();
    let ghost b_if = ctx.builder;

    ctx.builder.get_local(&entry_local);
    ctx.builder.const_i32(!0xFFF);
    ctx.builder.and_i32();
    ctx.builder.get_local(address_local);
    ctx.builder.xor_i32();
    proof {
        assert(((!0xFFFi32) as u32) == 0xFFFF_F000u32) by (bit_vector);
        let fs = b_if.frames_v();
        lemma_push_onto_app(fs, seq![InstrV::GetLocal(e)], seq![InstrV::ConstI32(0xFFFF_F000)]);
        assert(seq![InstrV::GetLocal(e)] + seq![InstrV::ConstI32(0xFFFF_F000)] =~= seq![InstrV::GetLocal(e), InstrV::ConstI32(0xFFFF_F000)]);
        lemma_push_onto_app(fs, seq![InstrV::GetLocal(e), InstrV::ConstI32(0xFFFF_F000)], seq![InstrV::AndI32]);
        assert(seq![InstrV::GetLocal(e), InstrV::ConstI32(0xFFFF_F000)] + seq![InstrV::AndI32] =~= seq![InstrV::GetLocal(e), InstrV::ConstI32(0xFFFF_F000), InstrV::AndI32]);
        lemma_push_onto_app(fs, seq![InstrV::GetLocal(e), InstrV::ConstI32(0xFFFF_F000), InstrV::AndI32], seq![InstrV::GetLocal(a)]);
        assert(seq![InstrV::GetLocal(e), InstrV::ConstI32(0xFFFF_F000), InstrV::AndI32] + seq![InstrV::GetLocal(a)] =~= seq![InstrV::GetLocal(e), InstrV::ConstI32(0xFFFF_F000), InstrV::AndI32, InstrV::GetLocal(a)]);
        lemma_push_onto_app(fs, seq![InstrV::GetLocal(e), InstrV::ConstI32(0xFFFF_F000), InstrV::AndI32, InstrV::GetLocal(a)], seq![InstrV::XorI32]);
        assert(seq![InstrV::GetLocal(e), InstrV::ConstI32(0xFFFF_F000), InstrV::AndI32, InstrV::GetLocal(a)] + seq![InstrV::XorI32] =~= seq![InstrV::GetLocal(e), InstrV::ConstI32(0xFFFF_F000), InstrV::AndI32, InstrV::GetLocal(a), InstrV::XorI32]);
        assert(seq![InstrV::GetLocal(e), InstrV::ConstI32(0xFFFF_F000), InstrV::AndI32, InstrV::GetLocal(a), InstrV::XorI32] =~= code_phys(e, a));
        assert(emitted(b_if, ctx.builder, code_phys(e, a)));
    }

    let phys_addr_local = ctx.builder.tee_new_local();
    let ghost phys_l = phys_addr_local.idx;
    match bits {
        BitSize::Byte => ctx.builder.load_u8_from_stack(layout::MEM8),
        BitSize::Word => ctx.builder.load_unaligned_u16_from_stack(layout::MEM8),
        _ => ctx.builder.load_unaligned_i32_from_stack(layout::MEM8),
    }
    proof {
        lemma_push_onto_app(b_if.frames_v(), code_phys(e, a), seq![InstrV::TeeLocal(phys_l)]);
        lemma_push_onto_app(b_if.frames_v(), code_phys(e, a) + seq![InstrV::TeeLocal(phys_l)], seq![load_op(bits)]);
        assert((code_phys(e, a) + seq![InstrV::TeeLocal(phys_l)]) + seq![load_op(bits)] =~= code_phys(e, a) + seq![InstrV::TeeLocal(phys_l), load_op(bits)]);
        assert(emitted(b_if, ctx.builder, code_rmw_fast_read(bits, a, e, phys_l)));
    }
    let ghost b_fast = ctx.builder;

    ctx.builder.else_();
    let ghost b_else = ctx.builder;

    ctx.builder.get_local(address_local);
    match bits {
        BitSize::Byte => gen_call_fn1_ret(&mut ctx.builder, HostFn::SafeReadWrite8Slow),
        BitSize::Word => gen_call_fn1_ret(&mut ctx.builder, HostFn::SafeReadWrite16Slow),
        _ => gen_call_fn1_ret(&mut ctx.builder, HostFn::SafeReadWrite32Slow),
    }
    proof {
        lemma_push_onto_app(b_else.frames_v(), seq![InstrV::GetLocal(a)], seq![InstrV::Call(rmw_slow_fn(bits))]);
        assert(seq![InstrV::GetLocal(a)] + seq![InstrV::Call(rmw_slow_fn(bits))] =~= seq![InstrV::GetLocal(a), InstrV::Call(rmw_slow_fn(bits))]);
    }

    ctx.builder.load_u8(layout::PAGE_FAULT);
    proof {
        lemma_push_onto_app(b_else.frames_v(), seq![InstrV::GetLocal(a), InstrV::Call(rmw_slow_fn(bits))], seq![InstrV::LoadU8At(layout::PAGE_FAULT)]);
    }
    let ghost b_pf = ctx.builder;

    ctx.builder.if_void();
    let ghost bi1 = ctx.builder;
    gen_debug_track_jit_exit(&mut ctx.builder, ctx.start_of_current_instruction);
    let low = (ctx.start_of_current_instruction & 0xFFF) as i32;
    gen_set_previous_eip_offset_from_eip_with_low_bits(&mut ctx.builder, low);
    // -2 for the exit-with-pagefault block, +2 for leaving the two nested
    // ifs opened by this emitter
    let br_offset = ctx.current_brtable_depth - 2 + 2;
    ctx.builder.br(br_offset);
    proof {
        lemma_low12_bound(pre.start_of_current_instruction);
        assert(((low as u32)) == start_low);
        lemma_push_onto_app(bi1.frames_v(), code_set_previous_eip_low_bits(start_low), seq![InstrV::Br(depth)]);
        assert(emitted(bi1, ctx.builder, code_bailout(start_low, depth)));
    }
    let ghost bi2 = ctx.builder;
    ctx.builder.block_end();
    let ghost bi3 = ctx.builder;
    proof {
        lemma_if_bracket_noelse(b_pf, bi1, bi2, bi3, BlockKind::NoRes, code_bailout(start_low, depth));
        lemma_push_onto_app(
            b_else.frames_v(),
            seq![InstrV::GetLocal(a), InstrV::Call(rmw_slow_fn(bits))] + seq![InstrV::LoadU8At(layout::PAGE_FAULT)],
            seq![
                InstrV::IfBlock {
                    kind: BlockKind::NoRes,
                    then_code: code_bailout(start_low, depth),
                    else_code: Seq::<InstrV>::empty(),
                },
            ],
        );
        assert(seq![InstrV::GetLocal(a), InstrV::Call(rmw_slow_fn(bits))] + seq![InstrV::LoadU8At(layout::PAGE_FAULT)] + seq![
            InstrV::IfBlock {
                kind: BlockKind::NoRes,
                then_code: code_bailout(start_low, depth),
                else_code: Seq::<InstrV>::empty(),
            },
        ] =~= code_rmw_slow_read(bits, a, start_low, depth));
        assert(emitted(b_else, bi3, code_rmw_slow_read(bits, a, start_low, depth)));
    }
    ctx.builder.block_end();
    proof {
        lemma_if_bracket(
            b_probe,
            b_if,
            b_fast,
            b_else,
            bi3,
            ctx.builder,
            BlockKind::ResI32,
            code_rmw_fast_read(bits, a, e, phys_l),
            code_rmw_slow_read(bits, a, start_low, depth),
        );
        lemma_push_onto_app(
            b0.frames_v(),
            code_probe(mask_g, a, e, bits) + seq![InstrV::TeeLocal(cfp)],
            seq![
                InstrV::IfBlock {
                    kind: BlockKind::ResI32,
                    then_code: code_rmw_fast_read(bits, a, e, phys_l),
                    else_code: code_rmw_slow_read(bits, a, start_low, depth),
                },
            ],
        );
        assert((code_probe(mask_g, a, e, bits) + seq![InstrV::TeeLocal(cfp)]) + seq![
            InstrV::IfBlock {
                kind: BlockKind::ResI32,
                then_code: code_rmw_fast_read(bits, a, e, phys_l),
                else_code: code_rmw_slow_read(bits, a, start_low, depth),
            },
        ] =~= code_safe_read_write_start(bits, pre.cpu.cpl3, a, e, cfp, phys_l, start_low, depth));
        assert(emitted(b0, ctx.builder, code_safe_read_write_start(bits, pre.cpu.cpl3, a, e, cfp, phys_l, start_low, depth)));
    }
    RmwGuard {
        entry: entry_local,
        can_use_fast_path: can_use_fast_path_local,
        phys_addr: phys_addr_local,
    }
}

/// Emit the write side of a guarded read-modify-write, consuming the
/// guard from the read side.  The transformed value must be on the
/// stack.  All scratch locals of the pair are released on every path.
#[verifier::rlimit(60)]
pub fn gen_safe_read_write_end(ctx: &mut JitContext, bits: BitSize, address_local: &HostLocal, guard: RmwGuard)
    requires
        old(ctx).wf(),
        old(ctx).builder.is_live(address_local.idx),
        old(ctx).builder.is_live(guard.entry.idx),
        old(ctx).builder.is_live(guard.can_use_fast_path.idx),
        old(ctx).builder.is_live(guard.phys_addr.idx),
        guard.entry.idx != guard.can_use_fast_path.idx,
        guard.entry.idx != guard.phys_addr.idx,
        guard.can_use_fast_path.idx != guard.phys_addr.idx,
        guard.entry.idx >= 8,
        guard.can_use_fast_path.idx >= 8,
        guard.phys_addr.idx >= 8,
        old(ctx).builder.room(1),
        bits is Byte || bits is Word || bits is Dword,
    ensures
        final(ctx).wf(),
        exists|value_l: u32|
            !old(ctx).builder.is_live(value_l) && emitted(
                old(ctx).builder,
                final(ctx).builder,
                #[trigger] code_safe_read_write_end(
                    bits,
                    address_local.idx,
                    guard.can_use_fast_path.idx,
                    guard.phys_addr.idx,
                    value_l,
                ),
            ),
        final(ctx).builder.depth() == old(ctx).builder.depth(),
        final(ctx).register_locals == old(ctx).register_locals,
        final(ctx).start_of_current_instruction == old(ctx).start_of_current_instruction,
        final(ctx).current_brtable_depth == old(ctx).current_brtable_depth,
        final(ctx).cpu == old(ctx).cpu,
        !final(ctx).builder.is_live(guard.entry.idx),
        !final(ctx).builder.is_live(guard.can_use_fast_path.idx),
        !final(ctx).builder.is_live(guard.phys_addr.idx),
        forall|y: u32|
            y != guard.entry.idx && y != guard.can_use_fast_path.idx && y != guard.phys_addr.idx
                && !(old(ctx).builder.is_live(y) == #[trigger] final(ctx).builder.is_live(y))
                ==> false,
        final(ctx).builder.next_local() <= old(ctx).builder.next_local() + 1,
{
    let ghost pre = *ctx;
    let ghost b0 = ctx.builder;
    let ghost a = address_local.idx;
    let ghost cfp = guard.can_use_fast_path.idx;
    let ghost phys_l = guard.phys_addr.idx;

    let value_local = ctx.builder.set_new_local();
    let ghost value_l = value_local.idx;
    ctx.builder.get_local(&guard.can_use_fast_path);
    proof {
        lemma_push_onto_app(b0.frames_v(), seq![InstrV::SetLocal(value_l)], seq![InstrV::GetLocal(cfp)]);
        assert(seq![InstrV::SetLocal(value_l)] + seq![InstrV::GetLocal(cfp)] =~= seq![InstrV::SetLocal(value_l), InstrV::GetLocal(cfp)]);
    }
    let ghost b_head = ctx.builder;

    ctx.builder.if_void();
    let ghost b_if = ctx.builder;
    ctx.builder.get_local(&guard.phys_addr);
    ctx.builder.get_local(&value_local);
    match bits {
        BitSize::Byte => ctx.builder.store_u8(layout::MEM8),
        BitSize::Word => ctx.builder.store_unaligned_u16(layout::MEM8),
        _ => ctx.builder.store_unaligned_i32(layout::MEM8),
    }
    proof {
        let fs = b_if.frames_v();
        lemma_push_onto_app(fs, seq![InstrV::GetLocal(phys_l)], seq![InstrV::GetLocal(value_l)]);
        assert(seq![InstrV::GetLocal(phys_l)] + seq![InstrV::GetLocal(value_l)] =~= seq![InstrV::GetLocal(phys_l), InstrV::GetLocal(value_l)]);
        lemma_push_onto_app(fs, seq![InstrV::GetLocal(phys_l), InstrV::GetLocal(value_l)], seq![store_op(bits)]);
        assert(seq![InstrV::GetLocal(phys_l), InstrV::GetLocal(value_l)] + seq![store_op(bits)] =~= seq![InstrV::GetLocal(phys_l), InstrV::GetLocal(value_l), store_op(bits)]);
    }
    let ghost b_fast = ctx.builder;

    ctx.builder.else_();
    let ghost b_else = ctx.builder;
    ctx.builder.get_local(address_local);
    ctx.builder.get_local(&value_local);
    match bits {
        BitSize::Byte => gen_call_fn2(&mut ctx.builder, HostFn::SafeWrite8Slow),
        BitSize::Word => gen_call_fn2(&mut ctx.builder, HostFn::SafeWrite16Slow),
        _ => gen_call_fn2(&mut ctx.builder, HostFn::SafeWrite32Slow),
    }
    ctx.builder.load_u8(layout::PAGE_FAULT);
    proof {
        let fs = b_else.frames_v();
        lemma_push_onto_app(fs, seq![InstrV::GetLocal(a)], seq![InstrV::GetLocal(value_l)]);
        assert(seq![InstrV::GetLocal(a)] + seq![InstrV::GetLocal(value_l)] =~= seq![InstrV::GetLocal(a), InstrV::GetLocal(value_l)]);
        lemma_push_onto_app(fs, seq![InstrV::GetLocal(a), InstrV::GetLocal(value_l)], seq![InstrV::Call(write_slow_fn(bits))]);
        assert(seq![InstrV::GetLocal(a), InstrV::GetLocal(value_l)] + seq![InstrV::Call(write_slow_fn(bits))] =~= seq![InstrV::GetLocal(a), InstrV::GetLocal(value_l), InstrV::Call(write_slow_fn(bits))]);
        lemma_push_onto_app(fs, seq![InstrV::GetLocal(a), InstrV::GetLocal(value_l), InstrV::Call(write_slow_fn(bits))], seq![InstrV::LoadU8At(layout::PAGE_FAULT)]);
        assert(seq![InstrV::GetLocal(a), InstrV::GetLocal(value_l), InstrV::Call(write_slow_fn(bits))] + seq![InstrV::LoadU8At(layout::PAGE_FAULT)] =~= seq![InstrV::GetLocal(a), InstrV::GetLocal(value_l), InstrV::Call(write_slow_fn(bits)), InstrV::LoadU8At(layout::PAGE_FAULT)]);
    }
    let ghost b_pf = ctx.builder;

    ctx.builder.if_void();
    let ghost bi1 = ctx.builder;
    // the read side has already validated this mapping, so a fault here
    // is a defect: report it instead of bailing out
    let nbits: u32 = bits.bytes() * 8;
    proof {
        lemma_cast_roundtrip_u32(nbits);
        assert(bits_n(bits) == width_bytes(bits) * 8);
    }
    ctx.builder.const_i32(nbits as i32);
    ctx.builder.get_local(address_local);
    gen_call_fn2(&mut ctx.builder, HostFn::BugReadWritePageFault);
    proof {
        let fs = bi1.frames_v();
        lemma_push_onto_app(fs, seq![InstrV::ConstI32(bits_n(bits))], seq![InstrV::GetLocal(a)]);
        assert(seq![InstrV::ConstI32(bits_n(bits))] + seq![InstrV::GetLocal(a)] =~= seq![InstrV::ConstI32(bits_n(bits)), InstrV::GetLocal(a)]);
        lemma_push_onto_app(fs, seq![InstrV::ConstI32(bits_n(bits)), InstrV::GetLocal(a)], seq![InstrV::Call(HostFn::BugReadWritePageFault)]);
        assert(seq![InstrV::ConstI32(bits_n(bits)), InstrV::GetLocal(a)] + seq![InstrV::Call(HostFn::BugReadWritePageFault)] =~= seq![InstrV::ConstI32(bits_n(bits)), InstrV::GetLocal(a), InstrV::Call(HostFn::BugReadWritePageFault)]);
    }
    let ghost bi2 = ctx.builder;
    ctx.builder.block_end();
    let ghost bi3 = ctx.builder;
    proof {
        lemma_if_bracket_noelse(b_pf, bi1, bi2, bi3, BlockKind::NoRes, seq![
            InstrV::ConstI32(bits_n(bits)),
            InstrV::GetLocal(a),
            InstrV::Call(HostFn::BugReadWritePageFault),
        ]);
        lemma_push_onto_app(
            b_else.frames_v(),
            seq![InstrV::GetLocal(a), InstrV::GetLocal(value_l), InstrV::Call(write_slow_fn(bits)), InstrV::LoadU8At(layout::PAGE_FAULT)],
            seq![
                InstrV::IfBlock {
                    kind: BlockKind::NoRes,
                    then_code: seq![
                        InstrV::ConstI32(bits_n(bits)),
                        InstrV::GetLocal(a),
                        InstrV::Call(HostFn::BugReadWritePageFault),
                    ],
                    else_code: Seq::<InstrV>::empty(),
                },
            ],
        );
        assert(seq![InstrV::GetLocal(a), InstrV::GetLocal(value_l), InstrV::Call(write_slow_fn(bits)), InstrV::LoadU8At(layout::PAGE_FAULT)] + seq![
            InstrV::IfBlock {
                kind: BlockKind::NoRes,
                then_code: seq![
                    InstrV::ConstI32(bits_n(bits)),
                    InstrV::GetLocal(a),
                    InstrV::Call(HostFn::BugReadWritePageFault),
                ],
                else_code: Seq::<InstrV>::empty(),
            },
        ] =~= code_safe_read_write_end(bits, a, cfp, phys_l, value_l).index(2)->IfBlock_else_code);
    }
    ctx.builder.block_end();
    proof {
        lemma_if_bracket(
            b_head,
            b_if,
            b_fast,
            b_else,
            bi3,
            ctx.builder,
            BlockKind::NoRes,
            seq![InstrV::GetLocal(phys_l), InstrV::GetLocal(value_l), store_op(bits)],
            code_safe_read_write_end(bits, a, cfp, phys_l, value_l).index(2)->IfBlock_else_code,
        );
        lemma_push_onto_app(
            b0.frames_v(),
            seq![InstrV::SetLocal(value_l), InstrV::GetLocal(cfp)],
            seq![code_safe_read_write_end(bits, a, cfp, phys_l, value_l).index(2)],
        );
        assert(seq![InstrV::SetLocal(value_l), InstrV::GetLocal(cfp)] + seq![code_safe_read_write_end(bits, a, cfp, phys_l, value_l).index(2)] =~= code_safe_read_write_end(bits, a, cfp, phys_l, value_l));
    }
    ctx.builder.free_local(value_local);
    ctx.builder.free_local(guard.can_use_fast_path);
    ctx.builder.free_local(guard.phys_addr);
    ctx.builder.free_local(guard.entry);
    proof {
        assert(emitted(b0, ctx.builder, code_safe_read_write_end(bits, a, cfp, phys_l, value_l)));
    }
}

/// Host-side handler for a condition the emitter's proofs rule out: a
/// page fault on the slow-path write of a read-modify-write whose read
/// side already validated the mapping.  It records nothing and performs
/// no recovery; the emitted call exists purely as a defensive marker, and
/// this handler reports the faulting access back to its caller.
pub fn bug_gen_safe_read_write_page_fault(bits: i32, addr: u32) -> (r: (i32, u32))
    ensures
        r.0 == bits,
        r.1 == addr,
{
    (bits, addr)
}

} // verus!
