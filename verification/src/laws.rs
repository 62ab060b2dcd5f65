//! Proofs about the runtime behaviour of the emitted bytecode.
//!
//! The emitters' own contracts pin down the bytecode they append; the
//! lemmas here run that bytecode through the interpreter of
//! [`crate::machine`] and state what it does to the machine:
//!
//! - [`lemma_safe_read_fast_path`]: for every virtual address and every
//!   read width up to 64 bits, when the TLB entry for the address's page
//!   is valid under the read mask and the access does not cross its
//!   page, the emitted guarded read makes no helper call and yields a
//!   bit-exact copy of guest physical memory at
//!   `(entry & ~0xFFF) ^ address`.
//! - [`lemma_high_byte_aliasing`]: writing the high byte and then the
//!   low byte of a register and reading it back yields the untouched
//!   upper half combined with both bytes.
//! - [`lemma_lazy_zf_architectural`], [`lemma_lazy_cf_architectural_add`]
//!   and [`lemma_lazy_cf_architectural_sub`]: the branchless lazy-flag
//!   recomputation formulas emitted by the flag readers equal the
//!   architectural ZF and CF of the recorded operation, for operand
//!   sizes 8, 16 and 32.
//!
//! The slow-path behaviours (the helper called exactly once with the
//! virtual address, the page-fault bail-out, and the write side of a
//! read-modify-write never running after a faulted read) are exercised
//! end to end by the scenario tests, which run the emitted bytecode
//! through the verified interpreter of [`crate::runner`].

use vstd::prelude::*;
use crate::arch;
use crate::layout;
use crate::isa::{BlockKind, HostFn, InstrV, Val, ValKind};
use crate::machine::{
    CallEv, EffectV, MachineV, Flow, Outcome, rd16, rd32, rd64, wr8, wr16, wr32, wr64, add_u32,
    sub_u32, bin_i32_val, is_bin_i32, step_op, step_call, exec_ops, continue_with,
    lemma_exec_ops_app,
};
use crate::emit_basic::{code_set_reg8, code_get_reg32};
use crate::emit_mem::{
    BitSize, WriteValV, width_bytes, read_status_mask, write_status_mask, code_tlb_probe,
    code_page_fit, code_probe, code_phys, code_fast_read, code_slow_read, code_safe_read,
    code_fast_write, code_slow_write, code_safe_write, code_bailout, code_pf_check, read_slow_fn,
    write_slow_fn, read_block_kind, store_op, load_op, code_push_wval,
};

verus! {

/// The 32-bit value held in local `x`.
pub open spec fn loc32(m: MachineV, x: u32) -> u32 {
    (m.locals[x as int] & 0xFFFF_FFFF) as u32
}

/// The TLB entry for the page of virtual address `addr`.
pub open spec fn tlb_entry_of(m: MachineV, addr: u32) -> u32 {
    rd32(m.mem, layout::TLB_DATA + 4 * (addr >> 12))
}

/// The fast-path predicate value the probe leaves on the stack: the
/// entry's status bits equal `TLB_VALID` under `mask`, and (for accesses
/// wider than a byte) the access does not cross the page boundary.
pub open spec fn probe_pred(bits: BitSize, mask: u32, entry: u32, addr: u32) -> u32 {
    if (entry & mask) == arch::TLB_VALID && (bits is Byte || (addr & 0xFFF) + width_bytes(bits)
        <= 0x1000) {
        1
    } else {
        0
    }
}

/// The guest-physical offset of a fast-path access.
pub open spec fn phys_of(entry: u32, addr: u32) -> u32 {
    (entry & 0xFFFF_F000) ^ addr
}

/// Bounds under which the probe itself cannot get stuck: the TLB array
/// is inside memory.
pub open spec fn probe_bounds(m: MachineV, addr: u32) -> bool {
    layout::TLB_DATA + 4 * (addr >> 12) + 4 <= m.mem.len()
}

proof fn lemma_shift_consts(addr: u32)
    ensures
        (12u32 & 31) == 12,
        (2u32 & 31) == 2,
        ((addr >> 12) << 2) == 4 * (addr >> 12),
        (addr >> 12) < 0x100000,
        (addr & 0xFFF) < 0x1000,
{
    assert((12u32 & 31) == 12 && (2u32 & 31) == 2) by (bit_vector);
    assert(((addr >> 12) << 2) == 4 * (addr >> 12) && (addr >> 12) < 0x100000 && (addr
        & 0xFFF) < 0x1000) by (bit_vector);
}

proof fn lemma_and01(x: u32, y: u32)
    requires
        x == 0 || x == 1,
        y == 0 || y == 1,
    ensures
        (x & y) == (
        if x == 1 && y == 1 {
            1u32
        } else {
            0u32
        }),
{
    assert(x == 0 || x == 1 ==> (y == 0 || y == 1 ==> (x & y) == (
    if x == 1 && y == 1 {
        1u32
    } else {
        0u32
    }))) by (bit_vector);
}

/// Running the TLB probe: the entry is cached in local `e` and the
/// status predicate is left on the stack.
proof fn lemma_exec_tlb_probe(mask: u32, a_l: u32, e: u32, m: MachineV, oracle: Seq<EffectV>)
    requires
        a_l < m.locals.len(),
        e < m.locals.len(),
        probe_bounds(m, loc32(m, a_l)),
    ensures
        ({
            let addr = loc32(m, a_l);
            let entry = tlb_entry_of(m, addr);
            exec_ops(code_tlb_probe(mask, a_l, e), m, oracle) == Outcome::Done(
                MachineV {
                    mem: m.mem,
                    locals: m.locals.update(e as int, entry as u64),
                    stack: m.stack.push(
                        Val::I32(
                            if (entry & mask) == arch::TLB_VALID {
                                1u32
                            } else {
                                0u32
                            },
                        ),
                    ),
                    calls: m.calls,
                },
                Flow::Next,
            )
        }),
{
    let addr = loc32(m, a_l);
    let entry = tlb_entry_of(m, addr);
    let p0: u32 = if (entry & mask) == arch::TLB_VALID {
        1u32
    } else {
        0u32
    };
    lemma_shift_consts(addr);
    assert((entry as u64 & 0xFFFF_FFFF) as u32 == entry) by (bit_vector);
    let c = code_tlb_probe(mask, a_l, e);
    assert(c.len() == 11);
    assert(c[0] == InstrV::GetLocal(a_l));
    assert(c[1] == InstrV::ConstI32(12));
    assert(c[2] == InstrV::ShrUI32);
    assert(c[3] == InstrV::ConstI32(2));
    assert(c[4] == InstrV::ShlI32);
    assert(c[5] == InstrV::LoadI32(layout::TLB_DATA));
    assert(c[6] == InstrV::TeeLocal(e));
    assert(c[7] == InstrV::ConstI32(mask));
    assert(c[8] == InstrV::AndI32);
    assert(c[9] == InstrV::ConstI32(arch::TLB_VALID));
    assert(c[10] == InstrV::EqI32);
    // InstrV::GetLocal(a_l)
    let c1 = c.subrange(1, 11);
    assert(c.drop_first() =~= c1);
    let m1 = MachineV { mem: m.mem, locals: m.locals, stack: m.stack.push(Val::I32(addr)), calls: m.calls };
    assert(step_op(c[0], m, oracle) == Some(m1));
    assert(exec_ops(c, m, oracle) == exec_ops(c1, m1, oracle));
    // InstrV::ConstI32(12)
    let c2 = c.subrange(2, 11);
    assert(c1.drop_first() =~= c2);
    let m2 = MachineV { mem: m.mem, locals: m.locals, stack: m.stack.push(Val::I32(addr)).push(Val::I32(12)), calls: m.calls };
    assert(step_op(c[1], m1, oracle) == Some(m2));
    assert(exec_ops(c1, m1, oracle) == exec_ops(c2, m2, oracle));
    // InstrV::ShrUI32
    let c3 = c.subrange(3, 11);
    assert(c2.drop_first() =~= c3);
    assert(m.stack.push(Val::I32(addr)).push(Val::I32(12)).subrange(0, m.stack.push(Val::I32(addr)).push(Val::I32(12)).len() - 2) =~= m.stack);
    assert(bin_i32_val(InstrV::ShrUI32, addr, 12) == addr >> 12);
    let m3 = MachineV { mem: m.mem, locals: m.locals, stack: m.stack.push(Val::I32(addr >> 12)), calls: m.calls };
    assert(step_op(c[2], m2, oracle) == Some(m3));
    assert(exec_ops(c2, m2, oracle) == exec_ops(c3, m3, oracle));
    // InstrV::ConstI32(2)
    let c4 = c.subrange(4, 11);
    assert(c3.drop_first() =~= c4);
    let m4 = MachineV { mem: m.mem, locals: m.locals, stack: m.stack.push(Val::I32(addr >> 12)).push(Val::I32(2)), calls: m.calls };
    assert(step_op(c[3], m3, oracle) == Some(m4));
    assert(exec_ops(c3, m3, oracle) == exec_ops(c4, m4, oracle));
    // InstrV::ShlI32
    let c5 = c.subrange(5, 11);
    assert(c4.drop_first() =~= c5);
    assert(m.stack.push(Val::I32(addr >> 12)).push(Val::I32(2)).subrange(0, m.stack.push(Val::I32(addr >> 12)).push(Val::I32(2)).len() - 2) =~= m.stack);
    assert(bin_i32_val(InstrV::ShlI32, addr >> 12, 2) == (4 * (addr >> 12)) as u32);
    let m5 = MachineV { mem: m.mem, locals: m.locals, stack: m.stack.push(Val::I32((4 * (addr >> 12)) as u32)), calls: m.calls };
    assert(step_op(c[4], m4, oracle) == Some(m5));
    assert(exec_ops(c4, m4, oracle) == exec_ops(c5, m5, oracle));
    // InstrV::LoadI32(layout::TLB_DATA)
    let c6 = c.subrange(6, 11);
    assert(c5.drop_first() =~= c6);
    assert(m.stack.push(Val::I32((4 * (addr >> 12)) as u32)).drop_last() =~= m.stack);
    let m6 = MachineV { mem: m.mem, locals: m.locals, stack: m.stack.push(Val::I32(entry)), calls: m.calls };
    assert(step_op(c[5], m5, oracle) == Some(m6));
    assert(exec_ops(c5, m5, oracle) == exec_ops(c6, m6, oracle));
    // InstrV::TeeLocal(e)
    let c7 = c.subrange(7, 11);
    assert(c6.drop_first() =~= c7);
    let m7 = MachineV { mem: m.mem, locals: m.locals.update(e as int, entry as u64), stack: m.stack.push(Val::I32(entry)), calls: m.calls };
    assert(step_op(c[6], m6, oracle) == Some(m7));
    assert(exec_ops(c6, m6, oracle) == exec_ops(c7, m7, oracle));
    // InstrV::ConstI32(mask)
    let c8 = c.subrange(8, 11);
    assert(c7.drop_first() =~= c8);
    let m8 = MachineV { mem: m.mem, locals: m.locals.update(e as int, entry as u64), stack: m.stack.push(Val::I32(entry)).push(Val::I32(mask)), calls: m.calls };
    assert(step_op(c[7], m7, oracle) == Some(m8));
    assert(exec_ops(c7, m7, oracle) == exec_ops(c8, m8, oracle));
    // InstrV::AndI32
    let c9 = c.subrange(9, 11);
    assert(c8.drop_first() =~= c9);
    assert(m.stack.push(Val::I32(entry)).push(Val::I32(mask)).subrange(0, m.stack.push(Val::I32(entry)).push(Val::I32(mask)).len() - 2) =~= m.stack);
    let m9 = MachineV { mem: m.mem, locals: m.locals.update(e as int, entry as u64), stack: m.stack.push(Val::I32(entry & mask)), calls: m.calls };
    assert(step_op(c[8], m8, oracle) == Some(m9));
    assert(exec_ops(c8, m8, oracle) == exec_ops(c9, m9, oracle));
    // InstrV::ConstI32(arch::TLB_VALID)
    let c10 = c.subrange(10, 11);
    assert(c9.drop_first() =~= c10);
    let m10 = MachineV { mem: m.mem, locals: m.locals.update(e as int, entry as u64), stack: m.stack.push(Val::I32(entry & mask)).push(Val::I32(arch::TLB_VALID)), calls: m.calls };
    assert(step_op(c[9], m9, oracle) == Some(m10));
    assert(exec_ops(c9, m9, oracle) == exec_ops(c10, m10, oracle));
    // InstrV::EqI32
    let c11 = c.subrange(11, 11);
    assert(c10.drop_first() =~= c11);
    assert(m.stack.push(Val::I32(entry & mask)).push(Val::I32(arch::TLB_VALID)).subrange(0, m.stack.push(Val::I32(entry & mask)).push(Val::I32(arch::TLB_VALID)).len() - 2) =~= m.stack);
    let m11 = MachineV { mem: m.mem, locals: m.locals.update(e as int, entry as u64), stack: m.stack.push(Val::I32(p0)), calls: m.calls };
    assert(step_op(c[10], m10, oracle) == Some(m11));
    assert(exec_ops(c10, m10, oracle) == exec_ops(c11, m11, oracle));
    assert(c11 =~= Seq::<InstrV>::empty());
    assert(exec_ops(c11, m11, oracle) == Outcome::Done(m11, Flow::Next));
}

/// Running the low-byte register write: the stack top is merged into the
/// low 8 bits of register local .
proof fn lemma_exec_set_reg8_low(r: u32, v: u32, m: MachineV, oracle: Seq<EffectV>)
    requires
        r < 4,
        r < m.locals.len(),
        m.stack.len() >= 1,
        m.stack.last() == Val::I32(v),
    ensures
        exec_ops(code_set_reg8(r), m, oracle) == Outcome::Done(
            MachineV {
                mem: m.mem,
                locals: m.locals.update(
                    r as int,
                    ((v & 0xFF) | (loc32(m, r) & 0xFFFF_FF00)) as u64,
                ),
                stack: m.stack.drop_last(),
                calls: m.calls,
            },
            Flow::Next,
        ),
{
    let c = code_set_reg8(r);
    let s0 = m.stack.drop_last();
    let lv = loc32(m, r);
    assert(m.stack =~= s0.push(Val::I32(v)));
    assert(m == MachineV { mem: m.mem, locals: m.locals, stack: s0.push(Val::I32(v)), calls: m.calls });
    assert(c.len() == 7);
    assert(c[0] == InstrV::ConstI32(0xFF));
    assert(c[1] == InstrV::AndI32);
    assert(c[2] == InstrV::GetLocal(r));
    assert(c[3] == InstrV::ConstI32(0xFFFF_FF00));
    assert(c[4] == InstrV::AndI32);
    assert(c[5] == InstrV::OrI32);
    assert(c[6] == InstrV::SetLocal(r));
    // InstrV::ConstI32(0xFF)
    let c1 = c.subrange(1, 7);
    assert(c.drop_first() =~= c1);
    let m1 = MachineV { mem: m.mem, locals: m.locals, stack: s0.push(Val::I32(v)).push(Val::I32(0xFF)), calls: m.calls };
    assert(step_op(c[0], MachineV { mem: m.mem, locals: m.locals, stack: s0.push(Val::I32(v)), calls: m.calls }, oracle) == Some(m1));
    assert(exec_ops(c, m, oracle) == exec_ops(c1, m1, oracle));
    // InstrV::AndI32
    let c2 = c.subrange(2, 7);
    assert(c1.drop_first() =~= c2);
    assert(s0.push(Val::I32(v)).push(Val::I32(0xFF)).subrange(0, s0.push(Val::I32(v)).push(Val::I32(0xFF)).len() - 2) =~= s0);
    let m2 = MachineV { mem: m.mem, locals: m.locals, stack: s0.push(Val::I32(v & 0xFF)), calls: m.calls };
    assert(step_op(c[1], m1, oracle) == Some(m2));
    assert(exec_ops(c1, m1, oracle) == exec_ops(c2, m2, oracle));
    // InstrV::GetLocal(r)
    let c3 = c.subrange(3, 7);
    assert(c2.drop_first() =~= c3);
    let m3 = MachineV { mem: m.mem, locals: m.locals, stack: s0.push(Val::I32(v & 0xFF)).push(Val::I32(lv)), calls: m.calls };
    assert(step_op(c[2], m2, oracle) == Some(m3));
    assert(exec_ops(c2, m2, oracle) == exec_ops(c3, m3, oracle));
    // InstrV::ConstI32(0xFFFF_FF00)
    let c4 = c.subrange(4, 7);
    assert(c3.drop_first() =~= c4);
    let m4 = MachineV { mem: m.mem, locals: m.locals, stack: s0.push(Val::I32(v & 0xFF)).push(Val::I32(lv)).push(Val::I32(0xFFFF_FF00)), calls: m.calls };
    assert(step_op(c[3], m3, oracle) == Some(m4));
    assert(exec_ops(c3, m3, oracle) == exec_ops(c4, m4, oracle));
    // InstrV::AndI32
    let c5 = c.subrange(5, 7);
    assert(c4.drop_first() =~= c5);
    assert(s0.push(Val::I32(v & 0xFF)).push(Val::I32(lv)).push(Val::I32(0xFFFF_FF00)).subrange(0, s0.push(Val::I32(v & 0xFF)).push(Val::I32(lv)).push(Val::I32(0xFFFF_FF00)).len() - 2) =~= s0.push(Val::I32(v & 0xFF)));
    let m5 = MachineV { mem: m.mem, locals: m.locals, stack: s0.push(Val::I32(v & 0xFF)).push(Val::I32(lv & 0xFFFF_FF00)), calls: m.calls };
    assert(step_op(c[4], m4, oracle) == Some(m5));
    assert(exec_ops(c4, m4, oracle) == exec_ops(c5, m5, oracle));
    // InstrV::OrI32
    let c6 = c.subrange(6, 7);
    assert(c5.drop_first() =~= c6);
    assert(s0.push(Val::I32(v & 0xFF)).push(Val::I32(lv & 0xFFFF_FF00)).subrange(0, s0.push(Val::I32(v & 0xFF)).push(Val::I32(lv & 0xFFFF_FF00)).len() - 2) =~= s0);
    let m6 = MachineV { mem: m.mem, locals: m.locals, stack: s0.push(Val::I32((v & 0xFF) | (lv & 0xFFFF_FF00))), calls: m.calls };
    assert(step_op(c[5], m5, oracle) == Some(m6));
    assert(exec_ops(c5, m5, oracle) == exec_ops(c6, m6, oracle));
    // InstrV::SetLocal(r)
    let c7 = c.subrange(7, 7);
    assert(c6.drop_first() =~= c7);
    assert(s0.push(Val::I32((v & 0xFF) | (lv & 0xFFFF_FF00))).drop_last() =~= s0);
    let m7 = MachineV { mem: m.mem, locals: m.locals.update(r as int, ((v & 0xFF) | (lv & 0xFFFF_FF00)) as u64), stack: s0, calls: m.calls };
    assert(step_op(c[6], m6, oracle) == Some(m7));
    assert(exec_ops(c6, m6, oracle) == exec_ops(c7, m7, oracle));
    assert(c7 =~= Seq::<InstrV>::empty());
    assert(exec_ops(c7, m7, oracle) == Outcome::Done(m7, Flow::Next));
}

/// Running the high-byte register write: the stack top is merged into
/// bits 8..16 of register local .
proof fn lemma_exec_set_reg8_high(r: u32, v: u32, m: MachineV, oracle: Seq<EffectV>)
    requires
        4 <= r < 8,
        (r - 4) < m.locals.len(),
        m.stack.len() >= 1,
        m.stack.last() == Val::I32(v),
    ensures
        exec_ops(code_set_reg8(r), m, oracle) == Outcome::Done(
            MachineV {
                mem: m.mem,
                locals: m.locals.update(
                    (r - 4) as int,
                    (((v << 8) & 0xFF00) | (loc32(m, (r - 4) as u32) & 0xFFFF_00FF)) as u64,
                ),
                stack: m.stack.drop_last(),
                calls: m.calls,
            },
            Flow::Next,
        ),
{
    let c = code_set_reg8(r);
    let rr = (r - 4) as u32;
    let s0 = m.stack.drop_last();
    let lv = loc32(m, rr);
    assert((8u32 & 31) == 8) by (bit_vector);
    assert(m.stack =~= s0.push(Val::I32(v)));
    assert(m == MachineV { mem: m.mem, locals: m.locals, stack: s0.push(Val::I32(v)), calls: m.calls });
    assert(c.len() == 9);
    assert(c[0] == InstrV::ConstI32(8));
    assert(c[1] == InstrV::ShlI32);
    assert(c[2] == InstrV::ConstI32(0xFF00));
    assert(c[3] == InstrV::AndI32);
    assert(c[4] == InstrV::GetLocal(rr));
    assert(c[5] == InstrV::ConstI32(0xFFFF_00FF));
    assert(c[6] == InstrV::AndI32);
    assert(c[7] == InstrV::OrI32);
    assert(c[8] == InstrV::SetLocal(rr));
    // InstrV::ConstI32(8)
    let c1 = c.subrange(1, 9);
    assert(c.drop_first() =~= c1);
    let m1 = MachineV { mem: m.mem, locals: m.locals, stack: s0.push(Val::I32(v)).push(Val::I32(8)), calls: m.calls };
    assert(step_op(c[0], MachineV { mem: m.mem, locals: m.locals, stack: s0.push(Val::I32(v)), calls: m.calls }, oracle) == Some(m1));
    assert(exec_ops(c, m, oracle) == exec_ops(c1, m1, oracle));
    // InstrV::ShlI32
    let c2 = c.subrange(2, 9);
    assert(c1.drop_first() =~= c2);
    assert(s0.push(Val::I32(v)).push(Val::I32(8)).subrange(0, s0.push(Val::I32(v)).push(Val::I32(8)).len() - 2) =~= s0);
    assert(bin_i32_val(InstrV::ShlI32, v, 8) == v << 8);
    let m2 = MachineV { mem: m.mem, locals: m.locals, stack: s0.push(Val::I32(v << 8)), calls: m.calls };
    assert(step_op(c[1], m1, oracle) == Some(m2));
    assert(exec_ops(c1, m1, oracle) == exec_ops(c2, m2, oracle));
    // InstrV::ConstI32(0xFF00)
    let c3 = c.subrange(3, 9);
    assert(c2.drop_first() =~= c3);
    let m3 = MachineV { mem: m.mem, locals: m.locals, stack: s0.push(Val::I32(v << 8)).push(Val::I32(0xFF00)), calls: m.calls };
    assert(step_op(c[2], m2, oracle) == Some(m3));
    assert(exec_ops(c2, m2, oracle) == exec_ops(c3, m3, oracle));
    // InstrV::AndI32
    let c4 = c.subrange(4, 9);
    assert(c3.drop_first() =~= c4);
    assert(s0.push(Val::I32(v << 8)).push(Val::I32(0xFF00)).subrange(0, s0.push(Val::I32(v << 8)).push(Val::I32(0xFF00)).len() - 2) =~= s0);
    let m4 = MachineV { mem: m.mem, locals: m.locals, stack: s0.push(Val::I32((v << 8) & 0xFF00)), calls: m.calls };
    assert(step_op(c[3], m3, oracle) == Some(m4));
    assert(exec_ops(c3, m3, oracle) == exec_ops(c4, m4, oracle));
    // InstrV::GetLocal(rr)
    let c5 = c.subrange(5, 9);
    assert(c4.drop_first() =~= c5);
    let m5 = MachineV { mem: m.mem, locals: m.locals, stack: s0.push(Val::I32((v << 8) & 0xFF00)).push(Val::I32(lv)), calls: m.calls };
    assert(step_op(c[4], m4, oracle) == Some(m5));
    assert(exec_ops(c4, m4, oracle) == exec_ops(c5, m5, oracle));
    // InstrV::ConstI32(0xFFFF_00FF)
    let c6 = c.subrange(6, 9);
    assert(c5.drop_first() =~= c6);
    let m6 = MachineV { mem: m.mem, locals: m.locals, stack: s0.push(Val::I32((v << 8) & 0xFF00)).push(Val::I32(lv)).push(Val::I32(0xFFFF_00FF)), calls: m.calls };
    assert(step_op(c[5], m5, oracle) == Some(m6));
    assert(exec_ops(c5, m5, oracle) == exec_ops(c6, m6, oracle));
    // InstrV::AndI32
    let c7 = c.subrange(7, 9);
    assert(c6.drop_first() =~= c7);
    assert(s0.push(Val::I32((v << 8) & 0xFF00)).push(Val::I32(lv)).push(Val::I32(0xFFFF_00FF)).subrange(0, s0.push(Val::I32((v << 8) & 0xFF00)).push(Val::I32(lv)).push(Val::I32(0xFFFF_00FF)).len() - 2) =~= s0.push(Val::I32((v << 8) & 0xFF00)));
    let m7 = MachineV { mem: m.mem, locals: m.locals, stack: s0.push(Val::I32((v << 8) & 0xFF00)).push(Val::I32(lv & 0xFFFF_00FF)), calls: m.calls };
    assert(step_op(c[6], m6, oracle) == Some(m7));
    assert(exec_ops(c6, m6, oracle) == exec_ops(c7, m7, oracle));
    // InstrV::OrI32
    let c8 = c.subrange(8, 9);
    assert(c7.drop_first() =~= c8);
    assert(s0.push(Val::I32((v << 8) & 0xFF00)).push(Val::I32(lv & 0xFFFF_00FF)).subrange(0, s0.push(Val::I32((v << 8) & 0xFF00)).push(Val::I32(lv & 0xFFFF_00FF)).len() - 2) =~= s0);
    let m8 = MachineV { mem: m.mem, locals: m.locals, stack: s0.push(Val::I32(((v << 8) & 0xFF00) | (lv & 0xFFFF_00FF))), calls: m.calls };
    assert(step_op(c[7], m7, oracle) == Some(m8));
    assert(exec_ops(c7, m7, oracle) == exec_ops(c8, m8, oracle));
    // InstrV::SetLocal(rr)
    let c9 = c.subrange(9, 9);
    assert(c8.drop_first() =~= c9);
    assert(s0.push(Val::I32(((v << 8) & 0xFF00) | (lv & 0xFFFF_00FF))).drop_last() =~= s0);
    let m9 = MachineV { mem: m.mem, locals: m.locals.update(rr as int, (((v << 8) & 0xFF00) | (lv & 0xFFFF_00FF)) as u64), stack: s0, calls: m.calls };
    assert(step_op(c[8], m8, oracle) == Some(m9));
    assert(exec_ops(c8, m8, oracle) == exec_ops(c9, m9, oracle));
    assert(c9 =~= Seq::<InstrV>::empty());
    assert(exec_ops(c9, m9, oracle) == Outcome::Done(m9, Flow::Next));
}

/// High-byte aliasing: writing  to the high byte and  to the low
/// byte of the same register, then reading the full 32-bit register,
/// yields the untouched upper half together with  and
/// .  Stated for any low register index  (AH/AL pairs with
/// x = 0), with  below  on the operand stack, as the two writes
/// consume them in that order.
pub proof fn lemma_high_byte_aliasing(x: u32, h: u32, l: u32, m: MachineV, oracle: Seq<EffectV>)
    requires
        x < 4,
        x < m.locals.len(),
        m.stack.len() >= 2,
        m.stack.last() == Val::I32(h),
        m.stack[m.stack.len() - 2] == Val::I32(l),
    ensures
        exec_ops(
            code_set_reg8((x + 4) as u32) + code_set_reg8(x) + code_get_reg32(x),
            m,
            oracle,
        ) == Outcome::Done(
            MachineV {
                mem: m.mem,
                locals: m.locals.update(
                    x as int,
                    ((loc32(m, x) & 0xFFFF_0000) | (((h & 0xFF) << 8) | (l & 0xFF))) as u64,
                ),
                stack: m.stack.subrange(0, m.stack.len() - 2).push(
                    Val::I32((loc32(m, x) & 0xFFFF_0000) | (((h & 0xFF) << 8) | (l & 0xFF))),
                ),
                calls: m.calls,
            },
            Flow::Next,
        ),
{
    let lv = loc32(m, x);
    let hi_merged: u32 = (((h << 8) & 0xFF00) | (lv & 0xFFFF_00FF)) as u32;
    let target: u32 = ((lv & 0xFFFF_0000) | (((h & 0xFF) << 8) | (l & 0xFF))) as u32;
    lemma_exec_set_reg8_high((x + 4) as u32, h, m, oracle);
    let m1 = MachineV {
        mem: m.mem,
        locals: m.locals.update(x as int, hi_merged as u64),
        stack: m.stack.drop_last(),
        calls: m.calls,
    };
    assert((hi_merged as u64 & 0xFFFF_FFFF) as u32 == hi_merged) by (bit_vector);
    assert(loc32(m1, x) == hi_merged);
    assert(m1.stack.last() == Val::I32(l));
    lemma_exec_set_reg8_low(x, l, m1, oracle);
    let lo_merged: u32 = ((l & 0xFF) | (hi_merged & 0xFFFF_FF00)) as u32;
    let m2 = MachineV {
        mem: m.mem,
        locals: m1.locals.update(x as int, lo_merged as u64),
        stack: m1.stack.drop_last(),
        calls: m.calls,
    };
    assert(((((h << 8) & 0xFF00) | (lv & 0xFFFF_00FF)) as u64 & 0xFFFF_FFFF) as u32
        == (((h << 8) & 0xFF00) | (lv & 0xFFFF_00FF))) by (bit_vector);
    assert((l & 0xFF) | ((((h << 8) & 0xFF00) | (lv & 0xFFFF_00FF)) & 0xFFFF_FF00) == ((lv
        & 0xFFFF_0000) | (((h & 0xFF) << 8) | (l & 0xFF)))) by (bit_vector);
    assert(lo_merged == target);
    // read the full register back
    assert((lo_merged as u64 & 0xFFFF_FFFF) as u32 == lo_merged) by (bit_vector);
    let c3 = code_get_reg32(x);
    let m3 = MachineV { mem: m.mem, locals: m2.locals, stack: m2.stack.push(Val::I32(lo_merged)), calls: m.calls };
    assert(c3.len() == 1);
    assert(c3[0] == InstrV::GetLocal(x));
    let c4 = c3.subrange(1, 1);
    assert(c3.drop_first() =~= c4);
    assert(step_op(c3[0], m2, oracle) == Some(m3));
    assert(exec_ops(c3, m2, oracle) == exec_ops(c4, m3, oracle));
    assert(c4 =~= Seq::<InstrV>::empty());
    assert(exec_ops(c3, m2, oracle) == Outcome::Done(m3, Flow::Next));
    lemma_exec_ops_app(code_set_reg8((x + 4) as u32), code_set_reg8(x) + code_get_reg32(x), m, oracle);
    lemma_exec_ops_app(code_set_reg8(x), code_get_reg32(x), m1, oracle);
    assert(code_set_reg8((x + 4) as u32) + code_set_reg8(x) + code_get_reg32(x)
        =~= code_set_reg8((x + 4) as u32) + (code_set_reg8(x) + code_get_reg32(x)));
    assert(m1.locals.update(x as int, lo_merged as u64) =~= m.locals.update(x as int, target as u64));
    assert(m1.stack.drop_last() =~= m.stack.subrange(0, m.stack.len() - 2));
    assert(m3 == MachineV {
        mem: m.mem,
        locals: m.locals.update(x as int, target as u64),
        stack: m.stack.subrange(0, m.stack.len() - 2).push(Val::I32(target)),
        calls: m.calls,
    });
    assert(exec_ops(code_set_reg8((x + 4) as u32) + code_set_reg8(x) + code_get_reg32(x), m, oracle)
        == Outcome::Done(m3, Flow::Next));
}


/// The width mask of an operation whose sign bit is bit `w`: the low
/// `w + 1` bits.
pub open spec fn width_mask(w: u32) -> u32 {
    if w == 7 {
        0xFF
    } else if w == 15 {
        0xFFFF
    } else {
        0xFFFF_FFFF
    }
}

/// The branchless lazy-ZF formula is the architectural zero flag.
///
/// For an operation whose sign bit is bit `w` (7, 15 or 31), the
/// recomputation `((~r) & (r - 1)) >> w & 1` emitted by the zero-flag
/// reader equals 1 exactly when the recorded result `r` is zero in the
/// operation's width -- for every recorded result, including results
/// carrying stale high bits.
pub proof fn lemma_lazy_zf_architectural(r: u32, w: u32)
    requires
        w == 7 || w == 15 || w == 31,
    ensures
        ((((r ^ 0xFFFF_FFFF) & sub_u32(r, 1)) >> (w & 31)) & 1) == (
        if (r & width_mask(w)) == 0 {
            1u32
        } else {
            0u32
        }),
{
    assert(sub_u32(r, 1) == ((r + 0x1_0000_0000 - 1) % 0x1_0000_0000) as u32);
    let r1 = ((r + 0x1_0000_0000 - 1) % 0x1_0000_0000) as u32;
    assert((w == 7 || w == 15 || w == 31) ==> ((((r ^ 0xFFFF_FFFF) & r1) >> (w & 31)) & 1) == (
    if (r & (if w == 7 { 0xFFu32 } else if w == 15 { 0xFFFFu32 } else { 0xFFFF_FFFFu32 })) == 0 {
        1u32
    } else {
        0u32
    })) by (bit_vector)
        requires
            r1 == ((r + 0x1_0000_0000 - 1) % 0x1_0000_0000) as u32,
    ;
}

/// The lazy-CF formula is the architectural carry flag of an addition.
///
/// An addition of `x` and `y` at width `w + 1` records
/// `LAST_OP1 = x`, `LAST_OP2 = y` and `LAST_ADD_RESULT = x + y`
/// (truncated).  The recomputation
/// `(((op1 ^ op2) & (op2 ^ add_result)) ^ op1) >> w & 1` emitted by the
/// carry-flag reader then equals the carry out of the operation's width:
/// 1 exactly when `x + y` overflows `w + 1` bits.
pub proof fn lemma_lazy_cf_architectural_add(x: u32, y: u32, w: u32)
    requires
        w == 7 || w == 15 || w == 31,
        x & width_mask(w) == x,
        y & width_mask(w) == y,
    ensures
        (((((x ^ y) & (y ^ add_u32(x, y))) ^ x) >> (w & 31)) & 1) == (
        if x + y > width_mask(w) {
            1u32
        } else {
            0u32
        }),
{
    let s = ((x + y) % 0x1_0000_0000) as u32;
    assert(add_u32(x, y) == s);
    assert((w == 7 || w == 15 || w == 31) ==> ((x & (if w == 7 { 0xFFu32 } else if w == 15 { 0xFFFFu32 } else { 0xFFFF_FFFFu32 })) == x) ==> ((y & (if w == 7 { 0xFFu32 } else if w == 15 { 0xFFFFu32 } else { 0xFFFF_FFFFu32 })) == y) ==> (((((x ^ y) & (y ^ s)) ^ x) >> (w & 31)) & 1) == (
    if x > (if w == 7 { 0xFFu32 } else if w == 15 { 0xFFFFu32 } else { 0xFFFF_FFFFu32 }) - y {
        1u32
    } else {
        0u32
    })) by (bit_vector)
        requires
            s == ((x + y) % 0x1_0000_0000) as u32,
    ;
}

/// The lazy-CF formula is the architectural borrow flag of a
/// subtraction.
///
/// A subtraction of `y` from `x` at width `w + 1` records
/// `LAST_OP1 = x - y` (truncated), `LAST_OP2 = y` and
/// `LAST_ADD_RESULT = x` -- the same identity then recovers the borrow:
/// 1 exactly when `x < y`.
pub proof fn lemma_lazy_cf_architectural_sub(x: u32, y: u32, w: u32)
    requires
        w == 7 || w == 15 || w == 31,
        x & width_mask(w) == x,
        y & width_mask(w) == y,
    ensures
        ({
            let d = sub_u32(x, y);
            ((((d ^ y) & (y ^ x)) ^ d) >> (w & 31)) & 1 == (
            if x < y {
                1u32
            } else {
                0u32
            })
        }),
{
    let d = ((x + 0x1_0000_0000 - y) % 0x1_0000_0000) as u32;
    assert(sub_u32(x, y) == d);
    assert((w == 7 || w == 15 || w == 31) ==> ((x & (if w == 7 { 0xFFu32 } else if w == 15 { 0xFFFFu32 } else { 0xFFFF_FFFFu32 })) == x) ==> ((y & (if w == 7 { 0xFFu32 } else if w == 15 { 0xFFFFu32 } else { 0xFFFF_FFFFu32 })) == y) ==> ((((d ^ y) & (y ^ x)) ^ d) >> (w & 31)) & 1 == (
    if x < y {
        1u32
    } else {
        0u32
    })) by (bit_vector)
        requires
            d == ((x + 0x1_0000_0000 - y) % 0x1_0000_0000) as u32,
    ;
}


/// The value a fast-path read of width `bits` leaves on the stack: a
/// bit-exact copy of guest physical memory at the physical offset.
pub open spec fn fast_read_val(bits: BitSize, m: MachineV, phys: u32) -> Val {
    match bits {
        BitSize::Byte => Val::I32(m.mem[layout::MEM8 + phys] as u32),
        BitSize::Word => Val::I32(rd16(m.mem, layout::MEM8 + phys)),
        BitSize::Dword => Val::I32(rd32(m.mem, layout::MEM8 + phys)),
        _ => Val::I64(rd64(m.mem, layout::MEM8 + phys)),
    }
}

/// Running the page-boundary check: the probe result `p` on the stack is
/// conjoined with "the access fits its page".
proof fn lemma_exec_page_fit(a_l: u32, w: u32, p: u32, m: MachineV, oracle: Seq<EffectV>)
    requires
        a_l < m.locals.len(),
        m.stack.len() >= 1,
        m.stack.last() == Val::I32(p),
        p == 0 || p == 1,
        1 <= w <= 16,
    ensures
        ({
            let addr = loc32(m, a_l);
            exec_ops(code_page_fit(a_l, w), m, oracle) == Outcome::Done(
                MachineV {
                    mem: m.mem,
                    locals: m.locals,
                    stack: m.stack.drop_last().push(
                        Val::I32(
                            if p == 1 && (addr & 0xFFF) + w <= 0x1000 {
                                1u32
                            } else {
                                0u32
                            },
                        ),
                    ),
                    calls: m.calls,
                },
                Flow::Next,
            )
        }),
{
    let c = code_page_fit(a_l, w);
    let s0 = m.stack.drop_last();
    let addr = loc32(m, a_l);
    lemma_shift_consts(addr);
    let fit: u32 = if ((addr & 0xFFF) as i32) <= ((0x1000 - w) as i32) {
        1u32
    } else {
        0u32
    };
    assert(((0x1000 - w) as u32) as i32 == 0x1000 - w);
    assert(((addr & 0xFFF) as u32) as i32 == (addr & 0xFFF));
    assert(fit == 1 <==> (addr & 0xFFF) + w <= 0x1000);
    assert(m.stack =~= s0.push(Val::I32(p)));
    assert(m == MachineV { mem: m.mem, locals: m.locals, stack: s0.push(Val::I32(p)), calls: m.calls });
    assert(c.len() == 6);
    assert(c[0] == InstrV::GetLocal(a_l));
    assert(c[1] == InstrV::ConstI32(0xFFF));
    assert(c[2] == InstrV::AndI32);
    assert(c[3] == InstrV::ConstI32((0x1000 - w) as u32));
    assert(c[4] == InstrV::LeSI32);
    assert(c[5] == InstrV::AndI32);
    // InstrV::GetLocal(a_l)
    let c1 = c.subrange(1, 6);
    assert(c.drop_first() =~= c1);
    let m1 = MachineV { mem: m.mem, locals: m.locals, stack: s0.push(Val::I32(p)).push(Val::I32(addr)), calls: m.calls };
    assert(step_op(c[0], MachineV { mem: m.mem, locals: m.locals, stack: s0.push(Val::I32(p)), calls: m.calls }, oracle) == Some(m1));
    assert(exec_ops(c, m, oracle) == exec_ops(c1, m1, oracle));
    // InstrV::ConstI32(0xFFF)
    let c2 = c.subrange(2, 6);
    assert(c1.drop_first() =~= c2);
    let m2 = MachineV { mem: m.mem, locals: m.locals, stack: s0.push(Val::I32(p)).push(Val::I32(addr)).push(Val::I32(0xFFF)), calls: m.calls };
    assert(step_op(c[1], m1, oracle) == Some(m2));
    assert(exec_ops(c1, m1, oracle) == exec_ops(c2, m2, oracle));
    // InstrV::AndI32
    let c3 = c.subrange(3, 6);
    assert(c2.drop_first() =~= c3);
    assert(s0.push(Val::I32(p)).push(Val::I32(addr)).push(Val::I32(0xFFF)).subrange(0, s0.push(Val::I32(p)).push(Val::I32(addr)).push(Val::I32(0xFFF)).len() - 2) =~= s0.push(Val::I32(p)));
    let m3 = MachineV { mem: m.mem, locals: m.locals, stack: s0.push(Val::I32(p)).push(Val::I32(addr & 0xFFF)), calls: m.calls };
    assert(step_op(c[2], m2, oracle) == Some(m3));
    assert(exec_ops(c2, m2, oracle) == exec_ops(c3, m3, oracle));
    // InstrV::ConstI32((0x1000 - w) as u32)
    let c4 = c.subrange(4, 6);
    assert(c3.drop_first() =~= c4);
    let m4 = MachineV { mem: m.mem, locals: m.locals, stack: s0.push(Val::I32(p)).push(Val::I32(addr & 0xFFF)).push(Val::I32((0x1000 - w) as u32)), calls: m.calls };
    assert(step_op(c[3], m3, oracle) == Some(m4));
    assert(exec_ops(c3, m3, oracle) == exec_ops(c4, m4, oracle));
    // InstrV::LeSI32
    let c5 = c.subrange(5, 6);
    assert(c4.drop_first() =~= c5);
    assert(s0.push(Val::I32(p)).push(Val::I32(addr & 0xFFF)).push(Val::I32((0x1000 - w) as u32)).subrange(0, s0.push(Val::I32(p)).push(Val::I32(addr & 0xFFF)).push(Val::I32((0x1000 - w) as u32)).len() - 2) =~= s0.push(Val::I32(p)));
    assert(bin_i32_val(InstrV::LeSI32, (addr & 0xFFF) as u32, (0x1000 - w) as u32) == fit);
    let m5 = MachineV { mem: m.mem, locals: m.locals, stack: s0.push(Val::I32(p)).push(Val::I32(fit)), calls: m.calls };
    assert(step_op(c[4], m4, oracle) == Some(m5));
    assert(exec_ops(c4, m4, oracle) == exec_ops(c5, m5, oracle));
    // InstrV::AndI32
    let c6 = c.subrange(6, 6);
    assert(c5.drop_first() =~= c6);
    assert(s0.push(Val::I32(p)).push(Val::I32(fit)).subrange(0, s0.push(Val::I32(p)).push(Val::I32(fit)).len() - 2) =~= s0);
    let m6 = MachineV { mem: m.mem, locals: m.locals, stack: s0.push(Val::I32(p & fit)), calls: m.calls };
    assert(step_op(c[5], m5, oracle) == Some(m6));
    assert(exec_ops(c5, m5, oracle) == exec_ops(c6, m6, oracle));
    assert(c6 =~= Seq::<InstrV>::empty());
    assert(exec_ops(c6, m6, oracle) == Outcome::Done(m6, Flow::Next));
    lemma_and01(p, fit);
    assert(m6.stack =~= m.stack.drop_last().push(
        Val::I32(
            if p == 1 && (addr & 0xFFF) + w <= 0x1000 {
                1u32
            } else {
                0u32
            },
        ),
    ));
}

/// Running the whole fast-path predicate of a read or write probe.
proof fn lemma_exec_probe(bits: BitSize, mask: u32, a_l: u32, e: u32, m: MachineV, oracle: Seq<EffectV>)
    requires
        a_l < m.locals.len(),
        e < m.locals.len(),
        e != a_l,
        probe_bounds(m, loc32(m, a_l)),
    ensures
        ({
            let addr = loc32(m, a_l);
            let entry = tlb_entry_of(m, addr);
            exec_ops(code_probe(mask, a_l, e, bits), m, oracle) == Outcome::Done(
                MachineV {
                    mem: m.mem,
                    locals: m.locals.update(e as int, entry as u64),
                    stack: m.stack.push(Val::I32(probe_pred(bits, mask, entry, addr))),
                    calls: m.calls,
                },
                Flow::Next,
            )
        }),
{
    let addr = loc32(m, a_l);
    let entry = tlb_entry_of(m, addr);
    lemma_exec_tlb_probe(mask, a_l, e, m, oracle);
    let p0: u32 = if (entry & mask) == arch::TLB_VALID {
        1u32
    } else {
        0u32
    };
    let mp = MachineV {
        mem: m.mem,
        locals: m.locals.update(e as int, entry as u64),
        stack: m.stack.push(Val::I32(p0)),
        calls: m.calls,
    };
    if bits is Byte {
        assert(code_probe(mask, a_l, e, bits) =~= code_tlb_probe(mask, a_l, e) + Seq::<InstrV>::empty());
        lemma_exec_ops_app(code_tlb_probe(mask, a_l, e), Seq::<InstrV>::empty(), m, oracle);
        assert(probe_pred(bits, mask, entry, addr) == p0);
        assert(mp.stack =~= m.stack.push(Val::I32(probe_pred(bits, mask, entry, addr))));
    } else {
        lemma_exec_ops_app(code_tlb_probe(mask, a_l, e), code_page_fit(a_l, width_bytes(bits)), m, oracle);
        assert(loc32(mp, a_l) == addr);
        lemma_exec_page_fit(a_l, width_bytes(bits), p0, mp, oracle);
        assert(mp.stack.drop_last() =~= m.stack);
        assert(probe_pred(bits, mask, entry, addr) == (
        if p0 == 1 && (addr & 0xFFF) + width_bytes(bits) <= 0x1000 {
            1u32
        } else {
            0u32
        }));
    }
}

/// Bounds under which a fast-path access of width `bits` at physical
/// offset `phys` stays inside host memory.
pub open spec fn fast_bounds(m: MachineV, phys: u32, bits: BitSize) -> bool {
    layout::MEM8 + phys + width_bytes(bits) <= m.mem.len()
}

/// Running the fast-path body of a read: the physical offset is computed
/// and guest physical memory is read inline, bit-exactly.
#[verifier::rlimit(60)]
proof fn lemma_exec_fast_read(bits: BitSize, a_l: u32, e: u32, m: MachineV, oracle: Seq<EffectV>)
    requires
        !(bits is Dqword),
        a_l < m.locals.len(),
        e < m.locals.len(),
        fast_bounds(m, phys_of(loc32(m, e), loc32(m, a_l)), bits),
    ensures
        ({
            let addr = loc32(m, a_l);
            let entry = loc32(m, e);
            let phys = phys_of(entry, addr);
            exec_ops(code_fast_read(bits, a_l, e, e, 0), m, oracle) == Outcome::Done(
                MachineV {
                    mem: m.mem,
                    locals: m.locals,
                    stack: m.stack.push(fast_read_val(bits, m, phys)),
                    calls: m.calls,
                },
                Flow::Next,
            )
        }),
{
    let addr = loc32(m, a_l);
    let entry = loc32(m, e);
    let phys = phys_of(entry, addr);
    let cp = code_phys(e, a_l);
    let mphys = MachineV {
        mem: m.mem,
        locals: m.locals,
        stack: m.stack.push(Val::I32(phys)),
        calls: m.calls,
    };
    assert(exec_ops(cp, m, oracle) == Outcome::Done(mphys, Flow::Next)) by {
        let c = cp;
        assert(c.len() == 5);
        assert(c[0] == InstrV::GetLocal(e));
        assert(c[1] == InstrV::ConstI32(0xFFFF_F000));
        assert(c[2] == InstrV::AndI32);
        assert(c[3] == InstrV::GetLocal(a_l));
        assert(c[4] == InstrV::XorI32);
        // InstrV::GetLocal(e)
        let c1 = c.subrange(1, 5);
        assert(c.drop_first() =~= c1);
        let m1 = MachineV { mem: m.mem, locals: m.locals, stack: m.stack.push(Val::I32(entry)), calls: m.calls };
        assert(step_op(c[0], m, oracle) == Some(m1));
        assert(exec_ops(c, m, oracle) == exec_ops(c1, m1, oracle));
        // InstrV::ConstI32(0xFFFF_F000)
        let c2 = c.subrange(2, 5);
        assert(c1.drop_first() =~= c2);
        let m2 = MachineV { mem: m.mem, locals: m.locals, stack: m.stack.push(Val::I32(entry)).push(Val::I32(0xFFFF_F000)), calls: m.calls };
        assert(step_op(c[1], m1, oracle) == Some(m2));
        assert(exec_ops(c1, m1, oracle) == exec_ops(c2, m2, oracle));
        // InstrV::AndI32
        let c3 = c.subrange(3, 5);
        assert(c2.drop_first() =~= c3);
        assert(m.stack.push(Val::I32(entry)).push(Val::I32(0xFFFF_F000)).subrange(0, m.stack.push(Val::I32(entry)).push(Val::I32(0xFFFF_F000)).len() - 2) =~= m.stack);
        let m3 = MachineV { mem: m.mem, locals: m.locals, stack: m.stack.push(Val::I32(entry & 0xFFFF_F000)), calls: m.calls };
        assert(step_op(c[2], m2, oracle) == Some(m3));
        assert(exec_ops(c2, m2, oracle) == exec_ops(c3, m3, oracle));
        // InstrV::GetLocal(a_l)
        let c4 = c.subrange(4, 5);
        assert(c3.drop_first() =~= c4);
        let m4 = MachineV { mem: m.mem, locals: m.locals, stack: m.stack.push(Val::I32(entry & 0xFFFF_F000)).push(Val::I32(addr)), calls: m.calls };
        assert(step_op(c[3], m3, oracle) == Some(m4));
        assert(exec_ops(c3, m3, oracle) == exec_ops(c4, m4, oracle));
        // InstrV::XorI32
        let c5 = c.subrange(5, 5);
        assert(c4.drop_first() =~= c5);
        assert(m.stack.push(Val::I32(entry & 0xFFFF_F000)).push(Val::I32(addr)).subrange(0, m.stack.push(Val::I32(entry & 0xFFFF_F000)).push(Val::I32(addr)).len() - 2) =~= m.stack);
        let m5 = MachineV { mem: m.mem, locals: m.locals, stack: m.stack.push(Val::I32((entry & 0xFFFF_F000) ^ addr)), calls: m.calls };
        assert(step_op(c[4], m4, oracle) == Some(m5));
        assert(exec_ops(c4, m4, oracle) == exec_ops(c5, m5, oracle));
        assert(c5 =~= Seq::<InstrV>::empty());
        assert(exec_ops(c5, m5, oracle) == Outcome::Done(m5, Flow::Next));
        assert(m5.stack =~= m.stack.push(Val::I32(phys)));
    }
    let tail: Seq<InstrV> = match bits {
        BitSize::Byte => seq![InstrV::LoadU8(layout::MEM8)],
        BitSize::Word => seq![InstrV::LoadU16(layout::MEM8)],
        BitSize::Dword => seq![InstrV::LoadI32(layout::MEM8)],
        _ => seq![InstrV::LoadI64(layout::MEM8)],
    };
    assert(code_fast_read(bits, a_l, e, e, 0) == cp + tail);
    lemma_exec_ops_app(cp, tail, m, oracle);
    let mload = MachineV {
        mem: m.mem,
        locals: m.locals,
        stack: m.stack.push(fast_read_val(bits, m, phys)),
        calls: m.calls,
    };
    assert(exec_ops(tail, mphys, oracle) == Outcome::Done(mload, Flow::Next)) by {
        assert(tail.len() == 1);
        let c1t = tail.subrange(1, 1);
        assert(tail.drop_first() =~= c1t);
        assert(mphys.stack.drop_last() =~= m.stack);
        assert(step_op(tail[0], mphys, oracle) == Some(mload));
        assert(exec_ops(tail, mphys, oracle) == exec_ops(c1t, mload, oracle));
        assert(c1t =~= Seq::<InstrV>::empty());
    }
}

/// The TLB fast-path read law: when the TLB entry for the page of the
/// virtual address is valid under the read mask and the access does not
/// cross the page boundary, the emitted guarded read performs no helper
/// call and yields exactly the value of guest physical memory at
/// `(entry & ~0xFFF) ^ address`.
pub proof fn lemma_safe_read_fast_path(
    bits: BitSize,
    cpl3: bool,
    a_l: u32,
    e: u32,
    start_low: u32,
    depth: u32,
    m: MachineV,
    oracle: Seq<EffectV>,
)
    requires
        !(bits is Dqword),
        a_l < m.locals.len(),
        e < m.locals.len(),
        e != a_l,
        probe_bounds(m, loc32(m, a_l)),
        probe_pred(bits, read_status_mask(cpl3), tlb_entry_of(m, loc32(m, a_l)), loc32(m, a_l))
            == 1,
        fast_bounds(
            m,
            phys_of(tlb_entry_of(m, loc32(m, a_l)), loc32(m, a_l)),
            bits,
        ),
    ensures
        ({
            let addr = loc32(m, a_l);
            let entry = tlb_entry_of(m, addr);
            let phys = phys_of(entry, addr);
            exec_ops(code_safe_read(bits, cpl3, a_l, e, e, 0, start_low, depth), m, oracle)
                == Outcome::Done(
                MachineV {
                    mem: m.mem,
                    locals: m.locals.update(e as int, entry as u64),
                    stack: m.stack.push(fast_read_val(bits, m, phys)),
                    calls: m.calls,
                },
                Flow::Next,
            )
        }),
{
    let addr = loc32(m, a_l);
    let entry = tlb_entry_of(m, addr);
    let phys = phys_of(entry, addr);
    let mask = read_status_mask(cpl3);
    lemma_exec_probe(bits, mask, a_l, e, m, oracle);
    let mp = MachineV {
        mem: m.mem,
        locals: m.locals.update(e as int, entry as u64),
        stack: m.stack.push(Val::I32(1)),
        calls: m.calls,
    };
    let node = InstrV::IfBlock {
        kind: read_block_kind(bits),
        then_code: code_fast_read(bits, a_l, e, e, 0),
        else_code: code_slow_read(bits, a_l, 0, start_low, depth),
    };
    assert(code_safe_read(bits, cpl3, a_l, e, e, 0, start_low, depth) == code_probe(
        mask,
        a_l,
        e,
        bits,
    ) + seq![node]);
    lemma_exec_ops_app(code_probe(mask, a_l, e, bits), seq![node], m, oracle);
    // the structured if pops the predicate and takes the fast path
    let m1 = MachineV { mem: mp.mem, locals: mp.locals, stack: mp.stack.drop_last(), calls: mp.calls };
    assert(mp.stack.drop_last() =~= m.stack);
    assert((entry as u64 & 0xFFFF_FFFF) as u32 == entry) by (bit_vector);
    assert(loc32(m1, a_l) == addr);
    assert(loc32(m1, e) == entry);
    assert(m1.mem == m.mem);
    lemma_exec_fast_read(bits, a_l, e, m1, oracle);
    assert(seq![node].drop_first() =~= Seq::<InstrV>::empty());
    assert(seq![node].len() == 1);
    assert(seq![node][0] == node);
    assert(fast_read_val(bits, m1, phys) == fast_read_val(bits, m, phys));
    assert(exec_ops(code_fast_read(bits, a_l, e, e, 0), m1, oracle) == Outcome::Done(
        MachineV {
            mem: m.mem,
            locals: m.locals.update(e as int, entry as u64),
            stack: m.stack.push(fast_read_val(bits, m, phys)),
            calls: m.calls,
        },
        Flow::Next,
    ));
    let mfast = MachineV {
        mem: m.mem,
        locals: m.locals.update(e as int, entry as u64),
        stack: m.stack.push(fast_read_val(bits, m, phys)),
        calls: m.calls,
    };
    assert(exec_ops(seq![node], mp, oracle) == exec_ops(seq![node].drop_first(), mfast, oracle));
    assert(exec_ops(seq![node].drop_first(), mfast, oracle) == Outcome::Done(mfast, Flow::Next));
    assert(exec_ops(seq![node], mp, oracle) == Outcome::Done(mfast, Flow::Next));
}

} // verus!
