//! The machine model of the host VM, and the specification-level
//! interpreter that gives emitted bytecode its meaning.
//!
//! A [`MachineV`] holds the host linear memory (which contains the
//! emulator-state block, the TLB array and guest physical memory, at the
//! offsets of [`crate::layout`]), the host locals, the operand stack, and
//! the trace of helper calls made so far.
//!
//! Helper functions are outside collaborators: the interpreter consumes
//! one [`EffectV`] from an oracle sequence per call, letting the helper
//! replace memory arbitrarily and return any value of its declared result
//! type.  Whatever is proved about emitted code therefore holds for every
//! helper behaviour; the call trace records which helpers were invoked
//! and with which arguments.
//!
//! The float-promotion instruction is left outside the modeled fragment
//! (denormal policy is delegated to the host VM): the interpreter treats
//! it as a stuck state, and no contract of this crate depends on it.

use vstd::prelude::*;
use crate::isa::{HostFn, InstrV, Val, ValKind, kind_of, arg_kinds, ret_kind};

verus! {

/// A helper-call event: which helper ran, with which argument values.
pub struct CallEv {
    pub target: HostFn,
    pub args: Seq<Val>,
}

/// One scripted helper behaviour: the memory it leaves behind and the
/// value it returns.
pub struct EffectV {
    pub mem_after: Seq<u8>,
    pub ret: Option<Val>,
}

/// The host machine state seen by emitted code.
pub struct MachineV {
    pub mem: Seq<u8>,
    pub locals: Seq<u64>,
    pub stack: Seq<Val>,
    pub calls: Seq<CallEv>,
}

/// How a code sequence finished: fell through, broke out of `n + 1`
/// enclosing blocks, or returned from the translation unit.
pub enum Flow {
    Next,
    Branch(nat),
    Ret,
}

/// Outcome of running a code sequence.
pub enum Outcome {
    Stuck,
    Done(MachineV, Flow),
}

/// Little-endian 16-bit read.
pub open spec fn rd16(m: Seq<u8>, a: int) -> u32 {
    (m[a] + 0x100 * m[a + 1]) as u32
}

/// Little-endian 32-bit read.
pub open spec fn rd32(m: Seq<u8>, a: int) -> u32 {
    (m[a] + 0x100 * m[a + 1] + 0x10000 * m[a + 2] + 0x1000000 * m[a + 3]) as u32
}

/// Little-endian 64-bit read.
pub open spec fn rd64(m: Seq<u8>, a: int) -> u64 {
    (rd32(m, a) + 0x1_0000_0000 * rd32(m, a + 4)) as u64
}

/// Little-endian 8-bit write of the low byte of `v`.
pub open spec fn wr8(m: Seq<u8>, a: int, v: u32) -> Seq<u8> {
    m.update(a, (v & 0xFF) as u8)
}

/// Little-endian 16-bit write.
pub open spec fn wr16(m: Seq<u8>, a: int, v: u32) -> Seq<u8> {
    m.update(a, (v & 0xFF) as u8).update(a + 1, ((v >> 8) & 0xFF) as u8)
}

/// Little-endian 32-bit write.
pub open spec fn wr32(m: Seq<u8>, a: int, v: u32) -> Seq<u8> {
    m.update(a, (v & 0xFF) as u8).update(a + 1, ((v >> 8) & 0xFF) as u8).update(
        a + 2,
        ((v >> 16) & 0xFF) as u8,
    ).update(a + 3, ((v >> 24) & 0xFF) as u8)
}

/// Little-endian 64-bit write.
pub open spec fn wr64(m: Seq<u8>, a: int, v: u64) -> Seq<u8> {
    wr32(wr32(m, a, (v & 0xFFFF_FFFF) as u32), a + 4, ((v >> 32) & 0xFFFF_FFFF) as u32)
}

/// Wrapping 32-bit addition.
pub open spec fn add_u32(a: u32, b: u32) -> u32 {
    ((a + b) % 0x1_0000_0000) as u32
}

/// Wrapping 32-bit subtraction.
pub open spec fn sub_u32(a: u32, b: u32) -> u32 {
    ((a + 0x1_0000_0000 - b) % 0x1_0000_0000) as u32
}

/// Whether `op` is a two-operand i32 arithmetic or comparison
/// instruction.
pub open spec fn is_bin_i32(op: InstrV) -> bool {
    ||| op is AddI32
    ||| op is SubI32
    ||| op is AndI32
    ||| op is OrI32
    ||| op is XorI32
    ||| op is ShlI32
    ||| op is ShrUI32
    ||| op is ShrSI32
    ||| op is EqI32
    ||| op is LeSI32
}

/// The value computed by a two-operand i32 instruction.  Shift counts are
/// taken modulo 32; comparisons yield 0 or 1.
pub open spec fn bin_i32_val(op: InstrV, a: u32, b: u32) -> u32 {
    match op {
        InstrV::AddI32 => add_u32(a, b),
        InstrV::SubI32 => sub_u32(a, b),
        InstrV::AndI32 => a & b,
        InstrV::OrI32 => a | b,
        InstrV::XorI32 => a ^ b,
        InstrV::ShlI32 => a << (b & 31),
        InstrV::ShrUI32 => a >> (b & 31),
        InstrV::ShrSI32 => (((a as i32) >> ((b & 31) as i32)) as u32),
        InstrV::EqI32 => if a == b {
            1
        } else {
            0
        },
        InstrV::LeSI32 => if (a as i32) <= (b as i32) {
            1
        } else {
            0
        },
        _ => 0,
    }
}

/// One linear (non-control) instruction step.  `None` is a stuck state:
/// an operand-stack or type mismatch, an out-of-bounds memory access, an
/// unallocated local, or an exhausted helper oracle.
pub open spec fn step_op(op: InstrV, m: MachineV, oracle: Seq<EffectV>) -> Option<MachineV> {
    let sl = m.stack.len() as int;
    if is_bin_i32(op) {
        if sl >= 2 {
            match (m.stack[sl - 2], m.stack[sl - 1]) {
                (Val::I32(a), Val::I32(b)) => Some(
                    MachineV {
                        stack: m.stack.subrange(0, sl - 2).push(Val::I32(bin_i32_val(op, a, b))),
                        ..m
                    },
                ),
                _ => None,
            }
        } else {
            None
        }
    } else {
        match op {
            InstrV::ConstI32(c) => Some(MachineV { stack: m.stack.push(Val::I32(c)), ..m }),
            InstrV::ConstI64(c) => Some(MachineV { stack: m.stack.push(Val::I64(c)), ..m }),
            InstrV::EqzI32 => if sl >= 1 {
                match m.stack.last() {
                    Val::I32(a) => Some(
                        MachineV {
                            stack: m.stack.drop_last().push(
                                Val::I32(
                                    if a == 0 {
                                        1
                                    } else {
                                        0
                                    },
                                ),
                            ),
                            ..m
                        },
                    ),
                    _ => None,
                }
            } else {
                None
            },
            InstrV::LoadU8At(a) => if a + 1 <= m.mem.len() {
                Some(MachineV { stack: m.stack.push(Val::I32(m.mem[a as int] as u32)), ..m })
            } else {
                None
            },
            InstrV::LoadU16At(a) => if a + 2 <= m.mem.len() {
                Some(MachineV { stack: m.stack.push(Val::I32(rd16(m.mem, a as int))), ..m })
            } else {
                None
            },
            InstrV::LoadI32At(a) => if a + 4 <= m.mem.len() {
                Some(MachineV { stack: m.stack.push(Val::I32(rd32(m.mem, a as int))), ..m })
            } else {
                None
            },
            InstrV::LoadU8(off) => if sl >= 1 {
                match m.stack.last() {
                    Val::I32(base) => if base + off + 1 <= m.mem.len() {
                        Some(
                            MachineV {
                                stack: m.stack.drop_last().push(
                                    Val::I32(m.mem[base + off] as u32),
                                ),
                                ..m
                            },
                        )
                    } else {
                        None
                    },
                    _ => None,
                }
            } else {
                None
            },
            InstrV::LoadU16(off) => if sl >= 1 {
                match m.stack.last() {
                    Val::I32(base) => if base + off + 2 <= m.mem.len() {
                        Some(
                            MachineV {
                                stack: m.stack.drop_last().push(
                                    Val::I32(rd16(m.mem, base + off)),
                                ),
                                ..m
                            },
                        )
                    } else {
                        None
                    },
                    _ => None,
                }
            } else {
                None
            },
            InstrV::LoadI32(off) => if sl >= 1 {
                match m.stack.last() {
                    Val::I32(base) => if base + off + 4 <= m.mem.len() {
                        Some(
                            MachineV {
                                stack: m.stack.drop_last().push(
                                    Val::I32(rd32(m.mem, base + off)),
                                ),
                                ..m
                            },
                        )
                    } else {
                        None
                    },
                    _ => None,
                }
            } else {
                None
            },
            InstrV::LoadI64(off) => if sl >= 1 {
                match m.stack.last() {
                    Val::I32(base) => if base + off + 8 <= m.mem.len() {
                        Some(
                            MachineV {
                                stack: m.stack.drop_last().push(
                                    Val::I64(rd64(m.mem, base + off)),
                                ),
                                ..m
                            },
                        )
                    } else {
                        None
                    },
                    _ => None,
                }
            } else {
                None
            },
            InstrV::StoreU8(off) => if sl >= 2 {
                match (m.stack[sl - 2], m.stack[sl - 1]) {
                    (Val::I32(base), Val::I32(v)) => if base + off + 1 <= m.mem.len() {
                        Some(
                            MachineV {
                                mem: wr8(m.mem, base + off, v),
                                stack: m.stack.subrange(0, sl - 2),
                                ..m
                            },
                        )
                    } else {
                        None
                    },
                    _ => None,
                }
            } else {
                None
            },
            InstrV::StoreU16(off) => if sl >= 2 {
                match (m.stack[sl - 2], m.stack[sl - 1]) {
                    (Val::I32(base), Val::I32(v)) => if base + off + 2 <= m.mem.len() {
                        Some(
                            MachineV {
                                mem: wr16(m.mem, base + off, v),
                                stack: m.stack.subrange(0, sl - 2),
                                ..m
                            },
                        )
                    } else {
                        None
                    },
                    _ => None,
                }
            } else {
                None
            },
            InstrV::StoreI32(off) => if sl >= 2 {
                match (m.stack[sl - 2], m.stack[sl - 1]) {
                    (Val::I32(base), Val::I32(v)) => if base + off + 4 <= m.mem.len() {
                        Some(
                            MachineV {
                                mem: wr32(m.mem, base + off, v),
                                stack: m.stack.subrange(0, sl - 2),
                                ..m
                            },
                        )
                    } else {
                        None
                    },
                    _ => None,
                }
            } else {
                None
            },
            InstrV::StoreI64(off) => if sl >= 2 {
                match (m.stack[sl - 2], m.stack[sl - 1]) {
                    (Val::I32(base), Val::I64(v)) => if base + off + 8 <= m.mem.len() {
                        Some(
                            MachineV {
                                mem: wr64(m.mem, base + off, v),
                                stack: m.stack.subrange(0, sl - 2),
                                ..m
                            },
                        )
                    } else {
                        None
                    },
                    _ => None,
                }
            } else {
                None
            },
            InstrV::GetLocal(x) => if x < m.locals.len() {
                Some(
                    MachineV {
                        stack: m.stack.push(Val::I32((m.locals[x as int] & 0xFFFF_FFFF) as u32)),
                        ..m
                    },
                )
            } else {
                None
            },
            InstrV::SetLocal(x) => if sl >= 1 && x < m.locals.len() {
                match m.stack.last() {
                    Val::I32(v) => Some(
                        MachineV {
                            locals: m.locals.update(x as int, v as u64),
                            stack: m.stack.drop_last(),
                            ..m
                        },
                    ),
                    _ => None,
                }
            } else {
                None
            },
            InstrV::TeeLocal(x) => if sl >= 1 && x < m.locals.len() {
                match m.stack.last() {
                    Val::I32(v) => Some(
                        MachineV { locals: m.locals.update(x as int, v as u64), ..m },
                    ),
                    _ => None,
                }
            } else {
                None
            },
            InstrV::GetLocalI64(x) => if x < m.locals.len() {
                Some(MachineV { stack: m.stack.push(Val::I64(m.locals[x as int])), ..m })
            } else {
                None
            },
            InstrV::SetLocalI64(x) => if sl >= 1 && x < m.locals.len() {
                match m.stack.last() {
                    Val::I64(v) => Some(
                        MachineV {
                            locals: m.locals.update(x as int, v),
                            stack: m.stack.drop_last(),
                            ..m
                        },
                    ),
                    _ => None,
                }
            } else {
                None
            },
            InstrV::I32AsF32 => if sl >= 1 {
                match m.stack.last() {
                    Val::I32(v) => Some(
                        MachineV { stack: m.stack.drop_last().push(Val::F32Bits(v)), ..m },
                    ),
                    _ => None,
                }
            } else {
                None
            },
            InstrV::I64AsF64 => if sl >= 1 {
                match m.stack.last() {
                    Val::I64(v) => Some(
                        MachineV { stack: m.stack.drop_last().push(Val::F64Bits(v)), ..m },
                    ),
                    _ => None,
                }
            } else {
                None
            },
            InstrV::Call(f) => step_call(f, m, oracle),
            _ => None,
        }
    }
}

/// A helper call: pop the declared arguments, record the call event,
/// adopt the oracle's memory, and push the oracle's result.
pub open spec fn step_call(f: HostFn, m: MachineV, oracle: Seq<EffectV>) -> Option<MachineV> {
    let n = arg_kinds(f).len() as int;
    let sl = m.stack.len() as int;
    if sl >= n && (forall|i: int|
        0 <= i < n ==> kind_of(#[trigger] m.stack[sl - n + i]) == arg_kinds(f)[i]) && m.calls.len()
        < oracle.len() {
        let eff = oracle[m.calls.len() as int];
        if eff.mem_after.len() == m.mem.len() {
            let popped = MachineV {
                mem: eff.mem_after,
                locals: m.locals,
                stack: m.stack.subrange(0, sl - n),
                calls: m.calls.push(CallEv { target: f, args: m.stack.subrange(sl - n, sl) }),
            };
            match (ret_kind(f), eff.ret) {
                (None, None) => Some(popped),
                (Some(k), Some(v)) => if kind_of(v) == k {
                    Some(MachineV { stack: popped.stack.push(v), ..popped })
                } else {
                    None
                },
                _ => None,
            }
        } else {
            None
        }
    } else {
        None
    }
}

/// Run a code sequence to completion.
///
/// A structured if pops its i32 condition and runs the corresponding
/// branch; a branch flow of depth 0 coming out of it lands at its end
/// (falling through to the rest), deeper branches propagate outward with
/// the depth reduced by one, and a return propagates all the way out.
pub open spec fn exec_ops(code: Seq<InstrV>, m: MachineV, oracle: Seq<EffectV>) -> Outcome
    decreases code,
{
    if code.len() == 0 {
        Outcome::Done(m, Flow::Next)
    } else {
        let rest = code.drop_first();
        match code[0] {
            InstrV::IfBlock { kind, then_code, else_code } => {
                if m.stack.len() >= 1 {
                    match m.stack.last() {
                        Val::I32(c) => {
                            let m1 = MachineV { stack: m.stack.drop_last(), ..m };
                            let body = if c != 0 {
                                then_code
                            } else {
                                else_code
                            };
                            match exec_ops(body, m1, oracle) {
                                Outcome::Stuck => Outcome::Stuck,
                                Outcome::Done(m2, Flow::Next) => exec_ops(rest, m2, oracle),
                                Outcome::Done(m2, Flow::Branch(n)) => if n == 0 {
                                    exec_ops(rest, m2, oracle)
                                } else {
                                    Outcome::Done(m2, Flow::Branch((n - 1) as nat))
                                },
                                Outcome::Done(m2, Flow::Ret) => Outcome::Done(m2, Flow::Ret),
                            }
                        },
                        _ => Outcome::Stuck,
                    }
                } else {
                    Outcome::Stuck
                }
            },
            InstrV::Br(n) => Outcome::Done(m, Flow::Branch(n as nat)),
            InstrV::Ret => Outcome::Done(m, Flow::Ret),
            op => match step_op(op, m, oracle) {
                Some(m1) => exec_ops(rest, m1, oracle),
                None => Outcome::Stuck,
            },
        }
    }
}

/// Chain an outcome with a following code sequence: only a fall-through
/// continues into it.
pub open spec fn continue_with(o: Outcome, c2: Seq<InstrV>, oracle: Seq<EffectV>) -> Outcome {
    match o {
        Outcome::Done(m1, Flow::Next) => exec_ops(c2, m1, oracle),
        _ => o,
    }
}

/// Running `c1 + c2` is running `c1`, then (on fall-through) `c2`.
pub proof fn lemma_exec_ops_app(c1: Seq<InstrV>, c2: Seq<InstrV>, m: MachineV, oracle: Seq<EffectV>)
    ensures
        exec_ops(c1 + c2, m, oracle) == continue_with(exec_ops(c1, m, oracle), c2, oracle),
    decreases c1,
{
    if c1.len() == 0 {
        assert(c1 + c2 =~= c2);
    } else {
        let rest = c1.drop_first();
        assert((c1 + c2)[0] == c1[0]);
        assert((c1 + c2).drop_first() =~= rest + c2);
        match c1[0] {
            InstrV::IfBlock { kind, then_code, else_code } => {
                if m.stack.len() >= 1 {
                    match m.stack.last() {
                        Val::I32(c) => {
                            let m1 = MachineV { stack: m.stack.drop_last(), ..m };
                            let body = if c != 0 {
                                then_code
                            } else {
                                else_code
                            };
                            match exec_ops(body, m1, oracle) {
                                Outcome::Stuck => {},
                                Outcome::Done(m2, Flow::Next) => {
                                    lemma_exec_ops_app(rest, c2, m2, oracle);
                                },
                                Outcome::Done(m2, Flow::Branch(n)) => {
                                    if n == 0 {
                                        lemma_exec_ops_app(rest, c2, m2, oracle);
                                    }
                                },
                                Outcome::Done(m2, Flow::Ret) => {},
                            }
                        },
                        _ => {},
                    }
                }
            },
            InstrV::Br(n) => {},
            InstrV::Ret => {},
            op => {
                match step_op(op, m, oracle) {
                    Some(m1) => {
                        lemma_exec_ops_app(rest, c2, m1, oracle);
                    },
                    None => {},
                }
            },
        }
    }
}

} // verus!
