//! An executable interpreter for emitted host bytecode, proved to agree
//! with the specification-level interpreter of [`crate::machine`].
//!
//! It exists so that emitted code can actually be run: against a concrete
//! machine image and a script of helper behaviours, [`run_code`] returns
//! exactly the outcome [`exec_ops`] assigns to the code.

use vstd::prelude::*;
use crate::isa::{
    HostFn, Instr, InstrV, Val, ValKind, kind_of, arg_kinds, ret_kind, helper_arg_kinds,
    helper_ret_kind, iview, seq_iview, lemma_seq_iview_len, lemma_seq_iview_index,
};
use crate::machine::{
    CallEv, EffectV, MachineV, Flow, Outcome, rd16, rd32, rd64, wr8, wr16, wr32, wr64, add_u32,
    sub_u32, is_bin_i32, bin_i32_val, step_op, step_call, exec_ops,
};

verus! {

/// A recorded helper call.
pub struct CallRec {
    pub target: HostFn,
    pub args: Vec<Val>,
}

/// One scripted helper behaviour: the memory image it leaves behind and
/// the value it returns.
pub struct Effect {
    pub mem_after: Vec<u8>,
    pub ret: Option<Val>,
}

/// The concrete machine the runner mutates.
pub struct RunMachine {
    pub mem: Vec<u8>,
    pub locals: Vec<u64>,
    pub stack: Vec<Val>,
    pub calls: Vec<CallRec>,
}

/// How the runner finished.
#[derive(Clone, Copy, PartialEq, Eq, Structural, Debug)]
pub enum RunFlow {
    Next,
    Branch(u32),
    Ret,
    Stuck,
}

pub open spec fn call_view(c: CallRec) -> CallEv {
    CallEv { target: c.target, args: c.args@ }
}

pub open spec fn calls_view(s: Seq<CallRec>) -> Seq<CallEv>
    decreases s,
{
    if s.len() == 0 {
        Seq::empty()
    } else {
        calls_view(s.drop_last()).push(call_view(s.last()))
    }
}

pub proof fn lemma_calls_view_len(s: Seq<CallRec>)
    ensures
        calls_view(s).len() == s.len(),
    decreases s.len(),
{
    if s.len() > 0 {
        lemma_calls_view_len(s.drop_last());
    }
}

pub proof fn lemma_calls_view_push(s: Seq<CallRec>, x: CallRec)
    ensures
        calls_view(s.push(x)) == calls_view(s).push(call_view(x)),
{
    assert(s.push(x).drop_last() =~= s);
    assert(s.push(x).last() == x);
}

pub open spec fn eff_view(e: Effect) -> EffectV {
    EffectV { mem_after: e.mem_after@, ret: e.ret }
}

pub open spec fn effs_view(s: Seq<Effect>) -> Seq<EffectV>
    decreases s,
{
    if s.len() == 0 {
        Seq::empty()
    } else {
        effs_view(s.drop_last()).push(eff_view(s.last()))
    }
}

pub proof fn lemma_effs_view_index(s: Seq<Effect>, i: int)
    requires
        0 <= i < s.len(),
    ensures
        effs_view(s).len() == s.len(),
        effs_view(s)[i] == eff_view(s[i]),
    decreases s.len(),
{
    if s.len() > 0 && i < s.len() - 1 {
        lemma_effs_view_index(s.drop_last(), i);
    } else if s.len() > 0 {
        lemma_effs_view_len(s.drop_last());
    }
}

pub proof fn lemma_effs_view_len(s: Seq<Effect>)
    ensures
        effs_view(s).len() == s.len(),
    decreases s.len(),
{
    if s.len() > 0 {
        lemma_effs_view_len(s.drop_last());
    }
}

pub open spec fn mach_view(m: RunMachine) -> MachineV {
    MachineV { mem: m.mem@, locals: m.locals@, stack: m.stack@, calls: calls_view(m.calls@) }
}

/// Read 16 little-endian bits at `a`.
pub fn mem_rd16(mem: &Vec<u8>, a: usize) -> (r: u32)
    requires
        a + 2 <= mem.len(),
    ensures
        r == rd16(mem@, a as int),
{
    let b0 = mem[a] as u32;
    let b1 = mem[a + 1] as u32;
    b0 + 0x100 * b1
}

/// Read 32 little-endian bits at `a`.
pub fn mem_rd32(mem: &Vec<u8>, a: usize) -> (r: u32)
    requires
        a + 4 <= mem.len(),
    ensures
        r == rd32(mem@, a as int),
{
    let b0 = mem[a] as u32;
    let b1 = mem[a + 1] as u32;
    let b2 = mem[a + 2] as u32;
    let b3 = mem[a + 3] as u32;
    b0 + 0x100 * b1 + 0x10000 * b2 + 0x1000000 * b3
}

/// Read 64 little-endian bits at `a`.
pub fn mem_rd64(mem: &Vec<u8>, a: usize) -> (r: u64)
    requires
        a + 8 <= mem.len(),
    ensures
        r == rd64(mem@, a as int),
{
    let lo = mem_rd32(mem, a) as u64;
    let hi = mem_rd32(mem, a + 4) as u64;
    lo + 0x1_0000_0000 * hi
}

/// Write the low 8 bits of `v` at `a`.
pub fn mem_wr8(mem: &mut Vec<u8>, a: usize, v: u32)
    requires
        a + 1 <= old(mem).len(),
    ensures
        final(mem)@ == wr8(old(mem)@, a as int, v),
{
    mem.set(a, (v & 0xFF) as u8);
}

/// Write 16 little-endian bits at `a`.
pub fn mem_wr16(mem: &mut Vec<u8>, a: usize, v: u32)
    requires
        a + 2 <= old(mem).len(),
    ensures
        final(mem)@ == wr16(old(mem)@, a as int, v),
{
    mem.set(a, (v & 0xFF) as u8);
    mem.set(a + 1, ((v >> 8) & 0xFF) as u8);
}

/// Write 32 little-endian bits at `a`.
pub fn mem_wr32(mem: &mut Vec<u8>, a: usize, v: u32)
    requires
        a + 4 <= old(mem).len(),
    ensures
        final(mem)@ == wr32(old(mem)@, a as int, v),
{
    mem.set(a, (v & 0xFF) as u8);
    mem.set(a + 1, ((v >> 8) & 0xFF) as u8);
    mem.set(a + 2, ((v >> 16) & 0xFF) as u8);
    mem.set(a + 3, ((v >> 24) & 0xFF) as u8);
}

/// Write 64 little-endian bits at `a`.
pub fn mem_wr64(mem: &mut Vec<u8>, a: usize, v: u64)
    requires
        a + 8 <= old(mem).len(),
    ensures
        final(mem)@ == wr64(old(mem)@, a as int, v),
{
    mem_wr32(mem, a, (v & 0xFFFF_FFFF) as u32);
    mem_wr32(mem, a + 4, ((v >> 32) & 0xFFFF_FFFF) as u32);
}

/// Whether `op` is a two-operand i32 instruction, executable form.
fn is_bin_exec(op: &Instr) -> (r: bool)
    ensures
        r == is_bin_i32(iview(*op)),
{
    match op {
        Instr::AddI32 => true,
        Instr::SubI32 => true,
        Instr::AndI32 => true,
        Instr::OrI32 => true,
        Instr::XorI32 => true,
        Instr::ShlI32 => true,
        Instr::ShrUI32 => true,
        Instr::ShrSI32 => true,
        Instr::EqI32 => true,
        Instr::LeSI32 => true,
        _ => false,
    }
}

/// Evaluate a two-operand i32 instruction.
fn bin_exec(op: &Instr, a: u32, b: u32) -> (r: u32)
    requires
        is_bin_i32(iview(*op)),
    ensures
        r == bin_i32_val(iview(*op), a, b),
{
    proof {
        assert((b & 31) < 32u32) by (bit_vector);
    }
    match op {
        Instr::AddI32 => (((a as u64) + (b as u64)) % 0x1_0000_0000) as u32,
        Instr::SubI32 => (((a as u64) + 0x1_0000_0000 - (b as u64)) % 0x1_0000_0000) as u32,
        Instr::AndI32 => a & b,
        Instr::OrI32 => a | b,
        Instr::XorI32 => a ^ b,
        Instr::ShlI32 => a << (b & 31),
        Instr::ShrUI32 => a >> (b & 31),
        Instr::ShrSI32 => (((a as i32) >> ((b & 31) as i32)) as u32),
        Instr::EqI32 => if a == b {
            1
        } else {
            0
        },
        _ => if (a as i32) <= (b as i32) {
            1
        } else {
            0
        },
    }
}

/// Execute one linear (non-control) instruction.  Returns false exactly
/// when the specification interpreter is stuck on it.
#[verifier::rlimit(100)]
fn run_step(op: &Instr, m: &mut RunMachine, oracle: &Vec<Effect>) -> (r: bool)
    requires
        !(op is IfBlock),
        !(op is Br),
        !(op is Ret),
    ensures
        r ==> step_op(iview(*op), mach_view(*old(m)), effs_view(oracle@)) == Some(
            mach_view(*final(m)),
        ),
        !r ==> step_op(iview(*op), mach_view(*old(m)), effs_view(oracle@)) is None,
{
    let ghost m0 = mach_view(*m);
    let ghost orv = effs_view(oracle@);
    if is_bin_exec(op) {
        if m.stack.len() >= 2 {
            let vb = m.stack.pop().unwrap();
            let va = m.stack.pop().unwrap();
            match (va, vb) {
                (Val::I32(a), Val::I32(b)) => {
                    m.stack.push(Val::I32(bin_exec(op, a, b)));
                    proof {
                        assert(m.stack@ =~= m0.stack.subrange(0, m0.stack.len() - 2).push(
                            Val::I32(bin_i32_val(iview(*op), a, b)),
                        ));
                    }
                    true
                },
                _ => false,
            }
        } else {
            false
        }
    } else {
        match op {
            Instr::ConstI32(c) => {
                m.stack.push(Val::I32(*c));
                true
            },
            Instr::ConstI64(c) => {
                m.stack.push(Val::I64(*c));
                true
            },
            Instr::EqzI32 => {
                if m.stack.len() >= 1 {
                    let v = m.stack.pop().unwrap();
                    match v {
                        Val::I32(a) => {
                            m.stack.push(Val::I32(if a == 0 { 1 } else { 0 }));
                            proof {
                                assert(m.stack@ =~= m0.stack.drop_last().push(
                                    Val::I32(if a == 0 { 1u32 } else { 0u32 }),
                                ));
                            }
                            true
                        },
                        _ => false,
                    }
                } else {
                    false
                }
            },
            Instr::LoadU8At(a) => {
                if (*a as u64) + 1 <= m.mem.len() as u64 {
                    let b = m.mem[*a as usize];
                    m.stack.push(Val::I32(b as u32));
                    true
                } else {
                    false
                }
            },
            Instr::LoadU16At(a) => {
                if (*a as u64) + 2 <= m.mem.len() as u64 {
                    let v = mem_rd16(&m.mem, *a as usize);
                    m.stack.push(Val::I32(v));
                    true
                } else {
                    false
                }
            },
            Instr::LoadI32At(a) => {
                if (*a as u64) + 4 <= m.mem.len() as u64 {
                    let v = mem_rd32(&m.mem, *a as usize);
                    m.stack.push(Val::I32(v));
                    true
                } else {
                    false
                }
            },
            Instr::LoadU8(off) => {
                if m.stack.len() >= 1 {
                    let v = m.stack.pop().unwrap();
                    match v {
                        Val::I32(base) => {
                            let ea = (base as u64) + (*off as u64);
                            if ea + 1 <= m.mem.len() as u64 {
                                let b = m.mem[ea as usize];
                                m.stack.push(Val::I32(b as u32));
                                proof {
                                    assert(m.stack@ =~= m0.stack.drop_last().push(
                                        Val::I32(m0.mem[base + *off] as u32),
                                    ));
                                }
                                true
                            } else {
                                false
                            }
                        },
                        _ => false,
                    }
                } else {
                    false
                }
            },
            Instr::LoadU16(off) => {
                if m.stack.len() >= 1 {
                    let v = m.stack.pop().unwrap();
                    match v {
                        Val::I32(base) => {
                            let ea = (base as u64) + (*off as u64);
                            if ea + 2 <= m.mem.len() as u64 {
                                let x = mem_rd16(&m.mem, ea as usize);
                                m.stack.push(Val::I32(x));
                                proof {
                                    assert(m.stack@ =~= m0.stack.drop_last().push(
                                        Val::I32(rd16(m0.mem, base + *off)),
                                    ));
                                }
                                true
                            } else {
                                false
                            }
                        },
                        _ => false,
                    }
                } else {
                    false
                }
            },
            Instr::LoadI32(off) => {
                if m.stack.len() >= 1 {
                    let v = m.stack.pop().unwrap();
                    match v {
                        Val::I32(base) => {
                            let ea = (base as u64) + (*off as u64);
                            if ea + 4 <= m.mem.len() as u64 {
                                let x = mem_rd32(&m.mem, ea as usize);
                                m.stack.push(Val::I32(x));
                                proof {
                                    assert(m.stack@ =~= m0.stack.drop_last().push(
                                        Val::I32(rd32(m0.mem, base + *off)),
                                    ));
                                }
                                true
                            } else {
                                false
                            }
                        },
                        _ => false,
                    }
                } else {
                    false
                }
            },
            Instr::LoadI64(off) => {
                if m.stack.len() >= 1 {
                    let v = m.stack.pop().unwrap();
                    match v {
                        Val::I32(base) => {
                            let ea = (base as u64) + (*off as u64);
                            if ea + 8 <= m.mem.len() as u64 {
                                let x = mem_rd64(&m.mem, ea as usize);
                                m.stack.push(Val::I64(x));
                                proof {
                                    assert(m.stack@ =~= m0.stack.drop_last().push(
                                        Val::I64(rd64(m0.mem, base + *off)),
                                    ));
                                }
                                true
                            } else {
                                false
                            }
                        },
                        _ => false,
                    }
                } else {
                    false
                }
            },
            Instr::StoreU8(off) => {
                if m.stack.len() >= 2 {
                    let vv = m.stack.pop().unwrap();
                    let vb = m.stack.pop().unwrap();
                    match (vb, vv) {
                        (Val::I32(base), Val::I32(v)) => {
                            let ea = (base as u64) + (*off as u64);
                            if ea + 1 <= m.mem.len() as u64 {
                                mem_wr8(&mut m.mem, ea as usize, v);
                                proof {
                                    assert(m.stack@ =~= m0.stack.subrange(0, m0.stack.len() - 2));
                                }
                                true
                            } else {
                                false
                            }
                        },
                        _ => false,
                    }
                } else {
                    false
                }
            },
            Instr::StoreU16(off) => {
                if m.stack.len() >= 2 {
                    let vv = m.stack.pop().unwrap();
                    let vb = m.stack.pop().unwrap();
                    match (vb, vv) {
                        (Val::I32(base), Val::I32(v)) => {
                            let ea = (base as u64) + (*off as u64);
                            if ea + 2 <= m.mem.len() as u64 {
                                mem_wr16(&mut m.mem, ea as usize, v);
                                proof {
                                    assert(m.stack@ =~= m0.stack.subrange(0, m0.stack.len() - 2));
                                }
                                true
                            } else {
                                false
                            }
                        },
                        _ => false,
                    }
                } else {
                    false
                }
            },
            Instr::StoreI32(off) => {
                if m.stack.len() >= 2 {
                    let vv = m.stack.pop().unwrap();
                    let vb = m.stack.pop().unwrap();
                    match (vb, vv) {
                        (Val::I32(base), Val::I32(v)) => {
                            let ea = (base as u64) + (*off as u64);
                            if ea + 4 <= m.mem.len() as u64 {
                                mem_wr32(&mut m.mem, ea as usize, v);
                                proof {
                                    assert(m.stack@ =~= m0.stack.subrange(0, m0.stack.len() - 2));
                                }
                                true
                            } else {
                                false
                            }
                        },
                        _ => false,
                    }
                } else {
                    false
                }
            },
            Instr::StoreI64(off) => {
                if m.stack.len() >= 2 {
                    let vv = m.stack.pop().unwrap();
                    let vb = m.stack.pop().unwrap();
                    match (vb, vv) {
                        (Val::I32(base), Val::I64(v)) => {
                            let ea = (base as u64) + (*off as u64);
                            if ea + 8 <= m.mem.len() as u64 {
                                mem_wr64(&mut m.mem, ea as usize, v);
                                proof {
                                    assert(m.stack@ =~= m0.stack.subrange(0, m0.stack.len() - 2));
                                }
                                true
                            } else {
                                false
                            }
                        },
                        _ => false,
                    }
                } else {
                    false
                }
            },
            Instr::GetLocal(x) => {
                if (*x as usize) < m.locals.len() {
                    let v = m.locals[*x as usize];
                    m.stack.push(Val::I32((v & 0xFFFF_FFFF) as u32));
                    true
                } else {
                    false
                }
            },
            Instr::SetLocal(x) => {
                if m.stack.len() >= 1 && (*x as usize) < m.locals.len() {
                    let v = m.stack.pop().unwrap();
                    match v {
                        Val::I32(a) => {
                            m.locals.set(*x as usize, a as u64);
                            true
                        },
                        _ => false,
                    }
                } else {
                    false
                }
            },
            Instr::TeeLocal(x) => {
                if m.stack.len() >= 1 && (*x as usize) < m.locals.len() {
                    let v = m.stack[m.stack.len() - 1];
                    match v {
                        Val::I32(a) => {
                            m.locals.set(*x as usize, a as u64);
                            true
                        },
                        _ => false,
                    }
                } else {
                    false
                }
            },
            Instr::GetLocalI64(x) => {
                if (*x as usize) < m.locals.len() {
                    let v = m.locals[*x as usize];
                    m.stack.push(Val::I64(v));
                    true
                } else {
                    false
                }
            },
            Instr::SetLocalI64(x) => {
                if m.stack.len() >= 1 && (*x as usize) < m.locals.len() {
                    let v = m.stack.pop().unwrap();
                    match v {
                        Val::I64(a) => {
                            m.locals.set(*x as usize, a);
                            true
                        },
                        _ => false,
                    }
                } else {
                    false
                }
            },
            Instr::I32AsF32 => {
                if m.stack.len() >= 1 {
                    let v = m.stack.pop().unwrap();
                    match v {
                        Val::I32(a) => {
                            m.stack.push(Val::F32Bits(a));
                            proof {
                                assert(m.stack@ =~= m0.stack.drop_last().push(Val::F32Bits(a)));
                            }
                            true
                        },
                        _ => false,
                    }
                } else {
                    false
                }
            },
            Instr::I64AsF64 => {
                if m.stack.len() >= 1 {
                    let v = m.stack.pop().unwrap();
                    match v {
                        Val::I64(a) => {
                            m.stack.push(Val::F64Bits(a));
                            proof {
                                assert(m.stack@ =~= m0.stack.drop_last().push(Val::F64Bits(a)));
                            }
                            true
                        },
                        _ => false,
                    }
                } else {
                    false
                }
            },
            Instr::F32ToF64 => false,
            Instr::Call(f) => run_call(*f, m, oracle),
            _ => false,
        }
    }
}

/// Execute one helper call against the oracle.
#[verifier::rlimit(100)]
fn run_call(f: HostFn, m: &mut RunMachine, oracle: &Vec<Effect>) -> (r: bool)
    ensures
        r ==> step_call(f, mach_view(*old(m)), effs_view(oracle@)) == Some(mach_view(*final(m))),
        !r ==> step_call(f, mach_view(*old(m)), effs_view(oracle@)) is None,
{
    let ghost m0 = mach_view(*m);
    let ghost orv = effs_view(oracle@);
    let ks = helper_arg_kinds(f);
    let n = ks.len();
    if m.stack.len() < n {
        return false;
    }
    let base = m.stack.len() - n;
    let mut i: usize = 0;
    let mut kinds_ok = true;
    while i < n
        invariant
            n == arg_kinds(f).len(),
            base + n == m.stack.len(),
            i <= n,
            ks@ == arg_kinds(f),
            m == old(m),
            kinds_ok == (forall|j: int|
                0 <= j < i ==> kind_of(#[trigger] m.stack@[base + j]) == arg_kinds(f)[j]),
        decreases n - i,
    {
        let v = m.stack[base + i];
        let want = ks[i];
        let have = match v {
            Val::I32(_) => ValKind::K32,
            Val::I64(_) => ValKind::K64,
            Val::F32Bits(_) => ValKind::KF32,
            Val::F64Bits(_) => ValKind::KF64,
        };
        if !(have == want) {
            kinds_ok = false;
        }
        i = i + 1;
    }
    if !kinds_ok {
        proof {
            assert(!(forall|j: int|
                0 <= j < n ==> kind_of(#[trigger] m.stack@[base + j]) == arg_kinds(f)[j]));
            let j = choose|j: int|
                !(0 <= j < n ==> kind_of(#[trigger] m.stack@[base + j]) == arg_kinds(f)[j]);
            assert(kind_of(m0.stack[m0.stack.len() - n + j]) != arg_kinds(f)[j]);
            assert(step_call(f, m0, orv) is None);
        }
        return false;
    }
    proof {
        lemma_calls_view_len(m.calls@);
    }
    let k = m.calls.len();
    if k >= oracle.len() {
        proof {
            lemma_effs_view_len(oracle@);
        }
        return false;
    }
    proof {
        lemma_effs_view_index(oracle@, k as int);
    }
    if oracle[k].mem_after.len() != m.mem.len() {
        return false;
    }
    // take the arguments off the stack, record the event
    let mut args: Vec<Val> = Vec::new();
    let mut i: usize = 0;
    while i < n
        invariant
            base + n == m.stack.len(),
            i <= n,
            args@ =~= m.stack@.subrange(base as int, base + i),
            m == old(m),
        decreases n - i,
    {
        let v = m.stack[base + i];
        args.push(v);
        proof {
            assert(args@ =~= m.stack@.subrange(base as int, base + i + 1));
        }
        i = i + 1;
    }
    let ghost pre_stack = m.stack@;
    m.stack.truncate(base);
    // adopt the scripted memory
    let src = &oracle[k].mem_after;
    let mut newmem: Vec<u8> = Vec::new();
    let mut i: usize = 0;
    let len = src.len();
    while i < len
        invariant
            len == src@.len(),
            i <= len,
            newmem@ =~= src@.subrange(0, i as int),
        decreases len - i,
    {
        let b = src[i];
        newmem.push(b);
        proof {
            assert(newmem@ =~= src@.subrange(0, i + 1));
        }
        i = i + 1;
    }
    proof {
        assert(newmem@ =~= src@);
    }
    m.mem = newmem;
    let ghost pre_calls = m.calls@;
    m.calls.push(CallRec { target: f, args });
    proof {
        lemma_calls_view_push(pre_calls, CallRec { target: f, args });
        assert(call_view(CallRec { target: f, args }) == CallEv {
            target: f,
            args: pre_stack.subrange(base as int, base + n),
        });
    }
    // push the scripted result
    let rk = helper_ret_kind(f);
    match (rk, &oracle[k].ret) {
        (None, None) => {
            proof {
                assert(mach_view(*m).calls =~= m0.calls.push(
                    CallEv { target: f, args: m0.stack.subrange(base as int, base + n) },
                ));
            }
            true
        },
        (Some(want), Some(v)) => {
            let have = match v {
                Val::I32(_) => ValKind::K32,
                Val::I64(_) => ValKind::K64,
                Val::F32Bits(_) => ValKind::KF32,
                Val::F64Bits(_) => ValKind::KF64,
            };
            if have == want {
                m.stack.push(*v);
                proof {
                    assert(mach_view(*m).calls =~= m0.calls.push(
                        CallEv { target: f, args: m0.stack.subrange(base as int, base + n) },
                    ));
                }
                true
            } else {
                false
            }
        },
        _ => false,
    }
}

/// Run `code` from index `i` to completion, mirroring the
/// specification-level interpreter case for case.
#[verifier::rlimit(60)]
pub fn run_from(code: &Vec<Instr>, i: usize, m: &mut RunMachine, oracle: &Vec<Effect>) -> (r:
    RunFlow)
    requires
        i <= code.len(),
    ensures
        r is Stuck ==> exec_ops(
            seq_iview(code@).subrange(i as int, code@.len() as int),
            mach_view(*old(m)),
            effs_view(oracle@),
        ) == Outcome::Stuck,
        r is Next ==> exec_ops(
            seq_iview(code@).subrange(i as int, code@.len() as int),
            mach_view(*old(m)),
            effs_view(oracle@),
        ) == Outcome::Done(mach_view(*final(m)), Flow::Next),
        r is Branch ==> exec_ops(
            seq_iview(code@).subrange(i as int, code@.len() as int),
            mach_view(*old(m)),
            effs_view(oracle@),
        ) == Outcome::Done(mach_view(*final(m)), Flow::Branch(r->Branch_0 as nat)),
        r is Ret ==> exec_ops(
            seq_iview(code@).subrange(i as int, code@.len() as int),
            mach_view(*old(m)),
            effs_view(oracle@),
        ) == Outcome::Done(mach_view(*final(m)), Flow::Ret),
    decreases code@, code@.len() - i,
{
    proof {
        lemma_seq_iview_len(code@);
    }
    let ghost cv = seq_iview(code@).subrange(i as int, code@.len() as int);
    let ghost m0 = mach_view(*m);
    let ghost orv = effs_view(oracle@);
    if i == code.len() {
        proof {
            assert(cv =~= Seq::<InstrV>::empty());
        }
        return RunFlow::Next;
    }
    proof {
        lemma_seq_iview_index(code@, i as int);
        assert(cv[0] == iview(code@[i as int]));
        assert(cv.drop_first() =~= seq_iview(code@).subrange(i + 1, code@.len() as int));
    }
    let op = &code[i];
    match op {
        Instr::IfBlock { kind, then_code, else_code } => {
            if m.stack.len() < 1 {
                return RunFlow::Stuck;
            }
            let c = m.stack.pop().unwrap();
            match c {
                Val::I32(cval) => {
                    let ghost m1 = MachineV { stack: m0.stack.drop_last(), ..m0 };
                    proof {
                        assert(mach_view(*m) == m1);
                    }
                    let body = if cval != 0 {
                        then_code
                    } else {
                        else_code
                    };
                    proof {
                        lemma_seq_iview_len(body@);
                        assert(decreases_to!(code@ => code@[i as int]));
                        assert(decreases_to!(code@[i as int] => body@));
                    }
                    let fl = run_from(body, 0, m, oracle);
                    proof {
                        assert(seq_iview(body@).subrange(0, body@.len() as int) =~= seq_iview(
                            body@,
                        ));
                    }
                    match fl {
                        RunFlow::Stuck => RunFlow::Stuck,
                        RunFlow::Next => run_from(code, i + 1, m, oracle),
                        RunFlow::Branch(n) => {
                            if n == 0 {
                                run_from(code, i + 1, m, oracle)
                            } else {
                                RunFlow::Branch(n - 1)
                            }
                        },
                        RunFlow::Ret => RunFlow::Ret,
                    }
                },
                _ => RunFlow::Stuck,
            }
        },
        Instr::Br(n) => RunFlow::Branch(*n),
        Instr::Ret => RunFlow::Ret,
        _ => {
            if run_step(op, m, oracle) {
                run_from(code, i + 1, m, oracle)
            } else {
                RunFlow::Stuck
            }
        },
    }
}

/// Run a whole function body against a concrete machine and a helper
/// script, returning exactly the outcome the specification interpreter
/// assigns to it.
pub fn run_code(code: &Vec<Instr>, m: &mut RunMachine, oracle: &Vec<Effect>) -> (r: RunFlow)
    ensures
        r is Stuck ==> exec_ops(seq_iview(code@), mach_view(*old(m)), effs_view(oracle@))
            == Outcome::Stuck,
        r is Next ==> exec_ops(seq_iview(code@), mach_view(*old(m)), effs_view(oracle@))
            == Outcome::Done(mach_view(*final(m)), Flow::Next),
        r is Branch ==> exec_ops(seq_iview(code@), mach_view(*old(m)), effs_view(oracle@))
            == Outcome::Done(mach_view(*final(m)), Flow::Branch(r->Branch_0 as nat)),
        r is Ret ==> exec_ops(seq_iview(code@), mach_view(*old(m)), effs_view(oracle@))
            == Outcome::Done(mach_view(*final(m)), Flow::Ret),
{
    proof {
        lemma_seq_iview_len(code@);
        assert(seq_iview(code@).subrange(0, code@.len() as int) =~= seq_iview(code@));
    }
    run_from(code, 0, m, oracle)
}

} // verus!
