//! The host instruction set.
//!
//! Emitted code is a sequence of [`Instr`] values; structured control flow
//! is kept structured: an `IfBlock` carries its two branch bodies as child
//! sequences, and `Br(n)` breaks out of `n + 1` enclosing blocks.
//!
//! [`Instr`] is the executable form (branch bodies are `Vec`s); [`InstrV`]
//! is its specification-level view (branch bodies are `Seq`s), related by
//! [`iview`] and [`seq_iview`].

use vstd::prelude::*;

verus! {

/// A value on the host operand stack.  Float values are carried as raw
/// bits; the emitter never computes with them.
#[derive(Clone, Copy, PartialEq, Eq, Structural, Debug)]
pub enum Val {
    I32(u32),
    I64(u64),
    F32Bits(u32),
    F64Bits(u64),
}

/// The type of a host value.
#[derive(Clone, Copy, PartialEq, Eq, Structural, Debug)]
pub enum ValKind {
    K32,
    K64,
    KF32,
    KF64,
}

pub open spec fn kind_of(v: Val) -> ValKind {
    match v {
        Val::I32(_) => ValKind::K32,
        Val::I64(_) => ValKind::K64,
        Val::F32Bits(_) => ValKind::KF32,
        Val::F64Bits(_) => ValKind::KF64,
    }
}

/// The result type of a structured block.
#[derive(Clone, Copy, PartialEq, Eq, Structural, Debug)]
pub enum BlockKind {
    NoRes,
    ResI32,
    ResI64,
}

/// The namespace of helper functions imported into the host module.
/// Emitted code calls them by name; each has a fixed signature, given by
/// [`arg_kinds`] and [`ret_kind`].
#[derive(Clone, Copy, PartialEq, Eq, Structural, Debug)]
pub enum HostFn {
    SafeRead8Slow,
    SafeRead16Slow,
    SafeRead32Slow,
    SafeRead64Slow,
    SafeRead128Slow,
    SafeWrite8Slow,
    SafeWrite16Slow,
    SafeWrite32Slow,
    SafeWrite64Slow,
    SafeWrite128Slow,
    SafeReadWrite8Slow,
    SafeReadWrite16Slow,
    SafeReadWrite32Slow,
    TriggerUd,
    TriggerGp,
    TaskSwitchTest,
    TaskSwitchTestMmx,
    TestO,
    TestNo,
    TestB,
    TestNb,
    TestZ,
    TestNz,
    TestBe,
    TestNbe,
    TestS,
    TestNs,
    TestP,
    TestNp,
    TestL,
    TestNl,
    TestLe,
    TestNle,
    FpuGetSti,
    BugReadWritePageFault,
}

/// Argument types of helper `f`, in call order.
pub open spec fn arg_kinds(f: HostFn) -> Seq<ValKind> {
    match f {
        HostFn::SafeRead8Slow => seq![ValKind::K32],
        HostFn::SafeRead16Slow => seq![ValKind::K32],
        HostFn::SafeRead32Slow => seq![ValKind::K32],
        HostFn::SafeRead64Slow => seq![ValKind::K32],
        HostFn::SafeRead128Slow => seq![ValKind::K32, ValKind::K32],
        HostFn::SafeWrite8Slow => seq![ValKind::K32, ValKind::K32],
        HostFn::SafeWrite16Slow => seq![ValKind::K32, ValKind::K32],
        HostFn::SafeWrite32Slow => seq![ValKind::K32, ValKind::K32],
        HostFn::SafeWrite64Slow => seq![ValKind::K32, ValKind::K64],
        HostFn::SafeWrite128Slow => seq![ValKind::K32, ValKind::K64, ValKind::K64],
        HostFn::SafeReadWrite8Slow => seq![ValKind::K32],
        HostFn::SafeReadWrite16Slow => seq![ValKind::K32],
        HostFn::SafeReadWrite32Slow => seq![ValKind::K32],
        HostFn::TriggerUd => seq![],
        HostFn::TriggerGp => seq![ValKind::K32],
        HostFn::TaskSwitchTest => seq![],
        HostFn::TaskSwitchTestMmx => seq![],
        HostFn::TestO => seq![],
        HostFn::TestNo => seq![],
        HostFn::TestB => seq![],
        HostFn::TestNb => seq![],
        HostFn::TestZ => seq![],
        HostFn::TestNz => seq![],
        HostFn::TestBe => seq![],
        HostFn::TestNbe => seq![],
        HostFn::TestS => seq![],
        HostFn::TestNs => seq![],
        HostFn::TestP => seq![],
        HostFn::TestNp => seq![],
        HostFn::TestL => seq![],
        HostFn::TestNl => seq![],
        HostFn::TestLe => seq![],
        HostFn::TestNle => seq![],
        HostFn::FpuGetSti => seq![ValKind::K32],
        HostFn::BugReadWritePageFault => seq![ValKind::K32, ValKind::K32],
    }
}

/// Result type of helper `f`, if it returns a value.
pub open spec fn ret_kind(f: HostFn) -> Option<ValKind> {
    match f {
        HostFn::SafeRead8Slow => Some(ValKind::K32),
        HostFn::SafeRead16Slow => Some(ValKind::K32),
        HostFn::SafeRead32Slow => Some(ValKind::K32),
        HostFn::SafeRead64Slow => Some(ValKind::K64),
        HostFn::SafeRead128Slow => None,
        HostFn::SafeWrite8Slow => None,
        HostFn::SafeWrite16Slow => None,
        HostFn::SafeWrite32Slow => None,
        HostFn::SafeWrite64Slow => None,
        HostFn::SafeWrite128Slow => None,
        HostFn::SafeReadWrite8Slow => Some(ValKind::K32),
        HostFn::SafeReadWrite16Slow => Some(ValKind::K32),
        HostFn::SafeReadWrite32Slow => Some(ValKind::K32),
        HostFn::TriggerUd => None,
        HostFn::TriggerGp => None,
        HostFn::TaskSwitchTest => None,
        HostFn::TaskSwitchTestMmx => None,
        HostFn::TestO => Some(ValKind::K32),
        HostFn::TestNo => Some(ValKind::K32),
        HostFn::TestB => Some(ValKind::K32),
        HostFn::TestNb => Some(ValKind::K32),
        HostFn::TestZ => Some(ValKind::K32),
        HostFn::TestNz => Some(ValKind::K32),
        HostFn::TestBe => Some(ValKind::K32),
        HostFn::TestNbe => Some(ValKind::K32),
        HostFn::TestS => Some(ValKind::K32),
        HostFn::TestNs => Some(ValKind::K32),
        HostFn::TestP => Some(ValKind::K32),
        HostFn::TestNp => Some(ValKind::K32),
        HostFn::TestL => Some(ValKind::K32),
        HostFn::TestNl => Some(ValKind::K32),
        HostFn::TestLe => Some(ValKind::K32),
        HostFn::TestNle => Some(ValKind::K32),
        HostFn::FpuGetSti => Some(ValKind::KF64),
        HostFn::BugReadWritePageFault => None,
    }
}

/// Argument types of helper `f` as a vector, for the executable
/// interpreter.
pub fn helper_arg_kinds(f: HostFn) -> (v: Vec<ValKind>)
    ensures
        v@ == arg_kinds(f),
{
    let v: Vec<ValKind> = match f {
        HostFn::SafeRead8Slow => vec![ValKind::K32],
        HostFn::SafeRead16Slow => vec![ValKind::K32],
        HostFn::SafeRead32Slow => vec![ValKind::K32],
        HostFn::SafeRead64Slow => vec![ValKind::K32],
        HostFn::SafeRead128Slow => vec![ValKind::K32, ValKind::K32],
        HostFn::SafeWrite8Slow => vec![ValKind::K32, ValKind::K32],
        HostFn::SafeWrite16Slow => vec![ValKind::K32, ValKind::K32],
        HostFn::SafeWrite32Slow => vec![ValKind::K32, ValKind::K32],
        HostFn::SafeWrite64Slow => vec![ValKind::K32, ValKind::K64],
        HostFn::SafeWrite128Slow => vec![ValKind::K32, ValKind::K64, ValKind::K64],
        HostFn::SafeReadWrite8Slow => vec![ValKind::K32],
        HostFn::SafeReadWrite16Slow => vec![ValKind::K32],
        HostFn::SafeReadWrite32Slow => vec![ValKind::K32],
        HostFn::TriggerUd => vec![],
        HostFn::TriggerGp => vec![ValKind::K32],
        HostFn::TaskSwitchTest => vec![],
        HostFn::TaskSwitchTestMmx => vec![],
        HostFn::TestO => vec![],
        HostFn::TestNo => vec![],
        HostFn::TestB => vec![],
        HostFn::TestNb => vec![],
        HostFn::TestZ => vec![],
        HostFn::TestNz => vec![],
        HostFn::TestBe => vec![],
        HostFn::TestNbe => vec![],
        HostFn::TestS => vec![],
        HostFn::TestNs => vec![],
        HostFn::TestP => vec![],
        HostFn::TestNp => vec![],
        HostFn::TestL => vec![],
        HostFn::TestNl => vec![],
        HostFn::TestLe => vec![],
        HostFn::TestNle => vec![],
        HostFn::FpuGetSti => vec![ValKind::K32],
        HostFn::BugReadWritePageFault => vec![ValKind::K32, ValKind::K32],
    };
    proof {
        assert(v@ =~= arg_kinds(f));
    }
    v
}

/// Result type of helper `f` for the executable interpreter.
pub fn helper_ret_kind(f: HostFn) -> (r: Option<ValKind>)
    ensures
        r == ret_kind(f),
{
    match f {
        HostFn::SafeRead8Slow => Some(ValKind::K32),
        HostFn::SafeRead16Slow => Some(ValKind::K32),
        HostFn::SafeRead32Slow => Some(ValKind::K32),
        HostFn::SafeRead64Slow => Some(ValKind::K64),
        HostFn::SafeRead128Slow => None,
        HostFn::SafeWrite8Slow => None,
        HostFn::SafeWrite16Slow => None,
        HostFn::SafeWrite32Slow => None,
        HostFn::SafeWrite64Slow => None,
        HostFn::SafeWrite128Slow => None,
        HostFn::SafeReadWrite8Slow => Some(ValKind::K32),
        HostFn::SafeReadWrite16Slow => Some(ValKind::K32),
        HostFn::SafeReadWrite32Slow => Some(ValKind::K32),
        HostFn::TriggerUd => None,
        HostFn::TriggerGp => None,
        HostFn::TaskSwitchTest => None,
        HostFn::TaskSwitchTestMmx => None,
        HostFn::FpuGetSti => Some(ValKind::KF64),
        HostFn::BugReadWritePageFault => None,
        _ => Some(ValKind::K32),
    }
}

/// One host instruction, executable form.
///
/// Loads and stores come in two shapes: `*At(a)` reads at the literal
/// address `a`; the others pop a base address from the stack and add the
/// literal byte offset.  Stores pop the value, then the base.  All
/// multi-byte accesses are little-endian; alignment is not significant.
#[derive(PartialEq, Eq, Debug)]
pub enum Instr {
    ConstI32(u32),
    ConstI64(u64),
    AddI32,
    SubI32,
    AndI32,
    OrI32,
    XorI32,
    ShlI32,
    ShrUI32,
    ShrSI32,
    EqI32,
    LeSI32,
    EqzI32,
    LoadU8At(u32),
    LoadU16At(u32),
    LoadI32At(u32),
    LoadU8(u32),
    LoadU16(u32),
    LoadI32(u32),
    LoadI64(u32),
    StoreU8(u32),
    StoreU16(u32),
    StoreI32(u32),
    StoreI64(u32),
    GetLocal(u32),
    SetLocal(u32),
    TeeLocal(u32),
    GetLocalI64(u32),
    SetLocalI64(u32),
    Call(HostFn),
    IfBlock { kind: BlockKind, then_code: Vec<Instr>, else_code: Vec<Instr> },
    Br(u32),
    Ret,
    I32AsF32,
    F32ToF64,
    I64AsF64,
}

/// One host instruction, specification-level view of [`Instr`].
pub enum InstrV {
    ConstI32(u32),
    ConstI64(u64),
    AddI32,
    SubI32,
    AndI32,
    OrI32,
    XorI32,
    ShlI32,
    ShrUI32,
    ShrSI32,
    EqI32,
    LeSI32,
    EqzI32,
    LoadU8At(u32),
    LoadU16At(u32),
    LoadI32At(u32),
    LoadU8(u32),
    LoadU16(u32),
    LoadI32(u32),
    LoadI64(u32),
    StoreU8(u32),
    StoreU16(u32),
    StoreI32(u32),
    StoreI64(u32),
    GetLocal(u32),
    SetLocal(u32),
    TeeLocal(u32),
    GetLocalI64(u32),
    SetLocalI64(u32),
    Call(HostFn),
    IfBlock { kind: BlockKind, then_code: Seq<InstrV>, else_code: Seq<InstrV> },
    Br(u32),
    Ret,
    I32AsF32,
    F32ToF64,
    I64AsF64,
}

/// The view of a single instruction.
pub open spec fn iview(i: Instr) -> InstrV
    decreases i,
{
    match i {
        Instr::ConstI32(c) => InstrV::ConstI32(c),
        Instr::ConstI64(c) => InstrV::ConstI64(c),
        Instr::AddI32 => InstrV::AddI32,
        Instr::SubI32 => InstrV::SubI32,
        Instr::AndI32 => InstrV::AndI32,
        Instr::OrI32 => InstrV::OrI32,
        Instr::XorI32 => InstrV::XorI32,
        Instr::ShlI32 => InstrV::ShlI32,
        Instr::ShrUI32 => InstrV::ShrUI32,
        Instr::ShrSI32 => InstrV::ShrSI32,
        Instr::EqI32 => InstrV::EqI32,
        Instr::LeSI32 => InstrV::LeSI32,
        Instr::EqzI32 => InstrV::EqzI32,
        Instr::LoadU8At(a) => InstrV::LoadU8At(a),
        Instr::LoadU16At(a) => InstrV::LoadU16At(a),
        Instr::LoadI32At(a) => InstrV::LoadI32At(a),
        Instr::LoadU8(o) => InstrV::LoadU8(o),
        Instr::LoadU16(o) => InstrV::LoadU16(o),
        Instr::LoadI32(o) => InstrV::LoadI32(o),
        Instr::LoadI64(o) => InstrV::LoadI64(o),
        Instr::StoreU8(o) => InstrV::StoreU8(o),
        Instr::StoreU16(o) => InstrV::StoreU16(o),
        Instr::StoreI32(o) => InstrV::StoreI32(o),
        Instr::StoreI64(o) => InstrV::StoreI64(o),
        Instr::GetLocal(x) => InstrV::GetLocal(x),
        Instr::SetLocal(x) => InstrV::SetLocal(x),
        Instr::TeeLocal(x) => InstrV::TeeLocal(x),
        Instr::GetLocalI64(x) => InstrV::GetLocalI64(x),
        Instr::SetLocalI64(x) => InstrV::SetLocalI64(x),
        Instr::Call(f) => InstrV::Call(f),
        Instr::IfBlock { kind, then_code, else_code } => InstrV::IfBlock {
            kind,
            then_code: seq_iview(then_code@),
            else_code: seq_iview(else_code@),
        },
        Instr::Br(n) => InstrV::Br(n),
        Instr::Ret => InstrV::Ret,
        Instr::I32AsF32 => InstrV::I32AsF32,
        Instr::F32ToF64 => InstrV::F32ToF64,
        Instr::I64AsF64 => InstrV::I64AsF64,
    }
}

/// The view of a sequence of instructions.
pub open spec fn seq_iview(s: Seq<Instr>) -> Seq<InstrV>
    decreases s,
{
    if s.len() == 0 {
        Seq::empty()
    } else {
        seq_iview(s.drop_last()).push(iview(s.last()))
    }
}

pub proof fn lemma_seq_iview_len(s: Seq<Instr>)
    ensures
        seq_iview(s).len() == s.len(),
    decreases s.len(),
{
    if s.len() > 0 {
        lemma_seq_iview_len(s.drop_last());
    }
}

pub proof fn lemma_seq_iview_index(s: Seq<Instr>, i: int)
    requires
        0 <= i < s.len(),
    ensures
        seq_iview(s).len() == s.len(),
        seq_iview(s)[i] == iview(s[i]),
    decreases s.len(),
{
    lemma_seq_iview_len(s);
    if i < s.len() - 1 {
        lemma_seq_iview_index(s.drop_last(), i);
    }
}

pub proof fn lemma_seq_iview_push(s: Seq<Instr>, x: Instr)
    ensures
        seq_iview(s.push(x)) == seq_iview(s).push(iview(x)),
{
    assert(s.push(x).drop_last() =~= s);
    assert(s.push(x).last() == x);
}

/// Casting a u32 to i32 and back yields the same value.
pub proof fn lemma_cast_roundtrip_u32(n: u32)
    ensures
        ((n as i32) as u32) == n,
{
    assert(((n as i32) as u32) == n) by (bit_vector);
}

/// The low twelve bits of a value are below 0x1000.
pub proof fn lemma_low12_bound(x: u32)
    ensures
        x & 0xFFF < 0x1000,
{
    assert(x & 0xFFF < 0x1000) by (bit_vector);
}

pub proof fn lemma_seq_iview_empty()
    ensures
        seq_iview(Seq::empty()) == Seq::<InstrV>::empty(),
{
}

} // verus!
