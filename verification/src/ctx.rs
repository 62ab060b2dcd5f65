//! The per-translation-unit compilation context.
//!
//! A [`JitContext`] bundles the bytecode builder, the eight host locals
//! caching the guest general-purpose registers, the linear address of the
//! instruction being translated, the structured-block depth relative to
//! the enclosing page-fault catcher, and the CPU attributes the emitters
//! specialize on.

use vstd::prelude::*;
use crate::builder::{CodeBuilder, HostLocal, emitted, locals_same, lemma_push_onto_app, empty_frames};
use crate::isa::InstrV;

verus! {

/// CPU attributes fixed for one translation unit.
#[derive(Clone, Copy, PartialEq, Eq, Structural, Debug)]
pub struct CpuContext {
    pub cpl3: bool,
    pub ssize_32: bool,
    pub asize_32: bool,
    pub has_flat_segmentation: bool,
}

impl CpuContext {
    /// Whether the guest runs at privilege level 3 (user mode).
    pub fn cpl3(&self) -> (b: bool)
        ensures
            b == self.cpl3,
    {
        self.cpl3
    }

    /// The stack-size attribute: 32-bit when true, 16-bit when false.
    pub fn ssize_32(&self) -> (b: bool)
        ensures
            b == self.ssize_32,
    {
        self.ssize_32
    }

    /// The address-size attribute: 32-bit when true, 16-bit when false.
    pub fn asize_32(&self) -> (b: bool)
        ensures
            b == self.asize_32,
    {
        self.asize_32
    }

    /// Whether the stack segment has base 0.
    pub fn has_flat_segmentation(&self) -> (b: bool)
        ensures
            b == self.has_flat_segmentation,
    {
        self.has_flat_segmentation
    }
}

/// The compilation context for one translation unit.
pub struct JitContext {
    pub builder: CodeBuilder,
    /// Host locals 0..=7 mirroring the eight guest 32-bit registers in
    /// encoding order for the lifetime of the translation unit.
    pub register_locals: Vec<HostLocal>,
    /// Linear address of the instruction being translated; its low 12
    /// bits survive a page-fault bail-out.
    pub start_of_current_instruction: u32,
    /// Depth of the current break-table block relative to the enclosing
    /// page-fault catcher.
    pub current_brtable_depth: u32,
    pub cpu: CpuContext,
}

impl JitContext {
    pub open spec fn wf(self) -> bool {
        &&& self.builder.wf()
        &&& self.register_locals@.len() == 8
        &&& forall|i: int| 0 <= i < 8 ==> (#[trigger] self.register_locals@[i]).idx == i
        &&& forall|x: u32| x < 8 ==> #[trigger] self.builder.is_live(x)
    }

    /// A fresh context with an empty function body and the eight register
    /// locals allocated as locals 0 through 7.
    pub fn new(cpu: CpuContext, start_of_current_instruction: u32, current_brtable_depth: u32) -> (ctx:
        JitContext)
        ensures
            ctx.wf(),
            ctx.builder.depth() == 0,
            ctx.builder.next_local() == 8,
            forall|x: u32| ctx.builder.is_live(x) == (x < 8),
            ctx.builder.frames_v().len() == 1,
            ctx.builder.frames_v()[0].head == Seq::<InstrV>::empty(),
            !ctx.builder.frames_v()[0].in_else,
            ctx.cpu == cpu,
            ctx.start_of_current_instruction == start_of_current_instruction,
            ctx.current_brtable_depth == current_brtable_depth,
    {
        let mut builder = CodeBuilder::new();
        let mut register_locals: Vec<HostLocal> = Vec::new();
        let mut i: u32 = 0;
        while i < 8
            invariant
                builder.wf(),
                builder.depth() == 0,
                builder.frames_v() == empty_frames(),
                i <= 8,
                builder.next_local() == i,
                register_locals@.len() == i,
                forall|j: int| 0 <= j < i ==> (#[trigger] register_locals@[j]).idx == j,
                forall|x: u32| builder.is_live(x) == (x < i),
            decreases 8 - i,
        {
            let l = builder.alloc_local();
            proof {
                assert(l.idx < builder.next_local());
                assert(builder.next_local() <= i + 1);
                assert(builder.is_live(l.idx));
                assert(!(l.idx < i));
                assert(l.idx == i);
                assert forall|x: u32| builder.is_live(x) == (x < i + 1) by {
                    if x != l.idx {
                        assert(builder.is_live(x) == (x < i));
                    }
                }
            }
            register_locals.push(l);
            i = i + 1;
        }
        JitContext { builder, register_locals, start_of_current_instruction, current_brtable_depth, cpu }
    }
}

/// Context `post` differs from `pre` exactly by having emitted `code`:
/// the bytecode stream grew by `code`, the set of live locals, the block
/// depth, the register locals, and all translation attributes are
/// unchanged.
pub open spec fn ctx_emits(pre: JitContext, post: JitContext, code: Seq<InstrV>) -> bool {
    &&& emitted(pre.builder, post.builder, code)
    &&& locals_same(pre.builder, post.builder)
    &&& post.builder.depth() == pre.builder.depth()
    &&& post.register_locals == pre.register_locals
    &&& post.start_of_current_instruction == pre.start_of_current_instruction
    &&& post.current_brtable_depth == pre.current_brtable_depth
    &&& post.cpu == pre.cpu
}

pub proof fn lemma_ctx_emits_trans(a: JitContext, b: JitContext, c: JitContext, c1: Seq<InstrV>, c2: Seq<InstrV>)
    requires
        a.builder.frames_v().len() >= 1,
        ctx_emits(a, b, c1),
        ctx_emits(b, c, c2),
    ensures
        ctx_emits(a, c, c1 + c2),
{
    lemma_push_onto_app(a.builder.frames_v(), c1, c2);
}

} // verus!
