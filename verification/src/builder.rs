//! The host-bytecode builder surface.
//!
//! A [`CodeBuilder`] accumulates one function body of host bytecode.  It
//! keeps a stack of open structured blocks (the bottom entry is the
//! function body itself); emitting an instruction appends it to the branch
//! of the innermost open block that is currently being built.  Closing a
//! block folds it into a single [`Instr::IfBlock`] appended to the parent.
//!
//! The builder also owns the local-variable arena.  Scratch locals are
//! acquired with [`CodeBuilder::set_new_local`] / [`CodeBuilder::tee_new_local`]
//! and must be released with [`CodeBuilder::free_local`]; the emitter
//! contracts in this crate guarantee that every emitter releases on every
//! exit path whatever it acquired (the locals discipline), stated as
//! [`locals_same`].

use vstd::prelude::*;
use crate::isa::{BlockKind, HostFn, Instr, InstrV, iview, seq_iview, lemma_seq_iview_push};

verus! {

/// A named host local holding an i32 value.
#[derive(Clone, Copy, PartialEq, Eq, Structural, Debug)]
pub struct HostLocal {
    pub idx: u32,
}

/// A named host local holding an i64 value.
#[derive(Clone, Copy, PartialEq, Eq, Structural, Debug)]
pub struct HostLocalI64 {
    pub idx: u32,
}

struct Frame {
    kind: BlockKind,
    in_else: bool,
    head: Vec<Instr>,
    tail: Vec<Instr>,
}

/// Specification-level view of one open block: the code of its two
/// branches and which of them is being appended to.
pub struct FrameV {
    pub kind: BlockKind,
    pub in_else: bool,
    pub head: Seq<InstrV>,
    pub tail: Seq<InstrV>,
}

/// The host-bytecode builder.
pub struct CodeBuilder {
    frames: Vec<Frame>,
    next_local: u32,
    free_list: Vec<u32>,
}

spec fn frame_v(f: Frame) -> FrameV {
    FrameV {
        kind: f.kind,
        in_else: f.in_else,
        head: seq_iview(f.head@),
        tail: seq_iview(f.tail@),
    }
}

/// The active branch of a frame: the else branch once `else_` has been
/// seen, the then branch before that.
pub open spec fn active(f: FrameV) -> Seq<InstrV> {
    if f.in_else {
        f.tail
    } else {
        f.head
    }
}

pub open spec fn with_active(f: FrameV, code: Seq<InstrV>) -> FrameV {
    if f.in_else {
        FrameV { tail: code, ..f }
    } else {
        FrameV { head: code, ..f }
    }
}

/// The frame stack after appending `code` to the active branch of the
/// innermost frame.
pub open spec fn push_onto(fs: Seq<FrameV>, code: Seq<InstrV>) -> Seq<FrameV> {
    let i = fs.len() - 1;
    fs.update(i, with_active(fs[i], active(fs[i]) + code))
}


/// The frame stack of a fresh builder: one empty function body.
pub open spec fn empty_frames() -> Seq<FrameV> {
    seq![
        FrameV {
            kind: BlockKind::NoRes,
            in_else: false,
            head: Seq::<InstrV>::empty(),
            tail: Seq::<InstrV>::empty(),
        },
    ]
}

/// Builder `post` differs from `pre` exactly by having emitted `code`.
pub open spec fn emitted(pre: CodeBuilder, post: CodeBuilder, code: Seq<InstrV>) -> bool {
    post.frames_v() == push_onto(pre.frames_v(), code)
}

/// The two builders have the same live scratch locals.
pub open spec fn locals_same(pre: CodeBuilder, post: CodeBuilder) -> bool {
    forall|x: u32| pre.is_live(x) == #[trigger] post.is_live(x)
}

pub broadcast proof fn lemma_push_onto_app(fs: Seq<FrameV>, c1: Seq<InstrV>, c2: Seq<InstrV>)
    requires
        fs.len() >= 1,
    ensures
        #[trigger] push_onto(push_onto(fs, c1), c2) == push_onto(fs, c1 + c2),
{
    let i = fs.len() - 1;
    assert(active(with_active(fs[i], active(fs[i]) + c1)) == active(fs[i]) + c1);
    assert((active(fs[i]) + c1) + c2 =~= active(fs[i]) + (c1 + c2));
    assert(with_active(with_active(fs[i], active(fs[i]) + c1), (active(fs[i]) + c1) + c2)
        == with_active(fs[i], active(fs[i]) + (c1 + c2)));
    assert(push_onto(push_onto(fs, c1), c2) =~= push_onto(fs, c1 + c2));
}

pub proof fn lemma_push_onto_empty(fs: Seq<FrameV>)
    requires
        fs.len() >= 1,
    ensures
        push_onto(fs, Seq::empty()) == fs,
{
    let i = fs.len() - 1;
    assert(active(fs[i]) + Seq::empty() =~= active(fs[i]));
    assert(with_active(fs[i], active(fs[i])) == fs[i]);
    assert(push_onto(fs, Seq::empty()) =~= fs);
}


/// Folding lemma for a complete if/else/end bracket: opening a block,
/// emitting its then branch, switching to else, emitting the else branch
/// and closing the block appends exactly one structured-if instruction.
pub proof fn lemma_if_bracket(
    b1: CodeBuilder,
    b2: CodeBuilder,
    b3: CodeBuilder,
    b4: CodeBuilder,
    b5: CodeBuilder,
    b6: CodeBuilder,
    kind: BlockKind,
    c_then: Seq<InstrV>,
    c_else: Seq<InstrV>,
)
    requires
        b1.frames_v().len() >= 1,
        b2.frames_v() == b1.frames_v().push(
            FrameV {
                kind,
                in_else: false,
                head: Seq::<InstrV>::empty(),
                tail: Seq::<InstrV>::empty(),
            },
        ),
        emitted(b2, b3, c_then),
        b3.frames_v().len() >= 1,
        b4.frames_v() == b3.frames_v().update(
            b3.frames_v().len() - 1,
            FrameV { in_else: true, ..b3.frames_v().last() },
        ),
        emitted(b4, b5, c_else),
        b5.frames_v().len() >= 1,
        b6.frames_v() == push_onto(
            b5.frames_v().drop_last(),
            seq![
                InstrV::IfBlock {
                    kind: b5.frames_v().last().kind,
                    then_code: b5.frames_v().last().head,
                    else_code: b5.frames_v().last().tail,
                },
            ],
        ),
    ensures
        emitted(b1, b6, seq![InstrV::IfBlock { kind, then_code: c_then, else_code: c_else }]),
{
    let f0 = FrameV {
        kind,
        in_else: false,
        head: Seq::<InstrV>::empty(),
        tail: Seq::<InstrV>::empty(),
    };
    assert(b3.frames_v() =~= b1.frames_v().push(
        FrameV { kind, in_else: false, head: Seq::<InstrV>::empty() + c_then, tail: Seq::<InstrV>::empty() },
    ));
    assert(Seq::<InstrV>::empty() + c_then =~= c_then);
    assert(b4.frames_v() =~= b1.frames_v().push(
        FrameV { kind, in_else: true, head: c_then, tail: Seq::<InstrV>::empty() },
    ));
    assert(b5.frames_v() =~= b1.frames_v().push(
        FrameV { kind, in_else: true, head: c_then, tail: Seq::<InstrV>::empty() + c_else },
    ));
    assert(Seq::<InstrV>::empty() + c_else =~= c_else);
    assert(b5.frames_v().drop_last() =~= b1.frames_v());
    assert(b5.frames_v().last().kind == kind);
    assert(b5.frames_v().last().head == c_then);
    assert(b5.frames_v().last().tail == c_else);
}

/// Folding lemma for an if/end bracket without an else branch.
pub proof fn lemma_if_bracket_noelse(
    b1: CodeBuilder,
    b2: CodeBuilder,
    b3: CodeBuilder,
    b4: CodeBuilder,
    kind: BlockKind,
    c_then: Seq<InstrV>,
)
    requires
        b1.frames_v().len() >= 1,
        b2.frames_v() == b1.frames_v().push(
            FrameV {
                kind,
                in_else: false,
                head: Seq::<InstrV>::empty(),
                tail: Seq::<InstrV>::empty(),
            },
        ),
        emitted(b2, b3, c_then),
        b3.frames_v().len() >= 1,
        b4.frames_v() == push_onto(
            b3.frames_v().drop_last(),
            seq![
                InstrV::IfBlock {
                    kind: b3.frames_v().last().kind,
                    then_code: b3.frames_v().last().head,
                    else_code: b3.frames_v().last().tail,
                },
            ],
        ),
    ensures
        emitted(
            b1,
            b4,
            seq![
                InstrV::IfBlock { kind, then_code: c_then, else_code: Seq::<InstrV>::empty() },
            ],
        ),
{
    assert(b3.frames_v() =~= b1.frames_v().push(
        FrameV { kind, in_else: false, head: Seq::<InstrV>::empty() + c_then, tail: Seq::<InstrV>::empty() },
    ));
    assert(Seq::<InstrV>::empty() + c_then =~= c_then);
    assert(b3.frames_v().drop_last() =~= b1.frames_v());
    assert(b3.frames_v().last().kind == kind);
    assert(b3.frames_v().last().head == c_then);
    assert(b3.frames_v().last().tail == Seq::<InstrV>::empty());
}

impl CodeBuilder {
    /// The open-block stack; entry 0 is the function body.
    pub closed spec fn frames_v(self) -> Seq<FrameV> {
        Seq::new(self.frames@.len(), |i: int| frame_v(self.frames@[i]))
    }

    /// Index the next fresh local would get.
    pub closed spec fn next_local(self) -> u32 {
        self.next_local
    }

    pub closed spec fn free_list(self) -> Seq<u32> {
        self.free_list@
    }

    /// Whether local `x` is currently allocated.
    pub open spec fn is_live(self, x: u32) -> bool {
        x < self.next_local() && !self.free_list().contains(x)
    }

    /// Number of open blocks above the function body.
    pub open spec fn depth(self) -> int {
        self.frames_v().len() - 1
    }

    /// At least `k` more locals can be allocated.
    pub open spec fn room(self, k: int) -> bool {
        self.next_local() + k <= u32::MAX
    }

    pub open spec fn wf(self) -> bool {
        &&& self.frames_v().len() >= 1
        &&& !self.frames_v()[0].in_else
        &&& self.locals_wf()
    }

    pub closed spec fn locals_wf(self) -> bool {
        &&& self.free_list@.no_duplicates()
        &&& forall|i: int|
            0 <= i < self.free_list@.len() ==> #[trigger] self.free_list@[i] < self.next_local
    }

    pub proof fn lemma_wf_depth(self)
        requires
            self.wf(),
        ensures
            self.depth() >= 0,
            !self.frames_v()[0].in_else,
    {
    }

    /// A fresh builder holding an empty function body and no locals.
    pub fn new() -> (b: CodeBuilder)
        ensures
            b.wf(),
            b.depth() == 0,
            b.frames_v() == empty_frames(),
            b.next_local() == 0,
            forall|x: u32| !b.is_live(x),
    {
        let mut frames: Vec<Frame> = Vec::new();
        frames.push(
            Frame { kind: BlockKind::NoRes, in_else: false, head: Vec::new(), tail: Vec::new() },
        );
        let b = CodeBuilder { frames, next_local: 0, free_list: Vec::new() };
        proof {
            assert(b.frames_v() =~= empty_frames());
        }
        b
    }

    /// Append one instruction to the active branch of the innermost block.
    fn push_instr(&mut self, i: Instr)
        requires
            old(self).wf(),
        ensures
            final(self).wf(),
            emitted(*old(self), *final(self), seq![iview(i)]),
            final(self).next_local() == old(self).next_local(),
            final(self).free_list() == old(self).free_list(),
            locals_same(*old(self), *final(self)),
            final(self).depth() == old(self).depth(),
    {
        let ghost pre = *self;
        let ghost v = iview(i);
        let n = self.frames.len();
        let mut f = self.frames.pop().unwrap();
        let ghost fv = frame_v(f);
        if f.in_else {
            proof {
                lemma_seq_iview_push(f.tail@, i);
            }
            f.tail.push(i);
        } else {
            proof {
                lemma_seq_iview_push(f.head@, i);
            }
            f.head.push(i);
        }
        proof {
            assert(frame_v(f) == with_active(fv, active(fv).push(v)));
        }
        self.frames.push(f);
        proof {
            assert(active(fv).push(v) =~= active(fv) + seq![v]);
            assert(self.frames_v() =~= push_onto(pre.frames_v(), seq![v]));
        }
    }

    fn alloc_idx(&mut self) -> (x: u32)
        requires
            old(self).wf(),
            old(self).room(1),
        ensures
            final(self).wf(),
            final(self).frames_v() == old(self).frames_v(),
            !old(self).is_live(x),
            final(self).is_live(x),
            forall|y: u32| y != x ==> old(self).is_live(y) == #[trigger] final(self).is_live(y),
            final(self).next_local() <= old(self).next_local() + 1,
            final(self).depth() == old(self).depth(),
    {
        let ghost pre = *self;
        match self.free_list.pop() {
            Some(x) => {
                proof {
                    assert(pre.free_list()[pre.free_list().len() - 1] == x);
                    assert(pre.free_list().contains(x));
                    assert forall|y: u32| y != x implies pre.is_live(y) == #[trigger] self.is_live(
                        y,
                    ) by {
                        if pre.free_list().contains(y) {
                            let j = choose|j: int|
                                0 <= j < pre.free_list().len() && pre.free_list()[j] == y;
                            assert(self.free_list()[j] == y);
                            assert(self.free_list().contains(y));
                        } else {
                            if self.free_list().contains(y) {
                                let j = choose|j: int|
                                    0 <= j < self.free_list().len() && self.free_list()[j] == y;
                                assert(pre.free_list()[j] == y);
                            }
                        }
                    }
                }
                x
            },
            None => {
                let x = self.next_local;
                self.next_local = self.next_local + 1;
                x
            },
        }
    }

    fn free_idx(&mut self, x: u32)
        requires
            old(self).wf(),
            old(self).is_live(x),
        ensures
            final(self).wf(),
            final(self).frames_v() == old(self).frames_v(),
            !final(self).is_live(x),
            forall|y: u32| y != x ==> old(self).is_live(y) == #[trigger] final(self).is_live(y),
            final(self).next_local() == old(self).next_local(),
            final(self).depth() == old(self).depth(),
    {
        let ghost pre = *self;
        self.free_list.push(x);
        proof {
            assert(self.free_list().contains(x)) by {
                assert(self.free_list()[self.free_list().len() - 1] == x);
            }
            assert forall|y: u32| y != x implies pre.is_live(y) == #[trigger] self.is_live(y) by {
                if pre.free_list().contains(y) {
                    let j = choose|j: int|
                        0 <= j < pre.free_list().len() && pre.free_list()[j] == y;
                    assert(self.free_list()[j] == y);
                } else {
                    if self.free_list().contains(y) {
                        let j = choose|j: int|
                            0 <= j < self.free_list().len() && self.free_list()[j] == y;
                        assert(j < pre.free_list().len());
                    }
                }
            }
        }
    }

    /// Allocate a named i32 local without emitting code (used for the
    /// per-block register locals and for call-site value locals).
    pub fn alloc_local(&mut self) -> (l: HostLocal)
        requires
            old(self).wf(),
            old(self).room(1),
        ensures
            final(self).wf(),
            final(self).frames_v() == old(self).frames_v(),
            !old(self).is_live(l.idx),
            final(self).is_live(l.idx),
            forall|y: u32| y != l.idx ==> old(self).is_live(y) == #[trigger] final(self).is_live(y),
            final(self).next_local() <= old(self).next_local() + 1,
            final(self).depth() == old(self).depth(),
    {
        let x = self.alloc_idx();
        HostLocal { idx: x }
    }

    /// Allocate a named i64 local without emitting code.
    pub fn alloc_local_i64(&mut self) -> (l: HostLocalI64)
        requires
            old(self).wf(),
            old(self).room(1),
        ensures
            final(self).wf(),
            final(self).frames_v() == old(self).frames_v(),
            !old(self).is_live(l.idx),
            final(self).is_live(l.idx),
            forall|y: u32| y != l.idx ==> old(self).is_live(y) == #[trigger] final(self).is_live(y),
            final(self).next_local() <= old(self).next_local() + 1,
            final(self).depth() == old(self).depth(),
    {
        let x = self.alloc_idx();
        HostLocalI64 { idx: x }
    }

    /// Pop the stack top into a fresh local.
    pub fn set_new_local(&mut self) -> (l: HostLocal)
        requires
            old(self).wf(),
            old(self).room(1),
        ensures
            final(self).wf(),
            emitted(*old(self), *final(self), seq![InstrV::SetLocal(l.idx)]),
            !old(self).is_live(l.idx),
            final(self).is_live(l.idx),
            forall|y: u32| y != l.idx ==> old(self).is_live(y) == #[trigger] final(self).is_live(y),
            final(self).next_local() <= old(self).next_local() + 1,
            final(self).depth() == old(self).depth(),
    {
        let x = self.alloc_idx();
        self.push_instr(Instr::SetLocal(x));
        HostLocal { idx: x }
    }

    /// Copy the stack top into a fresh local, leaving it on the stack.
    pub fn tee_new_local(&mut self) -> (l: HostLocal)
        requires
            old(self).wf(),
            old(self).room(1),
        ensures
            final(self).wf(),
            emitted(*old(self), *final(self), seq![InstrV::TeeLocal(l.idx)]),
            !old(self).is_live(l.idx),
            final(self).is_live(l.idx),
            forall|y: u32| y != l.idx ==> old(self).is_live(y) == #[trigger] final(self).is_live(y),
            final(self).next_local() <= old(self).next_local() + 1,
            final(self).depth() == old(self).depth(),
    {
        let x = self.alloc_idx();
        self.push_instr(Instr::TeeLocal(x));
        HostLocal { idx: x }
    }

    /// Pop the stack top into a fresh i64 local.
    pub fn set_new_local_i64(&mut self) -> (l: HostLocalI64)
        requires
            old(self).wf(),
            old(self).room(1),
        ensures
            final(self).wf(),
            emitted(*old(self), *final(self), seq![InstrV::SetLocalI64(l.idx)]),
            !old(self).is_live(l.idx),
            final(self).is_live(l.idx),
            forall|y: u32| y != l.idx ==> old(self).is_live(y) == #[trigger] final(self).is_live(y),
            final(self).next_local() <= old(self).next_local() + 1,
            final(self).depth() == old(self).depth(),
    {
        let x = self.alloc_idx();
        self.push_instr(Instr::SetLocalI64(x));
        HostLocalI64 { idx: x }
    }

    /// Release a scratch local.  Emits nothing.
    pub fn free_local(&mut self, l: HostLocal)
        requires
            old(self).wf(),
            old(self).is_live(l.idx),
        ensures
            final(self).wf(),
            final(self).frames_v() == old(self).frames_v(),
            !final(self).is_live(l.idx),
            forall|y: u32| y != l.idx ==> old(self).is_live(y) == #[trigger] final(self).is_live(y),
            final(self).next_local() == old(self).next_local(),
            final(self).depth() == old(self).depth(),
    {
        self.free_idx(l.idx);
    }

    /// Release a scratch i64 local.  Emits nothing.
    pub fn free_local_i64(&mut self, l: HostLocalI64)
        requires
            old(self).wf(),
            old(self).is_live(l.idx),
        ensures
            final(self).wf(),
            final(self).frames_v() == old(self).frames_v(),
            !final(self).is_live(l.idx),
            forall|y: u32| y != l.idx ==> old(self).is_live(y) == #[trigger] final(self).is_live(y),
            final(self).next_local() == old(self).next_local(),
            final(self).depth() == old(self).depth(),
    {
        self.free_idx(l.idx);
    }

    /// Close the builder and return the function body.
    pub fn finish(self) -> (code: Vec<Instr>)
        requires
            self.wf(),
            self.depth() == 0,
        ensures
            seq_iview(code@) == self.frames_v()[0].head,
    {
        let mut frames = self.frames;
        let f = frames.pop().unwrap();
        f.head
    }

    /// Push an i32 constant.
    pub fn const_i32(&mut self, v: i32)
        requires
            old(self).wf(),
        ensures
            final(self).wf(),
            emitted(*old(self), *final(self), seq![iview(Instr::ConstI32(v as u32))]),
            final(self).next_local() == old(self).next_local(),
            final(self).free_list() == old(self).free_list(),
            locals_same(*old(self), *final(self)),
            final(self).depth() == old(self).depth(),
    {
        self.push_instr(Instr::ConstI32(v as u32));
    }

    /// Push an i64 constant.
    pub fn const_i64(&mut self, v: i64)
        requires
            old(self).wf(),
        ensures
            final(self).wf(),
            emitted(*old(self), *final(self), seq![iview(Instr::ConstI64(v as u64))]),
            final(self).next_local() == old(self).next_local(),
            final(self).free_list() == old(self).free_list(),
            locals_same(*old(self), *final(self)),
            final(self).depth() == old(self).depth(),
    {
        self.push_instr(Instr::ConstI64(v as u64));
    }

    /// Pop two i32 values, push their wrapping sum.
    pub fn add_i32(&mut self)
        requires
            old(self).wf(),
        ensures
            final(self).wf(),
            emitted(*old(self), *final(self), seq![iview(Instr::AddI32)]),
            final(self).next_local() == old(self).next_local(),
            final(self).free_list() == old(self).free_list(),
            locals_same(*old(self), *final(self)),
            final(self).depth() == old(self).depth(),
    {
        self.push_instr(Instr::AddI32);
    }

    /// Pop b then a, push the wrapping difference a - b.
    pub fn sub_i32(&mut self)
        requires
            old(self).wf(),
        ensures
            final(self).wf(),
            emitted(*old(self), *final(self), seq![iview(Instr::SubI32)]),
            final(self).next_local() == old(self).next_local(),
            final(self).free_list() == old(self).free_list(),
            locals_same(*old(self), *final(self)),
            final(self).depth() == old(self).depth(),
    {
        self.push_instr(Instr::SubI32);
    }

    /// Pop two i32 values, push their bitwise and.
    pub fn and_i32(&mut self)
        requires
            old(self).wf(),
        ensures
            final(self).wf(),
            emitted(*old(self), *final(self), seq![iview(Instr::AndI32)]),
            final(self).next_local() == old(self).next_local(),
            final(self).free_list() == old(self).free_list(),
            locals_same(*old(self), *final(self)),
            final(self).depth() == old(self).depth(),
    {
        self.push_instr(Instr::AndI32);
    }

    /// Pop two i32 values, push their bitwise or.
    pub fn or_i32(&mut self)
        requires
            old(self).wf(),
        ensures
            final(self).wf(),
            emitted(*old(self), *final(self), seq![iview(Instr::OrI32)]),
            final(self).next_local() == old(self).next_local(),
            final(self).free_list() == old(self).free_list(),
            locals_same(*old(self), *final(self)),
            final(self).depth() == old(self).depth(),
    {
        self.push_instr(Instr::OrI32);
    }

    /// Pop two i32 values, push their bitwise xor.
    pub fn xor_i32(&mut self)
        requires
            old(self).wf(),
        ensures
            final(self).wf(),
            emitted(*old(self), *final(self), seq![iview(Instr::XorI32)]),
            final(self).next_local() == old(self).next_local(),
            final(self).free_list() == old(self).free_list(),
            locals_same(*old(self), *final(self)),
            final(self).depth() == old(self).depth(),
    {
        self.push_instr(Instr::XorI32);
    }

    /// Pop the count then the value, push the left shift.
    pub fn shl_i32(&mut self)
        requires
            old(self).wf(),
        ensures
            final(self).wf(),
            emitted(*old(self), *final(self), seq![iview(Instr::ShlI32)]),
            final(self).next_local() == old(self).next_local(),
            final(self).free_list() == old(self).free_list(),
            locals_same(*old(self), *final(self)),
            final(self).depth() == old(self).depth(),
    {
        self.push_instr(Instr::ShlI32);
    }

    /// Pop the count then the value, push the logical right shift.
    pub fn shr_u_i32(&mut self)
        requires
            old(self).wf(),
        ensures
            final(self).wf(),
            emitted(*old(self), *final(self), seq![iview(Instr::ShrUI32)]),
            final(self).next_local() == old(self).next_local(),
            final(self).free_list() == old(self).free_list(),
            locals_same(*old(self), *final(self)),
            final(self).depth() == old(self).depth(),
    {
        self.push_instr(Instr::ShrUI32);
    }

    /// Pop the count then the value, push the arithmetic right shift.
    pub fn shr_s_i32(&mut self)
        requires
            old(self).wf(),
        ensures
            final(self).wf(),
            emitted(*old(self), *final(self), seq![iview(Instr::ShrSI32)]),
            final(self).next_local() == old(self).next_local(),
            final(self).free_list() == old(self).free_list(),
            locals_same(*old(self), *final(self)),
            final(self).depth() == old(self).depth(),
    {
        self.push_instr(Instr::ShrSI32);
    }

    /// Pop two i32 values, push 1 when they are equal, else 0.
    pub fn eq_i32(&mut self)
        requires
            old(self).wf(),
        ensures
            final(self).wf(),
            emitted(*old(self), *final(self), seq![iview(Instr::EqI32)]),
            final(self).next_local() == old(self).next_local(),
            final(self).free_list() == old(self).free_list(),
            locals_same(*old(self), *final(self)),
            final(self).depth() == old(self).depth(),
    {
        self.push_instr(Instr::EqI32);
    }

    /// Pop b then a, push 1 when a <= b as signed values, else 0.
    pub fn le_i32(&mut self)
        requires
            old(self).wf(),
        ensures
            final(self).wf(),
            emitted(*old(self), *final(self), seq![iview(Instr::LeSI32)]),
            final(self).next_local() == old(self).next_local(),
            final(self).free_list() == old(self).free_list(),
            locals_same(*old(self), *final(self)),
            final(self).depth() == old(self).depth(),
    {
        self.push_instr(Instr::LeSI32);
    }

    /// Pop one i32 value, push 1 when it is 0, else 0.
    pub fn eqz_i32(&mut self)
        requires
            old(self).wf(),
        ensures
            final(self).wf(),
            emitted(*old(self), *final(self), seq![iview(Instr::EqzI32)]),
            final(self).next_local() == old(self).next_local(),
            final(self).free_list() == old(self).free_list(),
            locals_same(*old(self), *final(self)),
            final(self).depth() == old(self).depth(),
    {
        self.push_instr(Instr::EqzI32);
    }

    /// Push the byte at the literal address `addr`.
    pub fn load_u8(&mut self, addr: u32)
        requires
            old(self).wf(),
        ensures
            final(self).wf(),
            emitted(*old(self), *final(self), seq![iview(Instr::LoadU8At(addr))]),
            final(self).next_local() == old(self).next_local(),
            final(self).free_list() == old(self).free_list(),
            locals_same(*old(self), *final(self)),
            final(self).depth() == old(self).depth(),
    {
        self.push_instr(Instr::LoadU8At(addr));
    }

    /// Push the 16-bit value at the literal address `addr`.
    pub fn load_aligned_u16(&mut self, addr: u32)
        requires
            old(self).wf(),
        ensures
            final(self).wf(),
            emitted(*old(self), *final(self), seq![iview(Instr::LoadU16At(addr))]),
            final(self).next_local() == old(self).next_local(),
            final(self).free_list() == old(self).free_list(),
            locals_same(*old(self), *final(self)),
            final(self).depth() == old(self).depth(),
    {
        self.push_instr(Instr::LoadU16At(addr));
    }

    /// Push the 32-bit value at the literal address `addr`.
    pub fn load_aligned_i32(&mut self, addr: u32)
        requires
            old(self).wf(),
        ensures
            final(self).wf(),
            emitted(*old(self), *final(self), seq![iview(Instr::LoadI32At(addr))]),
            final(self).next_local() == old(self).next_local(),
            final(self).free_list() == old(self).free_list(),
            locals_same(*old(self), *final(self)),
            final(self).depth() == old(self).depth(),
    {
        self.push_instr(Instr::LoadI32At(addr));
    }

    /// Pop a base address, push the byte at base + `offset`.
    pub fn load_u8_from_stack(&mut self, offset: u32)
        requires
            old(self).wf(),
        ensures
            final(self).wf(),
            emitted(*old(self), *final(self), seq![iview(Instr::LoadU8(offset))]),
            final(self).next_local() == old(self).next_local(),
            final(self).free_list() == old(self).free_list(),
            locals_same(*old(self), *final(self)),
            final(self).depth() == old(self).depth(),
    {
        self.push_instr(Instr::LoadU8(offset));
    }

    /// Pop a base address, push the 16-bit value at base + `offset`.
    pub fn load_unaligned_u16_from_stack(&mut self, offset: u32)
        requires
            old(self).wf(),
        ensures
            final(self).wf(),
            emitted(*old(self), *final(self), seq![iview(Instr::LoadU16(offset))]),
            final(self).next_local() == old(self).next_local(),
            final(self).free_list() == old(self).free_list(),
            locals_same(*old(self), *final(self)),
            final(self).depth() == old(self).depth(),
    {
        self.push_instr(Instr::LoadU16(offset));
    }

    /// Pop a base address, push the 32-bit value at base + `offset`.
    pub fn load_aligned_i32_from_stack(&mut self, offset: u32)
        requires
            old(self).wf(),
        ensures
            final(self).wf(),
            emitted(*old(self), *final(self), seq![iview(Instr::LoadI32(offset))]),
            final(self).next_local() == old(self).next_local(),
            final(self).free_list() == old(self).free_list(),
            locals_same(*old(self), *final(self)),
            final(self).depth() == old(self).depth(),
    {
        self.push_instr(Instr::LoadI32(offset));
    }

    /// Pop a base address, push the 32-bit value at base + `offset`.
    pub fn load_unaligned_i32_from_stack(&mut self, offset: u32)
        requires
            old(self).wf(),
        ensures
            final(self).wf(),
            emitted(*old(self), *final(self), seq![iview(Instr::LoadI32(offset))]),
            final(self).next_local() == old(self).next_local(),
            final(self).free_list() == old(self).free_list(),
            locals_same(*old(self), *final(self)),
            final(self).depth() == old(self).depth(),
    {
        self.push_instr(Instr::LoadI32(offset));
    }

    /// Pop a base address, push the 64-bit value at base + `offset`.
    pub fn load_unaligned_i64_from_stack(&mut self, offset: u32)
        requires
            old(self).wf(),
        ensures
            final(self).wf(),
            emitted(*old(self), *final(self), seq![iview(Instr::LoadI64(offset))]),
            final(self).next_local() == old(self).next_local(),
            final(self).free_list() == old(self).free_list(),
            locals_same(*old(self), *final(self)),
            final(self).depth() == old(self).depth(),
    {
        self.push_instr(Instr::LoadI64(offset));
    }

    /// Pop the value then the base address, store the low byte at base + `offset`.
    pub fn store_u8(&mut self, offset: u32)
        requires
            old(self).wf(),
        ensures
            final(self).wf(),
            emitted(*old(self), *final(self), seq![iview(Instr::StoreU8(offset))]),
            final(self).next_local() == old(self).next_local(),
            final(self).free_list() == old(self).free_list(),
            locals_same(*old(self), *final(self)),
            final(self).depth() == old(self).depth(),
    {
        self.push_instr(Instr::StoreU8(offset));
    }

    /// Pop the value then the base address, store 16 bits at base + `offset`.
    pub fn store_unaligned_u16(&mut self, offset: u32)
        requires
            old(self).wf(),
        ensures
            final(self).wf(),
            emitted(*old(self), *final(self), seq![iview(Instr::StoreU16(offset))]),
            final(self).next_local() == old(self).next_local(),
            final(self).free_list() == old(self).free_list(),
            locals_same(*old(self), *final(self)),
            final(self).depth() == old(self).depth(),
    {
        self.push_instr(Instr::StoreU16(offset));
    }

    /// Pop the value then the base address, store 32 bits at base + `offset`.
    pub fn store_aligned_i32(&mut self, offset: u32)
        requires
            old(self).wf(),
        ensures
            final(self).wf(),
            emitted(*old(self), *final(self), seq![iview(Instr::StoreI32(offset))]),
            final(self).next_local() == old(self).next_local(),
            final(self).free_list() == old(self).free_list(),
            locals_same(*old(self), *final(self)),
            final(self).depth() == old(self).depth(),
    {
        self.push_instr(Instr::StoreI32(offset));
    }

    /// Pop the value then the base address, store 32 bits at base + `offset`.
    pub fn store_unaligned_i32(&mut self, offset: u32)
        requires
            old(self).wf(),
        ensures
            final(self).wf(),
            emitted(*old(self), *final(self), seq![iview(Instr::StoreI32(offset))]),
            final(self).next_local() == old(self).next_local(),
            final(self).free_list() == old(self).free_list(),
            locals_same(*old(self), *final(self)),
            final(self).depth() == old(self).depth(),
    {
        self.push_instr(Instr::StoreI32(offset));
    }

    /// Pop the i64 value then the base address, store 64 bits at base + `offset`.
    pub fn store_unaligned_i64(&mut self, offset: u32)
        requires
            old(self).wf(),
        ensures
            final(self).wf(),
            emitted(*old(self), *final(self), seq![iview(Instr::StoreI64(offset))]),
            final(self).next_local() == old(self).next_local(),
            final(self).free_list() == old(self).free_list(),
            locals_same(*old(self), *final(self)),
            final(self).depth() == old(self).depth(),
    {
        self.push_instr(Instr::StoreI64(offset));
    }

    /// Break out of `depth + 1` enclosing blocks.
    pub fn br(&mut self, depth: u32)
        requires
            old(self).wf(),
        ensures
            final(self).wf(),
            emitted(*old(self), *final(self), seq![iview(Instr::Br(depth))]),
            final(self).next_local() == old(self).next_local(),
            final(self).free_list() == old(self).free_list(),
            locals_same(*old(self), *final(self)),
            final(self).depth() == old(self).depth(),
    {
        self.push_instr(Instr::Br(depth));
    }

    /// Return from the translation unit.
    pub fn return_(&mut self)
        requires
            old(self).wf(),
        ensures
            final(self).wf(),
            emitted(*old(self), *final(self), seq![iview(Instr::Ret)]),
            final(self).next_local() == old(self).next_local(),
            final(self).free_list() == old(self).free_list(),
            locals_same(*old(self), *final(self)),
            final(self).depth() == old(self).depth(),
    {
        self.push_instr(Instr::Ret);
    }

    /// Call the imported helper `f`; arguments are taken from the stack.
    pub fn call_fn(&mut self, f: HostFn)
        requires
            old(self).wf(),
        ensures
            final(self).wf(),
            emitted(*old(self), *final(self), seq![iview(Instr::Call(f))]),
            final(self).next_local() == old(self).next_local(),
            final(self).free_list() == old(self).free_list(),
            locals_same(*old(self), *final(self)),
            final(self).depth() == old(self).depth(),
    {
        self.push_instr(Instr::Call(f));
    }

    /// Pop an i32, push an f32 with the same bits.
    pub fn reinterpret_i32_as_f32(&mut self)
        requires
            old(self).wf(),
        ensures
            final(self).wf(),
            emitted(*old(self), *final(self), seq![iview(Instr::I32AsF32)]),
            final(self).next_local() == old(self).next_local(),
            final(self).free_list() == old(self).free_list(),
            locals_same(*old(self), *final(self)),
            final(self).depth() == old(self).depth(),
    {
        self.push_instr(Instr::I32AsF32);
    }

    /// Pop an f32, push it widened to f64.
    pub fn promote_f32_to_f64(&mut self)
        requires
            old(self).wf(),
        ensures
            final(self).wf(),
            emitted(*old(self), *final(self), seq![iview(Instr::F32ToF64)]),
            final(self).next_local() == old(self).next_local(),
            final(self).free_list() == old(self).free_list(),
            locals_same(*old(self), *final(self)),
            final(self).depth() == old(self).depth(),
    {
        self.push_instr(Instr::F32ToF64);
    }

    /// Pop an i64, push an f64 with the same bits.
    pub fn reinterpret_i64_as_f64(&mut self)
        requires
            old(self).wf(),
        ensures
            final(self).wf(),
            emitted(*old(self), *final(self), seq![iview(Instr::I64AsF64)]),
            final(self).next_local() == old(self).next_local(),
            final(self).free_list() == old(self).free_list(),
            locals_same(*old(self), *final(self)),
            final(self).depth() == old(self).depth(),
    {
        self.push_instr(Instr::I64AsF64);
    }

    /// Push the value of local `l`.
    pub fn get_local(&mut self, l: &HostLocal)
        requires
            old(self).wf(),
            old(self).is_live(l.idx),
        ensures
            final(self).wf(),
            emitted(*old(self), *final(self), seq![InstrV::GetLocal(l.idx)]),
            final(self).next_local() == old(self).next_local(),
            final(self).free_list() == old(self).free_list(),
            locals_same(*old(self), *final(self)),
            final(self).depth() == old(self).depth(),
    {
        self.push_instr(Instr::GetLocal(l.idx));
    }

    /// Pop the stack top into local `l`.
    pub fn set_local(&mut self, l: &HostLocal)
        requires
            old(self).wf(),
            old(self).is_live(l.idx),
        ensures
            final(self).wf(),
            emitted(*old(self), *final(self), seq![InstrV::SetLocal(l.idx)]),
            final(self).next_local() == old(self).next_local(),
            final(self).free_list() == old(self).free_list(),
            locals_same(*old(self), *final(self)),
            final(self).depth() == old(self).depth(),
    {
        self.push_instr(Instr::SetLocal(l.idx));
    }

    /// Push the value of i64 local `l`.
    pub fn get_local_i64(&mut self, l: &HostLocalI64)
        requires
            old(self).wf(),
            old(self).is_live(l.idx),
        ensures
            final(self).wf(),
            emitted(*old(self), *final(self), seq![InstrV::GetLocalI64(l.idx)]),
            final(self).next_local() == old(self).next_local(),
            final(self).free_list() == old(self).free_list(),
            locals_same(*old(self), *final(self)),
            final(self).depth() == old(self).depth(),
    {
        self.push_instr(Instr::GetLocalI64(l.idx));
    }

    /// Open a structured block of kind `kind` conditioned on a popped i32.
    fn if_block(&mut self, kind: BlockKind)
        requires
            old(self).wf(),
        ensures
            final(self).wf(),
            final(self).frames_v() == old(self).frames_v().push(
                FrameV {
                    kind,
                    in_else: false,
                    head: Seq::<InstrV>::empty(),
                    tail: Seq::<InstrV>::empty(),
                },
            ),
            final(self).next_local() == old(self).next_local(),
            final(self).free_list() == old(self).free_list(),
            locals_same(*old(self), *final(self)),
            final(self).depth() == old(self).depth() + 1,
    {
        let ghost pre = *self;
        self.frames.push(
            Frame { kind, in_else: false, head: Vec::new(), tail: Vec::new() },
        );
        proof {
            assert(self.frames_v() =~= pre.frames_v().push(
                FrameV {
                    kind,
                    in_else: false,
                    head: Seq::<InstrV>::empty(),
                    tail: Seq::<InstrV>::empty(),
                },
            ));
        }
    }

    /// Open an if whose branches leave no value on the stack.
    pub fn if_void(&mut self)
        requires
            old(self).wf(),
        ensures
            final(self).wf(),
            final(self).frames_v() == old(self).frames_v().push(
                FrameV {
                    kind: BlockKind::NoRes,
                    in_else: false,
                    head: Seq::<InstrV>::empty(),
                    tail: Seq::<InstrV>::empty(),
                },
            ),
            final(self).next_local() == old(self).next_local(),
            final(self).free_list() == old(self).free_list(),
            locals_same(*old(self), *final(self)),
            final(self).depth() == old(self).depth() + 1,
    {
        self.if_block(BlockKind::NoRes);
    }

    /// Open an if whose branches leave one i32 on the stack.
    pub fn if_i32(&mut self)
        requires
            old(self).wf(),
        ensures
            final(self).wf(),
            final(self).frames_v() == old(self).frames_v().push(
                FrameV {
                    kind: BlockKind::ResI32,
                    in_else: false,
                    head: Seq::<InstrV>::empty(),
                    tail: Seq::<InstrV>::empty(),
                },
            ),
            final(self).next_local() == old(self).next_local(),
            final(self).free_list() == old(self).free_list(),
            locals_same(*old(self), *final(self)),
            final(self).depth() == old(self).depth() + 1,
    {
        self.if_block(BlockKind::ResI32);
    }

    /// Open an if whose branches leave one i64 on the stack.
    pub fn if_i64(&mut self)
        requires
            old(self).wf(),
        ensures
            final(self).wf(),
            final(self).frames_v() == old(self).frames_v().push(
                FrameV {
                    kind: BlockKind::ResI64,
                    in_else: false,
                    head: Seq::<InstrV>::empty(),
                    tail: Seq::<InstrV>::empty(),
                },
            ),
            final(self).next_local() == old(self).next_local(),
            final(self).free_list() == old(self).free_list(),
            locals_same(*old(self), *final(self)),
            final(self).depth() == old(self).depth() + 1,
    {
        self.if_block(BlockKind::ResI64);
    }

    /// Switch the innermost open if from its then branch to its else
    /// branch.
    pub fn else_(&mut self)
        requires
            old(self).wf(),
            old(self).depth() >= 1,
            !old(self).frames_v().last().in_else,
        ensures
            final(self).wf(),
            final(self).frames_v() == old(self).frames_v().update(
                old(self).frames_v().len() - 1,
                FrameV { in_else: true, ..old(self).frames_v().last() },
            ),
            final(self).next_local() == old(self).next_local(),
            final(self).free_list() == old(self).free_list(),
            locals_same(*old(self), *final(self)),
            final(self).depth() == old(self).depth(),
    {
        let ghost pre = *self;
        let mut f = self.frames.pop().unwrap();
        f.in_else = true;
        self.frames.push(f);
        proof {
            assert(self.frames_v() =~= pre.frames_v().update(
                pre.frames_v().len() - 1,
                FrameV { in_else: true, ..pre.frames_v().last() },
            ));
        }
    }

    /// Close the innermost open block, folding it into a single
    /// structured-if instruction appended to the parent stream.
    pub fn block_end(&mut self)
        requires
            old(self).wf(),
            old(self).depth() >= 1,
        ensures
            final(self).wf(),
            final(self).frames_v() == push_onto(
                old(self).frames_v().drop_last(),
                seq![
                    InstrV::IfBlock {
                        kind: old(self).frames_v().last().kind,
                        then_code: old(self).frames_v().last().head,
                        else_code: old(self).frames_v().last().tail,
                    },
                ],
            ),
            final(self).next_local() == old(self).next_local(),
            final(self).free_list() == old(self).free_list(),
            locals_same(*old(self), *final(self)),
            final(self).depth() == old(self).depth() - 1,
    {
        let ghost pre = *self;
        let f = self.frames.pop().unwrap();
        let ghost mid = *self;
        proof {
            assert(mid.frames_v() =~= pre.frames_v().drop_last());
        }
        let node = Instr::IfBlock { kind: f.kind, then_code: f.head, else_code: f.tail };
        self.push_instr(node);
        proof {
            assert(iview(node) == InstrV::IfBlock {
                kind: pre.frames_v().last().kind,
                then_code: pre.frames_v().last().head,
                else_code: pre.frames_v().last().tail,
            });
        }
    }

    /// Add the constant `n` to the 32-bit variable at literal address
    /// `addr`.
    pub fn increment_variable(&mut self, addr: u32, n: i32)
        requires
            old(self).wf(),
        ensures
            final(self).wf(),
            emitted(
                *old(self),
                *final(self),
                seq![
                    InstrV::ConstI32(addr),
                    InstrV::LoadI32At(addr),
                    InstrV::ConstI32(n as u32),
                    InstrV::AddI32,
                    InstrV::StoreI32(0),
                ],
            ),
            final(self).next_local() == old(self).next_local(),
            final(self).free_list() == old(self).free_list(),
            locals_same(*old(self), *final(self)),
            final(self).depth() == old(self).depth(),
    {
        let ghost b0 = *self;
        self.push_instr(Instr::ConstI32(addr));
        let ghost b1 = *self;
        self.push_instr(Instr::LoadI32At(addr));
        let ghost b2 = *self;
        self.push_instr(Instr::ConstI32(n as u32));
        let ghost b3 = *self;
        self.push_instr(Instr::AddI32);
        let ghost b4 = *self;
        self.push_instr(Instr::StoreI32(0));
        proof {
            lemma_push_onto_app(b0.frames_v(), seq![InstrV::ConstI32(addr)], seq![InstrV::LoadI32At(addr)]);
            lemma_push_onto_app(b0.frames_v(), seq![InstrV::ConstI32(addr), InstrV::LoadI32At(addr)], seq![InstrV::ConstI32(n as u32)]);
            lemma_push_onto_app(
                b0.frames_v(),
                seq![InstrV::ConstI32(addr), InstrV::LoadI32At(addr), InstrV::ConstI32(n as u32)],
                seq![InstrV::AddI32],
            );
            lemma_push_onto_app(
                b0.frames_v(),
                seq![InstrV::ConstI32(addr), InstrV::LoadI32At(addr), InstrV::ConstI32(n as u32), InstrV::AddI32],
                seq![InstrV::StoreI32(0)],
            );
            assert(seq![InstrV::ConstI32(addr)] + seq![InstrV::LoadI32At(addr)] =~= seq![InstrV::ConstI32(addr), InstrV::LoadI32At(addr)]);
            assert(seq![InstrV::ConstI32(addr), InstrV::LoadI32At(addr)] + seq![InstrV::ConstI32(n as u32)] =~= seq![InstrV::ConstI32(addr), InstrV::LoadI32At(addr), InstrV::ConstI32(n as u32)]);
            assert(seq![InstrV::ConstI32(addr), InstrV::LoadI32At(addr), InstrV::ConstI32(n as u32)] + seq![InstrV::AddI32] =~= seq![InstrV::ConstI32(addr), InstrV::LoadI32At(addr), InstrV::ConstI32(n as u32), InstrV::AddI32]);
            assert(seq![InstrV::ConstI32(addr), InstrV::LoadI32At(addr), InstrV::ConstI32(n as u32), InstrV::AddI32] + seq![InstrV::StoreI32(0)] =~= seq![InstrV::ConstI32(addr), InstrV::LoadI32At(addr), InstrV::ConstI32(n as u32), InstrV::AddI32, InstrV::StoreI32(0)]);
        }
    }

    /// Add 1 to the 32-bit variable at literal address `addr`.
    pub fn increment_mem32(&mut self, addr: u32)
        requires
            old(self).wf(),
        ensures
            final(self).wf(),
            emitted(
                *old(self),
                *final(self),
                seq![
                    InstrV::ConstI32(addr),
                    InstrV::LoadI32At(addr),
                    InstrV::ConstI32(1),
                    InstrV::AddI32,
                    InstrV::StoreI32(0),
                ],
            ),
            final(self).next_local() == old(self).next_local(),
            final(self).free_list() == old(self).free_list(),
            locals_same(*old(self), *final(self)),
            final(self).depth() == old(self).depth(),
    {
        self.increment_variable(addr, 1);
    }
}

} // verus!
