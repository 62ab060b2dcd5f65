//! Guest-to-host code emitter for an x86 dynamic binary translator.
//!
//! The host target is a stack-based bytecode virtual machine with
//! i32/i64/f32/f64 values and structured control flow.  The emitter turns
//! decoded x86 instruction semantics into host bytecode that mutates a
//! shared emulator-state block: general-purpose registers cached in host
//! locals, segment bases, lazy flags, a software TLB, an instruction
//! pointer, and a linear guest-memory array.
//!
//! Layout of the crate:
//! - [`arch`]: x86-side constants (register indices, flag bits, TLB entry
//!   status bits).
//! - [`layout`]: the global-address catalog, i.e. the byte offsets of the
//!   emulator-state fields inside host memory.
//! - [`isa`]: the host instruction set, host values, and the namespace of
//!   imported helper functions that emitted code may call.
//! - [`builder`]: the host-bytecode builder surface: constants, arithmetic,
//!   loads and stores, structured control flow, typed calls, and a
//!   scratch-local arena.
//! - [`machine`]: the machine model of the host VM and a specification-level
//!   interpreter giving emitted code its meaning.
//! - [`runner`]: an executable interpreter, proved to agree with the
//!   specification-level one.
//! - [`emit_basic`], [`emit_mem`], [`emit_stack`], [`emit_flags`],
//!   [`emit_trap`]: the emitters themselves, each with a contract pinning
//!   down the exact bytecode it appends.
//! - [`laws`]: proofs about the runtime behaviour of the emitted bytecode
//!   (TLB fast/slow paths, stack round trips, register aliasing, lazy-flag
//!   reconstruction).

pub mod arch;
pub mod layout;
pub mod isa;
pub mod builder;
pub mod machine;
pub mod runner;
pub mod ctx;
pub mod emit_basic;
pub mod emit_mem;
pub mod emit_stack;
pub mod emit_flags;
pub mod emit_trap;
pub mod laws;
