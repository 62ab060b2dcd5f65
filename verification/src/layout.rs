//! The global-address catalog: byte offsets of the emulator-state fields
//! inside host linear memory.
//!
//! The layout is fixed at build time and is part of the ABI between the
//! emitted bytecode and the helper functions; the emitter only ever
//! references these offsets, it never rebuilds the layout.

use vstd::prelude::*;

verus! {

// The eight 32-bit general-purpose registers, 4 bytes each, in the x86
// encoding order (EAX, ECX, EDX, EBX, ESP, EBP, ESI, EDI).
pub const REG32_BASE: u32 = 64;

// The six 16-bit segment selectors, 2 bytes each.
pub const SREG_BASE: u32 = 96;

// The six 32-bit segment base offsets, 4 bytes each.
pub const SEG_OFFSET_BASE: u32 = 112;

// The eight 32-bit control registers, 4 bytes each.
pub const CREG_BASE: u32 = 136;

// Linear address of the next instruction.
pub const INSTRUCTION_POINTER: u32 = 168;

// Restored on a fault so the faulting instruction can be re-executed.
pub const PREVIOUS_IP: u32 = 172;

// The architectural EFLAGS word.
pub const FLAGS: u32 = 176;

// Bitmask of flags whose architectural value is stale and must be
// recomputed from the LAST_* fields below.
pub const FLAGS_CHANGED: u32 = 180;

// Lazy-flag inputs: operands and result of the last flag-writing
// operation, and the bit index of its sign bit (7, 15 or 31).
pub const LAST_OP1: u32 = 184;
pub const LAST_OP2: u32 = 188;
pub const LAST_ADD_RESULT: u32 = 192;
pub const LAST_RESULT: u32 = 196;
pub const LAST_OP_SIZE: u32 = 200;

// One byte, set by the slow-path memory helpers on a page fault.
pub const PAGE_FAULT: u32 = 204;

// 64-bit monotonic counter.
pub const TIMESTAMP_COUNTER: u32 = 208;

// Array of 2^20 little-endian i32 TLB entries indexed by
// (virtual_address >> 12).
pub const TLB_DATA: u32 = 0x10000;

// Base of guest physical memory in host linear memory.
pub const MEM8: u32 = 0x410000;

/// Offset of the 32-bit register cell for register index `r`.
pub open spec fn reg32_off(r: u32) -> int {
    REG32_BASE + 4 * r
}

/// Offset of the 16-bit segment selector for segment index `r`.
pub open spec fn sreg_off(r: u32) -> int {
    SREG_BASE + 2 * r
}

/// Offset of the 32-bit segment base for segment index `r`.
pub open spec fn seg_off(r: u32) -> int {
    SEG_OFFSET_BASE + 4 * r
}

/// Offset of the 32-bit control register `i`.
pub open spec fn creg_off(i: u32) -> int {
    CREG_BASE + 4 * i
}

/// Byte offset of the TLB entry for the page of virtual address `a`.
pub open spec fn tlb_entry_off(a: u32) -> int {
    TLB_DATA + 4 * (a >> 12)
}

pub fn get_reg32_offset(r: u32) -> (o: u32)
    requires
        r < 8,
    ensures
        o == reg32_off(r),
{
    REG32_BASE + 4 * r
}

pub fn get_sreg_offset(r: u32) -> (o: u32)
    requires
        r < 6,
    ensures
        o == sreg_off(r),
{
    SREG_BASE + 2 * r
}

pub fn get_seg_offset(r: u32) -> (o: u32)
    requires
        r < 6,
    ensures
        o == seg_off(r),
{
    SEG_OFFSET_BASE + 4 * r
}

pub fn get_creg_offset(i: u32) -> (o: u32)
    requires
        i < 8,
    ensures
        o == creg_off(i),
{
    CREG_BASE + 4 * i
}

} // verus!
