//! x86-side constants: register indices, segment indices, control-register
//! bits, EFLAGS bits, and the status bits of a software-TLB entry.

use vstd::prelude::*;

verus! {

// 8-bit register indices.  0..=3 name the low bytes AL/CL/DL/BL of the
// first four 32-bit registers; 4..=7 name the high bytes AH/CH/DH/BH of
// those same four registers.
pub const AL: u32 = 0;
pub const CL: u32 = 1;
pub const DL: u32 = 2;
pub const BL: u32 = 3;
pub const AH: u32 = 4;
pub const CH: u32 = 5;
pub const DH: u32 = 6;
pub const BH: u32 = 7;

// 16-bit register indices (same encoding order as the 32-bit registers).
pub const AX: u32 = 0;
pub const CX: u32 = 1;
pub const DX: u32 = 2;
pub const BX: u32 = 3;
pub const SP: u32 = 4;
pub const BP: u32 = 5;
pub const SI: u32 = 6;
pub const DI: u32 = 7;

// 32-bit register indices in the x86 encoding order.
pub const EAX: u32 = 0;
pub const ECX: u32 = 1;
pub const EDX: u32 = 2;
pub const EBX: u32 = 3;
pub const ESP: u32 = 4;
pub const EBP: u32 = 5;
pub const ESI: u32 = 6;
pub const EDI: u32 = 7;

// Segment register indices.
pub const ES: u32 = 0;
pub const CS: u32 = 1;
pub const SS: u32 = 2;
pub const DS: u32 = 3;
pub const FS: u32 = 4;
pub const GS: u32 = 5;

// Control-register 0 bits relevant to the task-switch precheck.
pub const CR0_EM: u32 = 0x4;
pub const CR0_TS: u32 = 0x8;

// EFLAGS bits.
pub const FLAG_CARRY: u32 = 0x1;
pub const FLAG_PARITY: u32 = 0x4;
pub const FLAG_ADJUST: u32 = 0x10;
pub const FLAG_ZERO: u32 = 0x40;
pub const FLAG_SIGN: u32 = 0x80;
pub const FLAG_OVERFLOW: u32 = 0x800;

// The flags written by the ordinary arithmetic group.
pub const FLAGS_ALL_ARITH: u32 = 0x8d5;

// Status bits in the low 12 bits of a TLB entry.  The high 20 bits of an
// entry, xored with the virtual address, give the offset of the access in
// guest physical memory.
pub const TLB_VALID: u32 = 0x1;
pub const TLB_READONLY: u32 = 0x2;
pub const TLB_NO_USER: u32 = 0x4;
pub const TLB_IN_MAPPED_RANGE: u32 = 0x8;
pub const TLB_GLOBAL: u32 = 0x10;
pub const TLB_HAS_CODE: u32 = 0x20;

} // verus!
