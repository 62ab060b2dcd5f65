//! Structural checks: the emitters append exactly the documented
//! bytecode.

use jitgen::arch;
use jitgen::layout;
use jitgen::ctx::{CpuContext, JitContext};
use jitgen::isa::Instr;
use jitgen::emit_basic::{gen_get_reg8, gen_get_reg16, gen_set_reg16, sign_extend_i8};
use jitgen::emit_mem::bug_gen_safe_read_write_page_fault;

fn fresh() -> JitContext {
    let cpu = CpuContext { cpl3: false, ssize_32: true, asize_32: true, has_flat_segmentation: true };
    JitContext::new(cpu, 0x1000, 2)
}

fn finish(ctx: JitContext) -> Vec<Instr> {
    let JitContext { builder, .. } = ctx;
    builder.finish()
}

#[test]
fn get_reg8_low_masks_the_register_local() {
    let mut ctx = fresh();
    gen_get_reg8(&mut ctx, arch::AL);
    assert_eq!(
        finish(ctx),
        vec![Instr::GetLocal(0), Instr::ConstI32(0xFF), Instr::AndI32],
    );
}

#[test]
fn get_reg8_high_shifts_before_masking() {
    let mut ctx = fresh();
    gen_get_reg8(&mut ctx, arch::CH);
    assert_eq!(
        finish(ctx),
        vec![
            Instr::GetLocal(1),
            Instr::ConstI32(8),
            Instr::ShrUI32,
            Instr::ConstI32(0xFF),
            Instr::AndI32,
        ],
    );
}

#[test]
fn set_reg16_merges_into_high_half() {
    let mut ctx = fresh();
    gen_set_reg16(&mut ctx, arch::DX);
    assert_eq!(
        finish(ctx),
        vec![
            Instr::ConstI32(0xFFFF),
            Instr::AndI32,
            Instr::GetLocal(2),
            Instr::ConstI32(0xFFFF_0000),
            Instr::AndI32,
            Instr::OrI32,
            Instr::SetLocal(2),
        ],
    );
}

#[test]
fn get_reg16_masks_to_sixteen_bits() {
    let mut ctx = fresh();
    gen_get_reg16(&mut ctx, arch::SI);
    assert_eq!(
        finish(ctx),
        vec![Instr::GetLocal(6), Instr::ConstI32(0xFFFF), Instr::AndI32],
    );
}

#[test]
fn sign_extend_byte_is_two_shifts() {
    let mut ctx = fresh();
    sign_extend_i8(&mut ctx.builder);
    assert_eq!(
        finish(ctx),
        vec![
            Instr::ConstI32(24),
            Instr::ShlI32,
            Instr::ConstI32(24),
            Instr::ShrSI32,
        ],
    );
}

#[test]
fn scratch_locals_are_reused_after_release() {
    let mut ctx = fresh();
    let a = ctx.builder.set_new_local();
    let ai = a.idx;
    ctx.builder.free_local(a);
    let b = ctx.builder.set_new_local();
    assert_eq!(b.idx, ai);
    ctx.builder.free_local(b);
    let _ = layout::TLB_DATA;
}

#[test]
fn bug_handler_reports_the_faulting_access() {
    assert_eq!(bug_gen_safe_read_write_page_fault(32, 0x3000), (32, 0x3000));
}
