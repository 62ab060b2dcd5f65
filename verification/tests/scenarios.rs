//! End-to-end scenarios: emit bytecode through the public emitters, run
//! it through the verified interpreter against a concrete machine image
//! and a helper script, and check the architectural outcome.

use jitgen::arch;
use jitgen::layout;
use jitgen::ctx::{CpuContext, JitContext};
use jitgen::isa::{HostFn, Val};
use jitgen::runner::{Effect, RunFlow, RunMachine, mem_rd32, mem_wr32, run_code};
use jitgen::emit_basic::{
    gen_get_reg8, gen_get_reg32, gen_set_reg8, gen_set_reg32,
};
use jitgen::emit_flags::{
    LocalOrImmediate, gen_condition_fn, gen_getcf, gen_getzf, gen_set_flags_changed,
    gen_set_last_add_result, gen_set_last_op1, gen_set_last_op2, gen_set_last_op_size,
    gen_set_last_result,
};
use jitgen::emit_mem::{BitSize, gen_safe_read32, gen_safe_read_write_end, gen_safe_read_write_start, gen_safe_write32};
use jitgen::emit_stack::{gen_leave, gen_pop16, gen_push16, gen_push32};

const MEM_SIZE: usize = (layout::MEM8 as usize) + 0x8000;

fn flat32_cpu() -> CpuContext {
    CpuContext { cpl3: false, ssize_32: true, asize_32: true, has_flat_segmentation: true }
}

fn machine(locals: Vec<u64>) -> RunMachine {
    RunMachine { mem: vec![0u8; MEM_SIZE], locals, stack: Vec::new(), calls: Vec::new() }
}

fn set_tlb(mem: &mut Vec<u8>, page: u32, entry: u32) {
    mem_wr32(mem, (layout::TLB_DATA + 4 * page) as usize, entry);
}

fn finish(ctx: JitContext) -> Vec<jitgen::isa::Instr> {
    let JitContext { builder, .. } = ctx;
    builder.finish()
}

#[test]
fn add_al_bl_updates_eax_and_lazy_flags() {
    // ADD AL, BL with EAX=0x11223344, EBX=0x55667788: EAX becomes
    // 0x112233CC; the arithmetic flags are marked stale; CF and ZF both
    // read back as 0.
    let mut ctx = JitContext::new(flat32_cpu(), 0x1000, 2);
    gen_get_reg8(&mut ctx, arch::AL);
    let op1 = ctx.builder.set_new_local();
    gen_get_reg8(&mut ctx, arch::BL);
    let op2 = ctx.builder.set_new_local();
    ctx.builder.get_local(&op1);
    ctx.builder.get_local(&op2);
    ctx.builder.add_i32();
    let res = ctx.builder.tee_new_local();
    gen_set_reg8(&mut ctx, arch::AL);
    gen_set_last_op1(&mut ctx.builder, &op1);
    gen_set_last_op2(&mut ctx.builder, &LocalOrImmediate::WasmLocal(op2));
    gen_set_last_add_result(&mut ctx.builder, &res);
    gen_set_last_result(&mut ctx.builder, &res);
    gen_set_last_op_size(&mut ctx.builder, 7);
    gen_set_flags_changed(&mut ctx.builder, arch::FLAGS_ALL_ARITH as i32);
    gen_getcf(&mut ctx.builder);
    gen_getzf(&mut ctx.builder);
    let code = finish(ctx);

    let mut locals = vec![0u64; 16];
    locals[0] = 0x1122_3344;
    locals[3] = 0x5566_7788;
    let mut m = machine(locals);
    let fl = run_code(&code, &mut m, &Vec::new());
    assert_eq!(fl, RunFlow::Next);
    assert_eq!(m.locals[0], 0x1122_33CC);
    assert_eq!(mem_rd32(&m.mem, layout::FLAGS_CHANGED as usize), arch::FLAGS_ALL_ARITH);
    assert_eq!(m.stack.len(), 2);
    assert_eq!(m.stack[0], Val::I32(0));  // CF
    assert_eq!(m.stack[1], Val::I32(0));  // ZF
    assert!(m.calls.is_empty());
}

#[test]
fn push32_writes_value_below_stack_pointer() {
    // PUSH 0x12345678 with a 32-bit flat stack and ESP=0x1000: ESP drops
    // to 0xFFC and the bytes 78 56 34 12 land at that linear address.
    let mut ctx = JitContext::new(flat32_cpu(), 0x1000, 2);
    ctx.builder.const_i32(0x1234_5678);
    let value = ctx.builder.set_new_local();
    gen_push32(&mut ctx, &value);
    let code = finish(ctx);

    let mut locals = vec![0u64; 16];
    locals[4] = 0x1000;
    let mut m = machine(locals);
    set_tlb(&mut m.mem, 0, arch::TLB_VALID);
    let fl = run_code(&code, &mut m, &Vec::new());
    assert_eq!(fl, RunFlow::Next);
    assert_eq!(m.locals[4], 0xFFC);
    let base = layout::MEM8 as usize + 0xFFC;
    assert_eq!(m.mem[base], 0x78);
    assert_eq!(m.mem[base + 1], 0x56);
    assert_eq!(m.mem[base + 2], 0x34);
    assert_eq!(m.mem[base + 3], 0x12);
    assert!(m.calls.is_empty());
}

#[test]
fn page_crossing_read_takes_slow_path_once() {
    // MOV EAX, [EBX+4] with EBX=0x1FFA: the probed address is 0x1FFE
    // and the 4-byte access crosses into the next page, so the 32-bit
    // slow-path helper is called exactly once with 0x1FFE even though
    // the entry is valid.
    let mut ctx = JitContext::new(flat32_cpu(), 0x1000, 2);
    gen_get_reg32(&mut ctx, arch::EBX);
    ctx.builder.const_i32(4);
    ctx.builder.add_i32();
    let addr = ctx.builder.set_new_local();
    gen_safe_read32(&mut ctx, &addr);
    gen_set_reg32(&mut ctx, arch::EAX);
    let code = finish(ctx);

    let mut locals = vec![0u64; 16];
    locals[3] = 0x1FFA;
    let mut m = machine(locals);
    set_tlb(&mut m.mem, 1, arch::TLB_VALID);
    let oracle = vec![Effect { mem_after: m.mem.clone(), ret: Some(Val::I32(0xAABB_CCDD)) }];
    let fl = run_code(&code, &mut m, &oracle);
    assert_eq!(fl, RunFlow::Next);
    assert_eq!(m.calls.len(), 1);
    assert_eq!(m.calls[0].target, HostFn::SafeRead32Slow);
    assert_eq!(m.calls[0].args, vec![Val::I32(0x1FFE)]);
    assert_eq!(m.locals[0], 0xAABB_CCDD);
}

#[test]
fn jz_after_sub_self_is_taken() {
    // JZ right after SUB EAX, EAX: the recorded result is zero, so the
    // zero-flag predicate of the conditional is 1 (branch taken).
    let mut ctx = JitContext::new(flat32_cpu(), 0x1000, 2);
    gen_get_reg32(&mut ctx, arch::EAX);
    let x = ctx.builder.tee_new_local();
    gen_get_reg32(&mut ctx, arch::EAX);
    ctx.builder.sub_i32();
    let res = ctx.builder.tee_new_local();
    gen_set_reg32(&mut ctx, arch::EAX);
    // subtraction records: op1 = result, op2 = subtrahend, add = minuend
    gen_set_last_op1(&mut ctx.builder, &res);
    gen_set_last_op2(&mut ctx.builder, &LocalOrImmediate::WasmLocal(x));
    gen_set_last_add_result(&mut ctx.builder, &x);
    gen_set_last_result(&mut ctx.builder, &res);
    gen_set_last_op_size(&mut ctx.builder, 31);
    gen_set_flags_changed(&mut ctx.builder, arch::FLAGS_ALL_ARITH as i32);
    gen_condition_fn(&mut ctx, 0x74);
    let code = finish(ctx);

    let mut locals = vec![0u64; 16];
    locals[0] = 0x0000_1234;
    let mut m = machine(locals);
    let fl = run_code(&code, &mut m, &Vec::new());
    assert_eq!(fl, RunFlow::Next);
    assert_eq!(m.locals[0], 0);
    assert_eq!(m.stack, vec![Val::I32(1)]);
}

#[test]
fn leave_restores_frame_and_stack_pointer() {
    // LEAVE with EBP=0x2000, ESP=0x1F00 and 0xDEADBEEF stored at linear
    // 0x2000 under a 32-bit flat stack: EBP becomes 0xDEADBEEF and ESP
    // becomes 0x2004.
    let mut ctx = JitContext::new(flat32_cpu(), 0x1000, 2);
    gen_leave(&mut ctx, true);
    let code = finish(ctx);

    let mut locals = vec![0u64; 16];
    locals[5] = 0x2000;
    locals[4] = 0x1F00;
    let mut m = machine(locals);
    set_tlb(&mut m.mem, 2, arch::TLB_VALID);
    mem_wr32(&mut m.mem, layout::MEM8 as usize + 0x2000, 0xDEAD_BEEF);
    let fl = run_code(&code, &mut m, &Vec::new());
    assert_eq!(fl, RunFlow::Next);
    assert_eq!(m.locals[5], 0xDEAD_BEEF);
    assert_eq!(m.locals[4], 0x2004);
    assert!(m.calls.is_empty());
}

#[test]
fn readonly_page_write_faults_and_bails_out() {
    // MOV [0x3000], EAX with the TLB entry for page 3 marked read-only:
    // the write predicate fails, the slow-path helper runs and raises a
    // page fault, and the emitted check restores the fault instruction
    // pointer and breaks to the translation unit's page-fault catcher.
    let mut ctx = JitContext::new(flat32_cpu(), 0x7ABC, 2);
    ctx.builder.const_i32(0x3000);
    let addr = ctx.builder.set_new_local();
    gen_get_reg32(&mut ctx, arch::EAX);
    let value = ctx.builder.set_new_local();
    gen_safe_write32(&mut ctx, &addr, &value);
    let code = finish(ctx);

    let mut locals = vec![0u64; 16];
    locals[0] = 0xCAFE_F00D;
    let mut m = machine(locals);
    set_tlb(&mut m.mem, 3, arch::TLB_VALID | arch::TLB_READONLY);
    mem_wr32(&mut m.mem, layout::INSTRUCTION_POINTER as usize, 0x0000_7123);
    let mut faulted = m.mem.clone();
    faulted[layout::PAGE_FAULT as usize] = 1;
    let oracle = vec![Effect { mem_after: faulted, ret: None }];
    let fl = run_code(&code, &mut m, &oracle);
    assert_eq!(fl, RunFlow::Branch(0));
    assert_eq!(m.calls.len(), 1);
    assert_eq!(m.calls[0].target, HostFn::SafeWrite32Slow);
    assert_eq!(m.calls[0].args, vec![Val::I32(0x3000), Val::I32(0xCAFE_F00D)]);
    assert_eq!(mem_rd32(&m.mem, layout::PREVIOUS_IP as usize), 0x0000_7ABC);
}

#[test]
fn push16_pop16_round_trip_preserves_sp() {
    // push16(v) followed by pop16() leaves the stack pointer unchanged
    // and yields v & 0xFFFF.
    let mut ctx = JitContext::new(flat32_cpu(), 0x1000, 2);
    ctx.builder.const_i32(0x1234_5678);
    let value = ctx.builder.set_new_local();
    gen_push16(&mut ctx, &value);
    gen_pop16(&mut ctx);
    let code = finish(ctx);

    let mut locals = vec![0u64; 16];
    locals[4] = 0x1000;
    let mut m = machine(locals);
    set_tlb(&mut m.mem, 0, arch::TLB_VALID);
    let fl = run_code(&code, &mut m, &Vec::new());
    assert_eq!(fl, RunFlow::Next);
    assert_eq!(m.locals[4], 0x1000);
    assert_eq!(*m.stack.last().unwrap(), Val::I32(0x5678));
    assert!(m.calls.is_empty());
}

#[test]
fn rmw_slow_read_fault_skips_write_side() {
    // A page fault raised by the slow-path read of a read-modify-write
    // bails out immediately: the transformation and the write side never
    // run, and the only helper call is the read.
    let mut ctx = JitContext::new(flat32_cpu(), 0x1000, 2);
    ctx.builder.const_i32(0x5000);
    let addr = ctx.builder.set_new_local();
    let guard = gen_safe_read_write_start(&mut ctx, BitSize::Dword, &addr);
    ctx.builder.const_i32(1);
    ctx.builder.add_i32();
    gen_safe_read_write_end(&mut ctx, BitSize::Dword, &addr, guard);
    let code = finish(ctx);

    let mut m = machine(vec![0u64; 16]);
    // no TLB entry for page 5: the probe fails
    let mut faulted = m.mem.clone();
    faulted[layout::PAGE_FAULT as usize] = 1;
    let oracle = vec![Effect { mem_after: faulted, ret: Some(Val::I32(0)) }];
    let fl = run_code(&code, &mut m, &oracle);
    assert_eq!(fl, RunFlow::Branch(0));
    assert_eq!(m.calls.len(), 1);
    assert_eq!(m.calls[0].target, HostFn::SafeReadWrite32Slow);
    assert_eq!(m.calls[0].args, vec![Val::I32(0x5000)]);
}

#[test]
fn rmw_impossible_write_fault_reports_bug() {
    // When the slow-path read of a read-modify-write succeeded, a page
    // fault on its slow-path write is impossible; if a helper reports
    // one anyway, the emitted code invokes the defensive bug handler
    // with the access width and address.
    let mut ctx = JitContext::new(flat32_cpu(), 0x1000, 2);
    ctx.builder.const_i32(0x5000);
    let addr = ctx.builder.set_new_local();
    let guard = gen_safe_read_write_start(&mut ctx, BitSize::Dword, &addr);
    ctx.builder.const_i32(1);
    ctx.builder.add_i32();
    gen_safe_read_write_end(&mut ctx, BitSize::Dword, &addr, guard);
    let code = finish(ctx);

    let mut m = machine(vec![0u64; 16]);
    let clean = m.mem.clone();
    let mut faulted = m.mem.clone();
    faulted[layout::PAGE_FAULT as usize] = 1;
    let oracle = vec![
        Effect { mem_after: clean.clone(), ret: Some(Val::I32(7)) },
        Effect { mem_after: faulted, ret: None },
        Effect { mem_after: clean, ret: None },
    ];
    let fl = run_code(&code, &mut m, &oracle);
    assert_eq!(fl, RunFlow::Next);
    assert_eq!(m.calls.len(), 3);
    assert_eq!(m.calls[0].target, HostFn::SafeReadWrite32Slow);
    assert_eq!(m.calls[1].target, HostFn::SafeWrite32Slow);
    assert_eq!(m.calls[1].args, vec![Val::I32(0x5000), Val::I32(8)]);
    assert_eq!(m.calls[2].target, HostFn::BugReadWritePageFault);
    assert_eq!(m.calls[2].args, vec![Val::I32(32), Val::I32(0x5000)]);
}

#[test]
fn rmw_fast_path_reads_and_writes_once() {
    // A valid writable entry lets the read-modify-write run entirely
    // inline: the transformation is applied to the loaded value and
    // stored back to the same physical address, with no helper calls.
    let mut ctx = JitContext::new(flat32_cpu(), 0x1000, 2);
    ctx.builder.const_i32(0x5000);
    let addr = ctx.builder.set_new_local();
    let guard = gen_safe_read_write_start(&mut ctx, BitSize::Dword, &addr);
    ctx.builder.const_i32(1);
    ctx.builder.add_i32();
    gen_safe_read_write_end(&mut ctx, BitSize::Dword, &addr, guard);
    let code = finish(ctx);

    let mut m = machine(vec![0u64; 16]);
    set_tlb(&mut m.mem, 5, arch::TLB_VALID);
    mem_wr32(&mut m.mem, layout::MEM8 as usize + 0x5000, 41);
    let fl = run_code(&code, &mut m, &Vec::new());
    assert_eq!(fl, RunFlow::Next);
    assert!(m.calls.is_empty());
    assert_eq!(mem_rd32(&m.mem, layout::MEM8 as usize + 0x5000), 42);
}

#[test]
fn high_byte_writes_alias_low_halves() {
    // Writing 0xAB to AH and 0xCD to AL leaves the upper half of EAX
    // untouched: EAX = (initial & ~0xFFFF) | 0xABCD.
    let mut ctx = JitContext::new(flat32_cpu(), 0x1000, 2);
    ctx.builder.const_i32(0xAB);
    gen_set_reg8(&mut ctx, arch::AH);
    ctx.builder.const_i32(0xCD);
    gen_set_reg8(&mut ctx, arch::AL);
    gen_get_reg32(&mut ctx, arch::EAX);
    let code = finish(ctx);

    let mut locals = vec![0u64; 16];
    locals[0] = 0x1122_3344;
    let mut m = machine(locals);
    let fl = run_code(&code, &mut m, &Vec::new());
    assert_eq!(fl, RunFlow::Next);
    assert_eq!(m.locals[0], 0x1122_ABCD);
    assert_eq!(*m.stack.last().unwrap(), Val::I32(0x1122_ABCD));
}

#[test]
fn fast_path_read_matches_guest_memory() {
    // A valid entry whose high bits remap the page: the fast-path read
    // returns exactly the guest memory at (entry & ~0xFFF) ^ address.
    let mut ctx = JitContext::new(flat32_cpu(), 0x1000, 2);
    ctx.builder.const_i32(0x6123);
    let addr = ctx.builder.set_new_local();
    gen_safe_read32(&mut ctx, &addr);
    let code = finish(ctx);

    let mut m = machine(vec![0u64; 16]);
    // map virtual page 6 to physical page 2: entry high bits 0x6000 ^ 0x2000
    let entry = (0x6000u32 ^ 0x2000u32) | arch::TLB_VALID;
    set_tlb(&mut m.mem, 6, entry);
    mem_wr32(&mut m.mem, layout::MEM8 as usize + 0x2123, 0x5A5A_1234);
    let fl = run_code(&code, &mut m, &Vec::new());
    assert_eq!(fl, RunFlow::Next);
    assert_eq!(*m.stack.last().unwrap(), Val::I32(0x5A5A_1234));
    assert!(m.calls.is_empty());
}
