use zkvm_syscall::code::SyscallCode;
use zkvm_syscall::context::{ContextState, SyscallContext};
use zkvm_syscall::record::{MemoryReadRecord, MemoryRecord, MemoryWriteRecord};
use zkvm_syscall::registry::{
    default_syscall_map, execute_syscall, try_execute_syscall, Capability, Precompiles,
    SyscallFault, SyscallMap,
};
use zkvm_syscall::runtime::{Register, Runtime};
use zkvm_syscall::syscall::{
    Syscall, SyscallEnterUnconstrained, SyscallExitUnconstrained, SyscallHalt, SyscallLWA,
    SyscallWrite,
};

fn log_of(rt: &Runtime) -> Vec<MemoryRecord> {
    let record = rt.record();
    (0..record.len()).map(|i| record.get(i).unwrap()).collect()
}

/// Stands in for a circuit that decompresses a curve point: it reads the
/// two words of the compressed point at `arg1` and writes four words, the
/// two it read and their complements, back to `arg1`.
struct Decompress;

impl Syscall for Decompress {
    fn extra_cycles(&self) -> u32 {
        128
    }

    fn accepts(&self, _ctx: ContextState, _arg1: u32, _arg2: u32) -> bool {
        true
    }

    fn effect(
        &self,
        _before: ContextState,
        _arg1: u32,
        _arg2: u32,
        _after: ContextState,
        _ret: Option<u32>,
    ) -> bool {
        true
    }

    fn execute(&self, ctx: &mut SyscallContext, arg1: u32, _arg2: u32) -> Option<u32> {
        let (_, compressed) = ctx.mr_slice(arg1, 2);
        let point = [compressed[0], compressed[1], !compressed[0], !compressed[1]];
        ctx.mw_slice(arg1, &point);
        None
    }

    fn can_execute(&self, ctx: &SyscallContext, arg1: u32, _arg2: u32) -> bool {
        ctx.can_access(arg1, 4)
    }

    fn num_extra_cycles(&self) -> u32 {
        128
    }
}

fn registry() -> SyscallMap<Decompress> {
    default_syscall_map(Precompiles {
        sha_extend: Decompress,
        sha_compress: Decompress,
        ed_add: Decompress,
        ed_decompress: Decompress,
        keccak_permute: Decompress,
        secp256k1_add: Decompress,
        secp256k1_double: Decompress,
        secp256k1_decompress: Decompress,
        blake3_compress_inner: Decompress,
    })
    .ok()
    .unwrap()
}

#[test]
fn write_output_reads_the_buffer_and_commits_it() {
    let map = registry();
    let mut rt = Runtime::new(0x1000);
    rt.load_word(0x8000, 0x48);
    rt.load_word(0x8004, 0x49);
    rt.load_word(0x8008, 0x21);
    let outcome = execute_syscall(&map, rt, SyscallCode::WRITE.to_u32(), 0x8000, 3);
    assert_eq!(outcome.return_value, None);
    assert_eq!(outcome.next_pc, 0x1004);
    assert_eq!(outcome.clk, 3);
    let rt = outcome.runtime;
    assert_eq!(rt.output(), vec![0x48, 0x49, 0x21]);
    assert_eq!(
        log_of(&rt),
        vec![
            MemoryRecord::Read(MemoryReadRecord { addr: 0x8000, value: 0x48, shard: 1, timestamp: 0 }),
            MemoryRecord::Read(MemoryReadRecord { addr: 0x8004, value: 0x49, shard: 1, timestamp: 1 }),
            MemoryRecord::Read(MemoryReadRecord { addr: 0x8008, value: 0x21, shard: 1, timestamp: 2 }),
        ]
    );
    assert_eq!(rt.word(0x8000), 0x48);
    assert_eq!(rt.word(0x8004), 0x49);
    assert_eq!(rt.word(0x8008), 0x21);
}

#[test]
fn write_output_appends_to_what_is_committed() {
    let mut rt = Runtime::new(0);
    rt.load_word(0x10, 1);
    rt.load_word(0x14, 2);
    let mut ctx = SyscallContext::new(rt);
    assert_eq!(SyscallWrite::new().execute(&mut ctx, 0x10, 2), None);
    assert_eq!(SyscallWrite::new().execute(&mut ctx, 0x14, 1), None);
    assert_eq!(SyscallWrite::new().execute(&mut ctx, 0x14, 0), None);
    let rt = ctx.into_runtime();
    assert_eq!(rt.output(), vec![1, 2, 2]);
    assert_eq!(rt.record().len(), 3);
    assert_eq!(SyscallWrite::new().num_extra_cycles(), 0);
}

#[test]
fn load_witness_word_returns_the_words_of_the_channel_in_turn() {
    let map = registry();
    let mut rt = Runtime::new(0x1000);
    rt.push_witness(0xdead_beef);
    rt.push_witness(7);
    let outcome = execute_syscall(&map, rt, SyscallCode::LWA.to_u32(), 0, 0);
    assert_eq!(outcome.return_value, Some(0xdead_beef));
    assert_eq!(outcome.runtime.record().len(), 0);
    assert_eq!(outcome.runtime.witness_len(), 1);
    assert_eq!(outcome.clk, 0);
    let outcome = execute_syscall(&map, outcome.runtime, SyscallCode::LWA.to_u32(), 0, 0);
    assert_eq!(outcome.return_value, Some(7));
    assert_eq!(outcome.runtime.record().len(), 0);
    assert_eq!(outcome.runtime.witness_len(), 0);
    assert_eq!(outcome.runtime.clk(), 0);
    assert_eq!(outcome.next_pc, 0x1004);
    assert_eq!(SyscallLWA::new().num_extra_cycles(), 0);
}

#[test]
fn decompression_reads_from_and_writes_to_its_first_argument() {
    let map = registry();
    let mut rt = Runtime::new(0x1000);
    rt.load_word(0x4000, 0x1234_5678);
    rt.load_word(0x4004, 0x0000_ffff);
    let before = rt.record().len();
    let code = SyscallCode::SECP256K1_DECOMPRESS;
    assert_eq!(map.get(code).unwrap().num_extra_cycles(), 128);
    assert_eq!(map.get(code).unwrap().num_extra_cycles(), code.extra_cycles_hint());
    let outcome = execute_syscall(&map, rt, code.to_u32(), 0x4000, 0);
    assert_eq!(outcome.return_value, None);
    let rt = outcome.runtime;
    let log = log_of(&rt);
    let made = &log[before..];
    let reads = made.iter().filter(|r| matches!(r, MemoryRecord::Read(_))).count();
    let writes = made.iter().filter(|r| matches!(r, MemoryRecord::Write(_))).count();
    assert_eq!(reads, 2);
    assert_eq!(writes, 4);
    assert_eq!(made[0].addr(), 0x4000);
    assert_eq!(made[2], MemoryRecord::Write(MemoryWriteRecord {
        addr: 0x4000,
        value: 0x1234_5678,
        shard: 1,
        timestamp: 2,
    }));
    assert_eq!(rt.word(0x4000), 0x1234_5678);
    assert_eq!(rt.word(0x4004), 0x0000_ffff);
    assert_eq!(rt.word(0x4008), 0xedcb_a987);
    assert_eq!(rt.word(0x400c), 0xffff_0000);
    for i in 0..log.len() {
        assert_eq!(log[i].timestamp(), i as u32);
    }
}

#[test]
fn entering_and_leaving_unconstrained_mode_changes_nothing() {
    let map = registry();
    let mut rt = Runtime::new(0x1000);
    rt.load_word(0x4000, 5);
    rt.write_register(Register::X5, 55);
    rt.push_witness(9);
    let mut ctx = SyscallContext::new(rt);
    ctx.mw(0x4004, 6);
    let rt = ctx.into_runtime();
    let log = log_of(&rt);
    let outcome = execute_syscall(&map, rt, SyscallCode::ENTER_UNCONSTRAINED.to_u32(), 0, 0);
    assert_eq!(outcome.return_value, Some(1));
    assert!(outcome.runtime.is_unconstrained());
    let outcome =
        execute_syscall(&map, outcome.runtime, SyscallCode::EXIT_UNCONSTRAINED.to_u32(), 0, 0);
    assert_eq!(outcome.return_value, Some(0));
    assert_eq!(outcome.next_pc, 0x1004);
    assert_eq!(outcome.clk, 1);
    let rt = outcome.runtime;
    assert!(!rt.is_unconstrained());
    assert!(!rt.is_halted());
    assert_eq!(log_of(&rt), log);
    assert_eq!(rt.clk(), 1);
    assert_eq!(rt.pc(), 0x1000);
    assert_eq!(rt.word(0x4000), 5);
    assert_eq!(rt.word(0x4004), 6);
    assert_eq!(rt.register(Register::X5), 55);
    assert_eq!(rt.witness_len(), 1);
    assert_eq!(rt.output(), Vec::<u32>::new());
}

#[test]
fn what_happens_in_unconstrained_mode_is_not_recorded_and_is_undone() {
    let mut rt = Runtime::new(0x1000);
    rt.load_word(0x4000, 5);
    let mut ctx = SyscallContext::new(rt);
    ctx.mw(0x4004, 6);
    assert_eq!(SyscallEnterUnconstrained::new().execute(&mut ctx, 0, 0), Some(1));
    assert_eq!(ctx.mr(0x4000).1, 5);
    ctx.mw(0x4000, 50);
    ctx.mw(0x4004, 60);
    ctx.mw(0x4000, 51);
    ctx.mw(0x4008, 70);
    assert_eq!(ctx.mr(0x4000).1, 51);
    assert_eq!(ctx.mr(0x4004).1, 60);
    assert_eq!(ctx.slice_unsafe(0x4000, 3), vec![51, 60, 70]);
    assert_eq!(ctx.clk, 8);
    let mut rt = ctx.into_runtime();
    assert_eq!(rt.record().len(), 1);
    rt.write_register(Register::X7, 77);
    rt.set_pc(0x3000);
    let mut ctx = SyscallContext::new(rt);
    assert_eq!(SyscallExitUnconstrained::new().execute(&mut ctx, 0, 0), Some(0));
    assert_eq!(ctx.clk, 1);
    assert_eq!(ctx.next_pc(), 0x1004);
    assert_eq!(ctx.slice_unsafe(0x4000, 3), vec![5, 6, 0]);
    assert_eq!(ctx.register_unsafe(Register::X7), 0);
    assert_eq!(ctx.mr(0x4004), (MemoryReadRecord { addr: 0x4004, value: 6, shard: 1, timestamp: 1 }, 6));
    let rt = ctx.into_runtime();
    assert!(!rt.is_unconstrained());
    assert_eq!(rt.pc(), 0x1000);
    assert_eq!(rt.record().len(), 2);
    assert_eq!(SyscallEnterUnconstrained::new().num_extra_cycles(), 0);
    assert_eq!(SyscallExitUnconstrained::new().num_extra_cycles(), 0);
}

#[test]
fn halt_stops_the_program() {
    let map = registry();
    let mut rt = Runtime::new(0x1000);
    rt.load_word(0x20, 3);
    let outcome = execute_syscall(&map, rt, SyscallCode::HALT.to_u32(), 0, 0);
    assert_eq!(outcome.return_value, None);
    assert_eq!(outcome.next_pc, 0x1004);
    assert!(outcome.runtime.is_halted());
    assert_eq!(outcome.runtime.record().len(), 0);
    assert_eq!(outcome.runtime.word(0x20), 3);
    assert_eq!(SyscallHalt::new().num_extra_cycles(), 0);
}

#[test]
fn syscalls_in_a_row_share_one_clock() {
    let map = registry();
    let mut rt = Runtime::new(0x1000);
    rt.load_word(0x4000, 1);
    rt.load_word(0x4004, 2);
    let outcome = execute_syscall(&map, rt, SyscallCode::ED_DECOMPRESS.to_u32(), 0x4000, 0);
    assert_eq!(outcome.clk, 6);
    let outcome = execute_syscall(&map, outcome.runtime, SyscallCode::WRITE.to_u32(), 0x4000, 4);
    assert_eq!(outcome.clk, 10);
    let rt = outcome.runtime;
    assert_eq!(rt.output(), vec![1, 2, !1, !2]);
    let log = log_of(&rt);
    assert_eq!(log.len(), 10);
    for i in 0..log.len() {
        assert_eq!(log[i].timestamp(), i as u32);
        assert_eq!(log[i].shard(), 1);
    }
}

#[test]
fn a_value_that_is_no_code_is_a_fault() {
    let map = registry();
    for code in [0u32, 5, 0x00_80_01_09, 0x01_00_00_01, u32::MAX] {
        let result = try_execute_syscall(&map, Runtime::new(0), code, 0, 0);
        assert_eq!(result.err(), Some(SyscallFault::InvalidCode));
    }
}

#[test]
fn a_code_without_an_operation_is_a_fault() {
    let mut map: SyscallMap<Decompress> = SyscallMap::new();
    assert!(map.insert(SyscallCode::HALT, Capability::Halt(SyscallHalt::new())));
    let result = try_execute_syscall(&map, Runtime::new(0), SyscallCode::LWA.to_u32(), 0, 0);
    assert_eq!(result.err(), Some(SyscallFault::Unsupported));
    let result = try_execute_syscall(&map, Runtime::new(0), SyscallCode::HALT.to_u32(), 0, 0);
    assert!(result.ok().unwrap().runtime.is_halted());
}

#[test]
fn unpaired_entry_and_exit_are_faults() {
    let map = registry();
    let exit = SyscallCode::EXIT_UNCONSTRAINED.to_u32();
    let enter = SyscallCode::ENTER_UNCONSTRAINED.to_u32();
    let result = try_execute_syscall(&map, Runtime::new(0), exit, 0, 0);
    assert_eq!(result.err(), Some(SyscallFault::Misuse));
    let outcome = try_execute_syscall(&map, Runtime::new(0), enter, 0, 0).ok().unwrap();
    let result = try_execute_syscall(&map, outcome.runtime, enter, 0, 0);
    assert_eq!(result.err(), Some(SyscallFault::Misuse));
    let outcome = try_execute_syscall(&map, Runtime::new(0), enter, 0, 0).ok().unwrap();
    let outcome = try_execute_syscall(&map, outcome.runtime, exit, 0, 0).ok().unwrap();
    assert_eq!(outcome.return_value, Some(0));
    let result = try_execute_syscall(&map, outcome.runtime, exit, 0, 0);
    assert_eq!(result.err(), Some(SyscallFault::Misuse));
}

#[test]
fn a_misaligned_or_overlong_buffer_is_a_fault() {
    let map = registry();
    let write = SyscallCode::WRITE.to_u32();
    for (addr, count) in [(0x8001u32, 1u32), (0x8002, 0), (0xffff_fffc, 2), (0, 0x4000_0001)] {
        let result = try_execute_syscall(&map, Runtime::new(0), write, addr, count);
        assert_eq!(result.err(), Some(SyscallFault::Misuse));
    }
    let outcome = try_execute_syscall(&map, Runtime::new(0), write, 0xffff_fffc, 1).ok().unwrap();
    assert_eq!(outcome.runtime.output(), vec![0]);
    let outcome = try_execute_syscall(&map, Runtime::new(0), write, 0x8000, 0).ok().unwrap();
    assert_eq!(outcome.runtime.output(), Vec::<u32>::new());
    let result = try_execute_syscall(
        &map,
        Runtime::new(0),
        SyscallCode::ED_DECOMPRESS.to_u32(),
        0x4002,
        0,
    );
    assert_eq!(result.err(), Some(SyscallFault::Misuse));
}

#[test]
fn a_load_from_an_empty_witness_channel_is_a_fault() {
    let map = registry();
    let lwa = SyscallCode::LWA.to_u32();
    let result = try_execute_syscall(&map, Runtime::new(0), lwa, 0, 0);
    assert_eq!(result.err(), Some(SyscallFault::Misuse));
    let mut rt = Runtime::new(0);
    rt.push_witness(4);
    let outcome = try_execute_syscall(&map, rt, lwa, 0, 0).ok().unwrap();
    assert_eq!(outcome.return_value, Some(4));
    let result = try_execute_syscall(&map, outcome.runtime, lwa, 0, 0);
    assert_eq!(result.err(), Some(SyscallFault::Misuse));
}

#[test]
fn the_checked_trap_does_what_the_unchecked_one_does() {
    let map = registry();
    let mut one = Runtime::new(0x40);
    let mut other = Runtime::new(0x40);
    for rt in [&mut one, &mut other] {
        rt.load_word(0x100, 3);
        rt.load_word(0x104, 4);
    }
    let a = execute_syscall(&map, one, SyscallCode::WRITE.to_u32(), 0x100, 2);
    let b = try_execute_syscall(&map, other, SyscallCode::WRITE.to_u32(), 0x100, 2).ok().unwrap();
    assert_eq!(a.return_value, b.return_value);
    assert_eq!(a.next_pc, b.next_pc);
    assert_eq!(a.clk, b.clk);
    assert_eq!(a.runtime.output(), b.runtime.output());
    assert_eq!(log_of(&a.runtime), log_of(&b.runtime));
}
