use zkvm_syscall::code::SyscallCode;
use zkvm_syscall::context::{ContextState, SyscallContext};
use zkvm_syscall::registry::{default_syscall_map, Capability, Precompiles, SyscallMap};
use zkvm_syscall::syscall::{Syscall, SyscallHalt, SyscallLWA};

/// A circuit that does nothing and declares a given number of extra cycles.
struct Chip {
    cycles: u32,
}

impl Syscall for Chip {
    fn extra_cycles(&self) -> u32 {
        self.cycles
    }

    fn accepts(&self, _ctx: ContextState, _arg1: u32, _arg2: u32) -> bool {
        true
    }

    fn effect(
        &self,
        _before: ContextState,
        _arg1: u32,
        _arg2: u32,
        _after: ContextState,
        _ret: Option<u32>,
    ) -> bool {
        true
    }

    fn execute(&self, _ctx: &mut SyscallContext, _arg1: u32, _arg2: u32) -> Option<u32> {
        None
    }

    fn can_execute(&self, _ctx: &SyscallContext, _arg1: u32, _arg2: u32) -> bool {
        true
    }

    fn num_extra_cycles(&self) -> u32 {
        self.cycles
    }
}

fn chips(cycles: u32) -> Precompiles<Chip> {
    Precompiles {
        sha_extend: Chip { cycles },
        sha_compress: Chip { cycles },
        ed_add: Chip { cycles },
        ed_decompress: Chip { cycles },
        keccak_permute: Chip { cycles },
        secp256k1_add: Chip { cycles },
        secp256k1_double: Chip { cycles },
        secp256k1_decompress: Chip { cycles },
        blake3_compress_inner: Chip { cycles },
    }
}

#[test]
fn test_syscall_num_cycles_encoding() {
    let map = default_syscall_map(chips(128)).ok().unwrap();
    for syscall_code in map.codes() {
        let syscall_impl = map.get(syscall_code).unwrap();
        let syscall_id = syscall_code.to_u32();
        let encoded_num_cycles = syscall_id.to_le_bytes()[2];
        assert_eq!(syscall_impl.num_extra_cycles(), encoded_num_cycles as u32);
    }
}

#[test]
fn default_map_holds_every_code_once() {
    let map = default_syscall_map(chips(128)).ok().unwrap();
    assert_eq!(map.codes(), SyscallCode::all());
    assert_eq!(map.codes().len(), 14);
    for code in SyscallCode::all() {
        assert!(map.contains(code));
    }
    assert!(matches!(map.get(SyscallCode::HALT), Some(Capability::Halt(_))));
    assert!(matches!(map.get(SyscallCode::LWA), Some(Capability::LoadWitness(_))));
    assert!(matches!(map.get(SyscallCode::WRITE), Some(Capability::Write(_))));
    assert!(matches!(
        map.get(SyscallCode::ENTER_UNCONSTRAINED),
        Some(Capability::EnterUnconstrained(_))
    ));
    assert!(matches!(
        map.get(SyscallCode::EXIT_UNCONSTRAINED),
        Some(Capability::ExitUnconstrained(_))
    ));
    assert!(matches!(map.get(SyscallCode::SHA_COMPRESS), Some(Capability::Precompile(_))));
}

#[test]
fn default_map_reports_first_mismatching_circuit() {
    let mut precompiles = chips(128);
    precompiles.keccak_permute = Chip { cycles: 64 };
    precompiles.blake3_compress_inner = Chip { cycles: 0 };
    match default_syscall_map(precompiles) {
        Ok(_) => panic!("a circuit with the wrong cost was installed"),
        Err(code) => assert_eq!(code, SyscallCode::KECCAK_PERMUTE),
    }
    match default_syscall_map(chips(0)) {
        Ok(_) => panic!("a circuit with the wrong cost was installed"),
        Err(code) => assert_eq!(code, SyscallCode::SHA_EXTEND),
    }
}

#[test]
fn insert_refuses_a_cost_that_the_code_does_not_announce() {
    let mut map: SyscallMap<Chip> = SyscallMap::new();
    assert!(!map.insert(SyscallCode::ED_ADD, Capability::Precompile(Chip { cycles: 0 })));
    assert!(!map.contains(SyscallCode::ED_ADD));
    assert!(map.get(SyscallCode::ED_ADD).is_none());
    assert!(map.insert(SyscallCode::ED_ADD, Capability::Precompile(Chip { cycles: 128 })));
    assert!(map.contains(SyscallCode::ED_ADD));
    assert!(!map.insert(SyscallCode::HALT, Capability::Precompile(Chip { cycles: 128 })));
    assert!(map.insert(SyscallCode::HALT, Capability::Halt(SyscallHalt::new())));
    assert_eq!(map.codes(), vec![SyscallCode::HALT, SyscallCode::ED_ADD]);
}

#[test]
fn insert_replaces_the_entry_of_a_code() {
    let mut map: SyscallMap<Chip> = SyscallMap::new();
    assert!(map.insert(SyscallCode::LWA, Capability::Halt(SyscallHalt::new())));
    assert!(matches!(map.get(SyscallCode::LWA), Some(Capability::Halt(_))));
    assert!(map.insert(SyscallCode::LWA, Capability::LoadWitness(SyscallLWA::new())));
    assert!(matches!(map.get(SyscallCode::LWA), Some(Capability::LoadWitness(_))));
    assert_eq!(map.codes(), vec![SyscallCode::LWA]);
}
