//! The registry: which operation answers to which code.
//!
//! The five basic services are part of this crate. The precompiled circuits
//! are not: whoever builds a registry supplies one implementation of the
//! syscall contract for each of their codes. An operation is installed under
//! a code only if the number of extra cycles that it declares is the one
//! that the code announces in its cost-class byte, so the two never drift
//! apart in a registry.
use std::collections::HashMap;
use vstd::prelude::*;
use crate::code::{all_codes, SyscallCode};
use crate::context::{ContextState, SyscallContext};
use crate::machine::MachineState;
use crate::runtime::Runtime;
use crate::syscall::{
    Syscall, SyscallEnterUnconstrained, SyscallExitUnconstrained, SyscallHalt, SyscallLWA,
    SyscallWrite,
};

verus! {

broadcast use vstd::std_specs::hash::group_hash_axioms;

/// An operation of the machine: one of the basic services, or a precompiled
/// circuit of type `P`.
pub enum Capability<P> {
    /// Halts the program.
    Halt(SyscallHalt),
    /// Loads a word from the witness channel.
    LoadWitness(SyscallLWA),
    /// Appends words read from memory to the committed output.
    Write(SyscallWrite),
    /// Enters unconstrained mode.
    EnterUnconstrained(SyscallEnterUnconstrained),
    /// Exits unconstrained mode.
    ExitUnconstrained(SyscallExitUnconstrained),
    /// A precompiled circuit.
    Precompile(P),
}

impl<P: Syscall> Syscall for Capability<P> {
    open spec fn extra_cycles(&self) -> u32 {
        match self {
            Capability::Halt(s) => s.extra_cycles(),
            Capability::LoadWitness(s) => s.extra_cycles(),
            Capability::Write(s) => s.extra_cycles(),
            Capability::EnterUnconstrained(s) => s.extra_cycles(),
            Capability::ExitUnconstrained(s) => s.extra_cycles(),
            Capability::Precompile(p) => p.extra_cycles(),
        }
    }

    open spec fn accepts(&self, ctx: ContextState, arg1: u32, arg2: u32) -> bool {
        match self {
            Capability::Halt(s) => s.accepts(ctx, arg1, arg2),
            Capability::LoadWitness(s) => s.accepts(ctx, arg1, arg2),
            Capability::Write(s) => s.accepts(ctx, arg1, arg2),
            Capability::EnterUnconstrained(s) => s.accepts(ctx, arg1, arg2),
            Capability::ExitUnconstrained(s) => s.accepts(ctx, arg1, arg2),
            Capability::Precompile(p) => p.accepts(ctx, arg1, arg2),
        }
    }

    open spec fn effect(
        &self,
        before: ContextState,
        arg1: u32,
        arg2: u32,
        after: ContextState,
        ret: Option<u32>,
    ) -> bool {
        match self {
            Capability::Halt(s) => s.effect(before, arg1, arg2, after, ret),
            Capability::LoadWitness(s) => s.effect(before, arg1, arg2, after, ret),
            Capability::Write(s) => s.effect(before, arg1, arg2, after, ret),
            Capability::EnterUnconstrained(s) => s.effect(before, arg1, arg2, after, ret),
            Capability::ExitUnconstrained(s) => s.effect(before, arg1, arg2, after, ret),
            Capability::Precompile(p) => p.effect(before, arg1, arg2, after, ret),
        }
    }

    fn execute(&self, ctx: &mut SyscallContext, arg1: u32, arg2: u32) -> (ret: Option<u32>) {
        match self {
            Capability::Halt(s) => s.execute(ctx, arg1, arg2),
            Capability::LoadWitness(s) => s.execute(ctx, arg1, arg2),
            Capability::Write(s) => s.execute(ctx, arg1, arg2),
            Capability::EnterUnconstrained(s) => s.execute(ctx, arg1, arg2),
            Capability::ExitUnconstrained(s) => s.execute(ctx, arg1, arg2),
            Capability::Precompile(p) => p.execute(ctx, arg1, arg2),
        }
    }

    fn can_execute(&self, ctx: &SyscallContext, arg1: u32, arg2: u32) -> (ok: bool) {
        match self {
            Capability::Halt(s) => s.can_execute(ctx, arg1, arg2),
            Capability::LoadWitness(s) => s.can_execute(ctx, arg1, arg2),
            Capability::Write(s) => s.can_execute(ctx, arg1, arg2),
            Capability::EnterUnconstrained(s) => s.can_execute(ctx, arg1, arg2),
            Capability::ExitUnconstrained(s) => s.can_execute(ctx, arg1, arg2),
            Capability::Precompile(p) => p.can_execute(ctx, arg1, arg2),
        }
    }

    fn num_extra_cycles(&self) -> (cycles: u32) {
        match self {
            Capability::Halt(s) => s.num_extra_cycles(),
            Capability::LoadWitness(s) => s.num_extra_cycles(),
            Capability::Write(s) => s.num_extra_cycles(),
            Capability::EnterUnconstrained(s) => s.num_extra_cycles(),
            Capability::ExitUnconstrained(s) => s.num_extra_cycles(),
            Capability::Precompile(p) => p.num_extra_cycles(),
        }
    }
}

/// A mapping from syscall codes to operations.
pub struct SyscallMap<P> {
    entries: HashMap<u32, Capability<P>>,
}

impl<P> View for SyscallMap<P> {
    type V = Map<SyscallCode, Capability<P>>;

    closed spec fn view(&self) -> Map<SyscallCode, Capability<P>> {
        Map::new(
            |code: SyscallCode| self.entries@.contains_key(code.raw()),
            |code: SyscallCode| self.entries@[code.raw()],
        )
    }
}

impl<P: Syscall> SyscallMap<P> {
    /// Whether every operation of the registry declares the number of extra
    /// cycles that its code announces.
    pub open spec fn wf(&self) -> bool {
        forall|code: SyscallCode| #[trigger]
            self@.contains_key(code) ==> self@[code].extra_cycles() == code.cost_class()
    }

    /// Whether the registry holds an operation for every code.
    pub open spec fn complete(&self) -> bool {
        forall|code: SyscallCode| #[trigger] self@.contains_key(code)
    }

    /// A registry without entries.
    pub fn new() -> (map: Self)
        ensures
            map.wf(),
            map@ == Map::<SyscallCode, Capability<P>>::empty(),
    {
        let map = SyscallMap { entries: HashMap::new() };
        map
    }

    /// Installs `capability` under `code`, in place of what was there, if it
    /// declares the number of extra cycles that `code` announces. If it does
    /// not, the registry stays as it is.
    pub fn insert(&mut self, code: SyscallCode, capability: Capability<P>) -> (installed: bool)
        requires
            old(self).wf(),
        ensures
            final(self).wf(),
            installed == (capability.extra_cycles() == code.cost_class()),
            final(self)@ == (if installed {
                old(self)@.insert(code, capability)
            } else {
                old(self)@
            }),
    {
        if capability.num_extra_cycles() == code.extra_cycles_hint() {
            self.entries.insert(code.to_u32(), capability);
            proof {
                assert(self@ =~= old(self)@.insert(code, capability));
            }
            true
        } else {
            false
        }
    }

    /// The operation installed under `code`, if there is one.
    pub fn get(&self, code: SyscallCode) -> (capability: Option<&Capability<P>>)
        ensures
            match capability {
                Some(c) => self@.contains_key(code) && *c == self@[code],
                None => !self@.contains_key(code),
            },
    {
        self.entries.get(&code.to_u32())
    }

    /// Whether an operation is installed under `code`.
    pub fn contains(&self, code: SyscallCode) -> (found: bool)
        ensures
            found == self@.contains_key(code),
    {
        self.entries.contains_key(&code.to_u32())
    }

    /// The codes under which an operation is installed, each once, in the
    /// order in which the code space declares them.
    pub fn codes(&self) -> (codes: Vec<SyscallCode>)
        ensures
            codes@ == all_codes().filter(|code: SyscallCode| self@.contains_key(code)),
    {
        let all = SyscallCode::all();
        let ghost installed = |code: SyscallCode| self@.contains_key(code);
        let mut codes: Vec<SyscallCode> = Vec::new();
        let mut i: usize = 0;
        while i < all.len()
            invariant
                i <= all.len(),
                all@ == all_codes(),
                installed == |code: SyscallCode| self@.contains_key(code),
                codes@ == all@.take(i as int).filter(installed),
            decreases all.len() - i,
        {
            let code = all[i];
            proof {
                reveal(Seq::filter);
                assert(all@.take(i + 1).drop_last() =~= all@.take(i as int));
            }
            if self.contains(code) {
                codes.push(code);
            }
            i = i + 1;
        }
        proof {
            assert(all@.take(all.len() as int) =~= all@);
        }
        codes
    }
}

/// In a well-formed registry the number of extra cycles that a code
/// announces is the number that the operation installed under it declares.
pub proof fn lemma_registry_costs_match<P: Syscall>(map: SyscallMap<P>, code: SyscallCode)
    requires
        map.wf(),
        map@.contains_key(code),
    ensures
        map@[code].extra_cycles() == code.cost_class(),
{
}

/// What a trap leaves behind: the machine, the value for the return
/// register if the operation returned one, the program counter at which the
/// machine goes on, and the clock that the context had reached.
pub struct SyscallOutcome {
    /// The machine after the syscall.
    pub runtime: Runtime,
    /// The value that the operation returned, if it returned one.
    pub return_value: Option<u32>,
    /// The program counter at which the machine goes on.
    pub next_pc: u32,
    /// The logical clock that the context had reached.
    pub clk: u32,
}

impl SyscallOutcome {
    /// The state in which the context of the syscall ended.
    pub open spec fn context(self) -> ContextState {
        ContextState {
            shard: self.runtime@.shard,
            clk: self.clk,
            next_pc: self.next_pc,
            machine: self.runtime@,
        }
    }
}

/// Serves a trap: decodes `code`, looks the operation up in `map`, starts a
/// context on `runtime`, lets the operation run with `arg1` and `arg2`, and
/// hands back what it left. A value that is no code, a code without an
/// operation and arguments that the operation does not accept are faults of
/// the guest program; the caller has to rule them out.
pub fn execute_syscall<P: Syscall>(
    map: &SyscallMap<P>,
    runtime: Runtime,
    code: u32,
    arg1: u32,
    arg2: u32,
) -> (outcome: SyscallOutcome)
    requires
        runtime.wf(),
        SyscallCode::is_assigned(code),
        map@.contains_key(SyscallCode::decode(code)),
        map@[SyscallCode::decode(code)].accepts(ContextState::entry(runtime@), arg1, arg2),
    ensures
        outcome.runtime.wf(),
        outcome.context().wf(),
        outcome.context().extends(ContextState::entry(runtime@)),
        map@[SyscallCode::decode(code)].effect(
            ContextState::entry(runtime@),
            arg1,
            arg2,
            outcome.context(),
            outcome.return_value,
        ),
{
    let syscall_code = SyscallCode::from_u32(code);
    let mut ctx = SyscallContext::new(runtime);
    let return_value = match map.get(syscall_code) {
        Some(capability) => capability.execute(&mut ctx, arg1, arg2),
        None => None,
    };
    let next_pc: u32 = ctx.next_pc();
    let clk: u32 = ctx.clk();
    SyscallOutcome { runtime: ctx.into_runtime(), return_value, next_pc, clk }
}

/// Why a trap was not served. Each of these ends the execution.
#[derive(Debug, Copy, Clone, PartialEq, Eq, Structural)]
pub enum SyscallFault {
    /// The value in the trap register is not a syscall code.
    InvalidCode,
    /// The registry holds no operation for the code.
    Unsupported,
    /// The operation is not defined on the machine as it is with the
    /// arguments it was given: unconstrained mode was entered twice or left
    /// without having been entered, or a buffer is misaligned or out of
    /// range.
    Misuse,
}

/// The fault, if any, with which the trap with the raw code `code` and the
/// arguments `arg1` and `arg2` ends on `machine`.
pub open spec fn fault_of<P: Syscall>(
    map: SyscallMap<P>,
    machine: MachineState,
    code: u32,
    arg1: u32,
    arg2: u32,
) -> Option<SyscallFault> {
    if !SyscallCode::is_assigned(code) {
        Some(SyscallFault::InvalidCode)
    } else if !map@.contains_key(SyscallCode::decode(code)) {
        Some(SyscallFault::Unsupported)
    } else if !map@[SyscallCode::decode(code)].accepts(ContextState::entry(machine), arg1, arg2) {
        Some(SyscallFault::Misuse)
    } else {
        None
    }
}

/// Serves a trap as `execute_syscall` does, after testing what
/// `execute_syscall` asks of its caller. Where one of the tests fails the
/// machine is given up and the fault is returned.
pub fn try_execute_syscall<P: Syscall>(
    map: &SyscallMap<P>,
    runtime: Runtime,
    code: u32,
    arg1: u32,
    arg2: u32,
) -> (result: Result<SyscallOutcome, SyscallFault>)
    requires
        runtime.wf(),
    ensures
        match result {
            Ok(outcome) => {
                &&& fault_of(*map, runtime@, code, arg1, arg2) is None
                &&& outcome.runtime.wf()
                &&& outcome.context().wf()
                &&& outcome.context().extends(ContextState::entry(runtime@))
                &&& map@[SyscallCode::decode(code)].effect(
                    ContextState::entry(runtime@),
                    arg1,
                    arg2,
                    outcome.context(),
                    outcome.return_value,
                )
            },
            Err(fault) => fault_of(*map, runtime@, code, arg1, arg2) == Some(fault),
        },
{
    let syscall_code = match SyscallCode::try_from_u32(code) {
        Some(syscall_code) => syscall_code,
        None => {
            return Err(SyscallFault::InvalidCode);
        },
    };
    let capability = match map.get(syscall_code) {
        Some(capability) => capability,
        None => {
            return Err(SyscallFault::Unsupported);
        },
    };
    let mut ctx = SyscallContext::new(runtime);
    if !capability.can_execute(&ctx, arg1, arg2) {
        return Err(SyscallFault::Misuse);
    }
    let return_value = capability.execute(&mut ctx, arg1, arg2);
    let next_pc: u32 = ctx.next_pc();
    let clk: u32 = ctx.clk();
    Ok(SyscallOutcome { runtime: ctx.into_runtime(), return_value, next_pc, clk })
}

/// One precompiled circuit for each code of the precompile family.
pub struct Precompiles<P> {
    /// The circuit for `SHA_EXTEND`.
    pub sha_extend: P,
    /// The circuit for `SHA_COMPRESS`.
    pub sha_compress: P,
    /// The circuit for `ED_ADD`.
    pub ed_add: P,
    /// The circuit for `ED_DECOMPRESS`.
    pub ed_decompress: P,
    /// The circuit for `KECCAK_PERMUTE`.
    pub keccak_permute: P,
    /// The circuit for `SECP256K1_ADD`.
    pub secp256k1_add: P,
    /// The circuit for `SECP256K1_DOUBLE`.
    pub secp256k1_double: P,
    /// The circuit for `SECP256K1_DECOMPRESS`.
    pub secp256k1_decompress: P,
    /// The circuit for `BLAKE3_COMPRESS_INNER`.
    pub blake3_compress_inner: P,
}

impl<P: Syscall> Precompiles<P> {
    /// The operation that the default registry holds under `code`.
    pub open spec fn capability(self, code: SyscallCode) -> Capability<P> {
        match code {
            SyscallCode::HALT => Capability::Halt(SyscallHalt {  }),
            SyscallCode::LWA => Capability::LoadWitness(SyscallLWA {  }),
            SyscallCode::WRITE => Capability::Write(SyscallWrite {  }),
            SyscallCode::ENTER_UNCONSTRAINED => Capability::EnterUnconstrained(
                SyscallEnterUnconstrained {  },
            ),
            SyscallCode::EXIT_UNCONSTRAINED => Capability::ExitUnconstrained(
                SyscallExitUnconstrained {  },
            ),
            SyscallCode::SHA_EXTEND => Capability::Precompile(self.sha_extend),
            SyscallCode::SHA_COMPRESS => Capability::Precompile(self.sha_compress),
            SyscallCode::ED_ADD => Capability::Precompile(self.ed_add),
            SyscallCode::ED_DECOMPRESS => Capability::Precompile(self.ed_decompress),
            SyscallCode::KECCAK_PERMUTE => Capability::Precompile(self.keccak_permute),
            SyscallCode::SECP256K1_ADD => Capability::Precompile(self.secp256k1_add),
            SyscallCode::SECP256K1_DOUBLE => Capability::Precompile(self.secp256k1_double),
            SyscallCode::SECP256K1_DECOMPRESS => Capability::Precompile(self.secp256k1_decompress),
            SyscallCode::BLAKE3_COMPRESS_INNER => Capability::Precompile(
                self.blake3_compress_inner,
            ),
        }
    }

    /// Whether the operation for `code` declares another number of extra
    /// cycles than `code` announces.
    pub open spec fn mismatch(self, code: SyscallCode) -> bool {
        self.capability(code).extra_cycles() != code.cost_class()
    }

    /// The first code, in the order in which the default registry installs
    /// the circuits, whose circuit declares another number of extra cycles
    /// than the code announces.
    pub open spec fn first_mismatch(self) -> Option<SyscallCode> {
        if self.mismatch(SyscallCode::SHA_EXTEND) {
            Some(SyscallCode::SHA_EXTEND)
        } else if self.mismatch(SyscallCode::SHA_COMPRESS) {
            Some(SyscallCode::SHA_COMPRESS)
        } else if self.mismatch(SyscallCode::ED_ADD) {
            Some(SyscallCode::ED_ADD)
        } else if self.mismatch(SyscallCode::ED_DECOMPRESS) {
            Some(SyscallCode::ED_DECOMPRESS)
        } else if self.mismatch(SyscallCode::KECCAK_PERMUTE) {
            Some(SyscallCode::KECCAK_PERMUTE)
        } else if self.mismatch(SyscallCode::SECP256K1_ADD) {
            Some(SyscallCode::SECP256K1_ADD)
        } else if self.mismatch(SyscallCode::SECP256K1_DOUBLE) {
            Some(SyscallCode::SECP256K1_DOUBLE)
        } else if self.mismatch(SyscallCode::SECP256K1_DECOMPRESS) {
            Some(SyscallCode::SECP256K1_DECOMPRESS)
        } else if self.mismatch(SyscallCode::BLAKE3_COMPRESS_INNER) {
            Some(SyscallCode::BLAKE3_COMPRESS_INNER)
        } else {
            None
        }
    }
}

/// Builds the default registry: the five basic services and the given
/// circuits, each under its own code and no code twice. The registry is
/// built unless a circuit declares another number of extra cycles than its
/// code announces; the first such code is then returned.
pub fn default_syscall_map<P: Syscall>(precompiles: Precompiles<P>) -> (result: Result<
    SyscallMap<P>,
    SyscallCode,
>)
    ensures
        match result {
            Ok(map) => {
                &&& precompiles.first_mismatch() is None
                &&& map.wf()
                &&& map.complete()
                &&& map@ == Map::total(|code: SyscallCode| precompiles.capability(code))
            },
            Err(code) => precompiles.first_mismatch() == Some(code),
        },
{
    let mut syscall_map = SyscallMap::<P>::new();
    syscall_map.insert(SyscallCode::HALT, Capability::Halt(SyscallHalt::new()));
    syscall_map.insert(SyscallCode::LWA, Capability::LoadWitness(SyscallLWA::new()));
    if !syscall_map.insert(SyscallCode::SHA_EXTEND, Capability::Precompile(precompiles.sha_extend)) {
        return Err(SyscallCode::SHA_EXTEND);
    }
    if !syscall_map.insert(
        SyscallCode::SHA_COMPRESS,
        Capability::Precompile(precompiles.sha_compress),
    ) {
        return Err(SyscallCode::SHA_COMPRESS);
    }
    if !syscall_map.insert(SyscallCode::ED_ADD, Capability::Precompile(precompiles.ed_add)) {
        return Err(SyscallCode::ED_ADD);
    }
    if !syscall_map.insert(
        SyscallCode::ED_DECOMPRESS,
        Capability::Precompile(precompiles.ed_decompress),
    ) {
        return Err(SyscallCode::ED_DECOMPRESS);
    }
    if !syscall_map.insert(
        SyscallCode::KECCAK_PERMUTE,
        Capability::Precompile(precompiles.keccak_permute),
    ) {
        return Err(SyscallCode::KECCAK_PERMUTE);
    }
    if !syscall_map.insert(
        SyscallCode::SECP256K1_ADD,
        Capability::Precompile(precompiles.secp256k1_add),
    ) {
        return Err(SyscallCode::SECP256K1_ADD);
    }
    if !syscall_map.insert(
        SyscallCode::SECP256K1_DOUBLE,
        Capability::Precompile(precompiles.secp256k1_double),
    ) {
        return Err(SyscallCode::SECP256K1_DOUBLE);
    }
    if !syscall_map.insert(
        SyscallCode::SECP256K1_DECOMPRESS,
        Capability::Precompile(precompiles.secp256k1_decompress),
    ) {
        return Err(SyscallCode::SECP256K1_DECOMPRESS);
    }
    if !syscall_map.insert(
        SyscallCode::BLAKE3_COMPRESS_INNER,
        Capability::Precompile(precompiles.blake3_compress_inner),
    ) {
        return Err(SyscallCode::BLAKE3_COMPRESS_INNER);
    }
    syscall_map.insert(
        SyscallCode::ENTER_UNCONSTRAINED,
        Capability::EnterUnconstrained(SyscallEnterUnconstrained::new()),
    );
    syscall_map.insert(
        SyscallCode::EXIT_UNCONSTRAINED,
        Capability::ExitUnconstrained(SyscallExitUnconstrained::new()),
    );
    syscall_map.insert(SyscallCode::WRITE, Capability::Write(SyscallWrite::new()));
    Ok(syscall_map)
}

} // verus!
