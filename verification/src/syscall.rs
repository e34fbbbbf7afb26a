//! The contract of a syscall and the five basic services of the machine.
use vstd::prelude::*;
use crate::context::{ContextState, SyscallContext};
use crate::machine::words_at;

verus! {

/// What every operation that a guest can ask for has to provide.
///
/// An operation says on which inputs it is defined (`accepts`) and how the
/// state of the context after it relates to the state before it and to the
/// value it returns (`effect`). Whatever it does, it leaves the context well
/// formed, stays in the shard, and keeps every access that was recorded
/// before it in place.
pub trait Syscall {
    /// The number of extra cycles that the operation declares.
    spec fn extra_cycles(&self) -> u32;

    /// Whether the operation is defined on a context in state `ctx` with the
    /// arguments `arg1` and `arg2`.
    spec fn accepts(&self, ctx: ContextState, arg1: u32, arg2: u32) -> bool;

    /// Whether the operation, started in state `before` with the arguments
    /// `arg1` and `arg2`, can end in state `after` and return `ret`.
    spec fn effect(
        &self,
        before: ContextState,
        arg1: u32,
        arg2: u32,
        after: ContextState,
        ret: Option<u32>,
    ) -> bool;

    /// Execute the syscall and return the resulting value of register a0.
    /// `arg1` and `arg2` are the values in registers X10 and X11,
    /// respectively. While not a hard requirement, the convention is that
    /// the return value is only for system calls such as `LWA`. Precompiles
    /// use `arg1` and `arg2` to denote the addresses of the input data, and
    /// write the result to the memory at `arg1`.
    fn execute(&self, ctx: &mut SyscallContext, arg1: u32, arg2: u32) -> (ret: Option<u32>)
        requires
            old(ctx).wf(),
            self.accepts(old(ctx)@, arg1, arg2),
        ensures
            final(ctx).wf(),
            final(ctx)@.extends(old(ctx)@),
            self.effect(old(ctx)@, arg1, arg2, final(ctx)@, ret),
    ;

    /// Tests whether the operation is defined on `ctx` with the arguments
    /// `arg1` and `arg2`, for a caller that cannot know it otherwise.
    fn can_execute(&self, ctx: &SyscallContext, arg1: u32, arg2: u32) -> (ok: bool)
        requires
            ctx.wf(),
        ensures
            ok == self.accepts(ctx@, arg1, arg2),
    ;

    /// The number of extra cycles that the syscall takes to execute. Unless
    /// this syscall is complex and requires many cycles, this should be
    /// zero.
    fn num_extra_cycles(&self) -> (cycles: u32)
        ensures
            cycles == self.extra_cycles(),
    ;
}

/// Halts the program.
#[derive(Debug, Copy, Clone)]
pub struct SyscallHalt {}

/// Loads a word from the witness channel.
#[derive(Debug, Copy, Clone)]
pub struct SyscallLWA {}

/// Appends words read from memory to the committed output.
#[derive(Debug, Copy, Clone)]
pub struct SyscallWrite {}

/// Enters unconstrained mode.
#[derive(Debug, Copy, Clone)]
pub struct SyscallEnterUnconstrained {}

/// Exits unconstrained mode.
#[derive(Debug, Copy, Clone)]
pub struct SyscallExitUnconstrained {}

impl SyscallHalt {
    /// The halt service.
    pub fn new() -> (s: Self)
        ensures
            s == (SyscallHalt {  }),
    {
        SyscallHalt {  }
    }
}

impl SyscallLWA {
    /// The witness-load service.
    pub fn new() -> (s: Self)
        ensures
            s == (SyscallLWA {  }),
    {
        SyscallLWA {  }
    }
}

impl SyscallWrite {
    /// The output service.
    pub fn new() -> (s: Self)
        ensures
            s == (SyscallWrite {  }),
    {
        SyscallWrite {  }
    }
}

impl SyscallEnterUnconstrained {
    /// The service that enters unconstrained mode.
    pub fn new() -> (s: Self)
        ensures
            s == (SyscallEnterUnconstrained {  }),
    {
        SyscallEnterUnconstrained {  }
    }
}

impl SyscallExitUnconstrained {
    /// The service that exits unconstrained mode.
    pub fn new() -> (s: Self)
        ensures
            s == (SyscallExitUnconstrained {  }),
    {
        SyscallExitUnconstrained {  }
    }
}

impl Syscall for SyscallHalt {
    open spec fn extra_cycles(&self) -> u32 {
        0
    }

    open spec fn accepts(&self, ctx: ContextState, arg1: u32, arg2: u32) -> bool {
        true
    }

    /// The program is halted; nothing else changes and nothing is returned.
    open spec fn effect(
        &self,
        before: ContextState,
        arg1: u32,
        arg2: u32,
        after: ContextState,
        ret: Option<u32>,
    ) -> bool {
        after == before.after_halt() && ret is None
    }

    fn execute(&self, ctx: &mut SyscallContext, arg1: u32, arg2: u32) -> (ret: Option<u32>) {
        ctx.halt();
        None
    }

    fn can_execute(&self, ctx: &SyscallContext, arg1: u32, arg2: u32) -> (ok: bool) {
        true
    }

    fn num_extra_cycles(&self) -> (cycles: u32) {
        0
    }
}

impl Syscall for SyscallLWA {
    open spec fn extra_cycles(&self) -> u32 {
        0
    }

    /// The witness channel has a word left.
    open spec fn accepts(&self, ctx: ContextState, arg1: u32, arg2: u32) -> bool {
        ctx.machine.witness.len() > 0
    }

    /// The first word of the witness channel is taken and returned. No
    /// memory is read and no access is recorded.
    open spec fn effect(
        &self,
        before: ContextState,
        arg1: u32,
        arg2: u32,
        after: ContextState,
        ret: Option<u32>,
    ) -> bool {
        after == before.after_load() && ret == Some(before.machine.witness[0])
    }

    fn execute(&self, ctx: &mut SyscallContext, arg1: u32, arg2: u32) -> (ret: Option<u32>) {
        let word: u32 = ctx.load_witness();
        Some(word)
    }

    fn can_execute(&self, ctx: &SyscallContext, arg1: u32, arg2: u32) -> (ok: bool) {
        ctx.witness_len() > 0
    }

    fn num_extra_cycles(&self) -> (cycles: u32) {
        0
    }
}

impl Syscall for SyscallWrite {
    open spec fn extra_cycles(&self) -> u32 {
        0
    }

    /// `arg1` is the word-aligned address of a buffer of `arg2` words that
    /// lies within the address space, and the clock can take `arg2` ticks.
    open spec fn accepts(&self, ctx: ContextState, arg1: u32, arg2: u32) -> bool {
        ctx.admits(arg1, arg2 as nat)
    }

    /// The `arg2` words of the buffer at `arg1` are read, in ascending order
    /// of address and each with a record of its own, and appended to the
    /// committed output in that order. Nothing is returned.
    open spec fn effect(
        &self,
        before: ContextState,
        arg1: u32,
        arg2: u32,
        after: ContextState,
        ret: Option<u32>,
    ) -> bool {
        after == before.after_reads(arg1, arg2 as nat).after_output(
            words_at(before.machine.memory, arg1, arg2 as nat),
        ) && ret is None
    }

    fn execute(&self, ctx: &mut SyscallContext, arg1: u32, arg2: u32) -> (ret: Option<u32>) {
        let (_, values) = ctx.mr_slice(arg1, arg2 as usize);
        ctx.commit_output(values);
        None
    }

    fn can_execute(&self, ctx: &SyscallContext, arg1: u32, arg2: u32) -> (ok: bool) {
        ctx.can_access(arg1, arg2 as usize)
    }

    fn num_extra_cycles(&self) -> (cycles: u32) {
        0
    }
}

impl Syscall for SyscallEnterUnconstrained {
    open spec fn extra_cycles(&self) -> u32 {
        0
    }

    /// The machine is not unconstrained yet.
    open spec fn accepts(&self, ctx: ContextState, arg1: u32, arg2: u32) -> bool {
        !ctx.machine.unconstrained()
    }

    /// The machine becomes unconstrained, and 1 is returned.
    open spec fn effect(
        &self,
        before: ContextState,
        arg1: u32,
        arg2: u32,
        after: ContextState,
        ret: Option<u32>,
    ) -> bool {
        after == before.after_enter() && ret == Some(1u32)
    }

    fn execute(&self, ctx: &mut SyscallContext, arg1: u32, arg2: u32) -> (ret: Option<u32>) {
        ctx.enter_unconstrained();
        Some(1)
    }

    fn can_execute(&self, ctx: &SyscallContext, arg1: u32, arg2: u32) -> (ok: bool) {
        !ctx.is_unconstrained()
    }

    fn num_extra_cycles(&self) -> (cycles: u32) {
        0
    }
}

impl Syscall for SyscallExitUnconstrained {
    open spec fn extra_cycles(&self) -> u32 {
        0
    }

    /// The machine is unconstrained.
    open spec fn accepts(&self, ctx: ContextState, arg1: u32, arg2: u32) -> bool {
        ctx.machine.unconstrained()
    }

    /// The machine becomes constrained again, with the state of the entry
    /// back in place, and 0 is returned.
    open spec fn effect(
        &self,
        before: ContextState,
        arg1: u32,
        arg2: u32,
        after: ContextState,
        ret: Option<u32>,
    ) -> bool {
        after == before.after_exit() && ret == Some(0u32)
    }

    fn execute(&self, ctx: &mut SyscallContext, arg1: u32, arg2: u32) -> (ret: Option<u32>) {
        ctx.exit_unconstrained();
        Some(0)
    }

    fn can_execute(&self, ctx: &SyscallContext, arg1: u32, arg2: u32) -> (ok: bool) {
        ctx.is_unconstrained()
    }

    fn num_extra_cycles(&self) -> (cycles: u32) {
        0
    }
}

/// Entering unconstrained mode and leaving it in the next syscall leaves the
/// machine as it was before the entry: no access is recorded in between, and
/// the clock, the program counter, the registers and the memory are those of
/// the entry.
pub proof fn lemma_enter_then_exit_restores(
    before: ContextState,
    entered: ContextState,
    left: ContextState,
    entry_ret: Option<u32>,
    exit_ret: Option<u32>,
    arg1: u32,
    arg2: u32,
)
    requires
        (SyscallEnterUnconstrained {  }).accepts(before, arg1, arg2),
        (SyscallEnterUnconstrained {  }).effect(before, arg1, arg2, entered, entry_ret),
        (SyscallExitUnconstrained {  }).effect(
            ContextState::entry(entered.machine),
            arg1,
            arg2,
            left,
            exit_ret,
        ),
    ensures
        (SyscallExitUnconstrained {  }).accepts(ContextState::entry(entered.machine), arg1, arg2),
        left.machine == before.machine,
        left.machine.log == before.machine.log,
{
    crate::machine::lemma_enter_exit_identity(before.machine);
}

} // verus!
