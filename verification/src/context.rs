//! The context of one syscall: the only way in which an operation touches
//! the machine.
//!
//! A context borrows the machine for the length of one syscall. Every word
//! that an operation reads or writes through it gets the key made of the
//! shard and the clock of the context, and the clock then moves on by one
//! tick, so that the accesses of a shard are totally ordered.
use vstd::prelude::*;
use crate::machine::{
    byte_of, read_records, words_at, write_records, write_words, MachineState,
};
use crate::record::{ExecutionRecord, MemoryReadRecord, MemoryRecord, MemoryWriteRecord};
use crate::runtime::{Register, Runtime};

verus! {

/// The width of an instruction, by which the program counter moves on after
/// a syscall unless the operation asks for something else.
pub const INSTRUCTION_WIDTH: u32 = 4;

/// The state of a context.
pub struct ContextState {
    /// The shard that was being executed when the syscall began.
    pub shard: u32,
    /// The logical clock of the next access.
    pub clk: u32,
    /// The program counter at which the machine goes on after the syscall.
    pub next_pc: u32,
    /// The state of the machine.
    pub machine: MachineState,
}

impl ContextState {
    /// Whether the context and its machine fit together: the machine meets
    /// its invariant, executes the shard of the context, and its clock is
    /// not ahead of the clock of the context.
    pub open spec fn wf(self) -> bool {
        &&& self.machine.inv()
        &&& self.shard == self.machine.shard
        &&& self.machine.clk <= self.clk
    }

    /// The state in which the context of a syscall starts on `machine`.
    pub open spec fn entry(machine: MachineState) -> ContextState {
        ContextState {
            shard: machine.shard,
            clk: machine.clk,
            next_pc: ((machine.pc + INSTRUCTION_WIDTH) % 0x1_0000_0000) as u32,
            machine,
        }
    }

    /// Whether `count` traced accesses to consecutive words from `addr` on
    /// are in order: the address is word-aligned, the words lie within the
    /// address space, and the clock can take `count` ticks.
    pub open spec fn admits(self, addr: u32, count: nat) -> bool {
        &&& addr % 4 == 0
        &&& addr + 4 * count <= 0x1_0000_0000
        &&& self.clk + count <= u32::MAX
    }

    /// The state after a traced read of the word at `addr`.
    pub open spec fn after_read(self, addr: u32) -> ContextState {
        ContextState {
            clk: (self.clk + 1) as u32,
            machine: self.machine.after_read(addr, self.clk),
            ..self
        }
    }

    /// The state after a traced write of `value` to the word at `addr`.
    pub open spec fn after_write(self, addr: u32, value: u32) -> ContextState {
        ContextState {
            clk: (self.clk + 1) as u32,
            machine: self.machine.after_write(addr, value, self.clk),
            ..self
        }
    }

    /// The state after traced reads of `count` consecutive words from
    /// `addr` on, in ascending order of address.
    pub open spec fn after_reads(self, addr: u32, count: nat) -> ContextState {
        ContextState {
            clk: (self.clk + count) as u32,
            machine: self.machine.after_reads(addr, count, self.clk),
            ..self
        }
    }

    /// The state after traced writes of `values` to consecutive words from
    /// `addr` on, in ascending order of address.
    pub open spec fn after_writes(self, addr: u32, values: Seq<u32>) -> ContextState {
        ContextState {
            clk: (self.clk + values.len()) as u32,
            machine: self.machine.after_writes(addr, values, self.clk),
            ..self
        }
    }

    /// The state after the program halted.
    pub open spec fn after_halt(self) -> ContextState {
        ContextState { machine: self.machine.after_halt(), ..self }
    }

    /// The state after the first word of the witness channel was loaded.
    pub open spec fn after_load(self) -> ContextState {
        ContextState { machine: self.machine.after_load(), ..self }
    }

    /// The state after `values` were appended to the committed output.
    pub open spec fn after_output(self, values: Seq<u32>) -> ContextState {
        ContextState { machine: self.machine.after_output(values), ..self }
    }

    /// The state after entry to unconstrained mode.
    pub open spec fn after_enter(self) -> ContextState {
        ContextState { machine: self.machine.after_enter(), ..self }
    }

    /// The state after exit from unconstrained mode: the machine has what
    /// was set aside at entry back in place, the clock of the context is the
    /// clock of the entry, and the next program counter is one instruction
    /// past the program counter of the entry.
    pub open spec fn after_exit(self) -> ContextState
        recommends
            self.machine.saved is Some,
    {
        ContextState {
            clk: self.machine.saved->0.clk,
            next_pc: ((self.machine.saved->0.pc + INSTRUCTION_WIDTH) % 0x1_0000_0000) as u32,
            machine: self.machine.after_exit(),
            ..self
        }
    }

    /// Whether `self` can follow `before` within one syscall: the shard is
    /// the same and the machine has gone on from where it was.
    pub open spec fn extends(self, before: ContextState) -> bool {
        self.shard == before.shard && self.machine.extends(before.machine)
    }
}

/// A traced access to one word, as an operation asks for it.
pub enum Access {
    /// A read of the word at `addr`.
    Read { addr: u32 },
    /// A write of `value` to the word at `addr`.
    Write { addr: u32, value: u32 },
}

impl ContextState {
    /// The state after one access.
    pub open spec fn after(self, access: Access) -> ContextState {
        match access {
            Access::Read { addr } => self.after_read(addr),
            Access::Write { addr, value } => self.after_write(addr, value),
        }
    }

    /// The state after a sequence of accesses, made in order.
    pub open spec fn after_all(self, accesses: Seq<Access>) -> ContextState
        decreases accesses.len(),
    {
        if accesses.len() == 0 {
            self
        } else {
            self.after_all(accesses.drop_last()).after(accesses.last())
        }
    }
}

/// The value of the last write to `addr` among `accesses`, if there is one.
pub open spec fn last_written(accesses: Seq<Access>, addr: u32) -> Option<u32>
    decreases accesses.len(),
{
    if accesses.len() == 0 {
        None
    } else {
        match accesses.last() {
            Access::Write { addr: a, value } if a == addr => Some(value),
            _ => last_written(accesses.drop_last(), addr),
        }
    }
}

/// Whatever sequence of reads and writes is issued through a context, a read
/// of `addr` that follows it returns the value of the most recent write to
/// `addr` in the sequence, or the value that the memory held before the
/// sequence if nothing in it wrote to `addr`. This holds in constrained and
/// in unconstrained mode alike.
pub proof fn lemma_read_follows_writes(c: ContextState, accesses: Seq<Access>, addr: u32)
    ensures
        c.after_all(accesses).machine.read_record(addr, c.after_all(accesses).clk).value == (
        match last_written(accesses, addr) {
            Some(value) => value,
            None => c.machine.memory[addr],
        }),
        c.after_all(accesses).after_read(addr).machine.memory == c.after_all(
            accesses,
        ).machine.memory,
    decreases accesses.len(),
{
    if accesses.len() > 0 {
        lemma_read_follows_writes(c, accesses.drop_last(), addr);
    }
}

/// Whatever sequence of reads and writes is issued after the machine became
/// unconstrained, the exit leaves the machine as it was before the entry:
/// with the log, the clock, the program counter, the registers and the
/// memory of the entry.
pub proof fn lemma_unconstrained_accesses_discarded(c: ContextState, accesses: Seq<Access>)
    requires
        !c.machine.unconstrained(),
    ensures
        c.after_enter().after_all(accesses).machine.unconstrained(),
        c.after_enter().after_all(accesses).after_exit().machine == c.machine,
        c.after_enter().after_all(accesses).after_exit().clk == c.machine.clk,
    decreases accesses.len(),
{
    if accesses.len() > 0 {
        lemma_unconstrained_accesses_discarded(c, accesses.drop_last());
        let before = c.after_enter().after_all(accesses.drop_last());
    }
}

/// One more read after `count` reads of consecutive words is `count + 1`
/// reads of consecutive words.
pub proof fn lemma_reads_step(c: ContextState, addr: u32, count: nat)
    requires
        c.wf(),
        c.admits(addr, count + 1),
    ensures
        c.after_reads(addr, count).wf(),
        c.after_reads(addr, count).after_read((addr + 4 * count) as u32) == c.after_reads(
            addr,
            count + 1,
        ),
        c.after_reads(addr, count).machine.admits(
            (addr + 4 * count) as u32,
            c.shard,
            (c.clk + count) as u32,
        ),
        c.after_reads(addr, count).extends(c),
    decreases count,
{
    let to_record = |r: MemoryReadRecord| MemoryRecord::Read(r);
    let shorter = read_records(c.machine.memory, addr, count, c.shard, c.clk).map_values(to_record);
    let longer = read_records(c.machine.memory, addr, count + 1, c.shard, c.clk).map_values(
        to_record,
    );
    let now = c.after_reads(addr, count);
    let next = (addr + 4 * count) as u32;
    if count > 0 {
        let fewer = (count - 1) as nat;
        lemma_reads_step(c, addr, fewer);
        let before = c.after_reads(addr, fewer);
        let at = (addr + 4 * fewer) as u32;
        crate::machine::lemma_read_inv(before.machine, at, c.shard, (c.clk + fewer) as u32);
    }
    assert(c.machine.log + longer =~= (c.machine.log + shorter).push(
        MemoryRecord::Read(now.machine.read_record(next, (c.clk + count) as u32)),
    ));
}

/// One more write after the writes of `values` to consecutive words is the
/// writes of `values` with one more value to consecutive words.
pub proof fn lemma_writes_step(c: ContextState, addr: u32, values: Seq<u32>, value: u32)
    requires
        c.wf(),
        c.admits(addr, values.len() + 1),
    ensures
        c.after_writes(addr, values).wf(),
        c.after_writes(addr, values).after_write((addr + 4 * values.len()) as u32, value)
            == c.after_writes(addr, values.push(value)),
        c.after_writes(addr, values).machine.admits(
            (addr + 4 * values.len()) as u32,
            c.shard,
            (c.clk + values.len()) as u32,
        ),
        c.after_writes(addr, values).extends(c),
    decreases values.len(),
{
    let to_record = |w: MemoryWriteRecord| MemoryRecord::Write(w);
    let count = values.len();
    let shorter = write_records(addr, values, c.shard, c.clk).map_values(to_record);
    let longer = write_records(addr, values.push(value), c.shard, c.clk).map_values(to_record);
    let now = c.after_writes(addr, values);
    let next = (addr + 4 * count) as u32;
    if count > 0 {
        let fewer = values.drop_last();
        lemma_writes_step(c, addr, fewer, values.last());
        let before = c.after_writes(addr, fewer);
        let at = (addr + 4 * fewer.len()) as u32;
        crate::machine::lemma_write_inv(
            before.machine,
            at,
            values.last(),
            c.shard,
            (c.clk + fewer.len()) as u32,
        );
        assert(fewer.push(values.last()) =~= values);
    } else {
        assert(write_words(c.machine.memory, addr, values) =~= c.machine.memory);
    }
    assert(c.machine.log + longer =~= (c.machine.log + shorter).push(
        MemoryRecord::Write(now.machine.write_record(next, value, (c.clk + count) as u32)),
    ));
    assert(write_words(c.machine.memory, addr, values.push(value)) =~= write_words(
        c.machine.memory,
        addr,
        values,
    ).insert(next, value));
}

/// The reads of `count` consecutive words from `addr` on, in ascending order
/// of address.
pub open spec fn reads_of(addr: u32, count: nat) -> Seq<Access> {
    Seq::new(count, |i: int| Access::Read { addr: (addr + 4 * i) as u32 })
}

/// The writes of `values` to consecutive words from `addr` on, in ascending
/// order of address.
pub open spec fn writes_of(addr: u32, values: Seq<u32>) -> Seq<Access> {
    Seq::new(values.len(), |i: int| Access::Write { addr: (addr + 4 * i) as u32, value: values[i] })
}

/// Reading a slice is reading its words one by one, in ascending order of
/// address, and nothing else.
pub proof fn lemma_slice_read_is_single_reads(c: ContextState, addr: u32, count: nat)
    requires
        c.wf(),
        c.admits(addr, count),
    ensures
        c.after_reads(addr, count) == c.after_all(reads_of(addr, count)),
    decreases count,
{
    if count > 0 {
        let fewer = (count - 1) as nat;
        lemma_slice_read_is_single_reads(c, addr, fewer);
        lemma_reads_step(c, addr, fewer);
        assert(reads_of(addr, count).drop_last() =~= reads_of(addr, fewer));
    }
}

/// Writing a slice is writing its words one by one, in ascending order of
/// address, and nothing else.
pub proof fn lemma_slice_write_is_single_writes(c: ContextState, addr: u32, values: Seq<u32>)
    requires
        c.wf(),
        c.admits(addr, values.len()),
    ensures
        c.after_writes(addr, values) == c.after_all(writes_of(addr, values)),
    decreases values.len(),
{
    if values.len() > 0 {
        let fewer = values.drop_last();
        lemma_slice_write_is_single_writes(c, addr, fewer);
        lemma_writes_step(c, addr, fewer, values.last());
        assert(fewer.push(values.last()) =~= values);
        assert(writes_of(addr, values).drop_last() =~= writes_of(addr, fewer));
    } else {
        assert(write_words(c.machine.memory, addr, values) =~= c.machine.memory);
    }
}

/// A runtime for syscalls that is protected so that developers cannot
/// arbitrarily modify the machine.
pub struct SyscallContext {
    current_shard: u32,
    /// The logical clock of the next traced access.
    pub clk: u32,
    pub(crate) next_pc: u32,
    pub(crate) rt: Runtime,
}

impl View for SyscallContext {
    type V = ContextState;

    closed spec fn view(&self) -> ContextState {
        ContextState {
            shard: self.current_shard,
            clk: self.clk,
            next_pc: self.next_pc,
            machine: self.rt@,
        }
    }
}

impl SyscallContext {
    /// Whether the storage of the borrowed machine is in order.
    pub closed spec fn storage_wf(&self) -> bool {
        self.rt.storage_wf()
    }

    /// Whether the machine of the context is well formed.
    pub open spec fn wf_machine(&self) -> bool {
        self.storage_wf() && self@.machine.inv()
    }

    /// Whether the context is well formed: the storage of its machine is in
    /// order, and context and machine fit together.
    pub open spec fn wf(&self) -> bool {
        self.storage_wf() && self@.wf()
    }

    /// Starts the context of a syscall on `runtime`: the shard and the clock
    /// are those of the machine, and the next program counter is one
    /// instruction past the current one. The context owns the machine until
    /// `into_runtime` gives it back, so no second context can exist on it.
    pub fn new(runtime: Runtime) -> (ctx: Self)
        requires
            runtime.wf(),
        ensures
            ctx.wf(),
            ctx@ == ContextState::entry(runtime@),
    {
        let current_shard: u32 = runtime.current_shard();
        let clk: u32 = runtime.clk();
        Self { current_shard, clk, next_pc: runtime.pc().wrapping_add(INSTRUCTION_WIDTH), rt: runtime }
    }

    /// Ends the context and gives the machine back.
    pub fn into_runtime(self) -> (runtime: Runtime)
        ensures
            runtime@ == self@.machine,
            runtime.wf() == self.wf_machine(),
    {
        self.rt
    }

    /// Hands out the record of the shard for changes.
    pub fn record_mut(&mut self) -> (record: &mut ExecutionRecord)
        ensures
            record@ == old(self)@.machine.log,
            final(self)@ == (ContextState {
                machine: MachineState { log: final(record)@, ..old(self)@.machine },
                ..old(self)@
            }),
            final(self).storage_wf() == old(self).storage_wf(),
    {
        self.rt.record_mut()
    }

    /// The shard that the machine is executing.
    pub fn current_shard(&self) -> (shard: u32)
        ensures
            shard == self@.machine.shard,
    {
        self.rt.current_shard()
    }

    /// The logical clock of the next traced access.
    pub fn clk(&self) -> (clk: u32)
        ensures
            clk == self@.clk,
    {
        self.clk
    }

    /// The program counter at which the machine goes on after the syscall.
    pub fn next_pc(&self) -> (next_pc: u32)
        ensures
            next_pc == self@.next_pc,
    {
        self.next_pc
    }

    /// Whether the machine is in unconstrained mode.
    pub fn is_unconstrained(&self) -> (unconstrained: bool)
        ensures
            unconstrained == self@.machine.unconstrained(),
    {
        self.rt.is_unconstrained()
    }

    /// The number of witness words that have not been loaded yet.
    pub fn witness_len(&self) -> (n: usize)
        requires
            self.wf(),
        ensures
            n == self@.machine.witness.len(),
    {
        self.rt.witness_len()
    }

    /// Tests whether `len` traced accesses to consecutive words from `addr`
    /// on are in order: whether the address is word-aligned, the words lie
    /// within the address space, and the clock can take `len` ticks.
    pub fn can_access(&self, addr: u32, len: usize) -> (ok: bool)
        ensures
            ok == self@.admits(addr, len as nat),
    {
        if addr % 4 != 0 || len > 0x4000_0000 {
            return false;
        }
        let count: u64 = len as u64;
        (addr as u64) + 4 * count <= 0x1_0000_0000 && (self.clk as u64) + count <= 0xffff_ffff
    }

    /// Reads the word at `addr`. The read gets the clock of the context,
    /// which then moves on by one tick, and is recorded unless the machine
    /// is unconstrained.
    pub fn mr(&mut self, addr: u32) -> (result: (MemoryReadRecord, u32))
        requires
            old(self).wf(),
            old(self)@.admits(addr, 1),
        ensures
            final(self).wf(),
            result.0 == old(self)@.machine.read_record(addr, old(self)@.clk),
            result.1 == old(self)@.machine.memory[addr],
            final(self)@ == old(self)@.after_read(addr),
            final(self)@.extends(old(self)@),
    {
        let record = self.rt.mr(addr, self.current_shard, self.clk);
        self.clk = self.clk + 1;
        (record, record.value)
    }

    /// Reads `len` consecutive words from `addr` on, in ascending order of
    /// address, each as `mr` does.
    pub fn mr_slice(&mut self, addr: u32, len: usize) -> (result: (Vec<MemoryReadRecord>, Vec<u32>))
        requires
            old(self).wf(),
            old(self)@.admits(addr, len as nat),
        ensures
            final(self).wf(),
            result.0@ == read_records(
                old(self)@.machine.memory,
                addr,
                len as nat,
                old(self)@.shard,
                old(self)@.clk,
            ),
            result.1@ == words_at(old(self)@.machine.memory, addr, len as nat),
            final(self)@ == old(self)@.after_reads(addr, len as nat),
            final(self)@.extends(old(self)@),
    {
        let mut records: Vec<MemoryReadRecord> = Vec::new();
        let mut values: Vec<u32> = Vec::new();
        let mut i: usize = 0;
        while i < len
            invariant
                i <= len,
                old(self).wf(),
                old(self)@.admits(addr, len as nat),
                self.wf(),
                self@ == old(self)@.after_reads(addr, i as nat),
                self@.extends(old(self)@),
                records@ == read_records(
                    old(self)@.machine.memory,
                    addr,
                    i as nat,
                    old(self)@.shard,
                    old(self)@.clk,
                ),
                values@ == words_at(old(self)@.machine.memory, addr, i as nat),
            decreases len - i,
        {
            proof {
                lemma_reads_step(old(self)@, addr, i as nat);
            }
            let offset: u32 = (i as u32) * 4;
            let (record, value) = self.mr(addr + offset);
            records.push(record);
            values.push(value);
            i = i + 1;
        }
        (records, values)
    }

    /// Writes `value` to the word at `addr`. The write gets the clock of the
    /// context, which then moves on by one tick, and is recorded unless the
    /// machine is unconstrained. Every later read of `addr` sees `value`
    /// until the next write to `addr`.
    pub fn mw(&mut self, addr: u32, value: u32) -> (record: MemoryWriteRecord)
        requires
            old(self).wf(),
            old(self)@.admits(addr, 1),
        ensures
            final(self).wf(),
            record == old(self)@.machine.write_record(addr, value, old(self)@.clk),
            final(self)@ == old(self)@.after_write(addr, value),
            final(self)@.extends(old(self)@),
    {
        let record = self.rt.mw(addr, value, self.current_shard, self.clk);
        self.clk = self.clk + 1;
        record
    }

    /// Writes `values` to consecutive words from `addr` on, in ascending
    /// order of address, each as `mw` does.
    pub fn mw_slice(&mut self, addr: u32, values: &[u32]) -> (records: Vec<MemoryWriteRecord>)
        requires
            old(self).wf(),
            old(self)@.admits(addr, values@.len()),
        ensures
            final(self).wf(),
            records@ == write_records(addr, values@, old(self)@.shard, old(self)@.clk),
            final(self)@ == old(self)@.after_writes(addr, values@),
            final(self)@.extends(old(self)@),
    {
        let mut records: Vec<MemoryWriteRecord> = Vec::new();
        let mut i: usize = 0;
        proof {
            assert(write_words(old(self)@.machine.memory, addr, values@.take(0))
                =~= old(self)@.machine.memory);
        }
        while i < values.len()
            invariant
                i <= values.len(),
                old(self).wf(),
                old(self)@.admits(addr, values@.len()),
                self.wf(),
                self@ == old(self)@.after_writes(addr, values@.take(i as int)),
                self@.extends(old(self)@),
                records@ == write_records(
                    addr,
                    values@.take(i as int),
                    old(self)@.shard,
                    old(self)@.clk,
                ),
            decreases values.len() - i,
        {
            proof {
                lemma_writes_step(old(self)@, addr, values@.take(i as int), values@[i as int]);
                assert(values@.take(i as int).push(values@[i as int]) =~= values@.take(i + 1));
            }
            let offset: u32 = (i as u32) * 4;
            let record = self.mw(addr + offset, values[i]);
            records.push(record);
            i = i + 1;
        }
        proof {
            assert(values@.take(values@.len() as int) =~= values@);
        }
        records
    }

    /// Get the current value of a register, but doesn't use a memory record.
    /// This is generally unconstrained, so you must be careful using it.
    pub fn register_unsafe(&self, register: Register) -> (value: u32)
        requires
            self.wf(),
        ensures
            value == self@.machine.registers[register.spec_index()],
    {
        self.rt.register(register)
    }

    /// The current value of the byte at `addr`, without a memory record.
    /// Nothing constrains a value that is read this way: use it only where
    /// another record covers it, or where it is meant to stay outside the
    /// memory-consistency argument.
    pub fn byte_unsafe(&self, addr: u32) -> (value: u8)
        ensures
            value == byte_of(self@.machine.memory[(addr - addr % 4) as u32], addr as int % 4),
    {
        self.rt.byte(addr)
    }

    /// The current value of the word at `addr`, without a memory record.
    /// Nothing constrains a value that is read this way: use it only where
    /// another record covers it, or where it is meant to stay outside the
    /// memory-consistency argument.
    pub fn word_unsafe(&self, addr: u32) -> (value: u32)
        requires
            addr % 4 == 0,
        ensures
            value == self@.machine.memory[addr],
    {
        self.rt.word(addr)
    }

    /// The current values of `len` consecutive words from `addr` on, without
    /// memory records. Nothing constrains values that are read this way: use
    /// them only where other records cover them, or where they are meant to
    /// stay outside the memory-consistency argument.
    pub fn slice_unsafe(&self, addr: u32, len: usize) -> (values: Vec<u32>)
        requires
            addr % 4 == 0,
            addr + 4 * len <= 0x1_0000_0000,
        ensures
            values@ == words_at(self@.machine.memory, addr, len as nat),
    {
        let mut values: Vec<u32> = Vec::new();
        let mut i: usize = 0;
        while i < len
            invariant
                i <= len,
                addr % 4 == 0,
                addr + 4 * len <= 0x1_0000_0000,
                values@ == words_at(self@.machine.memory, addr, i as nat),
            decreases len - i,
        {
            let offset: u32 = (i as u32) * 4;
            values.push(self.rt.word(addr + offset));
            i = i + 1;
        }
        values
    }

    /// Marks the program as halted.
    pub(crate) fn halt(&mut self)
        requires
            old(self).wf(),
        ensures
            final(self).wf(),
            final(self)@ == old(self)@.after_halt(),
    {
        self.rt.halt();
    }

    /// Takes the first word of the witness channel.
    pub(crate) fn load_witness(&mut self) -> (word: u32)
        requires
            old(self).wf(),
            old(self)@.machine.witness.len() > 0,
        ensures
            final(self).wf(),
            word == old(self)@.machine.witness[0],
            final(self)@ == old(self)@.after_load(),
    {
        self.rt.load_witness()
    }

    /// Appends `values` to the committed output.
    pub(crate) fn commit_output(&mut self, values: Vec<u32>)
        requires
            old(self).wf(),
        ensures
            final(self).wf(),
            final(self)@ == old(self)@.after_output(values@),
    {
        self.rt.commit_output(values);
    }

    /// Makes the machine unconstrained.
    pub(crate) fn enter_unconstrained(&mut self)
        requires
            old(self).wf(),
            !old(self)@.machine.unconstrained(),
        ensures
            final(self).wf(),
            final(self)@ == old(self)@.after_enter(),
    {
        self.rt.enter_unconstrained();
    }

    /// Makes the machine constrained again and takes the clock and the next
    /// program counter from the state that the machine set aside at entry.
    pub(crate) fn exit_unconstrained(&mut self)
        requires
            old(self).wf(),
            old(self)@.machine.unconstrained(),
        ensures
            final(self).wf(),
            final(self)@ == old(self)@.after_exit(),
    {
        self.rt.exit_unconstrained();
        self.clk = self.rt.clk();
        self.next_pc = self.rt.pc().wrapping_add(INSTRUCTION_WIDTH);
    }

    /// Sets the program counter at which the machine goes on after the
    /// syscall.
    pub fn set_next_pc(&mut self, next_pc: u32)
        ensures
            final(self)@ == (ContextState { next_pc, ..old(self)@ }),
            final(self).storage_wf() == old(self).storage_wf(),
    {
        self.next_pc = next_pc;
    }
}

} // verus!
