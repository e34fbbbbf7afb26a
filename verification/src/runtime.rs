//! The machine that syscalls act on: registers, memory, the witness channel,
//! the committed output, and the record of the shard that is being executed.
use std::collections::HashMap;
use vstd::prelude::*;
use crate::machine::{
    byte_of, lemma_enter_inv, lemma_exit_inv, lemma_read_inv, lemma_write_inv, MachineState,
    Snapshot, NUM_REGISTERS,
};
use crate::record::{ExecutionRecord, MemoryReadRecord, MemoryRecord, MemoryWriteRecord};
use crate::trace::zeroed;

verus! {

broadcast use vstd::std_specs::hash::group_hash_axioms;

/// A register of the machine.
#[derive(Debug, Copy, Clone, PartialEq, Eq, Structural)]
pub enum Register {
    /// Register `x0`.
    X0,
    /// Register `x1`.
    X1,
    /// Register `x2`.
    X2,
    /// Register `x3`.
    X3,
    /// Register `x4`.
    X4,
    /// Register `x5`.
    X5,
    /// Register `x6`.
    X6,
    /// Register `x7`.
    X7,
    /// Register `x8`.
    X8,
    /// Register `x9`.
    X9,
    /// Register `x10`.
    X10,
    /// Register `x11`.
    X11,
    /// Register `x12`.
    X12,
    /// Register `x13`.
    X13,
    /// Register `x14`.
    X14,
    /// Register `x15`.
    X15,
    /// Register `x16`.
    X16,
    /// Register `x17`.
    X17,
    /// Register `x18`.
    X18,
    /// Register `x19`.
    X19,
    /// Register `x20`.
    X20,
    /// Register `x21`.
    X21,
    /// Register `x22`.
    X22,
    /// Register `x23`.
    X23,
    /// Register `x24`.
    X24,
    /// Register `x25`.
    X25,
    /// Register `x26`.
    X26,
    /// Register `x27`.
    X27,
    /// Register `x28`.
    X28,
    /// Register `x29`.
    X29,
    /// Register `x30`.
    X30,
    /// Register `x31`.
    X31,
}

impl Register {
    /// The number of the register.
    pub open spec fn spec_index(self) -> int {
        match self {
            Register::X0 => 0,
            Register::X1 => 1,
            Register::X2 => 2,
            Register::X3 => 3,
            Register::X4 => 4,
            Register::X5 => 5,
            Register::X6 => 6,
            Register::X7 => 7,
            Register::X8 => 8,
            Register::X9 => 9,
            Register::X10 => 10,
            Register::X11 => 11,
            Register::X12 => 12,
            Register::X13 => 13,
            Register::X14 => 14,
            Register::X15 => 15,
            Register::X16 => 16,
            Register::X17 => 17,
            Register::X18 => 18,
            Register::X19 => 19,
            Register::X20 => 20,
            Register::X21 => 21,
            Register::X22 => 22,
            Register::X23 => 23,
            Register::X24 => 24,
            Register::X25 => 25,
            Register::X26 => 26,
            Register::X27 => 27,
            Register::X28 => 28,
            Register::X29 => 29,
            Register::X30 => 30,
            Register::X31 => 31,
        }
    }

    /// The number of the register.
    pub fn index(self) -> (i: usize)
        ensures
            i == self.spec_index(),
            i < NUM_REGISTERS,
    {
        match self {
            Register::X0 => 0,
            Register::X1 => 1,
            Register::X2 => 2,
            Register::X3 => 3,
            Register::X4 => 4,
            Register::X5 => 5,
            Register::X6 => 6,
            Register::X7 => 7,
            Register::X8 => 8,
            Register::X9 => 9,
            Register::X10 => 10,
            Register::X11 => 11,
            Register::X12 => 12,
            Register::X13 => 13,
            Register::X14 => 14,
            Register::X15 => 15,
            Register::X16 => 16,
            Register::X17 => 17,
            Register::X18 => 18,
            Register::X19 => 19,
            Register::X20 => 20,
            Register::X21 => 21,
            Register::X22 => 22,
            Register::X23 => 23,
            Register::X24 => 24,
            Register::X25 => 25,
            Register::X26 => 26,
            Register::X27 => 27,
            Register::X28 => 28,
            Register::X29 => 29,
            Register::X30 => 30,
            Register::X31 => 31,
        }
    }
}

/// The part of the machine that instructions change.
pub struct ExecutionState {
    pub(crate) clk: u32,
    pub(crate) pc: u32,
    pub(crate) current_shard: u32,
    pub(crate) registers: Vec<u32>,
    pub(crate) memory: HashMap<u32, u32>,
    pub(crate) input_stream: Vec<u32>,
    pub(crate) input_stream_ptr: usize,
    pub(crate) output_stream: Vec<u32>,
}

/// What is set aside while the machine is unconstrained: the clock, the
/// program counter and the registers of the entry, and for every write since
/// then the address and the word that the write replaced, oldest first.
pub struct ForkState {
    pub(crate) clk: u32,
    pub(crate) pc: u32,
    pub(crate) registers: Vec<u32>,
    pub(crate) memory_diff: Vec<(u32, u32)>,
}

/// The machine.
pub struct Runtime {
    pub(crate) state: ExecutionState,
    pub(crate) record: ExecutionRecord,
    pub(crate) unconstrained: bool,
    pub(crate) unconstrained_state: ForkState,
    pub(crate) halted: bool,
    pub(crate) initial_memory: Ghost<Map<u32, u32>>,
}

/// The total memory that a table of words stands for: an address without an
/// entry holds zero.
pub open spec fn words(table: Map<u32, u32>) -> Map<u32, u32> {
    Map::total(
        |addr: u32|
            if table.contains_key(addr) {
                table[addr]
            } else {
                0u32
            },
    )
}

/// The memory that is left when the writes listed in `diff` are undone, the
/// last one first.
pub open spec fn rollback(memory: Map<u32, u32>, diff: Seq<(u32, u32)>) -> Map<u32, u32>
    decreases diff.len(),
{
    if diff.len() == 0 {
        memory
    } else {
        rollback(memory.insert(diff.last().0, diff.last().1), diff.drop_last())
    }
}

/// A copy of a vector of words.
pub(crate) fn copy_words(words: &Vec<u32>) -> (copy: Vec<u32>)
    ensures
        copy@ == words@,
{
    let copy = words.clone();
    copy
}

impl View for Runtime {
    type V = MachineState;

    closed spec fn view(&self) -> MachineState {
        MachineState {
            shard: self.state.current_shard,
            clk: self.state.clk,
            pc: self.state.pc,
            registers: self.state.registers@,
            memory: words(self.state.memory@),
            initial_memory: self.initial_memory@,
            log: self.record@,
            witness: self.state.input_stream@.skip(self.state.input_stream_ptr as int),
            output: self.state.output_stream@,
            saved: if self.unconstrained {
                Some(
                    Snapshot {
                        clk: self.unconstrained_state.clk,
                        pc: self.unconstrained_state.pc,
                        registers: self.unconstrained_state.registers@,
                        memory: rollback(
                            words(self.state.memory@),
                            self.unconstrained_state.memory_diff@,
                        ),
                    },
                )
            } else {
                None
            },
            halted: self.halted,
        }
    }
}

impl Runtime {
    /// Whether the storage of the machine is in order.
    pub closed spec fn storage_wf(&self) -> bool {
        self.state.input_stream_ptr <= self.state.input_stream.len()
    }

    /// Whether the machine is well formed: its storage is in order and its
    /// state meets the invariant of the machine.
    pub open spec fn wf(&self) -> bool {
        self.storage_wf() && self@.inv()
    }

    /// A machine that starts at `pc`.
    pub fn new(pc: u32) -> (rt: Self)
        ensures
            rt.wf(),
            rt@ == MachineState::initial(pc),
    {
        let mut registers: Vec<u32> = Vec::new();
        let mut i: usize = 0;
        while i < NUM_REGISTERS
            invariant
                i <= NUM_REGISTERS,
                registers@ == Seq::new(i as nat, |k: int| 0u32),
            decreases NUM_REGISTERS - i,
        {
            registers.push(0);
            i = i + 1;
        }
        let rt = Runtime {
            state: ExecutionState {
                clk: 0,
                pc,
                current_shard: 1,
                registers,
                memory: HashMap::new(),
                input_stream: Vec::new(),
                input_stream_ptr: 0,
                output_stream: Vec::new(),
            },
            record: ExecutionRecord::new(),
            unconstrained: false,
            unconstrained_state: ForkState {
                clk: 0,
                pc: 0,
                registers: Vec::new(),
                memory_diff: Vec::new(),
            },
            halted: false,
            initial_memory: Ghost(zeroed()),
        };
        proof {
            assert(rt@.memory =~= zeroed());
            assert(rt@.witness =~= Seq::empty());
        }
        rt
    }

    /// The shard that is being executed.
    pub fn current_shard(&self) -> (shard: u32)
        ensures
            shard == self@.shard,
    {
        self.state.current_shard
    }

    /// The logical clock.
    pub fn clk(&self) -> (clk: u32)
        ensures
            clk == self@.clk,
    {
        self.state.clk
    }

    /// The program counter.
    pub fn pc(&self) -> (pc: u32)
        ensures
            pc == self@.pc,
    {
        self.state.pc
    }

    /// Whether the machine is in unconstrained mode.
    pub fn is_unconstrained(&self) -> (unconstrained: bool)
        ensures
            unconstrained == self@.unconstrained(),
    {
        self.unconstrained
    }

    /// Whether the program has halted.
    pub fn is_halted(&self) -> (halted: bool)
        ensures
            halted == self@.halted,
    {
        self.halted
    }

    /// The record of the shard.
    pub fn record(&self) -> (record: &ExecutionRecord)
        ensures
            record@ == self@.log,
    {
        &self.record
    }

    /// Hands out the record of the shard for changes. The machine takes over
    /// whatever the caller leaves in it.
    pub fn record_mut(&mut self) -> (record: &mut ExecutionRecord)
        ensures
            record@ == old(self)@.log,
            final(self)@ == (MachineState { log: final(record)@, ..old(self)@ }),
            final(self).storage_wf() == old(self).storage_wf(),
    {
        &mut self.record
    }

    /// The committed output so far.
    pub fn output(&self) -> (output: Vec<u32>)
        ensures
            output@ == self@.output,
    {
        copy_words(&self.state.output_stream)
    }

    /// The number of witness words that have not been loaded yet.
    pub fn witness_len(&self) -> (n: usize)
        requires
            self.wf(),
        ensures
            n == self@.witness.len(),
    {
        self.state.input_stream.len() - self.state.input_stream_ptr
    }

    /// Appends a word to the witness channel.
    pub fn push_witness(&mut self, word: u32)
        requires
            old(self).wf(),
        ensures
            final(self).wf(),
            final(self)@ == (MachineState { witness: old(self)@.witness.push(word), ..old(self)@ }),
    {
        self.state.input_stream.push(word);
        proof {
            assert(self@.witness =~= old(self)@.witness.push(word));
        }
    }

    /// Sets the program counter.
    pub fn set_pc(&mut self, pc: u32)
        requires
            old(self).wf(),
        ensures
            final(self).wf(),
            final(self)@ == (MachineState { pc, ..old(self)@ }),
    {
        self.state.pc = pc;
    }

    /// Stores `value` in a register.
    pub fn write_register(&mut self, register: Register, value: u32)
        requires
            old(self).wf(),
        ensures
            final(self).wf(),
            final(self)@ == (MachineState {
                registers: old(self)@.registers.update(register.spec_index(), value),
                ..old(self)@
            }),
    {
        let i: usize = register.index();
        self.state.registers[i] = value;
    }

    /// Puts `value` at the word-aligned address `addr` in the memory of a
    /// machine that has recorded no access yet; the word becomes part of the
    /// initial memory.
    pub fn load_word(&mut self, addr: u32, value: u32)
        requires
            old(self).wf(),
            addr % 4 == 0,
            old(self)@.log.len() == 0,
            !old(self)@.unconstrained(),
        ensures
            final(self).wf(),
            final(self)@ == (MachineState {
                memory: old(self)@.memory.insert(addr, value),
                initial_memory: old(self)@.initial_memory.insert(addr, value),
                ..old(self)@
            }),
    {
        self.state.memory.insert(addr, value);
        self.initial_memory = Ghost(self.initial_memory@.insert(addr, value));
        proof {
            assert(self@.memory =~= old(self)@.memory.insert(addr, value));
        }
    }

    /// The current value of a register.
    pub fn register(&self, register: Register) -> (value: u32)
        requires
            self.wf(),
        ensures
            value == self@.registers[register.spec_index()],
    {
        self.state.registers[register.index()]
    }

    /// The current value of the word at `addr`.
    pub fn word(&self, addr: u32) -> (value: u32)
        requires
            addr % 4 == 0,
        ensures
            value == self@.memory[addr],
    {
        match self.state.memory.get(&addr) {
            Some(value) => *value,
            None => 0,
        }
    }

    /// The current value of the byte at `addr`: the byte of the word that
    /// holds it, counted from the least significant.
    pub fn byte(&self, addr: u32) -> (value: u8)
        ensures
            value == byte_of(self@.memory[(addr - addr % 4) as u32], addr as int % 4),
    {
        let offset: u32 = addr % 4;
        let word: u32 = self.word(addr - offset);
        if offset == 0 {
            (word % 0x100) as u8
        } else if offset == 1 {
            ((word / 0x100) % 0x100) as u8
        } else if offset == 2 {
            ((word / 0x1_0000) % 0x100) as u8
        } else {
            (word / 0x100_0000) as u8
        }
    }

    /// Reads the word at `addr` with the key (`shard`, `clk`). The read is
    /// recorded unless the machine is unconstrained, and the clock of the
    /// machine moves past `clk`.
    pub fn mr(&mut self, addr: u32, shard: u32, clk: u32) -> (record: MemoryReadRecord)
        requires
            old(self).wf(),
            old(self)@.admits(addr, shard, clk),
        ensures
            final(self).wf(),
            record == old(self)@.read_record(addr, clk),
            final(self)@ == old(self)@.after_read(addr, clk),
    {
        let value: u32 = self.word(addr);
        let record = MemoryReadRecord::new(addr, value, shard, clk);
        if !self.unconstrained {
            self.record.push(MemoryRecord::Read(record));
        }
        self.state.clk = clk + 1;
        proof {
            lemma_read_inv(old(self)@, addr, shard, clk);
        }
        record
    }

    /// Writes `value` to the word at `addr` with the key (`shard`, `clk`).
    /// The write is recorded unless the machine is unconstrained, and the
    /// clock of the machine moves past `clk`.
    pub fn mw(&mut self, addr: u32, value: u32, shard: u32, clk: u32) -> (record: MemoryWriteRecord)
        requires
            old(self).wf(),
            old(self)@.admits(addr, shard, clk),
        ensures
            final(self).wf(),
            record == old(self)@.write_record(addr, value, clk),
            final(self)@ == old(self)@.after_write(addr, value, clk),
    {
        let record = MemoryWriteRecord::new(addr, value, shard, clk);
        if self.unconstrained {
            let replaced: u32 = self.word(addr);
            self.unconstrained_state.memory_diff.push((addr, replaced));
        } else {
            self.record.push(MemoryRecord::Write(record));
        }
        self.state.memory.insert(addr, value);
        self.state.clk = clk + 1;
        proof {
            lemma_write_inv(old(self)@, addr, value, shard, clk);
            assert(words(self.state.memory@) =~= words(old(self).state.memory@).insert(addr, value));
            if self.unconstrained {
                let diff = self.unconstrained_state.memory_diff@;
                assert(diff.drop_last() =~= old(self).unconstrained_state.memory_diff@);
                assert(words(self.state.memory@).insert(diff.last().0, diff.last().1) =~= words(
                    old(self).state.memory@,
                ));
            }
        }
        record
    }

    /// Sets the clock, the program counter, the registers and the memory
    /// aside and makes the machine unconstrained.
    pub(crate) fn enter_unconstrained(&mut self)
        requires
            old(self).wf(),
            !old(self)@.unconstrained(),
        ensures
            final(self).wf(),
            final(self)@ == old(self)@.after_enter(),
    {
        self.unconstrained_state = ForkState {
            clk: self.state.clk,
            pc: self.state.pc,
            registers: copy_words(&self.state.registers),
            memory_diff: Vec::new(),
        };
        self.unconstrained = true;
        proof {
            lemma_enter_inv(old(self)@);
        }
    }

    /// Undoes every write made since the machine became unconstrained, the
    /// last one first, puts the clock, the program counter and the registers
    /// of the entry back, and makes the machine constrained.
    pub(crate) fn exit_unconstrained(&mut self)
        requires
            old(self).wf(),
            old(self)@.unconstrained(),
        ensures
            final(self).wf(),
            final(self)@ == old(self)@.after_exit(),
    {
        while self.unconstrained_state.memory_diff.len() > 0
            invariant
                rollback(words(self.state.memory@), self.unconstrained_state.memory_diff@)
                    == rollback(
                    words(old(self).state.memory@),
                    old(self).unconstrained_state.memory_diff@,
                ),
                self.state.clk == old(self).state.clk,
                self.state.pc == old(self).state.pc,
                self.state.current_shard == old(self).state.current_shard,
                self.state.registers == old(self).state.registers,
                self.state.input_stream == old(self).state.input_stream,
                self.state.input_stream_ptr == old(self).state.input_stream_ptr,
                self.state.output_stream == old(self).state.output_stream,
                self.record == old(self).record,
                self.unconstrained == old(self).unconstrained,
                self.unconstrained_state.clk == old(self).unconstrained_state.clk,
                self.unconstrained_state.pc == old(self).unconstrained_state.pc,
                self.unconstrained_state.registers == old(self).unconstrained_state.registers,
                self.halted == old(self).halted,
                self.initial_memory == old(self).initial_memory,
            decreases self.unconstrained_state.memory_diff.len(),
        {
            let ghost memory = self.state.memory@;
            let last: usize = self.unconstrained_state.memory_diff.len() - 1;
            let entry: (u32, u32) = self.unconstrained_state.memory_diff[last];
            self.unconstrained_state.memory_diff.pop();
            self.state.memory.insert(entry.0, entry.1);
            proof {
                assert(words(self.state.memory@) =~= words(memory).insert(entry.0, entry.1));
            }
        }
        self.state.clk = self.unconstrained_state.clk;
        self.state.pc = self.unconstrained_state.pc;
        self.state.registers = copy_words(&self.unconstrained_state.registers);
        self.unconstrained = false;
        proof {
            lemma_exit_inv(old(self)@);
        }
    }

    /// Takes the first word of the witness channel.
    pub(crate) fn load_witness(&mut self) -> (word: u32)
        requires
            old(self).wf(),
            old(self)@.witness.len() > 0,
        ensures
            final(self).wf(),
            word == old(self)@.witness[0],
            final(self)@ == old(self)@.after_load(),
    {
        let word: u32 = self.state.input_stream[self.state.input_stream_ptr];
        self.state.input_stream_ptr = self.state.input_stream_ptr + 1;
        proof {
            assert(self@.witness =~= old(self)@.witness.drop_first());
        }
        word
    }

    /// Appends `values` to the committed output.
    pub(crate) fn commit_output(&mut self, values: Vec<u32>)
        requires
            old(self).wf(),
        ensures
            final(self).wf(),
            final(self)@ == old(self)@.after_output(values@),
    {
        let mut values = values;
        self.state.output_stream.append(&mut values);
    }

    /// Marks the program as halted.
    pub(crate) fn halt(&mut self)
        requires
            old(self).wf(),
        ensures
            final(self).wf(),
            final(self)@ == old(self)@.after_halt(),
    {
        self.halted = true;
    }
}

} // verus!
