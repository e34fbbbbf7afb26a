//! The machine as contracts see it: a mathematical state and the steps that
//! the mediation layer can take on it.
use vstd::prelude::*;
use crate::record::{MemoryReadRecord, MemoryRecord, MemoryWriteRecord};
use crate::trace::{
    consistent, latest_write, lemma_consistent_push, lemma_ordered_push,
    lemma_replay_latest_write, lemma_replay_total, ordered, replay, total, within,
};

verus! {

/// The number of registers of the machine.
pub const NUM_REGISTERS: usize = 32;

/// What the machine sets aside when it enters unconstrained mode, and takes
/// back when it leaves.
pub struct Snapshot {
    /// The logical clock at entry.
    pub clk: u32,
    /// The program counter at entry.
    pub pc: u32,
    /// The registers at entry.
    pub registers: Seq<u32>,
    /// The memory at entry.
    pub memory: Map<u32, u32>,
}

/// The state of the machine.
pub struct MachineState {
    /// The shard that is being executed.
    pub shard: u32,
    /// The logical clock: no access of the shard has a clock at or above it
    /// while the machine is constrained.
    pub clk: u32,
    /// The program counter.
    pub pc: u32,
    /// The registers.
    pub registers: Seq<u32>,
    /// The memory, a word for every address.
    pub memory: Map<u32, u32>,
    /// The memory as it was before the first access.
    pub initial_memory: Map<u32, u32>,
    /// The traced accesses of the shard, in the order in which they were made.
    pub log: Seq<MemoryRecord>,
    /// The words of the witness channel that have not been loaded yet.
    pub witness: Seq<u32>,
    /// The committed output.
    pub output: Seq<u32>,
    /// The state set aside at entry to unconstrained mode; `None` while the
    /// machine is constrained.
    pub saved: Option<Snapshot>,
    /// Whether the program has halted.
    pub halted: bool,
}

/// The memory left by writing `values` to consecutive words from `addr` on.
pub open spec fn write_words(memory: Map<u32, u32>, addr: u32, values: Seq<u32>) -> Map<u32, u32> {
    Map::new(
        |a: u32| memory.contains_key(a) || covers(addr, values.len(), a),
        |a: u32|
            if covers(addr, values.len(), a) {
                values[(a - addr) / 4]
            } else {
                memory[a]
            },
    )
}

/// Whether `a` is one of the `count` word addresses that start at `addr`.
pub open spec fn covers(addr: u32, count: nat, a: u32) -> bool {
    addr <= a && a < addr + 4 * count && (a - addr) % 4 == 0
}

/// The words that `memory` holds at the `count` word addresses from `addr` on.
pub open spec fn words_at(memory: Map<u32, u32>, addr: u32, count: nat) -> Seq<u32> {
    Seq::new(count, |i: int| memory[(addr + 4 * i) as u32])
}

/// The records of `count` reads of consecutive words from `addr` on, the
/// first at clock `clk` and each next one a tick later.
pub open spec fn read_records(
    memory: Map<u32, u32>,
    addr: u32,
    count: nat,
    shard: u32,
    clk: u32,
) -> Seq<MemoryReadRecord> {
    Seq::new(
        count,
        |i: int|
            MemoryReadRecord {
                addr: (addr + 4 * i) as u32,
                value: memory[(addr + 4 * i) as u32],
                shard,
                timestamp: (clk + i) as u32,
            },
    )
}

/// The records of the writes of `values` to consecutive words from `addr`
/// on, the first at clock `clk` and each next one a tick later.
pub open spec fn write_records(addr: u32, values: Seq<u32>, shard: u32, clk: u32) -> Seq<
    MemoryWriteRecord,
> {
    Seq::new(
        values.len(),
        |i: int|
            MemoryWriteRecord {
                addr: (addr + 4 * i) as u32,
                value: values[i],
                shard,
                timestamp: (clk + i) as u32,
            },
    )
}

/// The byte of `word` at place `index`, counted from the least significant.
pub open spec fn byte_of(word: u32, index: int) -> u8 {
    if index == 0 {
        (word % 0x100) as u8
    } else if index == 1 {
        ((word / 0x100) % 0x100) as u8
    } else if index == 2 {
        ((word / 0x1_0000) % 0x100) as u8
    } else {
        (word / 0x100_0000) as u8
    }
}

impl MachineState {
    /// The state in which a machine starts at `pc`: shard 1, clock 0, zeroed
    /// registers and memory, nothing recorded, loaded or written.
    pub open spec fn initial(pc: u32) -> MachineState {
        MachineState {
            shard: 1,
            clk: 0,
            pc,
            registers: Seq::new(NUM_REGISTERS as nat, |i: int| 0u32),
            memory: crate::trace::zeroed(),
            initial_memory: crate::trace::zeroed(),
            log: Seq::empty(),
            witness: Seq::empty(),
            output: Seq::empty(),
            saved: None,
            halted: false,
        }
    }

    /// Whether the machine is in unconstrained mode.
    pub open spec fn unconstrained(self) -> bool {
        self.saved is Some
    }

    /// What holds of every state that the machine reaches: the recorded
    /// accesses belong to the shard, their clocks grow strictly and lie below
    /// the clock of the constrained machine, every recorded read observed the
    /// most recent value, and the memory of the constrained machine is the
    /// initial memory with the recorded writes applied.
    pub open spec fn inv(self) -> bool {
        &&& self.registers.len() == NUM_REGISTERS
        &&& total(self.memory)
        &&& total(self.initial_memory)
        &&& consistent(self.initial_memory, self.log)
        &&& ordered(self.log)
        &&& match self.saved {
            None => within(self.log, self.shard, self.clk) && self.memory == replay(
                self.initial_memory,
                self.log,
            ),
            Some(s) => within(self.log, self.shard, s.clk) && s.memory == replay(
                self.initial_memory,
                self.log,
            ) && s.registers.len() == NUM_REGISTERS,
        }
    }

    /// Whether the machine admits an access to `addr` with the key
    /// (`shard`, `clk`): the address is word-aligned, the shard is the one
    /// being executed, and the clock is not behind the machine's.
    pub open spec fn admits(self, addr: u32, shard: u32, clk: u32) -> bool {
        addr % 4 == 0 && shard == self.shard && self.clk <= clk < u32::MAX
    }

    /// The record of a read of `addr` at clock `clk`.
    pub open spec fn read_record(self, addr: u32, clk: u32) -> MemoryReadRecord {
        MemoryReadRecord { addr, value: self.memory[addr], shard: self.shard, timestamp: clk }
    }

    /// The record of a write of `value` to `addr` at clock `clk`.
    pub open spec fn write_record(self, addr: u32, value: u32, clk: u32) -> MemoryWriteRecord {
        MemoryWriteRecord { addr, value, shard: self.shard, timestamp: clk }
    }

    /// The log after an access: one record longer while constrained,
    /// unchanged while unconstrained.
    pub open spec fn log_with(self, record: MemoryRecord) -> Seq<MemoryRecord> {
        if self.unconstrained() {
            self.log
        } else {
            self.log.push(record)
        }
    }

    /// The state after a read of `addr` at clock `clk`.
    pub open spec fn after_read(self, addr: u32, clk: u32) -> MachineState {
        MachineState {
            clk: (clk + 1) as u32,
            log: self.log_with(MemoryRecord::Read(self.read_record(addr, clk))),
            ..self
        }
    }

    /// The state after a write of `value` to `addr` at clock `clk`.
    pub open spec fn after_write(self, addr: u32, value: u32, clk: u32) -> MachineState {
        MachineState {
            clk: (clk + 1) as u32,
            memory: self.memory.insert(addr, value),
            log: self.log_with(MemoryRecord::Write(self.write_record(addr, value, clk))),
            ..self
        }
    }

    /// The state after `count` reads of consecutive words from `addr` on,
    /// the first at clock `clk`.
    pub open spec fn after_reads(self, addr: u32, count: nat, clk: u32) -> MachineState {
        MachineState {
            clk: if count == 0 {
                self.clk
            } else {
                (clk + count) as u32
            },
            log: if self.unconstrained() {
                self.log
            } else {
                self.log + read_records(self.memory, addr, count, self.shard, clk).map_values(
                    |r: MemoryReadRecord| MemoryRecord::Read(r),
                )
            },
            ..self
        }
    }

    /// The state after the writes of `values` to consecutive words from
    /// `addr` on, the first at clock `clk`.
    pub open spec fn after_writes(self, addr: u32, values: Seq<u32>, clk: u32) -> MachineState {
        MachineState {
            clk: if values.len() == 0 {
                self.clk
            } else {
                (clk + values.len()) as u32
            },
            memory: write_words(self.memory, addr, values),
            log: if self.unconstrained() {
                self.log
            } else {
                self.log + write_records(addr, values, self.shard, clk).map_values(
                    |w: MemoryWriteRecord| MemoryRecord::Write(w),
                )
            },
            ..self
        }
    }

    /// The state after entry to unconstrained mode: the clock, the program
    /// counter, the registers and the memory are set aside.
    pub open spec fn after_enter(self) -> MachineState {
        MachineState {
            saved: Some(
                Snapshot {
                    clk: self.clk,
                    pc: self.pc,
                    registers: self.registers,
                    memory: self.memory,
                },
            ),
            ..self
        }
    }

    /// The state after exit from unconstrained mode: what was set aside at
    /// entry is back in place.
    pub open spec fn after_exit(self) -> MachineState
        recommends
            self.saved is Some,
    {
        let s = self.saved->0;
        MachineState {
            clk: s.clk,
            pc: s.pc,
            registers: s.registers,
            memory: s.memory,
            saved: None,
            ..self
        }
    }

    /// The state after the first word of the witness channel was loaded.
    pub open spec fn after_load(self) -> MachineState {
        MachineState { witness: self.witness.drop_first(), ..self }
    }

    /// The state after `values` were appended to the committed output.
    pub open spec fn after_output(self, values: Seq<u32>) -> MachineState {
        MachineState { output: self.output + values, ..self }
    }

    /// The state after the program halted.
    pub open spec fn after_halt(self) -> MachineState {
        MachineState { halted: true, ..self }
    }

    /// Whether `self` can follow `before` in one execution of a shard: the
    /// shard and the initial memory are the same, and the accesses recorded
    /// in `before` are the first ones recorded in `self`, unchanged.
    pub open spec fn extends(self, before: MachineState) -> bool {
        &&& self.shard == before.shard
        &&& self.initial_memory == before.initial_memory
        &&& before.log.is_prefix_of(self.log)
    }
}

/// A read keeps the invariant.
pub proof fn lemma_read_inv(m: MachineState, addr: u32, shard: u32, clk: u32)
    requires
        m.inv(),
        m.admits(addr, shard, clk),
    ensures
        m.after_read(addr, clk).inv(),
        m.after_read(addr, clk).extends(m),
{
    if !m.unconstrained() {
        let record = MemoryRecord::Read(m.read_record(addr, clk));
        lemma_consistent_push(m.initial_memory, m.log, record);
        lemma_ordered_push(m.log, record, m.shard, m.clk);
    }
}

/// A write keeps the invariant.
pub proof fn lemma_write_inv(m: MachineState, addr: u32, value: u32, shard: u32, clk: u32)
    requires
        m.inv(),
        m.admits(addr, shard, clk),
    ensures
        m.after_write(addr, value, clk).inv(),
        m.after_write(addr, value, clk).extends(m),
{
    if !m.unconstrained() {
        let record = MemoryRecord::Write(m.write_record(addr, value, clk));
        lemma_consistent_push(m.initial_memory, m.log, record);
        lemma_ordered_push(m.log, record, m.shard, m.clk);
    }
}

/// Entry to unconstrained mode, from constrained mode, keeps the invariant.
pub proof fn lemma_enter_inv(m: MachineState)
    requires
        m.inv(),
        !m.unconstrained(),
    ensures
        m.after_enter().inv(),
        m.after_enter().extends(m),
{
}

/// Exit from unconstrained mode keeps the invariant.
pub proof fn lemma_exit_inv(m: MachineState)
    requires
        m.inv(),
        m.unconstrained(),
    ensures
        m.after_exit().inv(),
        m.after_exit().extends(m),
{
    lemma_replay_total(m.initial_memory, m.log);
}

/// What a read of the constrained machine returns: the value of the most
/// recent recorded write to the address, or the initial value of the address
/// if no write to it was recorded.
pub proof fn lemma_read_returns_latest_write(m: MachineState, addr: u32, clk: u32)
    requires
        m.inv(),
        !m.unconstrained(),
    ensures
        m.read_record(addr, clk).value == (match latest_write(m.log, addr) {
            Some(j) => m.log[j].spec_value(),
            None => m.initial_memory[addr],
        }),
{
    lemma_replay_latest_write(m.initial_memory, m.log, addr);
}

/// Entering unconstrained mode and leaving it at once gives back the state
/// as it was before entry: nothing is recorded, and nothing else changes.
pub proof fn lemma_enter_exit_identity(m: MachineState)
    requires
        !m.unconstrained(),
    ensures
        m.after_enter().after_exit() == m,
{
}

} // verus!
