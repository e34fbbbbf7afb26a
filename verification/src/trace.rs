//! What a sequence of memory records says about memory.
//!
//! Memory is a total map from addresses to words. Replaying a sequence of
//! records over an initial memory applies its writes in order. A sequence is
//! consistent when every read in it observed what the replay of the records
//! before it leaves at the address read.
use vstd::prelude::*;
use crate::record::MemoryRecord;

verus! {

/// Whether a memory gives a word to every address.
pub open spec fn total(memory: Map<u32, u32>) -> bool {
    forall|addr: u32| memory.contains_key(addr)
}

/// The memory that is zero everywhere.
pub open spec fn zeroed() -> Map<u32, u32> {
    Map::total(|addr: u32| 0u32)
}

/// The memory left by one access.
pub open spec fn apply(memory: Map<u32, u32>, record: MemoryRecord) -> Map<u32, u32> {
    match record {
        MemoryRecord::Read(_) => memory,
        MemoryRecord::Write(w) => memory.insert(w.addr, w.value),
    }
}

/// The memory left by the accesses of `log`, made in order on `initial`.
pub open spec fn replay(initial: Map<u32, u32>, log: Seq<MemoryRecord>) -> Map<u32, u32>
    decreases log.len(),
{
    if log.len() == 0 {
        initial
    } else {
        apply(replay(initial, log.drop_last()), log.last())
    }
}

/// Every read of `log` observed the value that the accesses before it left.
pub open spec fn consistent(initial: Map<u32, u32>, log: Seq<MemoryRecord>) -> bool {
    forall|i: int|
        0 <= i < log.len() && (#[trigger] log[i]) is Read ==> log[i].spec_value() == replay(
            initial,
            log.take(i),
        )[log[i].spec_addr()]
}

/// The clocks of `log` grow strictly from each record to the next.
pub open spec fn ordered(log: Seq<MemoryRecord>) -> bool {
    forall|i: int, j: int|
        0 <= i < j < log.len() ==> (#[trigger] log[i]).spec_timestamp() < (
        #[trigger] log[j]).spec_timestamp()
}

/// Every record of `log` belongs to `shard` and was made before `clk`.
pub open spec fn within(log: Seq<MemoryRecord>, shard: u32, clk: u32) -> bool {
    forall|i: int|
        0 <= i < log.len() ==> (#[trigger] log[i]).spec_shard() == shard
            && log[i].spec_timestamp() < clk
}

/// The place of the last write to `addr` in `log`, if there is one.
pub open spec fn latest_write(log: Seq<MemoryRecord>, addr: u32) -> Option<int>
    decreases log.len(),
{
    if log.len() == 0 {
        None
    } else if log.last().writes_to(addr) {
        Some(log.len() - 1)
    } else {
        latest_write(log.drop_last(), addr)
    }
}

/// `latest_write` finds a write to `addr` after which `log` holds no other
/// write to `addr`, and finds nothing only where `log` holds no such write.
pub proof fn lemma_latest_write(log: Seq<MemoryRecord>, addr: u32)
    ensures
        match latest_write(log, addr) {
            Some(j) => 0 <= j < log.len() && log[j].writes_to(addr) && forall|k: int|
                j < k < log.len() ==> !(#[trigger] log[k]).writes_to(addr),
            None => forall|k: int| 0 <= k < log.len() ==> !(#[trigger] log[k]).writes_to(addr),
        },
    decreases log.len(),
{
    if log.len() > 0 && !log.last().writes_to(addr) {
        let front = log.drop_last();
        lemma_latest_write(front, addr);
        assert forall|k: int| 0 <= k < front.len() implies front[k] == log[k] by {}
    }
}

/// Replay keeps memory total.
pub proof fn lemma_replay_total(initial: Map<u32, u32>, log: Seq<MemoryRecord>)
    requires
        total(initial),
    ensures
        total(replay(initial, log)),
    decreases log.len(),
{
    if log.len() > 0 {
        lemma_replay_total(initial, log.drop_last());
    }
}

/// After a replay, an address holds what the last write to it stored, or
/// what the initial memory held if nothing was written to it.
pub proof fn lemma_replay_latest_write(initial: Map<u32, u32>, log: Seq<MemoryRecord>, addr: u32)
    requires
        total(initial),
    ensures
        replay(initial, log)[addr] == (match latest_write(log, addr) {
            Some(j) => log[j].spec_value(),
            None => initial[addr],
        }),
    decreases log.len(),
{
    if log.len() > 0 {
        let front = log.drop_last();
        lemma_replay_latest_write(initial, front, addr);
        lemma_latest_write(front, addr);
    }
}

/// Appending an access that observed or changed the replayed memory keeps a
/// consistent sequence consistent.
pub proof fn lemma_consistent_push(
    initial: Map<u32, u32>,
    log: Seq<MemoryRecord>,
    record: MemoryRecord,
)
    requires
        consistent(initial, log),
        record is Read ==> record.spec_value() == replay(initial, log)[record.spec_addr()],
    ensures
        consistent(initial, log.push(record)),
        replay(initial, log.push(record)) == apply(replay(initial, log), record),
{
    let longer = log.push(record);
    assert(longer.drop_last() =~= log);
    assert forall|i: int| 0 <= i < longer.len() && (#[trigger] longer[i]) is Read implies longer[i].spec_value()
        == replay(initial, longer.take(i))[longer[i].spec_addr()] by {
        if i < log.len() {
            assert(longer.take(i) =~= log.take(i));
        }
    }
}

/// Appending an access whose clock is not below `clk` keeps the clocks
/// strictly growing, where every earlier clock is below `clk`.
pub proof fn lemma_ordered_push(log: Seq<MemoryRecord>, record: MemoryRecord, shard: u32, clk: u32)
    requires
        ordered(log),
        within(log, shard, clk),
        record.spec_shard() == shard,
        clk <= record.spec_timestamp() < u32::MAX,
    ensures
        ordered(log.push(record)),
        within(log.push(record), shard, (record.spec_timestamp() + 1) as u32),
{
}

/// In a consistent sequence with growing clocks, a read returns the value of
/// the most recent earlier write to its address, in clock order, or the
/// initial value of the address where no write to it came before.
pub proof fn lemma_read_sees_latest_write(
    initial: Map<u32, u32>,
    log: Seq<MemoryRecord>,
    i: int,
)
    requires
        total(initial),
        consistent(initial, log),
        ordered(log),
        0 <= i < log.len(),
        log[i] is Read,
    ensures
        match latest_write(log.take(i), log[i].spec_addr()) {
            Some(j) => {
                &&& 0 <= j < i
                &&& log[j].writes_to(log[i].spec_addr())
                &&& log[j].spec_timestamp() < log[i].spec_timestamp()
                &&& log[i].spec_value() == log[j].spec_value()
                &&& forall|k: int|
                    0 <= k < log.len() && (#[trigger] log[k]).writes_to(log[i].spec_addr())
                        && log[k].spec_timestamp() < log[i].spec_timestamp()
                        ==> log[k].spec_timestamp() <= log[j].spec_timestamp()
            },
            None => {
                &&& log[i].spec_value() == initial[log[i].spec_addr()]
                &&& forall|k: int|
                    0 <= k < log.len() && (#[trigger] log[k]).writes_to(log[i].spec_addr())
                        ==> log[k].spec_timestamp() > log[i].spec_timestamp()
            },
        },
{
    let addr = log[i].spec_addr();
    let before = log.take(i);
    lemma_replay_latest_write(initial, before, addr);
    lemma_latest_write(before, addr);
    assert forall|k: int| 0 <= k < i implies before[k] == log[k] by {}
}

} // verus!
