//! AHB plug&play records.
pub mod regs;

use vstd::prelude::*;

use regs::fields::{AhbBar, Id};

verus! {

/// Default AHB master block address (`cfgaddr`/`ioaddr` reset value).
pub const DEFAULT_MASTER_BASE_ADDR: usize = 0xFFFF_F000;

/// Default AHB slave block address: the second 2 kbyte half of the default configuration area.
pub const DEFAULT_SLAVE_BASE_ADDR: usize = 0xFFFF_F800;

/// Size in bytes of one plug&play record.
pub const RECORD_SIZE: usize = 32;

/// Number of 32 byte records in one 2 kbyte AMBA Plug&Play block (masters or slaves).
pub const RECORDS_PER_BLOCK: usize = 64;

/// One 32 byte AMBA Plug&Play configuration record: the identification register followed by
/// 3 user-defined words and 4 bank address registers.
#[derive(Clone, Copy, Debug)]
pub struct Registers {
    pub id: Id,
    pub user_defined: [u32; 3],
    pub bar: [AhbBar; 4],
}

/// The words of one record as read through its MMIO handle.
pub type MmioRegisters = Registers;

impl MmioRegisters {
    /// Whether every word of the record is 0.
    pub open spec fn all_zero(&self) -> bool {
        &&& self.id@ == 0
        &&& forall|i: int| 0 <= i < 3 ==> self.user_defined[i] == 0
        &&& forall|i: int| 0 <= i < 4 ==> #[trigger] self.bar[i]@ == 0
    }

    /// A record is considered unpopulated if all of its words are 0.
    pub fn is_empty(&self) -> (r: bool)
        ensures
            r == self.all_zero(),
    {
        if self.id.raw_value() != 0 {
            return false;
        }
        let mut i: usize = 0;
        while i < 3
            invariant
                0 <= i <= 3,
                forall|j: int| 0 <= j < i ==> self.user_defined[j] == 0,
            decreases 3 - i,
        {
            if self.user_defined[i] != 0 {
                return false;
            }
            i = i + 1;
        }
        let mut i: usize = 0;
        while i < 4
            invariant
                0 <= i <= 4,
                forall|j: int| 0 <= j < i ==> #[trigger] self.bar[j]@ == 0,
            decreases 4 - i,
        {
            if self.bar[i].raw_value() != 0 {
                return false;
            }
            i = i + 1;
        }
        true
    }
}

/// Whether a read of the slot at `addr` through `read` can come back with an unpopulated
/// record.
pub open spec fn read_as_empty<F: Fn(usize) -> MmioRegisters>(read: F, addr: int) -> bool {
    exists|record: MmioRegisters| #[trigger] read.ensures((addr as usize,), record) && record.all_zero()
}

/// What a call of [`Reader::next`] with `read` does, from the slots `before` to the slots
/// `after`, returning `r`: `None` once every slot has been read as empty and none is left;
/// else the address and record of the first slot that is read as populated, the slots up to
/// and including it consumed, and every slot before it read as empty.
pub open spec fn next_outcome<F: Fn(usize) -> MmioRegisters>(
    read: F,
    before: Seq<int>,
    after: Seq<int>,
    r: Option<(usize, MmioRegisters)>,
) -> bool {
    match r {
        None => {
            &&& after.len() == 0
            &&& forall|j: int| 0 <= j < before.len() ==> read_as_empty(read, before[j])
        },
        Some((addr, record)) => {
            &&& exists|k: int|
                0 <= k < before.len() && before[k] == addr && after == before.skip(k + 1) && forall|
                    j: int,
                | 0 <= j < k ==> read_as_empty(read, before[j])
            &&& read.ensures((addr,), record)
            &&& !record.all_zero()
        },
    }
}

/// Every read through `read` gives the record that `mem` holds at the address read.
pub open spec fn reads_from<F: Fn(usize) -> MmioRegisters>(
    read: F,
    mem: spec_fn(usize) -> MmioRegisters,
) -> bool {
    forall|addr: usize, record: MmioRegisters|
        #[trigger] read.ensures((addr,), record) ==> record == mem(addr)
}

/// The addresses among `slots`, in order, whose record in `mem` is populated.
pub open spec fn populated_slots(slots: Seq<int>, mem: spec_fn(usize) -> MmioRegisters) -> Seq<int>
    decreases slots.len(),
{
    if slots.len() == 0 {
        Seq::empty()
    } else if !mem(slots[0] as usize).all_zero() {
        seq![slots[0]] + populated_slots(slots.drop_first(), mem)
    } else {
        populated_slots(slots.drop_first(), mem)
    }
}

/// Slots whose records are empty do not count among the populated ones.
proof fn lemma_skip_empty_slots(slots: Seq<int>, mem: spec_fn(usize) -> MmioRegisters, k: int)
    requires
        0 <= k <= slots.len(),
        forall|j: int| 0 <= j < k ==> (#[trigger] mem(slots[j] as usize)).all_zero(),
    ensures
        populated_slots(slots, mem) == populated_slots(slots.skip(k), mem),
    decreases k,
{
    if k == 0 {
        assert(slots.skip(0) =~= slots);
    } else {
        let rest = slots.drop_first();
        assert forall|j: int| 0 <= j < k - 1 implies (#[trigger] mem(rest[j] as usize)).all_zero() by {
            assert(rest[j] == slots[j + 1]);
        }
        lemma_skip_empty_slots(rest, mem, k - 1);
        assert(rest.skip(k - 1) =~= slots.skip(k));
        assert(mem(slots[0] as usize).all_zero());
    }
}

/// Over records that do not change while they are read, successive calls of [`Reader::next`]
/// yield exactly the populated records of the slots still to visit, in order and each once,
/// and `None` once none is left: each call yields the first populated slot, and the populated
/// slots after it are what later calls yield.
pub proof fn law_next_walks_populated_records<F: Fn(usize) -> MmioRegisters>(
    read: F,
    mem: spec_fn(usize) -> MmioRegisters,
    before: Seq<int>,
    after: Seq<int>,
    r: Option<(usize, MmioRegisters)>,
)
    requires
        reads_from(read, mem),
        next_outcome(read, before, after, r),
    ensures
        r is None ==> populated_slots(before, mem) == Seq::<int>::empty() && after.len() == 0,
        r matches Some((addr, record)) ==> record == mem(addr) && populated_slots(before, mem)
            == seq![addr as int] + populated_slots(after, mem),
{
    match r {
        None => {
            assert forall|j: int| 0 <= j < before.len() implies (#[trigger] mem(
                before[j] as usize,
            )).all_zero() by {
                assert(read_as_empty(read, before[j]));
                let record = choose|record: MmioRegisters|
                    #[trigger] read.ensures((before[j] as usize,), record) && record.all_zero();
            }
            lemma_skip_empty_slots(before, mem, before.len() as int);
            assert(populated_slots(before.skip(before.len() as int), mem) == Seq::<int>::empty());
        },
        Some((addr, record)) => {
            let k = choose|k: int|
                0 <= k < before.len() && before[k] == addr && after == before.skip(k + 1) && forall|
                    j: int,
                | 0 <= j < k ==> read_as_empty(read, before[j]);
            assert forall|j: int| 0 <= j < k implies (#[trigger] mem(before[j] as usize)).all_zero() by {
                assert(read_as_empty(read, before[j]));
                let record = choose|record: MmioRegisters|
                    #[trigger] read.ensures((before[j] as usize,), record) && record.all_zero();
            }
            lemma_skip_empty_slots(before, mem, k);
            let rest = before.skip(k);
            assert(rest[0] == addr);
            assert(rest.drop_first() =~= after);
        },
    }
}

/// Walks consecutive 32 byte AMBA Plug&Play configuration records starting at a given address.
///
/// [`Reader::next`] reads the record slots in turn through a caller-supplied read and yields
/// each populated record, skipping those where [`MmioRegisters::is_empty`] holds (unused array
/// slots). [`Reader::next_record_addr`] hands out the slot addresses one by one instead.
#[derive(Debug)]
pub struct Reader {
    next_addr: usize,
    remaining: usize,
}

impl View for Reader {
    type V = Seq<int>;

    /// The addresses of the record slots not visited yet, in order.
    closed spec fn view(&self) -> Seq<int> {
        Seq::new(self.remaining as nat, |i: int| self.next_addr + i * RECORD_SIZE)
    }
}

impl Reader {
    #[verifier::type_invariant]
    spec fn inv(self) -> bool {
        self.remaining > 0 ==> self.next_addr + (self.remaining - 1) * RECORD_SIZE <= usize::MAX
    }

    /// Reader over the AHB master block at [DEFAULT_MASTER_BASE_ADDR].
    pub fn new_for_masters() -> (r: Reader)
        ensures
            r@ == Seq::new(
                RECORDS_PER_BLOCK as nat,
                |i: int| DEFAULT_MASTER_BASE_ADDR + i * RECORD_SIZE,
            ),
    {
        Self::new(DEFAULT_MASTER_BASE_ADDR)
    }

    /// Reader over the AHB slave block at [DEFAULT_SLAVE_BASE_ADDR].
    pub fn new_for_slaves() -> (r: Reader)
        ensures
            r@ == Seq::new(
                RECORDS_PER_BLOCK as nat,
                |i: int| DEFAULT_SLAVE_BASE_ADDR + i * RECORD_SIZE,
            ),
    {
        Self::new(DEFAULT_SLAVE_BASE_ADDR)
    }

    /// Reader over the [RECORDS_PER_BLOCK] records starting at `base_addr`.
    pub fn new(base_addr: usize) -> (r: Reader)
        requires
            base_addr + (RECORDS_PER_BLOCK - 1) * RECORD_SIZE <= usize::MAX,
        ensures
            r@ == Seq::new(RECORDS_PER_BLOCK as nat, |i: int| base_addr + i * RECORD_SIZE),
    {
        Self::new_with_custom_count(base_addr, RECORDS_PER_BLOCK)
    }

    /// Reader over the `count` records starting at `base_addr`.
    pub fn new_with_custom_count(base_addr: usize, count: usize) -> (r: Reader)
        requires
            count > 0 ==> base_addr + (count - 1) * RECORD_SIZE <= usize::MAX,
        ensures
            r@ == Seq::new(count as nat, |i: int| base_addr + i * RECORD_SIZE),
    {
        Reader { next_addr: base_addr, remaining: count }
    }

    /// The address of the next record slot, which leaves the slots still to visit; `None` once
    /// every slot has been handed out.
    pub fn next_record_addr(&mut self) -> (r: Option<usize>)
        ensures
            old(self)@.len() == 0 ==> r is None && final(self)@ == old(self)@,
            old(self)@.len() > 0 ==> r == Some(old(self)@[0] as usize) && final(self)@
                == old(self)@.drop_first(),
    {
        proof {
            use_type_invariant(&*self);
        }
        if self.remaining == 0 {
            return None;
        }
        let addr = self.next_addr;
        self.remaining = self.remaining - 1;
        if self.remaining > 0 {
            self.next_addr = self.next_addr + RECORD_SIZE;
        }
        assert(self@ =~= old(self)@.drop_first());
        Some(addr)
    }

    /// Reads the remaining record slots in order with `read` (given a slot's address, the
    /// record there) and returns the first populated one with its address; the slots up to and
    /// including it leave the reader, and every slot before it was read as empty. `None` once
    /// every slot has been read as empty.
    pub fn next<F: Fn(usize) -> MmioRegisters>(&mut self, read: F) -> (r: Option<
        (usize, MmioRegisters),
    >)
        requires
            forall|addr: usize| read.requires((addr,)),
        ensures
            next_outcome(read, old(self)@, final(self)@, r),
    {
        let ghost start = self@;
        let ghost mut visited: int = 0;
        assert(start.skip(0) =~= start);
        loop
            invariant
                forall|addr: usize| read.requires((addr,)),
                start == old(self)@,
                0 <= visited <= start.len(),
                self@ == start.skip(visited),
                forall|j: int| 0 <= j < visited ==> read_as_empty(read, start[j]),
            decreases self@.len(),
        {
            match self.next_record_addr() {
                None => {
                    return None;
                },
                Some(addr) => {
                    let record = read(addr);
                    proof {
                        assert(start[visited] == addr);
                        assert(self@ =~= start.skip(visited + 1));
                        visited = visited + 1;
                    }
                    if !record.is_empty() {
                        assert(old(self)@[visited - 1] == addr);
                        return Some((addr, record));
                    }
                    assert(read_as_empty(read, start[visited - 1]));
                },
            }
        }
    }
}

} // verus!
