//! A byte store over an inclusive address range, usable as a bus device.
//!
//! Storage is sparse: entries are kept as (offset, byte) pairs keyed by
//! the offset from the lower bound, so a device may cover the full 64K
//! space without a dense allocation. An offset never written reads as 0.
//! Lookup takes the first entry with the sought offset, and a write
//! replaces that entry in place (or appends a first one), so the store
//! stays coherent whatever state it is in.

use vstd::prelude::*;
use vstd::pervasive::VecAdditionalExecFns;
use crate::bus::Address;
use crate::bus::BusDevice;
use crate::bus::Data;

verus! {

/// The byte stored for `offset` when the scan starts at entry `i`: the
/// first entry from `i` on with that offset, or 0 when none is left.
pub open spec fn mem_lookup_from(entries: Seq<(Address, Data)>, offset: Address, i: int) -> Data
    decreases entries.len() - i,
{
    if i < 0 || i >= entries.len() {
        0
    } else if entries[i].0 == offset {
        entries[i].1
    } else {
        mem_lookup_from(entries, offset, i + 1)
    }
}

/// The byte stored for `offset`: the first matching entry, or 0 for an
/// offset never written.
pub open spec fn mem_lookup(entries: Seq<(Address, Data)>, offset: Address) -> Data {
    mem_lookup_from(entries, offset, 0)
}

/// A bus device owning byte storage for the inclusive address range
/// `[lower_bound, upper_bound]`.
pub struct Memory {
    pub lower_bound: Address,
    pub upper_bound: Address,
    pub mem: Vec<(Address, Data)>,
}

/// Stores `data` as the byte for `offset`: the first entry for that
/// offset is replaced in place, or a first one is appended. Every other
/// offset keeps its byte.
#[verifier::loop_isolation(false)]
fn store_entry(entries: &mut Vec<(Address, Data)>, offset: Address, data: Data)
    ensures
        mem_lookup(final(entries)@, offset) == data,
        forall|o: Address|
            o != offset ==> #[trigger] mem_lookup(final(entries)@, o) == mem_lookup(
                old(entries)@,
                o,
            ),
{
    let n = entries.len();
    let mut j: usize = 0;
    while j < n
        invariant
            0 <= j <= n,
            entries@ == old(entries)@,
            forall|k: int| 0 <= k < j ==> (#[trigger] entries@[k].0) != offset,
        decreases n - j,
    {
        if entries[j].0 == offset {
            entries.set(j, (offset, data));
            proof {
                lemma_lookup_prefix(entries@, offset, j as int);
                assert forall|o: Address| o != offset implies #[trigger] mem_lookup(entries@, o)
                    == mem_lookup(old(entries)@, o) by {
                    lemma_lookup_agrees(old(entries)@, entries@, o, 0);
                }
            }
            return ;
        }
        j += 1;
    }
    entries.push((offset, data));
    proof {
        lemma_lookup_prefix(entries@, offset, n as int);
        assert(mem_lookup_from(entries@, offset, n + 1) == 0);
        assert forall|o: Address| o != offset implies #[trigger] mem_lookup(entries@, o)
            == mem_lookup(old(entries)@, o) by {
            lemma_lookup_push_other(old(entries)@, (offset, data), o, 0);
        }
    }
}

impl BusDevice for Memory {
    /// Readable exactly on the inclusive range `[lower_bound, upper_bound]`.
    open spec fn readable_for(&self, address: Address) -> bool {
        self.lower_bound <= address <= self.upper_bound
    }

    /// Writable exactly on the inclusive range `[lower_bound, upper_bound]`.
    open spec fn writable_for(&self, address: Address) -> bool {
        self.lower_bound <= address <= self.upper_bound
    }

    /// The stored byte at offset `address - lower_bound`, 0 by default.
    open spec fn value_at(&self, address: Address) -> Data {
        if self.lower_bound <= address {
            mem_lookup(self.mem@, (address - self.lower_bound) as Address)
        } else {
            0
        }
    }

    fn is_readable_for(&self, address: Address) -> (r: bool) {
        self.lower_bound <= address && address <= self.upper_bound
    }

    fn is_writable_for(&self, address: Address) -> (r: bool) {
        self.lower_bound <= address && address <= self.upper_bound
    }

    #[verifier::loop_isolation(false)]
    fn do_read(&self, address: Address) -> (r: Data) {
        let offset = address - self.lower_bound;
        let n = self.mem.len();
        let mut j: usize = 0;
        while j < n
            invariant
                0 <= j <= n,
                forall|k: int| 0 <= k < j ==> (#[trigger] self.mem@[k].0) != offset,
            decreases n - j,
        {
            if self.mem[j].0 == offset {
                proof {
                    lemma_lookup_prefix(self.mem@, offset, j as int);
                }
                return self.mem[j].1;
            }
            j += 1;
        }
        proof {
            lemma_lookup_prefix(self.mem@, offset, n as int);
        }
        0
    }

    fn do_write(&mut self, address: Address, data: Data) {
        let offset = address - self.lower_bound;
        store_entry(&mut self.mem, offset, data);
        proof {
            assert forall|a: Address| a != address implies #[trigger] self.value_at(a) == old(
                self,
            ).value_at(a) by {
                if self.lower_bound <= a {
                    assert((a - self.lower_bound) as Address != offset);
                }
            }
        }
    }
}

impl Memory {
    /// A memory covering the inclusive range `[start, end]`, with every
    /// offset unwritten: each covered address reads as 0.
    pub fn new(start: Address, end: Address) -> (r: Memory)
        ensures
            r.lower_bound == start,
            r.upper_bound == end,
            r.mem@ == Seq::<(Address, Data)>::empty(),
            forall|a: Address| #[trigger] r.value_at(a) == 0,
    {
        let r = Memory { lower_bound: start, upper_bound: end, mem: Vec::new() };
        proof {
            assert(r.mem@ =~= Seq::<(Address, Data)>::empty());
        }
        r
    }

    /// Bulk load: stores `data` at consecutive addresses from `start`
    /// on, the address incrementing by one per byte. The whole block
    /// must lie inside the covered range; a block that would run past
    /// `upper_bound` is a caller error, ruled out up front rather than
    /// handled.
    #[verifier::loop_isolation(false)]
    pub fn write(&mut self, start: Address, data: Vec<Data>)
        requires
            data@.len() > 0 ==> old(self).lower_bound <= start,
            data@.len() > 0 ==> start + data@.len() - 1 <= old(self).upper_bound,
        ensures
            final(self).lower_bound == old(self).lower_bound,
            final(self).upper_bound == old(self).upper_bound,
            forall|k: int|
                0 <= k < data@.len() ==> #[trigger] final(self).value_at((start + k) as Address)
                    == data@[k],
            forall|a: Address|
                !(start <= a < start + data@.len()) ==> #[trigger] final(self).value_at(a) == old(
                    self,
                ).value_at(a),
    {
        let n = data.len();
        let mut k: usize = 0;
        while k < n
            invariant
                0 <= k <= n,
                self.lower_bound == old(self).lower_bound,
                self.upper_bound == old(self).upper_bound,
                forall|m: int|
                    0 <= m < k ==> #[trigger] self.value_at((start + m) as Address) == data@[m],
                forall|a: Address|
                    !(start <= a < start + k) ==> #[trigger] self.value_at(a) == old(
                        self,
                    ).value_at(a),
            decreases n - k,
        {
            let address = start + (k as u16);
            let offset = address - self.lower_bound;
            let ghost prev: Memory = *self;
            store_entry(&mut self.mem, offset, data[k]);
            proof {
                assert(self.value_at(address) == data@[k as int]);
                assert forall|a: Address| a != address implies #[trigger] self.value_at(a)
                    == prev.value_at(a) by {
                    if self.lower_bound <= a {
                        assert((a - self.lower_bound) as Address != offset);
                    }
                }
            }
            k += 1;
        }
    }

    /// The device again as a freshly owned value, for handing to a bus
    /// while keeping this one: same bounds, same stored entries.
    #[verifier::loop_isolation(false)]
    pub fn as_cloned_bus_device(&self) -> (r: Memory)
        ensures
            r.lower_bound == self.lower_bound,
            r.upper_bound == self.upper_bound,
            r.mem@ == self.mem@,
    {
        let mut entries: Vec<(Address, Data)> = Vec::new();
        let n = self.mem.len();
        let mut j: usize = 0;
        while j < n
            invariant
                0 <= j <= n,
                entries@ == self.mem@.subrange(0, j as int),
            decreases n - j,
        {
            entries.push(self.mem[j]);
            proof {
                assert(entries@ =~= self.mem@.subrange(0, j + 1));
            }
            j += 1;
        }
        proof {
            assert(self.mem@.subrange(0, n as int) =~= self.mem@);
        }
        Memory { lower_bound: self.lower_bound, upper_bound: self.upper_bound, mem: entries }
    }

    /// Diagnostic inspection: the stored bytes at the inclusive address
    /// range `[lo, hi]`, exactly as a read would return them, with no
    /// side effect.
    #[verifier::loop_isolation(false)]
    pub fn dump(&self, lo: Address, hi: Address) -> (r: Vec<Data>)
        requires
            self.lower_bound <= lo <= hi <= self.upper_bound,
        ensures
            r@.len() == hi - lo + 1,
            forall|k: int| 0 <= k < r@.len() ==> r@[k] == self.value_at((lo + k) as Address),
    {
        let count: usize = (hi - lo) as usize + 1;
        let mut r: Vec<Data> = Vec::new();
        let mut k: usize = 0;
        while k < count
            invariant
                0 <= k <= count,
                r@.len() == k,
                forall|m: int| 0 <= m < k ==> r@[m] == self.value_at((lo + m) as Address),
            decreases count - k,
        {
            r.push(self.do_read(lo + (k as u16)));
            k += 1;
        }
        r
    }
}

/// A scan that has passed the first `i` entries without a match returns
/// what the scan of the whole list returns.
proof fn lemma_lookup_prefix(entries: Seq<(Address, Data)>, offset: Address, i: int)
    requires
        0 <= i <= entries.len(),
        forall|k: int| 0 <= k < i ==> (#[trigger] entries[k].0) != offset,
    ensures
        mem_lookup(entries, offset) == mem_lookup_from(entries, offset, i),
    decreases i,
{
    if i > 0 {
        lemma_lookup_prefix(entries, offset, i - 1);
    }
}

/// Two entry lists that agree on every entry for `offset` from `i` on
/// look the same up for `offset` from `i` on.
proof fn lemma_lookup_agrees(
    e1: Seq<(Address, Data)>,
    e2: Seq<(Address, Data)>,
    offset: Address,
    i: int,
)
    requires
        e1.len() == e2.len(),
        0 <= i <= e1.len(),
        forall|k: int| i <= k < e1.len() ==> (((#[trigger] e1[k]).0 == offset) == (e2[k].0
            == offset)),
        forall|k: int| i <= k < e1.len() && e1[k].0 == offset ==> e1[k].1 == e2[k].1,
    ensures
        mem_lookup_from(e1, offset, i) == mem_lookup_from(e2, offset, i),
    decreases e1.len() - i,
{
    if i < e1.len() {
        lemma_lookup_agrees(e1, e2, offset, i + 1);
    }
}

/// Appending an entry for a different offset does not change what a
/// scan for `offset` returns.
proof fn lemma_lookup_push_other(
    entries: Seq<(Address, Data)>,
    entry: (Address, Data),
    offset: Address,
    i: int,
)
    requires
        0 <= i <= entries.len(),
        entry.0 != offset,
    ensures
        mem_lookup_from(entries.push(entry), offset, i) == mem_lookup_from(entries, offset, i),
    decreases entries.len() - i,
{
    if i < entries.len() {
        lemma_lookup_push_other(entries, entry, offset, i + 1);
    } else {
        assert(entries.push(entry)[i] == entry);
        assert(mem_lookup_from(entries.push(entry), offset, i + 1) == 0);
    }
}

} // verus!
