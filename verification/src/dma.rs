//! A table of DMA descriptors shared with the controller.
use vstd::prelude::*;

verus! {

/// A descriptor table in memory that the controller reads and writes.
///
/// The table is held as plain values: `cpu_addr` and `phy_addr` say where it
/// lives for the processor and for the controller, and the entries are the
/// driver's copy of its contents. That copy matches the memory only once the
/// caller has carried out the descriptor stores the driver asks for and has
/// loaded into the table what the controller wrote.
pub struct Dma<T> {
    pub cpu_addr: usize,
    pub phy_addr: usize,
    pub entries: Vec<T>,
}

impl<T> View for Dma<T> {
    type V = Seq<T>;

    /// The entries of the table, in order.
    open spec fn view(&self) -> Seq<T> {
        self.entries@
    }
}

/// What a read of entry `index` gives on a table holding `s`.
pub open spec fn dma_read_spec<T>(s: Seq<T>, index: int) -> Option<T> {
    if 0 <= index < s.len() {
        Some(s[index])
    } else {
        None
    }
}

/// The table `s` after a write of `value` to entry `index`; a write past the
/// end leaves it unchanged.
pub open spec fn dma_write_spec<T>(s: Seq<T>, index: int, value: T) -> Seq<T> {
    if 0 <= index < s.len() {
        s.update(index, value)
    } else {
        s
    }
}

impl<T: Copy> Dma<T> {
    /// A table of `count` entries at `cpu_addr` / `phy_addr`, each holding `fill`.
    pub fn new(cpu_addr: usize, phy_addr: usize, count: usize, fill: T) -> (d: Self)
        ensures
            d.cpu_addr == cpu_addr,
            d.phy_addr == phy_addr,
            d@ == Seq::new(count as nat, |_i: int| fill),
    {
        let mut entries: Vec<T> = Vec::new();
        let mut k: usize = 0;
        while k < count
            invariant
                k <= count,
                entries@ == Seq::new(k as nat, |_i: int| fill),
            decreases count - k,
        {
            entries.push(fill);
            k = k + 1;
            assert(entries@ =~= Seq::new(k as nat, |_i: int| fill));
        }
        Dma { cpu_addr, phy_addr, entries }
    }

    /// Number of entries.
    pub fn count(&self) -> (n: usize)
        ensures
            n == self@.len(),
    {
        self.entries.len()
    }

    /// Entry `index`, or `None` past the end of the table.
    pub fn read_volatile(&self, index: usize) -> (r: Option<T>)
        ensures
            r == dma_read_spec(self@, index as int),
            index < self@.len() ==> r == Some(self@[index as int]),
            index >= self@.len() ==> r is None,
    {
        if index < self.entries.len() {
            Some(self.entries[index])
        } else {
            None
        }
    }

    /// Stores `value` in entry `index`; returns whether `index` lies in the
    /// table. Past the end nothing changes.
    pub fn write_volatile(&mut self, index: usize, value: &T) -> (ok: bool)
        ensures
            ok == (index < old(self)@.len()),
            final(self)@ == dma_write_spec(old(self)@, index as int, *value),
            index < old(self)@.len() ==> final(self)@ == old(self)@.update(index as int, *value),
            index >= old(self)@.len() ==> final(self)@ == old(self)@,
            final(self).cpu_addr == old(self).cpu_addr,
            final(self).phy_addr == old(self).phy_addr,
    {
        if index < self.entries.len() {
            self.entries.set(index, *value);
            true
        } else {
            false
        }
    }
}

/// Reading an entry gives back what the last write to it stored, and a write
/// to one entry leaves every other entry as it was. The length never changes.
pub proof fn lemma_read_after_write<T>(s: Seq<T>, index: int, value: T, other: int)
    requires
        0 <= index < s.len(),
        other != index,
    ensures
        dma_read_spec(dma_write_spec(s, index, value), index) == Some(value),
        dma_read_spec(dma_write_spec(s, index, value), other) == dma_read_spec(s, other),
        dma_write_spec(s, index, value).len() == s.len(),
{
}

} // verus!
