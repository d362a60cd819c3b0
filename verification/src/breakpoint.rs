//! The breakpoint table: a mapping from target-process virtual address to the
//! original byte that was overwritten to install the trap instruction there.
//!
//! At any moment at most one record exists per address; re-setting an address
//! that is already present does not create a second record.  A record whose
//! `original_byte` is `None` marks a breakpoint that was requested before a
//! process existed (or whose installation failed) and is not yet installed.
//! Display numbering of breakpoints is their insertion order.

use vstd::prelude::*;

verus! {

/// One breakpoint record.
#[derive(Clone, Copy, PartialEq, Eq, Structural, Debug)]
pub struct Breakpoint {
    /// Target-process virtual address; unique key within the table.
    pub address: usize,
    /// The byte that was at `address` before the trap byte was patched in,
    /// or `None` while the breakpoint is not installed.
    pub original_byte: Option<u8>,
}

/// No two records share an address.
pub open spec fn addresses_unique(entries: Seq<Breakpoint>) -> bool {
    forall|i: int, j: int|
        0 <= i < j < entries.len() ==> entries[i].address != entries[j].address
}

/// Table of breakpoint records, in insertion order.
pub struct BreakpointTable {
    entries: Vec<Breakpoint>,
}

impl View for BreakpointTable {
    type V = Seq<Breakpoint>;

    closed spec fn view(&self) -> Seq<Breakpoint> {
        self.entries@
    }
}

impl BreakpointTable {
    #[verifier::type_invariant]
    pub(crate) open spec fn wf(self) -> bool {
        addresses_unique(self@)
    }

    /// Whether some record has this address.
    pub open spec fn contains_addr(self, address: usize) -> bool {
        exists|i: int| 0 <= i < self@.len() && self@[i].address == address
    }

    /// The index of the record with this address (meaningful only when
    /// `contains_addr` holds; by uniqueness it is then the one such index).
    pub open spec fn addr_index(self, address: usize) -> int {
        choose|i: int| 0 <= i < self@.len() && self@[i].address == address
    }

    /// The byte recorded as overwritten at this address: `Some` exactly when
    /// a record exists there and its original byte has been recorded.
    pub open spec fn spec_installed_byte(self, address: usize) -> Option<u8> {
        if self.contains_addr(address) {
            self@[self.addr_index(address)].original_byte
        } else {
            None
        }
    }

    /// An index that holds `address` is the index `addr_index` speaks of.
    pub(crate) proof fn lemma_index_determined(self, address: usize, i: int)
        requires
            addresses_unique(self@),
            0 <= i < self@.len(),
            self@[i].address == address,
        ensures
            self.addr_index(address) == i,
            self.contains_addr(address),
    {
        assert(self.contains_addr(address));
        let j = self.addr_index(address);
        if i < j {
            assert(self@[i].address != self@[j].address);
        } else if j < i {
            assert(self@[j].address != self@[i].address);
        }
    }

    /// A fresh, empty table.
    pub fn new() -> (table: Self)
        ensures
            table@ == Seq::<Breakpoint>::empty(),
    {
        BreakpointTable { entries: Vec::new() }
    }

    /// Number of records.
    pub fn len(&self) -> (n: usize)
        ensures
            n == self@.len(),
    {
        self.entries.len()
    }

    /// The address of the record at position `i` (insertion order).
    pub fn address_at(&self, i: usize) -> (address: usize)
        requires
            i < self@.len(),
        ensures
            address == self@[i as int].address,
    {
        self.entries[i].address
    }

    /// The position of the record with this address, if one exists.
    fn find(&self, address: usize) -> (found: Option<usize>)
        ensures
            match found {
                Some(i) => i < self@.len() && self@[i as int].address == address,
                None => !self.contains_addr(address),
            },
    {
        let n = self.entries.len();
        let mut i: usize = 0;
        while i < n
            invariant
                n == self.entries@.len(),
                i <= n,
                forall|k: int| 0 <= k < i ==> self.entries@[k].address != address,
            decreases n - i,
        {
            if self.entries[i].address == address {
                return Some(i);
            }
            i += 1;
        }
        None
    }

    /// Record the intent to break at `address` and return the breakpoint's
    /// display number.  Always succeeds.  A new address is appended with no
    /// original byte yet; an address already present keeps its one existing
    /// record, so no sequence of calls ever produces a duplicate.
    pub fn set(&mut self, address: usize) -> (id: usize)
        ensures
            addresses_unique(final(self)@),
            final(self).contains_addr(address),
            old(self).contains_addr(address) ==> final(self)@ == old(self)@ && id
                == old(self).addr_index(address),
            !old(self).contains_addr(address) ==> final(self)@ == old(self)@.push(
                Breakpoint { address, original_byte: None },
            ) && id == old(self)@.len(),
    {
        proof {
            use_type_invariant(&*self);
        }
        match self.find(address) {
            Some(i) => {
                proof {
                    self.lemma_index_determined(address, i as int);
                }
                i
            },
            None => {
                let n = self.entries.len();
                let mut entries: Vec<Breakpoint> = Vec::new();
                std::mem::swap(&mut entries, &mut self.entries);
                entries.push(Breakpoint { address, original_byte: None });
                self.entries = entries;
                proof {
                    use_type_invariant(&*self);
                    self.lemma_index_determined(address, n as int);
                }
                n
            },
        }
    }

    /// The original byte recorded for an installed breakpoint at `address`,
    /// if any.
    pub fn installed_byte_for(&self, address: usize) -> (byte: Option<u8>)
        ensures
            byte == self.spec_installed_byte(address),
    {
        proof {
            use_type_invariant(&*self);
        }
        match self.find(address) {
            Some(i) => {
                proof {
                    self.lemma_index_determined(address, i as int);
                }
                self.entries[i].original_byte
            },
            None => None,
        }
    }

    /// Record the byte that was overwritten when the trap was installed at
    /// `address`.  Every other record is left untouched.
    pub fn record_original(&mut self, address: usize, byte: u8)
        requires
            old(self).contains_addr(address),
        ensures
            addresses_unique(final(self)@),
            final(self)@ == old(self)@.update(
                old(self).addr_index(address),
                Breakpoint { address, original_byte: Some(byte) },
            ),
            final(self).spec_installed_byte(address) == Some(byte),
    {
        proof {
            use_type_invariant(&*self);
        }
        match self.find(address) {
            Some(i) => {
                proof {
                    self.lemma_index_determined(address, i as int);
                }
                let mut entries: Vec<Breakpoint> = Vec::new();
                std::mem::swap(&mut entries, &mut self.entries);
                entries[i] = Breakpoint { address, original_byte: Some(byte) };
                self.entries = entries;
                proof {
                    use_type_invariant(&*self);
                    self.lemma_index_determined(address, i as int);
                }
            },
            None => {
                proof {
                    assert(false);
                }
            },
        }
    }
}

} // verus!
