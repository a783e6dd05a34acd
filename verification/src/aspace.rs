//! Address-space model.
//!
//! The real address space — page tables, mappings, permissions — belongs
//! to the external memory service; this core only ever reads and writes
//! single user words (tid-write addresses, the `clear_child_tid` word) and
//! decides whether a space is shared or deep-copied. A space is therefore
//! modeled as a table of mapped words under an identity: two processes
//! share an address space exactly when they hold the same identifier.

use vstd::prelude::*;

use crate::table::{
    find_key, has_key, key_at, lemma_key_idx_is, lemma_push_fresh_key, lemma_update_same_key,
    unique_keys, Keyed,
};

verus! {

/// One mapped user word: an address and its current value.
#[derive(Debug, Clone, Copy)]
pub struct MemWord {
    /// The word's user-space address.
    pub addr: usize,
    /// The word's current value.
    pub val: u32,
}

impl Keyed for MemWord {
    open spec fn spec_key(&self) -> u64 {
        self.addr as u64
    }

    fn key(&self) -> u64 {
        self.addr as u64
    }
}

/// A user address space: an identity plus the words mapped in it.
#[derive(Debug)]
pub struct AddrSpace {
    /// The space's identity; processes sharing memory share this.
    pub id: u64,
    /// The words currently mapped, each address at most once.
    pub mem: Vec<MemWord>,
    /// Whether the kernel's own mappings have been copied in.
    pub kernel_mapped: bool,
}

impl Keyed for AddrSpace {
    open spec fn spec_key(&self) -> u64 {
        self.id
    }

    fn key(&self) -> u64 {
        self.id
    }
}

impl AddrSpace {
    /// Each address is mapped at most once.
    pub open spec fn wf(self) -> bool {
        unique_keys(self.mem@)
    }

    /// True iff `addr` is a mapped (valid) user word.
    pub open spec fn spec_has_word(self, addr: usize) -> bool {
        has_key(self.mem@, addr as u64)
    }

    /// The value of the word at `addr`, when mapped.
    pub open spec fn spec_word(self, addr: usize) -> u32 {
        key_at(self.mem@, addr as u64).val
    }

    /// True iff `other` maps the same addresses to the same values.
    pub open spec fn same_words(self, other: AddrSpace) -> bool {
        forall|a: usize|
            #![trigger self.spec_has_word(a)]
            #![trigger other.spec_has_word(a)]
            self.spec_has_word(a) == other.spec_has_word(a) && (self.spec_has_word(a)
                ==> self.spec_word(a) == other.spec_word(a))
    }

    /// A fresh, empty address space under the identity `id`.
    pub fn empty(id: u64) -> (r: AddrSpace)
        ensures
            r.wf(),
            r.id == id,
            !r.kernel_mapped,
            forall|a: usize| !r.spec_has_word(a),
    {
        let r = AddrSpace { id, mem: Vec::new(), kernel_mapped: false };
        assert forall|a: usize| !r.spec_has_word(a) by {
            assert(r.mem@.len() == 0);
        }
        r
    }

    /// True iff `addr` is a mapped user word.
    pub fn has_word(&self, addr: usize) -> (r: bool)
        ensures
            r == self.spec_has_word(addr),
    {
        find_key(&self.mem, addr as u64).is_some()
    }

    /// Read the word at `addr`, or `None` if the address is not mapped.
    pub fn read_word(&self, addr: usize) -> (r: Option<u32>)
        requires
            self.wf(),
        ensures
            r == if self.spec_has_word(addr) {
                Some(self.spec_word(addr))
            } else {
                None::<u32>
            },
    {
        match find_key(&self.mem, addr as u64) {
            Some(i) => {
                proof {
                    lemma_key_idx_is(self.mem@, i as int);
                }
                Some(self.mem[i].val)
            },
            None => None,
        }
    }

    /// Write the word at `addr` if it is mapped; report whether it was.
    /// An unmapped address leaves the space untouched.
    pub fn write_word(&mut self, addr: usize, val: u32) -> (ok: bool)
        requires
            old(self).wf(),
        ensures
            final(self).wf(),
            final(self).id == old(self).id,
            final(self).kernel_mapped == old(self).kernel_mapped,
            ok == old(self).spec_has_word(addr),
            forall|a: usize| final(self).spec_has_word(a) == old(self).spec_has_word(a),
            ok ==> final(self).spec_word(addr) == val,
            forall|a: usize|
                a != addr && old(self).spec_has_word(a) ==> final(self).spec_word(a) == old(self).spec_word(a),
            !ok ==> *final(self) == *old(self),
    {
        match find_key(&self.mem, addr as u64) {
            Some(i) => {
                let w = MemWord { addr, val };
                proof {
                    lemma_update_same_key(self.mem@, i as int, w);
                }
                self.mem[i] = w;
                assert forall|a: usize|
                    a != addr && old(self).spec_has_word(a) implies final(self).spec_word(a) == old(self).spec_word(a) by {
                    assert(a as u64 != addr as u64);
                }
                true
            },
            None => false,
        }
    }

    /// Map the word at `addr`, overwriting any previous value: the model's
    /// stand-in for the external memory service attaching user memory.
    pub fn map_word(&mut self, addr: usize, val: u32)
        requires
            old(self).wf(),
        ensures
            final(self).wf(),
            final(self).id == old(self).id,
            final(self).kernel_mapped == old(self).kernel_mapped,
            final(self).spec_has_word(addr),
            final(self).spec_word(addr) == val,
            forall|a: usize|
                a != addr ==> final(self).spec_has_word(a) == old(self).spec_has_word(a),
            forall|a: usize|
                a != addr && old(self).spec_has_word(a) ==> final(self).spec_word(a) == old(self).spec_word(a),
    {
        let written = self.write_word(addr, val);
        if !written {
            let w = MemWord { addr, val };
            proof {
                lemma_push_fresh_key(self.mem@, w);
            }
            self.mem.push(w);
            assert forall|a: usize|
                a != addr && old(self).spec_has_word(a) implies final(self).spec_word(a) == old(self).spec_word(a) by {
                assert(a as u64 != addr as u64);
            }
            assert forall|a: usize|
                a != addr implies final(self).spec_has_word(a) == old(self).spec_has_word(a) by {
                assert(a as u64 != addr as u64);
            }
        }
    }

    /// Deep-copy this space's words under a new identity, with the
    /// kernel's own mappings copied in — the non-`VM` clone path.
    pub fn deep_clone(&self, new_id: u64) -> (r: AddrSpace)
        requires
            self.wf(),
        ensures
            r.wf(),
            r.id == new_id,
            r.kernel_mapped,
            r.mem@ == self.mem@,
            r.same_words(*self),
    {
        let n = self.mem.len();
        let mut mem: Vec<MemWord> = Vec::new();
        let mut i: usize = 0;
        while i < n
            invariant
                n == self.mem@.len(),
                i <= n,
                mem@ == self.mem@.take(i as int),
            decreases n - i,
        {
            let w = self.mem[i];
            mem.push(w);
            proof {
                assert(mem@ =~= self.mem@.take(i as int + 1));
            }
            i += 1;
        }
        proof {
            assert(mem@ =~= self.mem@);
        }
        let r = AddrSpace { id: new_id, mem, kernel_mapped: true };
        assert forall|a: usize|
            r.spec_has_word(a) == self.spec_has_word(a) && (r.spec_has_word(a) ==> r.spec_word(a)
                == self.spec_word(a)) by {
            assert(r.mem@ == self.mem@);
        }
        r
    }
}

} // verus!
