//! The cache of extension opcodes, keyed by the 24-byte form of each name.

use crate::wire::EXT_KEY_SIZE;
use vstd::prelude::*;

verus! {

/// Extension key → major opcode. An entry, once made, is never changed.
///
/// The entries are kept as a list of pairs with unique keys: the keys are
/// 24-byte arrays, for which no ordering or hashing is specified to the
/// verifier, so an ordered or hashed map over them would state nothing about
/// lookups.
pub struct ExtensionRegistry {
    entries: Vec<([u8; EXT_KEY_SIZE], u8)>,
    map: Ghost<Map<Seq<u8>, u8>>,
}

/// Whether two keys hold the same bytes.
fn keys_equal(a: &[u8; EXT_KEY_SIZE], b: &[u8; EXT_KEY_SIZE]) -> (r: bool)
    ensures
        r == (a@ == b@),
{
    let mut i: usize = 0;
    while i < EXT_KEY_SIZE
        invariant
            a@.len() == EXT_KEY_SIZE,
            b@.len() == EXT_KEY_SIZE,
            i <= EXT_KEY_SIZE,
            forall|j: int| 0 <= j < i ==> a@[j] == b@[j],
        decreases EXT_KEY_SIZE - i,
    {
        if a[i] != b[i] {
            return false;
        }
        i = i + 1;
    }
    assert(a@ =~= b@);
    true
}

impl ExtensionRegistry {
    /// The opcodes cached so far.
    pub closed spec fn view(&self) -> Map<Seq<u8>, u8> {
        self.map@
    }

    pub closed spec fn wf(&self) -> bool {
        &&& forall|i: int|
            0 <= i < self.entries@.len() ==> {
                &&& #[trigger] self.map@.contains_key(self.entries@[i].0@)
                &&& self.map@[self.entries@[i].0@] == self.entries@[i].1
            }
        &&& forall|k: Seq<u8>|
            #[trigger] self.map@.contains_key(k) ==> exists|i: int|
                0 <= i < self.entries@.len() && self.entries@[i].0@ == k
    }

    /// An empty registry.
    pub fn new() -> (r: ExtensionRegistry)
        ensures
            r.wf(),
            r@ == Map::<Seq<u8>, u8>::empty(),
    {
        ExtensionRegistry { entries: Vec::new(), map: Ghost(Map::empty()) }
    }

    /// The opcode cached under `key`, if any.
    pub fn get(&self, key: &[u8; EXT_KEY_SIZE]) -> (r: Option<u8>)
        requires
            self.wf(),
        ensures
            r == (if self@.contains_key(key@) {
                Some(self@[key@])
            } else {
                None::<u8>
            }),
    {
        let mut i: usize = 0;
        while i < self.entries.len()
            invariant
                self.wf(),
                i <= self.entries@.len(),
                forall|j: int| 0 <= j < i ==> self.entries@[j].0@ != key@,
            decreases self.entries@.len() - i,
        {
            if keys_equal(&self.entries[i].0, key) {
                assert(self.map@.contains_key(self.entries@[i as int].0@));
                return Some(self.entries[i].1);
            }
            i = i + 1;
        }
        proof {
            if self@.contains_key(key@) {
                let k = key@;
                assert(self.map@.contains_key(k));
                let j = choose|j: int| 0 <= j < self.entries@.len() && self.entries@[j].0@ == k;
                assert(self.entries@[j].0@ != key@);
            }
        }
        None
    }

    /// Caches `opcode` under `key`, unless `key` already has an opcode.
    pub fn insert(&mut self, key: [u8; EXT_KEY_SIZE], opcode: u8)
        requires
            old(self).wf(),
        ensures
            final(self).wf(),
            final(self)@ == (if old(self)@.contains_key(key@) {
                old(self)@
            } else {
                old(self)@.insert(key@, opcode)
            }),
    {
        if self.get(&key).is_some() {
            return;
        }
        let ghost old_entries = self.entries@;
        let ghost k = key@;
        self.entries.push((key, opcode));
        self.map = Ghost(self.map@.insert(k, opcode));
        assert forall|i: int| 0 <= i < self.entries@.len() implies {
            &&& #[trigger] self.map@.contains_key(self.entries@[i].0@)
            &&& self.map@[self.entries@[i].0@] == self.entries@[i].1
        } by {
            if i < old_entries.len() {
                assert(self.entries@[i] == old_entries[i]);
            }
        }
        assert forall|k2: Seq<u8>| #[trigger] self.map@.contains_key(k2) implies exists|i: int|
            0 <= i < self.entries@.len() && self.entries@[i].0@ == k2 by {
            if k2 == k {
                assert(self.entries@[old_entries.len() as int].0@ == k2);
            } else {
                assert(old(self).map@.contains_key(k2));
                let i = choose|i: int| 0 <= i < old_entries.len() && old_entries[i].0@ == k2;
                assert(self.entries@[i] == old_entries[i]);
            }
        }
    }
}

} // verus!
