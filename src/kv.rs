//! The key-value substrate: byte keys to byte values, with get, put and exists.
use vstd::prelude::*;

verus! {

/// Whether two byte strings are equal.
pub fn bytes_eq(a: &[u8], b: &[u8]) -> (r: bool)
    ensures
        r == (a@ == b@),
{
    if a.len() != b.len() {
        return false;
    }
    let mut i: usize = 0;
    while i < a.len()
        invariant
            i <= a@.len(),
            a@.len() == b@.len(),
            forall|j: int| 0 <= j < i ==> a@[j] == b@[j],
        decreases a@.len() - i,
    {
        if a[i] != b[i] {
            return false;
        }
        i = i + 1;
    }
    assert(a@ =~= b@);
    true
}

/// An in-memory key-value store.
pub struct MemoryDb {
    entries: Vec<(Vec<u8>, Vec<u8>)>,
    contents: Ghost<Map<Seq<u8>, Seq<u8>>>,
}

impl View for MemoryDb {
    type V = Map<Seq<u8>, Seq<u8>>;

    closed spec fn view(&self) -> Map<Seq<u8>, Seq<u8>> {
        self.contents@
    }
}

impl MemoryDb {
    /// Each key of the view is the key of exactly one entry, which holds the
    /// view's value for it.
    pub closed spec fn wf(&self) -> bool {
        &&& forall|k: Seq<u8>|
            #![trigger self.contents@.contains_key(k)]
            self.contents@.contains_key(k) <==> exists|i: int|
                0 <= i < self.entries@.len() && #[trigger] self.entries@[i].0@ == k
        &&& forall|i: int|
            0 <= i < self.entries@.len() ==> self.contents@[#[trigger] self.entries@[i].0@]
                == self.entries@[i].1@
        &&& forall|i: int, j: int|
            0 <= i < j < self.entries@.len() ==> self.entries@[i].0@ != self.entries@[j].0@
    }

    /// An empty store.
    pub fn new() -> (r: MemoryDb)
        ensures
            r.wf(),
            r@ == Map::<Seq<u8>, Seq<u8>>::empty(),
    {
        MemoryDb { entries: Vec::new(), contents: Ghost(Map::empty()) }
    }

    /// The position of `key` among the entries, if it is there.
    fn position(&self, key: &[u8]) -> (r: Option<usize>)
        requires
            self.wf(),
        ensures
            match r {
                Some(i) => i < self.entries@.len() && self.entries@[i as int].0@ == key@,
                None => !self@.contains_key(key@),
            },
    {
        let mut i: usize = 0;
        while i < self.entries.len()
            invariant
                i <= self.entries@.len(),
                forall|j: int| 0 <= j < i ==> self.entries@[j].0@ != key@,
            decreases self.entries@.len() - i,
        {
            if bytes_eq(self.entries[i].0.as_slice(), key) {
                return Some(i);
            }
            i = i + 1;
        }
        None
    }

    /// Whether a value is stored under `key`.
    pub fn contains(&self, key: &[u8]) -> (r: bool)
        requires
            self.wf(),
        ensures
            r == self@.contains_key(key@),
    {
        self.position(key).is_some()
    }

    /// The value stored under `key`, if any.
    pub fn get(&self, key: &[u8]) -> (r: Option<Vec<u8>>)
        requires
            self.wf(),
        ensures
            match r {
                Some(v) => self@.contains_key(key@) && v@ == self@[key@],
                None => !self@.contains_key(key@),
            },
    {
        match self.position(key) {
            Some(i) => Some(self.entries[i].1.clone()),
            None => None,
        }
    }

    /// Stores `value` under `key`, replacing what was there.
    pub fn put(&mut self, key: &[u8], value: &[u8])
        requires
            old(self).wf(),
        ensures
            final(self).wf(),
            final(self)@ == old(self)@.insert(key@, value@),
    {
        let pos = self.position(key);
        let ghost contents = self.contents@.insert(key@, value@);
        let ghost old_entries = self.entries@;
        let mut entries: Vec<(Vec<u8>, Vec<u8>)> = Vec::new();
        std::mem::swap(&mut entries, &mut self.entries);
        assert(entries@ == old_entries);
        match pos {
            Some(i) => {
                entries.set(i, (vstd::slice::slice_to_vec(key), vstd::slice::slice_to_vec(value)));
            },
            None => {
                entries.push((vstd::slice::slice_to_vec(key), vstd::slice::slice_to_vec(value)));
            },
        }
        proof {
            assert forall|k: Seq<u8>| #![trigger contents.contains_key(k)]
                contents.contains_key(k) <==> exists|i: int|
                    0 <= i < entries@.len() && #[trigger] entries@[i].0@ == k by {
                if contents.contains_key(k) {
                    if k == key@ {
                        match pos {
                            Some(p) => assert(entries@[p as int].0@ == k),
                            None => assert(entries@[entries@.len() - 1].0@ == k),
                        }
                    } else {
                        let j = choose|j: int|
                            0 <= j < old_entries.len() && #[trigger] old_entries[j].0@ == k;
                        assert(entries@[j].0@ == k);
                    }
                }
                if exists|i: int| 0 <= i < entries@.len() && #[trigger] entries@[i].0@ == k {
                    let j = choose|j: int| 0 <= j < entries@.len() && #[trigger] entries@[j].0@ == k;
                    if k != key@ {
                        assert(old_entries[j].0@ == k);
                    }
                }
            }
        }
        proof {
            assert forall|i: int| 0 <= i < entries@.len() implies contents[#[trigger] entries@[i].0@]
                == entries@[i].1@ by {
                if entries@[i].0@ != key@ {
                    assert(old_entries[i].0@ == entries@[i].0@);
                } else {
                    match pos {
                        Some(p) => {
                            if i != p as int {
                                assert(old_entries[i].0@ == entries@[i].0@);
                                assert(old_entries[p as int].0@ == key@);
                            }
                        },
                        None => {
                            if i < old_entries.len() {
                                assert(old_entries[i].0@ == entries@[i].0@);
                            }
                        },
                    }
                }
            }
            assert forall|i: int, j: int| 0 <= i < j < entries@.len() implies entries@[i].0@
                != entries@[j].0@ by {
                assert(i < old_entries.len());
                if j == old_entries.len() {
                    assert(old_entries[i].0@ == entries@[i].0@);
                } else {
                    match pos {
                        Some(p) => {
                            if i == p as int {
                                assert(old_entries[j].0@ == entries@[j].0@);
                            } else if j == p as int {
                                assert(old_entries[i].0@ == entries@[i].0@);
                            }
                        },
                        None => {},
                    }
                }
            }
        }
        *self = MemoryDb { entries, contents: Ghost(contents) };
        assert(self.wf());
    }
}

} // verus!
