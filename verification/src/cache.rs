//! The in-process mosque-directory cache: an owned, injected object mapping
//! a key to scraped timetable data, fresh for one hour of wall-clock age.

use vstd::prelude::*;
use crate::timetable::MosqueTimetable;

verus! {

/// Seconds a directory entry stays fresh.
pub const DIRECTORY_TTL_SECS: i64 = 3600;

/// One cached directory lookup.
#[derive(Debug)]
pub struct DirectoryEntry {
    pub key: String,
    pub data: MosqueTimetable,
    pub cached_at: i64,
}

/// The directory cache; its entries carry pairwise distinct keys.
#[derive(Debug)]
pub struct MosqueDirectoryCache {
    pub entries: Vec<DirectoryEntry>,
}

/// Index of the entry holding a key, if any.
pub open spec fn spec_entry_index(s: Seq<DirectoryEntry>, key: Seq<char>) -> int {
    choose|i: int| 0 <= i < s.len() && (#[trigger] s[i]).key@ == key
}

pub open spec fn spec_holds_key(s: Seq<DirectoryEntry>, key: Seq<char>) -> bool {
    exists|i: int| 0 <= i < s.len() && (#[trigger] s[i]).key@ == key
}

impl MosqueDirectoryCache {
    /// No two entries share a key.
    pub open spec fn keys_unique(&self) -> bool {
        forall|i: int, j: int|
            0 <= i < j < self.entries@.len() ==> (#[trigger] self.entries@[i]).key@ != (
            #[trigger] self.entries@[j]).key@
    }

    /// Every entry's write stamp is a representable instant.
    pub open spec fn stamps_ok(&self) -> bool {
        forall|i: int|
            0 <= i < self.entries@.len() ==> 0 <= (#[trigger] self.entries@[i]).cached_at
                <= crate::prayer::MAX_TIMESTAMP
    }

    /// Validity: distinct keys, representable stamps.
    pub open spec fn wf(&self) -> bool {
        self.keys_unique() && self.stamps_ok()
    }

    pub fn new() -> (r: Self)
        ensures
            r.wf(),
            r.entries@.len() == 0,
    {
        MosqueDirectoryCache { entries: Vec::new() }
    }

    /// The entry cached under a key, provided it is still fresh: strictly
    /// younger than the time-to-live.
    pub fn get_fresh(&self, key: &str, now: i64) -> (r: Option<&MosqueTimetable>)
        requires
            self.wf(),
            0 <= now <= crate::prayer::MAX_TIMESTAMP,
        ensures
            (r is Some) == (spec_holds_key(self.entries@, key@) && now - self.entries@[
                spec_entry_index(self.entries@, key@)
            ].cached_at < DIRECTORY_TTL_SECS),
            r is Some ==> *r->Some_0 == self.entries@[spec_entry_index(
                self.entries@,
                key@,
            )].data,
    {
        let n = self.entries.len();
        let mut i: usize = 0;
        while i < n
            invariant
                self.wf(),
                0 <= now <= crate::prayer::MAX_TIMESTAMP,
                n == self.entries@.len(),
                0 <= i <= n,
                forall|j: int| 0 <= j < i ==> (#[trigger] self.entries@[j]).key@ != key@,
            decreases n - i,
        {
            if entry_key_is(&self.entries[i], key) {
                proof {
                    assert(self.entries@[i as int].key@ == key@);
                    assert(spec_holds_key(self.entries@, key@));
                    assert(spec_entry_index(self.entries@, key@) == i as int) by {
                        let k = spec_entry_index(self.entries@, key@);
                        assert(0 <= k < self.entries@.len() && self.entries@[k].key@ == key@);
                        if k > i as int {
                            assert(self.entries@[i as int].key@ != self.entries@[k].key@);
                        }
                    }
                    assert(0 <= self.entries@[i as int].cached_at <= crate::prayer::MAX_TIMESTAMP);
                }
                if now - self.entries[i].cached_at < DIRECTORY_TTL_SECS {
                    return Some(&self.entries[i].data);
                } else {
                    return None;
                }
            }
            i = i + 1;
        }
        None
    }

    /// Records a lookup under a key, overwriting any entry the key had.
    pub fn put(&mut self, key: &str, data: MosqueTimetable, now: i64)
        requires
            old(self).wf(),
            0 <= now <= crate::prayer::MAX_TIMESTAMP,
        ensures
            final (self).wf(),
            spec_holds_key(final (self).entries@, key@),
            final (self).entries@[spec_entry_index(final (self).entries@, key@)].data == data,
            final (self).entries@[spec_entry_index(final (self).entries@, key@)].cached_at == now,
    {
        let n = self.entries.len();
        let mut i: usize = 0;
        while i < n
            invariant
                n == self.entries@.len(),
                self.wf(),
                0 <= now <= crate::prayer::MAX_TIMESTAMP,
                0 <= i <= n,
                forall|j: int| 0 <= j < i ==> (#[trigger] self.entries@[j]).key@ != key@,
            decreases n - i,
        {
            if entry_key_is(&self.entries[i], key) {
                let ghost before = self.entries@;
                let entry = DirectoryEntry { key: key.to_owned(), data, cached_at: now };
                self.entries[i] = entry;
                proof {
                    assert forall|a: int|
                        0 <= a < self.entries@.len() implies 0 <= (
                    #[trigger] self.entries@[a]).cached_at <= crate::prayer::MAX_TIMESTAMP by {
                        if a != i as int {
                            assert(0 <= before[a].cached_at <= crate::prayer::MAX_TIMESTAMP);
                        }
                    }
                    assert forall|a: int, b: int|
                        0 <= a < b < self.entries@.len() implies (#[trigger] self.entries@[a]).key@
                        != (#[trigger] self.entries@[b]).key@ by {
                        assert(before[a].key@ != before[b].key@);
                    }
                    assert(spec_entry_index(self.entries@, key@) == i as int) by {
                        let k = spec_entry_index(self.entries@, key@);
                        assert(self.entries@[i as int].key@ == key@);
                        assert(0 <= k < self.entries@.len() && self.entries@[k].key@ == key@);
                        if k != i as int {
                            if k < i as int {
                                assert(before[k].key@ != before[i as int].key@);
                            }
                        }
                    }
                }
                return ;
            }
            i = i + 1;
        }
        let ghost before = self.entries@;
        let entry = DirectoryEntry { key: key.to_owned(), data, cached_at: now };
        self.entries.push(entry);
        proof {
            assert(self.entries@.len() == before.len() + 1);
            assert(self.entries@[before.len() as int].key@ == key@);
            assert forall|a: int|
                0 <= a < self.entries@.len() implies 0 <= (
            #[trigger] self.entries@[a]).cached_at <= crate::prayer::MAX_TIMESTAMP by {
                if a < before.len() {
                    assert(0 <= before[a].cached_at <= crate::prayer::MAX_TIMESTAMP);
                }
            }
            assert forall|a: int, b: int|
                0 <= a < b < self.entries@.len() implies (#[trigger] self.entries@[a]).key@ != (
            #[trigger] self.entries@[b]).key@ by {
                if b < before.len() {
                    assert(before[a].key@ != before[b].key@);
                } else {
                    assert(before[a].key@ != key@);
                }
            }
            assert(spec_entry_index(self.entries@, key@) == before.len() as int) by {
                let k = spec_entry_index(self.entries@, key@);
                assert(0 <= k < self.entries@.len() && self.entries@[k].key@ == key@);
                if k < before.len() {
                    assert(before[k].key@ != key@);
                }
            }
        }
    }
}

fn entry_key_is(e: &DirectoryEntry, key: &str) -> (r: bool)
    ensures
        r == (e.key@ == key@),
{
    e.key == key.to_owned()
}

} // verus!
