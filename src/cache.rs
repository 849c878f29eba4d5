//! The read cache of the credential store: one record per username, kept in step with the
//! bucket by the writes of this process and by the bucket's change feed.

use vstd::prelude::*;

use crate::types::UserInfo;

verus! {

/// A change of the bucket, as the change feed (or the initial snapshot) reports it.
pub enum CacheEvent {
    /// The key now holds this record.
    Put(String, UserInfo),
    /// The key was deleted.
    Delete(String),
    /// The key was purged with its history.
    Purge(String),
}

/// The record stored under `key` in `entries`, where some entry has that key.
pub open spec fn lookup(entries: Seq<(String, UserInfo)>, key: Seq<char>) -> Option<UserInfo> {
    if exists|i: int| 0 <= i < entries.len() && entries[i].0@ == key {
        let i = choose|i: int| 0 <= i < entries.len() && entries[i].0@ == key;
        Some(entries[i].1)
    } else {
        None
    }
}

/// No key occurs twice among `entries`.
pub open spec fn distinct_keys(entries: Seq<(String, UserInfo)>) -> bool {
    forall|i: int, j: int| 0 <= i < j < entries.len() ==> entries[i].0@ != entries[j].0@
}

/// The record that a cache holding `before` holds under `key` after `event`.
pub open spec fn after_event(before: Option<UserInfo>, key: Seq<char>, event: CacheEvent) -> Option<
    UserInfo,
> {
    match event {
        CacheEvent::Put(k, v) => if k@ == key {
            Some(v)
        } else {
            before
        },
        CacheEvent::Delete(k) => if k@ == key {
            None
        } else {
            before
        },
        CacheEvent::Purge(k) => if k@ == key {
            None
        } else {
            before
        },
    }
}

proof fn lemma_lookup_at(entries: Seq<(String, UserInfo)>, i: int)
    requires
        distinct_keys(entries),
        0 <= i < entries.len(),
    ensures
        lookup(entries, entries[i].0@) == Some(entries[i].1),
{
    let key = entries[i].0@;
    assert(exists|j: int| 0 <= j < entries.len() && entries[j].0@ == key);
    let j = choose|j: int| 0 <= j < entries.len() && entries[j].0@ == key;
    if j != i {
        if j < i {
            assert(entries[j].0@ != entries[i].0@);
        } else {
            assert(entries[i].0@ != entries[j].0@);
        }
    }
}

/// The cached records, by username. The entries are a vector with one entry per username:
/// vstd specifies `HashMap` and `BTreeMap` only for keys whose hashing or ordering it
/// specifies, which `String` keys lack, so a map here would leave lookups unproved.
pub struct UserCache {
    entries: Vec<(String, UserInfo)>,
}

impl UserCache {
    /// The record cached under `key`.
    pub closed spec fn record(&self, key: Seq<char>) -> Option<UserInfo> {
        lookup(self.entries@, key)
    }

    /// The cache is well formed: one entry per username.
    pub closed spec fn wf(&self) -> bool {
        distinct_keys(self.entries@)
    }

    /// An empty cache.
    pub fn new() -> (r: UserCache)
        ensures
            r.wf(),
            forall|k: Seq<char>| r.record(k) is None,
    {
        UserCache { entries: Vec::new() }
    }

    /// The index of the entry for `key`, if any.
    fn find(&self, key: &String) -> (r: Option<usize>)
        requires
            self.wf(),
        ensures
            r matches Some(i) ==> i < self.entries@.len() && self.entries@[i as int].0@ == key@,
            r is None ==> forall|i: int|
                0 <= i < self.entries@.len() ==> self.entries@[i].0@ != key@,
    {
        let mut i: usize = 0;
        while i < self.entries.len()
            invariant
                i <= self.entries@.len(),
                forall|j: int| 0 <= j < i ==> self.entries@[j].0@ != key@,
            decreases self.entries@.len() - i,
        {
            if self.entries[i].0 == *key {
                return Some(i);
            }
            i = i + 1;
        }
        None
    }

    /// Whether a record is cached under `username`.
    pub fn contains(&self, username: &str) -> (r: bool)
        requires
            self.wf(),
        ensures
            r == self.record(username@) is Some,
    {
        let key = username.to_owned();
        match self.find(&key) {
            Some(i) => {
                proof {
                    lemma_lookup_at(self.entries@, i as int);
                }
                true
            },
            None => false,
        }
    }

    /// A copy of the record cached under `username`.
    pub fn get_user(&self, username: &str) -> (r: Option<UserInfo>)
        requires
            self.wf(),
        ensures
            r is Some <==> self.record(username@) is Some,
            r matches Some(u) ==> self.record(username@) matches Some(c) && u.same_as(&c) && (
            c.wf() ==> u.wf()),
    {
        let key = username.to_owned();
        match self.find(&key) {
            Some(i) => {
                proof {
                    lemma_lookup_at(self.entries@, i as int);
                }
                Some(self.entries[i].1.duplicate())
            },
            None => None,
        }
    }

    /// Caches `info` under `username`, replacing any record there.
    pub fn put_user(&mut self, username: String, info: UserInfo)
        requires
            old(self).wf(),
        ensures
            final(self).wf(),
            final(self).record(username@) == Some(info),
            forall|k: Seq<char>| k != username@ ==> final(self).record(k) == old(self).record(k),
    {
        let ghost key = username@;
        let ghost v = info;
        match self.find(&username) {
            Some(i) => {
                self.entries.set(i, (username, info));
                proof {
                    let e = self.entries@;
                    let o = old(self).entries@;
                    assert forall|a: int, b: int| 0 <= a < b < e.len() implies e[a].0@
                        != e[b].0@ by {
                        assert(o[a].0@ != o[b].0@);
                    }
                    lemma_lookup_at(e, i as int);
                    assert forall|k: Seq<char>| k != key implies lookup(e, k) == lookup(o, k) by {
                        if exists|j: int| 0 <= j < o.len() && o[j].0@ == k {
                            let j = choose|j: int| 0 <= j < o.len() && o[j].0@ == k;
                            lemma_lookup_at(o, j);
                            assert(e[j] == o[j]);
                            lemma_lookup_at(e, j);
                        } else {
                            assert forall|j: int| 0 <= j < e.len() implies e[j].0@ != k by {
                                if j != i {
                                    assert(e[j] == o[j]);
                                }
                            }
                        }
                    }
                }
            },
            None => {
                self.entries.push((username, info));
                proof {
                    let e = self.entries@;
                    let o = old(self).entries@;
                    let n = o.len() as int;
                    assert forall|a: int, b: int| 0 <= a < b < e.len() implies e[a].0@
                        != e[b].0@ by {
                        if b < n {
                            assert(o[a].0@ != o[b].0@);
                        } else {
                            assert(e[a] == o[a]);
                        }
                    }
                    lemma_lookup_at(e, n);
                    assert forall|k: Seq<char>| k != key implies lookup(e, k) == lookup(o, k) by {
                        if exists|j: int| 0 <= j < o.len() && o[j].0@ == k {
                            let j = choose|j: int| 0 <= j < o.len() && o[j].0@ == k;
                            lemma_lookup_at(o, j);
                            assert(e[j] == o[j]);
                            lemma_lookup_at(e, j);
                        } else {
                            assert forall|j: int| 0 <= j < e.len() implies e[j].0@ != k by {
                                if j < n {
                                    assert(e[j] == o[j]);
                                }
                            }
                        }
                    }
                }
            },
        }
    }

    /// Drops the record cached under `username`, if any.
    pub fn delete_user(&mut self, username: &str)
        requires
            old(self).wf(),
        ensures
            final(self).wf(),
            final(self).record(username@) is None,
            forall|k: Seq<char>| k != username@ ==> final(self).record(k) == old(self).record(k),
    {
        let key = username.to_owned();
        match self.find(&key) {
            Some(i) => {
                let ghost o = self.entries@;
                let _ = self.entries.remove(i);
                proof {
                    let e = self.entries@;
                    let ii = i as int;
                    assert forall|j: int| 0 <= j < e.len() implies #[trigger] e[j] == (if j < ii {
                        o[j]
                    } else {
                        o[j + 1]
                    }) by {}
                    assert forall|a: int, b: int| 0 <= a < b < e.len() implies e[a].0@
                        != e[b].0@ by {
                        let a2 = if a < ii { a } else { a + 1 };
                        let b2 = if b < ii { b } else { b + 1 };
                        assert(o[a2].0@ != o[b2].0@);
                    }
                    assert forall|j: int| 0 <= j < e.len() implies e[j].0@ != key@ by {
                        let j2 = if j < ii { j } else { j + 1 };
                        assert(o[j2].0@ != o[ii].0@);
                    }
                    assert forall|k: Seq<char>| k != key@ implies lookup(e, k) == lookup(o, k) by {
                        if exists|j: int| 0 <= j < o.len() && o[j].0@ == k {
                            let j = choose|j: int| 0 <= j < o.len() && o[j].0@ == k;
                            lemma_lookup_at(o, j);
                            assert(j != ii);
                            let j1 = if j < ii { j } else { j - 1 };
                            assert(e[j1] == o[j]);
                            lemma_lookup_at(e, j1);
                        } else {
                            assert forall|j: int| 0 <= j < e.len() implies e[j].0@ != k by {
                                let j2 = if j < ii { j } else { j + 1 };
                                assert(e[j] == o[j2]);
                            }
                        }
                    }
                }
            },
            None => {},
        }
    }

    /// The cached usernames, each once.
    pub fn list_users(&self) -> (r: Vec<String>)
        requires
            self.wf(),
        ensures
            forall|k: Seq<char>|
                self.record(k) is Some <==> exists|i: int| 0 <= i < r@.len() && r@[i]@ == k,
            forall|i: int, j: int| 0 <= i < j < r@.len() ==> r@[i]@ != r@[j]@,
    {
        let mut r: Vec<String> = Vec::new();
        let mut i: usize = 0;
        while i < self.entries.len()
            invariant
                self.wf(),
                i <= self.entries@.len(),
                r@.len() == i,
                forall|j: int| 0 <= j < i ==> r@[j]@ == self.entries@[j].0@,
            decreases self.entries@.len() - i,
        {
            r.push(self.entries[i].0.clone());
            i = i + 1;
        }
        proof {
            let e = self.entries@;
            assert forall|k: Seq<char>|
                self.record(k) is Some <==> exists|i: int| 0 <= i < r@.len() && r@[i]@ == k by {
                if exists|i: int| 0 <= i < r@.len() && r@[i]@ == k {
                    let i = choose|i: int| 0 <= i < r@.len() && r@[i]@ == k;
                    lemma_lookup_at(e, i);
                }
                if self.record(k) is Some {
                    let j = choose|j: int| 0 <= j < e.len() && e[j].0@ == k;
                    assert(r@[j]@ == k);
                }
            }
        }
        r
    }

    /// Applies a change reported by the bucket: a put caches the record, a delete or a purge
    /// drops it.
    pub fn apply(&mut self, event: CacheEvent)
        requires
            old(self).wf(),
        ensures
            final(self).wf(),
            forall|k: Seq<char>|
                #[trigger] final(self).record(k) == after_event(old(self).record(k), k, event),
    {
        match event {
            CacheEvent::Put(k, v) => self.put_user(k, v),
            CacheEvent::Delete(k) => self.delete_user(k.as_str()),
            CacheEvent::Purge(k) => self.delete_user(k.as_str()),
        }
    }
}

/// What a put leaves under its key is that record, whatever was there before: a record
/// written through one cache reads back unchanged from it.
pub proof fn lemma_put_then_get(before: Option<UserInfo>, key: String, rec: UserInfo)
    ensures
        after_event(before, key@, CacheEvent::Put(key, rec)) == Some(rec),
{
}

/// Two caches fed the same put from the bucket's change feed hold the same record under its
/// key afterwards, whatever each held before; the other keys keep their records.
pub proof fn lemma_replicas_converge(
    a: Option<UserInfo>,
    b: Option<UserInfo>,
    key: String,
    rec: UserInfo,
    other: Seq<char>,
)
    ensures
        after_event(a, key@, CacheEvent::Put(key, rec)) == after_event(
            b,
            key@,
            CacheEvent::Put(key, rec),
        ),
        other != key@ ==> after_event(a, other, CacheEvent::Put(key, rec)) == a,
{
}

} // verus!
