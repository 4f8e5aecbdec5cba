//! A generic keyed entity container.
//!
//! `StoreMap` is the sequential core: a keyed map with at most one entry per
//! 128-bit identifier, whose operations carry exact contracts over the
//! sequence of entries.  `EntityStore` wraps a `StoreMap` in a single
//! coarse-grained reader/writer lock, so any number of readers may proceed
//! together while a writer excludes everyone; the lock invariant keeps the
//! map well formed at every hand-over.

use vstd::prelude::*;
use vstd::rwlock::RwLock;
use vstd::rwlock::RwLockPredicate;

verus! {

/// An entity that can live in a keyed store.
pub trait Keyed: Sized {
    /// The key under which the entity is filed.
    spec fn key(&self) -> u128;

    /// Executable access to the key.
    fn key_of(&self) -> (k: u128)
        ensures
            k == self.key();

    /// An independent copy that is equal to `self`.
    fn duplicate(&self) -> (r: Self)
        ensures
            r == *self;
}

/// The outcomes of a store operation that did not succeed.
#[derive(Debug, Clone, Copy, PartialEq, Eq, Structural)]
pub enum StoreError {
    /// No entry under the requested key.
    NotFound,
    /// An entry under the same key is already present.
    AlreadyExists,
    /// Acquiring the store's lock failed; an infrastructure fault, not a
    /// business outcome.
    LockError,
}

/// No two entries share a key.
pub open spec fn keys_distinct<T: Keyed>(s: Seq<T>) -> bool {
    forall|i: int, j: int|
        #![trigger s[i].key(), s[j].key()]
        0 <= i < j < s.len() ==> s[i].key() != s[j].key()
}

/// Some entry carries the key `k`.
pub open spec fn has_key<T: Keyed>(s: Seq<T>, k: u128) -> bool {
    exists|i: int| 0 <= i < s.len() && (#[trigger] s[i].key()) == k
}

/// The first entry carrying the key `k`, if any.
pub open spec fn lookup<T: Keyed>(s: Seq<T>, k: u128) -> Option<T>
    decreases s.len(),
{
    if s.len() == 0 {
        None
    } else if s[0].key() == k {
        Some(s[0])
    } else {
        lookup(s.drop_first(), k)
    }
}

/// `s` without the first entry carrying the key `k`.
pub open spec fn remove_key<T: Keyed>(s: Seq<T>, k: u128) -> Seq<T>
    decreases s.len(),
{
    if s.len() == 0 {
        s
    } else if s[0].key() == k {
        s.drop_first()
    } else {
        seq![s[0]] + remove_key(s.drop_first(), k)
    }
}

/// `s` with the first entry keyed like `v` replaced by `v`.
pub open spec fn replace_key<T: Keyed>(s: Seq<T>, v: T) -> Seq<T>
    decreases s.len(),
{
    if s.len() == 0 {
        s
    } else if s[0].key() == v.key() {
        seq![v] + s.drop_first()
    } else {
        seq![s[0]] + replace_key(s.drop_first(), v)
    }
}

/// When `i` is the first index carrying `k`, `lookup` returns that entry.
pub proof fn lemma_lookup_at<T: Keyed>(s: Seq<T>, k: u128, i: int)
    requires
        0 <= i < s.len(),
        s[i].key() == k,
        forall|j: int| 0 <= j < i ==> (#[trigger] s[j].key()) != k,
    ensures
        lookup(s, k) == Some(s[i]),
    decreases i,
{
    if i > 0 {
        lemma_lookup_at(s.drop_first(), k, i - 1);
    }
}

/// Without an entry keyed `k`, `lookup` returns nothing.
pub proof fn lemma_lookup_absent<T: Keyed>(s: Seq<T>, k: u128)
    requires
        !has_key(s, k),
    ensures
        lookup(s, k) is None,
    decreases s.len(),
{
    if s.len() > 0 {
        assert(forall|j: int| 0 <= j < s.len() ==> (#[trigger] s[j].key()) != k);
        assert(forall|j: int|
            0 <= j < s.drop_first().len() ==> (#[trigger] s.drop_first()[j].key()) != k);
        lemma_lookup_absent(s.drop_first(), k);
    }
}

/// When `i` is the first index carrying `k`, removing `k` removes index `i`.
pub proof fn lemma_remove_key_at<T: Keyed>(s: Seq<T>, k: u128, i: int)
    requires
        0 <= i < s.len(),
        s[i].key() == k,
        forall|j: int| 0 <= j < i ==> (#[trigger] s[j].key()) != k,
    ensures
        remove_key(s, k) =~= s.remove(i),
    decreases i,
{
    if i == 0 {
        assert(remove_key(s, k) =~= s.remove(0));
    } else {
        lemma_remove_key_at(s.drop_first(), k, i - 1);
        assert(remove_key(s, k) =~= seq![s[0]] + s.drop_first().remove(i - 1));
        assert(seq![s[0]] + s.drop_first().remove(i - 1) =~= s.remove(i));
    }
}

/// When `i` is the first index keyed like `v`, replacing writes index `i`.
pub proof fn lemma_replace_key_at<T: Keyed>(s: Seq<T>, v: T, i: int)
    requires
        0 <= i < s.len(),
        s[i].key() == v.key(),
        forall|j: int| 0 <= j < i ==> (#[trigger] s[j].key()) != v.key(),
    ensures
        replace_key(s, v) =~= s.update(i, v),
    decreases i,
{
    if i == 0 {
        assert(replace_key(s, v) =~= s.update(0, v));
    } else {
        lemma_replace_key_at(s.drop_first(), v, i - 1);
        assert(replace_key(s, v) =~= seq![s[0]] + s.drop_first().update(i - 1, v));
        assert(seq![s[0]] + s.drop_first().update(i - 1, v) =~= s.update(i, v));
    }
}

/// The sequential keyed map: at most one entry per key.
pub struct StoreMap<T: Keyed> {
    entries: Vec<T>,
}

impl<T: Keyed> View for StoreMap<T> {
    type V = Seq<T>;

    closed spec fn view(&self) -> Seq<T> {
        self.entries@
    }
}

impl<T: Keyed> StoreMap<T> {
    /// Well-formed: no two entries share a key.
    pub open spec fn wf(&self) -> bool {
        keys_distinct(self@)
    }

    pub fn new() -> (s: StoreMap<T>)
        ensures
            s@ == Seq::<T>::empty(),
            s.wf(),
    {
        StoreMap { entries: Vec::new() }
    }

    pub fn len(&self) -> (n: usize)
        ensures
            n == self@.len(),
    {
        self.entries.len()
    }

    /// The index of the first entry keyed `k`, if any.
    fn index_of(&self, k: u128) -> (r: Option<usize>)
        ensures
            match r {
                Some(i) => i < self@.len() && self@[i as int].key() == k && (forall|j: int|
                    0 <= j < i ==> (#[trigger] self@[j].key()) != k),
                None => !has_key(self@, k),
            },
    {
        let n = self.entries.len();
        let mut i: usize = 0;
        while i < n
            invariant
                0 <= i <= n,
                n == self@.len(),
                forall|j: int| 0 <= j < i ==> (#[trigger] self@[j].key()) != k,
            decreases n - i,
        {
            if self.entries[i].key_of() == k {
                return Some(i);
            }
            i = i + 1;
        }
        None
    }

    /// A borrow of the entry under `k`: the first (and, in a well-formed
    /// map, only) entry carrying that key.
    pub fn get(&self, k: u128) -> (r: Option<&T>)
        ensures
            match r {
                Some(u) => lookup(self@, k) == Some(*u) && u.key() == k && has_key(self@, k),
                None => lookup(self@, k) is None && !has_key(self@, k),
            },
    {
        match self.index_of(k) {
            Some(i) => {
                proof {
                    lemma_lookup_at(self@, k, i as int);
                }
                Some(&self.entries[i])
            },
            None => {
                proof {
                    lemma_lookup_absent(self@, k);
                }
                None
            },
        }
    }

    /// Inserts `v` under its key; fails fast when the key is taken.
    pub fn create(&mut self, v: T) -> (r: Result<T, StoreError>)
        requires
            old(self).wf(),
        ensures
            final(self).wf(),
            has_key(old(self)@, v.key()) ==> (r matches Err(e) && e == StoreError::AlreadyExists
                && final(self)@ == old(self)@),
            !has_key(old(self)@, v.key()) ==> (r matches Ok(u) && u == v && final(self)@ == old(
                self,
            )@.push(v)),
    {
        match self.index_of(v.key_of()) {
            Some(_) => Err(StoreError::AlreadyExists),
            None => {
                let r = v.duplicate();
                let ghost pre = self@;
                self.entries.push(v);
                proof {
                    assert forall|i: int, j: int|
                        #![trigger self@[i].key(), self@[j].key()]
                        0 <= i < j < self@.len() implies self@[i].key() != self@[j].key() by {
                        if j < pre.len() {
                        } else {
                            assert(self@[j] == v);
                            assert(!has_key(pre, v.key()));
                            assert(pre[i].key() != v.key());
                        }
                    }
                }
                Ok(r)
            },
        }
    }

    /// Whole-record replacement of the entry sharing `v`'s key.
    pub fn update(&mut self, v: T) -> (r: Result<T, StoreError>)
        requires
            old(self).wf(),
        ensures
            final(self).wf(),
            !has_key(old(self)@, v.key()) ==> (r matches Err(e) && e == StoreError::NotFound
                && final(self)@ == old(self)@),
            has_key(old(self)@, v.key()) ==> (r matches Ok(u) && u == v && final(self)@
                == replace_key(old(self)@, v)),
    {
        match self.index_of(v.key_of()) {
            Some(i) => {
                proof {
                    lemma_replace_key_at(self@, v, i as int);
                }
                let r = v.duplicate();
                let ghost pre = self@;
                self.entries[i] = v;
                proof {
                    assert forall|x: int, y: int|
                        #![trigger self@[x].key(), self@[y].key()]
                        0 <= x < y < self@.len() implies self@[x].key() != self@[y].key() by {
                        assert(self@[x].key() == pre[x].key());
                        assert(self@[y].key() == pre[y].key());
                    }
                }
                Ok(r)
            },
            None => Err(StoreError::NotFound),
        }
    }

    /// Removes the entry under `k`.
    pub fn delete(&mut self, k: u128) -> (r: Result<(), StoreError>)
        requires
            old(self).wf(),
        ensures
            final(self).wf(),
            !has_key(old(self)@, k) ==> (r matches Err(e) && e == StoreError::NotFound
                && final(self)@ == old(self)@),
            has_key(old(self)@, k) ==> (r matches Ok(u) && final(self)@ == remove_key(old(self)@, k)),
    {
        match self.index_of(k) {
            Some(i) => {
                proof {
                    lemma_remove_key_at(self@, k, i as int);
                }
                let ghost pre = self@;
                self.entries.remove(i);
                proof {
                    assert forall|x: int, y: int|
                        #![trigger self@[x].key(), self@[y].key()]
                        0 <= x < y < self@.len() implies self@[x].key() != self@[y].key() by {
                        let px: int = if x < i { x } else { x + 1 };
                        let py: int = if y < i { y } else { y + 1 };
                        assert(self@[x].key() == pre[px].key());
                        assert(self@[y].key() == pre[py].key());
                    }
                }
                Ok(())
            },
            None => Err(StoreError::NotFound),
        }
    }

    /// An independent copy of every current entry, in store order.
    pub fn snapshot(&self) -> (r: Vec<T>)
        ensures
            r@ == self@,
    {
        let n = self.entries.len();
        let mut out: Vec<T> = Vec::new();
        let mut i: usize = 0;
        while i < n
            invariant
                0 <= i <= n,
                n == self@.len(),
                out@ =~= self@.take(i as int),
            decreases n - i,
        {
            out.push(self.entries[i].duplicate());
            proof {
                assert(out@ =~= self@.take(i + 1 as int));
            }
            i = i + 1;
        }
        proof {
            assert(self@.take(n as int) =~= self@);
        }
        out
    }
}

/// The invariant every store lock maintains: the map inside is well formed.
pub struct StorePred;

impl<T: Keyed> RwLockPredicate<StoreMap<T>> for StorePred {
    open spec fn inv(self, s: StoreMap<T>) -> bool {
        s.wf()
    }
}

/// The concurrent keyed container: a `StoreMap` behind one reader/writer
/// lock.  Readers share the lock; each writer holds it exclusively, so
/// writes are linearizable with respect to this store.  Because callers go
/// through the verified lock, acquisition cannot fail and the `LockError`
/// outcome is never produced by this backend.
pub struct EntityStore<T: Keyed> {
    lock: RwLock<StoreMap<T>, StorePred>,
}

impl<T: Keyed> EntityStore<T> {
    pub fn new() -> EntityStore<T> {
        EntityStore { lock: RwLock::new(StoreMap::new(), Ghost(StorePred)) }
    }

    /// Inserts `v` under its key; on success the stored value equals `v`.
    pub fn create(&self, v: T) -> (r: Result<T, StoreError>)
        ensures
            r matches Ok(u) ==> u == v,
            r matches Err(e) ==> e == StoreError::AlreadyExists,
    {
        let (mut s, handle) = self.lock.acquire_write();
        let r = s.create(v);
        handle.release_write(s);
        r
    }

    /// A copy of the entry under `k`.
    pub fn get_by_id(&self, k: u128) -> (r: Result<T, StoreError>)
        ensures
            r matches Ok(u) ==> u.key() == k,
            r matches Err(e) ==> e == StoreError::NotFound,
    {
        let handle = self.lock.acquire_read();
        let r = match handle.borrow().get(k) {
            Some(u) => Ok(u.duplicate()),
            None => Err(StoreError::NotFound),
        };
        handle.release_read();
        r
    }

    /// A snapshot copy of all current entries at call time.
    pub fn get_all(&self) -> (r: Vec<T>)
        ensures
            keys_distinct(r@),
    {
        let handle = self.lock.acquire_read();
        let r = handle.borrow().snapshot();
        handle.release_read();
        r
    }

    /// Whole-record replacement; on success the stored value equals `v`.
    pub fn update(&self, v: T) -> (r: Result<T, StoreError>)
        ensures
            r matches Ok(u) ==> u == v,
            r matches Err(e) ==> e == StoreError::NotFound,
    {
        let (mut s, handle) = self.lock.acquire_write();
        let r = s.update(v);
        handle.release_write(s);
        r
    }

    /// Removes the entry under `k`.
    pub fn delete(&self, k: u128) -> (r: Result<(), StoreError>)
        ensures
            r matches Err(e) ==> e == StoreError::NotFound,
    {
        let (mut s, handle) = self.lock.acquire_write();
        let r = s.delete(k);
        handle.release_write(s);
        r
    }
}

} // verus!
