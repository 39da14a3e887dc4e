//! Prepared statements cache for faster execution: a least-recently-used
//! map from SQL text to prepared statement handles.

use vstd::prelude::*;
use hashlink::LruCache;
use crate::util::{str_trim, trimmed};

verus! {

#[verifier::external_type_specification]
#[verifier::external_body]
#[verifier::reject_recursive_types(K)]
#[verifier::reject_recursive_types(V)]
#[verifier::reject_recursive_types(S)]
pub struct ExLruCache<K, V, S>(LruCache<K, V, S>);

#[verifier::external_type_specification]
#[verifier::external_body]
pub struct ExDefaultHashBuilder(hashlink::DefaultHashBuilder);

/// The entries of an LRU cache, least recently used first.
pub uninterp spec fn lru_entries(c: LruCache<String, u64>) -> Seq<(Seq<char>, u64)>;

/// The capacity an LRU cache holds at most.
pub uninterp spec fn lru_capacity(c: LruCache<String, u64>) -> nat;

/// No key occurs twice among the entries.
pub open spec fn unique_keys(e: Seq<(Seq<char>, u64)>) -> bool {
    forall|i: int, j: int| 0 <= i < e.len() && 0 <= j < e.len() && i != j ==> e[i].0 != e[j].0
}

/// Whether `key` is among the entries.
pub open spec fn has_key(e: Seq<(Seq<char>, u64)>, key: Seq<char>) -> bool {
    exists|i: int| 0 <= i < e.len() && e[i].0 == key
}

/// The position of `key` among the entries (meaningful when present).
pub open spec fn key_pos(e: Seq<(Seq<char>, u64)>, key: Seq<char>) -> int {
    choose|i: int| 0 <= i < e.len() && e[i].0 == key
}

/// The entries after removing `key`, and the value that was removed.
pub open spec fn lru_remove_spec(e: Seq<(Seq<char>, u64)>, key: Seq<char>) -> (Seq<(Seq<char>, u64)>, Option<u64>) {
    if has_key(e, key) {
        (e.remove(key_pos(e, key)), Some(e[key_pos(e, key)].1))
    } else {
        (e, None)
    }
}

/// The entries after inserting `(key, v)` as most recently used into a cache
/// of capacity `cap`: a previous entry for `key` is replaced, and the least
/// recently used entry is evicted when the cache would exceed `cap`.
pub open spec fn lru_insert_spec(e: Seq<(Seq<char>, u64)>, key: Seq<char>, v: u64, cap: nat) -> Seq<(Seq<char>, u64)> {
    let pushed = lru_remove_spec(e, key).0.push((key, v));
    if pushed.len() > cap { pushed.drop_first() } else { pushed }
}

/// The entries kept when the capacity becomes `cap`: the most recently used ones.
pub open spec fn lru_shrink_spec(e: Seq<(Seq<char>, u64)>, cap: nat) -> Seq<(Seq<char>, u64)> {
    if e.len() > cap { e.subrange(e.len() - cap, e.len() as int) } else { e }
}

/// `LruCache::new`: an empty cache with the given capacity.
#[verifier::external_body]
fn lru_new(capacity: usize) -> (c: LruCache<String, u64>)
    ensures
        lru_entries(c) == Seq::<(Seq<char>, u64)>::empty(),
        lru_capacity(c) == capacity,
{
    LruCache::new(capacity)
}

/// `LruCache::set_capacity`: evicts least recently used entries until at
/// most `capacity` remain, then records the capacity.
#[verifier::external_body]
fn lru_set_capacity(c: &mut LruCache<String, u64>, capacity: usize)
    ensures
        lru_entries(*final(c)) == lru_shrink_spec(lru_entries(*old(c)), capacity as nat),
        lru_capacity(*final(c)) == capacity,
{
    c.set_capacity(capacity)
}

/// `LruCache::remove`: removes the entry for `key`, returning its value.
#[verifier::external_body]
fn lru_remove(c: &mut LruCache<String, u64>, key: &str) -> (r: Option<u64>)
    ensures
        (lru_entries(*final(c)), r) == lru_remove_spec(lru_entries(*old(c)), key@),
        lru_capacity(*final(c)) == lru_capacity(*old(c)),
{
    c.remove(key)
}

/// `LruCache::insert`: inserts `(k, v)` as the most recently used entry
/// (replacing an entry with the same key), evicting the least recently
/// used entry when the length exceeds the capacity. Returns the replaced
/// value.
#[verifier::external_body]
fn lru_insert(c: &mut LruCache<String, u64>, k: String, v: u64) -> (r: Option<u64>)
    ensures
        lru_entries(*final(c)) == lru_insert_spec(lru_entries(*old(c)), k@, v, lru_capacity(*old(c))),
        r == lru_remove_spec(lru_entries(*old(c)), k@).1,
        lru_capacity(*final(c)) == lru_capacity(*old(c)),
{
    c.insert(k, v)
}

/// `LruCache::clear`: removes every entry.
#[verifier::external_body]
fn lru_clear(c: &mut LruCache<String, u64>)
    ensures
        lru_entries(*final(c)) == Seq::<(Seq<char>, u64)>::empty(),
        lru_capacity(*final(c)) == lru_capacity(*old(c)),
{
    c.clear()
}

/// `LruCache::len`: the number of entries.
#[verifier::external_body]
fn lru_len(c: &LruCache<String, u64>) -> (n: usize)
    ensures
        n == lru_entries(*c).len(),
{
    c.len()
}

/// `LruCache::capacity`: the capacity.
#[verifier::external_body]
fn lru_cap(c: &LruCache<String, u64>) -> (n: usize)
    ensures
        n == lru_capacity(*c),
{
    c.capacity()
}


/// Removing a key from entries with unique keys keeps the keys unique,
/// leaves the key absent and shortens the entries by at most one.
pub proof fn lemma_remove_unique(e: Seq<(Seq<char>, u64)>, key: Seq<char>)
    requires
        unique_keys(e),
    ensures
        unique_keys(lru_remove_spec(e, key).0),
        !has_key(lru_remove_spec(e, key).0, key),
        lru_remove_spec(e, key).0.len() <= e.len(),
        has_key(e, key) ==> lru_remove_spec(e, key).0.len() == e.len() - 1,
{
    if has_key(e, key) {
        let p = key_pos(e, key);
        let r = e.remove(p);
        assert forall|i: int, j: int| 0 <= i < r.len() && 0 <= j < r.len() && i != j implies r[i].0 != r[j].0 by {
            let ii = if i < p { i } else { i + 1 };
            let jj = if j < p { j } else { j + 1 };
            assert(r[i] == e[ii]);
            assert(r[j] == e[jj]);
        }
        if has_key(r, key) {
            let i = choose|i: int| 0 <= i < r.len() && r[i].0 == key;
            let ii = if i < p { i } else { i + 1 };
            assert(r[i] == e[ii]);
        }
    }
}

/// Inserting into a cache whose entries have unique keys and fit its
/// capacity keeps both properties, and leaves the inserted entry as the
/// most recently used one when the capacity is not zero.
pub proof fn lemma_insert_unique(e: Seq<(Seq<char>, u64)>, key: Seq<char>, v: u64, cap: nat)
    requires
        unique_keys(e),
        e.len() <= cap,
    ensures
        unique_keys(lru_insert_spec(e, key, v, cap)),
        lru_insert_spec(e, key, v, cap).len() <= cap,
        cap > 0 ==> lru_insert_spec(e, key, v, cap).last() == (key, v),
{
    lemma_remove_unique(e, key);
    let r = lru_remove_spec(e, key).0;
    let pushed = r.push((key, v));
    assert forall|i: int, j: int| 0 <= i < pushed.len() && 0 <= j < pushed.len() && i != j implies pushed[i].0 != pushed[j].0 by {
        if i < r.len() && j < r.len() {
            assert(pushed[i] == r[i]);
            assert(pushed[j] == r[j]);
        } else if i < r.len() {
            assert(pushed[i] == r[i]);
        } else {
            assert(pushed[j] == r[j]);
        }
    }
    if pushed.len() > cap {
        let d = pushed.drop_first();
        assert forall|i: int, j: int| 0 <= i < d.len() && 0 <= j < d.len() && i != j implies d[i].0 != d[j].0 by {
            assert(d[i] == pushed[i + 1]);
            assert(d[j] == pushed[j + 1]);
        }
    }
}

/// Shrinking keeps keys unique and fits the new capacity.
pub proof fn lemma_shrink_unique(e: Seq<(Seq<char>, u64)>, cap: nat)
    requires
        unique_keys(e),
    ensures
        unique_keys(lru_shrink_spec(e, cap)),
        lru_shrink_spec(e, cap).len() <= cap || lru_shrink_spec(e, cap) == e,
        lru_shrink_spec(e, cap).len() <= e.len(),
{
    if e.len() > cap {
        let d = e.subrange(e.len() - cap, e.len() as int);
        assert forall|i: int, j: int| 0 <= i < d.len() && 0 <= j < d.len() && i != j implies d[i].0 != d[j].0 by {
            assert(d[i] == e[i + e.len() - cap]);
            assert(d[j] == e[j + e.len() - cap]);
        }
    }
}

/// A prepared statement handle together with the SQL text under which it
/// returns to the cache. A handle of `0` stands for a finalized (null)
/// statement.
pub struct RawStatement {
    pub handle: u64,
    pub cache_key: Option<String>,
}

/// Prepared statements LRU cache, keyed by the trimmed SQL text.
pub struct StatementCache {
    cache: LruCache<String, u64>,
}

impl StatementCache {
    /// The cached entries (SQL text and statement handle), least recently
    /// used first.
    pub closed spec fn entries(&self) -> Seq<(Seq<char>, u64)> {
        lru_entries(self.cache)
    }

    /// The number of statements the cache holds at most.
    pub closed spec fn capacity_spec(&self) -> nat {
        lru_capacity(self.cache)
    }

    /// Every SQL text is cached at most once, and the cache never holds
    /// more statements than its capacity.
    #[verifier::type_invariant]
    closed spec fn inv(self) -> bool {
        &&& unique_keys(lru_entries(self.cache))
        &&& lru_entries(self.cache).len() <= lru_capacity(self.cache)
    }

    /// Moves the underlying cache out, leaving an empty one of capacity 0.
    fn take(&mut self) -> (c: LruCache<String, u64>)
        ensures
            c == old(self).cache,
            lru_entries(c) == old(self).entries(),
            lru_capacity(c) == old(self).capacity_spec(),
            unique_keys(lru_entries(c)),
            lru_entries(c).len() <= lru_capacity(c),
    {
        proof {
            use_type_invariant(&*self);
        }
        let mut c = lru_new(0);
        std::mem::swap(&mut c, &mut self.cache);
        c
    }

    /// Creates an empty statement cache.
    pub fn with_capacity(capacity: usize) -> (c: Self)
        ensures
            c.entries() == Seq::<(Seq<char>, u64)>::empty(),
            c.capacity_spec() == capacity,
    {
        StatementCache { cache: lru_new(capacity) }
    }

    /// Sets the capacity, evicting the least recently used statements that
    /// no longer fit.
    pub fn set_capacity(&mut self, capacity: usize)
        ensures
            final(self).entries() == lru_shrink_spec(old(self).entries(), capacity as nat),
            final(self).capacity_spec() == capacity,
    {
        proof {
            use_type_invariant(&*self);
            lemma_shrink_unique(lru_entries(self.cache), capacity as nat);
        }
        let mut c = self.take();
        lru_set_capacity(&mut c, capacity);
        self.cache = c;
    }

    /// Takes the statement cached for `sql` (compared after trimming white
    /// space) out of the cache, ready to be used again under that key; or
    /// `None` when it must be prepared anew.
    pub fn get(&mut self, sql: &str) -> (stmt: Option<RawStatement>)
        ensures
            final(self).entries() == lru_remove_spec(old(self).entries(), trimmed(sql@)).0,
            final(self).capacity_spec() == old(self).capacity_spec(),
            match lru_remove_spec(old(self).entries(), trimmed(sql@)).1 {
                Some(h) => {
                    &&& stmt is Some
                    &&& stmt->0.handle == h
                    &&& stmt->0.cache_key is Some
                    &&& (stmt->0.cache_key->0)@ == trimmed(sql@)
                },
                None => stmt is None,
            },
    {
        proof {
            use_type_invariant(&*self);
            lemma_remove_unique(lru_entries(self.cache), trimmed(sql@));
        }
        let trimmed_sql = str_trim(sql);
        let mut c = self.take();
        let r = lru_remove(&mut c, trimmed_sql);
        self.cache = c;
        match r {
            Some(handle) => Some(RawStatement { handle, cache_key: Some(trimmed_sql.to_owned()) }),
            None => None,
        }
    }

    /// Returns a statement to the cache as its most recently used entry. A
    /// null statement, or one without a cache key, is not cached.
    pub fn cache_stmt(&mut self, stmt: RawStatement)
        ensures
            final(self).capacity_spec() == old(self).capacity_spec(),
            (stmt.handle == 0 || stmt.cache_key is None) ==> final(self).entries() == old(self).entries(),
            (stmt.handle != 0 && stmt.cache_key is Some) ==> final(self).entries() == lru_insert_spec(
                old(self).entries(),
                (stmt.cache_key->0)@,
                stmt.handle,
                old(self).capacity_spec(),
            ),
    {
        if stmt.handle == 0 {
            return;
        }
        match stmt.cache_key {
            Some(sql) => {
                proof {
                    use_type_invariant(&*self);
                    lemma_insert_unique(lru_entries(self.cache), sql@, stmt.handle, lru_capacity(self.cache));
                }
                let mut c = self.take();
                lru_insert(&mut c, sql, stmt.handle);
                self.cache = c;
            },
            None => {},
        }
    }

    /// Removes all statements from the cache.
    pub fn flush(&mut self)
        ensures
            final(self).entries() == Seq::<(Seq<char>, u64)>::empty(),
            final(self).capacity_spec() == old(self).capacity_spec(),
    {
        let mut c = self.take();
        lru_clear(&mut c);
        self.cache = c;
    }

    /// The number of cached statements.
    pub fn len(&self) -> (n: usize)
        ensures
            n == self.entries().len(),
    {
        lru_len(&self.cache)
    }

    /// The number of statements the cache holds at most.
    pub fn capacity(&self) -> (n: usize)
        ensures
            n == self.capacity_spec(),
    {
        lru_cap(&self.cache)
    }
}

/// A statement returned to the cache is found again by the same (trimmed)
/// SQL text, as long as the capacity is not zero; finding it takes it out.
pub proof fn lemma_cache_then_get(e: Seq<(Seq<char>, u64)>, key: Seq<char>, h: u64, cap: nat)
    requires
        unique_keys(e),
        e.len() <= cap,
        cap > 0,
    ensures
        lru_remove_spec(lru_insert_spec(e, key, h, cap), key).1 == Some(h),
        !has_key(lru_remove_spec(lru_insert_spec(e, key, h, cap), key).0, key),
{
    lemma_insert_unique(e, key, h, cap);
    let ins = lru_insert_spec(e, key, h, cap);
    let p = (ins.len() - 1) as int;
    assert(ins[p].0 == key);
    assert(has_key(ins, key));
    let q = key_pos(ins, key);
    assert(q == p);
    lemma_remove_unique(ins, key);
}
} // verus!
