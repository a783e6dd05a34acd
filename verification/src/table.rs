//! Arena-style keyed tables.
//!
//! Every object of the process model — thread, process, process group,
//! session, address space — lives in a `Vec` owned by the kernel state and
//! is identified by an integer key. References between objects are keys
//! resolved through lookup, never stored pointers, so a dangling "weak"
//! reference is simply a key whose record is gone.

use vstd::prelude::*;

verus! {

/// A record stored in a table and identified by an integer key.
pub trait Keyed {
    /// The record's key, for specifications.
    spec fn spec_key(&self) -> u64;

    /// The record's key.
    fn key(&self) -> (k: u64)
        ensures
            k == self.spec_key(),
    ;
}

/// True iff some record in `s` carries the key `k`.
pub open spec fn has_key<T: Keyed>(s: Seq<T>, k: u64) -> bool {
    exists|i: int| 0 <= i < s.len() && s[i].spec_key() == k
}

/// The index of the record with key `k`; meaningful when `has_key(s, k)`
/// holds and keys are unique.
pub open spec fn key_idx<T: Keyed>(s: Seq<T>, k: u64) -> int {
    choose|i: int| 0 <= i < s.len() && s[i].spec_key() == k
}

/// The record with key `k`.
pub open spec fn key_at<T: Keyed>(s: Seq<T>, k: u64) -> T {
    s[key_idx(s, k)]
}

/// No two records of `s` share a key.
pub open spec fn unique_keys<T: Keyed>(s: Seq<T>) -> bool {
    forall|i: int, j: int|
        0 <= i < s.len() && 0 <= j < s.len() && i != j ==> s[i].spec_key() != s[j].spec_key()
}

/// Linear search for the record with key `k`.
pub fn find_key<T: Keyed>(s: &Vec<T>, k: u64) -> (r: Option<usize>)
    ensures
        match r {
            Some(i) => i < s@.len() && s@[i as int].spec_key() == k && has_key(s@, k),
            None => !has_key(s@, k),
        },
{
    let n = s.len();
    let mut i: usize = 0;
    while i < n
        invariant
            n == s@.len(),
            i <= n,
            forall|j: int| 0 <= j < i ==> s@[j].spec_key() != k,
        decreases n - i,
    {
        if s[i].key() == k {
            assert(s@[i as int].spec_key() == k);
            return Some(i);
        }
        i += 1;
    }
    None
}

/// With unique keys, the record at index `i` is exactly the record looked
/// up under its own key.
pub proof fn lemma_key_idx_is<T: Keyed>(s: Seq<T>, i: int)
    requires
        unique_keys(s),
        0 <= i < s.len(),
    ensures
        has_key(s, s[i].spec_key()),
        key_idx(s, s[i].spec_key()) == i,
        key_at(s, s[i].spec_key()) == s[i],
{
    let k = s[i].spec_key();
    assert(has_key(s, k));
    let j = key_idx(s, k);
    assert(0 <= j < s.len() && s[j].spec_key() == k);
    if i != j {
        assert(s[i].spec_key() != s[j].spec_key());
    }
}

/// Replacing the record at `i` by one with the same key leaves every other
/// key's record untouched.
pub proof fn lemma_update_same_key<T: Keyed>(s: Seq<T>, i: int, v: T)
    requires
        unique_keys(s),
        0 <= i < s.len(),
        v.spec_key() == s[i].spec_key(),
    ensures
        unique_keys(s.update(i, v)),
        forall|k: u64| has_key(s.update(i, v), k) == has_key(s, k),
        key_idx(s.update(i, v), v.spec_key()) == i,
        key_at(s.update(i, v), v.spec_key()) == v,
        forall|k: u64|
            k != v.spec_key() && has_key(s, k) ==> key_idx(s.update(i, v), k) == key_idx(s, k)
                && key_at(s.update(i, v), k) == key_at(s, k),
{
    let t = s.update(i, v);
    assert forall|k: u64| has_key(t, k) == has_key(s, k) by {
        if has_key(t, k) {
            let a = choose|a: int| 0 <= a < t.len() && t[a].spec_key() == k;
            assert(s[if a == i { i } else { a }].spec_key() == k);
        }
        if has_key(s, k) {
            let a = choose|a: int| 0 <= a < s.len() && s[a].spec_key() == k;
            if a == i {
                assert(t[i].spec_key() == k);
            } else {
                assert(t[a].spec_key() == k);
            }
        }
    }
    lemma_key_idx_is(t, i);
    assert forall|k: u64|
        k != v.spec_key() && has_key(s, k) implies key_idx(t, k) == key_idx(s, k) && key_at(t, k)
        == key_at(s, k) by {
        let a = key_idx(s, k);
        assert(0 <= a < s.len() && s[a].spec_key() == k);
        assert(a != i);
        assert(t[a].spec_key() == k);
        lemma_key_idx_is(t, a);
        lemma_key_idx_is(s, a);
    }
}

/// Appending a record with a fresh key leaves every existing key's record
/// untouched.
pub proof fn lemma_push_fresh_key<T: Keyed>(s: Seq<T>, v: T)
    requires
        unique_keys(s),
        !has_key(s, v.spec_key()),
    ensures
        unique_keys(s.push(v)),
        has_key(s.push(v), v.spec_key()),
        key_idx(s.push(v), v.spec_key()) == s.len(),
        key_at(s.push(v), v.spec_key()) == v,
        forall|k: u64| k != v.spec_key() ==> has_key(s.push(v), k) == has_key(s, k),
        forall|k: u64|
            k != v.spec_key() && has_key(s, k) ==> key_idx(s.push(v), k) == key_idx(s, k)
                && key_at(s.push(v), k) == key_at(s, k),
{
    let t = s.push(v);
    assert forall|i: int, j: int|
        0 <= i < t.len() && 0 <= j < t.len() && i != j implies t[i].spec_key()
        != t[j].spec_key() by {
        if i < s.len() && j < s.len() {
        } else if i < s.len() {
            assert(s[i].spec_key() == t[i].spec_key());
            if t[i].spec_key() == v.spec_key() {
                assert(has_key(s, v.spec_key()));
            }
        } else if j < s.len() {
            assert(s[j].spec_key() == t[j].spec_key());
            if t[j].spec_key() == v.spec_key() {
                assert(has_key(s, v.spec_key()));
            }
        }
    }
    lemma_key_idx_is(t, s.len() as int);
    assert forall|k: u64| k != v.spec_key() implies has_key(t, k) == has_key(s, k) by {
        if has_key(t, k) {
            let a = choose|a: int| 0 <= a < t.len() && t[a].spec_key() == k;
            assert(a < s.len());
            assert(s[a].spec_key() == k);
        }
        if has_key(s, k) {
            let a = choose|a: int| 0 <= a < s.len() && s[a].spec_key() == k;
            assert(t[a].spec_key() == k);
        }
    }
    assert forall|k: u64|
        k != v.spec_key() && has_key(s, k) implies key_idx(t, k) == key_idx(s, k) && key_at(t, k)
        == key_at(s, k) by {
        let a = key_idx(s, k);
        assert(0 <= a < s.len() && s[a].spec_key() == k);
        assert(t[a].spec_key() == k);
        lemma_key_idx_is(t, a);
        lemma_key_idx_is(s, a);
    }
}

/// Removing the record at `i` removes exactly its key and leaves every
/// other key's record untouched.
pub proof fn lemma_remove_key<T: Keyed>(s: Seq<T>, i: int)
    requires
        unique_keys(s),
        0 <= i < s.len(),
    ensures
        unique_keys(s.remove(i)),
        !has_key(s.remove(i), s[i].spec_key()),
        forall|k: u64| k != s[i].spec_key() ==> has_key(s.remove(i), k) == has_key(s, k),
        forall|k: u64|
            k != s[i].spec_key() && has_key(s, k) ==> key_at(s.remove(i), k) == key_at(s, k),
{
    let t = s.remove(i);
    assert forall|a: int| 0 <= a < t.len() implies t[a] == s[if a < i {
        a
    } else {
        a + 1
    }] by {}
    assert forall|a: int, b: int|
        0 <= a < t.len() && 0 <= b < t.len() && a != b implies t[a].spec_key()
        != t[b].spec_key() by {
        let a2: int = if a < i { a } else { a + 1 };
        let b2: int = if b < i { b } else { b + 1 };
        assert(t[a] == s[a2] && t[b] == s[b2] && a2 != b2);
    }
    if has_key(t, s[i].spec_key()) {
        let a = choose|a: int| 0 <= a < t.len() && t[a].spec_key() == s[i].spec_key();
        let a2: int = if a < i { a } else { a + 1 };
        assert(s[a2].spec_key() == s[i].spec_key() && a2 != i);
    }
    assert forall|k: u64| k != s[i].spec_key() implies has_key(t, k) == has_key(s, k) by {
        if has_key(t, k) {
            let a = choose|a: int| 0 <= a < t.len() && t[a].spec_key() == k;
            let a2: int = if a < i { a } else { a + 1 };
            assert(s[a2].spec_key() == k);
        }
        if has_key(s, k) {
            let a = choose|a: int| 0 <= a < s.len() && s[a].spec_key() == k;
            assert(a != i);
            if a < i {
                assert(t[a].spec_key() == k);
            } else {
                assert(t[a - 1].spec_key() == k);
            }
        }
    }
    assert forall|k: u64|
        k != s[i].spec_key() && has_key(s, k) implies key_at(t, k) == key_at(s, k) by {
        let a = key_idx(s, k);
        assert(0 <= a < s.len() && s[a].spec_key() == k);
        assert(a != i);
        if a < i {
            assert(t[a].spec_key() == k);
            lemma_key_idx_is(t, a);
        } else {
            assert(t[a - 1].spec_key() == k);
            lemma_key_idx_is(t, a - 1);
        }
        lemma_key_idx_is(s, a);
    }
}

/// True iff the list of identifiers contains `x`.
pub open spec fn spec_id_listed(s: Seq<u32>, x: u32) -> bool {
    s.contains(x)
}

/// Linear search in a plain identifier list.
pub fn id_listed(s: &Vec<u32>, x: u32) -> (r: bool)
    ensures
        r == spec_id_listed(s@, x),
{
    let n = s.len();
    let mut i: usize = 0;
    while i < n
        invariant
            n == s@.len(),
            i <= n,
            forall|j: int| 0 <= j < i ==> s@[j] != x,
        decreases n - i,
    {
        if s[i] == x {
            assert(s@.contains(x));
            return true;
        }
        i += 1;
    }
    assert(!s@.contains(x));
    false
}

} // verus!
