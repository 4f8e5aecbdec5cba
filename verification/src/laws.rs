//! Laws of the keyed store, stated over the spec functions that the store
//! operations' contracts use.

use vstd::prelude::*;

use crate::store::Keyed;
use crate::store::has_key;
use crate::store::keys_distinct;
use crate::store::lemma_lookup_absent;
use crate::store::lemma_lookup_at;
use crate::store::lookup;
use crate::store::remove_key;

verus! {

/// Creating an entity whose key is not yet present and immediately looking
/// that key up returns exactly the stored entity: every field survives the
/// round trip.
pub proof fn lemma_create_then_lookup<T: Keyed>(s: Seq<T>, v: T)
    requires
        !has_key(s, v.key()),
    ensures
        lookup(s.push(v), v.key()) == Some(v),
{
    assert forall|j: int| 0 <= j < s.len() implies (#[trigger] s.push(v)[j].key()) != v.key() by {
        assert(s.push(v)[j] == s[j]);
        assert(s[j].key() != v.key());
    }
    lemma_lookup_at(s.push(v), v.key(), s.len() as int);
}

/// Deleting a key from a well-formed map removes it completely: a
/// subsequent lookup of that key finds nothing.
pub proof fn lemma_delete_then_lookup<T: Keyed>(s: Seq<T>, k: u128)
    requires
        keys_distinct(s),
    ensures
        !has_key(remove_key(s, k), k),
        lookup(remove_key(s, k), k) is None,
    decreases s.len(),
{
    if s.len() == 0 {
    } else if s[0].key() == k {
        assert forall|j: int|
            0 <= j < s.drop_first().len() implies (#[trigger] s.drop_first()[j].key()) != k by {
            assert(s.drop_first()[j] == s[j + 1]);
            assert(s[0].key() != s[j + 1].key());
        }
    } else {
        assert(keys_distinct(s.drop_first())) by {
            assert forall|i: int, j: int|
                #![trigger s.drop_first()[i].key(), s.drop_first()[j].key()]
                0 <= i < j < s.drop_first().len() implies s.drop_first()[i].key()
                != s.drop_first()[j].key() by {
                assert(s.drop_first()[i] == s[i + 1]);
                assert(s.drop_first()[j] == s[j + 1]);
            }
        }
        lemma_delete_then_lookup(s.drop_first(), k);
        let r = remove_key(s.drop_first(), k);
        assert forall|j: int|
            0 <= j < remove_key(s, k).len() implies (#[trigger] remove_key(s, k)[j].key())
            != k by {
            if j == 0 {
                assert(remove_key(s, k)[0] == s[0]);
            } else {
                assert(remove_key(s, k)[j] == r[j - 1]);
                assert(!has_key(r, k));
                assert(r[j - 1].key() != k);
            }
        }
    }
    lemma_lookup_absent(remove_key(s, k), k);
}

/// One create as the store performs it: the entity goes in unless its key
/// is already taken.
pub open spec fn create_step<T: Keyed>(s: Seq<T>, v: T) -> Seq<T> {
    if has_key(s, v.key()) {
        s
    } else {
        s.push(v)
    }
}

/// A sequence of creates, in the order the store's lock serialised them.
pub open spec fn create_all<T: Keyed>(s: Seq<T>, vs: Seq<T>) -> Seq<T>
    decreases vs.len(),
{
    if vs.len() == 0 {
        s
    } else {
        create_all(create_step(s, vs[0]), vs.drop_first())
    }
}

/// Concurrent creates with pairwise-distinct fresh keys: the store's lock
/// serialises them in some order, and in every such order each create finds
/// its key absent and succeeds, no entry is lost, and the store grows by
/// exactly the number of creates.
pub proof fn lemma_distinct_creates_all_succeed<T: Keyed>(s: Seq<T>, vs: Seq<T>)
    requires
        keys_distinct(s),
        forall|i: int, j: int|
            #![trigger vs[i].key(), vs[j].key()]
            0 <= i < j < vs.len() ==> vs[i].key() != vs[j].key(),
        forall|i: int| 0 <= i < vs.len() ==> !has_key(s, (#[trigger] vs[i].key())),
    ensures
        create_all(s, vs) == s + vs,
        keys_distinct(s + vs),
        (s + vs).len() == s.len() + vs.len(),
        forall|i: int| 0 <= i < vs.len() ==> has_key(s + vs, (#[trigger] vs[i].key())),
    decreases vs.len(),
{
    assert forall|i: int, j: int|
        #![trigger (s + vs)[i].key(), (s + vs)[j].key()]
        0 <= i < j < (s + vs).len() implies (s + vs)[i].key() != (s + vs)[j].key() by {
        if j < s.len() {
            assert((s + vs)[i] == s[i]);
            assert((s + vs)[j] == s[j]);
        } else if i >= s.len() {
            assert((s + vs)[i] == vs[i - s.len()]);
            assert((s + vs)[j] == vs[j - s.len()]);
        } else {
            assert((s + vs)[i] == s[i]);
            assert((s + vs)[j] == vs[j - s.len()]);
            assert(!has_key(s, vs[j - s.len()].key()));
        }
    }
    assert forall|i: int| 0 <= i < vs.len() implies has_key(s + vs, (#[trigger] vs[i].key())) by {
        assert((s + vs)[s.len() + i].key() == vs[i].key());
    }
    if vs.len() == 0 {
        assert(create_all(s, vs) == s);
        assert(s + vs =~= s);
    } else {
        let v = vs[0];
        assert(!has_key(s, v.key()));
        assert(create_step(s, v) == s.push(v));
        assert forall|i: int, j: int|
            #![trigger s.push(v)[i].key(), s.push(v)[j].key()]
            0 <= i < j < s.push(v).len() implies s.push(v)[i].key() != s.push(v)[j].key() by {
            if j < s.len() {
                assert(s.push(v)[i] == s[i]);
                assert(s.push(v)[j] == s[j]);
            } else {
                assert(s.push(v)[i] == s[i]);
                assert(s.push(v)[j] == v);
                assert(!has_key(s, v.key()));
            }
        }
        let rest = vs.drop_first();
        assert forall|i: int, j: int|
            #![trigger rest[i].key(), rest[j].key()]
            0 <= i < j < rest.len() implies rest[i].key() != rest[j].key() by {
            assert(rest[i] == vs[i + 1]);
            assert(rest[j] == vs[j + 1]);
        }
        assert forall|i: int| 0 <= i < rest.len() implies !has_key(
            s.push(v),
            (#[trigger] rest[i].key()),
        ) by {
            assert(rest[i] == vs[i + 1]);
            assert(vs[0].key() != vs[i + 1].key());
            assert(!has_key(s, vs[i + 1].key()));
            assert forall|j: int|
                0 <= j < s.push(v).len() implies (#[trigger] s.push(v)[j].key()) != rest[
                i
            ].key() by {
                if j < s.len() {
                    assert(s.push(v)[j] == s[j]);
                } else {
                    assert(s.push(v)[j] == v);
                }
            }
        }
        lemma_distinct_creates_all_succeed(s.push(v), rest);
        assert(create_all(s, vs) == create_all(s.push(v), rest));
        assert(create_all(s.push(v), rest) == s.push(v) + rest);
        assert(s.push(v) + rest =~= s + vs);
    }
}

} // verus!
