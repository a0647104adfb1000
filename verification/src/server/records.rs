//! Lists of records found by identifier: the first record with a given
//! identifier, and the list without the records of an identifier.

use vstd::prelude::*;

use crate::text::str_eq;

verus! {

/// A record that carries an identifier.
pub trait Keyed {
    /// The record's identifier.
    spec fn key(&self) -> Seq<char>;

    /// The record's identifier, to compare with.
    fn key_str(&self) -> (r: &str)
        ensures
            r@ == self.key(),
    ;
}

/// The first index from `i` on of a record with identifier `id`, or -1.
pub open spec fn key_at<T: Keyed>(s: Seq<T>, id: Seq<char>, i: int) -> int
    decreases s.len() - i,
{
    if i < 0 || i >= s.len() {
        -1
    } else if s[i].key() == id {
        i
    } else {
        key_at(s, id, i + 1)
    }
}

/// The first record with identifier `id`, if any.
pub open spec fn lookup<T: Keyed>(s: Seq<T>, id: Seq<char>) -> Option<T> {
    let k = key_at(s, id, 0);
    if k == -1 {
        None
    } else {
        Some(s[k])
    }
}

/// Whether a record's identifier differs from `id`.
pub open spec fn other_key<T: Keyed>(id: Seq<char>) -> spec_fn(T) -> bool {
    |x: T| x.key() != id
}

/// What `key_at` finds: -1 exactly when no record from `i` on has the
/// identifier, else the first such index.
pub proof fn lemma_key_at<T: Keyed>(s: Seq<T>, id: Seq<char>, i: int)
    requires
        0 <= i,
    ensures
        key_at(s, id, i) == -1 <==> (forall|j: int| i <= j < s.len() ==> #[trigger] s[j].key() != id),
        key_at(s, id, i) != -1 ==> {
            &&& i <= key_at(s, id, i) < s.len()
            &&& s[key_at(s, id, i)].key() == id
            &&& forall|j: int| i <= j < key_at(s, id, i) ==> #[trigger] s[j].key() != id
        },
    decreases s.len() - i,
{
    if i < s.len() {
        lemma_key_at(s, id, i + 1);
    }
}

/// Two lists that agree on which positions hold `id` have it first at the
/// same position.
pub proof fn lemma_key_at_same<T: Keyed, U: Keyed>(s: Seq<T>, t: Seq<U>, id: Seq<char>)
    requires
        s.len() == t.len(),
        forall|j: int| 0 <= j < s.len() ==> (#[trigger] s[j].key() == id) == (t[j].key() == id),
    ensures
        key_at(s, id, 0) == key_at(t, id, 0),
{
    lemma_key_at(s, id, 0);
    lemma_key_at(t, id, 0);
    if key_at(s, id, 0) != -1 {
        assert(t[key_at(s, id, 0)].key() == id);
    }
    if key_at(t, id, 0) != -1 {
        assert(s[key_at(t, id, 0)].key() == id);
    }
}

/// Every record satisfies `p`, so filtering by it changes nothing.
pub proof fn lemma_filter_all<T>(s: Seq<T>, p: spec_fn(T) -> bool)
    requires
        forall|j: int| 0 <= j < s.len() ==> p(#[trigger] s[j]),
    ensures
        s.filter(p) == s,
    decreases s.len(),
{
    reveal(Seq::filter);
    if s.len() > 0 {
        lemma_filter_all(s.drop_last(), p);
        assert(p(s[s.len() - 1]));
        assert(s.drop_last().push(s.last()) =~= s);
    }
}

/// The index of the first record with identifier `id`.
pub fn find_keyed<T: Keyed>(v: &Vec<T>, id: &str) -> (r: Option<usize>)
    ensures
        match r {
            Some(i) => i < v@.len() && key_at(v@, id@, 0) == i,
            None => key_at(v@, id@, 0) == -1,
        },
{
    let n = v.len();
    for i in 0..n
        invariant
            n == v@.len(),
            key_at(v@, id@, 0) == key_at(v@, id@, i as int),
    {
        if str_eq(v[i].key_str(), id) {
            return Some(i);
        }
    }
    None
}

/// Whether a record with identifier `id` is listed.
pub fn has_keyed<T: Keyed>(v: &Vec<T>, id: &str) -> (r: bool)
    ensures
        r == (key_at(v@, id@, 0) != -1),
{
    find_keyed(v, id).is_some()
}

/// Drops every record with identifier `id`; true when there was one.
pub fn remove_keyed<T: Keyed>(v: &mut Vec<T>, id: &str) -> (removed: bool)
    ensures
        removed == (key_at(old(v)@, id@, 0) != -1),
        final(v)@ == old(v)@.filter(other_key::<T>(id@)),
{
    let ghost p = other_key::<T>(id@);
    let ghost target = old(v)@.filter(p);
    let first = find_keyed(v, id);
    loop
        invariant
            p == other_key::<T>(id@),
            v@.filter(p) == target,
        ensures
            v@ == target,
        decreases v@.len(),
    {
        match find_keyed(v, id) {
            None => {
                proof {
                    lemma_key_at(v@, id@, 0);
                    lemma_filter_all(v@, p);
                }
                break;
            },
            Some(j) => {
                let ghost before = v@;
                let _gone = v.remove(j);
                proof {
                    lemma_key_at(before, id@, 0);
                    let a = before.subrange(0, j as int);
                    let x = before.subrange(j as int, j + 1);
                    let b = before.subrange(j + 1, before.len() as int);
                    assert(before =~= a + x + b);
                    assert(v@ =~= a + b);
                    Seq::filter_distributes_over_add(a + x, b, p);
                    Seq::filter_distributes_over_add(a, x, p);
                    Seq::filter_distributes_over_add(a, b, p);
                    reveal(Seq::filter);
                    assert(x.len() == 1);
                    assert(x.drop_last() =~= Seq::<T>::empty());
                    assert(x.drop_last().filter(p) =~= Seq::<T>::empty());
                    assert(!p(x.last()));
                    assert(x.filter(p) =~= Seq::<T>::empty());
                    assert(a.filter(p) + x.filter(p) =~= a.filter(p));
                }
            },
        }
    }
    first.is_some()
}

/// Appending a record leaves the first position of an identifier that
/// was already there, and else finds it at the end when the record has it.
pub proof fn lemma_key_at_push<T: Keyed>(t: Seq<T>, x: T, id: Seq<char>)
    ensures
        key_at(t, id, 0) != -1 ==> key_at(t.push(x), id, 0) == key_at(t, id, 0),
        key_at(t, id, 0) == -1 ==> key_at(t.push(x), id, 0) == (if x.key() == id {
            t.len() as int
        } else {
            -1
        }),
{
    let u = t.push(x);
    lemma_key_at(t, id, 0);
    lemma_key_at(u, id, 0);
    assert forall|j: int| 0 <= j < t.len() implies #[trigger] u[j] == t[j] by {}
    assert(u[t.len() as int] == x);
    if key_at(t, id, 0) != -1 {
        let k = key_at(t, id, 0);
        assert(u[k].key() == id);
        let r = key_at(u, id, 0);
        if r < k {
            assert(t[r].key() == id);
        }
    } else {
        let r = key_at(u, id, 0);
        if r != -1 && r < t.len() {
            assert(t[r].key() == id);
        }
    }
}

/// Once the records of an identifier are removed, none is found.
pub proof fn lemma_none_after_remove<T: Keyed>(s: Seq<T>, id: Seq<char>)
    ensures
        lookup(s.filter(other_key::<T>(id)), id).is_none(),
{
    let p = other_key::<T>(id);
    let f = s.filter(p);
    assert forall|j: int| 0 <= j < f.len() implies #[trigger] f[j].key() != id by {
        s.lemma_filter_pred(p, j);
    }
    lemma_key_at(f, id, 0);
}

/// Removing the records of `id` leaves the first record of any other
/// identifier where it was found.
pub proof fn lemma_lookup_after_remove<T: Keyed>(s: Seq<T>, id: Seq<char>, other: Seq<char>)
    requires
        other != id,
    ensures
        lookup(s.filter(other_key::<T>(id)), other) == lookup(s, other),
    decreases s.len(),
{
    let p = other_key::<T>(id);
    reveal(Seq::filter);
    if s.len() > 0 {
        let init = s.drop_last();
        let x = s.last();
        lemma_lookup_after_remove(init, id, other);
        assert(init.push(x) =~= s);
        let fi = init.filter(p);
        lemma_key_at_push(init, x, other);
        lemma_key_at_push(fi, x, other);
        lemma_key_at(init, other, 0);
        lemma_key_at(fi, other, 0);
        if p(x) {
            assert(s.filter(p) =~= fi.push(x));
            let f = fi.push(x);
            if key_at(fi, other, 0) != -1 {
                assert(f[key_at(fi, other, 0)] == fi[key_at(fi, other, 0)]);
            }
            if key_at(init, other, 0) != -1 {
                assert(s[key_at(init, other, 0)] == init[key_at(init, other, 0)]);
            }
        } else {
            assert(s.filter(p) =~= fi);
            if key_at(init, other, 0) != -1 {
                assert(s[key_at(init, other, 0)] == init[key_at(init, other, 0)]);
            }
        }
    }
}

} // verus!
