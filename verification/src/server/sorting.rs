//! Stable sorting of records by a number: records with equal numbers keep
//! their order.

use vstd::prelude::*;

verus! {

/// The first index from `i` on whose number is above `k`, else the length.
pub open spec fn first_above<T>(s: Seq<(u64, T)>, k: u64, i: int) -> int
    decreases s.len() - i,
{
    if i < 0 || i >= s.len() {
        s.len() as int
    } else if s[i].0 > k {
        i
    } else {
        first_above(s, k, i + 1)
    }
}

/// `x` put into `s` after every entry whose number is not above its own.
pub open spec fn insert_stable<T>(s: Seq<(u64, T)>, x: (u64, T)) -> Seq<(u64, T)> {
    s.insert(first_above(s, x.0, 0), x)
}

/// The entries of `s` ordered by number, ascending; entries with equal
/// numbers in the order they had.
pub open spec fn sorted_stable<T>(s: Seq<(u64, T)>) -> Seq<(u64, T)>
    decreases s.len(),
{
    if s.len() == 0 {
        s
    } else {
        insert_stable(sorted_stable(s.drop_last()), s.last())
    }
}

pub proof fn lemma_first_above_bounds<T>(s: Seq<(u64, T)>, k: u64, i: int)
    requires
        0 <= i <= s.len(),
    ensures
        i <= first_above(s, k, i) <= s.len(),
    decreases s.len() - i,
{
    if i < s.len() {
        lemma_first_above_bounds(s, k, i + 1);
    }
}

fn position_above<T>(v: &Vec<(u64, T)>, k: u64) -> (p: usize)
    ensures
        p == first_above(v@, k, 0),
        p <= v@.len(),
{
    let n = v.len();
    let mut i: usize = 0;
    while i < n
        invariant
            n == v@.len(),
            i <= n,
            first_above(v@, k, 0) == first_above(v@, k, i as int),
        decreases n - i,
    {
        if v[i].0 > k {
            return i;
        }
        i = i + 1;
    }
    i
}

/// Sorts entries by number, ascending and stably.
pub fn sort_stable<T>(v: Vec<(u64, T)>) -> (r: Vec<(u64, T)>)
    ensures
        r@ == sorted_stable(v@),
{
    let ghost input = v@;
    let mut rest = v;
    let mut out: Vec<(u64, T)> = Vec::new();
    let n = rest.len();
    let mut i: usize = 0;
    proof {
        assert(input.subrange(0, 0) =~= Seq::<(u64, T)>::empty());
        assert(input.subrange(0, n as int) =~= input);
    }
    while i < n
        invariant
            n == input.len(),
            i <= n,
            rest@ == input.subrange(i as int, n as int),
            out@ == sorted_stable(input.subrange(0, i as int)),
        decreases n - i,
    {
        let x = rest.remove(0);
        proof {
            let s = input.subrange(0, i + 1);
            assert(s.drop_last() =~= input.subrange(0, i as int));
            assert(s.last() == x);
            assert(rest@ =~= input.subrange(i + 1, n as int));
        }
        let p = position_above(&out, x.0);
        out.insert(p, x);
        i = i + 1;
    }
    proof {
        assert(input.subrange(0, n as int) =~= input);
    }
    out
}

/// The entries' records, in order.
pub open spec fn records_of<T>(s: Seq<(u64, T)>) -> Seq<T> {
    s.map_values(|e: (u64, T)| e.1)
}

/// The records of entries, in order.
pub fn take_records<T>(v: Vec<(u64, T)>) -> (r: Vec<T>)
    ensures
        r@ == records_of(v@),
{
    let ghost input = v@;
    let mut rest = v;
    let mut out: Vec<T> = Vec::new();
    let n = rest.len();
    let mut i: usize = 0;
    while i < n
        invariant
            n == input.len(),
            i <= n,
            rest@ == input.subrange(i as int, n as int),
            out@ == records_of(input.subrange(0, i as int)),
        decreases n - i,
    {
        let x = rest.remove(0);
        out.push(x.1);
        proof {
            assert(rest@ =~= input.subrange(i + 1, n as int));
            assert(out@ =~= records_of(input.subrange(0, i + 1)));
        }
        i = i + 1;
    }
    proof {
        assert(input.subrange(0, n as int) =~= input);
    }
    out
}

/// The ordering is by number: each entry's number is at most the next one's.
pub proof fn lemma_sorted_ascending<T>(s: Seq<(u64, T)>)
    ensures
        sorted_stable(s).len() == s.len(),
        forall|i: int, j: int| 0 <= i < j < s.len() ==> #[trigger] sorted_stable(s)[i].0 <= #[trigger] sorted_stable(s)[j].0,
    decreases s.len(),
{
    if s.len() > 0 {
        let t = sorted_stable(s.drop_last());
        lemma_sorted_ascending(s.drop_last());
        lemma_first_above_bounds(t, s.last().0, 0);
        lemma_first_above_split(t, s.last().0, 0);
        let p = first_above(t, s.last().0, 0);
        let u = t.insert(p, s.last());
        assert forall|i: int, j: int| 0 <= i < j < u.len() implies #[trigger] u[i].0 <= #[trigger] u[j].0 by {
            if j < p {
                assert(u[i] == t[i] && u[j] == t[j]);
            } else if j == p {
                assert(u[i] == t[i]);
            } else if i < p {
                assert(u[i] == t[i] && u[j] == t[j - 1]);
                if j - 1 > i {
                    assert(t[i].0 <= t[j - 1].0);
                }
            } else if i == p {
                assert(u[j] == t[j - 1]);
            } else {
                assert(u[i] == t[i - 1] && u[j] == t[j - 1]);
            }
        }
    }
}

/// Before `first_above` every number is at most `k`; from it on (in a
/// list ordered by number) every number is above `k`.
proof fn lemma_first_above_split<T>(t: Seq<(u64, T)>, k: u64, i: int)
    requires
        0 <= i <= t.len(),
        forall|a: int, b: int| 0 <= a < b < t.len() ==> #[trigger] t[a].0 <= #[trigger] t[b].0,
    ensures
        forall|a: int| i <= a < first_above(t, k, i) ==> #[trigger] t[a].0 <= k,
        forall|a: int| first_above(t, k, i) <= a < t.len() ==> #[trigger] t[a].0 > k,
    decreases t.len() - i,
{
    if i < t.len() {
        lemma_first_above_split(t, k, i + 1);
        if t[i].0 > k {
            assert forall|a: int| i <= a < t.len() implies #[trigger] t[a].0 > k by {
                if a > i {
                    assert(t[i].0 <= t[a].0);
                }
            }
        }
    }
}

} // verus!
