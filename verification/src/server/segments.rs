//! Bounded backlogs: the newest items of a stream, oldest dropped first.

use vstd::prelude::*;

verus! {

/// Appends `item` and then drops the oldest items until at most `max` remain.
pub fn push_keep_newest<T>(items: &mut Vec<T>, item: T, max: usize)
    ensures
        ({
            let pushed = old(items)@.push(item);
            final(items)@ == if pushed.len() > max {
                pushed.subrange(pushed.len() - max, pushed.len() as int)
            } else {
                pushed
            }
        }),
{
    items.push(item);
    if items.len() > max {
        let excess = items.len() - max;
        drop_oldest(items, excess);
    }
}

/// Drops the `count` oldest items.
pub fn drop_oldest<T>(items: &mut Vec<T>, count: usize)
    requires
        count <= old(items)@.len(),
    ensures
        final(items)@ == old(items)@.subrange(count as int, old(items)@.len() as int),
{
    let mut kept: Vec<T> = Vec::new();
    let n = items.len();
    let mut rest: Vec<T> = Vec::new();
    std::mem::swap(&mut rest, items);
    let ghost all = rest@;
    // Items come out back to front; collect them reversed, then restore order.
    let mut reversed: Vec<T> = Vec::new();
    while rest.len() > count
        invariant
            count <= n,
            n == all.len(),
            count <= rest@.len() <= n,
            rest@ == all.subrange(0, rest@.len() as int),
            reversed@.len() == n - rest@.len(),
            forall|j: int| 0 <= j < reversed@.len() ==> #[trigger] reversed@[j] == all[n - 1 - j],
        decreases rest@.len(),
    {
        let x = rest.pop().unwrap();
        reversed.push(x);
    }
    while reversed.len() > 0
        invariant
            count <= n,
            n == all.len(),
            reversed@.len() + kept@.len() == n - count,
            forall|j: int| 0 <= j < reversed@.len() ==> #[trigger] reversed@[j] == all[n - 1 - j],
            kept@ == all.subrange(count as int, count + kept@.len()),
        decreases reversed@.len(),
    {
        let x = reversed.pop().unwrap();
        let ghost k = kept@.len();
        kept.push(x);
        proof {
            assert(kept@ =~= all.subrange(count as int, count + k + 1));
        }
    }
    proof {
        assert(kept@ =~= all.subrange(count as int, n as int));
    }
    *items = kept;
}

} // verus!
