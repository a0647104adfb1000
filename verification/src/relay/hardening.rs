//! Admission control: connection rate, bandwidth, viewers and concurrent
//! connections, plus change detection for the configuration file.
//!
//! Clocks are read by the caller; every decision here takes the current
//! time, in milliseconds of a monotonic clock, as an argument.

use vstd::prelude::*;

verus! {

/// The length of a rate window, in milliseconds.
pub const WINDOW_MS: u64 = 1000;

/// Whether a window that opened at `start` has closed by `now`. A clock
/// that reads earlier than `start` counts as no time elapsed.
pub open spec fn window_elapsed(start: u64, now: u64) -> bool {
    now >= start && now - start >= WINDOW_MS
}

fn elapsed_since(start: u64, now: u64) -> (r: bool)
    ensures
        r == window_elapsed(start, now),
{
    now >= start && now - start >= WINDOW_MS
}

/// Limits new connections to a number per one-second window.
pub struct RateLimiter {
    max_connections_per_second: u32,
    current_count: u32,
    window_start_ms: u64,
}

/// The state of a rate limiter: limit, connections admitted in the current
/// window, and when that window opened.
pub struct RateLimiterView {
    pub max: u32,
    pub count: u32,
    pub window_start: u64,
}

impl View for RateLimiter {
    type V = RateLimiterView;

    closed spec fn view(&self) -> RateLimiterView {
        RateLimiterView {
            max: self.max_connections_per_second,
            count: self.current_count,
            window_start: self.window_start_ms,
        }
    }
}

/// One admission request at `now`: a window that has run for a second is
/// replaced by a fresh one first; the request is admitted while the window
/// has room.
pub open spec fn rate_step(v: RateLimiterView, now: u64) -> (bool, RateLimiterView) {
    let fresh = window_elapsed(v.window_start, now);
    let count = if fresh { 0 } else { v.count };
    let start = if fresh { now } else { v.window_start };
    if count < v.max {
        (true, RateLimiterView { max: v.max, count: (count + 1) as u32, window_start: start })
    } else {
        (false, RateLimiterView { max: v.max, count: count, window_start: start })
    }
}

/// Requests at the given times, one after another: how many were admitted,
/// and the limiter afterwards.
pub open spec fn rate_run(v: RateLimiterView, times: Seq<u64>) -> (int, RateLimiterView)
    decreases times.len(),
{
    if times.len() == 0 {
        (0, v)
    } else {
        let (n, w) = rate_run(v, times.drop_last());
        let (admitted, w2) = rate_step(w, times.last());
        (n + if admitted { 1int } else { 0 }, w2)
    }
}

/// Within one window, a limiter admits no more than its limit: requests
/// that all come before the window closes get at most the room left.
pub proof fn law_rate_limit_per_window(v: RateLimiterView, times: Seq<u64>)
    requires
        v.count <= v.max,
        forall|i: int| 0 <= i < times.len() ==> !window_elapsed(v.window_start, #[trigger] times[i]),
    ensures
        rate_run(v, times).0 + v.count <= v.max,
        rate_run(v, times).1.count == v.count + rate_run(v, times).0,
        rate_run(v, times).1.window_start == v.window_start,
        rate_run(v, times).1.max == v.max,
    decreases times.len(),
{
    if times.len() > 0 {
        let prefix = times.drop_last();
        assert forall|i: int| 0 <= i < prefix.len() implies !window_elapsed(v.window_start, #[trigger] prefix[i]) by {
            assert(prefix[i] == times[i]);
        }
        law_rate_limit_per_window(v, prefix);
        assert(!window_elapsed(v.window_start, times[times.len() - 1]));
    }
}

/// A request that finds its window over opens a new one at its own time:
/// the count starts again from it.
pub proof fn law_rate_window_restarts(v: RateLimiterView, now: u64)
    requires
        window_elapsed(v.window_start, now),
    ensures
        rate_step(v, now).1.window_start == now,
        rate_step(v, now).0 == (v.max > 0),
        rate_step(v, now).1.count == (if v.max > 0 { 1u32 } else { 0u32 }),
{
}

/// Requests one after another: running `a` then `b` is running `a + b`.
pub proof fn lemma_rate_run_append(v: RateLimiterView, a: Seq<u64>, b: Seq<u64>)
    ensures
        rate_run(v, a + b).0 == rate_run(v, a).0 + rate_run(rate_run(v, a).1, b).0,
        rate_run(v, a + b).1 == rate_run(rate_run(v, a).1, b).1,
    decreases b.len(),
{
    if b.len() == 0 {
        assert(a + b =~= a);
    } else {
        lemma_rate_run_append(v, a, b.drop_last());
        assert((a + b).drop_last() =~= a + b.drop_last());
        assert((a + b).last() == b.last());
    }
}

/// A window opened by a request at `t` admits at most the limit: that
/// request and every later one before `t + 1000` together get no more than
/// the limit, whatever came before.
pub proof fn law_rate_limit_from_new_window(v: RateLimiterView, t: u64, later: Seq<u64>)
    requires
        v.count <= v.max,
        window_elapsed(v.window_start, t),
        forall|i: int| 0 <= i < later.len() ==> !window_elapsed(t, #[trigger] later[i]),
    ensures
        rate_run(v, seq![t] + later).0 <= v.max,
{
    let first = seq![t];
    lemma_rate_run_append(v, first, later);
    assert(first.drop_last() =~= Seq::<u64>::empty());
    assert(rate_run(v, first.drop_last()) == (0int, v));
    assert(first.last() == t);
    let w = rate_run(v, first).1;
    assert(w == rate_step(v, t).1);
    assert(rate_run(v, first).0 == if rate_step(v, t).0 { 1int } else { 0int });
    law_rate_limit_per_window(w, later);
}

impl RateLimiter {
    #[verifier::type_invariant]
    closed spec fn inv(self) -> bool {
        self.current_count <= self.max_connections_per_second
    }

    /// A limiter whose first window opens at `now_ms`.
    pub fn new(max_connections_per_second: u32, now_ms: u64) -> (r: Self)
        ensures
            r@.max == max_connections_per_second,
            r@.count == 0,
            r@.window_start == now_ms,
    {
        RateLimiter { max_connections_per_second, current_count: 0, window_start_ms: now_ms }
    }

    /// Admits one connection at `now_ms` when the current window has room;
    /// a window that has run for a second is replaced by a fresh one first.
    pub fn try_acquire(&mut self, now_ms: u64) -> (admitted: bool)
        ensures
            (admitted, final(self)@) == rate_step(old(self)@, now_ms),
            final(self)@.count <= final(self)@.max,
    {
        proof {
            use_type_invariant(&*self);
        }
        if elapsed_since(self.window_start_ms, now_ms) {
            self.current_count = 0;
            self.window_start_ms = now_ms;
        }
        if self.current_count < self.max_connections_per_second {
            self.current_count = self.current_count + 1;
            true
        } else {
            false
        }
    }
}

/// Caps the number of connections open at once.
pub struct ConnectionPool {
    max_connections: usize,
    current: usize,
}

/// Proof that one connection slot was taken; give it back with `release`.
pub struct ConnectionGuard {
    slot: (),
}

/// The state of a pool: its capacity and the slots taken.
pub struct ConnectionPoolView {
    pub max: usize,
    pub active: usize,
}

impl View for ConnectionPool {
    type V = ConnectionPoolView;

    closed spec fn view(&self) -> ConnectionPoolView {
        ConnectionPoolView { max: self.max_connections, active: self.current }
    }
}

impl ConnectionPool {
    #[verifier::type_invariant]
    closed spec fn inv(self) -> bool {
        self.current <= self.max_connections
    }

    /// An empty pool with room for `max_connections`.
    pub fn new(max_connections: usize) -> (p: Self)
        ensures
            p@.max == max_connections,
            p@.active == 0,
    {
        ConnectionPool { max_connections, current: 0 }
    }

    /// Takes a slot when one is free.
    pub fn try_acquire(&mut self) -> (g: Option<ConnectionGuard>)
        ensures
            (g.is_some(), final(self)@) == pool_acquire(old(self)@),
            final(self)@.active <= final(self)@.max,
    {
        proof {
            use_type_invariant(&*self);
        }
        if self.current >= self.max_connections {
            None
        } else {
            self.current = self.current + 1;
            Some(ConnectionGuard { slot: () })
        }
    }

    /// Gives a slot back; the count never goes below zero.
    pub fn release(&mut self, guard: ConnectionGuard)
        ensures
            final(self)@ == pool_release(old(self)@),
            final(self)@.active <= final(self)@.max,
    {
        proof {
            use_type_invariant(&*self);
        }
        let _ = guard;
        if self.current > 0 {
            self.current = self.current - 1;
        }
    }

    /// The number of slots in use; never more than the capacity.
    pub fn active_connections(&self) -> (n: usize)
        ensures
            n == self@.active,
            n <= self@.max,
    {
        proof {
            use_type_invariant(self);
        }
        self.current
    }

    /// The capacity of the pool.
    pub fn max_connections(&self) -> (n: usize)
        ensures
            n == self@.max,
    {
        self.max_connections
    }
}

/// Taking a slot: granted while one is free.
pub open spec fn pool_acquire(v: ConnectionPoolView) -> (bool, ConnectionPoolView) {
    if v.active < v.max {
        (true, ConnectionPoolView { max: v.max, active: (v.active + 1) as usize })
    } else {
        (false, v)
    }
}

/// Giving a slot back; the count never goes below zero.
pub open spec fn pool_release(v: ConnectionPoolView) -> ConnectionPoolView {
    ConnectionPoolView { max: v.max, active: if v.active > 0 { (v.active - 1) as usize } else { 0 } }
}

/// Giving back a slot just taken leaves the pool as it was; a full pool
/// grants nothing until a slot is given back.
pub proof fn law_pool_release_undoes_acquire(v: ConnectionPoolView)
    requires
        v.active <= v.max,
    ensures
        pool_acquire(v).0 ==> pool_release(pool_acquire(v).1) == v,
        v.active == v.max ==> !pool_acquire(v).0,
        v.active == v.max && v.max > 0 ==> pool_acquire(pool_release(v)).0,
{
}

/// Limits the bytes sent per one-second window.
pub struct BandwidthLimiter {
    max_bytes_per_second: u64,
    bytes_used: u64,
    window_start_ms: u64,
}

/// The state of a bandwidth limiter.
pub struct BandwidthLimiterView {
    pub max: u64,
    pub used: u64,
    pub window_start: u64,
}

impl View for BandwidthLimiter {
    type V = BandwidthLimiterView;

    closed spec fn view(&self) -> BandwidthLimiterView {
        BandwidthLimiterView {
            max: self.max_bytes_per_second,
            used: self.bytes_used,
            window_start: self.window_start_ms,
        }
    }
}

/// One send of `bytes` at `now`: a window that has run for a second is
/// replaced by a fresh one first; the bytes go when they fit.
pub open spec fn bandwidth_step(v: BandwidthLimiterView, bytes: u64, now: u64) -> (bool, BandwidthLimiterView) {
    let fresh = window_elapsed(v.window_start, now);
    let used = if fresh { 0 } else { v.used };
    let start = if fresh { now } else { v.window_start };
    if used + bytes <= v.max {
        (true, BandwidthLimiterView { max: v.max, used: (used + bytes) as u64, window_start: start })
    } else {
        (false, BandwidthLimiterView { max: v.max, used, window_start: start })
    }
}

/// Sends one after another, each of so many bytes at a time: the bytes that
/// went, and the limiter afterwards.
pub open spec fn bandwidth_run(v: BandwidthLimiterView, sends: Seq<(u64, u64)>) -> (int, BandwidthLimiterView)
    decreases sends.len(),
{
    if sends.len() == 0 {
        (0, v)
    } else {
        let (n, w) = bandwidth_run(v, sends.drop_last());
        let (sent, w2) = bandwidth_step(w, sends.last().0, sends.last().1);
        (n + if sent { sends.last().0 as int } else { 0 }, w2)
    }
}

/// Within one window, no more bytes go than the limit allows.
pub proof fn law_bandwidth_per_window(v: BandwidthLimiterView, sends: Seq<(u64, u64)>)
    requires
        v.used <= v.max,
        forall|i: int| 0 <= i < sends.len() ==> !window_elapsed(v.window_start, (#[trigger] sends[i]).1),
    ensures
        bandwidth_run(v, sends).0 + v.used <= v.max,
        bandwidth_run(v, sends).1.used == v.used + bandwidth_run(v, sends).0,
        bandwidth_run(v, sends).1.window_start == v.window_start,
        bandwidth_run(v, sends).1.max == v.max,
    decreases sends.len(),
{
    if sends.len() > 0 {
        let prefix = sends.drop_last();
        assert forall|i: int| 0 <= i < prefix.len() implies !window_elapsed(v.window_start, (#[trigger] prefix[i]).1) by {
            assert(prefix[i] == sends[i]);
        }
        law_bandwidth_per_window(v, prefix);
        assert(!window_elapsed(v.window_start, sends[sends.len() - 1].1));
    }
}

impl BandwidthLimiter {
    #[verifier::type_invariant]
    closed spec fn inv(self) -> bool {
        self.bytes_used <= self.max_bytes_per_second
    }

    /// A limiter whose first window opens at `now_ms`.
    pub fn new(max_bytes_per_second: u64, now_ms: u64) -> (r: Self)
        ensures
            r@.max == max_bytes_per_second,
            r@.used == 0,
            r@.window_start == now_ms,
    {
        BandwidthLimiter { max_bytes_per_second, bytes_used: 0, window_start_ms: now_ms }
    }

    /// Accounts for `bytes` at `now_ms` when they fit in the current window.
    pub fn try_send(&mut self, bytes: u64, now_ms: u64) -> (sent: bool)
        ensures
            (sent, final(self)@) == bandwidth_step(old(self)@, bytes, now_ms),
            final(self)@.used <= final(self)@.max,
    {
        proof {
            use_type_invariant(&*self);
        }
        if elapsed_since(self.window_start_ms, now_ms) {
            self.bytes_used = 0;
            self.window_start_ms = now_ms;
        }
        if bytes <= self.max_bytes_per_second - self.bytes_used {
            self.bytes_used = self.bytes_used + bytes;
            true
        } else {
            false
        }
    }

    /// The bytes accounted in the current window.
    pub fn bytes_used(&self) -> (n: u64)
        ensures
            n == self@.used,
    {
        self.bytes_used
    }
}

/// Caps the number of viewers of a stream.
pub struct ViewerLimit {
    max_viewers: u32,
    current: u32,
}

/// The state of a viewer limit.
pub struct ViewerLimitView {
    pub max: u32,
    pub current: u32,
}

impl View for ViewerLimit {
    type V = ViewerLimitView;

    closed spec fn view(&self) -> ViewerLimitView {
        ViewerLimitView { max: self.max_viewers, current: self.current }
    }
}

impl ViewerLimit {
    #[verifier::type_invariant]
    closed spec fn inv(self) -> bool {
        self.current <= self.max_viewers
    }

    /// No viewers yet, room for `max_viewers`.
    pub fn new(max_viewers: u32) -> (v: Self)
        ensures
            v@.max == max_viewers,
            v@.current == 0,
    {
        ViewerLimit { max_viewers, current: 0 }
    }

    /// Admits a viewer when there is room.
    pub fn try_add_viewer(&mut self) -> (added: bool)
        ensures
            (added, final(self)@) == viewer_add(old(self)@),
    {
        proof {
            use_type_invariant(&*self);
        }
        if self.current < self.max_viewers {
            self.current = self.current + 1;
            true
        } else {
            false
        }
    }

    /// Lets a viewer go; the count never goes below zero.
    pub fn remove_viewer(&mut self)
        ensures
            final(self)@ == viewer_remove(old(self)@),
    {
        proof {
            use_type_invariant(&*self);
        }
        if self.current > 0 {
            self.current = self.current - 1;
        }
    }

    /// The viewers admitted.
    pub fn current_viewers(&self) -> (n: u32)
        ensures
            n == self@.current,
    {
        self.current
    }

    /// The cap.
    pub fn max_viewers(&self) -> (n: u32)
        ensures
            n == self@.max,
    {
        self.max_viewers
    }
}

/// Admitting a viewer: while there is room.
pub open spec fn viewer_add(v: ViewerLimitView) -> (bool, ViewerLimitView) {
    if v.current < v.max {
        (true, ViewerLimitView { max: v.max, current: (v.current + 1) as u32 })
    } else {
        (false, v)
    }
}

/// Letting a viewer go; the count never goes below zero.
pub open spec fn viewer_remove(v: ViewerLimitView) -> ViewerLimitView {
    ViewerLimitView { max: v.max, current: if v.current > 0 { (v.current - 1) as u32 } else { 0 } }
}

/// A viewer that leaves makes room for the next: a full limit refuses,
/// and after one viewer leaves it admits again.
pub proof fn law_viewer_leaves_room(v: ViewerLimitView)
    requires
        v.current == v.max,
        v.max > 0,
    ensures
        !viewer_add(v).0,
        viewer_add(viewer_remove(v)).0,
        viewer_add(viewer_remove(v)).1 == v,
{
}

/// Notices when the configuration file's modification time moves forward.
pub struct ConfigWatcher {
    pub path: String,
    pub last_modified: Option<u128>,
}

/// What one look at the file makes of it: whether it changed, and the time
/// remembered afterwards.
pub open spec fn watch_step(last: Option<u128>, modified: Option<u128>) -> (bool, Option<u128>) {
    match modified {
        None => (false, last),
        Some(m) => (
            match last {
                None => true,
                Some(l) => m > l,
            },
            Some(m),
        ),
    }
}

/// A file that has not been touched since the last look is not reported
/// again; a later modification time is.
pub proof fn law_watch_reports_once(last: Option<u128>, m: u128, later: u128)
    requires
        later > m,
    ensures
        !watch_step(watch_step(last, Some(m)).1, Some(m)).0,
        watch_step(watch_step(last, Some(m)).1, Some(later)).0,
{
}

impl ConfigWatcher {
    /// A watcher that has not looked at the file yet.
    pub fn new(path: String) -> (w: Self)
        ensures
            w.path == path,
            w.last_modified.is_none(),
    {
        ConfigWatcher { path, last_modified: None }
    }

    /// Takes the file's modification time (nanoseconds since the Unix epoch),
    /// or `None` when it could not be read, and tells whether the file
    /// changed since the last look: the first successful look counts as a
    /// change, later ones when the time is later than the one remembered.
    pub fn observe(&mut self, modified: Option<u128>) -> (changed: bool)
        ensures
            final(self).path == old(self).path,
            (changed, final(self).last_modified) == watch_step(old(self).last_modified, modified),
    {
        match modified {
            None => false,
            Some(m) => {
                let changed = match self.last_modified {
                    None => true,
                    Some(last) => m > last,
                };
                self.last_modified = Some(m);
                changed
            },
        }
    }
}

} // verus!
