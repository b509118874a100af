//! The fixed-window abuse detector: a per-address request counter
//! over fixed-width time buckets.
//!
//! A request in a fresh bucket resets the address's record to a count
//! of one; a request in the same bucket increments it, and once the
//! count exceeds the configured threshold the caller is told to
//! escalate (ban the address). Counts never carry over from one
//! bucket to the next, so a burst straddling a bucket boundary can
//! transiently exceed the nominal rate; that is the documented
//! fixed-window behaviour, not a sliding log.

use vstd::prelude::*;

use crate::addr::ClientAddr;

verus! {

/// Per-address record: the start of the bucket the address was last
/// seen in, and how many requests it has made since that start.
#[derive(Clone, Copy, PartialEq, Eq, Structural, Debug)]
pub struct RateWindow {
    pub bucket_start: u64,
    pub count: u64,
}

/// What the limiter tells the admission pipeline about a request.
#[derive(Clone, Copy, PartialEq, Eq, Structural, Debug)]
pub enum Decision {
    /// The request stays within the rate budget.
    Continue,
    /// The address exceeded the threshold; the caller must ban it.
    Escalate,
}

#[derive(Clone, Copy, PartialEq, Eq, Structural, Debug)]
struct RateEntry {
    addr: ClientAddr,
    window: RateWindow,
}

/// The bucket boundary that `now` falls into: `now` rounded down to a
/// multiple of `width`.
pub open spec fn bucket_of(now: u64, width: u64) -> u64
    recommends
        width >= 1,
{
    ((now as int) - (now as int) % (width as int)) as u64
}

/// How one request from `addr` at time `now` transforms the per-address
/// windows, and the decision reported for it.
pub open spec fn rate_step(
    m: Map<ClientAddr, RateWindow>,
    width: u64,
    threshold: u32,
    addr: ClientAddr,
    now: u64,
) -> (Map<ClientAddr, RateWindow>, Decision) {
    let b = bucket_of(now, width);
    if !m.dom().contains(addr) || m[addr].bucket_start != b {
        (m.insert(addr, RateWindow { bucket_start: b, count: 1 }), Decision::Continue)
    } else {
        let c0 = m[addr].count;
        let c1: u64 = if c0 <= threshold as u64 {
            (c0 + 1) as u64
        } else {
            c0
        };
        (
            m.insert(addr, RateWindow { bucket_start: b, count: c1 }),
            if c1 > threshold as u64 {
                Decision::Escalate
            } else {
                Decision::Continue
            },
        )
    }
}

/// Every recorded count lies between one and `threshold + 1`: a record
/// is created at one, and incrementing stops once the count has gone
/// past the threshold (the decision is `Escalate` from then on either
/// way).
pub open spec fn counts_bounded(m: Map<ClientAddr, RateWindow>, threshold: u32) -> bool {
    forall|a: ClientAddr|
        m.dom().contains(a) ==> 1 <= (#[trigger] m[a]).count <= threshold as u64 + 1
}

spec fn has_addr(s: Seq<RateEntry>, a: ClientAddr) -> bool {
    exists|i: int| 0 <= i < s.len() && s[i].addr == a
}

spec fn win_of(s: Seq<RateEntry>, a: ClientAddr) -> RateWindow {
    let i = choose|i: int| 0 <= i < s.len() && s[i].addr == a;
    s[i].window
}

spec fn entries_map(s: Seq<RateEntry>) -> Map<ClientAddr, RateWindow> {
    Map::new(|a: ClientAddr| has_addr(s, a), |a: ClientAddr| win_of(s, a))
}

spec fn unique_addrs(s: Seq<RateEntry>) -> bool {
    forall|i: int, j: int| 0 <= i < j < s.len() ==> s[i].addr != s[j].addr
}

proof fn lemma_win_of(s: Seq<RateEntry>, i: int)
    requires
        unique_addrs(s),
        0 <= i < s.len(),
    ensures
        win_of(s, s[i].addr) == s[i].window,
{
    let a = s[i].addr;
    let j = choose|j: int| 0 <= j < s.len() && s[j].addr == a;
    assert(j == i);
}

proof fn lemma_remove_entry(before: Seq<RateEntry>, i: int)
    requires
        unique_addrs(before),
        0 <= i < before.len(),
    ensures
        unique_addrs(before.remove(i)),
        entries_map(before.remove(i)) == entries_map(before).remove(before[i].addr),
{
    let addr = before[i].addr;
    let after = before.remove(i);
    assert forall|x: ClientAddr| #[trigger] has_addr(after, x)
        <==> (has_addr(before, x) && x != addr) by {
        if has_addr(after, x) {
            let k = choose|k: int| 0 <= k < after.len() && after[k].addr == x;
            if k < i {
                assert(before[k].addr == x);
            } else {
                assert(before[k + 1].addr == x);
            }
        }
        if has_addr(before, x) && x != addr {
            let k = choose|k: int| 0 <= k < before.len() && before[k].addr == x;
            if k < i {
                assert(after[k].addr == x);
            } else {
                assert(k > i);
                assert(after[k - 1].addr == x);
            }
        }
    }
    assert forall|x: ClientAddr| has_addr(after, x) implies #[trigger] win_of(after, x) == win_of(
        before,
        x,
    ) by {
        let k = choose|k: int| 0 <= k < after.len() && after[k].addr == x;
        if k < i {
            assert(before[k].addr == x);
            lemma_win_of(before, k);
        } else {
            assert(before[k + 1].addr == x);
            lemma_win_of(before, k + 1);
        }
        lemma_win_of(after, k);
    }
    assert(entries_map(after) =~= entries_map(before).remove(addr));
}

proof fn lemma_push_entry(before: Seq<RateEntry>, e: RateEntry)
    requires
        unique_addrs(before),
        !has_addr(before, e.addr),
    ensures
        unique_addrs(before.push(e)),
        entries_map(before.push(e)) == entries_map(before).insert(e.addr, e.window),
{
    let after = before.push(e);
    assert forall|x: ClientAddr| #[trigger] has_addr(after, x)
        <==> (has_addr(before, x) || x == e.addr) by {
        if has_addr(after, x) {
            let k = choose|k: int| 0 <= k < after.len() && after[k].addr == x;
            if k < before.len() {
                assert(before[k].addr == x);
            }
        }
        if has_addr(before, x) {
            let k = choose|k: int| 0 <= k < before.len() && before[k].addr == x;
            assert(after[k].addr == x);
        }
        assert(after[before.len() as int].addr == e.addr);
    }
    assert forall|x: ClientAddr| has_addr(before, x) && x != e.addr
        implies #[trigger] win_of(after, x) == win_of(before, x) by {
        let k = choose|k: int| 0 <= k < before.len() && before[k].addr == x;
        assert(after[k].addr == x);
        lemma_win_of(before, k);
        lemma_win_of(after, k);
    }
    lemma_win_of(after, before.len() as int);
    assert(entries_map(after) =~= entries_map(before).insert(e.addr, e.window));
}

/// The per-address sliding counter. On overflow of the budget it
/// instructs the admission pipeline to escalate to a ban.
pub struct RateLimiter {
    window_width: u64,
    threshold: u32,
    records: Vec<RateEntry>,
}

impl View for RateLimiter {
    type V = Map<ClientAddr, RateWindow>;

    /// The per-address records as a mathematical map.
    closed spec fn view(&self) -> Map<ClientAddr, RateWindow> {
        entries_map(self.records@)
    }
}

impl RateLimiter {
    /// The configured bucket width, in the same time unit as `now`.
    pub closed spec fn width(&self) -> u64 {
        self.window_width
    }

    /// The configured request-count threshold.
    pub closed spec fn threshold(&self) -> u32 {
        self.threshold
    }

    /// Internal well-formedness: a positive bucket width, one record
    /// per address, and every count within its bucket budget.
    pub closed spec fn wf(&self) -> bool {
        &&& self.window_width >= 1
        &&& unique_addrs(self.records@)
        &&& counts_bounded(self@, self.threshold)
    }

    /// A fresh limiter with the given bucket width and threshold and
    /// no records.
    pub fn new(window_width: u64, threshold: u32) -> (r: RateLimiter)
        requires
            window_width >= 1,
        ensures
            r.wf(),
            r@ == Map::<ClientAddr, RateWindow>::empty(),
            r.width() == window_width,
            r.threshold() == threshold,
    {
        let r = RateLimiter { window_width, threshold, records: Vec::new() };
        proof {
            assert(r@ =~= Map::<ClientAddr, RateWindow>::empty());
        }
        r
    }

    /// The threshold, readable at run time.
    pub fn threshold_value(&self) -> (r: u32)
        ensures
            r == self.threshold(),
    {
        self.threshold
    }

    /// The bucket width, readable at run time.
    pub fn width_value(&self) -> (r: u64)
        ensures
            r == self.width(),
    {
        self.window_width
    }

    fn position(&self, addr: ClientAddr) -> (r: Option<usize>)
        ensures
            match r {
                Some(i) => i < self.records@.len() && self.records@[i as int].addr == addr,
                None => !has_addr(self.records@, addr),
            },
    {
        let n = self.records.len();
        let mut i: usize = 0;
        while i < n
            invariant
                i <= n,
                n == self.records@.len(),
                forall|j: int| 0 <= j < i ==> self.records@[j].addr != addr,
            decreases n - i,
        {
            if self.records[i].addr == addr {
                return Some(i);
            }
            i = i + 1;
        }
        None
    }

    /// Records one request from `addr` observed at time `now` and says
    /// whether the address stays within its budget or must be
    /// escalated. A request in a fresh bucket resets the record to a
    /// count of one; one in the recorded bucket increments the count,
    /// and the decision is `Escalate` exactly when the count has gone
    /// past the threshold.
    pub fn record_and_check(&mut self, addr: ClientAddr, now: u64) -> (r: Decision)
        requires
            old(self).wf(),
        ensures
            final(self).wf(),
            final(self).width() == old(self).width(),
            final(self).threshold() == old(self).threshold(),
            (final(self)@, r) == rate_step(
                old(self)@,
                old(self).width(),
                old(self).threshold(),
                addr,
                now,
            ),
    {
        let width = self.window_width;
        proof {
            assert(now % width <= now) by (nonlinear_arith)
                requires
                    width >= 1,
            ;
        }
        let boundary: u64 = now - now % width;
        let threshold64: u64 = self.threshold as u64;
        match self.position(addr) {
            None => {
                let ghost before = self.records@;
                let entry = RateEntry {
                    addr,
                    window: RateWindow { bucket_start: boundary, count: 1 },
                };
                self.records.push(entry);
                proof {
                    lemma_push_entry(before, entry);
                }
                Decision::Continue
            }
            Some(i) => {
                let current = self.records[i].window;
                proof {
                    lemma_win_of(self.records@, i as int);
                    assert(self@.dom().contains(addr));
                }
                let ghost before = self.records@;
                self.records.remove(i);
                proof {
                    lemma_remove_entry(before, i as int);
                }
                let ghost mid = self.records@;
                if current.bucket_start != boundary {
                    let entry = RateEntry {
                        addr,
                        window: RateWindow { bucket_start: boundary, count: 1 },
                    };
                    self.records.push(entry);
                    proof {
                        lemma_push_entry(mid, entry);
                        assert(self@ =~= rate_step(
                            entries_map(before),
                            self.window_width,
                            self.threshold,
                            addr,
                            now,
                        ).0);
                    }
                    Decision::Continue
                } else {
                    let new_count: u64 = if current.count <= threshold64 {
                        current.count + 1
                    } else {
                        current.count
                    };
                    let entry = RateEntry {
                        addr,
                        window: RateWindow { bucket_start: boundary, count: new_count },
                    };
                    self.records.push(entry);
                    proof {
                        lemma_push_entry(mid, entry);
                        assert(self@ =~= rate_step(
                            entries_map(before),
                            self.window_width,
                            self.threshold,
                            addr,
                            now,
                        ).0);
                    }
                    if new_count > threshold64 {
                        Decision::Escalate
                    } else {
                        Decision::Continue
                    }
                }
            }
        }
    }
}

} // verus!
