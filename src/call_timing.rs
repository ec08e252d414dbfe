//! Accumulated latency of calls: how many, the shortest, the longest and
//! their total, with durations held as nanoseconds.

use std::sync::Arc;
use vstd::prelude::*;
use vstd::rwlock::{RwLock, RwLockPredicate};
use vstd::string::StringExecFns;

use crate::text::{decimal_text, humantime_text, push_decimal, push_duration, MAX_SPAN_NANOS};

verus! {

/// Statistics (count, shortest, longest, sum) after one more sample `d`.
pub open spec fn merge_sample(s: (nat, nat, nat, nat), d: nat) -> (nat, nat, nat, nat) {
    if s.0 == 0 {
        (1, d, d, d)
    } else {
        (s.0 + 1, if d < s.1 { d } else { s.1 }, if d > s.2 { d } else { s.2 }, s.3 + d)
    }
}

/// Statistics after merging the samples of `ds` into `s`, in list order.
pub open spec fn stats_from(s: (nat, nat, nat, nat), ds: Seq<nat>) -> (nat, nat, nat, nat)
    decreases ds.len(),
{
    if ds.len() == 0 {
        s
    } else {
        merge_sample(stats_from(s, ds.drop_last()), ds.last())
    }
}

/// Statistics after merging the samples of `ds` into empty ones, in list order.
pub open spec fn stats_after(ds: Seq<nat>) -> (nat, nat, nat, nat) {
    stats_from((0, 0, 0, 0), ds)
}

/// The sum of a list of samples.
pub open spec fn sum_of(ds: Seq<nat>) -> nat
    decreases ds.len(),
{
    if ds.len() == 0 {
        0
    } else {
        sum_of(ds.drop_last()) + ds.last()
    }
}

/// Adding one more sample to the statistics of `ds` gives the statistics
/// of `ds` followed by it; with `add`'s contract, a `CallTiming` that held
/// `s` and was fed `ds` one sample at a time holds `stats_from(s, ds)`.
pub proof fn lemma_add_extends(s: (nat, nat, nat, nat), ds: Seq<nat>, d: nat)
    ensures
        merge_sample(stats_from(s, ds), d) == stats_from(s, ds.push(d)),
{
    assert(ds.push(d).drop_last() =~= ds);
}

/// Merging samples one at a time loses none: the count is the number of
/// samples, the sum is their sum, and the shortest and longest are the
/// least and greatest of them, whichever order they came in.
pub proof fn lemma_samples_accumulate(ds: Seq<nat>)
    ensures
        stats_after(ds).0 == ds.len(),
        stats_after(ds).3 == sum_of(ds),
        forall|i: int| 0 <= i < ds.len() ==> stats_after(ds).1 <= #[trigger] ds[i] <= stats_after(ds).2,
        ds.len() > 0 ==> exists|i: int| 0 <= i < ds.len() && ds[i] == stats_after(ds).1,
        ds.len() > 0 ==> exists|i: int| 0 <= i < ds.len() && ds[i] == stats_after(ds).2,
    decreases ds.len(),
{
    if ds.len() > 0 {
        let pre = ds.drop_last();
        let d = ds.last();
        let last = ds.len() - 1;
        lemma_samples_accumulate(pre);
        assert(forall|k: int| 0 <= k < pre.len() ==> ds[k] == pre[k]);
        assert(ds[last] == d);
        if pre.len() > 0 {
            let s = stats_after(pre);
            let i = choose|i: int| 0 <= i < pre.len() && pre[i] == s.1;
            let j = choose|j: int| 0 <= j < pre.len() && pre[j] == s.2;
            if d < s.1 {
                assert(ds[last] == stats_after(ds).1);
            } else {
                assert(ds[i] == stats_after(ds).1);
            }
            if d > s.2 {
                assert(ds[last] == stats_after(ds).2);
            } else {
                assert(ds[j] == stats_after(ds).2);
            }
        } else {
            assert(ds[last] == stats_after(ds).1);
            assert(ds[last] == stats_after(ds).2);
        }
    }
}

/// Two samples merged in either order give the same statistics.
pub proof fn lemma_merge_commutes(s: (nat, nat, nat, nat), a: nat, b: nat)
    ensures
        merge_sample(merge_sample(s, a), b) == merge_sample(merge_sample(s, b), a),
{
}

/// Any one sample of a list may as well have been merged last.
pub proof fn lemma_merge_last(s: (nat, nat, nat, nat), es: Seq<nat>, k: int)
    requires
        0 <= k < es.len(),
    ensures
        stats_from(s, es) == merge_sample(stats_from(s, es.remove(k)), es[k]),
    decreases es.len(),
{
    if k == es.len() - 1 {
        assert(es.remove(k) =~= es.drop_last());
    } else {
        let pre = es.drop_last();
        lemma_merge_last(s, pre, k);
        assert(es.remove(k).drop_last() =~= pre.remove(k));
        assert(es.remove(k).last() == es.last());
        lemma_merge_commutes(stats_from(s, pre.remove(k)), es[k], es.last());
    }
}

/// The order in which samples arrive, as when concurrent callers take
/// turns, does not change the statistics: from any statistics `s`, lists
/// holding the same samples give the same count, shortest, longest and sum.
pub proof fn lemma_stats_order_free(s: (nat, nat, nat, nat), ds: Seq<nat>, es: Seq<nat>)
    requires
        ds.to_multiset() == es.to_multiset(),
    ensures
        stats_from(s, ds) == stats_from(s, es),
    decreases ds.len(),
{
    broadcast use vstd::seq_lib::group_to_multiset_ensures;

    vstd::seq_lib::to_multiset_len(ds);
    vstd::seq_lib::to_multiset_len(es);
    if ds.len() > 0 {
        let d = ds.last();
        let pre = ds.drop_last();
        assert(pre.push(d) =~= ds);
        assert(ds.to_multiset() =~= pre.to_multiset().insert(d));
        assert(es.to_multiset().count(d) > 0);
        assert(es.contains(d));
        let k = choose|k: int| 0 <= k < es.len() && es[k] == d;
        assert(es.remove(k).to_multiset() =~= es.to_multiset().remove(d));
        assert(pre.to_multiset().insert(d).remove(d) =~= pre.to_multiset());
        lemma_stats_order_free(s, pre, es.remove(k));
        lemma_merge_last(s, es, k);
    } else {
        assert(es.len() == 0);
        assert(es =~= ds);
    }
}

#[derive(Clone, Copy, Debug)]
struct SomeCallTiming {
    number: u32,
    min: u128,
    max: u128,
    sum: u128,
}

/// Latency statistics over the samples added so far; empty until the first.
#[derive(Clone, Copy, Debug)]
pub struct CallTiming(Option<SomeCallTiming>);

impl CallTiming {
    /// How many samples were added.
    pub closed spec fn number(self) -> nat {
        match self.0 {
            Some(t) => t.number as nat,
            None => 0,
        }
    }

    /// The shortest sample, in nanoseconds (0 while empty).
    pub closed spec fn least(self) -> nat {
        match self.0 {
            Some(t) => t.min as nat,
            None => 0,
        }
    }

    /// The longest sample, in nanoseconds (0 while empty).
    pub closed spec fn greatest(self) -> nat {
        match self.0 {
            Some(t) => t.max as nat,
            None => 0,
        }
    }

    /// The sum of the samples, in nanoseconds.
    pub closed spec fn total(self) -> nat {
        match self.0 {
            Some(t) => t.sum as nat,
            None => 0,
        }
    }

    /// The statistics are those of some non-empty list of samples, or empty.
    pub closed spec fn wf(self) -> bool {
        match self.0 {
            Some(t) => {
                &&& t.number >= 1
                &&& t.min <= t.max
                &&& t.max <= t.sum
                &&& t.sum <= MAX_SPAN_NANOS
                &&& t.min * t.number <= t.sum
                &&& t.sum <= t.max * t.number
            },
            None => true,
        }
    }

    /// The mean sample, truncated to whole nanoseconds.
    pub open spec fn average(self) -> nat {
        if self.number() == 0 {
            0
        } else {
            self.total() / self.number()
        }
    }

    /// One more sample of `nanos` fits: the count stays a `u32` and the sum
    /// stays a representable duration.
    pub open spec fn fits(self, nanos: nat) -> bool {
        &&& self.number() < u32::MAX
        &&& self.total() + nanos <= MAX_SPAN_NANOS
    }

    /// The statistics as (count, shortest, longest, sum).
    pub open spec fn stats(self) -> (nat, nat, nat, nat) {
        (self.number(), self.least(), self.greatest(), self.total())
    }

    /// `number=0` while empty, else the count, shortest, longest and mean
    /// sample, the durations in humantime's notation.
    pub open spec fn rendered(self) -> Seq<char> {
        if self.number() == 0 {
            "number=0"@
        } else {
            "number="@ + decimal_text(self.number()) + ", min="@ + humantime_text(self.least())
                + ", max="@ + humantime_text(self.greatest()) + ", avg="@ + humantime_text(
                self.average(),
            )
        }
    }

    /// No samples yet.
    pub fn new() -> (r: CallTiming)
        ensures
            r.wf(),
            r.stats() == (0nat, 0nat, 0nat, 0nat),
    {
        CallTiming(None)
    }

    /// Merges one sample of `duration` nanoseconds.
    pub fn add(&mut self, duration: u128)
        requires
            old(self).wf(),
            old(self).fits(duration as nat),
        ensures
            final(self).wf(),
            final(self).stats() == merge_sample(old(self).stats(), duration as nat),
    {
        if let Some(timing) = &mut self.0 {
            let ghost n = timing.number as int;
            let ghost lo = timing.min as int;
            let ghost hi = timing.max as int;
            let ghost s = timing.sum as int;
            let ghost d = duration as int;
            timing.number = timing.number + 1;
            if duration < timing.min {
                timing.min = duration;
            }
            if duration > timing.max {
                timing.max = duration;
            }
            timing.sum = timing.sum + duration;
            let ghost lo2 = timing.min as int;
            let ghost hi2 = timing.max as int;
            assert(lo2 * (n + 1) <= s + d) by (nonlinear_arith)
                requires
                    lo * n <= s,
                    lo2 <= lo,
                    lo2 <= d,
                    n >= 1,
                    lo2 >= 0,
            ;
            assert(s + d <= hi2 * (n + 1)) by (nonlinear_arith)
                requires
                    s <= hi * n,
                    hi <= hi2,
                    d <= hi2,
                    n >= 1,
            ;
        } else {
            self.0 = Some(SomeCallTiming { number: 1, min: duration, max: duration, sum: duration });
        }
    }

    /// Whether a sample of `duration` nanoseconds can be added.
    pub fn fits_sample(&self, duration: u128) -> (r: bool)
        requires
            self.wf(),
        ensures
            r == self.fits(duration as nat),
    {
        match &self.0 {
            Some(t) => t.number < u32::MAX && duration <= MAX_SPAN_NANOS - t.sum,
            None => duration <= MAX_SPAN_NANOS,
        }
    }

    /// How many samples were added.
    pub fn count(&self) -> (r: u32)
        ensures
            r as nat == self.number(),
    {
        match &self.0 {
            Some(t) => t.number,
            None => 0,
        }
    }

    /// The shortest sample, if any.
    pub fn min_nanos(&self) -> (r: Option<u128>)
        requires
            self.wf(),
        ensures
            r == (if self.number() == 0 { None } else { Some(self.least() as u128) }),
    {
        match &self.0 {
            Some(t) => Some(t.min),
            None => None,
        }
    }

    /// The longest sample, if any.
    pub fn max_nanos(&self) -> (r: Option<u128>)
        requires
            self.wf(),
        ensures
            r == (if self.number() == 0 { None } else { Some(self.greatest() as u128) }),
    {
        match &self.0 {
            Some(t) => Some(t.max),
            None => None,
        }
    }

    /// The sum of the samples, if any.
    pub fn sum_nanos(&self) -> (r: Option<u128>)
        requires
            self.wf(),
        ensures
            r == (if self.number() == 0 { None } else { Some(self.total() as u128) }),
    {
        match &self.0 {
            Some(t) => Some(t.sum),
            None => None,
        }
    }

    /// The mean sample in nanoseconds, truncated, if any.
    pub fn average_nanos(&self) -> (r: Option<u128>)
        requires
            self.wf(),
        ensures
            r == (if self.number() == 0 { None } else { Some(self.average() as u128) }),
    {
        match &self.0 {
            Some(t) => Some(t.sum / (t.number as u128)),
            None => None,
        }
    }

    /// The one-line summary of the statistics.
    pub fn render(&self) -> (r: String)
        requires
            self.wf(),
        ensures
            r@ == self.rendered(),
    {
        match &self.0 {
            Some(t) => {
                let mut out = String::from_str("number=");
                push_decimal(&mut out, t.number as u64);
                out.append(", min=");
                push_duration(&mut out, t.min);
                out.append(", max=");
                push_duration(&mut out, t.max);
                out.append(", avg=");
                push_duration(&mut out, t.sum / (t.number as u128));
                out
            },
            None => String::from_str("number=0"),
        }
    }
}

/// With at least one sample, the mean lies between the shortest and the
/// longest sample.
pub proof fn lemma_average_between(t: CallTiming)
    requires
        t.wf(),
        t.number() > 0,
    ensures
        t.least() <= t.average() <= t.greatest(),
{
    let n = t.number() as int;
    let lo = t.least() as int;
    let hi = t.greatest() as int;
    let s = t.total() as int;
    assert(lo * n <= s && s <= hi * n);
    assert(lo <= s / n <= hi) by (nonlinear_arith)
        requires
            lo * n <= s,
            s <= hi * n,
            n > 0,
    ;
}

impl Default for CallTiming {
    fn default() -> (r: CallTiming)
        ensures
            r.wf(),
            r.stats() == (0nat, 0nat, 0nat, 0nat),
    {
        CallTiming::new()
    }
}

/// What the lock around shared statistics keeps: they are well formed.
pub struct WellFormedTiming;

impl RwLockPredicate<CallTiming> for WellFormedTiming {
    open spec fn inv(self, v: CallTiming) -> bool {
        v.wf()
    }
}

/// Statistics shared by every task that records into them or reads them;
/// each clone refers to the same statistics.
#[derive(Clone)]
pub struct SharedTiming {
    lock: Arc<RwLock<CallTiming, WellFormedTiming>>,
}

impl SharedTiming {
    /// Shared statistics with no samples.
    pub fn new() -> (r: SharedTiming) {
        SharedTiming { lock: Arc::new(RwLock::new(CallTiming::new(), Ghost(WellFormedTiming))) }
    }

    /// Merges one sample of `duration` nanoseconds under the lock, so that
    /// concurrent samples are all kept. Returns whether the sample fitted,
    /// with the statistics as the lock held them before and after: merged
    /// with the sample when it fitted, unchanged when it did not.
    pub fn record(&self, duration: u128) -> (r: (bool, CallTiming, CallTiming))
        ensures
            r.1.wf(),
            r.2.wf(),
            r.0 == r.1.fits(duration as nat),
            r.0 ==> r.2.stats() == merge_sample(r.1.stats(), duration as nat),
            !r.0 ==> r.2 == r.1,
    {
        let (mut timing, handle) = self.lock.acquire_write();
        let before = timing;
        let fits = timing.fits_sample(duration);
        if fits {
            timing.add(duration);
        }
        let after = timing;
        handle.release_write(timing);
        (fits, before, after)
    }

    /// A copy of the statistics as they are now.
    pub fn snapshot(&self) -> (r: CallTiming)
        ensures
            r.wf(),
    {
        let handle = self.lock.acquire_read();
        let timing = *handle.borrow();
        handle.release_read();
        timing
    }

    /// The one-line summary of the statistics as they are now.
    pub fn render(&self) -> (r: String)
        ensures
            exists|t: CallTiming| t.wf() && r@ == t.rendered(),
    {
        let timing = self.snapshot();
        timing.render()
    }
}

/// A request handler together with the statistics of its calls.
pub struct CallTimedService<S> {
    pub call_timing: SharedTiming,
    pub inner: S,
}

impl<S> CallTimedService<S> {
    /// Wraps `inner` with fresh statistics.
    pub fn new(inner: S) -> (r: Self)
        ensures
            r.inner == inner,
    {
        CallTimedService { call_timing: SharedTiming::new(), inner }
    }

    /// Records that one call took `duration` nanoseconds; see
    /// [`SharedTiming::record`].
    pub fn record_call(&self, duration: u128) -> (r: (bool, CallTiming, CallTiming))
        ensures
            r.1.wf(),
            r.2.wf(),
            r.0 == r.1.fits(duration as nat),
            r.0 ==> r.2.stats() == merge_sample(r.1.stats(), duration as nat),
            !r.0 ==> r.2 == r.1,
    {
        self.call_timing.record(duration)
    }
}

} // verus!
