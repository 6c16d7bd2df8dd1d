//! The rate limiter: one token bucket for the whole pipeline.

use vstd::prelude::*;
use crate::trusted::utc_now_micros;

verus! {

/// One token, counted in millionths. The bucket is refilled by the
/// microsecond, so at `n` tokens a second it gains `n` millionths in each.
pub const TOKEN: u64 = 1_000_000;

/// A token bucket as a mathematical value: its two settings, its level in
/// millionths of a token, and the time of the last request, in microseconds.
pub struct BucketView {
    pub per_second: nat,
    pub burst_size: nat,
    pub level: nat,
    pub last: int,
}

impl BucketView {
    /// The level of the full bucket.
    pub open spec fn capacity(self) -> nat {
        self.burst_size * 1_000_000
    }

    /// Both settings are positive and the bucket is not over-full.
    pub open spec fn wf(self) -> bool {
        &&& self.per_second >= 1
        &&& self.burst_size >= 1
        &&& self.level <= self.capacity()
    }

    /// The bucket once the time up to `now` has been credited: it gains
    /// `per_second` millionths for each microsecond since the last request,
    /// up to its capacity. A clock that went back credits nothing.
    pub open spec fn refilled(self, now: int) -> BucketView {
        if now > self.last {
            let grown = self.level + self.per_second * (now - self.last);
            BucketView {
                level: if grown > self.capacity() {
                    self.capacity()
                } else {
                    grown as nat
                },
                last: now,
                ..self
            }
        } else {
            self
        }
    }

    /// Whether a request at `now` finds a whole token.
    pub open spec fn admits(self, now: int) -> bool {
        self.refilled(now).level >= 1_000_000
    }

    /// The bucket after a request at `now`: refilled, and one token the
    /// poorer where the request was admitted.
    pub open spec fn after(self, now: int) -> BucketView {
        let filled = self.refilled(now);
        if filled.level >= 1_000_000 {
            BucketView { level: (filled.level - 1_000_000) as nat, ..filled }
        } else {
            filled
        }
    }

    /// The bucket after `n` requests that all came at `now`.
    pub open spec fn drained(self, now: int, n: nat) -> BucketView
        decreases n,
    {
        if n == 0 {
            self
        } else {
            self.drained(now, (n - 1) as nat).after(now)
        }
    }

    /// Whether `n` requests that all come at `now` are admitted, each of them.
    pub open spec fn admits_in_a_row(self, now: int, n: nat) -> bool
        decreases n,
    {
        n == 0 || (self.admits_in_a_row(now, (n - 1) as nat) && self.drained(
            now,
            (n - 1) as nat,
        ).admits(now))
    }
}

/// A token bucket shared by all requests. Taking a token needs exclusive
/// access, so two requests can never spend the same one.
#[derive(Clone, Debug, PartialEq, Eq)]
pub struct TokenBucket {
    per_second: u32,
    burst_size: u32,
    level: u64,
    last: i64,
}

impl View for TokenBucket {
    type V = BucketView;

    closed spec fn view(&self) -> BucketView {
        BucketView {
            per_second: self.per_second as nat,
            burst_size: self.burst_size as nat,
            level: self.level as nat,
            last: self.last as int,
        }
    }
}

impl TokenBucket {
    /// A full bucket that gains `per_second` tokens a second and holds
    /// `burst_size` at most, as of `now`. There is no bucket with a setting
    /// of zero.
    pub fn new(per_second: u32, burst_size: u32, now: i64) -> (bucket: Option<TokenBucket>)
        ensures
            bucket is Some <==> per_second >= 1 && burst_size >= 1,
            bucket matches Some(made) ==> made@.wf() && made@ == (BucketView {
                per_second: per_second as nat,
                burst_size: burst_size as nat,
                level: burst_size as nat * 1_000_000,
                last: now as int,
            }),
    {
        if per_second == 0 || burst_size == 0 {
            return None;
        }
        let level: u64 = burst_size as u64 * TOKEN;
        Some(TokenBucket { per_second, burst_size, level, last: now })
    }

    /// Takes a token for a request at `now`, where there is one.
    pub fn try_acquire_at(&mut self, now: i64) -> (admitted: bool)
        requires
            old(self)@.wf(),
        ensures
            final(self)@.wf(),
            admitted == old(self)@.admits(now as int),
            final(self)@ == old(self)@.after(now as int),
    {
        let capacity: u64 = self.burst_size as u64 * TOKEN;
        let mut level: u64 = self.level;
        if now > self.last {
            let elapsed: u128 = (now as i128 - self.last as i128) as u128;
            let rate: u128 = self.per_second as u128;
            assert(rate * elapsed <= 0x1_0000_0000 * 0x1_0000_0000_0000_0000) by (nonlinear_arith)
                requires
                    rate <= 0x1_0000_0000,
                    elapsed <= 0x1_0000_0000_0000_0000,
            ;
            let grown: u128 = level as u128 + rate * elapsed;
            level = if grown > capacity as u128 {
                capacity
            } else {
                grown as u64
            };
            self.last = now;
        }
        if level >= TOKEN {
            self.level = level - TOKEN;
            true
        } else {
            self.level = level;
            false
        }
    }

    /// Takes a token for a request that comes now, by the system's clock.
    /// Whatever the clock says, the bucket stays well-formed and keeps its
    /// settings, and a request that is turned down takes nothing from it
    /// beyond the refill.
    pub fn try_acquire(&mut self) -> (admitted: bool)
        requires
            old(self)@.wf(),
        ensures
            final(self)@.wf(),
            final(self)@.per_second == old(self)@.per_second,
            final(self)@.burst_size == old(self)@.burst_size,
            final(self)@.last >= old(self)@.last,
            admitted == old(self)@.admits(final(self)@.last),
            final(self)@ == old(self)@.after(final(self)@.last),
    {
        let now = utc_now_micros();
        let ghost before = self@;
        let admitted = self.try_acquire_at(now);
        proof {
            if now as int <= before.last {
                assert(before.refilled(now as int) == before.refilled(before.last));
            }
        }
        admitted
    }
}

/// After a request at `now` the time up to `now` is spent: refilling again
/// at that instant, or at an earlier one, adds nothing.
pub proof fn refill_is_spent(bucket: BucketView, now: int, again: int)
    requires
        bucket.wf(),
        again <= now,
    ensures
        bucket.after(now).wf(),
        bucket.after(now).refilled(again) == bucket.after(now),
        bucket.after(now).last >= now,
        bucket.after(now).per_second == bucket.per_second,
        bucket.after(now).burst_size == bucket.burst_size,
{
}

/// How many requests an instant admits: of requests that all come at `now`,
/// the first `n` are admitted exactly where the refilled bucket holds `n`
/// whole tokens, and each of them takes one. So a full bucket admits a burst
/// of `burst_size` and turns the next request down, and an empty one admits,
/// a second later, `per_second` of them, or `burst_size` if that is less.
pub proof fn instant_admissions(bucket: BucketView, now: int, n: nat)
    requires
        bucket.wf(),
    ensures
        bucket.drained(now, n).wf(),
        bucket.drained(now, n).per_second == bucket.per_second,
        bucket.drained(now, n).burst_size == bucket.burst_size,
        bucket.admits_in_a_row(now, n) <==> n * 1_000_000 <= bucket.refilled(now).level,
        bucket.admits_in_a_row(now, n) ==> bucket.drained(now, n).refilled(now).level
            == bucket.refilled(now).level - n * 1_000_000,
    decreases n,
{
    if n > 0 {
        let fewer = (n - 1) as nat;
        instant_admissions(bucket, now, fewer);
        refill_is_spent(bucket.drained(now, fewer), now, now);
    }
}

/// A full bucket admits one burst: of requests that all come at `now`, the
/// first `burst_size` are admitted and the next one is turned down.
pub proof fn full_bucket_admits_one_burst(bucket: BucketView, now: int)
    requires
        bucket.wf(),
        bucket.level == bucket.capacity(),
    ensures
        bucket.admits_in_a_row(now, bucket.burst_size),
        !bucket.admits_in_a_row(now, bucket.burst_size + 1),
        bucket.drained(now, bucket.burst_size).refilled(now).level == 0,
{
    instant_admissions(bucket, now, bucket.burst_size);
    instant_admissions(bucket, now, bucket.burst_size + 1);
}

/// A second refills the rate: an empty bucket that is left alone for one
/// second admits `per_second` requests at once and turns the next one down,
/// where its burst size allows that many.
pub proof fn a_second_refills_the_rate(bucket: BucketView)
    requires
        bucket.wf(),
        bucket.level == 0,
        bucket.per_second <= bucket.burst_size,
    ensures
        bucket.admits_in_a_row(bucket.last + 1_000_000, bucket.per_second),
        !bucket.admits_in_a_row(bucket.last + 1_000_000, bucket.per_second + 1),
{
    let now = bucket.last + 1_000_000;
    instant_admissions(bucket, now, bucket.per_second);
    instant_admissions(bucket, now, bucket.per_second + 1);
}

impl BucketView {
    /// The bucket after one request at each of `times`, in that order.
    pub open spec fn after_all(self, times: Seq<int>) -> BucketView
        decreases times.len(),
    {
        if times.len() == 0 {
            self
        } else {
            self.after_all(times.drop_last()).after(times.last())
        }
    }

    /// How many of the requests at `times`, taken in that order, are admitted.
    pub open spec fn admitted_count(self, times: Seq<int>) -> nat
        decreases times.len(),
    {
        if times.len() == 0 {
            0
        } else {
            let earlier = self.admitted_count(times.drop_last());
            if self.after_all(times.drop_last()).admits(times.last()) {
                earlier + 1
            } else {
                earlier
            }
        }
    }
}

/// The limiter bounds the throughput: however many requests come and
/// whenever they come, those admitted up to a time `until` number no more
/// than the tokens the bucket held plus the tokens it gained up to `until`,
/// which is at most the burst size plus `per_second` for each second.
pub proof fn throughput_is_bounded(bucket: BucketView, times: Seq<int>, until: int)
    requires
        bucket.wf(),
        bucket.last <= until,
        forall|i: int| 0 <= i < times.len() ==> times[i] <= until,
    ensures
        bucket.after_all(times).wf(),
        bucket.after_all(times).per_second == bucket.per_second,
        bucket.after_all(times).burst_size == bucket.burst_size,
        bucket.last <= bucket.after_all(times).last <= until,
        bucket.admitted_count(times) * 1_000_000 + bucket.after_all(times).level
            + bucket.per_second * (until - bucket.after_all(times).last) <= bucket.level
            + bucket.per_second * (until - bucket.last),
        bucket.admitted_count(times) * 1_000_000 <= bucket.burst_size * 1_000_000
            + bucket.per_second * (until - bucket.last),
    decreases times.len(),
{
    let rate = bucket.per_second as int;
    if times.len() > 0 {
        let earlier = times.drop_last();
        throughput_is_bounded(bucket, earlier, until);
        let before = bucket.after_all(earlier);
        let now = times.last();
        let after = before.after(now);
        assert(rate * (now - before.last) + rate * (until - now) == rate * (until - before.last))
            by (nonlinear_arith);
        if now > before.last {
            assert(after.last == now);
            assert(before.refilled(now).level <= before.level + rate * (now - before.last));
        }
    }
    assert(bucket.per_second * (until - bucket.after_all(times).last) >= 0) by (nonlinear_arith)
        requires
            bucket.after_all(times).last <= until,
    ;
}

} // verus!
