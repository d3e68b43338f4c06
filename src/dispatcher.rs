use vstd::prelude::*;

use crate::backoff::{backoff_delay, backoff_spec};
use crate::check::elapsed;

verus! {

/// Where the delivery of one event to one channel stands.
#[derive(Clone, Copy, Debug, PartialEq, Eq, Structural)]
pub enum Delivery {
    /// Not delivered yet, after this many failed attempts.
    Waiting(u32),
    Delivered,
    /// The attempts ran out.
    GaveUp,
}

/// One channel's delivery after an attempt that succeeded when `ok`, with at
/// most `max_attempts` attempts per channel.
pub open spec fn delivery_step(d: Delivery, ok: bool, max_attempts: u32) -> Delivery {
    match d {
        Delivery::Waiting(a) => if ok {
            Delivery::Delivered
        } else if a + 1 >= max_attempts {
            Delivery::GaveUp
        } else {
            Delivery::Waiting((a + 1) as u32)
        },
        _ => d,
    }
}

/// All channels after one round of attempts with the given results.
pub open spec fn round_spec(ch: Seq<Delivery>, results: Seq<bool>, max_attempts: u32) -> Seq<
    Delivery,
> {
    Seq::new(ch.len(), |i: int| delivery_step(ch[i], results[i], max_attempts))
}

/// The delivery of one event to every configured channel. Each channel has
/// its own attempts, so a failing channel never holds back another.
pub struct FanOut {
    pub channels: Vec<Delivery>,
}

impl FanOut {
    /// A delivery to `n` channels, none attempted yet.
    pub fn new(n: usize) -> (r: FanOut)
        ensures
            r.channels@ == Seq::new(n as nat, |i: int| Delivery::Waiting(0)),
    {
        let mut channels: Vec<Delivery> = Vec::new();
        let mut i: usize = 0;
        while i < n
            invariant
                i <= n,
                channels@ == Seq::new(i as nat, |j: int| Delivery::Waiting(0)),
            decreases n - i,
        {
            channels.push(Delivery::Waiting(0));
            i = i + 1;
            assert(channels@ =~= Seq::new(i as nat, |j: int| Delivery::Waiting(0)));
        }
        FanOut { channels }
    }

    /// Records the result of an attempt on channel `i`; other channels, and
    /// an index out of range, are left alone.
    pub fn record(&mut self, i: usize, ok: bool, max_attempts: u32)
        ensures
            i < old(self).channels.len() ==> final(self).channels@ == old(self).channels@.update(
                i as int,
                delivery_step(old(self).channels@[i as int], ok, max_attempts),
            ),
            i >= old(self).channels.len() ==> final(self).channels@ == old(self).channels@,
    {
        if i < self.channels.len() {
            let d = match self.channels[i] {
                Delivery::Waiting(a) => if ok {
                    Delivery::Delivered
                } else if a >= max_attempts || max_attempts - a <= 1 {
                    Delivery::GaveUp
                } else {
                    Delivery::Waiting(a + 1)
                },
                other => other,
            };
            self.channels.set(i, d);
        }
    }

    /// Records one round of attempts, `results[i]` telling whether channel
    /// `i` took the message.
    pub fn record_round(&mut self, results: &Vec<bool>, max_attempts: u32)
        requires
            results.len() == old(self).channels.len(),
        ensures
            final(self).channels@ == round_spec(old(self).channels@, results@, max_attempts),
    {
        let ghost start = self.channels@;
        let mut i: usize = 0;
        while i < results.len()
            invariant
                i <= results.len(),
                results.len() == start.len(),
                self.channels@.len() == start.len(),
                forall|j: int| 0 <= j < i ==> self.channels@[j] == delivery_step(start[j], results@[j], max_attempts),
                forall|j: int| i <= j < start.len() ==> self.channels@[j] == start[j],
            decreases results.len() - i,
        {
            self.record(i, results[i], max_attempts);
            i = i + 1;
        }
        assert(self.channels@ =~= round_spec(start, results@, max_attempts));
    }

    /// The channels that still need an attempt.
    pub fn waiting(&self) -> (r: Vec<usize>)
        ensures
            forall|j: int| 0 <= j < r.len() ==> r@[j] < self.channels.len() && self.channels@[r@[j] as int] is Waiting,
            forall|i: int| 0 <= i < self.channels.len() && (#[trigger] self.channels@[i]) is Waiting ==> r@.contains(i as usize),
    {
        let mut r: Vec<usize> = Vec::new();
        let mut i: usize = 0;
        while i < self.channels.len()
            invariant
                i <= self.channels.len(),
                forall|j: int| 0 <= j < r.len() ==> r@[j] < self.channels.len() && self.channels@[r@[j] as int] is Waiting,
                forall|k: int| 0 <= k < i && (#[trigger] self.channels@[k]) is Waiting ==> r@.contains(k as usize),
            decreases self.channels.len() - i,
        {
            let ghost before = r@;
            if let Delivery::Waiting(_) = self.channels[i] {
                r.push(i);
                assert(r@[r.len() - 1] == i);
                assert forall|k: int| 0 <= k < i && (#[trigger] self.channels@[k]) is Waiting implies r@.contains(k as usize) by {
                    let j = choose|j: int| 0 <= j < before.len() && before[j] == k as usize;
                    assert(r@[j] == before[j]);
                }
            }
            i = i + 1;
        }
        r
    }

    /// Whether every channel has either taken the message or given up.
    pub fn is_settled(&self) -> (r: bool)
        ensures
            r == forall|i: int| 0 <= i < self.channels.len() ==> !(#[trigger] self.channels@[i] is Waiting),
    {
        let mut i: usize = 0;
        while i < self.channels.len()
            invariant
                i <= self.channels.len(),
                forall|k: int| 0 <= k < i ==> !(#[trigger] self.channels@[k] is Waiting),
            decreases self.channels.len() - i,
        {
            if let Delivery::Waiting(_) = self.channels[i] {
                return false;
            }
            i = i + 1;
        }
        true
    }

    /// The delay before the next attempt on channel `i`, if it is waiting:
    /// exponential in the attempts it has failed.
    pub fn retry_delay(&self, i: usize, base: u64, cap: u64) -> (r: Option<u64>)
        ensures
            match r {
                Some(d) => i < self.channels.len() && (match self.channels@[i as int] {
                    Delivery::Waiting(a) => d == backoff_spec(base, a, cap),
                    _ => false,
                }),
                None => i >= self.channels.len() || !(self.channels@[i as int] is Waiting),
            },
    {
        if i < self.channels.len() {
            match self.channels[i] {
                Delivery::Waiting(a) => Some(backoff_delay(base, a, cap)),
                _ => None,
            }
        } else {
            None
        }
    }
}

/// Isolation of channels: in any round, each channel that took the message
/// is delivered, whatever the other channels did; and each channel's new
/// state depends on its own result alone.
pub proof fn lemma_channel_failure_isolated(
    ch: Seq<Delivery>,
    results: Seq<bool>,
    other: Seq<bool>,
    max_attempts: u32,
)
    requires
        results.len() == ch.len(),
        other.len() == ch.len(),
    ensures
        forall|j: int|
            0 <= j < ch.len() && results[j] && ch[j] is Waiting ==> #[trigger] round_spec(
                ch,
                results,
                max_attempts,
            )[j] == Delivery::Delivered,
        forall|j: int|
            0 <= j < ch.len() && results[j] == other[j] ==> #[trigger] round_spec(
                ch,
                results,
                max_attempts,
            )[j] == round_spec(ch, other, max_attempts)[j],
{
}

/// A global limit of `limit` notifications per window of `window` seconds.
#[derive(Clone, Copy, Debug, PartialEq, Eq, Structural)]
pub struct RateLimiter {
    pub window: u64,
    pub limit: u64,
    pub window_start: u64,
    pub sent: u64,
}

impl RateLimiter {
    pub open spec fn wf(&self) -> bool {
        self.sent <= self.limit
    }

    /// A limiter whose first window opens at `now`.
    pub fn new(window: u64, limit: u64, now: u64) -> (r: RateLimiter)
        ensures
            r.wf(),
            r == (RateLimiter { window, limit, window_start: now, sent: 0 }),
    {
        RateLimiter { window, limit, window_start: now, sent: 0 }
    }

    /// Takes a slot for a notification at `now` if the window has one; a new
    /// window opens once the current one has run its length.
    pub fn try_acquire(&mut self, now: u64) -> (r: bool)
        requires
            old(self).wf(),
        ensures
            final(self).wf(),
            final(self).window == old(self).window,
            final(self).limit == old(self).limit,
            ({
                let fresh = elapsed(now, old(self).window_start) >= old(self).window;
                let used: int = if fresh {
                    0
                } else {
                    old(self).sent as int
                };
                &&& final(self).window_start == (if fresh {
                    now
                } else {
                    old(self).window_start
                })
                &&& r == (used < old(self).limit)
                &&& final(self).sent == (if r {
                    used + 1
                } else {
                    used
                })
            }),
    {
        let since = if now > self.window_start {
            now - self.window_start
        } else {
            0
        };
        if since >= self.window {
            self.window_start = now;
            self.sent = 0;
        }
        if self.sent < self.limit {
            self.sent = self.sent + 1;
            true
        } else {
            false
        }
    }
}

} // verus!
