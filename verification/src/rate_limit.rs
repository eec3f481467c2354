//! Admission control: a bounded number of requests in each window of sixty
//! seconds. The limiter decides; whoever drives it supplies the time and
//! sleeps until the deadline it is given.

use vstd::prelude::*;

use crate::client::ClientExecutor;
use crate::request::RequestBuilder;

verus! {

/// The length of a window, in milliseconds.
pub const WINDOW_MILLIS: u64 = 60000;

/// The window a limiter is in.
#[derive(Copy, Clone, Debug, PartialEq, Eq, Structural)]
pub enum Window {
    /// No request is admitted before the timer has run out.
    Limited,
    /// Requests are admitted while more than one is left; the window ends
    /// at `until`.
    Ready { until: u64, rem: usize },
}

/// The answer to an admission attempt.
#[derive(Copy, Clone, Debug, PartialEq, Eq, Structural)]
pub enum Admission {
    /// The request may go out now.
    Admitted,
    /// The request has to wait: try again at `until`.
    Suspended { until: u64 },
}

/// Everything a limiter holds.
pub struct Limiter {
    /// How many slots a fresh window has.
    pub limit: usize,
    pub window: Window,
    /// The deadline the timer is set to.
    pub timer: u64,
}

/// One admission attempt at the time `now`: the limiter afterwards and the
/// answer.
///
/// A `Ready` window that has ended is replaced by a fresh one first. Then a
/// window with more than one slot left gives one away; any other window
/// sets the timer to its end and turns `Limited`. A `Limited` limiter stays
/// so until the timer has run out, and then opens a fresh window of which
/// this admission takes the first slot. One slot of each window is thus
/// never given away.
pub open spec fn attempt(before: Limiter, now: u64) -> (Limiter, Admission) {
    match before.window {
        Window::Ready { until, rem } => {
            let fresh = now >= until;
            let until = if fresh {
                (now + WINDOW_MILLIS) as u64
            } else {
                until
            };
            let rem = if fresh {
                before.limit
            } else {
                rem
            };
            if rem > 1 {
                (
                    Limiter {
                        window: Window::Ready { until, rem: (rem - 1) as usize },
                        ..before
                    },
                    Admission::Admitted,
                )
            } else {
                (
                    Limiter { window: Window::Limited, timer: until, ..before },
                    Admission::Suspended { until },
                )
            }
        },
        Window::Limited => if now < before.timer {
            (before, Admission::Suspended { until: before.timer })
        } else {
            (
                Limiter {
                    window: Window::Ready {
                        until: (now + WINDOW_MILLIS) as u64,
                        rem: (before.limit - 1) as usize,
                    },
                    ..before
                },
                Admission::Admitted,
            )
        },
    }
}

/// Bounds the requests of each window of sixty seconds.
#[derive(Debug)]
pub struct RateLimiter {
    limit: usize,
    window: Window,
    timer: u64,
}

impl View for RateLimiter {
    type V = Limiter;

    closed spec fn view(&self) -> Limiter {
        Limiter { limit: self.limit, window: self.window, timer: self.timer }
    }
}

impl RateLimiter {
    #[verifier::type_invariant]
    spec fn well_formed(&self) -> bool {
        self.limit >= 1
    }

    /// A limiter of `limit` slots per window, created at the time `now`.
    /// Its first window has ended already, so the first attempt opens one.
    pub fn new(limit: usize, now: u64) -> (r: Self)
        requires
            limit >= 1,
        ensures
            r@ == (Limiter { limit, window: Window::Ready { until: now, rem: limit }, timer: now }),
    {
        Self { limit, window: Window::Ready { until: now, rem: limit }, timer: now }
    }

    /// Changes the limit. The window that is open keeps its slots: the new
    /// limit counts from the next window on.
    pub fn change(&mut self, limit: usize)
        requires
            limit >= 1,
        ensures
            final(self)@ == (Limiter { limit, ..old(self)@ }),
    {
        self.limit = limit;
    }

    /// The slots a fresh window has.
    pub fn limit(&self) -> (r: usize)
        ensures
            r == self@.limit,
            r >= 1,
    {
        proof {
            use_type_invariant(self);
        }
        self.limit
    }

    /// The window the limiter is in.
    pub fn window(&self) -> (r: Window)
        ensures
            r == self@.window,
    {
        self.window
    }

    /// One admission attempt at the time `now`, in milliseconds on the
    /// clock the limiter was created with.
    pub fn poll_ready(&mut self, now: u64) -> (r: Admission)
        requires
            now <= u64::MAX - WINDOW_MILLIS,
        ensures
            (final(self)@, r) == attempt(old(self)@, now),
    {
        proof {
            use_type_invariant(&*self);
        }
        match self.window {
            Window::Ready { until, rem } => {
                let mut until = until;
                let mut rem = rem;
                if now >= until {
                    until = now + WINDOW_MILLIS;
                    rem = self.limit;
                }
                if rem > 1 {
                    self.window = Window::Ready { until, rem: rem - 1 };
                    Admission::Admitted
                } else {
                    self.timer = until;
                    self.window = Window::Limited;
                    Admission::Suspended { until }
                }
            },
            Window::Limited => {
                if now < self.timer {
                    return Admission::Suspended { until: self.timer };
                }
                self.window = Window::Ready { until: now + WINDOW_MILLIS, rem: self.limit - 1 };
                Admission::Admitted
            },
        }
    }
}

/// What became of a request that had to pass the limiter.
pub enum Gated<R> {
    /// The request was admitted and handed to the client.
    Sent(R),
    /// The request was not admitted: it comes back, to be tried again at
    /// `until`.
    Held { until: u64, request: RequestBuilder },
}

/// Sends `request` through `client` if `limiter` admits it at the time
/// `now`, and hands it back with the time to wait for if not. The attempt
/// counts against the limiter either way.
pub fn send_when_ready<T, C: ClientExecutor<T>>(
    client: &C,
    limiter: &mut RateLimiter,
    now: u64,
    request: RequestBuilder,
) -> (r: Gated<C::Result>)
    requires
        now <= u64::MAX - WINDOW_MILLIS,
    ensures
        final(limiter)@ == attempt(old(limiter)@, now).0,
        match attempt(old(limiter)@, now).1 {
            Admission::Admitted => r matches Gated::Sent(result) && client.answers(request@, result),
            Admission::Suspended { until } => r == (Gated::<C::Result>::Held { until, request }),
        },
{
    match limiter.poll_ready(now) {
        Admission::Admitted => Gated::Sent(client.send(request)),
        Admission::Suspended { until } => Gated::Held { until, request },
    }
}

/// The time before which a limiter opens no fresh window.
pub open spec fn deadline(limiter: Limiter) -> u64 {
    match limiter.window {
        Window::Ready { until, .. } => until,
        Window::Limited => limiter.timer,
    }
}

/// The admissions a limiter can still grant before it opens a fresh window:
/// all slots of the open window but one.
pub open spec fn budget(limiter: Limiter) -> nat {
    match limiter.window {
        Window::Ready { rem, .. } => if rem > 1 {
            (rem - 1) as nat
        } else {
            0
        },
        Window::Limited => 0,
    }
}

/// The limiter after the attempts at `times`, one after the other.
pub open spec fn after_attempts(limiter: Limiter, times: Seq<u64>) -> Limiter
    decreases times.len(),
{
    if times.len() == 0 {
        limiter
    } else {
        attempt(after_attempts(limiter, times.drop_last()), times.last()).0
    }
}

/// How many of the attempts at `times` are admitted.
pub open spec fn admitted(limiter: Limiter, times: Seq<u64>) -> nat
    decreases times.len(),
{
    if times.len() == 0 {
        0
    } else {
        let earlier = admitted(limiter, times.drop_last());
        if attempt(after_attempts(limiter, times.drop_last()), times.last()).1
            == Admission::Admitted {
            earlier + 1
        } else {
            earlier
        }
    }
}

/// Within one window a limiter never admits more than its budget, however
/// often it is asked: each admission takes a slot, and once a single slot
/// is left every attempt before the window's end is suspended.
pub proof fn lemma_no_over_admission(limiter: Limiter, times: Seq<u64>)
    requires
        forall|i: int| 0 <= i < times.len() ==> times[i] < deadline(limiter),
    ensures
        admitted(limiter, times) + budget(after_attempts(limiter, times)) == budget(limiter),
        admitted(limiter, times) <= budget(limiter),
        deadline(after_attempts(limiter, times)) == deadline(limiter),
        after_attempts(limiter, times).limit == limiter.limit,
    decreases times.len(),
{
    if times.len() > 0 {
        let earlier = times.drop_last();
        assert forall|i: int| 0 <= i < earlier.len() implies earlier[i] < deadline(limiter) by {
            assert(earlier[i] == times[i]);
        }
        lemma_no_over_admission(limiter, earlier);
        assert(times.last() == times[times.len() - 1]);
    }
}

/// An attempt at or after the end of the window opens a fresh window that
/// ends sixty seconds later and is counted from the limit then in force.
pub proof fn lemma_rollover(limiter: Limiter, now: u64)
    requires
        limiter.limit >= 1,
        now >= deadline(limiter),
        now <= u64::MAX - WINDOW_MILLIS,
    ensures
        limiter.window is Limited || limiter.limit > 1 ==> {
            &&& attempt(limiter, now).1 == Admission::Admitted
            &&& attempt(limiter, now).0.window == (Window::Ready {
                until: (now + WINDOW_MILLIS) as u64,
                rem: (limiter.limit - 1) as usize,
            })
        },
        limiter.window is Ready && limiter.limit == 1 ==> {
            &&& attempt(limiter, now).1 == (Admission::Suspended {
                until: (now + WINDOW_MILLIS) as u64,
            })
            &&& attempt(limiter, now).0.window == Window::Limited
        },
{
}

} // verus!
