//! Timer adapter around `async_io::Timer`.

use async_io::Timer;
use std::task::{Context, Poll};
use std::time::{Duration, Instant};
use vstd::prelude::*;

verus! {

/// `async_io::Timer`, the timer that does the waiting.
#[verifier::external_type_specification]
#[verifier::external_body]
pub struct ExTimer(async_io::Timer);

/// `std::time::Instant`, a point in time.
#[verifier::external_type_specification]
#[verifier::external_body]
pub struct ExInstant(std::time::Instant);

/// The instant at which the timer next fires, if it is set to fire at all
/// (the timer's own record of it; `None` for a timer that never fires).
pub uninterp spec fn timer_deadline(timer: Timer) -> Option<Instant>;

/// What `std::time::Instant::checked_add` returns: the instant that lies `by`
/// after `at`, or `None` where no `Instant` can stand for it.
///
/// `async_io::Timer::after` reads the clock and sets its timer by this: to
/// fire at the instant that lies `by` after the reading, and never where
/// there is no such instant.
pub uninterp spec fn instant_plus(at: Instant, by: Duration) -> Option<Instant>;

/// Calls `async_io::Timer::at`: a new timer that fires once, at `at`.
#[verifier::external_body]
fn timer_at(at: Instant) -> (timer: Timer)
    ensures
        timer_deadline(timer) == Some(at),
{
    Timer::at(at)
}

/// Calls `async_io::Timer::set_at`: the same timer, set to fire once at `at`.
#[verifier::external_body]
fn timer_set_at(timer: &mut Timer, at: Instant)
    ensures
        timer_deadline(*final(timer)) == Some(at),
{
    timer.set_at(at)
}

/// Polls the timer through its `Future` impl. A timer that is not ready keeps
/// its deadline; one that is ready was set to fire, and hands out the instant
/// it was set to.
#[verifier::external_body]
fn timer_poll(timer: &mut Timer, cx: &mut Context<'_>) -> (polled: Poll<Instant>)
    ensures
        polled is Pending ==> timer_deadline(*final(timer)) == timer_deadline(*old(timer)),
        polled matches Poll::Ready(at) ==> timer_deadline(*old(timer)) == Some(at),
{
    std::future::Future::poll(std::pin::Pin::new(timer), cx)
}

/// A sleep made by [`SmolTimer`]: it owns one timer, and is either pending or
/// has fired.
pub struct SmolSleep {
    timer: Timer,
}

impl SmolSleep {
    /// The instant this sleep waits for, if it waits for one.
    pub closed spec fn deadline(&self) -> Option<Instant> {
        timer_deadline(self.timer)
    }

    /// Ask the timer whether the deadline has passed, and drop the instant
    /// that it answers with.
    ///
    /// A sleep that is not ready keeps its deadline; only a sleep with a
    /// deadline becomes ready.
    pub fn poll(&mut self, cx: &mut Context<'_>) -> (r: Poll<()>)
        ensures
            r is Pending ==> final(self).deadline() == old(self).deadline(),
            r is Ready ==> old(self).deadline() is Some,
    {
        discard_output(timer_poll(&mut self.timer, cx))
    }
}

/// What a sleep reports for what its timer reported: ready or pending as the
/// timer was, without the timer's instant.
pub fn discard_output(polled: Poll<Instant>) -> (r: Poll<()>)
    ensures
        r is Ready <==> polled is Ready,
        r == (match polled {
            Poll::Ready(_) => Poll::Ready(()),
            Poll::Pending => Poll::Pending,
        }),
{
    match polled {
        Poll::Ready(_) => Poll::Ready(()),
        Poll::Pending => Poll::Pending,
    }
}

/// Use the timer from `async-io`.
///
/// The adapter has no state: every sleep it makes owns its own timer.
#[derive(Debug)]
pub struct SmolTimer {
    _private: (),
}

impl SmolTimer {
    /// The one value of this type.
    pub closed spec fn unit() -> Self {
        SmolTimer { _private: () }
    }

    /// Create a new `SmolTimer`.
    pub fn new() -> (t: Self)
        ensures
            t == SmolTimer::unit(),
    {
        SmolTimer { _private: () }
    }

    /// All adapters are the same adapter.
    pub proof fn lemma_stateless(a: Self, b: Self)
        ensures
            a == b,
    {
    }

    /// A sleep that becomes ready no earlier than `duration` from now.
    pub fn sleep(&self, duration: Duration) -> (s: SmolSleep)
        ensures
            due_after(s.deadline(), duration),
    {
        SmolSleep { timer: timer_after(duration) }
    }

    /// A sleep that becomes ready no earlier than `at`.
    pub fn sleep_until(&self, at: Instant) -> (s: SmolSleep)
        ensures
            s.deadline() == Some(at),
    {
        SmolSleep { timer: timer_at(at) }
    }

    /// Make a sleep wait for `new_deadline` instead.
    ///
    /// `own` is the sleep behind the caller's handle where this adapter made
    /// it, and `None` where something else did. A sleep of this adapter is
    /// kept, with its timer, and only its deadline moves. For any other handle
    /// a fresh sleep for `new_deadline` comes back, for the caller to put in
    /// the handle's place.
    pub fn reset(&self, own: Option<&mut SmolSleep>, new_deadline: Instant) -> (fresh: Option<
        SmolSleep,
    >)
        ensures
            match own {
                Some(sleep) => fresh is None && final(sleep).deadline() == Some(new_deadline),
                None => fresh matches Some(s) && s.deadline() == Some(new_deadline),
            },
    {
        match own {
            Some(sleep) => {
                timer_set_at(&mut sleep.timer, new_deadline);
                None
            },
            None => Some(self.sleep_until(new_deadline)),
        }
    }
}

impl Clone for SmolTimer {
    fn clone(&self) -> (t: Self)
        ensures
            t == *self,
    {
        SmolTimer { _private: () }
    }
}

impl Default for SmolTimer {
    fn default() -> (t: Self)
        ensures
            t == SmolTimer::unit(),
    {
        SmolTimer { _private: () }
    }
}

/// Whether `deadline` is what a wait of `duration` that starts at some
/// reading of the clock waits for: the instant that lies `duration` after the
/// reading, or nothing where that instant cannot be had.
pub open spec fn due_after(deadline: Option<Instant>, duration: Duration) -> bool {
    exists|now: Instant| deadline == #[trigger] instant_plus(now, duration)
}

/// Calls `async_io::Timer::after`, which reads the clock and makes a timer
/// that fires once, `duration` after the reading, or never where that instant
/// cannot be had. The reading itself is not known here.
#[verifier::external_body]
fn timer_after(duration: Duration) -> (timer: Timer)
    ensures
        exists|now: Instant| timer_deadline(timer) == #[trigger] instant_plus(now, duration),
{
    Timer::after(duration)
}

} // verus!
