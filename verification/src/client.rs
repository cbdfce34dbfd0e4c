//! The connection-attempt state machine.
//!
//! A [`Client`] owns a target address, one [`Backoff`] strategy and the
//! bookkeeping of the current failure streak. The caller drives one attempt
//! at a time: it asks [`Client::wait_before_attempt`] how long to pause,
//! pauses, tries to open the transport to [`Client::addr`], and then reports
//! the outcome through [`Client::on_success`] or [`Client::on_failure`]. The
//! bookkeeping changes only in those two outcome calls, exactly once per
//! attempt, so an attempt abandoned while pausing or connecting leaves the
//! client untouched.
//!
//! All times are whole milliseconds of one monotone clock, read by the caller
//! and handed in as plain values.

use core::marker::PhantomData;

use vstd::prelude::*;

use crate::backoff::{Backoff, DefaultBackoff};
use crate::framing::Framing;

verus! {

/// The failure record returned by a failed connection attempt.
pub struct AttemptError<F: Framing> {
    /// How long after this failure the next attempt will start at the
    /// soonest, in milliseconds.
    pub next_attempt_in: u64,
    /// Failed attempts, including this one, since the connection broke.
    pub retries: u32,
    /// When the streak's first attempt started (a monotone-clock reading in
    /// milliseconds); subtracting it from the clock's current reading gives
    /// how long the outage has lasted.
    pub start_time: u64,
    /// The underlying connect error.
    pub error: F::Error,
}

impl<F: Framing> AttemptError<F> {
    /// Bundle one failure's snapshot.
    fn new(next_attempt_in: u64, retries: u32, start_time: u64, error: F::Error) -> (r: Self)
        ensures
            r == (AttemptError::<F> { next_attempt_in, retries, start_time, error }),
    {
        Self { next_attempt_in, retries, start_time, error }
    }
}

/// The mathematical state of a [`Client`]: its target address, its backoff
/// strategy, and the failure-streak bookkeeping.
pub struct ClientView<B> {
    /// The target address.
    pub addr: Seq<char>,
    /// The backoff strategy's state.
    pub backoff: B,
    /// After a failure: the clock reading at that failure and the delay the
    /// strategy asked for, which together fix the next attempt's earliest
    /// start. `None` while no failure is pending.
    pub pending: Option<(u64, u64)>,
    /// Failed attempts since the connection broke.
    pub retries: nat,
    /// The clock reading at the streak's first attempt; `None` outside a
    /// streak.
    pub start_time: Option<u64>,
}

/// The streak bookkeeping is all-or-nothing: right after a success (and at
/// creation) no delay is pending, the retry count is zero and no streak start
/// is recorded; from the first failure on, all three are populated together.
pub open spec fn view_wf<B: Backoff>(v: ClientView<B>) -> bool {
    &&& v.backoff.inv()
    &&& (v.retries == 0 <==> v.start_time is None)
    &&& (v.retries == 0 <==> v.pending is None)
}

/// The bookkeeping of one failed attempt that started at `started` and failed
/// at `now` (both clock readings): the strategy advances and its delay is
/// recorded against `now`, the retry count grows by one, and the streak keeps
/// its start time — or, on the streak's first failure, adopts `started`.
pub open spec fn fail_step<B: Backoff>(v: ClientView<B>, started: u64, now: u64) -> ClientView<B> {
    ClientView {
        addr: v.addr,
        backoff: v.backoff.advanced(),
        pending: Some((now, v.backoff.next_delay())),
        retries: v.retries + 1,
        start_time: Some(
            match v.start_time {
                Some(t) => t,
                None => started,
            },
        ),
    }
}

/// The bookkeeping of a successful attempt: the strategy is reset and the
/// whole streak record is cleared.
pub open spec fn success_step<B: Backoff>(v: ClientView<B>) -> ClientView<B> {
    ClientView {
        addr: v.addr,
        backoff: v.backoff.initial(),
        pending: None,
        retries: 0,
        start_time: None,
    }
}

/// How long an attempt starting at clock reading `now` must still pause: the
/// part of the pending delay that has not yet elapsed since the last failure,
/// and nothing when no failure is pending.
pub open spec fn wait_time<B>(v: ClientView<B>, now: u64) -> u64 {
    match v.pending {
        Some((when, delay)) => {
            let elapsed = if now >= when {
                now - when
            } else {
                0
            };
            if elapsed < delay {
                (delay - elapsed) as u64
            } else {
                0
            }
        },
        None => 0,
    }
}

/// Drives repeated connection attempts to one target address, consulting one
/// swappable [`Backoff`] strategy, for the dialect `F`.
///
/// The client performs no I/O itself: the caller owns the clock, the pause
/// and the transport, and reports each attempt's outcome. One caller at a
/// time drives one client.
#[derive(Debug)]
pub struct Client<F: Framing, B: Backoff> {
    /// Target address to connect to.
    addr: String,
    /// The swappable backoff strategy.
    backoff: B,
    /// Clock reading of the last failure and the delay then asked for.
    next_delay: Option<(u64, u64)>,
    /// Failed attempts since the connection broke.
    retries: u32,
    /// Clock reading of the streak's first attempt.
    start_time: Option<u64>,
    _framing: PhantomData<F>,
}

impl<F: Framing, B: Backoff> View for Client<F, B> {
    type V = ClientView<B>;

    closed spec fn view(&self) -> ClientView<B> {
        ClientView {
            addr: self.addr@,
            backoff: self.backoff,
            pending: self.next_delay,
            retries: self.retries as nat,
            start_time: self.start_time,
        }
    }
}

impl<F: Framing> Client<F, DefaultBackoff> {
    /// A client that will connect to `addr` with the default backoff
    /// strategy.
    pub fn new(addr: String) -> (r: Self)
        ensures
            r.wf(),
            r@ == (ClientView {
                addr: addr@,
                backoff: DefaultBackoff {
                    current: 1,
                    prev: 0,
                    unit: crate::DEFAULT_BACKOFF_UNIT_MS,
                    max: crate::DEFAULT_BACKOFF_MAX_MS,
                },
                pending: None,
                retries: 0 as nat,
                start_time: None,
            }),
    {
        Self::with_backoff(addr, DefaultBackoff::default())
    }
}

impl<F: Framing, B: Backoff> Client<F, B> {
    /// Well-formedness: the streak bookkeeping is all-or-nothing and the
    /// strategy's own invariant holds.
    pub open spec fn wf(&self) -> bool {
        view_wf(self@)
    }

    /// A client that will connect to `addr` with the supplied backoff
    /// strategy.
    pub fn with_backoff(addr: String, backoff: B) -> (r: Self)
        requires
            backoff.inv(),
        ensures
            r.wf(),
            r@ == (ClientView {
                addr: addr@,
                backoff,
                pending: None,
                retries: 0 as nat,
                start_time: None,
            }),
    {
        Client {
            addr,
            backoff,
            next_delay: None,
            retries: 0,
            start_time: None,
            _framing: PhantomData,
        }
    }

    /// The target address of the next attempt.
    pub fn addr(&self) -> (r: &String)
        ensures
            r@ == self@.addr,
    {
        &self.addr
    }

    /// Failed attempts since the connection broke; zero outside a streak.
    pub fn retries(&self) -> (r: u32)
        ensures
            r == self@.retries,
    {
        self.retries
    }

    /// Replace the target address. Takes effect with the next attempt; the
    /// streak bookkeeping and the strategy are untouched.
    pub fn set_addr(&mut self, addr: String)
        requires
            old(self).wf(),
        ensures
            final(self).wf(),
            final(self)@ == (ClientView { addr: addr@, ..old(self)@ }),
    {
        self.addr = addr;
    }

    /// Replace the backoff strategy. Takes effect with the next attempt; the
    /// streak bookkeeping and the address are untouched.
    pub fn set_backoff(&mut self, backoff: B)
        requires
            old(self).wf(),
            backoff.inv(),
        ensures
            final(self).wf(),
            final(self)@ == (ClientView { backoff, ..old(self)@ }),
    {
        self.backoff = backoff;
    }

    /// How long the attempt starting at clock reading `now` must still pause
    /// before opening the transport. Reads the state; changes nothing, so an
    /// attempt abandoned during the pause leaves no trace.
    pub fn wait_before_attempt(&self, now: u64) -> (r: u64)
        requires
            self.wf(),
        ensures
            r == wait_time(self@, now),
    {
        match self.next_delay {
            Some((when, delay)) => {
                let elapsed = if now >= when {
                    now - when
                } else {
                    0
                };
                if elapsed < delay {
                    delay - elapsed
                } else {
                    0
                }
            },
            None => 0,
        }
    }

    /// Record a successful attempt: reset the strategy and clear the whole
    /// streak record.
    pub fn on_success(&mut self)
        requires
            old(self).wf(),
        ensures
            final(self).wf(),
            final(self)@ == success_step(old(self)@),
    {
        self.backoff.reset();
        self.retries = 0;
        self.start_time = None;
        self.next_delay = None;
    }

    /// Record a failed attempt that started at clock reading `started` and
    /// failed at `now`: advance the bookkeeping by one [`fail_step`] and
    /// return the failure's snapshot.
    pub fn on_failure(&mut self, started: u64, now: u64, error: F::Error) -> (r: AttemptError<F>)
        requires
            old(self).wf(),
            old(self)@.retries < u32::MAX,
        ensures
            final(self).wf(),
            final(self)@ == fail_step(old(self)@, started, now),
            r.next_attempt_in == old(self)@.backoff.next_delay(),
            r.next_attempt_in <= old(self)@.backoff.cap(),
            r.retries == final(self)@.retries,
            Some(r.start_time) == final(self)@.start_time,
            r.error == error,
    {
        let delay = self.backoff.next();
        self.next_delay = Some((now, delay));
        self.retries = self.retries + 1;
        let start_time = match self.start_time {
            Some(t) => t,
            None => {
                self.start_time = Some(started);
                started
            },
        };
        AttemptError::new(delay, self.retries, start_time, error)
    }

    /// Record one whole attempt that started at clock reading `started` and
    /// whose transport outcome — the new connection's value, or the connect
    /// error — is known at `now`: the success clears the streak and hands the
    /// value through, the failure advances the bookkeeping and is returned as
    /// its snapshot. The bookkeeping changes here and nowhere else, exactly
    /// once per attempt.
    pub fn next_attempt<T>(&mut self, started: u64, now: u64, outcome: Result<T, F::Error>) -> (r:
        Result<T, AttemptError<F>>)
        requires
            old(self).wf(),
            old(self)@.retries < u32::MAX,
        ensures
            final(self).wf(),
            outcome is Ok ==> final(self)@ == success_step(old(self)@),
            outcome matches Ok(t) ==> (r matches Ok(t2) && t2 == t),
            outcome matches Err(e) ==> {
                &&& final(self)@ == fail_step(old(self)@, started, now)
                &&& (r matches Err(ae) && ae.error == e && ae.retries == final(self)@.retries
                    && Some(ae.start_time) == final(self)@.start_time && ae.next_attempt_in
                    == old(self)@.backoff.next_delay())
            },
    {
        match outcome {
            Ok(t) => {
                self.on_success();
                Ok(t)
            },
            Err(e) => Err(self.on_failure(started, now, e)),
        }
    }
}

/// The bookkeeping after a run of consecutive failed attempts, each given as
/// its (start, failure) pair of clock readings, with no intervening success.
pub open spec fn fail_run<B: Backoff>(v: ClientView<B>, attempts: Seq<(u64, u64)>) -> ClientView<B>
    decreases attempts.len(),
{
    if attempts.len() == 0 {
        v
    } else {
        fail_run(fail_step(v, attempts[0].0, attempts[0].1), attempts.skip(1))
    }
}

/// Once a streak has a start time, further failures only count: each adds one
/// retry and none moves the start time.
pub proof fn lemma_fail_run_accumulates<B: Backoff>(v: ClientView<B>, attempts: Seq<(u64, u64)>)
    requires
        v.start_time is Some,
    ensures
        fail_run(v, attempts).retries == v.retries + attempts.len(),
        fail_run(v, attempts).start_time == v.start_time,
    decreases attempts.len(),
{
    if attempts.len() > 0 {
        lemma_fail_run_accumulates(fail_step(v, attempts[0].0, attempts[0].1), attempts.skip(1));
    }
}

/// Law: over any run of consecutive failed attempts with no intervening
/// success, starting outside a streak, the n-th failure's retry count is
/// exactly n, and every failure of the run reports the same streak start
/// time: the first attempt's own start.
pub proof fn law_streak_bookkeeping<B: Backoff>(v: ClientView<B>, attempts: Seq<(u64, u64)>)
    requires
        v.retries == 0,
        v.start_time is None,
        attempts.len() >= 1,
    ensures
        fail_run(v, attempts).retries == attempts.len(),
        fail_run(v, attempts).start_time == Some(attempts[0].0),
{
    lemma_fail_run_accumulates(fail_step(v, attempts[0].0, attempts[0].1), attempts.skip(1));
}

/// Law: after a success, the next failure starts a fresh streak: its retry
/// count is 1 and its streak start time is that attempt's own start, not the
/// prior streak's.
pub proof fn law_new_streak_after_success<B: Backoff>(v: ClientView<B>, started: u64, now: u64)
    ensures
        fail_step(success_step(v), started, now).retries == 1,
        fail_step(success_step(v), started, now).start_time == Some(started),
{
}

} // verus!
