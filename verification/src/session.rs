//! The per-session loop logic.
//!
//! A [`Session`] owns one engine instance exclusively. The loop around it
//! repeatedly asks [`Session::poll_step`] what to do next: keep polling, send
//! a datagram, block on the socket for a positive timeout, or finish. All
//! scheduling decisions are taken in [`advance`], a pure function with an
//! exact contract; only the socket itself stays with the caller.

use vstd::prelude::*;

use crate::addr::Endpoint;
use crate::engine::{
    feed_elapsed_raw, feed_receive_raw, nanos_until, now_instant, poll_engine_raw, EngineSignal,
    IceState,
};

verus! {

/// What the pure decision step tells the session loop to do next.
pub enum Directive {
    /// Poll the engine again before anything else.
    Poll,
    /// The session is over; the loop returns successfully.
    Finish,
    /// Send this datagram, then poll again.
    Send(str0m::net::Transmit),
    /// The awaited deadline has already passed: feed a synthetic
    /// deadline-elapsed input instead of a zero-duration receive.
    FeedElapsed,
    /// Block on the socket for at most this many nanoseconds.
    Receive { timeout_nanos: u64 },
}

/// What the session loop must do after one poll of the engine.
///
/// This is [`Directive`] with the deadline-elapsed case already consumed:
/// [`Session::poll_step`] feeds the synthetic input itself.
pub enum SessionStep {
    /// Poll again before anything else.
    Poll,
    /// The engine reported the session disconnected; the loop returns.
    Finish,
    /// Send this datagram, then poll again.
    Send(str0m::net::Transmit),
    /// Block on the socket for at most this many nanoseconds, then feed the
    /// engine what happened.
    Receive { timeout_nanos: u64 },
}

/// A failure that ends the session: the engine rejected an input or reported
/// a protocol error.
#[derive(Debug)]
pub enum SessionError {
    Engine(str0m::RtcError),
}

/// The session loop's one decision point: what to do with one engine output.
///
/// `remaining_nanos` is the time left until the deadline when the output is a
/// deadline, zero when the deadline has already passed. The contract pins the
/// whole decision: the loop finishes exactly on a disconnect report, sends
/// exactly what the engine handed out, never blocks for a zero or negative
/// timeout, and feeds a deadline-elapsed input exactly when nothing remains
/// of the wait.
pub fn advance(signal: EngineSignal, remaining_nanos: u64) -> (d: Directive)
    ensures
        d is Finish <==> signal == EngineSignal::IceChange(IceState::Disconnected),
        signal matches EngineSignal::Transmit(t) ==> d == Directive::Send(t),
        d is Send ==> signal is Transmit,
        signal matches EngineSignal::IceChange(s) && s != IceState::Disconnected ==> d
            == Directive::Poll,
        signal is OtherEvent ==> d == Directive::Poll,
        signal is Deadline ==> d == if remaining_nanos == 0 {
            Directive::FeedElapsed
        } else {
            Directive::Receive { timeout_nanos: remaining_nanos }
        },
        d matches Directive::Receive { timeout_nanos } ==> timeout_nanos > 0,
        d is FeedElapsed ==> signal is Deadline && remaining_nanos == 0,
{
    match signal {
        EngineSignal::Transmit(t) => Directive::Send(t),
        EngineSignal::IceChange(s) => {
            if s == IceState::Disconnected {
                Directive::Finish
            } else {
                Directive::Poll
            }
        },
        EngineSignal::OtherEvent => Directive::Poll,
        EngineSignal::Deadline(_) => {
            if remaining_nanos == 0 {
                Directive::FeedElapsed
            } else {
                Directive::Receive { timeout_nanos: remaining_nanos }
            }
        },
    }
}

/// One peer session: the engine instance, owned exclusively, plus the
/// endpoint advertised to the peer, which every received datagram is
/// addressed to.
pub struct Session {
    rtc: str0m::Rtc,
    advertised: Endpoint,
}

impl Session {
    /// The endpoint this session advertised to its peer.
    pub closed spec fn advertised(&self) -> Endpoint {
        self.advertised
    }

    /// Wraps a freshly negotiated engine instance.
    pub(crate) fn new(rtc: str0m::Rtc, advertised: Endpoint) -> (r: Session)
        ensures
            r.advertised() == advertised,
    {
        Session { rtc, advertised }
    }

    /// Polls the engine once and decides the next step.
    ///
    /// A deadline that has already passed is consumed here: the engine is fed
    /// a synthetic deadline-elapsed input and the loop is told to poll again,
    /// so a receive step always carries a strictly positive timeout.
    pub fn poll_step(&mut self) -> (r: Result<SessionStep, SessionError>)
        ensures
            final(self).advertised() == old(self).advertised(),
            r matches Ok(SessionStep::Receive { timeout_nanos }) ==> timeout_nanos > 0,
    {
        let signal = match poll_engine_raw(&mut self.rtc) {
            Err(e) => {
                return Err(SessionError::Engine(e));
            },
            Ok(s) => s,
        };
        let now = now_instant();
        let remaining_nanos: u64 = match &signal {
            EngineSignal::Deadline(deadline) => nanos_until(deadline, &now),
            _ => 0,
        };
        match advance(signal, remaining_nanos) {
            Directive::Poll => Ok(SessionStep::Poll),
            Directive::Finish => Ok(SessionStep::Finish),
            Directive::Send(t) => Ok(SessionStep::Send(t)),
            Directive::Receive { timeout_nanos } => Ok(SessionStep::Receive { timeout_nanos }),
            Directive::FeedElapsed => {
                match feed_elapsed_raw(&mut self.rtc, now) {
                    Err(e) => Err(SessionError::Engine(e)),
                    Ok(()) => Ok(SessionStep::Poll),
                }
            },
        }
    }

    /// Feeds the engine one datagram received on the shared socket, stamped
    /// with the time of receipt, its peer source address, and the advertised
    /// endpoint as destination.
    pub fn datagram_received(&mut self, source: Endpoint, payload: &[u8]) -> (r: Result<
        (),
        SessionError,
    >)
        ensures
            final(self).advertised() == old(self).advertised(),
    {
        let now = now_instant();
        let advertised = self.advertised;
        match feed_receive_raw(&mut self.rtc, now, &source, &advertised, payload) {
            Err(e) => Err(SessionError::Engine(e)),
            Ok(()) => Ok(()),
        }
    }

    /// Feeds the engine a deadline-elapsed input: the wait it last asked for
    /// ended with no datagram arriving.
    pub fn deadline_elapsed(&mut self) -> (r: Result<(), SessionError>)
        ensures
            final(self).advertised() == old(self).advertised(),
    {
        let now = now_instant();
        match feed_elapsed_raw(&mut self.rtc, now) {
            Err(e) => Err(SessionError::Engine(e)),
            Ok(()) => Ok(()),
        }
    }
}

} // verus!
