//! The frame-bridge dispatcher.
//!
//! A single-threaded readiness loop fans in four event sources: pending
//! signals, the datagram socket, serial write-readiness and a periodic
//! tick. This module is that loop's brain: it owns the resident frame
//! buffer, the counters and the throttle state, and decides — from an
//! event and the current state alone — what changes and what action the
//! surrounding loop performs. Waiting on the multiplexer, reading the
//! sources and writing the frame happen outside the library; each event
//! arrives here as plain values.
//!
//! Once the exit flag is set — by a termination signal or a fatal write
//! error — every handler refuses further work, so the remaining events of
//! a batch have no effect and nothing more is transmitted.

use vstd::prelude::*;

use crate::frame::FrameBuffer;
use crate::frame::apply_all_spec;
use crate::frame::apply_datagram_spec;
use crate::frame::payload_span;
use crate::frame::FRAME_LEN;

verus! {

/// What a delivered signal means to the bridge.
#[derive(Clone, Copy, Debug, PartialEq, Eq, Structural)]
pub enum SignalKind {
    /// Interactive interrupt: finish the batch and stop.
    Interrupt,
    /// Termination request: finish the batch and stop.
    Terminate,
    /// Diagnostic request: report the rates seen at the last tick.
    RateReport,
    /// Anything else: noted and ignored.
    Other,
}

/// The four readiness sources of the loop.
#[derive(Clone, Copy, Debug, PartialEq, Eq, Structural)]
pub enum Event {
    Signal,
    Udp,
    Dmx,
    Tick,
}

/// The token each source is registered under with the multiplexer.
pub open spec fn event_code_spec(e: Event) -> u64 {
    match e {
        Event::Signal => 1,
        Event::Udp => 2,
        Event::Dmx => 3,
        Event::Tick => 4,
    }
}

/// The source a multiplexer token stands for, if any.
pub open spec fn event_from_code_spec(c: u64) -> Option<Event> {
    if c == 1 {
        Some(Event::Signal)
    } else if c == 2 {
        Some(Event::Udp)
    } else if c == 3 {
        Some(Event::Dmx)
    } else if c == 4 {
        Some(Event::Tick)
    } else {
        None
    }
}

/// The registration token of an event source.
pub fn event_code(e: Event) -> (c: u64)
    ensures
        c == event_code_spec(e),
{
    match e {
        Event::Signal => 1,
        Event::Udp => 2,
        Event::Dmx => 3,
        Event::Tick => 4,
    }
}

/// Decodes a multiplexer token back to its event source; unknown tokens
/// are reported, not guessed at.
pub fn event_from_code(c: u64) -> (r: Option<Event>)
    ensures
        r == event_from_code_spec(c),
{
    if c == 1 {
        Some(Event::Signal)
    } else if c == 2 {
        Some(Event::Udp)
    } else if c == 3 {
        Some(Event::Dmx)
    } else if c == 4 {
        Some(Event::Tick)
    } else {
        None
    }
}

/// Decoding a registration token gives back the source it was made from.
pub proof fn lemma_event_code_roundtrip(e: Event)
    ensures
        event_from_code_spec(event_code_spec(e)) == Some(e),
{
}

/// The dispatcher: the frame buffer, the exit flag, the throttle state and
/// the four counters, all owned by the one event loop.
pub struct Dispatcher {
    /// The resident frame the transmit branch reads.
    pub frame: FrameBuffer,
    /// Set by a termination signal or a fatal transmit error; once set,
    /// every handler leaves the state untouched.
    pub exiting: bool,
    /// When set, nothing is transmitted until a first datagram arrived.
    pub wait_for_datagram: bool,
    /// Whether any datagram arrived yet.
    pub saw_datagram: bool,
    /// The configured frame-rate cap, in frames per second.
    pub throttle_hz: u64,
    /// When the last transmission was recorded, in milliseconds of the
    /// loop's monotonic clock.
    pub last_transmit_ms: u64,
    /// Datagrams received over the whole run.
    pub datagrams_received: u64,
    /// Frames transmitted over the whole run.
    pub frames_transmitted: u64,
    /// The datagram counter as of the last tick.
    pub datagrams_at_tick: u64,
    /// The frame counter as of the last tick.
    pub frames_at_tick: u64,
    /// Datagrams seen between the two most recent ticks.
    pub last_datagram_delta: u64,
    /// Frames transmitted between the two most recent ticks.
    pub last_frame_delta: u64,
}

impl Dispatcher {
    /// The dispatcher's invariant: a well-formed frame, a positive
    /// throttle, and tick marks that never run ahead of their counters.
    pub open spec fn wf(&self) -> bool {
        &&& self.frame.wf()
        &&& self.throttle_hz >= 1
        &&& self.datagrams_at_tick <= self.datagrams_received
        &&& self.frames_at_tick <= self.frames_transmitted
    }

    /// A fresh dispatcher: zeroed frame, zeroed counters, not exiting.
    pub fn new(throttle_hz: u64, wait_for_datagram: bool) -> (d: Dispatcher)
        requires
            throttle_hz >= 1,
        ensures
            d.wf(),
            forall|i: int| 0 <= i < FRAME_LEN ==> d.frame@[i] == 0,
            !d.exiting,
            d.wait_for_datagram == wait_for_datagram,
            !d.saw_datagram,
            d.throttle_hz == throttle_hz,
            d.last_transmit_ms == 0,
            d.datagrams_received == 0,
            d.frames_transmitted == 0,
            d.datagrams_at_tick == 0,
            d.frames_at_tick == 0,
            d.last_datagram_delta == 0,
            d.last_frame_delta == 0,
    {
        Dispatcher {
            frame: FrameBuffer::new(),
            exiting: false,
            wait_for_datagram,
            saw_datagram: false,
            throttle_hz,
            last_transmit_ms: 0,
            datagrams_received: 0,
            frames_transmitted: 0,
            datagrams_at_tick: 0,
            frames_at_tick: 0,
            last_datagram_delta: 0,
            last_frame_delta: 0,
        }
    }

    /// The shortest spacing between two transmissions, in milliseconds.
    pub open spec fn throttle_interval_ms(&self) -> int {
        1000int / (self.throttle_hz as int)
    }

    /// Whether a write-readiness event at this instant leads to a
    /// transmission: not while exiting, not before the first datagram when
    /// one is waited for, and not before the throttle interval has passed
    /// since the last transmission.
    pub open spec fn ready_to_transmit(&self, now_ms: u64) -> bool {
        &&& !self.exiting
        &&& (self.saw_datagram || !self.wait_for_datagram)
        &&& now_ms as int >= self.last_transmit_ms as int + self.throttle_interval_ms()
    }

    /// Decides the write-readiness event.
    pub fn should_transmit(&self, now_ms: u64) -> (b: bool)
        requires
            self.wf(),
        ensures
            b == self.ready_to_transmit(now_ms),
    {
        if self.exiting {
            false
        } else if self.wait_for_datagram && !self.saw_datagram {
            false
        } else {
            let interval: u64 = 1000 / self.throttle_hz;
            now_ms >= self.last_transmit_ms && now_ms - self.last_transmit_ms >= interval
        }
    }

    /// The state after a signal: a termination request sets the exit flag,
    /// everything else leaves the state as it was.
    pub open spec fn signal_step(d: Dispatcher, sig: SignalKind) -> Dispatcher {
        if !d.exiting && (sig is Interrupt || sig is Terminate) {
            Dispatcher { exiting: true, ..d }
        } else {
            d
        }
    }

    /// What a signal reports: the rates as of the last tick, for a
    /// diagnostic request while running.
    pub open spec fn signal_report(d: Dispatcher, sig: SignalKind) -> Option<(u64, u64)> {
        if !d.exiting && sig is RateReport {
            Some((d.last_datagram_delta, d.last_frame_delta))
        } else {
            None
        }
    }

    /// Handles a delivered signal.
    pub fn on_signal(&mut self, sig: SignalKind) -> (report: Option<(u64, u64)>)
        requires
            old(self).wf(),
        ensures
            final(self).wf(),
            *final(self) == Dispatcher::signal_step(*old(self), sig),
            report == Dispatcher::signal_report(*old(self), sig),
    {
        if self.exiting {
            return None;
        }
        match sig {
            SignalKind::Interrupt => {
                self.exiting = true;
                None
            },
            SignalKind::Terminate => {
                self.exiting = true;
                None
            },
            SignalKind::RateReport => Some((self.last_datagram_delta, self.last_frame_delta)),
            SignalKind::Other => None,
        }
    }

    /// How one datagram changes the state: the payload lands in the frame
    /// buffer, the datagram counter moves, the first arrival is noted —
    /// and nothing at all happens while exiting.
    pub open spec fn datagram_step_rel(pre: Dispatcher, post: Dispatcher, p: Seq<u8>) -> bool {
        if pre.exiting {
            post == pre
        } else {
            &&& post.frame@ == apply_datagram_spec(pre.frame@, p)
            &&& post.datagrams_received == pre.datagrams_received + 1
            &&& post.saw_datagram
            &&& post.exiting == pre.exiting
            &&& post.wait_for_datagram == pre.wait_for_datagram
            &&& post.throttle_hz == pre.throttle_hz
            &&& post.last_transmit_ms == pre.last_transmit_ms
            &&& post.frames_transmitted == pre.frames_transmitted
            &&& post.datagrams_at_tick == pre.datagrams_at_tick
            &&& post.frames_at_tick == pre.frames_at_tick
            &&& post.last_datagram_delta == pre.last_datagram_delta
            &&& post.last_frame_delta == pre.last_frame_delta
        }
    }

    /// Lands one received datagram in the frame buffer.
    pub fn on_datagram(&mut self, payload: &[u8])
        requires
            old(self).wf(),
            old(self).datagrams_received < u64::MAX,
        ensures
            final(self).wf(),
            Dispatcher::datagram_step_rel(*old(self), *final(self), payload@),
            !old(self).exiting ==> forall|i: int|
                1 <= i < 1 + payload_span(payload@) ==> final(self).frame@[i] == payload@[i - 1],
            !old(self).exiting ==> forall|i: int|
                1 + payload_span(payload@) <= i < FRAME_LEN ==> final(self).frame@[i] == old(
                    self,
                ).frame@[i],
    {
        if self.exiting {
            return ;
        }
        self.frame.apply_datagram(payload);
        self.datagrams_received = self.datagrams_received + 1;
        self.saw_datagram = true;
    }

    /// The state after a transmission was attempted: the frame counter and
    /// the throttle timestamp move, and a failed write sets the exit flag —
    /// the serial line is taken to be unusable.
    pub open spec fn transmit_step(d: Dispatcher, now_ms: u64, ok: bool) -> Dispatcher {
        if d.exiting {
            d
        } else {
            Dispatcher {
                frames_transmitted: (d.frames_transmitted + 1) as u64,
                last_transmit_ms: now_ms,
                exiting: !ok,
                ..d
            }
        }
    }

    /// Records a transmission attempt and its outcome.
    pub fn on_transmitted(&mut self, now_ms: u64, ok: bool)
        requires
            old(self).wf(),
            old(self).frames_transmitted < u64::MAX,
        ensures
            final(self).wf(),
            *final(self) == Dispatcher::transmit_step(*old(self), now_ms, ok),
    {
        if self.exiting {
            return ;
        }
        self.frames_transmitted = self.frames_transmitted + 1;
        self.last_transmit_ms = now_ms;
        if !ok {
            self.exiting = true;
        }
    }

    /// The state after a periodic tick: the per-interval deltas are
    /// computed and latched, and the tick marks catch up to the counters.
    pub open spec fn tick_step(d: Dispatcher) -> Dispatcher {
        if d.exiting {
            d
        } else {
            Dispatcher {
                datagrams_at_tick: d.datagrams_received,
                frames_at_tick: d.frames_transmitted,
                last_datagram_delta: (d.datagrams_received - d.datagrams_at_tick) as u64,
                last_frame_delta: (d.frames_transmitted - d.frames_at_tick) as u64,
                ..d
            }
        }
    }

    /// What a tick reports: the datagrams and frames seen since the
    /// previous tick.
    pub open spec fn tick_report(d: Dispatcher) -> Option<(u64, u64)> {
        if d.exiting {
            None
        } else {
            Some(
                (
                    (d.datagrams_received - d.datagrams_at_tick) as u64,
                    (d.frames_transmitted - d.frames_at_tick) as u64,
                ),
            )
        }
    }

    /// Handles a periodic tick.
    pub fn on_tick(&mut self) -> (deltas: Option<(u64, u64)>)
        requires
            old(self).wf(),
        ensures
            final(self).wf(),
            *final(self) == Dispatcher::tick_step(*old(self)),
            deltas == Dispatcher::tick_report(*old(self)),
    {
        if self.exiting {
            return None;
        }
        let datagram_delta = self.datagrams_received - self.datagrams_at_tick;
        let frame_delta = self.frames_transmitted - self.frames_at_tick;
        self.last_datagram_delta = datagram_delta;
        self.last_frame_delta = frame_delta;
        self.datagrams_at_tick = self.datagrams_received;
        self.frames_at_tick = self.frames_transmitted;
        Some((datagram_delta, frame_delta))
    }
}

/// A whole burst landing between two waits on the multiplexer: the
/// dispatcher steps through every queued payload in order.
pub open spec fn drain_rel(pre: Dispatcher, post: Dispatcher, ps: Seq<Seq<u8>>) -> bool
    decreases ps.len(),
{
    if ps.len() == 0 {
        post == pre
    } else {
        exists|mid: Dispatcher|
            #[trigger] Dispatcher::datagram_step_rel(pre, mid, ps[0]) && drain_rel(
                mid,
                post,
                ps.subrange(1, ps.len() as int),
            )
    }
}

/// Draining a burst of N queued datagrams consumes all N — the counter
/// advances by exactly N — and leaves the frame as if the payloads landed
/// one after the other, so the channels the last payload covers carry the
/// last payload alone.
pub proof fn lemma_drain_consumes_all(pre: Dispatcher, post: Dispatcher, ps: Seq<Seq<u8>>)
    requires
        !pre.exiting,
        drain_rel(pre, post, ps),
    ensures
        post.datagrams_received == pre.datagrams_received + ps.len(),
        post.frame@ == apply_all_spec(pre.frame@, ps),
        !post.exiting,
        ps.len() > 0 ==> post.saw_datagram,
    decreases ps.len(),
{
    if ps.len() > 0 {
        let rest = ps.subrange(1, ps.len() as int);
        let mid = choose|mid: Dispatcher|
            #[trigger] Dispatcher::datagram_step_rel(pre, mid, ps[0]) && drain_rel(mid, post, rest);
        lemma_drain_consumes_all(mid, post, rest);
        if rest.len() == 0 {
            assert(post == mid);
        }
    }
}

/// Throttling bounds the frame rate: when a transmission happens at `t1`,
/// a second write-readiness event at any `t2` less than one throttle
/// interval later transmits nothing.
pub proof fn lemma_throttle_at_most_one(d: Dispatcher, t1: u64, t2: u64)
    requires
        d.wf(),
        d.ready_to_transmit(t1),
        (t2 as int) < t1 as int + d.throttle_interval_ms(),
    ensures
        !Dispatcher::transmit_step(d, t1, true).ready_to_transmit(t2),
{
}

/// Throttling only bounds the rate: when a transmission happens at `t1`,
/// a write-readiness event a full throttle interval (or more) later
/// transmits again.
pub proof fn lemma_throttle_spacing_transmits(d: Dispatcher, t1: u64, t2: u64)
    requires
        d.wf(),
        d.ready_to_transmit(t1),
        t2 as int >= t1 as int + d.throttle_interval_ms(),
    ensures
        Dispatcher::transmit_step(d, t1, true).ready_to_transmit(t2),
{
}

/// A termination signal sets the exit flag.
pub proof fn lemma_termination_signal_sets_exit(d: Dispatcher, sig: SignalKind)
    requires
        sig is Interrupt || sig is Terminate,
    ensures
        Dispatcher::signal_step(d, sig).exiting,
{
}

/// The exit flag short-circuits the batch: once it is set, every further
/// event leaves the dispatcher exactly as it is, nothing is reported, and
/// no write-readiness event transmits.
pub proof fn lemma_exit_short_circuits(
    d: Dispatcher,
    sig: SignalKind,
    now_ms: u64,
    ok: bool,
    post: Dispatcher,
    p: Seq<u8>,
)
    requires
        d.exiting,
    ensures
        Dispatcher::signal_step(d, sig) == d,
        Dispatcher::signal_report(d, sig) is None,
        Dispatcher::datagram_step_rel(d, post, p) ==> post == d,
        Dispatcher::transmit_step(d, now_ms, ok) == d,
        Dispatcher::tick_step(d) == d,
        Dispatcher::tick_report(d) is None,
        !d.ready_to_transmit(now_ms),
{
}

} // verus!
