//! One connection's session: activity tracking, supervision ticks, and the
//! `Open -> Closing -> Closed` lifecycle.
use vstd::prelude::*;
use vstd::string::*;
use crate::codec::{decode, decode_spec, encode, encode_spec, Event, Frame};
use crate::liveness::{decide, evaluate, Decision, CLIENT_TIMEOUT, HEARTBEAT_INTERVAL};

verus! {

/// Where a session is in its lifecycle. Transitions only go forward.
#[derive(Clone, Copy, Debug, PartialEq, Eq, Structural)]
pub enum SessionState {
    Open,
    Closing,
    Closed,
}

/// The state of a session, as seen by its contracts. Times are milliseconds
/// on the driver's monotonic clock.
#[derive(Clone, Copy, Debug, PartialEq, Eq, Structural)]
pub struct SessionView {
    pub last_activity: u64,
    pub unanswered_probes: u32,
    pub last_probe: u64,
    pub state: SessionState,
}

/// What the driver must do after one step: send `reply` if there is one,
/// then, if `stop` is set, cancel the supervision timer and shut the
/// transport down.
#[derive(Clone, Debug, PartialEq, Eq)]
pub struct Outcome {
    pub reply: Option<Event>,
    pub stop: bool,
}

/// One connection's session. Only the session itself changes its state.
pub struct WebSocket {
    hb: u64,
    try_times: u32,
    last_probe: u64,
    state: SessionState,
}

impl View for WebSocket {
    type V = SessionView;

    closed spec fn view(&self) -> SessionView {
        SessionView {
            last_activity: self.hb,
            unanswered_probes: self.try_times,
            last_probe: self.last_probe,
            state: self.state,
        }
    }
}

/// The rank of a state in the lifecycle order.
pub open spec fn rank(s: SessionState) -> int {
    match s {
        SessionState::Open => 0,
        SessionState::Closing => 1,
        SessionState::Closed => 2,
    }
}

/// Time since the last inbound activity; a clock reading from before that
/// activity counts as no idle time.
pub open spec fn idle_of(v: SessionView, now: u64) -> int {
    if now > v.last_activity {
        now - v.last_activity
    } else {
        0
    }
}

/// The session after inbound activity at `now`: the activity time advances
/// (never backwards) and the probe counter is cleared.
pub open spec fn touched(v: SessionView, now: u64) -> SessionView {
    SessionView {
        last_activity: if now > v.last_activity { now } else { v.last_activity },
        unanswered_probes: 0,
        ..v
    }
}

/// The session moved to `Closing`, everything else kept.
pub open spec fn closing(v: SessionView) -> SessionView {
    SessionView { state: SessionState::Closing, ..v }
}

/// The text sent back for an inbound text: `[<stamp>]: <text>`.
pub open spec fn echo_text(stamp: Seq<char>, text: Seq<char>) -> Seq<char> {
    seq!['['] + stamp + seq![']', ':', ' '] + text
}

/// A step that changes nothing and asks for nothing.
pub open spec fn no_op(v: SessionView, w: SessionView, out: Outcome) -> bool {
    w == v && out.reply.is_none() && !out.stop
}

/// How the session answers an inbound event at `now`, with `stamp` as the
/// server-side timestamp for text echoes: `w` is the new state and `out`
/// what the driver must do.
pub open spec fn handled(
    v: SessionView,
    msg: Event,
    now: u64,
    stamp: Seq<char>,
    w: SessionView,
    out: Outcome,
) -> bool {
    if v.state != SessionState::Open {
        no_op(v, w, out)
    } else {
        match msg {
            Event::Ping(p) => w == touched(v, now) && out.reply == Some(Event::Pong(p))
                && !out.stop,
            Event::Pong(_) => w == touched(v, now) && out.reply.is_none() && !out.stop,
            Event::Text(t) => w == touched(v, now) && !out.stop && match out.reply {
                Some(Event::Text(r)) => r@ == echo_text(stamp, t@),
                _ => false,
            },
            Event::Binary(b) => w == touched(v, now) && out.reply == Some(Event::Binary(b))
                && !out.stop,
            Event::Close(reason) => w == closing(v) && out.reply == Some(Event::Close(reason))
                && out.stop,
            Event::ProtocolError => w == closing(v) && out.reply.is_none() && out.stop,
        }
    }
}

/// How the session runs one supervision tick at `now`; `probe_tick` says
/// whether a probe is scheduled on this tick.
pub open spec fn ticked(
    v: SessionView,
    now: u64,
    probe_tick: bool,
    w: SessionView,
    out: Outcome,
) -> bool {
    if v.state != SessionState::Open {
        no_op(v, w, out)
    } else {
        match decide(idle_of(v, now), v.unanswered_probes as int, probe_tick) {
            Decision::Healthy => no_op(v, w, out),
            Decision::SendProbe => w == SessionView {
                unanswered_probes: (v.unanswered_probes + 1) as u32,
                last_probe: now,
                ..v
            } && !out.stop && match out.reply {
                Some(Event::Ping(p)) => p@.len() == 0,
                _ => false,
            },
            Decision::Terminate => w == closing(v) && out.reply.is_none() && out.stop,
        }
    }
}

/// Whether a probe is due at `now`: a heartbeat interval has passed since
/// the last probe (or since the session started).
pub open spec fn probe_due_spec(v: SessionView, now: u64) -> bool {
    now >= v.last_probe + HEARTBEAT_INTERVAL
}

/// Relies on chrono's `Local::now` and its `Display` impl: the local date
/// and time when called, as text. Nothing is assumed of its content.
#[verifier::external_body]
fn local_timestamp() -> (r: String) {
    chrono::Local::now().to_string()
}

impl WebSocket {
    /// Starts a session at `now`: open, active now, no probe outstanding.
    pub fn new(now: u64) -> (r: WebSocket)
        ensures
            r@ == (SessionView {
                last_activity: now,
                unanswered_probes: 0,
                last_probe: now,
                state: SessionState::Open,
            }),
    {
        WebSocket { hb: now, try_times: 0, last_probe: now, state: SessionState::Open }
    }

    /// Time of the last inbound activity.
    pub fn last_activity(&self) -> (r: u64)
        ensures
            r == self@.last_activity,
    {
        self.hb
    }

    /// Probes sent since the last inbound activity.
    pub fn unanswered_probes(&self) -> (r: u32)
        ensures
            r == self@.unanswered_probes,
    {
        self.try_times
    }

    /// Where the session is in its lifecycle.
    pub fn state(&self) -> (r: SessionState)
        ensures
            r == self@.state,
    {
        self.state
    }

    fn touch(&mut self, now: u64)
        ensures
            final(self)@ == touched(old(self)@, now),
    {
        if now > self.hb {
            self.hb = now;
        }
        self.try_times = 0;
    }

    /// Handles one inbound event at `now`; `stamp` is the server-side
    /// timestamp put in front of an echoed text. Only an open session
    /// reacts: in any other state the event is ignored.
    pub fn handle(&mut self, msg: Event, now: u64, stamp: &str) -> (r: Outcome)
        ensures
            handled(old(self)@, msg, now, stamp@, final(self)@, r),
    {
        if self.state != SessionState::Open {
            return Outcome { reply: None, stop: false };
        }
        match msg {
            Event::Ping(p) => {
                self.touch(now);
                Outcome { reply: Some(Event::Pong(p)), stop: false }
            },
            Event::Pong(_) => {
                self.touch(now);
                Outcome { reply: None, stop: false }
            },
            Event::Text(t) => {
                self.touch(now);
                let mut s = String::from_str("[");
                s.append(stamp);
                s.append("]: ");
                s.append(t.as_str());
                proof {
                    reveal_strlit("[");
                    reveal_strlit("]: ");
                    assert(s@ =~= echo_text(stamp@, t@));
                }
                Outcome { reply: Some(Event::Text(s)), stop: false }
            },
            Event::Binary(b) => {
                self.touch(now);
                Outcome { reply: Some(Event::Binary(b)), stop: false }
            },
            Event::Close(reason) => {
                self.state = SessionState::Closing;
                Outcome { reply: Some(Event::Close(reason)), stop: true }
            },
            Event::ProtocolError => {
                self.state = SessionState::Closing;
                Outcome { reply: None, stop: true }
            },
        }
    }

    /// Handles one inbound event at `now`, stamping an echoed text with the
    /// local time of day. The result is what `handle` gives for some stamp.
    pub fn receive(&mut self, msg: Event, now: u64) -> (r: Outcome)
        ensures
            exists|stamp: Seq<char>| handled(old(self)@, msg, now, stamp, final(self)@, r),
    {
        let stamp = local_timestamp();
        self.handle(msg, now, stamp.as_str())
    }

    /// Takes one inbound frame at `now` through the codec and the session,
    /// and gives back the outbound frame, if any, and whether to stop.
    pub fn dispatch(&mut self, frame: Frame, now: u64) -> (r: (Option<Frame>, bool))
        ensures
            exists|stamp: Seq<char>, out: Outcome|
                {
                    &&& handled(old(self)@, decode_spec(frame), now, stamp, final(self)@, out)
                    &&& r.1 == out.stop
                    &&& match out.reply {
                        Some(e) => r.0 == Some(encode_spec(e)),
                        None => r.0.is_none(),
                    }
                },
    {
        let out = self.receive(decode(frame), now);
        let stop = out.stop;
        match out.reply {
            Some(e) => (Some(encode(e)), stop),
            None => (None, stop),
        }
    }

    /// Runs one supervision tick at `now`, with `probe_tick` saying whether
    /// a probe is scheduled on it. Only an open session is supervised.
    pub fn hb(&mut self, now: u64, probe_tick: bool) -> (r: Outcome)
        ensures
            ticked(old(self)@, now, probe_tick, final(self)@, r),
    {
        if self.state != SessionState::Open {
            return Outcome { reply: None, stop: false };
        }
        let idle: u64 = if now > self.hb {
            now - self.hb
        } else {
            0
        };
        match evaluate(idle, self.try_times, probe_tick) {
            Decision::Healthy => Outcome { reply: None, stop: false },
            Decision::SendProbe => {
                self.try_times = self.try_times + 1;
                self.last_probe = now;
                Outcome { reply: Some(Event::Ping(Vec::new())), stop: false }
            },
            Decision::Terminate => {
                self.state = SessionState::Closing;
                Outcome { reply: None, stop: true }
            },
        }
    }

    /// Whether a probe is due at `now`.
    pub fn probe_due(&self, now: u64) -> (r: bool)
        ensures
            r == probe_due_spec(self@, now),
    {
        now >= self.last_probe && now - self.last_probe >= HEARTBEAT_INTERVAL
    }

    /// Runs one supervision tick at `now`, probing when a heartbeat
    /// interval has passed since the last probe.
    pub fn tick(&mut self, now: u64) -> (r: Outcome)
        ensures
            ticked(old(self)@, now, probe_due_spec(old(self)@, now), final(self)@, r),
    {
        let due = self.probe_due(now);
        self.hb(now, due)
    }

    /// Records that the transport has been torn down after closing. A
    /// session that is not closing is left as it is.
    pub fn finish(&mut self)
        ensures
            old(self)@.state == SessionState::Closing ==> final(self)@ == (SessionView {
                state: SessionState::Closed,
                ..old(self)@
            }),
            old(self)@.state != SessionState::Closing ==> final(self)@ == old(self)@,
    {
        if self.state == SessionState::Closing {
            self.state = SessionState::Closed;
        }
    }
}

/// Receiving a pong in an open session clears the probe counter and moves
/// the last activity up to the moment of receipt.
pub proof fn lemma_pong_resets_probes(
    v: SessionView,
    p: Vec<u8>,
    now: u64,
    stamp: Seq<char>,
    w: SessionView,
    out: Outcome,
)
    requires
        v.state == SessionState::Open,
        handled(v, Event::Pong(p), now, stamp, w, out),
    ensures
        w.unanswered_probes == 0,
        w.last_activity >= v.last_activity,
        now >= v.last_activity ==> w.last_activity == now,
        w.state == SessionState::Open,
{
}

/// An open session whose peer has been silent for longer than the client
/// timeout is closed on the next tick, whatever the probe count and whether
/// or not a probe is due.
pub proof fn lemma_silent_session_closes(
    v: SessionView,
    now: u64,
    probe_tick: bool,
    w: SessionView,
    out: Outcome,
)
    requires
        v.state == SessionState::Open,
        now > v.last_activity + CLIENT_TIMEOUT,
        ticked(v, now, probe_tick, w, out),
    ensures
        w.state == SessionState::Closing,
        out.reply.is_none(),
        out.stop,
{
}

/// A closed session ignores every inbound event: nothing changes and
/// nothing is sent.
pub proof fn lemma_closed_ignores_events(
    v: SessionView,
    msg: Event,
    now: u64,
    stamp: Seq<char>,
    w: SessionView,
    out: Outcome,
)
    requires
        v.state == SessionState::Closed,
        handled(v, msg, now, stamp, w, out),
    ensures
        w == v,
        out.reply.is_none(),
        !out.stop,
{
}

/// A closed session ignores supervision ticks too.
pub proof fn lemma_closed_ignores_ticks(
    v: SessionView,
    now: u64,
    probe_tick: bool,
    w: SessionView,
    out: Outcome,
)
    requires
        v.state == SessionState::Closed,
        ticked(v, now, probe_tick, w, out),
    ensures
        w == v,
        out.reply.is_none(),
        !out.stop,
{
}

/// No step moves the last activity backwards or the lifecycle back to an
/// earlier state.
pub proof fn lemma_steps_go_forward(
    v: SessionView,
    msg: Event,
    now: u64,
    stamp: Seq<char>,
    probe_tick: bool,
    w: SessionView,
    out: Outcome,
)
    ensures
        handled(v, msg, now, stamp, w, out) ==> w.last_activity >= v.last_activity && rank(
            w.state,
        ) >= rank(v.state),
        ticked(v, now, probe_tick, w, out) ==> w.last_activity >= v.last_activity && rank(
            w.state,
        ) >= rank(v.state),
{
}

} // verus!
