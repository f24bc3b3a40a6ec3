use vstd::prelude::*;
use vstd::string::StringSliceAdditionalSpecFns;
use crate::codec::{
    classified, classify, decode, message_of, pong_reply, pong_text, push_text, subscribe_request,
    subscribe_text, Frame, Inbound, Outbound,
};
use crate::exchange::Exchange;
use crate::json::Json;
use crate::normalize::{normalize, normalized, NormalizeError, Quote};
use crate::sink::{quote_points, quote_writes, SeriesWrite};

verus! {

/// Reconnection attempts made after a failure before the pipeline stops.
pub const MAX_RECONNECT_ATTEMPTS: u32 = 5;

pub open spec fn two_to(n: nat) -> nat
    decreases n,
{
    if n == 0 {
        1
    } else {
        2 * two_to((n - 1) as nat)
    }
}

/// Seconds to wait before reconnection attempt `attempt` (counted from 0),
/// or `None` once the attempts are used up.
pub fn reconnect_delay_secs(attempt: u32) -> (r: Option<u64>)
    ensures
        attempt < MAX_RECONNECT_ATTEMPTS ==> r == Some(two_to(attempt as nat) as u64),
        attempt >= MAX_RECONNECT_ATTEMPTS ==> r is None,
{
    if attempt >= MAX_RECONNECT_ATTEMPTS {
        return None;
    }
    let mut delay: u64 = 1;
    let mut i: u32 = 0;
    while i < attempt
        invariant
            i <= attempt < MAX_RECONNECT_ATTEMPTS,
            delay == two_to(i as nat),
            delay <= 16,
        decreases attempt - i,
    {
        delay = delay * 2;
        i = i + 1;
        assert(delay <= 16) by {
            reveal_with_fuel(two_to, 5);
        }
    }
    Some(delay)
}

/// The idle timer: a ping is due once `interval_ms` has passed since the
/// last activity.
#[derive(Clone, Copy, Debug, PartialEq, Eq, Structural)]
pub struct Liveness {
    pub last_activity: u64,
    pub interval_ms: u64,
}

impl Liveness {
    pub open spec fn due(self, now: u64) -> bool {
        now >= self.last_activity && now - self.last_activity >= self.interval_ms
    }

    pub open spec fn touched(self, now: u64) -> Liveness {
        Liveness { last_activity: now, ..self }
    }

    /// Says whether a ping is due at `now`, and restarts the timer if so.
    pub fn poll(&mut self, now: u64) -> (r: bool)
        ensures
            r == old(self).due(now),
            r ==> *final(self) == old(self).touched(now),
            !r ==> *final(self) == *old(self),
    {
        if now >= self.last_activity && now - self.last_activity >= self.interval_ms {
            self.last_activity = now;
            true
        } else {
            false
        }
    }
}

/// A silent feed gets one heartbeat per interval: none while less than
/// the interval has passed since the last activity, and after the ping
/// sent at `t` none again until a further full interval has passed.
pub proof fn lemma_one_ping_per_interval(timer: Liveness, t: u64, later: u64)
    ensures
        timer.last_activity <= t < timer.last_activity + timer.interval_ms ==> !timer.due(t),
        timer.last_activity + timer.interval_ms <= t ==> timer.due(t),
        timer.due(t) && t <= later < t + timer.interval_ms ==> !timer.touched(t).due(later),
{
}

/// Where the connection state machine stands.
#[derive(Clone, Copy, Debug, PartialEq, Eq, Structural)]
pub enum Phase {
    /// (Re)connecting after `failures` consecutive failures.
    Connecting { failures: u32 },
    Streaming,
    /// Retries exhausted, a fatal error, or shut down.
    Stopped,
}

/// The phase after a failed connection attempt, and the seconds to wait
/// before the next one (`None`: stop).
pub open spec fn after_connect_failure(phase: Phase) -> (Phase, Option<u64>) {
    match phase {
        Phase::Connecting { failures } => if failures < MAX_RECONNECT_ATTEMPTS {
            (Phase::Connecting { failures: (failures + 1) as u32 }, Some(two_to(failures as nat) as u64))
        } else {
            (Phase::Stopped, None)
        },
        _ => (phase, None),
    }
}

/// The phase after the transport failed while streaming, and the seconds
/// to wait before reconnecting (`None`: stop).
pub open spec fn after_transport_error(phase: Phase, recoverable: bool) -> (Phase, Option<u64>) {
    match phase {
        Phase::Streaming => if recoverable {
            (Phase::Connecting { failures: 1 }, Some(1))
        } else {
            (Phase::Stopped, None)
        },
        _ => (phase, None),
    }
}

/// Consecutive failures from a broken stream wait 1, 2, 4, 8 and 16
/// seconds (attempt `k` waits 2^k); the sixth failure stops the pipeline
/// instead of retrying.
pub proof fn lemma_backoff_sequence()
    ensures
        after_transport_error(Phase::Streaming, true) == (Phase::Connecting { failures: 1 }, Some(1u64)),
        after_connect_failure(Phase::Connecting { failures: 1 }) == (Phase::Connecting { failures: 2 }, Some(2u64)),
        after_connect_failure(Phase::Connecting { failures: 2 }) == (Phase::Connecting { failures: 3 }, Some(4u64)),
        after_connect_failure(Phase::Connecting { failures: 3 }) == (Phase::Connecting { failures: 4 }, Some(8u64)),
        after_connect_failure(Phase::Connecting { failures: 4 }) == (Phase::Connecting { failures: 5 }, Some(16u64)),
        after_connect_failure(Phase::Connecting { failures: 5 }) == (Phase::Stopped, None::<u64>),
        forall|k: u32|
            k < MAX_RECONNECT_ATTEMPTS ==> #[trigger] after_connect_failure(Phase::Connecting { failures: k })
                == (Phase::Connecting { failures: (k + 1) as u32 }, Some(two_to(k as nat) as u64)),
{
    reveal_with_fuel(two_to, 5);
}

/// What handling one frame produced.
#[derive(Debug)]
pub struct FrameOutcome {
    /// A frame to send back at once.
    pub reply: Option<Outbound>,
    /// The quote the frame carried, if it normalized.
    pub quote: Option<Quote>,
    /// The points to insert for that quote.
    pub writes: Vec<SeriesWrite>,
    /// What the frame's message was taken for; `None` for a control frame
    /// or a data frame that did not decode (decompression or JSON).
    pub kind: Option<Inbound>,
    /// Why a ticker payload gave no quote.
    pub rejected: Option<NormalizeError>,
}

/// What a frame's message is taken for, if it decodes.
pub open spec fn frame_kind(exchange: Exchange, channel: Option<u64>, frame: Frame) -> Option<Inbound> {
    match frame {
        Frame::Ping(_) => None,
        Frame::Pong(_) => None,
        _ => match message_of(exchange, frame) {
            Some(m) => Some(classified(exchange, m, channel)),
            None => None,
        },
    }
}

/// The normalization error of a frame carrying a ticker payload that gives
/// no quote.
pub open spec fn frame_rejection(exchange: Exchange, channel: Option<u64>, frame: Frame, now: u64) -> Option<
    NormalizeError,
> {
    match frame {
        Frame::Ping(_) => None,
        Frame::Pong(_) => None,
        _ => match message_of(exchange, frame) {
            Some(m) => if classified(exchange, m, channel) == Inbound::Ticker {
                match normalized(exchange, m, now) {
                    Ok(_) => None,
                    Err(e) => Some(e),
                }
            } else {
                None
            },
            None => None,
        },
    }
}

/// One exchange's pipeline: the connection state machine, the session's
/// subscription channel and its idle timer. A new session (channel and
/// timer) replaces the old one on every connection.
#[derive(Debug)]
pub struct Supervisor {
    pub exchange: Exchange,
    pub phase: Phase,
    pub channel: Option<u64>,
    pub liveness: Liveness,
}

impl Supervisor {
    pub fn new(exchange: Exchange, heartbeat_ms: u64) -> (r: Supervisor)
        ensures
            r.exchange == exchange,
            r.phase == (Phase::Connecting { failures: 0 }),
            r.channel is None,
            r.liveness == (Liveness { last_activity: 0, interval_ms: heartbeat_ms }),
    {
        Supervisor {
            exchange,
            phase: Phase::Connecting { failures: 0 },
            channel: None,
            liveness: Liveness { last_activity: 0, interval_ms: heartbeat_ms },
        }
    }

    /// The transport connected at `now_ms`: a fresh session starts, with
    /// the heartbeat interval `interval_ms` that came with the endpoint, and
    /// the subscribe request is returned for sending.
    pub fn on_connected(&mut self, now_ms: u64, interval_ms: u64) -> (r: Option<Outbound>)
        ensures
            old(self).phase is Connecting ==> {
                &&& final(self).phase == Phase::Streaming
                &&& final(self).channel is None
                &&& final(self).liveness == (Liveness { last_activity: now_ms, interval_ms })
                &&& final(self).exchange == old(self).exchange
                &&& r matches Some(Outbound::Text(t)) && t@ == subscribe_text(old(self).exchange, now_ms)
            },
            !(old(self).phase is Connecting) ==> *final(self) == *old(self) && r is None,
    {
        match self.phase {
            Phase::Connecting { .. } => {
                self.phase = Phase::Streaming;
                self.channel = None;
                self.liveness = Liveness { last_activity: now_ms, interval_ms };
                Some(Outbound::Text(subscribe_request(self.exchange, now_ms)))
            },
            _ => None,
        }
    }

    /// A connection attempt failed: the seconds to wait before the next
    /// one, or `None` when the pipeline stops.
    pub fn on_connect_failed(&mut self) -> (r: Option<u64>)
        ensures
            (final(self).phase, r) == after_connect_failure(old(self).phase),
            final(self).exchange == old(self).exchange,
            final(self).channel == old(self).channel,
            final(self).liveness == old(self).liveness,
    {
        match self.phase {
            Phase::Connecting { failures } => match reconnect_delay_secs(failures) {
                Some(d) => {
                    self.phase = Phase::Connecting { failures: failures + 1 };
                    Some(d)
                },
                None => {
                    self.phase = Phase::Stopped;
                    None
                },
            },
            _ => None,
        }
    }

    /// The transport failed while streaming; a recoverable failure starts
    /// the reconnection with its first delay, a fatal one stops.
    pub fn on_transport_error(&mut self, recoverable: bool) -> (r: Option<u64>)
        ensures
            (final(self).phase, r) == after_transport_error(old(self).phase, recoverable),
            final(self).exchange == old(self).exchange,
            final(self).channel == old(self).channel,
            final(self).liveness == old(self).liveness,
    {
        match self.phase {
            Phase::Streaming => if recoverable {
                self.phase = Phase::Connecting { failures: 1 };
                Some(1)
            } else {
                self.phase = Phase::Stopped;
                None
            },
            _ => None,
        }
    }

    /// Cooperative shutdown.
    pub fn shutdown(&mut self)
        ensures
            final(self).phase == Phase::Stopped,
            final(self).exchange == old(self).exchange,
    {
        self.phase = Phase::Stopped;
    }

    /// The heartbeat check, run after each frame and whenever a read
    /// times out: a ping when the feed has been idle for the interval.
    pub fn check_idle(&mut self, now_ms: u64) -> (r: Option<Outbound>)
        ensures
            final(self).phase == old(self).phase,
            final(self).exchange == old(self).exchange,
            final(self).channel == old(self).channel,
            old(self).phase == Phase::Streaming && old(self).liveness.due(now_ms) ==> {
                &&& r matches Some(Outbound::Ping(p)) && p@ == "ping".spec_bytes()
                &&& final(self).liveness == old(self).liveness.touched(now_ms)
            },
            !(old(self).phase == Phase::Streaming && old(self).liveness.due(now_ms)) ==> {
                &&& r is None
                &&& final(self).liveness == old(self).liveness
            },
    {
        match self.phase {
            Phase::Streaming => {
                if self.liveness.poll(now_ms) {
                    let mut p: Vec<u8> = Vec::new();
                    push_text(&mut p, "ping");
                    Some(Outbound::Ping(p))
                } else {
                    None
                }
            },
            _ => None,
        }
    }

    /// Handles one frame read at `now_ms` while streaming: answers pings,
    /// records subscription acknowledgements, and turns ticker payloads
    /// into quotes and their points (which restarts the idle timer).
    /// Anything that does not decode or normalize is discarded.
    pub fn on_frame(&mut self, frame: Frame, now_ms: u64) -> (r: FrameOutcome)
        ensures
            final(self).phase == old(self).phase,
            final(self).exchange == old(self).exchange,
            final(self).liveness.interval_ms == old(self).liveness.interval_ms,
            old(self).phase != Phase::Streaming ==> *final(self) == *old(self) && r.reply is None
                && r.quote is None && r.writes@.len() == 0 && r.kind is None && r.rejected is None,
            old(self).phase == Phase::Streaming ==> r.kind == frame_kind(old(self).exchange, old(self).channel, frame)
                && r.rejected == frame_rejection(old(self).exchange, old(self).channel, frame, now_ms),
            old(self).phase == Phase::Streaming ==> match frame {
                Frame::Ping(p) => r.reply == Some(Outbound::Pong(p)) && r.quote is None
                    && r.writes@.len() == 0 && *final(self) == *old(self),
                Frame::Pong(_) => r.reply is None && r.quote is None && r.writes@.len() == 0
                    && *final(self) == *old(self),
                _ => match message_of(old(self).exchange, frame) {
                    None => r.reply is None && r.quote is None && r.writes@.len() == 0
                        && *final(self) == *old(self),
                    Some(m) => match classified(old(self).exchange, m, old(self).channel) {
                        Inbound::Ticker => r.reply is None && final(self).channel == old(self).channel
                            && match normalized(old(self).exchange, m, now_ms) {
                            Ok(q) => r.quote == Some(q) && r.writes@ == quote_points(q)
                                && final(self).liveness == old(self).liveness.touched(now_ms),
                            Err(_) => r.quote is None && r.writes@.len() == 0
                                && final(self).liveness == old(self).liveness,
                        },
                        Inbound::Subscribed(c) => r.reply is None && r.quote is None
                            && r.writes@.len() == 0 && final(self).liveness == old(self).liveness
                            && final(self).channel == (if c is Some {
                            c
                        } else {
                            old(self).channel
                        }),
                        Inbound::InbandPing => r.quote is None && r.writes@.len() == 0
                            && *final(self) == *old(self) && match pong_text(old(self).exchange, m) {
                            Some(t) => r.reply matches Some(Outbound::Text(v)) && v@ == t,
                            None => r.reply is None,
                        },
                        _ => r.reply is None && r.quote is None && r.writes@.len() == 0
                            && *final(self) == *old(self),
                    },
                },
            },
    {
        let nothing = FrameOutcome { reply: None, quote: None, writes: Vec::new(), kind: None, rejected: None };
        if self.phase != Phase::Streaming {
            return nothing;
        }
        let message = match frame {
            Frame::Ping(p) => {
                return FrameOutcome {
                    reply: Some(Outbound::Pong(p)),
                    quote: None,
                    writes: Vec::new(),
                    kind: None,
                    rejected: None,
                };
            },
            Frame::Pong(_) => {
                return nothing;
            },
            _ => match decode(self.exchange, frame) {
                Some(m) => m,
                None => {
                    return nothing;
                },
            },
        };
        let kind = classify(self.exchange, &message, self.channel);
        let quiet = FrameOutcome { reply: None, quote: None, writes: Vec::new(), kind: Some(kind), rejected: None };
        match kind {
            Inbound::Ticker => match normalize(self.exchange, &message, now_ms) {
                Ok(q) => {
                    self.liveness.last_activity = now_ms;
                    FrameOutcome {
                        reply: None,
                        quote: Some(q),
                        writes: quote_writes(&q),
                        kind: Some(kind),
                        rejected: None,
                    }
                },
                Err(e) => FrameOutcome {
                    reply: None,
                    quote: None,
                    writes: Vec::new(),
                    kind: Some(kind),
                    rejected: Some(e),
                },
            },
            Inbound::Subscribed(c) => {
                if c.is_some() {
                    self.channel = c;
                }
                quiet
            },
            Inbound::InbandPing => match pong_reply(self.exchange, &message) {
                Some(t) => FrameOutcome {
                    reply: Some(Outbound::Text(t)),
                    quote: None,
                    writes: Vec::new(),
                    kind: Some(kind),
                    rejected: None,
                },
                None => quiet,
            },
            _ => quiet,
        }
    }
}

} // verus!
