//! Connection state machine: the decisions of one live stream, from
//! connect through authenticate, subscribe and stream to close and
//! reconnect with backoff. The machine maps each observed event to the
//! next state and the actions to perform; the surrounding driver owns the
//! transport and performs them.

use crate::config::{ws_url_of, Mt5Config};
use crate::depth::{apply_levels, side_map, DepthCache, DepthUpdate};
use crate::json::{
    auth_request_of, build_auth_request, build_ping_request, build_subscribe_request,
    ping_request_of, subscribe_request_of,
};
use crate::types::{Event, Exchange, TickerInfo, Trade};
use crate::wire::InboundMsg;
use vstd::prelude::*;

verus! {

/// Where a stream stands.
#[derive(Debug, Clone, Copy, PartialEq, Eq, Structural)]
pub enum Phase {
    /// Waiting for the transport to open.
    Connecting,
    /// Auth request sent; waiting for the `auth_response`.
    Authenticating,
    /// Steady state: subscribed and reading frames.
    Streaming,
    /// Disconnected with auto-reconnect on; waiting out the backoff delay.
    BackingOff,
    /// Disconnected with auto-reconnect off; the stream is over.
    Stopped,
}

/// What the driver observed.
#[derive(Debug, Clone, PartialEq)]
pub enum StreamEvent {
    /// The transport connection was established.
    Opened,
    /// A text frame arrived, already decoded.
    Frame(InboundMsg),
    /// The server closed the connection cleanly.
    TransportClosed,
    /// The transport failed, with a description.
    TransportFailed(String),
    /// Connection establishment or the auth wait timed out.
    TimedOut,
    /// The backoff delay elapsed.
    SleepDone,
}

/// What the driver must do next.
#[derive(Debug, Clone, PartialEq)]
pub enum StreamAction {
    /// Open the transport to this URL.
    Connect(String),
    /// Send this text frame.
    SendText(String),
    /// Emit this event to the consumer.
    Emit(Event),
    /// Wait this many seconds, then report `SleepDone`.
    Sleep(u64),
    /// End the stream and release the transport.
    Stop,
}

/// The delay after one more consecutive failure: doubled, capped at
/// sixty seconds.
pub open spec fn next_backoff(d: nat) -> nat {
    if 2 * d >= 60 {
        60
    } else {
        2 * d
    }
}

/// The backoff delay in seconds before retry `n`, starting at one second.
pub open spec fn backoff_at(n: nat) -> nat
    decreases n,
{
    if n == 0 {
        1
    } else {
        next_backoff(backoff_at((n - 1) as nat))
    }
}

/// Two to a small natural power.
pub open spec fn pow2_small(n: nat) -> nat
    decreases n,
{
    if n == 0 {
        1
    } else {
        2 * pow2_small((n - 1) as nat)
    }
}

/// Law: the backoff delays for consecutive failures double from one
/// second and cap at sixty — 1, 2, 4, 8, 16, 32, 60, 60, …
pub proof fn lemma_backoff_sequence(n: nat)
    ensures
        backoff_at(n) == if n < 6 {
            pow2_small(n)
        } else {
            60
        },
    decreases n,
{
    lemma_pow2_small_vals();
    if n > 0 {
        lemma_backoff_sequence((n - 1) as nat);
    }
}

proof fn lemma_pow2_small_vals()
    ensures
        pow2_small(0) == 1,
        pow2_small(1) == 2,
        pow2_small(2) == 4,
        pow2_small(3) == 8,
        pow2_small(4) == 16,
        pow2_small(5) == 32,
{
    assert(pow2_small(0) == 1);
    assert(pow2_small(1) == 2);
    assert(pow2_small(2) == 4);
    assert(pow2_small(3) == 8);
    assert(pow2_small(4) == 16);
    assert(pow2_small(5) == 32);
}

/// The decisions and owned state of one live stream: the phase, the
/// reconstructed book, the trade buffer, and the backoff delay. The
/// backoff is scoped to this machine's lifetime: it resets only when a
/// fresh machine is made.
#[derive(Debug, Clone)]
pub struct StreamMachine {
    pub phase: Phase,
    pub cache: DepthCache,
    /// Trades received since the last depth emission; drained, all at
    /// once, into the next `DepthReceived` event.
    pub trades: Vec<Trade>,
    /// Seconds to wait before the next reconnect attempt.
    pub delay_secs: u64,
    pub config: Mt5Config,
    pub info: TickerInfo,
}

/// Drains the trade buffer: hands its contents out and leaves it empty.
fn take_trades(v: &mut Vec<Trade>) -> (r: Vec<Trade>)
    ensures
        r@ == old(v)@,
        final(v)@.len() == 0,
{
    let n = v.len();
    let mut r: Vec<Trade> = Vec::new();
    let mut i: usize = 0;
    while i < n
        invariant
            i <= n,
            n == v@.len(),
            v@ == old(v)@,
            r@ =~= v@.take(i as int),
        decreases n - i,
    {
        r.push(v[i]);
        proof {
            assert(v@.take(i + 1) =~= v@.take(i as int).push(v@[i as int]));
        }
        i = i + 1;
    }
    proof {
        assert(v@.take(n as int) =~= v@);
    }
    v.clear();
    r
}

/// Whether an action emits a `Disconnected` event with this reason.
pub open spec fn is_emit_disconnected(a: StreamAction, reason: Seq<char>) -> bool {
    match a {
        StreamAction::Emit(Event::Disconnected(ex, m)) => ex == Exchange::MetaTrader5 && m@
            == reason,
        _ => false,
    }
}

/// The shared shape of every transition out to `Disconnected`: the event
/// is emitted with its reason; with auto-reconnect on, the machine backs
/// off for the current delay and doubles it (capped) for the next
/// failure; with it off, the machine stops.
pub open spec fn disconnect_step(
    pre: StreamMachine,
    post: StreamMachine,
    acts: Seq<StreamAction>,
    reason: Seq<char>,
) -> bool {
    &&& post.config == pre.config
    &&& post.info == pre.info
    &&& post.cache == pre.cache
    &&& post.trades == pre.trades
    &&& acts.len() == 2
    &&& is_emit_disconnected(acts[0], reason)
    &&& if pre.config.auto_reconnect {
        &&& post.phase == Phase::BackingOff
        &&& acts[1] == StreamAction::Sleep(pre.delay_secs)
        &&& post.delay_secs == next_backoff(pre.delay_secs as nat)
    } else {
        &&& post.phase == Phase::Stopped
        &&& acts[1] == StreamAction::Stop
        &&& post.delay_secs == pre.delay_secs
    }
}

/// Nothing observable happened: state and actions unchanged.
pub open spec fn silent_step(pre: StreamMachine, post: StreamMachine, acts: Seq<StreamAction>,) -> bool {
    post == pre && acts.len() == 0
}

impl StreamMachine {
    /// The machine's invariant: a well-formed cache, a delay within the
    /// backoff band, and a positive tick size.
    pub open spec fn wf(&self) -> bool {
        self.cache.wf() && 1 <= self.delay_secs <= 60 && self.info.min_ticksize >= 1
    }

    /// A fresh machine for one stream invocation: connecting, with an
    /// empty book and trade buffer and the backoff at its initial second.
    pub fn new(config: Mt5Config, info: TickerInfo) -> (r: StreamMachine)
        requires
            info.min_ticksize >= 1,
        ensures
            r.wf(),
            r.phase == Phase::Connecting,
            r.cache.bids@.len() == 0,
            r.cache.asks@.len() == 0,
            !r.cache.has_snapshot,
            r.trades@.len() == 0,
            r.delay_secs == 1,
            r.config == config,
            r.info == info,
    {
        StreamMachine {
            phase: Phase::Connecting,
            cache: DepthCache::new(),
            trades: Vec::new(),
            delay_secs: 1,
            config,
            info,
        }
    }

    /// The first action of a stream: open the transport to the
    /// configured endpoint.
    pub fn initial_action(&self) -> (r: StreamAction)
        ensures
            r matches StreamAction::Connect(u) && u@ == ws_url_of(
                self.config.use_tls,
                self.config.server_addr@,
            ),
    {
        StreamAction::Connect(self.config.ws_url())
    }

    /// The transport opened: send the signed auth request and wait for
    /// the response.
    fn on_opened(&mut self, now_ms: u64) -> (acts: Vec<StreamAction>)
        requires
            old(self).wf(),
        ensures
            final(self).wf(),
            *final(self) == (StreamMachine { phase: Phase::Authenticating, ..*old(self) }),
            acts@.len() == 1,
            acts@[0] matches StreamAction::SendText(t) && t@ == auth_request_of(
                old(self).config.api_key@,
                now_ms,
                old(self).config.api_secret@,
            ),
    {
        self.phase = Phase::Authenticating;
        let req = build_auth_request(
            self.config.api_key.as_str(),
            now_ms,
            self.config.api_secret.as_str(),
        );
        let mut acts: Vec<StreamAction> = Vec::new();
        acts.push(StreamAction::SendText(req));
        acts
    }

    /// Whether a phase holds a live connection attempt.
    pub open spec fn live_phase(p: Phase) -> bool {
        p == Phase::Connecting || p == Phase::Authenticating || p == Phase::Streaming
    }

    /// Drives the machine by one observed event. The returned actions are
    /// what the driver must perform, in order.
    ///
    /// Trades buffered while streaming are drained, all together and
    /// exactly once, into the `DepthReceived` event of the next accepted
    /// depth frame, and the buffer is empty immediately after.
    pub fn step(&mut self, ev: StreamEvent, now_ms: u64) -> (acts: Vec<StreamAction>)
        requires
            old(self).wf(),
        ensures
            final(self).wf(),
            final(self).config == old(self).config,
            final(self).info == old(self).info,
            match ev {
                StreamEvent::Opened => if old(self).phase == Phase::Connecting {
                    *final(self) == (StreamMachine {
                        phase: Phase::Authenticating,
                        ..*old(self)
                    }) && acts@.len() == 1 && (acts@[0] matches StreamAction::SendText(t) && t@
                        == auth_request_of(
                        old(self).config.api_key@,
                        now_ms,
                        old(self).config.api_secret@,
                    ))
                } else {
                    silent_step(*old(self), *final(self), acts@)
                },
                StreamEvent::Frame(msg) => if old(self).phase == Phase::Authenticating {
                    match msg {
                        InboundMsg::AuthResponse { success, error } => if success {
                            *final(self) == (StreamMachine { phase: Phase::Streaming, ..*old(self) })
                                && acts@.len() == 2 && (acts@[0] matches StreamAction::SendText(t)
                                && t@ == subscribe_request_of(old(self).info.ticker.symbol@)) && acts@[1]
                                == StreamAction::Emit(Event::Connected(Exchange::MetaTrader5))
                        } else {
                            disconnect_step(
                                *old(self),
                                *final(self),
                                acts@,
                                match error {
                                    Some(e) => e@,
                                    None => "Auth failed"@,
                                },
                            )
                        },
                        InboundMsg::Malformed => disconnect_step(
                            *old(self),
                            *final(self),
                            acts@,
                            "Invalid auth response"@,
                        ),
                        _ => silent_step(*old(self), *final(self), acts@),
                    }
                } else if old(self).phase == Phase::Streaming {
                    match msg {
                        InboundMsg::TradeMsg(t) => {
                            &&& final(self).phase == old(self).phase
                            &&& final(self).cache == old(self).cache
                            &&& final(self).delay_secs == old(self).delay_secs
                            &&& final(self).trades@ == old(self).trades@.push(t)
                            &&& acts@.len() == 0
                        },
                        InboundMsg::DepthMsg(p) => if old(self).cache.accepts(
                            &DepthUpdate::Snapshot(p),
                        ) {
                            &&& final(self).phase == Phase::Streaming
                            &&& final(self).delay_secs == old(self).delay_secs
                            &&& side_map(final(self).cache.bids@) == apply_levels(
                                Map::empty(),
                                p.bids@,
                            )
                            &&& side_map(final(self).cache.asks@) == apply_levels(
                                Map::empty(),
                                p.asks@,
                            )
                            &&& final(self).cache.last_update_id == p.last_update_id
                            &&& final(self).cache.time == p.time
                            &&& final(self).cache.has_snapshot
                            &&& final(self).trades@.len() == 0
                            &&& acts@.len() == 1
                            &&& (acts@[0] matches StreamAction::Emit(
                                Event::DepthReceived(info, t, b, a, tr),
                            ) && {
                                &&& info.ticker.symbol@ == old(self).info.ticker.symbol@
                                &&& info.ticker.exchange == old(self).info.ticker.exchange
                                &&& info.min_ticksize == old(self).info.min_ticksize
                                &&& info.min_lot == old(self).info.min_lot
                                &&& info.contract_size == old(self).info.contract_size
                                &&& t == p.time
                                &&& b@ == final(self).cache.bids@
                                &&& a@ == final(self).cache.asks@
                                &&& tr@ == old(self).trades@
                            })
                        } else {
                            silent_step(*old(self), *final(self), acts@)
                        },
                        InboundMsg::Heartbeat => *final(self) == *old(self) && acts@.len() == 1 && (
                        acts@[0] matches StreamAction::SendText(t) && t@ == ping_request_of(now_ms)),
                        _ => silent_step(*old(self), *final(self), acts@),
                    }
                } else {
                    silent_step(*old(self), *final(self), acts@)
                },
                StreamEvent::TransportClosed => if old(self).phase == Phase::Authenticating {
                    disconnect_step(*old(self), *final(self), acts@, "No auth response received"@)
                } else if Self::live_phase(old(self).phase) {
                    disconnect_step(*old(self), *final(self), acts@, "Connection closed"@)
                } else {
                    silent_step(*old(self), *final(self), acts@)
                },
                StreamEvent::TransportFailed(e) => if Self::live_phase(old(self).phase) {
                    disconnect_step(*old(self), *final(self), acts@, e@)
                } else {
                    silent_step(*old(self), *final(self), acts@)
                },
                StreamEvent::TimedOut => if old(self).phase == Phase::Connecting {
                    disconnect_step(*old(self), *final(self), acts@, "Connection timeout"@)
                } else if old(self).phase == Phase::Authenticating {
                    disconnect_step(*old(self), *final(self), acts@, "Auth response timeout"@)
                } else {
                    silent_step(*old(self), *final(self), acts@)
                },
                StreamEvent::SleepDone => if old(self).phase == Phase::BackingOff {
                    &&& final(self).phase == Phase::Connecting
                    &&& final(self).delay_secs == old(self).delay_secs
                    &&& final(self).cache.bids@.len() == 0
                    &&& final(self).cache.asks@.len() == 0
                    &&& !final(self).cache.has_snapshot
                    &&& final(self).trades@.len() == 0
                    &&& acts@.len() == 1
                    &&& (acts@[0] matches StreamAction::Connect(u) && u@ == ws_url_of(
                        old(self).config.use_tls,
                        old(self).config.server_addr@,
                    ))
                } else {
                    silent_step(*old(self), *final(self), acts@)
                },
            },
    {
        match ev {
            StreamEvent::Opened => {
                if self.phase == Phase::Connecting {
                    self.on_opened(now_ms)
                } else {
                    Vec::new()
                }
            },
            StreamEvent::Frame(msg) => {
                if self.phase == Phase::Authenticating {
                    match msg {
                        InboundMsg::AuthResponse { success, error } => {
                            if success {
                                self.phase = Phase::Streaming;
                                let sub = build_subscribe_request(
                                    self.info.ticker.symbol.as_str(),
                                );
                                let mut acts: Vec<StreamAction> = Vec::new();
                                acts.push(StreamAction::SendText(sub));
                                acts.push(
                                    StreamAction::Emit(Event::Connected(Exchange::MetaTrader5)),
                                );
                                acts
                            } else {
                                let reason = match error {
                                    Some(e) => e,
                                    None => "Auth failed".to_owned(),
                                };
                                self.on_disconnect(reason)
                            }
                        },
                        InboundMsg::Malformed => {
                            self.on_disconnect("Invalid auth response".to_owned())
                        },
                        _ => Vec::new(),
                    }
                } else if self.phase == Phase::Streaming {
                    match msg {
                        InboundMsg::TradeMsg(t) => {
                            self.trades.push(t);
                            Vec::new()
                        },
                        InboundMsg::DepthMsg(p) => {
                            let accepted = !self.cache.has_snapshot || p.last_update_id
                                > self.cache.last_update_id;
                            self.cache.update(DepthUpdate::Snapshot(p));
                            if accepted {
                                let (b, a) = self.cache.book();
                                let drained = take_trades(&mut self.trades);
                                let mut acts: Vec<StreamAction> = Vec::new();
                                acts.push(
                                    StreamAction::Emit(
                                        Event::DepthReceived(
                                            self.info.duplicate(),
                                            self.cache.time,
                                            b,
                                            a,
                                            drained,
                                        ),
                                    ),
                                );
                                acts
                            } else {
                                Vec::new()
                            }
                        },
                        InboundMsg::Heartbeat => {
                            let mut acts: Vec<StreamAction> = Vec::new();
                            acts.push(StreamAction::SendText(build_ping_request(now_ms)));
                            acts
                        },
                        _ => Vec::new(),
                    }
                } else {
                    Vec::new()
                }
            },
            StreamEvent::TransportClosed => {
                if self.phase == Phase::Authenticating {
                    // a close before any auth response is its own failure
                    self.on_disconnect("No auth response received".to_owned())
                } else if self.phase == Phase::Connecting || self.phase == Phase::Streaming {
                    self.on_disconnect("Connection closed".to_owned())
                } else {
                    Vec::new()
                }
            },
            StreamEvent::TransportFailed(e) => {
                if self.phase == Phase::Connecting || self.phase == Phase::Authenticating
                    || self.phase == Phase::Streaming {
                    self.on_disconnect(e)
                } else {
                    Vec::new()
                }
            },
            StreamEvent::TimedOut => {
                if self.phase == Phase::Connecting {
                    self.on_disconnect("Connection timeout".to_owned())
                } else if self.phase == Phase::Authenticating {
                    self.on_disconnect("Auth response timeout".to_owned())
                } else {
                    Vec::new()
                }
            },
            StreamEvent::SleepDone => {
                if self.phase == Phase::BackingOff {
                    self.phase = Phase::Connecting;
                    self.cache = DepthCache::new();
                    self.trades = Vec::new();
                    let mut acts: Vec<StreamAction> = Vec::new();
                    acts.push(StreamAction::Connect(self.config.ws_url()));
                    acts
                } else {
                    Vec::new()
                }
            },
        }
    }

    /// A terminal transition out to `Disconnected`.
    fn on_disconnect(&mut self, reason: String) -> (acts: Vec<StreamAction>)
        requires
            old(self).wf(),
        ensures
            final(self).wf(),
            disconnect_step(*old(self), *final(self), acts@, reason@),
    {
        let mut acts: Vec<StreamAction> = Vec::new();
        acts.push(StreamAction::Emit(Event::Disconnected(Exchange::MetaTrader5, reason)));
        if self.config.auto_reconnect {
            self.phase = Phase::BackingOff;
            acts.push(StreamAction::Sleep(self.delay_secs));
            self.delay_secs = if self.delay_secs >= 30 {
                60
            } else {
                2 * self.delay_secs
            };
        } else {
            self.phase = Phase::Stopped;
            acts.push(StreamAction::Stop);
        }
        acts
    }
}

} // verus!
