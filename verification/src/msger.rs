//! Session (`Messager`): the connection-owning state machine.
//!
//! The session is modelled as a pure machine over plain values. Each of the
//! original concurrently-scheduled activities — reader, parser (or direct
//! recv), sender, checker — maps to one step function here, from state and
//! event to next state and effects. The surrounding runtime reads the socket
//! and the clock, awaits the queue, spawns handlers, and carries out the
//! effects each step decides on; every decision itself is made, and proved,
//! in this module.

use vstd::prelude::*;
use vstd::utf8::{is_ascii_chars, is_ascii_chars_encode_utf8};

use crate::buffer::{buffered_frame, has_complete_frame, PullOutcome, StreamBuf, StreamBufV};
use crate::codec::{decode, encode, frame_ok, sendable, spec_decode, spec_encode, spec_frame_len};
use crate::errors::Error;
use crate::msg::{Message, MessageV, Messages, MessagesV};
use crate::queue::{OutQueue, OutQueueV, RecvOutcome, TrySendOutcome};
use crate::timer::{elapsed, Timer, TimerV};

verus! {

/// Heartbeat send cadence of a client-role session, in milliseconds.
pub const INTERVAL_MS: u64 = 20_000;

/// Liveness deadline: with no heartbeat for this long the peer is presumed
/// dead, in milliseconds.
pub const TIMEOUT_MS: u64 = 30_000;

/// Cadence at which the runtime drives the checker, in milliseconds.
pub const CHECK_TICK_MS: u64 = 100;

/// Bound on the checker's heartbeat enqueue wait, in milliseconds.
pub const HEART_SEND_TMOUT_MS: u64 = 3_000;

/// Bound on one health-hook invocation, in milliseconds.
pub const ON_CHECK_TMOUT_MS: u64 = 5_000;

/// Grace delay between an interrupted handler and cancellation, in
/// milliseconds.
pub const INTERRUPT_GRACE_MS: u64 = 200;

/// The heartbeat frame: control zero, command `"heart"`, nothing else.
pub open spec fn heart_msg() -> MessagesV {
    MessagesV {
        control: 0,
        cmds: Some("heart"@),
        heads: None,
        bodys: None,
        bodybuf: None,
    }
}

/// A queue after one best-effort heartbeat enqueue: the heartbeat joins the
/// tail when there is room, and is silently dropped when the queue is closed
/// or full.
pub open spec fn heart_try(q: OutQueueV) -> OutQueueV {
    if !q.closed && q.items.len() < q.cap {
        OutQueueV { items: q.items.push(heart_msg()), cap: q.cap, closed: q.closed }
    } else {
        q
    }
}

/// Whether a best-effort heartbeat enqueue on `q` succeeds.
pub open spec fn heart_fits(q: OutQueueV) -> bool {
    !q.closed && q.items.len() < q.cap
}

/// Mathematical model of a session.
pub struct MessagerV {
    /// Latched by the first `stop`.
    pub shuted: bool,
    /// The cancellation scope's state; latched, observed by every loop.
    pub canceled: bool,
    /// Server role: replies to heartbeats, never initiates them.
    pub is_serv: bool,
    /// Ingest mode: byte assembly when set, whole-frame reads otherwise.
    pub stream_mode: bool,
    /// Interval timer for the client's heartbeat cadence.
    pub ctms: TimerV,
    /// Timeout timer for the liveness deadline.
    pub ctmout: TimerV,
    /// The outbound queue.
    pub queue: OutQueueV,
    /// The stream assembler.
    pub buf: StreamBufV,
}

/// Every queued message fits the wire format, and the queue respects its
/// bound. Constructors establish this and every step preserves it.
pub open spec fn inv(s: MessagerV) -> bool {
    &&& s.queue.items.len() <= s.queue.cap
    &&& s.queue.cap >= 1
    &&& forall|i: int| 0 <= i < s.queue.items.len() ==> sendable(#[trigger] s.queue.items[i])
}

/// The state `stop` leaves behind, and whether this call is the one that
/// shuts the socket down.
pub open spec fn spec_stop(s: MessagerV) -> (MessagerV, bool) {
    if s.shuted {
        (s, false)
    } else {
        (
            MessagerV {
                shuted: true,
                canceled: true,
                is_serv: s.is_serv,
                stream_mode: s.stream_mode,
                ctms: s.ctms,
                ctmout: s.ctmout,
                queue: OutQueueV { items: s.queue.items, cap: s.queue.cap, closed: true },
                buf: StreamBufV { data: s.buf.data, closed: true },
            },
            true,
        )
    }
}

/// The state after dispatching one decoded message at instant `now`, and
/// the message handed on to the application handler, if any.
pub open spec fn spec_on_msg(s: MessagerV, m: MessageV, now: u64) -> (MessagerV, Option<
    MessageV,
>) {
    if m.control == 0 {
        (
            MessagerV {
                ctmout: TimerV { dur: s.ctmout.dur, last: now },
                queue: if s.is_serv {
                    heart_try(s.queue)
                } else {
                    s.queue
                },
                ..s
            },
            None,
        )
    } else {
        (s, Some(m))
    }
}

/// The state after one checker tick at instant `now`, with what the tick
/// decided: whether the liveness deadline fired, whether a heartbeat was
/// queued or dropped, and whether the health hook should run.
pub open spec fn spec_check_tick(s: MessagerV, now: u64) -> (MessagerV, CheckEffects) {
    if elapsed(s.ctmout, now) {
        (
            MessagerV { canceled: true, ..s },
            CheckEffects {
                timed_out: true,
                heart_queued: false,
                heart_dropped: false,
                do_on_check: false,
            },
        )
    } else if !s.is_serv && elapsed(s.ctms, now) {
        (
            MessagerV {
                ctms: TimerV { dur: s.ctms.dur, last: now },
                queue: heart_try(s.queue),
                ..s
            },
            CheckEffects {
                timed_out: false,
                heart_queued: heart_fits(s.queue),
                heart_dropped: !heart_fits(s.queue),
                do_on_check: true,
            },
        )
    } else {
        (
            s,
            CheckEffects {
                timed_out: false,
                heart_queued: false,
                heart_dropped: false,
                do_on_check: true,
            },
        )
    }
}

/// What one checker tick decided.
pub struct CheckEffects {
    pub timed_out: bool,
    pub heart_queued: bool,
    pub heart_dropped: bool,
    pub do_on_check: bool,
}

/// What `stop` decided.
pub struct StopEffects {
    /// True exactly when this call must shut the socket down — at most one
    /// call ever carries it.
    pub shutdown_socket: bool,
}

/// One ingestion step's outcome.
pub enum ParseOutcome {
    /// Not enough bytes for a frame; the reader must deliver more.
    Pending,
    /// A heartbeat frame, consumed by the session itself.
    Heart,
    /// An application frame, to be handled on its own scheduled unit.
    Dispatch(Message),
    /// The session canceled itself: assembler closed out of frames, or an
    /// unrecoverable parse error.
    Stopped(Error),
}

/// One sender step's outcome.
pub enum SendStep {
    /// The wire image of the next queued message, to be written to the
    /// socket.
    Write(Vec<u8>),
    /// Queue open but empty; the sender waits.
    Pending,
    /// Queue closed and drained: the sender loop ends and the session
    /// cancels itself.
    Stopped,
}

/// The wire images of a message sequence, in order.
pub open spec fn encode_all(items: Seq<MessagesV>) -> Seq<u8>
    decreases items.len(),
{
    if items.len() == 0 {
        Seq::empty()
    } else {
        spec_encode(items.first()) + encode_all(items.drop_first())
    }
}

/// The session state machine.
pub struct Messager {
    shuted: bool,
    canceled: bool,
    is_serv: bool,
    stream_mode: bool,
    ctms: Timer,
    ctmout: Timer,
    queue: OutQueue,
    buf: StreamBuf,
}

impl View for Messager {
    type V = MessagerV;

    closed spec fn view(&self) -> MessagerV {
        MessagerV {
            shuted: self.shuted,
            canceled: self.canceled,
            is_serv: self.is_serv,
            stream_mode: self.stream_mode,
            ctms: self.ctms@,
            ctmout: self.ctmout@,
            queue: self.queue@,
            buf: self.buf@,
        }
    }
}

/// The heartbeat frame as a value.
pub fn heartbeat() -> (m: Messages)
    ensures
        m@ == heart_msg(),
        sendable(m@),
{
    let cmds: String = "heart".to_owned();
    let m = Messages { control: 0, cmds: Some(cmds), heads: None, bodys: None, bodybuf: None };
    proof {
        reveal_strlit("heart");
        assert(is_ascii_chars("heart"@)) by {
            assert(forall|i: int| 0 <= i < 5 ==> '\0' <= #[trigger] "heart"@[i] <= '\u{7f}');
        }
        is_ascii_chars_encode_utf8("heart"@);
    }
    m
}

impl Messager {
    /// A fresh session over a just-accepted or just-connected socket: not
    /// shut, not canceled, client role until `start`, queue bounded at
    /// `sndbufln` (zero meaning the default bound), both timers at their
    /// standard durations, assembler empty.
    pub fn new(sndbufln: usize) -> (c: Self)
        ensures
            !c@.shuted,
            !c@.canceled,
            !c@.is_serv,
            !c@.stream_mode,
            c@.ctms == (TimerV { dur: INTERVAL_MS, last: 0 }),
            c@.ctmout == (TimerV { dur: TIMEOUT_MS, last: 0 }),
            c@.queue.items.len() == 0,
            !c@.queue.closed,
            c@.queue.cap == if sndbufln > 0 {
                sndbufln as nat
            } else {
                crate::queue::DEFAULT_SNDBUF as nat
            },
            c@.buf.data.len() == 0,
            !c@.buf.closed,
            inv(c@),
    {
        Messager {
            shuted: false,
            canceled: false,
            is_serv: false,
            stream_mode: false,
            ctms: Timer::new(INTERVAL_MS),
            ctmout: Timer::new(TIMEOUT_MS),
            queue: OutQueue::new(sndbufln),
            buf: StreamBuf::new(),
        }
    }

    /// Whether the cancellation scope has concluded: every loop exits at its
    /// next suspension point once this holds.
    pub fn done(&self) -> (d: bool)
        ensures
            d == self@.canceled,
    {
        self.canceled
    }

    /// Whether the session has shut down.
    pub fn is_shut(&self) -> (s: bool)
        ensures
            s == self@.shuted,
    {
        self.shuted
    }

    /// Cancels the session's scope; latched, also reached by canceling the
    /// parent scope. Loops observe it cooperatively.
    pub fn cancel(&mut self)
        ensures
            final(self)@ == (MessagerV { canceled: true, ..old(self)@ }),
    {
        self.canceled = true;
    }

    /// Entry point's prologue: records the role and ingest mode and starts
    /// the liveness deadline counting from `now`.
    pub fn start(&mut self, servs: bool, stream_mode: bool, now: u64)
        ensures
            final(self)@ == (MessagerV {
                is_serv: servs,
                stream_mode,
                ctmout: TimerV { dur: old(self)@.ctmout.dur, last: now },
                ..old(self)@
            }),
    {
        self.is_serv = servs;
        self.stream_mode = stream_mode;
        self.ctmout.reset(now);
    }

    /// Stops the session: idempotent through the shut flag. The first call
    /// cancels the scope, closes the assembler and the queue, and instructs
    /// the caller to shut the socket down in both directions; every later
    /// call is a successful no-op.
    pub fn stop(&mut self) -> (r: StopEffects)
        ensures
            (final(self)@, r.shutdown_socket) == spec_stop(old(self)@),
            final(self)@.shuted,
            old(self)@.canceled ==> final(self)@.canceled,
            inv(old(self)@) ==> inv(final(self)@),
    {
        if self.shuted {
            return StopEffects { shutdown_socket: false };
        }
        self.shuted = true;
        self.canceled = true;
        self.buf.close();
        self.queue.close();
        StopEffects { shutdown_socket: true }
    }

    /// Enqueues an outbound message. Fails with the message handed back once
    /// the session is shutting down (`Closed`) or as back-pressure when the
    /// bounded queue is full (`Full`); the caller then waits for the sender
    /// loop to drain and retries.
    pub fn send(&mut self, mv: Messages) -> (r: TrySendOutcome)
        requires
            sendable(mv@),
        ensures
            old(self)@.queue.closed ==> (r matches TrySendOutcome::Closed(g) && g@ == mv@)
                && final(self)@ == old(self)@,
            !old(self)@.queue.closed && old(self)@.queue.items.len() >= old(self)@.queue.cap
                ==> (r matches TrySendOutcome::Full(g) && g@ == mv@) && final(self)@ == old(self)@,
            !old(self)@.queue.closed && old(self)@.queue.items.len() < old(self)@.queue.cap
                ==> r is Sent && final(self)@ == (MessagerV {
                queue: OutQueueV {
                    items: old(self)@.queue.items.push(mv@),
                    cap: old(self)@.queue.cap,
                    closed: false,
                },
                ..old(self)@
            }),
            inv(old(self)@) ==> inv(final(self)@),
    {
        self.queue.try_send(mv)
    }

    /// Dispatches one decoded inbound message at instant `now`. A heartbeat
    /// (control zero) resets the liveness deadline whatever the role, and in
    /// server role makes one best-effort acknowledgement enqueue; any other
    /// control hands the message back for the application handler.
    pub fn on_msg(&mut self, msg: Message, now: u64) -> (r: Option<Message>)
        ensures
            (final(self)@, match r {
                Some(d) => Some(d@),
                None => None,
            }) == spec_on_msg(old(self)@, msg@, now),
            inv(old(self)@) ==> inv(final(self)@),
    {
        if msg.control == 0 {
            self.ctmout.reset(now);
            if self.is_serv {
                let ghost qbefore = self@.queue;
                let ack = heartbeat();
                let _ = self.queue.try_send(ack);
                proof {
                    assert(self@.queue == heart_try(qbefore));
                }
            }
            None
        } else {
            Some(msg)
        }
    }

    /// Records the outcome of an application handler: a handler error
    /// classified as interrupted cancels the session (after the runtime's
    /// grace delay); any other outcome changes nothing.
    pub fn handler_result(&mut self, interrupted: bool)
        ensures
            final(self)@ == (MessagerV {
                canceled: old(self)@.canceled || interrupted,
                ..old(self)@
            }),
    {
        if interrupted {
            self.canceled = true;
        }
    }

    /// Reader step in assembly mode: feeds one chunk the socket read
    /// produced into the assembler. A read of zero bytes is fatal: the
    /// assembler is closed and the parser loop will observe it and cancel.
    pub fn reader_step(&mut self, chunk: Vec<u8>) -> (r: Result<(), Error>)
        ensures
            chunk@.len() == 0 ==> (r matches Err(e) && (e matches Error::IOError(s) && s@
                == "read size=0 err!!"@)) && final(self)@ == (MessagerV {
                buf: StreamBufV { data: old(self)@.buf.data, closed: true },
                ..old(self)@
            }),
            chunk@.len() > 0 && old(self)@.buf.closed ==> (r matches Err(e) && e is ClosedError)
                && final(self)@ == old(self)@,
            chunk@.len() > 0 && !old(self)@.buf.closed ==> r is Ok && final(self)@ == (MessagerV {
                buf: StreamBufV {
                    data: old(self)@.buf.data + chunk@,
                    closed: false,
                },
                ..old(self)@
            }),
            inv(old(self)@) ==> inv(final(self)@),
    {
        if chunk.len() == 0 {
            self.buf.close();
            return Err(Error::IOError("read size=0 err!!".to_owned()));
        }
        self.buf.push(chunk)
    }

    /// Parser step in assembly mode: pulls the next complete frame from the
    /// assembler, decodes it and dispatches it at instant `now`. With no
    /// complete frame it waits, or — once the assembler is closed — cancels
    /// the session; an undecodable frame also cancels it.
    pub fn parser_step(&mut self, now: u64) -> (r: ParseOutcome)
        requires
            inv(old(self)@),
        ensures
            !has_complete_frame(old(self)@.buf.data) && !old(self)@.buf.closed ==> r is Pending
                && final(self)@ == old(self)@,
            !has_complete_frame(old(self)@.buf.data) && old(self)@.buf.closed ==> (r matches
                ParseOutcome::Stopped(e) && e is ClosedError) && final(self)@ == (MessagerV {
                canceled: true,
                ..old(self)@
            }),
            has_complete_frame(old(self)@.buf.data) ==> {
                let f = buffered_frame(old(self)@.buf.data);
                let drained = StreamBufV {
                    data: old(self)@.buf.data.skip(spec_frame_len(old(self)@.buf.data)),
                    closed: old(self)@.buf.closed,
                };
                if !frame_ok(f) {
                    (r matches ParseOutcome::Stopped(e) && e is ParseError) && final(self)@
                        == (MessagerV { canceled: true, buf: drained, ..old(self)@ })
                } else {
                    {
                        let (s2, disp) = spec_on_msg(
                            MessagerV { buf: drained, ..old(self)@ },
                            spec_decode(f),
                            now,
                        );
                        &&& final(self)@ == s2
                        &&& disp is None <==> r is Heart
                        &&& (r matches ParseOutcome::Dispatch(d) ==> disp == Some(d@))
                        &&& disp is Some ==> r is Dispatch
                    }
                }
            },
            inv(final(self)@),
    {
        match self.buf.pull() {
            PullOutcome::Pending => ParseOutcome::Pending,
            PullOutcome::Closed => {
                self.cancel();
                ParseOutcome::Stopped(Error::ClosedError)
            },
            PullOutcome::Frame(f) => {
                match decode(f.as_slice()) {
                    Err(e) => {
                        self.cancel();
                        ParseOutcome::Stopped(e)
                    },
                    Ok(m) => match self.on_msg(m, now) {
                        None => ParseOutcome::Heart,
                        Some(d) => ParseOutcome::Dispatch(d),
                    },
                }
            },
        }
    }

    /// Direct-mode ingestion step: decodes one whole frame the reader
    /// collected and dispatches it at instant `now`. An undecodable frame
    /// cancels the session.
    pub fn recv_step(&mut self, frame: Vec<u8>, now: u64) -> (r: ParseOutcome)
        requires
            inv(old(self)@),
        ensures
            !frame_ok(frame@) ==> (r matches ParseOutcome::Stopped(e) && e is ParseError)
                && final(self)@ == (MessagerV { canceled: true, ..old(self)@ }),
            frame_ok(frame@) ==> {
                let (s2, disp) = spec_on_msg(old(self)@, spec_decode(frame@), now);
                &&& final(self)@ == s2
                &&& disp is None <==> r is Heart
                &&& (r matches ParseOutcome::Dispatch(d) ==> disp == Some(d@))
                &&& disp is Some ==> r is Dispatch
            },
            inv(final(self)@),
    {
        match decode(frame.as_slice()) {
            Err(e) => {
                self.cancel();
                ParseOutcome::Stopped(e)
            },
            Ok(m) => match self.on_msg(m, now) {
                None => ParseOutcome::Heart,
                Some(d) => ParseOutcome::Dispatch(d),
            },
        }
    }

    /// Sender step: takes the oldest queued message and yields its exact
    /// wire image for the socket write. An empty open queue makes the sender
    /// wait; a closed drained queue ends the loop and cancels the session.
    /// A failed write is the runtime's transient affair: the loop goes on
    /// with the next message.
    pub fn sender_step(&mut self) -> (r: SendStep)
        requires
            inv(old(self)@),
        ensures
            old(self)@.queue.items.len() > 0 ==> (r matches SendStep::Write(w) && w@
                == spec_encode(old(self)@.queue.items.first())) && final(self)@ == (MessagerV {
                queue: OutQueueV {
                    items: old(self)@.queue.items.drop_first(),
                    cap: old(self)@.queue.cap,
                    closed: old(self)@.queue.closed,
                },
                ..old(self)@
            }),
            old(self)@.queue.items.len() == 0 && !old(self)@.queue.closed ==> r is Pending
                && final(self)@ == old(self)@,
            old(self)@.queue.items.len() == 0 && old(self)@.queue.closed ==> r is Stopped
                && final(self)@ == (MessagerV { canceled: true, ..old(self)@ }),
            inv(final(self)@),
    {
        match self.queue.recv() {
            RecvOutcome::Msg(m) => {
                let w = encode(&m);
                SendStep::Write(w)
            },
            RecvOutcome::Pending => SendStep::Pending,
            RecvOutcome::Closed => {
                self.cancel();
                SendStep::Stopped
            },
        }
    }

    /// Drains the whole queue in one burst, appending each message's wire
    /// image to `wire`. States the sender loop's ordering guarantee: the
    /// transport receives exactly the enqueued messages, in exactly enqueue
    /// order.
    pub fn sender_flush(&mut self, wire: &mut Vec<u8>)
        requires
            inv(old(self)@),
        ensures
            final(wire)@ == old(wire)@ + encode_all(old(self)@.queue.items),
            final(self)@ == (MessagerV {
                queue: OutQueueV {
                    items: Seq::empty(),
                    cap: old(self)@.queue.cap,
                    closed: old(self)@.queue.closed,
                },
                ..old(self)@
            }),
            inv(final(self)@),
    {
        while self.queue.len() > 0
            invariant
                inv(self@),
                old(self)@.queue.cap == self@.queue.cap,
                old(self)@.queue.closed == self@.queue.closed,
                old(self)@.shuted == self@.shuted,
                old(self)@.canceled == self@.canceled,
                old(self)@.is_serv == self@.is_serv,
                old(self)@.stream_mode == self@.stream_mode,
                old(self)@.ctms == self@.ctms,
                old(self)@.ctmout == self@.ctmout,
                old(self)@.buf == self@.buf,
                wire@ + encode_all(self@.queue.items) == old(wire)@ + encode_all(
                    old(self)@.queue.items,
                ),
            decreases self@.queue.items.len(),
        {
            let ghost items_before = self@.queue.items;
            match self.queue.recv() {
                RecvOutcome::Msg(m) => {
                    proof {
                        assert(sendable(items_before.first()));
                        assert(encode_all(items_before) == spec_encode(items_before.first())
                            + encode_all(items_before.drop_first()));
                    }
                    let mut w = encode(&m);
                    wire.append(&mut w);
                    proof {
                        assert(wire@ + encode_all(self@.queue.items) =~= old(wire)@ + encode_all(
                            old(self)@.queue.items,
                        ));
                    }
                },
                RecvOutcome::Pending => {
                    proof {
                        assert(false);
                    }
                },
                RecvOutcome::Closed => {
                    proof {
                        assert(false);
                    }
                },
            }
        }
        proof {
            assert(self@.queue.items =~= Seq::<MessagesV>::empty());
            assert(wire@ =~= old(wire)@ + encode_all(old(self)@.queue.items));
        }
    }

    /// One checker tick at instant `now`. An elapsed liveness deadline
    /// cancels the session — the peer is presumed dead — and skips the rest.
    /// Otherwise a client whose cadence fired makes one best-effort
    /// heartbeat enqueue (a drop is tolerated: the next round retries), and
    /// the runtime is told to run the bounded health hook.
    pub fn check_tick(&mut self, now: u64) -> (r: CheckEffects)
        ensures
            (final(self)@, r) == spec_check_tick(old(self)@, now),
            inv(old(self)@) ==> inv(final(self)@),
    {
        if self.ctmout.tmout(now) {
            self.canceled = true;
            return CheckEffects {
                timed_out: true,
                heart_queued: false,
                heart_dropped: false,
                do_on_check: false,
            };
        }
        let mut queued = false;
        let mut dropped = false;
        if !self.is_serv && self.ctms.tick(now) {
            let ghost qbefore = self@.queue;
            let hb = heartbeat();
            match self.queue.try_send(hb) {
                TrySendOutcome::Sent => {
                    queued = true;
                },
                TrySendOutcome::Full(_) => {
                    dropped = true;
                },
                TrySendOutcome::Closed(_) => {
                    dropped = true;
                },
            }
            proof {
                assert(self@.queue == heart_try(qbefore));
            }
        }
        CheckEffects { timed_out: false, heart_queued: queued, heart_dropped: dropped, do_on_check: true }
    }
}

/// Law: however many activities detect failure, the socket is shut down
/// exactly once. The first `stop` performs the shutdown and latches the
/// flag; a second `stop`, from any other detection point, changes nothing
/// and performs no shutdown.
pub proof fn lemma_stop_exactly_once(s: MessagerV)
    ensures
        ({
            let (s1, down1) = spec_stop(s);
            let (s2, down2) = spec_stop(s1);
            &&& down1 == !s.shuted
            &&& s1.shuted
            &&& !down2
            &&& s2 == s1
        }),
{
}

/// Law: when no heartbeat has arrived for the timeout duration, the checker
/// tick cancels the session; the `stop` that follows shuts the socket down,
/// and every later `stop` is a successful no-op.
pub proof fn lemma_timeout_cancels_once(s: MessagerV, now: u64)
    requires
        elapsed(s.ctmout, now),
    ensures
        ({
            let (s1, eff) = spec_check_tick(s, now);
            let (s2, down2) = spec_stop(s1);
            let (s3, down3) = spec_stop(s2);
            &&& s1.canceled
            &&& eff.timed_out
            &&& down2 == !s.shuted
            &&& s2.shuted
            &&& !down3
            &&& s3 == s2
        }),
{
}

/// Law: a heartbeat frame resets the liveness deadline to the instant of
/// its arrival, in server role and client role alike.
pub proof fn lemma_heart_resets_timeout(s: MessagerV, m: MessageV, now: u64)
    requires
        m.control == 0,
    ensures
        spec_on_msg(s, m, now).0.ctmout == (TimerV { dur: s.ctmout.dur, last: now }),
{
}

/// Law: a heartbeat frame provokes at most one acknowledgement enqueue
/// attempt, and only in server role: the server's queue gains at most the
/// one heartbeat (dropped without error when there is no room), and a
/// client's queue is untouched.
pub proof fn lemma_heart_ack_at_most_one(s: MessagerV, m: MessageV, now: u64)
    requires
        m.control == 0,
    ensures
        ({
            let q2 = spec_on_msg(s, m, now).0.queue;
            &&& !s.is_serv ==> q2 == s.queue
            &&& s.is_serv && heart_fits(s.queue) ==> q2.items == s.queue.items.push(heart_msg())
            &&& s.is_serv && !heart_fits(s.queue) ==> q2 == s.queue
            &&& q2.items.len() <= s.queue.items.len() + 1
        }),
{
}

} // verus!
