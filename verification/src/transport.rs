//! State machine of the per-connection stream transport: inbound delivery to
//! the host, an outbound FIFO of writes and close requests, backpressure
//! buffering, and terminal states. The engine is driven in poll cycles; the
//! socket's behaviour in a cycle enters as events and send outcomes, and the
//! host callbacks to invoke leave as actions.

use vstd::prelude::*;
use bytes::{Bytes, BytesMut};
use crate::buffer::{buf_bytes, frozen_bytes, buf_len, buf_split_to, buf_freeze, buf_extend};

verus! {

/// An item the host enqueues for the engine: outbound bytes, or a request to
/// close the connection.
#[derive(Debug, Clone, PartialEq, Eq)]
pub enum TokioTcpTransportMessage {
    Bytes(Vec<u8>),
    Close,
}

/// What one poll of the socket's read side yielded.
#[derive(Debug, Clone, PartialEq, Eq)]
pub enum ReadEvent {
    /// A chunk of inbound bytes.
    Data(Vec<u8>),
    /// End of stream: the peer closed cleanly.
    Eof,
    /// No more data available this cycle.
    NotReady,
    /// The socket failed.
    ReadError,
}

/// A host callback the engine's driver must invoke, under the execution
/// lock, in the order the actions were produced.
#[derive(Debug, Clone, PartialEq, Eq)]
pub enum ReadAction {
    /// Call `data_received` with this chunk.
    DataReceived(Vec<u8>),
    /// Call `connection_lost` with no error: the stream ended cleanly.
    ConnectionLostClean,
    /// Call `connection_lost` with the translated socket error.
    ConnectionLostFailed,
}

/// Outcome of handing one outbound item to the socket's send buffer.
#[derive(Debug, Clone, Copy, PartialEq, Eq)]
pub enum SendOutcome {
    /// The socket took the bytes.
    Accepted,
    /// The socket cannot take more this cycle; the bytes must be retried.
    Backpressure,
    /// The socket failed.
    SendError,
}

/// Lifecycle phase of the engine.
#[derive(Debug, Clone, Copy, PartialEq, Eq)]
pub enum EngineState {
    /// Reading and writing.
    Active,
    /// Terminated cleanly (end of stream or close request).
    Done,
    /// Terminated by a socket error.
    Failed,
}

/// The actions and final phase of draining the socket's read side: each chunk
/// is delivered in arrival order until the socket has nothing more this
/// cycle, the stream ends, or the socket fails; the two terminal cases report
/// the connection lost, once, as the last action.
pub open spec fn spec_inbound(events: Seq<ReadEvent>) -> (Seq<ReadAction>, EngineState)
    decreases events.len(),
{
    if events.len() == 0 {
        (Seq::<ReadAction>::empty(), EngineState::Active)
    } else {
        match events[0] {
            ReadEvent::Data(b) => {
                let rest = spec_inbound(events.skip(1));
                (seq![ReadAction::DataReceived(b)] + rest.0, rest.1)
            },
            ReadEvent::Eof => (seq![ReadAction::ConnectionLostClean], EngineState::Done),
            ReadEvent::ReadError => (seq![ReadAction::ConnectionLostFailed], EngineState::Failed),
            ReadEvent::NotReady => (Seq::<ReadAction>::empty(), EngineState::Active),
        }
    }
}

/// Result of draining the outbound side for one poll cycle.
pub struct DrainResult {
    /// Items still queued.
    pub queue: Seq<TokioTcpTransportMessage>,
    /// Bytes the socket refused, retained for the next cycle.
    pub buf: Option<Vec<u8>>,
    /// Engine phase after the drain.
    pub state: EngineState,
    /// Bytes the socket accepted, in order.
    pub sent: Seq<Vec<u8>>,
    /// Whether any send was attempted (each attempt marks the sink unflushed).
    pub attempted: bool,
}

/// One poll cycle's outbound drain: the bytes buffered from a previous cycle
/// go first, then queued items in FIFO order. A close request terminates the
/// engine at once; refused bytes are buffered and end the cycle; a send error
/// fails the engine. `outcomes` is how the socket answers successive send
/// attempts; once it is exhausted the socket is treated as refusing.
pub open spec fn spec_drain(
    queue: Seq<TokioTcpTransportMessage>,
    buf: Option<Vec<u8>>,
    outcomes: Seq<SendOutcome>,
) -> DrainResult
    decreases queue.len() + if buf is Some { 1int } else { 0int },
{
    if buf is Some {
        let b = buf->0;
        let oc = if outcomes.len() > 0 { outcomes[0] } else { SendOutcome::Backpressure };
        match oc {
            SendOutcome::Accepted => {
                let r = spec_drain(queue, None, outcomes.skip(1));
                DrainResult {
                    queue: r.queue,
                    buf: r.buf,
                    state: r.state,
                    sent: seq![b] + r.sent,
                    attempted: true,
                }
            },
            SendOutcome::Backpressure => DrainResult {
                queue,
                buf: Some(b),
                state: EngineState::Active,
                sent: Seq::<Vec<u8>>::empty(),
                attempted: true,
            },
            SendOutcome::SendError => DrainResult {
                queue,
                buf: None,
                state: EngineState::Failed,
                sent: Seq::<Vec<u8>>::empty(),
                attempted: true,
            },
        }
    } else if queue.len() == 0 {
        DrainResult {
            queue,
            buf: None,
            state: EngineState::Active,
            sent: Seq::<Vec<u8>>::empty(),
            attempted: false,
        }
    } else {
        match queue[0] {
            TokioTcpTransportMessage::Close => DrainResult {
                queue: queue.skip(1),
                buf: None,
                state: EngineState::Done,
                sent: Seq::<Vec<u8>>::empty(),
                attempted: false,
            },
            TokioTcpTransportMessage::Bytes(b) => {
                let oc = if outcomes.len() > 0 { outcomes[0] } else { SendOutcome::Backpressure };
                match oc {
                    SendOutcome::Accepted => {
                        let r = spec_drain(queue.skip(1), None, outcomes.skip(1));
                        DrainResult {
                            queue: r.queue,
                            buf: r.buf,
                            state: r.state,
                            sent: seq![b] + r.sent,
                            attempted: true,
                        }
                    },
                    SendOutcome::Backpressure => DrainResult {
                        queue: queue.skip(1),
                        buf: Some(b),
                        state: EngineState::Active,
                        sent: Seq::<Vec<u8>>::empty(),
                        attempted: true,
                    },
                    SendOutcome::SendError => DrainResult {
                        queue: queue.skip(1),
                        buf: None,
                        state: EngineState::Failed,
                        sent: Seq::<Vec<u8>>::empty(),
                        attempted: true,
                    },
                }
            },
        }
    }
}

/// What `next_outbound` hands the driver.
#[derive(Debug, Clone, PartialEq, Eq)]
pub enum OutboundItem {
    /// Bytes to offer to the socket; the driver reports the outcome back.
    Data(Vec<u8>),
    /// The engine is terminated; nothing further will be sent.
    Finished,
    /// Nothing to send this cycle.
    Idle,
}

/// The connection engine: owns the outbound queue, the bytes the socket
/// refused last cycle, the flush flag of the send buffer, and the lifecycle
/// phase. The host-facing side enqueues with `write` and `close`; the driver
/// dequeues and reports the socket's behaviour back.
#[derive(Debug)]
pub struct TcpTransport {
    intake: Vec<TokioTcpTransportMessage>,
    buf: Option<Vec<u8>>,
    flushed: bool,
    state: EngineState,
}

impl TcpTransport {
    /// Items enqueued by the host and not yet taken by the engine, oldest
    /// first.
    pub closed spec fn spec_queue(self) -> Seq<TokioTcpTransportMessage> {
        self.intake@
    }

    /// Bytes the socket refused, waiting to be retried.
    pub closed spec fn spec_buf(self) -> Option<Vec<u8>> {
        self.buf
    }

    /// Whether the socket's send buffer is known flushed.
    pub closed spec fn spec_flushed(self) -> bool {
        self.flushed
    }

    /// Lifecycle phase.
    pub closed spec fn spec_state(self) -> EngineState {
        self.state
    }

    /// A fresh engine for a newly accepted connection.
    pub fn new() -> (t: TcpTransport)
        ensures
            t.spec_queue() == Seq::<TokioTcpTransportMessage>::empty(),
            t.spec_buf() is None,
            !t.spec_flushed(),
            t.spec_state() is Active,
    {
        TcpTransport { intake: Vec::new(), buf: None, flushed: false, state: EngineState::Active }
    }

    /// Engine phase, as the driver sees it.
    pub fn state(&self) -> (r: EngineState)
        ensures
            r == self.spec_state(),
    {
        self.state
    }

    /// Enqueues bytes to send. Non-blocking: the bytes wait in FIFO order
    /// behind earlier writes. On a terminated transport the write is silently
    /// dropped.
    pub fn write(&mut self, data: Vec<u8>)
        ensures
            old(self).spec_state() is Active ==> final(self).spec_queue() == old(
                self,
            ).spec_queue().push(TokioTcpTransportMessage::Bytes(data)),
            !(old(self).spec_state() is Active) ==> final(self).spec_queue() == old(
                self,
            ).spec_queue(),
            final(self).spec_buf() == old(self).spec_buf(),
            final(self).spec_flushed() == old(self).spec_flushed(),
            final(self).spec_state() == old(self).spec_state(),
    {
        match self.state {
            EngineState::Active => self.intake.push(TokioTcpTransportMessage::Bytes(data)),
            _ => (),
        }
    }

    /// Enqueues a close request behind earlier writes. On a terminated
    /// transport it is silently dropped.
    pub fn close(&mut self)
        ensures
            old(self).spec_state() is Active ==> final(self).spec_queue() == old(
                self,
            ).spec_queue().push(TokioTcpTransportMessage::Close),
            !(old(self).spec_state() is Active) ==> final(self).spec_queue() == old(
                self,
            ).spec_queue(),
            final(self).spec_buf() == old(self).spec_buf(),
            final(self).spec_flushed() == old(self).spec_flushed(),
            final(self).spec_state() == old(self).spec_state(),
    {
        match self.state {
            EngineState::Active => self.intake.push(TokioTcpTransportMessage::Close),
            _ => (),
        }
    }

    /// Pure accessor stub: returns the caller-supplied default (or nothing).
    pub fn get_extra_info(&self, _name: &[u8], default: Option<Vec<u8>>) -> (r: Option<Vec<u8>>)
        ensures
            r == default,
    {
        default
    }

    /// Drains the socket's read side for one cycle: `events` are the chunks
    /// and the final condition the socket reported, in order. Returns the
    /// host callbacks to invoke, in order. On a terminated engine nothing is
    /// delivered and nothing changes.
    pub fn read_from_socket(&mut self, events: Vec<ReadEvent>) -> (actions: Vec<ReadAction>)
        ensures
            old(self).spec_state() is Active ==> {
                let r = spec_inbound(events@);
                &&& actions@ == r.0
                &&& final(self).spec_state() == r.1
            },
            !(old(self).spec_state() is Active) ==> {
                &&& actions@ == Seq::<ReadAction>::empty()
                &&& final(self).spec_state() == old(self).spec_state()
            },
            final(self).spec_queue() == old(self).spec_queue(),
            final(self).spec_buf() == old(self).spec_buf(),
            final(self).spec_flushed() == old(self).spec_flushed(),
        decreases events@.len(),
    {
        match self.state {
            EngineState::Active => (),
            _ => {
                return Vec::new();
            },
        }
        let mut events = events;
        if events.len() == 0 {
            return Vec::new();
        }
        let ghost orig = events@;
        let ev = events.remove(0);
        proof {
            assert(events@ =~= orig.skip(1));
        }
        match ev {
            ReadEvent::Data(b) => {
                let mut rest = self.read_from_socket(events);
                let mut actions: Vec<ReadAction> = Vec::new();
                actions.push(ReadAction::DataReceived(b));
                actions.append(&mut rest);
                proof {
                    assert(actions@ =~= spec_inbound(orig).0);
                }
                actions
            },
            ReadEvent::Eof => {
                self.state = EngineState::Done;
                let mut actions: Vec<ReadAction> = Vec::new();
                actions.push(ReadAction::ConnectionLostClean);
                proof {
                    assert(actions@ =~= spec_inbound(orig).0);
                }
                actions
            },
            ReadEvent::ReadError => {
                self.state = EngineState::Failed;
                let mut actions: Vec<ReadAction> = Vec::new();
                actions.push(ReadAction::ConnectionLostFailed);
                proof {
                    assert(actions@ =~= spec_inbound(orig).0);
                }
                actions
            },
            ReadEvent::NotReady => Vec::new(),
        }
    }

    /// The next outbound item: bytes buffered from a previous cycle first,
    /// otherwise the oldest queued item. Dequeuing a close request terminates
    /// the engine at once, without waiting for further items. Handing out
    /// bytes marks the sink unflushed, since a send attempt follows.
    pub fn next_outbound(&mut self) -> (r: OutboundItem)
        ensures
            !(old(self).spec_state() is Active) ==> {
                &&& r is Finished
                &&& *final(self) == *old(self)
            },
            old(self).spec_state() is Active && old(self).spec_buf() is Some ==> {
                &&& r == OutboundItem::Data(old(self).spec_buf()->0)
                &&& final(self).spec_buf() is None
                &&& final(self).spec_queue() == old(self).spec_queue()
                &&& final(self).spec_state() is Active
                &&& !final(self).spec_flushed()
            },
            old(self).spec_state() is Active && old(self).spec_buf() is None && old(
                self,
            ).spec_queue().len() == 0 ==> {
                &&& r is Idle
                &&& *final(self) == *old(self)
            },
            old(self).spec_state() is Active && old(self).spec_buf() is None && old(
                self,
            ).spec_queue().len() > 0 ==> {
                &&& final(self).spec_queue() == old(self).spec_queue().skip(1)
                &&& final(self).spec_buf() is None
                &&& (old(self).spec_queue()[0] matches TokioTcpTransportMessage::Bytes(b) ==> {
                    &&& r == OutboundItem::Data(b)
                    &&& final(self).spec_state() is Active
                    &&& !final(self).spec_flushed()
                })
                &&& (old(self).spec_queue()[0] is Close ==> {
                    &&& r is Finished
                    &&& final(self).spec_state() is Done
                    &&& final(self).spec_flushed() == old(self).spec_flushed()
                })
            },
    {
        match self.state {
            EngineState::Active => (),
            _ => {
                return OutboundItem::Finished;
            },
        }
        if let Some(b) = self.buf.take() {
            self.flushed = false;
            return OutboundItem::Data(b);
        }
        if self.intake.len() == 0 {
            return OutboundItem::Idle;
        }
        match self.intake.remove(0) {
            TokioTcpTransportMessage::Bytes(b) => {
                self.flushed = false;
                OutboundItem::Data(b)
            },
            TokioTcpTransportMessage::Close => {
                self.state = EngineState::Done;
                OutboundItem::Finished
            },
        }
    }

    /// The socket refused these bytes this cycle: retain them, unmodified, to
    /// be retried as the first outbound item of a later cycle.
    pub fn on_send_backpressure(&mut self, data: Vec<u8>)
        ensures
            final(self).spec_buf() == Some(data),
            final(self).spec_queue() == old(self).spec_queue(),
            final(self).spec_flushed() == old(self).spec_flushed(),
            final(self).spec_state() == old(self).spec_state(),
    {
        self.buf = Some(data);
    }

    /// The socket failed while sending: the engine terminates with failure.
    pub fn on_send_error(&mut self)
        ensures
            final(self).spec_state() is Failed,
            final(self).spec_queue() == old(self).spec_queue(),
            final(self).spec_buf() == old(self).spec_buf(),
            final(self).spec_flushed() == old(self).spec_flushed(),
    {
        self.state = EngineState::Failed;
    }

    /// Records the outcome of flushing the socket's send buffer. A sink
    /// already known flushed is left alone, so the next cycle skips the
    /// redundant flush.
    pub fn poll_flush(&mut self, ready: bool)
        ensures
            final(self).spec_flushed() == (old(self).spec_flushed() || ready),
            final(self).spec_queue() == old(self).spec_queue(),
            final(self).spec_buf() == old(self).spec_buf(),
            final(self).spec_state() == old(self).spec_state(),
    {
        if !self.flushed {
            self.flushed = ready;
        }
    }

    /// Drains the outbound side against the socket's successive answers,
    /// starting at answer `idx`; accepted bytes are appended to `sent`.
    fn drain_outbound(&mut self, outcomes: &Vec<SendOutcome>, idx: usize, sent: &mut Vec<Vec<u8>>)
        requires
            old(self).spec_state() is Active,
            idx <= outcomes@.len(),
        ensures
            ({
                let dr = spec_drain(
                    old(self).spec_queue(),
                    old(self).spec_buf(),
                    outcomes@.skip(idx as int),
                );
                &&& final(self).spec_queue() == dr.queue
                &&& final(self).spec_buf() == dr.buf
                &&& final(self).spec_state() == dr.state
                &&& final(sent)@ == old(sent)@ + dr.sent
                &&& final(self).spec_flushed() == (if dr.attempted {
                    false
                } else {
                    old(self).spec_flushed()
                })
            }),
        decreases old(self).spec_queue().len() + (if old(self).spec_buf() is Some {
            1int
        } else {
            0int
        }),
    {
        let item = self.next_outbound();
        match item {
            OutboundItem::Idle => (),
            OutboundItem::Finished => (),
            OutboundItem::Data(b) => {
                let oc = if idx < outcomes.len() {
                    outcomes[idx]
                } else {
                    SendOutcome::Backpressure
                };
                proof {
                    if idx < outcomes@.len() {
                        assert(outcomes@.skip(idx as int)[0] == outcomes@[idx as int]);
                    }
                }
                match oc {
                    SendOutcome::Accepted => {
                        sent.push(b);
                        let next = if idx < outcomes.len() {
                            idx + 1
                        } else {
                            idx
                        };
                        proof {
                            assert(outcomes@.skip(next as int) =~= outcomes@.skip(
                                idx as int,
                            ).skip(1));
                        }
                        self.drain_outbound(outcomes, next, sent);
                    },
                    SendOutcome::Backpressure => self.on_send_backpressure(b),
                    SendOutcome::SendError => self.on_send_error(),
                }
            },
        }
    }

    /// One full poll cycle. First the read side is drained: `events` are what
    /// the socket yielded, and the returned actions are the host callbacks to
    /// invoke, in order. If the engine survives, the outbound side is drained
    /// against the socket's successive `outcomes` (exhausted outcomes mean
    /// the socket refuses); the bytes the socket accepted are returned in
    /// order. Finally, unless the cycle terminated the engine, the send
    /// buffer is flushed with result `flush_ready`.
    pub fn poll(
        &mut self,
        events: Vec<ReadEvent>,
        outcomes: &Vec<SendOutcome>,
        flush_ready: bool,
    ) -> (r: (Vec<ReadAction>, Vec<Vec<u8>>))
        ensures
            !(old(self).spec_state() is Active) ==> {
                &&& *final(self) == *old(self)
                &&& r.0@ == Seq::<ReadAction>::empty()
                &&& r.1@ == Seq::<Vec<u8>>::empty()
            },
            old(self).spec_state() is Active ==> {
                let inb = spec_inbound(events@);
                &&& r.0@ == inb.0
                &&& (!(inb.1 is Active) ==> {
                    &&& final(self).spec_state() == inb.1
                    &&& final(self).spec_queue() == old(self).spec_queue()
                    &&& final(self).spec_buf() == old(self).spec_buf()
                    &&& final(self).spec_flushed() == old(self).spec_flushed()
                    &&& r.1@ == Seq::<Vec<u8>>::empty()
                })
                &&& (inb.1 is Active ==> {
                    let dr = spec_drain(old(self).spec_queue(), old(self).spec_buf(), outcomes@);
                    &&& final(self).spec_queue() == dr.queue
                    &&& final(self).spec_buf() == dr.buf
                    &&& final(self).spec_state() == dr.state
                    &&& r.1@ == dr.sent
                    &&& final(self).spec_flushed() == (if dr.state is Active {
                        (old(self).spec_flushed() && !dr.attempted) || flush_ready
                    } else {
                        old(self).spec_flushed() && !dr.attempted
                    })
                })
            },
    {
        match self.state {
            EngineState::Active => (),
            _ => {
                return (Vec::new(), Vec::new());
            },
        }
        let actions = self.read_from_socket(events);
        match self.state {
            EngineState::Active => (),
            _ => {
                return (actions, Vec::new());
            },
        }
        let mut sent: Vec<Vec<u8>> = Vec::new();
        proof {
            assert(outcomes@.skip(0) =~= outcomes@);
        }
        self.drain_outbound(outcomes, 0, &mut sent);
        match self.state {
            EngineState::Active => self.poll_flush(flush_ready),
            _ => (),
        }
        (actions, sent)
    }
}

/// The transport's codec. It imposes no message framing: inbound, every
/// readable chunk is handed on verbatim; outbound, every write payload is
/// appended to the send buffer verbatim, in call order.
pub struct TcpTransportCodec;

impl TcpTransportCodec {
    /// Takes everything the read buffer holds and freezes it as one inbound
    /// chunk; an empty buffer yields nothing.
    pub fn decode(&mut self, src: &mut BytesMut) -> (r: Option<Bytes>)
        ensures
            buf_bytes(*old(src)).len() == 0 ==> {
                &&& r is None
                &&& buf_bytes(*final(src)) == buf_bytes(*old(src))
            },
            buf_bytes(*old(src)).len() > 0 ==> {
                &&& r is Some
                &&& frozen_bytes(r->0) == buf_bytes(*old(src))
                &&& buf_bytes(*final(src)).len() == 0
            },
    {
        let n = buf_len(src);
        if n > 0 {
            let taken = buf_split_to(src, n);
            proof {
                assert(buf_bytes(*old(src)).take(n as int) =~= buf_bytes(*old(src)));
                assert(buf_bytes(*old(src)).skip(n as int) =~= Seq::<u8>::empty());
            }
            Some(buf_freeze(taken))
        } else {
            None
        }
    }

    /// Appends the write payload to the send buffer, unchanged and in call
    /// order.
    pub fn encode(&mut self, msg: Vec<u8>, dst: &mut BytesMut)
        ensures
            buf_bytes(*final(dst)) == buf_bytes(*old(dst)) + msg@,
    {
        buf_extend(dst, msg.as_slice());
    }
}

/// End-of-stream and socket failure surface exactly once: a cycle's actions
/// report the connection lost at most once, only as the very last action,
/// exactly when the cycle terminates the engine; every earlier action is a
/// data delivery. Clean end of stream reports a clean loss; a socket error
/// reports a failure.
pub proof fn lemma_connection_lost_once(events: Seq<ReadEvent>)
    ensures
        ({
            let r = spec_inbound(events);
            &&& (r.1 is Active ==> forall|i: int| 0 <= i < r.0.len() ==> r.0[i] is DataReceived)
            &&& (r.1 is Done ==> r.0.len() > 0 && r.0.last() == ReadAction::ConnectionLostClean
                && forall|i: int| 0 <= i < r.0.len() - 1 ==> r.0[i] is DataReceived)
            &&& (r.1 is Failed ==> r.0.len() > 0 && r.0.last() == ReadAction::ConnectionLostFailed
                && forall|i: int| 0 <= i < r.0.len() - 1 ==> r.0[i] is DataReceived)
        }),
    decreases events.len(),
{
    if events.len() > 0 {
        match events[0] {
            ReadEvent::Data(_) => {
                lemma_connection_lost_once(events.skip(1));
            },
            _ => (),
        }
    }
}

/// Backpressure loses nothing: when the socket refuses the first send of a
/// cycle, the refused bytes are retained unmodified, nothing is reported
/// sent, and the engine stays active; on a later cycle whose first answer is
/// an acceptance, exactly those bytes are the first ones the socket takes.
pub proof fn lemma_backpressure_retry(
    queue: Seq<TokioTcpTransportMessage>,
    later_queue: Seq<TokioTcpTransportMessage>,
    b: Vec<u8>,
    refusing: Seq<SendOutcome>,
    accepting: Seq<SendOutcome>,
)
    requires
        refusing.len() == 0 || refusing[0] is Backpressure,
        accepting.len() > 0 && accepting[0] is Accepted,
    ensures
        spec_drain(queue, Some(b), refusing) == (DrainResult {
            queue,
            buf: Some(b),
            state: EngineState::Active,
            sent: Seq::<Vec<u8>>::empty(),
            attempted: true,
        }),
        spec_drain(later_queue, Some(b), accepting).sent.len() > 0,
        spec_drain(later_queue, Some(b), accepting).sent[0] == b,
{
}

/// A write followed by a close: if the socket accepts the write when the
/// cycle drains the queue, the bytes are handed to the socket before the
/// close terminates the engine. If the socket refuses the write, the bytes
/// stay buffered, the close stays queued, and nothing has been delivered yet
/// — termination will proceed on a later cycle whether or not the buffered
/// bytes are accepted first.
pub proof fn lemma_write_then_close(b: Vec<u8>, outcomes: Seq<SendOutcome>)
    ensures
        ({
            let q = seq![
                TokioTcpTransportMessage::Bytes(b),
                TokioTcpTransportMessage::Close,
            ];
            &&& (outcomes.len() > 0 && outcomes[0] is Accepted ==> {
                let dr = spec_drain(q, None, outcomes);
                &&& dr.queue.len() == 0
                &&& dr.buf is None
                &&& dr.state is Done
                &&& dr.sent == seq![b]
                &&& dr.attempted
            })
            &&& ((outcomes.len() == 0 || outcomes[0] is Backpressure) ==> {
                let dr = spec_drain(q, None, outcomes);
                &&& dr.queue == seq![TokioTcpTransportMessage::Close]
                &&& dr.buf == Some(b)
                &&& dr.state is Active
                &&& dr.sent.len() == 0
                &&& dr.attempted
            })
        }),
{
    reveal_with_fuel(spec_drain, 3);
    let q = seq![TokioTcpTransportMessage::Bytes(b), TokioTcpTransportMessage::Close];
    assert(q.skip(1) =~= seq![TokioTcpTransportMessage::Close]);
    if outcomes.len() > 0 && outcomes[0] is Accepted {
        assert(q.skip(1).skip(1) =~= Seq::<TokioTcpTransportMessage>::empty());
        assert(spec_drain(q, None, outcomes).sent =~= seq![b]);
    }
}

} // verus!
