//! The session as a mathematical value, and its transitions.

use crate::message::{classify, ClientMessageView, CloseFrameView};
use crate::protocol::{
    DirectiveView, Effects, EventView, ExitReason, HandleErrorView, InboundView, Lifecycle,
    Pending, Phase, StepView, WriteOrderView, WriteOutcome, WriteView, CLOSE_AWAY, CLOSE_ERROR,
    OUTBOUND_BATCH_LIMIT, SEND_TIMEOUT_SECS, SLOW_SEND_NANOS,
};
use std::time::Instant;
use vstd::prelude::*;

verus! {

/// No effect at all.
pub open spec fn quiet() -> Effects {
    Effects { close_receiver: false, count_peer_close: false, dropped: 0, slow_send: false }
}

/// Whether the pending handler is driven while this write is awaited. The
/// two writes that answer a handler's failure are made when no handler is
/// pending.
pub open spec fn pumps(pending: Pending) -> bool {
    !(pending is ExecutionError || pending is HandlerClose)
}

/// Whether the send deadline starts with this write. The later writes of a
/// batch share the deadline of its first.
pub open spec fn starts_deadline(pending: Pending) -> bool {
    match pending {
        Pending::Feed { index, .. } => index == 0,
        Pending::Flush => false,
        _ => true,
    }
}

/// Whether this write serializes, and so has the scratch buffer with it.
pub open spec fn serializes(pending: Pending) -> bool {
    pending is Feed || pending is ExecutionError
}

/// The order for `write`, made while `pending` is awaited.
pub open spec fn order<B>(pending: Pending, write: WriteView<B>) -> WriteOrderView<B> {
    WriteOrderView {
        write,
        pump_handler: pumps(pending),
        starts_deadline: starts_deadline(pending),
        deadline_secs: SEND_TIMEOUT_SECS,
    }
}

/// The write that serializes into `buffer` while `pending` is awaited.
pub open spec fn lent<B>(pending: Pending, buffer: B) -> WriteView<B> {
    match pending {
        Pending::Feed { index, .. } => WriteView::Feed { index, buffer },
        _ => WriteView::ExecutionError { buffer },
    }
}

/// The close frame that tells the peer of the module's exit.
pub open spec fn module_exited_frame() -> CloseFrameView {
    CloseFrameView { code: CLOSE_AWAY, reason: "module exited"@ }
}

/// The close frame that tells the peer of a handler's failure.
pub open spec fn handler_failed_frame(text: Seq<char>) -> CloseFrameView {
    CloseFrameView { code: CLOSE_ERROR, reason: text }
}

/// The session as a value: what the transitions read and change.
pub struct SessionState<B> {
    /// The payloads that wait for the handler, the oldest first.
    pub queue: Seq<InboundView>,
    /// Whether the in-flight slot holds a handler.
    pub handler_pending: bool,
    /// Whether a pong came since the last ping.
    pub got_pong: bool,
    /// Whether the connection is closing.
    pub closed: bool,
    pub phase: Phase,
    /// The scratch buffer, while the session has it.
    pub buffer: Option<B>,
}

impl<B> SessionState<B> {
    /// A session at its start: nothing queued, no handler, open, the buffer
    /// at hand, and a pong on account, so that the first tick sends a ping.
    pub open spec fn initial(buffer: B) -> SessionState<B> {
        SessionState {
            queue: Seq::empty(),
            handler_pending: false,
            got_pong: true,
            closed: false,
            phase: Phase::Selecting,
            buffer: Some(buffer),
        }
    }

    /// Whether the buffer is where it belongs: with the session, except
    /// while a write that serializes is awaited, and gone with a session
    /// that has ended. It is so in every state that a session reaches.
    pub open spec fn wf(self) -> bool {
        self.buffer is Some <==> match self.phase {
            Phase::Selecting => true,
            Phase::Writing(pending) => !serializes(pending),
            Phase::Gone(_) => false,
        }
    }

    pub open spec fn lifecycle(self) -> Lifecycle {
        if self.phase is Gone {
            Lifecycle::Gone
        } else if self.closed {
            Lifecycle::Closing
        } else {
            Lifecycle::Open
        }
    }

    /// Moves the oldest payload into the in-flight slot, when the session is
    /// waiting for an event, the slot is empty and a payload is queued.
    pub open spec fn start(self) -> (SessionState<B>, Option<InboundView>) {
        if self.phase is Selecting && !self.handler_pending && self.queue.len() > 0 {
            (
                SessionState { queue: self.queue.skip(1), handler_pending: true, ..self },
                Some(self.queue[0]),
            )
        } else {
            (self, None)
        }
    }

    /// Whether `event` can come in this state: the session is waiting for
    /// one with its buffer at hand, a handler can only finish while one is
    /// pending, the module is watched only until the session closes, a batch
    /// holds between one message and [`OUTBOUND_BATCH_LIMIT`], and the
    /// transport hands over no raw frame.
    pub open spec fn accepts(self, event: EventView) -> bool {
        &&& self.phase is Selecting
        &&& self.buffer is Some
        &&& match event {
            EventView::HandlerFinished(_) => self.handler_pending,
            EventView::Frame { frame, .. } => !(frame is Frame),
            EventView::Outbound(count) => 1 <= count <= OUTBOUND_BATCH_LIMIT,
            EventView::ModuleExited => !self.closed,
            EventView::ModuleChanged => !self.closed,
            _ => true,
        }
    }

    /// Whether this outcome of a write can come in this state: a write is
    /// awaited, and the buffer comes back with the outcome of a write that
    /// had it, unless it was lost with an expired deadline, and with no
    /// other.
    pub open spec fn awaits(self, outcome: WriteOutcome, returned: Option<B>) -> bool {
        match self.phase {
            Phase::Writing(pending) => {
                if serializes(pending) {
                    self.buffer is None && (outcome is TimedOut || returned is Some)
                } else {
                    self.buffer is Some && returned is None
                }
            },
            _ => false,
        }
    }

    /// Back to waiting, with nothing for the caller to do.
    pub open spec fn resume(self) -> (SessionState<B>, StepView<B>) {
        (
            SessionState { phase: Phase::Selecting, ..self },
            StepView { directive: DirectiveView::Resume, effects: quiet() },
        )
    }

    /// Orders `write`, which needs no buffer, and waits for its outcome.
    pub open spec fn write(self, pending: Pending, write: WriteView<B>) -> (
        SessionState<B>,
        StepView<B>,
    ) {
        (
            SessionState { phase: Phase::Writing(pending), ..self },
            StepView { directive: DirectiveView::Write(order(pending, write)), effects: quiet() },
        )
    }

    /// Orders the write that serializes for `pending`, hands the buffer out
    /// with it, and waits for its outcome.
    pub open spec fn serialize(self, pending: Pending) -> (SessionState<B>, StepView<B>) {
        (
            SessionState { phase: Phase::Writing(pending), buffer: None, ..self },
            StepView {
                directive: DirectiveView::Write(order(pending, lent(pending, self.buffer->0))),
                effects: quiet(),
            },
        )
    }

    /// Ends the session: the queue, the in-flight slot and the buffer are
    /// dropped, and the outbound receiver is closed.
    pub open spec fn exit(self, reason: ExitReason) -> (SessionState<B>, StepView<B>) {
        (
            SessionState {
                queue: Seq::empty(),
                handler_pending: false,
                phase: Phase::Gone(reason),
                buffer: None,
                ..self
            },
            StepView {
                directive: DirectiveView::Exit(reason),
                effects: Effects { close_receiver: true, ..quiet() },
            },
        )
    }

    /// The pending handler resolved: the slot is empty again. An execution
    /// error is sent to the peer as a message, any other error as the reason
    /// of a close frame.
    pub open spec fn handler_finished(self, result: Result<(), HandleErrorView>) -> (
        SessionState<B>,
        StepView<B>,
    ) {
        let idle = SessionState { handler_pending: false, ..self };
        match result {
            Ok(_) => idle.resume(),
            Err(HandleErrorView::Execution) => idle.serialize(Pending::ExecutionError),
            Err(HandleErrorView::Other(text)) => idle.write(
                Pending::HandlerClose,
                WriteView::Close(handler_failed_frame(text)),
            ),
        }
    }

    /// A frame was read. A payload joins the queue with its instant; a pong
    /// is put on account; a close frame closes the session and the outbound
    /// receiver, and is counted if the session was still open.
    pub open spec fn frame_read(self, message: ClientMessageView, at: Instant) -> (
        SessionState<B>,
        StepView<B>,
    ) {
        match message {
            ClientMessageView::Message(message) => SessionState {
                queue: self.queue.push(InboundView { message, arrival: at }),
                ..self
            }.resume(),
            ClientMessageView::Ping(_) => self.resume(),
            ClientMessageView::Pong(_) => SessionState { got_pong: true, ..self }.resume(),
            ClientMessageView::Close(_) => (
                SessionState { closed: true, ..self },
                StepView {
                    directive: DirectiveView::Resume,
                    effects: Effects {
                        close_receiver: true,
                        count_peer_close: !self.closed,
                        ..quiet()
                    },
                },
            ),
        }
    }

    /// Outbound messages were received. A closed session drops them; an
    /// open one feeds them one by one, the first at once.
    pub open spec fn outbound_ready(self, count: usize) -> (SessionState<B>, StepView<B>) {
        if self.closed {
            (
                self,
                StepView {
                    directive: DirectiveView::Resume,
                    effects: Effects { dropped: count, ..quiet() },
                },
            )
        } else {
            self.serialize(Pending::Feed { index: 0, total: count })
        }
    }

    /// The liveness interval elapsed. The pong on account pays for a new
    /// ping; without one the peer is taken for dead.
    pub open spec fn liveness_tick(self) -> (SessionState<B>, StepView<B>) {
        if self.got_pong {
            SessionState { got_pong: false, ..self }.write(Pending::Ping, WriteView::Ping)
        } else {
            self.exit(ExitReason::LivenessTimedOut)
        }
    }

    /// The transition on an event that the state accepts.
    pub open spec fn on_event(self, event: EventView) -> (SessionState<B>, StepView<B>) {
        match event {
            EventView::HandlerFinished(result) => self.handler_finished(result),
            EventView::Frame { frame, at } => self.frame_read(classify(frame), at),
            EventView::ReadFailed => self.exit(ExitReason::ReadFailed),
            EventView::StreamEnded => self.exit(ExitReason::StreamEnded),
            EventView::Outbound(count) => self.outbound_ready(count),
            EventView::ModuleExited => self.write(
                Pending::ModuleClose,
                WriteView::Close(module_exited_frame()),
            ),
            EventView::ModuleChanged => self.resume(),
            EventView::LivenessTick => self.liveness_tick(),
        }
    }

    /// A batch is over, fed and flushed or given up on a refused write. It
    /// is slow if it took more than [`SLOW_SEND_NANOS`].
    pub open spec fn batch_done(self, elapsed_nanos: u128) -> (SessionState<B>, StepView<B>) {
        (
            SessionState { phase: Phase::Selecting, ..self },
            StepView {
                directive: DirectiveView::Resume,
                effects: Effects { slow_send: elapsed_nanos > SLOW_SEND_NANOS, ..quiet() },
            },
        )
    }

    /// The state once the buffer that came back with an outcome is taken in.
    pub open spec fn reclaim(self, returned: Option<B>) -> SessionState<B> {
        match returned {
            Some(buffer) => SessionState { buffer: Some(buffer), ..self },
            None => self,
        }
    }

    /// The transition on the outcome of the awaited write, `elapsed_nanos`
    /// after its deadline started. An expired deadline ends the session.
    /// Otherwise the buffer is taken back first, if it was out. A message
    /// that was fed is followed by the next one, the last by the flush; a
    /// refused write ends the batch. Either close frame, sent or refused,
    /// leaves the session closed.
    pub open spec fn on_write_outcome(
        self,
        outcome: WriteOutcome,
        elapsed_nanos: u128,
        returned: Option<B>,
    ) -> (SessionState<B>, StepView<B>) {
        match self.phase {
            Phase::Writing(pending) => {
                if outcome is TimedOut {
                    self.exit(ExitReason::SendTimedOut)
                } else {
                    let back = self.reclaim(returned);
                    match pending {
                        Pending::Feed { index, total } => {
                            if outcome is Failed {
                                back.batch_done(elapsed_nanos)
                            } else if index + 1 < total {
                                back.serialize(Pending::Feed { index: (index + 1) as usize, total })
                            } else {
                                back.write(Pending::Flush, WriteView::Flush)
                            }
                        },
                        Pending::Flush => back.batch_done(elapsed_nanos),
                        Pending::ModuleClose => SessionState { closed: true, ..back }.resume(),
                        Pending::HandlerClose => SessionState { closed: true, ..back }.resume(),
                        Pending::Ping => back.resume(),
                        Pending::ExecutionError => back.resume(),
                    }
                }
            },
            _ => (self, StepView { directive: DirectiveView::Resume, effects: quiet() }),
        }
    }
}

} // verus!
