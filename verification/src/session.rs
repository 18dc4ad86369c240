//! The session actor as a state machine. The caller owns the socket, the
//! timers and the handler; it reports what happened as an [`Event`] or a
//! [`WriteOutcome`] and carries out the [`Step`] that comes back.

use crate::message::{ClientMessage, CloseFrame, WsMessage};
use crate::model::{order, quiet, serializes, SessionState};
use crate::pool::BufferPool;
use crate::protocol::{
    inbound_view, Directive, DirectiveView, Effects, Event, EventView, ExitReason, HandleError,
    Inbound, Lifecycle, Pending, Phase, Step, StepView, Write, WriteOrder, WriteOutcome,
    CLOSE_AWAY, CLOSE_ERROR, OUTBOUND_BATCH_LIMIT, SEND_TIMEOUT_SECS, SLOW_SEND_NANOS,
};
use std::collections::VecDeque;
use vstd::prelude::*;

verus! {

/// One client's session: the inbound queue, the in-flight slot, the
/// liveness and closing flags, the scratch buffer, and what the loop is
/// waiting for.
pub struct Session<B> {
    queue: VecDeque<Inbound>,
    handler_pending: bool,
    got_pong: bool,
    closed: bool,
    phase: Phase,
    pool: BufferPool<B>,
}

impl<B> View for Session<B> {
    type V = SessionState<B>;

    closed spec fn view(&self) -> SessionState<B> {
        SessionState {
            queue: self.queue@.map_values(|inbound: Inbound| inbound@),
            handler_pending: self.handler_pending,
            got_pong: self.got_pong,
            closed: self.closed,
            phase: self.phase,
            buffer: self.pool@,
        }
    }
}

fn quiet_effects() -> (effects: Effects)
    ensures
        effects == quiet(),
{
    Effects { close_receiver: false, count_peer_close: false, dropped: 0, slow_send: false }
}

fn resume_step<B>() -> (step: Step<B>)
    ensures
        step@ == (StepView::<B> { directive: DirectiveView::Resume, effects: quiet() }),
{
    Step { directive: Directive::Resume, effects: quiet_effects() }
}

fn order_step<B>(pending: Pending, write: Write<B>) -> (step: Step<B>)
    ensures
        step@ == (StepView {
            directive: DirectiveView::Write(order(pending, write@)),
            effects: quiet(),
        }),
{
    let pump_handler = match pending {
        Pending::ExecutionError => false,
        Pending::HandlerClose => false,
        _ => true,
    };
    let starts_deadline = match pending {
        Pending::Feed { index, .. } => index == 0,
        Pending::Flush => false,
        _ => true,
    };
    Step {
        directive: Directive::Write(
            WriteOrder { write, pump_handler, starts_deadline, deadline_secs: SEND_TIMEOUT_SECS },
        ),
        effects: quiet_effects(),
    }
}

impl<B> Session<B> {
    /// A session at its start, with the buffer that it will serialize into.
    pub fn new(buffer: B) -> (session: Session<B>)
        ensures
            session@ == SessionState::initial(buffer),
    {
        let session = Session {
            queue: VecDeque::new(),
            handler_pending: false,
            got_pong: true,
            closed: false,
            phase: Phase::Selecting,
            pool: BufferPool::new(buffer),
        };
        assert(session@.queue =~= Seq::empty());
        session
    }

    pub fn phase(&self) -> (phase: Phase)
        ensures
            phase == self@.phase,
    {
        self.phase
    }

    pub fn lifecycle(&self) -> (lifecycle: Lifecycle)
        ensures
            lifecycle == self@.lifecycle(),
    {
        match self.phase {
            Phase::Gone(_) => Lifecycle::Gone,
            _ => if self.closed {
                Lifecycle::Closing
            } else {
                Lifecycle::Open
            },
        }
    }

    /// Whether the session is closing: no batch is written any more.
    pub fn is_closed(&self) -> (closed: bool)
        ensures
            closed == self@.closed,
    {
        self.closed
    }

    /// Whether the in-flight slot holds a handler that is to be driven.
    pub fn handler_pending(&self) -> (pending: bool)
        ensures
            pending == self@.handler_pending,
    {
        self.handler_pending
    }

    pub fn got_pong(&self) -> (got: bool)
        ensures
            got == self@.got_pong,
    {
        self.got_pong
    }

    /// The number of payloads that wait for the handler.
    pub fn queue_len(&self) -> (len: usize)
        ensures
            len == self@.queue.len(),
    {
        self.queue.len()
    }

    /// Whether the session has the buffer.
    pub fn holds_buffer(&self) -> (held: bool)
        ensures
            held == (self@.buffer is Some),
    {
        self.pool.is_available()
    }

    /// Whether the loop has returned.
    pub fn is_gone(&self) -> (gone: bool)
        ensures
            gone == (self@.phase is Gone),
    {
        match self.phase {
            Phase::Gone(_) => true,
            _ => false,
        }
    }

    /// Whether the outcome of a write is awaited.
    pub fn awaits_write(&self) -> (awaited: bool)
        ensures
            awaited == (self@.phase is Writing),
    {
        match self.phase {
            Phase::Writing(_) => true,
            _ => false,
        }
    }

    /// Whether the module is watched: only while the session waits and is open.
    pub fn watches_module(&self) -> (watched: bool)
        ensures
            watched == self@.accepts(EventView::ModuleExited),
    {
        match self.phase {
            Phase::Selecting => !self.closed && self.pool.is_available(),
            _ => false,
        }
    }

    /// Whether `event` can come now.
    pub fn accepts(&self, event: &Event) -> (accepted: bool)
        ensures
            accepted == self@.accepts(event@),
    {
        let waiting = match self.phase {
            Phase::Selecting => self.pool.is_available(),
            _ => false,
        };
        waiting && match event {
            Event::HandlerFinished(_) => self.handler_pending,
            Event::Frame { frame, .. } => match frame {
                WsMessage::Frame => false,
                _ => true,
            },
            Event::Outbound(count) => 1 <= *count && *count <= OUTBOUND_BATCH_LIMIT,
            Event::ModuleExited => !self.closed,
            Event::ModuleChanged => !self.closed,
            _ => true,
        }
    }

    /// Whether this outcome of a write can come now.
    pub fn awaits(&self, outcome: WriteOutcome, returned: &Option<B>) -> (awaited: bool)
        ensures
            awaited == self@.awaits(outcome, *returned),
    {
        match self.phase {
            Phase::Writing(pending) => {
                let serializing = match pending {
                    Pending::Feed { .. } => true,
                    Pending::ExecutionError => true,
                    _ => false,
                };
                let timed_out = match outcome {
                    WriteOutcome::TimedOut => true,
                    _ => false,
                };
                if serializing {
                    !self.pool.is_available() && (timed_out || returned.is_some())
                } else {
                    self.pool.is_available() && returned.is_none()
                }
            },
            _ => false,
        }
    }

    /// Before each wait: hands out the oldest queued payload for the caller
    /// to start its handler, if the slot is empty and a payload is queued.
    pub fn start_next(&mut self) -> (next: Option<Inbound>)
        ensures
            (final(self)@, inbound_view(next)) == old(self)@.start(),
    {
        let selecting = match self.phase {
            Phase::Selecting => true,
            _ => false,
        };
        if !selecting || self.handler_pending {
            return None;
        }
        let next = self.queue.pop_front();
        if next.is_some() {
            self.handler_pending = true;
            assert(self@.queue =~= old(self)@.queue.skip(1));
        } else {
            assert(self@.queue =~= old(self)@.queue);
        }
        next
    }

    /// The transition on what a wait ended with.
    pub fn on_event(&mut self, event: Event) -> (step: Step<B>)
        requires
            old(self)@.accepts(event@),
        ensures
            (final(self)@, step@) == old(self)@.on_event(event@),
    {
        match event {
            Event::HandlerFinished(result) => {
                self.handler_pending = false;
                match result {
                    Ok(_) => resume_step(),
                    Err(HandleError::Execution) => self.lend(Pending::ExecutionError),
                    Err(HandleError::Other(text)) => {
                        self.phase = Phase::Writing(Pending::HandlerClose);
                        order_step(
                            Pending::HandlerClose,
                            Write::Close(CloseFrame { code: CLOSE_ERROR, reason: text }),
                        )
                    },
                }
            },
            Event::Frame { frame, at } => {
                match ClientMessage::from_message(frame) {
                    ClientMessage::Message(message) => {
                        let inbound = Inbound { message, arrival: at };
                        self.queue.push_back(inbound);
                        assert(self@.queue =~= old(self)@.queue.push(inbound@));
                        resume_step()
                    },
                    ClientMessage::Ping(_) => resume_step(),
                    ClientMessage::Pong(_) => {
                        self.got_pong = true;
                        resume_step()
                    },
                    ClientMessage::Close(_) => {
                        let count_peer_close = !self.closed;
                        self.closed = true;
                        Step {
                            directive: Directive::Resume,
                            effects: Effects {
                                close_receiver: true,
                                count_peer_close,
                                dropped: 0,
                                slow_send: false,
                            },
                        }
                    },
                }
            },
            Event::ReadFailed => self.leave(ExitReason::ReadFailed),
            Event::StreamEnded => self.leave(ExitReason::StreamEnded),
            Event::Outbound(count) => {
                if self.closed {
                    Step {
                        directive: Directive::Resume,
                        effects: Effects {
                            close_receiver: false,
                            count_peer_close: false,
                            dropped: count,
                            slow_send: false,
                        },
                    }
                } else {
                    self.lend(Pending::Feed { index: 0, total: count })
                }
            },
            Event::ModuleExited => {
                self.phase = Phase::Writing(Pending::ModuleClose);
                let reason = "module exited".to_owned();
                order_step(
                    Pending::ModuleClose,
                    Write::Close(CloseFrame { code: CLOSE_AWAY, reason }),
                )
            },
            Event::ModuleChanged => resume_step(),
            Event::LivenessTick => {
                if self.got_pong {
                    self.got_pong = false;
                    self.phase = Phase::Writing(Pending::Ping);
                    order_step(Pending::Ping, Write::Ping)
                } else {
                    self.leave(ExitReason::LivenessTimedOut)
                }
            },
        }
    }

    /// The transition on the outcome of the write that is awaited,
    /// `elapsed_nanos` after its deadline started, with the buffer if the
    /// write had it.
    pub fn on_write_outcome(
        &mut self,
        outcome: WriteOutcome,
        elapsed_nanos: u128,
        returned: Option<B>,
    ) -> (step: Step<B>)
        requires
            old(self)@.awaits(outcome, returned),
        ensures
            (final(self)@, step@) == old(self)@.on_write_outcome(outcome, elapsed_nanos, returned),
    {
        let pending = match self.phase {
            Phase::Writing(pending) => pending,
            _ => { return resume_step(); },
        };
        match outcome {
            WriteOutcome::TimedOut => { return self.leave(ExitReason::SendTimedOut); },
            _ => {},
        }
        if let Some(buffer) = returned {
            let _ = self.pool.reclaim(buffer);
        }
        let failed = match outcome {
            WriteOutcome::Failed => true,
            _ => false,
        };
        match pending {
            Pending::Feed { index, total } => {
                if failed {
                    self.finish_batch(elapsed_nanos)
                } else if index < total && index + 1 < total {
                    self.lend(Pending::Feed { index: index + 1, total })
                } else {
                    self.phase = Phase::Writing(Pending::Flush);
                    order_step(Pending::Flush, Write::Flush)
                }
            },
            Pending::Flush => self.finish_batch(elapsed_nanos),
            Pending::ModuleClose => {
                self.closed = true;
                self.phase = Phase::Selecting;
                resume_step()
            },
            Pending::HandlerClose => {
                self.closed = true;
                self.phase = Phase::Selecting;
                resume_step()
            },
            Pending::Ping => {
                self.phase = Phase::Selecting;
                resume_step()
            },
            Pending::ExecutionError => {
                self.phase = Phase::Selecting;
                resume_step()
            },
        }
    }

    fn lend(&mut self, pending: Pending) -> (step: Step<B>)
        requires
            old(self)@.buffer is Some,
            serializes(pending),
        ensures
            (final(self)@, step@) == old(self)@.serialize(pending),
    {
        let buffer = self.pool.take().unwrap();
        self.phase = Phase::Writing(pending);
        let write = match pending {
            Pending::Feed { index, .. } => Write::Feed { index, buffer },
            _ => Write::ExecutionError { buffer },
        };
        order_step(pending, write)
    }

    fn finish_batch(&mut self, elapsed_nanos: u128) -> (step: Step<B>)
        ensures
            (final(self)@, step@) == old(self)@.batch_done(elapsed_nanos),
    {
        self.phase = Phase::Selecting;
        Step {
            directive: Directive::Resume,
            effects: Effects {
                close_receiver: false,
                count_peer_close: false,
                dropped: 0,
                slow_send: elapsed_nanos > SLOW_SEND_NANOS,
            },
        }
    }

    fn leave(&mut self, reason: ExitReason) -> (step: Step<B>)
        ensures
            (final(self)@, step@) == old(self)@.exit(reason),
    {
        self.queue.clear();
        self.handler_pending = false;
        self.phase = Phase::Gone(reason);
        let _ = self.pool.take();
        assert(self@.queue =~= Seq::empty());
        Step {
            directive: Directive::Exit(reason),
            effects: Effects {
                close_receiver: true,
                count_peer_close: false,
                dropped: 0,
                slow_send: false,
            },
        }
    }
}

} // verus!
