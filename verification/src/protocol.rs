//! What passes between a session and its caller: the events and outcomes
//! that the caller reports, and the steps that it is given to carry out.

use crate::message::{
    CloseFrame, CloseFrameView, DataMessage, DataMessageView, WsMessage, WsMessageView,
};
use std::time::Instant;
use vstd::prelude::*;

verus! {

/// `std::time::Instant`: a reading of the monotonic clock. The session
/// carries such readings and never looks inside them.
#[verifier::external_type_specification]
#[verifier::external_body]
pub struct ExInstant(std::time::Instant);

/// Seconds between two liveness ticks.
pub const LIVENESS_INTERVAL_SECS: u64 = 60;

/// Seconds that one write, or one batch of writes, may take.
pub const SEND_TIMEOUT_SECS: u64 = 5;

/// Nanoseconds beyond which a completed batch counts as slow: 50 ms.
pub const SLOW_SEND_NANOS: u128 = 50_000_000;

/// The most outbound messages that are taken from the receiver at once.
pub const OUTBOUND_BATCH_LIMIT: usize = 32;

/// Close code "going away", sent when the module has exited.
pub const CLOSE_AWAY: u16 = 1001;

/// Close code "internal error", sent when a handler failed.
pub const CLOSE_ERROR: u16 = 1011;

/// A payload waiting for its handler, with the instant at which it was queued.
#[derive(Debug, PartialEq, Eq)]
pub struct Inbound {
    pub message: DataMessage,
    pub arrival: Instant,
}

pub struct InboundView {
    pub message: DataMessageView,
    pub arrival: Instant,
}

impl View for Inbound {
    type V = InboundView;

    open spec fn view(&self) -> InboundView {
        InboundView { message: self.message@, arrival: self.arrival }
    }
}

/// The view of a payload that may be absent.
pub open spec fn inbound_view(inbound: Option<Inbound>) -> Option<InboundView> {
    match inbound {
        Some(inbound) => Some(inbound@),
        None => None,
    }
}

/// Why a handler did not succeed.
#[derive(Clone, Debug, PartialEq, Eq)]
pub enum HandleError {
    /// The request ran and failed; the caller holds the error to serialize.
    Execution,
    /// Anything else, with the error in words.
    Other(String),
}

pub enum HandleErrorView {
    Execution,
    Other(Seq<char>),
}

impl View for HandleError {
    type V = HandleErrorView;

    open spec fn view(&self) -> HandleErrorView {
        match self {
            HandleError::Execution => HandleErrorView::Execution,
            HandleError::Other(text) => HandleErrorView::Other(text@),
        }
    }
}

/// The view of a handler's result.
pub open spec fn handled_view(result: Result<(), HandleError>) -> Result<(), HandleErrorView> {
    match result {
        Ok(_) => Ok(()),
        Err(error) => Err(error@),
    }
}

/// What one wait of the session can end with.
#[derive(Debug, PartialEq, Eq)]
pub enum Event {
    /// The pending handler resolved.
    HandlerFinished(Result<(), HandleError>),
    /// A frame was read from the socket at instant `at`.
    Frame { frame: WsMessage, at: Instant },
    /// Reading from the socket failed.
    ReadFailed,
    /// The socket's stream ended: the close handshake is complete.
    StreamEnded,
    /// This many outbound messages were taken from the receiver.
    Outbound(usize),
    /// The module is no longer there.
    ModuleExited,
    /// The module was replaced and is still there.
    ModuleChanged,
    /// The liveness interval elapsed.
    LivenessTick,
}

pub enum EventView {
    HandlerFinished(Result<(), HandleErrorView>),
    Frame { frame: WsMessageView, at: Instant },
    ReadFailed,
    StreamEnded,
    Outbound(usize),
    ModuleExited,
    ModuleChanged,
    LivenessTick,
}

impl View for Event {
    type V = EventView;

    open spec fn view(&self) -> EventView {
        match self {
            Event::HandlerFinished(result) => EventView::HandlerFinished(handled_view(*result)),
            Event::Frame { frame, at } => EventView::Frame { frame: frame@, at: *at },
            Event::ReadFailed => EventView::ReadFailed,
            Event::StreamEnded => EventView::StreamEnded,
            Event::Outbound(count) => EventView::Outbound(*count),
            Event::ModuleExited => EventView::ModuleExited,
            Event::ModuleChanged => EventView::ModuleChanged,
            Event::LivenessTick => EventView::LivenessTick,
        }
    }
}

/// How a write that the session ordered ended.
#[derive(Clone, Copy, Debug, PartialEq, Eq, Structural)]
pub enum WriteOutcome {
    Sent,
    /// The framing layer refused the write.
    Failed,
    /// The send deadline expired first.
    TimedOut,
}

/// Why the session ended.
#[derive(Clone, Copy, Debug, PartialEq, Eq, Structural)]
pub enum ExitReason {
    ReadFailed,
    StreamEnded,
    SendTimedOut,
    /// A liveness tick came and the last ping was never answered.
    LivenessTimedOut,
}

/// The write that the session is waiting for.
#[derive(Clone, Copy, Debug, PartialEq, Eq, Structural)]
pub enum Pending {
    /// Message `index` of a batch of `total` is being serialized and fed.
    Feed { index: usize, total: usize },
    /// The batch was fed and is being flushed.
    Flush,
    /// The close frame that follows the module's exit.
    ModuleClose,
    Ping,
    /// A handler's execution error is being serialized and sent.
    ExecutionError,
    /// The close frame that follows a handler's failure.
    HandlerClose,
}

#[derive(Clone, Copy, Debug, PartialEq, Eq, Structural)]
pub enum Phase {
    /// Waiting for the next event.
    Selecting,
    /// Waiting for the outcome of a write.
    Writing(Pending),
    /// The loop has returned.
    Gone(ExitReason),
}

/// One operation on the framing layer. An operation that serializes comes
/// with the session's one scratch buffer, which goes back to the session
/// with the operation's outcome.
#[derive(Clone, Debug, PartialEq, Eq)]
pub enum Write<B> {
    /// Serialize message `index` of the batch into `buffer` and feed it,
    /// without flushing.
    Feed { index: usize, buffer: B },
    Flush,
    /// A ping with an empty payload.
    Ping,
    Close(CloseFrame),
    /// Serialize the handler's execution error into `buffer` and send it.
    ExecutionError { buffer: B },
}

pub enum WriteView<B> {
    Feed { index: usize, buffer: B },
    Flush,
    Ping,
    Close(CloseFrameView),
    ExecutionError { buffer: B },
}

impl<B> View for Write<B> {
    type V = WriteView<B>;

    open spec fn view(&self) -> WriteView<B> {
        match self {
            Write::Feed { index, buffer } => WriteView::Feed { index: *index, buffer: *buffer },
            Write::Flush => WriteView::Flush,
            Write::Ping => WriteView::Ping,
            Write::Close(frame) => WriteView::Close(frame@),
            Write::ExecutionError { buffer } => WriteView::ExecutionError { buffer: *buffer },
        }
    }
}

/// A write and the terms on which it is made.
#[derive(Clone, Debug, PartialEq, Eq)]
pub struct WriteOrder<B> {
    pub write: Write<B>,
    /// Drive the pending handler while the write is awaited.
    pub pump_handler: bool,
    /// The deadline starts with this write; otherwise the one that is
    /// running goes on.
    pub starts_deadline: bool,
    /// The length of the deadline in seconds.
    pub deadline_secs: u64,
}

pub struct WriteOrderView<B> {
    pub write: WriteView<B>,
    pub pump_handler: bool,
    pub starts_deadline: bool,
    pub deadline_secs: u64,
}

impl<B> View for WriteOrder<B> {
    type V = WriteOrderView<B>;

    open spec fn view(&self) -> WriteOrderView<B> {
        WriteOrderView {
            write: self.write@,
            pump_handler: self.pump_handler,
            starts_deadline: self.starts_deadline,
            deadline_secs: self.deadline_secs,
        }
    }
}

/// What the caller does next.
#[derive(Clone, Debug, PartialEq, Eq)]
pub enum Directive<B> {
    /// Wait for the next event.
    Resume,
    /// Make this write and report its outcome.
    Write(WriteOrder<B>),
    /// Leave the loop, without writing anything more.
    Exit(ExitReason),
}

pub enum DirectiveView<B> {
    Resume,
    Write(WriteOrderView<B>),
    Exit(ExitReason),
}

impl<B> View for Directive<B> {
    type V = DirectiveView<B>;

    open spec fn view(&self) -> DirectiveView<B> {
        match self {
            Directive::Resume => DirectiveView::Resume,
            Directive::Write(order) => DirectiveView::Write(order@),
            Directive::Exit(reason) => DirectiveView::Exit(*reason),
        }
    }
}

/// What the caller does beside following the directive.
#[derive(Clone, Copy, Debug, PartialEq, Eq, Structural)]
pub struct Effects {
    /// Close the outbound receiver, so that producers learn of the end.
    pub close_receiver: bool,
    /// Count one close that the peer began.
    pub count_peer_close: bool,
    /// This many outbound messages were dropped unsent.
    pub dropped: usize,
    /// The batch took longer than [`SLOW_SEND_NANOS`].
    pub slow_send: bool,
}

/// The outcome of one transition.
#[derive(Clone, Debug, PartialEq, Eq)]
pub struct Step<B> {
    pub directive: Directive<B>,
    pub effects: Effects,
}

pub struct StepView<B> {
    pub directive: DirectiveView<B>,
    pub effects: Effects,
}

impl<B> View for Step<B> {
    type V = StepView<B>;

    open spec fn view(&self) -> StepView<B> {
        StepView { directive: self.directive@, effects: self.effects }
    }
}


/// Where a session stands: open, closing, or gone once its loop has returned.
#[derive(Clone, Copy, Debug, PartialEq, Eq, Structural)]
pub enum Lifecycle {
    Open,
    Closing,
    Gone,
}

} // verus!
