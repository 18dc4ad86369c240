//! What holds of every session, whatever happens to it. A session's life
//! is the sequence of inputs that its caller gave it since it was made.

use crate::message::{classify, ClientMessageView, WsMessageView};
use crate::model::{handler_failed_frame, module_exited_frame, order, SessionState};
use crate::protocol::{
    DirectiveView, EventView, ExitReason, HandleErrorView, InboundView, Lifecycle, Pending, Phase,
    WriteOrderView, WriteOutcome, WriteView, SEND_TIMEOUT_SECS,
};
use vstd::prelude::*;

verus! {

/// One call on a session.
pub enum Input<B> {
    /// The caller asks for the next payload to handle.
    Start,
    /// The caller reports what its wait ended with.
    Event(EventView),
    /// The caller reports how the awaited write ended and after how many
    /// nanoseconds, and gives the buffer back if the write had it.
    Outcome(WriteOutcome, u128, Option<B>),
}

/// Whether `input` can come in `state`.
pub open spec fn admits<B>(state: SessionState<B>, input: Input<B>) -> bool {
    match input {
        Input::Start => true,
        Input::Event(event) => state.accepts(event),
        Input::Outcome(outcome, _, returned) => state.awaits(outcome, returned),
    }
}

/// The state that `input` leaves behind.
pub open spec fn after<B>(state: SessionState<B>, input: Input<B>) -> SessionState<B> {
    match input {
        Input::Start => state.start().0,
        Input::Event(event) => state.on_event(event).0,
        Input::Outcome(outcome, elapsed, returned) => state.on_write_outcome(
            outcome,
            elapsed,
            returned,
        ).0,
    }
}

/// What `input` tells the caller to do, if it tells anything.
pub open spec fn directed<B>(state: SessionState<B>, input: Input<B>) -> Option<DirectiveView<B>> {
    match input {
        Input::Start => None,
        Input::Event(event) => Some(state.on_event(event).1.directive),
        Input::Outcome(outcome, elapsed, returned) => Some(
            state.on_write_outcome(outcome, elapsed, returned).1.directive,
        ),
    }
}

/// The write that a directive orders, if it orders one.
pub open spec fn written<B>(directive: Option<DirectiveView<B>>) -> Option<WriteOrderView<B>> {
    match directive {
        Some(DirectiveView::Write(order)) => Some(order),
        _ => None,
    }
}

/// The buffer that goes out with a write, if one does.
pub open spec fn buffer_of<B>(write: WriteView<B>) -> Option<B> {
    match write {
        WriteView::Feed { buffer, .. } => Some(buffer),
        WriteView::ExecutionError { buffer } => Some(buffer),
        _ => None,
    }
}

/// The buffer that the session has once `input` is taken in: the one that
/// came back with an outcome, or else the one that it held.
pub open spec fn at_hand<B>(state: SessionState<B>, input: Input<B>) -> Option<B> {
    match input {
        Input::Outcome(_, _, Some(returned)) => Some(returned),
        _ => state.buffer,
    }
}

/// Whether `write` belongs to a batch of outbound messages.
pub open spec fn is_batch_write<B>(write: WriteView<B>) -> bool {
    write is Feed || write is Flush
}

/// The state after `inputs` of a session that was made with `buffer`.
pub open spec fn run<B>(buffer: B, inputs: Seq<Input<B>>) -> SessionState<B>
    decreases inputs.len(),
{
    if inputs.len() == 0 {
        SessionState::initial(buffer)
    } else {
        after(run(buffer, inputs.drop_last()), inputs.last())
    }
}

/// Whether each of `inputs` could come when it came.
pub open spec fn lawful<B>(buffer: B, inputs: Seq<Input<B>>) -> bool
    decreases inputs.len(),
{
    inputs.len() == 0 || (lawful(buffer, inputs.drop_last()) && admits(
        run(buffer, inputs.drop_last()),
        inputs.last(),
    ))
}

/// The payloads that were handed out for handling, in that order.
pub open spec fn handed_out<B>(buffer: B, inputs: Seq<Input<B>>) -> Seq<InboundView>
    decreases inputs.len(),
{
    if inputs.len() == 0 {
        Seq::empty()
    } else {
        let earlier = handed_out(buffer, inputs.drop_last());
        match inputs.last() {
            Input::Start => match run(buffer, inputs.drop_last()).start().1 {
                Some(inbound) => earlier.push(inbound),
                None => earlier,
            },
            _ => earlier,
        }
    }
}

/// The payloads that were read from the socket, in that order.
pub open spec fn arrived<B>(inputs: Seq<Input<B>>) -> Seq<InboundView>
    decreases inputs.len(),
{
    if inputs.len() == 0 {
        Seq::empty()
    } else {
        let earlier = arrived(inputs.drop_last());
        match inputs.last() {
            Input::Event(EventView::Frame { frame, at }) => match classify(frame) {
                ClientMessageView::Message(message) => earlier.push(
                    InboundView { message, arrival: at },
                ),
                _ => earlier,
            },
            _ => earlier,
        }
    }
}

/// The number of handlers that were started and have neither finished nor
/// been dropped with the loop.
pub open spec fn in_flight<B>(buffer: B, inputs: Seq<Input<B>>) -> int
    decreases inputs.len(),
{
    if inputs.len() == 0 {
        0
    } else if run(buffer, inputs).phase is Gone {
        0
    } else {
        let earlier = in_flight(buffer, inputs.drop_last());
        match inputs.last() {
            Input::Start => if run(buffer, inputs.drop_last()).start().1 is Some {
                earlier + 1
            } else {
                earlier
            },
            Input::Event(EventView::HandlerFinished(_)) => earlier - 1,
            _ => earlier,
        }
    }
}

/// The number of times that the caller was told to leave the loop.
pub open spec fn exits<B>(buffer: B, inputs: Seq<Input<B>>) -> nat
    decreases inputs.len(),
{
    if inputs.len() == 0 {
        0
    } else {
        let earlier = exits(buffer, inputs.drop_last());
        match directed(run(buffer, inputs.drop_last()), inputs.last()) {
            Some(DirectiveView::Exit(_)) => earlier + 1,
            _ => earlier,
        }
    }
}

/// What holds of every state that a session can be in: the buffer is where
/// it belongs; a batch is fed only while the session is open, message by
/// message within its bounds; and a session that has ended holds neither
/// a queue nor a handler.
pub open spec fn consistent<B>(state: SessionState<B>) -> bool {
    &&& state.wf()
    &&& match state.phase {
        Phase::Selecting => true,
        Phase::Writing(Pending::Feed { index, total }) => !state.closed && index < total,
        Phase::Writing(Pending::Flush) => !state.closed,
        Phase::Writing(Pending::ModuleClose) => !state.closed,
        Phase::Writing(_) => true,
        Phase::Gone(_) => state.queue.len() == 0 && !state.handler_pending,
    }
}

/// How far a session has come.
pub open spec fn rank(lifecycle: Lifecycle) -> nat {
    match lifecycle {
        Lifecycle::Open => 0,
        Lifecycle::Closing => 1,
        Lifecycle::Gone => 2,
    }
}

/// What closes an open session with `input`, if anything does: a close
/// frame from the peer, or the outcome, sent or refused, of a close frame
/// of its own.
pub open spec fn closes<B>(state: SessionState<B>, input: Input<B>) -> bool {
    match input {
        Input::Event(EventView::Frame { frame: WsMessageView::Close(_), .. }) => true,
        Input::Outcome(outcome, _, _) => !(outcome is TimedOut) && (state.phase == Phase::Writing(
            Pending::ModuleClose,
        ) || state.phase == Phase::Writing(Pending::HandlerClose)),
        _ => false,
    }
}

/// Why `input` ends the session, if it does: the stream ended, reading
/// failed, a send deadline expired, or a tick found the last ping unanswered.
pub open spec fn ends<B>(state: SessionState<B>, input: Input<B>) -> Option<ExitReason> {
    match input {
        Input::Event(EventView::StreamEnded) => Some(ExitReason::StreamEnded),
        Input::Event(EventView::ReadFailed) => Some(ExitReason::ReadFailed),
        Input::Event(EventView::LivenessTick) => if state.got_pong {
            None
        } else {
            Some(ExitReason::LivenessTimedOut)
        },
        Input::Outcome(WriteOutcome::TimedOut, _, _) => Some(ExitReason::SendTimedOut),
        _ => None,
    }
}

/// Every state that a session reaches is consistent.
pub proof fn lemma_reached_is_consistent<B>(buffer: B, inputs: Seq<Input<B>>)
    requires
        lawful(buffer, inputs),
    ensures
        consistent(run(buffer, inputs)),
    decreases inputs.len(),
{
    if inputs.len() > 0 {
        lemma_reached_is_consistent(buffer, inputs.drop_last());
    }
}

/// At every instant at most one handler is pending, and the session knows
/// whether one is.
pub proof fn lemma_at_most_one_handler<B>(buffer: B, inputs: Seq<Input<B>>)
    requires
        lawful(buffer, inputs),
    ensures
        0 <= in_flight(buffer, inputs) <= 1,
        in_flight(buffer, inputs) == 1 <==> run(buffer, inputs).handler_pending,
    decreases inputs.len(),
{
    if inputs.len() > 0 {
        lemma_at_most_one_handler(buffer, inputs.drop_last());
        lemma_reached_is_consistent(buffer, inputs);
    }
}

/// Payloads are handled in the order in which they arrived: what was
/// handed out is the beginning of what arrived, and until the session ends
/// the queue holds the rest.
pub proof fn lemma_handled_in_arrival_order<B>(buffer: B, inputs: Seq<Input<B>>)
    requires
        lawful(buffer, inputs),
    ensures
        handed_out(buffer, inputs).is_prefix_of(arrived(inputs)),
        !(run(buffer, inputs).phase is Gone) ==> handed_out(buffer, inputs) + run(
            buffer,
            inputs,
        ).queue == arrived(inputs),
    decreases inputs.len(),
{
    if inputs.len() > 0 {
        let earlier = inputs.drop_last();
        let before = run(buffer, earlier);
        lemma_handled_in_arrival_order(buffer, earlier);
        lemma_reached_is_consistent(buffer, earlier);
        if before.phase is Gone {
            assert(run(buffer, inputs) == before);
        } else {
            assert(handed_out(buffer, earlier) + before.queue == arrived(earlier));
            match inputs.last() {
                Input::Start => {
                    if before.start().1 is Some {
                        assert(handed_out(buffer, inputs) + run(buffer, inputs).queue
                            =~= handed_out(buffer, earlier) + before.queue);
                    }
                },
                Input::Event(event) => {
                    if run(buffer, inputs).phase is Gone {
                        assert(arrived(inputs) == arrived(earlier));
                    } else {
                        assert(handed_out(buffer, inputs) + run(buffer, inputs).queue =~= arrived(
                            inputs,
                        ));
                    }
                },
                Input::Outcome(_, _, _) => {},
            }
        }
    }
}

/// The caller is told to leave the loop at most once, and exactly once if
/// the session has ended.
pub proof fn lemma_exit_comes_once<B>(buffer: B, inputs: Seq<Input<B>>)
    requires
        lawful(buffer, inputs),
    ensures
        exits(buffer, inputs) <= 1,
        exits(buffer, inputs) == 1 <==> run(buffer, inputs).phase is Gone,
    decreases inputs.len(),
{
    if inputs.len() > 0 {
        lemma_exit_comes_once(buffer, inputs.drop_last());
    }
}

/// A session that has ended stays as it is: no event and no outcome can
/// come, and there is nothing to hand out.
pub proof fn lemma_gone_is_final<B>(state: SessionState<B>, input: Input<B>)
    requires
        state.phase is Gone,
        admits(state, input),
    ensures
        input is Start,
        after(state, input) == state,
        state.start().1 is None,
{
}

/// A session ends exactly when the stream ends, reading fails, a send
/// deadline expires, or a tick finds the last ping unanswered. It is then
/// told to leave the loop for that reason and to close the outbound
/// receiver, and it has dropped its queue, its handler and its buffer.
pub proof fn lemma_session_ends_for_a_cause<B>(state: SessionState<B>, input: Input<B>)
    requires
        !(state.phase is Gone),
        admits(state, input),
    ensures
        after(state, input).phase is Gone <==> ends(state, input) is Some,
        ends(state, input) matches Some(reason) ==> {
            &&& after(state, input).phase == Phase::Gone(reason)
            &&& directed(state, input) == Some(DirectiveView::<B>::Exit(reason))
            &&& after(state, input).queue.len() == 0
            &&& !after(state, input).handler_pending
            &&& after(state, input).buffer is None
        },
        directed(state, input) matches Some(DirectiveView::Exit(_)) ==> ends(state, input) is Some,
{
}

/// An open session closes exactly on a close frame from the peer, or on
/// the outcome, sent or refused, of a close frame of its own.
pub proof fn lemma_session_closes_for_a_cause<B>(state: SessionState<B>, input: Input<B>)
    requires
        !state.closed,
        admits(state, input),
    ensures
        after(state, input).closed <==> closes(state, input),
{
}

/// A session only moves on: from open to closing to gone, never back.
pub proof fn lemma_lifecycle_only_advances<B>(state: SessionState<B>, input: Input<B>)
    requires
        admits(state, input),
    ensures
        rank(state.lifecycle()) <= rank(after(state, input).lifecycle()),
{
}

/// A ping that is never answered ends the session: a tick that sends a ping
/// spends the pong on account, nothing but a pong from the peer restores
/// it, and the next tick without one ends the session for that reason.
pub proof fn lemma_unanswered_ping_ends_session<B>(state: SessionState<B>, input: Input<B>)
    requires
        admits(state, input),
    ensures
        input == Input::<B>::Event(EventView::LivenessTick) && state.got_pong ==> {
            &&& !after(state, input).got_pong
            &&& written(directed(state, input)) == Some(order(Pending::Ping, WriteView::<B>::Ping))
        },
        !state.got_pong && !(input matches Input::Event(
            EventView::Frame { frame: WsMessageView::Pong(_), .. },
        )) ==> !after(state, input).got_pong,
        input == Input::<B>::Event(EventView::LivenessTick) && !state.got_pong ==> directed(
            state,
            input,
        ) == Some(DirectiveView::<B>::Exit(ExitReason::LivenessTimedOut)),
{
}

/// Whether `input` is one of the two on which even a closed session
/// writes: a liveness tick, which may send a ping, and the failure of a
/// handler, which is answered.
pub open spec fn calls_for_an_answer<B>(input: Input<B>) -> bool {
    match input {
        Input::Event(EventView::LivenessTick) => true,
        Input::Event(EventView::HandlerFinished(Err(_))) => true,
        _ => false,
    }
}

/// A closed session attempts no further write, unless a liveness tick or
/// the failure of a handler calls for one.
pub proof fn lemma_closed_writes_nothing<B>(buffer: B, inputs: Seq<Input<B>>, input: Input<B>)
    requires
        lawful(buffer, inputs),
        run(buffer, inputs).closed,
        admits(run(buffer, inputs), input),
        !calls_for_an_answer(input),
    ensures
        written(directed(run(buffer, inputs), input)) is None,
{
    lemma_reached_is_consistent(buffer, inputs);
}

/// A closed session writes no outbound message. A batch that comes is
/// dropped whole and leaves the session as it was, and no input at all
/// makes the session feed or flush, nor send the close frame of a module's
/// exit.
pub proof fn lemma_closed_drops_outbound<B>(buffer: B, inputs: Seq<Input<B>>, input: Input<B>)
    requires
        lawful(buffer, inputs),
        run(buffer, inputs).closed,
        admits(run(buffer, inputs), input),
    ensures
        written(directed(run(buffer, inputs), input)) matches Some(order) ==> {
            &&& !is_batch_write(order.write)
            &&& order.write != WriteView::<B>::Close(module_exited_frame())
        },
        input matches Input::Event(EventView::Outbound(count)) ==> {
            &&& after(run(buffer, inputs), input) == run(buffer, inputs)
            &&& directed(run(buffer, inputs), input) == Some(DirectiveView::<B>::Resume)
            &&& run(buffer, inputs).on_event(EventView::Outbound(count)).1.effects.dropped == count
        },
{
    lemma_reached_is_consistent(buffer, inputs);
    if let Input::Event(EventView::HandlerFinished(Err(HandleErrorView::Other(text)))) = input {
        assert(handler_failed_frame(text).code != module_exited_frame().code);
    }
}

/// The buffer is back before anything is serialized into it again. A
/// session has its buffer exactly while no write that serializes is
/// awaited. The buffer that goes out with such a write is the one at hand:
/// the one that the session held, or the one that came back with the very
/// outcome that the write follows. The session is then without it, and
/// nothing can come but the write's outcome.
pub proof fn lemma_buffer_is_back_before_serializing<B>(
    buffer: B,
    inputs: Seq<Input<B>>,
    input: Input<B>,
)
    requires
        lawful(buffer, inputs),
        admits(run(buffer, inputs), input),
    ensures
        run(buffer, inputs).wf(),
        after(run(buffer, inputs), input).wf(),
        written(directed(run(buffer, inputs), input)) matches Some(order) ==> {
            let state = run(buffer, inputs);
            &&& buffer_of(order.write) is Some ==> {
                &&& buffer_of(order.write) == at_hand(state, input)
                &&& after(state, input).buffer is None
                &&& forall|event: EventView| !after(state, input).accepts(event)
            }
            &&& buffer_of(order.write) is None ==> after(state, input).buffer is Some
        },
{
    lemma_reached_is_consistent(buffer, inputs);
}

/// Every write is made under the send deadline and its outcome is then
/// awaited, and a write whose deadline expired ends the session with
/// nothing more written.
pub proof fn lemma_writes_are_bounded<B>(
    state: SessionState<B>,
    input: Input<B>,
    elapsed_nanos: u128,
    returned: Option<B>,
)
    requires
        admits(state, input),
    ensures
        written(directed(state, input)) matches Some(order) ==> {
            &&& order.deadline_secs == SEND_TIMEOUT_SECS
            &&& after(state, input).phase is Writing
        },
        state.phase is Writing ==> directed(
            state,
            Input::Outcome(WriteOutcome::TimedOut, elapsed_nanos, returned),
        ) == Some(DirectiveView::<B>::Exit(ExitReason::SendTimedOut)),
{
}

/// No write is awaited without the pending handler being driven.
pub proof fn lemma_pending_handler_is_pumped<B>(state: SessionState<B>, input: Input<B>)
    requires
        admits(state, input),
        after(state, input).handler_pending,
    ensures
        written(directed(state, input)) matches Some(order) ==> order.pump_handler,
{
}

/// The messages of a batch are fed in the order in which they were
/// received: the first at once, each next one when the one before it was
/// sent, and the flush after the last.
pub proof fn lemma_batch_is_fed_in_order<B>(
    state: SessionState<B>,
    count: usize,
    index: usize,
    total: usize,
    elapsed_nanos: u128,
    returned: B,
)
    ensures
        state.accepts(EventView::Outbound(count)) && !state.closed ==> directed(
            state,
            Input::Event(EventView::Outbound(count)),
        ) == Some(
            DirectiveView::Write(
                order(
                    Pending::Feed { index: 0, total: count },
                    WriteView::Feed { index: 0, buffer: state.buffer->0 },
                ),
            ),
        ),
        state.phase == (Phase::Writing(Pending::Feed { index, total })) && index + 1 < total
            ==> directed(
            state,
            Input::Outcome(WriteOutcome::Sent, elapsed_nanos, Some(returned)),
        ) == Some(
            DirectiveView::Write(
                order(
                    Pending::Feed { index: (index + 1) as usize, total },
                    WriteView::Feed { index: (index + 1) as usize, buffer: returned },
                ),
            ),
        ),
        state.phase == (Phase::Writing(Pending::Feed { index, total })) && index + 1 >= total
            ==> directed(
            state,
            Input::Outcome(WriteOutcome::Sent, elapsed_nanos, Some(returned)),
        ) == Some(DirectiveView::Write(order(Pending::Flush, WriteView::<B>::Flush))),
{
}

} // verus!
