use vstd::prelude::*;
use crate::error::{ErrorCode, ErrorInfo};

verus! {

/// Where a stream cursor stands: opened and not yet asked, having emitted at
/// least one batch, or done (the stream ended or failed).
#[derive(Debug, Clone, Copy, PartialEq, Eq, Structural)]
pub enum CursorState {
    Open,
    Emitting,
    Exhausted,
}

/// What asking the execution stream for its next batch gave: the batch in its
/// framed binary form, the end of the stream, or a failure with the engine's
/// diagnostic text.
#[derive(Debug, Clone, PartialEq, Eq)]
pub enum StreamEvent {
    Batch(Vec<u8>),
    End,
    Failed(String),
}

/// What the completion callback of one `stream_next` is given.
#[derive(Debug, Clone, PartialEq, Eq)]
pub enum Delivery {
    /// The framed bytes of one batch, as the success payload.
    Bytes(Vec<u8>),
    /// Neither payload nor error: the end-of-stream sentinel.
    EndOfStream,
    /// An error record.
    Error(ErrorInfo),
}

/// How one `stream_next` call ends: with one firing of the callback, or
/// refused at once with a status code and no firing.
#[derive(Debug, Clone, PartialEq, Eq)]
pub enum CallOutcome {
    Delivered(Delivery),
    Refused(ErrorCode),
}

/// A resumable, forward-only cursor over the batches of a running query.
#[derive(Debug, Clone, Copy, PartialEq, Eq)]
pub struct StreamCursor {
    pub state: CursorState,
}

/// What the callback is given for an event.
pub open spec fn spec_delivery(event: StreamEvent) -> Delivery {
    match event {
        StreamEvent::Batch(bytes) => Delivery::Bytes(bytes),
        StreamEvent::End => Delivery::EndOfStream,
        StreamEvent::Failed(message) => Delivery::Error(
            ErrorInfo { code: ErrorCode::DataFrameError, message },
        ),
    }
}

/// Where the cursor stands after an event.
pub open spec fn spec_next_state(event: StreamEvent) -> CursorState {
    match event {
        StreamEvent::Batch(_) => CursorState::Emitting,
        StreamEvent::End => CursorState::Exhausted,
        StreamEvent::Failed(_) => CursorState::Exhausted,
    }
}

/// One `stream_next` call on a cursor in `state`, where the stream would give
/// `event`: an exhausted cursor refuses without looking at the stream.
pub open spec fn spec_call(state: CursorState, event: StreamEvent) -> (CursorState, CallOutcome) {
    if state == CursorState::Exhausted {
        (CursorState::Exhausted, CallOutcome::Refused(ErrorCode::InvalidArgument))
    } else {
        (spec_next_state(event), CallOutcome::Delivered(spec_delivery(event)))
    }
}

/// The state after a run of calls, one per event.
pub open spec fn spec_run_state(state: CursorState, events: Seq<StreamEvent>) -> CursorState
    decreases events.len(),
{
    if events.len() == 0 {
        state
    } else {
        spec_call(spec_run_state(state, events.drop_last()), events.last()).0
    }
}

/// The outcomes of a run of calls, one per event, in call order.
pub open spec fn spec_run(state: CursorState, events: Seq<StreamEvent>) -> Seq<CallOutcome>
    decreases events.len(),
{
    if events.len() == 0 {
        Seq::empty()
    } else {
        spec_run(state, events.drop_last()).push(
            spec_call(spec_run_state(state, events.drop_last()), events.last()).1,
        )
    }
}

impl StreamCursor {
    /// The cursor of a stream that was just opened.
    pub fn new() -> (r: Self)
        ensures
            r.state == CursorState::Open,
    {
        StreamCursor { state: CursorState::Open }
    }

    /// Whether the cursor has reached its terminal state.
    pub fn is_exhausted(&self) -> (r: bool)
        ensures
            r == (self.state == CursorState::Exhausted),
    {
        match self.state {
            CursorState::Exhausted => true,
            _ => false,
        }
    }

    /// Admits a `stream_next` call: a cursor that is done refuses it with
    /// `InvalidArgument`, and the stream is not to be touched.
    pub fn begin_next(&self) -> (r: Result<(), ErrorCode>)
        ensures
            self.state == CursorState::Exhausted ==> r == Err::<(), ErrorCode>(
                ErrorCode::InvalidArgument,
            ),
            self.state != CursorState::Exhausted ==> r is Ok,
    {
        if self.is_exhausted() {
            Err(ErrorCode::InvalidArgument)
        } else {
            Ok(())
        }
    }

    /// Completes an admitted call with what the stream gave, and says what
    /// the callback is to be given.
    pub fn complete_next(&mut self, event: StreamEvent) -> (r: Delivery)
        requires
            old(self).state != CursorState::Exhausted,
        ensures
            r == spec_delivery(event),
            final(self).state == spec_next_state(event),
            (final(self).state, CallOutcome::Delivered(r)) == spec_call(old(self).state, event),
    {
        match event {
            StreamEvent::Batch(bytes) => {
                self.state = CursorState::Emitting;
                Delivery::Bytes(bytes)
            },
            StreamEvent::End => {
                self.state = CursorState::Exhausted;
                Delivery::EndOfStream
            },
            StreamEvent::Failed(message) => {
                self.state = CursorState::Exhausted;
                Delivery::Error(ErrorInfo { code: ErrorCode::DataFrameError, message })
            },
        }
    }

    /// One whole `stream_next` call where the stream's answer is at hand:
    /// refused on a cursor that is done, completed otherwise.
    pub fn stream_next(&mut self, event: StreamEvent) -> (r: CallOutcome)
        ensures
            (final(self).state, r) == spec_call(old(self).state, event),
    {
        match self.begin_next() {
            Err(code) => CallOutcome::Refused(code),
            Ok(()) => CallOutcome::Delivered(self.complete_next(event)),
        }
    }
}

/// The events of a stream that yields `batches` and then ends, followed by
/// whatever `later` calls would be told.
pub open spec fn batches_then_end(batches: Seq<Vec<u8>>, later: Seq<StreamEvent>) -> Seq<
    StreamEvent,
> {
    Seq::new(batches.len(), |i: int| StreamEvent::Batch(batches[i])).push(StreamEvent::End) + later
}

/// While only batches arrive, each call delivers its batch and the cursor is
/// not done.
pub proof fn lemma_batches_are_delivered(state: CursorState, batches: Seq<Vec<u8>>)
    requires
        state != CursorState::Exhausted,
    ensures
        spec_run_state(state, Seq::new(batches.len(), |i: int| StreamEvent::Batch(batches[i])))
            != CursorState::Exhausted,
        spec_run(state, Seq::new(batches.len(), |i: int| StreamEvent::Batch(batches[i])))
            == Seq::new(
            batches.len(),
            |i: int| CallOutcome::Delivered(Delivery::Bytes(batches[i])),
        ),
    decreases batches.len(),
{
    let events = Seq::new(batches.len(), |i: int| StreamEvent::Batch(batches[i]));
    let outcomes = Seq::new(
        batches.len(),
        |i: int| CallOutcome::Delivered(Delivery::Bytes(batches[i])),
    );
    if batches.len() == 0 {
        assert(spec_run(state, events) =~= outcomes);
    } else {
        let head = batches.drop_last();
        lemma_batches_are_delivered(state, head);
        let head_events = Seq::new(head.len(), |i: int| StreamEvent::Batch(head[i]));
        assert(events.drop_last() =~= head_events);
        assert(events.last() == StreamEvent::Batch(batches.last()));
        assert(spec_run(state, events) =~= outcomes);
    }
}

/// Once the cursor is done, every further call is refused with
/// `InvalidArgument` and the cursor stays done.
pub proof fn lemma_exhausted_refuses(events: Seq<StreamEvent>)
    ensures
        spec_run_state(CursorState::Exhausted, events) == CursorState::Exhausted,
        spec_run(CursorState::Exhausted, events) == Seq::new(
            events.len(),
            |i: int| CallOutcome::Refused(ErrorCode::InvalidArgument),
        ),
    decreases events.len(),
{
    let refused = Seq::new(events.len(), |i: int| CallOutcome::Refused(ErrorCode::InvalidArgument));
    if events.len() == 0 {
        assert(spec_run(CursorState::Exhausted, events) =~= refused);
    } else {
        lemma_exhausted_refuses(events.drop_last());
        assert(spec_run(CursorState::Exhausted, events) =~= refused);
    }
}

/// Running calls over two runs of events, one after the other, is running
/// the second from the state that the first leaves.
pub proof fn lemma_run_concat(state: CursorState, first: Seq<StreamEvent>, second: Seq<StreamEvent>)
    ensures
        spec_run_state(state, first + second) == spec_run_state(
            spec_run_state(state, first),
            second,
        ),
        spec_run(state, first + second) == spec_run(state, first) + spec_run(
            spec_run_state(state, first),
            second,
        ),
    decreases second.len(),
{
    if second.len() == 0 {
        assert(first + second =~= first);
        assert(spec_run(state, first) + Seq::<CallOutcome>::empty() =~= spec_run(state, first));
    } else {
        lemma_run_concat(state, first, second.drop_last());
        assert((first + second).drop_last() =~= first + second.drop_last());
        assert((first + second).last() == second.last());
        let mid = spec_run_state(state, first);
        assert(spec_run(state, first + second) =~= spec_run(state, first) + spec_run(mid, second));
    }
}

/// Over a stream of exactly `batches.len()` batches, a fresh cursor delivers
/// each batch in order, then the end-of-stream sentinel exactly once, and
/// refuses every call after that.
pub proof fn lemma_stream_delivers_then_ends(batches: Seq<Vec<u8>>, later: Seq<StreamEvent>)
    ensures
        spec_run(CursorState::Open, batches_then_end(batches, later)).len() == batches.len() + 1
            + later.len(),
        forall|i: int|
            0 <= i < batches.len() ==> #[trigger] spec_run(
                CursorState::Open,
                batches_then_end(batches, later),
            )[i] == CallOutcome::Delivered(Delivery::Bytes(batches[i])),
        spec_run(CursorState::Open, batches_then_end(batches, later))[batches.len() as int]
            == CallOutcome::Delivered(Delivery::EndOfStream),
        forall|i: int|
            batches.len() < i <= batches.len() + later.len() ==> #[trigger] spec_run(
                CursorState::Open,
                batches_then_end(batches, later),
            )[i] == CallOutcome::Refused(ErrorCode::InvalidArgument),
        spec_run_state(CursorState::Open, batches_then_end(batches, later))
            == CursorState::Exhausted,
{
    let batch_events = Seq::new(batches.len(), |i: int| StreamEvent::Batch(batches[i]));
    let upto_end = batch_events.push(StreamEvent::End);
    lemma_batches_are_delivered(CursorState::Open, batches);
    assert(upto_end.drop_last() =~= batch_events);
    assert(upto_end.last() == StreamEvent::End);
    let mid = spec_run_state(CursorState::Open, batch_events);
    assert(spec_run_state(CursorState::Open, upto_end) == CursorState::Exhausted);
    assert(spec_run(CursorState::Open, upto_end) == spec_run(CursorState::Open, batch_events).push(
        CallOutcome::Delivered(Delivery::EndOfStream),
    ));
    lemma_run_concat(CursorState::Open, upto_end, later);
    lemma_exhausted_refuses(later);
}

} // verus!
