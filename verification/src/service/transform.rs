//! The rewriting of one response body, as a two-state machine.
//!
//! A body that is to be rewritten is buffered whole by the caller. Each time
//! the consumer of the outbound body asks for more, the caller polls its
//! buffering of the upstream body, reports what that gave, and sends on what
//! the machine answers. While the machine is done the upstream body is not
//! polled any more, and whatever is reported is ignored.

use vstd::prelude::*;
use crate::service::splice::insert_before;
use crate::service::splice::spliced;

verus! {

/// Where the rewriting of one body stands.
#[derive(Clone, Copy, Debug, PartialEq, Eq, Structural)]
pub enum TransformState {
    /// The upstream body is still being collected.
    Buffering,
    /// The one chunk has been handed out, or the upstream body failed.
    Done,
}

/// What polling the buffered upstream body gave.
#[derive(Debug, PartialEq, Eq)]
pub enum BodyPoll {
    /// The body is not complete yet.
    Pending,
    /// The whole body has arrived.
    Complete(Vec<u8>),
    /// Reading the body failed.
    Failed,
}

/// What the outbound body yields for one poll.
#[derive(Debug, PartialEq, Eq)]
pub enum Emit {
    /// Nothing yet: ask again later.
    NotReady,
    /// The one chunk of the body.
    Chunk(Vec<u8>),
    /// The body has ended.
    End,
}

/// An [`Emit`] over a mathematical sequence.
pub ghost enum EmitModel {
    NotReady,
    Chunk(Seq<u8>),
    End,
}

impl View for Emit {
    type V = EmitModel;

    open spec fn view(&self) -> EmitModel {
        match *self {
            Emit::NotReady => EmitModel::NotReady,
            Emit::Chunk(bytes) => EmitModel::Chunk(bytes@),
            Emit::End => EmitModel::End,
        }
    }
}

/// The state that follows `state` once `event` has been reported.
pub open spec fn next_state(state: TransformState, event: BodyPoll) -> TransformState {
    match state {
        TransformState::Buffering => match event {
            BodyPoll::Pending => TransformState::Buffering,
            _ => TransformState::Done,
        },
        TransformState::Done => TransformState::Done,
    }
}

/// What is yielded in `state` when `event` is reported: nothing while the
/// body is pending, the spliced body once it is complete, an empty chunk if
/// it failed, and the end of the stream ever after.
pub open spec fn emission(
    state: TransformState,
    marker: Seq<u8>,
    inject: Seq<u8>,
    event: BodyPoll,
) -> EmitModel {
    match state {
        TransformState::Buffering => match event {
            BodyPoll::Pending => EmitModel::NotReady,
            BodyPoll::Complete(body) => EmitModel::Chunk(spliced(body@, marker, inject)),
            BodyPoll::Failed => EmitModel::Chunk(Seq::empty()),
        },
        TransformState::Done => EmitModel::End,
    }
}

/// The state reached from `state` after all of `events`, in order.
pub open spec fn state_after(state: TransformState, events: Seq<BodyPoll>) -> TransformState
    decreases events.len(),
{
    if events.len() == 0 {
        state
    } else {
        next_state(state_after(state, events.drop_last()), events.last())
    }
}

/// What the `at`-th poll of a run yields, the run starting in `state`.
pub open spec fn emitted_at(
    state: TransformState,
    marker: Seq<u8>,
    inject: Seq<u8>,
    events: Seq<BodyPoll>,
    at: int,
) -> EmitModel {
    emission(state_after(state, events.take(at)), marker, inject, events[at])
}

/// Once done, the machine stays done whatever is reported.
pub proof fn lemma_done_is_terminal(events: Seq<BodyPoll>)
    ensures
        state_after(TransformState::Done, events) == TransformState::Done,
    decreases events.len(),
{
    if events.len() > 0 {
        lemma_done_is_terminal(events.drop_last());
    }
}

/// A run that is done after `upto` polls is done after any later poll.
pub proof fn lemma_done_persists(
    state: TransformState,
    events: Seq<BodyPoll>,
    upto: int,
    later: int,
)
    requires
        0 <= upto <= later <= events.len(),
        state_after(state, events.take(upto)) == TransformState::Done,
    ensures
        state_after(state, events.take(later)) == TransformState::Done,
    decreases later - upto,
{
    if upto < later {
        lemma_done_persists(state, events, upto, later - 1);
        assert(events.take(later).drop_last() =~= events.take(later - 1));
    }
}

/// In any run that starts buffering, at most one poll yields a chunk: every
/// poll before it yields nothing, and every poll after it the end of the
/// stream.
pub proof fn lemma_single_chunk(
    marker: Seq<u8>,
    inject: Seq<u8>,
    events: Seq<BodyPoll>,
    at: int,
    other: int,
)
    requires
        0 <= at < events.len(),
        0 <= other < events.len(),
        other != at,
        emitted_at(TransformState::Buffering, marker, inject, events, at) is Chunk,
    ensures
        other < at ==> emitted_at(TransformState::Buffering, marker, inject, events, other)
            == EmitModel::NotReady,
        other > at ==> emitted_at(TransformState::Buffering, marker, inject, events, other)
            == EmitModel::End,
{
    let start = TransformState::Buffering;
    assert(state_after(start, events.take(at)) == TransformState::Buffering);
    if other < at {
        if state_after(start, events.take(other + 1)) == TransformState::Done {
            lemma_done_persists(start, events, other + 1, at);
        }
        assert(events.take(other + 1).drop_last() =~= events.take(other));
        assert(events.take(other + 1).last() == events[other]);
    } else {
        assert(events.take(at + 1).drop_last() =~= events.take(at));
        assert(events.take(at + 1).last() == events[at]);
        lemma_done_persists(start, events, at + 1, other);
    }
}

/// The rewriting of one response body: the state of the machine, and the
/// marker and the bytes to put in before it.
///
/// The state moves from buffering to done once and never back; only
/// [`Transform::poll`] moves it.
#[derive(Debug, PartialEq, Eq)]
pub struct Transform {
    state: TransformState,
    marker: Vec<u8>,
    inject: Vec<u8>,
}

/// A [`Transform`] over mathematical sequences.
pub ghost struct TransformModel {
    pub state: TransformState,
    pub marker: Seq<u8>,
    pub inject: Seq<u8>,
}

impl View for Transform {
    type V = TransformModel;

    closed spec fn view(&self) -> TransformModel {
        TransformModel { state: self.state, marker: self.marker@, inject: self.inject@ }
    }
}

impl Transform {
    /// A machine that waits for the upstream body.
    pub fn new(marker: Vec<u8>, inject: Vec<u8>) -> (transform: Transform)
        ensures
            transform@ == (TransformModel {
                state: TransformState::Buffering,
                marker: marker@,
                inject: inject@,
            }),
    {
        Transform { state: TransformState::Buffering, marker, inject }
    }

    /// Where the machine stands.
    pub fn state(&self) -> (state: TransformState)
        ensures
            state == self@.state,
    {
        self.state
    }

    /// The marker before which the data is put in.
    pub fn marker(&self) -> (marker: &[u8])
        ensures
            marker@ == self@.marker,
    {
        self.marker.as_slice()
    }

    /// The data that is put in.
    pub fn inject(&self) -> (inject: &[u8])
        ensures
            inject@ == self@.inject,
    {
        self.inject.as_slice()
    }

    /// Whether the upstream body is still to be polled.
    pub fn is_buffering(&self) -> (buffering: bool)
        ensures
            buffering == (self@.state == TransformState::Buffering),
    {
        self.state == TransformState::Buffering
    }

    /// Advances the machine by one poll of the outbound body, `event` being
    /// what polling the upstream body gave.
    pub fn poll(&mut self, event: BodyPoll) -> (emit: Emit)
        ensures
            final(self)@ == (TransformModel {
                state: next_state(old(self)@.state, event),
                marker: old(self)@.marker,
                inject: old(self)@.inject,
            }),
            emit@ == emission(old(self)@.state, old(self)@.marker, old(self)@.inject, event),
    {
        match self.state {
            TransformState::Done => Emit::End,
            TransformState::Buffering => match event {
                BodyPoll::Pending => Emit::NotReady,
                BodyPoll::Complete(body) => {
                    let chunk = insert_before(
                        body.as_slice(),
                        self.marker.as_slice(),
                        self.inject.as_slice(),
                    );
                    self.state = TransformState::Done;
                    Emit::Chunk(chunk)
                },
                BodyPoll::Failed => {
                    self.state = TransformState::Done;
                    Emit::Chunk(Vec::new())
                },
            },
        }
    }
}

} // verus!
