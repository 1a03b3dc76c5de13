use vstd::prelude::*;

use crate::symmetry::Transform;

verus! {

/// The outcome of a descent into the search tree.
pub enum ProbeResult<T> {
    /// An unexpanded edge was reached along the trace.
    Found(T),
    /// Another worker holds the way; retry later.
    Conflict,
    /// Nothing further can be searched from the root.
    NoResult,
}

/// Where an event stands: waiting for a prediction of its features, waiting in
/// a batch, or carrying the prediction to insert.
pub enum EventKind<F, R> {
    Predict(Vec<F>),
    Insert(R),
    Pending,
}

/// A leaf of the tree on its way through the evaluation pipeline.
pub struct Event<F, R, B, T> {
    pub kind: EventKind<F, R>,
    /// The position at the leaf.
    pub board: B,
    /// The transform under which the features were computed.
    pub transformation: Transform,
    /// The descent that reached the leaf.
    pub trace: T,
}

impl<F, R, B, T> Event<F, R, B, T> {
    /// A new event that asks for a prediction of `features`, computed on `board`
    /// under `transformation`.
    pub fn predict(board: B, trace: T, transformation: Transform, features: Vec<F>) -> (r: Self)
        ensures
            r.kind == EventKind::<F, R>::Predict(features),
            r.board == board,
            r.trace == trace,
            r.transformation == transformation,
    {
        Event { kind: EventKind::Predict(features), board, transformation, trace }
    }

    /// The event carrying `response`, and the kind it had before.
    pub fn into_insert(self, response: R) -> (r: (EventKind<F, R>, Self))
        ensures
            r.0 == self.kind,
            r.1.kind == EventKind::<F, R>::Insert(response),
            r.1.board == self.board,
            r.1.trace == self.trace,
            r.1.transformation == self.transformation,
    {
        let Event { kind, board, transformation, trace } = self;
        (kind, Event { kind: EventKind::Insert(response), board, transformation, trace })
    }

    /// The event waiting in a batch, and the kind it had before.
    pub fn into_pending(self) -> (r: (EventKind<F, R>, Self))
        ensures
            r.0 == self.kind,
            r.1.kind == EventKind::<F, R>::Pending,
            r.1.board == self.board,
            r.1.trace == self.trace,
            r.1.transformation == self.transformation,
    {
        let Event { kind, board, transformation, trace } = self;
        (kind, Event { kind: EventKind::Pending, board, transformation, trace })
    }
}

/// Whether the move is sampled with the configured temperature rather than
/// chosen by visit count: only in a search with noise, during the first eight
/// moves of the game.
pub fn samples_with_temperature(deterministic: bool, move_count: usize) -> (r: bool)
    ensures
        r == (!deterministic && move_count < 8),
{
    !deterministic && move_count < 8
}

} // verus!
