//! The walk over every network of a database, one step at a time: what the
//! walk hands to the consumer and when it ends.

use crate::error::{
    closed_fault, engine_fault, iteration_context, DbError, EngineFailure, ErrorKind, Fault,
};
use crate::network::Network;
use crate::value::DecodedValue;
use vstd::prelude::*;

verus! {

/// What happened since the last step of a walk. `T` is what a consumer hands
/// over when it asks for the walk to stop.
#[derive(Debug)]
pub enum IterationEvent<T> {
    /// The span could not be put to the engine; the text says why.
    SpanRejected(String),
    /// The engine would not start the walk.
    Refused(EngineFailure),
    /// The engine reached a network and decoded its record.
    Item(Network, DecodedValue),
    /// The engine failed on a network or its record.
    Failure(EngineFailure),
    /// The engine has no more networks.
    Exhausted,
    /// The consumer asked for the walk to stop, and signalled this.
    Halted(T),
}

/// The two ways a walk ends without a failure.
#[derive(Debug, PartialEq, Eq)]
pub enum WalkEnd<T> {
    /// The engine had no more networks: the whole span was walked.
    Exhausted,
    /// The consumer stopped the walk before its end; this is what it signalled.
    Stopped(T),
}

/// One walk over a database. A walk is single-pass: a step uses the walk up,
/// and only a step that yields gives it back to go on with.
#[derive(Debug)]
pub struct Iteration {
    started: (),
}

/// What a walk does next.
#[derive(Debug)]
pub enum IterationStep<T> {
    /// Hand this network and its record to the consumer, then go on with the
    /// walk.
    Yield(Iteration, Network, DecodedValue),
    /// Stop, with this result for the caller.
    End(Result<WalkEnd<T>, DbError>),
}

/// What an [`IterationStep`] says.
pub enum StepModel<T> {
    Yield(Iteration, Network, DecodedValue),
    End(Result<WalkEnd<T>, Fault>),
}

impl<T> View for IterationStep<T> {
    type V = StepModel<T>;

    open spec fn view(&self) -> StepModel<T> {
        match self {
            IterationStep::Yield(walk, network, value) => StepModel::Yield(*walk, *network, *value),
            IterationStep::End(Ok(end)) => StepModel::End(Ok(*end)),
            IterationStep::End(Err(error)) => StepModel::End(Err(error@)),
        }
    }
}

/// The failure for a span that could not be put to the engine.
pub open spec fn span_fault(text: Seq<char>) -> Fault {
    Fault { kind: ErrorKind::InvalidDatabaseFormat, message: "Failed to create network: "@ + text }
}

/// The failure for a walk the engine would not start.
pub open spec fn refusal_fault(text: Seq<char>) -> Fault {
    Fault { kind: ErrorKind::InvalidDatabaseFormat, message: "Failed to iterate: "@ + text }
}

/// How a step ends the walk, for every step but the one that yields.
/// `closed` says whether the reader is closed now.
///
/// A closed reader ends the walk with the failure of a closed reader,
/// whatever happened. Otherwise the end of the engine's networks ends it as
/// exhausted, the consumer's wish to stop ends it as stopped with what the
/// consumer signalled, and a failure ends it with that failure sorted into
/// the taxonomy.
pub open spec fn end_of<T>(closed: bool, event: IterationEvent<T>) -> Result<WalkEnd<T>, Fault> {
    if closed {
        Err(closed_fault())
    } else {
        match event {
            IterationEvent::SpanRejected(text) => Err(span_fault(text@)),
            IterationEvent::Refused(failure) => Err(refusal_fault(failure.text@)),
            IterationEvent::Failure(failure) => Err(engine_fault(iteration_context(), failure@)),
            IterationEvent::Halted(signal) => Ok(WalkEnd::Stopped(signal)),
            _ => Ok(WalkEnd::Exhausted),
        }
    }
}

/// True when a step yields: the reader is open and the engine brought a
/// network.
pub open spec fn goes_on<T>(closed: bool, event: IterationEvent<T>) -> bool {
    !closed && event is Item
}

/// One step of `walk`: a network that the engine brought while the reader is
/// open is yielded as it stands, together with the walk; every other step
/// ends the walk as [`end_of`] says.
pub open spec fn step_of<T>(walk: Iteration, closed: bool, event: IterationEvent<T>) -> StepModel<
    T,
> {
    if goes_on(closed, event) {
        StepModel::Yield(walk, event->Item_0, event->Item_1)
    } else {
        StepModel::End(end_of(closed, event))
    }
}

/// What a walk hands to the consumer, in order, when it is taken through
/// `inputs`: for each step whether the reader is closed, and the event.
/// Nothing is handed over from the step that ends the walk on.
pub open spec fn yielded<T>(inputs: Seq<(bool, IterationEvent<T>)>) -> Seq<(Network, DecodedValue)>
    decreases inputs.len(),
{
    if inputs.len() == 0 {
        Seq::empty()
    } else if goes_on(inputs[0].0, inputs[0].1) {
        seq![(inputs[0].1->Item_0, inputs[0].1->Item_1)] + yielded(
            inputs.subrange(1, inputs.len() as int),
        )
    } else {
        Seq::empty()
    }
}

/// How a walk that is taken through `inputs` ends: the result of its first
/// step that does not yield, or nothing where every step yields.
pub open spec fn outcome<T>(inputs: Seq<(bool, IterationEvent<T>)>) -> Option<
    Result<WalkEnd<T>, Fault>,
>
    decreases inputs.len(),
{
    if inputs.len() == 0 {
        None
    } else if goes_on(inputs[0].0, inputs[0].1) {
        outcome(inputs.subrange(1, inputs.len() as int))
    } else {
        Some(end_of(inputs[0].0, inputs[0].1))
    }
}

/// The inputs of a walk over an open reader to which the engine brings the
/// networks `entries`, one after the other.
pub open spec fn items<T>(entries: Seq<(Network, DecodedValue)>) -> Seq<(bool, IterationEvent<T>)> {
    Seq::new(
        entries.len(),
        |i: int| (false, IterationEvent::<T>::Item(entries[i].0, entries[i].1)),
    )
}

/// A walk to which the engine brings N networks while the reader stays open
/// yields exactly those N, each once and in the engine's order, and has not
/// ended.
pub proof fn walk_yields_each_entry_once<T>(entries: Seq<(Network, DecodedValue)>)
    ensures
        yielded(items::<T>(entries)) == entries,
        yielded(items::<T>(entries)).len() == entries.len(),
        outcome(items::<T>(entries)) is None,
    decreases entries.len(),
{
    let inputs = items::<T>(entries);
    if entries.len() > 0 {
        let rest = entries.subrange(1, entries.len() as int);
        assert(inputs.subrange(1, inputs.len() as int) =~= items::<T>(rest));
        walk_yields_each_entry_once::<T>(rest);
        assert(seq![entries[0]] + rest =~= entries);
    }
}

/// A walk ends at its first step that does not yield: what the engine
/// brought before is handed over, each entry once and in order; the walk ends
/// as that step says; and nothing that comes later is handed over or changes
/// the result.
pub proof fn walk_ends_at_first_end<T>(
    entries: Seq<(Network, DecodedValue)>,
    closed: bool,
    event: IterationEvent<T>,
    later: Seq<(bool, IterationEvent<T>)>,
)
    requires
        !goes_on(closed, event),
    ensures
        yielded(items::<T>(entries) + seq![(closed, event)] + later) == entries,
        outcome(items::<T>(entries) + seq![(closed, event)] + later) == Some(end_of(closed, event)),
    decreases entries.len(),
{
    let inputs = items::<T>(entries) + seq![(closed, event)] + later;
    if entries.len() == 0 {
        assert(inputs[0] == (closed, event));
        assert(yielded(inputs) =~= entries);
    } else {
        let rest = entries.subrange(1, entries.len() as int);
        assert(inputs[0] == (false, IterationEvent::<T>::Item(entries[0].0, entries[0].1)));
        assert(inputs.subrange(1, inputs.len() as int) =~= items::<T>(rest) + seq![(closed, event)]
            + later);
        walk_ends_at_first_end(rest, closed, event, later);
        assert(seq![entries[0]] + rest =~= entries);
    }
}

/// When the consumer asks for the walk to stop after k entries, exactly those
/// k have been handed over, none of the later ones is, and the walk ends as
/// stopped with what the consumer signalled: not as a walk of the whole span,
/// and not as a failure.
pub proof fn consumer_stop_reaches_the_caller<T>(
    entries: Seq<(Network, DecodedValue)>,
    signal: T,
    later: Seq<(bool, IterationEvent<T>)>,
)
    ensures
        yielded(items::<T>(entries) + seq![(false, IterationEvent::Halted(signal))] + later)
            == entries,
        outcome(items::<T>(entries) + seq![(false, IterationEvent::Halted(signal))] + later)
            == Some(Ok::<WalkEnd<T>, Fault>(WalkEnd::Stopped(signal))),
        Ok::<WalkEnd<T>, Fault>(WalkEnd::Stopped(signal)) != Ok::<WalkEnd<T>, Fault>(
            WalkEnd::Exhausted,
        ),
{
    walk_ends_at_first_end(entries, false, IterationEvent::Halted(signal), later);
}

/// A walk that the engine takes to its end while the reader stays open hands
/// over every entry and ends as exhausted.
pub proof fn whole_walk_ends_exhausted<T>(
    entries: Seq<(Network, DecodedValue)>,
    later: Seq<(bool, IterationEvent<T>)>,
)
    ensures
        yielded(items::<T>(entries) + seq![(false, IterationEvent::<T>::Exhausted)] + later)
            == entries,
        outcome(items::<T>(entries) + seq![(false, IterationEvent::<T>::Exhausted)] + later)
            == Some(Ok::<WalkEnd<T>, Fault>(WalkEnd::Exhausted)),
{
    walk_ends_at_first_end(entries, false, IterationEvent::<T>::Exhausted, later);
}

/// A step taken while the reader is closed hands nothing over and ends the
/// walk with the failure of a closed reader, whatever the engine brought;
/// nothing that follows is handed over either.
pub proof fn closed_reader_ends_walk<T>(
    entries: Seq<(Network, DecodedValue)>,
    event: IterationEvent<T>,
    later: Seq<(bool, IterationEvent<T>)>,
)
    ensures
        yielded(items::<T>(entries) + seq![(true, event)] + later) == entries,
        outcome(items::<T>(entries) + seq![(true, event)] + later) == Some(
            Err::<WalkEnd<T>, Fault>(closed_fault()),
        ),
{
    walk_ends_at_first_end(entries, true, event, later);
}

impl Iteration {
    /// Starts a walk.
    pub fn start() -> (walk: Iteration) {
        Iteration { started: () }
    }

    /// Takes one step: `closed` says whether the reader is closed now, `event`
    /// what happened since the last step. The walk goes on only with the walk
    /// that a yielding step gives back.
    pub fn advance<T>(self, closed: bool, event: IterationEvent<T>) -> (step: IterationStep<T>)
        ensures
            step@ == step_of(self, closed, event),
    {
        if closed {
            return IterationStep::End(Err(DbError::closed()));
        }
        match event {
            IterationEvent::SpanRejected(text) => IterationStep::End(
                Err(
                    DbError::prefixed(
                        ErrorKind::InvalidDatabaseFormat,
                        "Failed to create network: ",
                        text.as_str(),
                    ),
                ),
            ),
            IterationEvent::Refused(failure) => IterationStep::End(
                Err(
                    DbError::prefixed(
                        ErrorKind::InvalidDatabaseFormat,
                        "Failed to iterate: ",
                        failure.text.as_str(),
                    ),
                ),
            ),
            IterationEvent::Item(network, value) => IterationStep::Yield(self, network, value),
            IterationEvent::Failure(failure) => IterationStep::End(
                Err(DbError::from_engine("Database iteration failed: ", &failure)),
            ),
            IterationEvent::Exhausted => IterationStep::End(Ok(WalkEnd::Exhausted)),
            IterationEvent::Halted(signal) => IterationStep::End(Ok(WalkEnd::Stopped(signal))),
        }
    }
}

} // verus!
