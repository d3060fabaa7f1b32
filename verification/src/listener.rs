use crate::poll::Polled;
use crate::stream::HyperStream;
use vstd::prelude::*;

verus! {

/// What one poll of the native sequence of incoming connections reports: not
/// ready, the end of the sequence (`None`), a failed accept, or a connection.
pub type NativeAccept<S, E> = Polled<Option<Result<S, E>>>;

/// What one poll of the accept adapter hands to the engine.
pub type Accepted<S, E> = Polled<Option<Result<HyperStream<S>, E>>>;

/// The accept adapter: it owns the native acceptor bound to one address.
#[derive(Debug)]
pub struct HyperListener<L>(pub L);

/// The adapter's answer to one native report.
///
/// A connection is wrapped in its stream adapter. A failed accept is passed
/// on with the native error, and says nothing about later polls. The end of
/// the native sequence is passed on as the end of the adapter's sequence, so
/// that the engine can stop accepting in good order.
pub open spec fn accept_outcome<S, E>(native: NativeAccept<S, E>) -> Accepted<S, E> {
    match native {
        Polled::Pending => Polled::Pending,
        Polled::Ready(None) => Polled::Ready(None),
        Polled::Ready(Some(Err(error))) => Polled::Ready(Some(Err(error))),
        Polled::Ready(Some(Ok(conn))) => Polled::Ready(Some(Ok(HyperStream(conn)))),
    }
}

impl<L> HyperListener<L> {
    /// The answer to "give me the next connection", given what one poll of the
    /// native sequence reported. One report gives one answer; the adapter
    /// keeps nothing from one poll to the next.
    pub fn poll_accept<S, E>(&self, native: NativeAccept<S, E>) -> (out: Accepted<S, E>)
        ensures
            out == accept_outcome(native),
    {
        let item = match native {
            Polled::Pending => {
                return Polled::Pending;
            },
            Polled::Ready(item) => item,
        };
        match item {
            None => Polled::Ready(None),
            Some(Ok(conn)) => Polled::Ready(Some(Ok(HyperStream(conn)))),
            Some(Err(error)) => Polled::Ready(Some(Err(error))),
        }
    }
}

/// The answers to a run of polls: one for each native report, in the order of
/// the reports.
pub open spec fn accept_outcomes<S, E>(events: Seq<NativeAccept<S, E>>) -> Seq<Accepted<S, E>> {
    Seq::new(events.len(), |i: int| accept_outcome(events[i]))
}

/// Whether a native report carries a connection.
pub open spec fn is_connection<S, E>(event: NativeAccept<S, E>) -> bool {
    event matches Polled::Ready(Some(Ok(_)))
}

/// The connections among a run of native reports, in the order in which the
/// acceptor produced them.
pub open spec fn native_connections<S, E>(events: Seq<NativeAccept<S, E>>) -> Seq<S>
    decreases events.len(),
{
    if events.len() == 0 {
        Seq::empty()
    } else {
        let earlier = native_connections(events.drop_last());
        match events.last() {
            Polled::Ready(Some(Ok(conn))) => earlier.push(conn),
            _ => earlier,
        }
    }
}

/// The stream adapters among a run of answers, in the order in which they
/// were handed out.
pub open spec fn accepted_streams<S, E>(outcomes: Seq<Accepted<S, E>>) -> Seq<HyperStream<S>>
    decreases outcomes.len(),
{
    if outcomes.len() == 0 {
        Seq::empty()
    } else {
        let earlier = accepted_streams(outcomes.drop_last());
        match outcomes.last() {
            Polled::Ready(Some(Ok(stream))) => earlier.push(stream),
            _ => earlier,
        }
    }
}

/// The adapter's answer tells the native report apart from every other: two
/// reports with the same answer are the same report. Nothing of a report is
/// lost on the way to the engine.
pub proof fn lemma_accept_outcome_injective<S, E>(a: NativeAccept<S, E>, b: NativeAccept<S, E>)
    requires
        accept_outcome(a) == accept_outcome(b),
    ensures
        a == b,
{
}

/// Whatever the native sequence reports, and however connections, failed
/// accepts and not-ready signals are mixed in it, the stream adapters handed
/// out are the native connections, each wrapped once, in the native order.
pub proof fn lemma_streams_follow_connections<S, E>(events: Seq<NativeAccept<S, E>>)
    ensures
        accepted_streams(accept_outcomes(events)).len() == native_connections(events).len(),
        forall|i: int|
            0 <= i < native_connections(events).len() ==> #[trigger] accepted_streams(
                accept_outcomes(events),
            )[i] == HyperStream(native_connections(events)[i]),
    decreases events.len(),
{
    if events.len() > 0 {
        lemma_streams_follow_connections(events.drop_last());
        assert(accept_outcomes(events).drop_last() =~= accept_outcomes(events.drop_last()));
        assert(accept_outcomes(events).last() == accept_outcome(events.last()));
    }
}

/// A run of N native reports that each carry a connection gives N stream
/// adapters, and the i-th adapter holds the i-th connection: none is lost,
/// none comes twice, none changes place.
pub proof fn lemma_successful_accepts_in_order<S, E>(events: Seq<NativeAccept<S, E>>)
    requires
        forall|i: int| 0 <= i < events.len() ==> is_connection(#[trigger] events[i]),
    ensures
        accepted_streams(accept_outcomes(events)).len() == events.len(),
        forall|i: int|
            0 <= i < events.len() ==> #[trigger] events[i] == Polled::<Option<Result<S, E>>>::Ready(
                Some(Ok(accepted_streams(accept_outcomes(events))[i].0)),
            ),
{
    lemma_connections_of_successes(events);
    lemma_streams_follow_connections(events);
}

proof fn lemma_connections_of_successes<S, E>(events: Seq<NativeAccept<S, E>>)
    requires
        forall|i: int| 0 <= i < events.len() ==> is_connection(#[trigger] events[i]),
    ensures
        native_connections(events).len() == events.len(),
        forall|i: int|
            0 <= i < events.len() ==> #[trigger] events[i] == Polled::<Option<Result<S, E>>>::Ready(
                Some(Ok(native_connections(events)[i])),
            ),
    decreases events.len(),
{
    if events.len() > 0 {
        let earlier = events.drop_last();
        assert forall|i: int| 0 <= i < earlier.len() implies is_connection(
            #[trigger] earlier[i],
        ) by {
            assert(earlier[i] == events[i]);
        }
        lemma_connections_of_successes(earlier);
        assert(is_connection(events[events.len() - 1]));
        assert forall|i: int| 0 <= i < events.len() implies #[trigger] events[i] == Polled::<
            Option<Result<S, E>>,
        >::Ready(Some(Ok(native_connections(events)[i]))) by {
            if i < earlier.len() {
                assert(earlier[i] == events[i]);
            }
        }
    }
}

} // verus!
