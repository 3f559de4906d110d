//! The ingestion state machine and the receive loop. The machine classifies
//! every transport observation — connection outcome, received envelope,
//! close, error, cancellation — into the next state and an optional event
//! for the sink. The loop drives the machine over the sequence of stream
//! observations in the order the transport delivered them; a payload that
//! fails to decode is discarded and never ends the loop.

use vstd::prelude::*;

verus! {

use crate::decode::envelope_event;
use crate::decode::event_from_envelope;
use crate::decode::EnvelopeView;
use crate::decode::StreamEnvelope;
use crate::decode::TxEvent;
use crate::decode::TxEventView;
use crate::errors::IngestError;
use crate::errors::Termination;

/// One observation on an established stream.
pub enum StreamEvent {
    /// The next envelope arrived.
    Envelope(StreamEnvelope),
    /// The far end closed the stream gracefully.
    Closed,
    /// A stream-level error broke the connection.
    Failed,
    /// The caller cancelled the loop from outside.
    Cancelled,
}

/// The spec-level value of a stream observation.
pub ghost enum StreamEventView {
    Envelope(EnvelopeView),
    Closed,
    Failed,
    Cancelled,
}

impl View for StreamEvent {
    type V = StreamEventView;

    open spec fn view(&self) -> StreamEventView {
        match self {
            StreamEvent::Envelope(env) => StreamEventView::Envelope(env@),
            StreamEvent::Closed => StreamEventView::Closed,
            StreamEvent::Failed => StreamEventView::Failed,
            StreamEvent::Cancelled => StreamEventView::Cancelled,
        }
    }
}

/// The state of one subscription session.
#[derive(Clone, Copy, PartialEq, Eq, Structural, Debug)]
pub enum SessionState {
    /// Credential, endpoint, channel and subscription are being set up.
    Connecting,
    /// The subscription was accepted; envelopes are being received.
    Streaming,
    /// Setup failed; the error says whether to reconnect or re-authenticate.
    Failed(IngestError),
    /// The established stream ended.
    Ended(Termination),
}

/// One observation of the whole session, setup included.
pub enum SessionEvent {
    /// The channel to the relay could not be opened.
    ConnectFailed,
    /// The relay refused the authenticated subscription.
    SubscribeRejected,
    /// The relay accepted the subscription and opened the stream.
    SubscribeAccepted,
    /// A stream observation on the established stream.
    Stream(StreamEvent),
}

/// The spec-level value of a session observation.
pub ghost enum SessionEventView {
    ConnectFailed,
    SubscribeRejected,
    SubscribeAccepted,
    Stream(StreamEventView),
}

impl View for SessionEvent {
    type V = SessionEventView;

    open spec fn view(&self) -> SessionEventView {
        match self {
            SessionEvent::ConnectFailed => SessionEventView::ConnectFailed,
            SessionEvent::SubscribeRejected => SessionEventView::SubscribeRejected,
            SessionEvent::SubscribeAccepted => SessionEventView::SubscribeAccepted,
            SessionEvent::Stream(ev) => SessionEventView::Stream(ev@),
        }
    }
}

/// Whether a session state is terminal: no observation changes it.
pub open spec fn is_terminal(s: SessionState) -> bool {
    s matches SessionState::Failed(_) || s matches SessionState::Ended(_)
}

/// The state after one observation. Connection outcomes act only while
/// connecting, stream observations only while streaming; cancellation acts
/// in both; a terminal state absorbs everything.
pub open spec fn step_next(state: SessionState, ev: SessionEventView) -> SessionState {
    match state {
        SessionState::Connecting => match ev {
            SessionEventView::ConnectFailed => SessionState::Failed(
                IngestError::TransportUnavailable,
            ),
            SessionEventView::SubscribeRejected => SessionState::Failed(
                IngestError::SubscriptionRejected,
            ),
            SessionEventView::SubscribeAccepted => SessionState::Streaming,
            SessionEventView::Stream(StreamEventView::Cancelled) => SessionState::Ended(
                Termination::Cancelled,
            ),
            SessionEventView::Stream(_) => state,
        },
        SessionState::Streaming => match ev {
            SessionEventView::Stream(StreamEventView::Envelope(_)) => SessionState::Streaming,
            SessionEventView::Stream(StreamEventView::Closed) => SessionState::Ended(
                Termination::Graceful,
            ),
            SessionEventView::Stream(StreamEventView::Failed) => SessionState::Ended(
                Termination::Abrupt,
            ),
            SessionEventView::Stream(StreamEventView::Cancelled) => SessionState::Ended(
                Termination::Cancelled,
            ),
            _ => state,
        },
        _ => state,
    }
}

/// The event emitted by one observation: only a decodable envelope received
/// while streaming emits one.
pub open spec fn step_emit(state: SessionState, ev: SessionEventView) -> Option<TxEventView> {
    match (state, ev) {
        (
            SessionState::Streaming,
            SessionEventView::Stream(StreamEventView::Envelope(env)),
        ) => envelope_event(env),
        _ => None,
    }
}

/// Advance the session by one observation: the next state, and the event to
/// hand to the sink, if this observation yields one.
pub fn session_step(state: SessionState, event: &SessionEvent) -> (r: (
    SessionState,
    Option<TxEvent>,
))
    ensures
        r.0 == step_next(state, event@),
        match r.1 {
            Some(e) => step_emit(state, event@) == Some(e@),
            None => step_emit(state, event@) is None,
        },
{
    match state {
        SessionState::Connecting => match event {
            SessionEvent::ConnectFailed => (
                SessionState::Failed(IngestError::TransportUnavailable),
                None,
            ),
            SessionEvent::SubscribeRejected => (
                SessionState::Failed(IngestError::SubscriptionRejected),
                None,
            ),
            SessionEvent::SubscribeAccepted => (SessionState::Streaming, None),
            SessionEvent::Stream(StreamEvent::Cancelled) => (
                SessionState::Ended(Termination::Cancelled),
                None,
            ),
            SessionEvent::Stream(_) => (state, None),
        },
        SessionState::Streaming => match event {
            SessionEvent::Stream(StreamEvent::Envelope(env)) => (
                SessionState::Streaming,
                event_from_envelope(env),
            ),
            SessionEvent::Stream(StreamEvent::Closed) => (
                SessionState::Ended(Termination::Graceful),
                None,
            ),
            SessionEvent::Stream(StreamEvent::Failed) => (
                SessionState::Ended(Termination::Abrupt),
                None,
            ),
            SessionEvent::Stream(StreamEvent::Cancelled) => (
                SessionState::Ended(Termination::Cancelled),
                None,
            ),
            _ => (state, None),
        },
        _ => (state, None),
    }
}

/// The events the sink receives from a sequence of stream observations, in
/// order: one per decodable envelope before the first terminal observation.
pub open spec fn emitted(events: Seq<StreamEventView>) -> Seq<TxEventView>
    decreases events.len(),
{
    if events.len() == 0 {
        Seq::empty()
    } else {
        match events[0] {
            StreamEventView::Envelope(env) => match envelope_event(env) {
                Some(e) => seq![e] + emitted(events.skip(1)),
                None => emitted(events.skip(1)),
            },
            _ => Seq::empty(),
        }
    }
}

/// How a sequence of stream observations ends: the first terminal
/// observation decides; `None` if the observations ran out with the stream
/// still live.
pub open spec fn termination_of(events: Seq<StreamEventView>) -> Option<Termination>
    decreases events.len(),
{
    if events.len() == 0 {
        None
    } else {
        match events[0] {
            StreamEventView::Envelope(_) => termination_of(events.skip(1)),
            StreamEventView::Closed => Some(Termination::Graceful),
            StreamEventView::Failed => Some(Termination::Abrupt),
            StreamEventView::Cancelled => Some(Termination::Cancelled),
        }
    }
}

/// The spec-level values of a vector of stream observations.
pub open spec fn event_views(events: Seq<StreamEvent>) -> Seq<StreamEventView> {
    events.map_values(|e: StreamEvent| e@)
}

/// The spec-level values of a vector of sink events.
pub open spec fn sink_views(events: Seq<TxEvent>) -> Seq<TxEventView> {
    events.map_values(|e: TxEvent| e@)
}

/// Drive the receive loop over recorded stream observations, appending each
/// emitted event to the sink in delivery order. An envelope whose payload
/// fails to decode is discarded and the loop continues; the first terminal
/// observation ends the loop and is returned; `None` says the observations
/// ran out with the stream still live.
pub fn run_stream(events: &Vec<StreamEvent>, sink: &mut Vec<TxEvent>) -> (t: Option<Termination>)
    ensures
        sink_views(final(sink)@) == sink_views(old(sink)@) + emitted(event_views(events@)),
        t == termination_of(event_views(events@)),
{
    let ghost views = event_views(events@);
    proof {
        assert(views.skip(0) =~= views);
    }
    let mut i: usize = 0;
    while i < events.len()
        invariant
            0 <= i <= events@.len(),
            views == event_views(events@),
            views.len() == events@.len(),
            sink_views(sink@) + emitted(views.skip(i as int)) == sink_views(old(sink)@)
                + emitted(views),
            termination_of(views.skip(i as int)) == termination_of(views),
        decreases events@.len() - i,
    {
        proof {
            assert(views.skip(i as int)[0] == views[i as int]);
            assert(views.skip(i as int).skip(1) =~= views.skip(i + 1));
            assert(views[i as int] == events@[i as int]@);
        }
        match &events[i] {
            StreamEvent::Envelope(env) => {
                match event_from_envelope(env) {
                    Some(e) => {
                        let ghost pre = sink@;
                        sink.push(e);
                        proof {
                            assert(sink_views(sink@) =~= sink_views(pre).push(e@));
                            assert(sink_views(pre).push(e@) + emitted(views.skip(i + 1))
                                =~= sink_views(pre) + (seq![e@] + emitted(views.skip(i + 1))));
                        }
                    },
                    None => {},
                }
            },
            StreamEvent::Closed => {
                proof {
                    assert(emitted(views.skip(i as int)) =~= Seq::<TxEventView>::empty());
                    assert(sink_views(sink@) + Seq::<TxEventView>::empty() =~= sink_views(
                        sink@,
                    ));
                }
                return Some(Termination::Graceful);
            },
            StreamEvent::Failed => {
                proof {
                    assert(emitted(views.skip(i as int)) =~= Seq::<TxEventView>::empty());
                    assert(sink_views(sink@) + Seq::<TxEventView>::empty() =~= sink_views(
                        sink@,
                    ));
                }
                return Some(Termination::Abrupt);
            },
            StreamEvent::Cancelled => {
                proof {
                    assert(emitted(views.skip(i as int)) =~= Seq::<TxEventView>::empty());
                    assert(sink_views(sink@) + Seq::<TxEventView>::empty() =~= sink_views(
                        sink@,
                    ));
                }
                return Some(Termination::Cancelled);
            },
        }
        i = i + 1;
    }
    proof {
        assert(views.skip(i as int) =~= Seq::<StreamEventView>::empty());
        assert(emitted(views.skip(i as int)) =~= Seq::<TxEventView>::empty());
        assert(sink_views(sink@) + Seq::<TxEventView>::empty() =~= sink_views(sink@));
    }
    None
}

} // verus!
