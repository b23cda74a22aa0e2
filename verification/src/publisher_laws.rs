//! What holds of publication as a whole, over every order of events.

use vstd::multiset::Multiset;
use vstd::prelude::*;

#[allow(unused_imports)]
use crate::connection::{ExchangeReply, ExchangeView, FRAME_PACKET_LEN};
#[allow(unused_imports)]
use crate::connection_laws::law_exchange_waits_for_release;
use crate::error::BridgeError;
#[allow(unused_imports)]
use crate::publisher::{Publication, PublisherView, WorkerAction, WorkerView};
#[allow(unused_imports)]
use crate::wire::{Header, Kind};

verus! {

/// The publisher together with its worker.
#[verifier::ext_equal]
pub struct BridgeState<T> {
    pub publisher: PublisherView<T>,
    pub worker: WorkerView<T>,
}

/// Something that happens to the publisher or its worker.
pub enum BridgeEvent<T> {
    /// The producer hands a frame in.
    Publish { frame: T },
    /// The worker looks for a frame to send.
    Poll,
    /// The worker learns that the exchange of the frame in flight has ended.
    Settle { exchange: ExchangeView },
    /// The publisher is stopped.
    Stop,
}

/// The frame in `held`, if there is one.
pub open spec fn frames_in<T>(held: Option<T>) -> Multiset<T> {
    match held {
        Some(frame) => Multiset::singleton(frame),
        None => Multiset::empty(),
    }
}

impl<T> BridgeState<T> {
    /// The start of publication over a socket.
    pub open spec fn initial(socket_fd: i32) -> BridgeState<T> {
        BridgeState {
            publisher: PublisherView::initial(socket_fd),
            worker: WorkerView::initial(),
        }
    }

    /// Whether `event` can happen now.
    pub open spec fn possible(self, event: BridgeEvent<T>) -> bool {
        match event {
            BridgeEvent::Poll => self.worker.idle(),
            BridgeEvent::Settle { exchange } => self.worker.settles(exchange),
            _ => true,
        }
    }

    /// The state once `event` has happened.
    pub open spec fn after(self, event: BridgeEvent<T>) -> BridgeState<T> {
        match event {
            BridgeEvent::Publish { frame } => BridgeState {
                publisher: self.publisher.publish(frame),
                ..self
            },
            BridgeEvent::Poll => BridgeState {
                publisher: self.publisher.poll(),
                worker: self.worker.poll(self.publisher),
            },
            BridgeEvent::Settle { exchange } => BridgeState {
                publisher: self.publisher.settle(exchange.outcome()->0),
                worker: self.worker.settle(exchange.outcome()->0),
            },
            BridgeEvent::Stop => BridgeState { publisher: self.publisher.stop(), ..self },
        }
    }

    /// The frame in flight.
    pub open spec fn frame_in_flight(self) -> Option<T> {
        match self.worker.in_flight {
            Some((_, frame)) => Some(frame),
            None => None,
        }
    }

    /// The frames that are held: the pending one and the one in flight.
    pub open spec fn held(self) -> Multiset<T> {
        frames_in(self.publisher.pending).add(frames_in(self.frame_in_flight()))
    }

    /// The frames that `event` hands in.
    pub open spec fn given(event: BridgeEvent<T>) -> Multiset<T> {
        match event {
            BridgeEvent::Publish { frame } => Multiset::singleton(frame),
            _ => Multiset::empty(),
        }
    }

    /// The frames that are to be dropped when `event` happens.
    pub open spec fn dropped(self, event: BridgeEvent<T>) -> Multiset<T> {
        match event {
            BridgeEvent::Publish { frame } => match self.publisher.publication(frame) {
                Publication::Pending { replaced } => frames_in(replaced),
                Publication::Rejected { frame } => Multiset::singleton(frame),
            },
            BridgeEvent::Poll => Multiset::empty(),
            BridgeEvent::Settle { exchange } => frames_in(self.frame_in_flight()).add(
                frames_in(self.publisher.abandoned(exchange.outcome()->0)),
            ),
            BridgeEvent::Stop => frames_in(self.publisher.pending),
        }
    }

    /// Whether `event` puts a frame in flight.
    pub open spec fn sends(self, event: BridgeEvent<T>) -> bool {
        event is Poll && self.publisher.ready()
    }

    /// The state once all of `events` have happened.
    pub open spec fn run(self, events: Seq<BridgeEvent<T>>) -> BridgeState<T>
        decreases events.len(),
    {
        if events.len() == 0 {
            self
        } else {
            self.run(events.drop_last()).after(events.last())
        }
    }

    /// Whether `events` can happen one after the other.
    pub open spec fn trace(self, events: Seq<BridgeEvent<T>>) -> bool
        decreases events.len(),
    {
        events.len() == 0 || (self.trace(events.drop_last()) && self.run(
            events.drop_last(),
        ).possible(events.last()))
    }

    /// The frames that `events` hand in.
    pub open spec fn all_given(events: Seq<BridgeEvent<T>>) -> Multiset<T>
        decreases events.len(),
    {
        if events.len() == 0 {
            Multiset::empty()
        } else {
            Self::all_given(events.drop_last()).add(Self::given(events.last()))
        }
    }

    /// The frames that are dropped while `events` happen.
    pub open spec fn all_dropped(self, events: Seq<BridgeEvent<T>>) -> Multiset<T>
        decreases events.len(),
    {
        if events.len() == 0 {
            Multiset::empty()
        } else {
            self.all_dropped(events.drop_last()).add(
                self.run(events.drop_last()).dropped(events.last()),
            )
        }
    }

    /// The number of frames that are put in flight while `events` happen.
    pub open spec fn all_sends(self, events: Seq<BridgeEvent<T>>) -> nat
        decreases events.len(),
    {
        if events.len() == 0 {
            0
        } else {
            self.all_sends(events.drop_last()) + if self.run(events.drop_last()).sends(
                events.last(),
            ) {
                1nat
            } else {
                0nat
            }
        }
    }
}

/// Whatever happens, the frames that were held or are handed in are dropped or held afterwards,
/// each of them once.
pub proof fn law_event_conserves_frames<T>(state: BridgeState<T>, event: BridgeEvent<T>)
    requires
        state.possible(event),
    ensures
        state.held().add(BridgeState::given(event)) == state.dropped(event).add(
            state.after(event).held(),
        ),
{
    assert(state.held().add(BridgeState::given(event)) =~= state.dropped(event).add(
        state.after(event).held(),
    ));
}

/// No frame is lost and none is dropped twice: whatever was handed in has been dropped, is
/// pending or is in flight, exactly once.
pub proof fn law_frames_are_conserved<T>(socket_fd: i32, events: Seq<BridgeEvent<T>>)
    requires
        BridgeState::<T>::initial(socket_fd).trace(events),
    ensures
        ({
            let start = BridgeState::<T>::initial(socket_fd);
            BridgeState::all_given(events) == start.all_dropped(events).add(
                start.run(events).held(),
            )
        }),
    decreases events.len(),
{
    let start = BridgeState::<T>::initial(socket_fd);
    if events.len() == 0 {
        assert(BridgeState::all_given(events) =~= start.all_dropped(events).add(
            start.run(events).held(),
        ));
    } else {
        let earlier = events.drop_last();
        let event = events.last();
        law_frames_are_conserved::<T>(socket_fd, earlier);
        let before = start.run(earlier);
        law_event_conserves_frames(before, event);
        assert(BridgeState::all_given(events) =~= start.all_dropped(events).add(
            start.run(events).held(),
        ));
    }
}

/// The frames go out under consecutive sequences, the first under one, and the number after the
/// largest is zero.
pub proof fn law_sequences_are_consecutive<T>(socket_fd: i32, events: Seq<BridgeEvent<T>>)
    ensures
        ({
            let start = BridgeState::<T>::initial(socket_fd);
            start.run(events).publisher.next_sequence == (1 + start.all_sends(events))
                % 0x1_0000_0000
        }),
    decreases events.len(),
{
    if events.len() > 0 {
        law_sequences_are_consecutive::<T>(socket_fd, events.drop_last());
    }
}

/// A frame goes in flight under the next sequence, and the one after it under another.
pub proof fn law_next_frame_has_another_sequence<T>(state: BridgeState<T>)
    requires
        state.possible(BridgeEvent::Poll),
        state.publisher.ready(),
    ensures
        ({
            let next = state.after(BridgeEvent::Poll);
            &&& next.worker.in_flight == Some(
                (state.publisher.next_sequence, state.publisher.pending->0),
            )
            &&& WorkerView::<T>::action(state.publisher) == (WorkerAction::Send {
                sequence: state.publisher.next_sequence,
            })
            &&& next.publisher.next_sequence != state.publisher.next_sequence
            &&& next.publisher.pending is None
        }),
{
}

/// The frames of `frames`, handed in one after the other.
pub open spec fn handed_in<T>(frames: Seq<T>) -> Seq<BridgeEvent<T>> {
    Seq::new(frames.len(), |i: int| BridgeEvent::Publish { frame: frames[i] })
}

/// The latest frame wins: of frames that are handed in while none is taken, the last is pending,
/// and it is the one that the worker sends.
pub proof fn law_latest_frame_wins<T>(state: BridgeState<T>, frames: Seq<T>)
    requires
        !state.publisher.stopped,
        frames.len() > 0,
    ensures
        ({
            let next = state.run(handed_in(frames));
            &&& next.publisher == (PublisherView {
                pending: Some(frames.last()),
                ..state.publisher
            })
            &&& next.worker == state.worker
            &&& state.worker.idle() ==> next.after(BridgeEvent::Poll).frame_in_flight() == Some(
                frames.last(),
            )
        }),
    decreases frames.len(),
{
    let events = handed_in(frames);
    let earlier = frames.drop_last();
    assert(events.drop_last() =~= handed_in(earlier));
    if earlier.len() > 0 {
        law_latest_frame_wins(state, earlier);
    }
}

/// A frame in flight is kept until its exchange has ended, whatever else happens: until then it is
/// neither dropped nor exchanged for another.
pub proof fn law_frame_in_flight_is_kept<T>(state: BridgeState<T>, events: Seq<BridgeEvent<T>>)
    requires
        state.worker.in_flight is Some,
        state.trace(events),
        forall|i: int| 0 <= i < events.len() ==> !(#[trigger] events[i] is Settle),
    ensures
        state.run(events).worker == state.worker,
    decreases events.len(),
{
    if events.len() > 0 {
        assert forall|i: int| 0 <= i < events.drop_last().len() implies !(
        #[trigger] events.drop_last()[i] is Settle) by {
            assert(!(events[i] is Settle));
        }
        law_frame_in_flight_is_kept(state, events.drop_last());
        assert(!(events[events.len() - 1] is Settle));
    }
}

/// A frame whose packet went out is given up, and the next one taken, exactly when the release
/// packet of its own sequence has come in; on any other answer the worker leaves its loop. While
/// no answer has come in it is not given up at all.
pub proof fn law_frame_is_kept_until_released<T>(
    state: BridgeState<T>,
    frame: T,
    exchange: ExchangeView,
    sent: ExchangeReply,
    received: ExchangeReply,
)
    requires
        state.worker.in_flight == Some((exchange.sequence, frame)),
        exchange.phase is Send,
        sent is Sent,
        sent->count == FRAME_PACKET_LEN,
        received is Received,
    ensures
        ({
            let waiting = exchange.next(sent);
            let ended = waiting.next(received);
            &&& !state.possible(BridgeEvent::Settle { exchange })
            &&& !state.possible(BridgeEvent::Settle { exchange: waiting })
            &&& state.possible(BridgeEvent::Settle { exchange: ended })
            &&& state.after(BridgeEvent::Settle { exchange: ended }).worker.idle() <==> {
                &&& received->packet matches Some(packet)
                &&& packet@ == (Header {
                    kind: Kind::Release,
                    payload_len: 0,
                    sequence: exchange.sequence,
                }).bytes()
            }
        }),
{
    law_exchange_waits_for_release(exchange, sent, received);
}

/// A stopped publisher stays stopped: nothing is pending, nothing goes in flight any more, and
/// the worker leaves its loop as soon as it looks for a frame.
pub proof fn law_stop_is_final<T>(state: BridgeState<T>, events: Seq<BridgeEvent<T>>)
    ensures
        ({
            let start = state.after(BridgeEvent::Stop);
            let end = start.run(events);
            &&& end.publisher == start.publisher
            &&& end.publisher.stopped && end.publisher.pending is None
            &&& start.all_sends(events) == 0
            &&& WorkerView::<T>::action(end.publisher) is Exit
            &&& end.after(BridgeEvent::Poll).worker.exited
        }),
    decreases events.len(),
{
    if events.len() > 0 {
        law_stop_is_final(state, events.drop_last());
    }
}

/// Once a publisher has been stopped and nothing is in flight any more, every frame that was ever
/// handed in has been given up, exactly once.
pub proof fn law_stopped_bridge_holds_nothing<T>(socket_fd: i32, events: Seq<BridgeEvent<T>>)
    requires
        BridgeState::<T>::initial(socket_fd).trace(events),
        BridgeState::<T>::initial(socket_fd).run(events).publisher.stopped,
        BridgeState::<T>::initial(socket_fd).run(events).worker.in_flight is None,
    ensures
        BridgeState::<T>::initial(socket_fd).run(events).held() == Multiset::<T>::empty(),
        BridgeState::all_given(events) == BridgeState::<T>::initial(socket_fd).all_dropped(events),
{
    let start = BridgeState::<T>::initial(socket_fd);
    lemma_stopped_has_no_pending::<T>(socket_fd, events);
    law_frames_are_conserved::<T>(socket_fd, events);
    assert(start.run(events).held() =~= Multiset::empty());
    assert(BridgeState::all_given(events) =~= start.all_dropped(events));
}

/// A stopped publisher has no pending frame.
proof fn lemma_stopped_has_no_pending<T>(socket_fd: i32, events: Seq<BridgeEvent<T>>)
    ensures
        ({
            let publisher = BridgeState::<T>::initial(socket_fd).run(events).publisher;
            publisher.stopped ==> publisher.pending is None
        }),
    decreases events.len(),
{
    if events.len() > 0 {
        lemma_stopped_has_no_pending::<T>(socket_fd, events.drop_last());
    }
}

/// What is left to happen when a publisher is stopped: the stop, and the end of the exchange of the
/// frame in flight, if there is one.
pub open spec fn shutdown<T>(state: BridgeState<T>, exchange: ExchangeView) -> Seq<BridgeEvent<T>> {
    if state.worker.in_flight is Some {
        seq![BridgeEvent::Stop, BridgeEvent::Settle { exchange }]
    } else {
        seq![BridgeEvent::Stop]
    }
}

/// Stopping frees everything: whatever was handed in before, of which some may have been sent, some
/// replaced, one be pending and one wait for its release, every frame has been given up exactly
/// once as soon as the publisher is stopped and the exchange of the frame in flight has ended. The
/// pending frame is not sent, and the worker has left its loop or leaves it when it next looks for
/// a frame.
pub proof fn law_stop_frees_everything<T>(
    socket_fd: i32,
    events: Seq<BridgeEvent<T>>,
    exchange: ExchangeView,
)
    requires
        BridgeState::<T>::initial(socket_fd).trace(events),
        ({
            let state = BridgeState::<T>::initial(socket_fd).run(events);
            state.worker.in_flight is Some ==> state.worker.settles(exchange)
        }),
    ensures
        ({
            let start = BridgeState::<T>::initial(socket_fd);
            let all = events + shutdown(start.run(events), exchange);
            let end = start.run(all);
            &&& start.trace(all)
            &&& end.held() == Multiset::<T>::empty()
            &&& BridgeState::all_given(events) == start.all_dropped(all)
            &&& start.all_sends(all) == start.all_sends(events)
            &&& end.worker.exited || WorkerView::<T>::action(end.publisher) is Exit
        }),
{
    let start = BridgeState::<T>::initial(socket_fd);
    let state = start.run(events);
    let all = events + shutdown(state, exchange);
    let stopped = events.push(BridgeEvent::Stop);
    assert(stopped.drop_last() =~= events);
    assert(start.trace(stopped));
    assert(start.all_sends(stopped) == start.all_sends(events));
    assert(BridgeState::all_given(stopped) =~= BridgeState::all_given(events));
    if state.worker.in_flight is Some {
        assert(all.drop_last() =~= stopped);
        assert(start.trace(all));
        assert(BridgeState::all_given(all) =~= BridgeState::all_given(stopped));
    } else {
        assert(all =~= stopped);
    }
    law_stopped_bridge_holds_nothing::<T>(socket_fd, all);
}

/// A disconnect releases everything: when an exchange fails, the frame in flight and the pending
/// one are given up with it. From then on nothing is held and nothing is sent, and every frame that
/// is handed in is given straight back.
pub proof fn law_disconnect_releases_everything<T>(
    state: BridgeState<T>,
    exchange: ExchangeView,
    events: Seq<BridgeEvent<T>>,
)
    requires
        state.possible(BridgeEvent::Settle { exchange }),
        exchange.outcome()->0 is Err,
        state.after(BridgeEvent::Settle { exchange }).trace(events),
    ensures
        ({
            let failed = BridgeEvent::Settle { exchange };
            let start = state.after(failed);
            let end = start.run(events);
            &&& state.dropped(failed) == state.held()
            &&& end.held() == Multiset::<T>::empty()
            &&& start.all_dropped(events) == BridgeState::all_given(events)
            &&& start.all_sends(events) == 0
            &&& end.worker.exited
            &&& forall|frame: T|
                #![trigger end.publisher.publication(frame)]
                end.publisher.publication(frame) == (Publication::Rejected { frame })
        }),
{
    let failed = BridgeEvent::Settle { exchange };
    let start = state.after(failed);
    assert(state.dropped(failed) =~= state.held());
    assert(start.publisher.stopped && start.publisher.pending is None);
    assert(start.worker.exited && start.worker.in_flight is None);
    lemma_failed_bridge_stays_empty(start, events);
    assert(start.run(events).held() =~= Multiset::empty());
}

/// A bridge that was stopped, and whose worker has left its loop, gives back whatever is handed in.
proof fn lemma_failed_bridge_stays_empty<T>(start: BridgeState<T>, events: Seq<BridgeEvent<T>>)
    requires
        start.publisher.stopped,
        start.publisher.pending is None,
        start.worker.exited,
        start.worker.in_flight is None,
        start.trace(events),
    ensures
        start.run(events) == start,
        start.all_dropped(events) == BridgeState::all_given(events),
        start.all_sends(events) == 0,
    decreases events.len(),
{
    if events.len() > 0 {
        lemma_failed_bridge_stays_empty(start, events.drop_last());
        assert(start.after(events.last()) =~= start);
        assert(start.all_dropped(events) =~= BridgeState::all_given(events));
    }
}

/// The worker leaves its loop only once the publisher has been stopped or an exchange has failed,
/// and a publisher whose worker has left takes no frame any more. A failure that was not brought
/// about by stopping is reported.
pub proof fn law_worker_exits<T>(state: BridgeState<T>, event: BridgeEvent<T>)
    requires
        state.possible(event),
        !state.worker.exited,
    ensures
        state.after(event).worker.exited <==> {
            ||| event is Poll && state.publisher.stopped
            ||| event matches BridgeEvent::Settle { exchange } && exchange.outcome()->0 is Err
        },
        state.after(event).worker.exited ==> state.after(event).publisher.stopped,
        forall|outcome: Result<(), BridgeError>|
            #![trigger WorkerView::report(state.publisher, outcome)]
            match WorkerView::report(state.publisher, outcome) {
                Some(error) => outcome == Err::<(), BridgeError>(error)
                    && !state.publisher.stopped,
                None => outcome is Ok || state.publisher.stopped,
            },
{
}

/// Publication starts with nothing pending and nothing in flight, neither stopped nor left, over
/// this socket, and the first sequence is one.
pub proof fn law_start_of_publication<T>(socket_fd: i32)
    ensures
        ({
            let start = BridgeState::<T>::initial(socket_fd);
            &&& start.publisher.pending is None
            &&& !start.publisher.stopped
            &&& start.publisher.next_sequence == 1
            &&& start.publisher.socket_fd == socket_fd
            &&& start.worker.in_flight is None
            &&& !start.worker.exited
        }),
{
}

/// A frame that is handed in is pending afterwards and the one that was pending is handed back,
/// unless the publisher was stopped: then nothing changes, and the frame itself is handed back. The
/// worker does not notice either way.
pub proof fn law_handed_in_frame_is_pending<T>(state: BridgeState<T>, frame: T)
    ensures
        ({
            let next = state.after(BridgeEvent::Publish { frame });
            &&& next.worker == state.worker
            &&& next.publisher.stopped == state.publisher.stopped
            &&& next.publisher.next_sequence == state.publisher.next_sequence
            &&& next.publisher.socket_fd == state.publisher.socket_fd
            &&& !state.publisher.stopped ==> {
                &&& next.publisher.pending == Some(frame)
                &&& state.publisher.publication(frame) == (Publication::Pending {
                    replaced: state.publisher.pending,
                })
            }
            &&& state.publisher.stopped ==> {
                &&& next.publisher.pending == state.publisher.pending
                &&& state.publisher.publication(frame) == (Publication::Rejected { frame })
            }
        }),
{
}

/// What an idle worker does when it looks for a frame. A stopped publisher ends its loop, and
/// nothing is taken. A pending frame is taken, and goes in flight under the next sequence; the one
/// after it goes out under the next number, or zero behind the largest. Where nothing is pending,
/// nothing happens.
pub proof fn law_worker_takes_the_pending_frame<T>(state: BridgeState<T>)
    requires
        state.worker.idle(),
    ensures
        ({
            let next = state.after(BridgeEvent::Poll);
            let action = WorkerView::<T>::action(state.publisher);
            &&& next.publisher.stopped == state.publisher.stopped
            &&& next.publisher.socket_fd == state.publisher.socket_fd
            &&& state.publisher.stopped ==> {
                &&& action == WorkerAction::Exit
                &&& next.worker.exited
                &&& next.worker.in_flight is None
                &&& next.publisher == state.publisher
            }
            &&& !state.publisher.stopped ==> match state.publisher.pending {
                Some(frame) => {
                    &&& action == (WorkerAction::Send { sequence: state.publisher.next_sequence })
                    &&& next.worker.in_flight == Some((state.publisher.next_sequence, frame))
                    &&& !next.worker.exited
                    &&& next.publisher.pending is None
                    &&& next.publisher.next_sequence == (state.publisher.next_sequence + 1)
                        % 0x1_0000_0000
                },
                None => {
                    &&& action == WorkerAction::Wait
                    &&& next.publisher == state.publisher
                    &&& next.worker == state.worker
                },
            }
        }),
{
}

/// A frame in flight settles exactly once its own exchange has ended: no exchange of another
/// sequence settles it, none that is under way, and none where nothing is in flight.
pub proof fn law_only_its_own_exchange_settles_a_frame<T>(
    state: BridgeState<T>,
    exchange: ExchangeView,
)
    ensures
        state.possible(BridgeEvent::Settle { exchange }) <==> {
            &&& state.worker.in_flight matches Some(sent)
            &&& sent.0 == exchange.sequence
            &&& exchange.outcome() is Some
        },
        state.possible(BridgeEvent::Poll) <==> state.worker.in_flight is None
            && !state.worker.exited,
{
}

/// A release gives up the frame in flight and nothing else. The publisher stays as it was, to the
/// last field: a frame that was handed in meanwhile is still pending, and it is the one that the
/// worker sends next, under the next sequence. Nothing is reported, and the worker stays in its
/// loop.
pub proof fn law_release_keeps_the_pending_frame<T>(
    state: BridgeState<T>,
    exchange: ExchangeView,
    sequence: u32,
    frame: T,
)
    requires
        state.worker.in_flight == Some((sequence, frame)),
        exchange.sequence == sequence,
        exchange.outcome() == Some(Ok::<(), BridgeError>(())),
    ensures
        ({
            let event = BridgeEvent::Settle { exchange };
            let next = state.after(event);
            &&& state.possible(event)
            &&& state.dropped(event) == Multiset::singleton(frame)
            &&& next.publisher.pending == state.publisher.pending
            &&& next.publisher.stopped == state.publisher.stopped
            &&& next.publisher.next_sequence == state.publisher.next_sequence
            &&& next.publisher.socket_fd == state.publisher.socket_fd
            &&& state.publisher.abandoned(Ok::<(), BridgeError>(())) is None
            &&& next.worker.in_flight is None
            &&& !next.worker.exited
            &&& WorkerView::<T>::report(state.publisher, Ok::<(), BridgeError>(())) is None
            &&& !state.publisher.stopped && state.publisher.pending is Some ==> {
                &&& WorkerView::<T>::action(next.publisher) == (WorkerAction::Send {
                    sequence: state.publisher.next_sequence,
                })
                &&& next.after(BridgeEvent::Poll).worker.in_flight == Some(
                    (state.publisher.next_sequence, state.publisher.pending->0),
                )
            }
        }),
{
    assert(state.dropped(BridgeEvent::Settle { exchange }) =~= Multiset::singleton(frame));
}

/// A failed exchange gives up the frame in flight and the pending one, stops the publisher and ends
/// the loop; the failure is reported as it is, unless the publisher had been stopped before.
pub proof fn law_failure_gives_both_frames_up<T>(
    state: BridgeState<T>,
    exchange: ExchangeView,
    error: BridgeError,
    sequence: u32,
    frame: T,
)
    requires
        state.worker.in_flight == Some((sequence, frame)),
        exchange.sequence == sequence,
        exchange.outcome() == Some(Err::<(), BridgeError>(error)),
    ensures
        ({
            let event = BridgeEvent::Settle { exchange };
            let next = state.after(event);
            &&& state.possible(event)
            &&& state.publisher.abandoned(Err::<(), BridgeError>(error)) == state.publisher.pending
            &&& next.publisher.pending is None
            &&& next.publisher.stopped
            &&& next.publisher.next_sequence == state.publisher.next_sequence
            &&& next.publisher.socket_fd == state.publisher.socket_fd
            &&& next.worker.in_flight is None
            &&& next.worker.exited
            &&& WorkerView::<T>::report(state.publisher, Err::<(), BridgeError>(error))
                == if state.publisher.stopped {
                None
            } else {
                Some(error)
            }
        }),
{
}

/// Stopping gives the pending frame up and stops the publisher, and leaves all else alone: what is
/// in flight stays in flight.
pub proof fn law_stop_gives_the_pending_frame_up<T>(state: BridgeState<T>)
    ensures
        ({
            let next = state.after(BridgeEvent::Stop);
            &&& next.publisher.stopped
            &&& next.publisher.pending is None
            &&& next.publisher.next_sequence == state.publisher.next_sequence
            &&& next.publisher.socket_fd == state.publisher.socket_fd
            &&& next.worker == state.worker
        }),
{
}

/// A pending frame leaves the publisher only by being replaced by a newer one, by being sent, with
/// a stop or with a failed exchange. Whatever else happens it stays pending.
pub proof fn law_pending_frame_stays<T>(state: BridgeState<T>, event: BridgeEvent<T>, frame: T)
    requires
        state.possible(event),
        state.publisher.pending == Some(frame),
    ensures
        ({
            let next = state.after(event);
            ||| next.publisher.pending == Some(frame)
            ||| event matches BridgeEvent::Publish { frame: newer } && next.publisher.pending
                == Some(newer)
            ||| event is Poll && next.frame_in_flight() == Some(frame)
                && next.publisher.pending is None
            ||| event is Stop
            ||| event matches BridgeEvent::Settle { exchange } && exchange.outcome()->0 is Err
        }),
        event is Settle && event->exchange.outcome()->0 is Ok ==> state.after(
            event,
        ).publisher.pending == Some(frame),
{
}

} // verus!
