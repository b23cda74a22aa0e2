//! Latest-frame-wins publication, as decisions on the shared state.
//!
//! A frame exchange waits for the compositor to give a frame up. That wait belongs to the
//! [`Worker`]; the producer only exchanges the pending frame of the [`Publisher`], so a slow
//! compositor never stalls it.

use vstd::prelude::*;

#[allow(unused_imports)]
use crate::connection::ExchangeView;
use crate::connection::{Connection, FrameExchange};
use crate::error::BridgeError;
use crate::wire::Frame;

verus! {

/// One exported image that is handed to the compositor, with the descriptors `D` of its planes
/// and its acquire fence, and with what to do, `R`, once nobody uses it any more.
pub struct PublishedFrame<D, R> {
    pub frame: Frame,
    pub plane_fds: Vec<D>,
    pub acquire_fence: Option<D>,
    pub released: Option<R>,
}

impl<D, R> PublishedFrame<D, R> {
    /// An image with its descriptors and what to do once it is given up.
    pub fn new(frame: Frame, plane_fds: Vec<D>, acquire_fence: Option<D>, released: R) -> (published:
        PublishedFrame<D, R>)
        ensures
            published == (PublishedFrame {
                frame,
                plane_fds,
                acquire_fence,
                released: Some(released),
            }),
    {
        PublishedFrame { frame, plane_fds, acquire_fence, released: Some(released) }
    }

    /// Takes out what is to be done once nobody uses the frame; it is there once.
    pub fn take_release(&mut self) -> (released: Option<R>)
        ensures
            released == old(self).released,
            *final(self) == (PublishedFrame { released: None, ..*old(self) }),
    {
        self.released.take()
    }
}

/// What became of a frame that was handed in.
pub enum Publication<T> {
    /// The frame is pending, and the worker has to be woken. The frame that it replaced is to be
    /// dropped.
    Pending { replaced: Option<T> },
    /// The publisher has been stopped, or its connection has failed: the frame is to be dropped.
    Rejected { frame: T },
}

/// The model of a publisher.
#[verifier::ext_equal]
pub struct PublisherView<T> {
    pub pending: Option<T>,
    pub stopped: bool,
    pub next_sequence: u32,
    pub socket_fd: i32,
}

impl<T> PublisherView<T> {
    /// A publisher that nothing was handed to yet.
    pub open spec fn initial(socket_fd: i32) -> PublisherView<T> {
        PublisherView { pending: None, stopped: false, next_sequence: 1, socket_fd }
    }

    /// The publisher once `frame` was handed in.
    pub open spec fn publish(self, frame: T) -> PublisherView<T> {
        if self.stopped {
            self
        } else {
            PublisherView { pending: Some(frame), ..self }
        }
    }

    /// What becomes of `frame` when it is handed in.
    pub open spec fn publication(self, frame: T) -> Publication<T> {
        if self.stopped {
            Publication::Rejected { frame }
        } else {
            Publication::Pending { replaced: self.pending }
        }
    }

    /// The publisher once it was stopped.
    pub open spec fn stop(self) -> PublisherView<T> {
        PublisherView { pending: None, stopped: true, ..self }
    }

    /// The publisher once an exchange has ended. A failed exchange stops it: there is nobody left
    /// to send to.
    pub open spec fn settle(self, outcome: Result<(), BridgeError>) -> PublisherView<T> {
        if outcome is Err {
            self.stop()
        } else {
            self
        }
    }

    /// The pending frame that is to be dropped once an exchange has ended.
    pub open spec fn abandoned(self, outcome: Result<(), BridgeError>) -> Option<T> {
        if outcome is Err {
            self.pending
        } else {
            None
        }
    }

    /// Whether the worker has something to send.
    pub open spec fn ready(self) -> bool {
        !self.stopped && self.pending is Some
    }

    /// The publisher once the worker has looked for a frame to send.
    pub open spec fn poll(self) -> PublisherView<T> {
        if self.ready() {
            PublisherView {
                pending: None,
                next_sequence: if self.next_sequence == u32::MAX {
                    0
                } else {
                    (self.next_sequence + 1) as u32
                },
                ..self
            }
        } else {
            self
        }
    }
}

/// The state that the producer and the worker share.
pub struct Publisher<T> {
    pending: Option<T>,
    stopped: bool,
    next_sequence: u32,
    socket_fd: i32,
}

impl<T> View for Publisher<T> {
    type V = PublisherView<T>;

    closed spec fn view(&self) -> PublisherView<T> {
        PublisherView {
            pending: self.pending,
            stopped: self.stopped,
            next_sequence: self.next_sequence,
            socket_fd: self.socket_fd,
        }
    }
}

impl<T> Publisher<T> {
    /// A publisher over `connection`.
    pub fn new(connection: &Connection) -> (publisher: Publisher<T>)
        ensures
            publisher@ == PublisherView::<T>::initial(connection@.fd),
    {
        Publisher {
            pending: None,
            stopped: false,
            next_sequence: 1,
            socket_fd: connection.raw_fd(),
        }
    }

    /// Hands in a frame. It replaces one that has not been sent yet.
    pub fn publish(&mut self, frame: T) -> (publication: Publication<T>)
        ensures
            final(self)@ == old(self)@.publish(frame),
            publication == old(self)@.publication(frame),
    {
        if self.stopped {
            Publication::Rejected { frame }
        } else {
            let replaced = self.pending.take();
            self.pending = Some(frame);
            Publication::Pending { replaced }
        }
    }

    /// Stops the publisher for good, and returns the frame to drop. The worker has to be woken,
    /// and the socket shut down in case it waits for a release.
    pub fn stop(&mut self) -> (dropped: Option<T>)
        ensures
            final(self)@ == old(self)@.stop(),
            dropped == old(self)@.pending,
    {
        self.stopped = true;
        self.pending.take()
    }

    /// The socket to shut down when the publisher is stopped.
    pub fn socket_fd(&self) -> (fd: i32)
        ensures
            fd == self@.socket_fd,
    {
        self.socket_fd
    }
}

/// What the worker does next.
#[derive(Clone, Copy, Debug, PartialEq, Eq, Structural)]
pub enum WorkerAction {
    /// Wait to be woken, and look again.
    Wait,
    /// Send the frame in flight under this sequence.
    Send { sequence: u32 },
    /// Leave the loop.
    Exit,
}

/// The model of a worker: the frame that it has sent and still has to keep, under its sequence.
#[verifier::ext_equal]
pub struct WorkerView<T> {
    pub in_flight: Option<(u32, T)>,
    pub exited: bool,
}

impl<T> WorkerView<T> {
    /// A worker that has sent nothing yet.
    pub open spec fn initial() -> WorkerView<T> {
        WorkerView { in_flight: None, exited: false }
    }

    /// Whether the worker may look for a frame.
    pub open spec fn idle(self) -> bool {
        self.in_flight is None && !self.exited
    }

    /// The worker once it has looked for a frame to send.
    pub open spec fn poll(self, publisher: PublisherView<T>) -> WorkerView<T> {
        if publisher.stopped {
            WorkerView { exited: true, ..self }
        } else {
            match publisher.pending {
                Some(frame) => WorkerView {
                    in_flight: Some((publisher.next_sequence, frame)),
                    ..self
                },
                None => self,
            }
        }
    }

    /// What the worker does once it has looked for a frame to send.
    pub open spec fn action(publisher: PublisherView<T>) -> WorkerAction {
        if publisher.stopped {
            WorkerAction::Exit
        } else if publisher.pending is Some {
            WorkerAction::Send { sequence: publisher.next_sequence }
        } else {
            WorkerAction::Wait
        }
    }

    /// Whether `exchange` is that of the frame in flight, and has ended.
    pub open spec fn settles(self, exchange: ExchangeView) -> bool {
        self.in_flight matches Some((sequence, _)) && sequence == exchange.sequence
            && exchange.outcome() is Some
    }

    /// The worker once the exchange of the frame in flight has ended.
    pub open spec fn settle(self, outcome: Result<(), BridgeError>) -> WorkerView<T> {
        WorkerView { in_flight: None, exited: outcome is Err }
    }

    /// What is to be reported of an exchange: its failure, unless the publisher was stopped.
    pub open spec fn report(publisher: PublisherView<T>, outcome: Result<(), BridgeError>) -> Option<
        BridgeError,
    > {
        match outcome {
            Err(error) if !publisher.stopped => Some(error),
            _ => None,
        }
    }
}

/// A frame whose exchange has ended.
pub struct Settled<T> {
    /// The failure to report before anything is dropped.
    pub report: Option<BridgeError>,
    /// The frame to drop.
    pub frame: T,
    /// The pending frame to drop with it, where the exchange failed.
    pub abandoned: Option<T>,
}

/// The loop that sends frames, one at a time.
pub struct Worker<T> {
    in_flight: Option<(u32, T)>,
    exited: bool,
}

impl<T> View for Worker<T> {
    type V = WorkerView<T>;

    closed spec fn view(&self) -> WorkerView<T> {
        WorkerView { in_flight: self.in_flight, exited: self.exited }
    }
}

impl<T> Worker<T> {
    /// A worker that has sent nothing yet.
    pub fn new() -> (worker: Worker<T>)
        ensures
            worker@ == WorkerView::<T>::initial(),
    {
        Worker { in_flight: None, exited: false }
    }

    /// Whether the worker may look for a frame.
    pub fn idle(&self) -> (idle: bool)
        ensures
            idle == self@.idle(),
    {
        self.in_flight.is_none() && !self.exited
    }

    /// The frame in flight.
    pub fn frame(&self) -> (frame: Option<&T>)
        ensures
            match frame {
                Some(frame) => self@.in_flight matches Some((_, sent)) && sent == *frame,
                None => self@.in_flight is None,
            },
    {
        match &self.in_flight {
            Some((_, frame)) => Some(frame),
            None => None,
        }
    }

    /// Looks for a frame to send. A stopped publisher ends the loop; otherwise the pending frame
    /// is taken under the next sequence.
    pub fn poll(&mut self, publisher: &mut Publisher<T>) -> (action: WorkerAction)
        requires
            old(self)@.idle(),
        ensures
            final(self)@ == old(self)@.poll(old(publisher)@),
            final(publisher)@ == old(publisher)@.poll(),
            action == WorkerView::<T>::action(old(publisher)@),
    {
        if publisher.stopped {
            self.exited = true;
            return WorkerAction::Exit;
        }
        match publisher.pending.take() {
            None => WorkerAction::Wait,
            Some(frame) => {
                let sequence: u32 = publisher.next_sequence;
                publisher.next_sequence = publisher.next_sequence.wrapping_add(1);
                self.in_flight = Some((sequence, frame));
                WorkerAction::Send { sequence }
            },
        }
    }

    /// Gives the frame in flight up once its exchange has ended; `None`, and the frame is kept,
    /// while it has not, or where the exchange is that of another frame. A failure ends the loop
    /// and stops the publisher, which gives its pending frame up as well.
    pub fn settle(&mut self, publisher: &mut Publisher<T>, exchange: &FrameExchange) -> (settled:
        Option<Settled<T>>)
        ensures
            settled is Some <==> old(self)@.settles(exchange@),
            match settled {
                Some(settled) => {
                    let outcome = exchange@.outcome()->0;
                    &&& old(self)@.in_flight == Some((exchange@.sequence, settled.frame))
                    &&& settled.abandoned == old(publisher)@.abandoned(outcome)
                    &&& settled.report == WorkerView::<T>::report(old(publisher)@, outcome)
                    &&& final(self)@ == old(self)@.settle(outcome)
                    &&& final(publisher)@ == old(publisher)@.settle(outcome)
                },
                None => final(self)@ == old(self)@ && final(publisher)@ == old(publisher)@,
            },
    {
        let outcome = match exchange.outcome() {
            Some(outcome) => outcome,
            None => {
                return None;
            },
        };
        match self.in_flight.take() {
            None => None,
            Some((sequence, frame)) => {
                if sequence != exchange.sequence() {
                    self.in_flight = Some((sequence, frame));
                    return None;
                }
                let report = match outcome {
                    Err(error) if !publisher.stopped => Some(error),
                    _ => None,
                };
                self.exited = outcome.is_err();
                let abandoned = if outcome.is_err() {
                    publisher.stop()
                } else {
                    None
                };
                Some(Settled { report, frame, abandoned })
            },
        }
    }
}

} // verus!
